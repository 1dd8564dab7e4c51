//! The catalog item identifier.

use crate::catalog::catalog_items::item_number::ItemNumber;
use crate::catalog::manufacturers::manufacturer_id::ManufacturerId;
use vstd::prelude::*;

verus! {

/// It represents the unique identifier for a catalog item: its manufacturer and its item
/// number.
#[derive(Debug, PartialEq, Eq)]
pub struct CatalogItemId {
    manufacturer_id: ManufacturerId,
    item_number: ItemNumber,
}

impl View for CatalogItemId {
    type V = (Seq<char>, Seq<char>);

    closed spec fn view(&self) -> (Seq<char>, Seq<char>) {
        (self.manufacturer_id@, self.item_number@)
    }
}

impl CatalogItemId {
    /// The identifier of the item `item_number` of the manufacturer `manufacturer_id`.
    pub fn new(manufacturer_id: ManufacturerId, item_number: ItemNumber) -> (id: Self)
        ensures
            id@ == (manufacturer_id@, item_number@),
    {
        CatalogItemId { manufacturer_id, item_number }
    }

    /// The identifier of the item `item_number` of the manufacturer `manufacturer_id`.
    pub fn of(manufacturer_id: &ManufacturerId, item_number: &ItemNumber) -> (id: Self)
        ensures
            id@ == (manufacturer_id@, item_number@),
    {
        CatalogItemId { manufacturer_id: manufacturer_id.clone(), item_number: item_number.clone() }
    }

    /// The manufacturer of the item.
    pub fn manufacturer_id(&self) -> (r: &ManufacturerId)
        ensures
            r@ == self@.0,
    {
        &self.manufacturer_id
    }

    /// The item number.
    pub fn item_number(&self) -> (r: &ItemNumber)
        ensures
            r@ == self@.1,
    {
        &self.item_number
    }
}

impl Clone for CatalogItemId {
    fn clone(&self) -> (r: Self)
        ensures
            r@ == self@,
    {
        CatalogItemId::of(&self.manufacturer_id, &self.item_number)
    }
}

} // verus!
