//! the catalog item command responses

use crate::catalog::catalog_items::catalog_item_id::CatalogItemId;
use crate::common::metadata::Timestamp;
use vstd::prelude::*;

verus! {

/// It represents a response for catalog items creation
#[derive(Debug, PartialEq, Eq)]
pub struct CatalogItemCreated {
    /// the identifier of the new catalog item
    pub catalog_item_id: CatalogItemId,
    /// the catalog item creation timestamp
    pub created_at: Timestamp,
}

} // verus!
