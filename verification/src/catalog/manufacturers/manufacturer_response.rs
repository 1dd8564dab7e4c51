//! the manufacturer command responses

use crate::catalog::manufacturers::manufacturer_id::ManufacturerId;
use crate::common::metadata::Timestamp;
use vstd::prelude::*;

verus! {

/// It represents a response for manufacturers creation
#[derive(Debug, PartialEq, Eq)]
pub struct ManufacturerCreated {
    /// the manufacturer id for the new manufacturer
    pub manufacturer_id: ManufacturerId,
    /// the manufacturer creation timestamp
    pub created_at: Timestamp,
}

/// It represents a response for manufacturer updates
#[derive(Debug, PartialEq, Eq)]
pub struct ManufacturerUpdated {
    /// the manufacturer id for the updated manufacturer
    pub manufacturer_id: ManufacturerId,
    /// the manufacturer update timestamp
    pub last_modified_at: Timestamp,
}

} // verus!
