//! The manufacturers of the catalog.

pub mod manufacturer_kind;
pub mod manufacturer_status;
pub mod manufacturer_id;
pub mod manufacturer;
pub mod manufacturer_request;
pub mod manufacturer_response;
pub mod commands;
