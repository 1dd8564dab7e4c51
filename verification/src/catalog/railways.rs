//! The railway companies of the catalog.

pub mod railway_id;
