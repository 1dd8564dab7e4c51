//! The modelling scales of the catalog.

pub mod scale_id;
