//! The commands that change the catalog items.

pub mod new_catalog_item;
