//! The model railway catalog: catalog items, manufacturers, brands, railways and scales.

pub mod brands;
pub mod catalog_items;
pub mod manufacturers;
pub mod railways;
pub mod scales;
