//! The commands that change the brands.

pub mod new_brand;
