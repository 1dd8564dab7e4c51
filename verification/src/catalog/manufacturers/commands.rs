//! The commands that change the manufacturers.

pub mod new_manufacturer;
