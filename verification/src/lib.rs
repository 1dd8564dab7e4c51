//! A catalog of model railway rolling stocks and the values that describe them.

pub mod catalog;
pub mod common;
pub mod text;
