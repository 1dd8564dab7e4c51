//! Queries: conversions of rows, aggregates of a root and its children, pages, single results.

pub mod aggregate;
pub mod converters;
pub mod errors;
pub mod pagination;
pub mod single_result;
