//! The brands of the catalog.

pub mod brand_status;
pub mod brand_kind;
pub mod brand_id;
pub mod brand;
pub mod brand_request;
pub mod brand_response;
pub mod commands;
