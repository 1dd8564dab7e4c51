//! The values shared by the whole catalog: addresses, contacts, lengths, texts, identifiers.

pub mod organizations;
pub mod slug;
pub mod decimal;
pub mod measure_units;
pub mod length;
pub mod address;
pub mod metadata;
pub mod validation;
pub mod localized_text;
pub mod socials;
pub mod contacts;
pub mod contact;
pub mod queries;
