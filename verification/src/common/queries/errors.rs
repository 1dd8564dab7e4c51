//! The errors of the queries to the database.

use crate::common::queries::converters::ConversionErrors;
use vstd::prelude::*;

verus! {

/// The errors of the `anyhow` crate.
#[verifier::external_type_specification]
#[verifier::external_body]
pub struct ExAnyhowError(anyhow::Error);

/// The errors of a database operation.
#[derive(Debug)]
pub enum DatabaseError {
    /// an unexpected error
    UnexpectedError(anyhow::Error),
    /// Error during the row conversion
    ConversionError(ConversionErrors),
}

} // verus!
