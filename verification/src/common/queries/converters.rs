//! The conversion of database rows to output values.

use vstd::prelude::*;

verus! {

/// The errors of converting a row to an output value.
#[derive(Debug, PartialEq, Eq, Clone, Copy, Default, Structural)]
pub struct ConversionErrors {}

impl ConversionErrors {
    /// A new conversion error.
    pub fn new() -> (e: Self)
        ensures
            e == (ConversionErrors {}),
    {
        ConversionErrors {}
    }
}

/// A row that converts to an output value of type `T`.
pub trait ToOutputConverter<T>: Sized {
    /// What converting this row gives.
    closed spec fn output(self) -> Result<T, ConversionErrors> {
        arbitrary()
    }

    /// Converts this row to an output value.
    fn to_output(self) -> (r: Result<T, ConversionErrors>)
        ensures
            r == self.output(),
    ;
}

} // verus!
