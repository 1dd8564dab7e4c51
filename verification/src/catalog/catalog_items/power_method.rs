//! The power methods of the models, as far as this library knows them.

use vstd::prelude::*;

verus! {

/// The power method of a model.
#[derive(Debug, Copy, Clone, PartialEq, Eq, Structural)]
pub enum PowerMethod {
    /// direct current
    DC,
}

} // verus!
