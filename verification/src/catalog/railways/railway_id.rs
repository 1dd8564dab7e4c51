//! The railway identifier.

use crate::common::slug::{slugify_text, Slug};
use vstd::prelude::*;

verus! {

/// It represents the unique identifier for a railway: the slug of its name.
#[derive(Debug, PartialEq, Eq, Clone, Hash)]
pub struct RailwayId(Slug);

impl View for RailwayId {
    type V = Seq<char>;

    closed spec fn view(&self) -> Seq<char> {
        self.0@
    }
}

impl RailwayId {
    /// Creates a railway identifier: the slug of `value`, which must not be blank.
    pub fn new(value: &str) -> (id: Self)
        requires
            value@.len() > 0,
        ensures
            id@ == slugify_text(value@),
    {
        RailwayId(Slug::new(value))
    }

    /// The text of this identifier.
    pub fn to_string(&self) -> (s: String)
        ensures
            s@ == self@,
    {
        self.0.to_string()
    }
}

} // verus!
