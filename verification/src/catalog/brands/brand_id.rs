//! The brand identifier.

use crate::common::slug::{slugify_text, Slug, SlugParserError};
use vstd::prelude::*;

verus! {

/// It represents the unique identifier for a brand.
#[derive(Debug, PartialEq, Eq, Ord, PartialOrd, Clone, Hash)]
pub struct BrandId(Slug);

impl View for BrandId {
    type V = Seq<char>;

    closed spec fn view(&self) -> Seq<char> {
        self.0@
    }
}

impl BrandId {
    /// Creates a new brand unique identifier: the slug of `id`.
    ///
    /// `id` must not be blank.
    pub fn new(id: &str) -> (m: Self)
        requires
            id@.len() > 0,
        ensures
            m@ == slugify_text(id@),
    {
        BrandId(Slug::new(id))
    }

    /// Reads a brand identifier: `Err` for an empty value, else the slug of `s`.
    pub fn parse(s: &str) -> (r: Result<Self, SlugParserError>)
        ensures
            s@.len() == 0 ==> r == Err::<BrandId, SlugParserError>(SlugParserError::EmptyValue),
            s@.len() > 0 ==> (r matches Ok(m) && m@ == slugify_text(s@)),
    {
        match Slug::parse(s) {
            Ok(slug) => Ok(BrandId(slug)),
            Err(e) => Err(e),
        }
    }

    /// The slug of this identifier.
    pub fn slug(&self) -> (s: &Slug)
        ensures
            s@ == self@,
    {
        &self.0
    }

    /// The text of this identifier.
    pub fn to_string(&self) -> (s: String)
        ensures
            s@ == self@,
    {
        self.0.to_string()
    }
}

impl std::str::FromStr for BrandId {
    type Err = SlugParserError;

    fn from_str(s: &str) -> (r: Result<Self, Self::Err>)
        ensures
            s@.len() == 0 ==> r == Err::<BrandId, SlugParserError>(SlugParserError::EmptyValue),
            s@.len() > 0 ==> (r matches Ok(m) && m@ == slugify_text(s@)),
    {
        BrandId::parse(s)
    }
}

impl std::ops::Deref for BrandId {
    type Target = Slug;

    fn deref(&self) -> (r: &Slug)
        ensures
            r@ == self@,
    {
        &self.0
    }
}

} // verus!
