//! The brand status.

use crate::text::{chars_of, chars_equal_ignore_ascii_case, eq_ignore_ascii_case, string_of_slice, ParseError};
use vstd::prelude::*;

verus! {

/// The current status for a model railway company
#[derive(Debug, Copy, Clone, PartialEq, Eq, Structural)]
pub enum BrandStatus {
    /// the brand is active
    Active,
    /// the brand is out of business
    OutOfBusiness,
}

/// The text of each BrandStatus value.
pub open spec fn brand_status_text(v: BrandStatus) -> Seq<char> {
    match v {
        BrandStatus::Active => seq!['A', 'C', 'T', 'I', 'V', 'E'],
        BrandStatus::OutOfBusiness => seq!['O', 'U', 'T', '_', 'O', 'F', '_', 'B', 'U', 'S', 'I', 'N', 'E', 'S', 'S'],
    }
}

/// The BrandStatus value that `s` names (ASCII letters in any case).
pub open spec fn parse_brand_status(s: Seq<char>) -> Result<BrandStatus, ParseError> {
    if eq_ignore_ascii_case(s, brand_status_text(BrandStatus::Active)) {
        Ok(BrandStatus::Active)
    } else if eq_ignore_ascii_case(s, brand_status_text(BrandStatus::OutOfBusiness)) {
        Ok(BrandStatus::OutOfBusiness)
    } else {
        Err(ParseError::VariantNotFound)
    }
}

/// Parsing the text of a value gives back the value.
pub proof fn lemma_brand_status_round_trip(v: BrandStatus)
    ensures
        parse_brand_status(brand_status_text(v)) == Ok::<BrandStatus, ParseError>(v),
{
    match v {
        BrandStatus::Active => {},
        BrandStatus::OutOfBusiness => {},
    }
}


impl BrandStatus {
    /// Parses the text of a value (ASCII letters in any case).
    pub fn parse(s: &str) -> (r: Result<BrandStatus, ParseError>)
        ensures
            r == parse_brand_status(s@),
    {
        let v = chars_of(s);
        let w: &[char] = &['A', 'C', 'T', 'I', 'V', 'E'];
        assert(w@ =~= brand_status_text(BrandStatus::Active));
        if chars_equal_ignore_ascii_case(&v, w) {
            return Ok(BrandStatus::Active);
        }
        let w: &[char] = &['O', 'U', 'T', '_', 'O', 'F', '_', 'B', 'U', 'S', 'I', 'N', 'E', 'S', 'S'];
        assert(w@ =~= brand_status_text(BrandStatus::OutOfBusiness));
        if chars_equal_ignore_ascii_case(&v, w) {
            return Ok(BrandStatus::OutOfBusiness);
        }
        Err(ParseError::VariantNotFound)
    }

    /// The text of this value.
    pub fn to_string(&self) -> (s: String)
        ensures
            s@ == brand_status_text(*self),
    {
        match self {
            BrandStatus::Active => {
                let w: &[char] = &['A', 'C', 'T', 'I', 'V', 'E'];
                assert(w@ =~= brand_status_text(BrandStatus::Active));
                string_of_slice(w)
            },
            BrandStatus::OutOfBusiness => {
                let w: &[char] = &['O', 'U', 'T', '_', 'O', 'F', '_', 'B', 'U', 'S', 'I', 'N', 'E', 'S', 'S'];
                assert(w@ =~= brand_status_text(BrandStatus::OutOfBusiness));
                string_of_slice(w)
            },
        }
    }
}

impl std::str::FromStr for BrandStatus {
    type Err = ParseError;

    fn from_str(s: &str) -> (r: Result<Self, Self::Err>)
        ensures
            r == parse_brand_status(s@),
    {
        BrandStatus::parse(s)
    }
}

} // verus!
