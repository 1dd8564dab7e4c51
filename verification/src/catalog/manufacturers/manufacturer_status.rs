//! The manufacturer status.

use crate::text::{chars_of, chars_equal_ignore_ascii_case, eq_ignore_ascii_case, string_of_slice, ParseError};
use vstd::prelude::*;

verus! {

/// The current status for a model railway company
#[derive(Debug, Copy, Clone, PartialEq, Eq, Structural)]
pub enum ManufacturerStatus {
    /// the manufacturer is active
    Active,
    /// the manufacturer is out of business
    OutOfBusiness,
}

/// The text of each ManufacturerStatus value.
pub open spec fn manufacturer_status_text(v: ManufacturerStatus) -> Seq<char> {
    match v {
        ManufacturerStatus::Active => seq!['A', 'C', 'T', 'I', 'V', 'E'],
        ManufacturerStatus::OutOfBusiness => seq!['O', 'U', 'T', '_', 'O', 'F', '_', 'B', 'U', 'S', 'I', 'N', 'E', 'S', 'S'],
    }
}

/// The ManufacturerStatus value that `s` names (ASCII letters in any case).
pub open spec fn parse_manufacturer_status(s: Seq<char>) -> Result<ManufacturerStatus, ParseError> {
    if eq_ignore_ascii_case(s, manufacturer_status_text(ManufacturerStatus::Active)) {
        Ok(ManufacturerStatus::Active)
    } else if eq_ignore_ascii_case(s, manufacturer_status_text(ManufacturerStatus::OutOfBusiness)) {
        Ok(ManufacturerStatus::OutOfBusiness)
    } else {
        Err(ParseError::VariantNotFound)
    }
}

/// Parsing the text of a value gives back the value.
pub proof fn lemma_manufacturer_status_round_trip(v: ManufacturerStatus)
    ensures
        parse_manufacturer_status(manufacturer_status_text(v)) == Ok::<ManufacturerStatus, ParseError>(v),
{
    match v {
        ManufacturerStatus::Active => {},
        ManufacturerStatus::OutOfBusiness => {},
    }
}


impl ManufacturerStatus {
    /// Parses the text of a value (ASCII letters in any case).
    pub fn parse(s: &str) -> (r: Result<ManufacturerStatus, ParseError>)
        ensures
            r == parse_manufacturer_status(s@),
    {
        let v = chars_of(s);
        let w: &[char] = &['A', 'C', 'T', 'I', 'V', 'E'];
        assert(w@ =~= manufacturer_status_text(ManufacturerStatus::Active));
        if chars_equal_ignore_ascii_case(&v, w) {
            return Ok(ManufacturerStatus::Active);
        }
        let w: &[char] = &['O', 'U', 'T', '_', 'O', 'F', '_', 'B', 'U', 'S', 'I', 'N', 'E', 'S', 'S'];
        assert(w@ =~= manufacturer_status_text(ManufacturerStatus::OutOfBusiness));
        if chars_equal_ignore_ascii_case(&v, w) {
            return Ok(ManufacturerStatus::OutOfBusiness);
        }
        Err(ParseError::VariantNotFound)
    }

    /// The text of this value.
    pub fn to_string(&self) -> (s: String)
        ensures
            s@ == manufacturer_status_text(*self),
    {
        match self {
            ManufacturerStatus::Active => {
                let w: &[char] = &['A', 'C', 'T', 'I', 'V', 'E'];
                assert(w@ =~= manufacturer_status_text(ManufacturerStatus::Active));
                string_of_slice(w)
            },
            ManufacturerStatus::OutOfBusiness => {
                let w: &[char] = &['O', 'U', 'T', '_', 'O', 'F', '_', 'B', 'U', 'S', 'I', 'N', 'E', 'S', 'S'];
                assert(w@ =~= manufacturer_status_text(ManufacturerStatus::OutOfBusiness));
                string_of_slice(w)
            },
        }
    }
}

impl std::str::FromStr for ManufacturerStatus {
    type Err = ParseError;

    fn from_str(s: &str) -> (r: Result<Self, Self::Err>)
        ensures
            r == parse_manufacturer_status(s@),
    {
        ManufacturerStatus::parse(s)
    }
}

} // verus!
