//! The catalog item availability status.

use crate::text::{ascii_lower, chars_of, chars_equal_ignore_ascii_case, eq_ignore_ascii_case, string_of_slice, ParseError};
use vstd::prelude::*;

verus! {

/// The availability status for a catalog item
#[derive(Debug, Copy, Clone, PartialEq, Eq, Structural)]
pub enum AvailabilityStatus {
    /// the catalog item is just announced, hence not yet available
    Announced,
    /// the catalog item is available
    Available,
    /// the catalog item is discontinued
    Discontinued,
}

/// The text of each AvailabilityStatus value.
pub open spec fn availability_status_text(v: AvailabilityStatus) -> Seq<char> {
    match v {
        AvailabilityStatus::Announced => seq!['A', 'N', 'N', 'O', 'U', 'N', 'C', 'E', 'D'],
        AvailabilityStatus::Available => seq!['A', 'V', 'A', 'I', 'L', 'A', 'B', 'L', 'E'],
        AvailabilityStatus::Discontinued => seq!['D', 'I', 'S', 'C', 'O', 'N', 'T', 'I', 'N', 'U', 'E', 'D'],
    }
}

/// The AvailabilityStatus value that `s` names (ASCII letters in any case).
pub open spec fn parse_availability_status(s: Seq<char>) -> Result<AvailabilityStatus, ParseError> {
    if eq_ignore_ascii_case(s, availability_status_text(AvailabilityStatus::Announced)) {
        Ok(AvailabilityStatus::Announced)
    } else if eq_ignore_ascii_case(s, availability_status_text(AvailabilityStatus::Available)) {
        Ok(AvailabilityStatus::Available)
    } else if eq_ignore_ascii_case(s, availability_status_text(AvailabilityStatus::Discontinued)) {
        Ok(AvailabilityStatus::Discontinued)
    } else {
        Err(ParseError::VariantNotFound)
    }
}

/// Parsing the text of a value gives back the value.
pub proof fn lemma_availability_status_round_trip(v: AvailabilityStatus)
    ensures
        parse_availability_status(availability_status_text(v)) == Ok::<AvailabilityStatus, ParseError>(v),
{
    match v {
        AvailabilityStatus::Announced => {},
        AvailabilityStatus::Available => {
            assert(ascii_lower(availability_status_text(AvailabilityStatus::Available)[1]) != ascii_lower(availability_status_text(AvailabilityStatus::Announced)[1]));
        },
        AvailabilityStatus::Discontinued => {},
    }
}


impl AvailabilityStatus {
    /// Parses the text of a value (ASCII letters in any case).
    pub fn parse(s: &str) -> (r: Result<AvailabilityStatus, ParseError>)
        ensures
            r == parse_availability_status(s@),
    {
        let v = chars_of(s);
        let w: &[char] = &['A', 'N', 'N', 'O', 'U', 'N', 'C', 'E', 'D'];
        assert(w@ =~= availability_status_text(AvailabilityStatus::Announced));
        if chars_equal_ignore_ascii_case(&v, w) {
            return Ok(AvailabilityStatus::Announced);
        }
        let w: &[char] = &['A', 'V', 'A', 'I', 'L', 'A', 'B', 'L', 'E'];
        assert(w@ =~= availability_status_text(AvailabilityStatus::Available));
        if chars_equal_ignore_ascii_case(&v, w) {
            return Ok(AvailabilityStatus::Available);
        }
        let w: &[char] = &['D', 'I', 'S', 'C', 'O', 'N', 'T', 'I', 'N', 'U', 'E', 'D'];
        assert(w@ =~= availability_status_text(AvailabilityStatus::Discontinued));
        if chars_equal_ignore_ascii_case(&v, w) {
            return Ok(AvailabilityStatus::Discontinued);
        }
        Err(ParseError::VariantNotFound)
    }

    /// The text of this value.
    pub fn to_string(&self) -> (s: String)
        ensures
            s@ == availability_status_text(*self),
    {
        match self {
            AvailabilityStatus::Announced => {
                let w: &[char] = &['A', 'N', 'N', 'O', 'U', 'N', 'C', 'E', 'D'];
                assert(w@ =~= availability_status_text(AvailabilityStatus::Announced));
                string_of_slice(w)
            },
            AvailabilityStatus::Available => {
                let w: &[char] = &['A', 'V', 'A', 'I', 'L', 'A', 'B', 'L', 'E'];
                assert(w@ =~= availability_status_text(AvailabilityStatus::Available));
                string_of_slice(w)
            },
            AvailabilityStatus::Discontinued => {
                let w: &[char] = &['D', 'I', 'S', 'C', 'O', 'N', 'T', 'I', 'N', 'U', 'E', 'D'];
                assert(w@ =~= availability_status_text(AvailabilityStatus::Discontinued));
                string_of_slice(w)
            },
        }
    }
}

impl std::str::FromStr for AvailabilityStatus {
    type Err = ParseError;

    fn from_str(s: &str) -> (r: Result<Self, Self::Err>)
        ensures
            r == parse_availability_status(s@),
    {
        AvailabilityStatus::parse(s)
    }
}

} // verus!
