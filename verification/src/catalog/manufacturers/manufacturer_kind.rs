//! The manufacturer kinds.

use crate::text::{chars_of, chars_equal_ignore_ascii_case, eq_ignore_ascii_case, string_of_slice, ParseError};
use vstd::prelude::*;

verus! {

/// The different kinds for railway models manufacturers
#[derive(Debug, Copy, Clone, PartialEq, Eq, Structural)]
pub enum ManufacturerKind {
    /// These manufacturers produce models which are made of brass or similar alloys.
    BrassModels,
    /// These manufactures produce models using the die casting method
    Industrial,
}

/// The text of each ManufacturerKind value.
pub open spec fn manufacturer_kind_text(v: ManufacturerKind) -> Seq<char> {
    match v {
        ManufacturerKind::BrassModels => seq!['B', 'R', 'A', 'S', 'S', '_', 'M', 'O', 'D', 'E', 'L', 'S'],
        ManufacturerKind::Industrial => seq!['I', 'N', 'D', 'U', 'S', 'T', 'R', 'I', 'A', 'L'],
    }
}

/// The ManufacturerKind value that `s` names (ASCII letters in any case).
pub open spec fn parse_manufacturer_kind(s: Seq<char>) -> Result<ManufacturerKind, ParseError> {
    if eq_ignore_ascii_case(s, manufacturer_kind_text(ManufacturerKind::BrassModels)) {
        Ok(ManufacturerKind::BrassModels)
    } else if eq_ignore_ascii_case(s, manufacturer_kind_text(ManufacturerKind::Industrial)) {
        Ok(ManufacturerKind::Industrial)
    } else {
        Err(ParseError::VariantNotFound)
    }
}

/// Parsing the text of a value gives back the value.
pub proof fn lemma_manufacturer_kind_round_trip(v: ManufacturerKind)
    ensures
        parse_manufacturer_kind(manufacturer_kind_text(v)) == Ok::<ManufacturerKind, ParseError>(v),
{
    match v {
        ManufacturerKind::BrassModels => {},
        ManufacturerKind::Industrial => {},
    }
}



impl ManufacturerKind {
    /// Parses the text of a value (ASCII letters in any case).
    pub fn parse(s: &str) -> (r: Result<ManufacturerKind, ParseError>)
        ensures
            r == parse_manufacturer_kind(s@),
    {
        let v = chars_of(s);
        let w: &[char] = &['B', 'R', 'A', 'S', 'S', '_', 'M', 'O', 'D', 'E', 'L', 'S'];
        assert(w@ =~= manufacturer_kind_text(ManufacturerKind::BrassModels));
        if chars_equal_ignore_ascii_case(&v, w) {
            return Ok(ManufacturerKind::BrassModels);
        }
        let w: &[char] = &['I', 'N', 'D', 'U', 'S', 'T', 'R', 'I', 'A', 'L'];
        assert(w@ =~= manufacturer_kind_text(ManufacturerKind::Industrial));
        if chars_equal_ignore_ascii_case(&v, w) {
            return Ok(ManufacturerKind::Industrial);
        }
        Err(ParseError::VariantNotFound)
    }

    /// The text of this value.
    pub fn to_string(&self) -> (s: String)
        ensures
            s@ == manufacturer_kind_text(*self),
    {
        match self {
            ManufacturerKind::BrassModels => {
                let w: &[char] = &['B', 'R', 'A', 'S', 'S', '_', 'M', 'O', 'D', 'E', 'L', 'S'];
                assert(w@ =~= manufacturer_kind_text(ManufacturerKind::BrassModels));
                string_of_slice(w)
            },
            ManufacturerKind::Industrial => {
                let w: &[char] = &['I', 'N', 'D', 'U', 'S', 'T', 'R', 'I', 'A', 'L'];
                assert(w@ =~= manufacturer_kind_text(ManufacturerKind::Industrial));
                string_of_slice(w)
            },
        }
    }
}

impl std::str::FromStr for ManufacturerKind {
    type Err = ParseError;

    fn from_str(s: &str) -> (r: Result<Self, Self::Err>)
        ensures
            r == parse_manufacturer_kind(s@),
    {
        ManufacturerKind::parse(s)
    }
}

impl Default for ManufacturerKind {
    fn default() -> (r: Self)
        ensures
            r == ManufacturerKind::Industrial,
    {
        ManufacturerKind::Industrial
    }
}

} // verus!
