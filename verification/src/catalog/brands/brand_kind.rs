//! The brand kinds.

use crate::text::{chars_of, chars_equal_ignore_ascii_case, eq_ignore_ascii_case, string_of_slice, ParseError};
use vstd::prelude::*;

verus! {

/// The different kinds for railway models brands
#[derive(Debug, Copy, Clone, PartialEq, Eq, Structural)]
pub enum BrandKind {
    /// These brands produce models which are made of brass or similar alloys.
    BrassModels,
    /// Brands of models made with the die casting method
    Industrial,
}

/// The text of each BrandKind value.
pub open spec fn brand_kind_text(v: BrandKind) -> Seq<char> {
    match v {
        BrandKind::BrassModels => seq!['B', 'R', 'A', 'S', 'S', '_', 'M', 'O', 'D', 'E', 'L', 'S'],
        BrandKind::Industrial => seq!['I', 'N', 'D', 'U', 'S', 'T', 'R', 'I', 'A', 'L'],
    }
}

/// The BrandKind value that `s` names (ASCII letters in any case).
pub open spec fn parse_brand_kind(s: Seq<char>) -> Result<BrandKind, ParseError> {
    if eq_ignore_ascii_case(s, brand_kind_text(BrandKind::BrassModels)) {
        Ok(BrandKind::BrassModels)
    } else if eq_ignore_ascii_case(s, brand_kind_text(BrandKind::Industrial)) {
        Ok(BrandKind::Industrial)
    } else {
        Err(ParseError::VariantNotFound)
    }
}

/// Parsing the text of a value gives back the value.
pub proof fn lemma_brand_kind_round_trip(v: BrandKind)
    ensures
        parse_brand_kind(brand_kind_text(v)) == Ok::<BrandKind, ParseError>(v),
{
    match v {
        BrandKind::BrassModels => {},
        BrandKind::Industrial => {},
    }
}



impl BrandKind {
    /// Parses the text of a value (ASCII letters in any case).
    pub fn parse(s: &str) -> (r: Result<BrandKind, ParseError>)
        ensures
            r == parse_brand_kind(s@),
    {
        let v = chars_of(s);
        let w: &[char] = &['B', 'R', 'A', 'S', 'S', '_', 'M', 'O', 'D', 'E', 'L', 'S'];
        assert(w@ =~= brand_kind_text(BrandKind::BrassModels));
        if chars_equal_ignore_ascii_case(&v, w) {
            return Ok(BrandKind::BrassModels);
        }
        let w: &[char] = &['I', 'N', 'D', 'U', 'S', 'T', 'R', 'I', 'A', 'L'];
        assert(w@ =~= brand_kind_text(BrandKind::Industrial));
        if chars_equal_ignore_ascii_case(&v, w) {
            return Ok(BrandKind::Industrial);
        }
        Err(ParseError::VariantNotFound)
    }

    /// The text of this value.
    pub fn to_string(&self) -> (s: String)
        ensures
            s@ == brand_kind_text(*self),
    {
        match self {
            BrandKind::BrassModels => {
                let w: &[char] = &['B', 'R', 'A', 'S', 'S', '_', 'M', 'O', 'D', 'E', 'L', 'S'];
                assert(w@ =~= brand_kind_text(BrandKind::BrassModels));
                string_of_slice(w)
            },
            BrandKind::Industrial => {
                let w: &[char] = &['I', 'N', 'D', 'U', 'S', 'T', 'R', 'I', 'A', 'L'];
                assert(w@ =~= brand_kind_text(BrandKind::Industrial));
                string_of_slice(w)
            },
        }
    }
}

impl std::str::FromStr for BrandKind {
    type Err = ParseError;

    fn from_str(s: &str) -> (r: Result<Self, Self::Err>)
        ensures
            r == parse_brand_kind(s@),
    {
        BrandKind::parse(s)
    }
}

impl Default for BrandKind {
    fn default() -> (r: Self)
        ensures
            r == BrandKind::Industrial,
    {
        BrandKind::Industrial
    }
}

} // verus!
