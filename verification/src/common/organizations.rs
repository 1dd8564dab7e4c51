//! The kinds of organizations.

use crate::text::{ascii_lower, chars_of, chars_equal_ignore_ascii_case, eq_ignore_ascii_case, string_of_slice, ParseError};
use vstd::prelude::*;

verus! {

/// The many types of business entities defined in the legal systems of various countries
#[derive(Debug, Copy, Clone, PartialEq, Eq, Structural)]
pub enum OrganizationEntityType {
    CivilLawPartnership,
    EntrepreneurialCompany,
    GlobalPartnership,
    LimitedCompany,
    LimitedPartnership,
    LimitedPartnershipLimitedCompany,
    Other,
    PublicInstitution,
    PublicLimitedCompany,
    RegisteredSoleTrader,
    SoleTrader,
    StateOwnedEnterprise,
}

/// The text of each OrganizationEntityType value.
pub open spec fn organization_entity_type_text(v: OrganizationEntityType) -> Seq<char> {
    match v {
        OrganizationEntityType::CivilLawPartnership => seq!['C', 'I', 'V', 'I', 'L', '_', 'L', 'A', 'W', '_', 'P', 'A', 'R', 'T', 'N', 'E', 'R', 'S', 'H', 'I', 'P'],
        OrganizationEntityType::EntrepreneurialCompany => seq!['E', 'N', 'T', 'R', 'E', 'P', 'R', 'E', 'N', 'E', 'U', 'R', 'I', 'A', 'L', '_', 'C', 'O', 'M', 'P', 'A', 'N', 'Y'],
        OrganizationEntityType::GlobalPartnership => seq!['G', 'L', 'O', 'B', 'A', 'L', '_', 'P', 'A', 'R', 'T', 'N', 'E', 'R', 'S', 'H', 'I', 'P'],
        OrganizationEntityType::LimitedCompany => seq!['L', 'I', 'M', 'I', 'T', 'E', 'D', '_', 'C', 'O', 'M', 'P', 'A', 'N', 'Y'],
        OrganizationEntityType::LimitedPartnership => seq!['L', 'I', 'M', 'I', 'T', 'E', 'D', '_', 'P', 'A', 'R', 'T', 'N', 'E', 'R', 'S', 'H', 'I', 'P'],
        OrganizationEntityType::LimitedPartnershipLimitedCompany => seq!['L', 'I', 'M', 'I', 'T', 'E', 'D', '_', 'P', 'A', 'R', 'T', 'N', 'E', 'R', 'S', 'H', 'I', 'P', '_', 'L', 'I', 'M', 'I', 'T', 'E', 'D', '_', 'C', 'O', 'M', 'P', 'A', 'N', 'Y'],
        OrganizationEntityType::Other => seq!['O', 'T', 'H', 'E', 'R'],
        OrganizationEntityType::PublicInstitution => seq!['P', 'U', 'B', 'L', 'I', 'C', '_', 'I', 'N', 'S', 'T', 'I', 'T', 'U', 'T', 'I', 'O', 'N'],
        OrganizationEntityType::PublicLimitedCompany => seq!['P', 'U', 'B', 'L', 'I', 'C', '_', 'L', 'I', 'M', 'I', 'T', 'E', 'D', '_', 'C', 'O', 'M', 'P', 'A', 'N', 'Y'],
        OrganizationEntityType::RegisteredSoleTrader => seq!['R', 'E', 'G', 'I', 'S', 'T', 'E', 'R', 'E', 'D', '_', 'S', 'O', 'L', 'E', '_', 'T', 'R', 'A', 'D', 'E', 'R'],
        OrganizationEntityType::SoleTrader => seq!['S', 'O', 'L', 'E', '_', 'T', 'R', 'A', 'D', 'E', 'R'],
        OrganizationEntityType::StateOwnedEnterprise => seq!['S', 'T', 'A', 'T', 'E', '_', 'O', 'W', 'N', 'E', 'D', '_', 'E', 'N', 'T', 'E', 'R', 'P', 'R', 'I', 'S', 'E'],
    }
}

/// The OrganizationEntityType value that `s` names (ASCII letters in any case).
pub open spec fn parse_organization_entity_type(s: Seq<char>) -> Result<OrganizationEntityType, ParseError> {
    if eq_ignore_ascii_case(s, organization_entity_type_text(OrganizationEntityType::CivilLawPartnership)) {
        Ok(OrganizationEntityType::CivilLawPartnership)
    } else if eq_ignore_ascii_case(s, organization_entity_type_text(OrganizationEntityType::EntrepreneurialCompany)) {
        Ok(OrganizationEntityType::EntrepreneurialCompany)
    } else if eq_ignore_ascii_case(s, organization_entity_type_text(OrganizationEntityType::GlobalPartnership)) {
        Ok(OrganizationEntityType::GlobalPartnership)
    } else if eq_ignore_ascii_case(s, organization_entity_type_text(OrganizationEntityType::LimitedCompany)) {
        Ok(OrganizationEntityType::LimitedCompany)
    } else if eq_ignore_ascii_case(s, organization_entity_type_text(OrganizationEntityType::LimitedPartnership)) {
        Ok(OrganizationEntityType::LimitedPartnership)
    } else if eq_ignore_ascii_case(s, organization_entity_type_text(OrganizationEntityType::LimitedPartnershipLimitedCompany)) {
        Ok(OrganizationEntityType::LimitedPartnershipLimitedCompany)
    } else if eq_ignore_ascii_case(s, organization_entity_type_text(OrganizationEntityType::Other)) {
        Ok(OrganizationEntityType::Other)
    } else if eq_ignore_ascii_case(s, organization_entity_type_text(OrganizationEntityType::PublicInstitution)) {
        Ok(OrganizationEntityType::PublicInstitution)
    } else if eq_ignore_ascii_case(s, organization_entity_type_text(OrganizationEntityType::PublicLimitedCompany)) {
        Ok(OrganizationEntityType::PublicLimitedCompany)
    } else if eq_ignore_ascii_case(s, organization_entity_type_text(OrganizationEntityType::RegisteredSoleTrader)) {
        Ok(OrganizationEntityType::RegisteredSoleTrader)
    } else if eq_ignore_ascii_case(s, organization_entity_type_text(OrganizationEntityType::SoleTrader)) {
        Ok(OrganizationEntityType::SoleTrader)
    } else if eq_ignore_ascii_case(s, organization_entity_type_text(OrganizationEntityType::StateOwnedEnterprise)) {
        Ok(OrganizationEntityType::StateOwnedEnterprise)
    } else {
        Err(ParseError::VariantNotFound)
    }
}

/// Parsing the text of a value gives back the value.
pub proof fn lemma_organization_entity_type_round_trip(v: OrganizationEntityType)
    ensures
        parse_organization_entity_type(organization_entity_type_text(v)) == Ok::<OrganizationEntityType, ParseError>(v),
{
    match v {
        OrganizationEntityType::CivilLawPartnership => {},
        OrganizationEntityType::EntrepreneurialCompany => {},
        OrganizationEntityType::GlobalPartnership => {},
        OrganizationEntityType::LimitedCompany => {},
        OrganizationEntityType::LimitedPartnership => {},
        OrganizationEntityType::LimitedPartnershipLimitedCompany => {},
        OrganizationEntityType::Other => {},
        OrganizationEntityType::PublicInstitution => {
            assert(ascii_lower(organization_entity_type_text(OrganizationEntityType::PublicInstitution)[0]) != ascii_lower(organization_entity_type_text(OrganizationEntityType::GlobalPartnership)[0]));
        },
        OrganizationEntityType::PublicLimitedCompany => {},
        OrganizationEntityType::RegisteredSoleTrader => {
            assert(ascii_lower(organization_entity_type_text(OrganizationEntityType::RegisteredSoleTrader)[0]) != ascii_lower(organization_entity_type_text(OrganizationEntityType::PublicLimitedCompany)[0]));
        },
        OrganizationEntityType::SoleTrader => {},
        OrganizationEntityType::StateOwnedEnterprise => {
            assert(ascii_lower(organization_entity_type_text(OrganizationEntityType::StateOwnedEnterprise)[0]) != ascii_lower(organization_entity_type_text(OrganizationEntityType::PublicLimitedCompany)[0]));
            assert(ascii_lower(organization_entity_type_text(OrganizationEntityType::StateOwnedEnterprise)[0]) != ascii_lower(organization_entity_type_text(OrganizationEntityType::RegisteredSoleTrader)[0]));
        },
    }
}


impl OrganizationEntityType {
    /// Parses the text of a value (ASCII letters in any case).
    pub fn parse(s: &str) -> (r: Result<OrganizationEntityType, ParseError>)
        ensures
            r == parse_organization_entity_type(s@),
    {
        let v = chars_of(s);
        let w: &[char] = &['C', 'I', 'V', 'I', 'L', '_', 'L', 'A', 'W', '_', 'P', 'A', 'R', 'T', 'N', 'E', 'R', 'S', 'H', 'I', 'P'];
        assert(w@ =~= organization_entity_type_text(OrganizationEntityType::CivilLawPartnership));
        if chars_equal_ignore_ascii_case(&v, w) {
            return Ok(OrganizationEntityType::CivilLawPartnership);
        }
        let w: &[char] = &['E', 'N', 'T', 'R', 'E', 'P', 'R', 'E', 'N', 'E', 'U', 'R', 'I', 'A', 'L', '_', 'C', 'O', 'M', 'P', 'A', 'N', 'Y'];
        assert(w@ =~= organization_entity_type_text(OrganizationEntityType::EntrepreneurialCompany));
        if chars_equal_ignore_ascii_case(&v, w) {
            return Ok(OrganizationEntityType::EntrepreneurialCompany);
        }
        let w: &[char] = &['G', 'L', 'O', 'B', 'A', 'L', '_', 'P', 'A', 'R', 'T', 'N', 'E', 'R', 'S', 'H', 'I', 'P'];
        assert(w@ =~= organization_entity_type_text(OrganizationEntityType::GlobalPartnership));
        if chars_equal_ignore_ascii_case(&v, w) {
            return Ok(OrganizationEntityType::GlobalPartnership);
        }
        let w: &[char] = &['L', 'I', 'M', 'I', 'T', 'E', 'D', '_', 'C', 'O', 'M', 'P', 'A', 'N', 'Y'];
        assert(w@ =~= organization_entity_type_text(OrganizationEntityType::LimitedCompany));
        if chars_equal_ignore_ascii_case(&v, w) {
            return Ok(OrganizationEntityType::LimitedCompany);
        }
        let w: &[char] = &['L', 'I', 'M', 'I', 'T', 'E', 'D', '_', 'P', 'A', 'R', 'T', 'N', 'E', 'R', 'S', 'H', 'I', 'P'];
        assert(w@ =~= organization_entity_type_text(OrganizationEntityType::LimitedPartnership));
        if chars_equal_ignore_ascii_case(&v, w) {
            return Ok(OrganizationEntityType::LimitedPartnership);
        }
        let w: &[char] = &['L', 'I', 'M', 'I', 'T', 'E', 'D', '_', 'P', 'A', 'R', 'T', 'N', 'E', 'R', 'S', 'H', 'I', 'P', '_', 'L', 'I', 'M', 'I', 'T', 'E', 'D', '_', 'C', 'O', 'M', 'P', 'A', 'N', 'Y'];
        assert(w@ =~= organization_entity_type_text(OrganizationEntityType::LimitedPartnershipLimitedCompany));
        if chars_equal_ignore_ascii_case(&v, w) {
            return Ok(OrganizationEntityType::LimitedPartnershipLimitedCompany);
        }
        let w: &[char] = &['O', 'T', 'H', 'E', 'R'];
        assert(w@ =~= organization_entity_type_text(OrganizationEntityType::Other));
        if chars_equal_ignore_ascii_case(&v, w) {
            return Ok(OrganizationEntityType::Other);
        }
        let w: &[char] = &['P', 'U', 'B', 'L', 'I', 'C', '_', 'I', 'N', 'S', 'T', 'I', 'T', 'U', 'T', 'I', 'O', 'N'];
        assert(w@ =~= organization_entity_type_text(OrganizationEntityType::PublicInstitution));
        if chars_equal_ignore_ascii_case(&v, w) {
            return Ok(OrganizationEntityType::PublicInstitution);
        }
        let w: &[char] = &['P', 'U', 'B', 'L', 'I', 'C', '_', 'L', 'I', 'M', 'I', 'T', 'E', 'D', '_', 'C', 'O', 'M', 'P', 'A', 'N', 'Y'];
        assert(w@ =~= organization_entity_type_text(OrganizationEntityType::PublicLimitedCompany));
        if chars_equal_ignore_ascii_case(&v, w) {
            return Ok(OrganizationEntityType::PublicLimitedCompany);
        }
        let w: &[char] = &['R', 'E', 'G', 'I', 'S', 'T', 'E', 'R', 'E', 'D', '_', 'S', 'O', 'L', 'E', '_', 'T', 'R', 'A', 'D', 'E', 'R'];
        assert(w@ =~= organization_entity_type_text(OrganizationEntityType::RegisteredSoleTrader));
        if chars_equal_ignore_ascii_case(&v, w) {
            return Ok(OrganizationEntityType::RegisteredSoleTrader);
        }
        let w: &[char] = &['S', 'O', 'L', 'E', '_', 'T', 'R', 'A', 'D', 'E', 'R'];
        assert(w@ =~= organization_entity_type_text(OrganizationEntityType::SoleTrader));
        if chars_equal_ignore_ascii_case(&v, w) {
            return Ok(OrganizationEntityType::SoleTrader);
        }
        let w: &[char] = &['S', 'T', 'A', 'T', 'E', '_', 'O', 'W', 'N', 'E', 'D', '_', 'E', 'N', 'T', 'E', 'R', 'P', 'R', 'I', 'S', 'E'];
        assert(w@ =~= organization_entity_type_text(OrganizationEntityType::StateOwnedEnterprise));
        if chars_equal_ignore_ascii_case(&v, w) {
            return Ok(OrganizationEntityType::StateOwnedEnterprise);
        }
        Err(ParseError::VariantNotFound)
    }

    /// The text of this value.
    pub fn to_string(&self) -> (s: String)
        ensures
            s@ == organization_entity_type_text(*self),
    {
        match self {
            OrganizationEntityType::CivilLawPartnership => {
                let w: &[char] = &['C', 'I', 'V', 'I', 'L', '_', 'L', 'A', 'W', '_', 'P', 'A', 'R', 'T', 'N', 'E', 'R', 'S', 'H', 'I', 'P'];
                assert(w@ =~= organization_entity_type_text(OrganizationEntityType::CivilLawPartnership));
                string_of_slice(w)
            },
            OrganizationEntityType::EntrepreneurialCompany => {
                let w: &[char] = &['E', 'N', 'T', 'R', 'E', 'P', 'R', 'E', 'N', 'E', 'U', 'R', 'I', 'A', 'L', '_', 'C', 'O', 'M', 'P', 'A', 'N', 'Y'];
                assert(w@ =~= organization_entity_type_text(OrganizationEntityType::EntrepreneurialCompany));
                string_of_slice(w)
            },
            OrganizationEntityType::GlobalPartnership => {
                let w: &[char] = &['G', 'L', 'O', 'B', 'A', 'L', '_', 'P', 'A', 'R', 'T', 'N', 'E', 'R', 'S', 'H', 'I', 'P'];
                assert(w@ =~= organization_entity_type_text(OrganizationEntityType::GlobalPartnership));
                string_of_slice(w)
            },
            OrganizationEntityType::LimitedCompany => {
                let w: &[char] = &['L', 'I', 'M', 'I', 'T', 'E', 'D', '_', 'C', 'O', 'M', 'P', 'A', 'N', 'Y'];
                assert(w@ =~= organization_entity_type_text(OrganizationEntityType::LimitedCompany));
                string_of_slice(w)
            },
            OrganizationEntityType::LimitedPartnership => {
                let w: &[char] = &['L', 'I', 'M', 'I', 'T', 'E', 'D', '_', 'P', 'A', 'R', 'T', 'N', 'E', 'R', 'S', 'H', 'I', 'P'];
                assert(w@ =~= organization_entity_type_text(OrganizationEntityType::LimitedPartnership));
                string_of_slice(w)
            },
            OrganizationEntityType::LimitedPartnershipLimitedCompany => {
                let w: &[char] = &['L', 'I', 'M', 'I', 'T', 'E', 'D', '_', 'P', 'A', 'R', 'T', 'N', 'E', 'R', 'S', 'H', 'I', 'P', '_', 'L', 'I', 'M', 'I', 'T', 'E', 'D', '_', 'C', 'O', 'M', 'P', 'A', 'N', 'Y'];
                assert(w@ =~= organization_entity_type_text(OrganizationEntityType::LimitedPartnershipLimitedCompany));
                string_of_slice(w)
            },
            OrganizationEntityType::Other => {
                let w: &[char] = &['O', 'T', 'H', 'E', 'R'];
                assert(w@ =~= organization_entity_type_text(OrganizationEntityType::Other));
                string_of_slice(w)
            },
            OrganizationEntityType::PublicInstitution => {
                let w: &[char] = &['P', 'U', 'B', 'L', 'I', 'C', '_', 'I', 'N', 'S', 'T', 'I', 'T', 'U', 'T', 'I', 'O', 'N'];
                assert(w@ =~= organization_entity_type_text(OrganizationEntityType::PublicInstitution));
                string_of_slice(w)
            },
            OrganizationEntityType::PublicLimitedCompany => {
                let w: &[char] = &['P', 'U', 'B', 'L', 'I', 'C', '_', 'L', 'I', 'M', 'I', 'T', 'E', 'D', '_', 'C', 'O', 'M', 'P', 'A', 'N', 'Y'];
                assert(w@ =~= organization_entity_type_text(OrganizationEntityType::PublicLimitedCompany));
                string_of_slice(w)
            },
            OrganizationEntityType::RegisteredSoleTrader => {
                let w: &[char] = &['R', 'E', 'G', 'I', 'S', 'T', 'E', 'R', 'E', 'D', '_', 'S', 'O', 'L', 'E', '_', 'T', 'R', 'A', 'D', 'E', 'R'];
                assert(w@ =~= organization_entity_type_text(OrganizationEntityType::RegisteredSoleTrader));
                string_of_slice(w)
            },
            OrganizationEntityType::SoleTrader => {
                let w: &[char] = &['S', 'O', 'L', 'E', '_', 'T', 'R', 'A', 'D', 'E', 'R'];
                assert(w@ =~= organization_entity_type_text(OrganizationEntityType::SoleTrader));
                string_of_slice(w)
            },
            OrganizationEntityType::StateOwnedEnterprise => {
                let w: &[char] = &['S', 'T', 'A', 'T', 'E', '_', 'O', 'W', 'N', 'E', 'D', '_', 'E', 'N', 'T', 'E', 'R', 'P', 'R', 'I', 'S', 'E'];
                assert(w@ =~= organization_entity_type_text(OrganizationEntityType::StateOwnedEnterprise));
                string_of_slice(w)
            },
        }
    }
}

impl std::str::FromStr for OrganizationEntityType {
    type Err = ParseError;

    fn from_str(s: &str) -> (r: Result<Self, Self::Err>)
        ensures
            r == parse_organization_entity_type(s@),
    {
        OrganizationEntityType::parse(s)
    }
}

} // verus!
