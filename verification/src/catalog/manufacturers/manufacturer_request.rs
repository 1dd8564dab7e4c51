//! the request to create or update a manufacturer

use crate::catalog::manufacturers::manufacturer_kind::ManufacturerKind;
use crate::catalog::manufacturers::manufacturer_status::ManufacturerStatus;
use crate::common::address::Address;
use crate::common::contacts::ContactInformation;
use crate::common::localized_text::LocalizedText;
use crate::common::organizations::OrganizationEntityType;
use crate::common::socials::Socials;
use vstd::prelude::*;

verus! {

/// It represents a request to create or update a model railway manufacturer
#[derive(Debug, Clone)]
pub struct ManufacturerRequest {
    /// the name
    pub name: String,
    /// the registered company name
    pub registered_company_name: Option<String>,
    /// the organization entity type
    pub organization_entity_type: Option<OrganizationEntityType>,
    /// the group name in case the manufacturer is part of a group
    pub group_name: Option<String>,
    /// the description
    pub description: LocalizedText,
    /// the manufacturer main address
    pub address: Option<Address>,
    /// the contact information
    pub contact_info: Option<ContactInformation>,
    /// the manufacturer kind
    pub kind: ManufacturerKind,
    /// the manufacturer status
    pub status: Option<ManufacturerStatus>,
    /// the manufacturer social profiles
    pub socials: Option<Socials>,
}

} // verus!
