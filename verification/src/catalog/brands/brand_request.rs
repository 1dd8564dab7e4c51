//! the request to create or update a brand

use crate::catalog::brands::brand_kind::BrandKind;
use crate::catalog::brands::brand_status::BrandStatus;
use crate::common::address::Address;
use crate::common::contacts::ContactInformation;
use crate::common::localized_text::LocalizedText;
use crate::common::organizations::OrganizationEntityType;
use crate::common::socials::Socials;
use vstd::prelude::*;

verus! {

/// It represents a request to create or update a model railway brand
#[derive(Debug, Clone)]
pub struct BrandRequest {
    /// the name
    pub name: String,
    /// the registered company name
    pub registered_company_name: Option<String>,
    /// the organization entity type
    pub organization_entity_type: Option<OrganizationEntityType>,
    /// the group name in case the brand is part of a group
    pub group_name: Option<String>,
    /// the description
    pub description: LocalizedText,
    /// the brand main address
    pub address: Option<Address>,
    /// the contact information
    pub contact_info: Option<ContactInformation>,
    /// the brand kind
    pub kind: BrandKind,
    /// the brand status
    pub status: Option<BrandStatus>,
    /// the brand social profiles
    pub socials: Option<Socials>,
}

} // verus!
