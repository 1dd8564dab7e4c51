//! the manufacturer view models

use crate::catalog::manufacturers::manufacturer_id::ManufacturerId;
use crate::catalog::manufacturers::manufacturer_kind::ManufacturerKind;
use crate::catalog::manufacturers::manufacturer_status::ManufacturerStatus;
use crate::common::address::{opt_str_text, Address};
use crate::common::contacts::{opt_text, ContactInformation};
use crate::common::localized_text::{Language, LocalizedText};
use crate::common::metadata::Metadata;
use crate::common::organizations::OrganizationEntityType;
use crate::common::socials::Socials;
use vstd::prelude::*;

verus! {

/// It represents a model railways manufacturer.
#[derive(Debug, Clone)]
pub struct Manufacturer {
    /// the manufacturer unique identifier (an url encoded string)
    pub manufacturer_id: ManufacturerId,
    /// the name
    pub name: String,
    /// the registered company name
    pub registered_company_name: Option<String>,
    /// the organization entity type
    pub organization_entity_type: Option<OrganizationEntityType>,
    /// the group name in case the manufacturer is part of a group
    pub group_name: Option<String>,
    /// the description
    pub description: LocalizedText,
    /// the manufacturer main address
    pub address: Option<Address>,
    /// the contact information
    pub contact_info: Option<ContactInformation>,
    /// the manufacturer kind
    pub kind: ManufacturerKind,
    /// the manufacturer status
    pub status: Option<ManufacturerStatus>,
    /// the manufacturer social profiles
    pub socials: Option<Socials>,
    /// the manufacturer metadata
    pub metadata: Metadata,
}

/// An optional reference, as an optional value.
pub open spec fn deref_opt<T>(r: Option<&T>) -> Option<T> {
    match r {
        Some(v) => Some(*v),
        None => None,
    }
}

/// The owned copy of an optional string slice.
fn owned(s: Option<&str>) -> (r: Option<String>)
    ensures
        opt_text(r) == opt_str_text(s),
{
    match s {
        Some(s) => Some(s.to_owned()),
        None => None,
    }
}

impl Manufacturer {
    /// Creates a new modelling rail manufacturer; the description, where there is one, is
    /// its Italian text.
    pub fn new(
        manufacturer_id: ManufacturerId,
        name: &str,
        registered_company_name: Option<&str>,
        organization_entity_type: Option<OrganizationEntityType>,
        group_name: Option<&str>,
        description: Option<&str>,
        address: Option<Address>,
        contact_info: Option<ContactInformation>,
        kind: ManufacturerKind,
        status: Option<ManufacturerStatus>,
        socials: Option<Socials>,
        metadata: Metadata,
    ) -> (m: Self)
        ensures
            m.manufacturer_id == manufacturer_id,
            m.name@ == name@,
            opt_text(m.registered_company_name) == opt_str_text(registered_company_name),
            m.organization_entity_type == organization_entity_type,
            opt_text(m.group_name) == opt_str_text(group_name),
            m.description.label(Language::Italian) == opt_str_text(description),
            m.description.label(Language::English) == None::<Seq<char>>,
            m.address == address,
            m.contact_info == contact_info,
            m.kind == kind,
            m.status == status,
            m.socials == socials,
            m.metadata == metadata,
    {
        let description = match description {
            Some(d) => LocalizedText::with_italian(d),
            None => LocalizedText::default(),
        };
        Manufacturer {
            manufacturer_id,
            name: name.to_owned(),
            registered_company_name: owned(registered_company_name),
            organization_entity_type,
            group_name: owned(group_name),
            description,
            address,
            contact_info,
            kind,
            status,
            socials,
            metadata,
        }
    }

    /// this manufacturer unique identifier (an url encoded string)
    pub fn manufacturer_id(&self) -> (r: &ManufacturerId)
        ensures
            *r == self.manufacturer_id,
    {
        &self.manufacturer_id
    }

    /// this manufacturer name
    pub fn name(&self) -> (r: &str)
        ensures
            r@ == self.name@,
    {
        self.name.as_str()
    }

    /// this manufacturer description: its Italian text
    pub fn description(&self) -> (r: Option<&String>)
        ensures
            match r {
                Some(s) => self.description.label(Language::Italian) == Some(s@),
                None => self.description.label(Language::Italian) == None::<Seq<char>>,
            },
    {
        self.description.italian()
    }

    /// this manufacturer registered company name
    pub fn registered_company_name(&self) -> (r: Option<&String>)
        ensures
            deref_opt(r) == self.registered_company_name,
    {
        self.registered_company_name.as_ref()
    }

    /// the organization entity type
    pub fn organization_entity_type(&self) -> (r: Option<OrganizationEntityType>)
        ensures
            r == self.organization_entity_type,
    {
        self.organization_entity_type
    }

    /// this manufacturer group name (if any)
    pub fn group_name(&self) -> (r: Option<&String>)
        ensures
            deref_opt(r) == self.group_name,
    {
        self.group_name.as_ref()
    }

    /// the contact information (email, phone, website url)
    pub fn contact_info(&self) -> (r: Option<&ContactInformation>)
        ensures
            deref_opt(r) == self.contact_info,
    {
        self.contact_info.as_ref()
    }

    /// the postal address
    pub fn address(&self) -> (r: Option<&Address>)
        ensures
            deref_opt(r) == self.address,
    {
        self.address.as_ref()
    }

    /// this manufacturer status
    pub fn status(&self) -> (r: Option<&ManufacturerStatus>)
        ensures
            deref_opt(r) == self.status,
    {
        self.status.as_ref()
    }

    /// this manufacturer kind
    pub fn kind(&self) -> (r: ManufacturerKind)
        ensures
            r == self.kind,
    {
        self.kind
    }

    /// the social profiles
    pub fn socials(&self) -> (r: Option<&Socials>)
        ensures
            deref_opt(r) == self.socials,
    {
        self.socials.as_ref()
    }

    /// the metadata
    pub fn metadata(&self) -> (r: &Metadata)
        ensures
            *r == self.metadata,
    {
        &self.metadata
    }

    /// The text of this manufacturer: its name.
    pub fn to_string(&self) -> (s: String)
        ensures
            s@ == self.name@,
    {
        self.name.clone()
    }
}

impl PartialEq for Manufacturer {
    /// Two manufacturers are equal when they have the same identifier.
    fn eq(&self, other: &Self) -> (r: bool) {
        self.manufacturer_id.to_string() == other.manufacturer_id.to_string()
    }
}

impl vstd::std_specs::cmp::PartialEqSpecImpl for Manufacturer {
    open spec fn obeys_eq_spec() -> bool {
        true
    }

    open spec fn eq_spec(&self, other: &Self) -> bool {
        self.manufacturer_id@ == other.manufacturer_id@
    }
}

impl Eq for Manufacturer {
}

} // verus!
