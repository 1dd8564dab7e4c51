//! the new brand creation command

use crate::catalog::brands::brand_id::BrandId;
use crate::catalog::brands::brand_kind::BrandKind;
use crate::catalog::brands::brand_request::BrandRequest;
use crate::catalog::brands::brand_response::BrandCreated;
use crate::catalog::brands::brand_status::BrandStatus;
use crate::common::address::{alpha2_code, country_alpha2, Address};
use crate::common::contacts::{ContactInformation, MailAddress, PhoneNumber, WebsiteUrl};
use crate::common::localized_text::LocalizedText;
use crate::common::metadata::Metadata;
use crate::common::organizations::OrganizationEntityType;
use crate::common::queries::errors::DatabaseError;
use crate::common::slug::slugify_text;
use crate::common::socials::{Handler, Socials};
use vstd::prelude::*;

verus! {

/// The errors of the creation of a brand.
#[derive(Debug)]
pub enum BrandCreationError {
    /// The brand already exists
    BrandAlreadyExists(BrandId),
    /// a database error
    DatabaseError(DatabaseError),
    /// an unexpected error
    UnexpectedError(anyhow::Error),
}

/// It represents the command to create a new model railway brand
#[derive(Debug, Clone)]
pub struct NewBrandCommand {
    pub brand_id: BrandId,
    pub payload: BrandCommandPayload,
    pub metadata: Metadata,
}

/// The values of a brand as they are stored.
#[derive(Debug, Clone, Default)]
pub struct BrandCommandPayload {
    pub name: String,
    pub registered_company_name: Option<String>,
    pub organization_entity_type: Option<OrganizationEntityType>,
    pub group_name: Option<String>,
    pub description: LocalizedText,
    pub kind: BrandKind,
    pub status: Option<BrandStatus>,
    pub contact_email: Option<MailAddress>,
    pub contact_website_url: Option<WebsiteUrl>,
    pub contact_phone: Option<PhoneNumber>,
    pub address_street_address: Option<String>,
    pub address_extended_address: Option<String>,
    pub address_city: Option<String>,
    pub address_region: Option<String>,
    pub address_postal_code: Option<String>,
    pub address_country: Option<String>,
    pub facebook_handler: Option<Handler>,
    pub instagram_handler: Option<Handler>,
    pub linkedin_handler: Option<Handler>,
    pub twitter_handler: Option<Handler>,
    pub youtube_handler: Option<Handler>,
}

/// The contact information of a request, none where it has none.
pub open spec fn request_contacts(request: BrandRequest) -> ContactInformation {
    match request.contact_info {
        Some(c) => c,
        None => ContactInformation { email: None, phone: None, website_url: None },
    }
}

/// The social profiles of a request, none where it has none.
pub open spec fn request_socials(request: BrandRequest) -> Socials {
    match request.socials {
        Some(s) => s,
        None => Socials { facebook: None, instagram: None, linkedin: None, twitter: None, youtube: None },
    }
}

/// The payload holds the values of the request: its contacts and social profiles one by
/// one, and the values of its address, with the country as its alpha-2 code.
pub open spec fn payload_of_request(p: BrandCommandPayload, request: BrandRequest) -> bool {
    &&& p.name == request.name
    &&& p.registered_company_name == request.registered_company_name
    &&& p.organization_entity_type == request.organization_entity_type
    &&& p.group_name == request.group_name
    &&& p.description == request.description
    &&& p.kind == request.kind
    &&& p.status == request.status
    &&& p.contact_email == request_contacts(request).email
    &&& p.contact_website_url == request_contacts(request).website_url
    &&& p.contact_phone == request_contacts(request).phone
    &&& p.facebook_handler == request_socials(request).facebook
    &&& p.instagram_handler == request_socials(request).instagram
    &&& p.linkedin_handler == request_socials(request).linkedin
    &&& p.twitter_handler == request_socials(request).twitter
    &&& p.youtube_handler == request_socials(request).youtube
    &&& match request.address {
        Some(a) => {
            &&& p.address_street_address == Some(a.street_address)
            &&& p.address_extended_address == a.extended_address
            &&& p.address_city == Some(a.city)
            &&& p.address_region == a.region
            &&& p.address_postal_code == Some(a.postal_code)
            &&& p.address_country matches Some(c) && c@ == country_alpha2(a.country)
        },
        None => {
            &&& p.address_street_address is None
            &&& p.address_extended_address is None
            &&& p.address_city is None
            &&& p.address_region is None
            &&& p.address_postal_code is None
            &&& p.address_country is None
        },
    }
}

/// The payload keeps each value of the request in the field of the same name: each social
/// profile under its own network (the facebook handler as the facebook handler, and so
/// on), each contact under its own kind, and each part of the address under its own part
/// (the region as the region, the extended address as the extended address); none of them
/// where the request has no social profiles, contacts or address.
pub proof fn lemma_brand_payload_keeps_request_values(p: BrandCommandPayload, request: BrandRequest)
    requires
        payload_of_request(p, request),
    ensures
        p.name == request.name,
        request.socials matches Some(s) ==> {
            &&& p.facebook_handler == s.facebook
            &&& p.instagram_handler == s.instagram
            &&& p.linkedin_handler == s.linkedin
            &&& p.twitter_handler == s.twitter
            &&& p.youtube_handler == s.youtube
        },
        request.socials is None ==> {
            &&& p.facebook_handler is None && p.instagram_handler is None && p.linkedin_handler is None
            &&& p.twitter_handler is None && p.youtube_handler is None
        },
        request.contact_info matches Some(c) ==> {
            &&& p.contact_email == c.email
            &&& p.contact_phone == c.phone
            &&& p.contact_website_url == c.website_url
        },
        request.contact_info is None ==> p.contact_email is None && p.contact_phone is None
            && p.contact_website_url is None,
        request.address matches Some(a) ==> {
            &&& p.address_street_address == Some(a.street_address)
            &&& p.address_extended_address == a.extended_address
            &&& p.address_city == Some(a.city)
            &&& p.address_region == a.region
            &&& p.address_postal_code == Some(a.postal_code)
            &&& p.address_country matches Some(c) && c@ == country_alpha2(a.country)
        },
        request.address is None ==> {
            &&& p.address_street_address is None && p.address_extended_address is None
            &&& p.address_city is None && p.address_region is None
            &&& p.address_postal_code is None && p.address_country is None
        },
{
}

impl BrandCommandPayload {
    /// The payload of a request; it always succeeds.
    pub fn try_from(request: BrandRequest) -> (r: Result<Self, BrandCreationError>)
        ensures
            r matches Ok(p) && payload_of_request(p, request),
    {
        let contacts = match request.contact_info {
            Some(c) => c,
            None => ContactInformation::default(),
        };
        let ContactInformation { email, website_url, phone } = contacts;
        let socials = match request.socials {
            Some(s) => s,
            None => Socials::default(),
        };
        let Socials { facebook, instagram, linkedin, twitter, youtube } = socials;
        let (
            address_street_address,
            address_extended_address,
            address_city,
            address_region,
            address_postal_code,
            address_country,
        ) = match request.address {
            Some(Address { street_address, extended_address, city, region, postal_code, country }) => (
                Some(street_address),
                extended_address,
                Some(city),
                region,
                Some(postal_code),
                Some(alpha2_code(country)),
            ),
            None => (None, None, None, None, None, None),
        };
        let value = BrandCommandPayload {
            name: request.name,
            registered_company_name: request.registered_company_name,
            organization_entity_type: request.organization_entity_type,
            group_name: request.group_name,
            description: request.description,
            kind: request.kind,
            status: request.status,
            contact_email: email,
            contact_website_url: website_url,
            contact_phone: phone,
            address_street_address,
            address_extended_address,
            address_city,
            address_region,
            address_postal_code,
            address_country,
            facebook_handler: facebook,
            instagram_handler: instagram,
            linkedin_handler: linkedin,
            twitter_handler: twitter,
            youtube_handler: youtube,
        };
        Ok(value)
    }
}

impl NewBrandCommand {
    /// The command to create the brand of a request: its identifier is the slug of
    /// its name, its payload holds its values, and it is created now, at version 1. No field
    /// rule of the request is checked: this library defines none for brand requests, so
    /// this never fails.
    pub fn try_from(value: BrandRequest) -> (r: Result<Self, BrandCreationError>)
        requires
            value.name@.len() > 0,
        ensures
            r matches Ok(c) && c.brand_id@ == slugify_text(value.name@) && payload_of_request(
                c.payload,
                value,
            ) && c.metadata@.0 == 1 && c.metadata@.2 is None,
    {
        let brand_id = BrandId::new(value.name.as_str());
        let payload = match BrandCommandPayload::try_from(value) {
            Ok(p) => p,
            Err(e) => {
                return Err(e);
            },
        };
        let metadata = Metadata::default();
        Ok(NewBrandCommand { brand_id, payload, metadata })
    }
}

/// What the creation of a brand decides once it knows whether one with the same
/// identifier exists: an error naming the identifier where it does, else the command to
/// store.
pub fn creation_command(request: BrandRequest, brand_id: BrandId, already_exists: bool) -> (r:
    Result<NewBrandCommand, BrandCreationError>)
    requires
        request.name@.len() > 0,
    ensures
        already_exists ==> (r matches Err(BrandCreationError::BrandAlreadyExists(id))
            && id == brand_id),
        !already_exists ==> (r matches Ok(c) && c.brand_id@ == slugify_text(request.name@)
            && payload_of_request(c.payload, request) && c.metadata@.0 == 1 && c.metadata@.2 is None),
{
    if already_exists {
        Err(BrandCreationError::BrandAlreadyExists(brand_id))
    } else {
        NewBrandCommand::try_from(request)
    }
}

/// The answer to a stored creation: the identifier, created when the command was.
pub fn creation_response(brand_id: BrandId, command: &NewBrandCommand) -> (r: BrandCreated)
    ensures
        r.brand_id == brand_id,
        r.created_at == command.metadata@.1,
{
    BrandCreated { brand_id, created_at: *command.metadata.created() }
}

} // verus!
