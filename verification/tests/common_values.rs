use std::ops::Deref;
use std::str::FromStr;

use isocountry::CountryCode;
use trenako::common::address::{Address, AddressBuilderError};
use trenako::common::contact::{
    ContactInfo, MailAddress as OldMailAddress, PhoneNumber as OldPhoneNumber, WebsiteUrl as OldWebsiteUrl,
};
use trenako::common::contacts::{
    ContactInformation, ContactInformationError, MailAddress, MailAddressParsingError, PhoneNumber,
    PhoneParsingError, UrlParseError, WebsiteUrl, WebsiteUrlParsingError,
};
use trenako::common::localized_text::{Language, LocalizedText, LocalizedTextBuilder};
use trenako::common::metadata::{Metadata, Timestamp};
use trenako::common::organizations::OrganizationEntityType;
use trenako::common::queries::single_result::ByIdCriteria;
use trenako::common::slug::{Slug, SlugParserError};
use trenako::common::socials::{Handler, SocialHandlerError, Socials, SocialsBuilderError};
use trenako::text::ParseError;

fn now() -> Timestamp {
    let now = chrono::Utc::now();
    Timestamp::new(now.timestamp(), now.timestamp_subsec_nanos())
}

#[test]
fn it_should_create_new_addresses() {
    let address = Address::builder()
        .street_address("22 acacia avenue")
        .extended_address("Apt. 999")
        .region("Essex")
        .city("London")
        .country(CountryCode::GBR)
        .postal_code("123456")
        .build()
        .unwrap();

    assert_eq!("22 acacia avenue", address.street_address());
    assert_eq!(Some("Apt. 999"), address.extended_address());
    assert_eq!(Some("Essex"), address.region());
    assert_eq!("London", address.city());
    assert_eq!(CountryCode::GBR, address.country_code());
    assert_eq!("123456", address.postal_code());
}

fn build_address(
    street_address: Option<&str>,
    postal_code: Option<&str>,
    city: Option<&str>,
    country: Option<CountryCode>,
) -> Result<Address, AddressBuilderError> {
    let mut address_builder = Address::builder();
    if let Some(street_address) = street_address {
        address_builder = address_builder.street_address(street_address);
    }
    if let Some(postal_code) = postal_code {
        address_builder = address_builder.postal_code(postal_code);
    }
    if let Some(city) = city {
        address_builder = address_builder.city(city);
    }
    if let Some(country) = country {
        address_builder = address_builder.country(country);
    }
    address_builder.build()
}

#[test]
fn it_should_validate_the_required_value() {
    assert_eq!(
        Err(AddressBuilderError::MissingStreetAddress),
        build_address(None, Some("postal_code"), Some("city"), Some(CountryCode::ITA))
    );
    assert_eq!(
        Err(AddressBuilderError::MissingPostalCode),
        build_address(Some("street_address"), None, Some("city"), Some(CountryCode::ITA))
    );
    assert_eq!(
        Err(AddressBuilderError::MissingCity),
        build_address(Some("street_address"), Some("postal_code"), None, Some(CountryCode::ITA))
    );
    assert_eq!(
        Err(AddressBuilderError::MissingCountry),
        build_address(Some("street_address"), Some("postal_code"), Some("city"), None)
    );
}

#[test]
fn address_builder_reports_the_street_address_before_the_other_missing_values() {
    assert_eq!(Err(AddressBuilderError::MissingStreetAddress), build_address(None, None, None, None));
    assert_eq!(
        Err(AddressBuilderError::MissingCity),
        build_address(Some("street_address"), None, None, None)
    );
}

#[test]
fn contact_it_should_create_contact_info() {
    let email = OldMailAddress::from_str("mail@mail.com").unwrap();
    let website_url = OldWebsiteUrl::new("http://www.website.com");
    let phone = OldPhoneNumber::from_str("+15551234").unwrap();

    let contact_info = ContactInfo::new(Some(email.clone()), Some(website_url.clone()), Some(phone.clone()));

    assert_eq!(Some(&email), contact_info.email());
    assert_eq!(Some(&phone), contact_info.phone());
    assert_eq!(Some(&website_url), contact_info.website_url());
}

#[test]
fn contact_it_should_create_mail_addresses() {
    let mail_address = OldMailAddress::from_str("mail@mail.com").unwrap();
    assert_eq!("mail@mail.com", mail_address.to_string());
}

#[test]
fn it_should_create_phone_numbers() {
    let phone_number = OldPhoneNumber::from_str("555-123456").unwrap();
    assert_eq!("555-123456", phone_number.to_string());
}

#[test]
fn contact_it_should_convert_str_to_website_urls() {
    let result: Result<OldWebsiteUrl, ()> = OldWebsiteUrl::try_from("http://www.website.com");
    assert!(result.is_ok());
    assert_eq!("http://www.website.com/", result.unwrap().to_string());
}

#[test]
fn emails_it_should_create_mail_addresses() {
    let mail_address = MailAddress::from_str("mail@mail.com").unwrap();
    assert_eq!("mail@mail.com", mail_address.to_string());
}

#[test]
fn website_urls_it_should_convert_str_to_website_urls() {
    let result = WebsiteUrl::from_str("http://www.website.com");
    assert!(result.is_ok());
    assert_eq!("http://www.website.com/", result.unwrap().to_string());
}

#[test]
fn website_urls_reject_relative_urls() {
    assert_eq!(
        Err(WebsiteUrlParsingError::InvalidWebsiteUrl(UrlParseError::RelativeUrlWithoutBase)),
        WebsiteUrl::from_str("www.website.com")
    );
}

#[test]
fn mod_it_should_create_contact_info() {
    let email = MailAddress::from_str("mail@mail.com").unwrap();
    let website_url = WebsiteUrl::new("http://www.website.com");
    let phone = PhoneNumber::from_str("+15551234").unwrap();

    let contact_info = ContactInformation::new(Some(email.clone()), Some(website_url.clone()), Some(phone.clone()));

    assert_eq!(Some(&email), contact_info.email());
    assert_eq!(Some(&phone), contact_info.phone());
    assert_eq!(Some(&website_url), contact_info.website_url());
}

#[test]
fn it_should_validate_input_building_contact_info() {
    let result = ContactInformation::builder()
        .email("")
        .phone("+555 1234")
        .website_url("http://www.ebsite.com")
        .build();
    assert_eq!(Err(ContactInformationError::InvalidEmail(MailAddressParsingError::InvalidMailAddress)), result);

    let result = ContactInformation::builder()
        .email("mail@mail.com")
        .phone("")
        .website_url("http://www.ebsite.com")
        .build();
    assert_eq!(Err(ContactInformationError::InvalidPhoneNumber(PhoneParsingError::InvalidPhone)), result);

    let result = ContactInformation::builder()
        .email("mail@mail.com")
        .phone("+555 1234")
        .website_url("")
        .build();
    assert_eq!(
        Err(ContactInformationError::InvalidWebsiteUrl(WebsiteUrlParsingError::InvalidWebsiteUrl(
            UrlParseError::RelativeUrlWithoutBase
        ))),
        result
    );
}

#[test]
fn it_should_create_english_localized_texts() {
    let localized_text = LocalizedText::with_english("Hello world");
    assert_eq!(Some(&String::from("Hello world")), localized_text.english());
    assert_eq!(None, localized_text.italian());
}

#[test]
fn it_should_create_italian_localized_texts() {
    let localized_text = LocalizedText::with_italian("Buongiorno");
    assert_eq!(Some(&String::from("Buongiorno")), localized_text.italian());
    assert_eq!(None, localized_text.english());
}

#[test]
fn it_should_build_localize_texts() {
    let localized_text = LocalizedTextBuilder::default()
        .english_text("hello world")
        .italian_text("Buongiorno")
        .build();

    assert_eq!(Some(&String::from("Buongiorno")), localized_text.italian());
    assert_eq!(Some(&String::from("hello world")), localized_text.english());
}

#[test]
fn it_should_display_languages() {
    assert_eq!("en", Language::English.to_string());
    assert_eq!("it", Language::Italian.to_string());
}

#[test]
fn it_should_parse_languages() {
    assert_eq!(Ok(Language::English), "en".parse::<Language>());
    assert_eq!(Ok(Language::Italian), "it".parse::<Language>());
    assert_eq!(Err(ParseError::VariantNotFound), "EN".parse::<Language>());
}

#[test]
fn it_should_create_metadata() {
    let now = now();
    let metadata = Metadata::created_at(now);
    assert_eq!(1, metadata.version());
    assert_eq!(&now, metadata.created());
    assert_eq!(None, metadata.last_modified());
}

#[test]
fn it_should_update_metadata() {
    let now = now();
    let metadata = Metadata::created_at(now).updated_at(now);
    assert_eq!(2, metadata.version());
    assert_eq!(&now, metadata.created());
    assert_eq!(Some(&now), metadata.last_modified());
}

#[test]
fn metadata_updates_keep_the_creation_time() {
    let created = Timestamp::new(596419200, 0);
    let modified = Timestamp::new(596419260, 500);
    let metadata = Metadata::new(7, created, None).updated_at(modified);
    assert_eq!(8, metadata.version());
    assert_eq!(&created, metadata.created());
    assert_eq!(Some(&modified), metadata.last_modified());
}

#[test]
fn default_metadata_is_a_first_version() {
    let metadata = Metadata::default();
    assert_eq!(1, metadata.version());
    assert_eq!(None, metadata.last_modified());
}

#[test]
fn it_should_create_new_criteria() {
    let id = String::from("My ID");
    let criteria = ByIdCriteria::new(&id);
    assert_eq!(&id, criteria.id);
}

#[test]
fn it_should_create_slugs_from_strings() {
    let result = Slug::new("my first string");
    assert_eq!(result.to_string(), "my-first-string");
}

#[test]
fn it_should_dereference_slugs() {
    let result = Slug::new("my first string");
    assert_eq!(result.deref(), "my-first-string");
}

#[test]
fn it_should_compose_a_slug_with_another_value() {
    let slug = Slug::new("Left value");
    let result = slug.combine(String::from("Right Value").as_str());
    assert_eq!("left-value-right-value", result.to_string());
}

#[test]
fn slugs_cannot_be_read_from_empty_strings() {
    assert_eq!(Err(SlugParserError::EmptyValue), Slug::from_str(""));
    assert_eq!(Ok(Slug::new("Some Text")), Slug::from_str("Some Text"));
}

#[test]
fn it_should_validate_social_handler_input() {
    assert_eq!(Ok(Handler::new("my_handler")), Handler::try_from("my_handler"));
    assert_eq!(Err(SocialHandlerError::InvalidUri), Handler::try_from("& invalid uri"));
    assert_eq!(Err(SocialHandlerError::InvalidSocialHandler), Handler::try_from(""));
}

#[test]
fn it_should_create_new_social_handlers() {
    let handler = Handler::try_from("my_handler").unwrap();
    assert_eq!("my_handler", handler.to_string());
}

#[test]
fn it_should_build_socials_value() {
    let social = Socials::builder()
        .facebook("facebook_user")
        .instagram("instagram_user")
        .linkedin("linkedin_user")
        .twitter("twitter_user")
        .youtube("youtube_user")
        .build()
        .unwrap();

    assert_eq!(&Handler::new("facebook_user"), social.facebook().unwrap());
    assert_eq!(&Handler::new("instagram_user"), social.instagram().unwrap());
    assert_eq!(&Handler::new("linkedin_user"), social.linkedin().unwrap());
    assert_eq!(&Handler::new("twitter_user"), social.twitter().unwrap());
    assert_eq!(&Handler::new("youtube_user"), social.youtube().unwrap());
}

#[test]
fn socials_builder_reports_an_invalid_handler() {
    let result = Socials::builder().facebook("facebook_user").twitter("").build();
    assert_eq!(Err(SocialsBuilderError::InvalidHandlers(SocialHandlerError::InvalidSocialHandler)), result);
}

#[test]
fn organization_entity_types_round_trip_through_their_text() {
    for v in [OrganizationEntityType::LimitedCompany, OrganizationEntityType::Other] {
        assert_eq!(Ok(v), v.to_string().parse::<OrganizationEntityType>());
    }
}

#[test]
fn a_slug_made_from_a_slug_is_that_slug() {
    let slug = Slug::new("My First String");
    assert_eq!(slug, Slug::new(&slug.to_string()));
    assert_eq!("my-first-string", Slug::new("my-first-string").to_string());
}
