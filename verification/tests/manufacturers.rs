use std::str::FromStr;

use isocountry::CountryCode;
use trenako::catalog::manufacturers::commands::new_manufacturer::{
    creation_command, creation_response, ManufacturerCommandPayload, ManufacturerCreationError,
    NewManufacturerCommand,
};
use trenako::catalog::manufacturers::manufacturer::Manufacturer;
use trenako::catalog::manufacturers::manufacturer_id::ManufacturerId;
use trenako::catalog::manufacturers::manufacturer_kind::ManufacturerKind;
use trenako::catalog::manufacturers::manufacturer_request::ManufacturerRequest;
use trenako::catalog::manufacturers::manufacturer_status::ManufacturerStatus;
use trenako::common::address::Address;
use trenako::common::contacts::{ContactInformation, MailAddress, WebsiteUrl};
use trenako::common::localized_text::LocalizedText;
use trenako::common::metadata::{Metadata, Timestamp};
use trenako::common::organizations::OrganizationEntityType;
use trenako::common::socials::{Handler, Socials};
use trenako::text::ParseError;

fn now() -> Timestamp {
    let now = chrono::Utc::now();
    Timestamp::new(now.timestamp(), now.timestamp_subsec_nanos())
}

fn acme() -> Manufacturer {
    let address = Address::builder()
        .street_address("Viale Lombardia, 27")
        .postal_code("20131")
        .city("Milano")
        .region("MI")
        .country(CountryCode::ITA)
        .build()
        .unwrap();

    let contact_info = ContactInformation::new(
        Some(MailAddress::new("mail@acmetreni.com")),
        Some(WebsiteUrl::new("http://www.acmetreni.com")),
        None,
    );

    let socials = Socials::builder().facebook("Acmetreni").build().unwrap();

    Manufacturer::new(
        ManufacturerId::new("acme"),
        "ACME",
        Some("Associazione Costruzioni Modellistiche Esatte"),
        Some(OrganizationEntityType::LimitedCompany),
        None,
        None,
        Some(address),
        Some(contact_info),
        ManufacturerKind::Industrial,
        Some(ManufacturerStatus::Active),
        Some(socials),
        Metadata::created_at(now()),
    )
}

fn roco() -> Manufacturer {
    let address = Address::builder()
        .street_address("Plainbachstraße 4")
        .postal_code("A-5101")
        .city("Bergheim")
        .country(CountryCode::AUT)
        .build()
        .unwrap();

    let contact_info = ContactInformation::new(
        Some(MailAddress::new("webshop@roco.cc")),
        Some(WebsiteUrl::new("https://www.roco.cc")),
        None,
    );

    let socials = Socials::builder()
        .facebook("roco.cc")
        .instagram("rococc")
        .youtube("UCmPH1NgeyzOCKxfH3uP-wsQ")
        .build()
        .unwrap();

    Manufacturer::new(
        ManufacturerId::new("roco"),
        "Roco",
        Some("Modelleisenbahn GmbH"),
        Some(OrganizationEntityType::LimitedCompany),
        Some("modelleisenbahn"),
        None,
        Some(address),
        Some(contact_info),
        ManufacturerKind::Industrial,
        Some(ManufacturerStatus::Active),
        Some(socials),
        Metadata::created_at(now()),
    )
}

#[test]
fn it_should_create_manufacturers() {
    let now = now();
    let address = Address::builder()
        .street_address("Viale Lombardia, 27")
        .postal_code("20131")
        .city("Milano")
        .region("MI")
        .country(CountryCode::ITA)
        .build()
        .unwrap();

    let contact_info = ContactInformation::new(
        Some(MailAddress::new("mail@acmetreni.com")),
        Some(WebsiteUrl::new("http://www.acmetreni.com")),
        None,
    );

    let socials = Socials::builder().facebook("Acmetreni").build().unwrap();

    let manufacturer = Manufacturer::new(
        ManufacturerId::new("ACME"),
        "ACME",
        Some("Associazione Costruzioni Modellistiche Esatte"),
        Some(OrganizationEntityType::LimitedCompany),
        None,
        None,
        Some(address.clone()),
        Some(contact_info.clone()),
        ManufacturerKind::Industrial,
        Some(ManufacturerStatus::Active),
        Some(socials.clone()),
        Metadata::created_at(now),
    );

    assert_eq!("ACME", manufacturer.to_string());

    assert_eq!(&ManufacturerId::new("ACME"), manufacturer.manufacturer_id());
    assert_eq!("ACME", manufacturer.name());
    assert_eq!(
        Some(&"Associazione Costruzioni Modellistiche Esatte".to_string()),
        manufacturer.registered_company_name()
    );
    assert_eq!(Some(OrganizationEntityType::LimitedCompany), manufacturer.organization_entity_type());
    assert_eq!(None, manufacturer.group_name());
    assert_eq!(None, manufacturer.description());
    assert_eq!(ManufacturerKind::Industrial, manufacturer.kind());
    assert_eq!(Some(&ManufacturerStatus::Active), manufacturer.status());
    assert_eq!(Some(&address), manufacturer.address());
    assert_eq!(Some(&contact_info), manufacturer.contact_info());
    assert_eq!(Some(&socials), manufacturer.socials());
    assert_eq!(Metadata::created_at(now), manufacturer.metadata);
}

#[test]
fn manufacturer_descriptions_are_italian_texts() {
    let manufacturer = Manufacturer::new(
        ManufacturerId::new("acme"),
        "ACME",
        None,
        None,
        Some("group"),
        Some("La descrizione"),
        None,
        None,
        ManufacturerKind::BrassModels,
        None,
        None,
        Metadata::created_at(now()),
    );
    assert_eq!(Some(&String::from("La descrizione")), manufacturer.description());
    assert_eq!(None, manufacturer.description.english());
    assert_eq!(Some(&String::from("group")), manufacturer.group_name());
}

#[test]
fn it_should_compare_two_manufacturers() {
    let acme = acme();
    let roco = roco();

    assert_eq!(acme, acme);
    assert_ne!(acme, roco);
}

#[test]
fn it_should_display_manufacturers() {
    assert_eq!("ACME", acme().to_string());
}

#[test]
fn it_should_create_new_manufacturer_ids() {
    let manufacturer_id = ManufacturerId::new("manufacturer name");
    assert_eq!("manufacturer-name", manufacturer_id.to_string());
}

#[test]
fn it_should_return_an_error_when_the_manufacturer_id_is_empty() {
    let result = ManufacturerId::from_str("");
    assert!(result.is_err());
}

#[test]
fn it_should_create_new_manufacturer_ids_from_str() {
    let manufacturer_id = ManufacturerId::from_str("manufacturer name").unwrap();
    assert_eq!("manufacturer-name", manufacturer_id.to_string());
}

#[test]
fn it_should_check_whether_two_manufacturer_ids_are_equal() {
    let id1 = ManufacturerId::new("manufacturer name");
    let id2 = ManufacturerId::new("manufacturer name");
    let id3 = ManufacturerId::new("another manufacturer name");

    assert_eq!(id1, id1);
    assert_eq!(id1, id2);
    assert_ne!(id1, id3);
}

#[test]
fn it_should_compare_two_manufacturer_ids() {
    let id1 = ManufacturerId::new("manufacturer 1");
    let id2 = ManufacturerId::new("manufacturer 2");

    assert!(id1 < id2);
    assert!(id2 > id1);
}

#[test]
fn it_should_parse_manufacturer_kinds() {
    assert_eq!(Ok(ManufacturerKind::BrassModels), "BRASS_MODELS".parse::<ManufacturerKind>());
    assert_eq!(Ok(ManufacturerKind::Industrial), "INDUSTRIAL".parse::<ManufacturerKind>());
    assert_eq!(Err(ParseError::VariantNotFound), "invalid".parse::<ManufacturerKind>());
    assert_eq!("BRASS_MODELS", ManufacturerKind::BrassModels.to_string());
    assert_eq!("INDUSTRIAL", ManufacturerKind::Industrial.to_string());
}

#[test]
fn it_should_define_a_default_manufacturer_kind() {
    let kind = ManufacturerKind::default();
    assert_eq!(ManufacturerKind::Industrial, kind);
}

#[test]
fn it_should_parse_manufacturer_statuses() {
    assert_eq!(Ok(ManufacturerStatus::Active), "ACTIVE".parse::<ManufacturerStatus>());
    assert_eq!(Ok(ManufacturerStatus::OutOfBusiness), "out_of_business".parse::<ManufacturerStatus>());
    assert_eq!("OUT_OF_BUSINESS", ManufacturerStatus::OutOfBusiness.to_string());
}

fn new_manufacturer(name: &str) -> ManufacturerRequest {
    let address = Address::builder()
        .street_address("Rue Morgue 22")
        .city("London")
        .postal_code("1H2 4BB")
        .country(CountryCode::GBR)
        .build()
        .unwrap();

    let contact_info = ContactInformation::builder()
        .email("mail@mail.com")
        .phone("+14152370800")
        .website_url("https://www.site.com")
        .build()
        .unwrap();

    let socials = Socials::builder()
        .instagram("instagram_handler")
        .linkedin("linkedin_handler")
        .facebook("facebook_handler")
        .twitter("twitter_handler")
        .youtube("youtube_handler")
        .build()
        .unwrap();

    ManufacturerRequest {
        name: String::from(name),
        registered_company_name: Some(String::from("A cool manufacturer ltd.")),
        organization_entity_type: Some(OrganizationEntityType::LimitedCompany),
        group_name: Some(String::from("Group Corp.")),
        description: LocalizedText::with_italian("La descrizione va qui"),
        address: Some(address),
        contact_info: Some(contact_info),
        kind: ManufacturerKind::Industrial,
        status: Some(ManufacturerStatus::Active),
        socials: Some(socials),
    }
}

#[test]
fn it_should_create_a_new_manufacturer() {
    let request = new_manufacturer("ACME");
    let manufacturer_id = ManufacturerId::new(&request.name);
    let command = creation_command(request, manufacturer_id.clone(), false).expect("result is an error");
    let created = creation_response(manufacturer_id, &command);

    assert_eq!(ManufacturerId::new("ACME"), created.manufacturer_id);
    assert_eq!(&created.created_at, command.metadata.created());
    assert_eq!(1, command.metadata.version());
}

#[test]
fn it_should_return_an_error_when_the_manufacturer_already_exists() {
    let request = new_manufacturer("ACME");
    let manufacturer_id = ManufacturerId::new(&request.name);
    let result = creation_command(request, manufacturer_id, true);

    match result {
        Err(ManufacturerCreationError::ManufacturerAlreadyExists(id)) => {
            assert_eq!(ManufacturerId::new("ACME"), id)
        },
        _ => panic!("ManufacturerAlreadyExists is expected (found: {:?})", result),
    }
}

#[test]
fn manufacturer_commands_hold_the_request_values() {
    let command = NewManufacturerCommand::try_from(new_manufacturer("ACME Treni")).unwrap();
    assert_eq!("acme-treni", command.manufacturer_id.to_string());
    let payload = command.payload;
    assert_eq!("ACME Treni", payload.name);
    assert_eq!(Some(String::from("Rue Morgue 22")), payload.address_street_address);
    assert_eq!(Some(String::from("London")), payload.address_city);
    assert_eq!(Some(String::from("1H2 4BB")), payload.address_postal_code);
    assert_eq!(Some(String::from("GB")), payload.address_country);
    assert_eq!(None, payload.address_region);
    assert_eq!(Some(Handler::new("twitter_handler")), payload.twitter_handler);
    assert_eq!(Some(MailAddress::new("mail@mail.com")), payload.contact_email);
    assert_eq!(Some(String::from("Group Corp.")), payload.group_name);
}

#[test]
fn manufacturer_payloads_without_address_or_contacts_are_empty() {
    let mut request = new_manufacturer("ACME");
    request.address = None;
    request.contact_info = None;
    request.socials = None;
    let payload = ManufacturerCommandPayload::try_from(request).unwrap();
    assert_eq!(None, payload.address_country);
    assert_eq!(None, payload.address_street_address);
    assert_eq!(None, payload.contact_email);
    assert_eq!(None, payload.facebook_handler);
}
