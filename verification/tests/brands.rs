use std::str::FromStr;

use isocountry::CountryCode;
use trenako::catalog::brands::commands::new_brand::{
    creation_command, creation_response, BrandCommandPayload, BrandCreationError,
    NewBrandCommand,
};
use trenako::catalog::brands::brand::Brand;
use trenako::catalog::brands::brand_id::BrandId;
use trenako::catalog::brands::brand_kind::BrandKind;
use trenako::catalog::brands::brand_request::BrandRequest;
use trenako::catalog::brands::brand_status::BrandStatus;
use trenako::common::address::Address;
use trenako::common::contacts::{ContactInformation, MailAddress, WebsiteUrl};
use trenako::common::localized_text::LocalizedText;
use trenako::common::metadata::{Metadata, Timestamp};
use trenako::common::organizations::OrganizationEntityType;
use trenako::common::socials::{Handler, Socials};
use trenako::text::ParseError;

fn now() -> Timestamp {
    let now = chrono::Utc::now();
    Timestamp::new(now.timestamp(), now.timestamp_subsec_nanos())
}

fn acme() -> Brand {
    let address = Address::builder()
        .street_address("Viale Lombardia, 27")
        .postal_code("20131")
        .city("Milano")
        .region("MI")
        .country(CountryCode::ITA)
        .build()
        .unwrap();

    let contact_info = ContactInformation::new(
        Some(MailAddress::new("mail@acmetreni.com")),
        Some(WebsiteUrl::new("http://www.acmetreni.com")),
        None,
    );

    let socials = Socials::builder().facebook("Acmetreni").build().unwrap();

    Brand::new(
        BrandId::new("acme"),
        "ACME",
        Some("Associazione Costruzioni Modellistiche Esatte"),
        Some(OrganizationEntityType::LimitedCompany),
        None,
        None,
        Some(address),
        Some(contact_info),
        BrandKind::Industrial,
        Some(BrandStatus::Active),
        Some(socials),
        Metadata::created_at(now()),
    )
}

fn roco() -> Brand {
    let address = Address::builder()
        .street_address("Plainbachstraße 4")
        .postal_code("A-5101")
        .city("Bergheim")
        .country(CountryCode::AUT)
        .build()
        .unwrap();

    let contact_info = ContactInformation::new(
        Some(MailAddress::new("webshop@roco.cc")),
        Some(WebsiteUrl::new("https://www.roco.cc")),
        None,
    );

    let socials = Socials::builder()
        .facebook("roco.cc")
        .instagram("rococc")
        .youtube("UCmPH1NgeyzOCKxfH3uP-wsQ")
        .build()
        .unwrap();

    Brand::new(
        BrandId::new("roco"),
        "Roco",
        Some("Modelleisenbahn GmbH"),
        Some(OrganizationEntityType::LimitedCompany),
        Some("modelleisenbahn"),
        None,
        Some(address),
        Some(contact_info),
        BrandKind::Industrial,
        Some(BrandStatus::Active),
        Some(socials),
        Metadata::created_at(now()),
    )
}

#[test]
fn it_should_create_brands() {
    let now = now();
    let address = Address::builder()
        .street_address("Viale Lombardia, 27")
        .postal_code("20131")
        .city("Milano")
        .region("MI")
        .country(CountryCode::ITA)
        .build()
        .unwrap();

    let contact_info = ContactInformation::new(
        Some(MailAddress::new("mail@acmetreni.com")),
        Some(WebsiteUrl::new("http://www.acmetreni.com")),
        None,
    );

    let socials = Socials::builder().facebook("Acmetreni").build().unwrap();

    let brand = Brand::new(
        BrandId::new("ACME"),
        "ACME",
        Some("Associazione Costruzioni Modellistiche Esatte"),
        Some(OrganizationEntityType::LimitedCompany),
        None,
        None,
        Some(address.clone()),
        Some(contact_info.clone()),
        BrandKind::Industrial,
        Some(BrandStatus::Active),
        Some(socials.clone()),
        Metadata::created_at(now),
    );

    assert_eq!("ACME", brand.to_string());

    assert_eq!(&BrandId::new("ACME"), brand.brand_id());
    assert_eq!("ACME", brand.name());
    assert_eq!(
        Some(&"Associazione Costruzioni Modellistiche Esatte".to_string()),
        brand.registered_company_name()
    );
    assert_eq!(Some(OrganizationEntityType::LimitedCompany), brand.organization_entity_type());
    assert_eq!(None, brand.group_name());
    assert_eq!(None, brand.description());
    assert_eq!(BrandKind::Industrial, brand.kind());
    assert_eq!(Some(&BrandStatus::Active), brand.status());
    assert_eq!(Some(&address), brand.address());
    assert_eq!(Some(&contact_info), brand.contact_info());
    assert_eq!(Some(&socials), brand.socials());
    assert_eq!(Metadata::created_at(now), brand.metadata);
}


#[test]
fn it_should_compare_two_brands() {
    let acme = acme();
    let roco = roco();

    assert_eq!(acme, acme);
    assert_ne!(acme, roco);
}

#[test]
fn it_should_display_brands() {
    assert_eq!("ACME", acme().to_string());
}

#[test]
fn it_should_create_new_brand_ids_from_names() {
    let brand_id = BrandId::new("brand name");
    assert_eq!("brand-name", brand_id.to_string());
}





#[test]
fn it_should_parse_brand_kinds_like_manufacturer_kinds() {
    assert_eq!(Ok(BrandKind::BrassModels), "BRASS_MODELS".parse::<BrandKind>());
    assert_eq!(Ok(BrandKind::Industrial), "INDUSTRIAL".parse::<BrandKind>());
    assert_eq!(Err(ParseError::VariantNotFound), "invalid".parse::<BrandKind>());
    assert_eq!("BRASS_MODELS", BrandKind::BrassModels.to_string());
    assert_eq!("INDUSTRIAL", BrandKind::Industrial.to_string());
}

#[test]
fn brand_kinds_default_to_industrial() {
    let kind = BrandKind::default();
    assert_eq!(BrandKind::Industrial, kind);
}


fn new_brand(name: &str) -> BrandRequest {
    let address = Address::builder()
        .street_address("Rue Morgue 22")
        .city("London")
        .postal_code("1H2 4BB")
        .country(CountryCode::GBR)
        .build()
        .unwrap();

    let contact_info = ContactInformation::builder()
        .email("mail@mail.com")
        .phone("+14152370800")
        .website_url("https://www.site.com")
        .build()
        .unwrap();

    let socials = Socials::builder()
        .instagram("instagram_handler")
        .linkedin("linkedin_handler")
        .facebook("facebook_handler")
        .twitter("twitter_handler")
        .youtube("youtube_handler")
        .build()
        .unwrap();

    BrandRequest {
        name: String::from(name),
        registered_company_name: Some(String::from("A cool brand ltd.")),
        organization_entity_type: Some(OrganizationEntityType::LimitedCompany),
        group_name: Some(String::from("Group Corp.")),
        description: LocalizedText::with_italian("La descrizione va qui"),
        address: Some(address),
        contact_info: Some(contact_info),
        kind: BrandKind::Industrial,
        status: Some(BrandStatus::Active),
        socials: Some(socials),
    }
}

#[test]
fn it_should_create_a_new_brand() {
    let request = new_brand("ACME");
    let brand_id = BrandId::new(&request.name);
    let command = creation_command(request, brand_id.clone(), false).expect("result is an error");
    let created = creation_response(brand_id, &command);

    assert_eq!(BrandId::new("ACME"), created.brand_id);
    assert_eq!(&created.created_at, command.metadata.created());
    assert_eq!(1, command.metadata.version());
}

#[test]
fn it_should_return_an_error_when_the_brand_already_exists() {
    let request = new_brand("ACME");
    let brand_id = BrandId::new(&request.name);
    let result = creation_command(request, brand_id, true);

    match result {
        Err(BrandCreationError::BrandAlreadyExists(id)) => {
            assert_eq!(BrandId::new("ACME"), id)
        },
        _ => panic!("BrandAlreadyExists is expected (found: {:?})", result),
    }
}

#[test]
fn brand_commands_hold_the_request_values_too() {
    let command = NewBrandCommand::try_from(new_brand("ACME Treni")).unwrap();
    assert_eq!("acme-treni", command.brand_id.to_string());
    let payload = command.payload;
    assert_eq!("ACME Treni", payload.name);
    assert_eq!(Some(String::from("Rue Morgue 22")), payload.address_street_address);
    assert_eq!(Some(String::from("London")), payload.address_city);
    assert_eq!(Some(String::from("1H2 4BB")), payload.address_postal_code);
    assert_eq!(Some(String::from("GB")), payload.address_country);
    assert_eq!(None, payload.address_region);
    assert_eq!(Some(Handler::new("twitter_handler")), payload.twitter_handler);
    assert_eq!(Some(MailAddress::new("mail@mail.com")), payload.contact_email);
    assert_eq!(Some(String::from("Group Corp.")), payload.group_name);
}

