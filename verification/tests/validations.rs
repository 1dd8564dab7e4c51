use isocountry::CountryCode;
use trenako::catalog::catalog_items::item_number::{invalid_item_number, validate_item_number, ItemNumber};
use trenako::common::address::Address;

fn random_str(len: usize) -> String {
    "abcdefghij".chars().cycle().take(len).collect()
}

fn address_with(
    street_address: String,
    extended_address: Option<String>,
    city: String,
    region: Option<String>,
    postal_code: String,
) -> Address {
    Address {
        street_address,
        extended_address,
        city,
        region,
        postal_code,
        country: CountryCode::DEU,
    }
}

#[test]
fn it_should_validate_addresses() {
    let address = address_with(
        String::from("Street address 1"),
        None,
        String::from("City"),
        None,
        String::from("ZIP"),
    );
    let result = address.validate();
    assert!(result.is_ok());
}

#[test]
fn it_should_validate_street_address() {
    for input in [random_str(4), random_str(256)] {
        let address = address_with(input.clone(), None, String::from("City"), None, String::from("ZIP"));
        let err = address.validate().unwrap_err();
        let errors = err.field_errors();
        assert!(errors.contains_key("street_address"));
        assert_eq!(errors["street_address"].len(), 1);
        assert_eq!(errors["street_address"][0].code, "length");
        assert_eq!(errors["street_address"][0].params["value"], input);
        assert_eq!(errors["street_address"][0].params["min"], 5);
        assert_eq!(errors["street_address"][0].params["max"], 255);
        assert_eq!(errors.len(), 1);
    }
}

#[test]
fn it_should_validate_extended_address() {
    let input = random_str(256);
    let address = address_with(
        String::from("street address"),
        Some(input.clone()),
        String::from("City"),
        None,
        String::from("ZIP"),
    );
    let err = address.validate().unwrap_err();
    let errors = err.field_errors();
    assert!(errors.contains_key("extended_address"));
    assert_eq!(errors["extended_address"].len(), 1);
    assert_eq!(errors["extended_address"][0].code, "length");
    assert_eq!(errors["extended_address"][0].params["value"], input);
    assert_eq!(errors["extended_address"][0].params["max"], 255);
    assert!(!errors["extended_address"][0].params.contains_key("min"));
}

#[test]
fn it_should_validate_city() {
    for input in [random_str(2), random_str(51)] {
        let address = address_with(String::from("street address"), None, input.clone(), None, String::from("ZIP"));
        let err = address.validate().unwrap_err();
        let errors = err.field_errors();
        assert!(errors.contains_key("city"));
        assert_eq!(errors["city"].len(), 1);
        assert_eq!(errors["city"][0].code, "length");
        assert_eq!(errors["city"][0].params["value"], input);
        assert_eq!(errors["city"][0].params["min"], 3);
        assert_eq!(errors["city"][0].params["max"], 50);
    }
}

#[test]
fn it_should_validate_region() {
    let input = random_str(51);
    let address = address_with(
        String::from("street address"),
        None,
        String::from("city"),
        Some(input.clone()),
        String::from("ZIP"),
    );
    let err = address.validate().unwrap_err();
    let errors = err.field_errors();
    assert!(errors.contains_key("region"));
    assert_eq!(errors["region"].len(), 1);
    assert_eq!(errors["region"][0].code, "length");
    assert_eq!(errors["region"][0].params["value"], input);
    assert_eq!(errors["region"][0].params["max"], 50);
}

#[test]
fn it_should_validate_postal_code() {
    for input in [random_str(2), random_str(11)] {
        let address = address_with(String::from("street address"), None, String::from("city"), None, input.clone());
        let err = address.validate().unwrap_err();
        let errors = err.field_errors();
        assert!(errors.contains_key("postal_code"));
        assert_eq!(errors["postal_code"].len(), 1);
        assert_eq!(errors["postal_code"][0].code, "length");
        assert_eq!(errors["postal_code"][0].params["value"], input);
        assert_eq!(errors["postal_code"][0].params["min"], 3);
        assert_eq!(errors["postal_code"][0].params["max"], 10);
    }
}

#[test]
fn address_validation_reports_every_field_that_breaks_its_rule() {
    let address = address_with(random_str(4), Some(random_str(300)), random_str(2), Some(random_str(60)), random_str(1));
    let err = address.validate().unwrap_err();
    assert_eq!(5, err.field_errors().len());
}

#[test]
fn address_lengths_count_characters() {
    let address = address_with(String::from("Straße"), None, String::from("Köln"), None, String::from("ÄÖÜ"));
    assert!(address.validate().is_ok());
}

#[test]
fn it_should_validate_item_numbers() {
    let item_number = ItemNumber::new("123456");
    let result = validate_item_number(&item_number);
    assert!(result.is_ok());
}

#[test]
fn it_should_reject_invalid_item_numbers() {
    let item_number = invalid_item_number();
    let result = validate_item_number(&item_number);
    let error = result.unwrap_err();
    assert_eq!(error.code, "length");
    assert_eq!(error.params["value"], "");
    assert_eq!(error.params["min"], 1);
    assert_eq!(error.params["max"], 25);
}

#[test]
fn item_numbers_have_at_most_twenty_five_characters() {
    assert!(validate_item_number(&ItemNumber::new(&random_str(25))).is_ok());
    assert!(validate_item_number(&ItemNumber::new(&random_str(26))).is_err());
}
