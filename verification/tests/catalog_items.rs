use std::str::FromStr;

use trenako::catalog::brands::brand_status::BrandStatus;
use trenako::catalog::catalog_items::availability_status::AvailabilityStatus;
use trenako::catalog::catalog_items::control::{Control, DccInterface};
use trenako::catalog::catalog_items::delivery_date::{DeliveryDate, DeliveryDateParseError};
use trenako::catalog::catalog_items::epoch::{Epoch, EpochParseError};
use trenako::catalog::catalog_items::item_number::{invalid_item_number, ItemNumber, ItemNumberError};
use trenako::common::slug::Slug;
use trenako::text::ParseError;

#[test]
fn it_should_parse_year_string_as_delivery_dates() {
    let dd = "2020".parse::<DeliveryDate>();
    assert!(dd.is_ok());
    let dd = dd.unwrap();
    assert_eq!(2020, dd.year());
    assert_eq!(None, dd.quarter());
    assert_eq!(None, dd.month());
}

#[test]
fn it_should_parse_year_quarter_string_as_delivery_dates() {
    let dd = "2020/Q1".parse::<DeliveryDate>();
    assert!(dd.is_ok());
    let dd = dd.unwrap();
    assert_eq!(2020, dd.year());
    assert_eq!(Some(1), dd.quarter());
    assert_eq!(None, dd.month());
}

#[test]
fn it_should_parse_year_month_string_as_delivery_dates() {
    for (input, expected) in [("2020/1", 1u8), ("2020/11", 11u8)] {
        let dd = input.parse::<DeliveryDate>();
        assert!(dd.is_ok());
        let dd = dd.unwrap();
        assert_eq!(2020, dd.year());
        assert_eq!(None, dd.quarter());
        assert_eq!(Some(expected), dd.month());
    }
}

#[test]
fn it_should_produce_string_representations_from_delivery_dates() {
    let dd1 = "2020/Q1".parse::<DeliveryDate>().unwrap();
    let dd2 = "2020".parse::<DeliveryDate>().unwrap();
    let dd3 = "2020/11".parse::<DeliveryDate>().unwrap();
    let dd4 = "2020/2".parse::<DeliveryDate>().unwrap();

    assert_eq!("2020/Q1", dd1.to_string());
    assert_eq!("2020", dd2.to_string());
    assert_eq!("2020/11", dd3.to_string());
    assert_eq!("2020/02", dd4.to_string());
}

#[test]
fn it_should_fail_to_parse_invalid_delivery_dates() {
    let cases = [
        ("2020/Q11", DeliveryDateParseError::InvalidQuarterValue),
        ("2020/Q0", DeliveryDateParseError::InvalidQuarterValue),
        ("2020/Q5", DeliveryDateParseError::InvalidQuarterValue),
        ("2020/QA", DeliveryDateParseError::InvalidQuarterValue),
        ("202/Q1", DeliveryDateParseError::InvalidYearValue),
        ("1899/Q1", DeliveryDateParseError::InvalidYearValue),
        ("3000/Q1", DeliveryDateParseError::InvalidYearValue),
        ("3000/Q1/?", DeliveryDateParseError::InvalidDeliveryDateFormat),
        ("2022/13", DeliveryDateParseError::InvalidMonthValue),
        ("2022/0", DeliveryDateParseError::InvalidMonthValue),
        ("", DeliveryDateParseError::EmptyValue),
    ];
    for (input, expected) in cases {
        let result = input.parse::<DeliveryDate>();
        assert!(result.is_err());
        assert_eq!(result.unwrap_err(), expected);
    }
}

#[test]
fn it_should_deserialize_delivery_dates() {
    for dd in [DeliveryDate::ByYear(2022), DeliveryDate::ByQuarter(2022, 3), DeliveryDate::ByYearMonth(2022, 11)] {
        assert_eq!(Ok(dd), dd.to_string().parse::<DeliveryDate>());
    }
}

#[test]
fn delivery_dates_by_month_keep_the_month() {
    let dd = DeliveryDate::by_month(2021, 7);
    assert_eq!(DeliveryDate::ByYearMonth(2021, 7), dd);
    assert_eq!(Some(7), dd.month());
    assert_eq!("2021/07", dd.to_string());
    assert_eq!(DeliveryDate::ByQuarter(2021, 2), DeliveryDate::by_quarter(2021, 2));
    assert_eq!(DeliveryDate::ByYear(2021), DeliveryDate::by_year(2021));
}

#[test]
fn delivery_date_components_parse_on_their_own() {
    assert_eq!(Ok(2020), DeliveryDate::parse_year("2020"));
    assert_eq!(Err(DeliveryDateParseError::InvalidYearValue), DeliveryDate::parse_year("1899"));
    assert_eq!(Ok(3), DeliveryDate::parse_quarter("Q3"));
    assert_eq!(Err(DeliveryDateParseError::InvalidQuarterValue), DeliveryDate::parse_quarter("Q9"));
    assert_eq!(Ok(12), DeliveryDate::parse_month("12"));
    assert_eq!(Err(DeliveryDateParseError::InvalidMonthValue), DeliveryDate::parse_month("13"));
}

#[test]
fn it_should_convert_string_slices_to_epochs() {
    let epoch = "I".parse::<Epoch>();
    assert!(epoch.is_ok());
    assert_eq!(epoch.unwrap(), Epoch::I);
}

#[test]
fn it_should_convert_string_slices_to_mixed_epochs() {
    let epoch = "I/II".parse::<Epoch>();
    assert!(epoch.is_ok());
    assert_eq!(epoch.unwrap(), Epoch::Multiple(Box::new(Epoch::I), Box::new(Epoch::II)));
}

#[test]
fn it_should_fail_to_convert_invalid_values_to_epochs() {
    let empty_epoch = "".parse::<Epoch>();
    assert!(empty_epoch.is_err());

    let invalid_epoch = "invalid".parse::<Epoch>();
    assert!(invalid_epoch.is_err());
}

#[test]
#[allow(non_snake_case)]
fn it_should_display_epoch_values() {
    let epoch_I_II = Epoch::Multiple(Box::new(Epoch::I), Box::new(Epoch::II));
    let epoch_IVa = Epoch::IVa;

    assert_eq!("I/II", epoch_I_II.to_string());
    assert_eq!("IVa", epoch_IVa.to_string());
}

#[test]
fn epochs_are_read_in_ascending_order() {
    assert_eq!(Ok(Epoch::Multiple(Box::new(Epoch::IV), Box::new(Epoch::V))), "V/IV".parse::<Epoch>());
    assert_eq!(Err(EpochParseError::BlankValue), "".parse::<Epoch>());
    assert_eq!(Err(EpochParseError::InvalidValue), "VII".parse::<Epoch>());
    assert_eq!(Err(EpochParseError::InvalidNumberOfValues), "I/II/III".parse::<Epoch>());
    assert_eq!(Err(EpochParseError::InvalidNumberOfValues), "IV/IV".parse::<Epoch>());
    assert_eq!(Ok(Epoch::Vm), Epoch::parse_str("Vm"));
}

#[test]
fn it_should_create_new_item_numbers() {
    let n = ItemNumber::new("123456");
    assert_eq!(n.value(), "123456");
    assert_eq!(n.to_string(), "123456");
}

#[test]
fn it_should_deref_item_numbers() {
    let item_number = ItemNumber::new("123456");
    assert_eq!("123456", &*item_number);
    assert_eq!("123456", item_number.as_ref());
}

#[test]
fn it_should_convert_item_numbers_to_slugs() {
    let item_number = ItemNumber::new("1234");
    let slug: Slug = item_number.to_slug();
    assert_eq!(Slug::new("1234"), slug);
}

#[test]
fn it_should_parse_string_as_item_numbers() {
    assert_eq!(Err(ItemNumberError::EmptyItemNumber), ItemNumber::from_str(""));
    assert_eq!(Ok(ItemNumber::new("1234")), ItemNumber::from_str("1234"));
    assert_eq!("", invalid_item_number().value());
}

#[test]
fn it_should_parse_string_as_controls() {
    let cases = [
        ("DCC", Control::Dcc),
        ("DCC_READY", Control::DccReady),
        ("DCC_SOUND", Control::DccSound),
        ("NO_DCC", Control::NoDcc),
    ];
    for (input, expected) in cases {
        assert_eq!(Ok(expected), input.parse::<Control>());
        assert_eq!(input, expected.to_string());
    }
    assert_eq!(Err(ParseError::VariantNotFound), "invalid".parse::<Control>());
}

#[test]
fn it_should_check_for_the_dcc_decoder_presence() {
    assert!(Control::Dcc.with_decoder());
    assert!(!Control::DccReady.with_decoder());
    assert!(Control::DccSound.with_decoder());
    assert!(!Control::NoDcc.with_decoder());
}

#[test]
fn it_should_parse_string_as_dcc_interfaces() {
    let cases = [
        ("NEM_651", DccInterface::Nem651),
        ("NEM_652", DccInterface::Nem652),
        ("NEM_654", DccInterface::Nem654),
        ("PLUX_8", DccInterface::Plux8),
        ("PLUX_12", DccInterface::Plux12),
        ("PLUX_16", DccInterface::Plux16),
        ("PLUX_22", DccInterface::Plux22),
        ("NEXT_18", DccInterface::Next18),
        ("NEXT_18_S", DccInterface::Next18S),
        ("MTC_21", DccInterface::Mtc21),
    ];
    for (input, expected) in cases {
        assert_eq!(Ok(expected), input.parse::<DccInterface>());
        assert_eq!(input, expected.to_string());
    }
    assert_eq!(Err(ParseError::VariantNotFound), "invalid".parse::<DccInterface>());
}

#[test]
fn it_should_parse_availability_statuses() {
    assert_eq!(Ok(AvailabilityStatus::Announced), "ANNOUNCED".parse::<AvailabilityStatus>());
    assert_eq!(Ok(AvailabilityStatus::Available), "available".parse::<AvailabilityStatus>());
    assert_eq!("DISCONTINUED", AvailabilityStatus::Discontinued.to_string());
    assert_eq!(Err(ParseError::VariantNotFound), "invalid".parse::<AvailabilityStatus>());
}

#[test]
fn it_should_parse_brand_statuses() {
    assert_eq!(Ok(BrandStatus::Active), "ACTIVE".parse::<BrandStatus>());
    assert_eq!("OUT_OF_BUSINESS", BrandStatus::OutOfBusiness.to_string());
    assert_eq!(Err(ParseError::VariantNotFound), "invalid".parse::<BrandStatus>());
}

#[test]
fn the_order_of_two_epoch_values_does_not_matter() {
    assert_eq!("II/I".parse::<Epoch>(), "I/II".parse::<Epoch>());
    assert_eq!(Ok(Epoch::Multiple(Box::new(Epoch::I), Box::new(Epoch::II))), "II/I".parse::<Epoch>());
    assert_eq!(Ok(Epoch::Multiple(Box::new(Epoch::III), Box::new(Epoch::IIa))), "IIa/III".parse::<Epoch>());
    assert_eq!("IIa/III".parse::<Epoch>(), "III/IIa".parse::<Epoch>());
}
