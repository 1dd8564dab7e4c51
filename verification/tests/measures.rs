use trenako::catalog::catalog_items::length_over_buffers::{LengthOverBuffers, LengthOverBuffersError};
use trenako::catalog::catalog_items::technical_specifications::{
    BodyShellType, ChassisType, Coupling, CouplingSocket, FeatureFlag, Radius, RadiusError,
    TechnicalSpecificationsBuilder,
};
use trenako::common::decimal::Decimal;
use trenako::common::length::{Length, LengthError};
use trenako::common::measure_units::MeasureUnit;
use trenako::text::ParseError;

fn dec(num: i64, scale: u32) -> Decimal {
    Decimal::new(num, scale)
}

#[test]
fn decimals_compare_their_numbers() {
    assert_eq!(dec(420, 1), dec(42, 0));
    assert_eq!(dec(4200, 2), dec(420, 1));
    assert_ne!(dec(421, 1), dec(42, 0));
    assert!(dec(206, 1).less_than(&dec(214, 1)));
    assert!(!dec(214, 1).less_than(&dec(206, 1)));
}

#[test]
fn decimals_multiply_and_add() {
    let product = dec(10, 1).checked_mul(&dec(393701, 7)).unwrap();
    assert_eq!(3937010, product.mantissa());
    assert_eq!(8, product.scale());
    let zero = dec(0, 3).checked_mul(&dec(254, 1)).unwrap();
    assert_eq!((0, 0), (zero.mantissa(), zero.scale()));
    let sum = dec(166, 1).checked_add(&dec(2540, 2)).unwrap();
    assert_eq!(dec(42, 0), sum);
    let max = Decimal::try_from_i128_with_scale(79_228_162_514_264_337_593_543_950_335, 0).unwrap();
    assert!(max.checked_add(&dec(1, 0)).is_none());
    assert!(max.checked_mul(&dec(2, 0)).is_none());
}

#[test]
fn decimals_are_written_with_their_scale() {
    assert_eq!("42", dec(42, 0).to_string());
    assert_eq!("42.0", dec(420, 1).to_string());
    assert_eq!("0.005", dec(5, 3).to_string());
    assert_eq!("-1.25", dec(-125, 2).to_string());
    assert_eq!("0", Decimal::zero().to_string());
}

#[test]
fn decimals_round_to_two_digits() {
    assert_eq!(dec(65, 2), dec(64960665, 8).round_dp(2));
    assert_eq!(dec(64, 2), dec(63779562, 8).round_dp(2));
    let r = dec(165, 1).round_dp(2);
    assert_eq!((165, 1), (r.mantissa(), r.scale()));
}

#[test]
fn decimals_reject_out_of_range_parts() {
    assert!(Decimal::try_from_i128_with_scale(1, 29).is_none());
    assert!(Decimal::try_from_i128_with_scale(79_228_162_514_264_337_593_543_950_336, 0).is_none());
    assert!(Decimal::try_from_i128_with_scale(-1, 28).is_some());
}

#[test]
fn measure_unit_symbol_should_return_the_symbol() {
    assert_eq!(MeasureUnit::Miles.symbol(), "mi");
    assert_eq!(MeasureUnit::Millimeters.symbol(), "mm");
    assert_eq!(MeasureUnit::Inches.symbol(), "in");
    assert_eq!(MeasureUnit::Kilometers.symbol(), "km");
    assert_eq!(MeasureUnit::Meters.symbol(), "m");
    assert_eq!(MeasureUnit::Meters.to_string(), "m");
}

#[test]
fn it_should_convert_between_measure_units() {
    let cases = [
        (MeasureUnit::Inches, MeasureUnit::Inches, dec(10, 1)),
        (MeasureUnit::Kilometers, MeasureUnit::Kilometers, dec(10, 1)),
        (MeasureUnit::Meters, MeasureUnit::Meters, dec(10, 1)),
        (MeasureUnit::Miles, MeasureUnit::Miles, dec(10, 1)),
        (MeasureUnit::Millimeters, MeasureUnit::Millimeters, dec(10, 1)),
        (MeasureUnit::Millimeters, MeasureUnit::Meters, dec(10, 4)),
        (MeasureUnit::Meters, MeasureUnit::Millimeters, dec(10000, 1)),
        (MeasureUnit::Inches, MeasureUnit::Millimeters, dec(2540, 2)),
        (MeasureUnit::Millimeters, MeasureUnit::Inches, dec(3937010, 8)),
        (MeasureUnit::Kilometers, MeasureUnit::Miles, dec(6213710, 7)),
        (MeasureUnit::Miles, MeasureUnit::Kilometers, dec(1609340, 6)),
    ];
    for (from_mu, to_mu, expected) in cases {
        let converted = from_mu.to(to_mu).convert(dec(10, 1));
        assert_eq!(expected, converted);
    }
}

#[test]
fn converters_describe_their_units() {
    assert_eq!("Converter from Inches to Millimeters", MeasureUnit::Inches.to(MeasureUnit::Millimeters).to_string());
    assert_eq!("Converter from Millimeters to Millimeters", MeasureUnit::Meters.to(MeasureUnit::Meters).to_string());
}

#[test]
fn measures_are_the_same_to_two_digits() {
    assert!(MeasureUnit::Millimeters.same_as(dec(165, 1), MeasureUnit::Inches, dec(65, 2)));
    assert!(!MeasureUnit::Millimeters.same_as(dec(162, 1), MeasureUnit::Inches, dec(65, 2)));
}

#[test]
fn it_should_create_new_lengths() {
    let l = Length::new(dec(42, 0), MeasureUnit::Millimeters);
    assert_eq!(dec(420, 1), l.quantity());
    assert_eq!(MeasureUnit::Millimeters, l.measure_unit());
}

#[test]
fn it_should_ensure_lengths_are_non_negative() {
    assert_eq!(Err(LengthError::NegativeValue), Length::try_new(dec(-10, 1), MeasureUnit::Inches));
    assert_eq!(Ok(Length::default()), Length::try_new(Decimal::zero(), MeasureUnit::Millimeters));
}

#[test]
fn it_should_display_lengths() {
    assert_eq!("42 in", Length::new(dec(42, 0), MeasureUnit::Inches).to_string());
    assert_eq!("42 m", Length::new(dec(42, 0), MeasureUnit::Meters).to_string());
    assert_eq!("42 mm", Length::new(dec(42, 0), MeasureUnit::Millimeters).to_string());
    assert_eq!("42 mi", Length::new(dec(42, 0), MeasureUnit::Miles).to_string());
    assert_eq!("42 km", Length::new(dec(42, 0), MeasureUnit::Kilometers).to_string());
}

#[test]
fn it_should_sum_two_lengths() {
    let l1 = Length::new(dec(206, 1), MeasureUnit::Millimeters);
    let l2 = Length::new(dec(214, 1), MeasureUnit::Millimeters);

    let l = l1.add(l2);
    assert_eq!(dec(420, 1), l.quantity());
    assert_eq!(MeasureUnit::Millimeters, l.measure_unit());
}

#[test]
fn it_should_sum_two_lengths_converting_measure_units() {
    let l1 = Length::new(dec(166, 1), MeasureUnit::Millimeters);
    let l2 = Length::new(dec(10, 1), MeasureUnit::Inches);

    let l = l1.add(l2);
    assert_eq!(dec(420, 1), l.quantity());
    assert_eq!(MeasureUnit::Millimeters, l.measure_unit());
}

#[test]
fn lengths_in_units_that_do_not_convert_cannot_be_summed() {
    let l1 = Length::new(dec(1, 0), MeasureUnit::Millimeters);
    let l2 = Length::new(dec(1, 0), MeasureUnit::Kilometers);
    assert!(l1.checked_add(l2).is_none());
    assert!(l1.checked_add(l1).is_some());
    assert_ne!(l1, l2);
    assert_eq!(None, l1.partial_cmp(&l2));
}

#[test]
fn it_should_compare_two_lengths() {
    let l1 = Length::new(dec(206, 1), MeasureUnit::Millimeters);
    let l2 = Length::new(dec(214, 1), MeasureUnit::Millimeters);

    assert_eq!(l1, l1);
    assert_ne!(l1, l2);
}

#[test]
fn it_should_sort_length_values() {
    let l1 = Length::new(dec(206, 1), MeasureUnit::Millimeters);
    let l2 = Length::new(dec(214, 1), MeasureUnit::Millimeters);
    let l3 = Length::new(dec(10, 1), MeasureUnit::Meters);

    assert!(l1 < l2);
    assert!(l2 > l1);
    assert!(l3 > l1);
}

#[test]
fn lengths_read_in_other_units() {
    let l = Length::new(dec(10, 1), MeasureUnit::Inches);
    assert_eq!(dec(254, 1), l.get_value_as(MeasureUnit::Millimeters));
    assert_eq!(Some(dec(10, 1)), l.checked_value_as(MeasureUnit::Inches));
    assert_eq!(None, l.checked_value_as(MeasureUnit::Miles));
}

#[test]
fn it_should_create_new_length_over_buffers_values() {
    assert_eq!(Ok(LengthOverBuffers { inches: None, millimeters: None }), LengthOverBuffers::new(None, None));
    assert_eq!(
        Err(LengthOverBuffersError::NonPositiveValue),
        LengthOverBuffers::new(Some(dec(0, 1)), Some(dec(0, 1)))
    );
    assert_eq!(
        Err(LengthOverBuffersError::NonPositiveValue),
        LengthOverBuffers::new(Some(dec(-65, 2)), Some(dec(-165, 1)))
    );
    assert_eq!(
        Err(LengthOverBuffersError::DifferentValues),
        LengthOverBuffers::new(Some(dec(65, 2)), Some(dec(162, 1)))
    );
    let lob = LengthOverBuffers::new(Some(dec(65, 2)), Some(dec(165, 1))).unwrap();
    assert_eq!(Some(&Length::Inches(dec(65, 2))), lob.inches());
    assert_eq!(Some(&Length::Millimeters(dec(165, 1))), lob.millimeters());
}

#[test]
fn it_should_create_new_length_over_buffer_from_inches() {
    let inches = Length::Inches(dec(42, 0));
    let lob = LengthOverBuffers::from_inches(inches);
    assert_eq!(Some(&inches), lob.inches());
    assert_eq!(Some(&Length::Millimeters(dec(10668, 1))), lob.millimeters());
}

#[test]
fn it_should_create_new_length_over_buffer_from_millimeters() {
    let millimeters = Length::Millimeters(dec(42, 0));
    let lob = LengthOverBuffers::from_millimeters(millimeters);
    assert_eq!(Some(&millimeters), lob.millimeters());
    assert_eq!(Some(&Length::Inches(dec(16535442, 7))), lob.inches());
    assert!(LengthOverBuffers::try_from_millimeters(millimeters).is_some());
    assert!(LengthOverBuffers::try_from_inches(Length::Inches(dec(42, 0))).is_some());
}

#[test]
fn it_should_create_new_couplings() {
    let coupling = Coupling::new(CouplingSocket::Nem362, FeatureFlag::Yes, FeatureFlag::NotApplicable);

    assert_eq!(coupling.socket(), Some(CouplingSocket::Nem362));
    assert_eq!(coupling.digital_shunting(), Some(FeatureFlag::NotApplicable));
    assert_eq!(coupling.close_couplers(), Some(FeatureFlag::Yes));
}

#[test]
fn it_should_create_close_couplers() {
    let coupling = Coupling::with_close_couplers(CouplingSocket::Nem362);

    assert_eq!(coupling.socket, Some(CouplingSocket::Nem362));
    assert_eq!(coupling.digital_shunting, Some(FeatureFlag::No));
    assert_eq!(coupling.close_couplers, Some(FeatureFlag::Yes));
}

#[test]
fn it_should_create_digital_shunting_couplers() {
    let coupling = Coupling::with_digital_shunting_couplers();

    assert_eq!(coupling.socket, Some(CouplingSocket::NoSocket));
    assert_eq!(coupling.digital_shunting, Some(FeatureFlag::Yes));
    assert_eq!(coupling.close_couplers, Some(FeatureFlag::No));
}

#[test]
fn it_should_parse_strings_as_couplings() {
    let cases = [
        ("NONE", CouplingSocket::NoSocket),
        ("NEM_355", CouplingSocket::Nem355),
        ("NEM_356", CouplingSocket::Nem356),
        ("NEM_357", CouplingSocket::Nem357),
        ("NEM_359", CouplingSocket::Nem359),
        ("NEM_360", CouplingSocket::Nem360),
        ("NEM_362", CouplingSocket::Nem362),
        ("NEM_365", CouplingSocket::Nem365),
    ];
    for (input, expected) in cases {
        assert_eq!(Ok(expected), input.parse::<CouplingSocket>());
        assert_eq!(input, expected.to_string());
    }
    assert_eq!(Err(ParseError::VariantNotFound), "invalid".parse::<CouplingSocket>());
    assert_eq!(Ok(CouplingSocket::Nem362), "nem_362".parse::<CouplingSocket>());
}

#[test]
fn it_should_parse_strings_as_feature_flags() {
    assert_eq!(Ok(FeatureFlag::Yes), "YES".parse::<FeatureFlag>());
    assert_eq!(Ok(FeatureFlag::No), "NO".parse::<FeatureFlag>());
    assert_eq!(Ok(FeatureFlag::NotApplicable), "NOT_APPLICABLE".parse::<FeatureFlag>());
    assert_eq!(Err(ParseError::VariantNotFound), "invalid".parse::<FeatureFlag>());
    assert_eq!("YES", FeatureFlag::Yes.to_string());
    assert_eq!("NO", FeatureFlag::No.to_string());
    assert_eq!("NOT_APPLICABLE", FeatureFlag::NotApplicable.to_string());
    assert_eq!(FeatureFlag::NotApplicable, FeatureFlag::default());
    assert_eq!(CouplingSocket::NoSocket, CouplingSocket::default());
}

#[test]
fn body_shells_and_chassis_round_trip_through_their_text() {
    assert_eq!("METAL_DIE_CAST", BodyShellType::MetalDieCast.to_string());
    assert_eq!(Ok(BodyShellType::Plastic), "plastic".parse::<BodyShellType>());
    assert_eq!("PLASTIC", ChassisType::Plastic.to_string());
    assert_eq!(Ok(ChassisType::MetalDieCast), "METAL_DIE_CAST".parse::<ChassisType>());
}

#[test]
fn it_should_create_a_new_radius_in_millimeters() {
    let radius = Radius::from_millimeters(dec(3600, 1)).expect("unable to create the radius");
    assert_eq!(Length::new(dec(360, 0), MeasureUnit::Millimeters), radius.value());
}

#[test]
fn it_should_fail_to_create_negative_radius() {
    let result = Radius::from_millimeters(dec(-10, 1));
    assert_eq!(Err(RadiusError::NegativeRadius), result);
}

#[test]
fn it_should_display_a_radius() {
    let radius = Radius::from_millimeters(dec(3600, 1)).unwrap();
    assert_eq!("360.0 mm", radius.to_string());
}

#[test]
fn it_should_create_tech_specs() {
    let coupling = Coupling::new(CouplingSocket::Nem362, FeatureFlag::Yes, FeatureFlag::No);

    let radius = Radius::from_millimeters(dec(360, 0)).unwrap();
    let tech_specs = TechnicalSpecificationsBuilder::default()
        .with_coupling(coupling)
        .with_chassis(ChassisType::Plastic)
        .with_body_shell(BodyShellType::MetalDieCast)
        .with_minimum_radius(radius)
        .with_interior_lights()
        .with_lights()
        .with_sprung_buffers()
        .with_flywheel_fitted()
        .build();

    assert_eq!(Some(coupling), tech_specs.coupling());
    assert_eq!(Some(radius), tech_specs.minimum_radius());
    assert_eq!(Some(ChassisType::Plastic), tech_specs.chassis());
    assert_eq!(Some(BodyShellType::MetalDieCast), tech_specs.body_shell());
    assert_eq!(Some(FeatureFlag::Yes), tech_specs.interior_lights());
    assert_eq!(Some(FeatureFlag::Yes), tech_specs.lights());
    assert_eq!(Some(FeatureFlag::Yes), tech_specs.sprung_buffers());
    assert_eq!(Some(FeatureFlag::Yes), tech_specs.flywheel_fitted());
}

#[test]
fn empty_tech_specs_have_no_values() {
    let tech_specs = TechnicalSpecificationsBuilder::default().build();
    assert_eq!(None, tech_specs.coupling());
    assert_eq!(None, tech_specs.minimum_radius());
    assert_eq!(None, tech_specs.lights());
}

#[test]
fn negative_zero_lengths_are_rejected() {
    let mut negative_zero = dec(0, 1);
    negative_zero.set_sign_negative(true);
    assert!(negative_zero.is_sign_negative());
    assert!(negative_zero.is_zero());
    assert_eq!("-0.0", negative_zero.to_string());
    assert_eq!(Decimal::zero(), negative_zero);
    assert_eq!(Err(LengthError::NegativeValue), Length::try_new(negative_zero, MeasureUnit::Millimeters));
    assert_eq!(Err(RadiusError::NegativeRadius), Radius::from_millimeters(negative_zero));
    assert_eq!(
        Err(LengthOverBuffersError::NonPositiveValue),
        LengthOverBuffers::new(Some(negative_zero), None)
    );
}

#[test]
fn signs_can_be_set_and_cleared() {
    let mut d = dec(125, 2);
    d.set_sign_negative(true);
    assert_eq!((-125, 2), (d.mantissa(), d.scale()));
    assert_eq!("-1.25", d.to_string());
    d.set_sign_negative(false);
    assert_eq!((125, 2), (d.mantissa(), d.scale()));
    assert!(d.is_sign_positive());
}

#[test]
fn it_should_add_decimals_of_the_same_scale_and_sign_exactly() {
    let sum = Decimal::new(125, 2).checked_add(&Decimal::new(250, 2)).unwrap();
    assert_eq!((375, 2, false), (sum.mantissa(), sum.scale(), sum.is_sign_negative()));
    let sum = Decimal::new(-125, 2).checked_add(&Decimal::new(-250, 2)).unwrap();
    assert_eq!((-375, 2, true), (sum.mantissa(), sum.scale(), sum.is_sign_negative()));
}

#[test]
fn it_should_round_decimals_half_to_even() {
    let parts = |d: Decimal| (d.mantissa(), d.scale(), d.is_sign_negative());
    assert_eq!((234, 2, false), parts(Decimal::new(2345, 3).round_dp(2)));
    assert_eq!((236, 2, false), parts(Decimal::new(2355, 3).round_dp(2)));
    assert_eq!((235, 2, false), parts(Decimal::new(23451, 4).round_dp(2)));
    assert_eq!((-100, 2, true), parts(Decimal::new(-1005, 3).round_dp(2)));
    assert_eq!((0, 2, false), parts(Decimal::new(-4, 3).round_dp(2)));
    assert_eq!((165, 1, false), parts(Decimal::new(165, 1).round_dp(2)));
}
