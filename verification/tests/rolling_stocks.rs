use trenako::catalog::catalog_items::catalog_item_request::CatalogItemRequest;
use trenako::catalog::catalog_items::category::{
    Category, ElectricMultipleUnitType, FreightCarType, LocomotiveType, PassengerCarType, RailcarType,
    RollingStockCategory, ServiceLevel,
};
use trenako::catalog::catalog_items::commands::new_catalog_item::{
    catalog_item_creation_command, creation_response, railway_ids, CatalogItemCommandPayload, CatalogItemCreationError,
    NewCatalogItemCommand, NewRollingStockCommand, RollingStockPayload,
};
use trenako::catalog::catalog_items::catalog_item_id::CatalogItemId;
use trenako::catalog::catalog_items::control::{Control, DccInterface};
use trenako::catalog::catalog_items::delivery_date::DeliveryDate;
use trenako::catalog::catalog_items::availability_status::AvailabilityStatus;
use trenako::catalog::catalog_items::epoch::Epoch;
use trenako::catalog::catalog_items::item_number::{invalid_item_number, ItemNumber};
use trenako::catalog::catalog_items::length_over_buffers::LengthOverBuffers;
use trenako::catalog::catalog_items::power_method::PowerMethod;
use trenako::catalog::catalog_items::rolling_stock_request::RollingStockRequest;
use trenako::catalog::catalog_items::technical_specifications::{
    Coupling, CouplingSocket, FeatureFlag, Radius, TechnicalSpecifications,
};
use trenako::catalog::manufacturers::manufacturer_id::ManufacturerId;
use trenako::catalog::railways::railway_id::RailwayId;
use trenako::catalog::scales::scale_id::ScaleId;
use trenako::common::decimal::Decimal;
use trenako::common::length::Length;
use trenako::common::localized_text::LocalizedText;
use validator::ValidationErrors;

const TYPE_KEY: &str = "type\x5fname";

fn random_str(len: usize) -> String {
    "abcdefghij".chars().cycle().take(len).collect()
}

fn dec(num: i64, scale: u32) -> Decimal {
    Decimal::new(num, scale)
}

fn technical_specifications() -> Option<TechnicalSpecifications> {
    Some(TechnicalSpecifications::default())
}

fn electric_multiple_unit_request() -> RollingStockRequest {
    RollingStockRequest::ElectricMultipleUnitRequest {
        railway: "FS".to_string(),
        livery: Some(String::from("castano/isabella")),
        length_over_buffers: None,
        technical_specifications: technical_specifications(),
        type_label: "111".to_string(),
        road_number: None,
        series: None,
        depot: None,
        electric_multiple_unit_type: ElectricMultipleUnitType::PowerCar,
        dcc_interface: None,
        control: None,
        is_dummy: false,
    }
}

fn freight_car_request() -> RollingStockRequest {
    RollingStockRequest::FreightCarRequest {
        railway: "FS".to_string(),
        livery: Some(String::from("castano/isabella")),
        length_over_buffers: None,
        technical_specifications: technical_specifications(),
        type_label: "111".to_string(),
        road_number: None,
        freight_car_type: None,
    }
}

fn locomotive_request() -> RollingStockRequest {
    RollingStockRequest::LocomotiveRequest {
        railway: "FS".to_string(),
        livery: Some(String::from("castano/isabella")),
        length_over_buffers: None,
        technical_specifications: technical_specifications(),
        class_name: "111".to_string(),
        road_number: "999".to_string(),
        series: None,
        depot: None,
        locomotive_type: LocomotiveType::ElectricLocomotive,
        dcc_interface: None,
        control: None,
        is_dummy: false,
    }
}

fn passenger_car_request() -> RollingStockRequest {
    RollingStockRequest::PassengerCarRequest {
        railway: "FS".to_string(),
        livery: Some(String::from("castano/isabella")),
        length_over_buffers: None,
        technical_specifications: technical_specifications(),
        type_label: "111".to_string(),
        road_number: None,
        series: None,
        passenger_car_type: None,
        service_level: None,
    }
}

fn railcar_request() -> RollingStockRequest {
    RollingStockRequest::RailcarRequest {
        railway: "FS".to_string(),
        livery: Some(String::from("castano/isabella")),
        length_over_buffers: None,
        technical_specifications: technical_specifications(),
        type_label: "111".to_string(),
        road_number: None,
        series: None,
        depot: None,
        railcar_type: RailcarType::PowerCar,
        dcc_interface: None,
        control: None,
        is_dummy: false,
    }
}

fn all_requests() -> Vec<(RollingStockRequest, RollingStockCategory)> {
    vec![
        (electric_multiple_unit_request(), RollingStockCategory::ElectricMultipleUnit),
        (freight_car_request(), RollingStockCategory::FreightCar),
        (locomotive_request(), RollingStockCategory::Locomotive),
        (passenger_car_request(), RollingStockCategory::PassengerCar),
        (railcar_request(), RollingStockCategory::Railcar),
    ]
}

fn emu_with(
    railway: Option<&String>,
    type_label: Option<&String>,
    road_number: Option<&String>,
    series: Option<&String>,
    depot: Option<&String>,
    livery: Option<&String>,
) -> RollingStockRequest {
    RollingStockRequest::ElectricMultipleUnitRequest {
        railway: railway.cloned().unwrap_or(String::from("FS")),
        livery: livery.cloned(),
        length_over_buffers: None,
        technical_specifications: None,
        type_label: type_label.cloned().unwrap_or(String::from("111")),
        road_number: road_number.cloned(),
        series: series.cloned(),
        depot: depot.cloned(),
        electric_multiple_unit_type: ElectricMultipleUnitType::DrivingCar,
        dcc_interface: None,
        control: None,
        is_dummy: false,
    }
}

fn freight_car_with(
    railway: Option<&String>,
    type_label: Option<&String>,
    road_number: Option<&String>,
    livery: Option<&String>,
) -> RollingStockRequest {
    RollingStockRequest::FreightCarRequest {
        railway: railway.cloned().unwrap_or(String::from("FS")),
        livery: livery.cloned(),
        length_over_buffers: None,
        technical_specifications: None,
        type_label: type_label.cloned().unwrap_or(String::from("111")),
        road_number: road_number.cloned(),
        freight_car_type: Some(FreightCarType::CoveredFreightCars),
    }
}

fn locomotive_with(
    railway: Option<&String>,
    class_name: Option<&String>,
    road_number: Option<&String>,
    series: Option<&String>,
    depot: Option<&String>,
    livery: Option<&String>,
) -> RollingStockRequest {
    RollingStockRequest::LocomotiveRequest {
        railway: railway.cloned().unwrap_or(String::from("FS")),
        livery: livery.cloned(),
        length_over_buffers: None,
        technical_specifications: None,
        class_name: class_name.cloned().unwrap_or(String::from("111")),
        road_number: road_number.cloned().unwrap_or(String::from("222")),
        series: series.cloned(),
        depot: depot.cloned(),
        locomotive_type: LocomotiveType::ElectricLocomotive,
        dcc_interface: None,
        control: None,
        is_dummy: false,
    }
}

fn passenger_car_with(
    railway: Option<&String>,
    type_label: Option<&String>,
    road_number: Option<&String>,
    series: Option<&String>,
    livery: Option<&String>,
) -> RollingStockRequest {
    RollingStockRequest::PassengerCarRequest {
        railway: railway.cloned().unwrap_or(String::from("FS")),
        livery: livery.cloned(),
        length_over_buffers: None,
        technical_specifications: None,
        type_label: type_label.cloned().unwrap_or(String::from("111")),
        road_number: road_number.cloned(),
        series: series.cloned(),
        passenger_car_type: Some(PassengerCarType::OpenCoach),
        service_level: Some(ServiceLevel::FirstClass),
    }
}

fn railcar_with(
    railway: Option<&String>,
    type_label: Option<&String>,
    road_number: Option<&String>,
    series: Option<&String>,
    depot: Option<&String>,
    livery: Option<&String>,
) -> RollingStockRequest {
    RollingStockRequest::RailcarRequest {
        railway: railway.cloned().unwrap_or(String::from("FS")),
        livery: livery.cloned(),
        length_over_buffers: None,
        technical_specifications: None,
        type_label: type_label.cloned().unwrap_or(String::from("111")),
        road_number: road_number.cloned(),
        series: series.cloned(),
        depot: depot.cloned(),
        railcar_type: RailcarType::PowerCar,
        dcc_interface: None,
        control: None,
        is_dummy: false,
    }
}

fn assert_single_length_error(err: &ValidationErrors, field: &str, input: &str, min: Option<u64>, max: u64) {
    let errors = err.field_errors();
    assert_eq!(1, errors.len());
    assert!(errors.contains_key(field));
    assert_eq!(errors[field].len(), 1);
    assert_eq!(errors[field][0].code, "length");
    assert_eq!(errors[field][0].params["value"], input);
    match min {
        Some(m) => assert_eq!(errors[field][0].params["min"], m),
        None => assert!(!errors[field][0].params.contains_key("min")),
    }
    assert_eq!(errors[field][0].params["max"], max);
}

#[test]
fn it_should_return_the_category() {
    for (request, expected) in all_requests() {
        assert_eq!(expected, request.category());
    }
}

#[test]
fn it_should_return_the_railway() {
    for (request, _) in all_requests() {
        assert_eq!("FS", request.railway());
    }
}

#[test]
fn it_should_return_the_livery() {
    let expected = Some(String::from("castano/isabella"));
    for (request, _) in all_requests() {
        assert_eq!(expected.as_ref(), request.livery());
    }
}

#[test]
fn it_should_return_the_technical_specifications() {
    let expected = technical_specifications();
    for (request, _) in all_requests() {
        assert_eq!(expected.as_ref(), request.technical_specifications());
        assert_eq!(None, request.length_over_buffers());
    }
}

#[test]
fn it_should_validate_electric_multiple_units() {
    let request = emu_with(None, None, None, None, None, None);
    let result = request.validate();
    assert!(result.is_ok());
}

#[test]
fn it_should_validate_freight_cars() {
    let request = freight_car_with(None, None, None, None);
    let result = request.validate();
    assert!(result.is_ok());
}

#[test]
fn it_should_validate_locomotives() {
    let request = locomotive_with(None, None, None, None, None, None);
    let result = request.validate();
    assert!(result.is_ok());
}

#[test]
fn it_should_validate_passenger_cars() {
    let request = passenger_car_with(None, None, None, None, None);
    let result = request.validate();
    assert!(result.is_ok());
}

#[test]
fn it_should_validate_railcars() {
    let request = railcar_with(None, None, None, None, None, None);
    let result = request.validate();
    assert!(result.is_ok());
}

#[test]
fn it_should_validate_electric_multiple_unit_railway() {
    for len in [0, 1, 51] {
        let input = random_str(len);
        let request = emu_with(Some(&input), None, None, None, None, None);
        let err = request.validate().unwrap_err();
        assert_single_length_error(&err, "railway", &input, Some(2), 50);
    }
}

#[test]
fn it_should_validate_electric_multiple_unit_type_label() {
    for len in [0, 1, 2, 51] {
        let input = random_str(len);
        let request = emu_with(None, Some(&input), None, None, None, None);
        let err = request.validate().unwrap_err();
        assert_single_length_error(&err, TYPE_KEY, &input, Some(3), 15);
    }
}

#[test]
fn it_should_validate_electric_multiple_unit_road_number() {
    for len in [51] {
        let input = random_str(len);
        let request = emu_with(None, None, Some(&input), None, None, None);
        let err = request.validate().unwrap_err();
        assert_single_length_error(&err, "road_number", &input, None, 50);
    }
}

#[test]
fn it_should_validate_electric_multiple_unit_depot() {
    for len in [101] {
        let input = random_str(len);
        let request = emu_with(None, None, None, None, Some(&input), None);
        let err = request.validate().unwrap_err();
        assert_single_length_error(&err, "depot", &input, None, 100);
    }
}

#[test]
fn it_should_validate_electric_multiple_unit_series() {
    for len in [51] {
        let input = random_str(len);
        let request = emu_with(None, None, None, Some(&input), None, None);
        let err = request.validate().unwrap_err();
        assert_single_length_error(&err, "series", &input, None, 50);
    }
}

#[test]
fn it_should_validate_electric_multiple_unit_livery() {
    for len in [51] {
        let input = random_str(len);
        let request = emu_with(None, None, None, None, None, Some(&input));
        let err = request.validate().unwrap_err();
        assert_single_length_error(&err, "livery", &input, None, 50);
    }
}

#[test]
fn it_should_validate_freight_car_railway() {
    for len in [0, 1, 51] {
        let input = random_str(len);
        let request = freight_car_with(Some(&input), None, None, None);
        let err = request.validate().unwrap_err();
        assert_single_length_error(&err, "railway", &input, Some(2), 50);
    }
}

#[test]
fn it_should_validate_freight_car_type_label() {
    for len in [1, 2, 51] {
        let input = random_str(len);
        let request = freight_car_with(None, Some(&input), None, None);
        let err = request.validate().unwrap_err();
        assert_single_length_error(&err, TYPE_KEY, &input, Some(3), 25);
    }
}

#[test]
fn it_should_validate_freight_car_road_number() {
    for len in [51] {
        let input = random_str(len);
        let request = freight_car_with(None, None, Some(&input), None);
        let err = request.validate().unwrap_err();
        assert_single_length_error(&err, "road_number", &input, None, 50);
    }
}

#[test]
fn it_should_validate_freight_car_livery() {
    for len in [51] {
        let input = random_str(len);
        let request = freight_car_with(None, None, None, Some(&input));
        let err = request.validate().unwrap_err();
        assert_single_length_error(&err, "livery", &input, None, 50);
    }
}

#[test]
fn it_should_validate_locomotive_railway() {
    for len in [0, 1, 51] {
        let input = random_str(len);
        let request = locomotive_with(Some(&input), None, None, None, None, None);
        let err = request.validate().unwrap_err();
        assert_single_length_error(&err, "railway", &input, Some(2), 50);
    }
}

#[test]
fn it_should_validate_locomotive_class_name() {
    for len in [0, 1, 2, 51] {
        let input = random_str(len);
        let request = locomotive_with(None, Some(&input), None, None, None, None);
        let err = request.validate().unwrap_err();
        assert_single_length_error(&err, "class_name", &input, Some(3), 15);
    }
}

#[test]
fn it_should_validate_locomotive_road_number() {
    for len in [0, 1, 2, 51] {
        let input = random_str(len);
        let request = locomotive_with(None, None, Some(&input), None, None, None);
        let err = request.validate().unwrap_err();
        assert_single_length_error(&err, "road_number", &input, Some(3), 50);
    }
}

#[test]
fn it_should_validate_locomotive_depot() {
    for len in [101] {
        let input = random_str(len);
        let request = locomotive_with(None, None, None, None, Some(&input), None);
        let err = request.validate().unwrap_err();
        assert_single_length_error(&err, "depot", &input, None, 100);
    }
}

#[test]
fn it_should_validate_locomotive_series() {
    for len in [51] {
        let input = random_str(len);
        let request = locomotive_with(None, None, None, Some(&input), None, None);
        let err = request.validate().unwrap_err();
        assert_single_length_error(&err, "series", &input, None, 50);
    }
}

#[test]
fn it_should_validate_locomotive_livery() {
    for len in [51] {
        let input = random_str(len);
        let request = locomotive_with(None, None, None, None, None, Some(&input));
        let err = request.validate().unwrap_err();
        assert_single_length_error(&err, "livery", &input, None, 50);
    }
}

#[test]
fn it_should_validate_passenger_car_railway() {
    for len in [0, 1, 51] {
        let input = random_str(len);
        let request = passenger_car_with(Some(&input), None, None, None, None);
        let err = request.validate().unwrap_err();
        assert_single_length_error(&err, "railway", &input, Some(2), 50);
    }
}

#[test]
fn it_should_validate_passenger_car_type_label() {
    for len in [1, 2, 51] {
        let input = random_str(len);
        let request = passenger_car_with(None, Some(&input), None, None, None);
        let err = request.validate().unwrap_err();
        assert_single_length_error(&err, TYPE_KEY, &input, Some(3), 25);
    }
}

#[test]
fn it_should_validate_passenger_car_road_number() {
    for len in [51] {
        let input = random_str(len);
        let request = passenger_car_with(None, None, Some(&input), None, None);
        let err = request.validate().unwrap_err();
        assert_single_length_error(&err, "road_number", &input, None, 50);
    }
}

#[test]
fn it_should_validate_passenger_car_series() {
    for len in [51] {
        let input = random_str(len);
        let request = passenger_car_with(None, None, None, Some(&input), None);
        let err = request.validate().unwrap_err();
        assert_single_length_error(&err, "series", &input, None, 50);
    }
}

#[test]
fn it_should_validate_passenger_car_livery() {
    for len in [51] {
        let input = random_str(len);
        let request = passenger_car_with(None, None, None, None, Some(&input));
        let err = request.validate().unwrap_err();
        assert_single_length_error(&err, "livery", &input, None, 50);
    }
}

#[test]
fn it_should_validate_railcar_railway() {
    for len in [0, 1, 51] {
        let input = random_str(len);
        let request = railcar_with(Some(&input), None, None, None, None, None);
        let err = request.validate().unwrap_err();
        assert_single_length_error(&err, "railway", &input, Some(2), 50);
    }
}

#[test]
fn it_should_validate_railcar_type_label() {
    for len in [0, 1, 2, 51] {
        let input = random_str(len);
        let request = railcar_with(None, Some(&input), None, None, None, None);
        let err = request.validate().unwrap_err();
        assert_single_length_error(&err, TYPE_KEY, &input, Some(3), 15);
    }
}

#[test]
fn it_should_validate_railcar_road_number() {
    for len in [51] {
        let input = random_str(len);
        let request = railcar_with(None, None, Some(&input), None, None, None);
        let err = request.validate().unwrap_err();
        assert_single_length_error(&err, "road_number", &input, None, 50);
    }
}

#[test]
fn it_should_validate_railcar_depot() {
    for len in [101] {
        let input = random_str(len);
        let request = railcar_with(None, None, None, None, Some(&input), None);
        let err = request.validate().unwrap_err();
        assert_single_length_error(&err, "depot", &input, None, 100);
    }
}

#[test]
fn it_should_validate_railcar_series() {
    for len in [51] {
        let input = random_str(len);
        let request = railcar_with(None, None, None, Some(&input), None, None);
        let err = request.validate().unwrap_err();
        assert_single_length_error(&err, "series", &input, None, 50);
    }
}

#[test]
fn it_should_validate_railcar_livery() {
    for len in [51] {
        let input = random_str(len);
        let request = railcar_with(None, None, None, None, None, Some(&input));
        let err = request.validate().unwrap_err();
        assert_single_length_error(&err, "livery", &input, None, 50);
    }
}

#[test]
fn it_should_report_each_broken_rule_of_a_request() {
    let long = random_str(51);
    let request = locomotive_with(Some(&random_str(1)), Some(&random_str(2)), None, Some(&long), None, Some(&long));
    let err = request.validate().unwrap_err();
    let errors = err.field_errors();
    assert_eq!(4, errors.len());
    for field in ["railway", "class_name", "series", "livery"] {
        assert_eq!(errors[field].len(), 1);
        assert_eq!(errors[field][0].code, "length");
    }
}

#[test]
fn it_should_build_the_payload_of_a_locomotive() {
    let specs = TechnicalSpecifications {
        minimum_radius: Some(Radius::from_millimeters(dec(360, 0)).unwrap()),
        coupling: Some(Coupling::with_close_couplers(CouplingSocket::Nem362)),
        flywheel_fitted: Some(FeatureFlag::Yes),
        ..TechnicalSpecifications::default()
    };
    let lob = LengthOverBuffers::new(None, Some(dec(210, 0))).unwrap();
    let request = RollingStockRequest::LocomotiveRequest {
        railway: "FS".to_string(),
        livery: None,
        length_over_buffers: Some(lob),
        technical_specifications: Some(specs),
        class_name: "E656".to_string(),
        road_number: "E656 077".to_string(),
        series: Some("I serie".to_string()),
        depot: Some("Milano".to_string()),
        locomotive_type: LocomotiveType::ElectricLocomotive,
        dcc_interface: Some(DccInterface::Nem652),
        control: Some(Control::DccReady),
        is_dummy: true,
    };
    let payload = RollingStockPayload::try_from(request).unwrap();
    assert_eq!(Some(RollingStockCategory::Locomotive), payload.category);
    assert_eq!(None, payload.livery);
    assert_eq!(Some("E656".to_string()), payload.type_label);
    assert_eq!(Some("E656 077".to_string()), payload.road_number);
    assert_eq!(Some("I serie".to_string()), payload.series);
    assert_eq!(Some("Milano".to_string()), payload.depot);
    assert_eq!(Some(LocomotiveType::ElectricLocomotive), payload.locomotive_type);
    assert_eq!(Some(DccInterface::Nem652), payload.dcc_interface);
    assert_eq!(Some(Control::DccReady), payload.control);
    assert!(payload.is_dummy);
    assert_eq!(Some(CouplingSocket::Nem362), payload.coupling_socket);
    assert_eq!(Some(FeatureFlag::Yes), payload.close_couplers);
    assert_eq!(Some(FeatureFlag::No), payload.digital_shunting_coupling);
    assert_eq!(Some(FeatureFlag::Yes), payload.flywheel_fitted);
    assert_eq!("360 mm", payload.minimum_radius.unwrap().to_string());
    assert_eq!("210 mm", payload.length_over_buffers_mm.unwrap().to_string());
    assert!(payload.length_over_buffers_in.is_none());
    assert_eq!(None, payload.body_shell);
    assert_eq!(None, payload.electric_multiple_unit_type);
    assert_eq!(None, payload.railcar_type);
    assert_eq!(None, payload.service_level);
}

#[test]
fn it_should_build_the_payload_of_a_freight_car_without_specifications() {
    let request = RollingStockRequest::FreightCarRequest {
        railway: "FS".to_string(),
        livery: Some("grey".to_string()),
        length_over_buffers: None,
        technical_specifications: None,
        type_label: "Gbs".to_string(),
        road_number: Some("123".to_string()),
        freight_car_type: Some(FreightCarType::CoveredFreightCars),
    };
    let payload = RollingStockPayload::try_from(request).unwrap();
    assert_eq!(Some(RollingStockCategory::FreightCar), payload.category);
    assert_eq!(Some("grey".to_string()), payload.livery);
    assert_eq!(Some("Gbs".to_string()), payload.type_label);
    assert_eq!(Some("123".to_string()), payload.road_number);
    assert_eq!(Some(FreightCarType::CoveredFreightCars), payload.freight_car_type);
    assert_eq!(None, payload.series);
    assert_eq!(None, payload.depot);
    assert_eq!(None, payload.control);
    assert!(!payload.is_dummy);
    assert!(payload.minimum_radius.is_none());
    assert_eq!(None, payload.coupling_socket);
    assert_eq!(None, payload.close_couplers);
    assert!(payload.length_over_buffers_mm.is_none());
    assert!(payload.length_over_buffers_in.is_none());
}

#[test]
fn it_should_build_the_payload_of_a_passenger_car() {
    let request = passenger_car_with(None, None, None, Some(&"UIC-Z".to_string()), None);
    let payload = RollingStockPayload::try_from(request).unwrap();
    assert_eq!(Some(RollingStockCategory::PassengerCar), payload.category);
    assert_eq!(Some(PassengerCarType::OpenCoach), payload.passenger_car_type);
    assert_eq!(Some(ServiceLevel::FirstClass), payload.service_level);
    assert_eq!(Some("UIC-Z".to_string()), payload.series);
    assert_eq!(None, payload.coupling_socket);
}

#[test]
fn it_should_build_the_payload_of_an_electric_multiple_unit_and_of_a_railcar() {
    let payload = RollingStockPayload::try_from(electric_multiple_unit_request()).unwrap();
    assert_eq!(Some(RollingStockCategory::ElectricMultipleUnit), payload.category);
    assert_eq!(Some(ElectricMultipleUnitType::PowerCar), payload.electric_multiple_unit_type);
    assert_eq!(Some("111".to_string()), payload.type_label);
    let payload = RollingStockPayload::try_from(railcar_request()).unwrap();
    assert_eq!(Some(RollingStockCategory::Railcar), payload.category);
    assert_eq!(Some(RailcarType::PowerCar), payload.railcar_type);
}

fn new_catalog_item() -> CatalogItemRequest {
    CatalogItemRequest {
        manufacturer: "ACME".to_string(),
        item_number: ItemNumber::new("123456"),
        scale: "H0".to_string(),
        category: Category::Locomotives,
        power_method: PowerMethod::DC,
        epoch: Epoch::IV,
        description: LocalizedText::with_italian("Descrizione"),
        details: LocalizedText::with_italian("Dettagli"),
        delivery_date: Some(DeliveryDate::ByYear(2022)),
        availability_status: Some(AvailabilityStatus::Available),
        rolling_stocks: vec![RollingStockRequest::LocomotiveRequest {
            railway: "FS".to_string(),
            livery: None,
            length_over_buffers: None,
            technical_specifications: None,
            class_name: "E656".to_string(),
            road_number: "E656 077".to_string(),
            series: None,
            depot: None,
            locomotive_type: LocomotiveType::ElectricLocomotive,
            dcc_interface: Some(DccInterface::Nem652),
            control: Some(Control::DccReady),
            is_dummy: false,
        }],
        count: 1,
    }
}

#[test]
fn new_catalog_item_it_should_return_an_error_when_the_manufacturer_is_not_found() {
    let result = catalog_item_creation_command(new_catalog_item(), Ok(()), false, false, false, None);
    match result {
        Err(CatalogItemCreationError::ManufacturerNotFound(id)) => assert_eq!(ManufacturerId::new("ACME"), id),
        _ => panic!("Expected a manufacturer not found error"),
    }
}

#[test]
fn it_should_return_an_error_when_the_scale_is_not_found() {
    let result = catalog_item_creation_command(new_catalog_item(), Ok(()), false, true, false, None);
    match result {
        Err(CatalogItemCreationError::ScaleNotFound(id)) => assert_eq!(ScaleId::new("H0"), id),
        _ => panic!("Expected a scale not found error"),
    }
}

#[test]
fn it_should_return_an_error_when_the_catalog_item_already_exists() {
    let result = catalog_item_creation_command(new_catalog_item(), Ok(()), true, true, true, None);
    match result {
        Err(CatalogItemCreationError::CatalogItemAlreadyExists(id)) => assert_eq!(
            CatalogItemId::of(&ManufacturerId::new("ACME"), &ItemNumber::new("123456")),
            id
        ),
        _ => panic!("Expected a catalog item already exists error"),
    }
}

#[test]
fn it_should_return_an_error_when_the_railway_is_not_found() {
    let request = new_catalog_item();
    let ids = railway_ids(&request);
    assert_eq!(vec![RailwayId::new("FS")], ids);
    let missing = ids.into_iter().next();
    let result = catalog_item_creation_command(request, Ok(()), false, true, true, missing);
    match result {
        Err(CatalogItemCreationError::RailwayNotFound(id)) => assert_eq!(RailwayId::new("FS"), id),
        _ => panic!("Expected a railway not found error"),
    }
}

#[test]
fn it_should_return_an_error_when_the_request_is_not_valid() {
    let mut errors = ValidationErrors::new();
    errors.add("count", validator::ValidationError::new("range"));
    let result = catalog_item_creation_command(new_catalog_item(), Err(errors), false, true, true, None);
    match result {
        Err(CatalogItemCreationError::InvalidRequest(e)) => {
            assert!(e.field_errors().contains_key("count"));
        },
        _ => panic!("Expected an invalid request error"),
    }
}

#[test]
fn it_should_create_a_new_catalog_item() {
    let result = catalog_item_creation_command(new_catalog_item(), Ok(()), false, true, true, None);
    let command: NewCatalogItemCommand = result.unwrap();
    let expected_id = CatalogItemId::of(&ManufacturerId::new("ACME"), &ItemNumber::new("123456"));
    assert_eq!(expected_id, command.catalog_item_id);
    assert_eq!(ManufacturerId::new("ACME"), command.payload.manufacturer_id);
    assert_eq!(ScaleId::new("H0"), command.payload.scale_id);
    assert_eq!(Category::Locomotives, command.payload.category);
    assert_eq!(Epoch::IV, command.payload.epoch);
    assert_eq!(1, command.payload.count);
    assert_eq!(1, command.rolling_stocks.len());
    let rs: &NewRollingStockCommand = &command.rolling_stocks[0];
    assert_eq!(expected_id, rs.catalog_item_id);
    assert_eq!(RailwayId::new("FS"), rs.railway_id);
    assert_eq!(Some("E656".to_string()), rs.payload.type_label);
    assert_eq!(1, command.metadata.version());
    let response = creation_response(&command);
    assert_eq!(expected_id, response.catalog_item_id);
    assert_eq!(*command.metadata.created(), response.created_at);
}

#[test]
fn it_should_build_the_payload_of_a_catalog_item_request() {
    let payload = CatalogItemCommandPayload::try_from(new_catalog_item()).unwrap();
    assert_eq!("acme", payload.manufacturer_id.to_string());
    assert_eq!("h0", payload.scale_id.to_string());
    assert_eq!(ItemNumber::new("123456"), payload.item_number);
    assert_eq!(Some(DeliveryDate::ByYear(2022)), payload.delivery_date);
    assert_eq!(Some(AvailabilityStatus::Available), payload.availability_status);
    assert_eq!(PowerMethod::DC, payload.power_method);
}

#[test]
fn it_should_find_length_over_buffers_within_their_ranges() {
    let lob = LengthOverBuffers::new(Some(dec(65, 2)), Some(dec(165, 1))).unwrap();
    assert_eq!((false, false), lob.out_of_range());
    let lob = LengthOverBuffers {
        inches: Some(Length::Inches(dec(999, 0))),
        millimeters: Some(Length::Millimeters(dec(1, 1))),
    };
    assert_eq!((false, false), lob.out_of_range());
    assert_eq!((false, false), LengthOverBuffers::default().out_of_range());
}

#[test]
fn it_should_find_length_over_buffers_outside_their_ranges() {
    let lob = LengthOverBuffers {
        millimeters: Some(Length::Millimeters(dec(-165, 1))),
        inches: Some(Length::Inches(dec(-65, 2))),
    };
    assert_eq!((true, true), lob.out_of_range());
    let lob = LengthOverBuffers {
        inches: Some(Length::Inches(dec(9991, 1))),
        millimeters: Some(Length::Millimeters(dec(99990, 1))),
    };
    assert_eq!((true, false), lob.out_of_range());
    let lob = LengthOverBuffers { inches: None, millimeters: Some(Length::Millimeters(dec(9, 2))) };
    assert_eq!((false, true), lob.out_of_range());
}

#[test]
fn it_should_check_the_range_of_the_minimum_radius() {
    let specs = TechnicalSpecifications {
        minimum_radius: Some(Radius::from_millimeters(dec(3600, 1)).unwrap()),
        ..TechnicalSpecifications::default()
    };
    assert!(!specs.radius_out_of_range());
    let specs = TechnicalSpecifications {
        minimum_radius: Some(Radius::from_millimeters(dec(100000, 1)).unwrap()),
        ..TechnicalSpecifications::default()
    };
    assert!(specs.radius_out_of_range());
    assert!(!TechnicalSpecifications::default().radius_out_of_range());
}

#[test]
fn it_should_validate_the_lengths_of_catalog_item_requests() {
    assert!(new_catalog_item().validate_lengths().is_ok());
    for input in [random_str(0), random_str(2), random_str(51)] {
        let request = CatalogItemRequest { manufacturer: input.clone(), ..new_catalog_item() };
        let err = request.validate_lengths().unwrap_err();
        assert_single_length_error(&err, "manufacturer", &input, Some(3), 50);
    }
    for input in [random_str(0), random_str(51)] {
        let request = CatalogItemRequest { scale: input.clone(), ..new_catalog_item() };
        let err = request.validate_lengths().unwrap_err();
        assert_single_length_error(&err, "scale", &input, Some(1), 50);
    }
    let request = CatalogItemRequest { item_number: invalid_item_number(), ..new_catalog_item() };
    let err = request.validate_lengths().unwrap_err();
    assert_single_length_error(&err, "item_number", "", Some(1), 25);
}
