//! The creation of a catalog item: the commands to store, and the decisions around them.

use crate::catalog::catalog_items::availability_status::AvailabilityStatus;
use crate::catalog::catalog_items::catalog_item_id::CatalogItemId;
use crate::catalog::catalog_items::catalog_item_request::CatalogItemRequest;
use crate::catalog::catalog_items::catalog_item_response::CatalogItemCreated;
use crate::catalog::catalog_items::category::{
    Category, ElectricMultipleUnitType, FreightCarType, LocomotiveType, PassengerCarType, RailcarType,
    RollingStockCategory, ServiceLevel,
};
use crate::catalog::catalog_items::control::{Control, DccInterface};
use crate::catalog::catalog_items::delivery_date::DeliveryDate;
use crate::catalog::catalog_items::epoch::Epoch;
use crate::catalog::catalog_items::item_number::ItemNumber;
use crate::catalog::catalog_items::power_method::PowerMethod;
use crate::catalog::catalog_items::rolling_stock_request::{
    category_of, length_over_buffers_of, livery_of, railway_of, technical_specifications_of, RollingStockRequest,
};
use crate::catalog::catalog_items::technical_specifications::{
    BodyShellType, ChassisType, Coupling, CouplingSocket, FeatureFlag, Radius, TechnicalSpecifications,
};
use crate::catalog::manufacturers::manufacturer_id::ManufacturerId;
use crate::catalog::railways::railway_id::RailwayId;
use crate::catalog::scales::scale_id::ScaleId;
use crate::common::length::Length;
use crate::common::localized_text::LocalizedText;
use crate::common::metadata::Metadata;
use crate::common::queries::errors::DatabaseError;
use crate::common::slug::slugify_text;
use validator::ValidationErrors;
use vstd::prelude::*;

verus! {

/// The errors of the creation of a catalog item.
#[derive(Debug)]
pub enum CatalogItemCreationError {
    /// an unexpected error
    UnexpectedError(anyhow::Error),
    /// The catalog item request is not valid
    InvalidRequest(ValidationErrors),
    /// a database error
    DatabaseError(DatabaseError),
    /// The catalog item already exists
    CatalogItemAlreadyExists(CatalogItemId),
    /// Unable to create the catalog item due to manufacturer not found
    ManufacturerNotFound(ManufacturerId),
    /// Unable to create the catalog item due to railway not found
    RailwayNotFound(RailwayId),
    /// Unable to create the catalog item due to scale not found
    ScaleNotFound(ScaleId),
}

/// The values of a rolling stock to store.
#[derive(Debug, Clone)]
pub struct RollingStockPayload {
    pub category: Option<RollingStockCategory>,
    pub livery: Option<String>,
    pub length_over_buffers_mm: Option<Length>,
    pub length_over_buffers_in: Option<Length>,
    pub type_label: Option<String>,
    pub road_number: Option<String>,
    pub series: Option<String>,
    pub depot: Option<String>,
    pub dcc_interface: Option<DccInterface>,
    pub control: Option<Control>,
    pub electric_multiple_unit_type: Option<ElectricMultipleUnitType>,
    pub freight_car_type: Option<FreightCarType>,
    pub locomotive_type: Option<LocomotiveType>,
    pub passenger_car_type: Option<PassengerCarType>,
    pub railcar_type: Option<RailcarType>,
    pub service_level: Option<ServiceLevel>,
    pub is_dummy: bool,
    pub minimum_radius: Option<Radius>,
    pub coupling_socket: Option<CouplingSocket>,
    pub close_couplers: Option<FeatureFlag>,
    pub digital_shunting_coupling: Option<FeatureFlag>,
    pub flywheel_fitted: Option<FeatureFlag>,
    pub body_shell: Option<BodyShellType>,
    pub chassis: Option<ChassisType>,
    pub interior_lights: Option<FeatureFlag>,
    pub lights: Option<FeatureFlag>,
    pub sprung_buffers: Option<FeatureFlag>,
}

/// The coupling with nothing set.
pub open spec fn no_coupling() -> Coupling {
    Coupling { socket: None, close_couplers: None, digital_shunting: None }
}

/// The technical specifications with nothing set.
pub open spec fn no_specifications() -> TechnicalSpecifications {
    TechnicalSpecifications {
        minimum_radius: None,
        coupling: None,
        flywheel_fitted: None,
        body_shell: None,
        chassis: None,
        interior_lights: None,
        lights: None,
        sprung_buffers: None,
    }
}

/// The technical specifications of a request, or none set where it has none.
pub open spec fn specifications_or_none(r: RollingStockRequest) -> TechnicalSpecifications {
    match technical_specifications_of(r) {
        Some(t) => t,
        None => no_specifications(),
    }
}

/// The coupling of technical specifications, or none set where they have none.
pub open spec fn coupling_or_none(t: TechnicalSpecifications) -> Coupling {
    match t.coupling {
        Some(c) => c,
        None => no_coupling(),
    }
}

/// The payload of a rolling stock request: its category and livery; the length over
/// buffers in millimeters and in inches, where it has one; the minimum radius, the three
/// values of the coupling and the other features of its technical specifications (none set
/// where it has none, or its specifications no coupling); and the fields of its kind.
pub open spec fn payload_of_rolling_stock(p: RollingStockPayload, r: RollingStockRequest) -> bool {
    let t = specifications_or_none(r);
    let c = coupling_or_none(t);
    &&& p.category == Some(category_of(r))
    &&& p.livery == livery_of(r)
    &&& p.length_over_buffers_mm == (match length_over_buffers_of(r) {
        Some(l) => l.millimeters,
        None => None,
    })
    &&& p.length_over_buffers_in == (match length_over_buffers_of(r) {
        Some(l) => l.inches,
        None => None,
    })
    &&& p.minimum_radius == t.minimum_radius
    &&& p.coupling_socket == c.socket
    &&& p.close_couplers == c.close_couplers
    &&& p.digital_shunting_coupling == c.digital_shunting
    &&& p.flywheel_fitted == t.flywheel_fitted
    &&& p.body_shell == t.body_shell
    &&& p.chassis == t.chassis
    &&& p.interior_lights == t.interior_lights
    &&& p.lights == t.lights
    &&& p.sprung_buffers == t.sprung_buffers
    &&& kind_fields_of(p, r)
}

/// The fields of the payload that come from the kind of the request: the type name (the
/// class name of a locomotive), road number, series, depot, dcc interface, control, the
/// kind's own type, the service level and whether it is a dummy; a field that the kind does
/// not have is not set (not a dummy).
pub open spec fn kind_fields_of(p: RollingStockPayload, r: RollingStockRequest) -> bool {
    match r {
        RollingStockRequest::ElectricMultipleUnitRequest {
            type_label,
            road_number,
            series,
            depot,
            electric_multiple_unit_type,
            dcc_interface,
            control,
            is_dummy,
            ..
        } => {
            &&& p.type_label == Some(type_label)
            &&& p.road_number == road_number
            &&& p.series == series
            &&& p.depot == depot
            &&& p.dcc_interface == dcc_interface
            &&& p.control == control
            &&& p.electric_multiple_unit_type == Some(electric_multiple_unit_type)
            &&& p.freight_car_type is None && p.locomotive_type is None && p.passenger_car_type is None
            &&& p.railcar_type is None && p.service_level is None
            &&& p.is_dummy == is_dummy
        },
        RollingStockRequest::RailcarRequest {
            type_label,
            road_number,
            series,
            depot,
            railcar_type,
            dcc_interface,
            control,
            is_dummy,
            ..
        } => {
            &&& p.type_label == Some(type_label)
            &&& p.road_number == road_number
            &&& p.series == series
            &&& p.depot == depot
            &&& p.dcc_interface == dcc_interface
            &&& p.control == control
            &&& p.railcar_type == Some(railcar_type)
            &&& p.electric_multiple_unit_type is None && p.freight_car_type is None && p.locomotive_type is None
            &&& p.passenger_car_type is None && p.service_level is None
            &&& p.is_dummy == is_dummy
        },
        RollingStockRequest::LocomotiveRequest {
            class_name,
            road_number,
            series,
            depot,
            locomotive_type,
            dcc_interface,
            control,
            is_dummy,
            ..
        } => {
            &&& p.type_label == Some(class_name)
            &&& p.road_number == Some(road_number)
            &&& p.series == series
            &&& p.depot == depot
            &&& p.dcc_interface == dcc_interface
            &&& p.control == control
            &&& p.locomotive_type == Some(locomotive_type)
            &&& p.electric_multiple_unit_type is None && p.freight_car_type is None && p.passenger_car_type is None
            &&& p.railcar_type is None && p.service_level is None
            &&& p.is_dummy == is_dummy
        },
        RollingStockRequest::PassengerCarRequest {
            type_label,
            road_number,
            series,
            passenger_car_type,
            service_level,
            ..
        } => {
            &&& p.type_label == Some(type_label)
            &&& p.road_number == road_number
            &&& p.series == series
            &&& p.depot is None
            &&& p.dcc_interface is None && p.control is None
            &&& p.passenger_car_type == passenger_car_type
            &&& p.service_level == service_level
            &&& p.electric_multiple_unit_type is None && p.freight_car_type is None && p.locomotive_type is None
            &&& p.railcar_type is None
            &&& !p.is_dummy
        },
        RollingStockRequest::FreightCarRequest { type_label, road_number, freight_car_type, .. } => {
            &&& p.type_label == Some(type_label)
            &&& p.road_number == road_number
            &&& p.series is None && p.depot is None
            &&& p.dcc_interface is None && p.control is None
            &&& p.freight_car_type == freight_car_type
            &&& p.electric_multiple_unit_type is None && p.locomotive_type is None && p.passenger_car_type is None
            &&& p.railcar_type is None && p.service_level is None
            &&& !p.is_dummy
        },
    }
}

/// The payload keeps the values of the request in the fields of the same name: its category
/// and livery; the lengths over buffers in millimeters and in inches; and each feature of
/// its technical specifications (lights as lights, interior lights as interior lights, and
/// so on), with the three values of their coupling; none of them where the request has no
/// specifications, and no coupling value where they have no coupling.
pub proof fn lemma_payload_keeps_request_values(p: RollingStockPayload, r: RollingStockRequest)
    requires
        payload_of_rolling_stock(p, r),
    ensures
        p.category == Some(category_of(r)),
        p.livery == livery_of(r),
        length_over_buffers_of(r) matches Some(l) ==> p.length_over_buffers_mm == l.millimeters
            && p.length_over_buffers_in == l.inches,
        length_over_buffers_of(r) is None ==> p.length_over_buffers_mm is None && p.length_over_buffers_in is None,
        technical_specifications_of(r) matches Some(t) ==> {
            &&& p.minimum_radius == t.minimum_radius
            &&& p.flywheel_fitted == t.flywheel_fitted
            &&& p.body_shell == t.body_shell
            &&& p.chassis == t.chassis
            &&& p.interior_lights == t.interior_lights
            &&& p.lights == t.lights
            &&& p.sprung_buffers == t.sprung_buffers
        },
        technical_specifications_of(r) matches Some(t) ==> (t.coupling matches Some(c) ==> {
            &&& p.coupling_socket == c.socket
            &&& p.close_couplers == c.close_couplers
            &&& p.digital_shunting_coupling == c.digital_shunting
        }),
        (technical_specifications_of(r) is None || technical_specifications_of(r)->0.coupling is None) ==> {
            &&& p.coupling_socket is None
            &&& p.close_couplers is None
            &&& p.digital_shunting_coupling is None
        },
        technical_specifications_of(r) is None ==> {
            &&& p.minimum_radius is None
            &&& p.flywheel_fitted is None
            &&& p.body_shell is None
            &&& p.chassis is None
            &&& p.interior_lights is None
            &&& p.lights is None
            &&& p.sprung_buffers is None
        },
{
}

/// The payload keeps the fields of the kind of the request in the fields of the same name
/// (the class name of a locomotive as its type name, and its road number, which it always
/// has), and sets no field that the kind lacks.
pub proof fn lemma_payload_keeps_kind_values(p: RollingStockPayload, r: RollingStockRequest)
    requires
        payload_of_rolling_stock(p, r),
    ensures
        r matches RollingStockRequest::LocomotiveRequest {
            class_name,
            road_number,
            series,
            depot,
            locomotive_type,
            dcc_interface,
            control,
            is_dummy,
            ..
        } ==> {
            &&& p.type_label == Some(class_name) && p.road_number == Some(road_number)
            &&& p.series == series && p.depot == depot
            &&& p.locomotive_type == Some(locomotive_type)
            &&& p.dcc_interface == dcc_interface && p.control == control && p.is_dummy == is_dummy
            &&& p.electric_multiple_unit_type is None && p.railcar_type is None
            &&& p.freight_car_type is None && p.passenger_car_type is None && p.service_level is None
        },
        r matches RollingStockRequest::ElectricMultipleUnitRequest {
            type_label,
            road_number,
            series,
            depot,
            electric_multiple_unit_type,
            dcc_interface,
            control,
            is_dummy,
            ..
        } ==> {
            &&& p.type_label == Some(type_label) && p.road_number == road_number
            &&& p.series == series && p.depot == depot
            &&& p.electric_multiple_unit_type == Some(electric_multiple_unit_type)
            &&& p.dcc_interface == dcc_interface && p.control == control && p.is_dummy == is_dummy
            &&& p.locomotive_type is None && p.railcar_type is None
            &&& p.freight_car_type is None && p.passenger_car_type is None && p.service_level is None
        },
        r matches RollingStockRequest::RailcarRequest {
            type_label,
            road_number,
            series,
            depot,
            railcar_type,
            dcc_interface,
            control,
            is_dummy,
            ..
        } ==> {
            &&& p.type_label == Some(type_label) && p.road_number == road_number
            &&& p.series == series && p.depot == depot
            &&& p.railcar_type == Some(railcar_type)
            &&& p.dcc_interface == dcc_interface && p.control == control && p.is_dummy == is_dummy
            &&& p.locomotive_type is None && p.electric_multiple_unit_type is None
            &&& p.freight_car_type is None && p.passenger_car_type is None && p.service_level is None
        },
        r matches RollingStockRequest::PassengerCarRequest {
            type_label,
            road_number,
            series,
            passenger_car_type,
            service_level,
            ..
        } ==> {
            &&& p.type_label == Some(type_label) && p.road_number == road_number && p.series == series
            &&& p.passenger_car_type == passenger_car_type && p.service_level == service_level
            &&& p.depot is None && p.dcc_interface is None && p.control is None && !p.is_dummy
            &&& p.locomotive_type is None && p.electric_multiple_unit_type is None
            &&& p.railcar_type is None && p.freight_car_type is None
        },
        r matches RollingStockRequest::FreightCarRequest { type_label, road_number, freight_car_type, .. } ==> {
            &&& p.type_label == Some(type_label) && p.road_number == road_number
            &&& p.freight_car_type == freight_car_type
            &&& p.series is None && p.depot is None && p.dcc_interface is None && p.control is None && !p.is_dummy
            &&& p.locomotive_type is None && p.electric_multiple_unit_type is None
            &&& p.railcar_type is None && p.passenger_car_type is None && p.service_level is None
        },
{
}

impl RollingStockPayload {
    /// The payload of a rolling stock request (see `payload_of_rolling_stock`); this never
    /// fails.
    pub fn try_from(request: RollingStockRequest) -> (r: Result<RollingStockPayload, CatalogItemCreationError>)
        ensures
            r matches Ok(p) && payload_of_rolling_stock(p, request),
    {
        let category = request.category();
        let (minimum_radius, coupling, flywheel_fitted, body_shell, chassis, interior_lights, lights, sprung_buffers) =
            match request.technical_specifications() {
            Some(ts) => (
                ts.minimum_radius,
                ts.coupling,
                ts.flywheel_fitted,
                ts.body_shell,
                ts.chassis,
                ts.interior_lights,
                ts.lights,
                ts.sprung_buffers,
            ),
            None => (None, None, None, None, None, None, None, None),
        };
        let (socket, close_couplers, digital_shunting) = match coupling {
            Some(c) => (c.socket, c.close_couplers, c.digital_shunting),
            None => (None, None, None),
        };
        let (millimeters, inches) = match request.length_over_buffers() {
            Some(l) => (l.millimeters, l.inches),
            None => (None, None),
        };
        let payload = match request {
            RollingStockRequest::ElectricMultipleUnitRequest {
                railway: _,
                livery,
                length_over_buffers: _,
                technical_specifications: _,
                type_label,
                road_number,
                series,
                depot,
                electric_multiple_unit_type,
                dcc_interface,
                control,
                is_dummy,
            } => RollingStockPayload {
                category: Some(category),
                livery,
                length_over_buffers_mm: millimeters,
                length_over_buffers_in: inches,
                type_label: Some(type_label),
                road_number,
                series,
                depot,
                dcc_interface,
                control,
                electric_multiple_unit_type: Some(electric_multiple_unit_type),
                freight_car_type: None,
                locomotive_type: None,
                passenger_car_type: None,
                railcar_type: None,
                service_level: None,
                is_dummy,
                minimum_radius,
                coupling_socket: socket,
                close_couplers,
                digital_shunting_coupling: digital_shunting,
                flywheel_fitted,
                body_shell,
                chassis,
                interior_lights,
                lights,
                sprung_buffers,
            },
            RollingStockRequest::RailcarRequest {
                railway: _,
                livery,
                length_over_buffers: _,
                technical_specifications: _,
                type_label,
                road_number,
                series,
                depot,
                railcar_type,
                dcc_interface,
                control,
                is_dummy,
            } => RollingStockPayload {
                category: Some(category),
                livery,
                length_over_buffers_mm: millimeters,
                length_over_buffers_in: inches,
                type_label: Some(type_label),
                road_number,
                series,
                depot,
                dcc_interface,
                control,
                electric_multiple_unit_type: None,
                freight_car_type: None,
                locomotive_type: None,
                passenger_car_type: None,
                railcar_type: Some(railcar_type),
                service_level: None,
                is_dummy,
                minimum_radius,
                coupling_socket: socket,
                close_couplers,
                digital_shunting_coupling: digital_shunting,
                flywheel_fitted,
                body_shell,
                chassis,
                interior_lights,
                lights,
                sprung_buffers,
            },
            RollingStockRequest::LocomotiveRequest {
                railway: _,
                livery,
                length_over_buffers: _,
                technical_specifications: _,
                class_name,
                road_number,
                series,
                depot,
                locomotive_type,
                dcc_interface,
                control,
                is_dummy,
            } => RollingStockPayload {
                category: Some(category),
                livery,
                length_over_buffers_mm: millimeters,
                length_over_buffers_in: inches,
                type_label: Some(class_name),
                road_number: Some(road_number),
                series,
                depot,
                dcc_interface,
                control,
                electric_multiple_unit_type: None,
                freight_car_type: None,
                locomotive_type: Some(locomotive_type),
                passenger_car_type: None,
                railcar_type: None,
                service_level: None,
                is_dummy,
                minimum_radius,
                coupling_socket: socket,
                close_couplers,
                digital_shunting_coupling: digital_shunting,
                flywheel_fitted,
                body_shell,
                chassis,
                interior_lights,
                lights,
                sprung_buffers,
            },
            RollingStockRequest::PassengerCarRequest {
                railway: _,
                livery,
                length_over_buffers: _,
                technical_specifications: _,
                type_label,
                road_number,
                series,
                passenger_car_type,
                service_level,
            } => RollingStockPayload {
                category: Some(category),
                livery,
                length_over_buffers_mm: millimeters,
                length_over_buffers_in: inches,
                type_label: Some(type_label),
                road_number,
                series,
                depot: None,
                dcc_interface: None,
                control: None,
                electric_multiple_unit_type: None,
                freight_car_type: None,
                locomotive_type: None,
                passenger_car_type,
                railcar_type: None,
                service_level,
                is_dummy: false,
                minimum_radius,
                coupling_socket: socket,
                close_couplers,
                digital_shunting_coupling: digital_shunting,
                flywheel_fitted,
                body_shell,
                chassis,
                interior_lights,
                lights,
                sprung_buffers,
            },
            RollingStockRequest::FreightCarRequest {
                railway: _,
                livery,
                length_over_buffers: _,
                technical_specifications: _,
                type_label,
                road_number,
                freight_car_type,
            } => RollingStockPayload {
                category: Some(category),
                livery,
                length_over_buffers_mm: millimeters,
                length_over_buffers_in: inches,
                type_label: Some(type_label),
                road_number,
                series: None,
                depot: None,
                dcc_interface: None,
                control: None,
                electric_multiple_unit_type: None,
                freight_car_type,
                locomotive_type: None,
                passenger_car_type: None,
                railcar_type: None,
                service_level: None,
                is_dummy: false,
                minimum_radius,
                coupling_socket: socket,
                close_couplers,
                digital_shunting_coupling: digital_shunting,
                flywheel_fitted,
                body_shell,
                chassis,
                interior_lights,
                lights,
                sprung_buffers,
            },
        };
        Ok(payload)
    }
}

/// The values of a catalog item to store.
#[derive(Debug, Clone)]
pub struct CatalogItemCommandPayload {
    pub manufacturer_id: ManufacturerId,
    pub item_number: ItemNumber,
    pub scale_id: ScaleId,
    pub category: Category,
    pub description: LocalizedText,
    pub details: LocalizedText,
    pub power_method: PowerMethod,
    pub epoch: Epoch,
    pub delivery_date: Option<DeliveryDate>,
    pub availability_status: Option<AvailabilityStatus>,
    pub count: i32,
}

/// The payload of a catalog item request: the slugs of its manufacturer and of its scale,
/// and its other values but the rolling stocks as they are.
pub open spec fn payload_of_request(p: CatalogItemCommandPayload, r: CatalogItemRequest) -> bool {
    &&& p.manufacturer_id@ == slugify_text(r.manufacturer@)
    &&& p.item_number == r.item_number
    &&& p.scale_id@ == slugify_text(r.scale@)
    &&& p.category == r.category
    &&& p.description == r.description
    &&& p.details == r.details
    &&& p.power_method == r.power_method
    &&& p.epoch == r.epoch
    &&& p.delivery_date == r.delivery_date
    &&& p.availability_status == r.availability_status
    &&& p.count == r.count
}

/// The request names its manufacturer and its scale, and the railway of each of its
/// rolling stocks: an identifier is the slug of a name that is not blank.
pub open spec fn names_given(r: CatalogItemRequest) -> bool {
    &&& r.manufacturer@.len() > 0
    &&& r.scale@.len() > 0
    &&& forall|i: int| 0 <= i < r.rolling_stocks@.len() ==> railway_of(#[trigger] r.rolling_stocks@[i])@.len() > 0
}

impl CatalogItemCommandPayload {
    /// The payload of a catalog item request (see `payload_of_request`); this never fails.
    pub fn try_from(request: CatalogItemRequest) -> (r: Result<Self, CatalogItemCreationError>)
        requires
            request.manufacturer@.len() > 0,
            request.scale@.len() > 0,
        ensures
            r matches Ok(p) && payload_of_request(p, request),
    {
        let manufacturer_id = ManufacturerId::new(request.manufacturer.as_str());
        let scale_id = ScaleId::new(request.scale.as_str());
        Ok(CatalogItemCommandPayload {
            manufacturer_id,
            item_number: request.item_number,
            scale_id,
            category: request.category,
            description: request.description,
            details: request.details,
            power_method: request.power_method,
            epoch: request.epoch,
            delivery_date: request.delivery_date,
            availability_status: request.availability_status,
            count: request.count,
        })
    }
}

/// The command to store a rolling stock of a catalog item.
#[derive(Debug, Clone)]
pub struct NewRollingStockCommand {
    pub catalog_item_id: CatalogItemId,
    pub railway_id: RailwayId,
    pub payload: RollingStockPayload,
}

/// The command for a rolling stock request of the catalog item `id`: the slug of its
/// railway, and its payload.
pub open spec fn rolling_stock_command_of(c: NewRollingStockCommand, id: (Seq<char>, Seq<char>), r: RollingStockRequest) -> bool {
    &&& c.catalog_item_id@ == id
    &&& c.railway_id@ == slugify_text(railway_of(r)@)
    &&& payload_of_rolling_stock(c.payload, r)
}

impl NewRollingStockCommand {
    /// The command for a rolling stock request of a catalog item (see
    /// `rolling_stock_command_of`); this never fails.
    pub fn new(catalog_item_id: &CatalogItemId, request: RollingStockRequest) -> (r: Result<
        NewRollingStockCommand,
        CatalogItemCreationError,
    >)
        requires
            railway_of(request)@.len() > 0,
        ensures
            r matches Ok(c) && rolling_stock_command_of(c, catalog_item_id@, request),
    {
        let railway_id = RailwayId::new(request.railway().as_str());
        let payload = match RollingStockPayload::try_from(request) {
            Ok(p) => p,
            Err(e) => {
                return Err(e);
            },
        };
        Ok(NewRollingStockCommand { catalog_item_id: catalog_item_id.clone(), railway_id, payload })
    }
}

/// The command to store a new catalog item and its rolling stocks.
#[derive(Debug, Clone)]
pub struct NewCatalogItemCommand {
    pub catalog_item_id: CatalogItemId,
    pub payload: CatalogItemCommandPayload,
    pub rolling_stocks: Vec<NewRollingStockCommand>,
    pub metadata: Metadata,
}

/// The command for a catalog item request: its identifier is its manufacturer's slug and
/// its item number, its payload holds its values, each of its rolling stocks has a command
/// in the same order, and it is created now, at version 1.
pub open spec fn command_of(c: NewCatalogItemCommand, r: CatalogItemRequest) -> bool {
    &&& c.catalog_item_id@ == (slugify_text(r.manufacturer@), r.item_number@)
    &&& payload_of_request(c.payload, r)
    &&& c.rolling_stocks@.len() == r.rolling_stocks@.len()
    &&& forall|i: int|
        0 <= i < r.rolling_stocks@.len() ==> rolling_stock_command_of(
            #[trigger] c.rolling_stocks@[i],
            c.catalog_item_id@,
            r.rolling_stocks@[i],
        )
    &&& c.metadata@.0 == 1
    &&& c.metadata@.2 is None
}

/// The command of a request keeps its values where they belong: the item is identified by
/// the slug of the manufacturer and the item number; the payload names the manufacturer and
/// the scale by their slugs and keeps the other values; the rolling stock commands come in
/// the order of the requests, each identifying the item and naming the slug of its own
/// railway.
pub proof fn lemma_command_keeps_request_values(c: NewCatalogItemCommand, r: CatalogItemRequest)
    requires
        command_of(c, r),
    ensures
        c.catalog_item_id@.0 == slugify_text(r.manufacturer@),
        c.catalog_item_id@.1 == r.item_number@,
        c.payload.manufacturer_id@ == slugify_text(r.manufacturer@),
        c.payload.scale_id@ == slugify_text(r.scale@),
        c.payload.item_number == r.item_number,
        c.payload.category == r.category && c.payload.power_method == r.power_method && c.payload.epoch == r.epoch,
        c.payload.description == r.description && c.payload.details == r.details,
        c.payload.delivery_date == r.delivery_date && c.payload.availability_status == r.availability_status,
        c.payload.count == r.count,
        c.rolling_stocks@.len() == r.rolling_stocks@.len(),
        forall|i: int|
            0 <= i < c.rolling_stocks@.len() ==> {
                &&& (#[trigger] c.rolling_stocks@[i]).catalog_item_id@ == c.catalog_item_id@
                &&& c.rolling_stocks@[i].railway_id@ == slugify_text(railway_of(r.rolling_stocks@[i])@)
                &&& c.rolling_stocks@[i].payload.category == Some(category_of(r.rolling_stocks@[i]))
            },
{
    assert forall|i: int| 0 <= i < c.rolling_stocks@.len() implies {
        &&& (#[trigger] c.rolling_stocks@[i]).catalog_item_id@ == c.catalog_item_id@
        &&& c.rolling_stocks@[i].railway_id@ == slugify_text(railway_of(r.rolling_stocks@[i])@)
        &&& c.rolling_stocks@[i].payload.category == Some(category_of(r.rolling_stocks@[i]))
    } by {
        assert(rolling_stock_command_of(c.rolling_stocks@[i], c.catalog_item_id@, r.rolling_stocks@[i]));
    }
}

impl NewCatalogItemCommand {
    /// The command for a catalog item request, given the outcome of checking the request's
    /// field rules: the error that lists the broken rules where it failed, else the command
    /// (see `command_of`).
    pub fn try_from(value: CatalogItemRequest, validation: Result<(), ValidationErrors>) -> (r: Result<
        Self,
        CatalogItemCreationError,
    >)
        requires
            names_given(value),
        ensures
            validation matches Err(v) ==> (r matches Err(CatalogItemCreationError::InvalidRequest(e)) && e == v),
            validation is Ok ==> (r matches Ok(c) && command_of(c, value)),
    {
        if let Err(errors) = validation {
            return Err(CatalogItemCreationError::InvalidRequest(errors));
        }
        let ghost original = value;
        let mut value = value;
        let manufacturer_id = ManufacturerId::new(value.manufacturer.as_str());
        let catalog_item_id = CatalogItemId::of(&manufacturer_id, &value.item_number);
        let mut requests: Vec<RollingStockRequest> = Vec::new();
        std::mem::swap(&mut requests, &mut value.rolling_stocks);
        let ghost all = requests@;
        assert(all == original.rolling_stocks@);
        let mut rolling_stocks: Vec<NewRollingStockCommand> = Vec::new();
        while requests.len() > 0
            invariant
                rolling_stocks@.len() + requests@.len() == all.len(),
                requests@ == all.skip(rolling_stocks@.len() as int),
                forall|i: int|
                    0 <= i < rolling_stocks@.len() ==> rolling_stock_command_of(
                        #[trigger] rolling_stocks@[i],
                        catalog_item_id@,
                        all[i],
                    ),
                forall|i: int| 0 <= i < all.len() ==> railway_of(#[trigger] all[i])@.len() > 0,
            decreases requests.len(),
        {
            let ghost done: int = rolling_stocks@.len() as int;
            assert(requests@[0] == all[done]);
            let rs = requests.remove(0);
            assert(requests@ =~= all.skip(done + 1));
            let command = match NewRollingStockCommand::new(&catalog_item_id, rs) {
                Ok(c) => c,
                Err(e) => {
                    return Err(e);
                },
            };
            rolling_stocks.push(command);
        }
        let payload = match CatalogItemCommandPayload::try_from(value) {
            Ok(p) => p,
            Err(e) => {
                return Err(e);
            },
        };
        let metadata = Metadata::default();
        Ok(NewCatalogItemCommand { catalog_item_id, payload, rolling_stocks, metadata })
    }
}

/// The identifiers of the railways of the rolling stocks of a request, in order.
pub fn railway_ids(request: &CatalogItemRequest) -> (ids: Vec<RailwayId>)
    requires
        names_given(*request),
    ensures
        ids@.len() == request.rolling_stocks@.len(),
        forall|i: int|
            0 <= i < ids@.len() ==> (#[trigger] ids@[i])@ == slugify_text(railway_of(request.rolling_stocks@[i])@),
{
    let mut ids: Vec<RailwayId> = Vec::new();
    let mut i: usize = 0;
    while i < request.rolling_stocks.len()
        invariant
            names_given(*request),
            i <= request.rolling_stocks@.len(),
            ids@.len() == i,
            forall|k: int|
                0 <= k < i ==> (#[trigger] ids@[k])@ == slugify_text(railway_of(request.rolling_stocks@[k])@),
        decreases request.rolling_stocks@.len() - i,
    {
        let name = request.rolling_stocks[i].railway();
        assert(railway_of(request.rolling_stocks@[i as int])@.len() > 0);
        ids.push(RailwayId::new(name.as_str()));
        i += 1;
    }
    ids
}

/// What the creation of a catalog item decides once it knows whether an item with the same
/// identifier exists, whether its manufacturer and its scale exist, the outcome of checking
/// its field rules, and the first railway of its rolling stocks that does not exist, if
/// any. In this order: an error naming the item where it exists; naming the manufacturer
/// where it does not exist; naming the scale where it does not exist; listing the broken
/// rules; naming the missing railway; else the command to store.
pub fn catalog_item_creation_command(
    request: CatalogItemRequest,
    validation: Result<(), ValidationErrors>,
    exists: bool,
    manufacturer_exists: bool,
    scale_exists: bool,
    missing_railway: Option<RailwayId>,
) -> (r: Result<NewCatalogItemCommand, CatalogItemCreationError>)
    requires
        names_given(request),
    ensures
        exists ==> (r matches Err(CatalogItemCreationError::CatalogItemAlreadyExists(id)) && id@ == (
            slugify_text(request.manufacturer@),
            request.item_number@,
        )),
        !exists && !manufacturer_exists ==> (r matches Err(CatalogItemCreationError::ManufacturerNotFound(id))
            && id@ == slugify_text(request.manufacturer@)),
        !exists && manufacturer_exists && !scale_exists ==> (r matches Err(
            CatalogItemCreationError::ScaleNotFound(id),
        ) && id@ == slugify_text(request.scale@)),
        !exists && manufacturer_exists && scale_exists ==> (validation matches Err(v) ==> (r matches Err(
            CatalogItemCreationError::InvalidRequest(e),
        ) && e == v)),
        !exists && manufacturer_exists && scale_exists && validation is Ok ==> (missing_railway matches Some(m) ==> (
        r matches Err(CatalogItemCreationError::RailwayNotFound(id)) && id == m)),
        !exists && manufacturer_exists && scale_exists && validation is Ok && missing_railway is None ==> (r matches Ok(
            c,
        ) && command_of(c, request)),
{
    let manufacturer_id = ManufacturerId::new(request.manufacturer.as_str());
    if exists {
        return Err(CatalogItemCreationError::CatalogItemAlreadyExists(CatalogItemId::new(manufacturer_id, request.item_number)));
    }
    if !manufacturer_exists {
        return Err(CatalogItemCreationError::ManufacturerNotFound(manufacturer_id));
    }
    if !scale_exists {
        return Err(CatalogItemCreationError::ScaleNotFound(ScaleId::new(request.scale.as_str())));
    }
    if let Err(errors) = validation {
        return Err(CatalogItemCreationError::InvalidRequest(errors));
    }
    if let Some(railway_id) = missing_railway {
        return Err(CatalogItemCreationError::RailwayNotFound(railway_id));
    }
    NewCatalogItemCommand::try_from(request, Ok(()))
}

/// The answer to a stored creation: the identifier, created when the command was.
pub fn creation_response(command: &NewCatalogItemCommand) -> (r: CatalogItemCreated)
    ensures
        r.catalog_item_id@ == command.catalog_item_id@,
        r.created_at == command.metadata@.1,
{
    CatalogItemCreated { catalog_item_id: command.catalog_item_id.clone(), created_at: *command.metadata.created() }
}

} // verus!
