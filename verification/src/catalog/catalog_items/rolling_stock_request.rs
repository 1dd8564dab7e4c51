//! the rolling stock command request

use crate::catalog::catalog_items::category::{
    ElectricMultipleUnitType, FreightCarType, LocomotiveType, PassengerCarType, RailcarType, RollingStockCategory,
    ServiceLevel,
};
use crate::catalog::catalog_items::control::{Control, DccInterface};
use crate::catalog::catalog_items::length_over_buffers::LengthOverBuffers;
use crate::catalog::catalog_items::technical_specifications::TechnicalSpecifications;
use crate::common::validation::{
    check_lengths, distinct_fields, error_entries, length_between, rule_holds, rule_views, rules_checked, rules_hold,
    LengthRule,
};
use validator::ValidationErrors;
use vstd::prelude::*;

verus! {

/// It represents a request to create / modify a rolling stock
#[derive(Clone, Debug, PartialEq)]
#[allow(inconsistent_fields)]
pub enum RollingStockRequest {
    /// an electric multiple unit rolling stock
    ElectricMultipleUnitRequest {
        /// the railway name for this rolling stock
        railway: String,
        /// the livery description
        livery: Option<String>,
        /// the overall length
        length_over_buffers: Option<LengthOverBuffers>,
        /// the technical specifications
        technical_specifications: Option<TechnicalSpecifications>,
        /// the electric multiple unit type name
        type_label: String,
        /// the identification marking for this electric multiple unit
        road_number: Option<String>,
        /// the prototype series information
        series: Option<String>,
        /// the depot name
        depot: Option<String>,
        /// the electric multiple unit type
        electric_multiple_unit_type: ElectricMultipleUnitType,
        /// the dcc interface
        dcc_interface: Option<DccInterface>,
        /// the control
        control: Option<Control>,
        /// indicate whether the rolling stock has a motor or not
        is_dummy: bool,
    },
    /// a freight car rolling stock
    FreightCarRequest {
        /// the railway name for this rolling stock
        railway: String,
        /// the livery description
        livery: Option<String>,
        /// the overall length
        length_over_buffers: Option<LengthOverBuffers>,
        /// the technical specifications
        technical_specifications: Option<TechnicalSpecifications>,
        /// the freight car type name
        type_label: String,
        /// the identification marking for this freight car
        road_number: Option<String>,
        /// the freight car type
        freight_car_type: Option<FreightCarType>,
    },
    /// a locomotive rolling stock
    LocomotiveRequest {
        /// the railway name for this rolling stock
        railway: String,
        /// the livery description
        livery: Option<String>,
        /// the overall length
        length_over_buffers: Option<LengthOverBuffers>,
        /// the technical specifications
        technical_specifications: Option<TechnicalSpecifications>,
        /// the class of locomotives. The class is a group of locomotives built to a common design,
        /// typically for a single railroad or railway
        class_name: String,
        /// the identification marking for this locomotive
        road_number: String,
        /// the prototype series information
        series: Option<String>,
        /// the depot name
        depot: Option<String>,
        /// the locomotive type
        locomotive_type: LocomotiveType,
        /// the dcc interface
        dcc_interface: Option<DccInterface>,
        /// the control
        control: Option<Control>,
        /// indicate whether the rolling stock has a motor or not
        is_dummy: bool,
    },
    /// a passenger car rolling stock
    PassengerCarRequest {
        /// the railway name for this rolling stock
        railway: String,
        /// the livery description
        livery: Option<String>,
        /// the overall length
        length_over_buffers: Option<LengthOverBuffers>,
        /// the technical specifications
        technical_specifications: Option<TechnicalSpecifications>,
        /// the passenger car type name
        type_label: String,
        /// the identification marking for this passenger car
        road_number: Option<String>,
        /// the prototype series information
        series: Option<String>,
        /// the passenger car type
        passenger_car_type: Option<PassengerCarType>,
        /// the travel class for this passenger car
        service_level: Option<ServiceLevel>,
    },
    /// a railcar rolling stock
    RailcarRequest {
        /// the railway name for this rolling stock
        railway: String,
        /// the livery description
        livery: Option<String>,
        /// the overall length
        length_over_buffers: Option<LengthOverBuffers>,
        /// the technical specifications
        technical_specifications: Option<TechnicalSpecifications>,
        /// the railcar type name
        type_label: String,
        /// the identification marking for this railcar
        road_number: Option<String>,
        /// the railcar series
        series: Option<String>,
        /// the depot name
        depot: Option<String>,
        /// the railcar type
        railcar_type: RailcarType,
        /// the dcc interface
        dcc_interface: Option<DccInterface>,
        /// the control
        control: Option<Control>,
        /// indicate whether the rolling stock has a motor or not
        is_dummy: bool,
    },
}

/// The text of an optional string.
pub open spec fn opt_view(s: Option<String>) -> Option<Seq<char>> {
    match s {
        Some(v) => Some(v@),
        None => None,
    }
}

/// The category of each kind of request.
pub open spec fn category_of(r: RollingStockRequest) -> RollingStockCategory {
    match r {
        RollingStockRequest::ElectricMultipleUnitRequest { .. } => RollingStockCategory::ElectricMultipleUnit,
        RollingStockRequest::FreightCarRequest { .. } => RollingStockCategory::FreightCar,
        RollingStockRequest::LocomotiveRequest { .. } => RollingStockCategory::Locomotive,
        RollingStockRequest::PassengerCarRequest { .. } => RollingStockCategory::PassengerCar,
        RollingStockRequest::RailcarRequest { .. } => RollingStockCategory::Railcar,
    }
}

/// The railway of a request.
pub open spec fn railway_of(r: RollingStockRequest) -> String {
    match r {
        RollingStockRequest::ElectricMultipleUnitRequest { railway, .. } => railway,
        RollingStockRequest::FreightCarRequest { railway, .. } => railway,
        RollingStockRequest::LocomotiveRequest { railway, .. } => railway,
        RollingStockRequest::PassengerCarRequest { railway, .. } => railway,
        RollingStockRequest::RailcarRequest { railway, .. } => railway,
    }
}

/// The livery of a request.
pub open spec fn livery_of(r: RollingStockRequest) -> Option<String> {
    match r {
        RollingStockRequest::ElectricMultipleUnitRequest { livery, .. } => livery,
        RollingStockRequest::FreightCarRequest { livery, .. } => livery,
        RollingStockRequest::LocomotiveRequest { livery, .. } => livery,
        RollingStockRequest::PassengerCarRequest { livery, .. } => livery,
        RollingStockRequest::RailcarRequest { livery, .. } => livery,
    }
}

/// The length over buffers of a request.
pub open spec fn length_over_buffers_of(r: RollingStockRequest) -> Option<LengthOverBuffers> {
    match r {
        RollingStockRequest::ElectricMultipleUnitRequest { length_over_buffers, .. } => length_over_buffers,
        RollingStockRequest::FreightCarRequest { length_over_buffers, .. } => length_over_buffers,
        RollingStockRequest::LocomotiveRequest { length_over_buffers, .. } => length_over_buffers,
        RollingStockRequest::PassengerCarRequest { length_over_buffers, .. } => length_over_buffers,
        RollingStockRequest::RailcarRequest { length_over_buffers, .. } => length_over_buffers,
    }
}

/// The technical specifications of a request.
pub open spec fn technical_specifications_of(r: RollingStockRequest) -> Option<TechnicalSpecifications> {
    match r {
        RollingStockRequest::ElectricMultipleUnitRequest { technical_specifications, .. } => technical_specifications,
        RollingStockRequest::FreightCarRequest { technical_specifications, .. } => technical_specifications,
        RollingStockRequest::LocomotiveRequest { technical_specifications, .. } => technical_specifications,
        RollingStockRequest::PassengerCarRequest { technical_specifications, .. } => technical_specifications,
        RollingStockRequest::RailcarRequest { technical_specifications, .. } => technical_specifications,
    }
}

/// The length rules of a request, field by field: the railway from 2 to 50 characters and
/// the livery at most 50, then
/// - a locomotive: class name from 3 to 15, road number from 3 to 50, series at most 50,
///   depot at most 100;
/// - a freight car: type name from 3 to 25, road number at most 50;
/// - a passenger car: type name from 3 to 25, road number and series at most 50;
/// - a railcar or an electric multiple unit: type name from 3 to 15, road number and series
///   at most 50, depot at most 100.
///
/// An absent optional field passes its rule.
pub open spec fn length_rules(r: RollingStockRequest) -> Seq<(Seq<char>, Option<Seq<char>>, Option<u64>, Option<u64>)> {
    seq![
        ("railway"@, Some(railway_of(r)@), Some(2u64), Some(50u64)),
        ("livery"@, opt_view(livery_of(r)), None, Some(50u64)),
    ] + kind_rules(r)
}

/// The length rules of the fields that only one kind of request has.
pub open spec fn kind_rules(r: RollingStockRequest) -> Seq<(Seq<char>, Option<Seq<char>>, Option<u64>, Option<u64>)> {
    match r {
        RollingStockRequest::LocomotiveRequest { class_name, road_number, series, depot, .. } => seq![
            ("class_name"@, Some(class_name@), Some(3u64), Some(15u64)),
            ("road_number"@, Some(road_number@), Some(3u64), Some(50u64)),
            ("series"@, opt_view(series), None, Some(50u64)),
            ("depot"@, opt_view(depot), None, Some(100u64)),
        ],
        RollingStockRequest::FreightCarRequest { type_label, road_number, .. } => seq![
            ("type\x5fname"@, Some(type_label@), Some(3u64), Some(25u64)),
            ("road_number"@, opt_view(road_number), None, Some(50u64)),
        ],
        RollingStockRequest::PassengerCarRequest { type_label, road_number, series, .. } => seq![
            ("type\x5fname"@, Some(type_label@), Some(3u64), Some(25u64)),
            ("road_number"@, opt_view(road_number), None, Some(50u64)),
            ("series"@, opt_view(series), None, Some(50u64)),
        ],
        RollingStockRequest::RailcarRequest { type_label, road_number, series, depot, .. } => seq![
            ("type\x5fname"@, Some(type_label@), Some(3u64), Some(15u64)),
            ("road_number"@, opt_view(road_number), None, Some(50u64)),
            ("series"@, opt_view(series), None, Some(50u64)),
            ("depot"@, opt_view(depot), None, Some(100u64)),
        ],
        RollingStockRequest::ElectricMultipleUnitRequest { type_label, road_number, series, depot, .. } => seq![
            ("type\x5fname"@, Some(type_label@), Some(3u64), Some(15u64)),
            ("road_number"@, opt_view(road_number), None, Some(50u64)),
            ("series"@, opt_view(series), None, Some(50u64)),
            ("depot"@, opt_view(depot), None, Some(100u64)),
        ],
    }
}

/// A reference to an optional string, as an optional reference.
fn opt_ref(s: &Option<String>) -> (r: Option<&String>)
    ensures
        match r {
            Some(v) => *s == Some(*v),
            None => s is None,
        },
{
    match s {
        Some(v) => Some(v),
        None => None,
    }
}

impl RollingStockRequest {
    /// Returns the rolling stock category
    pub fn category(&self) -> (r: RollingStockCategory)
        ensures
            r == category_of(*self),
    {
        match self {
            RollingStockRequest::ElectricMultipleUnitRequest { .. } => RollingStockCategory::ElectricMultipleUnit,
            RollingStockRequest::FreightCarRequest { .. } => RollingStockCategory::FreightCar,
            RollingStockRequest::LocomotiveRequest { .. } => RollingStockCategory::Locomotive,
            RollingStockRequest::PassengerCarRequest { .. } => RollingStockCategory::PassengerCar,
            RollingStockRequest::RailcarRequest { .. } => RollingStockCategory::Railcar,
        }
    }

    /// Returns the rolling stock livery
    pub fn livery(&self) -> (r: Option<&String>)
        ensures
            match r {
                Some(v) => livery_of(*self) == Some(*v),
                None => livery_of(*self) is None,
            },
    {
        match self {
            RollingStockRequest::ElectricMultipleUnitRequest { livery, .. } => opt_ref(livery),
            RollingStockRequest::FreightCarRequest { livery, .. } => opt_ref(livery),
            RollingStockRequest::LocomotiveRequest { livery, .. } => opt_ref(livery),
            RollingStockRequest::PassengerCarRequest { livery, .. } => opt_ref(livery),
            RollingStockRequest::RailcarRequest { livery, .. } => opt_ref(livery),
        }
    }

    /// Returns the railway for this rolling stock request
    pub fn railway(&self) -> (r: &String)
        ensures
            *r == railway_of(*self),
    {
        match self {
            RollingStockRequest::ElectricMultipleUnitRequest { railway, .. } => railway,
            RollingStockRequest::FreightCarRequest { railway, .. } => railway,
            RollingStockRequest::LocomotiveRequest { railway, .. } => railway,
            RollingStockRequest::PassengerCarRequest { railway, .. } => railway,
            RollingStockRequest::RailcarRequest { railway, .. } => railway,
        }
    }

    /// Returns the rolling stock length over buffers
    pub fn length_over_buffers(&self) -> (r: Option<&LengthOverBuffers>)
        ensures
            match r {
                Some(v) => length_over_buffers_of(*self) == Some(*v),
                None => length_over_buffers_of(*self) is None,
            },
    {
        let lob = match self {
            RollingStockRequest::ElectricMultipleUnitRequest { length_over_buffers, .. } => length_over_buffers,
            RollingStockRequest::FreightCarRequest { length_over_buffers, .. } => length_over_buffers,
            RollingStockRequest::LocomotiveRequest { length_over_buffers, .. } => length_over_buffers,
            RollingStockRequest::PassengerCarRequest { length_over_buffers, .. } => length_over_buffers,
            RollingStockRequest::RailcarRequest { length_over_buffers, .. } => length_over_buffers,
        };
        match lob {
            Some(v) => Some(v),
            None => None,
        }
    }

    /// Returns the technical specifications for this rolling stock request
    pub fn technical_specifications(&self) -> (r: Option<&TechnicalSpecifications>)
        ensures
            match r {
                Some(v) => technical_specifications_of(*self) == Some(*v),
                None => technical_specifications_of(*self) is None,
            },
    {
        let ts = match self {
            RollingStockRequest::ElectricMultipleUnitRequest { technical_specifications, .. } => technical_specifications,
            RollingStockRequest::FreightCarRequest { technical_specifications, .. } => technical_specifications,
            RollingStockRequest::LocomotiveRequest { technical_specifications, .. } => technical_specifications,
            RollingStockRequest::PassengerCarRequest { technical_specifications, .. } => technical_specifications,
            RollingStockRequest::RailcarRequest { technical_specifications, .. } => technical_specifications,
        };
        match ts {
            Some(v) => Some(v),
            None => None,
        }
    }
}

/// Adds the rules of a freight car request: its type name and road number.
pub fn validate_freight_car<'a>(rules: &mut Vec<LengthRule<'a>>, input: &'a RollingStockRequest)
    ensures
        input is FreightCarRequest ==> rule_views(final(rules)@) == rule_views(old(rules)@) + kind_rules(*input),
        !(input is FreightCarRequest) ==> final(rules)@ == old(rules)@,
{
    if let RollingStockRequest::FreightCarRequest { type_label, road_number, .. } = input {
        let ghost before = rules@;
        rules.push(LengthRule { field: "type\x5fname", value: Some(type_label), min: Some(3), max: Some(25) });
        rules.push(LengthRule { field: "road_number", value: opt_ref(road_number), min: None, max: Some(50) });
        assert(rule_views(rules@) =~= rule_views(before) + kind_rules(*input));
    }
}

/// Adds the rules of a passenger car request: its type name, road number and series.
pub fn validate_passenger_car<'a>(rules: &mut Vec<LengthRule<'a>>, input: &'a RollingStockRequest)
    ensures
        input is PassengerCarRequest ==> rule_views(final(rules)@) == rule_views(old(rules)@) + kind_rules(*input),
        !(input is PassengerCarRequest) ==> final(rules)@ == old(rules)@,
{
    if let RollingStockRequest::PassengerCarRequest { type_label, road_number, series, .. } = input {
        let ghost before = rules@;
        rules.push(LengthRule { field: "type\x5fname", value: Some(type_label), min: Some(3), max: Some(25) });
        rules.push(LengthRule { field: "road_number", value: opt_ref(road_number), min: None, max: Some(50) });
        rules.push(LengthRule { field: "series", value: opt_ref(series), min: None, max: Some(50) });
        assert(rule_views(rules@) =~= rule_views(before) + kind_rules(*input));
    }
}

/// Adds the rules of a railcar request: its type name, road number, series and depot.
pub fn validate_railcar<'a>(rules: &mut Vec<LengthRule<'a>>, input: &'a RollingStockRequest)
    ensures
        input is RailcarRequest ==> rule_views(final(rules)@) == rule_views(old(rules)@) + kind_rules(*input),
        !(input is RailcarRequest) ==> final(rules)@ == old(rules)@,
{
    if let RollingStockRequest::RailcarRequest { type_label, road_number, series, depot, .. } = input {
        let ghost before = rules@;
        rules.push(LengthRule { field: "type\x5fname", value: Some(type_label), min: Some(3), max: Some(15) });
        rules.push(LengthRule { field: "road_number", value: opt_ref(road_number), min: None, max: Some(50) });
        rules.push(LengthRule { field: "series", value: opt_ref(series), min: None, max: Some(50) });
        rules.push(LengthRule { field: "depot", value: opt_ref(depot), min: None, max: Some(100) });
        assert(rule_views(rules@) =~= rule_views(before) + kind_rules(*input));
    }
}

/// Adds the rules of an electric multiple unit request: its type name, road number, series
/// and depot.
pub fn validate_electric_multiple_unit<'a>(rules: &mut Vec<LengthRule<'a>>, input: &'a RollingStockRequest)
    ensures
        input is ElectricMultipleUnitRequest ==> rule_views(final(rules)@) == rule_views(old(rules)@) + kind_rules(
            *input,
        ),
        !(input is ElectricMultipleUnitRequest) ==> final(rules)@ == old(rules)@,
{
    if let RollingStockRequest::ElectricMultipleUnitRequest { type_label, road_number, series, depot, .. } = input {
        let ghost before = rules@;
        rules.push(LengthRule { field: "type\x5fname", value: Some(type_label), min: Some(3), max: Some(15) });
        rules.push(LengthRule { field: "road_number", value: opt_ref(road_number), min: None, max: Some(50) });
        rules.push(LengthRule { field: "series", value: opt_ref(series), min: None, max: Some(50) });
        rules.push(LengthRule { field: "depot", value: opt_ref(depot), min: None, max: Some(100) });
        assert(rule_views(rules@) =~= rule_views(before) + kind_rules(*input));
    }
}

/// Adds the rules of a locomotive request: its class name, road number, series and depot.
pub fn validate_locomotive<'a>(rules: &mut Vec<LengthRule<'a>>, input: &'a RollingStockRequest)
    ensures
        input is LocomotiveRequest ==> rule_views(final(rules)@) == rule_views(old(rules)@) + kind_rules(*input),
        !(input is LocomotiveRequest) ==> final(rules)@ == old(rules)@,
{
    if let RollingStockRequest::LocomotiveRequest { class_name, road_number, series, depot, .. } = input {
        let ghost before = rules@;
        rules.push(LengthRule { field: "class_name", value: Some(class_name), min: Some(3), max: Some(15) });
        rules.push(LengthRule { field: "road_number", value: Some(road_number), min: Some(3), max: Some(50) });
        rules.push(LengthRule { field: "series", value: opt_ref(series), min: None, max: Some(50) });
        rules.push(LengthRule { field: "depot", value: opt_ref(depot), min: None, max: Some(100) });
        assert(rule_views(rules@) =~= rule_views(before) + kind_rules(*input));
    }
}

impl RollingStockRequest {
    /// Checks the length rules of the request (see `length_rules`): `Ok` where all hold,
    /// else a `length` error for each field that breaks its rule, and for no other field.
    ///
    /// The technical specifications are not checked here.
    pub fn validate(&self) -> (r: Result<(), ValidationErrors>)
        ensures
            r is Ok <==> rules_hold(length_rules(*self)),
            r matches Err(es) ==> rules_checked(error_entries(es), length_rules(*self)),
    {
        let mut rules: Vec<LengthRule> = Vec::new();
        rules.push(LengthRule { field: "railway", value: Some(self.railway()), min: Some(2), max: Some(50) });
        rules.push(LengthRule { field: "livery", value: self.livery(), min: None, max: Some(50) });
        let ghost common = rule_views(rules@);
        assert(common =~= seq![
            ("railway"@, Some(railway_of(*self)@), Some(2u64), Some(50u64)),
            ("livery"@, opt_view(livery_of(*self)), None, Some(50u64)),
        ]);
        match self {
            RollingStockRequest::LocomotiveRequest { .. } => validate_locomotive(&mut rules, self),
            RollingStockRequest::FreightCarRequest { .. } => validate_freight_car(&mut rules, self),
            RollingStockRequest::PassengerCarRequest { .. } => validate_passenger_car(&mut rules, self),
            RollingStockRequest::RailcarRequest { .. } => validate_railcar(&mut rules, self),
            RollingStockRequest::ElectricMultipleUnitRequest { .. } => validate_electric_multiple_unit(&mut rules, self),
        }
        assert(rule_views(rules@) == length_rules(*self));
        proof {
            lemma_distinct_rule_fields(*self);
        }
        check_lengths(&rules)
    }
}

/// A request passes its length rules exactly when its railway has from 2 to 50 characters,
/// its livery, where it has one, at most 50, and the fields of its kind their own bounds: a
/// locomotive's class name from 3 to 15 and road number from 3 to 50, a freight car's or a
/// passenger car's type name from 3 to 25, a railcar's or an electric multiple unit's from
/// 3 to 15, road numbers and series at most 50 and depots at most 100.
pub proof fn lemma_length_rules_hold(r: RollingStockRequest)
    ensures
        rules_hold(length_rules(r)) <==> {
            &&& 2 <= railway_of(r)@.len() <= 50
            &&& (livery_of(r) matches Some(l) ==> l@.len() <= 50)
            &&& match r {
                RollingStockRequest::LocomotiveRequest { class_name, road_number, series, depot, .. } => {
                    &&& 3 <= class_name@.len() <= 15
                    &&& 3 <= road_number@.len() <= 50
                    &&& (series matches Some(s) ==> s@.len() <= 50)
                    &&& (depot matches Some(d) ==> d@.len() <= 100)
                },
                RollingStockRequest::FreightCarRequest { type_label, road_number, .. } => {
                    &&& 3 <= type_label@.len() <= 25
                    &&& (road_number matches Some(n) ==> n@.len() <= 50)
                },
                RollingStockRequest::PassengerCarRequest { type_label, road_number, series, .. } => {
                    &&& 3 <= type_label@.len() <= 25
                    &&& (road_number matches Some(n) ==> n@.len() <= 50)
                    &&& (series matches Some(s) ==> s@.len() <= 50)
                },
                RollingStockRequest::RailcarRequest { type_label, road_number, series, depot, .. } => {
                    &&& 3 <= type_label@.len() <= 15
                    &&& (road_number matches Some(n) ==> n@.len() <= 50)
                    &&& (series matches Some(s) ==> s@.len() <= 50)
                    &&& (depot matches Some(d) ==> d@.len() <= 100)
                },
                RollingStockRequest::ElectricMultipleUnitRequest { type_label, road_number, series, depot, .. } => {
                    &&& 3 <= type_label@.len() <= 15
                    &&& (road_number matches Some(n) ==> n@.len() <= 50)
                    &&& (series matches Some(s) ==> s@.len() <= 50)
                    &&& (depot matches Some(d) ==> d@.len() <= 100)
                },
            }
        },
{
    let rules = length_rules(r);
    lemma_rules_hold_by_index(rules);
    match r {
        RollingStockRequest::LocomotiveRequest { .. } => {
            assert(rules.len() == 6);
        },
        RollingStockRequest::FreightCarRequest { .. } => {
            assert(rules.len() == 4);
        },
        RollingStockRequest::PassengerCarRequest { .. } => {
            assert(rules.len() == 5);
        },
        RollingStockRequest::RailcarRequest { .. } => {
            assert(rules.len() == 6);
        },
        RollingStockRequest::ElectricMultipleUnitRequest { .. } => {
            assert(rules.len() == 6);
        },
    }
}

/// Up to six rules hold exactly when each of them holds.
proof fn lemma_rules_hold_by_index(rules: Seq<(Seq<char>, Option<Seq<char>>, Option<u64>, Option<u64>)>)
    requires
        2 < rules.len() <= 6,
    ensures
        rules_hold(rules) <==> {
            &&& rule_holds(rules[0]) && rule_holds(rules[1]) && rule_holds(rules[2])
            &&& (rules.len() > 3 ==> rule_holds(rules[3]))
            &&& (rules.len() > 4 ==> rule_holds(rules[4]))
            &&& (rules.len() > 5 ==> rule_holds(rules[5]))
        },
{
    if rule_holds(rules[0]) && rule_holds(rules[1]) && rule_holds(rules[2]) && (rules.len() > 3 ==> rule_holds(rules[3]))
        && (rules.len() > 4 ==> rule_holds(rules[4])) && (rules.len() > 5 ==> rule_holds(rules[5])) {
        assert forall|k: int| 0 <= k < rules.len() implies rule_holds(#[trigger] rules[k]) by {
            if k == 0 {
            } else if k == 1 {
            } else if k == 2 {
            } else if k == 3 {
            } else if k == 4 {
            } else {
                assert(k == 5);
            }
        }
    }
}

/// The length rules of a request are on distinct fields.
pub proof fn lemma_distinct_rule_fields(r: RollingStockRequest)
    ensures
        distinct_fields(length_rules(r)),
{
    reveal_strlit("railway");
    reveal_strlit("livery");
    reveal_strlit("class_name");
    reveal_strlit("road_number");
    reveal_strlit("series");
    reveal_strlit("depot");
    reveal_strlit("type\x5fname");
    let rules = length_rules(r);
    assert forall|i: int, j: int| 0 <= i < j < rules.len() implies (#[trigger] rules[i]).0 != (#[trigger] rules[j]).0 by {
        let a = rules[i].0;
        let b = rules[j].0;
        assert(a.len() != b.len() || a[0] != b[0]);
    }
}

} // verus!
