//! the rolling stock technical specifications

use crate::common::decimal::{decimal_text, Decimal};
use crate::catalog::catalog_items::length_over_buffers::{greatest_millimeters, least_length};
use crate::common::length::{length_in_range, length_within, quantity_of, unit_of, Length};
use crate::common::measure_units::unit_symbol;
use crate::text::{ascii_lower, chars_of, chars_equal_ignore_ascii_case, eq_ignore_ascii_case, string_of_slice, ParseError};
use vstd::prelude::*;

verus! {

/// The NEM coupling socket standards
#[derive(Debug, Copy, Clone, PartialEq, Eq, Structural)]
pub enum CouplingSocket {
    /// No coupling socket
    NoSocket,
    /// Receptacle for Replaceable Coupling Heads in Scales TT and N
    Nem355,
    /// Coupler Head for Scale N
    Nem356,
    /// Coupler Head for Scale N
    Nem357,
    /// Coupler Head for Scale TT
    Nem359,
    /// Standard Coupling for Scale H0
    Nem360,
    /// NEM shaft 362 with close coupling mechanism
    Nem362,
    /// Coupler Head for Scale 0
    Nem365,
}

/// The text of each CouplingSocket value.
pub open spec fn coupling_socket_text(v: CouplingSocket) -> Seq<char> {
    match v {
        CouplingSocket::NoSocket => seq!['N', 'O', 'N', 'E'],
        CouplingSocket::Nem355 => seq!['N', 'E', 'M', '_', '3', '5', '5'],
        CouplingSocket::Nem356 => seq!['N', 'E', 'M', '_', '3', '5', '6'],
        CouplingSocket::Nem357 => seq!['N', 'E', 'M', '_', '3', '5', '7'],
        CouplingSocket::Nem359 => seq!['N', 'E', 'M', '_', '3', '5', '9'],
        CouplingSocket::Nem360 => seq!['N', 'E', 'M', '_', '3', '6', '0'],
        CouplingSocket::Nem362 => seq!['N', 'E', 'M', '_', '3', '6', '2'],
        CouplingSocket::Nem365 => seq!['N', 'E', 'M', '_', '3', '6', '5'],
    }
}

/// The CouplingSocket value that `s` names (ASCII letters in any case).
pub open spec fn parse_coupling_socket(s: Seq<char>) -> Result<CouplingSocket, ParseError> {
    if eq_ignore_ascii_case(s, coupling_socket_text(CouplingSocket::NoSocket)) {
        Ok(CouplingSocket::NoSocket)
    } else if eq_ignore_ascii_case(s, coupling_socket_text(CouplingSocket::Nem355)) {
        Ok(CouplingSocket::Nem355)
    } else if eq_ignore_ascii_case(s, coupling_socket_text(CouplingSocket::Nem356)) {
        Ok(CouplingSocket::Nem356)
    } else if eq_ignore_ascii_case(s, coupling_socket_text(CouplingSocket::Nem357)) {
        Ok(CouplingSocket::Nem357)
    } else if eq_ignore_ascii_case(s, coupling_socket_text(CouplingSocket::Nem359)) {
        Ok(CouplingSocket::Nem359)
    } else if eq_ignore_ascii_case(s, coupling_socket_text(CouplingSocket::Nem360)) {
        Ok(CouplingSocket::Nem360)
    } else if eq_ignore_ascii_case(s, coupling_socket_text(CouplingSocket::Nem362)) {
        Ok(CouplingSocket::Nem362)
    } else if eq_ignore_ascii_case(s, coupling_socket_text(CouplingSocket::Nem365)) {
        Ok(CouplingSocket::Nem365)
    } else {
        Err(ParseError::VariantNotFound)
    }
}

/// Parsing the text of a value gives back the value.
pub proof fn lemma_coupling_socket_round_trip(v: CouplingSocket)
    ensures
        parse_coupling_socket(coupling_socket_text(v)) == Ok::<CouplingSocket, ParseError>(v),
{
    match v {
        CouplingSocket::NoSocket => {},
        CouplingSocket::Nem355 => {},
        CouplingSocket::Nem356 => {
            assert(ascii_lower(coupling_socket_text(CouplingSocket::Nem356)[6]) != ascii_lower(coupling_socket_text(CouplingSocket::Nem355)[6]));
        },
        CouplingSocket::Nem357 => {
            assert(ascii_lower(coupling_socket_text(CouplingSocket::Nem357)[6]) != ascii_lower(coupling_socket_text(CouplingSocket::Nem355)[6]));
            assert(ascii_lower(coupling_socket_text(CouplingSocket::Nem357)[6]) != ascii_lower(coupling_socket_text(CouplingSocket::Nem356)[6]));
        },
        CouplingSocket::Nem359 => {
            assert(ascii_lower(coupling_socket_text(CouplingSocket::Nem359)[6]) != ascii_lower(coupling_socket_text(CouplingSocket::Nem355)[6]));
            assert(ascii_lower(coupling_socket_text(CouplingSocket::Nem359)[6]) != ascii_lower(coupling_socket_text(CouplingSocket::Nem356)[6]));
            assert(ascii_lower(coupling_socket_text(CouplingSocket::Nem359)[6]) != ascii_lower(coupling_socket_text(CouplingSocket::Nem357)[6]));
        },
        CouplingSocket::Nem360 => {
            assert(ascii_lower(coupling_socket_text(CouplingSocket::Nem360)[5]) != ascii_lower(coupling_socket_text(CouplingSocket::Nem355)[5]));
            assert(ascii_lower(coupling_socket_text(CouplingSocket::Nem360)[5]) != ascii_lower(coupling_socket_text(CouplingSocket::Nem356)[5]));
            assert(ascii_lower(coupling_socket_text(CouplingSocket::Nem360)[5]) != ascii_lower(coupling_socket_text(CouplingSocket::Nem357)[5]));
            assert(ascii_lower(coupling_socket_text(CouplingSocket::Nem360)[5]) != ascii_lower(coupling_socket_text(CouplingSocket::Nem359)[5]));
        },
        CouplingSocket::Nem362 => {
            assert(ascii_lower(coupling_socket_text(CouplingSocket::Nem362)[5]) != ascii_lower(coupling_socket_text(CouplingSocket::Nem355)[5]));
            assert(ascii_lower(coupling_socket_text(CouplingSocket::Nem362)[5]) != ascii_lower(coupling_socket_text(CouplingSocket::Nem356)[5]));
            assert(ascii_lower(coupling_socket_text(CouplingSocket::Nem362)[5]) != ascii_lower(coupling_socket_text(CouplingSocket::Nem357)[5]));
            assert(ascii_lower(coupling_socket_text(CouplingSocket::Nem362)[5]) != ascii_lower(coupling_socket_text(CouplingSocket::Nem359)[5]));
            assert(ascii_lower(coupling_socket_text(CouplingSocket::Nem362)[6]) != ascii_lower(coupling_socket_text(CouplingSocket::Nem360)[6]));
        },
        CouplingSocket::Nem365 => {
            assert(ascii_lower(coupling_socket_text(CouplingSocket::Nem365)[5]) != ascii_lower(coupling_socket_text(CouplingSocket::Nem355)[5]));
            assert(ascii_lower(coupling_socket_text(CouplingSocket::Nem365)[5]) != ascii_lower(coupling_socket_text(CouplingSocket::Nem356)[5]));
            assert(ascii_lower(coupling_socket_text(CouplingSocket::Nem365)[5]) != ascii_lower(coupling_socket_text(CouplingSocket::Nem357)[5]));
            assert(ascii_lower(coupling_socket_text(CouplingSocket::Nem365)[5]) != ascii_lower(coupling_socket_text(CouplingSocket::Nem359)[5]));
            assert(ascii_lower(coupling_socket_text(CouplingSocket::Nem365)[6]) != ascii_lower(coupling_socket_text(CouplingSocket::Nem360)[6]));
            assert(ascii_lower(coupling_socket_text(CouplingSocket::Nem365)[6]) != ascii_lower(coupling_socket_text(CouplingSocket::Nem362)[6]));
        },
    }
}


impl CouplingSocket {
    /// Parses the text of a value (ASCII letters in any case).
    pub fn parse(s: &str) -> (r: Result<CouplingSocket, ParseError>)
        ensures
            r == parse_coupling_socket(s@),
    {
        let v = chars_of(s);
        let w: &[char] = &['N', 'O', 'N', 'E'];
        assert(w@ =~= coupling_socket_text(CouplingSocket::NoSocket));
        if chars_equal_ignore_ascii_case(&v, w) {
            return Ok(CouplingSocket::NoSocket);
        }
        let w: &[char] = &['N', 'E', 'M', '_', '3', '5', '5'];
        assert(w@ =~= coupling_socket_text(CouplingSocket::Nem355));
        if chars_equal_ignore_ascii_case(&v, w) {
            return Ok(CouplingSocket::Nem355);
        }
        let w: &[char] = &['N', 'E', 'M', '_', '3', '5', '6'];
        assert(w@ =~= coupling_socket_text(CouplingSocket::Nem356));
        if chars_equal_ignore_ascii_case(&v, w) {
            return Ok(CouplingSocket::Nem356);
        }
        let w: &[char] = &['N', 'E', 'M', '_', '3', '5', '7'];
        assert(w@ =~= coupling_socket_text(CouplingSocket::Nem357));
        if chars_equal_ignore_ascii_case(&v, w) {
            return Ok(CouplingSocket::Nem357);
        }
        let w: &[char] = &['N', 'E', 'M', '_', '3', '5', '9'];
        assert(w@ =~= coupling_socket_text(CouplingSocket::Nem359));
        if chars_equal_ignore_ascii_case(&v, w) {
            return Ok(CouplingSocket::Nem359);
        }
        let w: &[char] = &['N', 'E', 'M', '_', '3', '6', '0'];
        assert(w@ =~= coupling_socket_text(CouplingSocket::Nem360));
        if chars_equal_ignore_ascii_case(&v, w) {
            return Ok(CouplingSocket::Nem360);
        }
        let w: &[char] = &['N', 'E', 'M', '_', '3', '6', '2'];
        assert(w@ =~= coupling_socket_text(CouplingSocket::Nem362));
        if chars_equal_ignore_ascii_case(&v, w) {
            return Ok(CouplingSocket::Nem362);
        }
        let w: &[char] = &['N', 'E', 'M', '_', '3', '6', '5'];
        assert(w@ =~= coupling_socket_text(CouplingSocket::Nem365));
        if chars_equal_ignore_ascii_case(&v, w) {
            return Ok(CouplingSocket::Nem365);
        }
        Err(ParseError::VariantNotFound)
    }

    /// The text of this value.
    pub fn to_string(&self) -> (s: String)
        ensures
            s@ == coupling_socket_text(*self),
    {
        match self {
            CouplingSocket::NoSocket => {
                let w: &[char] = &['N', 'O', 'N', 'E'];
                assert(w@ =~= coupling_socket_text(CouplingSocket::NoSocket));
                string_of_slice(w)
            },
            CouplingSocket::Nem355 => {
                let w: &[char] = &['N', 'E', 'M', '_', '3', '5', '5'];
                assert(w@ =~= coupling_socket_text(CouplingSocket::Nem355));
                string_of_slice(w)
            },
            CouplingSocket::Nem356 => {
                let w: &[char] = &['N', 'E', 'M', '_', '3', '5', '6'];
                assert(w@ =~= coupling_socket_text(CouplingSocket::Nem356));
                string_of_slice(w)
            },
            CouplingSocket::Nem357 => {
                let w: &[char] = &['N', 'E', 'M', '_', '3', '5', '7'];
                assert(w@ =~= coupling_socket_text(CouplingSocket::Nem357));
                string_of_slice(w)
            },
            CouplingSocket::Nem359 => {
                let w: &[char] = &['N', 'E', 'M', '_', '3', '5', '9'];
                assert(w@ =~= coupling_socket_text(CouplingSocket::Nem359));
                string_of_slice(w)
            },
            CouplingSocket::Nem360 => {
                let w: &[char] = &['N', 'E', 'M', '_', '3', '6', '0'];
                assert(w@ =~= coupling_socket_text(CouplingSocket::Nem360));
                string_of_slice(w)
            },
            CouplingSocket::Nem362 => {
                let w: &[char] = &['N', 'E', 'M', '_', '3', '6', '2'];
                assert(w@ =~= coupling_socket_text(CouplingSocket::Nem362));
                string_of_slice(w)
            },
            CouplingSocket::Nem365 => {
                let w: &[char] = &['N', 'E', 'M', '_', '3', '6', '5'];
                assert(w@ =~= coupling_socket_text(CouplingSocket::Nem365));
                string_of_slice(w)
            },
        }
    }
}

impl std::str::FromStr for CouplingSocket {
    type Err = ParseError;

    fn from_str(s: &str) -> (r: Result<Self, Self::Err>)
        ensures
            r == parse_coupling_socket(s@),
    {
        CouplingSocket::parse(s)
    }
}

impl Default for CouplingSocket {
    fn default() -> (r: Self)
        ensures
            r == CouplingSocket::NoSocket,
    {
        CouplingSocket::NoSocket
    }
}

/// A flag to indicate the presence/absence of a given technical specification feature
#[derive(Debug, Copy, Clone, PartialEq, Eq, Structural)]
pub enum FeatureFlag {
    /// Yes: the feature is present
    Yes,
    /// No: the feature is missing
    No,
    /// The feature is not applicable
    NotApplicable,
}

/// The text of each FeatureFlag value.
pub open spec fn feature_flag_text(v: FeatureFlag) -> Seq<char> {
    match v {
        FeatureFlag::Yes => seq!['Y', 'E', 'S'],
        FeatureFlag::No => seq!['N', 'O'],
        FeatureFlag::NotApplicable => seq!['N', 'O', 'T', '_', 'A', 'P', 'P', 'L', 'I', 'C', 'A', 'B', 'L', 'E'],
    }
}

/// The FeatureFlag value that `s` names (ASCII letters in any case).
pub open spec fn parse_feature_flag(s: Seq<char>) -> Result<FeatureFlag, ParseError> {
    if eq_ignore_ascii_case(s, feature_flag_text(FeatureFlag::Yes)) {
        Ok(FeatureFlag::Yes)
    } else if eq_ignore_ascii_case(s, feature_flag_text(FeatureFlag::No)) {
        Ok(FeatureFlag::No)
    } else if eq_ignore_ascii_case(s, feature_flag_text(FeatureFlag::NotApplicable)) {
        Ok(FeatureFlag::NotApplicable)
    } else {
        Err(ParseError::VariantNotFound)
    }
}

/// Parsing the text of a value gives back the value.
pub proof fn lemma_feature_flag_round_trip(v: FeatureFlag)
    ensures
        parse_feature_flag(feature_flag_text(v)) == Ok::<FeatureFlag, ParseError>(v),
{
    match v {
        FeatureFlag::Yes => {},
        FeatureFlag::No => {},
        FeatureFlag::NotApplicable => {},
    }
}


impl FeatureFlag {
    /// Parses the text of a value (ASCII letters in any case).
    pub fn parse(s: &str) -> (r: Result<FeatureFlag, ParseError>)
        ensures
            r == parse_feature_flag(s@),
    {
        let v = chars_of(s);
        let w: &[char] = &['Y', 'E', 'S'];
        assert(w@ =~= feature_flag_text(FeatureFlag::Yes));
        if chars_equal_ignore_ascii_case(&v, w) {
            return Ok(FeatureFlag::Yes);
        }
        let w: &[char] = &['N', 'O'];
        assert(w@ =~= feature_flag_text(FeatureFlag::No));
        if chars_equal_ignore_ascii_case(&v, w) {
            return Ok(FeatureFlag::No);
        }
        let w: &[char] = &['N', 'O', 'T', '_', 'A', 'P', 'P', 'L', 'I', 'C', 'A', 'B', 'L', 'E'];
        assert(w@ =~= feature_flag_text(FeatureFlag::NotApplicable));
        if chars_equal_ignore_ascii_case(&v, w) {
            return Ok(FeatureFlag::NotApplicable);
        }
        Err(ParseError::VariantNotFound)
    }

    /// The text of this value.
    pub fn to_string(&self) -> (s: String)
        ensures
            s@ == feature_flag_text(*self),
    {
        match self {
            FeatureFlag::Yes => {
                let w: &[char] = &['Y', 'E', 'S'];
                assert(w@ =~= feature_flag_text(FeatureFlag::Yes));
                string_of_slice(w)
            },
            FeatureFlag::No => {
                let w: &[char] = &['N', 'O'];
                assert(w@ =~= feature_flag_text(FeatureFlag::No));
                string_of_slice(w)
            },
            FeatureFlag::NotApplicable => {
                let w: &[char] = &['N', 'O', 'T', '_', 'A', 'P', 'P', 'L', 'I', 'C', 'A', 'B', 'L', 'E'];
                assert(w@ =~= feature_flag_text(FeatureFlag::NotApplicable));
                string_of_slice(w)
            },
        }
    }
}

impl std::str::FromStr for FeatureFlag {
    type Err = ParseError;

    fn from_str(s: &str) -> (r: Result<Self, Self::Err>)
        ensures
            r == parse_feature_flag(s@),
    {
        FeatureFlag::parse(s)
    }
}

impl Default for FeatureFlag {
    fn default() -> (r: Self)
        ensures
            r == FeatureFlag::NotApplicable,
    {
        FeatureFlag::NotApplicable
    }
}

/// The material of the body shell
#[derive(Debug, Copy, Clone, PartialEq, Eq, Structural)]
pub enum BodyShellType {
    Plastic,
    MetalDieCast,
}

/// The text of each BodyShellType value.
pub open spec fn body_shell_type_text(v: BodyShellType) -> Seq<char> {
    match v {
        BodyShellType::Plastic => seq!['P', 'L', 'A', 'S', 'T', 'I', 'C'],
        BodyShellType::MetalDieCast => seq!['M', 'E', 'T', 'A', 'L', '_', 'D', 'I', 'E', '_', 'C', 'A', 'S', 'T'],
    }
}

/// The BodyShellType value that `s` names (ASCII letters in any case).
pub open spec fn parse_body_shell_type(s: Seq<char>) -> Result<BodyShellType, ParseError> {
    if eq_ignore_ascii_case(s, body_shell_type_text(BodyShellType::Plastic)) {
        Ok(BodyShellType::Plastic)
    } else if eq_ignore_ascii_case(s, body_shell_type_text(BodyShellType::MetalDieCast)) {
        Ok(BodyShellType::MetalDieCast)
    } else {
        Err(ParseError::VariantNotFound)
    }
}

/// Parsing the text of a value gives back the value.
pub proof fn lemma_body_shell_type_round_trip(v: BodyShellType)
    ensures
        parse_body_shell_type(body_shell_type_text(v)) == Ok::<BodyShellType, ParseError>(v),
{
    match v {
        BodyShellType::Plastic => {},
        BodyShellType::MetalDieCast => {},
    }
}


impl BodyShellType {
    /// Parses the text of a value (ASCII letters in any case).
    pub fn parse(s: &str) -> (r: Result<BodyShellType, ParseError>)
        ensures
            r == parse_body_shell_type(s@),
    {
        let v = chars_of(s);
        let w: &[char] = &['P', 'L', 'A', 'S', 'T', 'I', 'C'];
        assert(w@ =~= body_shell_type_text(BodyShellType::Plastic));
        if chars_equal_ignore_ascii_case(&v, w) {
            return Ok(BodyShellType::Plastic);
        }
        let w: &[char] = &['M', 'E', 'T', 'A', 'L', '_', 'D', 'I', 'E', '_', 'C', 'A', 'S', 'T'];
        assert(w@ =~= body_shell_type_text(BodyShellType::MetalDieCast));
        if chars_equal_ignore_ascii_case(&v, w) {
            return Ok(BodyShellType::MetalDieCast);
        }
        Err(ParseError::VariantNotFound)
    }

    /// The text of this value.
    pub fn to_string(&self) -> (s: String)
        ensures
            s@ == body_shell_type_text(*self),
    {
        match self {
            BodyShellType::Plastic => {
                let w: &[char] = &['P', 'L', 'A', 'S', 'T', 'I', 'C'];
                assert(w@ =~= body_shell_type_text(BodyShellType::Plastic));
                string_of_slice(w)
            },
            BodyShellType::MetalDieCast => {
                let w: &[char] = &['M', 'E', 'T', 'A', 'L', '_', 'D', 'I', 'E', '_', 'C', 'A', 'S', 'T'];
                assert(w@ =~= body_shell_type_text(BodyShellType::MetalDieCast));
                string_of_slice(w)
            },
        }
    }
}

impl std::str::FromStr for BodyShellType {
    type Err = ParseError;

    fn from_str(s: &str) -> (r: Result<Self, Self::Err>)
        ensures
            r == parse_body_shell_type(s@),
    {
        BodyShellType::parse(s)
    }
}

/// The material of the chassis
#[derive(Debug, Copy, Clone, PartialEq, Eq, Structural)]
pub enum ChassisType {
    Plastic,
    MetalDieCast,
}

/// The text of each ChassisType value.
pub open spec fn chassis_type_text(v: ChassisType) -> Seq<char> {
    match v {
        ChassisType::Plastic => seq!['P', 'L', 'A', 'S', 'T', 'I', 'C'],
        ChassisType::MetalDieCast => seq!['M', 'E', 'T', 'A', 'L', '_', 'D', 'I', 'E', '_', 'C', 'A', 'S', 'T'],
    }
}

/// The ChassisType value that `s` names (ASCII letters in any case).
pub open spec fn parse_chassis_type(s: Seq<char>) -> Result<ChassisType, ParseError> {
    if eq_ignore_ascii_case(s, chassis_type_text(ChassisType::Plastic)) {
        Ok(ChassisType::Plastic)
    } else if eq_ignore_ascii_case(s, chassis_type_text(ChassisType::MetalDieCast)) {
        Ok(ChassisType::MetalDieCast)
    } else {
        Err(ParseError::VariantNotFound)
    }
}

/// Parsing the text of a value gives back the value.
pub proof fn lemma_chassis_type_round_trip(v: ChassisType)
    ensures
        parse_chassis_type(chassis_type_text(v)) == Ok::<ChassisType, ParseError>(v),
{
    match v {
        ChassisType::Plastic => {},
        ChassisType::MetalDieCast => {},
    }
}


impl ChassisType {
    /// Parses the text of a value (ASCII letters in any case).
    pub fn parse(s: &str) -> (r: Result<ChassisType, ParseError>)
        ensures
            r == parse_chassis_type(s@),
    {
        let v = chars_of(s);
        let w: &[char] = &['P', 'L', 'A', 'S', 'T', 'I', 'C'];
        assert(w@ =~= chassis_type_text(ChassisType::Plastic));
        if chars_equal_ignore_ascii_case(&v, w) {
            return Ok(ChassisType::Plastic);
        }
        let w: &[char] = &['M', 'E', 'T', 'A', 'L', '_', 'D', 'I', 'E', '_', 'C', 'A', 'S', 'T'];
        assert(w@ =~= chassis_type_text(ChassisType::MetalDieCast));
        if chars_equal_ignore_ascii_case(&v, w) {
            return Ok(ChassisType::MetalDieCast);
        }
        Err(ParseError::VariantNotFound)
    }

    /// The text of this value.
    pub fn to_string(&self) -> (s: String)
        ensures
            s@ == chassis_type_text(*self),
    {
        match self {
            ChassisType::Plastic => {
                let w: &[char] = &['P', 'L', 'A', 'S', 'T', 'I', 'C'];
                assert(w@ =~= chassis_type_text(ChassisType::Plastic));
                string_of_slice(w)
            },
            ChassisType::MetalDieCast => {
                let w: &[char] = &['M', 'E', 'T', 'A', 'L', '_', 'D', 'I', 'E', '_', 'C', 'A', 'S', 'T'];
                assert(w@ =~= chassis_type_text(ChassisType::MetalDieCast));
                string_of_slice(w)
            },
        }
    }
}

impl std::str::FromStr for ChassisType {
    type Err = ParseError;

    fn from_str(s: &str) -> (r: Result<Self, Self::Err>)
        ensures
            r == parse_chassis_type(s@),
    {
        ChassisType::parse(s)
    }
}

/// It represents the coupling configuration for a rolling stock.
#[derive(Debug, Copy, Clone, Default, PartialEq, Eq, Structural)]
pub struct Coupling {
    /// the rolling stock coupling socket
    pub socket: Option<CouplingSocket>,
    /// the rolling stock has a close coupling mechanism
    pub close_couplers: Option<FeatureFlag>,
    /// the rolling stock has a digital shunting couplers mechanism
    pub digital_shunting: Option<FeatureFlag>,
}

impl Coupling {
    /// Creates a new rolling stock coupling configuration
    pub fn new(socket: CouplingSocket, close_couplers: FeatureFlag, digital_shunting: FeatureFlag) -> (c: Self)
        ensures
            c == (Coupling {
                socket: Some(socket),
                close_couplers: Some(close_couplers),
                digital_shunting: Some(digital_shunting),
            }),
    {
        Coupling {
            socket: Some(socket),
            close_couplers: Some(close_couplers),
            digital_shunting: Some(digital_shunting),
        }
    }

    /// Creates a new close coupling configuration with the `socket` socket
    pub fn with_close_couplers(socket: CouplingSocket) -> (c: Self)
        ensures
            c == (Coupling {
                socket: Some(socket),
                close_couplers: Some(FeatureFlag::Yes),
                digital_shunting: Some(FeatureFlag::No),
            }),
    {
        Coupling {
            socket: Some(socket),
            close_couplers: Some(FeatureFlag::Yes),
            digital_shunting: Some(FeatureFlag::No),
        }
    }

    /// Creates a new digital shunting coupling configuration
    pub fn with_digital_shunting_couplers() -> (c: Self)
        ensures
            c == (Coupling {
                socket: Some(CouplingSocket::NoSocket),
                close_couplers: Some(FeatureFlag::No),
                digital_shunting: Some(FeatureFlag::Yes),
            }),
    {
        Coupling {
            socket: Some(CouplingSocket::NoSocket),
            close_couplers: Some(FeatureFlag::No),
            digital_shunting: Some(FeatureFlag::Yes),
        }
    }

    /// the coupling socket if present
    pub fn socket(&self) -> (r: Option<CouplingSocket>)
        ensures
            r == self.socket,
    {
        self.socket
    }

    /// true if the coupling configuration include a mechanism to reduce the gaps between two
    /// rolling stocks; false otherwise
    pub fn close_couplers(&self) -> (r: Option<FeatureFlag>)
        ensures
            r == self.close_couplers,
    {
        self.close_couplers
    }

    /// true if the coupling configuration implements digital control functionalities,
    /// false otherwise
    pub fn digital_shunting(&self) -> (r: Option<FeatureFlag>)
        ensures
            r == self.digital_shunting,
    {
        self.digital_shunting
    }
}

/// The minimum drivable radius
#[derive(Debug, Eq, PartialEq, Copy, Clone)]
pub struct Radius(Length);

/// The error of building a radius.
#[derive(Debug, Eq, PartialEq, Clone, Copy, Structural)]
pub enum RadiusError {
    /// radius cannot be negative
    NegativeRadius,
}

impl View for Radius {
    type V = Length;

    /// The length of the radius.
    closed spec fn view(&self) -> Length {
        self.0
    }
}

impl Radius {
    /// Returns a drivable radius expressed in millimeters: `Err` for a value whose sign flag
    /// is set (a negative number, or a negative zero).
    pub fn from_millimeters(value: Decimal) -> (r: Result<Self, RadiusError>)
        ensures
            !value@.2 ==> (r matches Ok(radius) && radius@ == Length::Millimeters(value)),
            value@.2 ==> r == Err::<Radius, RadiusError>(RadiusError::NegativeRadius),
    {
        if value.is_sign_positive() {
            Ok(Radius(Length::Millimeters(value)))
        } else {
            Err(RadiusError::NegativeRadius)
        }
    }

    /// Returns the value for this radius
    pub fn value(&self) -> (r: Length)
        ensures
            r == self@,
    {
        self.0
    }

    /// The text of this radius: the text of its length.
    pub fn to_string(&self) -> (s: String)
        ensures
            s@ == decimal_text(quantity_of(self@)@.0 as int, quantity_of(self@)@.1 as nat, quantity_of(self@)@.2) + seq![' ']
                + unit_symbol(unit_of(self@)),
    {
        self.0.to_string()
    }
}

/// The technical specification data for a rolling stock model
#[derive(Debug, Eq, PartialEq, Clone, Default)]
pub struct TechnicalSpecifications {
    /// the minimum drivable radius
    pub minimum_radius: Option<Radius>,
    /// the coupling
    pub coupling: Option<Coupling>,
    /// has a flywheel fitted
    pub flywheel_fitted: Option<FeatureFlag>,
    /// body shell type
    pub body_shell: Option<BodyShellType>,
    /// chassis type
    pub chassis: Option<ChassisType>,
    /// has interior lighting
    pub interior_lights: Option<FeatureFlag>,
    /// has lights
    pub lights: Option<FeatureFlag>,
    /// has sprung buffers
    pub sprung_buffers: Option<FeatureFlag>,
}

impl TechnicalSpecifications {
    /// Whether the minimum radius lies outside 0.1 to 9999, both included (an absent radius
    /// is in range).
    pub fn radius_out_of_range(&self) -> (r: bool)
        ensures
            r == (self.minimum_radius matches Some(radius) && !length_within(
                radius@,
                Some(least_length()),
                Some(greatest_millimeters()),
            )),
    {
        match &self.minimum_radius {
            Some(radius) => !length_in_range(&radius.0, Some(Decimal::new(1, 1)), Some(Decimal::new(9999, 0))),
            None => false,
        }
    }

    /// the minimum radius
    pub fn minimum_radius(&self) -> (r: Option<Radius>)
        ensures
            r == self.minimum_radius,
    {
        self.minimum_radius
    }

    /// the coupling shaft standard
    pub fn coupling(&self) -> (r: Option<Coupling>)
        ensures
            r == self.coupling,
    {
        self.coupling
    }

    /// with flywheel fitted
    pub fn flywheel_fitted(&self) -> (r: Option<FeatureFlag>)
        ensures
            r == self.flywheel_fitted,
    {
        self.flywheel_fitted
    }

    /// body shell type
    pub fn body_shell(&self) -> (r: Option<BodyShellType>)
        ensures
            r == self.body_shell,
    {
        self.body_shell
    }

    /// chassis type
    pub fn chassis(&self) -> (r: Option<ChassisType>)
        ensures
            r == self.chassis,
    {
        self.chassis
    }

    /// with interior lights
    pub fn interior_lights(&self) -> (r: Option<FeatureFlag>)
        ensures
            r == self.interior_lights,
    {
        self.interior_lights
    }

    /// with headlights
    pub fn lights(&self) -> (r: Option<FeatureFlag>)
        ensures
            r == self.lights,
    {
        self.lights
    }

    /// with sprung buffers
    pub fn sprung_buffers(&self) -> (r: Option<FeatureFlag>)
        ensures
            r == self.sprung_buffers,
    {
        self.sprung_buffers
    }
}

/// The builder of technical specifications.
#[derive(Debug)]
pub struct TechnicalSpecificationsBuilder {
    minimum_radius: Option<Radius>,
    coupling: Option<Coupling>,
    flywheel_fitted: Option<FeatureFlag>,
    chassis: Option<ChassisType>,
    body_shell: Option<BodyShellType>,
    interior_lights: Option<FeatureFlag>,
    lights: Option<FeatureFlag>,
    sprung_buffers: Option<FeatureFlag>,
}

impl View for TechnicalSpecificationsBuilder {
    type V = TechnicalSpecifications;

    /// The technical specifications built so far.
    closed spec fn view(&self) -> TechnicalSpecifications {
        TechnicalSpecifications {
            minimum_radius: self.minimum_radius,
            coupling: self.coupling,
            flywheel_fitted: self.flywheel_fitted,
            body_shell: self.body_shell,
            chassis: self.chassis,
            interior_lights: self.interior_lights,
            lights: self.lights,
            sprung_buffers: self.sprung_buffers,
        }
    }
}

/// Technical specifications with every value missing.
pub open spec fn no_technical_specifications() -> TechnicalSpecifications {
    TechnicalSpecifications {
        minimum_radius: None,
        coupling: None,
        flywheel_fitted: None,
        body_shell: None,
        chassis: None,
        interior_lights: None,
        lights: None,
        sprung_buffers: None,
    }
}

impl Default for TechnicalSpecificationsBuilder {
    fn default() -> (b: Self)
        ensures
            b@ == no_technical_specifications(),
    {
        TechnicalSpecificationsBuilder {
            minimum_radius: None,
            coupling: None,
            flywheel_fitted: None,
            chassis: None,
            body_shell: None,
            interior_lights: None,
            lights: None,
            sprung_buffers: None,
        }
    }
}

impl TechnicalSpecificationsBuilder {
    /// with the minimum radius
    pub fn with_minimum_radius(self, radius: Radius) -> (b: Self)
        ensures
            b@ == (TechnicalSpecifications { minimum_radius: Some(radius), ..self@ }),
    {
        let mut b = self;
        b.minimum_radius = Some(radius);
        b
    }

    /// with the coupling shaft
    pub fn with_coupling(self, coupling: Coupling) -> (b: Self)
        ensures
            b@ == (TechnicalSpecifications { coupling: Some(coupling), ..self@ }),
    {
        let mut b = self;
        b.coupling = Some(coupling);
        b
    }

    /// with flywheel fitted
    pub fn with_flywheel_fitted(self) -> (b: Self)
        ensures
            b@ == (TechnicalSpecifications { flywheel_fitted: Some(FeatureFlag::Yes), ..self@ }),
    {
        let mut b = self;
        b.flywheel_fitted = Some(FeatureFlag::Yes);
        b
    }

    /// with body shell type
    pub fn with_body_shell(self, body_shell_types: BodyShellType) -> (b: Self)
        ensures
            b@ == (TechnicalSpecifications { body_shell: Some(body_shell_types), ..self@ }),
    {
        let mut b = self;
        b.body_shell = Some(body_shell_types);
        b
    }

    /// with chassis type
    pub fn with_chassis(self, chassis_types: ChassisType) -> (b: Self)
        ensures
            b@ == (TechnicalSpecifications { chassis: Some(chassis_types), ..self@ }),
    {
        let mut b = self;
        b.chassis = Some(chassis_types);
        b
    }

    /// with interior lights
    pub fn with_interior_lights(self) -> (b: Self)
        ensures
            b@ == (TechnicalSpecifications { interior_lights: Some(FeatureFlag::Yes), ..self@ }),
    {
        let mut b = self;
        b.interior_lights = Some(FeatureFlag::Yes);
        b
    }

    /// with headlights
    pub fn with_lights(self) -> (b: Self)
        ensures
            b@ == (TechnicalSpecifications { lights: Some(FeatureFlag::Yes), ..self@ }),
    {
        let mut b = self;
        b.lights = Some(FeatureFlag::Yes);
        b
    }

    /// with sprung buffers
    pub fn with_sprung_buffers(self) -> (b: Self)
        ensures
            b@ == (TechnicalSpecifications { sprung_buffers: Some(FeatureFlag::Yes), ..self@ }),
    {
        let mut b = self;
        b.sprung_buffers = Some(FeatureFlag::Yes);
        b
    }

    /// Build a new technical specifications value
    pub fn build(self) -> (t: TechnicalSpecifications)
        ensures
            t == self@,
    {
        TechnicalSpecifications {
            minimum_radius: self.minimum_radius,
            coupling: self.coupling,
            flywheel_fitted: self.flywheel_fitted,
            body_shell: self.body_shell,
            chassis: self.chassis,
            interior_lights: self.interior_lights,
            lights: self.lights,
            sprung_buffers: self.sprung_buffers,
        }
    }
}

} // verus!
