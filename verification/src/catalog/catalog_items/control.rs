//! The rolling stock control.

use crate::text::{ascii_lower, chars_of, chars_equal_ignore_ascii_case, eq_ignore_ascii_case, string_of_slice, ParseError};
use vstd::prelude::*;

verus! {

/// The control method for this railway model.
#[derive(Debug, Copy, Clone, PartialEq, Eq, Structural)]
pub enum Control {
    /// The model can be fitted with a dcc decoder.
    DccReady,
    /// The model has a dcc decoder installed.
    Dcc,
    /// The model has a dcc decoder installed with the sound module.
    DccSound,
    /// The model has no dcc support (like no standard decoder plug)
    NoDcc,
}

/// The text of each Control value.
pub open spec fn control_text(v: Control) -> Seq<char> {
    match v {
        Control::DccReady => seq!['D', 'C', 'C', '_', 'R', 'E', 'A', 'D', 'Y'],
        Control::Dcc => seq!['D', 'C', 'C'],
        Control::DccSound => seq!['D', 'C', 'C', '_', 'S', 'O', 'U', 'N', 'D'],
        Control::NoDcc => seq!['N', 'O', '_', 'D', 'C', 'C'],
    }
}

/// The Control value that `s` names (ASCII letters in any case).
pub open spec fn parse_control(s: Seq<char>) -> Result<Control, ParseError> {
    if eq_ignore_ascii_case(s, control_text(Control::DccReady)) {
        Ok(Control::DccReady)
    } else if eq_ignore_ascii_case(s, control_text(Control::Dcc)) {
        Ok(Control::Dcc)
    } else if eq_ignore_ascii_case(s, control_text(Control::DccSound)) {
        Ok(Control::DccSound)
    } else if eq_ignore_ascii_case(s, control_text(Control::NoDcc)) {
        Ok(Control::NoDcc)
    } else {
        Err(ParseError::VariantNotFound)
    }
}

/// Parsing the text of a value gives back the value.
pub proof fn lemma_control_round_trip(v: Control)
    ensures
        parse_control(control_text(v)) == Ok::<Control, ParseError>(v),
{
    match v {
        Control::DccReady => {},
        Control::Dcc => {},
        Control::DccSound => {
            assert(ascii_lower(control_text(Control::DccSound)[4]) != ascii_lower(control_text(Control::DccReady)[4]));
        },
        Control::NoDcc => {},
    }
}


impl Control {
    /// Parses the text of a value (ASCII letters in any case).
    pub fn parse(s: &str) -> (r: Result<Control, ParseError>)
        ensures
            r == parse_control(s@),
    {
        let v = chars_of(s);
        let w: &[char] = &['D', 'C', 'C', '_', 'R', 'E', 'A', 'D', 'Y'];
        assert(w@ =~= control_text(Control::DccReady));
        if chars_equal_ignore_ascii_case(&v, w) {
            return Ok(Control::DccReady);
        }
        let w: &[char] = &['D', 'C', 'C'];
        assert(w@ =~= control_text(Control::Dcc));
        if chars_equal_ignore_ascii_case(&v, w) {
            return Ok(Control::Dcc);
        }
        let w: &[char] = &['D', 'C', 'C', '_', 'S', 'O', 'U', 'N', 'D'];
        assert(w@ =~= control_text(Control::DccSound));
        if chars_equal_ignore_ascii_case(&v, w) {
            return Ok(Control::DccSound);
        }
        let w: &[char] = &['N', 'O', '_', 'D', 'C', 'C'];
        assert(w@ =~= control_text(Control::NoDcc));
        if chars_equal_ignore_ascii_case(&v, w) {
            return Ok(Control::NoDcc);
        }
        Err(ParseError::VariantNotFound)
    }

    /// The text of this value.
    pub fn to_string(&self) -> (s: String)
        ensures
            s@ == control_text(*self),
    {
        match self {
            Control::DccReady => {
                let w: &[char] = &['D', 'C', 'C', '_', 'R', 'E', 'A', 'D', 'Y'];
                assert(w@ =~= control_text(Control::DccReady));
                string_of_slice(w)
            },
            Control::Dcc => {
                let w: &[char] = &['D', 'C', 'C'];
                assert(w@ =~= control_text(Control::Dcc));
                string_of_slice(w)
            },
            Control::DccSound => {
                let w: &[char] = &['D', 'C', 'C', '_', 'S', 'O', 'U', 'N', 'D'];
                assert(w@ =~= control_text(Control::DccSound));
                string_of_slice(w)
            },
            Control::NoDcc => {
                let w: &[char] = &['N', 'O', '_', 'D', 'C', 'C'];
                assert(w@ =~= control_text(Control::NoDcc));
                string_of_slice(w)
            },
        }
    }
}

impl std::str::FromStr for Control {
    type Err = ParseError;

    fn from_str(s: &str) -> (r: Result<Self, Self::Err>)
        ensures
            r == parse_control(s@),
    {
        Control::parse(s)
    }
}

/// The NMRA and NEM Connectors for digital control (DCC)
///
/// # Description
/// The NMRA and NEM adopted standard mechanical and electrical interfaces to connect Multifunction
/// Decoders to a locomotive's electrical system. These plugs and sockets make it simpler to install
/// a decoder into a suitably equipped locomotive.
#[derive(Debug, Copy, Clone, PartialEq, Eq, Structural)]
pub enum DccInterface {
    /// 6 Pin standard mechanical and electrical interfaces (NMRA Small)
    Nem651,
    /// 8 Pin standard mechanical and electrical interfaces (NMRA Medium)
    Nem652,
    /// 4 Pin standard mechanical and electrical interfaces (NMRA Large)
    Nem654,
    /// The PluX8 connector consists of two rows of 4 pins.
    Plux8,
    /// The PluX12 connector
    Plux12,
    /// The PluX16 connector consists of two rows of 8 pins.
    Plux16,
    /// The PluX22 connector consists of two rows of 11 pins.
    Plux22,
    /// standard connector for extremely tight applications, such as TT and N scale locomotives (NEM 662)
    Next18,
    /// the Next18-S connector
    Next18S,
    /// 21MTC Connector interface is a standard adopted by both the NMRA and NEM (NEM 660).
    Mtc21,
}

/// The text of each DccInterface value.
pub open spec fn dcc_interface_text(v: DccInterface) -> Seq<char> {
    match v {
        DccInterface::Nem651 => seq!['N', 'E', 'M', '_', '6', '5', '1'],
        DccInterface::Nem652 => seq!['N', 'E', 'M', '_', '6', '5', '2'],
        DccInterface::Nem654 => seq!['N', 'E', 'M', '_', '6', '5', '4'],
        DccInterface::Plux8 => seq!['P', 'L', 'U', 'X', '_', '8'],
        DccInterface::Plux12 => seq!['P', 'L', 'U', 'X', '_', '1', '2'],
        DccInterface::Plux16 => seq!['P', 'L', 'U', 'X', '_', '1', '6'],
        DccInterface::Plux22 => seq!['P', 'L', 'U', 'X', '_', '2', '2'],
        DccInterface::Next18 => seq!['N', 'E', 'X', 'T', '_', '1', '8'],
        DccInterface::Next18S => seq!['N', 'E', 'X', 'T', '_', '1', '8', '_', 'S'],
        DccInterface::Mtc21 => seq!['M', 'T', 'C', '_', '2', '1'],
    }
}

/// The DccInterface value that `s` names (ASCII letters in any case).
pub open spec fn parse_dcc_interface(s: Seq<char>) -> Result<DccInterface, ParseError> {
    if eq_ignore_ascii_case(s, dcc_interface_text(DccInterface::Nem651)) {
        Ok(DccInterface::Nem651)
    } else if eq_ignore_ascii_case(s, dcc_interface_text(DccInterface::Nem652)) {
        Ok(DccInterface::Nem652)
    } else if eq_ignore_ascii_case(s, dcc_interface_text(DccInterface::Nem654)) {
        Ok(DccInterface::Nem654)
    } else if eq_ignore_ascii_case(s, dcc_interface_text(DccInterface::Plux8)) {
        Ok(DccInterface::Plux8)
    } else if eq_ignore_ascii_case(s, dcc_interface_text(DccInterface::Plux12)) {
        Ok(DccInterface::Plux12)
    } else if eq_ignore_ascii_case(s, dcc_interface_text(DccInterface::Plux16)) {
        Ok(DccInterface::Plux16)
    } else if eq_ignore_ascii_case(s, dcc_interface_text(DccInterface::Plux22)) {
        Ok(DccInterface::Plux22)
    } else if eq_ignore_ascii_case(s, dcc_interface_text(DccInterface::Next18)) {
        Ok(DccInterface::Next18)
    } else if eq_ignore_ascii_case(s, dcc_interface_text(DccInterface::Next18S)) {
        Ok(DccInterface::Next18S)
    } else if eq_ignore_ascii_case(s, dcc_interface_text(DccInterface::Mtc21)) {
        Ok(DccInterface::Mtc21)
    } else {
        Err(ParseError::VariantNotFound)
    }
}

/// Parsing the text of a value gives back the value.
pub proof fn lemma_dcc_interface_round_trip(v: DccInterface)
    ensures
        parse_dcc_interface(dcc_interface_text(v)) == Ok::<DccInterface, ParseError>(v),
{
    match v {
        DccInterface::Nem651 => {},
        DccInterface::Nem652 => {
            assert(ascii_lower(dcc_interface_text(DccInterface::Nem652)[6]) != ascii_lower(dcc_interface_text(DccInterface::Nem651)[6]));
        },
        DccInterface::Nem654 => {
            assert(ascii_lower(dcc_interface_text(DccInterface::Nem654)[6]) != ascii_lower(dcc_interface_text(DccInterface::Nem651)[6]));
            assert(ascii_lower(dcc_interface_text(DccInterface::Nem654)[6]) != ascii_lower(dcc_interface_text(DccInterface::Nem652)[6]));
        },
        DccInterface::Plux8 => {},
        DccInterface::Plux12 => {
            assert(ascii_lower(dcc_interface_text(DccInterface::Plux12)[0]) != ascii_lower(dcc_interface_text(DccInterface::Nem651)[0]));
            assert(ascii_lower(dcc_interface_text(DccInterface::Plux12)[0]) != ascii_lower(dcc_interface_text(DccInterface::Nem652)[0]));
            assert(ascii_lower(dcc_interface_text(DccInterface::Plux12)[0]) != ascii_lower(dcc_interface_text(DccInterface::Nem654)[0]));
        },
        DccInterface::Plux16 => {
            assert(ascii_lower(dcc_interface_text(DccInterface::Plux16)[0]) != ascii_lower(dcc_interface_text(DccInterface::Nem651)[0]));
            assert(ascii_lower(dcc_interface_text(DccInterface::Plux16)[0]) != ascii_lower(dcc_interface_text(DccInterface::Nem652)[0]));
            assert(ascii_lower(dcc_interface_text(DccInterface::Plux16)[0]) != ascii_lower(dcc_interface_text(DccInterface::Nem654)[0]));
            assert(ascii_lower(dcc_interface_text(DccInterface::Plux16)[6]) != ascii_lower(dcc_interface_text(DccInterface::Plux12)[6]));
        },
        DccInterface::Plux22 => {
            assert(ascii_lower(dcc_interface_text(DccInterface::Plux22)[0]) != ascii_lower(dcc_interface_text(DccInterface::Nem651)[0]));
            assert(ascii_lower(dcc_interface_text(DccInterface::Plux22)[0]) != ascii_lower(dcc_interface_text(DccInterface::Nem652)[0]));
            assert(ascii_lower(dcc_interface_text(DccInterface::Plux22)[0]) != ascii_lower(dcc_interface_text(DccInterface::Nem654)[0]));
            assert(ascii_lower(dcc_interface_text(DccInterface::Plux22)[5]) != ascii_lower(dcc_interface_text(DccInterface::Plux12)[5]));
            assert(ascii_lower(dcc_interface_text(DccInterface::Plux22)[5]) != ascii_lower(dcc_interface_text(DccInterface::Plux16)[5]));
        },
        DccInterface::Next18 => {
            assert(ascii_lower(dcc_interface_text(DccInterface::Next18)[2]) != ascii_lower(dcc_interface_text(DccInterface::Nem651)[2]));
            assert(ascii_lower(dcc_interface_text(DccInterface::Next18)[2]) != ascii_lower(dcc_interface_text(DccInterface::Nem652)[2]));
            assert(ascii_lower(dcc_interface_text(DccInterface::Next18)[2]) != ascii_lower(dcc_interface_text(DccInterface::Nem654)[2]));
            assert(ascii_lower(dcc_interface_text(DccInterface::Next18)[0]) != ascii_lower(dcc_interface_text(DccInterface::Plux12)[0]));
            assert(ascii_lower(dcc_interface_text(DccInterface::Next18)[0]) != ascii_lower(dcc_interface_text(DccInterface::Plux16)[0]));
            assert(ascii_lower(dcc_interface_text(DccInterface::Next18)[0]) != ascii_lower(dcc_interface_text(DccInterface::Plux22)[0]));
        },
        DccInterface::Next18S => {},
        DccInterface::Mtc21 => {
            assert(ascii_lower(dcc_interface_text(DccInterface::Mtc21)[0]) != ascii_lower(dcc_interface_text(DccInterface::Plux8)[0]));
        },
    }
}


impl DccInterface {
    /// Parses the text of a value (ASCII letters in any case).
    pub fn parse(s: &str) -> (r: Result<DccInterface, ParseError>)
        ensures
            r == parse_dcc_interface(s@),
    {
        let v = chars_of(s);
        let w: &[char] = &['N', 'E', 'M', '_', '6', '5', '1'];
        assert(w@ =~= dcc_interface_text(DccInterface::Nem651));
        if chars_equal_ignore_ascii_case(&v, w) {
            return Ok(DccInterface::Nem651);
        }
        let w: &[char] = &['N', 'E', 'M', '_', '6', '5', '2'];
        assert(w@ =~= dcc_interface_text(DccInterface::Nem652));
        if chars_equal_ignore_ascii_case(&v, w) {
            return Ok(DccInterface::Nem652);
        }
        let w: &[char] = &['N', 'E', 'M', '_', '6', '5', '4'];
        assert(w@ =~= dcc_interface_text(DccInterface::Nem654));
        if chars_equal_ignore_ascii_case(&v, w) {
            return Ok(DccInterface::Nem654);
        }
        let w: &[char] = &['P', 'L', 'U', 'X', '_', '8'];
        assert(w@ =~= dcc_interface_text(DccInterface::Plux8));
        if chars_equal_ignore_ascii_case(&v, w) {
            return Ok(DccInterface::Plux8);
        }
        let w: &[char] = &['P', 'L', 'U', 'X', '_', '1', '2'];
        assert(w@ =~= dcc_interface_text(DccInterface::Plux12));
        if chars_equal_ignore_ascii_case(&v, w) {
            return Ok(DccInterface::Plux12);
        }
        let w: &[char] = &['P', 'L', 'U', 'X', '_', '1', '6'];
        assert(w@ =~= dcc_interface_text(DccInterface::Plux16));
        if chars_equal_ignore_ascii_case(&v, w) {
            return Ok(DccInterface::Plux16);
        }
        let w: &[char] = &['P', 'L', 'U', 'X', '_', '2', '2'];
        assert(w@ =~= dcc_interface_text(DccInterface::Plux22));
        if chars_equal_ignore_ascii_case(&v, w) {
            return Ok(DccInterface::Plux22);
        }
        let w: &[char] = &['N', 'E', 'X', 'T', '_', '1', '8'];
        assert(w@ =~= dcc_interface_text(DccInterface::Next18));
        if chars_equal_ignore_ascii_case(&v, w) {
            return Ok(DccInterface::Next18);
        }
        let w: &[char] = &['N', 'E', 'X', 'T', '_', '1', '8', '_', 'S'];
        assert(w@ =~= dcc_interface_text(DccInterface::Next18S));
        if chars_equal_ignore_ascii_case(&v, w) {
            return Ok(DccInterface::Next18S);
        }
        let w: &[char] = &['M', 'T', 'C', '_', '2', '1'];
        assert(w@ =~= dcc_interface_text(DccInterface::Mtc21));
        if chars_equal_ignore_ascii_case(&v, w) {
            return Ok(DccInterface::Mtc21);
        }
        Err(ParseError::VariantNotFound)
    }

    /// The text of this value.
    pub fn to_string(&self) -> (s: String)
        ensures
            s@ == dcc_interface_text(*self),
    {
        match self {
            DccInterface::Nem651 => {
                let w: &[char] = &['N', 'E', 'M', '_', '6', '5', '1'];
                assert(w@ =~= dcc_interface_text(DccInterface::Nem651));
                string_of_slice(w)
            },
            DccInterface::Nem652 => {
                let w: &[char] = &['N', 'E', 'M', '_', '6', '5', '2'];
                assert(w@ =~= dcc_interface_text(DccInterface::Nem652));
                string_of_slice(w)
            },
            DccInterface::Nem654 => {
                let w: &[char] = &['N', 'E', 'M', '_', '6', '5', '4'];
                assert(w@ =~= dcc_interface_text(DccInterface::Nem654));
                string_of_slice(w)
            },
            DccInterface::Plux8 => {
                let w: &[char] = &['P', 'L', 'U', 'X', '_', '8'];
                assert(w@ =~= dcc_interface_text(DccInterface::Plux8));
                string_of_slice(w)
            },
            DccInterface::Plux12 => {
                let w: &[char] = &['P', 'L', 'U', 'X', '_', '1', '2'];
                assert(w@ =~= dcc_interface_text(DccInterface::Plux12));
                string_of_slice(w)
            },
            DccInterface::Plux16 => {
                let w: &[char] = &['P', 'L', 'U', 'X', '_', '1', '6'];
                assert(w@ =~= dcc_interface_text(DccInterface::Plux16));
                string_of_slice(w)
            },
            DccInterface::Plux22 => {
                let w: &[char] = &['P', 'L', 'U', 'X', '_', '2', '2'];
                assert(w@ =~= dcc_interface_text(DccInterface::Plux22));
                string_of_slice(w)
            },
            DccInterface::Next18 => {
                let w: &[char] = &['N', 'E', 'X', 'T', '_', '1', '8'];
                assert(w@ =~= dcc_interface_text(DccInterface::Next18));
                string_of_slice(w)
            },
            DccInterface::Next18S => {
                let w: &[char] = &['N', 'E', 'X', 'T', '_', '1', '8', '_', 'S'];
                assert(w@ =~= dcc_interface_text(DccInterface::Next18S));
                string_of_slice(w)
            },
            DccInterface::Mtc21 => {
                let w: &[char] = &['M', 'T', 'C', '_', '2', '1'];
                assert(w@ =~= dcc_interface_text(DccInterface::Mtc21));
                string_of_slice(w)
            },
        }
    }
}

impl std::str::FromStr for DccInterface {
    type Err = ParseError;

    fn from_str(s: &str) -> (r: Result<Self, Self::Err>)
        ensures
            r == parse_dcc_interface(s@),
    {
        DccInterface::parse(s)
    }
}

impl Control {
    /// Whether the model has a dcc decoder installed (with or without sound).
    pub fn with_decoder(&self) -> (b: bool)
        ensures
            b == (*self == Control::Dcc || *self == Control::DccSound),
    {
        *self == Control::Dcc || *self == Control::DccSound
    }
}

} // verus!
