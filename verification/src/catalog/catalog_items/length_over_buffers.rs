//! the rolling stock length over buffers

use crate::common::decimal::Decimal;
use crate::common::length::{length_in_range, length_within, quantity_of, Length};
use crate::common::measure_units::{converted_value, same_measure, MeasureUnit};
use vstd::prelude::*;

verus! {

/// The rail vehicle measurement method expressed as the length over buffers
#[derive(Copy, Clone, Debug, PartialEq, Eq, Default)]
pub struct LengthOverBuffers {
    /// the overall length in inches
    pub inches: Option<Length>,
    /// the overall length in millimeters
    pub millimeters: Option<Length>,
}

/// The length over buffers error enum
#[derive(Debug, PartialEq, Eq, Clone, Copy, Structural)]
pub enum LengthOverBuffersError {
    /// the value in millimeters is not matching the one in inches
    DifferentValues,
    /// The length over buffers must be positive
    NonPositiveValue,
}

/// An optional value is present and negative or zero: its sign flag is set, or it is zero.
pub open spec fn non_positive(value: Option<Decimal>) -> bool {
    value matches Some(v) && (v@.2 || v@.0 == 0)
}

/// The length over buffers made of optional values in inches and in millimeters: an error
/// where a present value is not positive (inches first), an error where both are present
/// and the millimeters, converted to inches, are not the inches (to two digits after the
/// point), else the two values as lengths.
pub open spec fn length_over_buffers_of(inches: Option<Decimal>, millimeters: Option<Decimal>) -> Result<
    LengthOverBuffers,
    LengthOverBuffersError,
> {
    if non_positive(inches) || non_positive(millimeters) {
        Err(LengthOverBuffersError::NonPositiveValue)
    } else if inches is Some && millimeters is Some && !same_measure(
        millimeters->0@,
        MeasureUnit::Millimeters,
        MeasureUnit::Inches,
        inches->0@,
    ) {
        Err(LengthOverBuffersError::DifferentValues)
    } else {
        Ok(
            LengthOverBuffers {
                inches: match inches {
                    Some(v) => Some(Length::Inches(v)),
                    None => None,
                },
                millimeters: match millimeters {
                    Some(v) => Some(Length::Millimeters(v)),
                    None => None,
                },
            },
        )
    }
}

impl LengthOverBuffers {
    /// Creates a new length over buffers value
    pub fn new(inches: Option<Decimal>, millimeters: Option<Decimal>) -> (r: Result<Self, LengthOverBuffersError>)
        ensures
            r == length_over_buffers_of(inches, millimeters),
    {
        if let Some(i) = inches {
            if i.is_sign_negative() || i.is_zero() {
                return Err(LengthOverBuffersError::NonPositiveValue);
            }
        }
        if let Some(mm) = millimeters {
            if mm.is_sign_negative() || mm.is_zero() {
                return Err(LengthOverBuffersError::NonPositiveValue);
            }
        }
        if let (Some(i), Some(mm)) = (inches, millimeters) {
            if !MeasureUnit::Millimeters.same_as(mm, MeasureUnit::Inches, i) {
                return Err(LengthOverBuffersError::DifferentValues);
            }
        }
        let inches = match inches {
            Some(v) => Some(Length::Inches(v)),
            None => None,
        };
        let millimeters = match millimeters {
            Some(v) => Some(Length::Millimeters(v)),
            None => None,
        };
        Ok(LengthOverBuffers { inches, millimeters })
    }

    /// Creates a new length over buffers value in millimeters: the inches are the quantity
    /// of `millimeters` converted from millimeters to inches.
    pub fn from_millimeters(millimeters: Length) -> (r: Self)
        requires
            converted_value(quantity_of(millimeters)@, MeasureUnit::Millimeters, MeasureUnit::Inches) is Some,
        ensures
            r.millimeters == Some(millimeters),
            r.inches matches Some(Length::Inches(v)) && Some(v@) == converted_value(
                quantity_of(millimeters)@,
                MeasureUnit::Millimeters,
                MeasureUnit::Inches,
            ),
    {
        let inches = MeasureUnit::Millimeters.to(MeasureUnit::Inches).convert(millimeters.quantity());
        LengthOverBuffers { inches: Some(Length::Inches(inches)), millimeters: Some(millimeters) }
    }

    /// Creates a new length over buffers value in millimeters, or `None` where the
    /// conversion to inches overflows.
    pub fn try_from_millimeters(millimeters: Length) -> (r: Option<Self>)
        ensures
            r is Some <==> converted_value(
                quantity_of(millimeters)@,
                MeasureUnit::Millimeters,
                MeasureUnit::Inches,
            ) is Some,
            r matches Some(lob) ==> lob.millimeters == Some(millimeters) && (lob.inches matches Some(
                Length::Inches(v),
            ) && Some(v@) == converted_value(
                quantity_of(millimeters)@,
                MeasureUnit::Millimeters,
                MeasureUnit::Inches,
            )),
    {
        if MeasureUnit::Millimeters.to(MeasureUnit::Inches).checked_convert(millimeters.quantity()).is_some() {
            Some(Self::from_millimeters(millimeters))
        } else {
            None
        }
    }

    /// Creates a new length over buffers value in inches: the millimeters are the quantity
    /// of `inches` converted from inches to millimeters.
    pub fn from_inches(inches: Length) -> (r: Self)
        requires
            converted_value(quantity_of(inches)@, MeasureUnit::Inches, MeasureUnit::Millimeters) is Some,
        ensures
            r.inches == Some(inches),
            r.millimeters matches Some(Length::Millimeters(v)) && Some(v@) == converted_value(
                quantity_of(inches)@,
                MeasureUnit::Inches,
                MeasureUnit::Millimeters,
            ),
    {
        let millimeters = MeasureUnit::Inches.to(MeasureUnit::Millimeters).convert(inches.quantity());
        LengthOverBuffers { inches: Some(inches), millimeters: Some(Length::Millimeters(millimeters)) }
    }

    /// Creates a new length over buffers value in inches, or `None` where the conversion to
    /// millimeters overflows.
    pub fn try_from_inches(inches: Length) -> (r: Option<Self>)
        ensures
            r is Some <==> converted_value(
                quantity_of(inches)@,
                MeasureUnit::Inches,
                MeasureUnit::Millimeters,
            ) is Some,
            r matches Some(lob) ==> lob.inches == Some(inches) && (lob.millimeters matches Some(
                Length::Millimeters(v),
            ) && Some(v@) == converted_value(
                quantity_of(inches)@,
                MeasureUnit::Inches,
                MeasureUnit::Millimeters,
            )),
    {
        if MeasureUnit::Inches.to(MeasureUnit::Millimeters).checked_convert(inches.quantity()).is_some() {
            Some(Self::from_inches(inches))
        } else {
            None
        }
    }

    /// the length over buffers value in inches
    pub fn inches(&self) -> (r: Option<&Length>)
        ensures
            r == match self.inches {
                Some(l) => Some(&l),
                None => None::<&Length>,
            },
    {
        match &self.inches {
            Some(l) => Some(l),
            None => None,
        }
    }

    /// the length over buffers value in millimeters
    pub fn millimeters(&self) -> (r: Option<&Length>)
        ensures
            r == match self.millimeters {
                Some(l) => Some(&l),
                None => None::<&Length>,
            },
    {
        match &self.millimeters {
            Some(l) => Some(l),
            None => None,
        }
    }
}

/// 0.1, the least length.
pub open spec fn least_length() -> (i128, u32, bool) {
    (1, 1, false)
}

/// 999, the greatest length over buffers in inches.
pub open spec fn greatest_inches() -> (i128, u32, bool) {
    (999, 0, false)
}

/// 9999, the greatest length over buffers in millimeters.
pub open spec fn greatest_millimeters() -> (i128, u32, bool) {
    (9999, 0, false)
}

impl LengthOverBuffers {
    /// Which of the two values lie outside their range, both bounds included: the inches
    /// outside 0.1 to 999, the millimeters outside 0.1 to 9999 (an absent value is in range).
    pub fn out_of_range(&self) -> (r: (bool, bool))
        ensures
            r.0 == (self.inches matches Some(l) && !length_within(l, Some(least_length()), Some(greatest_inches()))),
            r.1 == (self.millimeters matches Some(l) && !length_within(
                l,
                Some(least_length()),
                Some(greatest_millimeters()),
            )),
    {
        let inches = match &self.inches {
            Some(l) => !length_in_range(l, Some(Decimal::new(1, 1)), Some(Decimal::new(999, 0))),
            None => false,
        };
        let millimeters = match &self.millimeters {
            Some(l) => !length_in_range(l, Some(Decimal::new(1, 1)), Some(Decimal::new(9999, 0))),
            None => false,
        };
        (inches, millimeters)
    }
}

} // verus!
