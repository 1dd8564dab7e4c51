//! Lengths: a non-negative quantity in a measure unit.

use crate::common::decimal::{decimal_sum, decimal_text, option_view, same_number, smaller_number, Decimal};
use crate::common::measure_units::{convertible, converted_value, unit_symbol, MeasureUnit};
use crate::text::string_of_slice;
use std::cmp::Ordering;
use vstd::prelude::*;

verus! {

/// It represents a length.
///
/// Lengths are defined by a non-negative value and a measure unit.
#[derive(Debug, Copy, Clone)]
pub enum Length {
    Inches(Decimal),
    Kilometers(Decimal),
    Meters(Decimal),
    Miles(Decimal),
    Millimeters(Decimal),
}

/// The errors of `rust_decimal`, carried by a length error.
#[verifier::external_type_specification]
#[verifier::external_body]
pub struct ExDecimalError(rust_decimal::Error);

/// The errors of building a length.
#[derive(Debug, PartialEq)]
pub enum LengthError {
    /// the value is not a valid decimal
    InvalidValue(rust_decimal::Error),
    /// length values cannot be negative
    NegativeValue,
}

/// The length of `value` in `mu`.
pub open spec fn length_of(value: Decimal, mu: MeasureUnit) -> Length {
    match mu {
        MeasureUnit::Millimeters => Length::Millimeters(value),
        MeasureUnit::Inches => Length::Inches(value),
        MeasureUnit::Meters => Length::Meters(value),
        MeasureUnit::Miles => Length::Miles(value),
        MeasureUnit::Kilometers => Length::Kilometers(value),
    }
}

/// The quantity of a length.
pub open spec fn quantity_of(l: Length) -> Decimal {
    match l {
        Length::Millimeters(v) => v,
        Length::Inches(v) => v,
        Length::Meters(v) => v,
        Length::Miles(v) => v,
        Length::Kilometers(v) => v,
    }
}

/// The measure unit of a length.
pub open spec fn unit_of(l: Length) -> MeasureUnit {
    match l {
        Length::Millimeters(_) => MeasureUnit::Millimeters,
        Length::Inches(_) => MeasureUnit::Inches,
        Length::Meters(_) => MeasureUnit::Meters,
        Length::Miles(_) => MeasureUnit::Miles,
        Length::Kilometers(_) => MeasureUnit::Kilometers,
    }
}

/// The quantity of `l` in `mu`: its own quantity in its own unit, the converted quantity
/// in a unit that its unit converts to, `None` in any other unit or where the conversion
/// overflows.
pub open spec fn value_as(l: Length, mu: MeasureUnit) -> Option<(i128, u32, bool)> {
    if unit_of(l) == mu {
        Some(quantity_of(l)@)
    } else if convertible(unit_of(l), mu) {
        converted_value(quantity_of(l)@, unit_of(l), mu)
    } else {
        None
    }
}

/// The quantity of the sum of two lengths, in the unit of the first: the quantity of the
/// first plus the quantity of the second converted to that unit; `None` where the units do
/// not convert or a step overflows.
pub open spec fn sum_quantity(l1: Length, l2: Length) -> Option<(i128, u32, bool)> {
    if convertible(unit_of(l2), unit_of(l1)) {
        match converted_value(quantity_of(l2)@, unit_of(l2), unit_of(l1)) {
            Some(c) => decimal_sum(quantity_of(l1)@.0, quantity_of(l1)@.1, quantity_of(l1)@.2, c.0, c.1, c.2),
            None => None,
        }
    } else {
        None
    }
}

/// The sum of two lengths is a length: it can be computed and its sign flag is clear.
pub open spec fn summable(l1: Length, l2: Length) -> bool {
    sum_quantity(l1, l2) matches Some(s) && !s.2
}

/// The two lengths are equal: the second, in the unit of the first, is the same number
/// as the first. Lengths whose units do not convert are never equal.
pub open spec fn same_length(l1: Length, l2: Length) -> bool {
    match value_as(l2, unit_of(l1)) {
        Some(v) => same_number(quantity_of(l1)@, v),
        None => false,
    }
}

/// How the first length compares with the second, in the unit of the first: `-1` for
/// shorter, `0` for equal, `1` for longer; `None` where the units do not convert.
pub open spec fn length_order(l1: Length, l2: Length) -> Option<int> {
    match value_as(l2, unit_of(l1)) {
        Some(v) => Some(
            if smaller_number(quantity_of(l1)@, v) {
                -1int
            } else if same_number(quantity_of(l1)@, v) {
                0int
            } else {
                1int
            },
        ),
        None => None,
    }
}

/// Two lengths are equal exactly when the second, converted to the unit of the first, is
/// the same number as the first: lengths in different units that convert are compared by
/// their values, never by their units alone.
pub proof fn lemma_length_equality_by_conversion(l1: Length, l2: Length)
    ensures
        same_length(l1, l2) <==> (value_as(l2, unit_of(l1)) matches Some(v) && same_number(quantity_of(l1)@, v)),
        !convertible(unit_of(l2), unit_of(l1)) ==> !same_length(l1, l2),
{
}

/// A length equals the other length that holds its value converted to another unit: `l`
/// in millimeters equals the length in inches whose quantity is `l` converted to inches.
pub proof fn lemma_length_equals_its_conversion(l: Length, converted: Length)
    requires
        value_as(l, unit_of(converted)) == Some(quantity_of(converted)@),
    ensures
        same_length(converted, l),
        length_order(converted, l) == Some(0int),
{
}

/// The order of two lengths agrees with their equality: they compare as equal exactly when
/// they are equal, and they compare at all exactly when their units convert.
pub proof fn lemma_length_order_agrees_with_equality(l1: Length, l2: Length)
    ensures
        length_order(l1, l2) == Some(0int) <==> same_length(l1, l2),
        length_order(l1, l2) is None <==> value_as(l2, unit_of(l1)) is None,
        length_order(l1, l2) == Some(-1int) <==> (value_as(l2, unit_of(l1)) matches Some(v) && smaller_number(
            quantity_of(l1)@,
            v,
        )),
{
}

/// Every length equals itself.
pub proof fn lemma_length_equal_to_itself(l: Length)
    ensures
        same_length(l, l),
{
}

/// Two lengths in the same unit compare in opposite ways: where the first is shorter,
/// the second is longer, and where they are equal both ways, they are equal.
pub proof fn lemma_length_order_converse(l1: Length, l2: Length)
    requires
        unit_of(l1) == unit_of(l2),
    ensures
        length_order(l1, l2) matches Some(o) && length_order(l2, l1) == Some(-o),
        same_length(l1, l2) == same_length(l2, l1),
{
}

impl Length {
    /// Returns a `Length` value with a given measure unit.
    pub fn new(value: Decimal, measure_unit: MeasureUnit) -> (l: Self)
        requires
            !value@.2,
        ensures
            l == length_of(value, measure_unit),
    {
        match measure_unit {
            MeasureUnit::Millimeters => Length::Millimeters(value),
            MeasureUnit::Inches => Length::Inches(value),
            MeasureUnit::Meters => Length::Meters(value),
            MeasureUnit::Miles => Length::Miles(value),
            MeasureUnit::Kilometers => Length::Kilometers(value),
        }
    }

    /// Checked version of `Length::new`: `Err` for a value whose sign flag is set (a negative
    /// number, or a negative zero).
    pub fn try_new(value: Decimal, measure_unit: MeasureUnit) -> (r: Result<Self, LengthError>)
        ensures
            value@.2 ==> r matches Err(LengthError::NegativeValue),
            !value@.2 ==> r == Ok::<Length, LengthError>(length_of(value, measure_unit)),
    {
        if value.is_sign_negative() {
            Err(LengthError::NegativeValue)
        } else {
            Ok(Length::new(value, measure_unit))
        }
    }

    /// this `Length` quantity
    pub fn quantity(&self) -> (r: Decimal)
        ensures
            r == quantity_of(*self),
    {
        match self {
            Length::Millimeters(mm) => *mm,
            Length::Inches(ins) => *ins,
            Length::Meters(m) => *m,
            Length::Miles(mi) => *mi,
            Length::Kilometers(km) => *km,
        }
    }

    /// this `Length` measure unit
    pub fn measure_unit(&self) -> (r: MeasureUnit)
        ensures
            r == unit_of(*self),
    {
        match self {
            Length::Millimeters(_) => MeasureUnit::Millimeters,
            Length::Inches(_) => MeasureUnit::Inches,
            Length::Meters(_) => MeasureUnit::Meters,
            Length::Miles(_) => MeasureUnit::Miles,
            Length::Kilometers(_) => MeasureUnit::Kilometers,
        }
    }

    /// The quantity of this length in `measure_unit`.
    pub fn get_value_as(&self, measure_unit: MeasureUnit) -> (r: Decimal)
        requires
            value_as(*self, measure_unit) is Some,
        ensures
            Some(r@) == value_as(*self, measure_unit),
    {
        if self.measure_unit() == measure_unit {
            self.quantity()
        } else {
            self.measure_unit().to(measure_unit).convert(self.quantity())
        }
    }

    /// The quantity of this length in `measure_unit`, or `None` where its unit does not
    /// convert to `measure_unit` or the conversion overflows.
    pub fn checked_value_as(&self, measure_unit: MeasureUnit) -> (r: Option<Decimal>)
        ensures
            option_view(r) == value_as(*self, measure_unit),
    {
        let mu = self.measure_unit();
        if mu == measure_unit {
            Some(self.get_value_as(measure_unit))
        } else if mu.converts_to(measure_unit) {
            if mu.to(measure_unit).checked_convert(self.quantity()).is_some() {
                Some(self.get_value_as(measure_unit))
            } else {
                None
            }
        } else {
            None
        }
    }

    /// The sum of two lengths, in the unit of this one.
    pub fn add(self, rhs: Self) -> (l: Length)
        requires
            summable(self, rhs),
        ensures
            unit_of(l) == unit_of(self),
            Some(quantity_of(l)@) == sum_quantity(self, rhs),
    {
        let (val1, mu1) = (self.quantity(), self.measure_unit());
        let (val2, mu2) = (rhs.quantity(), rhs.measure_unit());
        let converted = mu2.to(mu1).convert(val2);
        match val1.checked_add(&converted) {
            Some(new_value) => Length::new(new_value, mu1),
            None => self,
        }
    }

    /// The sum of two lengths, in the unit of this one, or `None` where it cannot be
    /// computed or is negative.
    pub fn checked_add(self, rhs: Self) -> (r: Option<Length>)
        ensures
            summable(self, rhs) <==> r is Some,
            r matches Some(l) ==> unit_of(l) == unit_of(self) && Some(quantity_of(l)@) == sum_quantity(
                self,
                rhs,
            ),
    {
        let mu1 = self.measure_unit();
        let mu2 = rhs.measure_unit();
        if !mu2.converts_to(mu1) {
            return None;
        }
        match mu2.to(mu1).checked_convert(rhs.quantity()) {
            Some(converted) => match self.quantity().checked_add(&converted) {
                Some(sum) => {
                    if sum.is_sign_negative() {
                        None
                    } else {
                        Some(self.add(rhs))
                    }
                },
                None => None,
            },
            None => None,
        }
    }

    /// The text of this length: its quantity, a space and the symbol of its unit.
    pub fn to_string(&self) -> (s: String)
        ensures
            s@ == decimal_text(quantity_of(*self)@.0 as int, quantity_of(*self)@.1 as nat, quantity_of(*self)@.2) + seq![' ']
                + unit_symbol(unit_of(*self)),
    {
        let q = self.quantity().to_string();
        let mut v: Vec<char> = Vec::new();
        let qs = q.as_str();
        let qv = crate::text::chars_of(qs);
        let mut i: usize = 0;
        while i < qv.len()
            invariant
                i <= qv.len(),
                v@ == qv@.take(i as int),
            decreases qv.len() - i,
        {
            v.push(qv[i]);
            i = i + 1;
            assert(qv@.take(i as int) =~= qv@.take((i - 1) as int).push(qv@[i - 1]));
        }
        assert(qv@.take(qv.len() as int) =~= qv@);
        v.push(' ');
        let sym = self.measure_unit().to_string();
        let sv = crate::text::chars_of(sym.as_str());
        let mut j: usize = 0;
        let ghost before = v@;
        while j < sv.len()
            invariant
                j <= sv.len(),
                v@ == before + sv@.take(j as int),
            decreases sv.len() - j,
        {
            v.push(sv[j]);
            j = j + 1;
            assert(sv@.take(j as int) =~= sv@.take((j - 1) as int).push(sv@[j - 1]));
        }
        assert(sv@.take(sv.len() as int) =~= sv@);
        string_of_slice(v.as_slice())
    }
}

impl Default for Length {
    fn default() -> (l: Self)
        ensures
            l == Length::Millimeters(quantity_of(l)),
            quantity_of(l)@ == (0i128, 0u32, false),
    {
        Length::Millimeters(Decimal::zero())
    }
}

impl PartialEq for Length {
    /// Two lengths are equal when the second, in the unit of the first, is the same number;
    /// lengths whose units do not convert are never equal.
    fn eq(&self, other: &Self) -> (r: bool) {
        match other.checked_value_as(self.measure_unit()) {
            Some(value2) => self.quantity().same_as(&value2),
            None => false,
        }
    }
}

impl vstd::std_specs::cmp::PartialEqSpecImpl for Length {
    open spec fn obeys_eq_spec() -> bool {
        true
    }

    open spec fn eq_spec(&self, other: &Self) -> bool {
        same_length(*self, *other)
    }
}

impl Eq for Length {
}

impl PartialOrd for Length {
    /// Compares the second length, in the unit of the first, with the first; lengths whose
    /// units do not convert are not comparable.
    fn partial_cmp(&self, other: &Self) -> (r: Option<Ordering>) {
        match other.checked_value_as(self.measure_unit()) {
            Some(value2) => {
                let value1 = self.quantity();
                if value1.less_than(&value2) {
                    Some(Ordering::Less)
                } else if value1.same_as(&value2) {
                    Some(Ordering::Equal)
                } else {
                    Some(Ordering::Greater)
                }
            },
            None => None,
        }
    }
}

impl vstd::std_specs::cmp::PartialOrdSpecImpl for Length {
    open spec fn obeys_partial_cmp_spec() -> bool {
        true
    }

    open spec fn partial_cmp_spec(&self, other: &Self) -> Option<Ordering> {
        match length_order(*self, *other) {
            Some(o) => Some(
                if o < 0 {
                    Ordering::Less
                } else if o == 0 {
                    Ordering::Equal
                } else {
                    Ordering::Greater
                },
            ),
            None => None,
        }
    }
}

/// The length lies within the bounds that are set: not below `min`, not above `max`.
pub open spec fn length_within(l: Length, min: Option<(i128, u32, bool)>, max: Option<(i128, u32, bool)>) -> bool {
    &&& (min matches Some(m) ==> !smaller_number(quantity_of(l)@, m))
    &&& (max matches Some(m) ==> !smaller_number(m, quantity_of(l)@))
}

/// Whether a length lies within the bounds that are set (the range check on lengths).
pub fn length_in_range(length: &Length, min: Option<Decimal>, max: Option<Decimal>) -> (r: bool)
    ensures
        r == length_within(*length, option_view(min), option_view(max)),
{
    let value = length.quantity();
    if let Some(m) = min {
        if value.less_than(&m) {
            return false;
        }
    }
    if let Some(m) = max {
        if m.less_than(&value) {
            return false;
        }
    }
    true
}

} // verus!
