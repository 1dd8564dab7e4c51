//! Measure units for lengths and the conversions between them.

use crate::common::decimal::{decimal_product, decimal_rounded, option_view, same_number, Decimal};
use crate::text::string_of_slice;
use vstd::prelude::*;

verus! {

/// A measure unit for lengths.
#[derive(Debug, PartialEq, Eq, Clone, Copy, Structural)]
pub enum MeasureUnit {
    Millimeters,
    Inches,
    Meters,
    Miles,
    Kilometers,
}

/// The symbol of a measure unit.
pub open spec fn unit_symbol(mu: MeasureUnit) -> Seq<char> {
    match mu {
        MeasureUnit::Miles => seq!['m', 'i'],
        MeasureUnit::Inches => seq!['i', 'n'],
        MeasureUnit::Meters => seq!['m'],
        MeasureUnit::Millimeters => seq!['m', 'm'],
        MeasureUnit::Kilometers => seq!['k', 'm'],
    }
}

/// The name of a measure unit.
pub open spec fn unit_name(mu: MeasureUnit) -> Seq<char> {
    match mu {
        MeasureUnit::Miles => seq!['M', 'i', 'l', 'e', 's'],
        MeasureUnit::Inches => seq!['I', 'n', 'c', 'h', 'e', 's'],
        MeasureUnit::Meters => seq!['M', 'e', 't', 'e', 'r', 's'],
        MeasureUnit::Millimeters => seq!['M', 'i', 'l', 'l', 'i', 'm', 'e', 't', 'e', 'r', 's'],
        MeasureUnit::Kilometers => seq!['K', 'i', 'l', 'o', 'm', 'e', 't', 'e', 'r', 's'],
    }
}

/// There is a converter from `from` to `to`: between millimeters and inches, between
/// millimeters and meters, between kilometers and miles, and from every unit to itself.
pub open spec fn convertible(from: MeasureUnit, to: MeasureUnit) -> bool {
    ||| from == to
    ||| (from == MeasureUnit::Inches && to == MeasureUnit::Millimeters)
    ||| (from == MeasureUnit::Millimeters && to == MeasureUnit::Inches)
    ||| (from == MeasureUnit::Meters && to == MeasureUnit::Millimeters)
    ||| (from == MeasureUnit::Millimeters && to == MeasureUnit::Meters)
    ||| (from == MeasureUnit::Kilometers && to == MeasureUnit::Miles)
    ||| (from == MeasureUnit::Miles && to == MeasureUnit::Kilometers)
}

/// The factor of the conversion from `from` to `to`, as a mantissa, a scale and a sign flag: 25.4 from
/// inches to millimeters, 0.0393701 back, 1000.0 from meters to millimeters, 0.001 back,
/// 0.621371 from kilometers to miles, 1.60934 back, and 1 from a unit to itself.
pub open spec fn conversion_ratio(from: MeasureUnit, to: MeasureUnit) -> (i128, u32, bool) {
    if from == MeasureUnit::Inches && to == MeasureUnit::Millimeters {
        (254i128, 1u32, false)
    } else if from == MeasureUnit::Millimeters && to == MeasureUnit::Inches {
        (393701i128, 7u32, false)
    } else if from == MeasureUnit::Meters && to == MeasureUnit::Millimeters {
        (10000i128, 1u32, false)
    } else if from == MeasureUnit::Millimeters && to == MeasureUnit::Meters {
        (1i128, 3u32, false)
    } else if from == MeasureUnit::Kilometers && to == MeasureUnit::Miles {
        (621371i128, 6u32, false)
    } else if from == MeasureUnit::Miles && to == MeasureUnit::Kilometers {
        (160934i128, 5u32, false)
    } else {
        (1i128, 0u32, false)
    }
}

/// The units that the converter from `from` to `to` records: the two units, except that
/// the converter from meters to meters records millimeters and the one from miles to miles
/// records inches.
pub open spec fn converter_units(from: MeasureUnit, to: MeasureUnit) -> (MeasureUnit, MeasureUnit) {
    if from == to {
        if from == MeasureUnit::Meters {
            (MeasureUnit::Millimeters, MeasureUnit::Millimeters)
        } else if from == MeasureUnit::Miles {
            (MeasureUnit::Inches, MeasureUnit::Inches)
        } else {
            (from, from)
        }
    } else {
        (from, to)
    }
}

/// What converting `value` from `from` to `to` gives: `value` times the factor of the
/// conversion; `None` where the product overflows.
pub open spec fn converted_value(value: (i128, u32, bool), from: MeasureUnit, to: MeasureUnit) -> Option<
    (i128, u32, bool),
> {
    decimal_product(
        value.0,
        value.1,
        value.2,
        conversion_ratio(from, to).0,
        conversion_ratio(from, to).1,
        conversion_ratio(from, to).2,
    )
}

/// `value` in `from` and `other_value` in `to` are the same length: `value` converted to
/// `to` and `other_value`, both rounded to two digits after the point, are the same number.
pub open spec fn same_measure(
    value: (i128, u32, bool),
    from: MeasureUnit,
    to: MeasureUnit,
    other_value: (i128, u32, bool),
) -> bool {
    match converted_value(value, from, to) {
        Some(c) => {
            let a = decimal_rounded(c.0, c.1, c.2, 2);
            let b = decimal_rounded(other_value.0, other_value.1, other_value.2, 2);
            same_number(a, b)
        },
        None => false,
    }
}

/// A converter between two measure units.
#[derive(Debug)]
pub struct MeasureUnitConverter {
    from: MeasureUnit,
    to: MeasureUnit,
    ratio: Decimal,
}

impl View for MeasureUnitConverter {
    type V = (MeasureUnit, MeasureUnit, (i128, u32, bool));

    /// The two units and the factor of the conversion.
    closed spec fn view(&self) -> (MeasureUnit, MeasureUnit, (i128, u32, bool)) {
        (self.from, self.to, self.ratio@)
    }
}

impl MeasureUnitConverter {
    /// The converter from `from` to `to` with factor `ratio`; a converter from a unit to
    /// itself has factor 1 whatever `ratio` is.
    fn new(from: MeasureUnit, to: MeasureUnit, ratio: Decimal) -> (c: Self)
        ensures
            from == to ==> c@ == (from, from, (1i128, 0u32, false)),
            from != to ==> c@ == (from, to, ratio@),
    {
        if from == to {
            Self::same_unit(from)
        } else {
            MeasureUnitConverter { from, to, ratio }
        }
    }

    /// The converter from `mu` to itself.
    fn same_unit(mu: MeasureUnit) -> (c: Self)
        ensures
            c@ == (mu, mu, (1i128, 0u32, false)),
    {
        MeasureUnitConverter { from: mu, to: mu, ratio: Decimal::new(1, 0) }
    }

    /// Converts `value`: `value` times the factor of this converter.
    pub fn convert(&self, value: Decimal) -> (r: Decimal)
        requires
            decimal_product(value@.0, value@.1, value@.2, self@.2.0, self@.2.1, self@.2.2) is Some,
        ensures
            Some(r@) == decimal_product(value@.0, value@.1, value@.2, self@.2.0, self@.2.1, self@.2.2),
    {
        match value.checked_mul(&self.ratio) {
            Some(r) => r,
            None => value,
        }
    }

    /// Converts `value`, or `None` where the product overflows.
    pub fn checked_convert(&self, value: Decimal) -> (r: Option<Decimal>)
        ensures
            option_view(r) == decimal_product(value@.0, value@.1, value@.2, self@.2.0, self@.2.1, self@.2.2),
    {
        if value.checked_mul(&self.ratio).is_some() {
            Some(self.convert(value))
        } else {
            None
        }
    }

    /// The description of this converter: `Converter from`, the name of the first unit,
    /// `to` and the name of the second unit.
    pub fn to_string(&self) -> (s: String)
        ensures
            s@ == seq!['C', 'o', 'n', 'v', 'e', 'r', 't', 'e', 'r', ' ', 'f', 'r', 'o', 'm', ' ']
                + unit_name(self@.0) + seq![' ', 't', 'o', ' '] + unit_name(self@.1),
    {
        let mut v: Vec<char> = Vec::new();
        let head: &[char] = &['C', 'o', 'n', 'v', 'e', 'r', 't', 'e', 'r', ' ', 'f', 'r', 'o', 'm', ' '];
        push_chars(&mut v, head);
        push_chars(&mut v, self.from.name_chars());
        let middle: &[char] = &[' ', 't', 'o', ' '];
        push_chars(&mut v, middle);
        push_chars(&mut v, self.to.name_chars());
        assert(v@ =~= seq!['C', 'o', 'n', 'v', 'e', 'r', 't', 'e', 'r', ' ', 'f', 'r', 'o', 'm', ' ']
            + unit_name(self@.0) + seq![' ', 't', 'o', ' '] + unit_name(self@.1));
        string_of_slice(v.as_slice())
    }
}

/// Appends the characters of `w` to `v`.
fn push_chars(v: &mut Vec<char>, w: &[char])
    ensures
        final(v)@ == old(v)@ + w@,
{
    let mut i: usize = 0;
    while i < w.len()
        invariant
            i <= w.len(),
            v@ == old(v)@ + w@.take(i as int),
        decreases w.len() - i,
    {
        v.push(w[i]);
        i = i + 1;
        assert(w@.take(i as int) =~= w@.take((i - 1) as int).push(w@[i - 1]));
    }
    assert(w@.take(w.len() as int) =~= w@);
}

impl MeasureUnit {
    /// The symbol of this unit.
    pub fn symbol(&self) -> (r: &'static str)
        ensures
            r@ == unit_symbol(*self),
    {
        match self {
            MeasureUnit::Miles => {
                proof {
                    reveal_strlit("mi");
                }
                "mi"
            },
            MeasureUnit::Inches => {
                proof {
                    reveal_strlit("in");
                }
                "in"
            },
            MeasureUnit::Meters => {
                proof {
                    reveal_strlit("m");
                }
                "m"
            },
            MeasureUnit::Millimeters => {
                proof {
                    reveal_strlit("mm");
                }
                "mm"
            },
            MeasureUnit::Kilometers => {
                proof {
                    reveal_strlit("km");
                }
                "km"
            },
        }
    }

    /// The symbol of this unit, as a string.
    pub fn to_string(&self) -> (s: String)
        ensures
            s@ == unit_symbol(*self),
    {
        let w: &[char] = match self {
            MeasureUnit::Miles => &['m', 'i'],
            MeasureUnit::Inches => &['i', 'n'],
            MeasureUnit::Meters => &['m'],
            MeasureUnit::Millimeters => &['m', 'm'],
            MeasureUnit::Kilometers => &['k', 'm'],
        };
        assert(w@ =~= unit_symbol(*self));
        string_of_slice(w)
    }

    /// The name of this unit.
    fn name_chars(&self) -> (w: &'static [char])
        ensures
            w@ == unit_name(*self),
    {
        let w: &[char] = match self {
            MeasureUnit::Miles => &['M', 'i', 'l', 'e', 's'],
            MeasureUnit::Inches => &['I', 'n', 'c', 'h', 'e', 's'],
            MeasureUnit::Meters => &['M', 'e', 't', 'e', 'r', 's'],
            MeasureUnit::Millimeters => &['M', 'i', 'l', 'l', 'i', 'm', 'e', 't', 'e', 'r', 's'],
            MeasureUnit::Kilometers => &['K', 'i', 'l', 'o', 'm', 'e', 't', 'e', 'r', 's'],
        };
        assert(w@ =~= unit_name(*self));
        w
    }

    /// `value` in this unit and `other_value` in `other` are the same length, to two
    /// digits after the point in `other`.
    pub fn same_as(&self, value: Decimal, other: MeasureUnit, other_value: Decimal) -> (r: bool)
        requires
            convertible(*self, other),
        ensures
            r == same_measure(value@, *self, other, other_value@),
    {
        match self.to(other).checked_convert(value) {
            Some(c) => c.round_dp(2).same_as(&other_value.round_dp(2)),
            None => false,
        }
    }

    /// There is a converter from this unit to `other`.
    pub(crate) fn converts_to(&self, other: MeasureUnit) -> (r: bool)
        ensures
            r == convertible(*self, other),
    {
        match (self, other) {
            (MeasureUnit::Inches, MeasureUnit::Millimeters) => true,
            (MeasureUnit::Millimeters, MeasureUnit::Inches) => true,
            (MeasureUnit::Meters, MeasureUnit::Millimeters) => true,
            (MeasureUnit::Millimeters, MeasureUnit::Meters) => true,
            (MeasureUnit::Kilometers, MeasureUnit::Miles) => true,
            (MeasureUnit::Miles, MeasureUnit::Kilometers) => true,
            _ => *self == other,
        }
    }

    /// The converter from this unit to `other`.
    pub fn to(&self, other: MeasureUnit) -> (c: MeasureUnitConverter)
        requires
            convertible(*self, other),
        ensures
            (c@.0, c@.1) == converter_units(*self, other),
            c@.2 == conversion_ratio(*self, other),
    {
        match (self, other) {
            (MeasureUnit::Inches, MeasureUnit::Millimeters) => MeasureUnitConverter::new(
                MeasureUnit::Inches,
                MeasureUnit::Millimeters,
                Decimal::new(254, 1),
            ),
            (MeasureUnit::Millimeters, MeasureUnit::Inches) => MeasureUnitConverter::new(
                MeasureUnit::Millimeters,
                MeasureUnit::Inches,
                Decimal::new(393701, 7),
            ),
            (MeasureUnit::Meters, MeasureUnit::Millimeters) => MeasureUnitConverter::new(
                MeasureUnit::Meters,
                MeasureUnit::Millimeters,
                Decimal::new(10000, 1),
            ),
            (MeasureUnit::Millimeters, MeasureUnit::Meters) => MeasureUnitConverter::new(
                MeasureUnit::Millimeters,
                MeasureUnit::Meters,
                Decimal::new(1, 3),
            ),
            (MeasureUnit::Kilometers, MeasureUnit::Miles) => MeasureUnitConverter::new(
                MeasureUnit::Kilometers,
                MeasureUnit::Miles,
                Decimal::new(621371, 6),
            ),
            (MeasureUnit::Miles, MeasureUnit::Kilometers) => MeasureUnitConverter::new(
                MeasureUnit::Miles,
                MeasureUnit::Kilometers,
                Decimal::new(160934, 5),
            ),
            (MeasureUnit::Inches, MeasureUnit::Inches) => MeasureUnitConverter::same_unit(MeasureUnit::Inches),
            (MeasureUnit::Meters, MeasureUnit::Meters) => MeasureUnitConverter::same_unit(MeasureUnit::Millimeters),
            (MeasureUnit::Millimeters, MeasureUnit::Millimeters) => MeasureUnitConverter::same_unit(
                MeasureUnit::Millimeters,
            ),
            (MeasureUnit::Kilometers, MeasureUnit::Kilometers) => MeasureUnitConverter::same_unit(
                MeasureUnit::Kilometers,
            ),
            (MeasureUnit::Miles, MeasureUnit::Miles) => MeasureUnitConverter::same_unit(MeasureUnit::Inches),
            _ => MeasureUnitConverter::same_unit(*self),
        }
    }
}

} // verus!
