//! Decimal numbers: a signed mantissa of at most 96 bits divided by a power of ten.
//! The arithmetic is the one of the `rust_decimal` crate.

use vstd::prelude::*;
use crate::text::decimal;

verus! {

/// The largest mantissa, `2^96 - 1`.
pub const MAX_MANTISSA: i128 = 79_228_162_514_264_337_593_543_950_335i128;

/// The largest scale: at most 28 digits after the point.
pub const MAX_SCALE: u32 = 28u32;

/// `10^n`.
pub open spec fn pow10(n: nat) -> int
    decreases n,
{
    if n == 0 {
        1
    } else {
        10 * pow10((n - 1) as nat)
    }
}

/// A mantissa and a scale that make a decimal number.
pub open spec fn valid_parts(mantissa: int, scale: int) -> bool {
    -MAX_MANTISSA <= mantissa <= MAX_MANTISSA && 0 <= scale <= MAX_SCALE
}

/// `m1 / 10^s1` and `m2 / 10^s2` are the same number.
pub open spec fn same_value(m1: int, s1: nat, m2: int, s2: nat) -> bool {
    m1 * pow10(s2) == m2 * pow10(s1)
}

/// `m1 / 10^s1` is smaller than `m2 / 10^s2`.
pub open spec fn less_value(m1: int, s1: nat, m2: int, s2: nat) -> bool {
    m1 * pow10(s2) < m2 * pow10(s1)
}

/// The two decimals, as mantissa, scale and sign flag, are the same number.
pub open spec fn same_number(a: (i128, u32, bool), b: (i128, u32, bool)) -> bool {
    same_value(a.0 as int, a.1 as nat, b.0 as int, b.1 as nat)
}

/// The first decimal, as mantissa, scale and sign flag, is a smaller number than the second.
pub open spec fn smaller_number(a: (i128, u32, bool), b: (i128, u32, bool)) -> bool {
    less_value(a.0 as int, a.1 as nat, b.0 as int, b.1 as nat)
}

/// A mantissa, a scale and a sign flag that make a decimal: valid parts, and a flag that
/// is set for a negative mantissa and clear for a positive one (either, for zero).
pub open spec fn valid_decimal(p: (i128, u32, bool)) -> bool {
    &&& valid_parts(p.0 as int, p.1 as int)
    &&& (p.0 < 0 ==> p.2)
    &&& (p.0 > 0 ==> !p.2)
}

/// What `rust_decimal` computes as the product of two decimals, given as mantissa, scale
/// and sign flag; `None` where the product overflows.
pub uninterp spec fn decimal_product(m1: i128, s1: u32, n1: bool, m2: i128, s2: u32, n2: bool) -> Option<
    (i128, u32, bool),
>;

/// What `rust_decimal` computes as the sum of two decimals, given as mantissa, scale and
/// sign flag; `None` where the sum overflows.
pub uninterp spec fn decimal_sum(m1: i128, s1: u32, n1: bool, m2: i128, s2: u32, n2: bool) -> Option<
    (i128, u32, bool),
>;

/// What `rust_decimal` computes when it rounds a decimal, given as mantissa, scale and
/// sign flag, to `dp` digits after the point.
pub uninterp spec fn decimal_rounded(m: i128, s: u32, n: bool, dp: u32) -> (i128, u32, bool);

/// The base ten digits of `n`, none for zero.
pub open spec fn significant_digits(n: nat) -> Seq<char> {
    if n == 0 {
        Seq::empty()
    } else {
        decimal(n)
    }
}

/// `n` zeros.
pub open spec fn zeros(n: nat) -> Seq<char> {
    Seq::new(n, |i: int| '0')
}

/// The text of `mantissa / 10^scale`: a `-` where the sign flag is set (a negative zero
/// too), the integral digits (`0` where there are none) and, for a positive scale, a point
/// and exactly `scale` fractional digits.
pub open spec fn decimal_text(mantissa: int, scale: nat, negative: bool) -> Seq<char> {
    let magnitude: nat = if mantissa < 0 { (-mantissa) as nat } else { mantissa as nat };
    let digits = significant_digits(magnitude);
    let padded = if digits.len() < scale { zeros((scale - digits.len()) as nat) + digits } else { digits };
    let whole = padded.take(padded.len() - scale);
    let fraction = padded.skip(padded.len() - scale);
    let sign = if negative { seq!['-'] } else { Seq::<char>::empty() };
    let integral = if whole.len() == 0 { seq!['0'] } else { whole };
    if scale == 0 {
        sign + integral
    } else {
        sign + integral + seq!['.'] + fraction
    }
}

/// Multiplies with `rust_decimal::Decimal::checked_mul`. The result is named
/// `decimal_product`; stated of it: a product with a zero factor is a positive zero, a
/// product whose exact mantissa fits in 96 bits and whose scale is at most 28 is exact, and
/// every result is a valid decimal. How larger products are rounded is left unsaid.
#[verifier::external_body]
fn rust_decimal_mul(m1: i128, s1: u32, n1: bool, m2: i128, s2: u32, n2: bool) -> (r: Option<(i128, u32, bool)>)
    requires
        valid_decimal((m1, s1, n1)),
        valid_decimal((m2, s2, n2)),
    ensures
        r == decimal_product(m1, s1, n1, m2, s2, n2),
        (m1 == 0 || m2 == 0) ==> r == Some((0i128, 0u32, false)),
        (m1 != 0 && m2 != 0 && valid_parts(m1 * m2, s1 + s2)) ==> r == Some(
            ((m1 * m2) as i128, (s1 + s2) as u32, m1 * m2 < 0),
        ),
        r matches Some(p) ==> valid_decimal(p),
{
    let mut a = rust_decimal::Decimal::from_i128_with_scale(m1, s1);
    a.set_sign_negative(n1);
    let mut b = rust_decimal::Decimal::from_i128_with_scale(m2, s2);
    b.set_sign_negative(n2);
    match a.checked_mul(b) {
        Some(p) => Some((p.mantissa(), p.scale(), p.is_sign_negative())),
        None => None,
    }
}

/// Adds with `rust_decimal::Decimal::checked_add`. The result is named `decimal_sum`;
/// stated of it: every result is a valid decimal, and two numbers that are not zero, with
/// the same scale and the same sign, add exactly, in that scale and sign, where the sum of
/// the mantissas fits (the other cases, with their rescaling and rounding, are left to
/// the name).
#[verifier::external_body]
fn rust_decimal_add(m1: i128, s1: u32, n1: bool, m2: i128, s2: u32, n2: bool) -> (r: Option<(i128, u32, bool)>)
    requires
        valid_decimal((m1, s1, n1)),
        valid_decimal((m2, s2, n2)),
    ensures
        r == decimal_sum(m1, s1, n1, m2, s2, n2),
        r matches Some(p) ==> valid_decimal(p),
        (m1 != 0 && m2 != 0 && s1 == s2 && n1 == n2 && valid_parts(m1 + m2, s1 as int)) ==> r == Some(
            ((m1 + m2) as i128, s1, n1),
        ),
{
    let mut a = rust_decimal::Decimal::from_i128_with_scale(m1, s1);
    a.set_sign_negative(n1);
    let mut b = rust_decimal::Decimal::from_i128_with_scale(m2, s2);
    b.set_sign_negative(n2);
    match a.checked_add(b) {
        Some(p) => Some((p.mantissa(), p.scale(), p.is_sign_negative())),
        None => None,
    }
}

/// The magnitude `mag`, divided by `10^k` and rounded to a whole number, half to even.
pub open spec fn half_even_quotient(mag: nat, k: nat) -> int {
    let d = pow10(k);
    let q = mag as int / d;
    let rest = mag as int % d;
    let half = 5 * pow10((k - 1) as nat);
    if rest > half || (rest == half && q % 2 == 1) {
        q + 1
    } else {
        q
    }
}

/// A decimal, as mantissa, scale and sign flag, rounded to `dp` digits after the point,
/// fewer than its scale, half to even: a zero keeps its sign flag; otherwise the rounded
/// magnitude with the sign of the number, and no sign flag where it rounds to zero.
pub open spec fn rounded_half_even(m: int, s: nat, n: bool, dp: nat) -> (int, nat, bool) {
    if m == 0 {
        (0, dp, n)
    } else {
        let q = half_even_quotient((if m < 0 { -m } else { m }) as nat, (s - dp) as nat);
        (if n { -q } else { q }, dp, n && q != 0)
    }
}

/// Rounds with `rust_decimal::Decimal::round_dp` (half to even). The result is named
/// `decimal_rounded`; stated of it: a number with at most `dp` fractional digits is
/// returned as it is, any other is rounded half to even to `dp` digits, and every result
/// is a valid decimal.
#[verifier::external_body]
fn rust_decimal_round_dp(m: i128, s: u32, n: bool, dp: u32) -> (r: (i128, u32, bool))
    requires
        valid_decimal((m, s, n)),
    ensures
        r == decimal_rounded(m, s, n, dp),
        s <= dp ==> r == (m, s, n),
        dp < s ==> (r.0 as int, r.1 as nat, r.2) == rounded_half_even(m as int, s as nat, n, dp as nat),
        valid_decimal(r),
{
    let mut a = rust_decimal::Decimal::from_i128_with_scale(m, s);
    a.set_sign_negative(n);
    let d = a.round_dp(dp);
    (d.mantissa(), d.scale(), d.is_sign_negative())
}

/// Compares with `==` of `rust_decimal::Decimal`, which compares the numbers (a negative
/// zero is zero).
#[verifier::external_body]
fn rust_decimal_eq(m1: i128, s1: u32, n1: bool, m2: i128, s2: u32, n2: bool) -> (r: bool)
    requires
        valid_decimal((m1, s1, n1)),
        valid_decimal((m2, s2, n2)),
    ensures
        r == same_value(m1 as int, s1 as nat, m2 as int, s2 as nat),
{
    let mut a = rust_decimal::Decimal::from_i128_with_scale(m1, s1);
    a.set_sign_negative(n1);
    let mut b = rust_decimal::Decimal::from_i128_with_scale(m2, s2);
    b.set_sign_negative(n2);
    a == b
}

/// Compares with `<` of `rust_decimal::Decimal`, which compares the numbers (a negative
/// zero is zero).
#[verifier::external_body]
fn rust_decimal_lt(m1: i128, s1: u32, n1: bool, m2: i128, s2: u32, n2: bool) -> (r: bool)
    requires
        valid_decimal((m1, s1, n1)),
        valid_decimal((m2, s2, n2)),
    ensures
        r == less_value(m1 as int, s1 as nat, m2 as int, s2 as nat),
{
    let mut a = rust_decimal::Decimal::from_i128_with_scale(m1, s1);
    a.set_sign_negative(n1);
    let mut b = rust_decimal::Decimal::from_i128_with_scale(m2, s2);
    b.set_sign_negative(n2);
    a < b
}

/// Writes the number with the `Display` of `rust_decimal::Decimal` (`decimal_text`).
#[verifier::external_body]
fn rust_decimal_to_string(m: i128, s: u32, n: bool) -> (r: String)
    requires
        valid_decimal((m, s, n)),
    ensures
        r@ == decimal_text(m as int, s as nat, n),
{
    let mut a = rust_decimal::Decimal::from_i128_with_scale(m, s);
    a.set_sign_negative(n);
    a.to_string()
}

/// A decimal number, `mantissa / 10^scale`, with the sign flag of `rust_decimal`, which
/// also tells a negative zero.
#[derive(Debug, Clone, Copy)]
pub struct Decimal {
    mantissa: i128,
    scale: u32,
    negative: bool,
}

impl View for Decimal {
    type V = (i128, u32, bool);

    /// The mantissa, the scale and the sign flag.
    closed spec fn view(&self) -> (i128, u32, bool) {
        (self.mantissa, self.scale, self.negative)
    }
}

/// The mantissa, the scale and the sign flag of an optional decimal.
pub open spec fn option_view(d: Option<Decimal>) -> Option<(i128, u32, bool)> {
    match d {
        Some(v) => Some(v@),
        None => None,
    }
}

/// The parts of a decimal whose sign flag is set to `negative`: the same digits, with the
/// sign of the flag.
pub open spec fn with_sign(p: (i128, u32, bool), negative: bool) -> (i128, u32, bool) {
    let magnitude: int = if p.0 < 0 { -p.0 } else { p.0 as int };
    ((if negative { -magnitude } else { magnitude }) as i128, p.1, negative)
}

impl Decimal {
    #[verifier::type_invariant]
    spec fn well_formed(self) -> bool {
        valid_decimal((self.mantissa, self.scale, self.negative))
    }

    /// The decimal `num / 10^scale`.
    pub fn new(num: i64, scale: u32) -> (d: Decimal)
        requires
            scale <= MAX_SCALE,
        ensures
            d@ == (num as i128, scale, num < 0),
    {
        Decimal { mantissa: num as i128, scale, negative: num < 0 }
    }

    /// The decimal `num / 10^scale`, or `None` where the scale exceeds 28 or the
    /// mantissa exceeds 96 bits.
    pub fn try_from_i128_with_scale(num: i128, scale: u32) -> (r: Option<Decimal>)
        ensures
            r is Some <==> valid_parts(num as int, scale as int),
            r matches Some(d) ==> d@ == (num, scale, num < 0),
    {
        if scale > MAX_SCALE || num > MAX_MANTISSA || num < -MAX_MANTISSA {
            None
        } else {
            Some(Decimal { mantissa: num, scale, negative: num < 0 })
        }
    }

    /// Zero.
    pub fn zero() -> (d: Decimal)
        ensures
            d@ == (0i128, 0u32, false),
    {
        Decimal { mantissa: 0, scale: 0, negative: false }
    }

    /// Sets the sign flag: the same digits, negative where `negative` is set (zero gives a
    /// negative zero), positive where it is not.
    pub fn set_sign_negative(&mut self, negative: bool)
        ensures
            final(self)@ == with_sign(old(self)@, negative),
    {
        proof {
            use_type_invariant(&*self);
        }
        let magnitude = if self.mantissa < 0 { -self.mantissa } else { self.mantissa };
        let mantissa = if negative { -magnitude } else { magnitude };
        *self = Decimal { mantissa, scale: self.scale, negative };
    }

    /// The mantissa.
    pub fn mantissa(&self) -> (r: i128)
        ensures
            r == self@.0,
    {
        self.mantissa
    }

    /// The number of digits after the point.
    pub fn scale(&self) -> (r: u32)
        ensures
            r == self@.1,
    {
        self.scale
    }

    /// The sign flag is set: a negative number, or a negative zero.
    pub fn is_sign_negative(&self) -> (r: bool)
        ensures
            r == self@.2,
    {
        self.negative
    }

    /// The sign flag is clear: a positive number, or a positive zero.
    pub fn is_sign_positive(&self) -> (r: bool)
        ensures
            r == !self@.2,
    {
        !self.negative
    }

    /// The number is zero.
    pub fn is_zero(&self) -> (r: bool)
        ensures
            r == (self@.0 == 0),
    {
        self.mantissa == 0
    }

    /// The product, or `None` where it overflows.
    pub fn checked_mul(&self, other: &Decimal) -> (r: Option<Decimal>)
        ensures
            option_view(r) == decimal_product(self@.0, self@.1, self@.2, other@.0, other@.1, other@.2),
            (self@.0 == 0 || other@.0 == 0) ==> option_view(r) == Some((0i128, 0u32, false)),
            (self@.0 != 0 && other@.0 != 0 && valid_parts(self@.0 * other@.0, self@.1 + other@.1))
                ==> option_view(r) == Some(
                ((self@.0 * other@.0) as i128, (self@.1 + other@.1) as u32, self@.0 * other@.0 < 0),
            ),
    {
        proof {
            use_type_invariant(self);
            use_type_invariant(other);
        }
        match rust_decimal_mul(self.mantissa, self.scale, self.negative, other.mantissa, other.scale, other.negative) {
            Some(p) => Some(Decimal { mantissa: p.0, scale: p.1, negative: p.2 }),
            None => None,
        }
    }

    /// The sum, or `None` where it overflows.
    pub fn checked_add(&self, other: &Decimal) -> (r: Option<Decimal>)
        ensures
            option_view(r) == decimal_sum(self@.0, self@.1, self@.2, other@.0, other@.1, other@.2),
            (self@.0 != 0 && other@.0 != 0 && self@.1 == other@.1 && self@.2 == other@.2 && valid_parts(
                self@.0 + other@.0,
                self@.1 as int,
            )) ==> option_view(r) == Some(((self@.0 + other@.0) as i128, self@.1, self@.2)),
    {
        proof {
            use_type_invariant(self);
            use_type_invariant(other);
        }
        match rust_decimal_add(self.mantissa, self.scale, self.negative, other.mantissa, other.scale, other.negative) {
            Some(p) => Some(Decimal { mantissa: p.0, scale: p.1, negative: p.2 }),
            None => None,
        }
    }

    /// The number rounded to `dp` digits after the point, half to even.
    pub fn round_dp(&self, dp: u32) -> (r: Decimal)
        ensures
            r@ == decimal_rounded(self@.0, self@.1, self@.2, dp),
            self@.1 <= dp ==> r@ == self@,
            dp < self@.1 ==> (r@.0 as int, r@.1 as nat, r@.2) == rounded_half_even(
                self@.0 as int,
                self@.1 as nat,
                self@.2,
                dp as nat,
            ),
    {
        proof {
            use_type_invariant(self);
        }
        let p = rust_decimal_round_dp(self.mantissa, self.scale, self.negative, dp);
        Decimal { mantissa: p.0, scale: p.1, negative: p.2 }
    }

    /// The two decimals are the same number (a negative zero is zero).
    pub fn same_as(&self, other: &Decimal) -> (r: bool)
        ensures
            r == same_number(self@, other@),
    {
        proof {
            use_type_invariant(self);
            use_type_invariant(other);
        }
        rust_decimal_eq(self.mantissa, self.scale, self.negative, other.mantissa, other.scale, other.negative)
    }

    /// This decimal is a smaller number than `other`.
    pub fn less_than(&self, other: &Decimal) -> (r: bool)
        ensures
            r == smaller_number(self@, other@),
    {
        proof {
            use_type_invariant(self);
            use_type_invariant(other);
        }
        rust_decimal_lt(self.mantissa, self.scale, self.negative, other.mantissa, other.scale, other.negative)
    }

    /// The text of the number, with exactly `scale` digits after the point.
    pub fn to_string(&self) -> (r: String)
        ensures
            r@ == decimal_text(self@.0 as int, self@.1 as nat, self@.2),
    {
        proof {
            use_type_invariant(self);
        }
        rust_decimal_to_string(self.mantissa, self.scale, self.negative)
    }
}

impl PartialEq for Decimal {
    /// Two decimals are equal when they are the same number, whatever their scales.
    fn eq(&self, other: &Self) -> (r: bool) {
        self.same_as(other)
    }
}

impl vstd::std_specs::cmp::PartialEqSpecImpl for Decimal {
    open spec fn obeys_eq_spec() -> bool {
        true
    }

    open spec fn eq_spec(&self, other: &Self) -> bool {
        same_number(self@, other@)
    }
}

impl Eq for Decimal {
}

} // verus!
