//! The catalog item delivery date.

use crate::text::{
    all_digits, chars_of, contains_char, contains_char_pair, contains_pair, decimal, digit_char, digit_value,
    digits_at_most, digits_value, is_digit, lemma_decimal_digits, lemma_digits_lack, lemma_split_terminator_two,
    push_decimal, signed_decimal, signed_value, split_terminator, split_terminator_chars, string_of,
    unsigned_value,
};
use vstd::prelude::*;

verus! {

/// The delivery date quarter number
pub type Quarter = u8;

/// The delivery date month number
pub type Month = u8;

/// The delivery date year
pub type Year = i32;

/// A delivery date for a catalog item (either by quarter or just year).
#[derive(Debug, PartialEq, Eq, Clone, Copy, Structural)]
pub enum DeliveryDate {
    /// A delivery date with just a year (ie, _"2022"_)
    ByYear(Year),
    /// A delivery date with year and quarter (ie, _"2022/Q1"_)
    ByQuarter(Year, Quarter),
    /// A delivery date with year and month (ie, "2022/12")
    ByYearMonth(Year, Month),
}

/// The delivery date parsing errors enum
#[derive(Debug, PartialEq, Eq, Clone, Copy, Structural)]
pub enum DeliveryDateParseError {
    /// Delivery date cannot be empty
    EmptyValue,
    /// Invalid format for a delivery date
    InvalidDeliveryDateFormat,
    /// Delivery date year component is not valid
    InvalidYearValue,
    /// Delivery date quarter component is not valid
    InvalidQuarterValue,
    /// Delivery date month component is not valid
    InvalidMonthValue,
}

/// The year written in `s`, when it is a year between 1900 and 2999.
pub open spec fn year_of(s: Seq<char>) -> Option<Year> {
    match signed_value(s) {
        Some(v) => if 1900 <= v <= 2999 { Some(v as Year) } else { None },
        None => None,
    }
}

/// The quarter written in `s` (as in `Q3`): two characters, the first one
/// ASCII and the second one a digit between 1 and 4.
pub open spec fn quarter_of(s: Seq<char>) -> Option<Quarter> {
    if s.len() == 2 && s[0] < '\u{80}' && '1' <= s[1] && s[1] <= '4' {
        Some(digit_value(s[1]) as Quarter)
    } else {
        None
    }
}

/// The month written in `s`: one or two characters that read as a number
/// between 1 and 12.
pub open spec fn month_of(s: Seq<char>) -> Option<Month> {
    if s.len() == 1 || s.len() == 2 {
        match unsigned_value(s) {
            Some(v) => if 1 <= v <= 12 { Some(v as Month) } else { None },
            None => None,
        }
    } else {
        None
    }
}

/// What a delivery date string means: a year (`2022`), a year and a quarter
/// (`2022/Q1`) or a year and a month (`2022/12`).
pub open spec fn parse_delivery_date(s: Seq<char>) -> Result<DeliveryDate, DeliveryDateParseError> {
    if s.len() == 0 {
        Err(DeliveryDateParseError::EmptyValue)
    } else if contains_pair(s, '/', 'Q') || s.contains('/') {
        let tokens = split_terminator(s, '/');
        if tokens.len() != 2 {
            Err(DeliveryDateParseError::InvalidDeliveryDateFormat)
        } else {
            match year_of(tokens[0]) {
                None => Err(DeliveryDateParseError::InvalidYearValue),
                Some(y) => if contains_pair(s, '/', 'Q') {
                    match quarter_of(tokens[1]) {
                        None => Err(DeliveryDateParseError::InvalidQuarterValue),
                        Some(q) => Ok(DeliveryDate::ByQuarter(y, q)),
                    }
                } else {
                    match month_of(tokens[1]) {
                        None => Err(DeliveryDateParseError::InvalidMonthValue),
                        Some(m) => Ok(DeliveryDate::ByYearMonth(y, m)),
                    }
                },
            }
        }
    } else {
        match year_of(s) {
            None => Err(DeliveryDateParseError::InvalidYearValue),
            Some(y) => Ok(DeliveryDate::ByYear(y)),
        }
    }
}

/// The text of a delivery date: `2022`, `2022/Q1`, or `2022/03` (the month
/// written with two digits at least).
pub open spec fn delivery_date_text(d: DeliveryDate) -> Seq<char> {
    match d {
        DeliveryDate::ByYear(y) => signed_decimal(y as int),
        DeliveryDate::ByQuarter(y, q) => signed_decimal(y as int) + seq!['/', 'Q'] + decimal(q as nat),
        DeliveryDate::ByYearMonth(y, m) => signed_decimal(y as int) + seq!['/'] + two_digits(m as nat),
    }
}

/// The base ten digits of `n`, padded on the left with `0` to two characters.
pub open spec fn two_digits(n: nat) -> Seq<char> {
    if n < 10 {
        seq!['0'] + decimal(n)
    } else {
        decimal(n)
    }
}

/// A delivery date that a text can stand for: a year between 1900 and 2999, a quarter
/// between 1 and 4, a month between 1 and 12.
pub open spec fn valid_delivery_date(d: DeliveryDate) -> bool {
    match d {
        DeliveryDate::ByYear(y) => 1900 <= y <= 2999,
        DeliveryDate::ByQuarter(y, q) => 1900 <= y <= 2999 && 1 <= q <= 4,
        DeliveryDate::ByYearMonth(y, m) => 1900 <= y <= 2999 && 1 <= m <= 12,
    }
}

/// The text of a year between 1900 and 2999 is digits that read back as the year.
proof fn lemma_year_text(y: Year)
    requires
        1900 <= y <= 2999,
    ensures
        signed_decimal(y as int) == decimal(y as nat),
        all_digits(decimal(y as nat)),
        decimal(y as nat).len() >= 1,
        !decimal(y as nat).contains('/'),
        year_of(decimal(y as nat)) == Some(y),
{
    lemma_decimal_digits(y as nat);
    lemma_digits_lack(decimal(y as nat), '/');
    let t = decimal(y as nat);
    assert(is_digit(t[0]));
    assert(unsigned_value(t) == Some(y as nat));
    assert(signed_value(t) == Some(y as int));
}

/// The text of a month between 1 and 12 is two digits that read back as the month.
proof fn lemma_month_text(m: Month)
    requires
        1 <= m <= 12,
    ensures
        two_digits(m as nat).len() == 2,
        all_digits(two_digits(m as nat)),
        !two_digits(m as nat).contains('/'),
        month_of(two_digits(m as nat)) == Some(m),
{
    let t = two_digits(m as nat);
    if m < 10 {
        assert(decimal(m as nat) == seq![digit_char(m as nat)]);
        assert(t =~= seq!['0', digit_char(m as nat)]);
        assert(t.drop_last() =~= seq!['0']);
        assert(seq!['0'].drop_last() =~= Seq::<char>::empty());
        assert(digits_value(seq!['0']) == 0);
        assert(digit_value(digit_char(m as nat)) == m);
        assert(digits_value(t) == digits_value(seq!['0']) * 10 + digit_value(digit_char(m as nat)));
    } else {
        let k = (m % 10) as nat;
        assert(decimal(1) == seq![digit_char(1)]);
        assert(decimal(m as nat) == decimal(1).push(digit_char(k)));
        assert(t =~= seq![digit_char(1), digit_char(k)]);
        assert(t.drop_last() =~= seq![digit_char(1)]);
        assert(seq![digit_char(1)].drop_last() =~= Seq::<char>::empty());
        assert(digit_value(digit_char(1)) == 1);
        assert(digit_value(digit_char(k)) == k);
        assert(digits_value(seq![digit_char(1)]) == digits_value(Seq::<char>::empty()) * 10 + digit_value(
            digit_char(1),
        ));
        assert(digits_value(t) == digits_value(seq![digit_char(1)]) * 10 + digit_value(digit_char(k)));
    }
    assert(all_digits(t));
    lemma_digits_lack(t, '/');
    assert(is_digit(t[0]));
}

/// Parsing the text of a valid delivery date gives back the delivery date.
pub proof fn lemma_delivery_date_round_trip(d: DeliveryDate)
    requires
        valid_delivery_date(d),
    ensures
        parse_delivery_date(delivery_date_text(d)) == Ok::<DeliveryDate, DeliveryDateParseError>(d),
{
    match d {
        DeliveryDate::ByYear(y) => {
            lemma_year_text(y);
            let t = delivery_date_text(d);
            assert(!contains_pair(t, '/', 'Q')) by {
                if contains_pair(t, '/', 'Q') {
                    let i = choose|i: int| 0 <= i && i + 1 < t.len() && t[i] == '/' && #[trigger] t[i + 1] == 'Q';
                    assert(t.contains('/'));
                }
            }
        },
        DeliveryDate::ByQuarter(y, q) => {
            lemma_year_text(y);
            let ys = decimal(y as nat);
            assert(decimal(q as nat) == seq![digit_char(q as nat)]);
            let b = seq!['Q', digit_char(q as nat)];
            let t = delivery_date_text(d);
            assert(t =~= ys + seq!['/'] + b);
            assert(is_digit(digit_char(q as nat)));
            assert(!b.contains('/')) by {
                if b.contains('/') {
                    let i = choose|i: int| 0 <= i < b.len() && b[i] == '/';
                    assert(i == 0 || i == 1);
                }
            }
            lemma_split_terminator_two(ys, b, '/');
            assert(t[ys.len() as int] == '/' && t[ys.len() as int + 1] == 'Q');
            assert(contains_pair(t, '/', 'Q'));
            assert(digit_value(digit_char(q as nat)) == q);
            assert(quarter_of(b) == Some(q));
        },
        DeliveryDate::ByYearMonth(y, m) => {
            lemma_year_text(y);
            lemma_month_text(m);
            let ys = decimal(y as nat);
            let b = two_digits(m as nat);
            let t = delivery_date_text(d);
            assert(t =~= ys + seq!['/'] + b);
            lemma_split_terminator_two(ys, b, '/');
            assert(t[ys.len() as int] == '/');
            assert(t.contains('/'));
            assert(!contains_pair(t, '/', 'Q')) by {
                if contains_pair(t, '/', 'Q') {
                    let i = choose|i: int| 0 <= i && i + 1 < t.len() && t[i] == '/' && #[trigger] t[i + 1] == 'Q';
                    if i < ys.len() {
                        assert(ys[i] == t[i]);
                        assert(ys.contains('/'));
                    } else if i == ys.len() {
                        assert(t[i + 1] == b[0]);
                        assert(is_digit(b[0]));
                    } else {
                        assert(t[i] == b[i - ys.len() - 1]);
                        assert(b.contains('/'));
                    }
                }
            }
        },
    }
}

impl DeliveryDate {
    /// Creates a new delivery date without the quarter nor month
    pub fn by_year(year: Year) -> (d: Self)
        ensures
            d == DeliveryDate::ByYear(year),
    {
        DeliveryDate::ByYear(year)
    }

    /// Creates a new delivery date with the quarter/year information
    pub fn by_quarter(year: Year, quarter: Quarter) -> (d: Self)
        ensures
            d == DeliveryDate::ByQuarter(year, quarter),
    {
        DeliveryDate::ByQuarter(year, quarter)
    }

    /// Creates a new delivery date with the month/year information
    pub fn by_month(year: Year, month: Month) -> (d: Self)
        ensures
            d == DeliveryDate::ByYearMonth(year, month),
    {
        DeliveryDate::ByYearMonth(year, month)
    }

    /// Returns the year component from this delivery date
    pub fn year(&self) -> (y: Year)
        ensures
            y == match *self {
                DeliveryDate::ByYear(y) => y,
                DeliveryDate::ByQuarter(y, _) => y,
                DeliveryDate::ByYearMonth(y, _) => y,
            },
    {
        match self {
            DeliveryDate::ByQuarter(y, _) => *y,
            DeliveryDate::ByYear(y) => *y,
            DeliveryDate::ByYearMonth(y, _) => *y,
        }
    }

    /// Returns the (optional) quarter component from this delivery date
    pub fn quarter(&self) -> (q: Option<Quarter>)
        ensures
            q == match *self {
                DeliveryDate::ByQuarter(_, q) => Some(q),
                _ => None,
            },
    {
        match self {
            DeliveryDate::ByQuarter(_, q) => Some(*q),
            DeliveryDate::ByYear(_) => None,
            DeliveryDate::ByYearMonth(_, _) => None,
        }
    }

    /// Returns the (optional) month component from this delivery date
    pub fn month(&self) -> (m: Option<Month>)
        ensures
            m == match *self {
                DeliveryDate::ByYearMonth(_, m) => Some(m),
                _ => None,
            },
    {
        match self {
            DeliveryDate::ByQuarter(_, _) => None,
            DeliveryDate::ByYear(_) => None,
            DeliveryDate::ByYearMonth(_, m) => Some(*m),
        }
    }

    fn year_from_chars(v: &Vec<char>) -> (r: Result<Year, DeliveryDateParseError>)
        ensures
            r == match year_of(v@) {
                Some(y) => Ok(y),
                None => Err(DeliveryDateParseError::InvalidYearValue),
            },
    {
        let n = v.len();
        if n > 0 && v[0] == '-' {
            // a negative year is never in range
            return Err(DeliveryDateParseError::InvalidYearValue);
        }
        let start: usize = if n > 0 && v[0] == '+' { 1 } else { 0 };
        let ghost digits = v@.subrange(start as int, n as int);
        assert(start == 1 ==> digits =~= v@.drop_first());
        assert(start == 0 ==> digits =~= v@);
        match digits_at_most(v, start, n, 2999) {
            Some(year) => {
                if year >= 1900 {
                    Ok(year as Year)
                } else {
                    Err(DeliveryDateParseError::InvalidYearValue)
                }
            },
            None => Err(DeliveryDateParseError::InvalidYearValue),
        }
    }

    fn quarter_from_chars(v: &Vec<char>) -> (r: Result<Quarter, DeliveryDateParseError>)
        ensures
            r == match quarter_of(v@) {
                Some(q) => Ok(q),
                None => Err(DeliveryDateParseError::InvalidQuarterValue),
            },
    {
        if v.len() != 2 {
            return Err(DeliveryDateParseError::InvalidQuarterValue);
        }
        let c = v[1];
        if v[0] < '\u{80}' && '1' <= c && c <= '4' {
            Ok(((c as u32) - ('0' as u32)) as Quarter)
        } else {
            Err(DeliveryDateParseError::InvalidQuarterValue)
        }
    }

    fn month_from_chars(v: &Vec<char>) -> (r: Result<Month, DeliveryDateParseError>)
        ensures
            r == match month_of(v@) {
                Some(m) => Ok(m),
                None => Err(DeliveryDateParseError::InvalidMonthValue),
            },
    {
        let n = v.len();
        if n != 1 && n != 2 {
            return Err(DeliveryDateParseError::InvalidMonthValue);
        }
        let start: usize = if v[0] == '+' { 1 } else { 0 };
        let ghost digits = v@.subrange(start as int, n as int);
        assert(start == 1 ==> digits =~= v@.drop_first());
        assert(start == 0 ==> digits =~= v@);
        match digits_at_most(v, start, n, 12) {
            Some(month) => {
                if month >= 1 {
                    Ok(month as Month)
                } else {
                    Err(DeliveryDateParseError::InvalidMonthValue)
                }
            },
            None => Err(DeliveryDateParseError::InvalidMonthValue),
        }
    }

    /// Parses the year component: a number between 1900 and 2999.
    pub fn parse_year(s: &str) -> (r: Result<Year, DeliveryDateParseError>)
        ensures
            r == match year_of(s@) {
                Some(y) => Ok(y),
                None => Err(DeliveryDateParseError::InvalidYearValue),
            },
    {
        DeliveryDate::year_from_chars(&chars_of(s))
    }

    /// Parses the quarter component (as in `Q3`): two bytes, the second one
    /// a digit between 1 and 4.
    pub fn parse_quarter(s: &str) -> (r: Result<Quarter, DeliveryDateParseError>)
        requires
            // a single character of two bytes cannot be cut after its first byte
            !(s@.len() == 1 && '\u{80}' <= s@[0] && s@[0] < '\u{800}'),
        ensures
            r == match quarter_of(s@) {
                Some(q) => Ok(q),
                None => Err(DeliveryDateParseError::InvalidQuarterValue),
            },
    {
        DeliveryDate::quarter_from_chars(&chars_of(s))
    }

    /// Parses the month component: one or two bytes that read as a number
    /// between 1 and 12.
    pub fn parse_month(s: &str) -> (r: Result<Month, DeliveryDateParseError>)
        ensures
            r == match month_of(s@) {
                Some(m) => Ok(m),
                None => Err(DeliveryDateParseError::InvalidMonthValue),
            },
    {
        DeliveryDate::month_from_chars(&chars_of(s))
    }

    /// Parses a delivery date: a year (`2022`), a year and a quarter
    /// (`2022/Q1`) or a year and a month (`2022/12`).
    pub fn parse(s: &str) -> (r: Result<DeliveryDate, DeliveryDateParseError>)
        ensures
            r == parse_delivery_date(s@),
    {
        let v = chars_of(s);
        if v.len() == 0 {
            return Err(DeliveryDateParseError::EmptyValue);
        }
        let by_quarter = contains_char_pair(&v, '/', 'Q');
        if by_quarter || contains_char(&v, '/') {
            let tokens = split_terminator_chars(&v, '/');
            if tokens.len() != 2 {
                return Err(DeliveryDateParseError::InvalidDeliveryDateFormat);
            }
            assert(tokens[0]@ == split_terminator(v@, '/')[0]);
            assert(tokens[1]@ == split_terminator(v@, '/')[1]);
            let year = DeliveryDate::year_from_chars(&tokens[0])?;
            if by_quarter {
                let quarter = DeliveryDate::quarter_from_chars(&tokens[1])?;
                Ok(DeliveryDate::ByQuarter(year, quarter))
            } else {
                let month = DeliveryDate::month_from_chars(&tokens[1])?;
                Ok(DeliveryDate::ByYearMonth(year, month))
            }
        } else {
            let year = DeliveryDate::year_from_chars(&v)?;
            Ok(DeliveryDate::ByYear(year))
        }
    }

    /// The text of this delivery date: `2022`, `2022/Q1` or `2022/03`.
    pub fn to_string(&self) -> (s: String)
        ensures
            s@ == delivery_date_text(*self),
    {
        let mut out: Vec<char> = Vec::new();
        let year = self.year();
        if year < 0 {
            out.push('-');
        }
        let magnitude: u64 = if year < 0 { (-(year as i64)) as u64 } else { year as u64 };
        push_decimal(&mut out, magnitude);
        match self {
            DeliveryDate::ByYear(_) => {},
            DeliveryDate::ByQuarter(_, q) => {
                out.push('/');
                out.push('Q');
                push_decimal(&mut out, *q as u64);
            },
            DeliveryDate::ByYearMonth(_, m) => {
                out.push('/');
                if *m < 10 {
                    out.push('0');
                }
                push_decimal(&mut out, *m as u64);
            },
        }
        assert(out@ =~= delivery_date_text(*self));
        string_of(&out)
    }
}

impl std::str::FromStr for DeliveryDate {
    type Err = DeliveryDateParseError;

    fn from_str(s: &str) -> (r: Result<Self, Self::Err>)
        ensures
            r == parse_delivery_date(s@),
    {
        DeliveryDate::parse(s)
    }
}

} // verus!
