//! Character level helpers shared by the parsers and formatters of this crate:
//! reading a string slice as characters, splitting on a separator, reading and
//! writing decimal integers.

use vstd::prelude::*;

verus! {

/// The error of parsing an enumeration value from a text that names none of its values.
#[derive(Debug, PartialEq, Eq, Clone, Copy, Structural)]
pub enum ParseError {
    /// the text names no value
    VariantNotFound,
}

// ---------------------------------------------------------------------------
// Models
// ---------------------------------------------------------------------------

/// `c` is one of the ASCII digits `0` to `9`.
pub open spec fn is_digit(c: char) -> bool {
    '0' <= c && c <= '9'
}

/// The value of the ASCII digit `c`.
pub open spec fn digit_value(c: char) -> nat {
    (c as int - '0' as int) as nat
}

/// The ASCII digit of a value below ten.
pub open spec fn digit_char(d: nat) -> char {
    (d + '0' as nat) as char
}

/// Every character of `s` is an ASCII digit.
pub open spec fn all_digits(s: Seq<char>) -> bool {
    forall|i: int| 0 <= i < s.len() ==> is_digit(#[trigger] s[i])
}

/// The number written in base ten by the digits of `s` (leading zeros allowed).
pub open spec fn digits_value(s: Seq<char>) -> nat
    decreases s.len(),
{
    if s.len() == 0 {
        0
    } else {
        digits_value(s.drop_last()) * 10 + digit_value(s.last())
    }
}

/// What the standard library reads from `s` as an unsigned integer, before
/// any bound of the target type: an optional `+` followed by one or more digits.
pub open spec fn unsigned_value(s: Seq<char>) -> Option<nat> {
    if s.len() > 0 && s[0] == '+' {
        let rest = s.drop_first();
        if rest.len() > 0 && all_digits(rest) {
            Some(digits_value(rest))
        } else {
            None
        }
    } else if s.len() > 0 && all_digits(s) {
        Some(digits_value(s))
    } else {
        None
    }
}

/// What the standard library reads from `s` as a signed integer, before any
/// bound of the target type: an optional `+` or `-` followed by one or more digits.
pub open spec fn signed_value(s: Seq<char>) -> Option<int> {
    if s.len() > 0 && s[0] == '-' {
        let rest = s.drop_first();
        if rest.len() > 0 && all_digits(rest) {
            Some(-(digits_value(rest) as int))
        } else {
            None
        }
    } else {
        match unsigned_value(s) {
            Some(v) => Some(v as int),
            None => None,
        }
    }
}

/// The pieces of `s` between the occurrences of `sep`, as `str::split` gives them.
pub open spec fn split_pieces(s: Seq<char>, sep: char) -> Seq<Seq<char>>
    decreases s.len(),
{
    if s.len() == 0 {
        seq![Seq::<char>::empty()]
    } else {
        let p = split_pieces(s.drop_last(), sep);
        if s.last() == sep {
            p.push(Seq::<char>::empty())
        } else {
            p.update(p.len() - 1, p.last().push(s.last()))
        }
    }
}

/// The pieces of `s` as `str::split_terminator` gives them: those of
/// `str::split`, without the last one when it is empty.
pub open spec fn split_terminator(s: Seq<char>, sep: char) -> Seq<Seq<char>> {
    let p = split_pieces(s, sep);
    if p.last().len() == 0 {
        p.drop_last()
    } else {
        p
    }
}

/// The base ten digits of `n`, without leading zeros (`0` for zero).
pub open spec fn decimal(n: nat) -> Seq<char>
    decreases n,
{
    if n < 10 {
        seq![digit_char(n)]
    } else {
        decimal(n / 10).push(digit_char(n % 10))
    }
}

/// The base ten representation of `v`, with a leading `-` when it is negative.
pub open spec fn signed_decimal(v: int) -> Seq<char> {
    if v < 0 {
        seq!['-'] + decimal((-v) as nat)
    } else {
        decimal(v as nat)
    }
}

/// The ASCII lower case of `c` (`char::to_ascii_lowercase`).
pub open spec fn ascii_lower(c: char) -> char {
    if 'A' <= c && c <= 'Z' {
        ((c as int) + 32) as char
    } else {
        c
    }
}

/// `a` and `b` are equal up to the case of ASCII letters (`str::eq_ignore_ascii_case`).
pub open spec fn eq_ignore_ascii_case(a: Seq<char>, b: Seq<char>) -> bool {
    a.len() == b.len() && forall|i: int| 0 <= i < a.len() ==> ascii_lower(#[trigger] a[i]) == ascii_lower(b[i])
}

// ---------------------------------------------------------------------------
// Lemmas
// ---------------------------------------------------------------------------

pub proof fn lemma_split_pieces_nonempty(s: Seq<char>, sep: char)
    ensures
        split_pieces(s, sep).len() >= 1,
    decreases s.len(),
{
    if s.len() > 0 {
        lemma_split_pieces_nonempty(s.drop_last(), sep);
    }
}

/// The digits of `n` are one or more digits that read as `n`.
pub proof fn lemma_decimal_digits(n: nat)
    ensures
        decimal(n).len() >= 1,
        all_digits(decimal(n)),
        digits_value(decimal(n)) == n,
    decreases n,
{
    let k = (n % 10) as nat;
    assert(digit_value(digit_char(k)) == k);
    assert(is_digit(digit_char(k)));
    if n >= 10 {
        lemma_decimal_digits(n / 10);
        let d = decimal(n / 10);
        assert(decimal(n).drop_last() =~= d);
        assert(decimal(n).last() == digit_char(k));
        assert(forall|i: int| 0 <= i < d.len() ==> decimal(n)[i] == d[i]);
        assert(n == (n / 10) * 10 + k);
        assert(digits_value(decimal(n)) == digits_value(d) * 10 + digit_value(digit_char(k)));
    } else {
        assert(decimal(n).drop_last() =~= Seq::<char>::empty());
        assert(decimal(n).last() == digit_char(n));
        assert(k == n);
        assert(digits_value(decimal(n)) == digits_value(Seq::<char>::empty()) * 10 + digit_value(digit_char(k)));
    }
}

/// A text without the separator is a single piece.
pub proof fn lemma_split_pieces_single(s: Seq<char>, sep: char)
    requires
        !s.contains(sep),
    ensures
        split_pieces(s, sep) == seq![s],
    decreases s.len(),
{
    if s.len() > 0 {
        assert(!s.drop_last().contains(sep)) by {
            if s.drop_last().contains(sep) {
                let i = choose|i: int| 0 <= i < s.drop_last().len() && s.drop_last()[i] == sep;
                assert(s[i] == sep);
            }
        }
        lemma_split_pieces_single(s.drop_last(), sep);
        assert(s.last() != sep) by {
            assert(s[s.len() - 1] == s.last());
        }
        assert(s.drop_last().push(s.last()) =~= s);
        assert(split_pieces(s, sep) =~= seq![s]);
    } else {
        assert(s =~= Seq::<char>::empty());
    }
}

/// Appending a text without the separator extends the last piece.
pub proof fn lemma_split_pieces_append(p: Seq<char>, b: Seq<char>, sep: char)
    requires
        !b.contains(sep),
    ensures
        split_pieces(p + b, sep) == split_pieces(p, sep).update(
            split_pieces(p, sep).len() - 1,
            split_pieces(p, sep).last() + b,
        ),
        split_pieces(p + b, sep).len() == split_pieces(p, sep).len(),
    decreases b.len(),
{
    lemma_split_pieces_nonempty(p, sep);
    if b.len() == 0 {
        assert(p + b =~= p);
        assert(split_pieces(p, sep).last() + b =~= split_pieces(p, sep).last());
        assert(split_pieces(p, sep).update(split_pieces(p, sep).len() - 1, split_pieces(p, sep).last())
            =~= split_pieces(p, sep));
    } else {
        let b0 = b.drop_last();
        assert(!b0.contains(sep)) by {
            if b0.contains(sep) {
                let i = choose|i: int| 0 <= i < b0.len() && b0[i] == sep;
                assert(b[i] == sep);
            }
        }
        lemma_split_pieces_append(p, b0, sep);
        assert((p + b).drop_last() =~= p + b0);
        assert((p + b).last() == b.last());
        assert(b.last() != sep) by {
            assert(b[b.len() - 1] == b.last());
        }
        assert((split_pieces(p, sep).last() + b0).push(b.last()) =~= split_pieces(p, sep).last() + b);
        assert(split_pieces(p + b, sep) =~= split_pieces(p, sep).update(
            split_pieces(p, sep).len() - 1,
            split_pieces(p, sep).last() + b,
        ));
    }
}

/// Two texts without the separator, joined by it, split into those two texts.
pub proof fn lemma_split_terminator_two(a: Seq<char>, b: Seq<char>, sep: char)
    requires
        !a.contains(sep),
        !b.contains(sep),
        b.len() > 0,
    ensures
        split_terminator(a + seq![sep] + b, sep) == seq![a, b],
{
    lemma_split_pieces_single(a, sep);
    let a1 = a + seq![sep];
    assert(a1.drop_last() =~= a);
    assert(a1.last() == sep);
    assert(split_pieces(a1, sep) == seq![a].push(Seq::<char>::empty()));
    lemma_split_pieces_append(a1, b, sep);
    assert(Seq::<char>::empty() + b =~= b);
    assert(split_pieces(a1 + b, sep) =~= seq![a, b]);
}

/// A text of digits has no character that is not a digit.
pub proof fn lemma_digits_lack(s: Seq<char>, c: char)
    requires
        all_digits(s),
        !is_digit(c),
    ensures
        !s.contains(c),
{
    if s.contains(c) {
        let i = choose|i: int| 0 <= i < s.len() && s[i] == c;
        assert(is_digit(s[i]));
    }
}

// ---------------------------------------------------------------------------
// Executable helpers
// ---------------------------------------------------------------------------

/// Returns the characters of `s`, in order.
pub fn chars_of(s: &str) -> (v: Vec<char>)
    ensures
        v@ == s@,
{
    let mut v: Vec<char> = Vec::new();
    for c in it: s.chars()
        invariant
            v@ == it.seq().take(it.index() as int),
            it.seq() == s@,
    {
        v.push(c);
    }
    v
}

/// Builds a `String` from its characters (`Iterator::collect` of the standard library).
#[verifier::external_body]
pub fn string_of(v: &Vec<char>) -> (s: String)
    ensures
        s@ == v@,
{
    v.iter().collect()
}

/// Builds a `String` from a slice of characters (`Iterator::collect` of the standard library).
#[verifier::external_body]
pub fn string_of_slice(v: &[char]) -> (s: String)
    ensures
        s@ == v@,
{
    v.iter().collect()
}

/// Copies the characters of `v` in `start..end`.
pub fn slice_chars(v: &Vec<char>, start: usize, end: usize) -> (r: Vec<char>)
    requires
        start <= end <= v@.len(),
    ensures
        r@ == v@.subrange(start as int, end as int),
{
    let mut r: Vec<char> = Vec::new();
    let mut i = start;
    while i < end
        invariant
            start <= i <= end <= v@.len(),
            r@ == v@.subrange(start as int, i as int),
        decreases end - i,
    {
        r.push(v[i]);
        i = i + 1;
        assert(r@ =~= v@.subrange(start as int, i as int));
    }
    r
}

/// Whether `c` occurs in `v`.
pub fn contains_char(v: &Vec<char>, c: char) -> (b: bool)
    ensures
        b == v@.contains(c),
{
    let mut i: usize = 0;
    while i < v.len()
        invariant
            i <= v@.len(),
            forall|j: int| 0 <= j < i ==> v@[j] != c,
        decreases v.len() - i,
    {
        if v[i] == c {
            assert(v@[i as int] == c);
            return true;
        }
        i = i + 1;
    }
    false
}

/// The characters of each vector of `vs`.
pub open spec fn views(vs: Seq<Vec<char>>) -> Seq<Seq<char>> {
    vs.map_values(|v: Vec<char>| v@)
}

/// Whether the pair `a` `b` occurs, in this order, at consecutive positions of `v`.
pub open spec fn contains_pair(s: Seq<char>, a: char, b: char) -> bool {
    exists|i: int| 0 <= i && i + 1 < s.len() && s[i] == a && #[trigger] s[i + 1] == b
}

/// Whether the pair `a` `b` occurs at consecutive positions of `v`.
pub fn contains_char_pair(v: &Vec<char>, a: char, b: char) -> (r: bool)
    ensures
        r == contains_pair(v@, a, b),
{
    let mut i: usize = 0;
    while i < v.len() && i + 1 < v.len()
        invariant
            i <= v@.len(),
            forall|j: int| 0 <= j && j + 1 < v@.len() && j < i ==> !(v@[j] == a && #[trigger] v@[j + 1] == b),
        decreases v.len() - i,
    {
        if v[i] == a && v[i + 1] == b {
            return true;
        }
        i = i + 1;
    }
    false
}

/// Splits `v` at every `sep`, as `str::split_terminator` does.
pub fn split_terminator_chars(v: &Vec<char>, sep: char) -> (r: Vec<Vec<char>>)
    ensures
        views(r@) == split_terminator(v@, sep),
{
    let mut done: Vec<Vec<char>> = Vec::new();
    let mut cur: Vec<char> = Vec::new();
    let mut i: usize = 0;
    while i < v.len()
        invariant
            i <= v@.len(),
            views(done@).push(cur@) == split_pieces(v@.take(i as int), sep),
        decreases v.len() - i,
    {
        let ghost before = v@.take(i as int);
        assert(v@.take(i as int + 1).drop_last() =~= before);
        if v[i] == sep {
            let ghost old_done = views(done@);
            done.push(cur);
            cur = Vec::new();
            assert(views(done@) =~= old_done.push(split_pieces(before, sep).last()));
            assert(views(done@).push(cur@) =~= split_pieces(before, sep).push(Seq::<char>::empty()));
        } else {
            cur.push(v[i]);
        }
        i = i + 1;
        proof {
            lemma_split_pieces_nonempty(before, sep);
        }
        assert(views(done@).push(cur@) =~= split_pieces(v@.take(i as int), sep));
    }
    assert(v@.take(v@.len() as int) =~= v@);
    if cur.len() == 0 {
        assert(views(done@) =~= split_pieces(v@, sep).drop_last());
        done
    } else {
        let ghost old_done = views(done@);
        done.push(cur);
        assert(views(done@) =~= old_done.push(cur@));
        done
    }
}

/// Reads the digits of `v` in `start..end` as a number, when they are one or
/// more ASCII digits whose value is at most `cap`; `None` otherwise.
pub fn digits_at_most(v: &Vec<char>, start: usize, end: usize, cap: u32) -> (r: Option<u32>)
    requires
        start <= end <= v@.len(),
        cap < 100_000_000,
    ensures
        ({
            let s = v@.subrange(start as int, end as int);
            r == if s.len() > 0 && all_digits(s) && digits_value(s) <= cap {
                Some(digits_value(s) as u32)
            } else {
                None::<u32>
            }
        }),
{
    let ghost s = v@.subrange(start as int, end as int);
    let mut value: u32 = 0;
    let mut too_big = false;
    let mut i = start;
    while i < end
        invariant
            start <= i <= end <= v@.len(),
            cap < 100_000_000,
            s == v@.subrange(start as int, end as int),
            all_digits(s.take(i - start)),
            too_big ==> digits_value(s.take(i - start)) > cap,
            !too_big ==> value == digits_value(s.take(i - start)) && value <= cap,
        decreases end - i,
    {
        let c = v[i];
        if !('0' <= c && c <= '9') {
            assert(s[i - start] == c);
            return None;
        }
        let ghost prefix = s.take(i - start);
        let ghost next = s.take(i - start + 1);
        assert(next.drop_last() =~= prefix);
        assert(next.last() == c);
        let d: u32 = (c as u32) - ('0' as u32);
        if !too_big {
            let wide: u64 = (value as u64) * 10 + (d as u64);
            assert(digits_value(next) == digits_value(prefix) * 10 + d);
            if wide > cap as u64 {
                too_big = true;
            } else {
                value = wide as u32;
            }
        } else {
            assert(digits_value(next) >= digits_value(prefix)) by (nonlinear_arith)
                requires
                    digits_value(next) == digits_value(prefix) * 10 + d,
            ;
        }
        assert(all_digits(next));
        i = i + 1;
    }
    assert(s.take(end - start) =~= s);
    if i == start || too_big {
        None
    } else {
        Some(value)
    }
}

/// Whether `v` holds exactly the characters of `w`.
pub fn chars_equal(v: &Vec<char>, w: &[char]) -> (b: bool)
    ensures
        b == (v@ == w@),
{
    if v.len() != w.len() {
        return false;
    }
    let mut i: usize = 0;
    while i < v.len()
        invariant
            i <= v@.len(),
            v@.len() == w@.len(),
            forall|j: int| 0 <= j < i ==> v@[j] == w@[j],
        decreases v.len() - i,
    {
        if v[i] != w[i] {
            return false;
        }
        i = i + 1;
    }
    assert(v@ =~= w@);
    true
}

/// The ASCII lower case of `c`.
pub fn to_ascii_lower(c: char) -> (r: char)
    ensures
        r == ascii_lower(c),
{
    if 'A' <= c && c <= 'Z' {
        let code: u32 = (c as u32) + 32;
        // the letters `a` to `z`
        match code {
            97 => 'a', 98 => 'b', 99 => 'c', 100 => 'd', 101 => 'e', 102 => 'f', 103 => 'g',
            104 => 'h', 105 => 'i', 106 => 'j', 107 => 'k', 108 => 'l', 109 => 'm', 110 => 'n',
            111 => 'o', 112 => 'p', 113 => 'q', 114 => 'r', 115 => 's', 116 => 't', 117 => 'u',
            118 => 'v', 119 => 'w', 120 => 'x', 121 => 'y', _ => 'z',
        }
    } else {
        c
    }
}

/// Whether `v` and `w` are equal up to the case of ASCII letters.
pub fn chars_equal_ignore_ascii_case(v: &Vec<char>, w: &[char]) -> (b: bool)
    ensures
        b == eq_ignore_ascii_case(v@, w@),
{
    if v.len() != w.len() {
        return false;
    }
    let mut i: usize = 0;
    while i < v.len()
        invariant
            i <= v@.len(),
            v@.len() == w@.len(),
            forall|j: int| 0 <= j < i ==> ascii_lower(#[trigger] v@[j]) == ascii_lower(w@[j]),
        decreases v.len() - i,
    {
        if to_ascii_lower(v[i]) != to_ascii_lower(w[i]) {
            return false;
        }
        i = i + 1;
    }
    true
}

/// Appends the base ten digits of `n` to `out`.
pub fn push_decimal(out: &mut Vec<char>, n: u64)
    ensures
        final(out)@ == old(out)@ + decimal(n as nat),
    decreases n,
{
    if n >= 10 {
        push_decimal(out, n / 10);
    }
    out.push(digit_to_char(n % 10));
}

/// The ASCII digit of a value below ten.
pub fn digit_to_char(d: u64) -> (c: char)
    requires
        d < 10,
    ensures
        c == digit_char(d as nat),
        is_digit(c),
{
    match d {
        0 => '0',
        1 => '1',
        2 => '2',
        3 => '3',
        4 => '4',
        5 => '5',
        6 => '6',
        7 => '7',
        8 => '8',
        _ => '9',
    }
}

} // verus!
