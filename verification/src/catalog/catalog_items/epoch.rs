//! The rolling stock epoch.

use crate::text::{
    chars_of, chars_equal, contains_char, lemma_split_pieces_single, lemma_split_terminator_two, split_terminator, split_terminator_chars, string_of,
    views,
};
use itertools::Itertools;
use vstd::prelude::*;

verus! {

/// It represents a model railway epoch
///
/// # Description
///
/// The model railway industry adopted an _"Era"_, or _"Epoch"_ system; the idea being to group models
/// into a defined time bracket, so that locomotives, coaching and wagon stock could be reasonably
/// grouped together.
///
/// This enumeration respects the _European Epoch System_.
///
/// # European Epoch System
/// There are six main Epochs for European railways, although as with most time periods,
/// there is no hard and fast rule that every model must belong to a definitive era.
/// Each Epoch is preceded by a Roman Numeral to split them into six.
#[derive(Debug, PartialEq, Eq, PartialOrd, Ord)]
#[allow(non_snake_case)]
pub enum Epoch {
    /// _1848 – 1920_: was the definitive period for the birth of the European railway system.
    I,
    /// _1921 – 1948_: construction and operating regulations had unified to create more progressive
    /// railways and systems than ever before. Electric traction was introduced, culminating in
    /// electric locomotives.
    II,
    /// a subdivision of epoch II
    IIa,
    /// a subdivision of epoch II
    IIb,
    /// _1949 – 1970_: with Europe still recovering from the effects of the Second World War,
    /// this was a period of reinvention.
    III,
    /// a subdivision of epoch III
    IIIa,
    /// a subdivision of epoch III
    IIIb,
    /// a subdivision of epoch III
    IIIc,
    /// _1971 – 1990_: the traction system across Europe was looking very similar to what we use now.
    IV,
    /// a subdivision of epoch IV
    IVa,
    /// a subdivision of epoch IV
    IVb,
    /// _1991 – 2006_: this period was one of freeing up the railways. Liberalised access to the
    /// railway networks was put into action in the early 2000’s across a select few European countries.
    V,
    /// a subdivision of epoch V
    Va,
    /// a subdivision of epoch V
    Vb,
    /// a subdivision of epoch V
    Vm,
    /// _2007 – Present_: has been a time of building upon all of the progress that has been made
    /// over the last century.
    VI,
    /// two epochs, as in `IV/V`
    Multiple(Box<Epoch>, Box<Epoch>),
}

/// The epoch parsing errors
#[derive(Debug, PartialEq, Eq, Clone, Copy, Structural)]
pub enum EpochParseError {
    /// Epoch value cannot be blank
    BlankValue,
    /// Invalid number of elements for epoch values
    InvalidNumberOfValues,
    /// Invalid value for epoch
    InvalidValue,
}

/// The name of a single epoch, as in `IVa`.
pub open spec fn epoch_name(e: Epoch) -> Seq<char> {
    match e {
        Epoch::I => seq!['I'],
        Epoch::II => seq!['I', 'I'],
        Epoch::IIa => seq!['I', 'I', 'a'],
        Epoch::IIb => seq!['I', 'I', 'b'],
        Epoch::III => seq!['I', 'I', 'I'],
        Epoch::IIIa => seq!['I', 'I', 'I', 'a'],
        Epoch::IIIb => seq!['I', 'I', 'I', 'b'],
        Epoch::IIIc => seq!['I', 'I', 'I', 'c'],
        Epoch::IV => seq!['I', 'V'],
        Epoch::IVa => seq!['I', 'V', 'a'],
        Epoch::IVb => seq!['I', 'V', 'b'],
        Epoch::V => seq!['V'],
        Epoch::Va => seq!['V', 'a'],
        Epoch::Vb => seq!['V', 'b'],
        Epoch::Vm => seq!['V', 'm'],
        Epoch::VI => seq!['V', 'I'],
        Epoch::Multiple(_, _) => Seq::<char>::empty(),
    }
}

/// The single epoch named `s`, if any.
pub open spec fn epoch_of(s: Seq<char>) -> Option<Epoch> {
    if s == seq!['I'] {
        Some(Epoch::I)
    } else     if s == seq!['I', 'I'] {
        Some(Epoch::II)
    } else     if s == seq!['I', 'I', 'a'] {
        Some(Epoch::IIa)
    } else     if s == seq!['I', 'I', 'b'] {
        Some(Epoch::IIb)
    } else     if s == seq!['I', 'I', 'I'] {
        Some(Epoch::III)
    } else     if s == seq!['I', 'I', 'I', 'a'] {
        Some(Epoch::IIIa)
    } else     if s == seq!['I', 'I', 'I', 'b'] {
        Some(Epoch::IIIb)
    } else     if s == seq!['I', 'I', 'I', 'c'] {
        Some(Epoch::IIIc)
    } else     if s == seq!['I', 'V'] {
        Some(Epoch::IV)
    } else     if s == seq!['I', 'V', 'a'] {
        Some(Epoch::IVa)
    } else     if s == seq!['I', 'V', 'b'] {
        Some(Epoch::IVb)
    } else     if s == seq!['V'] {
        Some(Epoch::V)
    } else     if s == seq!['V', 'a'] {
        Some(Epoch::Va)
    } else     if s == seq!['V', 'b'] {
        Some(Epoch::Vb)
    } else     if s == seq!['V', 'm'] {
        Some(Epoch::Vm)
    } else     if s == seq!['V', 'I'] {
        Some(Epoch::VI)
    } else {
        None
    }
}

/// The text of an epoch: its name, or the two texts joined by `/`.
pub open spec fn epoch_text(e: Epoch) -> Seq<char>
    decreases e,
{
    match e {
        Epoch::Multiple(a, b) => epoch_text(*a) + seq!['/'] + epoch_text(*b),
        _ => epoch_name(e),
    }
}

/// `a` comes strictly before `b` in the lexicographic order of their characters.
pub open spec fn lex_less(a: Seq<char>, b: Seq<char>) -> bool {
    exists|k: int|
        0 <= k <= a.len() && k <= b.len() && a.take(k) == b.take(k) && (#[trigger] lex_step(a, b, k))
}

/// At position `k`, `a` ends while `b` goes on, or the character of `a` is the smaller one.
pub open spec fn lex_step(a: Seq<char>, b: Seq<char>, k: int) -> bool {
    (k == a.len() && k < b.len()) || (k < a.len() && k < b.len() && a[k] < b[k])
}

/// Every element of `s` comes strictly before the elements after it.
pub open spec fn strictly_ascending(s: Seq<Seq<char>>) -> bool {
    forall|i: int, j: int| 0 <= i < j < s.len() ==> lex_less(#[trigger] s[i], #[trigger] s[j])
}

/// `d` holds the distinct elements of `tokens`, in ascending order.
pub open spec fn sorted_distinct_of(d: Seq<Seq<char>>, tokens: Seq<Seq<char>>) -> bool {
    strictly_ascending(d) && d.to_set() == tokens.to_set()
}

/// No sequence comes strictly before itself.
pub proof fn lemma_lex_irreflexive(a: Seq<char>)
    ensures
        !lex_less(a, a),
{
    assert forall|k: int| !lex_step(a, a, k) by {}
}

/// Two sequences are never each strictly before the other.
pub proof fn lemma_lex_asymmetric(a: Seq<char>, b: Seq<char>)
    requires
        lex_less(a, b),
    ensures
        !lex_less(b, a),
{
    let k1 = choose|k: int|
        0 <= k <= a.len() && k <= b.len() && a.take(k) == b.take(k) && #[trigger] lex_step(a, b, k);
    if lex_less(b, a) {
        let k2 = choose|k: int|
            0 <= k <= b.len() && k <= a.len() && b.take(k) == a.take(k) && #[trigger] lex_step(b, a, k);
        if k1 < k2 {
            assert(a.take(k2)[k1] == b.take(k2)[k1]);
        } else if k2 < k1 {
            assert(a.take(k1)[k2] == b.take(k1)[k2]);
        }
    }
}

/// The distinct elements of a collection, in ascending order, are determined
/// by the collection: two such sequences with the same elements are equal.
pub proof fn lemma_sorted_distinct_unique(d1: Seq<Seq<char>>, d2: Seq<Seq<char>>)
    requires
        strictly_ascending(d1),
        strictly_ascending(d2),
        d1.to_set() == d2.to_set(),
    ensures
        d1 == d2,
    decreases d1.len(),
{
    broadcast use vstd::seq_lib::group_seq_properties;
    if d1.len() == 0 {
        if d2.len() > 0 {
            assert(d2.to_set().contains(d2[0]));
        }
        assert(d1 =~= d2);
    } else {
        if d2.len() == 0 {
            assert(d1.to_set().contains(d1[0]));
        }
        assert(d1.to_set().contains(d1[0]));
        assert(d2.contains(d1[0]));
        let j = choose|j: int| 0 <= j < d2.len() && d2[j] == d1[0];
        assert(d2.to_set().contains(d2[0]));
        assert(d1.contains(d2[0]));
        let i = choose|i: int| 0 <= i < d1.len() && d1[i] == d2[0];
        if i > 0 && j > 0 {
            assert(lex_less(d1[0], d1[i]));
            assert(lex_less(d2[0], d2[j]));
            lemma_lex_asymmetric(d1[0], d2[0]);
        }
        assert(d1[0] == d2[0]);
        let t1 = d1.drop_first();
        let t2 = d2.drop_first();
        assert forall|x: Seq<char>| t1.to_set().contains(x) implies t2.to_set().contains(x) by {
            assert(t1.contains(x));
            let k = choose|k: int| 0 <= k < t1.len() && t1[k] == x;
            assert(d1[k + 1] == x);
            assert(lex_less(d1[0], d1[k + 1]));
            lemma_lex_irreflexive(x);
            assert(d1.to_set().contains(x));
            assert(d2.contains(x));
            let m = choose|m: int| 0 <= m < d2.len() && d2[m] == x;
            assert(m > 0);
            assert(t2[m - 1] == x);
            assert(t2.contains(x));
        }
        assert forall|x: Seq<char>| t2.to_set().contains(x) implies t1.to_set().contains(x) by {
            assert(t2.contains(x));
            let k = choose|k: int| 0 <= k < t2.len() && t2[k] == x;
            assert(d2[k + 1] == x);
            assert(lex_less(d2[0], d2[k + 1]));
            lemma_lex_irreflexive(x);
            assert(d2.to_set().contains(x));
            assert(d1.contains(x));
            let m = choose|m: int| 0 <= m < d1.len() && d1[m] == x;
            assert(m > 0);
            assert(t1[m - 1] == x);
            assert(t1.contains(x));
        }
        assert(t1.to_set() =~= t2.to_set());
        assert(strictly_ascending(t1)) by {
            assert forall|a: int, b: int| 0 <= a < b < t1.len() implies lex_less(#[trigger] t1[a], #[trigger] t1[b]) by {
                assert(t1[a] == d1[a + 1] && t1[b] == d1[b + 1]);
            }
        }
        assert(strictly_ascending(t2)) by {
            assert forall|a: int, b: int| 0 <= a < b < t2.len() implies lex_less(#[trigger] t2[a], #[trigger] t2[b]) by {
                assert(t2[a] == d2[a + 1] && t2[b] == d2[b + 1]);
            }
        }
        lemma_sorted_distinct_unique(t1, t2);
        assert(d1 =~= d2);
    }
}

/// What `Epoch::parse_str` gives for `s`.
pub open spec fn parse_single_epoch(s: Seq<char>) -> Result<Epoch, EpochParseError> {
    match epoch_of(s) {
        Some(e) => Ok(e),
        None => Err(EpochParseError::InvalidValue),
    }
}

/// What an epoch string means, given `d`, the distinct `/`-separated values of
/// `s` in ascending order: one epoch, or two of them.
pub open spec fn parse_epoch(s: Seq<char>, d: Seq<Seq<char>>) -> Result<Epoch, EpochParseError> {
    if s.len() == 0 {
        Err(EpochParseError::BlankValue)
    } else if s.contains('/') {
        if d.len() == 2 {
            match (parse_single_epoch(d[0]), parse_single_epoch(d[1])) {
                (Err(e), _) => Err(e),
                (Ok(_), Err(e)) => Err(e),
                (Ok(a), Ok(b)) => Ok(Epoch::Multiple(Box::new(a), Box::new(b))),
            }
        } else {
            Err(EpochParseError::InvalidNumberOfValues)
        }
    } else {
        parse_single_epoch(s)
    }
}

/// A single epoch: not two of them.
pub open spec fn is_single_epoch(e: Epoch) -> bool {
    !(e is Multiple)
}

/// The name of a single epoch names that epoch, and has no `/`.
pub proof fn lemma_epoch_name(e: Epoch)
    requires
        is_single_epoch(e),
    ensures
        epoch_of(epoch_name(e)) == Some(e),
        !epoch_name(e).contains('/'),
        epoch_name(e).len() > 0,
{
    match e {
        Epoch::I => {},
        Epoch::II => {},
        Epoch::IIa => {},
        Epoch::IIb => {
            assert(epoch_name(Epoch::IIb)[2] != epoch_name(Epoch::IIa)[2]);
        },
        Epoch::III => {
            assert(epoch_name(Epoch::III)[2] != epoch_name(Epoch::IIa)[2]);
            assert(epoch_name(Epoch::III)[2] != epoch_name(Epoch::IIb)[2]);
        },
        Epoch::IIIa => {},
        Epoch::IIIb => {
            assert(epoch_name(Epoch::IIIb)[3] != epoch_name(Epoch::IIIa)[3]);
        },
        Epoch::IIIc => {
            assert(epoch_name(Epoch::IIIc)[3] != epoch_name(Epoch::IIIa)[3]);
            assert(epoch_name(Epoch::IIIc)[3] != epoch_name(Epoch::IIIb)[3]);
        },
        Epoch::IV => {
            assert(epoch_name(Epoch::IV)[1] != epoch_name(Epoch::II)[1]);
        },
        Epoch::IVa => {
            assert(epoch_name(Epoch::IVa)[1] != epoch_name(Epoch::IIa)[1]);
            assert(epoch_name(Epoch::IVa)[1] != epoch_name(Epoch::IIb)[1]);
            assert(epoch_name(Epoch::IVa)[1] != epoch_name(Epoch::III)[1]);
        },
        Epoch::IVb => {
            assert(epoch_name(Epoch::IVb)[1] != epoch_name(Epoch::IIa)[1]);
            assert(epoch_name(Epoch::IVb)[1] != epoch_name(Epoch::IIb)[1]);
            assert(epoch_name(Epoch::IVb)[1] != epoch_name(Epoch::III)[1]);
            assert(epoch_name(Epoch::IVb)[2] != epoch_name(Epoch::IVa)[2]);
        },
        Epoch::V => {
            assert(epoch_name(Epoch::V)[0] != epoch_name(Epoch::I)[0]);
        },
        Epoch::Va => {
            assert(epoch_name(Epoch::Va)[0] != epoch_name(Epoch::II)[0]);
            assert(epoch_name(Epoch::Va)[0] != epoch_name(Epoch::IV)[0]);
        },
        Epoch::Vb => {
            assert(epoch_name(Epoch::Vb)[0] != epoch_name(Epoch::II)[0]);
            assert(epoch_name(Epoch::Vb)[0] != epoch_name(Epoch::IV)[0]);
            assert(epoch_name(Epoch::Vb)[1] != epoch_name(Epoch::Va)[1]);
        },
        Epoch::Vm => {
            assert(epoch_name(Epoch::Vm)[0] != epoch_name(Epoch::II)[0]);
            assert(epoch_name(Epoch::Vm)[0] != epoch_name(Epoch::IV)[0]);
            assert(epoch_name(Epoch::Vm)[1] != epoch_name(Epoch::Va)[1]);
            assert(epoch_name(Epoch::Vm)[1] != epoch_name(Epoch::Vb)[1]);
        },
        Epoch::VI => {
            assert(epoch_name(Epoch::VI)[0] != epoch_name(Epoch::II)[0]);
            assert(epoch_name(Epoch::VI)[0] != epoch_name(Epoch::IV)[0]);
            assert(epoch_name(Epoch::VI)[1] != epoch_name(Epoch::Va)[1]);
            assert(epoch_name(Epoch::VI)[1] != epoch_name(Epoch::Vb)[1]);
            assert(epoch_name(Epoch::VI)[1] != epoch_name(Epoch::Vm)[1]);
        },
        Epoch::Multiple(_, _) => {},
    }
    if epoch_name(e).contains('/') {
        let i = choose|i: int| 0 <= i < epoch_name(e).len() && epoch_name(e)[i] == '/';
        assert(epoch_name(e)[i] == 'I' || epoch_name(e)[i] == 'V' || epoch_name(e)[i] == 'a' || epoch_name(e)[i] == 'b'
            || epoch_name(e)[i] == 'c' || epoch_name(e)[i] == 'm');
    }
}

/// The epoch that a name stands for has that name.
pub proof fn lemma_epoch_of_name(s: Seq<char>)
    requires
        epoch_of(s) is Some,
    ensures
        epoch_name(epoch_of(s)->0) == s,
        is_single_epoch(epoch_of(s)->0),
{
}

/// A text without `/` has a sorted distinct listing of its values: none for the
/// empty text, the text itself otherwise.
pub proof fn lemma_listing_without_separator(s: Seq<char>)
    requires
        !s.contains('/'),
    ensures
        exists|d: Seq<Seq<char>>| sorted_distinct_of(d, split_terminator(s, '/')),
{
    lemma_split_pieces_single(s, '/');
    if s.len() == 0 {
        let d = Seq::<Seq<char>>::empty();
        assert(split_terminator(s, '/') =~= d);
        assert(sorted_distinct_of(d, split_terminator(s, '/')));
    } else {
        let d = seq![s];
        assert(split_terminator(s, '/') == d);
        assert(sorted_distinct_of(d, split_terminator(s, '/')));
    }
}

/// The order of the two values of an epoch text does not matter: `a/b` and `b/a` have the
/// same distinct values, and read as the same epoch; where that is two epochs, the name of
/// the first comes before the name of the second.
pub proof fn lemma_epoch_values_unordered(a: Seq<char>, b: Seq<char>, d: Seq<Seq<char>>)
    requires
        a.len() > 0,
        b.len() > 0,
        !a.contains('/'),
        !b.contains('/'),
    ensures
        sorted_distinct_of(d, split_terminator(a + seq!['/'] + b, '/')) == sorted_distinct_of(
            d,
            split_terminator(b + seq!['/'] + a, '/'),
        ),
        parse_epoch(a + seq!['/'] + b, d) == parse_epoch(b + seq!['/'] + a, d),
        sorted_distinct_of(d, split_terminator(a + seq!['/'] + b, '/')) ==> (parse_epoch(
            a + seq!['/'] + b,
            d,
        ) matches Ok(Epoch::Multiple(x, y)) ==> lex_less(epoch_name(*x), epoch_name(*y))),
{
    let ab = a + seq!['/'] + b;
    let ba = b + seq!['/'] + a;
    lemma_split_terminator_two(a, b, '/');
    lemma_split_terminator_two(b, a, '/');
    assert(seq![a, b].to_set() =~= seq![b, a].to_set()) by {
        assert forall|x: Seq<char>| seq![a, b].to_set().contains(x) <==> seq![b, a].to_set().contains(x) by {
            if seq![a, b].contains(x) {
                let i = choose|i: int| 0 <= i < 2 && seq![a, b][i] == x;
                assert(seq![b, a][1 - i] == x);
            }
            if seq![b, a].contains(x) {
                let i = choose|i: int| 0 <= i < 2 && seq![b, a][i] == x;
                assert(seq![a, b][1 - i] == x);
            }
        }
    }
    assert(ab[a.len() as int] == '/');
    assert(ba[b.len() as int] == '/');
    assert(ab.contains('/'));
    assert(ba.contains('/'));
    if sorted_distinct_of(d, split_terminator(ab, '/')) {
        if parse_epoch(ab, d) matches Ok(Epoch::Multiple(x, y)) {
            assert(d.len() == 2);
            lemma_epoch_of_name(d[0]);
            lemma_epoch_of_name(d[1]);
            assert(lex_less(d[0], d[1]));
        }
    }
}

/// Parsing the text of a single epoch gives back the epoch; parsing the text of two
/// epochs whose names are in ascending order gives back the two epochs.
pub proof fn lemma_epoch_round_trip(e: Epoch, d: Seq<Seq<char>>)
    requires
        is_single_epoch(e) || (e matches Epoch::Multiple(a, b) && is_single_epoch(*a) && is_single_epoch(*b)
            && lex_less(epoch_name(*a), epoch_name(*b))),
        sorted_distinct_of(d, split_terminator(epoch_text(e), '/')),
    ensures
        parse_epoch(epoch_text(e), d) == Ok::<Epoch, EpochParseError>(e),
{
    match e {
        Epoch::Multiple(a, b) => {
            lemma_epoch_name(*a);
            lemma_epoch_name(*b);
            let na = epoch_name(*a);
            let nb = epoch_name(*b);
            let t = epoch_text(e);
            assert(epoch_text(*a) == na);
            assert(epoch_text(*b) == nb);
            assert(t == na + seq!['/'] + nb);
            assert(t[na.len() as int] == '/');
            assert(t.contains('/'));
            lemma_split_terminator_two(na, nb, '/');
            let two = seq![na, nb];
            assert(strictly_ascending(two)) by {
                assert forall|i: int, j: int| 0 <= i < j < two.len() implies lex_less(#[trigger] two[i], #[trigger] two[j]) by {
                    assert(i == 0 && j == 1);
                }
            }
            lemma_sorted_distinct_unique(d, two);
            assert(Box::new(*a) == a);
        },
        _ => {
            lemma_epoch_name(e);
            assert(epoch_text(e) == epoch_name(e));
        },
    }
}

/// The distinct items of `items` in ascending order (`Itertools::sorted` then
/// `Itertools::dedup`): the sort orders vectors of characters lexicographically,
/// and the removal of consecutive duplicates leaves each item once.
#[verifier::external_body]
fn sorted_distinct(items: Vec<Vec<char>>) -> (r: Vec<Vec<char>>)
    ensures
        sorted_distinct_of(views(r@), views(items@)),
{
    items.into_iter().sorted().dedup().collect()
}

impl Clone for Epoch {
    fn clone(&self) -> (r: Self)
        ensures
            r == *self,
        decreases self,
    {
        match self {
            Epoch::Multiple(a, b) => {
                let a2 = (**a).clone();
                let b2 = (**b).clone();
                Epoch::Multiple(Box::new(a2), Box::new(b2))
            },
            Epoch::I => Epoch::I,
            Epoch::II => Epoch::II,
            Epoch::IIa => Epoch::IIa,
            Epoch::IIb => Epoch::IIb,
            Epoch::III => Epoch::III,
            Epoch::IIIa => Epoch::IIIa,
            Epoch::IIIb => Epoch::IIIb,
            Epoch::IIIc => Epoch::IIIc,
            Epoch::IV => Epoch::IV,
            Epoch::IVa => Epoch::IVa,
            Epoch::IVb => Epoch::IVb,
            Epoch::V => Epoch::V,
            Epoch::Va => Epoch::Va,
            Epoch::Vb => Epoch::Vb,
            Epoch::Vm => Epoch::Vm,
            Epoch::VI => Epoch::VI,
        }
    }
}

impl Epoch {
    fn single_from_chars(v: &Vec<char>) -> (r: Result<Epoch, EpochParseError>)
        ensures
            r == parse_single_epoch(v@),
    {
        let w: &[char] = &['I'];
        assert(w@ =~= seq!['I']);
        if chars_equal(v, w) {
            return Ok(Epoch::I);
        }
        let w: &[char] = &['I', 'I'];
        assert(w@ =~= seq!['I', 'I']);
        if chars_equal(v, w) {
            return Ok(Epoch::II);
        }
        let w: &[char] = &['I', 'I', 'a'];
        assert(w@ =~= seq!['I', 'I', 'a']);
        if chars_equal(v, w) {
            return Ok(Epoch::IIa);
        }
        let w: &[char] = &['I', 'I', 'b'];
        assert(w@ =~= seq!['I', 'I', 'b']);
        if chars_equal(v, w) {
            return Ok(Epoch::IIb);
        }
        let w: &[char] = &['I', 'I', 'I'];
        assert(w@ =~= seq!['I', 'I', 'I']);
        if chars_equal(v, w) {
            return Ok(Epoch::III);
        }
        let w: &[char] = &['I', 'I', 'I', 'a'];
        assert(w@ =~= seq!['I', 'I', 'I', 'a']);
        if chars_equal(v, w) {
            return Ok(Epoch::IIIa);
        }
        let w: &[char] = &['I', 'I', 'I', 'b'];
        assert(w@ =~= seq!['I', 'I', 'I', 'b']);
        if chars_equal(v, w) {
            return Ok(Epoch::IIIb);
        }
        let w: &[char] = &['I', 'I', 'I', 'c'];
        assert(w@ =~= seq!['I', 'I', 'I', 'c']);
        if chars_equal(v, w) {
            return Ok(Epoch::IIIc);
        }
        let w: &[char] = &['I', 'V'];
        assert(w@ =~= seq!['I', 'V']);
        if chars_equal(v, w) {
            return Ok(Epoch::IV);
        }
        let w: &[char] = &['I', 'V', 'a'];
        assert(w@ =~= seq!['I', 'V', 'a']);
        if chars_equal(v, w) {
            return Ok(Epoch::IVa);
        }
        let w: &[char] = &['I', 'V', 'b'];
        assert(w@ =~= seq!['I', 'V', 'b']);
        if chars_equal(v, w) {
            return Ok(Epoch::IVb);
        }
        let w: &[char] = &['V'];
        assert(w@ =~= seq!['V']);
        if chars_equal(v, w) {
            return Ok(Epoch::V);
        }
        let w: &[char] = &['V', 'a'];
        assert(w@ =~= seq!['V', 'a']);
        if chars_equal(v, w) {
            return Ok(Epoch::Va);
        }
        let w: &[char] = &['V', 'b'];
        assert(w@ =~= seq!['V', 'b']);
        if chars_equal(v, w) {
            return Ok(Epoch::Vb);
        }
        let w: &[char] = &['V', 'm'];
        assert(w@ =~= seq!['V', 'm']);
        if chars_equal(v, w) {
            return Ok(Epoch::Vm);
        }
        let w: &[char] = &['V', 'I'];
        assert(w@ =~= seq!['V', 'I']);
        if chars_equal(v, w) {
            return Ok(Epoch::VI);
        }
        Err(EpochParseError::InvalidValue)
    }

    fn push_text(&self, out: &mut Vec<char>)
        ensures
            final(out)@ == old(out)@ + epoch_text(*self),
        decreases self,
    {
        match self {
            Epoch::Multiple(a, b) => {
                a.push_text(out);
                out.push('/');
                b.push_text(out);
            },
            Epoch::I => {
                out.push('I');
            },
            Epoch::II => {
                out.push('I');
                out.push('I');
            },
            Epoch::IIa => {
                out.push('I');
                out.push('I');
                out.push('a');
            },
            Epoch::IIb => {
                out.push('I');
                out.push('I');
                out.push('b');
            },
            Epoch::III => {
                out.push('I');
                out.push('I');
                out.push('I');
            },
            Epoch::IIIa => {
                out.push('I');
                out.push('I');
                out.push('I');
                out.push('a');
            },
            Epoch::IIIb => {
                out.push('I');
                out.push('I');
                out.push('I');
                out.push('b');
            },
            Epoch::IIIc => {
                out.push('I');
                out.push('I');
                out.push('I');
                out.push('c');
            },
            Epoch::IV => {
                out.push('I');
                out.push('V');
            },
            Epoch::IVa => {
                out.push('I');
                out.push('V');
                out.push('a');
            },
            Epoch::IVb => {
                out.push('I');
                out.push('V');
                out.push('b');
            },
            Epoch::V => {
                out.push('V');
            },
            Epoch::Va => {
                out.push('V');
                out.push('a');
            },
            Epoch::Vb => {
                out.push('V');
                out.push('b');
            },
            Epoch::Vm => {
                out.push('V');
                out.push('m');
            },
            Epoch::VI => {
                out.push('V');
                out.push('I');
            },
        }
        assert(final(out)@ =~= old(out)@ + epoch_text(*self));
    }

    /// The text of this epoch: its name (`IVa`), or the two epochs joined by
    /// `/` (`IV/V`).
    pub fn to_string(&self) -> (s: String)
        ensures
            s@ == epoch_text(*self),
    {
        let mut out: Vec<char> = Vec::new();
        self.push_text(&mut out);
        assert(out@ =~= epoch_text(*self));
        string_of(&out)
    }

    /// Parses the name of a single epoch, as in `IIIa`.
    pub fn parse_str(value: &str) -> (r: Result<Epoch, EpochParseError>)
        ensures
            r == parse_single_epoch(value@),
    {
        Epoch::single_from_chars(&chars_of(value))
    }

    /// Parses an epoch: a single one (`IV`), or two of them separated by `/`
    /// (`IV/V`); the two values may come in any order, and a value repeated
    /// counts once.
    pub fn parse(s: &str) -> (r: Result<Epoch, EpochParseError>)
        ensures
            exists|d: Seq<Seq<char>>| sorted_distinct_of(d, split_terminator(s@, '/')),
            forall|d: Seq<Seq<char>>|
                sorted_distinct_of(d, split_terminator(s@, '/')) ==> r == #[trigger] parse_epoch(s@, d),
    {
        let v = chars_of(s);
        if !contains_char(&v, '/') {
            proof {
                lemma_listing_without_separator(s@);
            }
        }
        if v.len() == 0 {
            return Err(EpochParseError::BlankValue);
        }
        if contains_char(&v, '/') {
            let tokens = split_terminator_chars(&v, '/');
            let distinct = sorted_distinct(tokens);
            proof {
                assert(sorted_distinct_of(views(distinct@), split_terminator(s@, '/')));
                assert forall|d: Seq<Seq<char>>|
                    sorted_distinct_of(d, split_terminator(s@, '/')) implies d == views(distinct@) by {
                    lemma_sorted_distinct_unique(d, views(distinct@));
                }
            }
            if distinct.len() == 2 {
                let first = Epoch::single_from_chars(&distinct[0])?;
                let second = Epoch::single_from_chars(&distinct[1])?;
                Ok(Epoch::Multiple(Box::new(first), Box::new(second)))
            } else {
                Err(EpochParseError::InvalidNumberOfValues)
            }
        } else {
            Epoch::single_from_chars(&v)
        }
    }
}

impl std::str::FromStr for Epoch {
    type Err = EpochParseError;

    fn from_str(s: &str) -> (r: Result<Self, Self::Err>)
        ensures
            exists|d: Seq<Seq<char>>| sorted_distinct_of(d, split_terminator(s@, '/')),
            forall|d: Seq<Seq<char>>|
                sorted_distinct_of(d, split_terminator(s@, '/')) ==> r == #[trigger] parse_epoch(s@, d),
    {
        Epoch::parse(s)
    }
}

} // verus!
