//! Validation errors, as the `validator` crate records them, and the checks on text lengths.

use std::borrow::Cow;
use crate::text::chars_of;
use validator::{ValidationError, ValidationErrors};
use vstd::prelude::*;

verus! {

/// A validation error of the `validator` crate: a code and named parameters.
#[verifier::external_type_specification]
#[verifier::external_body]
pub struct ExValidationError(validator::ValidationError);

/// The validation errors of the fields of a value, of the `validator` crate.
#[verifier::external_type_specification]
#[verifier::external_body]
pub struct ExValidationErrors(validator::ValidationErrors);

/// The code of a validation error.
pub uninterp spec fn error_code(e: ValidationError) -> Seq<char>;

/// The parameters of a validation error whose value is a number.
pub uninterp spec fn number_params(e: ValidationError) -> Map<Seq<char>, int>;

/// The parameters of a validation error whose value is a string.
pub uninterp spec fn text_params(e: ValidationError) -> Map<Seq<char>, Seq<char>>;

/// The entries of a collection of validation errors, by field: the errors of the field, in
/// the order they were added, or `None` for an entry that holds nested errors.
pub uninterp spec fn error_entries(errors: ValidationErrors) -> Map<Seq<char>, Option<Seq<ValidationError>>>;

/// No number parameter.
pub open spec fn no_numbers() -> Map<Seq<char>, int> {
    Map::empty()
}

/// No string parameter.
pub open spec fn no_texts() -> Map<Seq<char>, Seq<char>> {
    Map::empty()
}

/// No entry.
pub open spec fn no_entries() -> Map<Seq<char>, Option<Seq<ValidationError>>> {
    Map::empty()
}

/// Creates an error with `validator::ValidationError::new`: the code, no parameter.
#[verifier::external_body]
pub(crate) fn new_error(code: &'static str) -> (e: ValidationError)
    ensures
        error_code(e) == code@,
        number_params(e) == no_numbers(),
        text_params(e) == no_texts(),
{
    ValidationError::new(code)
}

/// Adds a number parameter with `validator::ValidationError::add_param`: the parameter
/// `name` is now that number, and no longer a string.
#[verifier::external_body]
pub(crate) fn add_number_param(e: &mut ValidationError, name: &'static str, value: u64)
    ensures
        error_code(*final(e)) == error_code(*old(e)),
        number_params(*final(e)) == number_params(*old(e)).insert(name@, value as int),
        text_params(*final(e)) == text_params(*old(e)).remove(name@),
{
    e.add_param(Cow::from(name), &value);
}

/// Adds a string parameter with `validator::ValidationError::add_param`: the parameter
/// `name` is now that string, and no longer a number.
#[verifier::external_body]
pub(crate) fn add_text_param(e: &mut ValidationError, name: &'static str, value: &String)
    ensures
        error_code(*final(e)) == error_code(*old(e)),
        number_params(*final(e)) == number_params(*old(e)).remove(name@),
        text_params(*final(e)) == text_params(*old(e)).insert(name@, value@),
{
    e.add_param(Cow::from(name), value);
}

/// Creates an empty collection with `validator::ValidationErrors::new`.
#[verifier::external_body]
pub(crate) fn new_errors() -> (r: ValidationErrors)
    ensures
        error_entries(r) == no_entries(),
{
    ValidationErrors::new()
}

/// The errors of an entry with `error` added.
pub open spec fn with_error(entry: Option<Option<Seq<ValidationError>>>, error: ValidationError) -> Seq<
    ValidationError,
> {
    match entry {
        Some(Some(errors)) => errors.push(error),
        _ => seq![error],
    }
}

/// Adds an error to a field with `validator::ValidationErrors::add`, which panics on an entry
/// of nested errors: the error is appended to the errors of the field.
#[verifier::external_body]
pub(crate) fn add_error(errors: &mut ValidationErrors, field: &'static str, error: ValidationError)
    requires
        !(error_entries(*old(errors)).contains_key(field@) && error_entries(*old(errors))[field@] is None),
    ensures
        error_entries(*final(errors)) == error_entries(*old(errors)).insert(
            field@,
            Some(with_error(error_entries(*old(errors)).get(field@), error)),
        ),
{
    errors.add(field, error);
}

/// Whether a collection has no entry, with `validator::ValidationErrors::is_empty`.
#[verifier::external_body]
pub(crate) fn no_errors(errors: &ValidationErrors) -> (r: bool)
    ensures
        r == (error_entries(*errors) == no_entries()),
{
    errors.is_empty()
}

/// A text has from `min` to `max` characters (`validator`'s length check on strings).
pub open spec fn length_between(s: Seq<char>, min: Option<u64>, max: Option<u64>) -> bool {
    &&& (min matches Some(m) ==> m <= s.len())
    &&& (max matches Some(m) ==> s.len() <= m)
}

/// The `length` error for a text outside its bounds: the bounds that are set and the text.
pub open spec fn is_length_error(e: ValidationError, s: Seq<char>, min: Option<u64>, max: Option<u64>) -> bool {
    &&& error_code(e) == seq!['l', 'e', 'n', 'g', 't', 'h']
    &&& number_params(e) == match (min, max) {
        (Some(a), Some(b)) => Map::<Seq<char>, int>::empty().insert(seq!['m', 'i', 'n'], a as int).insert(
            seq!['m', 'a', 'x'],
            b as int,
        ),
        (Some(a), None) => Map::<Seq<char>, int>::empty().insert(seq!['m', 'i', 'n'], a as int),
        (None, Some(b)) => Map::<Seq<char>, int>::empty().insert(seq!['m', 'a', 'x'], b as int),
        (None, None) => Map::<Seq<char>, int>::empty(),
    }
    &&& text_params(e) == Map::<Seq<char>, Seq<char>>::empty().insert(seq!['v', 'a', 'l', 'u', 'e'], s)
}

/// The entry that checking `value` against the bounds leaves for `field`: none where the
/// value is missing or within the bounds, else its single `length` error.
pub open spec fn length_checked(
    entries: Map<Seq<char>, Option<Seq<ValidationError>>>,
    field: Seq<char>,
    value: Option<Seq<char>>,
    min: Option<u64>,
    max: Option<u64>,
) -> bool {
    match value {
        Some(v) => if length_between(v, min, max) {
            !entries.contains_key(field)
        } else {
            entries.contains_key(field) && (entries[field] matches Some(es) && es.len() == 1 && is_length_error(
                es[0],
                v,
                min,
                max,
            ))
        },
        None => !entries.contains_key(field),
    }
}

/// Checks that a text has from `min` to `max` characters: `None` where it has, else the
/// `length` error with the bounds and the text.
pub fn check_length(value: &String, min: Option<u64>, max: Option<u64>) -> (r: Option<ValidationError>)
    ensures
        r is None <==> length_between(value@, min, max),
        r matches Some(e) ==> is_length_error(e, value@, min, max),
{
    let n = chars_of(value.as_str()).len();
    let mut ok = true;
    if let Some(m) = min {
        if (n as u64) < m {
            ok = false;
        }
    }
    if let Some(m) = max {
        if (n as u64) > m {
            ok = false;
        }
    }
    if ok {
        return None;
    }
    proof {
        reveal_strlit("length");
        reveal_strlit("min");
        reveal_strlit("max");
        reveal_strlit("value");
    }
    let ghost key_min = seq!['m', 'i', 'n'];
    let ghost key_max = seq!['m', 'a', 'x'];
    let ghost key_value = seq!['v', 'a', 'l', 'u', 'e'];
    assert("min"@ =~= key_min);
    assert("max"@ =~= key_max);
    assert("value"@ =~= key_value);
    assert("length"@ =~= seq!['l', 'e', 'n', 'g', 't', 'h']);
    let mut e = new_error("length");
    if let Some(m) = min {
        add_number_param(&mut e, "min", m);
        assert(text_params(e) =~= no_texts());
    }
    assert(text_params(e) =~= no_texts());
    if let Some(m) = max {
        add_number_param(&mut e, "max", m);
        assert(text_params(e) =~= no_texts());
    }
    let ghost numbers = number_params(e);
    add_text_param(&mut e, "value", value);
    assert(!numbers.contains_key(key_value));
    assert(number_params(e) =~= numbers);
    assert(text_params(e) =~= no_texts().insert(key_value, value@));
    Some(e)
}


/// A rule on the length of a text field: the name of the field, its text (`None` where the
/// field is absent, which the rule then lets pass), and the least and the greatest number
/// of characters, where set.
pub struct LengthRule<'a> {
    pub field: &'static str,
    pub value: Option<&'a String>,
    pub min: Option<u64>,
    pub max: Option<u64>,
}

/// A length rule as plain values: field name, text, least and greatest length.
pub open spec fn rule_view(r: LengthRule) -> (Seq<char>, Option<Seq<char>>, Option<u64>, Option<u64>) {
    (r.field@, match r.value {
        Some(s) => Some(s@),
        None => None,
    }, r.min, r.max)
}

/// Length rules as plain values.
pub open spec fn rule_views(rules: Seq<LengthRule>) -> Seq<(Seq<char>, Option<Seq<char>>, Option<u64>, Option<u64>)> {
    rules.map_values(|r: LengthRule| rule_view(r))
}

/// A rule holds: the field is absent, or its text has an allowed length.
pub open spec fn rule_holds(r: (Seq<char>, Option<Seq<char>>, Option<u64>, Option<u64>)) -> bool {
    r.1 matches Some(v) ==> length_between(v, r.2, r.3)
}

/// Every rule holds.
pub open spec fn rules_hold(rules: Seq<(Seq<char>, Option<Seq<char>>, Option<u64>, Option<u64>)>) -> bool {
    forall|i: int| 0 <= i < rules.len() ==> #[trigger] rule_holds(rules[i])
}

/// No two rules are on the same field.
pub open spec fn distinct_fields(rules: Seq<(Seq<char>, Option<Seq<char>>, Option<u64>, Option<u64>)>) -> bool {
    forall|i: int, j: int| 0 <= i < j < rules.len() ==> (#[trigger] rules[i]).0 != (#[trigger] rules[j]).0
}

/// The entries report the rules: each rule's field has its single `length` error where the
/// rule breaks and no entry where it holds, and no other field has an entry.
pub open spec fn rules_checked(
    entries: Map<Seq<char>, Option<Seq<ValidationError>>>,
    rules: Seq<(Seq<char>, Option<Seq<char>>, Option<u64>, Option<u64>)>,
) -> bool {
    &&& forall|i: int|
        0 <= i < rules.len() ==> #[trigger] length_checked(entries, rules[i].0, rules[i].1, rules[i].2, rules[i].3)
    &&& forall|f: Seq<char>|
        #[trigger] entries.contains_key(f) ==> exists|i: int| 0 <= i < rules.len() && #[trigger] rules[i].0 == f
}

/// Checks length rules on distinct fields: `Ok` where all hold, else the errors with a
/// `length` error for each field whose rule breaks, and no other entry.
pub fn check_lengths(rules: &Vec<LengthRule>) -> (r: Result<(), ValidationErrors>)
    requires
        distinct_fields(rule_views(rules@)),
    ensures
        r is Ok <==> rules_hold(rule_views(rules@)),
        r matches Err(es) ==> rules_checked(error_entries(es), rule_views(rules@)),
{
    let ghost all = rule_views(rules@);
    let mut errors = new_errors();
    let mut i: usize = 0;
    while i < rules.len()
        invariant
            0 <= i <= rules.len(),
            all == rule_views(rules@),
            all.len() == rules.len(),
            distinct_fields(all),
            rules_checked(error_entries(errors), all.take(i as int)),
            (error_entries(errors) == no_entries()) <==> rules_hold(all.take(i as int)),
        decreases rules.len() - i,
    {
        let ghost before = error_entries(errors);
        let rule = &rules[i];
        let ghost rv = all[i as int];
        assert(rv == rule_view(*rule));
        let ghost now = all.take(i as int);
        let ghost next = all.take(i as int + 1);
        assert(next == now.push(rv));
        let mut added = false;
        if let Some(value) = rule.value {
            if let Some(e) = check_length(value, rule.min, rule.max) {
                assert(!before.contains_key(rv.0)) by {
                    if before.contains_key(rv.0) {
                        let k = choose|k: int| 0 <= k < now.len() && #[trigger] now[k].0 == rv.0;
                        assert(all[k] == now[k]);
                        assert(all[k].0 != all[i as int].0);
                    }
                }
                add_error(&mut errors, rule.field, e);
                added = true;
                assert(error_entries(errors) == before.insert(rv.0, Some(seq![e])));
                assert(!error_entries(errors).dom().is_empty()) by {
                    assert(error_entries(errors).contains_key(rv.0));
                }
                assert(error_entries(errors) != no_entries()) by {
                    assert(error_entries(errors).contains_key(rv.0));
                    assert(!no_entries().contains_key(rv.0));
                }
                assert(!rules_hold(next)) by {
                    assert(!rule_holds(next[i as int]));
                }
            }
        }
        let ghost after = error_entries(errors);
        proof {
            if !added {
                assert(after == before);
                assert(rule_holds(rv));
                assert(rules_hold(next) == rules_hold(now)) by {
                    if rules_hold(now) {
                        assert forall|k: int| 0 <= k < next.len() implies #[trigger] rule_holds(next[k]) by {
                            if k < now.len() {
                                assert(next[k] == now[k]);
                            }
                        }
                    }
                    if rules_hold(next) {
                        assert forall|k: int| 0 <= k < now.len() implies #[trigger] rule_holds(now[k]) by {
                            assert(next[k] == now[k]);
                            assert(rule_holds(next[k]));
                        }
                    }
                }
            }
            assert forall|k: int| 0 <= k < next.len() implies #[trigger] length_checked(
                after,
                next[k].0,
                next[k].1,
                next[k].2,
                next[k].3,
            ) by {
                if k < now.len() {
                    assert(next[k] == now[k]);
                    assert(length_checked(before, now[k].0, now[k].1, now[k].2, now[k].3));
                    assert(all[k] == now[k]);
                    assert(all[k].0 != all[i as int].0);
                    assert(after.contains_key(now[k].0) == before.contains_key(now[k].0));
                    if before.contains_key(now[k].0) {
                        assert(after[now[k].0] == before[now[k].0]);
                    }
                } else {
                    assert(k == i);
                    assert(next[k] == rv);
                }
            }
            assert forall|f: Seq<char>| #[trigger] after.contains_key(f) implies exists|k: int|
                0 <= k < next.len() && #[trigger] next[k].0 == f by {
                if f == rv.0 {
                    assert(next[i as int].0 == f);
                } else {
                    assert(before.contains_key(f));
                    let k = choose|k: int| 0 <= k < now.len() && #[trigger] now[k].0 == f;
                    assert(next[k] == now[k]);
                }
            }
        }
        i += 1;
    }
    assert(all.take(rules.len() as int) == all);
    if no_errors(&errors) {
        Ok(())
    } else {
        Err(errors)
    }
}

} // verus!
