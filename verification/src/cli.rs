//! Settings taken from the command line.
//!
//! Each numeric option replaces the value it sets when it is given and reads
//! as a whole number; otherwise the value stays as it was.

use vstd::prelude::*;

use crate::disks_meter::DiskMonitoringConfig;

verus! {

/// A decimal digit.
pub open spec fn is_digit(c: char) -> bool {
    '0' <= c && c <= '9'
}

/// The number that a string of decimal digits writes.
pub open spec fn digits_value(digits: Seq<char>) -> nat
    decreases digits.len(),
{
    if digits.len() == 0 {
        0
    } else {
        digits_value(digits.drop_last()) * 10 + ((digits.last() as int) - ('0' as int)) as nat
    }
}

/// The text without the one `+` sign it may start with.
pub open spec fn unsigned_part(text: Seq<char>) -> Seq<char> {
    if text.len() > 0 && text[0] == '+' {
        text.drop_first()
    } else {
        text
    }
}

/// What reading the text as a `u64` gives: an optional `+` followed by at
/// least one digit and nothing else, of a value that fits.
pub open spec fn decimal_u64(text: Seq<char>) -> Option<u64> {
    let digits = unsigned_part(text);
    if digits.len() > 0 && (forall|i: int| 0 <= i < digits.len() ==> is_digit(#[trigger] digits[i]))
        && digits_value(digits) <= u64::MAX {
        Some(digits_value(digits) as u64)
    } else {
        None
    }
}

/// Calls `<u64 as FromStr>::from_str` and keeps the value.  Its
/// documentation: the string is an optional `+` sign followed by only
/// digits, and a value that does not fit is an error; this is what
/// `decimal_u64` states.
#[verifier::external_body]
fn parse_u64(text: &str) -> (value: Option<u64>)
    ensures
        value == decimal_u64(text@),
{
    text.parse::<u64>().ok()
}

/// The value an option sets: the number it reads as, or `current` when it
/// is absent or does not read as a number.
pub open spec fn option_value(given: Option<Seq<char>>, current: u64) -> u64 {
    match given {
        Some(text) => match decimal_u64(text) {
            Some(value) => value,
            None => current,
        },
        None => current,
    }
}

/// The view of an option's text.
pub open spec fn given_view(given: Option<&str>) -> Option<Seq<char>> {
    match given {
        Some(text) => Some(text@),
        None => None,
    }
}

/// The value an option sets: what it reads as, or `current`.
pub fn parsed_or(given: Option<&str>, current: u64) -> (value: u64)
    ensures
        value == option_value(given_view(given), current),
        given matches Some(text) ==> (decimal_u64(text@) matches Some(v) ==> value == v),
        given matches Some(text) ==> (decimal_u64(text@) is None ==> value == current),
        given is None ==> value == current,
{
    match given {
        Some(text) => match parse_u64(text) {
            Some(value) => value,
            None => current,
        },
        None => current,
    }
}

/// Applies the disk options: the seconds between passes, the number of
/// passes before the alarms grow loud and the number after which they stop.
pub fn apply_disk_settings(
    config: &mut DiskMonitoringConfig,
    sleep_time: Option<&str>,
    max_warnings: Option<&str>,
    upper_warnings: Option<&str>,
)
    ensures
        final(config).sleep_time == option_value(given_view(sleep_time), old(config).sleep_time),
        final(config).max_directives == option_value(
            given_view(max_warnings),
            old(config).max_directives,
        ),
        final(config).upper_max_directives == option_value(
            given_view(upper_warnings),
            old(config).upper_max_directives,
        ),
{
    config.sleep_time = parsed_or(sleep_time, config.sleep_time);
    config.max_directives = parsed_or(max_warnings, config.max_directives);
    config.upper_max_directives = parsed_or(upper_warnings, config.upper_max_directives);
}

/// Calls `<[T; N] as TryFrom<Vec<T>>>::try_from`.  As its documentation
/// says, the vector becomes the array when its length is `N`, and comes back
/// unchanged otherwise.
#[verifier::external_body]
fn vec_into_array<T, const N: usize>(items: Vec<T>) -> (result: Result<[T; N], Vec<T>>)
    ensures
        match result {
            Ok(array) => items@.len() == N && array@ == items@,
            Err(back) => items@.len() != N && back@ == items@,
        },
{
    items.try_into()
}

/// The items of a vector of length `N` as an array.
pub fn demo<T, const N: usize>(items: Vec<T>) -> (array: [T; N])
    requires
        items@.len() == N,
    ensures
        array@ == items@,
{
    match vec_into_array(items) {
        Ok(array) => array,
        Err(_) => vstd::pervasive::unreached(),
    }
}

/// An option whose text reads as the number `v` sets exactly `v`, whatever
/// the value was before; one that is absent or does not read as a number
/// keeps the value it had.
pub proof fn lemma_option_sets_its_number(text: Seq<char>, current: u64)
    ensures
        decimal_u64(text) matches Some(v) ==> option_value(Some(text), current) == v,
        decimal_u64(text) is None ==> option_value(Some(text), current) == current,
        option_value(None, current) == current,
{
}

/// A single decimal digit reads as its own value, and one leading `+` sign
/// changes nothing.
pub proof fn lemma_digit_and_sign(d: char, text: Seq<char>)
    requires
        is_digit(d),
        text.len() == 0 || text[0] != '+',
    ensures
        decimal_u64(seq![d]) == Some(((d as int) - ('0' as int)) as u64),
        decimal_u64(seq!['+'] + text) == decimal_u64(text),
{
    let one = seq![d];
    assert(one.drop_last() =~= Seq::<char>::empty());
    assert(one.last() == d);
    assert(digits_value(one.drop_last()) == 0);
    assert(digits_value(one) == (d as int) - ('0' as int));
    assert(unsigned_part(one) == one);
    assert(forall|i: int| 0 <= i < one.len() ==> is_digit(#[trigger] one[i]));
    assert((seq!['+'] + text).drop_first() =~= text);
    assert(unsigned_part(seq!['+'] + text) == text);
}

/// An option that is absent, or that is not a number, leaves the value as
/// it was; one that is a number sets it, whatever it was.
pub proof fn lemma_option_keeps_or_sets(given: Option<Seq<char>>, a: u64, b: u64)
    ensures
        given is None ==> option_value(given, a) == a,
        given matches Some(text) && decimal_u64(text) is None ==> option_value(given, a) == a,
        given matches Some(text) && decimal_u64(text) is Some ==> option_value(given, a)
            == option_value(given, b),
{
}

} // verus!
