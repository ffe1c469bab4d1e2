//! The duration syntax of the command line ("30s", "10m", "8h") and the short
//! labels that name a duration in notifications.

use vstd::prelude::*;
use vstd::string::*;
use crate::text::{
    all_whitespace, decimal, decimal_string, is_digit, lemma_decimal_digits, lemma_parse_decimal,
    lemma_trim_unchanged, lemma_trim_ws_padding, parse_u64, parse_u64_spec, trim_whitespace, trim_ws,
};

verus! {

/// Milliseconds in one unit named by the suffix `c`.
pub open spec fn unit_ms(c: char) -> Option<u64> {
    if c == 'h' {
        Some(3_600_000)
    } else if c == 'm' {
        Some(60_000)
    } else if c == 's' {
        Some(1_000)
    } else {
        None
    }
}

/// `a * b` reduced modulo 2^64, as `u64::wrapping_mul` computes it.
pub open spec fn wrapped_product(a: u64, b: u64) -> u64 {
    ((a as nat * b as nat) % 0x1_0000_0000_0000_0000nat) as u64
}

pub open spec fn invalid_duration_message(t: Seq<char>) -> Seq<char> {
    "Invalid duration '"@ + t + "'. Use format like 1m, 10m, 1h, 8h"@
}

pub open spec fn invalid_number_message(t: Seq<char>) -> Seq<char> {
    "Invalid number in duration '"@ + t + "'"@
}

/// What `parse_duration` answers for the text `s`: the text is trimmed, its
/// last character names the unit, and what stands before it is the number of
/// units. The product wraps around at 2^64.
pub open spec fn duration_result(s: Seq<char>) -> Result<u64, Seq<char>> {
    let t = trim_ws(s);
    if t.len() == 0 || unit_ms(t.last()) is None {
        Err(invalid_duration_message(t))
    } else {
        match parse_u64_spec(t.drop_last()) {
            Some(n) => Ok(wrapped_product(n, unit_ms(t.last())->0)),
            None => Err(invalid_number_message(t)),
        }
    }
}

/// A `Result` with its error text taken by its view.
pub open spec fn result_view(r: Result<u64, String>) -> Result<u64, Seq<char>> {
    match r {
        Ok(v) => Ok(v),
        Err(e) => Err(e@),
    }
}

fn invalid_duration(t: &str) -> (r: String)
    ensures
        r@ == invalid_duration_message(t@),
{
    let mut r = String::from_str("Invalid duration '");
    r.append(t);
    r.append("'. Use format like 1m, 10m, 1h, 8h");
    r
}

fn invalid_number(t: &str) -> (r: String)
    ensures
        r@ == invalid_number_message(t@),
{
    let mut r = String::from_str("Invalid number in duration '");
    r.append(t);
    r.append("'");
    r
}

/// Parses a duration such as "1m", "10m", "1h", "8h" or "30s" into
/// milliseconds.
pub fn parse_duration(s: &str) -> (r: Result<u64, String>)
    ensures
        result_view(r) == duration_result(s@),
{
    let t = trim_whitespace(s);
    let n = t.unicode_len();
    if n == 0 {
        return Err(invalid_duration(t));
    }
    let last = t.get_char(n - 1);
    assert(t@.last() == last);
    let multiplier: u64 = if last == 'h' {
        3_600_000
    } else if last == 'm' {
        60_000
    } else if last == 's' {
        1_000
    } else {
        return Err(invalid_duration(t));
    };
    let num = t.substring_char(0, n - 1);
    assert(num@ =~= t@.drop_last());
    match parse_u64(num) {
        Some(v) => Ok(v.wrapping_mul(multiplier)),
        None => Err(invalid_number(t)),
    }
}

/// The unit in which `format_duration` writes `ms`, in milliseconds.
pub open spec fn label_unit_ms(ms: u64) -> u64 {
    let secs = ms / 1000;
    if secs < 60 {
        1_000
    } else if secs < 3600 {
        60_000
    } else {
        3_600_000
    }
}

/// The label of `ms`: whole seconds below a minute, whole minutes below an
/// hour, whole hours above.
pub open spec fn duration_label(ms: u64) -> Seq<char> {
    let secs = ms / 1000;
    if secs < 60 {
        decimal(secs as nat).push('s')
    } else if secs < 3600 {
        decimal((secs / 60) as nat).push('m')
    } else {
        decimal((secs / 3600) as nat).push('h')
    }
}

fn append_unit(r: &mut String, unit: &str)
    requires
        unit@.len() == 1,
    ensures
        final(r)@ == old(r)@.push(unit@[0]),
{
    r.append(unit);
    assert(final(r)@ =~= old(r)@.push(unit@[0]));
}

/// Names the duration `ms` shortly, e.g. "30s", "10m", "8h".
pub fn format_duration(ms: u64) -> (r: String)
    ensures
        r@ == duration_label(ms),
{
    proof {
        reveal_strlit("s");
        reveal_strlit("m");
        reveal_strlit("h");
    }
    let secs = ms / 1000;
    if secs < 60 {
        let mut r = decimal_string(secs);
        append_unit(&mut r, "s");
        r
    } else if secs < 3600 {
        let mut r = decimal_string(secs / 60);
        append_unit(&mut r, "m");
        r
    } else {
        let mut r = decimal_string(secs / 3600);
        append_unit(&mut r, "h");
        r
    }
}


/// A number written in decimal and followed by a unit suffix parses to that
/// many units, in milliseconds (wrapping at 2^64).
pub proof fn lemma_parse_rendered(n: u64, unit: char)
    requires
        unit_ms(unit) is Some,
    ensures
        duration_result(decimal(n as nat).push(unit)) == Ok::<u64, Seq<char>>(
            wrapped_product(n, unit_ms(unit)->0),
        ),
{
    let t = decimal(n as nat).push(unit);
    lemma_decimal_digits(n as nat);
    assert(t[0] == decimal(n as nat)[0]);
    assert(is_digit(decimal(n as nat)[0]));
    lemma_trim_unchanged(t);
    assert(t.drop_last() =~= decimal(n as nat));
    lemma_parse_decimal(n);
}

/// The label of a duration parses back to the duration, rounded down to the
/// unit that the label is written in; a whole number of that unit comes back
/// unchanged.
pub proof fn lemma_label_round_trip(ms: u64)
    ensures
        duration_result(duration_label(ms)) == Ok::<u64, Seq<char>>(
            ((ms / label_unit_ms(ms)) * label_unit_ms(ms)) as u64,
        ),
        ms % label_unit_ms(ms) == 0 ==> duration_result(duration_label(ms)) == Ok::<
            u64,
            Seq<char>,
        >(ms),
{
    let secs = ms / 1000;
    let u = label_unit_ms(ms);
    let k: u64 = if secs < 60 {
        secs
    } else if secs < 3600 {
        secs / 60
    } else {
        secs / 3600
    };
    let c: char = if secs < 60 {
        's'
    } else if secs < 3600 {
        'm'
    } else {
        'h'
    };
    assert(duration_label(ms) == decimal(k as nat).push(c));
    assert(unit_ms(c) == Some(u));
    assert(k == ms / u) by (nonlinear_arith)
        requires
            secs == ms / 1000,
            secs < 60 ==> k == secs && u == 1000,
            60 <= secs < 3600 ==> k == secs / 60 && u == 60000,
            3600 <= secs ==> k == secs / 3600 && u == 3600000,
    ;
    assert(k * u <= ms) by (nonlinear_arith)
        requires
            k == ms / u,
            u > 0,
    ;
    lemma_parse_rendered(k, c);
    assert(wrapped_product(k, u) == k * u) by (nonlinear_arith)
        requires
            k * u <= ms,
            ms <= u64::MAX,
    ;
    assert(ms % u == 0 ==> k * u == ms) by (nonlinear_arith)
        requires
            k == ms / u,
            u > 0,
    ;
}

/// Whitespace before or after a duration does not change what it parses
/// to, nor the message of a refusal.
pub proof fn lemma_padding_ignored(w1: Seq<char>, s: Seq<char>, w2: Seq<char>)
    requires
        all_whitespace(w1),
        all_whitespace(w2),
    ensures
        duration_result(w1 + s + w2) == duration_result(s),
{
    lemma_trim_ws_padding(w1, s, w2);
}

} // verus!
