//! Parsing of reported-at times and track durations.
//!
//! Times are modeled as epoch second counts. Calendar parsing (RFC 3339 and
//! the `DD Mon YYYY HH:MM:SS` form) and the validity range of millisecond
//! timestamps are chrono's and stand behind trusted wrappers; the integer
//! heuristics around them are verified.

use vstd::prelude::*;

verus! {

use crate::json::JsonValue;
use crate::strutil::{spec_trim, spec_parse_i64, trim_chars, str_chars, parse_i64_chars,
    seq_starts_with};

/// Every timestamp the engine works with fits well inside chrono's
/// representable range of about 262,000 years around the epoch.
pub const MAX_TIMESTAMP_SECS: i64 = 10_000_000_000_000;

/// What `chrono::DateTime::parse_from_rfc3339` yields on a text, as epoch
/// seconds; `None` where the text is not an RFC 3339 date-time.
pub uninterp spec fn spec_rfc3339_secs(s: Seq<char>) -> Option<i64>;

/// Relies on chrono's `DateTime::parse_from_rfc3339` and `timestamp`: parses
/// an RFC 3339 date-time to epoch seconds. Any parsed value lies within
/// chrono's representable range.
#[verifier::external_body]
pub fn parse_rfc3339_secs(s: &str) -> (r: Option<i64>)
    ensures
        r == spec_rfc3339_secs(s@),
        r matches Some(t) ==> -MAX_TIMESTAMP_SECS <= t <= MAX_TIMESTAMP_SECS,
{
    chrono::DateTime::parse_from_rfc3339(s).ok().map(|d| d.timestamp())
}

/// What `chrono::DateTime::parse_from_str` with the format
/// `%d %b %Y %H:%M:%S` yields on a text, as epoch seconds.
pub uninterp spec fn spec_day_month_secs(s: Seq<char>) -> Option<i64>;

/// Relies on chrono's `DateTime::parse_from_str` with the fixed format
/// `%d %b %Y %H:%M:%S`, and `timestamp`. Any parsed value lies within
/// chrono's representable range.
#[verifier::external_body]
pub fn parse_day_month_secs(s: &str) -> (r: Option<i64>)
    ensures
        r == spec_day_month_secs(s@),
        r matches Some(t) ==> -MAX_TIMESTAMP_SECS <= t <= MAX_TIMESTAMP_SECS,
{
    chrono::DateTime::parse_from_str(s, "%d %b %Y %H:%M:%S").ok().map(|d| d.timestamp())
}

/// What `chrono::DateTime::from_timestamp_millis` followed by `timestamp`
/// yields: the millisecond count divided by 1000 rounding toward negative
/// infinity, or `None` outside chrono's representable range.
pub uninterp spec fn spec_epoch_millis_secs(ms: i64) -> Option<i64>;

/// Relies on chrono's `DateTime::from_timestamp_millis` and `timestamp`:
/// checks the millisecond count against chrono's representable range and
/// yields the epoch second count. Chrono documents the range as about
/// 262,000 years around the epoch, so any count within 8e15 milliseconds is
/// accepted.
#[verifier::external_body]
pub fn epoch_millis_secs(ms: i64) -> (r: Option<i64>)
    ensures
        r == spec_epoch_millis_secs(ms),
        r matches Some(t) ==> t == (ms as int) / 1000,
        r matches Some(t) ==> -MAX_TIMESTAMP_SECS <= t <= MAX_TIMESTAMP_SECS,
        -8_000_000_000_000_000 <= ms <= 8_000_000_000_000_000 ==> r is Some,
{
    chrono::DateTime::from_timestamp_millis(ms).map(|d| d.timestamp())
}

/// The millisecond reading of a bare epoch number: counts up to 1e11 in
/// magnitude are seconds and are scaled, larger ones are already milliseconds.
pub open spec fn spec_epoch_guess_millis(ts: i64) -> int {
    if ts > 100_000_000_000 || ts < -100_000_000_000 {
        ts as int
    } else {
        ts * 1000
    }
}

/// What parsing a reported-at text yields: RFC 3339 first, then the
/// `DD Mon YYYY HH:MM:SS` form, then a bare epoch number in seconds or
/// milliseconds.
pub open spec fn spec_parse_reported_at(s: Seq<char>) -> Option<i64> {
    if spec_rfc3339_secs(s) is Some {
        spec_rfc3339_secs(s)
    } else if spec_day_month_secs(s) is Some {
        spec_day_month_secs(s)
    } else {
        match spec_parse_i64(spec_trim(s)) {
            Some(ts) => spec_epoch_millis_secs(spec_epoch_guess_millis(ts) as i64),
            None => None,
        }
    }
}

/// Parses a reported-at value: RFC 3339, then `DD Mon YYYY HH:MM:SS`, then
/// integer epoch (seconds when the magnitude is at most 1e11, else
/// milliseconds), to epoch seconds.
pub fn parse_reported_at(value: &str) -> (r: Option<i64>)
    ensures
        r == spec_parse_reported_at(value@),
        r matches Some(t) ==> -MAX_TIMESTAMP_SECS <= t <= MAX_TIMESTAMP_SECS,
{
    let rfc = parse_rfc3339_secs(value);
    if rfc.is_some() {
        return rfc;
    }
    let dmy = parse_day_month_secs(value);
    if dmy.is_some() {
        return dmy;
    }
    let chars = str_chars(value);
    let trimmed = trim_chars(&chars);
    match parse_i64_chars(&trimmed) {
        Some(ts) => {
            let millis: i64 = if ts > 100_000_000_000i64 || ts < -100_000_000_000i64 {
                ts
            } else {
                ts * 1000
            };
            epoch_millis_secs(millis)
        }
        None => None,
    }
}

/// The clamp of a mathematical integer into the range of `i64`, the value
/// `i64` saturating arithmetic produces.
pub open spec fn spec_sat64(x: int) -> i64 {
    if x > i64::MAX {
        i64::MAX
    } else if x < i64::MIN {
        i64::MIN
    } else {
        x as i64
    }
}

/// Saturating addition on `i64`.
pub fn sat_add64(a: i64, b: i64) -> (r: i64)
    ensures
        r == spec_sat64(a + b),
{
    match a.checked_add(b) {
        Some(v) => v,
        None => {
            if b > 0 {
                i64::MAX
            } else {
                i64::MIN
            }
        }
    }
}

/// Saturating multiplication on `i64`, for a non-negative right factor.
pub fn sat_mul64(a: i64, b: i64) -> (r: i64)
    requires
        b >= 1,
    ensures
        r == spec_sat64(a * b),
{
    match a.checked_mul(b) {
        Some(v) => v,
        None => {
            proof {
                assert(a > 0 ==> a * b >= a) by (nonlinear_arith)
                    requires
                        b >= 1,
                ;
                assert(a == 0 ==> a * b == 0) by (nonlinear_arith);
                assert(a < 0 ==> a * b <= a) by (nonlinear_arith)
                    requires
                        b >= 1,
                ;
            }
            if a > 0 {
                i64::MAX
            } else {
                i64::MIN
            }
        }
    }
}

/// The multiplier for one ISO-8601 duration unit letter.
pub open spec fn spec_iso_unit_factor(c: char) -> i64 {
    if c == 'H' {
        3600
    } else if c == 'M' {
        60
    } else {
        1
    }
}

/// The first position of a unit letter (`H`, `M` or `S`) in `s`.
pub open spec fn spec_first_unit_idx(s: Seq<char>) -> Option<int>
    decreases s.len(),
{
    if s.len() == 0 {
        None
    } else if s[0] == 'H' || s[0] == 'M' || s[0] == 'S' {
        Some(0)
    } else {
        match spec_first_unit_idx(s.drop_first()) {
            Some(i) => Some(i + 1),
            None => None,
        }
    }
}

/// Folds the remaining `number unit` groups of an ISO-8601 duration into
/// `total` seconds, with saturating arithmetic.
pub open spec fn spec_iso_tail(rest: Seq<char>, total: i64) -> Option<i64>
    decreases rest.len(),
    via spec_iso_tail_dec
{
    if rest.len() == 0 {
        Some(total)
    } else {
        match spec_first_unit_idx(rest) {
            None => None,
            Some(idx) => match spec_parse_i64(rest.take(idx)) {
                None => None,
                Some(num) => spec_iso_tail(
                    rest.skip(idx + 1),
                    spec_sat64(total + spec_sat64(num * spec_iso_unit_factor(rest[idx]))),
                ),
            },
        }
    }
}

/// Any found unit position lies inside the sequence.
proof fn lemma_first_unit_range(s: Seq<char>)
    ensures
        spec_first_unit_idx(s) matches Some(i) ==> 0 <= i < s.len(),
    decreases s.len(),
{
    if s.len() > 0 && !(s[0] == 'H' || s[0] == 'M' || s[0] == 'S') {
        lemma_first_unit_range(s.drop_first());
    }
}

#[via_fn]
proof fn spec_iso_tail_dec(rest: Seq<char>, total: i64) {
    lemma_first_unit_range(rest);
}

/// What parsing a `PT...` ISO-8601 duration yields, in seconds: the `PT`
/// prefix stripped, then hour, minute and second groups summed.
pub open spec fn spec_iso8601_secs(s: Seq<char>) -> Option<i64> {
    if seq_starts_with(s, seq!['P', 'T']) {
        spec_iso_tail(s.skip(2), 0)
    } else {
        None
    }
}

/// Parses a minimal ISO-8601 duration of the shape `PT#H#M#S` to total
/// seconds, with saturating arithmetic on the components.
pub fn parse_iso8601_duration_seconds(value: &Vec<char>) -> (r: Option<i64>)
    ensures
        r == spec_iso8601_secs(value@),
{
    if !(value.len() >= 2 && value[0] == 'P' && value[1] == 'T') {
        proof {
            if seq_starts_with(value@, seq!['P', 'T']) {
                assert(value@.take(2)[0] == 'P' && value@.take(2)[1] == 'T');
            }
        }
        return None;
    }
    proof {
        assert(value@.take(2) =~= seq!['P', 'T']);
    }
    let mut total: i64 = 0;
    let mut pos: usize = 2;
    while pos < value.len()
        invariant
            2 <= pos <= value@.len(),
            spec_iso8601_secs(value@) == spec_iso_tail(value@.skip(pos as int), total),
        decreases value@.len() - pos,
    {
        let ghost rest = value@.skip(pos as int);
        // find the next unit letter
        let mut k: usize = pos;
        while k < value.len() && !(value[k] == 'H' || value[k] == 'M' || value[k] == 'S')
            invariant
                pos <= k <= value@.len(),
                rest == value@.skip(pos as int),
                forall|j: int|
                    pos <= j < k ==> !(value@[j] == 'H' || value@[j] == 'M' || value@[j] == 'S'),
            decreases value@.len() - k,
        {
            k = k + 1;
        }
        if k == value.len() {
            proof {
                lemma_first_unit_none(rest, value@, pos as int);
            }
            return None;
        }
        proof {
            lemma_first_unit_at(rest, value@, pos as int, k as int);
        }
        let ghost idx = k - pos;
        let mut numchars: Vec<char> = Vec::new();
        let mut j: usize = pos;
        while j < k
            invariant
                pos <= j <= k <= value@.len(),
                rest == value@.skip(pos as int),
                numchars@ == rest.take(j - pos),
            decreases k - j,
        {
            numchars.push(value[j]);
            proof {
                assert(rest.take(j - pos).push(rest[j - pos]) =~= rest.take(j + 1 - pos));
                assert(rest[j - pos] == value@[j as int]);
            }
            j = j + 1;
        }
        let num = match parse_i64_chars(&numchars) {
            Some(n) => n,
            None => {
                return None;
            }
        };
        let unit = value[k];
        let factor: i64 = if unit == 'H' {
            3600
        } else if unit == 'M' {
            60
        } else {
            1
        };
        proof {
            assert(rest[idx] == value@[k as int]);
            assert(factor == spec_iso_unit_factor(rest[idx]));
        }
        let contribution = sat_mul64(num, factor);
        let new_total = sat_add64(total, contribution);
        proof {
            assert(rest.skip(idx + 1) =~= value@.skip(k as int + 1));
        }
        total = new_total;
        pos = k + 1;
    }
    proof {
        assert(value@.skip(pos as int) =~= Seq::<char>::empty());
    }
    Some(total)
}

/// If no unit letter stands in `value[pos..]`, the first-unit search over
/// that suffix fails.
proof fn lemma_first_unit_none(rest: Seq<char>, whole: Seq<char>, pos: int)
    requires
        0 <= pos <= whole.len(),
        rest == whole.skip(pos),
        forall|j: int| pos <= j < whole.len() ==> !(whole[j] == 'H' || whole[j] == 'M' || whole[j]
            == 'S'),
    ensures
        spec_first_unit_idx(rest) is None,
    decreases rest.len(),
{
    if rest.len() > 0 {
        assert(rest[0] == whole[pos]);
        assert(rest.drop_first() =~= whole.skip(pos + 1));
        lemma_first_unit_none(rest.drop_first(), whole, pos + 1);
    }
}

/// If `whole[k]` is the first unit letter at or after `pos`, the first-unit
/// search over the suffix at `pos` finds `k - pos`.
proof fn lemma_first_unit_at(rest: Seq<char>, whole: Seq<char>, pos: int, k: int)
    requires
        0 <= pos <= k < whole.len(),
        rest == whole.skip(pos),
        forall|j: int| pos <= j < k ==> !(whole[j] == 'H' || whole[j] == 'M' || whole[j] == 'S'),
        whole[k] == 'H' || whole[k] == 'M' || whole[k] == 'S',
    ensures
        spec_first_unit_idx(rest) == Some(k - pos),
    decreases rest.len(),
{
    assert(rest[0] == whole[pos]);
    if pos == k {
    } else {
        assert(rest.drop_first() =~= whole.skip(pos + 1));
        lemma_first_unit_at(rest.drop_first(), whole, pos + 1, k);
    }
}

/// The duration-normalization heuristic: a positive count over 1e9 is
/// nanoseconds, over 1e5 milliseconds, else seconds; non-positive counts are
/// rejected.
pub open spec fn spec_normalize_duration(raw: int) -> Option<i64> {
    if raw <= 0 {
        None
    } else {
        let seconds = if raw > 1_000_000_000 {
            raw / 1_000_000_000
        } else if raw > 100_000 {
            raw / 1000
        } else {
            raw
        };
        if seconds <= 0 {
            None
        } else {
            Some(seconds as i64)
        }
    }
}

/// Normalizes a raw duration number to seconds: huge counts are read as
/// nanoseconds, large ones as milliseconds, the rest as seconds.
pub fn normalize_duration_to_seconds(raw: i64) -> (r: Option<i64>)
    ensures
        r == spec_normalize_duration(raw as int),
        r matches Some(s) ==> 0 < s <= 10_000_000_000,
{
    if raw <= 0 {
        return None;
    }
    let seconds: i64 = if raw > 1_000_000_000 {
        ((raw as u64) / 1_000_000_000) as i64
    } else if raw > 100_000 {
        ((raw as u64) / 1000) as i64
    } else {
        raw
    };
    if seconds <= 0 {
        None
    } else {
        Some(seconds)
    }
}

/// What parsing a duration text yields: trimmed, empty rejected, `PT...`
/// read as ISO-8601, anything else as an integer put through normalization.
pub open spec fn spec_parse_duration_str(s: Seq<char>) -> Option<i64> {
    let t = spec_trim(s);
    if t.len() == 0 {
        None
    } else if seq_starts_with(t, seq!['P', 'T']) {
        spec_iso8601_secs(t)
    } else {
        match spec_parse_i64(t) {
            Some(n) => spec_normalize_duration(n as int),
            None => None,
        }
    }
}

/// Parses a duration from text: an ISO-8601 `PT...` form, or an integer in
/// seconds, milliseconds or nanoseconds.
pub fn parse_duration_seconds_str(value: &str) -> (r: Option<i64>)
    ensures
        r == spec_parse_duration_str(value@),
{
    let chars = str_chars(value);
    let t = trim_chars(&chars);
    if t.len() == 0 {
        return None;
    }
    if t.len() >= 2 && t[0] == 'P' && t[1] == 'T' {
        proof {
            assert(t@.take(2) =~= seq!['P', 'T']);
        }
        parse_iso8601_duration_seconds(&t)
    } else {
        proof {
            if seq_starts_with(t@, seq!['P', 'T']) {
                assert(t@.take(2)[0] == 'P' && t@.take(2)[1] == 'T');
            }
        }
        match parse_i64_chars(&t) {
            Some(n) => normalize_duration_to_seconds(n),
            None => None,
        }
    }
}

/// What parsing a duration leaf yields: numbers through normalization of
/// their integer reading, strings through the text parser.
pub open spec fn spec_parse_duration_value(v: JsonValue) -> Option<i64> {
    match v {
        JsonValue::Num(n) => spec_normalize_duration(n.value as int),
        JsonValue::Str(s) => spec_parse_duration_str(s@),
        _ => None,
    }
}

/// Parses a duration from a JSON leaf: a number (integral, or float rounded)
/// or a string.
pub fn parse_duration_seconds_value(value: &JsonValue) -> (r: Option<i64>)
    ensures
        r == spec_parse_duration_value(*value),
{
    match value {
        JsonValue::Num(n) => normalize_duration_to_seconds(n.value),
        JsonValue::Str(s) => parse_duration_seconds_str(s.as_str()),
        _ => None,
    }
}

} // verus!
