//! Snooze times: the phrases `inbox snooze` accepts ("tonight", "tomorrow",
//! "next-week", "4h", "2d", "1w", or an ISO 8601 timestamp) and the instant
//! each one names.

use vstd::prelude::*;
use crate::chars::{chars_of, string_from_range, trim, trim_str};
use crate::clock::{
    checked_add_seconds, format_rfc3339, in_date_range, local_day_of, local_hour_instant,
    max_ce_day, max_delta_seconds, min_ce_day, naive_iso_instant, next_day, parse_naive_iso,
    parse_rfc3339, rfc3339_instant, rfc3339_text, try_days, try_hours, try_weeks, utc_now,
    timestamp_accepted, wall_seconds, weekday_of, LocalDay, UtcInstant,
};
use crate::fmt::{lowercase, str_eq, to_lowercase};

verus! {

/// Whether `c` is an ASCII digit.
pub open spec fn is_digit(c: char) -> bool {
    '0' <= c && c <= '9'
}

pub open spec fn digit_value(c: char) -> int {
    (c as u32) - ('0' as u32)
}

/// Whether every character of `s` is an ASCII digit.
pub open spec fn all_digits(s: Seq<char>) -> bool {
    forall|i: int| 0 <= i < s.len() ==> is_digit(#[trigger] s[i])
}

/// The number written by the digits `s`.
pub open spec fn digits_value(s: Seq<char>) -> int
    decreases s.len(),
{
    if s.len() == 0 {
        0
    } else {
        digits_value(s.drop_last()) * 10 + digit_value(s.last())
    }
}

/// What `str::parse::<i64>` gives for `s`: an optional `+` or `-`, then one
/// or more ASCII digits, whose value must fit in an `i64`.
pub open spec fn parsed_i64(s: Seq<char>) -> Option<i64> {
    let neg = s.len() > 0 && s[0] == '-';
    let signed = s.len() > 0 && (s[0] == '-' || s[0] == '+');
    let body = if signed {
        s.skip(1)
    } else {
        s
    };
    if body.len() == 0 || !all_digits(body) {
        None
    } else {
        let v = if neg {
            -digits_value(body)
        } else {
            digits_value(body)
        };
        if i64::MIN <= v <= i64::MAX {
            Some(v as i64)
        } else {
            None
        }
    }
}

proof fn lemma_digits_value_nonneg(s: Seq<char>)
    requires
        all_digits(s),
    ensures
        digits_value(s) >= 0,
    decreases s.len(),
{
    if s.len() > 0 {
        assert(all_digits(s.drop_last()));
        lemma_digits_value_nonneg(s.drop_last());
        assert(is_digit(s[s.len() - 1]));
    }
}

proof fn lemma_digits_value_grows(s: Seq<char>, k: int)
    requires
        all_digits(s),
        0 <= k <= s.len(),
    ensures
        digits_value(s.take(k)) <= digits_value(s),
    decreases s.len() - k,
{
    if k < s.len() {
        lemma_digits_value_grows(s, k + 1);
        let t = s.take(k + 1);
        assert(t.drop_last() =~= s.take(k));
        assert(all_digits(s.take(k)));
        lemma_digits_value_nonneg(s.take(k));
        assert(is_digit(t.last()));
    } else {
        assert(s.take(k) =~= s);
    }
}

/// Parses a decimal `i64` as `str::parse` does.
pub fn parse_i64(s: &str) -> (r: Option<i64>)
    ensures
        r == parsed_i64(s@),
{
    let v = chars_of(s);
    let n = v.len();
    let neg = n > 0 && v[0] == '-';
    let signed = n > 0 && (v[0] == '-' || v[0] == '+');
    let start: usize = if signed {
        1
    } else {
        0
    };
    let ghost body = if signed {
        v@.skip(1)
    } else {
        v@
    };
    assert(body =~= v@.subrange(start as int, n as int));
    if start == n {
        assert(body.len() == 0);
        return None;
    }
    // The magnitude read so far; reading stops growing it past `limit`.
    let limit: i128 = 9223372036854775808;
    let mut acc: i128 = 0;
    let mut big = false;
    let mut i = start;
    while i < n
        invariant
            start <= i <= n == v.len(),
            v@ == s@,
            body == (if s@.len() > 0 && (s@[0] == '-' || s@[0] == '+') {
                s@.skip(1)
            } else {
                s@
            }),
            body == v@.subrange(start as int, n as int),
            all_digits(body.take(i - start)),
            !big ==> acc == digits_value(body.take(i - start)),
            !big ==> 0 <= acc <= limit,
            big ==> digits_value(body.take(i - start)) > limit,
            limit == 9223372036854775808,
        decreases n - i,
    {
        let c = v[i];
        if !('0' <= c && c <= '9') {
            assert(body[i - start] == c);
            assert(!all_digits(body));
            return None;
        }
        let d = (c as u32 - '0' as u32) as i128;
        let ghost t = body.take(i + 1 - start);
        assert(t.drop_last() =~= body.take(i - start));
        assert(t.last() == c);
        assert(all_digits(t)) by {
            assert forall|j: int| 0 <= j < t.len() implies is_digit(#[trigger] t[j]) by {
                if j < t.len() - 1 {
                    assert(t[j] == body.take(i - start)[j]);
                }
            }
        }
        if !big {
            let next = acc * 10 + d;
            if next > limit {
                big = true;
            } else {
                acc = next;
            }
        } else {
            proof {
                lemma_digits_value_nonneg(body.take(i - start));
            }
        }
        i += 1;
    }
    assert(body.take(n - start) =~= body);
    if big {
        return None;
    }
    if neg {
        Some((-acc) as i64)
    } else if acc > 9223372036854775807 {
        None
    } else {
        Some(acc as i64)
    }
}

/// A snooze phrase, once recognized.
#[derive(Debug, Clone, Copy, PartialEq, Eq)]
pub enum WakeSpec {
    /// 7pm local time today.
    Tonight,
    /// 9am local time tomorrow.
    Tomorrow,
    /// 9am local time on the next Monday.
    NextWeek,
    /// That many hours from now.
    Hours(i64),
    /// That many days from now.
    Days(i64),
    /// That many weeks from now.
    Weeks(i64),
    /// Not a phrase: possibly a timestamp.
    Timestamp,
}

/// `s` without its last character, when that character is `c`.
pub open spec fn strip_suffix(s: Seq<char>, c: char) -> Option<Seq<char>> {
    if s.len() > 0 && s.last() == c {
        Some(s.drop_last())
    } else {
        None
    }
}

/// The phrase a trimmed, lowercased snooze string names.
pub open spec fn wake_spec_of(lowered: Seq<char>) -> WakeSpec {
    if lowered == "tonight"@ {
        WakeSpec::Tonight
    } else if lowered == "tomorrow"@ {
        WakeSpec::Tomorrow
    } else if lowered == "next-week"@ || lowered == "nextweek"@ {
        WakeSpec::NextWeek
    } else if strip_suffix(lowered, 'h') is Some && parsed_i64(
        strip_suffix(lowered, 'h')->0,
    ) is Some {
        WakeSpec::Hours(parsed_i64(strip_suffix(lowered, 'h')->0)->0)
    } else if strip_suffix(lowered, 'd') is Some && parsed_i64(
        strip_suffix(lowered, 'd')->0,
    ) is Some {
        WakeSpec::Days(parsed_i64(strip_suffix(lowered, 'd')->0)->0)
    } else if strip_suffix(lowered, 'w') is Some && parsed_i64(
        strip_suffix(lowered, 'w')->0,
    ) is Some {
        WakeSpec::Weeks(parsed_i64(strip_suffix(lowered, 'w')->0)->0)
    } else {
        WakeSpec::Timestamp
    }
}

/// The number before a one-letter unit suffix, if `s` is such a number.
fn number_before_suffix(v: &Vec<char>, unit: char) -> (r: Option<i64>)
    ensures
        r == (if strip_suffix(v@, unit) is Some {
            parsed_i64(strip_suffix(v@, unit)->0)
        } else {
            None
        }),
{
    let n = v.len();
    if n > 0 && v[n - 1] == unit {
        let head = string_from_range(v, 0, n - 1);
        assert(v@.subrange(0, n - 1) =~= v@.drop_last());
        parse_i64(head.as_str())
    } else {
        None
    }
}

/// Recognizes a snooze phrase in a trimmed, lowercased string.
pub fn parse_wake_spec(lowered: &str) -> (w: WakeSpec)
    ensures
        w == wake_spec_of(lowered@),
{
    if str_eq(lowered, "tonight") {
        return WakeSpec::Tonight;
    }
    if str_eq(lowered, "tomorrow") {
        return WakeSpec::Tomorrow;
    }
    if str_eq(lowered, "next-week") || str_eq(lowered, "nextweek") {
        return WakeSpec::NextWeek;
    }
    let v = chars_of(lowered);
    match number_before_suffix(&v, 'h') {
        Some(n) => {
            return WakeSpec::Hours(n);
        },
        None => {},
    }
    match number_before_suffix(&v, 'd') {
        Some(n) => {
            return WakeSpec::Days(n);
        },
        None => {},
    }
    match number_before_suffix(&v, 'w') {
        Some(n) => {
            return WakeSpec::Weeks(n);
        },
        None => {},
    }
    WakeSpec::Timestamp
}

/// Days from today until the next Monday (1 to 7), given today's weekday
/// counted from Monday (0) to Sunday (6).
pub open spec fn days_to_next_monday(weekday: int) -> int {
    7 - weekday
}

/// The local calendar day and hour at which a named phrase wakes: days ahead
/// of today, and the hour of that day.
pub open spec fn local_wake(spec: WakeSpec, weekday: int) -> (int, int) {
    match spec {
        WakeSpec::Tonight => (0, 19),
        WakeSpec::Tomorrow => (1, 9),
        _ => (days_to_next_monday(weekday), 9),
    }
}

/// Computes the day offset and hour of a phrase that names a local time.
pub fn local_wake_plan(spec: WakeSpec, weekday: u32) -> (r: (u32, u32))
    requires
        spec == WakeSpec::Tonight || spec == WakeSpec::Tomorrow || spec == WakeSpec::NextWeek,
        weekday < 7,
    ensures
        (r.0 as int, r.1 as int) == local_wake(spec, weekday as int),
        1 <= r.0 <= 7 || spec == WakeSpec::Tonight,
        r.1 < 24,
{
    match spec {
        WakeSpec::Tonight => (0, 19),
        WakeSpec::Tomorrow => (1, 9),
        _ => (7 - weekday, 9),
    }
}

/// Whether the day `k` days after a day of the given weekday is a Monday.
pub open spec fn lands_on_monday(weekday: int, k: int) -> bool {
    (weekday + k) % 7 == 0
}

/// The next-Monday offset lands on a Monday, and no Monday comes earlier.
pub proof fn next_week_is_the_next_monday(weekday: int)
    requires
        0 <= weekday < 7,
    ensures
        1 <= days_to_next_monday(weekday) <= 7,
        lands_on_monday(weekday, days_to_next_monday(weekday)),
        forall|k: int|
            1 <= k < days_to_next_monday(weekday) ==> !#[trigger] lands_on_monday(weekday, k),
{
}

/// Why a snooze time was refused.
#[derive(Debug, Clone, Copy, PartialEq, Eq)]
pub enum WakeError {
    /// Neither a phrase nor an ISO 8601 timestamp.
    Unrecognized,
    /// The local wall-clock time does not name one instant (a daylight
    /// saving gap or fold).
    AmbiguousLocalTime,
    /// The instant lies outside the range of dates.
    OutOfRange,
    /// The system clock reads a time before 1970.
    ClockUnavailable,
}

/// The form in which phrases are recognized: trimmed and lowercased.
pub open spec fn wake_phrase(raw: Seq<char>) -> Seq<char> {
    lowercase(trim(raw))
}

/// Whether a relative phrase moves further than a `TimeDelta` reaches.
pub open spec fn relative_too_far(spec: WakeSpec) -> bool {
    match spec {
        WakeSpec::Hours(n) => !(-max_delta_seconds() <= n * 3600 <= max_delta_seconds()),
        WakeSpec::Days(n) => !(-max_delta_seconds() <= n * 86400 <= max_delta_seconds()),
        WakeSpec::Weeks(n) => !(-max_delta_seconds() <= n * 604800 <= max_delta_seconds()),
        _ => false,
    }
}

/// The offset in seconds that a relative phrase names.
pub open spec fn relative_offset(spec: WakeSpec) -> int {
    match spec {
        WakeSpec::Hours(n) => n * 3600,
        WakeSpec::Days(n) => n * 86400,
        WakeSpec::Weeks(n) => n * 604800,
        _ => 0,
    }
}

/// The instant a relative phrase names from `now`: `now` moved by the
/// offset, refused as out of range when the offset is beyond a `TimeDelta`
/// or `now` or the sum is beyond the range of dates.
pub open spec fn relative_wake(now: UtcInstant, spec: WakeSpec) -> Result<UtcInstant, WakeError> {
    if relative_too_far(spec) {
        Err(WakeError::OutOfRange)
    } else if in_date_range(now.secs as int) && in_date_range(now.secs + relative_offset(spec)) {
        Ok(UtcInstant { secs: (now.secs + relative_offset(spec)) as i64, nanos: now.nanos })
    } else {
        Err(WakeError::OutOfRange)
    }
}

/// The offset in seconds of a relative phrase, when a `TimeDelta` reaches it.
fn relative_seconds(spec: WakeSpec) -> (r: Option<i64>)
    requires
        spec is Hours || spec is Days || spec is Weeks,
    ensures
        r is None <==> relative_too_far(spec),
        r matches Some(s) ==> s == relative_offset(spec) && -max_delta_seconds() <= s
            <= max_delta_seconds(),
{
    match spec {
        WakeSpec::Hours(n) => try_hours(n),
        WakeSpec::Days(n) => try_days(n),
        WakeSpec::Weeks(n) => try_weeks(n),
        _ => None,
    }
}

/// The instant a relative phrase names, counted from `now`.
pub fn relative_wake_time(now: UtcInstant, spec: WakeSpec) -> (r: Result<UtcInstant, WakeError>)
    requires
        spec is Hours || spec is Days || spec is Weeks,
        now.nanos < 1_000_000_000,
    ensures
        r == relative_wake(now, spec),
{
    match relative_seconds(spec) {
        Some(seconds) => match checked_add_seconds(now, seconds) {
            Some(t) => Ok(t),
            None => Err(WakeError::OutOfRange),
        },
        None => Err(WakeError::OutOfRange),
    }
}

/// The local day on which a phrase that names a local time wakes: today for
/// `tonight`, the next day for `tomorrow`, the next Monday for `next-week`;
/// refused as out of range when that day (or today) is beyond the range of
/// dates.
pub open spec fn wake_day(today: LocalDay, spec: WakeSpec) -> Result<LocalDay, WakeError> {
    let days = local_wake(spec, today.weekday as int).0;
    if spec == WakeSpec::Tonight {
        Ok(today)
    } else if min_ce_day() <= today.ce_day && today.ce_day + days <= max_ce_day() {
        Ok(
            LocalDay {
                ce_day: (today.ce_day + days) as i32,
                weekday: weekday_of(today.ce_day + days) as u32,
            },
        )
    } else {
        Err(WakeError::OutOfRange)
    }
}

/// Computes the local day on which a named phrase wakes.
pub fn local_wake_day(today: LocalDay, spec: WakeSpec) -> (r: Result<LocalDay, WakeError>)
    requires
        spec == WakeSpec::Tonight || spec == WakeSpec::Tomorrow || spec == WakeSpec::NextWeek,
        today.weekday < 7,
    ensures
        r == wake_day(today, spec),
        spec == WakeSpec::NextWeek && today.weekday == weekday_of(today.ce_day as int) ==> (
        r matches Ok(d) ==> d.weekday == 0),
{
    let (days, _hour) = local_wake_plan(spec, today.weekday);
    let mut d = today;
    let mut i: u32 = 0;
    while i < days
        invariant
            i <= days,
            days as int == local_wake(spec, today.weekday as int).0,
            spec == WakeSpec::Tonight ==> days == 0,
            spec != WakeSpec::Tonight ==> 1 <= days <= 7,
            d.ce_day == today.ce_day + i,
            i > 0 ==> d.weekday == weekday_of(d.ce_day as int),
            i == 0 ==> d == today,
            i > 0 ==> min_ce_day() <= today.ce_day,
            i > 0 ==> d.ce_day <= max_ce_day(),
        decreases days - i,
    {
        match next_day(d) {
            Some(next) => {
                d = next;
            },
            None => {
                assert(!(min_ce_day() <= today.ce_day && today.ce_day + days <= max_ce_day()));
                return Err(WakeError::OutOfRange);
            },
        }
        i += 1;
    }
    proof {
        if spec == WakeSpec::NextWeek && today.weekday == weekday_of(today.ce_day as int) {
            let c = today.ce_day as int;
            assert((c - 1 + 7 - (c - 1) % 7) % 7 == 0) by (nonlinear_arith);
        }
        if spec != WakeSpec::Tonight {
            assert(d == LocalDay {
                ce_day: (today.ce_day + days) as i32,
                weekday: weekday_of(today.ce_day + days) as u32,
            });
        }
    }
    Ok(d)
}

/// When a snooze phrase wakes, before a local wall-clock time is placed in
/// the time zone.
#[derive(Debug, Clone, Copy, PartialEq, Eq)]
pub enum WakeTime {
    /// At this instant.
    At(UtcInstant),
    /// At this hour (o'clock) of this local day.
    LocalHour(LocalDay, u32),
}

/// The instant a timestamp names: RFC 3339 (with an offset), else ISO 8601
/// without an offset, read as UTC.
pub open spec fn timestamp_instant(raw: Seq<char>) -> Option<UtcInstant> {
    match rfc3339_instant(raw) {
        Some(t) => Some(t),
        None => naive_iso_instant(raw),
    }
}

/// When a snooze string wakes, given the current instant and local day:
/// `tonight` at 19:00 today, `tomorrow` at 9:00 the next day, `next-week`
/// at 9:00 on the next Monday, `<N>h|d|w` that long after `now`, anything
/// else as a timestamp.
pub open spec fn wake_time_of(raw: Seq<char>, now: UtcInstant, today: LocalDay) -> Result<
    WakeTime,
    WakeError,
> {
    let spec = wake_spec_of(wake_phrase(raw));
    match spec {
        WakeSpec::Tonight | WakeSpec::Tomorrow | WakeSpec::NextWeek => match wake_day(today, spec) {
            Ok(d) => Ok(WakeTime::LocalHour(d, local_wake(spec, today.weekday as int).1 as u32)),
            Err(e) => Err(e),
        },
        WakeSpec::Timestamp => match timestamp_instant(raw) {
            Some(t) => Ok(WakeTime::At(t)),
            None => Err(WakeError::Unrecognized),
        },
        _ => match relative_wake(now, spec) {
            Ok(t) => Ok(WakeTime::At(t)),
            Err(e) => Err(e),
        },
    }
}

/// Reads a timestamp: RFC 3339, else ISO 8601 without an offset (as UTC).
fn parse_timestamp(raw: &str) -> (r: Option<UtcInstant>)
    ensures
        r == timestamp_instant(raw@),
        r matches Some(t) ==> t.nanos < 2_000_000_000,
{
    match parse_rfc3339(raw) {
        Some(t) => Some(t),
        None => parse_naive_iso(raw),
    }
}

/// The phrase of a snooze string.
fn wake_spec_of_raw(raw: &str) -> (w: WakeSpec)
    ensures
        w == wake_spec_of(wake_phrase(raw@)),
{
    let trimmed = trim_str(raw);
    let lowered = to_lowercase(trimmed.as_str());
    parse_wake_spec(lowered.as_str())
}

/// Resolves a snooze string against the current instant and local day.
pub fn wake_time_at(raw: &str, now: UtcInstant, today: LocalDay) -> (r: Result<
    WakeTime,
    WakeError,
>)
    requires
        now.nanos < 1_000_000_000,
        today.weekday < 7,
    ensures
        r == wake_time_of(raw@, now, today),
{
    let spec = wake_spec_of_raw(raw);
    match spec {
        WakeSpec::Tonight | WakeSpec::Tomorrow | WakeSpec::NextWeek => {
            let (_days, hour) = local_wake_plan(spec, today.weekday);
            match local_wake_day(today, spec) {
                Ok(d) => Ok(WakeTime::LocalHour(d, hour)),
                Err(e) => Err(e),
            }
        },
        WakeSpec::Hours(_) | WakeSpec::Days(_) | WakeSpec::Weeks(_) => {
            match relative_wake_time(now, spec) {
                Ok(t) => Ok(WakeTime::At(t)),
                Err(e) => Err(e),
            }
        },
        WakeSpec::Timestamp => match parse_timestamp(raw) {
            Some(t) => Ok(WakeTime::At(t)),
            None => Err(WakeError::Unrecognized),
        },
    }
}

/// Resolves a snooze string into the UTC instant to wake at:
///   - `tonight`: 7pm local today;
///   - `tomorrow`: 9am local tomorrow;
///   - `next-week` (or `nextweek`): 9am local on the next Monday;
///   - `<N>h`, `<N>d`, `<N>w`: N hours, days or weeks from now;
///   - otherwise the string itself as an ISO 8601 timestamp, with an offset
///     or (read as UTC) without one.
/// Phrases are recognized after trimming and lowercasing; a timestamp is
/// read from the string as given. The clock is read only for phrases; the
/// resolution itself is `wake_time_at`.
pub fn parse_wake_time(raw: &str) -> (r: Result<UtcInstant, WakeError>)
    ensures
        ({
            let spec = wake_spec_of(wake_phrase(raw@));
            &&& spec == WakeSpec::Timestamp ==> r == (match timestamp_instant(raw@) {
                Some(t) => Ok::<UtcInstant, WakeError>(t),
                None => Err(WakeError::Unrecognized),
            })
            &&& spec != WakeSpec::Timestamp ==> r != Err::<UtcInstant, WakeError>(
                WakeError::Unrecognized,
            )
            &&& relative_too_far(spec) ==> r is Err
            &&& (spec is Hours || spec is Days || spec is Weeks) && r is Ok ==> exists|now: UtcInstant|
                now.nanos < 1_000_000_000 && r == #[trigger] relative_wake(now, spec)
            &&& (spec is Hours || spec is Days || spec is Weeks) ==> (r matches Err(e) ==> e
                == WakeError::OutOfRange || e == WakeError::ClockUnavailable)
            &&& (spec is Hours || spec is Days || spec is Weeks) ==> (r matches Ok(t) ==> t.nanos
                < 1_000_000_000)
            &&& (spec is Tonight || spec is Tomorrow || spec is NextWeek) ==> (r matches Ok(t) ==> t.nanos
                == 0)
            &&& (spec is Tonight || spec is Tomorrow || spec is NextWeek) ==> (r matches Ok(t) ==> exists|
                today: LocalDay,
            |
                #[trigger] wake_day(today, spec) matches Ok(d) && wall_seconds(
                    d.ce_day as int,
                    local_wake(spec, today.weekday as int).1,
                ) - 86400 < t.secs < wall_seconds(
                    d.ce_day as int,
                    local_wake(spec, today.weekday as int).1,
                ) + 86400)
            &&& r matches Ok(t) ==> t.nanos < 2_000_000_000
        }),
{
    let spec = wake_spec_of_raw(raw);
    if let WakeSpec::Timestamp = spec {
        return match parse_timestamp(raw) {
            Some(t) => Ok(t),
            None => Err(WakeError::Unrecognized),
        };
    }
    let now = match utc_now() {
        Some(t) => t,
        None => {
            return Err(WakeError::ClockUnavailable);
        },
    };
    let today = match local_day_of(now) {
        Some(d) => d,
        None => {
            return Err(WakeError::OutOfRange);
        },
    };
    match wake_time_at(raw, now, today) {
        Ok(WakeTime::At(t)) => {
            assert(spec is Hours || spec is Days || spec is Weeks ==> Ok::<UtcInstant, WakeError>(t)
                == relative_wake(now, spec));
            Ok(t)
        },
        Ok(WakeTime::LocalHour(day, hour)) => {
            assert(hour < 24);
            assert(wake_day(today, spec) == Ok::<LocalDay, WakeError>(day));
            assert(hour == local_wake(spec, today.weekday as int).1);
            match local_hour_instant(day, hour) {
                Some(t) => Ok(t),
                None => Err(WakeError::AmbiguousLocalTime),
            }
        },
        Err(e) => Err(e),
    }
}

/// The wake time `inbox snooze` stores: the RFC 3339 text of the instant a
/// snooze string names. A timestamp on a leap second (`23:59:60`) is
/// written as such.
pub fn snooze_until(raw: &str) -> (r: Result<String, WakeError>)
    ensures
        ({
            let spec = wake_spec_of(wake_phrase(raw@));
            &&& spec == WakeSpec::Timestamp ==> (match timestamp_instant(raw@) {
                Some(t) => if timestamp_accepted(t.secs as int, t.nanos as int) {
                    r matches Ok(s) && s@ == rfc3339_text(t.secs, t.nanos)
                } else {
                    r == Err::<String, WakeError>(WakeError::OutOfRange)
                },
                None => r == Err::<String, WakeError>(WakeError::Unrecognized),
            })
            &&& spec != WakeSpec::Timestamp ==> r != Err::<String, WakeError>(WakeError::Unrecognized)
        }),
{
    match parse_wake_time(raw) {
        Ok(t) => match format_rfc3339(t) {
            Some(s) => Ok(s),
            None => Err(WakeError::OutOfRange),
        },
        Err(e) => Err(e),
    }
}

} // verus!
