//! The clock and calendar operations of `chrono` that snooze times rest on.
//! Instants and days are held as plain values: an instant as seconds and
//! nanoseconds since the Unix epoch (UTC), a day by its number counted from
//! January 1 of year 1 together with its weekday.

use vstd::prelude::*;
use chrono::{Datelike, DateTime, Local, NaiveDate, NaiveDateTime, TimeDelta, TimeZone};

verus! {

/// An instant, as `DateTime<Utc>` holds it: whole seconds since the Unix
/// epoch and the nanoseconds past them.
#[derive(Debug, Clone, Copy, PartialEq, Eq)]
pub struct UtcInstant {
    pub secs: i64,
    pub nanos: u32,
}

/// A calendar day of the local time zone.
#[derive(Debug, Clone, Copy, PartialEq, Eq)]
pub struct LocalDay {
    /// `Datelike::num_days_from_ce`: January 1 of year 1 is day 1.
    pub ce_day: i32,
    /// The weekday, counted from Monday (0) to Sunday (6).
    pub weekday: u32,
}

/// The largest number of whole seconds a `TimeDelta` holds (`i64::MAX`
/// milliseconds, rounded down to seconds).
pub open spec fn max_delta_seconds() -> int {
    9223372036854775
}

/// The weekday, counted from Monday (0), of the day numbered `ce_day` from
/// January 1 of year 1, which was a Monday.
pub open spec fn weekday_of(ce_day: int) -> int {
    (ce_day - 1) % 7
}

/// The day number of chrono's first date, January 1, 262144 BCE
/// (`NaiveDate::MIN`).
pub open spec fn min_ce_day() -> int {
    -95746129
}

/// The day number of chrono's last date, December 31, 262142 CE
/// (`NaiveDate::MAX`).
pub open spec fn max_ce_day() -> int {
    95745399
}

/// Whether a number of seconds since the epoch falls within chrono's range
/// of dates: from the first second of `NaiveDate::MIN` to the last second of
/// `NaiveDate::MAX`, in UTC.
pub open spec fn in_date_range(secs: int) -> bool {
    -8334601228800 <= secs <= 8210266876799
}

/// Whether an instant and the instant `seconds` later both lie within
/// chrono's range of dates.
pub open spec fn sum_in_date_range(secs: int, seconds: int) -> bool {
    in_date_range(secs) && in_date_range(secs + seconds)
}

/// Whether the day numbered `ce_day` and the day after it both lie within
/// chrono's range of dates.
pub open spec fn has_next_day(ce_day: int) -> bool {
    min_ce_day() <= ce_day && ce_day < max_ce_day()
}

/// `SystemTime::now().duration_since(UNIX_EPOCH)`: whole seconds and the
/// nanoseconds past them, or `None` when the clock reads a time before 1970.
/// Which time it reads is not claimed, only that the nanoseconds are below
/// one second.
#[verifier::external_body]
fn time_since_epoch() -> (r: Option<(u64, u32)>)
    ensures
        r matches Some(p) ==> p.1 < 1_000_000_000,
{
    let d = std::time::SystemTime::now().duration_since(std::time::UNIX_EPOCH).ok()?;
    Some((d.as_secs(), d.subsec_nanos()))
}

/// The instant `secs` seconds and `nanos` nanoseconds after the epoch, when
/// the seconds fit in an `i64`.
pub fn instant_from_epoch(secs: u64, nanos: u32) -> (r: Option<UtcInstant>)
    ensures
        r == (if secs <= i64::MAX {
            Some(UtcInstant { secs: secs as i64, nanos })
        } else {
            None
        }),
{
    if secs <= 9223372036854775807u64 {
        Some(UtcInstant { secs: secs as i64, nanos })
    } else {
        None
    }
}

/// The current instant, or `None` when the system clock reads a time before
/// 1970 (or beyond what `i64` seconds hold).
pub fn utc_now() -> (r: Option<UtcInstant>)
    ensures
        r matches Some(t) ==> t.nanos < 1_000_000_000 && t.secs >= 0,
{
    match time_since_epoch() {
        Some((secs, nanos)) => instant_from_epoch(secs, nanos),
        None => None,
    }
}

/// `TimeDelta::try_hours`, in seconds: `Some(hours * 3600)` exactly when that
/// many seconds is within the range of a `TimeDelta`.
#[verifier::external_body]
pub(crate) fn try_hours(hours: i64) -> (r: Option<i64>)
    ensures
        r is Some <==> -max_delta_seconds() <= hours * 3600 <= max_delta_seconds(),
        r matches Some(s) ==> s == hours * 3600,
{
    match TimeDelta::try_hours(hours) {
        Some(d) => Some(d.num_seconds()),
        None => None,
    }
}

/// `TimeDelta::try_days`, in seconds: `Some(days * 86400)` exactly when that
/// many seconds is within the range of a `TimeDelta`.
#[verifier::external_body]
pub(crate) fn try_days(days: i64) -> (r: Option<i64>)
    ensures
        r is Some <==> -max_delta_seconds() <= days * 86400 <= max_delta_seconds(),
        r matches Some(s) ==> s == days * 86400,
{
    match TimeDelta::try_days(days) {
        Some(d) => Some(d.num_seconds()),
        None => None,
    }
}

/// `TimeDelta::try_weeks`, in seconds: `Some(weeks * 604800)` exactly when
/// that many seconds is within the range of a `TimeDelta`.
#[verifier::external_body]
pub(crate) fn try_weeks(weeks: i64) -> (r: Option<i64>)
    ensures
        r is Some <==> -max_delta_seconds() <= weeks * 604800 <= max_delta_seconds(),
        r matches Some(s) ==> s == weeks * 604800,
{
    match TimeDelta::try_weeks(weeks) {
        Some(d) => Some(d.num_seconds()),
        None => None,
    }
}

/// `DateTime::from_timestamp` then `checked_add_signed` of a number of
/// seconds: for an instant with nanoseconds below one second, `Some`
/// exactly when the instant and the sum both lie within chrono's range of
/// dates; the sum moves the seconds and keeps the nanoseconds.
#[verifier::external_body]
pub(crate) fn checked_add_seconds(at: UtcInstant, seconds: i64) -> (r: Option<UtcInstant>)
    requires
        at.nanos < 1_000_000_000,
        -max_delta_seconds() <= seconds <= max_delta_seconds(),
    ensures
        r is Some <==> sum_in_date_range(at.secs as int, seconds as int),
        r matches Some(t) ==> t.secs == at.secs + seconds && t.nanos == at.nanos,
{
    let start = DateTime::from_timestamp(at.secs, at.nanos)?;
    let end = start.checked_add_signed(TimeDelta::seconds(seconds))?;
    Some(UtcInstant { secs: end.timestamp(), nanos: end.timestamp_subsec_nanos() })
}

/// What `DateTime::parse_from_rfc3339` makes of a text, as a UTC instant
/// (seconds and nanoseconds since the epoch), or `None` when it refuses the
/// text. It depends on the text alone.
pub uninterp spec fn rfc3339_parse(text: Seq<char>) -> Option<(i64, u32)>;

/// The instant an RFC 3339 parse gives, if any.
pub open spec fn rfc3339_instant(text: Seq<char>) -> Option<UtcInstant> {
    match rfc3339_parse(text) {
        Some(p) => Some(UtcInstant { secs: p.0, nanos: p.1 }),
        None => None,
    }
}

/// `DateTime::parse_from_rfc3339`, converted to UTC: the result is
/// `rfc3339_parse` of the text. Its nanoseconds are below two seconds' worth:
/// a leap second (`:60`) is read as the 59th second with a full second of
/// nanoseconds added.
#[verifier::external_body]
pub(crate) fn parse_rfc3339(text: &str) -> (r: Option<UtcInstant>)
    ensures
        r == (match rfc3339_parse(text@) {
            Some(p) => Some(UtcInstant { secs: p.0, nanos: p.1 }),
            None => None,
        }),
        r matches Some(t) ==> t.nanos < 2_000_000_000,
{
    let t = DateTime::parse_from_rfc3339(text).ok()?.to_utc();
    Some(UtcInstant { secs: t.timestamp(), nanos: t.timestamp_subsec_nanos() })
}

/// What `NaiveDateTime`'s `FromStr` (ISO 8601 `YYYY-MM-DDTHH:MM:SS` with an
/// optional fraction, no offset) makes of a text, read as UTC, or `None`
/// when it refuses the text. It depends on the text alone.
pub uninterp spec fn naive_iso_parse(text: Seq<char>) -> Option<(i64, u32)>;

/// The instant a zone-less ISO 8601 parse gives, read as UTC, if any.
pub open spec fn naive_iso_instant(text: Seq<char>) -> Option<UtcInstant> {
    match naive_iso_parse(text) {
        Some(p) => Some(UtcInstant { secs: p.0, nanos: p.1 }),
        None => None,
    }
}

/// `str::parse::<NaiveDateTime>`, taken as UTC: the result is
/// `naive_iso_parse` of the text. Its nanoseconds are below two seconds'
/// worth, as in every `NaiveTime` (a leap second runs past one second).
#[verifier::external_body]
pub(crate) fn parse_naive_iso(text: &str) -> (r: Option<UtcInstant>)
    ensures
        r == (match naive_iso_parse(text@) {
            Some(p) => Some(UtcInstant { secs: p.0, nanos: p.1 }),
            None => None,
        }),
        r matches Some(t) ==> t.nanos < 2_000_000_000,
{
    let t = text.parse::<NaiveDateTime>().ok()?.and_utc();
    Some(UtcInstant { secs: t.timestamp(), nanos: t.timestamp_subsec_nanos() })
}

/// The RFC 3339 text `DateTime::<Utc>::to_rfc3339` writes for an instant.
/// It depends on the instant alone.
pub uninterp spec fn rfc3339_text(secs: i64, nanos: u32) -> Seq<char>;

/// Whether `DateTime::from_timestamp` accepts an instant: it lies within
/// chrono's range of dates, and nanoseconds of a second or more (a leap
/// second) fall only on the 59th second of a minute.
pub open spec fn timestamp_accepted(secs: int, nanos: int) -> bool {
    in_date_range(secs) && (nanos < 1_000_000_000 || secs % 60 == 59)
}

/// `DateTime::from_timestamp` then `to_rfc3339`: for nanoseconds below two
/// seconds' worth, `Some` exactly when `from_timestamp` accepts the instant,
/// holding `rfc3339_text` of it.
#[verifier::external_body]
pub(crate) fn format_rfc3339(at: UtcInstant) -> (r: Option<String>)
    requires
        at.nanos < 2_000_000_000,
    ensures
        r is Some <==> timestamp_accepted(at.secs as int, at.nanos as int),
        r matches Some(s) ==> s@ == rfc3339_text(at.secs, at.nanos),
{
    Some(DateTime::from_timestamp(at.secs, at.nanos)?.to_rfc3339())
}

/// The current instant as RFC 3339 text, or `None` when the system clock
/// reads a time before 1970 or beyond the range of dates. Which instant it
/// is is not claimed.
pub fn now_rfc3339() -> (r: Option<String>)
    ensures
        r matches Some(s) ==> exists|secs: i64, nanos: u32| s@ == rfc3339_text(secs, nanos),
{
    match utc_now() {
        Some(t) => format_rfc3339(t),
        None => None,
    }
}

/// The local calendar day at an instant: `DateTime::from_timestamp`, the
/// offset of the local time zone at that instant
/// (`Local.offset_from_utc_datetime`), then `checked_add_offset` and the
/// date. `None` when the instant is outside chrono's range of dates, or when
/// the offset carries the local time out of it (on the first or last day).
/// Which day comes back depends on the machine's time zone and is not
/// claimed, nor for which instants within the range the result is `Some`;
/// only that the weekday is that of the day's number. Like every conversion
/// to `Local`, the offset lookup panics on time-zone data that gives no
/// offset; that is not stated here.
#[verifier::external_body]
pub(crate) fn local_day_of(at: UtcInstant) -> (r: Option<LocalDay>)
    requires
        at.nanos < 1_000_000_000,
    ensures
        !in_date_range(at.secs as int) ==> r is None,
        r matches Some(d) ==> d.weekday < 7 && d.weekday == weekday_of(d.ce_day as int),
{
    let utc = DateTime::from_timestamp(at.secs, at.nanos)?.naive_utc();
    let offset = Local.offset_from_utc_datetime(&utc);
    let day = utc.checked_add_offset(offset)?.date();
    Some(LocalDay { ce_day: day.num_days_from_ce(), weekday: day.weekday().num_days_from_monday() })
}

/// `NaiveDate::from_num_days_from_ce_opt` then `succ_opt`: the day after the
/// one numbered `d.ce_day`, with its weekday; `Some` exactly when both days
/// lie within chrono's range of dates.
#[verifier::external_body]
pub(crate) fn next_day(d: LocalDay) -> (r: Option<LocalDay>)
    ensures
        r is Some <==> has_next_day(d.ce_day as int),
        r matches Some(n) ==> n.ce_day == d.ce_day + 1 && n.weekday < 7 && n.weekday
            == weekday_of(n.ce_day as int),
{
    let next = NaiveDate::from_num_days_from_ce_opt(d.ce_day)?.succ_opt()?;
    Some(LocalDay { ce_day: next.num_days_from_ce(), weekday: next.weekday().num_days_from_monday() })
}

/// The seconds since the epoch of `hour`:00:00 on the day numbered
/// `ce_day`, read as UTC (day 719163 is January 1, 1970).
pub open spec fn wall_seconds(ce_day: int, hour: int) -> int {
    (ce_day - 719163) * 86400 + hour * 3600
}

/// `Local::from_local_datetime` for `hour`:00:00 of a local day, as a UTC
/// instant: `None` when that wall-clock time is not exactly one instant (a
/// gap or a fold of the time zone) or the day is out of range. Which instant
/// it is depends on the machine's time zone and is not claimed, only that it
/// falls on a whole second and, the time zone's offset being under a day
/// (`FixedOffset`), less than a day away from the wall-clock time read as
/// UTC. Like every conversion from `Local`, the offset lookup panics on
/// time-zone data that gives no offset; that is not stated here.
#[verifier::external_body]
pub(crate) fn local_hour_instant(d: LocalDay, hour: u32) -> (r: Option<UtcInstant>)
    requires
        hour < 24,
    ensures
        r matches Some(t) ==> t.nanos == 0,
        r matches Some(t) ==> wall_seconds(d.ce_day as int, hour as int) - 86400 < t.secs
            < wall_seconds(d.ce_day as int, hour as int) + 86400,
{
    let wall = NaiveDate::from_num_days_from_ce_opt(d.ce_day)?.and_hms_opt(hour, 0, 0)?;
    match Local.from_local_datetime(&wall) {
        chrono::LocalResult::Single(t) => {
            let u = t.to_utc();
            Some(UtcInstant { secs: u.timestamp(), nanos: u.timestamp_subsec_nanos() })
        },
        chrono::LocalResult::Ambiguous(_, _) => None,
        chrono::LocalResult::None => None,
    }
}

} // verus!
