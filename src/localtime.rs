use vstd::prelude::*;
use chrono::{TimeZone, Timelike};
use crate::text::parse_hhmm_spec;
use crate::time::wall_secs;

verus! {

/// What chrono's `NaiveTime::parse_from_str(s, "%H:%M")` yields for `s`, as
/// (hour, minute), or `None` where it refuses the text.
pub uninterp spec fn chrono_time_of_day(s: Seq<char>) -> Option<(u32, u32)>;

/// Relies on chrono's `Local::now`: the current instant as Unix seconds and
/// the local offset then in force (`FixedOffset` keeps it within a day).
#[verifier::external_body]
pub(crate) fn local_now() -> (r: (i64, i32))
    ensures
        -86400 < r.1 < 86400,
{
    let now = chrono::Local::now();
    (now.timestamp(), now.offset().local_minus_utc())
}

/// Relies on chrono's `Local.from_local_datetime(..).single()`: the unique
/// instant whose local wall-clock time is second `secs` of day `day` (days of
/// the common era), or `None` when that wall time is skipped, repeated, or
/// out of chrono's range.
#[verifier::external_body]
pub(crate) fn local_wall_instant(day: i32, secs: u32) -> (r: Option<(i64, i32)>)
    requires
        secs < 86400,
    ensures
        r matches Some(p) ==> p.0 + p.1 == wall_secs(day as int, secs as int),
        r matches Some(p) ==> -86400 < p.1 < 86400,
{
    let date = chrono::NaiveDate::from_num_days_from_ce_opt(day)?;
    let time = chrono::NaiveTime::from_num_seconds_from_midnight_opt(secs, 0)?;
    let dt = chrono::Local.from_local_datetime(&date.and_time(time)).single()?;
    Some((dt.timestamp(), dt.offset().local_minus_utc()))
}

/// Relies on chrono's `DateTime::from_timestamp` and `with_timezone(&Local)`:
/// the local offset in force at Unix second `utc`, `None` out of range.
#[verifier::external_body]
pub(crate) fn local_offset_at(utc: i64) -> (r: Option<i32>)
    ensures
        r matches Some(o) ==> -86400 < o < 86400,
{
    let dt = chrono::DateTime::from_timestamp(utc, 0)?;
    Some(dt.with_timezone(&chrono::Local).offset().local_minus_utc())
}

/// Relies on chrono's `NaiveTime::parse_from_str` with `"%H:%M"` and the
/// `Timelike` accessors: hour below 24 and minute below 60 on success, and
/// strict two-digit "HH:MM" text is read as written.
#[verifier::external_body]
pub(crate) fn chrono_parse_time(s: &str) -> (r: Option<(u32, u32)>)
    ensures
        r == chrono_time_of_day(s@),
        r matches Some(p) ==> p.0 < 24 && p.1 < 60,
        parse_hhmm_spec(s@) matches Some(k) ==> r == Some(((k / 60) as u32, (k % 60) as u32)),
{
    let t = chrono::NaiveTime::parse_from_str(s, "%H:%M").ok()?;
    Some((t.hour(), t.minute()))
}

} // verus!
