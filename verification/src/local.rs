//! Local dates and clock times in the machine's time zone. Which local date and
//! time an instant shows depends on the zone the machine is set to, so the calls
//! into chrono here say only what holds in every zone; editing a local date and
//! time is plain arithmetic and is verified.
use vstd::prelude::*;

use crate::time::Timestamp;

verus! {

/// A local date and clock time as chrono's naive local date-time holds it: the day
/// number (chrono's `num_days_from_ce`: 0001-01-01 is day 1), the seconds past
/// local midnight and the nanoseconds past that second.
#[derive(Clone, Copy, Debug, PartialEq, Eq, Structural)]
pub struct LocalDateTime {
    pub day: i32,
    pub secs: u32,
    pub nanos: u32,
}

impl LocalDateTime {
    /// A date within (a day of) the calendar's range and a clock time without a
    /// leap second.
    pub open spec fn wf(self) -> bool {
        &&& -100_000_000 < self.day < 100_000_000
        &&& self.secs < 86_400
        &&& self.nanos < 1_000_000_000
    }
}

/// Chrono's day number of 1970-01-01, the Unix epoch.
pub const UNIX_EPOCH_DAY: i32 = 719_163;

/// The local date and time as seconds since local midnight at the start of
/// 1970-01-01; an instant's local reading is its Unix timestamp plus the zone's
/// offset.
pub open spec fn local_secs(d: LocalDateTime) -> int {
    (d.day - UNIX_EPOCH_DAY) * 86_400 + d.secs
}

/// The local date and time with the hour set, as `NaiveDateTime::with_hour` sets it.
pub open spec fn with_hour_spec(d: LocalDateTime, hour: u32) -> LocalDateTime {
    LocalDateTime { secs: (hour * 3600 + d.secs % 3600) as u32, ..d }
}

/// The local date and time with the minute set, as `NaiveDateTime::with_minute`
/// sets it.
pub open spec fn with_minute_spec(d: LocalDateTime, minute: u32) -> LocalDateTime {
    LocalDateTime { secs: (d.secs / 3600 * 3600 + minute * 60 + d.secs % 60) as u32, ..d }
}

/// The local date and time with the second set, as `NaiveDateTime::with_second`
/// sets it.
pub open spec fn with_second_spec(d: LocalDateTime, second: u32) -> LocalDateTime {
    LocalDateTime { secs: (d.secs / 60 * 60 + second) as u32, ..d }
}

/// The local date and time with the hour set.
pub fn with_hour(d: LocalDateTime, hour: u32) -> (r: LocalDateTime)
    requires
        d.wf(),
        hour < 24,
    ensures
        r == with_hour_spec(d, hour),
        r.wf(),
{
    LocalDateTime { secs: hour * 3600 + d.secs % 3600, ..d }
}

/// The local date and time with the minute set.
pub fn with_minute(d: LocalDateTime, minute: u32) -> (r: LocalDateTime)
    requires
        d.wf(),
        minute < 60,
    ensures
        r == with_minute_spec(d, minute),
        r.wf(),
{
    assert(d.secs / 3600 * 3600 + minute * 60 + d.secs % 60 < 86_400) by (nonlinear_arith)
        requires d.secs < 86_400, minute < 60;
    LocalDateTime { secs: d.secs / 3600 * 3600 + minute * 60 + d.secs % 60, ..d }
}

/// The local date and time with the second set.
pub fn with_second(d: LocalDateTime, second: u32) -> (r: LocalDateTime)
    requires
        d.wf(),
        second < 60,
    ensures
        r == with_second_spec(d, second),
        r.wf(),
{
    assert(d.secs / 60 * 60 + second < 86_400) by (nonlinear_arith)
        requires d.secs < 86_400, second < 60;
    LocalDateTime { secs: d.secs / 60 * 60 + second, ..d }
}

/// Setting the hour, then the minute, then the second of a clock time gives that
/// clock time.
pub proof fn lemma_set_clock_time(d: LocalDateTime, hour: u32, minute: u32, second: u32)
    requires
        d.wf(),
        hour < 24,
        minute < 60,
        second < 60,
    ensures
        with_second_spec(with_minute_spec(with_hour_spec(d, hour), minute), second).secs == hour
            * 3600 + minute * 60 + second,
{
    let x = d.secs as int;
    let a = hour * 3600 + x % 3600;
    assert(a / 3600 == hour && a % 60 == x % 60) by (nonlinear_arith)
        requires a == hour * 3600 + x % 3600, 0 <= x;
    let b = a / 3600 * 3600 + minute * 60 + a % 60;
    assert(b / 60 * 60 == hour * 3600 + minute * 60) by (nonlinear_arith)
        requires b == hour * 3600 + minute * 60 + a % 60, 0 <= a % 60 < 60;
}

/// The local date and time that the instant `t` shows.
///
/// Converts `t` with chrono's `DateTime::from_timestamp` and
/// `with_timezone(&Local)` (`None` when `t` is outside chrono's calendar) and
/// reads `Datelike::num_days_from_ce`, `Timelike::num_seconds_from_midnight` and
/// `Timelike::nanosecond` of the result. chrono reads all three from the same local
/// date-time, UTC shifted by a whole-second offset of less than a day (a
/// `FixedOffset` is always strictly between -86 400 and 86 400 seconds), so the day
/// lies within a day of the calendar's range, the seconds are below a day, the
/// nanoseconds are those of `t`, and the reading, counted in seconds from the
/// epoch's local midnight, is less than a day away from `t`. Which date and time
/// that is within that day depends on the machine's time zone and is not stated.
#[verifier::external_body]
pub(crate) fn local_reading(t: Timestamp) -> (r: Option<LocalDateTime>)
    requires
        t.wf(),
    ensures
        r matches Some(d) ==> {
            &&& d.wf()
            &&& d.nanos == t.nanos
            &&& -86_400 < local_secs(d) - t.secs < 86_400
        },
{
    let local = chrono::DateTime::from_timestamp(t.secs, t.nanos)?.with_timezone(&chrono::Local);
    Some(LocalDateTime {
        day: chrono::Datelike::num_days_from_ce(&local),
        secs: chrono::Timelike::num_seconds_from_midnight(&local),
        nanos: chrono::Timelike::nanosecond(&local),
    })
}

/// The instant at which the local clock shows the date and time `d`, and the local
/// date and time that instant shows.
///
/// Builds chrono's `NaiveDate::from_num_days_from_ce_opt` and
/// `NaiveTime::from_num_seconds_from_midnight_opt` from `d` (`None` outside the
/// calendar) and calls `TimeZone::from_local_datetime(&Local, ..).single()`, which
/// is `None` when the zone has no such local time or more than one (daylight saving
/// changes). chrono computes the instant as the local date-time less a whole-second
/// offset of less than a day, so it keeps the nanoseconds, lies in the calendar's
/// range, is less than a day away from `d` counted from the epoch's local midnight,
/// and shows `d` again, which the reading taken from the same `DateTime` returns.
/// Which instant it is within that day depends on the machine's time zone and is
/// not stated.
#[verifier::external_body]
pub(crate) fn local_instant(d: LocalDateTime) -> (r: Option<(Timestamp, LocalDateTime)>)
    requires
        d.wf(),
    ensures
        r matches Some((v, shown)) ==> {
            &&& v.wf()
            &&& v.nanos == d.nanos
            &&& shown == d
            &&& -86_400 < local_secs(d) - v.secs < 86_400
        },
{
    let date = chrono::NaiveDate::from_num_days_from_ce_opt(d.day)?;
    let time = chrono::NaiveTime::from_num_seconds_from_midnight_opt(d.secs, d.nanos)?;
    let dt = chrono::TimeZone::from_local_datetime(&chrono::Local, &date.and_time(time)).single()?;
    Some((
        Timestamp { secs: dt.timestamp(), nanos: dt.timestamp_subsec_nanos() },
        LocalDateTime {
            day: chrono::Datelike::num_days_from_ce(&dt),
            secs: chrono::Timelike::num_seconds_from_midnight(&dt),
            nanos: chrono::Timelike::nanosecond(&dt),
        },
    ))
}

} // verus!
