use vstd::prelude::*;

use crate::text::{
    chars_of, field_from_end, nth_from_end, parse_i64, parse_i64_spec,
    parse_u32, parse_u32_spec, split_chars, split_on,
};
use crate::local::{
    lemma_set_clock_time, local_instant, local_reading, local_secs, with_hour, with_minute,
    with_second, LocalDateTime, UNIX_EPOCH_DAY,
};
use crate::time::{timenow, TimeDelta, Timestamp, LATEST_TIMESTAMP};

verus! {

/// Seconds in a day.
pub const SECONDS_PER_DAY: u32 = 86_400;

/// One component of an absolute `[[hh:]mm:]ss` timestamp: the `k`-th field from
/// the end read as a `u32` (unreadable or missing fields count as 0), capped at `max`.
pub open spec fn abs_component(s: Seq<char>, k: int, max: u32) -> u32 {
    match field_from_end(s, k) {
        Some(f) => match parse_u32_spec(f) {
            Some(v) => if v <= max { v } else { max },
            None => 0,
        },
        None => 0,
    }
}

/// One component of a relative `[+|-][[hh:]mm:]ss` timestamp: the magnitude of the
/// `k`-th field from the end read as an `i64` (unreadable or missing fields count
/// as 0), capped at `max`.
pub open spec fn rel_component(s: Seq<char>, k: int, max: int) -> int {
    match field_from_end(s, k) {
        Some(f) => match parse_i64_spec(f) {
            Some(v) => {
                let a = if v < 0 { -v } else { v as int };
                if a <= max { a } else { max }
            },
            None => 0,
        },
        None => 0,
    }
}

/// The `k`-th field from the end does not read as `i64::MIN`, whose magnitude an
/// `i64` cannot hold.
pub open spec fn rel_field_ok(s: Seq<char>, k: int) -> bool {
    match field_from_end(s, k) {
        Some(f) => parse_i64_spec(f) != Some(i64::MIN),
        None => true,
    }
}

/// None of the three fields a relative timestamp reads is `i64::MIN`.
pub open spec fn relative_input_ok(s: Seq<char>) -> bool {
    rel_field_ok(s, 0) && rel_field_ok(s, 1) && rel_field_ok(s, 2)
}

/// `-1` when the text starts with `-`, `1` otherwise.
pub open spec fn relative_sign(s: Seq<char>) -> int {
    if s.len() > 0 && s[0] == '-' {
        -1
    } else {
        1
    }
}

/// The signed number of seconds that a relative timestamp stands for.
pub open spec fn relative_offset_secs(s: Seq<char>) -> int {
    relative_sign(s) * (rel_component(s, 0, 59) + 60 * rel_component(s, 1, 59) + 3600
        * rel_component(s, 2, 23))
}

/// Seconds past midnight of a clock time.
pub open spec fn time_of_day(hour: u32, minute: u32, second: u32) -> int {
    hour * 3600 + minute * 60 + second
}

/// How to turn an absolute timestamp into an instant: the local clock time it names,
/// and whether that time is taken tomorrow (because today it has already passed).
#[derive(Clone, Copy, Debug, PartialEq, Eq, Structural)]
pub struct AbsolutePlan {
    pub hour: u32,
    pub minute: u32,
    pub second: u32,
    pub next_day: bool,
}

fn component_u32(fields: &Vec<Vec<char>>, k: usize, max: u32) -> (r: u32)
    ensures
        r == (match nth_from_end(fields@.map_values(|f: Vec<char>| f@), k as int) {
            Some(f) => match parse_u32_spec(f) {
                Some(v) => if v <= max { v } else { max },
                None => 0,
            },
            None => 0,
        }),
{
    let n = fields.len();
    if k < n {
        let f = &fields[n - 1 - k];
        assert(fields@.map_values(|f: Vec<char>| f@)[n - 1 - k] == f@);
        match parse_u32(f) {
            Some(v) => if v <= max { v } else { max },
            None => 0,
        }
    } else {
        0
    }
}

fn component_i64(fields: &Vec<Vec<char>>, k: usize, max: i64) -> (r: i64)
    requires
        0 <= max,
        match nth_from_end(fields@.map_values(|f: Vec<char>| f@), k as int) {
            Some(f) => parse_i64_spec(f) != Some(i64::MIN),
            None => true,
        },
    ensures
        r == (match nth_from_end(fields@.map_values(|f: Vec<char>| f@), k as int) {
            Some(f) => match parse_i64_spec(f) {
                Some(v) => {
                    let a = if v < 0 { -v } else { v as int };
                    if a <= max { a } else { max as int }
                },
                None => 0,
            },
            None => 0,
        }),
{
    let n = fields.len();
    if k < n {
        let f = &fields[n - 1 - k];
        assert(fields@.map_values(|f: Vec<char>| f@)[n - 1 - k] == f@);
        match parse_i64(f) {
            Some(v) => {
                let a = if v < 0 { -v } else { v };
                if a <= max { a } else { max }
            },
            None => 0,
        }
    } else {
        0
    }
}

fn colon_fields(value: &String) -> (r: Vec<Vec<char>>)
    ensures
        r@.map_values(|f: Vec<char>| f@) == split_on(value@, ':'),
{
    let cs = chars_of(value.as_str());
    split_chars(&cs, ':')
}

/// Reads an absolute timestamp `[[hh:]mm:]ss`: the hours, minutes and seconds it
/// names, capped at 23, 59 and 59.
pub fn absolute_fields(value: &String) -> (r: (u32, u32, u32))
    ensures
        r == (abs_component(value@, 2, 23), abs_component(value@, 1, 59), abs_component(
            value@,
            0,
            59,
        )),
        r.0 <= 23 && r.1 <= 59 && r.2 <= 59,
{
    let fields = colon_fields(value);
    let secs = component_u32(&fields, 0, 59);
    let mins = component_u32(&fields, 1, 59);
    let hours = component_u32(&fields, 2, 23);
    (hours, mins, secs)
}

/// Plans an absolute timestamp against the current local clock time
/// (`now_seconds_from_midnight`): the clock time it names, taken today, or tomorrow
/// when today it lies before the current time.
pub fn plan_user_timestamp_abs(value: &String, now_seconds_from_midnight: u32) -> (p: AbsolutePlan)
    requires
        now_seconds_from_midnight < SECONDS_PER_DAY,
    ensures
        p.hour == abs_component(value@, 2, 23),
        p.minute == abs_component(value@, 1, 59),
        p.second == abs_component(value@, 0, 59),
        p.next_day == (time_of_day(p.hour, p.minute, p.second) < now_seconds_from_midnight),
{
    let (hour, minute, second) = absolute_fields(value);
    let target = hour * 3600 + minute * 60 + second;
    AbsolutePlan { hour, minute, second, next_day: target < now_seconds_from_midnight }
}

/// The clock time, in seconds past midnight, that an absolute timestamp names.
pub open spec fn absolute_time_of_day(s: Seq<char>) -> int {
    time_of_day(abs_component(s, 2, 23), abs_component(s, 1, 59), abs_component(s, 0, 59))
}

/// The local date and time an absolute timestamp names when the local clock shows
/// `today`: its clock time today, or tomorrow when today that time has passed; the
/// nanoseconds are kept.
pub open spec fn absolute_target(s: Seq<char>, today: LocalDateTime) -> LocalDateTime {
    LocalDateTime {
        day: (today.day + (if absolute_time_of_day(s) < today.secs { 1int } else { 0int })) as i32,
        secs: absolute_time_of_day(s) as u32,
        nanos: today.nanos,
    }
}

/// Parses an absolute timestamp `[[hh:]mm:]ss` into the next instant at which the
/// local clock shows it: today, or tomorrow when that time has passed today; it
/// returns the instant and the local date and time the instant shows. The clock
/// time is placed through the machine's time zone; `None` when the zone has no
/// such local time (or more than one) on that day.
pub fn parse_user_timestamp_abs(value: String) -> (r: Option<(Timestamp, LocalDateTime)>)
    ensures
        r matches Some((t, shown)) ==> {
            &&& t.wf()
            &&& t.nanos == shown.nanos
            &&& -86_400 < local_secs(shown) - t.secs < 86_400
            &&& exists|now: Timestamp, today: LocalDateTime|
                {
                    &&& now.wf()
                    &&& 0 <= now.secs <= LATEST_TIMESTAMP
                    &&& today.wf()
                    &&& today.nanos == now.nanos
                    &&& -86_400 < local_secs(today) - now.secs < 86_400
                    &&& shown == absolute_target(value@, today)
                    &&& 0 <= local_secs(shown) - local_secs(today) < 86_400
                    &&& -172_800 < t.secs - now.secs < 259_200
                }
        },
{
    let timenow = timenow();
    let today = match local_reading(timenow) {
        Some(d) => d,
        None => {
            return None;
        },
    };
    proof {
        // today's date is within a day of the clock, which is at most
        // LATEST_TIMESTAMP, so the next date is still a date
        let k = today.day - UNIX_EPOCH_DAY;
        assert(k * 86_400 < LATEST_TIMESTAMP + 86_400);
        assert(k < 96_100_000) by (nonlinear_arith)
            requires k * 86_400 < LATEST_TIMESTAMP + 86_400;
    }
    absolute_timestamp_on(&value, today)
}

/// Places an absolute timestamp `[[hh:]mm:]ss` when the local clock reads `today`:
/// at the next date and time at which the local clock shows it (today, or tomorrow
/// when that time has passed today). Returns the instant and the local date and
/// time it shows; `None` when the machine's time zone has no such local time (or
/// more than one) on that day.
pub fn absolute_timestamp_on(value: &String, today: LocalDateTime) -> (r: Option<
    (Timestamp, LocalDateTime),
>)
    requires
        today.wf(),
        today.day < 99_999_999,
    ensures
        r matches Some((t, shown)) ==> {
            &&& t.wf()
            &&& t.nanos == shown.nanos
            &&& -86_400 < local_secs(shown) - t.secs < 86_400
            &&& shown == absolute_target(value@, today)
        },
{
    let plan = plan_user_timestamp_abs(value, today.secs);
    let (_, shown) = match local_instant(with_hour(today, plan.hour)) {
        Some(r) => r,
        None => {
            return None;
        },
    };
    let (_, shown) = match local_instant(with_minute(shown, plan.minute)) {
        Some(r) => r,
        None => {
            return None;
        },
    };
    let (timestamp, shown) = match local_instant(with_second(shown, plan.second)) {
        Some(r) => r,
        None => {
            return None;
        },
    };
    proof {
        lemma_set_clock_time(today, plan.hour, plan.minute, plan.second);
    }
    // the time is taken tomorrow if it is earlier than the current time
    if plan.next_day {
        let tomorrow = LocalDateTime { day: shown.day + 1, ..shown };
        local_instant(tomorrow)
    } else {
        Some((timestamp, shown))
    }
}


/// Whether every field that a relative timestamp reads has a magnitude an `i64`
/// can hold (none reads as `i64::MIN`).
pub fn relative_input_accepted(value: &String) -> (r: bool)
    ensures
        r == relative_input_ok(value@),
{
    let fields = colon_fields(value);
    let n = fields.len();
    let mut k: usize = 0;
    while k < 3
        invariant
            n == fields@.len(),
            fields@.map_values(|f: Vec<char>| f@) == split_on(value@, ':'),
            k <= 3,
            forall|j: int| 0 <= j < k ==> rel_field_ok(value@, j),
        decreases 3 - k,
    {
        if k < n {
            let f = &fields[n - 1 - k];
            assert(fields@.map_values(|f: Vec<char>| f@)[n - 1 - k] == f@);
            if parse_i64(f) == Some(i64::MIN) {
                return false;
            }
        }
        k = k + 1;
    }
    true
}

/// The signed number of seconds a relative timestamp `[+|-][[hh:]mm:]ss` stands
/// for: the magnitudes of its fields, capped at 23 hours, 59 minutes and 59
/// seconds, negative when the text starts with `-`.
pub fn relative_offset(value: &String) -> (r: i64)
    requires
        relative_input_ok(value@),
    ensures
        r == relative_offset_secs(value@),
        -86_400 < r < 86_400,
{
    let fields = colon_fields(value);
    let secs = component_i64(&fields, 0, 59);
    let mins = component_i64(&fields, 1, 59);
    let hours = component_i64(&fields, 2, 23);
    let first_is_minus = value.as_str().unicode_len() > 0 && value.as_str().get_char(0) == '-';
    let sign: i64 = if first_is_minus { -1 } else { 1 };
    let total = secs + mins * 60 + hours * 60 * 60;
    assert(relative_sign(value@) == sign);
    total * sign
}

/// The instant a relative timestamp names, counted from `now`.
pub fn relative_timestamp(value: &String, now: Timestamp) -> (t: Timestamp)
    requires
        relative_input_ok(value@),
        now.wf(),
    ensures
        t.secs == now.secs + relative_offset_secs(value@),
        t.nanos == now.nanos,
{
    let offset = relative_offset(value);
    let delta = TimeDelta::seconds(offset);
    now.add_signed(delta)
}

/// Parses a relative timestamp `[+|-][[hh:]mm:]ss` into the instant it names,
/// counted from the current time.
pub fn parse_user_timestamp_rel(value: String) -> (t: Timestamp)
    requires
        relative_input_ok(value@),
    ensures
        t.wf(),
        exists|now: Timestamp|
            now.wf() && 0 <= now.secs <= LATEST_TIMESTAMP && t.secs == now.secs
                + relative_offset_secs(value@) && t.nanos == now.nanos,
{
    let now = timenow();
    relative_timestamp(&value, now)
}

} // verus!
