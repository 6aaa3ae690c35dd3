//! The wake-time scheduler: from the capture policy — a fixed period or a
//! calendar leap time — and the current instant, compute the next absolute
//! capture instant, or report that the capture sequence ends.
//!
//! Calendar arithmetic is modelled on plain civil fields (year, month, day,
//! hour, minute, second) in a fixed UTC offset; the conversions between epoch
//! seconds and civil fields go through chrono behind trusted wrappers whose
//! contracts state the proleptic-Gregorian conversion exactly.

use vstd::prelude::*;

verus! {

/// A calendar-style schedule: each field is a concrete value or negative for
/// "unspecified". Only day, hour and minute take part in scheduling.
#[derive(Debug, PartialEq, Eq, Structural, Clone, Copy)]
pub struct LeapTime {
    pub year: i32,
    pub month: i32,
    pub day: i32,
    pub hour: i32,
    pub minute: i32,
    pub second: i32,
}

/// A civil instant in some fixed UTC offset.
#[derive(Debug, PartialEq, Eq, Structural, Clone, Copy)]
pub struct CivilTime {
    pub year: i32,
    pub month: u32,
    pub day: u32,
    pub hour: u32,
    pub minute: u32,
    pub second: u32,
}

pub open spec fn spec_is_leap_year(y: int) -> bool {
    y % 4 == 0 && (y % 100 != 0 || y % 400 == 0)
}

pub open spec fn spec_days_in_month(y: int, m: int) -> int {
    if m == 2 {
        if spec_is_leap_year(y) {
            29
        } else {
            28
        }
    } else if m == 4 || m == 6 || m == 9 || m == 11 {
        30
    } else {
        31
    }
}

/// Civil fields the scheduler can work with: a real calendar date between
/// 1970 and 10000 and a real time of day.
pub open spec fn spec_valid_civil(c: CivilTime) -> bool {
    &&& 1970 <= c.year <= 10000
    &&& 1 <= c.month <= 12
    &&& 1 <= c.day <= spec_days_in_month(c.year as int, c.month as int)
    &&& c.hour < 24
    &&& c.minute < 60
    &&& c.second < 60
}

/// Days since 1970-01-01 of a proleptic-Gregorian civil date, by the
/// era/year-of-era decomposition.
pub open spec fn spec_days_from_civil(y: int, m: int, d: int) -> int {
    let yy = if m <= 2 {
        y - 1
    } else {
        y
    };
    let era = yy / 400;
    let yoe = yy - era * 400;
    let mp = if m > 2 {
        m - 3
    } else {
        m + 9
    };
    let doy = (153 * mp + 2) / 5 + d - 1;
    let doe = yoe * 365 + yoe / 4 - yoe / 100 + doy;
    era * 146097 + doe - 719468
}

/// Epoch seconds of a civil instant read in a fixed UTC offset.
pub open spec fn spec_epoch_of_civil(c: CivilTime, offset_secs: int) -> int {
    spec_days_from_civil(c.year as int, c.month as int, c.day as int) * 86400
        + c.hour * 3600 + c.minute * 60 + c.second - offset_secs
}

/// The civil breakdown of an epoch instant in a fixed UTC offset: the unique
/// valid civil fields that read back as that instant.
pub open spec fn spec_civil_of(secs: int, offset_secs: int) -> CivilTime {
    choose|c: CivilTime|
        spec_valid_civil(c) && spec_epoch_of_civil(c, offset_secs) == secs
}

/// The civil date after `c`, at the same time of day.
pub open spec fn spec_next_day(c: CivilTime) -> CivilTime {
    if c.day < spec_days_in_month(c.year as int, c.month as int) {
        CivilTime { day: (c.day + 1) as u32, ..c }
    } else if c.month < 12 {
        CivilTime { month: (c.month + 1) as u32, day: 1, ..c }
    } else {
        CivilTime { year: (c.year + 1) as i32, month: 1, day: 1, ..c }
    }
}

/// Relies on chrono: `DateTime::<Utc>::from_timestamp`, then `with_timezone`
/// to a `FixedOffset`, then the `Datelike` / `Timelike` accessors. The result
/// is the proleptic-Gregorian civil breakdown of `secs` shifted by
/// `offset_secs`: the unique valid civil fields whose epoch reading in that
/// offset is `secs` again.
#[verifier::external_body]
fn civil_from_epoch(secs: i64, offset_secs: i32) -> (c: CivilTime)
    requires
        -86399 <= offset_secs <= 86399,
        0 <= secs + offset_secs < 253402300800,
        0 <= secs,
    ensures
        spec_valid_civil(c),
        c.year <= 9999,
        spec_epoch_of_civil(c, offset_secs as int) == secs,
        c == spec_civil_of(secs as int, offset_secs as int),
{
    let utc = chrono::DateTime::<chrono::Utc>::from_timestamp(secs, 0).unwrap();
    let off = chrono::FixedOffset::east_opt(offset_secs).unwrap();
    let local = utc.with_timezone(&off);
    CivilTime {
        year: chrono::Datelike::year(&local),
        month: chrono::Datelike::month(&local),
        day: chrono::Datelike::day(&local),
        hour: chrono::Timelike::hour(&local),
        minute: chrono::Timelike::minute(&local),
        second: chrono::Timelike::second(&local),
    }
}

/// Relies on chrono: `NaiveDate::from_ymd_opt`, `and_hms_opt`,
/// `and_local_timezone` over a `FixedOffset`, and `timestamp`, which computes
/// epoch seconds from the proleptic-Gregorian day number and the time of
/// day, minus the offset.
#[verifier::external_body]
fn epoch_from_civil(c: CivilTime, offset_secs: i32) -> (secs: i64)
    requires
        spec_valid_civil(c),
        -86399 <= offset_secs <= 86399,
    ensures
        secs == spec_epoch_of_civil(c, offset_secs as int),
{
    let off = chrono::FixedOffset::east_opt(offset_secs).unwrap();
    let dt = chrono::NaiveDate::from_ymd_opt(c.year, c.month, c.day)
        .unwrap()
        .and_hms_opt(c.hour, c.minute, c.second)
        .unwrap()
        .and_local_timezone(off)
        .unwrap();
    dt.timestamp()
}

/// The civil date after `c`, at the same time of day.
fn next_day(c: CivilTime) -> (r: CivilTime)
    requires
        spec_valid_civil(c),
        c.year <= 9999,
    ensures
        r == spec_next_day(c),
        spec_valid_civil(r),
{
    let dim: u32 = if c.month == 2 {
        let y = c.year;
        if y % 4 == 0 && (y % 100 != 0 || y % 400 == 0) {
            29
        } else {
            28
        }
    } else if c.month == 4 || c.month == 6 || c.month == 9 || c.month == 11 {
        30
    } else {
        31
    };
    if c.day < dim {
        CivilTime { day: c.day + 1, ..c }
    } else if c.month < 12 {
        CivilTime { month: c.month + 1, day: 1, ..c }
    } else {
        CivilTime { year: c.year + 1, month: 1, day: 1, ..c }
    }
}

/// The next instant in periodic mode: the previous instant plus the period,
/// clamped up to the window start, and terminal at or past the window end
/// when a window is configured (window start before window end).
pub open spec fn spec_next_wake_periodic(previous: int, duration: int, start: int, end: int)
    -> Option<int> {
    let next = previous + duration;
    if start < end {
        if next < start {
            Some(start)
        } else if next >= end {
            None
        } else {
            Some(next)
        }
    } else {
        Some(next)
    }
}

/// The raw leap-time candidate, before the window clamp. Resolution order:
/// a specified day means that day of the current month (or of the next month
/// once it has passed); otherwise a specified hour means today at that hour
/// (or tomorrow once it has passed); otherwise a specified minute means that
/// minute of the current hour (or of the next hour once it has passed, with
/// hour 23 rolling to tomorrow); with nothing specified the previous instant
/// stands unchanged. A field is specified when it is non-negative; minute 0
/// in particular schedules the top of the hour.
pub open spec fn spec_leap_candidate(now: int, now_c: CivilTime, lt: LeapTime, off: int,
    previous: int) -> int {
    let h = if lt.hour < 0 { 0 } else { lt.hour as int };
    let mi = if lt.minute < 0 { 0 } else { lt.minute as int };
    if lt.day > 0 {
        let this_month = spec_epoch_of_civil(CivilTime {
            day: lt.day as u32,
            hour: h as u32,
            minute: mi as u32,
            second: 0,
            ..now_c
        }, off);
        if now < this_month {
            this_month
        } else {
            let ny = if now_c.month == 12 { now_c.year + 1 } else { now_c.year as int };
            let nm = if now_c.month == 12 { 1 } else { now_c.month + 1 };
            spec_epoch_of_civil(CivilTime {
                year: ny as i32,
                month: nm as u32,
                day: lt.day as u32,
                hour: h as u32,
                minute: mi as u32,
                second: 0,
            }, off)
        }
    } else if lt.hour >= 0 {
        let today = spec_epoch_of_civil(CivilTime {
            hour: lt.hour as u32,
            minute: mi as u32,
            second: 0,
            ..now_c
        }, off);
        if now < today {
            today
        } else {
            spec_epoch_of_civil(CivilTime {
                hour: lt.hour as u32,
                minute: mi as u32,
                second: 0,
                ..spec_next_day(now_c)
            }, off)
        }
    } else if lt.minute >= 0 {
        let this_hour = spec_epoch_of_civil(CivilTime {
            minute: lt.minute as u32,
            second: 0,
            ..now_c
        }, off);
        if now < this_hour {
            this_hour
        } else if now_c.hour == 23 {
            spec_epoch_of_civil(CivilTime {
                hour: 0,
                minute: lt.minute as u32,
                second: 0,
                ..spec_next_day(now_c)
            }, off)
        } else {
            spec_epoch_of_civil(CivilTime {
                hour: (now_c.hour + 1) as u32,
                minute: lt.minute as u32,
                second: 0,
                ..now_c
            }, off)
        }
    } else {
        previous
    }
}

/// The next instant in leap-time mode: the candidate clamped up to the
/// window start, and terminal past the window end when the end is a real
/// future bound.
pub open spec fn spec_next_wake_leap(now: int, now_c: CivilTime, lt: LeapTime, off: int,
    previous: int, start: int, end: int) -> Option<int> {
    let cand = spec_leap_candidate(now, now_c, lt, off, previous);
    if cand < start {
        Some(start)
    } else if cand > end && end > now {
        None
    } else {
        Some(cand)
    }
}

/// What the scheduler returns: periodic mode for a positive duration, else
/// leap-time mode read in the civil breakdown of `now`.
pub open spec fn spec_next_wake(lt: LeapTime, timezone: int, previous: int, duration: int,
    start: int, end: int, now: int) -> Option<int> {
    if duration > 0 {
        spec_next_wake_periodic(previous, duration, start, end)
    } else {
        spec_next_wake_leap(now, spec_civil_of(now, timezone * 3600), lt, timezone * 3600,
            previous, start, end)
    }
}

/// The periodic determinism law: with a positive duration and no configured
/// window, the next wake instant is exactly the previous one plus the
/// duration.
pub proof fn lemma_periodic_next(previous: int, duration: int, start: int, end: int)
    requires
        duration > 0,
        start >= end,
    ensures
        spec_next_wake_periodic(previous, duration, start, end) == Some(previous + duration),
{
}

/// Compute the next capture instant, or `None` when the capture sequence
/// ends. A positive `duration` selects periodic mode; a zero duration reads
/// the leap-time fields against `now` in the configured timezone. `now` is
/// epoch seconds and must come from the caller's clock; leap-time mode asks
/// for a sane one — at least a day past the epoch and before the year 9999 —
/// which the caller checks before calling (a boot without time sync has no
/// business computing calendar wakes).
pub fn get_next_wake_time(lt: LeapTime, timezone: i32, next_capture_time: u64, duration: u32,
    capture_start_time: u64, capture_end_time: u64, now: u64) -> (r: Option<u64>)
    requires
        -23 <= timezone <= 23,
        duration > 0 ==> next_capture_time + duration <= u64::MAX,
        duration == 0 ==> {
            let c = spec_civil_of(now as int, timezone * 3600);
            &&& now < 253402214400
            &&& now >= 86400
            &&& lt.hour < 24
            &&& lt.minute < 60
            &&& (lt.day > 0 ==> {
                &&& lt.day <= spec_days_in_month(c.year as int, c.month as int)
                &&& lt.day <= spec_days_in_month(
                    if c.month == 12 { c.year + 1 } else { c.year as int },
                    if c.month == 12 { 1 } else { c.month + 1 },
                )
            })
        },
    ensures
        ({
            let s = spec_next_wake(lt, timezone as int, next_capture_time as int,
                duration as int, capture_start_time as int, capture_end_time as int,
                now as int);
            match r {
                Some(v) => s == Some(v as int),
                None => s is None,
            }
        }),
{
    if duration > 0 {
        let next = next_capture_time + duration as u64;
        if capture_start_time < capture_end_time {
            if next < capture_start_time {
                return Some(capture_start_time);
            } else if next >= capture_end_time {
                return None;
            }
        }
        return Some(next);
    }
    let off: i32 = timezone * 3600;
    let now_c = civil_from_epoch(now as i64, off);
    let lt_hour: i32 = if lt.hour < 0 { 0 } else { lt.hour };
    let lt_minute: i32 = if lt.minute < 0 { 0 } else { lt.minute };
    let clamp_start = capture_start_time;
    let clamp_end = capture_end_time;
    if lt.day > 0 {
        let cand_c = CivilTime {
            day: lt.day as u32,
            hour: lt_hour as u32,
            minute: lt_minute as u32,
            second: 0,
            ..now_c
        };
        let t = epoch_from_civil(cand_c, off);
        let cand: i64 = if (now as i64) < t {
            t
        } else {
            let ny: i32 = if now_c.month == 12 { now_c.year + 1 } else { now_c.year };
            let nm: u32 = if now_c.month == 12 { 1 } else { now_c.month + 1 };
            let next_c = CivilTime {
                year: ny,
                month: nm,
                day: lt.day as u32,
                hour: lt_hour as u32,
                minute: lt_minute as u32,
                second: 0,
            };
            epoch_from_civil(next_c, off)
        };
        clamp_to_window(cand, clamp_start, clamp_end, now)
    } else if lt.hour >= 0 {
        let cand_c = CivilTime {
            hour: lt_hour as u32,
            minute: lt_minute as u32,
            second: 0,
            ..now_c
        };
        let t = epoch_from_civil(cand_c, off);
        let cand: i64 = if (now as i64) < t {
            t
        } else {
            let tm = next_day(now_c);
            let next_c = CivilTime {
                hour: lt_hour as u32,
                minute: lt_minute as u32,
                second: 0,
                ..tm
            };
            epoch_from_civil(next_c, off)
        };
        clamp_to_window(cand, clamp_start, clamp_end, now)
    } else if lt.minute >= 0 {
        let cand_c = CivilTime { minute: lt.minute as u32, second: 0, ..now_c };
        let t = epoch_from_civil(cand_c, off);
        let cand: i64 = if (now as i64) < t {
            t
        } else if now_c.hour == 23 {
            let tm = next_day(now_c);
            let next_c = CivilTime { hour: 0, minute: lt.minute as u32, second: 0, ..tm };
            epoch_from_civil(next_c, off)
        } else {
            let next_c = CivilTime {
                hour: now_c.hour + 1,
                minute: lt.minute as u32,
                second: 0,
                ..now_c
            };
            epoch_from_civil(next_c, off)
        };
        clamp_to_window(cand, clamp_start, clamp_end, now)
    } else {
        if next_capture_time < clamp_start {
            Some(clamp_start)
        } else if next_capture_time > clamp_end && clamp_end > now {
            None
        } else {
            Some(next_capture_time)
        }
    }
}

/// Clamp a leap-time candidate into the capture window: lift it up to the
/// window start, and end the sequence past a window end that still lies in
/// the future.
fn clamp_to_window(cand: i64, start: u64, end: u64, now: u64) -> (r: Option<u64>)
    ensures
        ({
            let c = cand as int;
            if c < start {
                r == Some(start)
            } else if c > end && end > now {
                r is None
            } else {
                r == Some(cand as u64) && c >= 0
            }
        }),
{
    if cand < 0 {
        return Some(start);
    }
    let cu = cand as u64;
    if cu < start {
        Some(start)
    } else if cu > end && end > now {
        None
    } else {
        Some(cu)
    }
}

} // verus!
