use timelapse_core::schedule::{get_next_wake_time, LeapTime};

fn wildcard() -> LeapTime {
    LeapTime { year: -1, month: -1, day: -1, hour: -1, minute: -1, second: 0 }
}

#[test]
fn periodic_adds_duration() {
    let lt = wildcard();
    assert_eq!(get_next_wake_time(lt, 0, 1000, 90, 0, 0, 500), Some(1090));
    assert_eq!(get_next_wake_time(lt, 9, 1710079500, 3600, 0, 0, 1710079500),
        Some(1710083100));
    assert_eq!(get_next_wake_time(lt, 0, 7, 1, 0, 0, 0), Some(8));
}

#[test]
fn periodic_window_clamp_and_terminal() {
    let lt = wildcard();
    // next falls before the window: clamp up to its start
    assert_eq!(get_next_wake_time(lt, 0, 60, 10, 80, 120, 50), Some(80));
    // next = 150 falls past the window end 120: the sequence ends
    assert_eq!(get_next_wake_time(lt, 0, 100, 50, 80, 120, 100), None);
    // no window configured (start is not before end): no clamp
    assert_eq!(get_next_wake_time(lt, 0, 100, 50, 0, 0, 100), Some(150));
}

#[test]
fn leap_hour_today_already_passed() {
    // now = 2024-03-10 14:05 UTC; leap time 09:00 has passed today, so the
    // next capture is tomorrow 09:00
    let lt = LeapTime { year: -1, month: -1, day: -1, hour: 9, minute: 0, second: 0 };
    let now = 1710079500u64;
    assert_eq!(get_next_wake_time(lt, 0, 0, 0, 0, 0, now), Some(1710147600));
}

#[test]
fn leap_hour_still_ahead() {
    // now = 2024-03-10 14:05 UTC; 15:00 is still ahead today
    let lt = LeapTime { year: -1, month: -1, day: -1, hour: 15, minute: 0, second: 0 };
    let now = 1710079500u64;
    assert_eq!(get_next_wake_time(lt, 0, 0, 0, 0, 0, now), Some(1710079500 + 55 * 60));
}

#[test]
fn leap_hour_in_offset_timezone() {
    // now = 2024-03-10 14:05 UTC = 23:05 at UTC+9; 09:00 local has passed,
    // so tomorrow 09:00 local = 2024-03-11 00:00 UTC
    let lt = LeapTime { year: -1, month: -1, day: -1, hour: 9, minute: 0, second: 0 };
    let now = 1710079500u64;
    assert_eq!(get_next_wake_time(lt, 9, 0, 0, 0, 0, now), Some(1710115200));
}

#[test]
fn leap_day_this_month() {
    // now = 2024-03-10 14:05 UTC; day 15 at 08:30 is still ahead this month
    let lt = LeapTime { year: -1, month: -1, day: 15, hour: 8, minute: 30, second: 0 };
    let now = 1710079500u64;
    assert_eq!(get_next_wake_time(lt, 0, 0, 0, 0, 0, now), Some(1710491400));
}

#[test]
fn leap_day_rolls_to_january() {
    // now = 2024-12-31 23:00 UTC; day 31 at 00:00 has passed, so the next
    // occurrence is 2025-01-31 00:00
    let lt = LeapTime { year: -1, month: -1, day: 31, hour: -1, minute: -1, second: 0 };
    let now = 1735686000u64;
    assert_eq!(get_next_wake_time(lt, 0, 0, 0, 0, 0, now), Some(1738281600));
}

#[test]
fn leap_minute_this_hour() {
    // now = 2024-03-10 14:05 UTC; minute 30 of this hour is still ahead
    let lt = LeapTime { year: -1, month: -1, day: -1, hour: -1, minute: 30, second: 0 };
    let now = 1710079500u64;
    assert_eq!(get_next_wake_time(lt, 0, 0, 0, 0, 0, now), Some(1710081000));
}

#[test]
fn leap_minute_next_hour() {
    // now = 2024-03-10 14:45 UTC; minute 30 has passed, so 15:30
    let lt = LeapTime { year: -1, month: -1, day: -1, hour: -1, minute: 30, second: 0 };
    let now = 1710081900u64;
    assert_eq!(get_next_wake_time(lt, 0, 0, 0, 0, 0, now), Some(1710084600));
}

#[test]
fn leap_minute_hour_rollover() {
    // now = 2024-03-10 23:45 UTC; minute 30 has passed and the hour is 23,
    // so tomorrow 00:30
    let lt = LeapTime { year: -1, month: -1, day: -1, hour: -1, minute: 30, second: 0 };
    let now = 1710114300u64;
    assert_eq!(get_next_wake_time(lt, 0, 0, 0, 0, 0, now), Some(1710117000));
}

#[test]
fn leap_minute_zero_is_top_of_hour() {
    // minute 0 is a specified value, not a wildcard: with day and hour
    // unspecified it schedules the next top of the hour
    let lt = LeapTime { year: -1, month: -1, day: -1, hour: -1, minute: 0, second: 0 };
    // now = 2024-03-10 14:05 UTC; 14:00 has passed, so 15:00
    assert_eq!(get_next_wake_time(lt, 0, 0, 0, 0, 0, 1710079500), Some(1710082800));
    // at 14:00 sharp the candidate is not in the future, so 15:00 as well
    assert_eq!(get_next_wake_time(lt, 0, 0, 0, 0, 0, 1710079200), Some(1710082800));
    // hour 23 rolls to tomorrow 00:00
    assert_eq!(get_next_wake_time(lt, 0, 0, 0, 0, 0, 1710114300), Some(1710115200));
}

#[test]
fn leap_all_unspecified_keeps_previous() {
    let lt = wildcard();
    let now = 1710079500u64;
    assert_eq!(get_next_wake_time(lt, 0, 12345, 0, 0, 0, now), Some(12345));
}

#[test]
fn leap_window_terminal() {
    // candidate tomorrow 09:00 lies past a real future window end
    let lt = LeapTime { year: -1, month: -1, day: -1, hour: 9, minute: 0, second: 0 };
    let now = 1710079500u64;
    assert_eq!(get_next_wake_time(lt, 0, 0, 0, 0, now + 3600, now), None);
}
