use mawaqit::time::{Date, Instant, MAX_TIMESTAMP, MIN_TIMESTAMP};
use mawaqit::Rounding;

fn utc(year: i32, month: u32, day: u32, hour: u32, minute: u32, second: u32) -> Instant {
    Date::from_ymd_opt(year, month, day)
        .expect("Invalid date and time.")
        .and_hms_opt(hour, minute, second)
        .expect("Invalid date and time.")
}

#[test]
fn calculate_rounding_nearest() {
    let time_1 = utc(2015, 7, 13, 4, 37, 30);

    assert_eq!(
        time_1.rounded_minute(Rounding::Nearest),
        utc(2015, 7, 13, 4, 38, 0)
    );
}

#[test]
fn calculate_rounding_up() {
    let time_1 = utc(2015, 7, 13, 5, 59, 20);

    assert_eq!(time_1.rounded_minute(Rounding::Up), utc(2015, 7, 13, 6, 0, 0));
}

#[test]
fn calculate_rounding_none() {
    let time_1 = utc(2015, 7, 13, 5, 59, 20);

    assert_eq!(
        time_1.rounded_minute(Rounding::NoRounding),
        utc(2015, 7, 13, 5, 59, 20)
    );
}

#[test]
fn rounding_nearest_goes_down_below_half_a_minute() {
    let time_1 = utc(2015, 7, 13, 4, 37, 29);
    assert_eq!(time_1.rounded_minute(Rounding::Nearest), utc(2015, 7, 13, 4, 37, 0));
}

#[test]
fn rounding_keeps_nanoseconds_and_crosses_midnight() {
    let late = Instant::from_timestamp(utc(2015, 12, 31, 23, 59, 45).timestamp(), 250)
        .expect("in range");
    let rounded = late.rounded_minute(Rounding::Nearest);
    assert_eq!(rounded.timestamp(), utc(2016, 1, 1, 0, 0, 0).timestamp());
    assert_eq!(rounded.timestamp_subsec_nanos(), 250);
    assert_eq!(rounded.second(), 0);
}

#[test]
fn rounding_up_on_a_minute_boundary_adds_a_minute() {
    let on_boundary = utc(2015, 7, 13, 6, 0, 0);
    assert_eq!(on_boundary.rounded_minute(Rounding::Up), utc(2015, 7, 13, 6, 1, 0));
    assert_eq!(on_boundary.rounded_minute(Rounding::Nearest), on_boundary);
}

#[test]
fn rounding_before_the_epoch() {
    let before = utc(1969, 12, 31, 23, 59, 31);
    assert_eq!(before.second(), 31);
    assert_eq!(before.rounded_minute(Rounding::Nearest), utc(1970, 1, 1, 0, 0, 0));
}

#[test]
fn tomorrow_and_yesterday_cross_year_boundaries() {
    let new_years_eve = utc(2015, 12, 31, 7, 8, 9);
    assert_eq!(new_years_eve.tomorrow(), utc(2016, 1, 1, 7, 8, 9));
    assert_eq!(new_years_eve.tomorrow().yesterday(), new_years_eve);
    let leap_day = utc(2016, 2, 29, 12, 0, 0);
    assert_eq!(leap_day.yesterday(), utc(2016, 2, 28, 12, 0, 0));
    assert_eq!(leap_day.tomorrow(), utc(2016, 3, 1, 12, 0, 0));
    let new_year = utc(2016, 1, 1, 0, 0, 1);
    assert_eq!(new_year.next_date(false), utc(2015, 12, 31, 0, 0, 1));
    assert_eq!(new_year.next_date(true), utc(2016, 1, 2, 0, 0, 1));
}

#[test]
fn adjust_time_moves_by_minutes() {
    let t = utc(2015, 7, 13, 23, 58, 0);
    assert_eq!(t.adjust_time(3), utc(2015, 7, 14, 0, 1, 0));
    assert_eq!(t.adjust_time(-3), utc(2015, 7, 13, 23, 55, 0));
    assert_eq!(t.adjust_time(90).adjust_time(-90), t);
}

#[test]
fn instant_range_and_dates() {
    assert!(Instant::from_timestamp(MAX_TIMESTAMP, 999_999_999).is_some());
    assert!(Instant::from_timestamp(MAX_TIMESTAMP + 1, 0).is_none());
    assert!(Instant::from_timestamp(MIN_TIMESTAMP, 0).is_some());
    assert!(Instant::from_timestamp(MIN_TIMESTAMP - 1, 0).is_none());
    assert!(Instant::from_timestamp(0, 1_000_000_000).is_none());
    let max = Instant::from_timestamp(MAX_TIMESTAMP, 0).expect("in range");
    assert!(max.checked_add_seconds(1).is_none());
    assert_eq!(max.checked_add_seconds(-1).expect("in range").timestamp(), MAX_TIMESTAMP - 1);
    assert_eq!(utc(2015, 7, 13, 4, 37, 30).timestamp(), 1436762250);
    assert_eq!(utc(2015, 7, 13, 4, 37, 30).date_naive(), Date::from_ymd_opt(2015, 7, 13).unwrap());
    assert_eq!(utc(1969, 12, 31, 23, 0, 0).date_naive().days, -1);
    assert_eq!(Date::from_ymd_opt(2015, 7, 13).unwrap().start(), utc(2015, 7, 13, 0, 0, 0));
    let last_date = Date::from_ymd_opt(262142, 12, 31).expect("last date");
    assert_eq!(last_date.and_hms_opt(23, 59, 59).expect("valid").timestamp(), MAX_TIMESTAMP);
    let first_date = Date::from_ymd_opt(-262143, 1, 1).expect("first date");
    assert_eq!(first_date.start().timestamp(), MIN_TIMESTAMP);
    assert!(Date::from_ymd_opt(262143, 1, 1).is_none());
    assert!(Date::from_ymd_opt(2015, 7, 13).unwrap().and_hms_opt(24, 0, 0).is_none());
}

#[test]
fn seconds_between_instants_truncate_toward_zero() {
    let a = Instant::from_timestamp(100, 500_000_000).unwrap();
    let b = Instant::from_timestamp(99, 900_000_000).unwrap();
    assert_eq!(a.seconds_since(&b), 0);
    assert_eq!(b.seconds_since(&a), 0);
    let c = Instant::from_timestamp(97, 0).unwrap();
    assert_eq!(a.seconds_since(&c), 3);
    assert_eq!(c.seconds_since(&a), -3);
    assert!(c.is_before(&a));
    assert!(!a.is_before(&a));
}
