use mawaqit::models::method::Method;
use mawaqit::schedule::{
    calculate_fajr, calculate_isha, compute_lre, lre_step, LreDay, PrayerTimes, ScheduleError,
};
use mawaqit::time::MAX_TIMESTAMP;
use mawaqit::{Rounding, TimeAdjustment};
use mawaqit::time::{Date, Instant};
use mawaqit::Prayer;

fn utc(year: i32, month: u32, day: u32, hour: u32, minute: u32, second: u32) -> Instant {
    Date::from_ymd_opt(year, month, day)
        .expect("Invalid date provided")
        .and_hms_opt(hour, minute, second)
        .expect("Invalid date provided")
}

/// Raleigh (35.7750, -78.6336) on 2015-07-12, North America method, Hanafi:
/// fajr 08:42Z, sunrise 10:08Z, dhuhr 17:21Z, asr 22:22Z, maghrib 00:32Z and
/// isha 01:57Z the next day; the previous Isha at 01:57Z and the next Fajr at
/// 08:43Z the next day.
fn raleigh_2015_07_12() -> PrayerTimes {
    PrayerTimes::from_times(
        utc(2015, 7, 12, 8, 42, 0),
        utc(2015, 7, 12, 10, 8, 0),
        utc(2015, 7, 12, 17, 21, 0),
        utc(2015, 7, 12, 22, 22, 0),
        utc(2015, 7, 13, 0, 32, 0),
        utc(2015, 7, 13, 1, 57, 0),
        utc(2015, 7, 12, 1, 57, 0),
        utc(2015, 7, 13, 8, 43, 0),
    )
}

#[test]
fn current_prayer_should_be_fajr() {
    let times = raleigh_2015_07_12();
    let current_prayer_time = utc(2015, 7, 12, 9, 0, 0);

    assert_eq!(times.current_time(current_prayer_time), Prayer::Fajr);
}

#[test]
fn current_prayer_should_be_sunrise() {
    let times = raleigh_2015_07_12();
    let current_prayer_time = utc(2015, 7, 12, 11, 0, 0);

    assert_eq!(times.current_time(current_prayer_time), Prayer::Sunrise);
}

#[test]
fn current_prayer_should_be_dhuhr() {
    let times = raleigh_2015_07_12();
    let current_prayer_time = utc(2015, 7, 12, 19, 0, 0);

    assert_eq!(times.current_time(current_prayer_time), Prayer::Dhuhr);
}

#[test]
fn current_prayer_should_be_asr() {
    let times = raleigh_2015_07_12();
    let current_prayer_time = utc(2015, 7, 12, 22, 26, 0);

    assert_eq!(times.current_time(current_prayer_time), Prayer::Asr);
}

#[test]
fn current_prayer_should_be_maghrib() {
    let times = raleigh_2015_07_12();
    let current_prayer_time = utc(2015, 7, 13, 1, 0, 0);

    assert_eq!(times.current_time(current_prayer_time), Prayer::Maghrib);
}

#[test]
fn current_prayer_should_be_isha() {
    let times = raleigh_2015_07_12();
    let current_prayer_time = utc(2015, 7, 13, 2, 0, 0);

    assert_eq!(times.current_time(current_prayer_time), Prayer::Isha);
}

#[test]
fn current_prayer_should_be_isha_before_fajr() {
    let times = raleigh_2015_07_12();
    let probe = utc(2015, 7, 12, 8, 0, 0);

    assert_eq!(times.current_time(probe), Prayer::Isha);
    // In the gap, current_prayer_time should return isha_yesterday (a time in the past),
    // NOT the day's isha (which is in the future during the gap)
    let cpt = times.current_prayer_time_from(probe);
    assert!(
        !probe.is_before(&cpt),
        "current_prayer_time() during gap should return a time <= probe"
    );
    assert_eq!(cpt, utc(2015, 7, 12, 1, 57, 0));
    assert_eq!(times.time(Prayer::Isha), utc(2015, 7, 13, 1, 57, 0));
    assert!(
        probe.is_before(&times.time(Prayer::Isha)),
        "self.isha should be in the future during the gap"
    );
}

#[test]
fn next_prayer_follows_the_current_one() {
    let times = raleigh_2015_07_12();
    assert_eq!(times.next_at(utc(2015, 7, 12, 8, 0, 0)), Prayer::Fajr);
    assert_eq!(times.next_at(utc(2015, 7, 12, 9, 0, 0)), Prayer::Sunrise);
    assert_eq!(times.next_at(utc(2015, 7, 12, 11, 0, 0)), Prayer::Dhuhr);
    assert_eq!(times.next_at(utc(2015, 7, 12, 19, 0, 0)), Prayer::Asr);
    assert_eq!(times.next_at(utc(2015, 7, 12, 22, 26, 0)), Prayer::Maghrib);
    assert_eq!(times.next_at(utc(2015, 7, 13, 1, 0, 0)), Prayer::Isha);
    assert_eq!(times.next_at(utc(2015, 7, 13, 2, 0, 0)), Prayer::Qiyam);
    assert_eq!(times.next_at(utc(2015, 7, 13, 6, 0, 0)), Prayer::FajrTomorrow);
    assert_eq!(times.next_at(utc(2015, 7, 13, 9, 0, 0)), Prayer::FajrTomorrow);
    assert_eq!(times.current_time(utc(2015, 7, 13, 9, 0, 0)), Prayer::FajrTomorrow);
}

#[test]
fn a_prayer_counts_as_begun_within_its_last_second() {
    let times = raleigh_2015_07_12();
    let just_before_fajr =
        Instant::from_timestamp(utc(2015, 7, 12, 8, 41, 59).timestamp(), 1).unwrap();
    assert_eq!(times.current_time(just_before_fajr), Prayer::Fajr);
    let a_second_before_fajr = utc(2015, 7, 12, 8, 41, 59);
    assert_eq!(times.current_time(a_second_before_fajr), Prayer::Isha);
}

#[test]
fn qiyam_is_the_last_third_of_the_night() {
    let times = raleigh_2015_07_12();
    // 00:32 to 08:43 is 29460 s: half 14730 s (04:37:30 -> 04:38),
    // two thirds 19640 s (05:59:20 -> 05:59).
    assert_eq!(times.time(Prayer::Qiyam), utc(2015, 7, 13, 5, 59, 0));
    assert_eq!(times.time(Prayer::FajrTomorrow), utc(2015, 7, 13, 8, 43, 0));
    let (middle, qiyam, fajr) =
        PrayerTimes::calculate_qiyam(utc(2015, 7, 13, 0, 32, 0), utc(2015, 7, 13, 8, 43, 0));
    assert_eq!(middle, utc(2015, 7, 13, 4, 38, 0));
    assert_eq!(qiyam, utc(2015, 7, 13, 5, 59, 0));
    assert_eq!(fajr, utc(2015, 7, 13, 8, 43, 0));
}

#[test]
fn qiyam_of_a_negative_night_truncates_toward_zero() {
    let (middle, qiyam, _) =
        PrayerTimes::calculate_qiyam(utc(2015, 7, 13, 0, 0, 0), utc(2015, 7, 12, 23, 59, 0));
    // -60 s: half -30 s (23:59:30 -> 00:00), two thirds -40 s (23:59:20 -> 23:59).
    assert_eq!(middle, utc(2015, 7, 13, 0, 0, 0));
    assert_eq!(qiyam, utc(2015, 7, 12, 23, 59, 0));
}

#[test]
fn fajr_is_clamped_to_the_safe_time() {
    let sunrise = utc(2026, 6, 21, 3, 30, 0);
    let safe = utc(2026, 6, 21, 1, 0, 0);
    let early = Some(utc(2026, 6, 21, 0, 30, 0));
    let late = Some(utc(2026, 6, 21, 2, 0, 0));
    let night = 6 * 3600;
    let other = Method::MuslimWorldLeague;
    assert_eq!(calculate_fajr(other, true, sunrise, early, safe, night, 0), safe);
    assert_eq!(calculate_fajr(other, true, sunrise, late, safe, night, 0), late.unwrap());
    assert_eq!(calculate_fajr(other, false, sunrise, None, safe, night, 2), utc(2026, 6, 21, 1, 2, 0));
    // Moonsighting Committee from 55°: one seventh of the night before sunrise.
    let committee = Method::MoonsightingCommittee;
    let seventh = utc(2026, 6, 21, 2, 38, 35);
    assert_eq!(calculate_fajr(committee, true, sunrise, early, safe, night, 0), seventh);
    assert_eq!(calculate_fajr(committee, false, sunrise, early, safe, night, 0), safe);
}

#[test]
fn isha_is_clamped_to_the_safe_time_or_follows_the_interval() {
    let sunset = utc(2026, 6, 21, 20, 0, 0);
    let safe = utc(2026, 6, 21, 23, 0, 0);
    let late = Some(utc(2026, 6, 21, 23, 30, 0));
    let early = Some(utc(2026, 6, 21, 21, 30, 0));
    let night = 6 * 3600;
    let other = Method::MuslimWorldLeague;
    assert_eq!(calculate_isha(other, false, 0, sunset, late, safe, night, 0), safe);
    assert_eq!(calculate_isha(other, false, 0, sunset, early, safe, night, -1), utc(2026, 6, 21, 21, 29, 0));
    assert_eq!(calculate_isha(Method::UmmAlQura, false, 90, sunset, late, safe, night, 0), utc(2026, 6, 21, 21, 30, 0));
    let committee = Method::MoonsightingCommittee;
    assert_eq!(calculate_isha(committee, true, 0, sunset, late, safe, night, 0), utc(2026, 6, 21, 20, 51, 25));
}

fn day(date: (i32, u32, u32), real: Option<Instant>, real_yesterday: Option<Instant>, pct: Instant) -> LreDay {
    LreDay {
        day_start: Date::from_ymd_opt(date.0, date.1, date.2).unwrap().start(),
        real,
        real_yesterday,
        pct_time: pct,
    }
}

#[test]
fn lre_undisturbed_day_keeps_the_real_time() {
    let real = utc(2026, 6, 10, 22, 40, 0);
    let days = vec![day((2026, 6, 10), Some(real), Some(utc(2026, 6, 9, 22, 38, 0)), utc(2026, 6, 10, 22, 0, 0))];
    assert_eq!(compute_lre(&days, true), real);
}

#[test]
fn lre_ramps_five_minutes_per_day_toward_the_percentage_time() {
    // Isha: the real time disappears; the smoothed time moves 5 minutes
    // earlier each day toward the percentage time, then holds it.
    let pct = |d: u32| utc(2026, 6, d, 22, 0, 0);
    let days = vec![
        day((2026, 6, 10), Some(utc(2026, 6, 10, 22, 20, 0)), Some(utc(2026, 6, 9, 22, 18, 0)), pct(10)),
        day((2026, 6, 11), None, Some(utc(2026, 6, 10, 22, 20, 0)), pct(11)),
        day((2026, 6, 12), None, None, pct(12)),
        day((2026, 6, 13), None, None, pct(13)),
        day((2026, 6, 14), None, None, pct(14)),
        day((2026, 6, 15), None, None, pct(15)),
    ];
    assert_eq!(compute_lre(&days[..2].to_vec(), true), utc(2026, 6, 11, 22, 15, 0));
    assert_eq!(compute_lre(&days[..3].to_vec(), true), utc(2026, 6, 12, 22, 10, 0));
    // Within 5 minutes of the percentage time the ramp snaps onto it.
    assert_eq!(compute_lre(&days[..4].to_vec(), true), pct(13));
    assert_eq!(compute_lre(&days[..5].to_vec(), true), pct(14));
    assert_eq!(compute_lre(&days, true), pct(15));
}

#[test]
fn lre_exit_ramps_back_toward_the_real_time() {
    // Fajr: the smoothed time sits at the percentage time; the real time is
    // back but disturbed, so the time moves 5 minutes earlier per day.
    let prev = utc(2026, 6, 20, 2, 0, 0);
    let today = day(
        (2026, 6, 21),
        Some(utc(2026, 6, 21, 1, 30, 0)),
        None,
        utc(2026, 6, 21, 2, 0, 0),
    );
    assert_eq!(lre_step(&prev, &today, false), utc(2026, 6, 21, 1, 55, 0));
    let close = day(
        (2026, 6, 21),
        Some(utc(2026, 6, 21, 1, 52, 0)),
        None,
        utc(2026, 6, 21, 2, 0, 0),
    );
    assert_eq!(lre_step(&prev, &close, false), utc(2026, 6, 21, 1, 52, 0));
}

fn order(p: Prayer) -> i32 {
    match p {
        Prayer::Fajr => 0,
        Prayer::Sunrise => 1,
        Prayer::Dhuhr => 2,
        Prayer::Asr => 3,
        Prayer::Maghrib => 4,
        Prayer::Isha => 5,
        Prayer::Qiyam => 6,
        Prayer::FajrTomorrow => 7,
    }
}

#[test]
fn current_prayer_only_moves_forward_through_the_day() {
    let times = raleigh_2015_07_12();
    let start = utc(2015, 7, 12, 0, 0, 0);
    let mut previous = -1;
    for minute in 0..(2 * 24 * 60) {
        let now = start.adjust_time(minute);
        let current = times.current_time(now);
        let begun = if times.time(current).seconds_since(&now) > 0 {
            -1
        } else {
            order(current)
        };
        assert!(begun >= previous, "moved back at minute {minute}");
        previous = begun;
    }
    assert_eq!(previous, 7);
}

#[test]
fn middle_of_the_night_comes_before_qiyam() {
    let maghrib = utc(2026, 6, 21, 20, 0, 0);
    for minutes in [0, 1, 59, 60, 61, 119, 300, 7 * 60 + 13] {
        let fajr = maghrib.adjust_time(minutes);
        let (middle, qiyam, _) = PrayerTimes::calculate_qiyam(maghrib, fajr);
        assert!(!qiyam.is_before(&middle), "night of {minutes} min");
    }
}

#[test]
fn current_at_matches_current_time() {
    let times = raleigh_2015_07_12();
    for hour in 0..24 {
        let now = utc(2015, 7, 12, hour, 30, 0);
        assert_eq!(times.current_at(now), times.current_time(now));
    }
}

#[test]
fn time_remaining_is_exact_and_goes_negative() {
    let times = raleigh_2015_07_12();
    // At 09:00 the next prayer is sunrise at 10:08.
    let now = utc(2015, 7, 12, 9, 0, 0);
    assert_eq!(times.time_remaining_at(now), 68 * 60 * 1_000_000_000);
    // One minute and 59.5 seconds before Dhuhr.
    let close = Instant::from_timestamp(utc(2015, 7, 12, 17, 19, 0).timestamp(), 500_000_000)
        .unwrap();
    assert_eq!(times.time_remaining_at(close), 119_500_000_000);
    // Within the last second Dhuhr counts as begun: the next is Asr.
    let begun = Instant::from_timestamp(utc(2015, 7, 12, 17, 20, 59).timestamp(), 500_000_000)
        .unwrap();
    assert_eq!(times.next_at(begun), Prayer::Asr);
    // After tomorrow's Fajr the remaining time is negative.
    let late = utc(2015, 7, 13, 9, 0, 0);
    assert_eq!(times.time_remaining_at(late), -17 * 60 * 1_000_000_000);
}

#[test]
fn assemble_adjusts_and_rounds_each_prayer() {
    let adjustments = TimeAdjustment::new(-2, 1, 0, 0, 2, 4);
    let method = TimeAdjustment::new(0, 0, 5, 0, 3, 0);
    let times = PrayerTimes::assemble(
        utc(2015, 7, 12, 8, 42, 10),
        utc(2015, 7, 12, 10, 8, 40),
        utc(2015, 7, 12, 17, 21, 29),
        utc(2015, 7, 12, 22, 22, 30),
        utc(2015, 7, 13, 0, 32, 0),
        utc(2015, 7, 13, 1, 57, 1),
        utc(2015, 7, 12, 1, 57, 59),
        utc(2015, 7, 13, 8, 43, 0),
        &adjustments,
        &method,
        Rounding::Nearest,
    )
    .expect("in range");
    assert_eq!(times.time(Prayer::Fajr), utc(2015, 7, 12, 8, 40, 0));
    assert_eq!(times.time(Prayer::Sunrise), utc(2015, 7, 12, 10, 10, 0));
    assert_eq!(times.time(Prayer::Dhuhr), utc(2015, 7, 12, 17, 26, 0));
    assert_eq!(times.time(Prayer::Asr), utc(2015, 7, 12, 22, 23, 0));
    assert_eq!(times.time(Prayer::Maghrib), utc(2015, 7, 13, 0, 37, 0));
    assert_eq!(times.time(Prayer::Isha), utc(2015, 7, 13, 2, 1, 0));
    assert_eq!(times.time(Prayer::FajrTomorrow), utc(2015, 7, 13, 8, 41, 0));
    // Night 00:37 to 08:41 is 29040 s: two thirds 19360 s -> 05:59:40 -> 06:00.
    assert_eq!(times.time(Prayer::Qiyam), utc(2015, 7, 13, 6, 0, 0));
    // Yesterday's Isha shows before Fajr.
    assert_eq!(
        times.current_prayer_time_from(utc(2015, 7, 12, 8, 0, 0)),
        utc(2015, 7, 12, 2, 2, 0)
    );
}

#[test]
fn assemble_reports_times_out_of_range() {
    let none = TimeAdjustment::default();
    let last = Instant::from_timestamp(MAX_TIMESTAMP - 10, 0).unwrap();
    let t = utc(2015, 7, 12, 8, 42, 0);
    let result = PrayerTimes::assemble(t, t, t, t, last, t, t, t, &none, &none, Rounding::NoRounding);
    assert!(result.is_ok());
    let result = PrayerTimes::assemble(t, t, t, t, last, t, t, t, &none, &none, Rounding::Up);
    assert_eq!(result, Err(ScheduleError::TimeOutOfRange));
    let late = TimeAdjustment::new(0, 0, 0, 0, 1, 0);
    let result = PrayerTimes::assemble(t, t, t, t, last, t, t, t, &late, &none, Rounding::NoRounding);
    assert_eq!(result, Err(ScheduleError::TimeOutOfRange));
}

#[test]
fn lre_ramp_stays_within_ten_minutes_per_day() {
    let pct = |d: u32| utc(2026, 6, d, 21, 0, 0);
    let mut days = vec![day(
        (2026, 6, 1),
        Some(utc(2026, 6, 1, 23, 0, 0)),
        Some(utc(2026, 5, 31, 22, 58, 0)),
        pct(1),
    )];
    for d in 2..=30 {
        let previous_real = days[days.len() - 1].real;
        days.push(day((2026, 6, d), None, previous_real, pct(d)));
    }
    let mut previous = compute_lre(&days[..1].to_vec(), true);
    for n in 2..=days.len() {
        let smoothed = compute_lre(&days[..n].to_vec(), true);
        let prev_today = days[n - 1].day_start.timestamp() + previous.timestamp().rem_euclid(86400);
        let step = (smoothed.timestamp() - prev_today).abs();
        assert!(step <= 600, "day {n}: moved {step} s");
        previous = smoothed;
    }
    assert_eq!(previous, pct(30));
}

#[test]
fn sevenths_rule_applies_south_of_55_degrees_too() {
    // Palmer Station (-64.77°): |latitude| >= 55, so the one-seventh rule holds.
    let abs_latitude_at_least_55 = (-64.77_f64).abs() >= 55.0;
    let sunset = utc(2026, 12, 21, 2, 0, 0);
    let sunrise = utc(2026, 12, 21, 7, 0, 0);
    let night = 5 * 3600;
    let committee = Method::MoonsightingCommittee;
    let late_safe = utc(2026, 12, 21, 5, 0, 0);
    let early_safe = utc(2026, 12, 21, 3, 0, 0);
    assert_eq!(
        calculate_isha(committee, abs_latitude_at_least_55, 0, sunset, None, late_safe, night, 0),
        utc(2026, 12, 21, 2, 42, 51)
    );
    assert_eq!(
        calculate_fajr(committee, abs_latitude_at_least_55, sunrise, None, early_safe, night, 0),
        utc(2026, 12, 21, 6, 17, 9)
    );
}
