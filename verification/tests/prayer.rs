use mawaqit::time::Date;
use mawaqit::Prayer;

#[test]
fn prayer_names_are_date_independent_base_labels() {
    assert_eq!(Prayer::Fajr.name(), "Fajr");
    assert_eq!(Prayer::FajrTomorrow.name(), "Fajr");
    assert_eq!(Prayer::Sunrise.name(), "Sunrise");
    assert_eq!(Prayer::Dhuhr.name(), "Dhuhr");
    assert_eq!(Prayer::Asr.name(), "Asr");
    assert_eq!(Prayer::Maghrib.name(), "Maghrib");
    assert_eq!(Prayer::Isha.name(), "Isha");
    assert_eq!(Prayer::Qiyam.name(), "Qiyam");
}

#[test]
fn dhuhr_is_jumua_on_friday() {
    let friday = Date::from_ymd_opt(2026, 6, 19).expect("valid date");
    assert_eq!(Prayer::Dhuhr.name_on(friday), "Jumua");
}

#[test]
fn dhuhr_is_plain_on_non_friday() {
    let sunday = Date::from_ymd_opt(2026, 6, 21).expect("valid date");
    assert_eq!(Prayer::Dhuhr.name_on(sunday), "Dhuhr");
    assert_eq!(Prayer::Fajr.name_on(sunday), "Fajr");
}

#[test]
fn only_dhuhr_changes_its_label_on_friday() {
    let friday = Date::from_ymd_opt(2026, 6, 19).expect("valid date");
    for prayer in [
        Prayer::Fajr,
        Prayer::Sunrise,
        Prayer::Asr,
        Prayer::Maghrib,
        Prayer::Isha,
        Prayer::Qiyam,
        Prayer::FajrTomorrow,
    ] {
        assert_eq!(prayer.name_on(friday), prayer.name());
    }
}

#[test]
fn weekday_is_counted_from_monday() {
    let thursday = Date::from_ymd_opt(1970, 1, 1).expect("valid date");
    assert_eq!(thursday.days, 0);
    assert_eq!(thursday.weekday_from_monday(), 3);
    let monday = Date::from_ymd_opt(2026, 6, 22).expect("valid date");
    assert_eq!(monday.weekday_from_monday(), 0);
    let before_epoch = Date::from_ymd_opt(1969, 12, 31).expect("valid date");
    assert_eq!(before_epoch.days, -1);
    assert_eq!(before_epoch.weekday_from_monday(), 2);
    assert!(Date::from_ymd_opt(2026, 6, 19).expect("valid date").is_friday());
}

#[test]
fn invalid_dates_are_rejected() {
    assert!(Date::from_ymd_opt(2015, 3, 14).is_some());
    assert!(Date::from_ymd_opt(2015, 0, 14).is_none());
    assert!(Date::from_ymd_opt(2015, 2, 29).is_none());
    assert!(Date::from_ymd_opt(2016, 2, 29).is_some());
    assert!(Date::from_ymd_opt(1900, 2, 29).is_none());
    assert!(Date::from_ymd_opt(2000, 2, 29).is_some());
    assert!(Date::from_ymd_opt(2015, 4, 31).is_none());
    assert!(Date::from_ymd_opt(400000, 1, 1).is_none());
    assert!(Date::from_ymd_opt(-400000, 1, 1).is_none());
}
