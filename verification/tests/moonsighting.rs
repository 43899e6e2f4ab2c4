use mawaqit::methods::moonsighting::{days_since_solstice, leap_year};

#[test]
fn leap_years_follow_the_gregorian_rule() {
    assert!(leap_year(2016));
    assert!(!leap_year(2015));
    assert!(!leap_year(1900));
    assert!(leap_year(2000));
}

#[test]
fn northern_days_since_solstice_wrap_at_year_end() {
    assert_eq!(days_since_solstice(1, 2015, true), 11);
    assert_eq!(days_since_solstice(355, 2015, true), 0);
    assert_eq!(days_since_solstice(365, 2015, true), 10);
    assert_eq!(days_since_solstice(356, 2016, true), 0);
    assert_eq!(days_since_solstice(354, 2015, true), 364);
}

#[test]
fn southern_days_since_solstice_count_from_the_june_solstice() {
    assert_eq!(days_since_solstice(355, 2026, false), 183);
    assert_eq!(days_since_solstice(172, 2026, false), 0);
    assert_eq!(days_since_solstice(173, 2016, false), 0);
    assert_eq!(days_since_solstice(180, 2026, false), 8);
    assert_eq!(days_since_solstice(1, 2026, false), 194);
    assert_eq!(days_since_solstice(171, 2026, false), 364);
    assert_eq!(days_since_solstice(366, 2016, false), 193);
}
