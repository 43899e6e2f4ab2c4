use vstd::prelude::*;

use crate::time::is_leap_year;

verus! {

/// Number of days in a Gregorian year.
pub open spec fn days_in_year(year: int) -> int {
    if is_leap_year(year) {
        366
    } else {
        365
    }
}

/// Days into the seasonal cycle of the Moonsighting Committee method.
/// North of the equator the cycle starts 10 days before the year (at the
/// December solstice) and wraps at the end of the year; south of it the
/// count is taken from the June solstice (day 172, or 173 in a leap year)
/// and wraps at the end of the year.
pub open spec fn spec_days_since_solstice(
    day_of_year: int,
    year: int,
    northern_hemisphere: bool,
) -> int {
    if northern_hemisphere {
        let lapsed = day_of_year + 10;
        if lapsed >= days_in_year(year) {
            lapsed - days_in_year(year)
        } else {
            lapsed
        }
    } else {
        (day_of_year + days_in_year(year) - southern_solstice_offset(year)) % days_in_year(year)
    }
}

/// Day of the year of the June solstice used for southern latitudes.
pub open spec fn southern_solstice_offset(year: int) -> int {
    if is_leap_year(year) {
        173
    } else {
        172
    }
}

/// Gregorian leap-year test.
pub fn leap_year(year: u32) -> (leap: bool)
    ensures
        leap == is_leap_year(year as int),
{
    year % 4 == 0 && (year % 100 != 0 || year % 400 == 0)
}

/// Solstice calculation to determine a date's seasonal progression, used in
/// the Moonsighting Committee method. `northern_hemisphere` is true for a
/// latitude of 0° or more.
pub fn days_since_solstice(day_of_year: u32, year: u32, northern_hemisphere: bool) -> (days: u32)
    requires
        northern_hemisphere ==> day_of_year + 10 <= u32::MAX,
    ensures
        days == spec_days_since_solstice(day_of_year as int, year as int, northern_hemisphere),
{
    let days_in_year: u32 = if leap_year(year) {
        366
    } else {
        365
    };
    if northern_hemisphere {
        let northern_offset: u32 = 10;
        let lapsed_days = day_of_year + northern_offset;
        if lapsed_days >= days_in_year {
            lapsed_days - days_in_year
        } else {
            lapsed_days
        }
    } else {
        let southern_offset: u32 = if leap_year(year) {
            173
        } else {
            172
        };
        (((day_of_year as u64) + (days_in_year as u64) - (southern_offset as u64)) % (
        days_in_year as u64)) as u32
    }
}

/// In both hemispheres, the seasonal day count of any day of the year lies
/// within the year, and the count is 0 on the solstice that starts the cycle.
pub proof fn law_days_since_solstice_within_year(
    day_of_year: int,
    year: int,
    northern_hemisphere: bool,
)
    requires
        1 <= day_of_year <= days_in_year(year),
    ensures
        0 <= spec_days_since_solstice(day_of_year, year, northern_hemisphere) < days_in_year(year),
        spec_days_since_solstice(days_in_year(year) - 10, year, true) == 0,
        spec_days_since_solstice(southern_solstice_offset(year), year, false) == 0,
{
}

} // verus!
