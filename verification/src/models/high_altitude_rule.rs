use vstd::prelude::*;

use crate::schedule::{move_to_date, on_date};
use crate::time::{whole_seconds, Instant, MAX_TIMESTAMP};

verus! {

/// Rule for approximating Fajr and Isha at high latitudes.
#[derive(PartialEq, Eq, Structural, Debug, Copy, Clone)]
#[non_exhaustive]
pub enum HighLatitudeRule {
    /// Fajr won't be earlier than the midpoint of the night and Isha
    /// won't be later than the midpoint of the night.
    MiddleOfTheNight,
    /// Fajr will never be earlier than the beginning of the last seventh of
    /// the night and Isha will never be later than the end of the first
    /// seventh of the night.
    SeventhOfTheNight,
    /// The fajr/isha angle determines a fraction (angle / 60) of the night.
    TwilightAngle,
    /// MWL 2009 Local Relative Estimation.
    LocalRelativeEstimation,
    /// Deferred variant, resolved against the reference latitude.
    Recommended,
}

/// The day-to-day change of the Isha time in whole seconds, folded onto the
/// 24-hour clock when it exceeds half a day, as a distance.
pub open spec fn isha_jump_seconds(current: Instant, previous_today: Instant) -> int {
    let raw = whole_seconds(current@ - previous_today@);
    let folded = if raw > 43200 {
        raw - 86400
    } else if raw < -43200 {
        raw + 86400
    } else {
        raw
    };
    if folded < 0 {
        -folded
    } else {
        folded
    }
}

/// Whether a day enters the year's average Isha proportion of the night
/// (MWL 2009): a day whose Isha angle is reached counts when it is the first
/// after a day without a recorded Isha, and otherwise only when the previous
/// day was reachable and the Isha time of day moved by at most 10 minutes.
pub open spec fn spec_isha_day_included(
    previous_isha: Option<Instant>,
    previous_was_reachable: bool,
    isha: Option<Instant>,
    day_start: Instant,
) -> bool {
    match (isha, previous_isha) {
        (Some(current), Some(previous)) => previous_was_reachable && isha_jump_seconds(
            current,
            on_date(day_start, previous),
        ) <= 600,
        (Some(_), None) => true,
        _ => false,
    }
}

/// Decide whether a day enters the year's average Isha proportion of the
/// night (the day filter of the yearly scan for Local Relative Estimation).
/// `day_start` is midnight UTC of the day, `isha` the day's Isha angle time
/// if reached, `previous_isha` the previous day's recorded Isha.
pub fn isha_day_included(
    previous_isha: Option<Instant>,
    previous_was_reachable: bool,
    isha: Option<Instant>,
    day_start: Instant,
) -> (included: bool)
    requires
        day_start.wf(),
        day_start.secs % 86400 == 0,
        day_start.secs + 86400 <= MAX_TIMESTAMP + 1,
        previous_isha matches Some(t) ==> t.wf(),
        isha matches Some(t) ==> t.wf(),
    ensures
        included == spec_isha_day_included(previous_isha, previous_was_reachable, isha, day_start),
{
    match (isha, previous_isha) {
        (Some(current), Some(previous)) => {
            if previous_was_reachable {
                let previous_today = move_to_date(&day_start, &previous);
                let raw = current.seconds_since(&previous_today);
                let folded: i64 = if raw > 43200 {
                    raw - 86400
                } else if raw < -43200 {
                    raw + 86400
                } else {
                    raw
                };
                let diff: i64 = if folded < 0 {
                    -folded
                } else {
                    folded
                };
                diff <= 600
            } else {
                false
            }
        },
        (Some(_), None) => true,
        _ => false,
    }
}

} // verus!
