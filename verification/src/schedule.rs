//! # Prayer Schedule
//!
//! The times of one day's prayers and the decisions taken on them: which
//! prayer is in effect at an instant, which one comes next, and how the
//! night is divided for Qiyam.

use vstd::prelude::*;

use crate::models::adjustments::{spec_time_adjustments, time_adjustments, TimeAdjustment};
use crate::models::method::Method;
use crate::models::prayer::Prayer;
use crate::models::rounding::Rounding;
use crate::time::{
    chrono_now, instant_of, law_round_nearest_monotone, lemma_instant_of_in_range,
    lemma_instant_of_view, nanos_in_range, nanos_per_second, whole_seconds, Instant, MAX_TIMESTAMP,
    MIN_TIMESTAMP,
};

verus! {

/// True when an event at `t` counts as begun at `now`: the whole seconds of
/// `t - now`, truncated toward zero, are not positive, that is, `t` is less
/// than one second after `now`.
pub open spec fn has_started(t: Instant, now: Instant) -> bool {
    whole_seconds(t@ - now@) <= 0
}

/// Position of a prayer in the day, from Fajr (0) to tomorrow's Fajr (7).
pub open spec fn prayer_order(p: Prayer) -> int {
    match p {
        Prayer::Fajr => 0,
        Prayer::Sunrise => 1,
        Prayer::Dhuhr => 2,
        Prayer::Asr => 3,
        Prayer::Maghrib => 4,
        Prayer::Isha => 5,
        Prayer::Qiyam => 6,
        Prayer::FajrTomorrow => 7,
    }
}

/// `n` halved, truncated toward zero.
pub open spec fn half_toward_zero(n: int) -> int {
    if n >= 0 {
        n / 2
    } else {
        -((-n) / 2)
    }
}

/// Two thirds of `n`, truncated toward zero.
pub open spec fn two_thirds_toward_zero(n: int) -> int {
    if n >= 0 {
        (2 * n) / 3
    } else {
        -((-2 * n) / 3)
    }
}

/// The night between Maghrib and tomorrow's Fajr in whole seconds.
pub open spec fn night_seconds(maghrib: Instant, tomorrow_fajr: Instant) -> int {
    whole_seconds(tomorrow_fajr@ - maghrib@)
}

/// The middle of the night before minute rounding: Maghrib plus half the night.
pub open spec fn spec_night_middle(maghrib: Instant, tomorrow_fajr: Instant) -> Instant {
    instant_of(
        maghrib@ + half_toward_zero(night_seconds(maghrib, tomorrow_fajr)) * nanos_per_second(),
    )
}

/// The start of the last third of the night before minute rounding:
/// Maghrib plus two thirds of the night.
pub open spec fn spec_last_third(maghrib: Instant, tomorrow_fajr: Instant) -> Instant {
    instant_of(
        maghrib@ + two_thirds_toward_zero(night_seconds(maghrib, tomorrow_fajr))
            * nanos_per_second(),
    )
}

/// Both night division points stay representable after rounding to the
/// nearest minute.
pub open spec fn night_division_in_range(maghrib: Instant, tomorrow_fajr: Instant) -> bool {
    &&& nanos_in_range(spec_night_middle(maghrib, tomorrow_fajr).spec_rounded_minute(Rounding::Nearest))
    &&& nanos_in_range(spec_last_third(maghrib, tomorrow_fajr).spec_rounded_minute(Rounding::Nearest))
}

/// `n` divided by 7, truncated toward zero.
pub open spec fn seventh_toward_zero(n: int) -> int {
    if n >= 0 {
        n / 7
    } else {
        -((-n) / 7)
    }
}

/// True when the Moonsighting Committee's "Sab'u Lail" rule applies: Fajr
/// and Isha at one seventh of the night from sunrise and sunset, at 55° of
/// latitude or more in either hemisphere. `abs_latitude_at_least_55` is true
/// when the absolute latitude (in degrees) is at least 55.
pub open spec fn sevenths_rule_applies(method: Method, abs_latitude_at_least_55: bool) -> bool {
    method == Method::MoonsightingCommittee && abs_latitude_at_least_55
}

/// Fajr before the minute adjustment: the time at which the sun reaches the
/// Fajr angle (or the safe time when it never does), replaced by one seventh
/// of the night before sunrise under the sevenths rule, and never earlier
/// than the safe time.
pub open spec fn spec_fajr_unadjusted(
    method: Method,
    abs_latitude_at_least_55: bool,
    sunrise: Instant,
    angle_fajr: Option<Instant>,
    safe_fajr: Instant,
    night_seconds: int,
) -> int {
    let candidate = if sevenths_rule_applies(method, abs_latitude_at_least_55) {
        sunrise@ - seventh_toward_zero(night_seconds) * nanos_per_second()
    } else {
        match angle_fajr {
            Some(t) => t@,
            None => safe_fajr@,
        }
    };
    if candidate < safe_fajr@ {
        safe_fajr@
    } else {
        candidate
    }
}

/// Isha before the minute adjustment: a fixed interval after sunset when one
/// is configured; otherwise the time at which the sun reaches the Isha angle
/// (or the safe time when it never does), replaced by one seventh of the
/// night after sunset under the sevenths rule, and never later than the
/// safe time.
pub open spec fn spec_isha_unadjusted(
    method: Method,
    abs_latitude_at_least_55: bool,
    isha_interval: int,
    sunset: Instant,
    angle_isha: Option<Instant>,
    safe_isha: Instant,
    night_seconds: int,
) -> int {
    if isha_interval > 0 {
        sunset@ + isha_interval * 60 * nanos_per_second()
    } else {
        let candidate = if sevenths_rule_applies(method, abs_latitude_at_least_55) {
            sunset@ + seventh_toward_zero(night_seconds) * nanos_per_second()
        } else {
            match angle_isha {
                Some(t) => t@,
                None => safe_isha@,
            }
        };
        if candidate > safe_isha@ {
            safe_isha@
        } else {
            candidate
        }
    }
}

/// Return `n / 7` truncated toward zero.
fn seventh_of(n: i64) -> (s: i64)
    ensures
        s == seventh_toward_zero(n as int),
{
    if n >= 0 {
        n / 7
    } else {
        -((-(n as i128)) / 7) as i64
    }
}

/// Compute Fajr from the solar data of the day: `angle_fajr` is when the sun
/// reaches the Fajr angle (absent when it never does), `safe_fajr` the
/// earliest acceptable Fajr under the high-latitude rule, `night_seconds` the
/// length of the night, and `adjustment_minutes` the combined offset.
/// `abs_latitude_at_least_55` is true at 55° of latitude or more, north or
/// south.
pub fn calculate_fajr(
    method: Method,
    abs_latitude_at_least_55: bool,
    sunrise: Instant,
    angle_fajr: Option<Instant>,
    safe_fajr: Instant,
    night_seconds: i64,
    adjustment_minutes: i64,
) -> (fajr: Instant)
    requires
        sunrise.wf(),
        safe_fajr.wf(),
        angle_fajr matches Some(t) ==> t.wf(),
        sevenths_rule_applies(method, abs_latitude_at_least_55) ==> nanos_in_range(
            sunrise@ - seventh_toward_zero(night_seconds as int) * nanos_per_second(),
        ),
        nanos_in_range(
            spec_fajr_unadjusted(
                method,
                abs_latitude_at_least_55,
                sunrise,
                angle_fajr,
                safe_fajr,
                night_seconds as int,
            ) + adjustment_minutes * 60 * nanos_per_second(),
        ),
    ensures
        fajr.wf(),
        fajr@ == spec_fajr_unadjusted(
            method,
            abs_latitude_at_least_55,
            sunrise,
            angle_fajr,
            safe_fajr,
            night_seconds as int,
        ) + adjustment_minutes * 60 * nanos_per_second(),
        !(method == Method::MoonsightingCommittee && abs_latitude_at_least_55) && angle_fajr is None
            ==> fajr@ == safe_fajr@ + adjustment_minutes * 60 * nanos_per_second(),
{
    let mut fajr = match angle_fajr {
        Some(t) => t,
        None => safe_fajr,
    };
    if method == Method::MoonsightingCommittee && abs_latitude_at_least_55 {
        let night_fraction = seventh_of(night_seconds);
        fajr = sunrise.plus_seconds(-night_fraction);
    }
    if fajr.is_before(&safe_fajr) {
        fajr = safe_fajr;
    }
    fajr.adjust_time(adjustment_minutes)
}

/// Compute Isha from the solar data of the day: `isha_interval` minutes after
/// sunset when positive; otherwise from `angle_isha` (when the sun reaches
/// the Isha angle, absent when it never does), bounded by `safe_isha`, the
/// latest acceptable Isha under the high-latitude rule. `night_seconds` is
/// the length of the night and `adjustment_minutes` the combined offset.
/// `abs_latitude_at_least_55` is true at 55° of latitude or more, north or
/// south.
pub fn calculate_isha(
    method: Method,
    abs_latitude_at_least_55: bool,
    isha_interval: i32,
    sunset: Instant,
    angle_isha: Option<Instant>,
    safe_isha: Instant,
    night_seconds: i64,
    adjustment_minutes: i64,
) -> (isha: Instant)
    requires
        sunset.wf(),
        safe_isha.wf(),
        angle_isha matches Some(t) ==> t.wf(),
        isha_interval > 0 ==> isha_interval * 60 <= i32::MAX && nanos_in_range(
            sunset@ + isha_interval * 60 * nanos_per_second(),
        ),
        isha_interval <= 0 && sevenths_rule_applies(method, abs_latitude_at_least_55)
            ==> nanos_in_range(
            sunset@ + seventh_toward_zero(night_seconds as int) * nanos_per_second(),
        ),
        nanos_in_range(
            spec_isha_unadjusted(
                method,
                abs_latitude_at_least_55,
                isha_interval as int,
                sunset,
                angle_isha,
                safe_isha,
                night_seconds as int,
            ) + adjustment_minutes * 60 * nanos_per_second(),
        ),
    ensures
        isha.wf(),
        isha@ == spec_isha_unadjusted(
            method,
            abs_latitude_at_least_55,
            isha_interval as int,
            sunset,
            angle_isha,
            safe_isha,
            night_seconds as int,
        ) + adjustment_minutes * 60 * nanos_per_second(),
        isha_interval <= 0 && !(method == Method::MoonsightingCommittee
            && abs_latitude_at_least_55) && angle_isha is None ==> isha@ == safe_isha@
            + adjustment_minutes * 60 * nanos_per_second(),
{
    let mut isha: Instant;
    if isha_interval > 0 {
        isha = sunset.plus_seconds((isha_interval * 60) as i64);
    } else {
        isha = match angle_isha {
            Some(t) => t,
            None => safe_isha,
        };
        if method == Method::MoonsightingCommittee && abs_latitude_at_least_55 {
            let night_fraction = seventh_of(night_seconds);
            isha = sunset.plus_seconds(night_fraction);
        }
        if safe_isha.is_before(&isha) {
            isha = safe_isha;
        }
    }
    isha.adjust_time(adjustment_minutes)
}

/// Fajr is never earlier than the safe time of the high-latitude rule (both
/// shifted by the same minute adjustment).
pub proof fn law_fajr_not_before_safe_time(
    method: Method,
    abs_latitude_at_least_55: bool,
    sunrise: Instant,
    angle_fajr: Option<Instant>,
    safe_fajr: Instant,
    night_seconds: int,
)
    ensures
        spec_fajr_unadjusted(
            method,
            abs_latitude_at_least_55,
            sunrise,
            angle_fajr,
            safe_fajr,
            night_seconds,
        ) >= safe_fajr@,
{
}

/// Without a fixed interval, Isha is never later than the safe time of the
/// high-latitude rule (both shifted by the same minute adjustment).
pub proof fn law_isha_not_after_safe_time(
    method: Method,
    abs_latitude_at_least_55: bool,
    isha_interval: int,
    sunset: Instant,
    angle_isha: Option<Instant>,
    safe_isha: Instant,
    night_seconds: int,
)
    requires
        isha_interval <= 0,
    ensures
        spec_isha_unadjusted(
            method,
            abs_latitude_at_least_55,
            isha_interval,
            sunset,
            angle_isha,
            safe_isha,
            night_seconds,
        ) <= safe_isha@,
{
}

/// Why a day's prayer times could not be assembled.
#[derive(PartialEq, Eq, Structural, Debug, Copy, Clone)]
pub enum ScheduleError {
    /// An adjusted or rounded time falls outside the representable range.
    TimeOutOfRange,
}

/// Every prayer's combined user and method offset fits in an `i64`.
pub open spec fn adjustments_fit(adjustments: TimeAdjustment, method_adjustments: TimeAdjustment) -> bool {
    forall|p: Prayer|
        i64::MIN <= #[trigger] spec_time_adjustments(adjustments, method_adjustments, p)
            <= i64::MAX
}

/// A raw time moved by the combined offset of `prayer`, then rounded.
pub open spec fn spec_final_time(
    raw: Instant,
    adjustments: TimeAdjustment,
    method_adjustments: TimeAdjustment,
    prayer: Prayer,
    rounding: Rounding,
) -> int {
    instant_of(
        raw@ + spec_time_adjustments(adjustments, method_adjustments, prayer) * 60
            * nanos_per_second(),
    ).spec_rounded_minute(rounding)
}

/// The adjusted time and the rounded time both stay representable.
pub open spec fn final_time_in_range(
    raw: Instant,
    adjustments: TimeAdjustment,
    method_adjustments: TimeAdjustment,
    prayer: Prayer,
    rounding: Rounding,
) -> bool {
    &&& nanos_in_range(
        raw@ + spec_time_adjustments(adjustments, method_adjustments, prayer) * 60
            * nanos_per_second(),
    )
    &&& nanos_in_range(spec_final_time(raw, adjustments, method_adjustments, prayer, rounding))
}

/// Every final time of a day, and the division of its night, stays
/// representable.
pub open spec fn assembly_in_range(
    fajr: Instant,
    sunrise: Instant,
    dhuhr: Instant,
    asr: Instant,
    maghrib: Instant,
    isha: Instant,
    isha_yesterday: Instant,
    tomorrow_fajr: Instant,
    a: TimeAdjustment,
    m: TimeAdjustment,
    rounding: Rounding,
) -> bool {
    &&& final_time_in_range(fajr, a, m, Prayer::Fajr, rounding)
    &&& final_time_in_range(sunrise, a, m, Prayer::Sunrise, rounding)
    &&& final_time_in_range(dhuhr, a, m, Prayer::Dhuhr, rounding)
    &&& final_time_in_range(asr, a, m, Prayer::Asr, rounding)
    &&& final_time_in_range(maghrib, a, m, Prayer::Maghrib, rounding)
    &&& final_time_in_range(isha, a, m, Prayer::Isha, rounding)
    &&& final_time_in_range(isha_yesterday, a, m, Prayer::Isha, rounding)
    &&& final_time_in_range(tomorrow_fajr, a, m, Prayer::Fajr, rounding)
    &&& night_division_in_range(
        instant_of(spec_final_time(maghrib, a, m, Prayer::Maghrib, rounding)),
        instant_of(spec_final_time(tomorrow_fajr, a, m, Prayer::Fajr, rounding)),
    )
}

/// Move `raw` by `minutes` and round it; `None` when either step leaves the
/// representable range.
fn finalize_time(raw: &Instant, minutes: i64, rounding: Rounding) -> (t: Option<Instant>)
    requires
        raw.wf(),
    ensures
        t is Some <==> nanos_in_range(raw@ + minutes * 60 * nanos_per_second()) && nanos_in_range(
            instant_of(raw@ + minutes * 60 * nanos_per_second()).spec_rounded_minute(rounding),
        ),
        t matches Some(i) ==> i.wf() && i@ == instant_of(
            raw@ + minutes * 60 * nanos_per_second(),
        ).spec_rounded_minute(rounding),
{
    match raw.checked_adjust_time(minutes) {
        Some(adjusted) => {
            proof {
                lemma_instant_of_view(adjusted);
            }
            adjusted.checked_rounded_minute(rounding)
        },
        None => None,
    }
}

/// The middle of the night and the start of its last third, each rounded to
/// the nearest minute; `None` when either leaves the representable range.
fn night_division(maghrib: &Instant, tomorrow_fajr: &Instant) -> (night: Option<(Instant, Instant)>)
    requires
        maghrib.wf(),
        tomorrow_fajr.wf(),
    ensures
        night is Some <==> night_division_in_range(*maghrib, *tomorrow_fajr),
        night matches Some(n) ==> {
            &&& n.0.wf()
            &&& n.1.wf()
            &&& n.0@ == spec_night_middle(*maghrib, *tomorrow_fajr).spec_rounded_minute(
                Rounding::Nearest,
            )
            &&& n.1@ == spec_last_third(*maghrib, *tomorrow_fajr).spec_rounded_minute(
                Rounding::Nearest,
            )
        },
{
    let night_duration: i64 = tomorrow_fajr.seconds_since(maghrib);
    let middle_night_portion: i64 = if night_duration >= 0 {
        night_duration / 2
    } else {
        -((-night_duration) / 2)
    };
    let last_third_portion: i64 = if night_duration >= 0 {
        (2 * night_duration) / 3
    } else {
        -((-2 * night_duration) / 3)
    };
    let middle = maghrib.plus_seconds(middle_night_portion);
    let last_third = maghrib.plus_seconds(last_third_portion);
    proof {
        lemma_instant_of_view(middle);
        lemma_instant_of_view(last_third);
    }
    match (
        middle.checked_rounded_minute(Rounding::Nearest),
        last_third.checked_rounded_minute(Rounding::Nearest),
    ) {
        (Some(middle_of_night), Some(last_third_of_night)) => Some(
            (middle_of_night, last_third_of_night),
        ),
        _ => None,
    }
}

/// Times of all prayers for a given date, location, and configuration.
#[derive(PartialEq, Eq, Structural, Debug, Copy, Clone)]
pub struct PrayerTimes {
    fajr: Instant,
    sunrise: Instant,
    dhuhr: Instant,
    asr: Instant,
    maghrib: Instant,
    isha: Instant,
    isha_yesterday: Instant,
    middle_of_the_night: Instant,
    qiyam: Instant,
    fajr_tomorrow: Instant,
}

impl PrayerTimes {
    /// Every stored time is a well-formed instant.
    #[verifier::type_invariant]
    spec fn inv(self) -> bool {
        &&& self.fajr.wf()
        &&& self.sunrise.wf()
        &&& self.dhuhr.wf()
        &&& self.asr.wf()
        &&& self.maghrib.wf()
        &&& self.isha.wf()
        &&& self.isha_yesterday.wf()
        &&& self.middle_of_the_night.wf()
        &&& self.qiyam.wf()
        &&& self.fajr_tomorrow.wf()
    }

    /// The time at which `prayer` occurs.
    pub closed spec fn spec_time(self, prayer: Prayer) -> Instant {
        match prayer {
            Prayer::Fajr => self.fajr,
            Prayer::Sunrise => self.sunrise,
            Prayer::Dhuhr => self.dhuhr,
            Prayer::Asr => self.asr,
            Prayer::Maghrib => self.maghrib,
            Prayer::Isha => self.isha,
            Prayer::Qiyam => self.qiyam,
            Prayer::FajrTomorrow => self.fajr_tomorrow,
        }
    }

    /// The previous day's Isha, which covers the midnight-to-Fajr gap.
    pub closed spec fn spec_isha_yesterday(self) -> Instant {
        self.isha_yesterday
    }

    /// The middle of the night between Maghrib and tomorrow's Fajr.
    pub closed spec fn spec_middle_of_the_night(self) -> Instant {
        self.middle_of_the_night
    }

    /// The prayer in effect at `now`: the latest prayer of the day that has
    /// begun, or Isha (of the previous day) before Fajr.
    pub open spec fn spec_current(self, now: Instant) -> Prayer {
        if has_started(self.spec_time(Prayer::FajrTomorrow), now) {
            Prayer::FajrTomorrow
        } else if has_started(self.spec_time(Prayer::Qiyam), now) {
            Prayer::Qiyam
        } else if has_started(self.spec_time(Prayer::Isha), now) {
            Prayer::Isha
        } else if has_started(self.spec_time(Prayer::Maghrib), now) {
            Prayer::Maghrib
        } else if has_started(self.spec_time(Prayer::Asr), now) {
            Prayer::Asr
        } else if has_started(self.spec_time(Prayer::Dhuhr), now) {
            Prayer::Dhuhr
        } else if has_started(self.spec_time(Prayer::Sunrise), now) {
            Prayer::Sunrise
        } else if has_started(self.spec_time(Prayer::Fajr), now) {
            Prayer::Fajr
        } else {
            Prayer::Isha
        }
    }

    /// True in the stretch between midnight and Fajr, where the Isha in
    /// effect is the previous day's: Isha is current but today's Isha lies
    /// after `now`.
    pub open spec fn spec_in_night_gap(self, now: Instant) -> bool {
        self.spec_current(now) == Prayer::Isha && now@ < self.spec_time(Prayer::Isha)@
    }

    /// The prayer that begins after the one in effect at `now`.
    pub open spec fn spec_next(self, now: Instant) -> Prayer {
        match self.spec_current(now) {
            Prayer::Fajr => Prayer::Sunrise,
            Prayer::Sunrise => Prayer::Dhuhr,
            Prayer::Dhuhr => Prayer::Asr,
            Prayer::Asr => Prayer::Maghrib,
            Prayer::Maghrib => Prayer::Isha,
            Prayer::Isha => if self.spec_in_night_gap(now) {
                Prayer::Fajr
            } else {
                Prayer::Qiyam
            },
            Prayer::Qiyam => Prayer::FajrTomorrow,
            Prayer::FajrTomorrow => Prayer::FajrTomorrow,
        }
    }

    /// When the prayer in effect at `now` started: the previous day's Isha
    /// in the midnight-to-Fajr gap, the prayer's own time otherwise.
    pub open spec fn spec_current_prayer_time(self, now: Instant) -> Instant {
        if self.spec_in_night_gap(now) {
            self.spec_isha_yesterday()
        } else {
            self.spec_time(self.spec_current(now))
        }
    }

    /// Collect a day's prayer times. The middle of the night and Qiyam (the
    /// last third of the night) are derived from Maghrib and tomorrow's Fajr.
    pub fn from_times(
        fajr: Instant,
        sunrise: Instant,
        dhuhr: Instant,
        asr: Instant,
        maghrib: Instant,
        isha: Instant,
        isha_yesterday: Instant,
        tomorrow_fajr: Instant,
    ) -> (times: PrayerTimes)
        requires
            fajr.wf(),
            sunrise.wf(),
            dhuhr.wf(),
            asr.wf(),
            maghrib.wf(),
            isha.wf(),
            isha_yesterday.wf(),
            tomorrow_fajr.wf(),
            night_division_in_range(maghrib, tomorrow_fajr),
        ensures
            times.spec_time(Prayer::Fajr) == fajr,
            times.spec_time(Prayer::Sunrise) == sunrise,
            times.spec_time(Prayer::Dhuhr) == dhuhr,
            times.spec_time(Prayer::Asr) == asr,
            times.spec_time(Prayer::Maghrib) == maghrib,
            times.spec_time(Prayer::Isha) == isha,
            times.spec_isha_yesterday() == isha_yesterday,
            times.spec_middle_of_the_night()@ == spec_night_middle(
                maghrib,
                tomorrow_fajr,
            ).spec_rounded_minute(Rounding::Nearest),
            times.spec_time(Prayer::Qiyam)@ == spec_last_third(
                maghrib,
                tomorrow_fajr,
            ).spec_rounded_minute(Rounding::Nearest),
            times.spec_time(Prayer::FajrTomorrow) == tomorrow_fajr,
    {
        let (middle_of_the_night, qiyam, fajr_tomorrow) = PrayerTimes::calculate_qiyam(
            maghrib,
            tomorrow_fajr,
        );
        PrayerTimes {
            fajr,
            sunrise,
            dhuhr,
            asr,
            maghrib,
            isha,
            isha_yesterday,
            middle_of_the_night,
            qiyam,
            fajr_tomorrow,
        }
    }

    /// Return the UTC instant at which the given [`Prayer`] occurs.
    pub fn time(&self, prayer: Prayer) -> (t: Instant)
        ensures
            t == self.spec_time(prayer),
            t.wf(),
    {
        proof {
            use_type_invariant(self);
        }
        match prayer {
            Prayer::Fajr => self.fajr,
            Prayer::Sunrise => self.sunrise,
            Prayer::Dhuhr => self.dhuhr,
            Prayer::Asr => self.asr,
            Prayer::Maghrib => self.maghrib,
            Prayer::Isha => self.isha,
            Prayer::Qiyam => self.qiyam,
            Prayer::FajrTomorrow => self.fajr_tomorrow,
        }
    }

    /// Return the [`Prayer`] in effect at `time`.
    pub fn current_time(&self, time: Instant) -> (prayer: Prayer)
        requires
            time.wf(),
        ensures
            prayer == self.spec_current(time),
    {
        proof {
            use_type_invariant(self);
        }
        if self.fajr_tomorrow.seconds_since(&time) <= 0 {
            Prayer::FajrTomorrow
        } else if self.qiyam.seconds_since(&time) <= 0 {
            Prayer::Qiyam
        } else if self.isha.seconds_since(&time) <= 0 {
            Prayer::Isha
        } else if self.maghrib.seconds_since(&time) <= 0 {
            Prayer::Maghrib
        } else if self.asr.seconds_since(&time) <= 0 {
            Prayer::Asr
        } else if self.dhuhr.seconds_since(&time) <= 0 {
            Prayer::Dhuhr
        } else if self.sunrise.seconds_since(&time) <= 0 {
            Prayer::Sunrise
        } else if self.fajr.seconds_since(&time) <= 0 {
            Prayer::Fajr
        } else {
            Prayer::Isha
        }
    }

    /// Return the [`Prayer`] that is currently in effect, read against the
    /// system clock.
    pub fn current(&self) -> (prayer: Prayer)
        ensures
            exists|now: Instant| now.wf() && now.secs >= 0 && prayer == self.spec_current(now),
    {
        let now = chrono_now();
        self.current_time(now)
    }

    /// Return when the prayer in effect at `now` started. During the
    /// midnight-to-Fajr gap this is the previous day's Isha.
    pub fn current_prayer_time_from(&self, now: Instant) -> (t: Instant)
        requires
            now.wf(),
        ensures
            t == self.spec_current_prayer_time(now),
            self.spec_current(now) != Prayer::Isha ==> t == self.spec_time(self.spec_current(now)),
            self.spec_current(now) == Prayer::Isha && self.spec_time(Prayer::Isha)@ <= now@ ==> t
                == self.spec_time(Prayer::Isha),
            self.spec_current(now) == Prayer::Isha && now@ < self.spec_time(Prayer::Isha)@ ==> t
                == self.spec_isha_yesterday(),
    {
        proof {
            use_type_invariant(self);
        }
        let prayer = self.current_time(now);
        match prayer {
            Prayer::Isha => {
                if now.is_before(&self.isha) {
                    self.isha_yesterday
                } else {
                    self.time(prayer)
                }
            },
            _ => self.time(prayer),
        }
    }

    /// Return when the current prayer started, read against the system clock.
    pub fn current_prayer_time(&self) -> (t: Instant)
        ensures
            exists|now: Instant|
                now.wf() && now.secs >= 0 && t == self.spec_current_prayer_time(now),
    {
        let now = chrono_now();
        self.current_prayer_time_from(now)
    }

    /// Return the [`Prayer`] that begins after the one in effect at `now`.
    pub fn next_at(&self, now: Instant) -> (prayer: Prayer)
        requires
            now.wf(),
        ensures
            prayer == self.spec_next(now),
    {
        proof {
            use_type_invariant(self);
        }
        match self.current_time(now) {
            Prayer::Fajr => Prayer::Sunrise,
            Prayer::Sunrise => Prayer::Dhuhr,
            Prayer::Dhuhr => Prayer::Asr,
            Prayer::Asr => Prayer::Maghrib,
            Prayer::Maghrib => Prayer::Isha,
            Prayer::Isha => {
                if now.is_before(&self.isha) {
                    Prayer::Fajr
                } else {
                    Prayer::Qiyam
                }
            },
            Prayer::Qiyam => Prayer::FajrTomorrow,
            Prayer::FajrTomorrow => Prayer::FajrTomorrow,
        }
    }

    /// Return the [`Prayer`] in effect at `now` (the same answer as
    /// [`Self::current_time`]).
    pub fn current_at(&self, now: Instant) -> (prayer: Prayer)
        requires
            now.wf(),
        ensures
            prayer == self.spec_current(now),
    {
        self.current_time(now)
    }

    /// Exact time, in nanoseconds, from `now` until the next prayer starts;
    /// negative once it has started.
    pub fn time_remaining_at(&self, now: Instant) -> (remaining: i128)
        requires
            now.wf(),
        ensures
            remaining == self.spec_time(self.spec_next(now))@ - now@,
    {
        let next_time = self.time(self.next_at(now));
        let seconds: i128 = next_time.secs as i128 - now.secs as i128;
        let nanos: i128 = next_time.nanos as i128 - now.nanos as i128;
        seconds * 1_000_000_000 + nanos
    }

    /// Return the [`Prayer`] that begins next, read against the system clock.
    pub fn next(&self) -> (prayer: Prayer)
        ensures
            exists|now: Instant| now.wf() && now.secs >= 0 && prayer == self.spec_next(now),
    {
        let now = chrono_now();
        self.next_at(now)
    }

    /// Divide the night between `current_maghrib` and `tomorrow_fajr`:
    /// return the middle of the night and the start of its last third, each
    /// rounded to the nearest minute, and tomorrow's Fajr unchanged.
    pub fn calculate_qiyam(current_maghrib: Instant, tomorrow_fajr: Instant) -> (night: (
        Instant,
        Instant,
        Instant,
    ))
        requires
            current_maghrib.wf(),
            tomorrow_fajr.wf(),
            night_division_in_range(current_maghrib, tomorrow_fajr),
        ensures
            night.0.wf(),
            night.1.wf(),
            night.0@ == spec_night_middle(current_maghrib, tomorrow_fajr).spec_rounded_minute(
                Rounding::Nearest,
            ),
            night.1@ == spec_last_third(current_maghrib, tomorrow_fajr).spec_rounded_minute(
                Rounding::Nearest,
            ),
            night.2 == tomorrow_fajr,
    {
        let (middle_of_night, last_third_of_night) = night_division(
            &current_maghrib,
            &tomorrow_fajr,
        ).unwrap();
        (middle_of_night, last_third_of_night, tomorrow_fajr)
    }

    /// Collect a day's prayer times from the times the sun gives, before any
    /// adjustment: each time is moved by its prayer's combined user and
    /// method minutes and rounded with `rounding` (yesterday's Isha as Isha,
    /// tomorrow's Fajr as Fajr); the middle of the night and Qiyam are derived
    /// from the final Maghrib and tomorrow's Fajr. Fails when a time leaves
    /// the representable range.
    pub fn assemble(
        fajr: Instant,
        sunrise: Instant,
        dhuhr: Instant,
        asr: Instant,
        maghrib: Instant,
        isha: Instant,
        isha_yesterday: Instant,
        tomorrow_fajr: Instant,
        adjustments: &TimeAdjustment,
        method_adjustments: &TimeAdjustment,
        rounding: Rounding,
    ) -> (r: Result<PrayerTimes, ScheduleError>)
        requires
            fajr.wf(),
            sunrise.wf(),
            dhuhr.wf(),
            asr.wf(),
            maghrib.wf(),
            isha.wf(),
            isha_yesterday.wf(),
            tomorrow_fajr.wf(),
            adjustments_fit(*adjustments, *method_adjustments),
        ensures
            r is Ok <==> assembly_in_range(
                fajr,
                sunrise,
                dhuhr,
                asr,
                maghrib,
                isha,
                isha_yesterday,
                tomorrow_fajr,
                *adjustments,
                *method_adjustments,
                rounding,
            ),
            r is Err ==> r == Err::<PrayerTimes, ScheduleError>(ScheduleError::TimeOutOfRange),
            r matches Ok(t) ==> {
                let a = *adjustments;
                let m = *method_adjustments;
                &&& t.spec_time(Prayer::Fajr)@ == spec_final_time(fajr, a, m, Prayer::Fajr, rounding)
                &&& t.spec_time(Prayer::Sunrise)@ == spec_final_time(
                    sunrise,
                    a,
                    m,
                    Prayer::Sunrise,
                    rounding,
                )
                &&& t.spec_time(Prayer::Dhuhr)@ == spec_final_time(
                    dhuhr,
                    a,
                    m,
                    Prayer::Dhuhr,
                    rounding,
                )
                &&& t.spec_time(Prayer::Asr)@ == spec_final_time(asr, a, m, Prayer::Asr, rounding)
                &&& t.spec_time(Prayer::Maghrib)@ == spec_final_time(
                    maghrib,
                    a,
                    m,
                    Prayer::Maghrib,
                    rounding,
                )
                &&& t.spec_time(Prayer::Isha)@ == spec_final_time(isha, a, m, Prayer::Isha, rounding)
                &&& t.spec_isha_yesterday()@ == spec_final_time(
                    isha_yesterday,
                    a,
                    m,
                    Prayer::Isha,
                    rounding,
                )
                &&& t.spec_time(Prayer::FajrTomorrow)@ == spec_final_time(
                    tomorrow_fajr,
                    a,
                    m,
                    Prayer::Fajr,
                    rounding,
                )
                &&& t.spec_middle_of_the_night()@ == spec_night_middle(
                    t.spec_time(Prayer::Maghrib),
                    t.spec_time(Prayer::FajrTomorrow),
                ).spec_rounded_minute(Rounding::Nearest)
                &&& t.spec_time(Prayer::Qiyam)@ == spec_last_third(
                    t.spec_time(Prayer::Maghrib),
                    t.spec_time(Prayer::FajrTomorrow),
                ).spec_rounded_minute(Rounding::Nearest)
            },
    {
        let a = adjustments;
        let m = method_adjustments;
        let fajr_minutes = time_adjustments(a, m, Prayer::Fajr);
        let isha_minutes = time_adjustments(a, m, Prayer::Isha);
        let final_fajr = match finalize_time(&fajr, fajr_minutes, rounding) {
            Some(t) => t,
            None => { return Err(ScheduleError::TimeOutOfRange); },
        };
        let final_sunrise = match finalize_time(
            &sunrise,
            time_adjustments(a, m, Prayer::Sunrise),
            rounding,
        ) {
            Some(t) => t,
            None => { return Err(ScheduleError::TimeOutOfRange); },
        };
        let final_dhuhr = match finalize_time(&dhuhr, time_adjustments(a, m, Prayer::Dhuhr), rounding) {
            Some(t) => t,
            None => { return Err(ScheduleError::TimeOutOfRange); },
        };
        let final_asr = match finalize_time(&asr, time_adjustments(a, m, Prayer::Asr), rounding) {
            Some(t) => t,
            None => { return Err(ScheduleError::TimeOutOfRange); },
        };
        let final_maghrib = match finalize_time(
            &maghrib,
            time_adjustments(a, m, Prayer::Maghrib),
            rounding,
        ) {
            Some(t) => t,
            None => { return Err(ScheduleError::TimeOutOfRange); },
        };
        let final_isha = match finalize_time(&isha, isha_minutes, rounding) {
            Some(t) => t,
            None => { return Err(ScheduleError::TimeOutOfRange); },
        };
        let final_isha_yesterday = match finalize_time(&isha_yesterday, isha_minutes, rounding) {
            Some(t) => t,
            None => { return Err(ScheduleError::TimeOutOfRange); },
        };
        let final_fajr_tomorrow = match finalize_time(&tomorrow_fajr, fajr_minutes, rounding) {
            Some(t) => t,
            None => { return Err(ScheduleError::TimeOutOfRange); },
        };
        proof {
            lemma_instant_of_view(final_maghrib);
            lemma_instant_of_view(final_fajr_tomorrow);
        }
        let (middle_of_the_night, qiyam) = match night_division(
            &final_maghrib,
            &final_fajr_tomorrow,
        ) {
            Some(night) => night,
            None => { return Err(ScheduleError::TimeOutOfRange); },
        };
        Ok(
            PrayerTimes {
                fajr: final_fajr,
                sunrise: final_sunrise,
                dhuhr: final_dhuhr,
                asr: final_asr,
                maghrib: final_maghrib,
                isha: final_isha,
                isha_yesterday: final_isha_yesterday,
                middle_of_the_night,
                qiyam,
                fajr_tomorrow: final_fajr_tomorrow,
            },
        )
    }
}

/// The prayer in effect at an instant has begun, unless it is the previous
/// day's Isha in the stretch before Fajr, when no prayer of the day has begun;
/// and no prayer later in the day has begun.
pub proof fn law_current_prayer_has_begun(times: PrayerTimes, now: Instant)
    ensures
        ({
            let p = times.spec_current(now);
            &&& has_started(times.spec_time(p), now) || (p == Prayer::Isha && forall|q: Prayer|
                !has_started(#[trigger] times.spec_time(q), now))
            &&& forall|q: Prayer|
                prayer_order(q) > prayer_order(p) ==> !has_started(
                    #[trigger] times.spec_time(q),
                    now,
                )
        }),
{
    let p = times.spec_current(now);
    assert forall|q: Prayer| prayer_order(q) > prayer_order(p) implies !has_started(
        #[trigger] times.spec_time(q),
        now,
    ) by {
        match q {
            Prayer::Fajr => {},
            Prayer::Sunrise => {},
            Prayer::Dhuhr => {},
            Prayer::Asr => {},
            Prayer::Maghrib => {},
            Prayer::Isha => {},
            Prayer::Qiyam => {},
            Prayer::FajrTomorrow => {},
        }
    }
    if !has_started(times.spec_time(p), now) {
        assert forall|q: Prayer| !has_started(#[trigger] times.spec_time(q), now) by {
            match q {
                Prayer::Fajr => {},
                Prayer::Sunrise => {},
                Prayer::Dhuhr => {},
                Prayer::Asr => {},
                Prayer::Maghrib => {},
                Prayer::Isha => {},
                Prayer::Qiyam => {},
                Prayer::FajrTomorrow => {},
            }
        }
    }
}

/// Position in the day of the latest prayer that has begun at `now`, or -1
/// before the day's Fajr.
pub open spec fn latest_begun_order(times: PrayerTimes, now: Instant) -> int {
    let p = times.spec_current(now);
    if has_started(times.spec_time(p), now) {
        prayer_order(p)
    } else {
        -1
    }
}

/// An event that has begun stays begun as the clock moves on.
pub proof fn lemma_started_stays_started(t: Instant, earlier: Instant, later: Instant)
    requires
        earlier@ <= later@,
    ensures
        has_started(t, earlier) ==> has_started(t, later),
{
}

/// As the clock moves on, the prayer in effect only moves forward through
/// the day.
pub proof fn law_current_prayer_moves_forward(times: PrayerTimes, earlier: Instant, later: Instant)
    requires
        earlier@ <= later@,
    ensures
        latest_begun_order(times, earlier) <= latest_begun_order(times, later),
{
    lemma_started_stays_started(times.spec_time(Prayer::Fajr), earlier, later);
    lemma_started_stays_started(times.spec_time(Prayer::Sunrise), earlier, later);
    lemma_started_stays_started(times.spec_time(Prayer::Dhuhr), earlier, later);
    lemma_started_stays_started(times.spec_time(Prayer::Asr), earlier, later);
    lemma_started_stays_started(times.spec_time(Prayer::Maghrib), earlier, later);
    lemma_started_stays_started(times.spec_time(Prayer::Isha), earlier, later);
    lemma_started_stays_started(times.spec_time(Prayer::Qiyam), earlier, later);
    lemma_started_stays_started(times.spec_time(Prayer::FajrTomorrow), earlier, later);
}

/// The next prayer is the one that follows the prayer in effect in the day's
/// order; before Fajr it is Fajr, and after tomorrow's Fajr has begun it
/// stays tomorrow's Fajr.
pub proof fn law_next_follows_current(times: PrayerTimes, now: Instant)
    ensures
        ({
            let current = times.spec_current(now);
            let next = times.spec_next(now);
            ||| times.spec_in_night_gap(now) && next == Prayer::Fajr
            ||| current == Prayer::FajrTomorrow && next == Prayer::FajrTomorrow
            ||| !times.spec_in_night_gap(now) && prayer_order(next) == prayer_order(current) + 1
        }),
{
}

/// Once the previous day's Isha has passed, the start of the prayer in
/// effect is never more than a fraction of a second ahead of the clock: it
/// lies in the past or less than one second after `now`.
pub proof fn law_current_prayer_time_has_passed(times: PrayerTimes, now: Instant)
    requires
        times.spec_isha_yesterday()@ <= now@,
    ensures
        times.spec_current_prayer_time(now)@ < now@ + nanos_per_second(),
{
}

/// The last third of the night (Qiyam) never begins before the middle of the
/// night, when tomorrow's Fajr is not before Maghrib.
pub proof fn law_qiyam_not_before_middle_of_night(maghrib: Instant, tomorrow_fajr: Instant)
    requires
        maghrib.wf(),
        tomorrow_fajr.wf(),
        maghrib@ <= tomorrow_fajr@,
    ensures
        spec_night_middle(maghrib, tomorrow_fajr).spec_rounded_minute(Rounding::Nearest)
            <= spec_last_third(maghrib, tomorrow_fajr).spec_rounded_minute(Rounding::Nearest),
{
    let n = night_seconds(maghrib, tomorrow_fajr);
    assert(n * nanos_per_second() <= tomorrow_fajr@ - maghrib@);
    let half = half_toward_zero(n);
    let third = two_thirds_toward_zero(n);
    assert(0 <= half <= third <= n);
    lemma_instant_of_in_range(maghrib@ + half * nanos_per_second());
    lemma_instant_of_in_range(maghrib@ + third * nanos_per_second());
    let a = spec_night_middle(maghrib, tomorrow_fajr);
    let b = spec_last_third(maghrib, tomorrow_fajr);
    vstd::arithmetic::div_mod::lemma_fundamental_div_mod_converse_mod(
        a@,
        nanos_per_second(),
        maghrib.secs + half,
        maghrib.nanos as int,
    );
    vstd::arithmetic::div_mod::lemma_fundamental_div_mod_converse_mod(
        b@,
        nanos_per_second(),
        maghrib.secs + third,
        maghrib.nanos as int,
    );
    law_round_nearest_monotone(a, b);
}

} // verus!

verus! {

// ── MWL 2009 Local Relative Estimation ─────────────────────────────────

/// A span of whole seconds folded onto the 24-hour clock: spans of half a
/// day or more are taken the other way round.
pub open spec fn wrap_half_day(s: int) -> int {
    if s >= 43200 {
        s - 86400
    } else if s <= -43200 {
        s + 86400
    } else {
        s
    }
}

/// Distance in whole seconds between two instants around the 24-hour clock
/// (handles wrapping at midnight).
pub open spec fn clock_distance(a: Instant, b: Instant) -> int {
    let w = wrap_half_day(whole_seconds(a@ - b@));
    if w < 0 {
        -w
    } else {
        w
    }
}

/// The instant with the time of day of `t` on the date that starts at
/// `day_start`.
pub open spec fn on_date(day_start: Instant, t: Instant) -> Instant {
    Instant { secs: (day_start.secs + t.secs % 86400) as i64, nanos: t.nanos }
}

/// `t` moved by `seconds`.
pub open spec fn shifted(t: Instant, seconds: int) -> Instant {
    Instant { secs: (t.secs + seconds) as i64, nanos: t.nanos }
}

/// The inputs of one day of the Local Relative Estimation.
#[derive(PartialEq, Eq, Structural, Debug, Copy, Clone)]
pub struct LreDay {
    /// Midnight UTC at the start of the day.
    pub day_start: Instant,
    /// When the sun reaches the prayer's angle on this day, if it does.
    pub real: Option<Instant>,
    /// When the sun reaches the prayer's angle on the previous day, if it does.
    pub real_yesterday: Option<Instant>,
    /// The time given by the night percentage on this day.
    pub pct_time: Instant,
}

impl LreDay {
    /// All instants are well formed, the day starts at midnight, and the day
    /// before and the day after are representable.
    pub open spec fn wf(self) -> bool {
        &&& self.day_start.wf()
        &&& self.day_start.secs % 86400 == 0
        &&& MIN_TIMESTAMP + 86400 <= self.day_start.secs
        &&& self.day_start.secs + 2 * 86400 <= MAX_TIMESTAMP + 1
        &&& self.real matches Some(t) ==> t.wf()
        &&& self.real_yesterday matches Some(t) ==> t.wf()
        &&& self.pct_time.wf()
    }

    /// The sign is present on this day and on the previous one, and its time
    /// of day moved by at most 10 minutes.
    pub open spec fn spec_undisturbed(self) -> bool {
        match (self.real, self.real_yesterday) {
            (Some(today), Some(yesterday)) => clock_distance(
                today,
                on_date(self.day_start, yesterday),
            ) <= 600,
            _ => false,
        }
    }
}

/// One day of the Local Relative Estimation ramp, from the previous day's
/// smoothed time `prev`: while the real time is disturbed or absent, the
/// time of day moves 5 minutes per day toward the percentage time (entry),
/// or, once the percentage time has been reached or is the closer one and a
/// real time exists, 5 minutes per day back toward the real time (exit),
/// snapping to the target when within 5 minutes of it. Distances are whole
/// seconds around the 24-hour clock; the percentage time is the closer
/// target only when strictly closer.
pub open spec fn spec_lre_step(prev: Instant, day: LreDay, is_isha: bool) -> Instant {
    let prev_today = on_date(day.day_start, prev);
    let entry: int = if is_isha {
        -300
    } else {
        300
    };
    let pct = day.pct_time;
    let was_in_lre = clock_distance(prev_today, pct) <= 300;
    match day.real {
        Some(r) => if was_in_lre || clock_distance(prev_today, pct) < clock_distance(
            prev_today,
            r,
        ) {
            let adjusted = shifted(prev_today, -entry);
            if clock_distance(adjusted, r) <= 300 {
                r
            } else {
                adjusted
            }
        } else {
            let adjusted = shifted(prev_today, entry);
            if clock_distance(adjusted, pct) <= 300 {
                pct
            } else {
                adjusted
            }
        },
        None => if was_in_lre {
            pct
        } else {
            let adjusted = shifted(prev_today, entry);
            if clock_distance(adjusted, pct) <= 300 {
                pct
            } else {
                adjusted
            }
        },
    }
}

/// The smoothed time of day `i` of `days` (oldest first): the real time on
/// an undisturbed day, otherwise one ramp step from the previous day.
pub open spec fn spec_lre(days: Seq<LreDay>, i: int, is_isha: bool) -> Instant
    decreases i,
{
    if i <= 0 || days[i].spec_undisturbed() {
        days[i].real.unwrap()
    } else {
        spec_lre_step(spec_lre(days, i - 1, is_isha), days[i], is_isha)
    }
}

/// Distance in whole seconds between two instants around the 24-hour clock.
fn clock_distance_seconds(a: &Instant, b: &Instant) -> (d: i64)
    requires
        a.wf(),
        b.wf(),
    ensures
        d == clock_distance(*a, *b),
{
    let raw = a.seconds_since(b);
    let wrapped: i64 = if raw >= 43200 {
        raw - 86400
    } else if raw <= -43200 {
        raw + 86400
    } else {
        raw
    };
    if wrapped < 0 {
        -wrapped
    } else {
        wrapped
    }
}

/// The instant with the time of day of `t` on the day starting at `day_start`.
pub(crate) fn move_to_date(day_start: &Instant, t: &Instant) -> (moved: Instant)
    requires
        day_start.wf(),
        t.wf(),
        day_start.secs % 86400 == 0,
        day_start.secs + 86400 <= MAX_TIMESTAMP + 1,
    ensures
        moved == on_date(*day_start, *t),
        moved.wf(),
{
    let shifted_secs: u64 = (t.secs - MIN_TIMESTAMP) as u64;
    proof {
        assert((t.secs as int - MIN_TIMESTAMP) % 86400 == t.secs as int % 86400) by {
            vstd::arithmetic::div_mod::lemma_mod_multiples_vanish(
                96465292,
                t.secs as int,
                86400,
            );
        }
    }
    let second_of_day: i64 = (shifted_secs % 86400) as i64;
    Instant { secs: day_start.secs + second_of_day, nanos: t.nanos }
}

/// Whether the day's real time is undisturbed.
fn lre_undisturbed(day: &LreDay) -> (undisturbed: bool)
    requires
        day.wf(),
    ensures
        undisturbed == day.spec_undisturbed(),
{
    match (day.real, day.real_yesterday) {
        (Some(today), Some(yesterday)) => {
            let y_today = move_to_date(&day.day_start, &yesterday);
            clock_distance_seconds(&today, &y_today) <= 600
        },
        _ => false,
    }
}

/// One day of the Local Relative Estimation ramp (see [`spec_lre_step`]).
pub fn lre_step(prev: &Instant, day: &LreDay, is_isha: bool) -> (smoothed: Instant)
    requires
        prev.wf(),
        day.wf(),
    ensures
        smoothed == spec_lre_step(*prev, *day, is_isha),
        smoothed.wf(),
{
    let prev_today = move_to_date(&day.day_start, prev);
    let entry_step: i64 = if is_isha {
        -300
    } else {
        300
    };
    let exit_step: i64 = -entry_step;
    let pct_time = day.pct_time;
    let to_pct = clock_distance_seconds(&prev_today, &pct_time);
    let was_in_lre = to_pct <= 300;
    match day.real {
        Some(r) => {
            if was_in_lre || to_pct < clock_distance_seconds(&prev_today, &r) {
                let adjusted = prev_today.plus_seconds(exit_step);
                if clock_distance_seconds(&adjusted, &r) <= 300 {
                    r
                } else {
                    adjusted
                }
            } else {
                let adjusted = prev_today.plus_seconds(entry_step);
                if clock_distance_seconds(&adjusted, &pct_time) <= 300 {
                    pct_time
                } else {
                    adjusted
                }
            }
        },
        None => {
            if was_in_lre {
                pct_time
            } else {
                let adjusted = prev_today.plus_seconds(entry_step);
                if clock_distance_seconds(&adjusted, &pct_time) <= 300 {
                    pct_time
                } else {
                    adjusted
                }
            }
        },
    }
}

/// Compute the Local Relative Estimation time of the last day of `days`
/// (oldest first, each day the day after the previous one, its `real_yesterday`
/// the previous day's `real`). The first day must be undisturbed: the
/// smoothing starts from its real time.
pub fn compute_lre(days: &Vec<LreDay>, is_isha: bool) -> (smoothed: Instant)
    requires
        days.len() > 0,
        forall|i: int| 0 <= i < days.len() ==> (#[trigger] days[i]).wf(),
        forall|i: int|
            1 <= i < days.len() ==> (#[trigger] days[i]).day_start.secs == days[i
                - 1].day_start.secs + 86400 && days[i].real_yesterday == days[i - 1].real,
        days[0].spec_undisturbed(),
    ensures
        smoothed == spec_lre(days@, days.len() - 1, is_isha),
        smoothed.wf(),
        days.len() > 1 && days[days.len() - 1].real is Some && days[days.len()
            - 1].real_yesterday is Some && clock_distance(
            days[days.len() - 1].real.unwrap(),
            on_date(days[days.len() - 1].day_start, days[days.len() - 1].real_yesterday.unwrap()),
        ) <= 600 ==> smoothed == days[days.len() - 1].real.unwrap(),
{
    let mut smoothed = days[0].real.unwrap();
    let mut i: usize = 1;
    while i < days.len()
        invariant
            1 <= i <= days.len(),
            forall|j: int| 0 <= j < days.len() ==> (#[trigger] days[j]).wf(),
            days[0].spec_undisturbed(),
            smoothed == spec_lre(days@, i - 1, is_isha),
            smoothed.wf(),
        decreases days.len() - i,
    {
        let day = &days[i];
        if lre_undisturbed(day) {
            smoothed = day.real.unwrap();
        } else {
            smoothed = lre_step(&smoothed, day, is_isha);
        }
        i = i + 1;
    }
    smoothed
}

/// Off an undisturbed day, the smoothed time is one of the two targets (the
/// day's real time or its percentage time) or exactly five minutes from the
/// previous day's smoothed time of day.
pub proof fn law_lre_step_moves_five_minutes_or_reaches_a_target(
    prev: Instant,
    day: LreDay,
    is_isha: bool,
)
    ensures
        ({
            let smoothed = spec_lre_step(prev, day, is_isha);
            let prev_today = on_date(day.day_start, prev);
            ||| day.real == Some(smoothed)
            ||| smoothed == day.pct_time
            ||| smoothed == shifted(prev_today, 300)
            ||| smoothed == shifted(prev_today, -300)
        }),
{
}

/// Bounds of a truncated whole-second count: `v` lies within one second of
/// `whole_seconds(v)` seconds, on the side of zero.
pub proof fn lemma_whole_seconds_bounds(v: int)
    ensures
        v >= 0 ==> whole_seconds(v) * nanos_per_second() <= v < whole_seconds(v)
            * nanos_per_second() + nanos_per_second(),
        v < 0 ==> whole_seconds(v) * nanos_per_second() - nanos_per_second() < v <= whole_seconds(
            v,
        ) * nanos_per_second(),
        whole_seconds(-v) == -whole_seconds(v),
{
    if v >= 0 {
        vstd::arithmetic::div_mod::lemma_fundamental_div_mod(v, nanos_per_second());
    } else {
        vstd::arithmetic::div_mod::lemma_fundamental_div_mod(-v, nanos_per_second());
    }
}

/// Clock distance is symmetric.
pub proof fn lemma_clock_distance_symmetric(a: Instant, b: Instant)
    ensures
        clock_distance(a, b) == clock_distance(b, a),
{
    lemma_whole_seconds_bounds(a@ - b@);
}

/// Within 5 minutes on the clock of a point that is `k` whole seconds
/// (|k| <= 300) from `b` means within 10 minutes of `b`.
pub proof fn lemma_clock_distance_step(a: Instant, b: Instant, x: Instant, k: int)
    requires
        a@ == b@ + k * nanos_per_second(),
        -300 <= k <= 300,
        clock_distance(a, x) <= 300,
    ensures
        clock_distance(x, b) <= 600,
{
    lemma_whole_seconds_bounds(a@ - x@);
    lemma_whole_seconds_bounds(x@ - b@);
}

/// Each ramp step of the Local Relative Estimation stays within 10 minutes
/// on the clock of the previous day's smoothed time of day.
pub proof fn law_lre_step_within_ten_minutes(prev: Instant, day: LreDay, is_isha: bool)
    requires
        prev.wf(),
        day.wf(),
    ensures
        clock_distance(spec_lre_step(prev, day, is_isha), on_date(day.day_start, prev)) <= 600,
{
    let prev_today = on_date(day.day_start, prev);
    let smoothed = spec_lre_step(prev, day, is_isha);
    let up = shifted(prev_today, 300);
    let down = shifted(prev_today, -300);
    assert(0 <= prev.secs % 86400 < 86400);
    if smoothed == up || smoothed == down {
        lemma_whole_seconds_bounds(smoothed@ - prev_today@);
    } else if clock_distance(up, smoothed) <= 300 {
        lemma_clock_distance_step(up, prev_today, smoothed, 300);
    } else if clock_distance(down, smoothed) <= 300 {
        lemma_clock_distance_step(down, prev_today, smoothed, -300);
    } else {
        lemma_clock_distance_symmetric(prev_today, smoothed);
    }
}

/// The start of the prayer in effect is that prayer's own time, except in
/// the stretch before today's Isha where Isha is in effect (the
/// midnight-to-Fajr gap): then it is yesterday's Isha. Once today's Isha is
/// not after `now`, the start is today's Isha.
pub proof fn law_current_prayer_time_is_yesterdays_isha_only_in_the_gap(
    times: PrayerTimes,
    now: Instant,
)
    ensures
        times.spec_current(now) != Prayer::Isha ==> times.spec_current_prayer_time(now)
            == times.spec_time(times.spec_current(now)),
        times.spec_current(now) == Prayer::Isha && times.spec_time(Prayer::Isha)@ <= now@
            ==> times.spec_current_prayer_time(now) == times.spec_time(Prayer::Isha),
        times.spec_current(now) == Prayer::Isha && now@ < times.spec_time(Prayer::Isha)@
            ==> times.spec_current_prayer_time(now) == times.spec_isha_yesterday(),
{
}

/// On every day after the first whose real time and previous day's real
/// time both exist and lie within 10 minutes of each other on the clock
/// (the previous one taken on this day's date), the smoothed time is the
/// day's real time.
pub proof fn law_lre_keeps_undisturbed_real_time(days: Seq<LreDay>, i: int, is_isha: bool)
    requires
        0 < i < days.len(),
        days[i].real is Some,
        days[i].real_yesterday is Some,
        clock_distance(
            days[i].real.unwrap(),
            on_date(days[i].day_start, days[i].real_yesterday.unwrap()),
        ) <= 600,
    ensures
        spec_lre(days, i, is_isha) == days[i].real.unwrap(),
{
}

/// Fajr before adjustment, case by case: under the one-seventh rule
/// (Moonsighting Committee at |latitude| >= 55) it is one seventh of the
/// night before sunrise; otherwise the angle time, or the safe time when the
/// angle is never reached; and never earlier than the safe time.
pub proof fn law_fajr_cases(
    method: Method,
    abs_latitude_at_least_55: bool,
    sunrise: Instant,
    angle_fajr: Option<Instant>,
    safe_fajr: Instant,
    night_seconds: int,
)
    ensures
        ({
            let fajr = spec_fajr_unadjusted(
                method,
                abs_latitude_at_least_55,
                sunrise,
                angle_fajr,
                safe_fajr,
                night_seconds,
            );
            let rule = method == Method::MoonsightingCommittee && abs_latitude_at_least_55;
            let seventh = if night_seconds >= 0 {
                night_seconds / 7
            } else {
                -((-night_seconds) / 7)
            };
            &&& fajr >= safe_fajr@
            &&& !rule && angle_fajr is None ==> fajr == safe_fajr@
            &&& !rule && angle_fajr is Some ==> fajr == if angle_fajr.unwrap()@ < safe_fajr@ {
                safe_fajr@
            } else {
                angle_fajr.unwrap()@
            }
            &&& rule ==> fajr == if sunrise@ - seventh * nanos_per_second() < safe_fajr@ {
                safe_fajr@
            } else {
                sunrise@ - seventh * nanos_per_second()
            }
        }),
{
}

/// Isha before adjustment, case by case: a positive interval puts it that
/// many minutes after sunset; otherwise under the one-seventh rule
/// (Moonsighting Committee at |latitude| >= 55) it is one seventh of the
/// night after sunset, else the angle time, or the safe time when the angle
/// is never reached; and never later than the safe time.
pub proof fn law_isha_cases(
    method: Method,
    abs_latitude_at_least_55: bool,
    isha_interval: int,
    sunset: Instant,
    angle_isha: Option<Instant>,
    safe_isha: Instant,
    night_seconds: int,
)
    ensures
        ({
            let isha = spec_isha_unadjusted(
                method,
                abs_latitude_at_least_55,
                isha_interval,
                sunset,
                angle_isha,
                safe_isha,
                night_seconds,
            );
            let rule = method == Method::MoonsightingCommittee && abs_latitude_at_least_55;
            let seventh = if night_seconds >= 0 {
                night_seconds / 7
            } else {
                -((-night_seconds) / 7)
            };
            &&& isha_interval > 0 ==> isha == sunset@ + isha_interval * 60 * nanos_per_second()
            &&& isha_interval <= 0 ==> isha <= safe_isha@
            &&& isha_interval <= 0 && !rule && angle_isha is None ==> isha == safe_isha@
            &&& isha_interval <= 0 && !rule && angle_isha is Some ==> isha == if safe_isha@
                < angle_isha.unwrap()@ {
                safe_isha@
            } else {
                angle_isha.unwrap()@
            }
            &&& isha_interval <= 0 && rule ==> isha == if safe_isha@ < sunset@ + seventh
                * nanos_per_second() {
                safe_isha@
            } else {
                sunset@ + seventh * nanos_per_second()
            }
        }),
{
}

} // verus!
