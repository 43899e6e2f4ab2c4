use vstd::prelude::*;

use crate::models::prayer::Prayer;

verus! {

/// Time adjustment for all prayer times.
/// The value is specified in *minutes* and can be either positive or negative.
#[derive(PartialEq, Eq, Structural, Debug, Copy, Clone)]
pub struct TimeAdjustment {
    pub fajr: i64,
    pub sunrise: i64,
    pub dhuhr: i64,
    pub asr: i64,
    pub maghrib: i64,
    pub isha: i64,
}

impl TimeAdjustment {
    /// The adjustment that leaves every prayer where it is.
    pub open spec fn spec_zero() -> TimeAdjustment {
        TimeAdjustment { fajr: 0, sunrise: 0, dhuhr: 0, asr: 0, maghrib: 0, isha: 0 }
    }

    /// Create a [`TimeAdjustment`] with explicit minute values for each prayer.
    pub fn new(fajr: i64, sunrise: i64, dhuhr: i64, asr: i64, maghrib: i64, isha: i64) -> (adj:
        TimeAdjustment)
        ensures
            adj == (TimeAdjustment { fajr, sunrise, dhuhr, asr, maghrib, isha }),
    {
        TimeAdjustment { fajr, sunrise, dhuhr, asr, maghrib, isha }
    }
}

impl Default for TimeAdjustment {
    /// All offsets zero.
    fn default() -> (adj: TimeAdjustment)
        ensures
            adj == TimeAdjustment::spec_zero(),
    {
        TimeAdjustment { fajr: 0, sunrise: 0, dhuhr: 0, asr: 0, maghrib: 0, isha: 0 }
    }
}

/// Builder for [`TimeAdjustment`].
pub struct Adjustment {
    fajr: i64,
    sunrise: i64,
    dhuhr: i64,
    asr: i64,
    maghrib: i64,
    isha: i64,
}

impl View for Adjustment {
    type V = TimeAdjustment;

    /// The adjustment this builder would produce now.
    closed spec fn view(&self) -> TimeAdjustment {
        TimeAdjustment {
            fajr: self.fajr,
            sunrise: self.sunrise,
            dhuhr: self.dhuhr,
            asr: self.asr,
            maghrib: self.maghrib,
            isha: self.isha,
        }
    }
}

impl Default for Adjustment {
    fn default() -> (builder: Adjustment)
        ensures
            builder@ == TimeAdjustment::spec_zero(),
    {
        Adjustment::new()
    }
}

impl Adjustment {
    /// Create an [`Adjustment`] builder with all offsets initialized to zero.
    pub fn new() -> (builder: Adjustment)
        ensures
            builder@ == TimeAdjustment::spec_zero(),
    {
        Adjustment { fajr: 0, sunrise: 0, dhuhr: 0, asr: 0, maghrib: 0, isha: 0 }
    }

    /// Set the Fajr adjustment in minutes.
    pub fn fajr(&mut self, fajr: i64) -> (builder: &mut Self)
        ensures
            builder@ == (TimeAdjustment { fajr, ..old(self)@ }),
            final(self)@ == final(builder)@,
    {
        self.fajr = fajr;
        self
    }

    /// Set the Sunrise adjustment in minutes.
    pub fn sunrise(&mut self, sunrise: i64) -> (builder: &mut Self)
        ensures
            builder@ == (TimeAdjustment { sunrise, ..old(self)@ }),
            final(self)@ == final(builder)@,
    {
        self.sunrise = sunrise;
        self
    }

    /// Set the Dhuhr adjustment in minutes.
    pub fn dhuhr(&mut self, dhuhr: i64) -> (builder: &mut Self)
        ensures
            builder@ == (TimeAdjustment { dhuhr, ..old(self)@ }),
            final(self)@ == final(builder)@,
    {
        self.dhuhr = dhuhr;
        self
    }

    /// Set the Asr adjustment in minutes.
    pub fn asr(&mut self, asr: i64) -> (builder: &mut Self)
        ensures
            builder@ == (TimeAdjustment { asr, ..old(self)@ }),
            final(self)@ == final(builder)@,
    {
        self.asr = asr;
        self
    }

    /// Set the Maghrib adjustment in minutes.
    pub fn maghrib(&mut self, maghrib: i64) -> (builder: &mut Self)
        ensures
            builder@ == (TimeAdjustment { maghrib, ..old(self)@ }),
            final(self)@ == final(builder)@,
    {
        self.maghrib = maghrib;
        self
    }

    /// Set the Isha adjustment in minutes.
    pub fn isha(&mut self, isha: i64) -> (builder: &mut Self)
        ensures
            builder@ == (TimeAdjustment { isha, ..old(self)@ }),
            final(self)@ == final(builder)@,
    {
        self.isha = isha;
        self
    }

    /// Finalise the builder and return the [`TimeAdjustment`].
    pub fn done(&self) -> (adj: TimeAdjustment)
        ensures
            adj == self@,
    {
        TimeAdjustment {
            fajr: self.fajr,
            sunrise: self.sunrise,
            dhuhr: self.dhuhr,
            asr: self.asr,
            maghrib: self.maghrib,
            isha: self.isha,
        }
    }
}

impl TimeAdjustment {
    /// The offset, in minutes, that this adjustment gives `prayer`; Qiyam and
    /// tomorrow's Fajr are not adjusted.
    pub open spec fn spec_minutes_for(self, prayer: Prayer) -> int {
        match prayer {
            Prayer::Fajr => self.fajr as int,
            Prayer::Sunrise => self.sunrise as int,
            Prayer::Dhuhr => self.dhuhr as int,
            Prayer::Asr => self.asr as int,
            Prayer::Maghrib => self.maghrib as int,
            Prayer::Isha => self.isha as int,
            Prayer::Qiyam => 0,
            Prayer::FajrTomorrow => 0,
        }
    }
}

/// The combined user and method offsets for a prayer.
pub open spec fn spec_time_adjustments(
    adjustments: TimeAdjustment,
    method_adjustments: TimeAdjustment,
    prayer: Prayer,
) -> int {
    adjustments.spec_minutes_for(prayer) + method_adjustments.spec_minutes_for(prayer)
}

/// Return the combined (user + method) time adjustment in minutes for the
/// given [`Prayer`]; Qiyam and tomorrow's Fajr get 0.
pub fn time_adjustments(
    adjustments: &TimeAdjustment,
    method_adjustments: &TimeAdjustment,
    prayer: Prayer,
) -> (minutes: i64)
    requires
        i64::MIN <= spec_time_adjustments(*adjustments, *method_adjustments, prayer) <= i64::MAX,
    ensures
        minutes == spec_time_adjustments(*adjustments, *method_adjustments, prayer),
{
    match prayer {
        Prayer::Fajr => adjustments.fajr + method_adjustments.fajr,
        Prayer::Sunrise => adjustments.sunrise + method_adjustments.sunrise,
        Prayer::Dhuhr => adjustments.dhuhr + method_adjustments.dhuhr,
        Prayer::Asr => adjustments.asr + method_adjustments.asr,
        Prayer::Maghrib => adjustments.maghrib + method_adjustments.maghrib,
        Prayer::Isha => adjustments.isha + method_adjustments.isha,
        _ => 0,
    }
}

} // verus!
