use vstd::prelude::*;

use crate::models::rounding::Rounding;

verus! {

/// Earliest Unix timestamp (seconds) of a representable UTC instant:
/// January 1 of year -262143, 00:00:00.
pub const MIN_TIMESTAMP: i64 = -8334601228800;

/// Latest Unix timestamp (seconds) of a representable UTC instant:
/// December 31 of year 262142, 23:59:59.
pub const MAX_TIMESTAMP: i64 = 8210266876799;

/// Day number (days since 1970-01-01) of the earliest representable date.
pub const MIN_EPOCH_DAY: i32 = -96465292;

/// Day number (days since 1970-01-01) of the latest representable date.
pub const MAX_EPOCH_DAY: i32 = 95026236;

/// Earliest representable year.
pub const MIN_YEAR: i32 = -262143;

/// Latest representable year.
pub const MAX_YEAR: i32 = 262142;

/// Nanoseconds in one second.
pub open spec fn nanos_per_second() -> int {
    1_000_000_000
}

/// Nanoseconds in one UTC day.
pub open spec fn nanos_per_day() -> int {
    86_400_000_000_000
}

/// True when `v`, a count of nanoseconds since the Unix epoch, names a
/// representable instant.
pub open spec fn nanos_in_range(v: int) -> bool {
    MIN_TIMESTAMP * nanos_per_second() <= v <= MAX_TIMESTAMP * nanos_per_second() + 999_999_999
}

/// Whole seconds of a span of `v` nanoseconds, truncated toward zero.
pub open spec fn whole_seconds(v: int) -> int {
    if v >= 0 {
        v / nanos_per_second()
    } else {
        -((-v) / nanos_per_second())
    }
}

/// Gregorian leap-year rule.
pub open spec fn is_leap_year(year: int) -> bool {
    year % 4 == 0 && (year % 100 != 0 || year % 400 == 0)
}

/// Number of days in a Gregorian month (0 for a month outside 1..=12).
pub open spec fn days_in_month(year: int, month: int) -> int {
    if month == 2 {
        if is_leap_year(year) {
            29
        } else {
            28
        }
    } else if month == 4 || month == 6 || month == 9 || month == 11 {
        30
    } else if 1 <= month <= 12 {
        31
    } else {
        0
    }
}

/// True for a calendar date that exists and lies in the representable range.
pub open spec fn is_valid_ymd(year: int, month: int, day: int) -> bool {
    &&& MIN_YEAR <= year <= MAX_YEAR
    &&& 1 <= month <= 12
    &&& 1 <= day <= days_in_month(year, month)
}

/// The day number (days since 1970-01-01) of `year`-`month`-`day` in the
/// proleptic Gregorian calendar: years are counted from March so that the
/// leap day ends the year, in 400-year eras of 146097 days.
pub open spec fn days_from_civil(year: int, month: int, day: int) -> int {
    let y = if month <= 2 {
        year - 1
    } else {
        year
    };
    let era = y / 400;
    let year_of_era = y - era * 400;
    let month_from_march = if month > 2 {
        month - 3
    } else {
        month + 9
    };
    let day_of_year = (153 * month_from_march + 2) / 5 + day - 1;
    let day_of_era = year_of_era * 365 + year_of_era / 4 - year_of_era / 100 + day_of_year;
    era * 146097 + day_of_era - 719468
}

/// Calls `chrono::NaiveDate::from_ymd_opt` and reads the day number of the
/// date it builds with `NaiveDate::to_epoch_days`. Claimed: the result is
/// present exactly for valid dates, and then it is the proleptic Gregorian
/// day number of that date, within chrono's date range.
#[verifier::external_body]
fn chrono_epoch_days(year: i32, month: u32, day: u32) -> (days: Option<i32>)
    ensures
        days is Some <==> is_valid_ymd(year as int, month as int, day as int),
        days matches Some(n) ==> n == days_from_civil(year as int, month as int, day as int)
            && MIN_EPOCH_DAY <= n <= MAX_EPOCH_DAY,
{
    chrono::NaiveDate::from_ymd_opt(year, month, day).as_ref().map(chrono::NaiveDate::to_epoch_days)
}

/// Calls `chrono::NaiveDate::from_epoch_days`, then `Datelike::weekday` and
/// `Weekday::num_days_from_monday`. Claimed: 1970-01-01 was a Thursday, so the
/// weekday of day number `days` counted from Monday is `(days + 3) mod 7`.
#[verifier::external_body]
fn chrono_weekday_from_monday(days: i32) -> (weekday: u32)
    requires
        MIN_EPOCH_DAY <= days <= MAX_EPOCH_DAY,
    ensures
        weekday as int == (days as int + 3) % 7,
{
    chrono::Datelike::weekday(&chrono::NaiveDate::from_epoch_days(days).unwrap()).num_days_from_monday()
}

/// Calls `chrono::Utc::now` and reads the instant as a Unix timestamp with
/// its sub-second nanoseconds. Claimed: the instant is representable and not
/// before the Unix epoch (chrono panics otherwise). Which instant comes back
/// depends on the clock and is left unsaid.
#[verifier::external_body]
pub(crate) fn chrono_now() -> (now: Instant)
    ensures
        now.wf(),
        now.secs >= 0,
{
    let now = chrono::Utc::now();
    Instant { secs: now.timestamp(), nanos: now.timestamp_subsec_nanos() }
}

/// A calendar date in UTC, stored as its day number (days since 1970-01-01).
#[derive(PartialEq, Eq, Structural, Debug, Copy, Clone)]
pub struct Date {
    pub days: i32,
}

impl Date {
    /// The day number lies in the representable range.
    pub open spec fn wf(self) -> bool {
        MIN_EPOCH_DAY <= self.days <= MAX_EPOCH_DAY
    }

    /// Weekday counted from Monday (0) to Sunday (6).
    pub open spec fn spec_weekday(self) -> int {
        (self.days as int + 3) % 7
    }

    /// Make a date from year, month and day; `None` when the date does not
    /// exist or is out of range.
    pub fn from_ymd_opt(year: i32, month: u32, day: u32) -> (date: Option<Date>)
        ensures
            date is Some <==> is_valid_ymd(year as int, month as int, day as int),
            date matches Some(d) ==> d.wf() && d.days == days_from_civil(
                year as int,
                month as int,
                day as int,
            ),
    {
        match chrono_epoch_days(year, month, day) {
            Some(days) => Some(Date { days }),
            None => None,
        }
    }

    /// Weekday counted from Monday (0) to Sunday (6).
    pub fn weekday_from_monday(&self) -> (weekday: u32)
        requires
            self.wf(),
        ensures
            weekday == self.spec_weekday(),
    {
        chrono_weekday_from_monday(self.days)
    }

    /// True when this date is a Friday.
    pub fn is_friday(&self) -> (friday: bool)
        requires
            self.wf(),
        ensures
            friday == (self.spec_weekday() == 4),
    {
        self.weekday_from_monday() == 4
    }

    /// The instant at `hour:minute:second` UTC on this date; `None` when the
    /// time of day is not valid.
    pub fn and_hms_opt(&self, hour: u32, minute: u32, second: u32) -> (t: Option<Instant>)
        requires
            self.wf(),
        ensures
            t is Some <==> (hour < 24 && minute < 60 && second < 60),
            t matches Some(i) ==> i.wf() && i.nanos == 0 && i.secs == self.days * 86400 + hour
                * 3600 + minute * 60 + second,
    {
        if hour < 24 && minute < 60 && second < 60 {
            let secs: i64 = (self.days as i64) * 86400 + (hour as i64) * 3600 + (minute as i64)
                * 60 + (second as i64);
            Some(Instant { secs, nanos: 0 })
        } else {
            None
        }
    }

    /// Midnight UTC at the start of this date.
    pub fn start(&self) -> (t: Instant)
        requires
            self.wf(),
        ensures
            t.wf(),
            t.nanos == 0,
            t.secs == self.days * 86400,
    {
        Instant { secs: (self.days as i64) * 86400, nanos: 0 }
    }
}

/// A UTC instant: seconds since the Unix epoch and the nanoseconds within
/// that second.
#[derive(PartialEq, Eq, Structural, Debug, Copy, Clone)]
pub struct Instant {
    pub secs: i64,
    pub nanos: u32,
}

impl View for Instant {
    type V = int;

    /// Nanoseconds since the Unix epoch.
    open spec fn view(&self) -> int {
        self.secs as int * nanos_per_second() + self.nanos as int
    }
}

/// The instant named by a count of nanoseconds since the Unix epoch.
pub open spec fn instant_of(v: int) -> Instant {
    Instant { secs: (v / nanos_per_second()) as i64, nanos: (v % nanos_per_second()) as u32 }
}

/// A well-formed instant is the instant named by its own nanosecond count.
pub proof fn lemma_instant_of_view(t: Instant)
    requires
        t.wf(),
    ensures
        instant_of(t@) == t,
{
    vstd::arithmetic::div_mod::lemma_fundamental_div_mod_converse_div(
        t@,
        nanos_per_second(),
        t.secs as int,
        t.nanos as int,
    );
    vstd::arithmetic::div_mod::lemma_fundamental_div_mod_converse_mod(
        t@,
        nanos_per_second(),
        t.secs as int,
        t.nanos as int,
    );
}

impl Instant {
    /// Nanoseconds below one second, timestamp in the representable range.
    pub open spec fn wf(self) -> bool {
        &&& MIN_TIMESTAMP <= self.secs <= MAX_TIMESTAMP
        &&& self.nanos < 1_000_000_000
    }

    /// Second within the minute (0..=59).
    pub open spec fn spec_second(self) -> int {
        self.secs as int % 60
    }

    /// Seconds elapsed since midnight UTC (0..=86399).
    pub open spec fn spec_second_of_day(self) -> int {
        self.secs as int % 86400
    }

    /// Day number (days since 1970-01-01) of this instant's UTC date.
    pub open spec fn spec_epoch_day(self) -> int {
        self.secs as int / 86400
    }

    /// Make an instant from a Unix timestamp and nanoseconds; `None` when out
    /// of range or when `nanos` is not below one second.
    pub fn from_timestamp(secs: i64, nanos: u32) -> (t: Option<Instant>)
        ensures
            t is Some <==> (MIN_TIMESTAMP <= secs <= MAX_TIMESTAMP && nanos < 1_000_000_000),
            t matches Some(i) ==> i.secs == secs && i.nanos == nanos,
    {
        if MIN_TIMESTAMP <= secs && secs <= MAX_TIMESTAMP && nanos < 1_000_000_000 {
            Some(Instant { secs, nanos })
        } else {
            None
        }
    }

    /// Unix timestamp in seconds.
    pub fn timestamp(&self) -> (secs: i64)
        ensures
            secs == self.secs,
    {
        self.secs
    }

    /// Nanoseconds within the second.
    pub fn timestamp_subsec_nanos(&self) -> (nanos: u32)
        ensures
            nanos == self.nanos,
    {
        self.nanos
    }

    /// Second within the minute (0..=59).
    pub fn second(&self) -> (s: u32)
        requires
            self.wf(),
        ensures
            s == self.spec_second(),
            s < 60,
    {
        let shifted: u64 = (self.secs - MIN_TIMESTAMP) as u64;
        proof {
            assert((self.secs as int - MIN_TIMESTAMP) % 60 == self.secs as int % 60) by {
                vstd::arithmetic::div_mod::lemma_mod_multiples_vanish(
                    138910020480,
                    self.secs as int,
                    60,
                );
            }
        }
        (shifted % 60) as u32
    }

    /// The UTC calendar date of this instant.
    pub fn date_naive(&self) -> (d: Date)
        requires
            self.wf(),
        ensures
            d.wf(),
            d.days == self.spec_epoch_day(),
    {
        let shifted: u64 = (self.secs - MIN_TIMESTAMP) as u64;
        let q: u64 = shifted / 86400;
        proof {
            let r = shifted as int % 86400;
            vstd::arithmetic::div_mod::lemma_fundamental_div_mod(shifted as int, 86400);
            vstd::arithmetic::div_mod::lemma_fundamental_div_mod_converse_div(
                self.secs as int,
                86400,
                q as int + MIN_EPOCH_DAY,
                r,
            );
        }
        Date { days: (q as i64 + MIN_EPOCH_DAY as i64) as i32 }
    }

    /// True when `self` is strictly earlier than `other`.
    pub fn is_before(&self, other: &Instant) -> (before: bool)
        requires
            self.wf(),
            other.wf(),
        ensures
            before == (self@ < other@),
    {
        self.secs < other.secs || (self.secs == other.secs && self.nanos < other.nanos)
    }

    /// Whole seconds from `other` to `self`, truncated toward zero (the
    /// number of seconds of the signed duration `self - other`).
    pub fn seconds_since(&self, other: &Instant) -> (s: i64)
        requires
            self.wf(),
            other.wf(),
        ensures
            s == whole_seconds(self@ - other@),
    {
        let mut secs: i64 = self.secs - other.secs;
        let mut nanos: i64 = self.nanos as i64 - other.nanos as i64;
        if nanos < 0 {
            secs = secs - 1;
            nanos = nanos + 1_000_000_000;
        }
        proof {
            let d = self@ - other@;
            assert(d == secs * nanos_per_second() + nanos);
            if d >= 0 {
                vstd::arithmetic::div_mod::lemma_fundamental_div_mod_converse_div(
                    d,
                    nanos_per_second(),
                    secs as int,
                    nanos as int,
                );
            } else if nanos > 0 {
                vstd::arithmetic::div_mod::lemma_fundamental_div_mod_converse_div(
                    -d,
                    nanos_per_second(),
                    -(secs + 1),
                    nanos_per_second() - nanos,
                );
            } else {
                vstd::arithmetic::div_mod::lemma_fundamental_div_mod_converse_div(
                    -d,
                    nanos_per_second(),
                    -secs as int,
                    0,
                );
            }
        }
        if secs < 0 && nanos > 0 {
            secs + 1
        } else {
            secs
        }
    }

    /// Move by a whole number of seconds; `None` when the result would leave
    /// the representable range.
    pub fn checked_add_seconds(&self, seconds: i64) -> (t: Option<Instant>)
        requires
            self.wf(),
        ensures
            t is Some <==> nanos_in_range(self@ + seconds * nanos_per_second()),
            t matches Some(i) ==> i.wf() && i@ == self@ + seconds * nanos_per_second(),
    {
        if seconds < MIN_TIMESTAMP - MAX_TIMESTAMP || seconds > MAX_TIMESTAMP - MIN_TIMESTAMP {
            return None;
        }
        let secs: i64 = self.secs + seconds;
        if MIN_TIMESTAMP <= secs && secs <= MAX_TIMESTAMP {
            Some(Instant { secs, nanos: self.nanos })
        } else {
            None
        }
    }

    /// Move by a whole number of seconds that keeps the instant in range.
    pub fn plus_seconds(&self, seconds: i64) -> (t: Instant)
        requires
            self.wf(),
            nanos_in_range(self@ + seconds * nanos_per_second()),
        ensures
            t.wf(),
            t@ == self@ + seconds * nanos_per_second(),
    {
        let secs: i64 = self.secs + seconds;
        Instant { secs, nanos: self.nanos }
    }

    /// Adjust time by the given number of minutes (positive or negative).
    pub fn adjust_time(&self, minutes: i64) -> (t: Instant)
        requires
            self.wf(),
            nanos_in_range(self@ + minutes * 60 * nanos_per_second()),
        ensures
            t.wf(),
            t@ == self@ + minutes * 60 * nanos_per_second(),
    {
        self.plus_seconds(minutes * 60)
    }

    /// The nanosecond count after rounding to a minute with `rounding`:
    /// `Nearest` moves to the closer minute boundary (half a minute rounds
    /// up), `Up` moves to the next minute boundary (a full minute when
    /// already on one), `NoRounding` keeps the instant.
    pub open spec fn spec_rounded_minute(self, rounding: Rounding) -> int {
        let s = self.spec_second();
        match rounding {
            Rounding::Nearest => if s >= 30 {
                self@ + (60 - s) * nanos_per_second()
            } else {
                self@ - s * nanos_per_second()
            },
            Rounding::Up => self@ + (60 - s) * nanos_per_second(),
            Rounding::NoRounding => self@,
        }
    }

    /// Round to a minute boundary using the given rounding rule; the
    /// nanoseconds within the second are kept.
    pub fn rounded_minute(&self, rounding: Rounding) -> (t: Instant)
        requires
            self.wf(),
            nanos_in_range(self.spec_rounded_minute(rounding)),
        ensures
            t.wf(),
            t@ == self.spec_rounded_minute(rounding),
    {
        let seconds: i64 = self.second() as i64;
        match rounding {
            Rounding::Nearest => {
                if seconds >= 30 {
                    self.plus_seconds(60 - seconds)
                } else {
                    self.plus_seconds(-seconds)
                }
            },
            Rounding::Up => self.plus_seconds(60 - seconds),
            Rounding::NoRounding => *self,
        }
    }

    /// Adjust time by the given number of minutes; `None` when the result
    /// would leave the representable range.
    pub fn checked_adjust_time(&self, minutes: i64) -> (t: Option<Instant>)
        requires
            self.wf(),
        ensures
            t is Some <==> nanos_in_range(self@ + minutes * 60 * nanos_per_second()),
            t matches Some(i) ==> i.wf() && i@ == self@ + minutes * 60 * nanos_per_second(),
    {
        match minutes.checked_mul(60) {
            Some(seconds) => self.checked_add_seconds(seconds),
            None => None,
        }
    }

    /// Round to a minute boundary using the given rounding rule; `None` when
    /// the result would leave the representable range.
    pub fn checked_rounded_minute(&self, rounding: Rounding) -> (t: Option<Instant>)
        requires
            self.wf(),
        ensures
            t is Some <==> nanos_in_range(self.spec_rounded_minute(rounding)),
            t matches Some(i) ==> i.wf() && i@ == self.spec_rounded_minute(rounding),
    {
        let seconds: i64 = self.second() as i64;
        let delta: i64 = match rounding {
            Rounding::Nearest => if seconds >= 30 {
                60 - seconds
            } else {
                -seconds
            },
            Rounding::Up => 60 - seconds,
            Rounding::NoRounding => 0,
        };
        self.checked_add_seconds(delta)
    }

    /// Move one day forward (`fwd`) or backward, keeping the time of day.
    pub fn next_date(&self, fwd: bool) -> (t: Instant)
        requires
            self.wf(),
            nanos_in_range(
                if fwd {
                    self@ + nanos_per_day()
                } else {
                    self@ - nanos_per_day()
                },
            ),
        ensures
            t.wf(),
            t@ == if fwd {
                self@ + nanos_per_day()
            } else {
                self@ - nanos_per_day()
            },
    {
        if fwd {
            self.plus_seconds(86400)
        } else {
            self.plus_seconds(-86400)
        }
    }

    /// The same time of day on the next date.
    pub fn tomorrow(&self) -> (t: Instant)
        requires
            self.wf(),
            nanos_in_range(self@ + nanos_per_day()),
        ensures
            t.wf(),
            t@ == self@ + nanos_per_day(),
    {
        self.next_date(true)
    }

    /// The same time of day on the previous date.
    pub fn yesterday(&self) -> (t: Instant)
        requires
            self.wf(),
            nanos_in_range(self@ - nanos_per_day()),
        ensures
            t.wf(),
            t@ == self@ - nanos_per_day(),
    {
        self.next_date(false)
    }
}

} // verus!

verus! {

/// A representable nanosecond count names a well-formed instant with that count.
pub proof fn lemma_instant_of_in_range(v: int)
    requires
        nanos_in_range(v),
    ensures
        instant_of(v).wf(),
        instant_of(v)@ == v,
{
    vstd::arithmetic::div_mod::lemma_fundamental_div_mod(v, nanos_per_second());
    vstd::arithmetic::div_mod::lemma_mod_bound(v, nanos_per_second());
    let q = v / nanos_per_second();
    if q < MIN_TIMESTAMP {
        assert(v < MIN_TIMESTAMP * nanos_per_second());
    }
    if q > MAX_TIMESTAMP {
        assert(v >= (MAX_TIMESTAMP + 1) * nanos_per_second());
    }
}

/// Moving a day forward and then a day back returns the same instant.
pub proof fn law_tomorrow_then_yesterday(t: Instant)
    requires
        t.wf(),
        nanos_in_range(t@ + nanos_per_day()),
    ensures
        ({
            let after = instant_of(t@ + nanos_per_day());
            &&& after.wf()
            &&& nanos_in_range(after@ - nanos_per_day())
            &&& instant_of(after@ - nanos_per_day()) == t
        }),
{
    lemma_instant_of_in_range(t@ + nanos_per_day());
    lemma_instant_of_view(t);
}

/// Moving a day back and then a day forward returns the same instant.
pub proof fn law_yesterday_then_tomorrow(t: Instant)
    requires
        t.wf(),
        nanos_in_range(t@ - nanos_per_day()),
    ensures
        ({
            let before = instant_of(t@ - nanos_per_day());
            &&& before.wf()
            &&& nanos_in_range(before@ + nanos_per_day())
            &&& instant_of(before@ + nanos_per_day()) == t
        }),
{
    lemma_instant_of_in_range(t@ - nanos_per_day());
    lemma_instant_of_view(t);
}

/// Adjusting by `minutes` and then by `-minutes` returns the same instant,
/// and two adjustments add up.
pub proof fn law_adjust_time_composes(t: Instant, first: int, second: int)
    requires
        t.wf(),
        nanos_in_range(t@ + first * 60 * nanos_per_second()),
    ensures
        ({
            let moved = instant_of(t@ + first * 60 * nanos_per_second());
            &&& moved.wf()
            &&& moved@ + second * 60 * nanos_per_second() == t@ + (first + second) * 60
                * nanos_per_second()
            &&& instant_of(moved@ + (-first) * 60 * nanos_per_second()) == t
        }),
{
    lemma_instant_of_in_range(t@ + first * 60 * nanos_per_second());
    lemma_instant_of_view(t);
}

/// Rounding to the nearest minute or up lands on a minute boundary and keeps
/// the nanoseconds within the second; no rounding keeps the instant.
pub proof fn law_rounded_minute_on_boundary(t: Instant, rounding: Rounding)
    requires
        t.wf(),
        nanos_in_range(t.spec_rounded_minute(rounding)),
    ensures
        ({
            let r = instant_of(t.spec_rounded_minute(rounding));
            &&& r.wf()
            &&& r.nanos == t.nanos
            &&& rounding != Rounding::NoRounding ==> r.spec_second() == 0
            &&& rounding == Rounding::NoRounding ==> r == t
        }),
{
    let v = t.spec_rounded_minute(rounding);
    lemma_instant_of_in_range(v);
    lemma_instant_of_view(t);
    let s = t.spec_second();
    let secs = if rounding == Rounding::NoRounding {
        t.secs as int
    } else if rounding == Rounding::Nearest && s < 30 {
        t.secs - s
    } else {
        t.secs + 60 - s
    };
    assert(v == secs * nanos_per_second() + t.nanos);
    vstd::arithmetic::div_mod::lemma_fundamental_div_mod_converse_div(
        v,
        nanos_per_second(),
        secs,
        t.nanos as int,
    );
    vstd::arithmetic::div_mod::lemma_fundamental_div_mod(t.secs as int, 60);
    if rounding != Rounding::NoRounding {
        let q = t.secs as int / 60;
        let k = if secs == t.secs - s {
            q
        } else {
            q + 1
        };
        assert(secs == k * 60);
        vstd::arithmetic::div_mod::lemma_fundamental_div_mod_converse_mod(secs, 60, k, 0);
    }
}

/// Rounding to the nearest minute moves an instant by at most half a minute;
/// rounding up moves it forward by more than nothing and at most a minute.
pub proof fn law_rounding_distance(t: Instant)
    requires
        t.wf(),
    ensures
        -30 * nanos_per_second() <= t.spec_rounded_minute(Rounding::Nearest) - t@ <= 30
            * nanos_per_second(),
        nanos_per_second() <= t.spec_rounded_minute(Rounding::Up) - t@ <= 60 * nanos_per_second(),
{
}

/// Rounding an already rounded instant to the nearest minute changes nothing.
pub proof fn law_round_nearest_idempotent(t: Instant)
    requires
        t.wf(),
        nanos_in_range(t.spec_rounded_minute(Rounding::Nearest)),
    ensures
        instant_of(t.spec_rounded_minute(Rounding::Nearest)).spec_rounded_minute(
            Rounding::Nearest,
        ) == t.spec_rounded_minute(Rounding::Nearest),
{
    law_rounded_minute_on_boundary(t, Rounding::Nearest);
}

/// Rounding to the nearest minute keeps the order of two instants that share
/// their nanoseconds within the second.
pub proof fn law_round_nearest_monotone(a: Instant, b: Instant)
    requires
        a.wf(),
        b.wf(),
        a.nanos == b.nanos,
        a@ <= b@,
    ensures
        a.spec_rounded_minute(Rounding::Nearest) <= b.spec_rounded_minute(Rounding::Nearest),
{
    vstd::arithmetic::div_mod::lemma_fundamental_div_mod(a.secs as int, 60);
    vstd::arithmetic::div_mod::lemma_fundamental_div_mod(b.secs as int, 60);
    let qa = a.secs as int / 60;
    let qb = b.secs as int / 60;
    assert(a.secs <= b.secs);
    if qa > qb {
        assert(a.secs as int >= qa * 60);
        assert((b.secs as int) < qb * 60 + 60);
    }
}

} // verus!
