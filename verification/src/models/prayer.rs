use vstd::prelude::*;
use vstd::string::*;

use crate::time::Date;

verus! {

/// Names of all obligatory prayers, sunrise, and Qiyam.
#[derive(PartialEq, Eq, Structural, Debug, Copy, Clone)]
pub enum Prayer {
    Fajr,
    Sunrise,
    Dhuhr,
    Asr,
    Maghrib,
    Isha,
    Qiyam,
    FajrTomorrow,
}

impl Prayer {
    /// The English label of a prayer; `Fajr` and `FajrTomorrow` share one.
    pub open spec fn spec_name(self) -> Seq<char> {
        match self {
            Prayer::Fajr => "Fajr"@,
            Prayer::FajrTomorrow => "Fajr"@,
            Prayer::Sunrise => "Sunrise"@,
            Prayer::Dhuhr => "Dhuhr"@,
            Prayer::Asr => "Asr"@,
            Prayer::Maghrib => "Maghrib"@,
            Prayer::Isha => "Isha"@,
            Prayer::Qiyam => "Qiyam"@,
        }
    }

    /// Return the English name of this prayer, independent of the date.
    pub fn name(&self) -> (label: String)
        ensures
            label@ == self.spec_name(),
    {
        match self {
            Prayer::Fajr | Prayer::FajrTomorrow => String::from_str("Fajr"),
            Prayer::Sunrise => String::from_str("Sunrise"),
            Prayer::Dhuhr => String::from_str("Dhuhr"),
            Prayer::Asr => String::from_str("Asr"),
            Prayer::Maghrib => String::from_str("Maghrib"),
            Prayer::Isha => String::from_str("Isha"),
            Prayer::Qiyam => String::from_str("Qiyam"),
        }
    }

    /// The label of a prayer on a given date: Dhuhr is "Jumua" on Fridays.
    pub open spec fn spec_name_on(self, date: Date) -> Seq<char> {
        if self == Prayer::Dhuhr && date.spec_weekday() == 4 {
            "Jumua"@
        } else {
            self.spec_name()
        }
    }

    /// Return the English name of this prayer for the given date.
    ///
    /// `Dhuhr` returns `"Jumua"` when `date` is a Friday, and `"Dhuhr"`
    /// otherwise. All other prayers return the same value as [`Self::name`].
    pub fn name_on(&self, date: Date) -> (label: String)
        requires
            date.wf(),
        ensures
            label@ == self.spec_name_on(date),
            *self != Prayer::Dhuhr ==> label@ == self.spec_name(),
            *self == Prayer::Dhuhr && date.spec_weekday() != 4 ==> label@ == "Dhuhr"@,
            *self == Prayer::Dhuhr && date.spec_weekday() == 4 ==> label@ == "Jumua"@,
    {
        match self {
            Prayer::Dhuhr => {
                if date.is_friday() {
                    String::from_str("Jumua")
                } else {
                    self.name()
                }
            },
            _ => self.name(),
        }
    }
}

/// Dhuhr is labelled "Jumua" exactly on Fridays (weekday 4 counted from
/// Monday) and "Dhuhr" on every other day; every other prayer keeps its
/// date-independent label.
pub proof fn law_jumua_only_on_friday(prayer: Prayer, date: Date)
    ensures
        prayer != Prayer::Dhuhr ==> prayer.spec_name_on(date) == prayer.spec_name(),
        prayer == Prayer::Dhuhr && date.spec_weekday() != 4 ==> prayer.spec_name_on(date)
            == "Dhuhr"@,
        prayer == Prayer::Dhuhr && date.spec_weekday() == 4 ==> prayer.spec_name_on(date)
            == "Jumua"@,
{
}

} // verus!
