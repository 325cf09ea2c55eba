//! Calendar values carried between the clock drivers.
//!
//! [`Time`] is a plain broken-down date and time of day.  The month and
//! weekday enumerations keep an explicit unset value, as the hardware
//! calendar registers do.

use vstd::prelude::*;

verus! {

/// A month, or the unset value the calendar registers reset to.
#[derive(Clone, Copy, Debug, PartialEq, Eq, Structural)]
pub enum Month {
    Unset,
    January,
    February,
    March,
    April,
    May,
    June,
    July,
    August,
    September,
    October,
    November,
    December,
}

/// A weekday, or the unset value.
#[derive(Clone, Copy, Debug, PartialEq, Eq, Structural)]
pub enum Weekday {
    Sunday,
    Monday,
    Tuesday,
    Wednesday,
    Thursday,
    Friday,
    Saturday,
    Unset,
}

/// A broken-down date and time of day.
#[derive(Clone, Copy, Debug, PartialEq, Eq, Structural)]
pub struct Time {
    /// Day of the month, starting at one.
    pub day: u8,
    /// Calendar year.
    pub year: u16,
    /// Minute of the hour.
    pub mins: u8,
    /// Second of the minute.
    pub secs: u8,
    /// Hour of the day.
    pub hours: u8,
    /// Month of the year.
    pub month: Month,
    /// Day of the week, where known.
    pub weekday: Weekday,
}

impl Time {
    /// The all-zero value the registers reset to; not a valid date.
    pub fn zero() -> (r: Time)
        ensures
            r == (Time {
                day: 0u8,
                year: 0u16,
                mins: 0u8,
                secs: 0u8,
                hours: 0u8,
                month: Month::Unset,
                weekday: Weekday::Unset,
            }),
    {
        Time {
            day: 0,
            year: 0,
            mins: 0,
            secs: 0,
            hours: 0,
            month: Month::Unset,
            weekday: Weekday::Unset,
        }
    }

    /// The earliest valid date.
    pub fn empty() -> (r: Time)
        ensures
            r == (Time {
                day: 1u8,
                year: 0u16,
                mins: 0u8,
                secs: 0u8,
                hours: 0u8,
                month: Month::January,
                weekday: Weekday::Unset,
            }),
    {
        Time {
            day: 1,
            year: 0,
            mins: 0,
            secs: 0,
            hours: 0,
            month: Month::January,
            weekday: Weekday::Unset,
        }
    }

    /// A value from its parts.
    pub fn new(year: u16, month: Month, day: u8, hours: u8, mins: u8, secs: u8, weekday: Weekday)
        -> (r: Time)
        ensures
            r == (Time { day, year, mins, secs, hours, month, weekday }),
    {
        Time { day, mins, secs, year, hours, month, weekday }
    }

    /// Whether the value names a real calendar instant: day inside the
    /// month range, clock fields inside the day, month set.
    pub fn is_valid(&self) -> (r: bool)
        ensures
            r == (1 <= self.day <= 31 && self.hours <= 23 && self.mins <= 59 && self.secs <= 59
                && self.month != Month::Unset),
    {
        1 <= self.day && self.day <= 31 && self.hours <= 23 && self.mins <= 59 && self.secs <= 59
            && !self.month.is_none()
    }
}

impl Month {
    /// Whether the month is unset.
    pub fn is_none(&self) -> (r: bool)
        ensures
            r == (*self == Month::Unset),
    {
        matches!(self, Month::Unset)
    }

    /// Apply `f` to a set month, or fall back to `default`.
    pub fn map_or<U, F: FnOnce(Month) -> U>(self, default: U, f: F) -> (r: U)
        requires
            self != Month::Unset ==> f.requires((self,)),
        ensures
            self == Month::Unset ==> r == default,
            self != Month::Unset ==> f.ensures((self,), r),
    {
        match self {
            Month::Unset => default,
            _ => f(self),
        }
    }
}

impl Weekday {
    /// Whether the weekday is unset.
    pub fn is_none(&self) -> (r: bool)
        ensures
            r == (*self == Weekday::Unset),
    {
        matches!(self, Weekday::Unset)
    }

    /// Apply `f` to a set weekday, or fall back to `default`.
    pub fn map_or<U, F: FnOnce(Weekday) -> U>(self, default: U, f: F) -> (r: U)
        requires
            self != Weekday::Unset ==> f.requires((self,)),
        ensures
            self == Weekday::Unset ==> r == default,
            self != Weekday::Unset ==> f.ensures((self,), r),
    {
        match self {
            Weekday::Unset => default,
            _ => f(self),
        }
    }
}

impl Default for Time {
    /// The earliest valid date.
    fn default() -> (r: Time)
        ensures
            r == (Time {
                day: 1u8,
                year: 0u16,
                mins: 0u8,
                secs: 0u8,
                hours: 0u8,
                month: Month::January,
                weekday: Weekday::Unset,
            }),
    {
        Time::empty()
    }
}

} // verus!
