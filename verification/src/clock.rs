//! Calendar clock interfaces: alarm configuration, the calendar and
//! system clocks, and time sources.

pub mod alarm;
pub mod rtc;
pub mod sys;

use vstd::prelude::*;

use crate::time::{Month, Time, Weekday};

verus! {

/// Errors of the calendar clock drivers.
#[derive(Clone, Copy, Debug, PartialEq, Eq, Structural)]
pub enum RtcError {
    /// The clock is not running.
    NotRunning,
    /// The time value names no real calendar instant.
    InvalidTime,
    /// A field is beyond what the hardware can hold.
    ValueTooLarge,
}

/// Which calendar fields an alarm matches on; an unset field matches any
/// value.  A zero day or year counts as unset, as the hardware treats a
/// zero match field.
#[derive(Clone, Copy, Debug, PartialEq, Eq, Structural)]
pub struct AlarmConfig {
    /// Day of the month to match, if any (never zero).
    pub day: Option<u8>,
    /// Minute to match, if any.
    pub mins: Option<u8>,
    /// Second to match, if any.
    pub secs: Option<u8>,
    /// Year to match, if any (never zero).
    pub year: Option<u16>,
    /// Hour to match, if any.
    pub hours: Option<u8>,
    /// Month to match, unset to match any.
    pub month: Month,
    /// Weekday to match, unset to match any.
    pub weekday: Weekday,
}

/// Anything that can tell the current time.
pub trait TimeSource {
    /// The reading error of this source.
    type Error;

    /// The current time, or this source's error.
    fn now(&mut self) -> Result<Time, Self::Error>;
}

impl AlarmConfig {
    /// An alarm matching nothing yet.
    pub fn new() -> (r: AlarmConfig)
        ensures
            r == (AlarmConfig {
                day: Option::<u8>::None,
                mins: Option::<u8>::None,
                secs: Option::<u8>::None,
                year: Option::<u16>::None,
                hours: Option::<u8>::None,
                month: Month::Unset,
                weekday: Weekday::Unset,
            }),
    {
        AlarmConfig {
            day: None,
            mins: None,
            secs: None,
            year: None,
            hours: None,
            month: Month::Unset,
            weekday: Weekday::Unset,
        }
    }

    /// Match a day of the month; zero unsets the field.
    pub fn day(self, v: u8) -> (r: AlarmConfig)
        ensures
            r == (AlarmConfig {
                day: if v == 0 {
                    Option::<u8>::None
                } else {
                    Option::<u8>::Some(v)
                },
                ..self
            }),
    {
        AlarmConfig {
            day: if v == 0 {
                None
            } else {
                Some(v)
            },
            ..self
        }
    }

    /// Match a minute.
    pub fn mins(self, v: u8) -> (r: AlarmConfig)
        ensures
            r == (AlarmConfig { mins: Option::<u8>::Some(v), ..self }),
    {
        AlarmConfig { mins: Some(v), ..self }
    }

    /// Match a second.
    pub fn secs(self, v: u8) -> (r: AlarmConfig)
        ensures
            r == (AlarmConfig { secs: Option::<u8>::Some(v), ..self }),
    {
        AlarmConfig { secs: Some(v), ..self }
    }

    /// Match an hour.
    pub fn hours(self, v: u8) -> (r: AlarmConfig)
        ensures
            r == (AlarmConfig { hours: Option::<u8>::Some(v), ..self }),
    {
        AlarmConfig { hours: Some(v), ..self }
    }

    /// Match a year; zero unsets the field.
    pub fn year(self, v: u16) -> (r: AlarmConfig)
        ensures
            r == (AlarmConfig {
                year: if v == 0 {
                    Option::<u16>::None
                } else {
                    Option::<u16>::Some(v)
                },
                ..self
            }),
    {
        AlarmConfig {
            year: if v == 0 {
                None
            } else {
                Some(v)
            },
            ..self
        }
    }

    /// Match a month.
    pub fn month(self, v: Month) -> (r: AlarmConfig)
        ensures
            r == (AlarmConfig { month: v, ..self }),
    {
        AlarmConfig { month: v, ..self }
    }

    /// Match a weekday.
    pub fn weekday(self, v: Weekday) -> (r: AlarmConfig)
        ensures
            r == (AlarmConfig { weekday: v, ..self }),
    {
        AlarmConfig { weekday: v, ..self }
    }

    /// Whether no repeating field is set (year and month do not repeat).
    pub fn is_empty(&self) -> (r: bool)
        ensures
            r == (self.day is None && self.mins is None && self.secs is None && self.hours is None
                && self.weekday == Weekday::Unset),
    {
        self.day.is_none() && self.mins.is_none() && self.secs.is_none() && self.hours.is_none()
            && matches!(self.weekday, Weekday::Unset)
    }

    /// Whether every set field is inside its calendar range.
    pub fn is_valid(&self) -> (r: bool)
        ensures
            r == ((match self.day {
                Some(v) => 1 <= v <= 31,
                None => true,
            }) && (match self.hours {
                Some(v) => v <= 23,
                None => true,
            }) && (match self.mins {
                Some(v) => v <= 59,
                None => true,
            }) && (match self.secs {
                Some(v) => v <= 59,
                None => true,
            })),
    {
        (match self.day {
            Some(v) => 1 <= v && v <= 31,
            None => true,
        }) && (match self.hours {
            Some(v) => v <= 23,
            None => true,
        }) && (match self.mins {
            Some(v) => v <= 59,
            None => true,
        }) && (match self.secs {
            Some(v) => v <= 59,
            None => true,
        })
    }
}

impl Default for AlarmConfig {
    /// An alarm matching nothing yet.
    fn default() -> (r: AlarmConfig)
        ensures
            r == (AlarmConfig {
                day: Option::<u8>::None,
                mins: Option::<u8>::None,
                secs: Option::<u8>::None,
                year: Option::<u16>::None,
                hours: Option::<u8>::None,
                month: Month::Unset,
                weekday: Weekday::Unset,
            }),
    {
        AlarmConfig::new()
    }
}

} // verus!
