//! Calendar time as the database stores it, and the clock.

use chrono::{Datelike, Timelike};
use vstd::prelude::*;

use crate::value::{SqlValue, SqlValueView};

verus! {

/// A date and a time of day, without a time zone.
#[derive(Debug, Clone, Copy, PartialEq, Eq)]
pub struct SqlDateTime {
    pub year: i32,
    pub month: u8,
    pub day: u8,
    pub hour: u8,
    pub minute: u8,
    pub second: u8,
}

impl SqlDateTime {
    /// Whether month, day and time of day are in the range a clock shows.
    pub open spec fn is_clock_time(self) -> bool {
        &&& 1 <= self.month <= 12
        &&& 1 <= self.day <= 31
        &&& self.hour <= 23
        &&& self.minute <= 59
        &&& self.second <= 59
    }

    /// The moment as a bound value. The year is cut to 16 bits.
    pub open spec fn value(self) -> SqlValueView {
        SqlValueView::Date(
            self.year as u16,
            self.month,
            self.day,
            self.hour,
            self.minute,
            self.second,
            0,
        )
    }

    pub fn to_value(&self) -> (r: SqlValue)
        ensures
            r@ == self.value(),
    {
        SqlValue::Date(
            #[verifier::truncate]
            (self.year as u16),
            self.month,
            self.day,
            self.hour,
            self.minute,
            self.second,
            0u32,
        )
    }
}

/// Reads the local time with `chrono::offset::Local::now` and takes its
/// calendar fields. Nothing is known of the moment but the ranges chrono
/// documents for month, day, hour, minute and second.
#[verifier::external_body]
pub fn get_date_now() -> (r: SqlDateTime)
    ensures
        r.is_clock_time(),
{
    let now = chrono::offset::Local::now();
    SqlDateTime {
        year: now.year(),
        month: now.month() as u8,
        day: now.day() as u8,
        hour: now.hour() as u8,
        minute: now.minute() as u8,
        second: now.second() as u8,
    }
}

/// Reads the time in UTC with `chrono::offset::Utc::now` and takes its
/// calendar fields. Nothing is known of the moment but the ranges chrono
/// documents for month, day, hour, minute and second.
#[verifier::external_body]
pub fn get_utc_date_now() -> (r: SqlDateTime)
    ensures
        r.is_clock_time(),
{
    let now = chrono::offset::Utc::now();
    SqlDateTime {
        year: now.year(),
        month: now.month() as u8,
        day: now.day() as u8,
        hour: now.hour() as u8,
        minute: now.minute() as u8,
        second: now.second() as u8,
    }
}

} // verus!
