//! The modification time that an `MDTM` reply gives.

use vstd::prelude::*;

verus! {

/// A date and a time of day, in the fields of an `MDTM` reply.
#[derive(Debug, Clone, Copy, PartialEq, Eq, Structural)]
pub struct DateTime {
    pub year: u32,
    pub month: u32,
    pub day: u32,
    pub hour: u32,
    pub minute: u32,
    pub second: u32,
}

/// The seconds of a day.
pub open spec fn day_seconds() -> int {
    86400
}

/// Whether `year` is a leap year of the Gregorian calendar.
pub open spec fn is_leap_year(year: int) -> bool {
    year % 4 == 0 && (year % 100 != 0 || year % 400 == 0)
}

/// The leap years among the years 1 to `year`.
pub open spec fn leap_years_through(year: int) -> int {
    year / 4 - year / 100 + year / 400
}

/// The days of a common year that lie before the first of `month`. A
/// thirteenth month stands for the January that follows.
pub open spec fn days_before_month(month: int) -> int {
    if month <= 1 {
        0
    } else if month == 2 {
        31
    } else if month == 3 {
        59
    } else if month == 4 {
        90
    } else if month == 5 {
        120
    } else if month == 6 {
        151
    } else if month == 7 {
        181
    } else if month == 8 {
        212
    } else if month == 9 {
        243
    } else if month == 10 {
        273
    } else if month == 11 {
        304
    } else if month == 12 {
        334
    } else {
        365
    }
}

impl DateTime {
    /// Whether the date counts one day more than `days_before_month` and the
    /// day of the month give: from March on in a leap year, and for any
    /// day of February from the 29th on.
    pub open spec fn has_extra_day(self) -> bool {
        (is_leap_year(self.year as int) && self.month > 2) || (self.month == 2 && self.day >= 29)
    }

    /// The seconds from the start of 1970 to this date and time.
    pub open spec fn seconds(self) -> int {
        (self.year - 1970) * 365 * day_seconds() + (leap_years_through(self.year - 1)
            - leap_years_through(1970)) * day_seconds() + self.second + self.hour * 3600
            + self.minute * 60 + (self.day - 1) * day_seconds() + (days_before_month(
            self.month as int,
        ) + if self.has_extra_day() {
            1int
        } else {
            0int
        }) * day_seconds()
    }

    /// The dates that have a timestamp: from 1970 on, in a month up to 13 and
    /// on a day from 1 on, as far as the seconds fit in 32 bits.
    pub open spec fn has_timestamp(self) -> bool {
        &&& self.year >= 1970
        &&& self.month <= 13
        &&& self.day >= 1
        &&& self.seconds() <= u32::MAX
    }

    /// The days of a common year that lie before the first of `month`.
    fn month_offset(month: u32) -> (days: u64)
        ensures
            days == days_before_month(month as int),
    {
        if month <= 1 {
            0
        } else if month == 2 {
            31
        } else if month == 3 {
            59
        } else if month == 4 {
            90
        } else if month == 5 {
            120
        } else if month == 6 {
            151
        } else if month == 7 {
            181
        } else if month == 8 {
            212
        } else if month == 9 {
            243
        } else if month == 10 {
            273
        } else if month == 11 {
            304
        } else if month == 12 {
            334
        } else {
            365
        }
    }

    /// The seconds from the start of 1970, in 64 bits.
    fn wide_seconds(&self) -> (s: u64)
        requires
            self.year >= 1970,
            self.day >= 1,
        ensures
            s == self.seconds(),
    {
        let year: u64 = self.year as u64;
        let before: u64 = year - 1;
        let leaps: u64 = (before / 4 - before / 100 + before / 400) - (1970 / 4 - 1970 / 100 + 1970
            / 400);
        let leap: bool = year % 4 == 0 && (year % 100 != 0 || year % 400 == 0);
        let extra: u64 = if (leap && self.month > 2) || (self.month == 2 && self.day >= 29) {
            1
        } else {
            0
        };
        let in_year: u64 = (DateTime::month_offset(self.month) + extra) * 86400;
        (year - 1970) * 365 * 86400 + leaps * 86400 + self.second as u64 + self.hour as u64 * 3600
            + self.minute as u64 * 60 + (self.day as u64 - 1) * 86400 + in_year
    }

    /// The seconds from the start of 1970 to this date and time.
    pub fn timestamp(&self) -> (t: u32)
        requires
            self.has_timestamp(),
        ensures
            t == self.seconds(),
    {
        self.wide_seconds() as u32
    }

    /// The timestamp, where the date has one.
    pub fn checked_timestamp(&self) -> (t: Option<u32>)
        ensures
            t is Some <==> self.has_timestamp(),
            t is Some ==> t->0 == self.seconds(),
    {
        if self.year < 1970 || self.month > 13 || self.day < 1 {
            return None;
        }
        let s = self.wide_seconds();
        if s <= u32::MAX as u64 {
            Some(s as u32)
        } else {
            None
        }
    }
}

} // verus!
