//! The Julian day: a continuous count of days, here in milliseconds.

use vstd::prelude::*;
use crate::calendar::{max_day_number, min_day_number, CivilDate, MAX_YEAR, MIN_YEAR};
use crate::geo::coordinates::Gmt;
use crate::math::floor_div;
use crate::units::MS_PER_DAY;

verus! {

/// Largest magnitude of a Julian day value that the library computes with.
pub const JULIAN_BOUND: i64 = 100_000_000_000_000_000;

/// The milliseconds of 1524.5 days.
pub const JULIAN_OFFSET: i64 = 131_716_800_000;

/// Whether a date lies after the fifteenth of October 1582, from when on the
/// Gregorian correction by centuries applies.
pub open spec fn is_gregorian(year: int, month: int, day: int) -> bool {
    year > 1582 || (year == 1582 && (month > 10 || (month == 10 && day > 15)))
}

/// The year that the count works with: January and February count to the
/// year before, and a year before the year 1 is taken one later.
pub open spec fn julian_year(year: int, month: int) -> int {
    (if month <= 2 {
        year - 1
    } else {
        year
    }) + (if year < 1 {
        1int
    } else {
        0
    })
}

/// The month that the count works with: January and February are the months
/// 13 and 14.
pub open spec fn julian_month(month: int) -> int {
    if month <= 2 {
        month + 12
    } else {
        month
    }
}

/// The correction by centuries of the Gregorian calendar for a year of the
/// count; it is zero up to the fifteenth of October 1582.
pub open spec fn century_correction(year: int, month: int, day: int) -> int {
    if is_gregorian(year, month, day) {
        let a = julian_year(year, month) / 100;
        2 - a + a / 4
    } else {
        0
    }
}

/// The whole days of the count for a date: the correction by centuries, the
/// days of 365.25 days a year since the year -4716, the days of 30.6001 days a
/// month, both rounded down, and the day of the month.
pub open spec fn julian_days(year: int, month: int, day: int) -> int {
    century_correction(year, month, day) + (1461 * (julian_year(year, month) + 4716)) / 4 + (306001
        * (julian_month(month) + 1)) / 10000 + day
}

/// The Julian day in milliseconds at local midnight of a date, in a place
/// whose clocks are `gmt` milliseconds ahead of Greenwich: the whole days less
/// the offset from Greenwich and less 1524.5 days.
pub open spec fn julian_value(year: int, month: int, day: int, gmt: int) -> int {
    julian_days(year, month, day) * MS_PER_DAY - gmt - JULIAN_OFFSET
}

/// A date, the offset of its place from Greenwich and the Julian day of its
/// local midnight.
#[derive(Debug, Clone, Copy, PartialEq, Eq, Structural)]
pub struct JulianDay {
    /// The calendar date.
    pub date: CivilDate,
    /// The offset of local clocks from Greenwich.
    pub gmt: Gmt,
    /// The Julian day in milliseconds.
    pub value: i64,
}

impl JulianDay {
    /// Whether the value is small enough to compute with.
    pub open spec fn in_bounds(self) -> bool {
        -JULIAN_BOUND <= self.value <= JULIAN_BOUND
    }

    /// Whether the value is small enough to compute with.
    pub fn is_in_bounds(&self) -> (b: bool)
        ensures
            b == self.in_bounds(),
    {
        -JULIAN_BOUND <= self.value && self.value <= JULIAN_BOUND
    }

    /// The Julian day of local midnight of `date` at the offset `gmt`.
    pub fn new(date: CivilDate, gmt: Gmt) -> (r: JulianDay)
        ensures
            r.date == date,
            r.gmt == gmt,
            r.value == julian_value(date.year_spec(), date.month_spec(), date.day_spec(), gmt@),
            r.in_bounds(),
    {
        let year = date.year() as i64;
        let month = date.month() as i64;
        let day = date.day() as i64;
        let mut new_year = year;
        let mut new_month = month;
        if new_month <= 2 {
            new_year -= 1;
            new_month += 12;
        }
        if year < 1 {
            new_year += 1;
        }
        let mut b: i64 = 0;
        if year > 1582 || year == 1582 && (month > 10 || month == 10 && day > 15) {
            let a = floor_div(new_year, 100);
            b = 2 - a + floor_div(a, 4);
        }
        let c = floor_div(1461 * (new_year + 4716), 4);
        let d = floor_div(306001 * (new_month + 1), 10000);
        let value = (b + c + d + day) * MS_PER_DAY - gmt.value() - JULIAN_OFFSET;
        JulianDay { date, gmt, value }
    }

    /// What [`JulianDay::sub`] returns.
    pub open spec fn earlier(self, days: int, r: JulianDay) -> bool {
        &&& r.date.is_valid()
        &&& r.date.day_number() == self.date.day_number() - days
        &&& r.gmt == self.gmt
        &&& r.value == self.value - days * MS_PER_DAY
    }

    /// What [`JulianDay::add`] returns.
    pub open spec fn later(self, days: int, r: JulianDay) -> bool {
        &&& r.date.is_valid()
        &&& r.date.day_number() == self.date.day_number() + days
        &&& r.gmt == self.gmt
        &&& r.value == self.value + days * MS_PER_DAY
    }

    /// The Julian day `days` days earlier: the date goes back by that many
    /// days and the value by exactly that many days.
    pub fn sub(&self, days: u64) -> (r: JulianDay)
        requires
            self.in_bounds(),
            self.date.day_number() - days >= min_day_number(),
        ensures
            self.earlier(days as int, r),
    {
        match self.checked_sub(days) {
            Some(r) => r,
            None => *self,
        }
    }

    /// The Julian day `days` days later: the date goes on by that many days
    /// and the value by exactly that many days.
    pub fn add(&self, days: u64) -> (r: JulianDay)
        requires
            self.in_bounds(),
            self.date.day_number() + days <= max_day_number(),
        ensures
            self.later(days as int, r),
    {
        match self.checked_add(days) {
            Some(r) => r,
            None => *self,
        }
    }

    /// The Julian day `days` days earlier, or `None` where that day lies
    /// before the first date of the calendar.
    pub fn checked_sub(&self, days: u64) -> (r: Option<JulianDay>)
        requires
            self.in_bounds(),
        ensures
            match r {
                Some(j) => self.earlier(days as int, j),
                None => self.date.day_number() - days < min_day_number(),
            },
    {
        match self.date.checked_sub_days(days) {
            Some(date) => {
                proof {
                    lemma_day_number_range(self.date);
                    lemma_day_number_range(date);
                }
                Some(JulianDay { date, gmt: self.gmt, value: self.value - (days as i64) * MS_PER_DAY })
            },
            None => None,
        }
    }

    /// The Julian day `days` days later, or `None` where that day lies after
    /// the last date of the calendar.
    pub fn checked_add(&self, days: u64) -> (r: Option<JulianDay>)
        requires
            self.in_bounds(),
        ensures
            match r {
                Some(j) => self.later(days as int, j),
                None => self.date.day_number() + days > max_day_number(),
            },
    {
        match self.date.checked_add_days(days) {
            Some(date) => {
                proof {
                    lemma_day_number_range(self.date);
                    lemma_day_number_range(date);
                }
                Some(JulianDay { date, gmt: self.gmt, value: self.value + (days as i64) * MS_PER_DAY })
            },
            None => None,
        }
    }
}

/// The number of the day of a date lies between those of the first and the
/// last date of the calendar, which are less than 200 million days apart.
pub proof fn lemma_day_number_range(date: CivilDate)
    requires
        date.is_valid(),
    ensures
        min_day_number() <= date.day_number() <= max_day_number(),
        -100_000_000 <= min_day_number(),
        max_day_number() <= 100_000_000,
{
    crate::calendar::lemma_calendar_ends();
    crate::calendar::lemma_day_number_in_year(
        date.year_spec(),
        date.month_spec(),
        date.day_spec(),
    );
    crate::calendar::lemma_day_number_in_year(MIN_YEAR as int, 1, 1);
    crate::calendar::lemma_day_number_in_year(MAX_YEAR as int, 12, 31);
    crate::calendar::lemma_days_before_month(date.year_spec());
    crate::calendar::lemma_days_before_year_monotone(MIN_YEAR as int, date.year_spec());
    crate::calendar::lemma_days_before_year_monotone(date.year_spec() + 1, MAX_YEAR + 1);
    crate::calendar::lemma_days_before_next_year(MAX_YEAR as int);
}

/// Going on by some days and back by as many gives the Julian day again:
/// the same value, and the same date.
pub proof fn law_shift_round_trip(start: JulianDay, there: JulianDay, back: JulianDay, days: int)
    requires
        start.date.is_valid(),
        start.later(days, there),
        there.earlier(days, back),
    ensures
        back.value == start.value,
        back == start,
{
    crate::calendar::lemma_day_number_injective(back.date, start.date);
}

/// Going back by some days and on by as many gives the Julian day again.
pub proof fn law_shift_back_round_trip(
    start: JulianDay,
    there: JulianDay,
    back: JulianDay,
    days: int,
)
    requires
        start.date.is_valid(),
        start.earlier(days, there),
        there.later(days, back),
    ensures
        back.value == start.value,
        back == start,
{
    crate::calendar::lemma_day_number_injective(back.date, start.date);
}

/// There is one Julian day a given number of days earlier, and one as many
/// days later.
pub proof fn lemma_shift_unique(start: JulianDay, days: int, a: JulianDay, b: JulianDay)
    requires
        (start.earlier(days, a) && start.earlier(days, b)) || (start.later(days, a)
            && start.later(days, b)),
    ensures
        a == b,
{
    crate::calendar::lemma_day_number_injective(a.date, b.date);
}

} // verus!
