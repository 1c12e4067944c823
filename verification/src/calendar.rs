//! Dates of the proleptic Gregorian calendar.
//!
//! A [`CivilDate`] holds year, month and day as plain numbers. Counting days
//! between dates and moving a date by days is done by `chrono`; what it
//! returns is stated here over [`day_number`], the count of days since the
//! last day of the year 0.

use vstd::prelude::*;
use vstd::string::StringExecFns;
use chrono::{Datelike, Days, NaiveDate};
use crate::text::{decimal, push_decimal, push_two_digits, two_digits};

verus! {

/// The first year that a date can lie in.
pub const MIN_YEAR: i32 = -262_143;

/// The last year that a date can lie in.
pub const MAX_YEAR: i32 = 262_142;

/// Whether a year has 366 days.
pub open spec fn is_leap_year(year: int) -> bool {
    year % 4 == 0 && (year % 100 != 0 || year % 400 == 0)
}

/// The number of days of a month of a year; zero where there is no such month.
pub open spec fn days_in_month(year: int, month: int) -> int {
    if month == 2 {
        if is_leap_year(year) {
            29
        } else {
            28
        }
    } else if month == 4 || month == 6 || month == 9 || month == 11 {
        30
    } else if 1 <= month <= 12 {
        31
    } else {
        0
    }
}

/// The number of days of a year that lie before its month `month`.
pub open spec fn days_before_month(year: int, month: int) -> int
    decreases month,
{
    if month <= 1 {
        0
    } else {
        days_before_month(year, month - 1) + days_in_month(year, month - 1)
    }
}

/// The number of days from the first day of the year 1 to the last day before
/// `year`; it is negative for years before the year 1.
pub open spec fn days_before_year(year: int) -> int {
    365 * (year - 1) + (year - 1) / 4 - (year - 1) / 100 + (year - 1) / 400
}

/// Whether year, month and day name a date.
pub open spec fn is_date(year: int, month: int, day: int) -> bool {
    &&& MIN_YEAR <= year <= MAX_YEAR
    &&& 1 <= month <= 12
    &&& 1 <= day <= days_in_month(year, month)
}

/// The day of the year of a date, starting from 1.
pub open spec fn ordinal_of(year: int, month: int, day: int) -> int {
    days_before_month(year, month) + day
}

/// The number of a day, the first of January of the year 1 being day 1.
pub open spec fn day_number(year: int, month: int, day: int) -> int {
    days_before_year(year) + ordinal_of(year, month, day)
}

/// The number of the first day that is a date.
pub open spec fn min_day_number() -> int {
    day_number(MIN_YEAR as int, 1, 1)
}

/// The number of the last day that is a date.
pub open spec fn max_day_number() -> int {
    day_number(MAX_YEAR as int, 12, 31)
}

/// A date of the proleptic Gregorian calendar.
#[derive(Debug, Clone, Copy, PartialEq, Eq, PartialOrd, Ord, Hash, Structural)]
pub struct CivilDate {
    year: i32,
    month: u32,
    day: u32,
}

impl CivilDate {
    #[verifier::type_invariant]
    spec fn valid(self) -> bool {
        is_date(self.year as int, self.month as int, self.day as int)
    }

    /// The date of the given year, month and day.
    pub closed spec fn of(year: int, month: int, day: int) -> CivilDate {
        CivilDate { year: year as i32, month: month as u32, day: day as u32 }
    }

    /// The year of the date.
    pub closed spec fn year_spec(self) -> int {
        self.year as int
    }

    /// The month of the date, from 1 to 12.
    pub closed spec fn month_spec(self) -> int {
        self.month as int
    }

    /// The day of the month of the date, from 1.
    pub closed spec fn day_spec(self) -> int {
        self.day as int
    }

    /// Whether the parts of the value name a date. Every date that a program
    /// holds does; a value that is only spoken of may not.
    pub open spec fn is_valid(self) -> bool {
        is_date(self.year_spec(), self.month_spec(), self.day_spec())
    }

    /// The day of the year of the date, starting from 1.
    pub open spec fn ordinal_spec(self) -> int {
        ordinal_of(self.year_spec(), self.month_spec(), self.day_spec())
    }

    /// The number of the date's day, the first of January of the year 1
    /// being day 1.
    pub open spec fn day_number(self) -> int {
        day_number(self.year_spec(), self.month_spec(), self.day_spec())
    }

    /// The parts of the date made of a year, a month and a day that name a
    /// date are that year, month and day.
    pub broadcast proof fn lemma_parts_of(year: int, month: int, day: int)
        requires
            is_date(year, month, day),
        ensures
            (#[trigger] Self::of(year, month, day)).year_spec() == year,
            Self::of(year, month, day).month_spec() == month,
            Self::of(year, month, day).day_spec() == day,
    {
    }

    /// Two dates of the same year, month and day are the same date.
    pub proof fn lemma_same_parts(self, other: CivilDate)
        requires
            self.year_spec() == other.year_spec(),
            self.month_spec() == other.month_spec(),
            self.day_spec() == other.day_spec(),
        ensures
            self == other,
    {
    }

    /// The date of the given year, month and day, or `None` where they name
    /// no date: the day does not exist in the month, the month is not one of
    /// the twelve, or the year lies outside the calendar's range.
    pub fn from_ymd_opt(year: i32, month: u32, day: u32) -> (r: Option<CivilDate>)
        ensures
            r == (if is_date(year as int, month as int, day as int) {
                Some(Self::of(year as int, month as int, day as int))
            } else {
                None
            }),
            r is Some <==> is_date(year as int, month as int, day as int),
            r matches Some(date) ==> date.year_spec() == year && date.month_spec() == month
                && date.day_spec() == day,
    {
        if date_exists(year, month, day) {
            Some(CivilDate { year, month, day })
        } else {
            None
        }
    }

    /// The year of the date.
    pub fn year(&self) -> (y: i32)
        ensures
            y == self.year_spec(),
            self.is_valid(),
    {
        proof {
            use_type_invariant(self);
        }
        self.year
    }

    /// The month of the date, from 1 to 12.
    pub fn month(&self) -> (m: u32)
        ensures
            m == self.month_spec(),
            1 <= m <= 12,
            self.is_valid(),
    {
        proof {
            use_type_invariant(self);
        }
        self.month
    }

    /// The day of the month of the date, from 1 to 31.
    pub fn day(&self) -> (d: u32)
        ensures
            d == self.day_spec(),
            1 <= d <= 31,
            self.is_valid(),
    {
        proof {
            use_type_invariant(self);
        }
        self.day
    }

    /// The day of the year of the date, from 1 to 366.
    pub fn ordinal(&self) -> (o: u32)
        ensures
            o == self.ordinal_spec(),
            1 <= o <= 366,
            self.is_valid(),
    {
        proof {
            use_type_invariant(self);
            lemma_ordinal_range(self.year as int, self.month as int, self.day as int);
        }
        day_of_year(self)
    }

    /// The text of a year: four digits for the years 0 to 9999, and a sign
    /// followed by four digits or more for every other year.
    pub open spec fn year_text(year: int) -> Seq<char> {
        if 0 <= year <= 9999 {
            two_digits((year / 100) as nat) + two_digits((year % 100) as nat)
        } else {
            (if year < 0 {
                "-"@
            } else {
                "+"@
            }) + (if -9999 <= year <= 9999 {
                two_digits(((-year) / 100) as nat) + two_digits(((-year) % 100) as nat)
            } else if year < 0 {
                decimal((-year) as nat)
            } else {
                decimal(year as nat)
            })
        }
    }

    /// The text of the date: year, month in two digits and day in two
    /// digits, separated by hyphens.
    pub open spec fn text(self) -> Seq<char> {
        Self::year_text(self.year_spec()) + "-"@ + two_digits(self.month_spec() as nat) + "-"@
            + two_digits(self.day_spec() as nat)
    }

    /// The date as text, such as `2023-01-31`.
    pub fn to_string(&self) -> (s: String)
        ensures
            s@ == self.text(),
    {
        proof {
            use_type_invariant(self);
        }
        let year = self.year as i64;
        let mut out = String::new();
        if 0 <= year && year <= 9999 {
            push_two_digits(&mut out, (year / 100) as u64);
            push_two_digits(&mut out, (year % 100) as u64);
        } else {
            out.append(if year < 0 {
                "-"
            } else {
                "+"
            });
            let magnitude: u64 = if year < 0 {
                (-year) as u64
            } else {
                year as u64
            };
            if magnitude <= 9999 {
                push_two_digits(&mut out, magnitude / 100);
                push_two_digits(&mut out, magnitude % 100);
            } else {
                push_decimal(&mut out, magnitude);
            }
        }
        out.append("-");
        push_two_digits(&mut out, self.month as u64);
        out.append("-");
        push_two_digits(&mut out, self.day as u64);
        assert(out@ =~= self.text());
        out
    }

    /// The date `days` days after this one, or `None` where that day lies
    /// after the last date of the calendar.
    pub fn checked_add_days(&self, days: u64) -> (r: Option<CivilDate>)
        ensures
            self.is_valid(),
            match r {
                Some(date) => date.is_valid() && date.day_number() == self.day_number() + days,
                None => self.day_number() + days > max_day_number(),
            },
    {
        proof {
            use_type_invariant(self);
        }
        match date_plus_days(self, days) {
            Some(date) => Some(date),
            None => None,
        }
    }

    /// The date `days` days before this one, or `None` where that day lies
    /// before the first date of the calendar.
    pub fn checked_sub_days(&self, days: u64) -> (r: Option<CivilDate>)
        ensures
            self.is_valid(),
            match r {
                Some(date) => date.is_valid() && date.day_number() == self.day_number() - days,
                None => self.day_number() - days < min_day_number(),
            },
    {
        proof {
            use_type_invariant(self);
        }
        match date_minus_days(self, days) {
            Some(date) => Some(date),
            None => None,
        }
    }

    /// The number of days from `earlier` to this date; negative where this
    /// date is the earlier one.
    pub fn days_since(&self, earlier: &CivilDate) -> (n: i64)
        ensures
            n == self.day_number() - earlier.day_number(),
            self.is_valid(),
            earlier.is_valid(),
    {
        proof {
            use_type_invariant(self);
            use_type_invariant(earlier);
        }
        days_between(self, earlier)
    }
}

/// `NaiveDate::from_ymd_opt` of chrono, asked whether it returns a date. It
/// does where the year lies in the calendar's range, the month is one of the
/// twelve and the day exists in that month of that year.
#[verifier::external_body]
fn date_exists(year: i32, month: u32, day: u32) -> (b: bool)
    ensures
        b == is_date(year as int, month as int, day as int),
{
    NaiveDate::from_ymd_opt(year, month, day).is_some()
}

/// `NaiveDate::ordinal` of chrono: the day of the year of a date, the first
/// of January being day 1.
#[verifier::external_body]
fn day_of_year(date: &CivilDate) -> (o: u32)
    requires
        date.is_valid(),
    ensures
        o == date.ordinal_spec(),
{
    NaiveDate::from_ymd_opt(date.year, date.month, date.day).unwrap().ordinal()
}

/// `NaiveDate::checked_add_days` of chrono: the date that many days later,
/// or `None` where it would lie after the calendar's last date.
#[verifier::external_body]
fn date_plus_days(date: &CivilDate, days: u64) -> (r: Option<CivilDate>)
    requires
        date.is_valid(),
    ensures
        match r {
            Some(later) => later.is_valid() && later.day_number() == date.day_number() + days,
            None => date.day_number() + days > max_day_number(),
        },
{
    let from = NaiveDate::from_ymd_opt(date.year, date.month, date.day).unwrap();
    match from.checked_add_days(Days::new(days)) {
        Some(to) => Some(CivilDate { year: to.year(), month: to.month(), day: to.day() }),
        None => None,
    }
}

/// `NaiveDate::checked_sub_days` of chrono: the date that many days earlier,
/// or `None` where it would lie before the calendar's first date.
#[verifier::external_body]
fn date_minus_days(date: &CivilDate, days: u64) -> (r: Option<CivilDate>)
    requires
        date.is_valid(),
    ensures
        match r {
            Some(earlier) => earlier.is_valid() && earlier.day_number() == date.day_number()
                - days,
            None => date.day_number() - days < min_day_number(),
        },
{
    let from = NaiveDate::from_ymd_opt(date.year, date.month, date.day).unwrap();
    match from.checked_sub_days(Days::new(days)) {
        Some(to) => Some(CivilDate { year: to.year(), month: to.month(), day: to.day() }),
        None => None,
    }
}

/// `NaiveDate::signed_duration_since` of chrono, in whole days: the number of
/// days from `earlier` to `later`, negative where `later` is the earlier one.
#[verifier::external_body]
fn days_between(later: &CivilDate, earlier: &CivilDate) -> (n: i64)
    requires
        later.is_valid(),
        earlier.is_valid(),
    ensures
        n == later.day_number() - earlier.day_number(),
{
    let to = NaiveDate::from_ymd_opt(later.year, later.month, later.day).unwrap();
    let from = NaiveDate::from_ymd_opt(earlier.year, earlier.month, earlier.day).unwrap();
    to.signed_duration_since(from).num_days()
}

/// The days of a year before a month, month by month.
pub proof fn lemma_days_before_month(year: int)
    ensures
        days_before_month(year, 1) == 0,
        days_before_month(year, 2) == 31,
        days_before_month(year, 3) == 59 + (if is_leap_year(year) { 1int } else { 0 }),
        days_before_month(year, 4) == 90 + (if is_leap_year(year) { 1int } else { 0 }),
        days_before_month(year, 5) == 120 + (if is_leap_year(year) { 1int } else { 0 }),
        days_before_month(year, 6) == 151 + (if is_leap_year(year) { 1int } else { 0 }),
        days_before_month(year, 7) == 181 + (if is_leap_year(year) { 1int } else { 0 }),
        days_before_month(year, 8) == 212 + (if is_leap_year(year) { 1int } else { 0 }),
        days_before_month(year, 9) == 243 + (if is_leap_year(year) { 1int } else { 0 }),
        days_before_month(year, 10) == 273 + (if is_leap_year(year) { 1int } else { 0 }),
        days_before_month(year, 11) == 304 + (if is_leap_year(year) { 1int } else { 0 }),
        days_before_month(year, 12) == 334 + (if is_leap_year(year) { 1int } else { 0 }),
        days_before_month(year, 13) == 365 + (if is_leap_year(year) { 1int } else { 0 }),
{
    reveal_with_fuel(days_before_month, 14);
}

/// The numbers of the first and of the last day that is a date.
pub proof fn lemma_calendar_ends()
    ensures
        min_day_number() == -95_746_129,
        max_day_number() == 95_745_399,
{
    lemma_days_before_month(MIN_YEAR as int);
    lemma_days_before_month(MAX_YEAR as int);
}

/// The day of the year of a date lies between 1 and the length of the year.
pub proof fn lemma_ordinal_range(year: int, month: int, day: int)
    requires
        is_date(year, month, day),
    ensures
        1 <= ordinal_of(year, month, day) <= 365 + (if is_leap_year(year) { 1int } else { 0 }),
{
    lemma_days_before_month(year);
}

/// The length of a year in days.
pub open spec fn year_length(year: int) -> int {
    if is_leap_year(year) {
        366
    } else {
        365
    }
}

/// The days before a year and the year's own days are the days before the
/// next year.
pub proof fn lemma_days_before_next_year(year: int)
    ensures
        days_before_year(year + 1) == days_before_year(year) + year_length(year),
{
}

/// The days before a year do not decrease from year to year.
pub proof fn lemma_days_before_year_monotone(first: int, second: int)
    requires
        first <= second,
    ensures
        days_before_year(first) <= days_before_year(second),
    decreases second - first,
{
    if first < second {
        lemma_days_before_year_monotone(first, second - 1);
        lemma_days_before_next_year(second - 1);
    }
}

/// The number of a date's day lies after the days before its year and within
/// the year's own days.
pub proof fn lemma_day_number_in_year(year: int, month: int, day: int)
    requires
        is_date(year, month, day),
    ensures
        days_before_year(year) < day_number(year, month, day) <= days_before_year(year + 1),
{
    lemma_ordinal_range(year, month, day);
    lemma_days_before_next_year(year);
}

/// Two dates whose days have the same number are the same date.
pub proof fn lemma_day_number_injective(a: CivilDate, b: CivilDate)
    requires
        a.is_valid(),
        b.is_valid(),
        a.day_number() == b.day_number(),
    ensures
        a == b,
{
    let (ya, ma, da) = (a.year_spec(), a.month_spec(), a.day_spec());
    let (yb, mb, db) = (b.year_spec(), b.month_spec(), b.day_spec());
    lemma_day_number_in_year(ya, ma, da);
    lemma_day_number_in_year(yb, mb, db);
    if ya < yb {
        lemma_days_before_year_monotone(ya + 1, yb);
    }
    if yb < ya {
        lemma_days_before_year_monotone(yb + 1, ya);
    }
    assert(ya == yb);
    lemma_days_before_month(ya);
    assert(ma == mb);
    a.lemma_same_parts(b);
}

/// A later date has a greater day number: the days are numbered in the order
/// of year, month and day.
pub proof fn law_day_numbers_follow_the_calendar(a: CivilDate, b: CivilDate)
    requires
        a.is_valid(),
        b.is_valid(),
    ensures
        a.day_number() < b.day_number() <==> (a.year_spec() < b.year_spec() || (a.year_spec()
            == b.year_spec() && (a.month_spec() < b.month_spec() || (a.month_spec()
            == b.month_spec() && a.day_spec() < b.day_spec())))),
{
    let (ya, ma, da) = (a.year_spec(), a.month_spec(), a.day_spec());
    let (yb, mb, db) = (b.year_spec(), b.month_spec(), b.day_spec());
    lemma_day_number_in_year(ya, ma, da);
    lemma_day_number_in_year(yb, mb, db);
    if ya < yb {
        lemma_days_before_year_monotone(ya + 1, yb);
    }
    if yb < ya {
        lemma_days_before_year_monotone(yb + 1, ya);
    }
    lemma_days_before_month(ya);
    lemma_days_before_month(yb);
}

} // verus!
