//! Dates of the Hijri calendar.
//!
//! The conversion follows the arithmetic calendar of thirty-year cycles. A
//! Gregorian date is first taken to the number of its day, the first of
//! January of the year 1 being day 1; the Hijri year, month and day are then
//! read off against the numbers of the first days of the Hijri years and
//! months.

use vstd::prelude::*;
use vstd::std_specs::convert::TryFromSpecImpl;
use vstd::string::StringExecFns;
use crate::calendar::{is_date, CivilDate};
use crate::error::OutOfRangeError;
use crate::math::{floor_div, floor_mod};
use crate::text::{decimal, push_decimal};

verus! {

/// The number of the day before the first day of the Hijri year 1.
pub const HIJRI_EPOCH: i64 = 227_015;

/// Hijri day of the week.
#[derive(Debug, Clone, Copy, PartialEq, Eq, Structural)]
pub enum HijriDay {
    Ahad,
    Ithnain,
    Thulatha,
    Arbiaa,
    Khamees,
    Jumaa,
    Sabt,
}

impl HijriDay {
    /// The number of the day in the week, Ahad being day 1.
    pub open spec fn number_spec(self) -> int {
        match self {
            HijriDay::Ahad => 1,
            HijriDay::Ithnain => 2,
            HijriDay::Thulatha => 3,
            HijriDay::Arbiaa => 4,
            HijriDay::Khamees => 5,
            HijriDay::Jumaa => 6,
            HijriDay::Sabt => 7,
        }
    }

    /// The day of the week of a number from 1 to 7, or the range for any
    /// other number.
    pub open spec fn checked(value: u8) -> Result<HijriDay, OutOfRangeError<u8>> {
        match value {
            1 => Ok(HijriDay::Ahad),
            2 => Ok(HijriDay::Ithnain),
            3 => Ok(HijriDay::Thulatha),
            4 => Ok(HijriDay::Arbiaa),
            5 => Ok(HijriDay::Khamees),
            6 => Ok(HijriDay::Jumaa),
            7 => Ok(HijriDay::Sabt),
            _ => Err(OutOfRangeError { low: 1, high: 7 }),
        }
    }

    /// The day of the week of a number from 1 to 7.
    pub open spec fn of_number(number: int) -> HijriDay {
        if number == 1 {
            HijriDay::Ahad
        } else if number == 2 {
            HijriDay::Ithnain
        } else if number == 3 {
            HijriDay::Thulatha
        } else if number == 4 {
            HijriDay::Arbiaa
        } else if number == 5 {
            HijriDay::Khamees
        } else if number == 6 {
            HijriDay::Jumaa
        } else {
            HijriDay::Sabt
        }
    }

    /// The name of the day.
    pub open spec fn name_spec(self) -> Seq<char> {
        match self {
            HijriDay::Ahad => "Ahad"@,
            HijriDay::Ithnain => "Ithnain"@,
            HijriDay::Thulatha => "Thulatha"@,
            HijriDay::Arbiaa => "Arbiaa"@,
            HijriDay::Khamees => "Khamees"@,
            HijriDay::Jumaa => "Jumaa"@,
            HijriDay::Sabt => "Sabt"@,
        }
    }

    /// The number of the day in the week, Ahad being day 1.
    pub fn number(&self) -> (n: u8)
        ensures
            n == self.number_spec(),
            Self::checked(n) == Ok::<HijriDay, OutOfRangeError<u8>>(*self),
    {
        match self {
            HijriDay::Ahad => 1,
            HijriDay::Ithnain => 2,
            HijriDay::Thulatha => 3,
            HijriDay::Arbiaa => 4,
            HijriDay::Khamees => 5,
            HijriDay::Jumaa => 6,
            HijriDay::Sabt => 7,
        }
    }

    /// The name of the day.
    pub fn name(&self) -> (s: &'static str)
        ensures
            s@ == self.name_spec(),
    {
        match self {
            HijriDay::Ahad => "Ahad",
            HijriDay::Ithnain => "Ithnain",
            HijriDay::Thulatha => "Thulatha",
            HijriDay::Arbiaa => "Arbiaa",
            HijriDay::Khamees => "Khamees",
            HijriDay::Jumaa => "Jumaa",
            HijriDay::Sabt => "Sabt",
        }
    }
}

impl TryFrom<u8> for HijriDay {
    type Error = OutOfRangeError<u8>;

    fn try_from(value: u8) -> (r: Result<HijriDay, OutOfRangeError<u8>>) {
        match value {
            1 => Ok(HijriDay::Ahad),
            2 => Ok(HijriDay::Ithnain),
            3 => Ok(HijriDay::Thulatha),
            4 => Ok(HijriDay::Arbiaa),
            5 => Ok(HijriDay::Khamees),
            6 => Ok(HijriDay::Jumaa),
            7 => Ok(HijriDay::Sabt),
            _ => Err(OutOfRangeError { low: 1, high: 7 }),
        }
    }
}

impl TryFromSpecImpl<u8> for HijriDay {
    open spec fn obeys_try_from_spec() -> bool {
        true
    }

    open spec fn try_from_spec(value: u8) -> Result<HijriDay, OutOfRangeError<u8>> {
        HijriDay::checked(value)
    }
}

/// Hijri month of the year.
#[derive(Debug, Clone, Copy, PartialEq, Eq, Structural)]
pub enum HijriMonth {
    Muharram,
    Safar,
    RabiaAwal,
    RabiaThani,
    JumadaAwal,
    JumadaThani,
    Rajab,
    Shaaban,
    Ramadan,
    Shawwal,
    DhulQiddah,
    DhulHijjah,
}

impl HijriMonth {
    /// The number of the month in the year, Muharram being month 1.
    pub open spec fn number_spec(self) -> int {
        match self {
            HijriMonth::Muharram => 1,
            HijriMonth::Safar => 2,
            HijriMonth::RabiaAwal => 3,
            HijriMonth::RabiaThani => 4,
            HijriMonth::JumadaAwal => 5,
            HijriMonth::JumadaThani => 6,
            HijriMonth::Rajab => 7,
            HijriMonth::Shaaban => 8,
            HijriMonth::Ramadan => 9,
            HijriMonth::Shawwal => 10,
            HijriMonth::DhulQiddah => 11,
            HijriMonth::DhulHijjah => 12,
        }
    }

    /// The month of a number from 1 to 12, or the range for any other number.
    pub open spec fn checked(value: u8) -> Result<HijriMonth, OutOfRangeError<u8>> {
        match value {
            1 => Ok(HijriMonth::Muharram),
            2 => Ok(HijriMonth::Safar),
            3 => Ok(HijriMonth::RabiaAwal),
            4 => Ok(HijriMonth::RabiaThani),
            5 => Ok(HijriMonth::JumadaAwal),
            6 => Ok(HijriMonth::JumadaThani),
            7 => Ok(HijriMonth::Rajab),
            8 => Ok(HijriMonth::Shaaban),
            9 => Ok(HijriMonth::Ramadan),
            10 => Ok(HijriMonth::Shawwal),
            11 => Ok(HijriMonth::DhulQiddah),
            12 => Ok(HijriMonth::DhulHijjah),
            _ => Err(OutOfRangeError { low: 1, high: 12 }),
        }
    }

    /// The month of a number from 1 to 12.
    pub open spec fn of_number(number: int) -> HijriMonth {
        if number == 1 {
            HijriMonth::Muharram
        } else if number == 2 {
            HijriMonth::Safar
        } else if number == 3 {
            HijriMonth::RabiaAwal
        } else if number == 4 {
            HijriMonth::RabiaThani
        } else if number == 5 {
            HijriMonth::JumadaAwal
        } else if number == 6 {
            HijriMonth::JumadaThani
        } else if number == 7 {
            HijriMonth::Rajab
        } else if number == 8 {
            HijriMonth::Shaaban
        } else if number == 9 {
            HijriMonth::Ramadan
        } else if number == 10 {
            HijriMonth::Shawwal
        } else if number == 11 {
            HijriMonth::DhulQiddah
        } else {
            HijriMonth::DhulHijjah
        }
    }

    /// The name of the month, its words separated by a space.
    pub open spec fn name_spec(self) -> Seq<char> {
        match self {
            HijriMonth::Muharram => "Muharram"@,
            HijriMonth::Safar => "Safar"@,
            HijriMonth::RabiaAwal => "Rabia Awal"@,
            HijriMonth::RabiaThani => "Rabia Thani"@,
            HijriMonth::JumadaAwal => "Jumada Awal"@,
            HijriMonth::JumadaThani => "Jumada Thani"@,
            HijriMonth::Rajab => "Rajab"@,
            HijriMonth::Shaaban => "Shaaban"@,
            HijriMonth::Ramadan => "Ramadan"@,
            HijriMonth::Shawwal => "Shawwal"@,
            HijriMonth::DhulQiddah => "Dhul Qiddah"@,
            HijriMonth::DhulHijjah => "Dhul Hijjah"@,
        }
    }

    /// The number of the month in the year, Muharram being month 1.
    pub fn number(&self) -> (n: u8)
        ensures
            n == self.number_spec(),
            Self::checked(n) == Ok::<HijriMonth, OutOfRangeError<u8>>(*self),
    {
        match self {
            HijriMonth::Muharram => 1,
            HijriMonth::Safar => 2,
            HijriMonth::RabiaAwal => 3,
            HijriMonth::RabiaThani => 4,
            HijriMonth::JumadaAwal => 5,
            HijriMonth::JumadaThani => 6,
            HijriMonth::Rajab => 7,
            HijriMonth::Shaaban => 8,
            HijriMonth::Ramadan => 9,
            HijriMonth::Shawwal => 10,
            HijriMonth::DhulQiddah => 11,
            HijriMonth::DhulHijjah => 12,
        }
    }

    /// The name of the month, its words separated by a space.
    pub fn name(&self) -> (s: &'static str)
        ensures
            s@ == self.name_spec(),
    {
        match self {
            HijriMonth::Muharram => "Muharram",
            HijriMonth::Safar => "Safar",
            HijriMonth::RabiaAwal => "Rabia Awal",
            HijriMonth::RabiaThani => "Rabia Thani",
            HijriMonth::JumadaAwal => "Jumada Awal",
            HijriMonth::JumadaThani => "Jumada Thani",
            HijriMonth::Rajab => "Rajab",
            HijriMonth::Shaaban => "Shaaban",
            HijriMonth::Ramadan => "Ramadan",
            HijriMonth::Shawwal => "Shawwal",
            HijriMonth::DhulQiddah => "Dhul Qiddah",
            HijriMonth::DhulHijjah => "Dhul Hijjah",
        }
    }
}

impl TryFrom<u8> for HijriMonth {
    type Error = OutOfRangeError<u8>;

    fn try_from(value: u8) -> (r: Result<HijriMonth, OutOfRangeError<u8>>) {
        match value {
            1 => Ok(HijriMonth::Muharram),
            2 => Ok(HijriMonth::Safar),
            3 => Ok(HijriMonth::RabiaAwal),
            4 => Ok(HijriMonth::RabiaThani),
            5 => Ok(HijriMonth::JumadaAwal),
            6 => Ok(HijriMonth::JumadaThani),
            7 => Ok(HijriMonth::Rajab),
            8 => Ok(HijriMonth::Shaaban),
            9 => Ok(HijriMonth::Ramadan),
            10 => Ok(HijriMonth::Shawwal),
            11 => Ok(HijriMonth::DhulQiddah),
            12 => Ok(HijriMonth::DhulHijjah),
            _ => Err(OutOfRangeError { low: 1, high: 12 }),
        }
    }
}

impl TryFromSpecImpl<u8> for HijriMonth {
    open spec fn obeys_try_from_spec() -> bool {
        true
    }

    open spec fn try_from_spec(value: u8) -> Result<HijriMonth, OutOfRangeError<u8>> {
        HijriMonth::checked(value)
    }
}

/// The number of the day that is the given day of the given month of a Hijri
/// year: months of 29 days and a day more in every other month, years of 354
/// days and eleven days more in thirty years.
pub open spec fn hijri_abs_date_spec(day: int, month: int, year: int) -> int {
    day + 29 * (month - 1) + month / 2 + 354 * (year - 1) + (3 + 11 * year) / 30 + HIJRI_EPOCH - 1
}

/// Whether a Hijri year has a day more than 354.
pub open spec fn is_hijri_leap_year_spec(year: int) -> bool {
    ((if 11 * year < 0 {
        -(11 * year)
    } else {
        11 * year
    }) + 14) % 30 < 11
}

/// The number of days of a month of a Hijri year: 30 for the odd months and
/// for the twelfth month of a leap year, 29 otherwise.
pub open spec fn days_in_hijri_month_spec(month: int, year: int) -> int {
    if month % 2 != 1 && (month != 12 || !is_hijri_leap_year_spec(year)) {
        29
    } else {
        30
    }
}

/// Whether `year` is the Hijri year of the day numbered `greg_date`. From the
/// first day of the year 1 on, it is the year whose first day is the last one
/// not after the day. Before it, it is the greatest year up to 0 whose first
/// day lies before the day.
pub open spec fn is_hijri_year_of(greg_date: int, year: int) -> bool {
    if greg_date < HIJRI_EPOCH {
        &&& year <= 0
        &&& hijri_abs_date_spec(1, 1, year) < greg_date
        &&& year < 0 ==> greg_date <= hijri_abs_date_spec(1, 1, year + 1)
    } else {
        hijri_abs_date_spec(1, 1, year) <= greg_date < hijri_abs_date_spec(1, 1, year + 1)
    }
}

/// Whether `month` is the Hijri month of the day numbered `greg_date` in the
/// Hijri year `year`: the first month whose last day is not before the day.
pub open spec fn is_hijri_month_of(greg_date: int, year: int, month: int) -> bool {
    &&& 1 <= month
    &&& greg_date <= hijri_abs_date_spec(days_in_hijri_month_spec(month, year), month, year)
    &&& forall|m: int|
        1 <= m < month ==> greg_date > #[trigger] hijri_abs_date_spec(
            days_in_hijri_month_spec(m, year),
            m,
            year,
        )
}

/// The day of the week of the day numbered `greg_date`, from 1 for Ahad to 7
/// for Sabt.
pub open spec fn weekday_spec(greg_date: int) -> int {
    (if greg_date < 0 {
        (-greg_date) % 7
    } else {
        greg_date % 7
    }) + 1
}

/// The number of the day of a Gregorian date, a date before the year 0 being
/// taken one year later.
pub open spec fn greg_abs_date_spec(date: CivilDate) -> int {
    crate::calendar::day_number(
        if date.year_spec() < 0 {
            date.year_spec() + 1
        } else {
            date.year_spec()
        },
        date.month_spec(),
        date.day_spec(),
    )
}

/// A date in the Hijri calendar.
#[derive(Debug, Clone, Copy, PartialEq, Eq, Structural)]
pub struct HijriDate {
    date: CivilDate,
    day: u8,
    month: u8,
    year: u32,
    pre_epoch: bool,
    weekday: u8,
}

impl HijriDate {
    #[verifier::type_invariant]
    spec fn well_formed(self) -> bool {
        &&& 1 <= self.weekday <= 7
        &&& 1 <= self.day <= 30
        &&& 1 <= self.month <= 13
    }

    /// The Gregorian date.
    pub closed spec fn date_spec(self) -> CivilDate {
        self.date
    }

    /// The day of the month.
    pub closed spec fn day_spec(self) -> int {
        self.day as int
    }

    /// The number of the month in the year.
    pub closed spec fn month_spec(self) -> int {
        self.month as int
    }

    /// The year, counted from 1 in both directions from the epoch.
    pub closed spec fn year_spec(self) -> int {
        self.year as int
    }

    /// Whether the date lies before the epoch.
    pub closed spec fn pre_epoch_spec(self) -> bool {
        self.pre_epoch
    }

    /// The number of the day in the week.
    pub closed spec fn weekday_number(self) -> int {
        self.weekday as int
    }

    /// The year as a number that falls to 0 and below before the epoch.
    pub open spec fn signed_year(self) -> int {
        if self.pre_epoch_spec() {
            1 - self.year_spec()
        } else {
            self.year_spec()
        }
    }

    /// Whether this is the Hijri date of the Gregorian date `date`.
    pub open spec fn is_date_of(self, date: CivilDate) -> bool {
        let greg_date = greg_abs_date_spec(date);
        &&& self.date_spec() == date
        &&& self.pre_epoch_spec() == (self.signed_year() <= 0)
        &&& is_hijri_year_of(greg_date, self.signed_year())
        &&& is_hijri_month_of(greg_date, self.signed_year(), self.month_spec())
        &&& self.day_spec() == greg_date - hijri_abs_date_spec(
            1,
            self.month_spec(),
            self.signed_year(),
        ) + 1
        &&& self.weekday_number() == weekday_spec(greg_date)
        &&& 1 <= self.day_spec() <= 30
        &&& 1 <= self.month_spec() <= 13
        &&& !self.pre_epoch_spec() ==> self.month_spec() <= 12
    }

    /// The Hijri date of a Gregorian date. A date before the year 0 is taken
    /// one year later first, so that day must exist in the year after.
    pub fn from(value: CivilDate) -> (r: HijriDate)
        requires
            value.year_spec() < 0 ==> is_date(
                value.year_spec() + 1,
                value.month_spec(),
                value.day_spec(),
            ),
        ensures
            r.is_date_of(value),
    {
        let adj_date = if value.year() < 0 {
            match CivilDate::from_ymd_opt(value.year() + 1, value.month(), value.day()) {
                Some(date) => date,
                None => value,
            }
        } else {
            value
        };
        proof {
            if value.year_spec() < 0 {
                CivilDate::lemma_parts_of(
                    value.year_spec() + 1,
                    value.month_spec(),
                    value.day_spec(),
                );
            }
        }
        let greg_date = greg_abs_date(adj_date);
        let year = hijri_year(greg_date);
        let month = month_val(greg_date, year);
        proof {
            lemma_month_start(month as int, year as int);
            if greg_date >= HIJRI_EPOCH {
                lemma_twelve_months(year as int);
            }
        }
        let day = (greg_date - hijri_abs_date(1, month, year) + 1) as u8;
        let (year, pre_epoch) = adj_pre_epoch(year);
        let remainder = if greg_date < 0 {
            floor_mod(-greg_date, 7)
        } else {
            floor_mod(greg_date, 7)
        };
        let weekday = (remainder + 1) as u8;
        HijriDate { date: value, year, month, day, pre_epoch, weekday }
    }

    /// The Gregorian date.
    pub fn date(&self) -> (d: CivilDate)
        ensures
            d == self.date_spec(),
    {
        self.date
    }

    /// The Hijri day of the month, from 1 to 30.
    pub fn day(&self) -> (d: u8)
        ensures
            d == self.day_spec(),
            1 <= d <= 30,
    {
        proof {
            use_type_invariant(self);
        }
        self.day
    }

    /// The Hijri day of the week.
    pub fn day_of_week(&self) -> (d: HijriDay)
        ensures
            d == HijriDay::of_number(self.weekday_number()),
            d.number_spec() == self.weekday_number(),
    {
        proof {
            use_type_invariant(self);
        }
        match self.weekday {
            1 => HijriDay::Ahad,
            2 => HijriDay::Ithnain,
            3 => HijriDay::Thulatha,
            4 => HijriDay::Arbiaa,
            5 => HijriDay::Khamees,
            6 => HijriDay::Jumaa,
            _ => HijriDay::Sabt,
        }
    }

    /// The number of the Hijri month, from 1 to 13. It is 13 only for some
    /// dates before the epoch, on which the year before ends a day late.
    pub fn month_number(&self) -> (m: u8)
        ensures
            m == self.month_spec(),
            1 <= m <= 13,
    {
        proof {
            use_type_invariant(self);
        }
        self.month
    }

    /// The Hijri month of the year.
    pub fn month(&self) -> (m: HijriMonth)
        requires
            self.month_spec() <= 12,
        ensures
            m == HijriMonth::of_number(self.month_spec()),
            m.number_spec() == self.month_spec(),
    {
        proof {
            use_type_invariant(self);
        }
        match self.month {
            1 => HijriMonth::Muharram,
            2 => HijriMonth::Safar,
            3 => HijriMonth::RabiaAwal,
            4 => HijriMonth::RabiaThani,
            5 => HijriMonth::JumadaAwal,
            6 => HijriMonth::JumadaThani,
            7 => HijriMonth::Rajab,
            8 => HijriMonth::Shaaban,
            9 => HijriMonth::Ramadan,
            10 => HijriMonth::Shawwal,
            11 => HijriMonth::DhulQiddah,
            _ => HijriMonth::DhulHijjah,
        }
    }

    /// The Hijri year, counted from 1 in both directions from the epoch.
    pub fn year(&self) -> (y: u32)
        ensures
            y == self.year_spec(),
    {
        self.year
    }

    /// Whether the Hijri date lies before the epoch.
    pub fn pre_epoch(&self) -> (b: bool)
        ensures
            b == self.pre_epoch_spec(),
    {
        self.pre_epoch
    }

    /// The text of the date: the day of the week, the month, the day of the
    /// month followed by a comma, the year, and `B.H.` before the epoch or
    /// `A.H.` after it, separated by spaces.
    pub open spec fn text(self) -> Seq<char> {
        HijriDay::of_number(self.weekday_number()).name_spec() + " "@ + HijriMonth::of_number(
            self.month_spec(),
        ).name_spec() + " "@ + decimal(self.day_spec() as nat) + ", "@ + decimal(
            self.year_spec() as nat,
        ) + (if self.pre_epoch_spec() {
            " B.H."@
        } else {
            " A.H."@
        })
    }

    /// The date as text, such as `Sabt Dhul Hijjah 11, 1441 A.H.`.
    pub fn to_string(&self) -> (s: String)
        requires
            self.month_spec() <= 12,
        ensures
            s@ == self.text(),
    {
        let day_of_week = self.day_of_week();
        let month = self.month();
        let mut out = String::from_str(day_of_week.name());
        out.append(" ");
        out.append(month.name());
        out.append(" ");
        push_decimal(&mut out, self.day() as u64);
        out.append(", ");
        push_decimal(&mut out, self.year as u64);
        out.append(if self.pre_epoch {
            " B.H."
        } else {
            " A.H."
        });
        out
    }
}

/// The number of the day of a Gregorian date, the first of January of the
/// year 1 being day 1.
pub fn greg_abs_date(date: CivilDate) -> (r: i64)
    ensures
        r == date.day_number(),
        date.is_valid(),
        -100_000_000 <= r <= 100_000_000,
{
    let y_1 = (date.year() - 1) as i64;
    proof {
        crate::geo::julian_day::lemma_day_number_range(date);
    }
    date.ordinal() as i64 + 365 * y_1 + floor_div(y_1, 4) - floor_div(y_1, 100) + floor_div(
        y_1,
        400,
    )
}

/// The number of the day that is the given day of the given month of a Hijri
/// year.
pub fn hijri_abs_date(day: u8, month: u8, year: i64) -> (r: i64)
    requires
        -1_000_000 <= year <= 1_000_000,
    ensures
        r == hijri_abs_date_spec(day as int, month as int, year as int),
{
    let day = day as i64;
    let month = month as i64;
    day + 29 * (month - 1) + floor_div(month, 2) + 354 * (year - 1) + floor_div(3 + 11 * year, 30)
        + HIJRI_EPOCH - 1
}

/// Whether a Hijri year has a day more than 354.
pub fn is_hijri_leap_year(year: i64) -> (b: bool)
    requires
        -1_000_000 <= year <= 1_000_000,
    ensures
        b == is_hijri_leap_year_spec(year as int),
{
    let eleven = 11 * year;
    let magnitude = if eleven < 0 {
        -eleven
    } else {
        eleven
    };
    floor_mod(magnitude + 14, 30) < 11
}

/// The number of days of a month of a Hijri year.
pub fn days_in_month(month: u8, year: i64) -> (r: u8)
    requires
        -1_000_000 <= year <= 1_000_000,
    ensures
        r == days_in_hijri_month_spec(month as int, year as int),
        29 <= r <= 30,
{
    if month % 2 != 1 && (month != 12 || !is_hijri_leap_year(year)) {
        29
    } else {
        30
    }
}

/// The Hijri year of the day numbered `greg_date`.
pub fn hijri_year(greg_date: i64) -> (year: i64)
    requires
        -100_000_000 <= greg_date <= 100_000_000,
    ensures
        is_hijri_year_of(greg_date as int, year as int),
        -300_000 <= year <= 300_000,
{
    if greg_date < HIJRI_EPOCH {
        let mut year: i64 = 0;
        while greg_date <= hijri_abs_date(1, 1, year)
            invariant
                -100_000_000 <= greg_date < HIJRI_EPOCH,
                -300_000 < year <= 0,
                year < 0 ==> greg_date <= hijri_abs_date_spec(1, 1, year + 1),
            decreases year + 300_000,
        {
            proof {
                lemma_year_start_bounds(year as int);
            }
            year -= 1;
        }
        year
    } else {
        let mut year: i64 = floor_div(greg_date - HIJRI_EPOCH - 1, 355);
        proof {
            lemma_year_start_bounds(year as int);
        }
        while greg_date >= hijri_abs_date(1, 1, year + 1)
            invariant
                HIJRI_EPOCH <= greg_date <= 100_000_000,
                -1 <= year < 300_000,
                hijri_abs_date_spec(1, 1, year as int) <= greg_date,
            decreases 300_000 - year,
        {
            proof {
                lemma_year_start_bounds(year + 1);
            }
            year += 1;
        }
        year
    }
}

/// The Hijri month of the day numbered `greg_date` in the Hijri year `year`.
pub fn month_val(greg_date: i64, year: i64) -> (month: u8)
    requires
        -100_000_000 <= greg_date <= 100_000_000,
        -300_000 <= year <= 300_000,
        is_hijri_year_of(greg_date as int, year as int),
    ensures
        is_hijri_month_of(greg_date as int, year as int, month as int),
        1 <= month <= 13,
{
    let mut month: u8 = 1;
    proof {
        lemma_thirteenth_month(year as int);
    }
    while greg_date > hijri_abs_date(days_in_month(month, year), month, year)
        invariant
            -300_000 <= year <= 300_000,
            1 <= month <= 13,
            greg_date <= hijri_abs_date_spec(30, 13, year as int),
            forall|m: int|
                1 <= m < month ==> greg_date > #[trigger] hijri_abs_date_spec(
                    days_in_hijri_month_spec(m, year as int),
                    m,
                    year as int,
                ),
        decreases 13 - month,
    {
        month += 1;
    }
    month
}

/// The year counted from 1 in both directions, and whether it lies before the
/// epoch: a year of 0 or below is the year 1 less that number, before the
/// epoch.
pub fn adj_pre_epoch(year: i64) -> (r: (u32, bool))
    requires
        -300_000 <= year <= 300_000,
    ensures
        r.1 == (year <= 0),
        r.0 == (if year <= 0 {
            1 - year
        } else {
            year as int
        }),
{
    if year <= 0 {
        ((-(year - 1)) as u32, true)
    } else {
        (year as u32, false)
    }
}

/// The first day of a Hijri year lies 354 or 355 days after that of the year
/// before.
pub proof fn lemma_year_start_bounds(year: int)
    ensures
        354 <= hijri_abs_date_spec(1, 1, year + 1) - hijri_abs_date_spec(1, 1, year) <= 355,
{
}

/// The last day of a thirteenth month of 30 days lies after every day of the
/// year.
pub proof fn lemma_thirteenth_month(year: int)
    ensures
        hijri_abs_date_spec(30, 13, year) >= hijri_abs_date_spec(1, 1, year + 1),
        days_in_hijri_month_spec(13, year) == 30,
{
}

/// The first day of a month follows the last day of the month before, or is
/// that day where the month before is a twelfth month of 30 days.
pub proof fn lemma_month_start(month: int, year: int)
    requires
        1 <= month <= 13,
    ensures
        month > 1 ==> hijri_abs_date_spec(1, month, year) <= hijri_abs_date_spec(
            days_in_hijri_month_spec(month - 1, year),
            month - 1,
            year,
        ) + 1,
        hijri_abs_date_spec(days_in_hijri_month_spec(month, year), month, year)
            <= hijri_abs_date_spec(1, month, year) + 29,
{
}

/// From the year 0 on, the twelve months of a year hold all its days.
pub proof fn lemma_twelve_months(year: int)
    requires
        year >= 0,
    ensures
        hijri_abs_date_spec(days_in_hijri_month_spec(12, year), 12, year) + 1
            == hijri_abs_date_spec(1, 1, year + 1),
{
}

/// The first days of the Hijri years follow one another: a later year starts
/// 354 days or more after an earlier one for each year between them.
pub proof fn lemma_year_starts_ordered(first: int, second: int)
    requires
        first <= second,
    ensures
        hijri_abs_date_spec(1, 1, first) + 354 * (second - first) <= hijri_abs_date_spec(
            1,
            1,
            second,
        ),
    decreases second - first,
{
    if first < second {
        lemma_year_starts_ordered(first, second - 1);
        lemma_year_start_bounds(second - 1);
    }
}

/// A day has one Hijri year.
pub proof fn law_hijri_year_is_determined(greg_date: int, first: int, second: int)
    requires
        is_hijri_year_of(greg_date, first),
        is_hijri_year_of(greg_date, second),
    ensures
        first == second,
{
    if first < second {
        lemma_year_starts_ordered(first + 1, second);
    }
    if second < first {
        lemma_year_starts_ordered(second + 1, first);
    }
}

/// A Gregorian date has one Hijri date.
pub proof fn law_hijri_date_is_determined(date: CivilDate, first: HijriDate, second: HijriDate)
    requires
        first.is_date_of(date),
        second.is_date_of(date),
    ensures
        first == second,
{
    let greg_date = greg_abs_date_spec(date);
    law_hijri_year_is_determined(greg_date, first.signed_year(), second.signed_year());
    let year = first.signed_year();
    let (m1, m2) = (first.month_spec(), second.month_spec());
    if m1 < m2 {
        assert(greg_date > hijri_abs_date_spec(days_in_hijri_month_spec(m1, year), m1, year));
    }
    if m2 < m1 {
        assert(greg_date > hijri_abs_date_spec(days_in_hijri_month_spec(m2, year), m2, year));
    }
}

} // verus!
