//! Prayers, their computed times and the single-date pipeline.

pub mod date;
pub mod ext_lat;
pub mod hours;
pub mod params;

pub use date::DateRange;
pub use params::{
    AsrShadowRatio, ExtremeLatitudeMethod, Method, Params, PrayerValues, RoundSeconds,
};

use vstd::prelude::*;
use vstd::string::StringExecFns;
use crate::calendar::CivilDate;
use crate::geo::coordinates::{Coordinates, Location};
use crate::geo::julian_day::{lemma_day_number_range, JulianDay};
use crate::geo::weather::Weather;
use crate::prayer_times::ext_lat::{
    adj_for_ext_lat, adjusted_with, is_deterministic, is_solver, law_adjustment_is_determined,
    prayer_hour_within, Hours, PrayerHour, PrayerHours, ADJUSTED_BOUND,
};
use crate::prayer_times::hours::{hour_to_time, hour_to_time_spec, ClockTime};
use crate::units::{ANGLE_BOUND, TIME_BOUND};

verus! {

/// An Islamic prayer or related time of the day, in its order through the day.
#[derive(Debug, Clone, Copy, Hash, PartialEq, Eq, PartialOrd, Ord, Structural)]
pub enum Prayer {
    /// Some minutes before Fajr
    Imsaak,
    /// Dawn
    Fajr,
    /// Sunrise
    Shurooq,
    /// Noon
    Dhuhr,
    /// Afternoon
    Asr,
    /// Sunset
    Maghrib,
    /// Night
    Isha,
}

impl Prayer {
    /// Position of the prayer in the order of the day, Imsaak being first.
    pub open spec fn rank_spec(self) -> int {
        match self {
            Prayer::Imsaak => 0,
            Prayer::Fajr => 1,
            Prayer::Shurooq => 2,
            Prayer::Dhuhr => 3,
            Prayer::Asr => 4,
            Prayer::Maghrib => 5,
            Prayer::Isha => 6,
        }
    }

    /// Position of the prayer in the order of the day, from 0 for Imsaak to 6
    /// for Isha. The prayers compare in the order of their positions.
    pub fn rank(&self) -> (r: u8)
        ensures
            r == self.rank_spec(),
            r <= 6,
    {
        match self {
            Prayer::Imsaak => 0,
            Prayer::Fajr => 1,
            Prayer::Shurooq => 2,
            Prayer::Dhuhr => 3,
            Prayer::Asr => 4,
            Prayer::Maghrib => 5,
            Prayer::Isha => 6,
        }
    }

    /// The prayer's name.
    pub fn name(&self) -> (s: &'static str)
        ensures
            s@ == self.name_spec(),
    {
        match self {
            Prayer::Imsaak => "Imsaak",
            Prayer::Fajr => "Fajr",
            Prayer::Shurooq => "Shurooq",
            Prayer::Dhuhr => "Dhuhr",
            Prayer::Asr => "Asr",
            Prayer::Maghrib => "Maghrib",
            Prayer::Isha => "Isha",
        }
    }

    /// The prayer's name as a sequence of characters.
    pub open spec fn name_spec(self) -> Seq<char> {
        match self {
            Prayer::Imsaak => "Imsaak"@,
            Prayer::Fajr => "Fajr"@,
            Prayer::Shurooq => "Shurooq"@,
            Prayer::Dhuhr => "Dhuhr"@,
            Prayer::Asr => "Asr"@,
            Prayer::Maghrib => "Maghrib"@,
            Prayer::Isha => "Isha"@,
        }
    }
}

/// A calculated prayer time and whether an extreme-latitude method produced it.
#[derive(Debug, Clone, Copy, PartialEq, Eq, Structural)]
pub struct PrayerTime {
    /// The daily prayer time.
    pub time: ClockTime,
    /// An extreme latitude method was used to calculate the prayer time.
    pub extreme: bool,
}

impl PrayerTime {
    /// The text of the prayer time: the time on a twelve-hour clock, followed
    /// by ` (extreme)` where the time is extreme.
    pub open spec fn text(self) -> Seq<char> {
        self.time.text() + (if self.extreme {
            " (extreme)"@
        } else {
            ""@
        })
    }

    /// The prayer time as text, such as ` 5:56 AM` or `11:48 PM (extreme)`.
    pub fn to_string(&self) -> (s: String)
        ensures
            s@ == self.text(),
    {
        let mut out = self.time.to_string();
        out.append(if self.extreme {
            " (extreme)"
        } else {
            ""
        });
        out
    }
}

/// The times of the seven prayers of a day, each missing where it could not
/// be calculated.
#[derive(Debug, Clone, Copy, PartialEq, Eq)]
pub struct PrayerTimes {
    pub imsaak: Result<PrayerTime, ()>,
    pub fajr: Result<PrayerTime, ()>,
    pub shurooq: Result<PrayerTime, ()>,
    pub dhuhr: Result<PrayerTime, ()>,
    pub asr: Result<PrayerTime, ()>,
    pub maghrib: Result<PrayerTime, ()>,
    pub isha: Result<PrayerTime, ()>,
}

impl PrayerTimes {
    /// The time of `prayer`.
    pub open spec fn at(self, prayer: Prayer) -> Result<PrayerTime, ()> {
        match prayer {
            Prayer::Imsaak => self.imsaak,
            Prayer::Fajr => self.fajr,
            Prayer::Shurooq => self.shurooq,
            Prayer::Dhuhr => self.dhuhr,
            Prayer::Asr => self.asr,
            Prayer::Maghrib => self.maghrib,
            Prayer::Isha => self.isha,
        }
    }

    /// The time of `prayer`.
    pub fn get(&self, prayer: Prayer) -> (r: Result<PrayerTime, ()>)
        ensures
            r == self.at(prayer),
    {
        match prayer {
            Prayer::Imsaak => self.imsaak,
            Prayer::Fajr => self.fajr,
            Prayer::Shurooq => self.shurooq,
            Prayer::Dhuhr => self.dhuhr,
            Prayer::Asr => self.asr,
            Prayer::Maghrib => self.maghrib,
            Prayer::Isha => self.isha,
        }
    }

    /// The number of prayers held: seven.
    pub fn len(&self) -> (n: usize)
        ensures
            n == 7,
    {
        7
    }
}

/// The prayer time of a prayer hour: its time on the clock under the
/// parameters, and its extreme flag.
pub open spec fn to_prayer_time_spec(params: Params, prayer: Prayer, hour: PrayerHour) -> PrayerTime {
    PrayerTime { time: hour_to_time_spec(params, prayer, hour.value as int), extreme: hour.extreme }
}

/// The prayer time of a prayer hour that may be missing.
pub open spec fn time_of(params: Params, prayer: Prayer, hour: Result<PrayerHour, ()>) -> Result<
    PrayerTime,
    (),
> {
    match hour {
        Ok(h) => Ok(to_prayer_time_spec(params, prayer, h)),
        Err(_) => Err(()),
    }
}

/// The prayer time of a prayer hour.
pub fn to_prayer_time(params: &Params, prayer: Prayer, prayer_hour: PrayerHour) -> (r: PrayerTime)
    requires
        params.in_bounds(),
        -ADJUSTED_BOUND <= prayer_hour.value <= ADJUSTED_BOUND,
    ensures
        r == to_prayer_time_spec(*params, prayer, prayer_hour),
{
    PrayerTime {
        time: hour_to_time(params, prayer, prayer_hour.value),
        extreme: prayer_hour.extreme,
    }
}

fn time_of_hour(params: &Params, prayer: Prayer, hour: Result<PrayerHour, ()>) -> (r: Result<
    PrayerTime,
    (),
>)
    requires
        params.in_bounds(),
        prayer_hour_within(hour, ADJUSTED_BOUND as int),
    ensures
        r == time_of(*params, prayer, hour),
{
    match hour {
        Ok(h) => Ok(to_prayer_time(params, prayer, h)),
        Err(_) => Err(()),
    }
}

/// Whether `r` are adjusted hours of a day: the adjustment of hours that
/// `solve` returned for the day.
pub open spec fn solved_and_adjusted<S: Fn(Params, JulianDay, Coordinates, Weather) -> Hours>(
    params: Params,
    julian_day: JulianDay,
    coords: Coordinates,
    weather: Weather,
    solve: &S,
    r: PrayerHours,
) -> bool {
    exists|hours: Hours| #[trigger]
        call_ensures(*solve, (params, julian_day, coords, weather), hours) && adjusted_with(
            params,
            hours,
            julian_day,
            coords,
            weather,
            solve,
            r,
        )
}

/// Solves the hours of a day with `solve` and adjusts them by the configured
/// method.
pub fn get_hours_adj_ext<S: Fn(Params, JulianDay, Coordinates, Weather) -> Hours>(
    params: &Params,
    julian_day: JulianDay,
    coords: Coordinates,
    weather: Weather,
    solve: &S,
) -> (r: PrayerHours)
    requires
        is_solver(solve),
        params.in_bounds(),
        julian_day.in_bounds(),
    ensures
        solved_and_adjusted(*params, julian_day, coords, weather, solve, r),
        r.within(ADJUSTED_BOUND as int),
{
    let hours = solve(*params, julian_day, coords, weather);
    adj_for_ext_lat(params, &hours, julian_day, coords, weather, solve)
}

/// The interval by which Imsaak precedes Fajr: the configured Imsaak
/// interval, or a minute and a half where none is configured.
pub open spec fn imsaak_interval(params: Params) -> int {
    if params.intervals.imsaak == 0 {
        Params::DEF_IMSAAK_INTERVAL as int
    } else {
        params.intervals.imsaak as int
    }
}

/// The parameters with which Imsaak is solved as a Fajr. Where Fajr is set by
/// an interval, the interval is widened by the Imsaak interval. Otherwise,
/// where an Imsaak interval is configured, the Fajr offset is moved back by
/// it. Otherwise the Fajr angle is widened by the Imsaak angle.
pub open spec fn imsaak_params_spec(params: Params) -> Params {
    if params.intervals.fajr != 0 {
        Params {
            intervals: params.intervals.with(
                Prayer::Fajr,
                (params.intervals.fajr + imsaak_interval(params)) as i64,
            ),
            ..params
        }
    } else if params.intervals.imsaak != 0 {
        Params {
            minutes: params.minutes.with(
                Prayer::Fajr,
                (params.minutes.fajr - params.intervals.imsaak) as i64,
            ),
            ..params
        }
    } else {
        Params {
            angles: params.angles.with(
                Prayer::Fajr,
                (params.angles.fajr + params.angles.imsaak) as i64,
            ),
            ..params
        }
    }
}

/// The parameters with which Imsaak is solved where the first ones gave an
/// extreme hour: the Fajr offset is moved back by the Imsaak interval, and
/// nothing else is changed.
pub open spec fn imsaak_fallback_params_spec(params: Params) -> Params {
    Params {
        minutes: params.minutes.with(
            Prayer::Fajr,
            (params.minutes.fajr - imsaak_interval(params)) as i64,
        ),
        ..params
    }
}

fn imsaak_interval_of(params: &Params) -> (r: i64)
    ensures
        r == imsaak_interval(*params),
{
    if params.intervals.imsaak == 0 {
        Params::DEF_IMSAAK_INTERVAL
    } else {
        params.intervals.imsaak
    }
}

/// The parameters with which Imsaak is solved as a Fajr.
pub fn imsaak_params(params: &Params) -> (r: Params)
    requires
        params.leaves_room(),
    ensures
        r == imsaak_params_spec(*params),
        r.in_bounds(),
{
    proof {
        lemma_room(*params);
    }
    let mut r = *params;
    if params.intervals.fajr != 0 {
        r.intervals.set(Prayer::Fajr, params.intervals.fajr + imsaak_interval_of(params));
    } else if params.intervals.imsaak != 0 {
        r.minutes.set(Prayer::Fajr, params.minutes.fajr - params.intervals.imsaak);
    } else {
        r.angles.set(Prayer::Fajr, params.angles.fajr + params.angles.imsaak);
    }
    proof {
        if params.intervals.fajr != 0 {
            params.intervals.lemma_with_within(Prayer::Fajr, r.intervals.fajr, TIME_BOUND as int);
        } else if params.intervals.imsaak != 0 {
            params.minutes.lemma_with_within(Prayer::Fajr, r.minutes.fajr, TIME_BOUND as int);
        } else {
            params.angles.lemma_with_within(Prayer::Fajr, r.angles.fajr, ANGLE_BOUND as int);
        }
    }
    r
}

/// The parameters with which Imsaak is solved where the first ones gave an
/// extreme hour.
pub fn imsaak_fallback_params(params: &Params) -> (r: Params)
    requires
        params.leaves_room(),
    ensures
        r == imsaak_fallback_params_spec(*params),
        r.in_bounds(),
{
    proof {
        lemma_room(*params);
    }
    let mut r = *params;
    r.minutes.set(Prayer::Fajr, params.minutes.fajr - imsaak_interval_of(params));
    proof {
        params.minutes.lemma_with_within(Prayer::Fajr, r.minutes.fajr, TIME_BOUND as int);
    }
    r
}

proof fn lemma_room(params: Params)
    requires
        params.leaves_room(),
    ensures
        params.in_bounds(),
        -(ANGLE_BOUND / 2) <= params.angles.fajr <= ANGLE_BOUND / 2,
        -(ANGLE_BOUND / 2) <= params.angles.imsaak <= ANGLE_BOUND / 2,
        -(TIME_BOUND / 2) <= params.intervals.fajr <= TIME_BOUND / 2,
        -(TIME_BOUND / 2) <= params.intervals.imsaak <= TIME_BOUND / 2,
        -(TIME_BOUND / 2) <= params.minutes.fajr <= TIME_BOUND / 2,
{
    params.lemma_room_in_bounds();
    crate::prayer_times::ext_lat::lemma_values_within(params.angles, ANGLE_BOUND as int / 2);
    crate::prayer_times::ext_lat::lemma_values_within(params.intervals, TIME_BOUND as int / 2);
    crate::prayer_times::ext_lat::lemma_values_within(params.minutes, TIME_BOUND as int / 2);
}

/// What [`get_imsaak`] returns. Imsaak is the Fajr of the day solved and
/// adjusted under the Imsaak parameters, shown under those parameters; where
/// that Fajr is extreme, it is the Fajr solved and adjusted under the fallback
/// parameters, shown under those.
pub open spec fn imsaak_result<S: Fn(Params, JulianDay, Coordinates, Weather) -> Hours>(
    params: Params,
    julian_day: JulianDay,
    coords: Coordinates,
    weather: Weather,
    solve: &S,
    r: Result<PrayerTime, ()>,
) -> bool {
    exists|first: PrayerHours| #[trigger]
        solved_and_adjusted(
            imsaak_params_spec(params),
            julian_day,
            coords,
            weather,
            solve,
            first,
        ) && (if first.fajr matches Ok(h) && h.extreme {
            exists|second: PrayerHours| #[trigger]
                solved_and_adjusted(
                    imsaak_fallback_params_spec(params),
                    julian_day,
                    coords,
                    weather,
                    solve,
                    second,
                ) && r == time_of(imsaak_fallback_params_spec(params), Prayer::Fajr, second.fajr)
        } else {
            r == time_of(imsaak_params_spec(params), Prayer::Fajr, first.fajr)
        })
}

/// The time of Imsaak of a day.
pub fn get_imsaak<S: Fn(Params, JulianDay, Coordinates, Weather) -> Hours>(
    params: &Params,
    julian_day: JulianDay,
    coords: Coordinates,
    weather: Weather,
    solve: &S,
) -> (r: Result<PrayerTime, ()>)
    requires
        is_solver(solve),
        params.leaves_room(),
        julian_day.in_bounds(),
    ensures
        imsaak_result(*params, julian_day, coords, weather, solve, r),
{
    let first_params = imsaak_params(params);
    let first = get_hours_adj_ext(&first_params, julian_day, coords, weather, solve);
    let extreme = match first.fajr {
        Ok(h) => h.extreme,
        Err(_) => false,
    };
    if extreme {
        let second_params = imsaak_fallback_params(params);
        let second = get_hours_adj_ext(&second_params, julian_day, coords, weather, solve);
        time_of_hour(&second_params, Prayer::Fajr, second.fajr)
    } else {
        time_of_hour(&first_params, Prayer::Fajr, first.fajr)
    }
}

/// The weather that a calculation works with: the given one, or the standard
/// atmosphere of 1010 millibars at 14 degrees Celsius where none is given.
pub open spec fn weather_or_default(weather: Option<Weather>, r: Weather) -> bool {
    match weather {
        Some(w) => r == w,
        None => r.pressure@ == 101_000 && r.temperature@ == 14_000,
    }
}

/// What [`prayer_times_dt`] returns: Imsaak as [`get_imsaak`] gives it, and
/// the six other prayer times as the times of the hours of the day, solved at
/// the Julian day of the date and adjusted.
pub open spec fn day_result<S: Fn(Params, JulianDay, Coordinates, Weather) -> Hours>(
    params: Params,
    julian_day: JulianDay,
    coords: Coordinates,
    weather: Weather,
    solve: &S,
    r: PrayerTimes,
) -> bool {
    &&& imsaak_result(params, julian_day, coords, weather, solve, r.imsaak)
    &&& exists|hours: PrayerHours| #[trigger]
        solved_and_adjusted(params, julian_day, coords, weather, solve, hours) && {
            &&& r.fajr == time_of(params, Prayer::Fajr, hours.fajr)
            &&& r.shurooq == time_of(params, Prayer::Shurooq, hours.shurooq)
            &&& r.dhuhr == time_of(params, Prayer::Dhuhr, hours.dhuhr)
            &&& r.asr == time_of(params, Prayer::Asr, hours.asr)
            &&& r.maghrib == time_of(params, Prayer::Maghrib, hours.maghrib)
            &&& r.isha == time_of(params, Prayer::Isha, hours.isha)
        }
}

/// The Julian day at which the prayer times of a date are solved for a place.
pub open spec fn julian_day_of(location: Location, date: CivilDate, r: JulianDay) -> bool {
    &&& r.date == date
    &&& r.gmt == location.gmt
    &&& r.value == crate::geo::julian_day::julian_value(
        date.year_spec(),
        date.month_spec(),
        date.day_spec(),
        location.gmt@,
    )
}

/// What [`prayer_times_dt`] returns: the prayer times of the Julian day of
/// the date at the place, under the given weather or the standard atmosphere.
pub open spec fn date_result<S: Fn(Params, JulianDay, Coordinates, Weather) -> Hours>(
    params: Params,
    location: Location,
    date: CivilDate,
    weather: Option<Weather>,
    solve: &S,
    r: PrayerTimes,
) -> bool {
    exists|julian_day: JulianDay, w: Weather| #[trigger]
        day_result(params, julian_day, location.coords, w, solve, r) && julian_day_of(
            location,
            date,
            julian_day,
        ) && weather_or_default(weather, w)
}

/// The prayer times of a date at a place, under the given parameters and
/// weather, the hours of a day being solved by `solve`.
pub fn prayer_times_dt<S: Fn(Params, JulianDay, Coordinates, Weather) -> Hours>(
    params: &Params,
    location: Location,
    date: CivilDate,
    weather: Option<Weather>,
    solve: &S,
) -> (r: PrayerTimes)
    requires
        is_solver(solve),
        params.leaves_room(),
    ensures
        date_result(*params, location, date, weather, solve, r),
{
    let weather = match weather {
        Some(w) => w,
        None => Weather::default(),
    };
    proof {
        params.lemma_room_in_bounds();
    }
    let julian_day = JulianDay::new(date, location.gmt);
    let hours = get_hours_adj_ext(params, julian_day, location.coords, weather, solve);
    let imsaak = get_imsaak(params, julian_day, location.coords, weather, solve);
    let r = PrayerTimes {
        imsaak,
        fajr: time_of_hour(params, Prayer::Fajr, hours.fajr),
        shurooq: time_of_hour(params, Prayer::Shurooq, hours.shurooq),
        dhuhr: time_of_hour(params, Prayer::Dhuhr, hours.dhuhr),
        asr: time_of_hour(params, Prayer::Asr, hours.asr),
        maghrib: time_of_hour(params, Prayer::Maghrib, hours.maghrib),
        isha: time_of_hour(params, Prayer::Isha, hours.isha),
    };
    assert(day_result(*params, julian_day, location.coords, weather, solve, r));
    r
}

/// The prayer times of each date of a range at a place, in the order of the
/// dates, under the standard atmosphere.
pub fn prayer_times_dt_rng<S: Fn(Params, JulianDay, Coordinates, Weather) -> Hours>(
    params: &Params,
    location: Location,
    date_range: &DateRange,
    solve: &S,
) -> (r: Vec<(CivilDate, PrayerTimes)>)
    requires
        is_solver(solve),
        params.leaves_room(),
    ensures
        r.len() == date_range.num_days_spec(),
        forall|i: int|
            0 <= i < r.len() ==> {
                &&& (#[trigger] r[i]).0.is_valid()
                &&& r[i].0.day_number() == date_range.first_day() + i
                &&& date_result(*params, location, r[i].0, None, solve, r[i].1)
            },
{
    let days = date_range.num_days() as u64;
    let start = *date_range.start_date();
    let mut times: Vec<(CivilDate, PrayerTimes)> = Vec::new();
    let mut i: u64 = 0;
    while i < days
        invariant
            is_solver(solve),
            params.leaves_room(),
            days == date_range.num_days_spec(),
            start == date_range.start_spec(),
            date_range.is_valid(),
            i <= days,
            times.len() == i,
            forall|k: int|
                0 <= k < times.len() ==> {
                    &&& (#[trigger] times[k]).0.is_valid()
                    &&& times[k].0.day_number() == date_range.first_day() + k
                    &&& date_result(*params, location, times[k].0, None, solve, times[k].1)
                },
        decreases days - i,
    {
        proof {
            lemma_day_number_range(date_range.start_spec());
            lemma_day_number_range(date_range.end_spec());
        }
        let date = match start.checked_add_days(i) {
            Some(date) => date,
            None => start,
        };
        let prayer_time = prayer_times_dt(params, location, date, None, solve);
        times.push((date, prayer_time));
        i += 1;
    }
    times
}

/// The blocks of a range of dates whose prayer times are calculated side by
/// side by `avail_pll` workers. The range stays in one piece where there is
/// one worker, or where the workers would get fewer than `min_days_for_pll`
/// days each; otherwise it is cut into a block for each worker.
pub fn parallel_blocks(date_range: &DateRange, avail_pll: usize, min_days_for_pll: usize) -> (r: Vec<
    DateRange,
>)
    requires
        avail_pll > 0,
    ensures
        (avail_pll == 1 || date_range.num_days_spec() / (avail_pll as int) < min_days_for_pll)
            ==> r@ == seq![*date_range],
        !(avail_pll == 1 || date_range.num_days_spec() / (avail_pll as int) < min_days_for_pll)
            ==> crate::prayer_times::date::is_blocks_of(
            r@,
            date_range.first_day(),
            date_range.num_days_spec(),
            date_range.block_size(avail_pll as int),
        ),
        r.len() <= avail_pll,
{
    let no_parallelism = date_range.num_days() / avail_pll < min_days_for_pll;
    if avail_pll == 1 || no_parallelism {
        date_range.partition(1)
    } else {
        date_range.partition(avail_pll)
    }
}

/// For a solver that returns one result on each input, the solved and
/// adjusted hours of a day are one.
pub proof fn law_hours_are_determined<S: Fn(Params, JulianDay, Coordinates, Weather) -> Hours>(
    params: Params,
    julian_day: JulianDay,
    coords: Coordinates,
    weather: Weather,
    solve: &S,
    first: PrayerHours,
    second: PrayerHours,
)
    requires
        is_deterministic(solve),
        solved_and_adjusted(params, julian_day, coords, weather, solve, first),
        solved_and_adjusted(params, julian_day, coords, weather, solve, second),
    ensures
        first == second,
{
    let h1 = choose|hours: Hours| #[trigger]
        call_ensures(*solve, (params, julian_day, coords, weather), hours) && adjusted_with(
            params,
            hours,
            julian_day,
            coords,
            weather,
            solve,
            first,
        );
    let h2 = choose|hours: Hours| #[trigger]
        call_ensures(*solve, (params, julian_day, coords, weather), hours) && adjusted_with(
            params,
            hours,
            julian_day,
            coords,
            weather,
            solve,
            second,
        );
    law_adjustment_is_determined(params, h1, julian_day, coords, weather, solve, first, second);
}

/// For a solver that returns one result on each input, the time of Imsaak of
/// a day is one.
pub proof fn law_imsaak_is_determined<S: Fn(Params, JulianDay, Coordinates, Weather) -> Hours>(
    params: Params,
    julian_day: JulianDay,
    coords: Coordinates,
    weather: Weather,
    solve: &S,
    first: Result<PrayerTime, ()>,
    second: Result<PrayerTime, ()>,
)
    requires
        is_deterministic(solve),
        imsaak_result(params, julian_day, coords, weather, solve, first),
        imsaak_result(params, julian_day, coords, weather, solve, second),
    ensures
        first == second,
{
    let widened = imsaak_params_spec(params);
    let fallback = imsaak_fallback_params_spec(params);
    let a1 = choose|hours: PrayerHours| #[trigger]
        solved_and_adjusted(widened, julian_day, coords, weather, solve, hours) && (
        if hours.fajr matches Ok(h) && h.extreme {
            exists|again: PrayerHours| #[trigger]
                solved_and_adjusted(fallback, julian_day, coords, weather, solve, again) && first
                    == time_of(fallback, Prayer::Fajr, again.fajr)
        } else {
            first == time_of(widened, Prayer::Fajr, hours.fajr)
        });
    let a2 = choose|hours: PrayerHours| #[trigger]
        solved_and_adjusted(widened, julian_day, coords, weather, solve, hours) && (
        if hours.fajr matches Ok(h) && h.extreme {
            exists|again: PrayerHours| #[trigger]
                solved_and_adjusted(fallback, julian_day, coords, weather, solve, again) && second
                    == time_of(fallback, Prayer::Fajr, again.fajr)
        } else {
            second == time_of(widened, Prayer::Fajr, hours.fajr)
        });
    law_hours_are_determined(widened, julian_day, coords, weather, solve, a1, a2);
    if a1.fajr matches Ok(h) && h.extreme {
        let b1 = choose|again: PrayerHours| #[trigger]
            solved_and_adjusted(fallback, julian_day, coords, weather, solve, again) && first
                == time_of(fallback, Prayer::Fajr, again.fajr);
        let b2 = choose|again: PrayerHours| #[trigger]
            solved_and_adjusted(fallback, julian_day, coords, weather, solve, again) && second
                == time_of(fallback, Prayer::Fajr, again.fajr);
        law_hours_are_determined(fallback, julian_day, coords, weather, solve, b1, b2);
    }
}

/// For a solver that returns one result on each input, the prayer times of a
/// date at a place are one: they are a function of the parameters, the place,
/// the date and the weather.
pub proof fn law_times_are_determined<S: Fn(Params, JulianDay, Coordinates, Weather) -> Hours>(
    params: Params,
    location: Location,
    date: CivilDate,
    weather: Option<Weather>,
    solve: &S,
    first: PrayerTimes,
    second: PrayerTimes,
)
    requires
        is_deterministic(solve),
        date_result(params, location, date, weather, solve, first),
        date_result(params, location, date, weather, solve, second),
    ensures
        first == second,
{
    let (j1, w1) = choose|julian_day: JulianDay, w: Weather| #[trigger]
        day_result(params, julian_day, location.coords, w, solve, first) && julian_day_of(
            location,
            date,
            julian_day,
        ) && weather_or_default(weather, w);
    let (j2, w2) = choose|julian_day: JulianDay, w: Weather| #[trigger]
        day_result(params, julian_day, location.coords, w, solve, second) && julian_day_of(
            location,
            date,
            julian_day,
        ) && weather_or_default(weather, w);
    assert(w1 == w2) by {
        crate::geo::weather::Pressure::lemma_view_injective(w1.pressure, w2.pressure);
        crate::geo::weather::Temperature::lemma_view_injective(w1.temperature, w2.temperature);
    }
    let coords = location.coords;
    law_imsaak_is_determined(params, j1, coords, w1, solve, first.imsaak, second.imsaak);
    let h1 = choose|hours: PrayerHours| #[trigger]
        solved_and_adjusted(params, j1, coords, w1, solve, hours) && {
            &&& first.fajr == time_of(params, Prayer::Fajr, hours.fajr)
            &&& first.shurooq == time_of(params, Prayer::Shurooq, hours.shurooq)
            &&& first.dhuhr == time_of(params, Prayer::Dhuhr, hours.dhuhr)
            &&& first.asr == time_of(params, Prayer::Asr, hours.asr)
            &&& first.maghrib == time_of(params, Prayer::Maghrib, hours.maghrib)
            &&& first.isha == time_of(params, Prayer::Isha, hours.isha)
        };
    let h2 = choose|hours: PrayerHours| #[trigger]
        solved_and_adjusted(params, j1, coords, w1, solve, hours) && {
            &&& second.fajr == time_of(params, Prayer::Fajr, hours.fajr)
            &&& second.shurooq == time_of(params, Prayer::Shurooq, hours.shurooq)
            &&& second.dhuhr == time_of(params, Prayer::Dhuhr, hours.dhuhr)
            &&& second.asr == time_of(params, Prayer::Asr, hours.asr)
            &&& second.maghrib == time_of(params, Prayer::Maghrib, hours.maghrib)
            &&& second.isha == time_of(params, Prayer::Isha, hours.isha)
        };
    law_hours_are_determined(params, j1, coords, w1, solve, h1, h2);
}

} // verus!
