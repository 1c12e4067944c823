//! Adjustment of prayer hours where the conventional calculation has no
//! solution.
//!
//! A prayer hour is an instant in milliseconds from local midnight. The
//! adjustment takes the hours that were solved for a day and, where the
//! configured method asks for it, the hours solved for a substitute (the same
//! day at the nearest latitude, or the nearest day on which Fajr and Isha can
//! be solved). It is a chain of pure steps: the step of the method, then the
//! step that applies the Fajr and Isha intervals.

use vstd::prelude::*;
use crate::geo::coordinates::{Coordinates, Latitude};
use crate::geo::julian_day::JulianDay;
use crate::geo::weather::Weather;
use crate::math::{floor_div, floor_div_wide};
use crate::prayer_times::params::{ExtremeLatitudeMethod, Params};
use crate::prayer_times::Prayer;
use crate::units::{ANGLE_BOUND, DEGREE, MS_PER_DAY, TIME_BOUND};

verus! {

/// Largest magnitude of an adjusted prayer hour.
pub const ADJUSTED_BOUND: i64 = 16_000_000_000_000;

/// A prayer hour and whether an extreme-latitude method produced it.
#[derive(Debug, Clone, Copy, PartialEq, Eq, Structural)]
pub struct PrayerHour {
    /// Milliseconds from local midnight.
    pub value: i64,
    /// An extreme-latitude method was used to calculate the hour.
    pub extreme: bool,
}

impl PrayerHour {
    /// The hour as it was solved.
    pub fn new(hour: i64) -> (r: PrayerHour)
        ensures
            r == (PrayerHour { value: hour, extreme: false }),
    {
        PrayerHour { value: hour, extreme: false }
    }

    /// The hour as an extreme-latitude method gave it.
    pub fn new_extreme(hour: i64) -> (r: PrayerHour)
        ensures
            r == (PrayerHour { value: hour, extreme: true }),
    {
        PrayerHour { value: hour, extreme: true }
    }
}

/// The solved hours of the six prayers of a day: each an instant in
/// milliseconds from local midnight, or `Err` where there is no solution.
#[derive(Debug, Clone, Copy, PartialEq, Eq)]
pub struct Hours {
    pub fajr: Result<i64, ()>,
    pub shurooq: Result<i64, ()>,
    pub dhuhr: Result<i64, ()>,
    pub asr: Result<i64, ()>,
    pub maghrib: Result<i64, ()>,
    pub isha: Result<i64, ()>,
}

/// The hours of the six prayers of a day after adjustment.
#[derive(Debug, Clone, Copy, PartialEq, Eq)]
pub struct PrayerHours {
    pub fajr: Result<PrayerHour, ()>,
    pub shurooq: Result<PrayerHour, ()>,
    pub dhuhr: Result<PrayerHour, ()>,
    pub asr: Result<PrayerHour, ()>,
    pub maghrib: Result<PrayerHour, ()>,
    pub isha: Result<PrayerHour, ()>,
}

/// A solved hour as an unadjusted prayer hour.
pub open spec fn plain(hour: Result<i64, ()>) -> Result<PrayerHour, ()> {
    match hour {
        Ok(v) => Ok(PrayerHour { value: v, extreme: false }),
        Err(_) => Err(()),
    }
}

/// A solved hour of a substitute as an extreme prayer hour.
pub open spec fn substituted(hour: Result<i64, ()>) -> Result<PrayerHour, ()> {
    match hour {
        Ok(v) => Ok(PrayerHour { value: v, extreme: true }),
        Err(_) => Err(()),
    }
}

/// A prayer hour moved by `delta` milliseconds and flagged `extreme`.
pub open spec fn moved(hour: Result<PrayerHour, ()>, delta: int, extreme: bool) -> Result<
    PrayerHour,
    (),
> {
    match hour {
        Ok(h) => Ok(PrayerHour { value: (h.value + delta) as i64, extreme }),
        Err(_) => Err(()),
    }
}

/// Whether a solved hour, where there is one, lies within `bound`.
pub open spec fn hour_within(hour: Result<i64, ()>, bound: int) -> bool {
    hour matches Ok(v) ==> -bound <= v <= bound
}

/// Whether a prayer hour, where there is one, lies within `bound`.
pub open spec fn prayer_hour_within(hour: Result<PrayerHour, ()>, bound: int) -> bool {
    hour matches Ok(h) ==> -bound <= h.value <= bound
}

/// The extreme flag of a prayer hour; an hour that is missing carries none.
pub open spec fn flag_of(hour: Result<PrayerHour, ()>) -> bool {
    match hour {
        Ok(h) => h.extreme,
        Err(_) => false,
    }
}

fn is_hour_within(hour: &Result<i64, ()>) -> (b: bool)
    ensures
        b == hour_within(*hour, TIME_BOUND as int),
{
    match hour {
        Ok(v) => -TIME_BOUND <= *v && *v <= TIME_BOUND,
        Err(_) => true,
    }
}

impl Hours {
    /// The solved hour of `prayer`; Imsaak is not among the solved hours.
    pub open spec fn at(self, prayer: Prayer) -> Result<i64, ()> {
        match prayer {
            Prayer::Imsaak => Err(()),
            Prayer::Fajr => self.fajr,
            Prayer::Shurooq => self.shurooq,
            Prayer::Dhuhr => self.dhuhr,
            Prayer::Asr => self.asr,
            Prayer::Maghrib => self.maghrib,
            Prayer::Isha => self.isha,
        }
    }

    /// Whether every solved hour is small enough to compute with.
    pub open spec fn in_bounds(self) -> bool {
        &&& hour_within(self.fajr, TIME_BOUND as int)
        &&& hour_within(self.shurooq, TIME_BOUND as int)
        &&& hour_within(self.dhuhr, TIME_BOUND as int)
        &&& hour_within(self.asr, TIME_BOUND as int)
        &&& hour_within(self.maghrib, TIME_BOUND as int)
        &&& hour_within(self.isha, TIME_BOUND as int)
    }

    /// The solved hours as unadjusted prayer hours.
    pub open spec fn unadjusted(self) -> PrayerHours {
        PrayerHours {
            fajr: plain(self.fajr),
            shurooq: plain(self.shurooq),
            dhuhr: plain(self.dhuhr),
            asr: plain(self.asr),
            maghrib: plain(self.maghrib),
            isha: plain(self.isha),
        }
    }

    /// Whether Fajr and Isha are both solved: the mark of a good day.
    pub open spec fn is_good_day(self) -> bool {
        self.fajr is Ok && self.isha is Ok
    }

    /// Whether one of Fajr, Shurooq, Maghrib and Isha has no solution.
    pub open spec fn has_invalid(self) -> bool {
        self.fajr is Err || self.shurooq is Err || self.maghrib is Err || self.isha is Err
    }

    /// Whether every solved hour is small enough to compute with.
    pub fn is_in_bounds(&self) -> (b: bool)
        ensures
            b == self.in_bounds(),
    {
        is_hour_within(&self.fajr) && is_hour_within(&self.shurooq) && is_hour_within(&self.dhuhr)
            && is_hour_within(&self.asr) && is_hour_within(&self.maghrib) && is_hour_within(
            &self.isha,
        )
    }

    /// The solved hour of `prayer`.
    pub fn get(&self, prayer: Prayer) -> (r: Result<i64, ()>)
        requires
            prayer != Prayer::Imsaak,
        ensures
            r == self.at(prayer),
    {
        match prayer {
            Prayer::Imsaak => Err(()),
            Prayer::Fajr => self.fajr,
            Prayer::Shurooq => self.shurooq,
            Prayer::Dhuhr => self.dhuhr,
            Prayer::Asr => self.asr,
            Prayer::Maghrib => self.maghrib,
            Prayer::Isha => self.isha,
        }
    }
}

impl PrayerHours {
    /// The hour of `prayer`; Imsaak is not among the six.
    pub open spec fn at(self, prayer: Prayer) -> Result<PrayerHour, ()> {
        match prayer {
            Prayer::Imsaak => Err(()),
            Prayer::Fajr => self.fajr,
            Prayer::Shurooq => self.shurooq,
            Prayer::Dhuhr => self.dhuhr,
            Prayer::Asr => self.asr,
            Prayer::Maghrib => self.maghrib,
            Prayer::Isha => self.isha,
        }
    }

    /// Whether every hour lies within `bound`.
    pub open spec fn within(self, bound: int) -> bool {
        &&& prayer_hour_within(self.fajr, bound)
        &&& prayer_hour_within(self.shurooq, bound)
        &&& prayer_hour_within(self.dhuhr, bound)
        &&& prayer_hour_within(self.asr, bound)
        &&& prayer_hour_within(self.maghrib, bound)
        &&& prayer_hour_within(self.isha, bound)
    }

    /// The hour of `prayer`.
    pub fn get(&self, prayer: Prayer) -> (r: Result<PrayerHour, ()>)
        requires
            prayer != Prayer::Imsaak,
        ensures
            r == self.at(prayer),
    {
        match prayer {
            Prayer::Imsaak => Err(()),
            Prayer::Fajr => self.fajr,
            Prayer::Shurooq => self.shurooq,
            Prayer::Dhuhr => self.dhuhr,
            Prayer::Asr => self.asr,
            Prayer::Maghrib => self.maghrib,
            Prayer::Isha => self.isha,
        }
    }
}

/// What a method needs besides the solved hours of the day.
#[derive(Debug, Clone, Copy, PartialEq, Eq, Structural)]
pub enum Substitute {
    /// Nothing: the method works on the hours of the day alone.
    NotNeeded,
    /// The hours of the same day solved at this latitude.
    NearestLatitude(Latitude),
    /// The hours of the nearest day on which Fajr and Isha are both solved.
    NearestGoodDay,
}

/// Whether the method is applied to the solved hours: it is one, and either an
/// hour is missing or the method overrides hours that were solved.
pub open spec fn can_adj_spec(hours: Hours, method: ExtremeLatitudeMethod) -> bool {
    method != ExtremeLatitudeMethod::NoAdjustment && (hours.has_invalid() || method.is_always())
}

/// The substitute that the method needs for these hours.
pub open spec fn substitute_for_spec(hours: Hours, method: ExtremeLatitudeMethod) -> Substitute {
    if !can_adj_spec(hours, method) {
        Substitute::NotNeeded
    } else if method.nearest_latitude() is Some {
        Substitute::NearestLatitude(method.nearest_latitude().unwrap())
    } else if method.is_nearest_good_day() {
        Substitute::NearestGoodDay
    } else {
        Substitute::NotNeeded
    }
}

/// The share of `portion` that an angle stands for: one sixtieth of it per
/// degree, rounded down to the millisecond.
pub open spec fn angle_share(angle: int, portion: int) -> int {
    (angle * portion) / (60 * DEGREE)
}

/// The length of the night in milliseconds: the day less the time from
/// Shurooq to Maghrib.
pub open spec fn night_length(shurooq: int, maghrib: int) -> int {
    MS_PER_DAY - (maghrib - shurooq)
}

/// The portion of the night or day that a seventh or half method works with,
/// rounded down to the millisecond; zero for every other method.
pub open spec fn portion_spec(method: ExtremeLatitudeMethod, shurooq: int, maghrib: int) -> int {
    match method {
        ExtremeLatitudeMethod::SeventhOfNightFajrIshaAlways => night_length(shurooq, maghrib) / 7,
        ExtremeLatitudeMethod::SeventhOfNightFajrIshaInvalid => night_length(shurooq, maghrib) / 7,
        ExtremeLatitudeMethod::SeventhOfDayFajrIshaAlways => (maghrib - shurooq) / 7,
        ExtremeLatitudeMethod::SeventhOfDayFajrIshaInvalid => (maghrib - shurooq) / 7,
        ExtremeLatitudeMethod::HalfOfNightFajrIshaAlways => night_length(shurooq, maghrib) / 2,
        ExtremeLatitudeMethod::HalfOfNightFajrIshaInvalid => night_length(shurooq, maghrib) / 2,
        _ => 0,
    }
}

/// The angle-based step. Where Shurooq and Maghrib are both solved, Fajr
/// becomes Shurooq less the share of the night that the Fajr angle stands for
/// and Isha becomes Maghrib plus the share of the Isha angle, both extreme.
pub open spec fn angle_based_spec(params: Params, hours: PrayerHours) -> PrayerHours {
    match (hours.shurooq, hours.maghrib) {
        (Ok(s), Ok(m)) => {
            let portion = night_length(s.value as int, m.value as int);
            PrayerHours {
                fajr: Ok(
                    PrayerHour {
                        value: (s.value - angle_share(params.angles.fajr as int, portion)) as i64,
                        extreme: true,
                    },
                ),
                isha: Ok(
                    PrayerHour {
                        value: (m.value + angle_share(params.angles.isha as int, portion)) as i64,
                        extreme: true,
                    },
                ),
                ..hours
            }
        },
        _ => hours,
    }
}

/// The nearest-latitude step, `adj` being the hours solved at that latitude.
/// A solved Fajr or Isha of the substitute replaces the day's own, unless the
/// method replaces missing hours only and the day's own is solved. The method
/// for all prayers also takes Shurooq, Dhuhr, Asr and Maghrib from the
/// substitute, solved or not. Every hour taken is extreme.
pub open spec fn near_lat_spec(params: Params, hours: PrayerHours, adj: Hours) -> PrayerHours {
    let method = params.extreme_latitude_method;
    let invalid_only = method is NearestLatitudeFajrIshaInvalid;
    let all = method is NearestLatitudeAllPrayersAlways;
    PrayerHours {
        fajr: if adj.fajr is Ok && (!invalid_only || hours.fajr is Err) {
            substituted(adj.fajr)
        } else {
            hours.fajr
        },
        isha: if adj.isha is Ok && (!invalid_only || hours.isha is Err) {
            substituted(adj.isha)
        } else {
            hours.isha
        },
        shurooq: if all {
            substituted(adj.shurooq)
        } else {
            hours.shurooq
        },
        dhuhr: if all {
            substituted(adj.dhuhr)
        } else {
            hours.dhuhr
        },
        asr: if all {
            substituted(adj.asr)
        } else {
            hours.asr
        },
        maghrib: if all {
            substituted(adj.maghrib)
        } else {
            hours.maghrib
        },
    }
}

/// The nearest-good-day step, `found` being the hours of that day where the
/// search found one. The method for all prayers takes all six hours from it;
/// the other takes Fajr and Isha where the day's own are missing. Every hour
/// taken is extreme. Where no day was found nothing changes.
pub open spec fn near_good_spec(params: Params, hours: PrayerHours, found: Option<Hours>) -> PrayerHours {
    match found {
        Some(adj) => {
            if params.extreme_latitude_method is NearestGoodDayAllPrayersAlways {
                PrayerHours {
                    fajr: substituted(adj.fajr),
                    shurooq: substituted(adj.shurooq),
                    dhuhr: substituted(adj.dhuhr),
                    asr: substituted(adj.asr),
                    maghrib: substituted(adj.maghrib),
                    isha: substituted(adj.isha),
                }
            } else {
                PrayerHours {
                    fajr: if hours.fajr is Err {
                        substituted(adj.fajr)
                    } else {
                        hours.fajr
                    },
                    isha: if hours.isha is Err {
                        substituted(adj.isha)
                    } else {
                        hours.isha
                    },
                    ..hours
                }
            }
        },
        None => hours,
    }
}

/// The step of the seventh-of-night, seventh-of-day and half-of-night
/// methods. Where Shurooq and Maghrib are both solved, the seventh methods
/// set Fajr to Shurooq less the portion and Isha to Maghrib plus the portion;
/// the half methods set Fajr to the portion less the Fajr interval and Isha to
/// the portion plus the Isha interval. The hours set are extreme. The methods
/// for missing hours leave a solved Fajr or Isha as it is.
pub open spec fn sev_half_spec(params: Params, hours: PrayerHours) -> PrayerHours {
    let method = params.extreme_latitude_method;
    match (hours.shurooq, hours.maghrib) {
        (Ok(s), Ok(m)) => {
            let portion = portion_spec(method, s.value as int, m.value as int);
            let half = method is HalfOfNightFajrIshaAlways || method is HalfOfNightFajrIshaInvalid;
            let fajr = PrayerHour {
                value: (if half {
                    portion - params.intervals.fajr
                } else {
                    s.value - portion
                }) as i64,
                extreme: true,
            };
            let isha = PrayerHour {
                value: (if half {
                    portion + params.intervals.isha
                } else {
                    m.value + portion
                }) as i64,
                extreme: true,
            };
            PrayerHours {
                fajr: if method.is_always() || hours.fajr is Err {
                    Ok(fajr)
                } else {
                    hours.fajr
                },
                isha: if method.is_always() || hours.isha is Err {
                    Ok(isha)
                } else {
                    hours.isha
                },
                ..hours
            }
        },
        _ => hours,
    }
}

/// The step of the method that always counts minutes from Shurooq and
/// Maghrib: Fajr becomes Shurooq and Isha becomes Maghrib, extreme where they
/// are solved. The interval step then moves them.
pub open spec fn min_always_spec(hours: PrayerHours) -> PrayerHours {
    PrayerHours {
        fajr: moved(hours.shurooq, 0, true),
        isha: moved(hours.maghrib, 0, true),
        ..hours
    }
}

/// The step of the method that counts minutes from Shurooq and Maghrib for
/// missing hours: a missing Fajr becomes Shurooq less the Fajr interval, a
/// missing Isha becomes Maghrib plus the Isha interval, extreme where Shurooq
/// or Maghrib is solved.
pub open spec fn min_inv_spec(params: Params, hours: PrayerHours) -> PrayerHours {
    PrayerHours {
        fajr: if hours.fajr is Err {
            moved(hours.shurooq, -params.intervals.fajr, true)
        } else {
            hours.fajr
        },
        isha: if hours.isha is Err {
            moved(hours.maghrib, params.intervals.isha as int, true)
        } else {
            hours.isha
        },
        ..hours
    }
}

/// The step of the configured method. The methods of the nearest latitude and
/// of the nearest good day work from the substitute, and change nothing where
/// there is none; the other methods do not look at it.
pub open spec fn method_step_spec(params: Params, hours: PrayerHours, substitute: Option<Hours>) -> PrayerHours {
    match params.extreme_latitude_method {
        ExtremeLatitudeMethod::NoAdjustment => hours,
        ExtremeLatitudeMethod::AngleBased => angle_based_spec(params, hours),
        ExtremeLatitudeMethod::NearestLatitudeAllPrayersAlways(_) => match substitute {
            Some(adj) => near_lat_spec(params, hours, adj),
            None => hours,
        },
        ExtremeLatitudeMethod::NearestLatitudeFajrIshaAlways(_) => match substitute {
            Some(adj) => near_lat_spec(params, hours, adj),
            None => hours,
        },
        ExtremeLatitudeMethod::NearestLatitudeFajrIshaInvalid(_) => match substitute {
            Some(adj) => near_lat_spec(params, hours, adj),
            None => hours,
        },
        ExtremeLatitudeMethod::NearestGoodDayAllPrayersAlways => near_good_spec(
            params,
            hours,
            substitute,
        ),
        ExtremeLatitudeMethod::NearestGoodDayFajrIshaInvalid => near_good_spec(
            params,
            hours,
            substitute,
        ),
        ExtremeLatitudeMethod::MinutesFromMaghribFajrIshaAlways => min_always_spec(hours),
        ExtremeLatitudeMethod::MinutesFromMaghribFajrIshaInvalid => min_inv_spec(params, hours),
        _ => sev_half_spec(params, hours),
    }
}

/// The interval step. Unless the method holds the intervals itself, a Fajr
/// interval other than zero sets Fajr to Shurooq less the interval, and an
/// Isha interval other than zero sets Isha to Maghrib plus the interval. The
/// hour set keeps the extreme flag that the prayer had; a prayer that had no
/// hour counts as not extreme. Where Shurooq or Maghrib is missing, the hour
/// set from it is missing.
pub open spec fn for_int_spec(params: Params, hours: PrayerHours) -> PrayerHours {
    if params.extreme_latitude_method.holds_intervals() {
        hours
    } else {
        PrayerHours {
            fajr: if params.intervals.fajr != 0 {
                moved(hours.shurooq, -params.intervals.fajr, flag_of(hours.fajr))
            } else {
                hours.fajr
            },
            isha: if params.intervals.isha != 0 {
                moved(hours.maghrib, params.intervals.isha as int, flag_of(hours.isha))
            } else {
                hours.isha
            },
            ..hours
        }
    }
}

/// The adjusted hours of a day: the solved hours, then the step of the method
/// where it is applied, then the interval step.
pub open spec fn adjusted_spec(params: Params, hours: Hours, substitute: Option<Hours>) -> PrayerHours {
    for_int_spec(
        params,
        if can_adj_spec(hours, params.extreme_latitude_method) {
            method_step_spec(params, hours.unadjusted(), substitute)
        } else {
            hours.unadjusted()
        },
    )
}

impl PrayerHours {
    /// Whether the hours can go through the interval step: Shurooq and Maghrib
    /// lie within the bound of solved hours, and every hour within the bound
    /// of adjusted hours.
    pub open spec fn steady(self) -> bool {
        &&& prayer_hour_within(self.shurooq, TIME_BOUND as int)
        &&& prayer_hour_within(self.maghrib, TIME_BOUND as int)
        &&& self.within(ADJUSTED_BOUND as int)
    }
}

fn lift_hour(hour: Result<i64, ()>) -> (r: Result<PrayerHour, ()>)
    ensures
        r == plain(hour),
{
    match hour {
        Ok(v) => Ok(PrayerHour::new(v)),
        Err(_) => Err(()),
    }
}

fn substitute_hour(hour: Result<i64, ()>) -> (r: Result<PrayerHour, ()>)
    ensures
        r == substituted(hour),
{
    match hour {
        Ok(v) => Ok(PrayerHour::new_extreme(v)),
        Err(_) => Err(()),
    }
}

fn move_hour(hour: Result<PrayerHour, ()>, delta: i64, extreme: bool) -> (r: Result<PrayerHour, ()>)
    requires
        prayer_hour_within(hour, TIME_BOUND as int),
        -TIME_BOUND <= delta <= TIME_BOUND,
    ensures
        r == moved(hour, delta as int, extreme),
        prayer_hour_within(r, 2 * TIME_BOUND),
{
    match hour {
        Ok(h) => Ok(PrayerHour { value: h.value + delta, extreme }),
        Err(_) => Err(()),
    }
}

fn extreme_flag(hour: &Result<PrayerHour, ()>) -> (b: bool)
    ensures
        b == flag_of(*hour),
{
    match hour {
        Ok(h) => h.extreme,
        Err(_) => false,
    }
}

/// The solved hours as unadjusted prayer hours.
pub fn unadjusted(hours: &Hours) -> (r: PrayerHours)
    ensures
        r == hours.unadjusted(),
{
    PrayerHours {
        fajr: lift_hour(hours.fajr),
        shurooq: lift_hour(hours.shurooq),
        dhuhr: lift_hour(hours.dhuhr),
        asr: lift_hour(hours.asr),
        maghrib: lift_hour(hours.maghrib),
        isha: lift_hour(hours.isha),
    }
}

/// Whether one of Fajr, Shurooq, Maghrib and Isha has no solution.
pub fn has_inv_hours(hours: &Hours) -> (b: bool)
    ensures
        b == hours.has_invalid(),
{
    hours.fajr.is_err() || hours.shurooq.is_err() || hours.maghrib.is_err() || hours.isha.is_err()
}

/// Whether the method overrides prayer times that were solved.
pub fn is_ext_lat_always(method: ExtremeLatitudeMethod) -> (b: bool)
    ensures
        b == method.is_always(),
{
    match method {
        ExtremeLatitudeMethod::NearestLatitudeAllPrayersAlways(_) => true,
        ExtremeLatitudeMethod::NearestLatitudeFajrIshaAlways(_) => true,
        ExtremeLatitudeMethod::NearestGoodDayAllPrayersAlways => true,
        ExtremeLatitudeMethod::SeventhOfNightFajrIshaAlways => true,
        ExtremeLatitudeMethod::SeventhOfDayFajrIshaAlways => true,
        ExtremeLatitudeMethod::HalfOfNightFajrIshaAlways => true,
        ExtremeLatitudeMethod::MinutesFromMaghribFajrIshaAlways => true,
        _ => false,
    }
}

/// Whether the method is applied to the solved hours.
pub fn can_adj(hours: &Hours, method: ExtremeLatitudeMethod) -> (b: bool)
    ensures
        b == can_adj_spec(*hours, method),
{
    match method {
        ExtremeLatitudeMethod::NoAdjustment => false,
        _ => has_inv_hours(hours) || is_ext_lat_always(method),
    }
}

/// The substitute that the method needs for these hours.
pub fn substitute_for(hours: &Hours, method: ExtremeLatitudeMethod) -> (r: Substitute)
    ensures
        r == substitute_for_spec(*hours, method),
{
    if !can_adj(hours, method) {
        Substitute::NotNeeded
    } else {
        match method {
            ExtremeLatitudeMethod::NearestLatitudeAllPrayersAlways(l) => Substitute::NearestLatitude(
                l,
            ),
            ExtremeLatitudeMethod::NearestLatitudeFajrIshaAlways(l) => Substitute::NearestLatitude(
                l,
            ),
            ExtremeLatitudeMethod::NearestLatitudeFajrIshaInvalid(l) => Substitute::NearestLatitude(
                l,
            ),
            ExtremeLatitudeMethod::NearestGoodDayAllPrayersAlways => Substitute::NearestGoodDay,
            ExtremeLatitudeMethod::NearestGoodDayFajrIshaInvalid => Substitute::NearestGoodDay,
            _ => Substitute::NotNeeded,
        }
    }
}

fn share_of(angle: i64, portion: i64) -> (r: i64)
    requires
        -ANGLE_BOUND <= angle <= ANGLE_BOUND,
        -2 * TIME_BOUND - MS_PER_DAY <= portion <= 2 * TIME_BOUND + MS_PER_DAY,
    ensures
        r == angle_share(angle as int, portion as int),
        -13 * TIME_BOUND <= r <= 13 * TIME_BOUND,
{
    proof {
        lemma_share_bounds(angle as int, portion as int);
    }
    let product: i128 = (angle as i128) * (portion as i128);
    let q = floor_div_wide(product, 60 * (DEGREE as i128));
    q as i64
}

proof fn lemma_share_bounds(angle: int, portion: int)
    requires
        -ANGLE_BOUND <= angle <= ANGLE_BOUND,
        -2 * TIME_BOUND - MS_PER_DAY <= portion <= 2 * TIME_BOUND + MS_PER_DAY,
    ensures
        -720_031_104_000_000_000_000_000 <= angle * portion <= 720_031_104_000_000_000_000_000,
        -13 * TIME_BOUND <= angle_share(angle, portion) <= 13 * TIME_BOUND,
{
    assert(-720_031_104_000_000_000_000_000 <= angle * portion <= 720_031_104_000_000_000_000_000)
        by (nonlinear_arith)
        requires
            -360_000_000_000 <= angle <= 360_000_000_000,
            -2_000_086_400_000 <= portion <= 2_000_086_400_000,
    ;
    let product = angle * portion;
    assert(-13_000_000_000_000 <= product / 60_000_000_000 <= 13_000_000_000_000);
}

/// The angle-based step.
pub fn angle_based(params: &Params, hours: PrayerHours) -> (r: PrayerHours)
    requires
        params.in_bounds(),
        hours.within(TIME_BOUND as int),
    ensures
        r == angle_based_spec(*params, hours),
        r.steady(),
{
    proof {
        lemma_values_within(params.angles, ANGLE_BOUND as int);
    }
    match (hours.shurooq, hours.maghrib) {
        (Ok(s), Ok(m)) => {
            let portion = MS_PER_DAY - m.value + s.value;
            let fajr_diff = share_of(params.angles.fajr, portion);
            let isha_diff = share_of(params.angles.isha, portion);
            PrayerHours {
                fajr: Ok(PrayerHour::new_extreme(s.value - fajr_diff)),
                isha: Ok(PrayerHour::new_extreme(m.value + isha_diff)),
                ..hours
            }
        },
        _ => hours,
    }
}

/// Every field of values that lie within a bound lies within it.
pub proof fn lemma_values_within(values: crate::prayer_times::params::PrayerValues, bound: int)
    requires
        values.within(bound),
    ensures
        -bound <= values.imsaak <= bound,
        -bound <= values.fajr <= bound,
        -bound <= values.shurooq <= bound,
        -bound <= values.dhuhr <= bound,
        -bound <= values.asr <= bound,
        -bound <= values.maghrib <= bound,
        -bound <= values.isha <= bound,
{
    assert(values.at(Prayer::Imsaak) == values.imsaak);
    assert(values.at(Prayer::Fajr) == values.fajr);
    assert(values.at(Prayer::Shurooq) == values.shurooq);
    assert(values.at(Prayer::Dhuhr) == values.dhuhr);
    assert(values.at(Prayer::Asr) == values.asr);
    assert(values.at(Prayer::Maghrib) == values.maghrib);
    assert(values.at(Prayer::Isha) == values.isha);
}

/// The nearest-latitude step, `adj` being the hours solved at that latitude.
pub fn adj_near_lat(params: &Params, hours: PrayerHours, adj: &Hours) -> (r: PrayerHours)
    requires
        hours.within(TIME_BOUND as int),
        adj.in_bounds(),
    ensures
        r == near_lat_spec(*params, hours, *adj),
        r.within(TIME_BOUND as int),
        r.steady(),
{
    let invalid_only = match params.extreme_latitude_method {
        ExtremeLatitudeMethod::NearestLatitudeFajrIshaInvalid(_) => true,
        _ => false,
    };
    let all = match params.extreme_latitude_method {
        ExtremeLatitudeMethod::NearestLatitudeAllPrayersAlways(_) => true,
        _ => false,
    };
    let mut r = hours;
    if adj.fajr.is_ok() && (!invalid_only || hours.fajr.is_err()) {
        r.fajr = substitute_hour(adj.fajr);
    }
    if adj.isha.is_ok() && (!invalid_only || hours.isha.is_err()) {
        r.isha = substitute_hour(adj.isha);
    }
    if all {
        r.shurooq = substitute_hour(adj.shurooq);
        r.dhuhr = substitute_hour(adj.dhuhr);
        r.asr = substitute_hour(adj.asr);
        r.maghrib = substitute_hour(adj.maghrib);
    }
    r
}

/// The nearest-good-day step, `found` being the hours of that day where the
/// search found one.
pub fn adj_near_good(params: &Params, hours: PrayerHours, found: &Option<Hours>) -> (r: PrayerHours)
    requires
        hours.within(TIME_BOUND as int),
        found matches Some(adj) ==> adj.in_bounds(),
    ensures
        r == near_good_spec(*params, hours, *found),
        r.within(TIME_BOUND as int),
        r.steady(),
{
    match found {
        Some(adj) => {
            let all = match params.extreme_latitude_method {
                ExtremeLatitudeMethod::NearestGoodDayAllPrayersAlways => true,
                _ => false,
            };
            if all {
                PrayerHours {
                    fajr: substitute_hour(adj.fajr),
                    shurooq: substitute_hour(adj.shurooq),
                    dhuhr: substitute_hour(adj.dhuhr),
                    asr: substitute_hour(adj.asr),
                    maghrib: substitute_hour(adj.maghrib),
                    isha: substitute_hour(adj.isha),
                }
            } else {
                let mut r = hours;
                if hours.fajr.is_err() {
                    r.fajr = substitute_hour(adj.fajr);
                }
                if hours.isha.is_err() {
                    r.isha = substitute_hour(adj.isha);
                }
                r
            }
        },
        None => hours,
    }
}

/// The portion of the night or day that a seventh or half method works with.
pub fn portion_of(method: ExtremeLatitudeMethod, shurooq: i64, maghrib: i64) -> (r: i64)
    requires
        -TIME_BOUND <= shurooq <= TIME_BOUND,
        -TIME_BOUND <= maghrib <= TIME_BOUND,
    ensures
        r == portion_spec(method, shurooq as int, maghrib as int),
        -2 * TIME_BOUND <= r <= 2 * TIME_BOUND,
{
    match method {
        ExtremeLatitudeMethod::SeventhOfNightFajrIshaAlways
        | ExtremeLatitudeMethod::SeventhOfNightFajrIshaInvalid => floor_div(
            MS_PER_DAY - (maghrib - shurooq),
            7,
        ),
        ExtremeLatitudeMethod::SeventhOfDayFajrIshaAlways
        | ExtremeLatitudeMethod::SeventhOfDayFajrIshaInvalid => floor_div(maghrib - shurooq, 7),
        ExtremeLatitudeMethod::HalfOfNightFajrIshaAlways
        | ExtremeLatitudeMethod::HalfOfNightFajrIshaInvalid => floor_div(
            MS_PER_DAY - (maghrib - shurooq),
            2,
        ),
        _ => 0,
    }
}

/// The step of the seventh-of-night, seventh-of-day and half-of-night methods.
pub fn adj_sev_half(params: &Params, hours: PrayerHours) -> (r: PrayerHours)
    requires
        params.in_bounds(),
        hours.within(TIME_BOUND as int),
    ensures
        r == sev_half_spec(*params, hours),
        r.steady(),
{
    proof {
        lemma_values_within(params.intervals, TIME_BOUND as int);
    }
    let method = params.extreme_latitude_method;
    match (hours.shurooq, hours.maghrib) {
        (Ok(s), Ok(m)) => {
            let portion = portion_of(method, s.value, m.value);
            let half = match method {
                ExtremeLatitudeMethod::HalfOfNightFajrIshaAlways => true,
                ExtremeLatitudeMethod::HalfOfNightFajrIshaInvalid => true,
                _ => false,
            };
            let fajr = PrayerHour::new_extreme(
                if half {
                    portion - params.intervals.fajr
                } else {
                    s.value - portion
                },
            );
            let isha = PrayerHour::new_extreme(
                if half {
                    portion + params.intervals.isha
                } else {
                    m.value + portion
                },
            );
            let always = is_ext_lat_always(method);
            let mut r = hours;
            if always || hours.fajr.is_err() {
                r.fajr = Ok(fajr);
            }
            if always || hours.isha.is_err() {
                r.isha = Ok(isha);
            }
            r
        },
        _ => hours,
    }
}

/// The step of the method that always counts minutes from Shurooq and Maghrib.
pub fn adj_min_always(hours: PrayerHours) -> (r: PrayerHours)
    requires
        hours.within(TIME_BOUND as int),
    ensures
        r == min_always_spec(hours),
        r.steady(),
{
    PrayerHours {
        fajr: move_hour(hours.shurooq, 0, true),
        isha: move_hour(hours.maghrib, 0, true),
        ..hours
    }
}

/// The step of the method that counts minutes from Shurooq and Maghrib for
/// missing hours.
pub fn adj_min_inv(params: &Params, hours: PrayerHours) -> (r: PrayerHours)
    requires
        params.in_bounds(),
        hours.within(TIME_BOUND as int),
    ensures
        r == min_inv_spec(*params, hours),
        r.steady(),
{
    proof {
        lemma_values_within(params.intervals, TIME_BOUND as int);
    }
    let mut r = hours;
    if hours.fajr.is_err() {
        r.fajr = move_hour(hours.shurooq, -params.intervals.fajr, true);
    }
    if hours.isha.is_err() {
        r.isha = move_hour(hours.maghrib, params.intervals.isha, true);
    }
    r
}

/// The step of the configured method.
pub fn method_step(params: &Params, hours: PrayerHours, substitute: &Option<Hours>) -> (r: PrayerHours)
    requires
        params.in_bounds(),
        hours.within(TIME_BOUND as int),
        substitute matches Some(adj) ==> adj.in_bounds(),
    ensures
        r == method_step_spec(*params, hours, *substitute),
        r.steady(),
{
    match params.extreme_latitude_method {
        ExtremeLatitudeMethod::NoAdjustment => hours,
        ExtremeLatitudeMethod::AngleBased => angle_based(params, hours),
        ExtremeLatitudeMethod::NearestLatitudeAllPrayersAlways(_)
        | ExtremeLatitudeMethod::NearestLatitudeFajrIshaAlways(_)
        | ExtremeLatitudeMethod::NearestLatitudeFajrIshaInvalid(_) => match substitute {
            Some(adj) => adj_near_lat(params, hours, adj),
            None => hours,
        },
        ExtremeLatitudeMethod::NearestGoodDayAllPrayersAlways
        | ExtremeLatitudeMethod::NearestGoodDayFajrIshaInvalid => adj_near_good(
            params,
            hours,
            substitute,
        ),
        ExtremeLatitudeMethod::MinutesFromMaghribFajrIshaAlways => adj_min_always(hours),
        ExtremeLatitudeMethod::MinutesFromMaghribFajrIshaInvalid => adj_min_inv(params, hours),
        _ => adj_sev_half(params, hours),
    }
}

/// Whether the method sets Fajr and Isha from their intervals itself.
pub fn holds_intervals(method: ExtremeLatitudeMethod) -> (b: bool)
    ensures
        b == method.holds_intervals(),
{
    match method {
        ExtremeLatitudeMethod::MinutesFromMaghribFajrIshaInvalid => true,
        ExtremeLatitudeMethod::HalfOfNightFajrIshaInvalid => true,
        ExtremeLatitudeMethod::HalfOfNightFajrIshaAlways => true,
        _ => false,
    }
}

/// The interval step.
pub fn adj_for_int(params: &Params, hours: PrayerHours) -> (r: PrayerHours)
    requires
        params.in_bounds(),
        hours.steady(),
    ensures
        r == for_int_spec(*params, hours),
        r.within(ADJUSTED_BOUND as int),
{
    proof {
        lemma_values_within(params.intervals, TIME_BOUND as int);
    }
    if holds_intervals(params.extreme_latitude_method) {
        hours
    } else {
        let mut r = hours;
        if params.intervals.fajr != 0 {
            r.fajr = move_hour(hours.shurooq, -params.intervals.fajr, extreme_flag(&hours.fajr));
        }
        if params.intervals.isha != 0 {
            r.isha = move_hour(hours.maghrib, params.intervals.isha, extreme_flag(&hours.isha));
        }
        r
    }
}

/// The adjusted hours of a day, from the solved hours and, where the method
/// needs one (see [`substitute_for`]), the solved hours of the substitute.
pub fn adjust(params: &Params, hours: &Hours, substitute: &Option<Hours>) -> (r: PrayerHours)
    requires
        params.in_bounds(),
        hours.in_bounds(),
        substitute matches Some(adj) ==> adj.in_bounds(),
    ensures
        r == adjusted_spec(*params, *hours, *substitute),
        r.within(ADJUSTED_BOUND as int),
{
    let base = unadjusted(hours);
    let stepped = if can_adj(hours, params.extreme_latitude_method) {
        method_step(params, base, substitute)
    } else {
        base
    };
    adj_for_int(params, stepped)
}

/// Whether the interval step sets the hour of `prayer`: the prayer is Fajr or
/// Isha, its interval is not zero, and the method does not hold the intervals
/// itself.
pub open spec fn interval_applies(params: Params, prayer: Prayer) -> bool {
    &&& !params.extreme_latitude_method.holds_intervals()
    &&& (prayer == Prayer::Fajr && params.intervals.fajr != 0) || (prayer == Prayer::Isha
        && params.intervals.isha != 0)
}

/// Under a method that replaces missing hours only, a prayer hour that was
/// solved stays as it was solved and is not extreme, whatever the substitute
/// holds, unless the interval step sets that prayer.
pub proof fn law_invalid_only_keeps_solved(
    params: Params,
    hours: Hours,
    substitute: Option<Hours>,
    prayer: Prayer,
)
    requires
        params.extreme_latitude_method.is_invalid_only(),
        hours.at(prayer) is Ok,
        !interval_applies(params, prayer),
    ensures
        adjusted_spec(params, hours, substitute).at(prayer) == Ok::<PrayerHour, ()>(
            PrayerHour { value: hours.at(prayer).unwrap(), extreme: false },
        ),
{
}

/// Where the interval step sets Fajr or Isha, the adjusted hour is Shurooq
/// less the Fajr interval or Maghrib plus the Isha interval, taken from the
/// hours after the step of the method, and missing where that one is missing.
pub proof fn law_interval_sets_hour(params: Params, hours: Hours, substitute: Option<Hours>)
    requires
        !params.extreme_latitude_method.holds_intervals(),
    ensures
        params.intervals.fajr != 0 ==> (adjusted_spec(params, hours, substitute).fajr matches Ok(
            f,
        ) ==> adjusted_spec(params, hours, substitute).shurooq matches Ok(s) && f.value == (s.value
            - params.intervals.fajr) as i64),
        params.intervals.fajr != 0 ==> (adjusted_spec(params, hours, substitute).fajr is Err
            <==> adjusted_spec(params, hours, substitute).shurooq is Err),
        params.intervals.isha != 0 ==> (adjusted_spec(params, hours, substitute).isha matches Ok(
            i,
        ) ==> adjusted_spec(params, hours, substitute).maghrib matches Ok(m) && i.value == (m.value
            + params.intervals.isha) as i64),
        params.intervals.isha != 0 ==> (adjusted_spec(params, hours, substitute).isha is Err
            <==> adjusted_spec(params, hours, substitute).maghrib is Err),
{
}

/// Where no method is configured, or no hour of Fajr, Shurooq, Maghrib and
/// Isha is missing and the method does not override solved hours, and no
/// interval is set, the adjusted hours are the solved hours, none extreme.
pub proof fn law_unneeded_adjustment_changes_nothing(
    params: Params,
    hours: Hours,
    substitute: Option<Hours>,
)
    requires
        !can_adj_spec(hours, params.extreme_latitude_method),
        params.intervals.fajr == 0,
        params.intervals.isha == 0,
    ensures
        adjusted_spec(params, hours, substitute) == hours.unadjusted(),
        forall|p: Prayer| #[trigger]
            hours.at(p) is Ok ==> adjusted_spec(params, hours, substitute).at(p) == Ok::<
                PrayerHour,
                (),
            >(PrayerHour { value: hours.at(p).unwrap(), extreme: false }),
{
}

/// Under the nearest-latitude method for all prayers, with no interval set
/// and Fajr and Isha solved at the nearest latitude, every adjusted hour is
/// the hour solved at the nearest latitude, and extreme.
pub proof fn law_nearest_latitude_for_all(params: Params, hours: Hours, adj: Hours, prayer: Prayer)
    requires
        params.extreme_latitude_method is NearestLatitudeAllPrayersAlways,
        params.intervals.fajr == 0,
        params.intervals.isha == 0,
        adj.fajr is Ok,
        adj.isha is Ok,
        prayer != Prayer::Imsaak,
    ensures
        adjusted_spec(params, hours, Some(adj)).at(prayer) == substituted(adj.at(prayer)),
{
}

/// An hour that the adjustment leaves missing was missing before or was taken
/// from a missing hour: the adjustment never drops the solved Dhuhr or Asr of
/// a day unless the method replaces all prayers, and never Shurooq or Maghrib
/// unless the method replaces all prayers.
pub proof fn law_adjustment_keeps_day_prayers(
    params: Params,
    hours: Hours,
    substitute: Option<Hours>,
    prayer: Prayer,
)
    requires
        prayer == Prayer::Shurooq || prayer == Prayer::Dhuhr || prayer == Prayer::Asr || prayer
            == Prayer::Maghrib,
        !(params.extreme_latitude_method is NearestLatitudeAllPrayersAlways),
        !(params.extreme_latitude_method is NearestGoodDayAllPrayersAlways),
    ensures
        adjusted_spec(params, hours, substitute).at(prayer) == plain(hours.at(prayer)),
{
}

/// An adjusted hour that is not extreme is the hour that was solved for the
/// day, unless the interval step set it: whatever a method sets is extreme.
pub proof fn law_plain_hours_are_solved(
    params: Params,
    hours: Hours,
    substitute: Option<Hours>,
    prayer: Prayer,
)
    requires
        adjusted_spec(params, hours, substitute).at(prayer) matches Ok(h) && !h.extreme,
        !interval_applies(params, prayer),
    ensures
        adjusted_spec(params, hours, substitute).at(prayer) == plain(hours.at(prayer)),
{
}

/// A prayer whose hour could not be solved and that has an hour after the
/// adjustment has an extreme one, unless the interval step set it.
pub proof fn law_resolved_hours_are_extreme(
    params: Params,
    hours: Hours,
    substitute: Option<Hours>,
    prayer: Prayer,
)
    requires
        hours.at(prayer) is Err,
        adjusted_spec(params, hours, substitute).at(prayer) is Ok,
        !interval_applies(params, prayer),
    ensures
        adjusted_spec(params, hours, substitute).at(prayer).unwrap().extreme,
{
}

/// Without a method nothing is resolved: an hour that could not be solved
/// stays missing, unless the interval step sets it.
pub proof fn law_no_method_resolves_nothing(
    params: Params,
    hours: Hours,
    substitute: Option<Hours>,
    prayer: Prayer,
)
    requires
        params.extreme_latitude_method is NoAdjustment,
        !interval_applies(params, prayer),
    ensures
        adjusted_spec(params, hours, substitute).at(prayer) == plain(hours.at(prayer)),
{
}

/// Whether `solve` can stand for the solver of prayer hours: it can be called
/// on every input, and the hours that it returns are small enough to compute
/// with.
pub open spec fn is_solver<S: Fn(Params, JulianDay, Coordinates, Weather) -> Hours>(
    solve: &S,
) -> bool {
    &&& forall|p: Params, j: JulianDay, c: Coordinates, w: Weather| #[trigger]
        call_requires(*solve, (p, j, c, w))
    &&& forall|p: Params, j: JulianDay, c: Coordinates, w: Weather, h: Hours| #[trigger]
        call_ensures(*solve, (p, j, c, w), h) ==> h.in_bounds()
}

/// Whether `solve` returns one result on each input.
pub open spec fn is_deterministic<S: Fn(Params, JulianDay, Coordinates, Weather) -> Hours>(
    solve: &S,
) -> bool {
    forall|p: Params, j: JulianDay, c: Coordinates, w: Weather, h1: Hours, h2: Hours|
        (#[trigger] call_ensures(*solve, (p, j, c, w), h1) && #[trigger] call_ensures(
            *solve,
            (p, j, c, w),
            h2,
        )) ==> h1 == h2
}

/// Whether `probe` is the day `distance` days before or after `julian_day`,
/// within as many days as `julian_day` lies into its year.
pub open spec fn is_probe(julian_day: JulianDay, distance: int, probe: JulianDay) -> bool {
    &&& 0 <= distance <= julian_day.date.ordinal_spec()
    &&& julian_day.earlier(distance, probe) || julian_day.later(distance, probe)
}

/// Whether Fajr and Isha are both solved: the mark of a good day.
pub fn is_good_day(hours: &Hours) -> (b: bool)
    ensures
        b == hours.is_good_day(),
{
    hours.fajr.is_ok() && hours.isha.is_ok()
}

/// Solves the hours of `julian_day` and returns them where the day is a good
/// day.
pub fn test_fajr_isha<S: Fn(Params, JulianDay, Coordinates, Weather) -> Hours>(
    params: &Params,
    coords: Coordinates,
    weather: Weather,
    julian_day: JulianDay,
    solve: &S,
) -> (r: Option<Hours>)
    requires
        is_solver(solve),
    ensures
        match r {
            Some(h) => h.is_good_day() && h.in_bounds() && call_ensures(
                *solve,
                (*params, julian_day, coords, weather),
                h,
            ),
            None => exists|h: Hours| #[trigger]
                call_ensures(*solve, (*params, julian_day, coords, weather), h)
                    && !h.is_good_day(),
        },
{
    let hours = solve(*params, julian_day, coords, weather);
    if is_good_day(&hours) {
        Some(hours)
    } else {
        None
    }
}

/// Whether `solve` has returned, for the day `probe`, hours that are not those
/// of a good day.
pub open spec fn failed_at<S: Fn(Params, JulianDay, Coordinates, Weather) -> Hours>(
    params: Params,
    probe: JulianDay,
    coords: Coordinates,
    weather: Weather,
    solve: &S,
) -> bool {
    exists|h: Hours| #[trigger]
        call_ensures(*solve, (params, probe, coords, weather), h) && !h.is_good_day()
}

/// Whether every day of the search up to the distance `reach`, the days at
/// `reach` days themselves left out, was solved and found not to be a good
/// day.
pub open spec fn failed_below<S: Fn(Params, JulianDay, Coordinates, Weather) -> Hours>(
    params: Params,
    julian_day: JulianDay,
    coords: Coordinates,
    weather: Weather,
    solve: &S,
    reach: int,
) -> bool {
    forall|distance: int, probe: JulianDay|
        distance < reach && #[trigger] is_probe(julian_day, distance, probe) ==> failed_at(
            params,
            probe,
            coords,
            weather,
            solve,
        )
}

/// What the search of the nearest good day returns. Where it returns hours,
/// they are the hours of a good day that `solve` returned for a day of the
/// search; every day nearer to `julian_day` was solved and was not good, and
/// so was the day as far before `julian_day` where the hours are those of the
/// day after it. Where it returns none, every day of the search was solved
/// and was not good.
pub open spec fn search_result<S: Fn(Params, JulianDay, Coordinates, Weather) -> Hours>(
    params: Params,
    julian_day: JulianDay,
    coords: Coordinates,
    weather: Weather,
    solve: &S,
    r: Option<Hours>,
) -> bool {
    match r {
        Some(h) => h.is_good_day() && h.in_bounds() && exists|distance: int, probe: JulianDay|
            {
                &&& #[trigger] is_probe(julian_day, distance, probe)
                &&& call_ensures(*solve, (params, probe, coords, weather), h)
                &&& failed_below(params, julian_day, coords, weather, solve, distance)
                &&& julian_day.earlier(distance, probe) || forall|before: JulianDay| #[trigger]
                    julian_day.earlier(distance, before) ==> failed_at(
                        params,
                        before,
                        coords,
                        weather,
                        solve,
                    )
            },
        None => failed_below(
            params,
            julian_day,
            coords,
            weather,
            solve,
            julian_day.date.ordinal_spec() + 1,
        ),
    }
}

/// Searches the nearest good day: the days 0, 1, 2 and so on before and after
/// `julian_day`, the earlier day first, up to as many days as `julian_day`
/// lies into its year. It returns the solved hours of the first good day it
/// meets. A day outside the calendar is passed over.
pub fn nearest_good_day<S: Fn(Params, JulianDay, Coordinates, Weather) -> Hours>(
    params: &Params,
    julian_day: JulianDay,
    coords: Coordinates,
    weather: Weather,
    solve: &S,
) -> (r: Option<Hours>)
    requires
        is_solver(solve),
        julian_day.in_bounds(),
    ensures
        search_result(*params, julian_day, coords, weather, solve, r),
{
    let ordinal = julian_day.date.ordinal();
    let mut i: u32 = 0;
    while i <= ordinal
        invariant
            is_solver(solve),
            julian_day.in_bounds(),
            ordinal == julian_day.date.ordinal_spec(),
            ordinal <= 366,
            i <= ordinal + 1,
            failed_below(*params, julian_day, coords, weather, solve, i as int),
        decreases ordinal + 1 - i,
    {
        let before = julian_day.checked_sub(i as u64);
        if let Some(probe) = before {
            if let Some(hours) = test_fajr_isha(params, coords, weather, probe, solve) {
                assert(is_probe(julian_day, i as int, probe));
                return Some(hours);
            }
        }
        assert forall|other: JulianDay| #[trigger] julian_day.earlier(i as int, other) implies failed_at(
            *params,
            other,
            coords,
            weather,
            solve,
        ) by {
            match before {
                Some(probe) => {
                    crate::geo::julian_day::lemma_shift_unique(julian_day, i as int, other, probe);
                },
                None => {
                    crate::geo::julian_day::lemma_day_number_range(other.date);
                },
            }
        }
        let after = julian_day.checked_add(i as u64);
        if let Some(probe) = after {
            if let Some(hours) = test_fajr_isha(params, coords, weather, probe, solve) {
                assert(is_probe(julian_day, i as int, probe));
                return Some(hours);
            }
        }
        assert forall|other: JulianDay| #[trigger] julian_day.later(i as int, other) implies failed_at(
            *params,
            other,
            coords,
            weather,
            solve,
        ) by {
            match after {
                Some(probe) => {
                    crate::geo::julian_day::lemma_shift_unique(julian_day, i as int, other, probe);
                },
                None => {
                    crate::geo::julian_day::lemma_day_number_range(other.date);
                },
            }
        }
        i += 1;
    }
    None
}

/// The place `coords` moved to the latitude `latitude`.
pub fn at_latitude(coords: Coordinates, latitude: Latitude) -> (r: Coordinates)
    ensures
        r == (Coordinates { latitude, ..coords }),
{
    Coordinates { latitude, ..coords }
}

/// What [`adj_for_ext_lat`] returns: the adjusted hours for the substitute
/// that the method needs, the substitute being what `solve` returned at the
/// nearest latitude, or the good day that the search met, if any.
pub open spec fn adjusted_with<S: Fn(Params, JulianDay, Coordinates, Weather) -> Hours>(
    params: Params,
    hours: Hours,
    julian_day: JulianDay,
    coords: Coordinates,
    weather: Weather,
    solve: &S,
    r: PrayerHours,
) -> bool {
    match substitute_for_spec(hours, params.extreme_latitude_method) {
        Substitute::NotNeeded => r == adjusted_spec(params, hours, None),
        Substitute::NearestLatitude(latitude) => exists|adj: Hours| #[trigger]
            call_ensures(
                *solve,
                (params, julian_day, (Coordinates { latitude, ..coords }), weather),
                adj,
            ) && r == adjusted_spec(params, hours, Some(adj)),
        Substitute::NearestGoodDay => exists|found: Option<Hours>| #[trigger]
            search_result(params, julian_day, coords, weather, solve, found) && r
                == adjusted_spec(params, hours, found),
    }
}

/// Adjusts the solved hours of a day by the configured method, solving the
/// substitute that the method needs with `solve`.
pub fn adj_for_ext_lat<S: Fn(Params, JulianDay, Coordinates, Weather) -> Hours>(
    params: &Params,
    hours: &Hours,
    julian_day: JulianDay,
    coords: Coordinates,
    weather: Weather,
    solve: &S,
) -> (r: PrayerHours)
    requires
        is_solver(solve),
        params.in_bounds(),
        hours.in_bounds(),
        julian_day.in_bounds(),
    ensures
        adjusted_with(*params, *hours, julian_day, coords, weather, solve, r),
        r.within(ADJUSTED_BOUND as int),
{
    match substitute_for(hours, params.extreme_latitude_method) {
        Substitute::NotNeeded => adjust(params, hours, &None),
        Substitute::NearestLatitude(latitude) => {
            let adj = solve(*params, julian_day, at_latitude(coords, latitude), weather);
            adjust(params, hours, &Some(adj))
        },
        Substitute::NearestGoodDay => {
            let found = nearest_good_day(params, julian_day, coords, weather, solve);
            adjust(params, hours, &found)
        },
    }
}

/// For a solver that returns one result on each input, the search of the
/// nearest good day has one result.
pub proof fn law_search_is_determined<S: Fn(Params, JulianDay, Coordinates, Weather) -> Hours>(
    params: Params,
    julian_day: JulianDay,
    coords: Coordinates,
    weather: Weather,
    solve: &S,
    first: Option<Hours>,
    second: Option<Hours>,
)
    requires
        is_deterministic(solve),
        search_result(params, julian_day, coords, weather, solve, first),
        search_result(params, julian_day, coords, weather, solve, second),
    ensures
        first == second,
{
    match (first, second) {
        (Some(h1), Some(h2)) => {
            let (d1, p1) = choose|distance: int, probe: JulianDay|
                {
                    &&& #[trigger] is_probe(julian_day, distance, probe)
                    &&& call_ensures(*solve, (params, probe, coords, weather), h1)
                    &&& failed_below(params, julian_day, coords, weather, solve, distance)
                    &&& julian_day.earlier(distance, probe) || forall|before: JulianDay| #[trigger]
                        julian_day.earlier(distance, before) ==> failed_at(
                            params,
                            before,
                            coords,
                            weather,
                            solve,
                        )
                };
            let (d2, p2) = choose|distance: int, probe: JulianDay|
                {
                    &&& #[trigger] is_probe(julian_day, distance, probe)
                    &&& call_ensures(*solve, (params, probe, coords, weather), h2)
                    &&& failed_below(params, julian_day, coords, weather, solve, distance)
                    &&& julian_day.earlier(distance, probe) || forall|before: JulianDay| #[trigger]
                        julian_day.earlier(distance, before) ==> failed_at(
                            params,
                            before,
                            coords,
                            weather,
                            solve,
                        )
                };
            lemma_good_day_has_not_failed(params, p1, coords, weather, solve, h1);
            lemma_good_day_has_not_failed(params, p2, coords, weather, solve, h2);
            if d1 < d2 {
                assert(failed_at(params, p1, coords, weather, solve));
            } else if d2 < d1 {
                assert(failed_at(params, p2, coords, weather, solve));
            } else if julian_day.earlier(d1, p1) && julian_day.earlier(d2, p2) {
                crate::geo::julian_day::lemma_shift_unique(julian_day, d1, p1, p2);
            } else if julian_day.later(d1, p1) && julian_day.later(d2, p2) {
                crate::geo::julian_day::lemma_shift_unique(julian_day, d1, p1, p2);
            } else if julian_day.earlier(d1, p1) {
                assert(failed_at(params, p1, coords, weather, solve));
            } else {
                assert(failed_at(params, p2, coords, weather, solve));
            }
        },
        (Some(h1), None) => {
            let (d1, p1) = choose|distance: int, probe: JulianDay| #[trigger]
                is_probe(julian_day, distance, probe) && call_ensures(
                    *solve,
                    (params, probe, coords, weather),
                    h1,
                );
            lemma_good_day_has_not_failed(params, p1, coords, weather, solve, h1);
            assert(failed_at(params, p1, coords, weather, solve));
        },
        (None, Some(h2)) => {
            let (d2, p2) = choose|distance: int, probe: JulianDay| #[trigger]
                is_probe(julian_day, distance, probe) && call_ensures(
                    *solve,
                    (params, probe, coords, weather),
                    h2,
                );
            lemma_good_day_has_not_failed(params, p2, coords, weather, solve, h2);
            assert(failed_at(params, p2, coords, weather, solve));
        },
        (None, None) => {},
    }
}

proof fn lemma_good_day_has_not_failed<S: Fn(Params, JulianDay, Coordinates, Weather) -> Hours>(
    params: Params,
    probe: JulianDay,
    coords: Coordinates,
    weather: Weather,
    solve: &S,
    hours: Hours,
)
    requires
        is_deterministic(solve),
        call_ensures(*solve, (params, probe, coords, weather), hours),
        hours.is_good_day(),
    ensures
        !failed_at(params, probe, coords, weather, solve),
{
    if failed_at(params, probe, coords, weather, solve) {
        let other = choose|h: Hours| #[trigger]
            call_ensures(*solve, (params, probe, coords, weather), h) && !h.is_good_day();
    }
}

/// For a solver that returns one result on each input, the adjustment of the
/// solved hours of a day has one result.
pub proof fn law_adjustment_is_determined<S: Fn(Params, JulianDay, Coordinates, Weather) -> Hours>(
    params: Params,
    hours: Hours,
    julian_day: JulianDay,
    coords: Coordinates,
    weather: Weather,
    solve: &S,
    first: PrayerHours,
    second: PrayerHours,
)
    requires
        is_deterministic(solve),
        adjusted_with(params, hours, julian_day, coords, weather, solve, first),
        adjusted_with(params, hours, julian_day, coords, weather, solve, second),
    ensures
        first == second,
{
    match substitute_for_spec(hours, params.extreme_latitude_method) {
        Substitute::NotNeeded => {},
        Substitute::NearestLatitude(latitude) => {
            let there = Coordinates { latitude, ..coords };
            let a1 = choose|adj: Hours| #[trigger]
                call_ensures(*solve, (params, julian_day, there, weather), adj) && first
                    == adjusted_spec(params, hours, Some(adj));
            let a2 = choose|adj: Hours| #[trigger]
                call_ensures(*solve, (params, julian_day, there, weather), adj) && second
                    == adjusted_spec(params, hours, Some(adj));
        },
        Substitute::NearestGoodDay => {
            let f1 = choose|found: Option<Hours>| #[trigger]
                search_result(params, julian_day, coords, weather, solve, found) && first
                    == adjusted_spec(params, hours, found);
            let f2 = choose|found: Option<Hours>| #[trigger]
                search_result(params, julian_day, coords, weather, solve, found) && second
                    == adjusted_spec(params, hours, found);
            law_search_is_determined(params, julian_day, coords, weather, solve, f1, f2);
        },
    }
}

} // verus!
