//! Islamic prayer times calculation parameters.
//!
//! [`Params`] is the set of configurable values of a calculation:
//!
//! * `round_seconds` says how a prayer time is rounded to the minute.
//! * `asr_shadow_ratio` is the school followed for the Asr prayer.
//! * `extreme_latitude_method` says how a prayer time is adjusted where the
//!   conventional calculation has no solution.
//! * `angles` holds, per prayer, the depression of the Sun below the horizon,
//!   in angle units.
//! * `intervals` holds, per prayer, a fixed interval in milliseconds that
//!   replaces the angle: before Shurooq for Fajr, after Maghrib for Isha.
//! * `minutes` holds, per prayer, an offset in milliseconds that is added to
//!   the calculated time.
//!
//! [`Params::new`] fills them from a [`Method`]. All fields are public and can
//! be set afterwards.

use vstd::prelude::*;
use crate::geo::coordinates::Latitude;
use crate::prayer_times::Prayer;
use crate::units::{ANGLE_BOUND, TIME_BOUND};

verus! {

/// A named set of calculation values.
#[derive(Debug, Clone, Copy, PartialEq, Eq, Structural)]
pub enum Method {
    /// No angles set
    Unset,
    /// Egyptian General Authority of Survey
    ///
    /// Used in: Indonesia, Iraq, Jordan, Lebanon, Malaysia, Singapore, Syria, parts of Africa, parts of the United States
    Egyptian,
    /// Egyptian General Authority of Survey
    ///
    /// Used in: Egypt
    Egypt,
    /// University of Islamic Sciences, Karachi (Shafi)
    ///
    /// Used in: Iran, Kuwait, parts of Europe
    Shafi,
    /// University of Islamic Sciences, Karachi (Hanafi)
    ///
    /// Used in: Afghanistan, Bangladesh, India
    Hanafi,
    /// Islamic Society of North America
    ///
    /// Used in: Canada, parts of the UK, parts of the United States
    Isna,
    /// Muslim World League
    ///
    /// Used in: Canada, parts of the UK, parts of the United States
    Mwl,
    /// Umm Al-Qurra University
    ///
    /// Used in: Saudi Arabia
    UmmAlQurra,
    /// Fixed Ishaa Angle Interval
    ///
    /// Used in: Bahrain, Oman, Qatar, United Arab Emirates
    FixedIsha,
}

/// How prayer times are adjusted where the conventional calculation has no
/// solution, which happens at latitudes of about 49 degrees and above.
#[derive(Debug, Clone, Copy, PartialEq, Eq, Structural)]
pub enum ExtremeLatitudeMethod {
    /// No adjustment. Prayer times can be invalid.
    NoAdjustment,
    /// Apply a portion of the night based on the angles for Fajr and Isha prayer
    /// times only if their calculated prayer times are invalid.
    AngleBased,
    /// Apply the nearest `Latitude` to all prayer times always.
    NearestLatitudeAllPrayersAlways(Latitude),
    /// Apply the nearest `Latitude` to Fajr and Isha prayer times always.
    NearestLatitudeFajrIshaAlways(Latitude),
    /// Apply the nearest `Latitude` only to an invalid Fajr or Isha prayer time.
    NearestLatitudeFajrIshaInvalid(Latitude),
    /// Apply nearest good day prayer time to all prayer times always.
    NearestGoodDayAllPrayersAlways,
    /// Apply nearest good day prayer time only to an invalid Fajr or Isha prayer time.
    NearestGoodDayFajrIshaInvalid,
    /// Apply one-seventh of the night adjustment to Fajr and Isha prayer times always.
    SeventhOfNightFajrIshaAlways,
    /// Apply one-seventh of the night adjustment only to an invalid Fajr or Isha prayer time.
    SeventhOfNightFajrIshaInvalid,
    /// Apply one-seventh of the day adjustment to Fajr and Isha prayer times always.
    SeventhOfDayFajrIshaAlways,
    /// Apply one-seventh of the day adjustment only to an invalid Fajr or Isha prayer time.
    SeventhOfDayFajrIshaInvalid,
    /// Apply one-half of the night adjustment to Fajr and Isha prayer times always.
    HalfOfNightFajrIshaAlways,
    /// Apply one-half of the night adjustment only to an invalid Fajr or Isha prayer time.
    HalfOfNightFajrIshaInvalid,
    /// Set Fajr and Isha to Shurooq and Maghrib always; the Fajr and Isha
    /// intervals then move them.
    MinutesFromMaghribFajrIshaAlways,
    /// Set an invalid Fajr or Isha to Shurooq less the Fajr interval or to
    /// Maghrib plus the Isha interval.
    MinutesFromMaghribFajrIshaInvalid,
}

impl ExtremeLatitudeMethod {
    /// Whether the method overrides prayer times that were computed.
    pub open spec fn is_always(self) -> bool {
        match self {
            ExtremeLatitudeMethod::NearestLatitudeAllPrayersAlways(_) => true,
            ExtremeLatitudeMethod::NearestLatitudeFajrIshaAlways(_) => true,
            ExtremeLatitudeMethod::NearestGoodDayAllPrayersAlways => true,
            ExtremeLatitudeMethod::SeventhOfNightFajrIshaAlways => true,
            ExtremeLatitudeMethod::SeventhOfDayFajrIshaAlways => true,
            ExtremeLatitudeMethod::HalfOfNightFajrIshaAlways => true,
            ExtremeLatitudeMethod::MinutesFromMaghribFajrIshaAlways => true,
            _ => false,
        }
    }

    /// Whether the method replaces only prayer times that could not be computed.
    pub open spec fn is_invalid_only(self) -> bool {
        match self {
            ExtremeLatitudeMethod::NearestLatitudeFajrIshaInvalid(_) => true,
            ExtremeLatitudeMethod::NearestGoodDayFajrIshaInvalid => true,
            ExtremeLatitudeMethod::SeventhOfNightFajrIshaInvalid => true,
            ExtremeLatitudeMethod::SeventhOfDayFajrIshaInvalid => true,
            ExtremeLatitudeMethod::HalfOfNightFajrIshaInvalid => true,
            ExtremeLatitudeMethod::MinutesFromMaghribFajrIshaInvalid => true,
            _ => false,
        }
    }

    /// Whether the method sets Fajr and Isha from their intervals itself, so
    /// that the intervals are not applied once more afterwards.
    pub open spec fn holds_intervals(self) -> bool {
        match self {
            ExtremeLatitudeMethod::MinutesFromMaghribFajrIshaInvalid => true,
            ExtremeLatitudeMethod::HalfOfNightFajrIshaInvalid => true,
            ExtremeLatitudeMethod::HalfOfNightFajrIshaAlways => true,
            _ => false,
        }
    }

    /// The latitude that a nearest-latitude method carries.
    pub open spec fn nearest_latitude(self) -> Option<Latitude> {
        match self {
            ExtremeLatitudeMethod::NearestLatitudeAllPrayersAlways(l) => Some(l),
            ExtremeLatitudeMethod::NearestLatitudeFajrIshaAlways(l) => Some(l),
            ExtremeLatitudeMethod::NearestLatitudeFajrIshaInvalid(l) => Some(l),
            _ => None,
        }
    }

    /// Whether the method takes prayer times from the nearest day on which
    /// Fajr and Isha can both be computed.
    pub open spec fn is_nearest_good_day(self) -> bool {
        match self {
            ExtremeLatitudeMethod::NearestGoodDayAllPrayersAlways => true,
            ExtremeLatitudeMethod::NearestGoodDayFajrIshaInvalid => true,
            _ => false,
        }
    }
}

/// How the seconds of a prayer time are rounded.
#[derive(Debug, Clone, Copy, PartialEq, Eq, Structural)]
pub enum RoundSeconds {
    /// No rounding
    NoRounding,
    /// Round a prayer time up to the nearest minute if its seconds are greater than
    /// or equal to 30.
    NormalRounding,
    /// Round a Fajr, Dhuhr, Asr, Maghrib, or Isha prayer time up to the nearest minute
    /// if its seconds are greater than or equal to 30.
    SpecialRounding,
    /// Round a Fajr, Dhuhr, Asr, Maghrib, or Isha prayer time up to the nearest minute
    /// if its seconds are greater than or equal to 1.
    AggressiveRounding,
}

/// The school followed for the length of the shadow at the Asr prayer.
#[derive(Debug, Clone, Copy, PartialEq, Eq, Structural)]
pub enum AsrShadowRatio {
    /// Shafi school: the shadow is as long as the object.
    Shafi,
    /// Hanafi school: the shadow is twice as long as the object.
    Hanafi,
}

impl AsrShadowRatio {
    /// The length of the shadow in lengths of the object: 1 or 2.
    pub fn ratio(&self) -> (r: u8)
        ensures
            r == (match *self {
                AsrShadowRatio::Shafi => 1u8,
                AsrShadowRatio::Hanafi => 2u8,
            }),
    {
        match self {
            AsrShadowRatio::Shafi => 1,
            AsrShadowRatio::Hanafi => 2,
        }
    }
}

/// One number for each prayer.
#[derive(Debug, Clone, Copy, PartialEq, Eq, Structural)]
pub struct PrayerValues {
    pub imsaak: i64,
    pub fajr: i64,
    pub shurooq: i64,
    pub dhuhr: i64,
    pub asr: i64,
    pub maghrib: i64,
    pub isha: i64,
}

impl PrayerValues {
    /// The number held for `prayer`.
    pub open spec fn at(self, prayer: Prayer) -> i64 {
        match prayer {
            Prayer::Imsaak => self.imsaak,
            Prayer::Fajr => self.fajr,
            Prayer::Shurooq => self.shurooq,
            Prayer::Dhuhr => self.dhuhr,
            Prayer::Asr => self.asr,
            Prayer::Maghrib => self.maghrib,
            Prayer::Isha => self.isha,
        }
    }

    /// These values with the number for `prayer` replaced by `value`.
    pub open spec fn with(self, prayer: Prayer, value: i64) -> PrayerValues {
        match prayer {
            Prayer::Imsaak => PrayerValues { imsaak: value, ..self },
            Prayer::Fajr => PrayerValues { fajr: value, ..self },
            Prayer::Shurooq => PrayerValues { shurooq: value, ..self },
            Prayer::Dhuhr => PrayerValues { dhuhr: value, ..self },
            Prayer::Asr => PrayerValues { asr: value, ..self },
            Prayer::Maghrib => PrayerValues { maghrib: value, ..self },
            Prayer::Isha => PrayerValues { isha: value, ..self },
        }
    }

    /// Whether every number lies between `-bound` and `bound`.
    pub open spec fn within(self, bound: int) -> bool {
        forall|p: Prayer| -bound <= #[trigger] self.at(p) <= bound
    }

    /// Values within a bound stay within it where one of them is replaced by
    /// a number within the bound.
    pub proof fn lemma_with_within(self, prayer: Prayer, value: i64, bound: int)
        requires
            self.within(bound),
            -bound <= value <= bound,
        ensures
            self.with(prayer, value).within(bound),
    {
        assert forall|p: Prayer| -bound <= #[trigger] self.with(prayer, value).at(p) <= bound by {
            assert(self.with(prayer, value).at(p) == (if p == prayer {
                value
            } else {
                self.at(p)
            }));
        }
    }

    /// Values within a bound lie within every greater bound.
    pub proof fn lemma_within_wider(self, bound: int, wider: int)
        requires
            self.within(bound),
            bound <= wider,
        ensures
            self.within(wider),
    {
        assert forall|p: Prayer| -wider <= #[trigger] self.at(p) <= wider by {
            assert(-bound <= self.at(p) <= bound);
        }
    }

    /// Whether every number lies between `-bound` and `bound`.
    pub fn is_within(&self, bound: i64) -> (b: bool)
        requires
            bound >= 0,
        ensures
            b == self.within(bound as int),
    {
        let b = -bound <= self.imsaak && self.imsaak <= bound && -bound <= self.fajr && self.fajr
            <= bound && -bound <= self.shurooq && self.shurooq <= bound && -bound <= self.dhuhr
            && self.dhuhr <= bound && -bound <= self.asr && self.asr <= bound && -bound
            <= self.maghrib && self.maghrib <= bound && -bound <= self.isha && self.isha <= bound;
        proof {
            if b {
                assert forall|p: Prayer| -bound <= #[trigger] self.at(p) <= bound by {}
            } else {
                assert(self.at(Prayer::Imsaak) == self.imsaak);
                assert(self.at(Prayer::Fajr) == self.fajr);
                assert(self.at(Prayer::Shurooq) == self.shurooq);
                assert(self.at(Prayer::Dhuhr) == self.dhuhr);
                assert(self.at(Prayer::Asr) == self.asr);
                assert(self.at(Prayer::Maghrib) == self.maghrib);
                assert(self.at(Prayer::Isha) == self.isha);
            }
        }
        b
    }

    /// Zero for every prayer.
    pub open spec fn zeros() -> PrayerValues {
        PrayerValues { imsaak: 0, fajr: 0, shurooq: 0, dhuhr: 0, asr: 0, maghrib: 0, isha: 0 }
    }

    /// Zero for every prayer.
    pub fn zero() -> (r: PrayerValues)
        ensures
            r == Self::zeros(),
    {
        PrayerValues { imsaak: 0, fajr: 0, shurooq: 0, dhuhr: 0, asr: 0, maghrib: 0, isha: 0 }
    }

    /// The number held for `prayer`.
    pub fn get(&self, prayer: Prayer) -> (v: i64)
        ensures
            v == self.at(prayer),
    {
        match prayer {
            Prayer::Imsaak => self.imsaak,
            Prayer::Fajr => self.fajr,
            Prayer::Shurooq => self.shurooq,
            Prayer::Dhuhr => self.dhuhr,
            Prayer::Asr => self.asr,
            Prayer::Maghrib => self.maghrib,
            Prayer::Isha => self.isha,
        }
    }

    /// Replaces the number held for `prayer` by `value`.
    pub fn set(&mut self, prayer: Prayer, value: i64)
        ensures
            *final(self) == old(self).with(prayer, value),
    {
        match prayer {
            Prayer::Imsaak => self.imsaak = value,
            Prayer::Fajr => self.fajr = value,
            Prayer::Shurooq => self.shurooq = value,
            Prayer::Dhuhr => self.dhuhr = value,
            Prayer::Asr => self.asr = value,
            Prayer::Maghrib => self.maghrib = value,
            Prayer::Isha => self.isha = value,
        }
    }
}

/// The configurable values of a calculation.
#[derive(Debug, Clone, Copy, PartialEq, Eq, Structural)]
pub struct Params {
    pub round_seconds: RoundSeconds,
    pub asr_shadow_ratio: AsrShadowRatio,
    pub extreme_latitude_method: ExtremeLatitudeMethod,
    /// Depression of the Sun per prayer, in angle units.
    pub angles: PrayerValues,
    /// Fixed interval per prayer, in milliseconds.
    pub intervals: PrayerValues,
    /// Offset added to the calculated time per prayer, in milliseconds.
    pub minutes: PrayerValues,
}

impl Params {
    /// The angle by which Imsaak precedes Fajr unless set otherwise: 1.5 degrees.
    pub const DEF_IMSAAK_ANGLE: i64 = 1_500_000_000;

    /// The interval by which Imsaak precedes Fajr where no angle applies and
    /// none is set: 1.5 minutes.
    pub const DEF_IMSAAK_INTERVAL: i64 = 90_000;

    /// The Fajr angle of a method, in angle units.
    pub open spec fn fajr_angle(method: Method) -> i64 {
        match method {
            Method::Unset => 0,
            Method::Egyptian => 20_000_000_000,
            Method::Egypt => 19_500_000_000,
            Method::Shafi => 18_000_000_000,
            Method::Hanafi => 18_000_000_000,
            Method::Isna => 15_000_000_000,
            Method::Mwl => 18_000_000_000,
            Method::UmmAlQurra => 18_000_000_000,
            Method::FixedIsha => 19_500_000_000,
        }
    }

    /// The Isha angle of a method, in angle units; zero where Isha follows
    /// Maghrib by a fixed interval.
    pub open spec fn isha_angle(method: Method) -> i64 {
        match method {
            Method::Unset => 0,
            Method::Egyptian => 18_000_000_000,
            Method::Egypt => 17_500_000_000,
            Method::Shafi => 18_000_000_000,
            Method::Hanafi => 18_000_000_000,
            Method::Isna => 15_000_000_000,
            Method::Mwl => 17_000_000_000,
            Method::UmmAlQurra => 0,
            Method::FixedIsha => 0,
        }
    }

    /// The interval from Maghrib to Isha of a method, in milliseconds: ninety
    /// minutes for the two methods that fix it, zero otherwise.
    pub open spec fn isha_interval(method: Method) -> i64 {
        match method {
            Method::UmmAlQurra => 5_400_000,
            Method::FixedIsha => 5_400_000,
            _ => 0,
        }
    }

    /// The values that a method stands for.
    pub open spec fn preset(method: Method) -> Params {
        Params {
            round_seconds: RoundSeconds::SpecialRounding,
            asr_shadow_ratio: if method == Method::Hanafi {
                AsrShadowRatio::Hanafi
            } else {
                AsrShadowRatio::Shafi
            },
            extreme_latitude_method: ExtremeLatitudeMethod::NearestGoodDayFajrIshaInvalid,
            angles: PrayerValues {
                imsaak: Self::DEF_IMSAAK_ANGLE,
                fajr: Self::fajr_angle(method),
                shurooq: 0,
                dhuhr: 0,
                asr: 0,
                maghrib: 0,
                isha: Self::isha_angle(method),
            },
            intervals: PrayerValues {
                imsaak: 0,
                fajr: 0,
                shurooq: 0,
                dhuhr: 0,
                asr: 0,
                maghrib: 0,
                isha: Self::isha_interval(method),
            },
            minutes: PrayerValues {
                imsaak: 0,
                fajr: 0,
                shurooq: 0,
                dhuhr: 0,
                asr: 0,
                maghrib: 0,
                isha: 0,
            },
        }
    }

    /// Whether every angle and every duration is small enough to compute with.
    pub open spec fn in_bounds(self) -> bool {
        &&& self.angles.within(ANGLE_BOUND as int)
        &&& self.intervals.within(TIME_BOUND as int)
        &&& self.minutes.within(TIME_BOUND as int)
    }

    /// Whether every angle and every duration leaves room for the widening by
    /// which Imsaak is derived: each lies within half its bound.
    pub open spec fn leaves_room(self) -> bool {
        &&& self.angles.within(ANGLE_BOUND as int / 2)
        &&& self.intervals.within(TIME_BOUND as int / 2)
        &&& self.minutes.within(TIME_BOUND as int / 2)
    }

    /// Whether every angle and every duration is small enough to compute with.
    pub fn is_in_bounds(&self) -> (b: bool)
        ensures
            b == self.in_bounds(),
    {
        self.angles.is_within(ANGLE_BOUND) && self.intervals.is_within(TIME_BOUND)
            && self.minutes.is_within(TIME_BOUND)
    }

    /// Whether every angle and every duration leaves room for the widening by
    /// which Imsaak is derived.
    pub fn has_room(&self) -> (b: bool)
        ensures
            b == self.leaves_room(),
    {
        self.angles.is_within(ANGLE_BOUND / 2) && self.intervals.is_within(TIME_BOUND / 2)
            && self.minutes.is_within(TIME_BOUND / 2)
    }

    /// The values that `method` stands for.
    pub fn new(method: Method) -> (r: Params)
        ensures
            r == Self::preset(method),
            r.in_bounds(),
            r.leaves_room(),
    {
        let mut asr_shadow_ratio = AsrShadowRatio::Shafi;

        let mut angles = PrayerValues::zero();
        angles.set(Prayer::Imsaak, Self::DEF_IMSAAK_ANGLE);

        let mut intervals = PrayerValues::zero();
        let minutes = PrayerValues::zero();

        match method {
            Method::Unset => {
                angles.set(Prayer::Fajr, 0);
                angles.set(Prayer::Isha, 0);
            },
            Method::Egyptian => {
                angles.set(Prayer::Fajr, 20_000_000_000);
                angles.set(Prayer::Isha, 18_000_000_000);
            },
            Method::Egypt => {
                angles.set(Prayer::Fajr, 19_500_000_000);
                angles.set(Prayer::Isha, 17_500_000_000);
            },
            Method::Shafi => {
                angles.set(Prayer::Fajr, 18_000_000_000);
                angles.set(Prayer::Isha, 18_000_000_000);
            },
            Method::Hanafi => {
                angles.set(Prayer::Fajr, 18_000_000_000);
                angles.set(Prayer::Isha, 18_000_000_000);
                asr_shadow_ratio = AsrShadowRatio::Hanafi;
            },
            Method::Isna => {
                angles.set(Prayer::Fajr, 15_000_000_000);
                angles.set(Prayer::Isha, 15_000_000_000);
            },
            Method::Mwl => {
                angles.set(Prayer::Fajr, 18_000_000_000);
                angles.set(Prayer::Isha, 17_000_000_000);
            },
            Method::UmmAlQurra => {
                angles.set(Prayer::Fajr, 18_000_000_000);
                angles.set(Prayer::Isha, 0);
                intervals.set(Prayer::Isha, 5_400_000);
            },
            Method::FixedIsha => {
                angles.set(Prayer::Fajr, 19_500_000_000);
                angles.set(Prayer::Isha, 0);
                intervals.set(Prayer::Isha, 5_400_000);
            },
        }

        let r = Params {
            round_seconds: RoundSeconds::SpecialRounding,
            asr_shadow_ratio,
            extreme_latitude_method: ExtremeLatitudeMethod::NearestGoodDayFajrIshaInvalid,
            angles,
            intervals,
            minutes,
        };
        proof {
            Self::lemma_preset_in_bounds(method);
        }
        r
    }

    /// Every preset lies within the bounds and leaves room.
    pub proof fn lemma_preset_in_bounds(method: Method)
        ensures
            Self::preset(method).in_bounds(),
            Self::preset(method).leaves_room(),
    {
        let p = Self::preset(method);
        assert forall|q: Prayer|
            -(ANGLE_BOUND as int / 2) <= #[trigger] p.angles.at(q) <= ANGLE_BOUND as int / 2 by {}
        assert forall|q: Prayer|
            -(TIME_BOUND as int / 2) <= #[trigger] p.intervals.at(q) <= TIME_BOUND as int / 2 by {}
        assert forall|q: Prayer|
            -(TIME_BOUND as int / 2) <= #[trigger] p.minutes.at(q) <= TIME_BOUND as int / 2 by {}
    }

    /// Values that leave room lie within the bounds.
    pub proof fn lemma_room_in_bounds(self)
        requires
            self.leaves_room(),
        ensures
            self.in_bounds(),
    {
        self.angles.lemma_within_wider(ANGLE_BOUND as int / 2, ANGLE_BOUND as int);
        self.intervals.lemma_within_wider(TIME_BOUND as int / 2, TIME_BOUND as int);
        self.minutes.lemma_within_wider(TIME_BOUND as int / 2, TIME_BOUND as int);
    }
}

impl Default for Params {
    /// The values of the Islamic Society of North America.
    fn default() -> (r: Params)
        ensures
            r == Params::preset(Method::Isna),
    {
        Params::new(Method::Isna)
    }
}

} // verus!
