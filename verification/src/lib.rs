//! Islamic prayer times on an exact, integer grid.
//!
//! The library holds the calendar arithmetic, the configuration presets, the
//! extreme-latitude adjustment rules and the conversion of prayer hours to
//! wall-clock times. Every quantity is an integer count of a small unit (see
//! [`units`]), so that each rule is stated and proved over mathematical
//! integers. The solar position engine works in floating point and lives with
//! the application; it is handed to the library as the function that solves
//! the hours of a day.

pub mod angle;
pub mod calendar;
pub mod error;
pub mod geo;
pub mod hijri_date;
pub mod math;
pub mod number;
pub mod prayer_times;
pub mod text;
pub mod units;

pub use calendar::CivilDate;
pub use error::{OutOfRangeError, ParseError};
pub use geo::{
    Coordinates, Direction, Elevation, GeoAngle, Gmt, JulianDay, Latitude, Location, Longitude,
    Pressure, Qibla, Rotation, Temperature, Weather, NEAREST_LATITUDE,
};
pub use hijri_date::{HijriDate, HijriDay, HijriMonth};
pub use prayer_times::{
    prayer_times_dt, prayer_times_dt_rng, AsrShadowRatio, DateRange, ExtremeLatitudeMethod,
    Method, Params, Prayer, PrayerTime, PrayerTimes, PrayerValues, RoundSeconds,
};
