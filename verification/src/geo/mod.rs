//! Geographical values: coordinates, weather, the Julian day and the Qibla rotation.

pub mod coordinates;
pub mod julian_day;
pub mod qibla;
pub mod weather;

pub use coordinates::{
    nearest_latitude, Coordinates, Direction, Elevation, GeoAngle, Gmt, Latitude, Location,
    Longitude, NEAREST_LATITUDE,
};
pub use julian_day::JulianDay;
pub use qibla::{Qibla, Rotation};
pub use weather::{Pressure, Temperature, Weather};
