//! Geographical location types.
//!
//! Angles are counted in angle units (thousand-millionths of a degree),
//! heights in millimetres and the offset from Greenwich in milliseconds.

use vstd::prelude::*;
use vstd::std_specs::convert::{FromSpecImpl, TryFromSpecImpl};
use vstd::string::{StringExecFns, StringSliceAdditionalSpecFns};
use std::str::FromStr;
use crate::error::{out_of_range_text, OutOfRangeError, ParseError};
use crate::number::parse_units;
use crate::text::{decimal, push_decimal, push_signed_decimal, signed_decimal};
use crate::units::{DEGREE, METRE, MS_PER_HOUR};

verus! {

/// One of the four cardinal directions.
#[derive(Debug, Clone, Copy, PartialEq, Eq, Structural)]
pub enum Direction {
    North,
    South,
    East,
    West,
}

/// An angle on the globe that lies on one side of its reference line.
pub trait GeoAngle {
    /// The side of the reference line on which the angle lies.
    fn direction(&self) -> Direction;
}

/// The magnitude of `value` in whole units of `unit`, halves rounded up.
pub open spec fn rounded_magnitude(value: int, unit: int) -> int {
    ((if value < 0 {
        -value
    } else {
        value
    }) + unit / 2) / unit
}

/// `value` in whole units of `unit`, halves rounded away from zero.
pub open spec fn rounded(value: int, unit: int) -> int {
    if value < 0 {
        -rounded_magnitude(value, unit)
    } else {
        rounded_magnitude(value, unit)
    }
}

/// The offset of local clocks from Greenwich Mean Time, east positive, in
/// milliseconds.
#[derive(Debug, Clone, Copy, PartialEq, Eq, Structural)]
pub struct Gmt(i64);

impl View for Gmt {
    type V = int;

    closed spec fn view(&self) -> int {
        self.0 as int
    }
}

impl Gmt {
    /// Twelve hours behind Greenwich.
    pub const MIN: i64 = -43_200_000;

    /// Twelve hours ahead of Greenwich.
    pub const MAX: i64 = 43_200_000;

    #[verifier::type_invariant]
    spec fn in_bounds(self) -> bool {
        Self::MIN <= self.0 <= Self::MAX
    }

    /// The value made of `value` milliseconds.
    pub closed spec fn of(value: i64) -> Gmt {
        Gmt(value)
    }

    /// The view of a value is the number it was made of.
    pub broadcast proof fn lemma_view_of(value: i64)
        ensures
            #[trigger] Self::of(value)@ == value,
    {
    }

    /// Two values of the same view are the same value.
    pub proof fn lemma_view_injective(a: Gmt, b: Gmt)
        requires
            a@ == b@,
        ensures
            a == b,
    {
    }

    /// What a checked construction returns for `value`: the value inside the
    /// range, the range itself outside it.
    pub open spec fn checked(value: i64) -> Result<Gmt, OutOfRangeError<i64>> {
        if Self::MIN <= value <= Self::MAX {
            Ok(Self::of(value))
        } else {
            Err(OutOfRangeError { low: Self::MIN, high: Self::MAX })
        }
    }

    /// Makes the value of `value` milliseconds, or returns the accepted range when
    /// `value` lies outside it.
    pub fn new(value: i64) -> (r: Result<Gmt, OutOfRangeError<i64>>)
        ensures
            r == Self::checked(value),
            r is Ok <==> Self::MIN <= value <= Self::MAX,
            r matches Ok(v) ==> v@ == value,
    {
        if Self::MIN <= value && value <= Self::MAX {
            Ok(Gmt(value))
        } else {
            Err(OutOfRangeError { low: Self::MIN, high: Self::MAX })
        }
    }

    /// The number of milliseconds.
    pub fn value(&self) -> (v: i64)
        ensures
            v == self@,
            Self::MIN <= v <= Self::MAX,
    {
        proof {
            use_type_invariant(self);
        }
        self.0
    }
}

impl TryFrom<i64> for Gmt {
    type Error = OutOfRangeError<i64>;

    fn try_from(value: i64) -> (r: Result<Gmt, OutOfRangeError<i64>>) {
        Gmt::new(value)
    }
}

impl TryFromSpecImpl<i64> for Gmt {
    open spec fn obeys_try_from_spec() -> bool {
        true
    }

    open spec fn try_from_spec(value: i64) -> Result<Gmt, OutOfRangeError<i64>> {
        Gmt::checked(value)
    }
}

impl From<Gmt> for i64 {
    fn from(value: Gmt) -> (v: i64) {
        value.value()
    }
}

impl FromSpecImpl<Gmt> for i64 {
    open spec fn obeys_from_spec() -> bool {
        true
    }

    open spec fn from_spec(value: Gmt) -> i64 {
        value@ as i64
    }
}

/// The angular distance of a place north (positive) or south of the Equator,
/// in angle units.
#[derive(Debug, Clone, Copy, PartialEq, Eq, Structural)]
pub struct Latitude(i64);

impl View for Latitude {
    type V = int;

    closed spec fn view(&self) -> int {
        self.0 as int
    }
}

impl Latitude {
    /// 90 degrees south.
    pub const MIN: i64 = -90_000_000_000;

    /// 90 degrees north.
    pub const MAX: i64 = 90_000_000_000;

    #[verifier::type_invariant]
    spec fn in_bounds(self) -> bool {
        Self::MIN <= self.0 <= Self::MAX
    }

    /// The value made of `value` angle units.
    pub closed spec fn of(value: i64) -> Latitude {
        Latitude(value)
    }

    /// The view of a value is the number it was made of.
    pub broadcast proof fn lemma_view_of(value: i64)
        ensures
            #[trigger] Self::of(value)@ == value,
    {
    }

    /// Two values of the same view are the same value.
    pub proof fn lemma_view_injective(a: Latitude, b: Latitude)
        requires
            a@ == b@,
        ensures
            a == b,
    {
    }

    /// What a checked construction returns for `value`: the value inside the
    /// range, the range itself outside it.
    pub open spec fn checked(value: i64) -> Result<Latitude, OutOfRangeError<i64>> {
        if Self::MIN <= value <= Self::MAX {
            Ok(Self::of(value))
        } else {
            Err(OutOfRangeError { low: Self::MIN, high: Self::MAX })
        }
    }

    /// Makes the value of `value` angle units, or returns the accepted range when
    /// `value` lies outside it.
    pub fn new(value: i64) -> (r: Result<Latitude, OutOfRangeError<i64>>)
        ensures
            r == Self::checked(value),
            r is Ok <==> Self::MIN <= value <= Self::MAX,
            r matches Ok(v) ==> v@ == value,
    {
        if Self::MIN <= value && value <= Self::MAX {
            Ok(Latitude(value))
        } else {
            Err(OutOfRangeError { low: Self::MIN, high: Self::MAX })
        }
    }

    /// The number of angle units.
    pub fn value(&self) -> (v: i64)
        ensures
            v == self@,
            Self::MIN <= v <= Self::MAX,
    {
        proof {
            use_type_invariant(self);
        }
        self.0
    }
}

impl TryFrom<i64> for Latitude {
    type Error = OutOfRangeError<i64>;

    fn try_from(value: i64) -> (r: Result<Latitude, OutOfRangeError<i64>>) {
        Latitude::new(value)
    }
}

impl TryFromSpecImpl<i64> for Latitude {
    open spec fn obeys_try_from_spec() -> bool {
        true
    }

    open spec fn try_from_spec(value: i64) -> Result<Latitude, OutOfRangeError<i64>> {
        Latitude::checked(value)
    }
}

impl From<Latitude> for i64 {
    fn from(value: Latitude) -> (v: i64) {
        value.value()
    }
}

impl FromSpecImpl<Latitude> for i64 {
    open spec fn obeys_from_spec() -> bool {
        true
    }

    open spec fn from_spec(value: Latitude) -> i64 {
        value@ as i64
    }
}

impl Default for Latitude {
    /// The Equator.
    fn default() -> (r: Latitude)
        ensures
            r@ == 0,
    {
        Latitude(0)
    }
}

impl GeoAngle for Latitude {
    fn direction(&self) -> (d: Direction)
        ensures
            d == (if self@ >= 0 {
                Direction::North
            } else {
                Direction::South
            }),
    {
        if self.0 >= 0 {
            Direction::North
        } else {
            Direction::South
        }
    }
}

impl Latitude {
    /// The text of the angle: its magnitude in whole degrees, halves rounded
    /// up, and the letter of its direction.
    pub open spec fn text(self) -> Seq<char> {
        decimal(rounded_magnitude(self@, DEGREE as int) as nat) + (if self@ >= 0 {
            " N"@
        } else {
            " S"@
        })
    }

    /// The angle as text, such as `77 N`.
    pub fn to_string(&self) -> (s: String)
        ensures
            s@ == self.text(),
    {
        let v = self.value();
        let magnitude: i64 = if v < 0 {
            -v
        } else {
            v
        };
        let mut out = String::new();
        push_decimal(&mut out, ((magnitude + DEGREE / 2) / DEGREE) as u64);
        out.append(if v >= 0 {
            " N"
        } else {
            " S"
        });
        out
    }
}

/// The angular distance of a place east (positive) or west of the Prime
/// Meridian, in angle units.
#[derive(Debug, Clone, Copy, PartialEq, Eq, Structural)]
pub struct Longitude(i64);

impl View for Longitude {
    type V = int;

    closed spec fn view(&self) -> int {
        self.0 as int
    }
}

impl Longitude {
    /// 180 degrees west.
    pub const MIN: i64 = -180_000_000_000;

    /// 180 degrees east.
    pub const MAX: i64 = 180_000_000_000;

    #[verifier::type_invariant]
    spec fn in_bounds(self) -> bool {
        Self::MIN <= self.0 <= Self::MAX
    }

    /// The value made of `value` angle units.
    pub closed spec fn of(value: i64) -> Longitude {
        Longitude(value)
    }

    /// The view of a value is the number it was made of.
    pub broadcast proof fn lemma_view_of(value: i64)
        ensures
            #[trigger] Self::of(value)@ == value,
    {
    }

    /// Two values of the same view are the same value.
    pub proof fn lemma_view_injective(a: Longitude, b: Longitude)
        requires
            a@ == b@,
        ensures
            a == b,
    {
    }

    /// What a checked construction returns for `value`: the value inside the
    /// range, the range itself outside it.
    pub open spec fn checked(value: i64) -> Result<Longitude, OutOfRangeError<i64>> {
        if Self::MIN <= value <= Self::MAX {
            Ok(Self::of(value))
        } else {
            Err(OutOfRangeError { low: Self::MIN, high: Self::MAX })
        }
    }

    /// Makes the value of `value` angle units, or returns the accepted range when
    /// `value` lies outside it.
    pub fn new(value: i64) -> (r: Result<Longitude, OutOfRangeError<i64>>)
        ensures
            r == Self::checked(value),
            r is Ok <==> Self::MIN <= value <= Self::MAX,
            r matches Ok(v) ==> v@ == value,
    {
        if Self::MIN <= value && value <= Self::MAX {
            Ok(Longitude(value))
        } else {
            Err(OutOfRangeError { low: Self::MIN, high: Self::MAX })
        }
    }

    /// The number of angle units.
    pub fn value(&self) -> (v: i64)
        ensures
            v == self@,
            Self::MIN <= v <= Self::MAX,
    {
        proof {
            use_type_invariant(self);
        }
        self.0
    }
}

impl TryFrom<i64> for Longitude {
    type Error = OutOfRangeError<i64>;

    fn try_from(value: i64) -> (r: Result<Longitude, OutOfRangeError<i64>>) {
        Longitude::new(value)
    }
}

impl TryFromSpecImpl<i64> for Longitude {
    open spec fn obeys_try_from_spec() -> bool {
        true
    }

    open spec fn try_from_spec(value: i64) -> Result<Longitude, OutOfRangeError<i64>> {
        Longitude::checked(value)
    }
}

impl From<Longitude> for i64 {
    fn from(value: Longitude) -> (v: i64) {
        value.value()
    }
}

impl FromSpecImpl<Longitude> for i64 {
    open spec fn obeys_from_spec() -> bool {
        true
    }

    open spec fn from_spec(value: Longitude) -> i64 {
        value@ as i64
    }
}

impl Default for Longitude {
    /// The Prime Meridian.
    fn default() -> (r: Longitude)
        ensures
            r@ == 0,
    {
        Longitude(0)
    }
}

impl GeoAngle for Longitude {
    fn direction(&self) -> (d: Direction)
        ensures
            d == (if self@ >= 0 {
                Direction::East
            } else {
                Direction::West
            }),
    {
        if self.0 >= 0 {
            Direction::East
        } else {
            Direction::West
        }
    }
}

impl Longitude {
    /// The text of the angle: its magnitude in whole degrees, halves rounded
    /// up, and the letter of its direction.
    pub open spec fn text(self) -> Seq<char> {
        decimal(rounded_magnitude(self@, DEGREE as int) as nat) + (if self@ >= 0 {
            " E"@
        } else {
            " W"@
        })
    }

    /// The angle as text, such as `166 E`.
    pub fn to_string(&self) -> (s: String)
        ensures
            s@ == self.text(),
    {
        let v = self.value();
        let magnitude: i64 = if v < 0 {
            -v
        } else {
            v
        };
        let mut out = String::new();
        push_decimal(&mut out, ((magnitude + DEGREE / 2) / DEGREE) as u64);
        out.append(if v >= 0 {
            " E"
        } else {
            " W"
        });
        out
    }
}

/// The height of a place above sea level, in millimetres.
#[derive(Debug, Clone, Copy, PartialEq, Eq, Structural)]
pub struct Elevation(i64);

impl View for Elevation {
    type V = int;

    closed spec fn view(&self) -> int {
        self.0 as int
    }
}

impl Elevation {
    /// The lowest land: 420 metres below sea level.
    pub const MIN: i64 = -420_000;

    /// The highest land: 8848 metres above sea level.
    pub const MAX: i64 = 8_848_000;

    #[verifier::type_invariant]
    spec fn in_bounds(self) -> bool {
        Self::MIN <= self.0 <= Self::MAX
    }

    /// The value made of `value` millimetres.
    pub closed spec fn of(value: i64) -> Elevation {
        Elevation(value)
    }

    /// The view of a value is the number it was made of.
    pub broadcast proof fn lemma_view_of(value: i64)
        ensures
            #[trigger] Self::of(value)@ == value,
    {
    }

    /// Two values of the same view are the same value.
    pub proof fn lemma_view_injective(a: Elevation, b: Elevation)
        requires
            a@ == b@,
        ensures
            a == b,
    {
    }

    /// What a checked construction returns for `value`: the value inside the
    /// range, the range itself outside it.
    pub open spec fn checked(value: i64) -> Result<Elevation, OutOfRangeError<i64>> {
        if Self::MIN <= value <= Self::MAX {
            Ok(Self::of(value))
        } else {
            Err(OutOfRangeError { low: Self::MIN, high: Self::MAX })
        }
    }

    /// Makes the value of `value` millimetres, or returns the accepted range when
    /// `value` lies outside it.
    pub fn new(value: i64) -> (r: Result<Elevation, OutOfRangeError<i64>>)
        ensures
            r == Self::checked(value),
            r is Ok <==> Self::MIN <= value <= Self::MAX,
            r matches Ok(v) ==> v@ == value,
    {
        if Self::MIN <= value && value <= Self::MAX {
            Ok(Elevation(value))
        } else {
            Err(OutOfRangeError { low: Self::MIN, high: Self::MAX })
        }
    }

    /// The number of millimetres.
    pub fn value(&self) -> (v: i64)
        ensures
            v == self@,
            Self::MIN <= v <= Self::MAX,
    {
        proof {
            use_type_invariant(self);
        }
        self.0
    }
}

impl TryFrom<i64> for Elevation {
    type Error = OutOfRangeError<i64>;

    fn try_from(value: i64) -> (r: Result<Elevation, OutOfRangeError<i64>>) {
        Elevation::new(value)
    }
}

impl TryFromSpecImpl<i64> for Elevation {
    open spec fn obeys_try_from_spec() -> bool {
        true
    }

    open spec fn try_from_spec(value: i64) -> Result<Elevation, OutOfRangeError<i64>> {
        Elevation::checked(value)
    }
}

impl From<Elevation> for i64 {
    fn from(value: Elevation) -> (v: i64) {
        value.value()
    }
}

impl FromSpecImpl<Elevation> for i64 {
    open spec fn obeys_from_spec() -> bool {
        true
    }

    open spec fn from_spec(value: Elevation) -> i64 {
        value@ as i64
    }
}

impl Default for Elevation {
    /// Sea level.
    fn default() -> (r: Elevation)
        ensures
            r@ == 0,
    {
        Elevation(0)
    }
}

/// The latitude, in angle units, that stands in for a place nearer to the
/// pole when the twilight prayers cannot be computed there: 48.5 degrees north.
pub const NEAREST_LATITUDE: i64 = 48_500_000_000;

/// The latitude of [`NEAREST_LATITUDE`].
pub fn nearest_latitude() -> (r: Latitude)
    ensures
        r@ == NEAREST_LATITUDE,
{
    Latitude(NEAREST_LATITUDE)
}

impl Elevation {
    /// The text of the height: whole metres, halves rounded away from zero.
    pub open spec fn text(self) -> Seq<char> {
        signed_decimal(rounded(self@, METRE as int)) + " meters"@
    }

    /// The height as text, such as `1010 meters`.
    pub fn to_string(&self) -> (s: String)
        ensures
            s@ == self.text(),
    {
        let v = self.value();
        let whole: i64 = if v < 0 {
            -((-v + METRE / 2) / METRE)
        } else {
            (v + METRE / 2) / METRE
        };
        let mut out = String::new();
        push_signed_decimal(&mut out, whole);
        out.append(" meters");
        out
    }
}

/// Latitude, longitude and elevation: a place on the surface of the Earth.
#[derive(Debug, Clone, Copy, PartialEq, Eq, Structural)]
pub struct Coordinates {
    pub latitude: Latitude,
    pub longitude: Longitude,
    pub elevation: Elevation,
}

impl Coordinates {
    /// The place of the given latitude, longitude and elevation.
    pub fn new(latitude: Latitude, longitude: Longitude, elevation: Elevation) -> (r: Coordinates)
        ensures
            r == (Coordinates { latitude, longitude, elevation }),
    {
        Coordinates { latitude, longitude, elevation }
    }

    /// The text of the place: latitude, longitude and elevation, separated by
    /// a comma and a space.
    pub open spec fn text(self) -> Seq<char> {
        self.latitude.text() + ", "@ + self.longitude.text() + ", "@ + self.elevation.text()
    }

    /// The place as text, such as `77 N, 166 E, 1010 meters`.
    pub fn to_string(&self) -> (s: String)
        ensures
            s@ == self.text(),
    {
        let mut out = self.latitude.to_string();
        out.append(", ");
        let longitude = self.longitude.to_string();
        out.append(longitude.as_str());
        out.append(", ");
        let elevation = self.elevation.to_string();
        out.append(elevation.as_str());
        out
    }
}

/// A place together with the offset of its clocks from Greenwich.
#[derive(Debug, Clone, Copy, PartialEq, Eq, Structural)]
pub struct Location {
    /// Geographical coordinates of the place.
    pub coords: Coordinates,
    /// Offset of the place's clocks from Greenwich Mean Time.
    pub gmt: Gmt,
}

impl Gmt {
    /// What [`Gmt::parse`] returns for a text: the value that the text
    /// denotes in hours, or the reason for which it is refused, which is that
    /// of the number or the text of the range.
    pub open spec fn parsed(text: Seq<u8>) -> Result<Gmt, Seq<char>> {
        match crate::number::parsed(text, MS_PER_HOUR) {
            Err(reason) => Err(reason),
            Ok(units) => match Self::checked(units) {
                Ok(value) => Ok(value),
                Err(range) => Err(out_of_range_text(range.low as int, range.high as int)),
            },
        }
    }

    /// Reads a text such as `-5.5` as a number of hours.
    pub fn parse(s: &str) -> (r: Result<Gmt, ParseError>)
        ensures
            match Self::parsed(s.spec_bytes()) {
                Ok(value) => r matches Ok(v) && v == value,
                Err(reason) => r matches Err(e) && e.0@ == reason,
            },
    {
        match parse_units(s.as_bytes(), MS_PER_HOUR) {
            Ok(units) => match Gmt::new(units) {
                Ok(value) => Ok(value),
                Err(range) => Err(ParseError(range.to_string())),
            },
            Err(e) => Err(e),
        }
    }
}

impl FromStr for Gmt {
    type Err = ParseError;

    fn from_str(s: &str) -> (r: Result<Gmt, ParseError>)
        ensures
            match Gmt::parsed(s.spec_bytes()) {
                Ok(value) => r matches Ok(v) && v == value,
                Err(reason) => r matches Err(e) && e.0@ == reason,
            },
    {
        Gmt::parse(s)
    }
}

impl Latitude {
    /// What [`Latitude::parse`] returns for a text: the value that the text
    /// denotes in degrees, or the reason for which it is refused, which is that
    /// of the number or the text of the range.
    pub open spec fn parsed(text: Seq<u8>) -> Result<Latitude, Seq<char>> {
        match crate::number::parsed(text, DEGREE) {
            Err(reason) => Err(reason),
            Ok(units) => match Self::checked(units) {
                Ok(value) => Ok(value),
                Err(range) => Err(out_of_range_text(range.low as int, range.high as int)),
            },
        }
    }

    /// Reads a text such as `39.0181651` as a number of degrees.
    pub fn parse(s: &str) -> (r: Result<Latitude, ParseError>)
        ensures
            match Self::parsed(s.spec_bytes()) {
                Ok(value) => r matches Ok(v) && v == value,
                Err(reason) => r matches Err(e) && e.0@ == reason,
            },
    {
        match parse_units(s.as_bytes(), DEGREE) {
            Ok(units) => match Latitude::new(units) {
                Ok(value) => Ok(value),
                Err(range) => Err(ParseError(range.to_string())),
            },
            Err(e) => Err(e),
        }
    }
}

impl FromStr for Latitude {
    type Err = ParseError;

    fn from_str(s: &str) -> (r: Result<Latitude, ParseError>)
        ensures
            match Latitude::parsed(s.spec_bytes()) {
                Ok(value) => r matches Ok(v) && v == value,
                Err(reason) => r matches Err(e) && e.0@ == reason,
            },
    {
        Latitude::parse(s)
    }
}

impl Longitude {
    /// What [`Longitude::parse`] returns for a text: the value that the text
    /// denotes in degrees, or the reason for which it is refused, which is that
    /// of the number or the text of the range.
    pub open spec fn parsed(text: Seq<u8>) -> Result<Longitude, Seq<char>> {
        match crate::number::parsed(text, DEGREE) {
            Err(reason) => Err(reason),
            Ok(units) => match Self::checked(units) {
                Ok(value) => Ok(value),
                Err(range) => Err(out_of_range_text(range.low as int, range.high as int)),
            },
        }
    }

    /// Reads a text such as `-77.2085914` as a number of degrees.
    pub fn parse(s: &str) -> (r: Result<Longitude, ParseError>)
        ensures
            match Self::parsed(s.spec_bytes()) {
                Ok(value) => r matches Ok(v) && v == value,
                Err(reason) => r matches Err(e) && e.0@ == reason,
            },
    {
        match parse_units(s.as_bytes(), DEGREE) {
            Ok(units) => match Longitude::new(units) {
                Ok(value) => Ok(value),
                Err(range) => Err(ParseError(range.to_string())),
            },
            Err(e) => Err(e),
        }
    }
}

impl FromStr for Longitude {
    type Err = ParseError;

    fn from_str(s: &str) -> (r: Result<Longitude, ParseError>)
        ensures
            match Longitude::parsed(s.spec_bytes()) {
                Ok(value) => r matches Ok(v) && v == value,
                Err(reason) => r matches Err(e) && e.0@ == reason,
            },
    {
        Longitude::parse(s)
    }
}

impl Elevation {
    /// What [`Elevation::parse`] returns for a text: the value that the text
    /// denotes in metres, or the reason for which it is refused, which is that
    /// of the number or the text of the range.
    pub open spec fn parsed(text: Seq<u8>) -> Result<Elevation, Seq<char>> {
        match crate::number::parsed(text, METRE) {
            Err(reason) => Err(reason),
            Ok(units) => match Self::checked(units) {
                Ok(value) => Ok(value),
                Err(range) => Err(out_of_range_text(range.low as int, range.high as int)),
            },
        }
    }

    /// Reads a text such as `87` as a number of metres.
    pub fn parse(s: &str) -> (r: Result<Elevation, ParseError>)
        ensures
            match Self::parsed(s.spec_bytes()) {
                Ok(value) => r matches Ok(v) && v == value,
                Err(reason) => r matches Err(e) && e.0@ == reason,
            },
    {
        match parse_units(s.as_bytes(), METRE) {
            Ok(units) => match Elevation::new(units) {
                Ok(value) => Ok(value),
                Err(range) => Err(ParseError(range.to_string())),
            },
            Err(e) => Err(e),
        }
    }
}

impl FromStr for Elevation {
    type Err = ParseError;

    fn from_str(s: &str) -> (r: Result<Elevation, ParseError>)
        ensures
            match Elevation::parsed(s.spec_bytes()) {
                Ok(value) => r matches Ok(v) && v == value,
                Err(reason) => r matches Err(e) && e.0@ == reason,
            },
    {
        Elevation::parse(s)
    }
}

} // verus!
