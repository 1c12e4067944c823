//! The Qibla (Arabic: قِبْلَة, romanized: qiblah, lit. 'direction') is the direction towards
//! the Kaaba in the Sacred Mosque in Mecca, which is used by Muslims in various religious
//! contexts, particularly the direction of prayer.
//!
//! The direction is an angle from north in angle units, above a half turn to
//! the west and up to a half turn to the east. It is computed on the sphere by
//! a function that is handed in; the library wraps it into that range, reads
//! the sense of rotation off and writes it out.

use vstd::prelude::*;
use vstd::string::StringExecFns;
use crate::angle::{capped_between_180, LimitAngle};
use crate::geo::coordinates::Coordinates;
use crate::text::{decimal, digit_char, push_decimal};
use crate::units::DEGREE;

verus! {

/// A sense of rotation.
#[derive(Debug, Clone, Copy, PartialEq, Eq, Structural)]
pub enum Rotation {
    /// Clockwise
    Cw,
    /// Counterclockwise
    Ccw,
}

impl Rotation {
    /// The rotation of a direction given in angle units from north: clockwise
    /// for a negative angle, counterclockwise otherwise.
    pub open spec fn of(degrees: int) -> Rotation {
        if degrees < 0 {
            Rotation::Cw
        } else {
            Rotation::Ccw
        }
    }

    /// The rotation of a direction given in angle units from north.
    pub fn of_degrees(degrees: i64) -> (r: Rotation)
        ensures
            r == Self::of(degrees as int),
    {
        if degrees < 0 {
            Rotation::Cw
        } else {
            Rotation::Ccw
        }
    }

    /// The short name of the rotation.
    pub open spec fn text(self) -> Seq<char> {
        match self {
            Rotation::Cw => "CW"@,
            Rotation::Ccw => "CCW"@,
        }
    }

    /// The short name of the rotation: `CW` or `CCW`.
    pub fn to_string(&self) -> (s: String)
        ensures
            s@ == self.text(),
    {
        match self {
            Rotation::Cw => "CW".to_owned(),
            Rotation::Ccw => "CCW".to_owned(),
        }
    }
}

/// The Qibla of a place.
#[derive(Debug, Clone, Copy, PartialEq, Eq, Structural)]
pub struct Qibla {
    coords: Coordinates,
    degrees: i64,
}

/// The magnitude of an angle in tenths of a degree, a half tenth counting
/// upwards.
pub open spec fn tenths_of(degrees: int) -> int {
    ((if degrees < 0 {
        -degrees
    } else {
        degrees
    }) + DEGREE / 20) / (DEGREE / 10)
}

impl Qibla {
    #[verifier::type_invariant]
    spec fn in_half_turn(self) -> bool {
        -180_000_000_000 < self.degrees <= 180_000_000_000
    }

    /// The place that the Qibla was made for.
    pub closed spec fn coords_spec(self) -> Coordinates {
        self.coords
    }

    /// The direction in angle units from north.
    pub closed spec fn degrees_spec(self) -> int {
        self.degrees as int
    }

    /// The Qibla of a place, its direction being what `bearing` gives for the
    /// place, wrapped by full turns into the range above -180 degrees up to
    /// 180 degrees.
    pub fn new<B: Fn(Coordinates) -> i64>(coords: Coordinates, bearing: &B) -> (r: Qibla)
        requires
            call_requires(*bearing, (coords,)),
        ensures
            r.coords_spec() == coords,
            exists|angle: i64| #[trigger]
                call_ensures(*bearing, (coords,), angle) && r.degrees_spec() == capped_between_180(
                    angle as int,
                ),
    {
        let angle = bearing(coords);
        Qibla { coords, degrees: angle.cap_angle_between_180() }
    }

    /// The place that the Qibla was made for.
    pub fn coords(&self) -> (c: Coordinates)
        ensures
            c == self.coords_spec(),
    {
        self.coords
    }

    /// The direction in angle units from north, above -180 degrees and up to
    /// 180 degrees.
    pub fn degrees(&self) -> (d: i64)
        ensures
            d == self.degrees_spec(),
            -180_000_000_000 < d <= 180_000_000_000,
    {
        proof {
            use_type_invariant(self);
        }
        self.degrees
    }

    /// The sense in which one turns from north.
    pub fn rotation(&self) -> (r: Rotation)
        ensures
            r == Rotation::of(self.degrees_spec()),
    {
        Rotation::of_degrees(self.degrees)
    }

    /// The text of the Qibla: the magnitude of the direction in degrees to
    /// one place after the point, the degree sign, and the rotation.
    pub open spec fn text(self) -> Seq<char> {
        decimal((tenths_of(self.degrees_spec()) / 10) as nat) + "."@ + seq![
            digit_char(tenths_of(self.degrees_spec()) % 10),
        ] + "° "@ + Rotation::of(self.degrees_spec()).text()
    }

    /// The Qibla as text, such as `56.4° CW`.
    pub fn to_string(&self) -> (s: String)
        ensures
            s@ == self.text(),
    {
        let d = self.degrees();
        let magnitude: i64 = if d < 0 {
            -d
        } else {
            d
        };
        let tenths = ((magnitude + DEGREE / 20) / (DEGREE / 10)) as u64;
        let mut out = String::new();
        push_decimal(&mut out, tenths / 10);
        out.append(".");
        push_decimal(&mut out, tenths % 10);
        out.append("° ");
        let rotation = self.rotation().to_string();
        out.append(rotation.as_str());
        proof {
            assert(decimal((tenths % 10) as nat) =~= seq![digit_char((tenths % 10) as int)]);
        }
        out
    }
}

} // verus!
