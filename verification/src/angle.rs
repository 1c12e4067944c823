//! Wrapping of angles into a turn, a half turn or a unit.
//!
//! An angle is a count of angle units; a plain number is counted in the same
//! units, so that the unit is [`DEGREE`].

use vstd::prelude::*;
use crate::math::floor_mod;
use crate::units::DEGREE;

verus! {

/// A full turn in angle units.
pub const TWO_PI_DEG: i64 = 360_000_000_000;

/// A half turn in angle units.
pub const PI_DEG: i64 = 180_000_000_000;

/// A quarter turn in angle units.
pub const RIGHT_ANG_DEG: i64 = 90_000_000_000;

/// The angle brought into the range from zero up to `cap`, `cap` left out, by
/// whole multiples of `cap`.
pub open spec fn capped(angle: int, cap: int) -> int {
    angle % cap
}

/// The angle brought into the range from a half turn below zero, left out, to
/// a half turn above zero by whole turns.
pub open spec fn capped_between_180(angle: int) -> int {
    if angle % (TWO_PI_DEG as int) > PI_DEG {
        angle % (TWO_PI_DEG as int) - TWO_PI_DEG
    } else {
        angle % (TWO_PI_DEG as int)
    }
}

/// The whole units of a number, rounded down.
pub open spec fn floored(value: int) -> int {
    value - value % (DEGREE as int)
}

/// A number that can be rounded down to whole units.
pub trait CanFloor {
    /// The number rounded down to whole units. A number so small that its
    /// whole units cannot be held stays as it is.
    fn floor(self) -> Self;
}

/// An angle that can be wrapped.
pub trait LimitAngle: Sized {
    /// The angle wrapped into the range from zero up to `cap`.
    fn cap_angle(self, cap: Self) -> Self;

    /// The angle wrapped into a full turn, from zero up to 360 degrees.
    fn cap_angle_360(self) -> Self;

    /// The angle wrapped into a half turn, from zero up to 180 degrees.
    fn cap_angle_180(self) -> Self;

    /// The number wrapped into the unit, from zero up to one.
    fn cap_angle_1(self) -> Self;

    /// The angle wrapped by full turns into the range above -180 degrees up to
    /// 180 degrees.
    fn cap_angle_between_180(self) -> Self;
}

impl CanFloor for i64 {
    fn floor(self) -> (r: i64)
        ensures
            r == (if floored(self as int) >= i64::MIN {
                floored(self as int)
            } else {
                self as int
            }),
            r <= self < r + DEGREE,
    {
        let part = floor_mod(self, DEGREE);
        if self >= i64::MIN + part {
            self - part
        } else {
            self
        }
    }
}

impl LimitAngle for i64 {
    fn cap_angle(self, cap: i64) -> (r: i64)
        ensures
            cap > 0 ==> r == capped(self as int, cap as int),
            cap > 0 ==> 0 <= r < cap,
            cap <= 0 ==> r == self,
    {
        if cap > 0 {
            floor_mod(self, cap)
        } else {
            self
        }
    }

    fn cap_angle_360(self) -> (r: i64)
        ensures
            r == capped(self as int, TWO_PI_DEG as int),
            0 <= r < TWO_PI_DEG,
    {
        self.cap_angle(TWO_PI_DEG)
    }

    fn cap_angle_180(self) -> (r: i64)
        ensures
            r == capped(self as int, PI_DEG as int),
            0 <= r < PI_DEG,
    {
        self.cap_angle(PI_DEG)
    }

    fn cap_angle_1(self) -> (r: i64)
        ensures
            r == capped(self as int, DEGREE as int),
            0 <= r < DEGREE,
    {
        self.cap_angle(DEGREE)
    }

    fn cap_angle_between_180(self) -> (r: i64)
        ensures
            r == capped_between_180(self as int),
            -PI_DEG < r <= PI_DEG,
    {
        let val = floor_mod(self, TWO_PI_DEG);
        if val > PI_DEG {
            val - TWO_PI_DEG
        } else {
            val
        }
    }
}

/// Wrapping an angle that is wrapped changes nothing, and a wrapped angle
/// lies from zero up to the cap.
pub proof fn law_cap_idempotent(angle: int, cap: int)
    requires
        cap > 0,
    ensures
        capped(capped(angle, cap), cap) == capped(angle, cap),
        0 <= capped(angle, cap) < cap,
{
    assert(0 <= angle % cap < cap && (angle % cap) % cap == angle % cap) by (nonlinear_arith)
        requires
            cap > 0,
    ;
}

/// An angle and its wrapping differ by a whole number of caps.
pub proof fn law_cap_congruent(angle: int, cap: int)
    requires
        cap > 0,
    ensures
        (angle - capped(angle, cap)) % cap == 0,
{
    assert((angle - angle % cap) % cap == 0) by (nonlinear_arith)
        requires
            cap > 0,
    ;
}

/// An angle wrapped about zero lies above -180 degrees and up to 180 degrees,
/// differs from the angle by whole turns, and wrapping it again changes
/// nothing.
pub proof fn law_cap_between_180(angle: int)
    ensures
        -PI_DEG < capped_between_180(angle) <= PI_DEG,
        (angle - capped_between_180(angle)) % (TWO_PI_DEG as int) == 0,
        capped_between_180(capped_between_180(angle)) == capped_between_180(angle),
{
}

} // verus!
