//! Units of the integer grid on which the library computes.
//!
//! Instants and durations are counted in milliseconds, angles in
//! thousand-millionths of a degree, heights in millimetres, pressures in
//! pascals and temperatures in thousandths of a degree Celsius.

use vstd::prelude::*;

verus! {

/// Milliseconds in one second.
pub const MS_PER_SECOND: i64 = 1_000;

/// Milliseconds in one minute.
pub const MS_PER_MINUTE: i64 = 60_000;

/// Milliseconds in one hour.
pub const MS_PER_HOUR: i64 = 3_600_000;

/// Milliseconds in one day.
pub const MS_PER_DAY: i64 = 86_400_000;

/// Angle units in one degree.
pub const DEGREE: i64 = 1_000_000_000;

/// Height units in one metre.
pub const METRE: i64 = 1_000;

/// Pressure units in one millibar.
pub const MILLIBAR: i64 = 100;

/// Temperature units in one degree Celsius.
pub const CELSIUS: i64 = 1_000;

/// Largest magnitude of an instant or duration that the library computes
/// with: a million million milliseconds, which is more than thirty years. The
/// bound keeps every sum and product of the adjustment within the machine
/// integers.
pub const TIME_BOUND: i64 = 1_000_000_000_000;

/// Largest magnitude of an angle that the library computes with: a full turn.
pub const ANGLE_BOUND: i64 = 360_000_000_000;

} // verus!
