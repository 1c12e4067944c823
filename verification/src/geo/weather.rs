//! Weather information types.
//!
//! Pressures are counted in pascals and temperatures in thousandths of a degree
//! Celsius.

use vstd::prelude::*;
use vstd::std_specs::convert::{FromSpecImpl, TryFromSpecImpl};
use crate::error::OutOfRangeError;

verus! {

/// An atmospheric pressure in pascals.
#[derive(Debug, Clone, Copy, PartialEq, Eq, Structural)]
pub struct Pressure(i64);

impl View for Pressure {
    type V = int;

    closed spec fn view(&self) -> int {
        self.0 as int
    }
}

impl Pressure {
    /// 100 millibars.
    pub const MIN: i64 = 10_000;

    /// 1050 millibars.
    pub const MAX: i64 = 105_000;

    #[verifier::type_invariant]
    spec fn in_bounds(self) -> bool {
        Self::MIN <= self.0 <= Self::MAX
    }

    /// The value made of `value` pascals.
    pub closed spec fn of(value: i64) -> Pressure {
        Pressure(value)
    }

    /// The view of a value is the number it was made of.
    pub broadcast proof fn lemma_view_of(value: i64)
        ensures
            #[trigger] Self::of(value)@ == value,
    {
    }

    /// Two values of the same view are the same value.
    pub proof fn lemma_view_injective(a: Pressure, b: Pressure)
        requires
            a@ == b@,
        ensures
            a == b,
    {
    }

    /// What a checked construction returns for `value`: the value inside the
    /// range, the range itself outside it.
    pub open spec fn checked(value: i64) -> Result<Pressure, OutOfRangeError<i64>> {
        if Self::MIN <= value <= Self::MAX {
            Ok(Self::of(value))
        } else {
            Err(OutOfRangeError { low: Self::MIN, high: Self::MAX })
        }
    }

    /// Makes the value of `value` pascals, or returns the accepted range when
    /// `value` lies outside it.
    pub fn new(value: i64) -> (r: Result<Pressure, OutOfRangeError<i64>>)
        ensures
            r == Self::checked(value),
            r is Ok <==> Self::MIN <= value <= Self::MAX,
            r matches Ok(v) ==> v@ == value,
    {
        if Self::MIN <= value && value <= Self::MAX {
            Ok(Pressure(value))
        } else {
            Err(OutOfRangeError { low: Self::MIN, high: Self::MAX })
        }
    }

    /// The number of pascals.
    pub fn value(&self) -> (v: i64)
        ensures
            v == self@,
            Self::MIN <= v <= Self::MAX,
    {
        proof {
            use_type_invariant(self);
        }
        self.0
    }
}

impl TryFrom<i64> for Pressure {
    type Error = OutOfRangeError<i64>;

    fn try_from(value: i64) -> (r: Result<Pressure, OutOfRangeError<i64>>) {
        Pressure::new(value)
    }
}

impl TryFromSpecImpl<i64> for Pressure {
    open spec fn obeys_try_from_spec() -> bool {
        true
    }

    open spec fn try_from_spec(value: i64) -> Result<Pressure, OutOfRangeError<i64>> {
        Pressure::checked(value)
    }
}

impl From<Pressure> for i64 {
    fn from(value: Pressure) -> (v: i64) {
        value.value()
    }
}

impl FromSpecImpl<Pressure> for i64 {
    open spec fn obeys_from_spec() -> bool {
        true
    }

    open spec fn from_spec(value: Pressure) -> i64 {
        value@ as i64
    }
}

/// An outside temperature in thousandths of a degree Celsius.
#[derive(Debug, Clone, Copy, PartialEq, Eq, Structural)]
pub struct Temperature(i64);

impl View for Temperature {
    type V = int;

    closed spec fn view(&self) -> int {
        self.0 as int
    }
}

impl Temperature {
    /// 90 degrees Celsius below zero.
    pub const MIN: i64 = -90_000;

    /// 57 degrees Celsius.
    pub const MAX: i64 = 57_000;

    #[verifier::type_invariant]
    spec fn in_bounds(self) -> bool {
        Self::MIN <= self.0 <= Self::MAX
    }

    /// The value made of `value` thousandths of a degree Celsius.
    pub closed spec fn of(value: i64) -> Temperature {
        Temperature(value)
    }

    /// The view of a value is the number it was made of.
    pub broadcast proof fn lemma_view_of(value: i64)
        ensures
            #[trigger] Self::of(value)@ == value,
    {
    }

    /// Two values of the same view are the same value.
    pub proof fn lemma_view_injective(a: Temperature, b: Temperature)
        requires
            a@ == b@,
        ensures
            a == b,
    {
    }

    /// What a checked construction returns for `value`: the value inside the
    /// range, the range itself outside it.
    pub open spec fn checked(value: i64) -> Result<Temperature, OutOfRangeError<i64>> {
        if Self::MIN <= value <= Self::MAX {
            Ok(Self::of(value))
        } else {
            Err(OutOfRangeError { low: Self::MIN, high: Self::MAX })
        }
    }

    /// Makes the value of `value` thousandths of a degree Celsius, or returns the accepted range when
    /// `value` lies outside it.
    pub fn new(value: i64) -> (r: Result<Temperature, OutOfRangeError<i64>>)
        ensures
            r == Self::checked(value),
            r is Ok <==> Self::MIN <= value <= Self::MAX,
            r matches Ok(v) ==> v@ == value,
    {
        if Self::MIN <= value && value <= Self::MAX {
            Ok(Temperature(value))
        } else {
            Err(OutOfRangeError { low: Self::MIN, high: Self::MAX })
        }
    }

    /// The number of thousandths of a degree Celsius.
    pub fn value(&self) -> (v: i64)
        ensures
            v == self@,
            Self::MIN <= v <= Self::MAX,
    {
        proof {
            use_type_invariant(self);
        }
        self.0
    }
}

impl TryFrom<i64> for Temperature {
    type Error = OutOfRangeError<i64>;

    fn try_from(value: i64) -> (r: Result<Temperature, OutOfRangeError<i64>>) {
        Temperature::new(value)
    }
}

impl TryFromSpecImpl<i64> for Temperature {
    open spec fn obeys_try_from_spec() -> bool {
        true
    }

    open spec fn try_from_spec(value: i64) -> Result<Temperature, OutOfRangeError<i64>> {
        Temperature::checked(value)
    }
}

impl From<Temperature> for i64 {
    fn from(value: Temperature) -> (v: i64) {
        value.value()
    }
}

impl FromSpecImpl<Temperature> for i64 {
    open spec fn obeys_from_spec() -> bool {
        true
    }

    open spec fn from_spec(value: Temperature) -> i64 {
        value@ as i64
    }
}

/// The weather at a place: atmospheric pressure and outside temperature.
#[derive(Debug, Clone, Copy, PartialEq, Eq, Structural)]
pub struct Weather {
    /// Atmospheric pressure
    pub pressure: Pressure,
    /// Outside temperature
    pub temperature: Temperature,
}

impl Default for Weather {
    /// The standard atmosphere: 1010 millibars at 14 degrees Celsius.
    fn default() -> (r: Weather)
        ensures
            r.pressure@ == 101_000,
            r.temperature@ == 14_000,
    {
        Weather { pressure: Pressure(101_000), temperature: Temperature(14_000) }
    }
}

} // verus!
