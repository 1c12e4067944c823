//! Error values of the library.

use vstd::prelude::*;
use vstd::string::StringExecFns;
use crate::text::{push_decimal, push_signed_decimal, signed_decimal};

verus! {

/// The error for a value that lies outside the inclusive range `low ..= high`.
#[derive(Debug, Clone, PartialEq, Eq, Hash)]
pub struct OutOfRangeError<T> {
    /// Smallest accepted value.
    pub low: T,
    /// Largest accepted value.
    pub high: T,
}

/// The text of the error for the range from `low` to `high`.
pub open spec fn out_of_range_text(low: int, high: int) -> Seq<char> {
    "Out Of Range Error ["@ + signed_decimal(low) + " - "@ + signed_decimal(high) + "]"@
}

impl OutOfRangeError<i64> {
    /// The error as text, such as `Out Of Range Error [-90 - 90]`.
    pub fn to_string(&self) -> (s: String)
        ensures
            s@ == out_of_range_text(self.low as int, self.high as int),
    {
        let mut out = String::from_str("Out Of Range Error [");
        push_signed_decimal(&mut out, self.low);
        out.append(" - ");
        push_signed_decimal(&mut out, self.high);
        out.append("]");
        out
    }
}

impl OutOfRangeError<u8> {
    /// The error as text, such as `Out Of Range Error [1 - 7]`.
    pub fn to_string(&self) -> (s: String)
        ensures
            s@ == out_of_range_text(self.low as int, self.high as int),
    {
        let mut out = String::from_str("Out Of Range Error [");
        push_decimal(&mut out, self.low as u64);
        out.append(" - ");
        push_decimal(&mut out, self.high as u64);
        out.append("]");
        out
    }
}

/// The error for a text that does not denote a value; it carries the reason.
#[derive(Debug, Clone, PartialEq, Eq, Hash)]
pub struct ParseError(pub String);

impl ParseError {
    /// The reason, as given when the error was made.
    pub fn to_string(&self) -> (s: String)
        ensures
            s@ == self.0@,
    {
        self.0.clone()
    }
}

} // verus!
