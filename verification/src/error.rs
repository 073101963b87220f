//! What can be wrong with a wire value.

use vstd::prelude::*;

verus! {

/// The ways in which a wire value can fail to decode.
#[derive(Clone, Copy, Debug, PartialEq, Eq, Structural)]
pub enum ErrorKind {
    /// A date string that has not three numeric parts, or names no day of the calendar.
    MalformedDate,
    /// An integer string that is no numeral, or denotes more than 255.
    MalformedInteger,
    /// A field without a default whose key is absent.
    MissingField,
    /// A value of another JSON type than its field takes.
    UnexpectedType,
}

} // verus!
