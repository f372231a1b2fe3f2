//! Errors of decoding and encoding.

use crate::tag::Tag;
use vstd::prelude::*;

verus! {

/// Why a byte string was not accepted.
#[derive(Clone, Copy, Debug, PartialEq, Eq, Structural)]
pub enum ParseError {
    /// The content octets do not form a value of the expected type.
    InvalidValue,
    /// The identifier octets are not a DER tag.
    InvalidTag,
    /// The length octets are not a DER length.
    InvalidLength,
    /// An element was found whose tag is not accepted at this position.
    UnexpectedTag { actual: Tag },
    /// The input ends before the element does.
    ShortData { needed: usize },
    /// An integer does not fit the type it is read into.
    IntegerOverflow,
    /// Octets are left over where the value has ended.
    ExtraData,
    /// An object identifier is longer than can be stored.
    OidTooLong,
}

/// The four kinds of failure that callers tell apart.
#[derive(Clone, Copy, Debug, PartialEq, Eq, Structural)]
pub enum ErrorClass {
    MalformedLength,
    TagMismatch,
    InvalidValue,
}

impl ParseError {
    /// The kind of failure an error belongs to.
    pub open spec fn spec_class(self) -> ErrorClass {
        match self {
            ParseError::InvalidLength | ParseError::ShortData { .. } => ErrorClass::MalformedLength,
            ParseError::UnexpectedTag { .. } | ParseError::InvalidTag => ErrorClass::TagMismatch,
            _ => ErrorClass::InvalidValue,
        }
    }

    /// The kind of failure this error belongs to.
    pub fn class(&self) -> (r: ErrorClass)
        ensures
            r == self.spec_class(),
    {
        match self {
            ParseError::InvalidLength | ParseError::ShortData { .. } => ErrorClass::MalformedLength,
            ParseError::UnexpectedTag { .. } | ParseError::InvalidTag => ErrorClass::TagMismatch,
            _ => ErrorClass::InvalidValue,
        }
    }
}

/// Why a value could not be written.
#[derive(Clone, Copy, Debug, PartialEq, Eq, Structural)]
pub enum WriteError {
    /// The output buffer could not grow.
    AllocationError,
}

} // verus!
