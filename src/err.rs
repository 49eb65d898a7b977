use vstd::prelude::*;

use crate::id::{id_string, Id};

verus! {

/// Why a string is not a valid [`Id`].
#[derive(Debug, Clone, Copy, PartialEq, Eq, Structural)]
pub enum InvalidIdError {
    /// A part of the [`Id`] is longer than twelve bytes.
    Length,
    /// The [`Id`] does not hold exactly one `/` separator.
    InvalidParts,
    /// A part of the [`Id`] is empty or holds a character outside `[a-zA-Z0-9._-]`.
    InvalidChars,
}

impl InvalidIdError {
    /// The human-readable description of the error.
    pub fn message(&self) -> (r: String)
        ensures
            r@ == self.spec_message(),
    {
        match self {
            InvalidIdError::Length => String::from_str("a part of the id is longer than 12 bytes"),
            InvalidIdError::InvalidParts => String::from_str(
                "should contain one and only '/' as separator",
            ),
            InvalidIdError::InvalidChars => String::from_str(
                "a part of the id is empty or holds a character outside [a-zA-Z0-9._-]",
            ),
        }
    }

    pub open spec fn spec_message(&self) -> Seq<char> {
        match self {
            InvalidIdError::Length => "a part of the id is longer than 12 bytes"@,
            InvalidIdError::InvalidParts => "should contain one and only '/' as separator"@,
            InvalidIdError::InvalidChars =>
                "a part of the id is empty or holds a character outside [a-zA-Z0-9._-]"@,
        }
    }
}

/// A lookup of an [`Id`] that the registry does not hold.
pub struct ResNotFoundError<T> {
    id: Id<T>,
}

impl<T> ResNotFoundError<T> {
    pub fn new(id: Id<T>) -> (r: Self)
        ensures
            r.id() == id@,
    {
        ResNotFoundError { id }
    }

    /// The identifier that was looked up.
    pub closed spec fn id(&self) -> (Seq<char>, Seq<char>) {
        self.id@
    }

    pub fn missing_id(&self) -> (r: &Id<T>)
        ensures
            r@ == self.id(),
    {
        &self.id
    }

    /// The human-readable description of the error: `resource not found for <id>`.
    pub fn message(&self) -> (r: String)
        ensures
            r@ == "resource not found for "@ + id_string(self.id()),
    {
        let mut s = String::from_str("resource not found for ");
        let t = self.id.to_string();
        s.append(t.as_str());
        s
    }
}

} // verus!
