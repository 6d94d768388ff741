//! The error type of the crate.

use vstd::prelude::*;
use vstd::string::*;

verus! {

/// What went wrong while attaching to the host.
///
/// Every variant carries the text that completes its message.
#[derive(Debug)]
pub enum Error {
    /// A pointer that had to be there was null; `item` names it.
    Null { item: String },
    /// A named interface, symbol or slot could not be located; `item` names it.
    NotFound { item: String },
    /// A failure that is described by `msg` alone.
    Other { msg: String },
    /// A failure of unknown cause; `message` says what was being done.
    Unknown { message: String },
}

/// The variant of an [`Error`], without its text.
#[derive(Debug, Clone, Copy, PartialEq, Eq, Structural)]
pub enum ErrorKind {
    Null,
    NotFound,
    Other,
    Unknown,
}

impl Error {
    /// The variant of this error.
    pub open spec fn spec_kind(&self) -> ErrorKind {
        match self {
            Error::Null { .. } => ErrorKind::Null,
            Error::NotFound { .. } => ErrorKind::NotFound,
            Error::Other { .. } => ErrorKind::Other,
            Error::Unknown { .. } => ErrorKind::Unknown,
        }
    }

    /// The text that the error carries.
    pub open spec fn text(&self) -> Seq<char> {
        match self {
            Error::Null { item } => item@,
            Error::NotFound { item } => item@,
            Error::Other { msg } => msg@,
            Error::Unknown { message } => message@,
        }
    }

    /// The message of this error, as a sequence of characters.
    pub open spec fn spec_message(&self) -> Seq<char> {
        match self {
            Error::Null { item } => item@ + " is null."@,
            Error::NotFound { item } => "couldn't find "@ + item@ + "."@,
            Error::Other { msg } => msg@,
            Error::Unknown { message } => "unknown error: "@ + message@,
        }
    }

    /// A null-pointer error about `item`.
    pub fn null(item: &str) -> (e: Error)
        ensures
            e.spec_kind() == ErrorKind::Null,
            e.text() == item@,
    {
        Error::Null { item: String::from_str(item) }
    }

    /// A not-found error about `item`.
    pub fn not_found(item: &str) -> (e: Error)
        ensures
            e.spec_kind() == ErrorKind::NotFound,
            e.text() == item@,
    {
        Error::NotFound { item: String::from_str(item) }
    }

    /// An error of unknown cause with the given text.
    pub fn unknown(message: &str) -> (e: Error)
        ensures
            e.spec_kind() == ErrorKind::Unknown,
            e.text() == message@,
    {
        Error::Unknown { message: String::from_str(message) }
    }

    /// The variant of this error.
    #[verifier::when_used_as_spec(spec_kind)]
    pub fn kind(&self) -> (k: ErrorKind)
        ensures
            k == self.spec_kind(),
    {
        match self {
            Error::Null { .. } => ErrorKind::Null,
            Error::NotFound { .. } => ErrorKind::NotFound,
            Error::Other { .. } => ErrorKind::Other,
            Error::Unknown { .. } => ErrorKind::Unknown,
        }
    }

    /// The message of this error, as it is shown to a person.
    pub fn message(&self) -> (s: String)
        ensures
            s@ == self.spec_message(),
    {
        match self {
            Error::Null { item } => item.clone().concat(" is null."),
            Error::NotFound { item } => String::from_str("couldn't find ").concat(
                item.as_str(),
            ).concat("."),
            Error::Other { msg } => msg.clone(),
            Error::Unknown { message } => String::from_str("unknown error: ").concat(
                message.as_str(),
            ),
        }
    }
}

} // verus!
