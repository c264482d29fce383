//! The fault envelope: the uniform, boundary-safe shape of every failure.

use anyhow::Error as AnyhowError;
use vstd::prelude::*;
use vstd::string::StringExecFns;

verus! {

/// What a captured fault carried, as far as the boundary can read it.
///
/// A fault's payload is an arbitrary value.  The engine only ever reads one
/// thing from it: its text, when the payload is string-like.  The containment
/// shell extracts that text before handing the payload in; everything else is
/// [`PanicPayload::Opaque`].
#[derive(Clone, Debug, PartialEq, Eq)]
pub enum PanicPayload {
    /// The payload was a string-like value with this text.
    Text(String),
    /// The payload was not string-like; its message falls back to a fixed
    /// placeholder.
    Opaque,
}

/// Errors that occur from normal code execution.
#[derive(Clone, Debug, PartialEq, Eq)]
pub enum Error {
    /// An ordinary, application-level failure, carrying its formatted
    /// diagnostic.
    ResultError(String),
    /// An execution fault intercepted before it could cross the boundary.
    Panic(PanicPayload),
}

impl Error {
    /// The stable identifying code of this kind of failure.
    pub open spec fn code_spec(self) -> Seq<char> {
        match self {
            Error::ResultError(_) => "RESULT_ERROR"@,
            Error::Panic(_) => "PANIC_ERROR"@,
        }
    }

    /// The human-readable message of this failure: an ordinary failure's
    /// diagnostic, a string-like fault's text verbatim, or the fixed
    /// placeholder.
    pub open spec fn message_spec(self) -> Seq<char> {
        match self {
            Error::ResultError(s) => s@,
            Error::Panic(p) => match p {
                PanicPayload::Text(s) => s@,
                PanicPayload::Opaque => "Box<dyn Any>"@,
            },
        }
    }

    /// The identifier of the type of error.
    pub fn code(&self) -> (r: &'static str)
        ensures
            r@ == self.code_spec(),
    {
        match self {
            Error::ResultError(_) => "RESULT_ERROR",
            Error::Panic(_) => "PANIC_ERROR",
        }
    }

    /// The message of the error.
    pub fn message(&self) -> (r: String)
        ensures
            r@ == self.message_spec(),
    {
        match self {
            Error::ResultError(s) => s.clone(),
            Error::Panic(p) => match p {
                PanicPayload::Text(s) => s.clone(),
                PanicPayload::Opaque => String::from_str("Box<dyn Any>"),
            },
        }
    }
}

/// Declares `anyhow::Error`, the opaque cause an ordinary failure arrives
/// as, so that it can cross the signatures of this crate.
#[verifier::external_type_specification]
#[verifier::external_body]
pub struct ExAnyhowError(AnyhowError);

/// Relies on `anyhow::Error`'s `Debug` implementation, which renders an
/// ordinary failure's diagnostic (its message, followed by the messages of
/// its sources) as text.  The resulting envelope is always the
/// ordinary-failure variant.
#[verifier::external_body]
pub(crate) fn ordinary_failure_envelope(cause: AnyhowError) -> (r: Error)
    ensures
        r is ResultError,
{
    Error::ResultError(format!("{:?}", cause))
}

} // verus!
