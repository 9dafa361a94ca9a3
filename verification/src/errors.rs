//! The failure type that every fallible operation of the crate returns.

use vstd::prelude::*;
use vstd::string::*;

verus! {

/// The kind of a failure.
#[derive(Debug, Clone, Copy, PartialEq, Eq, Hash, Structural)]
pub enum ErrorCode {
    /// The provided input is invalid.
    Invalid,
    /// The requested resource was not found.
    NotFound,
    /// The user is not authorized to perform the requested action.
    Unauthorized,
    /// The requested action is forbidden.
    Forbidden,
    /// The request parameters are unprocessable.
    Unprocessable,
    /// The environment (clock, time zone) failed.
    Internal,
    /// The requested service is currently unavailable.
    Unavailable,
    /// There was a conflict with the requested resource.
    Conflict,
    /// The operation timed out.
    Timeout,
    /// An unknown error occurred.
    Unknown,
}

impl ErrorCode {
    /// The lower-case name of the kind.
    pub open spec fn name(self) -> Seq<char> {
        match self {
            ErrorCode::Invalid => "invalid"@,
            ErrorCode::NotFound => "not_found"@,
            ErrorCode::Unauthorized => "unauthorized"@,
            ErrorCode::Forbidden => "forbidden"@,
            ErrorCode::Unprocessable => "unprocessable"@,
            ErrorCode::Internal => "internal"@,
            ErrorCode::Unavailable => "unavailable"@,
            ErrorCode::Conflict => "conflict"@,
            ErrorCode::Timeout => "timeout"@,
            ErrorCode::Unknown => "unknown"@,
        }
    }

    /// Renders the kind as its lower-case name.
    pub fn to_string(&self) -> (r: String)
        ensures
            r@ == self.name(),
    {
        let s: &str = match self {
            ErrorCode::Invalid => "invalid",
            ErrorCode::NotFound => "not_found",
            ErrorCode::Unauthorized => "unauthorized",
            ErrorCode::Forbidden => "forbidden",
            ErrorCode::Unprocessable => "unprocessable",
            ErrorCode::Internal => "internal",
            ErrorCode::Unavailable => "unavailable",
            ErrorCode::Conflict => "conflict",
            ErrorCode::Timeout => "timeout",
            ErrorCode::Unknown => "unknown",
        };
        String::from_str(s)
    }
}

/// What an [`Error`] holds, as mathematical values.
pub struct ErrorView {
    pub message: Seq<char>,
    pub code: ErrorCode,
    pub is_transient: bool,
    pub cause: Option<Seq<char>>,
}

/// A failure: a kind, a message for people, whether a retry may help, and
/// the text of the underlying cause where there is one.
#[derive(Debug)]
pub struct Error {
    message: String,
    code: ErrorCode,
    is_transient: bool,
    cause: Option<String>,
}

impl View for Error {
    type V = ErrorView;

    closed spec fn view(&self) -> ErrorView {
        ErrorView {
            message: self.message@,
            code: self.code,
            is_transient: self.is_transient,
            cause: match self.cause {
                Some(c) => Some(c@),
                None => None,
            },
        }
    }
}

/// The transient failure without a cause that [`Error::new`] builds.
pub open spec fn plain_error(message: Seq<char>, code: ErrorCode) -> ErrorView {
    ErrorView { message, code, is_transient: true, cause: None }
}

/// The `Invalid` failure with the given message.
pub open spec fn invalid_error(message: Seq<char>) -> ErrorView {
    plain_error(message, ErrorCode::Invalid)
}

impl Error {
    /// A transient failure with the given message and kind, and no cause.
    pub fn new(message: &str, code: ErrorCode) -> (e: Error)
        ensures
            e@ == plain_error(message@, code),
    {
        Error { message: String::from_str(message), code, is_transient: true, cause: None }
    }

    /// A permanent failure with the given message and kind, and no cause.
    pub fn permanent(message: &str, code: ErrorCode) -> (e: Error)
        ensures
            e@ == (ErrorView { is_transient: false, ..plain_error(message@, code) }),
    {
        Error { message: String::from_str(message), code, is_transient: false, cause: None }
    }

    /// The same failure with `cause` attached as the text of what lay under it.
    pub fn with_cause(self, cause: &str) -> (e: Error)
        ensures
            e@ == (ErrorView { cause: Some(cause@), ..self@ }),
    {
        Error {
            message: self.message,
            code: self.code,
            is_transient: self.is_transient,
            cause: Some(String::from_str(cause)),
        }
    }

    /// The message for people.
    pub fn message(&self) -> (r: &str)
        ensures
            r@ == self@.message,
    {
        self.message.as_str()
    }

    /// The kind of the failure.
    pub fn code(&self) -> (r: ErrorCode)
        ensures
            r == self@.code,
    {
        self.code
    }

    /// Whether a retry may help.
    pub fn is_transient(&self) -> (r: bool)
        ensures
            r == self@.is_transient,
    {
        self.is_transient
    }

    /// The text of the underlying cause, where one was attached.
    pub fn source(&self) -> (r: Option<&str>)
        ensures
            r.is_some() == self@.cause.is_some(),
            r.is_some() ==> r.unwrap()@ == self@.cause.unwrap(),
    {
        match &self.cause {
            Some(c) => Some(c.as_str()),
            None => None,
        }
    }
}

} // verus!
