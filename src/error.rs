use vstd::prelude::*;

use crate::text::{append_one_line, joined, one_line};

verus! {

/// What went wrong with a call.
#[derive(Clone, Copy, Debug, PartialEq, Eq, Structural)]
pub enum ErrorKind {
    /// A parameter is missing or malformed; the backend was not reached.
    InvalidParams,
    /// No method of that name is registered.
    NotFound,
    /// The backend could not be reached or started at all.
    Unavailable,
    /// The backend was reached and reported a failure of its own.
    Backend,
    /// The backend answered with output that could not be interpreted.
    Internal,
}

/// A failed call: its kind and a diagnostic text.
#[derive(Debug)]
pub struct CallError {
    pub kind: ErrorKind,
    pub message: String,
}

impl CallError {
    pub fn new(kind: ErrorKind, message: String) -> (r: CallError)
        ensures
            r.kind == kind,
            r.message@ == message@,
    {
        CallError { kind, message }
    }
}

/// How a failure of each kind is introduced to a user.
pub open spec fn kind_label(k: ErrorKind) -> Seq<char> {
    match k {
        ErrorKind::InvalidParams => "bad request"@,
        ErrorKind::NotFound => "not found"@,
        ErrorKind::Unavailable => "backend unavailable"@,
        ErrorKind::Backend => "backend error"@,
        ErrorKind::Internal => "internal error"@,
    }
}

impl ErrorKind {
    pub fn label(&self) -> (r: &'static str)
        ensures
            r@ == kind_label(*self),
    {
        match self {
            ErrorKind::InvalidParams => "bad request",
            ErrorKind::NotFound => "not found",
            ErrorKind::Unavailable => "backend unavailable",
            ErrorKind::Backend => "backend error",
            ErrorKind::Internal => "internal error",
        }
    }
}

impl CallError {
    /// The one line shown for this failure: its kind's label, then its
    /// message with line breaks turned into spaces.
    pub fn describe(&self) -> (r: String)
        ensures
            r@ == kind_label(self.kind) + ": "@ + one_line(self.message@),
    {
        let mut r = joined(self.kind.label(), ": ");
        append_one_line(&mut r, self.message.as_str());
        r
    }
}

} // verus!
