//! What can go wrong, by kind.

use vstd::prelude::*;
use vstd::string::*;

verus! {

/// An operation that was given up, with the reason.
#[derive(Debug, Clone)]
pub enum Error {
    /// The request itself is not acceptable; nothing was stored or drawn.
    Validation(String),
    /// There is no task or session with the identity that was asked for.
    NotFound,
    /// The task was already marked as done.
    AlreadyDone,
    /// The store failed or refused.
    Persistence(String),
    /// The terminal could not be prepared, drawn to or restored.
    Terminal(String),
}

/// An error as a mathematical value.
pub enum ErrorModel {
    Validation(Seq<char>),
    NotFound,
    AlreadyDone,
    Persistence(Seq<char>),
    Terminal(Seq<char>),
}

impl View for Error {
    type V = ErrorModel;

    open spec fn view(&self) -> ErrorModel {
        match self {
            Error::Validation(m) => ErrorModel::Validation(m@),
            Error::NotFound => ErrorModel::NotFound,
            Error::AlreadyDone => ErrorModel::AlreadyDone,
            Error::Persistence(m) => ErrorModel::Persistence(m@),
            Error::Terminal(m) => ErrorModel::Terminal(m@),
        }
    }
}

/// The sentence that an error is reported with.
pub open spec fn error_message(e: ErrorModel) -> Seq<char> {
    match e {
        ErrorModel::Validation(m) => "Err: "@ + m,
        ErrorModel::NotFound => "Not found"@,
        ErrorModel::AlreadyDone => "Task is already done"@,
        ErrorModel::Persistence(m) => "Error: "@ + m,
        ErrorModel::Terminal(m) => "Terminal error: "@ + m,
    }
}

impl Error {
    /// The sentence that the error is reported with.
    pub fn message(&self) -> (s: String)
        ensures
            s@ == error_message(self@),
    {
        match self {
            Error::Validation(m) => String::from_str("Err: ").concat(m.as_str()),
            Error::NotFound => String::from_str("Not found"),
            Error::AlreadyDone => String::from_str("Task is already done"),
            Error::Persistence(m) => String::from_str("Error: ").concat(m.as_str()),
            Error::Terminal(m) => String::from_str("Terminal error: ").concat(m.as_str()),
        }
    }
}

} // verus!
