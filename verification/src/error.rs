//! The error type of every operation.

use vstd::prelude::*;
use vstd::string::*;

verus! {

/// Why an operation was not carried out.
#[derive(Debug, Clone, PartialEq, Eq)]
pub enum Error {
    /// A precondition on the caller's input failed; the text says which.
    InvalidInput(String),
    /// The engine, or the connection to it, reported a failure; the text is
    /// what it said.
    ClickhouseError(String),
}

/// The mathematical value of an [`Error`].
pub enum ErrorView {
    InvalidInput(Seq<char>),
    ClickhouseError(Seq<char>),
}

impl View for Error {
    type V = ErrorView;

    open spec fn view(&self) -> ErrorView {
        match self {
            Error::InvalidInput(m) => ErrorView::InvalidInput(m@),
            Error::ClickhouseError(m) => ErrorView::ClickhouseError(m@),
        }
    }
}

/// The text an error is shown with.
pub open spec fn error_text(e: ErrorView) -> Seq<char> {
    match e {
        ErrorView::InvalidInput(m) => "Input is invalid: "@ + m,
        ErrorView::ClickhouseError(m) => m,
    }
}

impl Error {
    /// An `InvalidInput` error with the given message.
    pub fn invalid(message: &str) -> (r: Error)
        ensures
            r@ == ErrorView::InvalidInput(message@),
    {
        Error::InvalidInput(String::from_str(message))
    }

    /// Whether the error is a local, user-facing one.
    pub fn is_invalid_input(&self) -> (r: bool)
        ensures
            r == (self@ is InvalidInput),
    {
        match self {
            Error::InvalidInput(_) => true,
            Error::ClickhouseError(_) => false,
        }
    }

    /// The text the error is shown with.
    pub fn message(&self) -> (r: String)
        ensures
            r@ == error_text(self@),
    {
        match self {
            Error::InvalidInput(m) => String::from_str("Input is invalid: ").concat(m.as_str()),
            Error::ClickhouseError(m) => m.clone(),
        }
    }
}

} // verus!
