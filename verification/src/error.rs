//! The two kinds of failure.

use vstd::prelude::*;
use vstd::string::*;

verus! {

/// How an operation of this library fails.
#[derive(Debug, Clone, PartialEq, Eq)]
pub enum Error {
    /// The input can never succeed as given: retrying it verbatim is pointless.
    Fatal { error: String },
    /// The input was transient or ambiguous: the caller may retry with a corrected one.
    Retriable { error: String },
}

/// An error as contracts speak of it: its kind, and its message as characters.
pub enum ErrorView {
    Fatal { error: Seq<char> },
    Retriable { error: Seq<char> },
}

impl View for Error {
    type V = ErrorView;

    open spec fn view(&self) -> ErrorView {
        match self {
            Error::Fatal { error } => ErrorView::Fatal { error: error@ },
            Error::Retriable { error } => ErrorView::Retriable { error: error@ },
        }
    }
}

impl Error {
    /// A non-retriable error with the given message.
    pub fn fatal(message: &str) -> (e: Error)
        ensures
            e@ == (ErrorView::Fatal { error: message@ }),
    {
        Error::Fatal { error: String::from_str(message) }
    }

    /// A retriable error with the given message.
    pub fn retriable(message: &str) -> (e: Error)
        ensures
            e@ == (ErrorView::Retriable { error: message@ }),
    {
        Error::Retriable { error: String::from_str(message) }
    }

    /// Whether the caller may try again.
    pub fn is_retriable(&self) -> (r: bool)
        ensures
            r == (self@ is Retriable),
    {
        match self {
            Error::Fatal { .. } => false,
            Error::Retriable { .. } => true,
        }
    }

    /// The message, whatever the kind.
    pub fn message(&self) -> (m: &str)
        ensures
            m@ == match self@ {
                ErrorView::Fatal { error } => error,
                ErrorView::Retriable { error } => error,
            },
    {
        match self {
            Error::Fatal { error } => error.as_str(),
            Error::Retriable { error } => error.as_str(),
        }
    }
}

} // verus!
