//! The one error type of the library: a kind, and the chain of causes as
//! text.

use vstd::prelude::*;
use vstd::std_specs::convert::FromSpecImpl;

use crate::Coordinates;

verus! {

/// The three ways in which a request can fail.
#[derive(Clone, Copy, Debug, PartialEq, Eq, Structural)]
pub enum ErrorKind {
    /// A provider could not be reached, or its answer could not be read.
    BackendFailure,
    /// The request is none that the service serves.
    BadRequest,
    /// No provider knows the location.
    LocationNotFound,
}

/// The mathematical value of an [`Error`]: its kind, and the descriptions of
/// the errors that caused it, outermost first.
pub struct ErrorView {
    pub kind: ErrorKind,
    pub cause: Seq<Seq<char>>,
}

impl ErrorView {
    /// An error of the given kind that nothing caused.
    pub open spec fn bare(kind: ErrorKind) -> ErrorView {
        ErrorView { kind, cause: Seq::empty() }
    }

    /// An error of the given kind with a single cause.
    pub open spec fn because(kind: ErrorKind, cause: Seq<char>) -> ErrorView {
        ErrorView { kind, cause: seq![cause] }
    }
}

/// An error of one of the three kinds. The chain of causes is captured as
/// text when the error is built and never changes afterwards.
#[derive(Debug, PartialEq, Eq)]
pub struct Error {
    kind: ErrorKind,
    cause: Vec<String>,
}

impl View for Error {
    type V = ErrorView;

    closed spec fn view(&self) -> ErrorView {
        ErrorView { kind: self.kind, cause: self.cause.deep_view() }
    }
}

/// What a resolution or a single provider came to, with the error taken by
/// its view.
pub open spec fn outcome_view(outcome: Result<Coordinates, Error>) -> Result<
    Coordinates,
    ErrorView,
> {
    match outcome {
        Ok(coords) => Ok(coords),
        Err(e) => Err(e@),
    }
}

/// The text that stands for each kind when an error is shown.
pub open spec fn kind_message(kind: ErrorKind) -> Seq<char> {
    match kind {
        ErrorKind::BackendFailure => "Backend failure"@,
        ErrorKind::BadRequest => "Bad request"@,
        ErrorKind::LocationNotFound => "Location not found"@,
    }
}

impl Error {
    /// An error of kind `kind` caused by an error whose description is
    /// `cause[0]`, itself caused by one whose description is `cause[1]`, and
    /// so on to the innermost. The chain is kept as it is given.
    pub fn new(kind: ErrorKind, cause: Vec<String>) -> (e: Error)
        ensures
            e@ == (ErrorView { kind, cause: cause.deep_view() }),
    {
        Error { kind, cause }
    }

    /// A backend failure caused by an exchange that failed; `cause` holds
    /// the descriptions of the failure and of what is behind it, outermost
    /// first.
    pub fn backend_failure(cause: Vec<String>) -> (e: Error)
        ensures
            e@ == (ErrorView { kind: ErrorKind::BackendFailure, cause: cause.deep_view() }),
    {
        Error { kind: ErrorKind::BackendFailure, cause }
    }

    /// The kind of the error.
    pub fn kind(&self) -> (k: &ErrorKind)
        ensures
            *k == self@.kind,
    {
        &self.kind
    }

    /// The descriptions of the causes, outermost first; empty when the error
    /// was built from a kind alone.
    pub fn cause(&self) -> (c: &Vec<String>)
        ensures
            c.deep_view() == self@.cause,
    {
        &self.cause
    }

    /// What the error says of itself: the message of its kind, whatever
    /// caused it.
    pub fn to_string(&self) -> (s: String)
        ensures
            s@ == kind_message(self@.kind),
    {
        match self.kind {
            ErrorKind::BackendFailure => "Backend failure".to_string(),
            ErrorKind::BadRequest => "Bad request".to_string(),
            ErrorKind::LocationNotFound => "Location not found".to_string(),
        }
    }
}

impl From<ErrorKind> for Error {
    /// An error of kind `kind` that nothing caused.
    fn from(kind: ErrorKind) -> (e: Error)
        ensures
            e@ == ErrorView::bare(kind),
    {
        let e = Error { kind, cause: Vec::new() };
        assert(e.cause.deep_view() =~= Seq::empty());
        e
    }
}

/// `from` is specified by its own `ensures`, over the view: two errors with
/// the same view need not be the same value, so no value is named here.
impl FromSpecImpl<ErrorKind> for Error {
    open spec fn obeys_from_spec() -> bool {
        false
    }

    open spec fn from_spec(kind: ErrorKind) -> Error {
        arbitrary()
    }
}

} // verus!
