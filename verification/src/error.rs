//! Errors reported by the generator.

use vstd::prelude::*;
use vstd::string::StringExecFns;

verus! {

/// All possible error kinds.
#[derive(Debug, Copy, Clone, PartialEq, Eq, Structural)]
pub enum ErrorKind {
    /// JSON-LD error.
    JsonLd,
    /// Path format error.
    PathFormat,
    /// I/O error.
    Io,
    /// Template error.
    Template,
}

impl ErrorKind {
    /// The words that introduce an error of this kind.
    pub open spec fn description_text(self) -> Seq<char> {
        match self {
            ErrorKind::JsonLd => "JSON-LD error"@,
            ErrorKind::PathFormat => "Path format error"@,
            ErrorKind::Io => "I/O error"@,
            ErrorKind::Template => "Template error"@,
        }
    }

    /// Returns the words that introduce an error of this kind.
    pub fn description(self) -> (text: &'static str)
        ensures
            text@ == self.description_text(),
    {
        match self {
            ErrorKind::JsonLd => "JSON-LD error",
            ErrorKind::PathFormat => "Path format error",
            ErrorKind::Io => "I/O error",
            ErrorKind::Template => "Template error",
        }
    }
}

/// Library error.
#[derive(Debug)]
pub struct Error {
    kind: ErrorKind,
    info: String,
}

/// What an [`Error`] tells: its kind and the details that go with it.
pub struct ErrorView {
    pub kind: ErrorKind,
    pub info: Seq<char>,
}

impl View for Error {
    type V = ErrorView;

    closed spec fn view(&self) -> ErrorView {
        ErrorView { kind: self.kind, info: self.info@ }
    }
}

impl ErrorView {
    /// The error as one line: the kind's description, a colon and the details.
    pub open spec fn message(self) -> Seq<char> {
        self.kind.description_text() + ": "@ + self.info
    }
}

/// Whether `details` is what the error says of itself: the text that
/// `to_string` gives for it.
pub open spec fn said_by<E: core::fmt::Display>(error: &E, details: Seq<char>) -> bool {
    exists|message: String| #[trigger]
        vstd::string::to_string_from_display_ensures::<E>(error, message) && message@ == details
}

impl Error {
    /// Creates an error of the given kind from an error of another library:
    /// its details are what that error says of itself.
    pub fn of<E: core::fmt::Display>(kind: ErrorKind, error: &E) -> (made: Error)
        ensures
            made@.kind == kind,
            said_by(error, made@.info),
    {
        let message = error.to_string();
        Error::new(kind, message.as_str())
    }

    /// Creates an error of the given kind with its details.
    pub fn new(kind: ErrorKind, info: &str) -> (error: Error)
        ensures
            error@ == (ErrorView { kind, info: info@ }),
    {
        Error { kind, info: info.to_owned() }
    }

    /// Returns the kind of the error.
    pub fn kind(&self) -> (kind: ErrorKind)
        ensures
            kind == self@.kind,
    {
        self.kind
    }

    /// Returns the details of the error.
    pub fn info(&self) -> (info: &str)
        ensures
            info@ == self@.info,
    {
        self.info.as_str()
    }

    /// Returns the error as one line of text.
    pub fn error(&self) -> (line: String)
        ensures
            line@ == self@.message(),
    {
        let line = String::from_str(self.kind.description());
        let line = line.concat(": ");
        line.concat(self.info.as_str())
    }
}

/// A specialized `Result` type.
pub type Result<T> = std::result::Result<T, Error>;

} // verus!
