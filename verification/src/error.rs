//! What can go wrong between a source file and its bindings.

use vstd::prelude::*;
use vstd::string::*;

verus! {

/// A failure of the build step. Nothing is retried: every failure reaches
/// the caller.
#[derive(Debug)]
pub enum Error {
    /// The upstream compiler ran and reported failure.
    CompilationFailed,
    /// The operating system refused a file or process operation.
    Io(String),
    /// The manifest is malformed or breaks its schema.
    ManifestParse(String),
    /// The destination's extension names no host language.
    InvalidOutputLanguage,
    /// The output could not be written.
    Emit(String),
}

/// An `Error` with its detail as plain text.
pub enum ErrorModel {
    CompilationFailed,
    Io(Seq<char>),
    ManifestParse(Seq<char>),
    InvalidOutputLanguage,
    Emit(Seq<char>),
}

impl View for Error {
    type V = ErrorModel;

    open spec fn view(&self) -> ErrorModel {
        match self {
            Error::CompilationFailed => ErrorModel::CompilationFailed,
            Error::Io(d) => ErrorModel::Io(d@),
            Error::ManifestParse(d) => ErrorModel::ManifestParse(d@),
            Error::InvalidOutputLanguage => ErrorModel::InvalidOutputLanguage,
            Error::Emit(d) => ErrorModel::Emit(d@),
        }
    }
}

impl ErrorModel {
    /// The text that describes the failure to a person.
    pub open spec fn message(self) -> Seq<char> {
        match self {
            ErrorModel::CompilationFailed => "compilation failed"@,
            ErrorModel::Io(d) => "I/O error: "@ + d,
            ErrorModel::ManifestParse(d) => "invalid manifest: "@ + d,
            ErrorModel::InvalidOutputLanguage => "invalid output language"@,
            ErrorModel::Emit(d) => "unable to write output: "@ + d,
        }
    }
}

impl Error {
    /// Describes the failure to a person.
    pub fn message(&self) -> (r: String)
        ensures
            r@ == self@.message(),
    {
        match self {
            Error::CompilationFailed => String::from_str("compilation failed"),
            Error::Io(d) => String::from_str("I/O error: ").concat(d.as_str()),
            Error::ManifestParse(d) => String::from_str("invalid manifest: ").concat(d.as_str()),
            Error::InvalidOutputLanguage => String::from_str("invalid output language"),
            Error::Emit(d) => String::from_str("unable to write output: ").concat(d.as_str()),
        }
    }
}

} // verus!
