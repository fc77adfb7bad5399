//! The error type shared by every fallible operation of the crate.

use vstd::prelude::*;
use vstd::string::to_string_from_display_ensures;

verus! {

/// `std::io::Error`, carried as it is: nothing is known of what it holds.
#[verifier::external_type_specification]
#[verifier::external_body]
pub struct ExIoError(std::io::Error);

/// `serde_json::Error`, carried as it is: nothing is known of what it holds.
#[verifier::external_type_specification]
#[verifier::external_body]
pub struct ExJsonError(serde_json::Error);

/// `log::SetLoggerError`, carried as it is: nothing is known of what it holds.
#[verifier::external_type_specification]
#[verifier::external_body]
pub struct ExSetLoggerError(log::SetLoggerError);

/// The three classes a failure falls into.
#[derive(Clone, Copy, Debug, PartialEq, Eq, Structural)]
pub enum ErrorKind {
    /// The logger could not be installed.
    Configuration,
    /// A socket could not be created or written to, or a stream not finished.
    Io,
    /// A message could not be serialised, or needs more chunks than a header can count.
    Encoding,
}

/// A failure, carrying what the failing component reported.
#[derive(Debug)]
pub enum GraylogError {
    /// A logger was already installed.
    SetLoggerError(log::SetLoggerError),
    /// An I/O operation failed.
    Io(std::io::Error),
    /// The message could not be serialised as JSON.
    JsonError(serde_json::Error),
    /// The buffer needs `needed` chunks, more than the one-byte count of a
    /// chunk header can express.
    TooManyChunks { needed: usize },
}

impl GraylogError {
    /// The class of this failure.
    pub open spec fn spec_kind(self) -> ErrorKind {
        match self {
            GraylogError::SetLoggerError(_) => ErrorKind::Configuration,
            GraylogError::Io(_) => ErrorKind::Io,
            GraylogError::JsonError(_) => ErrorKind::Encoding,
            GraylogError::TooManyChunks { .. } => ErrorKind::Encoding,
        }
    }

    /// The class of this failure.
    pub fn kind(&self) -> (kind: ErrorKind)
        ensures
            kind == self.spec_kind(),
    {
        match self {
            GraylogError::SetLoggerError(_) => ErrorKind::Configuration,
            GraylogError::Io(_) => ErrorKind::Io,
            GraylogError::JsonError(_) => ErrorKind::Encoding,
            GraylogError::TooManyChunks { .. } => ErrorKind::Encoding,
        }
    }
}

impl GraylogError {
    /// Whether `text` describes this failure: for a failure that another
    /// component reported, what that component displays for it; for a message
    /// that needs too many chunks, a fixed sentence.
    pub open spec fn described_by(self, text: String) -> bool {
        match self {
            GraylogError::SetLoggerError(err) => to_string_from_display_ensures::<
                log::SetLoggerError,
            >(&err, text),
            GraylogError::Io(err) => to_string_from_display_ensures::<std::io::Error>(&err, text),
            GraylogError::JsonError(err) => to_string_from_display_ensures::<serde_json::Error>(
                &err,
                text,
            ),
            GraylogError::TooManyChunks { .. } => text@
                == "the message needs more chunks than a chunk header can count"@,
        }
    }

    /// Describes the failure in words.
    pub fn message(&self) -> (text: String)
        ensures
            self.described_by(text),
    {
        match self {
            GraylogError::SetLoggerError(err) => err.to_string(),
            GraylogError::Io(err) => err.to_string(),
            GraylogError::JsonError(err) => err.to_string(),
            GraylogError::TooManyChunks { .. } => {
                "the message needs more chunks than a chunk header can count".to_owned()
            },
        }
    }
}

impl From<log::SetLoggerError> for GraylogError {
    fn from(err: log::SetLoggerError) -> (res: GraylogError) {
        GraylogError::SetLoggerError(err)
    }
}

impl vstd::std_specs::convert::FromSpecImpl<log::SetLoggerError> for GraylogError {
    open spec fn obeys_from_spec() -> bool {
        true
    }

    open spec fn from_spec(err: log::SetLoggerError) -> GraylogError {
        GraylogError::SetLoggerError(err)
    }
}

impl From<std::io::Error> for GraylogError {
    fn from(err: std::io::Error) -> (res: GraylogError) {
        GraylogError::Io(err)
    }
}

impl vstd::std_specs::convert::FromSpecImpl<std::io::Error> for GraylogError {
    open spec fn obeys_from_spec() -> bool {
        true
    }

    open spec fn from_spec(err: std::io::Error) -> GraylogError {
        GraylogError::Io(err)
    }
}

impl From<serde_json::Error> for GraylogError {
    fn from(err: serde_json::Error) -> (res: GraylogError) {
        GraylogError::JsonError(err)
    }
}

impl vstd::std_specs::convert::FromSpecImpl<serde_json::Error> for GraylogError {
    open spec fn obeys_from_spec() -> bool {
        true
    }

    open spec fn from_spec(err: serde_json::Error) -> GraylogError {
        GraylogError::JsonError(err)
    }
}

} // verus!
