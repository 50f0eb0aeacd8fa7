//! The failure taxonomy shared by every operation of the library.

use vstd::prelude::*;

verus! {

/// Every way an operation can fail, as a tagged variant so that callers can
/// tell cancellation apart from real failure. The variants that wrap a
/// `String` carry the underlying capability's message verbatim.
#[derive(Debug, Clone, PartialEq, Eq)]
pub enum FileError {
    /// The external configuration capability failed while loading.
    ConfigLoadFailed(String),
    /// The external configuration capability failed while storing.
    ConfigStoreFailed(String),
    /// A file read or write failed (not found, permissions, encoding).
    IoError(String),
    /// The user dismissed the file-selection dialog: a negative outcome,
    /// not an exceptional condition.
    DialogCancelled,
    /// An addon identifier yielded no usable folder stem.
    NoStem,
}

/// The human-readable message carried by an error: the underlying message
/// verbatim for the wrapping variants, a fixed phrase for the others.
pub open spec fn message_spec(e: FileError) -> Seq<char> {
    match e {
        FileError::ConfigLoadFailed(m) => m@,
        FileError::ConfigStoreFailed(m) => m@,
        FileError::IoError(m) => m@,
        FileError::DialogCancelled => "File select canceld."@,
        FileError::NoStem => "No usable folder stem."@,
    }
}

impl FileError {
    /// The message a front end may present for this error.
    pub fn message(&self) -> (r: String)
        ensures
            r@ == message_spec(*self),
    {
        match self {
            FileError::ConfigLoadFailed(m) => m.clone(),
            FileError::ConfigStoreFailed(m) => m.clone(),
            FileError::IoError(m) => m.clone(),
            FileError::DialogCancelled => String::from_str("File select canceld."),
            FileError::NoStem => String::from_str("No usable folder stem."),
        }
    }
}

} // verus!
