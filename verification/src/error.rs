//! The closed set of failures that the host can report.
use vstd::prelude::*;
use vstd::string::*;

verus! {

/// `std::io::Error`, carried through as an opaque value.
#[verifier::external_type_specification]
#[verifier::external_body]
pub struct ExIoError(std::io::Error);

/// `glob::PatternError`, carried through as an opaque value.
#[verifier::external_type_specification]
#[verifier::external_body]
pub struct ExPatternError(glob::PatternError);

/// Why an operation of the host failed.
#[derive(Debug)]
pub enum CoreClrError {
    /// The engine found no delegate for the requested method.
    NotFound,
    /// The engine library could not be opened or lacks an entry point; holds the loader's message.
    LibraryError(String),
    /// The filesystem refused to resolve a path.
    IoError(std::io::Error),
    /// A string meant for the engine holds a NUL byte, at this byte offset.
    FfiError(usize),
    /// The engine rejected its initialization.
    InitializationFailure,
    /// A path cannot be written as text.
    PathError(String),
    /// A glob pattern is malformed.
    PatternError(glob::PatternError),
    /// The directory is already in the set.
    Duplicate,
    /// The path does not name a directory.
    NotADirectory,
}

pub type Result<T> = std::result::Result<T, CoreClrError>;

/// The line that describes each kind of failure.
pub open spec fn message_of(error: CoreClrError) -> Seq<char> {
    match error {
        CoreClrError::NotFound => "Not found."@,
        CoreClrError::LibraryError(_) => "Load error."@,
        CoreClrError::IoError(_) => "Standard io error."@,
        CoreClrError::FfiError(_) => "Ffi calling error."@,
        CoreClrError::InitializationFailure => "Failure to initialize CoreClr."@,
        CoreClrError::PathError(_) => "Invalid path result."@,
        CoreClrError::PatternError(_) => "Pattern error."@,
        CoreClrError::Duplicate => "Duplicate path."@,
        CoreClrError::NotADirectory => "Not a directory."@,
    }
}

impl CoreClrError {
    /// A one-line description of the failure, by its kind.
    pub fn message(&self) -> (line: String)
        ensures
            line@ == message_of(*self),
    {
        match self {
            CoreClrError::NotFound => String::from_str("Not found."),
            CoreClrError::LibraryError(_) => String::from_str("Load error."),
            CoreClrError::IoError(_) => String::from_str("Standard io error."),
            CoreClrError::FfiError(_) => String::from_str("Ffi calling error."),
            CoreClrError::InitializationFailure => String::from_str(
                "Failure to initialize CoreClr.",
            ),
            CoreClrError::PathError(_) => String::from_str("Invalid path result."),
            CoreClrError::PatternError(_) => String::from_str("Pattern error."),
            CoreClrError::Duplicate => String::from_str("Duplicate path."),
            CoreClrError::NotADirectory => String::from_str("Not a directory."),
        }
    }
}

} // verus!
