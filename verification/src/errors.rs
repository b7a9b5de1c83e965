//! The failure conditions of a run. Every failure is terminal: the driver
//! reports it on the error stream and stops the batch.

use vstd::prelude::*;

verus! {

/// Everything that can abort a run, from a missing command-line path to an
/// encoder failure on a single file.
#[derive(Clone, Copy, Debug, PartialEq, Eq, Structural)]
pub enum RunError {
    /// No source path was given on the command line.
    UsageMissingPath,
    /// The source path could not be opened as a directory listing.
    PathUnreadable,
    /// Whether the source or destination exists could not be determined.
    PathCheckFailed,
    /// The output subdirectory could not be created.
    DirCreateFailed,
    /// A directory entry could not be read while enumerating the source.
    EntryReadFailed,
    /// An image file could not be opened or read.
    OpenFailed,
    /// A file opened but its pixel data could not be decoded.
    DecodeFailed,
    /// A source filename could not be represented as a text path component.
    FilenameInvalid,
    /// The resized image could not be encoded or written.
    SaveFailed,
    /// A dimension had to default to the display size, but no display could
    /// be queried.
    DisplayQueryFailed,
}

impl RunError {
    /// The process exit code reserved for this failure kind.
    pub open spec fn exit_code_spec(self) -> u8 {
        match self {
            RunError::UsageMissingPath => 2,
            RunError::PathUnreadable => 3,
            RunError::PathCheckFailed => 4,
            RunError::DirCreateFailed => 5,
            RunError::EntryReadFailed => 6,
            RunError::OpenFailed => 7,
            RunError::DecodeFailed => 8,
            RunError::FilenameInvalid => 9,
            RunError::SaveFailed => 10,
            RunError::DisplayQueryFailed => 11,
        }
    }

    /// A distinct, reproducible, non-zero process exit code for each failure
    /// kind.
    pub fn exit_code(self) -> (c: u8)
        ensures
            c == self.exit_code_spec(),
            c != 0,
    {
        match self {
            RunError::UsageMissingPath => 2,
            RunError::PathUnreadable => 3,
            RunError::PathCheckFailed => 4,
            RunError::DirCreateFailed => 5,
            RunError::EntryReadFailed => 6,
            RunError::OpenFailed => 7,
            RunError::DecodeFailed => 8,
            RunError::FilenameInvalid => 9,
            RunError::SaveFailed => 10,
            RunError::DisplayQueryFailed => 11,
        }
    }

    /// A short human-readable description of the failure, for diagnostics on
    /// the error stream.
    pub fn message(self) -> String {
        match self {
            RunError::UsageMissingPath => "a source path must be provided".to_owned(),
            RunError::PathUnreadable => "the given path could not be read".to_owned(),
            RunError::PathCheckFailed => "could not check whether a path exists".to_owned(),
            RunError::DirCreateFailed => "could not create the folder for resized images".to_owned(),
            RunError::EntryReadFailed => "could not read an item in the folder".to_owned(),
            RunError::OpenFailed => "could not open an image file".to_owned(),
            RunError::DecodeFailed => "could not decode an image file".to_owned(),
            RunError::FilenameInvalid => "a file name could not be converted to a string".to_owned(),
            RunError::SaveFailed => "the resized image could not be saved".to_owned(),
            RunError::DisplayQueryFailed => "no display could be queried for a default size".to_owned(),
        }
    }
}

} // verus!
