//! The failures that the library reports.

use vstd::prelude::*;

verus! {

/// Why an operation on a raw partition did not succeed.
#[derive(Debug, Clone, Copy, PartialEq, Eq, Structural)]
pub enum RawFsError {
    /// Opening, seeking, reading or writing the device failed, or it gave
    /// fewer bytes than were needed.
    IoError,
    /// None of the known filesystem families matched, or the one whose magic
    /// is present has a geometry field that stands for no block size.
    UnknownSignature,
    /// The path does not name anything inside the filesystem.
    PathNotFound,
    /// A new file could not be created.
    CreateFailed,
    /// File contents could not be written in full.
    WriteFailed,
}

/// The description that goes with each failure.
pub open spec fn error_text(e: RawFsError) -> Seq<char> {
    match e {
        RawFsError::IoError => "I/O error on the partition device"@,
        RawFsError::UnknownSignature => "Unknown filesystem signature"@,
        RawFsError::PathNotFound => "Path not found"@,
        RawFsError::CreateFailed => "Failed to create file"@,
        RawFsError::WriteFailed => "Write failed"@,
    }
}

impl RawFsError {
    /// A description of the failure for the person at the screen.
    pub fn message(&self) -> (s: &'static str)
        ensures
            s@ == error_text(*self),
    {
        match self {
            RawFsError::IoError => "I/O error on the partition device",
            RawFsError::UnknownSignature => "Unknown filesystem signature",
            RawFsError::PathNotFound => "Path not found",
            RawFsError::CreateFailed => "Failed to create file",
            RawFsError::WriteFailed => "Write failed",
        }
    }
}

} // verus!
