//! The closed set of failures, and the phases of the protocol they arise in.

use vstd::prelude::*;

verus! {

/// Why a target could not be destroyed.
#[derive(Clone, Copy, Debug, PartialEq, Eq, Structural)]
pub enum ShredError {
    /// The target does not exist.
    NotFound,
    /// The host refused an open, write, rename or unlink.
    PermissionDenied,
    /// The entropy source gave no bytes, or gave bytes that cannot be trusted.
    RandomSourceUnavailable,
    /// Any other failure of a file operation.
    IoFailure,
    /// A directory could not be removed because a child survived.
    DirectoryNotEmpty,
}

/// What the host reports when a file operation fails.
#[derive(Clone, Copy, Debug, PartialEq, Eq, Structural)]
pub enum IoFault {
    /// No such file or directory.
    Missing,
    /// Not authorised.
    Denied,
    /// The directory still has entries.
    Occupied,
    /// Anything else: disk full, device gone, hardware error.
    Other,
}

/// The step of the work in which a failure arose.
#[derive(Clone, Copy, Debug, PartialEq, Eq, Structural)]
pub enum Phase {
    /// Finding out what kind of thing a path names.
    Classify,
    /// Reading the entries of a directory.
    List,
    /// Opening the file for writing.
    Open,
    /// Reading the file's length.
    Measure,
    /// Writing random bytes over the content, and flushing each pass.
    Overwrite,
    /// Cutting the file down to nothing, and flushing that.
    Truncate,
    /// Giving the file a random name.
    Rename,
    /// Removing the renamed file.
    Unlink,
    /// Removing an emptied directory.
    RemoveDirectory,
}

/// A failure together with the phase that it stopped.
#[derive(Clone, Copy, Debug, PartialEq, Eq, Structural)]
pub struct Failure {
    pub kind: ShredError,
    pub phase: Phase,
}

/// The error that a host fault stands for.
pub open spec fn classified(fault: IoFault) -> ShredError {
    match fault {
        IoFault::Missing => ShredError::NotFound,
        IoFault::Denied => ShredError::PermissionDenied,
        IoFault::Occupied => ShredError::DirectoryNotEmpty,
        IoFault::Other => ShredError::IoFailure,
    }
}

/// Maps a host fault to the error it stands for.
pub fn classify(fault: IoFault) -> (kind: ShredError)
    ensures
        kind == classified(fault),
{
    match fault {
        IoFault::Missing => ShredError::NotFound,
        IoFault::Denied => ShredError::PermissionDenied,
        IoFault::Occupied => ShredError::DirectoryNotEmpty,
        IoFault::Other => ShredError::IoFailure,
    }
}

impl Failure {
    /// The failure that a host fault causes in a phase.
    pub open spec fn raised(fault: IoFault, phase: Phase) -> Failure {
        Failure { kind: classified(fault), phase }
    }

    /// Builds the failure that a host fault causes in a phase.
    pub fn from_fault(fault: IoFault, phase: Phase) -> (failure: Failure)
        ensures
            failure == Failure::raised(fault, phase),
    {
        Failure { kind: classify(fault), phase }
    }

    /// A short text for the failure's kind.
    pub fn describe(&self) -> (text: &'static str)
        ensures
            text@ == described(self.kind),
    {
        match self.kind {
            ShredError::NotFound => "not found",
            ShredError::PermissionDenied => "permission denied",
            ShredError::RandomSourceUnavailable => "random source unavailable",
            ShredError::IoFailure => "input/output failure",
            ShredError::DirectoryNotEmpty => "directory not empty",
        }
    }
}

/// The text that names a kind of failure.
pub open spec fn described(kind: ShredError) -> Seq<char> {
    match kind {
        ShredError::NotFound => "not found"@,
        ShredError::PermissionDenied => "permission denied"@,
        ShredError::RandomSourceUnavailable => "random source unavailable"@,
        ShredError::IoFailure => "input/output failure"@,
        ShredError::DirectoryNotEmpty => "directory not empty"@,
    }
}

} // verus!
