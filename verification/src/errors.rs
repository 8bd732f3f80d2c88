//! The closed set of failure kinds that the operations report. Each variant
//! stands for one failure class of the tool and carries the version it
//! concerns where one is involved; `message` renders the single line that is
//! printed for it.
use vstd::prelude::*;

verus! {

#[derive(Clone, Debug)]
pub enum VmError {
    /// The network retrieval of a version's archive failed: unreachable host
    /// or a non-success response status.
    FetchFailed { version: String },
    /// The archive could not be stored at its cache path in full.
    StoreFailed { version: String },
    /// The active directory's previous contents could not be removed.
    ClearFailed,
    /// The cached archive could not be decompressed or unpacked.
    ExtractFailed,
    /// A directory, removal or symlink operation failed while publishing.
    PublishFailed,
    /// The installed executable could not be invoked, or its output held no
    /// version token.
    ProbeFailed,
    /// A purge was asked of a version that was never downloaded.
    NotFound { version: String },
    /// The cached archive for a purged version could not be deleted.
    RemoveFailed { version: String },
}

/// The printed line for each failure kind.
pub open spec fn spec_message(e: VmError) -> Seq<char> {
    match e {
        VmError::FetchFailed { version } => "Failed to download version "@ + version@,
        VmError::StoreFailed { version } => "Failed to store version "@ + version@,
        VmError::ClearFailed => "Failed to remove current version"@,
        VmError::ExtractFailed => "Failed to extract version"@,
        VmError::PublishFailed => "Failed to publish version"@,
        VmError::ProbeFailed => "Failed to get version"@,
        VmError::NotFound { version } => "Version "@ + version@ + " not found"@,
        VmError::RemoveFailed { version } => "Failed to remove version: "@ + version@,
    }
}

impl VmError {
    pub fn message(&self) -> (r: String)
        ensures
            r@ == spec_message(*self),
    {
        match self {
            VmError::FetchFailed { version } => {
                let mut s = String::from_str("Failed to download version ");
                s.append(version.as_str());
                s
            },
            VmError::StoreFailed { version } => {
                let mut s = String::from_str("Failed to store version ");
                s.append(version.as_str());
                s
            },
            VmError::ClearFailed => String::from_str("Failed to remove current version"),
            VmError::ExtractFailed => String::from_str("Failed to extract version"),
            VmError::PublishFailed => String::from_str("Failed to publish version"),
            VmError::ProbeFailed => String::from_str("Failed to get version"),
            VmError::NotFound { version } => {
                let mut s = String::from_str("Version ");
                s.append(version.as_str());
                s.append(" not found");
                s
            },
            VmError::RemoveFailed { version } => {
                let mut s = String::from_str("Failed to remove version: ");
                s.append(version.as_str());
                s
            },
        }
    }
}

} // verus!
