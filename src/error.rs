//! The ways in which binding or unbinding a module can fail.
use vstd::prelude::*;

verus! {

/// Why an override operation did not complete.
#[derive(Debug, Clone, PartialEq, Eq)]
pub enum OverrideError {
    /// The module name is in no class of the registry; holds the name looked up.
    ModuleNotFound(String),
    /// The checkout of the source location did not complete; holds the
    /// checkout tool's exit status, when it had one.
    CheckoutFailed(Option<i32>),
    /// The working copy holds uncommitted changes; holds the status report.
    WorkingCopyDirty(String),
    /// The working copy holds commits not pushed upstream; holds the diff summary.
    UnpushedChanges(String),
    /// The version-control tool could not be run or answered with an error.
    VcsUnavailable,
    /// The manifest has no override table at all.
    OverrideTableMissing,
    /// A document could not be parsed, or does not have the expected shape.
    ManifestParseError,
    /// The manifest could not be serialized or written back.
    ManifestWriteError,
    /// The manifest and the working copies on disk disagree.
    InconsistentOverrideState,
}

/// The name of the failure kind of `e`.
pub open spec fn kind_name(e: OverrideError) -> Seq<char> {
    match e {
        OverrideError::ModuleNotFound(_) => "ModuleNotFound"@,
        OverrideError::CheckoutFailed(_) => "CheckoutFailed"@,
        OverrideError::WorkingCopyDirty(_) => "WorkingCopyDirty"@,
        OverrideError::UnpushedChanges(_) => "UnpushedChanges"@,
        OverrideError::VcsUnavailable => "VcsUnavailable"@,
        OverrideError::OverrideTableMissing => "OverrideTableMissing"@,
        OverrideError::ManifestParseError => "ManifestParseError"@,
        OverrideError::ManifestWriteError => "ManifestWriteError"@,
        OverrideError::InconsistentOverrideState => "InconsistentOverrideState"@,
    }
}

impl OverrideError {
    /// The name of the failure kind.
    pub fn kind(&self) -> (r: &'static str)
        ensures
            r@ == kind_name(*self),
    {
        match self {
            OverrideError::ModuleNotFound(_) => "ModuleNotFound",
            OverrideError::CheckoutFailed(_) => "CheckoutFailed",
            OverrideError::WorkingCopyDirty(_) => "WorkingCopyDirty",
            OverrideError::UnpushedChanges(_) => "UnpushedChanges",
            OverrideError::VcsUnavailable => "VcsUnavailable",
            OverrideError::OverrideTableMissing => "OverrideTableMissing",
            OverrideError::ManifestParseError => "ManifestParseError",
            OverrideError::ManifestWriteError => "ManifestWriteError",
            OverrideError::InconsistentOverrideState => "InconsistentOverrideState",
        }
    }
}

} // verus!
