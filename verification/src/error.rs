//! Errors produced by this crate's own validation logic.
use vstd::prelude::*;

verus! {

/// An input-validation failure: reported immediately, before any
/// network call or process spawn is attempted.
#[derive(Debug, PartialEq, Eq, Structural, Clone, Copy)]
pub enum CliError {
    /// The monitor identifier did not parse as a UUID.
    InvalidMonitorId,
    /// A release-name override was combined with a bundle-id or
    /// version-name override; the three are mutually exclusive.
    ConflictingReleaseArgs,
}

pub open spec fn spec_cli_error_message(e: CliError) -> Seq<char> {
    match e {
        CliError::InvalidMonitorId => "invalid monitor ID"@,
        CliError::ConflictingReleaseArgs => (
        "--release-name cannot be combined with --bundle-id or --version-name"@),
    }
}

impl CliError {
    /// The user-facing diagnostic for this error.
    pub fn message(&self) -> (r: &'static str)
        ensures
            r@ == spec_cli_error_message(*self),
    {
        match self {
            CliError::InvalidMonitorId => "invalid monitor ID",
            CliError::ConflictingReleaseArgs => (
            "--release-name cannot be combined with --bundle-id or --version-name"),
        }
    }
}

} // verus!
