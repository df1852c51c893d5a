//! Failure and diagnostic vocabulary shared by the backends and the manager.

use vstd::prelude::*;

verus! {

/// Why an acquisition was refused.
#[derive(Clone, Copy, Debug, PartialEq, Eq, Structural)]
pub enum InhibitError {
    /// The native enable call failed, or the platform offers no such call.
    BackendUnavailable,
}

/// How an engaged backend protects the host.
#[derive(Clone, Copy, Debug, PartialEq, Eq, Structural)]
pub enum EnableStatus {
    /// The platform keeps the host awake.
    Enforced,
    /// The platform is supported but offered no channel to enforce the request;
    /// the session goes on without protection.
    DegradedUnenforced,
}

/// Something worth a line in the log of the embedding program.
#[derive(Clone, Copy, Debug, PartialEq, Eq, Structural)]
pub enum DiagnosticEvent {
    /// The handle with this number was granted.
    Acquired { handle: u64 },
    /// The handle with this number was released.
    Released { handle: u64 },
    /// The backend was engaged without an enforcement channel: the host may
    /// still go to sleep.
    DegradedUnenforced,
    /// The native disable call reported a failure; teardown went on.
    DisableFailed,
}

} // verus!
