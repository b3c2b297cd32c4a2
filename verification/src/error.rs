//! Failure taxonomy of the overlay core.
//!
//! Every failure carries the host's underlying diagnostic as context; none is
//! silently swallowed.

use vstd::prelude::*;

verus! {

/// What can go wrong while ensuring the overlay window or toggling the mode.
///
/// - `WindowCreationFailed`: the host could not create the overlay window.
/// - `WindowOperationFailed`: showing or focusing an existing window failed;
///   the handle is then treated as possibly stale.
/// - `StateLockFailed`: exclusive access to the mode flag could not be
///   obtained (poisoned or corrupted lock primitive); the flag is left in its
///   last-known-good state.
/// - `BroadcastFailed`: the state-change notification could not be
///   dispatched; the already-committed flag mutation is not rolled back.
#[derive(Debug)]
pub enum CoreError {
    WindowCreationFailed(String),
    WindowOperationFailed(String),
    StateLockFailed(String),
    BroadcastFailed(String),
}

impl CoreError {
    /// The host diagnostic attached to this failure.
    pub fn diagnostic(&self) -> (r: &String)
        ensures
            r == self.diag_spec(),
    {
        match self {
            CoreError::WindowCreationFailed(d) => d,
            CoreError::WindowOperationFailed(d) => d,
            CoreError::StateLockFailed(d) => d,
            CoreError::BroadcastFailed(d) => d,
        }
    }

    /// The diagnostic, as the contracts see it.
    pub open spec fn diag_spec(&self) -> String {
        match self {
            CoreError::WindowCreationFailed(d) => *d,
            CoreError::WindowOperationFailed(d) => *d,
            CoreError::StateLockFailed(d) => *d,
            CoreError::BroadcastFailed(d) => *d,
        }
    }
}

} // verus!
