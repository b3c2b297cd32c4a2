//! Shared condensed-mode flag: atomic toggle and broadcast of the new state.
//!
//! The flag is owned by one `ModeBroadcaster`, mutated only through
//! [`ModeBroadcaster::toggle`], and read through
//! [`ModeBroadcaster::current_mode`]. Callers serialize access with a
//! mutual-exclusion lock around the broadcaster; the outcome of acquiring
//! that lock, and later of dispatching the notification, is reported to the
//! core as a plain value, so every decision the core takes is verified for
//! both outcomes.

use vstd::prelude::*;

use crate::error::CoreError;
use crate::event::StateChangeEvent;

verus! {

/// Outcome of attempting to take exclusive access to the flag.
#[derive(Debug)]
pub enum LockOutcome {
    /// Exclusive access was obtained for the whole read-modify-write.
    Acquired,
    /// The lock primitive is poisoned or corrupted; the diagnostic is kept.
    Poisoned(String),
}

/// Outcome of asking the window host to deliver a state-change event to
/// every open window.
#[derive(Debug)]
pub enum BroadcastOutcome {
    /// The host accepted the event for delivery to all windows.
    Delivered,
    /// Dispatch failed; the diagnostic is kept.
    Dropped(String),
}

/// What a successful toggle hands back: the new flag value for the caller,
/// and the event the host must broadcast for it.
#[derive(Debug, Clone, Copy, PartialEq, Eq, Structural)]
pub struct ToggleOutcome {
    /// The flag value after the inversion, returned to the caller.
    pub new_value: bool,
    /// The notification to deliver to every open window.
    pub event: StateChangeEvent,
}

/// Owner of the process-wide condensed-mode flag.
pub struct ModeBroadcaster {
    condensed: bool,
}

impl ModeBroadcaster {
    /// The flag value, as the contracts see it.
    pub closed spec fn mode(&self) -> bool {
        self.condensed
    }

    /// A fresh broadcaster; the mode starts out not condensed.
    pub fn new() -> (r: ModeBroadcaster)
        ensures
            !r.mode(),
    {
        ModeBroadcaster { condensed: false }
    }

    /// Read-only accessor for late-joining windows: a window that opens
    /// after any number of toggles initializes its display from this value.
    pub fn current_mode(&self) -> (r: bool)
        ensures
            r == self.mode(),
    {
        self.condensed
    }

    /// Invert the flag and capture the new value, as one atomic unit under
    /// the caller's lock.
    ///
    /// With access acquired, the flag is inverted and the returned outcome
    /// carries the new value twice: once for the caller and once inside the
    /// event to broadcast — the two are equal, so no window ever observes a
    /// value different from what the caller was returned.
    ///
    /// With the lock poisoned, the flag keeps its last-known-good value, the
    /// call fails with `StateLockFailed`, and no event is produced, so
    /// nothing is broadcast.
    pub fn toggle(&mut self, lock: LockOutcome) -> (r: Result<ToggleOutcome, CoreError>)
        ensures
            lock is Acquired ==> {
                &&& final(self).mode() == !old(self).mode()
                &&& r matches Ok(out)
                    && out.new_value == final(self).mode()
                    && out.event.value == out.new_value
            },
            lock matches LockOutcome::Poisoned(d) ==> {
                &&& final(self).mode() == old(self).mode()
                &&& r matches Err(e) && e == CoreError::StateLockFailed(d)
            },
    {
        match lock {
            LockOutcome::Acquired => {
                self.condensed = !self.condensed;
                let new_value = self.condensed;
                Ok(ToggleOutcome { new_value, event: StateChangeEvent { value: new_value } })
            },
            LockOutcome::Poisoned(d) => Err(CoreError::StateLockFailed(d)),
        }
    }
}

/// Resolve a toggle after its broadcast was attempted: delivery success
/// yields the new value to the caller; delivery failure surfaces
/// `BroadcastFailed`. The flag is not touched either way — the mutation has
/// already been committed and delivery is a notification-layer concern.
pub fn settle_broadcast(event: &StateChangeEvent, outcome: BroadcastOutcome) -> (r: Result<
    bool,
    CoreError,
>)
    ensures
        outcome is Delivered ==> (r matches Ok(v) && v == event.value),
        outcome matches BroadcastOutcome::Dropped(d) ==> (r matches Err(e) && e
            == CoreError::BroadcastFailed(d)),
{
    match outcome {
        BroadcastOutcome::Delivered => Ok(event.value),
        BroadcastOutcome::Dropped(d) => Err(CoreError::BroadcastFailed(d)),
    }
}

/// The flag after `n` inversions from `init`.
pub open spec fn mode_after(init: bool, n: nat) -> bool
    decreases n,
{
    if n == 0 {
        init
    } else {
        !mode_after(init, (n - 1) as nat)
    }
}

/// `n` inversions from `init` land on `init` XOR (`n` mod 2): the mode a
/// window opening after `n` toggles must observe through the read-only
/// accessor.
pub proof fn lemma_mode_parity(init: bool, n: nat)
    ensures
        mode_after(init, n) == (init != (n % 2 == 1)),
    decreases n,
{
    if n > 0 {
        lemma_mode_parity(init, (n - 1) as nat);
    }
}

/// The flag after a serialized run of toggle calls, each with its lock
/// outcome: an acquired call inverts, a poisoned one leaves the flag alone.
pub open spec fn mode_after_calls(init: bool, calls: Seq<LockOutcome>) -> bool
    decreases calls.len(),
{
    if calls.len() == 0 {
        init
    } else {
        let next = if calls[0] is Acquired {
            !init
        } else {
            init
        };
        mode_after_calls(next, calls.drop_first())
    }
}

/// How many calls of the run obtained the lock.
pub open spec fn acquired_count(calls: Seq<LockOutcome>) -> nat
    decreases calls.len(),
{
    if calls.len() == 0 {
        0
    } else {
        (if calls[0] is Acquired {
            1nat
        } else {
            0nat
        }) + acquired_count(calls.drop_first())
    }
}

/// No lost updates: for any run of toggle calls in any serial order the lock
/// admits, the final flag equals the initial value XOR the parity of the
/// calls that succeeded; failed acquisitions leave no trace.
pub proof fn lemma_run_parity(init: bool, calls: Seq<LockOutcome>)
    ensures
        mode_after_calls(init, calls) == (init != (acquired_count(calls) % 2 == 1)),
    decreases calls.len(),
{
    if calls.len() > 0 {
        let next = if calls[0] is Acquired {
            !init
        } else {
            init
        };
        lemma_run_parity(next, calls.drop_first());
    }
}

/// In a run where every call obtained the lock, every call counts.
pub proof fn lemma_acquired_count_of_full_run(calls: Seq<LockOutcome>)
    requires
        forall|i: int| 0 <= i < calls.len() ==> calls[i] is Acquired,
    ensures
        acquired_count(calls) == calls.len(),
    decreases calls.len(),
{
    if calls.len() > 0 {
        assert forall|i: int| 0 <= i < calls.drop_first().len() implies calls.drop_first()[i]
            is Acquired by {
            assert(calls.drop_first()[i] == calls[i + 1]);
        }
        lemma_acquired_count_of_full_run(calls.drop_first());
    }
}

/// `N` toggle calls, all of which obtained the lock, net to the initial
/// value XOR (`N` mod 2), regardless of the serial order the lock put them
/// in.
pub proof fn lemma_full_run_parity(init: bool, calls: Seq<LockOutcome>)
    requires
        forall|i: int| 0 <= i < calls.len() ==> calls[i] is Acquired,
    ensures
        mode_after_calls(init, calls) == (init != (calls.len() % 2 == 1)),
{
    lemma_acquired_count_of_full_run(calls);
    lemma_run_parity(init, calls);
}

} // verus!
