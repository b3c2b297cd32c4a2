//! The state-change notification sent to every open window.

use vstd::prelude::*;

verus! {

/// Immutable point-in-time notification emitted once per successful toggle.
/// It is not persisted and not queued; late-joining windows query the current
/// mode instead.
#[derive(Debug, Clone, Copy, PartialEq, Eq, Structural)]
pub struct StateChangeEvent {
    /// The mode value captured by the toggle that produced this event.
    pub value: bool,
}

/// The well-known name under which every state-change event is delivered.
pub fn event_name() -> (r: &'static str)
    ensures
        r@ == "condensed-mode-changed"@,
{
    "condensed-mode-changed"
}

} // verus!
