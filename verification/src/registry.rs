//! Overlay window lifecycle: at most one overlay window, idempotent
//! "ensure visible" semantics.
//!
//! The registry owns an optional handle slot for the single overlay window.
//! One locked call is a plan–perform–record round: [`WindowRegistry::plan`]
//! decides, inside the caller's critical section, whether the host must
//! create the window or merely show and focus the existing one; the caller
//! performs that one host action and feeds the outcome back through
//! [`WindowRegistry::record`]. The spec-level host model in this module
//! proves that no consistent run of such rounds ever ends with two overlay
//! windows alive.

use vstd::prelude::*;

use crate::error::CoreError;

verus! {

/// The registry's knowledge of the overlay window.
#[derive(Debug, Clone, Copy, PartialEq, Eq, Structural)]
pub enum HandleSlot {
    /// No handle is held; no overlay window exists.
    Absent,
    /// A handle is held and was last seen responding.
    Live,
    /// A handle is held but showing or focusing it failed: the window is
    /// possibly gone, and the next call attempts one recreation instead of
    /// repeatedly failing on the stale handle.
    Stale,
}

/// The single host action one `ensure_overlay` round asks for.
#[derive(Debug, Clone, Copy, PartialEq, Eq, Structural)]
pub enum EnsureAction {
    /// Create the overlay window under its fixed label and configuration.
    Create,
    /// Show the existing overlay window and grant it input focus.
    ShowAndFocus,
}

/// What the host reports back for the action it was asked to perform.
#[derive(Debug)]
pub enum HostReport {
    /// The window was created; the returned handle is now held.
    CreateOk,
    /// Creation failed (resource exhaustion, invalid configuration, or a
    /// window under the fixed label already alive); the diagnostic is kept.
    CreateFailed(String),
    /// The existing window was shown and focused.
    ShowFocusOk,
    /// Showing or focusing the existing window failed; the diagnostic is
    /// kept and the handle is treated as possibly stale.
    ShowFocusFailed(String),
}

/// Fixed logical width of the overlay window.
pub const OVERLAY_WIDTH: u32 = 1920;

/// Fixed logical height of the overlay window.
pub const OVERLAY_HEIGHT: u32 = 1080;

/// The overlay window is not transparent.
pub const OVERLAY_TRANSPARENT: bool = false;

/// The overlay window is resizable.
pub const OVERLAY_RESIZABLE: bool = true;

/// The fixed, well-known identifier under which the single overlay window
/// is created and found again.
pub fn overlay_label() -> (r: &'static str)
    ensures
        r@ == "overlay"@,
{
    "overlay"
}

/// The fixed host-addressable location of the overlay's content.
pub fn overlay_route() -> (r: &'static str)
    ensures
        r@ == "/overlay"@,
{
    "/overlay"
}

/// The overlay window's title.
pub fn overlay_title() -> (r: &'static str)
    ensures
        r@ == "CS2 HUD Overlay"@,
{
    "CS2 HUD Overlay"
}

/// Tracker of the single overlay window.
pub struct WindowRegistry {
    slot: HandleSlot,
}

/// The action a registry in state `s` plans: create unless a live handle is
/// held, otherwise re-show and focus — never a second creation beside a live
/// window.
pub open spec fn plan_of(s: HandleSlot) -> EnsureAction {
    if s is Live {
        EnsureAction::ShowAndFocus
    } else {
        EnsureAction::Create
    }
}

/// How one host report moves the handle slot.
pub open spec fn slot_step(s: HandleSlot, report: HostReport) -> HandleSlot {
    match report {
        HostReport::CreateOk => HandleSlot::Live,
        HostReport::CreateFailed(_) => s,
        HostReport::ShowFocusOk => HandleSlot::Live,
        HostReport::ShowFocusFailed(_) => HandleSlot::Stale,
    }
}

impl WindowRegistry {
    /// The handle slot, as the contracts see it.
    pub closed spec fn slot(&self) -> HandleSlot {
        self.slot
    }

    /// A fresh registry: no handle, no overlay window.
    pub fn new() -> (r: WindowRegistry)
        ensures
            r.slot() == HandleSlot::Absent,
    {
        WindowRegistry { slot: HandleSlot::Absent }
    }

    /// Read-only accessor for the state of the held handle.
    pub fn handle_state(&self) -> (r: HandleSlot)
        ensures
            r == self.slot(),
    {
        self.slot
    }

    /// Decide, inside the caller's critical section, the one host action of
    /// this `ensure_overlay` round. Repeated calls on a live handle keep
    /// planning `ShowAndFocus`: no duplicate window is ever requested.
    pub fn plan(&self) -> (a: EnsureAction)
        ensures
            a == plan_of(self.slot()),
    {
        match self.slot {
            HandleSlot::Live => EnsureAction::ShowAndFocus,
            HandleSlot::Absent => EnsureAction::Create,
            HandleSlot::Stale => EnsureAction::Create,
        }
    }

    /// Record the host's outcome for the planned action and surface the
    /// round's result: success is exactly a `CreateOk` or `ShowFocusOk`
    /// report and leaves a live handle; a failed creation keeps the slot as
    /// it was and signals `WindowCreationFailed`; a failed show or focus
    /// marks the handle stale — to be recreated on the next round — and
    /// signals `WindowOperationFailed`.
    pub fn record(&mut self, report: HostReport) -> (r: Result<(), CoreError>)
        ensures
            final(self).slot() == slot_step(old(self).slot(), report),
            report is CreateOk ==> r is Ok,
            report is ShowFocusOk ==> r is Ok,
            report matches HostReport::CreateFailed(d) ==> (r matches Err(e) && e
                == CoreError::WindowCreationFailed(d)),
            report matches HostReport::ShowFocusFailed(d) ==> (r matches Err(e) && e
                == CoreError::WindowOperationFailed(d)),
    {
        match report {
            HostReport::CreateOk => {
                self.slot = HandleSlot::Live;
                Ok(())
            },
            HostReport::CreateFailed(d) => Err(CoreError::WindowCreationFailed(d)),
            HostReport::ShowFocusOk => {
                self.slot = HandleSlot::Live;
                Ok(())
            },
            HostReport::ShowFocusFailed(d) => {
                self.slot = HandleSlot::Stale;
                Err(CoreError::WindowOperationFailed(d))
            },
        }
    }
}

/// Spec-level picture of registry and host together: the slot the registry
/// holds, and how many overlay windows actually exist under the fixed label.
pub struct HostModel {
    /// The registry's handle slot.
    pub slot: HandleSlot,
    /// Overlay windows alive in the host.
    pub windows: nat,
}

/// Which reports a real host can give in model state `m`. A report answers
/// the planned action; a creation can succeed only while no window is alive
/// under the fixed label (the host refuses a duplicate label), and showing
/// answers a held, live handle. A failed show may or may not have left the
/// window alive; the model keeps the old count, an upper bound, so the
/// at-most-one claim covers both.
pub open spec fn host_consistent(m: HostModel, report: HostReport) -> bool {
    match report {
        HostReport::CreateOk => plan_of(m.slot) is Create && m.windows == 0,
        HostReport::CreateFailed(_) => plan_of(m.slot) is Create,
        HostReport::ShowFocusOk => plan_of(m.slot) is ShowAndFocus && m.windows == 1,
        HostReport::ShowFocusFailed(_) => plan_of(m.slot) is ShowAndFocus,
    }
}

/// How one consistent round moves the model: the slot as in `slot_step`, and
/// the window count up to one exactly on a successful creation.
pub open spec fn model_step(m: HostModel, report: HostReport) -> HostModel {
    HostModel {
        slot: slot_step(m.slot, report),
        windows: if report is CreateOk {
            1
        } else {
            m.windows
        },
    }
}

/// The registry invariant tying slot to reality: no handle means no window,
/// a live handle means exactly the one window, and never more than one
/// overlay window exists.
pub open spec fn model_inv(m: HostModel) -> bool {
    &&& m.slot is Absent ==> m.windows == 0
    &&& m.slot is Live ==> m.windows == 1
    &&& m.windows <= 1
}

/// The model after a run of consistent rounds.
pub open spec fn model_run(m: HostModel, reports: Seq<HostReport>) -> HostModel
    decreases reports.len(),
{
    if reports.len() == 0 {
        m
    } else {
        model_run(model_step(m, reports[0]), reports.drop_first())
    }
}

/// Whether every report of the run is consistent with the model state at the
/// moment it is given.
pub open spec fn run_consistent(m: HostModel, reports: Seq<HostReport>) -> bool
    decreases reports.len(),
{
    reports.len() == 0 || (host_consistent(m, reports[0]) && run_consistent(
        model_step(m, reports[0]),
        reports.drop_first(),
    ))
}

/// One consistent round preserves the registry invariant; in particular it
/// never brings a second overlay window into existence.
pub proof fn lemma_step_preserves_inv(m: HostModel, report: HostReport)
    requires
        model_inv(m),
        host_consistent(m, report),
    ensures
        model_inv(model_step(m, report)),
{
}

/// A successful `ensure_overlay` round — a `CreateOk` or `ShowFocusOk`
/// report, exactly the reports [`WindowRegistry::record`] answers with `Ok`
/// — ends with a live handle to exactly one overlay window: the one the
/// host just created, or the one it just showed and focused.
pub proof fn lemma_successful_round_leaves_live(m: HostModel, report: HostReport)
    requires
        host_consistent(m, report),
        report is CreateOk || report is ShowFocusOk,
    ensures
        model_step(m, report).slot is Live,
        model_step(m, report).windows == 1,
{
}

/// At most one overlay window, at every point of every run: starting from
/// any state satisfying the registry invariant — a fresh registry starts at
/// no handle, no window — after any prefix of any consistent run of
/// `ensure_overlay` rounds the invariant holds, so at no time do two
/// overlay windows exist, however many calls were made and however they
/// interleaved under the registry's lock.
pub proof fn lemma_run_single_window(m: HostModel, reports: Seq<HostReport>)
    requires
        model_inv(m),
        run_consistent(m, reports),
    ensures
        forall|i: int|
            0 <= i <= reports.len() ==> model_inv(model_run(m, reports.take(i)))
                && model_run(m, reports.take(i)).windows <= 1,
    decreases reports.len(),
{
    assert forall|i: int|
        0 <= i <= reports.len() implies model_inv(model_run(m, reports.take(i))) && model_run(
        m,
        reports.take(i),
    ).windows <= 1 by {
        lemma_prefix_inv(m, reports, i);
    }
}

/// The registry invariant after one given prefix of a consistent run.
pub proof fn lemma_prefix_inv(m: HostModel, reports: Seq<HostReport>, i: int)
    requires
        model_inv(m),
        run_consistent(m, reports),
        0 <= i <= reports.len(),
    ensures
        model_inv(model_run(m, reports.take(i))),
    decreases i,
{
    if i == 0 {
        assert(reports.take(0) =~= Seq::<HostReport>::empty());
    } else {
        let stepped = model_step(m, reports[0]);
        lemma_step_preserves_inv(m, reports[0]);
        lemma_prefix_inv(stepped, reports.drop_first(), i - 1);
        assert(reports.take(i).drop_first() =~= reports.drop_first().take(i - 1));
        assert(model_run(m, reports.take(i)) == model_run(
            stepped,
            reports.drop_first().take(i - 1),
        ));
    }
}

} // verus!
