use overlay_core::error::CoreError;
use overlay_core::registry::{
    overlay_label, overlay_route, overlay_title, EnsureAction, HandleSlot, HostReport,
    WindowRegistry, OVERLAY_HEIGHT, OVERLAY_RESIZABLE, OVERLAY_TRANSPARENT, OVERLAY_WIDTH,
};

#[test]
fn first_call_creates_second_call_only_focuses() {
    let mut w = WindowRegistry::new();
    assert_eq!(w.plan(), EnsureAction::Create);
    assert!(w.record(HostReport::CreateOk).is_ok());

    // Second call in a row: the handle is live, so no new window is
    // requested, only a show-and-focus of the existing one.
    assert_eq!(w.plan(), EnsureAction::ShowAndFocus);
    assert!(w.record(HostReport::ShowFocusOk).is_ok());
    assert_eq!(w.plan(), EnsureAction::ShowAndFocus);
}

#[test]
fn overlapping_ensure_calls_never_create_twice() {
    // Two near-simultaneous calls: the registry's critical section makes the
    // second round start only after the first recorded its outcome, so the
    // second observes the live handle and never plans a second creation.
    let mut w = WindowRegistry::new();
    let first = w.plan();
    assert_eq!(first, EnsureAction::Create);
    assert!(w.record(HostReport::CreateOk).is_ok());

    let second = w.plan();
    assert_eq!(second, EnsureAction::ShowAndFocus);
}

#[test]
fn failed_creation_reports_diagnostic_and_keeps_no_handle() {
    let mut w = WindowRegistry::new();
    assert_eq!(w.plan(), EnsureAction::Create);
    let r = w.record(HostReport::CreateFailed(String::from("out of windows")));
    match r {
        Err(CoreError::WindowCreationFailed(d)) => assert_eq!(d, "out of windows"),
        _ => panic!("expected WindowCreationFailed"),
    }
    // No handle was stored, so the next call tries to create again.
    assert_eq!(w.handle_state(), HandleSlot::Absent);
    assert_eq!(w.plan(), EnsureAction::Create);
}

#[test]
fn failed_show_marks_handle_stale_and_next_call_recreates() {
    let mut w = WindowRegistry::new();
    assert!(w.record(HostReport::CreateOk).is_ok());
    assert_eq!(w.plan(), EnsureAction::ShowAndFocus);

    let r = w.record(HostReport::ShowFocusFailed(String::from("window gone")));
    match r {
        Err(CoreError::WindowOperationFailed(d)) => assert_eq!(d, "window gone"),
        _ => panic!("expected WindowOperationFailed"),
    }
    // The handle is possibly stale: the next call attempts one recreation
    // rather than repeatedly failing on it.
    assert_eq!(w.handle_state(), HandleSlot::Stale);
    assert_eq!(w.plan(), EnsureAction::Create);
    assert!(w.record(HostReport::CreateOk).is_ok());
    assert_eq!(w.handle_state(), HandleSlot::Live);
}

#[test]
fn overlay_configuration_is_fixed() {
    assert_eq!(overlay_label(), "overlay");
    assert_eq!(overlay_route(), "/overlay");
    assert_eq!(overlay_title(), "CS2 HUD Overlay");
    assert_eq!(OVERLAY_WIDTH, 1920);
    assert_eq!(OVERLAY_HEIGHT, 1080);
    assert_eq!(OVERLAY_TRANSPARENT, false);
    assert_eq!(OVERLAY_RESIZABLE, true);
}
