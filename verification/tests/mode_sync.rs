use overlay_core::broadcaster::{
    settle_broadcast, BroadcastOutcome, LockOutcome, ModeBroadcaster,
};
use overlay_core::error::CoreError;
use overlay_core::event::event_name;

#[test]
fn initial_mode_is_not_condensed() {
    let b = ModeBroadcaster::new();
    assert_eq!(b.current_mode(), false);
}

#[test]
fn toggle_from_false_returns_true_with_matching_payload() {
    let mut b = ModeBroadcaster::new();
    let out = b.toggle(LockOutcome::Acquired).unwrap();
    assert_eq!(out.new_value, true);
    assert_eq!(out.event.value, true);
    assert_eq!(b.current_mode(), true);
}

#[test]
fn toggle_twice_returns_false_with_matching_payload() {
    let mut b = ModeBroadcaster::new();
    let first = b.toggle(LockOutcome::Acquired).unwrap();
    assert_eq!(first.new_value, true);
    assert_eq!(first.event.value, true);
    let second = b.toggle(LockOutcome::Acquired).unwrap();
    assert_eq!(second.new_value, false);
    assert_eq!(second.event.value, false);
    assert_eq!(b.current_mode(), false);
}

#[test]
fn returned_value_always_equals_broadcast_payload() {
    let mut b = ModeBroadcaster::new();
    for _ in 0..7 {
        let out = b.toggle(LockOutcome::Acquired).unwrap();
        assert_eq!(out.new_value, out.event.value);
        assert_eq!(out.new_value, b.current_mode());
    }
}

#[test]
fn late_joiner_reads_parity_of_toggle_count() {
    for k in 0..6 {
        let mut b = ModeBroadcaster::new();
        for _ in 0..k {
            b.toggle(LockOutcome::Acquired).unwrap();
        }
        // A window opening now initializes from the accessor: initial value
        // (false) XOR (k mod 2).
        assert_eq!(b.current_mode(), k % 2 == 1);
    }
}

#[test]
fn poisoned_lock_fails_leaves_flag_and_produces_no_event() {
    let mut b = ModeBroadcaster::new();
    b.toggle(LockOutcome::Acquired).unwrap();
    assert_eq!(b.current_mode(), true);

    let r = b.toggle(LockOutcome::Poisoned(String::from("poisoned lock")));
    match r {
        Err(CoreError::StateLockFailed(d)) => assert_eq!(d, "poisoned lock"),
        _ => panic!("expected StateLockFailed"),
    }
    // The failed call returned no outcome, so there is no event to
    // broadcast, and the flag keeps its last-known-good value.
    assert_eq!(b.current_mode(), true);
}

#[test]
fn delivered_broadcast_settles_to_the_event_value() {
    let mut b = ModeBroadcaster::new();
    let out = b.toggle(LockOutcome::Acquired).unwrap();
    let settled = settle_broadcast(&out.event, BroadcastOutcome::Delivered).unwrap();
    assert_eq!(settled, out.new_value);
}

#[test]
fn dropped_broadcast_fails_without_rolling_back_the_flag() {
    let mut b = ModeBroadcaster::new();
    let out = b.toggle(LockOutcome::Acquired).unwrap();
    let r = settle_broadcast(&out.event, BroadcastOutcome::Dropped(String::from("no bus")));
    match r {
        Err(CoreError::BroadcastFailed(d)) => assert_eq!(d, "no bus"),
        _ => panic!("expected BroadcastFailed"),
    }
    assert_eq!(b.current_mode(), true);
}

#[test]
fn event_name_is_the_well_known_one() {
    assert_eq!(event_name(), "condensed-mode-changed");
}

#[test]
fn diagnostic_is_carried_through_every_variant() {
    let variants = [
        CoreError::WindowCreationFailed(String::from("a")),
        CoreError::WindowOperationFailed(String::from("b")),
        CoreError::StateLockFailed(String::from("c")),
        CoreError::BroadcastFailed(String::from("d")),
    ];
    let expected = ["a", "b", "c", "d"];
    for (e, want) in variants.iter().zip(expected.iter()) {
        assert_eq!(e.diagnostic().as_str(), *want);
    }
}
