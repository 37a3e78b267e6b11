use clipboard_manager::gate::{transition, wake_due, ModeGate};

#[test]
fn gate_holds_what_it_was_made_with() {
    assert!(!ModeGate::new(false).get());
    assert!(ModeGate::new(true).get());
}

#[test]
fn set_writes_the_other_value_and_says_so() {
    let gate = ModeGate::new(false);
    assert_eq!(gate.set(true), Some(true));
    assert!(gate.get());
    assert_eq!(gate.set(false), Some(false));
    assert!(!gate.get());
}

#[test]
fn setting_the_held_value_changes_nothing() {
    let gate = ModeGate::new(true);
    assert_eq!(gate.set(true), None);
    assert!(gate.get());
    assert!(!wake_due(gate.set(true)));
    let gate = ModeGate::new(false);
    assert_eq!(gate.set(false), None);
    assert!(!gate.get());
    assert!(!wake_due(gate.set(false)));
}

#[test]
fn reset_writes_whatever_was_held() {
    let gate = ModeGate::new(false);
    gate.reset(true);
    assert!(gate.get());
    gate.reset(true);
    assert!(gate.get());
    gate.reset(false);
    assert!(!gate.get());
}

#[test]
fn transition_is_the_new_value_where_it_differs() {
    assert_eq!(transition(false, true), Some(true));
    assert_eq!(transition(true, false), Some(false));
    assert_eq!(transition(false, false), None);
    assert_eq!(transition(true, true), None);
}

#[test]
fn change_made_follows_what_the_switch_held() {
    assert_eq!(ModeGate::change_made(Ok(false), true), Some(true));
    assert_eq!(ModeGate::change_made(Ok(true), false), Some(false));
    assert_eq!(ModeGate::change_made(Err(true), true), None);
    assert_eq!(ModeGate::change_made(Err(false), false), None);
}

#[test]
fn only_entering_private_mode_wakes() {
    assert!(wake_due(Some(true)));
    assert!(!wake_due(Some(false)));
    assert!(!wake_due(None));
}

#[test]
fn gate_is_shared_by_reference() {
    let gate = ModeGate::new(false);
    let reader = &gate;
    let writer = &gate;
    assert_eq!(writer.set(true), Some(true));
    assert!(reader.get());
}
