use clipboard_manager::config::Config;
use clipboard_manager::gate::ModeGate;
use clipboard_manager::window::{Command, Flags, Message, Window};

fn window(private_mode: bool) -> (Window, ModeGate) {
    let gate = ModeGate::new(false);
    let window = Window::init(Flags { config: Config { private_mode } }, &gate);
    (window, gate)
}

fn strings(texts: &[&str]) -> Vec<String> {
    texts.iter().map(|text| text.to_string()).collect()
}

#[test]
fn init_starts_empty_and_sets_the_switch() {
    let gate = ModeGate::new(false);
    let window = Window::init(Flags { config: Config { private_mode: true } }, &gate);
    assert!(gate.get());
    assert_eq!(window.config(), &Config { private_mode: true });
    assert_eq!(window.popup(), None);
    assert!(window.clipboard_history().is_empty());
    assert!(!window.has_sender());

    let gate = ModeGate::new(true);
    let window = Window::init(Flags { config: Config::default() }, &gate);
    assert!(!gate.get());
    assert_eq!(window.config(), &Config::default());
}

#[test]
fn close_request_becomes_popup_closed() {
    let (window, _) = window(false);
    assert_eq!(window.on_close_requested(7), Some(Message::PopupClosed(7)));
}

#[test]
fn same_config_changes_nothing_and_wakes_nobody() {
    let (mut window, gate) = window(true);
    window.update(Message::Channel, 0, &gate);
    let command = window.update(Message::Config(Config { private_mode: true }), 0, &gate);
    assert_eq!(command, Command::Nothing);
    assert_eq!(window.config(), &Config { private_mode: true });
    assert!(gate.get());
    assert!(window.has_sender());
}

#[test]
fn entering_private_mode_wakes_the_poller() {
    let (mut window, gate) = window(false);
    window.update(Message::Channel, 0, &gate);
    let command = window.update(Message::Config(Config { private_mode: true }), 0, &gate);
    assert_eq!(command, Command::SendWake);
    assert_eq!(window.config(), &Config { private_mode: true });
    assert!(gate.get());
}

#[test]
fn leaving_private_mode_sets_the_switch_without_a_wake() {
    let (mut window, gate) = window(true);
    window.update(Message::Channel, 0, &gate);
    let command = window.update(Message::Config(Config { private_mode: false }), 0, &gate);
    assert_eq!(command, Command::Nothing);
    assert_eq!(window.config(), &Config { private_mode: false });
    assert!(!gate.get());
}

#[test]
fn no_wake_before_the_channel_is_open() {
    let (mut window, gate) = window(false);
    let command = window.update(Message::Config(Config { private_mode: true }), 0, &gate);
    assert_eq!(command, Command::Nothing);
    assert!(gate.get());
    assert_eq!(window.config(), &Config { private_mode: true });
}

#[test]
fn no_wake_where_the_switch_held_the_value_already() {
    let (mut window, gate) = window(false);
    window.update(Message::Channel, 0, &gate);
    gate.reset(true);
    let command = window.update(Message::Config(Config { private_mode: true }), 0, &gate);
    assert_eq!(command, Command::Nothing);
    assert_eq!(window.config(), &Config { private_mode: true });
}

#[test]
fn apply_takes_the_answer_of_the_switch_as_given() {
    let (mut window, _) = window(false);
    assert_eq!(window.apply(Message::Channel, 0, None), Command::Nothing);
    let on = Message::Config(Config { private_mode: true });
    assert_eq!(window.apply(on.clone(), 0, Some(true)), Command::SendWake);
    assert_eq!(window.apply(on, 0, Some(true)), Command::Nothing);
    let off = Message::Config(Config { private_mode: false });
    assert_eq!(window.apply(off, 0, Some(false)), Command::Nothing);
    let on = Message::Config(Config { private_mode: true });
    assert_eq!(window.apply(on, 0, None), Command::Nothing);
    assert_eq!(window.config(), &Config { private_mode: true });
}

#[test]
fn toggle_opens_and_closes_the_popup() {
    let (mut window, gate) = window(false);
    assert_eq!(window.update(Message::TogglePopup, 5, &gate), Command::OpenPopup(5));
    assert_eq!(window.popup(), Some(5));
    assert_eq!(window.update(Message::TogglePopup, 6, &gate), Command::DestroyPopup(5));
    assert_eq!(window.popup(), None);
    assert_eq!(window.update(Message::TogglePopup, 6, &gate), Command::OpenPopup(6));
    assert_eq!(window.popup(), Some(6));
}

#[test]
fn popup_closed_forgets_only_the_open_popup() {
    let (mut window, gate) = window(false);
    window.update(Message::TogglePopup, 5, &gate);
    assert_eq!(window.update(Message::PopupClosed(4), 0, &gate), Command::Nothing);
    assert_eq!(window.popup(), Some(5));
    assert_eq!(window.update(Message::PopupClosed(5), 0, &gate), Command::Nothing);
    assert_eq!(window.popup(), None);
    assert_eq!(window.update(Message::PopupClosed(5), 0, &gate), Command::Nothing);
    assert_eq!(window.popup(), None);
}

#[test]
fn captured_entries_are_appended_to_the_history() {
    let (mut window, gate) = window(false);
    window.update(Message::ClipboardHistroy(strings(&["a", "b"])), 0, &gate);
    assert_eq!(window.clipboard_history(), &strings(&["a", "b"]));
    assert_eq!(
        window.update(Message::ClipboardDone("c".to_string()), 0, &gate),
        Command::Nothing
    );
    window.update(Message::ClipboardDone("c".to_string()), 0, &gate);
    assert_eq!(window.clipboard_history(), &strings(&["a", "b", "c", "c"]));
}

#[test]
fn loaded_history_replaces_what_was_there() {
    let (mut window, gate) = window(false);
    window.update(Message::ClipboardDone("x".to_string()), 0, &gate);
    assert_eq!(
        window.update(Message::ClipboardHistroy(strings(&["a"])), 0, &gate),
        Command::Nothing
    );
    assert_eq!(window.clipboard_history(), &strings(&["a"]));
}

#[test]
fn channel_frame_and_ignore() {
    let (mut window, gate) = window(false);
    assert_eq!(window.update(Message::Channel, 0, &gate), Command::Nothing);
    assert!(window.has_sender());
    assert_eq!(window.update(Message::Frame, 0, &gate), Command::AdvanceTimeline);
    assert_eq!(window.update(Message::Ignore, 0, &gate), Command::Nothing);
    assert!(window.has_sender());
    assert_eq!(window.popup(), None);
    assert!(window.clipboard_history().is_empty());
    assert!(!gate.get());
}
