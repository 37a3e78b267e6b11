//! The consumer's side: the state behind the panel and what each message
//! does to it.
//!
//! The shell draws the panel and the popup and owns their handles. It gives
//! every message to [`Window::update`] and carries out the [`Command`] that
//! comes back.

use vstd::prelude::*;
use crate::config::Config;
use crate::gate::wake_due;
use crate::gate::ModeGate;

verus! {

/// What reaches the window.
#[derive(Clone, Debug, PartialEq, Eq)]
pub enum Message {
    /// The settings were loaded or changed.
    Config(Config),
    /// The panel button was pressed.
    TogglePopup,
    /// The popup with this handle was closed.
    PopupClosed(u64),
    /// The poller captured this entry.
    ClipboardDone(String),
    /// The stored history was loaded: its entries, oldest first.
    ClipboardHistroy(Vec<String>),
    /// The poller's wake channel is open; the shell holds its sending end.
    Channel,
    /// A frame of the panel's animation is due.
    Frame,
    /// Nothing.
    Ignore,
}

/// A [`Message`] by its contents.
pub enum MessageView {
    Config(Config),
    TogglePopup,
    PopupClosed(u64),
    ClipboardDone(Seq<char>),
    ClipboardHistroy(Seq<Seq<char>>),
    Channel,
    Frame,
    Ignore,
}

impl View for Message {
    type V = MessageView;

    open spec fn view(&self) -> MessageView {
        match self {
            Message::Config(config) => MessageView::Config(*config),
            Message::TogglePopup => MessageView::TogglePopup,
            Message::PopupClosed(id) => MessageView::PopupClosed(*id),
            Message::ClipboardDone(entry) => MessageView::ClipboardDone(entry@),
            Message::ClipboardHistroy(history) => MessageView::ClipboardHistroy(
                history.deep_view(),
            ),
            Message::Channel => MessageView::Channel,
            Message::Frame => MessageView::Frame,
            Message::Ignore => MessageView::Ignore,
        }
    }
}

/// What the shell has to do after a message.
#[derive(Clone, Copy, Debug, PartialEq, Eq, Structural)]
pub enum Command {
    /// Nothing.
    Nothing,
    /// Open the popup under this handle.
    OpenPopup(u64),
    /// Close the popup with this handle.
    DestroyPopup(u64),
    /// Send one notification on the poller's wake channel.
    SendWake,
    /// Move the panel's animation on to the frame's time.
    AdvanceTimeline,
}

/// What the window starts from.
#[derive(Clone, Debug, PartialEq, Eq)]
pub struct Flags {
    /// The settings as they were loaded.
    pub config: Config,
}

/// The window as a mathematical value.
pub struct WindowView {
    /// The handle of the popup, while one is open.
    pub popup: Option<u64>,
    /// The settings in force.
    pub config: Config,
    /// The history, oldest entry first.
    pub history: Seq<Seq<char>>,
    /// Whether the shell holds the sending end of the wake channel.
    pub sender: bool,
}

impl WindowView {
    /// The window before any message.
    pub open spec fn initial(config: Config) -> WindowView {
        WindowView { popup: None, config, history: Seq::empty(), sender: false }
    }

    /// Whether `message` brings settings that turn private mode on.
    pub open spec fn turns_private(self, message: MessageView) -> bool {
        match message {
            MessageView::Config(config) => config != self.config && config.private_mode,
            _ => false,
        }
    }

    /// The window after `message`, and what the shell has to do.
    /// `fresh_popup` is the handle for a popup that the message opens;
    /// `change` is what the mode gate answered where the message changed the
    /// settings.
    pub open spec fn apply(self, message: MessageView, fresh_popup: u64, change: Option<bool>) -> (
        WindowView,
        Command,
    ) {
        match message {
            MessageView::Config(config) => if config == self.config {
                (self, Command::Nothing)
            } else {
                (
                    WindowView { config, ..self },
                    if self.sender && wake_due(change) {
                        Command::SendWake
                    } else {
                        Command::Nothing
                    },
                )
            },
            MessageView::TogglePopup => match self.popup {
                Some(open) => (WindowView { popup: None, ..self }, Command::DestroyPopup(open)),
                None => (
                    WindowView { popup: Some(fresh_popup), ..self },
                    Command::OpenPopup(fresh_popup),
                ),
            },
            MessageView::PopupClosed(id) => if self.popup == Some(id) {
                (WindowView { popup: None, ..self }, Command::Nothing)
            } else {
                (self, Command::Nothing)
            },
            MessageView::ClipboardDone(entry) => (
                WindowView { history: self.history.push(entry), ..self },
                Command::Nothing,
            ),
            MessageView::ClipboardHistroy(history) => (
                WindowView { history, ..self },
                Command::Nothing,
            ),
            MessageView::Channel => (WindowView { sender: true, ..self }, Command::Nothing),
            MessageView::Frame => (self, Command::AdvanceTimeline),
            MessageView::Ignore => (self, Command::Nothing),
        }
    }
}

/// The state behind the panel.
#[derive(Debug)]
pub struct Window {
    popup: Option<u64>,
    config: Config,
    clipboard_history: Vec<String>,
    sender: bool,
}

impl View for Window {
    type V = WindowView;

    closed spec fn view(&self) -> WindowView {
        WindowView {
            popup: self.popup,
            config: self.config,
            history: self.clipboard_history.deep_view(),
            sender: self.sender,
        }
    }
}

impl Window {
    /// Sets the window up from the loaded settings, and the mode gate with
    /// it: the switch is given the private mode of `flags`.
    pub fn init(flags: Flags, gate: &ModeGate) -> (window: Window)
        ensures
            window@ == WindowView::initial(flags.config),
    {
        gate.reset(flags.config.private_mode);
        let window = Window {
            popup: None,
            config: flags.config,
            clipboard_history: Vec::new(),
            sender: false,
        };
        assert(window.clipboard_history.deep_view() =~= Seq::<Seq<char>>::empty());
        window
    }

    /// The message that tells the window that the shell closed the popup
    /// `id`.
    pub fn on_close_requested(&self, id: u64) -> (message: Option<Message>)
        ensures
            message matches Some(closed) && closed@ == MessageView::PopupClosed(id),
    {
        Some(Message::PopupClosed(id))
    }

    /// The handle of the popup, while one is open.
    pub fn popup(&self) -> (popup: Option<u64>)
        ensures
            popup == self@.popup,
    {
        self.popup
    }

    /// The settings in force.
    pub fn config(&self) -> (config: &Config)
        ensures
            *config == self@.config,
    {
        &self.config
    }

    /// The history, oldest entry first.
    pub fn clipboard_history(&self) -> (history: &Vec<String>)
        ensures
            history.deep_view() == self@.history,
    {
        &self.clipboard_history
    }

    /// Whether the shell was handed the sending end of the wake channel.
    pub fn has_sender(&self) -> (sender: bool)
        ensures
            sender == self@.sender,
    {
        self.sender
    }

    /// Takes `message`, given what the mode gate answered: `change` is the
    /// result of asking the switch for the private mode of new settings, and
    /// is not looked at for any other message.
    pub fn apply(&mut self, message: Message, fresh_popup: u64, change: Option<bool>) -> (command:
        Command)
        ensures
            (final(self)@, command) == old(self)@.apply(message@, fresh_popup, change),
    {
        match message {
            Message::Config(config) => {
                if config == self.config {
                    Command::Nothing
                } else {
                    self.config = config;
                    if self.sender && wake_due(change) {
                        Command::SendWake
                    } else {
                        Command::Nothing
                    }
                }
            },
            Message::TogglePopup => match self.popup {
                Some(open) => {
                    self.popup = None;
                    Command::DestroyPopup(open)
                },
                None => {
                    self.popup = Some(fresh_popup);
                    Command::OpenPopup(fresh_popup)
                },
            },
            Message::PopupClosed(id) => {
                let current = match self.popup {
                    Some(open) => open == id,
                    None => false,
                };
                if current {
                    self.popup = None;
                }
                Command::Nothing
            },
            Message::ClipboardDone(entry) => {
                let ghost before = self.clipboard_history.deep_view();
                self.clipboard_history.push(entry);
                assert(self.clipboard_history.deep_view() =~= before.push(entry@));
                Command::Nothing
            },
            Message::ClipboardHistroy(history) => {
                self.clipboard_history = history;
                Command::Nothing
            },
            Message::Channel => {
                self.sender = true;
                Command::Nothing
            },
            Message::Frame => Command::AdvanceTimeline,
            Message::Ignore => Command::Nothing,
        }
    }

    /// Takes `message`. New settings are put in force, and their private
    /// mode is asked of `gate`; where that turned private mode on and the
    /// wake channel is open, the poller is to be woken. Settings equal to
    /// those in force change nothing, and leave the switch alone. Every other
    /// message does what [`WindowView::apply`] says, whatever the switch.
    pub fn update(&mut self, message: Message, fresh_popup: u64, gate: &ModeGate) -> (command:
        Command)
        ensures
            final(self)@ == old(self)@.apply(message@, fresh_popup, None).0,
            command == old(self)@.apply(message@, fresh_popup, None).1 || (command
                == Command::SendWake && old(self)@.sender && old(self)@.turns_private(message@)),
            message@ == MessageView::Config(old(self)@.config) ==> final(self)@ == old(self)@
                && command == Command::Nothing,
    {
        let change = match &message {
            Message::Config(config) => {
                if *config == self.config {
                    None
                } else {
                    gate.set(config.private_mode)
                }
            },
            _ => None,
        };
        self.apply(message, fresh_popup, change)
    }
}

} // verus!
