//! The event pump: the one bounded channel that carries the engine's
//! messages to the consumer, in the order in which they were sent.

use vstd::prelude::*;
use crate::storage::history_of;
use crate::storage::oldest_first;
use crate::storage::HISTORY_LIMIT;
use crate::window::Message;
use crate::window::MessageView;

verus! {

/// How many messages the pump holds for a consumer that lags behind.
pub const EVENT_CAPACITY: usize = 20;

/// How many notifications the poller's wake channel holds.
pub const WAKE_CAPACITY: usize = 1;

/// How a message is put on the pump.
#[derive(Clone, Copy, Debug, PartialEq, Eq, Structural)]
pub enum Delivery {
    /// Without waiting: where the pump does not take the message at once, it
    /// is dropped, and nothing is said.
    BestEffort,
    /// Waiting for room: where the pump is closed, that is logged, and the
    /// engine goes on.
    Blocking,
}

/// How `message` is put on the pump: the loaded history at best effort,
/// everything else waiting for room.
pub open spec fn delivery_of(message: MessageView) -> Delivery {
    match message {
        MessageView::ClipboardHistroy(history) => Delivery::BestEffort,
        _ => Delivery::Blocking,
    }
}

/// How the shell has to send `message`.
pub fn delivery(message: &Message) -> (how: Delivery)
    ensures
        how == delivery_of(message@),
{
    match message {
        Message::ClipboardHistroy(_) => Delivery::BestEffort,
        _ => Delivery::Blocking,
    }
}

/// The message that announces the stored history. `recent` holds the rows
/// of the load, newest first; the message holds at most [`HISTORY_LIMIT`] of
/// them, oldest first.
pub fn history_loaded(recent: Vec<String>) -> (message: Message)
    ensures
        message@ == MessageView::ClipboardHistroy(
            history_of(recent.deep_view(), HISTORY_LIMIT as nat),
        ),
{
    Message::ClipboardHistroy(oldest_first(recent, HISTORY_LIMIT))
}

} // verus!
