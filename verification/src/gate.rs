//! The mode gate: the one switch that the configuration side writes and the
//! poller reads, shared between them by reference.

use std::sync::atomic::AtomicBool;
use std::sync::atomic::Ordering;
use vstd::prelude::*;

verus! {

/// What a request for `requested` does to a switch that holds `current`:
/// the new value where the two differ, nothing where they are the same.
pub open spec fn transition_spec(current: bool, requested: bool) -> Option<bool> {
    if current != requested {
        Some(requested)
    } else {
        None
    }
}

/// Whether a change of the switch is signalled to the poller: only entering
/// private mode is.
pub open spec fn wake_due_spec(change: Option<bool>) -> bool {
    change == Some(true)
}

/// The value to write into a switch that holds `current` when `requested`
/// is asked for, if any has to be written.
#[verifier::when_used_as_spec(transition_spec)]
pub fn transition(current: bool, requested: bool) -> (change: Option<bool>)
    ensures
        change == transition_spec(current, requested),
{
    if current != requested {
        Some(requested)
    } else {
        None
    }
}

/// Whether the poller is to be woken after `change`.
#[verifier::when_used_as_spec(wake_due_spec)]
pub fn wake_due(change: Option<bool>) -> (wake: bool)
    ensures
        wake == wake_due_spec(change),
{
    match change {
        Some(private_mode) => private_mode,
        None => false,
    }
}

/// Calls `AtomicBool::fetch_update` with [`transition`] as the update.
///
/// Trusted: as std documents it, the call hands back the value that the cell
/// held, as `Ok` if the update gave a new value for it (which was then
/// written) and as `Err` if it gave none.
#[verifier::external_body]
fn update_flag(flag: &AtomicBool, requested: bool) -> (held: Result<bool, bool>)
    ensures
        match held {
            Ok(current) => transition_spec(current, requested) is Some,
            Err(current) => transition_spec(current, requested) is None,
        },
{
    flag.fetch_update(Ordering::Relaxed, Ordering::Relaxed, |current| transition(current, requested))
}

/// The private-mode switch. Any number of readers and writers may use one
/// switch at the same time.
///
/// Between any two calls another holder may have written the cell, so no
/// contract below promises anything of the value held. What a request does
/// to a given value is stated by [`transition`], and what [`ModeGate::set`]
/// returns for each answer of the cell by [`ModeGate::change_made`].
pub struct ModeGate {
    flag: AtomicBool,
}

impl ModeGate {
    /// A switch that holds `private_mode`.
    pub fn new(private_mode: bool) -> ModeGate {
        ModeGate { flag: AtomicBool::new(private_mode) }
    }

    /// The value that the switch holds now.
    pub fn get(&self) -> bool {
        self.flag.load(Ordering::Relaxed)
    }

    /// Writes `private_mode`, whatever the switch held.
    pub fn reset(&self, private_mode: bool) {
        self.flag.store(private_mode, Ordering::Relaxed)
    }

    /// The change that was made, given what the switch held when `new_value`
    /// was asked for: `Ok` if it was replaced, `Err` if it was left.
    pub fn change_made(held: Result<bool, bool>, new_value: bool) -> (change: Option<bool>)
        ensures
            change == match held {
                Ok(_) => Some(new_value),
                Err(_) => None,
            },
    {
        match held {
            Ok(_) => Some(new_value),
            Err(_) => None,
        }
    }

    /// Asks for `new_value`. The switch is written, in one atomic step, only
    /// if it holds the other value; the result is the value written, or
    /// `None` where the switch held `new_value` already.
    pub fn set(&self, new_value: bool) -> (change: Option<bool>)
        ensures
            change == Some(new_value) || change is None,
            wake_due(change) ==> new_value,
    {
        let held = update_flag(&self.flag, new_value);
        ModeGate::change_made(held, new_value)
    }
}

/// A request for the value that the switch holds already writes nothing and
/// wakes nobody.
pub proof fn lemma_same_value_changes_nothing(value: bool)
    ensures
        transition(value, value) is None,
        !wake_due(transition(value, value)),
{
}

} // verus!
