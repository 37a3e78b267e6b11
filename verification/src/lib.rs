//! The engine of a clipboard manager: it watches one clipboard, keeps a
//! deduplicated history of its text, and plans how that history is stored.
//!
//! The crate holds decisions only. A shell around it reads the clipboard,
//! talks to the database, waits on timers and channels, and feeds what it got
//! back in as plain values; every function here is verified for all of them.
//!
//! - [`startup`] leads from the opening of the store to the first poll;
//!   [`storage`] holds the fallback chain, the statements and the order of
//!   the history.
//! - [`poller`] is the polling loop as a state machine; [`trace`] says what
//!   holds of every run of it.
//! - [`gate`] is the private-mode switch that suspends the poller.
//! - [`pump`] says how messages travel to the consumer, and [`window`] what
//!   they do there.
//! - [`config`] holds the settings, [`text`] the decoding of clipboard bytes.

pub mod config;
pub mod gate;
pub mod poller;
pub mod pump;
pub mod startup;
pub mod storage;
pub mod text;
pub mod trace;
pub mod window;
