//! The clipboard poller: one state machine, stepped by the shell.
//!
//! The poller never waits and never reads by itself. It says what it is
//! waiting for ([`Poller::request`]); the shell does that work and hands the
//! result back as a [`Signal`]; [`Poller::step`] answers with the [`Effect`]
//! that the shell has to carry out before it serves the next request.
//!
//! One iteration runs `Idle -> (Parked ->) Ticking -> Reading -> Idle`: private
//! mode is sampled once, at the top; while it is on the poller parks until it
//! is woken; then it waits out one tick and takes one reading of the clipboard.

use vstd::prelude::*;
use crate::text::decode_lossy;
use crate::text::utf8_lossy;

verus! {

/// Milliseconds between two readings of the clipboard.
pub const TICK_MILLIS: u64 = 500;

/// Where the poller stands within an iteration.
#[derive(Clone, Copy, Debug, PartialEq, Eq, Structural)]
pub enum Phase {
    /// At the top of an iteration: the switch has to be sampled.
    Idle,
    /// Private mode was on when the switch was sampled: waiting to be woken.
    Parked,
    /// Waiting for the tick interval to pass.
    Ticking,
    /// Waiting for the reading of the clipboard.
    Reading,
}

/// What the poller is waiting for.
#[derive(Clone, Copy, Debug, PartialEq, Eq, Structural)]
pub enum Request {
    /// The current value of the mode gate.
    Gate,
    /// A wake notification.
    Wake,
    /// The end of the tick interval.
    Tick,
    /// One reading of the clipboard's plain text.
    Read,
}

/// How one reading of the clipboard ended.
#[derive(Clone, Debug, PartialEq, Eq)]
pub enum ReadOutcome {
    /// The bytes that the clipboard handed over.
    Contents(Vec<u8>),
    /// There is no seat to read from.
    NoSeats,
    /// The clipboard is empty.
    ClipboardEmpty,
    /// The clipboard holds nothing that can be had as text.
    NoMimeType,
    /// The clipboard offered text, but reading it failed.
    PipeError(String),
    /// Any other failure.
    OtherError(String),
}

/// A [`ReadOutcome`] by its contents.
pub enum ReadOutcomeView {
    Contents(Seq<u8>),
    NoSeats,
    ClipboardEmpty,
    NoMimeType,
    PipeError(Seq<char>),
    OtherError(Seq<char>),
}

impl View for ReadOutcome {
    type V = ReadOutcomeView;

    open spec fn view(&self) -> ReadOutcomeView {
        match self {
            ReadOutcome::Contents(bytes) => ReadOutcomeView::Contents(bytes@),
            ReadOutcome::NoSeats => ReadOutcomeView::NoSeats,
            ReadOutcome::ClipboardEmpty => ReadOutcomeView::ClipboardEmpty,
            ReadOutcome::NoMimeType => ReadOutcomeView::NoMimeType,
            ReadOutcome::PipeError(detail) => ReadOutcomeView::PipeError(detail@),
            ReadOutcome::OtherError(detail) => ReadOutcomeView::OtherError(detail@),
        }
    }
}

/// What the shell reports to the poller.
#[derive(Clone, Debug, PartialEq, Eq)]
pub enum Signal {
    /// The mode gate was sampled: `true` while private mode is on.
    Gate(bool),
    /// A wake notification arrived.
    Wake,
    /// The tick interval has passed.
    Tick,
    /// The clipboard was read.
    Read(ReadOutcome),
}

/// A [`Signal`] by its contents.
pub enum SignalView {
    Gate(bool),
    Wake,
    Tick,
    Read(ReadOutcomeView),
}

impl View for Signal {
    type V = SignalView;

    open spec fn view(&self) -> SignalView {
        match self {
            Signal::Gate(private_mode) => SignalView::Gate(*private_mode),
            Signal::Wake => SignalView::Wake,
            Signal::Tick => SignalView::Tick,
            Signal::Read(outcome) => SignalView::Read(outcome@),
        }
    }
}

/// What the shell has to do after a step, before it serves the next request.
#[derive(Clone, Debug, PartialEq, Eq)]
pub enum Effect {
    /// Nothing.
    Nothing,
    /// A new entry was captured. Deliver it to the consumer; then, if
    /// `persist` is set, append it to the store and wait until that is done.
    Capture { entry: String, persist: bool },
    /// Reading the offered text failed: log `0`.
    ReportPipeError(String),
    /// The clipboard could not be read: log `0`.
    ReportReadError(String),
}

/// An [`Effect`] by its contents.
pub enum EffectView {
    Nothing,
    Capture { entry: Seq<char>, persist: bool },
    ReportPipeError(Seq<char>),
    ReportReadError(Seq<char>),
}

impl View for Effect {
    type V = EffectView;

    open spec fn view(&self) -> EffectView {
        match self {
            Effect::Nothing => EffectView::Nothing,
            Effect::Capture { entry, persist } => EffectView::Capture {
                entry: entry@,
                persist: *persist,
            },
            Effect::ReportPipeError(detail) => EffectView::ReportPipeError(detail@),
            Effect::ReportReadError(detail) => EffectView::ReportReadError(detail@),
        }
    }
}

/// The poller as a mathematical value.
pub struct PollerView {
    /// Where the poller stands.
    pub phase: Phase,
    /// The text captured last, if any was.
    pub last: Option<Seq<char>>,
    /// Whether captured entries are to be stored.
    pub persist: bool,
}

impl PollerView {
    /// The poller at the start of the process.
    pub open spec fn fresh(persist: bool) -> PollerView {
        PollerView { phase: Phase::Idle, last: None, persist }
    }

    /// What a poller in this phase waits for.
    pub open spec fn request(self) -> Request {
        match self.phase {
            Phase::Idle => Request::Gate,
            Phase::Parked => Request::Wake,
            Phase::Ticking => Request::Tick,
            Phase::Reading => Request::Read,
        }
    }

    /// A text was read: it is dropped if it is the text captured last, and
    /// captured otherwise.
    pub open spec fn accept(self, text: Seq<char>) -> (PollerView, EffectView) {
        if self.last == Some(text) {
            (self, EffectView::Nothing)
        } else {
            (
                PollerView { last: Some(text), ..self },
                EffectView::Capture { entry: text, persist: self.persist },
            )
        }
    }

    /// A reading ended: contents are decoded and accepted as text, a
    /// clipboard without text is passed over, a failure is reported.
    pub open spec fn observe(self, outcome: ReadOutcomeView) -> (PollerView, EffectView) {
        match outcome {
            ReadOutcomeView::Contents(bytes) => self.accept(utf8_lossy(bytes)),
            ReadOutcomeView::NoSeats => (self, EffectView::Nothing),
            ReadOutcomeView::ClipboardEmpty => (self, EffectView::Nothing),
            ReadOutcomeView::NoMimeType => (self, EffectView::Nothing),
            ReadOutcomeView::PipeError(detail) => (self, EffectView::ReportPipeError(detail)),
            ReadOutcomeView::OtherError(detail) => (self, EffectView::ReportReadError(detail)),
        }
    }

    /// One step. A signal that the poller is not waiting for changes nothing.
    pub open spec fn step(self, signal: SignalView) -> (PollerView, EffectView) {
        match (self.phase, signal) {
            (Phase::Idle, SignalView::Gate(private_mode)) => (
                PollerView {
                    phase: if private_mode {
                        Phase::Parked
                    } else {
                        Phase::Ticking
                    },
                    ..self
                },
                EffectView::Nothing,
            ),
            (Phase::Parked, SignalView::Wake) => (
                PollerView { phase: Phase::Ticking, ..self },
                EffectView::Nothing,
            ),
            (Phase::Ticking, SignalView::Tick) => (
                PollerView { phase: Phase::Reading, ..self },
                EffectView::Nothing,
            ),
            (Phase::Reading, SignalView::Read(outcome)) => (PollerView {
                phase: Phase::Idle,
                ..self
            }).observe(outcome),
            _ => (self, EffectView::Nothing),
        }
    }
}

/// The poller: its phase, the text it captured last, and whether captured
/// entries go to the store.
#[derive(Debug)]
pub struct Poller {
    phase: Phase,
    last: Option<String>,
    persist: bool,
}

impl View for Poller {
    type V = PollerView;

    closed spec fn view(&self) -> PollerView {
        PollerView {
            phase: self.phase,
            last: match self.last {
                Some(text) => Some(text@),
                None => None,
            },
            persist: self.persist,
        }
    }
}

impl Poller {
    /// The poller at the start of the process: idle, with nothing captured.
    /// `persist` says whether a store is there to take the entries.
    pub fn new(persist: bool) -> (poller: Poller)
        ensures
            poller@ == PollerView::fresh(persist),
    {
        Poller { phase: Phase::Idle, last: None, persist }
    }

    /// Where the poller stands.
    pub fn phase(&self) -> (phase: Phase)
        ensures
            phase == self@.phase,
    {
        self.phase
    }

    /// The text captured last.
    pub fn last_captured(&self) -> (last: Option<&String>)
        ensures
            match last {
                Some(text) => self@.last == Some(text@),
                None => self@.last is None,
            },
    {
        self.last.as_ref()
    }

    /// Whether captured entries are to be stored.
    pub fn persists(&self) -> (persist: bool)
        ensures
            persist == self@.persist,
    {
        self.persist
    }

    /// What the shell has to supply next.
    pub fn request(&self) -> (request: Request)
        ensures
            request == self@.request(),
    {
        match self.phase {
            Phase::Idle => Request::Gate,
            Phase::Parked => Request::Wake,
            Phase::Ticking => Request::Tick,
            Phase::Reading => Request::Read,
        }
    }

    /// Takes a text that was read from the clipboard: captures it unless it
    /// equals the text captured last.
    pub fn accept(&mut self, text: String) -> (effect: Effect)
        ensures
            (final(self)@, effect@) == old(self)@.accept(text@),
    {
        let duplicate = match &self.last {
            Some(last) => *last == text,
            None => false,
        };
        if duplicate {
            Effect::Nothing
        } else {
            self.last = Some(text.clone());
            Effect::Capture { entry: text, persist: self.persist }
        }
    }

    /// Takes the outcome of one reading: decodes and accepts contents,
    /// passes over a clipboard without text, reports a failure.
    pub fn observe(&mut self, outcome: ReadOutcome) -> (effect: Effect)
        ensures
            (final(self)@, effect@) == old(self)@.observe(outcome@),
    {
        match outcome {
            ReadOutcome::Contents(bytes) => {
                let text = decode_lossy(&bytes);
                self.accept(text)
            },
            ReadOutcome::NoSeats => Effect::Nothing,
            ReadOutcome::ClipboardEmpty => Effect::Nothing,
            ReadOutcome::NoMimeType => Effect::Nothing,
            ReadOutcome::PipeError(detail) => Effect::ReportPipeError(detail),
            ReadOutcome::OtherError(detail) => Effect::ReportReadError(detail),
        }
    }

    /// Takes one signal from the shell and says what follows from it.
    pub fn step(&mut self, signal: Signal) -> (effect: Effect)
        ensures
            (final(self)@, effect@) == old(self)@.step(signal@),
    {
        match self.phase {
            Phase::Idle => match signal {
                Signal::Gate(private_mode) => {
                    self.phase = if private_mode {
                        Phase::Parked
                    } else {
                        Phase::Ticking
                    };
                    Effect::Nothing
                },
                _ => Effect::Nothing,
            },
            Phase::Parked => match signal {
                Signal::Wake => {
                    self.phase = Phase::Ticking;
                    Effect::Nothing
                },
                _ => Effect::Nothing,
            },
            Phase::Ticking => match signal {
                Signal::Tick => {
                    self.phase = Phase::Reading;
                    Effect::Nothing
                },
                _ => Effect::Nothing,
            },
            Phase::Reading => match signal {
                Signal::Read(outcome) => {
                    self.phase = Phase::Idle;
                    self.observe(outcome)
                },
                _ => Effect::Nothing,
            },
        }
    }
}

} // verus!
