//! The start of the engine, before the first poll: the store is opened along
//! its fallback chain; if that gave a connection, the schema is ensured and
//! the stored history is loaded and announced; then the wake channel is
//! opened, and polling begins.
//!
//! Like the poller, the startup does none of this by itself: it names the
//! [`Task`] that is due, and the shell reports how it went.

use vstd::prelude::*;
use crate::pump::history_loaded;
use crate::storage::history_of;
use crate::storage::Attempt;
use crate::storage::Backend;
use crate::storage::Opener;
use crate::storage::HISTORY_LIMIT;
use crate::window::Message;
use crate::window::MessageView;

verus! {

/// What the shell has to do next.
#[derive(Clone, Copy, Debug, PartialEq, Eq, Structural)]
pub enum Task {
    /// Try to open the store in this way, and report whether it opened.
    Open(Attempt),
    /// Create the table of the history unless it is there.
    EnsureSchema,
    /// Load this many of the rows stored last, newest first.
    LoadRecent(usize),
    /// Open the wake channel and hand its sending end to the consumer.
    OpenWakeChannel,
    /// The startup is over: run a poller that persists as said here.
    Poll(bool),
}

/// What the shell reports when a task is done.
#[derive(Clone, Debug, PartialEq, Eq)]
pub enum Report {
    /// An attempt to open the store ended: `true` if it opened.
    Opened(bool),
    /// The table of the history is there.
    SchemaEnsured,
    /// The rows of the load, newest first.
    Loaded(Vec<String>),
    /// The wake channel is open, and the consumer has its sending end.
    WakeChannelOpened,
}

/// A [`Report`] by its contents.
pub enum ReportView {
    Opened(bool),
    SchemaEnsured,
    Loaded(Seq<Seq<char>>),
    WakeChannelOpened,
}

impl View for Report {
    type V = ReportView;

    open spec fn view(&self) -> ReportView {
        match self {
            Report::Opened(opened) => ReportView::Opened(*opened),
            Report::SchemaEnsured => ReportView::SchemaEnsured,
            Report::Loaded(recent) => ReportView::Loaded(recent.deep_view()),
            Report::WakeChannelOpened => ReportView::WakeChannelOpened,
        }
    }
}

/// How far the startup has come.
#[derive(Clone, Copy, Debug, PartialEq, Eq, Structural)]
pub enum Startup {
    /// The store is being opened; this attempt is under way.
    Opening(Attempt),
    /// The store is open; its schema is being ensured.
    Preparing(Backend),
    /// The stored history is being loaded.
    Loading(Backend),
    /// The wake channel is being opened.
    Connecting(Backend),
    /// All is set for polling.
    Ready(Backend),
}

impl Startup {
    /// Where the startup goes on once the fallback chain stands at
    /// `opener`: with the next attempt, with the schema where a store has
    /// opened, and with the wake channel where none has.
    pub open spec fn following(opener: Opener) -> Startup {
        match opener {
            Opener::Trying(attempt) => Startup::Opening(attempt),
            Opener::Settled(backend) => if backend.connected() {
                Startup::Preparing(backend)
            } else {
                Startup::Connecting(backend)
            },
        }
    }

    /// The startup at its beginning.
    pub open spec fn start(path_resolved: bool) -> Startup {
        Startup::following(Opener::start(path_resolved))
    }

    /// The task that is due.
    pub open spec fn due(self) -> Task {
        match self {
            Startup::Opening(attempt) => Task::Open(attempt),
            Startup::Preparing(backend) => Task::EnsureSchema,
            Startup::Loading(backend) => Task::LoadRecent(HISTORY_LIMIT),
            Startup::Connecting(backend) => Task::OpenWakeChannel,
            Startup::Ready(backend) => Task::Poll(backend.connected()),
        }
    }

    /// The startup after `report`, and the message to announce, if there is
    /// one. A report on anything but the task that is due changes nothing.
    pub open spec fn after(self, report: ReportView) -> (Startup, Option<MessageView>) {
        match (self, report) {
            (Startup::Opening(attempt), ReportView::Opened(opened)) => (
                Startup::following(Opener::Trying(attempt).after(opened)),
                None,
            ),
            (Startup::Preparing(backend), ReportView::SchemaEnsured) => (
                Startup::Loading(backend),
                None,
            ),
            (Startup::Loading(backend), ReportView::Loaded(recent)) => (
                Startup::Connecting(backend),
                Some(MessageView::ClipboardHistroy(history_of(recent, HISTORY_LIMIT as nat))),
            ),
            (Startup::Connecting(backend), ReportView::WakeChannelOpened) => (
                Startup::Ready(backend),
                None,
            ),
            _ => (self, None),
        }
    }

    /// How many tasks the startup may still ask for before polling.
    pub open spec fn tasks_left(self) -> nat {
        match self {
            Startup::Opening(Attempt::Durable) => 5,
            Startup::Opening(Attempt::Memory) => 4,
            Startup::Preparing(backend) => 3,
            Startup::Loading(backend) => 2,
            Startup::Connecting(backend) => 1,
            Startup::Ready(backend) => 0,
        }
    }

    /// Begins the startup. `path_resolved` says whether the path of the
    /// database file could be worked out.
    pub fn new(path_resolved: bool) -> (startup: Startup)
        ensures
            startup == Startup::start(path_resolved),
    {
        Startup::Opening(
            if path_resolved {
                Attempt::Durable
            } else {
                Attempt::Memory
            },
        )
    }

    /// The task that the shell has to carry out now.
    pub fn task(&self) -> (task: Task)
        ensures
            task == self.due(),
    {
        match self {
            Startup::Opening(attempt) => Task::Open(*attempt),
            Startup::Preparing(_) => Task::EnsureSchema,
            Startup::Loading(_) => Task::LoadRecent(HISTORY_LIMIT),
            Startup::Connecting(_) => Task::OpenWakeChannel,
            Startup::Ready(backend) => Task::Poll(backend.persists()),
        }
    }

    /// Takes the report on the task that was due, and moves on. What comes
    /// back is the announcement of the loaded history, which is to be put
    /// on the pump before the next task is begun.
    pub fn step(&mut self, report: Report) -> (announcement: Option<Message>)
        ensures
            *final(self) == old(self).after(report@).0,
            match announcement {
                Some(message) => old(self).after(report@).1 == Some(message@),
                None => old(self).after(report@).1 is None,
            },
            final(self).tasks_left() <= old(self).tasks_left(),
    {
        match *self {
            Startup::Opening(attempt) => match report {
                Report::Opened(opened) => {
                    let mut opener = Opener::Trying(attempt);
                    opener.report(opened);
                    *self = match opener {
                        Opener::Trying(next) => Startup::Opening(next),
                        Opener::Settled(backend) => if backend.persists() {
                            Startup::Preparing(backend)
                        } else {
                            Startup::Connecting(backend)
                        },
                    };
                    None
                },
                _ => None,
            },
            Startup::Preparing(backend) => match report {
                Report::SchemaEnsured => {
                    *self = Startup::Loading(backend);
                    None
                },
                _ => None,
            },
            Startup::Loading(backend) => match report {
                Report::Loaded(recent) => {
                    *self = Startup::Connecting(backend);
                    Some(history_loaded(recent))
                },
                _ => None,
            },
            Startup::Connecting(backend) => match report {
                Report::WakeChannelOpened => {
                    *self = Startup::Ready(backend);
                    None
                },
                _ => None,
            },
            Startup::Ready(_) => None,
        }
    }
}

/// The startup after it took `reports`, one after the other, from `start`.
pub open spec fn startup_after(start: Startup, reports: Seq<ReportView>) -> Startup
    decreases reports.len(),
{
    if reports.len() == 0 {
        start
    } else {
        startup_after(start, reports.drop_last()).after(reports.last()).0
    }
}

/// The histories announced on the way, in their order.
pub open spec fn announced(start: Startup, reports: Seq<ReportView>) -> Seq<MessageView>
    decreases reports.len(),
{
    if reports.len() == 0 {
        Seq::empty()
    } else {
        match startup_after(start, reports.drop_last()).after(reports.last()).1 {
            Some(message) => announced(start, reports.drop_last()).push(message),
            None => announced(start, reports.drop_last()),
        }
    }
}

/// Whether the store is asked for anything at this point.
pub open spec fn uses_store(startup: Startup) -> bool {
    startup is Preparing || startup is Loading
}

/// The backend that the startup has settled on, once it has.
pub open spec fn settled(startup: Startup) -> Option<Backend> {
    match startup {
        Startup::Opening(attempt) => None,
        Startup::Preparing(backend) => Some(backend),
        Startup::Loading(backend) => Some(backend),
        Startup::Connecting(backend) => Some(backend),
        Startup::Ready(backend) => Some(backend),
    }
}

/// Whether the startup has settled on a backend with a connection.
pub open spec fn has_connection(startup: Startup) -> bool {
    match settled(startup) {
        Some(backend) => backend.connected(),
        None => false,
    }
}

/// Whatever is reported, the store is asked for its schema and its rows
/// only where there is a connection; without one the startup goes from the
/// failed attempt straight to the wake channel.
pub proof fn lemma_store_is_used_only_when_connected(
    path_resolved: bool,
    reports: Seq<ReportView>,
)
    ensures
        uses_store(startup_after(Startup::start(path_resolved), reports)) ==> has_connection(
            startup_after(Startup::start(path_resolved), reports),
        ),
    decreases reports.len(),
{
    if reports.len() > 0 {
        lemma_store_is_used_only_when_connected(path_resolved, reports.drop_last());
    }
}

/// Whatever is reported, the history is announced at most once, and once it
/// has been announced nothing is asked of the store again. A startup that
/// is past loading announces nothing.
pub proof fn lemma_history_is_announced_once(start: Startup, reports: Seq<ReportView>)
    ensures
        startup_after(start, reports).tasks_left() <= start.tasks_left(),
        announced(start, reports).len() <= 1,
        announced(start, reports).len() == 1 ==> startup_after(start, reports).tasks_left() <= 1,
        start.tasks_left() <= 1 ==> announced(start, reports).len() == 0,
    decreases reports.len(),
{
    if reports.len() > 0 {
        lemma_history_is_announced_once(start, reports.drop_last());
    }
}

/// The startup once it has settled, when every attempt is reported as it
/// went.
pub open spec fn truthful(startup: Startup, durable_opens: bool, memory_opens: bool) -> Startup
    decreases startup.tasks_left(),
{
    match startup {
        Startup::Opening(Attempt::Durable) => truthful(
            startup.after(ReportView::Opened(durable_opens)).0,
            durable_opens,
            memory_opens,
        ),
        Startup::Opening(Attempt::Memory) => truthful(
            startup.after(ReportView::Opened(memory_opens)).0,
            durable_opens,
            memory_opens,
        ),
        _ => startup,
    }
}

/// Where every attempt is reported as it went (the file opens exactly if
/// `durable_opens`, memory exactly if `memory_opens`), the startup settles
/// on the backend that the fallback chain ends with, and the poller
/// persists exactly if that is a connection.
pub proof fn lemma_startup_follows_the_chain(
    opener: Opener,
    durable_opens: bool,
    memory_opens: bool,
)
    ensures
        settled(truthful(Startup::following(opener), durable_opens, memory_opens)) == Some(
            opener.outcome(durable_opens, memory_opens),
        ),
    decreases opener.attempts_left(),
{
    match opener {
        Opener::Trying(Attempt::Durable) => {
            lemma_startup_follows_the_chain(
                opener.after(durable_opens),
                durable_opens,
                memory_opens,
            );
        },
        Opener::Trying(Attempt::Memory) => {
            lemma_startup_follows_the_chain(opener.after(memory_opens), durable_opens, memory_opens);
        },
        Opener::Settled(backend) => {},
    }
}

/// Whether two startups stand at the same point, whichever store they have
/// settled on.
pub open spec fn same_point(one: Startup, other: Startup) -> bool {
    match (one, other) {
        (Startup::Opening(a), Startup::Opening(b)) => a == b,
        (Startup::Preparing(a), Startup::Preparing(b)) => a.connected() == b.connected(),
        (Startup::Loading(a), Startup::Loading(b)) => a.connected() == b.connected(),
        (Startup::Connecting(a), Startup::Connecting(b)) => a.connected() == b.connected(),
        (Startup::Ready(a), Startup::Ready(b)) => a.connected() == b.connected(),
        _ => false,
    }
}

/// Fallback: a store in memory is treated as the file is. From the moment
/// the store is open, whatever is reported, the same tasks are due, the
/// same history is announced, and the poller persists alike.
pub proof fn lemma_memory_is_used_as_the_file(reports: Seq<ReportView>)
    ensures
        same_point(
            startup_after(Startup::Preparing(Backend::Memory), reports),
            startup_after(Startup::Preparing(Backend::Durable), reports),
        ),
        startup_after(Startup::Preparing(Backend::Memory), reports).due() == startup_after(
            Startup::Preparing(Backend::Durable),
            reports,
        ).due(),
        announced(Startup::Preparing(Backend::Memory), reports) == announced(
            Startup::Preparing(Backend::Durable),
            reports,
        ),
    decreases reports.len(),
{
    if reports.len() > 0 {
        lemma_memory_is_used_as_the_file(reports.drop_last());
    }
}

} // verus!
