//! The store of the history: where it is opened, what is asked of it, and in
//! what order its rows become the history.
//!
//! The shell owns the connection. This module decides which connection it
//! tries to open, holds the statements that it runs, and turns the rows that
//! came back into the history that the consumer is given.

use vstd::prelude::*;

verus! {

/// The name of the application, and of its directory under the user's data.
pub const ID: &'static str = "dev.dominiccgeh.CosmicAppletClipboardManager";

/// The name of the database file in that directory.
pub const HISTORY_FILE: &'static str = "history";

/// The path that opens a store in memory.
pub const MEMORY_PATH: &'static str = ":memory:";

/// How many entries of the stored history are loaded at the start.
pub const HISTORY_LIMIT: usize = 100;

/// Creates the table of the history, unless it is there: a key that grows
/// with every row, the time of the insertion, and the text.
pub const CREATE_TABLE: &'static str =
    "create table if not exists clipboard_history (id INTEGER PRIMARY KEY, timestamp DATETIME DEFAULT CURRENT_TIMESTAMP, content TEXT)";

/// Selects the rows inserted last, newest first. Its one parameter is the
/// number of rows to select.
pub const SELECT_RECENT: &'static str =
    "SELECT content FROM clipboard_history ORDER BY id DESC LIMIT ?";

/// Appends one row. Its one parameter is the text.
pub const INSERT_ENTRY: &'static str = "insert into clipboard_history (content) values (?)";

/// A way to open the store.
#[derive(Clone, Copy, Debug, PartialEq, Eq, Structural)]
pub enum Attempt {
    /// The database file under the user's data directory.
    Durable,
    /// A database in memory, gone with the process.
    Memory,
}

/// The store that the process works with, once and for all.
#[derive(Clone, Copy, Debug, PartialEq, Eq, Structural)]
pub enum Backend {
    /// The database file.
    Durable,
    /// The database in memory.
    Memory,
    /// None: nothing is stored or loaded.
    Unavailable,
}

impl Backend {
    /// Whether there is a connection to store entries in.
    pub open spec fn connected(self) -> bool {
        self != Backend::Unavailable
    }

    /// Whether there is a connection: whether the schema is to be ensured,
    /// the history loaded and captured entries appended.
    #[verifier::when_used_as_spec(connected)]
    pub fn persists(self) -> (persists: bool)
        ensures
            persists == self.connected(),
    {
        match self {
            Backend::Unavailable => false,
            _ => true,
        }
    }
}

/// The fallback chain for opening the store: the file first, where its path
/// is known, then memory; each at most once.
#[derive(Clone, Copy, Debug, PartialEq, Eq, Structural)]
pub enum Opener {
    /// The shell has to try this and report how it went.
    Trying(Attempt),
    /// The chain has ended with this store.
    Settled(Backend),
}

impl Opener {
    /// The chain at its start.
    pub open spec fn start(path_resolved: bool) -> Opener {
        if path_resolved {
            Opener::Trying(Attempt::Durable)
        } else {
            Opener::Trying(Attempt::Memory)
        }
    }

    /// The chain after the pending attempt `opened` or failed.
    pub open spec fn after(self, opened: bool) -> Opener {
        match self {
            Opener::Trying(Attempt::Durable) => if opened {
                Opener::Settled(Backend::Durable)
            } else {
                Opener::Trying(Attempt::Memory)
            },
            Opener::Trying(Attempt::Memory) => if opened {
                Opener::Settled(Backend::Memory)
            } else {
                Opener::Settled(Backend::Unavailable)
            },
            Opener::Settled(backend) => self,
        }
    }

    /// How many attempts the chain may still ask for.
    pub open spec fn attempts_left(self) -> nat {
        match self {
            Opener::Trying(Attempt::Durable) => 2,
            Opener::Trying(Attempt::Memory) => 1,
            Opener::Settled(backend) => 0,
        }
    }

    /// Where the chain ends when the file opens exactly if `durable_opens`
    /// and memory exactly if `memory_opens`.
    pub open spec fn outcome(self, durable_opens: bool, memory_opens: bool) -> Backend
        decreases self.attempts_left(),
    {
        match self {
            Opener::Trying(Attempt::Durable) => self.after(durable_opens).outcome(
                durable_opens,
                memory_opens,
            ),
            Opener::Trying(Attempt::Memory) => self.after(memory_opens).outcome(
                durable_opens,
                memory_opens,
            ),
            Opener::Settled(backend) => backend,
        }
    }

    /// Starts the chain. `path_resolved` says whether the path of the
    /// database file could be worked out.
    pub fn new(path_resolved: bool) -> (opener: Opener)
        ensures
            opener == Opener::start(path_resolved),
    {
        if path_resolved {
            Opener::Trying(Attempt::Durable)
        } else {
            Opener::Trying(Attempt::Memory)
        }
    }

    /// The attempt that the shell has to make now, if the chain has not
    /// ended.
    pub fn pending(&self) -> (attempt: Option<Attempt>)
        ensures
            attempt == match *self {
                Opener::Trying(pending) => Some(pending),
                Opener::Settled(backend) => None,
            },
    {
        match self {
            Opener::Trying(pending) => Some(*pending),
            Opener::Settled(_) => None,
        }
    }

    /// Takes the result of the pending attempt. A failure of the file falls
    /// back to memory; a failure of memory leaves the process without a
    /// store. A chain that has ended stays as it is.
    pub fn report(&mut self, opened: bool)
        ensures
            *final(self) == old(self).after(opened),
            final(self).attempts_left() < old(self).attempts_left() || *old(self) is Settled,
    {
        let next = match *self {
            Opener::Trying(Attempt::Durable) => if opened {
                Opener::Settled(Backend::Durable)
            } else {
                Opener::Trying(Attempt::Memory)
            },
            Opener::Trying(Attempt::Memory) => if opened {
                Opener::Settled(Backend::Memory)
            } else {
                Opener::Settled(Backend::Unavailable)
            },
            Opener::Settled(backend) => Opener::Settled(backend),
        };
        *self = next;
    }

    /// The store that the chain ended with, once it has ended.
    pub fn backend(&self) -> (backend: Option<Backend>)
        ensures
            backend == match *self {
                Opener::Trying(pending) => None,
                Opener::Settled(settled) => Some(settled),
            },
    {
        match self {
            Opener::Trying(_) => None,
            Opener::Settled(settled) => Some(*settled),
        }
    }
}

/// The chain ends with the file where its path is known and it opens, with
/// memory where that is not so and memory opens, and without a store only
/// where memory does not open.
pub proof fn lemma_chain_outcome(path_resolved: bool, durable_opens: bool, memory_opens: bool)
    ensures
        Opener::start(path_resolved).outcome(durable_opens, memory_opens) == if path_resolved
            && durable_opens {
            Backend::Durable
        } else if memory_opens {
            Backend::Memory
        } else {
            Backend::Unavailable
        },
        memory_opens ==> Opener::start(path_resolved).outcome(
            durable_opens,
            memory_opens,
        ).connected(),
{
    reveal_with_fuel(Opener::outcome, 3);
}

/// Once an attempt has been reported, the file is never tried again, and a
/// second report ends the chain.
pub proof fn lemma_chain_is_short(opener: Opener, first: bool, second: bool)
    ensures
        opener.after(first) != Opener::Trying(Attempt::Durable),
        opener.after(first).after(second) is Settled,
{
}

/// The rows that a load of at most `limit` has to bring from a table that
/// holds `stored`, oldest row first: the last `limit` of them, or all where
/// there are fewer, newest first.
pub open spec fn most_recent(stored: Seq<Seq<char>>, limit: nat) -> Seq<Seq<char>> {
    stored.skip(stored.len() - kept(stored.len(), limit)).reverse()
}

/// How many of `len` rows a load of at most `limit` keeps.
pub open spec fn kept(len: nat, limit: nat) -> nat {
    if len <= limit {
        len
    } else {
        limit
    }
}

/// The history that the rows of a load make. `recent` holds them newest
/// first; the history holds the first `limit` of them, or all where there
/// are fewer, from the oldest to the newest.
pub open spec fn history_of(recent: Seq<Seq<char>>, limit: nat) -> Seq<Seq<char>> {
    recent.take(kept(recent.len(), limit) as int).reverse()
}

/// Turns the rows of a load, which come newest first, into the history,
/// which runs from the oldest entry to the newest. Rows beyond the first
/// `limit` are left out.
pub fn oldest_first(recent: Vec<String>, limit: usize) -> (history: Vec<String>)
    ensures
        history.deep_view() == history_of(recent.deep_view(), limit as nat),
{
    let mut rest = recent;
    rest.truncate(limit);
    let ghost newest = rest.deep_view();
    let mut history: Vec<String> = Vec::new();
    while rest.len() > 0
        invariant
            rest.len() + history.len() == newest.len(),
            rest.deep_view() =~= newest.take(rest.len() as int),
            forall|j: int|
                0 <= j < history.len() ==> (#[trigger] history[j])@ == newest[newest.len() - 1
                    - j],
        decreases rest.len(),
    {
        let ghost before = rest.deep_view();
        let popped = rest.pop();
        match popped {
            Some(entry) => {
                assert(entry@ == before[before.len() - 1]);
                history.push(entry);
            },
            None => {},
        }
    }
    history
}

/// History bound: what a load of at most `limit` rows becomes is the tail of
/// the table, in the order of insertion: the `limit` rows stored last, or
/// all of them where there are fewer.
pub proof fn lemma_loaded_history_is_tail(stored: Seq<Seq<char>>, limit: nat)
    ensures
        most_recent(stored, limit).len() == kept(stored.len(), limit),
        most_recent(stored, limit).len() <= limit,
        forall|i: int|
            0 <= i < most_recent(stored, limit).len() ==> #[trigger] most_recent(stored, limit)[i]
                == stored[stored.len() - 1 - i],
        history_of(most_recent(stored, limit), limit) == stored.skip(
            stored.len() - kept(stored.len(), limit),
        ),
{
}

} // verus!
