use clipboard_manager::poller::{Effect, Poller, ReadOutcome, Signal};
use clipboard_manager::storage::{
    oldest_first, Attempt, Backend, Opener, CREATE_TABLE, HISTORY_FILE, HISTORY_LIMIT, ID,
    INSERT_ENTRY, MEMORY_PATH, SELECT_RECENT,
};

const UNWRITABLE: &str = "/nonexistent-directory-of-the-clipboard-manager/history";
const WRITABLE: &str = "/tmp/clipboard_manager_file_store_test.sqlite";

/// Walks the fallback chain against the real database.
fn open(path: Option<&str>) -> (Backend, Option<sqlite::ConnectionThreadSafe>) {
    let mut opener = Opener::new(path.is_some());
    let mut connection = None;
    while let Some(attempt) = opener.pending() {
        let target = match attempt {
            Attempt::Durable => path.unwrap(),
            Attempt::Memory => MEMORY_PATH,
        };
        match sqlite::Connection::open_thread_safe(target) {
            Ok(opened) => {
                connection = Some(opened);
                opener.report(true);
            }
            Err(_) => opener.report(false),
        }
    }
    (opener.backend().unwrap(), connection)
}

fn ensure_schema(connection: &sqlite::ConnectionThreadSafe) {
    let mut statement = connection.prepare(CREATE_TABLE).unwrap();
    statement.next().unwrap();
}

fn append(connection: &sqlite::ConnectionThreadSafe, content: &str) {
    let mut statement = connection.prepare(INSERT_ENTRY).unwrap();
    statement.bind((1, content)).unwrap();
    statement.next().unwrap();
}

fn load_recent(connection: &sqlite::ConnectionThreadSafe, limit: usize) -> Vec<String> {
    let mut statement = connection.prepare(SELECT_RECENT).unwrap();
    statement.bind((1, limit as i64)).unwrap();
    let mut rows = Vec::new();
    while let sqlite::State::Row = statement.next().unwrap() {
        rows.push(statement.read::<String, _>("content").unwrap());
    }
    rows
}

fn strings(texts: &[&str]) -> Vec<String> {
    texts.iter().map(|text| text.to_string()).collect()
}

#[test]
fn names_and_limits() {
    assert_eq!(ID, "dev.dominiccgeh.CosmicAppletClipboardManager");
    assert_eq!(HISTORY_FILE, "history");
    assert_eq!(MEMORY_PATH, ":memory:");
    assert_eq!(HISTORY_LIMIT, 100);
}

#[test]
fn chain_starts_with_the_file_where_its_path_is_known() {
    assert_eq!(Opener::new(true), Opener::Trying(Attempt::Durable));
    assert_eq!(Opener::new(true).pending(), Some(Attempt::Durable));
    assert_eq!(Opener::new(true).backend(), None);
}

#[test]
fn chain_starts_with_memory_where_no_path_is_known() {
    assert_eq!(Opener::new(false), Opener::Trying(Attempt::Memory));
    assert_eq!(Opener::new(false).pending(), Some(Attempt::Memory));
}

#[test]
fn file_that_opens_ends_the_chain() {
    let mut opener = Opener::new(true);
    opener.report(true);
    assert_eq!(opener, Opener::Settled(Backend::Durable));
    assert_eq!(opener.pending(), None);
    assert_eq!(opener.backend(), Some(Backend::Durable));
}

#[test]
fn file_that_fails_falls_back_to_memory() {
    let mut opener = Opener::new(true);
    opener.report(false);
    assert_eq!(opener.pending(), Some(Attempt::Memory));
    assert_eq!(opener.backend(), None);
    opener.report(true);
    assert_eq!(opener.backend(), Some(Backend::Memory));
    assert_eq!(opener.pending(), None);
}

#[test]
fn memory_that_fails_leaves_no_store() {
    let mut opener = Opener::new(true);
    opener.report(false);
    opener.report(false);
    assert_eq!(opener.backend(), Some(Backend::Unavailable));
    assert_eq!(opener.pending(), None);
    let mut opener = Opener::new(false);
    opener.report(false);
    assert_eq!(opener.backend(), Some(Backend::Unavailable));
}

#[test]
fn settled_chain_takes_no_more_reports() {
    for settled in [Backend::Durable, Backend::Memory, Backend::Unavailable] {
        for opened in [true, false] {
            let mut opener = Opener::Settled(settled);
            opener.report(opened);
            assert_eq!(opener, Opener::Settled(settled));
        }
    }
}

#[test]
fn only_a_connection_persists() {
    assert!(Backend::Durable.persists());
    assert!(Backend::Memory.persists());
    assert!(!Backend::Unavailable.persists());
}

#[test]
fn oldest_first_reverses_the_rows() {
    assert_eq!(
        oldest_first(strings(&["c", "b", "a"]), 100),
        strings(&["a", "b", "c"])
    );
    assert_eq!(oldest_first(Vec::new(), 100), Vec::<String>::new());
    assert_eq!(oldest_first(strings(&["a"]), 1), strings(&["a"]));
}

#[test]
fn oldest_first_keeps_the_newest_up_to_the_limit() {
    assert_eq!(
        oldest_first(strings(&["e", "d", "c", "b", "a"]), 2),
        strings(&["d", "e"])
    );
    assert_eq!(oldest_first(strings(&["b", "a"]), 0), Vec::<String>::new());
    assert_eq!(
        oldest_first(strings(&["b", "a"]), usize::MAX),
        strings(&["a", "b"])
    );
}

#[test]
fn unwritable_path_falls_back_to_a_usable_memory_store() {
    let (backend, connection) = open(Some(UNWRITABLE));
    assert_eq!(backend, Backend::Memory);
    assert!(backend.persists());
    let connection = connection.unwrap();
    ensure_schema(&connection);
    append(&connection, "first");
    append(&connection, "second");
    assert_eq!(load_recent(&connection, HISTORY_LIMIT), strings(&["second", "first"]));
}

#[test]
fn file_store_answers_as_the_memory_store_does() {
    let (backend, file) = open(Some(WRITABLE));
    assert_eq!(backend, Backend::Durable);
    let file = file.unwrap();
    file.execute("DROP TABLE IF EXISTS clipboard_history").unwrap();
    let (backend, memory) = open(Some(UNWRITABLE));
    assert_eq!(backend, Backend::Memory);
    let memory = memory.unwrap();
    for connection in [&file, &memory] {
        ensure_schema(connection);
        ensure_schema(connection);
        for content in ["a", "b", "b", "c"] {
            append(connection, content);
        }
    }
    assert_eq!(load_recent(&file, 3), strings(&["c", "b", "b"]));
    assert_eq!(load_recent(&file, 3), load_recent(&memory, 3));
    assert_eq!(load_recent(&file, HISTORY_LIMIT), load_recent(&memory, HISTORY_LIMIT));

    // What went into the file is there for the next process.
    drop(file);
    let (backend, file) = open(Some(WRITABLE));
    assert_eq!(backend, Backend::Durable);
    let file = file.unwrap();
    ensure_schema(&file);
    assert_eq!(load_recent(&file, HISTORY_LIMIT), strings(&["c", "b", "b", "a"]));
    file.execute("DROP TABLE clipboard_history").unwrap();
}

#[test]
fn unresolved_path_opens_memory_at_once() {
    let (backend, connection) = open(None);
    assert_eq!(backend, Backend::Memory);
    assert!(connection.is_some());
}

#[test]
fn load_recent_with_150_rows_returns_the_100_newest() {
    let (_, connection) = open(None);
    let connection = connection.unwrap();
    ensure_schema(&connection);
    for row in 0..150 {
        append(&connection, &format!("entry {row}"));
    }
    let recent = load_recent(&connection, 100);
    assert_eq!(recent.len(), 100);
    let newest_first: Vec<String> = (50..150).rev().map(|row| format!("entry {row}")).collect();
    assert_eq!(recent, newest_first);
    let history = oldest_first(recent, HISTORY_LIMIT);
    let in_order: Vec<String> = (50..150).map(|row| format!("entry {row}")).collect();
    assert_eq!(history, in_order);
}

#[test]
fn load_recent_with_fewer_rows_returns_them_all() {
    let (_, connection) = open(None);
    let connection = connection.unwrap();
    ensure_schema(&connection);
    assert_eq!(load_recent(&connection, HISTORY_LIMIT), Vec::<String>::new());
    append(&connection, "only");
    assert_eq!(load_recent(&connection, HISTORY_LIMIT), strings(&["only"]));
}

#[test]
fn ensure_schema_twice_keeps_one_table_and_its_rows() {
    let (_, connection) = open(None);
    let connection = connection.unwrap();
    ensure_schema(&connection);
    append(&connection, "kept");
    ensure_schema(&connection);
    let mut statement = connection
        .prepare("SELECT count(*) FROM sqlite_master WHERE type = 'table' AND name = 'clipboard_history'")
        .unwrap();
    assert_eq!(statement.next().unwrap(), sqlite::State::Row);
    assert_eq!(statement.read::<i64, _>(0).unwrap(), 1);
    assert_eq!(load_recent(&connection, HISTORY_LIMIT), strings(&["kept"]));
}

#[test]
fn table_has_key_timestamp_and_content() {
    let (_, connection) = open(None);
    let connection = connection.unwrap();
    ensure_schema(&connection);
    append(&connection, "a");
    append(&connection, "b");
    let mut statement = connection
        .prepare("SELECT id, timestamp, content FROM clipboard_history ORDER BY id")
        .unwrap();
    let mut rows = Vec::new();
    while let sqlite::State::Row = statement.next().unwrap() {
        let id = statement.read::<i64, _>("id").unwrap();
        let timestamp = statement.read::<Option<String>, _>("timestamp").unwrap();
        let content = statement.read::<String, _>("content").unwrap();
        assert!(timestamp.is_some());
        rows.push((id, content));
    }
    assert_eq!(rows, vec![(1, "a".to_string()), (2, "b".to_string())]);
}

#[test]
fn store_does_not_deduplicate() {
    let (_, connection) = open(None);
    let connection = connection.unwrap();
    ensure_schema(&connection);
    append(&connection, "same");
    append(&connection, "same");
    assert_eq!(load_recent(&connection, HISTORY_LIMIT), strings(&["same", "same"]));
}

#[test]
fn captured_entries_reach_the_store_in_capture_order() {
    let (backend, connection) = open(Some(UNWRITABLE));
    let connection = connection.unwrap();
    ensure_schema(&connection);
    let mut poller = Poller::new(backend.persists());
    let mut emitted = Vec::new();
    for read in ["a", "a", "b", "b", "b", "c"] {
        poller.step(Signal::Gate(false));
        poller.step(Signal::Tick);
        let outcome = ReadOutcome::Contents(read.as_bytes().to_vec());
        if let Effect::Capture { entry, persist } = poller.step(Signal::Read(outcome)) {
            emitted.push(entry.clone());
            if persist {
                append(&connection, &entry);
            }
        }
    }
    assert_eq!(emitted, strings(&["a", "b", "c"]));
    assert_eq!(oldest_first(load_recent(&connection, HISTORY_LIMIT), HISTORY_LIMIT), emitted);
}
