//! The scenarios, run against a small in-memory database that keeps the promises,
//! and against ones that break them one at a time.

use std::collections::BTreeMap;

use point_query_probe::profile::{
    hot_path_profile_snapshot, reset_hot_path_profile, HotPathCounters, HotPathProfile,
    ParserCounters, ProfileGuard, ProfileLock,
};
use point_query_probe::protocol::{Handle, PublishedSnapshot, Reply, Request, Resource, Session};
use point_query_probe::run::{Run, Verdict};
use point_query_probe::scenarios::{
    assert_exact_100k_point_visibility, external_commit_on_next_statement, idle_clean_wal_refresh,
    prepared_point_query_api, warmed_prepared_point_query, Scenario,
};
use point_query_probe::value::{Row, SqliteValue};

/// What a database does wrong.
#[derive(Clone, Copy, Debug, PartialEq)]
enum Fault {
    Harmless,
    /// Fails the statement or preparation with this text.
    Fails(&'static str),
    PathNotUtf8,
    NeverLoads,
    Unloads,
    Stale,
    AlwaysReloads,
    AlwaysPublishes,
    CountsPublications,
    MovesMemorySequence,
    InventsCommits,
    OffTheFastPath,
    WrongRow,
    TwoRows,
    FindsMissing,
    NonUniqueIsPoint,
    NothingIsPoint,
    ForgetsColumns,
    StreamFails,
    StreamsWrongRow,
    IdlePublishes,
    IdleInvents,
    IdleFails,
    Answers(u64),
}

#[derive(Clone, Default)]
struct Data {
    bench: BTreeMap<i64, String>,
    point: BTreeMap<i64, (String, String, String)>,
}

struct Fake {
    fault: Fault,
    file: Option<tempfile::NamedTempFile>,
    /// What the file holds, and how many commits it has seen.
    durable: Data,
    commits: u64,
    /// Changes of an open transaction.
    pending: Option<Data>,
    memory: Data,
    memory_commit: u64,
    loaded: bool,
    published: PublishedSnapshot,
    publications: u64,
    reindexed: bool,
    sql: BTreeMap<&'static str, String>,
    opened: Vec<(Session, String)>,
    lock: ProfileLock,
    /// The profile, while it is not measured.
    idle_profile: Option<HotPathProfile>,
    guard: Option<ProfileGuard>,
    let_go: Vec<Resource>,
    requests: Vec<Request>,
    replies: Vec<Reply>,
}

fn name(handle: Handle) -> &'static str {
    match handle {
        Handle::Insert => "insert",
        Handle::Select => "select",
        Handle::ById => "id",
        Handle::ByEmail => "email",
        Handle::ByGroup => "group",
    }
}

fn text(s: &str) -> SqliteValue {
    SqliteValue::Text(s.to_owned())
}

impl Fake {
    fn new(fault: Fault) -> Fake {
        Fake {
            fault,
            file: None,
            durable: Data::default(),
            commits: 0,
            pending: None,
            memory: Data::default(),
            memory_commit: 0,
            loaded: false,
            published: PublishedSnapshot { visible_commit_seq: 0, snapshot_gen: 0 },
            publications: 0,
            reindexed: false,
            sql: BTreeMap::new(),
            opened: Vec::new(),
            lock: ProfileLock::new(),
            idle_profile: Some(HotPathProfile {
                enabled: false,
                counters: HotPathCounters {
                    memdb_refresh_count: 3,
                    parser: ParserCounters { fast_path_executions: 4 },
                },
            }),
            guard: None,
            let_go: Vec::new(),
            requests: Vec::new(),
            replies: Vec::new(),
        }
    }

    fn profile(&mut self) -> &mut HotPathProfile {
        match &mut self.guard {
            Some(guard) => guard.profile_mut(),
            None => self.idle_profile.as_mut().unwrap(),
        }
    }

    fn publish(&mut self) {
        self.published.visible_commit_seq = self.commits;
        self.published.snapshot_gen += 1;
        self.publications += 1;
    }

    fn change(&mut self, f: impl Fn(&mut Data)) {
        match &mut self.pending {
            Some(data) => f(data),
            None => {
                f(&mut self.durable);
                self.commits += 1;
            }
        }
    }

    fn execute(&mut self, session: Session, sql: &str) -> Reply {
        if self.fault == Fault::Fails("PRAGMA") && sql.starts_with("PRAGMA journal_mode") {
            return Reply::Failed("no such mode".to_owned());
        }
        if let Fault::Fails(bad) = self.fault {
            if sql == bad {
                return Reply::Failed("disk I/O error".to_owned());
            }
        }
        match sql {
            "PRAGMA journal_mode = WAL;" | "PRAGMA journal_mode = DELETE;" => {}
            "PRAGMA synchronous = NORMAL;" => {}
            "PRAGMA fsqlite_capture_time_travel_snapshots=false;" => {}
            "BEGIN;" => self.pending = Some(self.durable.clone()),
            "COMMIT;" => {
                self.durable = self.pending.take().expect("a transaction");
                self.commits += 1;
            }
            "INSERT INTO bench VALUES (999001, 'external', 1.5);" => {
                assert_eq!(session, Session::Writer);
                self.change(|d| {
                    d.bench.insert(999001, "external".to_owned());
                });
            }
            "UPDATE point_bench SET display_name = 'external_100k' WHERE id = 50000;" => {
                assert_eq!(session, Session::Writer);
                self.change(|d| {
                    d.point.get_mut(&50000).expect("seeded").1 = "external_100k".to_owned();
                });
            }
            "CREATE INDEX point_bench_group_idx ON point_bench(group_name);" => {
                self.commits += 1;
                self.reindexed = true;
            }
            other => {
                let words: Vec<&str> = other.split_whitespace().collect();
                let known = words.join(" ");
                assert!(
                    known
                        == "CREATE TABLE bench ( id INTEGER PRIMARY KEY, name TEXT NOT NULL, \
                            value REAL NOT NULL );"
                        || known
                            == "CREATE TABLE point_bench ( id INTEGER PRIMARY KEY, \
                                email TEXT NOT NULL UNIQUE, display_name TEXT NOT NULL, \
                                group_name TEXT NOT NULL );",
                    "unknown statement {other}"
                );
                self.commits += 1;
            }
        }
        Reply::Done
    }

    /// Brings the memory image up to date before a read.
    fn refresh(&mut self) {
        if self.fault == Fault::NeverLoads {
            return;
        }
        let behind = self.memory_commit != self.commits && self.fault != Fault::Stale;
        if !self.loaded || behind || self.fault == Fault::AlwaysReloads {
            self.memory = self.durable.clone();
            self.memory_commit = self.commits;
            self.loaded = true;
            if self.profile().enabled {
                self.profile().counters.memdb_refresh_count += 1;
            }
        }
        if self.published.visible_commit_seq < self.memory_commit
            || self.fault == Fault::AlwaysPublishes
        {
            self.publish();
        }
        match self.fault {
            Fault::CountsPublications => self.publications += 1,
            Fault::InventsCommits => self.published.visible_commit_seq += 1,
            _ => {}
        }
        if self.profile().enabled && self.fault != Fault::OffTheFastPath {
            self.profile().counters.parser.fast_path_executions += 1;
        }
    }

    fn lookup(&mut self, handle: Handle, params: &[SqliteValue]) -> Option<Row> {
        assert_eq!(params.len(), 1);
        self.refresh();
        let key = match &params[0] {
            SqliteValue::Integer(n) => Some(*n),
            SqliteValue::Text(t) => self
                .memory
                .point
                .iter()
                .find(|(_, v)| v.0 == *t)
                .map(|(k, _)| *k),
            SqliteValue::Other => None,
        };
        let mut key = key?;
        if self.fault == Fault::WrongRow && (key == 17 || key == 1000 || key == 9) {
            key += 1;
        }
        if self.fault == Fault::FindsMissing && key > 99_999 {
            key = 0;
        }
        match self.sql[name(handle)].as_str() {
            "SELECT * FROM bench WHERE id = ?1" => self.memory.bench.get(&key).map(|n| Row {
                values: vec![SqliteValue::Integer(key), text(n), SqliteValue::Other],
            }),
            "SELECT id, name FROM bench WHERE id = ?1" => self.memory.bench.get(&key).map(|n| {
                Row { values: vec![SqliteValue::Integer(key), text(n)] }
            }),
            "SELECT id, display_name FROM point_bench WHERE id = ?1"
            | "SELECT id, display_name FROM point_bench WHERE email = ?1" => self
                .memory
                .point
                .get(&key)
                .map(|v| Row { values: vec![SqliteValue::Integer(key), text(&v.1)] }),
            other => panic!("unknown query {other}"),
        }
    }

    fn answer(&mut self, request: &Request, path: Option<&String>) -> Reply {
        if let Fault::Answers(n) = self.fault {
            if self.replies.len() as u64 == n {
                return Reply::Count(7);
            }
        }
        match request {
            Request::CreateFile => {
                let file = tempfile::NamedTempFile::new().expect("tempfile");
                let path = file.path().to_str().map(|p| p.to_owned());
                self.file = Some(file);
                if self.fault == Fault::PathNotUtf8 {
                    Reply::File(None)
                } else {
                    Reply::File(path)
                }
            }
            Request::Open { session } => {
                self.opened.push((*session, path.expect("a path").clone()));
                if *session == Session::Writer && self.fault == Fault::Fails("writer") {
                    return Reply::Failed("locked".to_owned());
                }
                Reply::Done
            }
            Request::Execute { session, sql } => self.execute(*session, sql),
            Request::Prepare { handle, sql } => {
                self.sql.insert(name(*handle), sql.clone());
                Reply::Done
            }
            Request::ExecutePrepared { handle, params } => {
                assert_eq!(*handle, Handle::Insert);
                let id = match params[0] {
                    SqliteValue::Integer(id) => id,
                    _ => panic!("a key is an integer"),
                };
                let words: Vec<&str> = self.sql["insert"].split_whitespace().collect();
                match words.join(" ").as_str() {
                    "INSERT INTO bench VALUES (?1, ('user_' || ?1), (?1 * 0.137))" => {
                        self.change(|d| {
                            d.bench.insert(id, format!("user_{id}"));
                        })
                    }
                    "INSERT INTO point_bench VALUES ( ?1, ('user_' || ?1 || '@example.test'), \
                     ('name_' || ?1), ('g_' || (?1 % 7)) )" => self.change(|d| {
                        d.point.insert(
                            id,
                            (
                                format!("user_{id}@example.test"),
                                format!("name_{id}"),
                                format!("g_{}", id % 7),
                            ),
                        );
                    }),
                    other => panic!("unknown insert {other}"),
                }
                Reply::Done
            }
            Request::Release { handle } => {
                self.sql.remove(name(*handle));
                Reply::Done
            }
            Request::Close { session } => {
                assert_eq!(*session, Session::Writer);
                Reply::Done
            }
            Request::PreparePoint { handle, sql } => {
                self.sql.insert(name(*handle), sql.clone());
                let unique = sql.contains("WHERE id =") || sql.contains("WHERE email =");
                match self.fault {
                    Fault::NonUniqueIsPoint => Reply::Eligible(true),
                    Fault::NothingIsPoint => Reply::Eligible(false),
                    _ => Reply::Eligible(unique),
                }
            }
            Request::DescribePoint { .. } => {
                if self.reindexed && self.fault == Fault::ForgetsColumns {
                    return Reply::Columns { count: 2, names: vec!["id".to_owned()] };
                }
                Reply::Columns {
                    count: 2,
                    names: vec!["id".to_owned(), "display_name".to_owned()],
                }
            }
            Request::QueryPoint { handle, params } => Reply::Point(self.lookup(*handle, params)),
            Request::Query { handle, params } => {
                let mut rows: Vec<Row> = self.lookup(*handle, params).into_iter().collect();
                if self.fault == Fault::TwoRows {
                    rows.extend(rows.clone());
                }
                Reply::Rows(rows)
            }
            Request::QueryForEach { handle, params } => {
                let mut rows: Vec<Row> = self.lookup(*handle, params).into_iter().collect();
                if self.fault == Fault::StreamsWrongRow {
                    rows.push(Row { values: vec![SqliteValue::Integer(1)] });
                }
                let error = if self.fault == Fault::StreamFails {
                    Some("interrupted".to_owned())
                } else {
                    None
                };
                Reply::Streamed { rows, error }
            }
            Request::ReadRowsLoaded => {
                let hot = self.replies.len() > 2030;
                Reply::Loaded(self.loaded && !(hot && self.fault == Fault::Unloads))
            }
            Request::ReadMemdbSequence => {
                let moved = if self.fault == Fault::MovesMemorySequence {
                    self.replies.len() as u64
                } else {
                    0
                };
                Reply::Count(self.memory_commit + moved)
            }
            Request::ReadPublication => Reply::Publication(self.published),
            Request::ReadPublicationWrites => Reply::Count(self.publications),
            Request::RefreshPublication => {
                self.publish();
                Reply::Done
            }
            Request::RefreshCleanWal => {
                match self.fault {
                    Fault::IdlePublishes => self.published.snapshot_gen += 1,
                    Fault::IdleInvents => self.published.visible_commit_seq += 1,
                    Fault::IdleFails => return Reply::Failed("no log".to_owned()),
                    Fault::CountsPublications => self.publications += 1,
                    _ => {}
                }
                Reply::Publication(self.published)
            }
            Request::ResetProfile => {
                reset_hot_path_profile(self.profile());
                Reply::Done
            }
            Request::ReadProfile => Reply::Profile(hot_path_profile_snapshot(self.profile())),
        }
    }

    fn run(&mut self, scenario: Scenario) -> Run {
        if scenario.profiled {
            let profile = self.idle_profile.take().unwrap();
            self.guard = Some(ProfileGuard::new(&mut self.lock, profile).unwrap());
        }
        let mut run = Run::new(scenario.script);
        while let Some(request) = run.pending() {
            let request = request.clone();
            let reply = self.answer(&request, run.path());
            run.advance(&reply);
            self.requests.push(request);
            self.replies.push(reply);
        }
        while let Some(resource) = run.let_go() {
            match resource {
                Resource::File => self.file = None,
                Resource::Connection(_) => assert!(self.file.is_some()),
                Resource::Statement(handle) => {
                    assert!(self.sql.remove(name(handle)).is_some());
                }
            }
            self.let_go.push(resource);
        }
        assert!(self.file.is_none());
        if let Some(guard) = self.guard.take() {
            self.idle_profile = Some(guard.drop(&mut self.lock));
        }
        run
    }

    /// Column `column` of the row that the point query with the answer `i` found.
    fn point_cell(&self, i: usize, column: usize) -> Option<&SqliteValue> {
        match &self.replies[i] {
            Reply::Point(Some(row)) => row.get(column),
            other => panic!("no row: {other:?}"),
        }
    }
}

fn is_integer(value: Option<&SqliteValue>, n: i64) -> bool {
    matches!(value, Some(SqliteValue::Integer(m)) if *m == n)
}

fn is_text(value: Option<&SqliteValue>, t: &str) -> bool {
    matches!(value, Some(SqliteValue::Text(s)) if s == t)
}

/// Runs `scenario` against a database with `fault`, and tells the failing step, the
/// failing check and the report.
fn failure(scenario: Scenario, fault: Fault) -> (usize, Option<usize>, String) {
    let mut fake = Fake::new(fault);
    let run = fake.run(scenario);
    assert_eq!(run.verdict(), Verdict::Failed, "{fault:?}");
    let f = run.failure().expect("a failure");
    assert_eq!(fake.replies.len(), f.step + 1, "nothing is asked after a failure");
    (f.step, f.check, f.report())
}

fn passes(scenario: Scenario, fault: Fault) -> bool {
    Fake::new(fault).run(scenario).verdict() == Verdict::Passed
}

#[test]
fn test_prepared_point_query_api_pk_unique_no_row_and_schema_reprepare() {
    let mut fake = Fake::new(Fault::Harmless);
    let scenario = prepared_point_query_api();
    assert!(!scenario.profiled);
    let run = fake.run(scenario);
    assert_eq!(run.verdict(), Verdict::Passed);
    let at = 64 + 10;
    assert_eq!(fake.requests.len(), at + 10);
    assert!(matches!(&fake.requests[at], Request::PreparePoint { handle: Handle::ById, sql }
        if sql == "SELECT id, display_name FROM point_bench WHERE id = ?1"));
    assert!(matches!(fake.replies[at], Reply::Eligible(true)));
    assert!(matches!(&fake.replies[at + 1], Reply::Columns { count: 2, names }
        if names.len() == 2 && names[0] == "id" && names[1] == "display_name"));
    assert!(matches!(&fake.requests[at + 2], Request::QueryPoint { params, .. }
        if is_integer(params.first(), 17) && params.len() == 1));
    assert!(is_integer(fake.point_cell(at + 2, 0), 17));
    assert!(matches!(&fake.requests[at + 3], Request::QueryPoint { params, .. }
        if is_integer(params.first(), 999_999)));
    assert!(matches!(fake.replies[at + 3], Reply::Point(None)));
    assert!(matches!(&fake.requests[at + 4], Request::PreparePoint { sql, .. }
        if sql == "SELECT id, display_name FROM point_bench WHERE email = ?1"));
    assert!(matches!(&fake.requests[at + 5], Request::QueryPoint { params, .. }
        if is_text(params.first(), "user_9@example.test")));
    assert!(is_integer(fake.point_cell(at + 5, 0), 9));
    assert!(matches!(&fake.requests[at + 6], Request::PreparePoint { sql, .. }
        if sql == "SELECT id FROM point_bench WHERE group_name = ?1"));
    assert!(matches!(fake.replies[at + 6], Reply::Eligible(false)));
    assert!(matches!(&fake.requests[at + 7], Request::Execute { sql, .. }
        if sql == "CREATE INDEX point_bench_group_idx ON point_bench(group_name);"));
    assert!(is_integer(fake.point_cell(at + 8, 0), 23));
    assert!(matches!(&fake.replies[at + 9], Reply::Columns { names, .. }
        if names.len() == 2 && names[0] == "id" && names[1] == "display_name"));
}

fn exact_visibility(journal_mode: &str) {
    let mut fake = Fake::new(Fault::Harmless);
    let scenario = assert_exact_100k_point_visibility(journal_mode);
    assert!(!scenario.profiled);
    let run = fake.run(scenario);
    assert_eq!(run.verdict(), Verdict::Passed);
    let row_count: usize = 100_000;
    let at = row_count + 10;
    assert_eq!(fake.requests.len(), at + 10);
    let pragma = format!("PRAGMA journal_mode = {journal_mode};");
    assert!(matches!(&fake.requests[2], Request::Execute { session: Session::Reader, sql }
        if *sql == pragma));
    assert!(matches!(&fake.requests[at + 6], Request::Execute { session: Session::Writer, sql }
        if *sql == pragma));
    assert!(is_integer(fake.point_cell(at + 1, 0), 0));
    assert!(is_integer(fake.point_cell(at + 2, 0), 50_000));
    assert!(is_integer(fake.point_cell(at + 3, 0), 99_999));
    assert!(matches!(&fake.requests[at + 4], Request::QueryPoint { params, .. }
        if is_integer(params.first(), 100_001)));
    assert!(matches!(fake.replies[at + 4], Reply::Point(None)));
    assert!(is_text(fake.point_cell(at + 9, 1), "external_100k"));
    assert_eq!(fake.opened.len(), 2);
    assert_eq!(fake.opened[0].0, Session::Reader);
    assert_eq!(fake.opened[1].0, Session::Writer);
    assert_eq!(fake.opened[0].1, fake.opened[1].1);
}

#[test]
fn test_prepared_point_query_exact_100k_rollback_visibility() {
    exact_visibility("DELETE");
}

#[test]
fn test_prepared_point_query_exact_100k_wal_visibility() {
    exact_visibility("WAL");
}

#[test]
fn test_warmed_file_backed_prepared_point_query_skips_memdb_reload_and_noop_republish() {
    let mut fake = Fake::new(Fault::Harmless);
    let scenario = warmed_prepared_point_query();
    assert!(scenario.profiled);
    let run = fake.run(scenario);
    assert_eq!(run.verdict(), Verdict::Passed);
    let row_count: usize = 2_000;
    let hot_iters: usize = 12;
    let probe_id = 1_000;
    let at = row_count + 10;
    assert_eq!(fake.requests.len(), at + 7 + 2 * hot_iters + 5);
    assert!(matches!(&fake.requests[at], Request::Prepare { sql, .. }
        if sql == "SELECT * FROM bench WHERE id = ?1"));
    for i in 0..hot_iters {
        match &fake.replies[at + 7 + 2 * i] {
            Reply::Rows(rows) => {
                assert_eq!(rows.len(), 1);
                assert!(is_integer(rows[0].get(0), probe_id));
            }
            other => panic!("hot query {i}: {other:?}"),
        }
        match &fake.replies[at + 8 + 2 * i] {
            Reply::Streamed { rows, error } => {
                assert_eq!(rows.len(), 1);
                assert!(is_integer(rows[0].get(0), probe_id));
                assert!(error.is_none());
            }
            other => panic!("hot for_each {i}: {other:?}"),
        }
    }
    assert!(matches!(fake.replies[at + 2], Reply::Loaded(true)));
    match fake.replies[at + 31] {
        Reply::Profile(profile) => {
            assert_eq!(profile.memdb_refresh_count, 0);
            assert!(profile.parser.fast_path_executions >= 12);
        }
        _ => panic!("no profile"),
    }
    assert!(matches!(fake.replies[at + 35], Reply::Loaded(true)));
    let captured = run.captured();
    assert!(captured.publication_before.is_some());
    assert_eq!(captured.publication_before, captured.publication_after);
    assert!(captured.writes_before.is_some());
    assert_eq!(captured.writes_before, captured.writes_after);
    assert!(captured.sequence_before.is_some());
    assert_eq!(captured.sequence_before, captured.sequence_after);
}

#[test]
fn test_prepared_point_query_observes_external_commit_on_next_statement() {
    let mut fake = Fake::new(Fault::Harmless);
    let scenario = external_commit_on_next_statement();
    assert!(scenario.profiled);
    let run = fake.run(scenario);
    assert_eq!(run.verdict(), Verdict::Passed);
    let at = 1_000 + 10;
    assert_eq!(fake.requests.len(), at + 25);
    assert!(matches!(&fake.requests[at], Request::Prepare { sql, .. }
        if sql == "SELECT id, name FROM bench WHERE id = ?1"));
    assert!(matches!(&fake.requests[at + 6], Request::Execute { session: Session::Writer, sql }
        if sql == "INSERT INTO bench VALUES (999001, 'external', 1.5);"));
    match &fake.replies[at + 10] {
        Reply::Rows(rows) => {
            assert_eq!(rows.len(), 1);
            assert!(is_integer(rows[0].get(0), 999001));
            assert!(is_text(rows[0].get(1), "external"));
        }
        other => panic!("{other:?}"),
    }
    assert!(matches!(fake.replies[at + 11], Reply::Profile(c) if c.memdb_refresh_count == 1));
    assert!(matches!(fake.replies[at + 12], Reply::Loaded(true)));
    for i in 0..8 {
        assert!(matches!(&fake.replies[at + 15 + i], Reply::Rows(rows) if rows.len() == 1));
    }
    assert!(matches!(fake.replies[at + 23], Reply::Profile(c) if c.memdb_refresh_count == 0));
    let captured = run.captured();
    assert!(captured.publication_before.is_some());
    assert_eq!(captured.publication_before, captured.publication_after);
    assert_eq!(fake.opened[0].1, fake.opened[1].1);
}

#[test]
fn test_pager_idle_clean_wal_refresh_skips_noop_republish() {
    let mut fake = Fake::new(Fault::Harmless);
    let scenario = idle_clean_wal_refresh();
    assert!(scenario.profiled);
    let run = fake.run(scenario);
    assert_eq!(run.verdict(), Verdict::Passed);
    let at = 256 + 10;
    assert_eq!(fake.requests.len(), at + 9);
    let before = match fake.replies[at + 1] {
        Reply::Publication(p) => p,
        _ => panic!("nothing published"),
    };
    for i in 0..5 {
        match fake.replies[at + 3 + i] {
            Reply::Publication(after) => {
                assert_eq!(after.visible_commit_seq, before.visible_commit_seq);
                assert_eq!(after.snapshot_gen, before.snapshot_gen);
            }
            _ => panic!("nothing published"),
        }
    }
    let captured = run.captured();
    assert!(captured.writes_before.is_some());
    assert_eq!(captured.writes_before, captured.writes_after);
}

#[test]
fn what_is_held_is_let_go_of_newest_first() {
    let file = Resource::File;
    let reader = Resource::Connection(Session::Reader);
    let writer = Resource::Connection(Session::Writer);
    let by_id = Resource::Statement(Handle::ById);
    let by_email = Resource::Statement(Handle::ByEmail);
    let by_group = Resource::Statement(Handle::ByGroup);
    let select = Resource::Statement(Handle::Select);
    let insert = Resource::Statement(Handle::Insert);
    let let_go = |scenario: Scenario, fault: Fault| {
        let mut fake = Fake::new(fault);
        fake.run(scenario);
        fake.let_go
    };
    let harmless = Fault::Harmless;
    assert_eq!(let_go(prepared_point_query_api(), harmless), [by_email, by_id, reader, file]);
    assert_eq!(
        let_go(assert_exact_100k_point_visibility("WAL"), harmless),
        [by_id, reader, file]
    );
    assert_eq!(let_go(warmed_prepared_point_query(), harmless), [select, reader, file]);
    assert_eq!(let_go(external_commit_on_next_statement(), harmless), [select, reader, file]);
    assert_eq!(let_go(idle_clean_wal_refresh(), harmless), [reader, file]);
    // After a failure too, and what was brought by the answer that failed.
    assert_eq!(
        let_go(
            external_commit_on_next_statement(),
            Fault::Fails("INSERT INTO bench VALUES (999001, 'external', 1.5);")
        ),
        [writer, select, reader, file]
    );
    assert_eq!(
        let_go(external_commit_on_next_statement(), Fault::Fails("writer")),
        [select, reader, file]
    );
    assert_eq!(
        let_go(prepared_point_query_api(), Fault::NonUniqueIsPoint),
        [by_group, by_email, by_id, reader, file]
    );
    assert_eq!(let_go(prepared_point_query_api(), Fault::PathNotUtf8), [file]);
    assert_eq!(let_go(prepared_point_query_api(), Fault::Fails("BEGIN;")), [reader, file]);
    assert_eq!(let_go(prepared_point_query_api(), Fault::Answers(20)), [insert, reader, file]);
}

#[test]
fn the_profile_is_restored_whatever_the_verdict() {
    for fault in [Fault::Harmless, Fault::AlwaysReloads] {
        for enabled in [false, true] {
            let mut fake = Fake::new(fault);
            fake.profile().enabled = enabled;
            fake.run(warmed_prepared_point_query());
            assert_eq!(fake.profile().enabled, enabled);
            assert_eq!(fake.profile().counters.memdb_refresh_count, 0);
            assert_eq!(fake.profile().counters.parser.fast_path_executions, 0);
        }
    }
}

#[test]
fn interface_faults_are_found() {
    let at = 74;
    let api = prepared_point_query_api;
    assert_eq!(
        failure(api(), Fault::NothingIsPoint),
        (at, Some(1), "integer-PK plan must be eligible".to_owned())
    );
    assert_eq!(
        failure(api(), Fault::WrongRow),
        (at + 2, Some(2), "the row is the one with the key".to_owned())
    );
    assert_eq!(
        failure(api(), Fault::FindsMissing),
        (at + 3, Some(1), "a missing key has no row".to_owned())
    );
    assert_eq!(
        failure(api(), Fault::NonUniqueIsPoint),
        (
            at + 6,
            Some(1),
            "a non-unique predicate must not enter the point-query API".to_owned()
        )
    );
    assert_eq!(
        failure(api(), Fault::ForgetsColumns),
        (at + 9, Some(0), "the columns have their names".to_owned())
    );
    assert_eq!(
        failure(api(), Fault::NeverLoads),
        (at + 2, Some(1), "PK row".to_owned())
    );
}

#[test]
fn seed_faults_are_found() {
    let api = prepared_point_query_api;
    assert_eq!(failure(api(), Fault::PathNotUtf8), (0, Some(1), "utf8 path".to_owned()));
    assert_eq!(
        failure(api(), Fault::Fails("PRAGMA")),
        (2, Some(0), "journal mode: no such mode".to_owned())
    );
    assert_eq!(
        failure(api(), Fault::Fails("BEGIN;")),
        (6, Some(0), "begin seed: disk I/O error".to_owned())
    );
    assert_eq!(
        failure(api(), Fault::Fails("COMMIT;")),
        (73, Some(0), "commit seed: disk I/O error".to_owned())
    );
    assert_eq!(
        failure(warmed_prepared_point_query(), Fault::Fails("PRAGMA")),
        (2, Some(0), "wal: no such mode".to_owned())
    );
    // Only this statement may fail.
    let tolerated = "PRAGMA fsqlite_capture_time_travel_snapshots=false;";
    assert!(passes(api(), Fault::Fails(tolerated)));
    assert_eq!(
        failure(api(), Fault::Fails("PRAGMA synchronous = NORMAL;")),
        (3, Some(0), "sync: disk I/O error".to_owned())
    );
}

#[test]
fn stale_reads_are_found() {
    assert_eq!(
        failure(assert_exact_100k_point_visibility("DELETE"), Fault::Stale),
        (
            100_019,
            Some(2),
            "the next point-query boundary must not return stale data in DELETE mode".to_owned()
        )
    );
    assert_eq!(
        failure(external_commit_on_next_statement(), Fault::Stale),
        (1_020, Some(1), "external insert must be visible".to_owned())
    );
}

#[test]
fn writer_faults_are_found() {
    assert_eq!(
        failure(external_commit_on_next_statement(), Fault::Fails("writer")),
        (1_013, Some(0), "open writer: locked".to_owned())
    );
    assert_eq!(
        failure(
            assert_exact_100k_point_visibility("WAL"),
            Fault::Fails("UPDATE point_bench SET display_name = 'external_100k' WHERE id = 50000;")
        ),
        (100_017, Some(0), "external exact-workload update: disk I/O error".to_owned())
    );
}

#[test]
fn warm_faults_are_found() {
    let at = 2_010;
    let warm = warmed_prepared_point_query;
    let cases: Vec<(Fault, usize, usize, &str)> = vec![
        (Fault::NeverLoads, 1, 1, "a lookup by primary key yields one row"),
        (Fault::WrongRow, 7, 2, "hot query 0 must return the seeded primary key"),
        (Fault::TwoRows, 1, 1, "a lookup by primary key yields one row"),
        (Fault::StreamsWrongRow, 8, 0, "every row is the one with the key"),
        (Fault::StreamFails, 8, 1, "hot for_each 0: interrupted"),
        (
            Fault::AlwaysReloads,
            34,
            0,
            "warm prepared point queries must not full-reload MemDB: HotPathCounters { \
             memdb_refresh_count: 24, parser: ParserCounters { fast_path_executions: 24 } }",
        ),
        (
            Fault::Unloads,
            35,
            0,
            "MemDB rows must stay loaded across warm prepared point queries",
        ),
        (
            Fault::MovesMemorySequence,
            35,
            1,
            "memdb_visible_commit_seq must stay stable on unchanged prepared reads",
        ),
        (
            Fault::InventsCommits,
            35,
            2,
            "published visible_commit_seq must stay stable on unchanged prepared reads",
        ),
        (
            Fault::AlwaysPublishes,
            35,
            3,
            "unchanged durable identity must not republish / advance snapshot_gen on prepared \
             reads (before=1, after=25, pub_writes 1→25)",
        ),
        (
            Fault::CountsPublications,
            35,
            4,
            "unchanged durable identity must not increment publication_write_count on prepared reads",
        ),
        (
            Fault::OffTheFastPath,
            35,
            5,
            "point queries should stay on the prepared fast path: HotPathCounters { \
             memdb_refresh_count: 0, parser: ParserCounters { fast_path_executions: 0 } }",
        ),
    ];
    for (fault, step, check, message) in cases {
        assert_eq!(
            failure(warm(), fault),
            (at + step, Some(check), message.to_owned()),
            "{fault:?}"
        );
    }
}

#[test]
fn too_many_reloads_after_a_commit_are_found() {
    assert_eq!(
        failure(external_commit_on_next_statement(), Fault::AlwaysReloads),
        (
            1_034,
            Some(0),
            "after absorbing the external commit, warm prepared reads must not reload: \
             HotPathCounters { memdb_refresh_count: 8, parser: ParserCounters { \
             fast_path_executions: 8 } }"
                .to_owned()
        )
    );
    assert_eq!(
        failure(external_commit_on_next_statement(), Fault::AlwaysPublishes),
        (
            1_034,
            Some(1),
            "post-refresh steady-state prepared reads must not no-op republish".to_owned()
        )
    );
}

#[test]
fn idle_faults_are_found() {
    let at = 266;
    let idle = idle_clean_wal_refresh;
    assert_eq!(
        failure(idle(), Fault::IdleFails),
        (at + 3, Some(0), "idle clean wal refresh: no log".to_owned())
    );
    assert_eq!(
        failure(idle(), Fault::IdleInvents),
        (at + 3, Some(1), "idle probe must not invent a new visible commit seq".to_owned())
    );
    assert_eq!(
        failure(idle(), Fault::IdlePublishes),
        (
            at + 3,
            Some(2),
            "idle clean-WAL probe must not republish when durable identity is unchanged".to_owned()
        )
    );
    assert_eq!(
        failure(idle(), Fault::CountsPublications),
        (
            at + 8,
            Some(0),
            "idle clean-WAL probes must not increment publication_write_count".to_owned()
        )
    );
}

#[test]
fn an_answer_to_another_request_fails_the_run() {
    assert_eq!(
        failure(idle_clean_wal_refresh(), Fault::Answers(1)),
        (1, None, "the reply does not answer the request".to_owned())
    );
}
