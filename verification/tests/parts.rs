//! The parts that scenarios are made of.

use point_query_probe::check::{Captured, Condition, Detail, Observation, Register};
use point_query_probe::fixtures::{open_seeded_point_db, open_seeded_wal_db};
use point_query_probe::profile::{
    hot_path_profile_enabled, set_hot_path_profile_enabled, HotPathCounters, HotPathProfile,
    ParserCounters, ProfileGuard, ProfileLock,
};
use point_query_probe::protocol::{Handle, PublishedSnapshot, Reply, Request, Resource, Session};
use point_query_probe::run::{Run, Verdict};
use point_query_probe::script::{Script, Step};
use point_query_probe::text::{decimal, join, numbered};
use point_query_probe::value::{Row, SqliteValue};

fn counters(memdb_refresh_count: u64, fast_path_executions: u64) -> HotPathCounters {
    HotPathCounters { memdb_refresh_count, parser: ParserCounters { fast_path_executions } }
}

fn text(s: &str) -> SqliteValue {
    SqliteValue::Text(s.to_owned())
}

#[test]
fn decimal_numbers() {
    assert_eq!(decimal(0), "0");
    assert_eq!(decimal(7), "7");
    assert_eq!(decimal(10), "10");
    assert_eq!(decimal(1234567890), "1234567890");
    assert_eq!(decimal(u64::MAX), "18446744073709551615");
    assert_eq!(numbered("hot query ", 11), "hot query 11");
    assert_eq!(join("a", "b", "c"), "abc");
}

#[test]
fn values_and_cells() {
    assert!(SqliteValue::Integer(3).same(&SqliteValue::Integer(3)));
    assert!(!SqliteValue::Integer(3).same(&SqliteValue::Integer(4)));
    assert!(text("x").same(&text("x")));
    assert!(!text("x").same(&text("y")));
    assert!(!text("3").same(&SqliteValue::Integer(3)));
    assert!(!SqliteValue::Other.same(&SqliteValue::Other));
    let row = Row { values: vec![SqliteValue::Integer(1), text("one")] };
    assert!(row.holds(1, &text("one")));
    assert!(!row.holds(2, &text("one")));
    assert!(row.get(2).is_none());
}

fn profile(enabled: bool, counters: HotPathCounters) -> HotPathProfile {
    HotPathProfile { enabled, counters }
}

#[test]
fn a_guard_measures_from_zero_and_restores_the_switch() {
    for enabled in [false, true] {
        let mut lock = ProfileLock::new();
        let mut guard = ProfileGuard::new(&mut lock, profile(enabled, counters(5, 6))).unwrap();
        assert!(lock.is_taken());
        assert!(hot_path_profile_enabled(guard.profile()));
        assert_eq!(guard.profile().counters, counters(0, 0));
        guard.profile_mut().counters = counters(1, 2);
        set_hot_path_profile_enabled(guard.profile_mut(), false);
        assert_eq!(*guard.profile(), profile(false, counters(1, 2)));
        assert_eq!(guard.drop(&mut lock), profile(enabled, counters(0, 0)));
        assert!(!lock.is_taken());
    }
}

#[test]
fn guards_in_turn_leave_the_switch_alone() {
    let mut lock = ProfileLock::new();
    let first = ProfileGuard::new(&mut lock, profile(false, counters(0, 0))).unwrap();
    let between = first.drop(&mut lock);
    let second = ProfileGuard::new(&mut lock, between).unwrap();
    assert!(!second.drop(&mut lock).enabled);
}

#[test]
fn there_is_one_guard_at_a_time() {
    let mut lock = ProfileLock::new();
    let mut guard = ProfileGuard::new(&mut lock, profile(true, counters(0, 0))).unwrap();
    guard.profile_mut().counters = counters(2, 9);
    for enabled in [false, true] {
        let refused = ProfileGuard::new(&mut lock, profile(enabled, counters(7, 8)));
        assert_eq!(refused.unwrap_err(), profile(enabled, counters(7, 8)));
        assert!(lock.is_taken());
        assert_eq!(*guard.profile(), profile(true, counters(2, 9)));
    }
    guard.drop(&mut lock);
    assert!(ProfileGuard::new(&mut lock, profile(false, counters(7, 8))).is_ok());
}

#[test]
fn what_a_check_shows() {
    let c = counters(3, 17);
    assert_eq!(c.show(), format!("{c:?}"));
    let mut captured = Captured::new();
    assert_eq!(Detail::Counters.show(&captured), "");
    assert_eq!(Detail::Publications.show(&captured), "");
    captured.set(Register::Profile, Some(Observation::Profile(c)));
    assert_eq!(
        Detail::Counters.show(&captured),
        ": HotPathCounters { memdb_refresh_count: 3, parser: ParserCounters { \
         fast_path_executions: 17 } }"
    );
    let published = |snapshot_gen: u64| {
        Some(Observation::Publication(PublishedSnapshot { visible_commit_seq: 1, snapshot_gen }))
    };
    captured.set(Register::PublicationBefore, published(4));
    captured.set(Register::PublicationAfter, published(16));
    captured.set(Register::WritesBefore, Some(Observation::Count(5)));
    captured.set(Register::WritesAfter, Some(Observation::Count(20)));
    assert_eq!(
        Detail::Publications.show(&captured),
        " (before=4, after=16, pub_writes 5→20)"
    );
    assert_eq!(Detail::Nothing.show(&captured), "");
}

#[test]
fn a_resource_is_held_until_it_is_let_go_of() {
    let mut held: Vec<Resource> = Vec::new();
    let open = |session: Session| Request::Open { session };
    open(Session::Reader).hold(&Reply::Done, &mut held);
    open(Session::Writer).hold(&Reply::Failed("busy".to_owned()), &mut held);
    assert_eq!(held, [Resource::Connection(Session::Reader)]);
    open(Session::Writer).hold(&Reply::Done, &mut held);
    let point = Request::PreparePoint { handle: Handle::ById, sql: String::new() };
    point.hold(&Reply::Eligible(false), &mut held);
    point.hold(&Reply::Eligible(true), &mut held);
    Request::Close { session: Session::Writer }.hold(&Reply::Done, &mut held);
    assert_eq!(
        held,
        [Resource::Connection(Session::Reader), Resource::Statement(Handle::ById)]
    );
    Request::Release { handle: Handle::Select }.hold(&Reply::Done, &mut held);
    assert_eq!(held.len(), 2);
}

fn drive(script: Script) -> (Run, Vec<Request>) {
    let mut run = Run::new(script);
    let mut requests: Vec<Request> = Vec::new();
    while let Some(request) = run.pending() {
        let request = request.clone();
        let reply = match request {
            Request::CreateFile => Reply::File(Some("/tmp/db".to_owned())),
            _ => Reply::Done,
        };
        run.advance(&reply);
        requests.push(request);
    }
    (run, requests)
}

fn sql(request: &Request) -> &str {
    match request {
        Request::Execute { sql, .. } | Request::Prepare { sql, .. } => sql,
        other => panic!("no statement: {other:?}"),
    }
}

#[test]
fn the_wal_database_is_seeded_in_one_transaction() {
    let (run, requests) = drive(open_seeded_wal_db(3));
    assert_eq!(run.verdict(), Verdict::Passed);
    assert_eq!(run.path().map(|p| p.as_str()), Some("/tmp/db"));
    assert_eq!(requests.len(), 13);
    assert!(matches!(requests[1], Request::Open { session: Session::Reader }));
    assert_eq!(sql(&requests[2]), "PRAGMA journal_mode = WAL;");
    assert_eq!(sql(&requests[3]), "PRAGMA synchronous = NORMAL;");
    assert_eq!(sql(&requests[4]), "PRAGMA fsqlite_capture_time_travel_snapshots=false;");
    assert_eq!(
        sql(&requests[5]),
        "CREATE TABLE bench (
            id INTEGER PRIMARY KEY,
            name TEXT NOT NULL,
            value REAL NOT NULL
        );"
    );
    assert_eq!(sql(&requests[6]), "BEGIN;");
    assert_eq!(
        sql(&requests[7]),
        "INSERT INTO bench VALUES (?1, ('user_' || ?1), (?1 * 0.137))"
    );
    for id in 0..3 {
        match &requests[8 + id] {
            Request::ExecutePrepared { handle, params } => {
                assert_eq!(*handle, Handle::Insert);
                assert_eq!(params.len(), 1);
                assert!(params[0].same(&SqliteValue::Integer(id as i64)));
            }
            other => panic!("{other:?}"),
        }
    }
    assert!(matches!(requests[11], Request::Release { handle: Handle::Insert }));
    assert_eq!(sql(&requests[12]), "COMMIT;");
}

#[test]
fn a_negative_row_count_seeds_nothing() {
    let (_, requests) = drive(open_seeded_wal_db(-5));
    assert_eq!(requests.len(), 10);
    let (_, requests) = drive(open_seeded_wal_db(0));
    assert_eq!(requests.len(), 10);
}

#[test]
fn the_point_database_takes_its_journal_mode() {
    let (run, requests) = drive(open_seeded_point_db(1, "TRUNCATE"));
    assert_eq!(run.verdict(), Verdict::Passed);
    assert_eq!(sql(&requests[2]), "PRAGMA journal_mode = TRUNCATE;");
    assert_eq!(
        sql(&requests[5]),
        "CREATE TABLE point_bench (
            id INTEGER PRIMARY KEY,
            email TEXT NOT NULL UNIQUE,
            display_name TEXT NOT NULL,
            group_name TEXT NOT NULL
        );"
    );
    assert_eq!(
        sql(&requests[7]),
        "INSERT INTO point_bench VALUES (
                ?1, ('user_' || ?1 || '@example.test'), ('name_' || ?1), ('g_' || (?1 % 7))
            )"
    );
    // With write-ahead logging both databases say the same.
    let (_, wal) = drive(open_seeded_wal_db(0));
    let (_, point) = drive(open_seeded_point_db(0, "WAL"));
    assert_eq!(sql(&wal[2]), sql(&point[2]));
}

#[test]
fn an_empty_script_passes() {
    let mut run = Run::new(Script::new());
    assert_eq!(run.verdict(), Verdict::Passed);
    assert!(run.pending().is_none());
    run.advance(&Reply::Done);
    assert_eq!(run.verdict(), Verdict::Passed);
}

#[test]
fn a_settled_run_stays() {
    let mut script = Script::new();
    script.then_step(
        Step::ask(Request::Open { session: Session::Writer })
            .checking(Condition::Succeeds, "open"),
    );
    script.then_step(Step::ask(Request::ResetProfile));
    let mut run = Run::new(script);
    assert_eq!(run.verdict(), Verdict::Running);
    run.advance(&Reply::Failed("busy".to_owned()));
    assert_eq!(run.verdict(), Verdict::Failed);
    assert!(run.pending().is_none());
    run.advance(&Reply::Done);
    run.advance(&Reply::Done);
    assert_eq!(run.verdict(), Verdict::Failed);
    let failure = run.failure().expect("a failure");
    assert_eq!(failure.step, 0);
    assert_eq!(failure.check, Some(0));
    assert_eq!(failure.message, "open");
    assert_eq!(failure.error.as_deref(), Some("busy"));
    assert_eq!(failure.report(), "open: busy");
}

#[test]
fn a_register_keeps_the_last_answer() {
    let mut script = Script::new();
    for _ in 0..2 {
        script.then_step(
            Step::ask(Request::ReadPublicationWrites).capturing(Register::WritesBefore),
        );
    }
    script.then_step(
        Step::ask(Request::ReadPublicationWrites)
            .capturing(Register::WritesAfter)
            .checking(Condition::SamePublicationWrites, "same"),
    );
    let mut run = Run::new(script);
    run.advance(&Reply::Count(4));
    run.advance(&Reply::Count(9));
    run.advance(&Reply::Count(9));
    assert_eq!(run.verdict(), Verdict::Passed);
    assert_eq!(run.captured().writes_before, Some(Observation::Count(9)));
}

#[test]
fn conditions_on_what_was_kept() {
    let mut captured = Captured::new();
    let done = Reply::Done;
    assert!(!Condition::SameMemdbSequence.holds(&done, &captured));
    assert!(!Condition::RefreshCount(0).holds(&done, &captured));
    captured.set(Register::SequenceBefore, Some(Observation::Count(3)));
    captured.set(Register::SequenceAfter, Some(Observation::Count(4)));
    assert!(!Condition::SameMemdbSequence.holds(&done, &captured));
    captured.set(Register::SequenceAfter, Some(Observation::Count(3)));
    assert!(Condition::SameMemdbSequence.holds(&done, &captured));
    captured.set(Register::Profile, Some(Observation::Profile(counters(2, 12))));
    assert!(Condition::RefreshCount(2).holds(&done, &captured));
    assert!(!Condition::RefreshCount(1).holds(&done, &captured));
    assert!(Condition::FastPathAtLeast(12).holds(&done, &captured));
    assert!(!Condition::FastPathAtLeast(13).holds(&done, &captured));
    let a = PublishedSnapshot { visible_commit_seq: 1, snapshot_gen: 8 };
    let b = PublishedSnapshot { visible_commit_seq: 2, snapshot_gen: 8 };
    captured.set(Register::PublicationBefore, Some(Observation::Publication(a)));
    captured.set(Register::PublicationAfter, Some(Observation::Publication(b)));
    assert!(Condition::SameGeneration.holds(&done, &captured));
    assert!(!Condition::SameVisibleCommit.holds(&done, &captured));
}

#[test]
fn conditions_on_rows() {
    let captured = Captured::new();
    let row = |n: i64| Row { values: vec![SqliteValue::Integer(n)] };
    let cell = Condition::Cell { column: 0, value: SqliteValue::Integer(1) };
    let every = Condition::EveryCell { column: 0, value: SqliteValue::Integer(1) };
    let rows = Reply::Rows(vec![row(1), row(2)]);
    assert!(cell.holds(&rows, &captured));
    assert!(!every.holds(&rows, &captured));
    assert!(Condition::RowCount(2).holds(&rows, &captured));
    assert!(!cell.holds(&Reply::Rows(Vec::new()), &captured));
    let streamed = Reply::Streamed { rows: vec![row(1), row(1)], error: None };
    assert!(every.holds(&streamed, &captured));
    assert!(Condition::Succeeds.holds(&streamed, &captured));
    assert!(Condition::NoRow.holds(&Reply::Point(None), &captured));
    assert!(!Condition::HasRow.holds(&Reply::Point(None), &captured));
    assert!(Condition::HasRow.holds(&Reply::Point(Some(row(1))), &captured));
    let columns = Reply::Columns { count: 1, names: vec!["id".to_owned()] };
    assert!(Condition::ColumnNames(vec!["id".to_owned()]).holds(&columns, &captured));
    assert!(!Condition::ColumnNames(vec!["ID".to_owned()]).holds(&columns, &captured));
    assert!(!Condition::ColumnNames(Vec::new()).holds(&columns, &captured));
    assert!(Condition::ColumnCount(1).holds(&columns, &captured));
}
