//! The databases that the scenarios start from.
use vstd::prelude::*;

use crate::check::{Condition, ConditionView};
use crate::protocol::{Handle, Request, RequestView, Session};
use crate::script::{Script, Step, StepView};
use crate::steps::{
    execute, execute_step, integer_param, open, open_step, prepare, prepare_step, try_execute,
    try_execute_step,
};
use crate::text::join;
use crate::value::ValueView;

verus! {

/// The table of the prepared lookups.
pub const CREATE_BENCH: &'static str = "CREATE TABLE bench (
            id INTEGER PRIMARY KEY,
            name TEXT NOT NULL,
            value REAL NOT NULL
        );";

/// Fills one row of that table from its key.
pub const INSERT_BENCH: &'static str = "INSERT INTO bench VALUES (?1, ('user_' || ?1), (?1 * 0.137))";

/// The table of the point queries.
pub const CREATE_POINT_BENCH: &'static str = "CREATE TABLE point_bench (
            id INTEGER PRIMARY KEY,
            email TEXT NOT NULL UNIQUE,
            display_name TEXT NOT NULL,
            group_name TEXT NOT NULL
        );";

/// Fills one row of that table from its key.
pub const INSERT_POINT_BENCH: &'static str = "INSERT INTO point_bench VALUES (
                ?1, ('user_' || ?1 || '@example.test'), ('name_' || ?1), ('g_' || (?1 % 7))
            )";

/// The statement that selects a journal mode.
pub open spec fn journal_mode_sql(journal_mode: Seq<char>) -> Seq<char> {
    "PRAGMA journal_mode = "@ + journal_mode + ";"@
}

/// The statement that selects a journal mode.
pub fn journal_mode_statement(journal_mode: &str) -> (r: String)
    ensures
        r@ == journal_mode_sql(journal_mode@),
{
    join("PRAGMA journal_mode = ", journal_mode, ";")
}

/// What one seeded database has of its own: its statements, and what to say where
/// one of them fails.
struct Seed<'a> {
    journal_sql: &'a str,
    journal_message: &'a str,
    create_sql: &'a str,
    create_message: &'a str,
    insert_sql: &'a str,
    insert_message: &'a str,
    row_message: &'a str,
}

/// What a seed stands for.
pub struct SeedView {
    pub journal_sql: Seq<char>,
    pub journal_message: Seq<char>,
    pub create_sql: Seq<char>,
    pub create_message: Seq<char>,
    pub insert_sql: Seq<char>,
    pub insert_message: Seq<char>,
    pub row_message: Seq<char>,
}

impl<'a> View for Seed<'a> {
    type V = SeedView;

    closed spec fn view(&self) -> SeedView {
        SeedView {
            journal_sql: self.journal_sql@,
            journal_message: self.journal_message@,
            create_sql: self.create_sql@,
            create_message: self.create_message@,
            insert_sql: self.insert_sql@,
            insert_message: self.insert_message@,
            row_message: self.row_message@,
        }
    }
}

/// From the empty file to the transaction in which the rows are inserted.
pub open spec fn seed_head(seed: SeedView) -> Seq<StepView> {
    seq![
        StepView::ask(RequestView::CreateFile).checking(
            ConditionView::Succeeds,
            "tempfile"@,
        ).checking(ConditionView::HasPath, "utf8 path"@),
        open_step(Session::Reader, "open file-backed db"@),
        execute_step(Session::Reader, seed.journal_sql, seed.journal_message),
        execute_step(Session::Reader, "PRAGMA synchronous = NORMAL;"@, "sync"@),
        try_execute_step(
            Session::Reader,
            "PRAGMA fsqlite_capture_time_travel_snapshots=false;"@,
        ),
        execute_step(Session::Reader, seed.create_sql, seed.create_message),
        execute_step(Session::Reader, "BEGIN;"@, "begin seed"@),
        prepare_step(Handle::Insert, seed.insert_sql, seed.insert_message),
    ]
}

/// The insertion of the row with the key `id`.
pub open spec fn seed_row(seed: SeedView, id: i64) -> StepView {
    StepView::ask(
        RequestView::ExecutePrepared {
            handle: Handle::Insert,
            params: seq![ValueView::Integer(id)],
        },
    ).checking(ConditionView::Succeeds, seed.row_message)
}

/// The insertion of the rows with the keys from 0 up to `count`, without it.
pub open spec fn seed_rows(seed: SeedView, count: nat) -> Seq<StepView> {
    Seq::new(count, |id: int| seed_row(seed, id as i64))
}

/// The end of the transaction.
pub open spec fn seed_tail() -> Seq<StepView> {
    seq![
        StepView::ask(RequestView::Release { handle: Handle::Insert }),
        execute_step(Session::Reader, "COMMIT;"@, "commit seed"@),
    ]
}

/// Everything that makes a seeded database with the keys from 0 up to `count`.
pub open spec fn seed_steps(seed: SeedView, count: nat) -> Seq<StepView> {
    seed_head(seed) + seed_rows(seed, count) + seed_tail()
}

/// How many rows are asked for: none where the number is negative.
pub open spec fn seeded_rows(row_count: i64) -> nat {
    if row_count < 0 {
        0
    } else {
        row_count as nat
    }
}

fn seeded(seed: &Seed<'_>, row_count: i64) -> (r: Script)
    ensures
        r@ == seed_steps(seed@, seeded_rows(row_count)),
{
    let mut script = Script::new();
    script.then_step(
        Step::ask(Request::CreateFile).checking(Condition::Succeeds, "tempfile").checking(
            Condition::HasPath,
            "utf8 path",
        ),
    );
    script.then_step(open(Session::Reader, "open file-backed db"));
    script.then_step(execute(Session::Reader, seed.journal_sql, seed.journal_message));
    script.then_step(execute(Session::Reader, "PRAGMA synchronous = NORMAL;", "sync"));
    script.then_step(
        try_execute(Session::Reader, "PRAGMA fsqlite_capture_time_travel_snapshots=false;"),
    );
    script.then_step(execute(Session::Reader, seed.create_sql, seed.create_message));
    script.then_step(execute(Session::Reader, "BEGIN;", "begin seed"));
    script.then_step(prepare(Handle::Insert, seed.insert_sql, seed.insert_message));
    assert(script@ =~= seed_head(seed@) + seed_rows(seed@, 0));
    let mut id: i64 = 0;
    while id < row_count
        invariant
            0 <= id <= seeded_rows(row_count),
            script@ == seed_head(seed@) + seed_rows(seed@, id as nat),
        decreases row_count - id,
    {
        script.then_step(
            Step::ask(
                Request::ExecutePrepared { handle: Handle::Insert, params: integer_param(id) },
            ).checking(Condition::Succeeds, seed.row_message),
        );
        assert(seed_rows(seed@, (id + 1) as nat) =~= seed_rows(seed@, id as nat).push(
            seed_row(seed@, id),
        ));
        assert(script@ =~= seed_head(seed@) + seed_rows(seed@, (id + 1) as nat));
        id += 1;
    }
    script.then_step(Step::ask(Request::Release { handle: Handle::Insert }));
    script.then_step(execute(Session::Reader, "COMMIT;", "commit seed"));
    assert(script@ =~= seed_steps(seed@, seeded_rows(row_count)));
    script
}

/// The seed of the database of the prepared lookups.
pub open spec fn wal_seed() -> SeedView {
    SeedView {
        journal_sql: "PRAGMA journal_mode = WAL;"@,
        journal_message: "wal"@,
        create_sql: CREATE_BENCH@,
        create_message: "create"@,
        insert_sql: INSERT_BENCH@,
        insert_message: "prepare insert"@,
        row_message: "seed row"@,
    }
}

/// The seed of the database of the point queries.
pub open spec fn point_seed(journal_mode: Seq<char>) -> SeedView {
    SeedView {
        journal_sql: journal_mode_sql(journal_mode),
        journal_message: "journal mode"@,
        create_sql: CREATE_POINT_BENCH@,
        create_message: "create point table"@,
        insert_sql: INSERT_POINT_BENCH@,
        insert_message: "prepare seed insert"@,
        row_message: "seed point row"@,
    }
}

/// Makes and opens a database in write-ahead-log mode that holds `row_count` rows
/// of the table `bench`, with the keys from 0 on, committed at once.
pub fn open_seeded_wal_db(row_count: i64) -> (r: Script)
    ensures
        r@ == seed_steps(wal_seed(), seeded_rows(row_count)),
{
    seeded(
        &Seed {
            journal_sql: "PRAGMA journal_mode = WAL;",
            journal_message: "wal",
            create_sql: CREATE_BENCH,
            create_message: "create",
            insert_sql: INSERT_BENCH,
            insert_message: "prepare insert",
            row_message: "seed row",
        },
        row_count,
    )
}

/// Makes and opens a database in the journal mode `journal_mode` that holds
/// `row_count` rows of the table `point_bench`, with the keys from 0 on, committed
/// at once.
pub fn open_seeded_point_db(row_count: i64, journal_mode: &str) -> (r: Script)
    ensures
        r@ == seed_steps(point_seed(journal_mode@), seeded_rows(row_count)),
{
    let journal_sql = journal_mode_statement(journal_mode);
    seeded(
        &Seed {
            journal_sql: journal_sql.as_str(),
            journal_message: "journal mode",
            create_sql: CREATE_POINT_BENCH,
            create_message: "create point table",
            insert_sql: INSERT_POINT_BENCH,
            insert_message: "prepare seed insert",
            row_message: "seed point row",
        },
        row_count,
    )
}

/// A seed is one transaction: between its `BEGIN` and its `COMMIT`, which comes last,
/// each key from 0 up to `count` is inserted once and in order, and nothing is
/// inserted anywhere else.
pub proof fn law_seed_is_one_transaction(seed: SeedView, count: nat)
    ensures
        seed_steps(seed, count).len() == count + 10,
        seed_steps(seed, count)[6].request == (RequestView::Execute {
            session: Session::Reader,
            sql: "BEGIN;"@,
        }),
        seed_steps(seed, count).last().request == (RequestView::Execute {
            session: Session::Reader,
            sql: "COMMIT;"@,
        }),
        forall|i: int|
            0 <= i < seed_steps(seed, count).len() ==> {
                &&& (#[trigger] seed_steps(seed, count)[i]).request is ExecutePrepared <==> 8 <= i
                    < 8 + count
                &&& 8 <= i < 8 + count ==> seed_steps(seed, count)[i].request == (
                RequestView::ExecutePrepared {
                    handle: Handle::Insert,
                    params: seq![ValueView::Integer((i - 8) as i64)],
                })
            },
{
    let steps = seed_steps(seed, count);
    let head = seed_head(seed);
    let rows = seed_rows(seed, count);
    let tail = seed_tail();
    assert(steps[6] == head[6]);
    assert(steps.last() == tail[1]);
    assert forall|i: int| 0 <= i < steps.len() implies {
        &&& (#[trigger] steps[i]).request is ExecutePrepared <==> 8 <= i < 8 + count
        &&& 8 <= i < 8 + count ==> steps[i].request == (RequestView::ExecutePrepared {
            handle: Handle::Insert,
            params: seq![ValueView::Integer((i - 8) as i64)],
        })
    } by {
        if i < 8 {
            assert(steps[i] == head[i]);
        } else if i < 8 + count {
            assert(steps[i] == rows[i - 8]);
        } else {
            assert(steps[i] == tail[i - 8 - count]);
        }
    }
}

/// Both databases select write-ahead logging by the same statement.
pub proof fn law_journal_statements_agree()
    ensures
        wal_seed().journal_sql == point_seed("WAL"@).journal_sql,
{
    reveal_strlit("PRAGMA journal_mode = WAL;");
    reveal_strlit("PRAGMA journal_mode = ");
    reveal_strlit("WAL");
    reveal_strlit(";");
    assert(wal_seed().journal_sql =~= journal_mode_sql("WAL"@));
}

} // verus!
