//! The scenarios: what is asked of a database and checked of its answers.
use vstd::prelude::*;

use crate::check::{Condition, ConditionView, Detail, Register};
use crate::fixtures::{
    journal_mode_sql, journal_mode_statement, open_seeded_point_db, open_seeded_wal_db, point_seed,
    seed_steps, wal_seed,
};
use crate::protocol::{names_view, Handle, Request, RequestView, Session};
use crate::script::{Script, Step, StepView};
use crate::steps::{
    execute, execute_step, integer_cell, integer_param, open, open_step, prepare, prepare_point,
    prepare_point_step, prepare_step, query_one, query_one_step, query_point, query_point_by_text,
    query_point_step, rows_loaded, rows_loaded_step, text_cell, try_execute, try_execute_step,
};
use crate::text::{decimal, decimal_text, join, numbered};
use crate::value::{SqliteValue, ValueView};

verus! {

/// A script, and whether it is run while the profile is measured.
#[derive(Debug)]
pub struct Scenario {
    pub script: Script,
    /// Whether the run needs a profile guard around it.
    pub profiled: bool,
}

// ---- The point-query interface.

/// The point query by primary key.
pub const POINT_BY_ID: &'static str = "SELECT id, display_name FROM point_bench WHERE id = ?1";

/// The point query by the unique column.
pub const POINT_BY_EMAIL: &'static str = "SELECT id, display_name FROM point_bench WHERE email = ?1";

/// The lookup by a column that is not unique.
pub const POINT_BY_GROUP: &'static str = "SELECT id FROM point_bench WHERE group_name = ?1";

/// The statement that changes the schema.
pub const CREATE_GROUP_INDEX: &'static str = "CREATE INDEX point_bench_group_idx ON point_bench(group_name);";

/// How many rows the scenario of the point-query interface works on.
pub const API_ROWS: i64 = 64;

/// The names of the columns of both point queries.
pub open spec fn point_columns() -> Seq<Seq<char>> {
    seq!["id"@, "display_name"@]
}

fn point_column_names() -> (r: Vec<String>)
    ensures
        names_view(r@) == point_columns(),
{
    let mut r: Vec<String> = Vec::new();
    r.push("id".to_owned());
    r.push("display_name".to_owned());
    assert(names_view(r@) =~= point_columns());
    r
}

/// What follows the seed in the scenario of the point-query interface.
pub open spec fn api_body() -> Seq<StepView> {
    seq![
        prepare_point_step(
            Handle::ById,
            POINT_BY_ID@,
            "prepare projected integer-PK point query"@,
        ).checking(ConditionView::Eligible, "integer-PK plan must be eligible"@),
        StepView::ask(RequestView::DescribePoint { handle: Handle::ById }).checking(
            ConditionView::ColumnCount(2),
            "the query has two columns"@,
        ).checking(
            ConditionView::ColumnNames(point_columns()),
            "the columns have their names"@,
        ),
        query_point_step(
            Handle::ById,
            ValueView::Integer(17),
            "execute PK point query"@,
        ).checking(ConditionView::HasRow, "PK row"@).checking(
            integer_cell(0, 17),
            "the row is the one with the key"@,
        ),
        query_point_step(
            Handle::ById,
            ValueView::Integer(999_999),
            "exact no-row result"@,
        ).checking(ConditionView::NoRow, "a missing key has no row"@),
        prepare_point_step(
            Handle::ByEmail,
            POINT_BY_EMAIL@,
            "prepare UNIQUE-index point query"@,
        ).checking(ConditionView::Eligible, "UNIQUE-index plan must be eligible"@),
        query_point_step(
            Handle::ByEmail,
            ValueView::Text("user_9@example.test"@),
            "execute UNIQUE-index point query"@,
        ).checking(ConditionView::HasRow, "unique row"@).checking(
            integer_cell(0, 9),
            "the row is the one with the address"@,
        ),
        prepare_point_step(
            Handle::ByGroup,
            POINT_BY_GROUP@,
            "ordinary non-point preparation is not an error"@,
        ).checking(
            ConditionView::Ineligible,
            "a non-unique predicate must not enter the point-query API"@,
        ),
        execute_step(Session::Reader, CREATE_GROUP_INDEX@, "schema generation change"@),
        query_point_step(
            Handle::ById,
            ValueView::Integer(23),
            "point handle reparses after DDL"@,
        ).checking(ConditionView::HasRow, "row after reprepare"@).checking(
            integer_cell(0, 23),
            "the row is the one with the key"@,
        ),
        StepView::ask(RequestView::DescribePoint { handle: Handle::ById }).checking(
            ConditionView::ColumnNames(point_columns()),
            "the columns have their names"@,
        ),
    ]
}

/// The scenario of the point-query interface.
pub open spec fn api_steps() -> Seq<StepView> {
    seed_steps(point_seed("WAL"@), API_ROWS as nat) + api_body()
}

/// The point-query interface: a lookup by primary key or by a unique column is a
/// point query and finds its row, or none; a lookup by another column is no point
/// query; and a point query goes on working after the schema was changed.
pub fn prepared_point_query_api() -> (r: Scenario)
    ensures
        r.script@ == api_steps(),
        !r.profiled,
{
    let mut script = open_seeded_point_db(API_ROWS, "WAL");
    script.then_step(
        prepare_point(
            Handle::ById,
            POINT_BY_ID,
            "prepare projected integer-PK point query",
        ).checking(Condition::Eligible, "integer-PK plan must be eligible"),
    );
    script.then_step(
        Step::ask(Request::DescribePoint { handle: Handle::ById }).checking(
            Condition::ColumnCount(2),
            "the query has two columns",
        ).checking(Condition::ColumnNames(point_column_names()), "the columns have their names"),
    );
    script.then_step(
        query_point(Handle::ById, 17, "execute PK point query").checking(
            Condition::HasRow,
            "PK row",
        ).checking(
            Condition::Cell { column: 0, value: SqliteValue::Integer(17) },
            "the row is the one with the key",
        ),
    );
    script.then_step(
        query_point(Handle::ById, 999_999, "exact no-row result").checking(
            Condition::NoRow,
            "a missing key has no row",
        ),
    );
    script.then_step(
        prepare_point(
            Handle::ByEmail,
            POINT_BY_EMAIL,
            "prepare UNIQUE-index point query",
        ).checking(Condition::Eligible, "UNIQUE-index plan must be eligible"),
    );
    script.then_step(
        query_point_by_text(
            Handle::ByEmail,
            "user_9@example.test",
            "execute UNIQUE-index point query",
        ).checking(Condition::HasRow, "unique row").checking(
            Condition::Cell { column: 0, value: SqliteValue::Integer(9) },
            "the row is the one with the address",
        ),
    );
    script.then_step(
        prepare_point(
            Handle::ByGroup,
            POINT_BY_GROUP,
            "ordinary non-point preparation is not an error",
        ).checking(
            Condition::Ineligible,
            "a non-unique predicate must not enter the point-query API",
        ),
    );
    script.then_step(
        execute(Session::Reader, CREATE_GROUP_INDEX, "schema generation change"),
    );
    script.then_step(
        query_point(Handle::ById, 23, "point handle reparses after DDL").checking(
            Condition::HasRow,
            "row after reprepare",
        ).checking(
            Condition::Cell { column: 0, value: SqliteValue::Integer(23) },
            "the row is the one with the key",
        ),
    );
    script.then_step(
        Step::ask(Request::DescribePoint { handle: Handle::ById }).checking(
            Condition::ColumnNames(point_column_names()),
            "the columns have their names",
        ),
    );
    assert(script@ =~= api_steps());
    Scenario { script, profiled: false }
}

// ---- Visibility of an external commit to a point query.

/// How many rows the scenario of exact visibility works on.
pub const EXACT_ROWS: i64 = 100_000;

/// The statement with which the other connection changes a row.
pub const EXTERNAL_UPDATE: &'static str = "UPDATE point_bench SET display_name = 'external_100k' WHERE id = 50000;";

/// What is said where the reader did not see that change.
pub open spec fn stale_message(journal_mode: Seq<char>) -> Seq<char> {
    "the next point-query boundary must not return stale data in "@ + journal_mode + " mode"@
}

/// The lookup of a row that was seeded.
pub open spec fn exact_lookup(id: i64) -> StepView {
    query_point_step(Handle::ById, ValueView::Integer(id), "100k point lookup"@).checking(
        ConditionView::HasRow,
        "seeded point row"@,
    ).checking(integer_cell(0, id), "the row is the one with the key"@)
}

fn exact_lookup_of(id: i64) -> (r: Step)
    ensures
        r@ == exact_lookup(id),
{
    query_point(Handle::ById, id, "100k point lookup").checking(
        Condition::HasRow,
        "seeded point row",
    ).checking(
        Condition::Cell { column: 0, value: SqliteValue::Integer(id) },
        "the row is the one with the key",
    )
}

/// What follows the seed in the scenario of exact visibility.
pub open spec fn exact_body(journal_mode: Seq<char>) -> Seq<StepView> {
    seq![
        prepare_point_step(
            Handle::ById,
            POINT_BY_ID@,
            "prepare exact 100k point query"@,
        ).checking(ConditionView::Eligible, "100k integer-PK plan must be eligible"@),
        exact_lookup(0),
        exact_lookup((EXACT_ROWS / 2) as i64),
        exact_lookup((EXACT_ROWS - 1) as i64),
        query_point_step(
            Handle::ById,
            ValueView::Integer((EXACT_ROWS + 1) as i64),
            "100k no-row lookup"@,
        ).checking(ConditionView::NoRow, "a missing key has no row"@),
        open_step(Session::Writer, "open exact-workload writer"@),
        execute_step(
            Session::Writer,
            journal_mode_sql(journal_mode),
            "writer journal mode"@,
        ),
        execute_step(Session::Writer, EXTERNAL_UPDATE@, "external exact-workload update"@),
        StepView::ask(RequestView::Close { session: Session::Writer }),
        query_point_step(
            Handle::ById,
            ValueView::Integer(50_000),
            "external commit visibility"@,
        ).checking(ConditionView::HasRow, "externally updated row"@).checking(
            text_cell(1, "external_100k"@),
            stale_message(journal_mode),
        ),
    ]
}

/// The scenario of exact visibility.
pub open spec fn exact_steps(journal_mode: Seq<char>) -> Seq<StepView> {
    seed_steps(point_seed(journal_mode), EXACT_ROWS as nat) + exact_body(journal_mode)
}

/// Exact visibility on a large table: a point query finds the first, the middle and
/// the last row and no row past them, and after another connection has changed the
/// middle row the very next lookup returns the change.
pub fn assert_exact_100k_point_visibility(journal_mode: &str) -> (r: Scenario)
    ensures
        r.script@ == exact_steps(journal_mode@),
        !r.profiled,
{
    let mut script = open_seeded_point_db(EXACT_ROWS, journal_mode);
    script.then_step(
        prepare_point(Handle::ById, POINT_BY_ID, "prepare exact 100k point query").checking(
            Condition::Eligible,
            "100k integer-PK plan must be eligible",
        ),
    );
    script.then_step(exact_lookup_of(0));
    script.then_step(exact_lookup_of(EXACT_ROWS / 2));
    script.then_step(exact_lookup_of(EXACT_ROWS - 1));
    script.then_step(
        query_point(Handle::ById, EXACT_ROWS + 1, "100k no-row lookup").checking(
            Condition::NoRow,
            "a missing key has no row",
        ),
    );
    script.then_step(open(Session::Writer, "open exact-workload writer"));
    let journal_sql = journal_mode_statement(journal_mode);
    script.then_step(execute(Session::Writer, journal_sql.as_str(), "writer journal mode"));
    script.then_step(
        execute(Session::Writer, EXTERNAL_UPDATE, "external exact-workload update"),
    );
    script.then_step(Step::ask(Request::Close { session: Session::Writer }));
    let stale = join(
        "the next point-query boundary must not return stale data in ",
        journal_mode,
        " mode",
    );
    script.then_step(
        query_point(Handle::ById, 50_000, "external commit visibility").checking(
            Condition::HasRow,
            "externally updated row",
        ).checking(
            Condition::Cell { column: 1, value: SqliteValue::Text("external_100k".to_owned()) },
            stale.as_str(),
        ),
    );
    assert(script@ =~= exact_steps(journal_mode@));
    Scenario { script, profiled: false }
}

// ---- Warmed prepared lookups.

/// How many rows the scenario of the warmed lookups works on.
pub const WARM_ROWS: i64 = 2_000;

/// How often the warmed lookup is repeated, in each of its two forms.
pub const HOT_ITERS: u64 = 12;

/// The key that is looked up: the one in the middle.
pub const PROBE_ID: i64 = 1_000;

/// The prepared lookup of a whole row.
pub const SELECT_ROW: &'static str = "SELECT * FROM bench WHERE id = ?1";

/// The collected form of the repeated lookup.
pub open spec fn hot_query(i: nat) -> StepView {
    query_one_step(
        PROBE_ID,
        "hot query "@ + decimal_text(i),
        "a lookup by primary key yields one row"@,
    ).checking(
        integer_cell(0, PROBE_ID),
        "hot query "@ + decimal_text(i) + " must return the seeded primary key"@,
    )
}

/// The streaming form of the repeated lookup.
pub open spec fn hot_stream(i: nat) -> StepView {
    StepView::ask(
        RequestView::QueryForEach {
            handle: Handle::Select,
            params: seq![ValueView::Integer(PROBE_ID)],
        },
    ).checking(
        ConditionView::EveryCell { column: 0, value: ValueView::Integer(PROBE_ID) },
        "every row is the one with the key"@,
    ).checking(ConditionView::Succeeds, "hot for_each "@ + decimal_text(i)).checking(
        ConditionView::RowCount(1),
        "for_each "@ + decimal_text(i) + " must yield one row"@,
    )
}

/// The first `n` rounds of the repeated lookup: each round collects, then streams.
pub open spec fn hot_rounds(n: nat) -> Seq<StepView> {
    Seq::new(
        2 * n,
        |k: int|
            if k % 2 == 0 {
                hot_query((k / 2) as nat)
            } else {
                hot_stream((k / 2) as nat)
            },
    )
}

fn push_hot_round(script: &mut Script, i: u64)
    ensures
        final(script)@ == old(script)@.push(hot_query(i as nat)).push(hot_stream(i as nat)),
{
    let number = decimal(i);
    let failed = numbered("hot query ", i);
    let wrong = join("hot query ", number.as_str(), " must return the seeded primary key");
    script.then_step(
        query_one(
            PROBE_ID,
            failed.as_str(),
            "a lookup by primary key yields one row",
        ).checking(
            Condition::Cell { column: 0, value: SqliteValue::Integer(PROBE_ID) },
            wrong.as_str(),
        ),
    );
    let failed = numbered("hot for_each ", i);
    let wrong = join("for_each ", number.as_str(), " must yield one row");
    script.then_step(
        Step::ask(
            Request::QueryForEach { handle: Handle::Select, params: integer_param(PROBE_ID) },
        ).checking(
            Condition::EveryCell { column: 0, value: SqliteValue::Integer(PROBE_ID) },
            "every row is the one with the key",
        ).checking(Condition::Succeeds, failed.as_str()).checking(
            Condition::RowCount(1),
            wrong.as_str(),
        ),
    );
}

/// From the seeded database to the repeated lookups.
pub open spec fn warm_head() -> Seq<StepView> {
    seq![
        prepare_step(Handle::Select, SELECT_ROW@, "prepare point query"@),
        query_one_step(PROBE_ID, "warm query"@, "a lookup by primary key yields one row"@),
        rows_loaded_step(
            "warm prepared point query should hydrate the clean file-backed MemDB image"@,
        ),
        StepView::ask(RequestView::ReadPublication).capturing(Register::PublicationBefore),
        StepView::ask(RequestView::ReadPublicationWrites).capturing(Register::WritesBefore),
        StepView::ask(RequestView::ReadMemdbSequence).capturing(Register::SequenceBefore),
        StepView::ask(RequestView::ResetProfile),
    ]
}

/// From the repeated lookups to the end.
pub open spec fn warm_tail() -> Seq<StepView> {
    seq![
        StepView::ask(RequestView::ReadProfile).capturing(Register::Profile),
        StepView::ask(RequestView::ReadPublication).capturing(Register::PublicationAfter),
        StepView::ask(RequestView::ReadPublicationWrites).capturing(Register::WritesAfter),
        StepView::ask(RequestView::ReadMemdbSequence).capturing(
            Register::SequenceAfter,
        ).checking_with(
            ConditionView::RefreshCount(0),
            "warm prepared point queries must not full-reload MemDB"@,
            Detail::Counters,
        ),
        rows_loaded_step(
            "MemDB rows must stay loaded across warm prepared point queries"@,
        ).checking(
            ConditionView::SameMemdbSequence,
            "memdb_visible_commit_seq must stay stable on unchanged prepared reads"@,
        ).checking(
            ConditionView::SameVisibleCommit,
            "published visible_commit_seq must stay stable on unchanged prepared reads"@,
        ).checking_with(
            ConditionView::SameGeneration,
            "unchanged durable identity must not republish / advance snapshot_gen on prepared reads"@,
            Detail::Publications,
        ).checking(
            ConditionView::SamePublicationWrites,
            "unchanged durable identity must not increment publication_write_count on prepared reads"@,
        ).checking_with(
            ConditionView::FastPathAtLeast(HOT_ITERS),
            "point queries should stay on the prepared fast path"@,
            Detail::Counters,
        ),
    ]
}

/// The scenario of the warmed lookups.
pub open spec fn warm_steps() -> Seq<StepView> {
    seed_steps(wal_seed(), WARM_ROWS as nat) + warm_head() + hot_rounds(HOT_ITERS as nat)
        + warm_tail()
}

/// Warmed prepared lookups by primary key on a file-backed database: repeated on an
/// unchanged file, collected or streamed, they neither reload the memory image nor
/// publish anything, and stay on the fast path.
pub fn warmed_prepared_point_query() -> (r: Scenario)
    ensures
        r.script@ == warm_steps(),
        r.profiled,
{
    let mut script = open_seeded_wal_db(WARM_ROWS);
    let ghost seed = script@;
    script.then_step(prepare(Handle::Select, SELECT_ROW, "prepare point query"));
    script.then_step(
        query_one(PROBE_ID, "warm query", "a lookup by primary key yields one row"),
    );
    script.then_step(
        rows_loaded("warm prepared point query should hydrate the clean file-backed MemDB image"),
    );
    script.then_step(
        Step::ask(Request::ReadPublication).capturing(Register::PublicationBefore),
    );
    script.then_step(
        Step::ask(Request::ReadPublicationWrites).capturing(Register::WritesBefore),
    );
    script.then_step(Step::ask(Request::ReadMemdbSequence).capturing(Register::SequenceBefore));
    script.then_step(Step::ask(Request::ResetProfile));
    assert(script@ =~= seed + warm_head() + hot_rounds(0));
    let mut i: u64 = 0;
    while i < HOT_ITERS
        invariant
            i <= HOT_ITERS,
            script@ == seed + warm_head() + hot_rounds(i as nat),
        decreases HOT_ITERS - i,
    {
        push_hot_round(&mut script, i);
        assert(script@ =~= seed + warm_head() + hot_rounds((i + 1) as nat));
        i += 1;
    }
    script.then_step(Step::ask(Request::ReadProfile).capturing(Register::Profile));
    script.then_step(
        Step::ask(Request::ReadPublication).capturing(Register::PublicationAfter),
    );
    script.then_step(
        Step::ask(Request::ReadPublicationWrites).capturing(Register::WritesAfter),
    );
    script.then_step(
        Step::ask(Request::ReadMemdbSequence).capturing(Register::SequenceAfter).checking_with(
            Condition::RefreshCount(0),
            "warm prepared point queries must not full-reload MemDB",
            Detail::Counters,
        ),
    );
    script.then_step(
        rows_loaded("MemDB rows must stay loaded across warm prepared point queries").checking(
            Condition::SameMemdbSequence,
            "memdb_visible_commit_seq must stay stable on unchanged prepared reads",
        ).checking(
            Condition::SameVisibleCommit,
            "published visible_commit_seq must stay stable on unchanged prepared reads",
        ).checking_with(
            Condition::SameGeneration,
            "unchanged durable identity must not republish / advance snapshot_gen on prepared reads",
            Detail::Publications,
        ).checking(
            Condition::SamePublicationWrites,
            "unchanged durable identity must not increment publication_write_count on prepared reads",
        ).checking_with(
            Condition::FastPathAtLeast(HOT_ITERS),
            "point queries should stay on the prepared fast path",
            Detail::Counters,
        ),
    );
    assert(script@ =~= warm_steps());
    Scenario { script, profiled: true }
}

// ---- Visibility of an external commit to a prepared lookup.

/// How many rows the scenario of the external commit works on.
pub const EXTERNAL_ROWS: i64 = 1_000;

/// The key of the row that the other connection inserts.
pub const EXTERNAL_ID: i64 = 999_001;

/// How often the lookup is repeated once the commit was seen.
pub const STEADY_ITERS: u64 = 8;

/// The prepared lookup of two columns.
pub const SELECT_NAME: &'static str = "SELECT id, name FROM bench WHERE id = ?1";

/// The statement with which the other connection inserts a row.
pub const EXTERNAL_INSERT: &'static str = "INSERT INTO bench VALUES (999001, 'external', 1.5);";

/// The lookup that is repeated once the commit was seen.
pub open spec fn steady_query() -> StepView {
    query_one_step(
        EXTERNAL_ID,
        "post-refresh point query"@,
        "a lookup by primary key yields one row"@,
    )
}

/// From the seeded database to the repeated lookups.
pub open spec fn external_head() -> Seq<StepView> {
    seq![
        prepare_step(Handle::Select, SELECT_NAME@, "prepare point query"@),
        query_one_step(1, "warm existing row"@, "a lookup by primary key yields one row"@),
        rows_loaded_step("a warm lookup loads the rows"@),
        open_step(Session::Writer, "open writer"@),
        try_execute_step(Session::Writer, "PRAGMA journal_mode = WAL;"@),
        execute_step(Session::Writer, "BEGIN;"@, "writer begin"@),
        execute_step(Session::Writer, EXTERNAL_INSERT@, "external insert"@),
        execute_step(Session::Writer, "COMMIT;"@, "writer commit"@),
        StepView::ask(RequestView::Close { session: Session::Writer }),
        StepView::ask(RequestView::ResetProfile),
        query_one_step(
            EXTERNAL_ID,
            "reader must observe external commit on next prepared statement"@,
            "external insert must be visible"@,
        ).checking(integer_cell(0, EXTERNAL_ID), "the row is the one with the key"@).checking(
            text_cell(1, "external"@),
            "the row has the name that was inserted"@,
        ),
        StepView::ask(RequestView::ReadProfile).capturing(Register::Profile).checking_with(
            ConditionView::RefreshCount(1),
            "exactly one MemDB refresh is required to observe the external commit"@,
            Detail::Counters,
        ),
        rows_loaded_step("MemDB must remain hydrated after the external-commit refresh"@),
        StepView::ask(RequestView::ResetProfile),
        StepView::ask(RequestView::ReadPublication).capturing(Register::PublicationBefore),
    ]
}

/// The repeated lookups.
pub open spec fn steady_rounds(n: nat) -> Seq<StepView> {
    Seq::new(n, |k: int| steady_query())
}

/// From the repeated lookups to the end.
pub open spec fn external_tail() -> Seq<StepView> {
    seq![
        StepView::ask(RequestView::ReadProfile).capturing(Register::Profile),
        StepView::ask(RequestView::ReadPublication).capturing(
            Register::PublicationAfter,
        ).checking_with(
            ConditionView::RefreshCount(0),
            "after absorbing the external commit, warm prepared reads must not reload"@,
            Detail::Counters,
        ).checking(
            ConditionView::SameGeneration,
            "post-refresh steady-state prepared reads must not no-op republish"@,
        ),
    ]
}

/// The scenario of the external commit.
pub open spec fn external_steps() -> Seq<StepView> {
    seed_steps(wal_seed(), EXTERNAL_ROWS as nat) + external_head() + steady_rounds(
        STEADY_ITERS as nat,
    ) + external_tail()
}

/// A commit of another connection: the reader's next prepared statement sees it,
/// at the cost of exactly one reload, and the statements after that reload and
/// publish nothing.
pub fn external_commit_on_next_statement() -> (r: Scenario)
    ensures
        r.script@ == external_steps(),
        r.profiled,
{
    let mut script = open_seeded_wal_db(EXTERNAL_ROWS);
    let ghost seed = script@;
    script.then_step(prepare(Handle::Select, SELECT_NAME, "prepare point query"));
    script.then_step(
        query_one(1, "warm existing row", "a lookup by primary key yields one row"),
    );
    script.then_step(rows_loaded("a warm lookup loads the rows"));
    script.then_step(open(Session::Writer, "open writer"));
    script.then_step(try_execute(Session::Writer, "PRAGMA journal_mode = WAL;"));
    script.then_step(execute(Session::Writer, "BEGIN;", "writer begin"));
    script.then_step(execute(Session::Writer, EXTERNAL_INSERT, "external insert"));
    script.then_step(execute(Session::Writer, "COMMIT;", "writer commit"));
    script.then_step(Step::ask(Request::Close { session: Session::Writer }));
    script.then_step(Step::ask(Request::ResetProfile));
    script.then_step(
        query_one(
            EXTERNAL_ID,
            "reader must observe external commit on next prepared statement",
            "external insert must be visible",
        ).checking(
            Condition::Cell { column: 0, value: SqliteValue::Integer(EXTERNAL_ID) },
            "the row is the one with the key",
        ).checking(
            Condition::Cell { column: 1, value: SqliteValue::Text("external".to_owned()) },
            "the row has the name that was inserted",
        ),
    );
    script.then_step(
        Step::ask(Request::ReadProfile).capturing(Register::Profile).checking_with(
            Condition::RefreshCount(1),
            "exactly one MemDB refresh is required to observe the external commit",
            Detail::Counters,
        ),
    );
    script.then_step(
        rows_loaded("MemDB must remain hydrated after the external-commit refresh"),
    );
    script.then_step(Step::ask(Request::ResetProfile));
    script.then_step(
        Step::ask(Request::ReadPublication).capturing(Register::PublicationBefore),
    );
    assert(script@ =~= seed + external_head() + steady_rounds(0));
    let mut i: u64 = 0;
    while i < STEADY_ITERS
        invariant
            i <= STEADY_ITERS,
            script@ == seed + external_head() + steady_rounds(i as nat),
        decreases STEADY_ITERS - i,
    {
        script.then_step(
            query_one(
                EXTERNAL_ID,
                "post-refresh point query",
                "a lookup by primary key yields one row",
            ),
        );
        assert(script@ =~= seed + external_head() + steady_rounds((i + 1) as nat));
        i += 1;
    }
    script.then_step(Step::ask(Request::ReadProfile).capturing(Register::Profile));
    script.then_step(
        Step::ask(Request::ReadPublication).capturing(Register::PublicationAfter).checking_with(
            Condition::RefreshCount(0),
            "after absorbing the external commit, warm prepared reads must not reload",
            Detail::Counters,
        ).checking(
            Condition::SameGeneration,
            "post-refresh steady-state prepared reads must not no-op republish",
        ),
    );
    assert(script@ =~= external_steps());
    Scenario { script, profiled: true }
}

// ---- Idle probes of the pager.

/// How many rows the scenario of the idle probes works on.
pub const IDLE_ROWS: i64 = 256;

/// How often the pager is probed.
pub const IDLE_ITERS: u64 = 5;

/// One idle probe.
pub open spec fn idle_probe() -> StepView {
    StepView::ask(RequestView::RefreshCleanWal).capturing(Register::PublicationAfter).checking(
        ConditionView::Succeeds,
        "idle clean wal refresh"@,
    ).checking(
        ConditionView::SameVisibleCommit,
        "idle probe must not invent a new visible commit seq"@,
    ).checking(
        ConditionView::SameGeneration,
        "idle clean-WAL probe must not republish when durable identity is unchanged"@,
    )
}

/// From the seeded database to the probes.
pub open spec fn idle_head() -> Seq<StepView> {
    seq![
        StepView::ask(RequestView::RefreshPublication).checking(
            ConditionView::Succeeds,
            "initial refresh"@,
        ),
        StepView::ask(RequestView::ReadPublication).capturing(Register::PublicationBefore),
        StepView::ask(RequestView::ReadPublicationWrites).capturing(Register::WritesBefore),
    ]
}

/// The probes.
pub open spec fn idle_probes(n: nat) -> Seq<StepView> {
    Seq::new(n, |k: int| idle_probe())
}

/// From the probes to the end.
pub open spec fn idle_tail() -> Seq<StepView> {
    seq![
        StepView::ask(RequestView::ReadPublicationWrites).capturing(
            Register::WritesAfter,
        ).checking(
            ConditionView::SamePublicationWrites,
            "idle clean-WAL probes must not increment publication_write_count"@,
        ),
    ]
}

/// The scenario of the idle probes.
pub open spec fn idle_steps() -> Seq<StepView> {
    seed_steps(wal_seed(), IDLE_ROWS as nat) + idle_head() + idle_probes(IDLE_ITERS as nat)
        + idle_tail()
}

/// Idle probes of a clean write-ahead log: on an unchanged file they publish
/// nothing and show no new commit.
pub fn idle_clean_wal_refresh() -> (r: Scenario)
    ensures
        r.script@ == idle_steps(),
        r.profiled,
{
    let mut script = open_seeded_wal_db(IDLE_ROWS);
    let ghost seed = script@;
    script.then_step(
        Step::ask(Request::RefreshPublication).checking(Condition::Succeeds, "initial refresh"),
    );
    script.then_step(
        Step::ask(Request::ReadPublication).capturing(Register::PublicationBefore),
    );
    script.then_step(
        Step::ask(Request::ReadPublicationWrites).capturing(Register::WritesBefore),
    );
    assert(script@ =~= seed + idle_head() + idle_probes(0));
    let mut i: u64 = 0;
    while i < IDLE_ITERS
        invariant
            i <= IDLE_ITERS,
            script@ == seed + idle_head() + idle_probes(i as nat),
        decreases IDLE_ITERS - i,
    {
        script.then_step(
            Step::ask(Request::RefreshCleanWal).capturing(Register::PublicationAfter).checking(
                Condition::Succeeds,
                "idle clean wal refresh",
            ).checking(
                Condition::SameVisibleCommit,
                "idle probe must not invent a new visible commit seq",
            ).checking(
                Condition::SameGeneration,
                "idle clean-WAL probe must not republish when durable identity is unchanged",
            ),
        );
        assert(script@ =~= seed + idle_head() + idle_probes((i + 1) as nat));
        i += 1;
    }
    script.then_step(
        Step::ask(Request::ReadPublicationWrites).capturing(Register::WritesAfter).checking(
            Condition::SamePublicationWrites,
            "idle clean-WAL probes must not increment publication_write_count",
        ),
    );
    assert(script@ =~= idle_steps());
    Scenario { script, profiled: true }
}

} // verus!
