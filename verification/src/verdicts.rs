//! What the scenarios conclude of a database: a sound one passes, and one that has a
//! fault that a scenario is for does not.
use vstd::prelude::*;

use crate::database::{
    columns_of, lemma_journal_meaning, lemma_meanings, meaning, projected, row_of, row_with,
    rows_up_to, Cells, Database, Fault, Lookup, Rows, Statement, Table, Tables,
};
use crate::fixtures::{
    journal_mode_sql, law_journal_statements_agree, point_seed, seed_head, seed_row, seed_rows, seed_steps, seed_tail, seeded_rows, wal_seed,
    SeedView,
};
use crate::laws::passes;
use crate::profile::{no_counts, HotPathCounters, ParserCounters};
use crate::promises::{
    external_promise, hot_round_well, law_api, law_exact_visibility, law_external_commit, law_idle_refresh, law_seed,
    law_warmed_lookups, one_row, one_row_with, seed_len, seeded_well, warm_promise,
};
use crate::protocol::{Handle, ReplyView, RequestView, Session};
use crate::scenarios::{
    api_body, api_steps, exact_body, exact_steps, external_head, external_steps, external_tail,
    hot_rounds, idle_head, idle_probes, idle_steps, idle_tail, point_columns, steady_rounds,
    warm_head, warm_steps, warm_tail,
};
use crate::script::StepView;
use crate::text::{decimal_text, law_decimal_reads_back};
use crate::value::ValueView;

verus! {

/// What is asked first does not depend on what is asked later.
proof fn lemma_front(db: Database, front: Seq<StepView>, back: Seq<StepView>, k: nat)
    requires
        k <= front.len(),
    ensures
        db.after(front + back, k) == db.after(front, k),
    decreases k,
{
    if k > 0 {
        lemma_front(db, front, back, (k - 1) as nat);
        assert((front + back)[k - 1] == front[k - 1]);
    }
}

/// What is asked later is asked of the database that the first steps left.
proof fn lemma_behind(db: Database, front: Seq<StepView>, back: Seq<StepView>, k: nat)
    requires
        k <= back.len(),
    ensures
        db.after(front + back, front.len() + k) == db.after(front, front.len()).after(back, k),
    decreases k,
{
    if k > 0 {
        lemma_behind(db, front, back, (k - 1) as nat);
        assert((front + back)[front.len() + k - 1] == back[k - 1]);
    } else {
        lemma_front(db, front, back, front.len());
    }
}

/// The answers to steps behind others.
proof fn lemma_answers_behind(
    db: Database,
    fault: Fault,
    front: Seq<StepView>,
    back: Seq<StepView>,
)
    ensures
        db.answers(fault, front + back) == db.answers(fault, front) + db.after(
            front,
            front.len(),
        ).answers(fault, back),
{
    let together = db.answers(fault, front) + db.after(front, front.len()).answers(fault, back);
    assert forall|i: int| 0 <= i < (front + back).len() implies #[trigger] db.answers(
        fault,
        front + back,
    )[i] == together[i] by {
        if i < front.len() {
            lemma_front(db, front, back, i as nat);
            assert((front + back)[i] == front[i]);
        } else {
            lemma_behind(db, front, back, (i - front.len()) as nat);
            assert((front + back)[i] == back[i - front.len()]);
        }
    }
    assert(db.answers(fault, front + back) =~= together);
}

/// What a seed leaves of a fresh database: the file, one connection, the journal mode,
/// and the table with the keys from 0 up to `count`, committed.
pub open spec fn seeded(db: Database, table: Table, count: nat, journal: Seq<char>) -> Database {
    Database {
        file: true,
        reader: true,
        journal: Some(journal),
        synchronous_normal: true,
        snapshots_off: true,
        durable: Tables::empty().with(table, rows_up_to(table, count)),
        schema: 1,
        commits: (db.commits + 2) as u64,
        ..db
    }
}

/// The database goes on from `db` to `next`, and answers `reply`.
spec fn goes(
    db: Database,
    fault: Fault,
    request: RequestView,
    next: Database,
    reply: ReplyView,
) -> bool {
    &&& db.next(request) == next
    &&& db.answer(fault, request) == reply
}

/// A statement that can be run is.
proof fn lemma_execute(db: Database, fault: Fault, session: Session, sql: Seq<char>, next: Database)
    requires
        db.executed(session, meaning(sql)) == Some(next),
    ensures
        goes(db, fault, RequestView::Execute { session, sql }, next, ReplyView::Done),
{
    reveal(Database::next);
    reveal(Database::answer);
}

/// A file is made where there is none.
proof fn lemma_create_file(db: Database, fault: Fault)
    requires
        !db.file,
    ensures
        goes(
            db,
            fault,
            RequestView::CreateFile,
            Database { file: true, ..db },
            ReplyView::File(Some(db.path)),
        ),
{
    reveal(Database::next);
    reveal(Database::answer);
}

/// A connection is opened where it is not.
proof fn lemma_open(db: Database, fault: Fault, session: Session)
    requires
        db.file,
        !db.is_open(session),
    ensures
        goes(
            db,
            fault,
            RequestView::Open { session },
            db.with_session(session, true),
            ReplyView::Done,
        ),
{
    reveal(Database::next);
    reveal(Database::answer);
}

/// A connection without a transaction is closed.
proof fn lemma_close(db: Database, fault: Fault, session: Session)
    requires
        db.is_open(session),
        db.transaction is None,
    ensures
        goes(
            db,
            fault,
            RequestView::Close { session },
            db.with_session(session, false),
            ReplyView::Done,
        ),
{
    reveal(Database::next);
    reveal(Database::answer);
}

/// A statement is prepared.
proof fn lemma_prepare(db: Database, fault: Fault, handle: Handle, sql: Seq<char>)
    requires
        db.reader,
        !db.prepared.dom().contains(handle),
        db.has_table_of(meaning(sql)),
    ensures
        goes(
            db,
            fault,
            RequestView::Prepare { handle, sql },
            db.with_prepared(handle, meaning(sql), false),
            ReplyView::Done,
        ),
{
    reveal(Database::next);
    reveal(Database::answer);
}

/// A prepared insert that can be run is.
proof fn lemma_fill(
    db: Database,
    fault: Fault,
    handle: Handle,
    params: Seq<ValueView>,
    next: Database,
)
    requires
        db.filled(handle, params) == Some(next),
    ensures
        goes(db, fault, RequestView::ExecutePrepared { handle, params }, next, ReplyView::Done),
{
    reveal(Database::next);
    reveal(Database::answer);
}

/// A prepared statement is let go of.
proof fn lemma_release(db: Database, fault: Fault, handle: Handle)
    requires
        db.prepared.dom().contains(handle),
    ensures
        goes(
            db,
            fault,
            RequestView::Release { handle },
            Database { prepared: db.prepared.remove(handle), ..db },
            ReplyView::Done,
        ),
{
    reveal(Database::next);
    reveal(Database::answer);
}

/// A point query is prepared, or not taken for one.
proof fn lemma_prepare_point(db: Database, fault: Fault, handle: Handle, sql: Seq<char>, by: int)
    requires
        db.reader,
        !db.prepared.dom().contains(handle),
        db.has_table_of(meaning(sql)),
        meaning(sql) matches Statement::Select { by: b, .. } && b == by,
    ensures
        goes(
            db,
            fault,
            RequestView::PreparePoint { handle, sql },
            if by <= 1 {
                db.with_prepared(handle, meaning(sql), true)
            } else {
                db
            },
            ReplyView::Eligible(
                if by == 0 {
                    fault != Fault::KeyIsNoPoint
                } else if by == 1 {
                    fault != Fault::UniqueIsNoPoint
                } else {
                    fault == Fault::GroupIsPoint
                },
            ),
        ),
{
    reveal(Database::next);
    reveal(Database::answer);
}

/// The columns of a point query are named.
proof fn lemma_describe(
    db: Database,
    fault: Fault,
    handle: Handle,
    table: Table,
    columns: Seq<int>,
)
    requires
        db.reader,
        db.prepared.dom().contains(handle),
        db.prepared[handle].point,
        db.prepared[handle].statement matches Statement::Select { table: t, columns: c, .. } && t
            == table && c == columns,
    ensures
        goes(
            db,
            fault,
            RequestView::DescribePoint { handle },
            db,
            ReplyView::Columns {
                count: columns.len(),
                names: if fault == Fault::ForgetsColumns && db.prepared[handle].schema
                    != db.schema {
                    seq![]
                } else {
                    Seq::new(columns.len(), |i: int| columns_of(table)[columns[i]])
                },
            },
        ),
{
    reveal(Database::next);
    reveal(Database::answer);
}

/// The first of some rows.
spec fn first_of(rows: Seq<Cells>) -> Option<Cells> {
    if rows.len() == 0 {
        None
    } else {
        Some(rows[0])
    }
}

/// A point query is run.
proof fn lemma_query_point(
    db: Database,
    fault: Fault,
    handle: Handle,
    key: ValueView,
    table: Table,
    columns: Seq<int>,
    by: int,
)
    requires
        db.reader,
        db.transaction is None,
        db.prepared.dom().contains(handle),
        db.prepared[handle].point,
        db.prepared[handle].statement == (Statement::Select { table, columns, by }),
    ensures
        goes(
            db,
            fault,
            RequestView::QueryPoint { handle, params: seq![key] },
            db.looked_up(table, by, key, false),
            if fault == Fault::StaleSchema && db.prepared[handle].schema != db.schema {
                ReplyView::Failed("stale"@)
            } else {
                ReplyView::Point(
                    first_of(
                        db.looked_up(table, by, key, false).found(
                            fault,
                            Lookup { table, by, key, streamed: false },
                            columns,
                        ),
                    ),
                )
            },
        ),
{
    reveal(Database::next);
    reveal(Database::answer);
}

/// A prepared lookup is run, and its rows collected.
proof fn lemma_query(
    db: Database,
    fault: Fault,
    handle: Handle,
    key: ValueView,
    table: Table,
    columns: Seq<int>,
    by: int,
)
    requires
        db.reader,
        db.transaction is None,
        db.prepared.dom().contains(handle),
        !db.prepared[handle].point,
        db.prepared[handle].statement == (Statement::Select { table, columns, by }),
    ensures
        goes(
            db,
            fault,
            RequestView::Query { handle, params: seq![key] },
            db.looked_up(table, by, key, false),
            ReplyView::Rows(
                db.looked_up(table, by, key, false).found(
                    fault,
                    Lookup { table, by, key, streamed: false },
                    columns,
                ),
            ),
        ),
        goes(
            db,
            fault,
            RequestView::QueryForEach { handle, params: seq![key] },
            db.looked_up(table, by, key, true),
            ReplyView::Streamed {
                rows: db.looked_up(table, by, key, true).found(
                    fault,
                    Lookup { table, by, key, streamed: true },
                    columns,
                ),
                error: None,
            },
        ),
{
    reveal(Database::next);
    reveal(Database::answer);
}

/// The commit up to which a reader shows to have loaded.
spec fn shown_sequence(db: Database, fault: Fault) -> u64 {
    if fault == Fault::MovesSequence {
        (db.image_commit + db.lookups.len()) as u64
    } else {
        db.image_commit
    }
}

/// What is read changes nothing.
proof fn lemma_read(db: Database, fault: Fault)
    ensures
        goes(
            db,
            fault,
            RequestView::ReadRowsLoaded,
            db,
            ReplyView::Loaded(
                db.image is Some && !(fault == Fault::Unloads && db.lookups.len() > 1),
            ),
        ),
        goes(
            db,
            fault,
            RequestView::ReadMemdbSequence,
            db,
            ReplyView::Count(shown_sequence(db, fault)),
        ),
        goes(
            db,
            fault,
            RequestView::ReadPublication,
            db,
            ReplyView::Publication(db.shown_publication(fault)),
        ),
        goes(
            db,
            fault,
            RequestView::ReadPublicationWrites,
            db,
            ReplyView::Count(db.shown_writes(fault)),
        ),
        goes(
            db,
            fault,
            RequestView::ReadProfile,
            db,
            ReplyView::Profile(db.shown_counters(fault)),
        ),
{
    reveal(Database::next);
    reveal(Database::answer);
}

/// The profile is reset.
proof fn lemma_reset(db: Database, fault: Fault)
    ensures
        goes(
            db,
            fault,
            RequestView::ResetProfile,
            Database { counters: no_counts(), streams: 0, ..db },
            ReplyView::Done,
        ),
{
    reveal(Database::next);
    reveal(Database::answer);
}

/// The pager looks at the file, also on the path of a write-ahead log.
proof fn lemma_refresh(db: Database, fault: Fault)
    requires
        db.reader,
        db.journal == Some("WAL"@),
    ensures
        goes(db, fault, RequestView::RefreshPublication, db.refreshed(), ReplyView::Done),
        goes(
            db,
            fault,
            RequestView::RefreshCleanWal,
            Database { probes: (db.probes + 1) as u64, ..db.refreshed() },
            ReplyView::Publication(
                (Database { probes: (db.probes + 1) as u64, ..db.refreshed() }).shown_publication(
                    fault,
                ),
            ),
        ),
{
    reveal(Database::next);
    reveal(Database::answer);
}

/// One more request is taken.
proof fn lemma_taken(db: Database, fault: Fault, steps: Seq<StepView>, k: nat)
    requires
        k < steps.len(),
    ensures
        db.after(steps, k + 1) == db.after(steps, k).next(steps[k as int].request),
        db.answers(fault, steps)[k as int] == db.after(steps, k).answer(
            fault,
            steps[k as int].request,
        ),
{
}

/// A fresh database from the first request of a seed to the transaction.
proof fn lemma_seed_head(db: Database, fault: Fault, seed: SeedView, table: Table, mode: Seq<char>)
    requires
        db.is_fresh(),
        meaning(seed.journal_sql) == Statement::JournalMode(mode),
        meaning(seed.create_sql) == Statement::Create(table),
        meaning(seed.insert_sql) == Statement::InsertByKey(table),
    ensures
        db.after(seed_head(seed), 8) == (Database {
            transaction: Some((Session::Reader, Tables::empty().with(table, Map::empty()))),
            durable: Tables::empty().with(table, Map::empty()),
            commits: (db.commits + 1) as u64,
            ..seeded(db, table, 0, mode)
        }).with_prepared(Handle::Insert, Statement::InsertByKey(table), false),
        db.answers(fault, seed_head(seed))[0] == ReplyView::File(Some(db.path)),
        forall|i: int|
            0 < i < 8 ==> #[trigger] db.answers(fault, seed_head(seed))[i] == ReplyView::Done,
{
    lemma_meanings();
    let head = seed_head(seed);
    let no_rows = Tables::empty().with(table, Map::empty());
    lemma_taken(db, fault, head, 0);
    lemma_create_file(db, fault);
    let d1 = Database { file: true, ..db };
    lemma_taken(db, fault, head, 1);
    lemma_open(d1, fault, Session::Reader);
    let d2 = Database { reader: true, ..d1 };
    lemma_taken(db, fault, head, 2);
    let d3 = Database { journal: Some(mode), ..d2 };
    lemma_execute(d2, fault, Session::Reader, seed.journal_sql, d3);
    lemma_taken(db, fault, head, 3);
    let d4 = Database { synchronous_normal: true, ..d3 };
    lemma_execute(d3, fault, Session::Reader, "PRAGMA synchronous = NORMAL;"@, d4);
    lemma_taken(db, fault, head, 4);
    let d5 = Database { snapshots_off: true, ..d4 };
    lemma_execute(
        d4,
        fault,
        Session::Reader,
        "PRAGMA fsqlite_capture_time_travel_snapshots=false;"@,
        d5,
    );
    lemma_taken(db, fault, head, 5);
    let d6 = Database { durable: no_rows, schema: 1, commits: (db.commits + 1) as u64, ..d5 };
    lemma_execute(d5, fault, Session::Reader, seed.create_sql, d6);
    lemma_taken(db, fault, head, 6);
    let d7 = Database { transaction: Some((Session::Reader, no_rows)), ..d6 };
    lemma_execute(d6, fault, Session::Reader, "BEGIN;"@, d7);
    lemma_taken(db, fault, head, 7);
    lemma_prepare(d7, fault, Handle::Insert, seed.insert_sql);
}

/// A transaction in which the rows of a seed are inserted.
proof fn lemma_seed_rows(
    db: Database,
    fault: Fault,
    seed: SeedView,
    table: Table,
    count: nat,
    k: nat,
)
    requires
        k <= count <= i64::MAX,
        db.reader,
        db.transaction == Some((Session::Reader, Tables::empty().with(table, Map::empty()))),
        db.prepared.dom().contains(Handle::Insert),
        db.prepared[Handle::Insert].statement == Statement::InsertByKey(table),
    ensures
        db.after(seed_rows(seed, count), k) == (Database {
            transaction: Some(
                (Session::Reader, Tables::empty().with(table, rows_up_to(table, k))),
            ),
            ..db
        }),
        forall|i: int|
            0 <= i < k ==> #[trigger] db.answers(fault, seed_rows(seed, count))[i]
                == ReplyView::Done,
    decreases k,
{
    let rows = seed_rows(seed, count);
    if k == 0 {
        assert(rows_up_to(table, 0) =~= Map::empty());
    } else {
        lemma_seed_rows(db, fault, seed, table, count, (k - 1) as nat);
        let id = (k - 1) as i64;
        let before = db.after(rows, (k - 1) as nat);
        let tables = Tables::empty().with(table, rows_up_to(table, k));
        assert(rows_up_to(table, (k - 1) as nat).insert(id, row_of(table, id)) =~= rows_up_to(
            table,
            k,
        ));
        lemma_taken(db, fault, rows, (k - 1) as nat);
        assert(rows[k - 1] == seed_row(seed, id));
        lemma_fill(
            before,
            fault,
            Handle::Insert,
            seq![ValueView::Integer(id)],
            Database { transaction: Some((Session::Reader, tables)), ..db },
        );
    }
}

/// What a seed leaves of a fresh database, and that every answer on the way is the one
/// that the seed wants.
proof fn lemma_seeded(
    db: Database,
    fault: Fault,
    seed: SeedView,
    table: Table,
    count: nat,
    mode: Seq<char>,
)
    requires
        db.is_fresh(),
        count <= i64::MAX,
        meaning(seed.journal_sql) == Statement::JournalMode(mode),
        meaning(seed.create_sql) == Statement::Create(table),
        meaning(seed.insert_sql) == Statement::InsertByKey(table),
    ensures
        seed_steps(seed, count).len() == seed_len(count),
        db.after(seed_steps(seed, count), seed_len(count)) == seeded(db, table, count, mode),
        seeded_well(db.answers(fault, seed_steps(seed, count)), count),
{
    lemma_meanings();
    let head = seed_head(seed);
    let rows = seed_rows(seed, count);
    let tail = seed_tail();
    let d8 = db.after(head, 8);
    lemma_seed_head(db, fault, seed, table, mode);
    lemma_seed_rows(d8, fault, seed, table, count, count);
    let full = d8.after(rows, count);
    lemma_behind(db, head, rows, count);
    lemma_answers_behind(db, fault, head, rows);
    lemma_answers_behind(db, fault, head + rows, tail);
    lemma_behind(db, head + rows, tail, 2);
    lemma_taken(full, fault, tail, 0);
    lemma_release(full, fault, Handle::Insert);
    let released = Database { prepared: full.prepared.remove(Handle::Insert), ..full };
    assert(released.prepared =~= Map::empty());
    lemma_taken(full, fault, tail, 1);
    lemma_execute(
        released,
        fault,
        Session::Reader,
        "COMMIT;"@,
        seeded(db, table, count, mode),
    );
    assert(full.after(tail, 0) == full);
    assert(full.after(tail, 2) == seeded(db, table, count, mode));
    let all = db.answers(fault, seed_steps(seed, count));
    let front = db.answers(fault, head) + d8.answers(fault, rows);
    assert(all == front + full.answers(fault, tail));
    assert forall|i: int| 0 < i < seed_len(count) implies #[trigger] all[i] is Done by {
        if i < 8 {
            assert(all[i] == db.answers(fault, head)[i]);
        } else if i < 8 + count {
            assert(all[i] == d8.answers(fault, rows)[i - 8]);
        } else {
            assert(all[i] == full.answers(fault, tail)[i - 8 - count]);
        }
    }
    assert(all[0] == db.answers(fault, head)[0]);
}

/// The answers to what is asked of a seeded database, and what that leaves.
proof fn lemma_scenario(
    db: Database,
    fault: Fault,
    seed: SeedView,
    table: Table,
    count: nat,
    mode: Seq<char>,
    body: Seq<StepView>,
)
    requires
        db.is_fresh(),
        count <= i64::MAX,
        meaning(seed.journal_sql) == Statement::JournalMode(mode),
        meaning(seed.create_sql) == Statement::Create(table),
        meaning(seed.insert_sql) == Statement::InsertByKey(table),
    ensures
        (seed_steps(seed, count) + body).len() == seed_len(count) + body.len(),
        seeded_well(db.answers(fault, seed_steps(seed, count) + body), count),
        forall|k: int|
            0 <= k < body.len() ==> #[trigger] seeded(db, table, count, mode).answers(
                fault,
                body,
            )[k] == db.answers(fault, seed_steps(seed, count) + body)[seed_len(count) + k],
        db.left_by(seed_steps(seed, count) + body) == seeded(db, table, count, mode).left_by(body),
{
    let front = seed_steps(seed, count);
    let seeding = db.answers(fault, front);
    let all = db.answers(fault, front + body);
    lemma_seeded(db, fault, seed, table, count, mode);
    lemma_answers_behind(db, fault, front, body);
    lemma_behind(db, front, body, body.len());
    assert forall|i: int| 0 <= i < seed_len(count) implies #[trigger] all[i] == seeding[i] by {}
}

/// The statements of the two seeds.
proof fn lemma_seed_meanings(mode: Seq<char>)
    ensures
        meaning(wal_seed().journal_sql) == Statement::JournalMode("WAL"@),
        meaning(wal_seed().create_sql) == Statement::Create(Table::Bench),
        meaning(wal_seed().insert_sql) == Statement::InsertByKey(Table::Bench),
        meaning(point_seed(mode).journal_sql) == Statement::JournalMode(mode),
        meaning(point_seed(mode).create_sql) == Statement::Create(Table::Points),
        meaning(point_seed(mode).insert_sql) == Statement::InsertByKey(Table::Points),
{
    lemma_meanings();
    lemma_journal_meaning(mode);
    lemma_journal_meaning("WAL"@);
    law_journal_statements_agree();
}

/// A seed of the prepared lookups, asked of any fresh database: every request is done, and
/// what is left is a database in write-ahead-log mode with one open connection, no open
/// transaction and nothing prepared, in which the table `bench` is committed with exactly
/// the keys from 0 up to `row_count`.
pub proof fn law_wal_seed_fills_the_table(db: Database, fault: Fault, row_count: i64)
    requires
        db.is_fresh(),
    ensures
        passes(
            seed_steps(wal_seed(), seeded_rows(row_count)),
            db.answers(fault, seed_steps(wal_seed(), seeded_rows(row_count))),
        ),
        db.left_by(seed_steps(wal_seed(), seeded_rows(row_count))) == seeded(
            db,
            Table::Bench,
            if row_count > 0 {
                row_count as nat
            } else {
                0
            },
            "WAL"@,
        ),
{
    let count = seeded_rows(row_count);
    lemma_seed_meanings("WAL"@);
    lemma_seeded(db, fault, wal_seed(), Table::Bench, count, "WAL"@);
    law_seed(wal_seed(), count, db.answers(fault, seed_steps(wal_seed(), count)));
}

/// A seed of the point queries, asked of any fresh database: every request is done, and
/// what is left is a database in the journal mode asked for with one open connection, no
/// open transaction and nothing prepared, in which the table `point_bench` is committed
/// with exactly the keys from 0 up to `row_count`.
pub proof fn law_point_seed_fills_the_table(
    db: Database,
    fault: Fault,
    row_count: i64,
    journal_mode: Seq<char>,
)
    requires
        db.is_fresh(),
    ensures
        passes(
            seed_steps(point_seed(journal_mode), seeded_rows(row_count)),
            db.answers(fault, seed_steps(point_seed(journal_mode), seeded_rows(row_count))),
        ),
        db.left_by(seed_steps(point_seed(journal_mode), seeded_rows(row_count))) == seeded(
            db,
            Table::Points,
            if row_count > 0 {
                row_count as nat
            } else {
                0
            },
            journal_mode,
        ),
{
    let count = seeded_rows(row_count);
    let seed = point_seed(journal_mode);
    lemma_seed_meanings(journal_mode);
    lemma_seeded(db, fault, seed, Table::Points, count, journal_mode);
    law_seed(seed, count, db.answers(fault, seed_steps(seed, count)));
}

/// A lookup by primary key finds the row, or none.
proof fn lemma_found_by_key(
    db: Database,
    fault: Fault,
    table: Table,
    rows: Rows,
    id: i64,
    streamed: bool,
    columns: Seq<int>,
)
    requires
        (if fault == Fault::StaleImage {
            db.first_image
        } else {
            db.image
        }) matches Some(tables) && tables.at(table) == Some(rows),
    ensures
        db.found(
            fault,
            Lookup { table, by: 0, key: ValueView::Integer(id), streamed },
            columns,
        ) == (if rows.dom().contains(id) && fault != Fault::Loses(id) {
            seq![projected(rows[id], columns)]
        } else if !rows.dom().contains(id) && fault == Fault::Invents(id) {
            seq![Seq::new(columns.len(), |i: int| ValueView::Integer(id))]
        } else {
            seq![]
        }),
{
}

/// What the next lookup sees of the tables.
spec fn seen_by(db: Database, fault: Fault) -> Tables {
    match (fault, db.first_image) {
        (Fault::StaleImage, Some(tables)) => tables,
        _ => db.durable,
    }
}

/// What a point query by primary key is answered.
spec fn point_reply(db: Database, fault: Fault, rows: Rows, id: i64) -> ReplyView {
    if fault == Fault::StaleSchema && db.prepared[Handle::ById].schema != db.schema {
        ReplyView::Failed("stale"@)
    } else if rows.dom().contains(id) && fault != Fault::Loses(id) {
        ReplyView::Point(Some(seq![rows[id][0], rows[id][2]]))
    } else if !rows.dom().contains(id) && fault == Fault::Invents(id) {
        ReplyView::Point(Some(seq![ValueView::Integer(id), ValueView::Integer(id)]))
    } else {
        ReplyView::Point(None)
    }
}

/// A point query by primary key.
proof fn lemma_point_by_key(db: Database, fault: Fault, rows: Rows, id: i64)
    requires
        db.reader,
        db.transaction is None,
        db.prepared.dom().contains(Handle::ById),
        db.prepared[Handle::ById].point,
        db.prepared[Handle::ById].statement == (Statement::Select {
            table: Table::Points,
            columns: seq![0, 2],
            by: 0,
        }),
        seen_by(db, fault).points == Some(rows),
    ensures
        goes(
            db,
            fault,
            RequestView::QueryPoint {
                handle: Handle::ById,
                params: seq![ValueView::Integer(id)],
            },
            db.looked_up(Table::Points, 0, ValueView::Integer(id), false),
            point_reply(db, fault, rows, id),
        ),
{
    let key = ValueView::Integer(id);
    let after = db.looked_up(Table::Points, 0, key, false);
    lemma_query_point(db, fault, Handle::ById, key, Table::Points, seq![0, 2], 0);
    lemma_found_by_key(after, fault, Table::Points, rows, id, false, seq![0, 2]);
    assert(projected(rows[id], seq![0, 2]) =~= seq![rows[id][0], rows[id][2]]);
    assert(Seq::new(2, |i: int| key) =~= seq![key, key]);
}

/// Of the rows that a seed makes one has the address with the number `id`.
proof fn lemma_address(count: nat, id: i64)
    requires
        0 <= id < count,
    ensures
        row_with(
            rows_up_to(Table::Points, count),
            1,
            ValueView::Text("user_"@ + decimal_text(id as nat) + "@example.test"@),
        ) == Some(id),
{
    let rows = rows_up_to(Table::Points, count);
    let address = "user_"@ + decimal_text(id as nat) + "@example.test"@;
    assert(rows.dom().contains(id) && rows[id][1] == ValueView::Text(address));
    let key = ValueView::Text(address);
    let other = row_with(rows, 1, key)->0;
    assert(rows.dom().contains(other) && rows[other][1] == key);
    let same = "user_"@ + decimal_text(other as nat) + "@example.test"@;
    assert(same == address);
    let a = decimal_text(id as nat);
    let b = decimal_text(other as nat);
    let n = "user_"@.len() as int;
    assert(a.len() == b.len());
    assert(address.subrange(n, n + a.len()) =~= a);
    assert(same.subrange(n, n + b.len()) =~= b);
    law_decimal_reads_back(id as nat);
    law_decimal_reads_back(other as nat);
}

/// The lookup of a primary key.
pub open spec fn by_key(table: Table, id: i64) -> Lookup {
    Lookup { table, by: 0, key: ValueView::Integer(id), streamed: false }
}

/// The faults that the scenario of the point-query interface is for.
pub open spec fn api_notices(fault: Fault) -> bool {
    match fault {
        Fault::Loses(id) => id == 17 || id == 9 || id == 23,
        Fault::Invents(id) => id == 999_999,
        Fault::KeyIsNoPoint => true,
        Fault::UniqueIsNoPoint => true,
        Fault::GroupIsPoint => true,
        Fault::StaleSchema => true,
        Fault::ForgetsColumns => true,
        _ => false,
    }
}

/// The scenario of the point-query interface passes on a database exactly if the database
/// has none of the faults that the scenario is for. It works on 64 rows in write-ahead-log
/// mode, indexes the groups, and looks up two keys that are there, one that is not, and
/// one address.
#[verifier::spinoff_prover]
pub proof fn law_api_verdict(db: Database, fault: Fault)
    requires
        db.is_fresh(),
    ensures
        passes(api_steps(), db.answers(fault, api_steps())) <==> !api_notices(fault),
        db.left_by(api_steps()).journal == Some("WAL"@),
        db.left_by(api_steps()).durable == (Tables {
            bench: None,
            points: Some(rows_up_to(Table::Points, 64)),
            groups_indexed: true,
        }),
        db.left_by(api_steps()).transaction is None,
        db.left_by(api_steps()).lookups == seq![
            by_key(Table::Points, 17),
            by_key(Table::Points, 999_999),
            Lookup {
                table: Table::Points,
                by: 1,
                key: ValueView::Text("user_9@example.test"@),
                streamed: false,
            },
            by_key(Table::Points, 23),
        ],
{
    let seed = point_seed("WAL"@);
    let body = api_body();
    let d0 = seeded(db, Table::Points, 64, "WAL"@);
    let rows = rows_up_to(Table::Points, 64);
    lemma_seed_meanings("WAL"@);
    lemma_meanings();
    lemma_scenario(db, fault, seed, Table::Points, 64, "WAL"@, body);
    law_api(db.answers(fault, api_steps()));
    let by_id = "SELECT id, display_name FROM point_bench WHERE id = ?1"@;
    let by_email = "SELECT id, display_name FROM point_bench WHERE email = ?1"@;
    let by_group = "SELECT id FROM point_bench WHERE group_name = ?1"@;
    let index = "CREATE INDEX point_bench_group_idx ON point_bench(group_name);"@;
    let address = ValueView::Text("user_9@example.test"@);
    lemma_taken(d0, fault, body, 0);
    lemma_prepare_point(d0, fault, Handle::ById, by_id, 0);
    let d1 = d0.with_prepared(Handle::ById, meaning(by_id), true);
    lemma_taken(d0, fault, body, 1);
    lemma_describe(d1, fault, Handle::ById, Table::Points, seq![0, 2]);
    lemma_taken(d0, fault, body, 2);
    lemma_point_by_key(d1, fault, rows, 17);
    let d3 = d1.looked_up(Table::Points, 0, ValueView::Integer(17), false);
    assert(d0.after(body, 3) == d3);
    lemma_taken(d0, fault, body, 3);
    lemma_point_by_key(d3, fault, rows, 999_999);
    let d4 = d3.looked_up(Table::Points, 0, ValueView::Integer(999_999), false);
    assert(d0.after(body, 4) == d4);
    lemma_taken(d0, fault, body, 4);
    lemma_prepare_point(d4, fault, Handle::ByEmail, by_email, 1);
    let d5 = d4.with_prepared(Handle::ByEmail, meaning(by_email), true);
    assert(d0.after(body, 5) == d5);
    lemma_taken(d0, fault, body, 5);
    lemma_query_point(d5, fault, Handle::ByEmail, address, Table::Points, seq![0, 2], 1);
    let d6 = d5.looked_up(Table::Points, 1, address, false);
    assert(row_with(rows, 1, address) == Some(9i64)) by {
        lemma_address(64, 9);
        reveal_strlit("user_9@example.test");
        reveal_strlit("user_");
        reveal_strlit("@example.test");
        assert("user_"@ + decimal_text(9) + "@example.test"@ =~= "user_9@example.test"@);
    }
    assert(d0.after(body, 6) == d6);
    lemma_taken(d0, fault, body, 6);
    lemma_prepare_point(d6, fault, Handle::ByGroup, by_group, 3);
    assert(d0.after(body, 7) == d6);
    lemma_taken(d0, fault, body, 7);
    let d8 = Database {
        schema: 2,
        ..d6.changed(Tables { groups_indexed: true, ..d6.durable })
    };
    lemma_execute(d6, fault, Session::Reader, index, d8);
    assert(d0.after(body, 8) == d8);
    lemma_taken(d0, fault, body, 8);
    lemma_point_by_key(d8, fault, rows, 23);
    let d9 = d8.looked_up(Table::Points, 0, ValueView::Integer(23), false);
    assert(d0.after(body, 9) == d9);
    lemma_taken(d0, fault, body, 9);
    lemma_describe(d9, fault, Handle::ById, Table::Points, seq![0, 2]);
    assert(Seq::new(2, |i: int| columns_of(Table::Points)[seq![0int, 2][i]])
        =~= point_columns());
    assert(d0.after(body, 10) == d9);
}

/// The faults that the scenario of exact visibility is for.
pub open spec fn exact_notices(fault: Fault) -> bool {
    match fault {
        Fault::Loses(id) => id == 0 || id == 50_000 || id == 99_999,
        Fault::Invents(id) => id == 100_001,
        Fault::KeyIsNoPoint => true,
        Fault::StaleImage => true,
        _ => false,
    }
}

/// The table of exact visibility after the other connection has changed a row.
pub open spec fn rows_renamed() -> Rows {
    let row = row_of(Table::Points, 50_000);
    rows_up_to(Table::Points, 100_000).insert(
        50_000,
        row.update(2, ValueView::Text("external_100k"@)),
    )
}

/// The scenario of exact visibility passes on a database, in every journal mode, exactly
/// if the database has none of the faults that the scenario is for. It works on 100,000
/// rows in that journal mode, looks up the first, the middle and the last key and one past
/// them, and looks up the middle one again once the other connection has renamed its row.
#[verifier::spinoff_prover]
pub proof fn law_exact_verdict(db: Database, fault: Fault, journal_mode: Seq<char>)
    requires
        db.is_fresh(),
    ensures
        passes(exact_steps(journal_mode), db.answers(fault, exact_steps(journal_mode)))
            <==> !exact_notices(fault),
        db.left_by(exact_steps(journal_mode)).journal == Some(journal_mode),
        db.left_by(exact_steps(journal_mode)).durable == (Tables {
            bench: None,
            points: Some(rows_renamed()),
            groups_indexed: false,
        }),
        db.left_by(exact_steps(journal_mode)).transaction is None,
        !db.left_by(exact_steps(journal_mode)).writer,
        db.left_by(exact_steps(journal_mode)).lookups == seq![
            by_key(Table::Points, 0),
            by_key(Table::Points, 50_000),
            by_key(Table::Points, 99_999),
            by_key(Table::Points, 100_001),
            by_key(Table::Points, 50_000),
        ],
{
    let seed = point_seed(journal_mode);
    let body = exact_body(journal_mode);
    let d0 = seeded(db, Table::Points, 100_000, journal_mode);
    let rows = rows_up_to(Table::Points, 100_000);
    lemma_seed_meanings(journal_mode);
    lemma_meanings();
    lemma_journal_meaning(journal_mode);
    lemma_scenario(db, fault, seed, Table::Points, 100_000, journal_mode, body);
    law_exact_visibility(journal_mode, db.answers(fault, exact_steps(journal_mode)));
    let by_id = "SELECT id, display_name FROM point_bench WHERE id = ?1"@;
    let update = "UPDATE point_bench SET display_name = 'external_100k' WHERE id = 50000;"@;
    lemma_taken(d0, fault, body, 0);
    lemma_prepare_point(d0, fault, Handle::ById, by_id, 0);
    let d1 = d0.with_prepared(Handle::ById, meaning(by_id), true);
    lemma_taken(d0, fault, body, 1);
    lemma_point_by_key(d1, fault, rows, 0);
    let d2 = d1.looked_up(Table::Points, 0, ValueView::Integer(0), false);
    assert(d0.after(body, 2) == d2);
    lemma_taken(d0, fault, body, 2);
    lemma_point_by_key(d2, fault, rows, 50_000);
    let d3 = d2.looked_up(Table::Points, 0, ValueView::Integer(50_000), false);
    assert(d0.after(body, 3) == d3);
    lemma_taken(d0, fault, body, 3);
    lemma_point_by_key(d3, fault, rows, 99_999);
    let d4 = d3.looked_up(Table::Points, 0, ValueView::Integer(99_999), false);
    assert(d0.after(body, 4) == d4);
    lemma_taken(d0, fault, body, 4);
    lemma_point_by_key(d4, fault, rows, 100_001);
    let d5 = d4.looked_up(Table::Points, 0, ValueView::Integer(100_001), false);
    assert(d0.after(body, 5) == d5);
    lemma_taken(d0, fault, body, 5);
    lemma_open(d5, fault, Session::Writer);
    let d6 = Database { writer: true, ..d5 };
    assert(d0.after(body, 6) == d6);
    lemma_taken(d0, fault, body, 6);
    lemma_execute(d6, fault, Session::Writer, journal_mode_sql(journal_mode), d6);
    assert(d0.after(body, 7) == d6);
    lemma_taken(d0, fault, body, 7);
    let d8 = d6.changed(Tables { points: Some(rows_renamed()), ..d6.durable });
    lemma_execute(d6, fault, Session::Writer, update, d8);
    assert(d0.after(body, 8) == d8);
    lemma_taken(d0, fault, body, 8);
    lemma_close(d8, fault, Session::Writer);
    let d9 = Database { writer: false, ..d8 };
    assert(d0.after(body, 9) == d9);
    lemma_taken(d0, fault, body, 9);
    let now = if fault == Fault::StaleImage {
        rows
    } else {
        rows_renamed()
    };
    lemma_point_by_key(d9, fault, now, 50_000);
    let d10 = d9.looked_up(Table::Points, 0, ValueView::Integer(50_000), false);
    assert(d0.after(body, 10) == d10);
    assert(row_of(Table::Points, 50_000)[2] != ValueView::Text("external_100k"@)) by {
        let name = "name_"@ + decimal_text(50_000);
        reveal_strlit("external_100k");
        reveal_strlit("name_");
        assert(name[0] == 'n');
        assert("external_100k"@[0] == 'e');
    }
}

/// What a prepared lookup by primary key in `bench` finds.
spec fn bench_found(fault: Fault, rows: Rows, id: i64, columns: Seq<int>) -> Seq<Cells> {
    if rows.dom().contains(id) && fault != Fault::Loses(id) {
        seq![projected(rows[id], columns)]
    } else if !rows.dom().contains(id) && fault == Fault::Invents(id) {
        seq![Seq::new(columns.len(), |i: int| ValueView::Integer(id))]
    } else {
        seq![]
    }
}

/// A prepared lookup by primary key in `bench`, collected or streamed.
proof fn lemma_bench_by_key(
    db: Database,
    fault: Fault,
    rows: Rows,
    id: i64,
    columns: Seq<int>,
)
    requires
        db.reader,
        db.transaction is None,
        db.prepared.dom().contains(Handle::Select),
        !db.prepared[Handle::Select].point,
        db.prepared[Handle::Select].statement == (Statement::Select {
            table: Table::Bench,
            columns,
            by: 0,
        }),
        seen_by(db, fault).bench == Some(rows),
    ensures
        goes(
            db,
            fault,
            RequestView::Query { handle: Handle::Select, params: seq![ValueView::Integer(id)] },
            db.looked_up(Table::Bench, 0, ValueView::Integer(id), false),
            ReplyView::Rows(bench_found(fault, rows, id, columns)),
        ),
        goes(
            db,
            fault,
            RequestView::QueryForEach {
                handle: Handle::Select,
                params: seq![ValueView::Integer(id)],
            },
            db.looked_up(Table::Bench, 0, ValueView::Integer(id), true),
            ReplyView::Streamed { rows: bench_found(fault, rows, id, columns), error: None },
        ),
{
    let key = ValueView::Integer(id);
    let collected = db.looked_up(Table::Bench, 0, key, false);
    let streamed = db.looked_up(Table::Bench, 0, key, true);
    lemma_query(db, fault, Handle::Select, key, Table::Bench, columns, 0);
    lemma_found_by_key(collected, fault, Table::Bench, rows, id, false, columns);
    lemma_found_by_key(streamed, fault, Table::Bench, rows, id, true, columns);
}

/// So many lookups of one key, collected and streamed in turn.
pub open spec fn lookups_in_turn(id: i64, n: nat) -> Seq<Lookup> {
    Seq::new(n, |i: int| Lookup { streamed: i % 2 == 1, ..by_key(Table::Bench, id) })
}

/// A reader that is up to date, after `n` more lookups of a key, collected and streamed
/// in turn.
spec fn kept_warm(db: Database, n: nat) -> Database {
    Database {
        counters: HotPathCounters {
            parser: ParserCounters { fast_path_executions: n as u64 },
            ..db.counters
        },
        streams: (n / 2) as u64,
        lookups: db.lookups + lookups_in_turn(1_000, n),
        ..db
    }
}

/// The repeated lookups on a reader that is up to date.
proof fn lemma_hot_rounds(db: Database, fault: Fault, rows: Rows, k: nat)
    requires
        k <= 24,
        db.reader,
        db.transaction is None,
        db.prepared.dom().contains(Handle::Select),
        !db.prepared[Handle::Select].point,
        db.prepared[Handle::Select].statement == (Statement::Select {
            table: Table::Bench,
            columns: seq![0, 1, 2],
            by: 0,
        }),
        db.durable.bench == Some(rows),
        db.image == Some(db.durable),
        db.first_image == Some(db.durable),
        db.image_commit == db.commits,
        db.published.visible_commit_seq == db.commits,
        db.counters == no_counts(),
        db.streams == 0,
    ensures
        db.after(hot_rounds(12), k) == kept_warm(db, k),
        forall|i: int|
            0 <= i < k ==> #[trigger] db.answers(fault, hot_rounds(12))[i] == (if i % 2 == 0 {
                ReplyView::Rows(bench_found(fault, rows, 1_000, seq![0, 1, 2]))
            } else {
                ReplyView::Streamed {
                    rows: bench_found(fault, rows, 1_000, seq![0, 1, 2]),
                    error: None,
                }
            }),
    decreases k,
{
    let rounds = hot_rounds(12);
    if k == 0 {
        assert(db.lookups + lookups_in_turn(1_000, 0) =~= db.lookups);
    } else {
        let i = (k - 1) as nat;
        lemma_hot_rounds(db, fault, rows, i);
        let before = kept_warm(db, i);
        lemma_taken(db, fault, rounds, i);
        lemma_bench_by_key(before, fault, rows, 1_000, seq![0, 1, 2]);
        let streamed = i % 2 == 1;
        assert(rounds[i as int].request == (if streamed {
            RequestView::QueryForEach {
                handle: Handle::Select,
                params: seq![ValueView::Integer(1_000)],
            }
        } else {
            RequestView::Query {
                handle: Handle::Select,
                params: seq![ValueView::Integer(1_000)],
            }
        }));
        let after = before.looked_up(Table::Bench, 0, ValueView::Integer(1_000), streamed);
        assert(after.lookups =~= kept_warm(db, k).lookups);
        assert(after == kept_warm(db, k));
    }
}

/// A seeded database after the lookup that loads its rows, and with the profile reset.
spec fn warmed(db: Database, statement: Statement, id: i64) -> Database {
    Database {
        counters: no_counts(),
        streams: 0,
        ..db.with_prepared(Handle::Select, statement, false).looked_up(
            Table::Bench,
            0,
            ValueView::Integer(id),
            false,
        )
    }
}

/// The warmed lookups up to the repeated ones.
proof fn lemma_warm_head(db: Database, fault: Fault)
    requires
        db.is_fresh(),
    ensures
        ({
            let d0 = seeded(db, Table::Bench, 2_000, "WAL"@);
            let told = d0.answers(fault, warm_head());
            let rows = rows_up_to(Table::Bench, 2_000);
            let d7 = warmed(
                d0,
                Statement::Select { table: Table::Bench, columns: seq![0, 1, 2], by: 0 },
                1_000,
            );
            &&& d0.after(warm_head(), 7) == d7
            &&& told[0] == ReplyView::Done
            &&& told[1] == ReplyView::Rows(bench_found(fault, rows, 1_000, seq![0, 1, 2]))
            &&& told[2] == ReplyView::Loaded(true)
            &&& told[3] == ReplyView::Publication(d7.shown_publication(fault))
            &&& told[4] == ReplyView::Count(d7.shown_writes(fault))
            &&& told[5] == ReplyView::Count(shown_sequence(d7, fault))
            &&& told[6] == ReplyView::Done
        }),
{
    let d0 = seeded(db, Table::Bench, 2_000, "WAL"@);
    let head = warm_head();
    let rows = rows_up_to(Table::Bench, 2_000);
    let select = "SELECT * FROM bench WHERE id = ?1"@;
    lemma_meanings();
    lemma_taken(d0, fault, head, 0);
    lemma_prepare(d0, fault, Handle::Select, select);
    let d1 = d0.with_prepared(Handle::Select, meaning(select), false);
    lemma_taken(d0, fault, head, 1);
    lemma_bench_by_key(d1, fault, rows, 1_000, seq![0, 1, 2]);
    let d2 = d1.looked_up(Table::Bench, 0, ValueView::Integer(1_000), false);
    assert(d0.after(head, 2) == d2);
    lemma_read(d2, fault);
    lemma_taken(d0, fault, head, 2);
    lemma_taken(d0, fault, head, 3);
    lemma_taken(d0, fault, head, 4);
    lemma_taken(d0, fault, head, 5);
    lemma_taken(d0, fault, head, 6);
    lemma_reset(d2, fault);
}

/// The faults that the scenario of the warmed lookups is for.
pub open spec fn warm_notices(fault: Fault) -> bool {
    match fault {
        Fault::Loses(id) => id == 1_000,
        Fault::Reloads => true,
        Fault::StreamReloads => true,
        Fault::LeavesFastPath => true,
        Fault::Unloads => true,
        Fault::MovesSequence => true,
        Fault::MovesCommit => true,
        Fault::Republishes => true,
        Fault::CountsWrites => true,
        _ => false,
    }
}

/// The answers of the warmed lookups keep their promise exactly if the database has none
/// of the faults that the scenario is for.
#[verifier::spinoff_prover]
proof fn lemma_warm_promise(
    all: Seq<ReplyView>,
    first: Seq<ReplyView>,
    middle: Seq<ReplyView>,
    last: Seq<ReplyView>,
    d7: Database,
    fault: Fault,
)
    requires
        seeded_well(all, 2_000),
        first.len() == 7 && middle.len() == 24 && last.len() == 5,
        forall|k: int| 0 <= k < 36 ==> #[trigger] all[2_010 + k] == (first + middle + last)[k],
        first[0] == ReplyView::Done,
        first[1] == ReplyView::Rows(warm_found(fault)),
        first[2] == ReplyView::Loaded(true),
        first[3] == ReplyView::Publication(d7.shown_publication(fault)),
        first[4] == ReplyView::Count(d7.shown_writes(fault)),
        first[5] == ReplyView::Count(shown_sequence(d7, fault)),
        first[6] == ReplyView::Done,
        forall|i: int|
            0 <= i < 24 ==> #[trigger] middle[i] == (if i % 2 == 0 {
                ReplyView::Rows(warm_found(fault))
            } else {
                ReplyView::Streamed { rows: warm_found(fault), error: None }
            }),
        last[0] == ReplyView::Profile(kept_warm(d7, 24).shown_counters(fault)),
        last[1] == ReplyView::Publication(kept_warm(d7, 24).shown_publication(fault)),
        last[2] == ReplyView::Count(kept_warm(d7, 24).shown_writes(fault)),
        last[3] == ReplyView::Count(shown_sequence(kept_warm(d7, 24), fault)),
        last[4] == ReplyView::Loaded(fault != Fault::Unloads),
        d7.counters == no_counts(),
        d7.lookups.len() == 1,
        d7.commits < 2_000_000,
        d7.image_commit == d7.commits,
        d7.published.visible_commit_seq == d7.commits,
        d7.published.snapshot_gen < 2_000_000,
        d7.writes < 2_000_000,
    ensures
        warm_promise(all) <==> !warm_notices(fault),
{
    let row = row_of(Table::Bench, 1_000);
    assert(projected(row, seq![0, 1, 2]) =~= row);
    let told = first + middle + last;
    assert forall|i: int| 2_010 <= i < 2_046 implies #[trigger] all[i] == told[i - 2_010] by {
        assert(all[2_010 + (i - 2_010)] == told[i - 2_010]);
    }
    if fault != Fault::Loses(1_000) {
        assert forall|i: int| 0 <= i < 12 implies #[trigger] hot_round_well(all, 2_017, i) by {
            assert(all[2_017 + 2 * i] == middle[2 * i]);
            assert(all[2_017 + 2 * i + 1] == middle[2 * i + 1]);
            assert((2 * i) % 2 == 0 && (2 * i + 1) % 2 == 1);
        }
    } else {
        assert(!one_row(all[2_011]));
    }
}

/// What each of the warmed lookups finds.
spec fn warm_found(fault: Fault) -> Seq<Cells> {
    bench_found(fault, rows_up_to(Table::Bench, 2_000), 1_000, seq![0, 1, 2])
}

/// The scenario of the warmed lookups passes on a database exactly if the database has
/// none of the faults that the scenario is for. It works on 2,000 rows in write-ahead-log
/// mode, and looks up the key in the middle: once to load the rows, and twelve times each
/// collected and streamed in turn after that. It changes nothing.
#[verifier::spinoff_prover]
pub proof fn law_warm_verdict(db: Database, fault: Fault)
    requires
        db.is_fresh(),
    ensures
        passes(warm_steps(), db.answers(fault, warm_steps())) <==> !warm_notices(fault),
        db.left_by(warm_steps()).journal == Some("WAL"@),
        db.left_by(warm_steps()).durable == (Tables {
            bench: Some(rows_up_to(Table::Bench, 2_000)),
            points: None,
            groups_indexed: false,
        }),
        db.left_by(warm_steps()).transaction is None,
        db.left_by(warm_steps()).lookups == seq![by_key(Table::Bench, 1_000)] + lookups_in_turn(
            1_000,
            24,
        ),
{
    let seed = wal_seed();
    let head = warm_head();
    let rounds = hot_rounds(12);
    let tail = warm_tail();
    let body = head + rounds + tail;
    let d0 = seeded(db, Table::Bench, 2_000, "WAL"@);
    let rows = rows_up_to(Table::Bench, 2_000);
    assert(warm_steps() =~= seed_steps(seed, 2_000) + body);
    lemma_seed_meanings("WAL"@);
    lemma_scenario(db, fault, seed, Table::Bench, 2_000, "WAL"@, body);
    law_warmed_lookups(db.answers(fault, warm_steps()));
    lemma_warm_head(db, fault);
    let d7 = d0.after(head, 7);
    lemma_hot_rounds(d7, fault, rows, 24);
    let d31 = kept_warm(d7, 24);
    lemma_behind(d0, head, rounds, 24);
    lemma_answers_behind(d0, fault, head, rounds);
    lemma_answers_behind(d0, fault, head + rounds, tail);
    lemma_behind(d0, head + rounds, tail, 5);
    lemma_read(d31, fault);
    lemma_taken(d31, fault, tail, 0);
    lemma_taken(d31, fault, tail, 1);
    lemma_taken(d31, fault, tail, 2);
    lemma_taken(d31, fault, tail, 3);
    lemma_taken(d31, fault, tail, 4);
    assert(d31.after(tail, 5) == d31);
    assert(d31.lookups =~= seq![by_key(Table::Bench, 1_000)] + lookups_in_turn(1_000, 24));
    let all = db.answers(fault, warm_steps());
    let told = d0.answers(fault, body);
    let first = d0.answers(fault, head);
    let middle = d7.answers(fault, rounds);
    let last = d31.answers(fault, tail);
    assert(told == first + middle + last);
    assert forall|k: int| 0 <= k < 36 implies #[trigger] all[2_010 + k] == told[k] by {}
    lemma_warm_promise(all, first, middle, last, d7, fault);
}

/// A reader that is up to date, after `n` more lookups of a key.
spec fn kept_steady(db: Database, n: nat) -> Database {
    Database {
        counters: HotPathCounters {
            parser: ParserCounters { fast_path_executions: n as u64 },
            ..db.counters
        },
        lookups: db.lookups + lookups_of(999_001, n),
        ..db
    }
}

/// So many lookups of one key.
pub open spec fn lookups_of(id: i64, n: nat) -> Seq<Lookup> {
    Seq::new(n, |i: int| by_key(Table::Bench, id))
}

/// The repeated lookups once the commit was seen.
proof fn lemma_steady_rounds(db: Database, fault: Fault, rows: Rows, k: nat)
    requires
        k <= 8,
        db.reader,
        db.transaction is None,
        db.prepared.dom().contains(Handle::Select),
        !db.prepared[Handle::Select].point,
        db.prepared[Handle::Select].statement == (Statement::Select {
            table: Table::Bench,
            columns: seq![0, 1],
            by: 0,
        }),
        seen_by(db, fault).bench == Some(rows),
        db.image == Some(db.durable),
        db.first_image is Some,
        db.image_commit == db.commits,
        db.published.visible_commit_seq == db.commits,
        db.counters == no_counts(),
    ensures
        db.after(steady_rounds(8), k) == kept_steady(db, k),
        forall|i: int|
            0 <= i < k ==> #[trigger] db.answers(fault, steady_rounds(8))[i] == ReplyView::Rows(
                bench_found(fault, rows, 999_001, seq![0, 1]),
            ),
    decreases k,
{
    let rounds = steady_rounds(8);
    if k == 0 {
        assert(db.lookups + lookups_of(999_001, 0) =~= db.lookups);
    } else {
        let i = (k - 1) as nat;
        lemma_steady_rounds(db, fault, rows, i);
        let before = kept_steady(db, i);
        lemma_taken(db, fault, rounds, i);
        lemma_bench_by_key(before, fault, rows, 999_001, seq![0, 1]);
        let after = before.looked_up(Table::Bench, 0, ValueView::Integer(999_001), false);
        assert(after.lookups =~= kept_steady(db, k).lookups);
        assert(after == kept_steady(db, k));
    }
}

/// The faults that the scenario of the external commit is for.
pub open spec fn external_notices(fault: Fault) -> bool {
    match fault {
        Fault::Loses(id) => id == 1 || id == 999_001,
        Fault::StaleImage => true,
        Fault::Reloads => true,
        Fault::Unloads => true,
        Fault::Republishes => true,
        _ => false,
    }
}

/// The row that the other connection inserts.
pub open spec fn external_row() -> Cells {
    seq![ValueView::Integer(999_001), ValueView::Text("external"@), ValueView::Other]
}

/// The table of the external commit once it was made.
spec fn rows_with_external() -> Rows {
    rows_up_to(Table::Bench, 1_000).insert(999_001, external_row())
}

/// A warmed reader behind whose back the other connection has committed a row.
spec fn committed_behind(db: Database) -> Database {
    Database {
        durable: Tables { bench: Some(rows_with_external()), ..db.durable },
        commits: (db.commits + 1) as u64,
        counters: no_counts(),
        streams: 0,
        ..db
    }
}

/// The external commit up to the next lookup.
proof fn lemma_external_commit(db: Database, fault: Fault)
    requires
        db.is_fresh(),
    ensures
        ({
            let d0 = seeded(db, Table::Bench, 1_000, "WAL"@);
            let told = d0.answers(fault, external_head());
            let rows = rows_up_to(Table::Bench, 1_000);
            let d2 = warmed(
                d0,
                Statement::Select { table: Table::Bench, columns: seq![0, 1], by: 0 },
                1,
            );
            &&& d0.after(external_head(), 10) == committed_behind(d2)
            &&& told[0] == ReplyView::Done
            &&& told[1] == ReplyView::Rows(bench_found(fault, rows, 1, seq![0, 1]))
            &&& told[2] == ReplyView::Loaded(true)
            &&& forall|k: int| 3 <= k < 10 ==> #[trigger] told[k] == ReplyView::Done
        }),
{
    let d0 = seeded(db, Table::Bench, 1_000, "WAL"@);
    let head = external_head();
    let rows = rows_up_to(Table::Bench, 1_000);
    let select = "SELECT id, name FROM bench WHERE id = ?1"@;
    let insert = "INSERT INTO bench VALUES (999001, 'external', 1.5);"@;
    lemma_seed_meanings("WAL"@);
    lemma_meanings();
    lemma_taken(d0, fault, head, 0);
    lemma_prepare(d0, fault, Handle::Select, select);
    let d1 = d0.with_prepared(Handle::Select, meaning(select), false);
    lemma_taken(d0, fault, head, 1);
    lemma_bench_by_key(d1, fault, rows, 1, seq![0, 1]);
    let d2 = d1.looked_up(Table::Bench, 0, ValueView::Integer(1), false);
    assert(d0.after(head, 2) == d2);
    lemma_read(d2, fault);
    lemma_taken(d0, fault, head, 2);
    lemma_taken(d0, fault, head, 3);
    lemma_open(d2, fault, Session::Writer);
    let d4 = Database { writer: true, ..d2 };
    assert(d0.after(head, 4) == d4);
    lemma_taken(d0, fault, head, 4);
    lemma_execute(d4, fault, Session::Writer, "PRAGMA journal_mode = WAL;"@, d4);
    assert(d0.after(head, 5) == d4);
    lemma_taken(d0, fault, head, 5);
    let d6 = Database { transaction: Some((Session::Writer, d4.durable)), ..d4 };
    lemma_execute(d4, fault, Session::Writer, "BEGIN;"@, d6);
    assert(d0.after(head, 6) == d6);
    lemma_taken(d0, fault, head, 6);
    let tables = Tables { bench: Some(rows_with_external()), ..d4.durable };
    let d7 = Database { transaction: Some((Session::Writer, tables)), ..d4 };
    lemma_execute(d6, fault, Session::Writer, insert, d7);
    assert(d0.after(head, 7) == d7);
    lemma_taken(d0, fault, head, 7);
    let d8 = Database { durable: tables, commits: (d4.commits + 1) as u64, ..d4 };
    lemma_execute(d7, fault, Session::Writer, "COMMIT;"@, d8);
    assert(d0.after(head, 8) == d8);
    lemma_taken(d0, fault, head, 8);
    lemma_close(d8, fault, Session::Writer);
    let d9 = Database { writer: false, ..d8 };
    assert(d0.after(head, 9) == d9);
    lemma_taken(d0, fault, head, 9);
    lemma_reset(d9, fault);
}

/// What the next lookup sees of the table.
spec fn rows_seen(fault: Fault) -> Rows {
    if fault == Fault::StaleImage {
        rows_up_to(Table::Bench, 1_000)
    } else {
        rows_with_external()
    }
}

/// A reader that has seen the commit, and with the profile reset.
spec fn caught_up(db: Database) -> Database {
    Database {
        counters: no_counts(),
        streams: 0,
        ..db.looked_up(Table::Bench, 0, ValueView::Integer(999_001), false)
    }
}

/// The lookup after the external commit, up to the repeated ones.
proof fn lemma_external_seen(db: Database, fault: Fault)
    requires
        db.is_fresh(),
    ensures
        ({
            let d0 = seeded(db, Table::Bench, 1_000, "WAL"@);
            let told = d0.answers(fault, external_head());
            let d10 = d0.after(external_head(), 10);
            let d14 = caught_up(d10);
            &&& d0.after(external_head(), 15) == d14
            &&& told[10] == ReplyView::Rows(
                bench_found(fault, rows_seen(fault), 999_001, seq![0, 1]),
            )
            &&& told[11] matches ReplyView::Profile(p) && p.memdb_refresh_count == 1
            &&& told[12] == ReplyView::Loaded(fault != Fault::Unloads)
            &&& told[13] == ReplyView::Done
            &&& told[14] == ReplyView::Publication(d14.shown_publication(fault))
        }),
{
    let d0 = seeded(db, Table::Bench, 1_000, "WAL"@);
    let head = external_head();
    let d10 = d0.after(head, 10);
    lemma_external_commit(db, fault);
    lemma_taken(d0, fault, head, 10);
    lemma_bench_by_key(d10, fault, rows_seen(fault), 999_001, seq![0, 1]);
    let d11 = d10.looked_up(Table::Bench, 0, ValueView::Integer(999_001), false);
    assert(d0.after(head, 11) == d11);
    lemma_read(d11, fault);
    lemma_taken(d0, fault, head, 11);
    lemma_taken(d0, fault, head, 12);
    lemma_taken(d0, fault, head, 13);
    lemma_reset(d11, fault);
    let d14 = Database { counters: no_counts(), streams: 0, ..d11 };
    assert(d0.after(head, 14) == d14);
    lemma_read(d14, fault);
    lemma_taken(d0, fault, head, 14);
    assert(d0.after(head, 15) == d14);
}

/// The scenario of the external commit passes on a database exactly if the database has
/// none of the faults that the scenario is for. It works on 1,000 rows in write-ahead-log
/// mode, looks up one of them to load the rows, has the other connection commit one more
/// row in a transaction of its own, and looks that row up nine times.
#[verifier::spinoff_prover]
pub proof fn law_external_verdict(db: Database, fault: Fault)
    requires
        db.is_fresh(),
    ensures
        passes(external_steps(), db.answers(fault, external_steps())) <==> !external_notices(
            fault,
        ),
        db.left_by(external_steps()).journal == Some("WAL"@),
        db.left_by(external_steps()).durable == (Tables {
            bench: Some(rows_up_to(Table::Bench, 1_000).insert(999_001, external_row())),
            points: None,
            groups_indexed: false,
        }),
        db.left_by(external_steps()).transaction is None,
        db.left_by(external_steps()).commits == db.commits + 3,
        !db.left_by(external_steps()).writer,
        db.left_by(external_steps()).lookups == seq![by_key(Table::Bench, 1)] + lookups_of(
            999_001,
            9,
        ),
{
    let seed = wal_seed();
    let head = external_head();
    let rounds = steady_rounds(8);
    let tail = external_tail();
    let body = head + rounds + tail;
    let d0 = seeded(db, Table::Bench, 1_000, "WAL"@);
    let rows = rows_up_to(Table::Bench, 1_000);
    assert(external_steps() =~= seed_steps(seed, 1_000) + body);
    lemma_seed_meanings("WAL"@);
    lemma_scenario(db, fault, seed, Table::Bench, 1_000, "WAL"@, body);
    law_external_commit(db.answers(fault, external_steps()));
    lemma_external_commit(db, fault);
    lemma_external_seen(db, fault);
    let d14 = d0.after(head, 15);
    let now = rows_seen(fault);
    lemma_steady_rounds(d14, fault, now, 8);
    let d23 = kept_steady(d14, 8);
    lemma_behind(d0, head, rounds, 8);
    lemma_answers_behind(d0, fault, head, rounds);
    lemma_answers_behind(d0, fault, head + rounds, tail);
    lemma_behind(d0, head + rounds, tail, 2);
    lemma_read(d23, fault);
    lemma_taken(d23, fault, tail, 0);
    lemma_taken(d23, fault, tail, 1);
    assert(d23.after(tail, 2) == d23);
    assert(d23.lookups =~= seq![by_key(Table::Bench, 1)] + lookups_of(999_001, 9));
    let all = db.answers(fault, external_steps());
    let told = d0.answers(fault, body);
    let first = d0.answers(fault, head);
    let middle = d14.answers(fault, rounds);
    let last = d23.answers(fault, tail);
    assert(told == first + middle + last);
    assert forall|k: int| 0 <= k < 15 implies #[trigger] first[k] == all[1_010 + k] by {
        assert(told[k] == first[k]);
    }
    assert forall|k: int| 0 <= k < 8 implies #[trigger] middle[k] == all[1_025 + k] by {
        assert(told[15 + k] == middle[k]);
    }
    assert forall|k: int| 0 <= k < 2 implies #[trigger] last[k] == all[1_033 + k] by {
        assert(told[23 + k] == last[k]);
    }
    assert forall|i: int| 1_010 <= i < 1_025 implies #[trigger] all[i] == first[i - 1_010] by {}
    assert forall|i: int| 1_025 <= i < 1_033 implies #[trigger] all[i] == middle[i - 1_025] by {}
    assert(projected(external_row(), seq![0, 1]) =~= seq![
        ValueView::Integer(999_001),
        ValueView::Text("external"@),
    ]);
    if external_notices(fault) {
        assert(!external_promise(all)) by {
            if fault == Fault::Loses(1) {
                assert(!one_row(all[1_011]));
            } else if fault == Fault::Loses(999_001) || fault == Fault::StaleImage {
                assert(!one_row_with(all[1_020], 0, ValueView::Integer(999_001)));
            } else if fault == Fault::Unloads {
                assert(all[1_022] != ReplyView::Loaded(true));
            } else if fault == Fault::Reloads {
                assert(last[0] == all[1_033]);
                assert(all[1_033] matches ReplyView::Profile(p) && p.memdb_refresh_count == 8);
            } else {
                assert(all[1_024] == ReplyView::Publication(d14.shown_publication(fault)));
                assert(last[1] == all[1_034]);
            }
        }
    } else {
        assert(one_row_with(all[1_020], 0, ValueView::Integer(999_001)));
        assert(one_row_with(all[1_020], 1, ValueView::Text("external"@)));
        assert(last[0] == all[1_033]);
        assert(last[1] == all[1_034]);
        assert(external_promise(all));
    }
}

/// The faults that the scenario of the idle probes is for.
pub open spec fn idle_notices(fault: Fault) -> bool {
    match fault {
        Fault::ProbeMovesCommit => true,
        Fault::ProbeRepublishes => true,
        Fault::ProbeCountsWrites => true,
        _ => false,
    }
}

/// Probes of a database whose newest commit is published.
proof fn lemma_probes(db: Database, fault: Fault, k: nat)
    requires
        k <= 5,
        db.reader,
        db.journal == Some("WAL"@),
        db.published.visible_commit_seq == db.commits,
        db.probes == 0,
    ensures
        db.after(idle_probes(5), k) == (Database { probes: k as u64, ..db }),
        forall|i: int|
            0 <= i < k ==> #[trigger] db.answers(fault, idle_probes(5))[i]
                == ReplyView::Publication(
                (Database { probes: (i + 1) as u64, ..db }).shown_publication(fault),
            ),
    decreases k,
{
    if k > 0 {
        let i = (k - 1) as nat;
        lemma_probes(db, fault, i);
        lemma_taken(db, fault, idle_probes(5), i);
        lemma_refresh(Database { probes: i as u64, ..db }, fault);
    }
}

/// The scenario of the idle probes passes on a database exactly if the database has none
/// of the faults that the scenario is for. It works on 256 rows in write-ahead-log mode,
/// has the newest commit published, and probes the log five times after that. It looks
/// nothing up and changes nothing.
#[verifier::spinoff_prover]
pub proof fn law_idle_verdict(db: Database, fault: Fault)
    requires
        db.is_fresh(),
    ensures
        passes(idle_steps(), db.answers(fault, idle_steps())) <==> !idle_notices(fault),
        db.left_by(idle_steps()).journal == Some("WAL"@),
        db.left_by(idle_steps()).durable == (Tables {
            bench: Some(rows_up_to(Table::Bench, 256)),
            points: None,
            groups_indexed: false,
        }),
        db.left_by(idle_steps()).transaction is None,
        db.left_by(idle_steps()).probes == 5,
        db.left_by(idle_steps()).published.visible_commit_seq == db.commits + 2,
        db.left_by(idle_steps()).writes == db.writes + 1,
        db.left_by(idle_steps()).lookups == Seq::<Lookup>::empty(),
{
    let seed = wal_seed();
    let head = idle_head();
    let probes = idle_probes(5);
    let tail = idle_tail();
    let body = head + probes + tail;
    let d0 = seeded(db, Table::Bench, 256, "WAL"@);
    assert(idle_steps() =~= seed_steps(seed, 256) + body);
    lemma_seed_meanings("WAL"@);
    lemma_scenario(db, fault, seed, Table::Bench, 256, "WAL"@, body);
    law_idle_refresh(db.answers(fault, idle_steps()));
    lemma_taken(d0, fault, head, 0);
    lemma_refresh(d0, fault);
    let d1 = d0.refreshed();
    lemma_read(d1, fault);
    lemma_taken(d0, fault, head, 1);
    lemma_taken(d0, fault, head, 2);
    assert(d0.after(head, 3) == d1);
    lemma_probes(d1, fault, 5);
    let d8 = Database { probes: 5, ..d1 };
    lemma_behind(d0, head, probes, 5);
    lemma_answers_behind(d0, fault, head, probes);
    lemma_answers_behind(d0, fault, head + probes, tail);
    lemma_behind(d0, head + probes, tail, 1);
    lemma_read(d8, fault);
    lemma_taken(d8, fault, tail, 0);
    assert(d8.after(tail, 1) == d8);
    let all = db.answers(fault, idle_steps());
    let told = d0.answers(fault, body);
    let first = d0.answers(fault, head);
    let middle = d1.answers(fault, probes);
    let last = d8.answers(fault, tail);
    assert(told == first + middle + last);
    assert forall|k: int| 0 <= k < 3 implies #[trigger] first[k] == all[266 + k] by {
        assert(told[k] == first[k]);
    }
    assert forall|k: int| 0 <= k < 5 implies #[trigger] middle[k] == all[269 + k] by {
        assert(told[3 + k] == middle[k]);
    }
    assert(last[0] == all[274]) by {
        assert(told[8] == last[0]);
    }
    assert forall|i: int| 269 <= i < 274 implies #[trigger] all[i] == middle[i - 269] by {}
    assert(middle[0] == all[269]);
}

} // verus!
