//! A database to hold the scenarios against: what a sound one answers, and ways in which
//! one may go wrong.
//!
//! The database goes by the text of each statement. A statement that it does not know,
//! on a connection that is not open or out of turn, is refused.
use vstd::prelude::*;

use crate::profile::{HotPathCounters, ParserCounters};
use crate::protocol::{Handle, PublishedSnapshot, ReplyView, RequestView, Session};
use crate::script::StepView;
use crate::text::decimal_text;
use crate::value::ValueView;

verus! {

/// A table that the database can have.
pub enum Table {
    /// `bench`, with the columns `id`, `name` and `value`.
    Bench,
    /// `point_bench`, with the columns `id`, `email`, `display_name` and `group_name`.
    Points,
}

/// A row, by the columns of its table.
pub type Cells = Seq<ValueView>;

/// The names of a table's columns.
pub open spec fn columns_of(table: Table) -> Seq<Seq<char>> {
    match table {
        Table::Bench => seq!["id"@, "name"@, "value"@],
        Table::Points => seq!["id"@, "email"@, "display_name"@, "group_name"@],
    }
}

/// What a statement does.
pub enum Statement {
    /// Selects a journal mode.
    JournalMode(Seq<char>),
    /// Lets commits wait for the disk less often.
    SynchronousNormal,
    /// Turns snapshots off.
    SnapshotsOff,
    Begin,
    Commit,
    Create(Table),
    /// Makes an index on `group_name`.
    IndexGroups,
    /// Inserts the row that is made from the key that is the parameter.
    InsertByKey(Table),
    /// Inserts a row.
    InsertRow { table: Table, id: i64, row: Cells },
    /// Gives a row of `point_bench` another `display_name`.
    Rename { id: i64, name: Seq<char> },
    /// Selects `columns` of the rows that hold the parameter in the column `by`.
    Select { table: Table, columns: Seq<int>, by: int },
    /// A statement that the database does not know.
    Unknown,
}

/// The text with which every statement that selects a journal mode begins.
pub open spec fn journal_prefix() -> Seq<char> {
    "PRAGMA journal_mode = "@
}

/// What the statement with the text `sql` does.
#[verifier::opaque]
pub open spec fn meaning(sql: Seq<char>) -> Statement {
    if sql == "BEGIN;"@ {
        Statement::Begin
    } else if sql == "COMMIT;"@ {
        Statement::Commit
    } else if sql == "PRAGMA synchronous = NORMAL;"@ {
        Statement::SynchronousNormal
    } else if sql == "PRAGMA fsqlite_capture_time_travel_snapshots=false;"@ {
        Statement::SnapshotsOff
    } else if sql == "CREATE TABLE bench (
            id INTEGER PRIMARY KEY,
            name TEXT NOT NULL,
            value REAL NOT NULL
        );"@ {
        Statement::Create(Table::Bench)
    } else if sql == "CREATE TABLE point_bench (
            id INTEGER PRIMARY KEY,
            email TEXT NOT NULL UNIQUE,
            display_name TEXT NOT NULL,
            group_name TEXT NOT NULL
        );"@ {
        Statement::Create(Table::Points)
    } else if sql == "INSERT INTO bench VALUES (?1, ('user_' || ?1), (?1 * 0.137))"@ {
        Statement::InsertByKey(Table::Bench)
    } else if sql == "INSERT INTO point_bench VALUES (
                ?1, ('user_' || ?1 || '@example.test'), ('name_' || ?1), ('g_' || (?1 % 7))
            )"@ {
        Statement::InsertByKey(Table::Points)
    } else if sql == "SELECT id, display_name FROM point_bench WHERE id = ?1"@ {
        Statement::Select { table: Table::Points, columns: seq![0, 2], by: 0 }
    } else if sql == "SELECT id, display_name FROM point_bench WHERE email = ?1"@ {
        Statement::Select { table: Table::Points, columns: seq![0, 2], by: 1 }
    } else if sql == "SELECT id FROM point_bench WHERE group_name = ?1"@ {
        Statement::Select { table: Table::Points, columns: seq![0], by: 3 }
    } else if sql == "SELECT * FROM bench WHERE id = ?1"@ {
        Statement::Select { table: Table::Bench, columns: seq![0, 1, 2], by: 0 }
    } else if sql == "SELECT id, name FROM bench WHERE id = ?1"@ {
        Statement::Select { table: Table::Bench, columns: seq![0, 1], by: 0 }
    } else if sql == "CREATE INDEX point_bench_group_idx ON point_bench(group_name);"@ {
        Statement::IndexGroups
    } else if sql == "UPDATE point_bench SET display_name = 'external_100k' WHERE id = 50000;"@ {
        Statement::Rename { id: 50_000, name: "external_100k"@ }
    } else if sql == "INSERT INTO bench VALUES (999001, 'external', 1.5);"@ {
        Statement::InsertRow {
            table: Table::Bench,
            id: 999_001,
            row: seq![ValueView::Integer(999_001), ValueView::Text("external"@), ValueView::Other],
        }
    } else if journal_prefix().len() < sql.len() && journal_prefix() == sql.take(
        journal_prefix().len() as int,
    ) && sql.last() == ';' {
        Statement::JournalMode(sql.subrange(journal_prefix().len() as int, sql.len() - 1))
    } else {
        Statement::Unknown
    }
}

/// The row that an insert makes from the key `id`.
pub open spec fn row_of(table: Table, id: i64) -> Cells {
    let number = decimal_text(id as nat);
    match table {
        Table::Bench => seq![
            ValueView::Integer(id),
            ValueView::Text("user_"@ + number),
            ValueView::Other,
        ],
        Table::Points => seq![
            ValueView::Integer(id),
            ValueView::Text("user_"@ + number + "@example.test"@),
            ValueView::Text("name_"@ + number),
            ValueView::Text("g_"@ + decimal_text(id as nat % 7)),
        ],
    }
}

/// The rows of a table by their keys.
pub type Rows = Map<i64, Cells>;

/// The table with the keys from 0 up to `count`, each row made from its key.
pub open spec fn rows_up_to(table: Table, count: nat) -> Rows {
    Map::new(|id: i64| 0 <= id < count, |id: i64| row_of(table, id))
}

/// What is in the file.
pub struct Tables {
    pub bench: Option<Rows>,
    pub points: Option<Rows>,
    /// Whether there is an index on `group_name`.
    pub groups_indexed: bool,
}

impl Tables {
    /// No table.
    pub open spec fn empty() -> Tables {
        Tables { bench: None, points: None, groups_indexed: false }
    }

    /// A table, if it is there.
    pub open spec fn at(self, table: Table) -> Option<Rows> {
        match table {
            Table::Bench => self.bench,
            Table::Points => self.points,
        }
    }

    /// The same with other rows in a table.
    pub open spec fn with(self, table: Table, rows: Rows) -> Tables {
        match table {
            Table::Bench => Tables { bench: Some(rows), ..self },
            Table::Points => Tables { points: Some(rows), ..self },
        }
    }

    /// The same with one more row: nothing, if the table is not there or the key is.
    pub open spec fn inserted(self, table: Table, id: i64, row: Cells) -> Option<Tables> {
        match self.at(table) {
            Some(rows) => if rows.dom().contains(id) {
                None
            } else {
                Some(self.with(table, rows.insert(id, row)))
            },
            None => None,
        }
    }

    /// What a statement makes of the tables, if it changes them and can.
    pub open spec fn changed(self, statement: Statement) -> Option<Tables> {
        match statement {
            Statement::Create(table) => if self.at(table) is None {
                Some(self.with(table, Map::empty()))
            } else {
                None
            },
            Statement::IndexGroups => if self.points is Some && !self.groups_indexed {
                Some(Tables { groups_indexed: true, ..self })
            } else {
                None
            },
            Statement::InsertRow { table, id, row } => self.inserted(table, id, row),
            Statement::Rename { id, name } => match self.points {
                Some(rows) => if rows.dom().contains(id) {
                    Some(
                        self.with(
                            Table::Points,
                            rows.insert(id, rows[id].update(2, ValueView::Text(name))),
                        ),
                    )
                } else {
                    Some(self)
                },
                None => None,
            },
            _ => None,
        }
    }
}

/// A statement prepared on the reader.
pub struct Prepared {
    pub statement: Statement,
    /// Whether it was prepared as a point query.
    pub point: bool,
    /// How often the schema had been changed before.
    pub schema: nat,
}

/// A lookup that was asked for.
pub struct Lookup {
    pub table: Table,
    /// The column that was looked into.
    pub by: int,
    /// What was looked for there.
    pub key: ValueView,
    /// Whether the rows were handed over one by one.
    pub streamed: bool,
}

/// A database, with what its reader and its pager remember.
pub struct Database {
    /// Where the file will be.
    pub path: Seq<char>,
    pub file: bool,
    pub reader: bool,
    pub writer: bool,
    /// The journal mode in force.
    pub journal: Option<Seq<char>>,
    pub synchronous_normal: bool,
    pub snapshots_off: bool,
    /// What is committed.
    pub durable: Tables,
    /// Whose transaction is open, and what it has made of the tables.
    pub transaction: Option<(Session, Tables)>,
    /// How often the schema was changed.
    pub schema: nat,
    pub prepared: Map<Handle, Prepared>,
    /// The number of the newest commit.
    pub commits: u64,
    /// What the reader has loaded first, and what it has loaded now.
    pub first_image: Option<Tables>,
    pub image: Option<Tables>,
    /// The commit up to which the reader has loaded.
    pub image_commit: u64,
    pub published: PublishedSnapshot,
    /// How often something was published.
    pub writes: u64,
    pub counters: HotPathCounters,
    /// Streaming lookups since the counters were reset.
    pub streams: u64,
    /// Probes of a write-ahead log.
    pub probes: u64,
    /// Every lookup, in order.
    pub lookups: Seq<Lookup>,
}

/// How a database goes wrong.
pub enum Fault {
    /// Not at all.
    Sound,
    /// Does not find the row with this key.
    Loses(i64),
    /// Finds a row with this key where there is none.
    Invents(i64),
    /// Does not take a lookup by primary key for a point query.
    KeyIsNoPoint,
    /// Does not take a lookup by a unique column for a point query.
    UniqueIsNoPoint,
    /// Takes a lookup by a column that is not unique for a point query.
    GroupIsPoint,
    /// Fails on a point query that was prepared before the schema was changed.
    StaleSchema,
    /// Forgets the columns of such a point query.
    ForgetsColumns,
    /// Goes on reading what it loaded first.
    StaleImage,
    /// Reloads on every lookup.
    Reloads,
    /// Reloads on every streaming lookup.
    StreamReloads,
    /// Never takes the fast path.
    LeavesFastPath,
    /// Has no rows loaded any more after the second lookup.
    Unloads,
    /// Moves the commit of its memory image with every lookup.
    MovesSequence,
    /// Moves the commit that it has published with every lookup.
    MovesCommit,
    /// Publishes a new generation with every lookup.
    Republishes,
    /// Counts a publication with every lookup.
    CountsWrites,
    /// Moves the commit that it has published with every probe of a write-ahead log.
    ProbeMovesCommit,
    /// Publishes a new generation with every probe of a write-ahead log.
    ProbeRepublishes,
    /// Counts a publication with every probe of a write-ahead log.
    ProbeCountsWrites,
}

/// The row of `rows` that holds `key` in the column `by`, if there is one.
pub open spec fn row_with(rows: Rows, by: int, key: ValueView) -> Option<i64> {
    if by == 0 {
        match key {
            ValueView::Integer(id) => if rows.dom().contains(id) {
                Some(id)
            } else {
                None
            },
            _ => None,
        }
    } else if exists|id: i64| #[trigger] rows.dom().contains(id) && rows[id][by] == key {
        Some(choose|id: i64| #[trigger] rows.dom().contains(id) && rows[id][by] == key)
    } else {
        None
    }
}

/// The cells of `row` in `columns`.
pub open spec fn projected(row: Cells, columns: Seq<int>) -> Cells {
    Seq::new(columns.len(), |i: int| row[columns[i]])
}

impl Database {
    /// No file yet: all that is there is where the file will be, and what was counted
    /// before.
    pub open spec fn fresh(
        path: Seq<char>,
        commits: u64,
        published: PublishedSnapshot,
        writes: u64,
        counters: HotPathCounters,
    ) -> Database {
        Database {
            path,
            file: false,
            reader: false,
            writer: false,
            journal: None,
            synchronous_normal: false,
            snapshots_off: false,
            durable: Tables::empty(),
            transaction: None,
            schema: 0,
            prepared: Map::empty(),
            commits,
            first_image: None,
            image: None,
            image_commit: 0,
            published,
            writes,
            counters,
            streams: 0,
            probes: 0,
            lookups: seq![],
        }
    }

    /// Whether nothing has been done yet, and the numbers leave room to count on.
    pub open spec fn is_fresh(self) -> bool {
        &&& self == Database::fresh(
            self.path,
            self.commits,
            self.published,
            self.writes,
            self.counters,
        )
        &&& self.published.visible_commit_seq <= self.commits < 1_000_000
        &&& self.published.snapshot_gen < 1_000_000
        &&& self.writes < 1_000_000
    }

    /// Whether a connection is open.
    pub open spec fn is_open(self, session: Session) -> bool {
        match session {
            Session::Reader => self.reader,
            Session::Writer => self.writer,
        }
    }

    /// The same with a connection opened or closed.
    pub open spec fn with_session(self, session: Session, open: bool) -> Database {
        match session {
            Session::Reader => Database { reader: open, ..self },
            Session::Writer => Database { writer: open, ..self },
        }
    }

    /// What a connection sees of the tables where it may change them: nothing, while
    /// the transaction of another one is open.
    pub open spec fn working(self, session: Session) -> Option<Tables> {
        match self.transaction {
            None => Some(self.durable),
            Some((s, tables)) => if s == session {
                Some(tables)
            } else {
                None
            },
        }
    }

    /// The same after a connection has changed the tables: within its transaction, or at
    /// once if there is none.
    pub open spec fn changed(self, tables: Tables) -> Database {
        match self.transaction {
            None => Database { durable: tables, commits: (self.commits + 1) as u64, ..self },
            Some((s, _)) => Database { transaction: Some((s, tables)), ..self },
        }
    }

    /// What a statement on a connection makes of the database: nothing, if it is refused.
    pub open spec fn executed(self, session: Session, statement: Statement) -> Option<Database> {
        if !self.is_open(session) {
            None
        } else {
            match statement {
                Statement::JournalMode(mode) => Some(Database { journal: Some(mode), ..self }),
                Statement::SynchronousNormal => Some(
                    Database { synchronous_normal: true, ..self },
                ),
                Statement::SnapshotsOff => Some(Database { snapshots_off: true, ..self }),
                Statement::Begin => match self.transaction {
                    None => Some(
                        Database { transaction: Some((session, self.durable)), ..self },
                    ),
                    Some(_) => None,
                },
                Statement::Commit => match self.transaction {
                    Some((s, tables)) => if s == session {
                        Some(
                            Database {
                                durable: tables,
                                commits: (self.commits + 1) as u64,
                                transaction: None,
                                ..self
                            },
                        )
                    } else {
                        None
                    },
                    None => None,
                },
                _ => match self.working(session) {
                    Some(tables) => match tables.changed(statement) {
                        Some(after) => Some(
                            Database {
                                schema: if statement is Create || statement is IndexGroups {
                                    self.schema + 1
                                } else {
                                    self.schema
                                },
                                ..self.changed(after)
                            },
                        ),
                        None => None,
                    },
                    None => None,
                },
            }
        }
    }

    /// Whether a statement on the reader speaks of a table that is there.
    pub open spec fn has_table_of(self, statement: Statement) -> bool {
        match (statement, self.working(Session::Reader)) {
            (Statement::InsertByKey(table), Some(tables)) => tables.at(table) is Some,
            (Statement::Select { table, .. }, Some(tables)) => tables.at(table) is Some,
            _ => false,
        }
    }

    /// The same with a statement prepared.
    pub open spec fn with_prepared(
        self,
        handle: Handle,
        statement: Statement,
        point: bool,
    ) -> Database {
        Database {
            prepared: self.prepared.insert(
                handle,
                Prepared { statement, point, schema: self.schema },
            ),
            ..self
        }
    }

    /// What a prepared insert makes of the database: nothing, if it is refused.
    pub open spec fn filled(self, handle: Handle, params: Seq<ValueView>) -> Option<Database> {
        if self.reader && self.prepared.dom().contains(handle) && params.len() == 1 {
            match (self.prepared[handle].statement, params[0], self.working(Session::Reader)) {
                (
                    Statement::InsertByKey(table),
                    ValueView::Integer(id),
                    Some(tables),
                ) => match tables.inserted(table, id, row_of(table, id)) {
                    Some(after) => Some(self.changed(after)),
                    None => None,
                },
                _ => None,
            }
        } else {
            None
        }
    }

    /// The same after the pager has looked at the file: a commit that was not published
    /// yet is.
    pub open spec fn refreshed(self) -> Database {
        if self.published.visible_commit_seq != self.commits {
            Database {
                published: PublishedSnapshot {
                    visible_commit_seq: self.commits,
                    snapshot_gen: (self.published.snapshot_gen + 1) as u64,
                },
                writes: (self.writes + 1) as u64,
                ..self
            }
        } else {
            self
        }
    }

    /// The same after the reader has looked something up: the rows are loaded, once for
    /// each commit.
    pub open spec fn looked_up(
        self,
        table: Table,
        by: int,
        key: ValueView,
        streamed: bool,
    ) -> Database {
        let reload = self.image is None || self.image_commit != self.commits;
        Database {
            first_image: if self.first_image is None {
                Some(self.durable)
            } else {
                self.first_image
            },
            image: Some(self.durable),
            image_commit: self.commits,
            counters: HotPathCounters {
                memdb_refresh_count: if reload {
                    (self.counters.memdb_refresh_count + 1) as u64
                } else {
                    self.counters.memdb_refresh_count
                },
                parser: ParserCounters {
                    fast_path_executions: (self.counters.parser.fast_path_executions + 1) as u64,
                },
            },
            streams: if streamed {
                (self.streams + 1) as u64
            } else {
                self.streams
            },
            lookups: self.lookups.push(Lookup { table, by, key, streamed }),
            ..self.refreshed()
        }
    }

    /// The lookup that a request asks for, with the columns that it wants: nothing, if
    /// the request is refused.
    pub open spec fn lookup_of(self, request: RequestView) -> Option<(Lookup, Seq<int>)> {
        let asked = match request {
            RequestView::QueryPoint { handle, params } => Some((handle, params, true, false)),
            RequestView::Query { handle, params } => Some((handle, params, false, false)),
            RequestView::QueryForEach { handle, params } => Some((handle, params, false, true)),
            _ => None,
        };
        match asked {
            Some((handle, params, point, streamed)) => if self.reader && self.transaction is None
                && self.prepared.dom().contains(handle) && self.prepared[handle].point == point
                && params.len() == 1 {
                match self.prepared[handle].statement {
                    Statement::Select { table, columns, by } => Some(
                        (Lookup { table, by, key: params[0], streamed }, columns),
                    ),
                    _ => None,
                }
            } else {
                None
            },
            None => None,
        }
    }

    /// The database after `request`. What is refused changes nothing.
    #[verifier::opaque]
    pub open spec fn next(self, request: RequestView) -> Database {
        match request {
            RequestView::CreateFile => Database { file: true, ..self },
            RequestView::Open { session } => if self.file {
                self.with_session(session, true)
            } else {
                self
            },
            RequestView::Execute { session, sql } => match self.executed(session, meaning(sql)) {
                Some(after) => after,
                None => self,
            },
            RequestView::Prepare { handle, sql } => if self.reader && self.has_table_of(
                meaning(sql),
            ) {
                self.with_prepared(handle, meaning(sql), false)
            } else {
                self
            },
            RequestView::ExecutePrepared { handle, params } => match self.filled(handle, params) {
                Some(after) => after,
                None => self,
            },
            RequestView::Release { handle } => Database {
                prepared: self.prepared.remove(handle),
                ..self
            },
            RequestView::Close { session } => {
                let closed = self.with_session(session, false);
                match self.transaction {
                    Some((s, _)) => if s == session {
                        Database { transaction: None, ..closed }
                    } else {
                        closed
                    },
                    None => closed,
                }
            },
            RequestView::PreparePoint { handle, sql } => if self.reader && self.has_table_of(
                meaning(sql),
            ) && (meaning(sql) matches Statement::Select { by, .. } && by <= 1) {
                self.with_prepared(handle, meaning(sql), true)
            } else {
                self
            },
            RequestView::QueryPoint { .. } | RequestView::Query { .. }
            | RequestView::QueryForEach { .. } => match self.lookup_of(request) {
                Some((lookup, _)) => self.looked_up(
                    lookup.table,
                    lookup.by,
                    lookup.key,
                    lookup.streamed,
                ),
                None => self,
            },
            RequestView::RefreshPublication => self.refreshed(),
            RequestView::RefreshCleanWal => if self.journal == Some("WAL"@) {
                Database { probes: (self.probes + 1) as u64, ..self.refreshed() }
            } else {
                self
            },
            RequestView::ResetProfile => Database {
                counters: HotPathCounters {
                    memdb_refresh_count: 0,
                    parser: ParserCounters { fast_path_executions: 0 },
                },
                streams: 0,
                ..self
            },
            _ => self,
        }
    }

    /// The rows that a lookup finds, of a database with `fault` that has just loaded what
    /// it needs.
    pub open spec fn found(self, fault: Fault, lookup: Lookup, columns: Seq<int>) -> Seq<Cells> {
        let image = if fault == Fault::StaleImage {
            self.first_image
        } else {
            self.image
        };
        let rows = match image {
            Some(tables) => tables.at(lookup.table),
            None => None,
        };
        match rows {
            Some(rows) => match row_with(rows, lookup.by, lookup.key) {
                Some(id) => if fault == Fault::Loses(id) {
                    seq![]
                } else {
                    seq![projected(rows[id], columns)]
                },
                None => match (fault, lookup.key) {
                    (Fault::Invents(a), ValueView::Integer(b)) => if a == b {
                        seq![Seq::new(columns.len(), |i: int| lookup.key)]
                    } else {
                        seq![]
                    },
                    _ => seq![],
                },
            },
            None => seq![],
        }
    }

    /// What the pager shows to have published.
    pub open spec fn shown_publication(self, fault: Fault) -> PublishedSnapshot {
        let lookups = self.lookups.len();
        let commit = self.published.visible_commit_seq;
        let generation = self.published.snapshot_gen;
        PublishedSnapshot {
            visible_commit_seq: match fault {
                Fault::MovesCommit => (commit + lookups) as u64,
                Fault::ProbeMovesCommit => (commit + self.probes) as u64,
                _ => commit,
            },
            snapshot_gen: match fault {
                Fault::Republishes => (generation + lookups) as u64,
                Fault::ProbeRepublishes => (generation + self.probes) as u64,
                _ => generation,
            },
        }
    }

    /// How often the pager shows to have published.
    pub open spec fn shown_writes(self, fault: Fault) -> u64 {
        match fault {
            Fault::CountsWrites => (self.writes + self.lookups.len()) as u64,
            Fault::ProbeCountsWrites => (self.writes + self.probes) as u64,
            _ => self.writes,
        }
    }

    /// What the profile shows.
    pub open spec fn shown_counters(self, fault: Fault) -> HotPathCounters {
        match fault {
            Fault::Reloads => HotPathCounters {
                memdb_refresh_count: self.counters.parser.fast_path_executions,
                ..self.counters
            },
            Fault::StreamReloads => HotPathCounters {
                memdb_refresh_count: (self.counters.memdb_refresh_count + self.streams) as u64,
                ..self.counters
            },
            Fault::LeavesFastPath => HotPathCounters {
                parser: ParserCounters { fast_path_executions: 0 },
                ..self.counters
            },
            _ => self.counters,
        }
    }

    /// What a database with `fault` answers to `request`.
    #[verifier::opaque]
    pub open spec fn answer(self, fault: Fault, request: RequestView) -> ReplyView {
        let after = self.next(request);
        let refused = ReplyView::Failed("refused"@);
        match request {
            RequestView::CreateFile => if self.file {
                refused
            } else {
                ReplyView::File(Some(self.path))
            },
            RequestView::Open { session } => if self.file && !self.is_open(session) {
                ReplyView::Done
            } else {
                refused
            },
            RequestView::Execute { session, sql } => if self.executed(
                session,
                meaning(sql),
            ) is Some {
                ReplyView::Done
            } else {
                refused
            },
            RequestView::Prepare { handle, sql } => if self.reader && !self.prepared.dom().contains(
                handle,
            ) && self.has_table_of(meaning(sql)) {
                ReplyView::Done
            } else {
                refused
            },
            RequestView::ExecutePrepared { handle, params } => if self.filled(
                handle,
                params,
            ) is Some {
                ReplyView::Done
            } else {
                refused
            },
            RequestView::Release { handle } => if self.prepared.dom().contains(handle) {
                ReplyView::Done
            } else {
                refused
            },
            RequestView::Close { session } => if self.is_open(session) {
                ReplyView::Done
            } else {
                refused
            },
            RequestView::PreparePoint { handle, sql } => match meaning(sql) {
                Statement::Select { by, .. } => if self.reader && !self.prepared.dom().contains(
                    handle,
                ) && self.has_table_of(meaning(sql)) {
                    ReplyView::Eligible(
                        if by == 0 {
                            fault != Fault::KeyIsNoPoint
                        } else if by == 1 {
                            fault != Fault::UniqueIsNoPoint
                        } else {
                            fault == Fault::GroupIsPoint
                        },
                    )
                } else {
                    refused
                },
                _ => refused,
            },
            RequestView::DescribePoint { handle } => if self.reader
                && self.prepared.dom().contains(handle) && self.prepared[handle].point {
                match self.prepared[handle].statement {
                    Statement::Select { table, columns, .. } => ReplyView::Columns {
                        count: columns.len(),
                        names: if fault == Fault::ForgetsColumns && self.prepared[handle].schema
                            != self.schema {
                            seq![]
                        } else {
                            Seq::new(columns.len(), |i: int| columns_of(table)[columns[i]])
                        },
                    },
                    _ => refused,
                }
            } else {
                refused
            },
            RequestView::QueryPoint { handle, .. } => match self.lookup_of(request) {
                Some((lookup, columns)) => if fault == Fault::StaleSchema
                    && self.prepared[handle].schema != self.schema {
                    ReplyView::Failed("stale"@)
                } else {
                    let rows = after.found(fault, lookup, columns);
                    ReplyView::Point(
                        if rows.len() == 0 {
                            None
                        } else {
                            Some(rows[0])
                        },
                    )
                },
                None => refused,
            },
            RequestView::Query { .. } => match self.lookup_of(request) {
                Some((lookup, columns)) => ReplyView::Rows(after.found(fault, lookup, columns)),
                None => refused,
            },
            RequestView::QueryForEach { .. } => match self.lookup_of(request) {
                Some((lookup, columns)) => ReplyView::Streamed {
                    rows: after.found(fault, lookup, columns),
                    error: None,
                },
                None => ReplyView::Streamed { rows: seq![], error: Some("refused"@) },
            },
            RequestView::ReadRowsLoaded => ReplyView::Loaded(
                self.image is Some && !(fault == Fault::Unloads && self.lookups.len() > 1),
            ),
            RequestView::ReadMemdbSequence => ReplyView::Count(
                match fault {
                    Fault::MovesSequence => (self.image_commit + self.lookups.len()) as u64,
                    _ => self.image_commit,
                },
            ),
            RequestView::ReadPublication => ReplyView::Publication(self.shown_publication(fault)),
            RequestView::ReadPublicationWrites => ReplyView::Count(self.shown_writes(fault)),
            RequestView::RefreshPublication => if self.reader {
                ReplyView::Done
            } else {
                refused
            },
            RequestView::RefreshCleanWal => if self.reader {
                ReplyView::Publication(after.shown_publication(fault))
            } else {
                refused
            },
            RequestView::ResetProfile => ReplyView::Done,
            RequestView::ReadProfile => ReplyView::Profile(self.shown_counters(fault)),
        }
    }

    /// The database after the requests of the first `n` of `steps`.
    pub open spec fn after(self, steps: Seq<StepView>, n: nat) -> Database
        decreases n,
    {
        if n == 0 {
            self
        } else {
            self.after(steps, (n - 1) as nat).next(steps[n - 1].request)
        }
    }

    /// What the requests of `steps` leave of the database.
    pub open spec fn left_by(self, steps: Seq<StepView>) -> Database {
        self.after(steps, steps.len())
    }

    /// What a database with `fault` answers to the requests of `steps`, one after the
    /// other.
    pub open spec fn answers(self, fault: Fault, steps: Seq<StepView>) -> Seq<ReplyView> {
        Seq::new(
            steps.len(),
            |i: int| self.after(steps, i as nat).answer(fault, steps[i].request),
        )
    }
}

/// How long the statements that a database knows are, and how they begin.
proof fn lemma_texts()
    ensures
        "BEGIN;"@.len() == 6,
        "COMMIT;"@.len() == 7,
        "PRAGMA synchronous = NORMAL;"@.len() == 28,
        "PRAGMA fsqlite_capture_time_travel_snapshots=false;"@.len() == 51,
        "CREATE TABLE bench (
            id INTEGER PRIMARY KEY,
            name TEXT NOT NULL,
            value REAL NOT NULL
        );"@.len() == 131,
        "CREATE TABLE point_bench (
            id INTEGER PRIMARY KEY,
            email TEXT NOT NULL UNIQUE,
            display_name TEXT NOT NULL,
            group_name TEXT NOT NULL
        );"@.len() == 190,
        "INSERT INTO bench VALUES (?1, ('user_' || ?1), (?1 * 0.137))"@.len() == 60,
        "INSERT INTO point_bench VALUES (
                ?1, ('user_' || ?1 || '@example.test'), ('name_' || ?1), ('g_' || (?1 % 7))
            )"@.len() == 138,
        "SELECT id, display_name FROM point_bench WHERE id = ?1"@.len() == 54,
        "SELECT id, display_name FROM point_bench WHERE email = ?1"@.len() == 57,
        "SELECT id FROM point_bench WHERE group_name = ?1"@.len() == 48,
        "SELECT * FROM bench WHERE id = ?1"@.len() == 33,
        "SELECT id, name FROM bench WHERE id = ?1"@.len() == 40,
        "CREATE INDEX point_bench_group_idx ON point_bench(group_name);"@.len() == 62,
        "UPDATE point_bench SET display_name = 'external_100k' WHERE id = 50000;"@.len() == 71,
        "INSERT INTO bench VALUES (999001, 'external', 1.5);"@.len() == 51,
        "PRAGMA synchronous = NORMAL;"@[0] == 'P' && "PRAGMA synchronous = NORMAL;"@[7] == 's',
        "PRAGMA fsqlite_capture_time_travel_snapshots=false;"@[0] == 'P' && "PRAGMA fsqlite_capture_time_travel_snapshots=false;"@[7] == 'f',
        "CREATE TABLE bench (
            id INTEGER PRIMARY KEY,
            name TEXT NOT NULL,
            value REAL NOT NULL
        );"@[0] == 'C',
        "CREATE TABLE point_bench (
            id INTEGER PRIMARY KEY,
            email TEXT NOT NULL UNIQUE,
            display_name TEXT NOT NULL,
            group_name TEXT NOT NULL
        );"@[0] == 'C',
        "INSERT INTO bench VALUES (?1, ('user_' || ?1), (?1 * 0.137))"@[0] == 'I',
        "INSERT INTO point_bench VALUES (
                ?1, ('user_' || ?1 || '@example.test'), ('name_' || ?1), ('g_' || (?1 % 7))
            )"@[0] == 'I',
        "SELECT id, display_name FROM point_bench WHERE id = ?1"@[0] == 'S',
        "SELECT id, display_name FROM point_bench WHERE email = ?1"@[0] == 'S',
        "SELECT id FROM point_bench WHERE group_name = ?1"@[0] == 'S',
        "SELECT * FROM bench WHERE id = ?1"@[0] == 'S',
        "SELECT id, name FROM bench WHERE id = ?1"@[0] == 'S',
        "CREATE INDEX point_bench_group_idx ON point_bench(group_name);"@[0] == 'C',
        "UPDATE point_bench SET display_name = 'external_100k' WHERE id = 50000;"@[0] == 'U',
        "INSERT INTO bench VALUES (999001, 'external', 1.5);"@[0] == 'I',
{
    reveal_strlit("BEGIN;");
    reveal_strlit("COMMIT;");
    reveal_strlit("PRAGMA synchronous = NORMAL;");
    reveal_strlit("PRAGMA fsqlite_capture_time_travel_snapshots=false;");
    reveal_strlit(
        "CREATE TABLE bench (
            id INTEGER PRIMARY KEY,
            name TEXT NOT NULL,
            value REAL NOT NULL
        );",
    );
    reveal_strlit(
        "CREATE TABLE point_bench (
            id INTEGER PRIMARY KEY,
            email TEXT NOT NULL UNIQUE,
            display_name TEXT NOT NULL,
            group_name TEXT NOT NULL
        );",
    );
    reveal_strlit("INSERT INTO bench VALUES (?1, ('user_' || ?1), (?1 * 0.137))");
    reveal_strlit(
        "INSERT INTO point_bench VALUES (
                ?1, ('user_' || ?1 || '@example.test'), ('name_' || ?1), ('g_' || (?1 % 7))
            )",
    );
    reveal_strlit("SELECT id, display_name FROM point_bench WHERE id = ?1");
    reveal_strlit("SELECT id, display_name FROM point_bench WHERE email = ?1");
    reveal_strlit("SELECT id FROM point_bench WHERE group_name = ?1");
    reveal_strlit("SELECT * FROM bench WHERE id = ?1");
    reveal_strlit("SELECT id, name FROM bench WHERE id = ?1");
    reveal_strlit("CREATE INDEX point_bench_group_idx ON point_bench(group_name);");
    reveal_strlit("UPDATE point_bench SET display_name = 'external_100k' WHERE id = 50000;");
    reveal_strlit("INSERT INTO bench VALUES (999001, 'external', 1.5);");
}

/// What the statements that a database knows do.
pub proof fn lemma_meanings()
    ensures
        meaning("BEGIN;"@) == Statement::Begin,
        meaning("COMMIT;"@) == Statement::Commit,
        meaning("PRAGMA synchronous = NORMAL;"@) == Statement::SynchronousNormal,
        meaning("PRAGMA fsqlite_capture_time_travel_snapshots=false;"@) == Statement::SnapshotsOff,
        meaning("CREATE TABLE bench (
            id INTEGER PRIMARY KEY,
            name TEXT NOT NULL,
            value REAL NOT NULL
        );"@) == Statement::Create(Table::Bench),
        meaning("CREATE TABLE point_bench (
            id INTEGER PRIMARY KEY,
            email TEXT NOT NULL UNIQUE,
            display_name TEXT NOT NULL,
            group_name TEXT NOT NULL
        );"@) == Statement::Create(Table::Points),
        meaning("INSERT INTO bench VALUES (?1, ('user_' || ?1), (?1 * 0.137))"@)
            == Statement::InsertByKey(Table::Bench),
        meaning("INSERT INTO point_bench VALUES (
                ?1, ('user_' || ?1 || '@example.test'), ('name_' || ?1), ('g_' || (?1 % 7))
            )"@) == Statement::InsertByKey(Table::Points),
        meaning("SELECT id, display_name FROM point_bench WHERE id = ?1"@) == (Statement::Select {
            table: Table::Points,
            columns: seq![0, 2],
            by: 0,
        }),
        meaning("SELECT id, display_name FROM point_bench WHERE email = ?1"@) == (
        Statement::Select { table: Table::Points, columns: seq![0, 2], by: 1 }),
        meaning("SELECT id FROM point_bench WHERE group_name = ?1"@) == (Statement::Select {
            table: Table::Points,
            columns: seq![0],
            by: 3,
        }),
        meaning("SELECT * FROM bench WHERE id = ?1"@) == (Statement::Select {
            table: Table::Bench,
            columns: seq![0, 1, 2],
            by: 0,
        }),
        meaning("SELECT id, name FROM bench WHERE id = ?1"@) == (Statement::Select {
            table: Table::Bench,
            columns: seq![0, 1],
            by: 0,
        }),
        meaning("CREATE INDEX point_bench_group_idx ON point_bench(group_name);"@)
            == Statement::IndexGroups,
        meaning("UPDATE point_bench SET display_name = 'external_100k' WHERE id = 50000;"@) == (
        Statement::Rename { id: 50_000, name: "external_100k"@ }),
        meaning("INSERT INTO bench VALUES (999001, 'external', 1.5);"@) == (Statement::InsertRow {
            table: Table::Bench,
            id: 999_001,
            row: seq![ValueView::Integer(999_001), ValueView::Text("external"@), ValueView::Other],
        }),
{
    reveal(meaning);
    lemma_texts();
}

/// A statement that selects a journal mode does so, whatever the mode.
pub proof fn lemma_journal_meaning(mode: Seq<char>)
    ensures
        meaning("PRAGMA journal_mode = "@ + mode + ";"@) == Statement::JournalMode(mode),
{
    reveal(meaning);
    let sql = "PRAGMA journal_mode = "@ + mode + ";"@;
    reveal_strlit("PRAGMA journal_mode = ");
    reveal_strlit(";");
    lemma_texts();
    assert(sql[0] == 'P' && sql[7] == 'j' && sql.len() >= 23);
    assert(sql.take(22) =~= "PRAGMA journal_mode = "@);
    assert(sql.subrange(22, sql.len() - 1) =~= mode);
}

} // verus!
