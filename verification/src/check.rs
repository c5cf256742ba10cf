//! Conditions on an answer, and what is kept of earlier answers to compare with.
use vstd::prelude::*;
use vstd::string::*;

use crate::profile::HotPathCounters;
use crate::protocol::{names_view, PublishedSnapshot, Reply, ReplyView};
use crate::text::{decimal, decimal_text, numbered};
use crate::value::{cell_is, rows_view, Row, SqliteValue, ValueView};

verus! {

/// Where an observation is kept.
#[derive(Clone, Copy, Debug, PartialEq, Eq, Structural)]
pub enum Register {
    Profile,
    PublicationBefore,
    PublicationAfter,
    WritesBefore,
    WritesAfter,
    SequenceBefore,
    SequenceAfter,
}

/// What an answer tells of the reader's inner state.
#[derive(Clone, Copy, Debug, PartialEq, Eq, Structural)]
pub enum Observation {
    Count(u64),
    Publication(PublishedSnapshot),
    Profile(HotPathCounters),
}

impl ReplyView {
    /// What the answer tells of the reader's inner state.
    pub open spec fn observation(self) -> Option<Observation> {
        match self {
            ReplyView::Count(n) => Some(Observation::Count(n)),
            ReplyView::Publication(p) => Some(Observation::Publication(p)),
            ReplyView::Profile(c) => Some(Observation::Profile(c)),
            _ => None,
        }
    }
}

impl Reply {
    /// What the answer tells of the reader's inner state.
    pub fn observation(&self) -> (r: Option<Observation>)
        ensures
            r == self@.observation(),
    {
        match self {
            Reply::Count(n) => Some(Observation::Count(*n)),
            Reply::Publication(p) => Some(Observation::Publication(*p)),
            Reply::Profile(c) => Some(Observation::Profile(*c)),
            _ => None,
        }
    }
}

/// The observations kept so far.
#[derive(Clone, Copy, Debug, PartialEq, Eq, Structural)]
pub struct Captured {
    pub profile: Option<Observation>,
    pub publication_before: Option<Observation>,
    pub publication_after: Option<Observation>,
    pub writes_before: Option<Observation>,
    pub writes_after: Option<Observation>,
    pub sequence_before: Option<Observation>,
    pub sequence_after: Option<Observation>,
}

/// Nothing kept yet.
pub open spec fn nothing_captured() -> Captured {
    Captured {
        profile: None,
        publication_before: None,
        publication_after: None,
        writes_before: None,
        writes_after: None,
        sequence_before: None,
        sequence_after: None,
    }
}

impl Captured {
    /// What is kept in `register`.
    pub open spec fn at(self, register: Register) -> Option<Observation> {
        match register {
            Register::Profile => self.profile,
            Register::PublicationBefore => self.publication_before,
            Register::PublicationAfter => self.publication_after,
            Register::WritesBefore => self.writes_before,
            Register::WritesAfter => self.writes_after,
            Register::SequenceBefore => self.sequence_before,
            Register::SequenceAfter => self.sequence_after,
        }
    }

    /// The same with `observation` in `register`.
    pub open spec fn with(self, register: Register, observation: Option<Observation>) -> Captured {
        match register {
            Register::Profile => Captured { profile: observation, ..self },
            Register::PublicationBefore => Captured { publication_before: observation, ..self },
            Register::PublicationAfter => Captured { publication_after: observation, ..self },
            Register::WritesBefore => Captured { writes_before: observation, ..self },
            Register::WritesAfter => Captured { writes_after: observation, ..self },
            Register::SequenceBefore => Captured { sequence_before: observation, ..self },
            Register::SequenceAfter => Captured { sequence_after: observation, ..self },
        }
    }

    /// No observation.
    pub fn new() -> (r: Captured)
        ensures
            r == nothing_captured(),
    {
        Captured {
            profile: None,
            publication_before: None,
            publication_after: None,
            writes_before: None,
            writes_after: None,
            sequence_before: None,
            sequence_after: None,
        }
    }

    /// Keeps `observation` in `register`, in place of what was there.
    pub fn set(&mut self, register: Register, observation: Option<Observation>)
        ensures
            *final(self) == old(self).with(register, observation),
    {
        match register {
            Register::Profile => self.profile = observation,
            Register::PublicationBefore => self.publication_before = observation,
            Register::PublicationAfter => self.publication_after = observation,
            Register::WritesBefore => self.writes_before = observation,
            Register::WritesAfter => self.writes_after = observation,
            Register::SequenceBefore => self.sequence_before = observation,
            Register::SequenceAfter => self.sequence_after = observation,
        }
    }
}

/// A condition on an answer or on what was kept.
#[derive(Debug)]
pub enum Condition {
    /// The request did not fail.
    Succeeds,
    /// The file's path is known.
    HasPath,
    /// The statement was taken as a point query.
    Eligible,
    /// The statement was not taken as a point query.
    Ineligible,
    /// So many columns.
    ColumnCount(usize),
    /// Columns of these names, in this order.
    ColumnNames(Vec<String>),
    /// The point query found a row.
    HasRow,
    /// The point query found no row.
    NoRow,
    /// So many rows.
    RowCount(usize),
    /// The first row holds this value in this column.
    Cell { column: usize, value: SqliteValue },
    /// Every row holds this value in this column.
    EveryCell { column: usize, value: SqliteValue },
    /// The rows are loaded in memory.
    RowsLoaded,
    /// So many full reloads were counted.
    RefreshCount(u64),
    /// At least so many executions on the fast path were counted.
    FastPathAtLeast(u64),
    /// The memory image goes up to the same commit as before.
    SameMemdbSequence,
    /// The newest visible commit is the same as before.
    SameVisibleCommit,
    /// The generation of what is published is the same as before.
    SameGeneration,
    /// Nothing was published since.
    SamePublicationWrites,
}

/// What a `Condition` stands for.
pub enum ConditionView {
    Succeeds,
    HasPath,
    Eligible,
    Ineligible,
    ColumnCount(nat),
    ColumnNames(Seq<Seq<char>>),
    HasRow,
    NoRow,
    RowCount(nat),
    Cell { column: nat, value: ValueView },
    EveryCell { column: nat, value: ValueView },
    RowsLoaded,
    RefreshCount(u64),
    FastPathAtLeast(u64),
    SameMemdbSequence,
    SameVisibleCommit,
    SameGeneration,
    SamePublicationWrites,
}

impl View for Condition {
    type V = ConditionView;

    open spec fn view(&self) -> ConditionView {
        match *self {
            Condition::Succeeds => ConditionView::Succeeds,
            Condition::HasPath => ConditionView::HasPath,
            Condition::Eligible => ConditionView::Eligible,
            Condition::Ineligible => ConditionView::Ineligible,
            Condition::ColumnCount(n) => ConditionView::ColumnCount(n as nat),
            Condition::ColumnNames(names) => ConditionView::ColumnNames(names_view(names@)),
            Condition::HasRow => ConditionView::HasRow,
            Condition::NoRow => ConditionView::NoRow,
            Condition::RowCount(n) => ConditionView::RowCount(n as nat),
            Condition::Cell { column, value } => ConditionView::Cell {
                column: column as nat,
                value: value@,
            },
            Condition::EveryCell { column, value } => ConditionView::EveryCell {
                column: column as nat,
                value: value@,
            },
            Condition::RowsLoaded => ConditionView::RowsLoaded,
            Condition::RefreshCount(n) => ConditionView::RefreshCount(n),
            Condition::FastPathAtLeast(n) => ConditionView::FastPathAtLeast(n),
            Condition::SameMemdbSequence => ConditionView::SameMemdbSequence,
            Condition::SameVisibleCommit => ConditionView::SameVisibleCommit,
            Condition::SameGeneration => ConditionView::SameGeneration,
            Condition::SamePublicationWrites => ConditionView::SamePublicationWrites,
        }
    }
}

/// Whether `before` and `after` are the same number.
pub open spec fn same_count(before: Option<Observation>, after: Option<Observation>) -> bool {
    &&& before matches Some(Observation::Count(a))
    &&& after matches Some(Observation::Count(b))
    &&& a == b
}

/// Whether `before` and `after` show the same newest visible commit.
pub open spec fn same_visible_commit(
    before: Option<Observation>,
    after: Option<Observation>,
) -> bool {
    &&& before matches Some(Observation::Publication(a))
    &&& after matches Some(Observation::Publication(b))
    &&& a.visible_commit_seq == b.visible_commit_seq
}

/// Whether `before` and `after` show the same generation.
pub open spec fn same_generation(before: Option<Observation>, after: Option<Observation>) -> bool {
    &&& before matches Some(Observation::Publication(a))
    &&& after matches Some(Observation::Publication(b))
    &&& a.snapshot_gen == b.snapshot_gen
}

impl ConditionView {
    /// Whether the condition holds of the answer `reply`, or of the observations
    /// `captured` up to and with that answer.
    pub open spec fn holds(self, reply: ReplyView, captured: Captured) -> bool {
        match self {
            ConditionView::Succeeds => reply.error() is None,
            ConditionView::HasPath => reply matches ReplyView::File(Some(_)),
            ConditionView::Eligible => reply == ReplyView::Eligible(true),
            ConditionView::Ineligible => reply == ReplyView::Eligible(false),
            ConditionView::ColumnCount(n) => reply matches ReplyView::Columns { count, .. }
                && count == n,
            ConditionView::ColumnNames(expected) => reply matches ReplyView::Columns { names, .. }
                && names == expected,
            ConditionView::HasRow => reply matches ReplyView::Point(Some(_)),
            ConditionView::NoRow => reply matches ReplyView::Point(None),
            ConditionView::RowCount(n) => match reply {
                ReplyView::Rows(rows) => rows.len() == n,
                ReplyView::Streamed { rows, .. } => rows.len() == n,
                _ => false,
            },
            ConditionView::Cell { column, value } => match reply {
                ReplyView::Point(Some(row)) => cell_is(row, column, value),
                ReplyView::Rows(rows) => rows.len() > 0 && cell_is(rows[0], column, value),
                _ => false,
            },
            ConditionView::EveryCell { column, value } => match reply {
                ReplyView::Rows(rows) => forall|i: int|
                    0 <= i < rows.len() ==> cell_is(#[trigger] rows[i], column, value),
                ReplyView::Streamed { rows, .. } => forall|i: int|
                    0 <= i < rows.len() ==> cell_is(#[trigger] rows[i], column, value),
                _ => false,
            },
            ConditionView::RowsLoaded => reply == ReplyView::Loaded(true),
            ConditionView::RefreshCount(n) => captured.profile matches Some(
                Observation::Profile(c),
            ) && c.memdb_refresh_count == n,
            ConditionView::FastPathAtLeast(n) => captured.profile matches Some(
                Observation::Profile(c),
            ) && c.parser.fast_path_executions >= n,
            ConditionView::SameMemdbSequence => same_count(
                captured.sequence_before,
                captured.sequence_after,
            ),
            ConditionView::SameVisibleCommit => same_visible_commit(
                captured.publication_before,
                captured.publication_after,
            ),
            ConditionView::SameGeneration => same_generation(
                captured.publication_before,
                captured.publication_after,
            ),
            ConditionView::SamePublicationWrites => same_count(
                captured.writes_before,
                captured.writes_after,
            ),
        }
    }
}

fn names_equal(a: &Vec<String>, b: &Vec<String>) -> (r: bool)
    ensures
        r == (names_view(a@) == names_view(b@)),
{
    if a.len() != b.len() {
        assert(names_view(a@).len() != names_view(b@).len());
        return false;
    }
    let mut i: usize = 0;
    while i < a.len()
        invariant
            i <= a.len(),
            a.len() == b.len(),
            forall|j: int| 0 <= j < i ==> a@[j]@ == b@[j]@,
        decreases a.len() - i,
    {
        if a[i] != b[i] {
            assert(names_view(a@)[i as int] != names_view(b@)[i as int]);
            return false;
        }
        i += 1;
    }
    assert(names_view(a@) =~= names_view(b@));
    true
}

fn every_row_holds(rows: &Vec<Row>, column: usize, value: &SqliteValue) -> (r: bool)
    ensures
        r == forall|i: int|
            0 <= i < rows_view(rows@).len() ==> cell_is(
                #[trigger] rows_view(rows@)[i],
                column as nat,
                value@,
            ),
{
    let mut i: usize = 0;
    while i < rows.len()
        invariant
            i <= rows.len(),
            forall|j: int|
                0 <= j < i ==> cell_is(#[trigger] rows_view(rows@)[j], column as nat, value@),
        decreases rows.len() - i,
    {
        if !rows[i].holds(column, value) {
            assert(!cell_is(rows_view(rows@)[i as int], column as nat, value@));
            return false;
        }
        i += 1;
    }
    true
}

fn counts_equal(before: Option<Observation>, after: Option<Observation>) -> (r: bool)
    ensures
        r == same_count(before, after),
{
    match (before, after) {
        (Some(Observation::Count(a)), Some(Observation::Count(b))) => a == b,
        _ => false,
    }
}

impl Condition {
    /// Whether the condition holds of the answer `reply`, or of the observations
    /// `captured` up to and with that answer.
    pub fn holds(&self, reply: &Reply, captured: &Captured) -> (r: bool)
        ensures
            r == self@.holds(reply@, *captured),
    {
        match self {
            Condition::Succeeds => match reply {
                Reply::Failed(_) => false,
                Reply::Streamed { error, .. } => error.is_none(),
                _ => true,
            },
            Condition::HasPath => matches!(reply, Reply::File(Some(_))),
            Condition::Eligible => matches!(reply, Reply::Eligible(true)),
            Condition::Ineligible => matches!(reply, Reply::Eligible(false)),
            Condition::ColumnCount(n) => match reply {
                Reply::Columns { count, .. } => *count == *n,
                _ => false,
            },
            Condition::ColumnNames(expected) => match reply {
                Reply::Columns { names, .. } => names_equal(names, expected),
                _ => false,
            },
            Condition::HasRow => matches!(reply, Reply::Point(Some(_))),
            Condition::NoRow => matches!(reply, Reply::Point(None)),
            Condition::RowCount(n) => match reply {
                Reply::Rows(rows) => rows.len() == *n,
                Reply::Streamed { rows, .. } => rows.len() == *n,
                _ => false,
            },
            Condition::Cell { column, value } => match reply {
                Reply::Point(Some(row)) => row.holds(*column, value),
                Reply::Rows(rows) => rows.len() > 0 && rows[0].holds(*column, value),
                _ => false,
            },
            Condition::EveryCell { column, value } => match reply {
                Reply::Rows(rows) => every_row_holds(rows, *column, value),
                Reply::Streamed { rows, .. } => every_row_holds(rows, *column, value),
                _ => false,
            },
            Condition::RowsLoaded => matches!(reply, Reply::Loaded(true)),
            Condition::RefreshCount(n) => match captured.profile {
                Some(Observation::Profile(c)) => c.memdb_refresh_count == *n,
                _ => false,
            },
            Condition::FastPathAtLeast(n) => match captured.profile {
                Some(Observation::Profile(c)) => c.parser.fast_path_executions >= *n,
                _ => false,
            },
            Condition::SameMemdbSequence => counts_equal(
                captured.sequence_before,
                captured.sequence_after,
            ),
            Condition::SameVisibleCommit => match (
                captured.publication_before,
                captured.publication_after,
            ) {
                (Some(Observation::Publication(a)), Some(Observation::Publication(b))) => {
                    a.visible_commit_seq == b.visible_commit_seq
                },
                _ => false,
            },
            Condition::SameGeneration => match (
                captured.publication_before,
                captured.publication_after,
            ) {
                (Some(Observation::Publication(a)), Some(Observation::Publication(b))) => {
                    a.snapshot_gen == b.snapshot_gen
                },
                _ => false,
            },
            Condition::SamePublicationWrites => counts_equal(
                captured.writes_before,
                captured.writes_after,
            ),
        }
    }
}

/// What a check shows of the observations, behind its message, where it does not
/// hold.
#[derive(Clone, Copy, Debug, PartialEq, Eq, Structural)]
pub enum Detail {
    /// Nothing.
    Nothing,
    /// What the profile counted.
    Counters,
    /// The generation of what is published, and the number of publications, before
    /// and after.
    Publications,
}

impl Detail {
    /// What is shown of `captured`.
    pub open spec fn shown(self, captured: Captured) -> Seq<char> {
        match self {
            Detail::Nothing => seq![],
            Detail::Counters => match captured.profile {
                Some(Observation::Profile(c)) => ": "@ + c.shown(),
                _ => seq![],
            },
            Detail::Publications => match (
                captured.publication_before,
                captured.publication_after,
                captured.writes_before,
                captured.writes_after,
            ) {
                (
                    Some(Observation::Publication(a)),
                    Some(Observation::Publication(b)),
                    Some(Observation::Count(m)),
                    Some(Observation::Count(n)),
                ) => " (before="@ + decimal_text(a.snapshot_gen as nat) + ", after="@
                    + decimal_text(b.snapshot_gen as nat) + ", pub_writes "@ + decimal_text(
                    m as nat,
                ) + "→"@ + decimal_text(n as nat) + ")"@,
                _ => seq![],
            },
        }
    }

    /// Writes what is shown of `captured`.
    pub fn show(&self, captured: &Captured) -> (r: String)
        ensures
            r@ == self.shown(*captured),
    {
        match self {
            Detail::Nothing => String::new(),
            Detail::Counters => match captured.profile {
                Some(Observation::Profile(c)) => {
                    let mut r = ": ".to_owned();
                    r.append(c.show().as_str());
                    r
                },
                _ => String::new(),
            },
            Detail::Publications => match (
                captured.publication_before,
                captured.publication_after,
                captured.writes_before,
                captured.writes_after,
            ) {
                (
                    Some(Observation::Publication(a)),
                    Some(Observation::Publication(b)),
                    Some(Observation::Count(m)),
                    Some(Observation::Count(n)),
                ) => {
                    let mut r = numbered(" (before=", a.snapshot_gen);
                    r.append(", after=");
                    r.append(decimal(b.snapshot_gen).as_str());
                    r.append(", pub_writes ");
                    r.append(decimal(m).as_str());
                    r.append("→");
                    r.append(decimal(n).as_str());
                    r.append(")");
                    r
                },
                _ => String::new(),
            },
        }
    }
}

/// A condition, and what to say and to show where it does not hold.
#[derive(Debug)]
pub struct Check {
    pub condition: Condition,
    pub message: String,
    pub detail: Detail,
}

/// What a `Check` stands for.
pub struct CheckView {
    pub condition: ConditionView,
    pub message: Seq<char>,
    pub detail: Detail,
}

impl View for Check {
    type V = CheckView;

    open spec fn view(&self) -> CheckView {
        CheckView { condition: self.condition@, message: self.message@, detail: self.detail }
    }
}

impl CheckView {
    /// What is said where the condition does not hold and `captured` was observed.
    pub open spec fn complaint(self, captured: Captured) -> Seq<char> {
        self.message + self.detail.shown(captured)
    }
}

impl Check {
    /// What is said where the condition does not hold and `captured` was observed.
    pub fn complaint(&self, captured: &Captured) -> (r: String)
        ensures
            r@ == self@.complaint(*captured),
    {
        let mut r = self.message.clone();
        r.append(self.detail.show(captured).as_str());
        r
    }
}

} // verus!
