//! What a check asks of the database under test, and what it is answered.
use vstd::prelude::*;

use crate::profile::HotPathCounters;
use crate::value::{rows_view, values_view, Row, SqliteValue, ValueView};

verus! {

/// One of the two connections to the database file.
#[derive(Clone, Copy, Debug, PartialEq, Eq, Structural)]
pub enum Session {
    /// The connection whose prepared statements are checked.
    Reader,
    /// A second connection, which commits behind the reader's back.
    Writer,
}

/// A statement prepared on the reader.
#[derive(Clone, Copy, Debug, PartialEq, Eq, Structural)]
pub enum Handle {
    /// The insert that fills the table.
    Insert,
    /// The ordinary prepared lookup.
    Select,
    /// The point query by primary key.
    ById,
    /// The point query by the unique column.
    ByEmail,
    /// The lookup by a column that is not unique.
    ByGroup,
}

/// What the pager publishes to readers.
#[derive(Clone, Copy, Debug, PartialEq, Eq, Structural)]
pub struct PublishedSnapshot {
    /// The newest commit that a reader sees.
    pub visible_commit_seq: u64,
    /// Counts the publications.
    pub snapshot_gen: u64,
}

/// Something to be done to the database under test.
#[derive(Clone, Debug)]
pub enum Request {
    /// Make an empty temporary file, and say at which path.
    CreateFile,
    /// Open a connection to the file.
    Open { session: Session },
    /// Run one statement.
    Execute { session: Session, sql: String },
    /// Prepare a statement.
    Prepare { handle: Handle, sql: String },
    /// Run a prepared statement that returns no rows.
    ExecutePrepared { handle: Handle, params: Vec<SqliteValue> },
    /// Let go of a prepared statement.
    Release { handle: Handle },
    /// Close a connection.
    Close { session: Session },
    /// Prepare a point query.
    PreparePoint { handle: Handle, sql: String },
    /// Name the columns of a point query.
    DescribePoint { handle: Handle },
    /// Run a point query.
    QueryPoint { handle: Handle, params: Vec<SqliteValue> },
    /// Run a prepared statement and collect its rows.
    Query { handle: Handle, params: Vec<SqliteValue> },
    /// Run a prepared statement and hand over its rows one by one.
    QueryForEach { handle: Handle, params: Vec<SqliteValue> },
    /// Are the reader's rows loaded in memory?
    ReadRowsLoaded,
    /// Up to which commit does the reader's memory image go?
    ReadMemdbSequence,
    /// What has the reader's pager published?
    ReadPublication,
    /// How often has the reader's pager published?
    ReadPublicationWrites,
    /// Let the reader's pager look at the file and publish what it finds.
    RefreshPublication,
    /// The same on the path that a read of a clean write-ahead log takes.
    RefreshCleanWal,
    /// Set the profile's counters to zero.
    ResetProfile,
    /// What has the profile counted?
    ReadProfile,
}

/// What a `Request` stands for.
pub enum RequestView {
    CreateFile,
    Open { session: Session },
    Execute { session: Session, sql: Seq<char> },
    Prepare { handle: Handle, sql: Seq<char> },
    ExecutePrepared { handle: Handle, params: Seq<ValueView> },
    Release { handle: Handle },
    Close { session: Session },
    PreparePoint { handle: Handle, sql: Seq<char> },
    DescribePoint { handle: Handle },
    QueryPoint { handle: Handle, params: Seq<ValueView> },
    Query { handle: Handle, params: Seq<ValueView> },
    QueryForEach { handle: Handle, params: Seq<ValueView> },
    ReadRowsLoaded,
    ReadMemdbSequence,
    ReadPublication,
    ReadPublicationWrites,
    RefreshPublication,
    RefreshCleanWal,
    ResetProfile,
    ReadProfile,
}

impl View for Request {
    type V = RequestView;

    open spec fn view(&self) -> RequestView {
        match *self {
            Request::CreateFile => RequestView::CreateFile,
            Request::Open { session } => RequestView::Open { session },
            Request::Execute { session, sql } => RequestView::Execute { session, sql: sql@ },
            Request::Prepare { handle, sql } => RequestView::Prepare { handle, sql: sql@ },
            Request::ExecutePrepared { handle, params } => RequestView::ExecutePrepared {
                handle,
                params: values_view(params@),
            },
            Request::Release { handle } => RequestView::Release { handle },
            Request::Close { session } => RequestView::Close { session },
            Request::PreparePoint { handle, sql } => RequestView::PreparePoint {
                handle,
                sql: sql@,
            },
            Request::DescribePoint { handle } => RequestView::DescribePoint { handle },
            Request::QueryPoint { handle, params } => RequestView::QueryPoint {
                handle,
                params: values_view(params@),
            },
            Request::Query { handle, params } => RequestView::Query {
                handle,
                params: values_view(params@),
            },
            Request::QueryForEach { handle, params } => RequestView::QueryForEach {
                handle,
                params: values_view(params@),
            },
            Request::ReadRowsLoaded => RequestView::ReadRowsLoaded,
            Request::ReadMemdbSequence => RequestView::ReadMemdbSequence,
            Request::ReadPublication => RequestView::ReadPublication,
            Request::ReadPublicationWrites => RequestView::ReadPublicationWrites,
            Request::RefreshPublication => RequestView::RefreshPublication,
            Request::RefreshCleanWal => RequestView::RefreshCleanWal,
            Request::ResetProfile => RequestView::ResetProfile,
            Request::ReadProfile => RequestView::ReadProfile,
        }
    }
}

/// The answer to a request.
#[derive(Clone, Debug)]
pub enum Reply {
    /// It failed, for the reason given.
    Failed(String),
    /// It was done, and there is nothing to tell.
    Done,
    /// The file is there, at this path unless the path is no UTF-8.
    File(Option<String>),
    /// Whether the statement was taken as a point query.
    Eligible(bool),
    /// The number of columns, and their names.
    Columns { count: usize, names: Vec<String> },
    /// The row of a point query, if there is one.
    Point(Option<Row>),
    /// The rows of a query.
    Rows(Vec<Row>),
    /// The rows handed over one by one, and why there were no more if the query
    /// failed.
    Streamed { rows: Vec<Row>, error: Option<String> },
    /// Whether the rows are loaded.
    Loaded(bool),
    /// A number.
    Count(u64),
    /// What is published.
    Publication(PublishedSnapshot),
    /// What was counted.
    Profile(HotPathCounters),
}

/// What a `Reply` stands for.
pub enum ReplyView {
    Failed(Seq<char>),
    Done,
    File(Option<Seq<char>>),
    Eligible(bool),
    Columns { count: nat, names: Seq<Seq<char>> },
    Point(Option<Seq<ValueView>>),
    Rows(Seq<Seq<ValueView>>),
    Streamed { rows: Seq<Seq<ValueView>>, error: Option<Seq<char>> },
    Loaded(bool),
    Count(u64),
    Publication(PublishedSnapshot),
    Profile(HotPathCounters),
}

/// What an optional text stands for.
pub open spec fn text_view(text: Option<String>) -> Option<Seq<char>> {
    match text {
        Some(s) => Some(s@),
        None => None,
    }
}

/// What a list of names stands for.
pub open spec fn names_view(names: Seq<String>) -> Seq<Seq<char>> {
    Seq::new(names.len(), |i: int| names[i]@)
}

impl View for Reply {
    type V = ReplyView;

    open spec fn view(&self) -> ReplyView {
        match *self {
            Reply::Failed(error) => ReplyView::Failed(error@),
            Reply::Done => ReplyView::Done,
            Reply::File(path) => ReplyView::File(text_view(path)),
            Reply::Eligible(eligible) => ReplyView::Eligible(eligible),
            Reply::Columns { count, names } => ReplyView::Columns {
                count: count as nat,
                names: names_view(names@),
            },
            Reply::Point(row) => ReplyView::Point(
                match row {
                    Some(r) => Some(r@),
                    None => None,
                },
            ),
            Reply::Rows(rows) => ReplyView::Rows(rows_view(rows@)),
            Reply::Streamed { rows, error } => ReplyView::Streamed {
                rows: rows_view(rows@),
                error: text_view(error),
            },
            Reply::Loaded(loaded) => ReplyView::Loaded(loaded),
            Reply::Count(n) => ReplyView::Count(n),
            Reply::Publication(p) => ReplyView::Publication(p),
            Reply::Profile(c) => ReplyView::Profile(c),
        }
    }
}

impl RequestView {
    /// Whether `reply` is an answer to this request, and not to another one.
    pub open spec fn answered_by(self, reply: ReplyView) -> bool {
        match self {
            RequestView::CreateFile => reply is Failed || reply is File,
            RequestView::Open { .. } => reply is Failed || reply is Done,
            RequestView::Execute { .. } => reply is Failed || reply is Done,
            RequestView::Prepare { .. } => reply is Failed || reply is Done,
            RequestView::ExecutePrepared { .. } => reply is Failed || reply is Done,
            RequestView::Release { .. } => reply is Done,
            RequestView::Close { .. } => reply is Done,
            RequestView::PreparePoint { .. } => reply is Failed || reply is Eligible,
            RequestView::DescribePoint { .. } => reply is Columns,
            RequestView::QueryPoint { .. } => reply is Failed || reply is Point,
            RequestView::Query { .. } => reply is Failed || reply is Rows,
            RequestView::QueryForEach { .. } => reply is Streamed,
            RequestView::ReadRowsLoaded => reply is Loaded,
            RequestView::ReadMemdbSequence => reply is Count,
            RequestView::ReadPublication => reply is Publication,
            RequestView::ReadPublicationWrites => reply is Count,
            RequestView::RefreshPublication => reply is Failed || reply is Done,
            RequestView::RefreshCleanWal => reply is Failed || reply is Publication,
            RequestView::ResetProfile => reply is Done,
            RequestView::ReadProfile => reply is Profile,
        }
    }
}

impl Request {
    /// Whether `reply` is an answer to this request, and not to another one.
    pub fn answered_by(&self, reply: &Reply) -> (r: bool)
        ensures
            r == self@.answered_by(reply@),
    {
        match (self, reply) {
            (Request::CreateFile, Reply::Failed(_) | Reply::File(_)) => true,
            (Request::Open { .. }, Reply::Failed(_) | Reply::Done) => true,
            (Request::Execute { .. }, Reply::Failed(_) | Reply::Done) => true,
            (Request::Prepare { .. }, Reply::Failed(_) | Reply::Done) => true,
            (Request::ExecutePrepared { .. }, Reply::Failed(_) | Reply::Done) => true,
            (Request::Release { .. }, Reply::Done) => true,
            (Request::Close { .. }, Reply::Done) => true,
            (Request::PreparePoint { .. }, Reply::Failed(_) | Reply::Eligible(_)) => true,
            (Request::DescribePoint { .. }, Reply::Columns { .. }) => true,
            (Request::QueryPoint { .. }, Reply::Failed(_) | Reply::Point(_)) => true,
            (Request::Query { .. }, Reply::Failed(_) | Reply::Rows(_)) => true,
            (Request::QueryForEach { .. }, Reply::Streamed { .. }) => true,
            (Request::ReadRowsLoaded, Reply::Loaded(_)) => true,
            (Request::ReadMemdbSequence, Reply::Count(_)) => true,
            (Request::ReadPublication, Reply::Publication(_)) => true,
            (Request::ReadPublicationWrites, Reply::Count(_)) => true,
            (Request::RefreshPublication, Reply::Failed(_) | Reply::Done) => true,
            (Request::RefreshCleanWal, Reply::Failed(_) | Reply::Publication(_)) => true,
            (Request::ResetProfile, Reply::Done) => true,
            (Request::ReadProfile, Reply::Profile(_)) => true,
            _ => false,
        }
    }
}

impl ReplyView {
    /// Why the request failed, if it did.
    pub open spec fn error(self) -> Option<Seq<char>> {
        match self {
            ReplyView::Failed(error) => Some(error),
            ReplyView::Streamed { error, .. } => error,
            _ => None,
        }
    }
}

impl Reply {
    /// Why the request failed, if it did.
    pub fn error(&self) -> (r: Option<String>)
        ensures
            text_view(r) == self@.error(),
    {
        match self {
            Reply::Failed(error) => Some(error.clone()),
            Reply::Streamed { error: Some(error), .. } => Some(error.clone()),
            _ => None,
        }
    }
}

/// Something that the database under test holds for a run, from the answer that
/// brings it until it is let go of.
#[derive(Clone, Copy, Debug, PartialEq, Eq, Structural)]
pub enum Resource {
    /// The temporary file.
    File,
    /// An open connection.
    Connection(Session),
    /// A prepared statement or point query.
    Statement(Handle),
}

/// `held` without the newest `resource` in it.
pub open spec fn without(held: Seq<Resource>, resource: Resource) -> Seq<Resource>
    decreases held.len(),
{
    if held.len() == 0 {
        held
    } else if held.last() == resource {
        held.drop_last()
    } else {
        without(held.drop_last(), resource).push(held.last())
    }
}

impl RequestView {
    /// What the request brings, if `reply` is the answer.
    pub open spec fn brings(self, reply: ReplyView) -> Option<Resource> {
        match self {
            RequestView::CreateFile => if reply is File {
                Some(Resource::File)
            } else {
                None
            },
            RequestView::Open { session } => if reply is Done {
                Some(Resource::Connection(session))
            } else {
                None
            },
            RequestView::Prepare { handle, .. } => if reply is Done {
                Some(Resource::Statement(handle))
            } else {
                None
            },
            RequestView::PreparePoint { handle, .. } => if reply == ReplyView::Eligible(true) {
                Some(Resource::Statement(handle))
            } else {
                None
            },
            _ => None,
        }
    }

    /// What the request lets go of.
    pub open spec fn lets_go(self) -> Option<Resource> {
        match self {
            RequestView::Release { handle } => Some(Resource::Statement(handle)),
            RequestView::Close { session } => Some(Resource::Connection(session)),
            _ => None,
        }
    }

    /// What is held after the request was answered with `reply`, oldest first.
    pub open spec fn held(self, reply: ReplyView, before: Seq<Resource>) -> Seq<Resource> {
        match (self.brings(reply), self.lets_go()) {
            (Some(resource), _) => before.push(resource),
            (None, Some(resource)) => without(before, resource),
            (None, None) => before,
        }
    }
}

/// To be without a resource is to lose the newest of its kind, at `i`, and nothing else:
/// what is older, what is newer and what is of another kind stays in its order. Where there
/// is none, nothing is lost.
pub proof fn law_without_takes_newest(held: Seq<Resource>, resource: Resource, i: int)
    requires
        -1 <= i < held.len(),
        i >= 0 ==> held[i] == resource,
        forall|j: int| i < j < held.len() ==> held[j] != resource,
    ensures
        without(held, resource) == (if i >= 0 {
            held.remove(i)
        } else {
            held
        }),
    decreases held.len(),
{
    if held.len() > 0 {
        if held.last() == resource {
            assert(i == held.len() - 1);
            assert(held.remove(i) =~= held.drop_last());
        } else {
            law_without_takes_newest(held.drop_last(), resource, i);
            if i >= 0 {
                assert(held.drop_last().remove(i).push(held.last()) =~= held.remove(i));
            } else {
                assert(held.drop_last().push(held.last()) =~= held);
            }
        }
    }
}

/// Takes the newest `resource` out of `held`, if there is one.
fn remove_newest(held: &mut Vec<Resource>, resource: Resource)
    ensures
        final(held)@ == without(old(held)@, resource),
{
    let mut n: usize = held.len();
    while n > 0
        invariant
            n <= held.len(),
            held@ == old(held)@,
            forall|j: int| n <= j < held.len() ==> held@[j] != resource,
        decreases n,
    {
        if held[n - 1] == resource {
            proof {
                law_without_takes_newest(held@, resource, n - 1);
            }
            held.remove(n - 1);
            return;
        }
        n -= 1;
    }
    proof {
        law_without_takes_newest(held@, resource, -1);
    }
}

impl Request {
    /// Brings `held` up to date: the request was answered with `reply`.
    pub fn hold(&self, reply: &Reply, held: &mut Vec<Resource>)
        ensures
            final(held)@ == self@.held(reply@, old(held)@),
    {
        match (self, reply) {
            (Request::CreateFile, Reply::File(_)) => held.push(Resource::File),
            (Request::Open { session }, Reply::Done) => held.push(Resource::Connection(*session)),
            (Request::Prepare { handle, .. }, Reply::Done) => held.push(
                Resource::Statement(*handle),
            ),
            (Request::PreparePoint { handle, .. }, Reply::Eligible(true)) => held.push(
                Resource::Statement(*handle),
            ),
            (Request::Release { handle }, _) => remove_newest(held, Resource::Statement(*handle)),
            (Request::Close { session }, _) => remove_newest(held, Resource::Connection(*session)),
            _ => {},
        }
    }
}

} // verus!
