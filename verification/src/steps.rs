//! The steps that scripts are made of.
use vstd::prelude::*;

use crate::check::{Condition, ConditionView};
use crate::protocol::{Handle, Request, RequestView, Session};
use crate::script::{Step, StepView};
use crate::value::{values_view, SqliteValue, ValueView};

verus! {

/// A connection is opened, which must succeed.
pub open spec fn open_step(session: Session, message: Seq<char>) -> StepView {
    StepView::ask(RequestView::Open { session }).checking(ConditionView::Succeeds, message)
}

/// A connection is opened, which must succeed.
pub fn open(session: Session, message: &str) -> (r: Step)
    ensures
        r@ == open_step(session, message@),
{
    Step::ask(Request::Open { session }).checking(Condition::Succeeds, message)
}

/// A statement is run, whatever comes of it.
pub open spec fn try_execute_step(session: Session, sql: Seq<char>) -> StepView {
    StepView::ask(RequestView::Execute { session, sql })
}

/// A statement is run, whatever comes of it.
pub fn try_execute(session: Session, sql: &str) -> (r: Step)
    ensures
        r@ == try_execute_step(session, sql@),
{
    Step::ask(Request::Execute { session, sql: sql.to_owned() })
}

/// A statement is run, which must succeed.
pub open spec fn execute_step(session: Session, sql: Seq<char>, message: Seq<char>) -> StepView {
    try_execute_step(session, sql).checking(ConditionView::Succeeds, message)
}

/// A statement is run, which must succeed.
pub fn execute(session: Session, sql: &str, message: &str) -> (r: Step)
    ensures
        r@ == execute_step(session, sql@, message@),
{
    try_execute(session, sql).checking(Condition::Succeeds, message)
}

/// A statement is prepared, which must succeed.
pub open spec fn prepare_step(handle: Handle, sql: Seq<char>, message: Seq<char>) -> StepView {
    StepView::ask(RequestView::Prepare { handle, sql }).checking(ConditionView::Succeeds, message)
}

/// A statement is prepared, which must succeed.
pub fn prepare(handle: Handle, sql: &str, message: &str) -> (r: Step)
    ensures
        r@ == prepare_step(handle, sql@, message@),
{
    Step::ask(Request::Prepare { handle, sql: sql.to_owned() }).checking(
        Condition::Succeeds,
        message,
    )
}

/// A point query is prepared, which must succeed.
pub open spec fn prepare_point_step(
    handle: Handle,
    sql: Seq<char>,
    message: Seq<char>,
) -> StepView {
    StepView::ask(RequestView::PreparePoint { handle, sql }).checking(
        ConditionView::Succeeds,
        message,
    )
}

/// A point query is prepared, which must succeed.
pub fn prepare_point(handle: Handle, sql: &str, message: &str) -> (r: Step)
    ensures
        r@ == prepare_point_step(handle, sql@, message@),
{
    Step::ask(Request::PreparePoint { handle, sql: sql.to_owned() }).checking(
        Condition::Succeeds,
        message,
    )
}

/// The one parameter `n`.
pub fn integer_param(n: i64) -> (r: Vec<SqliteValue>)
    ensures
        values_view(r@) == seq![ValueView::Integer(n)],
{
    let mut r: Vec<SqliteValue> = Vec::new();
    r.push(SqliteValue::Integer(n));
    assert(values_view(r@) =~= seq![ValueView::Integer(n)]);
    r
}

/// The one parameter `text`.
pub fn text_param(text: &str) -> (r: Vec<SqliteValue>)
    ensures
        values_view(r@) == seq![ValueView::Text(text@)],
{
    let mut r: Vec<SqliteValue> = Vec::new();
    r.push(SqliteValue::Text(text.to_owned()));
    assert(values_view(r@) =~= seq![ValueView::Text(text@)]);
    r
}

/// A point query is run, which must succeed.
pub open spec fn query_point_step(
    handle: Handle,
    param: ValueView,
    message: Seq<char>,
) -> StepView {
    StepView::ask(RequestView::QueryPoint { handle, params: seq![param] }).checking(
        ConditionView::Succeeds,
        message,
    )
}

/// A point query by an integer is run, which must succeed.
pub fn query_point(handle: Handle, n: i64, message: &str) -> (r: Step)
    ensures
        r@ == query_point_step(handle, ValueView::Integer(n), message@),
{
    Step::ask(Request::QueryPoint { handle, params: integer_param(n) }).checking(
        Condition::Succeeds,
        message,
    )
}

/// A point query by a text is run, which must succeed.
pub fn query_point_by_text(handle: Handle, text: &str, message: &str) -> (r: Step)
    ensures
        r@ == query_point_step(handle, ValueView::Text(text@), message@),
{
    Step::ask(Request::QueryPoint { handle, params: text_param(text) }).checking(
        Condition::Succeeds,
        message,
    )
}

/// A prepared lookup of one row is run: it must succeed and return one row.
pub open spec fn query_one_step(
    id: i64,
    message: Seq<char>,
    count_message: Seq<char>,
) -> StepView {
    StepView::ask(
        RequestView::Query { handle: Handle::Select, params: seq![ValueView::Integer(id)] },
    ).checking(ConditionView::Succeeds, message).checking(
        ConditionView::RowCount(1),
        count_message,
    )
}

/// A prepared lookup of one row is run: it must succeed and return one row.
pub fn query_one(id: i64, message: &str, count_message: &str) -> (r: Step)
    ensures
        r@ == query_one_step(id, message@, count_message@),
{
    Step::ask(Request::Query { handle: Handle::Select, params: integer_param(id) }).checking(
        Condition::Succeeds,
        message,
    ).checking(Condition::RowCount(1), count_message)
}

/// The reader's rows must be loaded in memory.
pub open spec fn rows_loaded_step(message: Seq<char>) -> StepView {
    StepView::ask(RequestView::ReadRowsLoaded).checking(ConditionView::RowsLoaded, message)
}

/// The reader's rows must be loaded in memory.
pub fn rows_loaded(message: &str) -> (r: Step)
    ensures
        r@ == rows_loaded_step(message@),
{
    Step::ask(Request::ReadRowsLoaded).checking(Condition::RowsLoaded, message)
}

/// The condition that column `column` holds the integer `n`.
pub open spec fn integer_cell(column: nat, n: i64) -> ConditionView {
    ConditionView::Cell { column, value: ValueView::Integer(n) }
}

/// The condition that column `column` holds the text `text`.
pub open spec fn text_cell(column: nat, text: Seq<char>) -> ConditionView {
    ConditionView::Cell { column, value: ValueView::Text(text) }
}

} // verus!
