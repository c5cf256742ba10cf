//! Values and rows, as far as a check looks into them.
use vstd::prelude::*;

verus! {

/// A value of a column or of a statement's parameter.
#[derive(Clone, Debug)]
pub enum SqliteValue {
    Integer(i64),
    Text(String),
    /// A value of another storage class. No check looks into it.
    Other,
}

/// What a `SqliteValue` stands for.
pub enum ValueView {
    Integer(i64),
    Text(Seq<char>),
    Other,
}

impl View for SqliteValue {
    type V = ValueView;

    open spec fn view(&self) -> ValueView {
        match *self {
            SqliteValue::Integer(i) => ValueView::Integer(i),
            SqliteValue::Text(s) => ValueView::Text(s@),
            SqliteValue::Other => ValueView::Other,
        }
    }
}

impl ValueView {
    /// Whether the two are known to be the same value. Of a value of another
    /// storage class nothing is known.
    pub open spec fn same(self, other: ValueView) -> bool {
        self == other && self !is Other
    }
}

impl SqliteValue {
    /// Whether `self` and `other` are known to be the same value.
    pub fn same(&self, other: &SqliteValue) -> (r: bool)
        ensures
            r == self@.same(other@),
    {
        match (self, other) {
            (SqliteValue::Integer(a), SqliteValue::Integer(b)) => *a == *b,
            (SqliteValue::Text(a), SqliteValue::Text(b)) => *a == *b,
            _ => false,
        }
    }
}

/// What a list of values stands for.
pub open spec fn values_view(values: Seq<SqliteValue>) -> Seq<ValueView> {
    Seq::new(values.len(), |i: int| values[i]@)
}

/// A row of a result.
#[derive(Clone, Debug)]
pub struct Row {
    pub values: Vec<SqliteValue>,
}

impl View for Row {
    type V = Seq<ValueView>;

    open spec fn view(&self) -> Seq<ValueView> {
        values_view(self.values@)
    }
}

/// What a list of rows stands for.
pub open spec fn rows_view(rows: Seq<Row>) -> Seq<Seq<ValueView>> {
    Seq::new(rows.len(), |i: int| rows[i]@)
}

/// Whether `row` has a column `column` and holds `value` there.
pub open spec fn cell_is(row: Seq<ValueView>, column: nat, value: ValueView) -> bool {
    column < row.len() && row[column as int].same(value)
}

impl Row {
    /// The value in column `column`, if there is such a column.
    pub fn get(&self, column: usize) -> (r: Option<&SqliteValue>)
        ensures
            r is Some <==> column < self@.len(),
            r matches Some(v) ==> v@ == self@[column as int],
    {
        if column < self.values.len() {
            Some(&self.values[column])
        } else {
            None
        }
    }

    /// Whether column `column` is there and holds `value`.
    pub fn holds(&self, column: usize, value: &SqliteValue) -> (r: bool)
        ensures
            r == cell_is(self@, column as nat, value@),
    {
        match self.get(column) {
            Some(v) => v.same(value),
            None => false,
        }
    }
}

} // verus!
