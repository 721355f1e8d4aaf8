//! Rows as the database returns them: values under column names.
//!
//! The caller builds a [`Row`] from one row of a driver's result by pushing
//! its columns in the driver's order. The library reads a row by column name
//! only; where two columns have the same name, the first one is read.

use crate::errors::{MyError, MyErrorView};
use vstd::prelude::*;

verus! {

/// The value of one column of one row.
#[derive(Debug, PartialEq, Eq)]
pub enum Value {
    /// SQL `NULL`.
    Null,
    /// A `uuid` value.
    Uuid(u128),
    /// A value of a character type.
    Text(String),
    /// A value of any type that the service's records have no field for.
    Other,
}

/// Mathematical model of [`Value`].
pub enum ValueView {
    Null,
    Uuid(u128),
    Text(Seq<char>),
    Other,
}

impl View for Value {
    type V = ValueView;

    open spec fn view(&self) -> ValueView {
        match self {
            Value::Null => ValueView::Null,
            Value::Uuid(id) => ValueView::Uuid(*id),
            Value::Text(text) => ValueView::Text(text@),
            Value::Other => ValueView::Other,
        }
    }
}

impl Clone for Value {
    fn clone(&self) -> (copy: Self)
        ensures
            copy@ == self@,
    {
        match self {
            Value::Null => Value::Null,
            Value::Uuid(id) => Value::Uuid(*id),
            Value::Text(text) => Value::Text(text.clone()),
            Value::Other => Value::Other,
        }
    }
}

/// One column of a row: its name and its value.
#[derive(Debug, PartialEq, Eq)]
struct Column {
    name: String,
    value: Value,
}

/// One row of a result.
#[derive(Debug, PartialEq, Eq)]
pub struct Row {
    columns: Vec<Column>,
}

/// Mathematical model of [`Row`]: the value under each column name. Names
/// are equal only when they are equal character for character.
pub type RowView = Map<Seq<char>, ValueView>;

/// The value under each name in a sequence of named values, where the first
/// of several values under one name counts.
spec fn first_values(names: Seq<Seq<char>>, values: Seq<ValueView>) -> RowView
    decreases names.len(),
{
    if names.len() == 0 || names.len() != values.len() {
        Map::empty()
    } else {
        let before = first_values(names.drop_last(), values.drop_last());
        if before.dom().contains(names.last()) {
            before
        } else {
            before.insert(names.last(), values.last())
        }
    }
}

/// A name that is not among `names` has no value.
proof fn lemma_absent(names: Seq<Seq<char>>, values: Seq<ValueView>, name: Seq<char>)
    requires
        names.len() == values.len(),
        forall|j: int| 0 <= j < names.len() ==> names[j] != name,
    ensures
        !first_values(names, values).dom().contains(name),
    decreases names.len(),
{
    if names.len() > 0 {
        lemma_absent(names.drop_last(), values.drop_last(), name);
    }
}

/// A name whose first occurrence is at `i` has the value at `i`.
proof fn lemma_present(names: Seq<Seq<char>>, values: Seq<ValueView>, name: Seq<char>, i: int)
    requires
        names.len() == values.len(),
        0 <= i < names.len(),
        names[i] == name,
        forall|j: int| 0 <= j < i ==> names[j] != name,
    ensures
        first_values(names, values).dom().contains(name),
        first_values(names, values)[name] == values[i],
    decreases names.len(),
{
    if i == names.len() - 1 {
        lemma_absent(names.drop_last(), values.drop_last(), name);
    } else {
        lemma_present(names.drop_last(), values.drop_last(), name, i);
    }
}

impl Row {
    /// The names of the columns, in order.
    spec fn names(&self) -> Seq<Seq<char>> {
        self.columns@.map_values(|c: Column| c.name@)
    }

    /// The values of the columns, in order.
    spec fn values(&self) -> Seq<ValueView> {
        self.columns@.map_values(|c: Column| c.value@)
    }
}

impl View for Row {
    type V = RowView;

    closed spec fn view(&self) -> RowView {
        first_values(self.names(), self.values())
    }
}

impl Clone for Row {
    fn clone(&self) -> (copy: Self)
        ensures
            copy@ == self@,
    {
        let mut columns: Vec<Column> = Vec::new();
        let mut i: usize = 0;
        while i < self.columns.len()
            invariant
                i <= self.columns.len(),
                columns.len() == i,
                forall|j: int|
                    0 <= j < i ==> (#[trigger] columns@[j]).name@ == self.columns@[j].name@
                        && columns@[j].value@ == self.columns@[j].value@,
            decreases self.columns.len() - i,
        {
            let column = &self.columns[i];
            columns.push(Column { name: column.name.clone(), value: column.value.clone() });
            i = i + 1;
        }
        let copy = Row { columns };
        assert(copy.names() =~= self.names());
        assert(copy.values() =~= self.values());
        copy
    }
}

/// The models of a sequence of rows, in the same order.
pub open spec fn row_views(rows: Seq<Row>) -> Seq<RowView> {
    rows.map_values(|r: Row| r@)
}

/// The UUID under `name` in `row`; `None` when the column is missing, null,
/// or of another type.
pub open spec fn uuid_value(row: RowView, name: Seq<char>) -> Option<u128> {
    if row.dom().contains(name) {
        match row[name] {
            ValueView::Uuid(id) => Some(id),
            _ => None,
        }
    } else {
        None
    }
}

/// The text under `name` in `row`; `None` when the column is missing, null,
/// or of another type.
pub open spec fn text_value(row: RowView, name: Seq<char>) -> Option<Seq<char>> {
    if row.dom().contains(name) {
        match row[name] {
            ValueView::Text(text) => Some(text),
            _ => None,
        }
    } else {
        None
    }
}

impl Row {
    /// A row without columns.
    pub fn new() -> (row: Row)
        ensures
            row@ == Map::<Seq<char>, ValueView>::empty(),
    {
        Row { columns: Vec::new() }
    }

    /// Adds a column after those the row has. A column whose name the row
    /// already has stays out of reach of [`Row::get`].
    pub fn push(&mut self, name: &str, value: Value)
        ensures
            final(self)@ == if old(self)@.dom().contains(name@) {
                old(self)@
            } else {
                old(self)@.insert(name@, value@)
            },
    {
        self.columns.push(Column { name: name.to_owned(), value });
        proof {
            assert(self.names().drop_last() =~= old(self).names());
            assert(self.values().drop_last() =~= old(self).values());
            assert(self.names().last() == name@);
            assert(self.values().last() == value@);
        }
    }

    /// The value under `name`, or `None` when the row has no column of that
    /// name.
    pub fn get(&self, name: &str) -> (found: Option<&Value>)
        ensures
            match found {
                Some(value) => self@.dom().contains(name@) && self@[name@] == value@,
                None => !self@.dom().contains(name@),
            },
    {
        let wanted: String = name.to_owned();
        let mut i: usize = 0;
        while i < self.columns.len()
            invariant
                i <= self.columns.len(),
                wanted@ == name@,
                forall|j: int| 0 <= j < i ==> (#[trigger] self.names()[j]) != name@,
            decreases self.columns.len() - i,
        {
            if self.columns[i].name == wanted {
                proof {
                    lemma_present(self.names(), self.values(), name@, i as int);
                }
                return Some(&self.columns[i].value);
            }
            i = i + 1;
        }
        proof {
            lemma_absent(self.names(), self.values(), name@);
        }
        None
    }

    /// The UUID under `name`. Fails with `MappingError` when the column is
    /// missing, null, or of another type.
    pub fn get_uuid(&self, name: &str) -> (result: Result<u128, MyError>)
        ensures
            match result {
                Ok(id) => uuid_value(self@, name@) == Some(id),
                Err(e) => uuid_value(self@, name@) is None && e@ == MyErrorView::MappingError,
            },
    {
        match self.get(name) {
            Some(Value::Uuid(id)) => Ok(*id),
            _ => Err(MyError::MappingError),
        }
    }

    /// The text under `name`. Fails with `MappingError` when the column is
    /// missing, null, or of another type.
    pub fn get_text(&self, name: &str) -> (result: Result<String, MyError>)
        ensures
            match result {
                Ok(text) => text_value(self@, name@) == Some(text@),
                Err(e) => text_value(self@, name@) is None && e@ == MyErrorView::MappingError,
            },
    {
        match self.get(name) {
            Some(Value::Text(text)) => Ok(text.clone()),
            _ => Err(MyError::MappingError),
        }
    }
}

} // verus!
