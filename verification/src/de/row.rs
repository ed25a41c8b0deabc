//! A table held in memory: rows and resultsets that any driver can fill.

use super::db_value::DbValue;
use super::deserializable_resultset::{DeserializableResultset, RowContent};
use super::deserializable_row::DeserializableRow;
use super::deserialization_error::{DeserError, DeserResult};
use super::laws::is_table;
use std::collections::VecDeque;
use vstd::prelude::*;

verus! {

/// Whether no two of the names are the same text.
pub open spec fn distinct(names: Seq<String>) -> bool {
    forall|i: int, j: int|
        0 <= i < j < names.len() ==> (#[trigger] names[i])@ != (#[trigger] names[j])@
}

/// Tells whether no two of the names are the same text.
pub fn all_distinct(names: &Vec<String>) -> (b: bool)
    ensures
        b == distinct(names@),
{
    let mut j: usize = 0;
    while j < names.len()
        invariant
            j <= names.len(),
            forall|a: int, b: int|
                0 <= a < b < j ==> (#[trigger] names[a])@ != (#[trigger] names[b])@,
        decreases names.len() - j,
    {
        let mut i: usize = 0;
        while i < j
            invariant
                i <= j < names.len(),
                forall|a: int| 0 <= a < i ==> (#[trigger] names[a])@ != names[j as int]@,
            decreases j - i,
        {
            if names[i] == names[j] {
                return false;
            }
            i = i + 1;
        }
        j = j + 1;
    }
    true
}

/// The names, copied.
fn copy_names(names: &Vec<String>) -> (copy: Vec<String>)
    ensures
        copy@ == names@,
{
    let mut copy: Vec<String> = Vec::new();
    let mut i: usize = 0;
    while i < names.len()
        invariant
            i <= names.len(),
            copy@ == names@.take(i as int),
        decreases names.len() - i,
    {
        copy.push(names[i].clone());
        i = i + 1;
    }
    copy
}

/// A row held in memory, with the names of its columns.
#[derive(Debug, Clone, PartialEq, Eq)]
pub struct Row<V: DbValue> {
    names: Vec<String>,
    values: Vec<V>,
}

impl<V: DbValue> Row<V> {
    /// A row of the given values under the given column names. There must
    /// be one name for each value, and no name twice.
    pub fn new(names: Vec<String>, values: Vec<V>) -> (r: Option<Row<V>>)
        ensures
            r is Some <==> names.len() == values.len() && distinct(names@),
            r matches Some(row) ==> row.fieldnames() == names@ && row.values() == values@,
    {
        if names.len() == values.len() && all_distinct(&names) {
            Some(Row { names, values })
        } else {
            None
        }
    }

    /// The value at the given position.
    pub fn get(&self, idx: usize) -> (value: Option<&V>)
        ensures
            idx < self.values().len() ==> value == Some(&self.values()[idx as int]),
            idx >= self.values().len() ==> value is None,
    {
        if idx < self.values.len() {
            Some(&self.values[idx])
        } else {
            None
        }
    }
}

impl<V: DbValue> DeserializableRow for Row<V> {
    type V = V;

    closed spec fn values(&self) -> Seq<V> {
        self.values@
    }

    closed spec fn fieldnames(&self) -> Seq<String> {
        self.names@
    }

    fn len(&self) -> (n: usize) {
        self.values.len()
    }

    fn pop(&mut self) -> (value: Option<V>) {
        self.values.pop()
    }

    fn last(&self) -> (value: Option<&V>) {
        let n = self.values.len();
        if n == 0 {
            None
        } else {
            Some(&self.values[n - 1])
        }
    }

    fn get_fieldname(&self, field_idx: usize) -> (name: Option<&String>) {
        if field_idx < self.names.len() {
            Some(&self.names[field_idx])
        } else {
            None
        }
    }

    fn reverse_values(&mut self) {
        let ghost before = self.values@;
        let mut reversed: Vec<V> = Vec::new();
        let n = self.values.len();
        while reversed.len() < n
            invariant
                n == before.len(),
                reversed.len() <= n,
                self.values@ == before.take(n - reversed.len()),
                reversed@ == before.reverse().take(reversed.len() as int),
                self.names@ == old(self).names@,
            decreases n - reversed.len(),
        {
            match self.values.pop() {
                Some(value) => {
                    reversed.push(value);
                },
                None => {},
            }
        }
        self.values = reversed;
    }
}

/// A resultset held in memory: the column names, and the rows that have not
/// been taken yet.
#[derive(Debug, Clone, PartialEq, Eq)]
pub struct Resultset<V: DbValue> {
    names: Vec<String>,
    rows: VecDeque<Vec<V>>,
}

impl<V: DbValue> Resultset<V> {
    /// The names of the columns, by position.
    pub closed spec fn fieldnames(&self) -> Seq<String> {
        self.names@
    }

    /// The values of the rows that are still to come.
    pub closed spec fn table(&self) -> Seq<Seq<V>> {
        Seq::new(self.rows@.len(), |i: int| self.rows@[i]@)
    }

    /// Whether no column name stands twice and every row has one value for
    /// each column.
    pub open spec fn well_formed(&self) -> bool {
        &&& distinct(self.fieldnames())
        &&& forall|i: int|
            0 <= i < self.table().len() ==> (#[trigger] self.table()[i]).len()
                == self.fieldnames().len()
    }

    /// An empty resultset with the given columns; none if a name stands
    /// twice.
    pub fn new(names: Vec<String>) -> (r: Option<Resultset<V>>)
        ensures
            r is Some <==> distinct(names@),
            r matches Some(resultset) ==> resultset.fieldnames() == names@
                && resultset.table().len() == 0 && resultset.well_formed(),
    {
        if all_distinct(&names) {
            Some(Resultset { names, rows: VecDeque::new() })
        } else {
            None
        }
    }

    /// Appends a row. A row that has not one value for each column is
    /// refused, and the resultset stays as it is.
    pub fn push(&mut self, values: Vec<V>) -> (r: DeserResult<()>)
        ensures
            final(self).fieldnames() == old(self).fieldnames(),
            values.len() == old(self).fieldnames().len() ==> r is Ok
                && final(self).table() == old(self).table().push(values@),
            values.len() != old(self).fieldnames().len() ==> r == Err::<(), DeserError>(
                DeserError::WrongArity,
            ) && final(self).table() == old(self).table(),
            old(self).well_formed() ==> final(self).well_formed(),
    {
        if values.len() != self.names.len() {
            return Err(DeserError::WrongArity);
        }
        self.rows.push_back(values);
        Ok(())
    }

    /// A well-formed resultset is a table under its column names.
    pub proof fn lemma_well_formed_is_table(&self)
        requires
            self.well_formed(),
        ensures
            is_table(self.rows(), self.fieldnames()),
    {
        assert forall|i: int| 0 <= i < self.rows().len() implies (#[trigger] self.rows()[i]).names
            == self.fieldnames() && self.rows()[i].cells.len() == self.fieldnames().len() by {
            assert(self.table()[i].len() == self.fieldnames().len());
        }
    }

    /// The number of rows that are still to come.
    pub fn len(&self) -> (n: usize)
        ensures
            n == self.table().len(),
    {
        self.rows.len()
    }

    /// The number of columns.
    pub fn number_of_fields(&self) -> (n: usize)
        ensures
            n == self.fieldnames().len(),
    {
        self.names.len()
    }
}

impl<V: DbValue> DeserializableResultset for Resultset<V> {
    type ROW = Row<V>;

    open spec fn rows(&self) -> Seq<RowContent<V>> {
        Seq::new(
            self.table().len(),
            |i: int| RowContent { cells: self.table()[i], names: self.fieldnames() },
        )
    }

    fn next_row(&mut self) -> (row: Option<Row<V>>) {
        match self.rows.pop_front() {
            None => None,
            Some(values) => Some(Row { names: copy_names(&self.names), values }),
        }
    }
}

} // verus!
