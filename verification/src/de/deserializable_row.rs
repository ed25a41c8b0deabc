//! The row visitor: one row, brought into a scalar, a tuple or a record.

use super::collect::{collected, lemma_collected_err, lemma_collected_ok};
use super::db_value::DbValue;
use super::deserialization_error::{DeserError, DeserResult};
use super::field_visitor::{visited, FieldVisitor};
use super::scalar::ScalarType;
use super::shape::{Field, FieldShape, RowShape, TypedRow, TypedRowView};
use vstd::prelude::*;

verus! {

/// The names of the columns that can be asked for: a column needs a name
/// and a value, so a row of `width` values has at most `width` of them.
pub open spec fn addressable(names: Seq<String>, width: nat) -> Seq<String> {
    if names.len() <= width {
        names
    } else {
        names.take(width as int)
    }
}

/// Whether `c` is the first position at which `names` holds `name`.
pub open spec fn is_column(names: Seq<String>, name: Seq<char>, c: int) -> bool {
    &&& 0 <= c < names.len()
    &&& names[c]@ == name
    &&& forall|j: int| 0 <= j < c ==> (#[trigger] names[j])@ != name
}

/// Whether `names` holds `name`.
pub open spec fn has_column(names: Seq<String>, name: Seq<char>) -> bool {
    exists|c: int| is_column(names, name, c)
}

/// The first position at which `names` holds `name`, where it holds it.
pub open spec fn column_of(names: Seq<String>, name: Seq<char>) -> int {
    choose|c: int| is_column(names, name, c)
}

/// A name has one first position only.
pub proof fn lemma_column_unique(names: Seq<String>, name: Seq<char>, c: int)
    requires
        is_column(names, name, c),
    ensures
        has_column(names, name),
        column_of(names, name) == c,
{
}

/// The outcome of bringing a row into a single scalar: the row must have
/// exactly one column.
pub open spec fn single_of<V: DbValue>(cells: Seq<V>, ty: ScalarType) -> DeserResult<Field> {
    if cells.len() == 1 {
        visited(cells[0], ty)
    } else {
        Err(DeserError::WrongArity)
    }
}

/// The outcomes of the elements of a tuple, one by one: the value of the
/// column converted, or an arity error where the row has no such column.
pub open spec fn tuple_results<V: DbValue>(cells: Seq<V>, types: Seq<ScalarType>) -> Seq<
    DeserResult<Field>,
> {
    Seq::new(
        types.len(),
        |i: int|
            if i < cells.len() {
                visited(cells[i], types[i])
            } else {
                Err(DeserError::WrongArity)
            },
    )
}

/// The outcome of bringing a row into a tuple: the first failure among the
/// elements; else an arity error if columns are left over; else the elements.
pub open spec fn tuple_of<V: DbValue>(cells: Seq<V>, types: Seq<ScalarType>) -> DeserResult<
    Seq<Field>,
> {
    match collected(tuple_results(cells, types)) {
        Ok(fields) => if cells.len() > types.len() {
            Err(DeserError::WrongArity)
        } else {
            Ok(fields)
        },
        Err(e) => Err(e),
    }
}

/// Whether an earlier field of the record has the name of field `k`.
pub open spec fn declared_before(fields: Seq<FieldShape>, k: int) -> bool {
    exists|j: int| 0 <= j < k && (#[trigger] fields[j]).name@ == fields[k].name@
}

/// The outcome of field `k` of a record: the value of the column of that
/// name, converted. A name that no column has is an unknown column; a name
/// that an earlier field has already claimed makes the shape unsupported.
pub open spec fn record_field<V: DbValue>(
    cells: Seq<V>,
    names: Seq<String>,
    fields: Seq<FieldShape>,
    k: int,
) -> DeserResult<Field> {
    let columns = addressable(names, cells.len());
    if !has_column(columns, fields[k].name@) {
        Err(DeserError::UnknownColumn(fields[k].name))
    } else if declared_before(fields, k) {
        Err(DeserError::UnsupportedShape)
    } else {
        visited(cells[column_of(columns, fields[k].name@)], fields[k].ty)
    }
}

/// The outcomes of the fields of a record, one by one.
pub open spec fn record_results<V: DbValue>(
    cells: Seq<V>,
    names: Seq<String>,
    fields: Seq<FieldShape>,
) -> Seq<DeserResult<Field>> {
    Seq::new(fields.len(), |k: int| record_field(cells, names, fields, k))
}

/// The outcome of bringing a row into a record: the first failure among the
/// fields, else the fields in declared order. Columns that no field names
/// are ignored.
pub open spec fn record_of<V: DbValue>(
    cells: Seq<V>,
    names: Seq<String>,
    fields: Seq<FieldShape>,
) -> DeserResult<Seq<Field>> {
    collected(record_results(cells, names, fields))
}

/// The outcome of bringing the row of the given cells and column names into
/// `shape`.
pub open spec fn typed_row<V: DbValue>(cells: Seq<V>, names: Seq<String>, shape: RowShape)
    -> DeserResult<TypedRowView> {
    match shape {
        RowShape::Scalar(ty) => match single_of(cells, ty) {
            Ok(field) => Ok(TypedRowView::Scalar(field)),
            Err(e) => Err(e),
        },
        RowShape::Tuple(types) => match tuple_of(cells, types@) {
            Ok(fields) => Ok(TypedRowView::Tuple(fields)),
            Err(e) => Err(e),
        },
        RowShape::Record(fields) => match record_of(cells, names, fields@) {
            Ok(fields) => Ok(TypedRowView::Record(fields)),
            Err(e) => Err(e),
        },
        RowShape::Mapping => Err(DeserError::UnsupportedShape),
    }
}

/// An outcome with its success seen through the view.
pub open spec fn row_outcome(r: DeserResult<TypedRow>) -> DeserResult<TypedRowView> {
    match r {
        Ok(row) => Ok(row@),
        Err(e) => Err(e),
    }
}

/// An outcome with its success seen through the view.
pub open spec fn fields_outcome(r: DeserResult<Vec<Field>>) -> DeserResult<Seq<Field>> {
    match r {
        Ok(fields) => Ok(fields@),
        Err(e) => Err(e),
    }
}

/// A minimal interface for the row type of a driver, and the conversions
/// of a row that rest on it.
///
/// The values are consumed from the end, so a conversion first reverses
/// them: the first `pop` then yields the first column.
pub trait DeserializableRow: Sized {
    /// The value type used by the database driver.
    type V: DbValue;

    /// The values that the row still holds, in their present order.
    spec fn values(&self) -> Seq<Self::V>;

    /// The names of the columns, by position.
    spec fn fieldnames(&self) -> Seq<String>;

    /// Returns the length of the row.
    fn len(&self) -> (n: usize)
        ensures
            n == self.values().len(),
    ;

    /// Removes and returns the last value.
    fn pop(&mut self) -> (value: Option<Self::V>)
        ensures
            final(self).fieldnames() == old(self).fieldnames(),
            old(self).values().len() == 0 ==> value is None
                && final(self).values() == old(self).values(),
            old(self).values().len() > 0 ==> value == Some(old(self).values().last())
                && final(self).values() == old(self).values().drop_last(),
    ;

    /// Returns a reference to the last value.
    fn last(&self) -> (value: Option<&Self::V>)
        ensures
            self.values().len() == 0 ==> value is None,
            self.values().len() > 0 ==> value == Some(&self.values().last()),
    ;

    /// Returns the name of the column at the specified index.
    fn get_fieldname(&self, field_idx: usize) -> (name: Option<&String>)
        ensures
            field_idx < self.fieldnames().len() ==> name == Some(
                &self.fieldnames()[field_idx as int],
            ),
            field_idx >= self.fieldnames().len() ==> name is None,
    ;

    /// Reverses the order of the values.
    fn reverse_values(&mut self)
        ensures
            final(self).fieldnames() == old(self).fieldnames(),
            final(self).values() == old(self).values().reverse(),
    ;

    /// Finds the column of the given name: the first position that holds the
    /// name and a value.
    fn column_index(&self, name: &String) -> (r: Option<usize>)
        ensures
            match r {
                Some(c) => is_column(
                    addressable(self.fieldnames(), self.values().len()),
                    name@,
                    c as int,
                ),
                None => !has_column(addressable(self.fieldnames(), self.values().len()), name@),
            },
    {
        let n = self.len();
        let ghost columns = addressable(self.fieldnames(), self.values().len());
        let mut i: usize = 0;
        while i < n
            invariant
                i <= n,
                n == self.values().len(),
                columns == addressable(self.fieldnames(), self.values().len()),
                i <= columns.len(),
                forall|j: int| 0 <= j < i ==> (#[trigger] columns[j])@ != name@,
            decreases n - i,
        {
            match self.get_fieldname(i) {
                None => {
                    return None;
                },
                Some(column) => {
                    if *column == *name {
                        return Some(i);
                    }
                },
            }
            i = i + 1;
        }
        None
    }

    /// The name of the column whose value is the next to be removed, in a
    /// row that had `width` values in column order before they were
    /// reversed; none if no value is left, or none that has a name.
    fn next_fieldname(&self, width: usize) -> (name: Option<&String>)
        ensures
            ({
                let position = width - self.values().len();
                if 0 < self.values().len() <= width && position < self.fieldnames().len() {
                    name == Some(&self.fieldnames()[position])
                } else {
                    name is None
                }
            }),
    {
        let left = self.len();
        if left == 0 || left > width {
            None
        } else {
            self.get_fieldname(width - left)
        }
    }

    /// Removes and returns the last value; an arity error if none is left.
    fn next_value(&mut self) -> (r: DeserResult<Self::V>)
        ensures
            final(self).fieldnames() == old(self).fieldnames(),
            old(self).values().len() == 0 ==> r == Err::<Self::V, DeserError>(
                DeserError::WrongArity,
            ) && final(self).values() == old(self).values(),
            old(self).values().len() > 0 ==> r == Ok::<Self::V, DeserError>(
                old(self).values().last(),
            ) && final(self).values() == old(self).values().drop_last(),
    {
        match self.pop() {
            Some(value) => Ok(value),
            None => Err(DeserError::WrongArity),
        }
    }

    /// Accepts a row that has no value left; an arity error for any other.
    fn expect_end(&self) -> (r: DeserResult<()>)
        ensures
            self.values().len() == 0 ==> r is Ok,
            self.values().len() > 0 ==> r == Err::<(), DeserError>(DeserError::WrongArity),
    {
        if self.len() > 0 {
            Err(DeserError::WrongArity)
        } else {
            Ok(())
        }
    }

    /// Whether the value of a row of exactly one column is NULL; an arity
    /// error for a row of any other width. The row keeps its value.
    fn sole_is_null(&self) -> (r: DeserResult<bool>)
        ensures
            self.values().len() == 1 ==> r == Ok::<bool, DeserError>(self.values()[0].null()),
            self.values().len() != 1 ==> r == Err::<bool, DeserError>(DeserError::WrongArity),
    {
        if self.len() != 1 {
            return Err(DeserError::WrongArity);
        }
        match self.last() {
            Some(value) => Ok(value.is_null()),
            None => Err(DeserError::WrongArity),
        }
    }

    /// The value of a row of exactly one column; an arity error for a row of
    /// any other width.
    fn sole_value(self) -> (r: DeserResult<Self::V>)
        ensures
            self.values().len() == 1 ==> r == Ok::<Self::V, DeserError>(self.values()[0]),
            self.values().len() != 1 ==> r == Err::<Self::V, DeserError>(DeserError::WrongArity),
    {
        let mut row = self;
        if row.len() != 1 {
            return Err(DeserError::WrongArity);
        }
        row.next_value()
    }

    /// Converts a row of exactly one column into a scalar.
    fn into_scalar(self, ty: ScalarType) -> (r: DeserResult<Field>)
        ensures
            r == single_of(self.values(), ty),
    {
        match self.sole_value() {
            Ok(value) => FieldVisitor::new(value).visit(ty),
            Err(e) => Err(e),
        }
    }

    /// Converts the row into a tuple with one element per column.
    fn into_tuple(self, types: &Vec<ScalarType>) -> (r: DeserResult<Vec<Field>>)
        ensures
            fields_outcome(r) == tuple_of(self.values(), types@),
    {
        let mut row = self;
        let ghost cells = row.values();
        let ghost results = tuple_results(cells, types@);
        row.reverse_values();
        let mut out: Vec<Field> = Vec::new();
        let mut i: usize = 0;
        while i < types.len()
            invariant
                i <= types.len(),
                i <= cells.len(),
                cells == self.values(),
                results == tuple_results(cells, types@),
                row.values() == cells.reverse().take(cells.len() - i),
                out.len() == i,
                forall|j: int|
                    0 <= j < i ==> (#[trigger] results[j]) == Ok::<Field, DeserError>(out[j]),
            decreases types.len() - i,
        {
            let visitor = match row.next_value() {
                Ok(value) => FieldVisitor::new(value),
                Err(e) => {
                    proof {
                        lemma_collected_err(results, i as int);
                    }
                    return Err(e);
                },
            };
            match visitor.visit(types[i]) {
                Ok(field) => {
                    out.push(field);
                },
                Err(e) => {
                    proof {
                        lemma_collected_err(results, i as int);
                    }
                    return Err(e);
                },
            }
            i = i + 1;
        }
        proof {
            lemma_collected_ok(results);
            assert(collected(results)->Ok_0 =~= out@);
        }
        match row.expect_end() {
            Ok(_) => Ok(out),
            Err(e) => Err(e),
        }
    }

    /// Converts the row into a record: each field gets the value of the
    /// column that has its name.
    fn into_record(self, fields: &Vec<FieldShape>) -> (r: DeserResult<Vec<Field>>)
        ensures
            fields_outcome(r) == record_of(self.values(), self.fieldnames(), fields@),
    {
        let mut row = self;
        let ghost cells = row.values();
        let ghost names = row.fieldnames();
        let ghost columns = addressable(names, cells.len());
        let ghost results = record_results(cells, names, fields@);
        let n = row.len();
        // Where each field is found, while the row still has its values.
        let mut found: Vec<Option<usize>> = Vec::new();
        let mut k: usize = 0;
        while k < fields.len()
            invariant
                k <= fields.len(),
                found.len() == k,
                row.values() == cells,
                row.fieldnames() == names,
                columns == addressable(names, cells.len()),
                forall|j: int|
                    0 <= j < k ==> match #[trigger] found[j] {
                        Some(c) => is_column(columns, fields[j].name@, c as int),
                        None => !has_column(columns, fields[j].name@),
                    },
            decreases fields.len() - k,
        {
            let c = row.column_index(&fields[k].name);
            found.push(c);
            k = k + 1;
        }
        // The values, in column order, each to be taken once.
        row.reverse_values();
        let mut slots: Vec<Option<Self::V>> = Vec::new();
        let mut i: usize = 0;
        while i < n
            invariant
                i <= n,
                n == cells.len(),
                row.values() == cells.reverse().take(n - i),
                slots.len() == i,
                forall|c: int| 0 <= c < i ==> (#[trigger] slots[c]) == Some(cells[c]),
            decreases n - i,
        {
            match row.pop() {
                Some(value) => {
                    slots.push(Some(value));
                },
                None => {},
            }
            i = i + 1;
        }
        let mut out: Vec<Field> = Vec::new();
        let mut k: usize = 0;
        while k < fields.len()
            invariant
                k <= fields.len(),
                n == cells.len(),
                found.len() == fields.len(),
                slots.len() == n,
                out.len() == k,
                cells == self.values(),
                names == self.fieldnames(),
                columns == addressable(names, cells.len()),
                results == record_results(cells, names, fields@),
                forall|j: int|
                    0 <= j < fields.len() ==> match #[trigger] found[j] {
                        Some(c) => is_column(columns, fields[j].name@, c as int),
                        None => !has_column(columns, fields[j].name@),
                    },
                forall|c: int|
                    0 <= c < n ==> (#[trigger] slots[c]) is None || slots[c] == Some(cells[c]),
                forall|c: int|
                    0 <= c < n && (#[trigger] slots[c]) is None ==> c < columns.len() && exists|
                        j: int,
                    | 0 <= j < k && (#[trigger] fields[j]).name@ == columns[c]@,
                forall|j: int|
                    0 <= j < k ==> (#[trigger] found[j]) is Some
                        && slots[found[j]->Some_0 as int] is None,
                forall|j: int|
                    0 <= j < k ==> (#[trigger] results[j]) == Ok::<Field, DeserError>(out[j]),
            decreases fields.len() - k,
        {
            let ghost name = fields[k as int].name@;
            match found[k] {
                None => {
                    proof {
                        lemma_collected_err(results, k as int);
                    }
                    return Err(DeserError::UnknownColumn(fields[k].name.clone()));
                },
                Some(c) => {
                    proof {
                        lemma_column_unique(columns, name, c as int);
                    }
                    slots.push(None);
                    let cell = slots.swap_remove(c);
                    match cell {
                        None => {
                            proof {
                                lemma_collected_err(results, k as int);
                            }
                            return Err(DeserError::UnsupportedShape);
                        },
                        Some(value) => {
                            proof {
                                // An earlier field of this name would have
                                // taken the value.
                                if declared_before(fields@, k as int) {
                                    let j = choose|j: int|
                                        0 <= j < k && (#[trigger] fields@[j]).name@ == name;
                                    lemma_column_unique(
                                        columns,
                                        fields[j].name@,
                                        found[j]->Some_0 as int,
                                    );
                                }
                            }
                            match FieldVisitor::new(value).visit(fields[k].ty) {
                                Err(e) => {
                                    proof {
                                        lemma_collected_err(results, k as int);
                                    }
                                    return Err(e);
                                },
                                Ok(field) => {
                                    out.push(field);
                                },
                            }
                        },
                    }
                },
            }
            k = k + 1;
        }
        proof {
            lemma_collected_ok(results);
            assert(collected(results)->Ok_0 =~= out@);
        }
        Ok(out)
    }

    /// Converts the row into the given shape.
    fn into_typed(self, shape: &RowShape) -> (r: DeserResult<TypedRow>)
        ensures
            row_outcome(r) == typed_row(self.values(), self.fieldnames(), *shape),
    {
        match shape {
            RowShape::Scalar(ty) => match self.into_scalar(*ty) {
                Ok(field) => Ok(TypedRow::Scalar(field)),
                Err(e) => Err(e),
            },
            RowShape::Tuple(types) => match self.into_tuple(types) {
                Ok(fields) => Ok(TypedRow::Tuple(fields)),
                Err(e) => Err(e),
            },
            RowShape::Record(fields) => match self.into_record(fields) {
                Ok(fields) => Ok(TypedRow::Record(fields)),
                Err(e) => Err(e),
            },
            RowShape::Mapping => Err(DeserError::UnsupportedShape),
        }
    }
}

} // verus!
