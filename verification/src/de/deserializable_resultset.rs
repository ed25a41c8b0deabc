//! The resultset visitor: a whole table, brought into one row shape or into
//! a sequence of them.

use super::collect::{collected, lemma_collected_err, lemma_collected_ok};
use super::db_value::DbValue;
use super::deserializable_row::{typed_row, DeserializableRow};
use super::deserialization_error::{DeserError, DeserResult};
use super::shape::{RowShape, Shape, Typed, TypedRow, TypedRowView, TypedView};
use vstd::prelude::*;

verus! {

/// What a conversion reads of a row: its values, and the names of its
/// columns.
pub struct RowContent<V> {
    pub cells: Seq<V>,
    pub names: Seq<String>,
}

/// The content of a row that has not been touched yet.
pub open spec fn content_of<R: DeserializableRow>(row: R) -> RowContent<R::V> {
    RowContent { cells: row.values(), names: row.fieldnames() }
}

/// The outcomes of the rows, one by one, each brought into `shape`.
pub open spec fn row_results<V: DbValue>(rows: Seq<RowContent<V>>, shape: RowShape) -> Seq<
    DeserResult<TypedRowView>,
> {
    Seq::new(rows.len(), |i: int| typed_row(rows[i].cells, rows[i].names, shape))
}

/// The outcome of bringing a table into `shape`.
///
/// Whether one row is expected or any number is decided by the shape alone.
/// A single row shape needs exactly one row, which is then converted; a
/// sequence has one element per row, in order, and fails as its first
/// failing row does.
pub open spec fn typed<V: DbValue>(rows: Seq<RowContent<V>>, shape: Shape) -> DeserResult<
    TypedView,
> {
    match shape {
        Shape::Single(row_shape) => if rows.len() == 1 {
            match typed_row(rows[0].cells, rows[0].names, row_shape) {
                Ok(row) => Ok(TypedView::Single(row)),
                Err(e) => Err(e),
            }
        } else {
            Err(DeserError::WrongArity)
        },
        Shape::Sequence(row_shape) => match collected(row_results(rows, row_shape)) {
            Ok(rows) => Ok(TypedView::Sequence(rows)),
            Err(e) => Err(e),
        },
    }
}

/// An outcome with its success seen through the view.
pub open spec fn outcome(r: DeserResult<Typed>) -> DeserResult<TypedView> {
    match r {
        Ok(t) => Ok(t@),
        Err(e) => Err(e),
    }
}

/// A minimal interface for the resultset type of a driver, and the
/// conversion of a resultset that rests on it.
///
/// The rows are taken in order and each is taken once, so a resultset that
/// fetches its rows while it is walked serves as well as one held in memory.
pub trait DeserializableResultset: Sized {
    /// The row type used by the database driver.
    type ROW: DeserializableRow;

    /// The rows that are still to come, in order.
    spec fn rows(&self) -> Seq<RowContent<<Self::ROW as DeserializableRow>::V>>;

    /// Removes and returns the next row.
    fn next_row(&mut self) -> (row: Option<Self::ROW>)
        ensures
            old(self).rows().len() == 0 ==> row is None && final(self).rows() == old(self).rows(),
            old(self).rows().len() > 0 ==> row is Some
                && content_of(row->Some_0) == old(self).rows().first()
                && final(self).rows() == old(self).rows().drop_first(),
    ;

    /// The row of a resultset of exactly one row; an arity error for a
    /// resultset of any other length. The first row is never taken for the
    /// whole.
    fn sole_row(self) -> (r: DeserResult<Self::ROW>)
        ensures
            self.rows().len() == 1 ==> r is Ok && content_of(r->Ok_0) == self.rows()[0],
            self.rows().len() != 1 ==> r is Err && r->Err_0 == DeserError::WrongArity,
    {
        let mut resultset = self;
        match resultset.next_row() {
            None => Err(DeserError::WrongArity),
            Some(row) => match resultset.next_row() {
                Some(_) => Err(DeserError::WrongArity),
                None => Ok(row),
            },
        }
    }

    /// Converts the resultset into the given shape.
    fn into_typed(self, shape: &Shape) -> (r: DeserResult<Typed>)
        ensures
            outcome(r) == typed(self.rows(), *shape),
    {
        let mut resultset = self;
        match shape {
            Shape::Single(row_shape) => match resultset.sole_row() {
                Err(e) => Err(e),
                Ok(row) => match row.into_typed(row_shape) {
                    Ok(typed_row) => Ok(Typed::Single(typed_row)),
                    Err(e) => Err(e),
                },
            },
            Shape::Sequence(row_shape) => {
                let ghost rows = resultset.rows();
                let ghost results = row_results(rows, *row_shape);
                let mut out: Vec<TypedRow> = Vec::new();
                loop
                    invariant
                        rows == self.rows(),
                        *shape == Shape::Sequence(*row_shape),
                        results == row_results(rows, *row_shape),
                        out.len() <= rows.len(),
                        resultset.rows() == rows.skip(out.len() as int),
                        forall|j: int|
                            0 <= j < out.len() ==> (#[trigger] results[j]) == Ok::<
                                TypedRowView,
                                DeserError,
                            >(out[j]@),
                    decreases resultset.rows().len(),
                {
                    let ghost i = out.len() as int;
                    match resultset.next_row() {
                        None => {
                            proof {
                                lemma_collected_ok(results);
                                assert(collected(results)->Ok_0 =~= out@.map_values(
                                    |row: TypedRow| row@,
                                ));
                            }
                            return Ok(Typed::Sequence(out));
                        },
                        Some(row) => match row.into_typed(row_shape) {
                            Err(e) => {
                                proof {
                                    lemma_collected_err(results, i);
                                }
                                return Err(e);
                            },
                            Ok(typed_row) => {
                                out.push(typed_row);
                            },
                        },
                    }
                }
            },
        }
    }
}

} // verus!
