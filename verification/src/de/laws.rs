//! What holds of the conversions, whatever the table and whatever the driver.

use super::collect::{
    all_ok,
    is_first_error,
    lemma_collected_err,
    lemma_collected_ok,
    lemma_some_first_error,
    values_of,
};
use super::conversion_error::ConversionError;
use super::db_value::{field_of, DbValue};
use super::deserializable_resultset::{row_results, typed, RowContent};
use super::deserializable_row::{
    addressable,
    column_of,
    declared_before,
    has_column,
    lemma_column_unique,
    record_results,
    tuple_results,
    typed_row,
};
use super::deserialization_error::{DeserError, DeserResult};
use super::field_visitor::visited;
use super::scalar::{ScalarKind, ScalarType};
use super::shape::{Field, FieldShape, RowShape, Shape, TypedRowView, TypedView};
use vstd::prelude::*;

verus! {

/// Whether the rows form a table under the given column names: every row
/// has these names, and one value for each.
pub open spec fn is_table<V>(rows: Seq<RowContent<V>>, names: Seq<String>) -> bool {
    forall|i: int|
        0 <= i < rows.len() ==> (#[trigger] rows[i]).names == names && rows[i].cells.len()
            == names.len()
}

/// Whether every field has the name of a column.
pub open spec fn fields_among(fields: Seq<FieldShape>, names: Seq<String>) -> bool {
    forall|k: int| 0 <= k < fields.len() ==> has_column(names, (#[trigger] fields[k]).name@)
}

/// Whether no two fields have the same name.
pub open spec fn fields_distinct(fields: Seq<FieldShape>) -> bool {
    forall|j: int, k: int|
        0 <= j < k < fields.len() ==> (#[trigger] fields[j]).name@ != (#[trigger] fields[k]).name@
}

/// What the field visitor alone makes of the cell of row `i` that stands
/// under the column of the name of field `k`.
pub open spec fn field_alone<V: DbValue>(
    rows: Seq<RowContent<V>>,
    names: Seq<String>,
    fields: Seq<FieldShape>,
    i: int,
    k: int,
) -> DeserResult<Field> {
    visited(rows[i].cells[column_of(names, fields[k].name@)], fields[k].ty)
}

/// In a row that has a value for each column name, each field of a record
/// of distinct fields, all named after columns, fares as its cell does.
proof fn lemma_record_fields<V: DbValue>(
    cells: Seq<V>,
    names: Seq<String>,
    fields: Seq<FieldShape>,
)
    requires
        cells.len() == names.len(),
        fields_among(fields, names),
        fields_distinct(fields),
    ensures
        record_results(cells, names, fields).len() == fields.len(),
        forall|k: int|
            0 <= k < fields.len() ==> (#[trigger] record_results(cells, names, fields)[k])
                == visited(cells[column_of(names, fields[k].name@)], fields[k].ty),
{
    assert(addressable(names, cells.len()) == names);
    assert forall|k: int| 0 <= k < fields.len() implies (#[trigger] record_results(
        cells,
        names,
        fields,
    )[k]) == visited(cells[column_of(names, fields[k].name@)], fields[k].ty) by {
        assert(has_column(names, fields[k].name@));
        assert(!declared_before(fields, k));
    }
}

/// A sequence of records has one record for each row, and each field of
/// each record holds what the field visitor alone makes of the cell under
/// the column of that name. The conversion succeeds where the field visitor
/// accepts every such cell, and nowhere else.
pub proof fn law_records_follow_columns<V: DbValue>(
    rows: Seq<RowContent<V>>,
    names: Seq<String>,
    fields: Vec<FieldShape>,
)
    requires
        is_table(rows, names),
        fields_among(fields@, names),
        fields_distinct(fields@),
    ensures
        typed(rows, Shape::Sequence(RowShape::Record(fields))) is Ok <==> forall|i: int, k: int|
            0 <= i < rows.len() && 0 <= k < fields.len() ==> (#[trigger] field_alone(
                rows,
                names,
                fields@,
                i,
                k,
            )) is Ok,
        typed(rows, Shape::Sequence(RowShape::Record(fields))) matches Ok(t) ==> {
            &&& t is Sequence
            &&& t->Sequence_0.len() == rows.len()
            &&& forall|i: int|
                0 <= i < rows.len() ==> {
                    &&& (#[trigger] t->Sequence_0[i]) is Record
                    &&& t->Sequence_0[i]->Record_0.len() == fields.len()
                }
            &&& forall|i: int, k: int|
                0 <= i < rows.len() && 0 <= k < fields.len() ==> (#[trigger] field_alone(
                    rows,
                    names,
                    fields@,
                    i,
                    k,
                )) == Ok::<Field, DeserError>(t->Sequence_0[i]->Record_0[k])
        },
{
    let shape = RowShape::Record(fields);
    let results = row_results(rows, shape);
    assert forall|i: int| 0 <= i < rows.len() implies {
        &&& (#[trigger] results[i]) is Ok <==> forall|k: int|
            0 <= k < fields.len() ==> (#[trigger] field_alone(rows, names, fields@, i, k)) is Ok
        &&& results[i] matches Ok(row) ==> {
            &&& row is Record
            &&& row->Record_0.len() == fields.len()
            &&& forall|k: int|
                0 <= k < fields.len() ==> (#[trigger] field_alone(rows, names, fields@, i, k))
                    == Ok::<Field, DeserError>(row->Record_0[k])
        }
    } by {
        let cells = rows[i].cells;
        let per_field = record_results(cells, names, fields@);
        lemma_record_fields(cells, names, fields@);
        lemma_collected_ok(per_field);
        assert(results[i] == typed_row(cells, names, shape));
        if all_ok(per_field) {
            assert forall|k: int| 0 <= k < fields.len() implies (#[trigger] field_alone(
                rows,
                names,
                fields@,
                i,
                k,
            )) == Ok::<Field, DeserError>(values_of(per_field)[k]) by {
                assert(per_field[k] is Ok);
            }
        } else {
            let k = lemma_some_first_error(per_field);
            assert(field_alone(rows, names, fields@, i, k) is Err);
        }
        if forall|k: int|
            0 <= k < fields.len() ==> (#[trigger] field_alone(rows, names, fields@, i, k)) is Ok {
            assert forall|k: int| 0 <= k < per_field.len() implies (#[trigger] per_field[k])
                is Ok by {
                assert(field_alone(rows, names, fields@, i, k) is Ok);
            }
        }
    }
    lemma_collected_ok(results);
    if all_ok(results) {
        assert forall|i: int, k: int|
            0 <= i < rows.len() && 0 <= k < fields.len() implies (#[trigger] field_alone(
            rows,
            names,
            fields@,
            i,
            k,
        )) is Ok by {
            assert(results[i] is Ok);
        }
        let t = typed(rows, Shape::Sequence(shape))->Ok_0;
        assert forall|i: int| 0 <= i < rows.len() implies {
            &&& (#[trigger] t->Sequence_0[i]) is Record
            &&& t->Sequence_0[i]->Record_0.len() == fields.len()
        } by {
            assert(results[i] is Ok);
        }
        assert forall|i: int, k: int|
            0 <= i < rows.len() && 0 <= k < fields.len() implies (#[trigger] field_alone(
            rows,
            names,
            fields@,
            i,
            k,
        )) == Ok::<Field, DeserError>(t->Sequence_0[i]->Record_0[k]) by {
            assert(results[i] is Ok);
        }
    } else {
        let i = lemma_some_first_error(results);
        assert(results[i] is Err);
    }
}

/// A resultset of exactly one row fares as a single row shape just as it
/// fares as a sequence of that shape: the same error, or the one element of
/// the sequence.
pub proof fn law_single_is_sole_element<V: DbValue>(rows: Seq<RowContent<V>>, shape: RowShape)
    requires
        rows.len() == 1,
    ensures
        typed(rows, Shape::Single(shape)) == match typed(rows, Shape::Sequence(shape)) {
            Ok(t) => Ok::<TypedView, DeserError>(TypedView::Single(t->Sequence_0[0])),
            Err(e) => Err::<TypedView, DeserError>(e),
        },
        typed(rows, Shape::Sequence(shape)) matches Ok(t) ==> t is Sequence && t->Sequence_0.len()
            == 1,
{
    let results = row_results(rows, shape);
    lemma_collected_ok(results);
    if results[0] is Err {
        lemma_collected_err(results, 0);
    } else {
        assert(all_ok(results));
    }
}

/// A resultset of no row or of several is never taken for a single row:
/// whatever the row shape, asking for it bare is an arity error.
pub proof fn law_single_needs_one_row<V: DbValue>(rows: Seq<RowContent<V>>, shape: RowShape)
    requires
        rows.len() != 1,
    ensures
        typed(rows, Shape::Single(shape)) == Err::<TypedView, DeserError>(DeserError::WrongArity),
{
}

/// A resultset of no row is the empty sequence of any row shape.
pub proof fn law_no_rows_is_empty_sequence<V: DbValue>(rows: Seq<RowContent<V>>, shape: RowShape)
    requires
        rows.len() == 0,
    ensures
        typed(rows, Shape::Sequence(shape)) == Ok::<TypedView, DeserError>(
            TypedView::Sequence(Seq::empty()),
        ),
{
    let results = row_results(rows, shape);
    lemma_collected_ok(results);
    assert(values_of(results) =~= Seq::<TypedRowView>::empty());
}

/// Over a table of one column, a sequence of scalars and a sequence of
/// records of one field, named after the column, agree: they fail with the
/// same error, or they hold the same cells, row by row.
pub proof fn law_scalars_agree_with_one_field_records<V: DbValue>(
    rows: Seq<RowContent<V>>,
    names: Seq<String>,
    ty: ScalarType,
    fields: Vec<FieldShape>,
)
    requires
        is_table(rows, names),
        names.len() == 1,
        fields.len() == 1,
        fields[0].name@ == names[0]@,
        fields[0].ty == ty,
    ensures
        match typed(rows, Shape::Sequence(RowShape::Scalar(ty))) {
            Err(e) => typed(rows, Shape::Sequence(RowShape::Record(fields))) == Err::<
                TypedView,
                DeserError,
            >(e),
            Ok(scalars) => {
                &&& typed(rows, Shape::Sequence(RowShape::Record(fields))) matches Ok(records)
                &&& scalars is Sequence
                &&& records is Sequence
                &&& scalars->Sequence_0.len() == rows.len()
                &&& records->Sequence_0.len() == rows.len()
                &&& forall|i: int|
                    0 <= i < rows.len() ==> {
                        &&& (#[trigger] scalars->Sequence_0[i]) is Scalar
                        &&& records->Sequence_0[i] == TypedRowView::Record(
                            seq![scalars->Sequence_0[i]->Scalar_0],
                        )
                    }
            },
        },
{
    let as_scalar = row_results(rows, RowShape::Scalar(ty));
    let as_record = row_results(rows, RowShape::Record(fields));
    assert forall|i: int| 0 <= i < rows.len() implies match #[trigger] as_scalar[i] {
        Err(e) => as_record[i] == Err::<TypedRowView, DeserError>(e),
        Ok(row) => row is Scalar && as_record[i] == Ok::<TypedRowView, DeserError>(
            TypedRowView::Record(seq![row->Scalar_0]),
        ),
    } by {
        let cells = rows[i].cells;
        let per_field = record_results(cells, names, fields@);
        lemma_column_unique(names, fields[0].name@, 0);
        assert(addressable(names, cells.len()) == names);
        assert(!declared_before(fields@, 0));
        assert(per_field[0] == visited(cells[0], ty));
        lemma_collected_ok(per_field);
        if per_field[0] is Err {
            lemma_collected_err(per_field, 0);
        } else {
            assert(all_ok(per_field));
            assert(values_of(per_field) =~= seq![per_field[0]->Ok_0]);
        }
    }
    lemma_collected_ok(as_scalar);
    lemma_collected_ok(as_record);
    if all_ok(as_scalar) {
        assert forall|i: int| 0 <= i < as_record.len() implies (#[trigger] as_record[i]) is Ok by {
            assert(as_scalar[i] is Ok);
        }
        let scalars = values_of(as_scalar);
        let records = values_of(as_record);
        assert forall|i: int| 0 <= i < rows.len() implies {
            &&& (#[trigger] scalars[i]) is Scalar
            &&& records[i] == TypedRowView::Record(seq![scalars[i]->Scalar_0])
        } by {
            assert(as_scalar[i] is Ok);
        }
    } else {
        let i = lemma_some_first_error(as_scalar);
        assert forall|j: int| 0 <= j < i implies (#[trigger] as_record[j]) is Ok by {
            assert(as_scalar[j] is Ok);
        }
        assert(is_first_error(as_record, i));
        lemma_collected_err(as_scalar, i);
        lemma_collected_err(as_record, i);
    }
}

/// NULL is an error for a target that has to be present, and the empty
/// state of the same target made optional, whatever the kind and whatever
/// the driver's value type.
pub proof fn law_null_needs_optional_target<V: DbValue>(value: V, kind: ScalarKind)
    requires
        value.null(),
    ensures
        field_of(value, ScalarType { kind, optional: false }) == Err::<Field, ConversionError>(
            ConversionError::UnexpectedNull,
        ),
        field_of(value, ScalarType { kind, optional: true }) == Ok::<Field, ConversionError>(None),
        visited(value, ScalarType { kind, optional: false }) == Err::<Field, DeserError>(
            DeserError::Conversion(ConversionError::UnexpectedNull),
        ),
        visited(value, ScalarType { kind, optional: true }) == Ok::<Field, DeserError>(None),
{
}

/// The elements of a tuple that came out of a table of one row are what the
/// field visitor alone makes of the values of the row, asked one by one for
/// the types of the tuple, in the same order; and the row has as many values
/// as the tuple has elements.
pub proof fn law_tuple_round_trip<V: DbValue>(rows: Seq<RowContent<V>>, types: Vec<ScalarType>)
    requires
        rows.len() == 1,
        typed(rows, Shape::Single(RowShape::Tuple(types))) is Ok,
    ensures
        typed(rows, Shape::Single(RowShape::Tuple(types))) matches Ok(t) && {
            &&& t is Single
            &&& t->Single_0 is Tuple
            &&& t->Single_0->Tuple_0.len() == types.len()
            &&& rows[0].cells.len() == types.len()
            &&& forall|i: int|
                0 <= i < types.len() ==> visited(rows[0].cells[i], #[trigger] types[i]) == Ok::<
                    Field,
                    DeserError,
                >(t->Single_0->Tuple_0[i])
        },
{
    let cells = rows[0].cells;
    let results = tuple_results(cells, types@);
    lemma_collected_ok(results);
    assert(all_ok(results));
    if cells.len() < types.len() {
        assert(results[cells.len() as int] is Err);
    }
    assert forall|i: int| 0 <= i < types.len() implies visited(cells[i], #[trigger] types[i])
        == Ok::<Field, DeserError>(values_of(results)[i]) by {
        assert(results[i] is Ok);
    }
}

} // verus!
