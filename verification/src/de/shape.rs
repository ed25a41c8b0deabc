//! Target shapes, and the typed values that a conversion produces.

use super::scalar::{Scalar, ScalarType};
use vstd::prelude::*;

verus! {

/// One converted cell: a scalar, or the empty state of an optional target.
pub type Field = Option<Scalar>;

/// A named field of a record.
#[derive(Debug, Clone, PartialEq, Eq)]
pub struct FieldShape {
    pub name: String,
    pub ty: ScalarType,
}

/// What one row is to become.
#[derive(Debug, Clone, PartialEq, Eq)]
pub enum RowShape {
    /// A single scalar; fits a row of exactly one column.
    Scalar(ScalarType),
    /// A tuple with one element per column, in column order.
    Tuple(Vec<ScalarType>),
    /// A record whose fields are found by column name.
    Record(Vec<FieldShape>),
    /// A mapping from keys to values. No table can be brought into this
    /// shape.
    Mapping,
}

/// What a resultset is to become.
#[derive(Debug, Clone, PartialEq, Eq)]
pub enum Shape {
    /// The row shape itself; fits a resultset of exactly one row.
    Single(RowShape),
    /// A sequence with one element of the row shape per row.
    Sequence(RowShape),
}

/// A row in the shape that was asked for.
#[derive(Debug, Clone, PartialEq, Eq)]
pub enum TypedRow {
    Scalar(Field),
    /// The elements, in column order.
    Tuple(Vec<Field>),
    /// The fields, in the order in which the shape declares them.
    Record(Vec<Field>),
}

/// A resultset in the shape that was asked for.
#[derive(Debug, Clone, PartialEq, Eq)]
pub enum Typed {
    Single(TypedRow),
    /// The rows, in the order of the resultset.
    Sequence(Vec<TypedRow>),
}

/// The mathematical content of a `TypedRow`.
pub enum TypedRowView {
    Scalar(Field),
    Tuple(Seq<Field>),
    Record(Seq<Field>),
}

/// The mathematical content of a `Typed`.
pub enum TypedView {
    Single(TypedRowView),
    Sequence(Seq<TypedRowView>),
}

impl View for TypedRow {
    type V = TypedRowView;

    open spec fn view(&self) -> TypedRowView {
        match *self {
            TypedRow::Scalar(f) => TypedRowView::Scalar(f),
            TypedRow::Tuple(fields) => TypedRowView::Tuple(fields@),
            TypedRow::Record(fields) => TypedRowView::Record(fields@),
        }
    }
}

impl View for Typed {
    type V = TypedView;

    open spec fn view(&self) -> TypedView {
        match *self {
            Typed::Single(row) => TypedView::Single(row@),
            Typed::Sequence(rows) => TypedView::Sequence(rows@.map_values(|row: TypedRow| row@)),
        }
    }
}

} // verus!
