//! Shape-driven conversion of resultsets, rows and single values.
//!
//! A driver implements [`DbValue`], [`DeserializableRow`] and
//! [`DeserializableResultset`] for its own types; the conversions themselves
//! are provided methods of the two latter traits.
//!
//! Which target shape may be asked for depends on the dimension of the
//! resultset:
//!
//! * A sequence of records or tuples fits every resultset.
//! * A single record or tuple fits a resultset of exactly one row.
//! * A sequence of scalars fits a resultset of exactly one column.
//! * A single scalar fits a resultset of one row and one column.
//!
//! # Examples
//!
//! Convert a resultset of any dimension into a sequence of records:
//!
//! ```ignore
//! let line = RowShape::Record(vec![
//!     FieldShape { name: "id".to_string(), ty: ScalarType::required(ScalarKind::U32) },
//!     FieldShape { name: "name".to_string(), ty: ScalarType::optional(ScalarKind::Text) },
//! ]);
//! let lines = resultset.into_typed(&Shape::Sequence(line))?;
//! ```
//!
//! Convert a resultset of one column into a sequence of scalars, and a
//! resultset of one cell into a single scalar:
//!
//! ```ignore
//! let text = RowShape::Scalar(ScalarType::required(ScalarKind::Text));
//! let names = resultset.into_typed(&Shape::Sequence(text.clone()))?;
//! let name = one_cell.into_typed(&Shape::Single(text))?;
//! ```
//!
//! Walk the rows and convert each into a tuple:
//!
//! ```ignore
//! let pair = RowShape::Tuple(vec![
//!     ScalarType::required(ScalarKind::Text),
//!     ScalarType::optional(ScalarKind::I32),
//! ]);
//! while let Some(row) = resultset.next_row() {
//!     let typed = row.into_typed(&pair)?;
//! }
//! ```
//!
//! Convert a single value:
//!
//! ```ignore
//! let number = FieldVisitor::new(value).visit(ScalarType::optional(ScalarKind::Decimal))?;
//! ```

pub mod collect;
pub mod conversion_error;
pub mod db_value;
pub mod decimal;
pub mod deserializable_resultset;
pub mod deserializable_row;
pub mod deserialization_error;
pub mod field_visitor;
pub mod laws;
pub mod row;
pub mod scalar;
pub mod shape;
pub mod value;

pub use self::conversion_error::ConversionError;
pub use self::db_value::{DbValue, DbValueInto};
pub use self::decimal::Decimal;
pub use self::deserializable_resultset::DeserializableResultset;
pub use self::deserializable_row::DeserializableRow;
pub use self::deserialization_error::{DeserError, DeserResult};
pub use self::field_visitor::FieldVisitor;
pub use self::row::{Resultset, Row};
pub use self::scalar::{Scalar, ScalarKind, ScalarType};
pub use self::shape::{Field, FieldShape, RowShape, Shape, Typed, TypedRow};
pub use self::value::Value;
