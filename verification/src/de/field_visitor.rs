//! The field visitor: one value, asked once for one scalar type.

use super::conversion_error::ConversionError;
use super::db_value::{convert, convert_scalar, field_of, scalar_of, DbValue, DbValueInto};
use super::deserialization_error::{DeserError, DeserResult};
use super::scalar::{Scalar, ScalarKind, ScalarType};
use super::shape::Field;
use vstd::prelude::*;

verus! {

/// A conversion outcome as the engine reports it: the failure wrapped, the
/// success untouched.
pub open spec fn reported<T>(outcome: Result<T, ConversionError>) -> DeserResult<T> {
    match outcome {
        Ok(x) => Ok(x),
        Err(e) => Err(DeserError::Conversion(e)),
    }
}

/// What a field visitor answers for `value` when asked for the target `ty`.
pub open spec fn visited<V: DbValue>(value: V, ty: ScalarType) -> DeserResult<Field> {
    reported(field_of(value, ty))
}

/// What a field visitor answers for `value` when asked for a scalar of the
/// given kind that has to be present.
pub open spec fn visited_required<V: DbValue>(value: V, kind: ScalarKind) -> DeserResult<Scalar> {
    if value.null() {
        Err(DeserError::Conversion(ConversionError::UnexpectedNull))
    } else {
        reported(scalar_of(value, kind))
    }
}

/// Holds one value and answers one request for a scalar type.
pub struct FieldVisitor<V: DbValue> {
    value: V,
}

impl<V: DbValue> FieldVisitor<V> {
    /// The value held.
    pub closed spec fn value(&self) -> V {
        self.value
    }

    /// A visitor for `value`.
    pub fn new(value: V) -> (visitor: Self)
        ensures
            visitor.value() == value,
    {
        FieldVisitor { value }
    }

    /// Whether the value is NULL, so that an optional target is empty.
    pub fn is_absent(&self) -> (b: bool)
        ensures
            b == self.value().null(),
    {
        self.value.is_null()
    }

    /// Answers a request for a `T` that has to be present: NULL is refused,
    /// any other value converts as its type says.
    pub fn visit_as<T>(self) -> (r: DeserResult<T>) where V: DbValueInto<T>
        ensures
            self.value().null() ==> r == Err::<T, DeserError>(
                DeserError::Conversion(ConversionError::UnexpectedNull),
            ),
            !self.value().null() ==> r == reported(DbValueInto::<T>::conversion(self.value())),
    {
        if self.value.is_null() {
            Err(DeserError::Conversion(ConversionError::UnexpectedNull))
        } else {
            match DbValueInto::<T>::try_into(self.value) {
                Ok(x) => Ok(x),
                Err(e) => Err(DeserError::Conversion(e)),
            }
        }
    }

    /// Answers a request for the target `ty`.
    pub fn visit(self, ty: ScalarType) -> (r: DeserResult<Field>)
        ensures
            r == visited(self.value(), ty),
            r matches Ok(Some(s)) ==> s.kind() == ty.kind,
            r matches Ok(None) ==> ty.optional && self.value().null(),
    {
        match convert(self.value, ty) {
            Ok(field) => Ok(field),
            Err(e) => Err(DeserError::Conversion(e)),
        }
    }

    /// Answers a request for a scalar of the given kind that has to be
    /// present.
    pub fn visit_required(self, kind: ScalarKind) -> (r: DeserResult<Scalar>)
        ensures
            r == visited_required(self.value(), kind),
            r matches Ok(s) ==> s.kind() == kind,
            visited(self.value(), ScalarType { kind, optional: false }) == match r {
                Ok(s) => Ok::<Field, DeserError>(Some(s)),
                Err(e) => Err::<Field, DeserError>(e),
            },
    {
        if self.value.is_null() {
            Err(DeserError::Conversion(ConversionError::UnexpectedNull))
        } else {
            match convert_scalar(self.value, kind) {
                Ok(s) => Ok(s),
                Err(e) => Err(DeserError::Conversion(e)),
            }
        }
    }
}

} // verus!
