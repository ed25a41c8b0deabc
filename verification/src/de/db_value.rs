//! The value conversion layer: what a driver's value type has to offer, and
//! the conversion of one value into one requested scalar.

use super::conversion_error::ConversionError;
use super::decimal::Decimal;
use super::scalar::{Scalar, ScalarKind, ScalarType};
use vstd::prelude::*;

verus! {

/// Conversion of a database value into the type `T`.
pub trait DbValueInto<T>: Sized {
    /// What `try_into` returns for this value.
    spec fn conversion(self) -> Result<T, ConversionError>;

    /// Converts the value into a `T`, or says why it cannot be one.
    fn try_into(self) -> (r: Result<T, ConversionError>)
        ensures
            r == self.conversion(),
    ;
}

/// The value type of a database driver.
///
/// It can tell whether it is NULL, and it converts into each scalar type for
/// which there is a `ScalarKind`. Which conversions succeed is the driver's
/// decision.
pub trait DbValue: Sized + DbValueInto<bool> + DbValueInto<i8> + DbValueInto<i16> + DbValueInto<
    i32,
> + DbValueInto<i64> + DbValueInto<u8> + DbValueInto<u16> + DbValueInto<u32> + DbValueInto<
    u64,
> + DbValueInto<Decimal> + DbValueInto<String> + DbValueInto<Vec<u8>> {
    /// Whether this is the NULL value.
    spec fn null(&self) -> bool;

    /// Returns true if this is the NULL value.
    fn is_null(&self) -> (b: bool)
        ensures
            b == self.null(),
    ;
}

/// Tags the outcome of a conversion into `T` with the scalar kind of `T`.
pub open spec fn tagged<T>(r: Result<T, ConversionError>, tag: spec_fn(T) -> Scalar) -> Result<
    Scalar,
    ConversionError,
> {
    match r {
        Ok(x) => Ok(tag(x)),
        Err(e) => Err(e),
    }
}

/// The outcome of converting `value` into a scalar of the given kind.
pub open spec fn scalar_of<V: DbValue>(value: V, kind: ScalarKind) -> Result<
    Scalar,
    ConversionError,
> {
    match kind {
        ScalarKind::Bool => tagged(DbValueInto::<bool>::conversion(value), |x| Scalar::Bool(x)),
        ScalarKind::I8 => tagged(DbValueInto::<i8>::conversion(value), |x| Scalar::I8(x)),
        ScalarKind::I16 => tagged(DbValueInto::<i16>::conversion(value), |x| Scalar::I16(x)),
        ScalarKind::I32 => tagged(DbValueInto::<i32>::conversion(value), |x| Scalar::I32(x)),
        ScalarKind::I64 => tagged(DbValueInto::<i64>::conversion(value), |x| Scalar::I64(x)),
        ScalarKind::U8 => tagged(DbValueInto::<u8>::conversion(value), |x| Scalar::U8(x)),
        ScalarKind::U16 => tagged(DbValueInto::<u16>::conversion(value), |x| Scalar::U16(x)),
        ScalarKind::U32 => tagged(DbValueInto::<u32>::conversion(value), |x| Scalar::U32(x)),
        ScalarKind::U64 => tagged(DbValueInto::<u64>::conversion(value), |x| Scalar::U64(x)),
        ScalarKind::Decimal => tagged(
            DbValueInto::<Decimal>::conversion(value),
            |x| Scalar::Decimal(x),
        ),
        ScalarKind::Text => tagged(DbValueInto::<String>::conversion(value), |x| Scalar::Text(x)),
        ScalarKind::Bytes => tagged(
            DbValueInto::<Vec<u8>>::conversion(value),
            |x| Scalar::Bytes(x),
        ),
    }
}

/// The outcome of converting `value` into the target `ty`.
///
/// NULL becomes the empty state of an optional target and is an error for
/// any other; every other value is converted as its type says.
pub open spec fn field_of<V: DbValue>(value: V, ty: ScalarType) -> Result<
    Option<Scalar>,
    ConversionError,
> {
    if value.null() {
        if ty.optional {
            Ok(None)
        } else {
            Err(ConversionError::UnexpectedNull)
        }
    } else {
        match scalar_of(value, ty.kind) {
            Ok(s) => Ok(Some(s)),
            Err(e) => Err(e),
        }
    }
}

/// Converts `value` into a scalar of the given kind.
pub fn convert_scalar<V: DbValue>(value: V, kind: ScalarKind) -> (r: Result<
    Scalar,
    ConversionError,
>)
    ensures
        r == scalar_of(value, kind),
        r matches Ok(s) ==> s.kind() == kind,
{
    match kind {
        ScalarKind::Bool => match DbValueInto::<bool>::try_into(value) {
            Ok(x) => Ok(Scalar::Bool(x)),
            Err(e) => Err(e),
        },
        ScalarKind::I8 => match DbValueInto::<i8>::try_into(value) {
            Ok(x) => Ok(Scalar::I8(x)),
            Err(e) => Err(e),
        },
        ScalarKind::I16 => match DbValueInto::<i16>::try_into(value) {
            Ok(x) => Ok(Scalar::I16(x)),
            Err(e) => Err(e),
        },
        ScalarKind::I32 => match DbValueInto::<i32>::try_into(value) {
            Ok(x) => Ok(Scalar::I32(x)),
            Err(e) => Err(e),
        },
        ScalarKind::I64 => match DbValueInto::<i64>::try_into(value) {
            Ok(x) => Ok(Scalar::I64(x)),
            Err(e) => Err(e),
        },
        ScalarKind::U8 => match DbValueInto::<u8>::try_into(value) {
            Ok(x) => Ok(Scalar::U8(x)),
            Err(e) => Err(e),
        },
        ScalarKind::U16 => match DbValueInto::<u16>::try_into(value) {
            Ok(x) => Ok(Scalar::U16(x)),
            Err(e) => Err(e),
        },
        ScalarKind::U32 => match DbValueInto::<u32>::try_into(value) {
            Ok(x) => Ok(Scalar::U32(x)),
            Err(e) => Err(e),
        },
        ScalarKind::U64 => match DbValueInto::<u64>::try_into(value) {
            Ok(x) => Ok(Scalar::U64(x)),
            Err(e) => Err(e),
        },
        ScalarKind::Decimal => match DbValueInto::<Decimal>::try_into(value) {
            Ok(x) => Ok(Scalar::Decimal(x)),
            Err(e) => Err(e),
        },
        ScalarKind::Text => match DbValueInto::<String>::try_into(value) {
            Ok(x) => Ok(Scalar::Text(x)),
            Err(e) => Err(e),
        },
        ScalarKind::Bytes => match DbValueInto::<Vec<u8>>::try_into(value) {
            Ok(x) => Ok(Scalar::Bytes(x)),
            Err(e) => Err(e),
        },
    }
}

/// Converts `value` into the target `ty`: the scalar inside `Some`, or `None`
/// for a NULL under an optional target.
pub fn convert<V: DbValue>(value: V, ty: ScalarType) -> (r: Result<Option<Scalar>, ConversionError>)
    ensures
        r == field_of(value, ty),
        r matches Ok(Some(s)) ==> s.kind() == ty.kind,
        r matches Ok(None) ==> ty.optional,
{
    if value.is_null() {
        if ty.optional {
            Ok(None)
        } else {
            Err(ConversionError::UnexpectedNull)
        }
    } else {
        match convert_scalar(value, ty.kind) {
            Ok(s) => Ok(Some(s)),
            Err(e) => Err(e),
        }
    }
}

} // verus!
