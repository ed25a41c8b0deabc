//! A plain value type for tables held in memory, with checked conversions.

use super::conversion_error::ConversionError;
use super::db_value::{DbValue, DbValueInto};
use super::db_value::scalar_of;
use super::decimal::Decimal;
use super::scalar::{Scalar, ScalarKind};
use vstd::prelude::*;

verus! {

/// One cell of a table held in memory.
///
/// Numbers convert into every numeric target that can hold them exactly;
/// booleans, texts and byte strings convert only into their own kind.
#[derive(Debug, Clone, PartialEq, Eq)]
pub enum Value {
    Null,
    Bool(bool),
    I8(i8),
    I16(i16),
    I32(i32),
    I64(i64),
    U8(u8),
    U16(u16),
    U32(u32),
    U64(u64),
    Decimal(Decimal),
    Text(String),
    Bytes(Vec<u8>),
}

/// Keeps a number that lies in `lo..=hi`; any other is out of range.
pub open spec fn narrowed(number: Result<int, ConversionError>, lo: int, hi: int) -> Result<
    int,
    ConversionError,
> {
    match number {
        Ok(n) => if lo <= n <= hi {
            Ok(n)
        } else {
            Err(ConversionError::ValueOutOfRange)
        },
        Err(e) => Err(e),
    }
}

impl Value {
    /// The integer that this value equals.
    ///
    /// A decimal with a fractional part equals none and is out of range for
    /// every integer type; NULL and the non-numeric kinds are no numbers.
    pub open spec fn integer(&self) -> Result<int, ConversionError> {
        match *self {
            Value::Null => Err(ConversionError::UnexpectedNull),
            Value::I8(x) => Ok(x as int),
            Value::I16(x) => Ok(x as int),
            Value::I32(x) => Ok(x as int),
            Value::I64(x) => Ok(x as int),
            Value::U8(x) => Ok(x as int),
            Value::U16(x) => Ok(x as int),
            Value::U32(x) => Ok(x as int),
            Value::U64(x) => Ok(x as int),
            Value::Decimal(d) => if d.is_whole() {
                Ok(d.whole_part())
            } else {
                Err(ConversionError::ValueOutOfRange)
            },
            Value::Bool(_) | Value::Text(_) | Value::Bytes(_) => Err(ConversionError::TypeMismatch),
        }
    }

    /// The kind that this value has before any conversion; none for NULL.
    pub open spec fn own_kind(&self) -> Option<ScalarKind> {
        match *self {
            Value::Null => None,
            Value::Bool(_) => Some(ScalarKind::Bool),
            Value::I8(_) => Some(ScalarKind::I8),
            Value::I16(_) => Some(ScalarKind::I16),
            Value::I32(_) => Some(ScalarKind::I32),
            Value::I64(_) => Some(ScalarKind::I64),
            Value::U8(_) => Some(ScalarKind::U8),
            Value::U16(_) => Some(ScalarKind::U16),
            Value::U32(_) => Some(ScalarKind::U32),
            Value::U64(_) => Some(ScalarKind::U64),
            Value::Decimal(_) => Some(ScalarKind::Decimal),
            Value::Text(_) => Some(ScalarKind::Text),
            Value::Bytes(_) => Some(ScalarKind::Bytes),
        }
    }

    /// The integer that this value equals, computed.
    fn to_integer(&self) -> (r: Result<i128, ConversionError>)
        ensures
            match self.integer() {
                Ok(n) => r is Ok && r->Ok_0 == n,
                Err(e) => r == Err::<i128, ConversionError>(e),
            },
    {
        match self {
            Value::Null => Err(ConversionError::UnexpectedNull),
            Value::I8(x) => Ok(*x as i128),
            Value::I16(x) => Ok(*x as i128),
            Value::I32(x) => Ok(*x as i128),
            Value::I64(x) => Ok(*x as i128),
            Value::U8(x) => Ok(*x as i128),
            Value::U16(x) => Ok(*x as i128),
            Value::U32(x) => Ok(*x as i128),
            Value::U64(x) => Ok(*x as i128),
            Value::Decimal(d) => match d.to_integer() {
                Some(n) => Ok(n),
                None => Err(ConversionError::ValueOutOfRange),
            },
            Value::Bool(_) => Err(ConversionError::TypeMismatch),
            Value::Text(_) => Err(ConversionError::TypeMismatch),
            Value::Bytes(_) => Err(ConversionError::TypeMismatch),
        }
    }
}

impl DbValue for Value {
    open spec fn null(&self) -> bool {
        *self is Null
    }

    fn is_null(&self) -> (b: bool) {
        match self {
            Value::Null => true,
            _ => false,
        }
    }
}

impl DbValueInto<bool> for Value {
    open spec fn conversion(self) -> Result<bool, ConversionError> {
        match self {
            Value::Bool(b) => Ok(b),
            Value::Null => Err(ConversionError::UnexpectedNull),
            _ => Err(ConversionError::TypeMismatch),
        }
    }

    fn try_into(self) -> (r: Result<bool, ConversionError>) {
        match self {
            Value::Bool(b) => Ok(b),
            Value::Null => Err(ConversionError::UnexpectedNull),
            _ => Err(ConversionError::TypeMismatch),
        }
    }
}

impl DbValueInto<i8> for Value {
    open spec fn conversion(self) -> Result<i8, ConversionError> {
        match narrowed(self.integer(), i8::MIN as int, i8::MAX as int) {
            Ok(n) => Ok(n as i8),
            Err(e) => Err(e),
        }
    }

    fn try_into(self) -> (r: Result<i8, ConversionError>) {
        match self.to_integer() {
            Ok(n) => if i8::MIN as i128 <= n && n <= i8::MAX as i128 {
                Ok(n as i8)
            } else {
                Err(ConversionError::ValueOutOfRange)
            },
            Err(e) => Err(e),
        }
    }
}

impl DbValueInto<i16> for Value {
    open spec fn conversion(self) -> Result<i16, ConversionError> {
        match narrowed(self.integer(), i16::MIN as int, i16::MAX as int) {
            Ok(n) => Ok(n as i16),
            Err(e) => Err(e),
        }
    }

    fn try_into(self) -> (r: Result<i16, ConversionError>) {
        match self.to_integer() {
            Ok(n) => if i16::MIN as i128 <= n && n <= i16::MAX as i128 {
                Ok(n as i16)
            } else {
                Err(ConversionError::ValueOutOfRange)
            },
            Err(e) => Err(e),
        }
    }
}

impl DbValueInto<i32> for Value {
    open spec fn conversion(self) -> Result<i32, ConversionError> {
        match narrowed(self.integer(), i32::MIN as int, i32::MAX as int) {
            Ok(n) => Ok(n as i32),
            Err(e) => Err(e),
        }
    }

    fn try_into(self) -> (r: Result<i32, ConversionError>) {
        match self.to_integer() {
            Ok(n) => if i32::MIN as i128 <= n && n <= i32::MAX as i128 {
                Ok(n as i32)
            } else {
                Err(ConversionError::ValueOutOfRange)
            },
            Err(e) => Err(e),
        }
    }
}

impl DbValueInto<i64> for Value {
    open spec fn conversion(self) -> Result<i64, ConversionError> {
        match narrowed(self.integer(), i64::MIN as int, i64::MAX as int) {
            Ok(n) => Ok(n as i64),
            Err(e) => Err(e),
        }
    }

    fn try_into(self) -> (r: Result<i64, ConversionError>) {
        match self.to_integer() {
            Ok(n) => if i64::MIN as i128 <= n && n <= i64::MAX as i128 {
                Ok(n as i64)
            } else {
                Err(ConversionError::ValueOutOfRange)
            },
            Err(e) => Err(e),
        }
    }
}

impl DbValueInto<u8> for Value {
    open spec fn conversion(self) -> Result<u8, ConversionError> {
        match narrowed(self.integer(), u8::MIN as int, u8::MAX as int) {
            Ok(n) => Ok(n as u8),
            Err(e) => Err(e),
        }
    }

    fn try_into(self) -> (r: Result<u8, ConversionError>) {
        match self.to_integer() {
            Ok(n) => if u8::MIN as i128 <= n && n <= u8::MAX as i128 {
                Ok(n as u8)
            } else {
                Err(ConversionError::ValueOutOfRange)
            },
            Err(e) => Err(e),
        }
    }
}

impl DbValueInto<u16> for Value {
    open spec fn conversion(self) -> Result<u16, ConversionError> {
        match narrowed(self.integer(), u16::MIN as int, u16::MAX as int) {
            Ok(n) => Ok(n as u16),
            Err(e) => Err(e),
        }
    }

    fn try_into(self) -> (r: Result<u16, ConversionError>) {
        match self.to_integer() {
            Ok(n) => if u16::MIN as i128 <= n && n <= u16::MAX as i128 {
                Ok(n as u16)
            } else {
                Err(ConversionError::ValueOutOfRange)
            },
            Err(e) => Err(e),
        }
    }
}

impl DbValueInto<u32> for Value {
    open spec fn conversion(self) -> Result<u32, ConversionError> {
        match narrowed(self.integer(), u32::MIN as int, u32::MAX as int) {
            Ok(n) => Ok(n as u32),
            Err(e) => Err(e),
        }
    }

    fn try_into(self) -> (r: Result<u32, ConversionError>) {
        match self.to_integer() {
            Ok(n) => if u32::MIN as i128 <= n && n <= u32::MAX as i128 {
                Ok(n as u32)
            } else {
                Err(ConversionError::ValueOutOfRange)
            },
            Err(e) => Err(e),
        }
    }
}

impl DbValueInto<u64> for Value {
    open spec fn conversion(self) -> Result<u64, ConversionError> {
        match narrowed(self.integer(), u64::MIN as int, u64::MAX as int) {
            Ok(n) => Ok(n as u64),
            Err(e) => Err(e),
        }
    }

    fn try_into(self) -> (r: Result<u64, ConversionError>) {
        match self.to_integer() {
            Ok(n) => if u64::MIN as i128 <= n && n <= u64::MAX as i128 {
                Ok(n as u64)
            } else {
                Err(ConversionError::ValueOutOfRange)
            },
            Err(e) => Err(e),
        }
    }
}

impl DbValueInto<Decimal> for Value {
    open spec fn conversion(self) -> Result<Decimal, ConversionError> {
        match self {
            Value::Decimal(d) => Ok(d),
            _ => match self.integer() {
                Ok(n) => Ok(Decimal { mantissa: n as i128, scale: 0 }),
                Err(e) => Err(e),
            },
        }
    }

    fn try_into(self) -> (r: Result<Decimal, ConversionError>) {
        match self {
            Value::Decimal(d) => Ok(d),
            _ => match self.to_integer() {
                Ok(n) => Ok(Decimal::from_integer(n)),
                Err(e) => Err(e),
            },
        }
    }
}

impl DbValueInto<String> for Value {
    open spec fn conversion(self) -> Result<String, ConversionError> {
        match self {
            Value::Text(s) => Ok(s),
            Value::Null => Err(ConversionError::UnexpectedNull),
            _ => Err(ConversionError::TypeMismatch),
        }
    }

    fn try_into(self) -> (r: Result<String, ConversionError>) {
        match self {
            Value::Text(s) => Ok(s),
            Value::Null => Err(ConversionError::UnexpectedNull),
            _ => Err(ConversionError::TypeMismatch),
        }
    }
}

impl DbValueInto<Vec<u8>> for Value {
    open spec fn conversion(self) -> Result<Vec<u8>, ConversionError> {
        match self {
            Value::Bytes(b) => Ok(b),
            Value::Null => Err(ConversionError::UnexpectedNull),
            _ => Err(ConversionError::TypeMismatch),
        }
    }

    fn try_into(self) -> (r: Result<Vec<u8>, ConversionError>) {
        match self {
            Value::Bytes(b) => Ok(b),
            Value::Null => Err(ConversionError::UnexpectedNull),
            _ => Err(ConversionError::TypeMismatch),
        }
    }
}

/// A value converts into an integer kind exactly when it equals a number
/// of that kind, and then into that number. A number outside the kind, and
/// a decimal with a fractional part, are out of range; what is no number
/// fails as `Value::integer` says.
pub proof fn law_integers_convert_exactly(value: Value, kind: ScalarKind)
    requires
        kind.bounds() is Some,
    ensures
        match narrowed(value.integer(), kind.bounds()->Some_0.0, kind.bounds()->Some_0.1) {
            Ok(n) => scalar_of(value, kind) matches Ok(s) && s.kind() == kind && s.integer()
                == Some(n),
            Err(e) => scalar_of(value, kind) == Err::<Scalar, ConversionError>(e),
        },
{
}

/// Widening always succeeds: a value of an integer kind converts into every
/// integer kind that holds all numbers of its own, and into a decimal, and
/// the number stays the same.
pub proof fn law_widening_succeeds(value: Value, target: ScalarKind)
    requires
        value.own_kind() matches Some(kind) && kind.bounds() is Some && (kind.fits_into(target)
            || target == ScalarKind::Decimal),
    ensures
        value.integer() is Ok,
        scalar_of(value, target) matches Ok(s) && s.kind() == target && (if target
            == ScalarKind::Decimal {
            s == Scalar::Decimal(Decimal { mantissa: value.integer()->Ok_0 as i128, scale: 0 })
        } else {
            s.integer() == Some(value.integer()->Ok_0)
        }),
{
}

/// Categories do not mix: booleans, texts and byte strings convert into
/// their own kind only, and only they convert into it.
pub proof fn law_categories_do_not_mix(value: Value, target: ScalarKind)
    requires
        value.own_kind() matches Some(kind) && kind != target && !(kind.is_numeric()
            && target.is_numeric()),
    ensures
        scalar_of(value, target) == Err::<Scalar, ConversionError>(ConversionError::TypeMismatch),
{
}

} // verus!
