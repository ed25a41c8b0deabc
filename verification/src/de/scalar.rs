//! The scalar types a caller can ask for, and the values that come back.

use super::decimal::Decimal;
use vstd::prelude::*;

verus! {

/// The kinds of scalar that a value can be converted into.
#[derive(Debug, Clone, Copy, PartialEq, Eq)]
pub enum ScalarKind {
    Bool,
    I8,
    I16,
    I32,
    I64,
    U8,
    U16,
    U32,
    U64,
    Decimal,
    Text,
    Bytes,
}

/// A requested scalar target: a kind, and whether absence is acceptable.
#[derive(Debug, Clone, Copy, PartialEq, Eq)]
pub struct ScalarType {
    pub kind: ScalarKind,
    pub optional: bool,
}

impl ScalarKind {
    /// The least and the greatest number of an integer kind; none for the
    /// other kinds.
    pub open spec fn bounds(self) -> Option<(int, int)> {
        match self {
            ScalarKind::I8 => Some((i8::MIN as int, i8::MAX as int)),
            ScalarKind::I16 => Some((i16::MIN as int, i16::MAX as int)),
            ScalarKind::I32 => Some((i32::MIN as int, i32::MAX as int)),
            ScalarKind::I64 => Some((i64::MIN as int, i64::MAX as int)),
            ScalarKind::U8 => Some((u8::MIN as int, u8::MAX as int)),
            ScalarKind::U16 => Some((u16::MIN as int, u16::MAX as int)),
            ScalarKind::U32 => Some((u32::MIN as int, u32::MAX as int)),
            ScalarKind::U64 => Some((u64::MIN as int, u64::MAX as int)),
            _ => None,
        }
    }

    /// Whether the kind is one of numbers: an integer kind, or decimal.
    pub open spec fn is_numeric(self) -> bool {
        self.bounds() is Some || self == ScalarKind::Decimal
    }

    /// Whether every number of the integer kind `self` is a number of the
    /// integer kind `other`.
    pub open spec fn fits_into(self, other: ScalarKind) -> bool {
        &&& self.bounds() matches Some(narrow)
        &&& other.bounds() matches Some(wide)
        &&& wide.0 <= narrow.0
        &&& narrow.1 <= wide.1
    }
}

impl ScalarType {
    /// The target that must be present.
    pub fn required(kind: ScalarKind) -> (ty: ScalarType)
        ensures
            ty == (ScalarType { kind, optional: false }),
    {
        ScalarType { kind, optional: false }
    }

    /// The target that may be absent.
    pub fn optional(kind: ScalarKind) -> (ty: ScalarType)
        ensures
            ty == (ScalarType { kind, optional: true }),
    {
        ScalarType { kind, optional: true }
    }
}

/// A converted value, tagged with its kind.
#[derive(Debug, Clone, PartialEq, Eq)]
pub enum Scalar {
    Bool(bool),
    I8(i8),
    I16(i16),
    I32(i32),
    I64(i64),
    U8(u8),
    U16(u16),
    U32(u32),
    U64(u64),
    Decimal(Decimal),
    Text(String),
    Bytes(Vec<u8>),
}

impl Scalar {
    /// The kind of this scalar.
    pub open spec fn spec_kind(&self) -> ScalarKind {
        match *self {
            Scalar::Bool(_) => ScalarKind::Bool,
            Scalar::I8(_) => ScalarKind::I8,
            Scalar::I16(_) => ScalarKind::I16,
            Scalar::I32(_) => ScalarKind::I32,
            Scalar::I64(_) => ScalarKind::I64,
            Scalar::U8(_) => ScalarKind::U8,
            Scalar::U16(_) => ScalarKind::U16,
            Scalar::U32(_) => ScalarKind::U32,
            Scalar::U64(_) => ScalarKind::U64,
            Scalar::Decimal(_) => ScalarKind::Decimal,
            Scalar::Text(_) => ScalarKind::Text,
            Scalar::Bytes(_) => ScalarKind::Bytes,
        }
    }

    /// The number that a scalar of an integer kind holds.
    pub open spec fn integer(&self) -> Option<int> {
        match *self {
            Scalar::I8(x) => Some(x as int),
            Scalar::I16(x) => Some(x as int),
            Scalar::I32(x) => Some(x as int),
            Scalar::I64(x) => Some(x as int),
            Scalar::U8(x) => Some(x as int),
            Scalar::U16(x) => Some(x as int),
            Scalar::U32(x) => Some(x as int),
            Scalar::U64(x) => Some(x as int),
            _ => None,
        }
    }

    /// The kind of this scalar.
    #[verifier::when_used_as_spec(spec_kind)]
    pub fn kind(&self) -> (k: ScalarKind)
        ensures
            k == self.spec_kind(),
    {
        match self {
            Scalar::Bool(_) => ScalarKind::Bool,
            Scalar::I8(_) => ScalarKind::I8,
            Scalar::I16(_) => ScalarKind::I16,
            Scalar::I32(_) => ScalarKind::I32,
            Scalar::I64(_) => ScalarKind::I64,
            Scalar::U8(_) => ScalarKind::U8,
            Scalar::U16(_) => ScalarKind::U16,
            Scalar::U32(_) => ScalarKind::U32,
            Scalar::U64(_) => ScalarKind::U64,
            Scalar::Decimal(_) => ScalarKind::Decimal,
            Scalar::Text(_) => ScalarKind::Text,
            Scalar::Bytes(_) => ScalarKind::Bytes,
        }
    }
}

} // verus!
