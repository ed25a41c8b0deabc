//! Why a single value could not become the requested scalar.

use vstd::prelude::*;

verus! {

/// A failure to convert one database value into one requested scalar type.
#[derive(Debug, Clone, PartialEq, Eq)]
pub enum ConversionError {
    /// The value is numeric but the target cannot hold it without loss:
    /// it lies outside the target's range or has a fractional part.
    ValueOutOfRange,
    /// The value is absent and the target is not optional.
    UnexpectedNull,
    /// The value's category has no conversion into the target's.
    TypeMismatch,
    /// Any other failure, described by the driver.
    Other(String),
}

} // verus!
