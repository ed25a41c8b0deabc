//! The error that every conversion entry point returns.

use super::conversion_error::ConversionError;
use vstd::prelude::*;
use vstd::std_specs::convert::FromSpecImpl;

verus! {

/// A failure to bring a row or a resultset into the requested shape.
///
/// The first three variants say that the shape does not fit the table; the
/// last says that a value did not fit the scalar type chosen for it.
#[derive(Debug, Clone, PartialEq, Eq)]
pub enum DeserError {
    /// The number of rows or of columns differs from what the shape needs.
    WrongArity,
    /// A record field, named here, has no column of that name.
    UnknownColumn(String),
    /// The shape is one that cannot be produced from a table.
    UnsupportedShape,
    /// A value could not be converted.
    Conversion(ConversionError),
}

/// The result of a conversion entry point.
pub type DeserResult<T> = Result<T, DeserError>;

impl DeserError {
    /// Whether the shape, rather than the data, was at fault.
    pub open spec fn is_shape_error(&self) -> bool {
        !(self is Conversion)
    }

    /// Tells "the target declared the wrong shape" from "the data did not fit
    /// the target".
    pub fn blames_shape(&self) -> (b: bool)
        ensures
            b == self.is_shape_error(),
    {
        match self {
            DeserError::Conversion(_) => false,
            _ => true,
        }
    }

    /// The conversion failure inside, if the data was at fault.
    pub fn conversion(&self) -> (r: Option<&ConversionError>)
        ensures
            match *self {
                DeserError::Conversion(e) => r == Some(&e),
                _ => r is None,
            },
    {
        match self {
            DeserError::Conversion(e) => Some(e),
            _ => None,
        }
    }
}

impl From<ConversionError> for DeserError {
    fn from(error: ConversionError) -> (r: DeserError) {
        DeserError::Conversion(error)
    }
}

impl FromSpecImpl<ConversionError> for DeserError {
    open spec fn obeys_from_spec() -> bool {
        true
    }

    open spec fn from_spec(error: ConversionError) -> DeserError {
        DeserError::Conversion(error)
    }
}

} // verus!
