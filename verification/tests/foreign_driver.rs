use serde_db::de::{
    ConversionError, DbValue, DbValueInto, Decimal, DeserError, DeserializableResultset,
    DeserializableRow, FieldShape, FieldVisitor, Resultset, Row, RowShape, Scalar, ScalarKind,
    ScalarType, Shape, Typed, TypedRow,
};

/// The value type of a driver that knows 64-bit integers and NULL, and that
/// describes in its own words what it cannot do.
#[derive(Debug, Clone, PartialEq)]
struct Cell(Option<i64>);

fn refusal(target: &str) -> ConversionError {
    ConversionError::Other(format!("an integer column holds no {}", target))
}

impl DbValue for Cell {
    // Ghost: it states what `is_null` returns, and nothing calls it.
    fn null(&self) -> bool {
        unreachable!()
    }

    fn is_null(&self) -> bool {
        self.0.is_none()
    }
}

impl DbValueInto<i64> for Cell {
    fn conversion(self) -> Result<i64, ConversionError> {
        unreachable!()
    }

    fn try_into(self) -> Result<i64, ConversionError> {
        self.0.ok_or(ConversionError::Other("the column is empty".to_string()))
    }
}

impl DbValueInto<bool> for Cell {
    fn conversion(self) -> Result<bool, ConversionError> {
        unreachable!()
    }

    fn try_into(self) -> Result<bool, ConversionError> {
        Err(refusal("boolean"))
    }
}

impl DbValueInto<i8> for Cell {
    fn conversion(self) -> Result<i8, ConversionError> {
        unreachable!()
    }

    fn try_into(self) -> Result<i8, ConversionError> {
        Err(refusal("i8"))
    }
}

impl DbValueInto<i16> for Cell {
    fn conversion(self) -> Result<i16, ConversionError> {
        unreachable!()
    }

    fn try_into(self) -> Result<i16, ConversionError> {
        Err(refusal("i16"))
    }
}

impl DbValueInto<i32> for Cell {
    fn conversion(self) -> Result<i32, ConversionError> {
        unreachable!()
    }

    fn try_into(self) -> Result<i32, ConversionError> {
        Err(refusal("i32"))
    }
}

impl DbValueInto<u8> for Cell {
    fn conversion(self) -> Result<u8, ConversionError> {
        unreachable!()
    }

    fn try_into(self) -> Result<u8, ConversionError> {
        Err(refusal("u8"))
    }
}

impl DbValueInto<u16> for Cell {
    fn conversion(self) -> Result<u16, ConversionError> {
        unreachable!()
    }

    fn try_into(self) -> Result<u16, ConversionError> {
        Err(refusal("u16"))
    }
}

impl DbValueInto<u32> for Cell {
    fn conversion(self) -> Result<u32, ConversionError> {
        unreachable!()
    }

    fn try_into(self) -> Result<u32, ConversionError> {
        Err(refusal("u32"))
    }
}

impl DbValueInto<u64> for Cell {
    fn conversion(self) -> Result<u64, ConversionError> {
        unreachable!()
    }

    fn try_into(self) -> Result<u64, ConversionError> {
        Err(refusal("u64"))
    }
}

impl DbValueInto<Decimal> for Cell {
    fn conversion(self) -> Result<Decimal, ConversionError> {
        unreachable!()
    }

    fn try_into(self) -> Result<Decimal, ConversionError> {
        Err(refusal("decimal"))
    }
}

impl DbValueInto<String> for Cell {
    fn conversion(self) -> Result<String, ConversionError> {
        unreachable!()
    }

    fn try_into(self) -> Result<String, ConversionError> {
        Err(refusal("text"))
    }
}

impl DbValueInto<Vec<u8>> for Cell {
    fn conversion(self) -> Result<Vec<u8>, ConversionError> {
        unreachable!()
    }

    fn try_into(self) -> Result<Vec<u8>, ConversionError> {
        Err(refusal("byte string"))
    }
}

fn names(list: &[&str]) -> Vec<String> {
    list.iter().map(|name| name.to_string()).collect()
}

fn other(words: &str) -> DeserError {
    DeserError::Conversion(ConversionError::Other(words.to_string()))
}

#[test]
fn a_driver_describes_its_own_failures() {
    assert_eq!(
        FieldVisitor::new(Cell(Some(1))).visit(ScalarType::required(ScalarKind::Text)),
        Err(other("an integer column holds no text"))
    );
    assert_eq!(
        FieldVisitor::new(Cell(Some(1))).visit(ScalarType::optional(ScalarKind::Bool)),
        Err(other("an integer column holds no boolean"))
    );
    assert_eq!(
        FieldVisitor::new(Cell(Some(1))).visit_as::<Decimal>(),
        Err(other("an integer column holds no decimal"))
    );
    assert_eq!(
        FieldVisitor::new(Cell(Some(1))).visit(ScalarType::required(ScalarKind::I64)),
        Ok(Some(Scalar::I64(1)))
    );
}

#[test]
fn null_is_handled_before_the_driver_is_asked() {
    assert_eq!(
        FieldVisitor::new(Cell(None)).visit(ScalarType::required(ScalarKind::I64)),
        Err(DeserError::Conversion(ConversionError::UnexpectedNull))
    );
    assert_eq!(
        FieldVisitor::new(Cell(None)).visit(ScalarType::optional(ScalarKind::I64)),
        Ok(None)
    );
    assert_eq!(
        FieldVisitor::new(Cell(None)).visit_required(ScalarKind::Text),
        Err(DeserError::Conversion(ConversionError::UnexpectedNull))
    );
    assert_eq!(
        FieldVisitor::new(Cell(None)).visit_as::<i64>(),
        Err(DeserError::Conversion(ConversionError::UnexpectedNull))
    );
}

#[test]
fn rows_of_a_driver_are_converted_like_any_other() {
    let row = || Row::new(names(&["a", "b"]), vec![Cell(Some(4)), Cell(None)]).unwrap();
    let integer = ScalarType::optional(ScalarKind::I64);
    assert_eq!(
        row().into_typed(&RowShape::Tuple(vec![integer, integer])),
        Ok(TypedRow::Tuple(vec![Some(Scalar::I64(4)), None]))
    );
    assert_eq!(
        row().into_typed(&RowShape::Record(vec![
            FieldShape { name: "b".to_string(), ty: integer },
            FieldShape { name: "a".to_string(), ty: ScalarType::required(ScalarKind::U8) },
        ])),
        Err(other("an integer column holds no u8"))
    );
}

#[test]
fn resultsets_of_a_driver_are_converted_like_any_other() {
    let mut resultset = Resultset::new(names(&["n"])).unwrap();
    for n in [3, 2, 1] {
        resultset.push(vec![Cell(Some(n))]).unwrap();
    }
    assert_eq!(
        resultset
            .clone()
            .into_typed(&Shape::Sequence(RowShape::Scalar(ScalarType::required(ScalarKind::I64)))),
        Ok(Typed::Sequence(vec![
            TypedRow::Scalar(Some(Scalar::I64(3))),
            TypedRow::Scalar(Some(Scalar::I64(2))),
            TypedRow::Scalar(Some(Scalar::I64(1))),
        ]))
    );
    assert_eq!(
        resultset
            .into_typed(&Shape::Sequence(RowShape::Scalar(ScalarType::required(ScalarKind::Bytes)))),
        Err(other("an integer column holds no byte string"))
    );
}
