use serde_db::de::{
    ConversionError, Decimal, DeserError, DeserializableResultset, DeserializableRow, FieldShape,
    FieldVisitor, Resultset, RowShape, Scalar, ScalarKind, ScalarType, Shape, Typed, TypedRow,
    Value,
};

const SIZE: usize = 20;

fn decimal(number: f64) -> Value {
    Value::Decimal(Decimal::new((number * 1_000_000.0).round() as i128, 6))
}

fn nullable_decimal(number: Option<f64>) -> Value {
    match number {
        Some(number) => decimal(number),
        None => Value::Null,
    }
}

fn names(list: &[&str]) -> Vec<String> {
    list.iter().map(|name| name.to_string()).collect()
}

fn get_resultset_ooff(len: usize) -> Resultset<Value> {
    let mut rs = Resultset::new(names(&["f1", "f2", "f3", "f4"])).unwrap();
    for i in 0..len {
        rs.push(vec![
            nullable_decimal(if i % 2 == 0 { None } else { Some(i as f64 * 0.01) }),
            nullable_decimal(Some(i as f64 * 0.01)),
            decimal(i as f64),
            decimal(10.0 * i as f64 + 3.456789),
        ])
        .unwrap();
    }
    rs
}

fn get_resultset_o1(val: bool) -> Resultset<Value> {
    let mut rs = Resultset::new(names(&["f1"])).unwrap();
    if val {
        rs.push(vec![nullable_decimal(Some(3.456_789_f64))]).unwrap();
    } else {
        rs.push(vec![nullable_decimal(None)]).unwrap();
    }
    rs
}

fn test_data() -> RowShape {
    RowShape::Record(vec![
        FieldShape { name: "f1".to_string(), ty: ScalarType::optional(ScalarKind::Decimal) },
        FieldShape { name: "f2".to_string(), ty: ScalarType::optional(ScalarKind::Decimal) },
        FieldShape { name: "f3".to_string(), ty: ScalarType::required(ScalarKind::Decimal) },
        FieldShape { name: "f4".to_string(), ty: ScalarType::required(ScalarKind::Decimal) },
    ])
}

fn rs_single_fields() -> Result<(), DeserError> {
    let mut resultset = get_resultset_ooff(SIZE);
    assert_eq!(SIZE, resultset.len());
    while let Some(row) = resultset.next_row() {
        let field = |idx: usize, ty: ScalarType| {
            FieldVisitor::new(row.get(idx).unwrap().clone()).visit(ty)
        };
        let _f1 = field(0, ScalarType::optional(ScalarKind::Decimal))?;
        let _f2 = field(1, ScalarType::optional(ScalarKind::Decimal))?;
        let f3 = field(2, ScalarType::required(ScalarKind::Decimal))?;
        let f4 = field(3, ScalarType::required(ScalarKind::Decimal))?;
        assert!(f3.is_some() && f4.is_some());
    }
    Ok(())
}

fn rs_rows() -> Result<(), DeserError> {
    let mut resultset = get_resultset_ooff(SIZE);
    assert_eq!(SIZE, resultset.len());
    while let Some(row) = resultset.next_row() {
        let td = row.into_typed(&test_data())?;
        assert!(matches!(td, TypedRow::Record(ref fields) if fields.len() == 4));
    }
    Ok(())
}

fn rs_resultset() -> Result<(), DeserError> {
    let vtd = get_resultset_ooff(SIZE).into_typed(&Shape::Sequence(test_data()))?;
    match vtd {
        Typed::Sequence(rows) => assert_eq!(SIZE, rows.len()),
        Typed::Single(_) => panic!("a sequence was asked for"),
    }
    Ok(())
}

fn rs_single_value() -> Result<(), DeserError> {
    let optional = Shape::Single(RowShape::Scalar(ScalarType::optional(ScalarKind::Decimal)));
    let required = Shape::Single(RowShape::Scalar(ScalarType::required(ScalarKind::Decimal)));

    let value = get_resultset_o1(false).into_typed(&optional)?;
    assert_eq!(value, Typed::Single(TypedRow::Scalar(None)));

    let value = get_resultset_o1(true).into_typed(&optional)?;
    assert_ne!(value, Typed::Single(TypedRow::Scalar(None)));

    let value = get_resultset_o1(true).into_typed(&required)?;
    assert_eq!(
        value,
        Typed::Single(TypedRow::Scalar(Some(Scalar::Decimal(Decimal::new(3_456_789, 6)))))
    );
    Ok(())
}

fn impl_test_special_types() -> Result<(), DeserError> {
    rs_single_fields()?;
    rs_rows()?;
    rs_resultset()?;
    rs_single_value()?;
    Ok(())
}

#[test]
pub fn test_special_types() {
    match impl_test_special_types() {
        Err(e) => {
            println!("test_special_types() failed with {:?}", e);
            assert!(false)
        }
        Ok(_) => println!("test_special_types() ended successful"),
    }
}

#[test]
fn special_types_as_tuples_keep_the_null_pattern() {
    let shape = Shape::Sequence(RowShape::Tuple(vec![
        ScalarType::optional(ScalarKind::Decimal),
        ScalarType::optional(ScalarKind::Decimal),
        ScalarType::required(ScalarKind::Decimal),
        ScalarType::required(ScalarKind::Decimal),
    ]));
    let tuples = match get_resultset_ooff(SIZE).into_typed(&shape) {
        Ok(Typed::Sequence(tuples)) => tuples,
        other => panic!("a sequence was asked for, not {:?}", other),
    };
    assert_eq!(tuples.len(), 20);
    for (i, tuple) in tuples.into_iter().enumerate() {
        let n = i as i128;
        let first = if i % 2 == 0 { None } else { Some(Scalar::Decimal(Decimal::new(n * 10_000, 6))) };
        assert_eq!(
            tuple,
            TypedRow::Tuple(vec![
                first,
                Some(Scalar::Decimal(Decimal::new(n * 10_000, 6))),
                Some(Scalar::Decimal(Decimal::new(n * 1_000_000, 6))),
                Some(Scalar::Decimal(Decimal::new(n * 10_000_000 + 3_456_789, 6))),
            ])
        );
    }
}

#[test]
fn special_types_null_is_refused_by_a_required_target() {
    let required = Shape::Single(RowShape::Scalar(ScalarType::required(ScalarKind::Decimal)));
    assert_eq!(
        get_resultset_o1(false).into_typed(&required),
        Err(DeserError::Conversion(ConversionError::UnexpectedNull))
    );
}
