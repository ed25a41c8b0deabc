use serde_db::de::row::all_distinct;
use serde_db::de::{
    ConversionError, Decimal, DeserError, DeserializableRow, FieldShape, FieldVisitor, Row,
    RowShape, Scalar, ScalarKind, ScalarType, TypedRow, Value,
};

fn names(list: &[&str]) -> Vec<String> {
    list.iter().map(|name| name.to_string()).collect()
}

fn row(columns: &[&str], values: Vec<Value>) -> Row<Value> {
    Row::new(names(columns), values).unwrap()
}

fn sample() -> Row<Value> {
    row(
        &["id", "name", "balance", "active"],
        vec![
            Value::I32(17),
            Value::Text("Ada".to_string()),
            Value::Decimal(Decimal::new(-1250, 2)),
            Value::Bool(true),
        ],
    )
}

fn field(name: &str, ty: ScalarType) -> FieldShape {
    FieldShape { name: name.to_string(), ty }
}

fn req(kind: ScalarKind) -> ScalarType {
    ScalarType::required(kind)
}

fn opt(kind: ScalarKind) -> ScalarType {
    ScalarType::optional(kind)
}

#[test]
fn names_are_distinct_or_not() {
    assert!(all_distinct(&names(&[])));
    assert!(all_distinct(&names(&["a"])));
    assert!(all_distinct(&names(&["a", "b", "c"])));
    assert!(!all_distinct(&names(&["a", "b", "a"])));
    assert!(!all_distinct(&names(&["a", "a"])));
    assert!(all_distinct(&names(&["a", "A"])));
}

#[test]
fn a_row_needs_one_distinct_name_per_value() {
    assert!(Row::new(names(&["a", "b"]), vec![Value::Null, Value::Null]).is_some());
    assert!(Row::<Value>::new(names(&[]), vec![]).is_some());
    assert!(Row::new(names(&["a"]), vec![Value::Null, Value::Null]).is_none());
    assert!(Row::new(names(&["a", "b"]), vec![Value::Null]).is_none());
    assert!(Row::new(names(&["a", "a"]), vec![Value::Null, Value::Null]).is_none());
}

#[test]
fn the_row_contract() {
    let mut r = sample();
    assert_eq!(r.len(), 4);
    assert_eq!(r.get(0), Some(&Value::I32(17)));
    assert_eq!(r.get(3), Some(&Value::Bool(true)));
    assert_eq!(r.get(4), None);
    assert_eq!(r.last(), Some(&Value::Bool(true)));
    assert_eq!(r.get_fieldname(0), Some(&"id".to_string()));
    assert_eq!(r.get_fieldname(3), Some(&"active".to_string()));
    assert_eq!(r.get_fieldname(4), None);
    assert_eq!(r.pop(), Some(Value::Bool(true)));
    assert_eq!(r.len(), 3);
    assert_eq!(r.get_fieldname(3), Some(&"active".to_string()));
    r.reverse_values();
    assert_eq!(r.get(0), Some(&Value::Decimal(Decimal::new(-1250, 2))));
    assert_eq!(r.pop(), Some(Value::I32(17)));
    assert_eq!(r.pop(), Some(Value::Text("Ada".to_string())));
    assert_eq!(r.last(), Some(&Value::Decimal(Decimal::new(-1250, 2))));
    assert_eq!(r.pop(), Some(Value::Decimal(Decimal::new(-1250, 2))));
    assert_eq!(r.pop(), None);
    assert_eq!(r.last(), None);
    assert_eq!(r.len(), 0);
}

#[test]
fn reversing_twice_changes_nothing() {
    let mut r = sample();
    r.reverse_values();
    r.reverse_values();
    assert_eq!(r, sample());
}

#[test]
fn the_steps_of_a_conversion() {
    let mut r = row(&["a", "b"], vec![Value::I8(1), Value::I8(2)]);
    assert_eq!(r.expect_end(), Err(DeserError::WrongArity));
    assert_eq!(r.sole_is_null(), Err(DeserError::WrongArity));
    assert_eq!(r.next_value(), Ok(Value::I8(2)));
    assert_eq!(r.sole_is_null(), Ok(false));
    assert_eq!(r.next_value(), Ok(Value::I8(1)));
    assert_eq!(r.next_value(), Err(DeserError::WrongArity));
    assert_eq!(r.expect_end(), Ok(()));
    assert_eq!(r.sole_is_null(), Err(DeserError::WrongArity));

    assert_eq!(row(&["a"], vec![Value::Null]).sole_is_null(), Ok(true));
    assert_eq!(row(&["a"], vec![Value::I8(3)]).sole_value(), Ok(Value::I8(3)));
    assert_eq!(row(&[], vec![]).sole_value(), Err(DeserError::WrongArity));
    assert_eq!(sample().sole_value(), Err(DeserError::WrongArity));
}

#[test]
fn names_go_with_the_values_that_are_left() {
    let mut r = sample();
    assert_eq!(r.next_fieldname(3), None);
    assert_eq!(r.next_fieldname(5), Some(&"name".to_string()));
    r.reverse_values();
    assert_eq!(r.next_fieldname(4), Some(&"id".to_string()));
    assert_eq!(r.pop(), Some(Value::I32(17)));
    assert_eq!(r.next_fieldname(4), Some(&"name".to_string()));
    assert_eq!(r.pop(), Some(Value::Text("Ada".to_string())));
    assert_eq!(r.next_fieldname(4), Some(&"balance".to_string()));
    r.pop();
    assert_eq!(r.next_fieldname(4), Some(&"active".to_string()));
    assert_eq!(r.next_fieldname(9), None);
    r.pop();
    assert_eq!(r.next_fieldname(4), None);
}

#[test]
fn columns_are_found_by_name() {
    let r = sample();
    assert_eq!(r.column_index(&"id".to_string()), Some(0));
    assert_eq!(r.column_index(&"balance".to_string()), Some(2));
    assert_eq!(r.column_index(&"active".to_string()), Some(3));
    assert_eq!(r.column_index(&"Active".to_string()), None);
    assert_eq!(r.column_index(&"".to_string()), None);
}

#[test]
fn a_column_without_a_value_is_not_found() {
    let mut r = sample();
    r.pop();
    assert_eq!(r.column_index(&"balance".to_string()), Some(2));
    assert_eq!(r.column_index(&"active".to_string()), None);
}

#[test]
fn a_tuple_takes_the_columns_in_order() {
    let types = vec![
        req(ScalarKind::I64),
        req(ScalarKind::Text),
        opt(ScalarKind::Decimal),
        req(ScalarKind::Bool),
    ];
    let expected = vec![
        Some(Scalar::I64(17)),
        Some(Scalar::Text("Ada".to_string())),
        Some(Scalar::Decimal(Decimal::new(-1250, 2))),
        Some(Scalar::Bool(true)),
    ];
    assert_eq!(sample().into_tuple(&types), Ok(expected.clone()));
    assert_eq!(sample().into_typed(&RowShape::Tuple(types)), Ok(TypedRow::Tuple(expected)));
}

#[test]
fn the_empty_tuple_fits_the_empty_row() {
    assert_eq!(row(&[], vec![]).into_tuple(&vec![]), Ok(vec![]));
    assert_eq!(sample().into_tuple(&vec![]), Err(DeserError::WrongArity));
}

#[test]
fn a_tuple_needs_as_many_columns_as_elements() {
    let three = vec![req(ScalarKind::I64), req(ScalarKind::Text), req(ScalarKind::Decimal)];
    assert_eq!(sample().into_tuple(&three), Err(DeserError::WrongArity));
    let five = vec![
        req(ScalarKind::I64),
        req(ScalarKind::Text),
        req(ScalarKind::Decimal),
        req(ScalarKind::Bool),
        opt(ScalarKind::Bool),
    ];
    assert_eq!(sample().into_tuple(&five), Err(DeserError::WrongArity));
}

#[test]
fn the_first_failure_of_a_tuple_wins() {
    let mismatch = Err(DeserError::Conversion(ConversionError::TypeMismatch));
    let range = Err(DeserError::Conversion(ConversionError::ValueOutOfRange));
    // A value that does not convert is met before the columns that are left over.
    let short = vec![req(ScalarKind::I64), req(ScalarKind::Bool)];
    assert_eq!(sample().into_tuple(&short), mismatch);
    // ... and before the columns that are missing.
    let long = vec![
        req(ScalarKind::I64),
        req(ScalarKind::Text),
        req(ScalarKind::U8),
        req(ScalarKind::Bool),
        req(ScalarKind::Bool),
    ];
    assert_eq!(sample().into_tuple(&long), range);
    // Of two values that do not convert, the one in the earlier column is reported.
    let both = vec![
        req(ScalarKind::I64),
        req(ScalarKind::Text),
        req(ScalarKind::U8),
        req(ScalarKind::Text),
    ];
    assert_eq!(sample().into_tuple(&both), range);
}

#[test]
fn a_record_finds_its_fields_by_name() {
    let fields = vec![
        field("active", req(ScalarKind::Bool)),
        field("id", req(ScalarKind::U8)),
        field("balance", req(ScalarKind::Decimal)),
        field("name", opt(ScalarKind::Text)),
    ];
    let expected = vec![
        Some(Scalar::Bool(true)),
        Some(Scalar::U8(17)),
        Some(Scalar::Decimal(Decimal::new(-1250, 2))),
        Some(Scalar::Text("Ada".to_string())),
    ];
    assert_eq!(sample().into_record(&fields), Ok(expected.clone()));
    assert_eq!(sample().into_typed(&RowShape::Record(fields)), Ok(TypedRow::Record(expected)));
}

#[test]
fn a_record_ignores_the_columns_it_does_not_name() {
    let fields = vec![field("name", req(ScalarKind::Text))];
    assert_eq!(sample().into_record(&fields), Ok(vec![Some(Scalar::Text("Ada".to_string()))]));
    assert_eq!(sample().into_record(&vec![]), Ok(vec![]));
}

#[test]
fn a_record_field_without_a_column_is_unknown() {
    let fields = vec![
        field("id", req(ScalarKind::I32)),
        field("surname", req(ScalarKind::Text)),
        field("nickname", req(ScalarKind::Text)),
    ];
    assert_eq!(
        sample().into_record(&fields),
        Err(DeserError::UnknownColumn("surname".to_string()))
    );
    assert_eq!(
        row(&[], vec![]).into_record(&fields),
        Err(DeserError::UnknownColumn("id".to_string()))
    );
}

#[test]
fn a_record_cannot_name_a_column_twice() {
    let fields = vec![
        field("id", req(ScalarKind::I32)),
        field("name", req(ScalarKind::Text)),
        field("id", req(ScalarKind::I64)),
    ];
    assert_eq!(sample().into_record(&fields), Err(DeserError::UnsupportedShape));
}

#[test]
fn the_first_failure_of_a_record_wins() {
    let fields = vec![
        field("name", req(ScalarKind::I32)),
        field("surname", req(ScalarKind::Text)),
    ];
    assert_eq!(
        sample().into_record(&fields),
        Err(DeserError::Conversion(ConversionError::TypeMismatch))
    );
    let fields = vec![
        field("surname", req(ScalarKind::Text)),
        field("name", req(ScalarKind::I32)),
    ];
    assert_eq!(
        sample().into_record(&fields),
        Err(DeserError::UnknownColumn("surname".to_string()))
    );
    let fields = vec![
        field("id", req(ScalarKind::I32)),
        field("id", req(ScalarKind::Bool)),
        field("surname", req(ScalarKind::Text)),
    ];
    assert_eq!(sample().into_record(&fields), Err(DeserError::UnsupportedShape));
}

#[test]
fn a_scalar_needs_a_row_of_one_column() {
    let one = || row(&["n"], vec![Value::U16(500)]);
    assert_eq!(one().into_scalar(req(ScalarKind::I32)), Ok(Some(Scalar::I32(500))));
    assert_eq!(
        one().into_typed(&RowShape::Scalar(opt(ScalarKind::I32))),
        Ok(TypedRow::Scalar(Some(Scalar::I32(500))))
    );
    assert_eq!(
        one().into_scalar(req(ScalarKind::U8)),
        Err(DeserError::Conversion(ConversionError::ValueOutOfRange))
    );
    assert_eq!(sample().into_scalar(req(ScalarKind::I32)), Err(DeserError::WrongArity));
    assert_eq!(row(&[], vec![]).into_scalar(opt(ScalarKind::I32)), Err(DeserError::WrongArity));
    assert_eq!(
        sample().into_typed(&RowShape::Scalar(req(ScalarKind::I32))),
        Err(DeserError::WrongArity)
    );
}

#[test]
fn null_in_a_row() {
    let r = || row(&["a", "b"], vec![Value::Null, Value::I8(1)]);
    assert_eq!(
        r().into_tuple(&vec![opt(ScalarKind::Text), opt(ScalarKind::I8)]),
        Ok(vec![None, Some(Scalar::I8(1))])
    );
    assert_eq!(
        r().into_tuple(&vec![req(ScalarKind::Text), opt(ScalarKind::I8)]),
        Err(DeserError::Conversion(ConversionError::UnexpectedNull))
    );
    assert_eq!(
        r().into_record(&vec![field("a", req(ScalarKind::Bytes))]),
        Err(DeserError::Conversion(ConversionError::UnexpectedNull))
    );
    assert_eq!(r().into_record(&vec![field("a", opt(ScalarKind::Bytes))]), Ok(vec![None]));
}

#[test]
fn no_row_becomes_a_mapping() {
    assert_eq!(sample().into_typed(&RowShape::Mapping), Err(DeserError::UnsupportedShape));
    assert_eq!(row(&[], vec![]).into_typed(&RowShape::Mapping), Err(DeserError::UnsupportedShape));
}

#[test]
fn a_tuple_holds_what_the_field_visitor_makes_of_each_value() {
    let types = vec![
        req(ScalarKind::U64),
        opt(ScalarKind::Text),
        req(ScalarKind::Decimal),
        opt(ScalarKind::Bool),
    ];
    let tuple = sample().into_tuple(&types).unwrap();
    let source = sample();
    assert_eq!(tuple.len(), source.len());
    for (i, element) in tuple.iter().enumerate() {
        let alone = FieldVisitor::new(source.get(i).unwrap().clone()).visit(types[i]);
        assert_eq!(alone.as_ref(), Ok(element));
    }
}
