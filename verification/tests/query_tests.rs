use firestore::error::{FirestoreError, ValidationError};
use firestore::query::{
    str_to_direction, str_to_field_op, str_to_unary_op, Direction, FieldOperator, Filter,
    QueryBuilder, UnaryOperator,
};
use firestore::value::FValue;
use firestore::wire::WireValue;

#[test]
fn operator_tokens_parse_exactly() {
    assert_eq!(Ok(FieldOperator::LessThan), str_to_field_op("<"));
    assert_eq!(Ok(FieldOperator::LessThanOrEqual), str_to_field_op("<="));
    assert_eq!(Ok(FieldOperator::Equal), str_to_field_op("=="));
    assert_eq!(Ok(FieldOperator::GreaterThan), str_to_field_op(">"));
    assert_eq!(Ok(FieldOperator::GreaterThanOrEqual), str_to_field_op(">="));
    assert_eq!(Ok(FieldOperator::NotEqual), str_to_field_op("!="));
    assert_eq!(Ok(FieldOperator::ArrayContains), str_to_field_op("array-contains"));
    assert_eq!(
        Ok(FieldOperator::ArrayContainsAny),
        str_to_field_op("array-contains-any")
    );
    assert_eq!(Ok(FieldOperator::In), str_to_field_op("in"));
    assert_eq!(Ok(FieldOperator::NotIn), str_to_field_op("not-in"));
    match str_to_field_op("~~") {
        Err(FirestoreError::Validation(ValidationError::UnknownOperatorToken(t))) => {
            assert_eq!("~~", t)
        }
        _ => panic!("an unknown operator token must be rejected"),
    }
}

#[test]
fn unary_and_direction_tokens_parse_exactly() {
    assert_eq!(Ok(UnaryOperator::IsNan), str_to_unary_op("is-nan"));
    assert_eq!(Ok(UnaryOperator::IsNull), str_to_unary_op("is-null"));
    assert_eq!(Ok(UnaryOperator::IsNotNan), str_to_unary_op("is-not-nan"));
    assert_eq!(Ok(UnaryOperator::IsNotNull), str_to_unary_op("is-not-null"));
    assert!(str_to_unary_op("nope").is_err());
    assert_eq!(Ok(Direction::Ascending), str_to_direction("asc"));
    assert_eq!(Ok(Direction::Descending), str_to_direction("desc"));
    assert!(str_to_direction("sideways").is_err());
}

#[test]
fn two_filters_merge_under_and() {
    let q = QueryBuilder::collection("test_coll".to_owned(), false)
        .filter_bin("bbb".to_owned(), "==", FValue::Str("ssss".to_owned()))
        .filter_bin(
            "cccc".to_owned(),
            "array-contains",
            FValue::Str("hello".to_owned()),
        )
        .build();
    match q.filter {
        Some(Filter::CompositeAnd(fs)) => {
            assert_eq!(2, fs.len());
            match &fs[0] {
                Filter::Field(f) => {
                    assert_eq!("bbb", f.field.field_path);
                    assert_eq!(FieldOperator::Equal, f.op);
                    assert_eq!(WireValue::StringValue("ssss".to_owned()), f.value);
                }
                _ => panic!("the first clause must be the field filter"),
            }
        }
        _ => panic!("two filters must merge under a logical and"),
    }
    assert_eq!(1, q.from.len());
    assert_eq!("test_coll", q.from[0].collection_id);
    assert!(!q.from[0].all_descendants);
}

#[test]
fn one_filter_passes_through_unwrapped() {
    let q = QueryBuilder::collection("c".to_owned(), false)
        .filter_una("bbb".to_owned(), "is-null")
        .build();
    match q.filter {
        Some(Filter::Unary(u)) => {
            assert_eq!(UnaryOperator::IsNull, u.op);
            assert_eq!("bbb", u.field.field_path);
        }
        _ => panic!("a single filter must pass through unwrapped"),
    }
}

#[test]
fn zero_filters_yield_no_clause() {
    let q = QueryBuilder::collection("c".to_owned(), true).build();
    assert!(q.filter.is_none());
    assert!(q.from[0].all_descendants);
}

#[test]
fn builder_carries_projection_order_offset_limit() {
    let q = QueryBuilder::collection("c".to_owned(), false)
        .select(vec!["x".to_owned(), "y".to_owned()])
        .order("x".to_owned(), "desc")
        .offset(3)
        .limit(10)
        .build();
    let p = q.select.unwrap();
    assert_eq!(2, p.fields.len());
    assert_eq!("x", p.fields[0].field_path);
    assert_eq!(1, q.order_by.len());
    assert_eq!(Direction::Descending, q.order_by[0].direction);
    assert_eq!(3, q.offset);
    assert_eq!(Some(10), q.limit);
    assert!(q.start_at.is_none());
    assert!(q.end_at.is_none());
}
