use firestore::value::{FEntry, FTimestamp, FValue};
use firestore::wire::{
    array_value, bool_value, byte_value, int_value, map_value, map_value_from_vec, null_value,
    str_value, timestamp_value, WireEntry, WireValue,
};

fn sample_value() -> FValue {
    FValue::MapValue(vec![
        FEntry {
            key: "name".to_owned(),
            value: FValue::Str("asdf".to_owned()),
        },
        FEntry {
            key: "count".to_owned(),
            value: FValue::Int(333),
        },
        FEntry {
            key: "flag".to_owned(),
            value: FValue::Bool(true),
        },
        FEntry {
            key: "blob".to_owned(),
            value: FValue::Bytes(vec![1, 2, 3]),
        },
        FEntry {
            key: "when".to_owned(),
            value: FValue::Timestamp(FTimestamp {
                seconds: 1033570800,
                nanos: 7,
            }),
        },
        FEntry {
            key: "ratio".to_owned(),
            value: FValue::DoubleBits(333.3f64.to_bits()),
        },
        FEntry {
            key: "items".to_owned(),
            value: FValue::Array(vec![FValue::NullValue, FValue::Int(-1)]),
        },
    ])
}

#[test]
fn wire_round_trip() {
    let v = sample_value();
    let again = FValue::from_grpc_value(&v.to_grpc_value()).unwrap();
    assert_eq!(v, again);
}

fn nested_arrays(levels: usize) -> FValue {
    let mut v = FValue::Str("leaf".to_owned());
    for _ in 0..levels {
        v = FValue::Array(vec![v]);
    }
    v
}

#[test]
fn depth_twenty_converts() {
    let v = nested_arrays(20);
    assert!(v.try_to_grpc_value().is_some());
}

#[test]
fn depth_twenty_one_aborts() {
    let v = nested_arrays(21);
    assert!(v.try_to_grpc_value().is_none());
}

#[test]
fn unsupported_wire_kinds_fail_fast() {
    let w = WireValue::ReferenceValue("projects/x".to_owned());
    assert!(FValue::from_grpc_value(&w).is_err());
    let nested = WireValue::ArrayValue(vec![
        WireValue::IntegerValue(1),
        WireValue::GeoPointValue(firestore::wire::GeoPoint {
            latitude_bits: 0,
            longitude_bits: 0,
        }),
    ]);
    assert!(FValue::from_grpc_value(&nested).is_err());
}

#[test]
fn wire_constructors_build_each_kind() {
    assert_eq!(WireValue::NullValue, null_value());
    assert_eq!(WireValue::BooleanValue(true), bool_value(true));
    assert_eq!(WireValue::IntegerValue(-5), int_value(-5));
    assert_eq!(WireValue::StringValue("s".to_owned()), str_value("s".to_owned()));
    assert_eq!(WireValue::BytesValue(vec![9]), byte_value(vec![9]));
    let t = FTimestamp { seconds: 1, nanos: 2 };
    assert_eq!(WireValue::TimestampValue(t), timestamp_value(t));
    assert_eq!(
        WireValue::ArrayValue(vec![WireValue::NullValue]),
        array_value(vec![WireValue::NullValue])
    );
    let entries = vec![WireEntry {
        key: "k".to_owned(),
        value: WireValue::IntegerValue(1),
    }];
    assert_eq!(
        WireValue::MapValue(vec![WireEntry {
            key: "k".to_owned(),
            value: WireValue::IntegerValue(1),
        }]),
        map_value(entries)
    );
    assert_eq!(
        WireValue::MapValue(vec![WireEntry {
            key: "k".to_owned(),
            value: WireValue::IntegerValue(1),
        }]),
        map_value_from_vec(vec![("k".to_owned(), WireValue::IntegerValue(1))])
    );
}

#[test]
fn accessors_match_variants() {
    assert_eq!(
        Some("x".to_owned()),
        FValue::Str("x".to_owned()).into_string()
    );
    assert_eq!(None, FValue::Int(1).into_string());
    assert_eq!(Some(7), FValue::Int(7).into_int());
    assert_eq!(Some(true), FValue::Bool(true).into_bool());
    assert_eq!(Some(vec![1u8]), FValue::Bytes(vec![1]).into_bytes());
    let t = FTimestamp { seconds: 5, nanos: 6 };
    assert_eq!(Some(t), FValue::Timestamp(t).into_system());
    assert_eq!(Some(1.5f64.to_bits()), FValue::DoubleBits(1.5f64.to_bits()).into_double_bits());
    assert_eq!(Some(&7i64), FValue::Int(7).as_int());
    assert_eq!(None, FValue::NullValue.as_int());
    let arr = FValue::Array(vec![FValue::Int(1)]);
    assert_eq!(1, arr.as_array().unwrap().len());
    assert_eq!(Some(vec![FValue::Int(1)]), arr.into_array());
}

#[test]
fn array_and_map_from_vec() {
    let a = firestore::value::array_value_from_vec(vec![FValue::Int(1), FValue::Int(2)]);
    assert_eq!(FValue::Array(vec![FValue::Int(1), FValue::Int(2)]), a);
    let m = firestore::value::map_value_from_vec(vec![
        ("k".to_owned(), FValue::Str("bbb".to_owned())),
        ("sa".to_owned(), FValue::Int(333)),
    ]);
    match m {
        FValue::MapValue(entries) => {
            assert_eq!(2, entries.len());
            assert_eq!("k", entries[0].key);
            assert_eq!(FValue::Str("bbb".to_owned()), entries[0].value);
            assert_eq!("sa", entries[1].key);
            assert_eq!(FValue::Int(333), entries[1].value);
        }
        _ => panic!("expected a map value"),
    }
}
