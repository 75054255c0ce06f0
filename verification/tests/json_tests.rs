use firestore::json::{JsonEntry, JsonValue};
use firestore::value::{FEntry, FTimestamp, FValue};

#[test]
fn timestamp_renders_as_rfc3339() {
    let v = FValue::Timestamp(FTimestamp {
        seconds: 1033570800,
        nanos: 0,
    });
    let j = v.to_json().unwrap();
    assert_eq!(JsonValue::Str("2002-10-02T15:00:00+00:00".to_owned()), j);
}

#[test]
fn rfc3339_string_imports_as_timestamp() {
    let j = JsonValue::Str("2002-10-02T10:00:00-05:00".to_owned());
    let v = FValue::from_json(&j);
    assert_eq!(
        FValue::Timestamp(FTimestamp {
            seconds: 1033570800,
            nanos: 0,
        }),
        v
    );
}

#[test]
fn plain_string_stays_a_string() {
    let j = JsonValue::Str("something".to_owned());
    assert_eq!(FValue::Str("something".to_owned()), FValue::from_json(&j));
}

#[test]
fn timestamp_out_of_calendar_range_fails_to_export() {
    let v = FValue::Timestamp(FTimestamp {
        seconds: i64::MAX,
        nanos: 0,
    });
    assert!(v.to_json().is_err());
}

#[test]
fn scalars_and_containers_import_each_kind() {
    assert_eq!(FValue::NullValue, FValue::from_json(&JsonValue::Null));
    assert_eq!(FValue::Bool(true), FValue::from_json(&JsonValue::Bool(true)));
    assert_eq!(FValue::Int(12), FValue::from_json(&JsonValue::Int(12)));
    let bits = 12.2f64.to_bits();
    assert_eq!(
        FValue::DoubleBits(bits),
        FValue::from_json(&JsonValue::DoubleBits(bits))
    );
    let arr = JsonValue::Array(vec![JsonValue::Int(1), JsonValue::Int(2), JsonValue::Int(3)]);
    assert_eq!(
        FValue::Array(vec![FValue::Int(1), FValue::Int(2), FValue::Int(3)]),
        FValue::from_json(&arr)
    );
    let obj = JsonValue::Object(vec![JsonEntry {
        key: "f".to_owned(),
        value: JsonValue::Int(7),
    }]);
    assert_eq!(
        FValue::MapValue(vec![FEntry {
            key: "f".to_owned(),
            value: FValue::Int(7),
        }]),
        FValue::from_json(&obj)
    );
}

#[test]
fn export_keeps_scalars_and_turns_bytes_into_numbers() {
    assert_eq!(JsonValue::Null, FValue::NullValue.to_json().unwrap());
    assert_eq!(JsonValue::Int(5), FValue::Int(5).to_json().unwrap());
    assert_eq!(
        JsonValue::Bool(false),
        FValue::Bool(false).to_json().unwrap()
    );
    assert_eq!(
        JsonValue::Array(vec![JsonValue::Int(1), JsonValue::Int(255)]),
        FValue::Bytes(vec![1u8, 255u8]).to_json().unwrap()
    );
    let v = FValue::MapValue(vec![FEntry {
        key: "s".to_owned(),
        value: FValue::Str("x".to_owned()),
    }]);
    assert_eq!(
        JsonValue::Object(vec![JsonEntry {
            key: "s".to_owned(),
            value: JsonValue::Str("x".to_owned()),
        }]),
        v.to_json().unwrap()
    );
}
