use firestore::error::FirestoreError;
use firestore::fields::FFields;
use firestore::request::{new_update_document_request, DocumentWriteOperation, WriteOperation};
use firestore::value::FValue;
use firestore::wire::WireValue;

#[test]
fn add_and_get_round_trip() {
    let mut fields = FFields::empty();
    fields.add("ssss".to_owned(), FValue::Str("asdf".to_owned()));
    assert_eq!(
        Some("asdf".to_owned()),
        fields.get("ssss").unwrap().as_string().cloned()
    );
    assert!(fields.get("missing").is_none());
}

#[test]
fn add_replaces_an_existing_field() {
    let mut fields = FFields::empty();
    fields.add("k".to_owned(), FValue::Int(1));
    fields.add("k".to_owned(), FValue::Int(2));
    assert_eq!(Some(&FValue::Int(2)), fields.get("k"));
}

#[test]
fn full_update_payload_carries_only_its_fields_and_no_mask() {
    // An update of {bbb: null} with no field mask: the request's update mask
    // stays empty, so the server replaces the whole field set and drops any
    // previous fields such as `ssss`.
    let mut created = FFields::empty();
    created.add("ssss".to_owned(), FValue::Str("asdf".to_owned()));

    let mut update = FFields::empty();
    update.add("bbb".to_owned(), FValue::NullValue);

    let req = new_update_document_request(
        "p".to_owned(),
        "/c/d".to_owned(),
        update,
        None,
        None,
    );
    assert!(req.update_mask.is_none());
    let doc = req.document.unwrap();
    assert_eq!(1, doc.fields.len());
    assert_eq!("bbb", doc.fields[0].key);
    assert_eq!(WireValue::NullValue, doc.fields[0].value);
}

#[test]
fn fields_convert_to_wire_entries_in_order() {
    let mut fields = FFields::empty();
    fields.add("a".to_owned(), FValue::Int(1));
    fields.add("b".to_owned(), FValue::Str("x".to_owned()));
    let wire = fields.to_grpc_fields();
    assert_eq!(2, wire.len());
    assert_eq!("a", wire[0].key);
    assert_eq!(WireValue::IntegerValue(1), wire[0].value);
    assert_eq!("b", wire[1].key);
    assert_eq!(WireValue::StringValue("x".to_owned()), wire[1].value);
}

#[test]
fn fields_from_wire_entries_and_back() {
    let mut fields = FFields::empty();
    fields.add("n".to_owned(), FValue::Int(42));
    let wire = fields.to_grpc_fields();
    let again = FFields::from_grpc_fields(wire).unwrap();
    assert_eq!(Some(&FValue::Int(42)), again.get("n"));
}

#[test]
fn create_operation_keeps_fields() {
    let mut fields = FFields::empty();
    fields.add("aaaa".to_owned(), FValue::Int(1111));
    let op = DocumentWriteOperation::new_create(
        None,
        "test_coll".to_owned(),
        "doc_2".to_owned(),
        fields,
    );
    assert_eq!("/test_coll/doc_2", op.document_path);
    match &op.operation {
        WriteOperation::Create(entries) => {
            assert_eq!(1, entries.len());
            assert_eq!("aaaa", entries[0].key);
            assert_eq!(WireValue::IntegerValue(1111), entries[0].value);
        }
        _ => panic!("a create must stay a create"),
    }
    assert!(op.update_field_mask.is_none());
}

#[test]
fn from_json_rejects_non_objects() {
    let r = FFields::from_json(firestore::json::JsonValue::Int(3));
    match r {
        Err(FirestoreError::Serialization(_)) => {}
        _ => panic!("a non-object json value must be rejected"),
    }
}
