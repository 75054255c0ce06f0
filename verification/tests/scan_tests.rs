use firestore::client::{from_write_result, from_write_results, prefix_scan_step, ScanStep};
use firestore::doc::FDocument;
use firestore::fields::FFields;
use firestore::request::{Document, WriteResult};
use firestore::value::FValue;
use firestore::wire::{int_value, WireEntry, WireValue};

fn doc_fields(value: &str) -> FFields {
    let mut f = FFields::empty();
    f.add("name".to_owned(), FValue::Str(value.to_owned()));
    f
}

#[test]
fn prefix_scan_takes_skips_and_stops() {
    assert_eq!(
        ScanStep::Take,
        prefix_scan_step(&doc_fields("prefix-more"), "name", "prefix", false)
    );
    assert_eq!(
        ScanStep::Skip,
        prefix_scan_step(&doc_fields("prefix"), "name", "prefix", false)
    );
    assert_eq!(
        ScanStep::Take,
        prefix_scan_step(&doc_fields("prefix"), "name", "prefix", true)
    );
    assert_eq!(
        ScanStep::Stop,
        prefix_scan_step(&doc_fields("other"), "name", "prefix", false)
    );
    assert_eq!(
        ScanStep::Stop,
        prefix_scan_step(&doc_fields("x"), "absent", "prefix", false)
    );
    let mut not_a_string = FFields::empty();
    not_a_string.add("name".to_owned(), FValue::Int(3));
    assert_eq!(
        ScanStep::Stop,
        prefix_scan_step(&not_a_string, "name", "prefix", false)
    );
}

#[test]
fn write_results_convert_transform_values() {
    let wr = WriteResult {
        transform_results: vec![int_value(1), int_value(2)],
        update_time: None,
    };
    let vs = from_write_result(wr).unwrap();
    assert_eq!(vec![FValue::Int(1), FValue::Int(2)], vs);

    let wrs = vec![
        WriteResult {
            transform_results: vec![],
            update_time: None,
        },
        WriteResult {
            transform_results: vec![int_value(3)],
            update_time: None,
        },
    ];
    let vss = from_write_results(wrs).unwrap();
    assert_eq!(2, vss.len());
    assert_eq!(0, vss[0].len());
    assert_eq!(vec![FValue::Int(3)], vss[1]);

    let bad = WriteResult {
        transform_results: vec![WireValue::ReferenceValue("r".to_owned())],
        update_time: None,
    };
    assert!(from_write_result(bad).is_err());
}

#[test]
fn document_from_wire_parses_path_and_fields() {
    let doc = Document {
        name: "projects/aaa/databases/(default)/documents/coll_1/doc_1".to_owned(),
        fields: vec![WireEntry {
            key: "ssss".to_owned(),
            value: WireValue::StringValue("asdf".to_owned()),
        }],
        create_time: None,
        update_time: None,
    };
    let fdoc = FDocument::from_document(doc).unwrap();
    assert_eq!("coll_1", fdoc.doc_path.collection_id);
    assert_eq!("doc_1", fdoc.doc_path.document_id);
    assert_eq!(
        Some("asdf".to_owned()),
        fdoc.fields.get("ssss").unwrap().as_string().cloned()
    );
    let (path, fvalue) = fdoc.to_path_and_fvalue();
    assert_eq!("/coll_1/doc_1", path.into_string());
    match fvalue {
        FValue::MapValue(entries) => assert_eq!(1, entries.len()),
        _ => panic!("a document's fields must form a map value"),
    }
}

#[test]
fn document_with_bad_path_is_rejected() {
    let doc = Document {
        name: "not-a-path".to_owned(),
        fields: vec![],
        create_time: None,
        update_time: None,
    };
    assert!(FDocument::from_document(doc).is_err());
}
