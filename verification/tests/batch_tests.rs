use firestore::client::{
    append_write_results, chunk_batch_write_operations, chunk_document_paths,
    map_get_document_status, prepare_batch_write, split_batch_get_results, DocResult,
};
use firestore::error::{FirestoreError, GrpcErrorStatus, ValidationError};
use firestore::request::{Document, DocumentWriteOperation, Operation, WriteResult};
use firestore::txn::MAX_BATCH_WRTIE_SIZE;

fn delete_op(n: usize) -> DocumentWriteOperation {
    DocumentWriteOperation::new_delete(format!("/test_coll/doc_{}", n))
}

fn empty_doc(name: &str) -> Document {
    Document {
        name: name.to_owned(),
        fields: vec![],
        create_time: None,
        update_time: None,
    }
}

#[test]
fn batch_write_of_451_is_rejected_before_any_call() {
    let ops: Vec<_> = (0..451).map(delete_op).collect();
    match prepare_batch_write("p".to_owned(), ops) {
        Err(FirestoreError::Validation(ValidationError::BatchTooLarge { limit, actual })) => {
            assert_eq!(450, limit);
            assert_eq!(451, actual);
        }
        _ => panic!("451 operations must be rejected"),
    }
}

#[test]
fn batch_write_of_450_is_accepted() {
    let ops: Vec<_> = (0..450).map(delete_op).collect();
    let req = prepare_batch_write("p".to_owned(), ops).unwrap();
    assert_eq!(450, req.writes.len());
    assert_eq!("projects/p/databases/(default)", req.database);
    match &req.writes[0].operation {
        Some(Operation::Delete(path)) => {
            assert_eq!("projects/p/databases/(default)/documents/test_coll/doc_0", path)
        }
        _ => panic!("a delete operation must stay a delete"),
    }
}

#[test]
fn large_batch_of_900_splits_into_two_calls_and_keeps_order() {
    let ops: Vec<_> = (0..900).map(delete_op).collect();
    let chunks = chunk_batch_write_operations(ops);
    assert_eq!(2, chunks.len());
    assert_eq!(450, chunks[0].len());
    assert_eq!(450, chunks[1].len());

    // Simulate the successive calls: each chunk returns one result per
    // operation, tagged with its position, and the driver concatenates them
    // in call order.
    let mut results: Vec<WriteResult> = Vec::new();
    let mut tag: i64 = 0;
    for chunk in &chunks {
        let each: Vec<WriteResult> = chunk
            .iter()
            .map(|_| {
                tag += 1;
                WriteResult {
                    transform_results: vec![firestore::wire::int_value(tag)],
                    update_time: None,
                }
            })
            .collect();
        append_write_results(&mut results, each);
    }
    assert_eq!(900, results.len());
    for (i, r) in results.iter().enumerate() {
        assert_eq!(
            firestore::wire::WireValue::IntegerValue(i as i64 + 1),
            r.transform_results[0]
        );
    }
    assert_eq!(MAX_BATCH_WRTIE_SIZE, chunks[0].len());
}

#[test]
fn batch_get_paths_chunked_by_one_thousand() {
    let paths: Vec<String> = (0..2500).map(|i| format!("/c/d{}", i)).collect();
    let chunks = chunk_document_paths(paths);
    assert_eq!(3, chunks.len());
    assert_eq!(1000, chunks[0].len());
    assert_eq!(1000, chunks[1].len());
    assert_eq!(500, chunks[2].len());
    assert_eq!("/c/d0", chunks[0][0]);
    assert_eq!("/c/d2499", chunks[2][499]);
}

#[test]
fn batch_get_partial_miss_reports_exactly_the_missing_path() {
    let items = vec![
        DocResult::Found(empty_doc("projects/p/databases/(default)/documents/c/d1")),
        DocResult::Missing("projects/p/databases/(default)/documents/not_exists_coll/some".to_owned()),
        DocResult::Found(empty_doc("projects/p/databases/(default)/documents/c/d2")),
    ];
    let (found, missing) = split_batch_get_results(items);
    assert_eq!(2, found.len());
    assert_eq!(1, missing.len());
    assert_eq!(
        "projects/p/databases/(default)/documents/not_exists_coll/some",
        missing[0]
    );
}

#[test]
fn get_document_not_found_becomes_absent() {
    let r = map_get_document_status(Err(GrpcErrorStatus {
        code: 5,
        message: "not found".to_owned(),
    }));
    assert_eq!(Ok(None), r);
}

#[test]
fn get_document_other_statuses_are_errors() {
    let r = map_get_document_status(Err(GrpcErrorStatus {
        code: 13,
        message: "internal".to_owned(),
    }));
    match r {
        Err(FirestoreError::Transport(st)) => assert_eq!(13, st.code),
        _ => panic!("a non-not-found status must surface as a transport error"),
    }
}

#[test]
fn get_document_found_is_returned() {
    let r = map_get_document_status(Ok(empty_doc("n")));
    assert_eq!(Ok(Some(empty_doc("n"))), r);
}

#[test]
fn query_stream_collects_only_documents() {
    let responses = vec![
        Some(empty_doc("a")),
        None,
        Some(empty_doc("b")),
    ];
    let docs = firestore::client::collect_query_documents(responses);
    assert_eq!(2, docs.len());
    assert_eq!("a", docs[0].name);
    assert_eq!("b", docs[1].name);
}
