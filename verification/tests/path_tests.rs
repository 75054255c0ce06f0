use firestore::path::{doc_path, parse_document_path, FDocumentPath};

#[test]
fn parse_doc_path_test() {
    {
        let (parent, col_id, doc_id) =
            parse_document_path("projects/aaa/databases/(default)/documents/coll_1/doc_1")
                .unwrap();
        assert_eq!(None, parent);
        assert_eq!("coll_1", col_id);
        assert_eq!("doc_1", doc_id);
    }

    {
        let (parent, col_id, doc_id) = parse_document_path(
            "projects/aaa/databases/(default)/documents/coll_1/doc_1/coll_2/doc_2",
        )
        .unwrap();
        assert_eq!(Some("/coll_1/doc_1".to_owned()), parent);
        assert_eq!("coll_2", col_id);
        assert_eq!("doc_2", doc_id);
    }

    {
        let (parent, col_id, doc_id) =
            parse_document_path("projects/aaa/databases/(default)/documents/documents/doc_1")
                .unwrap();
        assert_eq!(None, parent);
        assert_eq!("documents", col_id);
        assert_eq!("doc_1", doc_id);
    }

    {
        let result = parse_document_path("projects/aaa/databases/(default)/documents/coll_1");
        assert!(result.is_err())
    }

    {
        let result = parse_document_path("projects/aaa/databases/(default)/documents/coll_1/");
        assert!(result.is_err())
    }

    {
        let result = parse_document_path("projects/aaa/databases/(default)/documents///");
        assert!(result.is_err())
    }
}

#[test]
fn doc_path_joins_parts() {
    assert_eq!(
        "/coll_1/doc_1",
        doc_path(None, "coll_1".to_owned(), "doc_1".to_owned())
    );
    assert_eq!(
        "/parent/p1/coll_1/doc_1",
        doc_path(
            Some("/parent/p1".to_owned()),
            "coll_1".to_owned(),
            "doc_1".to_owned()
        )
    );
}

#[test]
fn document_path_round_trips_through_string() {
    let parsed =
        FDocumentPath::parse("projects/aaa/databases/(default)/documents/coll_1/doc_1/c2/d2")
            .unwrap();
    assert_eq!(Some("/coll_1/doc_1".to_owned()), parsed.parent_path);
    assert_eq!("c2", parsed.collection_id);
    assert_eq!("d2", parsed.document_id);
    assert_eq!("/coll_1/doc_1/c2/d2", parsed.into_string());
}

#[test]
fn new_keeps_components() {
    let p = FDocumentPath::new(None, "c".to_owned(), "d".to_owned());
    assert_eq!(None, p.parent_path);
    assert_eq!("c", p.collection_id);
    assert_eq!("d", p.document_id);
    assert_eq!("/c/d", p.into_string());
}
