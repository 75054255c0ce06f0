use firestore::auth::{
    bearer_header_value, cloud_platform_scope, datastore_scope, needs_refresh, next_shared_token,
    stop_auth_refreshing, AuthToken, RefreshControl, TokenManagerBuilder, TokenRefresh,
};
use firestore::connection::firestore_connection_point;
use firestore::error::{FirestoreError, GrpcErrorStatus, ValidationError};
use firestore::request::{
    default_database, fmt_document_path, new_begin_transaction_request,
    new_collection_ids_request, new_commit_request, new_rollback_request,
    project_and_default_database, validate_partial_document_path,
    validate_partial_document_paths, TransactionMode,
};
use firestore::size_calculator::{
    datetime_size, datetime_size_opt, number_size, string_size, string_size_opt,
    string_size_vec, string_size_vec_opt, usize_size,
};
use firestore::value::FTimestamp;

#[test]
fn sizes_follow_the_documented_rules() {
    let t = FTimestamp { seconds: 0, nanos: 0 };
    assert_eq!(8, datetime_size(&t));
    assert_eq!(8, datetime_size_opt(&Some(t)));
    assert_eq!(0, datetime_size_opt(&None));
    assert_eq!(8, usize_size(&123));
    assert_eq!(8, number_size(&-1));
    assert_eq!(15, string_size("abc"));
    assert_eq!(15, string_size_opt(&Some("abc".to_owned())));
    assert_eq!(0, string_size_opt(&None));
    assert_eq!(25, string_size_vec(&vec!["ab".to_owned(), "cde".to_owned()]));
    assert_eq!(
        25,
        string_size_vec_opt(&Some(vec!["ab".to_owned(), "cde".to_owned()]))
    );
    assert_eq!(0, string_size_vec_opt(&None));
}

#[test]
fn refresh_is_due_within_the_lead_time() {
    assert!(needs_refresh(Some(1000), 300, 700));
    assert!(needs_refresh(Some(1000), 300, 900));
    assert!(!needs_refresh(Some(1000), 300, 699));
    assert!(!needs_refresh(None, 300, 700));
}

#[test]
fn refresh_outcome_replaces_or_keeps_the_token() {
    let current = AuthToken {
        token: "old".to_owned(),
        expiry_seconds: Some(10),
    };
    let fresh = AuthToken {
        token: "new".to_owned(),
        expiry_seconds: Some(99),
    };
    assert_eq!(
        "new",
        next_shared_token(
            AuthToken {
                token: "old".to_owned(),
                expiry_seconds: Some(10)
            },
            Ok(fresh)
        )
        .token
    );
    let failed: Result<AuthToken, GrpcErrorStatus> = Err(GrpcErrorStatus {
        code: 14,
        message: "unavailable".to_owned(),
    });
    assert_eq!("old", next_shared_token(current, failed).token);
}

#[test]
fn stop_auth_refreshing_sets_the_flag() {
    let mut control = RefreshControl { finished: false };
    stop_auth_refreshing(&mut control);
    assert!(control.finished);
}

#[test]
fn bearer_and_scopes_are_built_exactly() {
    assert_eq!("Bearer tok-1", bearer_header_value("tok-1"));
    assert_eq!(
        "https://www.googleapis.com/auth/cloud-platform",
        cloud_platform_scope()
    );
    assert_eq!("https://www.googleapis.com/auth/datastore", datastore_scope());
}

#[test]
fn token_manager_builder_requires_a_service_account_file() {
    let b = TokenManagerBuilder::new(vec![cloud_platform_scope()]);
    match b.build() {
        Err(FirestoreError::Validation(ValidationError::MissingServiceAccountFile)) => {}
        _ => panic!("a builder without a credential source must be rejected"),
    }
    let b = TokenManagerBuilder::new(vec![cloud_platform_scope()])
        .service_account_file("/tmp/sa.json".to_owned());
    let cfg = b.build().unwrap();
    assert_eq!("/tmp/sa.json", cfg.service_account_file_path);
    assert_eq!(TokenRefresh::default(), cfg.token_refresh);
    assert_eq!(300, cfg.token_refresh.refresh_in_seconds_to_expire);
    assert_eq!(60, cfg.token_refresh.refresh_check_seconds);
}

#[test]
fn connection_point_names_the_service() {
    let cp = firestore_connection_point();
    assert_eq!("https://firestore.googleapis.com", cp.0);
    assert_eq!("firestore.googleapis.com", cp.1);
}

#[test]
fn resource_paths_are_formatted_exactly() {
    assert_eq!("(default)", default_database());
    assert_eq!(
        "projects/p/databases/(default)",
        project_and_default_database("p".to_owned())
    );
    assert_eq!(
        "projects/p/databases/(default)/documents/c/d",
        fmt_document_path("p", "/c/d")
    );
}

#[test]
fn partial_paths_follow_the_grammar() {
    assert!(validate_partial_document_path("/c/d"));
    assert!(!validate_partial_document_path(""));
    assert!(!validate_partial_document_path("c/d"));
    assert!(!validate_partial_document_path("/c/documents/d"));
    assert!(validate_partial_document_paths(&vec![
        "/a/b".to_owned(),
        "/c/d".to_owned()
    ]));
    assert!(!validate_partial_document_paths(&vec![
        "/a/b".to_owned(),
        "bad".to_owned()
    ]));
}

#[test]
fn transaction_requests_carry_token_and_mode() {
    let begin = new_begin_transaction_request("p".to_owned(), None);
    assert_eq!("projects/p/databases/(default)", begin.database);
    assert_eq!(TransactionMode::ReadWrite, begin.mode);
    let t = FTimestamp { seconds: 9, nanos: 0 };
    let begin_ro = new_begin_transaction_request("p".to_owned(), Some(t));
    assert_eq!(TransactionMode::ReadOnlyAt(t), begin_ro.mode);

    let commit = new_commit_request("p".to_owned(), vec![], Some(vec![1, 2]));
    assert_eq!(vec![1, 2], commit.transaction);
    let commit_plain = new_commit_request("p".to_owned(), vec![], None);
    assert!(commit_plain.transaction.is_empty());

    let rollback = new_rollback_request("p".to_owned(), vec![3]);
    assert_eq!(vec![3], rollback.transaction);
    assert_eq!("projects/p/databases/(default)", rollback.database);
}

#[test]
fn collection_ids_request_defaults_chunk_size() {
    let r = new_collection_ids_request("p".to_owned(), "".to_owned(), None, "tok".to_owned());
    assert_eq!(100, r.page_size);
    assert_eq!("tok", r.page_token);
    assert_eq!("projects/p/databases/(default)/documents", r.parent);
    let r = new_collection_ids_request("p".to_owned(), "".to_owned(), Some(7), "".to_owned());
    assert_eq!(7, r.page_size);
}
