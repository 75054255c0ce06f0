use firestore::error::{FirestoreError, GrpcErrorStatus, ValidationError};
use firestore::fields::FFields;
use firestore::request::DocumentWriteOperation;
use firestore::txn::{
    resolve_transaction, TransactionOperation, TxResolution, WorkOutcome, MAX_WRITE_OPE_IN_TX,
};
use firestore::value::FValue;

fn delete_op(n: usize) -> DocumentWriteOperation {
    DocumentWriteOperation::new_delete(format!("/test_coll/doc_{}", n))
}

fn create_op() -> DocumentWriteOperation {
    let mut fields = FFields::empty();
    fields.add("bbb".to_owned(), FValue::Str("ssss".to_owned()));
    DocumentWriteOperation::new_create(
        None,
        "test_coll".to_owned(),
        "doc_not_created_1".to_owned(),
        fields,
    )
}

#[test]
fn transaction_success_commits_once() {
    let mut tx = TransactionOperation::new(vec![7, 8, 9]);
    tx.add_operation(delete_op(1));
    match resolve_transaction(tx, WorkOutcome::Success(100i32)) {
        TxResolution::Commit {
            transaction,
            operations,
            value,
        } => {
            assert_eq!(vec![7, 8, 9], transaction);
            assert_eq!(1, operations.len());
            assert_eq!(100i32, value);
        }
        _ => panic!("a successful unit of work must commit"),
    }
}

#[test]
fn transaction_explicit_failure_rolls_back() {
    let mut tx = TransactionOperation::new(vec![1]);
    tx.add_operation(create_op());
    let err = FirestoreError::Transport(GrpcErrorStatus {
        code: 13,
        message: "something went wrong".to_owned(),
    });
    match resolve_transaction::<i32>(tx, WorkOutcome::Failure(err)) {
        TxResolution::Rollback { transaction, error } => {
            assert_eq!(vec![1], transaction);
            match error {
                FirestoreError::Transport(st) => {
                    assert_eq!("something went wrong", st.message)
                }
                _ => panic!("the caller must receive the original error"),
            }
        }
        _ => panic!("an explicit failure must roll back"),
    }
}

#[test]
fn transaction_abnormal_fault_rolls_back_with_wrapper() {
    let mut tx = TransactionOperation::new(vec![2]);
    tx.add_operation(create_op());
    match resolve_transaction::<i32>(tx, WorkOutcome::Fault("something went south".to_owned())) {
        TxResolution::Rollback { transaction, error } => {
            assert_eq!(vec![2], transaction);
            assert_eq!(
                FirestoreError::TransactionAborted("something went south".to_owned()),
                error
            );
        }
        _ => panic!("an abnormal fault must roll back"),
    }
}

#[test]
fn transaction_over_limit_is_abandoned_without_any_call() {
    let mut tx = TransactionOperation::new(vec![3]);
    for i in 0..(MAX_WRITE_OPE_IN_TX + 1) {
        tx.add_operation(delete_op(i));
    }
    match resolve_transaction(tx, WorkOutcome::Success(1i32)) {
        TxResolution::AbandonedOverLimit { error } => {
            assert_eq!(
                FirestoreError::Validation(ValidationError::TransactionTooLarge {
                    limit: MAX_WRITE_OPE_IN_TX,
                    actual: MAX_WRITE_OPE_IN_TX + 1,
                }),
                error
            );
        }
        _ => panic!("an over-limit transaction must be abandoned"),
    }
}

#[test]
fn transaction_at_limit_still_commits() {
    let mut tx = TransactionOperation::new(vec![4]);
    for i in 0..MAX_WRITE_OPE_IN_TX {
        tx.add_operation(delete_op(i));
    }
    match resolve_transaction(tx, WorkOutcome::Success(5i32)) {
        TxResolution::Commit { operations, .. } => {
            assert_eq!(MAX_WRITE_OPE_IN_TX, operations.len())
        }
        _ => panic!("a transaction at the limit must commit"),
    }
}
