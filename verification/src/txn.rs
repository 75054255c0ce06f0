//! The transactional write engine: a transaction handle accumulates write
//! operations, and the outcome of the caller's unit of work decides, before
//! any network call, whether the engine commits, rolls back, or abandons the
//! transaction for exceeding the in-transaction limit.

use vstd::prelude::*;
use crate::error::{FirestoreError, ValidationError};
use crate::request::DocumentWriteOperation;

verus! {

/// The most operations one direct batch-write call may carry.
pub const MAX_BATCH_WRTIE_SIZE: usize = 450;

/// The declared arity limit of an `in` / `not-in` query clause.
pub const MAX_IN_CLAUS_NUM: usize = 10;

/// The most documents one batched read chunk may request.
pub const MAX_BATCH_GET_DOC_NUM: usize = 1000;

/// The most operations one transaction may accumulate before commit.
pub const MAX_WRITE_OPE_IN_TX: usize = 500;

/// A transaction handle: the server-issued transaction token and the ordered
/// operations accumulated so far.
pub struct TransactionOperation {
    pub transaction: Vec<u8>,
    operations: Vec<DocumentWriteOperation>,
}

impl TransactionOperation {
    /// The operations accumulated so far, in the order they were added.
    pub closed spec fn ops(self) -> Seq<DocumentWriteOperation> {
        self.operations@
    }

    /// The server-issued transaction token.
    pub closed spec fn token(self) -> Seq<u8> {
        self.transaction@
    }

    /// A fresh handle for a server-issued transaction token, with no
    /// operations yet.
    pub fn new(transaction: Vec<u8>) -> (r: TransactionOperation)
        ensures
            r.token() == transaction@,
            r.ops() == Seq::<DocumentWriteOperation>::empty(),
    {
        let r = TransactionOperation {
            transaction,
            operations: Vec::<DocumentWriteOperation>::new(),
        };
        proof {
            assert(r.ops() =~= Seq::<DocumentWriteOperation>::empty());
        }
        r
    }

    /// Appends one write operation; nothing is sent until commit.
    pub fn add_operation(&mut self, write_operation: DocumentWriteOperation)
        ensures
            final(self).token() == old(self).token(),
            final(self).ops() == old(self).ops().push(write_operation),
    {
        self.operations.push(write_operation)
    }

    /// Hands the token and the accumulated operations back out.
    pub fn into_parts(self) -> (r: (Vec<u8>, Vec<DocumentWriteOperation>))
        ensures
            r.0@ == self.token(),
            r.1@ == self.ops(),
    {
        (self.transaction, self.operations)
    }
}

/// How the caller-supplied unit of work ended: a success value, an explicit
/// failure, or an abnormal fault caught at the transaction boundary.
pub enum WorkOutcome<R> {
    Success(R),
    Failure(FirestoreError),
    Fault(String),
}

/// What the engine does next, decided before any network call.
pub enum TxResolution<R> {
    /// Issue one commit call with the token and all accumulated operations,
    /// then hand the success value to the caller.
    Commit { transaction: Vec<u8>, operations: Vec<DocumentWriteOperation>, value: R },
    /// Too many operations: no commit and no rollback is issued; the token is
    /// discarded and the caller receives the validation error.
    AbandonedOverLimit { error: FirestoreError },
    /// Issue one rollback call with the token, then hand the error to the
    /// caller.
    Rollback { transaction: Vec<u8>, error: FirestoreError },
}

/// Resolves a finished unit of work: success commits when the operation
/// count is within the in-transaction limit and is abandoned without any
/// call otherwise; an explicit failure rolls back with that same error; an
/// abnormal fault rolls back with an error wrapping its description.
pub fn resolve_transaction<R>(tx: TransactionOperation, outcome: WorkOutcome<R>) -> (r:
    TxResolution<R>)
    ensures
        match outcome {
            WorkOutcome::Success(v) => {
                if tx.ops().len() > MAX_WRITE_OPE_IN_TX {
                    r matches TxResolution::AbandonedOverLimit { error }
                        && error == FirestoreError::Validation(
                        ValidationError::TransactionTooLarge {
                            limit: MAX_WRITE_OPE_IN_TX,
                            actual: tx.ops().len() as usize,
                        },
                    )
                } else {
                    r matches TxResolution::Commit { transaction, operations, value }
                        && transaction@ == tx.token() && operations@ == tx.ops() && value == v
                }
            },
            WorkOutcome::Failure(e) => r matches TxResolution::Rollback { transaction, error }
                && transaction@ == tx.token() && error == e,
            WorkOutcome::Fault(msg) => r matches TxResolution::Rollback { transaction, error }
                && transaction@ == tx.token() && error == FirestoreError::TransactionAborted(
                msg,
            ),
        },
{
    let (transaction, operations) = tx.into_parts();
    match outcome {
        WorkOutcome::Success(value) => {
            if operations.len() > MAX_WRITE_OPE_IN_TX {
                TxResolution::AbandonedOverLimit {
                    error: FirestoreError::Validation(
                        ValidationError::TransactionTooLarge {
                            limit: MAX_WRITE_OPE_IN_TX,
                            actual: operations.len(),
                        },
                    ),
                }
            } else {
                TxResolution::Commit { transaction, operations, value }
            }
        },
        WorkOutcome::Failure(error) => TxResolution::Rollback { transaction, error },
        WorkOutcome::Fault(msg) => TxResolution::Rollback {
            transaction,
            error: FirestoreError::TransactionAborted(msg),
        },
    }
}

} // verus!
