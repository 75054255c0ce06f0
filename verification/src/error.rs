//! Error taxonomy: transport faults, client-side validation faults,
//! transaction aborts and serialization faults.

use vstd::prelude::*;
use crate::value::FValue;

verus! {

/// The gRPC status code a collaborator reports for a resource that does not
/// exist.
pub const GRPC_NOT_FOUND: u32 = 5;

/// A non-OK status reported by the RPC collaborator, as a numeric gRPC status
/// code plus its message.
#[derive(PartialEq, Debug)]
pub struct GrpcErrorStatus {
    pub code: u32,
    pub message: String,
}

impl GrpcErrorStatus {
    /// True exactly when this status is the collaborator's "not found" code.
    pub fn is_not_found(&self) -> (r: bool)
        ensures
            r == (self.code == GRPC_NOT_FOUND),
    {
        self.code == GRPC_NOT_FOUND
    }
}

/// A fault raised while converting between field values and native or wire
/// representations.
#[derive(PartialEq, Debug)]
pub enum SerdeError {
    /// A wire variant that the value model does not support.
    InvalidFValueVariable(String),
    /// A value whose shape does not match the requested target shape.
    IncompatibleDeserializeType(String),
    /// A non-string key used for a map-shaped value.
    InvalidMapKey(FValue),
    /// Any other conversion fault, described in words.
    CustomError(String),
}

/// A client-side validation fault: raised before any network call, so the
/// caller knows nothing was changed remotely.
#[derive(PartialEq, Debug)]
pub enum ValidationError {
    /// A direct batch write with more operations than the batch limit.
    BatchTooLarge { limit: usize, actual: usize },
    /// A transaction accumulating more operations than the in-transaction
    /// limit.
    TransactionTooLarge { limit: usize, actual: usize },
    /// A relative document path that does not satisfy the path grammar.
    MalformedDocumentPath(String),
    /// A query operator, unary-operator or ordering token that is not
    /// recognized.
    UnknownOperatorToken(String),
    /// A token manager built without a service account file.
    MissingServiceAccountFile,
}

/// Every error this library reports to a caller.
#[derive(PartialEq, Debug)]
pub enum FirestoreError {
    /// The server was contacted and reported a non-OK status.
    Transport(GrpcErrorStatus),
    /// A client-side check failed before any network call.
    Validation(ValidationError),
    /// A transactional unit of work aborted abnormally; the description of
    /// the fault is kept.
    TransactionAborted(String),
    /// A conversion between value representations failed.
    Serialization(SerdeError),
}

} // verus!
