//! Why a construction or a query did not give its value.

use vstd::prelude::*;
use jsonrpsee::types::ErrorObject;
use crate::text::concat;
use crate::types::{ChainId, ConsensusSpecKind, ConsensusType, Layer};

verus! {

/// The error object of jsonrpsee, carried through and never looked into.
#[verifier::external_type_specification]
#[verifier::external_body]
pub struct ExErrorObject<'a>(ErrorObject<'a>);

/// The error object that `ErrorObject::owned` of jsonrpsee makes of a code,
/// a message and no data.
pub uninterp spec fn rpc_error_object(code: int, message: Seq<char>) -> ErrorObject<'static>;

/// Calls `ErrorObject::owned` of jsonrpsee with `code`, `message` and no
/// data. Claimed and not proved: the object is a function of the code and
/// of the message's text alone.
#[verifier::external_body]
fn owned_error(code: i32, message: String) -> (object: ErrorObject<'static>)
    ensures
        object == rpc_error_object(code as int, message@),
{
    ErrorObject::owned(code, message, None::<()>)
}

/// Why a module could not be bound to its chain. None of these is worth a
/// retry: the module is not usable.
#[derive(Clone, Debug, PartialEq, Eq)]
pub enum ConstructionError {
    /// The execution layer reports another chain than the one expected.
    ChainIdentityMismatch { expected: ChainId, found: ChainId },
    /// The module is expected to stand for another consensus family than the
    /// one it implements.
    ConsensusTypeMismatch { expected: ConsensusType, found: ConsensusType },
    /// The consensus layer runs another preset than the configured one.
    ChainSpecMismatch { expected: ConsensusSpecKind, found: ConsensusSpecKind },
    /// An upstream could not be reached while binding.
    UpstreamUnreachable { layer: Layer, cause: String },
}

/// One of the three queries.
#[derive(Clone, Copy, Debug, PartialEq, Eq, Structural)]
pub enum Operation {
    LatestHeight,
    LatestTimestamp,
    SlotResolution,
}

/// Why a query gave no value.
#[derive(Clone, Debug, PartialEq, Eq)]
pub enum QueryError {
    /// The upstream of `layer` could not be reached or answered with a
    /// fault; `cause` is the upstream's own account of it.
    QueryFailed { layer: Layer, operation: Operation, cause: String },
    /// The upstream of `layer` answered without what it owes: no block at
    /// the head, no finalized header in a certificate, or an answer to
    /// another question.
    UnexpectedAbsence { layer: Layer, operation: Operation },
    /// The execution layer has no block at position `number` yet.
    BlockNotFound { number: u64 },
    /// The execution block at position `number` carries no back-reference.
    MissingBackReference { number: u64 },
}

impl QueryError {
    /// Whether the same query may succeed later.
    pub open spec fn retryable(self) -> bool {
        self is QueryFailed || self is BlockNotFound
    }

    pub fn is_retryable(&self) -> (r: bool)
        ensures
            r == self.retryable(),
    {
        match self {
            QueryError::QueryFailed { .. } => true,
            QueryError::BlockNotFound { .. } => true,
            QueryError::UnexpectedAbsence { .. } => false,
            QueryError::MissingBackReference { .. } => false,
        }
    }

    /// The code under which every query error is reported to a caller.
    pub open spec fn code_number(self) -> int {
        -1
    }

    pub fn code(&self) -> (c: i32)
        ensures
            c == self.code_number(),
    {
        -1
    }

    /// The text under which the error is reported to a caller. A failed
    /// request keeps the upstream's account of it; the slot query says
    /// before it that a block was being fetched.
    pub open spec fn message_text(self) -> Seq<char> {
        match self {
            QueryError::QueryFailed { operation, cause, .. } => if operation
                == Operation::SlotResolution {
                "error fetching block: "@ + cause@
            } else {
                cause@
            },
            QueryError::UnexpectedAbsence { .. } => "upstream answered without what it owes"@,
            QueryError::BlockNotFound { .. } => "block should exist"@,
            QueryError::MissingBackReference { .. } => "parent beacon block root should exist"@,
        }
    }

    pub fn message(&self) -> (text: String)
        ensures
            text@ == self.message_text(),
    {
        match self {
            QueryError::QueryFailed { operation, cause, .. } => match operation {
                Operation::SlotResolution => concat("error fetching block: ", cause.as_str()),
                _ => cause.clone(),
            },
            QueryError::UnexpectedAbsence { .. } => "upstream answered without what it owes"
                .to_owned(),
            QueryError::BlockNotFound { .. } => "block should exist".to_owned(),
            QueryError::MissingBackReference { .. } => "parent beacon block root should exist"
                .to_owned(),
        }
    }

    /// The error as the object that a JSON-RPC transport sends: the code,
    /// the text, and no data.
    pub fn to_rpc_error(&self) -> (object: ErrorObject<'static>)
        ensures
            object == rpc_error_object(self.code_number(), self.message_text()),
    {
        owned_error(self.code(), self.message())
    }
}

} // verus!
