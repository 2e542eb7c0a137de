//! What a step asks of an upstream, and what the upstream may reply.

use vstd::prelude::*;
use crate::error::QueryError;
use crate::types::{
    BackReference, ConsensusBlockMeta, ConsensusSpecKind, ExecutionBlockRef, FinalityCertificate,
    Layer,
};

verus! {

/// One request to one of the two upstreams.
#[derive(Clone, Copy, Debug, PartialEq, Eq)]
pub enum Request {
    /// The execution layer's chain identifier.
    ExecutionChainId,
    /// The preset that the consensus layer runs.
    ConsensusSpec,
    /// The number of the execution layer's head block.
    ExecutionBlockNumber,
    /// The header of the execution layer's head block.
    ExecutionHeadBlock,
    /// The header of the execution block at position `number`.
    ExecutionBlockAt { number: u64 },
    /// The consensus layer's latest finality certificate.
    FinalityUpdate,
    /// The consensus block that `reference` points to.
    ConsensusBlock { reference: BackReference },
}

impl Request {
    /// The layer whose upstream serves the request.
    pub open spec fn spec_layer(self) -> Layer {
        match self {
            Request::ExecutionChainId => Layer::Execution,
            Request::ExecutionBlockNumber => Layer::Execution,
            Request::ExecutionHeadBlock => Layer::Execution,
            Request::ExecutionBlockAt { .. } => Layer::Execution,
            Request::ConsensusSpec => Layer::Consensus,
            Request::FinalityUpdate => Layer::Consensus,
            Request::ConsensusBlock { .. } => Layer::Consensus,
        }
    }

    pub fn layer(&self) -> (l: Layer)
        ensures
            l == self.spec_layer(),
    {
        match self {
            Request::ExecutionChainId => Layer::Execution,
            Request::ExecutionBlockNumber => Layer::Execution,
            Request::ExecutionHeadBlock => Layer::Execution,
            Request::ExecutionBlockAt { .. } => Layer::Execution,
            Request::ConsensusSpec => Layer::Consensus,
            Request::FinalityUpdate => Layer::Consensus,
            Request::ConsensusBlock { .. } => Layer::Consensus,
        }
    }
}

/// What an upstream replied to a request.
#[derive(Clone, Debug, PartialEq, Eq)]
pub enum Response {
    ChainId(u64),
    Spec(ConsensusSpecKind),
    BlockNumber(u64),
    /// The block asked for, or `None` where the execution layer has none at
    /// that position.
    Block(Option<ExecutionBlockRef>),
    Finality(FinalityCertificate),
    ConsensusBlock(ConsensusBlockMeta),
    /// The request to the upstream of `layer` failed; `cause` is the
    /// upstream's own account of it.
    Failed { layer: Layer, cause: String },
}

/// Where a query stands when a step is taken.
#[derive(Clone, Debug, PartialEq, Eq)]
pub enum Progress {
    /// Nothing was asked yet.
    Begin,
    /// The request of the previous step was answered.
    Replied(Response),
}

/// What a step of a query decides.
#[derive(Debug, PartialEq, Eq)]
pub enum Step<T> {
    /// Perform the request and take the next step with its reply.
    Ask(Request),
    /// The query is over.
    Done(Result<T, QueryError>),
}

} // verus!
