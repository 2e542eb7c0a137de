//! The three queries: latest height, latest timestamp, and the consensus
//! slot of an execution block.

use vstd::prelude::*;
use crate::binding::Module;
use crate::error::{Operation, QueryError};
use crate::protocol::{Progress, Request, Response, Step};
use crate::types::{Height, Layer, Slot, Timestamp};

verus! {

/// The layer that answers a latest-or-finalized query: the consensus layer
/// for the finalized view, the execution layer for the latest view.
pub open spec fn source_layer(finalized: bool) -> Layer {
    if finalized {
        Layer::Consensus
    } else {
        Layer::Execution
    }
}

/// The step of the height query at `progress`.
pub open spec fn latest_height_step(finalized: bool, progress: Progress) -> Step<Height> {
    match progress {
        Progress::Begin => Step::Ask(
            if finalized {
                Request::FinalityUpdate
            } else {
                Request::ExecutionBlockNumber
            },
        ),
        Progress::Replied(Response::Failed { layer, cause }) => Step::Done(
            Err(QueryError::QueryFailed { layer, operation: Operation::LatestHeight, cause }),
        ),
        Progress::Replied(Response::Finality(certificate)) => if finalized
            && certificate.finalized_header is Some {
            Step::Done(
                Ok(Height { height: certificate.finalized_header->Some_0.execution.block_number }),
            )
        } else {
            Step::Done(Err(QueryError::UnexpectedAbsence {
                layer: source_layer(finalized),
                operation: Operation::LatestHeight,
            }))
        },
        Progress::Replied(Response::BlockNumber(number)) => if !finalized {
            Step::Done(Ok(Height { height: number }))
        } else {
            Step::Done(Err(QueryError::UnexpectedAbsence {
                layer: source_layer(finalized),
                operation: Operation::LatestHeight,
            }))
        },
        Progress::Replied(_) => Step::Done(
            Err(QueryError::UnexpectedAbsence {
                layer: source_layer(finalized),
                operation: Operation::LatestHeight,
            }),
        ),
    }
}

/// The step of the timestamp query at `progress`.
pub open spec fn latest_timestamp_step(finalized: bool, progress: Progress) -> Step<Timestamp> {
    match progress {
        Progress::Begin => Step::Ask(
            if finalized {
                Request::FinalityUpdate
            } else {
                Request::ExecutionHeadBlock
            },
        ),
        Progress::Replied(Response::Failed { layer, cause }) => Step::Done(
            Err(QueryError::QueryFailed { layer, operation: Operation::LatestTimestamp, cause }),
        ),
        Progress::Replied(Response::Finality(certificate)) => if finalized
            && certificate.finalized_header is Some {
            Step::Done(
                Ok(Timestamp { secs: certificate.finalized_header->Some_0.execution.timestamp }),
            )
        } else {
            Step::Done(Err(QueryError::UnexpectedAbsence {
                layer: source_layer(finalized),
                operation: Operation::LatestTimestamp,
            }))
        },
        Progress::Replied(Response::Block(block)) => if !finalized && block is Some {
            Step::Done(Ok(Timestamp { secs: block->Some_0.timestamp }))
        } else {
            Step::Done(Err(QueryError::UnexpectedAbsence {
                layer: source_layer(finalized),
                operation: Operation::LatestTimestamp,
            }))
        },
        Progress::Replied(_) => Step::Done(
            Err(QueryError::UnexpectedAbsence {
                layer: source_layer(finalized),
                operation: Operation::LatestTimestamp,
            }),
        ),
    }
}

/// The step of the slot query for the execution block `block_number` at
/// `progress`. The back-reference to the slot of block `block_number` stands
/// in the header of the block after it.
pub open spec fn slot_step(block_number: u64, progress: Progress) -> Step<Slot> {
    match progress {
        Progress::Begin => if block_number < u64::MAX {
            Step::Ask(Request::ExecutionBlockAt { number: (block_number + 1) as u64 })
        } else {
            Step::Done(Err(QueryError::BlockNotFound { number: block_number }))
        },
        Progress::Replied(Response::Failed { layer, cause }) => Step::Done(
            Err(QueryError::QueryFailed { layer, operation: Operation::SlotResolution, cause }),
        ),
        Progress::Replied(Response::Block(None)) => Step::Done(
            Err(QueryError::BlockNotFound { number: next_position(block_number) }),
        ),
        Progress::Replied(Response::Block(Some(block))) => match block.back_reference {
            Some(reference) => Step::Ask(Request::ConsensusBlock { reference }),
            None => Step::Done(
                Err(QueryError::MissingBackReference { number: next_position(block_number) }),
            ),
        },
        Progress::Replied(Response::ConsensusBlock(meta)) => Step::Done(Ok(meta.slot)),
        Progress::Replied(_) => Step::Done(
            Err(QueryError::UnexpectedAbsence {
                layer: Layer::Execution,
                operation: Operation::SlotResolution,
            }),
        ),
    }
}

/// The position after `block_number`; the last position has none after it
/// and stands for itself.
pub open spec fn next_position(block_number: u64) -> u64 {
    if block_number < u64::MAX {
        (block_number + 1) as u64
    } else {
        block_number
    }
}

impl Module {
    /// One step of the query for the chain's height.
    ///
    /// The latest view asks the execution layer for its head's number and
    /// answers with it. The finalized view asks the consensus layer for its
    /// latest finality certificate and answers with the execution block
    /// number in its finalized header.
    pub fn query_latest_height(&self, finalized: bool, progress: Progress) -> (step: Step<Height>)
        ensures
            step == latest_height_step(finalized, progress),
    {
        let source = if finalized {
            Layer::Consensus
        } else {
            Layer::Execution
        };
        match progress {
            Progress::Begin => {
                if finalized {
                    Step::Ask(Request::FinalityUpdate)
                } else {
                    Step::Ask(Request::ExecutionBlockNumber)
                }
            },
            Progress::Replied(Response::Failed { layer, cause }) => Step::Done(
                Err(QueryError::QueryFailed { layer, operation: Operation::LatestHeight, cause }),
            ),
            Progress::Replied(Response::Finality(certificate)) => {
                match certificate.finalized_header {
                    Some(header) if finalized => Step::Done(
                        Ok(Height::new(header.execution.block_number)),
                    ),
                    _ => Step::Done(Err(QueryError::UnexpectedAbsence {
                        layer: source,
                        operation: Operation::LatestHeight,
                    })),
                }
            },
            Progress::Replied(Response::BlockNumber(number)) => {
                if !finalized {
                    Step::Done(Ok(Height::new(number)))
                } else {
                    Step::Done(Err(QueryError::UnexpectedAbsence {
                        layer: source,
                        operation: Operation::LatestHeight,
                    }))
                }
            },
            Progress::Replied(_) => Step::Done(
                Err(QueryError::UnexpectedAbsence {
                    layer: source,
                    operation: Operation::LatestHeight,
                }),
            ),
        }
    }

    /// One step of the query for the chain's time, in seconds since the
    /// epoch on either path.
    ///
    /// The latest view asks the execution layer for its head block and
    /// answers with the header's timestamp. The finalized view asks the
    /// consensus layer for its latest finality certificate and answers with
    /// the timestamp of the execution part of its finalized header.
    pub fn query_latest_timestamp(&self, finalized: bool, progress: Progress) -> (step: Step<
        Timestamp,
    >)
        ensures
            step == latest_timestamp_step(finalized, progress),
    {
        let source = if finalized {
            Layer::Consensus
        } else {
            Layer::Execution
        };
        match progress {
            Progress::Begin => {
                if finalized {
                    Step::Ask(Request::FinalityUpdate)
                } else {
                    Step::Ask(Request::ExecutionHeadBlock)
                }
            },
            Progress::Replied(Response::Failed { layer, cause }) => Step::Done(
                Err(
                    QueryError::QueryFailed { layer, operation: Operation::LatestTimestamp, cause },
                ),
            ),
            Progress::Replied(Response::Finality(certificate)) => {
                match certificate.finalized_header {
                    Some(header) if finalized => Step::Done(
                        Ok(Timestamp::from_secs(header.execution.timestamp)),
                    ),
                    _ => Step::Done(Err(QueryError::UnexpectedAbsence {
                        layer: source,
                        operation: Operation::LatestTimestamp,
                    })),
                }
            },
            Progress::Replied(Response::Block(block)) => {
                match block {
                    Some(head) if !finalized => Step::Done(
                        Ok(Timestamp::from_secs(head.timestamp)),
                    ),
                    _ => Step::Done(Err(QueryError::UnexpectedAbsence {
                        layer: source,
                        operation: Operation::LatestTimestamp,
                    })),
                }
            },
            Progress::Replied(_) => Step::Done(
                Err(QueryError::UnexpectedAbsence {
                    layer: source,
                    operation: Operation::LatestTimestamp,
                }),
            ),
        }
    }

    /// One step of the query for the consensus slot of the execution block
    /// `block_number`.
    ///
    /// It asks for the execution block after `block_number`, then for the
    /// consensus block that this block's back-reference points to, and
    /// answers with that consensus block's slot.
    pub fn beacon_slot_of_execution_block_number(
        &self,
        block_number: u64,
        progress: Progress,
    ) -> (step: Step<Slot>)
        ensures
            step == slot_step(block_number, progress),
    {
        let next = match block_number.checked_add(1) {
            Some(n) => n,
            None => block_number,
        };
        match progress {
            Progress::Begin => {
                if block_number < u64::MAX {
                    Step::Ask(Request::ExecutionBlockAt { number: next })
                } else {
                    Step::Done(Err(QueryError::BlockNotFound { number: block_number }))
                }
            },
            Progress::Replied(Response::Failed { layer, cause }) => Step::Done(
                Err(QueryError::QueryFailed { layer, operation: Operation::SlotResolution, cause }),
            ),
            Progress::Replied(Response::Block(None)) => Step::Done(
                Err(QueryError::BlockNotFound { number: next }),
            ),
            Progress::Replied(Response::Block(Some(block))) => {
                match block.back_reference {
                    Some(reference) => Step::Ask(Request::ConsensusBlock { reference }),
                    None => Step::Done(Err(QueryError::MissingBackReference { number: next })),
                }
            },
            Progress::Replied(Response::ConsensusBlock(meta)) => Step::Done(Ok(meta.slot)),
            Progress::Replied(_) => Step::Done(
                Err(QueryError::UnexpectedAbsence {
                    layer: Layer::Execution,
                    operation: Operation::SlotResolution,
                }),
            ),
        }
    }
}

} // verus!
