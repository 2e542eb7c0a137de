use ethereum_consensus_module::binding::Module;
use ethereum_consensus_module::error::{Operation, QueryError};
use ethereum_consensus_module::protocol::{Progress, Request, Response, Step};
use ethereum_consensus_module::types::{
    BackReference, ChainId, ConsensusBlockMeta, ConsensusSpecKind, ExecutionBlockRef,
    FinalityCertificate, FinalizedExecution, FinalizedHeader, Height, Layer, Slot, Timestamp,
};

fn module() -> Module {
    Module { chain_id: ChainId::new("1".to_string()), chain_spec: ConsensusSpecKind::Mainnet }
}

fn certificate(block_number: u64, timestamp: u64, slot: u64) -> FinalityCertificate {
    FinalityCertificate {
        finalized_header: Some(FinalizedHeader {
            execution: FinalizedExecution { block_number, timestamp },
            slot: Slot::new(slot),
        }),
    }
}

fn reference() -> BackReference {
    let mut root = [0u8; 32];
    root[0] = 0xab;
    root[31] = 0xcd;
    BackReference::new(root)
}

#[test]
fn finalized_height_and_timestamp_come_from_the_certificate() {
    let m = module();
    assert_eq!(m.query_latest_height(true, Progress::Begin), Step::Ask(Request::FinalityUpdate));
    assert_eq!(
        m.query_latest_height(
            true,
            Progress::Replied(Response::Finality(certificate(500, 1700000000, 9)))
        ),
        Step::Done(Ok(Height::new(500)))
    );
    assert_eq!(
        m.query_latest_timestamp(true, Progress::Begin),
        Step::Ask(Request::FinalityUpdate)
    );
    assert_eq!(
        m.query_latest_timestamp(
            true,
            Progress::Replied(Response::Finality(certificate(500, 1700000000, 9)))
        ),
        Step::Done(Ok(Timestamp::from_secs(1700000000)))
    );
}

#[test]
fn latest_height_and_timestamp_come_from_the_execution_head() {
    let m = module();
    assert_eq!(
        m.query_latest_height(false, Progress::Begin),
        Step::Ask(Request::ExecutionBlockNumber)
    );
    assert_eq!(
        m.query_latest_height(false, Progress::Replied(Response::BlockNumber(600))),
        Step::Done(Ok(Height::new(600)))
    );
    assert_eq!(
        m.query_latest_timestamp(false, Progress::Begin),
        Step::Ask(Request::ExecutionHeadBlock)
    );
    let head = ExecutionBlockRef { number: 600, timestamp: 1700000600, back_reference: None };
    match m.query_latest_timestamp(false, Progress::Replied(Response::Block(Some(head)))) {
        Step::Done(Ok(t)) => assert_eq!(t.as_secs(), 1700000600),
        other => panic!("unexpected step: {:?}", other),
    }
}

#[test]
fn finalized_height_does_not_exceed_latest_on_one_chain_state() {
    let m = module();
    let latest = m.query_latest_height(false, Progress::Replied(Response::BlockNumber(600)));
    let finalized = m.query_latest_height(
        true,
        Progress::Replied(Response::Finality(certificate(500, 1700000000, 9))),
    );
    match (latest, finalized) {
        (Step::Done(Ok(l)), Step::Done(Ok(f))) => assert!(f.height() <= l.height()),
        other => panic!("unexpected steps: {:?}", other),
    }
}

#[test]
fn slot_round_trip_through_the_next_block() {
    let m = module();
    assert_eq!(
        m.beacon_slot_of_execution_block_number(100, Progress::Begin),
        Step::Ask(Request::ExecutionBlockAt { number: 101 })
    );
    let block_101 =
        ExecutionBlockRef { number: 101, timestamp: 1700000012, back_reference: Some(reference()) };
    assert_eq!(
        m.beacon_slot_of_execution_block_number(
            100,
            Progress::Replied(Response::Block(Some(block_101)))
        ),
        Step::Ask(Request::ConsensusBlock { reference: reference() })
    );
    assert_eq!(
        m.beacon_slot_of_execution_block_number(
            100,
            Progress::Replied(Response::ConsensusBlock(ConsensusBlockMeta { slot: Slot::new(42) }))
        ),
        Step::Done(Ok(Slot::new(42)))
    );
}

#[test]
fn slot_fails_without_back_reference() {
    let m = module();
    let block_101 = ExecutionBlockRef { number: 101, timestamp: 1700000012, back_reference: None };
    let step = m.beacon_slot_of_execution_block_number(
        100,
        Progress::Replied(Response::Block(Some(block_101))),
    );
    assert_eq!(step, Step::Done(Err(QueryError::MissingBackReference { number: 101 })));
    assert_ne!(step, Step::Done(Ok(Slot::new(0))));
}

#[test]
fn slot_fails_while_next_block_does_not_exist() {
    let m = module();
    let step =
        m.beacon_slot_of_execution_block_number(100, Progress::Replied(Response::Block(None)));
    assert_eq!(step, Step::Done(Err(QueryError::BlockNotFound { number: 101 })));
}

#[test]
fn slot_of_the_last_position_has_no_next_block() {
    let m = module();
    assert_eq!(
        m.beacon_slot_of_execution_block_number(u64::MAX, Progress::Begin),
        Step::Done(Err(QueryError::BlockNotFound { number: u64::MAX }))
    );
}

#[test]
fn upstream_failure_is_query_failed_with_its_cause() {
    let m = module();
    let failed = || {
        Progress::Replied(Response::Failed {
            layer: Layer::Consensus,
            cause: "503 service unavailable".to_string(),
        })
    };
    let expected = |operation: Operation| QueryError::QueryFailed {
        layer: Layer::Consensus,
        operation,
        cause: "503 service unavailable".to_string(),
    };
    assert_eq!(
        m.query_latest_height(true, failed()),
        Step::Done(Err(expected(Operation::LatestHeight)))
    );
    assert_eq!(
        m.query_latest_timestamp(true, failed()),
        Step::Done(Err(expected(Operation::LatestTimestamp)))
    );
    assert_eq!(
        m.beacon_slot_of_execution_block_number(7, failed()),
        Step::Done(Err(expected(Operation::SlotResolution)))
    );
}

#[test]
fn absent_head_or_finalized_header_is_unexpected_absence() {
    let m = module();
    assert_eq!(
        m.query_latest_timestamp(false, Progress::Replied(Response::Block(None))),
        Step::Done(Err(QueryError::UnexpectedAbsence {
            layer: Layer::Execution,
            operation: Operation::LatestTimestamp,
        }))
    );
    let empty = FinalityCertificate { finalized_header: None };
    assert_eq!(
        m.query_latest_height(true, Progress::Replied(Response::Finality(empty))),
        Step::Done(Err(QueryError::UnexpectedAbsence {
            layer: Layer::Consensus,
            operation: Operation::LatestHeight,
        }))
    );
    assert_eq!(
        m.query_latest_timestamp(true, Progress::Replied(Response::Finality(empty))),
        Step::Done(Err(QueryError::UnexpectedAbsence {
            layer: Layer::Consensus,
            operation: Operation::LatestTimestamp,
        }))
    );
}

#[test]
fn a_view_takes_no_answer_of_the_other_layer() {
    let m = module();
    assert_eq!(
        m.query_latest_height(
            false,
            Progress::Replied(Response::Finality(certificate(500, 1700000000, 9)))
        ),
        Step::Done(Err(QueryError::UnexpectedAbsence {
            layer: Layer::Execution,
            operation: Operation::LatestHeight,
        }))
    );
    assert_eq!(
        m.query_latest_height(true, Progress::Replied(Response::BlockNumber(600))),
        Step::Done(Err(QueryError::UnexpectedAbsence {
            layer: Layer::Consensus,
            operation: Operation::LatestHeight,
        }))
    );
    let head = ExecutionBlockRef { number: 600, timestamp: 1700000600, back_reference: None };
    assert_eq!(
        m.query_latest_timestamp(true, Progress::Replied(Response::Block(Some(head)))),
        Step::Done(Err(QueryError::UnexpectedAbsence {
            layer: Layer::Consensus,
            operation: Operation::LatestTimestamp,
        }))
    );
    assert_eq!(
        m.beacon_slot_of_execution_block_number(1, Progress::Replied(Response::BlockNumber(3))),
        Step::Done(Err(QueryError::UnexpectedAbsence {
            layer: Layer::Execution,
            operation: Operation::SlotResolution,
        }))
    );
}

#[test]
fn retryable_errors() {
    assert!(QueryError::BlockNotFound { number: 101 }.is_retryable());
    assert!(QueryError::QueryFailed {
        layer: Layer::Execution,
        operation: Operation::LatestHeight,
        cause: String::new(),
    }
    .is_retryable());
    assert!(!QueryError::MissingBackReference { number: 101 }.is_retryable());
    assert!(!QueryError::UnexpectedAbsence {
        layer: Layer::Consensus,
        operation: Operation::LatestTimestamp,
    }
    .is_retryable());
    assert_eq!(QueryError::BlockNotFound { number: 101 }.code(), -1);
}

#[test]
fn request_layers() {
    assert_eq!(Request::ExecutionChainId.layer(), Layer::Execution);
    assert_eq!(Request::ExecutionBlockNumber.layer(), Layer::Execution);
    assert_eq!(Request::ExecutionHeadBlock.layer(), Layer::Execution);
    assert_eq!(Request::ExecutionBlockAt { number: 1 }.layer(), Layer::Execution);
    assert_eq!(Request::ConsensusSpec.layer(), Layer::Consensus);
    assert_eq!(Request::FinalityUpdate.layer(), Layer::Consensus);
    assert_eq!(Request::ConsensusBlock { reference: reference() }.layer(), Layer::Consensus);
}

#[test]
fn back_reference_lookup_key_keeps_the_bytes() {
    let r = reference();
    let key = r.lookup_key();
    assert_eq!(key[0], 0xab);
    assert_eq!(key[31], 0xcd);
    assert_eq!(key[1..31], [0u8; 30]);
}

#[test]
fn message_keeps_the_upstream_cause() {
    let failed = |operation: Operation| QueryError::QueryFailed {
        layer: Layer::Consensus,
        operation,
        cause: "connection reset".to_string(),
    };
    assert_eq!(failed(Operation::LatestHeight).message(), "connection reset");
    assert_eq!(failed(Operation::LatestTimestamp).message(), "connection reset");
    assert_eq!(
        failed(Operation::SlotResolution).message(),
        "error fetching block: connection reset"
    );
    assert_eq!(QueryError::BlockNotFound { number: 101 }.message(), "block should exist");
    assert_eq!(
        QueryError::MissingBackReference { number: 101 }.message(),
        "parent beacon block root should exist"
    );
    assert_eq!(
        QueryError::UnexpectedAbsence {
            layer: Layer::Execution,
            operation: Operation::LatestTimestamp,
        }
        .message(),
        "upstream answered without what it owes"
    );
}

#[test]
fn rpc_error_carries_code_and_message_and_no_data() {
    let error = QueryError::QueryFailed {
        layer: Layer::Execution,
        operation: Operation::SlotResolution,
        cause: "timed out".to_string(),
    };
    let object = error.to_rpc_error();
    assert_eq!(object.code(), -1);
    assert_eq!(object.message(), "error fetching block: timed out");
    assert!(object.data().is_none());
    let object = QueryError::MissingBackReference { number: 101 }.to_rpc_error();
    assert_eq!(object.code(), -1);
    assert_eq!(object.message(), "parent beacon block root should exist");
    assert_eq!(object, jsonrpsee::types::ErrorObject::owned(
        -1,
        "parent beacon block root should exist",
        None::<()>
    ));
}
