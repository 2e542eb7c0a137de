//! What holds of the library as a whole, stated over the spec functions of
//! its contracts and proved.

use vstd::prelude::*;
use crate::binding::{
    binding_step, construction_outcome, Binding, Config, Module, ModuleInfo,
};
use crate::error::{ConstructionError, QueryError};
use crate::protocol::{Progress, Request, Response, Step};
use crate::query::{latest_height_step, latest_timestamp_step, slot_step};
use crate::text::decimal_digits;
use crate::types::{
    ConsensusBlockMeta, ConsensusSpecKind, ExecutionBlockRef, FinalityCertificate, Height, Slot,
    Timestamp,
};

verus! {

/// A bound module carries the identifier that the execution layer reported
/// and the preset that the consensus layer reported; and a module is bound
/// only where the host accepts that identity and the configured preset is
/// the observed one.
pub proof fn lemma_bound_identity_is_reported(
    config: Config,
    info: ModuleInfo,
    reported: u64,
    observed: ConsensusSpecKind,
    outcome: Result<Module, ConstructionError>,
)
    requires
        construction_outcome(config, info, reported, observed, outcome),
    ensures
        outcome matches Ok(module) ==> {
            &&& module.chain_id@ == decimal_digits(reported as nat)
            &&& module.chain_spec == observed
            &&& observed == config.chain_spec
            &&& info.accepts(decimal_digits(reported as nat))
        },
        outcome is Ok <==> info.accepts(decimal_digits(reported as nat)) && observed
            == config.chain_spec,
{
}

/// Construction fails with the error of its cause: where the reported chain
/// is not the expected one, with the identity mismatch that carries both;
/// where the identity is accepted and the observed preset is not the
/// configured one, with the preset mismatch that carries both.
pub proof fn lemma_construction_fails_by_kind(
    config: Config,
    info: ModuleInfo,
    reported: u64,
    observed: ConsensusSpecKind,
    outcome: Result<Module, ConstructionError>,
)
    requires
        construction_outcome(config, info, reported, observed, outcome),
    ensures
        !info.accepts_chain_id(decimal_digits(reported as nat)) ==> {
            &&& outcome matches Err(ConstructionError::ChainIdentityMismatch { expected, found })
            &&& info.chain_id == Some(expected)
            &&& found@ == decimal_digits(reported as nat)
        },
        info.accepts(decimal_digits(reported as nat)) && observed != config.chain_spec ==> outcome
            == Err::<Module, ConstructionError>(
            ConstructionError::ChainSpecMismatch { expected: config.chain_spec, found: observed },
        ),
{
}

/// Construction is deterministic: on the same inputs two outcomes are both
/// a module of the same identity, or both an error of the same kind.
pub proof fn lemma_construction_deterministic(
    config: Config,
    info: ModuleInfo,
    reported: u64,
    observed: ConsensusSpecKind,
    first: Result<Module, ConstructionError>,
    second: Result<Module, ConstructionError>,
)
    requires
        construction_outcome(config, info, reported, observed, first),
        construction_outcome(config, info, reported, observed, second),
    ensures
        first is Ok <==> second is Ok,
        first matches Ok(a) ==> second matches Ok(b) && a.chain_id@ == b.chain_id@ && a.chain_spec
            == b.chain_spec,
        first matches Err(a) ==> {
            &&& second matches Err(b)
            &&& a is ChainIdentityMismatch <==> b is ChainIdentityMismatch
            &&& a is ConsensusTypeMismatch <==> b is ConsensusTypeMismatch
            &&& a is ChainSpecMismatch <==> b is ChainSpecMismatch
        },
{
}

/// The three steps of binding, taken in turn on a chain that reports the
/// number `reported` and the preset `observed`, end as one construction on
/// those two values does: bound with the reported identity, or failed with
/// the error of the first check that fails. The consensus layer is asked
/// only once the identity is accepted.
pub proof fn lemma_binding_steps_end_as_construction(
    config: Config,
    info: ModuleInfo,
    reported: u64,
    observed: ConsensusSpecKind,
    asked: (Binding, Option<Request>),
    identified: (Binding, Option<Request>),
    ended: (Binding, Option<Request>),
)
    requires
        binding_step(config, info, Binding::Unbound, Progress::Begin, asked.0, asked.1),
        binding_step(
            config,
            info,
            asked.0,
            Progress::Replied(Response::ChainId(reported)),
            identified.0,
            identified.1,
        ),
        binding_step(
            config,
            info,
            identified.0,
            Progress::Replied(Response::Spec(observed)),
            ended.0,
            ended.1,
        ),
    ensures
        asked.1 == Some(Request::ExecutionChainId),
        identified.1 == Some(Request::ConsensusSpec) <==> info.accepts(
            decimal_digits(reported as nat),
        ),
        !info.accepts(decimal_digits(reported as nat)) ==> identified.1 is None,
        ended.1 is None,
        ended.0 matches Binding::Bound(module) ==> construction_outcome(
            config,
            info,
            reported,
            observed,
            Ok(module),
        ),
        ended.0 matches Binding::Failed(e) ==> construction_outcome(
            config,
            info,
            reported,
            observed,
            Err(e),
        ),
        ended.0 is Bound || ended.0 is Failed,
{
}

/// Whether a head number and a finality certificate can be of one state of
/// a chain: what is finalized is not beyond the head.
pub open spec fn of_one_chain_state(head: u64, certificate: FinalityCertificate) -> bool {
    certificate.finalized_header matches Some(header) ==> header.execution.block_number <= head
}

/// On one state of a chain the finalized height never exceeds the latest
/// height: the latest view answers with the head's number, the finalized
/// view with the certificate's, and neither changes either.
pub proof fn lemma_finalized_height_at_most_latest(
    head: u64,
    certificate: FinalityCertificate,
    latest: Height,
    finalized: Height,
)
    requires
        of_one_chain_state(head, certificate),
        latest_height_step(false, Progress::Replied(Response::BlockNumber(head))) == Step::Done(
            Ok::<Height, QueryError>(latest),
        ),
        latest_height_step(true, Progress::Replied(Response::Finality(certificate))) == Step::Done(
            Ok::<Height, QueryError>(finalized),
        ),
    ensures
        finalized.height <= latest.height,
        latest.height == head,
{
}

/// The height of the latest view comes from the execution layer alone, and
/// that of the finalized view from a finality certificate alone: each view
/// asks only its own layer, and an answer of the other layer gives no
/// height.
pub proof fn lemma_height_source_by_view(head: u64, certificate: FinalityCertificate)
    ensures
        latest_height_step(false, Progress::Begin) == Step::<Height>::Ask(
            Request::ExecutionBlockNumber,
        ),
        latest_height_step(true, Progress::Begin) == Step::<Height>::Ask(Request::FinalityUpdate),
        latest_height_step(false, Progress::Replied(Response::BlockNumber(head))) == Step::Done(
            Ok::<Height, QueryError>(Height { height: head }),
        ),
        latest_height_step(false, Progress::Replied(Response::Finality(certificate)))
            matches Step::Done(Err(_)),
        latest_height_step(true, Progress::Replied(Response::BlockNumber(head))) matches Step::Done(
            Err(_),
        ),
        certificate.finalized_header matches Some(header) ==> latest_height_step(
            true,
            Progress::Replied(Response::Finality(certificate)),
        ) == Step::Done(Ok::<Height, QueryError>(Height { height: header.execution.block_number })),
        certificate.finalized_header is None ==> latest_height_step(
            true,
            Progress::Replied(Response::Finality(certificate)),
        ) matches Step::Done(Err(QueryError::UnexpectedAbsence { .. })),
{
}

/// On either path the timestamp answered is the upstream's count of
/// seconds, unchanged: that of the head block's header on the latest path,
/// that of the finalized execution header on the finalized path.
pub proof fn lemma_timestamp_in_seconds(
    finalized: bool,
    head: ExecutionBlockRef,
    certificate: FinalityCertificate,
)
    ensures
        latest_timestamp_step(false, Progress::Replied(Response::Block(Some(head)))) == Step::Done(
            Ok::<Timestamp, QueryError>(Timestamp { secs: head.timestamp }),
        ),
        certificate.finalized_header matches Some(header) ==> latest_timestamp_step(
            true,
            Progress::Replied(Response::Finality(certificate)),
        ) == Step::Done(
            Ok::<Timestamp, QueryError>(Timestamp { secs: header.execution.timestamp }),
        ),
        latest_timestamp_step(finalized, Progress::Begin) == Step::<Timestamp>::Ask(
            if finalized {
                Request::FinalityUpdate
            } else {
                Request::ExecutionHeadBlock
            },
        ),
{
}

/// The slot of the execution block `block_number` is resolved through the
/// block after it. Without that block the query fails as not found; with it
/// and without a back-reference in it the query fails as lacking the
/// reference; with both, the query asks for the consensus block referred to
/// and answers with that block's slot.
pub proof fn lemma_slot_through_next_block(
    block_number: u64,
    next_block: Option<ExecutionBlockRef>,
    referenced: ConsensusBlockMeta,
)
    ensures
        block_number < u64::MAX ==> slot_step(block_number, Progress::Begin) == Step::<Slot>::Ask(
            Request::ExecutionBlockAt { number: (block_number + 1) as u64 },
        ),
        block_number == u64::MAX ==> slot_step(block_number, Progress::Begin) matches Step::Done(
            Err(QueryError::BlockNotFound { .. }),
        ),
        next_block is None ==> slot_step(
            block_number,
            Progress::Replied(Response::Block(next_block)),
        ) matches Step::Done(Err(QueryError::BlockNotFound { .. })),
        next_block matches Some(block) && block.back_reference is None ==> slot_step(
            block_number,
            Progress::Replied(Response::Block(next_block)),
        ) matches Step::Done(Err(QueryError::MissingBackReference { .. })),
        next_block is Some && next_block->Some_0.back_reference is Some ==> slot_step(
            block_number,
            Progress::Replied(Response::Block(next_block)),
        ) == Step::<Slot>::Ask(
            Request::ConsensusBlock { reference: next_block->Some_0.back_reference->Some_0 },
        ),
        slot_step(block_number, Progress::Replied(Response::ConsensusBlock(referenced)))
            == Step::Done(Ok::<Slot, QueryError>(referenced.slot)),
{
}

} // verus!
