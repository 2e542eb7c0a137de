//! Binding a module to one chain: the two layers must agree with what the
//! module is expected and configured to stand for.

use vstd::prelude::*;
use crate::error::ConstructionError;
use crate::protocol::{Progress, Request, Response};
use crate::text::decimal_digits;
use crate::types::{ethereum_family, ChainId, ConsensusSpecKind, ConsensusType};

verus! {

/// What is configured of a module.
#[derive(Clone, Debug, PartialEq, Eq)]
pub struct Config {
    /// The preset that the consensus layer is meant to run.
    pub chain_spec: ConsensusSpecKind,
    /// The endpoint of the execution layer.
    pub rpc_url: String,
    /// The endpoint of the consensus layer.
    pub beacon_rpc_url: String,
}

/// What the host expects a module to stand for.
#[derive(Clone, Debug, PartialEq, Eq)]
pub struct ModuleInfo {
    /// The chain expected; `None` accepts whatever chain is reported.
    pub chain_id: Option<ChainId>,
    /// The consensus family expected.
    pub consensus_type: ConsensusType,
}

/// A module bound to one chain: the identifier that the execution layer
/// reported and the preset that the consensus layer reported.
#[derive(Clone, Debug, PartialEq, Eq)]
pub struct Module {
    pub chain_id: ChainId,
    pub chain_spec: ConsensusSpecKind,
}

impl ModuleInfo {
    /// Whether a chain reported under the text `found` is the one expected.
    pub open spec fn accepts_chain_id(&self, found: Seq<char>) -> bool {
        self.chain_id matches Some(expected) ==> expected@ == found
    }

    /// Whether the family named `family` is the one expected.
    pub open spec fn accepts_consensus_type(&self, family: Seq<char>) -> bool {
        self.consensus_type@ == family
    }

    /// Whether a module of the implemented family on a chain reported under
    /// `found` is the module expected.
    pub open spec fn accepts(&self, found: Seq<char>) -> bool {
        self.accepts_chain_id(found) && self.accepts_consensus_type(ethereum_family())
    }

    pub fn ensure_chain_id(&self, found: &ChainId) -> (r: Result<(), ConstructionError>)
        ensures
            r is Ok <==> self.accepts_chain_id(found@),
            r matches Err(e) ==> e == (ConstructionError::ChainIdentityMismatch {
                expected: self.chain_id->Some_0,
                found: *found,
            }),
    {
        match &self.chain_id {
            None => Ok(()),
            Some(expected) => {
                if expected.same_as(found) {
                    Ok(())
                } else {
                    Err(
                        ConstructionError::ChainIdentityMismatch {
                            expected: expected.duplicate(),
                            found: found.duplicate(),
                        },
                    )
                }
            },
        }
    }

    pub fn ensure_consensus_type(&self, family: &ConsensusType) -> (r: Result<
        (),
        ConstructionError,
    >)
        ensures
            r is Ok <==> self.accepts_consensus_type(family@),
            r matches Err(e) ==> e == (ConstructionError::ConsensusTypeMismatch {
                expected: self.consensus_type,
                found: *family,
            }),
    {
        if self.consensus_type.same_as(family) {
            Ok(())
        } else {
            Err(
                ConstructionError::ConsensusTypeMismatch {
                    expected: self.consensus_type.duplicate(),
                    found: family.duplicate(),
                },
            )
        }
    }
}

/// What checking the identity of a chain whose execution layer reports the
/// number `reported` gives: the chain's identifier where the module is the
/// one expected, else the mismatch, that of the chain before that of the
/// family.
pub open spec fn identity_outcome(
    info: ModuleInfo,
    reported: u64,
    outcome: Result<ChainId, ConstructionError>,
) -> bool {
    let found = decimal_digits(reported as nat);
    if !info.accepts_chain_id(found) {
        &&& outcome matches Err(ConstructionError::ChainIdentityMismatch { expected, found: f })
        &&& info.chain_id == Some(expected)
        &&& f@ == found
    } else if !info.accepts_consensus_type(ethereum_family()) {
        &&& outcome matches Err(ConstructionError::ConsensusTypeMismatch { expected, found: f })
        &&& expected == info.consensus_type
        &&& f@ == ethereum_family()
    } else {
        outcome matches Ok(chain_id) && chain_id@ == found
    }
}

/// What checking the preset gives: the observed preset where it is the
/// configured one, else the mismatch with both.
pub open spec fn spec_outcome(config: Config, observed: ConsensusSpecKind) -> Result<
    ConsensusSpecKind,
    ConstructionError,
> {
    if observed == config.chain_spec {
        Ok(observed)
    } else {
        Err(ConstructionError::ChainSpecMismatch { expected: config.chain_spec, found: observed })
    }
}

/// What binding gives on a chain whose execution layer reports the number
/// `reported` and whose consensus layer reports the preset `observed`.
pub open spec fn construction_outcome(
    config: Config,
    info: ModuleInfo,
    reported: u64,
    observed: ConsensusSpecKind,
    outcome: Result<Module, ConstructionError>,
) -> bool {
    if !info.accepts(decimal_digits(reported as nat)) {
        &&& outcome matches Err(e)
        &&& identity_outcome(info, reported, Err(e))
    } else if observed != config.chain_spec {
        outcome == Err::<Module, ConstructionError>(
            ConstructionError::ChainSpecMismatch { expected: config.chain_spec, found: observed },
        )
    } else {
        &&& outcome matches Ok(module)
        &&& module.chain_id@ == decimal_digits(reported as nat)
        &&& module.chain_spec == observed
    }
}

/// Checks that a chain whose execution layer reports the number `reported`
/// is the one that `info` expects, and that the family expected is the one
/// implemented.
pub fn bind_identity(info: &ModuleInfo, reported: u64) -> (outcome: Result<
    ChainId,
    ConstructionError,
>)
    ensures
        identity_outcome(*info, reported, outcome),
{
    let chain_id = ChainId::of_number(reported);
    match info.ensure_chain_id(&chain_id) {
        Err(e) => Err(e),
        Ok(()) => {
            let implemented = ConsensusType::ethereum();
            match info.ensure_consensus_type(&implemented) {
                Err(e) => Err(e),
                Ok(()) => Ok(chain_id),
            }
        },
    }
}

/// Checks the preset that the consensus layer reports against the
/// configured one. The observed preset is the one that is bound.
pub fn validate_spec(config: &Config, observed: ConsensusSpecKind) -> (outcome: Result<
    ConsensusSpecKind,
    ConstructionError,
>)
    ensures
        outcome == spec_outcome(*config, observed),
{
    if observed == config.chain_spec {
        Ok(observed)
    } else {
        Err(ConstructionError::ChainSpecMismatch { expected: config.chain_spec, found: observed })
    }
}

impl Module {
    /// Binds a module to the chain whose execution layer reports the number
    /// `reported` and whose consensus layer reports the preset `observed`.
    ///
    /// The chain's identity is checked first, then the family, then the
    /// preset; the first check that fails gives the error.
    pub fn new(
        config: &Config,
        info: &ModuleInfo,
        reported: u64,
        observed: ConsensusSpecKind,
    ) -> (outcome: Result<Module, ConstructionError>)
        ensures
            construction_outcome(*config, *info, reported, observed, outcome),
    {
        match bind_identity(info, reported) {
            Err(e) => Err(e),
            Ok(chain_id) => match validate_spec(config, observed) {
                Err(e) => Err(e),
                Ok(chain_spec) => Ok(Module { chain_id, chain_spec }),
            },
        }
    }
}

/// How far the binding of a module has come.
#[derive(Clone, Debug, PartialEq, Eq)]
pub enum Binding {
    /// Nothing was asked yet.
    Unbound,
    /// The execution layer was asked for its chain identifier.
    AwaitingChainId,
    /// The identity was accepted; the consensus layer was asked for its
    /// preset.
    AwaitingSpec { chain_id: ChainId },
    /// The module is bound and may be used.
    Bound(Module),
    /// Binding failed; there is no module.
    Failed(ConstructionError),
}

/// One step of binding: from `state` and what came in, the state `next` and
/// the request to make, if any. What does not answer the state's question
/// changes nothing and asks nothing.
pub open spec fn binding_step(
    config: Config,
    info: ModuleInfo,
    state: Binding,
    progress: Progress,
    next: Binding,
    ask: Option<Request>,
) -> bool {
    match (state, progress) {
        (Binding::Unbound, Progress::Begin) => {
            &&& next == Binding::AwaitingChainId
            &&& ask == Some(Request::ExecutionChainId)
        },
        (Binding::AwaitingChainId, Progress::Replied(Response::ChainId(reported))) => {
            if info.accepts(decimal_digits(reported as nat)) {
                &&& next matches Binding::AwaitingSpec { chain_id }
                &&& chain_id@ == decimal_digits(reported as nat)
                &&& ask == Some(Request::ConsensusSpec)
            } else {
                &&& next matches Binding::Failed(e)
                &&& identity_outcome(info, reported, Err(e))
                &&& ask is None
            }
        },
        (Binding::AwaitingSpec { chain_id }, Progress::Replied(Response::Spec(observed))) => {
            &&& ask is None
            &&& next == match spec_outcome(config, observed) {
                Ok(chain_spec) => Binding::Bound(Module { chain_id, chain_spec }),
                Err(e) => Binding::Failed(e),
            }
        },
        (Binding::AwaitingChainId, Progress::Replied(Response::Failed { layer, cause })) => {
            &&& ask is None
            &&& next == Binding::Failed(ConstructionError::UpstreamUnreachable { layer, cause })
        },
        (Binding::AwaitingSpec { .. }, Progress::Replied(Response::Failed { layer, cause })) => {
            &&& ask is None
            &&& next == Binding::Failed(ConstructionError::UpstreamUnreachable { layer, cause })
        },
        _ => next == state && ask is None,
    }
}

impl Binding {
    /// Takes one step of binding. The caller makes the request that the step
    /// asks for and takes the next step with the reply.
    pub fn step(self, config: &Config, info: &ModuleInfo, progress: Progress) -> (r: (
        Binding,
        Option<Request>,
    ))
        ensures
            binding_step(*config, *info, self, progress, r.0, r.1),
    {
        match (self, progress) {
            (Binding::Unbound, Progress::Begin) => (
                Binding::AwaitingChainId,
                Some(Request::ExecutionChainId),
            ),
            (Binding::AwaitingChainId, Progress::Replied(Response::ChainId(reported))) => {
                match bind_identity(info, reported) {
                    Ok(chain_id) => (
                        Binding::AwaitingSpec { chain_id },
                        Some(Request::ConsensusSpec),
                    ),
                    Err(e) => (Binding::Failed(e), None),
                }
            },
            (Binding::AwaitingSpec { chain_id }, Progress::Replied(Response::Spec(observed))) => {
                match validate_spec(config, observed) {
                    Ok(chain_spec) => (Binding::Bound(Module { chain_id, chain_spec }), None),
                    Err(e) => (Binding::Failed(e), None),
                }
            },
            (Binding::AwaitingChainId, Progress::Replied(Response::Failed { layer, cause })) => (
                Binding::Failed(ConstructionError::UpstreamUnreachable { layer, cause }),
                None,
            ),
            (
                Binding::AwaitingSpec { .. },
                Progress::Replied(Response::Failed { layer, cause }),
            ) => (Binding::Failed(ConstructionError::UpstreamUnreachable { layer, cause }), None),
            (state, _) => (state, None),
        }
    }
}

} // verus!
