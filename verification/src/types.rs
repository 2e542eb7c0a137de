//! The coordinates of the two layers, and what an upstream reply carries.

use vstd::prelude::*;
use crate::text::{decimal_digits, decimal_string};

verus! {

/// Identifier of the execution-layer network, as text.
#[derive(Clone, Debug, PartialEq, Eq)]
pub struct ChainId {
    pub value: String,
}

impl View for ChainId {
    type V = Seq<char>;

    open spec fn view(&self) -> Seq<char> {
        self.value@
    }
}

impl ChainId {
    pub fn new(value: String) -> (id: ChainId)
        ensures
            id@ == value@,
    {
        ChainId { value }
    }

    pub fn as_str(&self) -> (s: &str)
        ensures
            s@ == self@,
    {
        self.value.as_str()
    }

    /// A second value of the same identifier.
    pub fn duplicate(&self) -> (id: ChainId)
        ensures
            id == *self,
    {
        ChainId { value: self.value.clone() }
    }

    /// The identifier of the execution chain with the number `id`: the
    /// number's decimal text.
    pub fn of_number(id: u64) -> (chain: ChainId)
        ensures
            chain@ == decimal_digits(id as nat),
    {
        ChainId { value: decimal_string(id) }
    }

    /// Whether the two identifiers are the same text.
    pub fn same_as(&self, other: &ChainId) -> (same: bool)
        ensures
            same == (self@ == other@),
    {
        self.value == other.value
    }
}

/// The text of the consensus mechanism family that this library resolves.
pub open spec fn ethereum_family() -> Seq<char> {
    "ethereum"@
}

/// Name of a consensus mechanism family, as text.
#[derive(Clone, Debug, PartialEq, Eq)]
pub struct ConsensusType {
    pub value: String,
}

impl View for ConsensusType {
    type V = Seq<char>;

    open spec fn view(&self) -> Seq<char> {
        self.value@
    }
}

impl ConsensusType {
    pub fn new(value: String) -> (family: ConsensusType)
        ensures
            family@ == value@,
    {
        ConsensusType { value }
    }

    /// The family that this library implements.
    pub fn ethereum() -> (family: ConsensusType)
        ensures
            family@ == ethereum_family(),
    {
        ConsensusType { value: "ethereum".to_owned() }
    }

    pub fn as_str(&self) -> (s: &str)
        ensures
            s@ == self@,
    {
        self.value.as_str()
    }

    /// A second value of the same name.
    pub fn duplicate(&self) -> (family: ConsensusType)
        ensures
            family == *self,
    {
        ConsensusType { value: self.value.clone() }
    }

    pub fn same_as(&self, other: &ConsensusType) -> (same: bool)
        ensures
            same == (self@ == other@),
    {
        self.value == other.value
    }
}

/// Preset of consensus parameters.
#[derive(Clone, Copy, Debug, PartialEq, Eq, Structural)]
pub enum ConsensusSpecKind {
    Minimal,
    Mainnet,
}

impl ConsensusSpecKind {
    /// The preset's name as the consensus layer writes it.
    pub open spec fn name(self) -> Seq<char> {
        match self {
            ConsensusSpecKind::Minimal => "minimal"@,
            ConsensusSpecKind::Mainnet => "mainnet"@,
        }
    }

    pub fn as_str(&self) -> (s: &'static str)
        ensures
            s@ == self.name(),
    {
        match self {
            ConsensusSpecKind::Minimal => "minimal",
            ConsensusSpecKind::Mainnet => "mainnet",
        }
    }
}

/// Position in the execution layer: a block number without a revision.
#[derive(Clone, Copy, Debug, PartialEq, Eq, Structural)]
pub struct Height {
    pub height: u64,
}

impl Height {
    pub fn new(height: u64) -> (h: Height)
        ensures
            h.height == height,
    {
        Height { height }
    }

    pub fn height(&self) -> (n: u64)
        ensures
            n == self.height,
    {
        self.height
    }
}

/// An instant, in whole seconds since the Unix epoch.
#[derive(Clone, Copy, Debug, PartialEq, Eq, Structural)]
pub struct Timestamp {
    pub secs: u64,
}

impl Timestamp {
    /// The one conversion into a `Timestamp`. Input unit: seconds since the
    /// epoch. Output unit: seconds since the epoch.
    pub fn from_secs(secs: u64) -> (t: Timestamp)
        ensures
            t.secs == secs,
    {
        Timestamp { secs }
    }

    pub fn as_secs(&self) -> (secs: u64)
        ensures
            secs == self.secs,
    {
        self.secs
    }
}

/// Position in the consensus layer.
#[derive(Clone, Copy, Debug, PartialEq, Eq, Structural)]
pub struct Slot {
    pub value: u64,
}

impl Slot {
    pub fn new(value: u64) -> (s: Slot)
        ensures
            s.value == value,
    {
        Slot { value }
    }

    pub fn get(&self) -> (n: u64)
        ensures
            n == self.value,
    {
        self.value
    }
}

/// The field of an execution block's header that points into the consensus
/// layer: the 32-byte root of a consensus block.
#[derive(Clone, Copy, Debug, PartialEq, Eq)]
pub struct BackReference {
    pub root: [u8; 32],
}

impl BackReference {
    pub fn new(root: [u8; 32]) -> (r: BackReference)
        ensures
            r.root == root,
    {
        BackReference { root }
    }

    /// The key under which the consensus layer looks the block up: the same
    /// 32 bytes, in the same order.
    pub fn lookup_key(&self) -> (key: [u8; 32])
        ensures
            key == self.root,
    {
        self.root
    }
}

/// The header of a fetched execution block. `timestamp` is in seconds.
#[derive(Clone, Copy, Debug, PartialEq, Eq)]
pub struct ExecutionBlockRef {
    pub number: u64,
    pub timestamp: u64,
    pub back_reference: Option<BackReference>,
}

/// The execution-layer part of a finalized header. `timestamp` is in seconds.
#[derive(Clone, Copy, Debug, PartialEq, Eq, Structural)]
pub struct FinalizedExecution {
    pub block_number: u64,
    pub timestamp: u64,
}

/// The header that a finality certificate finalizes.
#[derive(Clone, Copy, Debug, PartialEq, Eq, Structural)]
pub struct FinalizedHeader {
    pub execution: FinalizedExecution,
    pub slot: Slot,
}

/// The consensus layer's latest finality certificate.
#[derive(Clone, Copy, Debug, PartialEq, Eq)]
pub struct FinalityCertificate {
    pub finalized_header: Option<FinalizedHeader>,
}

/// What the consensus layer reports of one of its blocks.
#[derive(Clone, Copy, Debug, PartialEq, Eq, Structural)]
pub struct ConsensusBlockMeta {
    pub slot: Slot,
}

/// One of the two upstream layers.
#[derive(Clone, Copy, Debug, PartialEq, Eq, Structural)]
pub enum Layer {
    Execution,
    Consensus,
}

} // verus!
