//! Identifiers and events that the wallet and the validation engine exchange.

use vstd::prelude::*;

verus! {

/// Number of a sidechain slot.
#[derive(Clone, Copy, Debug, PartialEq, Eq, Hash)]
pub struct SidechainNumber(pub u8);

/// Identifier of a withdrawal bundle, unique within its sidechain.
#[derive(Clone, Copy, Debug, PartialEq, Eq, Hash)]
pub struct M6id(pub [u8; 32]);

/// Identifier of a sidechain proposal: the slot it asks for and the hash of
/// its description.
#[derive(Clone, Copy, Debug, PartialEq, Eq, Hash)]
pub struct SidechainProposalId {
    pub sidechain_number: SidechainNumber,
    pub description_hash: [u8; 32],
}

/// What a block says of a withdrawal bundle.
#[derive(Clone, Copy, Debug, PartialEq, Eq)]
pub enum WithdrawalBundleEventKind {
    Submitted,
    Failed,
    Succeeded { sequence_number: u64 },
}

/// An event of one withdrawal bundle in a connected block.
#[derive(Clone, Copy, Debug, PartialEq, Eq)]
pub struct WithdrawalBundleEvent {
    pub sidechain_id: SidechainNumber,
    pub m6id: M6id,
    pub kind: WithdrawalBundleEventKind,
}

/// What the validation engine reports of a connected block, as far as the
/// wallet reads it.
#[derive(Clone, Debug, PartialEq, Eq)]
pub struct BlockInfo {
    pub bundle_events: Vec<WithdrawalBundleEvent>,
    pub sidechain_proposals: Vec<SidechainProposalId>,
}

/// Whether two 32-byte hashes hold the same bytes.
pub fn same_hash(a: &[u8; 32], b: &[u8; 32]) -> (same: bool)
    ensures
        same == (*a == *b),
{
    broadcast use vstd::array::group_array_axioms;

    let mut i: usize = 0;
    while i < 32
        invariant
            i <= 32,
            forall|j: int| 0 <= j < i ==> a@[j] == b@[j],
        decreases 32 - i,
    {
        if a[i] != b[i] {
            return false;
        }
        i = i + 1;
    }
    assert(*a =~= *b);
    true
}

impl SidechainNumber {
    /// Whether `self` and `other` name the same slot.
    pub fn same(&self, other: &SidechainNumber) -> (same: bool)
        ensures
            same == (*self == *other),
    {
        self.0 == other.0
    }
}

impl M6id {
    /// Whether `self` and `other` are the same identifier.
    pub fn same(&self, other: &M6id) -> (same: bool)
        ensures
            same == (*self == *other),
    {
        same_hash(&self.0, &other.0)
    }
}

impl SidechainProposalId {
    /// Whether `self` and `other` are the same identifier.
    pub fn same(&self, other: &SidechainProposalId) -> (same: bool)
        ensures
            same == (*self == *other),
    {
        self.sidechain_number.same(&other.sidechain_number) && same_hash(
            &self.description_hash,
            &other.description_hash,
        )
    }
}

impl WithdrawalBundleEvent {
    /// Whether the event settles its bundle: a failure or a success does, a
    /// submission does not.
    pub open spec fn is_final(self) -> bool {
        !(self.kind is Submitted)
    }

    /// The bundle's key, sidechain and bundle id.
    pub open spec fn key(self) -> (SidechainNumber, M6id) {
        (self.sidechain_id, self.m6id)
    }
}

} // verus!
