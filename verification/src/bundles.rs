//! Pending withdrawal bundles and sidechain proposals of the wallet, and
//! their reconciliation with what connected blocks have settled.

use vstd::prelude::*;
use crate::types::{M6id, SidechainNumber, SidechainProposalId, WithdrawalBundleEvent};

verus! {

/// A withdrawal bundle that the wallet has proposed and no block has
/// settled yet.
#[derive(Clone, Debug, PartialEq, Eq)]
pub struct PendingBundleProposal {
    pub sidechain_id: SidechainNumber,
    pub m6id: M6id,
    pub transaction: Vec<u8>,
}

impl PendingBundleProposal {
    /// The key under which the proposal is kept.
    pub open spec fn key(self) -> (SidechainNumber, M6id) {
        (self.sidechain_id, self.m6id)
    }
}

/// Holds exactly for the proposals whose key is not among `finalized`.
pub open spec fn survives(finalized: Seq<(SidechainNumber, M6id)>) -> spec_fn(
    PendingBundleProposal,
) -> bool {
    |p: PendingBundleProposal| !finalized.contains(p.key())
}

/// Holds exactly for the proposal ids that are not among `confirmed`.
pub open spec fn unconfirmed(confirmed: Seq<SidechainProposalId>) -> spec_fn(
    SidechainProposalId,
) -> bool {
    |id: SidechainProposalId| !confirmed.contains(id)
}

/// Holds exactly for the proposals of sidechain `sidechain_id`.
pub open spec fn on_sidechain(sidechain_id: SidechainNumber) -> spec_fn(
    PendingBundleProposal,
) -> bool {
    |p: PendingBundleProposal| p.sidechain_id == sidechain_id
}

/// The pending bundles that are left once the bundles `finalized` are
/// deleted: the others, in their order.
pub open spec fn without_finalized(
    pending: Seq<PendingBundleProposal>,
    finalized: Seq<(SidechainNumber, M6id)>,
) -> Seq<PendingBundleProposal> {
    pending.filter(survives(finalized))
}

/// The sidechain proposals that are left once the proposals `confirmed` are
/// deleted: the others, in their order.
pub open spec fn without_confirmed(
    proposals: Seq<SidechainProposalId>,
    confirmed: Seq<SidechainProposalId>,
) -> Seq<SidechainProposalId> {
    proposals.filter(unconfirmed(confirmed))
}

/// Picks the key of an event that settles its bundle.
pub open spec fn settled_key() -> spec_fn(WithdrawalBundleEvent) -> Option<
    (SidechainNumber, M6id),
> {
    |event: WithdrawalBundleEvent|
        if event.is_final() {
            Some(event.key())
        } else {
            None
        }
}

/// The keys of the bundles that `events` settle, in the order of the events.
pub open spec fn finalized_keys(events: Seq<WithdrawalBundleEvent>) -> Seq<
    (SidechainNumber, M6id),
> {
    events.filter_map(settled_key())
}

/// No two bundles share a key.
pub open spec fn distinct_bundles(pending: Seq<PendingBundleProposal>) -> bool {
    forall|i: int, j: int|
        0 <= i < j < pending.len() ==> (#[trigger] pending[i]).key() != (#[trigger] pending[j]).key()
}

/// No proposal id occurs twice.
pub open spec fn distinct_proposals(proposals: Seq<SidechainProposalId>) -> bool {
    forall|i: int, j: int|
        0 <= i < j < proposals.len() ==> #[trigger] proposals[i] != #[trigger] proposals[j]
}

/// Whether `pending` holds a bundle under `key`.
pub open spec fn has_bundle(pending: Seq<PendingBundleProposal>, key: (SidechainNumber, M6id)) -> bool {
    exists|i: int| 0 <= i < pending.len() && (#[trigger] pending[i]).key() == key
}

/// Filtering keeps only elements of the sequence, so it keeps distinct what
/// was distinct.
proof fn lemma_filter_keeps_distinct_bundles(
    pending: Seq<PendingBundleProposal>,
    pred: spec_fn(PendingBundleProposal) -> bool,
)
    requires
        distinct_bundles(pending),
    ensures
        distinct_bundles(pending.filter(pred)),
        forall|k: int|
            0 <= k < pending.filter(pred).len() ==> has_bundle(
                pending,
                (#[trigger] pending.filter(pred)[k]).key(),
            ),
    decreases pending.len(),
{
    reveal(Seq::filter);
    if pending.len() > 0 {
        let rest = pending.drop_last();
        lemma_filter_keeps_distinct_bundles(rest, pred);
        let kept = rest.filter(pred);
        // What is kept of the rest is in the rest, and so in `pending`.
        assert forall|k: int| 0 <= k < kept.len() implies has_bundle(
            pending,
            (#[trigger] kept[k]).key(),
        ) by {
            let i = choose|i: int| 0 <= i < rest.len() && (#[trigger] rest[i]).key() == kept[k].key();
            assert(pending[i] == rest[i]);
        }
    }
}

proof fn lemma_filter_keeps_distinct_proposals(
    proposals: Seq<SidechainProposalId>,
    pred: spec_fn(SidechainProposalId) -> bool,
)
    requires
        distinct_proposals(proposals),
    ensures
        distinct_proposals(proposals.filter(pred)),
        forall|k: int|
            0 <= k < proposals.filter(pred).len() ==> proposals.contains(
                #[trigger] proposals.filter(pred)[k],
            ),
    decreases proposals.len(),
{
    reveal(Seq::filter);
    if proposals.len() > 0 {
        let rest = proposals.drop_last();
        lemma_filter_keeps_distinct_proposals(rest, pred);
        let kept = rest.filter(pred);
        // What is kept of the rest is in the rest, and so in `proposals`.
        assert forall|k: int| 0 <= k < kept.len() implies proposals.contains(#[trigger] kept[k]) by {
            let i = choose|i: int| 0 <= i < rest.len() && rest[i] == kept[k];
            assert(proposals[i] == rest[i]);
        }
    }
}

/// The items of `items` in the reverse order.
fn turned_round<T>(items: Vec<T>) -> (turned: Vec<T>)
    ensures
        turned@ == items@.reverse(),
{
    let mut items = items;
    let ghost all = items@;
    let mut turned: Vec<T> = Vec::new();
    while items.len() > 0
        invariant
            items@ == all.take(items.len() as int),
            items.len() <= all.len(),
            turned@ == all.skip(items.len() as int).reverse(),
        decreases items.len(),
    {
        let item = items.pop().unwrap();
        turned.push(item);
    }
    turned
}

/// Whether `finalized` names the bundle `m6id` of sidechain `sidechain_id`.
fn names_bundle(
    finalized: &[(SidechainNumber, M6id)],
    sidechain_id: &SidechainNumber,
    m6id: &M6id,
) -> (found: bool)
    ensures
        found == finalized@.contains((*sidechain_id, *m6id)),
{
    let mut i: usize = 0;
    while i < finalized.len()
        invariant
            i <= finalized.len(),
            forall|j: int| 0 <= j < i ==> finalized@[j] != (*sidechain_id, *m6id),
        decreases finalized.len() - i,
    {
        if finalized[i].0.same(sidechain_id) && finalized[i].1.same(m6id) {
            return true;
        }
        i = i + 1;
    }
    false
}

/// Whether `ids` holds `id`.
fn names_proposal(ids: &[SidechainProposalId], id: &SidechainProposalId) -> (found: bool)
    ensures
        found == ids@.contains(*id),
{
    let mut i: usize = 0;
    while i < ids.len()
        invariant
            i <= ids.len(),
            forall|j: int| 0 <= j < i ==> ids@[j] != *id,
        decreases ids.len() - i,
    {
        if ids[i].same(id) {
            return true;
        }
        i = i + 1;
    }
    false
}

/// The keys of the bundles that the events of a block settle. A failure and
/// a success settle a bundle; a submission is informational and settles
/// nothing.
pub fn finalized_bundles(events: &[WithdrawalBundleEvent]) -> (keys: Vec<(SidechainNumber, M6id)>)
    ensures
        keys@ == finalized_keys(events@),
{
    let mut keys: Vec<(SidechainNumber, M6id)> = Vec::new();
    let mut i: usize = 0;
    while i < events.len()
        invariant
            i <= events.len(),
            keys@ == finalized_keys(events@.take(i as int)),
        decreases events.len() - i,
    {
        let event = events[i];
        proof {
            assert(events@.take(i + 1).drop_last() =~= events@.take(i as int));
        }
        match event.kind {
            crate::types::WithdrawalBundleEventKind::Submitted => {},
            crate::types::WithdrawalBundleEventKind::Failed => {
                keys.push((event.sidechain_id, event.m6id));
            },
            crate::types::WithdrawalBundleEventKind::Succeeded { sequence_number: _ } => {
                keys.push((event.sidechain_id, event.m6id));
            },
        }
        i = i + 1;
    }
    proof {
        assert(events@.take(events.len() as int) =~= events@);
    }
    keys
}

/// The pending state of the wallet: the withdrawal bundles it has proposed,
/// at most one under each key of sidechain and bundle id, and the sidechain
/// proposals it has made, each once.
pub struct WithdrawalBundleTracker {
    bundles: Vec<PendingBundleProposal>,
    proposals: Vec<SidechainProposalId>,
}

impl WithdrawalBundleTracker {
    /// The pending bundles, oldest first.
    pub closed spec fn pending(&self) -> Seq<PendingBundleProposal> {
        self.bundles@
    }

    /// The pending sidechain proposals, oldest first.
    pub closed spec fn proposals(&self) -> Seq<SidechainProposalId> {
        self.proposals@
    }

    /// No two pending bundles share a key and no proposal is pending
    /// twice. It holds of a new tracker, and every method keeps it.
    pub open spec fn wf(&self) -> bool {
        distinct_bundles(self.pending()) && distinct_proposals(self.proposals())
    }

    /// A tracker with nothing pending.
    pub fn new() -> (tracker: Self)
        ensures
            tracker.wf(),
            tracker.pending() == Seq::<PendingBundleProposal>::empty(),
            tracker.proposals() == Seq::<SidechainProposalId>::empty(),
    {
        WithdrawalBundleTracker { bundles: Vec::new(), proposals: Vec::new() }
    }

    /// Whether a bundle is pending under the key of `sidechain_id` and `m6id`.
    pub fn is_pending(&self, sidechain_id: &SidechainNumber, m6id: &M6id) -> (found: bool)
        ensures
            found == has_bundle(self.pending(), (*sidechain_id, *m6id)),
    {
        let mut i: usize = 0;
        while i < self.bundles.len()
            invariant
                i <= self.bundles.len(),
                forall|j: int| 0 <= j < i ==> (#[trigger] self.bundles@[j]).key() != (*sidechain_id, *m6id),
            decreases self.bundles.len() - i,
        {
            if self.bundles[i].sidechain_id.same(sidechain_id) && self.bundles[i].m6id.same(m6id) {
                return true;
            }
            i = i + 1;
        }
        false
    }

    /// Records `proposal` as pending, after the bundles recorded before.
    /// Where a bundle is already pending under its key, that bundle stays
    /// and `proposal` is dropped.
    pub fn put_withdrawal_bundle(&mut self, proposal: PendingBundleProposal) -> (recorded: bool)
        ensures
            recorded == !has_bundle(old(self).pending(), proposal.key()),
            recorded ==> final(self).pending() == old(self).pending().push(proposal),
            !recorded ==> final(self).pending() == old(self).pending(),
            final(self).proposals() == old(self).proposals(),
            old(self).wf() ==> final(self).wf(),
    {
        if self.is_pending(&proposal.sidechain_id, &proposal.m6id) {
            false
        } else {
            self.bundles.push(proposal);
            true
        }
    }

    /// Records the sidechain proposal `id` as pending, unless it is already.
    pub fn put_sidechain_proposal(&mut self, id: SidechainProposalId) -> (recorded: bool)
        ensures
            recorded == !old(self).proposals().contains(id),
            recorded ==> final(self).proposals() == old(self).proposals().push(id),
            !recorded ==> final(self).proposals() == old(self).proposals(),
            final(self).pending() == old(self).pending(),
            old(self).wf() ==> final(self).wf(),
    {
        if names_proposal(self.proposals.as_slice(), &id) {
            false
        } else {
            self.proposals.push(id);
            true
        }
    }

    /// Deletes the pending bundles whose key is among `finalized`; a key
    /// under which nothing is pending is passed over.
    pub fn delete_finalized(&mut self, finalized: &[(SidechainNumber, M6id)])
        ensures
            final(self).pending() == without_finalized(old(self).pending(), finalized@),
            final(self).proposals() == old(self).proposals(),
            old(self).wf() ==> final(self).wf(),
    {
        let ghost before = self.bundles@;
        let ghost pred = survives(finalized@);
        let mut taken: Vec<PendingBundleProposal> = Vec::new();
        std::mem::swap(&mut self.bundles, &mut taken);
        // The bundles are turned round, so that the oldest is taken first.
        let mut queue = turned_round(taken);
        let mut kept: Vec<PendingBundleProposal> = Vec::new();
        let ghost mut done: int = 0;
        proof {
            reveal(Seq::filter);
        }
        while queue.len() > 0
            invariant
                0 <= done <= before.len(),
                done + queue.len() == before.len(),
                queue@ == before.skip(done).reverse(),
                kept@ == before.take(done).filter(pred),
                pred == survives(finalized@),
            decreases queue.len(),
        {
            let proposal = queue.pop().unwrap();
            proof {
                reveal(Seq::filter);
                assert(before.take(done + 1).drop_last() =~= before.take(done));
                done = done + 1;
            }
            if !names_bundle(finalized, &proposal.sidechain_id, &proposal.m6id) {
                kept.push(proposal);
            }
        }
        proof {
            assert(before.take(done) =~= before);
            if distinct_bundles(before) {
                lemma_filter_keeps_distinct_bundles(before, pred);
            }
        }
        self.bundles = kept;
    }

    /// Deletes the pending sidechain proposals that are among `confirmed`;
    /// an id that is not pending is passed over.
    pub fn delete_confirmed_proposals(&mut self, confirmed: &[SidechainProposalId])
        ensures
            final(self).proposals() == without_confirmed(old(self).proposals(), confirmed@),
            final(self).pending() == old(self).pending(),
            old(self).wf() ==> final(self).wf(),
    {
        let ghost before = self.proposals@;
        let ghost pred = unconfirmed(confirmed@);
        let mut kept: Vec<SidechainProposalId> = Vec::new();
        let mut i: usize = 0;
        while i < self.proposals.len()
            invariant
                i <= self.proposals.len(),
                self.proposals@ == before,
                self.bundles@ == old(self).bundles@,
                kept@ == before.take(i as int).filter(pred),
                pred == unconfirmed(confirmed@),
            decreases self.proposals.len() - i,
        {
            let id = self.proposals[i];
            proof {
                reveal(Seq::filter);
                assert(before.take(i + 1).drop_last() =~= before.take(i as int));
            }
            if !names_proposal(confirmed, &id) {
                kept.push(id);
            }
            i = i + 1;
        }
        proof {
            assert(before.take(before.len() as int) =~= before);
            if distinct_proposals(before) {
                lemma_filter_keeps_distinct_proposals(before, pred);
            }
        }
        self.proposals = kept;
    }

    /// The bundles that are pending on sidechain `sidechain_id`, oldest first.
    pub fn pending_bundles(&self, sidechain_id: &SidechainNumber) -> (found: Vec<
        &PendingBundleProposal,
    >)
        ensures
            found@.len() == self.pending().filter(on_sidechain(*sidechain_id)).len(),
            forall|k: int|
                0 <= k < found@.len() ==> *(#[trigger] found@[k]) == self.pending().filter(
                    on_sidechain(*sidechain_id),
                )[k],
    {
        let ghost pred = on_sidechain(*sidechain_id);
        let mut found: Vec<&PendingBundleProposal> = Vec::new();
        let mut i: usize = 0;
        while i < self.bundles.len()
            invariant
                i <= self.bundles.len(),
                pred == on_sidechain(*sidechain_id),
                found@.len() == self.bundles@.take(i as int).filter(pred).len(),
                forall|k: int|
                    0 <= k < found@.len() ==> *(#[trigger] found@[k]) == self.bundles@.take(
                        i as int,
                    ).filter(pred)[k],
            decreases self.bundles.len() - i,
        {
            proof {
                reveal(Seq::filter);
                assert(self.bundles@.take(i + 1).drop_last() =~= self.bundles@.take(i as int));
            }
            if self.bundles[i].sidechain_id.same(sidechain_id) {
                found.push(&self.bundles[i]);
            }
            i = i + 1;
        }
        proof {
            assert(self.bundles@.take(self.bundles.len() as int) =~= self.bundles@);
        }
        found
    }
}

/// Deleting is idempotent: to delete the same finalized bundles a second
/// time changes nothing.
pub proof fn lemma_delete_finalized_idempotent(
    pending: Seq<PendingBundleProposal>,
    finalized: Seq<(SidechainNumber, M6id)>,
)
    ensures
        without_finalized(without_finalized(pending, finalized), finalized) == without_finalized(
            pending,
            finalized,
        ),
{
    lemma_filter_idempotent(pending, survives(finalized));
}

/// Deleting is idempotent: to delete the same confirmed proposals a second
/// time changes nothing.
pub proof fn lemma_delete_confirmed_idempotent(
    proposals: Seq<SidechainProposalId>,
    confirmed: Seq<SidechainProposalId>,
)
    ensures
        without_confirmed(without_confirmed(proposals, confirmed), confirmed) == without_confirmed(
            proposals,
            confirmed,
        ),
{
    lemma_filter_idempotent(proposals, unconfirmed(confirmed));
}

/// To filter a filtered sequence by the same predicate changes nothing.
pub proof fn lemma_filter_idempotent<A>(s: Seq<A>, pred: spec_fn(A) -> bool)
    ensures
        s.filter(pred).filter(pred) == s.filter(pred),
    decreases s.len(),
{
    reveal(Seq::filter);
    if s.len() > 0 {
        let rest = s.drop_last();
        lemma_filter_idempotent(rest, pred);
        if pred(s.last()) {
            let kept = rest.filter(pred);
            assert(kept.push(s.last()).drop_last() =~= kept);
        }
    }
}

} // verus!
