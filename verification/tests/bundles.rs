use bip300301_enforcer::bundles::{finalized_bundles, PendingBundleProposal, WithdrawalBundleTracker};
use bip300301_enforcer::types::{
    same_hash, M6id, SidechainNumber, SidechainProposalId, WithdrawalBundleEvent,
    WithdrawalBundleEventKind,
};

fn id(byte: u8) -> M6id {
    let mut bytes = [0u8; 32];
    bytes[31] = byte;
    M6id(bytes)
}

fn proposal(sidechain: u8, bundle: u8) -> PendingBundleProposal {
    PendingBundleProposal {
        sidechain_id: SidechainNumber(sidechain),
        m6id: id(bundle),
        transaction: vec![sidechain, bundle],
    }
}

fn proposal_id(sidechain: u8, byte: u8) -> SidechainProposalId {
    SidechainProposalId { sidechain_number: SidechainNumber(sidechain), description_hash: [byte; 32] }
}

fn pending(tracker: &WithdrawalBundleTracker, sidechain: u8) -> Vec<PendingBundleProposal> {
    tracker.pending_bundles(&SidechainNumber(sidechain)).into_iter().cloned().collect()
}

fn tracker_with(proposals: &[(u8, u8)]) -> WithdrawalBundleTracker {
    let mut tracker = WithdrawalBundleTracker::new();
    for (sidechain, bundle) in proposals {
        assert!(tracker.put_withdrawal_bundle(proposal(*sidechain, *bundle)));
    }
    tracker
}

#[test]
fn new_tracker_has_nothing_pending() {
    let tracker = WithdrawalBundleTracker::new();
    for sidechain in 0..=255u8 {
        assert!(tracker.pending_bundles(&SidechainNumber(sidechain)).is_empty());
    }
    assert!(!tracker.is_pending(&SidechainNumber(0), &id(0)));
}

#[test]
fn put_records_a_bundle_once() {
    let mut tracker = WithdrawalBundleTracker::new();
    assert!(tracker.put_withdrawal_bundle(proposal(3, 1)));
    assert!(tracker.is_pending(&SidechainNumber(3), &id(1)));
    let mut other = proposal(3, 1);
    other.transaction = vec![9, 9, 9];
    assert!(!tracker.put_withdrawal_bundle(other));
    assert_eq!(pending(&tracker, 3), vec![proposal(3, 1)]);
}

#[test]
fn same_bundle_id_on_another_sidechain_is_another_bundle() {
    let mut tracker = WithdrawalBundleTracker::new();
    assert!(tracker.put_withdrawal_bundle(proposal(3, 1)));
    assert!(tracker.put_withdrawal_bundle(proposal(4, 1)));
    assert_eq!(pending(&tracker, 3), vec![proposal(3, 1)]);
    assert_eq!(pending(&tracker, 4), vec![proposal(4, 1)]);
}

#[test]
fn pending_bundles_come_oldest_first() {
    let tracker = tracker_with(&[(3, 5), (4, 1), (3, 2), (3, 9)]);
    assert_eq!(pending(&tracker, 3), vec![proposal(3, 5), proposal(3, 2), proposal(3, 9)]);
}

#[test]
fn submitted_events_settle_nothing() {
    let events = [
        WithdrawalBundleEvent {
            sidechain_id: SidechainNumber(1),
            m6id: id(1),
            kind: WithdrawalBundleEventKind::Submitted,
        },
        WithdrawalBundleEvent {
            sidechain_id: SidechainNumber(2),
            m6id: id(2),
            kind: WithdrawalBundleEventKind::Failed,
        },
        WithdrawalBundleEvent {
            sidechain_id: SidechainNumber(3),
            m6id: id(3),
            kind: WithdrawalBundleEventKind::Succeeded { sequence_number: 8 },
        },
        WithdrawalBundleEvent {
            sidechain_id: SidechainNumber(4),
            m6id: id(4),
            kind: WithdrawalBundleEventKind::Submitted,
        },
    ];
    assert_eq!(
        finalized_bundles(&events),
        vec![(SidechainNumber(2), id(2)), (SidechainNumber(3), id(3))]
    );
    assert_eq!(finalized_bundles(&[]), vec![]);
}

#[test]
fn succeeded_bundle_leaves_its_sidechain_and_no_other() {
    let x = 7;
    let mut tracker = tracker_with(&[(3, x), (3, 8), (4, x), (5, 1)]);
    let events = [WithdrawalBundleEvent {
        sidechain_id: SidechainNumber(3),
        m6id: id(x),
        kind: WithdrawalBundleEventKind::Succeeded { sequence_number: 0 },
    }];
    tracker.delete_finalized(&finalized_bundles(&events));
    assert!(!pending(&tracker, 3).contains(&proposal(3, x)));
    assert_eq!(pending(&tracker, 3), vec![proposal(3, 8)]);
    assert_eq!(pending(&tracker, 4), vec![proposal(4, x)]);
    assert_eq!(pending(&tracker, 5), vec![proposal(5, 1)]);
}

#[test]
fn failed_bundle_is_deleted_too() {
    let mut tracker = tracker_with(&[(1, 1), (1, 2)]);
    let events = [WithdrawalBundleEvent {
        sidechain_id: SidechainNumber(1),
        m6id: id(2),
        kind: WithdrawalBundleEventKind::Failed,
    }];
    tracker.delete_finalized(&finalized_bundles(&events));
    assert_eq!(pending(&tracker, 1), vec![proposal(1, 1)]);
}

#[test]
fn delete_finalized_twice_is_delete_once() {
    let keys = [(SidechainNumber(3), id(1)), (SidechainNumber(4), id(2)), (SidechainNumber(9), id(9))];
    let mut once = tracker_with(&[(3, 1), (3, 2), (4, 2), (4, 3)]);
    let mut twice = tracker_with(&[(3, 1), (3, 2), (4, 2), (4, 3)]);
    once.delete_finalized(&keys);
    twice.delete_finalized(&keys);
    twice.delete_finalized(&keys);
    for sidechain in [3, 4, 9] {
        assert_eq!(pending(&once, sidechain), pending(&twice, sidechain));
    }
    assert_eq!(pending(&once, 3), vec![proposal(3, 2)]);
    assert_eq!(pending(&once, 4), vec![proposal(4, 3)]);
}

#[test]
fn deleting_what_is_not_pending_changes_nothing() {
    let mut tracker = tracker_with(&[(3, 1)]);
    tracker.delete_finalized(&[(SidechainNumber(3), id(2)), (SidechainNumber(2), id(1))]);
    tracker.delete_finalized(&[]);
    assert_eq!(pending(&tracker, 3), vec![proposal(3, 1)]);
}

#[test]
fn deleted_bundle_can_be_proposed_again() {
    let mut tracker = tracker_with(&[(3, 1)]);
    tracker.delete_finalized(&[(SidechainNumber(3), id(1))]);
    assert!(!tracker.is_pending(&SidechainNumber(3), &id(1)));
    assert!(tracker.put_withdrawal_bundle(proposal(3, 1)));
}

#[test]
fn confirmed_proposals_are_deleted_once_and_for_all() {
    let mut tracker = WithdrawalBundleTracker::new();
    assert!(tracker.put_sidechain_proposal(proposal_id(1, 0xaa)));
    assert!(tracker.put_sidechain_proposal(proposal_id(1, 0xbb)));
    assert!(!tracker.put_sidechain_proposal(proposal_id(1, 0xaa)));
    tracker.delete_confirmed_proposals(&[proposal_id(1, 0xaa), proposal_id(7, 0xaa)]);
    tracker.delete_confirmed_proposals(&[proposal_id(1, 0xaa), proposal_id(7, 0xaa)]);
    // What was deleted can be put again; what stayed cannot.
    assert!(tracker.put_sidechain_proposal(proposal_id(1, 0xaa)));
    assert!(!tracker.put_sidechain_proposal(proposal_id(1, 0xbb)));
}

#[test]
fn deleting_proposals_leaves_bundles_alone() {
    let mut tracker = tracker_with(&[(1, 1)]);
    assert!(tracker.put_sidechain_proposal(proposal_id(1, 1)));
    tracker.delete_confirmed_proposals(&[proposal_id(1, 1)]);
    assert_eq!(pending(&tracker, 1), vec![proposal(1, 1)]);
    tracker.delete_finalized(&[(SidechainNumber(1), id(1))]);
    assert!(tracker.put_sidechain_proposal(proposal_id(1, 1)));
}

#[test]
fn hashes_are_compared_byte_by_byte() {
    let a = [5u8; 32];
    let mut b = a;
    assert!(same_hash(&a, &b));
    b[31] = 6;
    assert!(!same_hash(&a, &b));
    b[31] = 5;
    b[0] = 0;
    assert!(!same_hash(&a, &b));
    assert!(id(1).same(&id(1)));
    assert!(!id(1).same(&id(2)));
    assert!(proposal_id(1, 2).same(&proposal_id(1, 2)));
    assert!(!proposal_id(1, 2).same(&proposal_id(2, 2)));
    assert!(!proposal_id(1, 2).same(&proposal_id(1, 3)));
}
