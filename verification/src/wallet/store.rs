//! The wallet store under operations that run side by side.
//!
//! The store is the ledger in memory, the database, the time of the last
//! sync, and the three locks. Operations are syncs and block connections;
//! each takes one step at a time, and the steps of different operations
//! interleave freely, but for a lock: it is taken only while no other
//! operation holds it. This file states what then holds of every state
//! that can be reached.

use vstd::prelude::*;
use crate::types::BlockInfo;
use crate::wallet::sync::{
    Action,
    ChainSource,
    ConnectStage,
    ConnectView,
    Event,
    Guards,
    Lock,
    SyncOutcome,
    SyncStage,
    SyncView,
    WalletAccess,
};
use crate::wallet::error::WalletSync;

verus! {

/// An operation on the store.
pub enum Operation {
    Sync(SyncView),
    Connect(ConnectView),
}

impl Operation {
    /// The locks that the operation holds.
    pub open spec fn guards(self) -> Guards {
        match self {
            Operation::Sync(sync) => sync.guards,
            Operation::Connect(connect) => connect.guards,
        }
    }

    /// The step that the operation waits for.
    pub open spec fn action(self) -> Action {
        match self {
            Operation::Sync(sync) => sync.action(),
            Operation::Connect(connect) => connect.action(),
        }
    }

    /// The operation after its step ended with `event`.
    pub open spec fn step(self, event: Event) -> Option<Operation> {
        match self {
            Operation::Sync(sync) => match sync.step(event) {
                Some(next) => Some(Operation::Sync(next)),
                None => None,
            },
            Operation::Connect(connect) => match connect.step(event) {
                Some(next) => Some(Operation::Connect(next)),
                None => None,
            },
        }
    }

    /// The locks that the operation holds fit its stage.
    pub open spec fn inv(self) -> bool {
        match self {
            Operation::Sync(sync) => sync.inv(),
            Operation::Connect(connect) => connect.inv(),
        }
    }

    /// The operation has changed the ledger in memory and not yet written
    /// it.
    pub open spec fn unsaved(self) -> bool {
        match self {
            Operation::Sync(sync) => sync.unsaved(),
            Operation::Connect(connect) => connect.unsaved(),
        }
    }

    /// The operation has not taken its first step.
    pub open spec fn fresh(self) -> bool {
        match self {
            Operation::Sync(sync) => sync == SyncView::start(sync.source, sync.database_path),
            Operation::Connect(connect) => exists|block_info: BlockInfo|
                connect == ConnectView::start(connect.block_height, block_info),
        }
    }

    /// The operation after its steps ended with `events`, one after the
    /// other; `None` where a step cannot end as its event says.
    pub open spec fn run(self, events: Seq<Event>) -> Option<Operation>
        decreases events.len(),
    {
        if events.len() == 0 {
            Some(self)
        } else {
            match self.run(events.drop_last()) {
                Some(before) => before.step(events.last()),
                None => None,
            }
        }
    }
}

/// The lock that `action` waits for, if it waits for one.
pub open spec fn acquires(action: Action) -> Option<Lock> {
    match action {
        Action::Acquire { lock, .. } => Some(lock),
        _ => None,
    }
}

/// The lock that `action` gives back, if it gives one back.
pub open spec fn releases(action: Action) -> Option<Lock> {
    match action {
        Action::Release { lock } => Some(lock),
        _ => None,
    }
}

/// Whether `action` reads or changes what the locks guard.
pub open spec fn touches_store(action: Action) -> bool {
    action is ApplyUpdate || action is ApplyBlock || action is Persist || action is Stamp
        || action is DeleteBundleProposals || action is DeleteSidechainProposals
}

/// A step keeps the locks of an operation fitting its stage.
pub proof fn lemma_step_keeps_inv(operation: Operation, event: Event)
    requires
        operation.inv(),
        operation.step(event) is Some,
    ensures
        operation.step(event)->0.inv(),
{
}

/// At every stage of a sync and of a block connection the locks are
/// nested in one order: the wallet lock is held whenever another is, a
/// lock is waited for only when every lock held comes before it, and a
/// lock is given back only when no lock held comes after it. The ledger
/// and the database are touched only while the wallet lock is held alone.
pub proof fn lemma_lock_order(operation: Operation)
    requires
        operation.inv(),
    ensures
        operation.guards().nested(),
        acquires(operation.action()) matches Some(lock) ==> operation.guards().may_acquire(lock),
        releases(operation.action()) matches Some(lock) ==> operation.guards().may_release(lock),
        touches_store(operation.action()) ==> operation.guards().wallet == Some(
            WalletAccess::Exclusive,
        ),
        operation.action() is Persist ==> operation.guards().holds(Lock::Database),
        operation.action() is Stamp ==> operation.guards().holds(Lock::LastSync),
        operation.action() is Finish ==> operation.guards().is_empty(),
        operation.unsaved() ==> operation.guards().wallet == Some(WalletAccess::Exclusive),
{
}

/// The lock order holds on every path of an entry point: whatever the
/// outcomes of the steps of a sync or of a block connection were, from its
/// first step on, the next lock it waits for comes after every lock it
/// holds, the wallet lock first, and the next lock it gives back is the
/// one it took last.
pub proof fn lemma_lock_order_on_every_path(start: Operation, events: Seq<Event>)
    requires
        start.fresh(),
        start.run(events) is Some,
    ensures
        ({
            let operation = start.run(events)->0;
            &&& operation.inv()
            &&& operation.guards().nested()
            &&& acquires(operation.action()) matches Some(lock) ==> operation.guards().may_acquire(
                lock,
            )
            &&& releases(operation.action()) matches Some(lock) ==> operation.guards().may_release(
                lock,
            )
            &&& touches_store(operation.action()) ==> operation.guards().wallet == Some(
                WalletAccess::Exclusive,
            )
        }),
{
    lemma_run_keeps_inv(start, events);
    lemma_lock_order(start.run(events)->0);
}

/// Steps keep the locks of an operation fitting its stage.
pub proof fn lemma_run_keeps_inv(start: Operation, events: Seq<Event>)
    requires
        start.inv() || start.fresh(),
        start.run(events) is Some,
    ensures
        start.run(events)->0.inv(),
    decreases events.len(),
{
    if events.len() > 0 {
        lemma_run_keeps_inv(start, events.drop_last());
        lemma_step_keeps_inv(start.run(events.drop_last())->0, events.last());
    }
}

/// How many steps a block connection has completed when it is at `stage`
/// and nothing has failed.
pub open spec fn connect_steps(stage: ConnectStage) -> Option<nat> {
    match stage {
        ConnectStage::WalletWrite => Some(0),
        ConnectStage::DeleteBundles => Some(1),
        ConnectStage::DeleteProposals => Some(2),
        ConnectStage::Database => Some(3),
        ConnectStage::Apply => Some(4),
        ConnectStage::Persist => Some(5),
        ConnectStage::Release => None,
        ConnectStage::Done => None,
    }
}

/// A block connection that waits for one of its steps before the releases
/// has completed every step before it, once each, and nothing else.
pub proof fn lemma_connect_steps_in_order(start: ConnectView, events: Seq<Event>)
    requires
        Operation::Connect(start).fresh(),
        Operation::Connect(start).run(events) is Some,
        connect_steps(Operation::Connect(start).run(events)->0->Connect_0.stage) is Some,
    ensures
        Operation::Connect(start).run(events)->0 is Connect,
        events.len() == connect_steps(
            Operation::Connect(start).run(events)->0->Connect_0.stage,
        )->0,
        forall|k: int| 0 <= k < events.len() ==> (#[trigger] events[k]) is Completed,
    decreases events.len(),
{
    if events.len() > 0 {
        lemma_run_is_connect(start, events.drop_last());
        lemma_connect_steps_in_order(start, events.drop_last());
        assert forall|k: int| 0 <= k < events.len() implies (#[trigger] events[k]) is Completed by {
            if k < events.len() - 1 {
                assert(events.drop_last()[k] == events[k]);
            }
        }
    }
}

/// A block connection stays a block connection.
proof fn lemma_run_is_connect(start: ConnectView, events: Seq<Event>)
    requires
        Operation::Connect(start).run(events) is Some,
    ensures
        Operation::Connect(start).run(events)->0 is Connect,
    decreases events.len(),
{
    if events.len() > 0 {
        lemma_run_is_connect(start, events.drop_last());
    }
}

/// Before a block reaches the ledger, the pending bundles that it settles
/// and the sidechain proposals that it confirms have been deleted, each
/// once: on every path on which a connection is about to apply its block,
/// its steps so far were the wallet lock, the two deletions and the
/// database lock, in this order.
pub proof fn lemma_deletions_come_once_before_the_block(start: ConnectView, events: Seq<Event>)
    requires
        Operation::Connect(start).fresh(),
        Operation::Connect(start).run(events) is Some,
        Operation::Connect(start).run(events)->0.action() is ApplyBlock,
    ensures
        events.len() == 4,
        acquires(Operation::Connect(start).run(events.take(0))->0.action()) == Some(Lock::Wallet),
        Operation::Connect(start).run(events.take(1))->0.action() is DeleteBundleProposals,
        Operation::Connect(start).run(events.take(2))->0.action() is DeleteSidechainProposals,
        acquires(Operation::Connect(start).run(events.take(3))->0.action()) == Some(
            Lock::Database,
        ),
{
    let operation = Operation::Connect(start);
    lemma_connect_steps_in_order(start, events);
    assert(events.take(4) =~= events);
    // Step by step back from the block: each stage has one stage before it.
    lemma_run_unfolds(operation, events, 3);
    lemma_run_is_connect(start, events.take(3));
    lemma_run_unfolds(operation, events, 2);
    lemma_run_is_connect(start, events.take(2));
    lemma_run_unfolds(operation, events, 1);
    lemma_run_is_connect(start, events.take(1));
    lemma_run_unfolds(operation, events, 0);
    lemma_run_is_connect(start, events.take(0));
}

/// A run is the run of one step less, and then that step.
proof fn lemma_run_unfolds(start: Operation, events: Seq<Event>, n: int)
    requires
        start.run(events) is Some,
        0 <= n < events.len(),
    ensures
        start.run(events.take(n)) is Some,
        start.run(events.take(n + 1)) == start.run(events.take(n))->0.step(events[n]),
{
    lemma_prefix_runs(start, events, n);
    lemma_prefix_runs(start, events, n + 1);
    assert(events.take(n + 1).drop_last() =~= events.take(n));
}

/// Where a run can be made, every shorter run can.
proof fn lemma_prefix_runs(start: Operation, events: Seq<Event>, n: int)
    requires
        start.run(events) is Some,
        0 <= n <= events.len(),
    ensures
        start.run(events.take(n)) is Some,
    decreases events.len(),
{
    if n == events.len() {
        assert(events.take(n) =~= events);
    } else {
        lemma_prefix_runs(start, events.drop_last(), n);
        assert(events.drop_last().take(n) =~= events.take(n));
    }
}

/// The later of the last sync so far and the present: the time of the last
/// sync never goes back.
pub open spec fn later(previous: Option<nat>, now: nat) -> nat {
    match previous {
        Some(time) => if time > now {
            time
        } else {
            now
        },
        None => now,
    }
}

/// What the locks guard, and who holds them.
pub struct Store {
    /// The operation that holds the wallet lock, by its place among the
    /// operations.
    pub wallet: Option<int>,
    /// The operation that holds the lock of the last sync.
    pub last_sync_lock: Option<int>,
    /// The operation that holds the database lock.
    pub database: Option<int>,
    /// How many changes the ledger in memory has taken.
    pub memory: nat,
    /// How many of them the database holds.
    pub disk: nat,
    /// The time of the last sync that was committed.
    pub last_sync: Option<nat>,
    /// The last attempt to write the ledger failed.
    pub write_failed: bool,
}

impl Store {
    /// The operation that holds `lock`.
    pub open spec fn holder(self, lock: Lock) -> Option<int> {
        match lock {
            Lock::Wallet => self.wallet,
            Lock::LastSync => self.last_sync_lock,
            Lock::Database => self.database,
        }
    }

    /// The store with `lock` held by `holder`.
    pub open spec fn with_holder(self, lock: Lock, holder: Option<int>) -> Store {
        match lock {
            Lock::Wallet => Store { wallet: holder, ..self },
            Lock::LastSync => Store { last_sync_lock: holder, ..self },
            Lock::Database => Store { database: holder, ..self },
        }
    }

    /// The store after operation `operation` has taken the step `action`
    /// with the outcome `event`, at the time `now`. A lock that is taken
    /// has a holder, and none once it is given back. An update or a block
    /// that is applied is one more change in memory. A write that succeeds
    /// brings the database up to the ledger in memory; one that fails
    /// leaves the database as it was. A stamp moves the time of the last
    /// sync to the present, and never back.
    pub open spec fn after(self, operation: int, action: Action, event: Event, now: nat) -> Store {
        match (action, event) {
            (Action::Acquire { lock, .. }, Event::Completed) => self.with_holder(
                lock,
                Some(operation),
            ),
            (Action::Release { lock }, Event::Completed) => self.with_holder(lock, None),
            (Action::ApplyUpdate, Event::Completed) => Store { memory: self.memory + 1, ..self },
            (Action::ApplyBlock, Event::Completed) => Store { memory: self.memory + 1, ..self },
            (Action::Persist, Event::Completed) => Store {
                disk: self.memory,
                write_failed: false,
                ..self
            },
            (Action::Persist, Event::Failed(_)) => Store { write_failed: true, ..self },
            (Action::Persist, Event::Sqlite(_)) => Store { write_failed: true, ..self },
            (Action::Stamp, Event::Completed) => Store {
                last_sync: Some(later(self.last_sync, now)),
                ..self
            },
            _ => self,
        }
    }
}

/// The store and the operations on it.
pub struct System {
    pub store: Store,
    pub operations: Seq<Operation>,
}

/// One step of one operation.
pub struct Step {
    /// The place of the operation among the operations.
    pub operation: int,
    /// How the step ended.
    pub event: Event,
    /// When it ended.
    pub now: nat,
}

impl System {
    /// No operation has taken a step, no lock is held, and the database
    /// holds the ledger.
    pub open spec fn initial(self) -> bool {
        &&& forall|i: int| 0 <= i < self.operations.len() ==> (#[trigger] self.operations[i]).fresh()
        &&& self.store.wallet is None
        &&& self.store.last_sync_lock is None
        &&& self.store.database is None
        &&& self.store.disk == self.store.memory
        &&& !self.store.write_failed
    }

    /// No operation holds a lock.
    pub open spec fn quiescent(self) -> bool {
        forall|i: int|
            0 <= i < self.operations.len() ==> (#[trigger] self.operations[i]).guards().is_empty()
    }

    /// The system after the step `step`; `None` where the step cannot be
    /// taken: there is no such operation, its step cannot end so, or it
    /// would take a lock that is held.
    pub open spec fn next(self, step: Step) -> Option<System> {
        if 0 <= step.operation < self.operations.len() {
            let operation = self.operations[step.operation];
            let action = operation.action();
            match operation.step(step.event) {
                Some(after) => if step.event is Completed && acquires(action) is Some
                    && self.store.holder(acquires(action)->0) is Some {
                    None
                } else {
                    Some(
                        System {
                            store: self.store.after(step.operation, action, step.event, step.now),
                            operations: self.operations.update(step.operation, after),
                        },
                    )
                },
                None => None,
            }
        } else {
            None
        }
    }

    /// The system after the steps `steps`, one after the other.
    pub open spec fn run(self, steps: Seq<Step>) -> Option<System>
        decreases steps.len(),
    {
        if steps.len() == 0 {
            Some(self)
        } else {
            match self.run(steps.drop_last()) {
                Some(before) => before.next(steps.last()),
                None => None,
            }
        }
    }

    /// What holds of every state that can be reached: each operation's
    /// locks fit its stage, the store knows as holder of a lock exactly
    /// the operation that holds it, and where the database is behind the
    /// ledger in memory, an operation is about to write or the last write
    /// failed.
    pub open spec fn inv(self) -> bool {
        &&& forall|i: int| 0 <= i < self.operations.len() ==> (#[trigger] self.operations[i]).inv()
        &&& forall|i: int, lock: Lock|
            0 <= i < self.operations.len() ==> ((#[trigger] self.operations[i]).guards().holds(lock)
                <==> #[trigger] self.store.holder(lock) == Some(i))
        &&& forall|lock: Lock|
            (#[trigger] self.store.holder(lock)) is Some ==> 0 <= self.store.holder(lock)->0
                < self.operations.len()
        &&& self.store.disk <= self.store.memory
        &&& self.store.disk != self.store.memory ==> self.store.write_failed || exists|i: int|
            0 <= i < self.operations.len() && (#[trigger] self.operations[i]).unsaved()
        &&& forall|i: int|
            0 <= i < self.operations.len() && (#[trigger] self.operations[i]).action() is Stamp
                ==> self.store.disk == self.store.memory
    }
}

proof fn lemma_fresh_inv(operation: Operation)
    requires
        operation.fresh(),
    ensures
        operation.inv(),
        operation.guards() == Guards::none(),
        !operation.unsaved(),
{
}

/// The invariant holds at the start.
pub proof fn lemma_initial_inv(system: System)
    requires
        system.initial(),
    ensures
        system.inv(),
{
    assert forall|i: int| 0 <= i < system.operations.len() implies (
    #[trigger] system.operations[i]).inv() by {
        lemma_fresh_inv(system.operations[i]);
    }
    assert forall|i: int, lock: Lock| 0 <= i < system.operations.len() implies ((
    #[trigger] system.operations[i]).guards().holds(lock) <==> #[trigger] system.store.holder(lock)
        == Some(i)) by {
        lemma_fresh_inv(system.operations[i]);
    }
}

/// Every step keeps the invariant.
pub proof fn lemma_next_inv(system: System, step: Step)
    requires
        system.inv(),
        system.next(step) is Some,
    ensures
        system.next(step)->0.inv(),
{
    let after = system.next(step)->0;
    let k = step.operation;
    let operation = system.operations[k];
    lemma_step_keeps_inv(operation, step.event);
    lemma_lock_order(operation);
    lemma_step_guards(operation, step.event);
    // The store's holders follow the locks of the operation that moved.
    assert forall|i: int, lock: Lock| 0 <= i < after.operations.len() implies ((
    #[trigger] after.operations[i]).guards().holds(lock) <==> #[trigger] after.store.holder(lock)
        == Some(i)) by {
        assert(operation.guards().holds(lock) <==> system.store.holder(lock) == Some(k));
    }
    assert forall|lock: Lock| (#[trigger] after.store.holder(lock)) is Some implies 0
        <= after.store.holder(lock)->0 < after.operations.len() by {
        let _ = system.store.holder(lock);
    }
    if after.store.disk != after.store.memory && !after.store.write_failed {
        // An operation has still to write: the one that moved, or the one
        // that had to before the step.
        if operation.step(step.event)->0.unsaved() {
            assert(after.operations[k].unsaved());
        } else {
            let j = choose|j: int|
                0 <= j < system.operations.len() && (#[trigger] system.operations[j]).unsaved();
            assert(after.operations[j].unsaved());
        }
    }
}

/// How a step changes the locks of an operation, and what it leaves
/// unsaved.
proof fn lemma_step_guards(operation: Operation, event: Event)
    requires
        operation.inv(),
        operation.step(event) is Some,
    ensures
        ({
            let after = operation.step(event)->0;
            let action = operation.action();
            &&& (action is Acquire && event is Completed) ==> (forall|other: Lock| #[trigger]
                after.guards().holds(other) == (other == acquires(action)->0
                    || operation.guards().holds(other)))
            &&& (action is Release && event is Completed) ==> (forall|other: Lock| #[trigger]
                after.guards().holds(other) == (other != releases(action)->0
                    && operation.guards().holds(other)))
            &&& !(action is Acquire && event is Completed) && !(action is Release && event
                is Completed) ==> (forall|other: Lock| #[trigger]
                after.guards().holds(other) == operation.guards().holds(other))
            &&& after.unsaved() ==> operation.unsaved() || ((action is ApplyUpdate || action
                is ApplyBlock) && event is Completed)
            &&& operation.unsaved() && !after.unsaved() ==> action is Persist
            &&& (action is ApplyUpdate || action is ApplyBlock) && event is Completed
                ==> after.unsaved()
            &&& action is Persist ==> operation.unsaved() && !after.unsaved()
        }),
{
}

/// Every run from the start keeps the invariant.
pub proof fn lemma_run_inv(start: System, steps: Seq<Step>)
    requires
        start.initial(),
        start.run(steps) is Some,
    ensures
        start.run(steps)->0.inv(),
    decreases steps.len(),
{
    if steps.len() == 0 {
        lemma_initial_inv(start);
    } else {
        lemma_run_inv(start, steps.drop_last());
        lemma_next_inv(start.run(steps.drop_last())->0, steps.last());
    }
}

/// No update is lost and none is half applied: however the steps of syncs
/// and block connections interleave, whenever no operation holds a lock,
/// the database holds exactly what the ledger in memory holds, unless the
/// last write to the database failed.
pub proof fn lemma_database_matches_ledger_when_quiescent(start: System, steps: Seq<Step>)
    requires
        start.initial(),
        start.run(steps) is Some,
        start.run(steps)->0.quiescent(),
        !start.run(steps)->0.store.write_failed,
    ensures
        start.run(steps)->0.store.disk == start.run(steps)->0.store.memory,
{
    lemma_run_inv(start, steps);
    let reached = start.run(steps)->0;
    if reached.store.disk != reached.store.memory {
        // An operation would have still to write, and would hold the wallet.
        let i = choose|i: int|
            0 <= i < reached.operations.len() && (#[trigger] reached.operations[i]).unsaved();
        lemma_lock_order(reached.operations[i]);
    }
}

/// A lock has one holder: in every state that can be reached, no two
/// operations hold the same lock.
pub proof fn lemma_one_holder(start: System, steps: Seq<Step>, i: int, j: int, lock: Lock)
    requires
        start.initial(),
        start.run(steps) is Some,
        0 <= i < start.run(steps)->0.operations.len(),
        0 <= j < start.run(steps)->0.operations.len(),
        start.run(steps)->0.operations[i].guards().holds(lock),
        start.run(steps)->0.operations[j].guards().holds(lock),
    ensures
        i == j,
{
    lemma_run_inv(start, steps);
    let reached = start.run(steps)->0;
    // The store knows one holder of the lock, and both are it.
    assert(reached.store.holder(lock) == Some(j));
}

/// The effects of operations on the ledger do not interleave: in every
/// state that can be reached, at most one operation is about to touch the
/// ledger or the database, and it holds the wallet lock alone.
pub proof fn lemma_effects_do_not_interleave(start: System, steps: Seq<Step>, i: int, j: int)
    requires
        start.initial(),
        start.run(steps) is Some,
        0 <= i < start.run(steps)->0.operations.len(),
        0 <= j < start.run(steps)->0.operations.len(),
        touches_store(start.run(steps)->0.operations[i].action()),
        touches_store(start.run(steps)->0.operations[j].action()),
    ensures
        i == j,
        start.run(steps)->0.store.wallet == Some(i),
{
    lemma_run_inv(start, steps);
    let reached = start.run(steps)->0;
    // Both hold the wallet lock, of which the store knows one holder.
    lemma_lock_order(reached.operations[i]);
    lemma_lock_order(reached.operations[j]);
    assert(reached.store.holder(Lock::Wallet) == Some(j));
}

/// An update is applied to the ledger that it was fetched for: from the
/// moment a sync asks the chain source until it has applied the update, no
/// other operation touches the ledger.
pub proof fn lemma_nothing_comes_between_fetch_and_apply(
    start: System,
    steps: Seq<Step>,
    sync: int,
    other: int,
)
    requires
        start.initial(),
        start.run(steps) is Some,
        0 <= sync < start.run(steps)->0.operations.len(),
        0 <= other < start.run(steps)->0.operations.len(),
        ({
            let action = start.run(steps)->0.operations[sync].action();
            action is Fetch || action is UpgradeWallet || action is ApplyUpdate
        }),
        touches_store(start.run(steps)->0.operations[other].action()),
    ensures
        other == sync,
{
    lemma_run_inv(start, steps);
    let reached = start.run(steps)->0;
    // Both hold the wallet lock, of which the store knows one holder.
    lemma_lock_order(reached.operations[other]);
    assert(reached.store.holder(Lock::Wallet) == Some(other));
}

/// The lock order rules out deadlock: in every state that can be reached,
/// an operation that is not done can take its next step, or another
/// operation can. No operation waits for a lock whose holder waits for a
/// lock in turn.
pub proof fn lemma_no_deadlock(start: System, steps: Seq<Step>, waiting: int)
    requires
        start.initial(),
        start.run(steps) is Some,
        0 <= waiting < start.run(steps)->0.operations.len(),
        !(start.run(steps)->0.operations[waiting].action() is Finish),
    ensures
        exists|i: int|
            0 <= i < start.run(steps)->0.operations.len() && (#[trigger] start.run(steps)->0.next(
                Step { operation: i, event: Event::Completed, now: 0 },
            )) is Some,
{
    lemma_run_inv(start, steps);
    let reached = start.run(steps)->0;
    // The operation that holds the wallet lock moves; if none does, the one that waits.
    let mover = match reached.store.wallet {
        Some(holder) => holder,
        None => waiting,
    };
    let operation = reached.operations[mover];
    lemma_lock_order(operation);
    lemma_completes(operation);
    // A lock that it waits for is free: whoever held it would hold the
    // wallet lock too.
    if acquires(operation.action()) is Some {
        let lock = acquires(operation.action())->0;
        if reached.store.holder(lock) is Some {
            lemma_lock_order(reached.operations[reached.store.holder(lock)->0]);
        }
    }
    assert(reached.next(Step { operation: mover, event: Event::Completed, now: 0 }) is Some);
}

/// Every step but the last can be completed.
proof fn lemma_completes(operation: Operation)
    requires
        operation.inv(),
    ensures
        !(operation.action() is Finish) ==> operation.step(Event::Completed) is Some,
        operation.guards().wallet is Some ==> !(operation.action() is Finish),
{
}

/// The time of the last sync moves only with a ledger that is written:
/// whenever a sync stamps the time, the database holds exactly what the
/// ledger in memory holds.
pub proof fn lemma_stamp_follows_write(start: System, steps: Seq<Step>, i: int)
    requires
        start.initial(),
        start.run(steps) is Some,
        0 <= i < start.run(steps)->0.operations.len(),
        start.run(steps)->0.operations[i].action() is Stamp,
    ensures
        start.run(steps)->0.store.disk == start.run(steps)->0.store.memory,
{
    lemma_run_inv(start, steps);
}

/// The time of the last sync never goes back, whatever step is taken.
pub proof fn lemma_last_sync_never_goes_back(system: System, step: Step)
    requires
        system.next(step) is Some,
    ensures
        system.store.last_sync matches Some(before) ==> (system.next(step)->0.store.last_sync matches Some(
            after,
        ) && before <= after),
{
    let operation = system.operations[step.operation];
    let store = system.store.after(step.operation, operation.action(), step.event, step.now);
}

/// A wallet that is not unlocked when a sync starts ends the sync with
/// success, and leaves the store as it was: nothing is written and the
/// time of the last sync stays.
pub proof fn lemma_locked_wallet_skips_sync(system: System, step: Step)
    requires
        0 <= step.operation < system.operations.len(),
        system.operations[step.operation] matches Operation::Sync(sync) && sync.stage
            is WalletRead,
        step.event is WalletNotUnlocked,
        system.operations[step.operation].inv(),
    ensures
        system.next(step) is Some,
        system.next(step)->0.store == system.store,
        system.next(step)->0.operations[step.operation] is Sync,
        system.next(step)->0.operations[step.operation]->Sync_0.stage is Done,
        system.next(step)->0.operations[step.operation]->Sync_0.outcome() == Ok::<
            SyncOutcome,
            WalletSync,
        >(SyncOutcome::Skipped),
{
}

} // verus!
