//! Wallet synchronization.
//!
//! The wallet ledger, the time of the last sync and the database are each
//! behind a lock of their own. Whoever changes the store takes the locks in
//! one order, wallet, last sync, database, and gives them back in the
//! reverse order. The two entry points are written as state machines: each
//! says which step comes next, and takes the outcome of that step.

use vstd::prelude::*;
use crate::bundles::{finalized_bundles, finalized_keys};
use crate::types::{BlockInfo, M6id, SidechainNumber, SidechainProposalId};
use crate::wallet::error::{BdkWalletPersist, ConnectBlock, NotUnlocked, SqliteError, WalletSync};

verus! {

/// Transactions that the Electrum source fetches in one batch.
pub const BATCH_SIZE: usize = 5;

/// Whether the Electrum source also fetches the outputs that inputs spend.
pub const FETCH_PREV_TXOUTS: bool = false;

/// Requests that the Esplora source keeps in flight.
pub const PARALLEL_REQUESTS: usize = 5;

/// The chain-data source of a wallet. It is chosen when the wallet is made
/// and stays.
#[derive(Clone, Copy, Debug, PartialEq, Eq, Structural)]
pub enum ChainSource {
    Electrum,
    Esplora,
}

/// How a chain-data source is asked for an update.
#[derive(Clone, Copy, Debug, PartialEq, Eq, Structural)]
pub enum FetchPlan {
    /// One batch after the other, each of at most `batch_size` items.
    SequentialBatch { batch_size: usize, fetch_prev_txouts: bool },
    /// At most `parallel_requests` requests at a time.
    Parallel { parallel_requests: usize },
}

impl ChainSource {
    /// The way in which the source is asked.
    pub open spec fn plan(self) -> FetchPlan {
        match self {
            ChainSource::Electrum => FetchPlan::SequentialBatch {
                batch_size: BATCH_SIZE,
                fetch_prev_txouts: FETCH_PREV_TXOUTS,
            },
            ChainSource::Esplora => FetchPlan::Parallel { parallel_requests: PARALLEL_REQUESTS },
        }
    }

    /// The error that reports the failure `cause` of this source.
    pub open spec fn failure(self, cause: String) -> WalletSync {
        match self {
            ChainSource::Electrum => WalletSync::ElectrumSync(cause),
            ChainSource::Esplora => WalletSync::EsploraSync(cause),
        }
    }

    /// The way in which the source is asked.
    pub fn fetch_plan(self) -> (plan: FetchPlan)
        ensures
            plan == self.plan(),
    {
        match self {
            ChainSource::Electrum => FetchPlan::SequentialBatch {
                batch_size: BATCH_SIZE,
                fetch_prev_txouts: FETCH_PREV_TXOUTS,
            },
            ChainSource::Esplora => FetchPlan::Parallel { parallel_requests: PARALLEL_REQUESTS },
        }
    }

    /// The source's name.
    pub fn name(self) -> (name: &'static str)
        ensures
            name@ == match self {
                ChainSource::Electrum => "electrum"@,
                ChainSource::Esplora => "esplora"@,
            },
    {
        match self {
            ChainSource::Electrum => "electrum",
            ChainSource::Esplora => "esplora",
        }
    }
}

/// The locks of the wallet store, in the order in which they are taken.
#[derive(Clone, Copy, Debug, PartialEq, Eq, Structural)]
pub enum Lock {
    Wallet,
    LastSync,
    Database,
}

impl Lock {
    /// Place of the lock in the order: a lock is taken before those of a
    /// higher rank.
    pub open spec fn rank(self) -> int {
        match self {
            Lock::Wallet => 0,
            Lock::LastSync => 1,
            Lock::Database => 2,
        }
    }
}

/// How the wallet lock is held.
#[derive(Clone, Copy, Debug, PartialEq, Eq, Structural)]
pub enum WalletAccess {
    /// Shared with readers, and first in line to write.
    Upgradable,
    /// Alone.
    Exclusive,
}

/// The locks that one operation holds.
#[derive(Clone, Copy, Debug, PartialEq, Eq)]
pub struct Guards {
    pub wallet: Option<WalletAccess>,
    pub last_sync: bool,
    pub database: bool,
}

impl Guards {
    /// No lock at all.
    pub open spec fn none() -> Guards {
        Guards { wallet: None, last_sync: false, database: false }
    }

    /// Whether `lock` is held.
    pub open spec fn holds(self, lock: Lock) -> bool {
        match lock {
            Lock::Wallet => self.wallet is Some,
            Lock::LastSync => self.last_sync,
            Lock::Database => self.database,
        }
    }

    /// Whether no lock is held.
    pub open spec fn is_empty(self) -> bool {
        self.wallet is None && !self.last_sync && !self.database
    }

    /// The wallet lock is the outermost: no other lock is held without it.
    pub open spec fn nested(self) -> bool {
        self.last_sync || self.database ==> self.wallet is Some
    }

    /// Taking `lock` now keeps the order: it is not held, the wallet lock is
    /// held unless `lock` is the wallet lock, and every lock that is held
    /// comes before it.
    pub open spec fn may_acquire(self, lock: Lock) -> bool {
        &&& !self.holds(lock)
        &&& lock != Lock::Wallet ==> self.holds(Lock::Wallet)
        &&& forall|held: Lock| #[trigger] self.holds(held) ==> held.rank() < lock.rank()
    }

    /// Giving `lock` back now keeps the order: it is held, and no lock that
    /// comes after it is.
    pub open spec fn may_release(self, lock: Lock) -> bool {
        &&& self.holds(lock)
        &&& forall|held: Lock| #[trigger] self.holds(held) ==> held.rank() <= lock.rank()
    }

    /// The lock that was taken last.
    pub open spec fn top(self) -> Option<Lock> {
        if self.database {
            Some(Lock::Database)
        } else if self.last_sync {
            Some(Lock::LastSync)
        } else if self.wallet is Some {
            Some(Lock::Wallet)
        } else {
            None
        }
    }

    /// The guards without the lock that was taken last.
    pub open spec fn without_top(self) -> Guards {
        if self.database {
            Guards { database: false, ..self }
        } else if self.last_sync {
            Guards { last_sync: false, ..self }
        } else {
            Guards { wallet: None, ..self }
        }
    }

    /// No lock at all.
    pub fn empty() -> (guards: Guards)
        ensures
            guards == Guards::none(),
    {
        Guards { wallet: None, last_sync: false, database: false }
    }

    /// The lock that was taken last, if any is held.
    pub fn last_taken(&self) -> (top: Option<Lock>)
        ensures
            top == self.top(),
    {
        if self.database {
            Some(Lock::Database)
        } else if self.last_sync {
            Some(Lock::LastSync)
        } else if self.wallet.is_some() {
            Some(Lock::Wallet)
        } else {
            None
        }
    }

    /// Drops the lock that was taken last.
    pub fn release_last(&mut self)
        ensures
            *final(self) == old(self).without_top(),
    {
        if self.database {
            self.database = false;
        } else if self.last_sync {
            self.last_sync = false;
        } else {
            self.wallet = None;
        }
    }
}

/// The time of the last sync after a commit at the time `now`, both in
/// seconds: the present, unless the clock went back since the commit
/// before. The time of the last sync never goes back.
pub fn next_last_sync(previous: Option<u64>, now: u64) -> (stamped: u64)
    ensures
        stamped == match previous {
            Some(time) => if time > now {
                time
            } else {
                now
            },
            None => now,
        },
        stamped >= now,
        previous matches Some(time) ==> stamped >= time,
{
    match previous {
        Some(time) => if time > now {
            time
        } else {
            now
        },
        None => now,
    }
}

/// A step that the caller takes for an operation on the wallet store.
#[derive(Clone, Copy, Debug, PartialEq, Eq)]
pub enum Action {
    /// Wait for `lock`. The wallet lock is taken as `access` says; the
    /// other locks are always taken alone.
    Acquire { lock: Lock, access: WalletAccess },
    /// Ask the chain source for an update, for what the wallet watches now.
    Fetch { source: ChainSource, plan: FetchPlan },
    /// Wait until the wallet lock is held alone.
    UpgradeWallet,
    /// Apply the fetched update to the ledger in memory.
    ApplyUpdate,
    /// Delete the pending bundles that the block settles.
    DeleteBundleProposals,
    /// Delete the pending sidechain proposals that the block confirms.
    DeleteSidechainProposals,
    /// Apply the block to the ledger in memory.
    ApplyBlock,
    /// Write the ledger's changes to the database.
    Persist,
    /// Set the time of the last sync to the present.
    Stamp,
    /// Give `lock` back.
    Release { lock: Lock },
    /// Nothing is left to do, and no lock is held: take the result.
    Finish,
}

/// How a step ended.
#[derive(Clone, Debug, PartialEq, Eq)]
pub enum Event {
    /// The step is done.
    Completed,
    /// The wallet lock was free, but the wallet has not been unlocked;
    /// the lock is not held.
    WalletNotUnlocked,
    /// The chain source or the ledger refused; the cause is kept as its
    /// text.
    Failed(String),
    /// A database refused.
    Sqlite(SqliteError),
}

/// Where a sync stands: each stage but the last waits for one step.
#[derive(Clone, Copy, Debug, PartialEq, Eq, Structural)]
pub enum SyncStage {
    WalletRead,
    LastSync,
    Fetch,
    Upgrade,
    Apply,
    Database,
    Persist,
    Stamp,
    Release,
    Done,
}

/// How a sync ended well.
#[derive(Clone, Copy, Debug, PartialEq, Eq, Structural)]
pub enum SyncOutcome {
    /// The wallet was not unlocked: nothing was fetched, written or
    /// stamped.
    Skipped,
    /// The update was applied and written, and the time of the last sync
    /// was set.
    Committed,
}

/// What a [`SyncSession`] is, as contracts speak of it.
pub struct SyncView {
    pub source: ChainSource,
    pub database_path: String,
    pub stage: SyncStage,
    pub guards: Guards,
    pub failure: Option<WalletSync>,
    pub stamped: bool,
}

impl SyncView {
    /// The state in which a sync starts.
    pub open spec fn start(source: ChainSource, database_path: String) -> SyncView {
        SyncView {
            source,
            database_path,
            stage: SyncStage::WalletRead,
            guards: Guards::none(),
            failure: None,
            stamped: false,
        }
    }

    /// The step that the sync waits for.
    pub open spec fn action(self) -> Action {
        match self.stage {
            SyncStage::WalletRead => Action::Acquire {
                lock: Lock::Wallet,
                access: WalletAccess::Upgradable,
            },
            SyncStage::LastSync => Action::Acquire {
                lock: Lock::LastSync,
                access: WalletAccess::Exclusive,
            },
            SyncStage::Fetch => Action::Fetch { source: self.source, plan: self.source.plan() },
            SyncStage::Upgrade => Action::UpgradeWallet,
            SyncStage::Apply => Action::ApplyUpdate,
            SyncStage::Database => Action::Acquire {
                lock: Lock::Database,
                access: WalletAccess::Exclusive,
            },
            SyncStage::Persist => Action::Persist,
            SyncStage::Stamp => Action::Stamp,
            SyncStage::Release => match self.guards.top() {
                Some(lock) => Action::Release { lock },
                None => Action::Finish,
            },
            SyncStage::Done => Action::Finish,
        }
    }

    /// The sync gives up with `failure`, and goes on to give its locks
    /// back.
    pub open spec fn fail(self, failure: WalletSync) -> SyncView {
        SyncView { failure: Some(failure), stage: SyncStage::Release, ..self }
    }

    /// The state after the step that the sync waited for ended with
    /// `event`, and `None` where that step cannot end so.
    pub open spec fn step(self, event: Event) -> Option<SyncView> {
        match (self.stage, event) {
            (SyncStage::WalletRead, Event::Completed) => Some(
                SyncView {
                    stage: SyncStage::LastSync,
                    guards: Guards { wallet: Some(WalletAccess::Upgradable), ..self.guards },
                    ..self
                },
            ),
            (SyncStage::WalletRead, Event::WalletNotUnlocked) => Some(
                SyncView { stage: SyncStage::Done, ..self },
            ),
            (SyncStage::LastSync, Event::Completed) => Some(
                SyncView {
                    stage: SyncStage::Fetch,
                    guards: Guards { last_sync: true, ..self.guards },
                    ..self
                },
            ),
            (SyncStage::Fetch, Event::Completed) => Some(
                SyncView { stage: SyncStage::Upgrade, ..self },
            ),
            (SyncStage::Fetch, Event::Failed(cause)) => Some(self.fail(self.source.failure(cause))),
            (SyncStage::Upgrade, Event::Completed) => Some(
                SyncView {
                    stage: SyncStage::Apply,
                    guards: Guards { wallet: Some(WalletAccess::Exclusive), ..self.guards },
                    ..self
                },
            ),
            (SyncStage::Apply, Event::Completed) => Some(
                SyncView { stage: SyncStage::Database, ..self },
            ),
            (SyncStage::Apply, Event::Failed(cause)) => Some(
                self.fail(WalletSync::BdkWalletConnect(cause)),
            ),
            (SyncStage::Database, Event::Completed) => Some(
                SyncView {
                    stage: SyncStage::Persist,
                    guards: Guards { database: true, ..self.guards },
                    ..self
                },
            ),
            (SyncStage::Persist, Event::Completed) => Some(
                SyncView { stage: SyncStage::Stamp, ..self },
            ),
            (SyncStage::Persist, Event::Failed(cause)) => Some(
                self.fail(
                    WalletSync::BdkWalletPersist(
                        BdkWalletPersist { file_path: self.database_path, source: cause },
                    ),
                ),
            ),
            (SyncStage::Stamp, Event::Completed) => Some(
                SyncView { stage: SyncStage::Release, stamped: true, ..self },
            ),
            (SyncStage::Release, Event::Completed) => Some(
                SyncView {
                    stage: if self.guards.without_top().is_empty() {
                        SyncStage::Done
                    } else {
                        SyncStage::Release
                    },
                    guards: self.guards.without_top(),
                    ..self
                },
            ),
            _ => None,
        }
    }

    /// The locks that a sync holds at each stage.
    pub open spec fn inv(self) -> bool {
        match self.stage {
            SyncStage::WalletRead => self.guards == Guards::none() && self.failure is None
                && !self.stamped,
            SyncStage::LastSync => self.guards == Guards {
                wallet: Some(WalletAccess::Upgradable),
                last_sync: false,
                database: false,
            } && self.failure is None && !self.stamped,
            SyncStage::Fetch | SyncStage::Upgrade => self.guards == Guards {
                wallet: Some(WalletAccess::Upgradable),
                last_sync: true,
                database: false,
            } && self.failure is None && !self.stamped,
            SyncStage::Apply | SyncStage::Database => self.guards == Guards {
                wallet: Some(WalletAccess::Exclusive),
                last_sync: true,
                database: false,
            } && self.failure is None && !self.stamped,
            SyncStage::Persist | SyncStage::Stamp => self.guards == Guards {
                wallet: Some(WalletAccess::Exclusive),
                last_sync: true,
                database: true,
            } && self.failure is None && !self.stamped,
            SyncStage::Release => self.guards.nested() && !self.guards.is_empty() && (
            self.failure is Some || self.stamped) && !(self.failure is Some && self.stamped),
            SyncStage::Done => self.guards == Guards::none() && !(self.failure is Some
                && self.stamped),
        }
    }

    /// The update is in the ledger in memory and not yet in the database.
    pub open spec fn unsaved(self) -> bool {
        self.stage is Database || self.stage is Persist
    }

    /// The result of a sync that is done.
    pub open spec fn outcome(self) -> Result<SyncOutcome, WalletSync> {
        match self.failure {
            Some(failure) => Err(failure),
            None => if self.stamped {
                Ok(SyncOutcome::Committed)
            } else {
                Ok(SyncOutcome::Skipped)
            },
        }
    }
}

/// One round of synchronization with the chain source, from the first lock
/// to the last release.
///
/// The round takes the wallet lock for an upgradable read and the lock of
/// the last sync, fetches an update, upgrades the wallet lock, applies the
/// update and takes the database lock. It then holds the store locked for
/// writing, with nothing committed. The commit writes the ledger to the
/// database, stamps the time of the last sync, and gives the locks back:
/// database, last sync, wallet. A wallet that is not unlocked ends the
/// round at its first step, with nothing done and no error.
pub struct SyncSession {
    source: ChainSource,
    database_path: String,
    stage: SyncStage,
    guards: Guards,
    failure: Option<WalletSync>,
    stamped: bool,
}

impl View for SyncSession {
    type V = SyncView;

    closed spec fn view(&self) -> SyncView {
        SyncView {
            source: self.source,
            database_path: self.database_path,
            stage: self.stage,
            guards: self.guards,
            failure: self.failure,
            stamped: self.stamped,
        }
    }
}

impl SyncSession {
    /// A round that has not taken its first step. `database_path` names the
    /// wallet database in the error of a failed write.
    pub fn new(source: ChainSource, database_path: String) -> (session: Self)
        ensures
            session@ == SyncView::start(source, database_path),
            session@.inv(),
    {
        SyncSession {
            source,
            database_path,
            stage: SyncStage::WalletRead,
            guards: Guards::empty(),
            failure: None,
            stamped: false,
        }
    }

    /// The locks that the round holds.
    pub fn guards(&self) -> (guards: Guards)
        ensures
            guards == self@.guards,
    {
        self.guards
    }

    /// The stage of the round.
    pub fn stage(&self) -> (stage: SyncStage)
        ensures
            stage == self@.stage,
    {
        self.stage
    }

    /// Whether the round holds the store locked for writing, with the
    /// update applied and nothing committed yet.
    pub fn is_locked(&self) -> (locked: bool)
        ensures
            locked == (self@.stage is Persist),
    {
        match self.stage {
            SyncStage::Persist => true,
            _ => false,
        }
    }

    /// The step that the round waits for.
    pub fn next_action(&self) -> (action: Action)
        ensures
            action == self@.action(),
    {
        match self.stage {
            SyncStage::WalletRead => Action::Acquire {
                lock: Lock::Wallet,
                access: WalletAccess::Upgradable,
            },
            SyncStage::LastSync => Action::Acquire {
                lock: Lock::LastSync,
                access: WalletAccess::Exclusive,
            },
            SyncStage::Fetch => Action::Fetch { source: self.source, plan: self.source.fetch_plan() },
            SyncStage::Upgrade => Action::UpgradeWallet,
            SyncStage::Apply => Action::ApplyUpdate,
            SyncStage::Database => Action::Acquire {
                lock: Lock::Database,
                access: WalletAccess::Exclusive,
            },
            SyncStage::Persist => Action::Persist,
            SyncStage::Stamp => Action::Stamp,
            SyncStage::Release => match self.guards.last_taken() {
                Some(lock) => Action::Release { lock },
                None => Action::Finish,
            },
            SyncStage::Done => Action::Finish,
        }
    }

    /// Takes the outcome of the step that the round waited for. An outcome
    /// that this step cannot have is refused, and the round stays as it is.
    pub fn advance(&mut self, event: Event) -> (accepted: bool)
        ensures
            accepted == old(self)@.step(event) is Some,
            accepted ==> final(self)@ == old(self)@.step(event)->0,
            !accepted ==> final(self)@ == old(self)@,
            old(self)@.inv() ==> final(self)@.inv(),
    {
        match self.stage {
            SyncStage::WalletRead => match event {
                Event::Completed => {
                    self.guards.wallet = Some(WalletAccess::Upgradable);
                    self.stage = SyncStage::LastSync;
                    true
                },
                Event::WalletNotUnlocked => {
                    self.stage = SyncStage::Done;
                    true
                },
                _ => false,
            },
            SyncStage::LastSync => match event {
                Event::Completed => {
                    self.guards.last_sync = true;
                    self.stage = SyncStage::Fetch;
                    true
                },
                _ => false,
            },
            SyncStage::Fetch => match event {
                Event::Completed => {
                    self.stage = SyncStage::Upgrade;
                    true
                },
                Event::Failed(cause) => {
                    self.failure = Some(
                        match self.source {
                            ChainSource::Electrum => WalletSync::ElectrumSync(cause),
                            ChainSource::Esplora => WalletSync::EsploraSync(cause),
                        },
                    );
                    self.stage = SyncStage::Release;
                    true
                },
                _ => false,
            },
            SyncStage::Upgrade => match event {
                Event::Completed => {
                    self.guards.wallet = Some(WalletAccess::Exclusive);
                    self.stage = SyncStage::Apply;
                    true
                },
                _ => false,
            },
            SyncStage::Apply => match event {
                Event::Completed => {
                    self.stage = SyncStage::Database;
                    true
                },
                Event::Failed(cause) => {
                    self.failure = Some(WalletSync::BdkWalletConnect(cause));
                    self.stage = SyncStage::Release;
                    true
                },
                _ => false,
            },
            SyncStage::Database => match event {
                Event::Completed => {
                    self.guards.database = true;
                    self.stage = SyncStage::Persist;
                    true
                },
                _ => false,
            },
            SyncStage::Persist => match event {
                Event::Completed => {
                    self.stage = SyncStage::Stamp;
                    true
                },
                Event::Failed(cause) => {
                    let file_path = self.database_path.clone();
                    self.failure = Some(
                        WalletSync::BdkWalletPersist(BdkWalletPersist { file_path, source: cause }),
                    );
                    self.stage = SyncStage::Release;
                    true
                },
                _ => false,
            },
            SyncStage::Stamp => match event {
                Event::Completed => {
                    self.stamped = true;
                    self.stage = SyncStage::Release;
                    true
                },
                _ => false,
            },
            SyncStage::Release => match event {
                Event::Completed => {
                    self.guards.release_last();
                    if self.guards.last_taken().is_none() {
                        self.stage = SyncStage::Done;
                    }
                    true
                },
                _ => false,
            },
            SyncStage::Done => false,
        }
    }

    /// The result of the round, once it is done; `None` before.
    pub fn finish(self) -> (outcome: Option<Result<SyncOutcome, WalletSync>>)
        ensures
            outcome is Some <==> self@.stage is Done,
            outcome matches Some(result) ==> result == self@.outcome(),
    {
        match self.stage {
            SyncStage::Done => match self.failure {
                Some(failure) => Some(Err(failure)),
                None => if self.stamped {
                    Some(Ok(SyncOutcome::Committed))
                } else {
                    Some(Ok(SyncOutcome::Skipped))
                },
            },
            _ => None,
        }
    }
}

/// Where the connection of a block stands: each stage but the last waits
/// for one step.
#[derive(Clone, Copy, Debug, PartialEq, Eq, Structural)]
pub enum ConnectStage {
    WalletWrite,
    DeleteBundles,
    DeleteProposals,
    Database,
    Apply,
    Persist,
    Release,
    Done,
}

/// What a [`BlockConnection`] is, as contracts speak of it.
pub struct ConnectView {
    pub block_height: u32,
    pub finalized: Seq<(SidechainNumber, M6id)>,
    pub confirmed: Seq<SidechainProposalId>,
    pub stage: ConnectStage,
    pub guards: Guards,
    pub failure: Option<ConnectBlock>,
    pub persisted: bool,
}

impl ConnectView {
    /// The state in which the connection of the block at `block_height`
    /// starts, for what `block_info` says of the block.
    pub open spec fn start(block_height: u32, block_info: BlockInfo) -> ConnectView {
        ConnectView {
            block_height,
            finalized: finalized_keys(block_info.bundle_events@),
            confirmed: block_info.sidechain_proposals@,
            stage: ConnectStage::WalletWrite,
            guards: Guards::none(),
            failure: None,
            persisted: false,
        }
    }

    /// The step that the connection waits for.
    pub open spec fn action(self) -> Action {
        match self.stage {
            ConnectStage::WalletWrite => Action::Acquire {
                lock: Lock::Wallet,
                access: WalletAccess::Exclusive,
            },
            ConnectStage::DeleteBundles => Action::DeleteBundleProposals,
            ConnectStage::DeleteProposals => Action::DeleteSidechainProposals,
            ConnectStage::Database => Action::Acquire {
                lock: Lock::Database,
                access: WalletAccess::Exclusive,
            },
            ConnectStage::Apply => Action::ApplyBlock,
            ConnectStage::Persist => Action::Persist,
            ConnectStage::Release => match self.guards.top() {
                Some(lock) => Action::Release { lock },
                None => Action::Finish,
            },
            ConnectStage::Done => Action::Finish,
        }
    }

    /// The connection gives up with `failure`, and goes on to give its
    /// locks back.
    pub open spec fn fail(self, failure: ConnectBlock) -> ConnectView {
        ConnectView { failure: Some(failure), stage: ConnectStage::Release, ..self }
    }

    /// The state after the step that the connection waited for ended with
    /// `event`, and `None` where that step cannot end so.
    pub open spec fn step(self, event: Event) -> Option<ConnectView> {
        match (self.stage, event) {
            (ConnectStage::WalletWrite, Event::Completed) => Some(
                ConnectView {
                    stage: ConnectStage::DeleteBundles,
                    guards: Guards { wallet: Some(WalletAccess::Exclusive), ..self.guards },
                    ..self
                },
            ),
            (ConnectStage::WalletWrite, Event::WalletNotUnlocked) => Some(
                ConnectView {
                    failure: Some(ConnectBlock::WalletNotUnlocked(NotUnlocked)),
                    stage: ConnectStage::Done,
                    ..self
                },
            ),
            (ConnectStage::DeleteBundles, Event::Completed) => Some(
                ConnectView { stage: ConnectStage::DeleteProposals, ..self },
            ),
            (ConnectStage::DeleteBundles, Event::Sqlite(error)) => Some(
                self.fail(ConnectBlock::Sqlite(error)),
            ),
            (ConnectStage::DeleteProposals, Event::Completed) => Some(
                ConnectView { stage: ConnectStage::Database, ..self },
            ),
            (ConnectStage::DeleteProposals, Event::Sqlite(error)) => Some(
                self.fail(ConnectBlock::Sqlite(error)),
            ),
            (ConnectStage::Database, Event::Completed) => Some(
                ConnectView {
                    stage: ConnectStage::Apply,
                    guards: Guards { database: true, ..self.guards },
                    ..self
                },
            ),
            (ConnectStage::Apply, Event::Completed) => Some(
                ConnectView { stage: ConnectStage::Persist, ..self },
            ),
            (ConnectStage::Apply, Event::Failed(cause)) => Some(
                self.fail(ConnectBlock::BdkConnect(cause)),
            ),
            (ConnectStage::Persist, Event::Completed) => Some(
                ConnectView { stage: ConnectStage::Release, persisted: true, ..self },
            ),
            (ConnectStage::Persist, Event::Sqlite(error)) => Some(
                self.fail(ConnectBlock::Sqlite(error)),
            ),
            (ConnectStage::Release, Event::Completed) => Some(
                ConnectView {
                    stage: if self.guards.without_top().is_empty() {
                        ConnectStage::Done
                    } else {
                        ConnectStage::Release
                    },
                    guards: self.guards.without_top(),
                    ..self
                },
            ),
            _ => None,
        }
    }

    /// The locks that the connection of a block holds at each stage.
    pub open spec fn inv(self) -> bool {
        match self.stage {
            ConnectStage::WalletWrite => self.guards == Guards::none() && self.failure is None
                && !self.persisted,
            ConnectStage::DeleteBundles | ConnectStage::DeleteProposals | ConnectStage::Database => self.guards
                == Guards { wallet: Some(WalletAccess::Exclusive), last_sync: false, database: false }
                && self.failure is None && !self.persisted,
            ConnectStage::Apply | ConnectStage::Persist => self.guards == Guards {
                wallet: Some(WalletAccess::Exclusive),
                last_sync: false,
                database: true,
            } && self.failure is None && !self.persisted,
            ConnectStage::Release => self.guards.nested() && !self.guards.is_empty() && (
            self.failure is Some || self.persisted) && !(self.failure is Some && self.persisted),
            ConnectStage::Done => self.guards == Guards::none() && (self.failure is Some
                || self.persisted) && !(self.failure is Some && self.persisted),
        }
    }

    /// The block is in the ledger in memory and not yet in the database.
    pub open spec fn unsaved(self) -> bool {
        self.stage is Persist
    }

    /// The result of a connection that is done.
    pub open spec fn outcome(self) -> Result<(), ConnectBlock> {
        match self.failure {
            Some(failure) => Err(failure),
            None => Ok(()),
        }
    }
}

/// The connection of one block to the wallet, from the first lock to the
/// last release.
///
/// The connection takes the wallet lock alone before anything else, so
/// that no sync changes the ledger meanwhile. Then the pending bundles
/// that the block settles are deleted, and the pending sidechain proposals
/// that it confirms: both once, and before the block reaches the ledger.
/// With the database lock held the block is applied and the ledger
/// written, and the locks are given back: database, then wallet. A wallet
/// that is not unlocked is an error here.
pub struct BlockConnection {
    block_height: u32,
    finalized: Vec<(SidechainNumber, M6id)>,
    confirmed: Vec<SidechainProposalId>,
    stage: ConnectStage,
    guards: Guards,
    failure: Option<ConnectBlock>,
    persisted: bool,
}

impl View for BlockConnection {
    type V = ConnectView;

    closed spec fn view(&self) -> ConnectView {
        ConnectView {
            block_height: self.block_height,
            finalized: self.finalized@,
            confirmed: self.confirmed@,
            stage: self.stage,
            guards: self.guards,
            failure: self.failure,
            persisted: self.persisted,
        }
    }
}

impl BlockConnection {
    /// The connection of the block at `block_height`, before its first
    /// step. The bundles to delete are those that an event of the block
    /// fails or succeeds; a submission deletes nothing.
    pub fn new(block_height: u32, block_info: BlockInfo) -> (connection: Self)
        ensures
            connection@ == ConnectView::start(block_height, block_info),
            connection@.inv(),
    {
        let finalized = finalized_bundles(block_info.bundle_events.as_slice());
        BlockConnection {
            block_height,
            finalized,
            confirmed: block_info.sidechain_proposals,
            stage: ConnectStage::WalletWrite,
            guards: Guards::empty(),
            failure: None,
            persisted: false,
        }
    }

    /// The height of the block.
    pub fn block_height(&self) -> (height: u32)
        ensures
            height == self@.block_height,
    {
        self.block_height
    }

    /// The keys of the bundles that the block settles.
    pub fn finalized(&self) -> (keys: &[(SidechainNumber, M6id)])
        ensures
            keys@ == self@.finalized,
    {
        self.finalized.as_slice()
    }

    /// The ids of the sidechain proposals that the block confirms.
    pub fn confirmed(&self) -> (ids: &[SidechainProposalId])
        ensures
            ids@ == self@.confirmed,
    {
        self.confirmed.as_slice()
    }

    /// The locks that the connection holds.
    pub fn guards(&self) -> (guards: Guards)
        ensures
            guards == self@.guards,
    {
        self.guards
    }

    /// The stage of the connection.
    pub fn stage(&self) -> (stage: ConnectStage)
        ensures
            stage == self@.stage,
    {
        self.stage
    }

    /// The step that the connection waits for.
    pub fn next_action(&self) -> (action: Action)
        ensures
            action == self@.action(),
    {
        match self.stage {
            ConnectStage::WalletWrite => Action::Acquire {
                lock: Lock::Wallet,
                access: WalletAccess::Exclusive,
            },
            ConnectStage::DeleteBundles => Action::DeleteBundleProposals,
            ConnectStage::DeleteProposals => Action::DeleteSidechainProposals,
            ConnectStage::Database => Action::Acquire {
                lock: Lock::Database,
                access: WalletAccess::Exclusive,
            },
            ConnectStage::Apply => Action::ApplyBlock,
            ConnectStage::Persist => Action::Persist,
            ConnectStage::Release => match self.guards.last_taken() {
                Some(lock) => Action::Release { lock },
                None => Action::Finish,
            },
            ConnectStage::Done => Action::Finish,
        }
    }

    /// Takes the outcome of the step that the connection waited for. An
    /// outcome that this step cannot have is refused, and the connection
    /// stays as it is.
    pub fn advance(&mut self, event: Event) -> (accepted: bool)
        ensures
            accepted == old(self)@.step(event) is Some,
            accepted ==> final(self)@ == old(self)@.step(event)->0,
            !accepted ==> final(self)@ == old(self)@,
            old(self)@.inv() ==> final(self)@.inv(),
    {
        match self.stage {
            ConnectStage::WalletWrite => match event {
                Event::Completed => {
                    self.guards.wallet = Some(WalletAccess::Exclusive);
                    self.stage = ConnectStage::DeleteBundles;
                    true
                },
                Event::WalletNotUnlocked => {
                    self.failure = Some(ConnectBlock::WalletNotUnlocked(NotUnlocked));
                    self.stage = ConnectStage::Done;
                    true
                },
                _ => false,
            },
            ConnectStage::DeleteBundles => match event {
                Event::Completed => {
                    self.stage = ConnectStage::DeleteProposals;
                    true
                },
                Event::Sqlite(error) => {
                    self.failure = Some(ConnectBlock::Sqlite(error));
                    self.stage = ConnectStage::Release;
                    true
                },
                _ => false,
            },
            ConnectStage::DeleteProposals => match event {
                Event::Completed => {
                    self.stage = ConnectStage::Database;
                    true
                },
                Event::Sqlite(error) => {
                    self.failure = Some(ConnectBlock::Sqlite(error));
                    self.stage = ConnectStage::Release;
                    true
                },
                _ => false,
            },
            ConnectStage::Database => match event {
                Event::Completed => {
                    self.guards.database = true;
                    self.stage = ConnectStage::Apply;
                    true
                },
                _ => false,
            },
            ConnectStage::Apply => match event {
                Event::Completed => {
                    self.stage = ConnectStage::Persist;
                    true
                },
                Event::Failed(cause) => {
                    self.failure = Some(ConnectBlock::BdkConnect(cause));
                    self.stage = ConnectStage::Release;
                    true
                },
                _ => false,
            },
            ConnectStage::Persist => match event {
                Event::Completed => {
                    self.persisted = true;
                    self.stage = ConnectStage::Release;
                    true
                },
                Event::Sqlite(error) => {
                    self.failure = Some(ConnectBlock::Sqlite(error));
                    self.stage = ConnectStage::Release;
                    true
                },
                _ => false,
            },
            ConnectStage::Release => match event {
                Event::Completed => {
                    self.guards.release_last();
                    if self.guards.last_taken().is_none() {
                        self.stage = ConnectStage::Done;
                    }
                    true
                },
                _ => false,
            },
            ConnectStage::Done => false,
        }
    }

    /// The result of the connection, once it is done; `None` before.
    pub fn finish(self) -> (outcome: Option<Result<(), ConnectBlock>>)
        ensures
            outcome is Some <==> self@.stage is Done,
            outcome matches Some(result) ==> result == self@.outcome(),
    {
        match self.stage {
            ConnectStage::Done => match self.failure {
                Some(failure) => Some(Err(failure)),
                None => Some(Ok(())),
            },
            _ => None,
        }
    }
}

/// Giving back the lock that was taken last leaves the others nested, and
/// the lock given back was free to go.
pub proof fn lemma_release_keeps_nesting(guards: Guards)
    requires
        guards.nested(),
        !guards.is_empty(),
    ensures
        guards.top() matches Some(lock) && guards.may_release(lock),
        guards.without_top().nested(),
        guards.without_top().is_empty() <==> guards.without_top() == Guards::none(),
        guards.without_top().is_empty() <==> guards.without_top().top() is None,
{
}

} // verus!
