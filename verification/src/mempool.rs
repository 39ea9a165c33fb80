//! Bootstrap of the mempool synchronization: the notification feed is
//! trusted only once it has been reached, and every fault of the task goes
//! through a channel that takes one value.

use vstd::prelude::*;
use vstd::string::StrSliceExecFns;
use vstd::string::StringExecFns;

verus! {

/// How long a connection attempt to the notification feed may take, in
/// milliseconds.
pub const PROBE_TIMEOUT_MILLIS: u64 = 250;

/// The host and port of a feed address: what follows the scheme `tcp://`,
/// and the address itself where it names no scheme.
pub open spec fn host_and_port(address: Seq<char>) -> Seq<char> {
    if address.len() >= 6 && address.subrange(0, 6) == "tcp://"@ {
        address.subrange(6, address.len() as int)
    } else {
        address
    }
}

/// The host and port to connect to, for the feed address `address`: the
/// address without its scheme `tcp://`, if it has one.
pub fn probe_target(address: &str) -> (target: &str)
    ensures
        target@ == host_and_port(address@),
{
    proof {
        reveal_strlit("tcp://");
    }
    let len = address.unicode_len();
    if len >= 6 && address.get_char(0) == 't' && address.get_char(1) == 'c' && address.get_char(2)
        == 'p' && address.get_char(3) == ':' && address.get_char(4) == '/' && address.get_char(5)
        == '/' {
        assert(address@.subrange(0, 6) =~= "tcp://"@);
        address.substring_char(6, len)
    } else {
        proof {
            if address@.len() >= 6 && address@.subrange(0, 6) == "tcp://"@ {
                assert(address@.subrange(0, 6)[0] == 't');
                assert(address@.subrange(0, 6)[1] == 'c');
                assert(address@.subrange(0, 6)[2] == 'p');
                assert(address@.subrange(0, 6)[3] == ':');
                assert(address@.subrange(0, 6)[4] == '/');
                assert(address@.subrange(0, 6)[5] == '/');
            }
        }
        address
    }
}

/// How a connection attempt ended.
#[derive(Clone, Debug, PartialEq, Eq)]
pub enum ProbeOutcome {
    /// Something accepted the connection.
    Connected,
    /// The connection was refused.
    Refused,
    /// The attempt failed otherwise; the cause is kept as its text.
    Failed(String),
    /// Nothing answered in time.
    TimedOut,
}

/// Whether the address answers, for the outcome of a connection attempt to
/// `target`: a refusal and a timeout both mean that nothing listens, and
/// any other failure is an error.
pub fn is_address_port_open(target: &str, outcome: ProbeOutcome) -> (open: Result<bool, String>)
    ensures
        match outcome {
            ProbeOutcome::Connected => open == Ok::<bool, String>(true),
            ProbeOutcome::Refused => open == Ok::<bool, String>(false),
            ProbeOutcome::TimedOut => open == Ok::<bool, String>(false),
            ProbeOutcome::Failed(cause) => open matches Err(text) && text@
                == "failed to connect to "@ + target@ + ": "@ + cause@,
        },
{
    match outcome {
        ProbeOutcome::Connected => Ok(true),
        ProbeOutcome::Refused => Ok(false),
        ProbeOutcome::TimedOut => Ok(false),
        ProbeOutcome::Failed(cause) => {
            let mut text = String::from_str("failed to connect to ");
            text.append(target);
            text.append(": ");
            text.append(cause.as_str());
            Err(text)
        },
    }
}

/// The channel on which a task reports its fault. It takes one value: the
/// first fault is kept for whoever supervises the task, and every later
/// one is dropped.
#[derive(Debug, PartialEq, Eq)]
pub struct ErrorChannel {
    fault: Option<String>,
}

/// What the channel holds after the faults `faults` were reported on it in
/// order, when it held `held` before.
pub open spec fn after_reports(held: Option<Seq<char>>, faults: Seq<Seq<char>>) -> Option<
    Seq<char>,
>
    decreases faults.len(),
{
    if faults.len() == 0 {
        held
    } else {
        match after_reports(held, faults.drop_last()) {
            Some(first) => Some(first),
            None => Some(faults.last()),
        }
    }
}

impl View for ErrorChannel {
    type V = Option<Seq<char>>;

    closed spec fn view(&self) -> Option<Seq<char>> {
        match self.fault {
            Some(fault) => Some(fault@),
            None => None,
        }
    }
}

impl ErrorChannel {
    /// A channel on which nothing has been reported.
    pub fn new() -> (channel: Self)
        ensures
            channel@ is None,
    {
        ErrorChannel { fault: None }
    }

    /// Reports `fault`. The channel keeps it if it is the first, and drops
    /// it if a fault was reported before; the result says which.
    pub fn report(&mut self, fault: String) -> (kept: bool)
        ensures
            kept == old(self)@ is None,
            final(self)@ == after_reports(old(self)@, seq![fault@]),
            final(self)@ == if old(self)@ is None {
                Some(fault@)
            } else {
                old(self)@
            },
    {
        proof {
            reveal_with_fuel(after_reports, 2);
        }
        if self.fault.is_none() {
            self.fault = Some(fault);
            true
        } else {
            false
        }
    }

    /// Whether a fault has been reported.
    pub fn is_reported(&self) -> (reported: bool)
        ensures
            reported == self@ is Some,
    {
        self.fault.is_some()
    }

    /// What the supervisor receives: the one fault that the channel kept,
    /// or nothing where the task ended without a report.
    pub fn receive(self) -> (fault: Option<String>)
        ensures
            match fault {
                Some(text) => self@ == Some(text@),
                None => self@ is None,
            },
    {
        self.fault
    }
}

/// Of any number of faults that a task reports, the supervisor observes
/// exactly one, the first: never two, and never none.
pub proof fn lemma_first_fault_is_observed(faults: Seq<Seq<char>>)
    requires
        faults.len() > 0,
    ensures
        after_reports(None, faults) == Some(faults[0]),
    decreases faults.len(),
{
    if faults.len() > 1 {
        lemma_first_fault_is_observed(faults.drop_last());
    } else {
        assert(after_reports(None, faults.drop_last()) is None);
    }
}

/// Once the channel holds a fault, no report changes it.
pub proof fn lemma_later_faults_are_dropped(held: Seq<char>, faults: Seq<Seq<char>>)
    ensures
        after_reports(Some(held), faults) == Some(held),
    decreases faults.len(),
{
    if faults.len() > 0 {
        lemma_later_faults_are_dropped(held, faults.drop_last());
    }
}

/// Where the bootstrap stands.
#[derive(Clone, Copy, Debug, PartialEq, Eq, Structural)]
pub enum BootstrapStage {
    /// Waiting for the connection attempt to the feed.
    Probe,
    /// Waiting for the first, blocking reconciliation with the node.
    InitialSync,
    /// The live session has been handed on.
    Live,
    /// The task has ended.
    Stopped,
}

/// What the caller does next for the bootstrap.
#[derive(Clone, Copy, Debug, PartialEq, Eq, Structural)]
pub enum BootstrapAction {
    /// Try to connect to the feed, for at most `timeout_millis`
    /// milliseconds.
    Probe { timeout_millis: u64 },
    /// Reconcile the enforcer with the node, over the RPC client and the
    /// feed.
    InitialSync,
    /// Hand the live session to the continuation, and report what fails in
    /// it.
    RunLive,
    /// Nothing more: the task is over.
    Stop,
}

/// What came back from the step that the bootstrap waited for.
#[derive(Clone, Debug, PartialEq, Eq)]
pub enum BootstrapEvent {
    /// The connection attempt ended.
    Probed(ProbeOutcome),
    /// The first reconciliation is done.
    Synced,
    /// The first reconciliation failed.
    SyncFailed(String),
    /// The live session failed.
    LiveFailed(String),
}

/// What a [`MempoolSyncBootstrap`] is, as contracts speak of it.
pub struct BootstrapView {
    pub address: Seq<char>,
    pub stage: BootstrapStage,
    pub fault: Option<Seq<char>>,
}

impl BootstrapView {
    /// The step that the bootstrap waits for.
    pub open spec fn action(self) -> BootstrapAction {
        match self.stage {
            BootstrapStage::Probe => BootstrapAction::Probe { timeout_millis: PROBE_TIMEOUT_MILLIS },
            BootstrapStage::InitialSync => BootstrapAction::InitialSync,
            BootstrapStage::Live => BootstrapAction::RunLive,
            BootstrapStage::Stopped => BootstrapAction::Stop,
        }
    }

    /// The task ends with the fault `text`, which the channel keeps if it
    /// is the first.
    pub open spec fn stop(self, text: Seq<char>) -> BootstrapView {
        BootstrapView {
            stage: BootstrapStage::Stopped,
            fault: after_reports(self.fault, seq![text]),
            ..self
        }
    }

    /// The fault that is reported where the feed cannot be trusted after
    /// the connection attempt ended with `outcome`; `None` where something
    /// accepted the connection.
    pub open spec fn probe_fault(self, outcome: ProbeOutcome) -> Option<Seq<char>> {
        match outcome {
            ProbeOutcome::Connected => None,
            ProbeOutcome::Refused => Some(
                "ZMQ address for mempool sync is not reachable: "@ + self.address,
            ),
            ProbeOutcome::TimedOut => Some(
                "ZMQ address for mempool sync is not reachable: "@ + self.address,
            ),
            ProbeOutcome::Failed(cause) => Some(
                "failed to check if ZMQ address is reachable: "@ + ("failed to connect to "@
                    + host_and_port(self.address) + ": "@ + cause@),
            ),
        }
    }

    /// The state after the step that the bootstrap waited for ended with
    /// `event`, and `None` where that step cannot end so.
    pub open spec fn step(self, event: BootstrapEvent) -> Option<BootstrapView> {
        match (self.stage, event) {
            (BootstrapStage::Probe, BootstrapEvent::Probed(outcome)) => match self.probe_fault(
                outcome,
            ) {
                None => Some(BootstrapView { stage: BootstrapStage::InitialSync, ..self }),
                Some(text) => Some(self.stop(text)),
            },
            (BootstrapStage::InitialSync, BootstrapEvent::Synced) => Some(
                BootstrapView { stage: BootstrapStage::Live, ..self },
            ),
            (BootstrapStage::InitialSync, BootstrapEvent::SyncFailed(cause)) => Some(
                self.stop("mempool: initial sync error: "@ + cause@),
            ),
            (BootstrapStage::Live, BootstrapEvent::LiveFailed(cause)) => Some(
                self.stop("mempool: task sync error: "@ + cause@),
            ),
            _ => None,
        }
    }

    /// The bootstrap after its steps ended with `events`, one after the
    /// other; `None` where a step cannot end as its event says.
    pub open spec fn run(self, events: Seq<BootstrapEvent>) -> Option<BootstrapView>
        decreases events.len(),
    {
        if events.len() == 0 {
            Some(self)
        } else {
            match self.run(events.drop_last()) {
                Some(before) => before.step(events.last()),
                None => None,
            }
        }
    }
}

/// The bootstrap of the mempool synchronization for one feed address.
///
/// The feed is probed first, with a short connection attempt. If nothing
/// listens, the task reports that and ends: no reconciliation is tried
/// with a feed that was never reached. Otherwise the enforcer is
/// reconciled with the node once, and the live session is handed on. What
/// fails on the way, and what fails in the live session, is reported on
/// the task's channel, which keeps the first fault only.
pub struct MempoolSyncBootstrap {
    address: String,
    stage: BootstrapStage,
    channel: ErrorChannel,
}

impl View for MempoolSyncBootstrap {
    type V = BootstrapView;

    closed spec fn view(&self) -> BootstrapView {
        BootstrapView { address: self.address@, stage: self.stage, fault: self.channel@ }
    }
}

impl MempoolSyncBootstrap {
    /// The bootstrap for the feed at `address`, before its first step,
    /// reporting on `channel`.
    pub fn new(address: String, channel: ErrorChannel) -> (bootstrap: Self)
        ensures
            bootstrap@ == (BootstrapView {
                address: address@,
                stage: BootstrapStage::Probe,
                fault: channel@,
            }),
    {
        MempoolSyncBootstrap { address, stage: BootstrapStage::Probe, channel }
    }

    /// The address of the feed.
    pub fn address(&self) -> (address: &str)
        ensures
            address@ == self@.address,
    {
        self.address.as_str()
    }

    /// The stage of the bootstrap.
    pub fn stage(&self) -> (stage: BootstrapStage)
        ensures
            stage == self@.stage,
    {
        self.stage
    }

    /// The step that the bootstrap waits for.
    pub fn next_action(&self) -> (action: BootstrapAction)
        ensures
            action == self@.action(),
    {
        match self.stage {
            BootstrapStage::Probe => BootstrapAction::Probe { timeout_millis: PROBE_TIMEOUT_MILLIS },
            BootstrapStage::InitialSync => BootstrapAction::InitialSync,
            BootstrapStage::Live => BootstrapAction::RunLive,
            BootstrapStage::Stopped => BootstrapAction::Stop,
        }
    }

    /// Takes what came back from the step that the bootstrap waited for.
    /// What cannot come back from that step is refused, and the bootstrap
    /// stays as it is.
    pub fn advance(&mut self, event: BootstrapEvent) -> (accepted: bool)
        ensures
            accepted == old(self)@.step(event) is Some,
            accepted ==> final(self)@ == old(self)@.step(event)->0,
            !accepted ==> final(self)@ == old(self)@,
    {
        match self.stage {
            BootstrapStage::Probe => match event {
                BootstrapEvent::Probed(outcome) => {
                    let reachable = match &outcome {
                        ProbeOutcome::Connected => true,
                        _ => false,
                    };
                    if reachable {
                        self.stage = BootstrapStage::InitialSync;
                    } else {
                        let target = probe_target(self.address.as_str());
                        let text = match is_address_port_open(target, outcome) {
                            Err(cause) => String::from_str(
                                "failed to check if ZMQ address is reachable: ",
                            ).concat(cause.as_str()),
                            Ok(_) => String::from_str(
                                "ZMQ address for mempool sync is not reachable: ",
                            ).concat(self.address.as_str()),
                        };
                        let _ = self.channel.report(text);
                        self.stage = BootstrapStage::Stopped;
                    }
                    true
                },
                _ => false,
            },
            BootstrapStage::InitialSync => match event {
                BootstrapEvent::Synced => {
                    self.stage = BootstrapStage::Live;
                    true
                },
                BootstrapEvent::SyncFailed(cause) => {
                    let text = String::from_str("mempool: initial sync error: ").concat(
                        cause.as_str(),
                    );
                    let _ = self.channel.report(text);
                    self.stage = BootstrapStage::Stopped;
                    true
                },
                _ => false,
            },
            BootstrapStage::Live => match event {
                BootstrapEvent::LiveFailed(cause) => {
                    let text = String::from_str("mempool: task sync error: ").concat(cause.as_str());
                    let _ = self.channel.report(text);
                    self.stage = BootstrapStage::Stopped;
                    true
                },
                _ => false,
            },
            BootstrapStage::Stopped => false,
        }
    }

    /// Ends the bootstrap and gives the channel back, with the fault that
    /// it kept, if any.
    pub fn into_channel(self) -> (channel: ErrorChannel)
        ensures
            channel@ == self@.fault,
    {
        self.channel
    }
}

/// Whether the connection attempt found nothing listening, or failed.
pub open spec fn unreachable(outcome: ProbeOutcome) -> bool {
    !(outcome is Connected)
}

/// Reachability comes first: where the connection attempt to the feed finds
/// nothing listening, the bootstrap ends with a fault on its channel, and
/// the reconciliation is never attempted, whatever comes after.
pub proof fn lemma_unreachable_feed_stops_bootstrap(
    start: BootstrapView,
    outcome: ProbeOutcome,
    later: Seq<BootstrapEvent>,
)
    requires
        start.stage is Probe,
        unreachable(outcome),
    ensures
        start.step(BootstrapEvent::Probed(outcome)) is Some,
        ({
            let stopped = start.step(BootstrapEvent::Probed(outcome))->0;
            &&& stopped.stage is Stopped
            &&& stopped.action() is Stop
            &&& stopped.fault is Some
            &&& start.fault is None ==> stopped.fault == start.probe_fault(outcome)
            &&& later.len() > 0 ==> stopped.run(later) is None
            &&& forall|event: BootstrapEvent| stopped.step(event) is None
        }),
    decreases later.len(),
{
    let stopped = start.step(BootstrapEvent::Probed(outcome))->0;
    reveal_with_fuel(after_reports, 2);
    if later.len() > 1 {
        lemma_unreachable_feed_stops_bootstrap(start, outcome, later.drop_last());
    } else if later.len() == 1 {
        assert(stopped.run(later.drop_last()) == Some(stopped));
    }
}

/// The reconciliation is attempted only after the feed was reached: on
/// every path of the bootstrap, the step before a reconciliation is a
/// connection attempt that something accepted.
pub proof fn lemma_initial_sync_follows_connection(start: BootstrapView, events: Seq<BootstrapEvent>)
    requires
        start.stage is Probe,
        start.run(events) is Some,
        start.run(events)->0.stage is InitialSync,
    ensures
        events.len() == 1,
        events[0] == BootstrapEvent::Probed(ProbeOutcome::Connected),
    decreases events.len(),
{
    if events.len() > 0 {
        // The step before led to the reconciliation, so it was the probe.
        lemma_probe_stage_is_the_start(start, events.drop_last());
    }
}

/// No step leads back to the connection attempt.
proof fn lemma_probe_stage_is_the_start(start: BootstrapView, events: Seq<BootstrapEvent>)
    requires
        start.run(events) is Some,
        start.run(events)->0.stage is Probe,
    ensures
        events.len() == 0,
{
    if events.len() > 0 {
        let before = start.run(events.drop_last())->0;
    }
}

} // verus!
