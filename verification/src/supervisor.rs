//! Supervision of the service's tasks: the handshake with the node at
//! startup, the choice of the enforcer task, what a wallet needs before
//! its mempool task starts, and the decision that ends the process.

use vstd::prelude::*;
use vstd::string::StringExecFns;
use crate::mempool::{after_reports, ErrorChannel};
use crate::wallet::error::BitcoinCoreRPC;

verus! {

/// The code with which the node answers while it is still warming up.
pub const RPC_IN_WARMUP: i32 = -28;

/// The delay before the node is asked again, in milliseconds.
pub const RETRY_DELAY_MILLIS: u64 = 250;

/// How the node answered the question for its blockchain info.
#[derive(Clone, Debug, PartialEq, Eq)]
pub enum NodeReply {
    /// The node gave its blockchain info.
    Info,
    /// The node answered the call with an error of the code `code`; `text`
    /// is the error as it is displayed.
    CallError { code: i32, text: String },
    /// The call failed otherwise; the error is kept as it is displayed.
    OtherError(String),
}

impl NodeReply {
    /// The node is still warming up: an error that goes away by itself.
    pub open spec fn is_warmup(self) -> bool {
        self matches NodeReply::CallError { code, .. } && code == RPC_IN_WARMUP
    }
}

/// What startup does after an answer of the node.
#[derive(Clone, Debug, PartialEq, Eq)]
pub enum StartupAction {
    /// Go on with the blockchain info.
    Proceed,
    /// Wait `delay_millis` milliseconds and ask again.
    Retry { delay_millis: u64 },
    /// Give up: startup has failed.
    Abort(BitcoinCoreRPC),
}

/// The error of a failed call of `getblockchaininfo`.
pub open spec fn is_blockchain_info_failure(error: BitcoinCoreRPC, text: String) -> bool {
    error.method@ == "getblockchaininfo"@ && error.error == text
}

/// What an answer of the node means for startup.
#[derive(Clone, Copy, Debug, PartialEq, Eq, Structural)]
pub enum ReplyKind {
    /// The node is up.
    Ready,
    /// The node is warming up.
    WarmingUp,
    /// The call failed for good.
    Fatal,
}

impl NodeReply {
    /// What the answer means for startup.
    pub open spec fn kind_spec(self) -> ReplyKind {
        match self {
            NodeReply::Info => ReplyKind::Ready,
            NodeReply::CallError { code, .. } => if code == RPC_IN_WARMUP {
                ReplyKind::WarmingUp
            } else {
                ReplyKind::Fatal
            },
            NodeReply::OtherError(_) => ReplyKind::Fatal,
        }
    }

    /// What the answer means for startup: of all errors only the code of a
    /// node that is warming up is tolerated.
    pub fn kind(&self) -> (kind: ReplyKind)
        ensures
            kind == self.kind_spec(),
    {
        match self {
            NodeReply::Info => ReplyKind::Ready,
            NodeReply::CallError { code, .. } => if *code == RPC_IN_WARMUP {
                ReplyKind::WarmingUp
            } else {
                ReplyKind::Fatal
            },
            NodeReply::OtherError(_) => ReplyKind::Fatal,
        }
    }
}

/// Decides what startup does after the node answered with `reply`. A node
/// that is warming up is asked again after a fixed delay; every other
/// error ends startup at once.
pub fn startup_step(reply: NodeReply) -> (action: StartupAction)
    ensures
        match reply {
            NodeReply::Info => action == StartupAction::Proceed,
            NodeReply::CallError { code, text } => if code == RPC_IN_WARMUP {
                action == (StartupAction::Retry { delay_millis: RETRY_DELAY_MILLIS })
            } else {
                action matches StartupAction::Abort(error) && is_blockchain_info_failure(error, text)
            },
            NodeReply::OtherError(text) => action matches StartupAction::Abort(error)
                && is_blockchain_info_failure(error, text),
        },
{
    match reply {
        NodeReply::Info => StartupAction::Proceed,
        NodeReply::CallError { code, text } => {
            if code == RPC_IN_WARMUP {
                StartupAction::Retry { delay_millis: RETRY_DELAY_MILLIS }
            } else {
                StartupAction::Abort(
                    BitcoinCoreRPC { method: String::from_str("getblockchaininfo"), error: text },
                )
            }
        },
        NodeReply::OtherError(text) => StartupAction::Abort(
            BitcoinCoreRPC { method: String::from_str("getblockchaininfo"), error: text },
        ),
    }
}

/// The number of answers at the head of `replies` that say that the node
/// is warming up.
pub open spec fn warmups(replies: Seq<NodeReply>) -> nat
    decreases replies.len(),
{
    if replies.len() == 0 || !replies[0].is_warmup() {
        0
    } else {
        1 + warmups(replies.drop_first())
    }
}

/// How the handshake with the node went.
#[derive(Clone, Copy, Debug, PartialEq, Eq)]
pub struct Handshake {
    /// How often the node was asked.
    pub attempts: usize,
    /// How often startup waited and asked again.
    pub retries: usize,
    /// What the last answer meant; that the node is warming up, where the
    /// answers ran out before it said anything else.
    pub last: ReplyKind,
}

/// Follows the handshake over the answers `replies`, in order: startup
/// asks again as long as the node is warming up, and stops at the first
/// answer that says anything else. It has then waited once for each answer
/// of a node warming up, and asked once more than it waited.
pub fn run_handshake(replies: &[NodeReply]) -> (handshake: Handshake)
    ensures
        handshake.retries == warmups(replies@),
        warmups(replies@) <= replies@.len(),
        warmups(replies@) == replies@.len() ==> handshake.attempts == replies@.len()
            && handshake.last is WarmingUp,
        warmups(replies@) < replies@.len() ==> handshake.attempts == warmups(replies@) + 1
            && handshake.last == replies@[warmups(replies@) as int].kind_spec() && !(
        handshake.last is WarmingUp),
{
    let mut retries: usize = 0;
    proof {
        assert(replies@.skip(0) =~= replies@);
    }
    while retries < replies.len()
        invariant
            retries <= replies.len(),
            retries + warmups(replies@.skip(retries as int)) == warmups(replies@),
        decreases replies.len() - retries,
    {
        proof {
            assert(replies@.skip(retries as int).drop_first() =~= replies@.skip(retries + 1));
        }
        let kind = replies[retries].kind();
        match kind {
            ReplyKind::WarmingUp => {
                retries = retries + 1;
            },
            _ => {
                return Handshake { attempts: retries + 1, retries, last: kind };
            },
        }
    }
    Handshake { attempts: retries, retries, last: ReplyKind::WarmingUp }
}

/// Whether startup creates the wallet: only a wallet that is not
/// initialized, and only where that was asked for, by the option or by
/// naming a file that holds the mnemonic.
pub fn auto_creates_wallet(has_mnemonic_path: bool, auto_create: bool, initialized: bool) -> (create:
    bool)
    ensures
        create == (!initialized && (has_mnemonic_path || auto_create)),
{
    !initialized && (has_mnemonic_path || auto_create)
}

/// The validation engine alone, or the wallet that holds one.
#[derive(Clone, Copy, Debug, PartialEq, Eq, Structural)]
pub enum Enforcer {
    Validator,
    Wallet,
}

/// The task that enforces the rules.
#[derive(Clone, Copy, Debug, PartialEq, Eq, Structural)]
pub enum EnforcerTask {
    /// The enforcer follows the chain, without a mempool.
    WithoutMempool,
    /// The mempool is synchronized for a validator; the live session is
    /// kept, and nothing is served from it.
    MempoolWithValidator,
    /// The mempool is synchronized for a wallet, which serves block
    /// templates from the live session.
    MempoolWithWallet,
}

/// Chooses the enforcer task: without mempool synchronization the plain
/// task, whatever the enforcer is; with it, the task of the enforcer at
/// hand.
pub fn plan_enforcer_task(enable_mempool: bool, enforcer: Enforcer) -> (task: EnforcerTask)
    ensures
        task == match (enable_mempool, enforcer) {
            (false, _) => EnforcerTask::WithoutMempool,
            (true, Enforcer::Validator) => EnforcerTask::MempoolWithValidator,
            (true, Enforcer::Wallet) => EnforcerTask::MempoolWithWallet,
        },
{
    if !enable_mempool {
        EnforcerTask::WithoutMempool
    } else {
        match enforcer {
            Enforcer::Validator => EnforcerTask::MempoolWithValidator,
            Enforcer::Wallet => EnforcerTask::MempoolWithWallet,
        }
    }
}

/// The fault that the plain enforcer task reports for the error `cause`.
pub fn enforcer_task_fault(cause: &str) -> (text: String)
    ensures
        text@ == "CUSF enforcer task w/o mempool: "@ + cause@,
{
    String::from_str("CUSF enforcer task w/o mempool: ").concat(cause)
}

/// The networks of the base chain.
#[derive(Clone, Copy, Debug, PartialEq, Eq, Structural)]
pub enum Network {
    Bitcoin,
    Testnet,
    Testnet4,
    Signet,
    Regtest,
}

/// The rules that a request for a block template names: on signet the
/// rule `signet`, elsewhere none.
pub fn block_template_rules(network: Network) -> (rules: Vec<String>)
    ensures
        network is Signet ==> rules@.len() == 1 && rules@[0]@ == "signet"@,
        !(network is Signet) ==> rules@.len() == 0,
{
    let mut rules: Vec<String> = Vec::new();
    match network {
        Network::Signet => {
            rules.push(String::from_str("signet"));
        },
        _ => {},
    }
    rules
}

/// The error of a failed request for a block template.
pub fn block_template_failure(error: String) -> (failure: BitcoinCoreRPC)
    ensures
        failure.method@ == "getblocktemplate"@,
        failure.error == error,
{
    BitcoinCoreRPC { method: String::from_str("getblocktemplate"), error }
}

/// Where the preparation of the wallet's mempool task stands.
#[derive(Clone, Copy, Debug, PartialEq, Eq, Structural)]
pub enum SetupStage {
    Initialized,
    Address,
    NetworkInfo,
    BlockTemplate,
    Ready,
    Abandoned,
}

/// What the caller does next to prepare the wallet's mempool task.
#[derive(Clone, Copy, Debug, PartialEq, Eq, Structural)]
pub enum SetupAction {
    /// Ask the wallet whether it is initialized.
    CheckInitialized,
    /// Ask the wallet for a new address, to receive the mining reward.
    NewAddress,
    /// Ask the node for its network info.
    GetNetworkInfo,
    /// Ask the node for a sample block template.
    GetBlockTemplate,
    /// Start the mempool task.
    RunMempoolTask,
    /// Give up: the task is over, and the reason is on its channel.
    Abandon,
}

/// What came back from a step of the preparation.
#[derive(Clone, Debug, PartialEq, Eq)]
pub enum SetupEvent {
    /// The wallet said whether it is initialized.
    Initialized(bool),
    /// The step is done.
    Completed,
    /// The step failed; the cause is kept as it is displayed.
    Failed(String),
}

/// What a [`WalletTaskSetup`] is, as contracts speak of it.
pub struct SetupView {
    /// Whether the configuration names who receives the mining reward.
    pub has_recipient: bool,
    pub stage: SetupStage,
    /// What the task's channel holds.
    pub fault: Option<Seq<char>>,
}

impl SetupView {
    /// The step that the preparation waits for.
    pub open spec fn action(self) -> SetupAction {
        match self.stage {
            SetupStage::Initialized => SetupAction::CheckInitialized,
            SetupStage::Address => SetupAction::NewAddress,
            SetupStage::NetworkInfo => SetupAction::GetNetworkInfo,
            SetupStage::BlockTemplate => SetupAction::GetBlockTemplate,
            SetupStage::Ready => SetupAction::RunMempoolTask,
            SetupStage::Abandoned => SetupAction::Abandon,
        }
    }

    /// The preparation is abandoned with the fault `text`, which the task's
    /// channel keeps if it is the first.
    pub open spec fn abandon(self, text: Seq<char>) -> SetupView {
        SetupView {
            stage: SetupStage::Abandoned,
            fault: after_reports(self.fault, seq![text]),
            ..self
        }
    }

    /// The fault with which the step that the preparation waits for fails,
    /// where it ends with `event`; `None` where `event` is no failure of
    /// that step.
    pub open spec fn failure(self, event: SetupEvent) -> Option<Seq<char>> {
        match (self.stage, event) {
            (SetupStage::Initialized, SetupEvent::Initialized(false)) => Some(
                "Wallet-based mempool sync requires an initialized wallet! Create one with the CreateWallet RPC method."@,
            ),
            (SetupStage::Address, SetupEvent::Failed(cause)) => Some(
                "failed to get mining reward address: "@ + cause@,
            ),
            (SetupStage::NetworkInfo, SetupEvent::Failed(cause)) => Some(
                "failed to get network info: "@ + cause@,
            ),
            (SetupStage::BlockTemplate, SetupEvent::Failed(cause)) => Some(
                "failed to get sample block template: "@ + cause@,
            ),
            _ => None,
        }
    }

    /// The state after the step that the preparation waited for ended with
    /// `event`, and `None` where that step cannot end so. A wallet that is
    /// initialized needs a new address only where the configuration names
    /// no recipient.
    pub open spec fn step(self, event: SetupEvent) -> Option<SetupView> {
        match self.failure(event) {
            Some(text) => Some(self.abandon(text)),
            None => match (self.stage, event) {
                (SetupStage::Initialized, SetupEvent::Initialized(true)) => Some(
                    SetupView {
                        stage: if self.has_recipient {
                            SetupStage::NetworkInfo
                        } else {
                            SetupStage::Address
                        },
                        ..self
                    },
                ),
                (SetupStage::Address, SetupEvent::Completed) => Some(
                    SetupView { stage: SetupStage::NetworkInfo, ..self },
                ),
                (SetupStage::NetworkInfo, SetupEvent::Completed) => Some(
                    SetupView { stage: SetupStage::BlockTemplate, ..self },
                ),
                (SetupStage::BlockTemplate, SetupEvent::Completed) => Some(
                    SetupView { stage: SetupStage::Ready, ..self },
                ),
                _ => None,
            },
        }
    }
}

/// What a wallet needs before its mempool task starts: the wallet is
/// initialized, an address receives the mining reward, and the node has
/// given its network info and a sample block template. The first of them
/// that is missing ends the task, and is reported on the task's channel
/// as its fault.
pub struct WalletTaskSetup {
    has_recipient: bool,
    stage: SetupStage,
    channel: ErrorChannel,
}

impl View for WalletTaskSetup {
    type V = SetupView;

    closed spec fn view(&self) -> SetupView {
        SetupView {
            has_recipient: self.has_recipient,
            stage: self.stage,
            fault: self.channel@,
        }
    }
}

impl WalletTaskSetup {
    /// The preparation before its first step, reporting on `channel`.
    /// `has_recipient` says whether the configuration names who receives
    /// the mining reward.
    pub fn new(has_recipient: bool, channel: ErrorChannel) -> (setup: Self)
        ensures
            setup@ == (SetupView {
                has_recipient,
                stage: SetupStage::Initialized,
                fault: channel@,
            }),
    {
        WalletTaskSetup { has_recipient, stage: SetupStage::Initialized, channel }
    }

    /// The step that the preparation waits for.
    pub fn next_action(&self) -> (action: SetupAction)
        ensures
            action == self@.action(),
    {
        match self.stage {
            SetupStage::Initialized => SetupAction::CheckInitialized,
            SetupStage::Address => SetupAction::NewAddress,
            SetupStage::NetworkInfo => SetupAction::GetNetworkInfo,
            SetupStage::BlockTemplate => SetupAction::GetBlockTemplate,
            SetupStage::Ready => SetupAction::RunMempoolTask,
            SetupStage::Abandoned => SetupAction::Abandon,
        }
    }

    /// Ends the preparation and gives the channel back: with the fault of a
    /// preparation that was abandoned, and as it came for the mempool task
    /// of one that is ready.
    pub fn into_channel(self) -> (channel: ErrorChannel)
        ensures
            channel@ == self@.fault,
    {
        self.channel
    }

    /// Takes what came back from the step that the preparation waited for.
    /// What cannot come back from that step is refused, and the
    /// preparation stays as it is.
    pub fn advance(&mut self, event: SetupEvent) -> (accepted: bool)
        ensures
            accepted == old(self)@.step(event) is Some,
            accepted ==> final(self)@ == old(self)@.step(event)->0,
            !accepted ==> final(self)@ == old(self)@,
    {
        match self.stage {
            SetupStage::Initialized => match event {
                SetupEvent::Initialized(initialized) => {
                    if initialized {
                        self.stage = if self.has_recipient {
                            SetupStage::NetworkInfo
                        } else {
                            SetupStage::Address
                        };
                    } else {
                        let _ = self.channel.report(
                            String::from_str(
                                "Wallet-based mempool sync requires an initialized wallet! Create one with the CreateWallet RPC method.",
                            ),
                        );
                        self.stage = SetupStage::Abandoned;
                    }
                    true
                },
                _ => false,
            },
            SetupStage::Address => match event {
                SetupEvent::Completed => {
                    self.stage = SetupStage::NetworkInfo;
                    true
                },
                SetupEvent::Failed(cause) => {
                    let _ = self.channel.report(
                        String::from_str("failed to get mining reward address: ").concat(
                            cause.as_str(),
                        ),
                    );
                    self.stage = SetupStage::Abandoned;
                    true
                },
                _ => false,
            },
            SetupStage::NetworkInfo => match event {
                SetupEvent::Completed => {
                    self.stage = SetupStage::BlockTemplate;
                    true
                },
                SetupEvent::Failed(cause) => {
                    let _ = self.channel.report(
                        String::from_str("failed to get network info: ").concat(cause.as_str()),
                    );
                    self.stage = SetupStage::Abandoned;
                    true
                },
                _ => false,
            },
            SetupStage::BlockTemplate => match event {
                SetupEvent::Completed => {
                    self.stage = SetupStage::Ready;
                    true
                },
                SetupEvent::Failed(cause) => {
                    let _ = self.channel.report(
                        String::from_str("failed to get sample block template: ").concat(
                            cause.as_str(),
                        ),
                    );
                    self.stage = SetupStage::Abandoned;
                    true
                },
                _ => false,
            },
            SetupStage::Ready => false,
            SetupStage::Abandoned => false,
        }
    }
}

/// A wallet task whose preparation fails reports that: the fault is on the
/// task's channel, the first fault there if none came before, the mempool
/// task is never started, and no further step is taken.
pub proof fn lemma_failed_preparation_is_reported(setup: SetupView, event: SetupEvent)
    requires
        setup.failure(event) is Some,
    ensures
        setup.step(event) is Some,
        setup.step(event)->0.stage is Abandoned,
        setup.step(event)->0.action() is Abandon,
        setup.step(event)->0.fault is Some,
        setup.fault is None ==> setup.step(event)->0.fault == setup.failure(event),
        forall|later: SetupEvent| setup.step(event)->0.step(later) is None,
{
    reveal_with_fuel(after_reports, 2);
}

/// The mempool task of a wallet starts only once nothing was missing: a
/// step leads to it only from the last question, answered well, and it
/// changes nothing on the task's channel.
pub proof fn lemma_mempool_task_follows_preparation(setup: SetupView, event: SetupEvent)
    requires
        setup.step(event) is Some,
        setup.step(event)->0.action() is RunMempoolTask,
    ensures
        setup.stage is BlockTemplate,
        event is Completed,
        setup.failure(event) is None,
        setup.step(event)->0.fault == setup.fault,
{
}

/// What came out of a task's error channel.
#[derive(Clone, Debug, PartialEq, Eq)]
pub enum Received {
    /// The fault that the task reported.
    Fault(String),
    /// The task ended without a report; the text says so.
    Canceled(String),
}

/// What the supervisor was waiting for, and got first.
#[derive(Clone, Debug, PartialEq, Eq)]
pub enum SupervisorEvent {
    /// The channel of the enforcer task gave something.
    EnforcerTask(Received),
    /// The channel of the gRPC server gave something.
    GrpcServer(Received),
    /// The interrupt signal arrived.
    Interrupt,
    /// Waiting for the interrupt signal failed.
    InterruptFailed(String),
}

/// How the process ends.
#[derive(Clone, Debug, PartialEq, Eq)]
pub enum Exit {
    /// A clean shutdown.
    Success,
    /// A failure, with what the operator is told.
    Failure(String),
}

impl SupervisorEvent {
    /// What the operator is told where the event is a failure, and `None`
    /// for the interrupt signal.
    pub open spec fn failure_text(self) -> Option<Seq<char>> {
        match self {
            SupervisorEvent::EnforcerTask(Received::Fault(fault)) => Some(fault@),
            SupervisorEvent::EnforcerTask(Received::Canceled(cause)) => Some(
                "Unable to receive error from enforcer task: "@ + cause@,
            ),
            SupervisorEvent::GrpcServer(Received::Fault(fault)) => Some(fault@),
            SupervisorEvent::GrpcServer(Received::Canceled(cause)) => Some(
                "Unable to receive error from grpc server: "@ + cause@,
            ),
            SupervisorEvent::Interrupt => None,
            SupervisorEvent::InterruptFailed(cause) => Some(
                "Unable to receive interruption signal: "@ + cause@,
            ),
        }
    }
}

/// Decides how the process ends, from the first of the three things that
/// the supervisor waits for: the fault of a task is the failure of the
/// process, and so is a channel or a signal that cannot be waited for; the
/// interrupt signal is a request for a clean shutdown.
pub fn decide_exit(first: SupervisorEvent) -> (exit: Exit)
    ensures
        match first.failure_text() {
            None => exit == Exit::Success,
            Some(text) => exit matches Exit::Failure(told) && told@ == text,
        },
{
    match first {
        SupervisorEvent::EnforcerTask(Received::Fault(fault)) => Exit::Failure(fault),
        SupervisorEvent::EnforcerTask(Received::Canceled(cause)) => Exit::Failure(
            String::from_str("Unable to receive error from enforcer task: ").concat(cause.as_str()),
        ),
        SupervisorEvent::GrpcServer(Received::Fault(fault)) => Exit::Failure(fault),
        SupervisorEvent::GrpcServer(Received::Canceled(cause)) => Exit::Failure(
            String::from_str("Unable to receive error from grpc server: ").concat(cause.as_str()),
        ),
        SupervisorEvent::Interrupt => Exit::Success,
        SupervisorEvent::InterruptFailed(cause) => Exit::Failure(
            String::from_str("Unable to receive interruption signal: ").concat(cause.as_str()),
        ),
    }
}

} // verus!
