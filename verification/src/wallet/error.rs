//! Errors of the wallet, one type for each layer. A variant either says
//! what went wrong in its own words or forwards the words of its cause.

use vstd::prelude::*;
use vstd::string::StringExecFns;
use crate::text::{decimal, decimal_i64, decimal_nat, decimal_u64};
use crate::types::SidechainNumber;
use crate::wallet::sync::ChainSource;

verus! {

/// The status codes that the wallet reports over gRPC.
#[derive(Clone, Copy, Debug, PartialEq, Eq, Structural)]
pub enum StatusCode {
    Unknown,
    InvalidArgument,
}

impl StatusCode {
    /// The number of the code in the gRPC protocol.
    pub open spec fn number(self) -> int {
        match self {
            StatusCode::Unknown => 2,
            StatusCode::InvalidArgument => 3,
        }
    }

    /// The number of the code in the gRPC protocol.
    pub fn code(self) -> (code: i32)
        ensures
            code == self.number(),
    {
        match self {
            StatusCode::Unknown => 2,
            StatusCode::InvalidArgument => 3,
        }
    }
}

/// A gRPC status: a code and a message.
#[derive(Clone, Debug, PartialEq, Eq)]
pub struct Status {
    pub code: StatusCode,
    pub message: String,
}

/// The text with which `tonic` displays a status that has the code of the
/// number `code` and the message `message`, and nothing else.
pub uninterp spec fn status_text(code: int, message: Seq<char>) -> Seq<char>;

/// `Display` of the `tonic::Status` that `tonic::Status::new` makes of the
/// code with the number `code` and of `message`. The text depends on the
/// two alone.
#[verifier::external_body]
fn status_display(code: i32, message: &str) -> (text: String)
    ensures
        text@ == status_text(code as int, message@),
{
    tonic::Status::new(tonic::Code::from(code), message).to_string()
}

impl Status {
    /// Writes the status as `tonic` displays it.
    pub fn to_string(&self) -> (text: String)
        ensures
            text@ == status_text(self.code.number(), self.message@),
    {
        status_display(self.code.code(), self.message.as_str())
    }
}

/// A gRPC status that is passed on as an error.
#[derive(Clone, Debug, PartialEq, Eq)]
pub struct TonicStatus(pub Status);

impl TonicStatus {
    /// The error's text.
    pub open spec fn text(self) -> Seq<char> {
        "tonic error: "@ + status_text(self.0.code.number(), self.0.message@)
    }

    /// Writes the error's text.
    pub fn to_string(&self) -> (text: String)
        ensures
            text@ == self.text(),
    {
        let status = self.0.to_string();
        String::from_str("tonic error: ").concat(status.as_str())
    }

    /// The status that the error carries.
    pub fn into_status(&self) -> (status: Status)
        ensures
            status == self.0,
    {
        Status { code: self.0.code, message: self.0.message.clone() }
    }
}

/// Turns a gRPC status into the error that passes it on.
pub trait TonicStatusExt: Sized {
    /// The error that carries `self`; a status is never a success.
    fn into_diagnostic(self) -> (result: Result<(), TonicStatus>)
        ensures
            result == Err::<(), TonicStatus>(TonicStatus(Self::status(self))),
    ;

    /// The status that `self` is.
    spec fn status(self) -> Status;
}

impl TonicStatusExt for Status {
    fn into_diagnostic(self) -> (result: Result<(), TonicStatus>) {
        Err(TonicStatus(self))
    }

    open spec fn status(self) -> Status {
        self
    }
}

/// An error that an Electrum server reported.
#[derive(Clone, Debug, PartialEq, Eq)]
pub struct Electrum {
    code: i32,
    message: String,
}

impl Electrum {
    /// The code that the server gave.
    pub closed spec fn code_spec(&self) -> int {
        self.code as int
    }

    /// The message that the server gave.
    pub closed spec fn message_spec(&self) -> Seq<char> {
        self.message@
    }

    /// The error's text.
    pub open spec fn text(&self) -> Seq<char> {
        "electrum error `"@ + decimal(self.code_spec()) + "`: `"@ + self.message_spec() + "`"@
    }

    /// The status code that stands for the error: the server's code -25,
    /// which rejects a transaction, blames the argument; of any other code
    /// nothing is known.
    pub open spec fn status_code_spec(&self) -> StatusCode {
        if self.code_spec() == -25 {
            StatusCode::InvalidArgument
        } else {
            StatusCode::Unknown
        }
    }

    /// An error with the code and the message that the server gave.
    pub fn new(code: i32, message: String) -> (error: Self)
        ensures
            error.code_spec() == code,
            error.message_spec() == message@,
    {
        Electrum { code, message }
    }

    /// The code that the server gave.
    pub fn code(&self) -> (code: i32)
        ensures
            code == self.code_spec(),
    {
        self.code
    }

    /// The message that the server gave.
    pub fn message(&self) -> (message: &str)
        ensures
            message@ == self.message_spec(),
    {
        self.message.as_str()
    }

    /// Name of the error for diagnostics.
    pub fn diagnostic_code(&self) -> (code: &'static str)
        ensures
            code@ == "electrum_error"@,
    {
        "electrum_error"
    }

    /// Advice for whoever reads the error.
    pub fn help(&self) -> (help: &'static str)
        ensures
            help@ == "The error is from the Electrum server. Check the message for more details."@,
    {
        "The error is from the Electrum server. Check the message for more details."
    }

    /// Writes the error's text.
    pub fn to_string(&self) -> (text: String)
        ensures
            text@ == self.text(),
    {
        let mut text = String::from_str("electrum error `");
        let code = decimal_i64(self.code as i64);
        text.append(code.as_str());
        text.append("`: `");
        text.append(self.message.as_str());
        text.append("`");
        text
    }

    /// The status code that stands for the error.
    pub fn status_code(&self) -> (code: StatusCode)
        ensures
            code == self.status_code_spec(),
    {
        if self.code == -25 {
            StatusCode::InvalidArgument
        } else {
            StatusCode::Unknown
        }
    }

    /// The gRPC status that reports the error: its status code, with the
    /// error's text as message.
    pub fn into_status(self) -> (status: Status)
        ensures
            status.code == self.status_code_spec(),
            status.message@ == self.text(),
    {
        Status { code: self.status_code(), message: self.to_string() }
    }
}

impl From<Electrum> for Status {
    /// The gRPC status that reports the error.
    fn from(error: Electrum) -> (status: Status)
        ensures
            status.code == error.status_code_spec(),
            status.message@ == error.text(),
    {
        error.into_status()
    }
}

impl vstd::std_specs::convert::FromSpecImpl<Electrum> for Status {
    /// The text of the status is written when the conversion runs: what it
    /// is stands in the contract of `from`.
    closed spec fn obeys_from_spec() -> bool {
        false
    }

    closed spec fn from_spec(error: Electrum) -> Self {
        Status { code: error.status_code_spec(), message: error.message }
    }
}

/// An error that an Esplora server reported.
#[derive(Clone, Debug, PartialEq, Eq)]
pub struct Esplora {
    code: i32,
    message: String,
}

impl Esplora {
    /// The code that the server gave.
    pub closed spec fn code_spec(&self) -> int {
        self.code as int
    }

    /// The message that the server gave.
    pub closed spec fn message_spec(&self) -> Seq<char> {
        self.message@
    }

    /// The error's text.
    pub open spec fn text(&self) -> Seq<char> {
        "esplora error `"@ + decimal(self.code_spec()) + "`: `"@ + self.message_spec() + "`"@
    }

    /// An error with the code and the message that the server gave.
    pub fn new(code: i32, message: String) -> (error: Self)
        ensures
            error.code_spec() == code,
            error.message_spec() == message@,
    {
        Esplora { code, message }
    }

    /// The code that the server gave.
    pub fn code(&self) -> (code: i32)
        ensures
            code == self.code_spec(),
    {
        self.code
    }

    /// The message that the server gave.
    pub fn message(&self) -> (message: &str)
        ensures
            message@ == self.message_spec(),
    {
        self.message.as_str()
    }

    /// Name of the error for diagnostics.
    pub fn diagnostic_code(&self) -> (code: &'static str)
        ensures
            code@ == "esplora_error"@,
    {
        "esplora_error"
    }

    /// Writes the error's text.
    pub fn to_string(&self) -> (text: String)
        ensures
            text@ == self.text(),
    {
        let mut text = String::from_str("esplora error `");
        let code = decimal_i64(self.code as i64);
        text.append(code.as_str());
        text.append("`: `");
        text.append(self.message.as_str());
        text.append("`");
        text
    }
}

/// Wallet not unlocked
#[derive(Clone, Copy, Debug, PartialEq, Eq, Structural)]
pub struct NotUnlocked;

impl NotUnlocked {
    /// Name of the error for diagnostics.
    pub fn diagnostic_code(&self) -> (code: &'static str)
        ensures
            code@ == "wallet_not_unlocked"@,
    {
        "wallet_not_unlocked"
    }

    /// Writes the error's text.
    pub fn to_string(&self) -> (text: String)
        ensures
            text@ == "Enforcer wallet not unlocked"@,
    {
        String::from_str("Enforcer wallet not unlocked")
    }
}

/// Errors related to creating and unlocking wallets.
#[derive(Clone, Copy, Debug, PartialEq, Eq, Structural)]
pub enum WalletInitialization {
    AlreadyUnlocked,
    NotFound,
    AlreadyExists,
    /// The content of the data directory does not belong to the wallet's
    /// descriptor: the directory probably needs to be wiped.
    DataMismatch,
    InvalidPassword,
    /// The wallet is not synced to the blockchain.
    NotSynced,
}

impl WalletInitialization {
    /// The error's text.
    pub open spec fn text(self) -> Seq<char> {
        match self {
            WalletInitialization::AlreadyUnlocked => "enforcer wallet already unlocked"@,
            WalletInitialization::NotFound => "enforcer wallet not found (can be created with CreateWallet RPC)"@,
            WalletInitialization::AlreadyExists => "enforcer wallet already exists (but might not be initialized)"@,
            WalletInitialization::DataMismatch => "enforcer wallet data mismatch, data directory content does not line up with wallet descriptor"@,
            WalletInitialization::InvalidPassword => "invalid password for enforcer wallet"@,
            WalletInitialization::NotSynced => "enforcer wallet not synced"@,
        }
    }

    /// Name of the error for diagnostics.
    pub open spec fn diagnostic_text(self) -> Seq<char> {
        match self {
            WalletInitialization::AlreadyUnlocked => "wallet_already_unlocked"@,
            WalletInitialization::NotFound => "wallet_not_found"@,
            WalletInitialization::AlreadyExists => "wallet_already_exists"@,
            WalletInitialization::DataMismatch => "wallet_data_mismatch"@,
            WalletInitialization::InvalidPassword => "wallet_invalid_password"@,
            WalletInitialization::NotSynced => "wallet_not_synced"@,
        }
    }

    /// Name of the error for diagnostics.
    pub fn diagnostic_code(&self) -> (code: &'static str)
        ensures
            code@ == self.diagnostic_text(),
    {
        match self {
            WalletInitialization::AlreadyUnlocked => "wallet_already_unlocked",
            WalletInitialization::NotFound => "wallet_not_found",
            WalletInitialization::AlreadyExists => "wallet_already_exists",
            WalletInitialization::DataMismatch => "wallet_data_mismatch",
            WalletInitialization::InvalidPassword => "wallet_invalid_password",
            WalletInitialization::NotSynced => "wallet_not_synced",
        }
    }

    /// Writes the error's text.
    pub fn to_string(&self) -> (text: String)
        ensures
            text@ == self.text(),
    {
        match self {
            WalletInitialization::AlreadyUnlocked => String::from_str(
                "enforcer wallet already unlocked",
            ),
            WalletInitialization::NotFound => String::from_str(
                "enforcer wallet not found (can be created with CreateWallet RPC)",
            ),
            WalletInitialization::AlreadyExists => String::from_str(
                "enforcer wallet already exists (but might not be initialized)",
            ),
            WalletInitialization::DataMismatch => String::from_str(
                "enforcer wallet data mismatch, data directory content does not line up with wallet descriptor",
            ),
            WalletInitialization::InvalidPassword => String::from_str(
                "invalid password for enforcer wallet",
            ),
            WalletInitialization::NotSynced => String::from_str("enforcer wallet not synced"),
        }
    }
}

/// Why the wallet could not sign a transaction. The causes that come from
/// the signer are kept as the text they gave.
#[derive(Clone, Debug, PartialEq, Eq)]
pub enum WalletSignTransaction {
    NotUnlocked(NotUnlocked),
    SignerError(String),
    ExtractTx(String),
    UnableToSign,
}

impl WalletSignTransaction {
    /// The error's text.
    pub open spec fn text(self) -> Seq<char> {
        match self {
            WalletSignTransaction::NotUnlocked(_) => "Enforcer wallet not unlocked"@,
            WalletSignTransaction::SignerError(cause) => cause@,
            WalletSignTransaction::ExtractTx(cause) => cause@,
            WalletSignTransaction::UnableToSign => "unable to sign transaction"@,
        }
    }

    /// Writes the error's text.
    /// Name of the error for diagnostics; a cause that is forwarded has
    /// none.
    pub fn diagnostic_code(&self) -> (code: Option<&'static str>)
        ensures
            match self {
                WalletSignTransaction::UnableToSign => code matches Some(name) && name@
                    == "unable_to_sign_transaction"@,
                _ => code is None,
            },
    {
        match self {
            WalletSignTransaction::UnableToSign => Some("unable_to_sign_transaction"),
            _ => None,
        }
    }

    pub fn to_string(&self) -> (text: String)
        ensures
            text@ == self.text(),
    {
        match self {
            WalletSignTransaction::NotUnlocked(inner) => inner.to_string(),
            WalletSignTransaction::SignerError(cause) => String::from_str(cause.as_str()),
            WalletSignTransaction::ExtractTx(cause) => String::from_str(cause.as_str()),
            WalletSignTransaction::UnableToSign => String::from_str("unable to sign transaction"),
        }
    }
}

/// The wallet database at `file_path` could not be written.
#[derive(Clone, Debug, PartialEq, Eq)]
pub struct BdkWalletPersist {
    pub file_path: String,
    pub source: String,
}

impl BdkWalletPersist {
    /// The error's text.
    pub open spec fn text(self) -> Seq<char> {
        "unable to persist BDK wallet DB `"@ + self.file_path@ + "`"@
    }

    /// Name of the error for diagnostics.
    pub fn diagnostic_code(&self) -> (code: &'static str)
        ensures
            code@ == "bdk_wallet_persist"@,
    {
        "bdk_wallet_persist"
    }

    /// Writes the error's text.
    pub fn to_string(&self) -> (text: String)
        ensures
            text@ == self.text(),
    {
        let mut text = String::from_str("unable to persist BDK wallet DB `");
        text.append(self.file_path.as_str());
        text.append("`");
        text
    }
}

/// The kinds of failure that the service tells apart.
#[derive(Clone, Copy, Debug, PartialEq, Eq, Structural)]
pub enum ErrorKind {
    /// Goes away by itself: the round is skipped or tried again.
    Transient,
    /// A backend could not be reached, or answered with an error of its own.
    Connectivity,
    /// The ledger could not be written, or a block does not connect to it.
    DataIntegrity,
}

/// Why a wallet sync failed. The causes that come from the ledger and from
/// the backends are kept as the text they gave.
#[derive(Clone, Debug, PartialEq, Eq)]
pub enum WalletSync {
    BdkWalletConnect(String),
    BdkWalletPersist(BdkWalletPersist),
    ElectrumSync(String),
    EsploraSync(String),
    WalletNotUnlocked(NotUnlocked),
}

impl WalletSync {
    /// The error's text: that of its cause.
    pub open spec fn text(self) -> Seq<char> {
        match self {
            WalletSync::BdkWalletConnect(cause) => cause@,
            WalletSync::BdkWalletPersist(inner) => inner.text(),
            WalletSync::ElectrumSync(cause) => cause@,
            WalletSync::EsploraSync(cause) => cause@,
            WalletSync::WalletNotUnlocked(_) => "Enforcer wallet not unlocked"@,
        }
    }

    /// Name of the error for diagnostics.
    pub open spec fn diagnostic_text(self) -> Seq<char> {
        match self {
            WalletSync::BdkWalletConnect(_) => "bdk_wallet_connect"@,
            WalletSync::BdkWalletPersist(_) => "bdk_wallet_persist"@,
            WalletSync::ElectrumSync(_) => "electrum_sync"@,
            WalletSync::EsploraSync(_) => "esplora_sync"@,
            WalletSync::WalletNotUnlocked(_) => "wallet_not_unlocked"@,
        }
    }

    /// The kind of the failure: a backend's failure is one of
    /// connectivity, a ledger that cannot take the update or cannot be
    /// written is one of data integrity, and a locked wallet goes away.
    pub open spec fn kind_spec(self) -> ErrorKind {
        match self {
            WalletSync::BdkWalletConnect(_) => ErrorKind::DataIntegrity,
            WalletSync::BdkWalletPersist(_) => ErrorKind::DataIntegrity,
            WalletSync::ElectrumSync(_) => ErrorKind::Connectivity,
            WalletSync::EsploraSync(_) => ErrorKind::Connectivity,
            WalletSync::WalletNotUnlocked(_) => ErrorKind::Transient,
        }
    }

    /// The backend that failed, if a backend did.
    pub open spec fn backend_spec(self) -> Option<ChainSource> {
        match self {
            WalletSync::ElectrumSync(_) => Some(ChainSource::Electrum),
            WalletSync::EsploraSync(_) => Some(ChainSource::Esplora),
            _ => None,
        }
    }

    /// Writes the error's text.
    pub fn to_string(&self) -> (text: String)
        ensures
            text@ == self.text(),
    {
        match self {
            WalletSync::BdkWalletConnect(cause) => String::from_str(cause.as_str()),
            WalletSync::BdkWalletPersist(inner) => inner.to_string(),
            WalletSync::ElectrumSync(cause) => String::from_str(cause.as_str()),
            WalletSync::EsploraSync(cause) => String::from_str(cause.as_str()),
            WalletSync::WalletNotUnlocked(inner) => inner.to_string(),
        }
    }

    /// Name of the error for diagnostics.
    pub fn diagnostic_code(&self) -> (code: &'static str)
        ensures
            code@ == self.diagnostic_text(),
    {
        match self {
            WalletSync::BdkWalletConnect(_) => "bdk_wallet_connect",
            WalletSync::BdkWalletPersist(_) => "bdk_wallet_persist",
            WalletSync::ElectrumSync(_) => "electrum_sync",
            WalletSync::EsploraSync(_) => "esplora_sync",
            WalletSync::WalletNotUnlocked(_) => "wallet_not_unlocked",
        }
    }

    /// The kind of the failure.
    pub fn kind(&self) -> (kind: ErrorKind)
        ensures
            kind == self.kind_spec(),
    {
        match self {
            WalletSync::BdkWalletConnect(_) => ErrorKind::DataIntegrity,
            WalletSync::BdkWalletPersist(_) => ErrorKind::DataIntegrity,
            WalletSync::ElectrumSync(_) => ErrorKind::Connectivity,
            WalletSync::EsploraSync(_) => ErrorKind::Connectivity,
            WalletSync::WalletNotUnlocked(_) => ErrorKind::Transient,
        }
    }

    /// The backend that failed, if a backend did.
    pub fn backend(&self) -> (backend: Option<ChainSource>)
        ensures
            backend == self.backend_spec(),
    {
        match self {
            WalletSync::ElectrumSync(_) => Some(ChainSource::Electrum),
            WalletSync::EsploraSync(_) => Some(ChainSource::Esplora),
            _ => None,
        }
    }
}

impl From<NotUnlocked> for WalletSync {
    fn from(error: NotUnlocked) -> (out: Self) {
        WalletSync::WalletNotUnlocked(error)
    }
}

impl vstd::std_specs::convert::FromSpecImpl<NotUnlocked> for WalletSync {
    open spec fn obeys_from_spec() -> bool {
        true
    }

    open spec fn from_spec(error: NotUnlocked) -> Self {
        WalletSync::WalletNotUnlocked(error)
    }
}

impl From<BdkWalletPersist> for WalletSync {
    fn from(error: BdkWalletPersist) -> (out: Self) {
        WalletSync::BdkWalletPersist(error)
    }
}

impl vstd::std_specs::convert::FromSpecImpl<BdkWalletPersist> for WalletSync {
    open spec fn obeys_from_spec() -> bool {
        true
    }

    open spec fn from_spec(error: BdkWalletPersist) -> Self {
        WalletSync::BdkWalletPersist(error)
    }
}

/// A call of the Bitcoin Core RPC method `method` failed with `error`.
#[derive(Clone, Debug, PartialEq, Eq)]
pub struct BitcoinCoreRPC {
    pub method: String,
    pub error: String,
}

impl BitcoinCoreRPC {
    /// The error's text.
    pub open spec fn text(self) -> Seq<char> {
        "Bitcoin Core RPC error `"@ + self.method@ + "`: "@ + self.error@
    }

    /// Name of the error for diagnostics.
    pub fn diagnostic_code(&self) -> (code: &'static str)
        ensures
            code@ == "bitcoin_core_rpc_error"@,
    {
        "bitcoin_core_rpc_error"
    }

    /// Writes the error's text.
    pub fn to_string(&self) -> (text: String)
        ensures
            text@ == self.text(),
    {
        let mut text = String::from_str("Bitcoin Core RPC error `");
        text.append(self.method.as_str());
        text.append("`: ");
        text.append(self.error.as_str());
        text
    }
}

/// A block could not be consensus encoded; the cause is kept as its text.
#[derive(Clone, Debug, PartialEq, Eq)]
pub struct EncodeBlock(pub String);

impl EncodeBlock {
    /// Name of the error for diagnostics.
    pub fn diagnostic_code(&self) -> (code: &'static str)
        ensures
            code@ == "encode_block_error"@,
    {
        "encode_block_error"
    }

    /// Writes the error's text.
    pub fn to_string(&self) -> (text: String)
        ensures
            text@ == "failed to consensus encode block"@,
    {
        String::from_str("failed to consensus encode block")
    }
}

/// An error of one of the two database layers, kept as its text.
#[derive(Clone, Debug, PartialEq, Eq)]
pub enum SqliteError {
    Rusqlite(String),
    TokioRusqlite(String),
}

impl SqliteError {
    /// The error's text: that of its cause.
    pub open spec fn text(self) -> Seq<char> {
        match self {
            SqliteError::Rusqlite(cause) => cause@,
            SqliteError::TokioRusqlite(cause) => cause@,
        }
    }

    /// Writes the error's text.
    pub fn to_string(&self) -> (text: String)
        ensures
            text@ == self.text(),
    {
        match self {
            SqliteError::Rusqlite(cause) => String::from_str(cause.as_str()),
            SqliteError::TokioRusqlite(cause) => String::from_str(cause.as_str()),
        }
    }
}

/// Why a block could not be connected. The causes that come from the
/// ledger and from the validation engine are kept as the text they gave.
#[derive(Clone, Debug, PartialEq, Eq)]
pub enum ConnectBlock {
    BdkConnect(String),
    ConnectBlock(String),
    GetBlockInfo(String),
    FetchBlock(BitcoinCoreRPC),
    GetHeaderInfo(String),
    Sqlite(SqliteError),
    WalletNotUnlocked(NotUnlocked),
}

impl ConnectBlock {
    /// The error's text: its own words, or those of its cause.
    pub open spec fn text(self) -> Seq<char> {
        match self {
            ConnectBlock::BdkConnect(_) => "failed connecting block to BDK chain"@,
            ConnectBlock::ConnectBlock(cause) => cause@,
            ConnectBlock::GetBlockInfo(cause) => cause@,
            ConnectBlock::FetchBlock(_) => "unable to fetch missing block"@,
            ConnectBlock::GetHeaderInfo(cause) => cause@,
            ConnectBlock::Sqlite(inner) => inner.text(),
            ConnectBlock::WalletNotUnlocked(_) => "Enforcer wallet not unlocked"@,
        }
    }

    /// Writes the error's text.
    /// Name of the error for diagnostics; a cause that is forwarded has
    /// none.
    pub fn diagnostic_code(&self) -> (code: Option<&'static str>)
        ensures
            match self {
                ConnectBlock::BdkConnect(_) => code matches Some(name) && name@
                    == "connect_block_error"@,
                ConnectBlock::FetchBlock(_) => code matches Some(name) && name@
                    == "fetch_block_error"@,
                _ => code is None,
            },
    {
        match self {
            ConnectBlock::BdkConnect(_) => Some("connect_block_error"),
            ConnectBlock::FetchBlock(_) => Some("fetch_block_error"),
            _ => None,
        }
    }

    pub fn to_string(&self) -> (text: String)
        ensures
            text@ == self.text(),
    {
        match self {
            ConnectBlock::BdkConnect(_) => String::from_str("failed connecting block to BDK chain"),
            ConnectBlock::ConnectBlock(cause) => String::from_str(cause.as_str()),
            ConnectBlock::GetBlockInfo(cause) => String::from_str(cause.as_str()),
            ConnectBlock::FetchBlock(_) => String::from_str("unable to fetch missing block"),
            ConnectBlock::GetHeaderInfo(cause) => String::from_str(cause.as_str()),
            ConnectBlock::Sqlite(inner) => inner.to_string(),
            ConnectBlock::WalletNotUnlocked(inner) => inner.to_string(),
        }
    }
}

impl From<SqliteError> for ConnectBlock {
    fn from(error: SqliteError) -> (out: Self) {
        ConnectBlock::Sqlite(error)
    }
}

impl vstd::std_specs::convert::FromSpecImpl<SqliteError> for ConnectBlock {
    open spec fn obeys_from_spec() -> bool {
        true
    }

    open spec fn from_spec(error: SqliteError) -> Self {
        ConnectBlock::Sqlite(error)
    }
}

impl From<NotUnlocked> for ConnectBlock {
    fn from(error: NotUnlocked) -> (out: Self) {
        ConnectBlock::WalletNotUnlocked(error)
    }
}

impl vstd::std_specs::convert::FromSpecImpl<NotUnlocked> for ConnectBlock {
    open spec fn obeys_from_spec() -> bool {
        true
    }

    open spec fn from_spec(error: NotUnlocked) -> Self {
        ConnectBlock::WalletNotUnlocked(error)
    }
}

/// Why a full scan of the chain failed.
#[derive(Clone, Debug, PartialEq, Eq)]
pub enum FullScan {
    WalletNotUnlocked(NotUnlocked),
    CheckAddressTransactions { address: String, backend: ChainSource, error: String },
    ListHeaders(String),
    /// `last_successful_header` is the height of the last header that a
    /// checkpoint was made from.
    CreateCheckPointFromHeaders { last_successful_header: Option<u32> },
    EsploraSync(String),
    ElectrumSync(String),
    CannotConnect(String),
    PersistWallet(SqliteError),
    /// `sync_source` is the configured source as it is written for
    /// debugging.
    InvalidSyncSource { sync_source: String },
}

impl FullScan {
    /// The error's text: its own words, or those of its cause.
    pub open spec fn text(self) -> Seq<char> {
        match self {
            FullScan::WalletNotUnlocked(_) => "Enforcer wallet not unlocked"@,
            FullScan::CheckAddressTransactions { .. } => "failed to check for bitcoin address transactions"@,
            FullScan::ListHeaders(cause) => cause@,
            FullScan::CreateCheckPointFromHeaders { last_successful_header } => "unable to create checkpoint from headers"@
                + match last_successful_header {
                Some(height) => ", last successful header at height "@ + decimal_nat(height as nat),
                None => Seq::empty(),
            },
            FullScan::EsploraSync(cause) => cause@,
            FullScan::ElectrumSync(cause) => cause@,
            FullScan::CannotConnect(cause) => cause@,
            FullScan::PersistWallet(_) => "unable to persist wallet post scan"@,
            FullScan::InvalidSyncSource { sync_source } => "chain sync source does not support full scan: "@
                + sync_source@,
        }
    }

    /// Writes the error's text.
    /// Name of the error for diagnostics; a cause that is forwarded has
    /// none.
    pub fn diagnostic_code(&self) -> (code: Option<&'static str>)
        ensures
            match self {
                FullScan::CheckAddressTransactions { .. } => code matches Some(name) && name@
                    == "check_address_transactions"@,
                FullScan::CreateCheckPointFromHeaders { .. } => code matches Some(name) && name@
                    == "create_checkpoint_from_headers"@,
                FullScan::InvalidSyncSource { .. } => code matches Some(name) && name@
                    == "invalid_sync_source"@,
                _ => code is None,
            },
    {
        match self {
            FullScan::CheckAddressTransactions { .. } => Some("check_address_transactions"),
            FullScan::CreateCheckPointFromHeaders { .. } => Some("create_checkpoint_from_headers"),
            FullScan::InvalidSyncSource { .. } => Some("invalid_sync_source"),
            _ => None,
        }
    }

    pub fn to_string(&self) -> (text: String)
        ensures
            text@ == self.text(),
    {
        match self {
            FullScan::WalletNotUnlocked(inner) => inner.to_string(),
            FullScan::CheckAddressTransactions { .. } => String::from_str(
                "failed to check for bitcoin address transactions",
            ),
            FullScan::ListHeaders(cause) => String::from_str(cause.as_str()),
            FullScan::CreateCheckPointFromHeaders { last_successful_header } => {
                let mut text = String::from_str("unable to create checkpoint from headers");
                match last_successful_header {
                    Some(height) => {
                        text.append(", last successful header at height ");
                        let digits = decimal_u64(*height as u64);
                        text.append(digits.as_str());
                        proof {
                            assert(text@ =~= "unable to create checkpoint from headers"@ + (
                            ", last successful header at height "@ + decimal_nat(*height as nat)));
                        }
                    },
                    None => {
                        proof {
                            assert(text@ =~= "unable to create checkpoint from headers"@
                                + Seq::<char>::empty());
                        }
                    },
                }
                text
            },
            FullScan::EsploraSync(cause) => String::from_str(cause.as_str()),
            FullScan::ElectrumSync(cause) => String::from_str(cause.as_str()),
            FullScan::CannotConnect(cause) => String::from_str(cause.as_str()),
            FullScan::PersistWallet(_) => String::from_str("unable to persist wallet post scan"),
            FullScan::InvalidSyncSource { sync_source } => String::from_str(
                "chain sync source does not support full scan: ",
            ).concat(sync_source.as_str()),
        }
    }
}

/// Why the suffix transactions of a block template could not be made.
#[derive(Clone, Debug, PartialEq, Eq)]
pub enum GenerateSuffixTxs {
    GetBundleProposals(String),
    M6(String),
    MissingCtip { sidechain_id: SidechainNumber },
}

impl GenerateSuffixTxs {
    /// The error's text: its own words, or those of its cause.
    pub open spec fn text(self) -> Seq<char> {
        match self {
            GenerateSuffixTxs::GetBundleProposals(cause) => cause@,
            GenerateSuffixTxs::M6(cause) => cause@,
            GenerateSuffixTxs::MissingCtip { sidechain_id } => "Missing ctip for sidechain "@
                + decimal_nat(sidechain_id.0 as nat),
        }
    }

    /// Writes the error's text.
    pub fn to_string(&self) -> (text: String)
        ensures
            text@ == self.text(),
    {
        match self {
            GenerateSuffixTxs::GetBundleProposals(cause) => String::from_str(cause.as_str()),
            GenerateSuffixTxs::M6(cause) => String::from_str(cause.as_str()),
            GenerateSuffixTxs::MissingCtip { sidechain_id } => {
                let digits = decimal_u64(sidechain_id.0 as u64);
                String::from_str("Missing ctip for sidechain ").concat(digits.as_str())
            },
        }
    }
}

/// The causes of a [`SuffixTxs`] error.
#[derive(Clone, Debug, PartialEq, Eq)]
pub enum SuffixTxsInner {
    InitialBlockTemplate,
    GenerateSuffixTxs(GenerateSuffixTxs),
    GetCtipsAfter(String),
    GetHeaderInfo(String),
    TryGetMainchainTip(String),
}

impl SuffixTxsInner {
    /// The error's text: its own words, or those of its cause.
    pub open spec fn text(self) -> Seq<char> {
        match self {
            SuffixTxsInner::InitialBlockTemplate => "Failed to apply initial block template"@,
            SuffixTxsInner::GenerateSuffixTxs(inner) => inner.text(),
            SuffixTxsInner::GetCtipsAfter(cause) => cause@,
            SuffixTxsInner::GetHeaderInfo(cause) => cause@,
            SuffixTxsInner::TryGetMainchainTip(cause) => cause@,
        }
    }

    /// Writes the error's text.
    pub fn to_string(&self) -> (text: String)
        ensures
            text@ == self.text(),
    {
        match self {
            SuffixTxsInner::InitialBlockTemplate => String::from_str(
                "Failed to apply initial block template",
            ),
            SuffixTxsInner::GenerateSuffixTxs(inner) => inner.to_string(),
            SuffixTxsInner::GetCtipsAfter(cause) => String::from_str(cause.as_str()),
            SuffixTxsInner::GetHeaderInfo(cause) => String::from_str(cause.as_str()),
            SuffixTxsInner::TryGetMainchainTip(cause) => String::from_str(cause.as_str()),
        }
    }
}

/// Why the suffix transactions of a block template could not be made; it
/// forwards the words of its cause.
#[derive(Clone, Debug, PartialEq, Eq)]
pub struct SuffixTxs(SuffixTxsInner);

impl SuffixTxs {
    /// The cause.
    pub closed spec fn inner(self) -> SuffixTxsInner {
        self.0
    }

    /// Writes the error's text.
    pub fn to_string(&self) -> (text: String)
        ensures
            text@ == self.inner().text(),
    {
        self.0.to_string()
    }
}

impl From<SuffixTxsInner> for SuffixTxs {
    fn from(error: SuffixTxsInner) -> (out: Self) {
        SuffixTxs(error)
    }
}

impl vstd::std_specs::convert::FromSpecImpl<SuffixTxsInner> for SuffixTxs {
    closed spec fn obeys_from_spec() -> bool {
        true
    }

    closed spec fn from_spec(error: SuffixTxsInner) -> Self {
        SuffixTxs(error)
    }
}

/// The causes of an [`InitialBlockTemplate`] error, kept as their text.
#[derive(Clone, Debug, PartialEq, Eq)]
pub enum InitialBlockTemplateInner {
    GetMainchainTip(String),
    GenerateCoinbaseTxouts(String),
}

impl InitialBlockTemplateInner {
    /// The error's text: that of its cause.
    pub open spec fn text(self) -> Seq<char> {
        match self {
            InitialBlockTemplateInner::GetMainchainTip(cause) => cause@,
            InitialBlockTemplateInner::GenerateCoinbaseTxouts(cause) => cause@,
        }
    }

    /// Writes the error's text.
    pub fn to_string(&self) -> (text: String)
        ensures
            text@ == self.text(),
    {
        match self {
            InitialBlockTemplateInner::GetMainchainTip(cause) => String::from_str(cause.as_str()),
            InitialBlockTemplateInner::GenerateCoinbaseTxouts(cause) => String::from_str(
                cause.as_str(),
            ),
        }
    }
}

/// Why the first block template could not be made; it forwards the words
/// of its cause.
#[derive(Clone, Debug, PartialEq, Eq)]
pub struct InitialBlockTemplate(InitialBlockTemplateInner);

impl InitialBlockTemplate {
    /// The cause.
    pub closed spec fn inner(self) -> InitialBlockTemplateInner {
        self.0
    }

    /// Writes the error's text.
    pub fn to_string(&self) -> (text: String)
        ensures
            text@ == self.inner().text(),
    {
        self.0.to_string()
    }
}

impl From<InitialBlockTemplateInner> for InitialBlockTemplate {
    fn from(error: InitialBlockTemplateInner) -> (out: Self) {
        InitialBlockTemplate(error)
    }
}

impl vstd::std_specs::convert::FromSpecImpl<InitialBlockTemplateInner> for InitialBlockTemplate {
    closed spec fn obeys_from_spec() -> bool {
        true
    }

    closed spec fn from_spec(error: InitialBlockTemplateInner) -> Self {
        InitialBlockTemplate(error)
    }
}

/// Why a transaction could not be sent.
#[derive(Clone, Debug, PartialEq, Eq)]
pub enum SendTransaction {
    /// The output `vout` of the transaction `txid`, written as it is
    /// displayed, is not in the wallet.
    UnknownUTXO { txid: String, vout: u32 },
}

impl SendTransaction {
    /// The error's text.
    pub open spec fn text(self) -> Seq<char> {
        match self {
            SendTransaction::UnknownUTXO { txid, vout } => "UTXO is not in wallet: "@ + txid@ + ":"@
                + decimal_nat(vout as nat),
        }
    }

    /// Name of the error for diagnostics.
    pub fn diagnostic_code(&self) -> (code: &'static str)
        ensures
            code@ == "send_transaction_add_utxo"@,
    {
        "send_transaction_add_utxo"
    }

    /// Writes the error's text.
    pub fn to_string(&self) -> (text: String)
        ensures
            text@ == self.text(),
    {
        match self {
            SendTransaction::UnknownUTXO { txid, vout } => {
                let mut text = String::from_str("UTXO is not in wallet: ");
                text.append(txid.as_str());
                text.append(":");
                let digits = decimal_u64(*vout as u64);
                text.append(digits.as_str());
                text
            },
        }
    }
}

} // verus!
