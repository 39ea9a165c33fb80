//! The operator RPC surface: listing deposit transactions and submitting
//! withdrawal bundles, with caller mistakes kept apart from service faults.

use vstd::prelude::*;
use vstd::string::StringExecFns;
use vstd::string::StringSliceAdditionalSpecFns;
use crate::bundles::{has_bundle, PendingBundleProposal, WithdrawalBundleTracker};
use crate::types::{M6id, SidechainNumber};

verus! {

/// The two categories of error that an RPC caller can get.
#[derive(Clone, Copy, Debug, PartialEq, Eq, Structural)]
pub enum RpcErrorCode {
    /// The caller sent something malformed.
    InvalidParams,
    /// The service failed.
    InternalError,
}

impl RpcErrorCode {
    /// The JSON-RPC 2.0 number of the category.
    pub open spec fn number(self) -> int {
        match self {
            RpcErrorCode::InvalidParams => -32602,
            RpcErrorCode::InternalError => -32603,
        }
    }

    /// The JSON-RPC 2.0 number of the category.
    pub fn code(self) -> (code: i32)
        ensures
            code == self.number(),
    {
        match self {
            RpcErrorCode::InvalidParams => -32602,
            RpcErrorCode::InternalError => -32603,
        }
    }
}

/// An error as an RPC caller gets it.
#[derive(Clone, Debug, PartialEq, Eq)]
pub struct RpcError {
    pub code: RpcErrorCode,
    pub message: String,
}

impl RpcError {
    /// Whether the error blames the caller's input.
    pub fn is_client_input(&self) -> (client: bool)
        ensures
            client == (self.code is InvalidParams),
    {
        match self.code {
            RpcErrorCode::InvalidParams => true,
            RpcErrorCode::InternalError => false,
        }
    }
}

/// Why a withdrawal bundle was not recorded; each cause names the step that
/// failed and carries what that step said.
#[derive(Clone, Debug, PartialEq, Eq)]
pub enum SubmitFailure {
    /// The request carries no wallet.
    WalletMissing,
    /// The parameters are not a sidechain number and a string.
    InvalidParams(String),
    /// The transaction is not written in hexadecimal.
    InvalidHex(String),
    /// The bytes are not a consensus-encoded transaction.
    InvalidTransaction(String),
    /// The transaction is not a well-formed withdrawal bundle.
    InvalidBundle(String),
    /// The wallet could not store the bundle.
    PutFailed(String),
}

impl SubmitFailure {
    /// The category of the failure: what goes back to malformed input is the
    /// caller's, the rest is the service's.
    pub open spec fn category(self) -> RpcErrorCode {
        match self {
            SubmitFailure::WalletMissing => RpcErrorCode::InternalError,
            SubmitFailure::InvalidParams(_) => RpcErrorCode::InvalidParams,
            SubmitFailure::InvalidHex(_) => RpcErrorCode::InvalidParams,
            SubmitFailure::InvalidTransaction(_) => RpcErrorCode::InvalidParams,
            SubmitFailure::InvalidBundle(_) => RpcErrorCode::InvalidParams,
            SubmitFailure::PutFailed(_) => RpcErrorCode::InternalError,
        }
    }

    /// The message of the failure.
    pub open spec fn text(self) -> Seq<char> {
        match self {
            SubmitFailure::WalletMissing => "Wallet not found in context"@,
            SubmitFailure::InvalidParams(detail) => "Invalid parameters: "@ + detail@,
            SubmitFailure::InvalidHex(detail) => "Invalid transaction hex: "@ + detail@,
            SubmitFailure::InvalidTransaction(detail) => "Invalid transaction format: "@ + detail@,
            SubmitFailure::InvalidBundle(detail) => "Invalid withdrawal bundle format: "@ + detail@,
            SubmitFailure::PutFailed(detail) => "Failed to put withdrawal bundle: "@ + detail@,
        }
    }

    /// The error that the caller gets for this failure.
    pub fn into_rpc_error(self) -> (error: RpcError)
        ensures
            error.code == self.category(),
            error.message@ == self.text(),
    {
        match self {
            SubmitFailure::WalletMissing => RpcError {
                code: RpcErrorCode::InternalError,
                message: String::from_str("Wallet not found in context"),
            },
            SubmitFailure::InvalidParams(detail) => RpcError {
                code: RpcErrorCode::InvalidParams,
                message: String::from_str("Invalid parameters: ").concat(detail.as_str()),
            },
            SubmitFailure::InvalidHex(detail) => RpcError {
                code: RpcErrorCode::InvalidParams,
                message: String::from_str("Invalid transaction hex: ").concat(detail.as_str()),
            },
            SubmitFailure::InvalidTransaction(detail) => RpcError {
                code: RpcErrorCode::InvalidParams,
                message: String::from_str("Invalid transaction format: ").concat(detail.as_str()),
            },
            SubmitFailure::InvalidBundle(detail) => RpcError {
                code: RpcErrorCode::InvalidParams,
                message: String::from_str("Invalid withdrawal bundle format: ").concat(
                    detail.as_str(),
                ),
            },
            SubmitFailure::PutFailed(detail) => RpcError {
                code: RpcErrorCode::InternalError,
                message: String::from_str("Failed to put withdrawal bundle: ").concat(
                    detail.as_str(),
                ),
            },
        }
    }
}

/// Why the deposit transactions could not be listed.
#[derive(Clone, Debug, PartialEq, Eq)]
pub enum ListFailure {
    /// The request carries no wallet.
    WalletMissing,
    /// The wallet could not list its transactions.
    ListFailed(String),
}

impl ListFailure {
    /// The message of the failure.
    pub open spec fn text(self) -> Seq<char> {
        match self {
            ListFailure::WalletMissing => "Wallet not found in context"@,
            ListFailure::ListFailed(detail) => "Failed to list transactions: "@ + detail@,
        }
    }

    /// The error that the caller gets for this failure: always the
    /// service's.
    pub fn into_rpc_error(self) -> (error: RpcError)
        ensures
            error.code == RpcErrorCode::InternalError,
            error.message@ == self.text(),
    {
        match self {
            ListFailure::WalletMissing => RpcError {
                code: RpcErrorCode::InternalError,
                message: String::from_str("Wallet not found in context"),
            },
            ListFailure::ListFailed(detail) => RpcError {
                code: RpcErrorCode::InternalError,
                message: String::from_str("Failed to list transactions: ").concat(detail.as_str()),
            },
        }
    }
}

/// The value of a hexadecimal digit, upper or lower case.
pub open spec fn hex_value(b: u8) -> Option<int> {
    if 0x30 <= b <= 0x39 {
        Some(b - 0x30)
    } else if 0x41 <= b <= 0x46 {
        Some(b - 0x41 + 10)
    } else if 0x61 <= b <= 0x66 {
        Some(b - 0x61 + 10)
    } else {
        None
    }
}

/// Whether `digits` is an even number of hexadecimal digits.
pub open spec fn is_hex(digits: Seq<u8>) -> bool {
    &&& digits.len() % 2 == 0
    &&& forall|i: int| 0 <= i < digits.len() ==> hex_value(#[trigger] digits[i]) is Some
}

/// The bytes that the hexadecimal digits `digits` write, two digits to a
/// byte, the high one first.
pub open spec fn hex_bytes(digits: Seq<u8>) -> Seq<u8> {
    Seq::new(
        digits.len() / 2,
        |i: int| (hex_value(digits[2 * i])->0 * 16 + hex_value(digits[2 * i + 1])->0) as u8,
    )
}

/// What the `hex` crate says of text that is not hexadecimal.
pub uninterp spec fn hex_error_text(digits: Seq<u8>) -> Seq<char>;

/// The output of an earlier transaction that an input spends.
#[derive(Clone, Debug, PartialEq, Eq)]
pub struct OutPoint {
    pub txid: [u8; 32],
    pub vout: u32,
}

/// An input of a transaction.
#[derive(Clone, Debug, PartialEq, Eq)]
pub struct TxIn {
    pub previous_output: OutPoint,
    pub script_sig: Vec<u8>,
    pub sequence: u32,
    pub witness: Vec<Vec<u8>>,
}

/// An output of a transaction: an amount in satoshis and the script that
/// locks it.
#[derive(Clone, Debug, PartialEq, Eq)]
pub struct TxOut {
    pub value: u64,
    pub script_pubkey: Vec<u8>,
}

/// A transaction of the base chain, part by part.
#[derive(Clone, Debug, PartialEq, Eq)]
pub struct Transaction {
    pub version: i32,
    pub lock_time: u32,
    pub input: Vec<TxIn>,
    pub output: Vec<TxOut>,
}

/// What a [`TxIn`] holds.
pub struct TxInView {
    pub txid: Seq<u8>,
    pub vout: u32,
    pub script_sig: Seq<u8>,
    pub sequence: u32,
    pub witness: Seq<Seq<u8>>,
}

/// What a [`TxOut`] holds.
pub struct TxOutView {
    pub value: u64,
    pub script_pubkey: Seq<u8>,
}

/// What a [`Transaction`] holds.
pub struct TransactionView {
    pub version: i32,
    pub lock_time: u32,
    pub input: Seq<TxInView>,
    pub output: Seq<TxOutView>,
}

impl View for TxIn {
    type V = TxInView;

    open spec fn view(&self) -> TxInView {
        TxInView {
            txid: self.previous_output.txid@,
            vout: self.previous_output.vout,
            script_sig: self.script_sig@,
            sequence: self.sequence,
            witness: self.witness@.map_values(|item: Vec<u8>| item@),
        }
    }
}

impl View for TxOut {
    type V = TxOutView;

    open spec fn view(&self) -> TxOutView {
        TxOutView { value: self.value, script_pubkey: self.script_pubkey@ }
    }
}

impl View for Transaction {
    type V = TransactionView;

    open spec fn view(&self) -> TransactionView {
        TransactionView {
            version: self.version,
            lock_time: self.lock_time,
            input: self.input@.map_values(|input: TxIn| input@),
            output: self.output@.map_values(|output: TxOut| output@),
        }
    }
}

/// What the `bitcoin` crate makes of `data`: the transaction that the bytes
/// encode, where they are the consensus encoding of one transaction, whole
/// and with nothing left over, and else what the crate says of them.
pub uninterp spec fn decoded_transaction(data: Seq<u8>) -> Result<TransactionView, Seq<char>>;

/// `hex::decode` on the bytes of `data`. It succeeds exactly on an even
/// number of hexadecimal digits, of either case, and then gives the bytes
/// they write. Otherwise the result is the crate's description of the
/// error.
#[verifier::external_body]
fn hex_decode(data: &str) -> (decoded: Result<Vec<u8>, String>)
    ensures
        decoded is Ok <==> is_hex(data.spec_bytes()),
        decoded matches Ok(bytes) ==> bytes@ == hex_bytes(data.spec_bytes()),
        decoded matches Err(text) ==> text@ == hex_error_text(data.spec_bytes()),
{
    match hex::decode(data) {
        Ok(bytes) => Ok(bytes),
        Err(error) => Err(error.to_string()),
    }
}

/// `bitcoin::consensus::deserialize` for a transaction, with the
/// transaction taken apart: its version, its lock time, and each input and
/// output with its fields. Where the bytes are no transaction the result is
/// the crate's description of the error.
#[verifier::external_body]
fn consensus_decode(data: &[u8]) -> (decoded: Result<Transaction, String>)
    ensures
        decoded matches Ok(transaction) ==> decoded_transaction(data@) is Ok
            && decoded_transaction(data@)->Ok_0 == transaction@,
        decoded matches Err(text) ==> decoded_transaction(data@) is Err
            && decoded_transaction(data@)->Err_0 == text@,
{
    match bitcoin::consensus::deserialize::<bitcoin::Transaction>(data) {
        Err(error) => Err(error.to_string()),
        Ok(tx) => Ok(Transaction {
            version: tx.version.0,
            lock_time: tx.lock_time.to_consensus_u32(),
            input: tx.input.into_iter().map(|i| TxIn {
                previous_output: OutPoint { txid: bitcoin::hashes::Hash::to_byte_array(i.previous_output.txid), vout: i.previous_output.vout },
                script_sig: i.script_sig.into_bytes(),
                sequence: i.sequence.0,
                witness: i.witness.to_vec(),
            }).collect(),
            output: tx.output.into_iter().map(|o| TxOut { value: o.value.to_sat(), script_pubkey: o.script_pubkey.into_bytes() }).collect(),
        }),
    }
}

/// What comes of the text `digits` that a caller submits as a transaction:
/// the transaction, or what the step that refused the text said of it. The
/// flag beside it tells whether the text was hexadecimal, so that the
/// encoding was the step that refused.
pub open spec fn decoding(digits: Seq<u8>) -> Result<TransactionView, (bool, Seq<char>)> {
    if !is_hex(digits) {
        Err((false, hex_error_text(digits)))
    } else {
        match decoded_transaction(hex_bytes(digits)) {
            Ok(transaction) => Ok(transaction),
            Err(text) => Err((true, text)),
        }
    }
}

/// Reads the transaction that a caller submits in hexadecimal. Text that is
/// not hexadecimal and bytes that are not a transaction are the caller's
/// mistakes, told apart by the step that found them.
pub fn decode_bundle_transaction(transaction_hex: &str) -> (decoded: Result<
    Transaction,
    SubmitFailure,
>)
    ensures
        match decoding(transaction_hex.spec_bytes()) {
            Ok(transaction) => decoded matches Ok(read) && read@ == transaction,
            Err((false, text)) => decoded matches Err(SubmitFailure::InvalidHex(detail)) && detail@
                == text,
            Err((true, text)) => decoded matches Err(SubmitFailure::InvalidTransaction(detail))
                && detail@ == text,
        },
{
    match hex_decode(transaction_hex) {
        Err(detail) => Err(SubmitFailure::InvalidHex(detail)),
        Ok(bytes) => match consensus_decode(bytes.as_slice()) {
            Err(detail) => Err(SubmitFailure::InvalidTransaction(detail)),
            Ok(transaction) => Ok(transaction),
        },
    }
}

/// What a caller submits, once it has been read: the sidechain and the
/// transaction.
#[derive(Clone, Debug, PartialEq, Eq)]
pub struct Submission {
    pub sidechain_number: u8,
    pub transaction: Transaction,
}

/// Reads a submission. `params` is the sidechain number and the
/// transaction in hexadecimal, or what is wrong with the parameters. The
/// input is judged before anything else is looked at: parameters, then
/// hexadecimal text, then the transaction's encoding, and the first of
/// them that is malformed is the caller's mistake.
pub fn read_submission(params: Result<(u8, String), String>) -> (read: Result<
    Submission,
    SubmitFailure,
>)
    ensures
        match params {
            Err(complaint) => read == Err::<Submission, SubmitFailure>(
                SubmitFailure::InvalidParams(complaint),
            ),
            Ok((sidechain_number, transaction_hex)) => match decoding(
                vstd::utf8::encode_utf8(transaction_hex@),
            ) {
                Ok(transaction) => read matches Ok(submission) && submission.sidechain_number
                    == sidechain_number && submission.transaction@ == transaction,
                Err((false, text)) => read matches Err(SubmitFailure::InvalidHex(detail))
                    && detail@ == text,
                Err((true, text)) => read matches Err(SubmitFailure::InvalidTransaction(detail))
                    && detail@ == text,
            },
        },
{
    match params {
        Err(complaint) => Err(SubmitFailure::InvalidParams(complaint)),
        Ok((sidechain_number, transaction_hex)) => {
            match decode_bundle_transaction(transaction_hex.as_str()) {
                Err(failure) => Err(failure),
                Ok(transaction) => Ok(Submission { sidechain_number, transaction }),
            }
        },
    }
}

/// Decides whether a submission that has been read is taken: `bundle` is
/// the bundle's id and transaction for a well-formed withdrawal bundle,
/// and what is wrong with the transaction for any other. A transaction
/// that is no withdrawal bundle is the caller's mistake, whether or not
/// there is a wallet; a well-formed bundle without a wallet to hold it is
/// the service's failure.
pub fn admit_submission(has_wallet: bool, bundle: Result<(M6id, Vec<u8>), String>) -> (admitted:
    Result<(M6id, Vec<u8>), SubmitFailure>)
    ensures
        match bundle {
            Err(complaint) => admitted == Err::<(M6id, Vec<u8>), SubmitFailure>(
                SubmitFailure::InvalidBundle(complaint),
            ),
            Ok(well_formed) => if has_wallet {
                admitted == Ok::<(M6id, Vec<u8>), SubmitFailure>(well_formed)
            } else {
                admitted == Err::<(M6id, Vec<u8>), SubmitFailure>(SubmitFailure::WalletMissing)
            },
        },
{
    match bundle {
        Err(complaint) => Err(SubmitFailure::InvalidBundle(complaint)),
        Ok(well_formed) => if has_wallet {
            Ok(well_formed)
        } else {
            Err(SubmitFailure::WalletMissing)
        },
    }
}

/// Records a submitted bundle once its structure is known: `bundle` is the
/// bundle's id and transaction for a well-formed withdrawal bundle, and
/// what is wrong with the transaction for any other. A transaction that is
/// no withdrawal bundle is the caller's mistake and leaves the pending
/// proposals as they were. A well-formed bundle is pending afterwards, and
/// its id is returned.
pub fn record_submission(
    tracker: &mut WithdrawalBundleTracker,
    sidechain_number: u8,
    bundle: Result<(M6id, Vec<u8>), String>,
) -> (recorded: Result<M6id, SubmitFailure>)
    ensures
        old(tracker).wf() ==> final(tracker).wf(),
        final(tracker).proposals() == old(tracker).proposals(),
        match bundle {
            Err(complaint) => {
                &&& recorded == Err::<M6id, SubmitFailure>(SubmitFailure::InvalidBundle(complaint))
                &&& final(tracker).pending() == old(tracker).pending()
            },
            Ok((m6id, transaction)) => {
                let proposal = PendingBundleProposal {
                    sidechain_id: SidechainNumber(sidechain_number),
                    m6id,
                    transaction,
                };
                &&& recorded == Ok::<M6id, SubmitFailure>(m6id)
                &&& final(tracker).pending() == if has_bundle(
                    old(tracker).pending(),
                    proposal.key(),
                ) {
                    old(tracker).pending()
                } else {
                    old(tracker).pending().push(proposal)
                }
            },
        },
{
    match bundle {
        Err(complaint) => Err(SubmitFailure::InvalidBundle(complaint)),
        Ok((m6id, transaction)) => {
            let proposal = PendingBundleProposal {
                sidechain_id: SidechainNumber(sidechain_number),
                m6id,
                transaction,
            };
            let _ = tracker.put_withdrawal_bundle(proposal);
            Ok(m6id)
        },
    }
}

/// The block that confirms a transaction.
#[derive(Clone, Copy, Debug, PartialEq, Eq)]
pub struct Confirmation {
    pub height: u32,
    pub block_hash: [u8; 32],
    pub timestamp: u64,
}

/// Where a wallet transaction stands in the chain.
#[derive(Clone, Copy, Debug, PartialEq, Eq)]
pub enum ChainPosition {
    Confirmed(Confirmation),
    Unconfirmed,
}

/// A transaction of the wallet ledger, as far as the deposit listing reads
/// it. `treasury_sidechain` is the sidechain that the script of the first
/// output is tagged with, if there is a first output and its script is so
/// tagged.
#[derive(Clone, Copy, Debug, PartialEq, Eq)]
pub struct WalletTransaction {
    pub txid: [u8; 32],
    pub treasury_sidechain: Option<SidechainNumber>,
    pub fee_sats: u64,
    pub received_sats: u64,
    pub sent_sats: u64,
    pub chain_position: ChainPosition,
}

/// A deposit to a sidechain, as the listing reports it.
#[derive(Clone, Copy, Debug, PartialEq, Eq)]
pub struct DepositTransaction {
    pub sidechain_number: u8,
    pub txid: [u8; 32],
    pub fee_sats: u64,
    pub received_sats: u64,
    pub sent_sats: u64,
    pub confirmation: Option<Confirmation>,
}

/// The deposit that a wallet transaction makes, if its first output is
/// tagged with a sidechain.
pub open spec fn deposit_of() -> spec_fn(WalletTransaction) -> Option<DepositTransaction> {
    |tx: WalletTransaction|
        match tx.treasury_sidechain {
            Some(sidechain) => Some(
                DepositTransaction {
                    sidechain_number: sidechain.0,
                    txid: tx.txid,
                    fee_sats: tx.fee_sats,
                    received_sats: tx.received_sats,
                    sent_sats: tx.sent_sats,
                    confirmation: match tx.chain_position {
                        ChainPosition::Confirmed(confirmation) => Some(confirmation),
                        ChainPosition::Unconfirmed => None,
                    },
                },
            ),
            None => None,
        }
}

/// Lists the deposits among the wallet's transactions, in their order:
/// every transaction whose first output is tagged with a sidechain, and no
/// other.
pub fn list_sidechain_deposit_transactions(transactions: &[WalletTransaction]) -> (deposits: Vec<
    DepositTransaction,
>)
    ensures
        deposits@ == transactions@.filter_map(deposit_of()),
{
    let mut deposits: Vec<DepositTransaction> = Vec::new();
    let mut i: usize = 0;
    while i < transactions.len()
        invariant
            i <= transactions.len(),
            deposits@ == transactions@.take(i as int).filter_map(deposit_of()),
        decreases transactions.len() - i,
    {
        let tx = transactions[i];
        proof {
            assert(transactions@.take(i + 1).drop_last() =~= transactions@.take(i as int));
        }
        match tx.treasury_sidechain {
            Some(sidechain) => {
                let confirmation = match tx.chain_position {
                    ChainPosition::Confirmed(confirmation) => Some(confirmation),
                    ChainPosition::Unconfirmed => None,
                };
                deposits.push(
                    DepositTransaction {
                        sidechain_number: sidechain.0,
                        txid: tx.txid,
                        fee_sats: tx.fee_sats,
                        received_sats: tx.received_sats,
                        sent_sats: tx.sent_sats,
                        confirmation,
                    },
                );
            },
            None => {},
        }
        i = i + 1;
    }
    proof {
        assert(transactions@.take(transactions.len() as int) =~= transactions@);
    }
    deposits
}

} // verus!
