use bip300301_enforcer::types::SidechainNumber;
use bip300301_enforcer::wallet::error::{
    BdkWalletPersist, BitcoinCoreRPC, ConnectBlock, Electrum, EncodeBlock, ErrorKind, Esplora,
    FullScan, GenerateSuffixTxs, InitialBlockTemplate, InitialBlockTemplateInner, NotUnlocked,
    SendTransaction, SqliteError, Status, StatusCode, SuffixTxs, SuffixTxsInner, TonicStatus,
    TonicStatusExt, WalletInitialization, WalletSignTransaction, WalletSync,
};
use bip300301_enforcer::wallet::sync::ChainSource;

#[test]
fn electrum_error_text() {
    let error = Electrum::new(-25, "bad-txns-inputs-missingorspent".to_owned());
    assert_eq!(error.to_string(), "electrum error `-25`: `bad-txns-inputs-missingorspent`");
    assert_eq!(error.code(), -25);
    assert_eq!(error.message(), "bad-txns-inputs-missingorspent");
    assert_eq!(error.diagnostic_code(), "electrum_error");
    assert_eq!(
        error.help(),
        "The error is from the Electrum server. Check the message for more details."
    );
    assert_eq!(Electrum::new(2, String::new()).to_string(), "electrum error `2`: ``");
    assert_eq!(
        Electrum::new(i32::MIN, "x".to_owned()).to_string(),
        "electrum error `-2147483648`: `x`"
    );
}

#[test]
fn electrum_rejection_blames_the_argument() {
    let status = Electrum::new(-25, "missing inputs".to_owned()).into_status();
    assert_eq!(status.code, StatusCode::InvalidArgument);
    assert_eq!(status.message, "electrum error `-25`: `missing inputs`");
}

#[test]
fn other_electrum_codes_are_unknown() {
    for code in [-26, -24, 25, 0, -28, i32::MAX, i32::MIN] {
        let error = Electrum::new(code, "m".to_owned());
        assert_eq!(error.status_code(), StatusCode::Unknown);
        let status = error.into_status();
        assert_eq!(status.code, StatusCode::Unknown);
        assert_eq!(status.message, format!("electrum error `{code}`: `m`"));
    }
}

#[test]
fn status_codes_are_those_of_grpc() {
    assert_eq!(StatusCode::Unknown.code(), tonic::Code::Unknown as i32);
    assert_eq!(StatusCode::InvalidArgument.code(), tonic::Code::InvalidArgument as i32);
}

#[test]
fn esplora_error_text() {
    let error = Esplora::new(404, "not found".to_owned());
    assert_eq!(error.to_string(), "esplora error `404`: `not found`");
    assert_eq!(error.code(), 404);
    assert_eq!(error.message(), "not found");
    assert_eq!(error.diagnostic_code(), "esplora_error");
}

#[test]
fn not_unlocked_text() {
    assert_eq!(NotUnlocked.to_string(), "Enforcer wallet not unlocked");
    assert_eq!(NotUnlocked.diagnostic_code(), "wallet_not_unlocked");
}

#[test]
fn wallet_initialization_texts() {
    let cases = [
        (
            WalletInitialization::AlreadyUnlocked,
            "enforcer wallet already unlocked",
            "wallet_already_unlocked",
        ),
        (
            WalletInitialization::NotFound,
            "enforcer wallet not found (can be created with CreateWallet RPC)",
            "wallet_not_found",
        ),
        (
            WalletInitialization::AlreadyExists,
            "enforcer wallet already exists (but might not be initialized)",
            "wallet_already_exists",
        ),
        (
            WalletInitialization::DataMismatch,
            "enforcer wallet data mismatch, data directory content does not line up with wallet descriptor",
            "wallet_data_mismatch",
        ),
        (
            WalletInitialization::InvalidPassword,
            "invalid password for enforcer wallet",
            "wallet_invalid_password",
        ),
        (WalletInitialization::NotSynced, "enforcer wallet not synced", "wallet_not_synced"),
    ];
    for (error, text, code) in cases {
        assert_eq!(error.to_string(), text);
        assert_eq!(error.diagnostic_code(), code);
    }
}

#[test]
fn sign_transaction_texts() {
    assert_eq!(
        WalletSignTransaction::NotUnlocked(NotUnlocked).to_string(),
        "Enforcer wallet not unlocked"
    );
    assert_eq!(WalletSignTransaction::SignerError("no key".to_owned()).to_string(), "no key");
    assert_eq!(WalletSignTransaction::ExtractTx("fee".to_owned()).to_string(), "fee");
    assert_eq!(WalletSignTransaction::UnableToSign.to_string(), "unable to sign transaction");
}

fn persist_error() -> BdkWalletPersist {
    BdkWalletPersist { file_path: "/data/wallet.db".to_owned(), source: "disk full".to_owned() }
}

#[test]
fn persist_error_names_the_database() {
    assert_eq!(persist_error().to_string(), "unable to persist BDK wallet DB `/data/wallet.db`");
    assert_eq!(persist_error().diagnostic_code(), "bdk_wallet_persist");
}

#[test]
fn wallet_sync_forwards_its_cause() {
    let cases = [
        (
            WalletSync::BdkWalletConnect("gap".to_owned()),
            "gap",
            "bdk_wallet_connect",
            ErrorKind::DataIntegrity,
            None,
        ),
        (
            WalletSync::BdkWalletPersist(persist_error()),
            "unable to persist BDK wallet DB `/data/wallet.db`",
            "bdk_wallet_persist",
            ErrorKind::DataIntegrity,
            None,
        ),
        (
            WalletSync::ElectrumSync("refused".to_owned()),
            "refused",
            "electrum_sync",
            ErrorKind::Connectivity,
            Some(ChainSource::Electrum),
        ),
        (
            WalletSync::EsploraSync("503".to_owned()),
            "503",
            "esplora_sync",
            ErrorKind::Connectivity,
            Some(ChainSource::Esplora),
        ),
        (
            WalletSync::WalletNotUnlocked(NotUnlocked),
            "Enforcer wallet not unlocked",
            "wallet_not_unlocked",
            ErrorKind::Transient,
            None,
        ),
    ];
    for (error, text, code, kind, backend) in cases {
        assert_eq!(error.to_string(), text);
        assert_eq!(error.diagnostic_code(), code);
        assert_eq!(error.kind(), kind);
        assert_eq!(error.backend(), backend);
    }
}

#[test]
fn persistence_failures_differ_from_connectivity_failures() {
    assert_ne!(
        WalletSync::BdkWalletPersist(persist_error()).kind(),
        WalletSync::ElectrumSync("x".to_owned()).kind()
    );
    assert_ne!(
        WalletSync::BdkWalletPersist(persist_error()).kind(),
        WalletSync::EsploraSync("x".to_owned()).kind()
    );
}

#[test]
fn conversions_wrap_their_cause() {
    assert_eq!(WalletSync::from(NotUnlocked), WalletSync::WalletNotUnlocked(NotUnlocked));
    assert_eq!(WalletSync::from(persist_error()), WalletSync::BdkWalletPersist(persist_error()));
    assert_eq!(ConnectBlock::from(NotUnlocked), ConnectBlock::WalletNotUnlocked(NotUnlocked));
    assert_eq!(
        ConnectBlock::from(SqliteError::Rusqlite("locked".to_owned())),
        ConnectBlock::Sqlite(SqliteError::Rusqlite("locked".to_owned()))
    );
    assert_eq!(
        ConnectBlock::from(SqliteError::TokioRusqlite("closed".to_owned())),
        ConnectBlock::Sqlite(SqliteError::TokioRusqlite("closed".to_owned()))
    );
}

#[test]
fn bitcoin_core_rpc_text() {
    let error = BitcoinCoreRPC { method: "getblocktemplate".to_owned(), error: "timeout".to_owned() };
    assert_eq!(error.to_string(), "Bitcoin Core RPC error `getblocktemplate`: timeout");
    assert_eq!(error.diagnostic_code(), "bitcoin_core_rpc_error");
}

#[test]
fn encode_block_text() {
    let error = EncodeBlock("short write".to_owned());
    assert_eq!(error.to_string(), "failed to consensus encode block");
    assert_eq!(error.diagnostic_code(), "encode_block_error");
}

#[test]
fn connect_block_texts() {
    let rpc = BitcoinCoreRPC { method: "getblock".to_owned(), error: "e".to_owned() };
    let cases = [
        (ConnectBlock::BdkConnect("gap".to_owned()), "failed connecting block to BDK chain"),
        (ConnectBlock::ConnectBlock("invalid".to_owned()), "invalid"),
        (ConnectBlock::GetBlockInfo("no info".to_owned()), "no info"),
        (ConnectBlock::FetchBlock(rpc), "unable to fetch missing block"),
        (ConnectBlock::GetHeaderInfo("no header".to_owned()), "no header"),
        (ConnectBlock::Sqlite(SqliteError::Rusqlite("busy".to_owned())), "busy"),
        (ConnectBlock::Sqlite(SqliteError::TokioRusqlite("closed".to_owned())), "closed"),
        (ConnectBlock::WalletNotUnlocked(NotUnlocked), "Enforcer wallet not unlocked"),
    ];
    for (error, text) in cases {
        assert_eq!(error.to_string(), text);
    }
}

#[test]
fn full_scan_texts() {
    let cases = [
        (FullScan::WalletNotUnlocked(NotUnlocked), "Enforcer wallet not unlocked".to_owned()),
        (
            FullScan::CheckAddressTransactions {
                address: "bc1q".to_owned(),
                backend: ChainSource::Esplora,
                error: "x".to_owned(),
            },
            "failed to check for bitcoin address transactions".to_owned(),
        ),
        (FullScan::ListHeaders("h".to_owned()), "h".to_owned()),
        (
            FullScan::CreateCheckPointFromHeaders { last_successful_header: None },
            "unable to create checkpoint from headers".to_owned(),
        ),
        (
            FullScan::CreateCheckPointFromHeaders { last_successful_header: Some(840000) },
            "unable to create checkpoint from headers, last successful header at height 840000"
                .to_owned(),
        ),
        (
            FullScan::CreateCheckPointFromHeaders { last_successful_header: Some(0) },
            "unable to create checkpoint from headers, last successful header at height 0"
                .to_owned(),
        ),
        (FullScan::EsploraSync("a".to_owned()), "a".to_owned()),
        (FullScan::ElectrumSync("b".to_owned()), "b".to_owned()),
        (FullScan::CannotConnect("c".to_owned()), "c".to_owned()),
        (
            FullScan::PersistWallet(SqliteError::Rusqlite("d".to_owned())),
            "unable to persist wallet post scan".to_owned(),
        ),
        (
            FullScan::InvalidSyncSource { sync_source: "Disabled".to_owned() },
            "chain sync source does not support full scan: Disabled".to_owned(),
        ),
    ];
    for (error, text) in cases {
        assert_eq!(error.to_string(), text);
    }
}

#[test]
fn suffix_txs_forward_their_cause() {
    let cases = [
        (SuffixTxsInner::InitialBlockTemplate, "Failed to apply initial block template"),
        (
            SuffixTxsInner::GenerateSuffixTxs(GenerateSuffixTxs::MissingCtip {
                sidechain_id: SidechainNumber(255),
            }),
            "Missing ctip for sidechain 255",
        ),
        (
            SuffixTxsInner::GenerateSuffixTxs(GenerateSuffixTxs::MissingCtip {
                sidechain_id: SidechainNumber(0),
            }),
            "Missing ctip for sidechain 0",
        ),
        (
            SuffixTxsInner::GenerateSuffixTxs(GenerateSuffixTxs::GetBundleProposals(
                "p".to_owned(),
            )),
            "p",
        ),
        (SuffixTxsInner::GenerateSuffixTxs(GenerateSuffixTxs::M6("underflow".to_owned())), "underflow"),
        (SuffixTxsInner::GetCtipsAfter("q".to_owned()), "q"),
        (SuffixTxsInner::GetHeaderInfo("r".to_owned()), "r"),
        (SuffixTxsInner::TryGetMainchainTip("s".to_owned()), "s"),
    ];
    for (inner, text) in cases {
        assert_eq!(inner.to_string(), text);
        assert_eq!(SuffixTxs::from(inner).to_string(), text);
    }
}

#[test]
fn initial_block_template_forwards_its_cause() {
    let tip = InitialBlockTemplateInner::GetMainchainTip("no tip".to_owned());
    assert_eq!(InitialBlockTemplate::from(tip).to_string(), "no tip");
    let txouts = InitialBlockTemplateInner::GenerateCoinbaseTxouts("no outputs".to_owned());
    assert_eq!(InitialBlockTemplate::from(txouts).to_string(), "no outputs");
}

#[test]
fn send_transaction_names_the_output() {
    let error = SendTransaction::UnknownUTXO { txid: "ab".repeat(32), vout: 4294967295 };
    assert_eq!(error.to_string(), format!("UTXO is not in wallet: {}:4294967295", "ab".repeat(32)));
    assert_eq!(error.diagnostic_code(), "send_transaction_add_utxo");
}

#[test]
fn tonic_status_is_passed_on_unchanged() {
    let status = Status { code: StatusCode::InvalidArgument, message: "bad txid".to_owned() };
    let error = TonicStatus(status.clone());
    assert_eq!(error.into_status(), status);
    assert_eq!(error.into_status(), error.into_status());
}

#[test]
fn status_is_never_a_success() {
    let status = Status { code: StatusCode::Unknown, message: "?".to_owned() };
    assert_eq!(status.clone().into_diagnostic(), Err(TonicStatus(status)));
}

#[test]
fn status_is_displayed_as_tonic_displays_it() {
    for (code, tonic_code) in [
        (StatusCode::Unknown, tonic::Code::Unknown),
        (StatusCode::InvalidArgument, tonic::Code::InvalidArgument),
    ] {
        for message in ["", "bad txid", "quote \" and\nnewline"] {
            let status = Status { code, message: message.to_owned() };
            let expected = tonic::Status::new(tonic_code, message).to_string();
            assert_eq!(status.to_string(), expected);
            assert_eq!(TonicStatus(status).to_string(), format!("tonic error: {expected}"));
        }
    }
    let status = Status { code: StatusCode::InvalidArgument, message: "bad txid".to_owned() };
    assert_eq!(
        status.to_string(),
        "code: 'Client specified an invalid argument', message: \"bad txid\""
    );
}

#[test]
fn electrum_error_converts_into_a_status() {
    let status = Status::from(Electrum::new(-25, "missing inputs".to_owned()));
    assert_eq!(
        status,
        Status {
            code: StatusCode::InvalidArgument,
            message: "electrum error `-25`: `missing inputs`".to_owned()
        }
    );
    let status: Status = Electrum::new(1, "x".to_owned()).into();
    assert_eq!(status.code, StatusCode::Unknown);
}

#[test]
fn diagnostic_codes_of_errors_with_words_of_their_own() {
    assert_eq!(
        WalletSignTransaction::UnableToSign.diagnostic_code(),
        Some("unable_to_sign_transaction")
    );
    assert_eq!(WalletSignTransaction::SignerError("x".to_owned()).diagnostic_code(), None);
    assert_eq!(WalletSignTransaction::NotUnlocked(NotUnlocked).diagnostic_code(), None);
    assert_eq!(
        ConnectBlock::BdkConnect("gap".to_owned()).diagnostic_code(),
        Some("connect_block_error")
    );
    let rpc = BitcoinCoreRPC { method: "getblock".to_owned(), error: "e".to_owned() };
    assert_eq!(ConnectBlock::FetchBlock(rpc).diagnostic_code(), Some("fetch_block_error"));
    assert_eq!(ConnectBlock::WalletNotUnlocked(NotUnlocked).diagnostic_code(), None);
    assert_eq!(
        ConnectBlock::Sqlite(SqliteError::Rusqlite("x".to_owned())).diagnostic_code(),
        None
    );
    assert_eq!(
        FullScan::CheckAddressTransactions {
            address: "a".to_owned(),
            backend: ChainSource::Electrum,
            error: "e".to_owned()
        }
        .diagnostic_code(),
        Some("check_address_transactions")
    );
    assert_eq!(
        FullScan::CreateCheckPointFromHeaders { last_successful_header: None }.diagnostic_code(),
        Some("create_checkpoint_from_headers")
    );
    assert_eq!(
        FullScan::InvalidSyncSource { sync_source: "s".to_owned() }.diagnostic_code(),
        Some("invalid_sync_source")
    );
    assert_eq!(FullScan::ListHeaders("h".to_owned()).diagnostic_code(), None);
    assert_eq!(FullScan::PersistWallet(SqliteError::Rusqlite("d".to_owned())).diagnostic_code(), None);
}
