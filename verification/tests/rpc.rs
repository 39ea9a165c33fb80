use bip300301_enforcer::bundles::{PendingBundleProposal, WithdrawalBundleTracker};
use bip300301_enforcer::rpc::{
    admit_submission, decode_bundle_transaction, list_sidechain_deposit_transactions,
    read_submission, record_submission, ChainPosition, Confirmation, DepositTransaction,
    ListFailure, OutPoint, RpcErrorCode, SubmitFailure, Submission, Transaction, TxIn, TxOut,
    WalletTransaction,
};
use bip300301_enforcer::types::{M6id, SidechainNumber};

/// Version 1, one input that spends nothing, one empty output, no lock time.
fn transaction_hex() -> String {
    let mut hex = String::new();
    hex.push_str("01000000");
    hex.push_str("01");
    hex.push_str(&"00".repeat(32));
    hex.push_str("ffffffff");
    hex.push_str("00");
    hex.push_str("ffffffff");
    hex.push_str("01");
    hex.push_str("0a00000000000000");
    hex.push_str("00");
    hex.push_str("00000000");
    hex
}

#[test]
fn error_codes_are_those_of_json_rpc() {
    assert_eq!(
        RpcErrorCode::InvalidParams.code(),
        jsonrpsee::types::ErrorCode::InvalidParams.code()
    );
    assert_eq!(
        RpcErrorCode::InternalError.code(),
        jsonrpsee::types::ErrorCode::InternalError.code()
    );
    assert_eq!(RpcErrorCode::InvalidParams.code(), -32602);
    assert_eq!(RpcErrorCode::InternalError.code(), -32603);
}

/// The parts of a transaction as the `bitcoin` crate holds them.
fn parts(tx: &bitcoin::Transaction) -> Transaction {
    Transaction {
        version: tx.version.0,
        lock_time: tx.lock_time.to_consensus_u32(),
        input: tx
            .input
            .iter()
            .map(|input| TxIn {
                previous_output: OutPoint {
                    txid: bitcoin::hashes::Hash::to_byte_array(input.previous_output.txid),
                    vout: input.previous_output.vout,
                },
                script_sig: input.script_sig.to_bytes(),
                sequence: input.sequence.0,
                witness: input.witness.to_vec(),
            })
            .collect(),
        output: tx
            .output
            .iter()
            .map(|output| TxOut {
                value: output.value.to_sat(),
                script_pubkey: output.script_pubkey.to_bytes(),
            })
            .collect(),
    }
}

#[test]
fn well_formed_transaction_is_decoded() {
    let hex = transaction_hex();
    let decoded = decode_bundle_transaction(&hex).expect("decodes");
    assert_eq!(
        decoded,
        Transaction {
            version: 1,
            lock_time: 0,
            input: vec![TxIn {
                previous_output: OutPoint { txid: [0; 32], vout: 0xffff_ffff },
                script_sig: vec![],
                sequence: 0xffff_ffff,
                witness: vec![],
            }],
            output: vec![TxOut { value: 10, script_pubkey: vec![] }],
        }
    );
    let bytes = hex::decode(&hex).unwrap();
    let expected: bitcoin::Transaction = bitcoin::consensus::deserialize(&bytes).unwrap();
    assert_eq!(decoded, parts(&expected));
}

#[test]
fn every_part_of_a_transaction_is_read() {
    // Version 2, with witness data: two inputs, two outputs, a lock time.
    let mut hex = String::new();
    hex.push_str("02000000");
    hex.push_str("0001");
    hex.push_str("02");
    hex.push_str(&"11".repeat(32));
    hex.push_str("01000000");
    hex.push_str("02abcd");
    hex.push_str("feffffff");
    hex.push_str(&"22".repeat(32));
    hex.push_str("07000000");
    hex.push_str("00");
    hex.push_str("fdffffff");
    hex.push_str("02");
    hex.push_str("e803000000000000");
    hex.push_str("03b40351");
    hex.push_str("0100000000000000");
    hex.push_str("016a");
    hex.push_str("00");
    hex.push_str("02");
    hex.push_str("01aa");
    hex.push_str("020102");
    hex.push_str("15cd5b07");
    let decoded = decode_bundle_transaction(&hex).expect("decodes");
    assert_eq!(
        decoded,
        Transaction {
            version: 2,
            lock_time: 123456789,
            input: vec![
                TxIn {
                    previous_output: OutPoint { txid: [0x11; 32], vout: 1 },
                    script_sig: vec![0xab, 0xcd],
                    sequence: 0xffff_fffe,
                    witness: vec![],
                },
                TxIn {
                    previous_output: OutPoint { txid: [0x22; 32], vout: 7 },
                    script_sig: vec![],
                    sequence: 0xffff_fffd,
                    witness: vec![vec![0xaa], vec![1, 2]],
                },
            ],
            output: vec![
                TxOut { value: 1000, script_pubkey: vec![0xb4, 0x03, 0x51] },
                TxOut { value: 1, script_pubkey: vec![0x6a] },
            ],
        }
    );
    let bytes = hex::decode(&hex).unwrap();
    let expected: bitcoin::Transaction = bitcoin::consensus::deserialize(&bytes).unwrap();
    assert_eq!(decoded, parts(&expected));
}

#[test]
fn submission_is_read_input_first() {
    assert_eq!(
        read_submission(Err("expected a number".to_owned())),
        Err(SubmitFailure::InvalidParams("expected a number".to_owned()))
    );
    assert_eq!(
        read_submission(Ok((3, "0g".to_owned()))),
        Err(SubmitFailure::InvalidHex("Invalid character 'g' at position 1".to_owned()))
    );
    match read_submission(Ok((3, "00".to_owned()))) {
        Err(SubmitFailure::InvalidTransaction(_)) => {}
        other => panic!("unexpected: {other:?}"),
    }
    let transaction = decode_bundle_transaction(&transaction_hex()).unwrap();
    assert_eq!(
        read_submission(Ok((3, transaction_hex()))),
        Ok(Submission { sidechain_number: 3, transaction })
    );
}

#[test]
fn malformed_bundle_without_a_wallet_is_still_the_callers_mistake() {
    for has_wallet in [false, true] {
        let failure = admit_submission(has_wallet, Err("wrong output layout".to_owned())).unwrap_err();
        assert_eq!(failure, SubmitFailure::InvalidBundle("wrong output layout".to_owned()));
        assert!(failure.into_rpc_error().is_client_input());
    }
    // Malformed input is found before a wallet is looked for at all.
    assert!(read_submission(Ok((3, "zz".to_owned()))).unwrap_err().into_rpc_error().is_client_input());
}

#[test]
fn well_formed_bundle_without_a_wallet_is_the_services_failure() {
    let bundle = (M6id([7; 32]), vec![1, 2, 3]);
    let failure = admit_submission(false, Ok(bundle.clone())).unwrap_err();
    assert_eq!(failure, SubmitFailure::WalletMissing);
    assert!(!failure.into_rpc_error().is_client_input());
    assert_eq!(admit_submission(true, Ok(bundle.clone())), Ok(bundle));
}

#[test]
fn upper_case_hex_is_decoded_too() {
    let lower = decode_bundle_transaction(&transaction_hex()).unwrap();
    let upper = decode_bundle_transaction(&transaction_hex().to_uppercase()).unwrap();
    assert_eq!(lower, upper);
}

#[test]
fn odd_number_of_digits_is_bad_hex() {
    let mut hex = transaction_hex();
    hex.push('0');
    let failure = decode_bundle_transaction(&hex).unwrap_err();
    assert_eq!(failure, SubmitFailure::InvalidHex(hex::FromHexError::OddLength.to_string()));
    let error = failure.into_rpc_error();
    assert_eq!(error.code, RpcErrorCode::InvalidParams);
    assert!(error.is_client_input());
    assert_eq!(error.message, "Invalid transaction hex: Odd number of digits");
}

#[test]
fn foreign_character_is_bad_hex() {
    let failure = decode_bundle_transaction("01g0").unwrap_err();
    assert_eq!(
        failure,
        SubmitFailure::InvalidHex(
            hex::FromHexError::InvalidHexCharacter { c: 'g', index: 2 }.to_string()
        )
    );
    assert_eq!(
        failure.into_rpc_error().message,
        "Invalid transaction hex: Invalid character 'g' at position 2"
    );
}

#[test]
fn hex_that_is_no_transaction_is_a_bad_encoding() {
    for hex in ["", "00", "0100000001", &transaction_hex()[..40]] {
        let failure = decode_bundle_transaction(hex).unwrap_err();
        let bytes = hex::decode(hex).unwrap();
        let expected = bitcoin::consensus::deserialize::<bitcoin::Transaction>(&bytes).unwrap_err();
        assert_eq!(failure, SubmitFailure::InvalidTransaction(expected.to_string()));
        let error = failure.into_rpc_error();
        assert_eq!(error.code, RpcErrorCode::InvalidParams);
        assert_eq!(error.message, format!("Invalid transaction format: {expected}"));
    }
}

#[test]
fn bytes_left_over_are_a_bad_encoding() {
    let mut hex = transaction_hex();
    hex.push_str("00");
    match decode_bundle_transaction(&hex) {
        Err(SubmitFailure::InvalidTransaction(_)) => {}
        other => panic!("unexpected: {other:?}"),
    }
}

#[test]
fn structurally_invalid_bundle_is_the_callers_mistake() {
    // The transaction itself is well formed.
    assert!(decode_bundle_transaction(&transaction_hex()).is_ok());
    let mut tracker = WithdrawalBundleTracker::new();
    let complaint = "wrong output layout".to_owned();
    let failure = record_submission(&mut tracker, 3, Err(complaint)).unwrap_err();
    assert_eq!(failure, SubmitFailure::InvalidBundle("wrong output layout".to_owned()));
    let error = failure.into_rpc_error();
    assert!(error.is_client_input());
    assert_eq!(error.code.code(), -32602);
    assert_eq!(error.message, "Invalid withdrawal bundle format: wrong output layout");
    for sidechain in 0..=255u8 {
        assert!(tracker.pending_bundles(&SidechainNumber(sidechain)).is_empty());
    }
}

#[test]
fn well_formed_bundle_is_pending_afterwards() {
    let mut tracker = WithdrawalBundleTracker::new();
    let m6id = M6id([7; 32]);
    let recorded = record_submission(&mut tracker, 3, Ok((m6id, vec![1, 2, 3])));
    assert_eq!(recorded, Ok(m6id));
    assert!(tracker.is_pending(&SidechainNumber(3), &m6id));
    let pending: Vec<PendingBundleProposal> =
        tracker.pending_bundles(&SidechainNumber(3)).into_iter().cloned().collect();
    assert_eq!(
        pending,
        vec![PendingBundleProposal {
            sidechain_id: SidechainNumber(3),
            m6id,
            transaction: vec![1, 2, 3]
        }]
    );
    // To submit it again gives the same id and records nothing new.
    assert_eq!(record_submission(&mut tracker, 3, Ok((m6id, vec![1, 2, 3]))), Ok(m6id));
    assert_eq!(tracker.pending_bundles(&SidechainNumber(3)).len(), 1);
}

#[test]
fn submit_failures_are_sorted_into_input_and_internal() {
    let detail = || "d".to_owned();
    let cases = [
        (SubmitFailure::WalletMissing, false, "Wallet not found in context".to_owned()),
        (SubmitFailure::InvalidParams(detail()), true, "Invalid parameters: d".to_owned()),
        (SubmitFailure::InvalidHex(detail()), true, "Invalid transaction hex: d".to_owned()),
        (
            SubmitFailure::InvalidTransaction(detail()),
            true,
            "Invalid transaction format: d".to_owned(),
        ),
        (
            SubmitFailure::InvalidBundle(detail()),
            true,
            "Invalid withdrawal bundle format: d".to_owned(),
        ),
        (SubmitFailure::PutFailed(detail()), false, "Failed to put withdrawal bundle: d".to_owned()),
    ];
    for (failure, client, message) in cases {
        let error = failure.into_rpc_error();
        assert_eq!(error.is_client_input(), client);
        assert_eq!(
            error.code,
            if client { RpcErrorCode::InvalidParams } else { RpcErrorCode::InternalError }
        );
        assert_eq!(error.message, message);
    }
}

#[test]
fn list_failures_are_internal() {
    let missing = ListFailure::WalletMissing.into_rpc_error();
    assert_eq!(missing.code, RpcErrorCode::InternalError);
    assert_eq!(missing.message, "Wallet not found in context");
    let failed = ListFailure::ListFailed("locked".to_owned()).into_rpc_error();
    assert_eq!(failed.code, RpcErrorCode::InternalError);
    assert!(!failed.is_client_input());
    assert_eq!(failed.message, "Failed to list transactions: locked");
}

fn wallet_tx(byte: u8, sidechain: Option<u8>, position: ChainPosition) -> WalletTransaction {
    WalletTransaction {
        txid: [byte; 32],
        treasury_sidechain: sidechain.map(SidechainNumber),
        fee_sats: 100 + byte as u64,
        received_sats: 200 + byte as u64,
        sent_sats: 300 + byte as u64,
        chain_position: position,
    }
}

#[test]
fn deposits_are_the_transactions_tagged_with_a_sidechain() {
    let confirmation = Confirmation { height: 9, block_hash: [9; 32], timestamp: 1700000000 };
    let transactions = [
        wallet_tx(1, None, ChainPosition::Unconfirmed),
        wallet_tx(2, Some(3), ChainPosition::Confirmed(confirmation)),
        wallet_tx(3, Some(0), ChainPosition::Unconfirmed),
        wallet_tx(4, None, ChainPosition::Confirmed(confirmation)),
        wallet_tx(5, Some(255), ChainPosition::Unconfirmed),
    ];
    assert_eq!(
        list_sidechain_deposit_transactions(&transactions),
        vec![
            DepositTransaction {
                sidechain_number: 3,
                txid: [2; 32],
                fee_sats: 102,
                received_sats: 202,
                sent_sats: 302,
                confirmation: Some(confirmation),
            },
            DepositTransaction {
                sidechain_number: 0,
                txid: [3; 32],
                fee_sats: 103,
                received_sats: 203,
                sent_sats: 303,
                confirmation: None,
            },
            DepositTransaction {
                sidechain_number: 255,
                txid: [5; 32],
                fee_sats: 105,
                received_sats: 205,
                sent_sats: 305,
                confirmation: None,
            },
        ]
    );
}

#[test]
fn no_transactions_no_deposits() {
    assert_eq!(list_sidechain_deposit_transactions(&[]), vec![]);
    assert_eq!(
        list_sidechain_deposit_transactions(&[wallet_tx(1, None, ChainPosition::Unconfirmed)]),
        vec![]
    );
}
