use rgb_common::commitment::{CommitmentError, PrevOut, StateEntry, TxOutput, TxSkeleton};
use rgb_common::orchestrator::{FundingAttempt, FundingError, FundingState, HostAction};
use rgb_common::storage::{InMemoryStorage, RGBStorage};
use rgb_common::types::{ContractId, OutPoint, RGBFundChannelRequest};

const C1: ContractId = ContractId { bytes: [0xc1; 32] };

fn request(amount: u64) -> RGBFundChannelRequest {
    RGBFundChannelRequest { peer_id: "peer-1".to_owned(), amount_msat: amount, asset_id: "rgb:C1".to_owned() }
}

fn skeleton() -> TxSkeleton {
    TxSkeleton {
        inputs: vec![PrevOut { txid: [4u8; 32], vout: 1 }],
        outputs: vec![
            TxOutput { value: 100_000, script: vec![0x00, 0x20, 0x01] },
            TxOutput { value: 5_000, script: vec![0x00, 0x14, 0x02] },
        ],
    }
}

fn state() -> Vec<StateEntry> {
    vec![StateEntry { outpoint: PrevOut { txid: [4u8; 32], vout: 1 }, amount: 30000 }]
}

/// A PSBT (base64) of a small transaction, and that transaction's txid.
fn psbt_and_txid() -> (String, String) {
    let tx = bitcoin::Transaction {
        version: 2,
        lock_time: bitcoin::absolute::LockTime::ZERO,
        input: vec![bitcoin::TxIn {
            previous_output: bitcoin::OutPoint {
                txid: <bitcoin::Txid as bitcoin::hashes::Hash>::from_byte_array([4u8; 32]),
                vout: 1,
            },
            script_sig: bitcoin::ScriptBuf::new(),
            sequence: bitcoin::Sequence::MAX,
            witness: bitcoin::Witness::new(),
        }],
        output: vec![bitcoin::TxOut { value: 100_000, script_pubkey: bitcoin::ScriptBuf::from(vec![0x00, 0x20, 0x01]) }],
    };
    let txid = tx.txid().to_string();
    let psbt = bitcoin::psbt::PartiallySignedTransaction::from_unsigned_tx(tx).unwrap().to_string();
    (psbt, txid)
}

fn outpoint() -> OutPoint {
    OutPoint { txid: [8u8; 32], index: 0 }
}

/// Drive an attempt up to the colored state.
fn colored_attempt(store: &mut InMemoryStorage) -> FundingAttempt {
    let mut attempt = FundingAttempt::new(&request(20000), Some(C1)).unwrap();
    match attempt.on_balance(30000) {
        Ok(HostAction::StartReservation { peer_id, amount }) => {
            assert_eq!(peer_id, "peer-1");
            assert_eq!(amount, 20000);
        }
        _ => panic!("expected a reservation request"),
    }
    match attempt.on_reserved("tmp-1".to_owned(), &skeleton(), outpoint(), 0, &state(), Some(1), store) {
        Ok(HostAction::CompleteFunding { peer_id, colored }) => {
            assert_eq!(peer_id, "peer-1");
            assert_eq!(colored.tx.outputs.len(), 3);
        }
        _ => panic!("expected a completion request"),
    }
    assert_eq!(attempt.state(), FundingState::Colored);
    assert!(store.is_channel_rgb("tmp-1", true));
    attempt
}

#[test]
fn undecodable_asset_is_rejected() {
    assert!(matches!(FundingAttempt::new(&request(1), None), Err(FundingError::InvalidAsset)));
}

#[test]
fn insufficient_balance_is_rejected_before_any_host_call() {
    let store = InMemoryStorage::new();
    let mut attempt = FundingAttempt::new(&request(50000), Some(C1)).unwrap();
    let r = attempt.on_balance(30000);
    assert!(matches!(r, Err(FundingError::InsufficientBalance { spendable: 30000, requested: 50000 })));
    assert_eq!(attempt.state(), FundingState::Rejected);
    assert!(!store.is_channel_rgb("tmp-1", true));
    assert!(store.get_assets_list().is_empty());
}

#[test]
fn successful_funding_confirms_the_allocation() {
    let mut store = InMemoryStorage::new();
    let mut attempt = colored_attempt(&mut store);
    let (psbt, txid) = psbt_and_txid();
    match attempt.on_completed(&"chan-final".to_owned(), &psbt, &mut store) {
        Ok(HostAction::Deliver { channel_id, contract_id, txid: posted, vout }) => {
            assert_eq!(channel_id, "chan-final");
            assert_eq!(contract_id.bytes, C1.bytes);
            assert_eq!(posted, txid);
            assert_eq!(vout, 0);
        }
        _ => panic!("expected delivery"),
    }
    assert_eq!(attempt.state(), FundingState::Finalized);
    let confirmed = store.get_rgb_channel_info("chan-final").unwrap();
    assert_eq!(confirmed.contract_id.bytes, C1.bytes);
    assert_eq!(confirmed.local_rgb_amount, 20000);
    assert_eq!(confirmed.remote_rgb_amount, 0);
    assert!(!store.is_channel_rgb("tmp-1", true));
    assert!(!store.is_channel_rgb("chan-final", true));
}

#[test]
fn failed_completion_cancels_with_the_same_peer() {
    let mut store = InMemoryStorage::new();
    let mut attempt = colored_attempt(&mut store);
    match attempt.on_completion_failed(&mut store) {
        Ok(HostAction::CancelReservation { peer_id }) => assert_eq!(peer_id, "peer-1"),
        _ => panic!("expected a cancellation"),
    }
    assert_eq!(attempt.state(), FundingState::Cancelled);
    assert_eq!(attempt.failure(), Some(FundingError::HostNegotiation));
    assert!(!store.is_channel_rgb("tmp-1", true));
    assert!(!store.is_channel_rgb("tmp-1", false));
    assert!(matches!(attempt.on_completed(&"chan".to_owned(), &psbt_and_txid().0, &mut store), Ok(HostAction::Nothing)));
    assert!(!store.is_channel_rgb("chan", false));
}

#[test]
fn failed_coloring_cancels_exactly_once() {
    let mut store = InMemoryStorage::new();
    let mut attempt = FundingAttempt::new(&request(20000), Some(C1)).unwrap();
    assert!(matches!(attempt.on_balance(30000), Ok(HostAction::StartReservation { .. })));
    let no_state: Vec<StateEntry> = Vec::new();
    let mut cancels = 0;
    match attempt.on_reserved("tmp-1".to_owned(), &skeleton(), outpoint(), 0, &no_state, Some(1), &mut store) {
        Ok(HostAction::CancelReservation { peer_id }) => {
            assert_eq!(peer_id, "peer-1");
            cancels += 1;
        }
        _ => panic!("expected a cancellation"),
    }
    assert_eq!(attempt.state(), FundingState::Cancelled);
    assert_eq!(attempt.failure(), Some(FundingError::Commitment(CommitmentError::MissingInputState)));
    assert!(!store.is_channel_rgb("tmp-1", true));
    for r in [
        attempt.on_completion_failed(&mut store),
        attempt.on_reserved("tmp-1".to_owned(), &skeleton(), outpoint(), 0, &state(), Some(1), &mut store),
        attempt.on_completed(&"c".to_owned(), &psbt_and_txid().0, &mut store),
        attempt.on_reservation_failed(),
        attempt.on_balance(u64::MAX),
    ] {
        if let Ok(HostAction::CancelReservation { .. }) = r {
            cancels += 1;
        }
    }
    assert_eq!(cancels, 1);
    assert_eq!(attempt.state(), FundingState::Cancelled);
    assert!(!store.is_channel_rgb("tmp-1", true));
}

#[test]
fn failed_reservation_needs_no_cancellation() {
    let mut attempt = FundingAttempt::new(&request(10), Some(C1)).unwrap();
    attempt.on_balance(10).unwrap();
    assert!(matches!(attempt.on_reservation_failed(), Err(FundingError::HostNegotiation)));
    assert_eq!(attempt.state(), FundingState::Rejected);
}

#[test]
fn undecodable_completed_psbt_still_confirms_but_reports_delivery() {
    let mut store = InMemoryStorage::new();
    let mut attempt = colored_attempt(&mut store);
    let r = attempt.on_completed(&"chan-x".to_owned(), &"not a psbt".to_owned(), &mut store);
    assert!(matches!(r, Err(FundingError::Delivery)));
    assert_eq!(attempt.state(), FundingState::Finalized);
    assert!(store.is_channel_rgb("chan-x", false));
    assert!(!store.is_channel_rgb("tmp-1", true));
}

#[test]
fn completed_attempt_without_pending_record_reports_storage() {
    let mut store = InMemoryStorage::new();
    let mut attempt = colored_attempt(&mut store);
    store.remove_rgb_info("tmp-1", true);
    let r = attempt.on_completed(&"chan-y".to_owned(), &psbt_and_txid().0, &mut store);
    assert!(matches!(r, Err(FundingError::Storage)));
    assert!(!store.is_channel_rgb("chan-y", false));
}

#[test]
fn rejection_keeps_its_cause() {
    let mut attempt = FundingAttempt::new(&request(50000), Some(C1)).unwrap();
    assert_eq!(attempt.failure(), None);
    let _ = attempt.on_balance(30000);
    assert_eq!(attempt.failure(), Some(FundingError::InsufficientBalance { spendable: 30000, requested: 50000 }));
}
