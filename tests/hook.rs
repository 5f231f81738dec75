use rgb_common::commitment::{CommitmentError, StateEntry, PrevOut};
use rgb_common::hook::{funding_tx_hook, funding_tx_inputs, HookError, HookReply};
use rgb_common::proxy::{ClientError, ConsignmentClient};
use rgb_common::storage::{InMemoryStorage, RGBStorage};
use rgb_common::types::{ContractId, Network, OutPoint, RgbInfo};

fn sample_tx() -> bitcoin::Transaction {
    bitcoin::Transaction {
        version: 2,
        lock_time: bitcoin::absolute::LockTime::ZERO,
        input: vec![bitcoin::TxIn {
            previous_output: bitcoin::OutPoint { txid: <bitcoin::Txid as bitcoin::hashes::Hash>::from_byte_array([4u8; 32]), vout: 1 },
            script_sig: bitcoin::ScriptBuf::new(),
            sequence: bitcoin::Sequence::MAX,
            witness: bitcoin::Witness::new(),
        }],
        output: vec![
            bitcoin::TxOut { value: 100_000, script_pubkey: bitcoin::ScriptBuf::from(vec![0x00, 0x14, 0x01]) },
            bitcoin::TxOut { value: 5_000, script_pubkey: bitcoin::ScriptBuf::from(vec![0x00, 0x14, 0x02]) },
        ],
    }
}

fn encoded(tx: &bitcoin::Transaction) -> (String, String, String) {
    let hex = bitcoin::consensus::encode::serialize_hex(tx);
    let txid = tx.txid().to_string();
    let psbt = bitcoin::psbt::PartiallySignedTransaction::from_unsigned_tx(tx.clone()).unwrap().to_string();
    (hex, txid, psbt)
}

fn state() -> Vec<StateEntry> {
    vec![StateEntry { outpoint: PrevOut { txid: [4u8; 32], vout: 1 }, amount: 30000 }]
}

fn pending_store() -> InMemoryStorage {
    let mut store = InMemoryStorage::new();
    let info = RgbInfo {
        channel_id: "chan".to_owned(),
        contract_id: ContractId { bytes: [3u8; 32] },
        local_rgb_amount: 600,
        remote_rgb_amount: 400,
    };
    store.write_rgb_info("chan", true, &info);
    store
}

fn outpoint() -> OutPoint {
    OutPoint { txid: [9u8; 32], index: 0 }
}

#[test]
fn channel_without_pending_entry_passes_through_unchanged() {
    let store = InMemoryStorage::new();
    let tx = "not even hex".to_owned();
    let txid = "whatever".to_owned();
    let psbt = "cHNidP8BAA==".to_owned();
    match funding_tx_hook(&store, "chan", &tx, &txid, &psbt, outpoint(), 0, &state(), Some(2)) {
        Ok(HookReply::Unchanged { tx: t, psbt: p }) => {
            assert_eq!(t.as_bytes(), tx.as_bytes());
            assert_eq!(p.as_bytes(), psbt.as_bytes());
        }
        _ => panic!("expected the input back"),
    }
}

#[test]
fn pending_channel_is_colored_with_recorded_amounts() {
    let store = pending_store();
    let (hex, txid, psbt) = encoded(&sample_tx());
    match funding_tx_hook(&store, "chan", &hex, &txid, &psbt, outpoint(), 0, &state(), Some(2)) {
        Ok(HookReply::Colored(c)) => {
            assert_eq!(c.tx.outputs.len(), 3);
            assert_eq!(c.tx.outputs[0].value, 100_000);
            assert_eq!(c.tx.outputs[0].script, vec![0x00, 0x14, 0x01]);
            assert_eq!(c.tx.outputs[2].script, vec![0x6a, 0x01, 0x01]);
            assert_eq!(c.tx.inputs[0].txid, [4u8; 32]);
            assert_eq!(c.tx.inputs[0].vout, 1);
            let amounts: Vec<(u32, u64)> = c.transition.beneficiaries.iter().map(|s| (s.vout, s.amount)).collect();
            assert_eq!(amounts, vec![(0, 600), (1, 400)]);
        }
        _ => panic!("expected a colored transaction"),
    }
}

#[test]
fn hook_refuses_bad_hex() {
    let store = pending_store();
    let (_, txid, psbt) = encoded(&sample_tx());
    let r = funding_tx_hook(&store, "chan", &"abc".to_owned(), &txid, &psbt, outpoint(), 0, &state(), Some(2));
    assert!(matches!(r, Err(HookError::BadHex)));
    let r = funding_tx_hook(&store, "chan", &"zz".to_owned(), &txid, &psbt, outpoint(), 0, &state(), Some(2));
    assert!(matches!(r, Err(HookError::BadHex)));
}

#[test]
fn hook_refuses_undecodable_transaction() {
    let store = pending_store();
    let (_, txid, psbt) = encoded(&sample_tx());
    let r = funding_tx_hook(&store, "chan", &"00ff".to_owned(), &txid, &psbt, outpoint(), 0, &state(), Some(2));
    assert!(matches!(r, Err(HookError::BadTransaction)));
}

#[test]
fn hook_refuses_wrong_declared_txid() {
    let store = pending_store();
    let (hex, txid, psbt) = encoded(&sample_tx());
    let wrong = "00".repeat(32);
    assert_ne!(wrong, txid);
    let r = funding_tx_hook(&store, "chan", &hex, &wrong, &psbt, outpoint(), 0, &state(), Some(2));
    assert!(matches!(r, Err(HookError::TxidMismatch)));
}

#[test]
fn hook_refuses_psbt_of_another_transaction() {
    let store = pending_store();
    let (hex, txid, _) = encoded(&sample_tx());
    let mut other = sample_tx();
    other.output[1].value = 4_000;
    let (_, _, other_psbt) = encoded(&other);
    let r = funding_tx_hook(&store, "chan", &hex, &txid, &other_psbt, outpoint(), 0, &state(), Some(2));
    assert!(matches!(r, Err(HookError::PsbtMismatch)));
    let r = funding_tx_hook(&store, "chan", &hex, &txid, &"%%%".to_owned(), outpoint(), 0, &state(), Some(2));
    assert!(matches!(r, Err(HookError::BadPsbt)));
}

#[test]
fn hook_reports_coloring_failure() {
    let store = pending_store();
    let (hex, txid, psbt) = encoded(&sample_tx());
    let r = funding_tx_hook(&store, "chan", &hex, &txid, &psbt, outpoint(), 0, &Vec::new(), Some(2));
    assert!(matches!(r, Err(HookError::Commitment(CommitmentError::MissingInputState))));
}

#[test]
fn client_knows_the_four_networks() {
    assert_eq!(ConsignmentClient::new("regtest").unwrap().network, Network::Regtest);
    assert_eq!(ConsignmentClient::new("bitcoin").unwrap().network, Network::Bitcoin);
    assert_eq!(ConsignmentClient::new("testnet").unwrap().network, Network::Testnet);
    assert_eq!(ConsignmentClient::new("signet").unwrap().network, Network::Signet);
    assert!(ConsignmentClient::new("regtest").unwrap().url.is_empty());
    assert!(matches!(ConsignmentClient::new("mainnet"), Err(ClientError::UnknownNetwork)));
}

#[test]
fn consignment_requests_carry_the_ids() {
    let client = ConsignmentClient::new("regtest").unwrap();
    let req = client.consignment_get_request("utxob:abc");
    assert_eq!(req.method, "consignment.get");
    assert_eq!(req.jsonrpc, "2.0");
    assert!(req.id.is_none());
    assert_eq!(req.params.unwrap().blinded_utxo, "utxob:abc");
    let post = client.funding_post(&"ff".to_owned(), 1);
    assert_eq!(post.recipient_id, "ff");
    assert_eq!(post.txid, "ff");
    assert_eq!(post.vout, Some(1));
}

#[test]
fn funding_tx_inputs_lists_the_spent_outputs() {
    let (hex, _, _) = encoded(&sample_tx());
    let inputs = funding_tx_inputs(&hex).unwrap();
    assert_eq!(inputs.len(), 1);
    assert_eq!(inputs[0].txid, [4u8; 32]);
    assert_eq!(inputs[0].vout, 1);
    assert!(funding_tx_inputs(&"zz".to_owned()).is_none());
    assert!(funding_tx_inputs(&"00ff".to_owned()).is_none());
}
