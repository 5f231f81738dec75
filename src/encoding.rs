//! Hex text and Bitcoin transaction decoding, as the wallet and the host
//! exchange them.
use vstd::prelude::*;
use crate::commitment::{PrevOut, TxOutput, TxSkeleton, TxSkeletonView};
use crate::types::Network;

verus! {

/// The value of a hex digit, either case.
pub open spec fn hex_digit_value(c: char) -> Option<u8> {
    if '0' <= c && c <= '9' {
        Some((c as int - '0' as int) as u8)
    } else if 'a' <= c && c <= 'f' {
        Some((c as int - 'a' as int + 10) as u8)
    } else if 'A' <= c && c <= 'F' {
        Some((c as int - 'A' as int + 10) as u8)
    } else {
        None
    }
}

/// The bytes that a hex text spells, two digits per byte, high digit first;
/// `None` for an odd length or a character that is no hex digit.
pub open spec fn hex_decoded(s: Seq<char>) -> Option<Seq<u8>> {
    if s.len() % 2 == 0 && forall|i: int| 0 <= i < s.len() ==> (#[trigger] hex_digit_value(s[i])) is Some {
        Some(
            Seq::new(
                (s.len() / 2) as nat,
                |i: int| (hex_digit_value(s[2 * i])->Some_0 * 16 + hex_digit_value(s[2 * i + 1])->Some_0) as u8,
            ),
        )
    } else {
        None
    }
}

/// The lower-case hex digit of a value below 16.
pub open spec fn hex_char(v: int) -> char {
    if v < 10 {
        ('0' as int + v) as char
    } else {
        ('a' as int + v - 10) as char
    }
}

/// Lower-case hex text of bytes, high digit first.
pub open spec fn hex_encoded(b: Seq<u8>) -> Seq<char> {
    Seq::new(
        2 * b.len(),
        |i: int| if i % 2 == 0 { hex_char(b[i / 2] as int / 16) } else { hex_char(b[i / 2] as int % 16) },
    )
}

/// What decoding a consensus-encoded transaction gives: its txid as
/// displayed (hex, reversed byte order) and its inputs and outputs.
pub uninterp spec fn decoded_tx_of(raw: Seq<u8>) -> Option<(Seq<char>, TxSkeletonView)>;

/// The txid of the transaction in a base64 PSBT, as displayed.
pub uninterp spec fn psbt_txid_of(text: Seq<char>) -> Option<Seq<char>>;

/// The network that a name designates.
pub open spec fn network_named(s: Seq<char>) -> Option<Network> {
    if s == "bitcoin"@ {
        Some(Network::Bitcoin)
    } else if s == "testnet"@ {
        Some(Network::Testnet)
    } else if s == "signet"@ {
        Some(Network::Signet)
    } else if s == "regtest"@ {
        Some(Network::Regtest)
    } else {
        None
    }
}

/// Relies on `hex::decode`: both cases accepted, error on an odd length or a
/// non-digit.
#[verifier::external_body]
pub(crate) fn decode_hex(s: &str) -> (r: Option<Vec<u8>>)
    ensures
        match r {
            Some(v) => hex_decoded(s@) == Some(v@),
            None => hex_decoded(s@) is None,
        },
{
    hex::decode(s).ok()
}

/// Relies on `hex::encode`: lower-case digits, two per byte.
#[verifier::external_body]
pub(crate) fn encode_hex(b: &[u8]) -> (r: String)
    ensures
        r@ == hex_encoded(b@),
{
    hex::encode(b)
}

/// Relies on `bitcoin::consensus::deserialize` of a `Transaction` (all bytes
/// consumed) and on `Transaction::txid`.
#[verifier::external_body]
pub(crate) fn decode_transaction(raw: &[u8]) -> (r: Option<(String, TxSkeleton)>)
    ensures
        match r {
            Some((txid, tx)) => decoded_tx_of(raw@) == Some((txid@, tx@)),
            None => decoded_tx_of(raw@) is None,
        },
{
    let tx: bitcoin::Transaction = bitcoin::consensus::deserialize(raw).ok()?;
    let inputs = tx.input.iter().map(|i| PrevOut {
        txid: bitcoin::hashes::Hash::to_byte_array(i.previous_output.txid),
        vout: i.previous_output.vout,
    }).collect();
    let outputs = tx.output.iter().map(|o| TxOutput { value: o.value, script: o.script_pubkey.to_bytes() }).collect();
    Some((tx.txid().to_string(), TxSkeleton { inputs, outputs }))
}

/// Relies on `PartiallySignedTransaction::from_str` (base64) and on the txid
/// of the transaction that `extract_tx` gives.
#[verifier::external_body]
pub(crate) fn psbt_txid(text: &str) -> (r: Option<String>)
    ensures
        match r {
            Some(t) => psbt_txid_of(text@) == Some(t@),
            None => psbt_txid_of(text@) is None,
        },
{
    <bitcoin::psbt::PartiallySignedTransaction as std::str::FromStr>::from_str(text).ok().map(
        |p| p.extract_tx().txid().to_string(),
    )
}

/// Relies on `bitcoin::Network::from_str`: the four lower-case names.
#[verifier::external_body]
pub(crate) fn parse_network(s: &str) -> (r: Option<Network>)
    ensures
        r == network_named(s@),
{
    match <bitcoin::Network as std::str::FromStr>::from_str(s) {
        Ok(bitcoin::Network::Bitcoin) => Some(Network::Bitcoin),
        Ok(bitcoin::Network::Testnet) => Some(Network::Testnet),
        Ok(bitcoin::Network::Signet) => Some(Network::Signet),
        Ok(bitcoin::Network::Regtest) => Some(Network::Regtest),
        _ => None,
    }
}

} // verus!
