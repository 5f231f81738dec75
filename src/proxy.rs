//! The out-of-band delivery proxy: where consignments are posted and fetched,
//! and the JSON-RPC calls that do it.
use vstd::prelude::*;
use crate::encoding::{network_named, parse_network};
use crate::types::{BlindedUtxoParam, JsonRpcRequest, Network};

verus! {

/// Seconds an exchange with the proxy may take.
pub const PROXY_TIMEOUT: u8 = 90;

/// Where consignments are delivered, on one network.
#[derive(Clone, Debug)]
pub struct ConsignmentClient {
    pub network: Network,
    pub url: String,
}

/// Why a delivery client could not be set up.
#[derive(Clone, Copy, Debug, PartialEq, Eq, Structural)]
pub enum ClientError {
    /// The name is none of `bitcoin`, `testnet`, `signet`, `regtest`.
    UnknownNetwork,
}

/// The parameters of a consignment post.
#[derive(Clone, Debug)]
pub struct ConsignmentPost {
    pub recipient_id: String,
    pub txid: String,
    pub vout: Option<u32>,
}

impl ConsignmentClient {
    /// A client for the named network, with no proxy URL set yet.
    pub fn new(network: &str) -> (r: Result<ConsignmentClient, ClientError>)
        ensures
            match network_named(network@) {
                Some(n) => r matches Ok(c) && c.network == n && c.url@.len() == 0,
                None => r == Err::<ConsignmentClient, ClientError>(ClientError::UnknownNetwork),
            },
    {
        match parse_network(network) {
            Some(n) => Ok(ConsignmentClient { network: n, url: String::new() }),
            None => Err(ClientError::UnknownNetwork),
        }
    }

    /// The JSON-RPC request that fetches a consignment by its id.
    pub fn consignment_get_request(&self, consignment_id: &str) -> (r: JsonRpcRequest<BlindedUtxoParam>)
        ensures
            r.method@ == "consignment.get"@,
            r.jsonrpc@ == "2.0"@,
            r.id is None,
            r.params matches Some(p) && p.blinded_utxo@ == consignment_id@,
    {
        JsonRpcRequest {
            method: String::from_str("consignment.get"),
            jsonrpc: String::from_str("2.0"),
            id: None,
            params: Some(BlindedUtxoParam { blinded_utxo: String::from_str(consignment_id) }),
        }
    }

    /// The parameters that post the consignment of a funding transaction: the
    /// recipient and the txid are both the transaction's id, and the vout is
    /// the holder's funding output.
    pub fn funding_post(&self, txid: &String, holder_vout: u32) -> (r: ConsignmentPost)
        ensures
            r.recipient_id@ == txid@,
            r.txid@ == txid@,
            r.vout == Some(holder_vout),
    {
        ConsignmentPost { recipient_id: txid.clone(), txid: txid.clone(), vout: Some(holder_vout) }
    }
}

} // verus!
