//! Wallet setup rules: which services a network uses and which account key
//! the node derives.
use vstd::prelude::*;
use crate::commitment::STATIC_BLINDING;
use crate::types::{Network, RgbInfo};

verus! {

/// Flag of a hardened BIP-32 child index.
pub const HARDENED: u32 = 0x8000_0000;

/// BIP-84 purpose.
pub const PURPOSE: u32 = 84;

/// The account the node's wallet uses.
pub const ACCOUNT: u32 = 0;

/// Allocations a single UTXO may carry.
pub const MAX_ALLOCATIONS_PER_UTXO: u32 = 11;

/// Size of each UTXO made ready to receive assets, in satoshi.
pub const UTXO_SIZE_SAT: u32 = 32000;

/// The BIP-44 coin type: 0 on mainnet, 1 on every test network.
pub open spec fn coin_type(network: Network) -> u32 {
    if network == Network::Bitcoin {
        0
    } else {
        1
    }
}

/// The hardened path `84'/coin'/0'` of the account key.
pub open spec fn account_path(network: Network) -> Seq<u32> {
    seq![
        (HARDENED + PURPOSE) as u32,
        (HARDENED + coin_type(network)) as u32,
        (HARDENED + ACCOUNT) as u32,
    ]
}

/// The coin type of a network.
pub fn get_coin_type(network: Network) -> (r: u32)
    ensures
        r == coin_type(network),
{
    if network != Network::Bitcoin {
        1
    } else {
        0
    }
}

/// The hardened path `84'/coin'/0'` of the account key, each step with the
/// hardened flag set.
pub fn account_derivation_path(network: Network) -> (r: Vec<u32>)
    ensures
        r@ == account_path(network),
{
    let coin = get_coin_type(network);
    let mut path: Vec<u32> = Vec::new();
    path.push(HARDENED + PURPOSE);
    path.push(HARDENED + coin);
    path.push(HARDENED + ACCOUNT);
    assert(path@ =~= account_path(network));
    path
}

/// The services a wallet talks to on one network.
#[derive(Clone, Debug)]
pub struct Endpoints {
    /// The Electrum server that the wallet syncs from.
    pub electrum_url: String,
    /// The proxy that consignments are delivered through.
    pub proxy_url: String,
}

/// Why a wallet could not be set up.
#[derive(Clone, Copy, Debug, PartialEq, Eq, Structural)]
pub enum WalletError {
    /// No services are known for the network.
    UnsupportedNetwork,
}

/// The Electrum server and the proxy of a network, where the node knows them.
pub open spec fn endpoints_of(network: Network) -> Option<(Seq<char>, Seq<char>)> {
    match network {
        Network::Testnet => Some(("ssl://electrum.iriswallet.com:50013"@, "rpcs://proxy.iriswallet.com/0.2/json-rpc"@)),
        Network::Regtest => Some(("127.0.0.1:50001"@, "rpc://127.0.0.1:3000/json-rpc"@)),
        _ => None,
    }
}

/// The services of a network: known on testnet and regtest only.
pub fn network_endpoints(network: Network) -> (r: Result<Endpoints, WalletError>)
    ensures
        match endpoints_of(network) {
            Some((e, p)) => r matches Ok(ep) && ep.electrum_url@ == e && ep.proxy_url@ == p,
            None => r == Err::<Endpoints, WalletError>(WalletError::UnsupportedNetwork),
        },
{
    match network {
        Network::Testnet => Ok(Endpoints {
            electrum_url: String::from_str("ssl://electrum.iriswallet.com:50013"),
            proxy_url: String::from_str("rpcs://proxy.iriswallet.com/0.2/json-rpc"),
        }),
        Network::Regtest => Ok(Endpoints {
            electrum_url: String::from_str("127.0.0.1:50001"),
            proxy_url: String::from_str("rpc://127.0.0.1:3000/json-rpc"),
        }),
        _ => Err(WalletError::UnsupportedNetwork),
    }
}

/// The recipient of a channel's funding transfer: the asset goes to the
/// channel's funding script, witness-style, blinded with the static factor.
#[derive(Clone, Debug)]
pub struct FundingRecipient {
    /// The funding output's script.
    pub script: Vec<u8>,
    /// Satoshi carried by the witness output.
    pub amount_sat: u64,
    pub blinding: u64,
    /// Asset amount sent.
    pub amount: u64,
    /// Where the consignment is delivered.
    pub transport_endpoints: Vec<String>,
}

/// The recipient that funds a channel: the local amount of the allocation is
/// sent to the funding script, whose output carries `amount_sat` satoshi, and
/// the consignment goes through the given proxy.
pub fn funding_recipient(
    info: &RgbInfo,
    script: Vec<u8>,
    amount_sat: u64,
    proxy_url: &String,
) -> (r: FundingRecipient)
    ensures
        r.script@ == script@,
        r.amount_sat == amount_sat,
        r.blinding == STATIC_BLINDING,
        r.amount == info.local_rgb_amount,
        r.transport_endpoints@.len() == 1,
        r.transport_endpoints@[0]@ == proxy_url@,
{
    let mut endpoints: Vec<String> = Vec::new();
    endpoints.push(proxy_url.clone());
    FundingRecipient {
        script,
        amount_sat,
        blinding: STATIC_BLINDING,
        amount: info.local_rgb_amount,
        transport_endpoints: endpoints,
    }
}

} // verus!
