//! Plain data carried through the funding workflow and the registry.
use vstd::prelude::*;

verus! {

/// Identifier of an issued asset's ledger: the 32 bytes of the genesis commitment.
#[derive(Clone, Copy, Debug)]
pub struct ContractId {
    pub bytes: [u8; 32],
}

/// How much of one contract's asset is bound to a channel, on each side.
#[derive(Clone, Debug)]
pub struct RgbInfo {
    /// Channel identifier (provisional until the host confirms the channel).
    pub channel_id: String,
    /// Contract whose asset the channel carries.
    pub contract_id: ContractId,
    /// Amount owned by this node, in the asset's smallest unit.
    pub local_rgb_amount: u64,
    /// Amount owned by the counterparty, in the asset's smallest unit.
    pub remote_rgb_amount: u64,
}

/// The mathematical value of an [`RgbInfo`].
pub struct RgbInfoView {
    pub channel_id: Seq<char>,
    pub contract_id: Seq<u8>,
    pub local_rgb_amount: u64,
    pub remote_rgb_amount: u64,
}

impl View for RgbInfo {
    type V = RgbInfoView;

    open spec fn view(&self) -> RgbInfoView {
        RgbInfoView {
            channel_id: self.channel_id@,
            contract_id: self.contract_id.bytes@,
            local_rgb_amount: self.local_rgb_amount,
            remote_rgb_amount: self.remote_rgb_amount,
        }
    }
}

impl RgbInfoView {
    /// The whole allocation committed on-chain for the channel.
    pub open spec fn total(self) -> int {
        self.local_rgb_amount + self.remote_rgb_amount
    }

    /// The same allocation under another channel identifier.
    pub open spec fn renamed(self, channel_id: Seq<char>) -> RgbInfoView {
        RgbInfoView { channel_id, ..self }
    }
}

impl RgbInfo {
    /// A fresh allocation for a new channel: everything on the local side.
    pub fn new(channel_id: String, contract_id: ContractId, local_rgb_amount: u64) -> (r: RgbInfo)
        ensures
            r.channel_id@ == channel_id@,
            r.contract_id == contract_id,
            r.local_rgb_amount == local_rgb_amount,
            r.remote_rgb_amount == 0,
    {
        RgbInfo { channel_id, contract_id, local_rgb_amount, remote_rgb_amount: 0 }
    }

    /// A copy of the record with the same value.
    pub fn duplicate(&self) -> (r: RgbInfo)
        ensures
            r@ == self@,
    {
        RgbInfo {
            channel_id: self.channel_id.clone(),
            contract_id: self.contract_id,
            local_rgb_amount: self.local_rgb_amount,
            remote_rgb_amount: self.remote_rgb_amount,
        }
    }
}

/// Payment data attached to an asset-carrying HTLC.
#[derive(Clone, Debug)]
pub struct RgbPaymentInfo {
    /// Contract of the asset being paid.
    pub contract_id: ContractId,
    /// Asset amount of the payment.
    pub amount: u64,
    /// Local asset amount of the channel.
    pub local_rgb_amount: u64,
    /// Remote asset amount of the channel.
    pub remote_rgb_amount: u64,
    /// Whether the asset amount along the route is overridden.
    pub override_route_amount: bool,
}

/// An on-chain asset transfer to a blinded UTXO.
#[derive(Clone, Debug)]
pub struct RGBSendAssetData {
    pub asset_id: String,
    pub amount: u64,
    pub blinded_utxo: String,
    pub donation: bool,
}

/// The output of a funding transaction that anchors a channel.
///
/// The index is a `u16`, as Lightning restricts funding output indexes.
#[derive(Clone, Copy, Debug)]
pub struct OutPoint {
    /// The referenced transaction's id, in internal byte order.
    pub txid: [u8; 32],
    /// The index of the referenced output.
    pub index: u16,
}

/// Balance query: one asset, or none for the on-chain balance alone.
#[derive(Clone, Debug)]
pub struct RGBBalanceRequest {
    pub asset_id: Option<String>,
}

/// Request to open a channel that carries an asset.
#[derive(Clone, Debug)]
pub struct RGBFundChannelRequest {
    pub peer_id: String,
    pub amount_msat: u64,
    pub asset_id: String,
}

/// Request to issue a new asset.
#[derive(Clone, Debug)]
pub struct NewAssetRequest {
    pub amounts: Vec<u64>,
    pub ticker: String,
    pub name: String,
    pub precision: u8,
}

/// Total supply of an issuance request: the sum of its amounts, if it fits in a `u64`.
pub open spec fn supply_of(amounts: Seq<u64>) -> int
    decreases amounts.len(),
{
    if amounts.len() == 0 {
        0
    } else {
        supply_of(amounts.drop_last()) + amounts.last()
    }
}

impl NewAssetRequest {
    /// The total supply that the issuance would create, or `None` when it exceeds `u64`.
    pub fn total_supply(&self) -> (r: Option<u64>)
        ensures
            match r {
                Some(t) => t == supply_of(self.amounts@),
                None => supply_of(self.amounts@) > u64::MAX,
            },
    {
        let mut total: u64 = 0;
        let mut i: usize = 0;
        while i < self.amounts.len()
            invariant
                i <= self.amounts@.len(),
                total == supply_of(self.amounts@.subrange(0, i as int)),
            decreases self.amounts@.len() - i,
        {
            let ghost prefix = self.amounts@.subrange(0, i as int + 1);
            assert(prefix.drop_last() == self.amounts@.subrange(0, i as int));
            let a = self.amounts[i];
            if total > u64::MAX - a {
                proof {
                    lemma_supply_monotone(self.amounts@, i as int + 1);
                }
                return None;
            }
            total = total + a;
            i = i + 1;
        }
        assert(self.amounts@.subrange(0, i as int) == self.amounts@);
        Some(total)
    }
}

/// The supply of a prefix never exceeds the supply of the whole list.
proof fn lemma_supply_monotone(amounts: Seq<u64>, n: int)
    requires
        0 <= n <= amounts.len(),
    ensures
        supply_of(amounts.subrange(0, n)) <= supply_of(amounts),
    decreases amounts.len(),
{
    if n < amounts.len() {
        let shorter = amounts.drop_last();
        assert(shorter.subrange(0, n) == amounts.subrange(0, n));
        lemma_supply_monotone(shorter, n);
    } else {
        assert(amounts.subrange(0, n) == amounts);
    }
}

/// A Bitcoin network.
#[derive(Clone, Copy, Debug, PartialEq, Eq, Structural)]
pub enum Network {
    Bitcoin,
    Testnet,
    Signet,
    Regtest,
}

/// Parameter of a consignment lookup at the delivery proxy.
#[derive(Clone, Debug)]
pub struct BlindedUtxoParam {
    pub blinded_utxo: String,
}

/// Error object of a JSON-RPC response.
#[derive(Clone, Debug)]
pub struct JsonRpcError {
    pub code: i64,
    pub message: String,
}

/// A JSON-RPC request.
#[derive(Clone, Debug)]
pub struct JsonRpcRequest<P> {
    pub method: String,
    pub jsonrpc: String,
    pub id: Option<String>,
    pub params: Option<P>,
}

/// A JSON-RPC response.
#[derive(Clone, Debug)]
pub struct JsonRpcResponse<R> {
    pub id: Option<String>,
    pub result: Option<R>,
    pub error: Option<JsonRpcError>,
}

} // verus!
