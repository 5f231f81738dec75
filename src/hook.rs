//! The host-driven path: the host proposes an unsigned funding transaction
//! that this node did not originate, and it is colored only when the channel
//! already has a pending allocation.
use vstd::prelude::*;
use crate::commitment::{
    colored_funding, coloring_of, ColoredFunding, ColoredFundingView, CommitmentError, PrevOut, StateEntry,
};
use crate::encoding::{decode_hex, decode_transaction, decoded_tx_of, hex_decoded, psbt_txid, psbt_txid_of};
use crate::storage::{in_partition, record_in, RGBStorage};
use crate::types::OutPoint;

verus! {

/// What the hook hands back to the host.
pub enum HookReply {
    /// The channel carries no asset: the transaction and PSBT, unchanged.
    Unchanged { tx: String, psbt: String },
    /// The transaction colored with the channel's pending allocation.
    Colored(ColoredFunding),
}

/// Why the host's funding transaction was refused.
#[derive(Clone, Copy, Debug, PartialEq, Eq, Structural)]
pub enum HookError {
    /// The transaction is not hex text.
    BadHex,
    /// The bytes do not decode to a transaction.
    BadTransaction,
    /// The declared txid is not the transaction's.
    TxidMismatch,
    /// The PSBT does not decode.
    BadPsbt,
    /// The PSBT holds another transaction.
    PsbtMismatch,
    /// Coloring failed.
    Commitment(CommitmentError),
}

/// The checks and the coloring of the hook, on the decoded values.
pub open spec fn hook_outcome(
    pending: bool,
    tx: Seq<char>,
    txid: Seq<char>,
    psbt: Seq<char>,
    coloring: spec_fn(crate::commitment::TxSkeletonView) -> Result<ColoredFundingView, CommitmentError>,
) -> Option<Result<ColoredFundingView, HookError>> {
    if !pending {
        None
    } else {
        Some(
            match hex_decoded(tx) {
                None => Err(HookError::BadHex),
                Some(raw) => match decoded_tx_of(raw) {
                    None => Err(HookError::BadTransaction),
                    Some((id, skeleton)) => if id != txid {
                        Err(HookError::TxidMismatch)
                    } else {
                        match psbt_txid_of(psbt) {
                            None => Err(HookError::BadPsbt),
                            Some(pid) => if pid != txid {
                                Err(HookError::PsbtMismatch)
                            } else {
                                match coloring(skeleton) {
                                    Ok(c) => Ok(c),
                                    Err(e) => Err(HookError::Commitment(e)),
                                }
                            },
                        }
                    },
                },
            },
        )
    }
}

/// Handle the host's unsigned funding transaction for `channel_id`.
///
/// Without a pending allocation for the channel the transaction and the PSBT
/// come back unchanged. Otherwise, before anything is changed, the declared
/// txid must be the transaction's own and the PSBT must hold the same
/// transaction; then the transaction is colored with the recorded allocation,
/// whose amounts are used as they stand.
pub fn funding_tx_hook<S: RGBStorage>(
    registry: &S,
    channel_id: &str,
    tx: &String,
    txid: &String,
    psbt: &String,
    funding_outpoint: OutPoint,
    holder_vout: u32,
    state: &Vec<StateEntry>,
    assignment_type: Option<u16>,
) -> (r: Result<HookReply, HookError>)
    requires
        registry.wf(),
    ensures
        !in_partition(*registry, channel_id@, true) ==> (r matches Ok(HookReply::Unchanged { tx: t, psbt: p })
            && t@ == tx@ && p@ == psbt@),
        in_partition(*registry, channel_id@, true) ==> {
            let expected = hook_outcome(
                true,
                tx@,
                txid@,
                psbt@,
                |s| coloring_of(s, funding_outpoint, record_in(*registry, channel_id@, true), holder_vout, state@, assignment_type),
            )->Some_0;
            match r {
                Ok(HookReply::Colored(c)) => expected == Ok::<ColoredFundingView, HookError>(c@),
                Ok(HookReply::Unchanged { .. }) => false,
                Err(e) => expected == Err::<ColoredFundingView, HookError>(e),
            }
        },
{
    let info = match registry.get_rgb_channel_info_pending(channel_id) {
        Ok(info) => info,
        Err(e) => {
            return Ok(HookReply::Unchanged { tx: tx.clone(), psbt: psbt.clone() });
        },
    };
    let raw = match decode_hex(tx.as_str()) {
        Some(raw) => raw,
        None => {
            return Err(HookError::BadHex);
        },
    };
    let (computed, skeleton) = match decode_transaction(raw.as_slice()) {
        Some(d) => d,
        None => {
            return Err(HookError::BadTransaction);
        },
    };
    if computed != *txid {
        return Err(HookError::TxidMismatch);
    }
    let from_psbt = match psbt_txid(psbt.as_str()) {
        Some(t) => t,
        None => {
            return Err(HookError::BadPsbt);
        },
    };
    if from_psbt != *txid {
        return Err(HookError::PsbtMismatch);
    }
    match colored_funding(&skeleton, funding_outpoint, &info, holder_vout, state, assignment_type) {
        Ok(c) => Ok(HookReply::Colored(c)),
        Err(e) => Err(HookError::Commitment(e)),
    }
}

/// The outputs that a hex-encoded transaction spends, so that the contract
/// state at them can be looked up before coloring; `None` when the text is
/// not a transaction.
pub fn funding_tx_inputs(tx: &String) -> (r: Option<Vec<PrevOut>>)
    ensures
        match hex_decoded(tx@) {
            Some(raw) => match decoded_tx_of(raw) {
                Some((_, skeleton)) => r matches Some(v) && v@ == skeleton.inputs,
                None => r is None,
            },
            None => r is None,
        },
{
    let raw = match decode_hex(tx.as_str()) {
        Some(raw) => raw,
        None => {
            return None;
        },
    };
    match decode_transaction(raw.as_slice()) {
        Some((_, skeleton)) => Some(skeleton.inputs),
        None => None,
    }
}

} // verus!
