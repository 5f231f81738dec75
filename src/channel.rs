//! In-channel rebalancing of an asset allocation as HTLCs settle.
use vstd::prelude::*;
use crate::encoding::{encode_hex, hex_encoded};
use crate::types::{RgbInfo, RgbInfoView};

verus! {

/// The two sides of an allocation after settling HTLCs that offered `offered`
/// and received `received`, or `None` when a side would go negative or overflow.
pub open spec fn rebalanced(local: u64, remote: u64, offered: u64, received: u64) -> Option<(u64, u64)> {
    if offered > received {
        let spent = offered - received;
        if spent <= local && remote + spent <= u64::MAX {
            Some(((local - spent) as u64, (remote + spent) as u64))
        } else {
            None
        }
    } else {
        let gained = received - offered;
        if gained <= remote && local + gained <= u64::MAX {
            Some(((local + gained) as u64, (remote - gained) as u64))
        } else {
            None
        }
    }
}

/// Why a rebalancing was refused.
#[derive(Clone, Copy, Debug, PartialEq, Eq, Structural)]
pub enum RebalanceError {
    /// The paying side holds less than the net amount moved.
    InsufficientAmount,
    /// The receiving side would exceed `u64::MAX`.
    Overflow,
}

/// Apply the net result of settled HTLCs to a channel's allocation.
///
/// Value moves from one side to the other: the sum of both sides is kept.
/// On error the allocation is left as it was.
pub fn update_rgb_channel_amount(
    info: &mut RgbInfo,
    rgb_offered_htlc: u64,
    rgb_received_htlc: u64,
) -> (r: Result<(), RebalanceError>)
    ensures
        final(info).channel_id@ == old(info).channel_id@,
        final(info).contract_id == old(info).contract_id,
        match rebalanced(old(info).local_rgb_amount, old(info).remote_rgb_amount, rgb_offered_htlc, rgb_received_htlc) {
            Some((l, rm)) => r is Ok && final(info).local_rgb_amount == l && final(info).remote_rgb_amount == rm,
            None => final(info)@ == old(info)@ && r == Err::<(), RebalanceError>(
                if rgb_offered_htlc > rgb_received_htlc {
                    if rgb_offered_htlc - rgb_received_htlc > old(info).local_rgb_amount {
                        RebalanceError::InsufficientAmount
                    } else {
                        RebalanceError::Overflow
                    }
                } else if rgb_received_htlc - rgb_offered_htlc > old(info).remote_rgb_amount {
                    RebalanceError::InsufficientAmount
                } else {
                    RebalanceError::Overflow
                },
            ),
        },
{
    if rgb_offered_htlc > rgb_received_htlc {
        let spent = rgb_offered_htlc - rgb_received_htlc;
        if spent > info.local_rgb_amount {
            return Err(RebalanceError::InsufficientAmount);
        }
        if info.remote_rgb_amount > u64::MAX - spent {
            return Err(RebalanceError::Overflow);
        }
        info.local_rgb_amount = info.local_rgb_amount - spent;
        info.remote_rgb_amount = info.remote_rgb_amount + spent;
    } else {
        let received = rgb_received_htlc - rgb_offered_htlc;
        if received > info.remote_rgb_amount {
            return Err(RebalanceError::InsufficientAmount);
        }
        if info.local_rgb_amount > u64::MAX - received {
            return Err(RebalanceError::Overflow);
        }
        info.local_rgb_amount = info.local_rgb_amount + received;
        info.remote_rgb_amount = info.remote_rgb_amount - received;
    }
    Ok(())
}

/// A settlement succeeds whenever the paying side covers the net amount and
/// the allocation's total fits in a `u64`; the total is then kept.
pub proof fn lemma_rebalance_succeeds_within_total(local: u64, remote: u64, offered: u64, received: u64)
    requires
        local + remote <= u64::MAX,
        offered > received ==> offered - received <= local,
        received >= offered ==> received - offered <= remote,
    ensures
        rebalanced(local, remote, offered, received) is Some,
        rebalanced(local, remote, offered, received)->Some_0.0 + rebalanced(local, remote, offered, received)->Some_0.1
            == local + remote,
{
}

/// The allocation after a sequence of settlements, each `(offered, received)`;
/// a refused settlement leaves it unchanged.
pub open spec fn settle_all(local: u64, remote: u64, htlcs: Seq<(u64, u64)>) -> (u64, u64)
    decreases htlcs.len(),
{
    if htlcs.len() == 0 {
        (local, remote)
    } else {
        let (l, rm) = settle_all(local, remote, htlcs.drop_last());
        match rebalanced(l, rm, htlcs.last().0, htlcs.last().1) {
            Some(next) => next,
            None => (l, rm),
        }
    }
}

/// Rebalancing conserves the allocation: over any sequence of settlements,
/// the local and remote amounts always add up to the same total.
pub proof fn lemma_rebalancing_conserves_total(local: u64, remote: u64, htlcs: Seq<(u64, u64)>)
    ensures
        settle_all(local, remote, htlcs).0 + settle_all(local, remote, htlcs).1 == local + remote,
    decreases htlcs.len(),
{
    if htlcs.len() > 0 {
        lemma_rebalancing_conserves_total(local, remote, htlcs.drop_last());
    }
}

/// The name under which a channel's allocation is kept on disk: the channel
/// id in lower-case hex.
pub fn channel_info_file_name(channel_id: &[u8; 32]) -> (r: String)
    ensures
        r@ == hex_encoded(channel_id@),
        r@.len() == 64,
{
    encode_hex(channel_id.as_slice())
}

} // verus!
