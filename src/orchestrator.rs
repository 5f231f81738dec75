//! The funding orchestrator: the per-attempt state machine that reserves
//! capacity with the host, colors the funding transaction, records the
//! allocation and compensates on failure.
//!
//! The machine decides; its caller performs each returned [`HostAction`]
//! against the host and reports the outcome through the matching `on_` method.
use vstd::prelude::*;
use crate::encoding::{psbt_txid, psbt_txid_of};
use crate::commitment::{colored_funding, coloring_of, ColoredFunding, CommitmentError, StateEntry, TxSkeleton};
use crate::storage::{db_key, in_partition, promote, record_in, RGBStorage};
use crate::types::{ContractId, OutPoint, RGBFundChannelRequest, RgbInfo, RgbInfoView};

verus! {

/// Where a funding attempt stands.
#[derive(Clone, Copy, Debug, PartialEq, Eq, Structural)]
pub enum FundingState {
    /// Accepted for processing; the balance is being checked.
    Requested,
    /// The balance suffices; the host is asked to reserve capacity.
    Reserving,
    /// Reserved, colored and recorded as pending; the host is asked to complete.
    Colored,
    /// Completed by the host and recorded as confirmed.
    Finalized,
    /// A reservation existed and was cancelled.
    Cancelled,
    /// Refused before any reservation was made.
    Rejected,
}

/// Whether no further event changes the attempt.
pub open spec fn is_terminal(s: FundingState) -> bool {
    s == FundingState::Finalized || s == FundingState::Cancelled || s == FundingState::Rejected
}

/// Why a funding attempt failed.
#[derive(Clone, Copy, Debug, PartialEq, Eq, Structural)]
pub enum FundingError {
    /// The asset id does not decode to a contract id.
    InvalidAsset,
    /// The requested amount exceeds the spendable balance.
    InsufficientBalance { spendable: u64, requested: u64 },
    /// The host could not start or complete the funding.
    HostNegotiation,
    /// The funding transaction could not be colored.
    Commitment(CommitmentError),
    /// The pending record was missing when the channel was confirmed.
    Storage,
    /// The completed PSBT does not decode, so the funding txid for delivery is unknown.
    Delivery,
}

/// What the caller is to do next.
pub enum HostAction {
    /// Nothing: the attempt waits, or has ended.
    Nothing,
    /// Ask the host to reserve capacity with the peer.
    StartReservation { peer_id: String, amount: u64 },
    /// Cancel the host's reservation with the peer.
    CancelReservation { peer_id: String },
    /// Hand the colored, unsigned transaction to the host for completion.
    CompleteFunding { peer_id: String, colored: ColoredFunding },
    /// Submit the commitment of the confirmed channel for delivery to the peer:
    /// the funding transaction's id and the holder's output.
    Deliver { channel_id: String, contract_id: ContractId, txid: String, vout: u32 },
}

/// The shape of an action, for reasoning about runs.
#[derive(Clone, Copy, Debug, PartialEq, Eq, Structural)]
pub enum ActionKind {
    Nothing,
    Start,
    Cancel,
    Complete,
    Deliver,
}

pub open spec fn kind_of(a: HostAction) -> ActionKind {
    match a {
        HostAction::Nothing => ActionKind::Nothing,
        HostAction::StartReservation { .. } => ActionKind::Start,
        HostAction::CancelReservation { .. } => ActionKind::Cancel,
        HostAction::CompleteFunding { .. } => ActionKind::Complete,
        HostAction::Deliver { .. } => ActionKind::Deliver,
    }
}

/// What an event amounts to, once its data is judged.
#[derive(Clone, Copy, Debug, PartialEq, Eq, Structural)]
pub enum Happening {
    /// The balance was reported; `enough` tells whether it covers the request.
    Balance { enough: bool },
    /// The host reserved; `colored` tells whether coloring succeeded.
    Reserved { colored: bool },
    ReserveFailed,
    /// The host reserved, but no funding transaction can be built on the reservation.
    ReservedUnusable,
    /// The host completed; `deliverable` tells whether the pending record was
    /// there and the completed PSBT decodes.
    Completed { deliverable: bool },
    CompleteFailed,
}

/// The transition relation: the next state and the kind of action.
pub open spec fn next(s: FundingState, h: Happening) -> (FundingState, ActionKind) {
    match (s, h) {
        (FundingState::Requested, Happening::Balance { enough }) => if enough {
            (FundingState::Reserving, ActionKind::Start)
        } else {
            (FundingState::Rejected, ActionKind::Nothing)
        },
        (FundingState::Reserving, Happening::Reserved { colored }) => if colored {
            (FundingState::Colored, ActionKind::Complete)
        } else {
            (FundingState::Cancelled, ActionKind::Cancel)
        },
        (FundingState::Reserving, Happening::ReserveFailed) => (FundingState::Rejected, ActionKind::Nothing),
        (FundingState::Reserving, Happening::ReservedUnusable) => (FundingState::Cancelled, ActionKind::Cancel),
        (FundingState::Colored, Happening::Completed { deliverable }) => if deliverable {
            (FundingState::Finalized, ActionKind::Deliver)
        } else {
            (FundingState::Finalized, ActionKind::Nothing)
        },
        (FundingState::Colored, Happening::CompleteFailed) => (FundingState::Cancelled, ActionKind::Cancel),
        _ => (s, ActionKind::Nothing),
    }
}

/// The state after a run of happenings, and how many cancellations it asked for.
pub open spec fn run(s: FundingState, hs: Seq<Happening>) -> (FundingState, nat)
    decreases hs.len(),
{
    if hs.len() == 0 {
        (s, 0)
    } else {
        let (mid, cancels) = run(s, hs.drop_last());
        let (last, action) = next(mid, hs.last());
        (last, if action == ActionKind::Cancel { cancels + 1 } else { cancels })
    }
}

/// Whether a state holds a reservation with the host.
pub open spec fn holds_reservation(s: FundingState) -> bool {
    s == FundingState::Colored
}

/// A reservation is cancelled exactly once: over any run from a new request,
/// at most one cancellation is asked for, and exactly one when the attempt
/// ends cancelled; a failed coloring after the reservation always cancels.
pub proof fn lemma_cancel_exactly_once(hs: Seq<Happening>)
    ensures
        run(FundingState::Requested, hs).1 <= 1,
        run(FundingState::Requested, hs).1 == 1 <==> run(FundingState::Requested, hs).0 == FundingState::Cancelled,
        next(FundingState::Reserving, Happening::Reserved { colored: false }) == (FundingState::Cancelled, ActionKind::Cancel),
    decreases hs.len(),
{
    if hs.len() > 0 {
        lemma_cancel_exactly_once(hs.drop_last());
    }
}

/// One funding attempt.
pub struct FundingAttempt {
    state: FundingState,
    peer_id: String,
    amount: u64,
    contract_id: ContractId,
    provisional_id: String,
    holder_vout: u32,
    failure: Option<FundingError>,
}

impl FundingAttempt {
    pub closed spec fn spec_state(&self) -> FundingState {
        self.state
    }

    pub closed spec fn spec_peer_id(&self) -> Seq<char> {
        self.peer_id@
    }

    pub closed spec fn spec_amount(&self) -> u64 {
        self.amount
    }

    pub closed spec fn spec_contract_id(&self) -> ContractId {
        self.contract_id
    }

    pub closed spec fn spec_provisional_id(&self) -> Seq<char> {
        self.provisional_id@
    }

    pub closed spec fn spec_holder_vout(&self) -> u32 {
        self.holder_vout
    }

    pub closed spec fn spec_failure(&self) -> Option<FundingError> {
        self.failure
    }

    /// The allocation recorded for this attempt under a channel id.
    pub open spec fn allocation(&self, channel_id: Seq<char>) -> RgbInfoView {
        RgbInfoView {
            channel_id,
            contract_id: self.spec_contract_id().bytes@,
            local_rgb_amount: self.spec_amount(),
            remote_rgb_amount: 0,
        }
    }

    /// Accept a funding request. `contract_id` is the request's asset id
    /// decoded, or `None` when it does not decode: then the request is refused
    /// before anything else happens.
    pub fn new(
        request: &RGBFundChannelRequest,
        contract_id: Option<ContractId>,
    ) -> (r: Result<FundingAttempt, FundingError>)
        ensures
            match contract_id {
                None => r == Err::<FundingAttempt, FundingError>(FundingError::InvalidAsset),
                Some(c) => r matches Ok(a) && a.spec_state() == FundingState::Requested
                    && a.spec_peer_id() == request.peer_id@ && a.spec_amount() == request.amount_msat
                    && a.spec_contract_id() == c && a.spec_failure() is None,
            },
    {
        match contract_id {
            None => Err(FundingError::InvalidAsset),
            Some(c) => Ok(FundingAttempt {
                state: FundingState::Requested,
                peer_id: request.peer_id.clone(),
                amount: request.amount_msat,
                contract_id: c,
                provisional_id: String::new(),
                holder_vout: 0,
                failure: None,
            }),
        }
    }

    /// The current state.
    pub fn state(&self) -> (r: FundingState)
        ensures
            r == self.spec_state(),
    {
        self.state
    }

    /// Why the attempt failed, once it has: the cause of a rejection or of a
    /// cancellation.
    pub fn failure(&self) -> (r: Option<FundingError>)
        ensures
            r == self.spec_failure(),
    {
        self.failure
    }

    /// The peer the channel is opened with.
    pub fn peer_id(&self) -> (r: &String)
        ensures
            r@ == self.spec_peer_id(),
    {
        &self.peer_id
    }

    /// The balance check: the request must not exceed the spendable amount.
    /// Nothing is asked of the host, nor written, when it does.
    pub fn on_balance(&mut self, spendable: u64) -> (r: Result<HostAction, FundingError>)
        ensures
            final(self).spec_peer_id() == old(self).spec_peer_id(),
            final(self).spec_amount() == old(self).spec_amount(),
            final(self).spec_contract_id() == old(self).spec_contract_id(),
            final(self).spec_provisional_id() == old(self).spec_provisional_id(),
            final(self).spec_holder_vout() == old(self).spec_holder_vout(),
            old(self).spec_state() == FundingState::Requested && old(self).spec_amount() > spendable ==> {
                &&& final(self).spec_state() == FundingState::Rejected
                &&& r == Err::<HostAction, FundingError>(
                    FundingError::InsufficientBalance { spendable, requested: old(self).spec_amount() },
                )
                &&& final(self).spec_failure() == Some(r->Err_0)
            },
            !(old(self).spec_state() == FundingState::Requested && old(self).spec_amount() > spendable)
                ==> final(self).spec_failure() == old(self).spec_failure(),
            old(self).spec_state() == FundingState::Requested && old(self).spec_amount() <= spendable ==> {
                &&& final(self).spec_state() == FundingState::Reserving
                &&& r matches Ok(HostAction::StartReservation { peer_id, amount })
                &&& peer_id@ == old(self).spec_peer_id() && amount == old(self).spec_amount()
            },
            old(self).spec_state() != FundingState::Requested ==> final(self).spec_state() == old(self).spec_state()
                && r matches Ok(HostAction::Nothing),
            r is Ok ==> (final(self).spec_state(), kind_of(r->Ok_0)) == next(
                old(self).spec_state(),
                Happening::Balance { enough: old(self).spec_amount() <= spendable },
            ),
            r is Err ==> (final(self).spec_state(), ActionKind::Nothing) == next(
                old(self).spec_state(),
                Happening::Balance { enough: old(self).spec_amount() <= spendable },
            ),
    {
        if self.state != FundingState::Requested {
            return Ok(HostAction::Nothing);
        }
        if self.amount > spendable {
            self.state = FundingState::Rejected;
            let e = FundingError::InsufficientBalance { spendable, requested: self.amount };
            self.failure = Some(e);
            return Err(e);
        }
        self.state = FundingState::Reserving;
        Ok(HostAction::StartReservation { peer_id: self.peer_id.clone(), amount: self.amount })
    }

    /// The host could not reserve: the attempt ends; there is nothing to cancel.
    pub fn on_reservation_failed(&mut self) -> (r: Result<HostAction, FundingError>)
        ensures
            final(self).spec_peer_id() == old(self).spec_peer_id(),
            final(self).spec_amount() == old(self).spec_amount(),
            final(self).spec_contract_id() == old(self).spec_contract_id(),
            final(self).spec_provisional_id() == old(self).spec_provisional_id(),
            final(self).spec_holder_vout() == old(self).spec_holder_vout(),
            old(self).spec_state() == FundingState::Reserving ==> final(self).spec_state() == FundingState::Rejected
                && r == Err::<HostAction, FundingError>(FundingError::HostNegotiation)
                && final(self).spec_failure() == Some(FundingError::HostNegotiation),
            old(self).spec_state() != FundingState::Reserving ==> final(self).spec_state() == old(self).spec_state()
                && final(self).spec_failure() == old(self).spec_failure() && r matches Ok(HostAction::Nothing),
            r is Ok ==> (final(self).spec_state(), kind_of(r->Ok_0)) == next(old(self).spec_state(), Happening::ReserveFailed),
            r is Err ==> (final(self).spec_state(), ActionKind::Nothing) == next(old(self).spec_state(), Happening::ReserveFailed),
    {
        if self.state != FundingState::Reserving {
            return Ok(HostAction::Nothing);
        }
        self.state = FundingState::Rejected;
        self.failure = Some(FundingError::HostNegotiation);
        Err(FundingError::HostNegotiation)
    }
    /// The host reserved capacity, but the reservation cannot be used: its
    /// script does not decode, or the wallet cannot build the funding
    /// transaction. The reservation is cancelled and nothing is recorded.
    pub fn on_reservation_unusable(&mut self) -> (r: Result<HostAction, FundingError>)
        ensures
            final(self).spec_peer_id() == old(self).spec_peer_id(),
            final(self).spec_amount() == old(self).spec_amount(),
            final(self).spec_contract_id() == old(self).spec_contract_id(),
            final(self).spec_provisional_id() == old(self).spec_provisional_id(),
            final(self).spec_holder_vout() == old(self).spec_holder_vout(),
            old(self).spec_state() == FundingState::Reserving ==> {
                &&& final(self).spec_state() == FundingState::Cancelled
                &&& r matches Ok(HostAction::CancelReservation { peer_id })
                &&& peer_id@ == old(self).spec_peer_id()
                &&& final(self).spec_failure() == Some(FundingError::HostNegotiation)
            },
            old(self).spec_state() != FundingState::Reserving ==> final(self).spec_state() == old(self).spec_state()
                && final(self).spec_failure() == old(self).spec_failure() && r matches Ok(HostAction::Nothing),
            r is Ok,
            (final(self).spec_state(), kind_of(r->Ok_0)) == next(old(self).spec_state(), Happening::ReservedUnusable),
    {
        if self.state != FundingState::Reserving {
            return Ok(HostAction::Nothing);
        }
        self.state = FundingState::Cancelled;
        self.failure = Some(FundingError::HostNegotiation);
        Ok(HostAction::CancelReservation { peer_id: self.peer_id.clone() })
    }

    /// The host reserved capacity and the wallet built the funding transaction.
    ///
    /// The transaction is colored with a new allocation: the whole requested
    /// amount on the local side. On success the allocation is recorded as
    /// pending under the provisional id and the colored transaction goes to
    /// the host for completion. When coloring fails the reservation is
    /// cancelled and nothing is recorded.
    pub fn on_reserved<S: RGBStorage>(
        &mut self,
        provisional_id: String,
        skeleton: &TxSkeleton,
        funding_outpoint: OutPoint,
        holder_vout: u32,
        state: &Vec<StateEntry>,
        assignment_type: Option<u16>,
        registry: &mut S,
    ) -> (r: Result<HostAction, FundingError>)
        requires
            old(registry).wf(),
        ensures
            final(registry).wf(),
            final(registry).watched() == old(registry).watched(),
            final(self).spec_peer_id() == old(self).spec_peer_id(),
            final(self).spec_amount() == old(self).spec_amount(),
            final(self).spec_contract_id() == old(self).spec_contract_id(),
            old(self).spec_state() != FundingState::Reserving ==> {
                &&& final(self).spec_state() == old(self).spec_state()
                &&& final(self).spec_provisional_id() == old(self).spec_provisional_id()
                &&& final(self).spec_holder_vout() == old(self).spec_holder_vout()
                &&& final(self).spec_failure() == old(self).spec_failure()
                &&& r matches Ok(HostAction::Nothing)
                &&& final(registry).records() == old(registry).records()
            },
            old(self).spec_state() == FundingState::Reserving ==> {
                let outcome = coloring_of(
                    skeleton@,
                    funding_outpoint,
                    old(self).allocation(provisional_id@),
                    holder_vout,
                    state@,
                    assignment_type,
                );
                &&& final(self).spec_provisional_id() == provisional_id@
                &&& final(self).spec_holder_vout() == holder_vout
                &&& match outcome {
                    Ok(c) => {
                        &&& final(self).spec_state() == FundingState::Colored
                        &&& r matches Ok(HostAction::CompleteFunding { peer_id, colored })
                        &&& peer_id@ == old(self).spec_peer_id() && colored@ == c
                        &&& final(self).spec_failure() == old(self).spec_failure()
                        &&& final(registry).records() == old(registry).records().insert(
                            db_key(provisional_id@, true),
                            old(self).allocation(provisional_id@),
                        )
                    },
                    Err(e) => {
                        &&& final(self).spec_state() == FundingState::Cancelled
                        &&& r matches Ok(HostAction::CancelReservation { peer_id })
                        &&& peer_id@ == old(self).spec_peer_id()
                        &&& final(self).spec_failure() == Some(FundingError::Commitment(e))
                        &&& final(registry).records() == old(registry).records()
                    },
                }
            },
            r is Ok,
            (final(self).spec_state(), kind_of(r->Ok_0)) == next(
                old(self).spec_state(),
                Happening::Reserved {
                    colored: coloring_of(
                        skeleton@,
                        funding_outpoint,
                        old(self).allocation(provisional_id@),
                        holder_vout,
                        state@,
                        assignment_type,
                    ) is Ok,
                },
            ),
    {
        if self.state != FundingState::Reserving {
            return Ok(HostAction::Nothing);
        }
        let info = RgbInfo::new(provisional_id.clone(), self.contract_id, self.amount);
        assert(info@ == self.allocation(provisional_id@));
        self.provisional_id = provisional_id;
        self.holder_vout = holder_vout;
        match colored_funding(skeleton, funding_outpoint, &info, holder_vout, state, assignment_type) {
            Ok(colored) => {
                registry.write_rgb_info(self.provisional_id.as_str(), true, &info);
                self.state = FundingState::Colored;
                Ok(HostAction::CompleteFunding { peer_id: self.peer_id.clone(), colored })
            },
            Err(e) => {
                self.state = FundingState::Cancelled;
                self.failure = Some(FundingError::Commitment(e));
                Ok(HostAction::CancelReservation { peer_id: self.peer_id.clone() })
            },
        }
    }

    /// The host completed the funding under the final channel id, from the
    /// PSBT `funding_psbt` (base64) that it was handed.
    ///
    /// The pending record is promoted to the confirmed partition under that id
    /// (no pending record stays under either id) and the commitment goes out
    /// for delivery, for the PSBT's txid and the holder's output. The funding
    /// is final either way: if the pending record is missing, that is reported
    /// and nothing is written; if the PSBT does not decode, the record is
    /// promoted and the missing txid is reported.
    pub fn on_completed<S: RGBStorage>(
        &mut self,
        channel_id: &String,
        funding_psbt: &String,
        registry: &mut S,
    ) -> (r: Result<HostAction, FundingError>)
        requires
            old(registry).wf(),
        ensures
            final(registry).wf(),
            final(registry).watched() == old(registry).watched(),
            final(self).spec_peer_id() == old(self).spec_peer_id(),
            final(self).spec_amount() == old(self).spec_amount(),
            final(self).spec_contract_id() == old(self).spec_contract_id(),
            final(self).spec_provisional_id() == old(self).spec_provisional_id(),
            final(self).spec_failure() == old(self).spec_failure(),
            final(self).spec_holder_vout() == old(self).spec_holder_vout(),
            old(self).spec_state() != FundingState::Colored ==> {
                &&& final(self).spec_state() == old(self).spec_state()
                &&& r matches Ok(HostAction::Nothing)
                &&& final(registry).records() == old(registry).records()
            },
            old(self).spec_state() == FundingState::Colored ==> {
                let prov = old(self).spec_provisional_id();
                &&& final(self).spec_state() == FundingState::Finalized
                &&& if in_partition(*old(registry), prov, true) {
                    &&& match psbt_txid_of(funding_psbt@) {
                        Some(t) => r matches Ok(HostAction::Deliver { channel_id: cid, contract_id, txid, vout })
                            && cid@ == channel_id@ && contract_id == old(self).spec_contract_id() && txid@ == t
                            && vout == old(self).spec_holder_vout(),
                        None => r == Err::<HostAction, FundingError>(FundingError::Delivery),
                    }
                    &&& final(registry).records() == old(registry).records().insert(
                        db_key(channel_id@, false),
                        record_in(*old(registry), prov, true).renamed(channel_id@),
                    ).remove(db_key(prov, true)).remove(db_key(channel_id@, true))
                } else {
                    &&& r == Err::<HostAction, FundingError>(FundingError::Storage)
                    &&& final(registry).records() == old(registry).records()
                }
            },
            r is Ok ==> (final(self).spec_state(), kind_of(r->Ok_0)) == next(
                old(self).spec_state(),
                Happening::Completed {
                    deliverable: in_partition(*old(registry), old(self).spec_provisional_id(), true)
                        && psbt_txid_of(funding_psbt@) is Some,
                },
            ),
            r is Err ==> (final(self).spec_state(), ActionKind::Nothing) == next(
                old(self).spec_state(),
                Happening::Completed {
                    deliverable: in_partition(*old(registry), old(self).spec_provisional_id(), true)
                        && psbt_txid_of(funding_psbt@) is Some,
                },
            ),
    {
        if self.state != FundingState::Colored {
            return Ok(HostAction::Nothing);
        }
        self.state = FundingState::Finalized;
        match promote(registry, self.provisional_id.as_str(), channel_id) {
            Ok(info) => match psbt_txid(funding_psbt.as_str()) {
                Some(txid) => Ok(HostAction::Deliver {
                    channel_id: channel_id.clone(),
                    contract_id: self.contract_id,
                    txid,
                    vout: self.holder_vout,
                }),
                None => Err(FundingError::Delivery),
            },
            Err(e) => Err(FundingError::Storage),
        }
    }

    /// The host could not complete the funding: the reservation is cancelled
    /// with the same peer and the pending record is retired. The confirmed
    /// partition is not touched.
    pub fn on_completion_failed<S: RGBStorage>(&mut self, registry: &mut S) -> (r: Result<HostAction, FundingError>)
        requires
            old(registry).wf(),
        ensures
            final(registry).wf(),
            final(registry).watched() == old(registry).watched(),
            final(self).spec_peer_id() == old(self).spec_peer_id(),
            final(self).spec_amount() == old(self).spec_amount(),
            final(self).spec_contract_id() == old(self).spec_contract_id(),
            final(self).spec_provisional_id() == old(self).spec_provisional_id(),
            final(self).spec_holder_vout() == old(self).spec_holder_vout(),
            old(self).spec_state() != FundingState::Colored ==> {
                &&& final(self).spec_state() == old(self).spec_state()
                &&& final(self).spec_failure() == old(self).spec_failure()
                &&& r matches Ok(HostAction::Nothing)
                &&& final(registry).records() == old(registry).records()
            },
            old(self).spec_state() == FundingState::Colored ==> {
                &&& final(self).spec_state() == FundingState::Cancelled
                &&& r matches Ok(HostAction::CancelReservation { peer_id })
                &&& peer_id@ == old(self).spec_peer_id()
                &&& final(self).spec_failure() == Some(FundingError::HostNegotiation)
                &&& final(registry).records() == old(registry).records().remove(
                    db_key(old(self).spec_provisional_id(), true),
                )
            },
            r is Ok,
            (final(self).spec_state(), kind_of(r->Ok_0)) == next(old(self).spec_state(), Happening::CompleteFailed),
    {
        if self.state != FundingState::Colored {
            return Ok(HostAction::Nothing);
        }
        registry.remove_rgb_info(self.provisional_id.as_str(), true);
        self.state = FundingState::Cancelled;
        self.failure = Some(FundingError::HostNegotiation);
        Ok(HostAction::CancelReservation { peer_id: self.peer_id.clone() })
    }
}

} // verus!
