//! The commitment builder: extends a funding transaction with a marker
//! output and the asset state transition that moves the channel allocation
//! onto the funding outputs.
use vstd::prelude::*;
use crate::types::{ContractId, OutPoint, RgbInfo, RgbInfoView};

verus! {

/// Blinding factor of the seals placed on funding outputs.
pub const STATIC_BLINDING: u64 = 777;

/// `OP_RETURN`.
pub const OP_RETURN: u8 = 0x6a;

/// An output spent by a transaction input.
#[derive(Clone, Copy, Debug)]
pub struct PrevOut {
    /// Id of the transaction that created the output, in internal byte order.
    pub txid: [u8; 32],
    /// Index of the output in that transaction.
    pub vout: u32,
}

/// Two previous outputs name the same output.
pub open spec fn same_prevout(a: PrevOut, b: PrevOut) -> bool {
    a.txid@ == b.txid@ && a.vout == b.vout
}

/// The funding outpoint as a previous output.
pub open spec fn funding_prevout(o: OutPoint) -> PrevOut {
    PrevOut { txid: o.txid, vout: o.index as u32 }
}

/// A transaction output: an amount in satoshi and its locking script.
#[derive(Clone, Debug)]
pub struct TxOutput {
    pub value: u64,
    pub script: Vec<u8>,
}

pub struct TxOutputView {
    pub value: u64,
    pub script: Seq<u8>,
}

impl View for TxOutput {
    type V = TxOutputView;

    open spec fn view(&self) -> TxOutputView {
        TxOutputView { value: self.value, script: self.script@ }
    }
}

/// A transaction whose inputs are selected and whose outputs are fixed.
#[derive(Clone, Debug)]
pub struct TxSkeleton {
    pub inputs: Vec<PrevOut>,
    pub outputs: Vec<TxOutput>,
}

pub struct TxSkeletonView {
    pub inputs: Seq<PrevOut>,
    pub outputs: Seq<TxOutputView>,
}

impl View for TxSkeleton {
    type V = TxSkeletonView;

    open spec fn view(&self) -> TxSkeletonView {
        TxSkeletonView { inputs: self.inputs@, outputs: self.outputs@.map_values(|o: TxOutput| o@) }
    }
}

/// A binding of an asset amount to an output of the funding transaction,
/// closed by the first `OP_RETURN` output of the spending transaction.
#[derive(Clone, Copy, Debug)]
pub struct Seal {
    pub vout: u32,
    pub blinding: u64,
    pub amount: u64,
}

/// Contract state found at an output: an amount of the contract's asset.
#[derive(Clone, Copy, Debug)]
pub struct StateEntry {
    pub outpoint: PrevOut,
    pub amount: u64,
}

/// The asset state transition that the funding transaction commits to.
#[derive(Clone, Debug)]
pub struct Transition {
    pub contract_id: ContractId,
    /// The contract interface's type of the `beneficiary` assignment.
    pub assignment_type: u16,
    /// Previous outputs holding the contract's state, consumed by the transition.
    pub inputs: Vec<PrevOut>,
    /// The new owners: one seal for each side with a non-zero amount.
    pub beneficiaries: Vec<Seal>,
}

pub struct TransitionView {
    pub contract_id: Seq<u8>,
    pub assignment_type: u16,
    pub inputs: Seq<PrevOut>,
    pub beneficiaries: Seq<Seal>,
}

impl View for Transition {
    type V = TransitionView;

    open spec fn view(&self) -> TransitionView {
        TransitionView {
            contract_id: self.contract_id.bytes@,
            assignment_type: self.assignment_type,
            inputs: self.inputs@,
            beneficiaries: self.beneficiaries@,
        }
    }
}

/// A funding transaction extended with the marker output and its transition.
#[derive(Clone, Debug)]
pub struct ColoredFunding {
    /// The transaction with the marker output appended.
    pub tx: TxSkeleton,
    /// The transition committed to.
    pub transition: Transition,
    /// For each input: whether it spends the channel's funding outpoint and so
    /// consumes the transition.
    pub consumers: Vec<bool>,
    /// Index of the output that hosts the commitment.
    pub host_vout: usize,
}

pub struct ColoredFundingView {
    pub tx: TxSkeletonView,
    pub transition: TransitionView,
    pub consumers: Seq<bool>,
    pub host_vout: nat,
}

impl View for ColoredFunding {
    type V = ColoredFundingView;

    open spec fn view(&self) -> ColoredFundingView {
        ColoredFundingView {
            tx: self.tx@,
            transition: self.transition@,
            consumers: self.consumers@,
            host_vout: self.host_vout as nat,
        }
    }
}

/// Why a transaction could not be colored.
#[derive(Clone, Copy, Debug, PartialEq, Eq, Structural)]
pub enum CommitmentError {
    /// The transaction already has an `OP_RETURN` output: it was colored before,
    /// or its marker was not discarded.
    MarkerPresent,
    /// The contract's interface has no `beneficiary` assignment: its schema is
    /// not the one expected.
    UnknownAssignmentType,
    /// A seal names an output that the transaction does not have.
    VoutOutOfRange { vout: u32 },
    /// None of the spent outputs holds the contract's state: the wallet's view of
    /// the contract is stale.
    MissingInputState,
    /// The output count would exceed what an index can hold.
    TooManyOutputs,
}

/// The script of the marker output before the commitment is concluded into it:
/// `OP_RETURN` pushing the single byte `1`.
pub open spec fn marker_script() -> Seq<u8> {
    seq![OP_RETURN, 1u8, 1u8]
}

/// The script of the marker output once the commitment is concluded into it:
/// `OP_RETURN` pushing the 32 commitment bytes.
pub open spec fn concluded_script(commitment: Seq<u8>) -> Seq<u8> {
    seq![OP_RETURN, 32u8] + commitment
}

/// The output of the counterparty: it differs from the holder's in the low bit.
pub open spec fn counterparty_of(holder_vout: u32) -> u32 {
    holder_vout ^ 1u32
}

/// The seals of a channel allocation: the holder's side first, then the
/// counterparty's; a side with a zero amount gets none.
pub open spec fn seals_of(info: RgbInfoView, holder_vout: u32) -> Seq<Seal> {
    let holder = if info.local_rgb_amount > 0 {
        seq![Seal { vout: holder_vout, blinding: STATIC_BLINDING, amount: info.local_rgb_amount }]
    } else {
        Seq::empty()
    };
    let counterparty = if info.remote_rgb_amount > 0 {
        seq![Seal { vout: counterparty_of(holder_vout), blinding: STATIC_BLINDING, amount: info.remote_rgb_amount }]
    } else {
        Seq::empty()
    };
    holder + counterparty
}

/// Whether the contract holds state at a previous output.
pub open spec fn holds_state(state: Seq<StateEntry>, p: PrevOut) -> bool {
    exists|k: int| 0 <= k < state.len() && same_prevout(#[trigger] state[k].outpoint, p)
}

/// The spent outputs that hold the contract's state, in input order.
pub open spec fn state_inputs(inputs: Seq<PrevOut>, state: Seq<StateEntry>) -> Seq<PrevOut>
    decreases inputs.len(),
{
    if inputs.len() == 0 {
        Seq::empty()
    } else {
        let rest = state_inputs(inputs.drop_last(), state);
        if holds_state(state, inputs.last()) {
            rest.push(inputs.last())
        } else {
            rest
        }
    }
}

/// Whether an output script is an `OP_RETURN` script.
pub open spec fn is_op_return(script: Seq<u8>) -> bool {
    script.len() > 0 && script[0] == OP_RETURN
}

/// What coloring a transaction gives, or why it fails.
pub open spec fn coloring_of(
    tx: TxSkeletonView,
    funding: OutPoint,
    info: RgbInfoView,
    holder_vout: u32,
    state: Seq<StateEntry>,
    assignment_type: Option<u16>,
) -> Result<ColoredFundingView, CommitmentError> {
    let n = tx.outputs.len();
    if exists|i: int| 0 <= i < n && is_op_return(#[trigger] tx.outputs[i].script) {
        Err(CommitmentError::MarkerPresent)
    } else if assignment_type is None {
        Err(CommitmentError::UnknownAssignmentType)
    } else if info.local_rgb_amount > 0 && holder_vout >= n {
        Err(CommitmentError::VoutOutOfRange { vout: holder_vout })
    } else if info.remote_rgb_amount > 0 && counterparty_of(holder_vout) >= n {
        Err(CommitmentError::VoutOutOfRange { vout: counterparty_of(holder_vout) })
    } else if state_inputs(tx.inputs, state).len() == 0 {
        Err(CommitmentError::MissingInputState)
    } else if n >= usize::MAX {
        Err(CommitmentError::TooManyOutputs)
    } else {
        Ok(ColoredFundingView {
            tx: TxSkeletonView {
                inputs: tx.inputs,
                outputs: tx.outputs.push(TxOutputView { value: 0, script: marker_script() }),
            },
            transition: TransitionView {
                contract_id: info.contract_id,
                assignment_type: assignment_type->Some_0,
                inputs: state_inputs(tx.inputs, state),
                beneficiaries: seals_of(info, holder_vout),
            },
            consumers: tx.inputs.map_values(|p: PrevOut| same_prevout(p, funding_prevout(funding))),
            host_vout: n,
        })
    }
}

/// The counterparty output and the holder output form a fixed pair: they
/// differ in the low bit alone, and each is the other's partner.
pub proof fn lemma_vout_pairing(holder_vout: u32)
    ensures
        counterparty_of(holder_vout) != holder_vout,
        counterparty_of(holder_vout) / 2 == holder_vout / 2,
        counterparty_of(counterparty_of(holder_vout)) == holder_vout,
        holder_vout % 2 == 0 ==> counterparty_of(holder_vout) == holder_vout + 1,
        holder_vout % 2 == 1 ==> counterparty_of(holder_vout) == holder_vout - 1,
{
    assert(holder_vout ^ 1u32 != holder_vout) by (bit_vector);
    assert((holder_vout ^ 1u32) / 2 == holder_vout / 2) by (bit_vector);
    assert((holder_vout ^ 1u32) ^ 1u32 == holder_vout) by (bit_vector);
    assert(holder_vout % 2 == 0 ==> holder_vout ^ 1u32 == holder_vout + 1) by (bit_vector);
    assert(holder_vout % 2 == 1 ==> holder_vout ^ 1u32 == holder_vout - 1) by (bit_vector);
}

/// Every coloring seals the counterparty's side on the holder output's
/// partner, `holder_vout ^ 1`, and the holder's side on `holder_vout`.
pub proof fn lemma_coloring_pairs_vouts(
    tx: TxSkeletonView,
    funding: OutPoint,
    info: RgbInfoView,
    holder_vout: u32,
    state: Seq<StateEntry>,
    assignment_type: Option<u16>,
)
    requires
        coloring_of(tx, funding, info, holder_vout, state, assignment_type) is Ok,
        info.local_rgb_amount > 0,
        info.remote_rgb_amount > 0,
    ensures
        ({
            let colored = coloring_of(tx, funding, info, holder_vout, state, assignment_type)->Ok_0;
            let seals = colored.transition.beneficiaries;
            &&& seals.len() == 2
            &&& seals[0].vout == holder_vout
            &&& seals[1].vout == holder_vout ^ 1u32
            &&& seals[1].vout / 2 == seals[0].vout / 2
            &&& seals[1].vout != seals[0].vout
        }),
{
    lemma_vout_pairing(holder_vout);
}

/// Coloring is deterministic: the same transaction, allocation, holder output
/// and contract state give the same colored transaction, byte for byte.
pub proof fn lemma_coloring_deterministic(
    tx1: TxSkeletonView,
    tx2: TxSkeletonView,
    funding: OutPoint,
    info1: RgbInfoView,
    info2: RgbInfoView,
    holder_vout: u32,
    state: Seq<StateEntry>,
    assignment_type: Option<u16>,
)
    requires
        tx1 == tx2,
        info1 == info2,
    ensures
        coloring_of(tx1, funding, info1, holder_vout, state, assignment_type) == coloring_of(
            tx2,
            funding,
            info2,
            holder_vout,
            state,
            assignment_type,
        ),
{
}

/// Whether two previous outputs name the same output.
pub fn prevout_eq(a: &PrevOut, b: &PrevOut) -> (r: bool)
    ensures
        r == same_prevout(*a, *b),
{
    if a.vout != b.vout {
        return false;
    }
    let mut i: usize = 0;
    while i < 32
        invariant
            i <= 32,
            forall|j: int| 0 <= j < i ==> a.txid@[j] == b.txid@[j],
        decreases 32 - i,
    {
        if a.txid[i] != b.txid[i] {
            return false;
        }
        i = i + 1;
    }
    assert(a.txid@ =~= b.txid@);
    true
}

/// Whether the contract holds state at a previous output.
fn state_at(state: &Vec<StateEntry>, p: &PrevOut) -> (r: bool)
    ensures
        r == holds_state(state@, *p),
{
    let mut k: usize = 0;
    while k < state.len()
        invariant
            k <= state@.len(),
            forall|j: int| 0 <= j < k ==> !same_prevout(#[trigger] state@[j].outpoint, *p),
        decreases state@.len() - k,
    {
        if prevout_eq(&state[k].outpoint, p) {
            return true;
        }
        k = k + 1;
    }
    false
}

/// The spent outputs that hold the contract's state, in input order.
fn collect_state_inputs(inputs: &Vec<PrevOut>, state: &Vec<StateEntry>) -> (r: Vec<PrevOut>)
    ensures
        r@ == state_inputs(inputs@, state@),
{
    let mut out: Vec<PrevOut> = Vec::new();
    let mut i: usize = 0;
    while i < inputs.len()
        invariant
            i <= inputs@.len(),
            out@ == state_inputs(inputs@.subrange(0, i as int), state@),
        decreases inputs@.len() - i,
    {
        let ghost next = inputs@.subrange(0, i as int + 1);
        assert(next.drop_last() == inputs@.subrange(0, i as int));
        assert(next.last() == inputs@[i as int]);
        if state_at(state, &inputs[i]) {
            out.push(inputs[i]);
        }
        i = i + 1;
    }
    assert(inputs@.subrange(0, i as int) == inputs@);
    out
}

/// Whether some output already carries an `OP_RETURN` script.
fn has_op_return(outputs: &Vec<TxOutput>) -> (r: bool)
    ensures
        r == exists|i: int| 0 <= i < outputs@.len() && is_op_return(#[trigger] outputs@[i].script@),
{
    let mut i: usize = 0;
    while i < outputs.len()
        invariant
            i <= outputs@.len(),
            forall|j: int| 0 <= j < i ==> !is_op_return(#[trigger] outputs@[j].script@),
        decreases outputs@.len() - i,
    {
        if outputs[i].script.len() > 0 && outputs[i].script[0] == OP_RETURN {
            return true;
        }
        i = i + 1;
    }
    false
}

/// A copy of a list of outputs.
fn copy_outputs(outputs: &Vec<TxOutput>) -> (r: Vec<TxOutput>)
    ensures
        r@.map_values(|o: TxOutput| o@) == outputs@.map_values(|o: TxOutput| o@),
{
    let mut out: Vec<TxOutput> = Vec::new();
    let mut i: usize = 0;
    while i < outputs.len()
        invariant
            i <= outputs@.len(),
            out@.len() == i,
            forall|j: int| 0 <= j < i ==> #[trigger] out@[j]@ == outputs@[j]@,
        decreases outputs@.len() - i,
    {
        let script = outputs[i].script.clone();
        assert(script@ =~= outputs@[i as int].script@);
        out.push(TxOutput { value: outputs[i].value, script });
        i = i + 1;
    }
    assert(out@.map_values(|o: TxOutput| o@) =~= outputs@.map_values(|o: TxOutput| o@));
    out
}

/// The seals of a channel allocation.
fn seals(info: &RgbInfo, holder_vout: u32) -> (r: Vec<Seal>)
    ensures
        r@ == seals_of(info@, holder_vout),
{
    let mut out: Vec<Seal> = Vec::new();
    if info.local_rgb_amount > 0 {
        out.push(Seal { vout: holder_vout, blinding: STATIC_BLINDING, amount: info.local_rgb_amount });
    }
    if info.remote_rgb_amount > 0 {
        let counterparty_vout = holder_vout ^ 1;
        out.push(Seal { vout: counterparty_vout, blinding: STATIC_BLINDING, amount: info.remote_rgb_amount });
    }
    assert(out@ =~= seals_of(info@, holder_vout));
    out
}

/// Color a funding transaction with a channel allocation.
///
/// `state` is the contract state that the wallet finds at the outputs the
/// transaction spends, and `assignment_type` the type that the contract's
/// interface gives the `beneficiary` assignment, if it has one. The result carries the transaction with one zero-value
/// `OP_RETURN` marker output appended, the transition that seals the holder's
/// amount on `holder_vout` and the counterparty's on `holder_vout ^ 1`, and the
/// marker's index as the commitment host.
pub fn colored_funding(
    tx: &TxSkeleton,
    funding_outpoint: OutPoint,
    commitment_info: &RgbInfo,
    holder_vout: u32,
    state: &Vec<StateEntry>,
    assignment_type: Option<u16>,
) -> (r: Result<ColoredFunding, CommitmentError>)
    ensures
        match r {
            Ok(c) => coloring_of(tx@, funding_outpoint, commitment_info@, holder_vout, state@, assignment_type) == Ok::<
                ColoredFundingView,
                CommitmentError,
            >(c@),
            Err(e) => coloring_of(tx@, funding_outpoint, commitment_info@, holder_vout, state@, assignment_type) == Err::<
                ColoredFundingView,
                CommitmentError,
            >(e),
        },
{
    let n = tx.outputs.len();
    assert forall|i: int| 0 <= i < n implies #[trigger] tx@.outputs[i] == tx.outputs@[i]@ by {}
    if has_op_return(&tx.outputs) {
        let ghost i = choose|i: int| 0 <= i < tx.outputs@.len() && is_op_return(#[trigger] tx.outputs@[i].script@);
        assert(tx@.outputs[i] == tx.outputs@[i]@);
        assert(is_op_return(tx@.outputs[i].script));
        return Err(CommitmentError::MarkerPresent);
    }
    let assignment = match assignment_type {
        Some(t) => t,
        None => {
            return Err(CommitmentError::UnknownAssignmentType);
        },
    };
    if commitment_info.local_rgb_amount > 0 && holder_vout as usize >= n {
        return Err(CommitmentError::VoutOutOfRange { vout: holder_vout });
    }
    let counterparty_vout = holder_vout ^ 1;
    if commitment_info.remote_rgb_amount > 0 && counterparty_vout as usize >= n {
        return Err(CommitmentError::VoutOutOfRange { vout: counterparty_vout });
    }
    let inputs = collect_state_inputs(&tx.inputs, state);
    if inputs.len() == 0 {
        return Err(CommitmentError::MissingInputState);
    }
    if n == usize::MAX {
        return Err(CommitmentError::TooManyOutputs);
    }
    let mut outputs = copy_outputs(&tx.outputs);
    let mut marker: Vec<u8> = Vec::new();
    marker.push(OP_RETURN);
    marker.push(1u8);
    marker.push(1u8);
    assert(marker@ =~= marker_script());
    outputs.push(TxOutput { value: 0, script: marker });
    let funding = PrevOut { txid: funding_outpoint.txid, vout: funding_outpoint.index as u32 };
    let mut consumers: Vec<bool> = Vec::new();
    let mut i: usize = 0;
    while i < tx.inputs.len()
        invariant
            i <= tx.inputs@.len(),
            funding == funding_prevout(funding_outpoint),
            consumers@.len() == i,
            forall|j: int| 0 <= j < i ==> #[trigger] consumers@[j] == same_prevout(tx.inputs@[j], funding),
        decreases tx.inputs@.len() - i,
    {
        consumers.push(prevout_eq(&tx.inputs[i], &funding));
        i = i + 1;
    }
    let inputs_copy = tx.inputs.clone();
    assert(inputs_copy@ =~= tx.inputs@);
    let r = ColoredFunding {
        tx: TxSkeleton { inputs: inputs_copy, outputs },
        transition: Transition {
            contract_id: commitment_info.contract_id,
            assignment_type: assignment,
            inputs,
            beneficiaries: seals(commitment_info, holder_vout),
        },
        consumers,
        host_vout: n,
    };
    assert(r.tx@.outputs =~= tx@.outputs.push(TxOutputView { value: 0, script: marker_script() }));
    assert(r.consumers@ =~= tx.inputs@.map_values(|p: PrevOut| same_prevout(p, funding_prevout(funding_outpoint))));
    Ok(r)
}

/// Conclude the commitment into the marker output: its script becomes
/// `OP_RETURN` pushing the 32 commitment bytes. Nothing else changes, so
/// concluding again with the same commitment gives the same transaction.
pub fn conclude_commitment(colored: &mut ColoredFunding, commitment: &[u8; 32])
    requires
        old(colored).host_vout < old(colored).tx.outputs@.len(),
    ensures
        final(colored).tx@.inputs == old(colored).tx@.inputs,
        final(colored).tx@.outputs == old(colored).tx@.outputs.update(
            old(colored).host_vout as int,
            TxOutputView { value: 0, script: concluded_script(commitment@) },
        ),
        final(colored).transition@ == old(colored).transition@,
        final(colored).consumers@ == old(colored).consumers@,
        final(colored).host_vout == old(colored).host_vout,
{
    let mut script: Vec<u8> = Vec::new();
    script.push(OP_RETURN);
    script.push(32u8);
    let mut i: usize = 0;
    while i < 32
        invariant
            i <= 32,
            script@ == seq![OP_RETURN, 32u8] + commitment@.subrange(0, i as int),
        decreases 32 - i,
    {
        script.push(commitment[i]);
        i = i + 1;
        assert(script@ =~= seq![OP_RETURN, 32u8] + commitment@.subrange(0, i as int));
    }
    assert(commitment@.subrange(0, 32) =~= commitment@);
    let ghost before = colored.tx.outputs@;
    let host = colored.host_vout;
    colored.tx.outputs.set(host, TxOutput { value: 0, script });
    assert(colored.tx@.outputs =~= before.map_values(|o: TxOutput| o@).update(
        host as int,
        TxOutputView { value: 0, script: concluded_script(commitment@) },
    ));
}

} // verus!
