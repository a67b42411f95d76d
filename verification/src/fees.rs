//! Fee negotiation: how the fee for receiver-contributed weight is split
//! between the sender's declared allowance and the receiver's change.
//!
//! The additional virtual size the receiver introduced is charged at the
//! final floor rate: the larger of the caller's floor and the sender's
//! declared minimum. As much as possible of that fee is taken from the
//! output the sender designated, bounded by its declared allowance; the
//! shortfall comes out of the receiver's change, and only up to the
//! receiver's declared maximum effective rate over its own weight.

use vstd::prelude::*;

use crate::error::{ReplyableError, ReplyableErrorV};
use crate::event::{SessionEvent, SessionEventV};
use crate::model::{
    copy_psbtins, copy_txins, copy_txouts, mul_exceeds, pair_vsize, psbtins_view, sum_output_vsize,
    sum_pair_vsize, txins_view, txouts_view, InputPairV, Psbt, PsbtV, Transaction, TransactionV,
    TxOut, TxOutV, MAX_STANDARD_OUT_VSIZE,
};
use crate::replay::spec_apply_event;
use crate::session::{
    ProvisionalProposal, ProvisionalProposalV, ReceiveSessionV, WantsFeeRange, WantsFeeRangeV,
};
use crate::transitions::WantsFeeRangeTransition;

verus! {

/// Fee rate assumed when the caller supplies none, in satoshis per
/// virtual byte: the minimum relay rate.
pub const DEFAULT_FEE_RATE_SAT_PER_VB: u64 = 1;

/// What fee negotiation decides: the fee-adjusted proposal with the floor
/// rate recorded on it, or the terminal failure.
#[verifier::ext_equal]
pub ghost enum FeeOutcome {
    Success { payjoin_psbt: PsbtV, min_fee_rate_sat_per_vb: u64 },
    Failure { error: ReplyableErrorV },
}

/// The floor rate in force: the larger of the caller's floor (defaulting
/// to the minimum relay rate) and the sender's declared minimum.
pub open spec fn spec_floor(s: WantsFeeRangeV, min_fee_rate: Option<u64>) -> u64 {
    let caller = match min_fee_rate {
        Option::Some(r) => r,
        Option::None => DEFAULT_FEE_RATE_SAT_PER_VB,
    };
    if caller > s.proposal.params.min_fee_rate_sat_per_vb {
        caller
    } else {
        s.proposal.params.min_fee_rate_sat_per_vb
    }
}

/// The receiver's declared maximum effective rate, defaulting to the
/// minimum relay rate.
pub open spec fn spec_max_rate(max_fee_rate: Option<u64>) -> u64 {
    match max_fee_rate {
        Option::Some(r) => r,
        Option::None => DEFAULT_FEE_RATE_SAT_PER_VB,
    }
}

/// Virtual size the receiver's output changes added beyond the original
/// output set.
pub open spec fn added_out_vsize(s: WantsFeeRangeV) -> int {
    let newv = sum_output_vsize(s.outputs);
    let oldv = sum_output_vsize(s.proposal.psbt.tx.outputs);
    if newv > oldv {
        newv - oldv
    } else {
        0
    }
}

/// Total virtual size attributable to the receiver's contributions.
pub open spec fn receiver_vsize(s: WantsFeeRangeV) -> int {
    sum_pair_vsize(s.receiver_inputs) + added_out_vsize(s)
}

/// The size bounds under which the fee arithmetic is defined.
pub open spec fn sizes_sane(s: WantsFeeRangeV) -> bool {
    &&& sum_pair_vsize(s.receiver_inputs) <= MAX_STANDARD_OUT_VSIZE
    &&& sum_output_vsize(s.outputs) <= MAX_STANDARD_OUT_VSIZE
    &&& s.proposal.psbt.tx.inputs.len() + s.receiver_inputs.len() < 4294967296
}

/// How many satoshis the sender authorized to be taken from its designated
/// fee output, as far as that output survived substitution, still points
/// into the set, is distinct from the receiver's change, and holds the
/// money. The position was tracked when the outputs were committed.
pub open spec fn sender_allowance(s: WantsFeeRangeV) -> int {
    match s.sender_fee_vout {
        Option::Some(f) => if (f as int) < s.outputs.len() && f != s.change_vout {
            if s.proposal.params.max_additional_fee_contribution <= s.outputs[f as int].value {
                s.proposal.params.max_additional_fee_contribution as int
            } else {
                s.outputs[f as int].value as int
            }
        } else {
            0
        },
        Option::None => 0,
    }
}

/// The whole fee owed for the receiver's additional weight.
pub open spec fn spec_total_fee(s: WantsFeeRangeV, min_fee_rate: Option<u64>) -> int {
    spec_floor(s, min_fee_rate) * receiver_vsize(s)
}

/// What the sender's allowance covers of the total fee.
pub open spec fn spec_sender_paid(s: WantsFeeRangeV, min_fee_rate: Option<u64>) -> int {
    if spec_total_fee(s, min_fee_rate) <= sender_allowance(s) {
        spec_total_fee(s, min_fee_rate)
    } else {
        sender_allowance(s)
    }
}

/// What is left for the receiver to pay out of its change.
pub open spec fn spec_receiver_owed(s: WantsFeeRangeV, min_fee_rate: Option<u64>) -> int {
    spec_total_fee(s, min_fee_rate) - spec_sender_paid(s, min_fee_rate)
}

/// The output set after the fee deductions.
pub open spec fn adjusted_outputs(s: WantsFeeRangeV, min_fee_rate: Option<u64>) -> Seq<TxOutV> {
    let idx = (match s.sender_fee_vout {
        Option::Some(f) => f,
        Option::None => 0,
    }) as int;
    let paid = spec_sender_paid(s, min_fee_rate);
    let owed = spec_receiver_owed(s, min_fee_rate);
    let outs1 = if paid > 0 {
        s.outputs.update(
            idx,
            TxOutV {
                value: (s.outputs[idx].value - paid) as u64,
                script_pubkey: s.outputs[idx].script_pubkey,
            },
        )
    } else {
        s.outputs
    };
    if owed > 0 {
        outs1.update(
            s.change_vout as int,
            TxOutV {
                value: (outs1[s.change_vout as int].value - owed) as u64,
                script_pubkey: outs1[s.change_vout as int].script_pubkey,
            },
        )
    } else {
        outs1
    }
}

/// The fee-adjusted proposal: the original transaction joined with the
/// receiver's inputs and the adjusted outputs.
pub open spec fn payjoin_psbt_of(s: WantsFeeRangeV, outs: Seq<TxOutV>) -> PsbtV {
    PsbtV {
        tx: TransactionV {
            version: s.proposal.psbt.tx.version,
            lock_time: s.proposal.psbt.tx.lock_time,
            inputs: s.proposal.psbt.tx.inputs + s.receiver_inputs.map_values(
                |p: InputPairV| p.txin,
            ),
            outputs: outs,
        },
        inputs: s.proposal.psbt.inputs + s.receiver_inputs.map_values(
            |p: InputPairV| p.psbtin,
        ),
    }
}

/// The unique outcome fee negotiation computes for a stage and the two
/// caller-supplied rates.
pub open spec fn spec_fee_outcome(
    s: WantsFeeRangeV,
    min_fee_rate: Option<u64>,
    max_fee_rate: Option<u64>,
) -> FeeOutcome {
    if !sizes_sane(s) {
        FeeOutcome::Failure { error: ReplyableErrorV::FeeOverflow }
    } else if spec_max_rate(max_fee_rate) == 0 && (s.receiver_inputs.len() > 0 || s.outputs
        != s.proposal.psbt.tx.outputs) {
        FeeOutcome::Failure { error: ReplyableErrorV::FeeTooHigh }
    } else if spec_total_fee(s, min_fee_rate) > u64::MAX {
        FeeOutcome::Failure { error: ReplyableErrorV::FeeOverflow }
    } else if spec_receiver_owed(s, min_fee_rate) > spec_max_rate(max_fee_rate) * receiver_vsize(
        s,
    ) {
        FeeOutcome::Failure { error: ReplyableErrorV::FeeTooHigh }
    } else if spec_receiver_owed(s, min_fee_rate) > s.outputs[s.change_vout as int].value {
        FeeOutcome::Failure { error: ReplyableErrorV::ChangeUnderflow }
    } else {
        FeeOutcome::Success {
            payjoin_psbt: payjoin_psbt_of(s, adjusted_outputs(s, min_fee_rate)),
            min_fee_rate_sat_per_vb: spec_floor(s, min_fee_rate),
        }
    }
}

/// The effective fee charged to the receiver never exceeds its declared
/// maximum rate over its contributed weight: when negotiation succeeds,
/// what the receiver pays is at most the maximum rate times the receiver's
/// additional virtual size.
pub proof fn lemma_receiver_fee_bounded(
    s: WantsFeeRangeV,
    min_fee_rate: Option<u64>,
    max_fee_rate: Option<u64>,
)
    requires
        spec_fee_outcome(s, min_fee_rate, max_fee_rate) is Success,
    ensures
        spec_receiver_owed(s, min_fee_rate) <= spec_max_rate(max_fee_rate) * receiver_vsize(s),
{
}

/// A receiver that declared a zero maximum effective rate while having
/// contributed any input, or changed the committed output set in any way,
/// always fails terminally: the engine never silently overspends, even
/// when the contributed weight is declared as zero or the output changes
/// shrank the set.
pub proof fn lemma_zero_max_rate_fails(
    s: WantsFeeRangeV,
    min_fee_rate: Option<u64>,
    max_fee_rate: Option<u64>,
)
    requires
        spec_max_rate(max_fee_rate) == 0,
        s.receiver_inputs.len() > 0 || s.outputs != s.proposal.psbt.tx.outputs,
    ensures
        spec_fee_outcome(s, min_fee_rate, max_fee_rate) is Failure,
{
}

/// A receiver that contributed nothing pays nothing and changes nothing:
/// when it kept the original output set and added no inputs, the
/// fee-adjusted proposal's transaction equals the original transaction.
pub proof fn lemma_no_contribution_keeps_tx(
    s: WantsFeeRangeV,
    min_fee_rate: Option<u64>,
    max_fee_rate: Option<u64>,
)
    requires
        s.receiver_inputs.len() == 0,
        s.outputs == s.proposal.psbt.tx.outputs,
        spec_fee_outcome(s, min_fee_rate, max_fee_rate) is Success,
    ensures
        spec_fee_outcome(
            s,
            min_fee_rate,
            max_fee_rate,
        )->Success_payjoin_psbt.tx =~= s.proposal.psbt.tx,
        spec_fee_outcome(
            s,
            min_fee_rate,
            max_fee_rate,
        )->Success_payjoin_psbt.inputs =~= s.proposal.psbt.inputs,
{
    assert(receiver_vsize(s) == 0);
    assert(spec_total_fee(s, min_fee_rate) == 0) by {
        vstd::arithmetic::mul::lemma_mul_basics(spec_floor(s, min_fee_rate) as int);
    }
    assert(spec_receiver_owed(s, min_fee_rate) == 0);
    assert(adjusted_outputs(s, min_fee_rate) == s.outputs);
    assert(s.receiver_inputs.map_values(|p: InputPairV| p.txin) =~= Seq::<
        crate::model::TxInV,
    >::empty());
    assert(s.receiver_inputs.map_values(|p: InputPairV| p.psbtin) =~= Seq::<
        crate::model::PsbtInputV,
    >::empty());
    assert(payjoin_psbt_of(s, adjusted_outputs(s, min_fee_rate)).tx.inputs
        =~= s.proposal.psbt.tx.inputs);
    assert(payjoin_psbt_of(s, adjusted_outputs(s, min_fee_rate)).inputs
        =~= s.proposal.psbt.inputs);
}

impl WantsFeeRange {
    /// Negotiates the fee split and produces the fee-adjusted proposal
    /// ready for signing, or the terminal failure the inputs amount to.
    #[verifier::loop_isolation(false)]
    #[verifier::rlimit(60)]
    pub fn apply_fee_range(
        &self,
        min_fee_rate_sat_per_vb: Option<u64>,
        max_effective_fee_rate_sat_per_vb: Option<u64>,
    ) -> (t: WantsFeeRangeTransition)
        requires
            self@.wf(),
        ensures
            spec_fee_outcome(self@, min_fee_rate_sat_per_vb, max_effective_fee_rate_sat_per_vb)
                matches FeeOutcome::Failure { error } ==> (t
                matches WantsFeeRangeTransition::Fatal { error: e2 } && e2@ == error),
            spec_fee_outcome(self@, min_fee_rate_sat_per_vb, max_effective_fee_rate_sat_per_vb)
                matches FeeOutcome::Success { payjoin_psbt, min_fee_rate_sat_per_vb: floor }
                ==> (t matches WantsFeeRangeTransition::Success { event, next } && event@
                == (SessionEventV::AppliedFeeRange {
                payjoin_psbt,
                min_fee_rate_sat_per_vb: floor,
            }) && next@ == (ProvisionalProposalV {
                ctx: self@.ctx,
                proposal: self@.proposal,
                payjoin_psbt,
                min_fee_rate_sat_per_vb: floor,
            }) && spec_apply_event(ReceiveSessionV::WantsFeeRange(self@), event@)
                == Option::Some(ReceiveSessionV::ProvisionalProposal(next@))),
    {
        let ghost sv = self@;
        let ghost minfr = min_fee_rate_sat_per_vb;
        let ghost maxfr = max_effective_fee_rate_sat_per_vb;
        // Virtual size of the receiver's contributed inputs.
        let ghost pairs = crate::model::pairs_view(self.receiver_inputs@);
        let mut in_vsize: u64 = 0;
        let mut i: usize = 0;
        while i < self.receiver_inputs.len()
            invariant
                i <= self.receiver_inputs@.len(),
                in_vsize == sum_pair_vsize(pairs.take(i as int)),
                in_vsize <= MAX_STANDARD_OUT_VSIZE,
            decreases self.receiver_inputs@.len() - i,
        {
            proof {
                crate::model::lemma_sum_pair_vsize_take_step(pairs, i as int);
            }
            let v = crate::model::pair_vsize_exec(&self.receiver_inputs[i]);
            if v > MAX_STANDARD_OUT_VSIZE - in_vsize {
                proof {
                    crate::select::lemma_sum_pair_vsize_prefix_le(pairs, i as int + 1);
                }
                return WantsFeeRangeTransition::Fatal { error: ReplyableError::FeeOverflow };
            }
            in_vsize = in_vsize + v;
            i = i + 1;
        }
        proof {
            assert(pairs.take(pairs.len() as int) =~= pairs);
        }
        // Virtual size of the committed output set.
        let ghost outs = txouts_view(self.outputs@);
        let mut new_out_vsize: u64 = 0;
        let mut k: usize = 0;
        while k < self.outputs.len()
            invariant
                k <= self.outputs@.len(),
                new_out_vsize == sum_output_vsize(outs.take(k as int)),
                new_out_vsize <= MAX_STANDARD_OUT_VSIZE,
            decreases self.outputs@.len() - k,
        {
            proof {
                crate::model::lemma_sum_output_vsize_take_step(outs, k as int);
            }
            let slen = self.outputs[k].script_pubkey.len() as u64;
            if slen > MAX_STANDARD_OUT_VSIZE - 9 || 9 + slen > MAX_STANDARD_OUT_VSIZE
                - new_out_vsize {
                proof {
                    crate::model::lemma_sum_output_vsize_prefix_le(outs, k as int + 1);
                }
                return WantsFeeRangeTransition::Fatal { error: ReplyableError::FeeOverflow };
            }
            new_out_vsize = new_out_vsize + 9 + slen;
            k = k + 1;
        }
        proof {
            assert(outs.take(outs.len() as int) =~= outs);
        }
        // The input count of the joined transaction must stay encodable.
        let n_orig = self.proposal.psbt.tx.inputs.len() as u64;
        let n_recv = self.receiver_inputs.len() as u64;
        if n_orig >= 4294967296u64 || n_recv >= 4294967296u64 || n_orig + n_recv
            >= 4294967296u64 {
            return WantsFeeRangeTransition::Fatal { error: ReplyableError::FeeOverflow };
        }
        proof {
            assert(sizes_sane(sv));
        }
        // Size of the original output set, bounded by validity.
        let ghost oouts = txouts_view(self.proposal.psbt.tx.outputs@);
        let mut old_out_vsize: u64 = 0;
        let mut m: usize = 0;
        while m < self.proposal.psbt.tx.outputs.len()
            invariant
                m <= self.proposal.psbt.tx.outputs@.len(),
                old_out_vsize == sum_output_vsize(oouts.take(m as int)),
                old_out_vsize <= MAX_STANDARD_OUT_VSIZE,
            decreases self.proposal.psbt.tx.outputs@.len() - m,
        {
            proof {
                crate::model::lemma_sum_output_vsize_take_step(oouts, m as int);
                crate::model::lemma_sum_output_vsize_prefix_le(oouts, m as int + 1);
            }
            old_out_vsize = old_out_vsize + 9 + (
            self.proposal.psbt.tx.outputs[m].script_pubkey.len() as u64);
            m = m + 1;
        }
        proof {
            assert(oouts.take(oouts.len() as int) =~= oouts);
        }
        let added = if new_out_vsize > old_out_vsize {
            new_out_vsize - old_out_vsize
        } else {
            0
        };
        let rvsize = in_vsize + added;
        proof {
            assert(rvsize as int == receiver_vsize(sv));
        }
        let maxr = match max_effective_fee_rate_sat_per_vb {
            Option::Some(r) => r,
            Option::None => DEFAULT_FEE_RATE_SAT_PER_VB,
        };
        if maxr == 0 && (self.receiver_inputs.len() > 0 || !crate::model::eq_txout_lists(
            &self.outputs,
            &self.proposal.psbt.tx.outputs,
        )) {
            return WantsFeeRangeTransition::Fatal { error: ReplyableError::FeeTooHigh };
        }
        let caller_floor = match min_fee_rate_sat_per_vb {
            Option::Some(r) => r,
            Option::None => DEFAULT_FEE_RATE_SAT_PER_VB,
        };
        let floor = if caller_floor > self.proposal.params.min_fee_rate_sat_per_vb {
            caller_floor
        } else {
            self.proposal.params.min_fee_rate_sat_per_vb
        };
        proof {
            assert(floor == spec_floor(sv, minfr));
        }
        if mul_exceeds(floor, rvsize) {
            return WantsFeeRangeTransition::Fatal { error: ReplyableError::FeeOverflow };
        }
        let total_fee = floor * rvsize;
        proof {
            assert(total_fee as int == spec_total_fee(sv, minfr));
        }
        let idx: u32 = match self.sender_fee_vout {
            Option::Some(f) => f,
            Option::None => 0,
        };
        let allowance: u64 = match self.sender_fee_vout {
            Option::Some(f) => {
                if (f as usize) < self.outputs.len() && f != self.change_vout {
                    if self.proposal.params.max_additional_fee_contribution
                        <= self.outputs[f as usize].value {
                        self.proposal.params.max_additional_fee_contribution
                    } else {
                        self.outputs[f as usize].value
                    }
                } else {
                    0
                }
            },
            Option::None => 0,
        };
        proof {
            assert(allowance as int == sender_allowance(sv));
        }
        let sender_paid = if total_fee <= allowance {
            total_fee
        } else {
            allowance
        };
        let owed = total_fee - sender_paid;
        proof {
            assert(owed as int == spec_receiver_owed(sv, minfr));
        }
        let too_high: bool = if owed == 0 {
            proof {
                vstd::arithmetic::mul::lemma_mul_nonnegative(maxr as int, rvsize as int);
            }
            false
        } else if mul_exceeds(maxr, rvsize) {
            false
        } else {
            owed > maxr * rvsize
        };
        if too_high {
            return WantsFeeRangeTransition::Fatal { error: ReplyableError::FeeTooHigh };
        }
        if owed > self.outputs[self.change_vout as usize].value {
            return WantsFeeRangeTransition::Fatal { error: ReplyableError::ChangeUnderflow };
        }
        // Deduct the fees from the designated outputs.
        let mut new_outputs = copy_txouts(&self.outputs);
        if sender_paid > 0 {
            let value = new_outputs[idx as usize].value;
            let script = crate::model::copy_bytes(&new_outputs[idx as usize].script_pubkey);
            new_outputs.set(idx as usize, TxOut { value: value - sender_paid, script_pubkey: script });
        }
        if owed > 0 {
            let value = new_outputs[self.change_vout as usize].value;
            let script = crate::model::copy_bytes(
                &new_outputs[self.change_vout as usize].script_pubkey);
            new_outputs.set(
                self.change_vout as usize,
                TxOut { value: value - owed, script_pubkey: script },
            );
        }
        proof {
            assert(txouts_view(new_outputs@) =~= adjusted_outputs(sv, minfr));
        }
        // Join the original inputs with the receiver's contributions.
        let mut txins = copy_txins(&self.proposal.psbt.tx.inputs);
        let mut a: usize = 0;
        while a < self.receiver_inputs.len()
            invariant
                a <= self.receiver_inputs@.len(),
                txins_view(txins@) == sv.proposal.psbt.tx.inputs + pairs.take(a as int).map_values(
                    |p: InputPairV| p.txin,
                ),
            decreases self.receiver_inputs@.len() - a,
        {
            let ghost before = txins_view(txins@);
            let d = self.receiver_inputs[a].txin.duplicate();
            let ghost dv = d@;
            txins.push(d);
            proof {
                assert(dv == pairs[a as int].txin);
                assert(txins_view(txins@) =~= before.push(dv));
                assert(before.push(dv) =~= sv.proposal.psbt.tx.inputs + pairs.take(
                    a as int + 1,
                ).map_values(|p: InputPairV| p.txin));
            }
            a = a + 1;
        }
        let mut psbtins = copy_psbtins(&self.proposal.psbt.inputs);
        let mut b: usize = 0;
        while b < self.receiver_inputs.len()
            invariant
                b <= self.receiver_inputs@.len(),
                psbtins_view(psbtins@) == sv.proposal.psbt.inputs + pairs.take(
                    b as int,
                ).map_values(|p: InputPairV| p.psbtin),
            decreases self.receiver_inputs@.len() - b,
        {
            let ghost before = psbtins_view(psbtins@);
            let d = self.receiver_inputs[b].psbtin.duplicate();
            let ghost dv = d@;
            psbtins.push(d);
            proof {
                assert(dv == pairs[b as int].psbtin);
                assert(psbtins_view(psbtins@) =~= before.push(dv));
                assert(before.push(dv) =~= sv.proposal.psbt.inputs + pairs.take(
                    b as int + 1,
                ).map_values(|p: InputPairV| p.psbtin));
            }
            b = b + 1;
        }
        let payjoin_psbt = Psbt {
            tx: Transaction {
                version: self.proposal.psbt.tx.version,
                lock_time: self.proposal.psbt.tx.lock_time,
                inputs: txins,
                outputs: new_outputs,
            },
            inputs: psbtins,
        };
        proof {
            assert(pairs.take(pairs.len() as int) =~= pairs);
            assert(payjoin_psbt@ =~= payjoin_psbt_of(sv, adjusted_outputs(sv, minfr)));
        }
        let event = SessionEvent::AppliedFeeRange {
            payjoin_psbt: payjoin_psbt.duplicate(),
            min_fee_rate_sat_per_vb: floor,
        };
        let next = ProvisionalProposal {
            ctx: self.ctx.duplicate(),
            proposal: self.proposal.duplicate(),
            payjoin_psbt,
            min_fee_rate_sat_per_vb: floor,
        };
        proof {
            assert(next@ =~= (ProvisionalProposalV {
                ctx: sv.ctx,
                proposal: sv.proposal,
                payjoin_psbt: payjoin_psbt_of(sv, adjusted_outputs(sv, minfr)),
                min_fee_rate_sat_per_vb: floor,
            }));
            assert(payjoin_psbt_of(sv, adjusted_outputs(sv, minfr)).wf());
            assert(spec_apply_event(ReceiveSessionV::WantsFeeRange(sv), event@)
                == Option::Some(ReceiveSessionV::ProvisionalProposal(next@)));
        }
        WantsFeeRangeTransition::Success { event, next }
    }
}

} // verus!
