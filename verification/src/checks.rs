//! The validation stages: broadcast suitability of the untrusted original
//! transaction, the self-spend check, the replayed-input check, and the
//! identification of the receiver's outputs.

use vstd::prelude::*;

use crate::error::ReplyableError;
use crate::event::{SessionEvent, SessionEventV};
use crate::model::{
    check_proposal_valid, copy_txouts, copy_u32s, fee_covers, fee_covers_exec, original_fee,
    original_vsize, original_vsize_exec, psbtins_view, txins_view, txouts_view, valid_proposal,
    ProposalV, TxOutV,
};
use crate::oracles::{CanBroadcast, IsOutputKnown, IsScriptOwned};
use crate::outside::{consensus_encode_tx, consensus_encoding_of};
use crate::replay::spec_apply_event;
use crate::session::{
    MaybeInputsOwned, MaybeInputsOwnedV, MaybeInputsSeen, MaybeInputsSeenV, OutputsUnknown,
    OutputsUnknownV, ReceiveSessionV, UncheckedProposal, WantsOutputs, WantsOutputsV,
};
use crate::transitions::{
    AssumeInteractiveTransition, MaybeInputsOwnedTransition, MaybeInputsSeenTransition,
    OutputsUnknownTransition, UncheckedProposalTransition,
};

verus! {

/// Minimum relay fee rate assumed when the caller supplies none, in
/// satoshis per kilo-weight-unit: one satoshi per virtual byte.
pub const MIN_RELAY_RATE_SAT_PER_KWU: u64 = 250;

/// The spending script of one original input.
pub open spec fn input_script(p: ProposalV, i: int) -> Seq<u8> {
    match p.psbt.inputs[i].witness_utxo {
        Option::Some(o) => o.script_pubkey,
        Option::None => Seq::empty(),
    }
}

impl UncheckedProposal {
    /// Validates the untrusted original transaction: it must be
    /// structurally valid, pay at least the given minimum fee rate (in
    /// satoshis per kilo-weight-unit, defaulting to the minimum relay
    /// rate), and be one the host can schedule for broadcast. Any
    /// violation is a terminal failure. A virtual byte being a quarter
    /// kilo-weight-unit, the rate check reads: 250 times the fee covers
    /// the rate times the assumed virtual size.
    #[verifier::loop_isolation(false)]
    pub fn check_broadcast_suitability<C: CanBroadcast>(
        &self,
        min_fee_rate: Option<u64>,
        can_broadcast: &C,
    ) -> (t: UncheckedProposalTransition)
        ensures
            !valid_proposal(self@.proposal) ==> (t matches UncheckedProposalTransition::Fatal {
                error,
            } && error@ == crate::error::ReplyableErrorV::PsbtInconsistent),
            valid_proposal(self@.proposal) && !fee_covers(
                (original_fee(self@.proposal) * 250) as u64,
                spec_min_rate_kwu(min_fee_rate),
                original_vsize(self@.proposal),
            ) ==> (t matches UncheckedProposalTransition::Fatal { error } && error@
                == crate::error::ReplyableErrorV::FeeRateTooLow),
            t matches UncheckedProposalTransition::Success { event, next } ==> valid_proposal(
                self@.proposal,
            ) && fee_covers(
                (original_fee(self@.proposal) * 250) as u64,
                spec_min_rate_kwu(min_fee_rate),
                original_vsize(self@.proposal),
            ) && can_broadcast.allows(consensus_encoding_of(self@.proposal.psbt.tx)) && event@
                == SessionEventV::CheckedBroadcastSuitability && next@ == (MaybeInputsOwnedV {
                ctx: self@.ctx,
                proposal: self@.proposal,
            }) && spec_apply_event(
                ReceiveSessionV::UncheckedProposal(self@),
                event@,
            ) == Option::Some(ReceiveSessionV::MaybeInputsOwned(next@)),
            t matches UncheckedProposalTransition::Fatal { error } ==> match error@ {
                crate::error::ReplyableErrorV::PsbtInconsistent => !valid_proposal(self@.proposal),
                crate::error::ReplyableErrorV::FeeRateTooLow => !fee_covers(
                    (original_fee(self@.proposal) * 250) as u64,
                    spec_min_rate_kwu(min_fee_rate),
                    original_vsize(self@.proposal),
                ),
                crate::error::ReplyableErrorV::NotBroadcastable => !can_broadcast.allows(
                    consensus_encoding_of(self@.proposal.psbt.tx),
                ),
                crate::error::ReplyableErrorV::Implementation(_) => true,
                _ => false,
            },
    {
        if !check_proposal_valid(&self.proposal) {
            return UncheckedProposalTransition::Fatal { error: ReplyableError::PsbtInconsistent };
        }
        let rate = match min_fee_rate {
            Option::Some(r) => r,
            Option::None => MIN_RELAY_RATE_SAT_PER_KWU,
        };
        let fee = sum_input_values_exec(&self.proposal) - sum_output_values_exec(&self.proposal);
        let vsize = original_vsize_exec(&self.proposal);
        if !fee_covers_exec(fee * 250, rate, vsize) {
            return UncheckedProposalTransition::Fatal { error: ReplyableError::FeeRateTooLow };
        }
        let tx_bytes = consensus_encode_tx(&self.proposal.psbt.tx);
        match can_broadcast.callback(&tx_bytes) {
            Result::Err(e) => UncheckedProposalTransition::Fatal {
                error: ReplyableError::Implementation(e),
            },
            Result::Ok(false) => UncheckedProposalTransition::Fatal {
                error: ReplyableError::NotBroadcastable,
            },
            Result::Ok(true) => {
                let event = SessionEvent::CheckedBroadcastSuitability;
                let next = MaybeInputsOwned {
                    ctx: self.ctx.duplicate(),
                    proposal: self.proposal.duplicate(),
                };
                proof {
                    assert(spec_apply_event(
                        ReceiveSessionV::UncheckedProposal(self@), event@)
                        == Option::Some(ReceiveSessionV::MaybeInputsOwned(next@)));
                }
                UncheckedProposalTransition::Success { event, next }
            },
        }
    }

    /// Skips the broadcast check for receivers whose payments only start
    /// after manual confirmation. The proposal must still be structurally
    /// valid; this transition cannot fail.
    pub fn assume_interactive_receiver(&self) -> (t: AssumeInteractiveTransition)
        ensures
            t.event@ == SessionEventV::CheckedBroadcastSuitability,
            t.next@ == (MaybeInputsOwnedV { ctx: self@.ctx, proposal: self@.proposal }),
            valid_proposal(self@.proposal) ==> spec_apply_event(
                ReceiveSessionV::UncheckedProposal(self@),
                t.event@,
            ) == Option::Some(ReceiveSessionV::MaybeInputsOwned(t.next@)),
    {
        let event = SessionEvent::CheckedBroadcastSuitability;
        let next = MaybeInputsOwned {
            ctx: self.ctx.duplicate(),
            proposal: self.proposal.duplicate(),
        };
        AssumeInteractiveTransition { event, next }
    }
}

/// The minimum fee rate in force for a given argument, in satoshis per
/// kilo-weight-unit.
pub open spec fn spec_min_rate_kwu(min_fee_rate: Option<u64>) -> u64 {
    match min_fee_rate {
        Option::Some(r) => r,
        Option::None => MIN_RELAY_RATE_SAT_PER_KWU,
    }
}

/// Sums what the original inputs provide.
fn sum_input_values_exec(p: &crate::model::Proposal) -> (r: u64)
    requires
        crate::model::sum_input_values(p@.psbt.inputs) <= crate::model::MAX_MONEY,
    ensures
        r == crate::model::sum_input_values(p@.psbt.inputs),
{
    let ghost ins = psbtins_view(p.psbt.inputs@);
    let mut sum: u64 = 0;
    let mut i: usize = 0;
    while i < p.psbt.inputs.len()
        invariant
            i <= p.psbt.inputs.len(),
            ins == psbtins_view(p.psbt.inputs@),
            ins.len() == p.psbt.inputs.len(),
            crate::model::sum_input_values(ins) <= crate::model::MAX_MONEY,
            sum == crate::model::sum_input_values(ins.take(i as int)),
            sum <= crate::model::MAX_MONEY,
        decreases p.psbt.inputs.len() - i,
    {
        proof {
            crate::model::lemma_sum_input_take_step(ins, i as int);
            crate::model::lemma_sum_input_prefix_le(ins, i as int + 1);
        }
        match &p.psbt.inputs[i].witness_utxo {
            Option::Some(o) => {
                sum = sum + o.value;
            },
            Option::None => {
            },
        }
        i = i + 1;
    }
    proof {
        assert(ins.take(ins.len() as int) =~= ins);
    }
    sum
}

/// Sums what the original outputs spend.
fn sum_output_values_exec(p: &crate::model::Proposal) -> (r: u64)
    requires
        crate::model::sum_output_values(p@.psbt.tx.outputs) <= crate::model::MAX_MONEY,
    ensures
        r == crate::model::sum_output_values(p@.psbt.tx.outputs),
{
    let ghost outs = txouts_view(p.psbt.tx.outputs@);
    let mut sum: u64 = 0;
    let mut i: usize = 0;
    while i < p.psbt.tx.outputs.len()
        invariant
            i <= p.psbt.tx.outputs.len(),
            outs == txouts_view(p.psbt.tx.outputs@),
            outs.len() == p.psbt.tx.outputs.len(),
            crate::model::sum_output_values(outs) <= crate::model::MAX_MONEY,
            sum == crate::model::sum_output_values(outs.take(i as int)),
            sum <= crate::model::MAX_MONEY,
        decreases p.psbt.tx.outputs.len() - i,
    {
        proof {
            crate::model::lemma_sum_output_take_step(outs, i as int);
            crate::model::lemma_sum_output_prefix_le(outs, i as int + 1);
        }
        sum = sum + p.psbt.tx.outputs[i].value;
        i = i + 1;
    }
    proof {
        assert(outs.take(outs.len() as int) =~= outs);
    }
    sum
}

impl MaybeInputsOwned {
    /// The original transaction in its consensus serialization, for the
    /// host to schedule as the fallback should the cooperative flow never
    /// finish.
    pub fn extract_tx_to_schedule_broadcast(&self) -> (r: Vec<u8>)
        requires
            crate::model::txids_well_formed(self@.proposal.psbt.tx.inputs),
        ensures
            r@ == consensus_encoding_of(self@.proposal.psbt.tx),
    {
        consensus_encode_tx(&self.proposal.psbt.tx)
    }

    /// Fails terminally if any original input spends one of the receiver's
    /// own outputs: signing such a proposal would move the receiver's prior
    /// coins without its notice.
    #[verifier::loop_isolation(false)]
    pub fn check_inputs_not_owned<O: IsScriptOwned>(&self, is_owned: &O) -> (t:
        MaybeInputsOwnedTransition)
        ensures
            t matches MaybeInputsOwnedTransition::Success { event, next } ==> (forall|i: int|
                0 <= i < self@.proposal.psbt.inputs.len()
                    ==> self@.proposal.psbt.inputs[i].witness_utxo is Some && !is_owned.owns(
                    #[trigger] input_script(self@.proposal, i),
                )) && event@ == SessionEventV::CheckedInputsNotOwned && next@
                == (MaybeInputsSeenV { ctx: self@.ctx, proposal: self@.proposal })
                && spec_apply_event(ReceiveSessionV::MaybeInputsOwned(self@), event@)
                == Option::Some(ReceiveSessionV::MaybeInputsSeen(next@)),
            t matches MaybeInputsOwnedTransition::Fatal { error } ==> match error@ {
                crate::error::ReplyableErrorV::InputOwned => exists|i: int|
                    0 <= i < self@.proposal.psbt.inputs.len() && is_owned.owns(
                        #[trigger] input_script(self@.proposal, i),
                    ),
                crate::error::ReplyableErrorV::PsbtInconsistent => exists|i: int|
                    0 <= i < self@.proposal.psbt.inputs.len()
                        && (#[trigger] self@.proposal.psbt.inputs[i]).witness_utxo is None,
                crate::error::ReplyableErrorV::Implementation(_) => true,
                _ => false,
            },
    {
        let ghost ins = psbtins_view(self.proposal.psbt.inputs@);
        let mut i: usize = 0;
        while i < self.proposal.psbt.inputs.len()
            invariant
                i <= self.proposal.psbt.inputs.len(),
                forall|j: int| 0 <= j < i ==> (#[trigger] ins[j]).witness_utxo is Some,
                forall|j: int| 0 <= j < i ==> !is_owned.owns(
                    #[trigger] input_script(self@.proposal, j),
                ),
            decreases self.proposal.psbt.inputs.len() - i,
        {
            match &self.proposal.psbt.inputs[i].witness_utxo {
                Option::None => {
                    proof {
                        assert(self@.proposal.psbt.inputs[i as int].witness_utxo is None);
                    }
                    return MaybeInputsOwnedTransition::Fatal {
                        error: ReplyableError::PsbtInconsistent,
                    };
                },
                Option::Some(o) => {
                    match is_owned.callback(&o.script_pubkey) {
                        Result::Err(e) => {
                            return MaybeInputsOwnedTransition::Fatal {
                                error: ReplyableError::Implementation(e),
                            };
                        },
                        Result::Ok(true) => {
                            proof {
                                assert(is_owned.owns(input_script(self@.proposal, i as int)));
                            }
                            return MaybeInputsOwnedTransition::Fatal {
                                error: ReplyableError::InputOwned,
                            };
                        },
                        Result::Ok(false) => {
                            proof {
                                assert(!is_owned.owns(input_script(self@.proposal, i as int)));
                            }
                        },
                    }
                },
            }
            i = i + 1;
        }
        let event = SessionEvent::CheckedInputsNotOwned;
        let next = MaybeInputsSeen {
            ctx: self.ctx.duplicate(),
            proposal: self.proposal.duplicate(),
        };
        proof {
            assert(spec_apply_event(ReceiveSessionV::MaybeInputsOwned(self@), event@)
                == Option::Some(ReceiveSessionV::MaybeInputsSeen(next@)));
        }
        MaybeInputsOwnedTransition::Success { event, next }
    }
}

impl MaybeInputsSeen {
    /// Fails terminally if any original input was already used in an
    /// earlier session: a sender replaying inputs across sessions is
    /// probing the receiver's wallet.
    #[verifier::loop_isolation(false)]
    pub fn check_no_inputs_seen_before<O: IsOutputKnown>(&self, is_known: &O) -> (t:
        MaybeInputsSeenTransition)
        ensures
            t matches MaybeInputsSeenTransition::Success { event, next } ==> (forall|i: int|
                0 <= i < self@.proposal.psbt.tx.inputs.len() ==> !is_known.knows(
                    (#[trigger] self@.proposal.psbt.tx.inputs[i]).prev_out,
                )) && event@ == SessionEventV::CheckedNoInputsSeenBefore && next@
                == (OutputsUnknownV { ctx: self@.ctx, proposal: self@.proposal })
                && spec_apply_event(ReceiveSessionV::MaybeInputsSeen(self@), event@)
                == Option::Some(ReceiveSessionV::OutputsUnknown(next@)),
            t matches MaybeInputsSeenTransition::Fatal { error } ==> match error@ {
                crate::error::ReplyableErrorV::InputSeenBefore => exists|i: int|
                    0 <= i < self@.proposal.psbt.tx.inputs.len() && is_known.knows(
                        (#[trigger] self@.proposal.psbt.tx.inputs[i]).prev_out,
                    ),
                crate::error::ReplyableErrorV::Implementation(_) => true,
                _ => false,
            },
    {
        let ghost ins = txins_view(self.proposal.psbt.tx.inputs@);
        let mut i: usize = 0;
        while i < self.proposal.psbt.tx.inputs.len()
            invariant
                i <= self.proposal.psbt.tx.inputs.len(),
                forall|j: int| 0 <= j < i ==> !is_known.knows(
                    (#[trigger] ins[j]).prev_out,
                ),
            decreases self.proposal.psbt.tx.inputs.len() - i,
        {
            match is_known.callback(&self.proposal.psbt.tx.inputs[i].prev_out) {
                Result::Err(e) => {
                    return MaybeInputsSeenTransition::Fatal {
                        error: ReplyableError::Implementation(e),
                    };
                },
                Result::Ok(true) => {
                    proof {
                        assert(is_known.knows(
                            self@.proposal.psbt.tx.inputs[i as int].prev_out));
                    }
                    return MaybeInputsSeenTransition::Fatal {
                        error: ReplyableError::InputSeenBefore,
                    };
                },
                Result::Ok(false) => {
                    proof {
                        assert(!is_known.knows(ins[i as int].prev_out));
                    }
                },
            }
            i = i + 1;
        }
        let event = SessionEvent::CheckedNoInputsSeenBefore;
        let next = OutputsUnknown {
            ctx: self.ctx.duplicate(),
            proposal: self.proposal.duplicate(),
        };
        proof {
            assert(spec_apply_event(ReceiveSessionV::MaybeInputsSeen(self@), event@)
                == Option::Some(ReceiveSessionV::OutputsUnknown(next@)));
        }
        MaybeInputsSeenTransition::Success { event, next }
    }
}

/// The indexes, among the first `n` outputs, whose script the oracle owns.
pub open spec fn owned_indexes<O: IsScriptOwned>(o: &O, outs: Seq<TxOutV>, n: int) -> Seq<u32>
    decreases n,
{
    if n <= 0 {
        Seq::empty()
    } else {
        owned_indexes(o, outs, n - 1) + (if o.owns(outs[n - 1].script_pubkey) {
            seq![(n - 1) as u32]
        } else {
            Seq::empty()
        })
    }
}

impl OutputsUnknown {
    /// Classifies each output of the original transaction as paying the
    /// receiver or not; fails terminally when nothing pays the receiver.
    #[verifier::loop_isolation(false)]
    pub fn identify_receiver_outputs<O: IsScriptOwned>(&self, is_receiver_output: &O) -> (t:
        OutputsUnknownTransition)
        requires
            crate::codec::fits_len(self@.proposal.psbt.tx.outputs.len()),
        ensures
            t matches OutputsUnknownTransition::Success { event, next } ==> {
                let owned = owned_indexes(
                    is_receiver_output,
                    self@.proposal.psbt.tx.outputs,
                    self@.proposal.psbt.tx.outputs.len() as int,
                );
                event@ == (SessionEventV::IdentifiedReceiverOutputs { owned_vouts: owned })
                    && owned.len() >= 1 && next@ == (WantsOutputsV {
                    ctx: self@.ctx,
                    proposal: self@.proposal,
                    owned_vouts: owned,
                    outputs: self@.proposal.psbt.tx.outputs,
                    change_vout: owned[0],
                }) && spec_apply_event(ReceiveSessionV::OutputsUnknown(self@), event@)
                    == Option::Some(ReceiveSessionV::WantsOutputs(next@))
            },
            t matches OutputsUnknownTransition::Fatal { error } ==> match error@ {
                crate::error::ReplyableErrorV::NoReceiverOutputs => owned_indexes(
                    is_receiver_output,
                    self@.proposal.psbt.tx.outputs,
                    self@.proposal.psbt.tx.outputs.len() as int,
                ).len() == 0,
                crate::error::ReplyableErrorV::Implementation(_) => true,
                _ => false,
            },
    {
        let ghost outs = txouts_view(self.proposal.psbt.tx.outputs@);
        let mut owned: Vec<u32> = Vec::new();
        let mut i: usize = 0;
        while i < self.proposal.psbt.tx.outputs.len()
            invariant
                i <= self.proposal.psbt.tx.outputs.len(),
                owned@ == owned_indexes(is_receiver_output, outs, i as int),
                owned@.len() <= i,
                forall|j: int| 0 <= j < owned@.len() ==> owned@[j] < i,
            decreases self.proposal.psbt.tx.outputs.len() - i,
        {
            match is_receiver_output.callback(&self.proposal.psbt.tx.outputs[i].script_pubkey) {
                Result::Err(e) => {
                    return OutputsUnknownTransition::Fatal {
                        error: ReplyableError::Implementation(e),
                    };
                },
                Result::Ok(true) => {
                    proof {
                        assert(is_receiver_output.owns(outs[i as int].script_pubkey));
                        assert(owned@.push(i as u32) =~= owned_indexes(
                            is_receiver_output, outs, i as int + 1));
                    }
                    owned.push(i as u32);
                },
                Result::Ok(false) => {
                    proof {
                        assert(!is_receiver_output.owns(outs[i as int].script_pubkey));
                        assert(owned@ =~= owned_indexes(
                            is_receiver_output, outs, i as int + 1));
                    }
                },
            }
            i = i + 1;
        }
        if owned.len() == 0 {
            return OutputsUnknownTransition::Fatal { error: ReplyableError::NoReceiverOutputs };
        }
        let change_vout = owned[0];
        let event = SessionEvent::IdentifiedReceiverOutputs { owned_vouts: copy_u32s(&owned) };
        let next = WantsOutputs {
            ctx: self.ctx.duplicate(),
            proposal: self.proposal.duplicate(),
            owned_vouts: owned,
            outputs: copy_txouts(&self.proposal.psbt.tx.outputs),
            change_vout,
        };
        proof {
            assert(spec_apply_event(ReceiveSessionV::OutputsUnknown(self@), event@)
                == Option::Some(ReceiveSessionV::WantsOutputs(next@)));
        }
        OutputsUnknownTransition::Success { event, next }
    }
}

} // verus!
