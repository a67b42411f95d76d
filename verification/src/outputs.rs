//! The output-substitution stage: the receiver may replace its own outputs
//! or redirect its change before committing the proposal's output set.
//!
//! Replacement only ever touches receiver-owned positions: the sender's
//! outputs keep their place and content, replacement outputs fill the
//! receiver-owned positions in order, and surplus replacement outputs are
//! appended after the original set.

use vstd::prelude::*;

use crate::error::OutputSubstitutionError;
use crate::event::{SessionEvent, SessionEventV};
use crate::model::{
    check_outputs_standard, copy_txouts, eq_bytes, sum_output_vsize, txouts_view, TxOut, TxOutV,
    MAX_STANDARD_OUT_VSIZE,
};
use crate::replay::spec_apply_event;
use crate::session::{ReceiveSessionV, WantsInputs, WantsInputsV, WantsOutputs, WantsOutputsV};
use crate::transitions::WantsOutputsTransition;

verus! {

/// The first output whose script equals the given one, searching from
/// `from`.
pub open spec fn find_script_index(outs: Seq<TxOutV>, script: Seq<u8>, from: int) -> Option<int>
    decreases outs.len() - from,
{
    if from < 0 || from >= outs.len() {
        Option::None
    } else if outs[from].script_pubkey == script {
        Option::Some(from)
    } else {
        find_script_index(outs, script, from + 1)
    }
}

/// A replacement output set the engine accepts: non-empty and standard.
pub open spec fn acceptable_outputs(outs: Seq<TxOutV>) -> bool {
    &&& outs.len() >= 1
    &&& outs.len() < 4294967296
    &&& crate::codec::encodable_txouts(outs)
    &&& sum_output_vsize(outs) <= MAX_STANDARD_OUT_VSIZE
}

/// Whether position `i` of the original output list pays the receiver.
pub open spec fn is_owned_index(owned: Seq<u32>, i: int) -> bool {
    exists|k: int| 0 <= k < owned.len() && owned[k] == i
}

/// How many positions below `p` pay the receiver.
pub open spec fn owned_count_below(owned: Seq<u32>, p: int) -> int
    decreases p,
{
    if p <= 0 {
        0
    } else {
        owned_count_below(owned, p - 1) + (if is_owned_index(owned, p - 1) {
            1int
        } else {
            0int
        })
    }
}

/// The receiver-owned position count only grows with the bound.
pub proof fn lemma_owned_count_monotone(owned: Seq<u32>, a: int, b: int)
    requires
        a <= b,
    ensures
        owned_count_below(owned, a) <= owned_count_below(owned, b),
    decreases b - a,
{
    if a < b {
        lemma_owned_count_monotone(owned, a, b - 1);
    }
}

/// The output set a replacement produces: receiver-owned positions take
/// the replacement outputs in order, every other position keeps the
/// sender's original output, and surplus replacement outputs are appended
/// at the end.
pub open spec fn merged_outputs(orig: Seq<TxOutV>, owned: Seq<u32>, repl: Seq<TxOutV>) -> Seq<
    TxOutV,
>
    recommends
        owned_count_below(owned, orig.len() as int) <= repl.len(),
{
    let k = owned_count_below(owned, orig.len() as int);
    Seq::new(
        (orig.len() + repl.len() - k) as nat,
        |i: int|
            if i < orig.len() {
                if is_owned_index(owned, i) {
                    repl[owned_count_below(owned, i)]
                } else {
                    orig[i]
                }
            } else {
                repl[k + i - orig.len()]
            },
    )
}

/// Checks whether position `i` pays the receiver.
fn is_owned_exec(owned: &Vec<u32>, i: usize) -> (r: bool)
    ensures
        r == is_owned_index(owned@, i as int),
{
    let mut k: usize = 0;
    while k < owned.len()
        invariant
            k <= owned@.len(),
            forall|j: int| 0 <= j < k ==> (#[trigger] owned@[j]) != i as int,
        decreases owned@.len() - k,
    {
        if (owned[k] as usize) == i {
            proof {
                assert(owned@[k as int] == i as int);
            }
            return true;
        }
        k = k + 1;
    }
    proof {
        if is_owned_index(owned@, i as int) {
            let j = choose|j: int| 0 <= j < owned@.len() && owned@[j] == i as int;
            assert(owned@[j] != i as int);
        }
    }
    false
}

impl WantsOutputs {
    /// Whether the sender allows this receiver to replace its outputs.
    pub fn output_substitution(&self) -> (r: crate::uri::OutputSubstitution)
        ensures
            r == (if self@.proposal.params.output_substitution_allowed {
                crate::uri::OutputSubstitution::Enabled
            } else {
                crate::uri::OutputSubstitution::Disabled
            }),
    {
        if self.proposal.params.output_substitution_allowed {
            crate::uri::OutputSubstitution::Enabled
        } else {
            crate::uri::OutputSubstitution::Disabled
        }
    }

    /// Replaces the receiver's outputs. The sender must have allowed
    /// substitution; the replacement list must fill every receiver-owned
    /// position, keep the merged set standard, and contain the drain
    /// script that picks the output absorbing fees. Sender outputs are
    /// never touched: they keep their position and content. Failure keeps
    /// this stage unchanged and may be retried.
    #[verifier::loop_isolation(false)]
    pub fn replace_receiver_outputs(
        &self,
        replacement_outputs: Vec<TxOut>,
        drain_script: &Vec<u8>,
    ) -> (r: Result<WantsOutputs, OutputSubstitutionError>)
        ensures
            !self@.proposal.params.output_substitution_allowed <==> (r matches Result::Err(
                OutputSubstitutionError::Disabled,
            )),
            r matches Result::Err(OutputSubstitutionError::NoOutputs)
                <==> self@.proposal.params.output_substitution_allowed && txouts_view(
                replacement_outputs@,
            ).len() == 0,
            r matches Result::Err(OutputSubstitutionError::NotEnoughOutputs)
                <==> self@.proposal.params.output_substitution_allowed && txouts_view(
                replacement_outputs@,
            ).len() >= 1 && txouts_view(replacement_outputs@).len() < owned_count_below(
                self@.owned_vouts,
                self@.proposal.psbt.tx.outputs.len() as int,
            ),
            r matches Result::Err(OutputSubstitutionError::OversizedOutputs)
                <==> self@.proposal.params.output_substitution_allowed && txouts_view(
                replacement_outputs@,
            ).len() >= 1 && txouts_view(replacement_outputs@).len() >= owned_count_below(
                self@.owned_vouts,
                self@.proposal.psbt.tx.outputs.len() as int,
            ) && !acceptable_outputs(
                merged_outputs(
                    self@.proposal.psbt.tx.outputs,
                    self@.owned_vouts,
                    txouts_view(replacement_outputs@),
                ),
            ),
            r matches Result::Err(OutputSubstitutionError::DrainScriptNotFound)
                <==> self@.proposal.params.output_substitution_allowed && txouts_view(
                replacement_outputs@,
            ).len() >= 1 && txouts_view(replacement_outputs@).len() >= owned_count_below(
                self@.owned_vouts,
                self@.proposal.psbt.tx.outputs.len() as int,
            ) && acceptable_outputs(
                merged_outputs(
                    self@.proposal.psbt.tx.outputs,
                    self@.owned_vouts,
                    txouts_view(replacement_outputs@),
                ),
            ) && find_script_index(
                merged_outputs(
                    self@.proposal.psbt.tx.outputs,
                    self@.owned_vouts,
                    txouts_view(replacement_outputs@),
                ),
                drain_script@,
                0,
            ) is None,
            r matches Result::Ok(w) ==> (find_script_index(
                merged_outputs(
                    self@.proposal.psbt.tx.outputs,
                    self@.owned_vouts,
                    txouts_view(replacement_outputs@),
                ),
                drain_script@,
                0,
            ) matches Option::Some(c) && w@ == (WantsOutputsV {
                ctx: self@.ctx,
                proposal: self@.proposal,
                owned_vouts: self@.owned_vouts,
                outputs: merged_outputs(
                    self@.proposal.psbt.tx.outputs,
                    self@.owned_vouts,
                    txouts_view(replacement_outputs@),
                ),
                change_vout: c as u32,
            })),
            r matches Result::Ok(w) ==> (forall|i: int|
                0 <= i < self@.proposal.psbt.tx.outputs.len() && !is_owned_index(
                    self@.owned_vouts,
                    i,
                ) ==> w@.outputs[i] == self@.proposal.psbt.tx.outputs[i]),
    {
        let ghost origv = self@.proposal.psbt.tx.outputs;
        let ghost ownedv = self@.owned_vouts;
        let ghost replv = txouts_view(replacement_outputs@);
        if !self.proposal.params.output_substitution_allowed {
            return Result::Err(OutputSubstitutionError::Disabled);
        }
        if replacement_outputs.len() == 0 {
            return Result::Err(OutputSubstitutionError::NoOutputs);
        }
        let orig = &self.proposal.psbt.tx.outputs;
        // Count the receiver-owned positions the replacement must fill.
        let mut total_owned: usize = 0;
        let mut c: usize = 0;
        while c < orig.len()
            invariant
                c <= orig.len(),
                total_owned as int == owned_count_below(ownedv, c as int),
                total_owned <= c,
            decreases orig.len() - c,
        {
            if is_owned_exec(&self.owned_vouts, c) {
                total_owned = total_owned + 1;
            }
            c = c + 1;
        }
        if replacement_outputs.len() < total_owned {
            return Result::Err(OutputSubstitutionError::NotEnoughOutputs);
        }
        // Merge: receiver positions take replacements in order, sender
        // positions keep the original outputs, surplus is appended.
        let ghost mergedv = merged_outputs(origv, ownedv, replv);
        let mut merged: Vec<TxOut> = Vec::new();
        let mut rank: usize = 0;
        let mut i: usize = 0;
        while i < orig.len()
            invariant
                i <= orig.len(),
                rank as int == owned_count_below(ownedv, i as int),
                merged@.len() == i,
                forall|m: int| 0 <= m < i ==> (#[trigger] merged@[m]@) == mergedv[m],
            decreases orig.len() - i,
        {
            proof {
                lemma_owned_count_monotone(ownedv, i as int + 1, origv.len() as int);
            }
            if is_owned_exec(&self.owned_vouts, i) {
                merged.push(replacement_outputs[rank].duplicate());
                rank = rank + 1;
            } else {
                merged.push(orig[i].duplicate());
            }
            i = i + 1;
        }
        proof {
            assert(rank as int == owned_count_below(ownedv, origv.len() as int));
        }
        let mut t: usize = rank;
        while t < replacement_outputs.len()
            invariant
                total_owned <= t <= replacement_outputs.len(),
                total_owned as int == owned_count_below(ownedv, origv.len() as int),
                merged@.len() == origv.len() + t - total_owned,
                forall|m: int| 0 <= m < merged@.len() ==> (#[trigger] merged@[m]@) == mergedv[m],
            decreases replacement_outputs.len() - t,
        {
            merged.push(replacement_outputs[t].duplicate());
            t = t + 1;
        }
        proof {
            assert(txouts_view(merged@) =~= mergedv);
        }
        if !check_outputs_standard(&merged) {
            return Result::Err(OutputSubstitutionError::OversizedOutputs);
        }
        let mut f: usize = 0;
        let mut found: Option<usize> = Option::None;
        while f < merged.len()
            invariant
                f <= merged@.len(),
                txouts_view(merged@) == mergedv,
                match found {
                    Option::Some(k) => find_script_index(mergedv, drain_script@, 0)
                        == Option::Some(k as int),
                    Option::None => find_script_index(mergedv, drain_script@, 0)
                        == find_script_index(mergedv, drain_script@, f as int),
                },
                found is Some ==> f == merged@.len(),
            decreases merged@.len() - f,
        {
            if eq_bytes(&merged[f].script_pubkey, drain_script) {
                found = Option::Some(f);
                proof {
                    assert(mergedv[f as int].script_pubkey == drain_script@);
                }
                break ;
            }
            f = f + 1;
        }
        match found {
            Option::None => Result::Err(OutputSubstitutionError::DrainScriptNotFound),
            Option::Some(k) => {
                let w = WantsOutputs {
                    ctx: self.ctx.duplicate(),
                    proposal: self.proposal.duplicate(),
                    owned_vouts: crate::model::copy_u32s(&self.owned_vouts),
                    outputs: merged,
                    change_vout: k as u32,
                };
                proof {
                    assert(w@ =~= (WantsOutputsV {
                        ctx: self@.ctx,
                        proposal: self@.proposal,
                        owned_vouts: self@.owned_vouts,
                        outputs: mergedv,
                        change_vout: k as u32,
                    }));
                }
                Result::Ok(w)
            },
        }
    }

    /// Redirects the receiver's change output to a new script. The sender
    /// must have allowed substitution and the resulting output set must
    /// stay standard; exactly then the substitution succeeds. Failure
    /// keeps this stage unchanged.
    pub fn substitute_receiver_script(&self, output_script: &Vec<u8>) -> (r: Result<
        WantsOutputs,
        OutputSubstitutionError,
    >)
        requires
            (self@.change_vout as int) < self@.outputs.len(),
        ensures
            !self@.proposal.params.output_substitution_allowed <==> (r matches Result::Err(
                OutputSubstitutionError::Disabled,
            )),
            self@.proposal.params.output_substitution_allowed && acceptable_outputs(
                self@.outputs.update(
                    self@.change_vout as int,
                    TxOutV {
                        value: self@.outputs[self@.change_vout as int].value,
                        script_pubkey: output_script@,
                    },
                ),
            ) <==> r is Ok,
            r matches Result::Ok(w) ==> w@ == (WantsOutputsV {
                ctx: self@.ctx,
                proposal: self@.proposal,
                owned_vouts: self@.owned_vouts,
                outputs: self@.outputs.update(
                    self@.change_vout as int,
                    TxOutV {
                        value: self@.outputs[self@.change_vout as int].value,
                        script_pubkey: output_script@,
                    },
                ),
                change_vout: self@.change_vout,
            }),
            r matches Result::Err(OutputSubstitutionError::OversizedOutputs)
                <==> self@.proposal.params.output_substitution_allowed && !acceptable_outputs(
                self@.outputs.update(
                    self@.change_vout as int,
                    TxOutV {
                        value: self@.outputs[self@.change_vout as int].value,
                        script_pubkey: output_script@,
                    },
                ),
            ),
    {
        if !self.proposal.params.output_substitution_allowed {
            return Result::Err(OutputSubstitutionError::Disabled);
        }
        let mut outputs = copy_txouts(&self.outputs);
        let value = outputs[self.change_vout as usize].value;
        outputs.set(
            self.change_vout as usize,
            TxOut { value, script_pubkey: crate::model::copy_bytes(output_script) },
        );
        proof {
            assert(txouts_view(outputs@) =~= self@.outputs.update(
                self@.change_vout as int,
                TxOutV {
                    value: self@.outputs[self@.change_vout as int].value,
                    script_pubkey: output_script@,
                },
            ));
        }
        if !check_outputs_standard(&outputs) {
            return Result::Err(OutputSubstitutionError::OversizedOutputs);
        }
        let w = WantsOutputs {
            ctx: self.ctx.duplicate(),
            proposal: self.proposal.duplicate(),
            owned_vouts: crate::model::copy_u32s(&self.owned_vouts),
            outputs,
            change_vout: self.change_vout,
        };
        proof {
            assert(w@ =~= (WantsOutputsV {
                ctx: self@.ctx,
                proposal: self@.proposal,
                owned_vouts: self@.owned_vouts,
                outputs: self@.outputs.update(
                    self@.change_vout as int,
                    TxOutV {
                        value: self@.outputs[self@.change_vout as int].value,
                        script_pubkey: output_script@,
                    },
                ),
                change_vout: self@.change_vout,
            }));
        }
        Result::Ok(w)
    }

    /// Commits the output set: a guaranteed transition into the
    /// input-contribution stage, carrying the sender's designated fee
    /// output along if it survived substitution.
    pub fn commit_outputs(&self) -> (t: WantsOutputsTransition)
        ensures
            t.event@ == (SessionEventV::CommittedOutputs {
                outputs: self@.outputs,
                change_vout: self@.change_vout,
                sender_fee_vout: spec_sender_fee_vout(self@),
            }),
            t.next@ == (WantsInputsV {
                ctx: self@.ctx,
                proposal: self@.proposal,
                outputs: self@.outputs,
                change_vout: self@.change_vout,
                sender_fee_vout: spec_sender_fee_vout(self@),
                receiver_inputs: Seq::empty(),
            }),
            self@.outputs.len() >= 1 && (self@.change_vout as int) < self@.outputs.len()
                ==> spec_apply_event(ReceiveSessionV::WantsOutputs(self@), t.event@)
                == Option::Some(ReceiveSessionV::WantsInputs(t.next@)),
    {
        let idx = self.proposal.params.additional_fee_output_index;
        let sender_fee_vout: Option<u32> = if self.proposal.params.has_fee_output
            && (idx as usize) < self.outputs.len() && !is_owned_exec(&self.owned_vouts, idx
            as usize) {
            Option::Some(idx)
        } else {
            Option::None
        };
        proof {
            assert(sender_fee_vout == spec_sender_fee_vout(self@));
        }
        let event = SessionEvent::CommittedOutputs {
            outputs: copy_txouts(&self.outputs),
            change_vout: self.change_vout,
            sender_fee_vout,
        };
        let next = WantsInputs {
            ctx: self.ctx.duplicate(),
            proposal: self.proposal.duplicate(),
            outputs: copy_txouts(&self.outputs),
            change_vout: self.change_vout,
            sender_fee_vout,
            receiver_inputs: Vec::new(),
        };
        proof {
            assert(next@ =~= (WantsInputsV {
                ctx: self@.ctx,
                proposal: self@.proposal,
                outputs: self@.outputs,
                change_vout: self@.change_vout,
                sender_fee_vout: spec_sender_fee_vout(self@),
                receiver_inputs: Seq::empty(),
            }));
        }
        WantsOutputsTransition { event, next }
    }
}

/// The position of the sender's designated fee output in the committed
/// output set: its declared index, as far as the sender designated one,
/// the index points into the set, and the output there is the sender's —
/// not one of the receiver-owned positions.
pub open spec fn spec_sender_fee_vout(s: WantsOutputsV) -> Option<u32> {
    let idx = s.proposal.params.additional_fee_output_index;
    if s.proposal.params.has_fee_output && (idx as int) < s.outputs.len() && !is_owned_index(
        s.owned_vouts,
        idx as int,
    ) {
        Option::Some(idx)
    } else {
        Option::None
    }
}

} // verus!
