//! The input-contribution stage: the privacy-preserving coin selection
//! heuristic, explicit contribution for advanced callers, and the commit.
//!
//! Selection avoids the unnecessary-input heuristic: a set of inputs and
//! outputs where some input is smaller than every output looks like a
//! typical single-party payment with change, so candidates that keep the
//! minimum output below the minimum input are preferred. Candidates whose
//! previous output script pattern differs from the pattern the proposal's
//! inputs already spend are never chosen while a matching one exists.

use vstd::prelude::*;

use crate::error::{InputContributionError, PsbtInputError, SelectionError};
use crate::event::{SessionEvent, SessionEventV};
use crate::model::{
    copy_pairs, copy_txouts, pairs_view, pair_vsize, spec_script_type, sum_pair_vsize,
    InputPair, InputPairV, PsbtInput, PsbtInputV, TxIn, TxOutV, MAX_MONEY,
    MAX_STANDARD_OUT_VSIZE, TXID_LEN,
};
use crate::checks::input_script;
use crate::replay::spec_apply_event;
use crate::session::{ReceiveSessionV, WantsFeeRange, WantsFeeRangeV, WantsInputs, WantsInputsV};
use crate::transitions::WantsInputsTransition;

verus! {

/// A value larger than any satoshi amount, standing in for the minimum of
/// an empty set.
pub open spec fn no_value() -> int {
    0x10000000000000000
}

/// Smallest value among the outputs spent by a list of PSBT inputs.
pub open spec fn min_input_value(s: Seq<PsbtInputV>) -> int
    decreases s.len(),
{
    if s.len() == 0 {
        no_value()
    } else {
        let rest = min_input_value(s.drop_last());
        let v = match s.last().witness_utxo {
            Option::Some(o) => o.value as int,
            Option::None => no_value(),
        };
        if v < rest {
            v
        } else {
            rest
        }
    }
}

/// Smallest value among a list of candidate inputs.
pub open spec fn min_pair_value(s: Seq<InputPairV>) -> int
    decreases s.len(),
{
    if s.len() == 0 {
        no_value()
    } else {
        let rest = min_pair_value(s.drop_last());
        let v = if s.last().wf() {
            s.last().value() as int
        } else {
            no_value()
        };
        if v < rest {
            v
        } else {
            rest
        }
    }
}

/// Smallest value among a list of outputs.
pub open spec fn min_output_value(s: Seq<TxOutV>) -> int
    decreases s.len(),
{
    if s.len() == 0 {
        no_value()
    } else {
        let rest = min_output_value(s.drop_last());
        if s.last().value < rest {
            s.last().value as int
        } else {
            rest
        }
    }
}

/// The script pattern the proposal's inputs already spend: the pattern of
/// the first original input.
pub open spec fn required_type(s: WantsInputsV) -> crate::model::ScriptType {
    spec_script_type(input_script(s.proposal, 0))
}

/// Whether every input already in the proposal spends the same script
/// pattern. Only then can adding a mismatched input leak anything.
pub open spec fn inputs_uniform(s: WantsInputsV) -> bool {
    &&& (forall|i: int| 0 <= i < s.proposal.psbt.inputs.len() ==> spec_script_type(
        #[trigger] input_script(s.proposal, i),
    ) == required_type(s))
    &&& (forall|j: int| 0 <= j < s.receiver_inputs.len() ==> spec_script_type(
        (#[trigger] s.receiver_inputs[j]).script(),
    ) == required_type(s))
}

/// Whether one candidate may join the proposal's inputs.
pub open spec fn compatible(s: WantsInputsV, c: InputPairV) -> bool {
    c.wf() && (inputs_uniform(s) ==> spec_script_type(c.script()) == required_type(s))
}

/// Smallest input value of the proposal as it stands: original inputs and
/// receiver contributions together.
pub open spec fn current_min_input(s: WantsInputsV) -> int {
    let a = min_input_value(s.proposal.psbt.inputs);
    let b = min_pair_value(s.receiver_inputs);
    if a < b {
        a
    } else {
        b
    }
}

/// Whether adding the candidate keeps the transaction looking like a
/// typical payment: some output stays smaller than every input.
pub open spec fn avoids_uih(s: WantsInputsV, c: InputPairV) -> bool {
    min_output_value(s.outputs) < (if (c.value() as int) < current_min_input(s) {
        c.value() as int
    } else {
        current_min_input(s)
    })
}

/// First compatible candidate at or after `from` that also avoids the
/// unnecessary-input heuristic.
pub open spec fn first_compatible_avoiding(s: WantsInputsV, cands: Seq<InputPairV>, from: int)
    -> Option<int>
    decreases cands.len() - from,
{
    if from < 0 || from >= cands.len() {
        Option::None
    } else if compatible(s, cands[from]) && avoids_uih(s, cands[from]) {
        Option::Some(from)
    } else {
        first_compatible_avoiding(s, cands, from + 1)
    }
}

/// First compatible candidate at or after `from`.
pub open spec fn first_compatible(s: WantsInputsV, cands: Seq<InputPairV>, from: int) -> Option<
    int,
>
    decreases cands.len() - from,
{
    if from < 0 || from >= cands.len() {
        Option::None
    } else if compatible(s, cands[from]) {
        Option::Some(from)
    } else {
        first_compatible(s, cands, from + 1)
    }
}

/// The candidate the selection heuristic picks, if any: the first
/// compatible candidate that avoids the heuristic, or else the first
/// compatible one.
pub open spec fn spec_selected(s: WantsInputsV, cands: Seq<InputPairV>) -> Option<int> {
    match first_compatible_avoiding(s, cands, 0) {
        Option::Some(i) => Option::Some(i),
        Option::None => first_compatible(s, cands, 0),
    }
}

/// Whatever the selection picks is compatible with the inputs already in
/// the proposal: selection never mixes script patterns while a matching
/// candidate exists.
pub proof fn lemma_first_compatible_is_compatible(
    s: WantsInputsV,
    cands: Seq<InputPairV>,
    from: int,
)
    requires
        first_compatible(s, cands, from) is Some,
    ensures
        0 <= first_compatible(s, cands, from).unwrap() < cands.len(),
        compatible(s, cands[first_compatible(s, cands, from).unwrap()]),
    decreases cands.len() - from,
{
    if !(from < 0 || from >= cands.len()) && !compatible(s, cands[from]) {
        lemma_first_compatible_is_compatible(s, cands, from + 1);
    }
}

/// Same for the heuristic-avoiding search.
pub proof fn lemma_first_avoiding_is_compatible(
    s: WantsInputsV,
    cands: Seq<InputPairV>,
    from: int,
)
    requires
        first_compatible_avoiding(s, cands, from) is Some,
    ensures
        0 <= first_compatible_avoiding(s, cands, from).unwrap() < cands.len(),
        compatible(s, cands[first_compatible_avoiding(s, cands, from).unwrap()]),
        avoids_uih(s, cands[first_compatible_avoiding(s, cands, from).unwrap()]),
    decreases cands.len() - from,
{
    if !(from < 0 || from >= cands.len()) && !(compatible(s, cands[from]) && avoids_uih(
        s,
        cands[from],
    )) {
        lemma_first_avoiding_is_compatible(s, cands, from + 1);
    }
}

/// The selected candidate is always compatible: the chosen input never
/// mixes script patterns with the inputs already in the proposal when a
/// compatible alternative exists among the candidates.
pub proof fn lemma_selection_preserves_homogeneity(s: WantsInputsV, cands: Seq<InputPairV>)
    requires
        spec_selected(s, cands) is Some,
    ensures
        0 <= spec_selected(s, cands).unwrap() < cands.len(),
        compatible(s, cands[spec_selected(s, cands).unwrap()]),
{
    match first_compatible_avoiding(s, cands, 0) {
        Option::Some(_) => {
            lemma_first_avoiding_is_compatible(s, cands, 0);
        },
        Option::None => {
            lemma_first_compatible_is_compatible(s, cands, 0);
        },
    }
}

impl InputPair {
    /// Builds a candidate input from its parts. The PSBT metadata must
    /// carry the output being spent; values and sizes are checked when the
    /// candidate is contributed.
    pub fn new(txin: TxIn, psbtin: PsbtInput, expected_weight: Option<u64>) -> (r: Result<
        InputPair,
        PsbtInputError,
    >)
        ensures
            psbtin@.witness_utxo is None <==> (r matches Result::Err(
                PsbtInputError::MissingWitnessUtxo,
            )),
            r matches Result::Ok(p) ==> p@ == (InputPairV {
                txin: txin@,
                psbtin: psbtin@,
                expected_weight,
            }),
    {
        match &psbtin.witness_utxo {
            Option::None => Result::Err(PsbtInputError::MissingWitnessUtxo),
            Option::Some(_) => {
                let r = InputPair { txin, psbtin, expected_weight };
                proof {
                    assert(r@ =~= (InputPairV {
                        txin: txin@,
                        psbtin: psbtin@,
                        expected_weight,
                    }));
                }
                Result::Ok(r)
            },
        }
    }
}

/// What disqualifies one candidate outright, checked in this order.
pub open spec fn pair_flaw(s: WantsInputsV, c: InputPairV) -> Option<InputContributionError> {
    if !c.wf() {
        Option::Some(InputContributionError::MissingWitnessUtxo)
    } else if c.txin.prev_out.txid.len() != TXID_LEN || !crate::codec::fits_len(
        c.script().len(),
    ) || c.value() > MAX_MONEY || !crate::codec::fits_len(c.txin.prev_out.txid.len()) {
        Option::Some(InputContributionError::MalformedInput)
    } else if inputs_uniform(s) && spec_script_type(c.script()) != required_type(s) {
        Option::Some(InputContributionError::IncompatibleScriptType)
    } else {
        Option::None
    }
}

/// Whether the candidate at `i` spends an outpoint the proposal's inputs,
/// the receiver's earlier contributions, or an earlier candidate in the
/// same list already spend. Such an input could never be held exclusively
/// and would invite a double-spend.
pub open spec fn duplicate_outpoint(s: WantsInputsV, cands: Seq<InputPairV>, i: int) -> bool {
    ||| exists|j: int| 0 <= j < s.proposal.psbt.tx.inputs.len()
        && (#[trigger] s.proposal.psbt.tx.inputs[j]).prev_out == cands[i].txin.prev_out
    ||| exists|j: int| 0 <= j < s.receiver_inputs.len()
        && (#[trigger] s.receiver_inputs[j]).txin.prev_out == cands[i].txin.prev_out
    ||| exists|j: int| 0 <= j < i && (#[trigger] cands[j]).txin.prev_out == cands[i].txin.prev_out
}

/// What disqualifies the candidate at `i`, its own flaws first, then a
/// duplicated outpoint.
pub open spec fn pair_flaw_at(s: WantsInputsV, cands: Seq<InputPairV>, i: int) -> Option<
    InputContributionError,
> {
    match pair_flaw(s, cands[i]) {
        Option::Some(e) => Option::Some(e),
        Option::None => if duplicate_outpoint(s, cands, i) {
            Option::Some(InputContributionError::DuplicateOutpoint)
        } else {
            Option::None
        },
    }
}

/// The first flaw among the candidates at or after `from`.
pub open spec fn first_flaw(s: WantsInputsV, cands: Seq<InputPairV>, from: int) -> Option<
    InputContributionError,
>
    decreases cands.len() - from,
{
    if from < 0 || from >= cands.len() {
        Option::None
    } else {
        match pair_flaw_at(s, cands, from) {
            Option::Some(e) => Option::Some(e),
            Option::None => first_flaw(s, cands, from + 1),
        }
    }
}

/// One step of the input-minimum, for reasoning about prefixes.
pub proof fn lemma_min_input_take_step(s: Seq<PsbtInputV>, i: int)
    requires
        0 <= i < s.len(),
    ensures
        min_input_value(s.take(i + 1)) == ({
            let rest = min_input_value(s.take(i));
            let v = match s[i].witness_utxo {
                Option::Some(o) => o.value as int,
                Option::None => no_value(),
            };
            if v < rest {
                v
            } else {
                rest
            }
        }),
{
    assert(s.take(i + 1).drop_last() =~= s.take(i));
    assert(s.take(i + 1).last() == s[i]);
}

/// One step of the candidate-minimum, for reasoning about prefixes.
pub proof fn lemma_min_pair_take_step(s: Seq<InputPairV>, i: int)
    requires
        0 <= i < s.len(),
    ensures
        min_pair_value(s.take(i + 1)) == ({
            let rest = min_pair_value(s.take(i));
            let v = if s[i].wf() {
                s[i].value() as int
            } else {
                no_value()
            };
            if v < rest {
                v
            } else {
                rest
            }
        }),
{
    assert(s.take(i + 1).drop_last() =~= s.take(i));
    assert(s.take(i + 1).last() == s[i]);
}

/// One step of the output-minimum, for reasoning about prefixes.
pub proof fn lemma_min_output_take_step(s: Seq<TxOutV>, i: int)
    requires
        0 <= i < s.len(),
    ensures
        min_output_value(s.take(i + 1)) == ({
            let rest = min_output_value(s.take(i));
            if s[i].value < rest {
                s[i].value as int
            } else {
                rest
            }
        }),
{
    assert(s.take(i + 1).drop_last() =~= s.take(i));
    assert(s.take(i + 1).last() == s[i]);
}

/// One step of the candidate-size sum, for reasoning about prefixes.
pub proof fn lemma_sum_pair_vsize_prefix_le(s: Seq<InputPairV>, i: int)
    requires
        0 <= i <= s.len(),
        forall|j: int| 0 <= j < s.len() ==> (#[trigger] s[j]).wf(),
    ensures
        sum_pair_vsize(s.take(i)) <= sum_pair_vsize(s),
    decreases s.len(),
{
    if i == s.len() {
        assert(s.take(i) =~= s);
    } else {
        assert(s.drop_last().take(i) =~= s.take(i));
        assert(forall|j: int| 0 <= j < s.drop_last().len() ==> (#[trigger] s.drop_last()[j]).wf());
        lemma_sum_pair_vsize_prefix_le(s.drop_last(), i);
        assert(pair_vsize(s.last()) >= 0);
    }
}

/// Smallest input value among the proposal's current inputs, clamped to
/// what a satoshi amount can hold.
#[verifier::loop_isolation(false)]
fn current_min_input_exec(state: &WantsInputs) -> (r: u64)
    requires
        state@.wf(),
    ensures
        r as int == current_min_input(state@),
{
    let ghost ins = crate::model::psbtins_view(state.proposal.psbt.inputs@);
    let mut acc: u64 = u64::MAX;
    let ghost mut acc_spec: int = no_value();
    let mut i: usize = 0;
    while i < state.proposal.psbt.inputs.len()
        invariant
            i <= state.proposal.psbt.inputs.len(),
            acc_spec == min_input_value(ins.take(i as int)),
            acc_spec >= 0,
            acc as int == (if acc_spec < u64::MAX as int {
                acc_spec
            } else {
                u64::MAX as int
            }),
        decreases state.proposal.psbt.inputs.len() - i,
    {
        proof {
            lemma_min_input_take_step(ins, i as int);
        }
        match &state.proposal.psbt.inputs[i].witness_utxo {
            Option::Some(o) => {
                if o.value < acc {
                    acc = o.value;
                }
                proof {
                    if (ins[i as int].witness_utxo.unwrap().value as int) < acc_spec {
                        acc_spec = ins[i as int].witness_utxo.unwrap().value as int;
                    }
                }
            },
            Option::None => {
            },
        }
        i = i + 1;
    }
    proof {
        assert(ins.take(ins.len() as int) =~= ins);
    }
    let ghost pairs = pairs_view(state.receiver_inputs@);
    let mut k: usize = 0;
    while k < state.receiver_inputs.len()
        invariant
            k <= state.receiver_inputs.len(),
            acc_spec == (if min_input_value(ins) < min_pair_value(pairs.take(k as int)) {
                min_input_value(ins)
            } else {
                min_pair_value(pairs.take(k as int))
            }),
            acc_spec >= 0,
            acc as int == (if acc_spec < u64::MAX as int {
                acc_spec
            } else {
                u64::MAX as int
            }),
        decreases state.receiver_inputs.len() - k,
    {
        proof {
            lemma_min_pair_take_step(pairs, k as int);
        }
        match &state.receiver_inputs[k].psbtin.witness_utxo {
            Option::Some(o) => {
                if o.value < acc {
                    acc = o.value;
                }
                proof {
                    if (pairs[k as int].value() as int) < acc_spec {
                        acc_spec = pairs[k as int].value() as int;
                    }
                }
            },
            Option::None => {
            },
        }
        k = k + 1;
    }
    proof {
        assert(pairs.take(pairs.len() as int) =~= pairs);
        assert(current_min_input(state@) <= u64::MAX as int) by {
            lemma_min_input_le_some(ins, 0);
        }
    }
    acc
}

/// The minimum over inputs is no larger than any present input value.
proof fn lemma_min_input_le_some(s: Seq<PsbtInputV>, i: int)
    requires
        0 <= i < s.len(),
        s[i].witness_utxo is Some,
    ensures
        min_input_value(s) <= s[i].witness_utxo.unwrap().value,
    decreases s.len(),
{
    if i == s.len() - 1 {
        assert(s.last() == s[i]);
    } else {
        assert(s.drop_last()[i] == s[i]);
        lemma_min_input_le_some(s.drop_last(), i);
    }
}

/// Smallest output value of the committed output set, clamped to what a
/// satoshi amount can hold.
#[verifier::loop_isolation(false)]
fn min_output_value_exec(outs: &Vec<crate::model::TxOut>) -> (r: u64)
    ensures
        r as int == (if min_output_value(crate::model::txouts_view(outs@)) < u64::MAX as int {
            min_output_value(crate::model::txouts_view(outs@))
        } else {
            u64::MAX as int
        }),
{
    let ghost vs = crate::model::txouts_view(outs@);
    let mut acc: u64 = u64::MAX;
    let ghost mut acc_spec: int = no_value();
    let mut i: usize = 0;
    while i < outs.len()
        invariant
            i <= outs.len(),
            acc_spec == min_output_value(vs.take(i as int)),
            acc_spec >= 0,
            acc as int == (if acc_spec < u64::MAX as int {
                acc_spec
            } else {
                u64::MAX as int
            }),
        decreases outs.len() - i,
    {
        proof {
            lemma_min_output_take_step(vs, i as int);
        }
        if outs[i].value < acc {
            acc = outs[i].value;
        }
        proof {
            if (vs[i as int].value as int) < acc_spec {
                acc_spec = vs[i as int].value as int;
            }
        }
        i = i + 1;
    }
    proof {
        assert(vs.take(vs.len() as int) =~= vs);
    }
    acc
}

impl WantsInputs {
    /// Whether every input already in the proposal spends the same script
    /// pattern.
    #[verifier::loop_isolation(false)]
    fn inputs_uniform_exec(&self) -> (r: bool)
        requires
            self@.wf(),
        ensures
            r == inputs_uniform(self@),
    {
        let t0 = match &self.proposal.psbt.inputs[0].witness_utxo {
            Option::Some(o) => crate::model::script_type(&o.script_pubkey),
            Option::None => crate::model::ScriptType::Unknown,
        };
        proof {
            assert(t0 == required_type(self@));
        }
        let mut i: usize = 0;
        while i < self.proposal.psbt.inputs.len()
            invariant
                i <= self.proposal.psbt.inputs.len(),
                forall|j: int| 0 <= j < i ==> spec_script_type(
                    #[trigger] input_script(self@.proposal, j),
                ) == required_type(self@),
            decreases self.proposal.psbt.inputs.len() - i,
        {
            let ti = match &self.proposal.psbt.inputs[i].witness_utxo {
                Option::Some(o) => crate::model::script_type(&o.script_pubkey),
                Option::None => crate::model::ScriptType::Unknown,
            };
            proof {
                assert(ti == spec_script_type(input_script(self@.proposal, i as int)));
            }
            if !script_type_eq(ti, t0) {
                proof {
                    assert(!inputs_uniform(self@));
                }
                return false;
            }
            i = i + 1;
        }
        let mut k: usize = 0;
        while k < self.receiver_inputs.len()
            invariant
                k <= self.receiver_inputs.len(),
                forall|j: int| 0 <= j < self.proposal.psbt.inputs@.len() ==> spec_script_type(
                    #[trigger] input_script(self@.proposal, j),
                ) == required_type(self@),
                forall|j: int| 0 <= j < k ==> spec_script_type(
                    (#[trigger] pairs_view(self.receiver_inputs@)[j]).script(),
                ) == required_type(self@),
            decreases self.receiver_inputs.len() - k,
        {
            let tk = match &self.receiver_inputs[k].psbtin.witness_utxo {
                Option::Some(o) => crate::model::script_type(&o.script_pubkey),
                Option::None => crate::model::ScriptType::Unknown,
            };
            proof {
                assert(tk == spec_script_type(pairs_view(self.receiver_inputs@)[k as int].script()));
            }
            if !script_type_eq(tk, t0) {
                proof {
                    assert(!inputs_uniform(self@));
                }
                return false;
            }
            k = k + 1;
        }
        true
    }

    /// Selects one candidate input so the finished transaction keeps
    /// looking like an ordinary payment: among the candidates whose script
    /// pattern matches the inputs already in the proposal, the first that
    /// keeps the minimum output below the minimum input, or the first
    /// compatible one if none does. Fails when no candidate is compatible.
    #[verifier::loop_isolation(false)]
    pub fn try_preserving_privacy(&self, candidate_inputs: &Vec<InputPair>) -> (r: Result<
        InputPair,
        SelectionError,
    >)
        requires
            self@.wf(),
        ensures
            candidate_inputs@.len() == 0 <==> (r matches Result::Err(SelectionError::Empty)),
            candidate_inputs@.len() > 0 && spec_selected(
                self@,
                pairs_view(candidate_inputs@),
            ) is None <==> (r matches Result::Err(SelectionError::NoCompatibleCandidate)),
            r matches Result::Ok(c) ==> spec_selected(self@, pairs_view(candidate_inputs@))
                matches Option::Some(i) && c@ == pairs_view(candidate_inputs@)[i],
    {
        let ghost vs = pairs_view(candidate_inputs@);
        if candidate_inputs.len() == 0 {
            return Result::Err(SelectionError::Empty);
        }
        let uniform = self.inputs_uniform_exec();
        let t0 = match &self.proposal.psbt.inputs[0].witness_utxo {
            Option::Some(o) => crate::model::script_type(&o.script_pubkey),
            Option::None => crate::model::ScriptType::Unknown,
        };
        proof {
            assert(t0 == required_type(self@));
        }
        let min_out = min_output_value_exec(&self.outputs);
        proof {
            lemma_min_output_le_elem(crate::model::txouts_view(self.outputs@), 0);
        }
        let cur_min = current_min_input_exec(self);
        let mut i: usize = 0;
        while i < candidate_inputs.len()
            invariant
                i <= candidate_inputs@.len(),
                first_compatible_avoiding(self@, vs, 0) == first_compatible_avoiding(
                    self@,
                    vs,
                    i as int,
                ),
            decreases candidate_inputs@.len() - i,
        {
            let c = &candidate_inputs[i];
            let ok = match &c.psbtin.witness_utxo {
                Option::Some(o) => {
                    let tc = crate::model::script_type(&o.script_pubkey);
                    let compat = !uniform || script_type_eq(tc, t0);
                    let cmin = if o.value < cur_min {
                        o.value
                    } else {
                        cur_min
                    };
                    let avoid = min_out < cmin;
                    compat && avoid
                },
                Option::None => false,
            };
            proof {
                assert(ok == (compatible(self@, vs[i as int]) && avoids_uih(self@, vs[i as int])));
            }
            if ok {
                return Result::Ok(candidate_inputs[i].duplicate());
            }
            i = i + 1;
        }
        let mut k: usize = 0;
        while k < candidate_inputs.len()
            invariant
                k <= candidate_inputs@.len(),
                first_compatible_avoiding(self@, vs, 0) is None,
                first_compatible(self@, vs, 0) == first_compatible(self@, vs, k as int),
            decreases candidate_inputs@.len() - k,
        {
            let c = &candidate_inputs[k];
            let ok = match &c.psbtin.witness_utxo {
                Option::Some(o) => {
                    let tc = crate::model::script_type(&o.script_pubkey);
                    !uniform || script_type_eq(tc, t0)
                },
                Option::None => false,
            };
            proof {
                assert(ok == compatible(self@, vs[k as int]));
            }
            if ok {
                return Result::Ok(candidate_inputs[k].duplicate());
            }
            k = k + 1;
        }
        Result::Err(SelectionError::NoCompatibleCandidate)
    }
}

impl WantsInputs {
    /// Applies an explicit, caller-chosen input list instead of the
    /// heuristic. Every input must carry its spent output, be well formed,
    /// match the script pattern the proposal's inputs already spend, spend
    /// an outpoint nothing in the proposal spends yet, and the
    /// contribution must fit a standard transaction. Failure keeps this
    /// stage unchanged.
    #[verifier::loop_isolation(false)]
    pub fn contribute_inputs(&self, replacement_inputs: &Vec<InputPair>) -> (r: Result<
        WantsInputs,
        InputContributionError,
    >)
        requires
            self@.wf(),
        ensures
            first_flaw(self@, pairs_view(replacement_inputs@), 0) matches Option::Some(e)
                ==> r == Result::<WantsInputs, InputContributionError>::Err(e),
            first_flaw(self@, pairs_view(replacement_inputs@), 0) is None && sum_pair_vsize(
                self@.receiver_inputs + pairs_view(replacement_inputs@),
            ) > MAX_STANDARD_OUT_VSIZE ==> r == Result::<
                WantsInputs,
                InputContributionError,
            >::Err(InputContributionError::OversizedContribution),
            first_flaw(self@, pairs_view(replacement_inputs@), 0) is None && sum_pair_vsize(
                self@.receiver_inputs + pairs_view(replacement_inputs@),
            ) <= MAX_STANDARD_OUT_VSIZE ==> (r matches Result::Ok(w) && w@ == (WantsInputsV {
                ctx: self@.ctx,
                proposal: self@.proposal,
                outputs: self@.outputs,
                change_vout: self@.change_vout,
                sender_fee_vout: self@.sender_fee_vout,
                receiver_inputs: self@.receiver_inputs + pairs_view(replacement_inputs@),
            })),
    {
        let ghost vs = pairs_view(replacement_inputs@);
        let uniform = self.inputs_uniform_exec();
        let t0 = match &self.proposal.psbt.inputs[0].witness_utxo {
            Option::Some(o) => crate::model::script_type(&o.script_pubkey),
            Option::None => crate::model::ScriptType::Unknown,
        };
        proof {
            assert(t0 == required_type(self@));
        }
        let mut i: usize = 0;
        while i < replacement_inputs.len()
            invariant
                i <= replacement_inputs@.len(),
                first_flaw(self@, vs, 0) == first_flaw(self@, vs, i as int),
                forall|j: int| 0 <= j < i ==> (#[trigger] vs[j]).wf(),
            decreases replacement_inputs@.len() - i,
        {
            let c = &replacement_inputs[i];
            match &c.psbtin.witness_utxo {
                Option::None => {
                    proof {
                        assert(pair_flaw(self@, vs[i as int]) == Option::Some(
                            InputContributionError::MissingWitnessUtxo));
                    }
                    return Result::Err(InputContributionError::MissingWitnessUtxo);
                },
                Option::Some(o) => {
                    if c.txin.prev_out.txid.len() != 32 || !((o.script_pubkey.len() as u64)
                        < 4294967296u64) || o.value > MAX_MONEY {
                        proof {
                            assert(pair_flaw(self@, vs[i as int]) == Option::Some(
                                InputContributionError::MalformedInput));
                        }
                        return Result::Err(InputContributionError::MalformedInput);
                    }
                    let tc = crate::model::script_type(&o.script_pubkey);
                    if uniform && !script_type_eq(tc, t0) {
                        proof {
                            assert(pair_flaw(self@, vs[i as int]) == Option::Some(
                                InputContributionError::IncompatibleScriptType));
                        }
                        return Result::Err(InputContributionError::IncompatibleScriptType);
                    }
                    proof {
                        assert(pair_flaw(self@, vs[i as int]) is None);
                    }
                },
            }
            let mut a: usize = 0;
            while a < self.proposal.psbt.tx.inputs.len()
                invariant
                    a <= self.proposal.psbt.tx.inputs@.len(),
                    forall|q: int| 0 <= q < a
                        ==> (#[trigger] self@.proposal.psbt.tx.inputs[q]).prev_out
                        != vs[i as int].txin.prev_out,
                decreases self.proposal.psbt.tx.inputs@.len() - a,
            {
                if crate::model::eq_outpoint(
                    &self.proposal.psbt.tx.inputs[a].prev_out,
                    &replacement_inputs[i].txin.prev_out,
                ) {
                    proof {
                        assert(self@.proposal.psbt.tx.inputs[a as int].prev_out
                            == vs[i as int].txin.prev_out);
                        assert(pair_flaw_at(self@, vs, i as int) == Option::Some(
                            InputContributionError::DuplicateOutpoint));
                    }
                    return Result::Err(InputContributionError::DuplicateOutpoint);
                }
                a = a + 1;
            }
            let mut b: usize = 0;
            while b < self.receiver_inputs.len()
                invariant
                    b <= self.receiver_inputs@.len(),
                    forall|q: int| 0 <= q < b ==> (#[trigger] self@.receiver_inputs[q]).txin.prev_out
                        != vs[i as int].txin.prev_out,
                decreases self.receiver_inputs@.len() - b,
            {
                if crate::model::eq_outpoint(
                    &self.receiver_inputs[b].txin.prev_out,
                    &replacement_inputs[i].txin.prev_out,
                ) {
                    proof {
                        assert(self@.receiver_inputs[b as int].txin.prev_out
                            == vs[i as int].txin.prev_out);
                        assert(pair_flaw_at(self@, vs, i as int) == Option::Some(
                            InputContributionError::DuplicateOutpoint));
                    }
                    return Result::Err(InputContributionError::DuplicateOutpoint);
                }
                b = b + 1;
            }
            let mut d: usize = 0;
            while d < i
                invariant
                    d <= i,
                    i < replacement_inputs@.len(),
                    forall|q: int| 0 <= q < d ==> (#[trigger] vs[q]).txin.prev_out
                        != vs[i as int].txin.prev_out,
                decreases i - d,
            {
                if crate::model::eq_outpoint(
                    &replacement_inputs[d].txin.prev_out,
                    &replacement_inputs[i].txin.prev_out,
                ) {
                    proof {
                        assert(vs[d as int].txin.prev_out == vs[i as int].txin.prev_out);
                        assert(pair_flaw_at(self@, vs, i as int) == Option::Some(
                            InputContributionError::DuplicateOutpoint));
                    }
                    return Result::Err(InputContributionError::DuplicateOutpoint);
                }
                d = d + 1;
            }
            proof {
                assert(!duplicate_outpoint(self@, vs, i as int));
                assert(pair_flaw_at(self@, vs, i as int) is None);
            }
            i = i + 1;
        }
        let ghost all = self@.receiver_inputs + vs;
        proof {
            assert(forall|j: int| 0 <= j < all.len() ==> (#[trigger] all[j]).wf());
        }
        let mut total: u64 = 0;
        let mut k: usize = 0;
        while k < self.receiver_inputs.len()
            invariant
                k <= self.receiver_inputs@.len(),
                total == sum_pair_vsize(self@.receiver_inputs.take(k as int)),
                total <= MAX_STANDARD_OUT_VSIZE,
            decreases self.receiver_inputs@.len() - k,
        {
            proof {
                crate::model::lemma_sum_pair_vsize_take_step(self@.receiver_inputs, k as int);
            }
            let v = crate::model::pair_vsize_exec(&self.receiver_inputs[k]);
            if v > MAX_STANDARD_OUT_VSIZE - total {
                proof {
                    lemma_sum_prefix_all(self@.receiver_inputs, vs, k as int + 1);
                }
                return Result::Err(InputContributionError::OversizedContribution);
            }
            total = total + v;
            k = k + 1;
        }
        proof {
            assert(self@.receiver_inputs.take(self@.receiver_inputs.len() as int)
                =~= self@.receiver_inputs);
        }
        let mut m: usize = 0;
        while m < replacement_inputs.len()
            invariant
                m <= replacement_inputs@.len(),
                total as int == sum_pair_vsize(self@.receiver_inputs) + sum_pair_vsize(
                    vs.take(m as int),
                ),
                total <= MAX_STANDARD_OUT_VSIZE,
                forall|j: int| 0 <= j < vs.len() ==> (#[trigger] vs[j]).wf(),
            decreases replacement_inputs@.len() - m,
        {
            proof {
                crate::model::lemma_sum_pair_vsize_take_step(vs, m as int);
            }
            let v = crate::model::pair_vsize_exec(&replacement_inputs[m]);
            if v > MAX_STANDARD_OUT_VSIZE - total {
                proof {
                    lemma_sum_concat_prefix(self@.receiver_inputs, vs, m as int + 1);
                }
                return Result::Err(InputContributionError::OversizedContribution);
            }
            total = total + v;
            m = m + 1;
        }
        proof {
            assert(vs.take(vs.len() as int) =~= vs);
            lemma_sum_pair_vsize_concat(self@.receiver_inputs, vs);
        }
        let mut receiver_inputs = copy_pairs(&self.receiver_inputs);
        let mut n: usize = 0;
        while n < replacement_inputs.len()
            invariant
                n <= replacement_inputs@.len(),
                pairs_view(receiver_inputs@) == self@.receiver_inputs + vs.take(n as int),
            decreases replacement_inputs@.len() - n,
        {
            let ghost before = pairs_view(receiver_inputs@);
            let d = replacement_inputs[n].duplicate();
            let ghost dv = d@;
            receiver_inputs.push(d);
            proof {
                assert(dv == vs[n as int]);
                assert(pairs_view(receiver_inputs@) =~= before.push(dv));
                assert(before.push(dv) =~= self@.receiver_inputs + vs.take(n as int + 1));
            }
            n = n + 1;
        }
        proof {
            assert(vs.take(vs.len() as int) =~= vs);
        }
        let w = WantsInputs {
            ctx: self.ctx.duplicate(),
            proposal: self.proposal.duplicate(),
            outputs: copy_txouts(&self.outputs),
            change_vout: self.change_vout,
            sender_fee_vout: self.sender_fee_vout,
            receiver_inputs,
        };
        proof {
            assert(w@ =~= (WantsInputsV {
                ctx: self@.ctx,
                proposal: self@.proposal,
                outputs: self@.outputs,
                change_vout: self@.change_vout,
                sender_fee_vout: self@.sender_fee_vout,
                receiver_inputs: self@.receiver_inputs + vs,
            }));
        }
        Result::Ok(w)
    }

    /// Commits the contributed inputs: a guaranteed transition into fee
    /// negotiation.
    pub fn commit_inputs(&self) -> (t: WantsInputsTransition)
        ensures
            t.event@ == (SessionEventV::CommittedInputs { inputs: self@.receiver_inputs }),
            t.next@ == (WantsFeeRangeV {
                ctx: self@.ctx,
                proposal: self@.proposal,
                outputs: self@.outputs,
                change_vout: self@.change_vout,
                sender_fee_vout: self@.sender_fee_vout,
                receiver_inputs: self@.receiver_inputs,
            }),
            (forall|i: int| 0 <= i < self@.receiver_inputs.len()
                ==> (#[trigger] self@.receiver_inputs[i]).wf()) ==> spec_apply_event(
                ReceiveSessionV::WantsInputs(self@),
                t.event@,
            ) == Option::Some(ReceiveSessionV::WantsFeeRange(t.next@)),
    {
        let event = SessionEvent::CommittedInputs { inputs: copy_pairs(&self.receiver_inputs) };
        let next = WantsFeeRange {
            ctx: self.ctx.duplicate(),
            proposal: self.proposal.duplicate(),
            outputs: copy_txouts(&self.outputs),
            change_vout: self.change_vout,
            sender_fee_vout: self.sender_fee_vout,
            receiver_inputs: copy_pairs(&self.receiver_inputs),
        };
        proof {
            assert(next@ =~= (WantsFeeRangeV {
                ctx: self@.ctx,
                proposal: self@.proposal,
                outputs: self@.outputs,
                change_vout: self@.change_vout,
                sender_fee_vout: self@.sender_fee_vout,
                receiver_inputs: self@.receiver_inputs,
            }));
        }
        WantsInputsTransition { event, next }
    }
}

/// The size of a concatenation is the sum of the sizes.
pub proof fn lemma_sum_pair_vsize_concat(a: Seq<InputPairV>, b: Seq<InputPairV>)
    ensures
        sum_pair_vsize(a + b) == sum_pair_vsize(a) + sum_pair_vsize(b),
    decreases b.len(),
{
    if b.len() == 0 {
        assert(a + b =~= a);
    } else {
        assert((a + b).drop_last() =~= a + b.drop_last());
        assert((a + b).last() == b.last());
        lemma_sum_pair_vsize_concat(a, b.drop_last());
    }
}

/// A prefix of the existing contribution already bounds the total from
/// below, when every candidate is well formed.
proof fn lemma_sum_prefix_all(a: Seq<InputPairV>, b: Seq<InputPairV>, i: int)
    requires
        0 <= i <= a.len(),
        forall|j: int| 0 <= j < a.len() ==> (#[trigger] a[j]).wf(),
        forall|j: int| 0 <= j < b.len() ==> (#[trigger] b[j]).wf(),
    ensures
        sum_pair_vsize(a.take(i)) <= sum_pair_vsize(a + b),
{
    lemma_sum_pair_vsize_concat(a, b);
    lemma_sum_pair_vsize_prefix_le(a, i);
    lemma_sum_pair_vsize_nonneg(b);
}

/// The whole existing contribution plus a prefix of the new one bounds
/// the total from below.
proof fn lemma_sum_concat_prefix(a: Seq<InputPairV>, b: Seq<InputPairV>, i: int)
    requires
        0 <= i <= b.len(),
        forall|j: int| 0 <= j < b.len() ==> (#[trigger] b[j]).wf(),
    ensures
        sum_pair_vsize(a) + sum_pair_vsize(b.take(i)) <= sum_pair_vsize(a + b),
{
    lemma_sum_pair_vsize_concat(a, b);
    lemma_sum_pair_vsize_prefix_le(b, i);
}

/// Sizes of well-formed candidates are never negative.
proof fn lemma_sum_pair_vsize_nonneg(s: Seq<InputPairV>)
    ensures
        (forall|j: int| 0 <= j < s.len() ==> (#[trigger] s[j]).wf()) ==> sum_pair_vsize(s) >= 0,
    decreases s.len(),
{
    if s.len() > 0 {
        assert(forall|j: int| 0 <= j < s.len() - 1 ==> s.drop_last()[j] == s[j]);
        lemma_sum_pair_vsize_nonneg(s.drop_last());
    }
}

/// Compares two script patterns.
pub fn script_type_eq(a: crate::model::ScriptType, b: crate::model::ScriptType) -> (r: bool)
    ensures
        r == (a == b),
{
    a == b
}

/// The minimum over outputs is no larger than any output value.
proof fn lemma_min_output_le_elem(s: Seq<TxOutV>, i: int)
    requires
        0 <= i < s.len(),
    ensures
        min_output_value(s) <= s[i].value,
    decreases s.len(),
{
    if i == s.len() - 1 {
        assert(s.last() == s[i]);
    } else {
        assert(s.drop_last()[i] == s[i]);
        lemma_min_output_le_elem(s.drop_last(), i);
    }
}

} // verus!
