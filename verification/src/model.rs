//! Plain-value model of the transaction data the session engine works on.
//!
//! The engine never parses raw consensus encodings itself; it operates on
//! these structures, and the byte form used on the wire is produced and
//! checked by the codec module. Each type has a mathematical view, and every
//! contract in the crate speaks about those views.

use vstd::prelude::*;

verus! {

/// Largest number of satoshis that can exist; validated transaction values
/// stay below this bound so the fee arithmetic stays far from `u64` overflow.
pub const MAX_MONEY: u64 = 2_100_000_000_000_000;

/// Reference to one output of a previous transaction.
pub struct OutPoint {
    /// Transaction id of the referenced transaction.
    pub txid: Vec<u8>,
    /// Index of the referenced output in that transaction.
    pub vout: u32,
}

#[verifier::ext_equal]
pub ghost struct OutPointV {
    pub txid: Seq<u8>,
    pub vout: u32,
}

impl View for OutPoint {
    type V = OutPointV;

    open spec fn view(&self) -> OutPointV {
        OutPointV { txid: self.txid@, vout: self.vout }
    }
}

/// One transaction input: the outpoint it spends and its sequence number.
/// Signature material lives in the PSBT input, not here.
pub struct TxIn {
    pub prev_out: OutPoint,
    pub sequence: u32,
}

#[verifier::ext_equal]
pub ghost struct TxInV {
    pub prev_out: OutPointV,
    pub sequence: u32,
}

impl View for TxIn {
    type V = TxInV;

    open spec fn view(&self) -> TxInV {
        TxInV { prev_out: self.prev_out@, sequence: self.sequence }
    }
}

/// One transaction output.
pub struct TxOut {
    /// Value in satoshis.
    pub value: u64,
    /// The locking script of this output.
    pub script_pubkey: Vec<u8>,
}

#[verifier::ext_equal]
pub ghost struct TxOutV {
    pub value: u64,
    pub script_pubkey: Seq<u8>,
}

impl View for TxOut {
    type V = TxOutV;

    open spec fn view(&self) -> TxOutV {
        TxOutV { value: self.value, script_pubkey: self.script_pubkey@ }
    }
}

/// View of a sequence of inputs.
pub open spec fn txins_view(s: Seq<TxIn>) -> Seq<TxInV> {
    s.map_values(|x: TxIn| x@)
}

/// View of a sequence of outputs.
pub open spec fn txouts_view(s: Seq<TxOut>) -> Seq<TxOutV> {
    s.map_values(|x: TxOut| x@)
}

/// An unsigned transaction.
pub struct Transaction {
    pub version: u32,
    pub lock_time: u32,
    pub inputs: Vec<TxIn>,
    pub outputs: Vec<TxOut>,
}

#[verifier::ext_equal]
pub ghost struct TransactionV {
    pub version: u32,
    pub lock_time: u32,
    pub inputs: Seq<TxInV>,
    pub outputs: Seq<TxOutV>,
}

impl View for Transaction {
    type V = TransactionV;

    open spec fn view(&self) -> TransactionV {
        TransactionV {
            version: self.version,
            lock_time: self.lock_time,
            inputs: txins_view(self.inputs@),
            outputs: txouts_view(self.outputs@),
        }
    }
}

/// Per-input metadata of a partially signed transaction: the output being
/// spent, which supplies both the input's value and its spending script.
pub struct PsbtInput {
    pub witness_utxo: Option<TxOut>,
}

#[verifier::ext_equal]
pub ghost struct PsbtInputV {
    pub witness_utxo: Option<TxOutV>,
}

impl View for PsbtInput {
    type V = PsbtInputV;

    open spec fn view(&self) -> PsbtInputV {
        PsbtInputV {
            witness_utxo: match self.witness_utxo {
                Option::Some(ref o) => Option::Some(o@),
                Option::None => Option::None,
            },
        }
    }
}

/// View of a sequence of PSBT inputs.
pub open spec fn psbtins_view(s: Seq<PsbtInput>) -> Seq<PsbtInputV> {
    s.map_values(|x: PsbtInput| x@)
}

/// A partially signed transaction: the unsigned transaction plus one
/// metadata entry for each of its inputs.
pub struct Psbt {
    pub tx: Transaction,
    pub inputs: Vec<PsbtInput>,
}

#[verifier::ext_equal]
pub ghost struct PsbtV {
    pub tx: TransactionV,
    pub inputs: Seq<PsbtInputV>,
}

impl View for Psbt {
    type V = PsbtV;

    open spec fn view(&self) -> PsbtV {
        PsbtV { tx: self.tx@, inputs: psbtins_view(self.inputs@) }
    }
}

impl PsbtV {
    /// Structural consistency: one metadata entry per transaction input.
    pub open spec fn wf(self) -> bool {
        self.inputs.len() == self.tx.inputs.len()
    }

    /// Every input carries the output it spends, so values and spending
    /// scripts of all inputs are known.
    pub open spec fn all_utxos_known(self) -> bool {
        forall|i: int| 0 <= i < self.inputs.len() ==> self.inputs[i].witness_utxo is Some
    }
}

/// Fee-related parameters the sender declared alongside its original
/// proposal. Plain scalars, so the type is its own view.
#[derive(Clone, Copy, PartialEq, Eq, Structural, Debug)]
pub struct ProposalParams {
    /// Largest number of satoshis the sender allows to be taken from its
    /// designated change output to pay for receiver-contributed inputs.
    pub max_additional_fee_contribution: u64,
    /// Index of the sender output that the additional fee may be taken from,
    /// or the length of the output list if the sender designated none.
    pub additional_fee_output_index: u32,
    /// Whether the sender designated a fee output at all.
    pub has_fee_output: bool,
    /// The sender's declared minimum fee rate for the final transaction, in
    /// satoshis per virtual byte.
    pub min_fee_rate_sat_per_vb: u64,
    /// Whether the sender allows the receiver to replace its outputs.
    pub output_substitution_allowed: bool,
}

/// The sender's original proposal: its partially signed transaction plus the
/// declared fee parameters.
pub struct Proposal {
    pub psbt: Psbt,
    pub params: ProposalParams,
}

#[verifier::ext_equal]
pub ghost struct ProposalV {
    pub psbt: PsbtV,
    pub params: ProposalParams,
}

impl View for Proposal {
    type V = ProposalV;

    open spec fn view(&self) -> ProposalV {
        ProposalV { psbt: self.psbt@, params: self.params }
    }
}

/// A candidate receiver input: the transaction input to add, its PSBT
/// metadata, and an optional declared witness weight in weight units.
pub struct InputPair {
    pub txin: TxIn,
    pub psbtin: PsbtInput,
    pub expected_weight: Option<u64>,
}

#[verifier::ext_equal]
pub ghost struct InputPairV {
    pub txin: TxInV,
    pub psbtin: PsbtInputV,
    pub expected_weight: Option<u64>,
}

impl View for InputPair {
    type V = InputPairV;

    open spec fn view(&self) -> InputPairV {
        InputPairV { txin: self.txin@, psbtin: self.psbtin@, expected_weight: self.expected_weight }
    }
}

/// View of a sequence of candidate inputs.
pub open spec fn pairs_view(s: Seq<InputPair>) -> Seq<InputPairV> {
    s.map_values(|x: InputPair| x@)
}

impl InputPairV {
    /// A usable candidate carries the output it spends.
    pub open spec fn wf(self) -> bool {
        self.psbtin.witness_utxo is Some
    }

    /// Value in satoshis of the output this candidate spends.
    pub open spec fn value(self) -> u64
        recommends
            self.wf(),
    {
        self.psbtin.witness_utxo.unwrap().value
    }

    /// The locking script of the output this candidate spends.
    pub open spec fn script(self) -> Seq<u8>
        recommends
            self.wf(),
    {
        self.psbtin.witness_utxo.unwrap().script_pubkey
    }
}

/// The script patterns the engine can recognise, used to keep contributed
/// inputs homogeneous with the inputs already in the proposal.
#[derive(PartialEq, Eq, Structural, Clone, Copy, Debug)]
pub enum ScriptType {
    P2pkh,
    P2sh,
    P2wpkh,
    P2wsh,
    P2tr,
    Unknown,
}

/// Classification of a locking script by its template.
pub open spec fn spec_script_type(s: Seq<u8>) -> ScriptType {
    if s.len() == 25 && s[0] == 0x76u8 && s[1] == 0xa9u8 && s[2] == 0x14u8 && s[23] == 0x88u8
        && s[24] == 0xacu8 {
        ScriptType::P2pkh
    } else if s.len() == 23 && s[0] == 0xa9u8 && s[1] == 0x14u8 && s[22] == 0x87u8 {
        ScriptType::P2sh
    } else if s.len() == 22 && s[0] == 0x00u8 && s[1] == 0x14u8 {
        ScriptType::P2wpkh
    } else if s.len() == 34 && s[0] == 0x00u8 && s[1] == 0x20u8 {
        ScriptType::P2wsh
    } else if s.len() == 34 && s[0] == 0x51u8 && s[1] == 0x20u8 {
        ScriptType::P2tr
    } else {
        ScriptType::Unknown
    }
}

/// Classifies a locking script by its template.
pub fn script_type(s: &Vec<u8>) -> (r: ScriptType)
    ensures
        r == spec_script_type(s@),
{
    let n = s.len();
    if n == 25 && s[0] == 0x76u8 && s[1] == 0xa9u8 && s[2] == 0x14u8 && s[23] == 0x88u8
        && s[24] == 0xacu8 {
        ScriptType::P2pkh
    } else if n == 23 && s[0] == 0xa9u8 && s[1] == 0x14u8 && s[22] == 0x87u8 {
        ScriptType::P2sh
    } else if n == 22 && s[0] == 0x00u8 && s[1] == 0x14u8 {
        ScriptType::P2wpkh
    } else if n == 34 && s[0] == 0x00u8 && s[1] == 0x20u8 {
        ScriptType::P2wsh
    } else if n == 34 && s[0] == 0x51u8 && s[1] == 0x20u8 {
        ScriptType::P2tr
    } else {
        ScriptType::Unknown
    }
}

/// Sum of the values of a sequence of outputs, in satoshis.
pub open spec fn sum_output_values(outs: Seq<TxOutV>) -> int
    decreases outs.len(),
{
    if outs.len() == 0 {
        0
    } else {
        sum_output_values(outs.drop_last()) + outs.last().value
    }
}

/// Sum of the values of the outputs spent by a PSBT's inputs, in satoshis.
pub open spec fn sum_input_values(ins: Seq<PsbtInputV>) -> int
    decreases ins.len(),
{
    if ins.len() == 0 {
        0
    } else {
        sum_input_values(ins.drop_last()) + (match ins.last().witness_utxo {
            Option::Some(o) => o.value as int,
            Option::None => 0,
        })
    }
}

/// Virtual size in bytes that one output adds to a transaction: eight value
/// bytes, one length byte and the script itself.
pub open spec fn output_vsize(o: TxOutV) -> int {
    9 + o.script_pubkey.len() as int
}

/// Sum of the virtual sizes of a sequence of outputs.
pub open spec fn sum_output_vsize(outs: Seq<TxOutV>) -> int
    decreases outs.len(),
{
    if outs.len() == 0 {
        0
    } else {
        sum_output_vsize(outs.drop_last()) + output_vsize(outs.last())
    }
}

/// Copies a byte vector; the copy has the same view.
pub fn copy_bytes(v: &Vec<u8>) -> (r: Vec<u8>)
    ensures
        r@ == v@,
{
    let r = v.clone();
    proof {
        assert(r@ =~= v@);
    }
    r
}

impl OutPoint {
    /// Copies this outpoint; the copy has the same view.
    pub fn duplicate(&self) -> (r: OutPoint)
        ensures
            r@ == self@,
    {
        let r = OutPoint { txid: copy_bytes(&self.txid), vout: self.vout };
        proof {
            assert(r@ =~= self@);
        }
        r
    }
}

impl TxIn {
    /// Copies this input; the copy has the same view.
    pub fn duplicate(&self) -> (r: TxIn)
        ensures
            r@ == self@,
    {
        let r = TxIn { prev_out: self.prev_out.duplicate(), sequence: self.sequence };
        proof {
            assert(r@ =~= self@);
        }
        r
    }
}

impl TxOut {
    /// Copies this output; the copy has the same view.
    pub fn duplicate(&self) -> (r: TxOut)
        ensures
            r@ == self@,
    {
        let r = TxOut { value: self.value, script_pubkey: copy_bytes(&self.script_pubkey) };
        proof {
            assert(r@ =~= self@);
        }
        r
    }
}

/// Copies a list of inputs; the copy has the same view.
pub fn copy_txins(v: &Vec<TxIn>) -> (r: Vec<TxIn>)
    ensures
        txins_view(r@) == txins_view(v@),
{
    let mut r: Vec<TxIn> = Vec::new();
    let mut i: usize = 0;
    while i < v.len()
        invariant
            i <= v.len(),
            r@.len() == i,
            forall|j: int| 0 <= j < i ==> r@[j]@ == v@[j]@,
        decreases v.len() - i,
    {
        r.push(v[i].duplicate());
        i = i + 1;
    }
    proof {
        assert(txins_view(r@) =~= txins_view(v@));
    }
    r
}

/// Copies a list of outputs; the copy has the same view.
pub fn copy_txouts(v: &Vec<TxOut>) -> (r: Vec<TxOut>)
    ensures
        txouts_view(r@) == txouts_view(v@),
{
    let mut r: Vec<TxOut> = Vec::new();
    let mut i: usize = 0;
    while i < v.len()
        invariant
            i <= v.len(),
            r@.len() == i,
            forall|j: int| 0 <= j < i ==> r@[j]@ == v@[j]@,
        decreases v.len() - i,
    {
        r.push(v[i].duplicate());
        i = i + 1;
    }
    proof {
        assert(txouts_view(r@) =~= txouts_view(v@));
    }
    r
}

impl Transaction {
    /// Copies this transaction; the copy has the same view.
    pub fn duplicate(&self) -> (r: Transaction)
        ensures
            r@ == self@,
    {
        let r = Transaction {
            version: self.version,
            lock_time: self.lock_time,
            inputs: copy_txins(&self.inputs),
            outputs: copy_txouts(&self.outputs),
        };
        proof {
            assert(r@ =~= self@);
        }
        r
    }
}

impl PsbtInput {
    /// Copies this PSBT input; the copy has the same view.
    pub fn duplicate(&self) -> (r: PsbtInput)
        ensures
            r@ == self@,
    {
        let r = PsbtInput {
            witness_utxo: match &self.witness_utxo {
                Option::Some(o) => Option::Some(o.duplicate()),
                Option::None => Option::None,
            },
        };
        proof {
            assert(r@ =~= self@);
        }
        r
    }
}

/// Copies a list of PSBT inputs; the copy has the same view.
pub fn copy_psbtins(v: &Vec<PsbtInput>) -> (r: Vec<PsbtInput>)
    ensures
        psbtins_view(r@) == psbtins_view(v@),
{
    let mut r: Vec<PsbtInput> = Vec::new();
    let mut i: usize = 0;
    while i < v.len()
        invariant
            i <= v.len(),
            r@.len() == i,
            forall|j: int| 0 <= j < i ==> r@[j]@ == v@[j]@,
        decreases v.len() - i,
    {
        r.push(v[i].duplicate());
        i = i + 1;
    }
    proof {
        assert(psbtins_view(r@) =~= psbtins_view(v@));
    }
    r
}

impl Psbt {
    /// Copies this PSBT; the copy has the same view.
    pub fn duplicate(&self) -> (r: Psbt)
        ensures
            r@ == self@,
    {
        let r = Psbt { tx: self.tx.duplicate(), inputs: copy_psbtins(&self.inputs) };
        proof {
            assert(r@ =~= self@);
        }
        r
    }
}

impl Proposal {
    /// Copies this proposal; the copy has the same view.
    pub fn duplicate(&self) -> (r: Proposal)
        ensures
            r@ == self@,
    {
        let r = Proposal { psbt: self.psbt.duplicate(), params: self.params };
        proof {
            assert(r@ =~= self@);
        }
        r
    }
}

impl InputPair {
    /// Copies this candidate input; the copy has the same view.
    pub fn duplicate(&self) -> (r: InputPair)
        ensures
            r@ == self@,
    {
        let r = InputPair {
            txin: self.txin.duplicate(),
            psbtin: self.psbtin.duplicate(),
            expected_weight: self.expected_weight,
        };
        proof {
            assert(r@ =~= self@);
        }
        r
    }
}

/// Copies a list of candidate inputs; the copy has the same view.
pub fn copy_pairs(v: &Vec<InputPair>) -> (r: Vec<InputPair>)
    ensures
        pairs_view(r@) == pairs_view(v@),
{
    let mut r: Vec<InputPair> = Vec::new();
    let mut i: usize = 0;
    while i < v.len()
        invariant
            i <= v.len(),
            r@.len() == i,
            forall|j: int| 0 <= j < i ==> r@[j]@ == v@[j]@,
        decreases v.len() - i,
    {
        r.push(v[i].duplicate());
        i = i + 1;
    }
    proof {
        assert(pairs_view(r@) =~= pairs_view(v@));
    }
    r
}

/// Copies a list of output indexes; the copy has the same view.
pub fn copy_u32s(v: &Vec<u32>) -> (r: Vec<u32>)
    ensures
        r@ == v@,
{
    let r = v.clone();
    proof {
        assert(r@ =~= v@);
    }
    r
}

/// Number of bytes of a transaction id.
pub const TXID_LEN: u64 = 32;

/// Upper bound on the virtual size of a standard transaction's output set,
/// which also keeps all fee arithmetic far from overflow.
pub const MAX_STANDARD_OUT_VSIZE: u64 = 4_000_000;

/// Every input of the transaction spends an outpoint with a full-length
/// transaction id.
pub open spec fn txids_well_formed(ins: Seq<TxInV>) -> bool {
    forall|i: int| 0 <= i < ins.len() ==> (#[trigger] ins[i]).prev_out.txid.len() == TXID_LEN
}

/// A validated original proposal: consistent structure, every input's
/// spent output known, full-length transaction ids, at least one input and
/// one output, values within range and not paying out more than comes in,
/// output sizes within the standard bound, everything re-encodable, and a
/// designated fee output index that actually points at an output.
pub open spec fn valid_proposal(p: ProposalV) -> bool {
    &&& p.psbt.wf()
    &&& p.psbt.all_utxos_known()
    &&& txids_well_formed(p.psbt.tx.inputs)
    &&& p.psbt.tx.inputs.len() >= 1
    &&& p.psbt.tx.outputs.len() >= 1
    &&& sum_input_values(p.psbt.inputs) <= MAX_MONEY
    &&& sum_output_values(p.psbt.tx.outputs) <= sum_input_values(p.psbt.inputs)
    &&& sum_output_vsize(p.psbt.tx.outputs) <= MAX_STANDARD_OUT_VSIZE
    &&& crate::codec::encodable_psbt(p.psbt)
    &&& (p.params.has_fee_output ==> p.params.additional_fee_output_index
        < p.psbt.tx.outputs.len())
}

/// One step of the input-value sum, for reasoning about prefix sums.
pub proof fn lemma_sum_input_take_step(s: Seq<PsbtInputV>, i: int)
    requires
        0 <= i < s.len(),
    ensures
        sum_input_values(s.take(i + 1)) == sum_input_values(s.take(i)) + (match s[i].witness_utxo {
            Option::Some(o) => o.value as int,
            Option::None => 0,
        }),
{
    assert(s.take(i + 1).drop_last() =~= s.take(i));
    assert(s.take(i + 1).last() == s[i]);
}

/// One step of the output-value sum, for reasoning about prefix sums.
pub proof fn lemma_sum_output_take_step(s: Seq<TxOutV>, i: int)
    requires
        0 <= i < s.len(),
    ensures
        sum_output_values(s.take(i + 1)) == sum_output_values(s.take(i)) + s[i].value,
{
    assert(s.take(i + 1).drop_last() =~= s.take(i));
    assert(s.take(i + 1).last() == s[i]);
}

/// One step of the output-size sum, for reasoning about prefix sums.
pub proof fn lemma_sum_output_vsize_take_step(s: Seq<TxOutV>, i: int)
    requires
        0 <= i < s.len(),
    ensures
        sum_output_vsize(s.take(i + 1)) == sum_output_vsize(s.take(i)) + output_vsize(s[i]),
{
    assert(s.take(i + 1).drop_last() =~= s.take(i));
    assert(s.take(i + 1).last() == s[i]);
}

/// Input-value sums only grow as the prefix grows.
pub proof fn lemma_sum_input_prefix_le(s: Seq<PsbtInputV>, i: int)
    requires
        0 <= i <= s.len(),
    ensures
        sum_input_values(s.take(i)) <= sum_input_values(s),
    decreases s.len(),
{
    if i == s.len() {
        assert(s.take(i) =~= s);
    } else {
        assert(s.drop_last().take(i) =~= s.take(i));
        lemma_sum_input_prefix_le(s.drop_last(), i);
    }
}

/// Output-value sums only grow as the prefix grows.
pub proof fn lemma_sum_output_prefix_le(s: Seq<TxOutV>, i: int)
    requires
        0 <= i <= s.len(),
    ensures
        sum_output_values(s.take(i)) <= sum_output_values(s),
    decreases s.len(),
{
    if i == s.len() {
        assert(s.take(i) =~= s);
    } else {
        assert(s.drop_last().take(i) =~= s.take(i));
        lemma_sum_output_prefix_le(s.drop_last(), i);
    }
}

/// Checks whether the sender's proposal is structurally valid: this is the
/// deterministic part of the broadcast-suitability validation, and the part
/// that replay re-checks.
pub fn check_proposal_valid(p: &Proposal) -> (b: bool)
    ensures
        b == valid_proposal(p@),
{
    if p.psbt.inputs.len() != p.psbt.tx.inputs.len() {
        return false;
    }
    if p.psbt.tx.inputs.len() == 0 {
        return false;
    }
    if p.psbt.tx.outputs.len() == 0 {
        return false;
    }
    let ghost ins = psbtins_view(p.psbt.inputs@);
    let mut sum_in: u64 = 0;
    let mut i: usize = 0;
    while i < p.psbt.inputs.len()
        invariant
            i <= p.psbt.inputs.len(),
            ins == psbtins_view(p.psbt.inputs@),
            ins.len() == p.psbt.inputs.len(),
            sum_in == sum_input_values(ins.take(i as int)),
            sum_in <= MAX_MONEY,
            forall|j: int| 0 <= j < i ==> ins[j].witness_utxo is Some,
        decreases p.psbt.inputs.len() - i,
    {
        proof {
            lemma_sum_input_take_step(ins, i as int);
        }
        match &p.psbt.inputs[i].witness_utxo {
            Option::None => {
                return false;
            },
            Option::Some(o) => {
                if o.value > MAX_MONEY - sum_in {
                    proof {
                        lemma_sum_input_prefix_le(ins, i + 1);
                    }
                    return false;
                }
                sum_in = sum_in + o.value;
            },
        }
        i = i + 1;
    }
    proof {
        assert(ins.take(ins.len() as int) =~= ins);
    }
    let ghost outs = txouts_view(p.psbt.tx.outputs@);
    let mut sum_out: u64 = 0;
    let mut k: usize = 0;
    while k < p.psbt.tx.outputs.len()
        invariant
            k <= p.psbt.tx.outputs.len(),
            outs == txouts_view(p.psbt.tx.outputs@),
            outs.len() == p.psbt.tx.outputs.len(),
            sum_out == sum_output_values(outs.take(k as int)),
            sum_out <= sum_in,
            sum_in == sum_input_values(psbtins_view(p.psbt.inputs@)),
            sum_in <= MAX_MONEY,
        decreases p.psbt.tx.outputs.len() - k,
    {
        proof {
            lemma_sum_output_take_step(outs, k as int);
        }
        let value = p.psbt.tx.outputs[k].value;
        if value > sum_in - sum_out {
            proof {
                lemma_sum_output_prefix_le(outs, k + 1);
            }
            return false;
        }
        sum_out = sum_out + value;
        k = k + 1;
    }
    proof {
        assert(outs.take(outs.len() as int) =~= outs);
    }
    let ghost tins = txins_view(p.psbt.tx.inputs@);
    let mut t: usize = 0;
    while t < p.psbt.tx.inputs.len()
        invariant
            t <= p.psbt.tx.inputs.len(),
            tins == txins_view(p.psbt.tx.inputs@),
            tins.len() == p.psbt.tx.inputs.len(),
            forall|j: int| 0 <= j < t ==> (#[trigger] tins[j]).prev_out.txid.len() == TXID_LEN,
        decreases p.psbt.tx.inputs.len() - t,
    {
        if p.psbt.tx.inputs[t].prev_out.txid.len() != 32 {
            proof {
                assert(tins[t as int].prev_out.txid.len() != TXID_LEN);
            }
            return false;
        }
        t = t + 1;
    }
    let mut vs: u64 = 0;
    let mut m: usize = 0;
    while m < p.psbt.tx.outputs.len()
        invariant
            m <= p.psbt.tx.outputs.len(),
            outs == txouts_view(p.psbt.tx.outputs@),
            outs.len() == p.psbt.tx.outputs.len(),
            vs == sum_output_vsize(outs.take(m as int)),
            vs <= MAX_STANDARD_OUT_VSIZE,
        decreases p.psbt.tx.outputs.len() - m,
    {
        proof {
            lemma_sum_output_vsize_take_step(outs, m as int);
        }
        let slen = p.psbt.tx.outputs[m].script_pubkey.len();
        if !((slen as u64) < 4294967296u64) {
            proof {
                assert(!crate::codec::encodable_txout(outs[m as int]));
                assert(!crate::codec::encodable_txouts(outs));
                assert(!crate::codec::encodable_psbt(p@.psbt));
            }
            return false;
        }
        if (slen as u64) > MAX_STANDARD_OUT_VSIZE - 9 || 9 + (slen as u64)
            > MAX_STANDARD_OUT_VSIZE - vs {
            proof {
                lemma_sum_output_vsize_prefix_le(outs, m + 1);
            }
            return false;
        }
        vs = vs + 9 + (slen as u64);
        m = m + 1;
    }
    proof {
        assert(outs.take(outs.len() as int) =~= outs);
    }
    if !crate::codec::check_encodable_psbt(&p.psbt) {
        return false;
    }
    if p.params.has_fee_output {
        if !((p.params.additional_fee_output_index as usize) < p.psbt.tx.outputs.len()) {
            return false;
        }
    }
    true
}

/// The fee the original transaction pays: what its inputs provide beyond
/// what its outputs spend.
pub open spec fn original_fee(p: ProposalV) -> int {
    sum_input_values(p.psbt.inputs) - sum_output_values(p.psbt.tx.outputs)
}

/// Virtual size assumed for an original input, by the script pattern of
/// the output it spends.
pub open spec fn psbtin_vsize(p: PsbtInputV) -> int {
    match p.witness_utxo {
        Option::Some(o) => default_input_vsize(spec_script_type(o.script_pubkey)),
        Option::None => 110,
    }
}

/// Total virtual size assumed for the original inputs.
pub open spec fn sum_psbtin_vsize(s: Seq<PsbtInputV>) -> int
    decreases s.len(),
{
    if s.len() == 0 {
        0
    } else {
        sum_psbtin_vsize(s.drop_last()) + psbtin_vsize(s.last())
    }
}

/// One step of the original-input-size sum, for reasoning about prefixes.
pub proof fn lemma_sum_psbtin_vsize_take_step(s: Seq<PsbtInputV>, i: int)
    requires
        0 <= i < s.len(),
    ensures
        sum_psbtin_vsize(s.take(i + 1)) == sum_psbtin_vsize(s.take(i)) + psbtin_vsize(s[i]),
{
    assert(s.take(i + 1).drop_last() =~= s.take(i));
    assert(s.take(i + 1).last() == s[i]);
}

/// Virtual size assumed for the whole original transaction: a fixed
/// overhead, the assumed input sizes, and the output sizes.
pub open spec fn original_vsize(p: ProposalV) -> int {
    11 + sum_psbtin_vsize(p.psbt.inputs) + sum_output_vsize(p.psbt.tx.outputs)
}

/// Whether a fee covers a rate over a size, in exact integer arithmetic.
pub open spec fn fee_covers(fee: u64, rate: u64, vsize: int) -> bool {
    fee >= rate * vsize
}

/// Decides whether a fee covers a rate over a size, without overflowing.
pub fn fee_covers_exec(fee: u64, rate: u64, vsize: u64) -> (r: bool)
    ensures
        r == fee_covers(fee, rate, vsize as int),
{
    if rate == 0 {
        assert(rate * vsize == 0) by {
            vstd::arithmetic::mul::lemma_mul_basics(vsize as int);
        }
        true
    } else {
        let q = u64::MAX / rate;
        if vsize > q {
            proof {
                vstd::arithmetic::div_mod::lemma_fundamental_div_mod(u64::MAX as int, rate as int);
                assert(rate * vsize >= rate * (q + 1)) by {
                    vstd::arithmetic::mul::lemma_mul_inequality(
                        q as int + 1, vsize as int, rate as int);
                    vstd::arithmetic::mul::lemma_mul_is_commutative(rate as int, vsize as int);
                    vstd::arithmetic::mul::lemma_mul_is_commutative(rate as int, q as int + 1);
                }
                assert(rate * (q + 1) == rate * q + rate) by {
                    vstd::arithmetic::mul::lemma_mul_is_distributive_add(
                        rate as int, q as int, 1);
                    vstd::arithmetic::mul::lemma_mul_basics(rate as int);
                }
                assert(rate * q + rate > u64::MAX) by {
                    vstd::arithmetic::mul::lemma_mul_is_commutative(rate as int, q as int);
                }
            }
            false
        } else {
            proof {
                vstd::arithmetic::div_mod::lemma_fundamental_div_mod(u64::MAX as int, rate as int);
                assert(rate * vsize <= rate * q) by {
                    vstd::arithmetic::mul::lemma_mul_inequality(
                        vsize as int, q as int, rate as int);
                    vstd::arithmetic::mul::lemma_mul_is_commutative(rate as int, vsize as int);
                    vstd::arithmetic::mul::lemma_mul_is_commutative(rate as int, q as int);
                }
            }
            fee >= rate * vsize
        }
    }
}

/// Decides whether a product of two amounts leaves the representable
/// range, without overflowing.
pub fn mul_exceeds(a: u64, b: u64) -> (r: bool)
    ensures
        r == (a as int * b as int > u64::MAX as int),
{
    if a == 0 || b == 0 {
        proof {
            vstd::arithmetic::mul::lemma_mul_basics(a as int);
            vstd::arithmetic::mul::lemma_mul_basics(b as int);
        }
        false
    } else {
        let q = u64::MAX / b;
        if a > q {
            proof {
                vstd::arithmetic::div_mod::lemma_fundamental_div_mod(u64::MAX as int, b as int);
                assert(a as int * b as int >= (q as int + 1) * b as int) by {
                    vstd::arithmetic::mul::lemma_mul_inequality(
                        q as int + 1, a as int, b as int);
                }
                assert((q as int + 1) * b as int == q as int * b as int + b as int) by {
                    vstd::arithmetic::mul::lemma_mul_is_distributive_add_other_way(
                        b as int, q as int, 1);
                    vstd::arithmetic::mul::lemma_mul_basics(b as int);
                }
                assert(q as int * b as int + b as int > u64::MAX as int) by {
                    vstd::arithmetic::mul::lemma_mul_is_commutative(q as int, b as int);
                }
            }
            true
        } else {
            proof {
                vstd::arithmetic::div_mod::lemma_fundamental_div_mod(u64::MAX as int, b as int);
                assert(a as int * b as int <= q as int * b as int) by {
                    vstd::arithmetic::mul::lemma_mul_inequality(a as int, q as int, b as int);
                }
                assert(q as int * b as int <= u64::MAX as int) by {
                    vstd::arithmetic::mul::lemma_mul_is_commutative(q as int, b as int);
                }
            }
            false
        }
    }
}

/// Computes the assumed virtual size of the original transaction.
pub fn original_vsize_exec(p: &Proposal) -> (r: u64)
    requires
        crate::codec::fits_len(p@.psbt.inputs.len()),
        sum_output_vsize(p@.psbt.tx.outputs) <= MAX_STANDARD_OUT_VSIZE,
    ensures
        r == original_vsize(p@),
{
    let ghost ins = psbtins_view(p.psbt.inputs@);
    let mut in_vsize: u64 = 0;
    let mut i: usize = 0;
    while i < p.psbt.inputs.len()
        invariant
            i <= p.psbt.inputs.len(),
            ins == psbtins_view(p.psbt.inputs@),
            ins.len() == p.psbt.inputs.len(),
            ins.len() < 4294967296,
            in_vsize == sum_psbtin_vsize(ins.take(i as int)),
            in_vsize <= 148 * i,
        decreases p.psbt.inputs.len() - i,
    {
        proof {
            lemma_sum_psbtin_vsize_take_step(ins, i as int);
        }
        let term: u64 = match &p.psbt.inputs[i].witness_utxo {
            Option::Some(o) => {
                match script_type(&o.script_pubkey) {
                    ScriptType::P2pkh => 148,
                    ScriptType::P2sh => 91,
                    ScriptType::P2wpkh => 68,
                    ScriptType::P2wsh => 105,
                    ScriptType::P2tr => 58,
                    ScriptType::Unknown => 110,
                }
            },
            Option::None => 110,
        };
        in_vsize = in_vsize + term;
        i = i + 1;
    }
    proof {
        assert(ins.take(ins.len() as int) =~= ins);
    }
    let ghost outs = txouts_view(p.psbt.tx.outputs@);
    let mut out_vsize: u64 = 0;
    let mut k: usize = 0;
    while k < p.psbt.tx.outputs.len()
        invariant
            k <= p.psbt.tx.outputs.len(),
            outs == txouts_view(p.psbt.tx.outputs@),
            outs.len() == p.psbt.tx.outputs.len(),
            sum_output_vsize(outs) <= MAX_STANDARD_OUT_VSIZE,
            out_vsize == sum_output_vsize(outs.take(k as int)),
            out_vsize <= MAX_STANDARD_OUT_VSIZE,
        decreases p.psbt.tx.outputs.len() - k,
    {
        proof {
            lemma_sum_output_vsize_take_step(outs, k as int);
            lemma_sum_output_vsize_prefix_le(outs, k as int + 1);
        }
        out_vsize = out_vsize + 9 + (p.psbt.tx.outputs[k].script_pubkey.len() as u64);
        k = k + 1;
    }
    proof {
        assert(outs.take(outs.len() as int) =~= outs);
    }
    11 + in_vsize + out_vsize
}

/// Compares two byte vectors by contents.
pub fn eq_bytes(a: &Vec<u8>, b: &Vec<u8>) -> (r: bool)
    ensures
        r == (a@ == b@),
{
    if a.len() != b.len() {
        return false;
    }
    let mut i: usize = 0;
    while i < a.len()
        invariant
            i <= a@.len(),
            a@.len() == b@.len(),
            forall|j: int| 0 <= j < i ==> a@[j] == b@[j],
        decreases a@.len() - i,
    {
        if a[i] != b[i] {
            return false;
        }
        i = i + 1;
    }
    proof {
        assert(a@ =~= b@);
    }
    true
}

/// Compares two outpoints by contents.
pub fn eq_outpoint(a: &OutPoint, b: &OutPoint) -> (r: bool)
    ensures
        r == (a@ == b@),
{
    let r = eq_bytes(&a.txid, &b.txid) && a.vout == b.vout;
    proof {
        if r {
            assert(a@ =~= b@);
        } else {
            if a@ == b@ {
                assert(a@.txid == b@.txid && a@.vout == b@.vout);
            }
        }
    }
    r
}

/// Compares two output lists by contents.
pub fn eq_txout_lists(a: &Vec<TxOut>, b: &Vec<TxOut>) -> (r: bool)
    ensures
        r == (txouts_view(a@) == txouts_view(b@)),
{
    if a.len() != b.len() {
        proof {
            if txouts_view(a@) == txouts_view(b@) {
                assert(txouts_view(a@).len() == txouts_view(b@).len());
            }
        }
        return false;
    }
    let mut i: usize = 0;
    while i < a.len()
        invariant
            i <= a@.len(),
            a@.len() == b@.len(),
            forall|j: int| 0 <= j < i ==> a@[j]@ == b@[j]@,
        decreases a@.len() - i,
    {
        if a[i].value != b[i].value || !eq_bytes(&a[i].script_pubkey, &b[i].script_pubkey) {
            proof {
                assert(a@[i as int]@ != b@[i as int]@);
                if txouts_view(a@) == txouts_view(b@) {
                    assert(txouts_view(a@)[i as int] == txouts_view(b@)[i as int]);
                }
            }
            return false;
        }
        proof {
            assert(a@[i as int]@ =~= b@[i as int]@);
        }
        i = i + 1;
    }
    proof {
        assert(txouts_view(a@) =~= txouts_view(b@));
    }
    true
}

/// Compares two transactions by contents.
pub fn eq_tx(a: &Transaction, b: &Transaction) -> (r: bool)
    ensures
        r == (a@ == b@),
{
    if a.version != b.version || a.lock_time != b.lock_time {
        proof {
            assert(a@ != b@);
        }
        return false;
    }
    if a.inputs.len() != b.inputs.len() || a.outputs.len() != b.outputs.len() {
        proof {
            if a@ == b@ {
                assert(a@.inputs.len() == b@.inputs.len());
                assert(a@.outputs.len() == b@.outputs.len());
            }
        }
        return false;
    }
    let mut i: usize = 0;
    while i < a.inputs.len()
        invariant
            i <= a.inputs@.len(),
            a.inputs@.len() == b.inputs@.len(),
            forall|j: int| 0 <= j < i ==> a.inputs@[j]@ == b.inputs@[j]@,
        decreases a.inputs@.len() - i,
    {
        let x = &a.inputs[i];
        let y = &b.inputs[i];
        if !eq_bytes(&x.prev_out.txid, &y.prev_out.txid) || x.prev_out.vout != y.prev_out.vout
            || x.sequence != y.sequence {
            proof {
                assert(txins_view(a.inputs@)[i as int] != txins_view(b.inputs@)[i as int]);
                assert(a@ != b@);
            }
            return false;
        }
        proof {
            assert(a.inputs@[i as int]@ =~= b.inputs@[i as int]@);
        }
        i = i + 1;
    }
    let mut k: usize = 0;
    while k < a.outputs.len()
        invariant
            k <= a.outputs@.len(),
            a.outputs@.len() == b.outputs@.len(),
            forall|j: int| 0 <= j < k ==> a.outputs@[j]@ == b.outputs@[j]@,
        decreases a.outputs@.len() - k,
    {
        let x = &a.outputs[k];
        let y = &b.outputs[k];
        if x.value != y.value || !eq_bytes(&x.script_pubkey, &y.script_pubkey) {
            proof {
                assert(txouts_view(a.outputs@)[k as int] != txouts_view(b.outputs@)[k as int]);
                assert(a@ != b@);
            }
            return false;
        }
        proof {
            assert(a.outputs@[k as int]@ =~= b.outputs@[k as int]@);
        }
        k = k + 1;
    }
    proof {
        assert(txins_view(a.inputs@) =~= txins_view(b.inputs@));
        assert(txouts_view(a.outputs@) =~= txouts_view(b.outputs@));
        assert(a@ =~= b@);
    }
    true
}

/// Virtual size in bytes assumed for an input spending an output of the
/// given script pattern, when the candidate declares no weight of its own.
pub open spec fn default_input_vsize(t: ScriptType) -> int {
    match t {
        ScriptType::P2pkh => 148,
        ScriptType::P2sh => 91,
        ScriptType::P2wpkh => 68,
        ScriptType::P2wsh => 105,
        ScriptType::P2tr => 58,
        ScriptType::Unknown => 110,
    }
}

/// Virtual size in bytes one candidate input adds: the declared weight
/// rounded up to virtual bytes, or a default by script pattern.
pub open spec fn pair_vsize(p: InputPairV) -> int
    recommends
        p.wf(),
{
    match p.expected_weight {
        Option::Some(w) => crate::spec_div_ceil(w as int, 4),
        Option::None => default_input_vsize(spec_script_type(p.script())),
    }
}

/// Total virtual size the candidate inputs add.
pub open spec fn sum_pair_vsize(s: Seq<InputPairV>) -> int
    decreases s.len(),
{
    if s.len() == 0 {
        0
    } else {
        sum_pair_vsize(s.drop_last()) + pair_vsize(s.last())
    }
}

/// One step of the candidate-size sum, for reasoning about prefix sums.
pub proof fn lemma_sum_pair_vsize_take_step(s: Seq<InputPairV>, i: int)
    requires
        0 <= i < s.len(),
    ensures
        sum_pair_vsize(s.take(i + 1)) == sum_pair_vsize(s.take(i)) + pair_vsize(s[i]),
{
    assert(s.take(i + 1).drop_last() =~= s.take(i));
    assert(s.take(i + 1).last() == s[i]);
}

/// Virtual size in bytes one candidate input adds.
pub fn pair_vsize_exec(p: &InputPair) -> (r: u64)
    requires
        p@.wf(),
    ensures
        r == pair_vsize(p@),
        r <= 4611686018427387904u64,
{
    match &p.expected_weight {
        Option::Some(w) => crate::div_ceil_u64(*w, 4),
        Option::None => {
            match &p.psbtin.witness_utxo {
                Option::Some(o) => {
                    match script_type(&o.script_pubkey) {
                        ScriptType::P2pkh => 148,
                        ScriptType::P2sh => 91,
                        ScriptType::P2wpkh => 68,
                        ScriptType::P2wsh => 105,
                        ScriptType::P2tr => 58,
                        ScriptType::Unknown => 110,
                    }
                },
                Option::None => 110,
            }
        },
    }
}

/// Checks that an output list can stand in a standard transaction: its
/// scripts fit the length prefixes and its total size stays within the
/// standard bound.
pub fn check_outputs_standard(outs: &Vec<TxOut>) -> (r: bool)
    ensures
        r == (crate::codec::encodable_txouts(txouts_view(outs@)) && sum_output_vsize(
            txouts_view(outs@),
        ) <= MAX_STANDARD_OUT_VSIZE && txouts_view(outs@).len() < 4294967296),
{
    let ghost vs = txouts_view(outs@);
    if !((outs.len() as u64) < 4294967296u64) {
        return false;
    }
    let mut total: u64 = 0;
    let mut i: usize = 0;
    while i < outs.len()
        invariant
            i <= outs@.len(),
            vs == txouts_view(outs@),
            vs.len() == outs@.len(),
            vs.len() < 4294967296,
            total == sum_output_vsize(vs.take(i as int)),
            total <= MAX_STANDARD_OUT_VSIZE,
            forall|j: int| 0 <= j < i ==> crate::codec::encodable_txout(#[trigger] vs[j]),
        decreases outs@.len() - i,
    {
        proof {
            lemma_sum_output_vsize_take_step(vs, i as int);
        }
        let slen = outs[i].script_pubkey.len();
        if !((slen as u64) < 4294967296u64) {
            proof {
                assert(!crate::codec::encodable_txout(vs[i as int]));
                assert(!crate::codec::encodable_txouts(vs));
            }
            return false;
        }
        if (slen as u64) > MAX_STANDARD_OUT_VSIZE - 9 || 9 + (slen as u64)
            > MAX_STANDARD_OUT_VSIZE - total {
            proof {
                lemma_sum_output_vsize_prefix_le(vs, i + 1);
            }
            return false;
        }
        total = total + 9 + (slen as u64);
        i = i + 1;
    }
    proof {
        assert(vs.take(vs.len() as int) =~= vs);
    }
    true
}

/// Output-size sums only grow as the prefix grows.
pub proof fn lemma_sum_output_vsize_prefix_le(s: Seq<TxOutV>, i: int)
    requires
        0 <= i <= s.len(),
    ensures
        sum_output_vsize(s.take(i)) <= sum_output_vsize(s),
    decreases s.len(),
{
    if i == s.len() {
        assert(s.take(i) =~= s);
    } else {
        assert(s.drop_last().take(i) =~= s.take(i));
        lemma_sum_output_vsize_prefix_le(s.drop_last(), i);
    }
}

} // verus!
