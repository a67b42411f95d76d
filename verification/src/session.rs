//! The typestate session: one struct per protocol stage.
//!
//! Each stage exposes only the operations legal at that point; the stage
//! sequence is strictly ordered and a session never regresses. The tagged
//! union over all stages is what replaying an event log yields.

use vstd::prelude::*;

use crate::event::{SessionContext, SessionContextV};
use crate::model::{
    pairs_view, txouts_view, valid_proposal, InputPair, InputPairV, Proposal, ProposalV, Psbt,
    PsbtV, TxOut, TxOutV,
};

verus! {

/// A created session that has not yet received the sender's proposal.
pub struct Initialized {
    pub ctx: SessionContext,
}

#[verifier::ext_equal]
pub ghost struct InitializedV {
    pub ctx: SessionContextV,
}

impl View for Initialized {
    type V = InitializedV;

    open spec fn view(&self) -> InitializedV {
        InitializedV { ctx: self.ctx@ }
    }
}

impl Initialized {
    /// Copies this stage object; the copy has the same view.
    pub fn duplicate(&self) -> (r: Initialized)
        ensures
            r@ == self@,
    {
        let r = Initialized { ctx: self.ctx.duplicate() };
        proof {
            assert(r@ =~= self@);
        }
        r
    }
}

/// The sender's original proposal arrived but nothing about it has been
/// checked yet; it is untrusted input.
pub struct UncheckedProposal {
    pub ctx: SessionContext,
    pub proposal: Proposal,
}

#[verifier::ext_equal]
pub ghost struct UncheckedProposalV {
    pub ctx: SessionContextV,
    pub proposal: ProposalV,
}

impl View for UncheckedProposal {
    type V = UncheckedProposalV;

    open spec fn view(&self) -> UncheckedProposalV {
        UncheckedProposalV { ctx: self.ctx@, proposal: self.proposal@ }
    }
}

impl UncheckedProposal {
    /// Copies this stage object; the copy has the same view.
    pub fn duplicate(&self) -> (r: UncheckedProposal)
        ensures
            r@ == self@,
    {
        let r = UncheckedProposal {
            ctx: self.ctx.duplicate(),
            proposal: self.proposal.duplicate(),
        };
        proof {
            assert(r@ =~= self@);
        }
        r
    }
}

/// The original transaction is structurally valid and broadcastable, but
/// its inputs might still spend the receiver's own outputs.
pub struct MaybeInputsOwned {
    pub ctx: SessionContext,
    pub proposal: Proposal,
}

#[verifier::ext_equal]
pub ghost struct MaybeInputsOwnedV {
    pub ctx: SessionContextV,
    pub proposal: ProposalV,
}

impl View for MaybeInputsOwned {
    type V = MaybeInputsOwnedV;

    open spec fn view(&self) -> MaybeInputsOwnedV {
        MaybeInputsOwnedV { ctx: self.ctx@, proposal: self.proposal@ }
    }
}

/// No original input is the receiver's own, but inputs might still repeat
/// across sessions.
pub struct MaybeInputsSeen {
    pub ctx: SessionContext,
    pub proposal: Proposal,
}

#[verifier::ext_equal]
pub ghost struct MaybeInputsSeenV {
    pub ctx: SessionContextV,
    pub proposal: ProposalV,
}

impl View for MaybeInputsSeen {
    type V = MaybeInputsSeenV;

    open spec fn view(&self) -> MaybeInputsSeenV {
        MaybeInputsSeenV { ctx: self.ctx@, proposal: self.proposal@ }
    }
}

/// The inputs are clean but the receiver has not yet identified which
/// outputs pay it.
pub struct OutputsUnknown {
    pub ctx: SessionContext,
    pub proposal: Proposal,
}

#[verifier::ext_equal]
pub ghost struct OutputsUnknownV {
    pub ctx: SessionContextV,
    pub proposal: ProposalV,
}

impl View for OutputsUnknown {
    type V = OutputsUnknownV;

    open spec fn view(&self) -> OutputsUnknownV {
        OutputsUnknownV { ctx: self.ctx@, proposal: self.proposal@ }
    }
}

/// The receiver knows its outputs and may replace them before committing
/// the proposal's output set.
pub struct WantsOutputs {
    pub ctx: SessionContext,
    pub proposal: Proposal,
    /// Indexes of the original outputs that pay the receiver.
    pub owned_vouts: Vec<u32>,
    /// The working output set of the proposal under construction.
    pub outputs: Vec<TxOut>,
    /// Index into `outputs` of the receiver output that absorbs fees.
    pub change_vout: u32,
}

#[verifier::ext_equal]
pub ghost struct WantsOutputsV {
    pub ctx: SessionContextV,
    pub proposal: ProposalV,
    pub owned_vouts: Seq<u32>,
    pub outputs: Seq<TxOutV>,
    pub change_vout: u32,
}

impl View for WantsOutputs {
    type V = WantsOutputsV;

    open spec fn view(&self) -> WantsOutputsV {
        WantsOutputsV {
            ctx: self.ctx@,
            proposal: self.proposal@,
            owned_vouts: self.owned_vouts@,
            outputs: txouts_view(self.outputs@),
            change_vout: self.change_vout,
        }
    }
}

/// The output set is committed; the receiver may contribute inputs before
/// committing them.
pub struct WantsInputs {
    pub ctx: SessionContext,
    pub proposal: Proposal,
    pub outputs: Vec<TxOut>,
    pub change_vout: u32,
    /// Index into `outputs` of the sender output its declared fee
    /// allowance may be taken from, if that output survived substitution.
    pub sender_fee_vout: Option<u32>,
    /// The working list of receiver-contributed inputs.
    pub receiver_inputs: Vec<InputPair>,
}

#[verifier::ext_equal]
pub ghost struct WantsInputsV {
    pub ctx: SessionContextV,
    pub proposal: ProposalV,
    pub outputs: Seq<TxOutV>,
    pub change_vout: u32,
    pub sender_fee_vout: Option<u32>,
    pub receiver_inputs: Seq<InputPairV>,
}

impl View for WantsInputs {
    type V = WantsInputsV;

    open spec fn view(&self) -> WantsInputsV {
        WantsInputsV {
            ctx: self.ctx@,
            proposal: self.proposal@,
            outputs: txouts_view(self.outputs@),
            change_vout: self.change_vout,
            sender_fee_vout: self.sender_fee_vout,
            receiver_inputs: pairs_view(self.receiver_inputs@),
        }
    }
}

/// Inputs are committed; fee negotiation is the only thing left before the
/// proposal can be signed.
pub struct WantsFeeRange {
    pub ctx: SessionContext,
    pub proposal: Proposal,
    pub outputs: Vec<TxOut>,
    pub change_vout: u32,
    /// Index into `outputs` of the sender output its declared fee
    /// allowance may be taken from, if that output survived substitution.
    pub sender_fee_vout: Option<u32>,
    pub receiver_inputs: Vec<InputPair>,
}

#[verifier::ext_equal]
pub ghost struct WantsFeeRangeV {
    pub ctx: SessionContextV,
    pub proposal: ProposalV,
    pub outputs: Seq<TxOutV>,
    pub change_vout: u32,
    pub sender_fee_vout: Option<u32>,
    pub receiver_inputs: Seq<InputPairV>,
}

impl View for WantsFeeRange {
    type V = WantsFeeRangeV;

    open spec fn view(&self) -> WantsFeeRangeV {
        WantsFeeRangeV {
            ctx: self.ctx@,
            proposal: self.proposal@,
            outputs: txouts_view(self.outputs@),
            change_vout: self.change_vout,
            sender_fee_vout: self.sender_fee_vout,
            receiver_inputs: pairs_view(self.receiver_inputs@),
        }
    }
}

/// The fee-adjusted proposal, ready to be signed by the host.
pub struct ProvisionalProposal {
    pub ctx: SessionContext,
    pub proposal: Proposal,
    /// The proposal under construction with fee contributions applied.
    pub payjoin_psbt: Psbt,
    /// The minimum fee rate recorded on the transaction.
    pub min_fee_rate_sat_per_vb: u64,
}

#[verifier::ext_equal]
pub ghost struct ProvisionalProposalV {
    pub ctx: SessionContextV,
    pub proposal: ProposalV,
    pub payjoin_psbt: PsbtV,
    pub min_fee_rate_sat_per_vb: u64,
}

impl View for ProvisionalProposal {
    type V = ProvisionalProposalV;

    open spec fn view(&self) -> ProvisionalProposalV {
        ProvisionalProposalV {
            ctx: self.ctx@,
            proposal: self.proposal@,
            payjoin_psbt: self.payjoin_psbt@,
            min_fee_rate_sat_per_vb: self.min_fee_rate_sat_per_vb,
        }
    }
}

/// The finalized proposal, ready to be posted to the directory.
pub struct PayjoinProposal {
    pub ctx: SessionContext,
    pub proposal: Proposal,
    pub payjoin_psbt: Psbt,
}

#[verifier::ext_equal]
pub ghost struct PayjoinProposalV {
    pub ctx: SessionContextV,
    pub proposal: ProposalV,
    pub payjoin_psbt: PsbtV,
}

impl View for PayjoinProposal {
    type V = PayjoinProposalV;

    open spec fn view(&self) -> PayjoinProposalV {
        PayjoinProposalV { ctx: self.ctx@, proposal: self.proposal@, payjoin_psbt: self.payjoin_psbt@ }
    }
}

/// A receiver session at any point of its life: the tagged union over all
/// stages, as reconstructed by replaying an event log.
pub enum ReceiveSession {
    Uninitialized,
    Initialized(Initialized),
    UncheckedProposal(UncheckedProposal),
    MaybeInputsOwned(MaybeInputsOwned),
    MaybeInputsSeen(MaybeInputsSeen),
    OutputsUnknown(OutputsUnknown),
    WantsOutputs(WantsOutputs),
    WantsInputs(WantsInputs),
    WantsFeeRange(WantsFeeRange),
    ProvisionalProposal(ProvisionalProposal),
    PayjoinProposal(PayjoinProposal),
    TerminalSuccess,
    TerminalFailure,
}

#[verifier::ext_equal]
pub ghost enum ReceiveSessionV {
    Uninitialized,
    Initialized(InitializedV),
    UncheckedProposal(UncheckedProposalV),
    MaybeInputsOwned(MaybeInputsOwnedV),
    MaybeInputsSeen(MaybeInputsSeenV),
    OutputsUnknown(OutputsUnknownV),
    WantsOutputs(WantsOutputsV),
    WantsInputs(WantsInputsV),
    WantsFeeRange(WantsFeeRangeV),
    ProvisionalProposal(ProvisionalProposalV),
    PayjoinProposal(PayjoinProposalV),
    TerminalSuccess,
    TerminalFailure,
}

impl View for ReceiveSession {
    type V = ReceiveSessionV;

    open spec fn view(&self) -> ReceiveSessionV {
        match self {
            ReceiveSession::Uninitialized => ReceiveSessionV::Uninitialized,
            ReceiveSession::Initialized(s) => ReceiveSessionV::Initialized(s@),
            ReceiveSession::UncheckedProposal(s) => ReceiveSessionV::UncheckedProposal(s@),
            ReceiveSession::MaybeInputsOwned(s) => ReceiveSessionV::MaybeInputsOwned(s@),
            ReceiveSession::MaybeInputsSeen(s) => ReceiveSessionV::MaybeInputsSeen(s@),
            ReceiveSession::OutputsUnknown(s) => ReceiveSessionV::OutputsUnknown(s@),
            ReceiveSession::WantsOutputs(s) => ReceiveSessionV::WantsOutputs(s@),
            ReceiveSession::WantsInputs(s) => ReceiveSessionV::WantsInputs(s@),
            ReceiveSession::WantsFeeRange(s) => ReceiveSessionV::WantsFeeRange(s@),
            ReceiveSession::ProvisionalProposal(s) => ReceiveSessionV::ProvisionalProposal(s@),
            ReceiveSession::PayjoinProposal(s) => ReceiveSessionV::PayjoinProposal(s@),
            ReceiveSession::TerminalSuccess => ReceiveSessionV::TerminalSuccess,
            ReceiveSession::TerminalFailure => ReceiveSessionV::TerminalFailure,
        }
    }
}

impl ReceiveSessionV {
    /// Position of this stage in the protocol order. A session only ever
    /// moves to stages with a larger or equal position.
    pub open spec fn stage_index(self) -> int {
        match self {
            ReceiveSessionV::Uninitialized => 0,
            ReceiveSessionV::Initialized(_) => 1,
            ReceiveSessionV::UncheckedProposal(_) => 2,
            ReceiveSessionV::MaybeInputsOwned(_) => 3,
            ReceiveSessionV::MaybeInputsSeen(_) => 4,
            ReceiveSessionV::OutputsUnknown(_) => 5,
            ReceiveSessionV::WantsOutputs(_) => 6,
            ReceiveSessionV::WantsInputs(_) => 7,
            ReceiveSessionV::WantsFeeRange(_) => 8,
            ReceiveSessionV::ProvisionalProposal(_) => 9,
            ReceiveSessionV::PayjoinProposal(_) => 10,
            ReceiveSessionV::TerminalSuccess => 11,
            ReceiveSessionV::TerminalFailure => 12,
        }
    }
}

impl ReceiveSession {
    /// Position of this stage in the protocol order.
    pub fn stage_number(&self) -> (r: u8)
        ensures
            r as int == self@.stage_index(),
    {
        match self {
            ReceiveSession::Uninitialized => 0,
            ReceiveSession::Initialized(_) => 1,
            ReceiveSession::UncheckedProposal(_) => 2,
            ReceiveSession::MaybeInputsOwned(_) => 3,
            ReceiveSession::MaybeInputsSeen(_) => 4,
            ReceiveSession::OutputsUnknown(_) => 5,
            ReceiveSession::WantsOutputs(_) => 6,
            ReceiveSession::WantsInputs(_) => 7,
            ReceiveSession::WantsFeeRange(_) => 8,
            ReceiveSession::ProvisionalProposal(_) => 9,
            ReceiveSession::PayjoinProposal(_) => 10,
            ReceiveSession::TerminalSuccess => 11,
            ReceiveSession::TerminalFailure => 12,
        }
    }
}

impl WantsOutputsV {
    /// Stage invariant: the proposal is validated, the owned output indexes
    /// point at original outputs and there is at least one, and the working
    /// output set has a change output.
    pub open spec fn wf(self) -> bool {
        &&& valid_proposal(self.proposal)
        &&& self.owned_vouts.len() >= 1
        &&& (forall|i: int| 0 <= i < self.owned_vouts.len() ==> self.owned_vouts[i]
            < self.proposal.psbt.tx.outputs.len())
        &&& self.outputs.len() >= 1
        &&& self.change_vout < self.outputs.len()
    }
}

impl WantsInputsV {
    /// Stage invariant: validated proposal, committed output set with a
    /// change output and an in-range sender fee output if one survived,
    /// and every contributed input carries its spent output.
    pub open spec fn wf(self) -> bool {
        &&& valid_proposal(self.proposal)
        &&& self.outputs.len() >= 1
        &&& self.change_vout < self.outputs.len()
        &&& (self.sender_fee_vout matches Option::Some(f) ==> f < self.outputs.len())
        &&& (forall|i: int| 0 <= i < self.receiver_inputs.len()
            ==> (#[trigger] self.receiver_inputs[i]).wf())
    }
}

impl WantsFeeRangeV {
    /// Stage invariant, carried over unchanged from the previous stage.
    pub open spec fn wf(self) -> bool {
        &&& valid_proposal(self.proposal)
        &&& self.outputs.len() >= 1
        &&& self.change_vout < self.outputs.len()
        &&& (self.sender_fee_vout matches Option::Some(f) ==> f < self.outputs.len())
        &&& (forall|i: int| 0 <= i < self.receiver_inputs.len()
            ==> (#[trigger] self.receiver_inputs[i]).wf())
    }
}

} // verus!
