//! The persisted session events and the session context they carry.
//!
//! Events are immutable once appended; the ordered event log is the sole
//! durable state of a session, and replaying it reconstructs the session
//! exactly.

use vstd::prelude::*;

use crate::error::{ReplyableError, ReplyableErrorV};
use crate::model::{
    pairs_view, psbtins_view, txouts_view, InputPair, InputPairV, Proposal, ProposalV, Psbt, PsbtV,
    TxOut, TxOutV,
};

verus! {

/// Everything fixed at session creation: the payment address presented to
/// the sender, the directory endpoint the envelopes travel through, the
/// server key material used to encrypt them, and the declared lifetime of
/// the session.
pub struct SessionContext {
    /// The receiver's payment address, in its display form.
    pub address: String,
    /// The store-and-forward directory endpoint, a validated https URL.
    pub directory: String,
    /// Opaque server encryption key material.
    pub ohttp_keys: Vec<u8>,
    /// Number of seconds after creation at which the session expires.
    pub expire_after_secs: u64,
}

#[verifier::ext_equal]
pub ghost struct SessionContextV {
    pub address: Seq<char>,
    pub directory: Seq<char>,
    pub ohttp_keys: Seq<u8>,
    pub expire_after_secs: u64,
}

impl View for SessionContext {
    type V = SessionContextV;

    open spec fn view(&self) -> SessionContextV {
        SessionContextV {
            address: self.address@,
            directory: self.directory@,
            ohttp_keys: self.ohttp_keys@,
            expire_after_secs: self.expire_after_secs,
        }
    }
}

impl SessionContext {
    /// Copies this context; the copy has the same view.
    pub fn duplicate(&self) -> (r: SessionContext)
        ensures
            r@ == self@,
    {
        let r = SessionContext {
            address: self.address.clone(),
            directory: self.directory.clone(),
            ohttp_keys: crate::model::copy_bytes(&self.ohttp_keys),
            expire_after_secs: self.expire_after_secs,
        };
        proof {
            assert(r@ =~= self@);
        }
        r
    }
}

/// One persisted state transition of a receiver session.
pub enum SessionEvent {
    /// The session was created with the given context.
    Created(SessionContext),
    /// The sender's original proposal arrived and parsed.
    RetrievedProposal(Proposal),
    /// The original transaction passed the broadcast-suitability check, or
    /// the receiver assumed it interactively.
    CheckedBroadcastSuitability,
    /// No original input spends one of the receiver's own outputs.
    CheckedInputsNotOwned,
    /// No original input was seen in an earlier session.
    CheckedNoInputsSeenBefore,
    /// The listed outputs of the original transaction pay the receiver.
    IdentifiedReceiverOutputs { owned_vouts: Vec<u32> },
    /// The receiver fixed the proposal's output set; `change_vout` indexes
    /// the receiver output that absorbs fee shortfalls, and
    /// `sender_fee_vout` the sender output its declared fee allowance may
    /// be taken from, if that output survived substitution.
    CommittedOutputs { outputs: Vec<TxOut>, change_vout: u32, sender_fee_vout: Option<u32> },
    /// The receiver fixed the list of inputs it contributes.
    CommittedInputs { inputs: Vec<InputPair> },
    /// Fee negotiation finished; the fee-adjusted proposal is ready for
    /// signing, with the recorded minimum fee rate.
    AppliedFeeRange { payjoin_psbt: Psbt, min_fee_rate_sat_per_vb: u64 },
    /// The host signer finalized the proposal.
    FinalizedProposal { payjoin_psbt: Psbt },
    /// The directory accepted the finished proposal.
    SessionSuccess,
    /// The session failed terminally.
    SessionFailure { error: ReplyableError },
}

#[verifier::ext_equal]
pub ghost enum SessionEventV {
    Created(SessionContextV),
    RetrievedProposal(ProposalV),
    CheckedBroadcastSuitability,
    CheckedInputsNotOwned,
    CheckedNoInputsSeenBefore,
    IdentifiedReceiverOutputs { owned_vouts: Seq<u32> },
    CommittedOutputs { outputs: Seq<TxOutV>, change_vout: u32, sender_fee_vout: Option<u32> },
    CommittedInputs { inputs: Seq<InputPairV> },
    AppliedFeeRange { payjoin_psbt: PsbtV, min_fee_rate_sat_per_vb: u64 },
    FinalizedProposal { payjoin_psbt: PsbtV },
    SessionSuccess,
    SessionFailure { error: ReplyableErrorV },
}

impl View for SessionEvent {
    type V = SessionEventV;

    open spec fn view(&self) -> SessionEventV {
        match self {
            SessionEvent::Created(ctx) => SessionEventV::Created(ctx@),
            SessionEvent::RetrievedProposal(p) => SessionEventV::RetrievedProposal(p@),
            SessionEvent::CheckedBroadcastSuitability => SessionEventV::CheckedBroadcastSuitability,
            SessionEvent::CheckedInputsNotOwned => SessionEventV::CheckedInputsNotOwned,
            SessionEvent::CheckedNoInputsSeenBefore => SessionEventV::CheckedNoInputsSeenBefore,
            SessionEvent::IdentifiedReceiverOutputs { owned_vouts } =>
                SessionEventV::IdentifiedReceiverOutputs { owned_vouts: owned_vouts@ },
            SessionEvent::CommittedOutputs { outputs, change_vout, sender_fee_vout } =>
                SessionEventV::CommittedOutputs {
                    outputs: txouts_view(outputs@),
                    change_vout: *change_vout,
                    sender_fee_vout: *sender_fee_vout,
                },
            SessionEvent::CommittedInputs { inputs } => SessionEventV::CommittedInputs {
                inputs: pairs_view(inputs@),
            },
            SessionEvent::AppliedFeeRange { payjoin_psbt, min_fee_rate_sat_per_vb } =>
                SessionEventV::AppliedFeeRange {
                    payjoin_psbt: payjoin_psbt@,
                    min_fee_rate_sat_per_vb: *min_fee_rate_sat_per_vb,
                },
            SessionEvent::FinalizedProposal { payjoin_psbt } => SessionEventV::FinalizedProposal {
                payjoin_psbt: payjoin_psbt@,
            },
            SessionEvent::SessionSuccess => SessionEventV::SessionSuccess,
            SessionEvent::SessionFailure { error } => SessionEventV::SessionFailure {
                error: error@,
            },
        }
    }
}

impl SessionEvent {
    /// Copies this event; the copy has the same view.
    pub fn duplicate(&self) -> (r: SessionEvent)
        ensures
            r@ == self@,
    {
        let r = match self {
            SessionEvent::Created(ctx) => SessionEvent::Created(ctx.duplicate()),
            SessionEvent::RetrievedProposal(p) => SessionEvent::RetrievedProposal(p.duplicate()),
            SessionEvent::CheckedBroadcastSuitability => SessionEvent::CheckedBroadcastSuitability,
            SessionEvent::CheckedInputsNotOwned => SessionEvent::CheckedInputsNotOwned,
            SessionEvent::CheckedNoInputsSeenBefore => SessionEvent::CheckedNoInputsSeenBefore,
            SessionEvent::IdentifiedReceiverOutputs { owned_vouts } =>
                SessionEvent::IdentifiedReceiverOutputs {
                    owned_vouts: crate::model::copy_u32s(owned_vouts),
                },
            SessionEvent::CommittedOutputs { outputs, change_vout, sender_fee_vout } =>
                SessionEvent::CommittedOutputs {
                    outputs: crate::model::copy_txouts(outputs),
                    change_vout: *change_vout,
                    sender_fee_vout: *sender_fee_vout,
                },
            SessionEvent::CommittedInputs { inputs } => SessionEvent::CommittedInputs {
                inputs: crate::model::copy_pairs(inputs),
            },
            SessionEvent::AppliedFeeRange { payjoin_psbt, min_fee_rate_sat_per_vb } =>
                SessionEvent::AppliedFeeRange {
                    payjoin_psbt: payjoin_psbt.duplicate(),
                    min_fee_rate_sat_per_vb: *min_fee_rate_sat_per_vb,
                },
            SessionEvent::FinalizedProposal { payjoin_psbt } => SessionEvent::FinalizedProposal {
                payjoin_psbt: payjoin_psbt.duplicate(),
            },
            SessionEvent::SessionSuccess => SessionEvent::SessionSuccess,
            SessionEvent::SessionFailure { error } => SessionEvent::SessionFailure {
                error: error.duplicate(),
            },
        };
        proof {
            assert(r@ =~= self@);
        }
        r
    }
}

/// View of a sequence of events.
pub open spec fn events_view(s: Seq<SessionEvent>) -> Seq<SessionEventV> {
    s.map_values(|e: SessionEvent| e@)
}

} // verus!
