//! The last two stages: handing the fee-adjusted proposal to the host
//! signer, and posting the finished proposal to the directory.

use vstd::prelude::*;

use crate::codec::{
    dec_post_response, enc_post_request, enc_psbt, encodable_psbt, parse_post_response, put_psbt,
    POST_REQUEST_TAG,
};
use crate::error::{ForeignError, ReceiverError, ReplyableError, TransientError};
use crate::event::{SessionEvent, SessionEventV};
use crate::codec::check_encodable_psbt;
use crate::model::{eq_tx, OutPoint};
use crate::oracles::ProcessPsbt;
use crate::outside::{is_secure_url, url_scheme_of, validate_endpoint, UrlFlaw};
use crate::replay::spec_apply_event;
use crate::session::{PayjoinProposal, ProvisionalProposal, ReceiveSessionV};
use crate::transitions::{PayjoinProposalTransition, ProvisionalProposalTransition};
use crate::uri::{ClientResponse, Request, RequestKind, RequestResponse};

verus! {

impl ProvisionalProposal {
    /// Hands exactly this stage's fee-adjusted proposal to the host
    /// signer and checks the answer: the signed proposal must describe the
    /// same transaction. On success, the finalized proposal is one the
    /// signer's relation admits for this stage's proposal. A signer
    /// failure, or a signed proposal for a different transaction, is
    /// transient: nothing is persisted and the step may be retried.
    pub fn finalize_proposal<S: ProcessPsbt>(&self, process_psbt: &S) -> (t:
        ProvisionalProposalTransition)
        ensures
            t matches ProvisionalProposalTransition::Success { event, next } ==> process_psbt.signs(
                self@.payjoin_psbt,
                next@.payjoin_psbt,
            ) && next@.payjoin_psbt.tx == self@.payjoin_psbt.tx && next@.payjoin_psbt.wf()
                && next@.ctx == self@.ctx && next@.proposal == self@.proposal && event@ == (
            SessionEventV::FinalizedProposal {
                payjoin_psbt: next@.payjoin_psbt,
            }) && spec_apply_event(ReceiveSessionV::ProvisionalProposal(self@), event@)
                == Option::Some(ReceiveSessionV::PayjoinProposal(next@)),
    {
        match process_psbt.callback(&self.payjoin_psbt) {
            Result::Err(e) => ProvisionalProposalTransition::Transient { error: e },
            Result::Ok(signed) => {
                if signed.inputs.len() == signed.tx.inputs.len() && eq_tx(
                    &signed.tx,
                    &self.payjoin_psbt.tx,
                ) {
                    let event = SessionEvent::FinalizedProposal {
                        payjoin_psbt: signed.duplicate(),
                    };
                    let next = PayjoinProposal {
                        ctx: self.ctx.duplicate(),
                        proposal: self.proposal.duplicate(),
                        payjoin_psbt: signed,
                    };
                    proof {
                        assert(spec_apply_event(
                            ReceiveSessionV::ProvisionalProposal(self@), event@)
                            == Option::Some(ReceiveSessionV::PayjoinProposal(next@)));
                    }
                    ProvisionalProposalTransition::Success { event, next }
                } else {
                    ProvisionalProposalTransition::Transient {
                        error: ForeignError {
                            message: "signer returned a different transaction".to_owned(),
                        },
                    }
                }
            },
        }
    }
}

impl PayjoinProposal {
    /// The outpoints of the receiver-contributed inputs: the host must
    /// hold these exclusively until the transaction confirms, so nothing
    /// else double-spends them.
    #[verifier::loop_isolation(false)]
    pub fn utxos_to_be_locked(&self) -> (r: Vec<OutPoint>)
        ensures
            self@.proposal.psbt.tx.inputs.len() <= self@.payjoin_psbt.tx.inputs.len() ==> {
                let n0 = self@.proposal.psbt.tx.inputs.len() as int;
                &&& r@.len() == self@.payjoin_psbt.tx.inputs.len() - n0
                &&& (forall|k: int| 0 <= k < r@.len() ==> (#[trigger] r@[k]@)
                    == self@.payjoin_psbt.tx.inputs[n0 + k].prev_out)
            },
            self@.proposal.psbt.tx.inputs.len() > self@.payjoin_psbt.tx.inputs.len() ==> r@.len()
                == 0,
    {
        let mut r: Vec<OutPoint> = Vec::new();
        let n0 = self.proposal.psbt.tx.inputs.len();
        if n0 > self.payjoin_psbt.tx.inputs.len() {
            return r;
        }
        let mut i: usize = n0;
        while i < self.payjoin_psbt.tx.inputs.len()
            invariant
                n0 <= i <= self.payjoin_psbt.tx.inputs@.len(),
                r@.len() == i - n0,
                forall|k: int| 0 <= k < r@.len() ==> (#[trigger] r@[k]@)
                    == self@.payjoin_psbt.tx.inputs[n0 as int + k].prev_out,
            decreases self.payjoin_psbt.tx.inputs@.len() - i,
        {
            r.push(self.payjoin_psbt.tx.inputs[i].prev_out.duplicate());
            i = i + 1;
        }
        r
    }

    /// The finished proposal in its canonical byte encoding, or nothing
    /// when it cannot be framed.
    pub fn psbt(&self) -> (r: Vec<u8>)
        ensures
            encodable_psbt(self@.payjoin_psbt) ==> r@ == enc_psbt(self@.payjoin_psbt),
            !encodable_psbt(self@.payjoin_psbt) ==> r@ == Seq::<u8>::empty(),
    {
        let mut out: Vec<u8> = Vec::new();
        if check_encodable_psbt(&self.payjoin_psbt) {
            put_psbt(&mut out, &self.payjoin_psbt);
        }
        out
    }

    /// Builds the request that posts the finished proposal, and the
    /// context needed to read the directory's answer.
    pub fn create_post_request(&self, ohttp_relay: String) -> (r: Result<
        RequestResponse,
        ReceiverError,
    >)
        ensures
            r is Ok <==> is_secure_url(ohttp_relay@) && encodable_psbt(self@.payjoin_psbt),
            r matches Result::Ok(rr) ==> rr.request@.url == ohttp_relay@ && rr.request@.body
                == enc_post_request(self@.payjoin_psbt) && rr.client_response.kind
                == RequestKind::Post,
            r matches Result::Err(ReceiverError::InvalidRelayUrl) <==> url_scheme_of(ohttp_relay@)
                is None,
            r matches Result::Err(ReceiverError::OversizedProposal) <==> is_secure_url(
                ohttp_relay@,
            ) && !encodable_psbt(self@.payjoin_psbt),
    {
        match validate_endpoint(&ohttp_relay) {
            Result::Err(UrlFlaw::Unparseable) => Result::Err(ReceiverError::InvalidRelayUrl),
            Result::Err(UrlFlaw::Insecure) => Result::Err(ReceiverError::InsecureRelayUrl),
            Result::Ok(()) => {
                if !check_encodable_psbt(&self.payjoin_psbt) {
                    return Result::Err(ReceiverError::OversizedProposal);
                }
                let mut body: Vec<u8> = Vec::new();
                body.push(POST_REQUEST_TAG);
                proof {
                    assert(body@ =~= seq![POST_REQUEST_TAG]);
                }
                put_psbt(&mut body, &self.payjoin_psbt);
                proof {
                    assert(body@ =~= enc_post_request(self@.payjoin_psbt));
                }
                Result::Ok(
                    RequestResponse {
                        request: Request { url: ohttp_relay, body },
                        client_response: ClientResponse { kind: RequestKind::Post },
                    },
                )
            },
        }
    }

    /// Reads the directory's answer to the post. Acceptance is the
    /// session's success; rejection is its terminal failure; anything
    /// unusable leaves the stage unchanged for a retry.
    pub fn process_response(&self, body: &[u8], ctx: &ClientResponse) -> (t:
        PayjoinProposalTransition)
        ensures
            ctx.kind != RequestKind::Post ==> (t matches PayjoinProposalTransition::Transient {
                error,
            } && error == TransientError::ContextMismatch),
            ctx.kind == RequestKind::Post ==> match dec_post_response(body@) {
                Option::None => t matches PayjoinProposalTransition::Transient { error }
                    && error == TransientError::MalformedResponse,
                Option::Some(true) => t matches PayjoinProposalTransition::Success { event }
                    && event@ == SessionEventV::SessionSuccess && spec_apply_event(
                    ReceiveSessionV::PayjoinProposal(self@),
                    event@,
                ) == Option::Some(ReceiveSessionV::TerminalSuccess),
                Option::Some(false) => t matches PayjoinProposalTransition::Fatal { error }
                    && error@ == crate::error::ReplyableErrorV::ResponseRejected,
            },
    {
        match ctx.kind() {
            RequestKind::Post => {
                match parse_post_response(body) {
                    Option::None => PayjoinProposalTransition::Transient {
                        error: TransientError::MalformedResponse,
                    },
                    Option::Some(true) => PayjoinProposalTransition::Success {
                        event: SessionEvent::SessionSuccess,
                    },
                    Option::Some(false) => PayjoinProposalTransition::Fatal {
                        error: ReplyableError::ResponseRejected,
                    },
                }
            },
            _ => PayjoinProposalTransition::Transient { error: TransientError::ContextMismatch },
        }
    }
}

} // verus!
