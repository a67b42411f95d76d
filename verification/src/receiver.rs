//! The stage operations of the receiver session, from creation to the poll
//! for the sender's original proposal.

use vstd::prelude::*;

use crate::codec::{
    dec_poll_response, enc_poll_request, parse_poll_response, put_bytes, POLL_REQUEST_TAG,
};
use crate::error::{BadInitInputsError, ReceiverError, TransientError};
use crate::event::{SessionContext, SessionContextV, SessionEvent, SessionEventV};
use crate::model::{check_proposal_valid, valid_proposal};
use crate::outside::{is_secure_url, url_scheme_of, validate_endpoint, UrlFlaw};
use crate::replay::spec_apply_event;
use crate::session::{Initialized, ReceiveSessionV, UncheckedProposal, UncheckedProposalV};
use crate::transitions::{InitialReceiveTransition, InitializedTransition};
use crate::uri::{ClientResponse, PjUri, Request, RequestKind, RequestResponse};

verus! {

/// Session lifetime assumed when the caller declares none, in seconds: one
/// day.
pub const DEFAULT_EXPIRE_AFTER_SECS: u64 = 86400;

/// The entry point of the protocol: a receiver that has no session yet.
pub struct UninitializedReceiver {}

impl UninitializedReceiver {
    /// A receiver with no session.
    pub fn new() -> (r: UninitializedReceiver) {
        UninitializedReceiver {  }
    }

    /// Creates a new session from the payment address, the directory
    /// endpoint the sender will be reached through, the server key
    /// material, and an optional lifetime. The directory endpoint must be
    /// a well-formed https URL; nothing is persisted for rejected inputs.
    pub fn create_session(
        &self,
        address: String,
        directory: String,
        ohttp_keys: Vec<u8>,
        expire_after: Option<u64>,
    ) -> (t: InitialReceiveTransition)
        ensures
            is_secure_url(directory@) && crate::codec::fits_len(ohttp_keys@.len()) ==> (t
                matches InitialReceiveTransition::Ready {
                event,
                next,
            } && event@ == SessionEventV::Created(next@.ctx) && next@.ctx == (SessionContextV {
                address: address@,
                directory: directory@,
                ohttp_keys: ohttp_keys@,
                expire_after_secs: match expire_after {
                    Option::Some(s) => s,
                    Option::None => DEFAULT_EXPIRE_AFTER_SECS,
                },
            }) && spec_apply_event(ReceiveSessionV::Uninitialized, event@) == Option::Some(
                ReceiveSessionV::Initialized(next@),
            )),
            !is_secure_url(directory@) ==> (t matches InitialReceiveTransition::BadInputs {
                error,
            } && error == (if url_scheme_of(directory@) is None {
                BadInitInputsError::InvalidDirectoryUrl
            } else {
                BadInitInputsError::InsecureDirectoryUrl
            })),
            is_secure_url(directory@) && !crate::codec::fits_len(ohttp_keys@.len()) ==> (t
                matches InitialReceiveTransition::BadInputs { error } && error
                == BadInitInputsError::OversizedKeyMaterial),
    {
        match validate_endpoint(&directory) {
            Result::Err(UrlFlaw::Unparseable) => InitialReceiveTransition::BadInputs {
                error: BadInitInputsError::InvalidDirectoryUrl,
            },
            Result::Err(UrlFlaw::Insecure) => InitialReceiveTransition::BadInputs {
                error: BadInitInputsError::InsecureDirectoryUrl,
            },
            Result::Ok(()) => {
                if !((ohttp_keys.len() as u64) < 4294967296u64) {
                    return InitialReceiveTransition::BadInputs {
                        error: BadInitInputsError::OversizedKeyMaterial,
                    };
                }
                let expire_after_secs = match expire_after {
                    Option::Some(s) => s,
                    Option::None => DEFAULT_EXPIRE_AFTER_SECS,
                };
                let ctx = SessionContext { address, directory, ohttp_keys, expire_after_secs };
                let event = SessionEvent::Created(ctx.duplicate());
                let next = Initialized { ctx };
                proof {
                    assert(spec_apply_event(ReceiveSessionV::Uninitialized, event@)
                        == Option::Some(ReceiveSessionV::Initialized(next@)));
                }
                InitialReceiveTransition::Ready { event, next }
            },
        }
    }
}

impl Initialized {
    /// Builds the request that polls the directory for the sender's
    /// original proposal, and the context needed to read the response. The
    /// relay endpoint must be a well-formed https URL.
    pub fn create_poll_request(&self, ohttp_relay: String) -> (r: Result<
        RequestResponse,
        ReceiverError,
    >)
        requires
            crate::codec::fits_len(self@.ctx.ohttp_keys.len()),
        ensures
            r is Ok <==> is_secure_url(ohttp_relay@),
            r matches Result::Ok(rr) ==> rr.request@.url == ohttp_relay@ && rr.request@.body
                == enc_poll_request(self@.ctx.ohttp_keys) && rr.client_response.kind
                == RequestKind::Poll,
            r matches Result::Err(ReceiverError::InvalidRelayUrl) <==> url_scheme_of(ohttp_relay@)
                is None,
    {
        match validate_endpoint(&ohttp_relay) {
            Result::Err(UrlFlaw::Unparseable) => Result::Err(ReceiverError::InvalidRelayUrl),
            Result::Err(UrlFlaw::Insecure) => Result::Err(ReceiverError::InsecureRelayUrl),
            Result::Ok(()) => {
                let mut body: Vec<u8> = Vec::new();
                body.push(POLL_REQUEST_TAG);
                proof {
                    assert(body@ =~= seq![POLL_REQUEST_TAG]);
                }
                put_bytes(&mut body, &self.ctx.ohttp_keys);
                proof {
                    assert(body@ =~= enc_poll_request(self@.ctx.ohttp_keys));
                }
                Result::Ok(
                    RequestResponse {
                        request: Request { url: ohttp_relay, body },
                        client_response: ClientResponse { kind: RequestKind::Poll },
                    },
                )
            },
        }
    }

    /// Reads the response to a poll. The response either carries the
    /// sender's original proposal or says that nothing is available yet.
    /// A proposal that decodes but is structurally invalid is a terminal
    /// failure with a reply owed to the sender; undecodable bytes and
    /// mismatched contexts are unusable and leave the session free to poll
    /// again.
    pub fn process_response(&self, body: &[u8], ctx: &ClientResponse) -> (t:
        InitializedTransition)
        ensures
            ctx.kind != RequestKind::Poll ==> (t matches InitializedTransition::Transient {
                error,
            } && error == TransientError::ContextMismatch),
            ctx.kind == RequestKind::Poll ==> match dec_poll_response(body@) {
                Option::None => t matches InitializedTransition::Transient { error }
                    && error == TransientError::MalformedResponse,
                Option::Some(Option::None) => t matches InitializedTransition::Stay { next }
                    && next@ == self@,
                Option::Some(Option::Some(p)) => if valid_proposal(p) {
                    t matches InitializedTransition::Progress { event, next } && event@
                        == SessionEventV::RetrievedProposal(p) && next@ == (UncheckedProposalV {
                        ctx: self@.ctx,
                        proposal: p,
                    }) && spec_apply_event(ReceiveSessionV::Initialized(self@), event@)
                        == Option::Some(ReceiveSessionV::UncheckedProposal(next@))
                } else {
                    t matches InitializedTransition::Fatal { error } && error@
                        == crate::error::ReplyableErrorV::PsbtInconsistent
                },
            },
    {
        match ctx.kind() {
            RequestKind::Poll => {
                match parse_poll_response(body) {
                    Option::None => InitializedTransition::Transient {
                        error: TransientError::MalformedResponse,
                    },
                    Option::Some(Option::None) => InitializedTransition::Stay {
                        next: self.duplicate(),
                    },
                    Option::Some(Option::Some(proposal)) => {
                        if check_proposal_valid(&proposal) {
                            let event = SessionEvent::RetrievedProposal(proposal.duplicate());
                            let next = UncheckedProposal { ctx: self.ctx.duplicate(), proposal };
                            proof {
                                assert(spec_apply_event(
                                    ReceiveSessionV::Initialized(self@), event@)
                                    == Option::Some(ReceiveSessionV::UncheckedProposal(next@)));
                            }
                            InitializedTransition::Progress { event, next }
                        } else {
                            InitializedTransition::Fatal {
                                error: crate::error::ReplyableError::PsbtInconsistent,
                            }
                        }
                    },
                }
            },
            _ => InitializedTransition::Transient { error: TransientError::ContextMismatch },
        }
    }

    /// The payment URI data this session presents to the sender.
    pub fn pj_uri(&self) -> (r: PjUri)
        ensures
            r@ == crate::uri::spec_pj_uri(self@.ctx),
    {
        crate::uri::pj_uri_of_context(&self.ctx)
    }
}

} // verus!
