//! Outbound requests, their response-decoding contexts, and the payment
//! URI data derived from a session.

use vstd::prelude::*;

use crate::event::{SessionContext, SessionContextV};

verus! {

/// Whether the sender allows the receiver to replace its outputs.
#[derive(PartialEq, Eq, Structural, Clone, Copy, Debug)]
pub enum OutputSubstitution {
    Enabled,
    Disabled,
}

/// What kind of exchange a request belongs to, so a response can only be
/// processed by the operation that produced the request.
#[derive(PartialEq, Eq, Structural, Clone, Copy, Debug)]
pub enum RequestKind {
    /// Polling the directory for the sender's original proposal.
    Poll,
    /// Posting the finished proposal.
    Post,
    /// Reporting a terminal failure to the sender.
    ErrorReport,
}

/// An outbound request: the destination endpoint and the payload to send.
/// The engine never sends it; the caller does.
pub struct Request {
    /// The validated relay endpoint to send to.
    pub url: String,
    /// The payload bytes.
    pub body: Vec<u8>,
}

#[verifier::ext_equal]
pub ghost struct RequestV {
    pub url: Seq<char>,
    pub body: Seq<u8>,
}

impl View for Request {
    type V = RequestV;

    open spec fn view(&self) -> RequestV {
        RequestV { url: self.url@, body: self.body@ }
    }
}

/// The context handed back alongside a request, needed to interpret the
/// response to that request.
pub struct ClientResponse {
    pub kind: RequestKind,
}

impl ClientResponse {
    /// The kind of request this context belongs to.
    pub fn kind(&self) -> (r: RequestKind)
        ensures
            r == self.kind,
    {
        self.kind
    }
}

/// An outbound request paired with its response-decoding context.
pub struct RequestResponse {
    pub request: Request,
    pub client_response: ClientResponse,
}

/// The payment URI data a receiver presents to the sender: the address to
/// pay and the directory endpoint to respond through.
pub struct PjUri {
    pub address: String,
    pub endpoint: String,
}

#[verifier::ext_equal]
pub ghost struct PjUriV {
    pub address: Seq<char>,
    pub endpoint: Seq<char>,
}

impl View for PjUri {
    type V = PjUriV;

    open spec fn view(&self) -> PjUriV {
        PjUriV { address: self.address@, endpoint: self.endpoint@ }
    }
}

/// The URI data of a session's context.
pub open spec fn spec_pj_uri(ctx: SessionContextV) -> PjUriV {
    PjUriV { address: ctx.address, endpoint: ctx.directory }
}

/// Builds the URI data of a session context.
pub fn pj_uri_of_context(ctx: &SessionContext) -> (r: PjUri)
    ensures
        r@ == spec_pj_uri(ctx@),
{
    let r = PjUri { address: ctx.address.clone(), endpoint: ctx.directory.clone() };
    proof {
        assert(r@ =~= spec_pj_uri(ctx@));
    }
    r
}

/// An error attached to a payment URI that cannot be used.
pub struct PayjoinUriError {
    message: String,
}

impl PayjoinUriError {
    /// Wraps a message.
    pub fn new(message: String) -> (r: PayjoinUriError)
        ensures
            r.message() == message@,
    {
        PayjoinUriError { message }
    }

    /// The error for a URI that does not name a payjoin endpoint.
    pub fn unsupported_uri() -> (r: PayjoinUriError)
        ensures
            r.message() == "URI does not support Payjoin (missing 'pj' parameter)"@,
    {
        PayjoinUriError {
            message: "URI does not support Payjoin (missing 'pj' parameter)".to_owned(),
        }
    }

    /// The message this error carries.
    pub closed spec fn message(&self) -> Seq<char> {
        self.message@
    }

    /// Renders the error.
    pub fn message_text(&self) -> (r: String)
        ensures
            r@ == self.message(),
    {
        self.message.clone()
    }
}

/// An opaque key identifying a receiver session in a store, derived from
/// the session's key material.
#[derive(PartialEq, Eq, Clone, Debug)]
pub struct ReceiverToken {
    pub id: Vec<u8>,
}

impl ReceiverToken {
    /// The token of a session context.
    pub fn of_context(ctx: &SessionContext) -> (r: ReceiverToken)
        ensures
            r.id@ == ctx@.ohttp_keys,
    {
        ReceiverToken { id: crate::model::copy_bytes(&ctx.ohttp_keys) }
    }

    /// The token's bytes.
    pub fn as_bytes(&self) -> (r: &Vec<u8>)
        ensures
            r@ == self.id@,
    {
        &self.id
    }
}

} // verus!
