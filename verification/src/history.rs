//! The read-only projection over a session's event log, and the replay
//! entry point that reconstructs both the live session and the projection.

use vstd::prelude::*;

use crate::codec::enc_err_request;
use crate::error::{
    spec_error_text, spec_reply_of, JsonReply, ReceiverReplayError, ReplyableErrorV, SessionError,
};
use crate::event::{events_view, SessionContextV, SessionEvent, SessionEventV};
use crate::model::{ProposalV, Psbt, PsbtV, Transaction};
use crate::outside::{is_secure_url, url_scheme_of, validate_endpoint, UrlFlaw};
use crate::persist::SessionPersister;
use crate::replay::{replay_events, spec_replay};
use crate::session::ReceiveSession;
use crate::uri::{ClientResponse, PjUri, Request, RequestKind, RequestResponse};

verus! {

/// The first session context recorded at or after `from`.
pub open spec fn first_created_from(s: Seq<SessionEventV>, from: int) -> Option<SessionContextV>
    decreases s.len() - from,
{
    if from < 0 || from >= s.len() {
        Option::None
    } else {
        match s[from] {
            SessionEventV::Created(ctx) => Option::Some(ctx),
            _ => first_created_from(s, from + 1),
        }
    }
}

/// The first original proposal recorded at or after `from`.
pub open spec fn first_retrieved_from(s: Seq<SessionEventV>, from: int) -> Option<ProposalV>
    decreases s.len() - from,
{
    if from < 0 || from >= s.len() {
        Option::None
    } else {
        match s[from] {
            SessionEventV::RetrievedProposal(p) => Option::Some(p),
            _ => first_retrieved_from(s, from + 1),
        }
    }
}

/// The first terminal failure recorded at or after `from`.
pub open spec fn first_failure_from(s: Seq<SessionEventV>, from: int) -> Option<ReplyableErrorV>
    decreases s.len() - from,
{
    if from < 0 || from >= s.len() {
        Option::None
    } else {
        match s[from] {
            SessionEventV::SessionFailure { error } => Option::Some(error),
            _ => first_failure_from(s, from + 1),
        }
    }
}

/// The latest fee-adjusted proposal among the first `n` events.
pub open spec fn last_applied(s: Seq<SessionEventV>, n: int) -> Option<PsbtV>
    decreases n,
{
    if n <= 0 || n > s.len() {
        Option::None
    } else {
        match s[n - 1] {
            SessionEventV::AppliedFeeRange { payjoin_psbt, .. } => Option::Some(payjoin_psbt),
            _ => last_applied(s, n - 1),
        }
    }
}

/// A terminal failure, rendered for the caller: its description and the
/// structured reply owed to the sender, if any.
pub struct TerminalErr {
    pub error_text: String,
    pub reply: Option<JsonReply>,
}

impl TerminalErr {
    /// The failure's description.
    pub fn error(&self) -> (r: String)
        ensures
            r@ == self.error_text@,
    {
        self.error_text.clone()
    }

    /// The structured reply owed to the sender, if any.
    pub fn reply(&self) -> (r: Option<JsonReply>)
        ensures
            r == self.reply,
    {
        self.reply
    }
}

/// The read-only projection over a session's ordered event log. It is
/// derived and recomputable: the log alone determines every answer.
pub struct SessionHistory {
    pub events: Vec<SessionEvent>,
}

impl SessionHistory {
    /// An empty history.
    pub fn new() -> (r: SessionHistory)
        ensures
            r.events@.len() == 0,
    {
        SessionHistory { events: Vec::new() }
    }

    /// The payment URI data of the session, once it was created.
    #[verifier::loop_isolation(false)]
    pub fn pj_uri(&self) -> (r: Option<PjUri>)
        ensures
            match r {
                Option::Some(u) => first_created_from(events_view(self.events@), 0)
                    matches Option::Some(ctx) && u@.address == ctx.address && u@.endpoint
                    == ctx.directory,
                Option::None => first_created_from(events_view(self.events@), 0) is None,
            },
    {
        let ghost log = events_view(self.events@);
        let mut i: usize = 0;
        while i < self.events.len()
            invariant
                i <= self.events@.len(),
                first_created_from(log, 0) == first_created_from(log, i as int),
            decreases self.events@.len() - i,
        {
            match &self.events[i] {
                SessionEvent::Created(ctx) => {
                    return Option::Some(crate::uri::pj_uri_of_context(ctx));
                },
                _ => {
                },
            }
            i = i + 1;
        }
        Option::None
    }

    /// The fee-adjusted proposal ready for signing, once fee negotiation
    /// has run; the latest one recorded wins.
    #[verifier::loop_isolation(false)]
    pub fn psbt_ready_for_signing(&self) -> (r: Option<Psbt>)
        ensures
            match r {
                Option::Some(p) => last_applied(
                    events_view(self.events@),
                    self.events@.len() as int,
                ) == Option::Some(p@),
                Option::None => last_applied(
                    events_view(self.events@),
                    self.events@.len() as int,
                ) is None,
            },
    {
        let ghost log = events_view(self.events@);
        let mut n: usize = self.events.len();
        while n > 0
            invariant
                n <= self.events@.len(),
                last_applied(log, self.events@.len() as int) == last_applied(log, n as int),
            decreases n,
        {
            match &self.events[n - 1] {
                SessionEvent::AppliedFeeRange { payjoin_psbt, .. } => {
                    return Option::Some(payjoin_psbt.duplicate());
                },
                _ => {
                },
            }
            n = n - 1;
        }
        Option::None
    }

    /// The terminal failure, if the session failed.
    #[verifier::loop_isolation(false)]
    pub fn terminal_error(&self) -> (r: Option<TerminalErr>)
        ensures
            match r {
                Option::Some(t) => first_failure_from(events_view(self.events@), 0)
                    matches Option::Some(e) && t.error_text@ == spec_error_text(e) && t.reply
                    == spec_reply_of(e),
                Option::None => first_failure_from(events_view(self.events@), 0) is None,
            },
    {
        let ghost log = events_view(self.events@);
        let mut i: usize = 0;
        while i < self.events.len()
            invariant
                i <= self.events@.len(),
                first_failure_from(log, 0) == first_failure_from(log, i as int),
            decreases self.events@.len() - i,
        {
            match &self.events[i] {
                SessionEvent::SessionFailure { error } => {
                    return Option::Some(
                        TerminalErr { error_text: error.error_text(), reply: error.reply() },
                    );
                },
                _ => {
                },
            }
            i = i + 1;
        }
        Option::None
    }

    /// The original transaction the sender could broadcast unilaterally,
    /// once its proposal arrived.
    #[verifier::loop_isolation(false)]
    pub fn fallback_tx(&self) -> (r: Option<Transaction>)
        ensures
            match r {
                Option::Some(tx) => first_retrieved_from(events_view(self.events@), 0)
                    matches Option::Some(p) && tx@ == p.psbt.tx,
                Option::None => first_retrieved_from(events_view(self.events@), 0) is None,
            },
    {
        let ghost log = events_view(self.events@);
        let mut i: usize = 0;
        while i < self.events.len()
            invariant
                i <= self.events@.len(),
                first_retrieved_from(log, 0) == first_retrieved_from(log, i as int),
            decreases self.events@.len() - i,
        {
            match &self.events[i] {
                SessionEvent::RetrievedProposal(p) => {
                    return Option::Some(p.psbt.tx.duplicate());
                },
                _ => {
                },
            }
            i = i + 1;
        }
        Option::None
    }

    /// Builds the request that reports the session's terminal failure back
    /// through the directory, when the session failed with a reply to
    /// give. Sessions that did not fail, or failed without a reply, have
    /// nothing to report.
    pub fn extract_err_req(&self, ohttp_relay: String) -> (r: Result<
        Option<RequestResponse>,
        SessionError,
    >)
        ensures
            !is_secure_url(ohttp_relay@) ==> r is Err,
            r matches Result::Err(SessionError::InvalidRelayUrl) <==> url_scheme_of(ohttp_relay@)
                is None,
            is_secure_url(ohttp_relay@) ==> match first_failure_from(
                events_view(self.events@),
                0,
            ) {
                Option::Some(e) => match spec_reply_of(e) {
                    Option::Some(reply) => r matches Result::Ok(Option::Some(rr))
                        && rr.request@.url == ohttp_relay@ && rr.request@.body == enc_err_request(
                        spec_code_byte(reply),
                    ) && rr.client_response.kind == RequestKind::ErrorReport,
                    Option::None => r == Result::<
                        Option<RequestResponse>,
                        SessionError,
                    >::Ok(Option::None),
                },
                Option::None => r == Result::<
                    Option<RequestResponse>,
                    SessionError,
                >::Ok(Option::None),
            },
    {
        match validate_endpoint(&ohttp_relay) {
            Result::Err(UrlFlaw::Unparseable) => Result::Err(SessionError::InvalidRelayUrl),
            Result::Err(UrlFlaw::Insecure) => Result::Err(SessionError::InsecureRelayUrl),
            Result::Ok(()) => {
                match self.terminal_error() {
                    Option::None => Result::Ok(Option::None),
                    Option::Some(t) => {
                        match t.reply {
                            Option::None => Result::Ok(Option::None),
                            Option::Some(reply) => {
                                let code = code_byte(&reply);
                                let mut body: Vec<u8> = Vec::new();
                                body.push(crate::codec::ERR_REQUEST_TAG);
                                body.push(code);
                                proof {
                                    assert(body@ =~= enc_err_request(spec_code_byte(reply)));
                                }
                                Result::Ok(
                                    Option::Some(
                                        RequestResponse {
                                            request: Request { url: ohttp_relay, body },
                                            client_response: ClientResponse {
                                                kind: RequestKind::ErrorReport,
                                            },
                                        },
                                    ),
                                )
                            },
                        }
                    },
                }
            },
        }
    }
}

/// The single byte a reply code travels as.
pub open spec fn spec_code_byte(reply: JsonReply) -> u8 {
    match reply.code {
        crate::error::ErrorCode::Unavailable => 0u8,
        crate::error::ErrorCode::NotEnoughMoney => 1u8,
        crate::error::ErrorCode::VersionUnsupported => 2u8,
        crate::error::ErrorCode::OriginalPsbtRejected => 3u8,
    }
}

/// Encodes a reply code as its wire byte.
pub fn code_byte(reply: &JsonReply) -> (r: u8)
    ensures
        r == spec_code_byte(*reply),
{
    match reply.code {
        crate::error::ErrorCode::Unavailable => 0u8,
        crate::error::ErrorCode::NotEnoughMoney => 1u8,
        crate::error::ErrorCode::VersionUnsupported => 2u8,
        crate::error::ErrorCode::OriginalPsbtRejected => 3u8,
    }
}

/// What replaying a log yields: the live session state and the derived
/// history.
pub struct ReplayResult {
    pub state: ReceiveSession,
    pub session_history: SessionHistory,
}

impl ReplayResult {
    /// The reconstructed session.
    pub fn state(&self) -> (r: &ReceiveSession)
        ensures
            r == &self.state,
    {
        &self.state
    }

    /// The derived history.
    pub fn session_history(&self) -> (r: &SessionHistory)
        ensures
            r == &self.session_history,
    {
        &self.session_history
    }
}

/// Reads the whole event log from the store and folds it into the session
/// state and history it describes. The result is a function of the log
/// alone: replaying the same log twice yields the same state and the same
/// history.
pub fn replay_receiver_event_log<P: SessionPersister>(persister: &P) -> (r: Result<
    ReplayResult,
    ReceiverReplayError,
>)
    ensures
        r matches Result::Ok(rr) ==> spec_replay(persister.events()) == Option::Some(rr.state@)
            && events_view(rr.session_history.events@) == persister.events(),
        r matches Result::Err(ReceiverReplayError::IncoherentLog) ==> spec_replay(
            persister.events(),
        ) is None,
{
    match persister.load() {
        Result::Err(e) => Result::Err(ReceiverReplayError::Storage(e)),
        Result::Ok(events) => {
            match replay_events(&events) {
                Result::Err(_) => Result::Err(ReceiverReplayError::IncoherentLog),
                Result::Ok(state) => Result::Ok(
                    ReplayResult { state, session_history: SessionHistory { events } },
                ),
            }
        },
    }
}

} // verus!
