//! Pending state transitions.
//!
//! A stage operation never touches the store: it returns one of these
//! values, a not-yet-applied state change. Committing it with `save` is the
//! only path that appends to the event log, and `save` consumes the value,
//! so a transition can be committed at most once. A transition that is
//! dropped instead has no observable effect.

use vstd::prelude::*;

use crate::error::{
    BadInitInputsError, ForeignError, ReceiverPersistedError, ReplyableError, TransientError,
};
use crate::event::{SessionEvent, SessionEventV};
use crate::persist::SessionPersister;
use crate::session::{
    Initialized, MaybeInputsOwned, MaybeInputsSeen, OutputsUnknown, PayjoinProposal,
    ProvisionalProposal, UncheckedProposal, WantsFeeRange, WantsInputs, WantsOutputs,
};

verus! {

/// The pending creation of a session, or the reason its inputs were
/// rejected. Nothing is persisted for rejected inputs: no session exists
/// yet.
pub enum InitialReceiveTransition {
    Ready { event: SessionEvent, next: Initialized },
    BadInputs { error: BadInitInputsError },
}

impl InitialReceiveTransition {
    /// Commits the session creation: appends the creation event and hands
    /// out the initialized session.
    pub fn save<P: SessionPersister>(self, persister: &mut P) -> (r: Result<
        Initialized,
        ReceiverPersistedError,
    >)
        ensures
            self matches InitialReceiveTransition::Ready { event, next } ==> match r {
                Result::Ok(n) => final(persister).events() == old(persister).events().push(event@)
                    && n@ == next@,
                Result::Err(ReceiverPersistedError::Storage(_)) => final(persister).events()
                    == old(persister).events(),
                _ => false,
            },
            self matches InitialReceiveTransition::BadInputs { error } ==> final(persister).events()
                == old(persister).events() && (r matches Result::Err(
                ReceiverPersistedError::BadInitInputs(e2),
            ) && e2 == error),
    {
        match self {
            InitialReceiveTransition::Ready { event, next } => {
                match persister.save_event(event) {
                    Result::Ok(()) => Result::Ok(next),
                    Result::Err(e) => Result::Err(ReceiverPersistedError::Storage(e)),
                }
            },
            InitialReceiveTransition::BadInputs { error } => Result::Err(
                ReceiverPersistedError::BadInitInputs(error),
            ),
        }
    }
}

/// What committing a poll-response transition produced: either the session
/// advanced to the unchecked proposal, or no proposal was available and the
/// session stays initialized.
pub enum InitializedTransitionOutcome {
    Progress(UncheckedProposal),
    Stasis(Initialized),
}

impl InitializedTransitionOutcome {
    /// True when no proposal was available yet.
    pub fn is_none(&self) -> (r: bool)
        ensures
            r == (self matches InitializedTransitionOutcome::Stasis(_)),
    {
        match self {
            InitializedTransitionOutcome::Stasis(_) => true,
            InitializedTransitionOutcome::Progress(_) => false,
        }
    }

    /// True when the session advanced.
    pub fn is_success(&self) -> (r: bool)
        ensures
            r == (self matches InitializedTransitionOutcome::Progress(_)),
    {
        match self {
            InitializedTransitionOutcome::Progress(_) => true,
            InitializedTransitionOutcome::Stasis(_) => false,
        }
    }

    /// The advanced session, if the poll found a proposal.
    pub fn success(&self) -> (r: Option<UncheckedProposal>)
        ensures
            match r {
                Option::Some(s) => self matches InitializedTransitionOutcome::Progress(p)
                    && s@ == p@,
                Option::None => self matches InitializedTransitionOutcome::Stasis(_),
            },
    {
        match self {
            InitializedTransitionOutcome::Progress(p) => Option::Some(p.duplicate()),
            InitializedTransitionOutcome::Stasis(_) => Option::None,
        }
    }
}

/// The pending outcome of processing a poll response: the proposal
/// arrived, or nothing is available yet (a guaranteed transition that logs
/// no event), or the decoded proposal is structurally invalid and the
/// session fails terminally, or the response was unusable and the whole
/// exchange should be retried.
#[allow(inconsistent_fields)]
pub enum InitializedTransition {
    Progress { event: SessionEvent, next: UncheckedProposal },
    Stay { next: Initialized },
    Fatal { error: ReplyableError },
    Transient { error: TransientError },
}

impl InitializedTransition {
    /// Commits the poll outcome. A missing proposal appends nothing: idle
    /// polling does not grow the log.
    pub fn save<P: SessionPersister>(self, persister: &mut P) -> (r: Result<
        InitializedTransitionOutcome,
        ReceiverPersistedError,
    >)
        ensures
            self matches InitializedTransition::Progress { event, next } ==> match r {
                Result::Ok(o) => final(persister).events() == old(persister).events().push(event@)
                    && (o matches InitializedTransitionOutcome::Progress(n) && n@ == next@),
                Result::Err(ReceiverPersistedError::Storage(_)) => final(persister).events()
                    == old(persister).events(),
                _ => false,
            },
            self matches InitializedTransition::Stay { next } ==> final(persister).events()
                == old(persister).events() && (r matches Result::Ok(
                InitializedTransitionOutcome::Stasis(n),
            ) && n@ == next@),
            self matches InitializedTransition::Fatal { error } ==> match r {
                Result::Err(ReceiverPersistedError::Terminal(e2)) => final(persister).events()
                    == old(persister).events().push(
                    SessionEventV::SessionFailure { error: error@ },
                ) && e2@ == error@,
                Result::Err(ReceiverPersistedError::Storage(_)) => final(persister).events()
                    == old(persister).events(),
                _ => false,
            },
            self matches InitializedTransition::Transient { error } ==> final(persister).events()
                == old(persister).events() && (r matches Result::Err(
                ReceiverPersistedError::Transient(e2),
            ) && e2 == error),
    {
        match self {
            InitializedTransition::Progress { event, next } => {
                match persister.save_event(event) {
                    Result::Ok(()) => Result::Ok(InitializedTransitionOutcome::Progress(next)),
                    Result::Err(e) => Result::Err(ReceiverPersistedError::Storage(e)),
                }
            },
            InitializedTransition::Stay { next } => Result::Ok(
                InitializedTransitionOutcome::Stasis(next),
            ),
            InitializedTransition::Fatal { error } => {
                let event = SessionEvent::SessionFailure { error: error.duplicate() };
                match persister.save_event(event) {
                    Result::Ok(()) => Result::Err(ReceiverPersistedError::Terminal(error)),
                    Result::Err(e) => Result::Err(ReceiverPersistedError::Storage(e)),
                }
            },
            InitializedTransition::Transient { error } => Result::Err(
                ReceiverPersistedError::Transient(error),
            ),
        }
    }
}

/// A guaranteed transition: the next stage and the event recording it.
/// Committing can only fail in storage.
pub struct AssumeInteractiveTransition {
    pub event: SessionEvent,
    pub next: MaybeInputsOwned,
}

impl AssumeInteractiveTransition {
    /// Commits the transition.
    pub fn save<P: SessionPersister>(self, persister: &mut P) -> (r: Result<
        MaybeInputsOwned,
        ReceiverPersistedError,
    >)
        ensures
            match r {
                Result::Ok(n) => final(persister).events() == old(persister).events().push(
                    self.event@,
                ) && n@ == self.next@,
                Result::Err(ReceiverPersistedError::Storage(_)) => final(persister).events()
                    == old(persister).events(),
                _ => false,
            },
    {
        match persister.save_event(self.event) {
            Result::Ok(()) => Result::Ok(self.next),
            Result::Err(e) => Result::Err(ReceiverPersistedError::Storage(e)),
        }
    }
}

/// The pending outcome of the broadcast-suitability check: either the
/// session advances, or it fails terminally and the failure is what gets
/// persisted.
pub enum UncheckedProposalTransition {
    Success { event: SessionEvent, next: MaybeInputsOwned },
    Fatal { error: ReplyableError },
}

impl UncheckedProposalTransition {
    /// Commits the check's outcome. A terminal failure appends the failure
    /// event and surfaces the error.
    pub fn save<P: SessionPersister>(self, persister: &mut P) -> (r: Result<
        MaybeInputsOwned,
        ReceiverPersistedError,
    >)
        ensures
            self matches UncheckedProposalTransition::Success { event, next } ==> match r {
                Result::Ok(n) => final(persister).events() == old(persister).events().push(event@)
                    && n@ == next@,
                Result::Err(ReceiverPersistedError::Storage(_)) => final(persister).events()
                    == old(persister).events(),
                _ => false,
            },
            self matches UncheckedProposalTransition::Fatal { error } ==> match r {
                Result::Err(ReceiverPersistedError::Terminal(e2)) => final(persister).events()
                    == old(persister).events().push(
                    SessionEventV::SessionFailure { error: error@ },
                ) && e2@ == error@,
                Result::Err(ReceiverPersistedError::Storage(_)) => final(persister).events()
                    == old(persister).events(),
                _ => false,
            },
    {
        match self {
            UncheckedProposalTransition::Success { event, next } => {
                match persister.save_event(event) {
                    Result::Ok(()) => Result::Ok(next),
                    Result::Err(e) => Result::Err(ReceiverPersistedError::Storage(e)),
                }
            },
            UncheckedProposalTransition::Fatal { error } => {
                let event = SessionEvent::SessionFailure { error: error.duplicate() };
                match persister.save_event(event) {
                    Result::Ok(()) => Result::Err(ReceiverPersistedError::Terminal(error)),
                    Result::Err(e) => Result::Err(ReceiverPersistedError::Storage(e)),
                }
            },
        }
    }
}

/// The pending outcome of the self-spend check.
pub enum MaybeInputsOwnedTransition {
    Success { event: SessionEvent, next: MaybeInputsSeen },
    Fatal { error: ReplyableError },
}

impl MaybeInputsOwnedTransition {
    /// Commits the check's outcome. A terminal failure appends the failure
    /// event and surfaces the error.
    pub fn save<P: SessionPersister>(self, persister: &mut P) -> (r: Result<
        MaybeInputsSeen,
        ReceiverPersistedError,
    >)
        ensures
            self matches MaybeInputsOwnedTransition::Success { event, next } ==> match r {
                Result::Ok(n) => final(persister).events() == old(persister).events().push(event@)
                    && n@ == next@,
                Result::Err(ReceiverPersistedError::Storage(_)) => final(persister).events()
                    == old(persister).events(),
                _ => false,
            },
            self matches MaybeInputsOwnedTransition::Fatal { error } ==> match r {
                Result::Err(ReceiverPersistedError::Terminal(e2)) => final(persister).events()
                    == old(persister).events().push(
                    SessionEventV::SessionFailure { error: error@ },
                ) && e2@ == error@,
                Result::Err(ReceiverPersistedError::Storage(_)) => final(persister).events()
                    == old(persister).events(),
                _ => false,
            },
    {
        match self {
            MaybeInputsOwnedTransition::Success { event, next } => {
                match persister.save_event(event) {
                    Result::Ok(()) => Result::Ok(next),
                    Result::Err(e) => Result::Err(ReceiverPersistedError::Storage(e)),
                }
            },
            MaybeInputsOwnedTransition::Fatal { error } => {
                let event = SessionEvent::SessionFailure { error: error.duplicate() };
                match persister.save_event(event) {
                    Result::Ok(()) => Result::Err(ReceiverPersistedError::Terminal(error)),
                    Result::Err(e) => Result::Err(ReceiverPersistedError::Storage(e)),
                }
            },
        }
    }
}

/// The pending outcome of the replayed-input check.
pub enum MaybeInputsSeenTransition {
    Success { event: SessionEvent, next: OutputsUnknown },
    Fatal { error: ReplyableError },
}

impl MaybeInputsSeenTransition {
    /// Commits the check's outcome. A terminal failure appends the failure
    /// event and surfaces the error.
    pub fn save<P: SessionPersister>(self, persister: &mut P) -> (r: Result<
        OutputsUnknown,
        ReceiverPersistedError,
    >)
        ensures
            self matches MaybeInputsSeenTransition::Success { event, next } ==> match r {
                Result::Ok(n) => final(persister).events() == old(persister).events().push(event@)
                    && n@ == next@,
                Result::Err(ReceiverPersistedError::Storage(_)) => final(persister).events()
                    == old(persister).events(),
                _ => false,
            },
            self matches MaybeInputsSeenTransition::Fatal { error } ==> match r {
                Result::Err(ReceiverPersistedError::Terminal(e2)) => final(persister).events()
                    == old(persister).events().push(
                    SessionEventV::SessionFailure { error: error@ },
                ) && e2@ == error@,
                Result::Err(ReceiverPersistedError::Storage(_)) => final(persister).events()
                    == old(persister).events(),
                _ => false,
            },
    {
        match self {
            MaybeInputsSeenTransition::Success { event, next } => {
                match persister.save_event(event) {
                    Result::Ok(()) => Result::Ok(next),
                    Result::Err(e) => Result::Err(ReceiverPersistedError::Storage(e)),
                }
            },
            MaybeInputsSeenTransition::Fatal { error } => {
                let event = SessionEvent::SessionFailure { error: error.duplicate() };
                match persister.save_event(event) {
                    Result::Ok(()) => Result::Err(ReceiverPersistedError::Terminal(error)),
                    Result::Err(e) => Result::Err(ReceiverPersistedError::Storage(e)),
                }
            },
        }
    }
}

/// The pending outcome of identifying the receiver's outputs.
pub enum OutputsUnknownTransition {
    Success { event: SessionEvent, next: WantsOutputs },
    Fatal { error: ReplyableError },
}

impl OutputsUnknownTransition {
    /// Commits the identification's outcome. A terminal failure appends the
    /// failure event and surfaces the error.
    pub fn save<P: SessionPersister>(self, persister: &mut P) -> (r: Result<
        WantsOutputs,
        ReceiverPersistedError,
    >)
        ensures
            self matches OutputsUnknownTransition::Success { event, next } ==> match r {
                Result::Ok(n) => final(persister).events() == old(persister).events().push(event@)
                    && n@ == next@,
                Result::Err(ReceiverPersistedError::Storage(_)) => final(persister).events()
                    == old(persister).events(),
                _ => false,
            },
            self matches OutputsUnknownTransition::Fatal { error } ==> match r {
                Result::Err(ReceiverPersistedError::Terminal(e2)) => final(persister).events()
                    == old(persister).events().push(
                    SessionEventV::SessionFailure { error: error@ },
                ) && e2@ == error@,
                Result::Err(ReceiverPersistedError::Storage(_)) => final(persister).events()
                    == old(persister).events(),
                _ => false,
            },
    {
        match self {
            OutputsUnknownTransition::Success { event, next } => {
                match persister.save_event(event) {
                    Result::Ok(()) => Result::Ok(next),
                    Result::Err(e) => Result::Err(ReceiverPersistedError::Storage(e)),
                }
            },
            OutputsUnknownTransition::Fatal { error } => {
                let event = SessionEvent::SessionFailure { error: error.duplicate() };
                match persister.save_event(event) {
                    Result::Ok(()) => Result::Err(ReceiverPersistedError::Terminal(error)),
                    Result::Err(e) => Result::Err(ReceiverPersistedError::Storage(e)),
                }
            },
        }
    }
}

/// A guaranteed transition out of the output-substitution stage.
pub struct WantsOutputsTransition {
    pub event: SessionEvent,
    pub next: WantsInputs,
}

impl WantsOutputsTransition {
    /// Commits the output set.
    pub fn save<P: SessionPersister>(self, persister: &mut P) -> (r: Result<
        WantsInputs,
        ReceiverPersistedError,
    >)
        ensures
            match r {
                Result::Ok(n) => final(persister).events() == old(persister).events().push(
                    self.event@,
                ) && n@ == self.next@,
                Result::Err(ReceiverPersistedError::Storage(_)) => final(persister).events()
                    == old(persister).events(),
                _ => false,
            },
    {
        match persister.save_event(self.event) {
            Result::Ok(()) => Result::Ok(self.next),
            Result::Err(e) => Result::Err(ReceiverPersistedError::Storage(e)),
        }
    }
}

/// A guaranteed transition out of the input-contribution stage.
pub struct WantsInputsTransition {
    pub event: SessionEvent,
    pub next: WantsFeeRange,
}

impl WantsInputsTransition {
    /// Commits the contributed inputs.
    pub fn save<P: SessionPersister>(self, persister: &mut P) -> (r: Result<
        WantsFeeRange,
        ReceiverPersistedError,
    >)
        ensures
            match r {
                Result::Ok(n) => final(persister).events() == old(persister).events().push(
                    self.event@,
                ) && n@ == self.next@,
                Result::Err(ReceiverPersistedError::Storage(_)) => final(persister).events()
                    == old(persister).events(),
                _ => false,
            },
    {
        match persister.save_event(self.event) {
            Result::Ok(()) => Result::Ok(self.next),
            Result::Err(e) => Result::Err(ReceiverPersistedError::Storage(e)),
        }
    }
}

/// The pending outcome of fee negotiation.
pub enum WantsFeeRangeTransition {
    Success { event: SessionEvent, next: ProvisionalProposal },
    Fatal { error: ReplyableError },
}

impl WantsFeeRangeTransition {
    /// Commits the negotiation's outcome. A terminal failure appends the
    /// failure event and surfaces the error.
    pub fn save<P: SessionPersister>(self, persister: &mut P) -> (r: Result<
        ProvisionalProposal,
        ReceiverPersistedError,
    >)
        ensures
            self matches WantsFeeRangeTransition::Success { event, next } ==> match r {
                Result::Ok(n) => final(persister).events() == old(persister).events().push(event@)
                    && n@ == next@,
                Result::Err(ReceiverPersistedError::Storage(_)) => final(persister).events()
                    == old(persister).events(),
                _ => false,
            },
            self matches WantsFeeRangeTransition::Fatal { error } ==> match r {
                Result::Err(ReceiverPersistedError::Terminal(e2)) => final(persister).events()
                    == old(persister).events().push(
                    SessionEventV::SessionFailure { error: error@ },
                ) && e2@ == error@,
                Result::Err(ReceiverPersistedError::Storage(_)) => final(persister).events()
                    == old(persister).events(),
                _ => false,
            },
    {
        match self {
            WantsFeeRangeTransition::Success { event, next } => {
                match persister.save_event(event) {
                    Result::Ok(()) => Result::Ok(next),
                    Result::Err(e) => Result::Err(ReceiverPersistedError::Storage(e)),
                }
            },
            WantsFeeRangeTransition::Fatal { error } => {
                let event = SessionEvent::SessionFailure { error: error.duplicate() };
                match persister.save_event(event) {
                    Result::Ok(()) => Result::Err(ReceiverPersistedError::Terminal(error)),
                    Result::Err(e) => Result::Err(ReceiverPersistedError::Storage(e)),
                }
            },
        }
    }
}

/// The pending outcome of finalizing the proposal with the host signer. A
/// signer failure persists nothing: the stage is unchanged and the step may
/// be retried.
pub enum ProvisionalProposalTransition {
    Success { event: SessionEvent, next: PayjoinProposal },
    Transient { error: ForeignError },
}

impl ProvisionalProposalTransition {
    /// Commits the finalized proposal.
    pub fn save<P: SessionPersister>(self, persister: &mut P) -> (r: Result<
        PayjoinProposal,
        ReceiverPersistedError,
    >)
        ensures
            self matches ProvisionalProposalTransition::Success { event, next } ==> match r {
                Result::Ok(n) => final(persister).events() == old(persister).events().push(event@)
                    && n@ == next@,
                Result::Err(ReceiverPersistedError::Storage(_)) => final(persister).events()
                    == old(persister).events(),
                _ => false,
            },
            self matches ProvisionalProposalTransition::Transient { error }
                ==> final(persister).events() == old(persister).events() && (r matches Result::Err(
                ReceiverPersistedError::Signer(e2),
            ) && e2@ == error@),
    {
        match self {
            ProvisionalProposalTransition::Success { event, next } => {
                match persister.save_event(event) {
                    Result::Ok(()) => Result::Ok(next),
                    Result::Err(e) => Result::Err(ReceiverPersistedError::Storage(e)),
                }
            },
            ProvisionalProposalTransition::Transient { error } => Result::Err(
                ReceiverPersistedError::Signer(error),
            ),
        }
    }
}

/// The pending outcome of the final post: the session's last event, with no
/// successor stage.
#[allow(inconsistent_fields)]
pub enum PayjoinProposalTransition {
    Success { event: SessionEvent },
    Fatal { error: ReplyableError },
    Transient { error: TransientError },
}

impl PayjoinProposalTransition {
    /// Commits the session's final event: the success marker, or the
    /// terminal failure the directory's answer amounts to.
    pub fn save<P: SessionPersister>(self, persister: &mut P) -> (r: Result<
        (),
        ReceiverPersistedError,
    >)
        ensures
            self matches PayjoinProposalTransition::Success { event } ==> match r {
                Result::Ok(_) => final(persister).events() == old(persister).events().push(event@),
                Result::Err(ReceiverPersistedError::Storage(_)) => final(persister).events()
                    == old(persister).events(),
                _ => false,
            },
            self matches PayjoinProposalTransition::Fatal { error } ==> match r {
                Result::Err(ReceiverPersistedError::Terminal(e2)) => final(persister).events()
                    == old(persister).events().push(
                    SessionEventV::SessionFailure { error: error@ },
                ) && e2@ == error@,
                Result::Err(ReceiverPersistedError::Storage(_)) => final(persister).events()
                    == old(persister).events(),
                _ => false,
            },
            self matches PayjoinProposalTransition::Transient { error } ==> final(
                persister).events() == old(persister).events() && (r matches Result::Err(
                ReceiverPersistedError::Transient(e2),
            ) && e2 == error),
    {
        match self {
            PayjoinProposalTransition::Success { event } => {
                match persister.save_event(event) {
                    Result::Ok(()) => Result::Ok(()),
                    Result::Err(e) => Result::Err(ReceiverPersistedError::Storage(e)),
                }
            },
            PayjoinProposalTransition::Fatal { error } => {
                let event = SessionEvent::SessionFailure { error: error.duplicate() };
                match persister.save_event(event) {
                    Result::Ok(()) => Result::Err(ReceiverPersistedError::Terminal(error)),
                    Result::Err(e) => Result::Err(ReceiverPersistedError::Storage(e)),
                }
            },
            PayjoinProposalTransition::Transient { error } => Result::Err(
                ReceiverPersistedError::Transient(error),
            ),
        }
    }
}

} // verus!
