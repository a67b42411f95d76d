//! The replay engine: folds an ordered event log into the session state it
//! describes.
//!
//! Each event kind maps to exactly one stage transition, so replay
//! reconstructs exactly the state a live run reached, and the fold is a
//! mathematical function of the log alone.

use vstd::prelude::*;

use crate::error::ReceiverReplayError;
use crate::event::{events_view, SessionEvent, SessionEventV};
use crate::model::{check_proposal_valid, copy_pairs, copy_txouts, copy_u32s, valid_proposal};
use crate::session::{
    Initialized, InitializedV, MaybeInputsOwned, MaybeInputsOwnedV, MaybeInputsSeen,
    MaybeInputsSeenV, OutputsUnknown, OutputsUnknownV, PayjoinProposal, PayjoinProposalV,
    ProvisionalProposal, ProvisionalProposalV, ReceiveSession, ReceiveSessionV,
    UncheckedProposal, UncheckedProposalV, WantsFeeRange, WantsFeeRangeV, WantsInputs,
    WantsInputsV, WantsOutputs, WantsOutputsV,
};

verus! {

/// The unique stage transition an event performs on a session, or `None`
/// when no run of this engine could have appended the event to a log that
/// replays to the given state. A terminal failure is absorbing: any event
/// recorded after one leaves the session failed.
pub open spec fn spec_apply_event(s: ReceiveSessionV, e: SessionEventV) -> Option<
    ReceiveSessionV,
> {
    if s is TerminalFailure {
        Option::Some(ReceiveSessionV::TerminalFailure)
    } else if e is SessionFailure {
        Option::Some(ReceiveSessionV::TerminalFailure)
    } else {
        match (s, e) {
            (ReceiveSessionV::Uninitialized, SessionEventV::Created(ctx)) => if
                crate::codec::fits_len(ctx.ohttp_keys.len()) {
                Option::Some(ReceiveSessionV::Initialized(InitializedV { ctx }))
            } else {
                Option::None
            },
            (
                ReceiveSessionV::Initialized(st),
                SessionEventV::RetrievedProposal(p),
            ) => if valid_proposal(p) {
                Option::Some(
                    ReceiveSessionV::UncheckedProposal(
                        UncheckedProposalV { ctx: st.ctx, proposal: p },
                    ),
                )
            } else {
                Option::None
            },
            (
                ReceiveSessionV::UncheckedProposal(st),
                SessionEventV::CheckedBroadcastSuitability,
            ) => if valid_proposal(st.proposal) {
                Option::Some(
                    ReceiveSessionV::MaybeInputsOwned(
                        MaybeInputsOwnedV { ctx: st.ctx, proposal: st.proposal },
                    ),
                )
            } else {
                Option::None
            },
            (
                ReceiveSessionV::MaybeInputsOwned(st),
                SessionEventV::CheckedInputsNotOwned,
            ) => Option::Some(
                ReceiveSessionV::MaybeInputsSeen(
                    MaybeInputsSeenV { ctx: st.ctx, proposal: st.proposal },
                ),
            ),
            (
                ReceiveSessionV::MaybeInputsSeen(st),
                SessionEventV::CheckedNoInputsSeenBefore,
            ) => Option::Some(
                ReceiveSessionV::OutputsUnknown(
                    OutputsUnknownV { ctx: st.ctx, proposal: st.proposal },
                ),
            ),
            (
                ReceiveSessionV::OutputsUnknown(st),
                SessionEventV::IdentifiedReceiverOutputs { owned_vouts },
            ) => if owned_vouts.len() >= 1 && (forall|i: int| 0 <= i < owned_vouts.len()
                ==> owned_vouts[i] < st.proposal.psbt.tx.outputs.len()) {
                Option::Some(
                    ReceiveSessionV::WantsOutputs(
                        WantsOutputsV {
                            ctx: st.ctx,
                            proposal: st.proposal,
                            owned_vouts,
                            outputs: st.proposal.psbt.tx.outputs,
                            change_vout: owned_vouts[0],
                        },
                    ),
                )
            } else {
                Option::None
            },
            (
                ReceiveSessionV::WantsOutputs(st),
                SessionEventV::CommittedOutputs { outputs, change_vout, sender_fee_vout },
            ) => if outputs.len() >= 1 && change_vout < outputs.len() && (sender_fee_vout
                matches Option::Some(f) ==> f < outputs.len()) {
                Option::Some(
                    ReceiveSessionV::WantsInputs(
                        WantsInputsV {
                            ctx: st.ctx,
                            proposal: st.proposal,
                            outputs,
                            change_vout,
                            sender_fee_vout,
                            receiver_inputs: Seq::empty(),
                        },
                    ),
                )
            } else {
                Option::None
            },
            (
                ReceiveSessionV::WantsInputs(st),
                SessionEventV::CommittedInputs { inputs },
            ) => if forall|i: int| 0 <= i < inputs.len() ==> (#[trigger] inputs[i]).wf() {
                Option::Some(
                    ReceiveSessionV::WantsFeeRange(
                        WantsFeeRangeV {
                            ctx: st.ctx,
                            proposal: st.proposal,
                            outputs: st.outputs,
                            change_vout: st.change_vout,
                            sender_fee_vout: st.sender_fee_vout,
                            receiver_inputs: inputs,
                        },
                    ),
                )
            } else {
                Option::None
            },
            (
                ReceiveSessionV::WantsFeeRange(st),
                SessionEventV::AppliedFeeRange { payjoin_psbt, min_fee_rate_sat_per_vb },
            ) => if payjoin_psbt.wf() {
                Option::Some(
                    ReceiveSessionV::ProvisionalProposal(
                        ProvisionalProposalV {
                            ctx: st.ctx,
                            proposal: st.proposal,
                            payjoin_psbt,
                            min_fee_rate_sat_per_vb,
                        },
                    ),
                )
            } else {
                Option::None
            },
            (
                ReceiveSessionV::ProvisionalProposal(st),
                SessionEventV::FinalizedProposal { payjoin_psbt },
            ) => if payjoin_psbt.wf() {
                Option::Some(
                    ReceiveSessionV::PayjoinProposal(
                        PayjoinProposalV { ctx: st.ctx, proposal: st.proposal, payjoin_psbt },
                    ),
                )
            } else {
                Option::None
            },
            (ReceiveSessionV::PayjoinProposal(_), SessionEventV::SessionSuccess) => Option::Some(
                ReceiveSessionV::TerminalSuccess,
            ),
            _ => Option::None,
        }
    }
}

/// The session state an event log describes: the fold of `spec_apply_event`
/// over the log in append order, starting from the uninitialized session.
pub open spec fn spec_replay(log: Seq<SessionEventV>) -> Option<ReceiveSessionV>
    decreases log.len(),
{
    if log.len() == 0 {
        Option::Some(ReceiveSessionV::Uninitialized)
    } else {
        match spec_replay(log.drop_last()) {
            Option::Some(s) => spec_apply_event(s, log.last()),
            Option::None => Option::None,
        }
    }
}

/// A log is valid when it replays to a state.
pub open spec fn valid_log(log: Seq<SessionEventV>) -> bool {
    spec_replay(log) is Some
}

/// Unfolding one step of replay at the end of a prefix.
pub proof fn lemma_replay_take_step(log: Seq<SessionEventV>, i: int)
    requires
        0 <= i < log.len(),
    ensures
        spec_replay(log.take(i + 1)) == match spec_replay(log.take(i)) {
            Option::Some(s) => spec_apply_event(s, log[i]),
            Option::None => Option::None::<ReceiveSessionV>,
        },
{
    assert(log.take(i + 1).drop_last() =~= log.take(i));
    assert(log.take(i + 1).last() == log[i]);
}

/// Appending one event to a log advances its replay by exactly one
/// transition: replaying a log a live run has extended agrees with the
/// transition the live run performed.
pub proof fn lemma_replay_snoc(log: Seq<SessionEventV>, e: SessionEventV)
    ensures
        spec_replay(log.push(e)) == match spec_replay(log) {
            Option::Some(s) => spec_apply_event(s, e),
            Option::None => Option::None::<ReceiveSessionV>,
        },
{
    assert(log.push(e).drop_last() =~= log);
    assert(log.push(e).last() == e);
}

/// No transition moves a session to an earlier stage.
pub proof fn lemma_apply_event_monotone(s: ReceiveSessionV, e: SessionEventV)
    requires
        spec_apply_event(s, e) is Some,
    ensures
        s.stage_index() <= spec_apply_event(s, e).unwrap().stage_index(),
{
}

/// Replaying any prefix of a valid event log yields a stage no later in the
/// protocol order than replaying the full log.
pub proof fn lemma_replay_prefix(log: Seq<SessionEventV>, n: int)
    requires
        valid_log(log),
        0 <= n <= log.len(),
    ensures
        valid_log(log.take(n)),
        spec_replay(log.take(n)).unwrap().stage_index()
            <= spec_replay(log).unwrap().stage_index(),
    decreases log.len(),
{
    if n == log.len() {
        assert(log.take(n) =~= log);
    } else {
        let shorter = log.drop_last();
        assert(spec_replay(shorter) is Some);
        lemma_replay_prefix(shorter, n);
        assert(shorter.take(n) =~= log.take(n));
        lemma_apply_event_monotone(spec_replay(shorter).unwrap(), log.last());
    }
}

/// Replay is a function of the event log alone: equal logs replay to equal
/// states. Together with the contract of `replay_events`, which pins its
/// result to this function, two runs over the same log return the same
/// session.
pub proof fn lemma_replay_deterministic(log1: Seq<SessionEventV>, log2: Seq<SessionEventV>)
    requires
        log1 == log2,
    ensures
        spec_replay(log1) == spec_replay(log2),
{
}

/// The invariant every stage of a replayed session satisfies: the session
/// context's key material fits its length prefix, the proposal is
/// validated from the unchecked stage on, and the working sets of the
/// later stages are well formed. These are exactly the preconditions the
/// stage operations ask of a resumed session.
pub open spec fn session_wf(s: ReceiveSessionV) -> bool {
    match s {
        ReceiveSessionV::Uninitialized => true,
        ReceiveSessionV::Initialized(st) => crate::codec::fits_len(st.ctx.ohttp_keys.len()),
        ReceiveSessionV::UncheckedProposal(st) => crate::codec::fits_len(st.ctx.ohttp_keys.len())
            && valid_proposal(st.proposal),
        ReceiveSessionV::MaybeInputsOwned(st) => crate::codec::fits_len(st.ctx.ohttp_keys.len())
            && valid_proposal(st.proposal),
        ReceiveSessionV::MaybeInputsSeen(st) => crate::codec::fits_len(st.ctx.ohttp_keys.len())
            && valid_proposal(st.proposal),
        ReceiveSessionV::OutputsUnknown(st) => crate::codec::fits_len(st.ctx.ohttp_keys.len())
            && valid_proposal(st.proposal),
        ReceiveSessionV::WantsOutputs(st) => crate::codec::fits_len(st.ctx.ohttp_keys.len())
            && st.wf(),
        ReceiveSessionV::WantsInputs(st) => crate::codec::fits_len(st.ctx.ohttp_keys.len())
            && st.wf(),
        ReceiveSessionV::WantsFeeRange(st) => crate::codec::fits_len(st.ctx.ohttp_keys.len())
            && st.wf(),
        ReceiveSessionV::ProvisionalProposal(st) => crate::codec::fits_len(
            st.ctx.ohttp_keys.len(),
        ) && st.payjoin_psbt.wf(),
        ReceiveSessionV::PayjoinProposal(st) => crate::codec::fits_len(st.ctx.ohttp_keys.len())
            && st.payjoin_psbt.wf(),
        ReceiveSessionV::TerminalSuccess => true,
        ReceiveSessionV::TerminalFailure => true,
    }
}

/// Every transition replay admits preserves the stage invariants.
pub proof fn lemma_apply_event_preserves_wf(s: ReceiveSessionV, e: SessionEventV)
    requires
        spec_apply_event(s, e) is Some,
        session_wf(s),
    ensures
        session_wf(spec_apply_event(s, e).unwrap()),
{
}

/// A session reconstructed from any valid log satisfies its stage
/// invariants: a caller resuming from replay may discharge the stage
/// operations' preconditions from this lemma alone.
pub proof fn lemma_replay_establishes_invariants(log: Seq<SessionEventV>)
    requires
        spec_replay(log) is Some,
    ensures
        session_wf(spec_replay(log).unwrap()),
    decreases log.len(),
{
    if log.len() > 0 {
        lemma_replay_establishes_invariants(log.drop_last());
        lemma_apply_event_preserves_wf(spec_replay(log.drop_last()).unwrap(), log.last());
    }
}

/// Performs the unique stage transition an event describes, or reports that
/// the event cannot follow the given state.
#[verifier::loop_isolation(false)]
pub fn apply_event(s: ReceiveSession, e: &SessionEvent) -> (r: Option<ReceiveSession>)
    ensures
        match r {
            Option::Some(ns) => spec_apply_event(s@, e@) == Option::Some(ns@),
            Option::None => spec_apply_event(s@, e@) is None,
        },
{
    if let ReceiveSession::TerminalFailure = s {
        return Option::Some(ReceiveSession::TerminalFailure);
    }
    if let SessionEvent::SessionFailure { .. } = e {
        return Option::Some(ReceiveSession::TerminalFailure);
    }
    match (s, e) {
        (ReceiveSession::Uninitialized, SessionEvent::Created(ctx)) => {
            if (ctx.ohttp_keys.len() as u64) < 4294967296u64 {
                let r = ReceiveSession::Initialized(Initialized { ctx: ctx.duplicate() });
                proof {
                    assert(r@ =~= spec_apply_event(
                        ReceiveSessionV::Uninitialized, e@).unwrap());
                }
                Option::Some(r)
            } else {
                Option::None
            }
        },
        (ReceiveSession::Initialized(st), SessionEvent::RetrievedProposal(p)) => {
            if check_proposal_valid(p) {
                let r = ReceiveSession::UncheckedProposal(
                    UncheckedProposal { ctx: st.ctx, proposal: p.duplicate() },
                );
                proof {
                    assert(r@ =~= spec_apply_event(
                        ReceiveSessionV::Initialized(st@), e@).unwrap());
                }
                Option::Some(r)
            } else {
                Option::None
            }
        },
        (ReceiveSession::UncheckedProposal(st), SessionEvent::CheckedBroadcastSuitability) => {
            if check_proposal_valid(&st.proposal) {
                let r = ReceiveSession::MaybeInputsOwned(
                    MaybeInputsOwned { ctx: st.ctx, proposal: st.proposal },
                );
                Option::Some(r)
            } else {
                Option::None
            }
        },
        (ReceiveSession::MaybeInputsOwned(st), SessionEvent::CheckedInputsNotOwned) => {
            Option::Some(
                ReceiveSession::MaybeInputsSeen(
                    MaybeInputsSeen { ctx: st.ctx, proposal: st.proposal },
                ),
            )
        },
        (ReceiveSession::MaybeInputsSeen(st), SessionEvent::CheckedNoInputsSeenBefore) => {
            Option::Some(
                ReceiveSession::OutputsUnknown(
                    OutputsUnknown { ctx: st.ctx, proposal: st.proposal },
                ),
            )
        },
        (
            ReceiveSession::OutputsUnknown(st),
            SessionEvent::IdentifiedReceiverOutputs { owned_vouts },
        ) => {
            if owned_vouts.len() == 0 {
                return Option::None;
            }
            let n_outputs = st.proposal.psbt.tx.outputs.len();
            let mut i: usize = 0;
            while i < owned_vouts.len()
                invariant
                    i <= owned_vouts@.len(),
                    n_outputs == st.proposal.psbt.tx.outputs@.len(),
                    forall|j: int| 0 <= j < i ==> owned_vouts@[j] < n_outputs,
                decreases owned_vouts@.len() - i,
            {
                if !((owned_vouts[i] as usize) < n_outputs) {
                    proof {
                        let jj = i as int;
                        assert(!(owned_vouts@[jj] < st@.proposal.psbt.tx.outputs.len()));
                        assert(!(forall|j: int| 0 <= j < owned_vouts@.len()
                            ==> owned_vouts@[j] < st@.proposal.psbt.tx.outputs.len()));
                    }
                    return Option::None;
                }
                i = i + 1;
            }
            let change_vout = owned_vouts[0];
            let outputs = copy_txouts(&st.proposal.psbt.tx.outputs);
            let r = ReceiveSession::WantsOutputs(
                WantsOutputs {
                    ctx: st.ctx,
                    proposal: st.proposal,
                    owned_vouts: copy_u32s(owned_vouts),
                    outputs,
                    change_vout,
                },
            );
            proof {
                assert(r@ =~= spec_apply_event(
                    ReceiveSessionV::OutputsUnknown(st@), e@).unwrap());
            }
            Option::Some(r)
        },
        (
            ReceiveSession::WantsOutputs(st),
            SessionEvent::CommittedOutputs { outputs, change_vout, sender_fee_vout },
        ) => {
            let fee_vout_ok = match sender_fee_vout {
                Option::Some(f) => (*f as usize) < outputs.len(),
                Option::None => true,
            };
            if outputs.len() >= 1 && (*change_vout as usize) < outputs.len() && fee_vout_ok {
                let r = ReceiveSession::WantsInputs(
                    WantsInputs {
                        ctx: st.ctx,
                        proposal: st.proposal,
                        outputs: copy_txouts(outputs),
                        change_vout: *change_vout,
                        sender_fee_vout: *sender_fee_vout,
                        receiver_inputs: Vec::new(),
                    },
                );
                proof {
                    assert(r@ =~= spec_apply_event(
                        ReceiveSessionV::WantsOutputs(st@), e@).unwrap());
                }
                Option::Some(r)
            } else {
                Option::None
            }
        },
        (ReceiveSession::WantsInputs(st), SessionEvent::CommittedInputs { inputs }) => {
            let mut i: usize = 0;
            while i < inputs.len()
                invariant
                    i <= inputs@.len(),
                    forall|j: int| 0 <= j < i ==> (#[trigger] inputs@[j]@).wf(),
                decreases inputs@.len() - i,
            {
                if let Option::None = &inputs[i].psbtin.witness_utxo {
                    proof {
                        let jj = i as int;
                        let vs = crate::model::pairs_view(inputs@);
                        assert(vs[jj] == inputs@[jj]@);
                        assert(!(vs[jj].wf()));
                        assert(!(forall|j: int| 0 <= j < vs.len()
                            ==> (#[trigger] vs[j]).wf()));
                    }
                    return Option::None;
                }
                i = i + 1;
            }
            let r = ReceiveSession::WantsFeeRange(
                WantsFeeRange {
                    ctx: st.ctx,
                    proposal: st.proposal,
                    outputs: st.outputs,
                    change_vout: st.change_vout,
                    sender_fee_vout: st.sender_fee_vout,
                    receiver_inputs: copy_pairs(inputs),
                },
            );
            proof {
                assert(r@ =~= spec_apply_event(
                    ReceiveSessionV::WantsInputs(st@), e@).unwrap());
            }
            Option::Some(r)
        },
        (
            ReceiveSession::WantsFeeRange(st),
            SessionEvent::AppliedFeeRange { payjoin_psbt, min_fee_rate_sat_per_vb },
        ) => {
            if payjoin_psbt.inputs.len() == payjoin_psbt.tx.inputs.len() {
                let r = ReceiveSession::ProvisionalProposal(
                    ProvisionalProposal {
                        ctx: st.ctx,
                        proposal: st.proposal,
                        payjoin_psbt: payjoin_psbt.duplicate(),
                        min_fee_rate_sat_per_vb: *min_fee_rate_sat_per_vb,
                    },
                );
                proof {
                    assert(r@ =~= spec_apply_event(
                        ReceiveSessionV::WantsFeeRange(st@), e@).unwrap());
                }
                Option::Some(r)
            } else {
                Option::None
            }
        },
        (ReceiveSession::ProvisionalProposal(st), SessionEvent::FinalizedProposal { payjoin_psbt }) => {
            if payjoin_psbt.inputs.len() == payjoin_psbt.tx.inputs.len() {
                let r = ReceiveSession::PayjoinProposal(
                    PayjoinProposal {
                        ctx: st.ctx,
                        proposal: st.proposal,
                        payjoin_psbt: payjoin_psbt.duplicate(),
                    },
                );
                proof {
                    assert(r@ =~= spec_apply_event(
                        ReceiveSessionV::ProvisionalProposal(st@), e@).unwrap());
                }
                Option::Some(r)
            } else {
                Option::None
            }
        },
        (ReceiveSession::PayjoinProposal(_), SessionEvent::SessionSuccess) => {
            Option::Some(ReceiveSession::TerminalSuccess)
        },
        _ => Option::None,
    }
}

/// Folds an ordered event list into the session state it describes. The
/// result is pinned to `spec_replay`, so replaying the same log twice
/// yields the same state.
pub fn replay_events(events: &Vec<SessionEvent>) -> (r: Result<
    ReceiveSession,
    ReceiverReplayError,
>)
    ensures
        match r {
            Result::Ok(s) => spec_replay(events_view(events@)) == Option::Some(s@),
            Result::Err(_) => spec_replay(events_view(events@)) is None,
        },
{
    let ghost log = events_view(events@);
    let mut state = ReceiveSession::Uninitialized;
    let mut i: usize = 0;
    proof {
        assert(log.take(0) =~= Seq::<SessionEventV>::empty());
    }
    while i < events.len()
        invariant
            i <= events@.len(),
            log == events_view(events@),
            log.len() == events@.len(),
            spec_replay(log.take(i as int)) == Option::Some(state@),
        decreases events@.len() - i,
    {
        proof {
            lemma_replay_take_step(log, i as int);
        }
        match apply_event(state, &events[i]) {
            Option::Some(ns) => {
                state = ns;
            },
            Option::None => {
                proof {
                    lemma_replay_none_extends(log, i + 1, log.len() as int);
                    assert(log.take(log.len() as int) =~= log);
                }
                return Result::Err(ReceiverReplayError::IncoherentLog);
            },
        }
        i = i + 1;
    }
    proof {
        assert(log.take(log.len() as int) =~= log);
    }
    Result::Ok(state)
}

/// Once replay of a prefix fails, replay of every longer prefix fails too.
pub proof fn lemma_replay_none_extends(log: Seq<SessionEventV>, i: int, j: int)
    requires
        0 <= i <= j <= log.len(),
        spec_replay(log.take(i)) is None,
    ensures
        spec_replay(log.take(j)) is None,
    decreases j - i,
{
    if i < j {
        lemma_replay_take_step(log, i);
        lemma_replay_none_extends(log, i + 1, j);
    }
}

} // verus!
