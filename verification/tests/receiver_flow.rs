//! End-to-end runs of the receiver session: the happy path, the terminal
//! failures, and crash recovery by replay.

use payjoin_receiver::error::{ErrorCode, ReceiverPersistedError};
use payjoin_receiver::event::SessionEvent;
use payjoin_receiver::history::replay_receiver_event_log;
use payjoin_receiver::model::{
    InputPair, OutPoint, Proposal, ProposalParams, Psbt, PsbtInput, Transaction, TxIn, TxOut,
};
use payjoin_receiver::oracles::{
    AcceptAllBroadcast, OutPointRegistry, PassthroughSigner, ScriptRegistry,
};
use payjoin_receiver::persist::InMemoryPersister;
use payjoin_receiver::session::ReceiveSession;
use payjoin_receiver::transitions::{InitializedTransition, InitializedTransitionOutcome};
use payjoin_receiver::uri::RequestKind;
use payjoin_receiver::receiver::UninitializedReceiver;

const RELAY: &str = "https://relay.example.org/";
const DIRECTORY: &str = "https://directory.example.org/session";

fn p2wpkh_script(fill: u8) -> Vec<u8> {
    let mut s = vec![0x00u8, 0x14u8];
    s.extend(std::iter::repeat(fill).take(20));
    s
}

fn sender_input_script() -> Vec<u8> {
    p2wpkh_script(0xaa)
}

fn receiver_output_script() -> Vec<u8> {
    p2wpkh_script(0xbb)
}

fn original_proposal() -> Proposal {
    Proposal {
        psbt: Psbt {
            tx: Transaction {
                version: 2,
                lock_time: 0,
                inputs: vec![TxIn {
                    prev_out: OutPoint { txid: vec![0x11u8; 32], vout: 0 },
                    sequence: 0xfffffffd,
                }],
                outputs: vec![TxOut { value: 95_000, script_pubkey: receiver_output_script() }],
            },
            inputs: vec![PsbtInput {
                witness_utxo: Some(TxOut { value: 100_000, script_pubkey: sender_input_script() }),
            }],
        },
        params: ProposalParams {
            max_additional_fee_contribution: 0,
            additional_fee_output_index: 0,
            has_fee_output: false,
            min_fee_rate_sat_per_vb: 1,
            output_substitution_allowed: true,
        },
    }
}

fn receiver_wallet() -> ScriptRegistry {
    ScriptRegistry { scripts: vec![receiver_output_script()] }
}

fn initialized_session(
    persister: &mut InMemoryPersister,
) -> payjoin_receiver::session::Initialized {
    let receiver = UninitializedReceiver::new();
    let t = receiver.create_session(
        "bc1qexampleaddress".to_owned(),
        DIRECTORY.to_owned(),
        vec![1, 2, 3, 4],
        None,
    );
    t.save(persister).expect("session creation should persist")
}

/// Drives a fresh session up to the unchecked proposal.
fn unchecked_session(
    persister: &mut InMemoryPersister,
) -> payjoin_receiver::session::UncheckedProposal {
    let initialized = initialized_session(persister);
    let rr = initialized
        .create_poll_request(RELAY.to_owned())
        .expect("relay should be accepted");
    assert!(matches!(rr.client_response.kind, RequestKind::Poll));
    let body =
        payjoin_receiver::codec::encode_poll_response_proposal(&original_proposal());
    let t = initialized.process_response(&body, &rr.client_response);
    match t.save(persister).expect("poll outcome should persist") {
        InitializedTransitionOutcome::Progress(p) => p,
        InitializedTransitionOutcome::Stasis(_) => panic!("proposal should have been found"),
    }
}

#[test]
fn create_session_rejects_bad_directory() {
    let mut persister = InMemoryPersister::new();
    let receiver = UninitializedReceiver::new();
    let t = receiver.create_session(
        "addr".to_owned(),
        "http://insecure.example.org/".to_owned(),
        vec![],
        None,
    );
    match t.save(&mut persister) {
        Err(ReceiverPersistedError::BadInitInputs(_)) => (),
        _ => panic!("an insecure directory should be rejected"),
    }
    assert_eq!(persister.log.len(), 0);

    let t = receiver.create_session("addr".to_owned(), "not a url".to_owned(), vec![], None);
    assert!(matches!(
        t.save(&mut persister),
        Err(ReceiverPersistedError::BadInitInputs(_))
    ));
    assert_eq!(persister.log.len(), 0);
}

#[test]
fn poll_miss_appends_nothing() {
    let mut persister = InMemoryPersister::new();
    let initialized = initialized_session(&mut persister);
    assert_eq!(persister.log.len(), 1);
    let rr = initialized
        .create_poll_request(RELAY.to_owned())
        .expect("relay should be accepted");
    let body = payjoin_receiver::codec::encode_poll_response_none();
    let t = initialized.process_response(&body, &rr.client_response);
    match t.save(&mut persister).expect("a miss is still committed") {
        InitializedTransitionOutcome::Stasis(s) => {
            let uri = s.pj_uri();
            assert_eq!(uri.endpoint, DIRECTORY);
        }
        InitializedTransitionOutcome::Progress(_) => panic!("no proposal was available"),
    }
    assert_eq!(persister.log.len(), 1, "idle polling must not grow the log");
}

#[test]
fn full_cooperative_flow_reaches_success() {
    let mut persister = InMemoryPersister::new();
    let unchecked = unchecked_session(&mut persister);

    let maybe_owned = unchecked
        .check_broadcast_suitability(Some(1), &AcceptAllBroadcast)
        .save(&mut persister)
        .expect("the original transaction is suitable");

    let fallback = maybe_owned.extract_tx_to_schedule_broadcast();
    assert!(!fallback.is_empty(), "the fallback transaction serializes");

    let not_owned = ScriptRegistry { scripts: vec![] };
    let maybe_seen = maybe_owned
        .check_inputs_not_owned(&not_owned)
        .save(&mut persister)
        .expect("no input is owned");

    let never_seen = OutPointRegistry { outpoints: vec![] };
    let outputs_unknown = maybe_seen
        .check_no_inputs_seen_before(&never_seen)
        .save(&mut persister)
        .expect("no input was seen before");

    let wants_outputs = outputs_unknown
        .identify_receiver_outputs(&receiver_wallet())
        .save(&mut persister)
        .expect("one output pays the receiver");

    let wants_inputs = wants_outputs
        .commit_outputs()
        .save(&mut persister)
        .expect("committing outputs is guaranteed");

    let wants_fee_range = wants_inputs
        .commit_inputs()
        .save(&mut persister)
        .expect("committing inputs is guaranteed");

    let provisional = wants_fee_range
        .apply_fee_range(Some(1), Some(2))
        .save(&mut persister)
        .expect("fee negotiation succeeds");

    let payjoin = provisional
        .finalize_proposal(&PassthroughSigner)
        .save(&mut persister)
        .expect("the signer succeeded");

    // With no receiver contributions the finished output set equals the
    // original's.
    let original = original_proposal();
    assert_eq!(payjoin.payjoin_psbt.tx.outputs.len(), original.psbt.tx.outputs.len());
    assert_eq!(
        payjoin.payjoin_psbt.tx.outputs[0].value,
        original.psbt.tx.outputs[0].value
    );
    assert_eq!(
        payjoin.payjoin_psbt.tx.outputs[0].script_pubkey,
        original.psbt.tx.outputs[0].script_pubkey
    );
    assert!(payjoin.utxos_to_be_locked().is_empty());

    let rr = payjoin
        .create_post_request(RELAY.to_owned())
        .expect("posting the finished proposal");
    assert!(matches!(rr.client_response.kind, RequestKind::Post));
    let accepted = vec![0u8];
    let t = payjoin.process_response(&accepted, &rr.client_response);
    t.save(&mut persister).expect("the directory accepted the proposal");

    let replayed = replay_receiver_event_log(&persister).expect("the log replays");
    assert!(matches!(replayed.state, ReceiveSession::TerminalSuccess));
    assert!(replayed.session_history.psbt_ready_for_signing().is_some());
    assert!(replayed.session_history.terminal_error().is_none());
}

#[test]
fn low_fee_rate_fails_terminally_but_keeps_fallback() {
    let mut persister = InMemoryPersister::new();
    let unchecked = unchecked_session(&mut persister);

    // The original pays 5 000 sats over an assumed 110 vB; demanding
    // 50 000 000 sat/kWU (200 000 sat/vB) is hopeless.
    let t = unchecked.check_broadcast_suitability(Some(50_000_000), &AcceptAllBroadcast);
    match t.save(&mut persister) {
        Err(ReceiverPersistedError::Terminal(_)) => (),
        _ => panic!("an underpaying original must fail terminally"),
    }

    let replayed = replay_receiver_event_log(&persister).expect("the log replays");
    assert!(matches!(replayed.state, ReceiveSession::TerminalFailure));
    let terminal = replayed
        .session_history
        .terminal_error()
        .expect("the failure is recorded");
    let reply = terminal.reply().expect("a reply is owed to the sender");
    assert!(matches!(reply.code, ErrorCode::OriginalPsbtRejected));
    let fallback = replayed
        .session_history
        .fallback_tx()
        .expect("the original transaction is still available");
    assert_eq!(fallback.outputs[0].value, 95_000);

    let err_req = replayed
        .session_history
        .extract_err_req(RELAY.to_owned())
        .expect("the relay is valid")
        .expect("a failure with a reply has something to report");
    assert_eq!(err_req.request.body, vec![3u8, 3u8]);
}

#[test]
fn owned_input_fails_terminally() {
    let mut persister = InMemoryPersister::new();
    let unchecked = unchecked_session(&mut persister);
    let maybe_owned = unchecked
        .check_broadcast_suitability(None, &AcceptAllBroadcast)
        .save(&mut persister)
        .expect("the original is suitable");

    // The receiver's wallet owns the very script the original spends.
    let owned = ScriptRegistry { scripts: vec![sender_input_script()] };
    match maybe_owned.check_inputs_not_owned(&owned).save(&mut persister) {
        Err(ReceiverPersistedError::Terminal(_)) => (),
        _ => panic!("a self-spend must fail terminally"),
    }
    let replayed = replay_receiver_event_log(&persister).expect("the log replays");
    assert!(matches!(replayed.state, ReceiveSession::TerminalFailure));
}

#[test]
fn replayed_outpoint_fails_terminally() {
    let mut persister = InMemoryPersister::new();
    let unchecked = unchecked_session(&mut persister);
    let maybe_owned = unchecked
        .check_broadcast_suitability(None, &AcceptAllBroadcast)
        .save(&mut persister)
        .expect("the original is suitable");
    let maybe_seen = maybe_owned
        .check_inputs_not_owned(&ScriptRegistry { scripts: vec![] })
        .save(&mut persister)
        .expect("no input is owned");

    let seen = OutPointRegistry {
        outpoints: vec![OutPoint { txid: vec![0x11u8; 32], vout: 0 }],
    };
    match maybe_seen.check_no_inputs_seen_before(&seen).save(&mut persister) {
        Err(ReceiverPersistedError::Terminal(_)) => (),
        _ => panic!("a replayed input must fail terminally"),
    }
    let replayed = replay_receiver_event_log(&persister).expect("the log replays");
    assert!(matches!(replayed.state, ReceiveSession::TerminalFailure));
}

#[test]
fn no_receiver_output_fails_terminally() {
    let mut persister = InMemoryPersister::new();
    let unchecked = unchecked_session(&mut persister);
    let maybe_owned = unchecked
        .check_broadcast_suitability(None, &AcceptAllBroadcast)
        .save(&mut persister)
        .expect("the original is suitable");
    let maybe_seen = maybe_owned
        .check_inputs_not_owned(&ScriptRegistry { scripts: vec![] })
        .save(&mut persister)
        .expect("no input is owned");
    let outputs_unknown = maybe_seen
        .check_no_inputs_seen_before(&OutPointRegistry { outpoints: vec![] })
        .save(&mut persister)
        .expect("no input was seen before");

    let stranger = ScriptRegistry { scripts: vec![p2wpkh_script(0xcc)] };
    match outputs_unknown.identify_receiver_outputs(&stranger).save(&mut persister) {
        Err(ReceiverPersistedError::Terminal(_)) => (),
        _ => panic!("a proposal paying the receiver nothing must fail terminally"),
    }
}

#[test]
fn uncommitted_transition_has_no_effect() {
    let mut persister = InMemoryPersister::new();
    let unchecked = unchecked_session(&mut persister);
    let log_before = persister.log.len();
    let before = replay_receiver_event_log(&persister).expect("the log replays");
    let stage_before = before.state.stage_number();

    // Produce a pending transition and drop it without committing.
    let t = unchecked.check_broadcast_suitability(Some(1), &AcceptAllBroadcast);
    drop(t);

    assert_eq!(persister.log.len(), log_before, "the log is unchanged");
    let after = replay_receiver_event_log(&persister).expect("the log still replays");
    assert_eq!(after.state.stage_number(), stage_before);
    assert!(matches!(after.state, ReceiveSession::UncheckedProposal(_)));
}

#[test]
fn replay_prefixes_never_pass_the_final_stage() {
    let mut persister = InMemoryPersister::new();
    let unchecked = unchecked_session(&mut persister);
    unchecked
        .check_broadcast_suitability(None, &AcceptAllBroadcast)
        .save(&mut persister)
        .expect("the original is suitable");
    let full_log: Vec<SessionEvent> = persister.log.iter().map(|e| e.duplicate()).collect();

    let mut last_stage = 0u8;
    for n in 0..=full_log.len() {
        let mut prefix = InMemoryPersister::new();
        for e in full_log.iter().take(n) {
            prefix.log.push(e.duplicate());
        }
        let replayed = replay_receiver_event_log(&prefix).expect("every prefix replays");
        let stage = replayed.state.stage_number();
        assert!(stage >= last_stage, "stages only advance along the log");
        last_stage = stage;
    }
    assert_eq!(last_stage, 3, "the full log reaches the self-spend check");
}

#[test]
fn replaying_twice_gives_identical_history() {
    let mut persister = InMemoryPersister::new();
    let unchecked = unchecked_session(&mut persister);
    drop(unchecked);

    let one = replay_receiver_event_log(&persister).expect("the log replays");
    let two = replay_receiver_event_log(&persister).expect("the log replays again");
    assert_eq!(one.state.stage_number(), two.state.stage_number());
    let uri_one = one.session_history.pj_uri().expect("the session was created");
    let uri_two = two.session_history.pj_uri().expect("the session was created");
    assert_eq!(uri_one.address, uri_two.address);
    assert_eq!(uri_one.endpoint, uri_two.endpoint);
    let fb_one = one.session_history.fallback_tx().expect("the proposal arrived");
    let fb_two = two.session_history.fallback_tx().expect("the proposal arrived");
    assert_eq!(fb_one.outputs[0].value, fb_two.outputs[0].value);
    assert_eq!(fb_one.inputs[0].prev_out.txid, fb_two.inputs[0].prev_out.txid);
}

#[test]
fn invalid_proposal_at_poll_fails_terminally() {
    let mut persister = InMemoryPersister::new();
    let initialized = initialized_session(&mut persister);
    let rr = initialized
        .create_poll_request(RELAY.to_owned())
        .expect("relay should be accepted");
    // Decodable, but the outputs spend more than the inputs provide.
    let mut proposal = original_proposal();
    proposal.psbt.tx.outputs[0].value = 200_000;
    let body = payjoin_receiver::codec::encode_poll_response_proposal(&proposal);
    let t = initialized.process_response(&body, &rr.client_response);
    match t.save(&mut persister) {
        Err(ReceiverPersistedError::Terminal(_)) => (),
        _ => panic!("an inconsistent original PSBT fails terminally"),
    }
    let replayed = replay_receiver_event_log(&persister).expect("the log replays");
    assert!(matches!(replayed.state, ReceiveSession::TerminalFailure));
    let terminal = replayed
        .session_history
        .terminal_error()
        .expect("the failure is recorded");
    let reply = terminal.reply().expect("a reply is owed to the sender");
    assert!(matches!(reply.code, ErrorCode::OriginalPsbtRejected));

    // Undecodable bytes, by contrast, stay transient: the session polls on.
    let mut persister = InMemoryPersister::new();
    let initialized = initialized_session(&mut persister);
    let rr = initialized
        .create_poll_request(RELAY.to_owned())
        .expect("relay should be accepted");
    let garbage = vec![0xffu8, 0x00u8, 0x17u8];
    let t = initialized.process_response(&garbage, &rr.client_response);
    assert!(matches!(t, InitializedTransition::Transient { .. }));
    assert_eq!(persister.log.len(), 1);
}

/// Walks the whole cooperative flow; at every stage a pending transition
/// is first produced and dropped, and replaying the unchanged log must
/// reproduce the stage the session was at before the operation.
#[test]
fn uncommitted_transitions_have_no_effect_at_any_stage() {
    let mut persister = InMemoryPersister::new();

    fn assert_unchanged(persister: &InMemoryPersister, expected_stage: u8, expected_len: usize) {
        assert_eq!(persister.log.len(), expected_len, "the log is unchanged");
        let replayed = replay_receiver_event_log(persister).expect("the log replays");
        assert_eq!(replayed.state.stage_number(), expected_stage);
    }

    let receiver = UninitializedReceiver::new();
    drop(receiver.create_session(
        "bc1qexampleaddress".to_owned(),
        DIRECTORY.to_owned(),
        vec![1, 2, 3, 4],
        None,
    ));
    assert_unchanged(&persister, 0, 0);
    let initialized = initialized_session(&mut persister);

    let rr = initialized
        .create_poll_request(RELAY.to_owned())
        .expect("relay should be accepted");
    let body = payjoin_receiver::codec::encode_poll_response_proposal(&original_proposal());
    drop(initialized.process_response(&body, &rr.client_response));
    assert_unchanged(&persister, 1, 1);
    let unchecked = match initialized
        .process_response(&body, &rr.client_response)
        .save(&mut persister)
        .expect("poll outcome should persist")
    {
        InitializedTransitionOutcome::Progress(p) => p,
        InitializedTransitionOutcome::Stasis(_) => panic!("proposal should have been found"),
    };

    drop(unchecked.check_broadcast_suitability(None, &AcceptAllBroadcast));
    drop(unchecked.assume_interactive_receiver());
    assert_unchanged(&persister, 2, 2);
    let maybe_owned = unchecked
        .check_broadcast_suitability(None, &AcceptAllBroadcast)
        .save(&mut persister)
        .expect("the original is suitable");

    drop(maybe_owned.check_inputs_not_owned(&ScriptRegistry { scripts: vec![] }));
    assert_unchanged(&persister, 3, 3);
    let maybe_seen = maybe_owned
        .check_inputs_not_owned(&ScriptRegistry { scripts: vec![] })
        .save(&mut persister)
        .expect("no input is owned");

    drop(maybe_seen.check_no_inputs_seen_before(&OutPointRegistry { outpoints: vec![] }));
    assert_unchanged(&persister, 4, 4);
    let outputs_unknown = maybe_seen
        .check_no_inputs_seen_before(&OutPointRegistry { outpoints: vec![] })
        .save(&mut persister)
        .expect("no input was seen before");

    drop(outputs_unknown.identify_receiver_outputs(&receiver_wallet()));
    assert_unchanged(&persister, 5, 5);
    let wants_outputs = outputs_unknown
        .identify_receiver_outputs(&receiver_wallet())
        .save(&mut persister)
        .expect("one output pays the receiver");

    drop(wants_outputs.commit_outputs());
    assert_unchanged(&persister, 6, 6);
    let wants_inputs = wants_outputs
        .commit_outputs()
        .save(&mut persister)
        .expect("committing outputs is guaranteed");

    drop(wants_inputs.commit_inputs());
    assert_unchanged(&persister, 7, 7);
    let wants_fee_range = wants_inputs
        .commit_inputs()
        .save(&mut persister)
        .expect("committing inputs is guaranteed");

    drop(wants_fee_range.apply_fee_range(Some(1), Some(2)));
    assert_unchanged(&persister, 8, 8);
    let provisional = wants_fee_range
        .apply_fee_range(Some(1), Some(2))
        .save(&mut persister)
        .expect("fee negotiation succeeds");

    drop(provisional.finalize_proposal(&PassthroughSigner));
    assert_unchanged(&persister, 9, 9);
    let payjoin = provisional
        .finalize_proposal(&PassthroughSigner)
        .save(&mut persister)
        .expect("the signer succeeded");

    let rr = payjoin
        .create_post_request(RELAY.to_owned())
        .expect("posting the finished proposal");
    let accepted = vec![0u8];
    drop(payjoin.process_response(&accepted, &rr.client_response));
    assert_unchanged(&persister, 10, 10);
    payjoin
        .process_response(&accepted, &rr.client_response)
        .save(&mut persister)
        .expect("the directory accepted the proposal");
    assert_unchanged(&persister, 11, 11);
}

#[test]
fn process_response_rejects_mismatched_context() {
    let mut persister = InMemoryPersister::new();
    let initialized = initialized_session(&mut persister);
    let body = payjoin_receiver::codec::encode_poll_response_none();
    let wrong = payjoin_receiver::uri::ClientResponse {
        kind: payjoin_receiver::uri::RequestKind::Post,
    };
    let t = initialized.process_response(&body, &wrong);
    assert!(matches!(t, InitializedTransition::Transient { .. }));
    assert_eq!(persister.log.len(), 1);
}

#[test]
fn input_pair_requires_witness_utxo() {
    let r = InputPair::new(
        TxIn { prev_out: OutPoint { txid: vec![0x22u8; 32], vout: 1 }, sequence: 0 },
        PsbtInput { witness_utxo: None },
        None,
    );
    assert!(r.is_err());
}
