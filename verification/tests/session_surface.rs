//! Smaller pieces of the session surface: the interactive shortcut, the
//! poll outcome accessors, the finished proposal's encoding, and the
//! auxiliary URI types.

use payjoin_receiver::codec;
use payjoin_receiver::model::{
    script_type, OutPoint, Proposal, ProposalParams, Psbt, PsbtInput, ScriptType, Transaction,
    TxIn, TxOut,
};
use payjoin_receiver::oracles::{AcceptAllBroadcast, OutPointRegistry, PassthroughSigner,
    ScriptRegistry};
use payjoin_receiver::persist::InMemoryPersister;
use payjoin_receiver::receiver::UninitializedReceiver;
use payjoin_receiver::transitions::InitializedTransitionOutcome;
use payjoin_receiver::uri::{PayjoinUriError, ReceiverToken};

const RELAY: &str = "https://relay.example.org/";
const DIRECTORY: &str = "https://directory.example.org/session";

fn p2wpkh_script(fill: u8) -> Vec<u8> {
    let mut s = vec![0x00u8, 0x14u8];
    s.extend(std::iter::repeat(fill).take(20));
    s
}

fn original_proposal() -> Proposal {
    Proposal {
        psbt: Psbt {
            tx: Transaction {
                version: 2,
                lock_time: 0,
                inputs: vec![TxIn {
                    prev_out: OutPoint { txid: vec![0x11u8; 32], vout: 0 },
                    sequence: 0xfffffffd,
                }],
                outputs: vec![TxOut { value: 95_000, script_pubkey: p2wpkh_script(0xbb) }],
            },
            inputs: vec![PsbtInput {
                witness_utxo: Some(TxOut { value: 100_000, script_pubkey: p2wpkh_script(0xaa) }),
            }],
        },
        params: ProposalParams {
            max_additional_fee_contribution: 0,
            additional_fee_output_index: 0,
            has_fee_output: false,
            min_fee_rate_sat_per_vb: 1,
            output_substitution_allowed: true,
        },
    }
}

#[test]
fn poll_outcome_accessors_report_progress() {
    let mut persister = InMemoryPersister::new();
    let receiver = UninitializedReceiver::new();
    let initialized = receiver
        .create_session("bc1qaddr".to_owned(), DIRECTORY.to_owned(), vec![5], None)
        .save(&mut persister)
        .expect("session creation should persist");
    let rr = initialized
        .create_poll_request(RELAY.to_owned())
        .expect("relay should be accepted");

    let miss = codec::encode_poll_response_none();
    let outcome = initialized
        .process_response(&miss, &rr.client_response)
        .save(&mut persister)
        .expect("a miss commits nothing");
    assert!(outcome.is_none());
    assert!(!outcome.is_success());
    assert!(outcome.success().is_none());

    let hit = codec::encode_poll_response_proposal(&original_proposal());
    let outcome = initialized
        .process_response(&hit, &rr.client_response)
        .save(&mut persister)
        .expect("the proposal commits");
    assert!(!outcome.is_none());
    assert!(outcome.is_success());
    let unchecked = outcome.success().expect("the session advanced");
    assert_eq!(unchecked.proposal.psbt.tx.outputs[0].value, 95_000);
}

#[test]
fn interactive_receiver_skips_the_broadcast_check() {
    let mut persister = InMemoryPersister::new();
    let receiver = UninitializedReceiver::new();
    let initialized = receiver
        .create_session("bc1qaddr".to_owned(), DIRECTORY.to_owned(), vec![5], None)
        .save(&mut persister)
        .expect("session creation should persist");
    let rr = initialized
        .create_poll_request(RELAY.to_owned())
        .expect("relay should be accepted");
    let hit = codec::encode_poll_response_proposal(&original_proposal());
    let unchecked = match initialized
        .process_response(&hit, &rr.client_response)
        .save(&mut persister)
        .expect("the proposal commits")
    {
        InitializedTransitionOutcome::Progress(p) => p,
        InitializedTransitionOutcome::Stasis(_) => panic!("the proposal was available"),
    };
    let maybe_owned = unchecked
        .assume_interactive_receiver()
        .save(&mut persister)
        .expect("the interactive shortcut is guaranteed");
    // The session continues exactly as if the check had run.
    let maybe_seen = maybe_owned
        .check_inputs_not_owned(&ScriptRegistry { scripts: vec![] })
        .save(&mut persister)
        .expect("no input is owned");
    maybe_seen
        .check_no_inputs_seen_before(&OutPointRegistry { outpoints: vec![] })
        .save(&mut persister)
        .expect("no input was seen before");
}

#[test]
fn finished_proposal_encodes_and_posts() {
    let mut persister = InMemoryPersister::new();
    let receiver = UninitializedReceiver::new();
    let initialized = receiver
        .create_session("bc1qaddr".to_owned(), DIRECTORY.to_owned(), vec![5], None)
        .save(&mut persister)
        .expect("session creation should persist");
    let rr = initialized
        .create_poll_request(RELAY.to_owned())
        .expect("relay should be accepted");
    let hit = codec::encode_poll_response_proposal(&original_proposal());
    let unchecked = match initialized
        .process_response(&hit, &rr.client_response)
        .save(&mut persister)
        .expect("the proposal commits")
    {
        InitializedTransitionOutcome::Progress(p) => p,
        InitializedTransitionOutcome::Stasis(_) => panic!("the proposal was available"),
    };
    let payjoin = unchecked
        .check_broadcast_suitability(None, &AcceptAllBroadcast)
        .save(&mut persister)
        .expect("the original is suitable")
        .check_inputs_not_owned(&ScriptRegistry { scripts: vec![] })
        .save(&mut persister)
        .expect("no input is owned")
        .check_no_inputs_seen_before(&OutPointRegistry { outpoints: vec![] })
        .save(&mut persister)
        .expect("no input was seen before")
        .identify_receiver_outputs(&ScriptRegistry { scripts: vec![p2wpkh_script(0xbb)] })
        .save(&mut persister)
        .expect("one output pays the receiver")
        .commit_outputs()
        .save(&mut persister)
        .expect("committing outputs is guaranteed")
        .commit_inputs()
        .save(&mut persister)
        .expect("committing inputs is guaranteed")
        .apply_fee_range(None, None)
        .save(&mut persister)
        .expect("fee negotiation succeeds")
        .finalize_proposal(&PassthroughSigner)
        .save(&mut persister)
        .expect("the signer succeeded");

    let bytes = payjoin.psbt();
    assert!(!bytes.is_empty(), "the finished proposal serializes");
    // The canonical bytes round-trip through the codec's PSBT reader.
    let (decoded, consumed) =
        codec::get_psbt(&bytes, 0).expect("the canonical encoding parses");
    assert_eq!(consumed, bytes.len());
    assert_eq!(decoded.tx.outputs[0].value, 95_000);

    let rejected = vec![1u8];
    let rr = payjoin
        .create_post_request(RELAY.to_owned())
        .expect("posting the finished proposal");
    match payjoin
        .process_response(&rejected, &rr.client_response)
        .save(&mut persister)
    {
        Err(payjoin_receiver::error::ReceiverPersistedError::Terminal(_)) => (),
        _ => panic!("a rejected proposal fails terminally"),
    }
}

#[test]
fn script_patterns_classify_by_template() {
    assert!(matches!(script_type(&p2wpkh_script(0x01)), ScriptType::P2wpkh));
    let mut p2tr = vec![0x51u8, 0x20u8];
    p2tr.extend(std::iter::repeat(0x02).take(32));
    assert!(matches!(script_type(&p2tr), ScriptType::P2tr));
    assert!(matches!(script_type(&vec![0xde, 0xad]), ScriptType::Unknown));
}

#[test]
fn uri_error_and_token_carry_their_data() {
    let err = PayjoinUriError::new("bad endpoint".to_owned());
    assert_eq!(err.message_text(), "bad endpoint");
    let err = PayjoinUriError::unsupported_uri();
    assert_eq!(
        err.message_text(),
        "URI does not support Payjoin (missing 'pj' parameter)"
    );

    let mut persister = InMemoryPersister::new();
    let receiver = UninitializedReceiver::new();
    let initialized = receiver
        .create_session("bc1qaddr".to_owned(), DIRECTORY.to_owned(), vec![9, 8, 7], None)
        .save(&mut persister)
        .expect("session creation should persist");
    let token = ReceiverToken::of_context(&initialized.ctx);
    assert_eq!(token.as_bytes(), &vec![9u8, 8u8, 7u8]);
}
