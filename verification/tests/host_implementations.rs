//! The refusing and failing host collaborators, exercising the retry and
//! storage-error paths.

use payjoin_receiver::codec;
use payjoin_receiver::error::ReceiverPersistedError;
use payjoin_receiver::model::{
    OutPoint, Proposal, ProposalParams, Psbt, PsbtInput, Transaction, TxIn, TxOut,
};
use payjoin_receiver::oracles::{
    AcceptAllBroadcast, OutPointRegistry, PassthroughSigner, RefusingSigner, RejectAllBroadcast,
    ScriptRegistry,
};
use payjoin_receiver::persist::InMemoryPersister;
use payjoin_receiver::receiver::UninitializedReceiver;
use payjoin_receiver::transitions::InitializedTransitionOutcome;

const RELAY: &str = "https://relay.example.org/";
const DIRECTORY: &str = "https://directory.example.org/session";

fn p2wpkh_script(fill: u8) -> Vec<u8> {
    let mut s = vec![0x00u8, 0x14u8];
    s.extend(std::iter::repeat(fill).take(20));
    s
}

fn original_proposal() -> Proposal {
    Proposal {
        psbt: Psbt {
            tx: Transaction {
                version: 2,
                lock_time: 0,
                inputs: vec![TxIn {
                    prev_out: OutPoint { txid: vec![0x11u8; 32], vout: 0 },
                    sequence: 0xfffffffd,
                }],
                outputs: vec![TxOut { value: 95_000, script_pubkey: p2wpkh_script(0xbb) }],
            },
            inputs: vec![PsbtInput {
                witness_utxo: Some(TxOut { value: 100_000, script_pubkey: p2wpkh_script(0xaa) }),
            }],
        },
        params: ProposalParams {
            max_additional_fee_contribution: 0,
            additional_fee_output_index: 0,
            has_fee_output: false,
            min_fee_rate_sat_per_vb: 1,
            output_substitution_allowed: true,
        },
    }
}

fn provisional_stage(
    persister: &mut InMemoryPersister,
) -> payjoin_receiver::session::ProvisionalProposal {
    let receiver = UninitializedReceiver::new();
    let initialized = receiver
        .create_session("bc1qaddr".to_owned(), DIRECTORY.to_owned(), vec![5], None)
        .save(persister)
        .expect("session creation should persist");
    let rr = initialized
        .create_poll_request(RELAY.to_owned())
        .expect("relay should be accepted");
    let hit = codec::encode_poll_response_proposal(&original_proposal());
    let unchecked = match initialized
        .process_response(&hit, &rr.client_response)
        .save(persister)
        .expect("the proposal commits")
    {
        InitializedTransitionOutcome::Progress(p) => p,
        InitializedTransitionOutcome::Stasis(_) => panic!("the proposal was available"),
    };
    unchecked
        .check_broadcast_suitability(None, &AcceptAllBroadcast)
        .save(persister)
        .expect("the original is suitable")
        .check_inputs_not_owned(&ScriptRegistry { scripts: vec![] })
        .save(persister)
        .expect("no input is owned")
        .check_no_inputs_seen_before(&OutPointRegistry { outpoints: vec![] })
        .save(persister)
        .expect("no input was seen before")
        .identify_receiver_outputs(&ScriptRegistry { scripts: vec![p2wpkh_script(0xbb)] })
        .save(persister)
        .expect("one output pays the receiver")
        .commit_outputs()
        .save(persister)
        .expect("committing outputs is guaranteed")
        .commit_inputs()
        .save(persister)
        .expect("committing inputs is guaranteed")
        .apply_fee_range(None, None)
        .save(persister)
        .expect("fee negotiation succeeds")
}

#[test]
fn signer_failure_is_transient_and_retryable() {
    let mut persister = InMemoryPersister::new();
    let provisional = provisional_stage(&mut persister);
    let log_before = persister.log.len();

    match provisional.finalize_proposal(&RefusingSigner).save(&mut persister) {
        Err(ReceiverPersistedError::Signer(e)) => {
            assert_eq!(e.message, "the signer refused");
        }
        _ => panic!("the first attempt fails transiently"),
    }
    assert_eq!(persister.log.len(), log_before, "a transient failure logs nothing");

    // The same stage retries successfully once a working signer is at hand.
    provisional
        .finalize_proposal(&PassthroughSigner)
        .save(&mut persister)
        .expect("the retry succeeds");
    assert_eq!(persister.log.len(), log_before + 1);
}

#[test]
fn refused_broadcast_fails_terminally() {
    let mut persister = InMemoryPersister::new();
    let receiver = UninitializedReceiver::new();
    let initialized = receiver
        .create_session("bc1qaddr".to_owned(), DIRECTORY.to_owned(), vec![5], None)
        .save(&mut persister)
        .expect("session creation should persist");
    let rr = initialized
        .create_poll_request(RELAY.to_owned())
        .expect("relay should be accepted");
    let hit = codec::encode_poll_response_proposal(&original_proposal());
    let unchecked = match initialized
        .process_response(&hit, &rr.client_response)
        .save(&mut persister)
        .expect("the proposal commits")
    {
        InitializedTransitionOutcome::Progress(p) => p,
        InitializedTransitionOutcome::Stasis(_) => panic!("the proposal was available"),
    };
    match unchecked
        .check_broadcast_suitability(None, &RejectAllBroadcast)
        .save(&mut persister)
    {
        Err(ReceiverPersistedError::Terminal(_)) => (),
        _ => panic!("a refused broadcast fails terminally"),
    }
}

#[test]
fn storage_failure_surfaces_and_commits_nothing() {
    let mut broken = InMemoryPersister::new();
    broken.failing = true;
    let receiver = UninitializedReceiver::new();
    let t = receiver.create_session(
        "bc1qaddr".to_owned(),
        DIRECTORY.to_owned(),
        vec![5],
        None,
    );
    match t.save(&mut broken) {
        Err(ReceiverPersistedError::Storage(e)) => {
            assert_eq!(e.message, "the store is failing");
        }
        _ => panic!("a failing store surfaces as a storage error"),
    }
    assert_eq!(broken.log.len(), 0);
}
