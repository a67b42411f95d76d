//! Coin selection, explicit contribution, output substitution, fee
//! negotiation and the wire codec, exercised on concrete values.

use payjoin_receiver::error::{
    InputContributionError, OutputSubstitutionError, ReceiverPersistedError, SelectionError,
};
use payjoin_receiver::model::{
    InputPair, OutPoint, Proposal, ProposalParams, Psbt, PsbtInput, Transaction, TxIn, TxOut,
};
use payjoin_receiver::oracles::{AcceptAllBroadcast, OutPointRegistry, ScriptRegistry};
use payjoin_receiver::persist::InMemoryPersister;
use payjoin_receiver::receiver::UninitializedReceiver;
use payjoin_receiver::transitions::{InitializedTransitionOutcome, WantsFeeRangeTransition};
use payjoin_receiver::uri::OutputSubstitution;

const RELAY: &str = "https://relay.example.org/";
const DIRECTORY: &str = "https://directory.example.org/session";

fn p2wpkh_script(fill: u8) -> Vec<u8> {
    let mut s = vec![0x00u8, 0x14u8];
    s.extend(std::iter::repeat(fill).take(20));
    s
}

fn p2pkh_script(fill: u8) -> Vec<u8> {
    let mut s = vec![0x76u8, 0xa9u8, 0x14u8];
    s.extend(std::iter::repeat(fill).take(20));
    s.push(0x88);
    s.push(0xac);
    s
}

fn original_proposal() -> Proposal {
    Proposal {
        psbt: Psbt {
            tx: Transaction {
                version: 2,
                lock_time: 0,
                inputs: vec![TxIn {
                    prev_out: OutPoint { txid: vec![0x11u8; 32], vout: 0 },
                    sequence: 0xfffffffd,
                }],
                outputs: vec![TxOut { value: 95_000, script_pubkey: p2wpkh_script(0xbb) }],
            },
            inputs: vec![PsbtInput {
                witness_utxo: Some(TxOut { value: 100_000, script_pubkey: p2wpkh_script(0xaa) }),
            }],
        },
        params: ProposalParams {
            max_additional_fee_contribution: 0,
            additional_fee_output_index: 0,
            has_fee_output: false,
            min_fee_rate_sat_per_vb: 1,
            output_substitution_allowed: true,
        },
    }
}

fn candidate(fill: u8, value: u64, script: Vec<u8>) -> InputPair {
    InputPair::new(
        TxIn { prev_out: OutPoint { txid: vec![fill; 32], vout: 0 }, sequence: 0 },
        PsbtInput { witness_utxo: Some(TxOut { value, script_pubkey: script }) },
        None,
    )
    .expect("the candidate carries its spent output")
}

/// Drives a fresh session to the input-contribution stage.
fn wants_inputs_stage(
    persister: &mut InMemoryPersister,
) -> payjoin_receiver::session::WantsInputs {
    let receiver = UninitializedReceiver::new();
    let initialized = receiver
        .create_session("bc1qaddr".to_owned(), DIRECTORY.to_owned(), vec![9, 9], None)
        .save(persister)
        .expect("session creation should persist");
    let rr = initialized
        .create_poll_request(RELAY.to_owned())
        .expect("relay should be accepted");
    let body = payjoin_receiver::codec::encode_poll_response_proposal(&original_proposal());
    let unchecked = match initialized
        .process_response(&body, &rr.client_response)
        .save(persister)
        .expect("poll outcome should persist")
    {
        InitializedTransitionOutcome::Progress(p) => p,
        InitializedTransitionOutcome::Stasis(_) => panic!("proposal should have been found"),
    };
    let maybe_owned = unchecked
        .check_broadcast_suitability(None, &AcceptAllBroadcast)
        .save(persister)
        .expect("the original is suitable");
    let maybe_seen = maybe_owned
        .check_inputs_not_owned(&ScriptRegistry { scripts: vec![] })
        .save(persister)
        .expect("no input is owned");
    let outputs_unknown = maybe_seen
        .check_no_inputs_seen_before(&OutPointRegistry { outpoints: vec![] })
        .save(persister)
        .expect("no input was seen before");
    let wants_outputs = outputs_unknown
        .identify_receiver_outputs(&ScriptRegistry { scripts: vec![p2wpkh_script(0xbb)] })
        .save(persister)
        .expect("one output pays the receiver");
    wants_outputs
        .commit_outputs()
        .save(persister)
        .expect("committing outputs is guaranteed")
}

#[test]
fn selection_rejects_empty_candidates() {
    let mut persister = InMemoryPersister::new();
    let wants_inputs = wants_inputs_stage(&mut persister);
    match wants_inputs.try_preserving_privacy(&vec![]) {
        Err(SelectionError::Empty) => (),
        _ => panic!("an empty candidate list is rejected"),
    }
}

#[test]
fn selection_never_mixes_script_types() {
    let mut persister = InMemoryPersister::new();
    let wants_inputs = wants_inputs_stage(&mut persister);
    // A mismatched candidate first, a compatible alternative second.
    let cands = vec![
        candidate(0x31, 99_000, p2pkh_script(0x01)),
        candidate(0x32, 99_000, p2wpkh_script(0x02)),
    ];
    let chosen = wants_inputs
        .try_preserving_privacy(&cands)
        .expect("a compatible candidate exists");
    let script = chosen.psbtin.witness_utxo.as_ref().unwrap().script_pubkey.clone();
    assert_eq!(script, p2wpkh_script(0x02), "the mismatched candidate is never chosen");

    let only_bad = vec![candidate(0x33, 42, p2pkh_script(0x03))];
    match wants_inputs.try_preserving_privacy(&only_bad) {
        Err(SelectionError::NoCompatibleCandidate) => (),
        _ => panic!("with no compatible candidate, selection fails"),
    }
}

#[test]
fn selection_prefers_candidates_avoiding_the_heuristic() {
    let mut persister = InMemoryPersister::new();
    let wants_inputs = wants_inputs_stage(&mut persister);
    // The original has min input 100 000 and min output 95 000. A 10 000
    // sat candidate would push the minimum input below the minimum output;
    // a 99 000 sat candidate keeps the payment shape.
    let cands = vec![
        candidate(0x41, 10_000, p2wpkh_script(0x04)),
        candidate(0x42, 99_000, p2wpkh_script(0x05)),
    ];
    let chosen = wants_inputs
        .try_preserving_privacy(&cands)
        .expect("a compatible candidate exists");
    assert_eq!(chosen.psbtin.witness_utxo.as_ref().unwrap().value, 99_000);

    // With only the heuristic-triggering candidate left, it is still
    // returned rather than failing.
    let fallback = vec![candidate(0x43, 10_000, p2wpkh_script(0x06))];
    let chosen = wants_inputs
        .try_preserving_privacy(&fallback)
        .expect("a compatible candidate exists");
    assert_eq!(chosen.psbtin.witness_utxo.as_ref().unwrap().value, 10_000);
}

#[test]
fn contribute_rejects_incompatible_and_malformed_inputs() {
    let mut persister = InMemoryPersister::new();
    let wants_inputs = wants_inputs_stage(&mut persister);

    let mismatched = vec![candidate(0x51, 1_000, p2pkh_script(0x07))];
    match wants_inputs.contribute_inputs(&mismatched) {
        Err(InputContributionError::IncompatibleScriptType) => (),
        _ => panic!("a mismatched script type is rejected"),
    }

    let short_txid = vec![InputPair {
        txin: TxIn { prev_out: OutPoint { txid: vec![0x52; 8], vout: 0 }, sequence: 0 },
        psbtin: PsbtInput {
            witness_utxo: Some(TxOut { value: 1_000, script_pubkey: p2wpkh_script(0x08) }),
        },
        expected_weight: None,
    }];
    match wants_inputs.contribute_inputs(&short_txid) {
        Err(InputContributionError::MalformedInput) => (),
        _ => panic!("a short transaction id is rejected"),
    }

    let missing = vec![InputPair {
        txin: TxIn { prev_out: OutPoint { txid: vec![0x53; 32], vout: 0 }, sequence: 0 },
        psbtin: PsbtInput { witness_utxo: None },
        expected_weight: None,
    }];
    match wants_inputs.contribute_inputs(&missing) {
        Err(InputContributionError::MissingWitnessUtxo) => (),
        _ => panic!("a candidate without its spent output is rejected"),
    }
}

#[test]
fn contribute_rejects_duplicate_outpoints() {
    let mut persister = InMemoryPersister::new();
    let wants_inputs = wants_inputs_stage(&mut persister);

    // The original transaction already spends this outpoint.
    let replay_of_original = vec![InputPair::new(
        TxIn { prev_out: OutPoint { txid: vec![0x11u8; 32], vout: 0 }, sequence: 0 },
        PsbtInput {
            witness_utxo: Some(TxOut { value: 1_000, script_pubkey: p2wpkh_script(0x0d) }),
        },
        None,
    )
    .expect("the candidate carries its spent output")];
    match wants_inputs.contribute_inputs(&replay_of_original) {
        Err(InputContributionError::DuplicateOutpoint) => (),
        _ => panic!("an outpoint the proposal already spends is rejected"),
    }

    // The same outpoint twice in one contribution.
    let twice = vec![
        candidate(0x61, 1_000, p2wpkh_script(0x0e)),
        candidate(0x61, 2_000, p2wpkh_script(0x0f)),
    ];
    match wants_inputs.contribute_inputs(&twice) {
        Err(InputContributionError::DuplicateOutpoint) => (),
        _ => panic!("the same outpoint contributed twice is rejected"),
    }

    // An outpoint contributed earlier stays excluded later.
    let first = vec![candidate(0x62, 1_000, p2wpkh_script(0x0e))];
    let advanced = wants_inputs
        .contribute_inputs(&first)
        .expect("a fresh outpoint is accepted");
    match advanced.contribute_inputs(&first) {
        Err(InputContributionError::DuplicateOutpoint) => (),
        _ => panic!("an already-contributed outpoint is rejected"),
    }
}

#[test]
fn zero_max_rate_with_contribution_fails_terminally() {
    let mut persister = InMemoryPersister::new();
    let wants_inputs = wants_inputs_stage(&mut persister);
    let extra = vec![candidate(0x61, 50_000, p2wpkh_script(0x09))];
    let wants_inputs = wants_inputs
        .contribute_inputs(&extra)
        .expect("the contribution is well formed");
    let wants_fee_range = wants_inputs
        .commit_inputs()
        .save(&mut persister)
        .expect("committing inputs is guaranteed");
    match wants_fee_range.apply_fee_range(None, Some(0)) {
        WantsFeeRangeTransition::Fatal { .. } => (),
        WantsFeeRangeTransition::Success { .. } => {
            panic!("a zero maximum rate with a contribution must fail")
        }
    }
}

#[test]
fn receiver_contribution_is_charged_to_change() {
    let mut persister = InMemoryPersister::new();
    let wants_inputs = wants_inputs_stage(&mut persister);
    // Declared weight 400 wu rounds up to 100 vB; at the 1 sat/vB floor
    // the receiver owes 100 sats out of its 95 000 sat change.
    let extra = vec![InputPair::new(
        TxIn { prev_out: OutPoint { txid: vec![0x71; 32], vout: 1 }, sequence: 0 },
        PsbtInput {
            witness_utxo: Some(TxOut { value: 50_000, script_pubkey: p2wpkh_script(0x0a) }),
        },
        Some(400),
    )
    .expect("the candidate carries its spent output")];
    let wants_inputs = wants_inputs
        .contribute_inputs(&extra)
        .expect("the contribution is well formed");
    let wants_fee_range = wants_inputs
        .commit_inputs()
        .save(&mut persister)
        .expect("committing inputs is guaranteed");
    let provisional = wants_fee_range
        .apply_fee_range(Some(1), Some(10))
        .save(&mut persister)
        .expect("the fee fits the declared maximum");
    assert_eq!(provisional.min_fee_rate_sat_per_vb, 1);
    assert_eq!(provisional.payjoin_psbt.tx.inputs.len(), 2);
    assert_eq!(provisional.payjoin_psbt.tx.outputs[0].value, 95_000 - 100);

    // The effective receiver rate, 100 sats over 100 vB, is within the
    // declared 10 sat/vB maximum.
    match provisional
        .finalize_proposal(&payjoin_receiver::oracles::PassthroughSigner)
        .save(&mut persister)
    {
        Ok(payjoin) => {
            let locked = payjoin.utxos_to_be_locked();
            assert_eq!(locked.len(), 1);
            assert_eq!(locked[0].txid, vec![0x71; 32]);
            assert_eq!(locked[0].vout, 1);
        }
        Err(_) => panic!("the passthrough signer cannot fail"),
    }
}

#[test]
fn excessive_receiver_rate_fails_terminally() {
    let mut persister = InMemoryPersister::new();
    let wants_inputs = wants_inputs_stage(&mut persister);
    let extra = vec![candidate(0x81, 50_000, p2wpkh_script(0x0b))];
    let wants_inputs = wants_inputs
        .contribute_inputs(&extra)
        .expect("the contribution is well formed");
    let wants_fee_range = wants_inputs
        .commit_inputs()
        .save(&mut persister)
        .expect("committing inputs is guaranteed");
    // A 1 000 sat/vB floor over 68 vB charges 68 000 sats to a receiver
    // who only accepts 1 sat/vB.
    match wants_fee_range
        .apply_fee_range(Some(1_000), Some(1))
        .save(&mut persister)
    {
        Err(ReceiverPersistedError::Terminal(_)) => (),
        _ => panic!("an overcharged receiver must fail terminally"),
    }
}

#[test]
fn output_substitution_respects_the_sender_flag() {
    let mut persister = InMemoryPersister::new();
    let receiver = UninitializedReceiver::new();
    let initialized = receiver
        .create_session("bc1qaddr".to_owned(), DIRECTORY.to_owned(), vec![7], None)
        .save(&mut persister)
        .expect("session creation should persist");
    let rr = initialized
        .create_poll_request(RELAY.to_owned())
        .expect("relay should be accepted");
    let mut proposal = original_proposal();
    proposal.params.output_substitution_allowed = false;
    let body = payjoin_receiver::codec::encode_poll_response_proposal(&proposal);
    let unchecked = match initialized
        .process_response(&body, &rr.client_response)
        .save(&mut persister)
        .expect("poll outcome should persist")
    {
        InitializedTransitionOutcome::Progress(p) => p,
        InitializedTransitionOutcome::Stasis(_) => panic!("proposal should have been found"),
    };
    let wants_outputs = unchecked
        .check_broadcast_suitability(None, &AcceptAllBroadcast)
        .save(&mut persister)
        .expect("the original is suitable")
        .check_inputs_not_owned(&ScriptRegistry { scripts: vec![] })
        .save(&mut persister)
        .expect("no input is owned")
        .check_no_inputs_seen_before(&OutPointRegistry { outpoints: vec![] })
        .save(&mut persister)
        .expect("no input was seen before")
        .identify_receiver_outputs(&ScriptRegistry { scripts: vec![p2wpkh_script(0xbb)] })
        .save(&mut persister)
        .expect("one output pays the receiver");

    assert!(matches!(wants_outputs.output_substitution(), OutputSubstitution::Disabled));
    match wants_outputs.substitute_receiver_script(&p2wpkh_script(0xcc)) {
        Err(OutputSubstitutionError::Disabled) => (),
        _ => panic!("the sender disallowed substitution"),
    }
    match wants_outputs.replace_receiver_outputs(
        vec![TxOut { value: 90_000, script_pubkey: p2wpkh_script(0xcc) }],
        &p2wpkh_script(0xcc),
    ) {
        Err(OutputSubstitutionError::Disabled) => (),
        _ => panic!("the sender disallowed substitution"),
    }
}

#[test]
fn replace_receiver_outputs_moves_the_change() {
    let mut persister = InMemoryPersister::new();
    let wants_inputs = {
        let receiver = UninitializedReceiver::new();
        let initialized = receiver
            .create_session("bc1qaddr".to_owned(), DIRECTORY.to_owned(), vec![7], None)
            .save(&mut persister)
            .expect("session creation should persist");
        let rr = initialized
            .create_poll_request(RELAY.to_owned())
            .expect("relay should be accepted");
        let body =
            payjoin_receiver::codec::encode_poll_response_proposal(&original_proposal());
        let unchecked = match initialized
            .process_response(&body, &rr.client_response)
            .save(&mut persister)
            .expect("poll outcome should persist")
        {
            InitializedTransitionOutcome::Progress(p) => p,
            InitializedTransitionOutcome::Stasis(_) => panic!("proposal should have been found"),
        };
        let wants_outputs = unchecked
            .check_broadcast_suitability(None, &AcceptAllBroadcast)
            .save(&mut persister)
            .expect("the original is suitable")
            .check_inputs_not_owned(&ScriptRegistry { scripts: vec![] })
            .save(&mut persister)
            .expect("no input is owned")
            .check_no_inputs_seen_before(&OutPointRegistry { outpoints: vec![] })
            .save(&mut persister)
            .expect("no input was seen before")
            .identify_receiver_outputs(&ScriptRegistry { scripts: vec![p2wpkh_script(0xbb)] })
            .save(&mut persister)
            .expect("one output pays the receiver");
        let replaced = wants_outputs
            .replace_receiver_outputs(
                vec![
                    TxOut { value: 60_000, script_pubkey: p2wpkh_script(0xdd) },
                    TxOut { value: 35_000, script_pubkey: p2wpkh_script(0xee) },
                ],
                &p2wpkh_script(0xee),
            )
            .expect("the replacement is acceptable");
        assert_eq!(replaced.change_vout, 1);
        replaced
            .commit_outputs()
            .save(&mut persister)
            .expect("committing outputs is guaranteed")
    };
    assert_eq!(wants_inputs.outputs.len(), 2);
    assert_eq!(wants_inputs.outputs[1].value, 35_000);
}

/// An original paying the receiver at index 0 and carrying the sender's
/// designated change at index 1.
fn two_output_proposal() -> Proposal {
    Proposal {
        psbt: Psbt {
            tx: Transaction {
                version: 2,
                lock_time: 0,
                inputs: vec![TxIn {
                    prev_out: OutPoint { txid: vec![0x11u8; 32], vout: 0 },
                    sequence: 0xfffffffd,
                }],
                outputs: vec![
                    TxOut { value: 90_000, script_pubkey: p2wpkh_script(0xbb) },
                    TxOut { value: 5_000, script_pubkey: p2wpkh_script(0xcc) },
                ],
            },
            inputs: vec![PsbtInput {
                witness_utxo: Some(TxOut { value: 100_000, script_pubkey: p2wpkh_script(0xaa) }),
            }],
        },
        params: ProposalParams {
            max_additional_fee_contribution: 50,
            additional_fee_output_index: 1,
            has_fee_output: true,
            min_fee_rate_sat_per_vb: 1,
            output_substitution_allowed: true,
        },
    }
}

#[test]
fn replacement_preserves_sender_outputs_and_their_fee_allowance() {
    let mut persister = InMemoryPersister::new();
    let receiver = UninitializedReceiver::new();
    let initialized = receiver
        .create_session("bc1qaddr".to_owned(), DIRECTORY.to_owned(), vec![7], None)
        .save(&mut persister)
        .expect("session creation should persist");
    let rr = initialized
        .create_poll_request(RELAY.to_owned())
        .expect("relay should be accepted");
    let body = payjoin_receiver::codec::encode_poll_response_proposal(&two_output_proposal());
    let unchecked = match initialized
        .process_response(&body, &rr.client_response)
        .save(&mut persister)
        .expect("poll outcome should persist")
    {
        InitializedTransitionOutcome::Progress(p) => p,
        InitializedTransitionOutcome::Stasis(_) => panic!("proposal should have been found"),
    };
    let wants_outputs = unchecked
        .check_broadcast_suitability(None, &AcceptAllBroadcast)
        .save(&mut persister)
        .expect("the original is suitable")
        .check_inputs_not_owned(&ScriptRegistry { scripts: vec![] })
        .save(&mut persister)
        .expect("no input is owned")
        .check_no_inputs_seen_before(&OutPointRegistry { outpoints: vec![] })
        .save(&mut persister)
        .expect("no input was seen before")
        .identify_receiver_outputs(&ScriptRegistry { scripts: vec![p2wpkh_script(0xbb)] })
        .save(&mut persister)
        .expect("only index 0 pays the receiver");

    let replaced = wants_outputs
        .replace_receiver_outputs(
            vec![
                TxOut { value: 60_000, script_pubkey: p2wpkh_script(0xdd) },
                TxOut { value: 30_000, script_pubkey: p2wpkh_script(0xee) },
            ],
            &p2wpkh_script(0xee),
        )
        .expect("the replacement is acceptable");
    // The receiver-owned position took the first replacement, the sender's
    // change kept its place and value, and the surplus was appended.
    assert_eq!(replaced.outputs.len(), 3);
    assert_eq!(replaced.outputs[0].value, 60_000);
    assert_eq!(replaced.outputs[1].value, 5_000);
    assert_eq!(replaced.outputs[1].script_pubkey, p2wpkh_script(0xcc));
    assert_eq!(replaced.outputs[2].value, 30_000);
    assert_eq!(replaced.change_vout, 2);

    let wants_inputs = replaced
        .commit_outputs()
        .save(&mut persister)
        .expect("committing outputs is guaranteed");
    // The sender's designated fee output was tracked across the rewrite.
    assert_eq!(wants_inputs.sender_fee_vout, Some(1));

    let extra = vec![InputPair::new(
        TxIn { prev_out: OutPoint { txid: vec![0x91; 32], vout: 0 }, sequence: 0 },
        PsbtInput {
            witness_utxo: Some(TxOut { value: 50_000, script_pubkey: p2wpkh_script(0x0c) }),
        },
        Some(400),
    )
    .expect("the candidate carries its spent output")];
    let provisional = wants_inputs
        .contribute_inputs(&extra)
        .expect("the contribution is well formed")
        .commit_inputs()
        .save(&mut persister)
        .expect("committing inputs is guaranteed")
        .apply_fee_range(Some(1), Some(10))
        .save(&mut persister)
        .expect("the fee fits the declared maximum");
    // 100 vB of input plus a 31 vB added output at 1 sat/vB costs 131 sats:
    // the sender's allowance covers 50 from its own output, the receiver's
    // change pays the remaining 81.
    assert_eq!(provisional.payjoin_psbt.tx.outputs[0].value, 60_000);
    assert_eq!(provisional.payjoin_psbt.tx.outputs[1].value, 5_000 - 50);
    assert_eq!(provisional.payjoin_psbt.tx.outputs[2].value, 30_000 - 81);
}

#[test]
fn replacement_with_too_few_outputs_is_rejected() {
    // Two receiver-owned outputs must be filled by at least two
    // replacement outputs.
    let mut proposal = original_proposal();
    proposal.psbt.tx.outputs = vec![
        TxOut { value: 50_000, script_pubkey: p2wpkh_script(0xbb) },
        TxOut { value: 40_000, script_pubkey: p2wpkh_script(0xbe) },
    ];
    let mut persister = InMemoryPersister::new();
    let receiver = UninitializedReceiver::new();
    let initialized = receiver
        .create_session("bc1qaddr".to_owned(), DIRECTORY.to_owned(), vec![7], None)
        .save(&mut persister)
        .expect("session creation should persist");
    let rr = initialized
        .create_poll_request(RELAY.to_owned())
        .expect("relay should be accepted");
    let body = payjoin_receiver::codec::encode_poll_response_proposal(&proposal);
    let unchecked = match initialized
        .process_response(&body, &rr.client_response)
        .save(&mut persister)
        .expect("poll outcome should persist")
    {
        InitializedTransitionOutcome::Progress(p) => p,
        InitializedTransitionOutcome::Stasis(_) => panic!("proposal should have been found"),
    };
    let wants_outputs = unchecked
        .check_broadcast_suitability(None, &AcceptAllBroadcast)
        .save(&mut persister)
        .expect("the original is suitable")
        .check_inputs_not_owned(&ScriptRegistry { scripts: vec![] })
        .save(&mut persister)
        .expect("no input is owned")
        .check_no_inputs_seen_before(&OutPointRegistry { outpoints: vec![] })
        .save(&mut persister)
        .expect("no input was seen before")
        .identify_receiver_outputs(&ScriptRegistry {
            scripts: vec![p2wpkh_script(0xbb), p2wpkh_script(0xbe)],
        })
        .save(&mut persister)
        .expect("both outputs pay the receiver");
    match wants_outputs.replace_receiver_outputs(vec![], &p2wpkh_script(0xdd)) {
        Err(OutputSubstitutionError::NoOutputs) => (),
        _ => panic!("an empty replacement is rejected"),
    }
    match wants_outputs.replace_receiver_outputs(
        vec![TxOut { value: 80_000, script_pubkey: p2wpkh_script(0xdd) }],
        &p2wpkh_script(0xdd),
    ) {
        Err(OutputSubstitutionError::NotEnoughOutputs) => (),
        _ => panic!("one replacement cannot fill two receiver positions"),
    }
}

#[test]
fn codec_round_trips_a_proposal() {
    let p = original_proposal();
    let body = payjoin_receiver::codec::encode_poll_response_proposal(&p);
    let decoded = payjoin_receiver::codec::parse_poll_response(&body)
        .expect("the encoding parses")
        .expect("the encoding carries a proposal");
    assert_eq!(decoded.psbt.tx.version, 2);
    assert_eq!(decoded.psbt.tx.inputs.len(), 1);
    assert_eq!(decoded.psbt.tx.inputs[0].prev_out.txid, vec![0x11u8; 32]);
    assert_eq!(decoded.psbt.tx.outputs[0].value, 95_000);
    assert_eq!(
        decoded.psbt.inputs[0].witness_utxo.as_ref().unwrap().value,
        100_000
    );
    assert_eq!(decoded.params.min_fee_rate_sat_per_vb, 1);
    assert!(decoded.params.output_substitution_allowed);

    let none_body = payjoin_receiver::codec::encode_poll_response_none();
    assert!(payjoin_receiver::codec::parse_poll_response(&none_body)
        .expect("the marker parses")
        .is_none());

    let mut garbage = body.clone();
    garbage.push(0xff);
    assert!(
        payjoin_receiver::codec::parse_poll_response(&garbage).is_none(),
        "trailing bytes are rejected"
    );
}
