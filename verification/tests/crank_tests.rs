use feed_cranker::aggregate::{check_quorum, success_count};
use feed_cranker::pipeline::outcome;
use feed_cranker::chain::build_update_instructions;
use feed_cranker::errors::{CrankError, ErrorClass};
use feed_cranker::model::{FeedValue, Gateway, OracleResponse};
use feed_cranker::pipeline::{
    begin, step, Action, CrankConfig, Event, QueueFault, RunState, SimulationOutcome, UpdateBundle,
};
use feed_cranker::registry::select_gateway;
use solana_sdk::instruction::{AccountMeta, Instruction};
use solana_sdk::pubkey::Pubkey;
use solana_sdk::signer::keypair::Keypair;

fn ok_response(seed: u8) -> OracleResponse {
    OracleResponse {
        oracle: vec![seed; 32],
        value: Some(FeedValue { mantissa: 1_234_500 + seed as i128, scale: 4 }),
        signature: vec![seed; 64],
        gateway: "https://first.example".to_string(),
    }
}

fn err_response(seed: u8) -> OracleResponse {
    OracleResponse {
        oracle: vec![seed; 32],
        value: None,
        signature: vec![seed; 64],
        gateway: "https://first.example".to_string(),
    }
}

fn gateway(name: &str) -> Gateway {
    Gateway { url: format!("https://{name}.example") }
}

fn test_config(quorum_threshold: u64) -> CrankConfig {
    CrankConfig {
        payer: Keypair::new(),
        num_signatures: 6,
        quorum_threshold,
        cu_limit: 1_400_000,
        cu_price: 69_000,
    }
}

fn payload_instruction() -> Instruction {
    Instruction::new_with_bytes(Pubkey::new_unique(), &[9, 9, 9], vec![])
}

fn bundle_with(responses: Vec<OracleResponse>) -> UpdateBundle {
    UpdateBundle { ix: payload_instruction(), luts: vec![], responses }
}

#[test]
fn success_count_counts_present_values() {
    let responses = vec![ok_response(1), err_response(2), ok_response(3)];
    assert_eq!(success_count(&responses), 2);
}

#[test]
fn success_count_is_order_independent() {
    let a = vec![ok_response(1), err_response(2), ok_response(3), err_response(4)];
    let b = vec![err_response(4), ok_response(3), err_response(2), ok_response(1)];
    assert_eq!(success_count(&a), success_count(&b));
    assert_eq!(success_count(&a), 2);
}

#[test]
fn success_count_of_empty_reply_is_zero() {
    assert_eq!(success_count(&vec![]), 0);
}

#[test]
fn check_quorum_at_threshold_is_ok() {
    let responses = vec![ok_response(1), ok_response(2), err_response(3)];
    match check_quorum(responses, 2) {
        Ok(quorum) => {
            assert_eq!(quorum.success_count, 2);
            assert_eq!(quorum.responses.len(), 3);
        }
        Err(_) => panic!("two successes must meet a threshold of two"),
    }
}

#[test]
fn check_quorum_below_threshold_reports_counts() {
    let responses = vec![ok_response(1), err_response(2), err_response(3)];
    match check_quorum(responses, 3) {
        Err(e) => assert_eq!(e, CrankError::NoQuorum { got: 1, need: 3 }),
        Ok(_) => panic!("one success must not meet a threshold of three"),
    }
}

#[test]
fn select_gateway_takes_first_member() {
    let picked = select_gateway(vec![gateway("a"), gateway("b"), gateway("c")]);
    assert_eq!(picked, Ok(gateway("a")));
}

#[test]
fn select_gateway_rejects_empty_queue() {
    assert_eq!(select_gateway(vec![]), Err(CrankError::EmptyQueue));
}

#[test]
fn fee_directives_precede_payload() {
    let payload = payload_instruction();
    let v = build_update_instructions(1_400_000, 69_000, payload.clone());
    assert_eq!(v.len(), 3);
    // 1_400_000 = 0x0015_5CC0, little-endian after the tag byte for the limit.
    assert_eq!(v[0].data, vec![2, 0xC0, 0x5C, 0x15, 0x00]);
    assert!(v[0].accounts.is_empty());
    // 69_000 = 0x0001_0D88, little-endian after the tag byte for the price.
    assert_eq!(v[1].data, vec![3, 0x88, 0x0D, 0x01, 0, 0, 0, 0, 0]);
    assert!(v[1].accounts.is_empty());
    assert_eq!(v[0].program_id, solana_sdk::compute_budget::id());
    assert_eq!(v[1].program_id, solana_sdk::compute_budget::id());
    assert_eq!(v[2], payload);
}

#[test]
fn compute_budget_program_key_bytes_are_fixed() {
    // The byte form of the compute-budget program's key, as the
    // contracts state it.
    let expected: Vec<u8> = vec![
        3, 6, 70, 111, 229, 33, 23, 50, 255, 236, 173, 186, 114, 195, 155, 231, 188, 140, 229,
        187, 197, 247, 18, 107, 44, 67, 155, 58, 64, 0, 0, 0,
    ];
    assert_eq!(solana_sdk::compute_budget::id().to_bytes().to_vec(), expected);
    let v = build_update_instructions(1, 1, payload_instruction());
    assert_eq!(v[0].program_id.to_bytes().to_vec(), expected);
    assert_eq!(v[1].program_id.to_bytes().to_vec(), expected);
}

#[test]
fn run_confirms_when_all_responses_succeed() {
    let cfg = test_config(3);
    let (state, action) = begin();
    assert!(matches!(state, RunState::ResolvingQueue));
    assert!(matches!(action, Action::LoadQueue));

    let queue = vec![gateway("first"), gateway("second"), gateway("third")];
    let (state, action) = step(&cfg, state, Event::QueueResolved(Ok(queue)));
    assert!(matches!(state, RunState::FetchingUpdate));
    match &action {
        Action::FetchUpdate { gateway } => assert_eq!(gateway.url, "https://first.example"),
        _ => panic!("expected a fetch action"),
    }

    let responses: Vec<OracleResponse> = (1..=6).map(ok_response).collect();
    let (state, action) = step(&cfg, state, Event::UpdateFetched(Ok(bundle_with(responses))));
    assert!(matches!(state, RunState::FetchingBlockhash { .. }));
    assert!(matches!(action, Action::FetchBlockhash));

    let (state, action) = step(&cfg, state, Event::BlockhashFetched(Ok(solana_sdk::hash::Hash::new_unique())));
    let simulated = match &action {
        Action::Simulate { tx } => tx.clone(),
        _ => panic!("expected a simulation request"),
    };
    let signed = match &state {
        RunState::Signed { tx } => tx.clone(),
        _ => panic!("expected the signed state"),
    };
    assert_eq!(simulated, signed);

    let sim = SimulationOutcome { err: None, logs: vec!["ok".to_string()] };
    let (state, action) = step(&cfg, state, Event::SimulationFinished(Ok(sim)));
    let submitted = match &action {
        Action::SubmitAndConfirm { tx } => tx.clone(),
        _ => panic!("expected a submission request"),
    };
    assert!(matches!(state, RunState::Submitted { .. }));
    assert_eq!(submitted, simulated);

    let (state, action) =
        step(&cfg, state, Event::SubmissionFinished(Ok("final-signature".to_string())));
    assert!(matches!(action, Action::Halt));
    assert!(matches!(state, RunState::Confirmed { .. }));
    match outcome(state) {
        Some(Ok(signature)) => assert_eq!(signature, "final-signature"),
        _ => panic!("expected a confirmed outcome"),
    }
}

#[test]
fn outcome_is_empty_while_a_run_is_under_way() {
    assert!(outcome(RunState::ResolvingQueue).is_none());
    assert!(outcome(RunState::FetchingUpdate).is_none());
}

#[test]
fn run_fails_below_quorum_before_any_instruction() {
    let cfg = test_config(3);
    let (state, _) = begin();
    let (state, _) = step(&cfg, state, Event::QueueResolved(Ok(vec![gateway("only")])));

    let responses =
        vec![ok_response(1), ok_response(2), err_response(3), err_response(4), err_response(5), err_response(6)];
    let (state, action) = step(&cfg, state, Event::UpdateFetched(Ok(bundle_with(responses))));
    assert!(matches!(action, Action::Halt));
    match state {
        RunState::Failed { error } => {
            assert_eq!(error, CrankError::NoQuorum { got: 2, need: 3 });
            assert_eq!(error.class(), ErrorClass::Gateway);
        }
        _ => panic!("expected a failed run"),
    }
}

#[test]
fn run_rejected_by_simulation_submits_nothing() {
    let cfg = test_config(3);
    let (state, _) = begin();
    let (state, _) = step(&cfg, state, Event::QueueResolved(Ok(vec![gateway("only")])));
    let responses: Vec<OracleResponse> = (1..=6).map(ok_response).collect();
    let (state, _) = step(&cfg, state, Event::UpdateFetched(Ok(bundle_with(responses))));
    let (state, _) = step(&cfg, state, Event::BlockhashFetched(Ok(solana_sdk::hash::Hash::new_unique())));
    assert!(matches!(state, RunState::Signed { .. }));

    let sim = SimulationOutcome {
        err: Some("custom program error".to_string()),
        logs: vec!["log line".to_string()],
    };
    let (state, action) = step(&cfg, state, Event::SimulationFinished(Ok(sim)));
    assert!(matches!(action, Action::Halt), "a rejected simulation must submit nothing");
    match state {
        RunState::Failed { error } => {
            assert_eq!(
                error,
                CrankError::SimulationRejected {
                    err: "custom program error".to_string(),
                    logs: vec!["log line".to_string()],
                }
            );
            assert_eq!(error.class(), ErrorClass::SimulationRejected);
        }
        _ => panic!("expected a failed run"),
    }
}

#[test]
fn run_fails_on_empty_queue_before_any_attestation() {
    let cfg = test_config(3);
    let (state, _) = begin();
    let (state, action) = step(&cfg, state, Event::QueueResolved(Ok(vec![])));
    assert!(matches!(action, Action::Halt), "an empty queue must request nothing further");
    match state {
        RunState::Failed { error } => {
            assert_eq!(error, CrankError::EmptyQueue);
            assert_eq!(error.class(), ErrorClass::Configuration);
        }
        _ => panic!("expected a failed run"),
    }
}

#[test]
fn run_fails_when_queue_account_is_missing() {
    let cfg = test_config(3);
    let (state, _) = begin();
    let (state, action) = step(&cfg, state, Event::QueueResolved(Err(QueueFault::NotFound)));
    assert!(matches!(action, Action::Halt));
    match state {
        RunState::Failed { error } => {
            assert_eq!(error, CrankError::QueueNotFound);
            assert_eq!(error.class(), ErrorClass::Configuration);
        }
        _ => panic!("expected a failed run"),
    }
}

#[test]
fn run_fails_when_queue_account_is_malformed() {
    let cfg = test_config(3);
    let (state, _) = begin();
    let (state, _) = step(&cfg, state, Event::QueueResolved(Err(QueueFault::Malformed)));
    assert!(matches!(state, RunState::Failed { error: CrankError::QueueMalformed }));
}

#[test]
fn run_fails_when_gateway_is_unreachable() {
    let cfg = test_config(3);
    let (state, _) = begin();
    let (state, _) = step(&cfg, state, Event::QueueResolved(Ok(vec![gateway("only")])));
    let (state, _) =
        step(&cfg, state, Event::UpdateFetched(Err("connection timed out".to_string())));
    match state {
        RunState::Failed { error } => {
            assert_eq!(
                error,
                CrankError::GatewayUnreachable { detail: "connection timed out".to_string() }
            );
            assert_eq!(error.class(), ErrorClass::Gateway);
        }
        _ => panic!("expected a failed run"),
    }
}

#[test]
fn run_fails_when_message_cannot_compile() {
    let cfg = test_config(1);
    let (state, _) = begin();
    let (state, _) = step(&cfg, state, Event::QueueResolved(Ok(vec![gateway("only")])));
    // An instruction naming far more accounts than one message may hold.
    let accounts: Vec<AccountMeta> =
        (0..300).map(|_| AccountMeta::new(Pubkey::new_unique(), false)).collect();
    let oversized = Instruction::new_with_bytes(Pubkey::new_unique(), &[1], accounts);
    let bundle = UpdateBundle { ix: oversized, luts: vec![], responses: vec![ok_response(1)] };
    let (state, _) = step(&cfg, state, Event::UpdateFetched(Ok(bundle)));
    let (state, action) = step(&cfg, state, Event::BlockhashFetched(Ok(solana_sdk::hash::Hash::new_unique())));
    assert!(matches!(action, Action::Halt));
    match state {
        RunState::Failed { error } => {
            assert!(matches!(error, CrankError::Compile { .. }));
            assert_eq!(error.class(), ErrorClass::Compile);
        }
        _ => panic!("expected a failed run"),
    }
}

#[test]
fn run_fails_when_submission_fails() {
    let cfg = test_config(3);
    let (state, _) = begin();
    let (state, _) = step(&cfg, state, Event::QueueResolved(Ok(vec![gateway("only")])));
    let responses: Vec<OracleResponse> = (1..=6).map(ok_response).collect();
    let (state, _) = step(&cfg, state, Event::UpdateFetched(Ok(bundle_with(responses))));
    let (state, _) = step(&cfg, state, Event::BlockhashFetched(Ok(solana_sdk::hash::Hash::new_unique())));
    let sim = SimulationOutcome { err: None, logs: vec![] };
    let (state, _) = step(&cfg, state, Event::SimulationFinished(Ok(sim)));
    let (state, _) =
        step(&cfg, state, Event::SubmissionFinished(Err("blockhash expired".to_string())));
    match state {
        RunState::Failed { error } => {
            assert_eq!(error, CrankError::Submission { detail: "blockhash expired".to_string() });
            assert_eq!(error.class(), ErrorClass::Submission);
        }
        _ => panic!("expected a failed run"),
    }
}

#[test]
fn run_fails_when_blockhash_cannot_be_fetched() {
    let cfg = test_config(1);
    let (state, _) = begin();
    let (state, _) = step(&cfg, state, Event::QueueResolved(Ok(vec![gateway("only")])));
    let (state, _) = step(&cfg, state, Event::UpdateFetched(Ok(bundle_with(vec![ok_response(1)]))));
    let (state, _) = step(&cfg, state, Event::BlockhashFetched(Err("rpc down".to_string())));
    match state {
        RunState::Failed { error } => {
            assert_eq!(
                error,
                CrankError::BlockhashUnavailable { detail: "rpc down".to_string() }
            );
            assert_eq!(error.class(), ErrorClass::Transport);
        }
        _ => panic!("expected a failed run"),
    }
}

#[test]
fn run_fails_when_simulation_endpoint_is_unreachable() {
    let cfg = test_config(1);
    let (state, _) = begin();
    let (state, _) = step(&cfg, state, Event::QueueResolved(Ok(vec![gateway("only")])));
    let (state, _) = step(&cfg, state, Event::UpdateFetched(Ok(bundle_with(vec![ok_response(1)]))));
    let (state, _) = step(&cfg, state, Event::BlockhashFetched(Ok(solana_sdk::hash::Hash::new_unique())));
    assert!(matches!(state, RunState::Signed { .. }));
    let (state, action) =
        step(&cfg, state, Event::SimulationFinished(Err("rpc down".to_string())));
    assert!(matches!(action, Action::Halt));
    match state {
        RunState::Failed { error } => {
            assert_eq!(
                error,
                CrankError::SimulationUnavailable { detail: "rpc down".to_string() }
            );
            assert_eq!(error.class(), ErrorClass::Transport);
        }
        _ => panic!("expected a failed run"),
    }
}

#[test]
fn run_refuses_a_payload_with_oversized_data() {
    let cfg = test_config(1);
    let (state, _) = begin();
    let (state, _) = step(&cfg, state, Event::QueueResolved(Ok(vec![gateway("only")])));
    let oversized =
        Instruction::new_with_bytes(Pubkey::new_unique(), &vec![7u8; 65_536], vec![]);
    let bundle = UpdateBundle { ix: oversized, luts: vec![], responses: vec![ok_response(1)] };
    let (state, _) = step(&cfg, state, Event::UpdateFetched(Ok(bundle)));
    let (state, action) = step(&cfg, state, Event::BlockhashFetched(Ok(solana_sdk::hash::Hash::new_unique())));
    assert!(matches!(action, Action::Halt));
    match state {
        RunState::Failed { error } => {
            assert_eq!(
                error,
                CrankError::Compile {
                    detail: "payload instruction exceeds the wire format's field length limit"
                        .to_string()
                }
            );
            assert_eq!(error.class(), ErrorClass::Compile);
        }
        _ => panic!("expected a failed run"),
    }
}

#[test]
fn run_refuses_a_payload_with_oversized_account_list() {
    let cfg = test_config(1);
    let (state, _) = begin();
    let (state, _) = step(&cfg, state, Event::QueueResolved(Ok(vec![gateway("only")])));
    // One repeated account: a duplicate entry still lengthens the
    // compiled per-instruction index list.
    let meta = AccountMeta::new(Pubkey::new_unique(), false);
    let accounts: Vec<AccountMeta> = (0..65_536).map(|_| meta.clone()).collect();
    let oversized = Instruction::new_with_bytes(Pubkey::new_unique(), &[1], accounts);
    let bundle = UpdateBundle { ix: oversized, luts: vec![], responses: vec![ok_response(1)] };
    let (state, _) = step(&cfg, state, Event::UpdateFetched(Ok(bundle)));
    let (state, _) = step(&cfg, state, Event::BlockhashFetched(Ok(solana_sdk::hash::Hash::new_unique())));
    match state {
        RunState::Failed { error } => {
            assert!(matches!(error, CrankError::Compile { .. }));
        }
        _ => panic!("expected a failed run"),
    }
}

#[test]
fn terminal_state_ignores_further_events() {
    let cfg = test_config(3);
    let (state, _) = begin();
    let (state, _) = step(&cfg, state, Event::QueueResolved(Ok(vec![])));
    let (state, action) = step(&cfg, state, Event::SubmissionFinished(Ok("late".to_string())));
    assert!(matches!(action, Action::Halt));
    assert!(matches!(state, RunState::Failed { error: CrankError::EmptyQueue }));
}
