//! End-to-end deployment and method-invocation flows, driven with concrete
//! events, and the outcome normalizer's behavior.

use near_backend::deploy::{
    block_height_of, deploy_step, now_unix, start_deploy, DeployAction, DeployError, DeployEvent,
    DeployPhase,
};
use near_backend::invoke::{
    build_change_call, finish_view_call, method_mode_of, start_invocation, InvokeAction,
    MethodMode, ViewEvent,
};
use near_backend::account::AccountId;
use near_backend::models::CallResult;
use near_backend::outcome::{
    broadcast_rejection, collect_receipt_logs, normalize_commit, scrape_failure, ChainFailure,
    CommitOutcome, ExecStatus, ReceiptOutcomeView,
};
use near_backend::tx::{sign_transaction, derive_public_key_checked, TxAction};

fn test_secret() -> String {
    near_crypto::SecretKey::from_seed(near_crypto::KeyType::ED25519, "flow-test-seed").to_string()
}

fn plain_outcome(hash: &str, gas: u64, block_hash: Vec<u8>) -> CommitOutcome {
    CommitOutcome {
        status: ExecStatus::SuccessValue { value: vec![] },
        transaction_hash: hash.to_string(),
        tx_logs: vec![],
        tx_gas_burnt: gas,
        tx_block_hash: block_hash,
        receipts: vec![],
    }
}

#[test]
fn preexisting_subaccount_stops_the_flow_before_any_transaction() {
    let pk = derive_public_key_checked(&test_secret()).unwrap();
    let (params, phase, action) =
        start_deploy("myparent.testnet", "alice123", "proj456", 1700000000, pk, vec![0u8; 4])
            .unwrap();
    assert!(matches!(action, DeployAction::CheckAccount { .. }));
    let (phase, action) =
        deploy_step(&params, phase, DeployEvent::AccountChecked { exists: true });
    match &phase {
        DeployPhase::Finished { result: Err(DeployError::PreexistingAccount { subaccount }) } => {
            assert_eq!(subaccount, "alice1-proj45-1700000000.myparent.testnet");
        }
        _ => panic!("expected the pre-existing account rejection"),
    }
    assert!(matches!(action, DeployAction::Finish));
    // The flow stays finished and never asks for anything more.
    let (phase, action) = deploy_step(
        &params,
        phase,
        DeployEvent::Context { nonce: 1, block_hash: vec![0u8; 32] },
    );
    assert!(matches!(phase, DeployPhase::Finished { .. }));
    assert!(matches!(action, DeployAction::Finish));
}

#[test]
fn full_deployment_scenario_reports_success() {
    let secret = test_secret();
    let pk = derive_public_key_checked(&secret).unwrap();
    let code = vec![3u8; 128];
    let (params, phase, action) = start_deploy(
        "myparent.testnet",
        "alice123",
        "proj456",
        1700000000,
        pk.clone(),
        code.clone(),
    )
    .unwrap();
    match &action {
        DeployAction::CheckAccount { account } => {
            assert_eq!(account, "alice1-proj45-1700000000.myparent.testnet");
        }
        _ => panic!("expected an existence check first"),
    }

    // The subaccount does not exist: the parent's context is fetched next.
    let (phase, action) =
        deploy_step(&params, phase, DeployEvent::AccountChecked { exists: false });
    match &action {
        DeployAction::FetchContext { account } => assert_eq!(account, "myparent.testnet"),
        _ => panic!("expected a context fetch for the parent"),
    }

    // Creation transaction: nonce is one past the fetched value, and the
    // actions create, key and fund the subaccount, in that order.
    let (phase, action) = deploy_step(
        &params,
        phase,
        DeployEvent::Context { nonce: 5, block_hash: vec![9u8; 32] },
    );
    let create_plan = match action {
        DeployAction::Broadcast { plan } => plan,
        _ => panic!("expected the creation broadcast"),
    };
    assert_eq!(create_plan.signer_id.as_text(), "myparent.testnet");
    assert_eq!(
        create_plan.receiver_id.as_text(),
        "alice1-proj45-1700000000.myparent.testnet"
    );
    assert_eq!(create_plan.nonce, 6);
    assert_eq!(create_plan.actions.len(), 3);
    assert!(matches!(create_plan.actions[0], TxAction::CreateAccount));
    assert!(matches!(create_plan.actions[1], TxAction::AddFullAccessKey { .. }));
    assert!(
        matches!(create_plan.actions[2], TxAction::Transfer { deposit: 2_000_000_000_000_000_000_000_000 })
    );
    assert!(sign_transaction(&create_plan, &secret).is_some());

    // Creation committed: the subaccount's own context is fetched.
    let (phase, action) = deploy_step(
        &params,
        phase,
        DeployEvent::Committed { outcome: plain_outcome("createhash", 1, vec![0u8; 32]) },
    );
    match &action {
        DeployAction::FetchContext { account } => {
            assert_eq!(account, "alice1-proj45-1700000000.myparent.testnet");
        }
        _ => panic!("expected a context fetch for the subaccount"),
    }

    // Deployment transaction: a single bytecode-installing action, signed
    // by the subaccount itself.
    let (phase, action) = deploy_step(
        &params,
        phase,
        DeployEvent::Context { nonce: 0, block_hash: vec![8u8; 32] },
    );
    let deploy_plan = match action {
        DeployAction::Broadcast { plan } => plan,
        _ => panic!("expected the deployment broadcast"),
    };
    assert_eq!(
        deploy_plan.signer_id.as_text(),
        "alice1-proj45-1700000000.myparent.testnet"
    );
    assert_eq!(deploy_plan.nonce, 1);
    match &deploy_plan.actions[..] {
        [TxAction::DeployContract { code: c }] => assert_eq!(c.len(), 128),
        _ => panic!("expected exactly one bytecode action"),
    }

    // Deployment committed: its hash, gas and derived height are kept.
    let mut deploy_block_hash = vec![0u8; 32];
    deploy_block_hash[6] = 1;  // big-endian height 256
    let (phase, action) = deploy_step(
        &params,
        phase,
        DeployEvent::Committed {
            outcome: plain_outcome("deployhash123", 2_428_932_649_818, deploy_block_hash),
        },
    );
    assert!(matches!(action, DeployAction::FetchContext { .. }));

    // Proof transfer: from the subaccount back to the parent.
    let (phase, action) = deploy_step(
        &params,
        phase,
        DeployEvent::Context { nonce: 1, block_hash: vec![7u8; 32] },
    );
    let proof_plan = match action {
        DeployAction::Broadcast { plan } => plan,
        _ => panic!("expected the proof transfer broadcast"),
    };
    assert_eq!(proof_plan.receiver_id.as_text(), "myparent.testnet");
    assert!(
        matches!(proof_plan.actions[0], TxAction::Transfer { deposit: 30_000_000_000_000_000_000_000 })
    );

    // Proof committed: the response carries everything.
    let (phase, _) = deploy_step(
        &params,
        phase,
        DeployEvent::Committed { outcome: plain_outcome("proofhash", 9, vec![0u8; 32]) },
    );
    let resp = match phase {
        DeployPhase::Finished { result: Ok(resp) } => resp,
        _ => panic!("expected overall success"),
    };
    assert!(resp.success);
    assert_eq!(resp.transaction_hash, "deployhash123");
    assert!(!resp.transaction_hash.is_empty());
    assert_eq!(resp.contract_id, "alice1-proj45-1700000000.myparent.testnet");
    assert_eq!(resp.explorer_url, "https://testnet.nearblocks.io/txns/deployhash123");
    assert_eq!(resp.gas_used, Some("2.43 TGas".to_string()));
    assert_eq!(resp.proof_tx_hash, Some("proofhash".to_string()));
    assert_eq!(resp.details.network, "testnet");
    assert_eq!(resp.details.block_height, 256);
    assert_eq!(resp.details.timestamp, 1700000000);
    assert_eq!(resp.details.deployer_account, "myparent.testnet");
}

#[test]
fn proof_transfer_failure_still_reports_success() {
    let pk = derive_public_key_checked(&test_secret()).unwrap();
    let (params, phase, _) =
        start_deploy("myparent.testnet", "alice123", "proj456", 1700000000, pk, vec![1u8; 4])
            .unwrap();
    let (phase, _) = deploy_step(&params, phase, DeployEvent::AccountChecked { exists: false });
    let (phase, _) = deploy_step(
        &params,
        phase,
        DeployEvent::Context { nonce: 5, block_hash: vec![9u8; 32] },
    );
    let (phase, _) = deploy_step(
        &params,
        phase,
        DeployEvent::Committed { outcome: plain_outcome("createhash", 1, vec![0u8; 32]) },
    );
    let (phase, _) = deploy_step(
        &params,
        phase,
        DeployEvent::Context { nonce: 0, block_hash: vec![8u8; 32] },
    );
    let (phase, _) = deploy_step(
        &params,
        phase,
        DeployEvent::Committed { outcome: plain_outcome("deployhash", 7, vec![0u8; 32]) },
    );
    let (phase, _) = deploy_step(
        &params,
        phase,
        DeployEvent::Context { nonce: 1, block_hash: vec![7u8; 32] },
    );
    // The proof broadcast is rejected: still an overall success, with no
    // proof transfer hash.
    let (phase, _) = deploy_step(
        &params,
        phase,
        DeployEvent::Rejected { message: "insufficient balance".to_string() },
    );
    let resp = match phase {
        DeployPhase::Finished { result: Ok(resp) } => resp,
        _ => panic!("expected overall success despite the failed proof transfer"),
    };
    assert!(resp.success);
    assert_eq!(resp.transaction_hash, "deployhash");
    assert_eq!(resp.proof_tx_hash, None);
}

#[test]
fn rejected_deployment_is_fatal() {
    let pk = derive_public_key_checked(&test_secret()).unwrap();
    let (params, phase, _) =
        start_deploy("myparent.testnet", "u", "p", 1, pk, vec![]).unwrap();
    let (phase, _) = deploy_step(&params, phase, DeployEvent::AccountChecked { exists: false });
    let (phase, _) = deploy_step(
        &params,
        phase,
        DeployEvent::Context { nonce: 5, block_hash: vec![9u8; 32] },
    );
    let (phase, _) = deploy_step(
        &params,
        phase,
        DeployEvent::Committed { outcome: plain_outcome("createhash", 1, vec![0u8; 32]) },
    );
    let (phase, _) = deploy_step(
        &params,
        phase,
        DeployEvent::Context { nonce: 0, block_hash: vec![8u8; 32] },
    );
    let (phase, _) = deploy_step(
        &params,
        phase,
        DeployEvent::Rejected { message: "expired block hash".to_string() },
    );
    match phase {
        DeployPhase::Finished { result: Err(DeployError::DeployRejected { message }) } => {
            assert_eq!(message, "expired block hash");
        }
        _ => panic!("expected a fatal deployment rejection"),
    }
}

#[test]
fn invalid_parent_account_fails_before_any_network_step() {
    let r = start_deploy("NOT-VALID", "u", "p", 1, "pk".to_string(), vec![]);
    assert!(matches!(r, Err(DeployError::ParentInvalid)));
}

#[test]
fn deploy_error_messages_exact() {
    let e = DeployError::PreexistingAccount { subaccount: "a.b".to_string() };
    assert_eq!(e.message(), "Subaccount a.b already exists. Manual intervention required.");
    assert_eq!(
        DeployError::CreateRejected { message: "boom".to_string() }.message(),
        "Failed to create account: boom"
    );
    assert_eq!(
        DeployError::DeployRejected { message: "bad".to_string() }.message(),
        "Failed to deploy contract: bad"
    );
    assert_eq!(DeployError::ParentInvalid.message(), "Failed to parse parent account ID");
}

#[test]
fn block_height_derivation() {
    assert_eq!(block_height_of(&vec![]), 0);
    assert_eq!(block_height_of(&vec![1]), 1);
    assert_eq!(block_height_of(&vec![1, 0]), 256);
    assert_eq!(block_height_of(&vec![0, 0, 0, 0, 0, 0, 1, 0, 0xff, 0xff]), 256);
    assert_eq!(
        block_height_of(&vec![0xff; 32]),
        u64::MAX
    );
}

#[test]
fn clock_reads_a_modern_timestamp() {
    assert!(now_unix() > 1_600_000_000);
}

#[test]
fn view_mode_never_fetches_a_nonce_or_signs() {
    let contract = AccountId::parse("counter.testnet").unwrap();
    let action = start_invocation(
        contract,
        "get_count".to_string(),
        "{\"key\": [1, 2]}",
        MethodMode::View,
    );
    // Whatever the arguments, view mode only ever queries: the produced
    // plan has no nonce, no key and no signature anywhere in it.
    let plan = match action {
        InvokeAction::QueryFunctionCall { plan } => plan,
        InvokeAction::FetchContext { .. } => {
            panic!("view mode must not fetch a transaction context")
        }
    };
    assert_eq!(plan.contract.as_text(), "counter.testnet");
    assert_eq!(plan.method_name, "get_count");
    assert_eq!(plan.args_bytes, b"{\"key\": [1, 2]}".to_vec());
}

#[test]
fn change_mode_fetches_context_then_builds_one_function_call() {
    let contract = AccountId::parse("counter.testnet").unwrap();
    let action = start_invocation(
        contract,
        "increment".to_string(),
        "{}",
        MethodMode::Change,
    );
    let account = match action {
        InvokeAction::FetchContext { account } => account,
        _ => panic!("change mode must fetch the signer's context first"),
    };
    assert_eq!(account.as_text(), "counter.testnet");

    let plan = build_change_call(
        &account,
        "ed25519:fake",
        "increment",
        "{}",
        41,
        vec![5u8; 32],
    );
    assert_eq!(plan.signer_id.as_text(), "counter.testnet");
    assert_eq!(plan.receiver_id.as_text(), "counter.testnet");
    assert_eq!(plan.nonce, 42);
    match &plan.actions[..] {
        [TxAction::FunctionCall { method_name, args, gas, deposit }] => {
            assert_eq!(method_name, "increment");
            assert_eq!(args, &b"{}".to_vec());
            assert_eq!(*gas, 30_000_000_000_000);
            assert_eq!(*deposit, 0);
        }
        _ => panic!("expected exactly one function-call action"),
    }
}

#[test]
fn method_mode_selection() {
    assert!(matches!(method_mode_of("view"), MethodMode::View));
    assert!(matches!(method_mode_of("call"), MethodMode::Change));
    assert!(matches!(method_mode_of("View"), MethodMode::Change));
}

#[test]
fn view_result_bytes_are_parsed_as_json_when_possible() {
    let m = finish_view_call(ViewEvent::CallResult {
        value: b"42".to_vec(),
        logs: vec!["log-line".to_string()],
    })
    .unwrap();
    assert!(m.success);
    assert_eq!(m.logs, vec!["log-line".to_string()]);
    assert!(m.transaction_hash.is_none());
    assert!(m.gas_used.is_none());
    match m.result {
        Some(CallResult::ViewValue { text, json, raw_base64 }) => {
            assert_eq!(text, "42");
            assert!(json);
            assert_eq!(raw_base64, "NDI=");
            // The text decodes to the number 42, as the caller will read it.
            let v: serde_json::Value = serde_json::from_str(&text).unwrap();
            assert_eq!(v, serde_json::Value::from(42));
        }
        _ => panic!("expected a view value"),
    }
}

#[test]
fn unparseable_view_output_is_not_a_failure() {
    let m = finish_view_call(ViewEvent::CallResult {
        value: b"plain words".to_vec(),
        logs: vec![],
    })
    .unwrap();
    assert!(m.success);
    match m.result {
        Some(CallResult::ViewValue { text, json, .. }) => {
            assert_eq!(text, "plain words");
            assert!(!json);
        }
        _ => panic!("expected a view value"),
    }
}

#[test]
fn invalid_utf8_view_output_is_an_error() {
    assert!(finish_view_call(ViewEvent::CallResult { value: vec![0xff, 0xfe], logs: vec![] })
        .is_err());
}

#[test]
fn failed_view_query_reports_the_message() {
    let m = finish_view_call(ViewEvent::QueryFailed { message: "timeout".to_string() }).unwrap();
    assert!(!m.success);
    assert_eq!(m.error, Some("View method failed: timeout".to_string()));
    let u = finish_view_call(ViewEvent::UnexpectedKind).unwrap();
    assert!(!u.success);
    assert_eq!(u.error, Some("Unexpected response type".to_string()));
}

#[test]
fn failure_text_with_recognizable_pattern_is_scraped() {
    let text = "ActionError(ActionError { index: Some(0), kind: FunctionCallError(ExecutionError(\"Smart contract panicked: overflow\")) })";
    match scrape_failure(text) {
        ChainFailure::Action { index, message } => {
            assert_eq!(index, Some(0));
            assert_eq!(message, "Smart contract panicked: overflow");
        }
        ChainFailure::Raw { .. } => panic!("expected a structured failure"),
    }
    let second = "ActionError { index: Some(1), kind: ExecutionError(\"halt\") }";
    match scrape_failure(second) {
        ChainFailure::Action { index, message } => {
            assert_eq!(index, Some(1));
            assert_eq!(message, "halt");
        }
        ChainFailure::Raw { .. } => panic!("expected a structured failure"),
    }
}

#[test]
fn failure_text_without_pattern_falls_back_to_raw() {
    match scrape_failure("InvalidTxError(Expired)") {
        ChainFailure::Raw { text } => assert_eq!(text, "InvalidTxError(Expired)"),
        ChainFailure::Action { .. } => panic!("expected the raw fallback"),
    }
    // Mentions an action error but never closes the inner quote.
    match scrape_failure("ActionError ExecutionError(\"unterminated") {
        ChainFailure::Raw { text } => assert_eq!(text, "ActionError ExecutionError(\"unterminated"),
        ChainFailure::Action { .. } => panic!("expected the raw fallback"),
    }
}

#[test]
fn committed_failure_normalizes_without_being_an_error() {
    let outcome = CommitOutcome {
        status: ExecStatus::Failure {
            text: "ActionError { kind: FunctionCallError(ExecutionError(\"boom\")) }".to_string(),
        },
        transaction_hash: "txhash".to_string(),
        tx_logs: vec![],
        tx_gas_burnt: 1_000_000_000_000,
        tx_block_hash: vec![0u8; 32],
        receipts: vec![],
    };
    let m = normalize_commit(outcome).unwrap();
    assert!(!m.success);
    assert!(m.error.is_none());
    assert_eq!(m.transaction_hash, Some("txhash".to_string()));
    assert_eq!(m.gas_used, Some("1.00 TGas".to_string()));
    match m.result {
        Some(CallResult::Failure { failure: ChainFailure::Action { index, message } }) => {
            assert_eq!(index, None);
            assert_eq!(message, "boom");
        }
        _ => panic!("expected a scraped failure"),
    }
}

#[test]
fn committed_success_collects_receipt_logs_in_order() {
    let receipts = vec![
        ReceiptOutcomeView {
            id: "r1".to_string(),
            status_text: "SuccessValue".to_string(),
            logs: vec!["a".to_string(), "b".to_string()],
            gas_burnt: 1,
        },
        ReceiptOutcomeView {
            id: "r2".to_string(),
            status_text: "SuccessValue".to_string(),
            logs: vec!["c".to_string()],
            gas_burnt: 2,
        },
    ];
    assert_eq!(
        collect_receipt_logs(&receipts),
        vec!["a".to_string(), "b".to_string(), "c".to_string()]
    );
    let outcome = CommitOutcome {
        status: ExecStatus::SuccessValue { value: b"7".to_vec() },
        transaction_hash: "h".to_string(),
        tx_logs: vec!["t".to_string()],
        tx_gas_burnt: 0,
        tx_block_hash: vec![],
        receipts,
    };
    let m = normalize_commit(outcome).unwrap();
    assert!(m.success);
    // The transaction outcome's own logs come first, then the receipts'.
    assert_eq!(
        m.logs,
        vec!["t".to_string(), "a".to_string(), "b".to_string(), "c".to_string()]
    );
    match m.result {
        Some(CallResult::Value { text, json }) => {
            assert_eq!(text, "7");
            assert!(json);
        }
        _ => panic!("expected a value result"),
    }
}

#[test]
fn committed_empty_value_and_pending_statuses() {
    let empty = CommitOutcome {
        status: ExecStatus::SuccessValue { value: vec![] },
        transaction_hash: "h".to_string(),
        tx_logs: vec![],
        tx_gas_burnt: 0,
        tx_block_hash: vec![],
        receipts: vec![],
    };
    let m = normalize_commit(empty).unwrap();
    assert!(m.success);
    assert!(matches!(m.result, Some(CallResult::Empty)));

    let pending = CommitOutcome {
        status: ExecStatus::Started,
        transaction_hash: "h".to_string(),
        tx_logs: vec![],
        tx_gas_burnt: 0,
        tx_block_hash: vec![],
        receipts: vec![],
    };
    let p = normalize_commit(pending).unwrap();
    assert!(p.success);
    match p.result {
        Some(CallResult::Pending { status }) => assert_eq!(status, "Started"),
        _ => panic!("expected a pending result"),
    }
}

#[test]
fn invalid_utf8_committed_value_is_an_error() {
    let outcome = CommitOutcome {
        status: ExecStatus::SuccessValue { value: vec![0xff] },
        transaction_hash: "h".to_string(),
        tx_logs: vec![],
        tx_gas_burnt: 0,
        tx_block_hash: vec![],
        receipts: vec![],
    };
    assert!(normalize_commit(outcome).is_err());
}

#[test]
fn every_deployment_error_variant_is_reachable() {
    let pk = "ed25519:fake".to_string();
    // An identifier with upper-case letters cannot begin a subaccount name.
    match start_deploy("myparent.testnet", "BAD", "p", 1, pk.clone(), vec![]) {
        Err(DeployError::SubaccountInvalid { composed }) => {
            assert_eq!(composed, "BAD-p-1.myparent.testnet");
        }
        _ => panic!("expected the subaccount to be rejected"),
    }

    let (params, phase, _) =
        start_deploy("myparent.testnet", "u", "p", 1, pk.clone(), vec![]).unwrap();
    // An event the state cannot consume ends the flow.
    let (bad, _) = deploy_step(
        &params,
        phase,
        DeployEvent::Context { nonce: 0, block_hash: vec![] },
    );
    assert!(matches!(
        bad,
        DeployPhase::Finished { result: Err(DeployError::UnexpectedEvent) }
    ));

    let (params, phase, _) =
        start_deploy("myparent.testnet", "u", "p", 1, pk.clone(), vec![]).unwrap();
    let (phase, _) = deploy_step(&params, phase, DeployEvent::AccountChecked { exists: false });
    // A full nonce leaves no room for one more transaction.
    let (full, _) = deploy_step(
        &params,
        phase,
        DeployEvent::Context { nonce: u64::MAX, block_hash: vec![0u8; 32] },
    );
    assert!(matches!(
        full,
        DeployPhase::Finished { result: Err(DeployError::NonceOverflow) }
    ));

    let (params, phase, _) =
        start_deploy("myparent.testnet", "u", "p", 1, pk.clone(), vec![]).unwrap();
    let (phase, _) = deploy_step(&params, phase, DeployEvent::AccountChecked { exists: false });
    let (ctx_failed, _) = deploy_step(
        &params,
        phase,
        DeployEvent::ContextFailed { message: "down".to_string() },
    );
    match ctx_failed {
        DeployPhase::Finished { result: Err(DeployError::CreateContextFailed { message }) } => {
            assert_eq!(message, "down");
        }
        _ => panic!("expected the creation context failure"),
    }

    let (params, phase, _) =
        start_deploy("myparent.testnet", "u", "p", 1, pk.clone(), vec![]).unwrap();
    let (phase, _) = deploy_step(&params, phase, DeployEvent::AccountChecked { exists: false });
    let (phase, _) = deploy_step(
        &params,
        phase,
        DeployEvent::Context { nonce: 0, block_hash: vec![0u8; 32] },
    );
    let (rejected, _) = deploy_step(
        &params,
        phase,
        DeployEvent::Rejected { message: "bad nonce".to_string() },
    );
    match rejected {
        DeployPhase::Finished { result: Err(DeployError::CreateRejected { message }) } => {
            assert_eq!(message, "bad nonce");
        }
        _ => panic!("expected the creation rejection"),
    }

    let (params, phase, _) =
        start_deploy("myparent.testnet", "u", "p", 1, pk, vec![]).unwrap();
    let (phase, _) = deploy_step(&params, phase, DeployEvent::AccountChecked { exists: false });
    let (phase, _) = deploy_step(
        &params,
        phase,
        DeployEvent::Context { nonce: 0, block_hash: vec![0u8; 32] },
    );
    let (phase, _) = deploy_step(
        &params,
        phase,
        DeployEvent::Committed { outcome: plain_outcome("h", 0, vec![]) },
    );
    let (deploy_ctx_failed, _) = deploy_step(
        &params,
        phase,
        DeployEvent::ContextFailed { message: "gone".to_string() },
    );
    match deploy_ctx_failed {
        DeployPhase::Finished { result: Err(DeployError::DeployContextFailed { message }) } => {
            assert_eq!(message, "gone");
        }
        _ => panic!("expected the deployment context failure"),
    }
}

#[test]
fn gateway_rejection_has_no_hash_and_a_prefixed_message() {
    let m = broadcast_rejection("connection refused");
    assert!(!m.success);
    assert!(m.transaction_hash.is_none());
    assert!(m.gas_used.is_none());
    assert!(m.logs.is_empty());
    assert_eq!(m.error, Some("Transaction failed: connection refused".to_string()));
}
