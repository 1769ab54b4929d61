//! The deployment flow: derive the subaccount, check for a pre-existing
//! account, create and fund the subaccount, deploy the bytecode, then
//! attempt a best-effort proof-of-deployment transfer back to the parent.
//! The flow is a state machine: each network round trip is an event handed
//! in by the caller, and each step decides the next action; it is terminal
//! on the first fatal failure and never retries.

use vstd::prelude::*;

use crate::account::{subaccount_seq, AccountId};
use crate::models::{DeployDetails, DeployResponse};
use crate::outcome::CommitOutcome;
use crate::text::{format_tgas, tgas_rep};
use crate::tx::{TxAction, TxActionView, TxPlan, TxPlanView};

verus! {

/// Bootstrap funding attached to a new subaccount, sized to cover storage
/// rent and the subsequent deployment: 2 whole currency units.
pub const CREATE_ACCOUNT_DEPOSIT: u128 = 2_000_000_000_000_000_000_000_000;

/// The small fixed proof-of-deployment transfer back to the parent:
/// 0.03 of a whole currency unit.
pub const PROOF_TRANSFER_DEPOSIT: u128 = 30_000_000_000_000_000_000_000;

/// Validated inputs of one deployment: the parent account, the single
/// reused public key, the derived subaccount, the bytecode, and the
/// request timestamp.
pub struct DeployParams {
    pub parent: AccountId,
    pub public_key: String,
    pub subaccount: AccountId,
    pub code: Vec<u8>,
    pub timestamp: i64,
}

/// Facts kept from the committed deployment transaction.
pub struct DeployedInfo {
    pub transaction_hash: String,
    pub gas_burnt: u64,
    pub block_height: u64,
}

/// Why a deployment ended without success.
#[derive(Debug)]
pub enum DeployError {
    /// The configured parent account identifier does not parse.
    ParentInvalid,
    /// The derived subaccount identifier does not parse; it is carried for
    /// diagnosis.
    SubaccountInvalid { composed: String },
    /// The subaccount already exists; redeploying onto it is refused and
    /// manual intervention is required.
    PreexistingAccount { subaccount: String },
    /// The parent's access-key nonce or a fresh block hash could not be
    /// fetched.
    CreateContextFailed { message: String },
    /// The node rejected the account-creation transaction.
    CreateRejected { message: String },
    /// The subaccount's access-key nonce or a fresh block hash could not
    /// be fetched.
    DeployContextFailed { message: String },
    /// The node rejected the deployment transaction.
    DeployRejected { message: String },
    /// A fetched access-key nonce leaves no room for one more transaction.
    NonceOverflow,
    /// The caller handed an event the current state cannot consume.
    UnexpectedEvent,
}

impl DeployError {
    /// The human-readable description of this failure, with the node's or
    /// gateway's own message attached where one exists.
    pub fn message(&self) -> (r: String)
        ensures
            match self {
                DeployError::ParentInvalid => r@ == "Failed to parse parent account ID"@,
                DeployError::SubaccountInvalid { .. } => r@ == "Failed to parse subaccount ID"@,
                DeployError::PreexistingAccount { subaccount } => r@ == "Subaccount "@
                    + subaccount@ + " already exists. Manual intervention required."@,
                DeployError::CreateContextFailed { message } => r@ == "Failed to get access key: "@
                    + message@,
                DeployError::CreateRejected { message } => r@ == "Failed to create account: "@
                    + message@,
                DeployError::DeployContextFailed { message } => r@
                    == "Failed to get subaccount access key: "@ + message@,
                DeployError::DeployRejected { message } => r@ == "Failed to deploy contract: "@
                    + message@,
                DeployError::NonceOverflow => r@ == "Access key nonce out of range"@,
                DeployError::UnexpectedEvent => r@ == "Unexpected event for deployment state"@,
            },
    {
        match self {
            DeployError::ParentInvalid => "Failed to parse parent account ID".to_owned(),
            DeployError::SubaccountInvalid { .. } => "Failed to parse subaccount ID".to_owned(),
            DeployError::PreexistingAccount { subaccount } => {
                let mut r = "Subaccount ".to_owned();
                r.append(subaccount.as_str());
                r.append(" already exists. Manual intervention required.");
                r
            },
            DeployError::CreateContextFailed { message } => {
                let mut r = "Failed to get access key: ".to_owned();
                r.append(message.as_str());
                r
            },
            DeployError::CreateRejected { message } => {
                let mut r = "Failed to create account: ".to_owned();
                r.append(message.as_str());
                r
            },
            DeployError::DeployContextFailed { message } => {
                let mut r = "Failed to get subaccount access key: ".to_owned();
                r.append(message.as_str());
                r
            },
            DeployError::DeployRejected { message } => {
                let mut r = "Failed to deploy contract: ".to_owned();
                r.append(message.as_str());
                r
            },
            DeployError::NonceOverflow => "Access key nonce out of range".to_owned(),
            DeployError::UnexpectedEvent => "Unexpected event for deployment state".to_owned(),
        }
    }
}

/// Where the flow stands between two network round trips.
pub enum DeployPhase {
    /// Waiting to learn whether the subaccount already exists.
    CheckingAccount,
    /// Waiting for the parent's nonce and a fresh block hash.
    PreparingCreate,
    /// The creation transaction is out; waiting for its outcome.
    AwaitingCreate,
    /// Waiting for the subaccount's nonce and a fresh block hash.
    PreparingDeploy,
    /// The deployment transaction is out; waiting for its outcome.
    AwaitingDeploy,
    /// Waiting for the subaccount's nonce and a fresh block hash for the
    /// proof transfer.
    PreparingProof { deployed: DeployedInfo },
    /// The proof transfer is out; waiting for its outcome.
    AwaitingProof { deployed: DeployedInfo },
    /// The flow is over; nothing further may be broadcast.
    Finished { result: Result<DeployResponse, DeployError> },
}

/// What the caller must do next.
pub enum DeployAction {
    /// Ask the ledger whether this account exists.
    CheckAccount { account: String },
    /// Fetch this signer's access-key nonce and a fresh block hash. The
    /// context must be fetched anew for every transaction, after every
    /// preceding transaction from the same signer, and never reused.
    FetchContext { account: String },
    /// Sign this plan and broadcast it, blocking until a final outcome.
    Broadcast { plan: TxPlan },
    /// Nothing: the flow is finished.
    Finish,
}

/// What a network round trip came back with.
pub enum DeployEvent {
    /// The existence check answered.
    AccountChecked { exists: bool },
    /// Access-key nonce and fresh block hash for the pending transaction.
    Context { nonce: u64, block_hash: Vec<u8> },
    /// The nonce or block hash could not be fetched.
    ContextFailed { message: String },
    /// A broadcast transaction reached a final outcome.
    Committed { outcome: CommitOutcome },
    /// The node rejected the broadcast.
    Rejected { message: String },
}

/// 256 raised to `k`.
pub open spec fn pow256(k: nat) -> int
    decreases k,
{
    if k == 0 {
        1
    } else {
        256 * pow256((k - 1) as nat)
    }
}

/// Big-endian value of the first `k` bytes.
pub open spec fn be_prefix_val(bytes: Seq<u8>, k: int) -> int
    decreases k,
{
    if k <= 0 {
        0
    } else {
        be_prefix_val(bytes, k - 1) * 256 + bytes[k - 1]
    }
}

/// The block height derived from a block hash: the big-endian value of its
/// first eight bytes (or of all of them, if fewer).
pub open spec fn block_height_spec(bytes: Seq<u8>) -> int {
    be_prefix_val(bytes, if bytes.len() < 8 { bytes.len() as int } else { 8 })
}

proof fn lemma_be_prefix_bound(bytes: Seq<u8>, k: int)
    requires
        0 <= k <= bytes.len(),
    ensures
        0 <= be_prefix_val(bytes, k) < pow256(k as nat),
    decreases k,
{
    if k > 0 {
        lemma_be_prefix_bound(bytes, k - 1);
        let prev = be_prefix_val(bytes, k - 1);
        let b = bytes[k - 1] as int;
        assert(prev * 256 + b < 256 * pow256((k - 1) as nat)) by (nonlinear_arith)
            requires
                prev < pow256((k - 1) as nat),
                0 <= b < 256,
                0 <= prev,
        ;
    }
}

proof fn lemma_pow256_values()
    ensures
        pow256(0) == 1,
        pow256(1) == 0x100,
        pow256(2) == 0x1_0000,
        pow256(3) == 0x100_0000,
        pow256(4) == 0x1_0000_0000,
        pow256(5) == 0x100_0000_0000,
        pow256(6) == 0x1_0000_0000_0000,
        pow256(7) == 0x100_0000_0000_0000,
        pow256(8) == 0x1_0000_0000_0000_0000,
{
    assert(pow256(1) == 256 * pow256(0));
    assert(pow256(2) == 256 * pow256(1));
    assert(pow256(3) == 256 * pow256(2));
    assert(pow256(4) == 256 * pow256(3));
    assert(pow256(5) == 256 * pow256(4));
    assert(pow256(6) == 256 * pow256(5));
    assert(pow256(7) == 256 * pow256(6));
    assert(pow256(8) == 256 * pow256(7));
}

proof fn lemma_pow256_increases(a: nat, b: nat)
    requires
        a <= b,
    ensures
        pow256(a) <= pow256(b),
    decreases b,
{
    if a < b {
        lemma_pow256_increases(a, (b - 1) as nat);
        let p = pow256((b - 1) as nat);
        lemma_pow256_positive((b - 1) as nat);
        assert(p <= 256 * p) by (nonlinear_arith)
            requires
                p >= 1,
        ;
    }
}

proof fn lemma_pow256_positive(k: nat)
    ensures
        pow256(k) >= 1,
    decreases k,
{
    if k > 0 {
        lemma_pow256_positive((k - 1) as nat);
    }
}

/// The block height encoded in the leading bytes of a block hash.
pub fn block_height_of(bytes: &Vec<u8>) -> (r: u64)
    ensures
        r == block_height_spec(bytes@),
{
    let lim: usize = if bytes.len() < 8 {
        bytes.len()
    } else {
        8
    };
    let mut acc: u64 = 0;
    let mut i: usize = 0;
    while i < lim
        invariant
            i <= lim,
            lim == (if bytes@.len() < 8 {
                bytes@.len() as int
            } else {
                8
            }),
            lim <= bytes@.len(),
            acc == be_prefix_val(bytes@, i as int),
        decreases lim - i,
    {
        proof {
            lemma_be_prefix_bound(bytes@, i as int);
            lemma_pow256_increases(i as nat, 7);
            lemma_pow256_values();
        }
        acc = acc * 256 + (bytes[i] as u64);
        i = i + 1;
    }
    acc
}

/// The deployment transaction's facts were taken from its outcome as they
/// stand: hash and gas echoed, height derived from the block hash.
pub open spec fn deployed_info_of(o: CommitOutcome, d: DeployedInfo) -> bool {
    &&& d.transaction_hash@ == o.transaction_hash@
    &&& d.gas_burnt == o.tx_gas_burnt
    &&& d.block_height == block_height_spec(o.tx_block_hash@)
}

/// The plan that creates, keys and funds the subaccount, signed by the
/// parent: create the account, add the single reused key with full access,
/// and transfer the bootstrap deposit, in that order.
pub open spec fn is_create_plan(params: DeployParams, nonce: u64, bh: Seq<u8>, p: TxPlanView)
    -> bool {
    &&& p.signer_id == params.parent@
    &&& p.public_key == params.public_key@
    &&& p.nonce == nonce
    &&& p.receiver_id == params.subaccount@
    &&& p.block_hash == bh
    &&& p.actions == seq![
        TxActionView::CreateAccount,
        TxActionView::AddFullAccessKey { public_key: params.public_key@ },
        TxActionView::Transfer { deposit: CREATE_ACCOUNT_DEPOSIT },
    ]
}

/// The single-action plan that installs the bytecode, signed by the
/// subaccount itself with the same reused key.
pub open spec fn is_deploy_plan(params: DeployParams, nonce: u64, bh: Seq<u8>, p: TxPlanView)
    -> bool {
    &&& p.signer_id == params.subaccount@
    &&& p.public_key == params.public_key@
    &&& p.nonce == nonce
    &&& p.receiver_id == params.subaccount@
    &&& p.block_hash == bh
    &&& p.actions == seq![TxActionView::DeployContract { code: params.code@ }]
}

/// The single-action proof-of-deployment transfer from the subaccount back
/// to the parent.
pub open spec fn is_proof_plan(params: DeployParams, nonce: u64, bh: Seq<u8>, p: TxPlanView)
    -> bool {
    &&& p.signer_id == params.subaccount@
    &&& p.public_key == params.public_key@
    &&& p.nonce == nonce
    &&& p.receiver_id == params.parent@
    &&& p.block_hash == bh
    &&& p.actions == seq![TxActionView::Transfer { deposit: PROOF_TRANSFER_DEPOSIT }]
}

/// The successful response assembled from a deployment's facts: hash and
/// derived height echoed, gas rendered in Tgas, the explorer link built
/// from the hash, and the proof transfer hash only if one committed.
pub open spec fn deploy_response_ok(
    params: DeployParams,
    d: DeployedInfo,
    proof_hash: Option<String>,
    resp: DeployResponse,
) -> bool {
    &&& resp.success == true
    &&& resp.transaction_hash@ == d.transaction_hash@
    &&& resp.contract_id@ == params.subaccount@
    &&& resp.explorer_url@ == "https://testnet.nearblocks.io/txns/"@ + d.transaction_hash@
    &&& resp.gas_used matches Some(g) && g@ == tgas_rep(d.gas_burnt as nat)
    &&& match (proof_hash, resp.proof_tx_hash) {
        (Some(a), Some(b)) => a@ == b@,
        (None, None) => true,
        _ => false,
    }
    &&& resp.details.network@ == "testnet"@
    &&& resp.details.block_height == d.block_height
    &&& resp.details.timestamp == params.timestamp
    &&& resp.details.deployer_account@ == params.parent@
}

fn make_deploy_response(params: &DeployParams, d: &DeployedInfo, proof_hash: Option<String>) -> (r:
    DeployResponse)
    ensures
        deploy_response_ok(*params, *d, proof_hash, r),
{
    let mut explorer_url = "https://testnet.nearblocks.io/txns/".to_owned();
    explorer_url.append(d.transaction_hash.as_str());
    DeployResponse {
        success: true,
        transaction_hash: d.transaction_hash.clone(),
        contract_id: params.subaccount.to_text(),
        explorer_url,
        gas_used: Some(format_tgas(d.gas_burnt)),
        proof_tx_hash: proof_hash,
        details: DeployDetails {
            network: "testnet".to_owned(),
            block_height: d.block_height,
            timestamp: params.timestamp,
            deployer_account: params.parent.to_text(),
        },
    }
}

/// Relies on chrono::Utc::now and DateTime::timestamp for the current time
/// in seconds since the epoch; nothing is promised of the value.
#[verifier::external_body]
pub fn now_unix() -> i64 {
    chrono::Utc::now().timestamp()
}

/// The timestamp used inside a derived name: the clock's seconds, with
/// pre-epoch readings flattened to zero.
pub open spec fn name_timestamp(ts: i64) -> nat {
    if ts < 0 {
        0nat
    } else {
        ts as nat
    }
}

/// Starts a deployment: validates the parent account, derives the
/// timestamped subaccount, and asks first whether that subaccount already
/// exists. No transaction is built before the answer arrives.
pub fn start_deploy(
    parent_text: &str,
    user_id: &str,
    project_id: &str,
    timestamp: i64,
    public_key: String,
    code: Vec<u8>,
) -> (r: Result<(DeployParams, DeployPhase, DeployAction), DeployError>)
    ensures
        !crate::account::valid_account_seq(parent_text@) <==> r matches Err(
            DeployError::ParentInvalid,
        ),
        crate::account::valid_account_seq(parent_text@) && !crate::account::valid_account_seq(
            subaccount_seq(user_id@, project_id@, name_timestamp(timestamp), parent_text@),
        ) <==> r matches Err(DeployError::SubaccountInvalid { .. }),
        r matches Err(e) ==> (e is ParentInvalid || e is SubaccountInvalid),
        r matches Err(DeployError::SubaccountInvalid { composed }) ==> composed@
            == subaccount_seq(
            user_id@,
            project_id@,
            name_timestamp(timestamp),
            parent_text@,
        ) && !crate::account::valid_account_seq(composed@),
        r matches Ok((params, phase, action)) ==> {
            &&& params.parent@ == parent_text@
            &&& params.subaccount@ == subaccount_seq(
                user_id@,
                project_id@,
                name_timestamp(timestamp),
                parent_text@,
            )
            &&& params.subaccount.wf()
            &&& params.public_key == public_key
            &&& params.code == code
            &&& params.timestamp == timestamp
            &&& phase is CheckingAccount
            &&& action matches DeployAction::CheckAccount { account } && account@
                == params.subaccount@
        },
{
    let parent = match AccountId::parse(parent_text) {
        Some(p) => p,
        None => {
            return Err(DeployError::ParentInvalid);
        },
    };
    let ts: u64 = if timestamp < 0 {
        0
    } else {
        timestamp as u64
    };
    let composed = crate::account::compose_subaccount_text(user_id, project_id, ts, &parent);
    let subaccount = match AccountId::parse(composed.as_str()) {
        Some(s) => s,
        None => {
            return Err(DeployError::SubaccountInvalid { composed });
        },
    };
    let account_text = subaccount.to_text();
    Ok(
        (
            DeployParams { parent, public_key, subaccount, code, timestamp },
            DeployPhase::CheckingAccount,
            DeployAction::CheckAccount { account: account_text },
        ),
    )
}

/// Everything a single step guarantees, as a relation between the state
/// and event consumed and the state and action produced.
pub open spec fn deploy_step_post(
    params: DeployParams,
    phase: DeployPhase,
    event: DeployEvent,
    r: (DeployPhase, DeployAction),
) -> bool {
    &&& phase is CheckingAccount ==> {
        &&& event matches DeployEvent::AccountChecked { exists } ==> {
            &&& exists ==> (finished_err(r) matches Some(
                DeployError::PreexistingAccount { subaccount },
            ) && subaccount@ == params.subaccount@)
            &&& !exists ==> r.0 is PreparingCreate && (r.1 matches DeployAction::FetchContext {
                account,
            } && account@ == params.parent@)
        }
        &&& !(event is AccountChecked) ==> (finished_err(r) matches Some(
            DeployError::UnexpectedEvent,
        ))
    }
    &&& phase is PreparingCreate ==> {
        &&& event matches DeployEvent::Context { nonce, block_hash } ==> {
            &&& nonce < u64::MAX ==> r.0 is AwaitingCreate && (r.1 matches
            DeployAction::Broadcast { plan } && is_create_plan(
                params,
                (nonce + 1) as u64,
                block_hash@,
                plan@,
            ))
            &&& nonce == u64::MAX ==> (finished_err(r) matches Some(DeployError::NonceOverflow))
        }
        &&& event matches DeployEvent::ContextFailed { message } ==> (finished_err(r) matches Some(
            DeployError::CreateContextFailed { message: m },
        ) && m@ == message@)
        &&& !(event is Context) && !(event is ContextFailed) ==> (finished_err(r) matches Some(
            DeployError::UnexpectedEvent,
        ))
    }
    &&& phase is AwaitingCreate ==> {
        &&& event is Committed ==> r.0 is PreparingDeploy && (r.1 matches
        DeployAction::FetchContext { account } && account@ == params.subaccount@)
        &&& event matches DeployEvent::Rejected { message } ==> (finished_err(r) matches Some(
            DeployError::CreateRejected { message: m },
        ) && m@ == message@)
        &&& !(event is Committed) && !(event is Rejected) ==> (finished_err(r) matches Some(
            DeployError::UnexpectedEvent,
        ))
    }
    &&& phase is PreparingDeploy ==> {
        &&& event matches DeployEvent::Context { nonce, block_hash } ==> {
            &&& nonce < u64::MAX ==> r.0 is AwaitingDeploy && (r.1 matches
            DeployAction::Broadcast { plan } && is_deploy_plan(
                params,
                (nonce + 1) as u64,
                block_hash@,
                plan@,
            ))
            &&& nonce == u64::MAX ==> (finished_err(r) matches Some(DeployError::NonceOverflow))
        }
        &&& event matches DeployEvent::ContextFailed { message } ==> (finished_err(r) matches Some(
            DeployError::DeployContextFailed { message: m },
        ) && m@ == message@)
        &&& !(event is Context) && !(event is ContextFailed) ==> (finished_err(r) matches Some(
            DeployError::UnexpectedEvent,
        ))
    }
    &&& phase is AwaitingDeploy ==> {
        &&& event matches DeployEvent::Committed { outcome } ==> (r.0 matches
        DeployPhase::PreparingProof { deployed } && deployed_info_of(outcome, deployed)) && (r.1
        matches DeployAction::FetchContext { account } && account@ == params.subaccount@)
        &&& event matches DeployEvent::Rejected { message } ==> (finished_err(r) matches Some(
            DeployError::DeployRejected { message: m },
        ) && m@ == message@)
        &&& !(event is Committed) && !(event is Rejected) ==> (finished_err(r) matches Some(
            DeployError::UnexpectedEvent,
        ))
    }
    &&& phase matches DeployPhase::PreparingProof { deployed } ==> {
        &&& event matches DeployEvent::Context { nonce, block_hash } ==> {
            &&& nonce < u64::MAX ==> (r.0 matches DeployPhase::AwaitingProof { deployed: d2 } && d2
                == deployed) && (r.1 matches DeployAction::Broadcast { plan } && is_proof_plan(
                params,
                (nonce + 1) as u64,
                block_hash@,
                plan@,
            ))
            &&& nonce == u64::MAX ==> finished_ok_no_proof(params, deployed, r)
        }
        &&& event is ContextFailed ==> finished_ok_no_proof(params, deployed, r)
        &&& !(event is Context) && !(event is ContextFailed) ==> (finished_err(r) matches Some(
            DeployError::UnexpectedEvent,
        ))
    }
    &&& phase matches DeployPhase::AwaitingProof { deployed } ==> {
        &&& event matches DeployEvent::Committed { outcome } ==> (r.0 matches
        DeployPhase::Finished { result } && result matches Ok(resp) && deploy_response_ok(
            params,
            deployed,
            Some(outcome.transaction_hash),
            resp,
        ) && r.1 is Finish)
        &&& event is Rejected ==> finished_ok_no_proof(params, deployed, r)
        &&& !(event is Committed) && !(event is Rejected) ==> (finished_err(r) matches Some(
            DeployError::UnexpectedEvent,
        ))
    }
    &&& phase matches DeployPhase::Finished { result } ==> (r.0 matches DeployPhase::Finished {
        result: kept,
    } && kept == result && r.1 is Finish)
}

/// The step ended the flow with this error and asked for nothing.
pub open spec fn finished_err(r: (DeployPhase, DeployAction)) -> Option<DeployError> {
    match r.0 {
        DeployPhase::Finished { result: Err(e) } => if r.1 is Finish {
            Some(e)
        } else {
            None
        },
        _ => None,
    }
}

/// The step ended the flow successfully, without a proof transfer hash,
/// and asked for nothing.
pub open spec fn finished_ok_no_proof(
    params: DeployParams,
    deployed: DeployedInfo,
    r: (DeployPhase, DeployAction),
) -> bool {
    &&& r.0 matches DeployPhase::Finished { result } && result matches Ok(resp)
        && deploy_response_ok(params, deployed, None, resp)
    &&& r.1 is Finish
}

/// Advances the flow by one event. Every transition's effect is stated
/// exactly; events a state cannot consume end the flow with an error, and
/// a finished flow stays finished and never asks for anything more.
pub fn deploy_step(params: &DeployParams, phase: DeployPhase, event: DeployEvent) -> (r: (
    DeployPhase,
    DeployAction,
))
    ensures
        deploy_step_post(*params, phase, event, r),
{
    match phase {
        DeployPhase::CheckingAccount => match event {
            DeployEvent::AccountChecked { exists } => {
                if exists {
                    (
                        DeployPhase::Finished {
                            result: Err(
                                DeployError::PreexistingAccount {
                                    subaccount: params.subaccount.to_text(),
                                },
                            ),
                        },
                        DeployAction::Finish,
                    )
                } else {
                    (
                        DeployPhase::PreparingCreate,
                        DeployAction::FetchContext { account: params.parent.to_text() },
                    )
                }
            },
            _ => unexpected(),
        },
        DeployPhase::PreparingCreate => match event {
            DeployEvent::Context { nonce, block_hash } => {
                if nonce < u64::MAX {
                    let mut actions: Vec<TxAction> = Vec::new();
                    actions.push(TxAction::CreateAccount);
                    actions.push(
                        TxAction::AddFullAccessKey { public_key: params.public_key.clone() },
                    );
                    actions.push(TxAction::Transfer { deposit: CREATE_ACCOUNT_DEPOSIT });
                    let plan = TxPlan {
                        signer_id: params.parent.duplicate(),
                        public_key: params.public_key.clone(),
                        nonce: nonce + 1,
                        receiver_id: params.subaccount.duplicate(),
                        block_hash,
                        actions,
                    };
                    proof {
                        assert(plan@.actions =~= seq![
                            TxActionView::CreateAccount,
                            TxActionView::AddFullAccessKey { public_key: params.public_key@ },
                            TxActionView::Transfer { deposit: CREATE_ACCOUNT_DEPOSIT },
                        ]);
                    }
                    (DeployPhase::AwaitingCreate, DeployAction::Broadcast { plan })
                } else {
                    (
                        DeployPhase::Finished { result: Err(DeployError::NonceOverflow) },
                        DeployAction::Finish,
                    )
                }
            },
            DeployEvent::ContextFailed { message } => {
                (
                    DeployPhase::Finished {
                        result: Err(DeployError::CreateContextFailed { message }),
                    },
                    DeployAction::Finish,
                )
            },
            _ => unexpected(),
        },
        DeployPhase::AwaitingCreate => match event {
            DeployEvent::Committed { .. } => {
                (
                    DeployPhase::PreparingDeploy,
                    DeployAction::FetchContext { account: params.subaccount.to_text() },
                )
            },
            DeployEvent::Rejected { message } => {
                (
                    DeployPhase::Finished { result: Err(DeployError::CreateRejected { message }) },
                    DeployAction::Finish,
                )
            },
            _ => unexpected(),
        },
        DeployPhase::PreparingDeploy => match event {
            DeployEvent::Context { nonce, block_hash } => {
                if nonce < u64::MAX {
                    let mut actions: Vec<TxAction> = Vec::new();
                    actions.push(TxAction::DeployContract { code: params.code.clone() });
                    let plan = TxPlan {
                        signer_id: params.subaccount.duplicate(),
                        public_key: params.public_key.clone(),
                        nonce: nonce + 1,
                        receiver_id: params.subaccount.duplicate(),
                        block_hash,
                        actions,
                    };
                    proof {
                        assert(plan@.actions =~= seq![
                            TxActionView::DeployContract { code: params.code@ },
                        ]);
                    }
                    (DeployPhase::AwaitingDeploy, DeployAction::Broadcast { plan })
                } else {
                    (
                        DeployPhase::Finished { result: Err(DeployError::NonceOverflow) },
                        DeployAction::Finish,
                    )
                }
            },
            DeployEvent::ContextFailed { message } => {
                (
                    DeployPhase::Finished {
                        result: Err(DeployError::DeployContextFailed { message }),
                    },
                    DeployAction::Finish,
                )
            },
            _ => unexpected(),
        },
        DeployPhase::AwaitingDeploy => match event {
            DeployEvent::Committed { outcome } => {
                let deployed = DeployedInfo {
                    transaction_hash: outcome.transaction_hash,
                    gas_burnt: outcome.tx_gas_burnt,
                    block_height: block_height_of(&outcome.tx_block_hash),
                };
                (
                    DeployPhase::PreparingProof { deployed },
                    DeployAction::FetchContext { account: params.subaccount.to_text() },
                )
            },
            DeployEvent::Rejected { message } => {
                (
                    DeployPhase::Finished { result: Err(DeployError::DeployRejected { message }) },
                    DeployAction::Finish,
                )
            },
            _ => unexpected(),
        },
        DeployPhase::PreparingProof { deployed } => match event {
            DeployEvent::Context { nonce, block_hash } => {
                if nonce < u64::MAX {
                    let mut actions: Vec<TxAction> = Vec::new();
                    actions.push(TxAction::Transfer { deposit: PROOF_TRANSFER_DEPOSIT });
                    let plan = TxPlan {
                        signer_id: params.subaccount.duplicate(),
                        public_key: params.public_key.clone(),
                        nonce: nonce + 1,
                        receiver_id: params.parent.duplicate(),
                        block_hash,
                        actions,
                    };
                    proof {
                        assert(plan@.actions =~= seq![
                            TxActionView::Transfer { deposit: PROOF_TRANSFER_DEPOSIT },
                        ]);
                    }
                    (DeployPhase::AwaitingProof { deployed }, DeployAction::Broadcast { plan })
                } else {
                    let resp = make_deploy_response(params, &deployed, None);
                    (DeployPhase::Finished { result: Ok(resp) }, DeployAction::Finish)
                }
            },
            DeployEvent::ContextFailed { .. } => {
                let resp = make_deploy_response(params, &deployed, None);
                (DeployPhase::Finished { result: Ok(resp) }, DeployAction::Finish)
            },
            _ => unexpected(),
        },
        DeployPhase::AwaitingProof { deployed } => match event {
            DeployEvent::Committed { outcome } => {
                let resp = make_deploy_response(params, &deployed, Some(outcome.transaction_hash));
                (DeployPhase::Finished { result: Ok(resp) }, DeployAction::Finish)
            },
            DeployEvent::Rejected { .. } => {
                let resp = make_deploy_response(params, &deployed, None);
                (DeployPhase::Finished { result: Ok(resp) }, DeployAction::Finish)
            },
            _ => unexpected(),
        },
        DeployPhase::Finished { result } => {
            (DeployPhase::Finished { result }, DeployAction::Finish)
        },
    }
}

fn unexpected() -> (r: (DeployPhase, DeployAction))
    ensures
        r.0 matches DeployPhase::Finished { result } && result matches Err(
            DeployError::UnexpectedEvent,
        ),
        r.1 is Finish,
{
    (DeployPhase::Finished { result: Err(DeployError::UnexpectedEvent) }, DeployAction::Finish)
}

/// When the subaccount is reported as already existing, the flow ends at
/// once in the pre-existing-account rejection, and the step asks for
/// nothing: no context is fetched and no transaction is built or
/// broadcast.
pub proof fn lemma_preexisting_account_terminal(
    params: DeployParams,
    phase: DeployPhase,
    event: DeployEvent,
    r: (DeployPhase, DeployAction),
)
    requires
        phase is CheckingAccount,
        event matches DeployEvent::AccountChecked { exists } && exists,
        deploy_step_post(params, phase, event, r),
    ensures
        r.0 matches DeployPhase::Finished { result } && result matches Err(
            DeployError::PreexistingAccount { subaccount },
        ) && subaccount@ == params.subaccount@,
        !(r.1 is Broadcast),
        !(r.1 is FetchContext),
        !(r.1 is CheckAccount),
{
}

/// Once the flow is finished it stays finished with the same result, and
/// no further step asks for a network action: a terminal failure can never
/// lead to a later transaction.
pub proof fn lemma_finished_is_absorbing(
    params: DeployParams,
    phase: DeployPhase,
    event: DeployEvent,
    r: (DeployPhase, DeployAction),
)
    requires
        phase is Finished,
        deploy_step_post(params, phase, event, r),
    ensures
        r.0 matches DeployPhase::Finished { result: kept } && (phase matches DeployPhase::Finished {
            result,
        } ==> kept == result),
        r.1 is Finish,
{
}

/// If the deployment transaction committed but the proof transfer then
/// failed — its context could not be fetched, its nonce left no room, or
/// its broadcast was rejected — the deployment still reports overall
/// success, with no proof transfer hash in the response.
pub proof fn lemma_proof_failure_still_success(
    params: DeployParams,
    phase: DeployPhase,
    event: DeployEvent,
    r: (DeployPhase, DeployAction),
)
    requires
        deploy_step_post(params, phase, event, r),
        (phase matches DeployPhase::PreparingProof { .. } && (event matches
        DeployEvent::ContextFailed { .. } || (event matches DeployEvent::Context { nonce, .. }
            && nonce == u64::MAX))) || (phase matches DeployPhase::AwaitingProof { .. } && event
            matches DeployEvent::Rejected { .. }),
    ensures
        r.0 matches DeployPhase::Finished { result } && result matches Ok(resp)
            && resp.success == true && resp.proof_tx_hash is None,
        r.1 is Finish,
{
    if let DeployPhase::PreparingProof { deployed } = phase {
        assert(r.0 matches DeployPhase::Finished { result } && result matches Ok(resp)
            && deploy_response_ok(params, deployed, None, resp));
    }
    if let DeployPhase::AwaitingProof { deployed } = phase {
        assert(r.0 matches DeployPhase::Finished { result } && result matches Ok(resp)
            && deploy_response_ok(params, deployed, None, resp));
    }
}

} // verus!
