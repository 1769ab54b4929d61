//! Unsigned transaction plans and their signing. A plan holds signer,
//! key, nonce, receiver, recent block hash and the ordered action list;
//! signing serializes the plan canonically, signs the serialization with
//! the secret key, and yields the transmittable signed transaction bytes.

use vstd::prelude::*;

use crate::account::{valid_account_seq, AccountId};
use near_crypto::InMemorySigner;
use near_primitives::hash::CryptoHash;
use near_primitives::transaction::{
    Action, AddKeyAction, CreateAccountAction, DeployContractAction, FunctionCallAction,
    SignedTransaction, Transaction, TransactionV0, TransferAction,
};

verus! {

/// One transaction action, in the order the ledger applies them.
pub enum TxAction {
    /// Create the receiver account.
    CreateAccount,
    /// Grant the receiver a full-access key.
    AddFullAccessKey { public_key: String },
    /// Move `deposit` smallest currency units to the receiver.
    Transfer { deposit: u128 },
    /// Install program bytecode on the receiver.
    DeployContract { code: Vec<u8> },
    /// Call a method of the receiver's program.
    FunctionCall { method_name: String, args: Vec<u8>, gas: u64, deposit: u128 },
}

/// Mathematical value of one action.
pub enum TxActionView {
    CreateAccount,
    AddFullAccessKey { public_key: Seq<char> },
    Transfer { deposit: u128 },
    DeployContract { code: Seq<u8> },
    FunctionCall { method_name: Seq<char>, args: Seq<u8>, gas: u64, deposit: u128 },
}

impl View for TxAction {
    type V = TxActionView;

    open spec fn view(&self) -> TxActionView {
        match self {
            TxAction::CreateAccount => TxActionView::CreateAccount,
            TxAction::AddFullAccessKey { public_key } => TxActionView::AddFullAccessKey {
                public_key: public_key@,
            },
            TxAction::Transfer { deposit } => TxActionView::Transfer { deposit: *deposit },
            TxAction::DeployContract { code } => TxActionView::DeployContract { code: code@ },
            TxAction::FunctionCall { method_name, args, gas, deposit } => {
                TxActionView::FunctionCall {
                    method_name: method_name@,
                    args: args@,
                    gas: *gas,
                    deposit: *deposit,
                }
            },
        }
    }
}

/// An unsigned transaction: who signs with which key and nonce, who
/// receives, on which recent block it stands, and what it does.
pub struct TxPlan {
    pub signer_id: AccountId,
    pub public_key: String,
    pub nonce: u64,
    pub receiver_id: AccountId,
    pub block_hash: Vec<u8>,
    pub actions: Vec<TxAction>,
}

/// Mathematical value of an unsigned transaction.
pub struct TxPlanView {
    pub signer_id: Seq<char>,
    pub public_key: Seq<char>,
    pub nonce: u64,
    pub receiver_id: Seq<char>,
    pub block_hash: Seq<u8>,
    pub actions: Seq<TxActionView>,
}

impl View for TxPlan {
    type V = TxPlanView;

    open spec fn view(&self) -> TxPlanView {
        TxPlanView {
            signer_id: self.signer_id@,
            public_key: self.public_key@,
            nonce: self.nonce,
            receiver_id: self.receiver_id@,
            block_hash: self.block_hash@,
            actions: actions_view(self.actions@),
        }
    }
}

/// The action views of an action sequence, in order.
pub open spec fn actions_view(s: Seq<TxAction>) -> Seq<TxActionView> {
    s.map_values(|a: TxAction| a@)
}

/// The serialized footprint this crate bounds for one action: one byte
/// for the action's tag, plus its variable-length payloads — bytecode,
/// argument bytes, and each method-name character counted at the UTF-8
/// maximum width of four bytes.
pub open spec fn action_payload_size(a: TxActionView) -> int {
    1 + match a {
        TxActionView::DeployContract { code } => code.len() as int,
        TxActionView::FunctionCall { method_name, args, .. } => 4 * (method_name.len() as int)
            + args.len(),
        _ => 0,
    }
}

/// The bounded footprint of a whole action sequence.
pub open spec fn total_payload_size(actions: Seq<TxActionView>) -> int
    decreases actions.len(),
{
    if actions.len() == 0 {
        0
    } else {
        total_payload_size(actions.drop_last()) + action_payload_size(actions.last())
    }
}

/// A plan that a signer can sign: well-formed account names, a key text
/// the key parser accepts, a block hash of the expected width, and
/// payloads small enough for the canonical serialization, which writes
/// every variable-length field and the action count behind a 32-bit
/// length and refuses anything larger.
pub open spec fn plan_signable(p: TxPlanView) -> bool {
    &&& valid_account_seq(p.signer_id)
    &&& valid_account_seq(p.receiver_id)
    &&& is_valid_public_key(p.public_key)
    &&& p.block_hash.len() == 32
    &&& forall|i: int|
        0 <= i < p.actions.len() ==> (#[trigger] p.actions[i] matches
        TxActionView::AddFullAccessKey { public_key } ==> is_valid_public_key(public_key))
    &&& total_payload_size(p.actions) < u32::MAX
}

/// An action's bounded footprint is at least its tag byte.
proof fn lemma_action_payload_size_positive(a: TxActionView)
    ensures
        action_payload_size(a) >= 1,
{
}

/// A prefix of an action sequence never outweighs the whole sequence.
proof fn lemma_payload_prefix_bound(actions: Seq<TxActionView>, i: int)
    requires
        0 <= i <= actions.len(),
    ensures
        total_payload_size(actions.subrange(0, i)) <= total_payload_size(actions),
    decreases actions.len() - i,
{
    if i < actions.len() {
        lemma_payload_prefix_bound(actions, i + 1);
        assert(actions.subrange(0, i + 1).drop_last() =~= actions.subrange(0, i));
        assert(actions.subrange(0, i + 1).last() == actions[i]);
        lemma_action_payload_size_positive(actions[i]);
    } else {
        assert(actions.subrange(0, i) =~= actions);
    }
}

/// Whether the text parses as a secret key whose signing operation is
/// total: the key parser accepts it and, for a key of the common curve,
/// the stored key pair halves are consistent with each other.
pub uninterp spec fn is_valid_secret_key(s: Seq<char>) -> bool;

/// Whether the text parses as a public key.
pub uninterp spec fn is_valid_public_key(s: Seq<char>) -> bool;

/// The public key text derived from a secret key text.
pub uninterp spec fn public_key_text_of(secret: Seq<char>) -> Seq<char>;

/// The canonical signed-transaction serialization produced for a plan and
/// a secret key: a function of the two alone, the same on every call.
pub uninterp spec fn signed_tx_bytes(p: TxPlanView, secret: Seq<char>) -> Seq<u8>;

/// Relies on near_crypto::SecretKey::from_str and
/// ed25519_dalek::SigningKey::from_keypair_bytes: together they accept
/// exactly the key texts of the two classical curves on which
/// near_crypto's signing is total and deterministic — signing an ed25519
/// key re-parses the stored key pair with the latter, so the pair's halves
/// must agree. Keys of other kinds are not accepted: their signing is
/// randomized, so nothing could be promised of the produced bytes.
#[verifier::external_body]
pub fn validate_secret_key(s: &str) -> (r: bool)
    ensures
        r == is_valid_secret_key(s@),
{
    match s.parse::<near_crypto::SecretKey>() {
        Ok(near_crypto::SecretKey::ED25519(k)) => {
            ed25519_dalek::SigningKey::from_keypair_bytes(&k.0).is_ok()
        },
        Ok(near_crypto::SecretKey::SECP256K1(_)) => true,
        Ok(_) => false,
        Err(_) => false,
    }
}

/// Relies on near_crypto::PublicKey::from_str: it accepts exactly the
/// texts that name a public key.
#[verifier::external_body]
pub fn validate_public_key(s: &str) -> (r: bool)
    ensures
        r == is_valid_public_key(s@),
{
    s.parse::<near_crypto::PublicKey>().is_ok()
}

/// Relies on near_crypto::SecretKey::public_key and the Display and
/// FromStr of near_crypto::PublicKey: the derived public key depends on
/// the secret key alone, and its text parses back as a public key.
#[verifier::external_body]
pub fn derive_public_key(s: &str) -> (r: String)
    requires
        is_valid_secret_key(s@),
    ensures
        r@ == public_key_text_of(s@),
        is_valid_public_key(r@),
{
    let key: near_crypto::SecretKey = s.parse().unwrap();
    key.public_key().to_string()
}

/// Derives the public key text for a secret key text, validating the
/// secret first: `None` exactly when the key text does not pass
/// validation, the derived text otherwise.
pub fn derive_public_key_checked(s: &str) -> (r: Option<String>)
    ensures
        r is Some <==> is_valid_secret_key(s@),
        r matches Some(t) ==> t@ == public_key_text_of(s@) && is_valid_public_key(t@),
{
    if validate_secret_key(s) {
        Some(derive_public_key(s))
    } else {
        None
    }
}

/// The ledger's action type, carried opaquely between the converting and
/// signing trusted items.
#[verifier::external_type_specification]
#[verifier::external_body]
pub struct ExNearAction(Action);

/// Relies on near_primitives::transaction::CreateAccountAction: the
/// account-creating action carries no data.
#[verifier::external_body]
fn near_create_account() -> Action {
    Action::CreateAccount(CreateAccountAction {})
}

/// Relies on near_primitives::transaction::AddKeyAction and
/// near_crypto::PublicKey::from_str: the key text is parsed and paired
/// with a fresh full-access permission.
#[verifier::external_body]
fn near_add_full_access_key(public_key: &str) -> Action
    requires
        is_valid_public_key(public_key@),
{
    Action::AddKey(Box::new(AddKeyAction {
        public_key: public_key.parse().unwrap(),
        access_key: near_primitives::account::AccessKey {
            nonce: 0,
            permission: near_primitives::account::AccessKeyPermission::FullAccess,
        },
    }))
}

/// Relies on near_primitives::transaction::TransferAction: the deposit is
/// carried over unchanged, in the chain's smallest currency unit.
#[verifier::external_body]
fn near_transfer(deposit: u128) -> Action {
    Action::Transfer(TransferAction {
        deposit: near_primitives::types::Balance::from_yoctonear(deposit),
    })
}

/// Relies on near_primitives::transaction::DeployContractAction: the
/// bytecode is carried over unchanged.
#[verifier::external_body]
fn near_deploy_contract(code: &Vec<u8>) -> Action {
    Action::DeployContract(DeployContractAction { code: code.clone() })
}

/// Relies on near_primitives::transaction::FunctionCallAction: method
/// name, argument bytes, gas and deposit are carried over unchanged.
#[verifier::external_body]
fn near_function_call(method_name: &str, args: &Vec<u8>, gas: u64, deposit: u128) -> Action {
    Action::FunctionCall(Box::new(FunctionCallAction {
        method_name: method_name.to_string(),
        args: args.clone(),
        gas: near_primitives::types::Gas::from_gas(gas),
        deposit: near_primitives::types::Balance::from_yoctonear(deposit),
    }))
}

fn to_near_action(a: &TxAction) -> Action
    requires
        a@ matches TxActionView::AddFullAccessKey { public_key } ==> is_valid_public_key(
            public_key,
        ),
{
    match a {
        TxAction::CreateAccount => near_create_account(),
        TxAction::AddFullAccessKey { public_key } => near_add_full_access_key(
            public_key.as_str(),
        ),
        TxAction::Transfer { deposit } => near_transfer(*deposit),
        TxAction::DeployContract { code } => near_deploy_contract(code),
        TxAction::FunctionCall { method_name, args, gas, deposit } => near_function_call(
            method_name.as_str(),
            args,
            *gas,
            *deposit,
        ),
    }
}

/// Relies on near_primitives::transaction::{TransactionV0, Transaction::
/// get_hash_and_size, SignedTransaction::new}, near_crypto::InMemorySigner
/// ::from_secret_key and Signer::sign, and borsh::to_vec: assembling,
/// hashing, signing (deterministic for the two accepted key kinds: plain
/// ed25519 and deterministic-nonce recoverable ECDSA) and serializing
/// depend on the plan and key alone. The serializer writes every
/// variable-length field and the action count behind a 32-bit length and
/// errors above it; the payload bound in the requires keeps every such
/// length below that limit, so serialization cannot fail here.
#[verifier::external_body]
fn sign_plan(plan: &TxPlan, secret: &str) -> (r: Vec<u8>)
    requires
        is_valid_secret_key(secret@),
        plan_signable(plan@),
    ensures
        r@ == signed_tx_bytes(plan@, secret@),
{
    let secret_key: near_crypto::SecretKey = secret.parse().unwrap();
    let signer_id: near_primitives::types::AccountId = plan.signer_id.as_text().parse().unwrap();
    let tx = Transaction::V0(TransactionV0 {
        signer_id: signer_id.clone(),
        public_key: plan.public_key.parse().unwrap(),
        nonce: plan.nonce,
        receiver_id: plan.receiver_id.as_text().parse().unwrap(),
        block_hash: CryptoHash(plan.block_hash.clone().try_into().unwrap()),
        actions: plan.actions.iter().map(to_near_action).collect(),
    });
    let signer = InMemorySigner::from_secret_key(signer_id, secret_key);
    let signature = signer.sign(tx.get_hash_and_size().0.as_ref());
    borsh::to_vec(&SignedTransaction::new(signature, tx)).unwrap()
}

/// Signs a plan with the given secret key and returns the transmittable
/// signed transaction bytes. The result is `None` exactly when the key
/// text or the plan's key and account texts do not pass validation, or
/// the plan's payloads reach the serializer's 32-bit length limit; a
/// signable plan with a valid key is always signed.
pub fn sign_transaction(plan: &TxPlan, secret: &str) -> (r: Option<Vec<u8>>)
    ensures
        r is Some <==> is_valid_secret_key(secret@) && plan_signable(plan@),
        r matches Some(b) ==> b@ == signed_tx_bytes(plan@, secret@),
{
    if !validate_secret_key(secret) {
        return None;
    }
    if !validate_account_plan(plan) {
        return None;
    }
    Some(sign_plan(plan, secret))
}

fn validate_account_plan(plan: &TxPlan) -> (r: bool)
    ensures
        r == plan_signable(plan@),
{
    if !crate::account::validate_account_text(plan.signer_id.as_text()) {
        return false;
    }
    if !crate::account::validate_account_text(plan.receiver_id.as_text()) {
        return false;
    }
    if !validate_public_key(plan.public_key.as_str()) {
        return false;
    }
    if plan.block_hash.len() != 32 {
        return false;
    }
    let n = plan.actions.len();
    let mut total: u64 = 0;
    let mut i: usize = 0;
    while i < n
        invariant
            i <= n,
            n == plan.actions@.len(),
            valid_account_seq(plan.signer_id@),
            valid_account_seq(plan.receiver_id@),
            is_valid_public_key(plan.public_key@),
            plan.block_hash@.len() == 32,
            forall|j: int|
                0 <= j < i ==> (#[trigger] actions_view(plan.actions@)[j] matches
                TxActionView::AddFullAccessKey { public_key } ==> is_valid_public_key(public_key)),
            total == total_payload_size(actions_view(plan.actions@).subrange(0, i as int)),
            total < u32::MAX,
        decreases n - i,
    {
        let a = &plan.actions[i];
        proof {
            assert(actions_view(plan.actions@)[i as int] == plan.actions@[i as int]@);
        }
        let size_wide: u128 = match a {
            TxAction::AddFullAccessKey { public_key } => {
                if !validate_public_key(public_key.as_str()) {
                    proof {
                        assert(!plan_signable(plan@));
                    }
                    return false;
                }
                1
            },
            TxAction::DeployContract { code } => 1 + code.len() as u128,
            TxAction::FunctionCall { method_name, args, .. } => {
                1 + 4 * (method_name.as_str().unicode_len() as u128) + (args.len() as u128)
            },
            _ => 1,
        };
        proof {
            assert(size_wide == action_payload_size(actions_view(plan.actions@)[i as int]));
        }
        if (total as u128) + size_wide >= (u32::MAX as u128) {
            proof {
                let av = actions_view(plan.actions@);
                assert(av.subrange(0, i + 1).drop_last() =~= av.subrange(0, i as int));
                assert(av.subrange(0, i + 1).last() == av[i as int]);
                lemma_payload_prefix_bound(av, i + 1);
                assert(!plan_signable(plan@));
            }
            return false;
        }
        total = total + (size_wide as u64);
        proof {
            let av = actions_view(plan.actions@);
            assert(av.subrange(0, i + 1).drop_last() =~= av.subrange(0, i as int));
            assert(av.subrange(0, i + 1).last() == av[i as int]);
        }
        i = i + 1;
    }
    proof {
        assert(actions_view(plan.actions@).subrange(0, n as int) =~= actions_view(plan.actions@));
    }
    true
}

/// Signing the same plan with the same key gives the same bytes, and so
/// byte-identical signed transactions: signing is deterministic.
pub proof fn lemma_signing_deterministic(
    p1: TxPlanView,
    p2: TxPlanView,
    k1: Seq<char>,
    k2: Seq<char>,
)
    requires
        p1 == p2,
        k1 == k2,
    ensures
        signed_tx_bytes(p1, k1) == signed_tx_bytes(p2, k2),
{
}

} // verus!
