//! Key validation and deterministic transaction signing, checked against
//! the real cryptography and serialization.

use near_backend::account::AccountId;
use near_backend::tx::{
    derive_public_key_checked, sign_transaction, validate_public_key, validate_secret_key,
    TxAction, TxPlan,
};

fn test_secret() -> String {
    near_crypto::SecretKey::from_seed(near_crypto::KeyType::ED25519, "deterministic-test-seed")
        .to_string()
}

fn sample_plan(nonce: u64) -> TxPlan {
    let secret = test_secret();
    let public_key = derive_public_key_checked(&secret).unwrap();
    TxPlan {
        signer_id: AccountId::parse("signer.testnet").unwrap(),
        public_key,
        nonce,
        receiver_id: AccountId::parse("receiver.testnet").unwrap(),
        block_hash: vec![7u8; 32],
        actions: vec![TxAction::Transfer { deposit: 30_000_000_000_000_000_000_000 }],
    }
}

#[test]
fn secret_key_validation() {
    assert!(validate_secret_key(&test_secret()));
    assert!(!validate_secret_key("garbage"));
    assert!(!validate_secret_key("ed25519:!!!"));
}

#[test]
fn public_key_derivation_matches_the_key_library() {
    let secret = test_secret();
    let derived = derive_public_key_checked(&secret).unwrap();
    let parsed: near_crypto::SecretKey = secret.parse().unwrap();
    assert_eq!(derived, parsed.public_key().to_string());
    assert!(validate_public_key(&derived));
    assert!(!validate_public_key("not-a-key"));
    assert!(derive_public_key_checked("garbage").is_none());
}

#[test]
fn signing_same_inputs_is_byte_identical() {
    let secret = test_secret();
    let a = sign_transaction(&sample_plan(11), &secret).unwrap();
    let b = sign_transaction(&sample_plan(11), &secret).unwrap();
    assert_eq!(a, b);
}

#[test]
fn signing_changed_field_changes_the_bytes() {
    let secret = test_secret();
    let a = sign_transaction(&sample_plan(11), &secret).unwrap();
    let b = sign_transaction(&sample_plan(12), &secret).unwrap();
    assert_ne!(a, b);

    let mut other_receiver = sample_plan(11);
    other_receiver.receiver_id = AccountId::parse("elsewhere.testnet").unwrap();
    let c = sign_transaction(&other_receiver, &secret).unwrap();
    assert_ne!(a, c);
}

#[test]
fn signing_rejects_invalid_inputs() {
    let plan = sample_plan(1);
    assert!(sign_transaction(&plan, "garbage").is_none());

    let mut short_hash = sample_plan(1);
    short_hash.block_hash = vec![1u8; 8];
    assert!(sign_transaction(&short_hash, &test_secret()).is_none());

    let mut bad_pk = sample_plan(1);
    bad_pk.public_key = "nope".to_string();
    assert!(sign_transaction(&bad_pk, &test_secret()).is_none());
}

#[test]
fn signing_rejects_oversized_payloads() {
    // A method name of a billion characters counts past the serializer's
    // 32-bit length limit: the plan must be refused, not signed.
    let mut plan = sample_plan(1);
    plan.actions = vec![TxAction::FunctionCall {
        method_name: "a".repeat(1 << 30),
        args: vec![],
        gas: 1,
        deposit: 0,
    }];
    assert!(sign_transaction(&plan, &test_secret()).is_none());
}

#[test]
fn signed_bytes_decode_to_a_chain_valid_transaction() {
    let secret = test_secret();
    let plan = sample_plan(42);
    let bytes = sign_transaction(&plan, &secret).unwrap();
    let stx: near_primitives::transaction::SignedTransaction =
        borsh::from_slice(&bytes).unwrap();
    assert_eq!(stx.transaction.signer_id().as_str(), "signer.testnet");
    assert_eq!(stx.transaction.receiver_id().as_str(), "receiver.testnet");
    assert_eq!(stx.transaction.nonce().nonce(), 42);
    assert_eq!(stx.transaction.block_hash().0, [7u8; 32]);
    assert_eq!(stx.transaction.actions().len(), 1);
    let parsed: near_crypto::SecretKey = secret.parse().unwrap();
    let (hash, _) = stx.transaction.get_hash_and_size();
    assert!(stx.signature.verify(hash.as_ref(), &parsed.public_key()));
}
