//! Account naming, decimal and gas rendering, and artifact selection.

use near_backend::account::{
    compose_subaccount_text, derive_contract_name, validate_account_text, AccountId,
};
use near_backend::compile::{build_compile_response, is_skipped_dir_name, pick_abi_file, pick_wasm_file};
use near_backend::models::ApiResponse;
use near_backend::text::{format_tgas, u64_to_decimal};

#[test]
fn decimal_rendering_exact() {
    assert_eq!(u64_to_decimal(0), "0");
    assert_eq!(u64_to_decimal(7), "7");
    assert_eq!(u64_to_decimal(10), "10");
    assert_eq!(u64_to_decimal(1700000000), "1700000000");
    assert_eq!(u64_to_decimal(u64::MAX), "18446744073709551615");
}

#[test]
fn tgas_formatting_exact() {
    assert_eq!(format_tgas(0), "0.00 TGas");
    assert_eq!(format_tgas(1_000_000_000_000), "1.00 TGas");
    assert_eq!(format_tgas(2_428_932_649_818), "2.43 TGas");
    assert_eq!(format_tgas(30_000_000_000_000), "30.00 TGas");
    // Rounding to the nearest hundredth, halves up.
    assert_eq!(format_tgas(4_999_999_999), "0.00 TGas");
    assert_eq!(format_tgas(5_000_000_000), "0.01 TGas");
    assert_eq!(format_tgas(1_234_999_999_999), "1.23 TGas");
}

#[test]
fn account_validation_accepts_well_formed_ids() {
    assert!(validate_account_text("ab"));
    assert!(validate_account_text("alice.testnet"));
    assert!(validate_account_text("a-b_c.d0"));
    assert!(validate_account_text("alice1-proj45-1700000000.parent.testnet"));
    let max = "a".repeat(64);
    assert!(validate_account_text(&max));
}

#[test]
fn account_validation_rejects_malformed_ids() {
    assert!(!validate_account_text(""));
    assert!(!validate_account_text("a"));
    assert!(!validate_account_text(&"a".repeat(65)));
    assert!(!validate_account_text("Alice"));
    assert!(!validate_account_text("a..b"));
    assert!(!validate_account_text("a-.b"));
    assert!(!validate_account_text("-ab"));
    assert!(!validate_account_text("ab-"));
    assert!(!validate_account_text("a b"));
    assert!(!validate_account_text("a@b"));
}

#[test]
fn contract_name_derivation_exact() {
    assert_eq!(
        derive_contract_name("alice123", "proj456", 1700000000),
        "alice1-proj45-1700000000"
    );
    // Short identifiers are taken whole.
    assert_eq!(derive_contract_name("bo", "p", 5), "bo-p-5");
}

#[test]
fn subaccount_composition_exact() {
    let parent = AccountId::parse("myparent.testnet").unwrap();
    assert_eq!(
        compose_subaccount_text("alice123", "proj456", 1700000000, &parent),
        "alice1-proj45-1700000000.myparent.testnet"
    );
}

#[test]
fn derived_names_differ_across_timestamps() {
    let a = derive_contract_name("alice123", "proj456", 1700000000);
    let b = derive_contract_name("alice123", "proj456", 1700000001);
    assert_ne!(a, b);
    let parent = AccountId::parse("myparent.testnet").unwrap();
    let ia = compose_subaccount_text("alice123", "proj456", 1700000000, &parent);
    let ib = compose_subaccount_text("alice123", "proj456", 1700000001, &parent);
    assert_ne!(ia, ib);
}

#[test]
fn wasm_artifact_selection() {
    let names = vec![
        "notes.txt".to_string(),
        "contract.wasm".to_string(),
        "other.wasm".to_string(),
    ];
    assert_eq!(pick_wasm_file(&names), Some(1));
    let none = vec!["notes.txt".to_string(), ".wasm".to_string()];
    assert_eq!(pick_wasm_file(&none), None);
    assert_eq!(pick_wasm_file(&vec![]), None);
}

#[test]
fn abi_artifact_selection() {
    let names = vec![
        "contract.wasm".to_string(),
        "contract_abi.json".to_string(),
    ];
    assert_eq!(pick_abi_file(&names), Some(1));
    let none = vec!["contract.json".to_string()];
    assert_eq!(pick_abi_file(&none), None);
}

#[test]
fn project_copy_skips_build_and_vcs_dirs() {
    assert!(is_skipped_dir_name("target"));
    assert!(is_skipped_dir_name(".git"));
    assert!(!is_skipped_dir_name("src"));
}

#[test]
fn compile_summary_labels() {
    let ok = build_compile_response(
        true,
        0,
        "out".to_string(),
        "".to_string(),
        1234,
        "projects/u/p".to_string(),
        Some(4096),
        None,
    );
    assert!(ok.success);
    assert_eq!(ok.details.status, "success");
    assert_eq!(ok.details.wasm_size, Some(4096));
    assert!(ok.details.optimized);
    let bad = build_compile_response(
        false,
        -1,
        "".to_string(),
        "boom".to_string(),
        99,
        "projects/u/p".to_string(),
        None,
        None,
    );
    assert!(!bad.success);
    assert_eq!(bad.details.status, "failed");
    assert_eq!(bad.exit_code, -1);
}

#[test]
fn api_response_envelopes() {
    let ok: ApiResponse<u32> = ApiResponse::success(7, "done".to_string());
    assert!(ok.success);
    assert_eq!(ok.message, "done");
    assert_eq!(ok.data, Some(7));
    assert!(ok.error.is_none());

    let err: ApiResponse<u32> =
        ApiResponse::error("CODE".to_string(), "failed".to_string(), Some("detail".to_string()));
    assert!(!err.success);
    assert!(err.data.is_none());
    let e = err.error.unwrap();
    assert_eq!(e.code, "CODE");
    assert_eq!(e.message, "failed");
    assert_eq!(e.details, Some("detail".to_string()));
}
