//! Method invocation against a deployed program: a read-only query in view
//! mode, or a signed single-action function-call transaction in change
//! mode, each normalized to the stable response shape.

use vstd::prelude::*;

use crate::account::AccountId;
use crate::models::{CallResult, MethodCallResponse};
use crate::outcome::{base64_text, is_json_text, json_parses, to_base64, utf8_to_text};
use crate::text::str_equal;
use crate::tx::{TxAction, TxActionView, TxPlan};
use vstd::utf8::{decode_utf8, encode_utf8, valid_utf8};

verus! {

/// Gas allowance attached to every change-mode function call.
pub const FUNCTION_CALL_GAS: u64 = 30_000_000_000_000;

/// How a method is invoked: a read-only query, or a state-changing signed
/// transaction.
pub enum MethodMode {
    View,
    Change,
}

/// The invocation mode selected by a request's method-type text: exactly
/// "view" selects view mode, anything else a change call.
pub fn method_mode_of(method_type: &str) -> (r: MethodMode)
    ensures
        r is View <==> method_type@ == "view"@,
{
    if str_equal(method_type, "view") {
        MethodMode::View
    } else {
        MethodMode::Change
    }
}

/// A read-only function-call query: no nonce, no key, no signature.
pub struct ViewCallPlan {
    pub contract: AccountId,
    pub method_name: String,
    pub args_bytes: Vec<u8>,
}

/// The first step of an invocation: what the gateway must be asked first.
pub enum InvokeAction {
    /// View mode: send this read-only query; nothing is signed and no
    /// nonce is fetched or consumed.
    QueryFunctionCall { plan: ViewCallPlan },
    /// Change mode: fetch the signer's access-key nonce and a fresh block
    /// hash for this account before a transaction can be built.
    FetchContext { account: AccountId },
}

/// Decides how an invocation starts. View mode always yields a read-only
/// query carrying the UTF-8 bytes of the argument text — never a nonce
/// fetch and never a transaction — whatever the arguments; change mode
/// always begins by fetching the signer's transaction context.
pub fn start_invocation(contract: AccountId, method_name: String, args_json: &str, mode: MethodMode)
    -> (r: InvokeAction)
    ensures
        mode is View ==> (r matches InvokeAction::QueryFunctionCall { plan }
            && plan.contract@ == contract@ && plan.method_name@ == method_name@
            && plan.args_bytes@ == encode_utf8(args_json@)),
        mode is Change ==> (r matches InvokeAction::FetchContext { account } && account@
            == contract@),
{
    match mode {
        MethodMode::View => InvokeAction::QueryFunctionCall {
            plan: ViewCallPlan {
                contract,
                method_name,
                args_bytes: args_json.as_bytes_vec(),
            },
        },
        MethodMode::Change => InvokeAction::FetchContext { account: contract },
    }
}

/// The single-action function-call transaction of a change invocation:
/// the contract account doubles as signer, the nonce is one past the
/// fetched value, and the action carries the method name, the UTF-8
/// argument bytes, the fixed gas allowance and no deposit.
pub fn build_change_call(
    contract: &AccountId,
    public_key: &str,
    method_name: &str,
    args_json: &str,
    fetched_nonce: u64,
    block_hash: Vec<u8>,
) -> (r: TxPlan)
    requires
        fetched_nonce < u64::MAX,
    ensures
        r@.signer_id == contract@,
        r@.receiver_id == contract@,
        r@.public_key == public_key@,
        r@.nonce == fetched_nonce + 1,
        r@.block_hash == block_hash@,
        r@.actions =~= seq![
            TxActionView::FunctionCall {
                method_name: method_name@,
                args: encode_utf8(args_json@),
                gas: FUNCTION_CALL_GAS,
                deposit: 0u128,
            },
        ],
{
    let mut actions: Vec<TxAction> = Vec::new();
    actions.push(
        TxAction::FunctionCall {
            method_name: method_name.to_owned(),
            args: args_json.as_bytes_vec(),
            gas: FUNCTION_CALL_GAS,
            deposit: 0,
        },
    );
    TxPlan {
        signer_id: contract.duplicate(),
        public_key: public_key.to_owned(),
        nonce: fetched_nonce + 1,
        receiver_id: contract.duplicate(),
        block_hash,
        actions,
    }
}

/// What a view query came back with: result bytes and logs, an unexpected
/// response kind, or a gateway failure.
pub enum ViewEvent {
    CallResult { value: Vec<u8>, logs: Vec<String> },
    UnexpectedKind,
    QueryFailed { message: String },
}

/// Normalizes a view query's outcome. A returned value is decoded as text
/// and classified as JSON or raw, with the raw bytes kept base64-encoded;
/// unparseable-but-valid output is not a failure. Gas is never consumed
/// and no transaction hash exists in view mode. Fails only when the
/// returned bytes are not valid UTF-8.
pub fn finish_view_call(event: ViewEvent) -> (r: Result<MethodCallResponse, ()>)
    ensures
        (r is Err <==> (event matches ViewEvent::CallResult { value, .. } && !valid_utf8(value@))),
        r matches Ok(m) ==> match event {
            ViewEvent::CallResult { value, logs } => {
                &&& m.success == true
                &&& m.result matches Some(CallResult::ViewValue { text, json, raw_base64 })
                    && text@ == decode_utf8(value@) && json == is_json_text(decode_utf8(value@))
                    && raw_base64@ == base64_text(value@)
                &&& m.transaction_hash is None
                &&& m.logs@ == logs@
                &&& m.gas_used is None
                &&& m.error is None
            },
            ViewEvent::UnexpectedKind => {
                &&& m.success == false
                &&& m.result is None
                &&& m.transaction_hash is None
                &&& m.logs@.len() == 0
                &&& m.gas_used is None
                &&& m.error matches Some(e) && e@ == "Unexpected response type"@
            },
            ViewEvent::QueryFailed { message } => {
                &&& m.success == false
                &&& m.result is None
                &&& m.transaction_hash is None
                &&& m.logs@.len() == 0
                &&& m.gas_used is None
                &&& m.error matches Some(e) && e@ == "View method failed: "@ + message@
            },
        },
{
    match event {
        ViewEvent::CallResult { value, logs } => {
            let raw_base64 = to_base64(&value);
            match utf8_to_text(value) {
                None => Err(()),
                Some(text) => {
                    let json = json_parses(text.as_str());
                    Ok(
                        MethodCallResponse {
                            success: true,
                            result: Some(CallResult::ViewValue { text, json, raw_base64 }),
                            transaction_hash: None,
                            logs,
                            gas_used: None,
                            error: None,
                        },
                    )
                },
            }
        },
        ViewEvent::UnexpectedKind => Ok(
            MethodCallResponse {
                success: false,
                result: None,
                transaction_hash: None,
                logs: Vec::new(),
                gas_used: None,
                error: Some("Unexpected response type".to_owned()),
            },
        ),
        ViewEvent::QueryFailed { message } => {
            let mut text = "View method failed: ".to_owned();
            text.append(message.as_str());
            Ok(
                MethodCallResponse {
                    success: false,
                    result: None,
                    transaction_hash: None,
                    logs: Vec::new(),
                    gas_used: None,
                    error: Some(text),
                },
            )
        },
    }
}

} // verus!
