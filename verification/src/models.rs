//! Request and response shapes exchanged with the HTTP layer, as plain data:
//! compile, deploy and method-call requests, their responses, and the
//! envelope every endpoint answers with.

use vstd::prelude::*;

verus! {

/// Request to build a program from source for one user's project.
pub struct CompileRequest {
    pub user_id: String,
    pub project_id: String,
    pub code: String,
}

/// Request to deploy the already-built program of one user's project.
pub struct DeployRequest {
    pub user_id: String,
    pub project_id: String,
    pub account_id: Option<String>,
}

/// Request to invoke a method on a deployed program; the arguments travel
/// as serialized JSON text, and `method_type` selects "view" or a
/// state-changing call.
pub struct MethodCallRequest {
    pub contract_address: String,
    pub method_name: String,
    pub args: String,
    pub method_type: String,
}

/// Envelope for every endpoint answer: either data with a message, or an
/// error description.
pub struct ApiResponse<T> {
    pub success: bool,
    pub message: String,
    pub data: Option<T>,
    pub error: Option<ApiError>,
}

/// Error detail carried by a failing endpoint answer.
pub struct ApiError {
    pub code: String,
    pub message: String,
    pub details: Option<String>,
}

impl<T> ApiResponse<T> {
    /// A successful envelope around `data`.
    pub fn success(data: T, message: String) -> (r: Self)
        ensures
            r.success == true,
            r.message == message,
            r.data matches Some(d) && d == data,
            r.error is None,
    {
        Self { success: true, message, data: Some(data), error: None }
    }

    /// A failing envelope with an error code, message and optional detail.
    pub fn error(code: String, message: String, details: Option<String>) -> (r: Self)
        ensures
            r.success == false,
            r.message == message,
            r.data is None,
            r.error matches Some(e) && e.code == code && e.message == message && e.details
                == details,
    {
        Self {
            success: false,
            message: message.clone(),
            data: None,
            error: Some(ApiError { code, message, details }),
        }
    }
}

/// Response of a build: the tool's exit status and captured output, plus
/// what was found among the build artifacts.
pub struct CompileResponse {
    pub success: bool,
    pub exit_code: i32,
    pub stdout: String,
    pub stderr: String,
    pub details: CompileDetails,
    pub abi: Option<String>,
}

/// Build metadata: outcome label, elapsed time in milliseconds, where the
/// project lives, and the bytecode size when one was produced.
pub struct CompileDetails {
    pub status: String,
    pub compilation_time_ms: u64,
    pub project_path: String,
    pub wasm_size: Option<u64>,
    pub optimized: bool,
}

/// Response of a completed deployment.
pub struct DeployResponse {
    pub success: bool,
    pub transaction_hash: String,
    pub contract_id: String,
    pub explorer_url: String,
    pub gas_used: Option<String>,
    pub proof_tx_hash: Option<String>,
    pub details: DeployDetails,
}

/// Deployment metadata: which network, the derived block height, the
/// creation timestamp in seconds since the epoch, and who deployed.
pub struct DeployDetails {
    pub network: String,
    pub block_height: u64,
    pub timestamp: i64,
    pub deployer_account: String,
}

/// Normalized outcome of a method invocation.
pub struct MethodCallResponse {
    pub success: bool,
    pub result: Option<CallResult>,
    pub transaction_hash: Option<String>,
    pub logs: Vec<String>,
    pub gas_used: Option<String>,
    pub error: Option<String>,
}

/// What a method call produced, by outcome kind.
pub enum CallResult {
    /// The call returned bytes that read as text; `json` says whether the
    /// text is well-formed JSON (to be decoded) or must be passed on raw.
    Value { text: String, json: bool },
    /// A read-only call's result: the text, its JSON classification, and
    /// the raw bytes kept base64-encoded for full transparency.
    ViewValue { text: String, json: bool, raw_base64: String },
    /// The call succeeded and returned no bytes.
    Empty,
    /// The call failed on chain; the failure text, scanned best-effort.
    Failure { failure: crate::outcome::ChainFailure },
    /// The gateway answered before finality; the status label it gave.
    Pending { status: String },
}

/// Liveness answer of the service.
pub struct HealthResponse {
    pub status: String,
    pub timestamp: i64,
    pub version: String,
}

} // verus!
