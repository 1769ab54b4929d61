//! The decision logic of the build flow: which build-output file holds the
//! bytecode, which holds the interface description, which directories a
//! project copy skips, and how a build's outcome is summarized.

use vstd::prelude::*;

use crate::models::{CompileDetails, CompileResponse};
use crate::text::{ends_with_pattern, ends_with_seq, str_equal};

verus! {

/// The name of a bytecode artifact: something before a ".wasm" suffix.
pub open spec fn is_wasm_name(s: Seq<char>) -> bool {
    s.len() > ".wasm"@.len() && ends_with_seq(s, ".wasm"@)
}

/// The name of an interface-description artifact: a JSON file whose name
/// ends in the "_abi.json" suffix the build tool uses.
pub open spec fn is_abi_name(s: Seq<char>) -> bool {
    ends_with_seq(s, "_abi.json"@)
}

/// Index of the first bytecode artifact among the build-output file names,
/// in the order given.
pub fn pick_wasm_file(names: &Vec<String>) -> (r: Option<usize>)
    ensures
        r matches Some(i) ==> i < names@.len() && is_wasm_name(names@[i as int]@) && forall|j: int|
            0 <= j < i ==> !is_wasm_name(names@[j]@),
        r is None ==> forall|j: int| 0 <= j < names@.len() ==> !is_wasm_name(names@[j]@),
{
    let n = names.len();
    let mut i: usize = 0;
    while i < n
        invariant
            i <= n,
            n == names@.len(),
            forall|j: int| 0 <= j < i ==> !is_wasm_name(names@[j]@),
        decreases n - i,
    {
        let name = &names[i];
        if name.as_str().unicode_len() > 5 && ends_with_pattern(name.as_str(), ".wasm") {
            proof {
                reveal_strlit(".wasm");
            }
            return Some(i);
        }
        proof {
            reveal_strlit(".wasm");
        }
        i = i + 1;
    }
    None
}

/// Index of the first interface-description artifact among the
/// build-output file names, in the order given.
pub fn pick_abi_file(names: &Vec<String>) -> (r: Option<usize>)
    ensures
        r matches Some(i) ==> i < names@.len() && is_abi_name(names@[i as int]@) && forall|j: int|
            0 <= j < i ==> !is_abi_name(names@[j]@),
        r is None ==> forall|j: int| 0 <= j < names@.len() ==> !is_abi_name(names@[j]@),
{
    let n = names.len();
    let mut i: usize = 0;
    while i < n
        invariant
            i <= n,
            n == names@.len(),
            forall|j: int| 0 <= j < i ==> !is_abi_name(names@[j]@),
        decreases n - i,
    {
        let name = &names[i];
        if ends_with_pattern(name.as_str(), "_abi.json") {
            return Some(i);
        }
        i = i + 1;
    }
    None
}

/// Directories that a project copy leaves behind: build output and
/// version-control state.
pub fn is_skipped_dir_name(name: &str) -> (r: bool)
    ensures
        r == (name@ == "target"@ || name@ == ".git"@),
{
    str_equal(name, "target") || str_equal(name, ".git")
}

/// Summarizes a finished build: success follows the tool's exit status,
/// the status label says "success" or "failed" accordingly, and the
/// captured output and discovered artifacts are carried through.
pub fn build_compile_response(
    exit_ok: bool,
    exit_code: i32,
    stdout: String,
    stderr: String,
    compilation_time_ms: u64,
    project_path: String,
    wasm_size: Option<u64>,
    abi: Option<String>,
) -> (r: CompileResponse)
    ensures
        r.success == exit_ok,
        r.exit_code == exit_code,
        r.stdout == stdout,
        r.stderr == stderr,
        exit_ok ==> r.details.status@ == "success"@,
        !exit_ok ==> r.details.status@ == "failed"@,
        r.details.compilation_time_ms == compilation_time_ms,
        r.details.project_path == project_path,
        r.details.wasm_size == wasm_size,
        r.details.optimized == true,
        r.abi == abi,
{
    let status = if exit_ok {
        "success".to_owned()
    } else {
        "failed".to_owned()
    };
    CompileResponse {
        success: exit_ok,
        exit_code,
        stdout,
        stderr,
        details: CompileDetails {
            status,
            compilation_time_ms,
            project_path,
            wasm_size,
            optimized: true,
        },
        abi,
    }
}

} // verus!
