//! Client-side orchestration for provisioning accounts, deploying compiled
//! program bytecode, and invoking program methods on the NEAR ledger through
//! its public RPC interface, with outcomes normalized to one stable shape.

use vstd::prelude::*;

pub mod account;
pub mod compile;
pub mod deploy;
pub mod invoke;
pub mod models;
pub mod outcome;
pub mod text;
pub mod tx;

verus! {

} // verus!
