//! A unit-test harness for smart-contract bytecode.
//!
//! The harness discovers test functions in a compiled contract artifact,
//! executes each one against an embedded execution engine, interprets the
//! raw outcome according to the test-name convention, and intercepts
//! privileged "cheat" calls to a reserved address.

pub mod abi;
pub mod cheat;
pub mod codec;
pub mod discovery;
pub mod harness;
pub mod interpret;

use vstd::prelude::*;

verus! {

/// The fatal errors of a run: everything else degrades to a recorded
/// per-test verdict.
#[derive(Clone, Copy, Debug, PartialEq, Eq, Structural)]
pub enum HarnessError {
    /// The artifact has empty bytecode or no ABI entries; nothing can run.
    ArtifactError,
    /// The fixture call failed; no test may execute without it.
    SetupFailed,
}

} // verus!
