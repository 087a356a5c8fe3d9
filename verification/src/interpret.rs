//! Result interpretation: maps a raw engine outcome against a test's
//! expected outcome, and attaches a best-effort diagnostic when a failing
//! test reverted.

use vstd::prelude::*;
use crate::codec::{spec_decode_revert_reason, spec_hex, decode_revert_reason, hex_string};

verus! {

/// The status class of one engine call.
#[derive(Clone, Copy, Debug, PartialEq, Eq, Structural)]
pub enum EngineStatus {
    Success,
    Revert,
    OtherFailure,
}

/// What a test's name says its call must do.
#[derive(Clone, Copy, Debug, PartialEq, Eq, Structural)]
pub enum ExpectedOutcome {
    Success,
    Revert,
}

/// The raw result of one engine call: a status class and the output bytes.
#[derive(Debug)]
pub struct Outcome {
    pub status: EngineStatus,
    pub data: Vec<u8>,
}

/// Diagnostic attached to a verdict.
#[derive(Debug)]
pub enum Diag {
    /// Nothing to report.
    NoDiag,
    /// The decoded revert reason of a failing test that reverted.
    Reason(Vec<u8>),
    /// The failing test reverted, but its payload did not decode as a reason.
    UndecodableRevert,
    /// The test called the reserved cheat address with a selector that no
    /// handler is registered for; the payload is the selector in hex.
    UnknownCheatCode(String),
}

/// The per-test verdict.
#[derive(Debug)]
pub struct Verdict {
    pub name: String,
    pub pass: bool,
    pub diag: Diag,
}

/// The pass/fail table: a test passes exactly when the actual status class
/// matches the expected one; `OtherFailure` never passes.
pub open spec fn spec_pass(expected: ExpectedOutcome, actual: EngineStatus) -> bool {
    match (expected, actual) {
        (ExpectedOutcome::Success, EngineStatus::Success) => true,
        (ExpectedOutcome::Revert, EngineStatus::Revert) => true,
        _ => false,
    }
}

/// Maps an actual status class against the expected outcome.
pub fn interpret(expected: ExpectedOutcome, actual: EngineStatus) -> (pass: bool)
    ensures
        pass == spec_pass(expected, actual),
{
    match (expected, actual) {
        (ExpectedOutcome::Success, EngineStatus::Success) => true,
        (ExpectedOutcome::Revert, EngineStatus::Revert) => true,
        _ => false,
    }
}

/// The verdict `v` is the correct interpretation of outcome `out` for a test
/// named `name` that expects `expected`: the pass bit follows the table, and
/// a failing revert carries its decoded reason, or the explicit marker when
/// the payload does not decode.
pub open spec fn spec_verdict_executed_ok(
    v: Verdict,
    name: Seq<char>,
    expected: ExpectedOutcome,
    out: Outcome,
) -> bool {
    &&& v.name@ == name
    &&& v.pass == spec_pass(expected, out.status)
    &&& if spec_pass(expected, out.status) {
        v.diag is NoDiag
    } else if out.status is Revert {
        match spec_decode_revert_reason(out.data@) {
            Some(r) => v.diag matches Diag::Reason(b) && b@ == r,
            None => v.diag is UndecodableRevert,
        }
    } else {
        v.diag is NoDiag
    }
}

/// Builds the verdict for a test whose call the engine executed.
pub fn interpret_outcome(name: String, expected: ExpectedOutcome, out: &Outcome) -> (v: Verdict)
    ensures
        spec_verdict_executed_ok(v, name@, expected, *out),
{
    let pass = interpret(expected, out.status);
    let diag = if pass {
        Diag::NoDiag
    } else {
        match out.status {
            EngineStatus::Revert => match decode_revert_reason(&out.data) {
                Some(r) => Diag::Reason(r),
                None => Diag::UndecodableRevert,
            },
            _ => Diag::NoDiag,
        }
    };
    Verdict { name, pass, diag }
}

/// The verdict `v` rejects the unknown cheat call of a test named `name`
/// whose selector is `selector`: a fail, with the selector spelled in hex.
pub open spec fn spec_verdict_unknown_cheat_ok(v: Verdict, name: Seq<char>, selector: Seq<u8>) -> bool {
    &&& v.name@ == name
    &&& !v.pass
    &&& v.diag matches Diag::UnknownCheatCode(s) && s@ == spec_hex(selector)
}

/// Builds the verdict for a test that called the reserved cheat address
/// with an unregistered selector: always a fail, never a silent pass.
pub fn reject_unknown_cheat(name: String, selector: &Vec<u8>) -> (v: Verdict)
    ensures
        spec_verdict_unknown_cheat_ok(v, name@, selector@),
{
    Verdict { name, pass: false, diag: Diag::UnknownCheatCode(hex_string(selector)) }
}

/// The expected-outcome table, row by row: a test that expects a revert
/// passes exactly on an actual revert, a test that expects success passes
/// exactly on actual success, and an engine failure of any other kind never
/// passes.
pub proof fn lemma_pass_table(expected: ExpectedOutcome)
    ensures
        spec_pass(ExpectedOutcome::Revert, EngineStatus::Revert),
        !spec_pass(ExpectedOutcome::Revert, EngineStatus::Success),
        spec_pass(ExpectedOutcome::Success, EngineStatus::Success),
        !spec_pass(ExpectedOutcome::Success, EngineStatus::Revert),
        !spec_pass(expected, EngineStatus::OtherFailure),
{
}

} // verus!
