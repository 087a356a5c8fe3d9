//! The test orchestrator.
//!
//! The engine that executes bytecode is an external collaborator, so the
//! orchestrator is a decision machine: it tells an unverified driver which
//! call to make against which engine state, and the driver hands back each
//! raw outcome.  Every decision — the per-test isolation policy, the cheat
//! interception, and the verdict for every outcome the engine can return —
//! is made here and verified.
//!
//! State handles name engine states held by the driver: handle 0 is the
//! post-`setUp` snapshot; test `i` runs against handle `i + 1`, forked
//! from the snapshot, so no test can observe another test's mutations.
//! Sharing the post-`setUp` state across tests silently couples them, so
//! it is never the default: only the explicit `shared_state` opt-in makes
//! each test fork the state its predecessor ran against.

use vstd::prelude::*;
use crate::HarnessError;
use crate::abi::{ContractArtifact, spec_selector, selector_of_signature};
use crate::cheat::{CheatDecision, StateMutation, spec_dispatch};
use crate::codec::copy_bytes;
use crate::discovery::{TestCase, discover, spec_discover};
use crate::interpret::{
    EngineStatus,
    Outcome,
    Verdict,
    interpret_outcome,
    reject_unknown_cheat,
    spec_pass,
    spec_verdict_executed_ok,
    spec_verdict_unknown_cheat_ok,
};

verus! {

/// The run configuration: the only place default environment values are
/// chosen.
#[derive(Debug)]
pub struct RunConfig {
    /// The designated test-contract address, 20 bytes.
    pub contract_address: Vec<u8>,
    /// Gas limit of every call.
    pub gas_limit: u64,
    /// Block number of the initial block context.
    pub block_number: u64,
    /// Timestamp of the initial block context.
    pub timestamp: u64,
    /// Chain id of the initial block context.
    pub chain_id: u64,
    /// Opt-in, order-dependent semantics: each test forks the state its
    /// predecessor ran against instead of the post-`setUp` snapshot, so
    /// tests observe each other's mutations.  Off by default.
    pub shared_state: bool,
}

impl RunConfig {
    /// Deterministic defaults: the zero address, ten million gas, a zero
    /// block context, chain id 1, and isolated per-test state.
    pub fn new() -> (c: RunConfig)
        ensures
            c.contract_address@ == Seq::new(20, |i: int| 0u8),
            c.gas_limit == 10_000_000u64,
            c.block_number == 0u64,
            c.timestamp == 0u64,
            c.chain_id == 1u64,
            !c.shared_state,
    {
        let mut addr: Vec<u8> = Vec::new();
        let mut i: usize = 0;
        while i < 20
            invariant
                i <= 20,
                addr@ =~= Seq::new(i as nat, |k: int| 0u8),
            decreases 20 - i,
        {
            addr.push(0);
            assert(addr@ =~= Seq::new((i + 1) as nat, |k: int| 0u8));
            i = i + 1;
        }
        RunConfig {
            contract_address: addr,
            gas_limit: 10_000_000,
            block_number: 0,
            timestamp: 0,
            chain_id: 1,
            shared_state: false,
        }
    }
}

impl Default for RunConfig {
    fn default() -> (c: RunConfig)
        ensures
            c.contract_address@ == Seq::new(20, |i: int| 0u8),
            c.gas_limit == 10_000_000u64,
            c.block_number == 0u64,
            c.timestamp == 0u64,
            c.chain_id == 1u64,
            !c.shared_state,
    {
        RunConfig::new()
    }
}

/// One call for the driver to hand to the engine.
#[derive(Debug)]
pub struct CallSpec {
    /// The handle of the engine state to execute against.
    pub state_id: u64,
    /// Destination address of the message.
    pub destination: Vec<u8>,
    /// Call data: the 4-byte selector, nothing after it.
    pub input: Vec<u8>,
    /// Gas limit of the call.
    pub gas: u64,
}

/// What the driver must do for one test.
#[derive(Debug)]
pub enum CasePlan {
    /// Fork state `base` into the fresh state `fresh`, then execute `call`
    /// against the fork and report the outcome.
    Execute { base: u64, fresh: u64, call: CallSpec },
    /// The test's call is an intercepted cheat call: fork state `base` into
    /// `fresh`, apply `mutation` to the fork, and report back.  No bytecode
    /// executes.
    Mutate { base: u64, fresh: u64, mutation: StateMutation },
    /// The test's call is a cheat call with an unregistered selector: the
    /// orchestrator rejects it without any driver work.
    RejectUnknown,
}

/// Where the run stands.
#[derive(Clone, Copy, Debug, PartialEq, Eq, Structural)]
pub enum Phase {
    /// The fixture call has not been reported yet.
    AwaitSetup,
    /// The fixture succeeded; tests are being recorded.
    Running,
    /// The fixture failed; the whole suite is aborted.
    Aborted,
}

/// The report of a finished run.
#[derive(Debug)]
pub struct RunReport {
    /// One verdict per discovered test, in discovery order.
    pub verdicts: Vec<Verdict>,
    /// True exactly when every test passed.
    pub overall_pass: bool,
}

/// The handle of the shared post-`setUp` snapshot.
pub open spec fn spec_snapshot_state() -> int {
    0
}

/// The handle of the fork that test `i` runs against.
pub open spec fn spec_fresh_state(i: int) -> int {
    i + 1
}

/// The handle that test `i` forks its own state from: the post-`setUp`
/// snapshot under the default isolated policy; under the shared opt-in,
/// the state its predecessor ran against.
pub open spec fn spec_fork_base(cfg: RunConfig, i: int) -> int {
    if cfg.shared_state {
        i
    } else {
        spec_snapshot_state()
    }
}

/// The orchestrator: discovers the test set, sequences the fixture call
/// and one plan per test, records verdicts, and aggregates the report.
#[derive(Debug)]
pub struct Harness {
    /// The artifact's runtime bytecode, for the driver to load.
    pub bytecode: Vec<u8>,
    /// The discovered tests, in ABI declaration order.
    pub cases: Vec<TestCase>,
    /// The verdicts recorded so far; the next test is `verdicts.len()`.
    pub verdicts: Vec<Verdict>,
    /// Where the run stands.
    pub phase: Phase,
    /// The run configuration.
    pub cfg: RunConfig,
    /// The derived selector of `setUp()`.
    pub setup_selector: Vec<u8>,
}

impl Harness {
    /// The registry's decision for the call of test case `tc`.
    pub open spec fn spec_decision(self, tc: TestCase) -> CheatDecision {
        spec_dispatch(self.cfg.contract_address@, tc.sig.selector@)
    }

    /// Builds the orchestrator for an artifact: rejects an artifact with
    /// empty bytecode or no ABI entries, discovers the test set in
    /// declaration order, and derives the fixture selector.
    pub fn new(artifact: ContractArtifact, cfg: RunConfig) -> (r: Result<Harness, HarnessError>)
        ensures
            match r {
                Ok(h) => {
                    &&& artifact.valid()
                    &&& h.bytecode == artifact.bytecode
                    &&& h.cases@ == spec_discover(artifact.abi@)
                    &&& h.verdicts@.len() == 0
                    &&& h.phase is AwaitSetup
                    &&& h.cfg == cfg
                    &&& h.setup_selector@ == spec_selector("setUp()"@)
                },
                Err(e) => e is ArtifactError && !artifact.valid(),
            },
    {
        if artifact.bytecode.len() == 0 || artifact.abi.len() == 0 {
            return Err(HarnessError::ArtifactError);
        }
        let ContractArtifact { bytecode, abi } = artifact;
        let cases = discover(abi);
        let setup_selector = selector_of_signature("setUp()");
        Ok(
            Harness {
                bytecode,
                cases,
                verdicts: Vec::new(),
                phase: Phase::AwaitSetup,
                cfg,
                setup_selector,
            },
        )
    }

    /// The fixture call: `setUp()` against the initial state, which the
    /// driver keeps under the snapshot handle.
    pub fn setup_call(&self) -> (c: CallSpec)
        ensures
            c.state_id == spec_snapshot_state(),
            c.destination@ == self.cfg.contract_address@,
            c.input@ == self.setup_selector@,
            c.gas == self.cfg.gas_limit,
    {
        CallSpec {
            state_id: 0,
            destination: copy_bytes(&self.cfg.contract_address),
            input: copy_bytes(&self.setup_selector),
            gas: self.cfg.gas_limit,
        }
    }

    /// Reports the fixture outcome.  Anything but success is fatal for the
    /// whole run: no test executes without its fixture.
    pub fn report_setup(&mut self, status: EngineStatus) -> (ok: bool)
        requires
            old(self).phase is AwaitSetup,
        ensures
            ok == (status is Success),
            final(self).phase == (if status is Success {
                Phase::Running
            } else {
                Phase::Aborted
            }),
            final(self).bytecode == old(self).bytecode,
            final(self).cases == old(self).cases,
            final(self).verdicts == old(self).verdicts,
            final(self).cfg == old(self).cfg,
            final(self).setup_selector == old(self).setup_selector,
    {
        match status {
            EngineStatus::Success => {
                self.phase = Phase::Running;
                true
            },
            _ => {
                self.phase = Phase::Aborted;
                false
            },
        }
    }

    /// The plan for test `i`: a cheat call to the reserved address is
    /// intercepted here, before any engine work, and either becomes a
    /// mutation command or is rejected; any other call is executed against
    /// a fresh fork of the snapshot.
    pub fn case_plan(&self, i: usize) -> (p: CasePlan)
        requires
            self.phase is Running,
            i < self.cases@.len(),
        ensures
            ({
                let tc = self.cases@[i as int];
                match p {
                    CasePlan::Execute { base, fresh, call } => {
                        &&& self.spec_decision(tc) is NotCheat
                        &&& base == spec_fork_base(self.cfg, i as int)
                        &&& fresh == spec_fresh_state(i as int)
                        &&& call.state_id == fresh
                        &&& call.destination@ == self.cfg.contract_address@
                        &&& call.input@ == tc.sig.selector@
                        &&& call.gas == self.cfg.gas_limit
                    },
                    CasePlan::Mutate { base, fresh, mutation } => {
                        &&& self.spec_decision(tc) == CheatDecision::Mutation(mutation)
                        &&& base == spec_fork_base(self.cfg, i as int)
                        &&& fresh == spec_fresh_state(i as int)
                    },
                    CasePlan::RejectUnknown => self.spec_decision(tc) is Unknown,
                }
            }),
    {
        let n = self.cases.len();
        assert(i < n);
        let tc = &self.cases[i];
        let base = if self.cfg.shared_state {
            i as u64
        } else {
            0
        };
        let fresh = (i as u64) + 1;
        match crate::cheat::dispatch(&self.cfg.contract_address, &tc.sig.selector) {
            CheatDecision::NotCheat => CasePlan::Execute {
                base,
                fresh,
                call: CallSpec {
                    state_id: fresh,
                    destination: copy_bytes(&self.cfg.contract_address),
                    input: copy_bytes(&tc.sig.selector),
                    gas: self.cfg.gas_limit,
                },
            },
            CheatDecision::Mutation(m) => CasePlan::Mutate { base, fresh, mutation: m },
            CheatDecision::Unknown => CasePlan::RejectUnknown,
        }
    }

    /// Records the engine outcome of the current test's executed call.
    pub fn record_executed(&mut self, out: &Outcome)
        requires
            old(self).phase is Running,
            old(self).verdicts@.len() < old(self).cases@.len(),
            old(self).spec_decision(
                old(self).cases@[old(self).verdicts@.len() as int],
            ) is NotCheat,
        ensures
            ({
                let tc = old(self).cases@[old(self).verdicts@.len() as int];
                &&& final(self).verdicts@.len() == old(self).verdicts@.len() + 1
                &&& final(self).verdicts@.subrange(0, old(self).verdicts@.len() as int) == old(
                    self,
                ).verdicts@
                &&& spec_verdict_executed_ok(
                    final(self).verdicts@.last(),
                    tc.sig.name@,
                    tc.expected,
                    *out,
                )
            }),
            final(self).bytecode == old(self).bytecode,
            final(self).cases == old(self).cases,
            final(self).phase == old(self).phase,
            final(self).cfg == old(self).cfg,
            final(self).setup_selector == old(self).setup_selector,
    {
        let idx = self.verdicts.len();
        let name = self.cases[idx].sig.name.clone();
        let expected = self.cases[idx].expected;
        let v = interpret_outcome(name, expected, out);
        self.verdicts.push(v);
        assert(final(self).verdicts@.subrange(0, old(self).verdicts@.len() as int) =~= old(
            self,
        ).verdicts@);
    }

    /// Records the current test whose call was an intercepted cheat call:
    /// the driver applied the mutation to the test's own fork, and the call
    /// counts as a success with empty output.
    pub fn record_mutated(&mut self)
        requires
            old(self).phase is Running,
            old(self).verdicts@.len() < old(self).cases@.len(),
            old(self).spec_decision(
                old(self).cases@[old(self).verdicts@.len() as int],
            ) matches CheatDecision::Mutation(m),
        ensures
            ({
                let tc = old(self).cases@[old(self).verdicts@.len() as int];
                &&& final(self).verdicts@.len() == old(self).verdicts@.len() + 1
                &&& final(self).verdicts@.subrange(0, old(self).verdicts@.len() as int) == old(
                    self,
                ).verdicts@
                &&& final(self).verdicts@.last().name@ == tc.sig.name@
                &&& final(self).verdicts@.last().pass == spec_pass(
                    tc.expected,
                    EngineStatus::Success,
                )
                &&& final(self).verdicts@.last().diag is NoDiag
            }),
            final(self).bytecode == old(self).bytecode,
            final(self).cases == old(self).cases,
            final(self).phase == old(self).phase,
            final(self).cfg == old(self).cfg,
            final(self).setup_selector == old(self).setup_selector,
    {
        let idx = self.verdicts.len();
        let name = self.cases[idx].sig.name.clone();
        let expected = self.cases[idx].expected;
        let synthetic = Outcome { status: EngineStatus::Success, data: Vec::new() };
        let v = interpret_outcome(name, expected, &synthetic);
        self.verdicts.push(v);
        assert(final(self).verdicts@.subrange(0, old(self).verdicts@.len() as int) =~= old(
            self,
        ).verdicts@);
    }

    /// Records the current test whose call went to the reserved cheat
    /// address with an unregistered selector: always a distinct failure,
    /// never a silent pass.
    pub fn record_unknown_cheat(&mut self)
        requires
            old(self).phase is Running,
            old(self).verdicts@.len() < old(self).cases@.len(),
            old(self).spec_decision(old(self).cases@[old(self).verdicts@.len() as int]) is Unknown,
        ensures
            ({
                let tc = old(self).cases@[old(self).verdicts@.len() as int];
                &&& final(self).verdicts@.len() == old(self).verdicts@.len() + 1
                &&& final(self).verdicts@.subrange(0, old(self).verdicts@.len() as int) == old(
                    self,
                ).verdicts@
                &&& spec_verdict_unknown_cheat_ok(
                    final(self).verdicts@.last(),
                    tc.sig.name@,
                    tc.sig.selector@,
                )
            }),
            final(self).bytecode == old(self).bytecode,
            final(self).cases == old(self).cases,
            final(self).phase == old(self).phase,
            final(self).cfg == old(self).cfg,
            final(self).setup_selector == old(self).setup_selector,
    {
        let idx = self.verdicts.len();
        let name = self.cases[idx].sig.name.clone();
        let v = reject_unknown_cheat(name, &self.cases[idx].sig.selector);
        self.verdicts.push(v);
        assert(final(self).verdicts@.subrange(0, old(self).verdicts@.len() as int) =~= old(
            self,
        ).verdicts@);
    }

    /// Aggregates the verdicts once every test is recorded (or the fixture
    /// failed).  The run passes exactly when every test's actual outcome
    /// matched its expected one; with no tests at all it passes vacuously.
    pub fn into_report(self) -> (r: Result<RunReport, HarnessError>)
        requires
            !(self.phase is AwaitSetup),
            self.phase is Running ==> self.verdicts@.len() == self.cases@.len(),
        ensures
            match r {
                Ok(rep) => {
                    &&& self.phase is Running
                    &&& rep.verdicts == self.verdicts
                    &&& rep.overall_pass == (forall|k: int|
                        0 <= k < self.verdicts@.len() ==> (#[trigger] self.verdicts@[k]).pass)
                },
                Err(e) => self.phase is Aborted && e is SetupFailed,
            },
    {
        match self.phase {
            Phase::Running => {
                let verdicts = self.verdicts;
                let n = verdicts.len();
                let mut all = true;
                let mut i: usize = 0;
                while i < n
                    invariant
                        i <= n,
                        n == verdicts@.len(),
                        all == (forall|k: int| 0 <= k < i ==> (#[trigger] verdicts@[k]).pass),
                    decreases n - i,
                {
                    if !verdicts[i].pass {
                        all = false;
                    }
                    i = i + 1;
                }
                Ok(RunReport { verdicts, overall_pass: all })
            },
            _ => Err(HarnessError::SetupFailed),
        }
    }
}

/// The verdict `v` is correct for test case `tc` under configuration
/// `cfg`, where `out` is the outcome the engine produced for the test's
/// call if one was executed: an intercepted cheat call never reaches the
/// engine and counts as a success when registered, a distinct failure when
/// not.
pub open spec fn spec_verdict_matches(v: Verdict, cfg: RunConfig, tc: TestCase, out: Outcome) -> bool {
    match spec_dispatch(cfg.contract_address@, tc.sig.selector@) {
        CheatDecision::NotCheat => spec_verdict_executed_ok(v, tc.sig.name@, tc.expected, out),
        CheatDecision::Mutation(m) => {
            &&& v.name@ == tc.sig.name@
            &&& v.pass == spec_pass(tc.expected, EngineStatus::Success)
            &&& v.diag is NoDiag
        },
        CheatDecision::Unknown => spec_verdict_unknown_cheat_ok(v, tc.sig.name@, tc.sig.selector@),
    }
}

/// Runs a whole suite given the outcome of every engine call: the fixture
/// status, then one outcome per discovered test (ignored for the tests
/// whose call the cheat registry intercepts).  This is the complete
/// orchestration — validation, discovery, fixture gate, interception,
/// per-test interpretation, aggregation — and pins the report as a
/// function of its inputs alone.
pub fn run_scripted(
    artifact: ContractArtifact,
    cfg: RunConfig,
    setup_status: EngineStatus,
    outcomes: &Vec<Outcome>,
) -> (r: Result<RunReport, HarnessError>)
    requires
        outcomes@.len() >= spec_discover(artifact.abi@).len(),
    ensures
        match r {
            Ok(rep) => {
                &&& artifact.valid()
                &&& setup_status is Success
                &&& rep.verdicts@.len() == spec_discover(artifact.abi@).len()
                &&& (forall|k: int|
                    0 <= k < rep.verdicts@.len() ==> spec_verdict_matches(
                        #[trigger] rep.verdicts@[k],
                        cfg,
                        spec_discover(artifact.abi@)[k],
                        outcomes@[k],
                    ))
                &&& rep.overall_pass == (forall|k: int|
                    0 <= k < rep.verdicts@.len() ==> (#[trigger] rep.verdicts@[k]).pass)
            },
            Err(e) => {
                ||| e is ArtifactError && !artifact.valid()
                ||| e is SetupFailed && artifact.valid() && !(setup_status is Success)
            },
        },
{
    let ghost abi0 = artifact.abi@;
    let ghost cfg0 = cfg;
    let mut h = match Harness::new(artifact, cfg) {
        Ok(h) => h,
        Err(e) => {
            return Err(e);
        },
    };
    if !h.report_setup(setup_status) {
        return h.into_report();
    }
    let ghost cases0 = h.cases@;
    let n = h.cases.len();
    let mut i: usize = 0;
    while i < n
        invariant
            h.phase is Running,
            h.cfg == cfg0,
            h.cases@ == cases0,
            n == cases0.len(),
            outcomes@.len() >= n,
            i <= n,
            h.verdicts@.len() == i,
            forall|k: int|
                0 <= k < i ==> spec_verdict_matches(
                    #[trigger] h.verdicts@[k],
                    cfg0,
                    cases0[k],
                    outcomes@[k],
                ),
        decreases n - i,
    {
        let ghost prev = h.verdicts@;
        match h.case_plan(i) {
            CasePlan::Execute { .. } => h.record_executed(&outcomes[i]),
            CasePlan::Mutate { .. } => h.record_mutated(),
            CasePlan::RejectUnknown => h.record_unknown_cheat(),
        }
        proof {
            assert forall|k: int| 0 <= k < i + 1 implies spec_verdict_matches(
                #[trigger] h.verdicts@[k],
                cfg0,
                cases0[k],
                outcomes@[k],
            ) by {
                if k < i {
                    assert(h.verdicts@[k] == h.verdicts@.subrange(0, i as int)[k]);
                } else {
                    assert(h.verdicts@[k] == h.verdicts@.last());
                }
            }
        }
        i = i + 1;
    }
    h.into_report()
}

/// A run with no discovered tests reports overall success, provided its
/// fixture succeeded: the report's pass condition holds vacuously over an
/// empty verdict list.
pub proof fn lemma_vacuous_pass(verdicts: Seq<Verdict>)
    requires
        verdicts.len() == 0,
    ensures
        forall|k: int| 0 <= k < verdicts.len() ==> (#[trigger] verdicts[k]).pass,
{
}

/// Isolation: under the default policy every test runs against a fork of
/// its own, forked directly from the shared post-`setUp` snapshot.
/// Distinct tests never share a fork, and no test executes against the
/// snapshot itself, so a state mutation performed by one test is never
/// observable in another test's starting state.
pub proof fn lemma_isolation(cfg: RunConfig, i: int, j: int)
    requires
        !cfg.shared_state,
        0 <= i,
        0 <= j,
        i != j,
    ensures
        spec_fork_base(cfg, i) == spec_snapshot_state(),
        spec_fresh_state(i) != spec_fresh_state(j),
        spec_fresh_state(i) != spec_snapshot_state(),
{
}

} // verus!
