use dapptest::abi::{ContractArtifact, FunctionSignature};
use dapptest::cheat::{cheat_address, dispatch, CheatDecision, StateMutation};
use dapptest::codec::encode_revert_payload;
use dapptest::harness::{run_scripted, CasePlan, Harness, RunConfig};
use dapptest::interpret::{Diag, EngineStatus, Outcome};
use dapptest::HarnessError;

fn sig(name: &str) -> FunctionSignature {
    FunctionSignature::new(name.to_string(), Vec::new())
}

fn artifact(names: &[&str]) -> ContractArtifact {
    let abi = names.iter().copied().map(sig).collect();
    ContractArtifact::new(vec![0x60, 0x00, 0x60, 0x00], abi).expect("valid artifact")
}

fn success() -> Outcome {
    Outcome { status: EngineStatus::Success, data: Vec::new() }
}

fn revert_with(reason: &[u8]) -> Outcome {
    Outcome { status: EngineStatus::Revert, data: encode_revert_payload(&reason.to_vec()) }
}

#[test]
fn cheat_dispatch_other_address_falls_through() {
    let zero = vec![0u8; 20];
    let input = vec![0x1f, 0x7b, 0x4f, 0x30];
    assert_eq!(dispatch(&zero, &input), CheatDecision::NotCheat);
}

#[test]
fn cheat_dispatch_roll_never_falls_through() {
    let hevm = cheat_address();
    let mut input = vec![0x1f, 0x7b, 0x4f, 0x30];
    let mut word = vec![0u8; 32];
    word[31] = 42;
    input.extend_from_slice(&word);
    assert_eq!(
        dispatch(&hevm, &input),
        CheatDecision::Mutation(StateMutation::SetBlockNumber(42))
    );
}

#[test]
fn cheat_dispatch_zero_extends_missing_argument() {
    let hevm = cheat_address();
    let input = vec![0x1f, 0x7b, 0x4f, 0x30];
    assert_eq!(
        dispatch(&hevm, &input),
        CheatDecision::Mutation(StateMutation::SetBlockNumber(0))
    );
}

#[test]
fn cheat_dispatch_unknown_selector_is_rejected() {
    let hevm = cheat_address();
    assert_eq!(dispatch(&hevm, &vec![0xde, 0xad, 0xbe, 0xef]), CheatDecision::Unknown);
    assert_eq!(dispatch(&hevm, &vec![0x1f, 0x7b]), CheatDecision::Unknown);
    assert_eq!(dispatch(&hevm, &Vec::new()), CheatDecision::Unknown);
}

#[test]
fn config_defaults() {
    let cfg = RunConfig::default();
    assert_eq!(cfg.contract_address, vec![0u8; 20]);
    assert_eq!(cfg.gas_limit, 10_000_000);
    assert_eq!(cfg.block_number, 0);
    assert_eq!(cfg.timestamp, 0);
    assert_eq!(cfg.chain_id, 1);
}

#[test]
fn harness_rejects_invalid_artifact() {
    let r = Harness::new(
        ContractArtifact { bytecode: Vec::new(), abi: vec![sig("setUp")] },
        RunConfig::default(),
    );
    assert!(matches!(r, Err(HarnessError::ArtifactError)));
}

#[test]
fn setup_call_targets_snapshot_with_setup_selector() {
    let h = Harness::new(artifact(&["setUp", "testA"]), RunConfig::default()).unwrap();
    let call = h.setup_call();
    assert_eq!(call.state_id, 0);
    assert_eq!(call.destination, vec![0u8; 20]);
    assert_eq!(call.input, ethers::utils::id("setUp()").to_vec());
    assert_eq!(call.gas, 10_000_000);
}

#[test]
fn setup_failure_aborts_the_suite() {
    let mut h = Harness::new(artifact(&["setUp", "testA"]), RunConfig::default()).unwrap();
    assert!(!h.report_setup(EngineStatus::Revert));
    let r = h.into_report();
    assert!(matches!(r, Err(HarnessError::SetupFailed)));
}

#[test]
fn run_with_no_tests_passes_vacuously() {
    let mut h = Harness::new(artifact(&["setUp", "helper"]), RunConfig::default()).unwrap();
    assert_eq!(h.cases.len(), 0);
    assert!(h.report_setup(EngineStatus::Success));
    let rep = h.into_report().unwrap();
    assert_eq!(rep.verdicts.len(), 0);
    assert!(rep.overall_pass);
}

#[test]
fn plans_are_isolated_per_test() {
    let mut h = Harness::new(
        artifact(&["setUp", "testA", "testB"]),
        RunConfig::default(),
    )
    .unwrap();
    assert!(h.report_setup(EngineStatus::Success));
    let mut fresh_ids = Vec::new();
    for i in 0..h.cases.len() {
        match h.case_plan(i) {
            CasePlan::Execute { base, fresh, call } => {
                assert_eq!(base, 0);
                assert_eq!(call.state_id, fresh);
                fresh_ids.push(fresh);
            }
            _ => panic!("expected an executed call"),
        }
    }
    assert_eq!(fresh_ids, vec![1, 2]);
}

#[test]
fn scripted_run_matches_stepwise_protocol() {
    let rep = run_scripted(
        artifact(&["setUp", "testAlwaysPasses", "testFailAlwaysReverts"]),
        RunConfig::default(),
        EngineStatus::Success,
        &vec![success(), revert_with(b"nope")],
    )
    .unwrap();
    assert!(rep.overall_pass);
    assert_eq!(rep.verdicts.len(), 2);
    assert_eq!(rep.verdicts[0].name, "testAlwaysPasses");
    assert_eq!(rep.verdicts[1].name, "testFailAlwaysReverts");
    assert!(rep.verdicts.iter().all(|v| v.pass));
}

#[test]
fn scripted_run_reports_fixture_failure() {
    let r = run_scripted(
        artifact(&["setUp", "testA"]),
        RunConfig::default(),
        EngineStatus::OtherFailure,
        &vec![success()],
    );
    assert!(matches!(r, Err(HarnessError::SetupFailed)));
}

#[test]
fn shared_state_opt_in_chains_the_forks() {
    let cfg = RunConfig { shared_state: true, ..RunConfig::default() };
    let mut h = Harness::new(artifact(&["setUp", "testA", "testB"]), cfg).unwrap();
    assert!(h.report_setup(EngineStatus::Success));
    let mut bases = Vec::new();
    for i in 0..h.cases.len() {
        match h.case_plan(i) {
            CasePlan::Execute { base, fresh, .. } => {
                assert_eq!(fresh, i as u64 + 1);
                bases.push(base);
            }
            _ => panic!("expected an executed call"),
        }
    }
    // each test forks the state its predecessor ran against
    assert_eq!(bases, vec![0, 1]);
}

// End-to-end scenario: setUp succeeds, testAlwaysPasses succeeds,
// testFailAlwaysReverts reverts with reason "nope" -- both tests pass and
// the run passes.
#[test]
fn scenario_all_tests_pass() {
    let mut h = Harness::new(
        artifact(&["setUp", "testAlwaysPasses", "testFailAlwaysReverts"]),
        RunConfig::default(),
    )
    .unwrap();
    assert!(h.report_setup(EngineStatus::Success));
    assert_eq!(h.cases.len(), 2);

    // testAlwaysPasses: the engine reports success
    assert!(matches!(h.case_plan(0), CasePlan::Execute { .. }));
    h.record_executed(&success());

    // testFailAlwaysReverts: the engine reports a revert with reason "nope"
    assert!(matches!(h.case_plan(1), CasePlan::Execute { .. }));
    h.record_executed(&revert_with(b"nope"));

    let rep = h.into_report().unwrap();
    assert!(rep.overall_pass);
    assert_eq!(rep.verdicts.len(), 2);
    assert_eq!(rep.verdicts[0].name, "testAlwaysPasses");
    assert!(rep.verdicts[0].pass);
    assert!(matches!(rep.verdicts[0].diag, Diag::NoDiag));
    assert_eq!(rep.verdicts[1].name, "testFailAlwaysReverts");
    assert!(rep.verdicts[1].pass);
    assert!(matches!(rep.verdicts[1].diag, Diag::NoDiag));
}

// End-to-end scenario: the same artifact, but testAlwaysPasses reverts --
// it fails with its decoded reason and the run fails.
#[test]
fn scenario_unexpected_revert_fails() {
    let mut h = Harness::new(
        artifact(&["setUp", "testAlwaysPasses", "testFailAlwaysReverts"]),
        RunConfig::default(),
    )
    .unwrap();
    assert!(h.report_setup(EngineStatus::Success));

    h.record_executed(&revert_with(b"nope"));
    h.record_executed(&revert_with(b"nope"));

    let rep = h.into_report().unwrap();
    assert!(!rep.overall_pass);
    assert!(!rep.verdicts[0].pass);
    match &rep.verdicts[0].diag {
        Diag::Reason(r) => assert_eq!(r, &b"nope".to_vec()),
        other => panic!("expected a decoded reason, got {:?}", other),
    }
    assert!(rep.verdicts[1].pass);
}

#[test]
fn unexpected_success_of_testfail_fails() {
    let mut h = Harness::new(
        artifact(&["setUp", "testFailAlwaysReverts"]),
        RunConfig::default(),
    )
    .unwrap();
    assert!(h.report_setup(EngineStatus::Success));
    h.record_executed(&success());
    let rep = h.into_report().unwrap();
    assert!(!rep.overall_pass);
    assert!(!rep.verdicts[0].pass);
    assert!(matches!(rep.verdicts[0].diag, Diag::NoDiag));
}

#[test]
fn other_failure_fails_either_way() {
    let mut h = Harness::new(
        artifact(&["setUp", "testA", "testFailB"]),
        RunConfig::default(),
    )
    .unwrap();
    assert!(h.report_setup(EngineStatus::Success));
    let out = Outcome { status: EngineStatus::OtherFailure, data: Vec::new() };
    h.record_executed(&out);
    h.record_executed(&out);
    let rep = h.into_report().unwrap();
    assert!(!rep.verdicts[0].pass);
    assert!(!rep.verdicts[1].pass);
    assert!(!rep.overall_pass);
}

#[test]
fn undecodable_revert_keeps_the_verdict() {
    let mut h = Harness::new(artifact(&["setUp", "testA"]), RunConfig::default()).unwrap();
    assert!(h.report_setup(EngineStatus::Success));
    let out = Outcome { status: EngineStatus::Revert, data: vec![1, 2, 3] };
    h.record_executed(&out);
    let rep = h.into_report().unwrap();
    assert!(!rep.verdicts[0].pass);
    assert!(matches!(rep.verdicts[0].diag, Diag::UndecodableRevert));
}

// A suite whose contract address is the reserved cheat address: a test
// whose selector is registered becomes a mutation command and counts as a
// success; one with an unregistered selector is a distinct failure.
#[test]
fn cheat_calls_through_the_harness() {
    let roll = FunctionSignature {
        name: "testRoll".to_string(),
        selector: vec![0x1f, 0x7b, 0x4f, 0x30],
        inputs: Vec::new(),
    };
    let unknown = FunctionSignature {
        name: "testUnknownCheat".to_string(),
        selector: vec![0xde, 0xad, 0xbe, 0xef],
        inputs: Vec::new(),
    };
    let art = ContractArtifact::new(vec![0x60, 0x00], vec![sig("setUp"), roll, unknown]).unwrap();
    let cfg = RunConfig {
        contract_address: cheat_address(),
        ..RunConfig::default()
    };
    let mut h = Harness::new(art, cfg).unwrap();
    assert!(h.report_setup(EngineStatus::Success));

    match h.case_plan(0) {
        CasePlan::Mutate { base, fresh, mutation } => {
            assert_eq!(base, 0);
            assert_eq!(fresh, 1);
            assert_eq!(mutation, StateMutation::SetBlockNumber(0));
        }
        other => panic!("expected a mutation plan, got {:?}", other),
    }
    h.record_mutated();

    assert!(matches!(h.case_plan(1), CasePlan::RejectUnknown));
    h.record_unknown_cheat();

    let rep = h.into_report().unwrap();
    assert!(rep.verdicts[0].pass);
    assert!(!rep.verdicts[1].pass);
    match &rep.verdicts[1].diag {
        Diag::UnknownCheatCode(s) => assert_eq!(s, "deadbeef"),
        other => panic!("expected an unknown-cheat diagnostic, got {:?}", other),
    }
    assert!(!rep.overall_pass);
}
