use dapptest::abi::{ContractArtifact, FunctionSignature, ParamKind, selector_of_signature};
use dapptest::discovery::{classify, discover, is_test_name};
use dapptest::interpret::ExpectedOutcome;
use dapptest::HarnessError;

fn sig(name: &str) -> FunctionSignature {
    FunctionSignature::new(name.to_string(), Vec::new())
}

#[test]
fn selector_matches_external_codec() {
    let s = selector_of_signature("setUp()");
    assert_eq!(s, ethers::utils::id("setUp()").to_vec());
    let t = selector_of_signature("transfer(address,uint256)");
    assert_eq!(t, vec![0xa9, 0x05, 0x9c, 0xbb]);
}

#[test]
fn canonical_signature_with_params() {
    let f = FunctionSignature::new(
        "transfer".to_string(),
        vec![ParamKind::Address, ParamKind::Uint256],
    );
    assert_eq!(f.canonical(), "transfer(address,uint256)".to_string());
    assert_eq!(f.selector, vec![0xa9, 0x05, 0x9c, 0xbb]);
    let g = FunctionSignature::new("setUp".to_string(), Vec::new());
    assert_eq!(g.canonical(), "setUp()".to_string());
    assert_eq!(g.selector, ethers::utils::id("setUp()").to_vec());
}

#[test]
fn test_name_rules() {
    assert!(is_test_name("testAlwaysPasses"));
    assert!(is_test_name("test"));
    assert!(is_test_name("testFailAlwaysReverts"));
    assert!(!is_test_name("setUp"));
    assert!(!is_test_name("helper"));
    assert!(!is_test_name("Test"));
    assert!(!is_test_name("tes"));
}

#[test]
fn classification_rules() {
    assert_eq!(classify("testFailAlwaysReverts"), ExpectedOutcome::Revert);
    assert_eq!(classify("testAlwaysPasses"), ExpectedOutcome::Success);
    assert_eq!(classify("testWithtestFailInside"), ExpectedOutcome::Revert);
    assert_eq!(classify("testFai"), ExpectedOutcome::Success);
}

#[test]
fn discovery_preserves_declaration_order() {
    let abi = vec![sig("setUp"), sig("testA"), sig("helper"), sig("testFailB"), sig("testC")];
    let cases = discover(abi);
    assert_eq!(cases.len(), 3);
    assert_eq!(cases[0].sig.name, "testA");
    assert_eq!(cases[0].expected, ExpectedOutcome::Success);
    assert_eq!(cases[1].sig.name, "testFailB");
    assert_eq!(cases[1].expected, ExpectedOutcome::Revert);
    assert_eq!(cases[2].sig.name, "testC");
    assert_eq!(cases[2].expected, ExpectedOutcome::Success);
}

#[test]
fn discovery_is_stable_across_runs() {
    let make = || vec![sig("setUp"), sig("testA"), sig("helper"), sig("testFailB")];
    let first = discover(make());
    let second = discover(make());
    assert_eq!(first.len(), second.len());
    for (a, b) in first.iter().zip(second.iter()) {
        assert_eq!(a.sig.name, b.sig.name);
        assert_eq!(a.sig.selector, b.sig.selector);
        assert_eq!(a.expected, b.expected);
    }
}

#[test]
fn discovery_of_testless_abi_is_empty() {
    let cases = discover(vec![sig("setUp"), sig("helper")]);
    assert_eq!(cases.len(), 0);
}

#[test]
fn artifact_rejects_empty_bytecode() {
    let r = ContractArtifact::new(Vec::new(), vec![sig("setUp")]);
    assert!(matches!(r, Err(HarnessError::ArtifactError)));
}

#[test]
fn artifact_rejects_empty_abi() {
    let r = ContractArtifact::new(vec![0x60, 0x00], Vec::new());
    assert!(matches!(r, Err(HarnessError::ArtifactError)));
}

#[test]
fn artifact_accepts_executable_input() {
    let r = ContractArtifact::new(vec![0x60, 0x00], vec![sig("setUp")]);
    let a = r.expect("valid artifact");
    assert_eq!(a.bytecode, vec![0x60, 0x00]);
    assert_eq!(a.abi.len(), 1);
}
