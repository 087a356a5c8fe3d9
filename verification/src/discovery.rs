//! Test discovery: filters the artifact's ABI functions into the ordered
//! test set and classifies each one by expected outcome.
//!
//! A function is a test case when its name starts with `test`; a name that
//! contains `testFail` expects a revert, any other test name expects
//! success.  The function literally named `setUp` is the fixture and never a
//! test case.  Discovery preserves ABI declaration order, which makes the
//! report order deterministic.

use vstd::prelude::*;
use vstd::string::*;
use crate::abi::FunctionSignature;
use crate::interpret::ExpectedOutcome;

verus! {

/// The name starts with `test`.
pub open spec fn spec_starts_with_test(name: Seq<char>) -> bool {
    name.len() >= 4 && name.take(4) == "test"@
}

/// The name contains the substring `testFail`.
pub open spec fn spec_contains_testfail(name: Seq<char>) -> bool {
    exists|i: int| 0 <= i && i + 8 <= name.len() && #[trigger] name.subrange(i, i + 8)
        == "testFail"@
}

/// The name denotes a test case: it starts with `test` and is not the
/// fixture name `setUp`.
pub open spec fn spec_is_test(name: Seq<char>) -> bool {
    spec_starts_with_test(name) && name != "setUp"@
}

/// What a test with this name expects of its call.
pub open spec fn spec_expected(name: Seq<char>) -> ExpectedOutcome {
    if spec_contains_testfail(name) {
        ExpectedOutcome::Revert
    } else {
        ExpectedOutcome::Success
    }
}

/// One discovered test: its signature and its expected outcome.
#[derive(Debug)]
pub struct TestCase {
    pub sig: FunctionSignature,
    pub expected: ExpectedOutcome,
}

/// The ordered test set discovered from an ABI declaration list.
pub open spec fn spec_discover(sigs: Seq<FunctionSignature>) -> Seq<TestCase>
    decreases sigs.len(),
{
    if sigs.len() == 0 {
        Seq::empty()
    } else {
        spec_discover(sigs.drop_last()) + if spec_is_test(sigs.last().name@) {
            seq![TestCase { sig: sigs.last(), expected: spec_expected(sigs.last().name@) }]
        } else {
            Seq::empty()
        }
    }
}

/// The name starts with `test`.
pub fn starts_with_test(name: &str) -> (b: bool)
    ensures
        b == spec_starts_with_test(name@),
{
    proof {
        reveal_strlit("test");
    }
    let n = name.unicode_len();
    if n < 4 {
        return false;
    }
    let r = name.get_char(0) == 't' && name.get_char(1) == 'e' && name.get_char(2) == 's'
        && name.get_char(3) == 't';
    proof {
        if r {
            assert(name@.take(4) =~= "test"@);
        } else {
            assert(name@.take(4) != "test"@) by {
                if name@.take(4) == "test"@ {
                    assert(name@.take(4)[0] == name@[0]);
                    assert(name@.take(4)[1] == name@[1]);
                    assert(name@.take(4)[2] == name@[2]);
                    assert(name@.take(4)[3] == name@[3]);
                }
            }
        }
    }
    r
}

/// The name is exactly `setUp`.
pub fn is_setup_name(name: &str) -> (b: bool)
    ensures
        b == (name@ == "setUp"@),
{
    proof {
        reveal_strlit("setUp");
    }
    let n = name.unicode_len();
    if n != 5 {
        return false;
    }
    let r = name.get_char(0) == 's' && name.get_char(1) == 'e' && name.get_char(2) == 't'
        && name.get_char(3) == 'U' && name.get_char(4) == 'p';
    proof {
        if r {
            assert(name@ =~= "setUp"@);
        }
    }
    r
}

/// The name contains the substring `testFail`.
pub fn contains_testfail(name: &str) -> (b: bool)
    ensures
        b == spec_contains_testfail(name@),
{
    let pat = "testFail";
    proof {
        reveal_strlit("testFail");
    }
    let n = name.unicode_len();
    if n < 8 {
        return false;
    }
    let mut i: usize = 0;
    while i <= n - 8
        invariant
            n == name@.len(),
            n >= 8,
            i <= n,
            pat@ == "testFail"@,
            pat@.len() == 8,
            forall|p: int| 0 <= p < i ==> #[trigger] name@.subrange(p, p + 8) != "testFail"@,
        decreases n - i,
    {
        let mut j: usize = 0;
        let mut hit = true;
        while j < 8
            invariant
                j <= 8,
                i + 8 <= n,
                n == name@.len(),
                pat@ == "testFail"@,
                pat@.len() == 8,
                hit ==> forall|q: int| 0 <= q < j ==> #[trigger] name@[i + q] == "testFail"@[q],
                !hit ==> name@.subrange(i as int, i + 8) != "testFail"@,
            decreases 8 - j,
        {
            if name.get_char(i + j) != pat.get_char(j) {
                proof {
                    assert(name@.subrange(i as int, i + 8)[j as int] == name@[i + j]);
                }
                hit = false;
            }
            j = j + 1;
        }
        if hit {
            assert forall|q: int| 0 <= q < 8 implies name@.subrange(i as int, i + 8)[q]
                == "testFail"@[q] by {
                assert(name@[i + q] == "testFail"@[q]);
            }
            assert(name@.subrange(i as int, i + 8) =~= "testFail"@);
            return true;
        }
        i = i + 1;
    }
    assert(forall|p: int| 0 <= p && p + 8 <= name@.len() ==> #[trigger] name@.subrange(p, p + 8)
        != "testFail"@);
    false
}

/// The name denotes a test case.
pub fn is_test_name(name: &str) -> (b: bool)
    ensures
        b == spec_is_test(name@),
{
    starts_with_test(name) && !is_setup_name(name)
}

/// What a test with this name expects of its call.
pub fn classify(name: &str) -> (e: ExpectedOutcome)
    ensures
        e == spec_expected(name@),
{
    if contains_testfail(name) {
        ExpectedOutcome::Revert
    } else {
        ExpectedOutcome::Success
    }
}

/// Filters the ABI declaration list into the ordered test set.
pub fn discover(sigs: Vec<FunctionSignature>) -> (cases: Vec<TestCase>)
    ensures
        cases@ == spec_discover(sigs@),
{
    let ghost all = sigs@;
    let mut rest = sigs;
    let mut cases: Vec<TestCase> = Vec::new();
    let ghost mut k: int = 0;
    while rest.len() > 0
        invariant
            0 <= k <= all.len(),
            rest@ =~= all.skip(k),
            cases@ == spec_discover(all.take(k)),
        decreases rest@.len(),
    {
        let s = rest.remove(0);
        proof {
            assert(s == all[k]);
            assert(all.skip(k).remove(0) =~= all.skip(k + 1));
            let cur = all.take(k + 1);
            assert(cur.drop_last() =~= all.take(k));
            assert(cur.last() == all[k]);
        }
        if is_test_name(s.name.as_str()) {
            let expected = classify(s.name.as_str());
            cases.push(TestCase { sig: s, expected });
        }
        proof {
            k = k + 1;
        }
    }
    assert(all.take(k) =~= all);
    cases
}

/// Discovery respects declaration order and is an ordered filter: the test
/// set is exactly the test-named declarations, in declaration order, each
/// classified by its name.
pub proof fn lemma_discover_is_ordered_filter(sigs: Seq<FunctionSignature>)
    ensures
        spec_discover(sigs) == sigs.filter(|s: FunctionSignature| spec_is_test(s.name@)).map_values(
            |s: FunctionSignature| TestCase { sig: s, expected: spec_expected(s.name@) },
        ),
    decreases sigs.len(),
{
    reveal(Seq::filter);
    let pred = |s: FunctionSignature| spec_is_test(s.name@);
    let mk = |s: FunctionSignature| TestCase { sig: s, expected: spec_expected(s.name@) };
    if sigs.len() == 0 {
        assert(spec_discover(sigs) =~= sigs.filter(pred).map_values(mk));
    } else {
        lemma_discover_is_ordered_filter(sigs.drop_last());
        assert(sigs.filter(pred) == sigs.drop_last().filter(pred) + if pred(sigs.last()) {
            seq![sigs.last()]
        } else {
            Seq::empty()
        });
        assert(sigs.filter(pred).map_values(mk) =~= sigs.drop_last().filter(pred).map_values(mk)
            + if pred(sigs.last()) {
            seq![mk(sigs.last())]
        } else {
            Seq::empty()
        });
        assert(spec_discover(sigs) =~= sigs.filter(pred).map_values(mk));
    }
}

/// Classification, stated over all names: a name containing `testFail`
/// expects a revert; any other test name expects success.
pub proof fn lemma_classification(name: Seq<char>)
    ensures
        spec_contains_testfail(name) ==> spec_expected(name) == ExpectedOutcome::Revert,
        !spec_contains_testfail(name) ==> spec_expected(name) == ExpectedOutcome::Success,
{
}

/// The name-to-verdict mapping, composed over all names: for a name
/// containing `testFail`, an actual revert passes and an actual success
/// fails; for any other name the inverse mapping holds; any other engine
/// failure never passes.
pub proof fn lemma_name_outcome_mapping(name: Seq<char>)
    ensures
        spec_contains_testfail(name) ==> crate::interpret::spec_pass(
            spec_expected(name),
            crate::interpret::EngineStatus::Revert,
        ) && !crate::interpret::spec_pass(
            spec_expected(name),
            crate::interpret::EngineStatus::Success,
        ),
        !spec_contains_testfail(name) ==> crate::interpret::spec_pass(
            spec_expected(name),
            crate::interpret::EngineStatus::Success,
        ) && !crate::interpret::spec_pass(
            spec_expected(name),
            crate::interpret::EngineStatus::Revert,
        ),
        !crate::interpret::spec_pass(
            spec_expected(name),
            crate::interpret::EngineStatus::OtherFailure,
        ),
{
}

} // verus!
