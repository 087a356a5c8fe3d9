//! The cheat hook registry: calls whose destination is the reserved cheat
//! address are intercepted before any engine execution.  A registered
//! selector yields a state mutation expressed as a command value that the
//! orchestrator hands to the driver; an unregistered selector under the
//! reserved address is a hard rejection, never a silent fall-through.

use vstd::prelude::*;
use crate::codec::{be_bytes_value, pow256, lemma_pow256_values, lemma_pow256_increases};

verus! {

/// The reserved cheat address, byte by byte.
pub open spec fn spec_cheat_address() -> Seq<u8> {
    seq![
        0x71u8,
        0x09u8,
        0x70u8,
        0x9eu8,
        0xcfu8,
        0xa9u8,
        0x1au8,
        0x80u8,
        0x62u8,
        0x6fu8,
        0xf3u8,
        0x98u8,
        0x9du8,
        0x68u8,
        0xf6u8,
        0x7fu8,
        0x5bu8,
        0x1du8,
        0xd1u8,
        0x2du8,
    ]
}

/// The selector of the registered `roll` handler, which sets the block
/// number.
pub open spec fn spec_roll_selector() -> Seq<u8> {
    seq![0x1fu8, 0x7bu8, 0x4fu8, 0x30u8]
}

/// The reserved cheat address as bytes.
pub fn cheat_address() -> (a: Vec<u8>)
    ensures
        a@ == spec_cheat_address(),
{
    let mut a: Vec<u8> = Vec::new();
    a.push(0x71);
    a.push(0x09);
    a.push(0x70);
    a.push(0x9e);
    a.push(0xcf);
    a.push(0xa9);
    a.push(0x1a);
    a.push(0x80);
    a.push(0x62);
    a.push(0x6f);
    a.push(0xf3);
    a.push(0x98);
    a.push(0x9d);
    a.push(0x68);
    a.push(0xf6);
    a.push(0x7f);
    a.push(0x5b);
    a.push(0x1d);
    a.push(0xd1);
    a.push(0x2d);
    assert(a@ =~= spec_cheat_address());
    a
}

/// A state mutation that a cheat handler requests; the orchestrator hands
/// it to the driver as a command value, never a live state reference.
#[derive(Clone, Copy, Debug, PartialEq, Eq, Structural)]
pub enum StateMutation {
    SetBlockNumber(u64),
}

/// The decision of the cheat hook registry for one call.
#[derive(Clone, Copy, Debug, PartialEq, Eq, Structural)]
pub enum CheatDecision {
    /// The destination is not the reserved address; normal execution
    /// proceeds.
    NotCheat,
    /// A registered handler matched; apply this mutation instead of any
    /// bytecode execution.
    Mutation(StateMutation),
    /// The reserved address was called with an unregistered selector.
    Unknown,
}

/// The byte of call data at index `i`, zero beyond the end, as the engine
/// reads call data.
pub open spec fn spec_calldata_byte(input: Seq<u8>, i: int) -> u8 {
    if 0 <= i < input.len() {
        input[i]
    } else {
        0u8
    }
}

/// The low eight bytes of the 32-byte argument word that follows the
/// selector, read big-endian: the block number that `roll` sets.
pub open spec fn spec_roll_arg(input: Seq<u8>) -> nat {
    be_bytes_value(Seq::new(8, |j: int| spec_calldata_byte(input, 28 + j)))
}

/// What the registry decides for a call to `dest` with call data `input`.
pub open spec fn spec_dispatch(dest: Seq<u8>, input: Seq<u8>) -> CheatDecision {
    if dest != spec_cheat_address() {
        CheatDecision::NotCheat
    } else if input.len() >= 4 && input.take(4) == spec_roll_selector() {
        CheatDecision::Mutation(StateMutation::SetBlockNumber(spec_roll_arg(input) as u64))
    } else {
        CheatDecision::Unknown
    }
}

/// The two byte vectors hold the same bytes.
fn bytes_eq(a: &Vec<u8>, b: &Vec<u8>) -> (r: bool)
    ensures
        r == (a@ == b@),
{
    let n = a.len();
    if n != b.len() {
        assert(a@ != b@);
        return false;
    }
    let mut i: usize = 0;
    while i < n
        invariant
            i <= n,
            n == a@.len(),
            n == b@.len(),
            forall|k: int| 0 <= k < i ==> a@[k] == b@[k],
        decreases n - i,
    {
        if a[i] != b[i] {
            assert(a@ != b@);
            return false;
        }
        i = i + 1;
    }
    assert(a@ =~= b@);
    true
}

/// Reads the block number argument of a `roll` call.
fn roll_arg(input: &Vec<u8>) -> (n: u64)
    ensures
        n as nat == spec_roll_arg(input@),
{
    proof {
        lemma_pow256_values();
    }
    let ghost low = Seq::new(8, |j: int| spec_calldata_byte(input@, 28 + j));
    let len = input.len();
    let mut v: u64 = 0;
    let mut j: usize = 0;
    while j < 8
        invariant
            j <= 8,
            len == input@.len(),
            low == Seq::new(8, |q: int| spec_calldata_byte(input@, 28 + q)),
            v as nat == be_bytes_value(low.take(j as int)),
            (v as nat) < pow256(j as int),
            pow256(7) == 0x100_0000_0000_0000,
            pow256(8) == 0x1_0000_0000_0000_0000,
        decreases 8 - j,
    {
        proof {
            lemma_pow256_increases(j as int, 7);
        }
        let b: u8 = if 28 + j < len {
            input[28 + j]
        } else {
            0
        };
        assert(low[j as int] == b);
        proof {
            assert(low.take(j + 1).drop_last() =~= low.take(j as int));
            assert(low.take(j + 1).last() == low[j as int]);
        }
        v = v * 256 + (b as u64);
        j = j + 1;
    }
    assert(low.take(8) =~= low);
    v
}

/// The registry's decision for a call to `dest` with call data `input`:
/// the reserved address never falls through to normal execution, `roll`
/// yields its mutation, and anything else under the reserved address is
/// rejected.
pub fn dispatch(dest: &Vec<u8>, input: &Vec<u8>) -> (d: CheatDecision)
    ensures
        d == spec_dispatch(dest@, input@),
{
    let hevm = cheat_address();
    if !bytes_eq(dest, &hevm) {
        return CheatDecision::NotCheat;
    }
    if input.len() >= 4 && input[0] == 0x1f && input[1] == 0x7b && input[2] == 0x4f && input[3]
        == 0x30 {
        assert(input@.take(4) =~= spec_roll_selector());
        let n = roll_arg(input);
        return CheatDecision::Mutation(StateMutation::SetBlockNumber(n));
    }
    proof {
        if input@.len() >= 4 && input@.take(4) == spec_roll_selector() {
            assert(input@.take(4)[0] == input@[0]);
            assert(input@.take(4)[1] == input@[1]);
            assert(input@.take(4)[2] == input@[2]);
            assert(input@.take(4)[3] == input@[3]);
        }
    }
    CheatDecision::Unknown
}

/// Cheat dispatch, stated over all calls: a call to the reserved address
/// never proceeds to normal bytecode execution, and under the reserved
/// address an unregistered selector is always rejected, never silently
/// accepted; any other destination always proceeds normally.
pub proof fn lemma_cheat_dispatch(dest: Seq<u8>, input: Seq<u8>)
    ensures
        dest == spec_cheat_address() ==> !(spec_dispatch(dest, input) is NotCheat),
        (dest == spec_cheat_address() && !(input.len() >= 4 && input.take(4)
            == spec_roll_selector())) ==> spec_dispatch(dest, input) is Unknown,
        dest != spec_cheat_address() ==> spec_dispatch(dest, input) is NotCheat,
{
}

} // verus!
