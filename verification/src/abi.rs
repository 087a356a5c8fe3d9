//! The contract artifact view: function signatures, canonical signature
//! strings, selector derivation, and artifact validation.

use vstd::prelude::*;
use vstd::string::*;
use crate::HarnessError;

verus! {

/// The parameter types that a canonical signature can name.
#[derive(Clone, Copy, Debug, PartialEq, Eq, Structural)]
pub enum ParamKind {
    Address,
    Uint256,
    Bool,
    Str,
    Bytes,
}

/// The canonical type name of a parameter kind.
pub open spec fn spec_param_name(p: ParamKind) -> Seq<char> {
    match p {
        ParamKind::Address => "address"@,
        ParamKind::Uint256 => "uint256"@,
        ParamKind::Bool => "bool"@,
        ParamKind::Str => "string"@,
        ParamKind::Bytes => "bytes"@,
    }
}

/// The comma-joined canonical type names of `inputs`.
pub open spec fn spec_joined_params(inputs: Seq<ParamKind>) -> Seq<char>
    decreases inputs.len(),
{
    if inputs.len() == 0 {
        Seq::empty()
    } else if inputs.len() == 1 {
        spec_param_name(inputs[0])
    } else {
        spec_joined_params(inputs.drop_last()) + ","@ + spec_param_name(inputs.last())
    }
}

/// The canonical signature string `name(type1,type2,...)`.
pub open spec fn spec_canonical_sig(name: Seq<char>, inputs: Seq<ParamKind>) -> Seq<char> {
    name + "("@ + spec_joined_params(inputs) + ")"@
}

/// Name for what the ABI codec derives from a canonical signature string:
/// the leading four bytes of its cryptographic digest.
pub uninterp spec fn spec_selector(sig: Seq<char>) -> Seq<u8>;

/// Relies on ethers::utils::id: the selector is the first four bytes of the
/// Keccak-256 digest of the signature string, a function of that string
/// alone.
#[verifier::external_body]
fn keccak_selector(sig: &str) -> (r: Vec<u8>)
    ensures
        r@ == spec_selector(sig@),
        r@.len() == 4,
{
    ethers::utils::id(sig).to_vec()
}

/// The selector that the ABI codec computes for a canonical signature
/// string.
pub fn selector_of_signature(sig: &str) -> (r: Vec<u8>)
    ensures
        r@ == spec_selector(sig@),
        r@.len() == 4,
{
    keccak_selector(sig)
}

/// The canonical type name of a parameter kind.
pub fn param_name(p: ParamKind) -> (s: &'static str)
    ensures
        s@ == spec_param_name(p),
{
    match p {
        ParamKind::Address => "address",
        ParamKind::Uint256 => "uint256",
        ParamKind::Bool => "bool",
        ParamKind::Str => "string",
        ParamKind::Bytes => "bytes",
    }
}

/// One ABI-visible function: its name, derived selector, and inputs.
#[derive(Debug)]
pub struct FunctionSignature {
    pub name: String,
    pub selector: Vec<u8>,
    pub inputs: Vec<ParamKind>,
}

impl FunctionSignature {
    /// Well-formed: the selector is the four-byte selector the codec derives
    /// from the canonical signature string.
    pub open spec fn wf(self) -> bool {
        &&& self.selector@ == spec_selector(spec_canonical_sig(self.name@, self.inputs@))
        &&& self.selector@.len() == 4
    }

    /// Builds the signature for `name(inputs...)`, deriving its selector
    /// from the canonical signature string.
    pub fn new(name: String, inputs: Vec<ParamKind>) -> (r: FunctionSignature)
        ensures
            r.wf(),
            r.name@ == name@,
            r.inputs@ == inputs@,
    {
        let mut s = name.clone();
        s.append("(");
        let n = inputs.len();
        let mut i: usize = 0;
        while i < n
            invariant
                i <= n,
                n == inputs@.len(),
                s@ == name@ + "("@ + spec_joined_params(inputs@.take(i as int)),
            decreases n - i,
        {
            if i > 0 {
                s.append(",");
            }
            s.append(param_name(inputs[i]));
            proof {
                let pre = inputs@.take(i as int);
                let cur = inputs@.take(i + 1);
                assert(cur.drop_last() =~= pre);
                assert(cur.last() == inputs@[i as int]);
                if i == 0 {
                    assert(spec_joined_params(cur) == spec_param_name(inputs@[0]));
                }
            }
            i = i + 1;
        }
        assert(inputs@.take(n as int) =~= inputs@);
        s.append(")");
        let selector = keccak_selector(s.as_str());
        FunctionSignature { name, selector, inputs }
    }

    /// The canonical signature string of this function.
    pub fn canonical(&self) -> (s: String)
        ensures
            s@ == spec_canonical_sig(self.name@, self.inputs@),
    {
        let mut s = self.name.clone();
        s.append("(");
        let n = self.inputs.len();
        let mut i: usize = 0;
        while i < n
            invariant
                i <= n,
                n == self.inputs@.len(),
                s@ == self.name@ + "("@ + spec_joined_params(self.inputs@.take(i as int)),
            decreases n - i,
        {
            if i > 0 {
                s.append(",");
            }
            s.append(param_name(self.inputs[i]));
            proof {
                let pre = self.inputs@.take(i as int);
                let cur = self.inputs@.take(i + 1);
                assert(cur.drop_last() =~= pre);
                assert(cur.last() == self.inputs@[i as int]);
                if i == 0 {
                    assert(spec_joined_params(cur) == spec_param_name(self.inputs@[0]));
                }
            }
            i = i + 1;
        }
        assert(self.inputs@.take(n as int) =~= self.inputs@);
        s.append(")");
        s
    }
}

/// A compiled contract: runtime bytecode and the declared ABI functions,
/// in declaration order.
#[derive(Debug)]
pub struct ContractArtifact {
    pub bytecode: Vec<u8>,
    pub abi: Vec<FunctionSignature>,
}

impl ContractArtifact {
    /// An artifact is executable when it has bytecode and at least one ABI
    /// entry.
    pub open spec fn valid(self) -> bool {
        self.bytecode@.len() > 0 && self.abi@.len() > 0
    }

    /// Wraps a compiled artifact; rejects one with empty bytecode or no ABI
    /// entries, since nothing in it could execute.
    pub fn new(bytecode: Vec<u8>, abi: Vec<FunctionSignature>) -> (r: Result<
        ContractArtifact,
        HarnessError,
    >)
        ensures
            match r {
                Ok(a) => a.bytecode@ == bytecode@ && a.abi@ == abi@ && a.valid(),
                Err(e) => e is ArtifactError && (bytecode@.len() == 0 || abi@.len() == 0),
            },
    {
        if bytecode.len() == 0 || abi.len() == 0 {
            Err(HarnessError::ArtifactError)
        } else {
            Ok(ContractArtifact { bytecode, abi })
        }
    }
}

} // verus!
