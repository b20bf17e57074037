//! Method signatures and their canonical string form.
//!
//! The embedded VM resolves methods dynamically by an exact string key:
//! `name(_,_,...)` with arity-many underscores for a function, the bare
//! `name` for a getter, and `name=(_)` for a setter.

use vstd::prelude::*;
use vstd::string::StringExecFns;

verus! {

/// A method signature, tagged by kind: a function of some arity, a getter,
/// or a setter.
#[derive(Debug, Clone)]
pub enum FunctionSignature {
    Function { name: String, arity: usize },
    Getter(String),
    Setter(String),
}

/// The arity-many underscores, separated by commas, that stand between the
/// parentheses of a function signature: `` (empty), `_`, `_,_`, ...
pub open spec fn spec_underscore_args(arity: nat) -> Seq<char>
    decreases arity,
{
    if arity == 0 {
        Seq::empty()
    } else if arity == 1 {
        seq!['_']
    } else {
        spec_underscore_args((arity - 1) as nat) + seq![',', '_']
    }
}

impl FunctionSignature {
    /// The canonical string the VM uses as its method-resolution key.
    pub open spec fn spec_wren_string(&self) -> Seq<char> {
        match self {
            FunctionSignature::Function { name, arity } => name@ + seq!['(']
                + spec_underscore_args(*arity as nat) + seq![')'],
            FunctionSignature::Getter(name) => name@,
            FunctionSignature::Setter(name) => name@ + seq!['=', '(', '_', ')'],
        }
    }

    pub open spec fn spec_arity(&self) -> nat {
        match self {
            FunctionSignature::Function { arity, .. } => *arity as nat,
            FunctionSignature::Getter(_) => 0,
            FunctionSignature::Setter(_) => 1,
        }
    }

    pub fn new_function(name: &str, arity: usize) -> (r: FunctionSignature)
        ensures
            r matches FunctionSignature::Function { name: n, arity: a } && n@ == name@ && a
                == arity,
            r.spec_wren_string() == name@ + seq!['('] + spec_underscore_args(arity as nat)
                + seq![')'],
    {
        FunctionSignature::Function { name: String::from_str(name), arity }
    }

    pub fn new_getter(name: &str) -> (r: FunctionSignature)
        ensures
            r matches FunctionSignature::Getter(n) && n@ == name@,
            r.spec_wren_string() == name@,
    {
        FunctionSignature::Getter(String::from_str(name))
    }

    pub fn new_setter(name: &str) -> (r: FunctionSignature)
        ensures
            r matches FunctionSignature::Setter(n) && n@ == name@,
            r.spec_wren_string() == name@ + seq!['=', '(', '_', ')'],
    {
        FunctionSignature::Setter(String::from_str(name))
    }

    /// Render the canonical method-resolution string.
    pub fn as_wren_string(&self) -> (r: String)
        ensures
            r@ == self.spec_wren_string(),
    {
        match self {
            FunctionSignature::Function { name, arity } => {
                let mut r = name.clone();
                r.append("(");
                proof {
                    reveal_strlit("(");
                    assert(r@ == name@ + seq!['(']);
                    assert(spec_underscore_args(0) == Seq::<char>::empty());
                    assert(r@ + spec_underscore_args(0) == r@);
                }
                let mut i: usize = 0;
                let ghost base: Seq<char> = r@;
                while i < *arity
                    invariant
                        i <= *arity,
                        r@ == base + spec_underscore_args(i as nat),
                    decreases *arity - i,
                {
                    if i == 0 {
                        r.append("_");
                        proof {
                            reveal_strlit("_");
                            assert(spec_underscore_args(1) == seq!['_']);
                            assert(r@ =~= base + spec_underscore_args(1));
                        }
                    } else {
                        r.append(",_");
                        proof {
                            reveal_strlit(",_");
                            assert(","@ + "_"@ =~= seq![',', '_']) by {
                                reveal_strlit(",");
                                reveal_strlit("_");
                            }
                            assert(",_"@ =~= seq![',', '_']) by {
                                reveal_strlit(",_");
                            }
                            assert(r@ =~= base + spec_underscore_args((i + 1) as nat));
                        }
                    }
                    i = i + 1;
                }
                r.append(")");
                proof {
                    reveal_strlit(")");
                    assert(r@ =~= self.spec_wren_string());
                }
                r
            },
            FunctionSignature::Getter(name) => name.clone(),
            FunctionSignature::Setter(name) => {
                let mut r = name.clone();
                r.append("=(_)");
                proof {
                    reveal_strlit("=(_)");
                    assert(r@ =~= name@ + seq!['=', '(', '_', ')']);
                }
                r
            },
        }
    }

    /// How many arguments a call through this signature passes: the declared
    /// arity for a function, none for a getter, one for a setter.
    pub fn arity(&self) -> (r: usize)
        ensures
            r as nat == self.spec_arity(),
    {
        match self {
            FunctionSignature::Function { arity, .. } => *arity,
            FunctionSignature::Getter(_) => 0,
            FunctionSignature::Setter(_) => 1,
        }
    }
}

} // verus!
