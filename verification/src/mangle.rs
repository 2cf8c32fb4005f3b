//! Name mangling: a concrete function is cached and addressed by a name
//! derived deterministically from the source name and the argument-type
//! signature of the call. The encoding is injective, so two different
//! signatures can never collide on one cache slot, and two calls with the
//! same name and signature always produce the same mangled name.

use vstd::prelude::*;
use vstd::string::StringExecFns;

use crate::types::Type;

verus! {

/// An argument-type signature together with the resolved return type.
#[derive(Debug, Clone, PartialEq, Eq)]
pub struct FnSig {
    pub arg_ty: Vec<Type>,
    pub out_ty: Type,
}

/// One code character per scalar type.
pub open spec fn type_code(t: Type) -> char {
    match t {
        Type::F64 => 'f',
        Type::I64 => 'i',
        Type::U64 => 'u',
        Type::Bool => 'b',
        Type::Unit => 't',
        Type::Unresolved => 'x',
    }
}

/// The signature encoding: one code character per argument type.
pub open spec fn sig_code(sig: Seq<Type>) -> Seq<char>
    decreases sig,
{
    if sig.len() == 0 {
        Seq::empty()
    } else {
        seq![type_code(sig[0])] + sig_code(sig.drop_first())
    }
}

/// The mangled name: the signature encoding, one underscore, then the
/// source name.
pub open spec fn mangled(sig: Seq<Type>, name: Seq<char>) -> Seq<char> {
    sig_code(sig) + seq!['_'] + name
}

/// The signature encoding has one character per argument, that character is
/// the argument's type code, and it is never an underscore.
pub broadcast proof fn lemma_sig_code_shape(sig: Seq<Type>)
    ensures
        (#[trigger] sig_code(sig)).len() == sig.len(),
        forall|i: int|
            0 <= i < sig.len() ==> sig_code(sig)[i] == type_code(sig[i]) && sig_code(sig)[i]
                != '_',
    decreases sig,
{
    if sig.len() > 0 {
        lemma_sig_code_shape(sig.drop_first());
    }
}

/// The signature encoding is injective.
pub proof fn lemma_sig_code_injective(s1: Seq<Type>, s2: Seq<Type>)
    requires
        sig_code(s1) == sig_code(s2),
    ensures
        s1 == s2,
{
    lemma_sig_code_shape(s1);
    lemma_sig_code_shape(s2);
    assert forall|i: int| 0 <= i < s1.len() implies s1[i] == s2[i] by {
        assert(sig_code(s1)[i] == type_code(s1[i]));
        assert(sig_code(s2)[i] == type_code(s2[i]));
    }
    assert(s1 =~= s2);
}

/// Mangling is injective: equal mangled names can only come from the same
/// source name and the same argument-type signature.
pub proof fn lemma_mangled_injective(s1: Seq<Type>, n1: Seq<char>, s2: Seq<Type>, n2: Seq<char>)
    requires
        mangled(s1, n1) == mangled(s2, n2),
    ensures
        s1 == s2,
        n1 == n2,
{
    lemma_sig_code_shape(s1);
    lemma_sig_code_shape(s2);
    let c1 = sig_code(s1);
    let c2 = sig_code(s2);
    let w = mangled(s1, n1);
    assert(w.len() == c1.len() + 1 + n1.len());
    assert(w.len() == c2.len() + 1 + n2.len());
    // The first underscore of the mangled name stands exactly after the
    // signature encoding, so the encodings have one length.
    if c1.len() < c2.len() {
        assert(w[c1.len() as int] == '_');
        assert(w[c1.len() as int] == c2[c1.len() as int]);
        assert(false);
    }
    if c2.len() < c1.len() {
        assert(w[c2.len() as int] == '_');
        assert(w[c2.len() as int] == c1[c2.len() as int]);
        assert(false);
    }
    assert forall|i: int| 0 <= i < c1.len() implies c1[i] == c2[i] by {
        assert(w[i] == c1[i]);
        assert(w[i] == c2[i]);
    }
    assert(c1 =~= c2);
    lemma_sig_code_injective(s1, s2);
    assert forall|i: int| 0 <= i < n1.len() implies n1[i] == n2[i] by {
        assert(w[c1.len() + 1 + i] == n1[i]);
        assert(w[c2.len() + 1 + i] == n2[i]);
    }
    assert(n1 =~= n2);
}

fn append_type_code(s: &mut String, t: Type)
    ensures
        final(s)@ == old(s)@ + seq![type_code(t)],
{
    match t {
        Type::F64 => {
            proof {
                reveal_strlit("f");
                assert("f"@ =~= seq!['f']);
            }
            s.append("f");
        },
        Type::I64 => {
            proof {
                reveal_strlit("i");
                assert("i"@ =~= seq!['i']);
            }
            s.append("i");
        },
        Type::U64 => {
            proof {
                reveal_strlit("u");
                assert("u"@ =~= seq!['u']);
            }
            s.append("u");
        },
        Type::Bool => {
            proof {
                reveal_strlit("b");
                assert("b"@ =~= seq!['b']);
            }
            s.append("b");
        },
        Type::Unit => {
            proof {
                reveal_strlit("t");
                assert("t"@ =~= seq!['t']);
            }
            s.append("t");
        },
        Type::Unresolved => {
            proof {
                reveal_strlit("x");
                assert("x"@ =~= seq!['x']);
            }
            s.append("x");
        },
    }
}

/// Build the mangled cache name for `name` called with the argument types
/// `sig`.
pub fn generic_mangle(sig: &[Type], name: &str) -> (r: String)
    ensures
        r@ == mangled(sig@, name@),
{
    let mut s = String::new();
    let mut i: usize = 0;
    proof {
        assert(sig@.take(0) =~= Seq::<Type>::empty());
    }
    while i < sig.len()
        invariant
            i <= sig@.len(),
            s@ == sig_code(sig@.take(i as int)),
        decreases sig@.len() - i,
    {
        append_type_code(&mut s, sig[i]);
        proof {
            lemma_sig_code_snoc(sig@.take(i as int), sig@[i as int]);
            assert(sig@.take(i as int).push(sig@[i as int]) =~= sig@.take(i as int + 1));
        }
        i += 1;
    }
    proof {
        assert(sig@.take(sig@.len() as int) =~= sig@);
        reveal_strlit("_");
        assert("_"@ =~= seq!['_']);
    }
    s.append("_");
    s.append(name);
    s
}

proof fn lemma_sig_code_snoc(sig: Seq<Type>, t: Type)
    ensures
        sig_code(sig.push(t)) == sig_code(sig) + seq![type_code(t)],
    decreases sig,
{
    if sig.len() == 0 {
        assert(sig.push(t)[0] == t);
        assert(sig.push(t).drop_first() =~= Seq::<Type>::empty());
        assert(sig_code(Seq::<Type>::empty()) =~= Seq::<char>::empty());
        assert(sig_code(sig.push(t)) =~= sig_code(sig) + seq![type_code(t)]);
    } else {
        assert(sig.push(t).drop_first() =~= sig.drop_first().push(t));
        lemma_sig_code_snoc(sig.drop_first(), t);
        assert(sig_code(sig.push(t)) =~= sig_code(sig) + seq![type_code(t)]);
    }
}

} // verus!
