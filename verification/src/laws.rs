//! The stated laws of the compiler, proved against the spec mirrors that
//! the executable passes are pinned to.

use vstd::prelude::*;

use crate::ast::{AstModuleV, ExprV, Loc, size_expr, size_exprs_from, size_stmt, size_stmts_from};
use crate::check::{
    ck_expr, ck_exprs, ck_resolve, ck_stmt, ck_stmts, CkResolve, CoV, ScV, TplV,
};
use crate::compiler::{compile_v, exec_entry_v, CompiledModuleV, OptLevel};
use crate::eval::RunVal;
use crate::mangle::mangled;
use crate::registry::{assoc_distinct, assoc_find, assoc_set, entry_ret, lemma_assoc_set, EntryV};
use crate::types::{spec_binary_result, spec_branch_result, BinaryOp, Type};

verus! {

/// Determinism: compiling one and the same AST twice yields one and the
/// same module.
pub proof fn lemma_compile_deterministic(m1: AstModuleV, m2: AstModuleV, opt: OptLevel, gas: nat)
    requires
        m1 == m2,
    ensures
        compile_v(m1, opt, gas) == compile_v(m2, opt, gas),
{
}

/// Determinism, through execution: the entry points of the modules
/// compiled from one and the same AST produce identical outputs for
/// identical inputs.
pub proof fn lemma_run_deterministic(
    m1: AstModuleV,
    m2: AstModuleV,
    opt: OptLevel,
    gas: nat,
    name: Seq<char>,
    args: Seq<RunVal>,
)
    requires
        m1 == m2,
        compile_v(m1, opt, gas) is Ok,
    ensures
        exec_entry_v(compile_v(m1, opt, gas)->Ok_0, name, args) == exec_entry_v(
            compile_v(m2, opt, gas)->Ok_0,
            name,
            args,
        ),
{
}

// ---------------------------------------------------------------------------
// The solver's cache keeps one entry per key through the whole walk
// ---------------------------------------------------------------------------

pub proof fn lemma_ck_expr_distinct(tpl: TplV, e: ExprV, sc: ScV, co: CoV, gas: nat)
    requires
        assoc_distinct(co),
    ensures
        assoc_distinct(ck_expr(tpl, e, sc, co, gas).co),
    decreases gas, size_expr(e),
{
    match e.kind {
        crate::ast::ExprKindV::Lit(_) => {},
        crate::ast::ExprKindV::Unary(op, a) => {
            lemma_ck_expr_distinct(tpl, *a, sc, co, gas);
        },
        crate::ast::ExprKindV::Binary(op, s) => {
            lemma_ck_expr_distinct(tpl, s.lhs, sc, co, gas);
            let o1 = ck_expr(tpl, s.lhs, sc, co, gas);
            if o1.res is Ok {
                lemma_ck_expr_distinct(tpl, s.rhs, o1.sc, o1.co, gas);
            }
        },
        crate::ast::ExprKindV::Branch(t, a, b) => {
            lemma_ck_expr_distinct(tpl, *t, sc, co, gas);
            let o1 = ck_expr(tpl, *t, sc, co, gas);
            if o1.res is Ok {
                lemma_ck_expr_distinct(tpl, *a, o1.sc, o1.co, gas);
                let o2 = ck_expr(tpl, *a, o1.sc, o1.co, gas);
                if o2.res is Ok {
                    lemma_ck_expr_distinct(tpl, *b, o2.sc, o2.co, gas);
                }
            }
        },
        crate::ast::ExprKindV::Access(_) => {},
        crate::ast::ExprKindV::Call(n, args) => {
            lemma_ck_exprs_distinct(tpl, args, 0, sc, co, gas);
            let o = ck_exprs(tpl, args, 0, sc, co, gas);
            if o.res is Ok {
                lemma_ck_resolve_distinct(
                    tpl,
                    e.loc,
                    n,
                    crate::check::args_sig(o.res->Ok_0),
                    o.co,
                    gas,
                );
            }
        },
        crate::ast::ExprKindV::Scope(stmts) => {
            lemma_ck_stmts_distinct(tpl, stmts, 0, sc.push(Map::empty()), co, gas);
        },
    }
}

pub proof fn lemma_ck_exprs_distinct(
    tpl: TplV,
    es: Seq<ExprV>,
    i: int,
    sc: ScV,
    co: CoV,
    gas: nat,
)
    requires
        assoc_distinct(co),
    ensures
        assoc_distinct(ck_exprs(tpl, es, i, sc, co, gas).co),
    decreases gas, size_exprs_from(es, i),
{
    if 0 <= i < es.len() {
        lemma_ck_expr_distinct(tpl, es[i], sc, co, gas);
        let o = ck_expr(tpl, es[i], sc, co, gas);
        if o.res is Ok {
            lemma_ck_exprs_distinct(tpl, es, i + 1, o.sc, o.co, gas);
        }
    }
}

pub proof fn lemma_ck_stmt_distinct(
    tpl: TplV,
    s: crate::ast::StatementV,
    sc: ScV,
    co: CoV,
    gas: nat,
)
    requires
        assoc_distinct(co),
    ensures
        assoc_distinct(ck_stmt(tpl, s, sc, co, gas).co),
    decreases gas, size_stmt(s),
{
    match s {
        crate::ast::StatementV::Expr(e) => {
            lemma_ck_expr_distinct(tpl, e, sc, co, gas);
        },
        crate::ast::StatementV::Let(n, e) => {
            lemma_ck_expr_distinct(tpl, e, sc, co, gas);
        },
    }
}

pub proof fn lemma_ck_stmts_distinct(
    tpl: TplV,
    ss: Seq<crate::ast::StatementV>,
    i: int,
    sc: ScV,
    co: CoV,
    gas: nat,
)
    requires
        assoc_distinct(co),
    ensures
        assoc_distinct(ck_stmts(tpl, ss, i, sc, co, gas).co),
    decreases gas, size_stmts_from(ss, i),
{
    if 0 <= i < ss.len() {
        lemma_ck_stmt_distinct(tpl, ss[i], sc, co, gas);
        let o = ck_stmt(tpl, ss[i], sc, co, gas);
        if o.res is Ok {
            lemma_ck_stmts_distinct(tpl, ss, i + 1, o.sc, o.co, gas);
        }
    }
}

pub proof fn lemma_ck_resolve_distinct(
    tpl: TplV,
    loc: Loc,
    name: Seq<char>,
    sig: Seq<Type>,
    co: CoV,
    gas: nat,
)
    requires
        assoc_distinct(co),
    ensures
        assoc_distinct(ck_resolve(tpl, loc, name, sig, co, gas).co),
    decreases gas, 0nat,
{
    let m = mangled(sig, name);
    if assoc_find(co, m) is None {
        match assoc_find(tpl, name) {
            None => {},
            Some(t) => {
                if crate::check::sig_resolved(sig) && t.params.len() == sig.len() && gas > 0 {
                    let co1 = assoc_set(co, m, EntryV::Provisional(t.ret));
                    lemma_assoc_set(co, m, EntryV::Provisional(t.ret));
                    lemma_ck_expr_distinct(
                        tpl,
                        t.body,
                        seq![crate::check::params_frame(t.params, sig)],
                        co1,
                        (gas - 1) as nat,
                    );
                    let o = ck_expr(
                        tpl,
                        t.body,
                        seq![crate::check::params_frame(t.params, sig)],
                        co1,
                        (gas - 1) as nat,
                    );
                    if o.res is Ok {
                        let bty = crate::check::ty_of(o.res->Ok_0);
                        if !(t.ret != Type::Unresolved && bty != t.ret) && bty
                            != Type::Unresolved {
                            lemma_assoc_set(
                                o.co,
                                m,
                                EntryV::Done(
                                    crate::registry::ConcreteFnV {
                                        mangled: m,
                                        params: crate::check::bind_params(t.params, sig),
                                        ret: bty,
                                        body: o.res->Ok_0,
                                    },
                                ),
                            );
                        }
                    }
                }
            },
        }
    }
}

// ---------------------------------------------------------------------------
// Monomorphization uniqueness
// ---------------------------------------------------------------------------

/// A call whose mangled key is already cached answers from the cache and
/// changes nothing — whatever location or budget the call carries.
pub proof fn lemma_resolve_cached(
    tpl: TplV,
    loc: Loc,
    name: Seq<char>,
    sig: Seq<Type>,
    co: CoV,
    gas: nat,
)
    requires
        assoc_find(co, mangled(sig, name)) is Some,
    ensures
        ck_resolve(tpl, loc, name, sig, co, gas) == (CkResolve {
            res: Ok::<Type, crate::err::TypeErrorV>(
                entry_ret(assoc_find(co, mangled(sig, name))->Some_0),
            ),
            co,
        }),
{
}

/// Monomorphization uniqueness: once a call of `name` with an
/// argument-type signature has resolved, every later call with the same
/// name and signature resolves to the very same concrete function — same
/// return type, same cache, nothing re-specialized.
pub proof fn lemma_monomorphization_unique(
    tpl: TplV,
    loc1: Loc,
    loc2: Loc,
    name: Seq<char>,
    sig: Seq<Type>,
    co: CoV,
    gas1: nat,
    gas2: nat,
)
    requires
        assoc_distinct(co),
        ck_resolve(tpl, loc1, name, sig, co, gas1).res is Ok,
    ensures
        ({
            let r1 = ck_resolve(tpl, loc1, name, sig, co, gas1);
            let r2 = ck_resolve(tpl, loc2, name, sig, r1.co, gas2);
            r2.res == r1.res && r2.co == r1.co
        }),
{
    let m = mangled(sig, name);
    let r1 = ck_resolve(tpl, loc1, name, sig, co, gas1);
    match assoc_find(co, m) {
        Some(e) => {},
        None => {
            let t = assoc_find(tpl, name)->Some_0;
            let co1 = assoc_set(co, m, EntryV::Provisional(t.ret));
            lemma_assoc_set(co, m, EntryV::Provisional(t.ret));
            let o = ck_expr(
                tpl,
                t.body,
                seq![crate::check::params_frame(t.params, sig)],
                co1,
                (gas1 - 1) as nat,
            );
            lemma_ck_expr_distinct(
                tpl,
                t.body,
                seq![crate::check::params_frame(t.params, sig)],
                co1,
                (gas1 - 1) as nat,
            );
            let bty = crate::check::ty_of(o.res->Ok_0);
            let f = crate::registry::ConcreteFnV {
                mangled: m,
                params: crate::check::bind_params(t.params, sig),
                ret: bty,
                body: o.res->Ok_0,
            };
            lemma_assoc_set(o.co, m, EntryV::Done(f));
            assert(assoc_find(r1.co, m) == Some(EntryV::Done(f)));
        },
    }
}

// ---------------------------------------------------------------------------
// Branch and operator typing laws
// ---------------------------------------------------------------------------

/// Branch value/unit symmetry: arms of one common type give a branch of
/// that type — two valued arms give a valued branch, two unit arms a unit
/// one — while arms of two different resolved types never type-check (the
/// checker reports the mismatch).
pub proof fn lemma_branch_value_unit_symmetry(t1: Type, t2: Type)
    ensures
        t1 == t2 ==> spec_branch_result(t1, t2) == Some(t1),
        t1 != t2 && t1 != Type::Unresolved && t2 != Type::Unresolved ==> spec_branch_result(
            t1,
            t2,
        ) is None,
{
}

/// Numeric promotion: a mixed integer/float pair promotes to float under
/// the arithmetic operators, and a same-type integer pair keeps its type.
pub proof fn lemma_numeric_promotion(op: BinaryOp)
    requires
        !op.spec_is_boolean(),
    ensures
        spec_binary_result(op, Type::I64, Type::F64) == Some(Type::F64),
        spec_binary_result(op, Type::F64, Type::I64) == Some(Type::F64),
        spec_binary_result(op, Type::I64, Type::I64) == Some(Type::I64),
        spec_binary_result(op, Type::U64, Type::U64) == Some(Type::U64),
        spec_binary_result(op, Type::F64, Type::F64) == Some(Type::F64),
{
}

} // verus!
