//! The type checker and generic solver.
//!
//! One post-order walk assigns a type to every expression node. Calls are
//! delegated to the solver: a call's argument types are mangled with the
//! function name into a cache key; a cached slot (filled or merely
//! reserved) answers immediately, otherwise the template is specialized
//! once for that signature and the finished function is cached for every
//! later call that shares it.
//!
//! The whole pass is mirrored by spec functions (`ck_*`); every executable
//! function returns exactly what its mirror says, which pins the checker
//! down as a mathematical function of the input module.

use vstd::prelude::*;

use crate::ast::{
    Expr, ExprKind, ExprV, ExprKindV, Loc, Param, ParamV, Statement, StatementV, Template,
    TemplateV, AstModule, AstModuleV, size_expr, size_exprs_from, size_stmt, size_stmts_from,
    view_exprs, view_stmts, lemma_view_exprs, lemma_view_stmts,
};
use crate::err::{TypeError, TypeErrorV};
use crate::mangle::{generic_mangle, mangled};
use crate::registry::{
    assoc_find, assoc_set, done_fns, view_concrete_fns, ConcreteFn, ConcreteFnV, ConcreteTable,
    Entry, EntryV, entry_ret, Templates,
};
use crate::scope_table::{stack_lookup, ScopeTable};
use crate::types::{
    spec_binary_result, spec_branch_result, spec_lit_type, spec_unary_result, binary_result,
    branch_result, lit_type, unary_result, Lit, Sides, Type, UnaryOp, BinaryOp,
};

verus! {

/// The scope-table state of the walk.
pub type ScV = Seq<Map<Seq<char>, Type>>;

/// The concrete-function cache state of the walk.
pub type CoV = Seq<(Seq<char>, EntryV)>;

/// The immutable template table.
pub type TplV = Seq<(Seq<char>, TemplateV)>;

/// The type recorded on an annotated node; an unannotated node reads as
/// the unresolved placeholder.
pub open spec fn ty_of(e: ExprV) -> Type {
    match e.ty {
        Some(t) => t,
        None => Type::Unresolved,
    }
}

/// A statement's type is the type of its expression; a `let` takes the
/// type of its bound expression, so that a binding can close a scope.
pub open spec fn ty_of_stmt(s: StatementV) -> Type {
    match s {
        StatementV::Expr(e) => ty_of(e),
        StatementV::Let(_, e) => ty_of(e),
    }
}

/// The argument-type signature of a sequence of checked arguments.
pub open spec fn args_sig(args: Seq<ExprV>) -> Seq<Type> {
    Seq::new(args.len(), |i: int| ty_of(args[i]))
}

/// No argument type is the unresolved placeholder.
pub open spec fn sig_resolved(sig: Seq<Type>) -> bool {
    forall|i: int| 0 <= i < sig.len() ==> sig[i] != Type::Unresolved
}

/// The scope frame binding each parameter to the corresponding argument
/// type.
pub open spec fn params_frame(params: Seq<ParamV>, sig: Seq<Type>) -> Map<Seq<char>, Type>
    decreases params.len(),
{
    if params.len() == 0 || sig.len() == 0 {
        Map::empty()
    } else {
        params_frame(params.drop_last(), sig.drop_last()).insert(params.last().name, sig.last())
    }
}

/// The parameter list of a specialization: the template's names with the
/// call's argument types.
pub open spec fn bind_params(params: Seq<ParamV>, sig: Seq<Type>) -> Seq<ParamV> {
    Seq::new(params.len(), |i: int| ParamV { name: params[i].name, ty: sig[i], loc: params[i].loc })
}

/// A template whose parameter and return types are all annotated.
pub open spec fn tpl_non_generic(t: TemplateV) -> bool {
    t.ret != Type::Unresolved && forall|i: int|
        0 <= i < t.params.len() ==> (#[trigger] t.params[i]).ty != Type::Unresolved
}

/// The declared signature of a template.
pub open spec fn tpl_sig(t: TemplateV) -> Seq<Type> {
    Seq::new(t.params.len(), |i: int| t.params[i].ty)
}

/// The name of the synthesized entry function that carries the top-level
/// statements.
pub open spec fn global_name() -> Seq<char> {
    seq!['_', '_', 'g', 'l', 'o', 'b', 'a', 'l']
}

// ---------------------------------------------------------------------------
// Outcomes of the walk
// ---------------------------------------------------------------------------

pub struct CkExpr {
    pub res: Result<ExprV, TypeErrorV>,
    pub sc: ScV,
    pub co: CoV,
}

pub struct CkExprs {
    pub res: Result<Seq<ExprV>, TypeErrorV>,
    pub sc: ScV,
    pub co: CoV,
}

pub struct CkStmt {
    pub res: Result<StatementV, TypeErrorV>,
    pub sc: ScV,
    pub co: CoV,
}

pub struct CkStmts {
    pub res: Result<Seq<StatementV>, TypeErrorV>,
    pub sc: ScV,
    pub co: CoV,
}

pub struct CkResolve {
    pub res: Result<Type, TypeErrorV>,
    pub co: CoV,
}

// ---------------------------------------------------------------------------
// The checking walk, as spec functions
// ---------------------------------------------------------------------------

/// Check one expression: annotate it and every node below it with a type,
/// or stop at the first error.
pub open spec fn ck_expr(tpl: TplV, e: ExprV, sc: ScV, co: CoV, gas: nat) -> CkExpr
    decreases gas, size_expr(e),
{
    match e.kind {
        ExprKindV::Lit(l) => CkExpr {
            res: Ok(ExprV { loc: e.loc, ty: Some(spec_lit_type(l)), kind: ExprKindV::Lit(l) }),
            sc,
            co,
        },
        ExprKindV::Unary(op, a) => {
            let o = ck_expr(tpl, *a, sc, co, gas);
            match o.res {
                Err(er) => CkExpr { res: Err(er), sc: o.sc, co: o.co },
                Ok(ae) => match spec_unary_result(op, ty_of(ae)) {
                    None => CkExpr {
                        res: Err(TypeErrorV::InvalidUnaryOp(e.loc, op, ty_of(ae))),
                        sc: o.sc,
                        co: o.co,
                    },
                    Some(t) => CkExpr {
                        res: Ok(
                            ExprV {
                                loc: e.loc,
                                ty: Some(t),
                                kind: ExprKindV::Unary(op, Box::new(ae)),
                            },
                        ),
                        sc: o.sc,
                        co: o.co,
                    },
                },
            }
        },
        ExprKindV::Binary(op, s) => {
            let o1 = ck_expr(tpl, s.lhs, sc, co, gas);
            match o1.res {
                Err(er) => CkExpr { res: Err(er), sc: o1.sc, co: o1.co },
                Ok(al) => {
                    let o2 = ck_expr(tpl, s.rhs, o1.sc, o1.co, gas);
                    match o2.res {
                        Err(er) => CkExpr { res: Err(er), sc: o2.sc, co: o2.co },
                        Ok(ar) => match spec_binary_result(op, ty_of(al), ty_of(ar)) {
                            None => CkExpr {
                                res: Err(
                                    TypeErrorV::InvalidBinaryOp(e.loc, ty_of(al), op, ty_of(ar)),
                                ),
                                sc: o2.sc,
                                co: o2.co,
                            },
                            Some(t) => CkExpr {
                                res: Ok(
                                    ExprV {
                                        loc: e.loc,
                                        ty: Some(t),
                                        kind: ExprKindV::Binary(
                                            op,
                                            Box::new(Sides { lhs: al, rhs: ar }),
                                        ),
                                    },
                                ),
                                sc: o2.sc,
                                co: o2.co,
                            },
                        },
                    }
                },
            }
        },
        ExprKindV::Branch(t, a, b) => {
            let o1 = ck_expr(tpl, *t, sc, co, gas);
            match o1.res {
                Err(er) => CkExpr { res: Err(er), sc: o1.sc, co: o1.co },
                Ok(at) => {
                    let o2 = ck_expr(tpl, *a, o1.sc, o1.co, gas);
                    match o2.res {
                        Err(er) => CkExpr { res: Err(er), sc: o2.sc, co: o2.co },
                        Ok(aa) => {
                            let o3 = ck_expr(tpl, *b, o2.sc, o2.co, gas);
                            match o3.res {
                                Err(er) => CkExpr { res: Err(er), sc: o3.sc, co: o3.co },
                                Ok(ab) => if ty_of(at) != Type::Bool {
                                    CkExpr {
                                        res: Err(
                                            TypeErrorV::TypeMismatch(
                                                at.loc,
                                                Type::Bool,
                                                ty_of(at),
                                            ),
                                        ),
                                        sc: o3.sc,
                                        co: o3.co,
                                    }
                                } else {
                                    match spec_branch_result(ty_of(aa), ty_of(ab)) {
                                        None => CkExpr {
                                            res: Err(
                                                TypeErrorV::TypeMismatch(
                                                    ab.loc,
                                                    ty_of(aa),
                                                    ty_of(ab),
                                                ),
                                            ),
                                            sc: o3.sc,
                                            co: o3.co,
                                        },
                                        Some(ty) => CkExpr {
                                            res: Ok(
                                                ExprV {
                                                    loc: e.loc,
                                                    ty: Some(ty),
                                                    kind: ExprKindV::Branch(
                                                        Box::new(at),
                                                        Box::new(aa),
                                                        Box::new(ab),
                                                    ),
                                                },
                                            ),
                                            sc: o3.sc,
                                            co: o3.co,
                                        },
                                    }
                                },
                            }
                        },
                    }
                },
            }
        },
        ExprKindV::Access(n) => match stack_lookup(sc, n) {
            Some(t) => CkExpr {
                res: Ok(ExprV { loc: e.loc, ty: Some(t), kind: ExprKindV::Access(n) }),
                sc,
                co,
            },
            None => CkExpr { res: Err(TypeErrorV::VariableNotFound(e.loc, n)), sc, co },
        },
        ExprKindV::Call(n, args) => {
            let o = ck_exprs(tpl, args, 0, sc, co, gas);
            match o.res {
                Err(er) => CkExpr { res: Err(er), sc: o.sc, co: o.co },
                Ok(aas) => {
                    let r = ck_resolve(tpl, e.loc, n, args_sig(aas), o.co, gas);
                    match r.res {
                        Err(er) => CkExpr { res: Err(er), sc: o.sc, co: r.co },
                        Ok(ty) => CkExpr {
                            res: Ok(
                                ExprV {
                                    loc: e.loc,
                                    ty: Some(ty),
                                    kind: ExprKindV::Call(n, aas),
                                },
                            ),
                            sc: o.sc,
                            co: r.co,
                        },
                    }
                },
            }
        },
        ExprKindV::Scope(stmts) => {
            let o = ck_stmts(tpl, stmts, 0, sc.push(Map::empty()), co, gas);
            match o.res {
                Err(er) => CkExpr { res: Err(er), sc: o.sc, co: o.co },
                Ok(ss) => {
                    let ty = if ss.len() == 0 {
                        Type::Unit
                    } else {
                        ty_of_stmt(ss.last())
                    };
                    CkExpr {
                        res: Ok(ExprV { loc: e.loc, ty: Some(ty), kind: ExprKindV::Scope(ss) }),
                        sc: o.sc.drop_last(),
                        co: o.co,
                    }
                },
            }
        },
    }
}

/// Check the arguments of a call from index `i` on, left to right.
pub open spec fn ck_exprs(tpl: TplV, es: Seq<ExprV>, i: int, sc: ScV, co: CoV, gas: nat) -> CkExprs
    decreases gas, size_exprs_from(es, i),
{
    if i < 0 || i >= es.len() {
        CkExprs { res: Ok(Seq::empty()), sc, co }
    } else {
        let o = ck_expr(tpl, es[i], sc, co, gas);
        match o.res {
            Err(er) => CkExprs { res: Err(er), sc: o.sc, co: o.co },
            Ok(ae) => {
                let rest = ck_exprs(tpl, es, i + 1, o.sc, o.co, gas);
                match rest.res {
                    Err(er) => CkExprs { res: Err(er), sc: rest.sc, co: rest.co },
                    Ok(aes) => CkExprs { res: Ok(seq![ae] + aes), sc: rest.sc, co: rest.co },
                }
            },
        }
    }
}

/// Check one statement. A `let` first checks its right-hand side, then
/// binds the name in the innermost frame.
pub open spec fn ck_stmt(tpl: TplV, s: StatementV, sc: ScV, co: CoV, gas: nat) -> CkStmt
    decreases gas, size_stmt(s),
{
    match s {
        StatementV::Expr(e) => {
            let o = ck_expr(tpl, e, sc, co, gas);
            match o.res {
                Err(er) => CkStmt { res: Err(er), sc: o.sc, co: o.co },
                Ok(ae) => CkStmt { res: Ok(StatementV::Expr(ae)), sc: o.sc, co: o.co },
            }
        },
        StatementV::Let(n, e) => {
            let o = ck_expr(tpl, e, sc, co, gas);
            match o.res {
                Err(er) => CkStmt { res: Err(er), sc: o.sc, co: o.co },
                Ok(ae) => CkStmt {
                    res: Ok(StatementV::Let(n, ae)),
                    sc: o.sc.update(o.sc.len() - 1, o.sc.last().insert(n, ty_of(ae))),
                    co: o.co,
                },
            }
        },
    }
}

/// Check the statements of a scope from index `i` on, in order, inside the
/// frame the caller opened.
pub open spec fn ck_stmts(tpl: TplV, ss: Seq<StatementV>, i: int, sc: ScV, co: CoV, gas: nat) -> CkStmts
    decreases gas, size_stmts_from(ss, i),
{
    if i < 0 || i >= ss.len() {
        CkStmts { res: Ok(Seq::empty()), sc, co }
    } else {
        let o = ck_stmt(tpl, ss[i], sc, co, gas);
        match o.res {
            Err(er) => CkStmts { res: Err(er), sc: o.sc, co: o.co },
            Ok(a) => {
                let rest = ck_stmts(tpl, ss, i + 1, o.sc, o.co, gas);
                match rest.res {
                    Err(er) => CkStmts { res: Err(er), sc: rest.sc, co: rest.co },
                    Ok(aas) => CkStmts { res: Ok(seq![a] + aas), sc: rest.sc, co: rest.co },
                }
            },
        }
    }
}

/// Resolve a call: answer from the cache (a reserved slot answers with its
/// hint, which is what breaks recursion), or specialize the template for
/// this signature, cache the result, and answer with its return type.
pub open spec fn ck_resolve(
    tpl: TplV,
    loc: Loc,
    name: Seq<char>,
    sig: Seq<Type>,
    co: CoV,
    gas: nat,
) -> CkResolve
    decreases gas, 0nat,
{
    let m = mangled(sig, name);
    match assoc_find(co, m) {
        Some(e) => CkResolve { res: Ok(entry_ret(e)), co },
        None => match assoc_find(tpl, name) {
            None => CkResolve { res: Err(TypeErrorV::FunctionNotFound(loc, name)), co },
            Some(t) => if !sig_resolved(sig) {
                CkResolve { res: Err(TypeErrorV::UnresolvedArg(loc)), co }
            } else if t.params.len() != sig.len() {
                CkResolve {
                    res: Err(TypeErrorV::ArgCountMismatch(loc, t.params.len() as usize, sig.len() as usize)),
                    co,
                }
            } else if gas == 0 {
                CkResolve { res: Err(TypeErrorV::DepthExceeded(loc)), co }
            } else {
                let co1 = assoc_set(co, m, EntryV::Provisional(t.ret));
                let o = ck_expr(
                    tpl,
                    t.body,
                    seq![params_frame(t.params, sig)],
                    co1,
                    (gas - 1) as nat,
                );
                match o.res {
                    Err(er) => CkResolve { res: Err(er), co: o.co },
                    Ok(body) => {
                        let bty = ty_of(body);
                        if t.ret != Type::Unresolved && bty != t.ret {
                            CkResolve {
                                res: Err(TypeErrorV::TypeMismatch(t.loc, t.ret, bty)),
                                co: o.co,
                            }
                        } else if bty == Type::Unresolved {
                            CkResolve { res: Err(TypeErrorV::UnresolvedType(t.loc)), co: o.co }
                        } else {
                            CkResolve {
                                res: Ok(bty),
                                co: assoc_set(
                                    o.co,
                                    m,
                                    EntryV::Done(
                                        ConcreteFnV {
                                            mangled: m,
                                            params: bind_params(t.params, sig),
                                            ret: bty,
                                            body,
                                        },
                                    ),
                                ),
                            }
                        }
                    },
                }
            },
        },
    }
}

// ---------------------------------------------------------------------------
// Whole-module checking, as spec functions
// ---------------------------------------------------------------------------

/// The template table built from the module's functions, in order; a later
/// function replaces an earlier one of the same name.
pub open spec fn reg_templates(fs: Seq<TemplateV>) -> TplV
    decreases fs.len(),
{
    if fs.len() == 0 {
        Seq::empty()
    } else {
        assoc_set(reg_templates(fs.drop_last()), fs.last().name, fs.last())
    }
}

pub struct CkEager {
    pub err: Option<TypeErrorV>,
    pub co: CoV,
}

/// Specialize every fully annotated template at its declared signature, in
/// declaration order, so that it is checked and emitted even when nothing
/// in the module calls it.
pub open spec fn ck_eager(tpl: TplV, fs: Seq<TemplateV>, i: int, co: CoV, gas: nat) -> CkEager
    decreases fs.len() - i,
{
    if i < 0 || i >= fs.len() {
        CkEager { err: None, co }
    } else {
        let t = fs[i];
        if tpl_non_generic(t) {
            let r = ck_resolve(tpl, t.loc, t.name, tpl_sig(t), co, gas);
            match r.res {
                Err(e) => CkEager { err: Some(e), co: r.co },
                Ok(_) => ck_eager(tpl, fs, i + 1, r.co, gas),
            }
        } else {
            ck_eager(tpl, fs, i + 1, co, gas)
        }
    }
}

/// A fully checked module: the specialized functions in reservation order
/// (the synthesized entry function last), and the entry function's type.
#[derive(Debug)]
pub struct CheckedModule {
    pub functions: Vec<ConcreteFn>,
    pub global_ty: Type,
}

pub struct CheckedModuleV {
    pub functions: Seq<ConcreteFnV>,
    pub global_ty: Type,
}

impl View for CheckedModule {
    type V = CheckedModuleV;

    open spec fn view(&self) -> CheckedModuleV {
        CheckedModuleV {
            functions: view_concrete_fns(self.functions@),
            global_ty: self.global_ty,
        }
    }
}

/// Check a whole module: register every template, specialize the fully
/// annotated ones, then check the top-level statements (which specialize
/// whatever they call) and synthesize the entry function around them.
pub open spec fn ck_module(m: AstModuleV, gas: nat) -> Result<CheckedModuleV, TypeErrorV> {
    let tpl = reg_templates(m.functions);
    let e1 = ck_eager(tpl, m.functions, 0, Seq::empty(), gas);
    match e1.err {
        Some(e) => Err(e),
        None => {
            let og = ck_stmts(tpl, m.globals, 0, seq![Map::empty()], e1.co, gas);
            match og.res {
                Err(e) => Err(e),
                Ok(gss) => {
                    let gty = if gss.len() == 0 {
                        Type::Unit
                    } else {
                        ty_of_stmt(gss.last())
                    };
                    if gty == Type::Unresolved {
                        Err(TypeErrorV::UnresolvedType(Loc { start: 0, end: 0 }))
                    } else {
                        let gm = mangled(Seq::empty(), global_name());
                        let gbody = ExprV {
                            loc: Loc { start: 0, end: 0 },
                            ty: Some(gty),
                            kind: ExprKindV::Scope(gss),
                        };
                        let co2 = assoc_set(
                            og.co,
                            gm,
                            EntryV::Done(
                                ConcreteFnV {
                                    mangled: gm,
                                    params: Seq::empty(),
                                    ret: gty,
                                    body: gbody,
                                },
                            ),
                        );
                        Ok(CheckedModuleV { functions: done_fns(co2), global_ty: gty })
                    }
                },
            }
        },
    }
}

// ---------------------------------------------------------------------------
// The checking walk, executable
// ---------------------------------------------------------------------------

/// The type recorded on an annotated node.
pub fn expr_ty(e: &Expr) -> (t: Type)
    ensures
        t == ty_of(e@),
{
    match e.ty {
        Some(t) => t,
        None => Type::Unresolved,
    }
}

/// The type of a statement.
pub fn stmt_ty(s: &Statement) -> (t: Type)
    ensures
        t == ty_of_stmt(s@),
{
    match s {
        Statement::Expr(e) => expr_ty(e),
        Statement::Let(_, e) => expr_ty(e),
    }
}

/// Check one expression against the scope table and the function tables;
/// returns the annotated expression, exactly as the mirror `ck_expr` says.
pub fn check_expr(
    tpl: &Templates,
    e: &Expr,
    st: &mut ScopeTable,
    co: &mut ConcreteTable,
    gas: u64,
) -> (r: Result<Expr, TypeError>)
    requires
        tpl.wf(),
        old(st).wf(),
        old(st)@.len() >= 1,
        old(co).wf(),
    ensures
        final(st).wf(),
        final(co).wf(),
        ({
            let o = ck_expr(tpl@, e@, old(st)@, old(co)@, gas as nat);
            &&& final(st)@ == o.sc
            &&& final(co)@ == o.co
            &&& match r {
                Ok(ae) => o.res == Ok::<ExprV, TypeErrorV>(ae@),
                Err(er) => o.res == Err::<ExprV, TypeErrorV>(er@),
            }
        }),
        r is Ok ==> final(st)@.len() == old(st)@.len(),
    decreases gas, size_expr(e@),
{
    match &e.kind {
        ExprKind::Lit(l) => Ok(Expr { loc: e.loc, ty: Some(lit_type(*l)), kind: ExprKind::Lit(*l) }),
        ExprKind::Unary(op, a) => {
            let ae = match check_expr(tpl, a, st, co, gas) {
                Err(er) => {
                    return Err(er);
                },
                Ok(ae) => ae,
            };
            match unary_result(*op, expr_ty(&ae)) {
                None => Err(TypeError::InvalidUnaryOp(e.loc, *op, expr_ty(&ae))),
                Some(t) => Ok(
                    Expr { loc: e.loc, ty: Some(t), kind: ExprKind::Unary(*op, Box::new(ae)) },
                ),
            }
        },
        ExprKind::Binary(op, s) => {
            let al = match check_expr(tpl, &s.lhs, st, co, gas) {
                Err(er) => {
                    return Err(er);
                },
                Ok(x) => x,
            };
            let ar = match check_expr(tpl, &s.rhs, st, co, gas) {
                Err(er) => {
                    return Err(er);
                },
                Ok(x) => x,
            };
            match binary_result(*op, expr_ty(&al), expr_ty(&ar)) {
                None => Err(TypeError::InvalidBinaryOp(e.loc, expr_ty(&al), *op, expr_ty(&ar))),
                Some(t) => Ok(
                    Expr {
                        loc: e.loc,
                        ty: Some(t),
                        kind: ExprKind::Binary(*op, Box::new(Sides { lhs: al, rhs: ar })),
                    },
                ),
            }
        },
        ExprKind::Branch(t, a, b) => {
            let at = match check_expr(tpl, t, st, co, gas) {
                Err(er) => {
                    return Err(er);
                },
                Ok(x) => x,
            };
            let aa = match check_expr(tpl, a, st, co, gas) {
                Err(er) => {
                    return Err(er);
                },
                Ok(x) => x,
            };
            let ab = match check_expr(tpl, b, st, co, gas) {
                Err(er) => {
                    return Err(er);
                },
                Ok(x) => x,
            };
            let tt = expr_ty(&at);
            if tt != Type::Bool {
                return Err(TypeError::TypeMismatch(at.loc, Type::Bool, tt));
            }
            match branch_result(expr_ty(&aa), expr_ty(&ab)) {
                None => Err(TypeError::TypeMismatch(ab.loc, expr_ty(&aa), expr_ty(&ab))),
                Some(ty) => Ok(
                    Expr {
                        loc: e.loc,
                        ty: Some(ty),
                        kind: ExprKind::Branch(Box::new(at), Box::new(aa), Box::new(ab)),
                    },
                ),
            }
        },
        ExprKind::Access(n) => match st.lookup(n) {
            Some(t) => Ok(Expr { loc: e.loc, ty: Some(t), kind: ExprKind::Access(n.clone()) }),
            None => Err(TypeError::VariableNotFound(e.loc, n.clone())),
        },
        ExprKind::Call(n, args) => {
            let aas = match check_exprs(tpl, args, 0, st, co, gas) {
                Err(er) => {
                    return Err(er);
                },
                Ok(x) => x,
            };
            let ghost aasv = view_exprs(aas@);
            let mut sig: Vec<Type> = Vec::new();
            let mut i: usize = 0;
            proof {
                lemma_view_exprs(aas@);
            }
            while i < aas.len()
                invariant
                    i <= aas@.len(),
                    sig@.len() == i,
                    aasv == view_exprs(aas@),
                    aasv.len() == aas@.len(),
                    forall|j: int| 0 <= j < aas@.len() ==> aasv[j] == crate::ast::view_expr(aas@[j]),
                    forall|j: int| 0 <= j < i ==> sig@[j] == ty_of(aasv[j]),
                decreases aas@.len() - i,
            {
                sig.push(expr_ty(&aas[i]));
                i += 1;
            }
            proof {
                assert(sig@ =~= args_sig(aasv));
            }
            let ty = match resolve_call(tpl, e.loc, n, &sig, co, gas) {
                Err(er) => {
                    return Err(er);
                },
                Ok(t) => t,
            };
            Ok(Expr { loc: e.loc, ty: Some(ty), kind: ExprKind::Call(n.clone(), aas) })
        },
        ExprKind::Scope(stmts) => {
            st.push();
            let ss = match check_stmts(tpl, stmts, 0, st, co, gas) {
                Err(er) => {
                    return Err(er);
                },
                Ok(x) => x,
            };
            let ty = if ss.len() == 0 {
                Type::Unit
            } else {
                proof {
                    lemma_view_stmts(ss@);
                }
                stmt_ty(&ss[ss.len() - 1])
            };
            st.pop();
            Ok(Expr { loc: e.loc, ty: Some(ty), kind: ExprKind::Scope(ss) })
        },
    }
}

/// Check the argument expressions from index `i` on, left to right.
pub fn check_exprs(
    tpl: &Templates,
    es: &Vec<Expr>,
    i: usize,
    st: &mut ScopeTable,
    co: &mut ConcreteTable,
    gas: u64,
) -> (r: Result<Vec<Expr>, TypeError>)
    requires
        tpl.wf(),
        old(st).wf(),
        old(st)@.len() >= 1,
        old(co).wf(),
    ensures
        final(st).wf(),
        final(co).wf(),
        ({
            let o = ck_exprs(tpl@, view_exprs(es@), i as int, old(st)@, old(co)@, gas as nat);
            &&& final(st)@ == o.sc
            &&& final(co)@ == o.co
            &&& match r {
                Ok(aes) => o.res == Ok::<Seq<ExprV>, TypeErrorV>(view_exprs(aes@)),
                Err(er) => o.res == Err::<Seq<ExprV>, TypeErrorV>(er@),
            }
        }),
        r is Ok ==> final(st)@.len() == old(st)@.len(),
    decreases gas, size_exprs_from(view_exprs(es@), i as int),
{
    proof {
        lemma_view_exprs(es@);
    }
    if i >= es.len() {
        let out: Vec<Expr> = Vec::new();
        proof {
            assert(view_exprs(out@) =~= Seq::<ExprV>::empty());
        }
        Ok(out)
    } else {
        let ae = match check_expr(tpl, &es[i], st, co, gas) {
            Err(er) => {
                return Err(er);
            },
            Ok(x) => x,
        };
        let mut rest = match check_exprs(tpl, es, i + 1, st, co, gas) {
            Err(er) => {
                return Err(er);
            },
            Ok(x) => x,
        };
        let ghost rest0 = rest@;
        let ghost restv = view_exprs(rest0);
        rest.insert(0, ae);
        proof {
            assert(rest@.drop_first() =~= rest0);
            assert(rest@[0] == ae);
            assert(view_exprs(rest@) == seq![crate::ast::view_expr(ae)] + view_exprs(rest0));
        }
        Ok(rest)
    }
}

/// Check one statement; a `let` also binds its name in the innermost
/// frame.
pub fn check_stmt(
    tpl: &Templates,
    s: &Statement,
    st: &mut ScopeTable,
    co: &mut ConcreteTable,
    gas: u64,
) -> (r: Result<Statement, TypeError>)
    requires
        tpl.wf(),
        old(st).wf(),
        old(st)@.len() >= 1,
        old(co).wf(),
    ensures
        final(st).wf(),
        final(co).wf(),
        ({
            let o = ck_stmt(tpl@, s@, old(st)@, old(co)@, gas as nat);
            &&& final(st)@ == o.sc
            &&& final(co)@ == o.co
            &&& match r {
                Ok(a) => o.res == Ok::<StatementV, TypeErrorV>(a@),
                Err(er) => o.res == Err::<StatementV, TypeErrorV>(er@),
            }
        }),
        r is Ok ==> final(st)@.len() == old(st)@.len(),
    decreases gas, size_stmt(s@),
{
    match s {
        Statement::Expr(e) => {
            let ae = match check_expr(tpl, e, st, co, gas) {
                Err(er) => {
                    return Err(er);
                },
                Ok(x) => x,
            };
            Ok(Statement::Expr(ae))
        },
        Statement::Let(n, e) => {
            let ae = match check_expr(tpl, e, st, co, gas) {
                Err(er) => {
                    return Err(er);
                },
                Ok(x) => x,
            };
            let ty = expr_ty(&ae);
            st.define(n, ty);
            Ok(Statement::Let(n.clone(), ae))
        },
    }
}

/// Check the statements of a scope from index `i` on.
pub fn check_stmts(
    tpl: &Templates,
    ss: &Vec<Statement>,
    i: usize,
    st: &mut ScopeTable,
    co: &mut ConcreteTable,
    gas: u64,
) -> (r: Result<Vec<Statement>, TypeError>)
    requires
        tpl.wf(),
        old(st).wf(),
        old(st)@.len() >= 1,
        old(co).wf(),
    ensures
        final(st).wf(),
        final(co).wf(),
        ({
            let o = ck_stmts(tpl@, view_stmts(ss@), i as int, old(st)@, old(co)@, gas as nat);
            &&& final(st)@ == o.sc
            &&& final(co)@ == o.co
            &&& match r {
                Ok(aes) => o.res == Ok::<Seq<StatementV>, TypeErrorV>(view_stmts(aes@)),
                Err(er) => o.res == Err::<Seq<StatementV>, TypeErrorV>(er@),
            }
        }),
        r is Ok ==> final(st)@.len() == old(st)@.len(),
    decreases gas, size_stmts_from(view_stmts(ss@), i as int),
{
    proof {
        lemma_view_stmts(ss@);
    }
    if i >= ss.len() {
        let out: Vec<Statement> = Vec::new();
        proof {
            assert(view_stmts(out@) =~= Seq::<StatementV>::empty());
        }
        Ok(out)
    } else {
        let a = match check_stmt(tpl, &ss[i], st, co, gas) {
            Err(er) => {
                return Err(er);
            },
            Ok(x) => x,
        };
        let mut rest = match check_stmts(tpl, ss, i + 1, st, co, gas) {
            Err(er) => {
                return Err(er);
            },
            Ok(x) => x,
        };
        let ghost rest0 = rest@;
        let ghost restv = view_stmts(rest0);
        rest.insert(0, a);
        proof {
            assert(rest@.drop_first() =~= rest0);
            assert(rest@[0] == a);
            assert(view_stmts(rest@) == seq![crate::ast::view_stmt(a)] + view_stmts(rest0));
        }
        Ok(rest)
    }
}

/// Resolve a call site: answer from the cache, or specialize the template
/// for this argument-type signature and cache the result.
pub fn resolve_call(
    tpl: &Templates,
    loc: Loc,
    name: &String,
    sig: &Vec<Type>,
    co: &mut ConcreteTable,
    gas: u64,
) -> (r: Result<Type, TypeError>)
    requires
        tpl.wf(),
        old(co).wf(),
    ensures
        final(co).wf(),
        ({
            let o = ck_resolve(tpl@, loc, name@, sig@, old(co)@, gas as nat);
            &&& final(co)@ == o.co
            &&& match r {
                Ok(t) => o.res == Ok::<Type, TypeErrorV>(t),
                Err(er) => o.res == Err::<Type, TypeErrorV>(er@),
            }
        }),
    decreases gas, 0nat,
{
    let m = generic_mangle(sig.as_slice(), name.as_str());
    match co.get_ret(&m) {
        Some(t) => {
            return Ok(t);
        },
        None => {},
    }
    let t = match tpl.find(name) {
        None => {
            return Err(TypeError::FunctionNotFound(loc, name.clone()));
        },
        Some(t) => t,
    };
    let mut i: usize = 0;
    let mut bad: bool = false;
    while i < sig.len()
        invariant
            i <= sig@.len(),
            bad ==> !sig_resolved(sig@),
            !bad ==> forall|j: int| 0 <= j < i ==> sig@[j] != Type::Unresolved,
        decreases sig@.len() - i,
    {
        match sig[i] {
            Type::Unresolved => {
                proof {
                    assert(sig@[i as int] == Type::Unresolved);
                }
                bad = true;
            },
            _ => {},
        }
        i += 1;
    }
    if bad {
        return Err(TypeError::UnresolvedArg(loc));
    }
    if t.params.len() != sig.len() {
        return Err(TypeError::ArgCountMismatch(loc, t.params.len(), sig.len()));
    }
    if gas == 0 {
        return Err(TypeError::DepthExceeded(loc));
    }
    co.set(&m, Entry::Provisional(t.ret));
    let mut st2 = ScopeTable::new();
    let ghost tpv = t@.params;
    let mut i2: usize = 0;
    proof {
        assert(tpv.take(0) =~= Seq::<ParamV>::empty());
        assert(sig@.take(0) =~= Seq::<Type>::empty());
        assert(st2@[0] =~= params_frame(tpv.take(0), sig@.take(0)));
    }
    while i2 < t.params.len()
        invariant
            t@.params == tpv,
            tpv.len() == t.params@.len(),
            sig@.len() == tpv.len(),
            i2 <= tpv.len(),
            st2.wf(),
            st2@.len() == 1,
            st2@[0] == params_frame(tpv.take(i2 as int), sig@.take(i2 as int)),
            forall|j: int| 0 <= j < tpv.len() ==> tpv[j] == t.params@[j]@,
        decreases tpv.len() - i2,
    {
        st2.define(&t.params[i2].name, sig[i2]);
        proof {
            assert(tpv.take(i2 + 1).drop_last() =~= tpv.take(i2 as int));
            assert(sig@.take(i2 + 1).drop_last() =~= sig@.take(i2 as int));
            assert(tpv.take(i2 + 1).last() == tpv[i2 as int]);
            assert(st2@[0] == params_frame(tpv.take(i2 + 1), sig@.take(i2 + 1)));
        }
        i2 += 1;
    }
    proof {
        assert(tpv.take(tpv.len() as int) =~= tpv);
        assert(sig@.take(sig@.len() as int) =~= sig@);
        assert(st2@ =~= seq![params_frame(t@.params, sig@)]);
    }
    let body = match check_expr(tpl, &t.body, &mut st2, co, gas - 1) {
        Err(er) => {
            return Err(er);
        },
        Ok(b) => b,
    };
    let bty = expr_ty(&body);
    if t.ret != Type::Unresolved && bty != t.ret {
        return Err(TypeError::TypeMismatch(t.loc, t.ret, bty));
    }
    if bty == Type::Unresolved {
        return Err(TypeError::UnresolvedType(t.loc));
    }
    let mut ps: Vec<Param> = Vec::new();
    let mut i3: usize = 0;
    while i3 < t.params.len()
        invariant
            t@.params == tpv,
            tpv.len() == t.params@.len(),
            sig@.len() == tpv.len(),
            i3 <= tpv.len(),
            ps@.len() == i3,
            forall|j: int| 0 <= j < i3 ==> ps@[j]@ == bind_params(tpv, sig@)[j],
            forall|j: int| 0 <= j < tpv.len() ==> tpv[j] == t.params@[j]@,
        decreases tpv.len() - i3,
    {
        let p = Param { name: t.params[i3].name.clone(), ty: sig[i3], loc: t.params[i3].loc };
        ps.push(p);
        i3 += 1;
    }
    let f = ConcreteFn { mangled: m.clone(), params: ps, ret: bty, body };
    proof {
        assert(f@.params =~= bind_params(t@.params, sig@));
    }
    co.set(&m, Entry::Done(f));
    Ok(bty)
}

// What the first registration pass records about one template: its name,
// declared signature, whether it is fully annotated, and its location.
spec fn meta_matches(meta: (String, Vec<Type>, bool, Loc), t: TemplateV) -> bool {
    &&& meta.0@ == t.name
    &&& meta.1@ == tpl_sig(t)
    &&& meta.2 == tpl_non_generic(t)
    &&& meta.3 == t.loc
}

/// Check a whole module, with an explicit bound on the nesting depth of
/// specializations; returns exactly what the mirror `ck_module` says.
pub fn check_module_with_depth(m: AstModule, gas: u64) -> (r: Result<CheckedModule, TypeError>)
    ensures
        ({
            let o = ck_module(m@, gas as nat);
            match r {
                Ok(cm) => o == Ok::<CheckedModuleV, TypeErrorV>(cm@),
                Err(e) => o == Err::<CheckedModuleV, TypeErrorV>(e@),
            }
        }),
{
    let ghost mv = m@;
    let AstModule { functions, globals } = m;
    let ghost fv = mv.functions;
    proof {
        assert(fv.len() == functions@.len());
        assert(forall|j: int| 0 <= j < fv.len() ==> fv[j] == functions@[j]@);
        assert(mv.globals.len() == globals@.len());
    }
    // First pass: register every template, and record name, declared
    // signature and annotation status for the eager pass.
    let mut metas: Vec<(String, Vec<Type>, bool, Loc)> = Vec::new();
    let mut tpl = Templates::new();
    let mut rem = functions;
    proof {
        assert(fv.take(0) =~= Seq::<TemplateV>::empty());
        assert(tpl@ =~= reg_templates(fv.take(0)));
    }
    while rem.len() > 0
        invariant
            metas@.len() + rem@.len() == fv.len(),
            forall|j: int| 0 <= j < rem@.len() ==> rem@[j]@ == fv[metas@.len() + j],
            tpl.wf(),
            tpl@ == reg_templates(fv.take(metas@.len() as int)),
            forall|j: int| 0 <= j < metas@.len() ==> meta_matches(#[trigger] metas@[j], fv[j]),
        decreases rem@.len(),
    {
        let ghost k = metas@.len() as int;
        let ghost rem0 = rem@;
        let t = rem.remove(0);
        proof {
            assert(t@ == fv[k]);
            assert(forall|j: int| 0 <= j < rem@.len() ==> rem@[j] == rem0[j + 1]);
        }
        let name_c = t.name.clone();
        let mut sigv: Vec<Type> = Vec::new();
        let mut all_params_annotated: bool = true;
        let mut ii: usize = 0;
        while ii < t.params.len()
            invariant
                ii <= t.params@.len(),
                sigv@.len() == ii,
                forall|j: int| 0 <= j < ii ==> sigv@[j] == t.params@[j].ty,
                all_params_annotated == (forall|j: int|
                    0 <= j < ii ==> (#[trigger] t.params@[j]).ty != Type::Unresolved),
            decreases t.params@.len() - ii,
        {
            let pty = t.params[ii].ty;
            sigv.push(pty);
            match pty {
                Type::Unresolved => {
                    all_params_annotated = false;
                },
                _ => {},
            }
            ii += 1;
        }
        let ret_annotated: bool = match t.ret {
            Type::Unresolved => false,
            _ => true,
        };
        let ng = ret_annotated && all_params_annotated;
        proof {
            assert(t@.params.len() == t.params@.len());
            assert forall|j: int| 0 <= j < t.params@.len() implies #[trigger] t@.params[j].ty
                == t.params@[j].ty by {
                assert(t@.params[j] == t.params@[j]@);
            }
            assert(sigv@ =~= tpl_sig(t@));
            if ng {
                assert(tpl_non_generic(t@));
            } else {
                if ret_annotated {
                    assert(!all_params_annotated);
                    assert(!(forall|j: int|
                        0 <= j < t.params@.len() ==> (#[trigger] t.params@[j]).ty
                            != Type::Unresolved));
                    let jb = choose|j: int|
                        0 <= j < t.params@.len() && t.params@[j].ty == Type::Unresolved;
                    assert(t@.params[jb].ty == Type::Unresolved);
                }
                assert(!tpl_non_generic(t@));
            }
            assert(ng == tpl_non_generic(t@));
        }
        metas.push((name_c, sigv, ng, t.loc));
        tpl.register(t);
        proof {
            assert(fv.take(k + 1).drop_last() =~= fv.take(k));
            assert(fv.take(k + 1).last() == fv[k]);
            assert(tpl@ == reg_templates(fv.take(k + 1)));
        }
    }
    proof {
        assert(fv.take(fv.len() as int) =~= fv);
    }
    // Second pass: specialize the fully annotated templates in order.
    let mut co = ConcreteTable::new();
    proof {
        assert(co@ =~= Seq::<(Seq<char>, EntryV)>::empty());
    }
    let mut j: usize = 0;
    while j < metas.len()
        invariant
            tpl.wf(),
            co.wf(),
            tpl@ == reg_templates(fv),
            metas@.len() == fv.len(),
            forall|jj: int| 0 <= jj < fv.len() ==> meta_matches(#[trigger] metas@[jj], fv[jj]),
            j <= metas@.len(),
            mv == m@,
            fv == mv.functions,
            ck_eager(tpl@, fv, 0, Seq::empty(), gas as nat) == ck_eager(
                tpl@,
                fv,
                j as int,
                co@,
                gas as nat,
            ),
        decreases metas@.len() - j,
    {
        let mj = &metas[j];
        if mj.2 {
            let ghost pre = co@;
            match resolve_call(&tpl, mj.3, &mj.0, &mj.1, &mut co, gas) {
                Err(e) => {
                    proof {
                        let step = ck_resolve(
                            tpl@,
                            fv[j as int].loc,
                            fv[j as int].name,
                            tpl_sig(fv[j as int]),
                            pre,
                            gas as nat,
                        );
                        assert(ck_eager(tpl@, fv, j as int, pre, gas as nat).err == Some(e@));
                    }
                    return Err(e);
                },
                Ok(_) => {
                    proof {
                        assert(ck_eager(tpl@, fv, j as int, pre, gas as nat) == ck_eager(
                            tpl@,
                            fv,
                            j + 1,
                            co@,
                            gas as nat,
                        ));
                    }
                },
            }
        } else {
            proof {
                assert(ck_eager(tpl@, fv, j as int, co@, gas as nat) == ck_eager(
                    tpl@,
                    fv,
                    j + 1,
                    co@,
                    gas as nat,
                ));
            }
        }
        j += 1;
    }
    // Top-level statements, checked in one fresh frame; they become the
    // body of the synthesized entry function.
    let mut st = ScopeTable::new();
    proof {
        assert(view_stmts(globals@) =~= mv.globals) by {
            lemma_view_stmts(globals@);
        }
    }
    let gss = match check_stmts(&tpl, &globals, 0, &mut st, &mut co, gas) {
        Err(e) => {
            return Err(e);
        },
        Ok(x) => x,
    };
    let gty = if gss.len() == 0 {
        Type::Unit
    } else {
        proof {
            lemma_view_stmts(gss@);
        }
        stmt_ty(&gss[gss.len() - 1])
    };
    match gty {
        Type::Unresolved => {
            return Err(TypeError::UnresolvedType(Loc { start: 0, end: 0 }));
        },
        _ => {},
    }
    let empty_sig: Vec<Type> = Vec::new();
    let gm = generic_mangle(empty_sig.as_slice(), "__global");
    proof {
        reveal_strlit("__global");
        assert("__global"@ =~= global_name());
        assert(empty_sig@ =~= Seq::<Type>::empty());
    }
    let gfn = ConcreteFn {
        mangled: gm.clone(),
        params: Vec::new(),
        ret: gty,
        body: Expr {
            loc: Loc { start: 0, end: 0 },
            ty: Some(gty),
            kind: ExprKind::Scope(gss),
        },
    };
    proof {
        assert(gfn@.params =~= Seq::<ParamV>::empty());
    }
    co.set(&gm, Entry::Done(gfn));
    let fns = co.into_fns();
    Ok(CheckedModule { functions: fns, global_ty: gty })
}

/// The nesting-depth budget used by the public entry points; deep enough
/// that one fresh specialization is reserved for every level.
pub const SPECIALIZE_DEPTH: u64 = 0xFFFF_FFFF_FFFF_FFFF;

/// Type-check a module.
pub fn check_module(m: AstModule) -> (r: Result<CheckedModule, TypeError>)
    ensures
        ({
            let o = ck_module(m@, SPECIALIZE_DEPTH as nat);
            match r {
                Ok(cm) => o == Ok::<CheckedModuleV, TypeErrorV>(cm@),
                Err(e) => o == Err::<CheckedModuleV, TypeErrorV>(e@),
            }
        }),
{
    check_module_with_depth(m, SPECIALIZE_DEPTH)
}

} // verus!
