//! The code generator: lowers a type-checked module into the SSA-style
//! control-flow module.
//!
//! One target function is emitted per concrete function, in two passes:
//! the first declares every prototype so calls can forward-reference, the
//! second emits each body. Per-function state is the growing block list,
//! the current insertion point, and a flat mapping from variable name to
//! its last-defined register — rebinding a name replaces the register,
//! which is how shadowing is realized here. Instruction families are
//! selected by the machine kind of the operand registers: a float operand
//! selects the float family (the other operand is converted), otherwise
//! the integer family is used.
//!
//! Like the type checker, the whole pass is mirrored by spec functions
//! (`cg_*`), and every executable function returns exactly what its
//! mirror says.

use vstd::prelude::*;

use crate::ast::{Expr, ExprKind, ExprV, ExprKindV, Statement, StatementV, size_expr,
    size_exprs_from, size_stmt, size_stmts_from};
use crate::check::{args_sig, ty_of, CheckedModule, CheckedModuleV};
use crate::err::CompileError;
use crate::ir::{
    mach_of, spec_mach_of, BlockLabel, FBinOp, FCmpOp, IBinOp, ICmpOp, IrInstr, IrTerm, IrFuncV,
    IrFunc, IrModule, IrModuleV, LabelKind, MachTy,
};
use crate::mangle::mangled;
use crate::registry::{assoc_find, assoc_set, ConcreteFn, ConcreteFnV, NamedTable};
use crate::types::{Lit, Type, UnaryOp, BinaryOp};

verus! {

/// The prototype table of the first pass: mangled name to function index
/// and return kind.
pub type ProtoV = Seq<(Seq<char>, (usize, MachTy))>;

/// The per-function emission state.
pub struct CgSt {
    pub labels: Seq<BlockLabel>,
    pub code: Seq<(usize, IrInstr)>,
    pub terms: Seq<(usize, IrTerm)>,
    pub reg_tys: Seq<MachTy>,
    pub call_args: Seq<usize>,
    pub cur: usize,
    pub vars: Seq<(Seq<char>, usize)>,
}

pub struct CgRes {
    pub res: Result<usize, CompileError>,
    pub st: CgSt,
}

pub struct CgsRes {
    pub res: Result<Seq<usize>, CompileError>,
    pub st: CgSt,
}

pub struct CgOptRes {
    pub res: Result<Option<usize>, CompileError>,
    pub st: CgSt,
}

/// Allocate a fresh register of kind `t`.
pub open spec fn cg_alloc(st: CgSt, t: MachTy) -> (CgSt, usize) {
    (CgSt { reg_tys: st.reg_tys.push(t), ..st }, st.reg_tys.len() as usize)
}

/// Append an instruction to the current block.
pub open spec fn cg_emit(st: CgSt, i: IrInstr) -> CgSt {
    CgSt { code: st.code.push((st.cur, i)), ..st }
}

/// Close the current block with a terminator.
pub open spec fn cg_close(st: CgSt, t: IrTerm) -> CgSt {
    CgSt { terms: st.terms.push((st.cur, t)), ..st }
}

/// Open a fresh block.
pub open spec fn cg_block(st: CgSt, kind: LabelKind, id: usize) -> (CgSt, usize) {
    (
        CgSt { labels: st.labels.push(BlockLabel { kind, id }), ..st },
        st.labels.len() as usize,
    )
}

/// The machine kind of a register, used to select instruction families.
pub open spec fn reg_kind(st: CgSt, r: usize) -> MachTy {
    st.reg_tys[r as int]
}

/// Convert a register to the float kind when it is not one already.
pub open spec fn cg_to_float(st: CgSt, r: usize) -> (CgSt, usize) {
    if reg_kind(st, r) == MachTy::Float {
        (st, r)
    } else {
        let (st1, dst) = cg_alloc(st, MachTy::Float);
        (cg_emit(st1, IrInstr::IntToFloat { dst, src: r }), dst)
    }
}

pub open spec fn float_bin_op(op: BinaryOp) -> Option<FBinOp> {
    match op {
        BinaryOp::Add => Some(FBinOp::Add),
        BinaryOp::Sub => Some(FBinOp::Sub),
        BinaryOp::Mul => Some(FBinOp::Mul),
        BinaryOp::Div => Some(FBinOp::Div),
        _ => None,
    }
}

pub open spec fn float_cmp_op(op: BinaryOp) -> Option<FCmpOp> {
    match op {
        BinaryOp::Eq => Some(FCmpOp::Eq),
        BinaryOp::Ne => Some(FCmpOp::Ne),
        BinaryOp::Gt => Some(FCmpOp::Gt),
        BinaryOp::Ge => Some(FCmpOp::Ge),
        BinaryOp::Lt => Some(FCmpOp::Lt),
        BinaryOp::Le => Some(FCmpOp::Le),
        _ => None,
    }
}

pub open spec fn int_bin_op(op: BinaryOp, unsigned: bool) -> Option<IBinOp> {
    match op {
        BinaryOp::Add => Some(IBinOp::Add),
        BinaryOp::Sub => Some(IBinOp::Sub),
        BinaryOp::Mul => Some(IBinOp::Mul),
        BinaryOp::Div => if unsigned {
            Some(IBinOp::UDiv)
        } else {
            Some(IBinOp::SDiv)
        },
        BinaryOp::And => Some(IBinOp::And),
        BinaryOp::Or => Some(IBinOp::Or),
        _ => None,
    }
}

pub open spec fn int_cmp_op(op: BinaryOp, unsigned: bool) -> Option<ICmpOp> {
    match op {
        BinaryOp::Eq => Some(ICmpOp::Eq),
        BinaryOp::Ne => Some(ICmpOp::Ne),
        BinaryOp::Gt => if unsigned {
            Some(ICmpOp::Ugt)
        } else {
            Some(ICmpOp::Sgt)
        },
        BinaryOp::Ge => if unsigned {
            Some(ICmpOp::Uge)
        } else {
            Some(ICmpOp::Sge)
        },
        BinaryOp::Lt => if unsigned {
            Some(ICmpOp::Ult)
        } else {
            Some(ICmpOp::Slt)
        },
        BinaryOp::Le => if unsigned {
            Some(ICmpOp::Ule)
        } else {
            Some(ICmpOp::Sle)
        },
        _ => None,
    }
}

/// The result kind of an integer-family arithmetic or bitwise operation.
pub open spec fn int_bin_kind(tl: MachTy, tr: MachTy) -> MachTy {
    if tl == MachTy::Uint && tr == MachTy::Uint {
        MachTy::Uint
    } else if tl == MachTy::Bit && tr == MachTy::Bit {
        MachTy::Bit
    } else {
        MachTy::Int
    }
}

/// Lower one expression; the result names the register holding its value.
pub open spec fn cg_expr(protos: ProtoV, e: ExprV, st: CgSt) -> CgRes
    decreases size_expr(e),
{
    match e.kind {
        ExprKindV::Lit(l) => {
            match l {
                Lit::F64Bits(b) => {
                    let (st1, dst) = cg_alloc(st, MachTy::Float);
                    CgRes { res: Ok(dst), st: cg_emit(st1, IrInstr::ConstFloat { dst, bits: b }) }
                },
                Lit::I64(v) => {
                    let (st1, dst) = cg_alloc(st, MachTy::Int);
                    CgRes { res: Ok(dst), st: cg_emit(st1, IrInstr::ConstInt { dst, value: v }) }
                },
                Lit::Bool(v) => {
                    let (st1, dst) = cg_alloc(st, MachTy::Bit);
                    CgRes { res: Ok(dst), st: cg_emit(st1, IrInstr::ConstBool { dst, value: v }) }
                },
                Lit::Unit => {
                    let (st1, dst) = cg_alloc(st, MachTy::Unit);
                    CgRes { res: Ok(dst), st: cg_emit(st1, IrInstr::ConstUnit { dst }) }
                },
            }
        },
        ExprKindV::Unary(op, a) => {
            let o = cg_expr(protos, *a, st);
            match o.res {
                Err(er) => CgRes { res: Err(er), st: o.st },
                Ok(r) => match op {
                    UnaryOp::Plus => CgRes { res: Ok(r), st: o.st },
                    UnaryOp::Neg => if reg_kind(o.st, r) == MachTy::Float {
                        let (st1, dst) = cg_alloc(o.st, MachTy::Float);
                        CgRes { res: Ok(dst), st: cg_emit(st1, IrInstr::FloatNeg { dst, src: r }) }
                    } else {
                        let (st1, dst) = cg_alloc(o.st, reg_kind(o.st, r));
                        CgRes { res: Ok(dst), st: cg_emit(st1, IrInstr::IntNeg { dst, src: r }) }
                    },
                    UnaryOp::Not => if reg_kind(o.st, r) == MachTy::Float {
                        CgRes { res: Err(CompileError::InvalidType), st: o.st }
                    } else {
                        let (st1, dst) = cg_alloc(o.st, reg_kind(o.st, r));
                        CgRes { res: Ok(dst), st: cg_emit(st1, IrInstr::BitNot { dst, src: r }) }
                    },
                },
            }
        },
        ExprKindV::Binary(op, s) => {
            let o1 = cg_expr(protos, s.lhs, st);
            match o1.res {
                Err(er) => CgRes { res: Err(er), st: o1.st },
                Ok(l) => {
                    let o2 = cg_expr(protos, s.rhs, o1.st);
                    match o2.res {
                        Err(er) => CgRes { res: Err(er), st: o2.st },
                        Ok(r) => cg_binary(op, l, r, o2.st),
                    }
                },
            }
        },
        ExprKindV::Branch(t, a, b) => {
            let o1 = cg_expr(protos, *t, st);
            match o1.res {
                Err(er) => CgRes { res: Err(er), st: o1.st },
                Ok(ct) => {
                    let id = o1.st.labels.len() as usize;
                    let (stb1, blk_t) = cg_block(o1.st, LabelKind::OnTrue, id);
                    let (stb2, blk_f) = cg_block(stb1, LabelKind::OnFalse, id);
                    let (stb3, blk_c) = cg_block(stb2, LabelKind::Cont, id);
                    let st2 = cg_close(
                        stb3,
                        IrTerm::CondBr { cond: ct, on_true: blk_t, on_false: blk_f },
                    );
                    let o2 = cg_expr(protos, *a, CgSt { cur: blk_t, ..st2 });
                    match o2.res {
                        Err(er) => CgRes { res: Err(er), st: o2.st },
                        Ok(va) => {
                            // the arm may have opened further blocks, so
                            // the merge edge comes from the block the arm
                            // ended in, not the one it started in
                            let end_t = o2.st.cur;
                            let st3 = cg_close(o2.st, IrTerm::Br(blk_c));
                            let o3 = cg_expr(protos, *b, CgSt { cur: blk_f, ..st3 });
                            match o3.res {
                                Err(er) => CgRes { res: Err(er), st: o3.st },
                                Ok(vb) => {
                                    let end_f = o3.st.cur;
                                    let st4 = cg_close(o3.st, IrTerm::Br(blk_c));
                                    let st5 = CgSt { cur: blk_c, ..st4 };
                                    match e.ty {
                                        Some(Type::Unit) => {
                                            let (st6, dst) = cg_alloc(st5, MachTy::Unit);
                                            CgRes {
                                                res: Ok(dst),
                                                st: cg_emit(st6, IrInstr::ConstUnit { dst }),
                                            }
                                        },
                                        Some(ty) => match spec_mach_of(ty) {
                                            Some(m) => {
                                                let (st6, dst) = cg_alloc(st5, m);
                                                CgRes {
                                                    res: Ok(dst),
                                                    st: cg_emit(
                                                        st6,
                                                        IrInstr::Phi {
                                                            dst,
                                                            tblk: end_t,
                                                            tval: va,
                                                            fblk: end_f,
                                                            fval: vb,
                                                        },
                                                    ),
                                                }
                                            },
                                            None => CgRes {
                                                res: Err(CompileError::InvalidType),
                                                st: st5,
                                            },
                                        },
                                        None => CgRes {
                                            res: Err(CompileError::InvalidType),
                                            st: st5,
                                        },
                                    }
                                },
                            }
                        },
                    }
                },
            }
        },
        ExprKindV::Access(n) => match assoc_find(st.vars, n) {
            Some(r) => CgRes { res: Ok(r), st },
            None => CgRes { res: Err(CompileError::VarNotFound), st },
        },
        ExprKindV::Call(n, args) => {
            let o = cg_exprs(protos, args, 0, st);
            match o.res {
                Err(er) => CgRes { res: Err(er), st: o.st },
                Ok(rs) => {
                    let m = mangled(args_sig(args), n);
                    match assoc_find(protos, m) {
                        None => CgRes { res: Err(CompileError::FuncNotFound), st: o.st },
                        Some((fi, rty)) => {
                            let args_at = o.st.call_args.len() as usize;
                            let st1 = CgSt { call_args: o.st.call_args + rs, ..o.st };
                            let (st2, dst) = cg_alloc(st1, rty);
                            CgRes {
                                res: Ok(dst),
                                st: cg_emit(
                                    st2,
                                    IrInstr::Call {
                                        dst,
                                        callee: fi,
                                        args_at,
                                        argc: args.len() as usize,
                                    },
                                ),
                            }
                        },
                    }
                },
            }
        },
        ExprKindV::Scope(stmts) => {
            let o = cg_stmts(protos, stmts, 0, st);
            match o.res {
                Err(er) => CgRes { res: Err(er), st: o.st },
                Ok(Some(r)) => CgRes { res: Ok(r), st: o.st },
                Ok(None) => {
                    let (st1, dst) = cg_alloc(o.st, MachTy::Unit);
                    CgRes { res: Ok(dst), st: cg_emit(st1, IrInstr::ConstUnit { dst }) }
                },
            }
        },
    }
}

/// Lower a binary operator over two generated operand registers: a float
/// operand selects the float family (the other operand is converted);
/// otherwise the integer family, unsigned when both operands are unsigned.
/// The logical operators have no float-family instruction.
pub open spec fn cg_binary(op: BinaryOp, l: usize, r: usize, st: CgSt) -> CgRes {
    let tl = reg_kind(st, l);
    let tr = reg_kind(st, r);
    if tl == MachTy::Float || tr == MachTy::Float {
        let (st1, l2) = cg_to_float(st, l);
        let (st2, r2) = cg_to_float(st1, r);
        match float_bin_op(op) {
            Some(fop) => {
                let (st3, dst) = cg_alloc(st2, MachTy::Float);
                CgRes {
                    res: Ok(dst),
                    st: cg_emit(st3, IrInstr::FloatBin { dst, op: fop, lhs: l2, rhs: r2 }),
                }
            },
            None => match float_cmp_op(op) {
                Some(fop) => {
                    let (st3, dst) = cg_alloc(st2, MachTy::Bit);
                    CgRes {
                        res: Ok(dst),
                        st: cg_emit(st3, IrInstr::FloatCmp { dst, op: fop, lhs: l2, rhs: r2 }),
                    }
                },
                None => CgRes { res: Err(CompileError::InvalidType), st: st2 },
            },
        }
    } else {
        let unsigned = tl == MachTy::Uint && tr == MachTy::Uint;
        match int_bin_op(op, unsigned) {
            Some(iop) => {
                let (st1, dst) = cg_alloc(st, int_bin_kind(tl, tr));
                CgRes {
                    res: Ok(dst),
                    st: cg_emit(st1, IrInstr::IntBin { dst, op: iop, lhs: l, rhs: r }),
                }
            },
            None => match int_cmp_op(op, unsigned) {
                Some(iop) => {
                    let (st1, dst) = cg_alloc(st, MachTy::Bit);
                    CgRes {
                        res: Ok(dst),
                        st: cg_emit(st1, IrInstr::IntCmp { dst, op: iop, lhs: l, rhs: r }),
                    }
                },
                None => CgRes { res: Err(CompileError::InvalidType), st },
            },
        }
    }
}

/// Lower the argument expressions from index `i` on; the result lists
/// their registers in order.
pub open spec fn cg_exprs(protos: ProtoV, es: Seq<ExprV>, i: int, st: CgSt) -> CgsRes
    decreases size_exprs_from(es, i),
{
    if i < 0 || i >= es.len() {
        CgsRes { res: Ok(Seq::empty()), st }
    } else {
        let o = cg_expr(protos, es[i], st);
        match o.res {
            Err(er) => CgsRes { res: Err(er), st: o.st },
            Ok(r) => {
                let rest = cg_exprs(protos, es, i + 1, o.st);
                match rest.res {
                    Err(er) => CgsRes { res: Err(er), st: rest.st },
                    Ok(rs) => CgsRes { res: Ok(seq![r] + rs), st: rest.st },
                }
            },
        }
    }
}

/// Lower one statement; a `let` rebinds the name to the generated
/// register, replacing any previous binding.
pub open spec fn cg_stmt(protos: ProtoV, s: StatementV, st: CgSt) -> CgRes
    decreases size_stmt(s),
{
    match s {
        StatementV::Expr(e) => cg_expr(protos, e, st),
        StatementV::Let(n, e) => {
            let o = cg_expr(protos, e, st);
            match o.res {
                Err(er) => CgRes { res: Err(er), st: o.st },
                Ok(r) => CgRes {
                    res: Ok(r),
                    st: CgSt { vars: assoc_set(o.st.vars, n, r), ..o.st },
                },
            }
        },
    }
}

/// Lower the statements of a scope from index `i` on; the result is the
/// register of the last statement, if any.
pub open spec fn cg_stmts(protos: ProtoV, ss: Seq<StatementV>, i: int, st: CgSt) -> CgOptRes
    decreases size_stmts_from(ss, i),
{
    if i < 0 || i >= ss.len() {
        CgOptRes { res: Ok(None), st }
    } else {
        let o = cg_stmt(protos, ss[i], st);
        match o.res {
            Err(er) => CgOptRes { res: Err(er), st: o.st },
            Ok(r) => {
                let rest = cg_stmts(protos, ss, i + 1, o.st);
                match rest.res {
                    Err(er) => CgOptRes { res: Err(er), st: rest.st },
                    Ok(Some(r2)) => CgOptRes { res: Ok(Some(r2)), st: rest.st },
                    Ok(None) => CgOptRes { res: Ok(Some(r)), st: rest.st },
                }
            },
        }
    }
}

/// The machine kinds of a list of scalar types, or nothing if any of them
/// is the unresolved placeholder.
pub open spec fn machs_of(ts: Seq<Type>) -> Option<Seq<MachTy>>
    decreases ts.len(),
{
    if ts.len() == 0 {
        Some(Seq::empty())
    } else {
        match (machs_of(ts.drop_last()), spec_mach_of(ts.last())) {
            (Some(ms), Some(m)) => Some(ms.push(m)),
            _ => None,
        }
    }
}

/// The parameter types of a concrete function.
pub open spec fn param_types(f: ConcreteFnV) -> Seq<Type> {
    Seq::new(f.params.len(), |i: int| f.params[i].ty)
}

/// The initial variable map of a function: each parameter name bound to
/// its register, a later duplicate replacing an earlier one.
pub open spec fn params_regs(f: ConcreteFnV, i: int) -> Seq<(Seq<char>, usize)>
    decreases i,
{
    if i <= 0 || i > f.params.len() {
        Seq::empty()
    } else {
        assoc_set(params_regs(f, i - 1), f.params[i - 1].name, (i - 1) as usize)
    }
}

/// Lower one concrete function into a target function.
pub open spec fn cg_func(protos: ProtoV, f: ConcreteFnV) -> Result<IrFuncV, CompileError> {
    match (machs_of(param_types(f)), spec_mach_of(f.ret)) {
        (Some(pms), Some(rm)) => {
            let st0 = CgSt {
                labels: seq![BlockLabel { kind: LabelKind::Entry, id: 0 }],
                code: Seq::empty(),
                terms: Seq::empty(),
                reg_tys: pms,
                call_args: Seq::empty(),
                cur: 0,
                vars: params_regs(f, f.params.len() as int),
            };
            let o = cg_expr(protos, f.body, st0);
            match o.res {
                Err(er) => Err(er),
                Ok(r) => {
                    let st1 = cg_close(
                        o.st,
                        IrTerm::Ret(
                            if rm == MachTy::Unit {
                                None
                            } else {
                                Some(r)
                            },
                        ),
                    );
                    Ok(
                        IrFuncV {
                            name: f.mangled,
                            params: pms,
                            ret: rm,
                            labels: st1.labels,
                            code: st1.code,
                            terms: st1.terms,
                            reg_tys: st1.reg_tys,
                            call_args: st1.call_args,
                        },
                    )
                },
            }
        },
        _ => Err(CompileError::InvalidType),
    }
}

/// The first pass: declare every function's prototype.
pub open spec fn cg_protos(fs: Seq<ConcreteFnV>, i: int) -> Result<ProtoV, CompileError>
    decreases i,
{
    if i <= 0 || i > fs.len() {
        Ok(Seq::empty())
    } else {
        match (cg_protos(fs, i - 1), spec_mach_of(fs[i - 1].ret)) {
            (Ok(ps), Some(rm)) => Ok(assoc_set(ps, fs[i - 1].mangled, ((i - 1) as usize, rm))),
            _ => Err(CompileError::InvalidType),
        }
    }
}

/// The second pass: emit every function's body.
pub open spec fn cg_funcs(protos: ProtoV, fs: Seq<ConcreteFnV>, i: int) -> Result<
    Seq<IrFuncV>,
    CompileError,
>
    decreases fs.len() - i,
{
    if i < 0 || i >= fs.len() {
        Ok(Seq::empty())
    } else {
        match (cg_func(protos, fs[i]), cg_funcs(protos, fs, i + 1)) {
            (Ok(f), Ok(rest)) => Ok(seq![f] + rest),
            (Err(er), _) => Err(er),
            (_, Err(er)) => Err(er),
        }
    }
}

/// Lower a whole checked module.
pub open spec fn cg_module(tm: CheckedModuleV) -> Result<IrModuleV, CompileError> {
    match cg_protos(tm.functions, tm.functions.len() as int) {
        Err(er) => Err(er),
        Ok(protos) => match cg_funcs(protos, tm.functions, 0) {
            Err(er) => Err(er),
            Ok(fs) => Ok(IrModuleV { funcs: fs }),
        },
    }
}

// ---------------------------------------------------------------------------
// The emission state, executable
// ---------------------------------------------------------------------------

/// The per-function emission state: the blocks and code built so far, the
/// current insertion point, and the variable map.
pub struct FnCg {
    pub labels: Vec<BlockLabel>,
    pub code: Vec<(usize, IrInstr)>,
    pub terms: Vec<(usize, IrTerm)>,
    pub reg_tys: Vec<MachTy>,
    pub call_args: Vec<usize>,
    pub cur: usize,
    pub vars: NamedTable<usize>,
}

impl View for FnCg {
    type V = CgSt;

    open spec fn view(&self) -> CgSt {
        CgSt {
            labels: self.labels@,
            code: self.code@,
            terms: self.terms@,
            reg_tys: self.reg_tys@,
            call_args: self.call_args@,
            cur: self.cur,
            vars: self.vars@,
        }
    }
}

/// Every register the variable map hands out is allocated.
pub open spec fn cg_vars_ok(s: CgSt) -> bool {
    forall|j: int| 0 <= j < s.vars.len() ==> (#[trigger] s.vars[j]).1 < s.reg_tys.len()
}

impl FnCg {
    pub open spec fn wf(&self) -> bool {
        &&& self.vars.wf()
        &&& cg_vars_ok(self@)
    }

    fn fresh_reg(&mut self, t: MachTy) -> (r: usize)
        requires
            old(self).wf(),
        ensures
            final(self).wf(),
            (final(self)@, r) == cg_alloc(old(self)@, t),
    {
        let n = self.reg_tys.len();
        self.reg_tys.push(t);
        proof {
            assert(self@.reg_tys == old(self)@.reg_tys.push(t));
            assert(self@ == cg_alloc(old(self)@, t).0);
            assert(n == cg_alloc(old(self)@, t).1);
        }
        n
    }

    fn emit(&mut self, i: IrInstr)
        requires
            old(self).wf(),
        ensures
            final(self).wf(),
            final(self)@ == cg_emit(old(self)@, i),
    {
        let c = self.cur;
        self.code.push((c, i));
        proof {
            assert(self@ == cg_emit(old(self)@, i));
        }
    }

    fn close(&mut self, t: IrTerm)
        requires
            old(self).wf(),
        ensures
            final(self).wf(),
            final(self)@ == cg_close(old(self)@, t),
    {
        let c = self.cur;
        self.terms.push((c, t));
        proof {
            assert(self@ == cg_close(old(self)@, t));
        }
    }

    fn block(&mut self, kind: LabelKind, id: usize) -> (b: usize)
        requires
            old(self).wf(),
        ensures
            final(self).wf(),
            (final(self)@, b) == cg_block(old(self)@, kind, id),
    {
        let n = self.labels.len();
        self.labels.push(BlockLabel { kind, id });
        n
    }

    fn kind_of(&self, r: usize) -> (t: MachTy)
        requires
            self.wf(),
            r < self.reg_tys@.len(),
        ensures
            t == reg_kind(self@, r),
    {
        self.reg_tys[r]
    }

    fn to_float(&mut self, r: usize) -> (r2: usize)
        requires
            old(self).wf(),
            r < old(self).reg_tys@.len(),
        ensures
            final(self).wf(),
            (final(self)@, r2) == cg_to_float(old(self)@, r),
            r2 < final(self).reg_tys@.len(),
            final(self).reg_tys@.len() >= old(self).reg_tys@.len(),
    {
        if self.kind_of(r) == MachTy::Float {
            r
        } else {
            let dst = self.fresh_reg(MachTy::Float);
            self.emit(IrInstr::IntToFloat { dst, src: r });
            dst
        }
    }
}

// ---------------------------------------------------------------------------
// The lowering walk, executable
// ---------------------------------------------------------------------------

/// Lower one (annotated) expression into the current block.
#[verifier::rlimit(100)]
#[verifier::spinoff_prover]
pub fn gen_expr(protos: &NamedTable<(usize, MachTy)>, e: &Expr, fc: &mut FnCg) -> (r: Result<
    usize,
    CompileError,
>)
    requires
        protos.wf(),
        old(fc).wf(),
    ensures
        final(fc).wf(),
        ({
            let o = cg_expr(protos@, e@, old(fc)@);
            &&& final(fc)@ == o.st
            &&& match r {
                Ok(reg) => o.res == Ok::<usize, CompileError>(reg),
                Err(er) => o.res == Err::<usize, CompileError>(er),
            }
        }),
        final(fc).reg_tys@.len() >= old(fc).reg_tys@.len(),
        r matches Ok(reg) ==> reg < final(fc).reg_tys@.len(),
    decreases size_expr(e@),
{
    match &e.kind {
        ExprKind::Lit(l) => match l {
            Lit::F64Bits(b) => {
                let dst = fc.fresh_reg(MachTy::Float);
                fc.emit(IrInstr::ConstFloat { dst, bits: *b });
                Ok(dst)
            },
            Lit::I64(v) => {
                let dst = fc.fresh_reg(MachTy::Int);
                fc.emit(IrInstr::ConstInt { dst, value: *v });
                Ok(dst)
            },
            Lit::Bool(v) => {
                let dst = fc.fresh_reg(MachTy::Bit);
                fc.emit(IrInstr::ConstBool { dst, value: *v });
                Ok(dst)
            },
            Lit::Unit => {
                let dst = fc.fresh_reg(MachTy::Unit);
                fc.emit(IrInstr::ConstUnit { dst });
                Ok(dst)
            },
        },
        ExprKind::Unary(op, a) => {
            let rr = match gen_expr(protos, a, fc) {
                Err(er) => {
                    return Err(er);
                },
                Ok(x) => x,
            };
            match op {
                UnaryOp::Plus => Ok(rr),
                UnaryOp::Neg => {
                    if fc.kind_of(rr) == MachTy::Float {
                        let dst = fc.fresh_reg(MachTy::Float);
                        fc.emit(IrInstr::FloatNeg { dst, src: rr });
                        Ok(dst)
                    } else {
                        let t = fc.kind_of(rr);
                        let dst = fc.fresh_reg(t);
                        fc.emit(IrInstr::IntNeg { dst, src: rr });
                        Ok(dst)
                    }
                },
                UnaryOp::Not => {
                    if fc.kind_of(rr) == MachTy::Float {
                        Err(CompileError::InvalidType)
                    } else {
                        let t = fc.kind_of(rr);
                        let dst = fc.fresh_reg(t);
                        fc.emit(IrInstr::BitNot { dst, src: rr });
                        Ok(dst)
                    }
                },
            }
        },
        ExprKind::Binary(op, s) => {
            let l = match gen_expr(protos, &s.lhs, fc) {
                Err(er) => {
                    return Err(er);
                },
                Ok(x) => x,
            };
            let rr = match gen_expr(protos, &s.rhs, fc) {
                Err(er) => {
                    return Err(er);
                },
                Ok(x) => x,
            };
            gen_binary(*op, l, rr, fc)
        },
        ExprKind::Branch(t, a, b) => {
            let ct = match gen_expr(protos, t, fc) {
                Err(er) => {
                    return Err(er);
                },
                Ok(x) => x,
            };
            let id = fc.labels.len();
            let blk_t = fc.block(LabelKind::OnTrue, id);
            let blk_f = fc.block(LabelKind::OnFalse, id);
            let blk_c = fc.block(LabelKind::Cont, id);
            fc.close(IrTerm::CondBr { cond: ct, on_true: blk_t, on_false: blk_f });
            fc.cur = blk_t;
            let va = match gen_expr(protos, a, fc) {
                Err(er) => {
                    return Err(er);
                },
                Ok(x) => x,
            };
            let end_t = fc.cur;
            fc.close(IrTerm::Br(blk_c));
            fc.cur = blk_f;
            let vb = match gen_expr(protos, b, fc) {
                Err(er) => {
                    return Err(er);
                },
                Ok(x) => x,
            };
            let end_f = fc.cur;
            fc.close(IrTerm::Br(blk_c));
            fc.cur = blk_c;
            match e.ty {
                Some(Type::Unit) => {
                    let dst = fc.fresh_reg(MachTy::Unit);
                    fc.emit(IrInstr::ConstUnit { dst });
                    Ok(dst)
                },
                Some(ty) => match mach_of(ty) {
                    Some(m) => {
                        let dst = fc.fresh_reg(m);
                        fc.emit(
                            IrInstr::Phi { dst, tblk: end_t, tval: va, fblk: end_f, fval: vb },
                        );
                        Ok(dst)
                    },
                    None => Err(CompileError::InvalidType),
                },
                None => Err(CompileError::InvalidType),
            }
        },
        ExprKind::Access(n) => match fc.vars.find(n) {
            Some(reg) => {
                proof {
                    crate::registry::lemma_assoc_find_in(fc@.vars, n@);
                }
                Ok(reg)
            },
            None => Err(CompileError::VarNotFound),
        },
        ExprKind::Call(n, args) => {
            let rs = match gen_exprs(protos, args, 0, fc) {
                Err(er) => {
                    return Err(er);
                },
                Ok(x) => x,
            };
            let ghost argsv = crate::ast::view_exprs(args@);
            let mut sig: Vec<Type> = Vec::new();
            let mut i: usize = 0;
            proof {
                crate::ast::lemma_view_exprs(args@);
            }
            while i < args.len()
                invariant
                    i <= args@.len(),
                    sig@.len() == i,
                    argsv == crate::ast::view_exprs(args@),
                    argsv.len() == args@.len(),
                    forall|j: int|
                        0 <= j < args@.len() ==> argsv[j] == crate::ast::view_expr(args@[j]),
                    forall|j: int| 0 <= j < i ==> sig@[j] == ty_of(argsv[j]),
                decreases args@.len() - i,
            {
                sig.push(crate::check::expr_ty(&args[i]));
                i += 1;
            }
            proof {
                assert(sig@ =~= args_sig(argsv));
            }
            let m = crate::mangle::generic_mangle(sig.as_slice(), n.as_str());
            match protos.find(&m) {
                None => Err(CompileError::FuncNotFound),
                Some((fi, rty)) => {
                    let args_at = fc.call_args.len();
                    let mut k: usize = 0;
                    let ghost fcs = *fc;
                    let ghost ca0 = fc.call_args@;
                    proof {
                        assert(ca0 + rs@.take(0) =~= ca0);
                    }
                    while k < rs.len()
                        invariant
                            k <= rs@.len(),
                            fc.call_args@ == ca0 + rs@.take(k as int),
                            fcs.wf(),
                            fc.vars == fcs.vars,
                            fc.labels@ == fcs.labels@,
                            fc.code@ == fcs.code@,
                            fc.terms@ == fcs.terms@,
                            fc.reg_tys@ == fcs.reg_tys@,
                            fc.cur == fcs.cur,
                        decreases rs@.len() - k,
                    {
                        fc.call_args.push(rs[k]);
                        proof {
                            assert(ca0 + rs@.take(k as int + 1) =~= (ca0 + rs@.take(
                                k as int,
                            )).push(rs@[k as int]));
                            assert(fc.call_args@ =~= ca0 + rs@.take(k as int + 1));
                        }
                        k += 1;
                    }
                    proof {
                        assert(rs@.take(rs@.len() as int) =~= rs@);
                        assert(fc@.vars == fcs@.vars);
                        assert(fc.wf());
                    }
                    let dst = fc.fresh_reg(rty);
                    fc.emit(IrInstr::Call { dst, callee: fi, args_at, argc: args.len() });
                    Ok(dst)
                },
            }
        },
        ExprKind::Scope(stmts) => {
            match gen_stmts(protos, stmts, 0, fc) {
                Err(er) => Err(er),
                Ok(Some(reg)) => Ok(reg),
                Ok(None) => {
                    let dst = fc.fresh_reg(MachTy::Unit);
                    fc.emit(IrInstr::ConstUnit { dst });
                    Ok(dst)
                },
            }
        },
    }
}

/// Lower a binary operator over two generated operand registers.
fn gen_binary(op: BinaryOp, l: usize, r: usize, fc: &mut FnCg) -> (res: Result<
    usize,
    CompileError,
>)
    requires
        old(fc).wf(),
        l < old(fc).reg_tys@.len(),
        r < old(fc).reg_tys@.len(),
    ensures
        final(fc).wf(),
        ({
            let o = cg_binary(op, l, r, old(fc)@);
            &&& final(fc)@ == o.st
            &&& match res {
                Ok(reg) => o.res == Ok::<usize, CompileError>(reg),
                Err(er) => o.res == Err::<usize, CompileError>(er),
            }
        }),
        final(fc).reg_tys@.len() >= old(fc).reg_tys@.len(),
        res matches Ok(reg) ==> reg < final(fc).reg_tys@.len(),
{
    let tl = fc.kind_of(l);
    let tr = fc.kind_of(r);
    if tl == MachTy::Float || tr == MachTy::Float {
        let l2 = fc.to_float(l);
        let r2 = fc.to_float(r);
        match float_bin_op_exec(op) {
            Some(fop) => {
                let dst = fc.fresh_reg(MachTy::Float);
                fc.emit(IrInstr::FloatBin { dst, op: fop, lhs: l2, rhs: r2 });
                Ok(dst)
            },
            None => match float_cmp_op_exec(op) {
                Some(fop) => {
                    let dst = fc.fresh_reg(MachTy::Bit);
                    fc.emit(IrInstr::FloatCmp { dst, op: fop, lhs: l2, rhs: r2 });
                    Ok(dst)
                },
                None => Err(CompileError::InvalidType),
            },
        }
    } else {
        let unsigned = tl == MachTy::Uint && tr == MachTy::Uint;
        match int_bin_op_exec(op, unsigned) {
            Some(iop) => {
                let kind = if tl == MachTy::Uint && tr == MachTy::Uint {
                    MachTy::Uint
                } else if tl == MachTy::Bit && tr == MachTy::Bit {
                    MachTy::Bit
                } else {
                    MachTy::Int
                };
                let dst = fc.fresh_reg(kind);
                fc.emit(IrInstr::IntBin { dst, op: iop, lhs: l, rhs: r });
                Ok(dst)
            },
            None => match int_cmp_op_exec(op, unsigned) {
                Some(iop) => {
                    let dst = fc.fresh_reg(MachTy::Bit);
                    fc.emit(IrInstr::IntCmp { dst, op: iop, lhs: l, rhs: r });
                    Ok(dst)
                },
                None => Err(CompileError::InvalidType),
            },
        }
    }
}

fn float_bin_op_exec(op: BinaryOp) -> (r: Option<FBinOp>)
    ensures
        r == float_bin_op(op),
{
    match op {
        BinaryOp::Add => Some(FBinOp::Add),
        BinaryOp::Sub => Some(FBinOp::Sub),
        BinaryOp::Mul => Some(FBinOp::Mul),
        BinaryOp::Div => Some(FBinOp::Div),
        _ => None,
    }
}

fn float_cmp_op_exec(op: BinaryOp) -> (r: Option<FCmpOp>)
    ensures
        r == float_cmp_op(op),
{
    match op {
        BinaryOp::Eq => Some(FCmpOp::Eq),
        BinaryOp::Ne => Some(FCmpOp::Ne),
        BinaryOp::Gt => Some(FCmpOp::Gt),
        BinaryOp::Ge => Some(FCmpOp::Ge),
        BinaryOp::Lt => Some(FCmpOp::Lt),
        BinaryOp::Le => Some(FCmpOp::Le),
        _ => None,
    }
}

fn int_bin_op_exec(op: BinaryOp, unsigned: bool) -> (r: Option<IBinOp>)
    ensures
        r == int_bin_op(op, unsigned),
{
    match op {
        BinaryOp::Add => Some(IBinOp::Add),
        BinaryOp::Sub => Some(IBinOp::Sub),
        BinaryOp::Mul => Some(IBinOp::Mul),
        BinaryOp::Div => if unsigned {
            Some(IBinOp::UDiv)
        } else {
            Some(IBinOp::SDiv)
        },
        BinaryOp::And => Some(IBinOp::And),
        BinaryOp::Or => Some(IBinOp::Or),
        _ => None,
    }
}

fn int_cmp_op_exec(op: BinaryOp, unsigned: bool) -> (r: Option<ICmpOp>)
    ensures
        r == int_cmp_op(op, unsigned),
{
    match op {
        BinaryOp::Eq => Some(ICmpOp::Eq),
        BinaryOp::Ne => Some(ICmpOp::Ne),
        BinaryOp::Gt => if unsigned {
            Some(ICmpOp::Ugt)
        } else {
            Some(ICmpOp::Sgt)
        },
        BinaryOp::Ge => if unsigned {
            Some(ICmpOp::Uge)
        } else {
            Some(ICmpOp::Sge)
        },
        BinaryOp::Lt => if unsigned {
            Some(ICmpOp::Ult)
        } else {
            Some(ICmpOp::Slt)
        },
        BinaryOp::Le => if unsigned {
            Some(ICmpOp::Ule)
        } else {
            Some(ICmpOp::Sle)
        },
        _ => None,
    }
}

/// Lower the argument expressions from index `i` on.
#[verifier::rlimit(50)]
pub fn gen_exprs(
    protos: &NamedTable<(usize, MachTy)>,
    es: &Vec<Expr>,
    i: usize,
    fc: &mut FnCg,
) -> (r: Result<Vec<usize>, CompileError>)
    requires
        protos.wf(),
        old(fc).wf(),
    ensures
        final(fc).wf(),
        ({
            let o = cg_exprs(protos@, crate::ast::view_exprs(es@), i as int, old(fc)@);
            &&& final(fc)@ == o.st
            &&& match r {
                Ok(rs) => o.res == Ok::<Seq<usize>, CompileError>(rs@),
                Err(er) => o.res == Err::<Seq<usize>, CompileError>(er),
            }
        }),
        final(fc).reg_tys@.len() >= old(fc).reg_tys@.len(),
        r matches Ok(rs) ==> forall|j: int|
            0 <= j < rs@.len() ==> #[trigger] rs@[j] < final(fc).reg_tys@.len(),
    decreases size_exprs_from(crate::ast::view_exprs(es@), i as int),
{
    proof {
        crate::ast::lemma_view_exprs(es@);
    }
    if i >= es.len() {
        let out: Vec<usize> = Vec::new();
        proof {
            assert(out@ =~= Seq::<usize>::empty());
        }
        Ok(out)
    } else {
        let reg = match gen_expr(protos, &es[i], fc) {
            Err(er) => {
                return Err(er);
            },
            Ok(x) => x,
        };
        let mut rest = match gen_exprs(protos, es, i + 1, fc) {
            Err(er) => {
                return Err(er);
            },
            Ok(x) => x,
        };
        let ghost rest0 = rest@;
        rest.insert(0, reg);
        proof {
            assert(rest@ =~= seq![reg] + rest0);
        }
        Ok(rest)
    }
}

/// Lower one statement.
#[verifier::rlimit(50)]
pub fn gen_stmt(protos: &NamedTable<(usize, MachTy)>, s: &Statement, fc: &mut FnCg) -> (r: Result<
    usize,
    CompileError,
>)
    requires
        protos.wf(),
        old(fc).wf(),
    ensures
        final(fc).wf(),
        ({
            let o = cg_stmt(protos@, s@, old(fc)@);
            &&& final(fc)@ == o.st
            &&& match r {
                Ok(reg) => o.res == Ok::<usize, CompileError>(reg),
                Err(er) => o.res == Err::<usize, CompileError>(er),
            }
        }),
        final(fc).reg_tys@.len() >= old(fc).reg_tys@.len(),
        r matches Ok(reg) ==> reg < final(fc).reg_tys@.len(),
    decreases size_stmt(s@),
{
    match s {
        Statement::Expr(e) => gen_expr(protos, e, fc),
        Statement::Let(n, e) => {
            let reg = match gen_expr(protos, e, fc) {
                Err(er) => {
                    return Err(er);
                },
                Ok(x) => x,
            };
            let ghost vpre = fc@.vars;
            fc.vars.set(n, reg);
            proof {
                assert(cg_vars_ok(fc@)) by {
                    crate::registry::lemma_assoc_set_entries(vpre, n@, reg);
                }
            }
            Ok(reg)
        },
    }
}

/// Lower the statements of a scope from index `i` on.
#[verifier::rlimit(50)]
pub fn gen_stmts(
    protos: &NamedTable<(usize, MachTy)>,
    ss: &Vec<Statement>,
    i: usize,
    fc: &mut FnCg,
) -> (r: Result<Option<usize>, CompileError>)
    requires
        protos.wf(),
        old(fc).wf(),
    ensures
        final(fc).wf(),
        ({
            let o = cg_stmts(protos@, crate::ast::view_stmts(ss@), i as int, old(fc)@);
            &&& final(fc)@ == o.st
            &&& match r {
                Ok(v) => o.res == Ok::<Option<usize>, CompileError>(v),
                Err(er) => o.res == Err::<Option<usize>, CompileError>(er),
            }
        }),
        final(fc).reg_tys@.len() >= old(fc).reg_tys@.len(),
        r matches Ok(Some(reg)) ==> reg < final(fc).reg_tys@.len(),
    decreases size_stmts_from(crate::ast::view_stmts(ss@), i as int),
{
    proof {
        crate::ast::lemma_view_stmts(ss@);
    }
    if i >= ss.len() {
        Ok(None)
    } else {
        let reg = match gen_stmt(protos, &ss[i], fc) {
            Err(er) => {
                return Err(er);
            },
            Ok(x) => x,
        };
        match gen_stmts(protos, ss, i + 1, fc) {
            Err(er) => Err(er),
            Ok(Some(r2)) => Ok(Some(r2)),
            Ok(None) => Ok(Some(reg)),
        }
    }
}



// ---------------------------------------------------------------------------
// Function and module lowering, executable
// ---------------------------------------------------------------------------

// An unresolved type anywhere in a list has the whole list lower to
// nothing.
proof fn lemma_machs_none(ts: Seq<Type>, j: int)
    requires
        0 <= j < ts.len(),
        spec_mach_of(ts[j]) is None,
    ensures
        machs_of(ts) is None,
    decreases ts.len(),
{
    if j == ts.len() - 1 {
    } else {
        lemma_machs_none(ts.drop_last(), j);
    }
}

// Once the prototype pass has failed, it stays failed.
proof fn lemma_protos_err_mono(fs: Seq<ConcreteFnV>, j: int, k: int)
    requires
        0 <= j <= k <= fs.len(),
        cg_protos(fs, j) is Err,
    ensures
        cg_protos(fs, k) is Err,
    decreases k - j,
{
    if k > j {
        lemma_protos_err_mono(fs, j, k - 1);
    }
}

/// The view of a vector of lowered functions.
pub open spec fn view_ir_funcs(s: Seq<IrFunc>) -> Seq<IrFuncV> {
    Seq::new(s.len(), |i: int| s[i]@)
}

/// Lower one concrete function.
#[verifier::rlimit(50)]
pub fn gen_func(protos: &NamedTable<(usize, MachTy)>, f: &ConcreteFn) -> (r: Result<
    IrFunc,
    CompileError,
>)
    requires
        protos.wf(),
    ensures
        ({
            let o = cg_func(protos@, f@);
            match r {
                Ok(irf) => o == Ok::<IrFuncV, CompileError>(irf@),
                Err(er) => o == Err::<IrFuncV, CompileError>(er),
            }
        }),
{
    let ghost ptv = param_types(f@);
    proof {
        assert(ptv.len() == f.params@.len());
        assert forall|j: int| 0 <= j < f.params@.len() implies #[trigger] ptv[j]
            == f.params@[j].ty by {
            assert(f@.params[j] == f.params@[j]@);
        }
    }
    let mut machs: Vec<MachTy> = Vec::new();
    let mut regs0: Vec<MachTy> = Vec::new();
    let mut i: usize = 0;
    proof {
        assert(ptv.take(0) =~= Seq::<Type>::empty());
    }
    while i < f.params.len()
        invariant
            i <= f.params@.len(),
            ptv == param_types(f@),
            ptv.len() == f.params@.len(),
            forall|j: int| 0 <= j < f.params@.len() ==> #[trigger] ptv[j] == f.params@[j].ty,
            machs@.len() == i,
            regs0@ == machs@,
            machs_of(ptv.take(i as int)) == Some(machs@),
        decreases f.params@.len() - i,
    {
        match crate::ir::mach_of(f.params[i].ty) {
            Some(m) => {
                machs.push(m);
                regs0.push(m);
            },
            None => {
                proof {
                    lemma_machs_none(ptv, i as int);
                }
                return Err(CompileError::InvalidType);
            },
        }
        proof {
            assert(ptv.take(i as int + 1).drop_last() =~= ptv.take(i as int));
            assert(ptv.take(i as int + 1).last() == ptv[i as int]);
        }
        i += 1;
    }
    proof {
        assert(ptv.take(ptv.len() as int) =~= ptv);
    }
    let rm = match crate::ir::mach_of(f.ret) {
        Some(m) => m,
        None => {
            return Err(CompileError::InvalidType);
        },
    };
    let mut vars: NamedTable<usize> = NamedTable::new();
    let mut i2: usize = 0;
    proof {
        assert(vars@ =~= params_regs(f@, 0));
    }
    while i2 < f.params.len()
        invariant
            i2 <= f.params@.len(),
            vars.wf(),
            vars@ == params_regs(f@, i2 as int),
            forall|j: int| 0 <= j < vars@.len() ==> (#[trigger] vars@[j]).1 < i2,
        decreases f.params@.len() - i2,
    {
        let ghost vpre = vars@;
        vars.set(&f.params[i2].name, i2);
        proof {
            assert(f@.params[i2 as int] == f.params@[i2 as int]@);
            assert(vars@ == assoc_set(vpre, f@.params[i2 as int].name, i2));
            crate::registry::lemma_assoc_set_entries(vpre, f.params@[i2 as int].name@, i2);
        }
        i2 += 1;
    }
    let mut labels: Vec<BlockLabel> = Vec::new();
    labels.push(BlockLabel { kind: LabelKind::Entry, id: 0 });
    let mut fc = FnCg {
        labels,
        code: Vec::new(),
        terms: Vec::new(),
        reg_tys: regs0,
        call_args: Vec::new(),
        cur: 0,
        vars,
    };
    proof {
        assert(fc@.labels =~= seq![BlockLabel { kind: LabelKind::Entry, id: 0 }]);
        assert(fc@.code =~= Seq::<(usize, IrInstr)>::empty());
        assert(fc@.terms =~= Seq::<(usize, IrTerm)>::empty());
        assert(fc@.call_args =~= Seq::<usize>::empty());
        assert(fc.wf());
    }
    let body_reg = match gen_expr(protos, &f.body, &mut fc) {
        Err(er) => {
            return Err(er);
        },
        Ok(x) => x,
    };
    let ret_term: IrTerm = if rm == MachTy::Unit {
        IrTerm::Ret(None)
    } else {
        IrTerm::Ret(Some(body_reg))
    };
    fc.close(ret_term);
    let out = IrFunc {
        name: f.mangled.clone(),
        params: machs,
        ret: rm,
        labels: fc.labels,
        code: fc.code,
        terms: fc.terms,
        reg_tys: fc.reg_tys,
        call_args: fc.call_args,
    };
    Ok(out)
}

/// The first pass: declare every function's prototype.
pub fn gen_protos(fs: &Vec<ConcreteFn>) -> (r: Result<NamedTable<(usize, MachTy)>, CompileError>)
    ensures
        ({
            let fsv = crate::registry::view_concrete_fns(fs@);
            match r {
                Ok(pt) => pt.wf() && cg_protos(fsv, fsv.len() as int) == Ok::<
                    ProtoV,
                    CompileError,
                >(pt@),
                Err(er) => cg_protos(fsv, fsv.len() as int) == Err::<ProtoV, CompileError>(er),
            }
        }),
{
    let ghost fsv = crate::registry::view_concrete_fns(fs@);
    let mut pt: NamedTable<(usize, MachTy)> = NamedTable::new();
    let mut j: usize = 0;
    proof {
        assert(fsv.len() == fs@.len());
        assert(cg_protos(fsv, 0) == Ok::<ProtoV, CompileError>(pt@));
    }
    while j < fs.len()
        invariant
            j <= fs@.len(),
            fsv == crate::registry::view_concrete_fns(fs@),
            fsv.len() == fs@.len(),
            pt.wf(),
            cg_protos(fsv, j as int) == Ok::<ProtoV, CompileError>(pt@),
        decreases fs@.len() - j,
    {
        proof {
            assert(fsv[j as int] == fs@[j as int]@);
        }
        match crate::ir::mach_of(fs[j].ret) {
            Some(rm) => {
                pt.set(&fs[j].mangled, (j, rm));
            },
            None => {
                proof {
                    assert(cg_protos(fsv, j as int + 1) is Err);
                    lemma_protos_err_mono(fsv, j as int + 1, fsv.len() as int);
                }
                return Err(CompileError::InvalidType);
            },
        }
        j += 1;
    }
    Ok(pt)
}

/// The second pass: emit the bodies from index `i` on.
pub fn gen_funcs(
    protos: &NamedTable<(usize, MachTy)>,
    fs: &Vec<ConcreteFn>,
    i: usize,
) -> (r: Result<Vec<IrFunc>, CompileError>)
    requires
        protos.wf(),
    ensures
        ({
            let o = cg_funcs(protos@, crate::registry::view_concrete_fns(fs@), i as int);
            match r {
                Ok(fns) => o == Ok::<Seq<IrFuncV>, CompileError>(view_ir_funcs(fns@)),
                Err(er) => o == Err::<Seq<IrFuncV>, CompileError>(er),
            }
        }),
    decreases fs@.len() - i,
{
    let ghost fsv = crate::registry::view_concrete_fns(fs@);
    proof {
        assert(fsv.len() == fs@.len());
    }
    if i >= fs.len() {
        let out: Vec<IrFunc> = Vec::new();
        proof {
            assert(view_ir_funcs(out@) =~= Seq::<IrFuncV>::empty());
        }
        Ok(out)
    } else {
        proof {
            assert(fsv[i as int] == fs@[i as int]@);
        }
        let irf = match gen_func(protos, &fs[i]) {
            Err(er) => {
                return Err(er);
            },
            Ok(x) => x,
        };
        let mut rest = match gen_funcs(protos, fs, i + 1) {
            Err(er) => {
                return Err(er);
            },
            Ok(x) => x,
        };
        let ghost rest0 = rest@;
        let ghost irfv = irf@;
        rest.insert(0, irf);
        proof {
            assert(view_ir_funcs(rest@) =~= seq![irfv] + view_ir_funcs(rest0));
        }
        Ok(rest)
    }
}

/// Lower a whole checked module into a control-flow module.
pub fn gen_module(tm: &CheckedModule) -> (r: Result<IrModule, CompileError>)
    ensures
        ({
            let o = cg_module(tm@);
            match r {
                Ok(m) => o == Ok::<IrModuleV, CompileError>(m@),
                Err(er) => o == Err::<IrModuleV, CompileError>(er),
            }
        }),
{
    let pt = match gen_protos(&tm.functions) {
        Err(er) => {
            return Err(er);
        },
        Ok(x) => x,
    };
    let fns = match gen_funcs(&pt, &tm.functions, 0) {
        Err(er) => {
            return Err(er);
        },
        Ok(x) => x,
    };
    let m = IrModule { funcs: fns };
    proof {
        assert(m@.funcs =~= view_ir_funcs(m.funcs@));
    }
    Ok(m)
}

} // verus!
