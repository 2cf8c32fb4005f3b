//! The SSA-style control-flow module that the code generator lowers a
//! type-checked module into.
//!
//! A function holds a set of basic blocks. Every value lives in a numbered
//! register defined by exactly one instruction (or by a parameter);
//! instructions carry the index of the block they belong to, in emission
//! order, and each block ends in exactly one terminator. A branch becomes
//! three blocks — on-true, on-false and a continue block — joined by a
//! merge ("phi") instruction that selects between the two recorded
//! (predecessor block, value) pairs. Call arguments are stored in a flat
//! pool, so that every instruction is a plain word-sized record.

use vstd::prelude::*;

use crate::types::Type;

verus! {

/// The machine-level kind of a register: a 64-bit float, a signed or
/// unsigned 64-bit integer, a single bit, or no value.
#[derive(Debug, Clone, Copy, PartialEq, Eq, Structural)]
pub enum MachTy {
    Float,
    Int,
    Uint,
    Bit,
    Unit,
}

/// The machine kind a scalar type lowers to; the unresolved placeholder
/// has none.
pub open spec fn spec_mach_of(t: Type) -> Option<MachTy> {
    match t {
        Type::F64 => Some(MachTy::Float),
        Type::I64 => Some(MachTy::Int),
        Type::U64 => Some(MachTy::Uint),
        Type::Bool => Some(MachTy::Bit),
        Type::Unit => Some(MachTy::Unit),
        Type::Unresolved => None,
    }
}

#[verifier::when_used_as_spec(spec_mach_of)]
pub fn mach_of(t: Type) -> (r: Option<MachTy>)
    ensures
        r == spec_mach_of(t),
{
    match t {
        Type::F64 => Some(MachTy::Float),
        Type::I64 => Some(MachTy::Int),
        Type::U64 => Some(MachTy::Uint),
        Type::Bool => Some(MachTy::Bit),
        Type::Unit => Some(MachTy::Unit),
        Type::Unresolved => None,
    }
}

/// The float-family arithmetic operations.
#[derive(Debug, Clone, Copy, PartialEq, Eq, Structural)]
pub enum FBinOp {
    Add,
    Sub,
    Mul,
    Div,
}

/// The float-family ordered comparisons.
#[derive(Debug, Clone, Copy, PartialEq, Eq, Structural)]
pub enum FCmpOp {
    Eq,
    Ne,
    Gt,
    Ge,
    Lt,
    Le,
}

/// The integer-family arithmetic and bitwise operations; division is
/// signed or unsigned.
#[derive(Debug, Clone, Copy, PartialEq, Eq, Structural)]
pub enum IBinOp {
    Add,
    Sub,
    Mul,
    SDiv,
    UDiv,
    And,
    Or,
}

/// The integer-family comparisons, with signed and unsigned orderings.
#[derive(Debug, Clone, Copy, PartialEq, Eq, Structural)]
pub enum ICmpOp {
    Eq,
    Ne,
    Sgt,
    Sge,
    Slt,
    Sle,
    Ugt,
    Uge,
    Ult,
    Ule,
}

/// One instruction. `dst` is always the defined register; operands are
/// register numbers. A call's arguments are `argc` registers starting at
/// `args_at` in the function's argument pool, and `callee` is an index
/// into the module's function list.
#[derive(Debug, Clone, Copy, PartialEq, Eq, Structural)]
pub enum IrInstr {
    /// A float constant, as its 64-bit IEEE bit pattern.
    ConstFloat { dst: usize, bits: u64 },
    ConstInt { dst: usize, value: i64 },
    ConstBool { dst: usize, value: bool },
    ConstUnit { dst: usize },
    FloatBin { dst: usize, op: FBinOp, lhs: usize, rhs: usize },
    IntBin { dst: usize, op: IBinOp, lhs: usize, rhs: usize },
    FloatCmp { dst: usize, op: FCmpOp, lhs: usize, rhs: usize },
    IntCmp { dst: usize, op: ICmpOp, lhs: usize, rhs: usize },
    FloatNeg { dst: usize, src: usize },
    IntNeg { dst: usize, src: usize },
    BitNot { dst: usize, src: usize },
    /// Signed integer to float conversion.
    IntToFloat { dst: usize, src: usize },
    Call { dst: usize, callee: usize, args_at: usize, argc: usize },
    /// The merge node of a branch: takes `tval` when control arrived from
    /// block `tblk`, `fval` when it arrived from `fblk`.
    Phi { dst: usize, tblk: usize, tval: usize, fblk: usize, fval: usize },
}

/// A block terminator.
#[derive(Debug, Clone, Copy, PartialEq, Eq, Structural)]
pub enum IrTerm {
    Br(usize),
    CondBr { cond: usize, on_true: usize, on_false: usize },
    Ret(Option<usize>),
}

/// Why a block exists; `id` disambiguates the blocks of nested branches.
#[derive(Debug, Clone, Copy, PartialEq, Eq, Structural)]
pub enum LabelKind {
    Entry,
    OnTrue,
    OnFalse,
    Cont,
}

#[derive(Debug, Clone, Copy, PartialEq, Eq, Structural)]
pub struct BlockLabel {
    pub kind: LabelKind,
    pub id: usize,
}

/// One lowered function. Register `i` for `i < params.len()` holds the
/// `i`th argument; `reg_tys` gives every register's machine kind. The body
/// of block `b` is the subsequence of `code` tagged `b`, in order, and
/// `terms` records each closed block's terminator.
#[derive(Debug, PartialEq, Eq)]
pub struct IrFunc {
    pub name: String,
    pub params: Vec<MachTy>,
    pub ret: MachTy,
    pub labels: Vec<BlockLabel>,
    pub code: Vec<(usize, IrInstr)>,
    pub terms: Vec<(usize, IrTerm)>,
    pub reg_tys: Vec<MachTy>,
    pub call_args: Vec<usize>,
}

pub struct IrFuncV {
    pub name: Seq<char>,
    pub params: Seq<MachTy>,
    pub ret: MachTy,
    pub labels: Seq<BlockLabel>,
    pub code: Seq<(usize, IrInstr)>,
    pub terms: Seq<(usize, IrTerm)>,
    pub reg_tys: Seq<MachTy>,
    pub call_args: Seq<usize>,
}

impl View for IrFunc {
    type V = IrFuncV;

    open spec fn view(&self) -> IrFuncV {
        IrFuncV {
            name: self.name@,
            params: self.params@,
            ret: self.ret,
            labels: self.labels@,
            code: self.code@,
            terms: self.terms@,
            reg_tys: self.reg_tys@,
            call_args: self.call_args@,
        }
    }
}

/// A lowered module: one function per concrete signature, the entry
/// function among them.
#[derive(Debug, PartialEq, Eq)]
pub struct IrModule {
    pub funcs: Vec<IrFunc>,
}

pub struct IrModuleV {
    pub funcs: Seq<IrFuncV>,
}

impl View for IrModule {
    type V = IrModuleV;

    open spec fn view(&self) -> IrModuleV {
        IrModuleV { funcs: Seq::new(self.funcs@.len(), |i: int| self.funcs@[i]@) }
    }
}

// ---------------------------------------------------------------------------
// Structural well-formedness
// ---------------------------------------------------------------------------

/// The registers an instruction reads and defines are allocated, and every
/// block or function it names exists.
pub open spec fn wf_instr(i: IrInstr, f: IrFuncV, nfuncs: int) -> bool {
    match i {
        IrInstr::ConstFloat { dst, .. } => dst < f.reg_tys.len(),
        IrInstr::ConstInt { dst, .. } => dst < f.reg_tys.len(),
        IrInstr::ConstBool { dst, .. } => dst < f.reg_tys.len(),
        IrInstr::ConstUnit { dst } => dst < f.reg_tys.len(),
        IrInstr::FloatBin { dst, lhs, rhs, .. } => dst < f.reg_tys.len() && lhs < f.reg_tys.len()
            && rhs < f.reg_tys.len(),
        IrInstr::IntBin { dst, lhs, rhs, .. } => dst < f.reg_tys.len() && lhs < f.reg_tys.len()
            && rhs < f.reg_tys.len(),
        IrInstr::FloatCmp { dst, lhs, rhs, .. } => dst < f.reg_tys.len() && lhs < f.reg_tys.len()
            && rhs < f.reg_tys.len(),
        IrInstr::IntCmp { dst, lhs, rhs, .. } => dst < f.reg_tys.len() && lhs < f.reg_tys.len()
            && rhs < f.reg_tys.len(),
        IrInstr::FloatNeg { dst, src } => dst < f.reg_tys.len() && src < f.reg_tys.len(),
        IrInstr::IntNeg { dst, src } => dst < f.reg_tys.len() && src < f.reg_tys.len(),
        IrInstr::BitNot { dst, src } => dst < f.reg_tys.len() && src < f.reg_tys.len(),
        IrInstr::IntToFloat { dst, src } => dst < f.reg_tys.len() && src < f.reg_tys.len(),
        IrInstr::Call { dst, callee, args_at, argc } => dst < f.reg_tys.len() && callee < nfuncs
            && args_at + argc <= f.call_args.len() && (forall|k: int|
            args_at <= k < args_at + argc ==> #[trigger] f.call_args[k] < f.reg_tys.len()),
        IrInstr::Phi { dst, tblk, tval, fblk, fval } => dst < f.reg_tys.len() && tval
            < f.reg_tys.len() && fval < f.reg_tys.len() && tblk < f.labels.len() && fblk
            < f.labels.len(),
    }
}

pub open spec fn wf_term(t: IrTerm, f: IrFuncV) -> bool {
    match t {
        IrTerm::Br(b) => b < f.labels.len(),
        IrTerm::CondBr { cond, on_true, on_false } => cond < f.reg_tys.len() && on_true
            < f.labels.len() && on_false < f.labels.len(),
        IrTerm::Ret(Some(r)) => r < f.reg_tys.len(),
        IrTerm::Ret(None) => true,
    }
}

/// A structurally sound function: it has an entry block, every register
/// and block reference is in range, the parameters sit in the first
/// registers, and every block ends in exactly one terminator.
pub open spec fn wf_func(f: IrFuncV, nfuncs: int) -> bool {
    &&& f.labels.len() >= 1
    &&& f.params.len() <= f.reg_tys.len()
    &&& forall|i: int| 0 <= i < f.params.len() ==> f.reg_tys[i] == #[trigger] f.params[i]
    &&& forall|i: int|
        0 <= i < f.code.len() ==> (#[trigger] f.code[i]).0 < f.labels.len() && wf_instr(
            f.code[i].1,
            f,
            nfuncs,
        )
    &&& forall|i: int|
        0 <= i < f.terms.len() ==> (#[trigger] f.terms[i]).0 < f.labels.len() && wf_term(
            f.terms[i].1,
            f,
        )
    &&& forall|i: int, j: int| 0 <= i < j < f.terms.len() ==> f.terms[i].0 != f.terms[j].0
    &&& forall|b: int| 0 <= b < f.labels.len() ==> #[trigger] has_term(f, b)
}

/// Some terminator closes block `b`.
pub open spec fn has_term(f: IrFuncV, b: int) -> bool {
    exists|i: int| 0 <= i < f.terms.len() && (#[trigger] f.terms[i]).0 == b
}

/// A structurally sound module.
pub open spec fn wf_module(m: IrModuleV) -> bool {
    forall|i: int| 0 <= i < m.funcs.len() ==> wf_func(#[trigger] m.funcs[i], m.funcs.len() as int)
}

} // verus!
