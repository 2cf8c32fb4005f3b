//! Direct execution of a lowered module.
//!
//! Blocks are executed by stepping through the function's code in order,
//! taking the instructions tagged with the current block, and following
//! its terminator; a merge node selects its value by the block control
//! arrived from. Integer and boolean operations are carried out in full;
//! float values are carried as opaque bit patterns (constants, moves,
//! merges and sign flips work), while float arithmetic, comparison and
//! conversion report `FloatOp` — a host with native floats owns those.

use vstd::prelude::*;

use crate::err::EvalError;
use crate::ir::{FBinOp, IBinOp, ICmpOp, IrInstr, IrTerm, IrFunc, IrFuncV, IrModule, IrModuleV};

verus! {

/// A runtime value: float bits, a 64-bit integer register, a single bit,
/// or nothing. Unsigned results are carried in the same 64-bit register
/// as signed ones and reinterpreted at the boundary.
#[derive(Debug, Clone, Copy, PartialEq, Eq, Structural)]
pub enum RunVal {
    Float(u64),
    Int(i64),
    Bit(bool),
    Unit,
}

/// The 64-bit register image of a value.
pub open spec fn s_bits(v: RunVal) -> i64 {
    match v {
        RunVal::Float(b) => b as i64,
        RunVal::Int(x) => x,
        RunVal::Bit(b) => if b {
            1
        } else {
            0
        },
        RunVal::Unit => 0,
    }
}

pub fn bits_of(v: RunVal) -> (r: i64)
    ensures
        r == s_bits(v),
{
    match v {
        RunVal::Float(b) => #[verifier::truncate] (b as i64),
        RunVal::Int(x) => x,
        RunVal::Bit(b) => if b {
            1
        } else {
            0
        },
        RunVal::Unit => 0,
    }
}

/// Signed 64-bit division with truncation toward zero, on the inputs
/// where it does not fault.
pub open spec fn s_sdiv(a: i64, b: i64) -> i64 {
    if b == 1 {
        a
    } else if b == -1 {
        (-(a as int)) as i64
    } else {
        let q = abs_int(a as int) / abs_int(b as int);
        if (a < 0) != (b < 0) {
            (-q) as i64
        } else {
            q as i64
        }
    }
}

pub open spec fn abs_int(x: int) -> int {
    if x < 0 {
        -x
    } else {
        x
    }
}

fn iabs(a: i64) -> (r: u64)
    ensures
        r == abs_int(a as int),
{
    if a >= 0 {
        a as u64
    } else {
        ((-(a + 1)) as u64) + 1
    }
}

fn sdiv(a: i64, b: i64) -> (r: i64)
    requires
        b != 0,
        !(a == i64::MIN && b == -1),
    ensures
        r == s_sdiv(a, b),
{
    if b == 1 {
        a
    } else if b == -1 {
        -a
    } else {
        let ua = iabs(a);
        let ub = iabs(b);
        let q = ua / ub;
        proof {
            assert(ub >= 2);
            assert(ua as int / ub as int <= ua as int / 2) by (nonlinear_arith)
                requires
                    ub >= 2,
                    ua >= 0,
            ;
        }
        if (a < 0) != (b < 0) {
            -(q as i64)
        } else {
            q as i64
        }
    }
}

/// One integer-family arithmetic or bitwise step. Addition, subtraction
/// and multiplication wrap; division faults on a zero divisor and on the
/// one overflowing signed case; the bitwise operators keep the bit kind
/// when both operands carry it.
pub open spec fn s_ibin(op: IBinOp, va: RunVal, vb: RunVal) -> Result<RunVal, EvalError> {
    let a = s_bits(va);
    let b = s_bits(vb);
    match op {
        IBinOp::Add => Ok(RunVal::Int(vstd::wrapping::i64_specs::wrapping_add(a, b))),
        IBinOp::Sub => Ok(RunVal::Int(vstd::wrapping::i64_specs::wrapping_sub(a, b))),
        IBinOp::Mul => Ok(RunVal::Int(vstd::wrapping::i64_specs::wrapping_mul(a, b))),
        IBinOp::SDiv => if b == 0 || (a == i64::MIN && b == -1) {
            Err(EvalError::DivByZero)
        } else {
            Ok(RunVal::Int(s_sdiv(a, b)))
        },
        IBinOp::UDiv => if b == 0 {
            Err(EvalError::DivByZero)
        } else {
            Ok(RunVal::Int(((a as u64) / (b as u64)) as i64))
        },
        IBinOp::And => match (va, vb) {
            (RunVal::Bit(x), RunVal::Bit(y)) => Ok(RunVal::Bit(x && y)),
            _ => Ok(RunVal::Int(a & b)),
        },
        IBinOp::Or => match (va, vb) {
            (RunVal::Bit(x), RunVal::Bit(y)) => Ok(RunVal::Bit(x || y)),
            _ => Ok(RunVal::Int(a | b)),
        },
    }
}

pub fn ibin(op: IBinOp, va: RunVal, vb: RunVal) -> (r: Result<RunVal, EvalError>)
    ensures
        r == s_ibin(op, va, vb),
{
    let a = bits_of(va);
    let b = bits_of(vb);
    match op {
        IBinOp::Add => Ok(RunVal::Int(a.wrapping_add(b))),
        IBinOp::Sub => Ok(RunVal::Int(a.wrapping_sub(b))),
        IBinOp::Mul => Ok(RunVal::Int(a.wrapping_mul(b))),
        IBinOp::SDiv => if b == 0 || (a == i64::MIN && b == -1) {
            Err(EvalError::DivByZero)
        } else {
            Ok(RunVal::Int(sdiv(a, b)))
        },
        IBinOp::UDiv => if b == 0 {
            Err(EvalError::DivByZero)
        } else {
            let ua = #[verifier::truncate] (a as u64);
            let ub = #[verifier::truncate] (b as u64);
            proof {
                assert(ub != 0) by (bit_vector)
                    requires
                        ub == b as u64,
                        b != 0,
                ;
            }
            Ok(RunVal::Int(#[verifier::truncate] ((ua / ub) as i64)))
        },
        IBinOp::And => match (va, vb) {
            (RunVal::Bit(x), RunVal::Bit(y)) => Ok(RunVal::Bit(x && y)),
            _ => Ok(RunVal::Int(a & b)),
        },
        IBinOp::Or => match (va, vb) {
            (RunVal::Bit(x), RunVal::Bit(y)) => Ok(RunVal::Bit(x || y)),
            _ => Ok(RunVal::Int(a | b)),
        },
    }
}

/// One integer-family comparison, signed or unsigned by the opcode.
pub open spec fn s_icmp(op: ICmpOp, va: RunVal, vb: RunVal) -> RunVal {
    let a = s_bits(va);
    let b = s_bits(vb);
    let ua = a as u64;
    let ub = b as u64;
    RunVal::Bit(
        match op {
            ICmpOp::Eq => a == b,
            ICmpOp::Ne => a != b,
            ICmpOp::Sgt => a > b,
            ICmpOp::Sge => a >= b,
            ICmpOp::Slt => a < b,
            ICmpOp::Sle => a <= b,
            ICmpOp::Ugt => ua > ub,
            ICmpOp::Uge => ua >= ub,
            ICmpOp::Ult => ua < ub,
            ICmpOp::Ule => ua <= ub,
        },
    )
}

pub fn icmp(op: ICmpOp, va: RunVal, vb: RunVal) -> (r: RunVal)
    ensures
        r == s_icmp(op, va, vb),
{
    let a = bits_of(va);
    let b = bits_of(vb);
    let ua = #[verifier::truncate] (a as u64);
    let ub = #[verifier::truncate] (b as u64);
    RunVal::Bit(
        match op {
            ICmpOp::Eq => a == b,
            ICmpOp::Ne => a != b,
            ICmpOp::Sgt => a > b,
            ICmpOp::Sge => a >= b,
            ICmpOp::Slt => a < b,
            ICmpOp::Sle => a <= b,
            ICmpOp::Ugt => ua > ub,
            ICmpOp::Uge => ua >= ub,
            ICmpOp::Ult => ua < ub,
            ICmpOp::Ule => ua <= ub,
        },
    )
}

/// Read a register.
pub open spec fn s_get(regs: Seq<RunVal>, r: usize) -> Result<RunVal, EvalError> {
    if r < regs.len() {
        Ok(regs[r as int])
    } else {
        Err(EvalError::BadModule)
    }
}

/// Write a register.
pub open spec fn s_set(regs: Seq<RunVal>, r: usize, v: RunVal) -> Result<Seq<RunVal>, EvalError> {
    if r < regs.len() {
        Ok(regs.update(r as int, v))
    } else {
        Err(EvalError::BadModule)
    }
}

/// The first terminator recorded for block `b`.
pub open spec fn find_term(terms: Seq<(usize, IrTerm)>, b: usize) -> Option<IrTerm>
    decreases terms,
{
    if terms.len() == 0 {
        None
    } else if terms[0].0 == b {
        Some(terms[0].1)
    } else {
        find_term(terms.drop_first(), b)
    }
}

/// Execute one non-call instruction, arriving from block `prev`, over the
/// register file.
pub open spec fn s_step(ins: IrInstr, prev: usize, regs: Seq<RunVal>) -> Result<
    Seq<RunVal>,
    EvalError,
> {
    match ins {
        IrInstr::ConstFloat { dst, bits } => s_set(regs, dst, RunVal::Float(bits)),
        IrInstr::ConstInt { dst, value } => s_set(regs, dst, RunVal::Int(value)),
        IrInstr::ConstBool { dst, value } => s_set(regs, dst, RunVal::Bit(value)),
        IrInstr::ConstUnit { dst } => s_set(regs, dst, RunVal::Unit),
        IrInstr::FloatBin { .. } => Err(EvalError::FloatOp),
        IrInstr::FloatCmp { .. } => Err(EvalError::FloatOp),
        IrInstr::IntToFloat { .. } => Err(EvalError::FloatOp),
        IrInstr::FloatNeg { dst, src } => match s_get(regs, src) {
            Err(e) => Err(e),
            Ok(v) => s_set(
                regs,
                dst,
                RunVal::Float(((s_bits(v) as u64) ^ 0x8000_0000_0000_0000u64) as u64),
            ),
        },
        IrInstr::IntNeg { dst, src } => match s_get(regs, src) {
            Err(e) => Err(e),
            Ok(v) => s_set(
                regs,
                dst,
                RunVal::Int(vstd::wrapping::i64_specs::wrapping_sub(0, s_bits(v))),
            ),
        },
        IrInstr::BitNot { dst, src } => match s_get(regs, src) {
            Err(e) => Err(e),
            Ok(v) => match v {
                RunVal::Bit(x) => s_set(regs, dst, RunVal::Bit(!x)),
                _ => s_set(regs, dst, RunVal::Int((-1 - s_bits(v) as int) as i64)),
            },
        },
        IrInstr::IntBin { dst, op, lhs, rhs } => match (s_get(regs, lhs), s_get(regs, rhs)) {
            (Ok(va), Ok(vb)) => match s_ibin(op, va, vb) {
                Ok(v) => s_set(regs, dst, v),
                Err(e) => Err(e),
            },
            _ => Err(EvalError::BadModule),
        },
        IrInstr::IntCmp { dst, op, lhs, rhs } => match (s_get(regs, lhs), s_get(regs, rhs)) {
            (Ok(va), Ok(vb)) => s_set(regs, dst, s_icmp(op, va, vb)),
            _ => Err(EvalError::BadModule),
        },
        IrInstr::Phi { dst, tblk, tval, fblk, fval } => if prev == tblk {
            match s_get(regs, tval) {
                Ok(v) => s_set(regs, dst, v),
                Err(e) => Err(e),
            }
        } else if prev == fblk {
            match s_get(regs, fval) {
                Ok(v) => s_set(regs, dst, v),
                Err(e) => Err(e),
            }
        } else {
            Err(EvalError::BadModule)
        },
        IrInstr::Call { .. } => Err(EvalError::BadModule),
    }
}

/// Call a function: the argument values fill the first registers, every
/// further register starts out as the unit value, and control starts in
/// the entry block.
pub open spec fn ev_func(m: IrModuleV, fidx: usize, args: Seq<RunVal>, gas: nat) -> Result<
    RunVal,
    EvalError,
>
    decreases gas, 2nat, 0nat,
{
    if fidx >= m.funcs.len() {
        Err(EvalError::BadModule)
    } else {
        let f = m.funcs[fidx as int];
        if args.len() != f.params.len() {
            Err(EvalError::BadModule)
        } else {
            let regs = Seq::new(
                f.reg_tys.len(),
                |i: int|
                    if i < args.len() {
                        args[i]
                    } else {
                        RunVal::Unit
                    },
            );
            ev_block(m, fidx, 0, 0, regs, gas)
        }
    }
}

/// Execute block `b`, arriving from `prev`, to the function's return.
pub open spec fn ev_block(
    m: IrModuleV,
    fidx: usize,
    b: usize,
    prev: usize,
    regs: Seq<RunVal>,
    gas: nat,
) -> Result<RunVal, EvalError>
    decreases gas, 1nat, 0nat,
{
    if fidx >= m.funcs.len() {
        Err(EvalError::BadModule)
    } else {
        ev_code(m, fidx, b, prev, 0, regs, gas)
    }
}

/// Step through the code from index `idx`, executing the instructions of
/// block `b`, then follow its terminator.
pub open spec fn ev_code(
    m: IrModuleV,
    fidx: usize,
    b: usize,
    prev: usize,
    idx: int,
    regs: Seq<RunVal>,
    gas: nat,
) -> Result<RunVal, EvalError>
    decreases gas, 0nat, m.funcs[fidx as int].code.len() - idx,
{
    if fidx >= m.funcs.len() {
        Err(EvalError::BadModule)
    } else {
        let f = m.funcs[fidx as int];
        if idx < 0 {
            Err(EvalError::BadModule)
        } else if idx >= f.code.len() {
            // end of the code: follow the block's terminator
            match find_term(f.terms, b) {
                None => Err(EvalError::BadModule),
                Some(IrTerm::Br(t)) => if gas == 0 {
                    Err(EvalError::OutOfGas)
                } else {
                    ev_block(m, fidx, t, b, regs, (gas - 1) as nat)
                },
                Some(IrTerm::CondBr { cond, on_true, on_false }) => match s_get(regs, cond) {
                    Err(e) => Err(e),
                    Ok(cv) => {
                        let taken = match cv {
                            RunVal::Bit(x) => x,
                            _ => s_bits(cv) != 0,
                        };
                        if gas == 0 {
                            Err(EvalError::OutOfGas)
                        } else if taken {
                            ev_block(m, fidx, on_true, b, regs, (gas - 1) as nat)
                        } else {
                            ev_block(m, fidx, on_false, b, regs, (gas - 1) as nat)
                        }
                    },
                },
                Some(IrTerm::Ret(None)) => Ok(RunVal::Unit),
                Some(IrTerm::Ret(Some(r))) => s_get(regs, r),
            }
        } else if f.code[idx].0 != b {
            ev_code(m, fidx, b, prev, idx + 1, regs, gas)
        } else {
            match f.code[idx].1 {
                IrInstr::Call { dst, callee, args_at, argc } => {
                    if args_at + argc > f.call_args.len() {
                        Err(EvalError::BadModule)
                    } else {
                        match gather_args(f, args_at as int, argc as int, regs) {
                            Err(e) => Err(e),
                            Ok(avs) => if gas == 0 {
                                Err(EvalError::OutOfGas)
                            } else {
                                match ev_func(m, callee, avs, (gas - 1) as nat) {
                                    Err(e) => Err(e),
                                    Ok(v) => match s_set(regs, dst, v) {
                                        Err(e) => Err(e),
                                        Ok(regs2) => ev_code(
                                            m,
                                            fidx,
                                            b,
                                            prev,
                                            idx + 1,
                                            regs2,
                                            gas,
                                        ),
                                    },
                                }
                            },
                        }
                    }
                },
                ins => match s_step(ins, prev, regs) {
                    Err(e) => Err(e),
                    Ok(regs2) => ev_code(m, fidx, b, prev, idx + 1, regs2, gas),
                },
            }
        }
    }
}

/// The values of a call's pooled argument registers.
pub open spec fn gather_args(f: IrFuncV, args_at: int, argc: int, regs: Seq<RunVal>) -> Result<
    Seq<RunVal>,
    EvalError,
>
    decreases argc,
{
    if argc <= 0 {
        Ok(Seq::empty())
    } else if 0 <= args_at < f.call_args.len() {
        match s_get(regs, f.call_args[args_at]) {
            Err(e) => Err(e),
            Ok(v) => match gather_args(f, args_at + 1, argc - 1, regs) {
                Err(e) => Err(e),
                Ok(rest) => Ok(seq![v] + rest),
            },
        }
    } else {
        Err(EvalError::BadModule)
    }
}

// ---------------------------------------------------------------------------
// The evaluator, executable
// ---------------------------------------------------------------------------

fn get_reg(regs: &Vec<RunVal>, r: usize) -> (v: Result<RunVal, EvalError>)
    ensures
        v == s_get(regs@, r),
{
    if r < regs.len() {
        Ok(regs[r])
    } else {
        Err(EvalError::BadModule)
    }
}

fn set_reg(regs: &mut Vec<RunVal>, r: usize, v: RunVal) -> (ok: Result<(), EvalError>)
    ensures
        match ok {
            Ok(_) => s_set(old(regs)@, r, v) == Ok::<Seq<RunVal>, EvalError>(final(regs)@),
            Err(e) => s_set(old(regs)@, r, v) == Err::<Seq<RunVal>, EvalError>(e) && final(regs)@
                == old(regs)@,
        },
{
    if r < regs.len() {
        regs.set(r, v);
        Ok(())
    } else {
        Err(EvalError::BadModule)
    }
}

/// Execute one non-call instruction over the register file.
fn step(ins: IrInstr, prev: usize, regs: &mut Vec<RunVal>) -> (ok: Result<(), EvalError>)
    requires
        !(ins matches IrInstr::Call { .. }),
    ensures
        match ok {
            Ok(_) => s_step(ins, prev, old(regs)@) == Ok::<Seq<RunVal>, EvalError>(final(regs)@),
            Err(e) => s_step(ins, prev, old(regs)@) == Err::<Seq<RunVal>, EvalError>(e),
        },
{
    match ins {
        IrInstr::ConstFloat { dst, bits } => set_reg(regs, dst, RunVal::Float(bits)),
        IrInstr::ConstInt { dst, value } => set_reg(regs, dst, RunVal::Int(value)),
        IrInstr::ConstBool { dst, value } => set_reg(regs, dst, RunVal::Bit(value)),
        IrInstr::ConstUnit { dst } => set_reg(regs, dst, RunVal::Unit),
        IrInstr::FloatBin { .. } => Err(EvalError::FloatOp),
        IrInstr::FloatCmp { .. } => Err(EvalError::FloatOp),
        IrInstr::IntToFloat { .. } => Err(EvalError::FloatOp),
        IrInstr::FloatNeg { dst, src } => match get_reg(regs, src) {
            Err(e) => Err(e),
            Ok(v) => {
                let b = #[verifier::truncate] (bits_of(v) as u64);
                set_reg(regs, dst, RunVal::Float(b ^ 0x8000_0000_0000_0000u64))
            },
        },
        IrInstr::IntNeg { dst, src } => match get_reg(regs, src) {
            Err(e) => Err(e),
            Ok(v) => set_reg(regs, dst, RunVal::Int(0i64.wrapping_sub(bits_of(v)))),
        },
        IrInstr::BitNot { dst, src } => match get_reg(regs, src) {
            Err(e) => Err(e),
            Ok(v) => match v {
                RunVal::Bit(x) => set_reg(regs, dst, RunVal::Bit(!x)),
                _ => {
                    let b = bits_of(v);
                    proof {
                        assert(-1 - b as int >= i64::MIN && -1 - b as int <= i64::MAX);
                    }
                    set_reg(regs, dst, RunVal::Int(-1 - b))
                },
            },
        },
        IrInstr::IntBin { dst, op, lhs, rhs } => match (get_reg(regs, lhs), get_reg(regs, rhs)) {
            (Ok(va), Ok(vb)) => match ibin(op, va, vb) {
                Ok(v) => set_reg(regs, dst, v),
                Err(e) => Err(e),
            },
            _ => Err(EvalError::BadModule),
        },
        IrInstr::IntCmp { dst, op, lhs, rhs } => match (get_reg(regs, lhs), get_reg(regs, rhs)) {
            (Ok(va), Ok(vb)) => set_reg(regs, dst, icmp(op, va, vb)),
            _ => Err(EvalError::BadModule),
        },
        IrInstr::Phi { dst, tblk, tval, fblk, fval } => if prev == tblk {
            match get_reg(regs, tval) {
                Ok(v) => set_reg(regs, dst, v),
                Err(e) => Err(e),
            }
        } else if prev == fblk {
            match get_reg(regs, fval) {
                Ok(v) => set_reg(regs, dst, v),
                Err(e) => Err(e),
            }
        } else {
            Err(EvalError::BadModule)
        },
        IrInstr::Call { .. } => Err(EvalError::BadModule),
    }
}

/// Call function `fidx` of the module on argument values.
pub fn eval_func(m: &IrModule, fidx: usize, args: Vec<RunVal>, gas: u64) -> (r: Result<
    RunVal,
    EvalError,
>)
    ensures
        r == ev_func(m@, fidx, args@, gas as nat),
    decreases gas, 2nat, 0nat,
{
    if fidx >= m.funcs.len() {
        return Err(EvalError::BadModule);
    }
    let f = &m.funcs[fidx];
    proof {
        assert(m@.funcs[fidx as int] == f@);
    }
    if args.len() != f.params.len() {
        return Err(EvalError::BadModule);
    }
    let mut regs: Vec<RunVal> = Vec::new();
    let mut i: usize = 0;
    while i < f.reg_tys.len()
        invariant
            i <= f.reg_tys@.len(),
            regs@.len() == i,
            args@.len() <= f.reg_tys@.len() || true,
            forall|j: int|
                0 <= j < i ==> regs@[j] == (if j < args@.len() {
                    args@[j]
                } else {
                    RunVal::Unit
                }),
        decreases f.reg_tys@.len() - i,
    {
        if i < args.len() {
            regs.push(args[i]);
        } else {
            regs.push(RunVal::Unit);
        }
        i += 1;
    }
    proof {
        assert(regs@ =~= Seq::new(
            f@.reg_tys.len(),
            |j: int|
                if j < args@.len() {
                    args@[j]
                } else {
                    RunVal::Unit
                },
        ));
    }
    eval_block(m, fidx, 0, 0, regs, gas)
}

/// Execute a block, arriving from `prev`, to the function's return.
fn eval_block(m: &IrModule, fidx: usize, b: usize, prev: usize, regs: Vec<RunVal>, gas: u64) -> (r:
    Result<RunVal, EvalError>)
    ensures
        r == ev_block(m@, fidx, b, prev, regs@, gas as nat),
    decreases gas, 1nat, 0nat,
{
    if fidx >= m.funcs.len() {
        return Err(EvalError::BadModule);
    }
    eval_code(m, fidx, b, prev, 0, regs, gas)
}

/// Step through the code from `idx`, executing the instructions of block
/// `b`, then follow its terminator.
#[verifier::rlimit(50)]
fn eval_code(
    m: &IrModule,
    fidx: usize,
    b: usize,
    prev: usize,
    idx: usize,
    regs: Vec<RunVal>,
    gas: u64,
) -> (r: Result<RunVal, EvalError>)
    requires
        fidx < m.funcs@.len(),
    ensures
        r == ev_code(m@, fidx, b, prev, idx as int, regs@, gas as nat),
    decreases gas, 0nat, m@.funcs[fidx as int].code.len() - idx,
{
    let mut regs = regs;
    let f = &m.funcs[fidx];
    proof {
        assert(m@.funcs[fidx as int] == f@);
    }
    if idx >= f.code.len() {
        // end of the code: follow the block's terminator
        let mut k: usize = 0;
        let ghost terms = f.terms@;
        proof {
            assert(terms.skip(0) =~= terms);
        }
        let mut found: Option<IrTerm> = None;
        while k < f.terms.len() && found.is_none()
            invariant
                k <= terms.len(),
                terms == f.terms@,
                f@ == m@.funcs[fidx as int],
                found is None ==> find_term(terms, b) == find_term(terms.skip(k as int), b),
                found is Some ==> find_term(terms, b) == found,
            decreases terms.len() - k + (if found is Some {
                0int
            } else {
                1int
            }),
        {
            if f.terms[k].0 == b {
                found = Some(f.terms[k].1);
                proof {
                    assert(terms.skip(k as int)[0] == terms[k as int]);
                }
            } else {
                proof {
                    assert(terms.skip(k as int).drop_first() =~= terms.skip(k as int + 1));
                    assert(terms.skip(k as int)[0] == terms[k as int]);
                }
                k += 1;
            }
        }
        proof {
            if found is None {
                assert(terms.skip(terms.len() as int) =~= Seq::<(usize, IrTerm)>::empty());
            }
        }
        match found {
            None => Err(EvalError::BadModule),
            Some(IrTerm::Br(t)) => {
                if gas == 0 {
                    Err(EvalError::OutOfGas)
                } else {
                    eval_block(m, fidx, t, b, regs, gas - 1)
                }
            },
            Some(IrTerm::CondBr { cond, on_true, on_false }) => match get_reg(&regs, cond) {
                Err(e) => Err(e),
                Ok(cv) => {
                    let taken = match cv {
                        RunVal::Bit(x) => x,
                        _ => bits_of(cv) != 0,
                    };
                    if gas == 0 {
                        Err(EvalError::OutOfGas)
                    } else if taken {
                        eval_block(m, fidx, on_true, b, regs, gas - 1)
                    } else {
                        eval_block(m, fidx, on_false, b, regs, gas - 1)
                    }
                },
            },
            Some(IrTerm::Ret(None)) => Ok(RunVal::Unit),
            Some(IrTerm::Ret(Some(rr))) => get_reg(&regs, rr),
        }
    } else {
        let tag = f.code[idx].0;
        if tag != b {
            eval_code(m, fidx, b, prev, idx + 1, regs, gas)
        } else {
            match f.code[idx].1 {
                IrInstr::Call { dst, callee, args_at, argc } => {
                    if args_at > f.call_args.len() || argc > f.call_args.len() - args_at {
                        return Err(EvalError::BadModule);
                    }
                    let avs = match exec_gather(f, args_at, argc, &regs) {
                        Err(e) => {
                            return Err(e);
                        },
                        Ok(x) => x,
                    };
                    if gas == 0 {
                        return Err(EvalError::OutOfGas);
                    }
                    let v = match eval_func(m, callee, avs, gas - 1) {
                        Err(e) => {
                            return Err(e);
                        },
                        Ok(x) => x,
                    };
                    match set_reg(&mut regs, dst, v) {
                        Err(e) => Err(e),
                        Ok(_) => eval_code(m, fidx, b, prev, idx + 1, regs, gas),
                    }
                },
                ins => match step(ins, prev, &mut regs) {
                    Err(e) => Err(e),
                    Ok(_) => eval_code(m, fidx, b, prev, idx + 1, regs, gas),
                },
            }
        }
    }
}

/// Collect a call's pooled argument values.
fn exec_gather(f: &IrFunc, args_at: usize, argc: usize, regs: &Vec<RunVal>) -> (r: Result<
    Vec<RunVal>,
    EvalError,
>)
    requires
        args_at + argc <= f.call_args@.len(),
    ensures
        ({
            let o = gather_args(f@, args_at as int, argc as int, regs@);
            match r {
                Ok(vs) => o == Ok::<Seq<RunVal>, EvalError>(vs@),
                Err(e) => o == Err::<Seq<RunVal>, EvalError>(e),
            }
        }),
    decreases argc,
{
    let n = f.call_args.len();
    if argc == 0 {
        let out: Vec<RunVal> = Vec::new();
        proof {
            assert(out@ =~= Seq::<RunVal>::empty());
        }
        Ok(out)
    } else {
        let v = match get_reg(regs, f.call_args[args_at]) {
            Err(e) => {
                return Err(e);
            },
            Ok(x) => x,
        };
        let mut rest = match exec_gather(f, args_at + 1, argc - 1, regs) {
            Err(e) => {
                return Err(e);
            },
            Ok(x) => x,
        };
        let ghost rest0 = rest@;
        rest.insert(0, v);
        proof {
            assert(rest@ =~= seq![v] + rest0);
        }
        Ok(rest)
    }
}

} // verus!
