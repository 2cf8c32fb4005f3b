//! The error taxonomy. Checking-phase errors carry the offending source
//! location for diagnostics; lowering-phase errors indicate an internal
//! inconsistency that a correct type checker makes unreachable.

use vstd::prelude::*;

use crate::ast::Loc;
use crate::types::{Type, UnaryOp, BinaryOp};

verus! {

/// An error detected during the type-checking pass. Each carries the
/// location of the offending node.
#[derive(Debug)]
pub enum TypeError {
    /// A variable name not bound in any accessible scope.
    VariableNotFound(Loc, String),
    /// A call to a function name with no registered template.
    FunctionNotFound(Loc, String),
    /// A call whose argument count differs from the template's parameter
    /// count: expected, got.
    ArgCountMismatch(Loc, usize, usize),
    /// A unary operator applied to an operand type it does not accept.
    InvalidUnaryOp(Loc, UnaryOp, Type),
    /// A binary operator applied to operand types it does not accept.
    InvalidBinaryOp(Loc, Type, BinaryOp, Type),
    /// One type was required and another was found: expected, got.
    TypeMismatch(Loc, Type, Type),
    /// A call handing an argument whose type is still the unresolved
    /// placeholder to a specialization.
    UnresolvedArg(Loc),
    /// A function whose type never resolved beyond the placeholder: no
    /// fully type-checked node may carry `Unresolved`.
    UnresolvedType(Loc),
    /// The specialization nesting budget ran out.
    DepthExceeded(Loc),
}

/// View of a checking-phase error.
pub enum TypeErrorV {
    VariableNotFound(Loc, Seq<char>),
    FunctionNotFound(Loc, Seq<char>),
    ArgCountMismatch(Loc, usize, usize),
    InvalidUnaryOp(Loc, UnaryOp, Type),
    InvalidBinaryOp(Loc, Type, BinaryOp, Type),
    TypeMismatch(Loc, Type, Type),
    UnresolvedArg(Loc),
    UnresolvedType(Loc),
    DepthExceeded(Loc),
}

impl View for TypeError {
    type V = TypeErrorV;

    open spec fn view(&self) -> TypeErrorV {
        match self {
            TypeError::VariableNotFound(l, n) => TypeErrorV::VariableNotFound(*l, n@),
            TypeError::FunctionNotFound(l, n) => TypeErrorV::FunctionNotFound(*l, n@),
            TypeError::ArgCountMismatch(l, e, g) => TypeErrorV::ArgCountMismatch(*l, *e, *g),
            TypeError::InvalidUnaryOp(l, op, t) => TypeErrorV::InvalidUnaryOp(*l, *op, *t),
            TypeError::InvalidBinaryOp(l, a, op, b) => TypeErrorV::InvalidBinaryOp(
                *l,
                *a,
                *op,
                *b,
            ),
            TypeError::TypeMismatch(l, e, g) => TypeErrorV::TypeMismatch(*l, *e, *g),
            TypeError::UnresolvedArg(l) => TypeErrorV::UnresolvedArg(*l),
            TypeError::UnresolvedType(l) => TypeErrorV::UnresolvedType(*l),
            TypeError::DepthExceeded(l) => TypeErrorV::DepthExceeded(*l),
        }
    }
}

/// An internal-consistency failure of the lowering layer. A program the
/// type checker accepted is not expected to reach any of these.
#[derive(Debug, Clone, Copy, PartialEq, Eq, Structural)]
pub enum CompileError {
    /// A node whose type the lowering cannot represent.
    InvalidType,
    /// A variable read with no generated value under its name.
    VarNotFound,
    /// A call to a mangled name with no declared prototype.
    FuncNotFound,
}

/// Calling a generated entry point with the wrong host-side type, or asking
/// for an entry point that the module does not have.
#[derive(Debug, Clone, Copy, PartialEq, Eq, Structural)]
pub struct ExecuteError;

/// A fault while executing a lowered module directly.
#[derive(Debug, Clone, Copy, PartialEq, Eq, Structural)]
pub enum EvalError {
    /// The operation needs the host's float arithmetic, which this
    /// evaluator does not carry out.
    FloatOp,
    /// An integer division that faults: a zero divisor, or the one
    /// overflowing signed case.
    DivByZero,
    /// The step budget ran out.
    OutOfGas,
    /// The module is not structurally sound (a dangling register, block
    /// or function reference, or a block without a terminator).
    BadModule,
}

/// Everything that can go wrong between an AST and the value of its entry
/// point.
#[derive(Debug)]
pub enum RunError {
    Check(TypeError),
    Compile(CompileError),
    Execute(ExecuteError),
    Eval(EvalError),
}

pub enum RunErrorV {
    Check(TypeErrorV),
    Compile(CompileError),
    Execute(ExecuteError),
    Eval(EvalError),
}

impl View for RunError {
    type V = RunErrorV;

    open spec fn view(&self) -> RunErrorV {
        match self {
            RunError::Check(e) => RunErrorV::Check(e@),
            RunError::Compile(e) => RunErrorV::Compile(*e),
            RunError::Execute(e) => RunErrorV::Execute(*e),
            RunError::Eval(e) => RunErrorV::Eval(*e),
        }
    }
}

} // verus!
