//! The scalar type system: the closed `Type` enumeration, literals, and the
//! operator typing rules used by the type checker.

use vstd::prelude::*;

verus! {

/// The closed set of scalar types. `Unresolved` is a placeholder that is only
/// valid on the parameters of a generic template before specialization; it
/// must never appear on a fully type-checked node.
#[derive(Debug, Clone, Copy, PartialEq, Eq, Structural)]
pub enum Type {
    /// 64-bit float
    F64,
    /// 64-bit signed integer
    I64,
    /// 64-bit unsigned integer
    U64,
    /// boolean
    Bool,
    /// the unit (empty) value
    Unit,
    /// placeholder on generic-template parameters before specialization
    Unresolved,
}

impl Type {
    /// A numeric type can take part in arithmetic.
    pub open spec fn spec_is_numeric(self) -> bool {
        self == Type::F64 || self == Type::I64 || self == Type::U64
    }

    #[verifier::when_used_as_spec(spec_is_numeric)]
    pub fn is_numeric(self) -> (r: bool)
        ensures
            r == self.spec_is_numeric(),
    {
        match self {
            Type::F64 | Type::I64 | Type::U64 => true,
            _ => false,
        }
    }
}

/// A literal value. A float literal is carried as the bit pattern of its
/// 64-bit IEEE encoding, so that the compiler itself never performs any
/// float arithmetic; the host decodes the bits at the boundary.
#[derive(Debug, Clone, Copy, PartialEq, Eq, Structural)]
pub enum Lit {
    F64Bits(u64),
    I64(i64),
    Bool(bool),
    Unit,
}

/// The type of a literal is fixed by its kind.
pub open spec fn spec_lit_type(l: Lit) -> Type {
    match l {
        Lit::F64Bits(_) => Type::F64,
        Lit::I64(_) => Type::I64,
        Lit::Bool(_) => Type::Bool,
        Lit::Unit => Type::Unit,
    }
}

#[verifier::when_used_as_spec(spec_lit_type)]
pub fn lit_type(l: Lit) -> (t: Type)
    ensures
        t == spec_lit_type(l),
{
    match l {
        Lit::F64Bits(_) => Type::F64,
        Lit::I64(_) => Type::I64,
        Lit::Bool(_) => Type::Bool,
        Lit::Unit => Type::Unit,
    }
}

/// Unary operators.
#[derive(Debug, Clone, Copy, PartialEq, Eq, Structural)]
pub enum UnaryOp {
    /// `+ <operand>`
    Plus,
    /// `- <operand>`
    Neg,
    /// `! <operand>`
    Not,
}

/// Binary operators.
#[derive(Debug, Clone, Copy, PartialEq, Eq, Structural)]
pub enum BinaryOp {
    /// `<lhs> + <rhs>`
    Add,
    /// `<lhs> - <rhs>`
    Sub,
    /// `<lhs> * <rhs>`
    Mul,
    /// `<lhs> / <rhs>`
    Div,
    /// `<lhs> == <rhs>`
    Eq,
    /// `<lhs> != <rhs>`
    Ne,
    /// `<lhs> > <rhs>`
    Gt,
    /// `<lhs> >= <rhs>`
    Ge,
    /// `<lhs> < <rhs>`
    Lt,
    /// `<lhs> <= <rhs>`
    Le,
    /// `<lhs> || <rhs>`
    Or,
    /// `<lhs> && <rhs>`
    And,
}

impl BinaryOp {
    /// The operators whose result is a boolean: comparison, equality and
    /// logical operators.
    pub open spec fn spec_is_boolean(self) -> bool {
        match self {
            BinaryOp::Eq
            | BinaryOp::Ne
            | BinaryOp::Gt
            | BinaryOp::Ge
            | BinaryOp::Lt
            | BinaryOp::Le
            | BinaryOp::Or
            | BinaryOp::And => true,
            _ => false,
        }
    }

    #[verifier::when_used_as_spec(spec_is_boolean)]
    pub fn is_boolean(self) -> (r: bool)
        ensures
            r == self.spec_is_boolean(),
    {
        match self {
            BinaryOp::Eq
            | BinaryOp::Ne
            | BinaryOp::Gt
            | BinaryOp::Ge
            | BinaryOp::Lt
            | BinaryOp::Le
            | BinaryOp::Or
            | BinaryOp::And => true,
            _ => false,
        }
    }
}

/// The two operands of a binary expression.
#[derive(Debug, Clone, PartialEq, Eq, Structural)]
pub struct Sides<T> {
    pub lhs: T,
    pub rhs: T,
}

/// The unary typing rule: `+`/`-` are valid on the numeric types `F64` and
/// `I64` and keep the operand type; `!` is valid only on `Bool`. An
/// unresolved operand stays unresolved. Every other combination is invalid
/// (`None`).
pub open spec fn spec_unary_result(op: UnaryOp, t: Type) -> Option<Type> {
    match (op, t) {
        (UnaryOp::Plus, Type::F64) => Some(Type::F64),
        (UnaryOp::Plus, Type::I64) => Some(Type::I64),
        (UnaryOp::Neg, Type::F64) => Some(Type::F64),
        (UnaryOp::Neg, Type::I64) => Some(Type::I64),
        (UnaryOp::Not, Type::Bool) => Some(Type::Bool),
        (_, Type::Unresolved) => Some(Type::Unresolved),
        _ => None,
    }
}

#[verifier::when_used_as_spec(spec_unary_result)]
pub fn unary_result(op: UnaryOp, t: Type) -> (r: Option<Type>)
    ensures
        r == spec_unary_result(op, t),
{
    match (op, t) {
        (UnaryOp::Plus, Type::F64) => Some(Type::F64),
        (UnaryOp::Plus, Type::I64) => Some(Type::I64),
        (UnaryOp::Neg, Type::F64) => Some(Type::F64),
        (UnaryOp::Neg, Type::I64) => Some(Type::I64),
        (UnaryOp::Not, Type::Bool) => Some(Type::Bool),
        (_, Type::Unresolved) => Some(Type::Unresolved),
        _ => None,
    }
}

/// The binary typing rule.
///
/// - Comparison, equality and logical operators are valid exactly when both
///   operand types are identical (any type, not only numeric); the result is
///   `Bool`.
/// - Arithmetic operators are valid between numeric types: a same-type
///   numeric pair keeps that type, and the mixed `I64`/`F64` pair promotes
///   to `F64`.
/// - Two unresolved operands of an arithmetic operator stay unresolved.
/// - Everything else is invalid (`None`).
pub open spec fn spec_binary_result(op: BinaryOp, lhs: Type, rhs: Type) -> Option<Type> {
    if op.spec_is_boolean() {
        if lhs == rhs {
            Some(Type::Bool)
        } else {
            None
        }
    } else {
        match (lhs, rhs) {
            (Type::I64, Type::I64) => Some(Type::I64),
            (Type::U64, Type::U64) => Some(Type::U64),
            (Type::F64, Type::F64) => Some(Type::F64),
            (Type::I64, Type::F64) => Some(Type::F64),
            (Type::F64, Type::I64) => Some(Type::F64),
            (Type::Unresolved, Type::Unresolved) => Some(Type::Unresolved),
            _ => None,
        }
    }
}

#[verifier::when_used_as_spec(spec_binary_result)]
pub fn binary_result(op: BinaryOp, lhs: Type, rhs: Type) -> (r: Option<Type>)
    ensures
        r == spec_binary_result(op, lhs, rhs),
{
    if op.is_boolean() {
        if lhs == rhs {
            Some(Type::Bool)
        } else {
            None
        }
    } else {
        match (lhs, rhs) {
            (Type::I64, Type::I64) => Some(Type::I64),
            (Type::U64, Type::U64) => Some(Type::U64),
            (Type::F64, Type::F64) => Some(Type::F64),
            (Type::I64, Type::F64) => Some(Type::F64),
            (Type::F64, Type::I64) => Some(Type::F64),
            (Type::Unresolved, Type::Unresolved) => Some(Type::Unresolved),
            _ => None,
        }
    }
}

/// The branch typing rule, given the two arm types. Arms of one common type
/// give that type. When exactly one arm is the unresolved placeholder (only
/// reachable inside a template that is still being specialized), the branch
/// permissively takes the other arm's type. Distinct resolved arm types are
/// a mismatch (`None`).
pub open spec fn spec_branch_result(on_true: Type, on_false: Type) -> Option<Type> {
    if on_true == on_false {
        Some(on_true)
    } else if on_true == Type::Unresolved {
        Some(on_false)
    } else if on_false == Type::Unresolved {
        Some(on_true)
    } else {
        None
    }
}

#[verifier::when_used_as_spec(spec_branch_result)]
pub fn branch_result(on_true: Type, on_false: Type) -> (r: Option<Type>)
    ensures
        r == spec_branch_result(on_true, on_false),
{
    if on_true == on_false {
        Some(on_true)
    } else if on_true == Type::Unresolved {
        Some(on_false)
    } else if on_false == Type::Unresolved {
        Some(on_true)
    } else {
        None
    }
}

} // verus!
