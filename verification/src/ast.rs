//! The expression AST handed to the compiler by the surrounding front end,
//! together with its mathematical view.
//!
//! An expression tree is built once and then annotated by the type checker
//! with a resolved `Type` per node (the `ty` field starts out `None`).

use vstd::prelude::*;

use crate::types::{Lit, Sides, Type, UnaryOp, BinaryOp};

verus! {

/// A source location: a half-open character range into the source text,
/// carried for diagnostics only.
#[derive(Debug, Clone, Copy, PartialEq, Eq, Structural)]
pub struct Loc {
    pub start: usize,
    pub end: usize,
}

impl Loc {
    /// A location for nodes that were synthesized rather than parsed.
    pub fn none() -> (l: Loc)
        ensures
            l == (Loc { start: 0, end: 0 }),
    {
        Loc { start: 0, end: 0 }
    }
}

/// One expression node: a location, the type annotation filled in by the
/// type checker, and the node's variant.
#[derive(Debug)]
pub struct Expr {
    pub loc: Loc,
    pub ty: Option<Type>,
    pub kind: ExprKind,
}

/// The closed set of expression variants.
#[derive(Debug)]
pub enum ExprKind {
    /// A literal constant.
    Lit(Lit),
    /// A unary operator applied to an operand.
    Unary(UnaryOp, Box<Expr>),
    /// A binary operator applied to two operands.
    Binary(BinaryOp, Box<Sides<Expr>>),
    /// `if test { on_true } else { on_false }`; both arms are scopes.
    Branch(Box<Expr>, Box<Expr>, Box<Expr>),
    /// Reading a variable by name.
    Access(String),
    /// Calling a function by name with argument expressions.
    Call(String, Vec<Expr>),
    /// An ordered list of statements in one lexical frame.
    Scope(Vec<Statement>),
}

/// A statement: an expression statement, or a `let` binding that also
/// defines a name in the enclosing scope.
#[derive(Debug)]
pub enum Statement {
    Expr(Expr),
    Let(String, Expr),
}

/// A parameter of a function template. The type is `Unresolved` when the
/// parameter carries no annotation.
#[derive(Debug)]
pub struct Param {
    pub name: String,
    pub ty: Type,
    pub loc: Loc,
}

/// A parsed function: name, parameters, declared return type (`Unresolved`
/// when omitted), and an unchecked body scope. Templates are immutable once
/// parsed; specialization always clones before annotating.
#[derive(Debug)]
pub struct Template {
    pub name: String,
    pub params: Vec<Param>,
    pub ret: Type,
    pub body: Expr,
    pub loc: Loc,
}

/// An input compilation unit: the function templates plus the top-level
/// statements outside any function.
#[derive(Debug)]
pub struct AstModule {
    pub functions: Vec<Template>,
    pub globals: Vec<Statement>,
}

// ---------------------------------------------------------------------------
// Mathematical views
// ---------------------------------------------------------------------------

/// View of an expression: names become character sequences, vectors become
/// sequences.
pub struct ExprV {
    pub loc: Loc,
    pub ty: Option<Type>,
    pub kind: ExprKindV,
}

pub enum ExprKindV {
    Lit(Lit),
    Unary(UnaryOp, Box<ExprV>),
    Binary(BinaryOp, Box<Sides<ExprV>>),
    Branch(Box<ExprV>, Box<ExprV>, Box<ExprV>),
    Access(Seq<char>),
    Call(Seq<char>, Seq<ExprV>),
    Scope(Seq<StatementV>),
}

pub enum StatementV {
    Expr(ExprV),
    Let(Seq<char>, ExprV),
}

pub struct ParamV {
    pub name: Seq<char>,
    pub ty: Type,
    pub loc: Loc,
}

pub struct TemplateV {
    pub name: Seq<char>,
    pub params: Seq<ParamV>,
    pub ret: Type,
    pub body: ExprV,
    pub loc: Loc,
}

pub struct AstModuleV {
    pub functions: Seq<TemplateV>,
    pub globals: Seq<StatementV>,
}

pub open spec fn view_expr(e: Expr) -> ExprV
    decreases e,
{
    ExprV {
        loc: e.loc,
        ty: e.ty,
        kind: match e.kind {
            ExprKind::Lit(l) => ExprKindV::Lit(l),
            ExprKind::Unary(op, a) => ExprKindV::Unary(op, Box::new(view_expr(*a))),
            ExprKind::Binary(op, s) => ExprKindV::Binary(
                op,
                Box::new(Sides { lhs: view_expr(s.lhs), rhs: view_expr(s.rhs) }),
            ),
            ExprKind::Branch(t, a, b) => ExprKindV::Branch(
                Box::new(view_expr(*t)),
                Box::new(view_expr(*a)),
                Box::new(view_expr(*b)),
            ),
            ExprKind::Access(n) => ExprKindV::Access(n@),
            ExprKind::Call(n, args) => ExprKindV::Call(n@, view_exprs(args@)),
            ExprKind::Scope(stmts) => ExprKindV::Scope(view_stmts(stmts@)),
        },
    }
}

pub open spec fn view_exprs(s: Seq<Expr>) -> Seq<ExprV>
    decreases s,
{
    if s.len() == 0 {
        Seq::empty()
    } else {
        seq![view_expr(s[0])] + view_exprs(s.drop_first())
    }
}

pub open spec fn view_stmts(s: Seq<Statement>) -> Seq<StatementV>
    decreases s,
{
    if s.len() == 0 {
        Seq::empty()
    } else {
        seq![view_stmt(s[0])] + view_stmts(s.drop_first())
    }
}

pub open spec fn view_stmt(s: Statement) -> StatementV
    decreases s,
{
    match s {
        Statement::Expr(e) => StatementV::Expr(view_expr(e)),
        Statement::Let(n, e) => StatementV::Let(n@, view_expr(e)),
    }
}

impl View for Expr {
    type V = ExprV;

    open spec fn view(&self) -> ExprV {
        view_expr(*self)
    }
}

impl View for Statement {
    type V = StatementV;

    open spec fn view(&self) -> StatementV {
        view_stmt(*self)
    }
}

impl View for Param {
    type V = ParamV;

    open spec fn view(&self) -> ParamV {
        ParamV { name: self.name@, ty: self.ty, loc: self.loc }
    }
}

impl View for Template {
    type V = TemplateV;

    open spec fn view(&self) -> TemplateV {
        TemplateV {
            name: self.name@,
            params: Seq::new(self.params@.len(), |i: int| self.params@[i]@),
            ret: self.ret,
            body: self.body@,
            loc: self.loc,
        }
    }
}

impl View for AstModule {
    type V = AstModuleV;

    open spec fn view(&self) -> AstModuleV {
        AstModuleV {
            functions: Seq::new(self.functions@.len(), |i: int| self.functions@[i]@),
            globals: Seq::new(self.globals@.len(), |i: int| self.globals@[i]@),
        }
    }
}

/// The view of a sequence of expressions is the sequence of their views.
pub broadcast proof fn lemma_view_exprs(s: Seq<Expr>)
    ensures
        (#[trigger] view_exprs(s)).len() == s.len(),
        forall|i: int| 0 <= i < s.len() ==> view_exprs(s)[i] == view_expr(s[i]),
    decreases s,
{
    if s.len() > 0 {
        lemma_view_exprs(s.drop_first());
    }
}

/// The view of a sequence of statements is the sequence of their views.
pub broadcast proof fn lemma_view_stmts(s: Seq<Statement>)
    ensures
        (#[trigger] view_stmts(s)).len() == s.len(),
        forall|i: int| 0 <= i < s.len() ==> view_stmts(s)[i] == view_stmt(s[i]),
    decreases s,
{
    if s.len() > 0 {
        lemma_view_stmts(s.drop_first());
    }
}

// ---------------------------------------------------------------------------
// Size measures, used for termination of the tree walks
// ---------------------------------------------------------------------------

pub open spec fn size_expr(e: ExprV) -> nat
    decreases e, 1nat, 0nat,
{
    match e.kind {
        ExprKindV::Lit(_) => 1,
        ExprKindV::Unary(_, a) => 1 + size_expr(*a),
        ExprKindV::Binary(_, s) => 1 + size_expr(s.lhs) + size_expr(s.rhs),
        ExprKindV::Branch(t, a, b) => 1 + size_expr(*t) + size_expr(*a) + size_expr(*b),
        ExprKindV::Access(_) => 1,
        ExprKindV::Call(_, args) => 1 + size_exprs_from(args, 0),
        ExprKindV::Scope(stmts) => 1 + size_stmts_from(stmts, 0),
    }
}

/// The combined size of the expressions of `s` from index `i` on.
pub open spec fn size_exprs_from(s: Seq<ExprV>, i: int) -> nat
    decreases s, 0nat, s.len() - i,
{
    if 0 <= i < s.len() {
        1 + size_expr(s[i]) + size_exprs_from(s, i + 1)
    } else {
        0
    }
}

pub open spec fn size_stmt(s: StatementV) -> nat
    decreases s, 1nat, 0nat,
{
    match s {
        StatementV::Expr(e) => 1 + size_expr(e),
        StatementV::Let(_, e) => 1 + size_expr(e),
    }
}

/// The combined size of the statements of `s` from index `i` on.
pub open spec fn size_stmts_from(s: Seq<StatementV>, i: int) -> nat
    decreases s, 0nat, s.len() - i,
{
    if 0 <= i < s.len() {
        1 + size_stmt(s[i]) + size_stmts_from(s, i + 1)
    } else {
        0
    }
}

} // verus!
