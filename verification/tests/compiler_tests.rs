//! End-to-end tests: programs are built as ASTs, compiled, and their
//! entry points executed. Integer results run through the library's own
//! evaluator; float results run through a small host-side interpreter of
//! the lowered module, since float arithmetic lives with the host.

use toy_lang::ast::{AstModule, Expr, ExprKind, Loc, Param, Statement, Template};
use toy_lang::compiler::{compile_module, CompiledModule, OptLevel};
use toy_lang::err::{EvalError, RunError, TypeError};
use toy_lang::eval::RunVal;
use toy_lang::ir::{FBinOp, FCmpOp, IBinOp, ICmpOp, IrInstr, IrModule, IrTerm};
use toy_lang::mangle::generic_mangle;
use toy_lang::run_code;
use toy_lang::scope_table::ScopeTable;
use toy_lang::types::{BinaryOp, Lit, Sides, Type, UnaryOp};

// --------------------------------------------------------------------------
// AST building helpers
// --------------------------------------------------------------------------

fn loc() -> Loc {
    Loc { start: 0, end: 0 }
}

fn ex(kind: ExprKind) -> Expr {
    Expr { loc: loc(), ty: None, kind }
}

fn lit_i(v: i64) -> Expr {
    ex(ExprKind::Lit(Lit::I64(v)))
}

fn lit_f(v: f64) -> Expr {
    ex(ExprKind::Lit(Lit::F64Bits(v.to_bits())))
}

fn lit_b(v: bool) -> Expr {
    ex(ExprKind::Lit(Lit::Bool(v)))
}

fn bin(op: BinaryOp, lhs: Expr, rhs: Expr) -> Expr {
    ex(ExprKind::Binary(op, Box::new(Sides { lhs, rhs })))
}

fn un(op: UnaryOp, a: Expr) -> Expr {
    ex(ExprKind::Unary(op, Box::new(a)))
}

fn access(n: &str) -> Expr {
    ex(ExprKind::Access(n.to_string()))
}

fn call(n: &str, args: Vec<Expr>) -> Expr {
    ex(ExprKind::Call(n.to_string(), args))
}

fn scope(stmts: Vec<Statement>) -> Expr {
    ex(ExprKind::Scope(stmts))
}

fn branch(test: Expr, on_true: Expr, on_false: Expr) -> Expr {
    ex(ExprKind::Branch(
        Box::new(test),
        Box::new(scope(vec![Statement::Expr(on_true)])),
        Box::new(scope(vec![Statement::Expr(on_false)])),
    ))
}

fn let_(n: &str, e: Expr) -> Statement {
    Statement::Let(n.to_string(), e)
}

fn param(n: &str, ty: Type) -> Param {
    Param { name: n.to_string(), ty, loc: loc() }
}

fn template(name: &str, params: Vec<Param>, ret: Type, body_stmts: Vec<Statement>) -> Template {
    Template { name: name.to_string(), params, ret, body: scope(body_stmts), loc: loc() }
}

fn module(functions: Vec<Template>, globals: Vec<Statement>) -> AstModule {
    AstModule { functions, globals }
}

fn compile(m: AstModule) -> CompiledModule {
    compile_module(m, OptLevel::O2).expect("program should compile")
}

// --------------------------------------------------------------------------
// A host-side interpreter of the lowered module, with real floats
// --------------------------------------------------------------------------

#[derive(Debug, Clone, Copy, PartialEq)]
enum HostVal {
    F(f64),
    I(i64),
    B(bool),
    Unit,
}

fn host_bits(v: HostVal) -> i64 {
    match v {
        HostVal::F(x) => x.to_bits() as i64,
        HostVal::I(x) => x,
        HostVal::B(b) => b as i64,
        HostVal::Unit => 0,
    }
}

fn host_float(v: HostVal) -> f64 {
    match v {
        HostVal::F(x) => x,
        HostVal::I(x) => x as f64,
        HostVal::B(b) => (b as i64) as f64,
        HostVal::Unit => 0.0,
    }
}

fn host_eval(m: &IrModule, fidx: usize, args: Vec<HostVal>) -> HostVal {
    let f = &m.funcs[fidx];
    assert_eq!(args.len(), f.params.len());
    let mut regs = vec![HostVal::Unit; f.reg_tys.len()];
    for (i, a) in args.into_iter().enumerate() {
        regs[i] = a;
    }
    let mut cur = 0usize;
    let mut prev = 0usize;
    loop {
        for &(tag, ins) in f.code.iter() {
            if tag != cur {
                continue;
            }
            match ins {
                IrInstr::ConstFloat { dst, bits } => regs[dst] = HostVal::F(f64::from_bits(bits)),
                IrInstr::ConstInt { dst, value } => regs[dst] = HostVal::I(value),
                IrInstr::ConstBool { dst, value } => regs[dst] = HostVal::B(value),
                IrInstr::ConstUnit { dst } => regs[dst] = HostVal::Unit,
                IrInstr::FloatBin { dst, op, lhs, rhs } => {
                    let a = host_float(regs[lhs]);
                    let b = host_float(regs[rhs]);
                    regs[dst] = HostVal::F(match op {
                        FBinOp::Add => a + b,
                        FBinOp::Sub => a - b,
                        FBinOp::Mul => a * b,
                        FBinOp::Div => a / b,
                    });
                }
                IrInstr::IntBin { dst, op, lhs, rhs } => {
                    let a = host_bits(regs[lhs]);
                    let b = host_bits(regs[rhs]);
                    regs[dst] = HostVal::I(match op {
                        IBinOp::Add => a.wrapping_add(b),
                        IBinOp::Sub => a.wrapping_sub(b),
                        IBinOp::Mul => a.wrapping_mul(b),
                        IBinOp::SDiv => a / b,
                        IBinOp::UDiv => ((a as u64) / (b as u64)) as i64,
                        IBinOp::And => a & b,
                        IBinOp::Or => a | b,
                    });
                }
                IrInstr::FloatCmp { dst, op, lhs, rhs } => {
                    let a = host_float(regs[lhs]);
                    let b = host_float(regs[rhs]);
                    regs[dst] = HostVal::B(match op {
                        FCmpOp::Eq => a == b,
                        FCmpOp::Ne => a != b,
                        FCmpOp::Gt => a > b,
                        FCmpOp::Ge => a >= b,
                        FCmpOp::Lt => a < b,
                        FCmpOp::Le => a <= b,
                    });
                }
                IrInstr::IntCmp { dst, op, lhs, rhs } => {
                    let a = host_bits(regs[lhs]);
                    let b = host_bits(regs[rhs]);
                    regs[dst] = HostVal::B(match op {
                        ICmpOp::Eq => a == b,
                        ICmpOp::Ne => a != b,
                        ICmpOp::Sgt => a > b,
                        ICmpOp::Sge => a >= b,
                        ICmpOp::Slt => a < b,
                        ICmpOp::Sle => a <= b,
                        ICmpOp::Ugt => (a as u64) > (b as u64),
                        ICmpOp::Uge => (a as u64) >= (b as u64),
                        ICmpOp::Ult => (a as u64) < (b as u64),
                        ICmpOp::Ule => (a as u64) <= (b as u64),
                    });
                }
                IrInstr::FloatNeg { dst, src } => regs[dst] = HostVal::F(-host_float(regs[src])),
                IrInstr::IntNeg { dst, src } => {
                    regs[dst] = HostVal::I(0i64.wrapping_sub(host_bits(regs[src])))
                }
                IrInstr::BitNot { dst, src } => {
                    regs[dst] = match regs[src] {
                        HostVal::B(b) => HostVal::B(!b),
                        v => HostVal::I(!host_bits(v)),
                    }
                }
                IrInstr::IntToFloat { dst, src } => {
                    regs[dst] = HostVal::F(host_bits(regs[src]) as f64)
                }
                IrInstr::Call { dst, callee, args_at, argc } => {
                    let mut avs = Vec::new();
                    for k in 0..argc {
                        avs.push(regs[f.call_args[args_at + k]]);
                    }
                    regs[dst] = host_eval(m, callee, avs);
                }
                IrInstr::Phi { dst, tblk, tval, fblk, fval } => {
                    regs[dst] = if prev == tblk {
                        regs[tval]
                    } else {
                        assert_eq!(prev, fblk);
                        regs[fval]
                    };
                }
            }
        }
        let term = f
            .terms
            .iter()
            .find(|&&(b, _)| b == cur)
            .map(|&(_, t)| t)
            .expect("block must have a terminator");
        match term {
            IrTerm::Br(t) => {
                prev = cur;
                cur = t;
            }
            IrTerm::CondBr { cond, on_true, on_false } => {
                let taken = match regs[cond] {
                    HostVal::B(b) => b,
                    v => host_bits(v) != 0,
                };
                prev = cur;
                cur = if taken { on_true } else { on_false };
            }
            IrTerm::Ret(None) => return HostVal::Unit,
            IrTerm::Ret(Some(r)) => return regs[r],
        }
    }
}

fn host_exec(cm: &CompiledModule, name: &str, sig: &[Type], args: Vec<HostVal>) -> HostVal {
    let mangled = generic_mangle(sig, name);
    let idx = cm
        .entry_index(&mangled)
        .expect("entry point should exist");
    host_eval(&cm.ir, idx, args)
}

// --------------------------------------------------------------------------
// Scenarios
// --------------------------------------------------------------------------

#[test]
fn numeric_promotion_types_and_values() {
    // 1 + 2.0 type-checks to F64 and evaluates to 3.0
    let m = module(vec![], vec![Statement::Expr(bin(BinaryOp::Add, lit_i(1), lit_f(2.0)))]);
    let cm = compile(m);
    assert_eq!(cm.global_ty, Type::F64);
    assert_eq!(host_exec(&cm, "__global", &[], vec![]), HostVal::F(3.0));

    // 1 + 2 type-checks to I64 and evaluates to 3
    let m = module(vec![], vec![Statement::Expr(bin(BinaryOp::Add, lit_i(1), lit_i(2)))]);
    assert_eq!(run_code(m).unwrap(), 3);
}

#[test]
fn main_branch_returns_five() {
    // fn main() -> f64 { if 1 == 1 { 5.0 } else { 2.0 } }
    let main = template(
        "main",
        vec![],
        Type::F64,
        vec![Statement::Expr(branch(
            bin(BinaryOp::Eq, lit_i(1), lit_i(1)),
            lit_f(5.0),
            lit_f(2.0),
        ))],
    );
    let cm = compile(module(vec![main], vec![]));
    // no float arithmetic is involved, so the library's own evaluator
    // can run it too
    let mangled = generic_mangle(&[], "main");
    let got = cm.exec_entry(&mangled, vec![]).unwrap();
    assert_eq!(got, RunVal::Float(5.0f64.to_bits()));
    assert_eq!(host_exec(&cm, "main", &[], vec![]), HostVal::F(5.0));
}

#[test]
fn generic_function_two_specializations() {
    // fn id(x) { x }  id(1) + id(2.0) == 3.0
    let id = template("id", vec![param("x", Type::Unresolved)], Type::Unresolved, vec![
        Statement::Expr(access("x")),
    ]);
    let g = bin(
        BinaryOp::Add,
        call("id", vec![lit_i(1)]),
        call("id", vec![lit_f(2.0)]),
    );
    let cm = compile(module(vec![id], vec![Statement::Expr(g)]));
    // one concrete function per distinct argument-type signature, plus
    // the entry function
    assert_eq!(cm.ir.funcs.len(), 3);
    assert!(cm.entry_index(&generic_mangle(&[Type::I64], "id")).is_some());
    assert!(cm.entry_index(&generic_mangle(&[Type::F64], "id")).is_some());
    assert_eq!(host_exec(&cm, "__global", &[], vec![]), HostVal::F(3.0));
}

#[test]
fn shared_signature_resolves_to_one_specialization() {
    // two call sites with one argument-type signature share one concrete
    // function
    let id = template("id", vec![param("x", Type::Unresolved)], Type::Unresolved, vec![
        Statement::Expr(access("x")),
    ]);
    let g = bin(
        BinaryOp::Add,
        call("id", vec![lit_i(20)]),
        call("id", vec![lit_i(22)]),
    );
    let cm = compile(module(vec![id], vec![Statement::Expr(g)]));
    assert_eq!(cm.ir.funcs.len(), 2);
    let m = module(
        vec![template("id", vec![param("x", Type::Unresolved)], Type::Unresolved, vec![
            Statement::Expr(access("x")),
        ])],
        vec![Statement::Expr(bin(
            BinaryOp::Add,
            call("id", vec![lit_i(20)]),
            call("id", vec![lit_i(22)]),
        ))],
    );
    assert_eq!(run_code(m).unwrap(), 42);
}

#[test]
fn undefined_variable_fails_before_codegen() {
    let m = module(vec![], vec![Statement::Expr(access("y"))]);
    match compile_module(m, OptLevel::O2) {
        Err(RunError::Check(TypeError::VariableNotFound(_, n))) => assert_eq!(n, "y"),
        other => panic!("expected a variable-not-found error, got {:?}", other),
    }
}

#[test]
fn shadowing_keeps_last_binding() {
    // let x = 1; let x = 2; x
    let m = module(vec![], vec![
        let_("x", lit_i(1)),
        let_("x", lit_i(2)),
        Statement::Expr(access("x")),
    ]);
    assert_eq!(run_code(m).unwrap(), 2);
}

#[test]
fn scope_table_shadowing_and_restore() {
    let mut st = ScopeTable::new();
    let x = "x".to_string();
    st.define(&x, Type::I64);
    assert_eq!(st.lookup(&x), Some(Type::I64));
    // shadowing in an inner frame, restored on pop
    st.push();
    st.define(&x, Type::F64);
    assert_eq!(st.lookup(&x), Some(Type::F64));
    st.pop();
    assert_eq!(st.lookup(&x), Some(Type::I64));
    // rebinding in one frame replaces, so the frame holds one live
    // binding and the outer one is still restored correctly
    st.push();
    st.define(&x, Type::Bool);
    st.define(&x, Type::Unit);
    assert_eq!(st.lookup(&x), Some(Type::Unit));
    st.pop();
    assert_eq!(st.lookup(&x), Some(Type::I64));
    assert_eq!(st.lookup(&"missing".to_string()), None);
}

#[test]
fn mangling_is_deterministic_and_injective() {
    assert_eq!(generic_mangle(&[Type::I64], "id"), "i_id");
    assert_eq!(generic_mangle(&[], "__global"), "___global");
    assert_eq!(
        generic_mangle(&[Type::F64, Type::Bool], "f"),
        generic_mangle(&[Type::F64, Type::Bool], "f")
    );
    assert_ne!(
        generic_mangle(&[Type::I64], "id"),
        generic_mangle(&[Type::F64], "id")
    );
    assert_ne!(generic_mangle(&[Type::U64], "a"), generic_mangle(&[], "ua"));
}

#[test]
fn branch_value_and_unit_symmetry() {
    // both arms valued: the branch takes the arm's value
    let m = module(vec![], vec![Statement::Expr(branch(lit_b(false), lit_i(5), lit_i(2)))]);
    assert_eq!(run_code(m).unwrap(), 2);

    // both arms unit: the branch produces no value, so the module's type
    // is unit and an integer entry call is refused
    let unit_arm = || scope(vec![]);
    let m = module(vec![], vec![Statement::Expr(ex(ExprKind::Branch(
        Box::new(lit_b(true)),
        Box::new(unit_arm()),
        Box::new(unit_arm()),
    )))]);
    let cm = compile(m);
    assert_eq!(cm.global_ty, Type::Unit);
    assert!(matches!(cm.exec(), Err(RunError::Execute(_))));

    // one arm unit, one valued: a type mismatch
    let m = module(vec![], vec![Statement::Expr(ex(ExprKind::Branch(
        Box::new(lit_b(true)),
        Box::new(scope(vec![Statement::Expr(lit_i(1))])),
        Box::new(scope(vec![])),
    )))]);
    match compile_module(m, OptLevel::O2) {
        Err(RunError::Check(TypeError::TypeMismatch(_, Type::I64, Type::Unit))) => {}
        other => panic!("expected a type mismatch, got {:?}", other),
    }
}

#[test]
fn non_bool_test_is_rejected() {
    let m = module(vec![], vec![Statement::Expr(branch(lit_i(1), lit_i(1), lit_i(2)))]);
    match compile_module(m, OptLevel::O2) {
        Err(RunError::Check(TypeError::TypeMismatch(_, Type::Bool, Type::I64))) => {}
        other => panic!("expected a type mismatch on the test, got {:?}", other),
    }
}

#[test]
fn annotated_recursion_computes_factorial() {
    // fn fact(n: i64) -> i64 { if n <= 1 { 1 } else { n * fact(n - 1) } }
    let fact = template(
        "fact",
        vec![param("n", Type::I64)],
        Type::I64,
        vec![Statement::Expr(branch(
            bin(BinaryOp::Le, access("n"), lit_i(1)),
            lit_i(1),
            bin(
                BinaryOp::Mul,
                access("n"),
                call("fact", vec![bin(BinaryOp::Sub, access("n"), lit_i(1))]),
            ),
        ))],
    );
    let m = module(vec![fact], vec![Statement::Expr(call("fact", vec![lit_i(5)]))]);
    assert_eq!(run_code(m).unwrap(), 120);
}

#[test]
fn compiling_twice_yields_identical_modules() {
    let build = || {
        module(
            vec![template("id", vec![param("x", Type::Unresolved)], Type::Unresolved, vec![
                Statement::Expr(access("x")),
            ])],
            vec![
                let_("a", call("id", vec![lit_i(40)])),
                Statement::Expr(bin(BinaryOp::Add, access("a"), lit_i(2))),
            ],
        )
    };
    let cm1 = compile(build());
    let cm2 = compile(build());
    assert_eq!(cm1.ir, cm2.ir);
    assert_eq!(cm1.global_ty, cm2.global_ty);
    assert_eq!(cm1.exec().unwrap(), 42);
    assert_eq!(cm2.exec().unwrap(), 42);
}

#[test]
fn error_variants_have_witnesses() {
    // unary `!` on an integer
    let m = module(vec![], vec![Statement::Expr(un(UnaryOp::Not, lit_i(1)))]);
    assert!(matches!(
        compile_module(m, OptLevel::O2),
        Err(RunError::Check(TypeError::InvalidUnaryOp(_, UnaryOp::Not, Type::I64)))
    ));

    // `true + 1`
    let m = module(vec![], vec![Statement::Expr(bin(BinaryOp::Add, lit_b(true), lit_i(1)))]);
    assert!(matches!(
        compile_module(m, OptLevel::O2),
        Err(RunError::Check(TypeError::InvalidBinaryOp(_, Type::Bool, BinaryOp::Add, Type::I64)))
    ));

    // unknown function
    let m = module(vec![], vec![Statement::Expr(call("nope", vec![]))]);
    assert!(matches!(
        compile_module(m, OptLevel::O2),
        Err(RunError::Check(TypeError::FunctionNotFound(_, _)))
    ));

    // wrong argument count
    let two = template(
        "two",
        vec![param("a", Type::I64), param("b", Type::I64)],
        Type::I64,
        vec![Statement::Expr(lit_i(1))],
    );
    let m = module(vec![two], vec![Statement::Expr(call("two", vec![lit_i(1)]))]);
    assert!(matches!(
        compile_module(m, OptLevel::O2),
        Err(RunError::Check(TypeError::ArgCountMismatch(_, 2, 1)))
    ));

    // declared float return with an integer body
    let h = template("h", vec![], Type::F64, vec![Statement::Expr(lit_i(1))]);
    let m = module(vec![h], vec![Statement::Expr(lit_i(0))]);
    assert!(matches!(
        compile_module(m, OptLevel::O2),
        Err(RunError::Check(TypeError::TypeMismatch(_, Type::F64, Type::I64)))
    ));

    // a function whose type never resolves
    let r = template("r", vec![param("x", Type::Unresolved)], Type::Unresolved, vec![
        Statement::Expr(call("r", vec![access("x")])),
    ]);
    let m = module(vec![r], vec![Statement::Expr(call("r", vec![lit_i(1)]))]);
    assert!(matches!(
        compile_module(m, OptLevel::O2),
        Err(RunError::Check(TypeError::UnresolvedType(_)))
    ));

    // a still-unresolved recursive result handed to another call
    let f = template("f", vec![param("x", Type::Unresolved)], Type::Unresolved, vec![
        Statement::Expr(call("g", vec![call("f", vec![access("x")])])),
    ]);
    let g = template("g", vec![param("x", Type::Unresolved)], Type::Unresolved, vec![
        Statement::Expr(lit_i(1)),
    ]);
    let m = module(vec![f, g], vec![Statement::Expr(call("f", vec![lit_i(1)]))]);
    assert!(matches!(
        compile_module(m, OptLevel::O2),
        Err(RunError::Check(TypeError::UnresolvedArg(_)))
    ));

    // integer division by zero faults at run time, not compile time
    let m = module(vec![], vec![Statement::Expr(bin(BinaryOp::Div, lit_i(1), lit_i(0)))]);
    assert!(matches!(run_code(m), Err(RunError::Eval(EvalError::DivByZero))));
}

#[test]
fn comparison_and_logic_evaluate() {
    let m = module(vec![], vec![Statement::Expr(branch(
        bin(BinaryOp::Lt, lit_i(3), lit_i(5)),
        lit_i(1),
        lit_i(0),
    ))]);
    assert_eq!(run_code(m).unwrap(), 1);

    let m = module(vec![], vec![Statement::Expr(branch(
        bin(BinaryOp::And, lit_b(true), lit_b(false)),
        lit_i(1),
        lit_i(0),
    ))]);
    assert_eq!(run_code(m).unwrap(), 0);

    let m = module(vec![], vec![Statement::Expr(branch(
        bin(BinaryOp::Or, lit_b(true), lit_b(false)),
        lit_i(1),
        lit_i(0),
    ))]);
    assert_eq!(run_code(m).unwrap(), 1);
}

#[test]
fn unary_operators_evaluate() {
    let m = module(vec![], vec![Statement::Expr(un(UnaryOp::Neg, lit_i(7)))]);
    assert_eq!(run_code(m).unwrap(), -7);

    // negating a float constant flips its sign bit, which needs no float
    // arithmetic
    let mainf = template("m", vec![], Type::F64, vec![Statement::Expr(un(
        UnaryOp::Neg,
        lit_f(5.0),
    ))]);
    let cm = compile(module(vec![mainf], vec![]));
    let got = cm.exec_entry(&generic_mangle(&[], "m"), vec![]).unwrap();
    assert_eq!(got, RunVal::Float((-5.0f64).to_bits()));
}

#[test]
fn unsigned_parameters_divide_unsigned() {
    // fn half(x: u64) -> u64 { x / 2 }, called from the host
    let half = template("half", vec![param("x", Type::U64)], Type::U64, vec![
        Statement::Expr(bin(BinaryOp::Div, access("x"), access("x"))),
    ]);
    // x / x == 1 for x != 0, using the unsigned division path
    let cm = compile(module(vec![half], vec![]));
    let got = cm
        .exec_entry(&generic_mangle(&[Type::U64], "half"), vec![RunVal::Int(-2)])
        .unwrap();
    // -2 reinterpreted as an unsigned value divided by itself
    assert_eq!(got, RunVal::Int(1));
}

#[test]
fn nested_branches_merge_from_the_last_block() {
    // if false { 5.0 } else { if true { 2.0 } else { 1.0 } }
    let inner = branch(lit_b(true), lit_f(2.0), lit_f(1.0));
    let outer = branch(lit_b(false), lit_f(5.0), inner);
    let cm = compile(module(vec![], vec![Statement::Expr(outer)]));
    assert_eq!(cm.global_ty, Type::F64);
    let got = cm
        .exec_entry(&generic_mangle(&[], "__global"), vec![])
        .unwrap();
    assert_eq!(got, RunVal::Float(2.0f64.to_bits()));
}

#[test]
fn empty_module_has_unit_type() {
    let cm = compile(module(vec![], vec![]));
    assert_eq!(cm.global_ty, Type::Unit);
    assert!(matches!(cm.exec(), Err(RunError::Execute(_))));
}
