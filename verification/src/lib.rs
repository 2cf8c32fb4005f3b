//! A small compiler for an expression-oriented language: functions with
//! optionally typed parameters, `let` bindings, branching expressions and
//! arithmetic/boolean operators. Generic (type-unannotated) functions are
//! specialized once per call-site argument-type signature. A type-checked
//! module is lowered into an SSA-style control-flow module with basic blocks
//! and merge nodes, which can then be executed through a named entry point.

use vstd::prelude::*;

pub mod types;
pub mod ast;
pub mod scope_table;
pub mod mangle;
pub mod err;
pub mod registry;
pub mod check;
pub mod ir;
pub mod codegen;
pub mod eval;
pub mod compiler;
pub mod token;
pub mod nodes;
pub mod laws;

verus! {

/// What compiling a module with the default level and executing its entry
/// point as a 64-bit signed integer returns.
pub open spec fn run_code_v(m: crate::ast::AstModuleV) -> Result<i64, crate::err::RunErrorV> {
    match crate::compiler::compile_v(
        m,
        crate::compiler::OptLevel::O2,
        crate::check::SPECIALIZE_DEPTH as nat,
    ) {
        Err(e) => Err(e),
        Ok(cm) => crate::compiler::exec_i64_v(cm),
    }
}

/// Compile a module with the default optimization level and execute its
/// entry point as a 64-bit signed integer.
pub fn run_code(m: crate::ast::AstModule) -> (r: Result<i64, crate::err::RunError>)
    ensures
        ({
            let o = run_code_v(m@);
            match r {
                Ok(v) => o == Ok::<i64, crate::err::RunErrorV>(v),
                Err(e) => o == Err::<i64, crate::err::RunErrorV>(e@),
            }
        }),
{
    let cm = match crate::compiler::compile_module(m, crate::compiler::OptLevel::O2) {
        Err(e) => {
            return Err(e);
        },
        Ok(x) => x,
    };
    cm.exec()
}

} // verus!
