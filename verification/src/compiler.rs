//! The compilation and execution façade: from an AST module to a lowered
//! module with callable entry points, addressed by mangled name.

use vstd::prelude::*;

use crate::ast::AstModuleV;
use crate::check::{check_module, ck_module, global_name, CheckedModuleV, SPECIALIZE_DEPTH};
use crate::codegen::{cg_module, gen_module};
use crate::err::{EvalError, ExecuteError, RunError, RunErrorV};
use crate::eval::{ev_func, eval_func, RunVal};
use crate::ir::{IrModule, IrModuleV};
use crate::mangle::{generic_mangle, mangled};
use crate::types::Type;

verus! {

/// How aggressively a host pass pipeline should optimize the produced
/// module. The verified lowering performs no optimization itself; the
/// level is recorded for the host that owns the pipeline.
#[derive(Debug, Clone, Copy, PartialEq, Eq, Structural)]
pub enum OptLevel {
    O0,
    O1,
    O2,
    O3,
}

impl Default for OptLevel {
    fn default() -> (r: OptLevel)
        ensures
            r == OptLevel::O2,
    {
        OptLevel::O2
    }
}

/// A finished module: the lowered functions, the entry function's type,
/// and the requested optimization level.
#[derive(Debug)]
pub struct CompiledModule {
    pub ir: IrModule,
    pub global_ty: Type,
    pub opt: OptLevel,
}

pub struct CompiledModuleV {
    pub ir: IrModuleV,
    pub global_ty: Type,
    pub opt: OptLevel,
}

impl View for CompiledModule {
    type V = CompiledModuleV;

    open spec fn view(&self) -> CompiledModuleV {
        CompiledModuleV { ir: self.ir@, global_ty: self.global_ty, opt: self.opt }
    }
}

/// The step budget used when a module is executed directly.
pub const RUN_GAS: u64 = 0xFFFF_FFFF_FFFF_FFFF;

/// Compile a module: type-check it, then lower the checked functions.
pub open spec fn compile_v(m: AstModuleV, opt: OptLevel, gas: nat) -> Result<
    CompiledModuleV,
    RunErrorV,
> {
    match ck_module(m, gas) {
        Err(e) => Err(RunErrorV::Check(e)),
        Ok(tm) => match cg_module(tm) {
            Err(e) => Err(RunErrorV::Compile(e)),
            Ok(ir) => Ok(CompiledModuleV { ir, global_ty: tm.global_ty, opt }),
        },
    }
}

/// Compile a module for later execution.
pub fn compile_module(m: crate::ast::AstModule, opt: OptLevel) -> (r: Result<
    CompiledModule,
    RunError,
>)
    ensures
        ({
            let o = compile_v(m@, opt, SPECIALIZE_DEPTH as nat);
            match r {
                Ok(cm) => o == Ok::<CompiledModuleV, RunErrorV>(cm@),
                Err(e) => o == Err::<CompiledModuleV, RunErrorV>(e@),
            }
        }),
{
    let tm = match check_module(m) {
        Err(e) => {
            return Err(RunError::Check(e));
        },
        Ok(x) => x,
    };
    let ir = match gen_module(&tm) {
        Err(e) => {
            return Err(RunError::Compile(e));
        },
        Ok(x) => x,
    };
    Ok(CompiledModule { ir, global_ty: tm.global_ty, opt })
}

/// The first function of the module carrying a mangled name, if any.
pub open spec fn find_func(m: IrModuleV, name: Seq<char>, i: int) -> Option<usize>
    decreases m.funcs.len() - i,
{
    if i < 0 || i >= m.funcs.len() {
        None
    } else if m.funcs[i].name == name {
        Some(i as usize)
    } else {
        find_func(m, name, i + 1)
    }
}

/// What calling an entry point by mangled name returns.
pub open spec fn exec_entry_v(cm: CompiledModuleV, name: Seq<char>, args: Seq<RunVal>) -> Result<
    RunVal,
    RunErrorV,
> {
    match find_func(cm.ir, name, 0) {
        None => Err(RunErrorV::Execute(ExecuteError)),
        Some(i) => match ev_func(cm.ir, i, args, RUN_GAS as nat) {
            Err(e) => Err(RunErrorV::Eval(e)),
            Ok(v) => Ok(v),
        },
    }
}

/// What executing the entry function as a 64-bit signed integer returns:
/// the module's type must be `I64`, and the entry must come back with an
/// integer value.
pub open spec fn exec_i64_v(cm: CompiledModuleV) -> Result<i64, RunErrorV> {
    if cm.global_ty != Type::I64 {
        Err(RunErrorV::Execute(ExecuteError))
    } else {
        match exec_entry_v(cm, mangled(Seq::empty(), global_name()), Seq::empty()) {
            Err(e) => Err(e),
            Ok(RunVal::Int(x)) => Ok(x),
            Ok(_) => Err(RunErrorV::Execute(ExecuteError)),
        }
    }
}

impl CompiledModule {
    /// The index of the function carrying a mangled name.
    pub fn entry_index(&self, name: &String) -> (r: Option<usize>)
        ensures
            r == find_func(self@.ir, name@, 0),
    {
        let mut i: usize = 0;
        while i < self.ir.funcs.len()
            invariant
                i <= self.ir.funcs@.len(),
                find_func(self@.ir, name@, 0) == find_func(self@.ir, name@, i as int),
            decreases self.ir.funcs@.len() - i,
        {
            proof {
                assert(self@.ir.funcs[i as int] == self.ir.funcs@[i as int]@);
            }
            if self.ir.funcs[i].name == *name {
                return Some(i);
            }
            i += 1;
        }
        None
    }

    /// Call an entry point by mangled name on argument values.
    pub fn exec_entry(&self, name: &String, args: Vec<RunVal>) -> (r: Result<RunVal, RunError>)
        ensures
            ({
                let o = exec_entry_v(self@, name@, args@);
                match r {
                    Ok(v) => o == Ok::<RunVal, RunErrorV>(v),
                    Err(e) => o == Err::<RunVal, RunErrorV>(e@),
                }
            }),
    {
        let i = match self.entry_index(name) {
            None => {
                return Err(RunError::Execute(ExecuteError));
            },
            Some(i) => i,
        };
        match eval_func(&self.ir, i, args, RUN_GAS) {
            Err(e) => Err(RunError::Eval(e)),
            Ok(v) => Ok(v),
        }
    }

    /// Execute the entry function synthesized from the top-level
    /// statements, as a 64-bit signed integer.
    pub fn exec(&self) -> (r: Result<i64, RunError>)
        ensures
            ({
                let o = exec_i64_v(self@);
                match r {
                    Ok(v) => o == Ok::<i64, RunErrorV>(v),
                    Err(e) => o == Err::<i64, RunErrorV>(e@),
                }
            }),
    {
        match self.global_ty {
            Type::I64 => {},
            _ => {
                return Err(RunError::Execute(ExecuteError));
            },
        }
        let empty_sig: Vec<Type> = Vec::new();
        let gm = generic_mangle(empty_sig.as_slice(), "__global");
        proof {
            reveal_strlit("__global");
            assert("__global"@ =~= global_name());
            assert(empty_sig@ =~= Seq::<Type>::empty());
        }
        match self.exec_entry(&gm, Vec::new()) {
            Err(e) => Err(e),
            Ok(RunVal::Int(x)) => Ok(x),
            Ok(_) => Err(RunError::Execute(ExecuteError)),
        }
    }
}

} // verus!
