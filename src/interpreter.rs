//! The state that execution works on and what one executed instruction yields.

use crate::code_map::{CodeMap, FuncBody, ResolvedFuncBody};
use crate::isa::{DropKeep, Instruction, Target};
use crate::resources::FuncIdx;
use vstd::prelude::*;

verus! {

/// What the driving loop does after an instruction was executed.
#[derive(Debug, Copy, Clone, PartialEq, Eq, Structural)]
pub enum ExecutionOutcome {
    /// Continue with the next instruction.
    Continue,
    /// Branch to the given target.
    Branch(Target),
    /// Call the given function.
    ExecuteCall(FuncIdx),
    /// Return from the current function, adjusting the stack.
    Return(DropKeep),
}

/// The state of the interpreter that the instructions of all functions
/// live in.
#[derive(Debug)]
pub struct InterpreterInner {
    code_map: CodeMap,
}

impl InterpreterInner {
    /// The code map of the interpreter.
    pub closed spec fn code(&self) -> Seq<Instruction> {
        self.code_map@
    }

    /// Creates an interpreter without functions.
    pub fn new() -> (r: Self)
        ensures
            r.code().len() == 0,
    {
        InterpreterInner { code_map: CodeMap::new() }
    }

    /// The number of instructions stored for all function bodies.
    pub fn code_len(&self) -> (r: usize)
        ensures
            r == self.code().len(),
    {
        self.code_map.len()
    }

    /// Stores the instructions of a function body and returns its handle.
    pub fn alloc_func_body(&mut self, insts: Vec<Instruction>) -> (r: FuncBody)
        requires
            old(self).code().len() + insts@.len() <= u32::MAX,
        ensures
            final(self).code() == old(self).code() + insts@,
            r.first() == old(self).code().len(),
            r.len == insts@.len(),
    {
        self.code_map.alloc_body(insts)
    }

    /// Returns the instructions of a stored function body.
    pub fn resolve_func_body(&self, func_body: FuncBody) -> (r: ResolvedFuncBody<'_>)
        requires
            func_body.end() <= self.code().len(),
        ensures
            r@ == self.code().subrange(func_body.first(), func_body.end()),
    {
        self.code_map.resolve(func_body)
    }
}

} // verus!
