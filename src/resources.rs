//! The module facts that translation consults: function, block and global types.

use crate::isa::ValueType;
use vstd::prelude::*;

verus! {

/// The index of a function of the module.
#[derive(Debug, Copy, Clone, PartialEq, Eq, Structural)]
pub struct FuncIdx(pub u32);

impl FuncIdx {
    /// Returns the index as an integer.
    pub fn into_u32(self) -> (r: u32)
        ensures
            r == self.0,
    {
        self.0
    }
}

/// The index of a function type of the module.
#[derive(Debug, Copy, Clone, PartialEq, Eq, Structural)]
pub struct FuncTypeIdx(pub u32);

impl FuncTypeIdx {
    /// Returns the index as an integer.
    pub fn into_u32(self) -> (r: u32)
        ensures
            r == self.0,
    {
        self.0
    }
}

/// The index of a global variable of the module.
#[derive(Debug, Copy, Clone, PartialEq, Eq, Structural)]
pub struct GlobalIdx(pub u32);

impl GlobalIdx {
    /// Returns the index as an integer.
    pub fn into_u32(self) -> (r: u32)
        ensures
            r == self.0,
    {
        self.0
    }
}

/// The index of a linear memory of the module.
#[derive(Debug, Copy, Clone, PartialEq, Eq, Structural)]
pub struct MemoryIdx(pub u32);

impl MemoryIdx {
    /// Returns the index as an integer.
    pub fn into_u32(self) -> (r: u32)
        ensures
            r == self.0,
    {
        self.0
    }
}

/// The index of a table of the module.
#[derive(Debug, Copy, Clone, PartialEq, Eq, Structural)]
pub struct TableIdx(pub u32);

impl TableIdx {
    /// Returns the index as an integer.
    pub fn into_u32(self) -> (r: u32)
        ensures
            r == self.0,
    {
        self.0
    }
}

/// Whether a global variable can be written.
#[derive(Debug, Copy, Clone, PartialEq, Eq, Structural)]
pub enum Mutability {
    Const,
    Mutable,
}

/// The type of a global variable.
#[derive(Debug, Copy, Clone, PartialEq, Eq, Structural)]
pub struct GlobalType {
    pub value_type: ValueType,
    pub mutability: Mutability,
}

impl GlobalType {
    /// The type of the value of the global.
    pub fn value_type(self) -> (r: ValueType)
        ensures
            r == self.value_type,
    {
        self.value_type
    }

    /// Whether the global can be written.
    pub fn mutability(self) -> (r: Mutability)
        ensures
            r == self.mutability,
    {
        self.mutability
    }
}

/// The signature of a function.
#[derive(Debug)]
pub struct FuncType {
    params: Vec<ValueType>,
    results: Vec<ValueType>,
}

impl FuncType {
    /// The parameter types.
    pub closed spec fn params_spec(&self) -> Seq<ValueType> {
        self.params@
    }

    /// The result types.
    pub closed spec fn results_spec(&self) -> Seq<ValueType> {
        self.results@
    }

    /// Creates a signature.
    pub fn new(params: Vec<ValueType>, results: Vec<ValueType>) -> (r: Self)
        ensures
            r.params_spec() == params@,
            r.results_spec() == results@,
    {
        FuncType { params, results }
    }

    /// The parameter types.
    pub fn params(&self) -> (r: &[ValueType])
        ensures
            r@ == self.params_spec(),
    {
        self.params.as_slice()
    }

    /// The result types.
    pub fn results(&self) -> (r: &[ValueType])
        ensures
            r@ == self.results_spec(),
    {
        self.results.as_slice()
    }
}

/// The type of a structured block: what it takes and what it leaves.
#[derive(Debug, Copy, Clone, PartialEq, Eq, Structural)]
pub enum BlockType {
    /// No parameters and no results.
    Empty,
    /// No parameters and one result.
    Returns(ValueType),
    /// The parameters and results of a function type.
    FuncType(FuncTypeIdx),
}

impl BlockType {
    /// The block type of a function body with the given signature.
    pub fn func_type(func_type: FuncTypeIdx) -> (r: Self)
        ensures
            r == BlockType::FuncType(func_type),
    {
        BlockType::FuncType(func_type)
    }
}

/// The function types, functions and globals of a module.
#[derive(Debug)]
pub struct ModuleResources {
    func_types: Vec<FuncType>,
    funcs: Vec<FuncTypeIdx>,
    globals: Vec<GlobalType>,
}

impl ModuleResources {
    /// The function types.
    pub closed spec fn func_types_spec(&self) -> Seq<FuncType> {
        self.func_types@
    }

    /// The type index of each function.
    pub closed spec fn funcs_spec(&self) -> Seq<FuncTypeIdx> {
        self.funcs@
    }

    /// The type of each global.
    pub closed spec fn globals_spec(&self) -> Seq<GlobalType> {
        self.globals@
    }

    /// Every function refers to an existing type, and no signature is
    /// longer than an instruction operand can count.
    pub open spec fn wf(&self) -> bool {
        &&& forall|f: int| 0 <= f < self.funcs_spec().len() ==> (#[trigger] self.funcs_spec()[f]).0 < self.func_types_spec().len()
        &&& forall|t: int| 0 <= t < self.func_types_spec().len() ==> (#[trigger] self.func_types_spec()[t]).params_spec().len() <= u32::MAX
            && self.func_types_spec()[t].results_spec().len() <= u32::MAX
    }

    /// Collects the resources of a module.
    pub fn new(func_types: Vec<FuncType>, funcs: Vec<FuncTypeIdx>, globals: Vec<GlobalType>) -> (r: Self)
        ensures
            r.func_types_spec() == func_types@,
            r.funcs_spec() == funcs@,
            r.globals_spec() == globals@,
    {
        ModuleResources { func_types, funcs, globals }
    }

    /// The function exists.
    pub open spec fn has_func(&self, func: FuncIdx) -> bool {
        func.0 < self.funcs_spec().len()
    }

    /// The signature of an existing function.
    pub open spec fn type_of_func(&self, func: FuncIdx) -> FuncType {
        self.func_types_spec()[self.funcs_spec()[func.0 as int].0 as int]
    }

    /// The block type refers to an existing signature.
    pub open spec fn valid_block_type(&self, block_type: BlockType) -> bool {
        match block_type {
            BlockType::FuncType(t) => t.0 < self.func_types_spec().len(),
            _ => true,
        }
    }

    /// The parameter types of a block.
    pub open spec fn block_params(&self, block_type: BlockType) -> Seq<ValueType> {
        match block_type {
            BlockType::FuncType(t) => self.func_types_spec()[t.0 as int].params_spec(),
            _ => Seq::empty(),
        }
    }

    /// The result types of a block.
    pub open spec fn block_results(&self, block_type: BlockType) -> Seq<ValueType> {
        match block_type {
            BlockType::Empty => Seq::empty(),
            BlockType::Returns(t) => seq![t],
            BlockType::FuncType(t) => self.func_types_spec()[t.0 as int].results_spec(),
        }
    }

    /// The type index of a function.
    pub fn get_type_idx_of_func(&self, func: FuncIdx) -> (r: FuncTypeIdx)
        requires
            self.has_func(func),
        ensures
            r == self.funcs_spec()[func.0 as int],
    {
        self.funcs[func.0 as usize]
    }

    /// The signature of a function.
    pub fn get_type_of_func(&self, func: FuncIdx) -> (r: &FuncType)
        requires
            self.wf(),
            self.has_func(func),
        ensures
            *r == self.type_of_func(func),
    {
        let t = self.funcs[func.0 as usize];
        &self.func_types[t.0 as usize]
    }

    /// The type of a global.
    pub fn get_type_of_global(&self, global: GlobalIdx) -> (r: GlobalType)
        requires
            global.0 < self.globals_spec().len(),
        ensures
            r == self.globals_spec()[global.0 as int],
    {
        self.globals[global.0 as usize]
    }

    /// The number of parameters of a block.
    pub fn block_params_len(&self, block_type: BlockType) -> (r: u32)
        requires
            self.wf(),
            self.valid_block_type(block_type),
        ensures
            r == self.block_params(block_type).len(),
    {
        match block_type {
            BlockType::FuncType(t) => {
                let len = self.func_types[t.0 as usize].params().len();
                assert(self.func_types_spec()[t.0 as int].params_spec().len() <= u32::MAX);
                len as u32
            },
            _ => 0,
        }
    }

    /// The number of results of a block.
    pub fn block_results_len(&self, block_type: BlockType) -> (r: u32)
        requires
            self.wf(),
            self.valid_block_type(block_type),
        ensures
            r == self.block_results(block_type).len(),
    {
        match block_type {
            BlockType::Empty => 0,
            BlockType::Returns(_) => 1,
            BlockType::FuncType(t) => {
                let len = self.func_types[t.0 as usize].results().len();
                assert(self.func_types_spec()[t.0 as int].results_spec().len() <= u32::MAX);
                len as u32
            },
        }
    }
}

} // verus!
