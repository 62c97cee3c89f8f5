use wasmi_engine::func_builder::{FunctionBuilder, ModuleError};
use wasmi_engine::inst_builder::Label;
use wasmi_engine::isa::{
    DropKeep, Instruction, InstructionIdx, LabelIdx, Offset, RelativeDepth, Target, ValueType, F32, F64,
};
use wasmi_engine::resources::{
    BlockType, FuncIdx, FuncType, FuncTypeIdx, GlobalIdx, GlobalType, MemoryIdx, ModuleResources,
    Mutability, TableIdx,
};

/// A module with one function of the given signature, and one mutable `i64` global.
fn module(params: Vec<ValueType>, results: Vec<ValueType>) -> ModuleResources {
    ModuleResources::new(
        vec![FuncType::new(params, results)],
        vec![FuncTypeIdx(0)],
        vec![GlobalType { value_type: ValueType::I64, mutability: Mutability::Mutable }],
    )
}

fn target(pc: u32, drop: u32, keep: u32) -> Target {
    Target::new(InstructionIdx(pc), DropKeep::new(drop, keep))
}

fn invalid(drop: u32, keep: u32) -> Target {
    Target::new(InstructionIdx::invalid(), DropKeep::new(drop, keep))
}

#[test]
fn block_with_constant_result() {
    let res = module(vec![], vec![]);
    let mut b = FunctionBuilder::new(FuncIdx(0), &res);
    assert_eq!(b.stack_height(), 0);
    b.translate_block(BlockType::Returns(ValueType::I32)).unwrap();
    b.translate_i32_const(1).unwrap();
    b.translate_end().unwrap();
    assert_eq!(b.instructions(), &[Instruction::Const(1)]);
    assert_eq!(b.label(LabelIdx(1)), Some(Label::Resolved(InstructionIdx(1))));
    assert!(!b.instructions().iter().any(|i| matches!(
        i,
        Instruction::Br(_) | Instruction::BrIfEqz(_) | Instruction::BrIfNez(_)
    )));
}

#[test]
fn loop_branch_keeps_parameters() {
    let res = module(vec![], vec![]);
    let mut b = FunctionBuilder::new(FuncIdx(0), &res);
    b.translate_loop(BlockType::Returns(ValueType::I32)).unwrap();
    b.translate_i32_const(7).unwrap();
    b.translate_br(0).unwrap();
    assert!(!b.is_reachable());
    b.translate_end().unwrap();
    assert!(b.is_reachable());
    assert_eq!(b.instructions(), &[Instruction::Const(7), Instruction::Br(target(0, 1, 0))]);
    assert_eq!(b.label(LabelIdx(1)), Some(Label::Resolved(InstructionIdx(0))));
}

#[test]
fn if_else_layout() {
    let res = module(vec![], vec![]);
    let mut b = FunctionBuilder::new(FuncIdx(0), &res);
    b.translate_i32_const(1).unwrap();
    b.translate_if(BlockType::Returns(ValueType::I32)).unwrap();
    b.translate_i32_const(10).unwrap();
    b.translate_else().unwrap();
    b.translate_i32_const(20).unwrap();
    b.translate_end().unwrap();
    assert_eq!(
        b.instructions(),
        &[
            Instruction::Const(1),
            Instruction::BrIfEqz(target(4, 0, 0)),
            Instruction::Const(10),
            Instruction::Br(target(5, 0, 0)),
            Instruction::Const(20),
        ]
    );
    let brifeqz = b.instructions().iter().filter(|i| matches!(i, Instruction::BrIfEqz(_))).count();
    let br = b.instructions().iter().filter(|i| matches!(i, Instruction::Br(_))).count();
    assert_eq!((brifeqz, br), (1, 1));
    // The else label is the first new label of the `if`, the end label the second.
    assert_eq!(b.label(LabelIdx(1)), Some(Label::Resolved(InstructionIdx(4))));
    assert_eq!(b.label(LabelIdx(2)), Some(Label::Resolved(InstructionIdx(5))));
}

#[test]
fn if_without_else_resolves_else_label_at_end() {
    let res = module(vec![], vec![]);
    let mut b = FunctionBuilder::new(FuncIdx(0), &res);
    b.translate_i32_const(0).unwrap();
    b.translate_if(BlockType::Empty).unwrap();
    b.translate_call(FuncIdx(0)).unwrap();
    b.translate_end().unwrap();
    assert_eq!(
        b.instructions(),
        &[Instruction::Const(0), Instruction::BrIfEqz(target(3, 0, 0)), Instruction::Call(0)]
    );
}

#[test]
fn branch_drop_keep_of_block() {
    let res = module(vec![], vec![]);
    let mut b = FunctionBuilder::new(FuncIdx(0), &res);
    b.translate_i32_const(1).unwrap();
    b.translate_block(BlockType::Returns(ValueType::I32)).unwrap();
    b.translate_i32_const(2).unwrap();
    b.translate_i32_const(3).unwrap();
    b.translate_i32_const(4).unwrap();
    // Height 4, block entered at height 1, one result kept.
    assert_eq!(b.compute_drop_keep(0), DropKeep::new(2, 1));
    assert_eq!(b.acquire_target(0), (LabelIdx(1), DropKeep::new(2, 1)));
    // The function block: entered at height 0, no results.
    assert_eq!(b.compute_drop_keep(1), DropKeep::new(4, 0));
    b.translate_br(0).unwrap();
    b.translate_end().unwrap();
    assert_eq!(b.instructions()[4], Instruction::Br(target(5, 2, 1)));
}

#[test]
fn reachability_follows_exits_and_regions() {
    let res = module(vec![], vec![]);
    let mut b = FunctionBuilder::new(FuncIdx(0), &res);
    b.translate_block(BlockType::Empty).unwrap();
    b.translate_unreachable().unwrap();
    assert!(!b.is_reachable());
    b.translate_block(BlockType::Empty).unwrap();
    b.translate_i32_const(5).unwrap();
    b.translate_end().unwrap();
    assert!(!b.is_reachable());
    b.translate_end().unwrap();
    assert!(b.is_reachable());
    assert_eq!(b.instructions(), &[Instruction::Unreachable]);
}

#[test]
fn else_after_unreachable_then_arm_restores_reachability() {
    let res = module(vec![], vec![]);
    let mut b = FunctionBuilder::new(FuncIdx(0), &res);
    b.translate_i32_const(1).unwrap();
    b.translate_if(BlockType::Empty).unwrap();
    b.translate_unreachable().unwrap();
    b.translate_else().unwrap();
    assert!(b.is_reachable());
    b.translate_end().unwrap();
    assert_eq!(
        b.instructions(),
        &[Instruction::Const(1), Instruction::BrIfEqz(target(3, 0, 0)), Instruction::Unreachable]
    );
}

#[test]
fn if_inside_unreachable_code() {
    let res = module(vec![], vec![]);
    let mut b = FunctionBuilder::new(FuncIdx(0), &res);
    b.translate_unreachable().unwrap();
    b.translate_if(BlockType::Empty).unwrap();
    b.translate_else().unwrap();
    assert!(!b.is_reachable());
    b.translate_end().unwrap();
    assert!(!b.is_reachable());
    assert_eq!(b.frames_len(), 1);
}

#[test]
fn br_table_layout() {
    let res = module(vec![], vec![]);
    let mut b = FunctionBuilder::new(FuncIdx(0), &res);
    b.translate_block(BlockType::Empty).unwrap();
    b.translate_loop(BlockType::Empty).unwrap();
    b.translate_i64_const(9).unwrap();
    b.translate_i32_const(0).unwrap();
    b.translate_br_table(RelativeDepth::from_u32(2), &[RelativeDepth(1), RelativeDepth(0)]).unwrap();
    assert!(!b.is_reachable());
    b.translate_end().unwrap();
    b.translate_end().unwrap();
    assert_eq!(
        b.instructions(),
        &[
            Instruction::Const(9),
            Instruction::Const(0),
            Instruction::BrTable { len_targets: 2 },
            Instruction::BrTableTarget(target(6, 1, 0)),
            Instruction::BrTableTarget(target(0, 1, 0)),
            Instruction::BrTableTarget(invalid(1, 0)),
        ]
    );
}

#[test]
fn return_drops_locals_and_params() {
    let res = module(vec![ValueType::I32, ValueType::I64], vec![ValueType::I32]);
    let mut b = FunctionBuilder::new(FuncIdx(0), &res);
    assert_eq!(b.stack_height(), 2);
    b.translate_locals(3, ValueType::F32).unwrap();
    b.translate_i32_const(5).unwrap();
    // Height 3, the function block keeps one result: 2 dropped, then 5 locals
    // (parameters among them) and 2 parameters.
    assert_eq!(b.drop_keep_return(), DropKeep::new(9, 1));
    b.translate_return().unwrap();
    assert!(!b.is_reachable());
    assert_eq!(b.instructions(), &[Instruction::Const(5), Instruction::Return(DropKeep::new(9, 1))]);
}

#[test]
fn function_end_returns_with_epilogue_drop_keep() {
    let res = module(vec![ValueType::I32], vec![ValueType::I32]);
    let mut b = FunctionBuilder::new(FuncIdx(0), &res);
    b.translate_local_get(0).unwrap();
    b.translate_end().unwrap();
    assert_eq!(b.frames_len(), 0);
    assert_eq!(b.label(LabelIdx(0)), Some(Label::Resolved(InstructionIdx(1))));
    let insts = b.finish();
    // Height 2 with one result kept: 1 dropped, plus 1 local and 1 parameter.
    assert_eq!(
        insts,
        vec![Instruction::GetLocal { local_depth: 3 }, Instruction::Return(DropKeep::new(3, 1))]
    );
}

#[test]
fn empty_function_returns() {
    let res = module(vec![], vec![]);
    let mut b = FunctionBuilder::new(FuncIdx(0), &res);
    b.translate_end().unwrap();
    assert_eq!(b.finish(), vec![Instruction::Return(DropKeep::new(0, 0))]);
}

#[test]
fn local_depths() {
    let res = module(vec![ValueType::I32, ValueType::I64], vec![]);
    let mut b = FunctionBuilder::new(FuncIdx(0), &res);
    b.translate_locals(1, ValueType::F64).unwrap();
    // Height 2, 2 parameters, 3 locals registered.
    assert_eq!(b.relative_local_depth(0), 7);
    assert_eq!(b.relative_local_depth(2), 5);
    b.translate_local_get(2).unwrap();
    b.translate_local_tee(1).unwrap();
    b.translate_local_set(0).unwrap();
    assert_eq!(
        b.instructions(),
        &[
            Instruction::GetLocal { local_depth: 5 },
            Instruction::TeeLocal { local_depth: 7 },
            Instruction::SetLocal { local_depth: 8 },
        ]
    );
    assert_eq!(b.stack_height(), 2);
}

#[test]
fn too_many_locals_is_an_error() {
    let res = module(vec![ValueType::I32], vec![]);
    let mut b = FunctionBuilder::new(FuncIdx(0), &res);
    assert_eq!(b.translate_locals(u32::MAX, ValueType::I32), Err(ModuleError::TooManyLocals));
    assert_eq!(b.translate_locals(u32::MAX - 1, ValueType::I32), Ok(()));
    assert_eq!(b.translate_locals(1, ValueType::I32), Err(ModuleError::TooManyLocals));
}

#[test]
fn memory_and_globals() {
    let res = module(vec![], vec![]);
    let mut b = FunctionBuilder::new(FuncIdx(0), &res);
    b.translate_i32_const(64).unwrap();
    b.translate_i64_load_u16(MemoryIdx(0), 4).unwrap();
    b.translate_global_set(GlobalIdx(0)).unwrap();
    b.translate_i32_const(8).unwrap();
    b.translate_global_get(GlobalIdx(0)).unwrap();
    b.translate_i64_store_i32(MemoryIdx(0), 12).unwrap();
    b.translate_memory_size(MemoryIdx(0)).unwrap();
    b.translate_memory_grow(MemoryIdx(0)).unwrap();
    assert_eq!(b.stack_height(), 1);
    assert_eq!(
        b.instructions(),
        &[
            Instruction::Const(64),
            Instruction::I64Load16U(Offset(4)),
            Instruction::SetGlobal(0),
            Instruction::Const(8),
            Instruction::GetGlobal(0),
            Instruction::I64Store32(Offset(12)),
            Instruction::CurrentMemory,
            Instruction::GrowMemory,
        ]
    );
}

#[test]
fn numeric_operators() {
    let res = module(vec![], vec![]);
    let mut b = FunctionBuilder::new(FuncIdx(0), &res);
    b.translate_i64_const(-1).unwrap();
    b.translate_i64_eqz().unwrap();
    b.translate_f32_const(F32::from_bits(0x3f80_0000)).unwrap();
    b.translate_f32_neg().unwrap();
    b.translate_i32_trunc_f32().unwrap();
    b.translate_i32_add().unwrap();
    b.translate_f64_const(F64::from_bits(0x4000_0000_0000_0000)).unwrap();
    b.translate_f64_const(F64::from_bits(1)).unwrap();
    b.translate_f64_lt().unwrap();
    b.translate_u32_div().unwrap();
    b.translate_i32_const(-2).unwrap();
    b.translate_i32_const(0).unwrap();
    b.translate_select().unwrap();
    b.translate_drop().unwrap();
    assert_eq!(b.stack_height(), 0);
    assert_eq!(
        b.instructions(),
        &[
            Instruction::Const(u64::MAX),
            Instruction::I64Eqz,
            Instruction::Const(0x3f80_0000),
            Instruction::F32Neg,
            Instruction::I32TruncSF32,
            Instruction::I32Add,
            Instruction::Const(0x4000_0000_0000_0000),
            Instruction::Const(1),
            Instruction::F64Lt,
            Instruction::I32DivU,
            Instruction::Const(0xffff_fffe),
            Instruction::Const(0),
            Instruction::Select,
        ]
    );
}

#[test]
fn indirect_call_and_conditional_branch() {
    let res = module(vec![], vec![]);
    let mut b = FunctionBuilder::new(FuncIdx(0), &res);
    b.translate_block(BlockType::Empty).unwrap();
    b.translate_i64_const(5).unwrap();
    b.translate_i32_const(3).unwrap();
    b.translate_i32_const(1).unwrap();
    b.translate_call_indirect(FuncTypeIdx(0), TableIdx(0)).unwrap();
    b.translate_br_if(0).unwrap();
    assert!(b.is_reachable());
    b.translate_end().unwrap();
    assert_eq!(
        b.instructions(),
        &[
            Instruction::Const(5),
            Instruction::Const(3),
            Instruction::Const(1),
            Instruction::CallIndirect(0),
            Instruction::BrIfNez(target(5, 1, 0)),
        ]
    );
}
