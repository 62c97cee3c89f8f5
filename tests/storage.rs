use wasmi_engine::code_map::{CodeMap, FirstInstr, FuncBody};
use wasmi_engine::inst_builder::{InstructionsBuilder, Label, Reloc};
use wasmi_engine::interpreter::InterpreterInner;
use wasmi_engine::isa::{DropKeep, Instruction, InstructionIdx, LabelIdx, Offset, Target};
use wasmi_engine::provider::{
    ConstRef, DedupProviderSliceArena, ExecProvider, ExecProviderSlice, ExecRegister,
    RegisterOrImmediate, MAX_CONST_INDEX,
};

fn reg(i: u16) -> ExecProvider {
    ExecProvider::from_register(ExecRegister(i))
}

fn imm(i: u32) -> ExecProvider {
    ExecProvider::from_immediate(ConstRef(i))
}

#[test]
fn register_round_trip() {
    for i in [0u16, 1, 7, 1000, u16::MAX] {
        assert_eq!(reg(i).decode(), RegisterOrImmediate::Register(ExecRegister(i)));
    }
}

#[test]
fn immediate_round_trip() {
    for k in [0u32, 1, 42, 65536, MAX_CONST_INDEX - 1] {
        assert_eq!(imm(k).decode(), RegisterOrImmediate::Immediate(ConstRef(k)));
    }
}

#[test]
fn register_and_immediate_encodings_differ() {
    assert_ne!(reg(0), imm(0));
    assert_ne!(reg(1), imm(1));
    assert_ne!(reg(u16::MAX), imm(u16::MAX as u32));
}

#[test]
fn arena_dedups_equal_sequences() {
    let mut arena = DedupProviderSliceArena::new();
    let a = arena.alloc_slice(&[reg(1), imm(2), reg(3)]);
    let b = arena.alloc_slice(&[reg(4)]);
    let c = arena.alloc_slice(&[reg(1), imm(2), reg(3)]);
    assert_eq!(a, c);
    assert_ne!(a, b);
    assert_eq!(a, ExecProviderSlice::new(0, 3));
    assert_eq!(b, ExecProviderSlice::new(3, 1));
    assert_eq!(arena.resolve(a), &[reg(1), imm(2), reg(3)]);
    assert_eq!(arena.resolve(c), arena.resolve(a));
    assert_eq!(arena.resolve(b), &[reg(4)]);
}

#[test]
fn arena_keeps_differing_sequences_apart() {
    let mut arena = DedupProviderSliceArena::new();
    let a = arena.alloc_slice(&[reg(1), reg(2)]);
    let b = arena.alloc_slice(&[reg(1), imm(2)]);
    let c = arena.alloc_slice(&[reg(1)]);
    assert_ne!(a, b);
    assert_ne!(a, c);
    assert_eq!(b, ExecProviderSlice::new(2, 2));
    assert_eq!(c, ExecProviderSlice::new(4, 1));
    assert_eq!(arena.resolve(a), &[reg(1), reg(2)]);
    assert_eq!(arena.resolve(b), &[reg(1), imm(2)]);
    assert_eq!(arena.resolve(c), &[reg(1)]);
}

#[test]
fn arena_empty_sequence() {
    let mut arena = DedupProviderSliceArena::new();
    let e = arena.alloc_slice(&[]);
    assert_eq!(e, ExecProviderSlice::empty());
    assert_eq!(arena.resolve(e), &[] as &[ExecProvider]);
    let again = arena.alloc_slice(&[]);
    assert_eq!(again, e);
}

#[test]
fn code_map_round_trip_and_layout() {
    let mut map = CodeMap::new();
    let b1 = vec![Instruction::I32Add, Instruction::Drop];
    let b2 = vec![Instruction::Unreachable];
    let b3 = vec![Instruction::I64Load(Offset(8)), Instruction::Select, Instruction::GrowMemory];
    let h1 = map.alloc_body(b1.clone());
    let h2 = map.alloc_body(b2.clone());
    let h3 = map.alloc_body(b3.clone());
    assert_eq!((h1.inst().into_usize(), h1.len()), (0, 2));
    assert_eq!((h2.inst().into_usize(), h2.len()), (2, 1));
    assert_eq!((h3.inst().into_usize(), h3.len()), (3, 3));
    for (h, b) in [(h1, &b1), (h2, &b2), (h3, &b3)] {
        let body = map.resolve(h);
        assert_eq!(body.len(), b.len());
        for (i, inst) in b.iter().enumerate() {
            assert_eq!(body.get(i), Some(inst));
        }
        assert_eq!(body.get(b.len()), None);
    }
}

#[test]
fn code_map_empty_body() {
    let mut map = CodeMap::new();
    let h = map.alloc_body(Vec::new());
    assert_eq!(h, FuncBody::new(FirstInstr(0), 0));
    assert_eq!(map.resolve(h).len(), 0);
}

#[test]
fn interpreter_stores_bodies() {
    let mut inner = InterpreterInner::new();
    let a = inner.alloc_func_body(vec![Instruction::I32Eqz]);
    let b = inner.alloc_func_body(vec![Instruction::Return(DropKeep::new(1, 0))]);
    assert_eq!(a, FuncBody::new(FirstInstr(0), 1));
    assert_eq!(b, FuncBody::new(FirstInstr(1), 1));
    assert_eq!(inner.resolve_func_body(b).get(0), Some(&Instruction::Return(DropKeep::new(1, 0))));
}

#[test]
fn labels_patch_every_recorded_use() {
    let mut b = InstructionsBuilder::new();
    let label = b.new_label();
    assert_eq!(label, LabelIdx(0));
    let pc0 = b.current_pc();
    let dst0 = b.try_resolve_label(label, Reloc::Br { inst_idx: pc0 });
    assert_eq!(dst0, InstructionIdx::invalid());
    b.push_inst(Instruction::Br(Target::new(dst0, DropKeep::new(0, 0))));
    b.push_inst(Instruction::I32Add);
    let pc2 = b.current_pc();
    let dst2 = b.try_resolve_label(label, Reloc::Br { inst_idx: pc2 });
    b.push_inst(Instruction::BrIfNez(Target::new(dst2, DropKeep::new(2, 1))));
    assert_eq!(b.current_pc(), InstructionIdx(3));
    b.resolve_label(label);
    assert_eq!(b.label(label), Label::Resolved(InstructionIdx(3)));
    let insts = b.finish();
    assert_eq!(insts[0], Instruction::Br(Target::new(InstructionIdx(3), DropKeep::new(0, 0))));
    assert_eq!(insts[1], Instruction::I32Add);
    assert_eq!(insts[2], Instruction::BrIfNez(Target::new(InstructionIdx(3), DropKeep::new(2, 1))));
}

#[test]
fn resolved_label_is_returned_directly() {
    let mut b = InstructionsBuilder::new();
    b.push_inst(Instruction::I32Add);
    let label = b.new_label();
    b.resolve_label(label);
    let pc = b.current_pc();
    assert_eq!(b.try_resolve_label(label, Reloc::Br { inst_idx: pc }), InstructionIdx(1));
    assert!(b.is_resolved(label));
}

#[test]
fn branch_table_relocations_patch_arms() {
    let mut b = InstructionsBuilder::new();
    let label = b.new_label();
    let header = b.current_pc();
    b.push_inst(Instruction::BrTable { len_targets: 1 });
    let d0 = b.try_resolve_label(label, Reloc::BrTable { inst_idx: header, target_idx: 0 });
    b.push_inst(Instruction::BrTableTarget(Target::new(d0, DropKeep::new(0, 0))));
    let d1 = b.try_resolve_label(label, Reloc::BrTable { inst_idx: header, target_idx: 1 });
    b.push_inst(Instruction::BrTableTarget(Target::new(d1, DropKeep::new(1, 0))));
    b.resolve_label(label);
    let insts = b.finish();
    assert_eq!(insts[1], Instruction::BrTableTarget(Target::new(InstructionIdx(3), DropKeep::new(0, 0))));
    assert_eq!(insts[2], Instruction::BrTableTarget(Target::new(InstructionIdx(3), DropKeep::new(1, 0))));
}

#[test]
fn union_conversions() {
    assert_eq!(
        RegisterOrImmediate::from(ExecRegister(9)),
        RegisterOrImmediate::Register(ExecRegister::from_inner(9))
    );
    assert_eq!(
        RegisterOrImmediate::from(ConstRef::from_usize(4)),
        RegisterOrImmediate::Immediate(ConstRef(4))
    );
    assert_eq!(ConstRef(4).into_inner(), 4);
    assert_eq!(ExecRegister(9).into_inner(), 9);
}
