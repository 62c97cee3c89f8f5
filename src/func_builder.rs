//! Translation of one WebAssembly function body into engine instructions.

use crate::control_frame::{ControlFlowStack, ControlFrame, ControlFrameKind};
use crate::inst_builder::{lemma_record_and_push_fit, lemma_resolve_keeps_fit, BuilderView, InstructionsBuilder, Label, Reloc};
use crate::isa::{
    DropKeep, F32, F64, Instruction, InstructionIdx, LabelIdx, Offset, RelativeDepth, Target,
    ValueType, INVALID_INSTRUCTION_INDEX,
};
use crate::locals_registry::LocalsRegistry;
use crate::resources::{
    BlockType, FuncIdx, FuncTypeIdx, GlobalIdx, MemoryIdx, ModuleResources, TableIdx,
};
use crate::value_stack::ValueStack;
use vstd::prelude::*;

verus! {

/// The linear memory that loads and stores go through.
pub const DEFAULT_MEMORY_INDEX: u32 = 0;

/// The table that `call_indirect` goes through.
pub const DEFAULT_TABLE_INDEX: u32 = 0;

/// An error of translation that the module's input can cause.
#[derive(Debug, Copy, Clone, PartialEq, Eq, Structural)]
pub enum ModuleError {
    /// A function declares more local variables than can be counted.
    TooManyLocals,
}

/// The label of a frame with the smallest index.
pub open spec fn min_label(f: ControlFrame) -> int {
    match f {
        ControlFrame::Block { end_label, .. } => end_label.0 as int,
        ControlFrame::Loop { header, .. } => header.0 as int,
        ControlFrame::If { else_label, .. } => else_label.0 as int,
        ControlFrame::Unreachable { .. } => 0,
    }
}

/// The label of a frame with the largest index.
pub open spec fn max_label(f: ControlFrame) -> int {
    match f {
        ControlFrame::Block { end_label, .. } => end_label.0 as int,
        ControlFrame::Loop { header, .. } => header.0 as int,
        ControlFrame::If { end_label, .. } => end_label.0 as int,
        ControlFrame::Unreachable { .. } => 0,
    }
}

/// Whether `l` is a label of the frame.
pub open spec fn holds_label(f: ControlFrame, l: int) -> bool {
    match f {
        ControlFrame::Block { end_label, .. } => end_label.0 == l,
        ControlFrame::Loop { header, .. } => header.0 == l,
        ControlFrame::If { end_label, else_label, .. } => end_label.0 == l || else_label.0 == l,
        ControlFrame::Unreachable { .. } => false,
    }
}

/// The end label of a `block` or `if` frame.
pub open spec fn end_label_of(f: ControlFrame) -> Option<LabelIdx> {
    match f {
        ControlFrame::Block { end_label, .. } => Some(end_label),
        ControlFrame::If { end_label, .. } => Some(end_label),
        _ => None,
    }
}

/// The end label of a `block` or `if` frame, or label zero.
pub open spec fn end_label_or_zero(f: ControlFrame) -> LabelIdx {
    match end_label_of(f) {
        Some(l) => l,
        None => LabelIdx(0),
    }
}

/// The depth that arm `n` of a branch table goes to; the arm after the
/// listed ones is the default.
pub open spec fn arm_depth(default: RelativeDepth, targets: Seq<RelativeDepth>, n: int) -> int {
    if n < targets.len() {
        targets[n].0 as int
    } else {
        default.0 as int
    }
}

/// The index of a label that is present.
pub open spec fn label_index(label: Option<LabelIdx>) -> int {
    match label {
        Some(l) => l.0 as int,
        None => 0,
    }
}

/// The instructions that branch to a label.
#[derive(Copy, Clone)]
enum BranchKind {
    Br,
    BrIfEqz,
    BrIfNez,
}

/// The branch instruction of the given kind.
spec fn branch_inst(kind: BranchKind, target: Target) -> Instruction {
    match kind {
        BranchKind::Br => Instruction::Br(target),
        BranchKind::BrIfEqz => Instruction::BrIfEqz(target),
        BranchKind::BrIfNez => Instruction::BrIfNez(target),
    }
}

impl BranchKind {
    /// The branch instruction of this kind.
    fn make(self, target: Target) -> (r: Instruction)
        ensures
            r == branch_inst(self, target),
    {
        match self {
            BranchKind::Br => Instruction::Br(target),
            BranchKind::BrIfEqz => Instruction::BrIfEqz(target),
            BranchKind::BrIfNez => Instruction::BrIfNez(target),
        }
    }
}

/// The types that an operator pushes.
pub open spec fn opt_seq(pushed: Option<ValueType>) -> Seq<ValueType> {
    match pushed {
        Some(t) => seq![t],
        None => Seq::empty(),
    }
}

/// Appending an instruction keeps every waiting relocation fitting.
proof fn lemma_push_keeps_fit(b: BuilderView, inst: Instruction, b2: BuilderView)
    requires
        b.relocs_fit(),
        b2 == (BuilderView { insts: b.insts.push(inst), ..b }),
    ensures
        b2.relocs_fit(),
{
    assert forall|l: int, k: int| 0 <= l < b2.uses.len() && 0 <= k < b2.uses[l].len() implies (#[trigger] b2.uses[l][k]).fits(
        b2.insts,
    ) by {
        assert(b.uses[l][k].fits(b.insts));
        assert(b2.insts[b.uses[l][k].position()] == b.insts[b.uses[l][k].position()]);
    }
}

/// The state of a [`FunctionBuilder`].
pub struct FunctionBuilderView {
    /// The translated function.
    pub func: FuncIdx,
    /// The module that the function belongs to.
    pub res: ModuleResources,
    /// The enclosing control regions, innermost last.
    pub frames: Seq<ControlFrame>,
    /// The types on the value stack.
    pub stack: Seq<ValueType>,
    /// The emitted instructions and the labels.
    pub code: BuilderView,
    /// The types of the parameters and local variables.
    pub locals: Seq<ValueType>,
    /// Whether the translated code is reachable.
    pub reachable: bool,
}

impl FunctionBuilderView {
    /// The height of the value stack.
    pub open spec fn height(self) -> int {
        self.stack.len() as int
    }

    /// The frame `depth` levels out from the innermost one.
    pub open spec fn frame(self, depth: int) -> ControlFrame {
        self.frames[self.frames.len() - 1 - depth]
    }

    /// The parameter types of the translated function.
    pub open spec fn params(self) -> Seq<ValueType> {
        self.res.type_of_func(self.func).params_spec()
    }

    /// The number of values that a branch to the frame at `depth` keeps: the
    /// parameters of a loop, the results of any other region.
    pub open spec fn keep(self, depth: int) -> int {
        let f = self.frame(depth);
        if f.kind_spec() == ControlFrameKind::Loop {
            self.res.block_params(f.block_type_spec()).len() as int
        } else {
            self.res.block_results(f.block_type_spec()).len() as int
        }
    }

    /// The stack adjustment of a branch to the frame at `depth`: all values
    /// above the frame's entry height but the kept ones are dropped; nothing
    /// is dropped in unreachable code.
    pub open spec fn drop_keep(self, depth: int) -> DropKeep {
        let f = self.frame(depth);
        DropKeep {
            drop: if self.reachable {
                (self.height() - f.stack_height_spec() - self.keep(depth)) as u32
            } else {
                0
            },
            keep: self.keep(depth) as u32,
        }
    }

    /// A branch to the frame at `depth` is well-formed here: the frame exists,
    /// and in reachable code the stack rose above the frame's entry height by
    /// at least the kept values.
    pub open spec fn branch_allowed(self, depth: int) -> bool {
        &&& 0 <= depth < self.frames.len()
        &&& self.reachable ==> self.frame(depth).stack_height_spec() < self.height()
            && self.keep(depth) <= self.height() - self.frame(depth).stack_height_spec()
    }

    /// The stack adjustment of a return: that of a branch to the function's
    /// block, which drops the locals and parameters too.
    pub open spec fn return_drop_keep(self) -> DropKeep {
        let dk = self.drop_keep(self.frames.len() - 1);
        DropKeep {
            drop: (dk.drop + self.locals.len() + self.params().len()) as u32,
            keep: dk.keep,
        }
    }

    /// A return is well-formed here and its drop count fits.
    pub open spec fn return_allowed(self) -> bool {
        let dk = self.drop_keep(self.frames.len() - 1);
        &&& self.branch_allowed(self.frames.len() - 1)
        &&& dk.drop + self.locals.len() + self.params().len() <= u32::MAX
    }

    /// The innermost frame holds at least `n` values of its own.
    pub open spec fn can_pop(self, n: int) -> bool {
        &&& self.frames.len() > 0
        &&& self.frames.last().stack_height_spec() + n <= self.height()
    }

    /// At least `n` more instructions can be emitted.
    pub open spec fn room(self, n: int) -> bool {
        self.code.insts.len() + n < u32::MAX
    }

    /// An operator that pops `pops` values and pushes `pushes` can be translated here.
    pub open spec fn op_allowed(self, pops: int, pushes: int) -> bool {
        self.reachable ==> self.can_pop(pops) && self.room(1) && self.height() - pops + pushes <= u32::MAX
    }

    /// The state after emitting `inst`.
    pub open spec fn emit(self, inst: Instruction) -> FunctionBuilderView {
        FunctionBuilderView { code: BuilderView { insts: self.code.insts.push(inst), ..self.code }, ..self }
    }

    /// The state with the value stack replaced.
    pub open spec fn with_stack(self, stack: Seq<ValueType>) -> FunctionBuilderView {
        FunctionBuilderView { stack, ..self }
    }

    /// The value stack with the top `n` values removed.
    pub open spec fn popped(self, n: int) -> Seq<ValueType> {
        self.stack.subrange(0, self.height() - n)
    }

    /// The state after an operator that pops `pops` values, pushes `pushed`
    /// and emits `inst`; unreachable code is skipped.
    pub open spec fn op(self, pops: int, pushed: Seq<ValueType>, inst: Instruction) -> FunctionBuilderView {
        if self.reachable {
            self.with_stack(self.popped(pops) + pushed).emit(inst)
        } else {
            self
        }
    }

    /// Like [`FunctionBuilderView::op`], for an operator that may emit nothing.
    pub open spec fn op_opt(self, pops: int, pushed: Seq<ValueType>, inst: Option<Instruction>) -> FunctionBuilderView {
        match inst {
            Some(inst) => self.op(pops, pushed, inst),
            None => if self.reachable {
                self.with_stack(self.popped(pops) + pushed)
            } else {
                self
            },
        }
    }

    /// A store of a value of type `stored_type` can be translated here: the
    /// stored value lies on top of the stack, above the address.
    pub open spec fn store_allowed(self, stored_type: ValueType) -> bool {
        &&& self.op_allowed(2, 0)
        &&& self.reachable ==> self.stack.last() == stored_type
    }

    /// The depth of local `local_idx` below the top of the value stack, where
    /// the locals lie under the operands.
    pub open spec fn local_depth(self, local_idx: int) -> u32 {
        (self.height() + self.params().len() + self.locals.len() - local_idx) as u32
    }

    /// Local `local_idx` exists and its depth can be counted.
    pub open spec fn local_allowed(self, local_idx: int) -> bool {
        &&& 0 <= local_idx < self.locals.len()
        &&& self.height() + self.params().len() + self.locals.len() <= u32::MAX
    }

    /// The state after a branch instruction `inst` to `label` is emitted; the
    /// branch is recorded as a use of the label while that is unresolved.
    pub open spec fn branch_emitted(self, label: LabelIdx, inst: Instruction) -> FunctionBuilderView {
        FunctionBuilderView {
            code: BuilderView {
                insts: self.code.insts.push(inst),
                labels: self.code.labels,
                uses: self.code.recorded(label, Reloc::Br { inst_idx: InstructionIdx(self.code.insts.len() as u32) }),
            },
            ..self
        }
    }

    /// The label that branches to the frame at `depth` go to.
    pub open spec fn target_label(self, depth: int) -> LabelIdx {
        self.frame(depth).branch_destination_spec()
    }

    /// The target of a branch to the frame at `depth`.
    pub open spec fn target(self, depth: int) -> Target {
        Target { dst_pc: self.code.branch_dst(self.target_label(depth)), drop_keep: self.drop_keep(depth) }
    }

    /// The state after entering the region `frame`, with `labels` new labels.
    pub open spec fn entered(self, frame: ControlFrame, labels: Seq<Label>) -> FunctionBuilderView {
        FunctionBuilderView {
            frames: self.frames.push(frame),
            code: BuilderView {
                labels: self.code.labels + labels,
                uses: self.code.uses + Seq::new(labels.len(), |_i: int| Seq::<Reloc>::empty()),
                ..self.code
            },
            ..self
        }
    }

    /// The index that the `n`-th label created next will have.
    pub open spec fn fresh_label(self, n: int) -> LabelIdx {
        LabelIdx((self.code.labels.len() + n) as usize)
    }

    /// An `else` can be translated here: the innermost region is an `if`
    /// whose `else` label is not resolved yet.
    pub open spec fn else_allowed(self) -> bool {
        &&& self.frames.len() > 0
        &&& self.frames.last().kind_spec() == ControlFrameKind::If
        &&& self.frames.last() is If ==> self.code.labels[self.frames.last()->else_label.0 as int] is Unresolved
        &&& self.room(1)
    }

    /// What `else` does. In reachable code the `then` arm ends with a branch
    /// to the end label, and the `else` label is resolved after it; after an
    /// unreachable `then` arm of a reachable `if` only the `else` label is
    /// resolved and reachability is restored; inside unreachable code nothing
    /// changes.
    pub open spec fn else_done(self) -> FunctionBuilderView {
        let f = self.frames.last();
        if self.reachable {
            let mid = self.branch_emitted(
                end_label_or_zero(f),
                Instruction::Br(
                    Target {
                        dst_pc: InstructionIdx(INVALID_INSTRUCTION_INDEX),
                        drop_keep: DropKeep { drop: 0, keep: 0 },
                    },
                ),
            );
            FunctionBuilderView { code: mid.code.resolved(f->else_label), ..mid }
        } else if f is If {
            FunctionBuilderView { code: self.code.resolved(f->else_label), reachable: true, ..self }
        } else {
            self
        }
    }

    /// An `end` can be translated here; at the end of the function body in
    /// reachable code the epilogue's stack adjustment must not underflow.
    pub open spec fn end_allowed(self) -> bool {
        &&& self.frames.len() > 0
        &&& self.room(1)
        &&& self.reachable && self.frames.len() == 1 ==> {
            &&& self.frame(0).stack_height_spec() + self.keep(0) <= self.height()
            &&& self.drop_keep(0).drop + self.locals.len() + self.params().len() <= u32::MAX
        }
    }

    /// The code after `end`: the `else` label of an `if` is resolved unless
    /// an `else` did so, the end label of a `block` or `if` is resolved, and
    /// the end of the function body in reachable code returns.
    pub open spec fn end_code(self) -> BuilderView {
        let f = self.frames.last();
        let c1 = if f is If && self.code.labels[f->else_label.0 as int] is Unresolved {
            self.code.resolved(f->else_label)
        } else {
            self.code
        };
        let c2 = match end_label_of(f) {
            Some(l) => c1.resolved(l),
            None => c1,
        };
        if self.reachable && self.frames.len() == 1 {
            BuilderView { insts: c2.insts.push(Instruction::Return(self.return_drop_keep())), ..c2 }
        } else {
            c2
        }
    }

    /// What `end` does: the region is left, the value stack shrinks back to
    /// the region's entry height, and the code is reachable exactly when the
    /// region was entered in reachable code.
    pub open spec fn ended(self) -> FunctionBuilderView {
        let f = self.frames.last();
        FunctionBuilderView {
            frames: self.frames.drop_last(),
            stack: self.stack.subrange(0, f.stack_height_spec() as int),
            code: self.end_code(),
            reachable: !(f is Unreachable),
            ..self
        }
    }

    /// A `br_table` can be translated here: the selector is on the stack and
    /// every arm and the default are well-formed branches once it is popped.
    pub open spec fn br_table_allowed(self, default: RelativeDepth, targets: Seq<RelativeDepth>) -> bool {
        let popped = self.with_stack(self.popped(1));
        self.reachable ==> {
            &&& self.can_pop(1)
            &&& self.room(targets.len() + 2int)
            &&& forall|n: int| 0 <= n < targets.len() ==> popped.branch_allowed((#[trigger] targets[n]).0 as int)
            &&& popped.branch_allowed(default.0 as int)
        }
    }

    /// The destination that a branch to the frame at `depth` is emitted with.
    pub open spec fn branch_dst(self, depth: int) -> InstructionIdx {
        self.code.branch_dst(self.frame(depth).branch_destination_spec())
    }

    /// The invariant of translation.
    pub open spec fn wf(self) -> bool {
        &&& self.res.wf()
        &&& self.res.has_func(self.func)
        &&& self.code.labels.len() == self.code.uses.len()
        &&& self.code.relocs_fit()
        &&& self.stack.len() <= u32::MAX
        &&& self.locals.len() <= u32::MAX
        &&& self.frames.len() <= u32::MAX
        &&& forall|i: int| 0 <= i < self.frames.len() ==> self.res.valid_block_type(
            (#[trigger] self.frames[i]).block_type_spec(),
        )
        &&& forall|i: int, j: int|
            0 <= i < j < self.frames.len() ==> (#[trigger] self.frames[i]).stack_height_spec()
                <= (#[trigger] self.frames[j]).stack_height_spec()
        &&& self.frames.len() > 0 ==> self.frames.last().stack_height_spec() <= self.stack.len()
        &&& forall|i: int, j: int|
            0 <= i < j < self.frames.len() && (#[trigger] self.frames[i]) is Unreachable
                ==> (#[trigger] self.frames[j]) is Unreachable
        &&& self.reachable && self.frames.len() > 0 ==> !(self.frames.last() is Unreachable)
        &&& forall|i: int|
            0 <= i < self.frames.len() && !((#[trigger] self.frames[i]) is Unreachable)
                ==> min_label(self.frames[i]) <= max_label(self.frames[i])
                && max_label(self.frames[i]) < self.code.labels.len()
        &&& forall|i: int, j: int|
            0 <= i < j < self.frames.len() && !((#[trigger] self.frames[j]) is Unreachable)
                ==> max_label(#[trigger] self.frames[i]) < min_label(self.frames[j])
        &&& forall|i: int|
            #![trigger self.frames[i]]
            0 <= i < self.frames.len() && end_label_of(self.frames[i]) is Some
                ==> self.code.labels[label_index(end_label_of(self.frames[i]))] is Unresolved
        &&& forall|i: int|
            0 <= i < self.frames.len() && (#[trigger] self.frames[i]) is Loop
                ==> self.code.labels[min_label(self.frames[i])] is Resolved
        &&& forall|i: int|
            0 <= i < self.frames.len() && (#[trigger] self.frames[i]) is If
                ==> min_label(self.frames[i]) < max_label(self.frames[i])
        &&& forall|l: int|
            0 <= l < self.code.labels.len() && (#[trigger] self.code.labels[l]) is Unresolved
                ==> exists|i: int| 0 <= i < self.frames.len() && holds_label(#[trigger] self.frames[i], l)
    }
}

/// Translates the operators of one function body into engine instructions.
pub struct FunctionBuilder<'parser> {
    /// The translated function.
    func: FuncIdx,
    /// The module that the function belongs to.
    res: &'parser ModuleResources,
    /// The enclosing control regions.
    control_frames: ControlFlowStack,
    /// The types on the value stack.
    value_stack: ValueStack,
    /// The instructions emitted so far and the labels.
    inst_builder: InstructionsBuilder,
    /// The types of the parameters and local variables.
    locals: LocalsRegistry,
    /// Whether the translated code is reachable; cleared after an
    /// unconditional exit, restored at the `else` or `end` of a region that
    /// was entered in reachable code.
    reachable: bool,
}

impl<'parser> View for FunctionBuilder<'parser> {
    type V = FunctionBuilderView;

    closed spec fn view(&self) -> FunctionBuilderView {
        FunctionBuilderView {
            func: self.func,
            res: *self.res,
            frames: self.control_frames@,
            stack: self.value_stack@,
            code: self.inst_builder@,
            locals: self.locals@,
            reachable: self.reachable,
        }
    }
}

impl<'parser> FunctionBuilder<'parser> {
    /// The invariant of translation, over the builder's parts.
    pub closed spec fn wf(&self) -> bool {
        &&& self.inst_builder.wf()
        &&& self.locals.wf()
        &&& self@.wf()
    }

    /// Creates a builder for the body of `func`: the function's block is
    /// entered and its parameters are on the value stack and among the locals.
    pub fn new(func: FuncIdx, res: &'parser ModuleResources) -> (r: Self)
        requires
            res.wf(),
            res.has_func(func),
        ensures
            r.wf(),
            r@.func == func,
            r@.res == *res,
            r@.frames == seq![
                ControlFrame::Block {
                    block_type: BlockType::FuncType(res.funcs_spec()[func.0 as int]),
                    end_label: LabelIdx(0),
                    stack_height: 0,
                },
            ],
            r@.stack == res.type_of_func(func).params_spec(),
            r@.locals == res.type_of_func(func).params_spec(),
            r@.code.insts.len() == 0,
            r@.code.labels == seq![Label::Unresolved],
            r@.code.uses == seq![Seq::<Reloc>::empty()],
            r@.reachable,
    {
        let mut inst_builder = InstructionsBuilder::new();
        let mut control_frames = ControlFlowStack::new();
        Self::register_func_body_block(func, res, &mut inst_builder, &mut control_frames);
        let mut value_stack = ValueStack::new();
        let mut locals = LocalsRegistry::new();
        Self::register_func_params(func, res, &mut value_stack, &mut locals);
        let r = FunctionBuilder {
            func,
            res,
            control_frames,
            value_stack,
            inst_builder,
            locals,
            reachable: true,
        };
        proof {
            assert(r@.code.labels =~= seq![Label::Unresolved]);
            assert(r@.code.uses =~= seq![Seq::<Reloc>::empty()]);
            assert(r@.frames =~= seq![
                ControlFrame::Block {
                    block_type: BlockType::FuncType(res.funcs_spec()[func.0 as int]),
                    end_label: LabelIdx(0),
                    stack_height: 0,
                },
            ]);
            assert forall|l: int|
                0 <= l < r@.code.labels.len() && (#[trigger] r@.code.labels[l]) is Unresolved implies exists|i: int|
                0 <= i < r@.frames.len() && holds_label(#[trigger] r@.frames[i], l) by {
                assert(holds_label(r@.frames[0], l));
            }
        }
        r
    }

    /// Enters the block that surrounds the whole function body.
    fn register_func_body_block(
        func: FuncIdx,
        res: &ModuleResources,
        inst_builder: &mut InstructionsBuilder,
        control_frames: &mut ControlFlowStack,
    )
        requires
            res.has_func(func),
            old(inst_builder).wf(),
        ensures
            final(inst_builder).wf(),
            final(inst_builder)@ == (BuilderView {
                labels: old(inst_builder)@.labels.push(Label::Unresolved),
                uses: old(inst_builder)@.uses.push(Seq::empty()),
                ..old(inst_builder)@
            }),
            final(control_frames)@ == old(control_frames)@.push(
                ControlFrame::Block {
                    block_type: BlockType::FuncType(res.funcs_spec()[func.0 as int]),
                    end_label: LabelIdx(old(inst_builder)@.labels.len() as usize),
                    stack_height: 0,
                },
            ),
    {
        let func_type = res.get_type_idx_of_func(func);
        let block_type = BlockType::func_type(func_type);
        let end_label = inst_builder.new_label();
        control_frames.push_frame(ControlFrame::Block { block_type, end_label, stack_height: 0 });
    }

    /// Pushes the parameters of the function onto the value stack and
    /// registers them as its first locals; returns their number.
    fn register_func_params(
        func: FuncIdx,
        res: &ModuleResources,
        value_stack: &mut ValueStack,
        locals: &mut LocalsRegistry,
    ) -> (r: usize)
        requires
            res.wf(),
            res.has_func(func),
            old(locals).wf(),
            old(locals)@.len() == 0,
            old(value_stack)@.len() == 0,
        ensures
            final(locals).wf(),
            final(value_stack)@ == res.type_of_func(func).params_spec(),
            final(locals)@ == res.type_of_func(func).params_spec(),
            r == res.type_of_func(func).params_spec().len(),
    {
        let params = res.get_type_of_func(func).params();
        let ghost t = res.funcs_spec()[func.0 as int].0 as int;
        assert(res.func_types_spec()[t].params_spec().len() <= u32::MAX);
        let mut k: usize = 0;
        while k < params.len()
            invariant
                params@ == res.type_of_func(func).params_spec(),
                params@.len() <= u32::MAX,
                0 <= k <= params@.len(),
                locals.wf(),
                value_stack@ == params@.subrange(0, k as int),
                locals@ == params@.subrange(0, k as int),
            decreases params@.len() - k,
        {
            let param_type = params[k];
            value_stack.push(param_type);
            locals.register_locals(param_type, 1);
            k += 1;
            assert(value_stack@ =~= params@.subrange(0, k as int));
            assert(locals@ =~= params@.subrange(0, k as int));
        }
        assert(params@.subrange(0, params@.len() as int) =~= params@);
        params.len()
    }

    /// Records `amount` further locals of the given type.
    pub fn translate_locals(&mut self, amount: u32, value_type: ValueType) -> (r: Result<(), ModuleError>)
        requires
            old(self).wf(),
        ensures
            final(self).wf(),
            old(self)@.locals.len() + amount <= u32::MAX ==> r is Ok && final(self)@ == (FunctionBuilderView {
                locals: old(self)@.locals + Seq::new(amount as nat, |_i: int| value_type),
                ..old(self)@
            }),
            old(self)@.locals.len() + amount > u32::MAX ==> r == Err::<(), ModuleError>(ModuleError::TooManyLocals)
                && final(self)@ == old(self)@,
    {
        let len = self.locals.len_registered();
        if amount > u32::MAX - len {
            return Err(ModuleError::TooManyLocals);
        }
        self.locals.register_locals(value_type, amount);
        Ok(())
    }

    /// Emits an instruction.
    fn emit(&mut self, inst: Instruction)
        requires
            old(self).wf(),
            old(self)@.room(1),
        ensures
            final(self).wf(),
            final(self)@ == old(self)@.emit(inst),
    {
        let ghost before = self@;
        self.inst_builder.push_inst(inst);
        proof {
            lemma_push_keeps_fit(before.code, inst, self@.code);
        }
    }

    /// Translates an operator of reachable code that pops `pops` values,
    /// pushes `pushed` and emits `inst`.
    fn translate_op(&mut self, pops: usize, pushed: Option<ValueType>, inst: Option<Instruction>)
        requires
            old(self).wf(),
            old(self)@.op_allowed(pops as int, if pushed is Some { 1 } else { 0 }),
        ensures
            final(self).wf(),
            final(self)@ == old(self)@.op_opt(pops as int, opt_seq(pushed), inst),
    {
        if !self.reachable {
            return;
        }
        let ghost before = self@;
        assert(before.popped(0) =~= before.stack);
        let mut k: usize = 0;
        while k < pops
            invariant
                self.inst_builder.wf(),
                self.locals.wf(),
                self@.wf(),
                0 <= k <= pops,
                before.can_pop(pops as int),
                self@ == before.with_stack(before.popped(k as int)),
            decreases pops - k,
        {
            self.value_stack.pop1();
            k += 1;
            assert(self@.stack =~= before.popped(k as int));
        }
        assert(self@.stack =~= before.popped(pops as int));
        match pushed {
            Some(value_type) => {
                self.value_stack.push(value_type);
            },
            None => {},
        }
        assert(self@.stack =~= before.popped(pops as int) + opt_seq(pushed));
        match inst {
            Some(inst) => self.emit(inst),
            None => {},
        }
    }

    /// Returns the position of `label` if it is resolved; otherwise records a
    /// branch at the current position as a use of the label and returns the
    /// placeholder.
    fn try_resolve_label(&mut self, label: LabelIdx) -> (r: InstructionIdx)
        requires
            old(self).inst_builder.wf(),
            old(self)@.code.has_label(label),
        ensures
            final(self).inst_builder.wf(),
            final(self).locals == old(self).locals,
            r == old(self)@.code.branch_dst(label),
            final(self)@ == (FunctionBuilderView {
                code: BuilderView {
                    uses: old(self)@.code.recorded(label, Reloc::Br { inst_idx: InstructionIdx(old(self)@.code.insts.len() as u32) }),
                    ..old(self)@.code
                },
                ..old(self)@
            }),
    {
        let pc = self.inst_builder.current_pc();
        self.inst_builder.try_resolve_label(label, Reloc::Br { inst_idx: pc })
    }

    /// Emits a branch of the given kind to `label` with the given stack adjustment.
    fn emit_branch(&mut self, label: LabelIdx, kind: BranchKind, drop_keep: DropKeep)
        requires
            old(self).wf(),
            old(self)@.room(1),
            old(self)@.code.has_label(label),
        ensures
            final(self).wf(),
            final(self)@ == old(self)@.branch_emitted(
                label,
                branch_inst(kind, Target { dst_pc: old(self)@.code.branch_dst(label), drop_keep }),
            ),
    {
        let ghost before = self@;
        let dst_pc = self.try_resolve_label(label);
        let inst = kind.make(Target::new(dst_pc, drop_keep));
        self.inst_builder.push_inst(inst);
        proof {
            let reloc = Reloc::Br { inst_idx: InstructionIdx(before.code.insts.len() as u32) };
            lemma_record_and_push_fit(before.code, label, reloc, inst, self@.code);
        }
    }

    /// Translates a Wasm `unreachable` instruction.
    pub fn translate_unreachable(&mut self) -> (r: Result<(), ModuleError>)
        requires
            old(self).wf(),
            old(self)@.reachable ==> old(self)@.room(1),
        ensures
            final(self).wf(),
            old(self)@.reachable ==> final(self)@ == (FunctionBuilderView {
                reachable: false,
                ..old(self)@.emit(Instruction::Unreachable)
            }),
            !old(self)@.reachable ==> final(self)@ == old(self)@,
            r is Ok,
    {
        if self.reachable {
            self.emit(Instruction::Unreachable);
            self.reachable = false;
        }
        Ok(())
    }

    /// Translates a Wasm `br` instruction.
    pub fn translate_br(&mut self, relative_depth: u32) -> (r: Result<(), ModuleError>)
        requires
            old(self).wf(),
            old(self)@.reachable ==> old(self)@.branch_allowed(relative_depth as int) && old(self)@.room(1),
        ensures
            final(self).wf(),
            old(self)@.reachable ==> final(self)@ == (FunctionBuilderView {
                reachable: false,
                ..old(self)@.branch_emitted(
                    old(self)@.target_label(relative_depth as int),
                    Instruction::Br(old(self)@.target(relative_depth as int)),
                )
            }),
            !old(self)@.reachable ==> final(self)@ == old(self)@,
            r is Ok,
    {
        if self.reachable {
            let (label, drop_keep) = self.acquire_target(relative_depth);
            proof {
                self.lemma_target_label(relative_depth as int);
            }
            self.emit_branch(label, BranchKind::Br, drop_keep);
            self.reachable = false;
        }
        Ok(())
    }

    /// Translates a Wasm `br_if` instruction: the condition is popped, and the
    /// branch is taken when it is not zero.
    pub fn translate_br_if(&mut self, relative_depth: u32) -> (r: Result<(), ModuleError>)
        requires
            old(self).wf(),
            old(self)@.reachable ==> old(self)@.can_pop(1) && old(self)@.room(1)
                && old(self)@.with_stack(old(self)@.popped(1)).branch_allowed(relative_depth as int),
        ensures
            final(self).wf(),
            old(self)@.reachable ==> {
                let popped = old(self)@.with_stack(old(self)@.popped(1));
                final(self)@ == popped.branch_emitted(
                    popped.target_label(relative_depth as int),
                    Instruction::BrIfNez(popped.target(relative_depth as int)),
                )
            },
            !old(self)@.reachable ==> final(self)@ == old(self)@,
            r is Ok,
    {
        if self.reachable {
            self.translate_op(1, None, None);
            assert(old(self)@.popped(1) + Seq::empty() =~= old(self)@.popped(1));
            let (label, drop_keep) = self.acquire_target(relative_depth);
            proof {
                self.lemma_target_label(relative_depth as int);
            }
            self.emit_branch(label, BranchKind::BrIfNez, drop_keep);
        }
        Ok(())
    }

    /// Translates a Wasm `return` instruction.
    pub fn translate_return(&mut self) -> (r: Result<(), ModuleError>)
        requires
            old(self).wf(),
            old(self)@.reachable ==> old(self)@.frames.len() > 0 && old(self)@.return_allowed() && old(self)@.room(1),
        ensures
            final(self).wf(),
            old(self)@.reachable ==> final(self)@ == (FunctionBuilderView {
                reachable: false,
                ..old(self)@.emit(Instruction::Return(old(self)@.return_drop_keep()))
            }),
            !old(self)@.reachable ==> final(self)@ == old(self)@,
            r is Ok,
    {
        if self.reachable {
            let drop_keep = self.drop_keep_return();
            self.emit(Instruction::Return(drop_keep));
            self.reachable = false;
        }
        Ok(())
    }

    /// In reachable code, the frame at `depth` was entered in reachable code
    /// and its branch label exists.
    proof fn lemma_target_label(&self, depth: int)
        requires
            self@.wf(),
            self@.reachable,
            0 <= depth < self@.frames.len(),
        ensures
            !(self@.frame(depth) is Unreachable),
            self@.code.has_label(self@.target_label(depth)),
    {
        let n = self@.frames.len() as int;
        let i = n - 1 - depth;
        if self@.frames[i] is Unreachable && i < n - 1 {
            assert(self@.frames[n - 1] is Unreachable);
        }
        assert(!(self@.frames[i] is Unreachable));
    }

    /// Enters a region entered in reachable code whose fresh labels have
    /// just been created; keeps the invariant.
    proof fn lemma_enter_reachable(v: FunctionBuilderView, frame: ControlFrame, labels: Seq<Label>)
        requires
            v.wf(),
            v.reachable,
            v.frames.len() < u32::MAX,
            v.res.valid_block_type(frame.block_type_spec()),
            frame.stack_height_spec() == v.height(),
            !(frame is Unreachable),
            min_label(frame) == v.code.labels.len(),
            max_label(frame) == v.code.labels.len() + labels.len() - 1,
            labels.len() >= 1,
            frame is If ==> labels.len() == 2 && labels[0] is Unresolved && labels[1] is Unresolved
                && frame->else_label.0 == v.code.labels.len(),
            frame is Block ==> labels.len() == 1 && labels[0] is Unresolved,
            frame is Loop ==> labels.len() == 1 && labels[0] is Resolved,
        ensures
            v.entered(frame, labels).wf(),
    {
        let w = v.entered(frame, labels);
        let n = v.frames.len() as int;
        assert forall|i: int| 0 <= i < n implies !(#[trigger] v.frames[i] is Unreachable) by {
            if v.frames[i] is Unreachable && i < n - 1 {
                assert(v.frames[n - 1] is Unreachable);
            }
        }
        assert(w.frames[n] == frame);
        assert forall|i: int| 0 <= i < w.frames.len() implies (#[trigger] w.frames[i]).stack_height_spec() <= frame.stack_height_spec() by {
            if i < n - 1 {
                assert(v.frames[i].stack_height_spec() <= v.frames[n - 1].stack_height_spec());
            }
        }
        assert forall|l: int, k: int| 0 <= l < w.code.uses.len() && 0 <= k < w.code.uses[l].len() implies (#[trigger] w.code.uses[l][k]).fits(
            w.code.insts,
        ) by {
            assert(l < v.code.uses.len());
            assert(w.code.uses[l] == v.code.uses[l]);
        }
        assert forall|l: int|
            0 <= l < w.code.labels.len() && (#[trigger] w.code.labels[l]) is Unresolved implies exists|i: int|
            0 <= i < w.frames.len() && holds_label(#[trigger] w.frames[i], l) by {
            if l < v.code.labels.len() {
                assert(v.code.labels[l] == w.code.labels[l]);
                let i = choose|i: int| 0 <= i < v.frames.len() && holds_label(#[trigger] v.frames[i], l);
                assert(w.frames[i] == v.frames[i]);
            } else {
                assert(holds_label(w.frames[n], l));
            }
        }
        assert forall|i: int|
            #![trigger w.frames[i]]
            0 <= i < w.frames.len() && end_label_of(w.frames[i]) is Some implies w.code.labels[label_index(
                end_label_of(w.frames[i]),
            )] is Unresolved by {
            if i < n {
                assert(w.frames[i] == v.frames[i]);
            }
        }
        assert forall|i: int|
            0 <= i < w.frames.len() && (#[trigger] w.frames[i]) is Loop implies w.code.labels[min_label(w.frames[i])] is Resolved by {
            if i < n {
                assert(w.frames[i] == v.frames[i]);
            }
        }
    }

    /// Enters a region in unreachable code; keeps the invariant.
    proof fn lemma_enter_unreachable(v: FunctionBuilderView, frame: ControlFrame)
        requires
            v.wf(),
            !v.reachable,
            v.frames.len() < u32::MAX,
            v.res.valid_block_type(frame.block_type_spec()),
            frame.stack_height_spec() == v.height(),
            frame is Unreachable,
        ensures
            v.entered(frame, Seq::empty()).wf(),
    {
        let w = v.entered(frame, Seq::empty());
        let n = v.frames.len() as int;
        assert(w.code.labels =~= v.code.labels);
        assert(w.code.uses =~= v.code.uses);
        assert(w.frames[n] == frame);
        assert forall|i: int| 0 <= i < w.frames.len() implies (#[trigger] w.frames[i]).stack_height_spec() <= frame.stack_height_spec() by {
            if i < n - 1 {
                assert(v.frames[i].stack_height_spec() <= v.frames[n - 1].stack_height_spec());
            }
        }
        assert forall|l: int|
            0 <= l < w.code.labels.len() && (#[trigger] w.code.labels[l]) is Unresolved implies exists|i: int|
            0 <= i < w.frames.len() && holds_label(#[trigger] w.frames[i], l) by {
            let i = choose|i: int| 0 <= i < v.frames.len() && holds_label(#[trigger] v.frames[i], l);
            assert(w.frames[i] == v.frames[i]);
        }
        assert forall|i: int|
            #![trigger w.frames[i]]
            0 <= i < w.frames.len() && end_label_of(w.frames[i]) is Some implies w.code.labels[label_index(
                end_label_of(w.frames[i]),
            )] is Unresolved by {
            assert(w.frames[i] == v.frames[i]);
        }
        assert forall|i: int|
            0 <= i < w.frames.len() && (#[trigger] w.frames[i]) is Loop implies w.code.labels[min_label(w.frames[i])] is Resolved by {
            assert(w.frames[i] == v.frames[i]);
        }
    }

    /// Translates a Wasm `block` operator.
    pub fn translate_block(&mut self, block_type: BlockType) -> (r: Result<(), ModuleError>)
        requires
            old(self).wf(),
            old(self)@.frames.len() < u32::MAX,
            old(self)@.res.valid_block_type(block_type),
        ensures
            final(self).wf(),
            old(self)@.reachable ==> final(self)@ == old(self)@.entered(
                ControlFrame::Block {
                    block_type,
                    end_label: old(self)@.fresh_label(0),
                    stack_height: old(self)@.height() as u32,
                },
                seq![Label::Unresolved],
            ),
            !old(self)@.reachable ==> final(self)@ == old(self)@.entered(
                ControlFrame::Unreachable {
                    kind: ControlFrameKind::Block,
                    block_type,
                    stack_height: old(self)@.height() as u32,
                },
                Seq::empty(),
            ),
            r is Ok,
    {
        let stack_height = self.value_stack.len();
        let ghost before = self@;
        if self.is_reachable() {
            let end_label = self.inst_builder.new_label();
            let frame = ControlFrame::Block { block_type, end_label, stack_height };
            self.control_frames.push_frame(frame);
            proof {
                Self::lemma_enter_reachable(before, frame, seq![Label::Unresolved]);
                assert(self@.code.labels =~= before.code.labels + seq![Label::Unresolved]);
                assert(self@.code.uses =~= before.code.uses + Seq::new(1, |_i: int| Seq::<Reloc>::empty()));
            }
        } else {
            let frame = ControlFrame::Unreachable { kind: ControlFrameKind::Block, block_type, stack_height };
            self.control_frames.push_frame(frame);
            proof {
                Self::lemma_enter_unreachable(before, frame);
                assert(self@.code.labels =~= before.code.labels + Seq::empty());
                assert(self@.code.uses =~= before.code.uses + Seq::new(0, |_i: int| Seq::<Reloc>::empty()));
            }
        }
        Ok(())
    }

    /// Translates a Wasm `loop` operator: its header label is resolved at
    /// once, to the position of the loop's first instruction.
    pub fn translate_loop(&mut self, block_type: BlockType) -> (r: Result<(), ModuleError>)
        requires
            old(self).wf(),
            old(self)@.frames.len() < u32::MAX,
            old(self)@.res.valid_block_type(block_type),
        ensures
            final(self).wf(),
            old(self)@.reachable ==> final(self)@ == old(self)@.entered(
                ControlFrame::Loop {
                    block_type,
                    header: old(self)@.fresh_label(0),
                    stack_height: old(self)@.height() as u32,
                },
                seq![Label::Resolved(InstructionIdx(old(self)@.code.insts.len() as u32))],
            ),
            !old(self)@.reachable ==> final(self)@ == old(self)@.entered(
                ControlFrame::Unreachable {
                    kind: ControlFrameKind::Loop,
                    block_type,
                    stack_height: old(self)@.height() as u32,
                },
                Seq::empty(),
            ),
            r is Ok,
    {
        let stack_height = self.value_stack.len();
        let ghost before = self@;
        if self.is_reachable() {
            let header = self.inst_builder.new_label();
            let ghost mid = self@.code;
            self.inst_builder.resolve_label(header);
            let frame = ControlFrame::Loop { block_type, header, stack_height };
            self.control_frames.push_frame(frame);
            proof {
                let pc = InstructionIdx(before.code.insts.len() as u32);
                assert(self@.code.insts =~= before.code.insts);
                Self::lemma_enter_reachable(before, frame, seq![Label::Resolved(pc)]);
                assert(self@.code.labels =~= before.code.labels + seq![Label::Resolved(pc)]);
                assert(self@.code.uses =~= before.code.uses + Seq::new(1, |_i: int| Seq::<Reloc>::empty()));
            }
        } else {
            let frame = ControlFrame::Unreachable { kind: ControlFrameKind::Loop, block_type, stack_height };
            self.control_frames.push_frame(frame);
            proof {
                Self::lemma_enter_unreachable(before, frame);
                assert(self@.code.labels =~= before.code.labels + Seq::empty());
                assert(self@.code.uses =~= before.code.uses + Seq::new(0, |_i: int| Seq::<Reloc>::empty()));
            }
        }
        Ok(())
    }

    /// Translates a Wasm `if` operator: in reachable code the condition is
    /// popped and a branch to the `else` label is emitted for a zero condition.
    pub fn translate_if(&mut self, block_type: BlockType) -> (r: Result<(), ModuleError>)
        requires
            old(self).wf(),
            old(self)@.frames.len() < u32::MAX,
            old(self)@.res.valid_block_type(block_type),
            old(self)@.reachable ==> old(self)@.can_pop(1) && old(self)@.room(1),
        ensures
            final(self).wf(),
            old(self)@.reachable ==> {
                let entered = old(self)@.with_stack(old(self)@.popped(1)).entered(
                    ControlFrame::If {
                        block_type,
                        end_label: old(self)@.fresh_label(1),
                        else_label: old(self)@.fresh_label(0),
                        stack_height: (old(self)@.height() - 1) as u32,
                    },
                    seq![Label::Unresolved, Label::Unresolved],
                );
                final(self)@ == entered.branch_emitted(
                    old(self)@.fresh_label(0),
                    Instruction::BrIfEqz(
                        Target {
                            dst_pc: InstructionIdx(INVALID_INSTRUCTION_INDEX),
                            drop_keep: DropKeep { drop: 0, keep: 0 },
                        },
                    ),
                )
            },
            !old(self)@.reachable ==> final(self)@ == old(self)@.entered(
                ControlFrame::Unreachable {
                    kind: ControlFrameKind::If,
                    block_type,
                    stack_height: old(self)@.height() as u32,
                },
                Seq::empty(),
            ),
            r is Ok,
    {
        if self.is_reachable() {
            self.translate_op(1, None, None);
            assert(old(self)@.popped(1) + Seq::empty() =~= old(self)@.popped(1));
            let ghost before = self@;
            let stack_height = self.value_stack.len();
            let else_label = self.inst_builder.new_label();
            let end_label = self.inst_builder.new_label();
            let frame = ControlFrame::If { block_type, end_label, else_label, stack_height };
            self.control_frames.push_frame(frame);
            proof {
                let labels = seq![Label::Unresolved, Label::Unresolved];
                Self::lemma_enter_reachable(before, frame, labels);
                assert(self@.code.labels =~= before.code.labels + labels);
                assert(self@.code.uses =~= before.code.uses + Seq::new(2, |_i: int| Seq::<Reloc>::empty()));
            }
            self.emit_branch(else_label, BranchKind::BrIfEqz, DropKeep::new(0, 0));
        } else {
            let stack_height = self.value_stack.len();
            let ghost before = self@;
            let frame = ControlFrame::Unreachable { kind: ControlFrameKind::If, block_type, stack_height };
            self.control_frames.push_frame(frame);
            proof {
                Self::lemma_enter_unreachable(before, frame);
                assert(self@.code.labels =~= before.code.labels + Seq::empty());
                assert(self@.code.uses =~= before.code.uses + Seq::new(0, |_i: int| Seq::<Reloc>::empty()));
            }
        }
        Ok(())
    }

    /// Resolving a label that no enclosing region ends at keeps the invariant.
    proof fn lemma_resolve_wf(v: FunctionBuilderView, label: LabelIdx)
        requires
            v.wf(),
            v.code.has_label(label),
            v.code.labels[label.0 as int] is Unresolved,
            forall|i: int| 0 <= i < v.frames.len() ==> end_label_of(#[trigger] v.frames[i]) != Some(label),
        ensures
            (FunctionBuilderView { code: v.code.resolved(label), ..v }).wf(),
    {
        let w = FunctionBuilderView { code: v.code.resolved(label), ..v };
        assert(v.code.resolve_post(label, w.code));
        lemma_resolve_keeps_fit(v.code, label, w.code);
        assert forall|i: int|
            #![trigger w.frames[i]]
            0 <= i < w.frames.len() && end_label_of(w.frames[i]) is Some implies w.code.labels[label_index(
                end_label_of(w.frames[i]),
            )] is Unresolved by {
            assert(end_label_of(v.frames[i]) != Some(label));
        }
        assert forall|l: int|
            0 <= l < w.code.labels.len() && (#[trigger] w.code.labels[l]) is Unresolved implies exists|i: int|
            0 <= i < w.frames.len() && holds_label(#[trigger] w.frames[i], l) by {
            assert(v.code.labels[l] is Unresolved);
        }
    }

    /// Translates a Wasm `else` operator.
    pub fn translate_else(&mut self) -> (r: Result<(), ModuleError>)
        requires
            old(self).wf(),
            old(self)@.else_allowed(),
        ensures
            final(self).wf(),
            final(self)@ == old(self)@.else_done(),
            r is Ok,
    {
        let frame = *self.control_frames.last();
        proof {
            let v = self@;
            let n = v.frames.len() as int;
            if v.reachable {
                assert(!(v.frames[n - 1] is Unreachable));
            }
        }
        match frame {
            ControlFrame::If { end_label, else_label, .. } => {
                let ghost v = self@;
                let ghost n = v.frames.len() as int;
                proof {
                    assert(v.frames[n - 1] == frame);
                    assert forall|i: int| 0 <= i < n implies end_label_of(#[trigger] v.frames[i]) != Some(else_label) by {
                        if i < n - 1 && end_label_of(v.frames[i]) is Some {
                            assert(max_label(v.frames[i]) < min_label(v.frames[n - 1]));
                        }
                    }
                }
                if self.is_reachable() {
                    proof {
                        assert(end_label_of(v.frames[n - 1]) is Some);
                    }
                    self.emit_branch(end_label, BranchKind::Br, DropKeep::new(0, 0));
                    let ghost mid = self@;
                    proof {
                        assert(mid.frames == v.frames);
                        assert(mid.code.labels[else_label.0 as int] == v.code.labels[else_label.0 as int]);
                        Self::lemma_resolve_wf(mid, else_label);
                    }
                    self.inst_builder.resolve_label(else_label);
                } else {
                    proof {
                        Self::lemma_resolve_wf(v, else_label);
                    }
                    self.inst_builder.resolve_label(else_label);
                    self.reachable = true;
                }
            },
            _ => {},
        }
        Ok(())
    }

    /// Leaving the innermost region keeps the invariant.
    proof fn lemma_end_wf(v: FunctionBuilderView)
        requires
            v.wf(),
            v.frames.len() > 0,
        ensures
            v.ended().wf(),
    {
        let w = v.ended();
        let n = v.frames.len() as int;
        let f = v.frames[n - 1];
        let c0 = v.code;
        let c1 = if f is If && c0.labels[f->else_label.0 as int] is Unresolved {
            c0.resolved(f->else_label)
        } else {
            c0
        };
        let c2 = match end_label_of(f) {
            Some(l) => c1.resolved(l),
            None => c1,
        };
        if !(f is Unreachable) {
            assert(min_label(f) <= max_label(f) && max_label(f) < c0.labels.len());
        }
        if f is If && c0.labels[f->else_label.0 as int] is Unresolved {
            assert(c0.resolve_post(f->else_label, c1));
            lemma_resolve_keeps_fit(c0, f->else_label, c1);
        }
        if end_label_of(f) is Some {
            assert(c1.resolve_post(end_label_of(f)->0, c2));
            lemma_resolve_keeps_fit(c1, end_label_of(f)->0, c2);
        }
        if v.reachable && n == 1 {
            lemma_push_keeps_fit(c2, Instruction::Return(v.return_drop_keep()), w.code);
        }
        assert(w.code.labels == c2.labels);
        // Resolution only turns labels into resolved ones, and only those of `f`.
        assert forall|l: int| 0 <= l < c2.labels.len() implies (#[trigger] c2.labels[l] is Unresolved) == (c0.labels[l] is Unresolved
            && !holds_label(f, l)) by {
            if f is Loop {
                assert(c0.labels[min_label(f)] is Resolved);
            }
        }
        assert forall|i: int| 0 <= i < n - 1 implies #[trigger] v.frames[i].stack_height_spec() <= f.stack_height_spec() by {
            assert(v.frames[i].stack_height_spec() <= v.frames[n - 1].stack_height_spec());
        }
        if n >= 2 {
            assert(w.frames.last() == v.frames[n - 2]);
            if !(f is Unreachable) && v.frames[n - 2] is Unreachable {
                assert(v.frames[n - 1] is Unreachable);
            }
        }
        assert forall|i: int|
            #![trigger w.frames[i]]
            0 <= i < w.frames.len() && end_label_of(w.frames[i]) is Some implies w.code.labels[label_index(
                end_label_of(w.frames[i]),
            )] is Unresolved by {
            assert(w.frames[i] == v.frames[i]);
            let e = label_index(end_label_of(v.frames[i]));
            assert(c0.labels[e] is Unresolved);
            if !(f is Unreachable) {
                assert(max_label(v.frames[i]) < min_label(v.frames[n - 1]));
            }
        }
        assert forall|l: int|
            0 <= l < w.code.labels.len() && (#[trigger] w.code.labels[l]) is Unresolved implies exists|i: int|
            0 <= i < w.frames.len() && holds_label(#[trigger] w.frames[i], l) by {
            assert(c0.labels[l] is Unresolved);
            let i = choose|i: int| 0 <= i < v.frames.len() && holds_label(#[trigger] v.frames[i], l);
            assert(i != n - 1);
            assert(w.frames[i] == v.frames[i]);
        }
        assert forall|i: int|
            0 <= i < w.frames.len() && (#[trigger] w.frames[i]) is Loop implies w.code.labels[min_label(w.frames[i])] is Resolved by {
            assert(w.frames[i] == v.frames[i]);
        }
    }

    /// The stack adjustment of the return that ends the function body: that
    /// of [`FunctionBuilder::drop_keep_return`], where the values on the
    /// stack may be exactly the results.
    fn epilogue_drop_keep(&self) -> (r: DropKeep)
        requires
            self.wf(),
            self@.reachable,
            self@.frames.len() == 1,
            self@.end_allowed(),
        ensures
            r == self@.return_drop_keep(),
    {
        let frame = self.control_frames.nth_back(0);
        let keep = match frame.kind() {
            ControlFrameKind::Block | ControlFrameKind::If => self.res.block_results_len(frame.block_type()),
            ControlFrameKind::Loop => self.res.block_params_len(frame.block_type()),
        };
        let drop = self.value_stack.len() - frame.stack_height() - keep;
        let len_locals = self.locals.len_registered();
        let len_params = self.res.get_type_of_func(self.func).params().len() as u32;
        DropKeep::new(drop + len_locals + len_params, keep)
    }

    /// Translates a Wasm `end` operator.
    pub fn translate_end(&mut self) -> (r: Result<(), ModuleError>)
        requires
            old(self).wf(),
            old(self)@.end_allowed(),
        ensures
            final(self).wf(),
            final(self)@ == old(self)@.ended(),
            r is Ok,
    {
        let ghost v = self@;
        proof {
            Self::lemma_end_wf(v);
        }
        let epilogue = if self.reachable && self.control_frames.len() == 1 {
            Some(self.epilogue_drop_keep())
        } else {
            None
        };
        let frame = self.control_frames.pop_frame();
        proof {
            let n = v.frames.len() as int;
            if !(frame is Unreachable) {
                assert(min_label(frame) <= max_label(frame) && max_label(frame) < v.code.labels.len());
            }
            if end_label_of(frame) is Some {
                assert(v.code.labels[label_index(end_label_of(v.frames[n - 1]))] is Unresolved);
            }
        }
        if let ControlFrame::If { else_label, .. } = frame {
            self.inst_builder.resolve_label_if_unresolved(else_label);
        }
        match frame {
            ControlFrame::Block { end_label, .. } => self.inst_builder.resolve_label(end_label),
            ControlFrame::If { end_label, .. } => self.inst_builder.resolve_label(end_label),
            _ => {},
        }
        if self.reachable {
            if self.control_frames.is_empty() {
                match epilogue {
                    Some(drop_keep) => {
                        self.inst_builder.push_inst(Instruction::Return(drop_keep));
                    },
                    None => {},
                }
            }
        } else {
            self.reachable = frame.is_reachable();
        }
        self.value_stack.shrink_to(frame.stack_height());
        proof {
            assert(self@.code == v.end_code());
            assert(self@ == v.ended());
        }
        Ok(())
    }

    /// Translates a Wasm `br_table` operator: the selector is popped, and a
    /// header with the number of arms is emitted, followed by one target per
    /// arm and the default target last.
    #[verifier::rlimit(40)]
    pub fn translate_br_table(&mut self, default: RelativeDepth, targets: &[RelativeDepth]) -> (r: Result<(), ModuleError>)
        requires
            old(self).wf(),
            old(self)@.br_table_allowed(default, targets@),
        ensures
            final(self).wf(),
            old(self)@.reachable ==> {
                let popped = old(self)@.with_stack(old(self)@.popped(1));
                let header = old(self)@.code.insts.len();
                &&& final(self)@.code.insts == old(self)@.code.insts + seq![
                    Instruction::BrTable { len_targets: targets@.len() as usize },
                ] + Seq::new(
                    (targets@.len() + 1) as nat,
                    |n: int| Instruction::BrTableTarget(popped.target(arm_depth(default, targets@, n))),
                )
                &&& final(self)@.code.labels == old(self)@.code.labels
                &&& forall|n: int|
                    #![trigger arm_depth(default, targets@, n)]
                    0 <= n <= targets@.len() && old(self)@.code.labels[popped.target_label(arm_depth(default, targets@, n)).0 as int] is Unresolved
                        ==> final(self)@.code.uses[popped.target_label(arm_depth(default, targets@, n)).0 as int].contains(
                        Reloc::BrTable { inst_idx: InstructionIdx(header as u32), target_idx: n as usize },
                    )
                &&& final(self)@ == (FunctionBuilderView { code: final(self)@.code, reachable: false, ..popped })
            },
            !old(self)@.reachable ==> final(self)@ == old(self)@,
            r is Ok,
    {
        if !self.reachable {
            return Ok(());
        }
        self.translate_op(1, None, None);
        assert(old(self)@.popped(1) + Seq::empty() =~= old(self)@.popped(1));
        let ghost popped = self@;
        let header = self.inst_builder.current_pc();
        let len_targets = targets.len();
        self.emit(Instruction::BrTable { len_targets });
        let ghost base = popped.code.insts + seq![Instruction::BrTable { len_targets }];
        let mut n: usize = 0;
        while n <= len_targets
            invariant
                self.wf(),
                popped.wf(),
                popped.reachable,
                len_targets == targets@.len(),
                header.0 == popped.code.insts.len(),
                popped.room(targets@.len() + 2int),
                forall|m: int| 0 <= m < targets@.len() ==> popped.branch_allowed((#[trigger] targets@[m]).0 as int),
                popped.branch_allowed(default.0 as int),
                0 <= n <= len_targets + 1,
                self@ == (FunctionBuilderView { code: self@.code, ..popped }),
                self@.code.labels == popped.code.labels,
                base == popped.code.insts + seq![Instruction::BrTable { len_targets }],
                self@.code.insts == base + Seq::new(n as nat, |m: int| Instruction::BrTableTarget(popped.target(arm_depth(default, targets@, m)))),
                forall|m: int|
                    #![trigger arm_depth(default, targets@, m)]
                    0 <= m < n && popped.code.labels[popped.target_label(arm_depth(default, targets@, m)).0 as int] is Unresolved
                        ==> self@.code.uses[popped.target_label(arm_depth(default, targets@, m)).0 as int].contains(
                        Reloc::BrTable { inst_idx: header, target_idx: m as usize },
                    ),
            decreases len_targets + 1 - n,
        {
            let d = if n < len_targets { targets[n] } else { default };
            assert(d.0 == arm_depth(default, targets@, n as int));
            assert(popped.branch_allowed(d.0 as int));
            let (label, drop_keep) = self.acquire_target(d.into_u32());
            proof {
                self.lemma_target_label(d.0 as int);
            }
            let ghost before = self@.code;
            assert(before.insts.len() == popped.code.insts.len() + 1 + n);
            let reloc = Reloc::BrTable { inst_idx: header, target_idx: n };
            let dst_pc = self.inst_builder.try_resolve_label(label, reloc);
            let inst = Instruction::BrTableTarget(Target::new(dst_pc, drop_keep));
            self.inst_builder.push_inst(inst);
            proof {
                lemma_record_and_push_fit(before, label, reloc, inst, self@.code);
                assert(self@.code.insts =~= base + Seq::new(
                    (n + 1) as nat,
                    |m: int| Instruction::BrTableTarget(popped.target(arm_depth(default, targets@, m))),
                ));
                assert forall|m: int|
                    #![trigger arm_depth(default, targets@, m)]
                    0 <= m < n + 1 && popped.code.labels[popped.target_label(arm_depth(default, targets@, m)).0 as int] is Unresolved
                        implies self@.code.uses[popped.target_label(arm_depth(default, targets@, m)).0 as int].contains(
                        Reloc::BrTable { inst_idx: header, target_idx: m as usize },
                    ) by {
                    let l = popped.target_label(arm_depth(default, targets@, m)).0 as int;
                    if m == n {
                        assert(self@.code.uses[l].last() == reloc);
                    } else {
                        let k = choose|k: int| 0 <= k < before.uses[l].len() && before.uses[l][k] == Reloc::BrTable { inst_idx: header, target_idx: m as usize };
                        assert(self@.code.uses[l][k] == before.uses[l][k]);
                    }
                }
            }
            n += 1;
        }
        self.reachable = false;
        Ok(())
    }

    /// The instructions emitted so far.
    pub fn instructions(&self) -> (r: &[Instruction])
        ensures
            r@ == self@.code.insts,
    {
        self.inst_builder.instructions()
    }

    /// The state of a label, if it exists.
    pub fn label(&self, label: LabelIdx) -> (r: Option<Label>)
        requires
            self.wf(),
        ensures
            self@.code.has_label(label) ==> r == Some(self@.code.labels[label.0 as int]),
            !self@.code.has_label(label) ==> r is None,
    {
        if label.0 < self.inst_builder.labels_len() {
            Some(self.inst_builder.label(label))
        } else {
            None
        }
    }

    /// The height of the value stack.
    pub fn stack_height(&self) -> (r: u32)
        requires
            self.wf(),
        ensures
            r == self@.height(),
    {
        self.value_stack.len()
    }

    /// The number of enclosing regions.
    pub fn frames_len(&self) -> (r: usize)
        ensures
            r == self@.frames.len(),
    {
        self.control_frames.len()
    }

    /// Hands out the instructions of a completely translated body: once the
    /// function's block has ended, every label is resolved and no relocation
    /// waits.
    pub fn finish(self) -> (r: Vec<Instruction>)
        requires
            self.wf(),
            self@.frames.len() == 0,
        ensures
            r@ == self@.code.insts,
            forall|l: int| 0 <= l < self@.code.labels.len() ==> (#[trigger] self@.code.labels[l]) is Resolved,
            forall|l: int| 0 <= l < self@.code.uses.len() ==> (#[trigger] self@.code.uses[l]).len() == 0,
    {
        proof {
            let v = self@;
            assert forall|l: int| 0 <= l < v.code.labels.len() implies (#[trigger] v.code.labels[l]) is Resolved by {
                if v.code.labels[l] is Unresolved {
                    let i = choose|i: int| 0 <= i < v.frames.len() && holds_label(#[trigger] v.frames[i], l);
                }
            }
            assert forall|l: int| 0 <= l < v.code.uses.len() implies (#[trigger] v.code.uses[l]).len() == 0 by {
                assert(v.code.labels[l] is Resolved);
            }
        }
        self.inst_builder.finish()
    }

    /// Whether the translated code is reachable.
    pub fn is_reachable(&self) -> (r: bool)
        ensures
            r == self@.reachable,
    {
        self.reachable
    }

    /// The stack adjustment of a branch to the frame at `depth`.
    pub fn compute_drop_keep(&self, depth: u32) -> (r: DropKeep)
        requires
            self.wf(),
            self@.branch_allowed(depth as int),
        ensures
            r == self@.drop_keep(depth as int),
    {
        let frame = self.control_frames.nth_back(depth);
        proof {
            assert(self@.frames[self@.frames.len() - 1 - depth] == *frame);
        }
        let keep = match frame.kind() {
            ControlFrameKind::Block | ControlFrameKind::If => self.res.block_results_len(frame.block_type()),
            ControlFrameKind::Loop => self.res.block_params_len(frame.block_type()),
        };
        let drop = if !self.is_reachable() {
            0
        } else {
            let current_height = self.value_stack.len();
            let origin_height = frame.stack_height();
            let height_diff = current_height - origin_height;
            height_diff - keep
        };
        DropKeep::new(drop, keep)
    }

    /// The stack adjustment of a return from the function.
    pub fn drop_keep_return(&self) -> (r: DropKeep)
        requires
            self.wf(),
            self@.frames.len() > 0,
            self@.return_allowed(),
        ensures
            r == self@.return_drop_keep(),
    {
        let max_depth = (self.control_frames.len() - 1) as u32;
        let drop_keep = self.compute_drop_keep(max_depth);
        let len_locals = self.locals.len_registered();
        let len_params = self.res.get_type_of_func(self.func).params().len() as u32;
        DropKeep::new(drop_keep.drop() + len_locals + len_params, drop_keep.keep())
    }

    /// The depth of local `local_idx` below the top of the value stack.
    pub fn relative_local_depth(&self, local_idx: u32) -> (r: u32)
        requires
            self.wf(),
            self@.height() + self@.params().len() + self@.locals.len() <= u32::MAX,
            local_idx <= self@.height() + self@.params().len() + self@.locals.len(),
        ensures
            r == self@.height() + self@.params().len() + self@.locals.len() - local_idx,
    {
        let stack_height = self.value_stack.len();
        let len_locals = self.locals.len_registered();
        let len_params = self.res.get_type_of_func(self.func).params().len() as u32;
        stack_height + len_params + len_locals - local_idx
    }

    /// The label that a branch to the frame at `depth` goes to, with the
    /// branch's stack adjustment.
    pub fn acquire_target(&self, depth: u32) -> (r: (LabelIdx, DropKeep))
        requires
            self.wf(),
            self@.reachable,
            self@.branch_allowed(depth as int),
        ensures
            r.0 == self@.frame(depth as int).branch_destination_spec(),
            r.1 == self@.drop_keep(depth as int),
    {
        let frame = self.control_frames.nth_back(depth);
        proof {
            let n = self@.frames.len() as int;
            let i = n - 1 - depth;
            if i < n - 1 {
                if self@.frames[i] is Unreachable {
                    assert(self@.frames[n - 1] is Unreachable);
                }
            }
        }
        let label = frame.branch_destination();
        let drop_keep = self.compute_drop_keep(depth);
        (label, drop_keep)
    }
}

impl<'parser> FunctionBuilder<'parser> {
    /// Translates a load of a value of type `loaded_type`.
    fn translate_load(&mut self, loaded_type: ValueType, inst: Instruction) -> (r: Result<(), ModuleError>)
        requires
            old(self).wf(),
            old(self)@.op_allowed(1, 1),
        ensures
            final(self).wf(),
            final(self)@ == old(self)@.op(1, seq![loaded_type], inst),
            r is Ok,
    {
        self.translate_op(1, Some(loaded_type), Some(inst));
        Ok(())
    }

    /// Translates a store of a value of type `stored_type`.
    fn translate_store(&mut self, stored_type: ValueType, inst: Instruction) -> (r: Result<(), ModuleError>)
        requires
            old(self).wf(),
            old(self)@.store_allowed(stored_type),
        ensures
            final(self).wf(),
            final(self)@ == old(self)@.op(2, Seq::empty(), inst),
            r is Ok,
    {
        self.translate_op(2, None, Some(inst));
        Ok(())
    }

    /// Translates a test of one operand that yields an `i32`.
    fn translate_unary_cmp(&mut self, inst: Instruction) -> (r: Result<(), ModuleError>)
        requires
            old(self).wf(),
            old(self)@.op_allowed(1, 1),
        ensures
            final(self).wf(),
            final(self)@ == old(self)@.op(1, seq![ValueType::I32], inst),
            r is Ok,
    {
        self.translate_op(1, Some(ValueType::I32), Some(inst));
        Ok(())
    }

    /// Translates a comparison of two operands that yields an `i32`.
    fn translate_binary_cmp(&mut self, inst: Instruction) -> (r: Result<(), ModuleError>)
        requires
            old(self).wf(),
            old(self)@.op_allowed(2, 1),
        ensures
            final(self).wf(),
            final(self)@ == old(self)@.op(2, seq![ValueType::I32], inst),
            r is Ok,
    {
        self.translate_op(2, Some(ValueType::I32), Some(inst));
        Ok(())
    }

    /// Translates a constant of the given type, given by its bit pattern.
    fn translate_const(&mut self, value_type: ValueType, bits: u64) -> (r: Result<(), ModuleError>)
        requires
            old(self).wf(),
            old(self)@.op_allowed(0, 1),
        ensures
            final(self).wf(),
            final(self)@ == old(self)@.op(0, seq![value_type], Instruction::Const(bits)),
            r is Ok,
    {
        self.translate_op(0, Some(value_type), Some(Instruction::Const(bits)));
        Ok(())
    }

    /// Translates a Wasm `i32.const` instruction.
    pub fn translate_i32_const(&mut self, value: i32) -> (r: Result<(), ModuleError>)
        requires
            old(self).wf(),
            old(self)@.op_allowed(0, 1),
        ensures
            final(self).wf(),
            final(self)@ == old(self)@.op(0, seq![ValueType::I32], Instruction::Const(value as u32 as u64)),
            r is Ok,
    {
        self.translate_const(ValueType::I32, value as u32 as u64)
    }

    /// Translates a Wasm `i64.const` instruction.
    pub fn translate_i64_const(&mut self, value: i64) -> (r: Result<(), ModuleError>)
        requires
            old(self).wf(),
            old(self)@.op_allowed(0, 1),
        ensures
            final(self).wf(),
            final(self)@ == old(self)@.op(0, seq![ValueType::I64], Instruction::Const(value as u64)),
            r is Ok,
    {
        self.translate_const(ValueType::I64, value as u64)
    }

    /// Translates a Wasm `f32.const` instruction.
    pub fn translate_f32_const(&mut self, value: F32) -> (r: Result<(), ModuleError>)
        requires
            old(self).wf(),
            old(self)@.op_allowed(0, 1),
        ensures
            final(self).wf(),
            final(self)@ == old(self)@.op(0, seq![ValueType::F32], Instruction::Const(value.bits as u64)),
            r is Ok,
    {
        self.translate_const(ValueType::F32, value.to_bits() as u64)
    }

    /// Translates a Wasm `f64.const` instruction.
    pub fn translate_f64_const(&mut self, value: F64) -> (r: Result<(), ModuleError>)
        requires
            old(self).wf(),
            old(self)@.op_allowed(0, 1),
        ensures
            final(self).wf(),
            final(self)@ == old(self)@.op(0, seq![ValueType::F64], Instruction::Const(value.bits)),
            r is Ok,
    {
        self.translate_const(ValueType::F64, value.to_bits())
    }

    /// Translates a Wasm `call` instruction.
    pub fn translate_call(&mut self, func_idx: FuncIdx) -> (r: Result<(), ModuleError>)
        requires
            old(self).wf(),
            old(self)@.op_allowed(0, 0),
        ensures
            final(self).wf(),
            final(self)@ == old(self)@.op(0, Seq::empty(), Instruction::Call(func_idx.0)),
            r is Ok,
    {
        self.translate_op(0, None, Some(Instruction::Call(func_idx.into_u32())));
        Ok(())
    }

    /// Translates a Wasm `call_indirect` instruction through the default table.
    pub fn translate_call_indirect(&mut self, func_type_idx: FuncTypeIdx, table_idx: TableIdx) -> (r: Result<(), ModuleError>)
        requires
            old(self).wf(),
            old(self)@.op_allowed(1, 0),
            old(self)@.reachable ==> table_idx.0 == DEFAULT_TABLE_INDEX,
        ensures
            final(self).wf(),
            final(self)@ == old(self)@.op(1, Seq::empty(), Instruction::CallIndirect(func_type_idx.0)),
            r is Ok,
    {
        self.translate_op(1, None, Some(Instruction::CallIndirect(func_type_idx.into_u32())));
        Ok(())
    }

    /// Translates a Wasm `drop` instruction: the value leaves the type stack,
    /// and no instruction is emitted.
    pub fn translate_drop(&mut self) -> (r: Result<(), ModuleError>)
        requires
            old(self).wf(),
            old(self)@.op_allowed(1, 0),
        ensures
            final(self).wf(),
            final(self)@ == old(self)@.op_opt(1, Seq::empty(), None),
            r is Ok,
    {
        self.translate_op(1, None, None);
        Ok(())
    }

    /// Translates a Wasm `select` instruction.
    pub fn translate_select(&mut self) -> (r: Result<(), ModuleError>)
        requires
            old(self).wf(),
            old(self)@.op_allowed(3, 1),
        ensures
            final(self).wf(),
            final(self)@ == old(self)@.op(3, seq![old(self)@.stack[old(self)@.height() - 3]], Instruction::Select),
            r is Ok,
    {
        if self.reachable {
            let (v0, _v1, _selector) = self.value_stack.pop3();
            self.value_stack.push(v0);
            assert(self@.stack =~= old(self)@.popped(3) + seq![v0]);
            self.emit(Instruction::Select);
        }
        Ok(())
    }

    /// Translates a Wasm `local.get` instruction.
    pub fn translate_local_get(&mut self, local_idx: u32) -> (r: Result<(), ModuleError>)
        requires
            old(self).wf(),
            old(self)@.op_allowed(0, 1),
            old(self)@.reachable ==> old(self)@.local_allowed(local_idx as int),
        ensures
            final(self).wf(),
            final(self)@ == old(self)@.op(
                0,
                seq![old(self)@.locals[local_idx as int]],
                Instruction::GetLocal { local_depth: old(self)@.local_depth(local_idx as int) },
            ),
            r is Ok,
    {
        if self.reachable {
            let local_depth = self.relative_local_depth(local_idx);
            self.emit(Instruction::GetLocal { local_depth });
            let value_type = match self.locals.resolve_local(local_idx) {
                Some(value_type) => value_type,
                None => ValueType::I32,
            };
            self.value_stack.push(value_type);
            assert(self@.stack =~= old(self)@.popped(0) + seq![value_type]);
        }
        Ok(())
    }

    /// Translates a Wasm `local.set` instruction.
    pub fn translate_local_set(&mut self, local_idx: u32) -> (r: Result<(), ModuleError>)
        requires
            old(self).wf(),
            old(self)@.op_allowed(1, 0),
            old(self)@.reachable ==> old(self)@.local_allowed(local_idx as int),
        ensures
            final(self).wf(),
            final(self)@ == old(self)@.op(
                1,
                Seq::empty(),
                Instruction::SetLocal { local_depth: old(self)@.local_depth(local_idx as int) },
            ),
            r is Ok,
    {
        if self.reachable {
            let local_depth = self.relative_local_depth(local_idx);
            self.emit(Instruction::SetLocal { local_depth });
            self.value_stack.pop1();
            assert(self@.stack =~= old(self)@.popped(1) + Seq::empty());
        }
        Ok(())
    }

    /// Translates a Wasm `local.tee` instruction.
    pub fn translate_local_tee(&mut self, local_idx: u32) -> (r: Result<(), ModuleError>)
        requires
            old(self).wf(),
            old(self)@.op_allowed(0, 0),
            old(self)@.reachable ==> old(self)@.local_allowed(local_idx as int),
        ensures
            final(self).wf(),
            final(self)@ == old(self)@.op(
                0,
                Seq::empty(),
                Instruction::TeeLocal { local_depth: old(self)@.local_depth(local_idx as int) },
            ),
            r is Ok,
    {
        if self.reachable {
            let local_depth = self.relative_local_depth(local_idx);
            assert(old(self)@.stack =~= old(self)@.popped(0) + Seq::empty());
            self.emit(Instruction::TeeLocal { local_depth });
        }
        Ok(())
    }

    /// Translates a Wasm `global.get` instruction.
    pub fn translate_global_get(&mut self, global_idx: GlobalIdx) -> (r: Result<(), ModuleError>)
        requires
            old(self).wf(),
            old(self)@.op_allowed(0, 1),
            old(self)@.reachable ==> global_idx.0 < old(self)@.res.globals_spec().len(),
        ensures
            final(self).wf(),
            final(self)@ == old(self)@.op(
                0,
                seq![old(self)@.res.globals_spec()[global_idx.0 as int].value_type],
                Instruction::GetGlobal(global_idx.0),
            ),
            r is Ok,
    {
        if self.reachable {
            let global_type = self.res.get_type_of_global(global_idx);
            self.translate_op(0, Some(global_type.value_type()), Some(Instruction::GetGlobal(global_idx.into_u32())));
        }
        Ok(())
    }

    /// Translates a Wasm `global.set` instruction.
    pub fn translate_global_set(&mut self, global_idx: GlobalIdx) -> (r: Result<(), ModuleError>)
        requires
            old(self).wf(),
            old(self)@.op_allowed(1, 0),
            old(self)@.reachable ==> global_idx.0 < old(self)@.res.globals_spec().len(),
        ensures
            final(self).wf(),
            final(self)@ == old(self)@.op(1, Seq::empty(), Instruction::SetGlobal(global_idx.0)),
            r is Ok,
    {
        self.translate_op(1, None, Some(Instruction::SetGlobal(global_idx.into_u32())));
        Ok(())
    }

    /// Translates a Wasm `memory.size` instruction.
    pub fn translate_memory_size(&mut self, memory_idx: MemoryIdx) -> (r: Result<(), ModuleError>)
        requires
            old(self).wf(),
            old(self)@.reachable ==> memory_idx.0 == DEFAULT_MEMORY_INDEX,
            old(self)@.op_allowed(0, 1),
        ensures
            final(self).wf(),
            final(self)@ == old(self)@.op(0, seq![ValueType::I32], Instruction::CurrentMemory),
            r is Ok,
    {
        self.translate_op(0, Some(ValueType::I32), Some(Instruction::CurrentMemory));
        Ok(())
    }

    /// Translates a Wasm `memory.grow` instruction: the page count on top of
    /// the stack is replaced by the previous size, both `i32`.
    pub fn translate_memory_grow(&mut self, memory_idx: MemoryIdx) -> (r: Result<(), ModuleError>)
        requires
            old(self).wf(),
            old(self)@.reachable ==> memory_idx.0 == DEFAULT_MEMORY_INDEX,
            old(self)@.op_allowed(0, 0),
        ensures
            final(self).wf(),
            final(self)@ == old(self)@.op(0, Seq::empty(), Instruction::GrowMemory),
            r is Ok,
    {
        self.translate_op(0, None, Some(Instruction::GrowMemory));
        Ok(())
    }

    /// Translates a Wasm `i32.eqz` instruction.
    pub fn translate_i32_eqz(&mut self) -> (r: Result<(), ModuleError>)
        requires
            old(self).wf(),
            old(self)@.op_allowed(1, 1),
        ensures
            final(self).wf(),
            final(self)@ == old(self)@.op(1, seq![ValueType::I32], Instruction::I32Eqz),
            r is Ok,
    {
        self.translate_unary_cmp(Instruction::I32Eqz)
    }
    /// Translates a Wasm `i64.eqz` instruction.
    pub fn translate_i64_eqz(&mut self) -> (r: Result<(), ModuleError>)
        requires
            old(self).wf(),
            old(self)@.op_allowed(1, 1),
        ensures
            final(self).wf(),
            final(self)@ == old(self)@.op(1, seq![ValueType::I32], Instruction::I64Eqz),
            r is Ok,
    {
        self.translate_unary_cmp(Instruction::I64Eqz)
    }
    /// Translates a Wasm `i32.eq` instruction.
    pub fn translate_i32_eq(&mut self) -> (r: Result<(), ModuleError>)
        requires
            old(self).wf(),
            old(self)@.op_allowed(2, 1),
        ensures
            final(self).wf(),
            final(self)@ == old(self)@.op(2, seq![ValueType::I32], Instruction::I32Eq),
            r is Ok,
    {
        self.translate_binary_cmp(Instruction::I32Eq)
    }
    /// Translates a Wasm `i32.ne` instruction.
    pub fn translate_i32_ne(&mut self) -> (r: Result<(), ModuleError>)
        requires
            old(self).wf(),
            old(self)@.op_allowed(2, 1),
        ensures
            final(self).wf(),
            final(self)@ == old(self)@.op(2, seq![ValueType::I32], Instruction::I32Ne),
            r is Ok,
    {
        self.translate_binary_cmp(Instruction::I32Ne)
    }
    /// Translates a Wasm `i32.lt_s` instruction.
    pub fn translate_i32_lt(&mut self) -> (r: Result<(), ModuleError>)
        requires
            old(self).wf(),
            old(self)@.op_allowed(2, 1),
        ensures
            final(self).wf(),
            final(self)@ == old(self)@.op(2, seq![ValueType::I32], Instruction::I32LtS),
            r is Ok,
    {
        self.translate_binary_cmp(Instruction::I32LtS)
    }
    /// Translates a Wasm `i32.lt_u` instruction.
    pub fn translate_u32_lt(&mut self) -> (r: Result<(), ModuleError>)
        requires
            old(self).wf(),
            old(self)@.op_allowed(2, 1),
        ensures
            final(self).wf(),
            final(self)@ == old(self)@.op(2, seq![ValueType::I32], Instruction::I32LtU),
            r is Ok,
    {
        self.translate_binary_cmp(Instruction::I32LtU)
    }
    /// Translates a Wasm `i32.gt_s` instruction.
    pub fn translate_i32_gt(&mut self) -> (r: Result<(), ModuleError>)
        requires
            old(self).wf(),
            old(self)@.op_allowed(2, 1),
        ensures
            final(self).wf(),
            final(self)@ == old(self)@.op(2, seq![ValueType::I32], Instruction::I32GtS),
            r is Ok,
    {
        self.translate_binary_cmp(Instruction::I32GtS)
    }
    /// Translates a Wasm `i32.gt_u` instruction.
    pub fn translate_u32_gt(&mut self) -> (r: Result<(), ModuleError>)
        requires
            old(self).wf(),
            old(self)@.op_allowed(2, 1),
        ensures
            final(self).wf(),
            final(self)@ == old(self)@.op(2, seq![ValueType::I32], Instruction::I32GtU),
            r is Ok,
    {
        self.translate_binary_cmp(Instruction::I32GtU)
    }
    /// Translates a Wasm `i32.le_s` instruction.
    pub fn translate_i32_le(&mut self) -> (r: Result<(), ModuleError>)
        requires
            old(self).wf(),
            old(self)@.op_allowed(2, 1),
        ensures
            final(self).wf(),
            final(self)@ == old(self)@.op(2, seq![ValueType::I32], Instruction::I32LeS),
            r is Ok,
    {
        self.translate_binary_cmp(Instruction::I32LeS)
    }
    /// Translates a Wasm `i32.le_u` instruction.
    pub fn translate_u32_le(&mut self) -> (r: Result<(), ModuleError>)
        requires
            old(self).wf(),
            old(self)@.op_allowed(2, 1),
        ensures
            final(self).wf(),
            final(self)@ == old(self)@.op(2, seq![ValueType::I32], Instruction::I32LeU),
            r is Ok,
    {
        self.translate_binary_cmp(Instruction::I32LeU)
    }
    /// Translates a Wasm `i32.ge_s` instruction.
    pub fn translate_i32_ge(&mut self) -> (r: Result<(), ModuleError>)
        requires
            old(self).wf(),
            old(self)@.op_allowed(2, 1),
        ensures
            final(self).wf(),
            final(self)@ == old(self)@.op(2, seq![ValueType::I32], Instruction::I32GeS),
            r is Ok,
    {
        self.translate_binary_cmp(Instruction::I32GeS)
    }
    /// Translates a Wasm `i32.ge_u` instruction.
    pub fn translate_u32_ge(&mut self) -> (r: Result<(), ModuleError>)
        requires
            old(self).wf(),
            old(self)@.op_allowed(2, 1),
        ensures
            final(self).wf(),
            final(self)@ == old(self)@.op(2, seq![ValueType::I32], Instruction::I32GeU),
            r is Ok,
    {
        self.translate_binary_cmp(Instruction::I32GeU)
    }
    /// Translates a Wasm `i64.eq` instruction.
    pub fn translate_i64_eq(&mut self) -> (r: Result<(), ModuleError>)
        requires
            old(self).wf(),
            old(self)@.op_allowed(2, 1),
        ensures
            final(self).wf(),
            final(self)@ == old(self)@.op(2, seq![ValueType::I32], Instruction::I64Eq),
            r is Ok,
    {
        self.translate_binary_cmp(Instruction::I64Eq)
    }
    /// Translates a Wasm `i64.ne` instruction.
    pub fn translate_i64_ne(&mut self) -> (r: Result<(), ModuleError>)
        requires
            old(self).wf(),
            old(self)@.op_allowed(2, 1),
        ensures
            final(self).wf(),
            final(self)@ == old(self)@.op(2, seq![ValueType::I32], Instruction::I64Ne),
            r is Ok,
    {
        self.translate_binary_cmp(Instruction::I64Ne)
    }
    /// Translates a Wasm `i64.lt_s` instruction.
    pub fn translate_i64_lt(&mut self) -> (r: Result<(), ModuleError>)
        requires
            old(self).wf(),
            old(self)@.op_allowed(2, 1),
        ensures
            final(self).wf(),
            final(self)@ == old(self)@.op(2, seq![ValueType::I32], Instruction::I64LtS),
            r is Ok,
    {
        self.translate_binary_cmp(Instruction::I64LtS)
    }
    /// Translates a Wasm `i64.lt_u` instruction.
    pub fn translate_u64_lt(&mut self) -> (r: Result<(), ModuleError>)
        requires
            old(self).wf(),
            old(self)@.op_allowed(2, 1),
        ensures
            final(self).wf(),
            final(self)@ == old(self)@.op(2, seq![ValueType::I32], Instruction::I64LtU),
            r is Ok,
    {
        self.translate_binary_cmp(Instruction::I64LtU)
    }
    /// Translates a Wasm `i64.gt_s` instruction.
    pub fn translate_i64_gt(&mut self) -> (r: Result<(), ModuleError>)
        requires
            old(self).wf(),
            old(self)@.op_allowed(2, 1),
        ensures
            final(self).wf(),
            final(self)@ == old(self)@.op(2, seq![ValueType::I32], Instruction::I64GtS),
            r is Ok,
    {
        self.translate_binary_cmp(Instruction::I64GtS)
    }
    /// Translates a Wasm `i64.gt_u` instruction.
    pub fn translate_u64_gt(&mut self) -> (r: Result<(), ModuleError>)
        requires
            old(self).wf(),
            old(self)@.op_allowed(2, 1),
        ensures
            final(self).wf(),
            final(self)@ == old(self)@.op(2, seq![ValueType::I32], Instruction::I64GtU),
            r is Ok,
    {
        self.translate_binary_cmp(Instruction::I64GtU)
    }
    /// Translates a Wasm `i64.le_s` instruction.
    pub fn translate_i64_le(&mut self) -> (r: Result<(), ModuleError>)
        requires
            old(self).wf(),
            old(self)@.op_allowed(2, 1),
        ensures
            final(self).wf(),
            final(self)@ == old(self)@.op(2, seq![ValueType::I32], Instruction::I64LeS),
            r is Ok,
    {
        self.translate_binary_cmp(Instruction::I64LeS)
    }
    /// Translates a Wasm `i64.le_u` instruction.
    pub fn translate_u64_le(&mut self) -> (r: Result<(), ModuleError>)
        requires
            old(self).wf(),
            old(self)@.op_allowed(2, 1),
        ensures
            final(self).wf(),
            final(self)@ == old(self)@.op(2, seq![ValueType::I32], Instruction::I64LeU),
            r is Ok,
    {
        self.translate_binary_cmp(Instruction::I64LeU)
    }
    /// Translates a Wasm `i64.ge_s` instruction.
    pub fn translate_i64_ge(&mut self) -> (r: Result<(), ModuleError>)
        requires
            old(self).wf(),
            old(self)@.op_allowed(2, 1),
        ensures
            final(self).wf(),
            final(self)@ == old(self)@.op(2, seq![ValueType::I32], Instruction::I64GeS),
            r is Ok,
    {
        self.translate_binary_cmp(Instruction::I64GeS)
    }
    /// Translates a Wasm `i64.ge_u` instruction.
    pub fn translate_u64_ge(&mut self) -> (r: Result<(), ModuleError>)
        requires
            old(self).wf(),
            old(self)@.op_allowed(2, 1),
        ensures
            final(self).wf(),
            final(self)@ == old(self)@.op(2, seq![ValueType::I32], Instruction::I64GeU),
            r is Ok,
    {
        self.translate_binary_cmp(Instruction::I64GeU)
    }
    /// Translates a Wasm `f32.eq` instruction.
    pub fn translate_f32_eq(&mut self) -> (r: Result<(), ModuleError>)
        requires
            old(self).wf(),
            old(self)@.op_allowed(2, 1),
        ensures
            final(self).wf(),
            final(self)@ == old(self)@.op(2, seq![ValueType::I32], Instruction::F32Eq),
            r is Ok,
    {
        self.translate_binary_cmp(Instruction::F32Eq)
    }
    /// Translates a Wasm `f32.ne` instruction.
    pub fn translate_f32_ne(&mut self) -> (r: Result<(), ModuleError>)
        requires
            old(self).wf(),
            old(self)@.op_allowed(2, 1),
        ensures
            final(self).wf(),
            final(self)@ == old(self)@.op(2, seq![ValueType::I32], Instruction::F32Ne),
            r is Ok,
    {
        self.translate_binary_cmp(Instruction::F32Ne)
    }
    /// Translates a Wasm `f32.lt` instruction.
    pub fn translate_f32_lt(&mut self) -> (r: Result<(), ModuleError>)
        requires
            old(self).wf(),
            old(self)@.op_allowed(2, 1),
        ensures
            final(self).wf(),
            final(self)@ == old(self)@.op(2, seq![ValueType::I32], Instruction::F32Lt),
            r is Ok,
    {
        self.translate_binary_cmp(Instruction::F32Lt)
    }
    /// Translates a Wasm `f32.gt` instruction.
    pub fn translate_f32_gt(&mut self) -> (r: Result<(), ModuleError>)
        requires
            old(self).wf(),
            old(self)@.op_allowed(2, 1),
        ensures
            final(self).wf(),
            final(self)@ == old(self)@.op(2, seq![ValueType::I32], Instruction::F32Gt),
            r is Ok,
    {
        self.translate_binary_cmp(Instruction::F32Gt)
    }
    /// Translates a Wasm `f32.le` instruction.
    pub fn translate_f32_le(&mut self) -> (r: Result<(), ModuleError>)
        requires
            old(self).wf(),
            old(self)@.op_allowed(2, 1),
        ensures
            final(self).wf(),
            final(self)@ == old(self)@.op(2, seq![ValueType::I32], Instruction::F32Le),
            r is Ok,
    {
        self.translate_binary_cmp(Instruction::F32Le)
    }
    /// Translates a Wasm `f32.ge` instruction.
    pub fn translate_f32_ge(&mut self) -> (r: Result<(), ModuleError>)
        requires
            old(self).wf(),
            old(self)@.op_allowed(2, 1),
        ensures
            final(self).wf(),
            final(self)@ == old(self)@.op(2, seq![ValueType::I32], Instruction::F32Ge),
            r is Ok,
    {
        self.translate_binary_cmp(Instruction::F32Ge)
    }
    /// Translates a Wasm `f64.eq` instruction.
    pub fn translate_f64_eq(&mut self) -> (r: Result<(), ModuleError>)
        requires
            old(self).wf(),
            old(self)@.op_allowed(2, 1),
        ensures
            final(self).wf(),
            final(self)@ == old(self)@.op(2, seq![ValueType::I32], Instruction::F64Eq),
            r is Ok,
    {
        self.translate_binary_cmp(Instruction::F64Eq)
    }
    /// Translates a Wasm `f64.ne` instruction.
    pub fn translate_f64_ne(&mut self) -> (r: Result<(), ModuleError>)
        requires
            old(self).wf(),
            old(self)@.op_allowed(2, 1),
        ensures
            final(self).wf(),
            final(self)@ == old(self)@.op(2, seq![ValueType::I32], Instruction::F64Ne),
            r is Ok,
    {
        self.translate_binary_cmp(Instruction::F64Ne)
    }
    /// Translates a Wasm `f64.lt` instruction.
    pub fn translate_f64_lt(&mut self) -> (r: Result<(), ModuleError>)
        requires
            old(self).wf(),
            old(self)@.op_allowed(2, 1),
        ensures
            final(self).wf(),
            final(self)@ == old(self)@.op(2, seq![ValueType::I32], Instruction::F64Lt),
            r is Ok,
    {
        self.translate_binary_cmp(Instruction::F64Lt)
    }
    /// Translates a Wasm `f64.gt` instruction.
    pub fn translate_f64_gt(&mut self) -> (r: Result<(), ModuleError>)
        requires
            old(self).wf(),
            old(self)@.op_allowed(2, 1),
        ensures
            final(self).wf(),
            final(self)@ == old(self)@.op(2, seq![ValueType::I32], Instruction::F64Gt),
            r is Ok,
    {
        self.translate_binary_cmp(Instruction::F64Gt)
    }
    /// Translates a Wasm `f64.le` instruction.
    pub fn translate_f64_le(&mut self) -> (r: Result<(), ModuleError>)
        requires
            old(self).wf(),
            old(self)@.op_allowed(2, 1),
        ensures
            final(self).wf(),
            final(self)@ == old(self)@.op(2, seq![ValueType::I32], Instruction::F64Le),
            r is Ok,
    {
        self.translate_binary_cmp(Instruction::F64Le)
    }
    /// Translates a Wasm `f64.ge` instruction.
    pub fn translate_f64_ge(&mut self) -> (r: Result<(), ModuleError>)
        requires
            old(self).wf(),
            old(self)@.op_allowed(2, 1),
        ensures
            final(self).wf(),
            final(self)@ == old(self)@.op(2, seq![ValueType::I32], Instruction::F64Ge),
            r is Ok,
    {
        self.translate_binary_cmp(Instruction::F64Ge)
    }
    /// Translates a Wasm `i32.clz` instruction.
    pub fn translate_i32_clz(&mut self) -> (r: Result<(), ModuleError>)
        requires
            old(self).wf(),
            old(self)@.op_allowed(1, 1),
        ensures
            final(self).wf(),
            final(self)@ == old(self)@.op(1, seq![ValueType::I32], Instruction::I32Clz),
            r is Ok,
    {
        self.translate_op(1, Some(ValueType::I32), Some(Instruction::I32Clz));
        Ok(())
    }
    /// Translates a Wasm `i32.ctz` instruction.
    pub fn translate_i32_ctz(&mut self) -> (r: Result<(), ModuleError>)
        requires
            old(self).wf(),
            old(self)@.op_allowed(1, 1),
        ensures
            final(self).wf(),
            final(self)@ == old(self)@.op(1, seq![ValueType::I32], Instruction::I32Ctz),
            r is Ok,
    {
        self.translate_op(1, Some(ValueType::I32), Some(Instruction::I32Ctz));
        Ok(())
    }
    /// Translates a Wasm `i32.popcnt` instruction.
    pub fn translate_i32_popcnt(&mut self) -> (r: Result<(), ModuleError>)
        requires
            old(self).wf(),
            old(self)@.op_allowed(1, 1),
        ensures
            final(self).wf(),
            final(self)@ == old(self)@.op(1, seq![ValueType::I32], Instruction::I32Popcnt),
            r is Ok,
    {
        self.translate_op(1, Some(ValueType::I32), Some(Instruction::I32Popcnt));
        Ok(())
    }
    /// Translates a Wasm `i32.add` instruction.
    pub fn translate_i32_add(&mut self) -> (r: Result<(), ModuleError>)
        requires
            old(self).wf(),
            old(self)@.op_allowed(2, 1),
        ensures
            final(self).wf(),
            final(self)@ == old(self)@.op(2, seq![ValueType::I32], Instruction::I32Add),
            r is Ok,
    {
        self.translate_op(2, Some(ValueType::I32), Some(Instruction::I32Add));
        Ok(())
    }
    /// Translates a Wasm `i32.sub` instruction.
    pub fn translate_i32_sub(&mut self) -> (r: Result<(), ModuleError>)
        requires
            old(self).wf(),
            old(self)@.op_allowed(2, 1),
        ensures
            final(self).wf(),
            final(self)@ == old(self)@.op(2, seq![ValueType::I32], Instruction::I32Sub),
            r is Ok,
    {
        self.translate_op(2, Some(ValueType::I32), Some(Instruction::I32Sub));
        Ok(())
    }
    /// Translates a Wasm `i32.mul` instruction.
    pub fn translate_i32_mul(&mut self) -> (r: Result<(), ModuleError>)
        requires
            old(self).wf(),
            old(self)@.op_allowed(2, 1),
        ensures
            final(self).wf(),
            final(self)@ == old(self)@.op(2, seq![ValueType::I32], Instruction::I32Mul),
            r is Ok,
    {
        self.translate_op(2, Some(ValueType::I32), Some(Instruction::I32Mul));
        Ok(())
    }
    /// Translates a Wasm `i32.div_s` instruction.
    pub fn translate_i32_div(&mut self) -> (r: Result<(), ModuleError>)
        requires
            old(self).wf(),
            old(self)@.op_allowed(2, 1),
        ensures
            final(self).wf(),
            final(self)@ == old(self)@.op(2, seq![ValueType::I32], Instruction::I32DivS),
            r is Ok,
    {
        self.translate_op(2, Some(ValueType::I32), Some(Instruction::I32DivS));
        Ok(())
    }
    /// Translates a Wasm `i32.rem_s` instruction.
    pub fn translate_i32_rem(&mut self) -> (r: Result<(), ModuleError>)
        requires
            old(self).wf(),
            old(self)@.op_allowed(2, 1),
        ensures
            final(self).wf(),
            final(self)@ == old(self)@.op(2, seq![ValueType::I32], Instruction::I32RemS),
            r is Ok,
    {
        self.translate_op(2, Some(ValueType::I32), Some(Instruction::I32RemS));
        Ok(())
    }
    /// Translates a Wasm `i32.and` instruction.
    pub fn translate_i32_and(&mut self) -> (r: Result<(), ModuleError>)
        requires
            old(self).wf(),
            old(self)@.op_allowed(2, 1),
        ensures
            final(self).wf(),
            final(self)@ == old(self)@.op(2, seq![ValueType::I32], Instruction::I32And),
            r is Ok,
    {
        self.translate_op(2, Some(ValueType::I32), Some(Instruction::I32And));
        Ok(())
    }
    /// Translates a Wasm `i32.or` instruction.
    pub fn translate_i32_or(&mut self) -> (r: Result<(), ModuleError>)
        requires
            old(self).wf(),
            old(self)@.op_allowed(2, 1),
        ensures
            final(self).wf(),
            final(self)@ == old(self)@.op(2, seq![ValueType::I32], Instruction::I32Or),
            r is Ok,
    {
        self.translate_op(2, Some(ValueType::I32), Some(Instruction::I32Or));
        Ok(())
    }
    /// Translates a Wasm `i32.xor` instruction.
    pub fn translate_i32_xor(&mut self) -> (r: Result<(), ModuleError>)
        requires
            old(self).wf(),
            old(self)@.op_allowed(2, 1),
        ensures
            final(self).wf(),
            final(self)@ == old(self)@.op(2, seq![ValueType::I32], Instruction::I32Xor),
            r is Ok,
    {
        self.translate_op(2, Some(ValueType::I32), Some(Instruction::I32Xor));
        Ok(())
    }
    /// Translates a Wasm `i32.shl` instruction.
    pub fn translate_i32_shl(&mut self) -> (r: Result<(), ModuleError>)
        requires
            old(self).wf(),
            old(self)@.op_allowed(2, 1),
        ensures
            final(self).wf(),
            final(self)@ == old(self)@.op(2, seq![ValueType::I32], Instruction::I32Shl),
            r is Ok,
    {
        self.translate_op(2, Some(ValueType::I32), Some(Instruction::I32Shl));
        Ok(())
    }
    /// Translates a Wasm `i32.shr_s` instruction.
    pub fn translate_i32_shr(&mut self) -> (r: Result<(), ModuleError>)
        requires
            old(self).wf(),
            old(self)@.op_allowed(2, 1),
        ensures
            final(self).wf(),
            final(self)@ == old(self)@.op(2, seq![ValueType::I32], Instruction::I32ShrS),
            r is Ok,
    {
        self.translate_op(2, Some(ValueType::I32), Some(Instruction::I32ShrS));
        Ok(())
    }
    /// Translates a Wasm `i32.rotl` instruction.
    pub fn translate_i32_rotl(&mut self) -> (r: Result<(), ModuleError>)
        requires
            old(self).wf(),
            old(self)@.op_allowed(2, 1),
        ensures
            final(self).wf(),
            final(self)@ == old(self)@.op(2, seq![ValueType::I32], Instruction::I32Rotl),
            r is Ok,
    {
        self.translate_op(2, Some(ValueType::I32), Some(Instruction::I32Rotl));
        Ok(())
    }
    /// Translates a Wasm `i32.rotr` instruction.
    pub fn translate_i32_rotr(&mut self) -> (r: Result<(), ModuleError>)
        requires
            old(self).wf(),
            old(self)@.op_allowed(2, 1),
        ensures
            final(self).wf(),
            final(self)@ == old(self)@.op(2, seq![ValueType::I32], Instruction::I32Rotr),
            r is Ok,
    {
        self.translate_op(2, Some(ValueType::I32), Some(Instruction::I32Rotr));
        Ok(())
    }
    /// Translates a Wasm `i32.div_u` instruction.
    pub fn translate_u32_div(&mut self) -> (r: Result<(), ModuleError>)
        requires
            old(self).wf(),
            old(self)@.op_allowed(2, 1),
        ensures
            final(self).wf(),
            final(self)@ == old(self)@.op(2, seq![ValueType::I32], Instruction::I32DivU),
            r is Ok,
    {
        self.translate_op(2, Some(ValueType::I32), Some(Instruction::I32DivU));
        Ok(())
    }
    /// Translates a Wasm `i32.rem_u` instruction.
    pub fn translate_u32_rem(&mut self) -> (r: Result<(), ModuleError>)
        requires
            old(self).wf(),
            old(self)@.op_allowed(2, 1),
        ensures
            final(self).wf(),
            final(self)@ == old(self)@.op(2, seq![ValueType::I32], Instruction::I32RemU),
            r is Ok,
    {
        self.translate_op(2, Some(ValueType::I32), Some(Instruction::I32RemU));
        Ok(())
    }
    /// Translates a Wasm `i32.shr_u` instruction.
    pub fn translate_u32_shr(&mut self) -> (r: Result<(), ModuleError>)
        requires
            old(self).wf(),
            old(self)@.op_allowed(2, 1),
        ensures
            final(self).wf(),
            final(self)@ == old(self)@.op(2, seq![ValueType::I32], Instruction::I32ShrU),
            r is Ok,
    {
        self.translate_op(2, Some(ValueType::I32), Some(Instruction::I32ShrU));
        Ok(())
    }
    /// Translates a Wasm `i64.clz` instruction.
    pub fn translate_i64_clz(&mut self) -> (r: Result<(), ModuleError>)
        requires
            old(self).wf(),
            old(self)@.op_allowed(1, 1),
        ensures
            final(self).wf(),
            final(self)@ == old(self)@.op(1, seq![ValueType::I64], Instruction::I64Clz),
            r is Ok,
    {
        self.translate_op(1, Some(ValueType::I64), Some(Instruction::I64Clz));
        Ok(())
    }
    /// Translates a Wasm `i64.ctz` instruction.
    pub fn translate_i64_ctz(&mut self) -> (r: Result<(), ModuleError>)
        requires
            old(self).wf(),
            old(self)@.op_allowed(1, 1),
        ensures
            final(self).wf(),
            final(self)@ == old(self)@.op(1, seq![ValueType::I64], Instruction::I64Ctz),
            r is Ok,
    {
        self.translate_op(1, Some(ValueType::I64), Some(Instruction::I64Ctz));
        Ok(())
    }
    /// Translates a Wasm `i64.popcnt` instruction.
    pub fn translate_i64_popcnt(&mut self) -> (r: Result<(), ModuleError>)
        requires
            old(self).wf(),
            old(self)@.op_allowed(1, 1),
        ensures
            final(self).wf(),
            final(self)@ == old(self)@.op(1, seq![ValueType::I64], Instruction::I64Popcnt),
            r is Ok,
    {
        self.translate_op(1, Some(ValueType::I64), Some(Instruction::I64Popcnt));
        Ok(())
    }
    /// Translates a Wasm `i64.add` instruction.
    pub fn translate_i64_add(&mut self) -> (r: Result<(), ModuleError>)
        requires
            old(self).wf(),
            old(self)@.op_allowed(2, 1),
        ensures
            final(self).wf(),
            final(self)@ == old(self)@.op(2, seq![ValueType::I64], Instruction::I64Add),
            r is Ok,
    {
        self.translate_op(2, Some(ValueType::I64), Some(Instruction::I64Add));
        Ok(())
    }
    /// Translates a Wasm `i64.sub` instruction.
    pub fn translate_i64_sub(&mut self) -> (r: Result<(), ModuleError>)
        requires
            old(self).wf(),
            old(self)@.op_allowed(2, 1),
        ensures
            final(self).wf(),
            final(self)@ == old(self)@.op(2, seq![ValueType::I64], Instruction::I64Sub),
            r is Ok,
    {
        self.translate_op(2, Some(ValueType::I64), Some(Instruction::I64Sub));
        Ok(())
    }
    /// Translates a Wasm `i64.mul` instruction.
    pub fn translate_i64_mul(&mut self) -> (r: Result<(), ModuleError>)
        requires
            old(self).wf(),
            old(self)@.op_allowed(2, 1),
        ensures
            final(self).wf(),
            final(self)@ == old(self)@.op(2, seq![ValueType::I64], Instruction::I64Mul),
            r is Ok,
    {
        self.translate_op(2, Some(ValueType::I64), Some(Instruction::I64Mul));
        Ok(())
    }
    /// Translates a Wasm `i64.div_s` instruction.
    pub fn translate_i64_div(&mut self) -> (r: Result<(), ModuleError>)
        requires
            old(self).wf(),
            old(self)@.op_allowed(2, 1),
        ensures
            final(self).wf(),
            final(self)@ == old(self)@.op(2, seq![ValueType::I64], Instruction::I64DivS),
            r is Ok,
    {
        self.translate_op(2, Some(ValueType::I64), Some(Instruction::I64DivS));
        Ok(())
    }
    /// Translates a Wasm `i64.rem_s` instruction.
    pub fn translate_i64_rem(&mut self) -> (r: Result<(), ModuleError>)
        requires
            old(self).wf(),
            old(self)@.op_allowed(2, 1),
        ensures
            final(self).wf(),
            final(self)@ == old(self)@.op(2, seq![ValueType::I64], Instruction::I64RemS),
            r is Ok,
    {
        self.translate_op(2, Some(ValueType::I64), Some(Instruction::I64RemS));
        Ok(())
    }
    /// Translates a Wasm `i64.and` instruction.
    pub fn translate_i64_and(&mut self) -> (r: Result<(), ModuleError>)
        requires
            old(self).wf(),
            old(self)@.op_allowed(2, 1),
        ensures
            final(self).wf(),
            final(self)@ == old(self)@.op(2, seq![ValueType::I64], Instruction::I64And),
            r is Ok,
    {
        self.translate_op(2, Some(ValueType::I64), Some(Instruction::I64And));
        Ok(())
    }
    /// Translates a Wasm `i64.or` instruction.
    pub fn translate_i64_or(&mut self) -> (r: Result<(), ModuleError>)
        requires
            old(self).wf(),
            old(self)@.op_allowed(2, 1),
        ensures
            final(self).wf(),
            final(self)@ == old(self)@.op(2, seq![ValueType::I64], Instruction::I64Or),
            r is Ok,
    {
        self.translate_op(2, Some(ValueType::I64), Some(Instruction::I64Or));
        Ok(())
    }
    /// Translates a Wasm `i64.xor` instruction.
    pub fn translate_i64_xor(&mut self) -> (r: Result<(), ModuleError>)
        requires
            old(self).wf(),
            old(self)@.op_allowed(2, 1),
        ensures
            final(self).wf(),
            final(self)@ == old(self)@.op(2, seq![ValueType::I64], Instruction::I64Xor),
            r is Ok,
    {
        self.translate_op(2, Some(ValueType::I64), Some(Instruction::I64Xor));
        Ok(())
    }
    /// Translates a Wasm `i64.shl` instruction.
    pub fn translate_i64_shl(&mut self) -> (r: Result<(), ModuleError>)
        requires
            old(self).wf(),
            old(self)@.op_allowed(2, 1),
        ensures
            final(self).wf(),
            final(self)@ == old(self)@.op(2, seq![ValueType::I64], Instruction::I64Shl),
            r is Ok,
    {
        self.translate_op(2, Some(ValueType::I64), Some(Instruction::I64Shl));
        Ok(())
    }
    /// Translates a Wasm `i64.shr_s` instruction.
    pub fn translate_i64_shr(&mut self) -> (r: Result<(), ModuleError>)
        requires
            old(self).wf(),
            old(self)@.op_allowed(2, 1),
        ensures
            final(self).wf(),
            final(self)@ == old(self)@.op(2, seq![ValueType::I64], Instruction::I64ShrS),
            r is Ok,
    {
        self.translate_op(2, Some(ValueType::I64), Some(Instruction::I64ShrS));
        Ok(())
    }
    /// Translates a Wasm `i64.rotl` instruction.
    pub fn translate_i64_rotl(&mut self) -> (r: Result<(), ModuleError>)
        requires
            old(self).wf(),
            old(self)@.op_allowed(2, 1),
        ensures
            final(self).wf(),
            final(self)@ == old(self)@.op(2, seq![ValueType::I64], Instruction::I64Rotl),
            r is Ok,
    {
        self.translate_op(2, Some(ValueType::I64), Some(Instruction::I64Rotl));
        Ok(())
    }
    /// Translates a Wasm `i64.rotr` instruction.
    pub fn translate_i64_rotr(&mut self) -> (r: Result<(), ModuleError>)
        requires
            old(self).wf(),
            old(self)@.op_allowed(2, 1),
        ensures
            final(self).wf(),
            final(self)@ == old(self)@.op(2, seq![ValueType::I64], Instruction::I64Rotr),
            r is Ok,
    {
        self.translate_op(2, Some(ValueType::I64), Some(Instruction::I64Rotr));
        Ok(())
    }
    /// Translates a Wasm `i64.div_u` instruction.
    pub fn translate_u64_div(&mut self) -> (r: Result<(), ModuleError>)
        requires
            old(self).wf(),
            old(self)@.op_allowed(2, 1),
        ensures
            final(self).wf(),
            final(self)@ == old(self)@.op(2, seq![ValueType::I64], Instruction::I64DivU),
            r is Ok,
    {
        self.translate_op(2, Some(ValueType::I64), Some(Instruction::I64DivU));
        Ok(())
    }
    /// Translates a Wasm `i64.rem_u` instruction.
    pub fn translate_u64_rem(&mut self) -> (r: Result<(), ModuleError>)
        requires
            old(self).wf(),
            old(self)@.op_allowed(2, 1),
        ensures
            final(self).wf(),
            final(self)@ == old(self)@.op(2, seq![ValueType::I64], Instruction::I64RemU),
            r is Ok,
    {
        self.translate_op(2, Some(ValueType::I64), Some(Instruction::I64RemU));
        Ok(())
    }
    /// Translates a Wasm `i64.shr_u` instruction.
    pub fn translate_u64_shr(&mut self) -> (r: Result<(), ModuleError>)
        requires
            old(self).wf(),
            old(self)@.op_allowed(2, 1),
        ensures
            final(self).wf(),
            final(self)@ == old(self)@.op(2, seq![ValueType::I64], Instruction::I64ShrU),
            r is Ok,
    {
        self.translate_op(2, Some(ValueType::I64), Some(Instruction::I64ShrU));
        Ok(())
    }
    /// Translates a Wasm `f32.abs` instruction.
    pub fn translate_f32_abs(&mut self) -> (r: Result<(), ModuleError>)
        requires
            old(self).wf(),
            old(self)@.op_allowed(1, 1),
        ensures
            final(self).wf(),
            final(self)@ == old(self)@.op(1, seq![ValueType::F32], Instruction::F32Abs),
            r is Ok,
    {
        self.translate_op(1, Some(ValueType::F32), Some(Instruction::F32Abs));
        Ok(())
    }
    /// Translates a Wasm `f32.neg` instruction.
    pub fn translate_f32_neg(&mut self) -> (r: Result<(), ModuleError>)
        requires
            old(self).wf(),
            old(self)@.op_allowed(1, 1),
        ensures
            final(self).wf(),
            final(self)@ == old(self)@.op(1, seq![ValueType::F32], Instruction::F32Neg),
            r is Ok,
    {
        self.translate_op(1, Some(ValueType::F32), Some(Instruction::F32Neg));
        Ok(())
    }
    /// Translates a Wasm `f32.ceil` instruction.
    pub fn translate_f32_ceil(&mut self) -> (r: Result<(), ModuleError>)
        requires
            old(self).wf(),
            old(self)@.op_allowed(1, 1),
        ensures
            final(self).wf(),
            final(self)@ == old(self)@.op(1, seq![ValueType::F32], Instruction::F32Ceil),
            r is Ok,
    {
        self.translate_op(1, Some(ValueType::F32), Some(Instruction::F32Ceil));
        Ok(())
    }
    /// Translates a Wasm `f32.floor` instruction.
    pub fn translate_f32_floor(&mut self) -> (r: Result<(), ModuleError>)
        requires
            old(self).wf(),
            old(self)@.op_allowed(1, 1),
        ensures
            final(self).wf(),
            final(self)@ == old(self)@.op(1, seq![ValueType::F32], Instruction::F32Floor),
            r is Ok,
    {
        self.translate_op(1, Some(ValueType::F32), Some(Instruction::F32Floor));
        Ok(())
    }
    /// Translates a Wasm `f32.trunc` instruction.
    pub fn translate_f32_trunc(&mut self) -> (r: Result<(), ModuleError>)
        requires
            old(self).wf(),
            old(self)@.op_allowed(1, 1),
        ensures
            final(self).wf(),
            final(self)@ == old(self)@.op(1, seq![ValueType::F32], Instruction::F32Trunc),
            r is Ok,
    {
        self.translate_op(1, Some(ValueType::F32), Some(Instruction::F32Trunc));
        Ok(())
    }
    /// Translates a Wasm `f32.nearest` instruction.
    pub fn translate_f32_nearest(&mut self) -> (r: Result<(), ModuleError>)
        requires
            old(self).wf(),
            old(self)@.op_allowed(1, 1),
        ensures
            final(self).wf(),
            final(self)@ == old(self)@.op(1, seq![ValueType::F32], Instruction::F32Nearest),
            r is Ok,
    {
        self.translate_op(1, Some(ValueType::F32), Some(Instruction::F32Nearest));
        Ok(())
    }
    /// Translates a Wasm `f32.sqrt` instruction.
    pub fn translate_f32_sqrt(&mut self) -> (r: Result<(), ModuleError>)
        requires
            old(self).wf(),
            old(self)@.op_allowed(1, 1),
        ensures
            final(self).wf(),
            final(self)@ == old(self)@.op(1, seq![ValueType::F32], Instruction::F32Sqrt),
            r is Ok,
    {
        self.translate_op(1, Some(ValueType::F32), Some(Instruction::F32Sqrt));
        Ok(())
    }
    /// Translates a Wasm `f32.add` instruction.
    pub fn translate_f32_add(&mut self) -> (r: Result<(), ModuleError>)
        requires
            old(self).wf(),
            old(self)@.op_allowed(2, 1),
        ensures
            final(self).wf(),
            final(self)@ == old(self)@.op(2, seq![ValueType::F32], Instruction::F32Add),
            r is Ok,
    {
        self.translate_op(2, Some(ValueType::F32), Some(Instruction::F32Add));
        Ok(())
    }
    /// Translates a Wasm `f32.sub` instruction.
    pub fn translate_f32_sub(&mut self) -> (r: Result<(), ModuleError>)
        requires
            old(self).wf(),
            old(self)@.op_allowed(2, 1),
        ensures
            final(self).wf(),
            final(self)@ == old(self)@.op(2, seq![ValueType::F32], Instruction::F32Sub),
            r is Ok,
    {
        self.translate_op(2, Some(ValueType::F32), Some(Instruction::F32Sub));
        Ok(())
    }
    /// Translates a Wasm `f32.mul` instruction.
    pub fn translate_f32_mul(&mut self) -> (r: Result<(), ModuleError>)
        requires
            old(self).wf(),
            old(self)@.op_allowed(2, 1),
        ensures
            final(self).wf(),
            final(self)@ == old(self)@.op(2, seq![ValueType::F32], Instruction::F32Mul),
            r is Ok,
    {
        self.translate_op(2, Some(ValueType::F32), Some(Instruction::F32Mul));
        Ok(())
    }
    /// Translates a Wasm `f32.div` instruction.
    pub fn translate_f32_div(&mut self) -> (r: Result<(), ModuleError>)
        requires
            old(self).wf(),
            old(self)@.op_allowed(2, 1),
        ensures
            final(self).wf(),
            final(self)@ == old(self)@.op(2, seq![ValueType::F32], Instruction::F32Div),
            r is Ok,
    {
        self.translate_op(2, Some(ValueType::F32), Some(Instruction::F32Div));
        Ok(())
    }
    /// Translates a Wasm `f32.min` instruction.
    pub fn translate_f32_min(&mut self) -> (r: Result<(), ModuleError>)
        requires
            old(self).wf(),
            old(self)@.op_allowed(2, 1),
        ensures
            final(self).wf(),
            final(self)@ == old(self)@.op(2, seq![ValueType::F32], Instruction::F32Min),
            r is Ok,
    {
        self.translate_op(2, Some(ValueType::F32), Some(Instruction::F32Min));
        Ok(())
    }
    /// Translates a Wasm `f32.max` instruction.
    pub fn translate_f32_max(&mut self) -> (r: Result<(), ModuleError>)
        requires
            old(self).wf(),
            old(self)@.op_allowed(2, 1),
        ensures
            final(self).wf(),
            final(self)@ == old(self)@.op(2, seq![ValueType::F32], Instruction::F32Max),
            r is Ok,
    {
        self.translate_op(2, Some(ValueType::F32), Some(Instruction::F32Max));
        Ok(())
    }
    /// Translates a Wasm `f32.copysign` instruction.
    pub fn translate_f32_copysign(&mut self) -> (r: Result<(), ModuleError>)
        requires
            old(self).wf(),
            old(self)@.op_allowed(2, 1),
        ensures
            final(self).wf(),
            final(self)@ == old(self)@.op(2, seq![ValueType::F32], Instruction::F32Copysign),
            r is Ok,
    {
        self.translate_op(2, Some(ValueType::F32), Some(Instruction::F32Copysign));
        Ok(())
    }
    /// Translates a Wasm `f64.abs` instruction.
    pub fn translate_f64_abs(&mut self) -> (r: Result<(), ModuleError>)
        requires
            old(self).wf(),
            old(self)@.op_allowed(1, 1),
        ensures
            final(self).wf(),
            final(self)@ == old(self)@.op(1, seq![ValueType::F64], Instruction::F64Abs),
            r is Ok,
    {
        self.translate_op(1, Some(ValueType::F64), Some(Instruction::F64Abs));
        Ok(())
    }
    /// Translates a Wasm `f64.neg` instruction.
    pub fn translate_f64_neg(&mut self) -> (r: Result<(), ModuleError>)
        requires
            old(self).wf(),
            old(self)@.op_allowed(1, 1),
        ensures
            final(self).wf(),
            final(self)@ == old(self)@.op(1, seq![ValueType::F64], Instruction::F64Neg),
            r is Ok,
    {
        self.translate_op(1, Some(ValueType::F64), Some(Instruction::F64Neg));
        Ok(())
    }
    /// Translates a Wasm `f64.ceil` instruction.
    pub fn translate_f64_ceil(&mut self) -> (r: Result<(), ModuleError>)
        requires
            old(self).wf(),
            old(self)@.op_allowed(1, 1),
        ensures
            final(self).wf(),
            final(self)@ == old(self)@.op(1, seq![ValueType::F64], Instruction::F64Ceil),
            r is Ok,
    {
        self.translate_op(1, Some(ValueType::F64), Some(Instruction::F64Ceil));
        Ok(())
    }
    /// Translates a Wasm `f64.floor` instruction.
    pub fn translate_f64_floor(&mut self) -> (r: Result<(), ModuleError>)
        requires
            old(self).wf(),
            old(self)@.op_allowed(1, 1),
        ensures
            final(self).wf(),
            final(self)@ == old(self)@.op(1, seq![ValueType::F64], Instruction::F64Floor),
            r is Ok,
    {
        self.translate_op(1, Some(ValueType::F64), Some(Instruction::F64Floor));
        Ok(())
    }
    /// Translates a Wasm `f64.trunc` instruction.
    pub fn translate_f64_trunc(&mut self) -> (r: Result<(), ModuleError>)
        requires
            old(self).wf(),
            old(self)@.op_allowed(1, 1),
        ensures
            final(self).wf(),
            final(self)@ == old(self)@.op(1, seq![ValueType::F64], Instruction::F64Trunc),
            r is Ok,
    {
        self.translate_op(1, Some(ValueType::F64), Some(Instruction::F64Trunc));
        Ok(())
    }
    /// Translates a Wasm `f64.nearest` instruction.
    pub fn translate_f64_nearest(&mut self) -> (r: Result<(), ModuleError>)
        requires
            old(self).wf(),
            old(self)@.op_allowed(1, 1),
        ensures
            final(self).wf(),
            final(self)@ == old(self)@.op(1, seq![ValueType::F64], Instruction::F64Nearest),
            r is Ok,
    {
        self.translate_op(1, Some(ValueType::F64), Some(Instruction::F64Nearest));
        Ok(())
    }
    /// Translates a Wasm `f64.sqrt` instruction.
    pub fn translate_f64_sqrt(&mut self) -> (r: Result<(), ModuleError>)
        requires
            old(self).wf(),
            old(self)@.op_allowed(1, 1),
        ensures
            final(self).wf(),
            final(self)@ == old(self)@.op(1, seq![ValueType::F64], Instruction::F64Sqrt),
            r is Ok,
    {
        self.translate_op(1, Some(ValueType::F64), Some(Instruction::F64Sqrt));
        Ok(())
    }
    /// Translates a Wasm `f64.add` instruction.
    pub fn translate_f64_add(&mut self) -> (r: Result<(), ModuleError>)
        requires
            old(self).wf(),
            old(self)@.op_allowed(2, 1),
        ensures
            final(self).wf(),
            final(self)@ == old(self)@.op(2, seq![ValueType::F64], Instruction::F64Add),
            r is Ok,
    {
        self.translate_op(2, Some(ValueType::F64), Some(Instruction::F64Add));
        Ok(())
    }
    /// Translates a Wasm `f64.sub` instruction.
    pub fn translate_f64_sub(&mut self) -> (r: Result<(), ModuleError>)
        requires
            old(self).wf(),
            old(self)@.op_allowed(2, 1),
        ensures
            final(self).wf(),
            final(self)@ == old(self)@.op(2, seq![ValueType::F64], Instruction::F64Sub),
            r is Ok,
    {
        self.translate_op(2, Some(ValueType::F64), Some(Instruction::F64Sub));
        Ok(())
    }
    /// Translates a Wasm `f64.mul` instruction.
    pub fn translate_f64_mul(&mut self) -> (r: Result<(), ModuleError>)
        requires
            old(self).wf(),
            old(self)@.op_allowed(2, 1),
        ensures
            final(self).wf(),
            final(self)@ == old(self)@.op(2, seq![ValueType::F64], Instruction::F64Mul),
            r is Ok,
    {
        self.translate_op(2, Some(ValueType::F64), Some(Instruction::F64Mul));
        Ok(())
    }
    /// Translates a Wasm `f64.div` instruction.
    pub fn translate_f64_div(&mut self) -> (r: Result<(), ModuleError>)
        requires
            old(self).wf(),
            old(self)@.op_allowed(2, 1),
        ensures
            final(self).wf(),
            final(self)@ == old(self)@.op(2, seq![ValueType::F64], Instruction::F64Div),
            r is Ok,
    {
        self.translate_op(2, Some(ValueType::F64), Some(Instruction::F64Div));
        Ok(())
    }
    /// Translates a Wasm `f64.min` instruction.
    pub fn translate_f64_min(&mut self) -> (r: Result<(), ModuleError>)
        requires
            old(self).wf(),
            old(self)@.op_allowed(2, 1),
        ensures
            final(self).wf(),
            final(self)@ == old(self)@.op(2, seq![ValueType::F64], Instruction::F64Min),
            r is Ok,
    {
        self.translate_op(2, Some(ValueType::F64), Some(Instruction::F64Min));
        Ok(())
    }
    /// Translates a Wasm `f64.max` instruction.
    pub fn translate_f64_max(&mut self) -> (r: Result<(), ModuleError>)
        requires
            old(self).wf(),
            old(self)@.op_allowed(2, 1),
        ensures
            final(self).wf(),
            final(self)@ == old(self)@.op(2, seq![ValueType::F64], Instruction::F64Max),
            r is Ok,
    {
        self.translate_op(2, Some(ValueType::F64), Some(Instruction::F64Max));
        Ok(())
    }
    /// Translates a Wasm `f64.copysign` instruction.
    pub fn translate_f64_copysign(&mut self) -> (r: Result<(), ModuleError>)
        requires
            old(self).wf(),
            old(self)@.op_allowed(2, 1),
        ensures
            final(self).wf(),
            final(self)@ == old(self)@.op(2, seq![ValueType::F64], Instruction::F64Copysign),
            r is Ok,
    {
        self.translate_op(2, Some(ValueType::F64), Some(Instruction::F64Copysign));
        Ok(())
    }
    /// Translates a Wasm `i32.wrap_i64` instruction.
    pub fn translate_i32_wrap_i64(&mut self) -> (r: Result<(), ModuleError>)
        requires
            old(self).wf(),
            old(self)@.op_allowed(1, 1),
        ensures
            final(self).wf(),
            final(self)@ == old(self)@.op(1, seq![ValueType::I32], Instruction::I32WrapI64),
            r is Ok,
    {
        self.translate_op(1, Some(ValueType::I32), Some(Instruction::I32WrapI64));
        Ok(())
    }
    /// Translates a Wasm `i32.trunc_f32_s` instruction.
    pub fn translate_i32_trunc_f32(&mut self) -> (r: Result<(), ModuleError>)
        requires
            old(self).wf(),
            old(self)@.op_allowed(1, 1),
        ensures
            final(self).wf(),
            final(self)@ == old(self)@.op(1, seq![ValueType::I32], Instruction::I32TruncSF32),
            r is Ok,
    {
        self.translate_op(1, Some(ValueType::I32), Some(Instruction::I32TruncSF32));
        Ok(())
    }
    /// Translates a Wasm `i32.trunc_f32_u` instruction.
    pub fn translate_u32_trunc_f32(&mut self) -> (r: Result<(), ModuleError>)
        requires
            old(self).wf(),
            old(self)@.op_allowed(1, 1),
        ensures
            final(self).wf(),
            final(self)@ == old(self)@.op(1, seq![ValueType::I32], Instruction::I32TruncUF32),
            r is Ok,
    {
        self.translate_op(1, Some(ValueType::I32), Some(Instruction::I32TruncUF32));
        Ok(())
    }
    /// Translates a Wasm `i32.trunc_f64_s` instruction.
    pub fn translate_i32_trunc_f64(&mut self) -> (r: Result<(), ModuleError>)
        requires
            old(self).wf(),
            old(self)@.op_allowed(1, 1),
        ensures
            final(self).wf(),
            final(self)@ == old(self)@.op(1, seq![ValueType::I32], Instruction::I32TruncSF64),
            r is Ok,
    {
        self.translate_op(1, Some(ValueType::I32), Some(Instruction::I32TruncSF64));
        Ok(())
    }
    /// Translates a Wasm `i32.trunc_f64_u` instruction.
    pub fn translate_u32_trunc_f64(&mut self) -> (r: Result<(), ModuleError>)
        requires
            old(self).wf(),
            old(self)@.op_allowed(1, 1),
        ensures
            final(self).wf(),
            final(self)@ == old(self)@.op(1, seq![ValueType::I32], Instruction::I32TruncUF64),
            r is Ok,
    {
        self.translate_op(1, Some(ValueType::I32), Some(Instruction::I32TruncUF64));
        Ok(())
    }
    /// Translates a Wasm `i64.extend_i32_s` instruction.
    pub fn translate_i64_extend_i32(&mut self) -> (r: Result<(), ModuleError>)
        requires
            old(self).wf(),
            old(self)@.op_allowed(1, 1),
        ensures
            final(self).wf(),
            final(self)@ == old(self)@.op(1, seq![ValueType::I64], Instruction::I64ExtendSI32),
            r is Ok,
    {
        self.translate_op(1, Some(ValueType::I64), Some(Instruction::I64ExtendSI32));
        Ok(())
    }
    /// Translates a Wasm `i64.extend_i32_u` instruction.
    pub fn translate_u64_extend_i32(&mut self) -> (r: Result<(), ModuleError>)
        requires
            old(self).wf(),
            old(self)@.op_allowed(1, 1),
        ensures
            final(self).wf(),
            final(self)@ == old(self)@.op(1, seq![ValueType::I64], Instruction::I64ExtendUI32),
            r is Ok,
    {
        self.translate_op(1, Some(ValueType::I64), Some(Instruction::I64ExtendUI32));
        Ok(())
    }
    /// Translates a Wasm `i64.trunc_f32_s` instruction.
    pub fn translate_i64_trunc_f32(&mut self) -> (r: Result<(), ModuleError>)
        requires
            old(self).wf(),
            old(self)@.op_allowed(1, 1),
        ensures
            final(self).wf(),
            final(self)@ == old(self)@.op(1, seq![ValueType::I64], Instruction::I64TruncSF32),
            r is Ok,
    {
        self.translate_op(1, Some(ValueType::I64), Some(Instruction::I64TruncSF32));
        Ok(())
    }
    /// Translates a Wasm `i64.trunc_f32_u` instruction.
    pub fn translate_u64_trunc_f32(&mut self) -> (r: Result<(), ModuleError>)
        requires
            old(self).wf(),
            old(self)@.op_allowed(1, 1),
        ensures
            final(self).wf(),
            final(self)@ == old(self)@.op(1, seq![ValueType::I64], Instruction::I64TruncUF32),
            r is Ok,
    {
        self.translate_op(1, Some(ValueType::I64), Some(Instruction::I64TruncUF32));
        Ok(())
    }
    /// Translates a Wasm `i64.trunc_f64_s` instruction.
    pub fn translate_i64_trunc_f64(&mut self) -> (r: Result<(), ModuleError>)
        requires
            old(self).wf(),
            old(self)@.op_allowed(1, 1),
        ensures
            final(self).wf(),
            final(self)@ == old(self)@.op(1, seq![ValueType::I64], Instruction::I64TruncSF64),
            r is Ok,
    {
        self.translate_op(1, Some(ValueType::I64), Some(Instruction::I64TruncSF64));
        Ok(())
    }
    /// Translates a Wasm `i64.trunc_f64_u` instruction.
    pub fn translate_u64_trunc_f64(&mut self) -> (r: Result<(), ModuleError>)
        requires
            old(self).wf(),
            old(self)@.op_allowed(1, 1),
        ensures
            final(self).wf(),
            final(self)@ == old(self)@.op(1, seq![ValueType::I64], Instruction::I64TruncUF64),
            r is Ok,
    {
        self.translate_op(1, Some(ValueType::I64), Some(Instruction::I64TruncUF64));
        Ok(())
    }
    /// Translates a Wasm `f32.convert_i32_s` instruction.
    pub fn translate_f32_convert_i32(&mut self) -> (r: Result<(), ModuleError>)
        requires
            old(self).wf(),
            old(self)@.op_allowed(1, 1),
        ensures
            final(self).wf(),
            final(self)@ == old(self)@.op(1, seq![ValueType::F32], Instruction::F32ConvertSI32),
            r is Ok,
    {
        self.translate_op(1, Some(ValueType::F32), Some(Instruction::F32ConvertSI32));
        Ok(())
    }
    /// Translates a Wasm `f32.convert_i32_u` instruction.
    pub fn translate_f32_convert_u32(&mut self) -> (r: Result<(), ModuleError>)
        requires
            old(self).wf(),
            old(self)@.op_allowed(1, 1),
        ensures
            final(self).wf(),
            final(self)@ == old(self)@.op(1, seq![ValueType::F32], Instruction::F32ConvertUI32),
            r is Ok,
    {
        self.translate_op(1, Some(ValueType::F32), Some(Instruction::F32ConvertUI32));
        Ok(())
    }
    /// Translates a Wasm `f32.convert_i64_s` instruction.
    pub fn translate_f32_convert_i64(&mut self) -> (r: Result<(), ModuleError>)
        requires
            old(self).wf(),
            old(self)@.op_allowed(1, 1),
        ensures
            final(self).wf(),
            final(self)@ == old(self)@.op(1, seq![ValueType::F32], Instruction::F32ConvertSI64),
            r is Ok,
    {
        self.translate_op(1, Some(ValueType::F32), Some(Instruction::F32ConvertSI64));
        Ok(())
    }
    /// Translates a Wasm `f32.convert_i64_u` instruction.
    pub fn translate_f32_convert_u64(&mut self) -> (r: Result<(), ModuleError>)
        requires
            old(self).wf(),
            old(self)@.op_allowed(1, 1),
        ensures
            final(self).wf(),
            final(self)@ == old(self)@.op(1, seq![ValueType::F32], Instruction::F32ConvertUI64),
            r is Ok,
    {
        self.translate_op(1, Some(ValueType::F32), Some(Instruction::F32ConvertUI64));
        Ok(())
    }
    /// Translates a Wasm `f32.demote_f64` instruction.
    pub fn translate_f32_demote_f64(&mut self) -> (r: Result<(), ModuleError>)
        requires
            old(self).wf(),
            old(self)@.op_allowed(1, 1),
        ensures
            final(self).wf(),
            final(self)@ == old(self)@.op(1, seq![ValueType::F32], Instruction::F32DemoteF64),
            r is Ok,
    {
        self.translate_op(1, Some(ValueType::F32), Some(Instruction::F32DemoteF64));
        Ok(())
    }
    /// Translates a Wasm `f64.convert_i32_s` instruction.
    pub fn translate_f64_convert_i32(&mut self) -> (r: Result<(), ModuleError>)
        requires
            old(self).wf(),
            old(self)@.op_allowed(1, 1),
        ensures
            final(self).wf(),
            final(self)@ == old(self)@.op(1, seq![ValueType::F64], Instruction::F64ConvertSI32),
            r is Ok,
    {
        self.translate_op(1, Some(ValueType::F64), Some(Instruction::F64ConvertSI32));
        Ok(())
    }
    /// Translates a Wasm `f64.convert_i32_u` instruction.
    pub fn translate_f64_convert_u32(&mut self) -> (r: Result<(), ModuleError>)
        requires
            old(self).wf(),
            old(self)@.op_allowed(1, 1),
        ensures
            final(self).wf(),
            final(self)@ == old(self)@.op(1, seq![ValueType::F64], Instruction::F64ConvertUI32),
            r is Ok,
    {
        self.translate_op(1, Some(ValueType::F64), Some(Instruction::F64ConvertUI32));
        Ok(())
    }
    /// Translates a Wasm `f64.convert_i64_s` instruction.
    pub fn translate_f64_convert_i64(&mut self) -> (r: Result<(), ModuleError>)
        requires
            old(self).wf(),
            old(self)@.op_allowed(1, 1),
        ensures
            final(self).wf(),
            final(self)@ == old(self)@.op(1, seq![ValueType::F64], Instruction::F64ConvertSI64),
            r is Ok,
    {
        self.translate_op(1, Some(ValueType::F64), Some(Instruction::F64ConvertSI64));
        Ok(())
    }
    /// Translates a Wasm `f64.convert_i64_u` instruction.
    pub fn translate_f64_convert_u64(&mut self) -> (r: Result<(), ModuleError>)
        requires
            old(self).wf(),
            old(self)@.op_allowed(1, 1),
        ensures
            final(self).wf(),
            final(self)@ == old(self)@.op(1, seq![ValueType::F64], Instruction::F64ConvertUI64),
            r is Ok,
    {
        self.translate_op(1, Some(ValueType::F64), Some(Instruction::F64ConvertUI64));
        Ok(())
    }
    /// Translates a Wasm `f64.promote_f32` instruction.
    pub fn translate_f64_promote_f32(&mut self) -> (r: Result<(), ModuleError>)
        requires
            old(self).wf(),
            old(self)@.op_allowed(1, 1),
        ensures
            final(self).wf(),
            final(self)@ == old(self)@.op(1, seq![ValueType::F64], Instruction::F64PromoteF32),
            r is Ok,
    {
        self.translate_op(1, Some(ValueType::F64), Some(Instruction::F64PromoteF32));
        Ok(())
    }
    /// Translates a Wasm `i32.reinterpret_f32` instruction.
    pub fn translate_i32_reinterpret_f32(&mut self) -> (r: Result<(), ModuleError>)
        requires
            old(self).wf(),
            old(self)@.op_allowed(1, 1),
        ensures
            final(self).wf(),
            final(self)@ == old(self)@.op(1, seq![ValueType::I32], Instruction::I32ReinterpretF32),
            r is Ok,
    {
        self.translate_op(1, Some(ValueType::I32), Some(Instruction::I32ReinterpretF32));
        Ok(())
    }
    /// Translates a Wasm `i64.reinterpret_f64` instruction.
    pub fn translate_i64_reinterpret_f64(&mut self) -> (r: Result<(), ModuleError>)
        requires
            old(self).wf(),
            old(self)@.op_allowed(1, 1),
        ensures
            final(self).wf(),
            final(self)@ == old(self)@.op(1, seq![ValueType::I64], Instruction::I64ReinterpretF64),
            r is Ok,
    {
        self.translate_op(1, Some(ValueType::I64), Some(Instruction::I64ReinterpretF64));
        Ok(())
    }
    /// Translates a Wasm `f32.reinterpret_i32` instruction.
    pub fn translate_f32_reinterpret_i32(&mut self) -> (r: Result<(), ModuleError>)
        requires
            old(self).wf(),
            old(self)@.op_allowed(1, 1),
        ensures
            final(self).wf(),
            final(self)@ == old(self)@.op(1, seq![ValueType::F32], Instruction::F32ReinterpretI32),
            r is Ok,
    {
        self.translate_op(1, Some(ValueType::F32), Some(Instruction::F32ReinterpretI32));
        Ok(())
    }
    /// Translates a Wasm `f64.reinterpret_i64` instruction.
    pub fn translate_f64_reinterpret_i64(&mut self) -> (r: Result<(), ModuleError>)
        requires
            old(self).wf(),
            old(self)@.op_allowed(1, 1),
        ensures
            final(self).wf(),
            final(self)@ == old(self)@.op(1, seq![ValueType::F64], Instruction::F64ReinterpretI64),
            r is Ok,
    {
        self.translate_op(1, Some(ValueType::F64), Some(Instruction::F64ReinterpretI64));
        Ok(())
    }
    /// Translates a Wasm `i32.load` instruction.
    pub fn translate_i32_load(&mut self, memory_idx: MemoryIdx, offset: u32) -> (r: Result<(), ModuleError>)
        requires
            old(self).wf(),
            old(self)@.reachable ==> memory_idx.0 == DEFAULT_MEMORY_INDEX,
            old(self)@.op_allowed(1, 1),
        ensures
            final(self).wf(),
            final(self)@ == old(self)@.op(1, seq![ValueType::I32], Instruction::I32Load(Offset(offset))),
            r is Ok,
    {
        self.translate_load(ValueType::I32, Instruction::I32Load(Offset(offset)))
    }
    /// Translates a Wasm `i64.load` instruction.
    pub fn translate_i64_load(&mut self, memory_idx: MemoryIdx, offset: u32) -> (r: Result<(), ModuleError>)
        requires
            old(self).wf(),
            old(self)@.reachable ==> memory_idx.0 == DEFAULT_MEMORY_INDEX,
            old(self)@.op_allowed(1, 1),
        ensures
            final(self).wf(),
            final(self)@ == old(self)@.op(1, seq![ValueType::I64], Instruction::I64Load(Offset(offset))),
            r is Ok,
    {
        self.translate_load(ValueType::I64, Instruction::I64Load(Offset(offset)))
    }
    /// Translates a Wasm `f32.load` instruction.
    pub fn translate_f32_load(&mut self, memory_idx: MemoryIdx, offset: u32) -> (r: Result<(), ModuleError>)
        requires
            old(self).wf(),
            old(self)@.reachable ==> memory_idx.0 == DEFAULT_MEMORY_INDEX,
            old(self)@.op_allowed(1, 1),
        ensures
            final(self).wf(),
            final(self)@ == old(self)@.op(1, seq![ValueType::F32], Instruction::F32Load(Offset(offset))),
            r is Ok,
    {
        self.translate_load(ValueType::F32, Instruction::F32Load(Offset(offset)))
    }
    /// Translates a Wasm `f64.load` instruction.
    pub fn translate_f64_load(&mut self, memory_idx: MemoryIdx, offset: u32) -> (r: Result<(), ModuleError>)
        requires
            old(self).wf(),
            old(self)@.reachable ==> memory_idx.0 == DEFAULT_MEMORY_INDEX,
            old(self)@.op_allowed(1, 1),
        ensures
            final(self).wf(),
            final(self)@ == old(self)@.op(1, seq![ValueType::F64], Instruction::F64Load(Offset(offset))),
            r is Ok,
    {
        self.translate_load(ValueType::F64, Instruction::F64Load(Offset(offset)))
    }
    /// Translates a Wasm `i32.load8_s` instruction.
    pub fn translate_i32_load_i8(&mut self, memory_idx: MemoryIdx, offset: u32) -> (r: Result<(), ModuleError>)
        requires
            old(self).wf(),
            old(self)@.reachable ==> memory_idx.0 == DEFAULT_MEMORY_INDEX,
            old(self)@.op_allowed(1, 1),
        ensures
            final(self).wf(),
            final(self)@ == old(self)@.op(1, seq![ValueType::I32], Instruction::I32Load8S(Offset(offset))),
            r is Ok,
    {
        self.translate_load(ValueType::I32, Instruction::I32Load8S(Offset(offset)))
    }
    /// Translates a Wasm `i32.load8_u` instruction.
    pub fn translate_i32_load_u8(&mut self, memory_idx: MemoryIdx, offset: u32) -> (r: Result<(), ModuleError>)
        requires
            old(self).wf(),
            old(self)@.reachable ==> memory_idx.0 == DEFAULT_MEMORY_INDEX,
            old(self)@.op_allowed(1, 1),
        ensures
            final(self).wf(),
            final(self)@ == old(self)@.op(1, seq![ValueType::I32], Instruction::I32Load8U(Offset(offset))),
            r is Ok,
    {
        self.translate_load(ValueType::I32, Instruction::I32Load8U(Offset(offset)))
    }
    /// Translates a Wasm `i32.load16_s` instruction.
    pub fn translate_i32_load_i16(&mut self, memory_idx: MemoryIdx, offset: u32) -> (r: Result<(), ModuleError>)
        requires
            old(self).wf(),
            old(self)@.reachable ==> memory_idx.0 == DEFAULT_MEMORY_INDEX,
            old(self)@.op_allowed(1, 1),
        ensures
            final(self).wf(),
            final(self)@ == old(self)@.op(1, seq![ValueType::I32], Instruction::I32Load16S(Offset(offset))),
            r is Ok,
    {
        self.translate_load(ValueType::I32, Instruction::I32Load16S(Offset(offset)))
    }
    /// Translates a Wasm `i32.load16_u` instruction.
    pub fn translate_i32_load_u16(&mut self, memory_idx: MemoryIdx, offset: u32) -> (r: Result<(), ModuleError>)
        requires
            old(self).wf(),
            old(self)@.reachable ==> memory_idx.0 == DEFAULT_MEMORY_INDEX,
            old(self)@.op_allowed(1, 1),
        ensures
            final(self).wf(),
            final(self)@ == old(self)@.op(1, seq![ValueType::I32], Instruction::I32Load16U(Offset(offset))),
            r is Ok,
    {
        self.translate_load(ValueType::I32, Instruction::I32Load16U(Offset(offset)))
    }
    /// Translates a Wasm `i64.load8_s` instruction.
    pub fn translate_i64_load_i8(&mut self, memory_idx: MemoryIdx, offset: u32) -> (r: Result<(), ModuleError>)
        requires
            old(self).wf(),
            old(self)@.reachable ==> memory_idx.0 == DEFAULT_MEMORY_INDEX,
            old(self)@.op_allowed(1, 1),
        ensures
            final(self).wf(),
            final(self)@ == old(self)@.op(1, seq![ValueType::I64], Instruction::I64Load8S(Offset(offset))),
            r is Ok,
    {
        self.translate_load(ValueType::I64, Instruction::I64Load8S(Offset(offset)))
    }
    /// Translates a Wasm `i64.load8_u` instruction.
    pub fn translate_i64_load_u8(&mut self, memory_idx: MemoryIdx, offset: u32) -> (r: Result<(), ModuleError>)
        requires
            old(self).wf(),
            old(self)@.reachable ==> memory_idx.0 == DEFAULT_MEMORY_INDEX,
            old(self)@.op_allowed(1, 1),
        ensures
            final(self).wf(),
            final(self)@ == old(self)@.op(1, seq![ValueType::I64], Instruction::I64Load8U(Offset(offset))),
            r is Ok,
    {
        self.translate_load(ValueType::I64, Instruction::I64Load8U(Offset(offset)))
    }
    /// Translates a Wasm `i64.load16_s` instruction.
    pub fn translate_i64_load_i16(&mut self, memory_idx: MemoryIdx, offset: u32) -> (r: Result<(), ModuleError>)
        requires
            old(self).wf(),
            old(self)@.reachable ==> memory_idx.0 == DEFAULT_MEMORY_INDEX,
            old(self)@.op_allowed(1, 1),
        ensures
            final(self).wf(),
            final(self)@ == old(self)@.op(1, seq![ValueType::I64], Instruction::I64Load16S(Offset(offset))),
            r is Ok,
    {
        self.translate_load(ValueType::I64, Instruction::I64Load16S(Offset(offset)))
    }
    /// Translates a Wasm `i64.load16_u` instruction.
    pub fn translate_i64_load_u16(&mut self, memory_idx: MemoryIdx, offset: u32) -> (r: Result<(), ModuleError>)
        requires
            old(self).wf(),
            old(self)@.reachable ==> memory_idx.0 == DEFAULT_MEMORY_INDEX,
            old(self)@.op_allowed(1, 1),
        ensures
            final(self).wf(),
            final(self)@ == old(self)@.op(1, seq![ValueType::I64], Instruction::I64Load16U(Offset(offset))),
            r is Ok,
    {
        self.translate_load(ValueType::I64, Instruction::I64Load16U(Offset(offset)))
    }
    /// Translates a Wasm `i64.load32_s` instruction.
    pub fn translate_i64_load_i32(&mut self, memory_idx: MemoryIdx, offset: u32) -> (r: Result<(), ModuleError>)
        requires
            old(self).wf(),
            old(self)@.reachable ==> memory_idx.0 == DEFAULT_MEMORY_INDEX,
            old(self)@.op_allowed(1, 1),
        ensures
            final(self).wf(),
            final(self)@ == old(self)@.op(1, seq![ValueType::I64], Instruction::I64Load32S(Offset(offset))),
            r is Ok,
    {
        self.translate_load(ValueType::I64, Instruction::I64Load32S(Offset(offset)))
    }
    /// Translates a Wasm `i64.load32_u` instruction.
    pub fn translate_i64_load_u32(&mut self, memory_idx: MemoryIdx, offset: u32) -> (r: Result<(), ModuleError>)
        requires
            old(self).wf(),
            old(self)@.reachable ==> memory_idx.0 == DEFAULT_MEMORY_INDEX,
            old(self)@.op_allowed(1, 1),
        ensures
            final(self).wf(),
            final(self)@ == old(self)@.op(1, seq![ValueType::I64], Instruction::I64Load32U(Offset(offset))),
            r is Ok,
    {
        self.translate_load(ValueType::I64, Instruction::I64Load32U(Offset(offset)))
    }
    /// Translates a Wasm `i32.store` instruction.
    pub fn translate_i32_store(&mut self, memory_idx: MemoryIdx, offset: u32) -> (r: Result<(), ModuleError>)
        requires
            old(self).wf(),
            old(self)@.reachable ==> memory_idx.0 == DEFAULT_MEMORY_INDEX,
            old(self)@.store_allowed(ValueType::I32),
        ensures
            final(self).wf(),
            final(self)@ == old(self)@.op(2, Seq::empty(), Instruction::I32Store(Offset(offset))),
            r is Ok,
    {
        self.translate_store(ValueType::I32, Instruction::I32Store(Offset(offset)))
    }
    /// Translates a Wasm `i64.store` instruction.
    pub fn translate_i64_store(&mut self, memory_idx: MemoryIdx, offset: u32) -> (r: Result<(), ModuleError>)
        requires
            old(self).wf(),
            old(self)@.reachable ==> memory_idx.0 == DEFAULT_MEMORY_INDEX,
            old(self)@.store_allowed(ValueType::I64),
        ensures
            final(self).wf(),
            final(self)@ == old(self)@.op(2, Seq::empty(), Instruction::I64Store(Offset(offset))),
            r is Ok,
    {
        self.translate_store(ValueType::I64, Instruction::I64Store(Offset(offset)))
    }
    /// Translates a Wasm `f32.store` instruction.
    pub fn translate_f32_store(&mut self, memory_idx: MemoryIdx, offset: u32) -> (r: Result<(), ModuleError>)
        requires
            old(self).wf(),
            old(self)@.reachable ==> memory_idx.0 == DEFAULT_MEMORY_INDEX,
            old(self)@.store_allowed(ValueType::F32),
        ensures
            final(self).wf(),
            final(self)@ == old(self)@.op(2, Seq::empty(), Instruction::F32Store(Offset(offset))),
            r is Ok,
    {
        self.translate_store(ValueType::F32, Instruction::F32Store(Offset(offset)))
    }
    /// Translates a Wasm `f64.store` instruction.
    pub fn translate_f64_store(&mut self, memory_idx: MemoryIdx, offset: u32) -> (r: Result<(), ModuleError>)
        requires
            old(self).wf(),
            old(self)@.reachable ==> memory_idx.0 == DEFAULT_MEMORY_INDEX,
            old(self)@.store_allowed(ValueType::F64),
        ensures
            final(self).wf(),
            final(self)@ == old(self)@.op(2, Seq::empty(), Instruction::F64Store(Offset(offset))),
            r is Ok,
    {
        self.translate_store(ValueType::F64, Instruction::F64Store(Offset(offset)))
    }
    /// Translates a Wasm `i32.store8` instruction.
    pub fn translate_i32_store_i8(&mut self, memory_idx: MemoryIdx, offset: u32) -> (r: Result<(), ModuleError>)
        requires
            old(self).wf(),
            old(self)@.reachable ==> memory_idx.0 == DEFAULT_MEMORY_INDEX,
            old(self)@.store_allowed(ValueType::I32),
        ensures
            final(self).wf(),
            final(self)@ == old(self)@.op(2, Seq::empty(), Instruction::I32Store8(Offset(offset))),
            r is Ok,
    {
        self.translate_store(ValueType::I32, Instruction::I32Store8(Offset(offset)))
    }
    /// Translates a Wasm `i32.store16` instruction.
    pub fn translate_i32_store_i16(&mut self, memory_idx: MemoryIdx, offset: u32) -> (r: Result<(), ModuleError>)
        requires
            old(self).wf(),
            old(self)@.reachable ==> memory_idx.0 == DEFAULT_MEMORY_INDEX,
            old(self)@.store_allowed(ValueType::I32),
        ensures
            final(self).wf(),
            final(self)@ == old(self)@.op(2, Seq::empty(), Instruction::I32Store16(Offset(offset))),
            r is Ok,
    {
        self.translate_store(ValueType::I32, Instruction::I32Store16(Offset(offset)))
    }
    /// Translates a Wasm `i64.store8` instruction.
    pub fn translate_i64_store_i8(&mut self, memory_idx: MemoryIdx, offset: u32) -> (r: Result<(), ModuleError>)
        requires
            old(self).wf(),
            old(self)@.reachable ==> memory_idx.0 == DEFAULT_MEMORY_INDEX,
            old(self)@.store_allowed(ValueType::I64),
        ensures
            final(self).wf(),
            final(self)@ == old(self)@.op(2, Seq::empty(), Instruction::I64Store8(Offset(offset))),
            r is Ok,
    {
        self.translate_store(ValueType::I64, Instruction::I64Store8(Offset(offset)))
    }
    /// Translates a Wasm `i64.store16` instruction.
    pub fn translate_i64_store_i16(&mut self, memory_idx: MemoryIdx, offset: u32) -> (r: Result<(), ModuleError>)
        requires
            old(self).wf(),
            old(self)@.reachable ==> memory_idx.0 == DEFAULT_MEMORY_INDEX,
            old(self)@.store_allowed(ValueType::I64),
        ensures
            final(self).wf(),
            final(self)@ == old(self)@.op(2, Seq::empty(), Instruction::I64Store16(Offset(offset))),
            r is Ok,
    {
        self.translate_store(ValueType::I64, Instruction::I64Store16(Offset(offset)))
    }
    /// Translates a Wasm `i64.store32` instruction.
    pub fn translate_i64_store_i32(&mut self, memory_idx: MemoryIdx, offset: u32) -> (r: Result<(), ModuleError>)
        requires
            old(self).wf(),
            old(self)@.reachable ==> memory_idx.0 == DEFAULT_MEMORY_INDEX,
            old(self)@.store_allowed(ValueType::I64),
        ensures
            final(self).wf(),
            final(self)@ == old(self)@.op(2, Seq::empty(), Instruction::I64Store32(Offset(offset))),
            r is Ok,
    {
        self.translate_store(ValueType::I64, Instruction::I64Store32(Offset(offset)))
    }
}

/// A branch to a region entered at stack height `H` keeps the region's
/// arity `R` (its parameters for a loop, its results otherwise) and drops
/// the rest of what lies above `H`: `keep == R` and `drop == (C - H) - R` at
/// current height `C > H`.
pub proof fn lemma_drop_keep(v: FunctionBuilderView, depth: int)
    requires
        v.wf(),
        v.reachable,
        0 <= depth < v.frames.len(),
        v.frame(depth).stack_height_spec() < v.height(),
        v.keep(depth) <= v.height() - v.frame(depth).stack_height_spec(),
    ensures
        ({
            let f = v.frame(depth);
            let h = f.stack_height_spec() as int;
            let arity = if f.kind_spec() == ControlFrameKind::Loop {
                v.res.block_params(f.block_type_spec()).len() as int
            } else {
                v.res.block_results(f.block_type_spec()).len() as int
            };
            &&& v.drop_keep(depth).keep == arity
            &&& v.drop_keep(depth).drop == (v.height() - h) - arity
        }),
{
    let f = v.frame(depth);
    let t = f.block_type_spec();
    assert(v.res.valid_block_type(t));
    if let BlockType::FuncType(i) = t {
        assert(v.res.func_types_spec()[i.0 as int].params_spec().len() <= u32::MAX);
    }
}

/// After `else` or `end` the code is reachable exactly when the innermost
/// region was entered in reachable code.
pub proof fn lemma_reachability_restored(v: FunctionBuilderView)
    requires
        v.wf(),
        v.frames.len() > 0,
    ensures
        v.ended().reachable == !(v.frames.last() is Unreachable),
        v.else_allowed() ==> v.else_done().reachable == !(v.frames.last() is Unreachable),
{
}

} // verus!
