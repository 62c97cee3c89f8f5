//! Incremental construction of an instruction stream with forward labels.

use crate::isa::{Instruction, InstructionIdx, LabelIdx, INVALID_INSTRUCTION_INDEX};
use vstd::prelude::*;

verus! {

/// A use of a label that is patched once the label is resolved.
#[derive(Debug, Copy, Clone, PartialEq, Eq, Structural)]
pub enum Reloc {
    /// The branch instruction at `inst_idx`.
    Br { inst_idx: InstructionIdx },
    /// Arm `target_idx` of the branch table whose header stands at `inst_idx`.
    BrTable { inst_idx: InstructionIdx, target_idx: usize },
}

impl Reloc {
    /// The position of the instruction that the relocation patches.
    pub open spec fn position(self) -> int {
        match self {
            Reloc::Br { inst_idx } => inst_idx.0 as int,
            Reloc::BrTable { inst_idx, target_idx } => inst_idx.0 + target_idx + 1,
        }
    }

    /// The relocation points at an instruction of `insts` that it can patch.
    pub open spec fn fits(self, insts: Seq<Instruction>) -> bool {
        &&& 0 <= self.position() < insts.len()
        &&& match self {
            Reloc::Br { .. } => insts[self.position()].is_branch(),
            Reloc::BrTable { .. } => insts[self.position()] is BrTableTarget,
        }
    }
}

/// The state of a label.
#[derive(Debug, Copy, Clone, PartialEq, Eq, Structural)]
pub enum Label {
    /// The label stands for this position.
    Resolved(InstructionIdx),
    /// The position of the label is not known yet.
    Unresolved,
}

/// The destination of a branch instruction or branch table arm.
pub open spec fn destination(inst: Instruction) -> Option<InstructionIdx> {
    match inst {
        Instruction::Br(t) => Some(t.dst_pc),
        Instruction::BrIfEqz(t) => Some(t.dst_pc),
        Instruction::BrIfNez(t) => Some(t.dst_pc),
        Instruction::BrTableTarget(t) => Some(t.dst_pc),
        _ => None,
    }
}

/// Whether a relocation of `uses` patches position `i`.
pub open spec fn patched_at(uses: Seq<Reloc>, i: int) -> bool {
    exists|k: int| 0 <= k < uses.len() && (#[trigger] uses[k]).position() == i
}

/// The contents of an [`InstructionsBuilder`].
pub struct BuilderView {
    /// The instructions emitted so far.
    pub insts: Seq<Instruction>,
    /// The state of each label.
    pub labels: Seq<Label>,
    /// The relocations that wait for each label.
    pub uses: Seq<Seq<Reloc>>,
}

impl BuilderView {
    /// The position that the next instruction will take.
    pub open spec fn pc(self) -> int {
        self.insts.len() as int
    }

    /// The label exists.
    pub open spec fn has_label(self, label: LabelIdx) -> bool {
        label.0 < self.labels.len()
    }

    /// The destination that a branch to `label` is emitted with: the label's
    /// position if it is resolved, else the placeholder.
    pub open spec fn branch_dst(self, label: LabelIdx) -> InstructionIdx {
        match self.labels[label.0 as int] {
            Label::Resolved(pc) => pc,
            Label::Unresolved => InstructionIdx(INVALID_INSTRUCTION_INDEX),
        }
    }

    /// Every relocation that waits for a label points at an instruction it can patch.
    pub open spec fn relocs_fit(self) -> bool {
        forall|l: int, k: int|
            0 <= l < self.uses.len() && 0 <= k < self.uses[l].len() ==> (#[trigger] self.uses[l][k]).fits(
                self.insts,
            )
    }

    /// The waiting relocations after `reloc` is recorded as a use of `label`,
    /// which happens only while the label is unresolved.
    pub open spec fn recorded(self, label: LabelIdx, reloc: Reloc) -> Seq<Seq<Reloc>> {
        if self.labels[label.0 as int] is Unresolved {
            self.uses.update(label.0 as int, self.uses[label.0 as int].push(reloc))
        } else {
            self.uses
        }
    }

    /// What [`InstructionsBuilder::try_resolve_label`] does.
    pub open spec fn try_resolve_post(
        self,
        label: LabelIdx,
        reloc: Reloc,
        new: BuilderView,
        r: InstructionIdx,
    ) -> bool {
        &&& r == self.branch_dst(label)
        &&& new.insts == self.insts
        &&& new.labels == self.labels
        &&& new.uses == self.recorded(label, reloc)
    }

    /// The builder after `label` is resolved to the current position, every
    /// relocation that waited for it patched with that position.
    pub open spec fn resolved(self, label: LabelIdx) -> BuilderView {
        let l = label.0 as int;
        let pc = InstructionIdx(self.pc() as u32);
        BuilderView {
            insts: Seq::new(
                self.insts.len(),
                |i: int|
                    if patched_at(self.uses[l], i) {
                        self.insts[i].with_destination(pc)
                    } else {
                        self.insts[i]
                    },
            ),
            labels: self.labels.update(l, Label::Resolved(pc)),
            uses: self.uses.update(l, Seq::empty()),
        }
    }

    /// What [`InstructionsBuilder::resolve_label`] does: the label takes the
    /// current position, and every relocation that waited for it is patched
    /// with that position.
    pub open spec fn resolve_post(self, label: LabelIdx, new: BuilderView) -> bool {
        let l = label.0 as int;
        let pc = InstructionIdx(self.pc() as u32);
        &&& new.labels == self.labels.update(l, Label::Resolved(pc))
        &&& new.uses == self.uses.update(l, Seq::empty())
        &&& new.insts.len() == self.insts.len()
        &&& forall|i: int|
            0 <= i < self.insts.len() ==> #[trigger] new.insts[i] == if patched_at(self.uses[l], i) {
                self.insts[i].with_destination(pc)
            } else {
                self.insts[i]
            }
    }
}

/// Accumulates an instruction stream, its labels and the relocations that
/// wait for them.
#[derive(Debug)]
pub struct InstructionsBuilder {
    insts: Vec<Instruction>,
    labels: Vec<Label>,
    uses: Vec<Vec<Reloc>>,
}

impl View for InstructionsBuilder {
    type V = BuilderView;

    closed spec fn view(&self) -> BuilderView {
        BuilderView {
            insts: self.insts@,
            labels: self.labels@,
            uses: self.uses@.map_values(|u: Vec<Reloc>| u@),
        }
    }
}

impl InstructionsBuilder {
    /// Each label has a list of waiting relocations, a resolved label has none,
    /// and every position fits into an instruction index.
    pub open spec fn wf(&self) -> bool {
        &&& self@.labels.len() == self@.uses.len()
        &&& self@.insts.len() <= u32::MAX
        &&& forall|l: int|
            0 <= l < self@.labels.len() && (#[trigger] self@.labels[l]) is Resolved ==> self@.uses[l].len() == 0
    }

    /// Creates an empty builder.
    pub fn new() -> (r: Self)
        ensures
            r.wf(),
            r@.insts.len() == 0,
            r@.labels.len() == 0,
            r@.uses.len() == 0,
    {
        let r = InstructionsBuilder { insts: Vec::new(), labels: Vec::new(), uses: Vec::new() };
        assert(r@.uses =~= Seq::empty());
        r
    }

    /// The position that the next instruction will take.
    pub fn current_pc(&self) -> (r: InstructionIdx)
        requires
            self.wf(),
        ensures
            r.0 == self@.pc(),
    {
        InstructionIdx::from_usize(self.insts.len())
    }

    /// Appends an instruction and returns its position.
    pub fn push_inst(&mut self, inst: Instruction) -> (r: InstructionIdx)
        requires
            old(self).wf(),
            old(self)@.insts.len() < u32::MAX,
        ensures
            final(self).wf(),
            final(self)@ == (BuilderView { insts: old(self)@.insts.push(inst), ..old(self)@ }),
            r.0 == old(self)@.pc(),
    {
        let pc = InstructionIdx::from_usize(self.insts.len());
        self.insts.push(inst);
        pc
    }

    /// Creates a new unresolved label.
    pub fn new_label(&mut self) -> (r: LabelIdx)
        requires
            old(self).wf(),
        ensures
            final(self).wf(),
            r.0 == old(self)@.labels.len(),
            final(self)@ == (BuilderView {
                labels: old(self)@.labels.push(Label::Unresolved),
                uses: old(self)@.uses.push(Seq::empty()),
                ..old(self)@
            }),
    {
        let r = LabelIdx(self.labels.len());
        self.labels.push(Label::Unresolved);
        self.uses.push(Vec::new());
        assert(self@.uses =~= old(self)@.uses.push(Seq::empty()));
        r
    }

    /// Whether the label is resolved.
    pub fn is_resolved(&self, label: LabelIdx) -> (r: bool)
        requires
            self.wf(),
            self@.has_label(label),
        ensures
            r == self@.labels[label.0 as int] is Resolved,
    {
        match self.labels[label.0] {
            Label::Resolved(_) => true,
            Label::Unresolved => false,
        }
    }

    /// Returns the position of a resolved label; for an unresolved one,
    /// records `reloc` to be patched once it is resolved and returns the
    /// placeholder.
    pub fn try_resolve_label(&mut self, label: LabelIdx, reloc: Reloc) -> (r: InstructionIdx)
        requires
            old(self).wf(),
            old(self)@.has_label(label),
        ensures
            final(self).wf(),
            old(self)@.try_resolve_post(label, reloc, final(self)@, r),
    {
        match self.labels[label.0] {
            Label::Resolved(pc) => pc,
            Label::Unresolved => {
                let ghost old_uses = self@.uses;
                self.uses[label.0].push(reloc);
                assert(self@.uses =~= old_uses.update(label.0 as int, old_uses[label.0 as int].push(reloc)));
                InstructionIdx::invalid()
            },
        }
    }

    /// Patches the instruction that `reloc` points at with destination `pc`.
    fn patch_relocation(&mut self, reloc: Reloc, pc: InstructionIdx)
        requires
            old(self).wf(),
            reloc.fits(old(self)@.insts),
        ensures
            final(self).wf(),
            final(self)@ == (BuilderView {
                insts: old(self)@.insts.update(
                    reloc.position(),
                    old(self)@.insts[reloc.position()].with_destination(pc),
                ),
                ..old(self)@
            }),
    {
        let position: usize = match reloc {
            Reloc::Br { inst_idx } => inst_idx.into_usize(),
            Reloc::BrTable { inst_idx, target_idx } => inst_idx.into_usize() + target_idx + 1,
        };
        self.insts[position].update_destination_pc(pc);
    }

    /// Resolves the label to the current position and patches every
    /// relocation that waited for it.
    pub fn resolve_label(&mut self, label: LabelIdx)
        requires
            old(self).wf(),
            old(self)@.has_label(label),
            old(self)@.labels[label.0 as int] is Unresolved,
            forall|k: int|
                0 <= k < old(self)@.uses[label.0 as int].len() ==> (#[trigger] old(
                    self,
                )@.uses[label.0 as int][k]).fits(old(self)@.insts),
        ensures
            final(self).wf(),
            old(self)@.resolve_post(label, final(self)@),
            final(self)@ == old(self)@.resolved(label),
            old(self)@.relocs_fit() ==> final(self)@.relocs_fit(),
    {
        let pc = self.current_pc();
        let l = label.0;
        let ghost old_insts = self@.insts;
        let ghost uses = self@.uses[l as int];
        let mut pending: Vec<Reloc> = Vec::new();
        std::mem::swap(&mut pending, &mut self.uses[l]);
        assert(pending@ == uses);
        let mut k: usize = 0;
        while k < pending.len()
            invariant
                self.wf(),
                0 <= k <= uses.len(),
                pending@ == uses,
                l < self@.labels.len(),
                self@.labels == old(self)@.labels,
                self@.uses == old(self)@.uses.update(l as int, Seq::empty()),
                self@.insts.len() == old_insts.len(),
                pc.0 == old_insts.len(),
                forall|m: int| 0 <= m < uses.len() ==> (#[trigger] uses[m]).fits(old_insts),
                forall|i: int|
                    0 <= i < old_insts.len() ==> #[trigger] self@.insts[i] == if patched_at(
                        uses.subrange(0, k as int),
                        i,
                    ) {
                        old_insts[i].with_destination(pc)
                    } else {
                        old_insts[i]
                    },
            decreases uses.len() - k,
        {
            let reloc = pending[k];
            proof {
                let i = reloc.position();
                assert(uses[k as int] == reloc);
                if patched_at(uses.subrange(0, k as int), i) {
                    let m = choose|m: int| 0 <= m < k && (#[trigger] uses.subrange(0, k as int)[m]).position() == i;
                    assert(uses.subrange(0, k as int)[m] == uses[m]);
                }
                assert(reloc.fits(self@.insts)) by {
                    assert(self@.insts[i] == old_insts[i] || self@.insts[i] == old_insts[i].with_destination(pc));
                }
            }
            self.patch_relocation(reloc, pc);
            proof {
                let next = uses.subrange(0, k as int + 1);
                assert forall|i: int| 0 <= i < old_insts.len() implies #[trigger] self@.insts[i] == if patched_at(
                    next,
                    i,
                ) {
                    old_insts[i].with_destination(pc)
                } else {
                    old_insts[i]
                } by {
                    if i == reloc.position() {
                        assert(next[k as int] == reloc);
                    } else if patched_at(uses.subrange(0, k as int), i) {
                        let m = choose|m: int| 0 <= m < k && (#[trigger] uses.subrange(0, k as int)[m]).position() == i;
                        assert(next[m] == uses.subrange(0, k as int)[m]);
                    } else if patched_at(next, i) {
                        let m = choose|m: int| 0 <= m < k + 1 && (#[trigger] next[m]).position() == i;
                        assert(uses.subrange(0, k as int)[m] == next[m]);
                    }
                }
            }
            k += 1;
        }
        assert(uses.subrange(0, uses.len() as int) =~= uses);
        self.labels.set(l, Label::Resolved(pc));
        assert(self@.labels =~= old(self)@.labels.update(l as int, Label::Resolved(pc)));
        assert(self@.insts =~= old(self)@.resolved(label).insts);
        proof {
            if old(self)@.relocs_fit() {
                lemma_resolve_keeps_fit(old(self)@, label, self@);
            }
        }
    }

    /// Resolves the label to the current position unless it is resolved already.
    pub fn resolve_label_if_unresolved(&mut self, label: LabelIdx)
        requires
            old(self).wf(),
            old(self)@.has_label(label),
            forall|k: int|
                0 <= k < old(self)@.uses[label.0 as int].len() ==> (#[trigger] old(
                    self,
                )@.uses[label.0 as int][k]).fits(old(self)@.insts),
        ensures
            final(self).wf(),
            old(self)@.labels[label.0 as int] is Unresolved ==> final(self)@ == old(self)@.resolved(label),
            old(self)@.labels[label.0 as int] is Resolved ==> final(self)@ == old(self)@,
            old(self)@.relocs_fit() ==> final(self)@.relocs_fit(),
    {
        if !self.is_resolved(label) {
            self.resolve_label(label);
        }
    }

    /// The number of labels.
    pub fn labels_len(&self) -> (r: usize)
        ensures
            r == self@.labels.len(),
    {
        self.labels.len()
    }

    /// The state of a label.
    pub fn label(&self, label: LabelIdx) -> (r: Label)
        requires
            self.wf(),
            self@.has_label(label),
        ensures
            r == self@.labels[label.0 as int],
    {
        self.labels[label.0]
    }

    /// The instructions emitted so far.
    pub fn instructions(&self) -> (r: &[Instruction])
        ensures
            r@ == self@.insts,
    {
        self.insts.as_slice()
    }

    /// Hands out the finished instruction stream.
    pub fn finish(self) -> (r: Vec<Instruction>)
        ensures
            r@ == self@.insts,
    {
        self.insts
    }
}

/// Resolving a label keeps the other labels' relocations fitting: patching
/// changes only destinations.
pub proof fn lemma_resolve_keeps_fit(b: BuilderView, label: LabelIdx, b2: BuilderView)
    requires
        b.relocs_fit(),
        b.has_label(label),
        b.labels.len() == b.uses.len(),
        b.resolve_post(label, b2),
    ensures
        b2.relocs_fit(),
{
    let pc = InstructionIdx(b.pc() as u32);
    assert forall|l: int, k: int| 0 <= l < b2.uses.len() && 0 <= k < b2.uses[l].len() implies (#[trigger] b2.uses[l][k]).fits(
        b2.insts,
    ) by {
        let r = b.uses[l][k];
        assert(b2.uses[l][k] == r);
        assert(r.fits(b.insts));
        let p = r.position();
        assert(b2.insts[p] == b.insts[p] || b2.insts[p] == b.insts[p].with_destination(pc));
    }
}

/// Recording a use of a label at the next position and then emitting an
/// instruction there that the use can patch keeps every waiting relocation
/// fitting.
pub proof fn lemma_record_and_push_fit(b: BuilderView, label: LabelIdx, reloc: Reloc, inst: Instruction, b2: BuilderView)
    requires
        b.relocs_fit(),
        b.labels.len() == b.uses.len(),
        b.has_label(label),
        reloc.position() == b.insts.len(),
        b2 == (BuilderView { insts: b.insts.push(inst), labels: b.labels, uses: b.recorded(label, reloc) }),
        reloc.fits(b2.insts),
    ensures
        b2.relocs_fit(),
{
    assert forall|l: int, k: int| 0 <= l < b2.uses.len() && 0 <= k < b2.uses[l].len() implies (#[trigger] b2.uses[l][k]).fits(
        b2.insts,
    ) by {
        if l == label.0 && b.labels[l] is Unresolved && k == b.uses[l].len() {
            assert(b2.uses[l][k] == reloc);
        } else {
            assert(b2.uses[l][k] == b.uses[l][k]);
            assert(b.uses[l][k].fits(b.insts));
            assert(b2.insts[b.uses[l][k].position()] == b.insts[b.uses[l][k].position()]);
        }
    }
}

/// A branch recorded against an unresolved label, emitted, and followed
/// by the label's resolution ends up with the resolved position as its
/// destination; so does every other relocation that waited for the label,
/// and the label is then resolved, so that it cannot be resolved again.
pub proof fn lemma_label_resolution(
    b0: BuilderView,
    label: LabelIdx,
    reloc: Reloc,
    b1: BuilderView,
    dst: InstructionIdx,
    b2: BuilderView,
    b3: BuilderView,
)
    requires
        b0.labels.len() == b0.uses.len(),
        b0.has_label(label),
        b0.labels[label.0 as int] is Unresolved,
        b0.try_resolve_post(label, reloc, b1, dst),
        b2.labels == b1.labels,
        b2.uses == b1.uses,
        b1.insts.is_prefix_of(b2.insts),
        forall|k: int| 0 <= k < b2.uses[label.0 as int].len() ==> (#[trigger] b2.uses[label.0 as int][k]).fits(b2.insts),
        b2.resolve_post(label, b3),
    ensures
        dst.0 == INVALID_INSTRUCTION_INDEX,
        destination(b3.insts[reloc.position()]) == Some(InstructionIdx(b2.pc() as u32)),
        forall|k: int|
            0 <= k < b0.uses[label.0 as int].len() ==> destination(
                b3.insts[(#[trigger] b0.uses[label.0 as int][k]).position()],
            ) == Some(InstructionIdx(b2.pc() as u32)),
        b3.labels[label.0 as int] is Resolved,
{
    let l = label.0 as int;
    let pc = InstructionIdx(b2.pc() as u32);
    let u = b2.uses[l];
    assert(u == b0.uses[l].push(reloc));
    assert(u[u.len() - 1] == reloc);
    assert(reloc.fits(b2.insts));
    assert(patched_at(u, reloc.position()));
    assert forall|k: int| 0 <= k < b0.uses[l].len() implies destination(
        b3.insts[(#[trigger] b0.uses[l][k]).position()],
    ) == Some(pc) by {
        assert(u[k] == b0.uses[l][k]);
        assert(u[k].fits(b2.insts));
        assert(patched_at(u, u[k].position()));
    }
}

} // verus!
