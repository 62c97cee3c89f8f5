//! One contiguous store for the instructions of all function bodies.

use crate::isa::Instruction;
use vstd::prelude::*;

verus! {

/// The position of the first instruction of a function body in a [`CodeMap`].
#[derive(Debug, Copy, Clone, PartialEq, Eq, Structural)]
pub struct FirstInstr(pub u32);

impl FirstInstr {
    /// Creates the position `value`.
    pub fn from_usize(value: usize) -> (r: Self)
        requires
            value <= u32::MAX,
        ensures
            r.0 == value,
    {
        FirstInstr(value as u32)
    }

    /// Returns the position.
    pub fn into_usize(self) -> (r: usize)
        ensures
            r == self.0,
    {
        self.0 as usize
    }
}

/// A function body stored in a [`CodeMap`]: its first position and its length.
#[derive(Debug, Copy, Clone, PartialEq, Eq, Structural)]
pub struct FuncBody {
    pub inst: FirstInstr,
    pub len: u32,
}

impl FuncBody {
    /// Creates a handle from the first position and the number of instructions.
    pub fn new(inst: FirstInstr, len: u32) -> (r: Self)
        ensures
            r.inst == inst,
            r.len == len,
    {
        FuncBody { inst, len }
    }

    /// The position of the first instruction.
    pub fn inst(self) -> (r: FirstInstr)
        ensures
            r == self.inst,
    {
        self.inst
    }

    /// The number of instructions.
    pub fn len(self) -> (r: u32)
        ensures
            r == self.len,
    {
        self.len
    }

    /// The first position of the body.
    pub open spec fn first(self) -> int {
        self.inst.0 as int
    }

    /// The position after the last instruction of the body.
    pub open spec fn end(self) -> int {
        self.inst.0 + self.len
    }
}

/// Stores the instructions of all function bodies in one buffer.
#[derive(Debug)]
pub struct CodeMap {
    insts: Vec<Instruction>,
}

impl View for CodeMap {
    type V = Seq<Instruction>;

    closed spec fn view(&self) -> Seq<Instruction> {
        self.insts@
    }
}

impl Default for CodeMap {
    fn default() -> (r: Self)
        ensures
            r@.len() == 0,
    {
        CodeMap::new()
    }
}

/// The instructions of a function body, borrowed from a [`CodeMap`].
#[derive(Debug, Copy, Clone)]
pub struct ResolvedFuncBody<'a> {
    insts: &'a [Instruction],
}

impl<'a> View for ResolvedFuncBody<'a> {
    type V = Seq<Instruction>;

    closed spec fn view(&self) -> Seq<Instruction> {
        self.insts@
    }
}

impl<'a> ResolvedFuncBody<'a> {
    /// Returns the instruction at `index`, if the body has one there.
    pub fn get(&self, index: usize) -> (r: Option<&Instruction>)
        ensures
            index < self@.len() ==> r == Some(&self@[index as int]),
            index >= self@.len() ==> r is None,
    {
        if index < self.insts.len() {
            Some(&self.insts[index])
        } else {
            None
        }
    }

    /// The number of instructions of the body.
    pub fn len(&self) -> (r: usize)
        ensures
            r == self@.len(),
    {
        self.insts.len()
    }
}

impl CodeMap {
    /// Creates an empty code map.
    pub fn new() -> (r: Self)
        ensures
            r@.len() == 0,
    {
        CodeMap { insts: Vec::new() }
    }

    /// The number of stored instructions.
    pub fn len(&self) -> (r: usize)
        ensures
            r == self@.len(),
    {
        self.insts.len()
    }

    /// The handle lies within the buffer.
    pub open spec fn valid(&self, func_body: FuncBody) -> bool {
        func_body.end() <= self@.len()
    }

    /// The instructions that a handle stands for.
    pub open spec fn body(&self, func_body: FuncBody) -> Seq<Instruction> {
        self@.subrange(func_body.first(), func_body.end())
    }

    /// What [`CodeMap::alloc_body`] does: it appends the instructions and
    /// returns their position and number.
    pub open spec fn alloc_post(old: &Self, insts: Seq<Instruction>, new: &Self, r: FuncBody) -> bool {
        &&& new@ == old@ + insts
        &&& r.first() == old@.len()
        &&& r.len == insts.len()
    }

    /// Returns the position that the next function body will start at.
    fn next_index(&self) -> (r: FirstInstr)
        requires
            self@.len() <= u32::MAX,
        ensures
            r.0 == self@.len(),
    {
        FirstInstr::from_usize(self.insts.len())
    }

    /// Appends the instructions of a function body and returns its handle.
    pub fn alloc_body(&mut self, insts: Vec<Instruction>) -> (r: FuncBody)
        requires
            old(self)@.len() + insts@.len() <= u32::MAX,
        ensures
            Self::alloc_post(old(self), insts@, final(self), r),
            final(self).valid(r),
            final(self).body(r) == insts@,
    {
        let inst = self.next_index();
        let len_before = self.insts.len();
        let ghost added = insts@;
        let mut insts = insts;
        self.insts.append(&mut insts);
        let len_after = self.insts.len();
        let r = FuncBody::new(inst, (len_after - len_before) as u32);
        assert(self.body(r) =~= self@.subrange(len_before as int, len_after as int));
        assert(self@.subrange(len_before as int, len_after as int) =~= added);
        r
    }

    /// Returns the instructions of a function body.
    pub fn resolve(&self, func_body: FuncBody) -> (r: ResolvedFuncBody<'_>)
        requires
            self.valid(func_body),
        ensures
            r@ == self.body(func_body),
    {
        let first_inst = func_body.inst().into_usize();
        let len_insts = func_body.len() as usize;
        let total = self.insts.len();
        assert(first_inst + len_insts <= total);
        let insts = vstd::slice::slice_subrange(self.insts.as_slice(), first_inst, first_inst + len_insts);
        ResolvedFuncBody { insts }
    }
}

/// The total number of instructions of a run of function bodies.
pub open spec fn total_len(bodies: Seq<Seq<Instruction>>) -> nat
    decreases bodies.len(),
{
    if bodies.len() == 0 {
        0
    } else {
        total_len(bodies.drop_last()) + bodies.last().len()
    }
}

/// Allocating function bodies one after the other into an empty code map
/// gives handles that resolve to those bodies, follow each other without
/// overlap from the first position on, and together cover exactly the sum of
/// the bodies' lengths.
pub proof fn lemma_code_map_layout(
    maps: Seq<CodeMap>,
    bodies: Seq<Seq<Instruction>>,
    handles: Seq<FuncBody>,
)
    requires
        maps.len() == bodies.len() + 1,
        handles.len() == bodies.len(),
        maps[0]@.len() == 0,
        forall|i: int|
            0 <= i < bodies.len() ==> CodeMap::alloc_post(
                &maps[i],
                #[trigger] bodies[i],
                &maps[i + 1],
                handles[i],
            ),
    ensures
        maps.last()@.len() == total_len(bodies),
        forall|i: int|
            0 <= i < handles.len() ==> maps.last().valid(#[trigger] handles[i])
                && maps.last().body(handles[i]) == bodies[i],
        handles.len() > 0 ==> handles[0].first() == 0,
        forall|i: int|
            0 <= i < handles.len() - 1 ==> #[trigger] handles[i + 1].first() == handles[i].end(),
        handles.len() > 0 ==> handles.last().end() == total_len(bodies),
    decreases bodies.len(),
{
    let n = bodies.len();
    if n > 0 {
        let m = n - 1;
        assert(CodeMap::alloc_post(&maps[m], bodies[m], &maps[m + 1], handles[m]));
        lemma_code_map_layout(maps.drop_last(), bodies.drop_last(), handles.drop_last());
        assert(bodies.drop_last().len() == m);
        let last = maps.last();
        let prev = maps[m];
        assert(prev == maps.drop_last().last());
        assert forall|i: int| 0 <= i < n implies last.valid(#[trigger] handles[i]) && last.body(
            handles[i],
        ) == bodies[i] by {
            if i < m {
                assert(handles.drop_last()[i] == handles[i]);
                assert(bodies.drop_last()[i] == bodies[i]);
                assert(prev.valid(handles[i]));
                assert(last@.subrange(0, prev@.len() as int) =~= prev@);
                assert(last.body(handles[i]) =~= prev.body(handles[i]));
            } else {
                assert(last.body(handles[i]) =~= bodies[i]);
            }
        }
        assert forall|i: int| 0 <= i < n - 1 implies #[trigger] handles[i + 1].first() == handles[i].end() by {
            if i + 1 < m {
                assert(handles.drop_last()[i + 1] == handles[i + 1]);
                assert(handles.drop_last()[i] == handles[i]);
            } else {
                assert(handles[i] == handles.drop_last().last());
            }
        }
        if m > 0 {
            assert(handles[0] == handles.drop_last()[0]);
        }
    }
}

} // verus!
