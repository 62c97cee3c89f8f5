//! Compact register-or-constant operands and their deduplicating arena.

use vstd::prelude::*;

verus! {

/// The largest index of a constant that an [`ExecProvider`] can refer to, plus one.
pub const MAX_CONST_INDEX: u32 = 0x7fff_ffff;

/// A register of the execution model.
#[derive(Debug, Copy, Clone, PartialEq, Eq, Structural)]
pub struct ExecRegister(pub u16);

impl ExecRegister {
    /// Creates a register from its raw index.
    pub fn from_inner(index: u16) -> (r: Self)
        ensures
            r.0 == index,
    {
        ExecRegister(index)
    }

    /// Returns the raw index of the register.
    pub fn into_inner(self) -> (r: u16)
        ensures
            r == self.0,
    {
        self.0
    }
}

/// A reference to an entry of the constant table.
#[derive(Debug, Copy, Clone, PartialEq, Eq, Structural)]
pub struct ConstRef(pub u32);

impl ConstRef {
    /// Creates a constant reference from a table index.
    pub fn from_usize(index: usize) -> (r: Self)
        requires
            index <= u32::MAX,
        ensures
            r.0 == index,
    {
        ConstRef(index as u32)
    }

    /// Returns the raw index of the constant.
    pub fn into_inner(self) -> (r: u32)
        ensures
            r == self.0,
    {
        self.0
    }
}

/// Either a register or a constant operand, as an explicit union.
#[derive(Debug, Copy, Clone, PartialEq, Eq, Structural)]
pub enum RegisterOrImmediate {
    Register(ExecRegister),
    Immediate(ConstRef),
}

impl From<ExecRegister> for RegisterOrImmediate {
    fn from(register: ExecRegister) -> (r: Self)
        ensures
            r == RegisterOrImmediate::Register(register),
    {
        RegisterOrImmediate::Register(register)
    }
}

impl vstd::std_specs::convert::FromSpecImpl<ExecRegister> for RegisterOrImmediate {
    open spec fn obeys_from_spec() -> bool {
        true
    }

    open spec fn from_spec(register: ExecRegister) -> Self {
        RegisterOrImmediate::Register(register)
    }
}

impl From<ConstRef> for RegisterOrImmediate {
    fn from(immediate: ConstRef) -> (r: Self)
        ensures
            r == RegisterOrImmediate::Immediate(immediate),
    {
        RegisterOrImmediate::Immediate(immediate)
    }
}

impl vstd::std_specs::convert::FromSpecImpl<ConstRef> for RegisterOrImmediate {
    open spec fn obeys_from_spec() -> bool {
        true
    }

    open spec fn from_spec(immediate: ConstRef) -> Self {
        RegisterOrImmediate::Immediate(immediate)
    }
}

/// The code of a register: its index, which is never negative.
pub open spec fn register_code(register: ExecRegister) -> int {
    register.0 as int
}

/// The code of a constant reference `k`: the negative number `-k - 1`.
pub open spec fn immediate_code(immediate: ConstRef) -> int {
    -(immediate.0 as int) - 1
}

/// What a code stands for: a register when it is not negative, else a constant.
pub open spec fn decode_code(code: int) -> RegisterOrImmediate {
    if code < 0 {
        RegisterOrImmediate::Immediate(ConstRef((-code - 1) as u32))
    } else {
        RegisterOrImmediate::Register(ExecRegister(code as u16))
    }
}

/// A register or a constant operand packed into one signed integer.
///
/// Non-negative values denote registers, negative values denote
/// `-(constant index) - 1`.
#[derive(Debug, Copy, Clone, PartialEq, Eq, Structural)]
pub struct ExecProvider(i32);

impl ExecProvider {
    #[verifier::type_invariant]
    spec fn inv(self) -> bool {
        -(MAX_CONST_INDEX as int) <= self.0 <= u16::MAX
    }

    /// The signed code that the provider holds.
    pub closed spec fn code(self) -> int {
        self.0 as int
    }

    /// Encodes a register.
    pub fn from_register(register: ExecRegister) -> (r: Self)
        ensures
            r.code() == register_code(register),
    {
        ExecProvider(register.into_inner() as u32 as i32)
    }

    /// Encodes a reference to a constant.
    pub fn from_immediate(immediate: ConstRef) -> (r: Self)
        requires
            immediate.0 < MAX_CONST_INDEX,
        ensures
            r.code() == immediate_code(immediate),
    {
        let index: u32 = immediate.into_inner();
        ExecProvider(-((index as i32) + 1))
    }

    /// Decodes the provider into a register or a constant reference.
    pub fn decode(self) -> (r: RegisterOrImmediate)
        ensures
            r == decode_code(self.code()),
    {
        proof {
            use_type_invariant(self);
        }
        if self.0 < 0 {
            let index: i32 = -self.0 - 1;
            RegisterOrImmediate::Immediate(ConstRef::from_usize(index as usize))
        } else {
            RegisterOrImmediate::Register(ExecRegister::from_inner(self.0 as u16))
        }
    }
}

/// Decoding an encoded register or constant gives it back, and no register
/// shares its code with a constant.
pub proof fn lemma_provider_round_trip(register: ExecRegister, immediate: ConstRef)
    requires
        immediate.0 < MAX_CONST_INDEX,
    ensures
        decode_code(register_code(register)) == RegisterOrImmediate::Register(register),
        decode_code(immediate_code(immediate)) == RegisterOrImmediate::Immediate(immediate),
        register_code(register) != immediate_code(immediate),
{
}

/// A run of providers stored in a [`DedupProviderSliceArena`].
#[derive(Debug, Copy, Clone, PartialEq, Eq, Structural)]
pub struct ExecProviderSlice {
    pub first: u16,
    pub len: u16,
}

impl ExecProviderSlice {
    /// Creates a slice from its first position and its length.
    pub fn new(first: u16, len: u16) -> (r: Self)
        ensures
            r.first == first,
            r.len == len,
    {
        ExecProviderSlice { first, len }
    }

    /// The empty slice.
    pub fn empty() -> (r: Self)
        ensures
            r.first == 0,
            r.len == 0,
    {
        ExecProviderSlice { first: 0, len: 0 }
    }

    /// The position after the last provider of the slice.
    pub open spec fn end(self) -> int {
        self.first + self.len
    }
}

/// Two slices that share no position of the buffer.
pub open spec fn slices_disjoint(a: ExecProviderSlice, b: ExecProviderSlice) -> bool {
    a.end() <= b.first || b.end() <= a.first
}

/// Stores runs of providers in one buffer, each distinct run once.
#[derive(Debug)]
pub struct DedupProviderSliceArena {
    /// The slices handed out so far, in the order of allocation.
    dedup: Vec<ExecProviderSlice>,
    /// The providers of all slices.
    providers: Vec<ExecProvider>,
}

impl DedupProviderSliceArena {
    /// The shared buffer of providers.
    pub closed spec fn providers(&self) -> Seq<ExecProvider> {
        self.providers@
    }

    /// The slices handed out so far, each once, in the order of allocation.
    pub closed spec fn slices(&self) -> Seq<ExecProviderSlice> {
        self.dedup@
    }

    /// The providers that a slice stands for.
    pub open spec fn content(&self, slice: ExecProviderSlice) -> Seq<ExecProvider> {
        self.providers().subrange(slice.first as int, slice.end())
    }

    /// A slice lies within the buffer.
    pub open spec fn valid_slice(&self, slice: ExecProviderSlice) -> bool {
        slice.end() <= self.providers().len()
    }

    /// Every slice lies within the buffer, slices follow each other without
    /// overlap, and no two slices hold equal content.
    pub open spec fn wf(&self) -> bool {
        &&& forall|i: int| 0 <= i < self.slices().len() ==> #[trigger] self.valid_slice(self.slices()[i])
        &&& forall|i: int, j: int| 0 <= i < j < self.slices().len()
            ==> (#[trigger] self.slices()[i]).end() <= (#[trigger] self.slices()[j]).first
        &&& forall|i: int, j: int| 0 <= i < j < self.slices().len()
            ==> self.content(#[trigger] self.slices()[i]) != self.content(#[trigger] self.slices()[j])
    }

    /// What [`DedupProviderSliceArena::alloc_slice`] does: it returns the slice that
    /// already holds `regs`, or appends `regs` to the buffer as a new slice.
    pub open spec fn alloc_post(
        old: &Self,
        regs: Seq<ExecProvider>,
        new: &Self,
        r: ExecProviderSlice,
    ) -> bool {
        &&& new.wf()
        &&& new.content(r) == regs
        &&& new.valid_slice(r)
        &&& new.slices().contains(r)
        &&& if exists|i: int| 0 <= i < old.slices().len() && old.content(#[trigger] old.slices()[i]) == regs {
            &&& old.slices().contains(r)
            &&& new.providers() == old.providers()
            &&& new.slices() == old.slices()
        } else {
            &&& r.first == old.providers().len()
            &&& r.len == regs.len()
            &&& new.providers() == old.providers() + regs
            &&& new.slices() == old.slices().push(r)
        }
    }

    /// Creates an empty arena.
    pub fn new() -> (r: Self)
        ensures
            r.wf(),
            r.providers().len() == 0,
            r.slices().len() == 0,
    {
        DedupProviderSliceArena { dedup: Vec::new(), providers: Vec::new() }
    }

    /// Whether the stored slice holds exactly `regs`.
    fn holds(&self, slice: ExecProviderSlice, regs: &[ExecProvider]) -> (r: bool)
        requires
            self.valid_slice(slice),
        ensures
            r == (self.content(slice) == regs@),
    {
        if slice.len as usize != regs.len() {
            return false;
        }
        let first = slice.first as usize;
        let mut k: usize = 0;
        while k < regs.len()
            invariant
                slice.len == regs@.len(),
                self.valid_slice(slice),
                first == slice.first,
                0 <= k <= regs@.len(),
                forall|m: int| 0 <= m < k ==> self.providers()[first + m] == regs@[m],
            decreases regs@.len() - k,
        {
            if self.providers[first + k] != regs[k] {
                assert(self.content(slice)[k as int] != regs@[k as int]);
                return false;
            }
            k += 1;
        }
        assert(self.content(slice) =~= regs@);
        true
    }

    /// Allocates a slice holding `regs`, or returns the slice that already does.
    pub fn alloc_slice(&mut self, regs: &[ExecProvider]) -> (r: ExecProviderSlice)
        requires
            old(self).wf(),
            old(self).providers().len() <= u16::MAX,
            regs@.len() <= u16::MAX,
        ensures
            Self::alloc_post(old(self), regs@, final(self), r),
    {
        let mut i: usize = 0;
        while i < self.dedup.len()
            invariant
                self.wf(),
                0 <= i <= self.slices().len(),
                forall|m: int| 0 <= m < i ==> self.content(#[trigger] self.slices()[m]) != regs@,
            decreases self.slices().len() - i,
        {
            let slice = self.dedup[i];
            if self.holds(slice, regs) {
                return slice;
            }
            i += 1;
        }
        let ghost old_providers = self.providers@;
        let ghost old_slices = self.dedup@;
        assert forall|m: int| 0 <= m < old_slices.len() implies (#[trigger] old_slices[m]).end()
            <= old_providers.len() by {
            assert(self.valid_slice(self.slices()[m]));
        }
        let first = self.providers.len();
        let mut k: usize = 0;
        while k < regs.len()
            invariant
                first == old_providers.len(),
                self.dedup@ == old_slices,
                0 <= k <= regs@.len(),
                self.providers@ == old_providers + regs@.subrange(0, k as int),
            decreases regs@.len() - k,
        {
            self.providers.push(regs[k]);
            k += 1;
            assert(self.providers@ =~= old_providers + regs@.subrange(0, k as int));
        }
        assert(regs@.subrange(0, regs@.len() as int) =~= regs@);
        let slice = ExecProviderSlice { first: first as u16, len: regs.len() as u16 };
        self.dedup.push(slice);
        proof {
            assert(self.content(slice) =~= regs@);
            assert forall|m: int| 0 <= m < old_slices.len() implies self.content(
                #[trigger] old_slices[m],
            ) == old_providers.subrange(old_slices[m].first as int, old_slices[m].end()) by {
                assert(self.content(old_slices[m]) =~= old_providers.subrange(
                    old_slices[m].first as int,
                    old_slices[m].end(),
                ));
            }
            assert(self.slices()[old_slices.len() as int] == slice);
        }
        slice
    }

    /// Returns the providers of a slice.
    pub fn resolve(&self, slice: ExecProviderSlice) -> (r: &[ExecProvider])
        requires
            self.valid_slice(slice),
        ensures
            r@ == self.content(slice),
    {
        let first = slice.first as usize;
        let end = first + slice.len as usize;
        vstd::slice::slice_subrange(self.providers.as_slice(), first, end)
    }
}

impl Default for DedupProviderSliceArena {
    fn default() -> (r: Self)
        ensures
            r.wf(),
            r.providers().len() == 0,
            r.slices().len() == 0,
    {
        DedupProviderSliceArena::new()
    }
}

/// Two allocations of equal runs give the same slice, with the same content;
/// two allocations of different runs give different slices that share no
/// position of the buffer.
pub proof fn lemma_alloc_dedup(
    a0: &DedupProviderSliceArena,
    x: Seq<ExecProvider>,
    a1: &DedupProviderSliceArena,
    h1: ExecProviderSlice,
    y: Seq<ExecProvider>,
    a2: &DedupProviderSliceArena,
    h2: ExecProviderSlice,
)
    requires
        a0.wf(),
        DedupProviderSliceArena::alloc_post(a0, x, a1, h1),
        DedupProviderSliceArena::alloc_post(a1, y, a2, h2),
    ensures
        x == y ==> h1 == h2 && a2.content(h1) == a2.content(h2),
        x != y ==> h1 != h2 && slices_disjoint(h1, h2),
{
    let i1 = choose|i: int| 0 <= i < a1.slices().len() && a1.slices()[i] == h1;
    assert(a1.slices().contains(h1));
    assert(a2.slices().contains(h1)) by {
        if a2.slices() != a1.slices() {
            assert(a2.slices()[i1] == h1);
        }
    }
    assert(a2.content(h1) == x) by {
        assert(a2.providers().subrange(0, a1.providers().len() as int) =~= a1.providers());
        assert(a2.content(h1) =~= a1.content(h1));
    }
    if x == y {
        assert(a1.content(a1.slices()[i1]) == y);
        let j = choose|j: int| 0 <= j < a1.slices().len() && a1.slices()[j] == h2;
        if j != i1 {
            assert(a1.content(a1.slices()[j]) == y);
        }
    } else {
        let k1 = choose|k: int| 0 <= k < a2.slices().len() && a2.slices()[k] == h1;
        let k2 = choose|k: int| 0 <= k < a2.slices().len() && a2.slices()[k] == h2;
        assert(k1 != k2);
        if k1 < k2 {
            assert(a2.slices()[k1].end() <= a2.slices()[k2].first);
        } else {
            assert(a2.slices()[k2].end() <= a2.slices()[k1].first);
        }
    }
}

} // verus!
