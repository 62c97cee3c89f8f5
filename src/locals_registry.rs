//! The types of the local variables of a function.

use crate::isa::ValueType;
use vstd::prelude::*;

verus! {

/// A run of local variables of one type, ending before position `end`.
#[derive(Debug, Copy, Clone, PartialEq, Eq, Structural)]
struct LocalGroup {
    value_type: ValueType,
    end: u32,
}

/// Records the declared local variables of a function, run by run.
pub struct LocalsRegistry {
    groups: Vec<LocalGroup>,
    /// The type of each local variable.
    types: Ghost<Seq<ValueType>>,
}

impl View for LocalsRegistry {
    type V = Seq<ValueType>;

    closed spec fn view(&self) -> Seq<ValueType> {
        self.types@
    }
}

impl LocalsRegistry {
    spec fn start(&self, k: int) -> int {
        if k == 0 { 0 } else { self.groups@[k - 1].end as int }
    }

    /// Runs follow each other, the last ends at the number of locals, and each
    /// run gives the type of the locals within it.
    pub closed spec fn wf(&self) -> bool {
        &&& forall|k: int| 0 <= k < self.groups@.len() ==> self.start(k) <= #[trigger] self.groups@[k].end
        &&& forall|k: int| 0 <= k < self.groups@.len() ==> #[trigger] self.groups@[k].end <= self.types@.len()
        &&& self.groups@.len() == 0 ==> self.types@.len() == 0
        &&& self.groups@.len() > 0 ==> self.types@.len() == self.groups@.last().end
        &&& forall|k: int, i: int|
            0 <= k < self.groups@.len() && self.start(k) <= i < (#[trigger] self.groups@[k]).end
                ==> #[trigger] self.types@[i] == self.groups@[k].value_type
    }

    /// Creates a registry without locals.
    pub fn new() -> (r: Self)
        ensures
            r.wf(),
            r@.len() == 0,
    {
        LocalsRegistry { groups: Vec::new(), types: Ghost(Seq::empty()) }
    }

    /// The number of registered locals.
    pub fn len_registered(&self) -> (r: u32)
        requires
            self.wf(),
        ensures
            r == self@.len(),
            self@.len() <= u32::MAX,
    {
        if self.groups.len() == 0 {
            0
        } else {
            self.groups[self.groups.len() - 1].end
        }
    }

    /// Registers `amount` locals of the given type.
    pub fn register_locals(&mut self, value_type: ValueType, amount: u32)
        requires
            old(self).wf(),
            old(self)@.len() + amount <= u32::MAX,
        ensures
            final(self).wf(),
            final(self)@ == old(self)@ + Seq::new(amount as nat, |_i: int| value_type),
            final(self)@.len() <= u32::MAX,
    {
        let len = self.len_registered();
        let ghost old_types = self.types@;
        let ghost added = Seq::new(amount as nat, |_i: int| value_type);
        self.groups.push(LocalGroup { value_type, end: len + amount });
        self.types = Ghost(old_types + added);
        proof {
            let n = self.groups@.len() - 1;
            assert forall|k: int| 0 <= k < self.groups@.len() implies self.start(k) <= #[trigger] self.groups@[k].end
                && self.groups@[k].end <= self.types@.len() by {
                if k < n {
                    assert(old(self).start(k) == self.start(k));
                    assert(old(self).groups@[k] == self.groups@[k]);
                }
            }
            assert forall|k: int, i: int|
                0 <= k < self.groups@.len() && self.start(k) <= i < (#[trigger] self.groups@[k]).end
                    implies #[trigger] self.types@[i] == self.groups@[k].value_type by {
                if k < n {
                    assert(old(self).start(k) == self.start(k));
                    assert(old(self).groups@[k] == self.groups@[k]);
                    assert(old(self).groups@[k].end <= old_types.len());
                }
            }
        }
    }

    /// The type of local `local_idx`, if it exists.
    pub fn resolve_local(&self, local_idx: u32) -> (r: Option<ValueType>)
        requires
            self.wf(),
        ensures
            local_idx < self@.len() ==> r == Some(self@[local_idx as int]),
            local_idx >= self@.len() ==> r is None,
    {
        let mut k: usize = 0;
        while k < self.groups.len()
            invariant
                self.wf(),
                0 <= k <= self.groups@.len(),
                self.start(k as int) <= local_idx,
            decreases self.groups@.len() - k,
        {
            let group = self.groups[k];
            if local_idx < group.end {
                return Some(group.value_type);
            }
            k += 1;
        }
        None
    }
}

} // verus!
