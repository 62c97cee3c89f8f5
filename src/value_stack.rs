//! The value stack of translation: it holds types, never values.

use crate::isa::ValueType;
use vstd::prelude::*;

verus! {

/// The types of the values that the translated code leaves on the stack.
#[derive(Debug)]
pub struct ValueStack {
    values: Vec<ValueType>,
}

impl View for ValueStack {
    type V = Seq<ValueType>;

    closed spec fn view(&self) -> Seq<ValueType> {
        self.values@
    }
}

impl ValueStack {
    /// Creates an empty stack.
    pub fn new() -> (r: Self)
        ensures
            r@.len() == 0,
    {
        ValueStack { values: Vec::new() }
    }

    /// The height of the stack.
    pub fn len(&self) -> (r: u32)
        requires
            self@.len() <= u32::MAX,
        ensures
            r == self@.len(),
    {
        self.values.len() as u32
    }

    /// Pushes a value of the given type.
    pub fn push(&mut self, value_type: ValueType)
        ensures
            final(self)@ == old(self)@.push(value_type),
    {
        self.values.push(value_type);
    }

    /// The type of the topmost value.
    pub fn top(&self) -> (r: ValueType)
        requires
            self@.len() > 0,
        ensures
            r == self@.last(),
    {
        self.values[self.values.len() - 1]
    }

    /// Pops the topmost value.
    pub fn pop1(&mut self) -> (r: ValueType)
        requires
            old(self)@.len() > 0,
        ensures
            r == old(self)@.last(),
            final(self)@ == old(self)@.drop_last(),
    {
        match self.values.pop() {
            Some(value_type) => value_type,
            None => ValueType::I32,
        }
    }

    /// Pops the two topmost values, the lower one first.
    pub fn pop2(&mut self) -> (r: (ValueType, ValueType))
        requires
            old(self)@.len() >= 2,
        ensures
            final(self)@ == old(self)@.subrange(0, old(self)@.len() - 2),
            r.0 == old(self)@[old(self)@.len() - 2],
            r.1 == old(self)@[old(self)@.len() - 1],
    {
        let rhs = self.pop1();
        let lhs = self.pop1();
        assert(self@ =~= old(self)@.subrange(0, old(self)@.len() - 2));
        (lhs, rhs)
    }

    /// Pops the three topmost values, the lowest one first.
    pub fn pop3(&mut self) -> (r: (ValueType, ValueType, ValueType))
        requires
            old(self)@.len() >= 3,
        ensures
            final(self)@ == old(self)@.subrange(0, old(self)@.len() - 3),
            r.0 == old(self)@[old(self)@.len() - 3],
            r.1 == old(self)@[old(self)@.len() - 2],
            r.2 == old(self)@[old(self)@.len() - 1],
    {
        let (v1, v2) = self.pop2();
        let v0 = self.pop1();
        assert(self@ =~= old(self)@.subrange(0, old(self)@.len() - 3));
        (v0, v1, v2)
    }

    /// Shrinks the stack to the given height.
    pub fn shrink_to(&mut self, height: u32)
        requires
            height <= old(self)@.len(),
        ensures
            final(self)@ == old(self)@.subrange(0, height as int),
    {
        self.values.truncate(height as usize);
    }
}

} // verus!
