use vstd::prelude::*;
use crate::interpreter::funge_stack::{FungeStack, below_top, top_of};
use crate::interpreter::funge_value::FungeValue;

verus! {

/// A stack of funge stacks, making it the stack stack.
/// A stack stack always contains atleast one stack.
///
/// Its view lists the stacks from the top down: the stack at index 0 is the
/// top of the stack stack (the TOSS), the one at index 1 is the second (the
/// SOSS), and so on.
pub struct FungeStackStack<V: FungeValue = i32> {
    /// The top stack. It is held apart from the others, so there is always
    /// one.
    top: FungeStack<V>,
    /// The other stacks; the second stack is the last of them.
    lower: Vec<FungeStack<V>>,
}

impl<V: FungeValue> View for FungeStackStack<V> {
    type V = Seq<Seq<V>>;

    closed spec fn view(&self) -> Seq<Seq<V>> {
        Seq::new(
            (self.lower@.len() + 1) as nat,
            |i: int|
                if i == 0 {
                    self.top@
                } else {
                    self.lower@[self.lower@.len() - i]@
                },
        )
    }
}

impl<V: FungeValue> FungeStackStack<V> {
    /// There is always a top stack.
    pub proof fn lemma_never_empty(self)
        ensures
            self@.len() >= 1,
    {
    }

    /// The top stack.
    #[inline]
    pub fn top_stack(&mut self) -> (top: &mut FungeStack<V>)
        ensures
            old(self)@.len() >= 1,
            top@ == old(self)@[0],
            final(self)@ == old(self)@.update(0, final(top)@),
    {
        let ghost before = self@;
        let ghost lower = self.lower@;
        let top = &mut self.top;
        proof {
            assert forall|after: FungeStackStack<V>| after.lower@ == lower implies #[trigger] after@
                =~= before.update(0, after.top@) by {}
        }
        top
    }

    /// The stack below the top stack, where there is one.
    #[inline]
    pub fn second_stack(&mut self) -> (second: Option<&mut FungeStack<V>>)
        ensures
            old(self)@.len() < 2 ==> second is None && final(self)@ == old(self)@,
            old(self)@.len() >= 2 ==> second is Some && second->0@ == old(self)@[1]
                && final(self)@ == old(self)@.update(1, final(second->0)@),
    {
        self.nth_stack(1)
    }

    /// Puts `value` on the top stack.
    #[inline]
    pub fn push(&mut self, value: V)
        ensures
            old(self)@.len() >= 1,
            final(self)@ == old(self)@.update(0, old(self)@[0].push(value)),
    {
        let top = self.top_stack();
        top.push(value);
    }

    /// Takes the top value off the top stack; zero where that stack is empty.
    #[inline]
    pub fn pop(&mut self) -> (value: V)
        ensures
            old(self)@.len() >= 1,
            value == top_of(old(self)@[0]),
            final(self)@ == old(self)@.update(0, below_top(old(self)@[0])),
    {
        let top = self.top_stack();
        top.pop()
    }

    /// Two pops from the top stack; the value that came off first stands
    /// first.
    #[inline]
    pub fn pop_two(&mut self) -> (values: (V, V))
        ensures
            old(self)@.len() >= 1,
            values.0 == top_of(old(self)@[0]),
            values.1 == top_of(below_top(old(self)@[0])),
            final(self)@ == old(self)@.update(0, below_top(below_top(old(self)@[0]))),
    {
        let top = self.top_stack();
        top.pop_two()
    }

    /// Makes `stack` the new top stack.
    #[inline]
    pub fn push_stack(&mut self, stack: FungeStack<V>)
        ensures
            final(self)@ == seq![stack@] + old(self)@,
    {
        let ghost before = self@;
        let mut stack = stack;
        core::mem::swap(&mut self.top, &mut stack);
        self.lower.push(stack);
        assert(self@ =~= seq![self.top@] + before);
    }

    /// Takes the top stack off, unless it is the only one: the last stack
    /// stays where it is.
    #[inline]
    pub fn pop_stack(&mut self) -> (stack: Option<FungeStack<V>>)
        ensures
            final(self)@.len() >= 1,
            old(self)@.len() <= 1 ==> stack is None && final(self)@ == old(self)@,
            old(self)@.len() > 1 ==> stack is Some && stack->0@ == old(self)@[0]
                && final(self)@ == old(self)@.drop_first(),
    {
        let ghost before = self@;
        match self.lower.pop() {
            Some(second) => {
                let mut stack = second;
                core::mem::swap(&mut self.top, &mut stack);
                assert(self@ =~= before.drop_first());
                Some(stack)
            },
            None => {
                assert(self@ =~= before);
                None
            },
        }
    }

    /// Returns the nth stack from the top in this stack stack or None
    /// if the index is greater than or equal the number of stacks.
    /// 0 is the TOSS, 1 the SOSS, etc.
    #[inline]
    pub fn nth_stack(&mut self, index: u32) -> (stack: Option<&mut FungeStack<V>>)
        ensures
            index >= old(self)@.len() ==> stack is None && final(self)@ == old(self)@,
            index < old(self)@.len() ==> stack is Some && stack->0@ == old(self)@[index as int]
                && final(self)@ == old(self)@.update(index as int, final(stack->0)@),
    {
        let ghost before = self@;
        let ghost top = self.top@;
        let ghost lower = self.lower@;
        let len = self.lower.len();
        let index = index as usize;
        if index == 0 {
            let stack = &mut self.top;
            proof {
                assert forall|after: FungeStackStack<V>| after.lower@ == lower implies #[trigger] after@
                    =~= before.update(0, after.top@) by {}
            }
            Some(stack)
        } else if index <= len {
            let stack = &mut self.lower[len - index];
            proof {
                assert forall|after: FungeStackStack<V>, s: FungeStack<V>|
                    after.top@ == top && after.lower@ == lower.update(len - index, s) implies #[trigger] after@
                    =~= before.update(index as int, #[trigger] s@) by {}
            }
            Some(stack)
        } else {
            None
        }
    }

    /// The number of stacks, as far as 32 bits can tell it: a number beyond
    /// that keeps its low 32 bits. There is always at least one stack.
    #[inline]
    pub fn num_stacks(&self) -> (n: u32)
        ensures
            self@.len() >= 1,
            n == self@.len() % 0x1_0000_0000,
            self@.len() <= u32::MAX ==> n == self@.len(),
    {
        let len = self.lower.len() as u128;
        ((len + 1) % 0x1_0000_0000) as u32
    }

    /// A stack stack that holds one empty stack.
    pub fn new() -> (stacks: Self)
        ensures
            stacks@ == seq![Seq::<V>::empty()],
    {
        let stacks = FungeStackStack { top: FungeStack::new(), lower: Vec::with_capacity(8) };
        assert(stacks@ =~= seq![Seq::<V>::empty()]);
        stacks
    }
}

} // verus!
