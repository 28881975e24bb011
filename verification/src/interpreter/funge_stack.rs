use vstd::prelude::*;
use crate::interpreter::funge_value::FungeValue;

verus! {

/// A stack of cell values. Its view lists them from the bottom to the top.
pub struct FungeStack<V: FungeValue = i32> {
    data: Vec<V>,
}

/// `count` zeros.
pub open spec fn zeros<V: FungeValue>(count: nat) -> Seq<V> {
    Seq::new(count, |i: int| V::spec_from_cell(0))
}

/// What a pop yields from a stack that holds `s`: the top, or zero where the
/// stack is empty.
pub open spec fn top_of<V: FungeValue>(s: Seq<V>) -> V {
    if s.len() > 0 {
        s.last()
    } else {
        V::spec_from_cell(0)
    }
}

/// What a pop leaves of a stack that holds `s`.
pub open spec fn below_top<V>(s: Seq<V>) -> Seq<V> {
    if s.len() > 0 {
        s.drop_last()
    } else {
        s
    }
}

/// The `n` values that `n` pops yield from a stack that holds `s`, in the
/// order in which they come off.
pub open spec fn popped<V: FungeValue>(s: Seq<V>, n: nat) -> Seq<V> {
    Seq::new(n, |i: int| if i < s.len() { s[s.len() - 1 - i] } else { V::spec_from_cell(0) })
}

/// What `n` pops leave of a stack that holds `s`.
pub open spec fn below<V>(s: Seq<V>, n: nat) -> Seq<V> {
    if n <= s.len() {
        s.take(s.len() - n)
    } else {
        Seq::empty()
    }
}

/// A pop from a new stack yields zero. A pop after a push yields the value
/// that was pushed and leaves the stack as it was before the push, so the
/// depth is what it was.
pub proof fn lemma_pop_after_push<V: FungeValue>(s: Seq<V>, value: V)
    ensures
        top_of(Seq::<V>::empty()) == V::spec_from_cell(0),
        below_top(Seq::<V>::empty()) == Seq::<V>::empty(),
        top_of(s.push(value)) == value,
        below_top(s.push(value)) == s,
        below_top(s.push(value)).len() == s.len(),
{
    assert(s.push(value).drop_last() =~= s);
}

impl<V: FungeValue> View for FungeStack<V> {
    type V = Seq<V>;

    closed spec fn view(&self) -> Seq<V> {
        self.data@
    }
}

impl<V: FungeValue> FungeStack<V> {
    /// Puts `value` on top.
    #[inline]
    pub fn push(&mut self, value: V)
        ensures
            final(self)@ == old(self)@.push(value),
    {
        self.data.push(value);
    }

    /// Takes the top value off. An empty stack yields zero and stays empty.
    #[inline]
    pub fn pop(&mut self) -> (value: V)
        ensures
            value == top_of(old(self)@),
            final(self)@ == below_top(old(self)@),
    {
        match self.data.pop() {
            Some(value) => value,
            None => V::from_cell(0),
        }
    }

    /// Two pops in a row; the value that came off first stands first.
    #[inline]
    pub fn pop_two(&mut self) -> (values: (V, V))
        ensures
            values.0 == top_of(old(self)@),
            values.1 == top_of(below_top(old(self)@)),
            final(self)@ == below_top(below_top(old(self)@)),
    {
        let first = self.pop();
        let second = self.pop();
        (first, second)
    }

    /// Takes the top value off, if there is one.
    #[inline]
    pub fn try_pop(&mut self) -> (value: Option<V>)
        ensures
            old(self)@.len() == 0 ==> value is None && final(self)@ == old(self)@,
            old(self)@.len() > 0 ==> value == Some(old(self)@.last())
                && final(self)@ == old(self)@.drop_last(),
    {
        self.data.pop()
    }

    /// Peeks the nth value from the top of the stack,
    /// where 0 is the top most value. Deeper than the stack reaches there is
    /// nothing.
    #[inline]
    pub fn peek_nth(&self, n: u32) -> (value: Option<V>)
        ensures
            n < self@.len() ==> value == Some(self@[self@.len() - 1 - n]),
            n >= self@.len() ==> value is None,
    {
        let len = self.data.len();
        let n = n as usize;
        if n < len {
            Some(self.data[len - 1 - n])
        } else {
            None
        }
    }

    /// Takes all values off.
    #[inline]
    pub fn clear(&mut self)
        ensures
            final(self)@ == Seq::<V>::empty(),
    {
        self.data.clear();
    }

    /// The number of values on the stack, as far as 32 bits can tell it: a
    /// number beyond that keeps its low 32 bits.
    #[inline]
    pub fn depth(&self) -> (d: u32)
        ensures
            d == self@.len() % 0x1_0000_0000,
            self@.len() <= u32::MAX ==> d == self@.len(),
    {
        let len = self.data.len() as u64;
        (len % 0x1_0000_0000) as u32
    }

    /// Transfers |count| cells from this stacks top in non-reverse order
    /// to the given other stack. If this stack has less elements that |count|
    /// then the transferred cells will be at the top of the other stack and
    /// the bottom filled with zeroes until the other stack has received
    /// |count| cells.
    pub fn transfer_to_stack(&mut self, other: &mut FungeStack<V>, count: u32)
        ensures
            final(self)@ == below(old(self)@, count as nat),
            final(other)@ == old(other)@ + popped(old(self)@, count as nat).reverse(),
    {
        let len = self.data.len();
        let count = count as usize;
        let real_transfer_count = if len < count { len } else { count };
        let zeroes_count = count - real_transfer_count;
        let ghost before = other@;
        let ghost source = self@;

        // Push zeroes if needed
        let mut i: usize = 0;
        while i < zeroes_count
            invariant
                i <= zeroes_count,
                other@ == before + zeros::<V>(i as nat),
            decreases zeroes_count - i,
        {
            other.push(V::from_cell(0));
            i = i + 1;
            assert(other@ =~= before + zeros::<V>(i as nat));
        }

        // Copy cells from this stack to other
        let transfer_start_pos = len - real_transfer_count;
        let mut j: usize = transfer_start_pos;
        while j < len
            invariant
                transfer_start_pos <= j <= len,
                len == self.data@.len(),
                self@ == source,
                other@ == before + zeros::<V>(zeroes_count as nat) + source.subrange(
                    transfer_start_pos as int,
                    j as int,
                ),
            decreases len - j,
        {
            other.push(self.data[j]);
            j = j + 1;
            assert(other@ =~= before + zeros::<V>(zeroes_count as nat) + source.subrange(
                transfer_start_pos as int,
                j as int,
            ));
        }

        // Truncate own data to simulate cell transfer
        self.data.truncate(transfer_start_pos);
        assert(self@ =~= below(source, count as nat));
        assert(other@ =~= before + popped(source, count as nat).reverse());
    }

    /// An empty stack.
    pub fn new() -> (stack: Self)
        ensures
            stack@ == Seq::<V>::empty(),
    {
        FungeStack { data: Vec::new() }
    }
}

} // verus!
