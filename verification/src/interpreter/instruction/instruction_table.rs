use vstd::prelude::*;
use crate::interpreter::instruction::instruction_alphabet::InstructionAlphabet;

verus! {

/// A stack of alphabets that live elsewhere; the alphabet on top is the one
/// in force. The interpreter itself looks letters up in the alphabet
/// instruction table of each instruction pointer.
pub struct InstructionTable<'h> {
    alphabet_stack: Vec<&'h InstructionAlphabet>,
}

impl<'h> View for InstructionTable<'h> {
    type V = Seq<InstructionAlphabet>;

    /// The alphabets from the first that was pushed to the last.
    closed spec fn view(&self) -> Seq<InstructionAlphabet> {
        Seq::new(self.alphabet_stack@.len(), |i: int| *self.alphabet_stack@[i])
    }
}

impl<'h> InstructionTable<'h> {
    /// A table without alphabets.
    pub fn new() -> (table: Self)
        ensures
            table@ == Seq::<InstructionAlphabet>::empty(),
    {
        let table = InstructionTable { alphabet_stack: Vec::new() };
        assert(table@ =~= Seq::<InstructionAlphabet>::empty());
        table
    }

    /// Puts `alphabet` on top.
    pub fn push_alphabet(&mut self, alphabet: &'h InstructionAlphabet)
        ensures
            final(self)@ == old(self)@.push(*alphabet),
    {
        self.alphabet_stack.push(alphabet);
        assert(self@ =~= old(self)@.push(*alphabet));
    }

    /// Takes the alphabet on top off, if there is one.
    pub fn pop_alphabet(&mut self) -> (alphabet: Option<&'h InstructionAlphabet>)
        ensures
            old(self)@.len() == 0 ==> alphabet is None && final(self)@ == old(self)@,
            old(self)@.len() > 0 ==> alphabet is Some && *alphabet->0 == old(self)@.last()
                && final(self)@ == old(self)@.drop_last(),
    {
        let alphabet = self.alphabet_stack.pop();
        assert(old(self)@.len() == 0 ==> self@ =~= old(self)@);
        assert(old(self)@.len() > 0 ==> self@ =~= old(self)@.drop_last());
        alphabet
    }

    /// The alphabet that was pushed last, if there is one.
    pub fn top_alphabet(&self) -> (alphabet: Option<&'h InstructionAlphabet>)
        ensures
            self@.len() == 0 ==> alphabet is None,
            self@.len() > 0 ==> alphabet is Some && *alphabet->0 == self@.last(),
    {
        // Return top of stack and dereference pointer to alphabet pointer
        let len = self.alphabet_stack.len();
        if len > 0 {
            Some(self.alphabet_stack[len - 1])
        } else {
            None
        }
    }
}

} // verus!
