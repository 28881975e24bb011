use vstd::prelude::*;
use crate::interpreter::funge_thread::{FungeThread, ThreadState};

verus! {

/// A list of funge threads kept in the right order: the order in which they
/// were added, which is the order in which they run.
pub struct ThreadList {
    threads: Vec<FungeThread>,
}

impl View for ThreadList {
    type V = Seq<ThreadState>;

    closed spec fn view(&self) -> Seq<ThreadState> {
        Seq::new(self.threads@.len(), |i: int| self.threads@[i]@)
    }
}

impl ThreadList {
    /// A list without threads.
    pub fn new() -> (list: Self)
        ensures
            list@ == Seq::<ThreadState>::empty(),
    {
        let list = ThreadList { threads: Vec::with_capacity(8) };
        assert(list@ =~= Seq::<ThreadState>::empty());
        list
    }

    /// The thread at `index`, for reading and writing, if there is one.
    pub fn get_mut(&mut self, index: u32) -> (thread: Option<&mut FungeThread>)
        ensures
            index >= old(self)@.len() ==> thread is None && final(self)@ == old(self)@,
            index < old(self)@.len() ==> thread is Some && thread->0@ == old(self)@[index as int]
                && final(self)@ == old(self)@.update(index as int, final(thread->0)@),
    {
        let ghost before = self@;
        let ghost threads = self.threads@;
        let i = index as usize;
        if i < self.threads.len() {
            let thread = &mut self.threads[i];
            proof {
                assert forall|after: ThreadList, t: FungeThread| after.threads@ == threads.update(
                    i as int,
                    t,
                ) implies #[trigger] after@ =~= before.update(i as int, #[trigger] t@) by {}
            }
            Some(thread)
        } else {
            None
        }
    }

    /// The thread at `index`, if there is one.
    pub fn get(&self, index: u32) -> (thread: Option<&FungeThread>)
        ensures
            index >= self@.len() ==> thread is None,
            index < self@.len() ==> thread is Some && thread->0@ == self@[index as int],
    {
        let i = index as usize;
        if i < self.threads.len() {
            Some(&self.threads[i])
        } else {
            None
        }
    }

    /// The number of threads, as far as 32 bits can tell it: a number beyond
    /// that keeps its low 32 bits.
    pub fn num(&self) -> (n: u32)
        ensures
            n == self@.len() % 0x1_0000_0000,
            self@.len() <= u32::MAX ==> n == self@.len(),
    {
        let len = self.threads.len() as u64;
        (len % 0x1_0000_0000) as u32
    }

    /// Adds `thread` at the end.
    pub fn test_add(&mut self, thread: FungeThread)
        ensures
            final(self)@ == old(self)@.push(thread@),
    {
        self.threads.push(thread);
        assert(self@ =~= old(self)@.push(thread@));
    }

    /// Takes the thread at `index` out of the list, if there is one. The
    /// threads behind it move up and keep their order.
    pub fn remove(&mut self, index: u32) -> (thread: Option<FungeThread>)
        ensures
            index >= old(self)@.len() ==> thread is None && final(self)@ == old(self)@,
            index < old(self)@.len() ==> thread is Some && thread->0@ == old(self)@[index as int]
                && final(self)@ == old(self)@.remove(index as int),
    {
        let i = index as usize;
        if i < self.threads.len() {
            let thread = self.threads.remove(i);
            assert(self@ =~= old(self)@.remove(index as int));
            Some(thread)
        } else {
            assert(self@ =~= old(self)@);
            None
        }
    }
}

} // verus!
