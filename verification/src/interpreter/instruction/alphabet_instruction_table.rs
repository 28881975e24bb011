use vstd::prelude::*;
use crate::interpreter::fingerprint::fingerprint::{Fingerprint, FingerprintData};
use crate::interpreter::fingerprint::fingerprint_inst_function::FingerprintInstFunction;
use crate::interpreter::fingerprint::simple_fingerprint::SimpleFingerprint;
use std::rc::Rc;

verus! {

/// The instruction that is in force for the letter `letter` when the
/// fingerprints `loaded` were loaded one after another: that of the
/// fingerprint loaded last among those that supply the letter, and none where
/// none of them does.
pub open spec fn active_override(loaded: Seq<FingerprintData>, letter: int) -> Option<
    FingerprintInstFunction,
>
    decreases loaded.len(),
{
    if loaded.len() == 0 {
        None
    } else if loaded.last().instructions[letter] is Some {
        loaded.last().instructions[letter]
    } else {
        active_override(loaded.drop_last(), letter)
    }
}

/// The instructions that the letters `A` to `Z` stand for on one instruction
/// pointer: a stack of loaded fingerprints, and for each letter the
/// instruction that is in force.
///
/// The view lists the loaded fingerprints from the first that was loaded to
/// the last.
pub struct AlphabetInstructionTable {
    entries: Vec<AlphabetInstructionTableEntry>,
    cached_inst_table: [Option<FingerprintInstFunction>; 26],
}

impl View for AlphabetInstructionTable {
    type V = Seq<FingerprintData>;

    closed spec fn view(&self) -> Seq<FingerprintData> {
        Seq::new(self.entries@.len(), |i: int| self.entries@[i].fingerprint@)
    }
}

impl AlphabetInstructionTable {
    #[verifier::type_invariant]
    spec fn is_cached(self) -> bool {
        &&& forall|i: int|
            0 <= i < self.entries@.len() ==> (#[trigger] self.entries@[i]).inst_array@
                == self.entries@[i].fingerprint@.instructions
        &&& forall|letter: int|
            0 <= letter < 26 ==> #[trigger] self.cached_inst_table@[letter] == active_override(
                self@,
                letter,
            )
    }

    /// A table without fingerprints and without room set aside.
    fn empty() -> (table: Self)
        ensures
            table@ == Seq::<FingerprintData>::empty(),
    {
        let table = AlphabetInstructionTable { entries: Vec::new(), cached_inst_table: [None; 26] };
        assert(table@ =~= Seq::<FingerprintData>::empty());
        table
    }

    /// A table without fingerprints: no letter stands for anything.
    pub fn new() -> (table: Self)
        ensures
            table@ == Seq::<FingerprintData>::empty(),
    {
        let table = AlphabetInstructionTable {
            entries: Vec::with_capacity(16),
            cached_inst_table: [None; 26],
        };
        assert(table@ =~= Seq::<FingerprintData>::empty());
        table
    }

    /// Loads `fingerprint`: it goes on top of the loaded fingerprints, and its
    /// instructions are in force for the letters that it supplies. The
    /// fingerprint itself is shared, not copied.
    pub fn push_fingerprint(&mut self, fingerprint: &Rc<SimpleFingerprint>)
        ensures
            final(self)@ == old(self)@.push(fingerprint@),
    {
        proof {
            use_type_invariant(&*self);
            fingerprint.lemma_alphabet();
        }
        let ghost before = self@;
        let mut taken = Self::empty();
        core::mem::swap(self, &mut taken);
        let AlphabetInstructionTable { mut entries, mut cached_inst_table } = taken;

        // Get instructions
        let mut inst_array: [Option<FingerprintInstFunction>; 26] = [None; 26];
        fingerprint.get_alphabet_instructions(&mut inst_array);

        // Make entry
        let entry = AlphabetInstructionTableEntry { fingerprint: Rc::clone(fingerprint), inst_array };
        let ghost after = before.push(fingerprint@);
        proof {
            assert(after.drop_last() =~= before);
        }

        // Update inst table cache
        let mut i: usize = 0;
        while i < 26
            invariant
                i <= 26,
                inst_array@ == fingerprint@.instructions,
                after == before.push(fingerprint@),
                after.drop_last() == before,
                forall|letter: int|
                    0 <= letter < i ==> #[trigger] cached_inst_table@[letter] == active_override(
                        after,
                        letter,
                    ),
                forall|letter: int|
                    i <= letter < 26 ==> #[trigger] cached_inst_table@[letter] == active_override(
                        before,
                        letter,
                    ),
            decreases 26 - i,
        {
            match inst_array[i] {
                Some(inst) => {
                    cached_inst_table[i] = Some(inst);
                },
                None => {},
            }
            i = i + 1;
        }

        // Push fingerprint onto fingerprint stack
        entries.push(entry);
        proof {
            let loaded = Seq::new(entries@.len(), |i: int| entries@[i].fingerprint@);
            assert(loaded =~= after);
            assert forall|k: int| 0 <= k < entries@.len() implies (#[trigger] entries@[k]).inst_array@
                == entries@[k].fingerprint@.instructions by {
                if k < entries@.len() - 1 {
                    assert(entries@[k] == old(self).entries@[k]);
                }
            }
        }
        let table = AlphabetInstructionTable { entries, cached_inst_table };
        assert(table@ =~= after);
        *self = table;
    }

    /// Unloads the fingerprint that was loaded last and hands it back. For
    /// each letter that it supplied, the instruction of the nearest
    /// fingerprint below it that supplies the letter is in force again, and
    /// none where there is no such fingerprint.
    pub fn pop_fingerprint(&mut self) -> (fingerprint: Option<Rc<SimpleFingerprint>>)
        ensures
            old(self)@.len() == 0 ==> fingerprint is None && final(self)@ == old(self)@,
            old(self)@.len() > 0 ==> fingerprint is Some && fingerprint->0@ == old(self)@.last()
                && final(self)@ == old(self)@.drop_last(),
    {
        proof {
            use_type_invariant(&*self);
        }
        let ghost before = self@;
        let mut taken = Self::empty();
        core::mem::swap(self, &mut taken);
        let AlphabetInstructionTable { mut entries, mut cached_inst_table } = taken;

        // Pop fingerprint
        match entries.pop() {
            Some(e) => {
                let ghost after = before.drop_last();
                let ghost loaded = Seq::new(entries@.len(), |i: int| entries@[i].fingerprint@);
                proof {
                    assert(loaded =~= after);
                }
                // Unoverload fingerprint instructions
                let mut i: usize = 0;
                while i < 26
                    invariant
                        i <= 26,
                        before.len() > 0,
                        after == before.drop_last(),
                        e.inst_array@ == before.last().instructions,
                        loaded == after,
                        loaded == Seq::new(entries@.len(), |i: int| entries@[i].fingerprint@),
                        forall|k: int|
                            0 <= k < entries@.len() ==> (#[trigger] entries@[k]).inst_array@
                                == entries@[k].fingerprint@.instructions,
                        forall|letter: int|
                            0 <= letter < i ==> #[trigger] cached_inst_table@[letter]
                                == active_override(after, letter),
                        forall|letter: int|
                            i <= letter < 26 ==> #[trigger] cached_inst_table@[letter]
                                == active_override(before, letter),
                    decreases 26 - i,
                {
                    if e.inst_array[i].is_some() {
                        let found = Self::search_below(&entries, i);
                        cached_inst_table[i] = found;
                    }
                    i = i + 1;
                }

                let table = AlphabetInstructionTable { entries, cached_inst_table };
                assert(table@ =~= after);
                *self = table;
                Some(e.fingerprint)
            },
            None => {
                let table = AlphabetInstructionTable { entries, cached_inst_table };
                assert(table@ =~= before);
                *self = table;
                None
            },
        }
    }

    /// The instruction for the letter `letter` of the last of `entries` that
    /// supplies one.
    fn search_below(entries: &Vec<AlphabetInstructionTableEntry>, letter: usize) -> (found: Option<
        FingerprintInstFunction,
    >)
        requires
            letter < 26,
            forall|k: int|
                0 <= k < entries@.len() ==> (#[trigger] entries@[k]).inst_array@
                    == entries@[k].fingerprint@.instructions,
        ensures
            found == active_override(
                Seq::new(entries@.len(), |i: int| entries@[i].fingerprint@),
                letter as int,
            ),
    {
        let ghost loaded = Seq::new(entries@.len(), |i: int| entries@[i].fingerprint@);
        let mut j: usize = entries.len();
        proof {
            assert(loaded.take(j as int) =~= loaded);
        }
        while j > 0
            invariant
                j <= entries@.len(),
                letter < 26,
                loaded == Seq::new(entries@.len(), |i: int| entries@[i].fingerprint@),
                forall|k: int|
                    0 <= k < entries@.len() ==> (#[trigger] entries@[k]).inst_array@
                        == entries@[k].fingerprint@.instructions,
                active_override(loaded, letter as int) == active_override(
                    loaded.take(j as int),
                    letter as int,
                ),
            decreases j,
        {
            j = j - 1;
            proof {
                assert(loaded.take(j + 1).last() == loaded[j as int]);
                assert(loaded.take(j + 1).drop_last() =~= loaded.take(j as int));
            }
            let inst = entries[j].inst_array[letter];
            if inst.is_some() {
                return inst;
            }
        }
        None
    }

    /// The instruction that is in force for the letter with the number
    /// `index`, where `A` has the number 0.
    pub fn find_inst(&self, index: u32) -> (inst: Option<FingerprintInstFunction>)
        requires
            index < 26,
        ensures
            inst == active_override(self@, index as int),
    {
        proof {
            use_type_invariant(self);
        }
        self.cached_inst_table[index as usize]
    }
}

/// A loaded fingerprint, with the instructions that it supplied when it was
/// loaded.
pub struct AlphabetInstructionTableEntry {
    pub fingerprint: Rc<SimpleFingerprint>,
    pub inst_array: [Option<FingerprintInstFunction>; 26],
}

} // verus!
