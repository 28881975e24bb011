use vstd::prelude::*;
use crate::interpreter::fingerprint::fingerprint_inst_function::FingerprintInstFunction;
use crate::interpreter::fingerprint::fingerprint_name::FingerprintName;

verus! {

/// What a fingerprint is made of: its name as one number, and for each of the
/// 26 letters the instruction that it supplies, if it supplies one.
pub struct FingerprintData {
    pub fid: u32,
    pub instructions: Seq<Option<FingerprintInstFunction>>,
}

/// A named bundle of instructions for the letters `A` to `Z`.
pub trait Fingerprint {
    /// What the fingerprint is made of.
    spec fn data(&self) -> FingerprintData;

    /// There is one slot for each of the 26 letters.
    proof fn lemma_alphabet(&self)
        ensures
            self.data().instructions.len() == 26,
    ;

    fn get_name(&self) -> (name: FingerprintName)
        ensures
            name@ == self.data().fid,
    ;

    /// Writes to `dest`, for each letter, the instruction that the
    /// fingerprint supplies for it.
    fn get_alphabet_instructions(&self, dest: &mut [Option<FingerprintInstFunction>; 26])
        ensures
            final(dest)@ == self.data().instructions,
    ;
}

} // verus!
