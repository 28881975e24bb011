use vstd::prelude::*;
use crate::interpreter::fingerprint::fingerprint::{Fingerprint, FingerprintData};
use crate::interpreter::fingerprint::fingerprint_inst_function::FingerprintInstFunction;
use crate::interpreter::fingerprint::fingerprint_name::FingerprintName;

verus! {

/// A fingerprint that is a name and a table of instructions, and nothing
/// more.
pub struct SimpleFingerprint {
    name: FingerprintName,
    inst_functions: [Option<FingerprintInstFunction>; 26],
}

impl View for SimpleFingerprint {
    type V = FingerprintData;

    closed spec fn view(&self) -> FingerprintData {
        FingerprintData { fid: self.name@, instructions: self.inst_functions@ }
    }
}

impl SimpleFingerprint {
    /// The fingerprint with the name `name` that supplies the instructions
    /// `insts`, one slot for each letter.
    pub fn new(name: FingerprintName, insts: [Option<FingerprintInstFunction>; 26]) -> (fingerprint:
        SimpleFingerprint)
        ensures
            fingerprint@ == (FingerprintData { fid: name@, instructions: insts@ }),
    {
        SimpleFingerprint { name, inst_functions: insts }
    }
}

impl Fingerprint for SimpleFingerprint {
    open spec fn data(&self) -> FingerprintData {
        self@
    }

    proof fn lemma_alphabet(&self) {
    }

    fn get_name(&self) -> (name: FingerprintName) {
        self.name
    }

    fn get_alphabet_instructions(&self, dest: &mut [Option<FingerprintInstFunction>; 26]) {
        *dest = self.inst_functions;
    }
}

} // verus!
