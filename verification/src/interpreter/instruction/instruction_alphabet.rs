use vstd::prelude::*;
use crate::interpreter::fingerprint::fingerprint_inst_function::FingerprintInstFunction;

verus! {

/// One instruction, or none, for each of the letters `A` to `Z`.
pub struct InstructionAlphabet {
    pub instructions: [Option<FingerprintInstFunction>; 26],
}

} // verus!
