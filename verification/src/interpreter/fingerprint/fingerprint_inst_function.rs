use vstd::prelude::*;

verus! {

/// What a fingerprint supplies for a letter: the instruction that runs when an
/// instruction pointer comes upon that letter.
#[derive(Copy, Clone, PartialEq, Eq, Structural, Debug)]
pub enum FingerprintInstFunction {
    /// The instruction without effect.
    Null,
    /// An instruction that the program around the interpreter carries out.
    /// The number tells it which one.
    Host(u32),
}

/// The number of letters that a fingerprint can supply, `A` to `Z`.
pub const ALPHABET_SIZE: usize = 26;

} // verus!
