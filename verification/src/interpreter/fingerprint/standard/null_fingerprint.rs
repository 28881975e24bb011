use vstd::prelude::*;
use crate::interpreter::fingerprint::fingerprint::FingerprintData;
use crate::interpreter::fingerprint::fingerprint_inst_function::FingerprintInstFunction;
use crate::interpreter::fingerprint::fingerprint_name::FingerprintName;
use crate::interpreter::fingerprint::simple_fingerprint::SimpleFingerprint;
use crate::interpreter::funge_thread::FungeThread;

verus! {

/// The name of the fingerprint whose instructions have no effect: `NULL`.
pub const NULL_FINGERPRINT_ID: u32 = 0x4e554c4c;

/// The fingerprint `NULL`: it supplies every letter, each with the
/// instruction without effect.
pub fn create_null_fingerprint() -> (fingerprint: Box<SimpleFingerprint>)
    ensures
        fingerprint@ == (FingerprintData {
            fid: NULL_FINGERPRINT_ID,
            instructions: Seq::new(26, |i: int| Some(FingerprintInstFunction::Null)),
        }),
{
    // Create inst array
    let inst_array: [Option<FingerprintInstFunction>; 26] = [Some(FingerprintInstFunction::Null);
        26];

    // Build fingerprint object
    let name = FingerprintName::from_fid(NULL_FINGERPRINT_ID);
    let fingerprint = Box::new(SimpleFingerprint::new(name, inst_array));
    assert(fingerprint@.instructions =~= Seq::new(
        26,
        |i: int| Some(FingerprintInstFunction::Null),
    ));
    fingerprint
}

/// The instruction without effect.
pub fn inst_null(thread: &mut FungeThread)
    ensures
        *final(thread) == *old(thread),
{
    // Do nothing
}

} // verus!
