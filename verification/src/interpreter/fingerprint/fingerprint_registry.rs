use vstd::prelude::*;
use crate::interpreter::fingerprint::fingerprint::{Fingerprint, FingerprintData};
use crate::interpreter::fingerprint::simple_fingerprint::SimpleFingerprint;
use std::collections::HashMap;
use std::rc::Rc;

verus! {

/// The fingerprints that a program can load, by their names.
pub struct FingerprintRegistry {
    fingerprint_map: HashMap<u32, Rc<SimpleFingerprint>>,
}

impl View for FingerprintRegistry {
    type V = Map<u32, FingerprintData>;

    closed spec fn view(&self) -> Map<u32, FingerprintData> {
        Map::new(
            |fid: u32| self.fingerprint_map@.contains_key(fid),
            |fid: u32| self.fingerprint_map@[fid]@,
        )
    }
}

impl FingerprintRegistry {
    /// A registry without fingerprints.
    pub fn new() -> (registry: Self)
        ensures
            registry@ == Map::<u32, FingerprintData>::empty(),
    {
        let registry = FingerprintRegistry { fingerprint_map: HashMap::new() };
        assert(registry@ =~= Map::<u32, FingerprintData>::empty());
        registry
    }

    /// Files `fingerprint` under its name. A fingerprint that was filed under
    /// that name before gives way.
    pub fn register_fingerprint(&mut self, fingerprint: Rc<SimpleFingerprint>)
        ensures
            final(self)@ == old(self)@.insert(fingerprint@.fid, fingerprint@),
    {
        broadcast use vstd::std_specs::hash::group_hash_axioms;
        // Put into registry map

        let fid = fingerprint.get_name().get_fid();
        self.fingerprint_map.insert(fid, fingerprint);
        assert(self@ =~= old(self)@.insert(fingerprint@.fid, fingerprint@));
    }

    /// The fingerprint that is filed under the name `fid`, if there is one.
    /// The registry keeps it: what is handed out is shared.
    pub fn find_fingerprint(&self, fid: u32) -> (fingerprint: Option<&Rc<SimpleFingerprint>>)
        ensures
            fingerprint is Some <==> self@.contains_key(fid),
            fingerprint is Some ==> fingerprint->0@ == self@[fid],
    {
        broadcast use vstd::std_specs::hash::group_hash_axioms;

        self.fingerprint_map.get(&fid)
    }
}

} // verus!
