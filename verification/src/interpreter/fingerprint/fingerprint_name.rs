use vstd::prelude::*;

verus! {

/// The name of a fingerprint: four characters, packed into one number with
/// the first character in the most significant byte.
#[derive(Copy, Clone)]
pub struct FingerprintName {
    fid: u32,
}

impl View for FingerprintName {
    type V = u32;

    /// The name as one number.
    closed spec fn view(&self) -> u32 {
        self.fid
    }
}

impl FingerprintName {
    /// The name that is packed into the number `fid`.
    pub fn from_fid(fid: u32) -> (name: Self)
        ensures
            name@ == fid,
    {
        FingerprintName { fid }
    }

    /// The four characters of the name, the first one first.
    pub fn get_ascii_name(&self) -> (bytes: [u8; 4])
        ensures
            bytes[0] == self@ / 0x100_0000,
            bytes[1] == self@ / 0x1_0000 % 0x100,
            bytes[2] == self@ / 0x100 % 0x100,
            bytes[3] == self@ % 0x100,
    {
        [
            (self.fid / 0x100_0000) as u8,
            (self.fid / 0x1_0000 % 0x100) as u8,
            (self.fid / 0x100 % 0x100) as u8,
            (self.fid % 0x100) as u8,
        ]
    }

    /// The name as one number.
    pub fn get_fid(&self) -> (fid: u32)
        ensures
            fid == self@,
    {
        self.fid
    }
}

} // verus!
