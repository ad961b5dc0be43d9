pub mod adapter;
pub mod crypto;
pub mod extrinsic;
pub mod scale;

use vstd::prelude::*;

verus! {

/// A 32-byte chain identifier: the hash of the chain's genesis block.
pub struct Hash32 {
    pub bytes: Vec<u8>,
}

impl Hash32 {
    /// A well-formed hash holds exactly 32 bytes.
    pub open spec fn wf(self) -> bool {
        self.bytes@.len() == 32
    }

    /// Wraps raw bytes as a hash; fails on any length other than 32.
    pub fn from_bytes(bytes: Vec<u8>) -> (r: Option<Hash32>)
        ensures
            bytes@.len() == 32 <==> r is Some,
            r is Some ==> r.unwrap().wf() && r.unwrap().bytes@ == bytes@,
    {
        if bytes.len() == 32 {
            Some(Hash32 { bytes })
        } else {
            None
        }
    }
}

} // verus!
