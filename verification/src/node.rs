//! A directory entry for a remote node: its identity and its raw
//! address block, produced from a decoded node announcement.

use vstd::prelude::*;

verus! {

/// A remote node: a 33-byte compressed public key and the raw bytes
/// of its announced address block.
#[derive(Debug)]
pub struct Node {
    pub public_key: Vec<u8>,
    pub address: Vec<u8>,
}

impl Node {
    /// A node's identity is a 33-byte compressed public key.
    pub open spec fn wf(&self) -> bool {
        self.public_key@.len() == 33
    }

    /// Builds a directory entry from an identity and an address block.
    pub fn new(public_key: Vec<u8>, address: Vec<u8>) -> (r: Self)
        requires
            public_key@.len() == 33,
        ensures
            r.wf(),
            r.public_key@ == public_key@,
            r.address@ == address@,
    {
        Node { public_key, address }
    }
}

} // verus!
