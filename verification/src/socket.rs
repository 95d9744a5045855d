//! The descriptor of one underlying byte-stream connection.  The
//! stream itself (connect, read, write) is an external collaborator of
//! the surrounding application; the library only owns the identifying
//! descriptor.

use vstd::prelude::*;

verus! {

/// Identifies one byte-stream connection.
#[derive(Debug, Clone, Copy, Hash, PartialEq, Eq, Structural)]
pub struct MySocketDescriptor {
    pub conn_id: u64,
}

impl MySocketDescriptor {
    /// A descriptor for the stream with the given identifier.
    pub fn new(conn_id: u64) -> (r: Self)
        ensures
            r.conn_id == conn_id,
    {
        MySocketDescriptor { conn_id }
    }
}

} // verus!
