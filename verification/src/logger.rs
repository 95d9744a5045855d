//! A minimal logger handle.  The process-wide log sink is an external
//! collaborator of the surrounding application; the library only owns
//! the handle type.

use vstd::prelude::*;

verus! {

/// The logger handle.
#[derive(Debug)]
pub struct MyLogger;

impl MyLogger {
    /// A fresh logger handle.
    pub fn new() -> Self {
        MyLogger
    }
}

} // verus!
