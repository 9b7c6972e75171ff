//! The error of every operation that reaches the operating system.

use vstd::prelude::*;

verus! {

/// An operating system call failed; `code` is the error code that the system
/// recorded for the calling thread.
#[derive(Debug, Clone, Copy, PartialEq, Eq, Hash, Structural)]
pub struct OsError {
    pub code: i32,
}

} // verus!
