//! Access modes of a C runtime descriptor.

use vstd::prelude::*;

verus! {

/// `_O_RDONLY` of the C runtime's `fcntl.h`.
pub const O_RDONLY: i32 = 0;

/// `_O_WRONLY` of the C runtime's `fcntl.h`.
pub const O_WRONLY: i32 = 1;

/// `_O_RDWR` of the C runtime's `fcntl.h`.
pub const O_RDWR: i32 = 2;

/// `_O_NOINHERIT` of the C runtime's `fcntl.h`: the descriptor is not to be
/// inherited by child processes. No [`Mode`] holds it.
pub const O_NOINHERIT: i32 = 0x80;

/// How a descriptor that is opened over an operating system handle may be used.
#[derive(Debug, Clone, Copy, PartialEq, Eq, Hash, Structural)]
pub enum Mode {
    /// Read only.
    ReadOnly,
    /// Write only.
    WriteOnly,
    /// Read and write.
    ReadWrite,
}

impl Mode {
    /// The open flag that stands for this mode.
    pub open spec fn flags(self) -> i32 {
        match self {
            Mode::ReadOnly => O_RDONLY,
            Mode::WriteOnly => O_WRONLY,
            Mode::ReadWrite => O_RDWR,
        }
    }

    /// The flag to hand to `_open_osfhandle` for this mode.
    pub fn val(&self) -> (flags: i32)
        ensures
            flags == self.flags(),
    {
        match self {
            Mode::ReadOnly => O_RDONLY,
            Mode::WriteOnly => O_WRONLY,
            Mode::ReadWrite => O_RDWR,
        }
    }
}

} // verus!
