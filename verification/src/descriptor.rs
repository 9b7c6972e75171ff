//! Descriptors of the C runtime: the calls that make, copy and close them,
//! and what each call's return value means.
//!
//! The library makes no call itself. It says which call is to be made
//! ([`CrtCall`]) and reads what came back ([`CrtReturn`]); a driver makes the
//! call in between. The C runtime raises a fatal fault when it is handed a
//! descriptor that is closed or foreign, unless the calling thread's
//! invalid-parameter handler is replaced: the driver makes every [`CrtCall`]
//! with that handler replaced by one that does nothing, and puts the previous
//! handler back right after the call, so that the fault arrives here as a
//! negative return value.

use vstd::prelude::*;
use crate::error::OsError;
use crate::mode::Mode;

verus! {

/// A call into the C runtime's descriptor table.
#[derive(Debug, Clone, Copy, PartialEq, Eq, Hash, Structural)]
pub enum CrtCall {
    /// `_open_osfhandle(handle, flags)`: open a descriptor over an operating system handle.
    OpenOsfhandle { handle: isize, flags: i32 },
    /// `_dup(fd)`: copy a descriptor into a slot that the runtime picks.
    Dup { fd: i32 },
    /// `_dup2(fd, dest)`: copy a descriptor into the slot `dest`, closing what was there.
    Dup2 { fd: i32, dest: i32 },
    /// `_close(fd)`: close a descriptor.
    Close { fd: i32 },
}

/// What a [`CrtCall`] returned: the `int` that the call gave, and the calling
/// thread's last operating system error, read right after the call.
#[derive(Debug, Clone, Copy, PartialEq, Eq, Hash, Structural)]
pub struct CrtReturn {
    pub value: i32,
    pub error: i32,
}

impl CrtReturn {
    /// The call failed: the C runtime reports failure by a negative value.
    pub open spec fn failed(self) -> bool {
        self.value < 0
    }

    /// The value of a call that went well, the error of one that failed.
    pub open spec fn outcome(self) -> Result<i32, OsError> {
        if self.failed() {
            Err(OsError { code: self.error })
        } else {
            Ok(self.value)
        }
    }

    /// Tells a returned value from a failure.
    pub fn check(&self) -> (r: Result<i32, OsError>)
        ensures
            r == self.outcome(),
    {
        if self.value < 0 {
            Err(OsError { code: self.error })
        } else {
            Ok(self.value)
        }
    }
}

/// A descriptor of the C runtime, owned: whoever holds the value is the one
/// to close the slot, by making the call that [`FileDescriptor::close`] gives.
#[derive(Debug, PartialEq, Eq)]
pub struct FileDescriptor {
    pub fd: i32,
}

impl View for FileDescriptor {
    type V = int;

    /// The number of the slot that the descriptor occupies.
    open spec fn view(&self) -> int {
        self.fd as int
    }
}

impl FileDescriptor {
    /// The descriptor that a call returned, when the call makes a new
    /// descriptor and returns its slot.
    pub open spec fn made(ret: CrtReturn) -> Result<FileDescriptor, OsError> {
        match ret.outcome() {
            Ok(fd) => Ok(FileDescriptor { fd }),
            Err(e) => Err(e),
        }
    }

    /// The descriptor in `dest` after a call that copies into `dest` and
    /// returns zero.
    pub open spec fn placed(dest: i32, ret: CrtReturn) -> Result<FileDescriptor, OsError> {
        match ret.outcome() {
            Ok(_) => Ok(FileDescriptor { fd: dest }),
            Err(e) => Err(e),
        }
    }

    /// The call that opens a descriptor over `handle` for `mode`.
    pub fn open_call(handle: isize, mode: Mode) -> (call: CrtCall)
        ensures
            call == (CrtCall::OpenOsfhandle { handle, flags: mode.flags() }),
    {
        CrtCall::OpenOsfhandle { handle, flags: mode.val() }
    }

    /// The descriptor that [`FileDescriptor::open_call`] made, or the error
    /// with which it failed.
    pub fn from_raw_handle(ret: CrtReturn) -> (r: Result<FileDescriptor, OsError>)
        ensures
            r == Self::made(ret),
    {
        match ret.check() {
            Ok(fd) => Ok(FileDescriptor { fd }),
            Err(e) => Err(e),
        }
    }

    /// Takes the slot `fd` as a descriptor. The caller vouches that the slot
    /// is open and that nothing else will close it.
    pub fn from_fd(fd: i32) -> (r: FileDescriptor)
        ensures
            r@ == fd,
    {
        FileDescriptor { fd }
    }

    /// Gives the slot number away. No call is left to make: the slot stays
    /// open, and closing it is now the caller's business.
    pub fn into_raw_fd(self) -> (fd: i32)
        ensures
            fd == self@,
    {
        self.fd
    }

    /// The call that copies this descriptor into a slot of the runtime's choice.
    pub fn dup_call(&self) -> (call: CrtCall)
        ensures
            call == (CrtCall::Dup { fd: self.fd }),
    {
        CrtCall::Dup { fd: self.fd }
    }

    /// The copy that [`FileDescriptor::dup_call`] made, or the error with
    /// which it failed.
    pub fn dup(&self, ret: CrtReturn) -> (r: Result<FileDescriptor, OsError>)
        ensures
            r == Self::made(ret),
    {
        match ret.check() {
            Ok(fd) => Ok(FileDescriptor { fd }),
            Err(e) => Err(e),
        }
    }

    /// The call that copies this descriptor into the slot `dest`.
    pub fn dup2_call(&self, dest: i32) -> (call: CrtCall)
        ensures
            call == (CrtCall::Dup2 { fd: self.fd, dest }),
    {
        CrtCall::Dup2 { fd: self.fd, dest }
    }

    /// The descriptor in `dest` that [`FileDescriptor::dup2_call`] made, or
    /// the error with which it failed.
    pub fn dup2(&self, dest: i32, ret: CrtReturn) -> (r: Result<FileDescriptor, OsError>)
        ensures
            r == Self::placed(dest, ret),
    {
        match ret.check() {
            Ok(_) => Ok(FileDescriptor { fd: dest }),
            Err(e) => Err(e),
        }
    }

    /// Ends the descriptor's life: the call that closes its slot. What the
    /// call returns is of no interest.
    pub fn close(self) -> (call: CrtCall)
        ensures
            call == (CrtCall::Close { fd: self.fd }),
    {
        CrtCall::Close { fd: self.fd }
    }
}

} // verus!
