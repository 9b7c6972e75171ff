//! A model of the C runtime's descriptor table, to state what the calls of
//! the library do to it.
//!
//! The table maps each open slot to the file that is open in it. Two slots
//! with the same file are copies of one another. A child process inherits
//! every open slot that is not marked as not to be inherited; a copy that the
//! runtime makes never bears the mark, whatever the slot that it was made
//! from. A call that fails leaves the table as it was, with one exception:
//! a copy into a chosen slot closes what the slot held before it makes the
//! copy, so when it fails the slot may be closed already. Whether it is, the
//! model leaves open.

use vstd::prelude::*;
use crate::descriptor::{CrtCall, CrtReturn, FileDescriptor};
use crate::mode::O_NOINHERIT;

verus! {

/// What a system answers to a call.
pub struct Answered {
    /// What the call returns.
    pub ret: CrtReturn,
    /// Of a copy into a chosen slot that failed: the runtime had closed the
    /// slot before it failed.
    pub spoiled: bool,
}

/// The descriptor table.
pub struct Table {
    /// For each open slot, the file that is open in it.
    pub slots: Map<int, int>,
    /// The slots that are marked as not to be inherited.
    pub withheld: Set<int>,
}

impl Table {
    /// The slot `fd` is open.
    pub open spec fn open(self, fd: int) -> bool {
        self.slots.contains_key(fd)
    }

    /// A child process that is launched now inherits the slot `fd`.
    pub open spec fn inherited(self, fd: int) -> bool {
        self.open(fd) && !self.withheld.contains(fd)
    }

    /// `call` can be answered so on this table. Any call can fail: the
    /// runtime may have run out of room. One that goes well copied an open
    /// slot, and where the runtime picked the slot for a new descriptor, it
    /// picked a free one. Nothing but a copy into a chosen slot that failed
    /// has closed a slot on the way.
    pub open spec fn admits(self, call: CrtCall, answered: Answered) -> bool {
        let ret = answered.ret;
        &&& answered.spoiled ==> call is Dup2 && ret.failed()
        &&& ret.failed() || match call {
            CrtCall::OpenOsfhandle { .. } => !self.open(ret.value as int),
            CrtCall::Dup { fd } => self.open(fd as int) && !self.open(ret.value as int),
            CrtCall::Dup2 { fd, dest } => self.open(fd as int) && dest >= 0,
            CrtCall::Close { .. } => true,
        }
    }

    /// The table with `file` open in the slot `fd`, marked or not.
    pub open spec fn with(self, fd: int, file: int, marked: bool) -> Table {
        Table {
            slots: self.slots.insert(fd, file),
            withheld: if marked {
                self.withheld.insert(fd)
            } else {
                self.withheld.remove(fd)
            },
        }
    }

    /// The table with the slot `fd` free.
    pub open spec fn without(self, fd: int) -> Table {
        Table { slots: self.slots.remove(fd), withheld: self.withheld.remove(fd) }
    }

    /// The table after `call` was answered. A file that was opened over a
    /// handle is named by that handle, and marked if the call's flags say
    /// so. A copy of a slot into itself changes nothing. Closing frees the
    /// slot whatever the call returns.
    pub open spec fn after(self, call: CrtCall, answered: Answered) -> Table {
        let ret = answered.ret;
        match call {
            CrtCall::Close { fd } => self.without(fd as int),
            _ => if ret.failed() {
                match call {
                    CrtCall::Dup2 { dest, .. } => if answered.spoiled {
                        self.without(dest as int)
                    } else {
                        self
                    },
                    _ => self,
                }
            } else {
                match call {
                    CrtCall::OpenOsfhandle { handle, flags } => self.with(
                        ret.value as int,
                        handle as int,
                        flags & O_NOINHERIT != 0,
                    ),
                    CrtCall::Dup { fd } => self.with(ret.value as int, self.slots[fd as int], false),
                    CrtCall::Dup2 { fd, dest } => if fd == dest {
                        self
                    } else {
                        self.with(dest as int, self.slots[fd as int], false)
                    },
                    CrtCall::Close { .. } => self,
                }
            },
        }
    }
}

/// An operating system, for what it answers to each call, given the table
/// on which the call is made and the time of the call.
pub type System = spec_fn(CrtCall, Table, nat) -> Answered;

/// The system answers nothing that the table does not admit.
pub open spec fn lawful(system: System) -> bool {
    forall|call: CrtCall, table: Table, time: nat|
        table.admits(call, #[trigger] system(call, table, time))
}

/// One slot. The call that ends a descriptor's life frees the descriptor's
/// slot and touches no other, whatever the call returns: one descriptor
/// closes one slot.
pub proof fn lemma_closing_frees_one_slot(table: Table, descriptor: FileDescriptor, answered: Answered)
    ensures
        ({
            let after = table.after(CrtCall::Close { fd: descriptor.fd }, answered);
            &&& !after.open(descriptor@)
            &&& forall|other: int|
                other != descriptor@ ==> {
                    &&& after.open(other) == table.open(other)
                    &&& after.inherited(other) == table.inherited(other)
                    &&& after.open(other) ==> after.slots[other] == table.slots[other]
                }
        }),
{
}

/// Copies are inherited. A copy that the runtime made is inherited by child
/// processes, be the slot that it was made from marked or not.
pub proof fn lemma_copies_are_inherited(table: Table, fd: i32, dest: i32, answered: Answered)
    requires
        !answered.ret.failed(),
    ensures
        table.after(CrtCall::Dup { fd }, answered).inherited(answered.ret.value as int),
        fd != dest ==> table.after(CrtCall::Dup2 { fd, dest }, answered).inherited(dest as int),
{
}

} // verus!
