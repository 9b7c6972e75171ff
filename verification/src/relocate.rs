//! Relocation: putting a descriptor into a chosen slot for as long as a body
//! runs, and putting back what the slot held before.
//!
//! A child process inherits descriptors by slot number. To hand a descriptor
//! to a child as slot `dest`, the descriptor is copied into `dest`, the body
//! (which launches the child) runs, and the previous occupant of `dest`
//! returns. The slot is state of the whole process, so all of this happens
//! under the process lock.
//!
//! The relocation is a machine that a driver runs: [`move_fd`] starts it and
//! says what to do first, the driver does it and hands the reply to
//! [`Relocation::resume`], which says what to do next, until the machine
//! asks to finish.

use vstd::prelude::*;
use crate::descriptor::{CrtCall, CrtReturn, FileDescriptor};
use crate::error::OsError;
use crate::lock::StaticMutex;

verus! {

/// What the driver is asked to do.
#[derive(Debug, Clone, Copy, PartialEq, Eq)]
pub enum Request {
    /// Take the operating system's lock, waiting until it is free.
    Lock,
    /// Give the operating system's lock back.
    Unlock,
    /// Make this call into the C runtime.
    Crt(CrtCall),
    /// Run the body on the descriptor in slot `fd`, and keep what it returns.
    Invoke { fd: i32 },
    /// The relocation is over: return what the verdict says.
    Finish(Verdict),
}

/// What the driver reports of a request that it has carried out.
#[derive(Debug, Clone, Copy, PartialEq, Eq)]
pub enum Reply {
    /// The request is carried out and there is nothing to tell.
    Done,
    /// The call into the C runtime returned.
    Returned(CrtReturn),
    /// The body returned, and the driver keeps what it returned.
    Body,
}

/// What a relocation returns to its caller.
#[derive(Debug, Clone, Copy, PartialEq, Eq)]
pub enum Verdict {
    /// What the body returned, be it a value or an error.
    Body,
    /// This error. If the body returned anything, be it a value or an
    /// error, it is dropped.
    Failed(OsError),
}

/// Where a relocation stands: what it has asked for and waits to hear of.
#[allow(inconsistent_fields)]
#[derive(Debug, Clone, Copy, PartialEq, Eq)]
pub enum Phase {
    /// Asked for the operating system's lock.
    Locking,
    /// Asked for a copy of what the target slot holds, to put it back later.
    Rescuing,
    /// Asked for a copy of the descriptor. A fresh copy is inherited by
    /// child processes even where the descriptor itself is not.
    Copying { backup: Option<i32> },
    /// Asked to put the copy into the target slot. The copy sits in another
    /// slot: one that the runtime put into the target slot itself is where
    /// it belongs, and is neither moved nor closed before the body has run.
    Moving { backup: Option<i32>, copy: i32 },
    /// Asked to close the copy. `failure` is the error of the move, if it failed.
    Discarding { backup: Option<i32>, copy: i32, failure: Option<OsError> },
    /// Asked to run the body. `moved` says that the target slot holds a copy
    /// of the descriptor that is the relocation's to close; it is false
    /// where the descriptor sat in the target slot to begin with.
    Running { backup: Option<i32>, moved: bool },
    /// Asked to close the target slot, now that the body has returned.
    Vacating { backup: Option<i32> },
    /// Asked to put the backup into the target slot.
    Restoring { backup: i32 },
    /// Asked to close the backup.
    Dropping { backup: i32, verdict: Verdict },
    /// Asked to give the operating system's lock back.
    Unlocking { verdict: Verdict },
    /// Over.
    Finished { verdict: Verdict },
}

/// A relocation of the descriptor in slot `fd` to the slot `dest`, under `guard`.
#[derive(Debug, Clone, Copy, PartialEq, Eq)]
pub struct Relocation {
    pub fd: i32,
    pub dest: i32,
    pub guard: StaticMutex,
    pub phase: Phase,
}

/// The backup that an attempt to copy the target slot left: the copy's slot,
/// or nothing where the attempt failed. A slot that cannot be copied is
/// taken to be unused, and that is no failure of the relocation.
pub open spec fn rescued(ret: CrtReturn) -> Option<i32> {
    match FileDescriptor::made(ret) {
        Ok(copy) => Some(copy.fd),
        Err(_) => None,
    }
}

/// What a relocation returns after an attempt to put the backup into the
/// target slot. After a backup that is back in place the body's result is
/// returned as it is. A failure to put the backup back goes before whatever
/// the body returned: the caller's descriptors are no longer what they were,
/// and that must not pass unnoticed.
pub open spec fn settled(restored: Result<FileDescriptor, OsError>) -> Verdict {
    match restored {
        Ok(_) => Verdict::Body,
        Err(error) => Verdict::Failed(error),
    }
}

impl Relocation {
    /// The same relocation in another phase.
    pub open spec fn at(self, phase: Phase) -> Relocation {
        Relocation { phase, ..self }
    }

    /// The phase once the lock is held. A descriptor that sits in the target
    /// slot already is handed to the body as it is; nothing is copied.
    pub open spec fn entering(self) -> Phase {
        if self.fd == self.dest {
            Phase::Running { backup: None, moved: false }
        } else {
            Phase::Rescuing
        }
    }

    /// The phase once nothing is left to do on the descriptor table.
    pub open spec fn leaving(self, verdict: Verdict) -> Phase {
        if self.guard.owner {
            Phase::Unlocking { verdict }
        } else {
            Phase::Finished { verdict }
        }
    }

    /// The phase once the descriptor is copied into the slot `copy`. A copy
    /// for which the runtime picked the target slot fills that slot as it
    /// is: the body can run. Any other copy is yet to be moved there.
    pub open spec fn placing(self, backup: Option<i32>, copy: i32) -> Phase {
        if copy == self.dest {
            Phase::Running { backup, moved: true }
        } else {
            Phase::Moving { backup, copy }
        }
    }

    /// The phase after the relocation failed with `error` before the body ran.
    pub open spec fn abandoning(self, backup: Option<i32>, error: OsError) -> Phase {
        match backup {
            Some(backup) => Phase::Dropping { backup, verdict: Verdict::Failed(error) },
            None => self.leaving(Verdict::Failed(error)),
        }
    }

    /// What the relocation has asked for and waits to hear of.
    pub open spec fn asks(self) -> Request {
        match self.phase {
            Phase::Locking => Request::Lock,
            Phase::Rescuing => Request::Crt(CrtCall::Dup { fd: self.dest }),
            Phase::Copying { .. } => Request::Crt(CrtCall::Dup { fd: self.fd }),
            Phase::Moving { copy, .. } => Request::Crt(CrtCall::Dup2 { fd: copy, dest: self.dest }),
            Phase::Discarding { copy, .. } => Request::Crt(CrtCall::Close { fd: copy }),
            Phase::Running { .. } => Request::Invoke { fd: self.dest },
            Phase::Vacating { .. } => Request::Crt(CrtCall::Close { fd: self.dest }),
            Phase::Restoring { backup, .. } => Request::Crt(
                CrtCall::Dup2 { fd: backup, dest: self.dest },
            ),
            Phase::Dropping { backup, .. } => Request::Crt(CrtCall::Close { fd: backup }),
            Phase::Unlocking { .. } => Request::Unlock,
            Phase::Finished { verdict } => Request::Finish(verdict),
        }
    }

    /// `reply` answers what the relocation has asked for. Where the answer
    /// tells nothing that the relocation goes by, any reply will do.
    pub open spec fn awaits(self, reply: Reply) -> bool {
        match self.phase {
            Phase::Rescuing | Phase::Copying { .. } | Phase::Moving { .. } | Phase::Restoring {
                ..
            } => reply is Returned,
            Phase::Running { .. } => reply is Body,
            Phase::Finished { .. } => false,
            _ => true,
        }
    }

    /// The phase that follows on `reply`. A reply that does not answer what
    /// was asked changes nothing.
    pub open spec fn follows(self, reply: Reply) -> Phase {
        match (self.phase, reply) {
            (Phase::Locking, _) => self.entering(),
            (Phase::Rescuing, Reply::Returned(ret)) => Phase::Copying { backup: rescued(ret) },
            (Phase::Copying { backup }, Reply::Returned(ret)) => match FileDescriptor::made(ret) {
                Ok(copy) => self.placing(backup, copy.fd),
                Err(error) => self.abandoning(backup, error),
            },
            (Phase::Moving { backup, copy }, Reply::Returned(ret)) => Phase::Discarding {
                backup,
                copy,
                failure: match FileDescriptor::placed(self.dest, ret) {
                    Ok(_) => None,
                    Err(error) => Some(error),
                },
            },
            (Phase::Discarding { backup, failure, .. }, _) => match failure {
                None => Phase::Running { backup, moved: true },
                Some(error) => self.abandoning(backup, error),
            },
            (Phase::Running { backup, moved }, Reply::Body) => if moved {
                Phase::Vacating { backup }
            } else {
                self.leaving(Verdict::Body)
            },
            (Phase::Vacating { backup }, _) => match backup {
                Some(backup) => Phase::Restoring { backup },
                None => self.leaving(Verdict::Body),
            },
            (Phase::Restoring { backup }, Reply::Returned(ret)) => Phase::Dropping {
                backup,
                verdict: settled(FileDescriptor::placed(self.dest, ret)),
            },
            (Phase::Dropping { verdict, .. }, _) => self.leaving(verdict),
            (Phase::Unlocking { verdict }, _) => Phase::Finished { verdict },
            (phase, _) => phase,
        }
    }

    /// The relocation after `reply`.
    pub open spec fn advance(self, reply: Reply) -> Relocation {
        self.at(self.follows(reply))
    }

    /// The guard is given back on this reply: the relocation is done with the
    /// descriptor table.
    pub open spec fn releases(self, reply: Reply) -> bool {
        let next = self.follows(reply);
        (next is Unlocking || next is Finished) && !(self.phase is Unlocking || self.phase is Finished)
    }

    /// The thread's flag after `reply`, where it was `entered` before.
    pub open spec fn flag(self, reply: Reply, entered: bool) -> bool {
        if self.releases(reply) {
            self.guard.released(entered)
        } else {
            entered
        }
    }

    /// A bound on the number of replies that the relocation still needs.
    pub open spec fn steps_left(self) -> nat {
        match self.phase {
            Phase::Locking => 10,
            Phase::Rescuing => 9,
            Phase::Copying { .. } => 8,
            Phase::Moving { .. } => 7,
            Phase::Discarding { .. } => 6,
            Phase::Running { .. } => 5,
            Phase::Vacating { .. } => 4,
            Phase::Restoring { .. } => 3,
            Phase::Dropping { .. } => 2,
            Phase::Unlocking { .. } => 1,
            Phase::Finished { .. } => 0,
        }
    }

    /// The relocation of `fd` to `dest` on a thread whose flag is `entered`,
    /// as it starts.
    pub open spec fn begin(fd: i32, dest: i32, entered: bool) -> Relocation {
        let start = Relocation { fd, dest, guard: StaticMutex::acquired(entered), phase: Phase::Locking };
        if start.guard.owner {
            start
        } else {
            start.at(start.entering())
        }
    }

    /// What the relocation has asked for.
    pub fn request(&self) -> (request: Request)
        ensures
            request == self.asks(),
    {
        match self.phase {
            Phase::Locking => Request::Lock,
            Phase::Rescuing => {
                // The target slot is not ours: it is looked at, never closed.
                let occupant = FileDescriptor::from_fd(self.dest);
                let call = occupant.dup_call();
                let _ = occupant.into_raw_fd();
                Request::Crt(call)
            },
            Phase::Copying { .. } => {
                let descriptor = FileDescriptor::from_fd(self.fd);
                let call = descriptor.dup_call();
                let _ = descriptor.into_raw_fd();
                Request::Crt(call)
            },
            Phase::Moving { copy, .. } => {
                let copy = FileDescriptor::from_fd(copy);
                let call = copy.dup2_call(self.dest);
                let _ = copy.into_raw_fd();
                Request::Crt(call)
            },
            Phase::Discarding { copy, .. } => Request::Crt(FileDescriptor::from_fd(copy).close()),
            Phase::Running { .. } => Request::Invoke { fd: self.dest },
            Phase::Vacating { .. } => Request::Crt(FileDescriptor::from_fd(self.dest).close()),
            Phase::Restoring { backup, .. } => {
                let backup = FileDescriptor::from_fd(backup);
                let call = backup.dup2_call(self.dest);
                let _ = backup.into_raw_fd();
                Request::Crt(call)
            },
            Phase::Dropping { backup, .. } => Request::Crt(FileDescriptor::from_fd(backup).close()),
            Phase::Unlocking { .. } => Request::Unlock,
            Phase::Finished { verdict } => Request::Finish(verdict),
        }
    }

    /// Whether `reply` answers what the relocation has asked for.
    pub fn accepts(&self, reply: &Reply) -> (accepted: bool)
        ensures
            accepted == self.awaits(*reply),
    {
        match self.phase {
            Phase::Rescuing | Phase::Copying { .. } | Phase::Moving { .. } | Phase::Restoring {
                ..
            } => matches!(reply, Reply::Returned(_)),
            Phase::Running { .. } => matches!(reply, Reply::Body),
            Phase::Finished { .. } => false,
            _ => true,
        }
    }

    fn enter(&self) -> (phase: Phase)
        ensures
            phase == self.entering(),
    {
        if self.fd == self.dest {
            Phase::Running { backup: None, moved: false }
        } else {
            Phase::Rescuing
        }
    }

    fn leave(&self, verdict: Verdict, entered: &mut bool) -> (phase: Phase)
        ensures
            phase == self.leaving(verdict),
            *final(entered) == self.guard.released(*old(entered)),
    {
        if self.guard.release(entered) {
            Phase::Unlocking { verdict }
        } else {
            Phase::Finished { verdict }
        }
    }

    fn abandon(&self, backup: Option<i32>, error: OsError, entered: &mut bool) -> (phase: Phase)
        ensures
            phase == self.abandoning(backup, error),
            *final(entered) == (if backup is None {
                self.guard.released(*old(entered))
            } else {
                *old(entered)
            }),
    {
        match backup {
            Some(backup) => Phase::Dropping { backup, verdict: Verdict::Failed(error) },
            None => self.leave(Verdict::Failed(error), entered),
        }
    }

    /// Takes the reply to what was asked, and says what to do next.
    /// `entered` is the flag of the thread that runs the relocation, the one
    /// that [`move_fd`] was given. A reply that does not answer what was
    /// asked is passed over: the relocation stays where it is and asks again.
    /// After as many replies as [`Relocation::steps_left`] says, at most, the
    /// relocation asks to finish.
    pub fn resume(self, reply: Reply, entered: &mut bool) -> (next: (Relocation, Request))
        ensures
            next.0 == self.advance(reply),
            next.1 == next.0.asks(),
            *final(entered) == self.flag(reply, *old(entered)),
            self.awaits(reply) ==> next.0.steps_left() < self.steps_left(),
    {
        let phase = match (self.phase, reply) {
            (Phase::Locking, _) => self.enter(),
            (Phase::Rescuing, Reply::Returned(ret)) => {
                let occupant = FileDescriptor::from_fd(self.dest);
                let backup = match occupant.dup(ret) {
                    Ok(backup) => Some(backup.into_raw_fd()),
                    Err(_) => None,
                };
                let _ = occupant.into_raw_fd();
                Phase::Copying { backup }
            },
            (Phase::Copying { backup }, Reply::Returned(ret)) => {
                let descriptor = FileDescriptor::from_fd(self.fd);
                let copied = descriptor.dup(ret);
                let _ = descriptor.into_raw_fd();
                match copied {
                    Ok(copy) => {
                        let copy = copy.into_raw_fd();
                        if copy == self.dest {
                            // The copy is the slot's occupant already.
                            Phase::Running { backup, moved: true }
                        } else {
                            Phase::Moving { backup, copy }
                        }
                    },
                    Err(error) => self.abandon(backup, error, entered),
                }
            },
            (Phase::Moving { backup, copy }, Reply::Returned(ret)) => {
                let duplicate = FileDescriptor::from_fd(copy);
                let moved = duplicate.dup2(self.dest, ret);
                let _ = duplicate.into_raw_fd();
                match moved {
                    Ok(occupant) => {
                        let _ = occupant.into_raw_fd();
                        Phase::Discarding { backup, copy, failure: None }
                    },
                    Err(error) => Phase::Discarding { backup, copy, failure: Some(error) },
                }
            },
            (Phase::Discarding { backup, failure, .. }, _) => match failure {
                None => Phase::Running { backup, moved: true },
                Some(error) => self.abandon(backup, error, entered),
            },
            (Phase::Running { backup, moved }, Reply::Body) => {
                if moved {
                    Phase::Vacating { backup }
                } else {
                    self.leave(Verdict::Body, entered)
                }
            },
            (Phase::Vacating { backup }, _) => match backup {
                Some(backup) => Phase::Restoring { backup },
                None => self.leave(Verdict::Body, entered),
            },
            (Phase::Restoring { backup }, Reply::Returned(ret)) => {
                let rescue = FileDescriptor::from_fd(backup);
                let restored = rescue.dup2(self.dest, ret);
                let _ = rescue.into_raw_fd();
                let verdict = match restored {
                    Ok(occupant) => {
                        // The slot is the caller's again.
                        let _ = occupant.into_raw_fd();
                        Verdict::Body
                    },
                    Err(error) => Verdict::Failed(error),
                };
                Phase::Dropping { backup, verdict }
            },
            (Phase::Dropping { verdict, .. }, _) => self.leave(verdict, entered),
            (Phase::Unlocking { verdict }, _) => Phase::Finished { verdict },
            (phase, _) => phase,
        };
        let next = Relocation { fd: self.fd, dest: self.dest, guard: self.guard, phase };
        let request = next.request();
        (next, request)
    }
}

/// Starts the relocation of `fd` to the slot `dest` on the thread whose flag
/// is `entered`, and says what to do first. The flag is set from here until
/// the relocation is done with the descriptor table.
pub fn move_fd(fd: &FileDescriptor, dest: i32, entered: &mut bool) -> (start: (Relocation, Request))
    ensures
        start.0 == Relocation::begin(fd.fd, dest, *old(entered)),
        start.1 == start.0.asks(),
        *final(entered),
{
    let guard = StaticMutex::acquire(entered);
    let start = Relocation { fd: fd.fd, dest, guard, phase: Phase::Locking };
    let start = if guard.owns() {
        start
    } else {
        Relocation { fd: fd.fd, dest, guard, phase: start.enter() }
    };
    let request = start.request();
    (start, request)
}

} // verus!
