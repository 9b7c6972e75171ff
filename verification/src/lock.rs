//! The process lock that guards the descriptor table, seen from one thread.
//!
//! The lock has two layers: a flag per thread, which says that the thread is
//! already inside the guarded section, and one exclusive lock of the
//! operating system that all threads share. Only the flag is decided here.
//! The driver keeps the flag in thread-local storage, and takes or gives back
//! the operating system's lock when the guard says so.

use vstd::prelude::*;

verus! {

/// A guard of the process lock. An owning guard stands for the one
/// acquisition on its thread that took the operating system's lock; any
/// other guard was handed out inside that acquisition and owns nothing.
#[derive(Debug, Clone, Copy, PartialEq, Eq, Structural)]
pub struct StaticMutex {
    pub owner: bool,
}

impl StaticMutex {
    /// The guard that a thread gets whose flag is `entered`.
    pub open spec fn acquired(entered: bool) -> StaticMutex {
        StaticMutex { owner: !entered }
    }

    /// The thread's flag after this guard is given back.
    pub open spec fn released(self, entered: bool) -> bool {
        if self.owner {
            false
        } else {
            entered
        }
    }

    /// Enters the guarded section on the thread whose flag is `entered`.
    /// If the guard owns, the caller now takes the operating system's lock,
    /// waiting as long as it takes; if not, the thread is inside already and
    /// there is nothing to wait for.
    pub fn acquire(entered: &mut bool) -> (guard: StaticMutex)
        ensures
            guard == Self::acquired(*old(entered)),
            *final(entered),
    {
        let owner = !*entered;
        *entered = true;
        StaticMutex { owner }
    }

    /// Whether this guard stands for the operating system's lock.
    pub fn owns(&self) -> (owner: bool)
        ensures
            owner == self.owner,
    {
        self.owner
    }

    /// Gives the guard back. Returns whether the caller now gives back the
    /// operating system's lock; the flag is cleared in exactly that case.
    pub fn release(self, entered: &mut bool) -> (unlock: bool)
        ensures
            unlock == self.owner,
            *final(entered) == self.released(*old(entered)),
    {
        if self.owner {
            *entered = false;
        }
        self.owner
    }
}

/// One thread's standing with the process lock: its flag, and whether it
/// holds the operating system's lock.
pub struct Thread {
    pub entered: bool,
    pub holds: bool,
}

impl Thread {
    /// The flag is set exactly while the thread holds the operating system's lock.
    pub open spec fn consistent(self) -> bool {
        self.entered == self.holds
    }

    /// The thread after an acquisition, and the guard it got. An owning
    /// guard brings the operating system's lock with it.
    pub open spec fn acquire(self) -> (Thread, StaticMutex) {
        let guard = StaticMutex::acquired(self.entered);
        (Thread { entered: true, holds: self.holds || guard.owner }, guard)
    }

    /// An acquisition would wait for a lock that the thread itself holds,
    /// and so for ever.
    pub open spec fn deadlocks(self) -> bool {
        StaticMutex::acquired(self.entered).owner && self.holds
    }

    /// The thread after it gave `guard` back.
    pub open spec fn release(self, guard: StaticMutex) -> Thread {
        Thread { entered: guard.released(self.entered), holds: self.holds && !guard.owner }
    }

    /// Giving `guard` back would give back a lock that the thread does not hold.
    pub open spec fn overreleases(self, guard: StaticMutex) -> bool {
        guard.owner && !self.holds
    }
}

/// Reentrancy. On a thread whose flag tells the truth, neither of two nested
/// acquisitions can wait for the thread itself, and the second asks nothing
/// of the operating system's lock at all. When the guards are given back,
/// inner first, the inner one changes nothing, the operating system's lock is
/// given back as often as it was taken (once if the thread was outside, never
/// if it was inside), and the thread stands as it stood before.
pub proof fn lemma_nested_acquisitions(thread: Thread)
    requires
        thread.consistent(),
    ensures
        ({
            let (first, outer) = thread.acquire();
            let (second, inner) = first.acquire();
            let third = second.release(inner);
            let fourth = third.release(outer);
            &&& !thread.deadlocks() && !first.deadlocks()
            &&& outer.owner == !thread.entered
            &&& !inner.owner
            &&& first.consistent() && second.consistent()
            &&& !second.overreleases(inner) && !third.overreleases(outer)
            &&& third == first
            &&& fourth == thread
        }),
{
}

/// The same guards given back in the other order, outer first: still no lock
/// is given back that is not held, and the thread ends as it began.
pub proof fn lemma_guards_in_either_order(thread: Thread)
    requires
        thread.consistent(),
    ensures
        ({
            let (first, outer) = thread.acquire();
            let (second, inner) = first.acquire();
            let third = second.release(outer);
            let fourth = third.release(inner);
            &&& !second.overreleases(outer) && !third.overreleases(inner)
            &&& fourth == thread
        }),
{
}

} // verus!
