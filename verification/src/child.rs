//! A child process: waiting for it to end, asking whether it has ended,
//! ending it by force, and waiting for its end without holding up a thread.
//!
//! A child is running or has exited with a code; the operating system alone
//! knows which. Each operation here is a machine that a driver runs: the
//! method of [`Child`] starts it and says which call to make, the driver
//! makes the call and hands the answer to the machine's `resume`, which says
//! what to do next, until the machine asks to finish with the operation's
//! result. An answer that does not answer the call is passed over: the
//! machine stays where it is and asks again.

use vstd::prelude::*;
use crate::error::OsError;
use crate::win32;
use crate::win32::{
    INFINITE,
    WAIT_OBJECT_0,
    WAIT_TIMEOUT,
    WT_EXECUTEINWAITTHREAD,
    WT_EXECUTEONLYONCE,
};

verus! {

/// The exit code with which a child ends that was ended by force.
pub const KILLED: u32 = 1;

/// The completion handle that is none: a registration that is withdrawn with
/// it is withdrawn at once, without waiting for a callback that is running.
pub const NO_COMPLETION: isize = 0;

/// A call into the operating system.
#[derive(Debug, Clone, Copy, PartialEq, Eq)]
pub enum Call {
    /// `WaitForSingleObject(handle, millis)`: wait until the process has
    /// ended or the time has run out.
    WaitForSingleObject { handle: isize, millis: u32 },
    /// `GetExitCodeProcess(handle, ..)`: read the code with which the process ended.
    GetExitCodeProcess { handle: isize },
    /// `TerminateProcess(handle, exit_code)`: end the process by force.
    TerminateProcess { handle: isize, exit_code: u32 },
    /// `RegisterWaitForSingleObject(.., handle, callback, context, millis, flags)`:
    /// have the callback run when the process has ended. The driver supplies
    /// a callback that wakes the waiting task, and the task's waker as context.
    RegisterWaitForSingleObject { handle: isize, millis: u32, flags: u32 },
    /// `UnregisterWaitEx(wait, completion)`: withdraw a registration.
    UnregisterWaitEx { wait: isize, completion: isize },
    /// `CloseHandle(handle)`: give the process handle back.
    CloseHandle { handle: isize },
}

/// What the driver reports of a call that it has made.
#[derive(Debug, Clone, Copy, PartialEq, Eq)]
pub enum Answer {
    /// The wait returned `status`; `error` is the calling thread's last
    /// operating system error, read right after the call.
    Waited { status: u32, error: i32 },
    /// The exit code was read, or reading it failed.
    ExitCode(Result<u32, OsError>),
    /// The wait was registered under this handle, or registering failed.
    Registered(Result<isize, OsError>),
    /// The call, which returns nothing but success or failure, returned.
    Done(Result<(), OsError>),
}

/// What a machine asks of the driver: to make a call, or to finish with the
/// operation's result.
#[derive(Debug, PartialEq, Eq)]
pub enum Request<T> {
    Call(Call),
    Finish(T),
}

/// A registration with the operating system's wait subsystem, owned: whoever
/// holds the value is the one to withdraw it, by making the call that
/// [`Waiter::unregister`] gives.
#[derive(Debug, PartialEq, Eq)]
pub struct Waiter {
    pub wait: isize,
}

/// A child process, owned: whoever holds the value is the one to give its
/// handle back, by making the calls that [`Child::close`] gives.
#[derive(Debug, PartialEq, Eq)]
pub struct Child {
    pub proc_handle: isize,
    pub waiter: Option<Waiter>,
}

/// What a poll found.
#[derive(Debug, Clone, Copy, PartialEq, Eq)]
pub enum Polled {
    /// The child has ended with this code, or asking failed.
    Ready(Result<u32, OsError>),
    /// The child still runs. The task will be woken when it has ended.
    Pending,
}

/// The flags of a wait registration: the callback runs on the thread that
/// waits, and once only.
pub open spec fn registration_flags() -> u32 {
    WT_EXECUTEINWAITTHREAD | WT_EXECUTEONLYONCE
}

/// An exit code that was read, as the answer of one who asks whether the
/// child has ended.
pub open spec fn ended(code: Result<u32, OsError>) -> Result<Option<u32>, OsError> {
    match code {
        Ok(code) => Ok(Some(code)),
        Err(error) => Err(error),
    }
}

/// Where a blocking wait stands.
#[derive(Debug, Clone, Copy, PartialEq, Eq)]
pub enum Wait {
    /// Asked to wait for the child's end, without limit.
    Waiting,
    /// Asked for the exit code.
    Reading,
    /// Over.
    Finished(Result<u32, OsError>),
}

impl Wait {
    /// What the wait on `child` has asked for.
    pub open spec fn asks(self, child: Child) -> Request<Result<u32, OsError>> {
        match self {
            Wait::Waiting => Request::Call(
                Call::WaitForSingleObject { handle: child.proc_handle, millis: INFINITE },
            ),
            Wait::Reading => Request::Call(Call::GetExitCodeProcess { handle: child.proc_handle }),
            Wait::Finished(result) => Request::Finish(result),
        }
    }

    /// `answer` answers what was asked.
    pub open spec fn awaits(self, answer: Answer) -> bool {
        match self {
            Wait::Waiting => answer is Waited,
            Wait::Reading => answer is ExitCode,
            Wait::Finished(_) => false,
        }
    }

    /// The wait after `answer`. A wait that returns anything but that the
    /// child has ended has failed, with the thread's last error.
    pub open spec fn follows(self, answer: Answer) -> Wait {
        match (self, answer) {
            (Wait::Waiting, Answer::Waited { status, error }) => if status == WAIT_OBJECT_0 {
                Wait::Reading
            } else {
                Wait::Finished(Err(OsError { code: error }))
            },
            (Wait::Reading, Answer::ExitCode(code)) => Wait::Finished(code),
            (wait, _) => wait,
        }
    }

    /// A bound on the number of answers that the wait still needs.
    pub open spec fn steps_left(self) -> nat {
        match self {
            Wait::Waiting => 2,
            Wait::Reading => 1,
            Wait::Finished(_) => 0,
        }
    }

    /// What the wait on `child` has asked for.
    pub fn request(&self, child: &Child) -> (request: Request<Result<u32, OsError>>)
        ensures
            request == self.asks(*child),
    {
        match self {
            Wait::Waiting => Request::Call(
                Call::WaitForSingleObject { handle: child.proc_handle, millis: win32::infinite() },
            ),
            Wait::Reading => Request::Call(Call::GetExitCodeProcess { handle: child.proc_handle }),
            Wait::Finished(result) => Request::Finish(*result),
        }
    }

    /// Takes the answer to what was asked, and says what to do next.
    pub fn resume(self, child: &Child, answer: Answer) -> (next: (Wait, Request<Result<u32, OsError>>))
        ensures
            next.0 == self.follows(answer),
            next.1 == next.0.asks(*child),
            self.awaits(answer) ==> next.0.steps_left() < self.steps_left(),
    {
        let wait = match (self, answer) {
            (Wait::Waiting, Answer::Waited { status, error }) => {
                if status == win32::wait_object_0() {
                    Wait::Reading
                } else {
                    Wait::Finished(Err(OsError { code: error }))
                }
            },
            (Wait::Reading, Answer::ExitCode(code)) => Wait::Finished(code),
            (wait, _) => wait,
        };
        let request = wait.request(child);
        (wait, request)
    }
}

/// Where a wait that does not block stands.
#[derive(Debug, Clone, Copy, PartialEq, Eq)]
pub enum TryWait {
    /// Asked whether the child has ended, without waiting.
    Probing,
    /// Asked for the exit code.
    Reading,
    /// Over.
    Finished(Result<Option<u32>, OsError>),
}

impl TryWait {
    /// What the probe of `child` has asked for.
    pub open spec fn asks(self, child: Child) -> Request<Result<Option<u32>, OsError>> {
        match self {
            TryWait::Probing => Request::Call(
                Call::WaitForSingleObject { handle: child.proc_handle, millis: 0 },
            ),
            TryWait::Reading => Request::Call(Call::GetExitCodeProcess { handle: child.proc_handle }),
            TryWait::Finished(result) => Request::Finish(result),
        }
    }

    /// `answer` answers what was asked.
    pub open spec fn awaits(self, answer: Answer) -> bool {
        match self {
            TryWait::Probing => answer is Waited,
            TryWait::Reading => answer is ExitCode,
            TryWait::Finished(_) => false,
        }
    }

    /// The probe after `answer`. A wait whose time ran out tells that the
    /// child still runs; one that returns anything else but that the child
    /// has ended has failed, with the thread's last error.
    pub open spec fn follows(self, answer: Answer) -> TryWait {
        match (self, answer) {
            (TryWait::Probing, Answer::Waited { status, error }) => if status == WAIT_OBJECT_0 {
                TryWait::Reading
            } else if status == WAIT_TIMEOUT {
                TryWait::Finished(Ok(None))
            } else {
                TryWait::Finished(Err(OsError { code: error }))
            },
            (TryWait::Reading, Answer::ExitCode(code)) => TryWait::Finished(ended(code)),
            (probe, _) => probe,
        }
    }

    /// A bound on the number of answers that the probe still needs.
    pub open spec fn steps_left(self) -> nat {
        match self {
            TryWait::Probing => 2,
            TryWait::Reading => 1,
            TryWait::Finished(_) => 0,
        }
    }

    /// What the probe of `child` has asked for.
    pub fn request(&self, child: &Child) -> (request: Request<Result<Option<u32>, OsError>>)
        ensures
            request == self.asks(*child),
    {
        match self {
            TryWait::Probing => Request::Call(
                Call::WaitForSingleObject { handle: child.proc_handle, millis: 0 },
            ),
            TryWait::Reading => Request::Call(Call::GetExitCodeProcess { handle: child.proc_handle }),
            TryWait::Finished(result) => Request::Finish(*result),
        }
    }

    /// Takes the answer to what was asked, and says what to do next.
    pub fn resume(self, child: &Child, answer: Answer) -> (next: (
        TryWait,
        Request<Result<Option<u32>, OsError>>,
    ))
        ensures
            next.0 == self.follows(answer),
            next.1 == next.0.asks(*child),
            self.awaits(answer) ==> next.0.steps_left() < self.steps_left(),
    {
        let probe = match (self, answer) {
            (TryWait::Probing, Answer::Waited { status, error }) => {
                if status == win32::wait_object_0() {
                    TryWait::Reading
                } else if status == win32::wait_timeout() {
                    TryWait::Finished(Ok(None))
                } else {
                    TryWait::Finished(Err(OsError { code: error }))
                }
            },
            (TryWait::Reading, Answer::ExitCode(code)) => TryWait::Finished(
                match code {
                    Ok(code) => Ok(Some(code)),
                    Err(error) => Err(error),
                },
            ),
            (probe, _) => probe,
        };
        let request = probe.request(child);
        (probe, request)
    }
}

/// Where a forced end stands.
#[derive(Debug, Clone, Copy, PartialEq, Eq)]
pub enum Kill {
    /// Asked to end the child.
    Killing,
    /// Over.
    Finished(Result<(), OsError>),
}

impl Kill {
    /// What the forced end of `child` has asked for.
    pub open spec fn asks(self, child: Child) -> Request<Result<(), OsError>> {
        match self {
            Kill::Killing => Request::Call(
                Call::TerminateProcess { handle: child.proc_handle, exit_code: KILLED },
            ),
            Kill::Finished(result) => Request::Finish(result),
        }
    }

    /// `answer` answers what was asked.
    pub open spec fn awaits(self, answer: Answer) -> bool {
        self is Killing && answer is Done
    }

    /// The forced end after `answer`. It is over once the call has
    /// returned: nobody waits here for the child to be gone.
    pub open spec fn follows(self, answer: Answer) -> Kill {
        match (self, answer) {
            (Kill::Killing, Answer::Done(result)) => Kill::Finished(result),
            (kill, _) => kill,
        }
    }

    /// A bound on the number of answers that the forced end still needs.
    pub open spec fn steps_left(self) -> nat {
        match self {
            Kill::Killing => 1,
            Kill::Finished(_) => 0,
        }
    }

    /// What the forced end of `child` has asked for.
    pub fn request(&self, child: &Child) -> (request: Request<Result<(), OsError>>)
        ensures
            request == self.asks(*child),
    {
        match self {
            Kill::Killing => Request::Call(
                Call::TerminateProcess { handle: child.proc_handle, exit_code: KILLED },
            ),
            Kill::Finished(result) => Request::Finish(*result),
        }
    }

    /// Takes the answer to what was asked, and says what to do next.
    pub fn resume(self, child: &Child, answer: Answer) -> (next: (Kill, Request<Result<(), OsError>>))
        ensures
            next.0 == self.follows(answer),
            next.1 == next.0.asks(*child),
            self.awaits(answer) ==> next.0.steps_left() < self.steps_left(),
    {
        let kill = match (self, answer) {
            (Kill::Killing, Answer::Done(result)) => Kill::Finished(result),
            (kill, _) => kill,
        };
        let request = kill.request(child);
        (kill, request)
    }
}

/// Where a poll stands.
#[derive(Debug, Clone, Copy, PartialEq, Eq)]
pub enum Poll {
    /// Asked whether the child has ended, without waiting.
    Probing,
    /// Asked for the exit code.
    Reading,
    /// Asked to register a wait that wakes the task.
    Registering,
    /// Over.
    Finished(Polled),
}

impl Poll {
    /// What the poll of `child` has asked for.
    pub open spec fn asks(self, child: Child) -> Request<Polled> {
        match self {
            Poll::Probing => Request::Call(
                Call::WaitForSingleObject { handle: child.proc_handle, millis: 0 },
            ),
            Poll::Reading => Request::Call(Call::GetExitCodeProcess { handle: child.proc_handle }),
            Poll::Registering => Request::Call(
                Call::RegisterWaitForSingleObject {
                    handle: child.proc_handle,
                    millis: INFINITE,
                    flags: registration_flags(),
                },
            ),
            Poll::Finished(polled) => Request::Finish(polled),
        }
    }

    /// `answer` answers what was asked.
    pub open spec fn awaits(self, answer: Answer) -> bool {
        match self {
            Poll::Probing => answer is Waited,
            Poll::Reading => answer is ExitCode,
            Poll::Registering => answer is Registered,
            Poll::Finished(_) => false,
        }
    }

    /// The poll of `child` after `answer`. A child that still runs is
    /// registered for a wake-up unless it is registered already, and asked
    /// once more afterwards, since it may have ended in between; with a
    /// registration in place the poll is pending.
    pub open spec fn follows(self, child: Child, answer: Answer) -> Poll {
        match (self, answer) {
            (Poll::Probing, Answer::Waited { status, error }) => if status == WAIT_OBJECT_0 {
                Poll::Reading
            } else if status == WAIT_TIMEOUT {
                if child.waiter is Some {
                    Poll::Finished(Polled::Pending)
                } else {
                    Poll::Registering
                }
            } else {
                Poll::Finished(Polled::Ready(Err(OsError { code: error })))
            },
            (Poll::Reading, Answer::ExitCode(code)) => Poll::Finished(Polled::Ready(code)),
            (Poll::Registering, Answer::Registered(Ok(_))) => Poll::Probing,
            (Poll::Registering, Answer::Registered(Err(error))) => Poll::Finished(
                Polled::Ready(Err(error)),
            ),
            (poll, _) => poll,
        }
    }

    /// The registration of `child` after `answer`: a wait that was
    /// registered is the child's from then on.
    pub open spec fn registers(self, child: Child, answer: Answer) -> Option<Waiter> {
        match (self, answer) {
            (Poll::Registering, Answer::Registered(Ok(wait))) => Some(Waiter { wait }),
            _ => child.waiter,
        }
    }

    /// The poll asks for a registration only of a child that has none.
    pub open spec fn orderly(self, child: Child) -> bool {
        self is Registering ==> child.waiter is None
    }

    /// A bound on the number of answers that the poll of `child` still needs.
    pub open spec fn steps_left(self, child: Child) -> nat {
        match self {
            Poll::Probing => if child.waiter is Some {
                2
            } else {
                4
            },
            Poll::Registering => 3,
            Poll::Reading => 1,
            Poll::Finished(_) => 0,
        }
    }

    /// What the poll of `child` has asked for.
    pub fn request(&self, child: &Child) -> (request: Request<Polled>)
        ensures
            request == self.asks(*child),
    {
        match self {
            Poll::Probing => Request::Call(
                Call::WaitForSingleObject { handle: child.proc_handle, millis: 0 },
            ),
            Poll::Reading => Request::Call(Call::GetExitCodeProcess { handle: child.proc_handle }),
            Poll::Registering => Request::Call(
                Call::RegisterWaitForSingleObject {
                    handle: child.proc_handle,
                    millis: win32::infinite(),
                    flags: win32::wt_executeinwaitthread() | win32::wt_executeonlyonce(),
                },
            ),
            Poll::Finished(polled) => Request::Finish(*polled),
        }
    }

    /// Takes the answer to what was asked, and says what to do next. A wait
    /// that was registered is kept in `child`; nothing else of the child
    /// changes.
    pub fn resume(self, child: &mut Child, answer: Answer) -> (next: (Poll, Request<Polled>))
        ensures
            next.0 == self.follows(*old(child), answer),
            next.1 == next.0.asks(*final(child)),
            final(child).proc_handle == old(child).proc_handle,
            final(child).waiter == self.registers(*old(child), answer),
            self.awaits(answer) ==> next.0.steps_left(*final(child)) < self.steps_left(*old(child)),
    {
        let poll = match (self, answer) {
            (Poll::Probing, Answer::Waited { status, error }) => {
                if status == win32::wait_object_0() {
                    Poll::Reading
                } else if status == win32::wait_timeout() {
                    if child.waiter.is_some() {
                        Poll::Finished(Polled::Pending)
                    } else {
                        Poll::Registering
                    }
                } else {
                    Poll::Finished(Polled::Ready(Err(OsError { code: error })))
                }
            },
            (Poll::Reading, Answer::ExitCode(code)) => Poll::Finished(Polled::Ready(code)),
            (Poll::Registering, Answer::Registered(Ok(wait))) => {
                child.waiter = Some(Waiter { wait });
                Poll::Probing
            },
            (Poll::Registering, Answer::Registered(Err(error))) => Poll::Finished(
                Polled::Ready(Err(error)),
            ),
            (poll, _) => poll,
        };
        let request = poll.request(child);
        (poll, request)
    }
}

impl Waiter {
    /// Ends the registration's life: the call that withdraws it, at once and
    /// without waiting for a callback that is running. A failure of that
    /// call is for the driver to note; nobody is left to return it to.
    pub fn unregister(self) -> (call: Call)
        ensures
            call == (Call::UnregisterWaitEx { wait: self.wait, completion: NO_COMPLETION }),
    {
        Call::UnregisterWaitEx { wait: self.wait, completion: NO_COMPLETION }
    }
}

impl Child {
    /// The child behind a process handle, not yet registered for a wake-up.
    pub fn new(proc_handle: isize) -> (child: Child)
        ensures
            child == (Child { proc_handle, waiter: None }),
    {
        Child { proc_handle, waiter: None }
    }

    /// Starts a wait for the child's end that holds up the calling thread
    /// for as long as the child runs. It finishes with the child's exit code.
    pub fn wait(&mut self) -> (start: (Wait, Request<Result<u32, OsError>>))
        ensures
            *final(self) == *old(self),
            start.0 == Wait::Waiting,
            start.1 == start.0.asks(*old(self)),
    {
        let wait = Wait::Waiting;
        let request = wait.request(self);
        (wait, request)
    }

    /// Starts asking whether the child has ended. It finishes at once, with
    /// the exit code if the child has ended and with nothing if it runs.
    pub fn try_wait(&mut self) -> (start: (TryWait, Request<Result<Option<u32>, OsError>>))
        ensures
            *final(self) == *old(self),
            start.0 == TryWait::Probing,
            start.1 == start.0.asks(*old(self)),
    {
        let probe = TryWait::Probing;
        let request = probe.request(self);
        (probe, request)
    }

    /// Starts ending the child by force, with the exit code [`KILLED`]. It
    /// finishes once the request is made, not once the child is gone.
    pub fn kill(&mut self) -> (start: (Kill, Request<Result<(), OsError>>))
        ensures
            *final(self) == *old(self),
            start.0 == Kill::Killing,
            start.1 == start.0.asks(*old(self)),
    {
        let kill = Kill::Killing;
        let request = kill.request(self);
        (kill, request)
    }

    /// Starts a poll on behalf of a task that waits for the child's end.
    /// It finishes at once: with the exit code if the child has ended, and
    /// else pending, with a wait registered that wakes the task.
    pub fn poll(&mut self) -> (start: (Poll, Request<Polled>))
        ensures
            *final(self) == *old(self),
            start.0 == Poll::Probing,
            start.1 == start.0.asks(*old(self)),
    {
        let poll = Poll::Probing;
        let request = poll.request(self);
        (poll, request)
    }

    /// Ends the child's life as a value: the calls that withdraw its
    /// registration, if it has one, and then give its handle back. The
    /// process itself is not touched.
    pub fn close(self) -> (calls: (Option<Call>, Call))
        ensures
            calls.0 == (match self.waiter {
                Some(waiter) => Some(
                    Call::UnregisterWaitEx { wait: waiter.wait, completion: NO_COMPLETION },
                ),
                None => None,
            }),
            calls.1 == (Call::CloseHandle { handle: self.proc_handle }),
    {
        let unregister = match self.waiter {
            Some(waiter) => Some(waiter.unregister()),
            None => None,
        };
        (unregister, Call::CloseHandle { handle: self.proc_handle })
    }
}

/// The flags of a wait registration, as a number.
pub proof fn lemma_registration_flags()
    ensures
        registration_flags() == 12,
{
    assert(4u32 | 8u32 == 12u32) by (bit_vector);
}

/// A forced end can be told from an end of the child's own making, as far as
/// the code goes: every child is ended by force with the same code, and that
/// code is not the zero of success.
pub proof fn lemma_forced_end_has_its_code(child: Child)
    ensures
        Kill::Killing.asks(child) == Request::<Result<(), OsError>>::Call(
            Call::TerminateProcess { handle: child.proc_handle, exit_code: KILLED },
        ),
        KILLED != 0,
{
}

/// One registration. A poll that [`Child::poll`] started asks for a
/// registration only of a child that has none, whatever it is answered; and a
/// registration that a child has stays the child's, untouched, through every
/// poll. So a child is registered once at most in its life, and a task that
/// waits for it is woken by one callback at most.
pub proof fn lemma_registered_once(poll: Poll, child: Child, answer: Answer)
    requires
        poll.orderly(child),
    ensures
        Poll::Probing.orderly(child),
        poll.follows(child, answer).orderly(Child { waiter: poll.registers(child, answer), ..child }),
        poll.follows(child, answer).asks(child) matches Request::Call(
            Call::RegisterWaitForSingleObject { .. },
        ) ==> child.waiter is None,
        child.waiter is Some ==> poll.registers(child, answer) == child.waiter,
{
}

/// One exit code. Of a child that has ended, the blocking wait, the wait
/// that does not block and the poll all finish with the same: the exit code
/// that the operating system gave, or the error with which reading it
/// failed. None of them makes anything of the code.
pub proof fn lemma_exit_code_agrees(child: Child, error: i32, code: Result<u32, OsError>)
    ensures
        ({
            let ended = Answer::Waited { status: WAIT_OBJECT_0, error };
            let read = Answer::ExitCode(code);
            &&& Wait::Waiting.follows(ended).follows(read) == Wait::Finished(code)
            &&& TryWait::Probing.follows(ended).follows(read) == TryWait::Finished(self::ended(code))
            &&& Poll::Probing.follows(child, ended).follows(child, read) == Poll::Finished(
                Polled::Ready(code),
            )
            &&& Poll::Probing.registers(child, ended) == child.waiter
            &&& Poll::Reading.registers(child, read) == child.waiter
        }),
{
}

/// A child that runs. Asked about a child that still runs, the wait that
/// does not block finishes with nothing. The poll finishes pending, after
/// one registration if the child had none, and after none if it had one.
pub proof fn lemma_running_child_is_pending(child: Child, error: i32, wait: isize)
    ensures
        ({
            let runs = Answer::Waited { status: WAIT_TIMEOUT, error };
            let registered = Child { waiter: Some(Waiter { wait }), ..child };
            &&& TryWait::Probing.follows(runs) == TryWait::Finished(Ok(None))
            &&& child.waiter is Some ==> Poll::Probing.follows(child, runs) == Poll::Finished(
                Polled::Pending,
            )
            &&& child.waiter is None ==> {
                &&& Poll::Probing.follows(child, runs) == Poll::Registering
                &&& Poll::Registering.follows(child, Answer::Registered(Ok(wait))) == Poll::Probing
                &&& Poll::Registering.registers(child, Answer::Registered(Ok(wait)))
                    == registered.waiter
                &&& Poll::Probing.follows(registered, runs) == Poll::Finished(Polled::Pending)
            }
        }),
{
}

} // verus!
