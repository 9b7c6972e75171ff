use windows::Win32::Foundation::{INVALID_HANDLE_VALUE, WAIT_FAILED, WAIT_OBJECT_0, WAIT_TIMEOUT};
use windows::Win32::System::Threading::{INFINITE, WT_EXECUTEINWAITTHREAD, WT_EXECUTEONLYONCE};
use winspawn::child::{
    Answer, Call, Child, Kill, Poll, Polled, Request, TryWait, Wait, Waiter, KILLED, NO_COMPLETION,
};
use winspawn::error::OsError;

const HANDLE: isize = 0x2a4;

fn signaled() -> Answer {
    Answer::Waited { status: WAIT_OBJECT_0.0, error: 0 }
}

fn running() -> Answer {
    Answer::Waited { status: WAIT_TIMEOUT.0, error: 0 }
}

#[test]
fn library_numbers_are_those_of_the_windows_crate() {
    assert_eq!(winspawn::win32::WAIT_OBJECT_0, WAIT_OBJECT_0.0);
    assert_eq!(winspawn::win32::WAIT_TIMEOUT, WAIT_TIMEOUT.0);
    assert_eq!(winspawn::win32::INFINITE, INFINITE);
    assert_eq!(winspawn::win32::WT_EXECUTEINWAITTHREAD, WT_EXECUTEINWAITTHREAD.0);
    assert_eq!(winspawn::win32::WT_EXECUTEONLYONCE, WT_EXECUTEONLYONCE.0);
}

#[test]
fn blocking_wait_waits_without_limit() {
    let mut child = Child::new(HANDLE);
    let (wait, request) = child.wait();
    assert_eq!(wait, Wait::Waiting);
    assert_eq!(
        request,
        Request::Call(Call::WaitForSingleObject { handle: HANDLE, millis: 0xFFFF_FFFF })
    );
    assert_eq!(child, Child { proc_handle: HANDLE, waiter: None });
}

#[test]
fn blocking_wait_returns_the_exit_code() {
    let mut child = Child::new(HANDLE);
    let (wait, _) = child.wait();
    let (wait, request) = wait.resume(&child, Answer::Waited { status: 0, error: 0 });
    assert_eq!(wait, Wait::Reading);
    assert_eq!(request, Request::Call(Call::GetExitCodeProcess { handle: HANDLE }));
    let (wait, request) = wait.resume(&child, Answer::ExitCode(Ok(7)));
    assert_eq!(wait, Wait::Finished(Ok(7)));
    assert_eq!(request, Request::Finish(Ok(7)));
}

#[test]
fn blocking_wait_that_is_not_signaled_fails_with_the_last_error() {
    let mut child = Child::new(HANDLE);
    let (wait, _) = child.wait();
    let failed = Answer::Waited { status: WAIT_FAILED.0, error: 6 };
    assert_eq!(wait.resume(&child, failed).1, Request::Finish(Err(OsError { code: 6 })));
    let timed_out = Answer::Waited { status: 258, error: 1460 };
    assert_eq!(wait.resume(&child, timed_out).1, Request::Finish(Err(OsError { code: 1460 })));
}

#[test]
fn blocking_wait_passes_on_a_failure_to_read_the_code() {
    let mut child = Child::new(HANDLE);
    let (wait, _) = child.wait();
    let (wait, _) = wait.resume(&child, signaled());
    let (_, request) = wait.resume(&child, Answer::ExitCode(Err(OsError { code: 5 })));
    assert_eq!(request, Request::Finish(Err(OsError { code: 5 })));
}

#[test]
fn try_wait_asks_without_waiting() {
    let mut child = Child::new(HANDLE);
    let (probe, request) = child.try_wait();
    assert_eq!(probe, TryWait::Probing);
    assert_eq!(request, Request::Call(Call::WaitForSingleObject { handle: HANDLE, millis: 0 }));
}

#[test]
fn try_wait_on_a_running_child_returns_nothing() {
    let mut child = Child::new(HANDLE);
    let (probe, _) = child.try_wait();
    let (probe, request) = probe.resume(&child, Answer::Waited { status: 258, error: 0 });
    assert_eq!(probe, TryWait::Finished(Ok(None)));
    assert_eq!(request, Request::Finish(Ok(None)));
}

#[test]
fn try_wait_on_an_exited_child_returns_its_code() {
    let mut child = Child::new(HANDLE);
    let (probe, _) = child.try_wait();
    let (probe, request) = probe.resume(&child, Answer::Waited { status: 0, error: 0 });
    assert_eq!(request, Request::Call(Call::GetExitCodeProcess { handle: HANDLE }));
    let (_, request) = probe.resume(&child, Answer::ExitCode(Ok(7)));
    assert_eq!(request, Request::Finish(Ok(Some(7))));
}

#[test]
fn try_wait_fails_on_any_other_status() {
    let mut child = Child::new(HANDLE);
    let (probe, _) = child.try_wait();
    let (_, request) = probe.resume(&child, Answer::Waited { status: WAIT_FAILED.0, error: 6 });
    assert_eq!(request, Request::Finish(Err(OsError { code: 6 })));
    let (_, request) = probe.resume(&child, Answer::Waited { status: 128, error: 0 });
    assert_eq!(request, Request::Finish(Err(OsError { code: 0 })));
}

#[test]
fn kill_ends_the_child_with_a_code_that_is_not_zero() {
    let mut child = Child::new(HANDLE);
    let (kill, request) = child.kill();
    assert_eq!(kill, Kill::Killing);
    assert_eq!(request, Request::Call(Call::TerminateProcess { handle: HANDLE, exit_code: 1 }));
    assert_ne!(KILLED, 0);
    let (kill, request) = kill.resume(&child, Answer::Done(Ok(())));
    assert_eq!(kill, Kill::Finished(Ok(())));
    assert_eq!(request, Request::Finish(Ok(())));
}

#[test]
fn kill_passes_on_a_failure() {
    let mut child = Child::new(HANDLE);
    let (kill, _) = child.kill();
    let (_, request) = kill.resume(&child, Answer::Done(Err(OsError { code: 5 })));
    assert_eq!(request, Request::Finish(Err(OsError { code: 5 })));
}

#[test]
fn wait_after_kill_returns_the_code_of_the_kill() {
    let mut child = Child::new(HANDLE);
    let (kill, request) = child.kill();
    let code = match request {
        Request::Call(Call::TerminateProcess { exit_code, .. }) => exit_code,
        other => panic!("{:?}", other),
    };
    kill.resume(&child, Answer::Done(Ok(())));
    let (wait, _) = child.wait();
    let (wait, _) = wait.resume(&child, signaled());
    let (_, request) = wait.resume(&child, Answer::ExitCode(Ok(code)));
    assert_eq!(request, Request::Finish(Ok(1)));
}

#[test]
fn poll_of_an_exited_child_is_ready_and_registers_nothing() {
    let mut child = Child::new(HANDLE);
    let (poll, request) = child.poll();
    assert_eq!(poll, Poll::Probing);
    assert_eq!(request, Request::Call(Call::WaitForSingleObject { handle: HANDLE, millis: 0 }));
    let (poll, request) = poll.resume(&mut child, signaled());
    assert_eq!(request, Request::Call(Call::GetExitCodeProcess { handle: HANDLE }));
    let (poll, request) = poll.resume(&mut child, Answer::ExitCode(Ok(7)));
    assert_eq!(poll, Poll::Finished(Polled::Ready(Ok(7))));
    assert_eq!(request, Request::Finish(Polled::Ready(Ok(7))));
    assert_eq!(child.waiter, None);
}

#[test]
fn first_poll_of_a_running_child_registers_and_is_pending() {
    let mut child = Child::new(HANDLE);
    let (poll, _) = child.poll();
    let (poll, request) = poll.resume(&mut child, running());
    assert_eq!(poll, Poll::Registering);
    assert_eq!(
        request,
        Request::Call(Call::RegisterWaitForSingleObject {
            handle: HANDLE,
            millis: 0xFFFF_FFFF,
            flags: 12,
        })
    );
    let (poll, request) = poll.resume(&mut child, Answer::Registered(Ok(0x77)));
    assert_eq!(child.waiter, Some(Waiter { wait: 0x77 }));
    assert_eq!(request, Request::Call(Call::WaitForSingleObject { handle: HANDLE, millis: 0 }));
    let (poll, request) = poll.resume(&mut child, running());
    assert_eq!(poll, Poll::Finished(Polled::Pending));
    assert_eq!(request, Request::Finish(Polled::Pending));
    assert_eq!(child.waiter, Some(Waiter { wait: 0x77 }));
}

#[test]
fn child_that_ends_while_it_is_registered_is_ready_in_the_same_poll() {
    let mut child = Child::new(HANDLE);
    let (poll, _) = child.poll();
    let (poll, _) = poll.resume(&mut child, running());
    let (poll, _) = poll.resume(&mut child, Answer::Registered(Ok(0x77)));
    let (poll, _) = poll.resume(&mut child, signaled());
    let (_, request) = poll.resume(&mut child, Answer::ExitCode(Ok(0)));
    assert_eq!(request, Request::Finish(Polled::Ready(Ok(0))));
}

#[test]
fn later_polls_do_not_register_again() {
    let mut child = Child { proc_handle: HANDLE, waiter: Some(Waiter { wait: 0x77 }) };
    let (poll, _) = child.poll();
    // Woken too early: the child still runs.
    let (_, request) = poll.resume(&mut child, running());
    assert_eq!(request, Request::Finish(Polled::Pending));
    assert_eq!(child.waiter, Some(Waiter { wait: 0x77 }));
    // Woken in time.
    let (poll, _) = child.poll();
    let (poll, _) = poll.resume(&mut child, signaled());
    let (_, request) = poll.resume(&mut child, Answer::ExitCode(Ok(3)));
    assert_eq!(request, Request::Finish(Polled::Ready(Ok(3))));
    assert_eq!(child.waiter, Some(Waiter { wait: 0x77 }));
}

#[test]
fn poll_is_ready_with_the_error_when_registering_fails() {
    let mut child = Child::new(HANDLE);
    let (poll, _) = child.poll();
    let (poll, _) = poll.resume(&mut child, running());
    let (_, request) = poll.resume(&mut child, Answer::Registered(Err(OsError { code: 8 })));
    assert_eq!(request, Request::Finish(Polled::Ready(Err(OsError { code: 8 }))));
    assert_eq!(child.waiter, None);
}

#[test]
fn poll_is_ready_with_the_error_when_the_probe_fails() {
    let mut child = Child::new(HANDLE);
    let (poll, _) = child.poll();
    let (_, request) = poll.resume(&mut child, Answer::Waited { status: WAIT_FAILED.0, error: 6 });
    assert_eq!(request, Request::Finish(Polled::Ready(Err(OsError { code: 6 }))));
}

#[test]
fn poll_and_blocking_wait_return_the_same_code() {
    for code in [0u32, 1, 7, 259, u32::MAX] {
        let mut child = Child::new(HANDLE);
        let (wait, _) = child.wait();
        let (wait, _) = wait.resume(&child, signaled());
        let (_, waited) = wait.resume(&child, Answer::ExitCode(Ok(code)));
        let (poll, _) = child.poll();
        let (poll, _) = poll.resume(&mut child, signaled());
        let (_, polled) = poll.resume(&mut child, Answer::ExitCode(Ok(code)));
        assert_eq!(waited, Request::Finish(Ok(code)));
        assert_eq!(polled, Request::Finish(Polled::Ready(Ok(code))));
    }
}

#[test]
fn answer_of_the_wrong_kind_is_passed_over() {
    let mut child = Child::new(HANDLE);
    let (wait, request) = child.wait();
    assert_eq!(wait.resume(&child, Answer::ExitCode(Ok(7))), (wait, request));
    let (probe, request) = child.try_wait();
    assert_eq!(probe.resume(&child, Answer::Done(Ok(()))), (probe, request));
    let (kill, request) = child.kill();
    assert_eq!(kill.resume(&child, signaled()), (kill, request));
    let (poll, request) = child.poll();
    assert_eq!(poll.resume(&mut child, Answer::Registered(Ok(1))), (poll, request));
    assert_eq!(child.waiter, None);
}

#[test]
fn finished_operations_stay_finished() {
    let child = Child::new(HANDLE);
    let wait = Wait::Finished(Ok(7));
    assert_eq!(wait.resume(&child, signaled()), (wait, Request::Finish(Ok(7))));
    let probe = TryWait::Finished(Ok(None));
    assert_eq!(probe.resume(&child, signaled()), (probe, Request::Finish(Ok(None))));
    let kill = Kill::Finished(Ok(()));
    assert_eq!(kill.resume(&child, Answer::Done(Ok(()))), (kill, Request::Finish(Ok(()))));
}

#[test]
fn withdrawing_a_registration_does_not_wait_for_the_callback() {
    let call = Waiter { wait: 0x77 }.unregister();
    assert_eq!(call, Call::UnregisterWaitEx { wait: 0x77, completion: 0 });
}

#[test]
fn completion_handle_is_the_null_handle_and_not_the_one_that_waits() {
    assert_eq!(NO_COMPLETION, windows::Win32::Foundation::HANDLE::default().0);
    assert_ne!(NO_COMPLETION, INVALID_HANDLE_VALUE.0);
}

#[test]
fn closing_a_child_withdraws_its_registration_first() {
    let child = Child { proc_handle: HANDLE, waiter: Some(Waiter { wait: 0x77 }) };
    assert_eq!(
        child.close(),
        (
            Some(Call::UnregisterWaitEx { wait: 0x77, completion: 0 }),
            Call::CloseHandle { handle: HANDLE }
        )
    );
    assert_eq!(Child::new(HANDLE).close(), (None, Call::CloseHandle { handle: HANDLE }));
}
