//! The numbers of the Win32 interface that the library goes by. The library
//! takes each from the `windows` crate; the constants here say what they
//! are, so that contracts can speak of them.

use vstd::prelude::*;

verus! {

/// The status with which a wait reports that its object is signaled.
pub const WAIT_OBJECT_0: u32 = 0;

/// The status with which a wait reports that its time ran out.
pub const WAIT_TIMEOUT: u32 = 258;

/// The time limit that is no limit.
pub const INFINITE: u32 = 0xFFFF_FFFF;

/// The flag of a wait registration that has the callback run on the thread
/// that waits.
pub const WT_EXECUTEINWAITTHREAD: u32 = 4;

/// The flag of a wait registration that has the callback run once only.
pub const WT_EXECUTEONLYONCE: u32 = 8;

/// `windows::Win32::Foundation::WAIT_OBJECT_0`, a `WAIT_EVENT`, as the
/// number in it. The contract states that the number is 0.
#[verifier::external_body]
pub(crate) fn wait_object_0() -> (status: u32)
    ensures
        status == WAIT_OBJECT_0,
{
    windows::Win32::Foundation::WAIT_OBJECT_0.0
}

/// `windows::Win32::Foundation::WAIT_TIMEOUT`, a `WAIT_EVENT`, as the number
/// in it. The contract states that the number is 258.
#[verifier::external_body]
pub(crate) fn wait_timeout() -> (status: u32)
    ensures
        status == WAIT_TIMEOUT,
{
    windows::Win32::Foundation::WAIT_TIMEOUT.0
}

/// `windows::Win32::System::Threading::INFINITE`. The contract states that
/// it is the greatest `u32`.
#[verifier::external_body]
pub(crate) fn infinite() -> (millis: u32)
    ensures
        millis == INFINITE,
{
    windows::Win32::System::Threading::INFINITE
}

/// `windows::Win32::System::Threading::WT_EXECUTEINWAITTHREAD`, a
/// `WORKER_THREAD_FLAGS`, as the number in it. The contract states that the
/// number is 4.
#[verifier::external_body]
pub(crate) fn wt_executeinwaitthread() -> (flag: u32)
    ensures
        flag == WT_EXECUTEINWAITTHREAD,
{
    windows::Win32::System::Threading::WT_EXECUTEINWAITTHREAD.0
}

/// `windows::Win32::System::Threading::WT_EXECUTEONLYONCE`, a
/// `WORKER_THREAD_FLAGS`, as the number in it. The contract states that the
/// number is 8.
#[verifier::external_body]
pub(crate) fn wt_executeonlyonce() -> (flag: u32)
    ensures
        flag == WT_EXECUTEONLYONCE,
{
    windows::Win32::System::Threading::WT_EXECUTEONLYONCE.0
}

} // verus!
