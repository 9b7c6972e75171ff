use winspawn::descriptor::{CrtCall, CrtReturn, FileDescriptor};
use winspawn::error::OsError;
use winspawn::mode::{O_NOINHERIT, O_RDONLY, O_RDWR, O_WRONLY};
use winspawn::Mode;

#[test]
fn mode_values_are_the_runtime_flags() {
    assert_eq!(Mode::ReadOnly.val(), 0);
    assert_eq!(Mode::WriteOnly.val(), 1);
    assert_eq!(Mode::ReadWrite.val(), 2);
    assert_eq!((O_RDONLY, O_WRONLY, O_RDWR), (0, 1, 2));
}

#[test]
fn no_mode_marks_a_descriptor_as_not_to_be_inherited() {
    assert_eq!(O_NOINHERIT, 0x80);
    for mode in [Mode::ReadOnly, Mode::WriteOnly, Mode::ReadWrite] {
        assert_eq!(mode.val() & O_NOINHERIT, 0);
    }
}

#[test]
fn open_call_carries_handle_and_flags() {
    assert_eq!(
        FileDescriptor::open_call(0x1f4, Mode::ReadWrite),
        CrtCall::OpenOsfhandle { handle: 0x1f4, flags: 2 }
    );
    assert_eq!(
        FileDescriptor::open_call(-1, Mode::ReadOnly),
        CrtCall::OpenOsfhandle { handle: -1, flags: 0 }
    );
}

#[test]
fn negative_return_is_the_last_error() {
    let ret = CrtReturn { value: -1, error: 9 };
    assert_eq!(ret.check(), Err(OsError { code: 9 }));
    assert_eq!(FileDescriptor::from_raw_handle(ret), Err(OsError { code: 9 }));
}

#[test]
fn zero_and_positive_returns_are_values() {
    assert_eq!(CrtReturn { value: 0, error: 9 }.check(), Ok(0));
    assert_eq!(CrtReturn { value: i32::MAX, error: 0 }.check(), Ok(i32::MAX));
    assert_eq!(CrtReturn { value: i32::MIN, error: 24 }.check(), Err(OsError { code: 24 }));
}

#[test]
fn from_raw_handle_takes_the_returned_slot() {
    let made = FileDescriptor::from_raw_handle(CrtReturn { value: 3, error: 0 });
    assert_eq!(made, Ok(FileDescriptor { fd: 3 }));
}

#[test]
fn raw_slot_round_trip() {
    let descriptor = FileDescriptor::from_fd(7);
    assert_eq!(descriptor, FileDescriptor { fd: 7 });
    assert_eq!(descriptor.into_raw_fd(), 7);
}

#[test]
fn dup_asks_for_a_copy_and_takes_the_new_slot() {
    let descriptor = FileDescriptor::from_fd(5);
    assert_eq!(descriptor.dup_call(), CrtCall::Dup { fd: 5 });
    assert_eq!(descriptor.dup(CrtReturn { value: 8, error: 0 }), Ok(FileDescriptor { fd: 8 }));
    assert_eq!(descriptor.dup(CrtReturn { value: -1, error: 24 }), Err(OsError { code: 24 }));
}

#[test]
fn dup2_asks_for_the_slot_and_takes_it() {
    let descriptor = FileDescriptor::from_fd(5);
    assert_eq!(descriptor.dup2_call(3), CrtCall::Dup2 { fd: 5, dest: 3 });
    // `_dup2` returns zero, not the slot.
    assert_eq!(descriptor.dup2(3, CrtReturn { value: 0, error: 0 }), Ok(FileDescriptor { fd: 3 }));
    assert_eq!(descriptor.dup2(3, CrtReturn { value: -1, error: 9 }), Err(OsError { code: 9 }));
}

#[test]
fn closing_asks_for_exactly_the_descriptors_slot() {
    assert_eq!(FileDescriptor::from_fd(6).close(), CrtCall::Close { fd: 6 });
}

#[test]
fn giving_the_slot_away_asks_for_nothing() {
    // `into_raw_fd` returns a plain number: there is no call in it to make.
    let slot: i32 = FileDescriptor::from_fd(6).into_raw_fd();
    assert_eq!(slot, 6);
}
