use winspawn::child::Child;
use winspawn::error::OsError;
use winspawn::spawn::{enc_wstr, spawn, spawn_call, Launch, P_NOWAIT};

fn units(text: &str) -> Vec<u16> {
    text.encode_utf16().collect()
}

#[test]
fn text_is_ended_by_a_zero_unit() {
    assert_eq!(enc_wstr(&units("py")), vec![0x70, 0x79, 0]);
    assert_eq!(enc_wstr(&Vec::new()), vec![0]);
}

#[test]
fn command_starts_with_the_program_and_keeps_the_order_of_the_arguments() {
    let launch = spawn_call(&units("python"), &vec![units("./tests/test.py"), units("-v")]);
    assert_eq!(
        launch,
        Launch {
            mode: 1,
            program: enc_wstr(&units("python")),
            argv: vec![
                enc_wstr(&units("python")),
                enc_wstr(&units("./tests/test.py")),
                enc_wstr(&units("-v")),
            ],
        }
    );
    assert_eq!(launch.argv[1].last(), Some(&0));
    assert_eq!(launch.argv[1].len(), "./tests/test.py".len() + 1);
}

#[test]
fn command_without_arguments_is_the_program_alone() {
    let launch = spawn_call(&units("cargo"), &Vec::new());
    assert_eq!(launch.mode, P_NOWAIT);
    assert_eq!(launch.argv, vec![vec![0x63, 0x61, 0x72, 0x67, 0x6f, 0]]);
    assert_eq!(launch.program, launch.argv[0]);
}

#[test]
fn returned_handle_becomes_a_child_without_registration() {
    assert_eq!(spawn(0x2a4, 0), Ok(Child { proc_handle: 0x2a4, waiter: None }));
    assert_eq!(spawn(0, 2), Ok(Child { proc_handle: 0, waiter: None }));
}

#[test]
fn negative_return_is_the_last_error_of_the_launch() {
    assert_eq!(spawn(-1, 2), Err(OsError { code: 2 }));
    assert_eq!(spawn(isize::MIN, 8), Err(OsError { code: 8 }));
}
