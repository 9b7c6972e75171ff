//! Launching a child process: the command line that the C runtime is handed,
//! and what its return value means.
//!
//! The child inherits every descriptor that is open and not marked as not to
//! be inherited, under the slot number that it has in the parent. Text comes
//! in and goes out as UTF-16 code units; the driver encodes it.

use vstd::prelude::*;
use crate::child::Child;
use crate::error::OsError;

verus! {

/// `_P_NOWAIT` of the C runtime's `process.h`: the parent goes on while the
/// child runs.
pub const P_NOWAIT: i32 = 1;

/// The call `_wspawnvp(mode, program, argv)`. The driver hands `program` and
/// each entry of `argv` to the runtime as a pointer to its first unit, and
/// ends the array of pointers with a null pointer.
#[derive(Debug, PartialEq, Eq)]
pub struct Launch {
    pub mode: i32,
    pub program: Vec<u16>,
    pub argv: Vec<Vec<u16>>,
}

/// The argument vector of a command: the program's name, then the
/// arguments in their order, each ended by a zero unit.
pub open spec fn command(program: Seq<u16>, args: Seq<Seq<u16>>) -> Seq<Seq<u16>> {
    Seq::new(
        args.len() + 1,
        |i: int|
            if i == 0 {
                program.push(0)
            } else {
                args[i - 1].push(0)
            },
    )
}

/// The text as the C runtime wants it: ended by a zero unit.
pub fn enc_wstr(units: &Vec<u16>) -> (wide: Vec<u16>)
    ensures
        wide@ == units@.push(0),
{
    let mut wide = units.clone();
    wide.push(0);
    wide
}

/// The call that launches `program` with `args`.
pub fn spawn_call(program: &Vec<u16>, args: &Vec<Vec<u16>>) -> (launch: Launch)
    ensures
        launch.mode == P_NOWAIT,
        launch.program@ == program@.push(0),
        launch.argv.deep_view() == command(program@, args.deep_view()),
{
    let mut argv: Vec<Vec<u16>> = Vec::new();
    argv.push(enc_wstr(program));
    let mut i: usize = 0;
    while i < args.len()
        invariant
            i <= args.len(),
            argv.len() == i + 1,
            argv[0]@ == program@.push(0),
            forall|k: int| 0 <= k < i ==> (#[trigger] argv[k + 1])@ == args[k]@.push(0),
        decreases args.len() - i,
    {
        argv.push(enc_wstr(&args[i]));
        i += 1;
    }
    assert(argv.deep_view() =~~= command(program@, args.deep_view())) by {
        assert forall|k: int| 0 <= k < argv.len() implies #[trigger] argv.deep_view()[k] == command(
            program@,
            args.deep_view(),
        )[k] by {
            if k > 0 {
                assert(argv[(k - 1) + 1]@ == args[k - 1]@.push(0));
            }
        }
    }
    Launch { mode: P_NOWAIT, program: enc_wstr(program), argv }
}

/// The child that the call of [`spawn_call`] launched, where `ret` is what
/// the call returned and `error` the calling thread's last operating system
/// error, read right after it. The C runtime returns the handle of the new
/// process, or a negative value where it could not launch one.
pub fn spawn(ret: isize, error: i32) -> (r: Result<Child, OsError>)
    ensures
        ret < 0 ==> r == Err::<Child, OsError>(OsError { code: error }),
        ret >= 0 ==> r == Ok::<Child, OsError>(Child { proc_handle: ret, waiter: None }),
{
    if ret < 0 {
        Err(OsError { code: error })
    } else {
        Ok(Child::new(ret))
    }
}

} // verus!
