//! Runs of a relocation against the model of the descriptor table, and what
//! holds of every run.
//!
//! A run is what a driver does: it carries out what the machine asks for,
//! hands back the reply, and goes on until the machine asks to finish. Here
//! the calls into the C runtime are answered by a system of which only
//! lawfulness is known, and the body is any function on worlds.

use vstd::prelude::*;
use crate::descriptor::CrtCall;
use crate::lock::Thread;
use crate::relocate::{Phase, Relocation, Reply, Request, Verdict};
use crate::table::{lawful, Answered, System, Table};

verus! {

/// What a relocation acts on: the descriptor table, and the standing of the
/// thread that runs it with the process lock.
pub struct World {
    pub table: Table,
    pub thread: Thread,
}

impl World {
    /// The thread is inside the guarded section and holds the lock.
    pub open spec fn guarded(self) -> bool {
        self.thread.entered && self.thread.holds
    }
}

/// How something that ran left the world.
pub struct Outcome {
    /// The world that it left.
    pub world: World,
    /// It kept the rules of the lock all the way.
    pub sound: bool,
    /// It lost what a slot held.
    pub lost: bool,
}

/// A body, for what it does: the outcome of running it on the descriptor in
/// a slot, in a world.
pub type Body = spec_fn(i32, World) -> Outcome;

/// How a relocation ended.
pub struct Ending {
    /// The world that it left.
    pub world: World,
    /// What it returns.
    pub verdict: Verdict,
    /// The descriptor table on which the body ran, if it ran.
    pub served: Option<Table>,
    /// The slots of the descriptors that the body was run on, in order.
    pub invoked: Seq<i32>,
    /// The copy of the descriptor, or the move of the copy into the target
    /// slot, failed.
    pub stopped: bool,
    /// The rules of the lock were kept: the lock was never asked for while
    /// held, never given back while not held, and held, with the thread's
    /// flag set, whenever the descriptor table was touched or the body ran;
    /// and the run came to its end.
    pub sound: bool,
    /// What the target slot held is lost: the slot was filled though no copy
    /// of its file had been made, or a move failed after the runtime had
    /// closed the slot, or the copy could not be put back; or the body lost
    /// something in this way.
    pub lost: bool,
    /// The calls into the C runtime that the relocation itself asked for, in order.
    pub calls: Seq<CrtCall>,
}

impl Ending {
    /// The ending as the outcome of a body that ran the relocation.
    pub open spec fn outcome(self) -> Outcome {
        Outcome { world: self.world, sound: self.sound, lost: self.lost }
    }
}

/// Whenever the body runs under the lock, it keeps the rules of the lock,
/// leaves the thread's standing as it found it, and leaves in every slot the
/// file that it found there unless it lost something. It may change which
/// slots are inherited.
pub open spec fn careful(body: Body) -> bool {
    forall|fd: i32, world: World|
        world.guarded() ==> {
            &&& (#[trigger] body(fd, world)).sound
            &&& body(fd, world).world.thread == world.thread
            &&& !body(fd, world).lost ==> body(fd, world).world.table.slots == world.table.slots
        }
}

/// Whenever the body runs under the lock, it keeps the rules of the lock,
/// leaves the world as it found it, and loses nothing.
pub open spec fn quiet(body: Body) -> bool {
    forall|fd: i32, world: World|
        world.guarded() ==> {
            &&& (#[trigger] body(fd, world)).sound
            &&& body(fd, world).world == world
            &&& !body(fd, world).lost
        }
}

/// A body that does nothing.
pub open spec fn identity() -> Body {
    |fd: i32, world: World| Outcome { world, sound: true, lost: false }
}

/// `table` is `start` but for the slot `dest`: every other slot holds what
/// it held in `start` and is inherited as it was, and the slot `dest` holds
/// what it held in `start` or is closed.
pub open spec fn spared(table: Table, start: Table, dest: i32) -> bool {
    &&& table.slots.remove(dest as int) =~= start.slots.remove(dest as int)
    &&& forall|other: int| other != dest ==> #[trigger] table.inherited(other) == start.inherited(other)
    &&& table.open(dest as int) ==> start.open(dest as int) && table.slots[dest as int]
        == start.slots[dest as int]
}

/// With this answer to the call that `machine` has asked for, on `table`,
/// what the target slot held is lost. That is so when a move goes well that
/// overwrites a file of which there is no backup (the system had refused
/// the copy), when a move fails after the runtime has closed the slot (the
/// relocation then gives up and puts nothing back), and when putting the
/// backup back fails.
pub open spec fn loses(machine: Relocation, table: Table, answered: Answered) -> bool {
    match machine.phase {
        Phase::Moving { backup, copy } => {
            &&& copy != machine.dest
            &&& table.open(machine.dest as int)
            &&& if answered.ret.failed() {
                answered.spoiled
            } else {
                backup is None
            }
        },
        Phase::Restoring { .. } => answered.ret.failed(),
        _ => false,
    }
}

/// With this reply the relocation stops short of the body: the copy of the
/// descriptor, or the move of the copy into the target slot, has failed.
pub open spec fn stops(machine: Relocation, reply: Reply) -> bool {
    &&& machine.phase is Copying || machine.phase is Moving
    &&& reply matches Reply::Returned(ret) && ret.failed()
}

/// What one request brings.
pub struct Exchange {
    /// The reply to it.
    pub reply: Reply,
    /// The world after it.
    pub world: World,
    /// It kept the rules of the lock.
    pub sound: bool,
    /// It lost what a slot held.
    pub lost: bool,
}

/// What `machine` has asked for is carried out in `world` at `time`.
pub open spec fn exchange(machine: Relocation, world: World, system: System, body: Body, time: nat) -> Exchange {
    match machine.asks() {
        Request::Lock => Exchange {
            reply: Reply::Done,
            world: World { thread: Thread { holds: true, ..world.thread }, ..world },
            sound: !world.thread.holds,
            lost: false,
        },
        Request::Unlock => Exchange {
            reply: Reply::Done,
            world: World { thread: Thread { holds: false, ..world.thread }, ..world },
            sound: world.thread.holds,
            lost: false,
        },
        Request::Crt(call) => {
            let answered = system(call, world.table, time);
            Exchange {
                reply: Reply::Returned(answered.ret),
                world: World { table: world.table.after(call, answered), ..world },
                sound: world.guarded(),
                lost: loses(machine, world.table, answered),
            }
        },
        Request::Invoke { fd } => {
            let outcome = body(fd, world);
            Exchange {
                reply: Reply::Body,
                world: outcome.world,
                sound: world.guarded() && outcome.sound,
                lost: outcome.lost,
            }
        },
        Request::Finish(_) => Exchange { reply: Reply::Done, world, sound: true, lost: false },
    }
}

/// The world in which `machine` goes on after what it asked for was carried
/// out in `world` at `time`: the world after the request, with the thread's
/// flag as the machine leaves it.
pub open spec fn onward(machine: Relocation, world: World, system: System, body: Body, time: nat) -> World {
    let brought = exchange(machine, world, system, body, time);
    World {
        thread: Thread {
            entered: machine.flag(brought.reply, brought.world.thread.entered),
            ..brought.world.thread
        },
        ..brought.world
    }
}

/// The run of `machine` from `world`, for at most `fuel` requests. The
/// number of requests still allowed serves as the time of a call.
pub open spec fn run(machine: Relocation, world: World, system: System, body: Body, fuel: nat) -> Ending
    decreases fuel,
{
    match machine.asks() {
        Request::Finish(verdict) => Ending {
            world,
            verdict,
            served: None,
            invoked: Seq::empty(),
            stopped: false,
            sound: true,
            lost: false,
            calls: Seq::empty(),
        },
        request => if fuel == 0 {
            Ending {
                world,
                verdict: Verdict::Body,
                served: None,
                invoked: Seq::empty(),
                stopped: false,
                sound: false,
                lost: true,
                calls: Seq::empty(),
            }
        } else {
            let brought = exchange(machine, world, system, body, fuel);
            let rest = run(
                machine.advance(brought.reply),
                onward(machine, world, system, body, fuel),
                system,
                body,
                (fuel - 1) as nat,
            );
            Ending {
                world: rest.world,
                verdict: rest.verdict,
                served: match request {
                    Request::Invoke { .. } => Some(world.table),
                    _ => rest.served,
                },
                invoked: match request {
                    Request::Invoke { fd } => seq![fd] + rest.invoked,
                    _ => rest.invoked,
                },
                stopped: stops(machine, brought.reply) || rest.stopped,
                sound: brought.sound && rest.sound,
                lost: brought.lost || rest.lost,
                calls: match request {
                    Request::Crt(call) => seq![call] + rest.calls,
                    _ => rest.calls,
                },
            }
        },
    }
}

/// The relocation of the descriptor in slot `fd` to the slot `dest`, run
/// from start to end in `world`.
pub open spec fn relocate(fd: i32, dest: i32, world: World, system: System, body: Body) -> Ending {
    run(
        Relocation::begin(fd, dest, world.thread.entered),
        World { thread: Thread { entered: true, ..world.thread }, ..world },
        system,
        body,
        10,
    )
}

/// A body that relocates the descriptor in slot `fd` to the slot `dest`
/// around `body`.
pub open spec fn nested(fd: i32, dest: i32, system: System, body: Body) -> Body {
    |outer: i32, world: World| relocate(fd, dest, world, system, body).outcome()
}

/// The body has run or will not run.
spec fn past(machine: Relocation) -> bool {
    match machine.phase {
        Phase::Vacating { .. } | Phase::Restoring { .. } | Phase::Dropping { .. } | Phase::Unlocking {
            ..
        } | Phase::Finished { .. } => true,
        _ => false,
    }
}

/// The table from which a relocation started, with the backup in it.
spec fn rescue(start: Table, dest: i32, backup: Option<i32>) -> Map<int, int> {
    match backup {
        Some(backup) => start.slots.insert(backup as int, start.slots[dest as int]),
        None => start.slots,
    }
}

/// The backup, if there is one, is a copy of what the target slot held at
/// the start, in a slot that was free then.
spec fn saved(start: Table, dest: i32, backup: Option<i32>) -> bool {
    match backup {
        Some(backup) => start.open(dest as int) && !start.open(backup as int),
        None => true,
    }
}

/// The backup is a copy of what the target slot held at the start, in a slot
/// that was free then; there is none exactly where the target slot was free.
spec fn backed(start: Table, dest: i32, backup: Option<i32>) -> bool {
    match backup {
        Some(backup) => start.open(dest as int) && !start.open(backup as int),
        None => !start.open(dest as int),
    }
}

/// The thread's standing at every request of a run that started from `start`.
spec fn standing(machine: Relocation, thread: Thread, start: Thread) -> bool {
    &&& start.consistent()
    &&& machine.guard.owner == !start.entered
    &&& match machine.phase {
        Phase::Locking => machine.guard.owner && thread.entered && !thread.holds,
        Phase::Unlocking { .. } => machine.guard.owner && !thread.entered && thread.holds,
        Phase::Finished { .. } => thread == start,
        _ => thread.entered && thread.holds,
    }
}

/// The descriptor table at every request of a run that started from `start`
/// and has lost nothing. `ran` says that the body has run.
spec fn restorable(machine: Relocation, table: Table, start: Table, ran: bool) -> bool {
    let first = start.slots;
    let now = table.slots;
    let dest = machine.dest;
    match machine.phase {
        Phase::Copying { backup } => {
            &&& !ran
            &&& saved(start, dest, backup)
            &&& now =~= rescue(start, dest, backup)
        },
        Phase::Moving { backup, copy } => {
            let kept = rescue(start, dest, backup);
            &&& !ran
            &&& copy != dest
            &&& saved(start, dest, backup)
            &&& kept.contains_key(machine.fd as int)
            &&& !kept.contains_key(copy as int)
            &&& now =~= kept.insert(copy as int, kept[machine.fd as int])
        },
        Phase::Discarding { backup, copy, failure } => {
            let kept = rescue(start, dest, backup);
            let file = kept[machine.fd as int];
            &&& !ran
            &&& copy != dest
            &&& !kept.contains_key(copy as int)
            &&& match failure {
                None => {
                    &&& backed(start, dest, backup)
                    &&& dest >= 0
                    &&& now =~= kept.insert(copy as int, file).insert(dest as int, file)
                },
                Some(_) => saved(start, dest, backup) && now =~= kept.insert(copy as int, file),
            }
        },
        Phase::Running { backup, moved } => {
            &&& !ran
            &&& if moved {
                &&& backed(start, dest, backup)
                &&& dest >= 0
                &&& now.remove(dest as int) =~= rescue(start, dest, backup).remove(dest as int)
            } else {
                now =~= first
            }
        },
        Phase::Vacating { backup } => {
            &&& ran
            &&& backed(start, dest, backup)
            &&& dest >= 0
            &&& now.remove(dest as int) =~= rescue(start, dest, backup).remove(dest as int)
        },
        Phase::Restoring { backup } => {
            &&& ran
            &&& backed(start, dest, Some(backup))
            &&& dest >= 0
            &&& now =~= rescue(start, dest, Some(backup)).remove(dest as int)
        },
        Phase::Dropping { backup, verdict } => {
            &&& (verdict is Body) == ran
            &&& !first.contains_key(backup as int)
            &&& now.remove(backup as int) =~= first
        },
        Phase::Unlocking { verdict } | Phase::Finished { verdict } => {
            &&& (verdict is Body) == ran
            &&& now =~= first
        },
        Phase::Locking | Phase::Rescuing => !ran && now =~= first,
    }
}

/// The descriptor table at every request of a run that started from `start`,
/// whatever was lost.
spec fn contained(machine: Relocation, table: Table, start: Table) -> bool {
    let first = start.slots;
    let now = table.slots;
    let dest = machine.dest;
    let saved = |backup: Option<i32>| saved(start, dest, backup);
    &&& forall|other: int|
        other != dest && start.open(other) ==> table.withheld.contains(other)
            == #[trigger] start.withheld.contains(other)
    &&& match machine.phase {
        Phase::Copying { backup } => saved(backup) && now =~= rescue(start, dest, backup),
        Phase::Moving { backup, copy } => {
            let kept = rescue(start, dest, backup);
            &&& copy != dest
            &&& saved(backup)
            &&& kept.contains_key(machine.fd as int)
            &&& !kept.contains_key(copy as int)
            &&& now =~= kept.insert(copy as int, kept[machine.fd as int])
        },
        Phase::Discarding { backup, copy, failure } => {
            let kept = rescue(start, dest, backup);
            let file = kept[machine.fd as int];
            &&& copy != dest
            &&& saved(backup)
            &&& !kept.contains_key(copy as int)
            &&& match failure {
                None => now =~= kept.insert(copy as int, file).insert(dest as int, file),
                Some(_) => {
                    ||| now =~= kept.insert(copy as int, file)
                    ||| now =~= kept.insert(copy as int, file).remove(dest as int)
                },
            }
        },
        Phase::Running { backup, moved } => if moved {
            &&& saved(backup)
            &&& now.remove(dest as int) =~= rescue(start, dest, backup).remove(dest as int)
        } else {
            now =~= first
        },
        Phase::Vacating { backup } => {
            &&& saved(backup)
            &&& now.remove(dest as int) =~= rescue(start, dest, backup).remove(dest as int)
        },
        Phase::Restoring { backup } => {
            &&& saved(Some(backup))
            &&& now =~= rescue(start, dest, Some(backup)).remove(dest as int)
        },
        Phase::Dropping { backup, .. } => {
            &&& !first.contains_key(backup as int)
            &&& backup != dest
            &&& spared(table.without(backup as int), start, dest)
        },
        Phase::Locking | Phase::Rescuing => now =~= first,
        Phase::Unlocking { .. } | Phase::Finished { .. } => spared(table, start, dest),
    }
}

/// The descriptor table at every request after what the target slot held was
/// lost: the slot held a file at the start, and is closed or yet to be closed.
spec fn doomed(machine: Relocation, table: Table, start: Table) -> bool {
    &&& start.open(machine.dest as int)
    &&& match machine.phase {
        Phase::Discarding { backup, failure, .. } => match failure {
            None => backup is None,
            Some(_) => !table.open(machine.dest as int),
        },
        Phase::Running { backup, moved } => backup is None && moved,
        Phase::Vacating { backup } => backup is None,
        Phase::Dropping { .. } | Phase::Unlocking { .. } | Phase::Finished { .. } => !table.open(
            machine.dest as int,
        ),
        _ => false,
    }
}

/// The descriptor table at every request up to the body's run. `known` says
/// that the system is lawful and that the descriptor was open at the start.
spec fn serving(machine: Relocation, table: Table, start: Table, known: bool) -> bool {
    let first = start.slots;
    let now = table.slots;
    let dest = machine.dest;
    let file = first[machine.fd as int];
    let fresh = |backup: Option<i32>|
        match backup {
            Some(backup) => !start.open(backup as int),
            None => true,
        };
    match machine.phase {
        Phase::Locking | Phase::Rescuing => table == start,
        Phase::Copying { backup } => known ==> fresh(backup) && now =~= rescue(start, dest, backup),
        Phase::Moving { backup, copy } => {
            let kept = rescue(start, dest, backup);
            &&& copy != dest
            &&& known ==> {
                &&& fresh(backup)
                &&& !kept.contains_key(copy as int)
                &&& now =~= kept.insert(copy as int, file)
            }
        },
        Phase::Discarding { backup, copy, failure } => {
            let kept = rescue(start, dest, backup);
            &&& copy != dest
            &&& failure is None ==> {
                &&& table.inherited(dest as int)
                &&& known ==> now[dest as int] == file
            }
        },
        Phase::Running { moved, .. } => {
            &&& !moved ==> machine.fd == dest && table == start
            &&& moved ==> table.inherited(dest as int)
            &&& known ==> now[dest as int] == file
        },
        _ => true,
    }
}

/// A verdict for the body's result is not reached but through the body.
/// `ran` says that the body has run.
spec fn earned(machine: Relocation, ran: bool) -> bool {
    match machine.phase {
        Phase::Dropping { verdict, .. } | Phase::Unlocking { verdict } | Phase::Finished { verdict } => {
            verdict is Body ==> ran
        },
        Phase::Vacating { .. } | Phase::Restoring { .. } => ran,
        _ => true,
    }
}

proof fn lemma_request_keeps_standing(
    machine: Relocation,
    world: World,
    start: World,
    system: System,
    body: Body,
    time: nat,
)
    requires
        standing(machine, world.thread, start.thread),
        careful(body),
        !(machine.phase is Finished),
    ensures
        machine.awaits(exchange(machine, world, system, body, time).reply),
        exchange(machine, world, system, body, time).sound,
        standing(
            machine.advance(exchange(machine, world, system, body, time).reply),
            onward(machine, world, system, body, time).thread,
            start.thread,
        ),
{
}

proof fn lemma_request_keeps_restorable(
    machine: Relocation,
    world: World,
    start: World,
    system: System,
    body: Body,
    time: nat,
    ran: bool,
)
    requires
        standing(machine, world.thread, start.thread),
        restorable(machine, world.table, start.table, ran),
        lawful(system),
        careful(body),
        !(machine.phase is Finished),
        !exchange(machine, world, system, body, time).lost,
    ensures
        restorable(
            machine.advance(exchange(machine, world, system, body, time).reply),
            onward(machine, world, system, body, time).table,
            start.table,
            ran || machine.phase is Running,
        ),
{
}

proof fn lemma_run_restores(
    machine: Relocation,
    world: World,
    start: World,
    system: System,
    body: Body,
    fuel: nat,
    lost: bool,
    ran: bool,
)
    requires
        standing(machine, world.thread, start.thread),
        !lost ==> restorable(machine, world.table, start.table, ran),
        lawful(system),
        careful(body),
        fuel >= machine.steps_left(),
    ensures
        ({
            let ending = run(machine, world, system, body, fuel);
            &&& ending.sound
            &&& ending.world.thread == start.thread
            &&& past(machine) ==> ending.served is None
            &&& !lost && !ending.lost ==> {
                &&& ending.world.table.slots == start.table.slots
                &&& (ending.verdict is Body) == (ran || ending.served is Some)
            }
        }),
    decreases fuel,
{
    if !(machine.phase is Finished) {
        let brought = exchange(machine, world, system, body, fuel);
        lemma_request_keeps_standing(machine, world, start, system, body, fuel);
        if !lost && !brought.lost {
            lemma_request_keeps_restorable(machine, world, start, system, body, fuel, ran);
        }
        lemma_run_restores(
            machine.advance(brought.reply),
            onward(machine, world, system, body, fuel),
            start,
            system,
            body,
            (fuel - 1) as nat,
            lost || brought.lost,
            ran || machine.phase is Running,
        );
    }
}

proof fn lemma_request_keeps_contained(
    machine: Relocation,
    world: World,
    start: World,
    system: System,
    body: Body,
    time: nat,
)
    requires
        standing(machine, world.thread, start.thread),
        contained(machine, world.table, start.table),
        lawful(system),
        quiet(body),
        !(machine.phase is Finished),
    ensures
        contained(
            machine.advance(exchange(machine, world, system, body, time).reply),
            onward(machine, world, system, body, time).table,
            start.table,
        ),
{
}

proof fn lemma_request_keeps_doomed(
    machine: Relocation,
    world: World,
    start: World,
    system: System,
    body: Body,
    time: nat,
    lost: bool,
)
    requires
        standing(machine, world.thread, start.thread),
        contained(machine, world.table, start.table),
        lost ==> doomed(machine, world.table, start.table),
        lawful(system),
        quiet(body),
        !(machine.phase is Finished),
    ensures
        lost || exchange(machine, world, system, body, time).lost ==> doomed(
            machine.advance(exchange(machine, world, system, body, time).reply),
            onward(machine, world, system, body, time).table,
            start.table,
        ),
{
}

proof fn lemma_run_spares(
    machine: Relocation,
    world: World,
    start: World,
    system: System,
    body: Body,
    fuel: nat,
    lost: bool,
)
    requires
        standing(machine, world.thread, start.thread),
        contained(machine, world.table, start.table),
        lost ==> doomed(machine, world.table, start.table),
        lawful(system),
        quiet(body),
        fuel >= machine.steps_left(),
    ensures
        ({
            let ending = run(machine, world, system, body, fuel);
            &&& spared(ending.world.table, start.table, machine.dest)
            &&& lost || ending.lost ==> start.table.open(machine.dest as int)
                && !ending.world.table.open(machine.dest as int)
        }),
    decreases fuel,
{
    if !(machine.phase is Finished) {
        let brought = exchange(machine, world, system, body, fuel);
        lemma_quiet_is_careful(body);
        lemma_request_keeps_standing(machine, world, start, system, body, fuel);
        lemma_request_keeps_contained(machine, world, start, system, body, fuel);
        lemma_request_keeps_doomed(machine, world, start, system, body, fuel, lost);
        lemma_run_spares(
            machine.advance(brought.reply),
            onward(machine, world, system, body, fuel),
            start,
            system,
            body,
            (fuel - 1) as nat,
            lost || brought.lost,
        );
    }
}

proof fn lemma_request_keeps_serving(
    machine: Relocation,
    world: World,
    start: World,
    system: System,
    body: Body,
    time: nat,
    known: bool,
)
    requires
        serving(machine, world.table, start.table, known),
        known ==> lawful(system) && start.table.open(machine.fd as int),
        !(machine.phase is Finished),
    ensures
        serving(
            machine.advance(exchange(machine, world, system, body, time).reply),
            onward(machine, world, system, body, time).table,
            start.table,
            known,
        ),
{
}

proof fn lemma_run_serves(
    machine: Relocation,
    world: World,
    start: World,
    system: System,
    body: Body,
    fuel: nat,
    known: bool,
)
    requires
        serving(machine, world.table, start.table, known),
        known ==> lawful(system) && start.table.open(machine.fd as int),
        fuel >= machine.steps_left(),
    ensures
        past(machine) ==> run(machine, world, system, body, fuel).served is None,
        run(machine, world, system, body, fuel).served matches Some(table) ==> {
            &&& machine.fd != machine.dest ==> table.inherited(machine.dest as int)
            &&& start.table.open(machine.fd as int) ==> table.open(machine.dest as int)
            &&& known ==> table.slots[machine.dest as int] == start.table.slots[machine.fd as int]
        },
    decreases fuel,
{
    if !(machine.phase is Finished) {
        let brought = exchange(machine, world, system, body, fuel);
        lemma_request_keeps_serving(machine, world, start, system, body, fuel, known);
        lemma_run_serves(
            machine.advance(brought.reply),
            onward(machine, world, system, body, fuel),
            start,
            system,
            body,
            (fuel - 1) as nat,
            known,
        );
    }
}

proof fn lemma_run_earns(
    machine: Relocation,
    world: World,
    system: System,
    body: Body,
    fuel: nat,
    ran: bool,
)
    requires
        earned(machine, ran),
        fuel >= machine.steps_left(),
    ensures
        ({
            let ending = run(machine, world, system, body, fuel);
            &&& ending.verdict is Body ==> ran || ending.served is Some
            &&& past(machine) ==> ending.served is None
            &&& ending.invoked =~= if ending.served is Some {
                seq![machine.dest]
            } else {
                Seq::empty()
            }
        }),
    decreases fuel,
{
    if !(machine.phase is Finished) {
        let brought = exchange(machine, world, system, body, fuel);
        lemma_run_earns(
            machine.advance(brought.reply),
            onward(machine, world, system, body, fuel),
            system,
            body,
            (fuel - 1) as nat,
            ran || machine.phase is Running,
        );
    }
}

/// The relocation has stopped short of the body, or may yet reach it.
spec fn halted(machine: Relocation, stopped: bool) -> bool {
    match machine.phase {
        Phase::Discarding { failure, .. } => stopped == (failure is Some),
        Phase::Vacating { .. } | Phase::Restoring { .. } => !stopped,
        Phase::Dropping { .. } | Phase::Unlocking { .. } | Phase::Finished { .. } => true,
        _ => !stopped,
    }
}

proof fn lemma_run_stops(
    machine: Relocation,
    world: World,
    system: System,
    body: Body,
    fuel: nat,
    stopped: bool,
)
    requires
        halted(machine, stopped),
        fuel >= machine.steps_left(),
    ensures
        ({
            let ending = run(machine, world, system, body, fuel);
            &&& past(machine) ==> !ending.stopped && ending.served is None
            &&& !past(machine) ==> (ending.served is None <==> stopped || ending.stopped)
        }),
    decreases fuel,
{
    if !(machine.phase is Finished) {
        let brought = exchange(machine, world, system, body, fuel);
        lemma_run_stops(
            machine.advance(brought.reply),
            onward(machine, world, system, body, fuel),
            system,
            body,
            (fuel - 1) as nat,
            stopped || stops(machine, brought.reply),
        );
    }
}

/// A quiet body is careful.
pub proof fn lemma_quiet_is_careful(body: Body)
    requires
        quiet(body),
    ensures
        careful(body),
{
}

/// The body that does nothing is quiet.
pub proof fn lemma_identity_is_quiet()
    ensures
        quiet(identity()),
{
}

/// Restoration. On a lawful system, a relocation around a careful body comes
/// to its end, keeps the rules of the lock and leaves the thread's standing
/// with the lock as it found it. Unless something was lost, every slot holds
/// afterwards the file that it held before: the target slot holds what it
/// held, be it a file or nothing, no other slot has changed, and no copy is
/// left open; and the relocation then returns the body's result whenever the
/// body ran, an error of its own only when it did not. This holds whether or
/// not the descriptor sat in the target slot to begin with, whether or not
/// it was open at all, and whatever the body returns.
pub proof fn lemma_relocation_restores(fd: i32, dest: i32, world: World, system: System, body: Body)
    requires
        world.thread.consistent(),
        lawful(system),
        careful(body),
    ensures
        ({
            let ending = relocate(fd, dest, world, system, body);
            &&& ending.sound
            &&& ending.world.thread == world.thread
            &&& !ending.lost ==> {
                &&& ending.world.table.slots == world.table.slots
                &&& (ending.verdict is Body) == (ending.served is Some)
            }
        }),
{
    let machine = Relocation::begin(fd, dest, world.thread.entered);
    let inside = World { thread: Thread { entered: true, ..world.thread }, ..world };
    lemma_run_restores(machine, inside, world, system, body, 10, false, false);
}

/// Containment. On a lawful system, whatever the system refuses, a
/// relocation around a quiet body changes no slot but the target, and leaves
/// no copy open: every descriptor that it made, it closed. The target slot
/// holds what it held before, or nothing; and it holds nothing where it held
/// a file in exactly the runs in which that file was lost.
pub proof fn lemma_relocation_spares_other_slots(fd: i32, dest: i32, world: World, system: System, body: Body)
    requires
        world.thread.consistent(),
        lawful(system),
        quiet(body),
    ensures
        ({
            let ending = relocate(fd, dest, world, system, body);
            &&& spared(ending.world.table, world.table, dest)
            &&& ending.lost <==> world.table.open(dest as int) && !ending.world.table.open(dest as int)
        }),
{
    let machine = Relocation::begin(fd, dest, world.thread.entered);
    let inside = World { thread: Thread { entered: true, ..world.thread }, ..world };
    lemma_quiet_is_careful(body);
    lemma_run_spares(machine, inside, world, system, body, 10, false);
    lemma_relocation_restores(fd, dest, world, system, body);
}

/// Around nothing. On a lawful system, a relocation around a body that does
/// nothing comes to its end under the rules of the lock and leaves the thread
/// as it stood. No slot but the target differs afterwards from what it was,
/// in what is open in it or in whether it is inherited, and no copy is left
/// open. And every slot, the target with the others, holds the file that it
/// held before the call in all runs but those in which the target slot's
/// file was lost: in those, and in no others, the target slot ends closed.
/// This holds whether or not the descriptor sat in the target slot to begin
/// with.
pub proof fn lemma_relocation_around_nothing(fd: i32, dest: i32, world: World, system: System)
    requires
        world.thread.consistent(),
        lawful(system),
    ensures
        ({
            let ending = relocate(fd, dest, world, system, identity());
            &&& ending.sound
            &&& ending.world.thread == world.thread
            &&& spared(ending.world.table, world.table, dest)
            &&& !ending.lost <==> ending.world.table.slots == world.table.slots
        }),
{
    lemma_identity_is_quiet();
    lemma_quiet_is_careful(identity());
    lemma_relocation_restores(fd, dest, world, system, identity());
    lemma_relocation_spares_other_slots(fd, dest, world, system, identity());
}

/// In place. Where the descriptor sits in the target slot already, the
/// relocation asks for no call into the C runtime at all: nothing is copied,
/// nothing is closed. The body runs under the lock on the descriptor table
/// as it is, the table is left as the body left it, and what the body
/// returned is returned. This holds on every system and for every body.
pub proof fn lemma_in_place_copies_nothing(fd: i32, world: World, system: System, body: Body)
    requires
        world.thread.consistent(),
    ensures
        ({
            let ending = relocate(fd, fd, world, system, body);
            let inside = World { thread: Thread { entered: true, holds: true }, ..world };
            &&& ending.calls =~= Seq::empty()
            &&& ending.verdict == Verdict::Body
            &&& ending.served == Some(world.table)
            &&& ending.world.table == body(fd, inside).world.table
        }),
{
    reveal_with_fuel(run, 5);
}

/// Nesting. A body may itself relocate another descriptor, to the same slot
/// or to another. On a lawful system the two relocations together come to
/// their end and keep the rules of the lock (the inner one finds the thread
/// inside and never asks for the lock, so it cannot wait for the outer one),
/// leave the thread's standing as they found it and, unless something was
/// lost, leave in every slot the file that they found there, both target
/// slots included.
pub proof fn lemma_nested_relocation_restores(
    fd: i32,
    dest: i32,
    inner_fd: i32,
    inner_dest: i32,
    world: World,
    system: System,
    body: Body,
)
    requires
        world.thread.consistent(),
        lawful(system),
        careful(body),
    ensures
        ({
            let ending = relocate(fd, dest, world, system, nested(inner_fd, inner_dest, system, body));
            &&& ending.sound
            &&& ending.world.thread == world.thread
            &&& !ending.lost ==> ending.world.table.slots == world.table.slots
        }),
{
    let inner = nested(inner_fd, inner_dest, system, body);
    assert forall|outer: i32, within: World| within.guarded() implies {
        &&& (#[trigger] inner(outer, within)).sound
        &&& inner(outer, within).world.thread == within.thread
        &&& !inner(outer, within).lost ==> inner(outer, within).world.table.slots
            == within.table.slots
    } by {
        lemma_relocation_restores(inner_fd, inner_dest, within, system, body);
    }
    lemma_relocation_restores(fd, dest, world, system, inner);
}

/// Service. Whenever the body runs, it finds the target slot filled. Where
/// the descriptor was open at the start, the slot is open when the body
/// runs; where it had to be brought there, the slot holds a copy that a
/// child inherits, be the descriptor itself marked or not. Both hold on
/// every system. On a lawful system the file in the slot is the
/// descriptor's.
pub proof fn lemma_body_finds_descriptor(fd: i32, dest: i32, world: World, system: System, body: Body)
    ensures
        relocate(fd, dest, world, system, body).served matches Some(table) ==> {
            &&& fd != dest ==> table.inherited(dest as int)
            &&& world.table.open(fd as int) ==> table.open(dest as int)
            &&& lawful(system) && world.table.open(fd as int) ==> table.slots[dest as int]
                == world.table.slots[fd as int]
        },
{
    let machine = Relocation::begin(fd, dest, world.thread.entered);
    let inside = World { thread: Thread { entered: true, ..world.thread }, ..world };
    let known = lawful(system) && world.table.open(fd as int);
    lemma_run_serves(machine, inside, world, system, body, 10, known);
}

/// Once, and for a result. The body runs exactly once unless the copy of
/// the descriptor or the move of the copy into the target slot fails, and
/// then it does not run at all. It runs on the descriptor in the target
/// slot and on no other. And a relocation returns the body's result only if
/// the body ran: where it did not run, the relocation returns an error of
/// its own. This holds on every system and for every body.
pub proof fn lemma_body_runs_once(fd: i32, dest: i32, world: World, system: System, body: Body)
    ensures
        ({
            let ending = relocate(fd, dest, world, system, body);
            &&& ending.served is Some <==> !ending.stopped
            &&& ending.invoked =~= if ending.stopped {
                Seq::empty()
            } else {
                seq![dest]
            }
            &&& ending.verdict is Body ==> ending.served is Some
        }),
{
    let machine = Relocation::begin(fd, dest, world.thread.entered);
    let inside = World { thread: Thread { entered: true, ..world.thread }, ..world };
    lemma_run_earns(machine, inside, system, body, 10, false);
    lemma_run_stops(machine, inside, system, body, 10, false);
}

} // verus!
