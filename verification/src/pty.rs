//! A pseudo-terminal: how another program is run, watched and answered.
//!
//! The program is put on a terminal of its own with a known grid, in a session
//! of its own, and everything it prints is handed on in chunks until it is
//! done.

use vstd::prelude::*;

use crate::failure::Failure;
use crate::ioctl::Query;
use crate::process_group::{session_sweep, SessionSweep, SIGKILL};
use crate::step::Step;
use crate::text::from_utf8;
use crate::wire::push_u16;

verus! {

pub const O_RDWR: i32 = 2;

/// How much is taken from the program in one read.
///
/// Bounded because the reader hands whole chunks to a channel, and a program
/// that prints without pause must not be able to grow that channel faster than
/// the panel can consume it.
pub const CHUNK: usize = 4096;

/// How many chunks may wait in the channel. A reader that finds it full waits,
/// and with it the program that prints.
pub const QUEUE_LIMIT: usize = 64;

/// The numbers by which a system knows its terminal requests.
#[derive(Clone, Copy, Debug, PartialEq, Eq, Structural)]
pub struct TerminalAbi {
    /// `TIOCSWINSZ`: tell a terminal its grid.
    pub set_window_size: u64,
    /// `TIOCSCTTY`: make a terminal the controlling one.
    pub take_terminal: u64,
    /// `O_NOCTTY`: open a terminal without making it the controlling one.
    pub no_controlling: i32,
}

/// The numbers on Linux.
pub fn linux() -> (abi: TerminalAbi)
    ensures
        abi == (TerminalAbi {
            set_window_size: 0x5414,
            take_terminal: 0x540e,
            no_controlling: 0o400,
        }),
{
    TerminalAbi { set_window_size: 0x5414, take_terminal: 0x540e, no_controlling: 0o400 }
}

/// The numbers on macOS.
pub fn macos() -> (abi: TerminalAbi)
    ensures
        abi == (TerminalAbi {
            set_window_size: 0x8008_7467,
            take_terminal: 0x2000_7461,
            no_controlling: 0x2_0000,
        }),
{
    TerminalAbi {
        set_window_size: 0x8008_7467,
        take_terminal: 0x2000_7461,
        no_controlling: 0x2_0000,
    }
}

/// The terminal window size, exactly as the kernel defines it. Takes 8 bytes.
#[derive(Clone, Copy, Debug, Default, PartialEq, Eq)]
pub struct WinSize {
    pub rows: u16,
    pub columns: u16,
    pub x_pixels: u16,
    pub y_pixels: u16,
}

impl WinSize {
    /// The bytes of the structure.
    pub open spec fn encoded(self) -> Seq<u8> {
        crate::wire::u16_bytes(self.rows) + crate::wire::u16_bytes(self.columns)
            + crate::wire::u16_bytes(self.x_pixels) + crate::wire::u16_bytes(self.y_pixels)
    }

    /// Lays the structure out in bytes.
    pub fn encode(&self) -> (bytes: Vec<u8>)
        ensures
            bytes@ == self.encoded(),
            bytes@.len() == 8,
            bytes@[0] + 0x100 * bytes@[1] == self.rows,
            bytes@[2] + 0x100 * bytes@[3] == self.columns,
            bytes@[4] + 0x100 * bytes@[5] == self.x_pixels,
            bytes@[6] + 0x100 * bytes@[7] == self.y_pixels,
    {
        let mut bytes: Vec<u8> = Vec::new();
        push_u16(&mut bytes, self.rows);
        push_u16(&mut bytes, self.columns);
        push_u16(&mut bytes, self.x_pixels);
        push_u16(&mut bytes, self.y_pixels);
        assert(bytes@ =~= self.encoded());
        bytes
    }
}

/// The grid that a terminal reads from the bytes it is told: rows, then columns.
pub open spec fn told_grid(bytes: Seq<u8>) -> (u16, u16) {
    (crate::wire::u16_at(bytes, 0), crate::wire::u16_at(bytes, 2))
}

/// A terminal that is told a grid has that grid.
pub proof fn law_grid_is_told(size: WinSize)
    ensures
        size.encoded().len() == 8,
        told_grid(size.encoded()) == (size.rows, size.columns),
        size.encoded()[0] + 0x100 * size.encoded()[1] == size.rows,
        size.encoded()[2] + 0x100 * size.encoded()[3] == size.columns,
        size.encoded()[4] + 0x100 * size.encoded()[5] == size.x_pixels,
        size.encoded()[6] + 0x100 * size.encoded()[7] == size.y_pixels,
{
    let bytes = size.encoded();
    assert(bytes.subrange(0, 2) =~= crate::wire::u16_bytes(size.rows));
    assert(bytes.subrange(2, 4) =~= crate::wire::u16_bytes(size.columns));
    crate::wire::law_u16_round_trip(bytes, 0, size.rows);
    crate::wire::law_u16_round_trip(bytes, 2, size.columns);
}

/// The request that tells a terminal its grid.
pub fn set_window_size(abi: &TerminalAbi, columns: u16, rows: u16) -> (query: Query)
    ensures
        query.request == abi.set_window_size,
        query.buffer@ == (WinSize { rows, columns, x_pixels: 0, y_pixels: 0 }).encoded(),
        query.buffer@.len() == 8,
        told_grid(query.buffer@) == (rows, columns),
        query.buffer@[0] + 0x100 * query.buffer@[1] == rows,
        query.buffer@[2] + 0x100 * query.buffer@[3] == columns,
        forall|i: int| 4 <= i < 8 ==> #[trigger] query.buffer@[i] == 0,
{
    let size = WinSize { rows, columns, x_pixels: 0, y_pixels: 0 };
    proof {
        law_grid_is_told(size);
    }
    Query { request: abi.set_window_size, buffer: size.encode() }
}

/// The flags that the master is opened with: for reading and writing, and never
/// as the controlling terminal of the program that opens it.
pub fn master_flags(abi: &TerminalAbi) -> (flags: i32)
    ensures
        flags == O_RDWR | abi.no_controlling,
        flags == 2i32 | abi.no_controlling,
{
    O_RDWR | abi.no_controlling
}

/// The flags that the other end is opened with, beside those for reading and
/// writing: without them the open would hand the opener a controlling terminal
/// it never asked for.
pub fn slave_flags(abi: &TerminalAbi) -> (flags: i32)
    ensures
        flags == abi.no_controlling,
{
    abi.no_controlling
}

/// The path of a terminal's other end, from the name that `ptsname` gives it.
/// No name at all is the kernel's refusal; a name that is not UTF-8 is ours.
pub fn slave_path(name: Option<&[u8]>, errno: i32) -> (path: Result<String, Failure>)
    ensures
        name is None ==> path == Err::<String, Failure>(Failure::Kernel(errno)),
        name is Some && !vstd::utf8::valid_utf8(name->0@) ==> path == Err::<String, Failure>(
            Failure::TerminalNameNotText,
        ),
        name is Some && vstd::utf8::valid_utf8(name->0@) ==> path is Ok && path->Ok_0@
            == vstd::utf8::decode_utf8(name->0@),
{
    match name {
        None => Err(Failure::Kernel(errno)),
        Some(bytes) => match from_utf8(bytes) {
            Some(path) => Ok(path),
            None => Err(Failure::TerminalNameNotText),
        },
    }
}

/// One call on the way to a program that runs on a terminal.
#[derive(Clone, Copy, Debug, PartialEq, Eq, Structural)]
pub enum SpawnCall {
    /// `posix_openpt` with the master's flags.
    OpenMaster,
    /// `grantpt`.
    GrantSlave,
    /// `unlockpt`.
    UnlockSlave,
    /// `ptsname`, read by [`slave_path`].
    NameSlave,
    /// Open the other end, for reading and writing and with [`slave_flags`].
    OpenSlave,
    /// Tell the terminal its grid.
    SetWindowSize,
    /// Three more descriptors of the other end, for the program's standard
    /// streams.
    DuplicateSlave,
    /// Start the program that [`launch`] describes.
    StartProgram,
    /// Close the opener's descriptors of the other end: while one is open, a
    /// read of the master never reports that the program has finished.
    ReleaseSlave,
    /// One more descriptor of the master, for the reader.
    DuplicateMaster,
    /// Start the thread that reads what the program prints.
    StartReader,
}

/// The calls, in order.
pub open spec fn spawn_order() -> Seq<SpawnCall> {
    seq![
        SpawnCall::OpenMaster,
        SpawnCall::GrantSlave,
        SpawnCall::UnlockSlave,
        SpawnCall::NameSlave,
        SpawnCall::OpenSlave,
        SpawnCall::SetWindowSize,
        SpawnCall::DuplicateSlave,
        SpawnCall::StartProgram,
        SpawnCall::ReleaseSlave,
        SpawnCall::DuplicateMaster,
        SpawnCall::StartReader,
    ]
}

/// Where a call stands in the order.
pub open spec fn spawn_position(call: SpawnCall) -> int {
    match call {
        SpawnCall::OpenMaster => 0,
        SpawnCall::GrantSlave => 1,
        SpawnCall::UnlockSlave => 2,
        SpawnCall::NameSlave => 3,
        SpawnCall::OpenSlave => 4,
        SpawnCall::SetWindowSize => 5,
        SpawnCall::DuplicateSlave => 6,
        SpawnCall::StartProgram => 7,
        SpawnCall::ReleaseSlave => 8,
        SpawnCall::DuplicateMaster => 9,
        SpawnCall::StartReader => 10,
    }
}

/// What follows a call that came to this: the next in order, or the refusal.
pub open spec fn after_spawn_call(call: SpawnCall, came_to: Result<(), Failure>) -> Step<SpawnCall> {
    match came_to {
        Err(failure) => Step::Fail(failure),
        Ok(()) => if spawn_position(call) + 1 < spawn_order().len() {
            Step::Perform(spawn_order()[spawn_position(call) + 1])
        } else {
            Step::Finish
        },
    }
}

/// Where a start stands that waits for `call` and is then told, one by one,
/// what its calls came to.
pub open spec fn spawned(call: SpawnCall, told: Seq<Result<(), Failure>>) -> Step<SpawnCall>
    decreases told.len(),
{
    if told.len() == 0 {
        Step::Perform(call)
    } else {
        match after_spawn_call(call, told[0]) {
            Step::Perform(next) => spawned(next, told.skip(1)),
            end => end,
        }
    }
}

/// After that many successes the start waits for the call at that place of the
/// order, and it finishes exactly when the last of them has succeeded. So the
/// program starts on a terminal that knows its grid, and the reader starts
/// when the opener has let go of the other end.
pub proof fn law_spawn_goes_in_order(call: SpawnCall, told: Seq<Result<(), Failure>>)
    requires
        forall|i: int| 0 <= i < told.len() ==> #[trigger] told[i] is Ok,
    ensures
        spawn_position(call) + told.len() < spawn_order().len() ==> spawned(call, told)
            == Step::Perform(spawn_order()[spawn_position(call) + told.len()]),
        spawn_position(call) + told.len() >= spawn_order().len() ==> spawned(call, told) is Finish,
    decreases told.len(),
{
    assert(spawn_order()[spawn_position(call)] == call);
    if told.len() > 0 && spawn_position(call) + 1 < spawn_order().len() {
        let next = spawn_order()[spawn_position(call) + 1];
        assert(spawn_position(next) == spawn_position(call) + 1);
        assert forall|i: int| 0 <= i < told.skip(1).len() implies #[trigger] told.skip(1)[i] is Ok by {
            assert(told.skip(1)[i] == told[i + 1]);
        }
        law_spawn_goes_in_order(next, told.skip(1));
    }
}

/// What a call needs has been done before it: the terminal is named before it
/// is opened, it knows its grid and has its streams before the program starts,
/// and the opener lets go of it after that and before anything is read.
pub proof fn law_calls_come_after_what_they_need(call: SpawnCall, came_to: Result<(), Failure>)
    ensures
        ({
            let next = after_spawn_call(call, came_to);
            &&& came_to is Err ==> next == Step::<SpawnCall>::Fail(came_to->Err_0)
            &&& next == Step::Perform(SpawnCall::GrantSlave) ==> call is OpenMaster
            &&& next == Step::Perform(SpawnCall::UnlockSlave) ==> call is GrantSlave
            &&& next == Step::Perform(SpawnCall::NameSlave) ==> call is UnlockSlave
            &&& next == Step::Perform(SpawnCall::OpenSlave) ==> call is NameSlave
            &&& next == Step::Perform(SpawnCall::SetWindowSize) ==> call is OpenSlave
            &&& next == Step::Perform(SpawnCall::DuplicateSlave) ==> call is SetWindowSize
            &&& next == Step::Perform(SpawnCall::StartProgram) ==> call is DuplicateSlave
            &&& next == Step::Perform(SpawnCall::ReleaseSlave) ==> call is StartProgram
            &&& next == Step::Perform(SpawnCall::DuplicateMaster) ==> call is ReleaseSlave
            &&& next == Step::Perform(SpawnCall::StartReader) ==> call is DuplicateMaster
            &&& next is Finish <==> call is StartReader && came_to is Ok
            &&& next != Step::Perform(SpawnCall::OpenMaster)
        }),
{
}

/// The first call that fails ends the start, with its failure.
pub proof fn law_first_failure_ends_the_spawn(
    call: SpawnCall,
    told: Seq<Result<(), Failure>>,
    at: int,
)
    requires
        0 <= at < told.len(),
        spawn_position(call) + at < spawn_order().len(),
        told[at] is Err,
        forall|i: int| 0 <= i < at ==> #[trigger] told[i] is Ok,
    ensures
        spawned(call, told) == Step::<SpawnCall>::Fail(told[at]->Err_0),
    decreases told.len(),
{
    if at > 0 {
        assert(told[0] is Ok);
        let next = spawn_order()[spawn_position(call) + 1];
        assert(spawn_position(next) == spawn_position(call) + 1);
        assert forall|i: int| 0 <= i < at - 1 implies #[trigger] told.skip(1)[i] is Ok by {
            assert(told.skip(1)[i] == told[i + 1]);
        }
        law_first_failure_ends_the_spawn(next, told.skip(1), at - 1);
    }
}

/// Where a standard stream of a program leads.
#[derive(Clone, Copy, Debug, PartialEq, Eq, Structural)]
pub enum Stream {
    /// To wherever the starter's leads.
    Inherited,
    /// To the terminal, through its other end.
    Terminal,
}

/// What a program is started with.
#[derive(Clone, Copy, Debug, PartialEq, Eq)]
pub struct Launch<'a> {
    pub program: &'a str,
    pub arguments: &'a [&'a str],
    /// Whether the starter's own environment is passed on.
    pub inherits_environment: bool,
    /// The variables that are then set, each name with its value, in order.
    pub environment: &'a [(&'a str, &'a str)],
    pub stdin: Stream,
    pub stdout: Stream,
    pub stderr: Stream,
}

/// Describes the start of a program on a terminal.
///
/// The environment is replaced rather than inherited: the starter's belongs to
/// the stock reader and carries its session bus address among other things.
pub fn launch<'a>(
    program: &'a str,
    arguments: &'a [&'a str],
    environment: &'a [(&'a str, &'a str)],
) -> (launch: Launch<'a>)
    ensures
        launch == (Launch {
            program,
            arguments,
            inherits_environment: false,
            environment,
            stdin: Stream::Terminal,
            stdout: Stream::Terminal,
            stderr: Stream::Terminal,
        }),
{
    Launch {
        program,
        arguments,
        inherits_environment: false,
        environment,
        stdin: Stream::Terminal,
        stdout: Stream::Terminal,
        stderr: Stream::Terminal,
    }
}

/// An environment in which variables are set one after the other.
pub open spec fn with_variables(
    base: Map<Seq<char>, Seq<char>>,
    variables: Seq<(&str, &str)>,
) -> Map<Seq<char>, Seq<char>>
    decreases variables.len(),
{
    if variables.len() == 0 {
        base
    } else {
        let (name, value) = variables.last();
        with_variables(base, variables.drop_last()).insert(name@, value@)
    }
}

/// The environment that a program finds which is started like this by a
/// starter with an environment of its own.
pub open spec fn program_environment(
    launch: Launch,
    own: Map<Seq<char>, Seq<char>>,
) -> Map<Seq<char>, Seq<char>> {
    with_variables(
        if launch.inherits_environment {
            own
        } else {
            Map::empty()
        },
        launch.environment@,
    )
}

/// Whether the variable at a place is the last of its name.
pub open spec fn last_of_its_name(variables: Seq<(&str, &str)>, at: int) -> bool {
    &&& 0 <= at < variables.len()
    &&& forall|later: int|
        at < later < variables.len() ==> (#[trigger] variables[later]).0@ != variables[at].0@
}

/// A program that inherits nothing finds the variables it was given and no
/// others, whatever the starter's own are; of two with one name the later
/// counts.
pub proof fn law_environment_is_replaced(
    launch: Launch,
    own: Map<Seq<char>, Seq<char>>,
    name: Seq<char>,
)
    requires
        !launch.inherits_environment,
    ensures
        program_environment(launch, own).dom().contains(name) <==> exists|i: int|
            0 <= i < launch.environment@.len() && (#[trigger] launch.environment@[i]).0@ == name,
        forall|i: int|
            #[trigger] last_of_its_name(launch.environment@, i) && launch.environment@[i].0@ == name
                ==> program_environment(launch, own)[name] == launch.environment@[i].1@,
{
    lemma_variables_are_set(launch.environment@, name);
}

proof fn lemma_variables_are_set(variables: Seq<(&str, &str)>, name: Seq<char>)
    ensures
        with_variables(Map::empty(), variables).dom().contains(name) <==> exists|i: int|
            0 <= i < variables.len() && (#[trigger] variables[i]).0@ == name,
        forall|i: int|
            #[trigger] last_of_its_name(variables, i) && variables[i].0@ == name
                ==> with_variables(Map::empty(), variables)[name] == variables[i].1@,
    decreases variables.len(),
{
    if variables.len() > 0 {
        let shorter = variables.drop_last();
        let last = variables.len() - 1;
        lemma_variables_are_set(shorter, name);
        assert(variables[last] == variables.last());
        if exists|i: int| 0 <= i < shorter.len() && (#[trigger] shorter[i]).0@ == name {
            let i = choose|i: int| 0 <= i < shorter.len() && (#[trigger] shorter[i]).0@ == name;
            assert(variables[i] == shorter[i]);
        }
        if exists|i: int| 0 <= i < variables.len() && (#[trigger] variables[i]).0@ == name {
            let i = choose|i: int| 0 <= i < variables.len() && (#[trigger] variables[i]).0@ == name;
            if i < last {
                assert(shorter[i] == variables[i]);
            }
        }
        assert forall|i: int|
            #[trigger] last_of_its_name(variables, i) && variables[i].0@ == name implies with_variables(
            Map::empty(),
            variables,
        )[name] == variables[i].1@ by {
            if i < last {
                assert(variables[last].0@ != name);
                assert forall|later: int| i < later < shorter.len() implies (
                #[trigger] shorter[later]).0@ != shorter[i].0@ by {
                    assert(variables[later] == shorter[later]);
                }
                assert(last_of_its_name(shorter, i));
            }
        }
    }
}

/// What the child does between fork and exec.
#[derive(Clone, Copy, Debug, PartialEq, Eq, Structural)]
pub enum ChildCall {
    /// `setsid`: a signal sent to the terminal must not reach the opener.
    LeadSession,
    /// `TIOCSCTTY` on its standard input: without it there is no job control
    /// and no Ctrl-C.
    TakeTerminal,
}

/// What follows a call of the child.
pub open spec fn after_child_call(call: ChildCall, came_to: Result<(), Failure>) -> Step<ChildCall> {
    match (call, came_to) {
        (_, Err(failure)) => Step::Fail(failure),
        (ChildCall::LeadSession, Ok(())) => Step::Perform(ChildCall::TakeTerminal),
        (ChildCall::TakeTerminal, Ok(())) => Step::Finish,
    }
}

/// Takes one step of the child: given its last call and what it came to, or
/// nothing at the start, what to do next.
pub fn prepare_child(performed: Option<(ChildCall, Result<(), Failure>)>) -> (next: Step<ChildCall>)
    ensures
        performed is None ==> next == Step::Perform(ChildCall::LeadSession),
        performed matches Some((call, came_to)) ==> next == after_child_call(call, came_to),
        performed matches Some((_, Err(failure))) ==> next == Step::<ChildCall>::Fail(failure),
        performed == Some((ChildCall::LeadSession, Ok::<(), Failure>(()))) ==> next == Step::Perform(
            ChildCall::TakeTerminal,
        ),
        performed == Some((ChildCall::TakeTerminal, Ok::<(), Failure>(()))) ==> next is Finish,
{
    match performed {
        None => Step::Perform(ChildCall::LeadSession),
        Some((_, Err(failure))) => Step::Fail(failure),
        Some((ChildCall::LeadSession, Ok(()))) => Step::Perform(ChildCall::TakeTerminal),
        Some((ChildCall::TakeTerminal, Ok(()))) => Step::Finish,
    }
}

/// What the reader has come upon.
#[derive(Clone, Copy, Debug, PartialEq, Eq)]
pub enum ReaderEvent<'a> {
    /// Nothing yet.
    Started,
    /// A read gave these bytes. None at all is the end of the output.
    Read(&'a [u8]),
    /// A read failed. On Linux this, too, is how a closed terminal ends.
    ReadFailed,
    /// A chunk is in the channel.
    Sent,
    /// Nobody is left to hand a chunk to.
    Unsent,
    /// The hook has been called.
    Woken,
}

/// What the reader does about it.
#[derive(Debug, PartialEq, Eq)]
pub enum ReaderAction {
    /// Read again, at most [`CHUNK`] bytes.
    Read,
    /// Put this chunk into the channel, as soon as fewer than [`QUEUE_LIMIT`]
    /// wait there.
    Send(Vec<u8>),
    /// Call the hook that announces output.
    Wake,
    /// Stop, and let go of the channel: whoever listens learns of the end.
    Stop,
}

/// An event, with the bytes it brings.
pub enum Heard {
    Started,
    Read(Seq<u8>),
    ReadFailed,
    Sent,
    Unsent,
    Woken,
}

/// An action, with the bytes it hands on.
pub enum Move {
    Read,
    Send(Seq<u8>),
    Wake,
    Stop,
}

impl<'a> View for ReaderEvent<'a> {
    type V = Heard;

    open spec fn view(&self) -> Heard {
        match *self {
            ReaderEvent::Started => Heard::Started,
            ReaderEvent::Read(bytes) => Heard::Read(bytes@),
            ReaderEvent::ReadFailed => Heard::ReadFailed,
            ReaderEvent::Sent => Heard::Sent,
            ReaderEvent::Unsent => Heard::Unsent,
            ReaderEvent::Woken => Heard::Woken,
        }
    }
}

impl View for ReaderAction {
    type V = Move;

    open spec fn view(&self) -> Move {
        match *self {
            ReaderAction::Read => Move::Read,
            ReaderAction::Send(chunk) => Move::Send(chunk@),
            ReaderAction::Wake => Move::Wake,
            ReaderAction::Stop => Move::Stop,
        }
    }
}

/// What an event calls for: the bytes that were read are handed on as they are,
/// announced if somebody asked for that, and followed by the next read.
pub open spec fn reader_move(has_hook: bool, event: Heard) -> Move {
    match event {
        Heard::Started => Move::Read,
        Heard::Read(bytes) => if bytes.len() == 0 {
            Move::Stop
        } else {
            Move::Send(bytes)
        },
        Heard::ReadFailed => Move::Stop,
        Heard::Unsent => Move::Stop,
        Heard::Sent => if has_hook {
            Move::Wake
        } else {
            Move::Read
        },
        Heard::Woken => Move::Read,
    }
}

/// Takes one step of the reader.
pub fn read_output(has_hook: bool, event: ReaderEvent) -> (action: ReaderAction)
    requires
        event matches ReaderEvent::Read(bytes) ==> bytes@.len() <= CHUNK,
    ensures
        action@ == reader_move(has_hook, event@),
        action matches ReaderAction::Send(chunk) ==> 1 <= chunk@.len() <= CHUNK,
        event matches ReaderEvent::Read(bytes) && bytes@.len() > 0 ==> action is Send
            && action->Send_0@ == event->Read_0@,
        event matches ReaderEvent::Read(bytes) && bytes@.len() == 0 ==> action is Stop,
        event is ReadFailed || event is Unsent ==> action is Stop,
        event is Started || event is Woken ==> action is Read,
        event is Sent && has_hook ==> action is Wake,
        event is Sent && !has_hook ==> action is Read,
{
    match event {
        ReaderEvent::Started => ReaderAction::Read,
        ReaderEvent::Read(bytes) => {
            if bytes.len() == 0 {
                ReaderAction::Stop
            } else {
                ReaderAction::Send(vstd::slice::slice_to_vec(bytes))
            }
        },
        ReaderEvent::ReadFailed => ReaderAction::Stop,
        ReaderEvent::Unsent => ReaderAction::Stop,
        ReaderEvent::Sent => {
            if has_hook {
                ReaderAction::Wake
            } else {
                ReaderAction::Read
            }
        },
        ReaderEvent::Woken => ReaderAction::Read,
    }
}

/// The reader, the channel and whoever listens, at one moment.
pub struct Pipe {
    /// What the reader does next.
    pub next: Move,
    /// What each read gave so far.
    pub read: Seq<Seq<u8>>,
    /// The chunks in the channel.
    pub waiting: Seq<Seq<u8>>,
    /// The chunks that were taken from the channel.
    pub received: Seq<Seq<u8>>,
    /// For each call of the hook, how many chunks had entered the channel.
    pub woken: Seq<nat>,
    /// Whether the output has come to its end.
    pub ended: bool,
}

/// What may happen next: the reader and whoever listens take turns in any
/// order. A turn that is not due changes nothing.
pub enum Turn {
    /// The read that the reader waits for gives these bytes.
    Read(Seq<u8>),
    /// The read that the reader waits for fails.
    ReadFailed,
    /// The reader sends its chunk, if there is room, or calls its hook.
    Proceed,
    /// Whoever listens takes a chunk.
    Receive,
}

/// A pipe before anything has been printed.
pub open spec fn pipe_at_start(has_hook: bool) -> Pipe {
    Pipe {
        next: reader_move(has_hook, Heard::Started),
        read: seq![],
        waiting: seq![],
        received: seq![],
        woken: seq![],
        ended: false,
    }
}

/// A pipe after one turn.
pub open spec fn after_turn(has_hook: bool, pipe: Pipe, turn: Turn) -> Pipe {
    match (pipe.next, turn) {
        (Move::Read, Turn::Read(bytes)) => Pipe {
            next: reader_move(has_hook, Heard::Read(bytes)),
            read: if bytes.len() == 0 {
                pipe.read
            } else {
                pipe.read.push(bytes)
            },
            ended: bytes.len() == 0,
            ..pipe
        },
        (Move::Read, Turn::ReadFailed) => Pipe {
            next: reader_move(has_hook, Heard::ReadFailed),
            ended: true,
            ..pipe
        },
        (Move::Send(chunk), Turn::Proceed) => if pipe.waiting.len() < QUEUE_LIMIT {
            Pipe {
                next: reader_move(has_hook, Heard::Sent),
                waiting: pipe.waiting.push(chunk),
                ..pipe
            }
        } else {
            pipe
        },
        (Move::Wake, Turn::Proceed) => Pipe {
            next: reader_move(has_hook, Heard::Woken),
            woken: pipe.woken.push(pipe.received.len() + pipe.waiting.len()),
            ..pipe
        },
        (_, Turn::Receive) => if pipe.waiting.len() > 0 {
            Pipe {
                waiting: pipe.waiting.skip(1),
                received: pipe.received.push(pipe.waiting[0]),
                ..pipe
            }
        } else {
            pipe
        },
        _ => pipe,
    }
}

/// A pipe after some turns.
pub open spec fn after_turns(has_hook: bool, turns: Seq<Turn>) -> Pipe
    decreases turns.len(),
{
    if turns.len() == 0 {
        pipe_at_start(has_hook)
    } else {
        after_turn(has_hook, after_turns(has_hook, turns.drop_last()), turns.last())
    }
}

/// No read gives more than the buffer holds.
pub open spec fn reads_fit(turns: Seq<Turn>) -> bool {
    forall|i: int|
        0 <= i < turns.len() ==> (#[trigger] turns[i] matches Turn::Read(bytes) ==> bytes.len()
            <= CHUNK)
}

/// The chunk that has been read and not yet sent.
pub open spec fn in_hand(next: Move) -> Seq<Seq<u8>> {
    match next {
        Move::Send(chunk) => seq![chunk],
        _ => seq![],
    }
}

/// How many chunks have been announced: each that has entered the channel, but
/// for one whose announcement is next.
pub open spec fn announced(pipe: Pipe) -> int {
    pipe.received.len() + pipe.waiting.len() - (if pipe.next is Wake {
        1int
    } else {
        0int
    })
}

/// What holds of a pipe at every moment.
pub open spec fn orderly(has_hook: bool, pipe: Pipe) -> bool {
    &&& pipe.received + pipe.waiting + in_hand(pipe.next) == pipe.read
    &&& forall|i: int| 0 <= i < pipe.read.len() ==> 1 <= (#[trigger] pipe.read[i]).len() <= CHUNK
    &&& pipe.waiting.len() <= QUEUE_LIMIT
    &&& pipe.ended <==> pipe.next is Stop
    &&& pipe.next is Wake ==> has_hook && pipe.received.len() + pipe.waiting.len() > 0
    &&& pipe.woken == if has_hook {
        Seq::new(announced(pipe) as nat, |i: int| (i + 1) as nat)
    } else {
        seq![]
    }
}

proof fn lemma_pipe_is_orderly(has_hook: bool, turns: Seq<Turn>)
    requires
        reads_fit(turns),
    ensures
        orderly(has_hook, after_turns(has_hook, turns)),
    decreases turns.len(),
{
    if turns.len() > 0 {
        let before = after_turns(has_hook, turns.drop_last());
        let after = after_turns(has_hook, turns);
        assert forall|i: int| 0 <= i < turns.drop_last().len() implies (
        #[trigger] turns.drop_last()[i] matches Turn::Read(bytes) ==> bytes.len() <= CHUNK) by {
            assert(turns.drop_last()[i] == turns[i]);
        }
        lemma_pipe_is_orderly(has_hook, turns.drop_last());
        assert(turns[turns.len() - 1] == turns.last());
        assert(after.received + after.waiting + in_hand(after.next) =~= after.read);
        if has_hook {
            assert(after.woken =~= Seq::new(announced(after) as nat, |i: int| (i + 1) as nat));
        }
    } else {
        let start = pipe_at_start(has_hook);
        assert(start.received + start.waiting + in_hand(start.next) =~= start.read);
        if has_hook {
            assert(start.woken =~= Seq::new(announced(start) as nat, |i: int| (i + 1) as nat));
        }
    }
}

/// Every byte that is read arrives on the channel, in order: nothing is lost,
/// repeated or reordered, whoever is faster. Only a chunk that is still in the
/// reader's hand is missing, and at the end of the output none is. Each chunk
/// has at least one byte and at most [`CHUNK`].
pub proof fn law_output_is_handed_on(has_hook: bool, turns: Seq<Turn>)
    requires
        reads_fit(turns),
    ensures
        ({
            let pipe = after_turns(has_hook, turns);
            let arrived = pipe.received + pipe.waiting;
            &&& (arrived + in_hand(pipe.next)).flatten() == pipe.read.flatten()
            &&& pipe.ended ==> arrived.flatten() == pipe.read.flatten()
            &&& forall|i: int|
                0 <= i < arrived.len() ==> 1 <= (#[trigger] arrived[i]).len() <= CHUNK
        }),
{
    lemma_pipe_is_orderly(has_hook, turns);
    let pipe = after_turns(has_hook, turns);
    let arrived = pipe.received + pipe.waiting;
    if pipe.ended {
        assert(arrived + in_hand(pipe.next) =~= arrived);
    }
    assert forall|i: int| 0 <= i < arrived.len() implies 1 <= (#[trigger] arrived[i]).len()
        <= CHUNK by {
        assert((arrived + in_hand(pipe.next))[i] == arrived[i]);
        assert(pipe.read[i] == arrived[i]);
    }
}

/// The hook is called once for each chunk, when that chunk is in the channel
/// and the next is not, and never for the end of the output. Without a hook
/// nothing is called.
pub proof fn law_each_chunk_is_announced(has_hook: bool, turns: Seq<Turn>)
    requires
        reads_fit(turns),
    ensures
        ({
            let pipe = after_turns(has_hook, turns);
            &&& !has_hook ==> pipe.woken.len() == 0
            &&& has_hook ==> pipe.woken.len() == announced(pipe) && forall|i: int|
                0 <= i < pipe.woken.len() ==> #[trigger] pipe.woken[i] == i + 1
            &&& has_hook && pipe.ended ==> pipe.woken.len() == pipe.read.len()
        }),
{
    lemma_pipe_is_orderly(has_hook, turns);
    let pipe = after_turns(has_hook, turns);
    assert((pipe.received + pipe.waiting + in_hand(pipe.next)).len() == pipe.read.len());
}

/// What waits in the channel stays bounded, however much the program prints
/// and however slowly it is taken.
pub proof fn law_waiting_output_is_bounded(has_hook: bool, turns: Seq<Turn>)
    requires
        reads_fit(turns),
    ensures
        after_turns(has_hook, turns).waiting.len() <= QUEUE_LIMIT,
        after_turns(has_hook, turns).waiting.flatten().len() <= QUEUE_LIMIT * CHUNK,
{
    lemma_pipe_is_orderly(has_hook, turns);
    law_output_is_handed_on(has_hook, turns);
    let pipe = after_turns(has_hook, turns);
    assert forall|i: int| 0 <= i < pipe.waiting.len() implies (#[trigger] pipe.waiting[i]).len()
        <= CHUNK by {
        assert((pipe.received + pipe.waiting)[pipe.received.len() + i] == pipe.waiting[i]);
    }
    lemma_bytes_of_chunks(pipe.waiting);
}

proof fn lemma_bytes_of_chunks(chunks: Seq<Seq<u8>>)
    requires
        forall|i: int| 0 <= i < chunks.len() ==> (#[trigger] chunks[i]).len() <= CHUNK,
    ensures
        chunks.flatten().len() <= chunks.len() * CHUNK,
    decreases chunks.len(),
{
    if chunks.len() > 0 {
        let rest = chunks.drop_first();
        assert forall|i: int| 0 <= i < rest.len() implies (#[trigger] rest[i]).len() <= CHUNK by {
            assert(rest[i] == chunks[i + 1]);
        }
        lemma_bytes_of_chunks(rest);
        assert(chunks[0].len() <= CHUNK);
    }
}

/// A reader that has stopped stays stopped and sends nothing more; what waits
/// in the channel can still be taken.
pub proof fn law_stopped_reader_sends_nothing(has_hook: bool, pipe: Pipe, turn: Turn)
    requires
        pipe.next is Stop,
    ensures
        after_turn(has_hook, pipe, turn).next is Stop,
        after_turn(has_hook, pipe, turn).received + after_turn(has_hook, pipe, turn).waiting
            == pipe.received + pipe.waiting,
        after_turn(has_hook, pipe, turn).woken == pipe.woken,
{
    let after = after_turn(has_hook, pipe, turn);
    assert(after.received + after.waiting =~= pipe.received + pipe.waiting);
}

/// One call on the way to a stopped and reaped program.
#[derive(Clone, Copy, Debug, PartialEq, Eq, Structural)]
pub enum CloseCall {
    /// Ask, without waiting, whether the program has finished.
    Poll,
    /// Walk over the process table as [`close_sweep`] begins it, also for a
    /// program that had already `exited`: it may have left a job behind.
    KillSession { exited: bool },
    /// Wait for the program.
    Reap { exited: bool },
}

/// Begins the walk of a close: it kills the session that the program leads.
pub fn close_sweep(program: u32) -> (sweep: SessionSweep)
    ensures
        sweep == (SessionSweep { leader: program, signal: SIGKILL, found: false }),
        sweep.signal == 9,
{
    session_sweep(program, SIGKILL)
}

/// What a call of the close has come to.
#[derive(Clone, Copy, Debug, PartialEq, Eq)]
pub enum CloseEvent {
    /// The program was asked after: whether it had already exited.
    Polled(Result<bool, Failure>),
    /// Its session was signalled.
    Swept { exited: bool, came_to: Result<(), Failure> },
    /// It was waited for.
    Reaped { exited: bool, came_to: Result<(), Failure> },
}

/// What follows a call of the close. A failure ends it, unless the program had
/// already exited: then there is nothing left to stop, and what signalling and
/// waiting come to is ignored.
pub open spec fn after_close_event(event: CloseEvent) -> Step<CloseCall> {
    match event {
        CloseEvent::Polled(Ok(exited)) => Step::Perform(CloseCall::KillSession { exited }),
        CloseEvent::Polled(Err(failure)) => Step::Fail(failure),
        CloseEvent::Swept { exited: false, came_to: Err(failure) } => Step::Fail(failure),
        CloseEvent::Swept { exited, came_to: _ } => Step::Perform(CloseCall::Reap { exited }),
        CloseEvent::Reaped { exited: false, came_to: Err(failure) } => Step::Fail(failure),
        CloseEvent::Reaped { exited: _, came_to: _ } => Step::Finish,
    }
}

/// A program that ended by itself gave this code, and one that a signal ended
/// gave none.
pub open spec fn exit_status(code: Option<i32>) -> i32 {
    match code {
        Some(code) => code,
        None => -1i32,
    }
}

/// A program's own code is its status, whatever the code, and a program that a
/// signal ended has the status that no exit gives on Linux.
pub proof fn law_status_is_the_own_code(code: i32)
    ensures
        exit_status(Some(code)) == code,
        exit_status(None) == -1,
{
}

/// What is known of a running program's terminal once it runs.
///
/// The grid is set through the other end rather than the master, which macOS
/// refuses; holding that end open is not possible either, so its path is kept.
#[derive(Debug)]
pub struct Pty {
    slave_path: String,
}

impl View for Pty {
    type V = Seq<char>;

    /// The path of the terminal's other end.
    closed spec fn view(&self) -> Seq<char> {
        self.slave_path@
    }
}

impl Pty {
    /// The terminal whose other end has this path.
    pub fn new(slave_path: String) -> (pty: Pty)
        ensures
            pty@ == slave_path@,
    {
        Pty { slave_path }
    }

    /// The path of the terminal's other end.
    pub fn slave(&self) -> (path: &str)
        ensures
            path@ == self@,
    {
        self.slave_path.as_str()
    }

    /// Takes one step of starting a program on a new terminal: given the last
    /// call and what it came to, or nothing at the start, what to do next.
    pub fn spawn_with_wake(performed: Option<(SpawnCall, Result<(), Failure>)>) -> (next: Step<
        SpawnCall,
    >)
        ensures
            performed is None ==> next == Step::Perform(SpawnCall::OpenMaster),
            performed matches Some((call, came_to)) ==> next == after_spawn_call(call, came_to),
            performed matches Some((_, Err(failure))) ==> next == Step::<SpawnCall>::Fail(failure),
            performed matches Some((call, Ok(()))) ==> {
                &&& call is OpenMaster ==> next == Step::Perform(SpawnCall::GrantSlave)
                &&& call is GrantSlave ==> next == Step::Perform(SpawnCall::UnlockSlave)
                &&& call is UnlockSlave ==> next == Step::Perform(SpawnCall::NameSlave)
                &&& call is NameSlave ==> next == Step::Perform(SpawnCall::OpenSlave)
                &&& call is OpenSlave ==> next == Step::Perform(SpawnCall::SetWindowSize)
                &&& call is SetWindowSize ==> next == Step::Perform(SpawnCall::DuplicateSlave)
                &&& call is DuplicateSlave ==> next == Step::Perform(SpawnCall::StartProgram)
                &&& call is StartProgram ==> next == Step::Perform(SpawnCall::ReleaseSlave)
                &&& call is ReleaseSlave ==> next == Step::Perform(SpawnCall::DuplicateMaster)
                &&& call is DuplicateMaster ==> next == Step::Perform(SpawnCall::StartReader)
                &&& call is StartReader ==> next is Finish
            },
    {
        match performed {
            None => Step::Perform(SpawnCall::OpenMaster),
            Some((_, Err(failure))) => Step::Fail(failure),
            Some((call, Ok(()))) => match call {
                SpawnCall::OpenMaster => Step::Perform(SpawnCall::GrantSlave),
                SpawnCall::GrantSlave => Step::Perform(SpawnCall::UnlockSlave),
                SpawnCall::UnlockSlave => Step::Perform(SpawnCall::NameSlave),
                SpawnCall::NameSlave => Step::Perform(SpawnCall::OpenSlave),
                SpawnCall::OpenSlave => Step::Perform(SpawnCall::SetWindowSize),
                SpawnCall::SetWindowSize => Step::Perform(SpawnCall::DuplicateSlave),
                SpawnCall::DuplicateSlave => Step::Perform(SpawnCall::StartProgram),
                SpawnCall::StartProgram => Step::Perform(SpawnCall::ReleaseSlave),
                SpawnCall::ReleaseSlave => Step::Perform(SpawnCall::DuplicateMaster),
                SpawnCall::DuplicateMaster => Step::Perform(SpawnCall::StartReader),
                SpawnCall::StartReader => Step::Finish,
            },
        }
    }

    /// What to tell the other end when the grid has changed.
    pub fn resize(&self, abi: &TerminalAbi, columns: u16, rows: u16) -> (call: (&str, Query))
        ensures
            call.0@ == self@,
            call.1.request == abi.set_window_size,
            call.1.buffer@ == (WinSize { rows, columns, x_pixels: 0, y_pixels: 0 }).encoded(),
            told_grid(call.1.buffer@) == (rows, columns),
            call.1.buffer@.len() == 8,
            call.1.buffer@[0] + 0x100 * call.1.buffer@[1] == rows,
            call.1.buffer@[2] + 0x100 * call.1.buffer@[3] == columns,
            forall|i: int| 4 <= i < 8 ==> #[trigger] call.1.buffer@[i] == 0,
    {
        (self.slave_path.as_str(), set_window_size(abi, columns, rows))
    }

    /// Whether the program has finished, and with what status. The argument is
    /// what asking without waiting gave: nothing while the program runs, and
    /// then the code it ended with, if it had one.
    pub fn finished(status: Option<Option<i32>>) -> (code: Option<i32>)
        ensures
            code is None <==> status is None,
            status is Some ==> code == Some(exit_status(status->0)),
            status matches Some(Some(own)) ==> code == Some(own),
            status == Some(None::<i32>) ==> code == Some(-1i32),
    {
        match status {
            None => None,
            Some(Some(code)) => Some(code),
            Some(None) => Some(-1),
        }
    }

    /// Takes one step of stopping the program and reaping it: given what the
    /// last call came to, or nothing at the start, what to do next.
    pub fn close(performed: Option<CloseEvent>) -> (next: Step<CloseCall>)
        ensures
            performed is None ==> next == Step::Perform(CloseCall::Poll),
            performed is Some ==> next == after_close_event(performed->0),
            performed matches Some(CloseEvent::Polled(Ok(exited))) ==> next == Step::Perform(
                CloseCall::KillSession { exited },
            ),
            performed matches Some(CloseEvent::Polled(Err(failure))) ==> next == Step::<
                CloseCall,
            >::Fail(failure),
            performed matches Some(CloseEvent::Swept { exited, came_to }) ==> if !exited && came_to
                is Err {
                next == Step::<CloseCall>::Fail(came_to->Err_0)
            } else {
                next == Step::Perform(CloseCall::Reap { exited })
            },
            performed matches Some(CloseEvent::Reaped { exited, came_to }) ==> if !exited && came_to
                is Err {
                next == Step::<CloseCall>::Fail(came_to->Err_0)
            } else {
                next is Finish
            },
    {
        match performed {
            None => Step::Perform(CloseCall::Poll),
            Some(CloseEvent::Polled(polled)) => match polled {
                Ok(exited) => Step::Perform(CloseCall::KillSession { exited }),
                Err(failure) => Step::Fail(failure),
            },
            Some(CloseEvent::Swept { exited, came_to }) => match came_to {
                Err(failure) => {
                    if exited {
                        Step::Perform(CloseCall::Reap { exited })
                    } else {
                        Step::Fail(failure)
                    }
                },
                Ok(()) => Step::Perform(CloseCall::Reap { exited }),
            },
            Some(CloseEvent::Reaped { exited, came_to }) => match came_to {
                Err(failure) => {
                    if exited {
                        Step::Finish
                    } else {
                        Step::Fail(failure)
                    }
                },
                Ok(()) => Step::Finish,
            },
        }
    }
}

/// How a close ends whose calls come to this.
pub open spec fn closed_by(
    polled: Result<bool, Failure>,
    swept: Result<(), Failure>,
    reaped: Result<(), Failure>,
) -> Step<CloseCall> {
    match after_close_event(CloseEvent::Polled(polled)) {
        Step::Perform(CloseCall::KillSession { exited }) => match after_close_event(
            CloseEvent::Swept { exited, came_to: swept },
        ) {
            Step::Perform(CloseCall::Reap { exited }) => after_close_event(
                CloseEvent::Reaped { exited, came_to: reaped },
            ),
            end => end,
        },
        end => end,
    }
}

/// A close of a running program succeeds exactly where asking after it,
/// signalling its session and waiting for it all succeed, and otherwise gives
/// the first error. A close of a program that had already exited succeeds,
/// whatever signalling and waiting come to.
pub proof fn law_close_gives_the_first_error(
    polled: Result<bool, Failure>,
    swept: Result<(), Failure>,
    reaped: Result<(), Failure>,
)
    ensures
        polled is Err ==> closed_by(polled, swept, reaped) == Step::<CloseCall>::Fail(
            polled->Err_0,
        ),
        polled == Ok::<bool, Failure>(false) ==> {
            &&& closed_by(polled, swept, reaped) is Finish <==> swept is Ok && reaped is Ok
            &&& swept is Err ==> closed_by(polled, swept, reaped) == Step::<CloseCall>::Fail(
                swept->Err_0,
            )
            &&& swept is Ok && reaped is Err ==> closed_by(polled, swept, reaped) == Step::<
                CloseCall,
            >::Fail(reaped->Err_0)
        },
        polled == Ok::<bool, Failure>(true) ==> closed_by(polled, swept, reaped) is Finish,
{
}

/// No program is waited for before its session has been signalled: the wait
/// follows the sweep and nothing else.
pub proof fn law_sweep_comes_before_the_wait(event: CloseEvent)
    ensures
        after_close_event(event) matches Step::Perform(CloseCall::Reap { .. }) ==> event is Swept,
        after_close_event(event) is Finish ==> event is Reaped,
{
}

} // verus!
