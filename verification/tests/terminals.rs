//! Programs on terminals.

use kobo_abi::failure::{Failure, FailureKind};
use kobo_abi::pty::{
    close_sweep, launch, linux, macos, master_flags, prepare_child, read_output, set_window_size,
    slave_flags, slave_path, ChildCall, CloseCall, CloseEvent, Pty, ReaderAction, ReaderEvent,
    SpawnCall, Stream, CHUNK, QUEUE_LIMIT,
};
use kobo_abi::process::Kill;
use kobo_abi::process_group::{self, SessionAction, SessionEvent};
use kobo_abi::step::Step;

/// What `stty size` prints on a terminal that was told this grid.
fn stty_size(told: &[u8]) -> String {
    let rows = u16::from_le_bytes([told[0], told[1]]);
    let columns = u16::from_le_bytes([told[2], told[3]]);
    format!("{rows} {columns}")
}

/// What a reader puts into the channel of what a program prints, and how many
/// chunks were there at each call of the hook.
fn handed_on(printed: &[&[u8]], has_hook: bool) -> (Vec<Vec<u8>>, Vec<usize>) {
    let mut sent = Vec::new();
    let mut wakes = Vec::new();
    let mut printed = printed.iter();
    let mut action = read_output(has_hook, ReaderEvent::Started);
    loop {
        let event = match action {
            ReaderAction::Read => match printed.next() {
                Some(next) => ReaderEvent::Read(next),
                None => ReaderEvent::ReadFailed,
            },
            ReaderAction::Send(chunk) => {
                sent.push(chunk);
                ReaderEvent::Sent
            }
            ReaderAction::Wake => {
                wakes.push(sent.len());
                ReaderEvent::Woken
            }
            ReaderAction::Stop => return (sent, wakes),
        };
        action = read_output(has_hook, event);
    }
}

#[test]
fn a_reader_hands_on_every_byte_a_program_prints() {
    let printed: [&[u8]; 3] = [b"$ ", b"echo COBALT_ONE\r\n", b"COBALT_ONE\r\n"];
    let (sent, wakes) = handed_on(&printed, true);
    assert_eq!(sent.concat(), b"$ echo COBALT_ONE\r\nCOBALT_ONE\r\n");
    assert_eq!(sent, printed);
    assert_eq!(wakes, vec![1, 2, 3]);
    let (sent, wakes) = handed_on(&printed, false);
    assert_eq!(sent, printed);
    assert!(wakes.is_empty());
}

#[test]
fn the_program_is_told_the_grid_it_has() {
    // A program that is not told its size assumes eighty columns and draws off
    // the side of a panel that has fifty-three.
    let query = set_window_size(&linux(), 53, 37);
    let seen = stty_size(&query.buffer);
    assert!(seen.contains("37 53"), "saw {seen:?}");
    assert_eq!(query.request, 0x5414);
    assert_eq!(query.buffer, vec![37, 0, 53, 0, 0, 0, 0, 0]);
}

#[test]
fn a_program_that_ends_is_reported_rather_than_read_forever() {
    assert_eq!(Pty::finished(None), None);
    assert_eq!(Pty::finished(Some(Some(3))), Some(3));
    assert_eq!(Pty::finished(Some(Some(0))), Some(0));
    assert_eq!(Pty::finished(Some(None)), Some(-1));
    let (sent, _) = handed_on(&[b"bye", b"", b"never"], false);
    assert_eq!(sent, vec![b"bye".to_vec()]);
}

/// Runs a close whose calls come to these results, and lists the calls.
fn close(
    polled: Result<bool, Failure>,
    swept: Result<(), Failure>,
    reaped: Result<(), Failure>,
) -> (Vec<CloseCall>, Step<CloseCall>) {
    let mut calls = Vec::new();
    let mut step = Pty::close(None);
    loop {
        let call = match step {
            Step::Perform(call) => call,
            ended => return (calls, ended),
        };
        calls.push(call);
        step = Pty::close(Some(match call {
            CloseCall::Poll => CloseEvent::Polled(polled),
            CloseCall::KillSession { exited } => CloseEvent::Swept {
                exited,
                came_to: swept,
            },
            CloseCall::Reap { exited } => CloseEvent::Reaped {
                exited,
                came_to: reaped,
            },
        }));
    }
}

#[test]
fn closing_stops_a_program_that_would_otherwise_run_forever() {
    assert_eq!(Pty::finished(None), None);
    let (calls, end) = close(Ok(false), Ok(()), Ok(()));
    assert_eq!(end, Step::Finish);
    assert_eq!(
        calls,
        vec![
            CloseCall::Poll,
            CloseCall::KillSession { exited: false },
            CloseCall::Reap { exited: false }
        ]
    );
    assert!(Pty::finished(Some(None)).is_some());
}

#[test]
fn the_grid_can_change_while_the_program_is_running() {
    let pty = Pty::new("/dev/pts/4".to_string());
    let (path, query) = pty.resize(&linux(), 40, 10);
    assert_eq!(path, "/dev/pts/4");
    assert_eq!(pty.slave(), "/dev/pts/4");
    let seen = stty_size(&query.buffer);
    assert!(seen.contains("10 40"), "saw {seen:?}");
}

#[test]
fn closing_a_running_program_gives_the_first_error() {
    let refused = Err(Failure::Kernel(1));
    let (calls, end) = close(Ok(false), refused, Ok(()));
    assert_eq!(end, Step::Fail(Failure::Kernel(1)));
    assert_eq!(
        calls,
        vec![CloseCall::Poll, CloseCall::KillSession { exited: false }]
    );
    let lost = Err(Failure::Kernel(10));
    assert_eq!(
        close(Ok(false), Ok(()), lost).1,
        Step::Fail(Failure::Kernel(10))
    );
    let (calls, end) = close(Err(Failure::Kernel(10)), Ok(()), Ok(()));
    assert_eq!(end, Step::Fail(Failure::Kernel(10)));
    assert_eq!(calls, vec![CloseCall::Poll]);
}

#[test]
fn closing_a_program_that_had_exited_sweeps_its_session_and_succeeds() {
    let gone = Err(Failure::Kernel(3));
    for (swept, reaped) in [(Ok(()), Ok(())), (gone, Ok(())), (Ok(()), gone), (gone, gone)] {
        let (calls, end) = close(Ok(true), swept, reaped);
        assert_eq!(end, Step::Finish);
        assert_eq!(
            calls,
            vec![
                CloseCall::Poll,
                CloseCall::KillSession { exited: true },
                CloseCall::Reap { exited: true }
            ]
        );
    }
}

#[test]
fn a_close_kills_the_session_of_its_program() {
    let mut sweep = close_sweep(4321);
    assert_eq!(
        process_group::signal_session(
            &mut sweep,
            SessionEvent::Stat(4400, b"4400 (job) R 4321 4400 4321 0 0")
        ),
        SessionAction::Deliver(Kill {
            pid: 4400,
            signal: 9
        })
    );
    assert_eq!(
        process_group::signal_session(&mut close_sweep(4321), SessionEvent::End),
        SessionAction::FallBack(Kill {
            pid: -4321,
            signal: 9
        })
    );
}

#[test]
fn a_program_is_given_its_variables_and_inherits_none() {
    let environment = [("PS1", "$ "), ("TERM", "vt100"), ("PS1", "# ")];
    let described = launch("/bin/sh", &["-i", "-e"], &environment);
    assert_eq!(described.program, "/bin/sh");
    assert_eq!(described.arguments, ["-i", "-e"]);
    assert!(!described.inherits_environment);
    assert_eq!(described.environment, environment);
    assert_eq!(described.stdin, Stream::Terminal);
    assert_eq!(described.stdout, Stream::Terminal);
    assert_eq!(described.stderr, Stream::Terminal);
}

#[test]
fn a_program_starts_step_by_step() {
    let order = [
        SpawnCall::OpenMaster,
        SpawnCall::GrantSlave,
        SpawnCall::UnlockSlave,
        SpawnCall::NameSlave,
        SpawnCall::OpenSlave,
        SpawnCall::SetWindowSize,
        SpawnCall::DuplicateSlave,
        SpawnCall::StartProgram,
        SpawnCall::ReleaseSlave,
        SpawnCall::DuplicateMaster,
        SpawnCall::StartReader,
    ];
    let mut step = Pty::spawn_with_wake(None);
    for call in order {
        assert_eq!(step, Step::Perform(call));
        assert_eq!(
            Pty::spawn_with_wake(Some((call, Err(Failure::Kernel(5))))),
            Step::Fail(Failure::Kernel(5))
        );
        step = Pty::spawn_with_wake(Some((call, Ok(()))));
    }
    assert_eq!(step, Step::Finish);
}

#[test]
fn a_child_leads_a_session_before_it_takes_the_terminal() {
    assert_eq!(
        prepare_child(None),
        Step::Perform(ChildCall::LeadSession)
    );
    assert_eq!(
        prepare_child(Some((ChildCall::LeadSession, Ok(())))),
        Step::Perform(ChildCall::TakeTerminal)
    );
    assert_eq!(
        prepare_child(Some((ChildCall::TakeTerminal, Ok(())))),
        Step::Finish
    );
    for call in [ChildCall::LeadSession, ChildCall::TakeTerminal] {
        assert_eq!(
            prepare_child(Some((call, Err(Failure::Kernel(1))))),
            Step::Fail(Failure::Kernel(1))
        );
    }
}

#[test]
fn terminal_names_are_paths() {
    assert_eq!(
        slave_path(Some(b"/dev/pts/0"), 0),
        Ok("/dev/pts/0".to_string())
    );
    assert_eq!(slave_path(None, 25), Err(Failure::Kernel(25)));
    let refused = slave_path(Some(b"/dev/\xff"), 0);
    assert_eq!(refused, Err(Failure::TerminalNameNotText));
    assert_eq!(
        Failure::TerminalNameNotText.kind(),
        FailureKind::InvalidData
    );
    assert_eq!(
        Failure::TerminalNameNotText.message(),
        Some("terminal name is not text")
    );
}

#[test]
fn both_systems_have_their_numbers() {
    assert_eq!(linux().take_terminal, 0x540e);
    assert_eq!(linux().no_controlling, 0o400);
    assert_eq!(macos().set_window_size, 0x8008_7467);
    assert_eq!(macos().take_terminal, 0x2000_7461);
    assert_eq!(macos().no_controlling, 0x2_0000);
    assert_eq!(master_flags(&linux()), 0o402);
    assert_eq!(master_flags(&macos()), 0x2_0002);
    assert_eq!(slave_flags(&linux()), 0o400);
    assert_eq!(slave_flags(&macos()), 0x2_0000);
}

#[test]
fn a_reader_nobody_listens_to_stops() {
    let full = [7u8; CHUNK];
    assert_eq!(
        read_output(true, ReaderEvent::Read(&full)),
        ReaderAction::Send(vec![7; 4096])
    );
    assert_eq!(read_output(true, ReaderEvent::Unsent), ReaderAction::Stop);
    assert_eq!(read_output(false, ReaderEvent::Sent), ReaderAction::Read);
    assert_eq!(read_output(true, ReaderEvent::Sent), ReaderAction::Wake);
    assert_eq!(read_output(true, ReaderEvent::Read(b"")), ReaderAction::Stop);
    assert_eq!(read_output(true, ReaderEvent::ReadFailed), ReaderAction::Stop);
}

#[test]
fn a_program_that_prints_without_pause_fills_the_channel_and_no_more() {
    let (sender, receiver) = std::sync::mpsc::sync_channel(QUEUE_LIMIT);
    let full = [7u8; CHUNK];
    let mut action = read_output(false, ReaderEvent::Started);
    let mut waiting = 0;
    loop {
        action = match action {
            ReaderAction::Read => read_output(false, ReaderEvent::Read(&full)),
            ReaderAction::Send(chunk) => match sender.try_send(chunk) {
                Ok(()) => {
                    waiting += CHUNK;
                    read_output(false, ReaderEvent::Sent)
                }
                Err(_) => break,
            },
            other => panic!("{other:?}"),
        };
    }
    assert_eq!(waiting, 64 * 4096);
    assert_eq!(receiver.try_iter().count(), QUEUE_LIMIT);
}
