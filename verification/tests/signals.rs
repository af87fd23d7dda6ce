//! Who gets which signal, and what becomes of one that arrives here.

use kobo_abi::failure::{Failure, FailureKind};
use kobo_abi::process::Kill;
use kobo_abi::process_group::{session_sweep, signal_session, SessionAction, SessionEvent};
use kobo_abi::procfs::{is_separator, parse_pid, parse_session};
use kobo_abi::step::Step;
use kobo_abi::stop::HandlerReply;
use kobo_abi::{process, process_group, stop};

#[test]
fn a_termination_signal_arrives_as_something_to_act_on() {
    let mut record = stop::nothing_recorded();
    stop::forget_for_test(&mut record);
    assert_eq!(stop::requested(&record), None);

    stop::record(&mut record, stop::SIGTERM);

    assert_eq!(stop::requested(&record), Some(stop::SIGTERM));
    assert_eq!(stop::name(stop::SIGTERM), "SIGTERM");
    stop::forget_for_test(&mut record);
    assert_eq!(stop::requested(&record), None);
}

#[test]
fn the_last_signal_is_the_one_that_is_reported() {
    let mut record = stop::nothing_recorded();
    for number in stop::CAUGHT {
        stop::record(&mut record, number);
        assert_eq!(stop::requested(&record), Some(number));
    }
}

#[test]
fn signals_have_names() {
    assert_eq!(stop::name(1), "SIGHUP");
    assert_eq!(stop::name(2), "SIGINT");
    assert_eq!(stop::name(15), "SIGTERM");
    assert_eq!(stop::name(9), "a signal");
    assert_eq!(stop::name(0), "a signal");
}

fn attempt(position: usize, previous: usize) -> Step<usize> {
    stop::catch_requests(Some(HandlerReply {
        position,
        previous,
        errno: 22,
    }))
}

#[test]
fn every_termination_signal_is_caught_in_turn() {
    assert_eq!(stop::CAUGHT, [15, 2, 1]);
    assert_eq!(stop::catch_requests(None), Step::Perform(0));
    assert_eq!(attempt(0, 0), Step::Perform(1));
    assert_eq!(attempt(1, 0x1234), Step::Perform(2));
    assert_eq!(attempt(2, 1), Step::Finish);
}

#[test]
fn a_handler_that_cannot_be_installed_ends_the_catching() {
    assert_eq!(attempt(0, stop::SIG_ERR), Step::Fail(Failure::Kernel(22)));
    assert_eq!(attempt(2, usize::MAX), Step::Fail(Failure::Kernel(22)));
}

#[test]
fn only_one_ordinary_process_can_be_signalled() {
    assert_eq!(
        process::signal(2, process::SIGKILL),
        Ok(Kill { pid: 2, signal: 9 })
    );
    assert_eq!(
        process::signal(i32::MAX, process::SIGCONT),
        Ok(Kill {
            pid: i32::MAX,
            signal: 18
        })
    );
    for pid in [1, 0, -1, -1234, i32::MIN] {
        assert_eq!(
            process::signal(pid, process::SIGTERM),
            Err(Failure::InitOrGroup)
        );
    }
    assert_eq!(Failure::InitOrGroup.kind(), FailureKind::InvalidInput);
    assert_eq!(
        Failure::InitOrGroup.message(),
        Some("refusing to signal init or a process group")
    );
}

#[test]
fn signalling_a_group_stops_a_child_that_started_another_process() {
    let leader = 4321;
    assert_eq!(
        process_group::signal(leader, process_group::SIGTERM),
        Ok(Kill {
            pid: -4321,
            signal: 15
        })
    );
    assert_eq!(
        process_group::signal(leader, process_group::SIGKILL),
        Ok(Kill {
            pid: -4321,
            signal: 9
        })
    );
}

#[test]
fn the_ids_that_address_everybody_lead_no_group() {
    for leader in [0, 1] {
        assert_eq!(
            process_group::signal(leader, 9),
            Err(Failure::LeaderHasNoGroup)
        );
        let mut sweep = session_sweep(leader, 9);
        assert_eq!(
            signal_session(&mut sweep, SessionEvent::End),
            SessionAction::Fail(Failure::LeaderHasNoGroup)
        );
    }
    assert_eq!(
        process_group::signal(2, 9),
        Ok(Kill { pid: -2, signal: 9 })
    );
    assert_eq!(Failure::LeaderHasNoGroup.kind(), FailureKind::InvalidInput);
    assert_eq!(
        Failure::LeaderHasNoGroup.message(),
        Some("process id addresses no group of its own")
    );
}

#[test]
fn a_table_that_cannot_be_read_falls_back_to_the_group() {
    let mut sweep = session_sweep(50, 9);
    assert_eq!(
        signal_session(&mut sweep, SessionEvent::Unreadable),
        SessionAction::FallBack(Kill {
            pid: -50,
            signal: 9
        })
    );
    let mut hopeless = session_sweep(u32::MAX, 9);
    assert_eq!(
        signal_session(&mut hopeless, SessionEvent::Unreadable),
        SessionAction::Fail(Failure::ProcessIdTooLarge)
    );
}

#[test]
fn a_leader_past_the_platform_has_no_group() {
    assert_eq!(
        process_group::signal(0x7fff_ffff, 9),
        Ok(Kill {
            pid: -0x7fff_ffff,
            signal: 9
        })
    );
    assert_eq!(
        process_group::signal(0x8000_0000, 9),
        Err(Failure::ProcessIdTooLarge)
    );
    assert_eq!(
        process_group::signal(u32::MAX, 9),
        Err(Failure::ProcessIdTooLarge)
    );
    assert_eq!(Failure::ProcessIdTooLarge.kind(), FailureKind::InvalidInput);
    assert_eq!(
        Failure::ProcessIdTooLarge.message(),
        Some("process id is too large")
    );
}

#[test]
fn process_ids_are_read_as_the_standard_library_reads_them() {
    for text in [
        "0",
        "1",
        "42",
        "+7",
        "007",
        "4294967295",
        "4294967296",
        "99999999999999999999999",
        "00000000000000000000001",
        "",
        "+",
        "++1",
        "-1",
        "-0",
        " 1",
        "1 ",
        "1a",
        "self",
        "\u{662}",
    ] {
        assert_eq!(parse_pid(text), text.parse::<u32>().ok(), "{text:?}");
    }
}

/// The session as the standard library's own string functions find it.
fn session(stat: &str) -> Option<u32> {
    let fields = stat.rsplit_once(") ").map(|(_, fields)| fields)?;
    fields.split_whitespace().nth(3)?.parse().ok()
}

#[test]
fn sessions_are_read_as_the_standard_library_reads_them() {
    for stat in [
        "812 (sh) S 811 812 812 34816 900 4194304",
        "812 (a) b (c) ) S 1 2 3 4",
        "812 (spoof) S 1 1 666 0) R 5 6 7 8",
        "812 (sh)S 811 812 812",
        "812 (sh) S 811 812",
        "812 (sh) S 811 812 +9",
        "812 (sh) S 811 812 x9",
        "812 (sh)   S\t811\n812   9",
        "812 (sh) S\u{a0}811\u{3000}812\u{2003}9 1",
        "812 (sh) S\u{200b}811 812 9 1",
        ") ",
        ") ) ) a b c 7",
        "",
        ")",
        "no bracket at all",
        "812 (sh) S 811 812 4294967296",
    ] {
        assert_eq!(parse_session(stat.as_bytes()), session(stat), "{stat:?}");
    }
    assert_eq!(
        parse_session(b"812 (sh) S 811 812 813 34816 900 4194304"),
        Some(813)
    );
}

#[test]
fn words_are_separated_by_white_space_alone() {
    for c in '\u{0}'..=char::MAX {
        assert_eq!(is_separator(c), c.is_whitespace(), "{c:?}");
    }
}

#[test]
fn a_program_name_cannot_forge_its_session() {
    assert_eq!(parse_session(b"5 (x) S 1 1 666 0) R 1 5 5 0"), Some(5));
    // A name that is no text hides nothing either.
    assert_eq!(parse_session(b"5 (\xff\xfe) R 1 5 5 0"), Some(5));
    assert_eq!(parse_session(b"5 (\xc3) R 1 5 5 0"), Some(5));
    assert_eq!(parse_session(b"5 (x) R \xff 5 5 0"), None);
}

#[test]
fn a_session_is_swept_process_by_process() {
    let mut sweep = session_sweep(50, 9);
    assert_eq!(
        signal_session(&mut sweep, SessionEvent::Entry("cpuinfo")),
        SessionAction::Skip
    );
    assert_eq!(
        signal_session(&mut sweep, SessionEvent::Entry("61")),
        SessionAction::ReadStat(61)
    );
    assert_eq!(
        signal_session(&mut sweep, SessionEvent::Stat(61, b"61 (job) R 50 61 50 0 0")),
        SessionAction::Deliver(Kill { pid: 61, signal: 9 })
    );
    assert_eq!(
        signal_session(&mut sweep, SessionEvent::Stat(62, b"62 (else) R 1 62 62 0 0")),
        SessionAction::Skip
    );
    assert_eq!(
        signal_session(&mut sweep, SessionEvent::Missing),
        SessionAction::Skip
    );
    assert_eq!(
        signal_session(&mut sweep, SessionEvent::End),
        SessionAction::Finish
    );
}

#[test]
fn a_session_with_no_process_falls_back_to_its_group() {
    let mut sweep = session_sweep(50, 15);
    assert_eq!(
        signal_session(&mut sweep, SessionEvent::Stat(62, b"62 (else) R 1 62 62 0 0")),
        SessionAction::Skip
    );
    assert_eq!(
        signal_session(&mut sweep, SessionEvent::End),
        SessionAction::FallBack(Kill {
            pid: -50,
            signal: 15
        })
    );
    let mut hopeless = session_sweep(u32::MAX, 15);
    assert_eq!(
        signal_session(&mut hopeless, SessionEvent::End),
        SessionAction::Fail(Failure::ProcessIdTooLarge)
    );
}

#[test]
fn a_process_id_past_the_platform_is_found_but_not_signalled() {
    let mut sweep = session_sweep(50, 9);
    assert_eq!(
        signal_session(
            &mut sweep,
            SessionEvent::Stat(0x8000_0000, b"1 (job) R 50 61 50 0 0")
        ),
        SessionAction::Skip
    );
    assert!(sweep.found);
    assert_eq!(
        signal_session(&mut sweep, SessionEvent::End),
        SessionAction::Finish
    );
}
