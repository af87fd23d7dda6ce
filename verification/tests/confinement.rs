//! The sandbox: its filter, the way into it, and who is found in it.

use kobo_abi::failure::{Failure, FailureKind};
use kobo_abi::filter::{
    install_filter, jump, statement, syscall, target_numbers, Instruction, SyscallNumbers,
};
use kobo_abi::process::Kill;
use kobo_abi::sandbox::{
    is_root, signal, sweep, DescentCall, Identity, Sandbox, SweepAction, SweepEvent,
    UNPRIVILEGED_ID,
};
use kobo_abi::step::Step;

const ALLOW: u32 = 0x7fff_0000;
const EPERM: u32 = 0x0005_0001;

/// Runs a filter on a system call and its first argument.
fn verdict(program: &[Instruction], number: u32, first_argument: u64) -> u32 {
    let mut at = 0;
    let mut accumulator = 0;
    loop {
        let instruction = program[at];
        at += 1;
        match instruction.code {
            0x20 => {
                accumulator = match instruction.k {
                    0 => number,
                    16 => first_argument as u32,
                    other => panic!("a load from {other}"),
                }
            }
            0x15 => {
                at += usize::from(if accumulator == instruction.k {
                    instruction.jt
                } else {
                    instruction.jf
                });
            }
            0x06 => return instruction.k,
            other => panic!("an instruction {other}"),
        }
    }
}

fn example_numbers() -> SyscallNumbers {
    SyscallNumbers {
        socket: 41,
        setsid: 112,
        setpgid: 109,
        unshare: 272,
        setns: 308,
        fork: Some(57),
        vfork: Some(58),
        clone: 56,
        clone3: 435,
    }
}

#[test]
fn local_sockets_are_permitted_and_network_sockets_refused() {
    let program = install_filter(&example_numbers());
    assert_eq!(verdict(&program, 41, 1), ALLOW);
    for family in [0, 2, 10, 16, 17, u64::from(u32::MAX)] {
        assert_eq!(verdict(&program, 41, family), EPERM);
    }
    // The family is an int: the kernel looks at the low half alone.
    assert_eq!(verdict(&program, 41, 0xffff_ffff_0000_0001), ALLOW);
}

#[test]
fn leaving_the_group_and_starting_processes_are_refused() {
    let program = install_filter(&example_numbers());
    for number in [112, 109, 272, 308, 57, 58, 56, 435] {
        assert_eq!(verdict(&program, number, 1), EPERM);
    }
    for number in [0, 1, 3, 40, 42, 55, 59, 231, 434, 436] {
        assert_eq!(verdict(&program, number, 2), ALLOW);
    }
}

#[test]
fn a_target_without_fork_keeps_every_jump_in_place() {
    let with = install_filter(&example_numbers());
    let without = install_filter(&SyscallNumbers {
        fork: None,
        vfork: None,
        ..example_numbers()
    });
    assert_eq!(without[6].k, u32::MAX);
    assert_eq!(without[7].k, u32::MAX);
    for number in 0..500 {
        if number != 57 && number != 58 {
            for family in [1, 2] {
                assert_eq!(
                    verdict(&with, number, family),
                    verdict(&without, number, family)
                );
            }
        }
    }
    assert_eq!(verdict(&without, 57, 1), ALLOW);
}

#[test]
fn the_program_is_the_one_the_kernel_is_given() {
    let program = install_filter(&example_numbers());
    let expected = [
        (0x20, 0, 0, 0),
        (0x15, 9, 0, 41),
        (0x15, 10, 0, 112),
        (0x15, 9, 0, 109),
        (0x15, 8, 0, 272),
        (0x15, 7, 0, 308),
        (0x15, 6, 0, 57),
        (0x15, 5, 0, 58),
        (0x15, 4, 0, 56),
        (0x15, 3, 0, 435),
        (0x06, 0, 0, libc::SECCOMP_RET_ALLOW),
        (0x20, 0, 0, 16),
        (0x15, 1, 0, libc::AF_UNIX as u32),
        (0x06, 0, 0, libc::SECCOMP_RET_ERRNO | libc::EPERM as u32),
        (0x06, 0, 0, libc::SECCOMP_RET_ALLOW),
    ];
    for (instruction, (code, jt, jf, k)) in program.iter().zip(expected) {
        assert_eq!(*instruction, Instruction { code, jt, jf, k });
    }
}

#[test]
fn the_numbers_are_this_targets() {
    let numbers = target_numbers(Some(5), None);
    assert_eq!(numbers.socket, i64::from(libc::SYS_socket));
    assert_eq!(numbers.setsid, i64::from(libc::SYS_setsid));
    assert_eq!(numbers.setpgid, i64::from(libc::SYS_setpgid));
    assert_eq!(numbers.unshare, i64::from(libc::SYS_unshare));
    assert_eq!(numbers.setns, i64::from(libc::SYS_setns));
    assert_eq!(numbers.clone, i64::from(libc::SYS_clone));
    assert_eq!(numbers.clone3, i64::from(libc::SYS_clone3));
    assert_eq!(numbers.fork, Some(5));
    assert_eq!(numbers.vfork, None);
    let program = install_filter(&numbers);
    let socket = libc::SYS_socket as u32;
    assert_eq!(verdict(&program, socket, 1), ALLOW);
    assert_eq!(verdict(&program, socket, 2), EPERM);
    for refused in [
        libc::SYS_setsid,
        libc::SYS_setpgid,
        libc::SYS_unshare,
        libc::SYS_setns,
        libc::SYS_clone,
        libc::SYS_clone3,
    ] {
        assert_eq!(verdict(&program, refused as u32, 1), EPERM);
    }
}

#[test]
fn instructions_hold_what_they_are_made_of() {
    assert_eq!(
        statement(0x06, 7),
        Instruction {
            code: 6,
            jt: 0,
            jf: 0,
            k: 7
        }
    );
    assert_eq!(
        jump(9, 1, 2),
        Instruction {
            code: 0x15,
            jt: 1,
            jf: 2,
            k: 9
        }
    );
    assert_eq!(syscall(435), 435);
    assert_eq!(syscall(0xffff_ffff), u32::MAX);
    assert_eq!(syscall(0x1_0000_0000), u32::MAX);
    assert_eq!(syscall(-1), u32::MAX);
}

#[test]
fn a_sandbox_path_with_a_nul_is_refused() {
    let refused = Sandbox::new(b"/tmp/box\0/etc").err();
    assert_eq!(refused, Some(Failure::SandboxPathHasNul));
    assert_eq!(Failure::SandboxPathHasNul.kind(), FailureKind::InvalidInput);
    assert_eq!(
        Failure::SandboxPathHasNul.message(),
        Some("sandbox path has NUL")
    );
    let sandbox = Sandbox::new(b"/tmp/box").expect("a sandbox");
    assert_eq!(sandbox.root_path(), b"/tmp/box\0");
}

/// Runs a descent whose calls come to these results, and lists the calls.
fn descend(results: &[i32]) -> (Vec<DescentCall>, Step<DescentCall>) {
    let sandbox = Sandbox::new(b"/box").expect("a sandbox");
    let mut calls = Vec::new();
    let mut step = sandbox.enter(None);
    for result in results {
        let call = match step {
            Step::Perform(call) => call,
            ended => return (calls, ended),
        };
        calls.push(call);
        step = sandbox.enter(Some((call, kobo_abi::failure::completed(*result, 13))));
    }
    (calls, step)
}

#[test]
fn a_descent_takes_every_step_in_order() {
    let (calls, end) = descend(&[0; 20]);
    assert_eq!(end, Step::Finish);
    assert_eq!(
        calls,
        vec![
            DescentCall::LeadGroup,
            DescentCall::ChangeRoot,
            DescentCall::ChangeDirectory,
            DescentCall::ForbidPrivileges,
            DescentCall::InstallFilter,
            DescentCall::DropGroups,
            DescentCall::SetGroup(65_534),
            DescentCall::SetUser(UNPRIVILEGED_ID),
        ]
    );
}

#[test]
fn a_network_namespace_stands_in_for_a_refused_filter() {
    let (calls, end) = descend(&[0, 0, 0, 0, -1, 0, 0, 0, 0]);
    assert_eq!(end, Step::Finish);
    assert_eq!(calls[4], DescentCall::InstallFilter);
    assert_eq!(calls[5], DescentCall::UnshareNetwork);
    assert_eq!(calls[6], DescentCall::DropGroups);
    let (_, end) = descend(&[0, 0, 0, 0, -1, -1]);
    assert_eq!(end, Step::Fail(Failure::Kernel(13)));
}

#[test]
fn any_other_refusal_ends_the_descent() {
    for at in [0, 1, 2, 3, 5, 6, 7] {
        let mut results = [0; 8];
        results[at] = -1;
        let (calls, end) = descend(&results);
        assert_eq!(end, Step::Fail(Failure::Kernel(13)));
        assert_eq!(calls.len(), at + 1);
    }
}

#[test]
fn only_root_can_prepare_a_sandbox() {
    assert!(is_root(0));
    assert!(!is_root(UNPRIVILEGED_ID));
    assert!(!is_root(1));
}

#[test]
fn whoever_lives_in_a_sandbox_is_signalled_and_counted() {
    let wanted = Identity {
        device: 8,
        inode: 77,
    };
    let mut walk = sweep(wanted, 100, 9);
    assert_eq!(signal(&mut walk, SweepEvent::Entry("uptime")), SweepAction::Skip);
    assert_eq!(signal(&mut walk, SweepEvent::Entry("100")), SweepAction::Skip);
    assert_eq!(
        signal(&mut walk, SweepEvent::Entry("101")),
        SweepAction::LookUpRoot(101)
    );
    let elsewhere = Identity {
        device: 9,
        inode: 77,
    };
    assert_eq!(
        signal(&mut walk, SweepEvent::Root(101, elsewhere)),
        SweepAction::Skip
    );
    let other = Identity {
        device: 8,
        inode: 78,
    };
    assert_eq!(
        signal(&mut walk, SweepEvent::Root(101, other)),
        SweepAction::Skip
    );
    assert_eq!(
        signal(&mut walk, SweepEvent::Root(102, wanted)),
        SweepAction::Deliver(Kill {
            pid: 102,
            signal: 9
        })
    );
    assert_eq!(
        signal(&mut walk, SweepEvent::Delivered(0)),
        SweepAction::Skip
    );
    assert_eq!(
        signal(&mut walk, SweepEvent::Root(103, wanted)),
        SweepAction::Deliver(Kill {
            pid: 103,
            signal: 9
        })
    );
    assert_eq!(
        signal(&mut walk, SweepEvent::Delivered(-1)),
        SweepAction::Skip
    );
    assert_eq!(
        signal(&mut walk, SweepEvent::Root(0x8000_0000, wanted)),
        SweepAction::Skip
    );
    assert_eq!(signal(&mut walk, SweepEvent::Missing), SweepAction::Skip);
    assert_eq!(signal(&mut walk, SweepEvent::End), SweepAction::Finish(1));
}
