//! The seccomp program that confines an application.
//!
//! The program is a classic BPF program: a short list of instructions over one
//! accumulator that reads the words of the kernel's `seccomp_data` and ends by
//! returning a verdict. [`execute`] gives the instructions used here their
//! meaning, [`policy`] says what the program is for, and [`law_filter_policy`]
//! proves that the program does that on every system call.

use vstd::prelude::*;

verus! {

/// Load the word at a fixed offset of `seccomp_data`.
pub const LD_W_ABS: u16 = 0x20;
/// Jump on equality of the accumulator and a constant.
pub const JMP_JEQ_K: u16 = 0x15;
/// Return a constant.
pub const RET_K: u16 = 0x06;

/// The verdict that lets a system call through.
pub const VERDICT_ALLOW: u32 = 0x7fff_0000;
/// The verdict that refuses a system call with `EPERM`.
pub const VERDICT_EPERM: u32 = 0x0005_0001;
/// The address family of local sockets.
pub const FAMILY_UNIX: u32 = 1;

/// One instruction, in the kernel's `sock_filter` shape.
#[derive(Clone, Copy, Debug, PartialEq, Eq, Structural)]
pub struct Instruction {
    pub code: u16,
    pub jt: u8,
    pub jf: u8,
    pub k: u32,
}

/// The system calls the program names, as the target numbers them.
///
/// Some architectures have no fork or vfork system call: the C library makes
/// both out of clone, which the program refuses in its own right.
#[derive(Clone, Copy, Debug, PartialEq, Eq)]
pub struct SyscallNumbers {
    pub socket: i64,
    pub setsid: i64,
    pub setpgid: i64,
    pub unshare: i64,
    pub setns: i64,
    pub fork: Option<i64>,
    pub vfork: Option<i64>,
    pub clone: i64,
    pub clone3: i64,
}

/// What the kernel shows a seccomp program of one system call.
pub struct SeccompData {
    pub nr: u32,
    pub arch: u32,
    pub instruction_pointer: u64,
    pub args: Seq<u64>,
}

impl SeccompData {
    /// A system call has six arguments, used or not.
    pub open spec fn well_formed(self) -> bool {
        self.args.len() == 6
    }

    /// The 32-bit word at a byte offset, on a little-endian machine: the number
    /// at 0, the architecture at 4, the instruction pointer at 8, and the
    /// arguments from 16 on, each with its low half first.
    pub open spec fn word(self, offset: int) -> Option<u32> {
        if offset == 0 {
            Some(self.nr)
        } else if offset == 4 {
            Some(self.arch)
        } else if offset == 8 {
            Some(low_half(self.instruction_pointer))
        } else if offset == 12 {
            Some(high_half(self.instruction_pointer))
        } else if 16 <= offset < 64 && offset % 8 == 0 {
            Some(low_half(self.args[(offset - 16) / 8]))
        } else if 16 <= offset < 64 && offset % 8 == 4 {
            Some(high_half(self.args[(offset - 20) / 8]))
        } else {
            None
        }
    }
}

/// The low 32 bits of a word.
pub open spec fn low_half(value: u64) -> u32 {
    (value % 0x1_0000_0000) as u32
}

/// The high 32 bits of a word.
pub open spec fn high_half(value: u64) -> u32 {
    (value / 0x1_0000_0000) as u32
}

/// Runs a program from instruction `at`: the verdict it returns, or nothing
/// where the kernel would have refused to load it.
pub open spec fn execute(
    program: Seq<Instruction>,
    data: SeccompData,
    at: int,
    accumulator: u32,
) -> Option<u32>
    decreases
            (if at < program.len() {
                program.len() - at
            } else {
                0
            }),
{
    if at < 0 || at >= program.len() {
        None
    } else {
        let instruction = program[at];
        if instruction.code == LD_W_ABS {
            match data.word(instruction.k as int) {
                Some(word) => execute(program, data, at + 1, word),
                None => None,
            }
        } else if instruction.code == JMP_JEQ_K {
            if accumulator == instruction.k {
                execute(program, data, at + 1 + instruction.jt, accumulator)
            } else {
                execute(program, data, at + 1 + instruction.jf, accumulator)
            }
        } else if instruction.code == RET_K {
            Some(instruction.k)
        } else {
            None
        }
    }
}

/// A system call number as the constant an instruction holds. A number that
/// does not fit becomes the one that matches no system call.
pub open spec fn immediate(number: int) -> u32 {
    if 0 <= number <= 0xffff_ffff {
        number as u32
    } else {
        u32::MAX
    }
}

/// The constant for a call that the target may lack.
pub open spec fn optional_immediate(number: Option<i64>) -> u32 {
    match number {
        Some(number) => immediate(number as int),
        None => u32::MAX,
    }
}

/// The calls by which a process could leave its group or start another.
pub open spec fn escapes(numbers: SyscallNumbers, nr: u32) -> bool {
    ||| nr == immediate(numbers.setsid as int)
    ||| nr == immediate(numbers.setpgid as int)
    ||| nr == immediate(numbers.unshare as int)
    ||| nr == immediate(numbers.setns as int)
    ||| nr == optional_immediate(numbers.fork)
    ||| nr == optional_immediate(numbers.vfork)
    ||| nr == immediate(numbers.clone as int)
    ||| nr == immediate(numbers.clone3 as int)
}

/// What an application may ask of the kernel: sockets of the local family and
/// no other, nothing that leaves its group or starts a process, and
/// everything else.
pub open spec fn policy(numbers: SyscallNumbers, data: SeccompData) -> u32 {
    if data.nr == immediate(numbers.socket as int) {
        if low_half(data.args[0]) == FAMILY_UNIX {
            VERDICT_ALLOW
        } else {
            VERDICT_EPERM
        }
    } else if escapes(numbers, data.nr) {
        VERDICT_EPERM
    } else {
        VERDICT_ALLOW
    }
}

/// An instruction that does not jump.
pub open spec fn statement_spec(code: u16, value: u32) -> Instruction {
    Instruction { code, jt: 0, jf: 0, k: value }
}

/// A comparison of the accumulator with a constant.
pub open spec fn jump_spec(value: u32, yes: u8, no: u8) -> Instruction {
    Instruction { code: JMP_JEQ_K, jt: yes, jf: no, k: value }
}

/// The program, instruction by instruction. Jumps are relative to the next
/// instruction, so a slot that matches nothing is kept rather than removed.
pub open spec fn filter_program(numbers: SyscallNumbers) -> Seq<Instruction> {
    seq![
        statement_spec(LD_W_ABS, 0),
        jump_spec(immediate(numbers.socket as int), 9, 0),
        jump_spec(immediate(numbers.setsid as int), 10, 0),
        jump_spec(immediate(numbers.setpgid as int), 9, 0),
        jump_spec(immediate(numbers.unshare as int), 8, 0),
        jump_spec(immediate(numbers.setns as int), 7, 0),
        jump_spec(optional_immediate(numbers.fork), 6, 0),
        jump_spec(optional_immediate(numbers.vfork), 5, 0),
        jump_spec(immediate(numbers.clone as int), 4, 0),
        jump_spec(immediate(numbers.clone3 as int), 3, 0),
        statement_spec(RET_K, VERDICT_ALLOW),
        statement_spec(LD_W_ABS, 16),
        jump_spec(FAMILY_UNIX, 1, 0),
        statement_spec(RET_K, VERDICT_EPERM),
        statement_spec(RET_K, VERDICT_ALLOW),
    ]
}

/// The program, loaded as a seccomp filter, answers every system call as the
/// policy says.
pub proof fn law_filter_policy(numbers: SyscallNumbers, data: SeccompData)
    requires
        data.well_formed(),
    ensures
        execute(filter_program(numbers), data, 0, 0) == Some(policy(numbers, data)),
{
    let program = filter_program(numbers);
    let nr = data.nr;
    let family = low_half(data.args[0]);
    assert(execute(program, data, 14, family) == Some(VERDICT_ALLOW));
    assert(execute(program, data, 13, family) == Some(VERDICT_EPERM));
    assert(execute(program, data, 13, nr) == Some(VERDICT_EPERM));
    assert(data.word(16) == Some(family));
    assert(execute(program, data, 12, family) == Some(
        if family == FAMILY_UNIX {
            VERDICT_ALLOW
        } else {
            VERDICT_EPERM
        },
    ));
    assert(execute(program, data, 11, nr) == execute(program, data, 12, family));
    assert(execute(program, data, 10, nr) == Some(VERDICT_ALLOW));
    reveal_with_fuel(execute, 11);
}

/// Whether the socket call is none of the refused ones.
pub open spec fn socket_stands_apart(numbers: SyscallNumbers) -> bool {
    !escapes(numbers, immediate(numbers.socket as int))
}

/// The loaded program permits a local socket and refuses a network one, it
/// refuses every call by which a process could leave its group or start
/// another, and it permits every other call.
pub proof fn law_filter_confines(numbers: SyscallNumbers, data: SeccompData)
    requires
        data.well_formed(),
        socket_stands_apart(numbers),
    ensures
        data.nr == immediate(numbers.socket as int) && low_half(data.args[0]) == FAMILY_UNIX
            ==> execute(filter_program(numbers), data, 0, 0) == Some(VERDICT_ALLOW),
        data.nr == immediate(numbers.socket as int) && low_half(data.args[0]) != FAMILY_UNIX
            ==> execute(filter_program(numbers), data, 0, 0) == Some(VERDICT_EPERM),
        escapes(numbers, data.nr) ==> execute(filter_program(numbers), data, 0, 0) == Some(
            VERDICT_EPERM,
        ),
        data.nr != immediate(numbers.socket as int) && !escapes(numbers, data.nr) ==> execute(
            filter_program(numbers),
            data,
            0,
            0,
        ) == Some(VERDICT_ALLOW),
{
    law_filter_policy(numbers, data);
}

/// One instruction does what the kernel says of it: a load puts a word of the
/// call into the accumulator and goes on, a comparison goes on past as many
/// instructions as it says for what it finds, and a return ends the program.
pub proof fn law_instructions_mean_what_the_kernel_says(
    program: Seq<Instruction>,
    data: SeccompData,
    at: int,
    accumulator: u32,
)
    requires
        data.well_formed(),
        0 <= at < program.len(),
    ensures
        program[at].code == 0x20 && program[at].k == 0 ==> execute(program, data, at, accumulator)
            == execute(program, data, at + 1, data.nr),
        program[at].code == 0x20 && program[at].k == 16 ==> execute(program, data, at, accumulator)
            == execute(program, data, at + 1, (data.args[0] % 0x1_0000_0000) as u32),
        program[at].code == 0x15 && accumulator == program[at].k ==> execute(
            program,
            data,
            at,
            accumulator,
        ) == execute(program, data, at + 1 + program[at].jt, accumulator),
        program[at].code == 0x15 && accumulator != program[at].k ==> execute(
            program,
            data,
            at,
            accumulator,
        ) == execute(program, data, at + 1 + program[at].jf, accumulator),
        program[at].code == 0x06 ==> execute(program, data, at, accumulator) == Some(
            program[at].k,
        ),
{
}

/// Each system call by which a process could leave its group or start another
/// is refused under the very number that the target gives it, unless that is
/// the socket call's number. Only the number that stands for a call which the
/// target lacks needs the socket call to have a number that fits.
pub proof fn law_named_calls_are_refused(numbers: SyscallNumbers, data: SeccompData, number: i64)
    requires
        data.well_formed(),
        number == numbers.setsid || number == numbers.setpgid || number == numbers.unshare || number
            == numbers.setns || numbers.fork == Some(number) || numbers.vfork == Some(number)
            || number == numbers.clone || number == numbers.clone3,
        0 <= number <= 0xffff_ffff,
        number != numbers.socket,
        number == 0xffff_ffff ==> 0 <= numbers.socket <= 0xffff_ffff,
        data.nr == number,
    ensures
        execute(filter_program(numbers), data, 0, 0) == Some(0x0005_0001u32),
{
    law_filter_policy(numbers, data);
}

/// The socket call is answered by its first argument alone, of which the low
/// half counts: the local family is let through and every other is refused.
pub proof fn law_sockets_are_told_by_family(numbers: SyscallNumbers, data: SeccompData)
    requires
        data.well_formed(),
        data.nr == numbers.socket,
    ensures
        data.args[0] % 0x1_0000_0000 == 1 ==> execute(filter_program(numbers), data, 0, 0) == Some(
            0x7fff_0000u32,
        ),
        data.args[0] % 0x1_0000_0000 != 1 ==> execute(filter_program(numbers), data, 0, 0) == Some(
            0x0005_0001u32,
        ),
{
    law_filter_policy(numbers, data);
}

/// A system call with a number that none of the named calls has is let through,
/// whatever its arguments; only the number that stands for a call which the
/// target lacks is not promised that.
pub proof fn law_other_calls_are_let_through(numbers: SyscallNumbers, data: SeccompData)
    requires
        data.well_formed(),
        data.nr != 0xffff_ffff,
        data.nr != numbers.socket,
        data.nr != numbers.setsid,
        data.nr != numbers.setpgid,
        data.nr != numbers.unshare,
        data.nr != numbers.setns,
        numbers.fork is Some ==> data.nr != numbers.fork->0,
        numbers.vfork is Some ==> data.nr != numbers.vfork->0,
        data.nr != numbers.clone,
        data.nr != numbers.clone3,
    ensures
        execute(filter_program(numbers), data, 0, 0) == Some(0x7fff_0000u32),
{
    law_filter_policy(numbers, data);
}

/// A number that fits an instruction stands there unchanged, so that two calls
/// with different numbers are told apart, and one that does not fit, or is
/// missing, becomes the largest constant.
pub proof fn law_numbers_stand_unchanged(number: i64)
    ensures
        0 <= number <= 0xffff_ffff ==> immediate(number as int) == number && optional_immediate(
            Some(number),
        ) == number,
        number < 0 || number > 0xffff_ffff ==> immediate(number as int) == 0xffff_ffff
            && optional_immediate(Some(number)) == 0xffff_ffff,
        optional_immediate(None) == 0xffff_ffff,
{
}

/// A target that lacks fork and vfork gets the same answers as one that has
/// them, on every call but those two and the number that matches none.
pub proof fn law_missing_calls_change_nothing_else(numbers: SyscallNumbers, data: SeccompData)
    requires
        data.well_formed(),
        data.nr != u32::MAX,
        data.nr != optional_immediate(numbers.fork),
        data.nr != optional_immediate(numbers.vfork),
    ensures
        execute(
            filter_program(SyscallNumbers { fork: None, vfork: None, ..numbers }),
            data,
            0,
            0,
        ) == execute(filter_program(numbers), data, 0, 0),
{
    law_filter_policy(numbers, data);
    law_filter_policy(SyscallNumbers { fork: None, vfork: None, ..numbers }, data);
}

/// Whether these are the numbers that one Linux architecture gives `socket`,
/// `setsid`, `setpgid`, `unshare`, `setns`, `clone` and `clone3`, in this order.
pub open spec fn linux_row(calls: Seq<int>) -> bool {
    // x86_64, with 64-bit pointers and with 32-bit ones.
    ||| calls == seq![41int, 112, 109, 272, 308, 56, 435]
    ||| calls == seq![
        0x4000_0029int,
        0x4000_0070,
        0x4000_006d,
        0x4000_0110,
        0x4000_0134,
        0x4000_0038,
        0x4000_01b3,
    ]
    // The common table: aarch64, riscv, loongarch, csky, hexagon.
    ||| calls == seq![198int, 157, 154, 97, 268, 220, 435]
    // arm.
    ||| calls == seq![281int, 66, 57, 337, 375, 120, 435]
    // x86.
    ||| calls == seq![359int, 66, 57, 310, 346, 120, 435]
    // powerpc.
    ||| calls == seq![326int, 66, 57, 282, 350, 120, 435]
    // s390x.
    ||| calls == seq![359int, 66, 57, 303, 339, 120, 435]
    // sparc.
    ||| calls == seq![97int, 175, 185, 299, 337, 217, 435]
    // m68k.
    ||| calls == seq![356int, 66, 57, 303, 344, 120, 435]
    // mips, with 32 bits and with 64.
    ||| calls == seq![4183int, 4066, 4057, 4303, 4344, 4120, 4435]
    ||| calls == seq![5040int, 5110, 5107, 5262, 5303, 5055, 5435]
}

/// The numbers of the calls that every target has, in the order of
/// [`linux_row`].
pub open spec fn common_calls(numbers: SyscallNumbers) -> Seq<int> {
    seq![
        numbers.socket as int,
        numbers.setsid as int,
        numbers.setpgid as int,
        numbers.unshare as int,
        numbers.setns as int,
        numbers.clone as int,
        numbers.clone3 as int,
    ]
}

/// No Linux architecture numbers the socket call as one of the refused calls
/// that every target has, so it stands apart wherever fork and vfork, which
/// not every target has, are numbered otherwise too.
pub proof fn law_linux_socket_stands_apart(numbers: SyscallNumbers)
    requires
        linux_row(common_calls(numbers)),
        numbers.fork != Some(numbers.socket),
        numbers.vfork != Some(numbers.socket),
    ensures
        socket_stands_apart(numbers),
{
    let calls = common_calls(numbers);
    assert(calls[0] == numbers.socket && calls[1] == numbers.setsid && calls[2] == numbers.setpgid);
    assert(calls[3] == numbers.unshare && calls[4] == numbers.setns);
    assert(calls[5] == numbers.clone && calls[6] == numbers.clone3);
}

/// `libc::SYS_socket`, `SYS_setsid`, `SYS_setpgid`, `SYS_unshare`, `SYS_setns`,
/// `SYS_clone` and `SYS_clone3`, in this order. They differ between targets; on
/// each they are the numbers of one architecture. Which one is left unsaid: it
/// is known only where the library is built.
#[verifier::external_body]
fn libc_calls() -> (calls: [i64; 7])
    ensures
        linux_row(calls@.map_values(|number: i64| number as int)),
{
    [
        i64::from(libc::SYS_socket),
        i64::from(libc::SYS_setsid),
        i64::from(libc::SYS_setpgid),
        i64::from(libc::SYS_unshare),
        i64::from(libc::SYS_setns),
        i64::from(libc::SYS_clone),
        i64::from(libc::SYS_clone3),
    ]
}

/// `libc::AF_UNIX`: the address family of local sockets, 1 on every Linux
/// target.
#[verifier::external_body]
fn af_unix() -> (family: i32)
    ensures
        family == 1,
{
    libc::AF_UNIX
}

/// `libc::EPERM`: the error number of a call that is not permitted, 1 on every
/// Linux target.
#[verifier::external_body]
fn eperm() -> (errno: i32)
    ensures
        errno == 1,
{
    libc::EPERM
}

/// `libc::SECCOMP_RET_ALLOW`: the verdict that lets a call through.
#[verifier::external_body]
fn seccomp_ret_allow() -> (verdict: u32)
    ensures
        verdict == 0x7fff_0000,
{
    libc::SECCOMP_RET_ALLOW
}

/// `libc::SECCOMP_RET_ERRNO`: the verdict that fails a call with the error
/// number in its low half.
#[verifier::external_body]
fn seccomp_ret_errno() -> (verdict: u32)
    ensures
        verdict == 0x0005_0000,
{
    libc::SECCOMP_RET_ERRNO
}

/// An instruction that does not jump.
pub fn statement(code: u16, value: u32) -> (instruction: Instruction)
    ensures
        instruction == statement_spec(code, value),
        instruction == (Instruction { code, jt: 0, jf: 0, k: value }),
{
    Instruction { code, jt: 0, jf: 0, k: value }
}

/// A comparison of the accumulator with a constant.
pub fn jump(value: u32, yes: u8, no: u8) -> (instruction: Instruction)
    ensures
        instruction == jump_spec(value, yes, no),
        instruction == (Instruction { code: 0x15, jt: yes, jf: no, k: value }),
{
    Instruction { code: JMP_JEQ_K, jt: yes, jf: no, k: value }
}

/// A system call number as the 32-bit constant an instruction holds.
pub fn syscall(number: i64) -> (constant: u32)
    ensures
        constant == immediate(number as int),
        0 <= number <= 0xffff_ffff ==> constant == number,
        number < 0 || number > 0xffff_ffff ==> constant == 0xffff_ffff,
{
    if 0 <= number && number <= 0xffff_ffff {
        number as u32
    } else {
        u32::MAX
    }
}

/// The constant for a call that the target may lack.
pub fn optional_syscall(number: Option<i64>) -> (constant: u32)
    ensures
        constant == optional_immediate(number),
        number matches Some(n) && 0 <= n <= 0xffff_ffff ==> constant == number->0,
        number matches Some(n) && (n < 0 || n > 0xffff_ffff) ==> constant == 0xffff_ffff,
        number is None ==> constant == 0xffff_ffff,
{
    match number {
        Some(number) => syscall(number),
        None => u32::MAX,
    }
}

/// The system calls of this target. Whether fork and vfork are among them is
/// known only where the library is built, so the caller says.
pub fn target_numbers(fork: Option<i64>, vfork: Option<i64>) -> (numbers: SyscallNumbers)
    ensures
        numbers.fork == fork,
        numbers.vfork == vfork,
        linux_row(common_calls(numbers)),
        fork != Some(numbers.socket) && vfork != Some(numbers.socket) ==> socket_stands_apart(
            numbers,
        ),
        numbers.socket == 41 || numbers.socket == 198 || numbers.socket == 281
            || numbers.socket == 326 || numbers.socket == 97 || numbers.socket == 356
            || numbers.socket == 4183 || numbers.socket == 5040 || numbers.socket == 0x4000_0029
            || numbers.socket == 359,
        numbers.socket == 41 ==> numbers.setsid == 112 && numbers.setpgid == 109
            && numbers.unshare == 272 && numbers.setns == 308 && numbers.clone == 56
            && numbers.clone3 == 435,
        numbers.socket == 198 ==> numbers.setsid == 157 && numbers.setpgid == 154
            && numbers.unshare == 97 && numbers.setns == 268 && numbers.clone == 220
            && numbers.clone3 == 435,
        numbers.socket == 281 ==> numbers.setsid == 66 && numbers.setpgid == 57
            && numbers.unshare == 337 && numbers.setns == 375 && numbers.clone == 120
            && numbers.clone3 == 435,
        numbers.socket == 326 ==> numbers.setsid == 66 && numbers.setpgid == 57
            && numbers.unshare == 282 && numbers.setns == 350 && numbers.clone == 120
            && numbers.clone3 == 435,
        numbers.socket == 97 ==> numbers.setsid == 175 && numbers.setpgid == 185
            && numbers.unshare == 299 && numbers.setns == 337 && numbers.clone == 217
            && numbers.clone3 == 435,
        numbers.socket == 356 ==> numbers.setsid == 66 && numbers.setpgid == 57
            && numbers.unshare == 303 && numbers.setns == 344 && numbers.clone == 120
            && numbers.clone3 == 435,
        numbers.socket == 4183 ==> numbers.setsid == 4066 && numbers.setpgid == 4057
            && numbers.unshare == 4303 && numbers.setns == 4344 && numbers.clone == 4120
            && numbers.clone3 == 4435,
        numbers.socket == 5040 ==> numbers.setsid == 5110 && numbers.setpgid == 5107
            && numbers.unshare == 5262 && numbers.setns == 5303 && numbers.clone == 5055
            && numbers.clone3 == 5435,
        numbers.socket == 0x4000_0029 ==> numbers.setsid == 0x4000_0070
            && numbers.setpgid == 0x4000_006d && numbers.unshare == 0x4000_0110
            && numbers.setns == 0x4000_0134 && numbers.clone == 0x4000_0038
            && numbers.clone3 == 0x4000_01b3,
        numbers.socket == 359 ==> numbers.setsid == 66 && numbers.setpgid == 57 && numbers.clone == 120
            && numbers.clone3 == 435 && ((numbers.unshare == 310 && numbers.setns == 346) || (
        numbers.unshare == 303 && numbers.setns == 339)),
{
    let calls: [i64; 7] = libc_calls();
    let numbers = SyscallNumbers {
        socket: calls[0],
        setsid: calls[1],
        setpgid: calls[2],
        unshare: calls[3],
        setns: calls[4],
        fork,
        vfork,
        clone: calls[5],
        clone3: calls[6],
    };
    proof {
        let common = common_calls(numbers);
        assert(common =~= calls@.map_values(|number: i64| number as int));
        assert(common[0] == numbers.socket && common[1] == numbers.setsid && common[2]
            == numbers.setpgid && common[3] == numbers.unshare && common[4] == numbers.setns
            && common[5] == numbers.clone && common[6] == numbers.clone3);
        if fork != Some(numbers.socket) && vfork != Some(numbers.socket) {
            law_linux_socket_stands_apart(numbers);
        }
    }
    numbers
}

/// Builds the program that confines an application on a target that numbers
/// its system calls like this. Nothing is allocated: the program is made
/// between fork and exec.
pub fn install_filter(numbers: &SyscallNumbers) -> (program: [Instruction; 15])
    ensures
        program@ == filter_program(*numbers),
        program@[0] == (Instruction { code: 0x20, jt: 0, jf: 0, k: 0 }),
        program@[1].code == 0x15 && program@[1].jt == 9 && program@[1].jf == 0,
        program@[1].k == (if 0 <= numbers.socket <= 0xffff_ffff {
            numbers.socket as int
        } else {
            0xffff_ffffint
        }),
        program@[2].code == 0x15 && program@[2].jt == 10 && program@[2].jf == 0,
        program@[2].k == (if 0 <= numbers.setsid <= 0xffff_ffff {
            numbers.setsid as int
        } else {
            0xffff_ffffint
        }),
        program@[3].code == 0x15 && program@[3].jt == 9 && program@[3].jf == 0,
        program@[3].k == (if 0 <= numbers.setpgid <= 0xffff_ffff {
            numbers.setpgid as int
        } else {
            0xffff_ffffint
        }),
        program@[4].code == 0x15 && program@[4].jt == 8 && program@[4].jf == 0,
        program@[4].k == (if 0 <= numbers.unshare <= 0xffff_ffff {
            numbers.unshare as int
        } else {
            0xffff_ffffint
        }),
        program@[5].code == 0x15 && program@[5].jt == 7 && program@[5].jf == 0,
        program@[5].k == (if 0 <= numbers.setns <= 0xffff_ffff {
            numbers.setns as int
        } else {
            0xffff_ffffint
        }),
        program@[8].code == 0x15 && program@[8].jt == 4 && program@[8].jf == 0,
        program@[8].k == (if 0 <= numbers.clone <= 0xffff_ffff {
            numbers.clone as int
        } else {
            0xffff_ffffint
        }),
        program@[9].code == 0x15 && program@[9].jt == 3 && program@[9].jf == 0,
        program@[9].k == (if 0 <= numbers.clone3 <= 0xffff_ffff {
            numbers.clone3 as int
        } else {
            0xffff_ffffint
        }),
        program@[6].code == 0x15 && program@[6].jt == 6 && program@[6].jf == 0,
        program@[6].k == (if numbers.fork is Some && 0 <= numbers.fork->0 <= 0xffff_ffff {
            numbers.fork->0 as int
        } else {
            0xffff_ffffint
        }),
        program@[7].code == 0x15 && program@[7].jt == 5 && program@[7].jf == 0,
        program@[7].k == (if numbers.vfork is Some && 0 <= numbers.vfork->0 <= 0xffff_ffff {
            numbers.vfork->0 as int
        } else {
            0xffff_ffffint
        }),
        program@[10] == (Instruction { code: 0x06, jt: 0, jf: 0, k: 0x7fff_0000 }),
        program@[11] == (Instruction { code: 0x20, jt: 0, jf: 0, k: 16 }),
        program@[12] == (Instruction { code: 0x15, jt: 1, jf: 0, k: 1 }),
        program@[13] == (Instruction { code: 0x06, jt: 0, jf: 0, k: 0x0005_0001 }),
        program@[14] == (Instruction { code: 0x06, jt: 0, jf: 0, k: 0x7fff_0000 }),
        forall|data: SeccompData|
            data.well_formed() ==> #[trigger] execute(program@, data, 0, 0) == Some(
                policy(*numbers, data),
            ),
{
    let allow: u32 = seccomp_ret_allow();
    let refuse: u32 = seccomp_ret_errno() | eperm() as u32;
    proof {
        assert(0x0005_0000u32 | 1u32 == 0x0005_0001u32) by (bit_vector);
    }
    let program = [
        statement(LD_W_ABS, 0),
        jump(syscall(numbers.socket), 9, 0),
        jump(syscall(numbers.setsid), 10, 0),
        jump(syscall(numbers.setpgid), 9, 0),
        jump(syscall(numbers.unshare), 8, 0),
        jump(syscall(numbers.setns), 7, 0),
        jump(optional_syscall(numbers.fork), 6, 0),
        jump(optional_syscall(numbers.vfork), 5, 0),
        jump(syscall(numbers.clone), 4, 0),
        jump(syscall(numbers.clone3), 3, 0),
        statement(RET_K, allow),
        statement(LD_W_ABS, 16),
        jump(af_unix() as u32, 1, 0),
        statement(RET_K, refuse),
        statement(RET_K, allow),
    ];
    proof {
        assert(program@ =~= filter_program(*numbers));
        assert forall|data: SeccompData| data.well_formed() implies #[trigger] execute(
            program@,
            data,
            0,
            0,
        ) == Some(policy(*numbers, data)) by {
            law_filter_policy(*numbers, data);
        }
    }
    program
}

} // verus!
