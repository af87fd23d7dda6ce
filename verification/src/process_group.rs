//! Signals to everything a child has started.

use vstd::prelude::*;

use crate::failure::Failure;
use crate::process::Kill;
use crate::procfs::{parse_pid, parse_session};

verus! {

pub const SIGTERM: i32 = 15;
pub const SIGKILL: i32 = 9;

/// The call that signals the group of a leader, or why there is none. To
/// `kill(2)` zero stands for the caller's own group and minus one for every
/// process, so the ids 0 and 1 address no group of a leader.
pub open spec fn group_call(leader: u32, signal: i32) -> Result<Kill, Failure> {
    if leader < 2 {
        Err(Failure::LeaderHasNoGroup)
    } else if leader <= i32::MAX {
        Ok(Kill { pid: (-leader) as i32, signal })
    } else {
        Err(Failure::ProcessIdTooLarge)
    }
}

/// The call that sends a signal to every process in the group of a leader: a
/// negative id is `kill(2)`'s form for a group.
pub fn signal(leader: u32, signal_number: i32) -> (call: Result<Kill, Failure>)
    ensures
        call == group_call(leader, signal_number),
        call is Ok ==> call->Ok_0.pid < -1 && call->Ok_0.pid == -leader,
        call is Ok ==> call->Ok_0.signal == signal_number,
        call is Ok <==> 2 <= leader <= 0x7fff_ffff,
        leader < 2 ==> call == Err::<Kill, Failure>(Failure::LeaderHasNoGroup),
        leader > 0x7fff_ffff ==> call == Err::<Kill, Failure>(Failure::ProcessIdTooLarge),
{
    if leader < 2 {
        Err(Failure::LeaderHasNoGroup)
    } else if leader <= 0x7fff_ffff {
        Ok(Kill { pid: -(leader as i32), signal: signal_number })
    } else {
        Err(Failure::ProcessIdTooLarge)
    }
}

/// A walk over the process table that signals a session.
///
/// Terminal job control places foreground jobs in groups of their own, so the
/// leader's group is not enough: every process still attached to the session
/// is found by the session id in its `stat`.
#[derive(Clone, Copy, Debug, PartialEq, Eq)]
pub struct SessionSweep {
    pub leader: u32,
    pub signal: i32,
    /// Whether any process of the session has been seen.
    pub found: bool,
}

/// What the walk has come upon.
#[derive(Clone, Copy, Debug, PartialEq, Eq)]
pub enum SessionEvent<'a> {
    /// An entry of the process table, by its name.
    Entry(&'a str),
    /// The `stat` of a process. It is bytes rather than text, because the
    /// program's name in it may be anything.
    Stat(u32, &'a [u8]),
    /// An entry, its name as text or its process's `stat` is not to be had: the
    /// process may be gone.
    Missing,
    /// The end of the table.
    End,
    /// The table cannot be read.
    Unreadable,
}

/// What the walk does about it.
#[derive(Clone, Copy, Debug, PartialEq, Eq)]
pub enum SessionAction {
    /// Nothing: go on to the next entry.
    Skip,
    /// Read the `stat` of this process.
    ReadStat(u32),
    /// Make this call, whatever it comes to, and go on.
    Deliver(Kill),
    /// Stop: the session has been signalled.
    Finish,
    /// Make this call; what it comes to is what the walk came to.
    FallBack(Kill),
    /// Stop: not even the leader's group can be addressed.
    Fail(Failure),
}

/// What an entry calls for.
pub open spec fn entry_action(name: Seq<char>) -> SessionAction {
    match crate::procfs::parsed_id(name) {
        Some(pid) => SessionAction::ReadStat(pid),
        None => SessionAction::Skip,
    }
}

/// What a process's `stat` calls for.
pub open spec fn stat_action(sweep: SessionSweep, pid: u32, stat: Seq<u8>) -> SessionAction {
    if crate::procfs::session_of(stat) == Some(sweep.leader) && pid <= i32::MAX {
        SessionAction::Deliver(Kill { pid: pid as i32, signal: sweep.signal })
    } else {
        SessionAction::Skip
    }
}

/// The walk after a process's `stat`.
pub open spec fn after_stat(sweep: SessionSweep, stat: Seq<u8>) -> SessionSweep {
    SessionSweep {
        found: sweep.found || crate::procfs::session_of(stat) == Some(sweep.leader),
        ..sweep
    }
}

/// What the end of the table calls for, or a table that cannot be read: the
/// leader's group where no process of the session was seen.
pub open spec fn end_action(sweep: SessionSweep) -> SessionAction {
    if sweep.found {
        SessionAction::Finish
    } else {
        match group_call(sweep.leader, sweep.signal) {
            Ok(call) => SessionAction::FallBack(call),
            Err(failure) => SessionAction::Fail(failure),
        }
    }
}

/// Begins a walk that sends a signal to the session of a leader.
pub fn session_sweep(leader: u32, signal_number: i32) -> (sweep: SessionSweep)
    ensures
        sweep == (SessionSweep { leader, signal: signal_number, found: false }),
{
    SessionSweep { leader, signal: signal_number, found: false }
}

/// Takes one step of the walk that signals every process still attached to a
/// session.
pub fn signal_session(sweep: &mut SessionSweep, event: SessionEvent) -> (action: SessionAction)
    ensures
        event matches SessionEvent::Entry(name) ==> action == entry_action(name@) && *final(sweep)
            == *old(sweep),
        event matches SessionEvent::Stat(pid, stat) ==> action == stat_action(
            *old(sweep),
            pid,
            stat@,
        ) && *final(sweep) == after_stat(*old(sweep), stat@),
        event is Missing ==> action is Skip && *final(sweep) == *old(sweep),
        event is End || event is Unreadable ==> action == end_action(*old(sweep)) && *final(sweep)
            == *old(sweep),
        final(sweep).leader == old(sweep).leader && final(sweep).signal == old(sweep).signal,
        event matches SessionEvent::Entry(name) ==> match crate::procfs::parsed_id(name@) {
            Some(pid) => action == SessionAction::ReadStat(pid),
            None => action is Skip,
        },
        event matches SessionEvent::Stat(pid, stat) ==> {
            let ours = crate::procfs::session_of(stat@) == Some(old(sweep).leader);
            &&& final(sweep).found == (old(sweep).found || ours)
            &&& ours && pid <= 0x7fff_ffff ==> action == SessionAction::Deliver(
                Kill { pid: pid as i32, signal: old(sweep).signal },
            )
            &&& !ours || pid > 0x7fff_ffff ==> action is Skip
        },
        (event is End || event is Unreadable) && old(sweep).found ==> action is Finish,
        (event is End || event is Unreadable) && !old(sweep).found ==> {
            &&& old(sweep).leader < 2 ==> action == SessionAction::Fail(Failure::LeaderHasNoGroup)
            &&& 2 <= old(sweep).leader <= 0x7fff_ffff ==> action == SessionAction::FallBack(
                Kill { pid: (-old(sweep).leader) as i32, signal: old(sweep).signal },
            )
            &&& old(sweep).leader > 0x7fff_ffff ==> action == SessionAction::Fail(
                Failure::ProcessIdTooLarge,
            )
        },
{
    match event {
        SessionEvent::Entry(name) => match parse_pid(name) {
            Some(pid) => SessionAction::ReadStat(pid),
            None => SessionAction::Skip,
        },
        SessionEvent::Stat(pid, stat) => {
            let ours: bool = match parse_session(stat) {
                Some(session) => session == sweep.leader,
                None => false,
            };
            if ours {
                sweep.found = true;
                if pid <= 0x7fff_ffff {
                    SessionAction::Deliver(Kill { pid: pid as i32, signal: sweep.signal })
                } else {
                    SessionAction::Skip
                }
            } else {
                SessionAction::Skip
            }
        },
        SessionEvent::Missing => SessionAction::Skip,
        SessionEvent::End | SessionEvent::Unreadable => {
            if sweep.found {
                SessionAction::Finish
            } else {
                match signal(sweep.leader, sweep.signal) {
                    Ok(call) => SessionAction::FallBack(call),
                    Err(failure) => SessionAction::Fail(failure),
                }
            }
        },
    }
}

/// A process is signalled exactly where the fourth field behind its name is the
/// session, whatever its name, its other fields and its own group are, and it
/// is signalled by its own id with the signal that was asked for.
pub proof fn law_fourth_field_decides(
    sweep: SessionSweep,
    pid: u32,
    name: Seq<char>,
    fields: Seq<Seq<char>>,
    rest: Seq<char>,
)
    requires
        pid <= 0x7fff_ffff,
        fields.len() == 4,
        forall|k: int, i: int|
            0 <= k < 4 && 0 <= i < fields[k].len() ==> !crate::procfs::is_space(
                #[trigger] fields[k][i],
            ),
        forall|k: int| 0 <= k < 4 ==> (#[trigger] fields[k]).len() > 0,
        rest.len() == 0 || crate::procfs::is_space(rest[0]),
        forall|i: int| 0 <= i < rest.len() ==> #[trigger] rest[i] != ')',
        forall|k: int, i: int|
            0 <= k < 4 && 0 <= i < fields[k].len() ==> #[trigger] fields[k][i] != ')',
    ensures
        ({
            let stat = vstd::utf8::encode_utf8(
                name + seq![')', ' '] + (fields[0] + (seq![' '] + fields[1] + (seq![' '] + fields[2]
                    + (seq![' '] + fields[3] + rest)))),
            );
            &&& crate::procfs::parsed_id(fields[3]) == Some(sweep.leader) ==> stat_action(
                sweep,
                pid,
                stat,
            ) == SessionAction::Deliver(Kill { pid: pid as i32, signal: sweep.signal })
                && after_stat(sweep, stat).found
            &&& crate::procfs::parsed_id(fields[3]) != Some(sweep.leader) ==> stat_action(
                sweep,
                pid,
                stat,
            ) is Skip && after_stat(sweep, stat) == sweep
        }),
{
    let gaps = seq![Seq::<char>::empty(), seq![' '], seq![' '], seq![' ']];
    let all = fields[0] + (seq![' '] + fields[1] + (seq![' '] + fields[2] + (seq![' '] + fields[3]
        + rest)));
    crate::procfs::law_session_is_the_fourth_field(gaps, fields, rest);
    assert(gaps[0] + fields[0] =~= fields[0]);
    assert forall|i: int, j: int| 0 <= i && j == i + 1 && j < all.len() implies !(
    #[trigger] all[i] == ')' && #[trigger] all[j] == ' ') by {
        lemma_no_bracket(fields, rest, i);
    }
    crate::procfs::law_text_is_read_as_text(name, all);
}

proof fn lemma_no_bracket(fields: Seq<Seq<char>>, rest: Seq<char>, at: int)
    requires
        fields.len() == 4,
        forall|i: int| 0 <= i < rest.len() ==> #[trigger] rest[i] != ')',
        forall|k: int, i: int|
            0 <= k < 4 && 0 <= i < fields[k].len() ==> #[trigger] fields[k][i] != ')',
        0 <= at < fields[0].len() + fields[1].len() + fields[2].len() + fields[3].len() + rest.len()
            + 3,
    ensures
        (fields[0] + (seq![' '] + fields[1] + (seq![' '] + fields[2] + (seq![' '] + fields[3]
            + rest))))[at] != ')',
{
    let last = seq![' '] + fields[3] + rest;
    let third = seq![' '] + fields[2] + last;
    let second = seq![' '] + fields[1] + third;
    let all = fields[0] + second;
    let first_end = fields[0].len() as int;
    let second_end = first_end + 1 + fields[1].len();
    let third_end = second_end + 1 + fields[2].len();
    let fourth_end = third_end + 1 + fields[3].len();
    if at < first_end {
        assert(all[at] == fields[0][at]);
    } else if at < second_end {
        assert(all[at] == second[at - first_end]);
        if at > first_end {
            assert(all[at] == fields[1][at - first_end - 1]);
        }
    } else if at < third_end {
        assert(all[at] == third[at - second_end]);
        if at > second_end {
            assert(all[at] == fields[2][at - second_end - 1]);
        }
    } else if at < fourth_end {
        assert(all[at] == last[at - third_end]);
        if at > third_end {
            assert(all[at] == fields[3][at - third_end - 1]);
        }
    } else {
        assert(all[at] == rest[at - fourth_end]);
    }
}

/// One entry of a process table, with its `stat` where it has a readable one.
pub struct TableEntry {
    pub name: Seq<char>,
    pub stat: Option<Seq<u8>>,
}

/// Whether an entry is a process attached to a session.
pub open spec fn attached(leader: u32, entry: TableEntry) -> bool {
    &&& crate::procfs::parsed_id(entry.name) is Some
    &&& entry.stat is Some
    &&& crate::procfs::session_of(entry.stat->0) == Some(leader)
}

/// The calls that the walk makes over a table, and the walk at its end.
pub open spec fn swept(sweep: SessionSweep, table: Seq<TableEntry>) -> (SessionSweep, Seq<Kill>)
    decreases table.len(),
{
    if table.len() == 0 {
        (sweep, seq![])
    } else {
        let (before, calls) = swept(sweep, table.drop_last());
        let entry = table.last();
        match (entry_action(entry.name), entry.stat) {
            (SessionAction::ReadStat(pid), Some(stat)) => match stat_action(before, pid, stat) {
                SessionAction::Deliver(call) => (after_stat(before, stat), calls.push(call)),
                _ => (after_stat(before, stat), calls),
            },
            _ => (before, calls),
        }
    }
}

/// The call that an attached process gets.
pub open spec fn delivery(signal: i32, entry: TableEntry) -> Kill {
    Kill { pid: crate::procfs::parsed_id(entry.name)->0 as i32, signal }
}

/// Whether an entry is a process attached to a session that a signal can be
/// sent to.
pub open spec fn reachable(leader: u32, entry: TableEntry) -> bool {
    attached(leader, entry) && crate::procfs::parsed_id(entry.name)->0 <= i32::MAX
}

/// One call for each process of the session, in the order of the table.
pub open spec fn deliveries(sweep: SessionSweep, table: Seq<TableEntry>) -> Seq<Kill> {
    table.filter(|entry: TableEntry| reachable(sweep.leader, entry)).map_values(
        |entry: TableEntry| delivery(sweep.signal, entry),
    )
}

/// A walk over a whole table signals every process attached to the session
/// once, in the order of the table, and no other; and it turns to the leader's
/// group exactly where the table holds no process of the session.
pub proof fn law_session_is_signalled(sweep: SessionSweep, table: Seq<TableEntry>)
    requires
        !sweep.found,
    ensures
        ({
            let (end, calls) = swept(sweep, table);
            &&& end.leader == sweep.leader && end.signal == sweep.signal
            &&& calls == deliveries(sweep, table)
            &&& end.found <==> exists|i: int|
                0 <= i < table.len() && attached(sweep.leader, #[trigger] table[i])
            &&& end_action(end) is Finish <==> end.found
        }),
    decreases table.len(),
{
    reveal(Seq::filter);
    if table.len() == 0 {
        assert(deliveries(sweep, table) =~= seq![]);
    } else {
        let shorter = table.drop_last();
        law_session_is_signalled(sweep, shorter);
        let (before, calls) = swept(sweep, shorter);
        let (end, all) = swept(sweep, table);
        let last = table.len() - 1;
        if reachable(sweep.leader, table[last]) {
            assert(all =~= deliveries(sweep, table));
        }
        assert(end.found <==> exists|i: int|
            0 <= i < table.len() && attached(sweep.leader, #[trigger] table[i])) by {
            if before.found {
                let i = choose|i: int|
                    0 <= i < shorter.len() && attached(sweep.leader, #[trigger] shorter[i]);
                assert(table[i] == shorter[i]);
            }
            if exists|i: int| 0 <= i < table.len() && attached(sweep.leader, #[trigger] table[i]) {
                let i = choose|i: int|
                    0 <= i < table.len() && attached(sweep.leader, #[trigger] table[i]);
                if i < last {
                    assert(shorter[i] == table[i]);
                }
            }
            assert(table[last] == table.last());
        }
    }
}

/// A group is addressed by the negative of its leader's id, and two leaders
/// never share a call; the ids that address others and those that the platform
/// cannot express have none.
pub proof fn law_groups_have_their_own_call(first: u32, second: u32, signal: i32)
    ensures
        group_call(first, signal) is Ok <==> 2 <= first <= 0x7fff_ffff,
        group_call(first, signal) matches Ok(call) ==> call.pid + first == 0 && call.signal
            == signal,
        group_call(first, signal) is Ok && group_call(second, signal) == group_call(first, signal)
            ==> first == second,
{
}

/// A table that cannot be read is no failure by itself: the leader's group is
/// signalled in its place, and the walk fails only where there is no such
/// group or, as the caller then finds, where it cannot be signalled.
pub proof fn law_unreadable_table_falls_back(leader: u32, signal: i32)
    ensures
        ({
            let action = end_action(SessionSweep { leader, signal, found: false });
            match group_call(leader, signal) {
                Ok(call) => action == SessionAction::FallBack(call),
                Err(failure) => action == SessionAction::Fail(failure),
            }
        }),
{
}

} // verus!
