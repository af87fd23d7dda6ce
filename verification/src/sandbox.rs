//! Isolation of an application immediately before it starts.
//!
//! The application is a static binary that is not trusted with the daemon's
//! root identity or view of the filesystem. It enters a directory that holds
//! only itself and its socket, gives up new privileges, gets a seccomp filter
//! or, where the kernel has none, a network namespace of its own, and becomes
//! the unprivileged `nobody`.

use vstd::prelude::*;

use crate::failure::Failure;
use crate::process::Kill;
use crate::procfs::parse_pid;
use crate::step::Step;
use crate::text::c_path;

verus! {

/// The `nobody` identity, as user and as group.
pub const UNPRIVILEGED_ID: u32 = 65_534;

/// A prepared sandbox: the directory that becomes the application's root.
/// Nothing is allocated once it is prepared.
#[derive(Debug)]
pub struct Sandbox {
    root: Vec<u8>,
}

impl View for Sandbox {
    type V = Seq<u8>;

    /// The path of the root, without the NUL that closes it.
    closed spec fn view(&self) -> Seq<u8> {
        self.root@.drop_last()
    }
}

/// One call of the descent into a sandbox.
#[derive(Clone, Copy, Debug, PartialEq, Eq)]
pub enum DescentCall {
    /// `setpgid(0, 0)`: lead a process group.
    LeadGroup,
    /// `chroot` to the prepared root.
    ChangeRoot,
    /// `chdir("/")`.
    ChangeDirectory,
    /// `prctl(PR_SET_NO_NEW_PRIVS, 1)`.
    ForbidPrivileges,
    /// `prctl(PR_SET_SECCOMP)` with the filter.
    InstallFilter,
    /// `unshare(CLONE_NEWNET)`.
    UnshareNetwork,
    /// `setgroups` to none.
    DropGroups,
    /// `setgid` to this group.
    SetGroup(u32),
    /// `setuid` to this user.
    SetUser(u32),
}

/// What follows a call of the descent that came to this. A refused filter is
/// made up for by a network namespace; any other refusal ends the descent.
pub open spec fn after_call(call: DescentCall, came_to: Result<(), Failure>) -> Step<DescentCall> {
    match (call, came_to) {
        (DescentCall::InstallFilter, Err(_)) => Step::Perform(DescentCall::UnshareNetwork),
        (_, Err(failure)) => Step::Fail(failure),
        (DescentCall::LeadGroup, Ok(())) => Step::Perform(DescentCall::ChangeRoot),
        (DescentCall::ChangeRoot, Ok(())) => Step::Perform(DescentCall::ChangeDirectory),
        (DescentCall::ChangeDirectory, Ok(())) => Step::Perform(DescentCall::ForbidPrivileges),
        (DescentCall::ForbidPrivileges, Ok(())) => Step::Perform(DescentCall::InstallFilter),
        (DescentCall::InstallFilter, Ok(())) => Step::Perform(DescentCall::DropGroups),
        (DescentCall::UnshareNetwork, Ok(())) => Step::Perform(DescentCall::DropGroups),
        (DescentCall::DropGroups, Ok(())) => Step::Perform(DescentCall::SetGroup(UNPRIVILEGED_ID)),
        (DescentCall::SetGroup(_), Ok(())) => Step::Perform(DescentCall::SetUser(UNPRIVILEGED_ID)),
        (DescentCall::SetUser(_), Ok(())) => Step::Finish,
    }
}

impl Sandbox {
    #[verifier::type_invariant]
    spec fn root_is_one_path(self) -> bool {
        &&& self.root@.len() > 0
        &&& self.root@.last() == 0
        &&& !self.root@.drop_last().contains(0u8)
    }

    /// Prepares a sandbox rooted at a path. A path that holds a NUL byte is
    /// refused: the kernel would enter some other directory.
    pub fn new(root: &[u8]) -> (sandbox: Result<Sandbox, Failure>)
        ensures
            root@.contains(0u8) ==> sandbox == Err::<Sandbox, Failure>(Failure::SandboxPathHasNul),
            !root@.contains(0u8) ==> sandbox is Ok && sandbox->Ok_0@ == root@,
    {
        match c_path(root) {
            Some(terminated) => {
                assert(terminated@.drop_last() =~= root@);
                Ok(Sandbox { root: terminated })
            },
            None => Err(Failure::SandboxPathHasNul),
        }
    }

    /// The root as the kernel takes it: its path, closed by the only NUL.
    pub fn root_path(&self) -> (path: &[u8])
        ensures
            path@ == self@.push(0u8),
            !self@.contains(0u8),
    {
        proof {
            use_type_invariant(self);
            assert(self.root@ =~= self.root@.drop_last().push(0u8));
        }
        self.root.as_slice()
    }

    /// Takes one step of the descent: given the last call and what it came to,
    /// or nothing at the start, what to do next. The descent runs between fork
    /// and exec, and it cannot be undone.
    pub fn enter(&self, performed: Option<(DescentCall, Result<(), Failure>)>) -> (next: Step<
        DescentCall,
    >)
        ensures
            performed is None ==> next == Step::Perform(DescentCall::LeadGroup),
            performed matches Some((call, came_to)) ==> next == after_call(call, came_to),
            performed matches Some((call, Err(failure))) ==> if call is InstallFilter {
                next == Step::Perform(DescentCall::UnshareNetwork)
            } else {
                next == Step::<DescentCall>::Fail(failure)
            },
            performed matches Some((call, Ok(()))) ==> {
                &&& call is LeadGroup ==> next == Step::Perform(DescentCall::ChangeRoot)
                &&& call is ChangeRoot ==> next == Step::Perform(DescentCall::ChangeDirectory)
                &&& call is ChangeDirectory ==> next == Step::Perform(DescentCall::ForbidPrivileges)
                &&& call is ForbidPrivileges ==> next == Step::Perform(DescentCall::InstallFilter)
                &&& call is InstallFilter ==> next == Step::Perform(DescentCall::DropGroups)
                &&& call is UnshareNetwork ==> next == Step::Perform(DescentCall::DropGroups)
                &&& call is DropGroups ==> next == Step::Perform(DescentCall::SetGroup(65_534))
                &&& call is SetGroup ==> next == Step::Perform(DescentCall::SetUser(65_534))
                &&& call is SetUser ==> next is Finish
            },
    {
        match performed {
            None => Step::Perform(DescentCall::LeadGroup),
            Some((call, Err(failure))) => match call {
                DescentCall::InstallFilter => Step::Perform(DescentCall::UnshareNetwork),
                _ => Step::Fail(failure),
            },
            Some((call, Ok(()))) => match call {
                DescentCall::LeadGroup => Step::Perform(DescentCall::ChangeRoot),
                DescentCall::ChangeRoot => Step::Perform(DescentCall::ChangeDirectory),
                DescentCall::ChangeDirectory => Step::Perform(DescentCall::ForbidPrivileges),
                DescentCall::ForbidPrivileges => Step::Perform(DescentCall::InstallFilter),
                DescentCall::InstallFilter => Step::Perform(DescentCall::DropGroups),
                DescentCall::UnshareNetwork => Step::Perform(DescentCall::DropGroups),
                DescentCall::DropGroups => Step::Perform(DescentCall::SetGroup(UNPRIVILEGED_ID)),
                DescentCall::SetGroup(_) => Step::Perform(DescentCall::SetUser(UNPRIVILEGED_ID)),
                DescentCall::SetUser(_) => Step::Finish,
            },
        }
    }
}

/// Where a descent stands that waits for `call` and is then told, one by one,
/// what its calls came to.
pub open spec fn descend(call: DescentCall, told: Seq<Result<(), Failure>>) -> Step<DescentCall>
    decreases told.len(),
{
    if told.len() == 0 {
        Step::Perform(call)
    } else {
        match after_call(call, told[0]) {
            Step::Perform(next) => descend(next, told.skip(1)),
            end => end,
        }
    }
}

/// Whether the calls from `start` up to `end` all succeeded.
pub open spec fn all_succeeded(told: Seq<Result<(), Failure>>, start: int, end: int) -> bool {
    forall|i: int| start <= i < end ==> #[trigger] told[i] is Ok
}

/// A descent finishes exactly where every call succeeds: the eight without a
/// refusal, or nine where the filter is refused and the network namespace
/// stands in for it.
pub proof fn law_descent_finishes(told: Seq<Result<(), Failure>>)
    ensures
        descend(DescentCall::LeadGroup, told) is Finish <==> {
            ||| told.len() >= 8 && all_succeeded(told, 0, 8)
            ||| told.len() >= 9 && all_succeeded(told, 0, 4) && told[4] is Err && all_succeeded(
                told,
                5,
                9,
            )
        },
{
    reveal_with_fuel(descend, 11);
    lemma_skips(told);
    if told.len() >= 8 && all_succeeded(told, 0, 8) {
        assert(told[0] is Ok && told[1] is Ok && told[2] is Ok && told[3] is Ok);
        assert(told[4] is Ok && told[5] is Ok && told[6] is Ok && told[7] is Ok);
    }
    if told.len() >= 9 && all_succeeded(told, 0, 4) && told[4] is Err && all_succeeded(told, 5, 9) {
        assert(told[0] is Ok && told[1] is Ok && told[2] is Ok && told[3] is Ok);
        assert(told[5] is Ok && told[6] is Ok && told[7] is Ok && told[8] is Ok);
    }
}

proof fn lemma_skips(told: Seq<Result<(), Failure>>)
    ensures
        forall|i: int, j: int|
            0 <= i && 0 <= j && i + j <= told.len() ==> #[trigger] told.skip(i).skip(j) == told.skip(
                i + j,
            ),
{
    assert forall|i: int, j: int| 0 <= i && 0 <= j && i + j <= told.len() implies #[trigger] told.skip(
        i,
    ).skip(j) == told.skip(i + j) by {
        assert(told.skip(i).skip(j) =~= told.skip(i + j));
    }
}

/// Whether a descent that was told this has a network boundary: the filter, or
/// a namespace of its own in the filter's place.
pub open spec fn bounded(told: Seq<Result<(), Failure>>) -> bool {
    &&& told.len() >= 5 && all_succeeded(told, 0, 4)
    &&& told[4] is Ok || (told.len() >= 6 && told[5] is Ok)
}

/// The root identity is given up only inside the new root, with no way to new
/// privileges and behind a network boundary, and what it is given up for is
/// the unprivileged identity.
pub proof fn law_identity_drops_inside_the_boundary(told: Seq<Result<(), Failure>>)
    ensures
        descend(DescentCall::LeadGroup, told) matches Step::Perform(call) ==> {
            &&& call is DropGroups || call is SetGroup || call is SetUser ==> bounded(told)
            &&& call matches DescentCall::SetGroup(id) ==> id == UNPRIVILEGED_ID
            &&& call matches DescentCall::SetUser(id) ==> id == UNPRIVILEGED_ID
        },
        descend(DescentCall::LeadGroup, told) is Finish ==> bounded(told),
{
    reveal_with_fuel(descend, 11);
    lemma_skips(told);
}

/// A descent never finishes after a refusal other than the filter's: it ends
/// with that refusal.
pub proof fn law_first_refusal_ends_the_descent(told: Seq<Result<(), Failure>>, at: int)
    requires
        0 <= at < told.len(),
        at != 4,
        told[at] is Err,
        at < 8 || (told[4] is Err && at < 9),
        forall|i: int| 0 <= i < at && i != 4 ==> #[trigger] told[i] is Ok,
    ensures
        descend(DescentCall::LeadGroup, told) == Step::<DescentCall>::Fail(told[at]->Err_0),
{
    reveal_with_fuel(descend, 11);
    lemma_skips(told);
    assert(at > 0 ==> told[0] is Ok);
    assert(at > 1 ==> told[1] is Ok);
    assert(at > 2 ==> told[2] is Ok);
    assert(at > 3 ==> told[3] is Ok);
    assert(at > 5 ==> told[5] is Ok);
    assert(at > 6 ==> told[6] is Ok);
    assert(at > 7 ==> told[7] is Ok);
}

/// Whether a process with this effective user id may prepare and enter a
/// sandbox.
#[must_use]
pub fn is_root(effective_user: u32) -> (root: bool)
    ensures
        root == (effective_user == 0),
{
    effective_user == 0
}

/// What tells one directory from every other: its device and its inode.
#[derive(Clone, Copy, Debug, PartialEq, Eq, Structural)]
pub struct Identity {
    pub device: u64,
    pub inode: u64,
}

/// A walk over the process table that signals whoever lives in a sandbox.
///
/// Even a descendant that changed its process group still carries the root
/// directory that it was given, and is found by it.
#[derive(Clone, Copy, Debug, PartialEq, Eq)]
pub struct Sweep {
    /// The sandbox's root.
    pub wanted: Identity,
    /// The process that walks, which is never signalled.
    pub own: u32,
    pub signal: i32,
    /// How many processes have been signalled.
    pub signalled: usize,
}

/// What the walk has come upon.
#[derive(Clone, Copy, Debug, PartialEq, Eq)]
pub enum SweepEvent<'a> {
    /// An entry of the process table, by its name.
    Entry(&'a str),
    /// The root directory of a process.
    Root(u32, Identity),
    /// An entry, its name as text or its process's root directory is not to be
    /// had: the process may be gone.
    Missing,
    /// What a delivered call came to: the result of `kill(2)`.
    Delivered(i32),
    /// The end of the table.
    End,
}

/// What the walk does about it.
#[derive(Clone, Copy, Debug, PartialEq, Eq)]
pub enum SweepAction {
    /// Nothing: go on to the next entry.
    Skip,
    /// Look up the root directory of this process.
    LookUpRoot(u32),
    /// Make this call, report its result, and go on.
    Deliver(Kill),
    /// Stop: this many processes were signalled.
    Finish(usize),
}

/// What an entry calls for.
pub open spec fn entry_action(own: u32, name: Seq<char>) -> SweepAction {
    match crate::procfs::parsed_id(name) {
        Some(pid) => if pid == own {
            SweepAction::Skip
        } else {
            SweepAction::LookUpRoot(pid)
        },
        None => SweepAction::Skip,
    }
}

/// What a process's root directory calls for.
pub open spec fn root_action(sweep: Sweep, pid: u32, root: Identity) -> SweepAction {
    if root == sweep.wanted && pid <= i32::MAX {
        SweepAction::Deliver(Kill { pid: pid as i32, signal: sweep.signal })
    } else {
        SweepAction::Skip
    }
}

/// How many processes have been signalled after a call came to this.
pub open spec fn counted(signalled: int, result: i32) -> int {
    if result == 0 {
        signalled + 1
    } else {
        signalled
    }
}

/// Begins a walk that sends a signal to whoever lives in a sandbox.
pub fn sweep(wanted: Identity, own: u32, signal_number: i32) -> (begun: Sweep)
    ensures
        begun == (Sweep { wanted, own, signal: signal_number, signalled: 0 }),
{
    Sweep { wanted, own, signal: signal_number, signalled: 0 }
}

/// Takes one step of the walk that signals every process whose filesystem root
/// is a sandbox.
pub fn signal(sweep: &mut Sweep, event: SweepEvent) -> (action: SweepAction)
    requires
        event is Delivered ==> old(sweep).signalled < usize::MAX,
    ensures
        event matches SweepEvent::Entry(name) ==> action == entry_action(old(sweep).own, name@)
            && *final(sweep) == *old(sweep),
        event matches SweepEvent::Root(pid, root) ==> action == root_action(*old(sweep), pid, root)
            && *final(sweep) == *old(sweep),
        event matches SweepEvent::Delivered(result) ==> action is Skip && *final(sweep) == (Sweep {
            signalled: counted(old(sweep).signalled as int, result) as usize,
            ..*old(sweep)
        }),
        event is Missing ==> action is Skip && *final(sweep) == *old(sweep),
        event is End ==> action == SweepAction::Finish(old(sweep).signalled) && *final(sweep)
            == *old(sweep),
        final(sweep).wanted == old(sweep).wanted && final(sweep).own == old(sweep).own
            && final(sweep).signal == old(sweep).signal,
        event matches SweepEvent::Entry(name) ==> match crate::procfs::parsed_id(name@) {
            Some(pid) => if pid == old(sweep).own {
                action is Skip
            } else {
                action == SweepAction::LookUpRoot(pid)
            },
            None => action is Skip,
        },
        event matches SweepEvent::Root(pid, root) ==> if root.device == old(sweep).wanted.device
            && root.inode == old(sweep).wanted.inode && pid <= 0x7fff_ffff {
            action == SweepAction::Deliver(Kill { pid: pid as i32, signal: old(sweep).signal })
        } else {
            action is Skip
        },
        event matches SweepEvent::Delivered(result) ==> final(sweep).signalled == old(
            sweep,
        ).signalled + (if result == 0 {
            1int
        } else {
            0int
        }),
{
    match event {
        SweepEvent::Entry(name) => match parse_pid(name) {
            Some(pid) => {
                if pid == sweep.own {
                    SweepAction::Skip
                } else {
                    SweepAction::LookUpRoot(pid)
                }
            },
            None => SweepAction::Skip,
        },
        SweepEvent::Root(pid, root) => {
            if root.device != sweep.wanted.device || root.inode != sweep.wanted.inode {
                SweepAction::Skip
            } else if pid <= 0x7fff_ffff {
                SweepAction::Deliver(Kill { pid: pid as i32, signal: sweep.signal })
            } else {
                SweepAction::Skip
            }
        },
        SweepEvent::Delivered(result) => {
            if result == 0 {
                sweep.signalled = sweep.signalled + 1;
            }
            SweepAction::Skip
        },
        SweepEvent::Missing => SweepAction::Skip,
        SweepEvent::End => SweepAction::Finish(sweep.signalled),
    }
}

/// One entry of a process table: its name, its root directory where that can
/// be looked up, and what a signal to it would come to.
pub struct TableEntry {
    pub name: Seq<char>,
    pub root: Option<Identity>,
    pub kill_result: i32,
}

/// Whether an entry is a process that lives in the sandbox and is not the one
/// that walks.
pub open spec fn lives_in(sweep: Sweep, entry: TableEntry) -> bool {
    &&& crate::procfs::parsed_id(entry.name) is Some
    &&& crate::procfs::parsed_id(entry.name)->0 != sweep.own
    &&& crate::procfs::parsed_id(entry.name)->0 <= i32::MAX
    &&& entry.root == Some(sweep.wanted)
}

/// The call that an inhabitant gets.
pub open spec fn delivery(signal: i32, entry: TableEntry) -> Kill {
    Kill { pid: crate::procfs::parsed_id(entry.name)->0 as i32, signal }
}

/// The calls that the walk makes over a table, and how many succeed.
pub open spec fn swept(sweep: Sweep, table: Seq<TableEntry>) -> (int, Seq<Kill>)
    decreases table.len(),
{
    if table.len() == 0 {
        (sweep.signalled as int, seq![])
    } else {
        let (signalled, calls) = swept(sweep, table.drop_last());
        let entry = table.last();
        match (entry_action(sweep.own, entry.name), entry.root) {
            (SweepAction::LookUpRoot(pid), Some(root)) => match root_action(sweep, pid, root) {
                SweepAction::Deliver(call) => (
                    counted(signalled, entry.kill_result),
                    calls.push(call),
                ),
                _ => (signalled, calls),
            },
            _ => (signalled, calls),
        }
    }
}

/// A process is signalled exactly where both the device and the inode of its
/// root are the sandbox's, by its own id and with the signal that was asked
/// for; and the count grows by one exactly where a signal was delivered.
pub proof fn law_root_decides(sweep: Sweep, pid: u32, root: Identity, result: i32)
    requires
        pid <= 0x7fff_ffff,
    ensures
        root_action(sweep, pid, root) is Skip <==> root.device != sweep.wanted.device || root.inode
            != sweep.wanted.inode,
        root_action(sweep, pid, root) matches SweepAction::Deliver(call) ==> call.pid == pid
            && call.signal == sweep.signal,
        root_action(sweep, pid, root) is Skip || root_action(sweep, pid, root) is Deliver,
        counted(sweep.signalled as int, result) - sweep.signalled == (if result == 0 {
            1int
        } else {
            0int
        }),
{
}

/// How many inhabitants of the sandbox a signal reaches.
pub open spec fn reached(sweep: Sweep, table: Seq<TableEntry>) -> int
    decreases table.len(),
{
    if table.len() == 0 {
        0
    } else if lives_in(sweep, table.last()) && table.last().kill_result == 0 {
        reached(sweep, table.drop_last()) + 1
    } else {
        reached(sweep, table.drop_last())
    }
}

/// One call for each inhabitant of the sandbox, in the order of the table.
pub open spec fn deliveries(sweep: Sweep, table: Seq<TableEntry>) -> Seq<Kill> {
    table.filter(|entry: TableEntry| lives_in(sweep, entry)).map_values(
        |entry: TableEntry| delivery(sweep.signal, entry),
    )
}

/// A walk over a whole table signals every process that lives in the sandbox
/// once, in the order of the table, never the one that walks, and nobody else;
/// and it counts those that the signal reached.
pub proof fn law_inhabitants_are_signalled(sweep: Sweep, table: Seq<TableEntry>)
    ensures
        ({
            let (signalled, calls) = swept(sweep, table);
            &&& signalled == sweep.signalled + reached(sweep, table)
            &&& calls == deliveries(sweep, table)
            &&& forall|j: int| 0 <= j < calls.len() ==> (#[trigger] calls[j]).pid != sweep.own
        }),
    decreases table.len(),
{
    reveal(Seq::filter);
    if table.len() == 0 {
        assert(deliveries(sweep, table) =~= seq![]);
    } else {
        law_inhabitants_are_signalled(sweep, table.drop_last());
        if lives_in(sweep, table.last()) {
            assert(swept(sweep, table).1 =~= deliveries(sweep, table));
        }
    }
}

} // verus!
