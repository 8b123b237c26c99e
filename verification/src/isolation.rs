//! The filesystem isolation sequence.
//!
//! Run inside the child context, strictly after namespace creation and
//! strictly before image replacement, the sequence makes a prepared root
//! directory the effective filesystem root and ensures a usable `/proc`
//! inside it. The ordered steps are: enter the prepared root, switch the
//! filesystem root to it, enter the top of the new root (so no relative
//! path can lead back outside), ensure a `/proc` directory exists, scan
//! the mount table for an existing `/proc` entry, and mount the
//! process-information filesystem only when no entry was found.
//!
//! The library holds the decisions; the unverified runner performs each
//! requested action against the operating system and reports the outcome
//! back as an event. `machine_run` gives the meaning of a whole run against
//! a model of the world the actions touch, and the proof functions at the
//! end state the laws of the sequence over it.

use vstd::prelude::*;
use crate::mount_table::proc_path;

verus! {

/// Which step of the isolation sequence failed.
#[derive(Clone, Copy, Debug, PartialEq, Eq, Structural)]
pub enum IsolateError {
    /// The prepared root could not be entered: the path is missing or
    /// inaccessible. Reported before any root switch is attempted.
    EnterRootFailed,
    /// The root switch itself failed, typically for want of privilege.
    RootSwitchFailed,
    /// The top of the new root could not be entered after the switch.
    EnterNewRootFailed,
    /// No `/proc` directory existed and none could be created.
    ProcDirFailed,
    /// The process-information filesystem could not be mounted.
    MountFailed,
}

/// The stations of the isolation sequence, in order.
#[derive(Clone, Copy, Debug, PartialEq, Eq, Structural)]
pub enum IsolateState {
    /// Nothing done yet.
    Start,
    /// The working directory is the prepared root.
    EnteredRoot,
    /// The filesystem root is the prepared directory.
    Switched,
    /// The working directory is the top of the new root.
    AtNewRoot,
    /// A directory `/proc` exists inside the new root.
    ProcDirReady,
    /// The mount-table scan found no `/proc` entry, so one must be mounted.
    NeedsMount,
    /// Isolation is complete.
    Done,
    /// Isolation aborted at the named step.
    Failed { error: IsolateError },
}

/// What the runner is asked to do next.
#[derive(Clone, Copy, Debug, PartialEq, Eq, Structural)]
pub enum IsolateAction {
    /// Change the working directory to the prepared root path.
    EnterRoot,
    /// Switch the filesystem root to the prepared root path.
    SwitchRoot,
    /// Change the working directory to `/` inside the new root.
    EnterNewRoot,
    /// Create the directory `/proc` (and missing parents) unless it exists.
    EnsureProcDir,
    /// Read the mount table and scan it for a `/proc` entry.
    CheckMounts,
    /// Mount the process-information filesystem at `/proc`, disallowing
    /// set-user-ID semantics and device-node access through it.
    MountProc,
    /// Isolation is complete; hand over to image replacement.
    Finish,
    /// Isolation failed; the child must terminate with a non-zero status.
    Abort { error: IsolateError },
}

/// What the runner reports back about the last action.
#[derive(Clone, Copy, Debug, PartialEq, Eq, Structural)]
pub enum IsolateEvent {
    /// The action succeeded.
    Completed,
    /// The action failed.
    Failed,
    /// Outcome of the mount-table scan. A runner that could not read the
    /// table reports `mounted: false`: the conservative reading that risks
    /// a duplicate-mount failure rather than a missing `/proc`.
    Checked { mounted: bool },
}

/// The action owed in each state.
pub open spec fn spec_action(s: IsolateState) -> IsolateAction {
    match s {
        IsolateState::Start => IsolateAction::EnterRoot,
        IsolateState::EnteredRoot => IsolateAction::SwitchRoot,
        IsolateState::Switched => IsolateAction::EnterNewRoot,
        IsolateState::AtNewRoot => IsolateAction::EnsureProcDir,
        IsolateState::ProcDirReady => IsolateAction::CheckMounts,
        IsolateState::NeedsMount => IsolateAction::MountProc,
        IsolateState::Done => IsolateAction::Finish,
        IsolateState::Failed { error } => IsolateAction::Abort { error },
    }
}

/// The state reached when the runner answers `e` in state `s`.
///
/// A failure at a step aborts with that step's error. At the scan step any
/// answer other than a scan outcome is read as "not mounted", the same
/// conservative choice a runner makes for an unreadable table. The two
/// final states absorb every further event.
pub open spec fn spec_step(s: IsolateState, e: IsolateEvent) -> IsolateState {
    match s {
        IsolateState::Start => match e {
            IsolateEvent::Completed => IsolateState::EnteredRoot,
            _ => IsolateState::Failed { error: IsolateError::EnterRootFailed },
        },
        IsolateState::EnteredRoot => match e {
            IsolateEvent::Completed => IsolateState::Switched,
            _ => IsolateState::Failed { error: IsolateError::RootSwitchFailed },
        },
        IsolateState::Switched => match e {
            IsolateEvent::Completed => IsolateState::AtNewRoot,
            _ => IsolateState::Failed { error: IsolateError::EnterNewRootFailed },
        },
        IsolateState::AtNewRoot => match e {
            IsolateEvent::Completed => IsolateState::ProcDirReady,
            _ => IsolateState::Failed { error: IsolateError::ProcDirFailed },
        },
        IsolateState::ProcDirReady => match e {
            IsolateEvent::Checked { mounted } => if mounted {
                IsolateState::Done
            } else {
                IsolateState::NeedsMount
            },
            _ => IsolateState::NeedsMount,
        },
        IsolateState::NeedsMount => match e {
            IsolateEvent::Completed => IsolateState::Done,
            _ => IsolateState::Failed { error: IsolateError::MountFailed },
        },
        IsolateState::Done => IsolateState::Done,
        IsolateState::Failed { error } => IsolateState::Failed { error },
    }
}

/// A state from which the sequence asks no further action of the runner.
pub open spec fn spec_final(s: IsolateState) -> bool {
    s == IsolateState::Done || (s is Failed)
}

/// The action owed in state `s`, exactly as `spec_action` states it.
pub fn isolate_action(s: IsolateState) -> (a: IsolateAction)
    ensures
        a == spec_action(s),
{
    match s {
        IsolateState::Start => IsolateAction::EnterRoot,
        IsolateState::EnteredRoot => IsolateAction::SwitchRoot,
        IsolateState::Switched => IsolateAction::EnterNewRoot,
        IsolateState::AtNewRoot => IsolateAction::EnsureProcDir,
        IsolateState::ProcDirReady => IsolateAction::CheckMounts,
        IsolateState::NeedsMount => IsolateAction::MountProc,
        IsolateState::Done => IsolateAction::Finish,
        IsolateState::Failed { error } => IsolateAction::Abort { error },
    }
}

/// The transition taken on event `e` in state `s`, exactly as `spec_step`
/// states it.
pub fn isolate_step(s: IsolateState, e: IsolateEvent) -> (r: IsolateState)
    ensures
        r == spec_step(s, e),
{
    match s {
        IsolateState::Start => match e {
            IsolateEvent::Completed => IsolateState::EnteredRoot,
            _ => IsolateState::Failed { error: IsolateError::EnterRootFailed },
        },
        IsolateState::EnteredRoot => match e {
            IsolateEvent::Completed => IsolateState::Switched,
            _ => IsolateState::Failed { error: IsolateError::RootSwitchFailed },
        },
        IsolateState::Switched => match e {
            IsolateEvent::Completed => IsolateState::AtNewRoot,
            _ => IsolateState::Failed { error: IsolateError::EnterNewRootFailed },
        },
        IsolateState::AtNewRoot => match e {
            IsolateEvent::Completed => IsolateState::ProcDirReady,
            _ => IsolateState::Failed { error: IsolateError::ProcDirFailed },
        },
        IsolateState::ProcDirReady => match e {
            IsolateEvent::Checked { mounted } => if mounted {
                IsolateState::Done
            } else {
                IsolateState::NeedsMount
            },
            _ => IsolateState::NeedsMount,
        },
        IsolateState::NeedsMount => match e {
            IsolateEvent::Completed => IsolateState::Done,
            _ => IsolateState::Failed { error: IsolateError::MountFailed },
        },
        IsolateState::Done => IsolateState::Done,
        IsolateState::Failed { error } => IsolateState::Failed { error },
    }
}

/// No action is owed in state `s`, exactly as `spec_final` states it.
pub fn isolate_finished(s: IsolateState) -> (r: bool)
    ensures
        r == spec_final(s),
{
    match s {
        IsolateState::Done => true,
        IsolateState::Failed { .. } => true,
        _ => false,
    }
}

/// Where the working directory of the child context points.
#[derive(PartialEq, Eq, Structural)]
pub enum CwdPlace {
    /// Wherever it pointed on the host before isolation began.
    Host,
    /// The prepared root directory, reached by path on the host.
    PreparedRoot,
    /// The top of the new root, after the switch.
    NewRootTop,
}

/// A model of everything the isolation sequence observes or changes.
///
/// The mount table of the child's mount namespace is carried as the
/// sequence of its mount-point names; `mount_table::lists_proc` states how
/// the scan recognizes the `/proc` entry in the table's text form.
pub struct IsoWorld {
    /// The prepared root directory exists and is accessible.
    pub root_exists: bool,
    /// The process holds the privilege to switch its filesystem root.
    pub can_switch_root: bool,
    /// A directory `/proc` already exists inside the new root.
    pub proc_dir_exists: bool,
    /// The entries inside that directory, as opaque names.
    pub proc_dir_entries: Seq<int>,
    /// A missing `/proc` directory could be created.
    pub can_make_proc_dir: bool,
    /// The mount points of the mount namespace's table, in order.
    pub mounts: Seq<Seq<u8>>,
    /// The mount table can be read back as text; when it cannot, the scan
    /// conservatively reports that no `/proc` entry was found.
    pub table_readable: bool,
    /// The kernel can mount a process-information filesystem at `/proc`.
    pub procfs_available: bool,
    /// Where the working directory points.
    pub cwd: CwdPlace,
    /// The filesystem root has been switched to the prepared directory.
    pub root_switched: bool,
}

/// How the world answers each action.
pub open spec fn world_respond(w: IsoWorld, a: IsolateAction) -> IsolateEvent {
    match a {
        IsolateAction::EnterRoot => if w.root_exists {
            IsolateEvent::Completed
        } else {
            IsolateEvent::Failed
        },
        IsolateAction::SwitchRoot => if w.root_exists && w.can_switch_root {
            IsolateEvent::Completed
        } else {
            IsolateEvent::Failed
        },
        IsolateAction::EnterNewRoot => IsolateEvent::Completed,
        IsolateAction::EnsureProcDir => if w.proc_dir_exists || w.can_make_proc_dir {
            IsolateEvent::Completed
        } else {
            IsolateEvent::Failed
        },
        IsolateAction::CheckMounts => IsolateEvent::Checked {
            mounted: w.table_readable && w.mounts.contains(proc_path()),
        },
        IsolateAction::MountProc => if w.procfs_available {
            IsolateEvent::Completed
        } else {
            IsolateEvent::Failed
        },
        IsolateAction::Finish => IsolateEvent::Completed,
        IsolateAction::Abort { .. } => IsolateEvent::Completed,
    }
}

/// How each action changes the world. A failed action changes nothing;
/// ensuring a directory that already exists changes nothing; a successful
/// mount appends one `/proc` entry to the table.
pub open spec fn world_apply(w: IsoWorld, a: IsolateAction) -> IsoWorld {
    match a {
        IsolateAction::EnterRoot => if w.root_exists {
            IsoWorld { cwd: CwdPlace::PreparedRoot, ..w }
        } else {
            w
        },
        IsolateAction::SwitchRoot => if w.root_exists && w.can_switch_root {
            IsoWorld { root_switched: true, ..w }
        } else {
            w
        },
        IsolateAction::EnterNewRoot => IsoWorld { cwd: CwdPlace::NewRootTop, ..w },
        IsolateAction::EnsureProcDir => if w.proc_dir_exists {
            w
        } else if w.can_make_proc_dir {
            IsoWorld { proc_dir_exists: true, proc_dir_entries: Seq::empty(), ..w }
        } else {
            w
        },
        IsolateAction::CheckMounts => w,
        IsolateAction::MountProc => if w.procfs_available {
            IsoWorld { mounts: w.mounts.push(proc_path()), ..w }
        } else {
            w
        },
        IsolateAction::Finish => w,
        IsolateAction::Abort { .. } => w,
    }
}

/// What one whole run of the sequence came to.
pub struct IsoRun {
    /// The world as the run left it.
    pub world: IsoWorld,
    /// `None` on success; otherwise the step that failed.
    pub result: Option<IsolateError>,
    /// Whether a root switch was ever asked of the runner.
    pub switch_attempted: bool,
    /// Whether a `/proc` mount was ever asked of the runner.
    pub mount_attempted: bool,
}

/// How many steps a state can still take.
pub open spec fn iso_rank(s: IsolateState) -> nat {
    match s {
        IsolateState::Start => 6,
        IsolateState::EnteredRoot => 5,
        IsolateState::Switched => 4,
        IsolateState::AtNewRoot => 3,
        IsolateState::ProcDirReady => 2,
        IsolateState::NeedsMount => 1,
        IsolateState::Done => 0,
        IsolateState::Failed { .. } => 0,
    }
}

/// The run of the isolation sequence from state `s` against world `w`:
/// in each non-final state the owed action is performed, the world answers
/// and changes as it says, and the machine steps on.
pub open spec fn machine_run(s: IsolateState, w: IsoWorld) -> IsoRun
    decreases iso_rank(s),
{
    if spec_final(s) {
        IsoRun {
            world: w,
            result: match s {
                IsolateState::Failed { error } => Some(error),
                _ => None,
            },
            switch_attempted: false,
            mount_attempted: false,
        }
    } else {
        let a = spec_action(s);
        let ev = world_respond(w, a);
        let sub = machine_run(spec_step(s, ev), world_apply(w, a));
        IsoRun {
            world: sub.world,
            result: sub.result,
            switch_attempted: sub.switch_attempted || a == IsolateAction::SwitchRoot,
            mount_attempted: sub.mount_attempted || a == IsolateAction::MountProc,
        }
    }
}

/// The run of the whole sequence, from its start.
pub open spec fn isolate_run(w: IsoWorld) -> IsoRun {
    machine_run(IsolateState::Start, w)
}

/// How many entries of the mount table are `/proc` entries.
pub open spec fn proc_entry_count(mounts: Seq<Seq<u8>>) -> nat
    decreases mounts.len(),
{
    if mounts.len() == 0 {
        0
    } else {
        proc_entry_count(mounts.drop_last()) + if mounts.last() == proc_path() {
            1nat
        } else {
            0nat
        }
    }
}

/// A table holds no `/proc` entry exactly when its `/proc` entry count
/// is zero.
pub proof fn lemma_proc_count_zero(mounts: Seq<Seq<u8>>)
    ensures
        (proc_entry_count(mounts) == 0) <==> !mounts.contains(proc_path()),
    decreases mounts.len(),
{
    if mounts.len() == 0 {
    } else {
        lemma_proc_count_zero(mounts.drop_last());
        if mounts.contains(proc_path()) {
            let i = choose|i: int| 0 <= i < mounts.len() && mounts[i] == proc_path();
            if i < mounts.len() - 1 {
                assert(mounts.drop_last()[i] == proc_path());
                assert(mounts.drop_last().contains(proc_path()));
            }
        } else {
            assert(forall|i: int|
                0 <= i < mounts.len() - 1 ==> mounts.drop_last()[i] == #[trigger] mounts[i]);
            assert(!mounts.drop_last().contains(proc_path()));
        }
    }
}

/// Against a root that exists, with the privilege to switch, with a `/proc`
/// directory present or creatable, and with a `/proc` entry already in a
/// readable mount table, the sequence succeeds without ever attempting a
/// mount, and the mount table is left exactly as it was.
pub proof fn lemma_no_second_mount(w: IsoWorld)
    requires
        w.root_exists,
        w.can_switch_root,
        w.proc_dir_exists || w.can_make_proc_dir,
        w.table_readable,
        w.mounts.contains(proc_path()),
    ensures
        isolate_run(w).result is None,
        !isolate_run(w).mount_attempted,
        isolate_run(w).world.mounts == w.mounts,
{
    reveal_with_fuel(machine_run, 8);
}

/// Against a root that exists, with the privilege to switch, with a `/proc`
/// directory present or creatable, with the process-information filesystem
/// available, and with no `/proc` entry in the table, the sequence succeeds
/// and leaves the table with exactly one `/proc` entry: the one it mounted.
pub proof fn lemma_exactly_one_proc_mount(w: IsoWorld)
    requires
        w.root_exists,
        w.can_switch_root,
        w.proc_dir_exists || w.can_make_proc_dir,
        w.procfs_available,
        !w.mounts.contains(proc_path()),
    ensures
        isolate_run(w).result is None,
        isolate_run(w).mount_attempted,
        isolate_run(w).world.mounts == w.mounts.push(proc_path()),
        proc_entry_count(isolate_run(w).world.mounts) == 1,
{
    reveal_with_fuel(machine_run, 8);
    lemma_proc_count_zero(w.mounts);
    let pushed = w.mounts.push(proc_path());
    assert(pushed.drop_last() =~= w.mounts);
    assert(pushed.last() == proc_path());
    assert(proc_entry_count(pushed) == proc_entry_count(w.mounts) + 1);
}

/// Against a nonexistent root the sequence fails at its first step, before
/// any root switch is attempted, and the world is left untouched: no mount,
/// no root switch, no directory creation, no change of any kind.
pub proof fn lemma_missing_root_no_side_effects(w: IsoWorld)
    requires
        !w.root_exists,
    ensures
        isolate_run(w).result == Some(IsolateError::EnterRootFailed),
        !isolate_run(w).switch_attempted,
        !isolate_run(w).mount_attempted,
        isolate_run(w).world == w,
{
    reveal_with_fuel(machine_run, 8);
}

/// Isolation succeeds only isolated: after any successful run, whatever the
/// world, the root was switched, the working directory is the top of the
/// new root — so no relative path leads back outside — the `/proc`
/// directory exists, and the mount table holds a `/proc` entry.
pub proof fn lemma_success_is_isolated(w: IsoWorld)
    ensures
        isolate_run(w).result is None ==> ({
            let fin = isolate_run(w).world;
            &&& fin.root_switched
            &&& fin.cwd == CwdPlace::NewRootTop
            &&& fin.proc_dir_exists
            &&& fin.mounts.contains(proc_path())
        }),
{
    reveal_with_fuel(machine_run, 8);
    if w.root_exists && w.can_switch_root && (w.proc_dir_exists || w.can_make_proc_dir) {
        let mounted = w.table_readable && w.mounts.contains(proc_path());
        if !mounted && w.procfs_available {
            let pushed = w.mounts.push(proc_path());
            assert(pushed[pushed.len() - 1] == proc_path());
            assert(pushed.contains(proc_path()));
        }
    }
}

/// A mount is ever attempted only when the scan of a readable table found
/// no `/proc` entry, whatever else the world looks like.
pub proof fn lemma_mount_only_when_absent(w: IsoWorld)
    ensures
        isolate_run(w).mount_attempted ==> !(w.table_readable && w.mounts.contains(proc_path())),
{
    reveal_with_fuel(machine_run, 8);
}

/// Ensuring the `/proc` directory when it already exists changes nothing:
/// the directory stays, its contents are exactly what they were, and within
/// an otherwise able world the whole sequence still succeeds.
pub proof fn lemma_proc_dir_idempotent(w: IsoWorld)
    requires
        w.proc_dir_exists,
    ensures
        world_apply(w, IsolateAction::EnsureProcDir) == w,
        world_respond(w, IsolateAction::EnsureProcDir) == IsolateEvent::Completed,
        (w.root_exists && w.can_switch_root && w.procfs_available) ==> {
            &&& isolate_run(w).result is None
            &&& isolate_run(w).world.proc_dir_exists
            &&& isolate_run(w).world.proc_dir_entries == w.proc_dir_entries
        },
{
    reveal_with_fuel(machine_run, 8);
}

} // verus!
