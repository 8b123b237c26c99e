//! Launch sequencing: the parent/child split and the synchronous wait.
//!
//! One invocation splits the calling process into a supervising parent and
//! a worker child. The child requests fresh PID and mount namespaces, runs
//! the filesystem isolation sequence, and replaces its own image with the
//! target command; the parent blocks until the child terminates and
//! surfaces its termination status. A child that fails at any step must
//! terminate with a non-zero status rather than fall through and act as if
//! it were still the supervisor.
//!
//! As in `isolation`, the library holds the decisions and the unverified
//! runner performs them: it forks, unshares, drives the isolation machine,
//! execs and waits, answering each action with an event. `launch_run`
//! gives the meaning of a run against a model world, and the proof
//! functions at the end state the launch laws over it.

use vstd::prelude::*;
use crate::isolation::{isolate_run, IsoWorld};

verus! {

/// The status a child exits with when a setup step or the image
/// replacement fails. Never zero: a failed child must not look like a
/// clean run.
pub const CHILD_FAILURE_STATUS: i32 = 1;

/// What one launch is asked to run: a command and its arguments, immutable
/// once constructed. A request exists only with a non-empty command.
pub struct ExecRequest {
    /// The executable path or name the child's image is replaced with.
    /// Never empty.
    pub command: Vec<u8>,
    /// The arguments handed to it, in order; may be empty.
    pub args: Vec<Vec<u8>>,
}

impl ExecRequest {
    /// The one constraint on a request: the command is non-empty.
    pub open spec fn wf(&self) -> bool {
        self.command@.len() > 0
    }

    /// Build a request from a command and its arguments. `None` exactly
    /// when the command is empty — an empty command names nothing to run.
    pub fn new(command: Vec<u8>, args: Vec<Vec<u8>>) -> (r: Option<ExecRequest>)
        ensures
            match r {
                Option::Some(req) => req.wf() && req.command == command && req.args == args,
                Option::None => command@.len() == 0,
            },
    {
        if command.len() == 0 {
            None
        } else {
            Some(ExecRequest { command, args })
        }
    }
}

/// The stations of one launch, parent and child sides together.
#[derive(Clone, Copy, Debug, PartialEq, Eq, Structural)]
pub enum LaunchState {
    /// Nothing done yet: the process is about to split.
    Start,
    /// Parent side: waiting for the child to terminate.
    ParentWaiting { child: i32 },
    /// Parent side: the child terminated with this status, and the launch
    /// surfaces it to the caller.
    Reported { status: i32 },
    /// The process split failed; the whole invocation is over.
    SpawnFailed,
    /// Child side: about to request new PID and mount namespaces.
    ChildStarted,
    /// Child side: namespaces created; about to run filesystem isolation.
    ChildInNamespaces,
    /// Child side: isolation done; about to replace the program image.
    ChildIsolated,
    /// Child side: the image was replaced; the target command now runs in
    /// this process and no code of the launcher runs after it.
    Replaced,
    /// Child side: a step failed; the child must exit with this non-zero
    /// status and must not continue unisolated.
    ChildMustExit { status: i32 },
}

/// What the runner is asked to do next.
#[derive(Clone, Copy, Debug, PartialEq, Eq, Structural)]
pub enum LaunchAction {
    /// Split the process into parent and child.
    Spawn,
    /// Block until the child terminates, by any means.
    Wait { child: i32 },
    /// Create new PID and mount namespaces for this process.
    Unshare,
    /// Run the filesystem isolation sequence (the `isolation` machine).
    Isolate,
    /// Replace this process's image with the target command, passing its
    /// arguments as the argument vector.
    Exec,
    /// Terminate this child process with the given non-zero status.
    ExitChild { status: i32 },
    /// Report the process-split failure to the operator.
    ReportSpawnFailure,
    /// Surface the child's termination status to the caller.
    ReportStatus { status: i32 },
    /// Nothing: the image was handed over.
    HandOver,
}

/// What the runner reports back about the last action.
#[derive(Clone, Copy, Debug, PartialEq, Eq, Structural)]
pub enum LaunchEvent {
    /// The split succeeded and this is the parent; the child is known by
    /// this host-visible process identifier.
    SpawnedParent { child: i32 },
    /// The split succeeded and this is the child.
    SpawnedChild,
    /// The split failed: no child exists.
    SplitFailed,
    /// The wait ended: the child terminated with this status.
    ChildTerminated { status: i32 },
    /// The action succeeded.
    Completed,
    /// The action failed. For `Exec` this means the call returned at all:
    /// a successful image replacement never reports back.
    Failed,
}

/// The action owed in each state.
pub open spec fn launch_spec_action(s: LaunchState) -> LaunchAction {
    match s {
        LaunchState::Start => LaunchAction::Spawn,
        LaunchState::ParentWaiting { child } => LaunchAction::Wait { child },
        LaunchState::Reported { status } => LaunchAction::ReportStatus { status },
        LaunchState::SpawnFailed => LaunchAction::ReportSpawnFailure,
        LaunchState::ChildStarted => LaunchAction::Unshare,
        LaunchState::ChildInNamespaces => LaunchAction::Isolate,
        LaunchState::ChildIsolated => LaunchAction::Exec,
        LaunchState::Replaced => LaunchAction::HandOver,
        LaunchState::ChildMustExit { status } => LaunchAction::ExitChild { status },
    }
}

/// The state reached when the runner answers `e` in state `s`.
///
/// Every child-side failure leads to `ChildMustExit` with the non-zero
/// `CHILD_FAILURE_STATUS`: a child never falls through a failed step. A
/// waiting parent ignores anything but the termination of its child. The
/// final states absorb every further event.
pub open spec fn launch_spec_step(s: LaunchState, e: LaunchEvent) -> LaunchState {
    match s {
        LaunchState::Start => match e {
            LaunchEvent::SpawnedParent { child } => LaunchState::ParentWaiting { child },
            LaunchEvent::SpawnedChild => LaunchState::ChildStarted,
            _ => LaunchState::SpawnFailed,
        },
        LaunchState::ParentWaiting { child } => match e {
            LaunchEvent::ChildTerminated { status } => LaunchState::Reported { status },
            _ => LaunchState::ParentWaiting { child },
        },
        LaunchState::ChildStarted => match e {
            LaunchEvent::Completed => LaunchState::ChildInNamespaces,
            _ => LaunchState::ChildMustExit { status: CHILD_FAILURE_STATUS },
        },
        LaunchState::ChildInNamespaces => match e {
            LaunchEvent::Completed => LaunchState::ChildIsolated,
            _ => LaunchState::ChildMustExit { status: CHILD_FAILURE_STATUS },
        },
        LaunchState::ChildIsolated => match e {
            LaunchEvent::Completed => LaunchState::Replaced,
            _ => LaunchState::ChildMustExit { status: CHILD_FAILURE_STATUS },
        },
        LaunchState::Reported { status } => LaunchState::Reported { status },
        LaunchState::SpawnFailed => LaunchState::SpawnFailed,
        LaunchState::Replaced => LaunchState::Replaced,
        LaunchState::ChildMustExit { status } => LaunchState::ChildMustExit { status },
    }
}

/// A state in which the launch asks no further action of the runner.
pub open spec fn launch_spec_final(s: LaunchState) -> bool {
    ||| s is Reported
    ||| s == LaunchState::SpawnFailed
    ||| s == LaunchState::Replaced
    ||| s is ChildMustExit
}

/// The action owed in state `s`, exactly as `launch_spec_action` states it.
pub fn launch_action(s: LaunchState) -> (a: LaunchAction)
    ensures
        a == launch_spec_action(s),
{
    match s {
        LaunchState::Start => LaunchAction::Spawn,
        LaunchState::ParentWaiting { child } => LaunchAction::Wait { child },
        LaunchState::Reported { status } => LaunchAction::ReportStatus { status },
        LaunchState::SpawnFailed => LaunchAction::ReportSpawnFailure,
        LaunchState::ChildStarted => LaunchAction::Unshare,
        LaunchState::ChildInNamespaces => LaunchAction::Isolate,
        LaunchState::ChildIsolated => LaunchAction::Exec,
        LaunchState::Replaced => LaunchAction::HandOver,
        LaunchState::ChildMustExit { status } => LaunchAction::ExitChild { status },
    }
}

/// The transition taken on event `e` in state `s`, exactly as
/// `launch_spec_step` states it.
pub fn launch_step(s: LaunchState, e: LaunchEvent) -> (r: LaunchState)
    ensures
        r == launch_spec_step(s, e),
{
    match s {
        LaunchState::Start => match e {
            LaunchEvent::SpawnedParent { child } => LaunchState::ParentWaiting { child },
            LaunchEvent::SpawnedChild => LaunchState::ChildStarted,
            _ => LaunchState::SpawnFailed,
        },
        LaunchState::ParentWaiting { child } => match e {
            LaunchEvent::ChildTerminated { status } => LaunchState::Reported { status },
            _ => LaunchState::ParentWaiting { child },
        },
        LaunchState::ChildStarted => match e {
            LaunchEvent::Completed => LaunchState::ChildInNamespaces,
            _ => LaunchState::ChildMustExit { status: CHILD_FAILURE_STATUS },
        },
        LaunchState::ChildInNamespaces => match e {
            LaunchEvent::Completed => LaunchState::ChildIsolated,
            _ => LaunchState::ChildMustExit { status: CHILD_FAILURE_STATUS },
        },
        LaunchState::ChildIsolated => match e {
            LaunchEvent::Completed => LaunchState::Replaced,
            _ => LaunchState::ChildMustExit { status: CHILD_FAILURE_STATUS },
        },
        LaunchState::Reported { status } => LaunchState::Reported { status },
        LaunchState::SpawnFailed => LaunchState::SpawnFailed,
        LaunchState::Replaced => LaunchState::Replaced,
        LaunchState::ChildMustExit { status } => LaunchState::ChildMustExit { status },
    }
}

/// No action is owed in state `s`, exactly as `launch_spec_final` states it.
pub fn launch_finished(s: LaunchState) -> (r: bool)
    ensures
        r == launch_spec_final(s),
{
    match s {
        LaunchState::Reported { .. } => true,
        LaunchState::SpawnFailed => true,
        LaunchState::Replaced => true,
        LaunchState::ChildMustExit { .. } => true,
        _ => false,
    }
}

/// A model of everything one launch observes or changes.
pub struct LaunchWorld {
    /// The process split can be performed (no resource exhaustion).
    pub spawn_ok: bool,
    /// The host-visible process identifier the split gives the parent.
    pub child_pid: i32,
    /// New PID and mount namespaces can be created (privilege held).
    pub unshare_ok: bool,
    /// The world the isolation sequence runs against, inside the child.
    pub iso: IsoWorld,
    /// The target command can be found and executed inside the new root.
    pub exec_ok: bool,
    /// The status the target command itself terminates with, once running.
    pub exec_status: i32,
}

/// The termination status of the child context: the target command's own
/// status when every setup step and the image replacement succeed, and the
/// non-zero failure status otherwise.
pub open spec fn child_status(w: LaunchWorld) -> i32 {
    if !w.unshare_ok {
        CHILD_FAILURE_STATUS
    } else if !(isolate_run(w.iso).result is None) {
        CHILD_FAILURE_STATUS
    } else if !w.exec_ok {
        CHILD_FAILURE_STATUS
    } else {
        w.exec_status
    }
}

/// How the world answers each action. The wait ends with the child's
/// termination status, however the child came to terminate.
pub open spec fn launch_world_respond(w: LaunchWorld, a: LaunchAction) -> LaunchEvent {
    match a {
        LaunchAction::Spawn => if w.spawn_ok {
            LaunchEvent::SpawnedParent { child: w.child_pid }
        } else {
            LaunchEvent::SplitFailed
        },
        LaunchAction::Wait { .. } => LaunchEvent::ChildTerminated { status: child_status(w) },
        LaunchAction::Unshare => if w.unshare_ok {
            LaunchEvent::Completed
        } else {
            LaunchEvent::Failed
        },
        LaunchAction::Isolate => if isolate_run(w.iso).result is None {
            LaunchEvent::Completed
        } else {
            LaunchEvent::Failed
        },
        LaunchAction::Exec => if w.exec_ok {
            LaunchEvent::Completed
        } else {
            LaunchEvent::Failed
        },
        LaunchAction::ExitChild { .. } => LaunchEvent::Completed,
        LaunchAction::ReportSpawnFailure => LaunchEvent::Completed,
        LaunchAction::ReportStatus { .. } => LaunchEvent::Completed,
        LaunchAction::HandOver => LaunchEvent::Completed,
    }
}

/// How each action changes the world: only the isolation sequence does,
/// as the `isolation` machine says it does.
pub open spec fn launch_world_apply(w: LaunchWorld, a: LaunchAction) -> LaunchWorld {
    match a {
        LaunchAction::Isolate => LaunchWorld { iso: isolate_run(w.iso).world, ..w },
        _ => w,
    }
}

/// How many steps a state can still take.
pub open spec fn launch_rank(s: LaunchState) -> nat {
    match s {
        LaunchState::Start => 4,
        LaunchState::ChildStarted => 3,
        LaunchState::ChildInNamespaces => 2,
        LaunchState::ChildIsolated => 1,
        LaunchState::ParentWaiting { .. } => 1,
        LaunchState::Reported { .. } => 0,
        LaunchState::SpawnFailed => 0,
        LaunchState::Replaced => 0,
        LaunchState::ChildMustExit { .. } => 0,
    }
}

/// What one whole run of the launch machine came to.
pub struct LaunchRun {
    /// The world as the run left it.
    pub world: LaunchWorld,
    /// The final state: `Reported` on the parent side, `Replaced` or
    /// `ChildMustExit` on the child side, or `SpawnFailed`.
    pub outcome: LaunchState,
}

/// The run of the launch machine from state `s` against world `w`.
pub open spec fn launch_machine_run(s: LaunchState, w: LaunchWorld) -> LaunchRun
    decreases launch_rank(s),
{
    if launch_spec_final(s) {
        LaunchRun { world: w, outcome: s }
    } else {
        let a = launch_spec_action(s);
        let ev = launch_world_respond(w, a);
        launch_machine_run(launch_spec_step(s, ev), launch_world_apply(w, a))
    }
}

/// The parent side of a launch, from the start: the split, then the wait.
pub open spec fn launch_run(w: LaunchWorld) -> LaunchRun {
    launch_machine_run(LaunchState::Start, w)
}

/// The child side of a launch, from just after the split.
pub open spec fn child_run(w: LaunchWorld) -> LaunchRun {
    launch_machine_run(LaunchState::ChildStarted, w)
}

/// Whenever the split succeeds, the launch terminates with the parent
/// observing exactly the child's termination status — the target command's
/// own status when namespaces, isolation and image replacement all
/// succeed, and a non-zero status otherwise. When the split fails, the
/// failure is reported and no child status is ever observed.
pub proof fn lemma_parent_observes_child_status(w: LaunchWorld)
    ensures
        w.spawn_ok ==> launch_run(w).outcome == (LaunchState::Reported {
            status: child_status(w),
        }),
        w.spawn_ok && w.unshare_ok && isolate_run(w.iso).result is None && w.exec_ok
            ==> launch_run(w).outcome == (LaunchState::Reported { status: w.exec_status }),
        !w.spawn_ok ==> launch_run(w).outcome == LaunchState::SpawnFailed,
{
    reveal_with_fuel(launch_machine_run, 6);
}

/// A command that cannot be executed inside the prepared root never hangs
/// the launch and never looks clean: the child terminates with a non-zero
/// status, and the parent observes exactly that non-zero status.
pub proof fn lemma_failed_exec_observed_nonzero(w: LaunchWorld)
    requires
        w.spawn_ok,
        !w.exec_ok,
    ensures
        launch_run(w).outcome == (LaunchState::Reported { status: child_status(w) }),
        child_status(w) != 0,
{
    reveal_with_fuel(launch_machine_run, 6);
}

/// The child context always terminates rather than fall through: its run
/// ends either with the image replaced — only when namespace creation,
/// isolation and the replacement all succeeded — or in `ChildMustExit`
/// with a non-zero status; and its termination status is `child_status`.
pub proof fn lemma_child_never_falls_through(w: LaunchWorld)
    ensures
        child_run(w).outcome == LaunchState::Replaced <==> (w.unshare_ok && isolate_run(
            w.iso,
        ).result is None && w.exec_ok),
        child_run(w).outcome == LaunchState::Replaced ==> child_status(w) == w.exec_status,
        !(child_run(w).outcome == LaunchState::Replaced) ==> child_run(w).outcome
            == (LaunchState::ChildMustExit { status: CHILD_FAILURE_STATUS })
            && CHILD_FAILURE_STATUS != 0 && child_status(w) == CHILD_FAILURE_STATUS,
{
    reveal_with_fuel(launch_machine_run, 6);
}

} // verus!
