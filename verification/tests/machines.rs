use rustcontainer::isolation::{
    isolate_action, isolate_finished, isolate_step, IsolateAction, IsolateError, IsolateEvent,
    IsolateState,
};
use rustcontainer::launcher::{
    launch_action, launch_finished, launch_step, ExecRequest, LaunchAction, LaunchEvent,
    LaunchState, CHILD_FAILURE_STATUS,
};
use rustcontainer::mount_table::mount_table_has_proc;

/// A fake host for the isolation sequence: it answers every action the
/// machine asks for and records what was attempted, the way the real runner
/// answers with system calls.
struct FakeHost {
    root_exists: bool,
    can_switch_root: bool,
    proc_dir_exists: bool,
    proc_dir_contents: Vec<&'static str>,
    can_make_proc_dir: bool,
    mounts: Vec<&'static str>,
    table_readable: bool,
    procfs_available: bool,
    switch_attempts: usize,
    mount_attempts: usize,
}

fn healthy_host() -> FakeHost {
    FakeHost {
        root_exists: true,
        can_switch_root: true,
        proc_dir_exists: false,
        proc_dir_contents: Vec::new(),
        can_make_proc_dir: true,
        mounts: vec!["/", "/sys", "/dev"],
        table_readable: true,
        procfs_available: true,
        switch_attempts: 0,
        mount_attempts: 0,
    }
}

fn table_text(host: &FakeHost) -> Vec<u8> {
    let mut text = String::new();
    for point in &host.mounts {
        text.push_str("somesource ");
        text.push_str(point);
        text.push_str(" sometype someopts 0 0\n");
    }
    text.into_bytes()
}

fn perform(host: &mut FakeHost, action: IsolateAction) -> IsolateEvent {
    match action {
        IsolateAction::EnterRoot => {
            if host.root_exists {
                IsolateEvent::Completed
            } else {
                IsolateEvent::Failed
            }
        }
        IsolateAction::SwitchRoot => {
            host.switch_attempts += 1;
            if host.root_exists && host.can_switch_root {
                IsolateEvent::Completed
            } else {
                IsolateEvent::Failed
            }
        }
        IsolateAction::EnterNewRoot => IsolateEvent::Completed,
        IsolateAction::EnsureProcDir => {
            if host.proc_dir_exists {
                IsolateEvent::Completed
            } else if host.can_make_proc_dir {
                host.proc_dir_exists = true;
                IsolateEvent::Completed
            } else {
                IsolateEvent::Failed
            }
        }
        IsolateAction::CheckMounts => {
            if host.table_readable {
                let text = table_text(host);
                IsolateEvent::Checked { mounted: mount_table_has_proc(&text) }
            } else {
                IsolateEvent::Checked { mounted: false }
            }
        }
        IsolateAction::MountProc => {
            host.mount_attempts += 1;
            if host.procfs_available {
                host.mounts.push("/proc");
                IsolateEvent::Completed
            } else {
                IsolateEvent::Failed
            }
        }
        IsolateAction::Finish | IsolateAction::Abort { .. } => IsolateEvent::Completed,
    }
}

fn run_isolation(host: &mut FakeHost) -> IsolateState {
    let mut state = IsolateState::Start;
    let mut steps = 0;
    while !isolate_finished(state) {
        let action = isolate_action(state);
        let event = perform(host, action);
        state = isolate_step(state, event);
        steps += 1;
        assert!(steps <= 10, "the isolation sequence must terminate");
    }
    state
}

fn proc_count(host: &FakeHost) -> usize {
    host.mounts.iter().filter(|m| **m == "/proc").count()
}

#[test]
fn existing_proc_entry_is_not_mounted_again() {
    let mut host = healthy_host();
    host.mounts = vec!["/", "/proc", "/sys"];
    let before = host.mounts.clone();
    let end = run_isolation(&mut host);
    assert_eq!(end, IsolateState::Done);
    assert_eq!(host.mount_attempts, 0);
    assert_eq!(host.mounts, before);
    assert_eq!(proc_count(&host), 1);
}

#[test]
fn missing_proc_entry_is_mounted_exactly_once() {
    let mut host = healthy_host();
    let end = run_isolation(&mut host);
    assert_eq!(end, IsolateState::Done);
    assert_eq!(host.mount_attempts, 1);
    assert_eq!(proc_count(&host), 1);
}

#[test]
fn unreadable_table_mounts_conservatively() {
    let mut host = healthy_host();
    host.table_readable = false;
    let end = run_isolation(&mut host);
    assert_eq!(end, IsolateState::Done);
    assert_eq!(host.mount_attempts, 1);
}

#[test]
fn missing_root_fails_before_any_root_switch() {
    let mut host = healthy_host();
    host.root_exists = false;
    host.mounts = vec!["/", "/sys"];
    let before = host.mounts.clone();
    let end = run_isolation(&mut host);
    assert_eq!(end, IsolateState::Failed { error: IsolateError::EnterRootFailed });
    assert_eq!(host.switch_attempts, 0);
    assert_eq!(host.mount_attempts, 0);
    assert_eq!(host.mounts, before);
    assert!(!host.proc_dir_exists);
}

#[test]
fn existing_proc_dir_is_kept_untouched() {
    let mut host = healthy_host();
    host.proc_dir_exists = true;
    host.proc_dir_contents = vec!["stat", "uptime"];
    let end = run_isolation(&mut host);
    assert_eq!(end, IsolateState::Done);
    assert!(host.proc_dir_exists);
    assert_eq!(host.proc_dir_contents, vec!["stat", "uptime"]);
}

#[test]
fn unprivileged_switch_fails_isolation() {
    let mut host = healthy_host();
    host.can_switch_root = false;
    let end = run_isolation(&mut host);
    assert_eq!(end, IsolateState::Failed { error: IsolateError::RootSwitchFailed });
    assert_eq!(host.mount_attempts, 0);
}

/// A fake host for a whole launch: the isolation host plus the split, the
/// target command, and the wait.
struct FakeLaunch {
    spawn_ok: bool,
    child_pid: i32,
    unshare_ok: bool,
    iso: FakeHost,
    command: &'static str,
    exec_status: i32,
}

fn command_exists(launch: &FakeLaunch) -> bool {
    launch.command == "/bin/echo"
}

/// The child side: from just after the split to the child's termination
/// status, driving the launch machine and, inside it, the isolation machine.
fn run_child(launch: &mut FakeLaunch) -> i32 {
    let mut state = launch_step(LaunchState::Start, LaunchEvent::SpawnedChild);
    let mut steps = 0;
    loop {
        if state == LaunchState::Replaced {
            return launch.exec_status;
        }
        if let LaunchState::ChildMustExit { status } = state {
            return status;
        }
        assert!(!launch_finished(state), "a child reaches Replaced or ChildMustExit");
        let action = launch_action(state);
        let event = match action {
            LaunchAction::Unshare => {
                if launch.unshare_ok {
                    LaunchEvent::Completed
                } else {
                    LaunchEvent::Failed
                }
            }
            LaunchAction::Isolate => {
                if run_isolation(&mut launch.iso) == IsolateState::Done {
                    LaunchEvent::Completed
                } else {
                    LaunchEvent::Failed
                }
            }
            LaunchAction::Exec => {
                if command_exists(launch) {
                    LaunchEvent::Completed
                } else {
                    LaunchEvent::Failed
                }
            }
            other => panic!("unexpected child action {:?}", other),
        };
        state = launch_step(state, event);
        steps += 1;
        assert!(steps <= 10, "the child sequence must terminate");
    }
}

/// The parent side: the split, then the wait for the child's status.
fn run_launch(launch: &mut FakeLaunch) -> LaunchState {
    let mut state = LaunchState::Start;
    let mut steps = 0;
    while !launch_finished(state) {
        let action = launch_action(state);
        let event = match action {
            LaunchAction::Spawn => {
                if launch.spawn_ok {
                    let pid = launch.child_pid;
                    LaunchEvent::SpawnedParent { child: pid }
                } else {
                    LaunchEvent::SplitFailed
                }
            }
            LaunchAction::Wait { child } => {
                assert_eq!(child, launch.child_pid);
                let status = run_child(launch);
                LaunchEvent::ChildTerminated { status }
            }
            other => panic!("unexpected parent action {:?}", other),
        };
        state = launch_step(state, event);
        steps += 1;
        assert!(steps <= 10, "the launch must terminate");
    }
    state
}

#[test]
fn echo_hello_runs_clean_through_prepared_root() {
    let mut launch = FakeLaunch {
        spawn_ok: true,
        child_pid: 42,
        unshare_ok: true,
        iso: healthy_host(),
        command: "/bin/echo",
        exec_status: 0,
    };
    let end = run_launch(&mut launch);
    assert_eq!(end, LaunchState::Reported { status: 0 });
    assert_eq!(launch.iso.mount_attempts, 1);
}

#[test]
fn missing_command_is_observed_as_nonzero_status() {
    let mut launch = FakeLaunch {
        spawn_ok: true,
        child_pid: 7,
        unshare_ok: true,
        iso: healthy_host(),
        command: "/bin/nosuchcmd",
        exec_status: 0,
    };
    let end = run_launch(&mut launch);
    match end {
        LaunchState::Reported { status } => assert_ne!(status, 0),
        other => panic!("the parent must observe a status, got {:?}", other),
    }
}

#[test]
fn failed_unshare_ends_child_nonzero() {
    let mut launch = FakeLaunch {
        spawn_ok: true,
        child_pid: 9,
        unshare_ok: false,
        iso: healthy_host(),
        command: "/bin/echo",
        exec_status: 0,
    };
    let end = run_launch(&mut launch);
    assert_eq!(end, LaunchState::Reported { status: CHILD_FAILURE_STATUS });
    assert_ne!(CHILD_FAILURE_STATUS, 0);
    assert_eq!(launch.iso.switch_attempts, 0, "no isolation after a failed unshare");
}

#[test]
fn failed_isolation_ends_child_nonzero() {
    let mut launch = FakeLaunch {
        spawn_ok: true,
        child_pid: 9,
        unshare_ok: true,
        iso: healthy_host(),
        command: "/bin/echo",
        exec_status: 0,
    };
    launch.iso.root_exists = false;
    let end = run_launch(&mut launch);
    assert_eq!(end, LaunchState::Reported { status: CHILD_FAILURE_STATUS });
}

#[test]
fn a_request_needs_a_nonempty_command() {
    assert!(ExecRequest::new(Vec::new(), vec![b"x".to_vec()]).is_none());
    let req = ExecRequest::new(b"/bin/echo".to_vec(), vec![b"hello".to_vec()])
        .expect("a non-empty command makes a request");
    assert_eq!(req.command, b"/bin/echo".to_vec());
    assert_eq!(req.args, vec![b"hello".to_vec()]);
}

#[test]
fn failed_spawn_is_reported_without_any_wait() {
    let mut launch = FakeLaunch {
        spawn_ok: false,
        child_pid: 0,
        unshare_ok: true,
        iso: healthy_host(),
        command: "/bin/echo",
        exec_status: 0,
    };
    let end = run_launch(&mut launch);
    assert_eq!(end, LaunchState::SpawnFailed);
    assert_eq!(launch.iso.switch_attempts, 0);
    assert_eq!(launch.iso.mount_attempts, 0);
}
