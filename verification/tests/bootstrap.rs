use fappa::cache::{ensure_unpacked, CacheState};
use fappa::host::{
    host_pending, host_result, host_step, HostAction, HostEvent, HostState, SandboxHandle,
    SetupError,
};
use fappa::mounts::{
    detach_old_root, make_old_root_entry, pivot_into_root, remove_old_root_entry, switch_root,
    RootSwitchView,
};
use fappa::sandbox::{
    reaper_exit_status, sandbox_step, SandboxEvent, SandboxState, REAPER_UNKNOWN_STATUS,
    SETUP_FAILED_STATUS,
};

#[test]
fn cache_unpacks_at_most_once() {
    let (after_first, unpacked_first) = ensure_unpacked(CacheState { unpacked: false });
    assert!(unpacked_first);
    assert!(after_first.unpacked);
    let (after_second, unpacked_second) = ensure_unpacked(after_first);
    assert!(!unpacked_second);
    assert!(after_second.unpacked);
}

#[test]
fn cache_step_is_a_noop_when_already_unpacked() {
    let (after, unpacked) = ensure_unpacked(CacheState { unpacked: true });
    assert!(!unpacked);
    assert!(after.unpacked);
}

#[test]
fn coordinator_happy_path_reaches_done() {
    let s = HostState::Start;
    assert_eq!(host_pending(s), HostAction::EnsureRootfs);
    let s = host_step(s, HostEvent::Step { ok: true });
    assert_eq!(s, HostState::RootReady);
    assert_eq!(host_pending(s), HostAction::InjectInit);
    let s = host_step(s, HostEvent::Step { ok: true });
    assert_eq!(s, HostState::Injected);
    assert_eq!(host_pending(s), HostAction::MakeChannel);
    let s = host_step(s, HostEvent::Step { ok: true });
    assert_eq!(s, HostState::ChannelReady);
    assert_eq!(host_pending(s), HostAction::Fork);
    let s = host_step(s, HostEvent::Forked { ok: true, pid: 4242 });
    assert_eq!(s, HostState::AwaitingReady { pid: 4242 });
    assert_eq!(host_pending(s), HostAction::ReadReadyToken);
    let s = host_step(s, HostEvent::ReadyRead { ok: true });
    assert_eq!(s, HostState::MappingUids { pid: 4242 });
    assert_eq!(host_pending(s), HostAction::RunUidHelper);
    let s = host_step(s, HostEvent::Helper { status: 0 });
    assert_eq!(s, HostState::MappingGids { pid: 4242 });
    assert_eq!(host_pending(s), HostAction::RunGidHelper);
    let s = host_step(s, HostEvent::Helper { status: 0 });
    assert_eq!(s, HostState::Releasing { pid: 4242 });
    assert_eq!(host_pending(s), HostAction::WriteResumeToken);
    let s = host_step(s, HostEvent::ResumeWritten { ok: true });
    assert_eq!(s, HostState::Done { pid: 4242 });
    assert_eq!(host_pending(s), HostAction::Finish);
    assert_eq!(host_result(s), Some(Ok(SandboxHandle { pid: 4242 })));
}

#[test]
fn rootfs_failure_aborts_before_fork() {
    let s = host_step(HostState::Start, HostEvent::Step { ok: false });
    assert_eq!(s, HostState::Failed { error: SetupError::Rootfs });
    assert_eq!(host_result(s), Some(Err(SetupError::Rootfs)));
}

#[test]
fn injection_failure_is_a_rootfs_error() {
    let s = host_step(HostState::RootReady, HostEvent::Step { ok: false });
    assert_eq!(s, HostState::Failed { error: SetupError::Rootfs });
}

#[test]
fn pipe_allocation_failure_is_a_channel_error() {
    let s = host_step(HostState::Injected, HostEvent::Step { ok: false });
    assert_eq!(s, HostState::Failed { error: SetupError::Channel });
}

#[test]
fn fork_failure_is_fatal() {
    let s = host_step(HostState::ChannelReady, HostEvent::Forked { ok: false, pid: 0 });
    assert_eq!(s, HostState::Failed { error: SetupError::ForkFailed });
    assert_eq!(host_result(s), Some(Err(SetupError::ForkFailed)));
}

#[test]
fn dead_peer_on_ready_read_is_a_handshake_error() {
    let s = host_step(HostState::AwaitingReady { pid: 9 }, HostEvent::ReadyRead { ok: false });
    assert_eq!(s, HostState::Failed { error: SetupError::Handshake });
}

#[test]
fn dead_peer_on_resume_write_is_a_handshake_error() {
    let s = host_step(HostState::Releasing { pid: 9 }, HostEvent::ResumeWritten { ok: false });
    assert_eq!(s, HostState::Failed { error: SetupError::Handshake });
}

#[test]
fn uid_helper_nonzero_status_fails_the_attempt() {
    let s = host_step(HostState::MappingUids { pid: 5 }, HostEvent::Helper { status: 1 });
    assert_eq!(s, HostState::Failed { error: SetupError::UidMap { status: 1 } });
    assert_eq!(host_result(s), Some(Err(SetupError::UidMap { status: 1 })));
}

#[test]
fn gid_helper_nonzero_status_fails_the_attempt() {
    let s = host_step(HostState::MappingGids { pid: 5 }, HostEvent::Helper { status: 3 });
    assert_eq!(s, HostState::Failed { error: SetupError::GidMap { status: 3 } });
}

#[test]
fn in_progress_states_owe_no_result() {
    assert_eq!(host_result(HostState::Start), None);
    assert_eq!(host_result(HostState::MappingUids { pid: 2 }), None);
}

#[test]
fn initializer_happy_path_reaches_exec() {
    let mut s = SandboxState::Entered;
    for expected in [
        SandboxState::StdinNulled,
        SandboxState::Unshared,
        SandboxState::TreePrivate,
        SandboxState::RootBound,
        SandboxState::InRoot,
        SandboxState::HostProcBound,
        SandboxState::SysBound,
        SandboxState::DevNullBound,
    ] {
        s = sandbox_step(s, SandboxEvent::Step { ok: true });
        assert_eq!(s, expected);
    }
    let s = sandbox_step(s, SandboxEvent::ReadyWritten { ok: true });
    assert_eq!(s, SandboxState::AwaitingResume);
    let s = sandbox_step(s, SandboxEvent::ResumeRead { ok: true });
    assert_eq!(s, SandboxState::Resumed);
    let s = sandbox_step(s, SandboxEvent::Step { ok: true });
    assert_eq!(s, SandboxState::Identified);
    let s = sandbox_step(s, SandboxEvent::Step { ok: true });
    assert_eq!(s, SandboxState::Pivoted);
    let s = sandbox_step(s, SandboxEvent::Forked { ok: true });
    assert_eq!(s, SandboxState::Bootstrapping);
    let s = sandbox_step(s, SandboxEvent::PidIs { pid: 1 });
    assert_eq!(s, SandboxState::PidChecked);
    let s = sandbox_step(s, SandboxEvent::Step { ok: true });
    assert_eq!(s, SandboxState::TmpFixed);
    let s = sandbox_step(s, SandboxEvent::Step { ok: true });
    assert_eq!(s, SandboxState::ProcMounted);
    let s = sandbox_step(s, SandboxEvent::Step { ok: true });
    assert_eq!(s, SandboxState::Finalized);
    let s = sandbox_step(s, SandboxEvent::Exec { ok: true, recv_fd: 3, send_fd: 4 });
    assert_eq!(s, SandboxState::Execed { recv_fd: 3, send_fd: 4 });
}

#[test]
fn wrong_namespace_pid_terminates_the_bootstrapper() {
    let s = sandbox_step(SandboxState::Bootstrapping, SandboxEvent::PidIs { pid: 2 });
    assert_eq!(s, SandboxState::Exited { code: SETUP_FAILED_STATUS });
}

#[test]
fn namespace_pid_one_passes_validation() {
    let s = sandbox_step(SandboxState::Bootstrapping, SandboxEvent::PidIs { pid: 1 });
    assert_eq!(s, SandboxState::PidChecked);
}

#[test]
fn unshare_failure_exits_with_the_setup_status() {
    let s = sandbox_step(SandboxState::StdinNulled, SandboxEvent::Step { ok: false });
    assert_eq!(s, SandboxState::Exited { code: 67 });
}

#[test]
fn exec_failure_exits_with_the_setup_status() {
    let s = sandbox_step(
        SandboxState::Finalized,
        SandboxEvent::Exec { ok: false, recv_fd: 3, send_fd: 4 },
    );
    assert_eq!(s, SandboxState::Exited { code: 67 });
}

#[test]
fn reaper_mirrors_the_grandchild_exit_code() {
    assert_eq!(reaper_exit_status(Some(0)), 0);
    assert_eq!(reaper_exit_status(Some(5)), 5);
}

#[test]
fn reaper_falls_back_on_unknown_exit() {
    assert_eq!(reaper_exit_status(None), REAPER_UNKNOWN_STATUS);
    assert_eq!(reaper_exit_status(None), 66);
}

#[test]
fn root_switch_leaves_no_old_root_behind() {
    let v = RootSwitchView { pivoted: false, old_root_entry: false, old_root_mounted: false };
    let v = switch_root(v);
    assert!(v.pivoted);
    assert!(!v.old_root_entry);
    assert!(!v.old_root_mounted);
}

#[test]
fn root_switch_steps_in_order() {
    let v = RootSwitchView { pivoted: false, old_root_entry: false, old_root_mounted: false };
    let v = make_old_root_entry(v);
    assert!(v.old_root_entry && !v.pivoted);
    let v = pivot_into_root(v);
    assert!(v.pivoted && v.old_root_mounted);
    let v = detach_old_root(v);
    assert!(!v.old_root_mounted && v.old_root_entry);
    let v = remove_old_root_entry(v);
    assert_eq!(
        v,
        RootSwitchView { pivoted: true, old_root_entry: false, old_root_mounted: false }
    );
}
