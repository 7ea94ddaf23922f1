use fappa::host::{host_pending, host_step, HostAction, HostEvent, HostState};
use fappa::sandbox::{sandbox_pending, sandbox_step, SandboxAction, SandboxEvent, SandboxState};

#[test]
fn sandbox_actions_follow_the_bootstrap_order() {
    assert_eq!(sandbox_pending(SandboxState::Entered), SandboxAction::RedirectStdin);
    assert_eq!(sandbox_pending(SandboxState::StdinNulled), SandboxAction::UnshareNamespaces);
    assert_eq!(sandbox_pending(SandboxState::Unshared), SandboxAction::PrivatizeMountTree);
    assert_eq!(sandbox_pending(SandboxState::TreePrivate), SandboxAction::BindRootOntoItself);
    assert_eq!(sandbox_pending(SandboxState::RootBound), SandboxAction::EnterRoot);
    assert_eq!(sandbox_pending(SandboxState::InRoot), SandboxAction::BindHostProc);
    assert_eq!(sandbox_pending(SandboxState::HostProcBound), SandboxAction::BindSys);
    assert_eq!(sandbox_pending(SandboxState::SysBound), SandboxAction::BindDevNull);
    assert_eq!(sandbox_pending(SandboxState::DevNullBound), SandboxAction::SignalReady);
    assert_eq!(sandbox_pending(SandboxState::AwaitingResume), SandboxAction::AwaitResume);
    assert_eq!(sandbox_pending(SandboxState::Resumed), SandboxAction::SwitchIdentity);
    assert_eq!(sandbox_pending(SandboxState::Identified), SandboxAction::SwitchRoot);
    assert_eq!(sandbox_pending(SandboxState::Pivoted), SandboxAction::ForkBootstrapper);
    assert_eq!(sandbox_pending(SandboxState::Bootstrapping), SandboxAction::CheckNamespacePid);
    assert_eq!(sandbox_pending(SandboxState::PidChecked), SandboxAction::FixTmpPermissions);
    assert_eq!(sandbox_pending(SandboxState::TmpFixed), SandboxAction::MountProc);
    assert_eq!(sandbox_pending(SandboxState::ProcMounted), SandboxAction::RemountRootNoSuid);
    assert_eq!(sandbox_pending(SandboxState::Finalized), SandboxAction::ExecInit);
    assert_eq!(sandbox_pending(SandboxState::NotStarted), SandboxAction::Halt);
    assert_eq!(
        sandbox_pending(SandboxState::Execed { recv_fd: 3, send_fd: 4 }),
        SandboxAction::Halt
    );
    assert_eq!(sandbox_pending(SandboxState::Exited { code: 67 }), SandboxAction::Halt);
}

#[test]
fn terminal_host_states_absorb_events() {
    let done = HostState::Done { pid: 8 };
    assert_eq!(host_step(done, HostEvent::Step { ok: false }), done);
    assert_eq!(host_pending(done), HostAction::Finish);
}

#[test]
fn ill_fitting_events_leave_the_host_state_unchanged() {
    let s = HostState::AwaitingReady { pid: 3 };
    assert_eq!(host_step(s, HostEvent::Helper { status: 0 }), s);
    assert_eq!(host_step(s, HostEvent::Step { ok: true }), s);
}

#[test]
fn ill_fitting_events_leave_the_sandbox_state_unchanged() {
    let s = SandboxState::AwaitingResume;
    assert_eq!(sandbox_step(s, SandboxEvent::Step { ok: true }), s);
    let execed = SandboxState::Execed { recv_fd: 3, send_fd: 4 };
    assert_eq!(sandbox_step(execed, SandboxEvent::Step { ok: false }), execed);
}
