use vstd::prelude::*;

verus! {

/// Exit status used by every process of the sandbox tree when a setup step
/// fails before or during namespace and mount configuration.
pub const SETUP_FAILED_STATUS: i32 = 67;

/// Exit status of the reaper when it could not determine the grandchild's
/// exit status (for instance, the grandchild was killed by a signal).
pub const REAPER_UNKNOWN_STATUS: i32 = 66;

/// The sandbox-side process line across the initializer and the PID-1
/// bootstrapper (one process, logically continuous across the second fork
/// and the exec), in the order the steps run.
#[derive(Clone, Copy, Debug, PartialEq, Eq, Structural)]
pub enum SandboxState {
    /// The coordinator has not forked yet: no sandbox process exists.
    NotStarted,
    /// Just forked; about to redirect standard input to the null device.
    Entered,
    /// About to unshare the user, mount, PID, IPC and UTS namespaces in
    /// one call — before any mount operation.
    StdinNulled,
    /// About to mark the whole existing mount tree private and recursive.
    Unshared,
    /// About to bind-mount the sandbox root onto itself, making it a
    /// mount point the later pivot accepts.
    TreePrivate,
    /// About to change the working directory to the sandbox root.
    RootBound,
    /// About to create the host-proc mount point and recursively
    /// bind-mount the host's `/proc` onto it.
    InRoot,
    /// About to recursively bind-mount the host's `/sys` into the root.
    HostProcBound,
    /// About to bind-mount `/dev/null` into the root.
    SysBound,
    /// About to write the "namespaces ready" token.
    DevNullBound,
    /// Blocked reading the "resume" token while the host maps identities.
    AwaitingResume,
    /// About to switch real/effective/saved UID and GID to 0 and clear
    /// supplementary groups to `{0}`.
    Resumed,
    /// About to perform the root-switch sequence (old-root mount point,
    /// pivot, detach, remove).
    Identified,
    /// About to fork the PID-1 bootstrapper; the parent of that fork
    /// becomes the reaper.
    Pivoted,
    /// Now the grandchild; about to validate it is namespace PID 1.
    Bootstrapping,
    /// About to set world-writable-sticky permissions on `/tmp` and
    /// `/var/tmp`.
    PidChecked,
    /// About to mount a fresh `proc` at `/proc` and drop the temporary
    /// host-proc bind mount.
    TmpFixed,
    /// About to remount `/` with no-suid semantics.
    ProcMounted,
    /// About to duplicate the pipe ends and exec the init program.
    Finalized,
    /// The init program has replaced this process, with the duplicated
    /// sandbox-side pipe ends passed as its arguments.
    Execed { recv_fd: u64, send_fd: u64 },
    /// The process terminated with this exit status.
    Exited { code: i32 },
}

/// The outcome of the step the sandbox process was about to perform.
#[derive(Clone, Copy, Debug, PartialEq, Eq, Structural)]
pub enum SandboxEvent {
    /// Outcome of a system-call step (redirect, unshare, mount, chdir,
    /// identity switch, root switch, permissions).
    Step { ok: bool },
    /// Outcome of writing the "namespaces ready" token.
    ReadyWritten { ok: bool },
    /// Outcome of the blocking read of the "resume" token.
    ResumeRead { ok: bool },
    /// Outcome of the second fork (taken on the child's side).
    Forked { ok: bool },
    /// The PID this process observes for itself inside the new namespace.
    PidIs { pid: u64 },
    /// Outcome of the exec, with the duplicated pipe ends it was given.
    Exec { ok: bool, recv_fd: u64, send_fd: u64 },
}

/// The transition relation of the sandbox process line: each step either
/// advances the sequence or terminates the process with the fixed setup
/// failure status. Events that do not belong to the current state leave it
/// unchanged.
pub open spec fn sandbox_next(s: SandboxState, e: SandboxEvent) -> SandboxState {
    match (s, e) {
        (SandboxState::Entered, SandboxEvent::Step { ok }) => if ok {
            SandboxState::StdinNulled
        } else {
            SandboxState::Exited { code: SETUP_FAILED_STATUS }
        },
        (SandboxState::StdinNulled, SandboxEvent::Step { ok }) => if ok {
            SandboxState::Unshared
        } else {
            SandboxState::Exited { code: SETUP_FAILED_STATUS }
        },
        (SandboxState::Unshared, SandboxEvent::Step { ok }) => if ok {
            SandboxState::TreePrivate
        } else {
            SandboxState::Exited { code: SETUP_FAILED_STATUS }
        },
        (SandboxState::TreePrivate, SandboxEvent::Step { ok }) => if ok {
            SandboxState::RootBound
        } else {
            SandboxState::Exited { code: SETUP_FAILED_STATUS }
        },
        (SandboxState::RootBound, SandboxEvent::Step { ok }) => if ok {
            SandboxState::InRoot
        } else {
            SandboxState::Exited { code: SETUP_FAILED_STATUS }
        },
        (SandboxState::InRoot, SandboxEvent::Step { ok }) => if ok {
            SandboxState::HostProcBound
        } else {
            SandboxState::Exited { code: SETUP_FAILED_STATUS }
        },
        (SandboxState::HostProcBound, SandboxEvent::Step { ok }) => if ok {
            SandboxState::SysBound
        } else {
            SandboxState::Exited { code: SETUP_FAILED_STATUS }
        },
        (SandboxState::SysBound, SandboxEvent::Step { ok }) => if ok {
            SandboxState::DevNullBound
        } else {
            SandboxState::Exited { code: SETUP_FAILED_STATUS }
        },
        (SandboxState::DevNullBound, SandboxEvent::ReadyWritten { ok }) => if ok {
            SandboxState::AwaitingResume
        } else {
            SandboxState::Exited { code: SETUP_FAILED_STATUS }
        },
        (SandboxState::AwaitingResume, SandboxEvent::ResumeRead { ok }) => if ok {
            SandboxState::Resumed
        } else {
            SandboxState::Exited { code: SETUP_FAILED_STATUS }
        },
        (SandboxState::Resumed, SandboxEvent::Step { ok }) => if ok {
            SandboxState::Identified
        } else {
            SandboxState::Exited { code: SETUP_FAILED_STATUS }
        },
        (SandboxState::Identified, SandboxEvent::Step { ok }) => if ok {
            SandboxState::Pivoted
        } else {
            SandboxState::Exited { code: SETUP_FAILED_STATUS }
        },
        (SandboxState::Pivoted, SandboxEvent::Forked { ok }) => if ok {
            SandboxState::Bootstrapping
        } else {
            SandboxState::Exited { code: SETUP_FAILED_STATUS }
        },
        (SandboxState::Bootstrapping, SandboxEvent::PidIs { pid }) => if pid == 1 {
            SandboxState::PidChecked
        } else {
            SandboxState::Exited { code: SETUP_FAILED_STATUS }
        },
        (SandboxState::PidChecked, SandboxEvent::Step { ok }) => if ok {
            SandboxState::TmpFixed
        } else {
            SandboxState::Exited { code: SETUP_FAILED_STATUS }
        },
        (SandboxState::TmpFixed, SandboxEvent::Step { ok }) => if ok {
            SandboxState::ProcMounted
        } else {
            SandboxState::Exited { code: SETUP_FAILED_STATUS }
        },
        (SandboxState::ProcMounted, SandboxEvent::Step { ok }) => if ok {
            SandboxState::Finalized
        } else {
            SandboxState::Exited { code: SETUP_FAILED_STATUS }
        },
        (SandboxState::Finalized, SandboxEvent::Exec { ok, recv_fd, send_fd }) => if ok {
            SandboxState::Execed { recv_fd, send_fd }
        } else {
            SandboxState::Exited { code: SETUP_FAILED_STATUS }
        },
        _ => s,
    }
}

/// Advances the sandbox process line by one observed outcome.
pub fn sandbox_step(s: SandboxState, e: SandboxEvent) -> (r: SandboxState)
    ensures
        r == sandbox_next(s, e),
{
    match (s, e) {
        (SandboxState::Entered, SandboxEvent::Step { ok }) => if ok {
            SandboxState::StdinNulled
        } else {
            SandboxState::Exited { code: SETUP_FAILED_STATUS }
        },
        (SandboxState::StdinNulled, SandboxEvent::Step { ok }) => if ok {
            SandboxState::Unshared
        } else {
            SandboxState::Exited { code: SETUP_FAILED_STATUS }
        },
        (SandboxState::Unshared, SandboxEvent::Step { ok }) => if ok {
            SandboxState::TreePrivate
        } else {
            SandboxState::Exited { code: SETUP_FAILED_STATUS }
        },
        (SandboxState::TreePrivate, SandboxEvent::Step { ok }) => if ok {
            SandboxState::RootBound
        } else {
            SandboxState::Exited { code: SETUP_FAILED_STATUS }
        },
        (SandboxState::RootBound, SandboxEvent::Step { ok }) => if ok {
            SandboxState::InRoot
        } else {
            SandboxState::Exited { code: SETUP_FAILED_STATUS }
        },
        (SandboxState::InRoot, SandboxEvent::Step { ok }) => if ok {
            SandboxState::HostProcBound
        } else {
            SandboxState::Exited { code: SETUP_FAILED_STATUS }
        },
        (SandboxState::HostProcBound, SandboxEvent::Step { ok }) => if ok {
            SandboxState::SysBound
        } else {
            SandboxState::Exited { code: SETUP_FAILED_STATUS }
        },
        (SandboxState::SysBound, SandboxEvent::Step { ok }) => if ok {
            SandboxState::DevNullBound
        } else {
            SandboxState::Exited { code: SETUP_FAILED_STATUS }
        },
        (SandboxState::DevNullBound, SandboxEvent::ReadyWritten { ok }) => if ok {
            SandboxState::AwaitingResume
        } else {
            SandboxState::Exited { code: SETUP_FAILED_STATUS }
        },
        (SandboxState::AwaitingResume, SandboxEvent::ResumeRead { ok }) => if ok {
            SandboxState::Resumed
        } else {
            SandboxState::Exited { code: SETUP_FAILED_STATUS }
        },
        (SandboxState::Resumed, SandboxEvent::Step { ok }) => if ok {
            SandboxState::Identified
        } else {
            SandboxState::Exited { code: SETUP_FAILED_STATUS }
        },
        (SandboxState::Identified, SandboxEvent::Step { ok }) => if ok {
            SandboxState::Pivoted
        } else {
            SandboxState::Exited { code: SETUP_FAILED_STATUS }
        },
        (SandboxState::Pivoted, SandboxEvent::Forked { ok }) => if ok {
            SandboxState::Bootstrapping
        } else {
            SandboxState::Exited { code: SETUP_FAILED_STATUS }
        },
        (SandboxState::Bootstrapping, SandboxEvent::PidIs { pid }) => if pid == 1 {
            SandboxState::PidChecked
        } else {
            SandboxState::Exited { code: SETUP_FAILED_STATUS }
        },
        (SandboxState::PidChecked, SandboxEvent::Step { ok }) => if ok {
            SandboxState::TmpFixed
        } else {
            SandboxState::Exited { code: SETUP_FAILED_STATUS }
        },
        (SandboxState::TmpFixed, SandboxEvent::Step { ok }) => if ok {
            SandboxState::ProcMounted
        } else {
            SandboxState::Exited { code: SETUP_FAILED_STATUS }
        },
        (SandboxState::ProcMounted, SandboxEvent::Step { ok }) => if ok {
            SandboxState::Finalized
        } else {
            SandboxState::Exited { code: SETUP_FAILED_STATUS }
        },
        (SandboxState::Finalized, SandboxEvent::Exec { ok, recv_fd, send_fd }) => if ok {
            SandboxState::Execed { recv_fd, send_fd }
        } else {
            SandboxState::Exited { code: SETUP_FAILED_STATUS }
        },
        _ => s,
    }
}

/// What the sandbox process line does next in each state.
#[derive(Clone, Copy, Debug, PartialEq, Eq, Structural)]
pub enum SandboxAction {
    /// Redirect standard input to the null device.
    RedirectStdin,
    /// Unshare the user, mount, PID, IPC and UTS namespaces in one call.
    UnshareNamespaces,
    /// Mark the whole existing mount tree private and recursive.
    PrivatizeMountTree,
    /// Bind-mount the sandbox root onto itself.
    BindRootOntoItself,
    /// Change the working directory to the sandbox root.
    EnterRoot,
    /// Create the host-proc mount point and recursively bind-mount the
    /// host's `/proc` onto it.
    BindHostProc,
    /// Recursively bind-mount the host's `/sys` into the root.
    BindSys,
    /// Bind-mount `/dev/null` into the root.
    BindDevNull,
    /// Write the "namespaces ready" token.
    SignalReady,
    /// Block reading the "resume" token.
    AwaitResume,
    /// Switch real/effective/saved UID and GID to 0 and clear
    /// supplementary groups to `{0}`.
    SwitchIdentity,
    /// Perform the root-switch sequence.
    SwitchRoot,
    /// Fork the PID-1 bootstrapper; the parent becomes the reaper.
    ForkBootstrapper,
    /// Observe this process's PID inside the new namespace.
    CheckNamespacePid,
    /// Set world-writable-sticky permissions on `/tmp` and `/var/tmp`.
    FixTmpPermissions,
    /// Mount a fresh `proc` at `/proc` and drop the host-proc bind mount.
    MountProc,
    /// Remount `/` with no-suid semantics.
    RemountRootNoSuid,
    /// Duplicate the pipe ends and exec the init program.
    ExecInit,
    /// Nothing: no process exists, the exec happened, or the process has
    /// terminated.
    Halt,
}

/// The action pending in each state of the sandbox line.
pub open spec fn sandbox_pending_spec(s: SandboxState) -> SandboxAction {
    match s {
        SandboxState::NotStarted => SandboxAction::Halt,
        SandboxState::Entered => SandboxAction::RedirectStdin,
        SandboxState::StdinNulled => SandboxAction::UnshareNamespaces,
        SandboxState::Unshared => SandboxAction::PrivatizeMountTree,
        SandboxState::TreePrivate => SandboxAction::BindRootOntoItself,
        SandboxState::RootBound => SandboxAction::EnterRoot,
        SandboxState::InRoot => SandboxAction::BindHostProc,
        SandboxState::HostProcBound => SandboxAction::BindSys,
        SandboxState::SysBound => SandboxAction::BindDevNull,
        SandboxState::DevNullBound => SandboxAction::SignalReady,
        SandboxState::AwaitingResume => SandboxAction::AwaitResume,
        SandboxState::Resumed => SandboxAction::SwitchIdentity,
        SandboxState::Identified => SandboxAction::SwitchRoot,
        SandboxState::Pivoted => SandboxAction::ForkBootstrapper,
        SandboxState::Bootstrapping => SandboxAction::CheckNamespacePid,
        SandboxState::PidChecked => SandboxAction::FixTmpPermissions,
        SandboxState::TmpFixed => SandboxAction::MountProc,
        SandboxState::ProcMounted => SandboxAction::RemountRootNoSuid,
        SandboxState::Finalized => SandboxAction::ExecInit,
        SandboxState::Execed { .. } => SandboxAction::Halt,
        SandboxState::Exited { .. } => SandboxAction::Halt,
    }
}

/// Tells the driver what to perform next.
pub fn sandbox_pending(s: SandboxState) -> (r: SandboxAction)
    ensures
        r == sandbox_pending_spec(s),
{
    match s {
        SandboxState::NotStarted => SandboxAction::Halt,
        SandboxState::Entered => SandboxAction::RedirectStdin,
        SandboxState::StdinNulled => SandboxAction::UnshareNamespaces,
        SandboxState::Unshared => SandboxAction::PrivatizeMountTree,
        SandboxState::TreePrivate => SandboxAction::BindRootOntoItself,
        SandboxState::RootBound => SandboxAction::EnterRoot,
        SandboxState::InRoot => SandboxAction::BindHostProc,
        SandboxState::HostProcBound => SandboxAction::BindSys,
        SandboxState::SysBound => SandboxAction::BindDevNull,
        SandboxState::DevNullBound => SandboxAction::SignalReady,
        SandboxState::AwaitingResume => SandboxAction::AwaitResume,
        SandboxState::Resumed => SandboxAction::SwitchIdentity,
        SandboxState::Identified => SandboxAction::SwitchRoot,
        SandboxState::Pivoted => SandboxAction::ForkBootstrapper,
        SandboxState::Bootstrapping => SandboxAction::CheckNamespacePid,
        SandboxState::PidChecked => SandboxAction::FixTmpPermissions,
        SandboxState::TmpFixed => SandboxAction::MountProc,
        SandboxState::ProcMounted => SandboxAction::RemountRootNoSuid,
        SandboxState::Finalized => SandboxAction::ExecInit,
        SandboxState::Execed { .. } => SandboxAction::Halt,
        SandboxState::Exited { .. } => SandboxAction::Halt,
    }
}

/// Exit status the intermediate reaper mirrors: the grandchild's own exit
/// code when it exited normally, and the fixed fallback when its exit
/// status could not be determined (for instance it was signaled) — the
/// fallback is kept as a fixed code rather than the signal number.
pub fn reaper_exit_status(child: Option<i32>) -> (r: i32)
    ensures
        child matches Some(code) ==> r == code,
        child is None ==> r == REAPER_UNKNOWN_STATUS,
{
    match child {
        Some(code) => code,
        None => REAPER_UNKNOWN_STATUS,
    }
}

} // verus!
