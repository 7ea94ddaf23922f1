use vstd::prelude::*;

verus! {

/// Why sandbox setup failed on the coordinator's side.
#[derive(Clone, Copy, Debug, PartialEq, Eq, Structural)]
pub enum SetupError {
    /// A pre-privilege filesystem step failed (rootfs missing, unwritable,
    /// init injection or resolver write failed). Fully recoverable: nothing
    /// privileged has happened yet.
    Rootfs,
    /// Allocating the handshake pipes failed.
    Channel,
    /// The fork of the namespace initializer failed.
    ForkFailed,
    /// A handshake pipe read or write failed — the peer died before or
    /// during its privileged sequence.
    Handshake,
    /// The UID-mapping helper exited with this non-zero status.
    UidMap { status: i32 },
    /// The GID-mapping helper exited with this non-zero status.
    GidMap { status: i32 },
}

/// The handle `prepare` returns: the PID of the outer forked process as the
/// host sees it (PID 1 inside the sandbox's own PID namespace). The
/// host-side pipe ends travel beside it in the unverified driver.
#[derive(Clone, Copy, Debug, PartialEq, Eq, Structural)]
pub struct SandboxHandle {
    pub pid: u64,
}

/// The coordinator's state across `prepare`, in the order the steps run.
#[derive(Clone, Copy, Debug, PartialEq, Eq, Structural)]
pub enum HostState {
    /// About to ensure the unpacked rootfs exists.
    Start,
    /// Rootfs present; about to inject the init binary (mode 0755) and
    /// write the static resolver configuration.
    RootReady,
    /// About to allocate the two handshake pipes.
    Injected,
    /// About to fork the namespace initializer.
    ChannelReady,
    /// Blocked reading the "namespaces ready" token from the sandbox.
    AwaitingReady { pid: u64 },
    /// About to invoke the UID-mapping helper against `pid`.
    MappingUids { pid: u64 },
    /// About to invoke the GID-mapping helper against `pid`.
    MappingGids { pid: u64 },
    /// About to write the "resume" token, releasing the initializer.
    Releasing { pid: u64 },
    /// Setup succeeded; a handle for `pid` is owed to the caller.
    Done { pid: u64 },
    /// Setup failed; `error` is owed to the caller.
    Failed { error: SetupError },
}

/// The outcome of the step the coordinator was about to perform.
#[derive(Clone, Copy, Debug, PartialEq, Eq, Structural)]
pub enum HostEvent {
    /// Outcome of a filesystem or pipe-allocation step.
    Step { ok: bool },
    /// Outcome of the fork; `pid` is the child's PID when `ok`.
    Forked { ok: bool, pid: u64 },
    /// Outcome of the blocking read of the "namespaces ready" token.
    ReadyRead { ok: bool },
    /// Exit status of an ID-mapping helper (zero means success).
    Helper { status: i32 },
    /// Outcome of writing the "resume" token.
    ResumeWritten { ok: bool },
}

/// The transition relation of the coordinator: one step of `prepare` per
/// event, failures routed to the error the caller sees. Events that do not
/// belong to the current state leave it unchanged.
pub open spec fn host_next(s: HostState, e: HostEvent) -> HostState {
    match (s, e) {
        (HostState::Start, HostEvent::Step { ok }) => if ok {
            HostState::RootReady
        } else {
            HostState::Failed { error: SetupError::Rootfs }
        },
        (HostState::RootReady, HostEvent::Step { ok }) => if ok {
            HostState::Injected
        } else {
            HostState::Failed { error: SetupError::Rootfs }
        },
        (HostState::Injected, HostEvent::Step { ok }) => if ok {
            HostState::ChannelReady
        } else {
            HostState::Failed { error: SetupError::Channel }
        },
        (HostState::ChannelReady, HostEvent::Forked { ok, pid }) => if ok {
            HostState::AwaitingReady { pid }
        } else {
            HostState::Failed { error: SetupError::ForkFailed }
        },
        (HostState::AwaitingReady { pid }, HostEvent::ReadyRead { ok }) => if ok {
            HostState::MappingUids { pid }
        } else {
            HostState::Failed { error: SetupError::Handshake }
        },
        (HostState::MappingUids { pid }, HostEvent::Helper { status }) => if status == 0 {
            HostState::MappingGids { pid }
        } else {
            HostState::Failed { error: SetupError::UidMap { status } }
        },
        (HostState::MappingGids { pid }, HostEvent::Helper { status }) => if status == 0 {
            HostState::Releasing { pid }
        } else {
            HostState::Failed { error: SetupError::GidMap { status } }
        },
        (HostState::Releasing { pid }, HostEvent::ResumeWritten { ok }) => if ok {
            HostState::Done { pid }
        } else {
            HostState::Failed { error: SetupError::Handshake }
        },
        _ => s,
    }
}

/// Advances the coordinator by one observed outcome.
pub fn host_step(s: HostState, e: HostEvent) -> (r: HostState)
    ensures
        r == host_next(s, e),
{
    match (s, e) {
        (HostState::Start, HostEvent::Step { ok }) => if ok {
            HostState::RootReady
        } else {
            HostState::Failed { error: SetupError::Rootfs }
        },
        (HostState::RootReady, HostEvent::Step { ok }) => if ok {
            HostState::Injected
        } else {
            HostState::Failed { error: SetupError::Rootfs }
        },
        (HostState::Injected, HostEvent::Step { ok }) => if ok {
            HostState::ChannelReady
        } else {
            HostState::Failed { error: SetupError::Channel }
        },
        (HostState::ChannelReady, HostEvent::Forked { ok, pid }) => if ok {
            HostState::AwaitingReady { pid }
        } else {
            HostState::Failed { error: SetupError::ForkFailed }
        },
        (HostState::AwaitingReady { pid }, HostEvent::ReadyRead { ok }) => if ok {
            HostState::MappingUids { pid }
        } else {
            HostState::Failed { error: SetupError::Handshake }
        },
        (HostState::MappingUids { pid }, HostEvent::Helper { status }) => if status == 0 {
            HostState::MappingGids { pid }
        } else {
            HostState::Failed { error: SetupError::UidMap { status } }
        },
        (HostState::MappingGids { pid }, HostEvent::Helper { status }) => if status == 0 {
            HostState::Releasing { pid }
        } else {
            HostState::Failed { error: SetupError::GidMap { status } }
        },
        (HostState::Releasing { pid }, HostEvent::ResumeWritten { ok }) => if ok {
            HostState::Done { pid }
        } else {
            HostState::Failed { error: SetupError::Handshake }
        },
        _ => s,
    }
}

/// What the coordinator does next in each state.
#[derive(Clone, Copy, Debug, PartialEq, Eq, Structural)]
pub enum HostAction {
    /// Ensure the unpacked rootfs exists (unpack once if absent).
    EnsureRootfs,
    /// Copy the init binary into `bin/` with mode 0755 and write the
    /// static resolver configuration.
    InjectInit,
    /// Allocate the two handshake pipes.
    MakeChannel,
    /// Fork the namespace initializer.
    Fork,
    /// Block reading the "namespaces ready" token.
    ReadReadyToken,
    /// Invoke the UID-mapping helper.
    RunUidHelper,
    /// Invoke the GID-mapping helper.
    RunGidHelper,
    /// Write the "resume" token.
    WriteResumeToken,
    /// Nothing: the run has ended in `Done` or `Failed`.
    Finish,
}

/// The action pending in each coordinator state.
pub open spec fn host_pending_spec(s: HostState) -> HostAction {
    match s {
        HostState::Start => HostAction::EnsureRootfs,
        HostState::RootReady => HostAction::InjectInit,
        HostState::Injected => HostAction::MakeChannel,
        HostState::ChannelReady => HostAction::Fork,
        HostState::AwaitingReady { .. } => HostAction::ReadReadyToken,
        HostState::MappingUids { .. } => HostAction::RunUidHelper,
        HostState::MappingGids { .. } => HostAction::RunGidHelper,
        HostState::Releasing { .. } => HostAction::WriteResumeToken,
        HostState::Done { .. } => HostAction::Finish,
        HostState::Failed { .. } => HostAction::Finish,
    }
}

/// Tells the driver what to perform next.
pub fn host_pending(s: HostState) -> (r: HostAction)
    ensures
        r == host_pending_spec(s),
{
    match s {
        HostState::Start => HostAction::EnsureRootfs,
        HostState::RootReady => HostAction::InjectInit,
        HostState::Injected => HostAction::MakeChannel,
        HostState::ChannelReady => HostAction::Fork,
        HostState::AwaitingReady { .. } => HostAction::ReadReadyToken,
        HostState::MappingUids { .. } => HostAction::RunUidHelper,
        HostState::MappingGids { .. } => HostAction::RunGidHelper,
        HostState::Releasing { .. } => HostAction::WriteResumeToken,
        HostState::Done { .. } => HostAction::Finish,
        HostState::Failed { .. } => HostAction::Finish,
    }
}

/// The result `prepare` owes its caller in each terminal state: a handle
/// when the run ended in `Done`, the error when it ended in `Failed`, and
/// nothing while the run is still in progress.
pub fn host_result(s: HostState) -> (r: Option<Result<SandboxHandle, SetupError>>)
    ensures
        s matches HostState::Done { pid } ==> r == Some(
            Ok::<SandboxHandle, SetupError>(SandboxHandle { pid }),
        ),
        s matches HostState::Failed { error } ==> r == Some(
            Err::<SandboxHandle, SetupError>(error),
        ),
        !(s is Done) && !(s is Failed) ==> r is None,
{
    match s {
        HostState::Done { pid } => Some(Ok(SandboxHandle { pid })),
        HostState::Failed { error } => Some(Err(error)),
        _ => None,
    }
}

} // verus!
