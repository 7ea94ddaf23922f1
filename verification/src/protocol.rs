use vstd::prelude::*;

use crate::host::{HostEvent, HostState, SetupError, host_next};
use crate::sandbox::{SandboxEvent, SandboxState, sandbox_next};

verus! {

/// The handshake channel: two one-directional pipes, each carrying one
/// single-byte token. Each token is written at most once and read at most
/// once, and a read can only follow the corresponding write.
#[derive(Clone, Copy, Debug, PartialEq, Eq, Structural)]
pub struct ChannelState {
    /// The sandbox has written the "namespaces ready" token.
    pub ready_sent: bool,
    /// The host has read the "namespaces ready" token.
    pub ready_received: bool,
    /// The host has written the "resume" token.
    pub resume_sent: bool,
    /// The sandbox has read the "resume" token.
    pub resume_received: bool,
}

pub open spec fn channel_start() -> ChannelState {
    ChannelState { ready_sent: false, ready_received: false, resume_sent: false, resume_received: false }
}

/// The whole bootstrap as one system: the coordinator, the sandbox process
/// line, and the handshake channel between them.
#[derive(Clone, Copy, Debug, PartialEq, Eq, Structural)]
pub struct BootState {
    pub host: HostState,
    pub sandbox: SandboxState,
    pub chan: ChannelState,
}

pub open spec fn boot_start() -> BootState {
    BootState { host: HostState::Start, sandbox: SandboxState::NotStarted, chan: channel_start() }
}

/// One interleaving step of the system: an outcome observed by one side.
#[derive(Clone, Copy, Debug, PartialEq, Eq, Structural)]
pub enum BootStep {
    HostAt { event: HostEvent },
    SandboxAt { event: SandboxEvent },
}

/// Whether an event is of the kind the coordinator's state is waiting for.
/// Terminal states wait for nothing.
pub open spec fn host_fits(h: HostState, e: HostEvent) -> bool {
    match h {
        HostState::Start | HostState::RootReady | HostState::Injected => e is Step,
        HostState::ChannelReady => e is Forked,
        HostState::AwaitingReady { .. } => e is ReadyRead,
        HostState::MappingUids { .. } | HostState::MappingGids { .. } => e is Helper,
        HostState::Releasing { .. } => e is ResumeWritten,
        HostState::Done { .. } | HostState::Failed { .. } => false,
    }
}

/// Whether an event is of the kind the sandbox line's state is waiting
/// for. No process exists before the fork, and nothing follows the exec or
/// an exit.
pub open spec fn sandbox_fits(s: SandboxState, e: SandboxEvent) -> bool {
    match s {
        SandboxState::NotStarted => false,
        SandboxState::Entered
        | SandboxState::StdinNulled
        | SandboxState::Unshared
        | SandboxState::TreePrivate
        | SandboxState::RootBound
        | SandboxState::InRoot
        | SandboxState::HostProcBound
        | SandboxState::SysBound => e is Step,
        SandboxState::DevNullBound => e is ReadyWritten,
        SandboxState::AwaitingResume => e is ResumeRead,
        SandboxState::Resumed | SandboxState::Identified => e is Step,
        SandboxState::Pivoted => e is Forked,
        SandboxState::Bootstrapping => e is PidIs,
        SandboxState::PidChecked | SandboxState::TmpFixed | SandboxState::ProcMounted => e is Step,
        SandboxState::Finalized => e is Exec,
        SandboxState::Execed { .. } | SandboxState::Exited { .. } => false,
    }
}

/// Which steps the real system can take from a state: the event must be of
/// the kind its side is waiting for, a fork needs a not-yet-started
/// sandbox, and a token can be read successfully only after it was written
/// and before anyone else read it.
pub open spec fn step_enabled(s: BootState, step: BootStep) -> bool {
    match step {
        BootStep::HostAt { event } => host_fits(s.host, event) && match event {
            HostEvent::Forked { ok, .. } => ok ==> s.sandbox is NotStarted,
            HostEvent::ReadyRead { ok } => ok ==> s.chan.ready_sent && !s.chan.ready_received,
            HostEvent::ResumeWritten { ok } => ok ==> !s.chan.resume_sent,
            _ => true,
        },
        BootStep::SandboxAt { event } => sandbox_fits(s.sandbox, event) && match event {
            SandboxEvent::ReadyWritten { ok } => ok ==> !s.chan.ready_sent,
            SandboxEvent::ResumeRead { ok } => ok ==> s.chan.resume_sent && !s.chan.resume_received,
            _ => true,
        },
    }
}

/// The system transition: the acting side advances by its own transition
/// relation; a successful fork brings the sandbox line into existence; and
/// successful token writes and reads move the channel.
pub open spec fn step_next(s: BootState, step: BootStep) -> BootState {
    match step {
        BootStep::HostAt { event } => BootState {
            host: host_next(s.host, event),
            sandbox: match event {
                HostEvent::Forked { ok, .. } => if ok {
                    SandboxState::Entered
                } else {
                    s.sandbox
                },
                _ => s.sandbox,
            },
            chan: match event {
                HostEvent::ReadyRead { ok } => if ok {
                    ChannelState { ready_received: true, ..s.chan }
                } else {
                    s.chan
                },
                HostEvent::ResumeWritten { ok } => if ok {
                    ChannelState { resume_sent: true, ..s.chan }
                } else {
                    s.chan
                },
                _ => s.chan,
            },
        },
        BootStep::SandboxAt { event } => BootState {
            host: s.host,
            sandbox: sandbox_next(s.sandbox, event),
            chan: match event {
                SandboxEvent::ReadyWritten { ok } => if ok {
                    ChannelState { ready_sent: true, ..s.chan }
                } else {
                    s.chan
                },
                SandboxEvent::ResumeRead { ok } => if ok {
                    ChannelState { resume_received: true, ..s.chan }
                } else {
                    s.chan
                },
                _ => s.chan,
            },
        },
    }
}

/// Every step of the trace is enabled in the state it is taken from.
pub open spec fn trace_enabled(s: BootState, steps: Seq<BootStep>) -> bool
    decreases steps.len(),
{
    steps.len() == 0 || (step_enabled(s, steps[0]) && trace_enabled(
        step_next(s, steps[0]),
        steps.drop_first(),
    ))
}

/// The state after running a trace.
pub open spec fn run_trace(s: BootState, steps: Seq<BootStep>) -> BootState
    decreases steps.len(),
{
    if steps.len() == 0 {
        s
    } else {
        run_trace(step_next(s, steps[0]), steps.drop_first())
    }
}

/// The host is about to invoke an ID-mapping helper.
pub open spec fn host_mapping(h: HostState) -> bool {
    h is MappingUids || h is MappingGids
}

/// The host has read the "namespaces ready" token.
pub open spec fn host_past_ready_read(h: HostState) -> bool {
    h is MappingUids || h is MappingGids || h is Releasing || h is Done
}

/// Host states at or before the fork, including failures that can only
/// arise before any child exists.
pub open spec fn host_prefork(h: HostState) -> bool {
    match h {
        HostState::Start | HostState::RootReady | HostState::Injected | HostState::ChannelReady => true,
        HostState::Failed { error } => match error {
            SetupError::Rootfs | SetupError::Channel | SetupError::ForkFailed => true,
            _ => false,
        },
        _ => false,
    }
}

/// The coordinator failed on a pre-privilege filesystem or pipe step,
/// before any fork.
pub open spec fn host_prefork_failed(h: HostState) -> bool {
    match h {
        HostState::Failed { error } => match error {
            SetupError::Rootfs | SetupError::Channel => true,
            _ => false,
        },
        _ => false,
    }
}

/// The sandbox has written the "namespaces ready" token and is still
/// running or execed.
pub open spec fn sandbox_signalled_ready(s: SandboxState) -> bool {
    match s {
        SandboxState::AwaitingResume
        | SandboxState::Resumed
        | SandboxState::Identified
        | SandboxState::Pivoted
        | SandboxState::Bootstrapping
        | SandboxState::PidChecked
        | SandboxState::TmpFixed
        | SandboxState::ProcMounted
        | SandboxState::Finalized
        | SandboxState::Execed { .. } => true,
        _ => false,
    }
}

/// The sandbox has read the "resume" token: its privileged identity switch
/// is at hand or behind it.
pub open spec fn sandbox_past_resume(s: SandboxState) -> bool {
    match s {
        SandboxState::Resumed
        | SandboxState::Identified
        | SandboxState::Pivoted
        | SandboxState::Bootstrapping
        | SandboxState::PidChecked
        | SandboxState::TmpFixed
        | SandboxState::ProcMounted
        | SandboxState::Finalized
        | SandboxState::Execed { .. } => true,
        _ => false,
    }
}

/// The sandbox line has passed the PID-1 validation.
pub open spec fn sandbox_bootstrapped(s: SandboxState) -> bool {
    match s {
        SandboxState::PidChecked
        | SandboxState::TmpFixed
        | SandboxState::ProcMounted
        | SandboxState::Finalized
        | SandboxState::Execed { .. } => true,
        _ => false,
    }
}

/// The invariant tying the three parts together: tokens are read only
/// after they are written; the helpers run only after the ready token was
/// read; the resume token exists exactly when the coordinator has
/// completed; the identity switch happens only after the resume token was
/// read; and no sandbox process exists while the coordinator is at or
/// before its fork.
pub open spec fn boot_inv(s: BootState) -> bool {
    &&& (s.chan.ready_received ==> s.chan.ready_sent)
    &&& (s.chan.resume_received ==> s.chan.resume_sent)
    &&& (sandbox_signalled_ready(s.sandbox) ==> s.chan.ready_sent)
    &&& (host_past_ready_read(s.host) ==> s.chan.ready_received)
    &&& (s.chan.resume_sent <==> s.host is Done)
    &&& (sandbox_past_resume(s.sandbox) ==> s.chan.resume_received)
    &&& (!(s.sandbox is NotStarted) ==> !host_prefork(s.host))
}

/// One enabled step preserves the invariant.
pub proof fn lemma_inv_step(s: BootState, step: BootStep)
    requires
        boot_inv(s),
        step_enabled(s, step),
    ensures
        boot_inv(step_next(s, step)),
{
}

/// The ordering the two-phase barrier guarantees, as a property of a
/// single system state.
pub open spec fn ordered_at(s: BootState) -> bool {
    &&& host_mapping(s.host) ==> (s.chan.ready_sent && s.chan.ready_received)
    &&& sandbox_past_resume(s.sandbox) ==> (s.chan.resume_sent && s.chan.resume_received
        && s.host is Done)
}

/// `ordered_at` holds at every state along the trace.
pub open spec fn ordered_throughout(s: BootState, steps: Seq<BootStep>) -> bool
    decreases steps.len(),
{
    ordered_at(s) && (steps.len() == 0 || ordered_throughout(
        step_next(s, steps[0]),
        steps.drop_first(),
    ))
}

proof fn lemma_ordered_rec(s: BootState, steps: Seq<BootStep>)
    requires
        trace_enabled(s, steps),
        boot_inv(s),
    ensures
        ordered_throughout(s, steps),
    decreases steps.len(),
{
    if steps.len() > 0 {
        lemma_inv_step(s, steps[0]);
        lemma_ordered_rec(step_next(s, steps[0]), steps.drop_first());
    }
}

/// Law (handshake ordering): along every enabled trace of the system, the
/// host's read of the "namespaces ready" token has completed before any
/// ID-mapping helper is invoked, and the sandbox's read of the "resume"
/// token — and with it the host's whole identity transition — has
/// completed before the sandbox's UID/GID switch.
pub proof fn lemma_handshake_ordered(steps: Seq<BootStep>)
    requires
        trace_enabled(boot_start(), steps),
    ensures
        ordered_throughout(boot_start(), steps),
{
    lemma_ordered_rec(boot_start(), steps);
}

/// An ID-mapping helper reported a non-zero exit status.
pub open spec fn helper_failed_step(step: BootStep) -> bool {
    match step {
        BootStep::HostAt { event: HostEvent::Helper { status } } => status != 0,
        _ => false,
    }
}

pub open spec fn some_helper_failure(steps: Seq<BootStep>) -> bool {
    exists|i: int| 0 <= i < steps.len() && helper_failed_step(steps[i])
}

/// At no state along the trace has the coordinator succeeded or the init
/// program been execed.
pub open spec fn never_execed_nor_done(s: BootState, steps: Seq<BootStep>) -> bool
    decreases steps.len(),
{
    &&& !(s.sandbox is Execed)
    &&& !(s.host is Done)
    &&& (steps.len() == 0 || never_execed_nor_done(step_next(s, steps[0]), steps.drop_first()))
}

proof fn lemma_blocked_rec(s: BootState, steps: Seq<BootStep>)
    requires
        trace_enabled(s, steps),
        boot_inv(s),
        some_helper_failure(steps) || (s.host is Failed && !s.chan.resume_sent),
    ensures
        never_execed_nor_done(s, steps),
        run_trace(s, steps).host is Failed,
    decreases steps.len(),
{
    if s.host is Failed && !s.chan.resume_sent {
        assert(!(s.sandbox is Execed));
        if steps.len() > 0 {
            let s1 = step_next(s, steps[0]);
            lemma_inv_step(s, steps[0]);
            assert(s1.host is Failed && !s1.chan.resume_sent);
            lemma_blocked_rec(s1, steps.drop_first());
        }
    } else {
        let i = choose|i: int| 0 <= i < steps.len() && helper_failed_step(steps[i]);
        let s1 = step_next(s, steps[0]);
        lemma_inv_step(s, steps[0]);
        if helper_failed_step(steps[0]) {
            assert(host_mapping(s.host));
            assert(!s.chan.resume_sent);
            assert(s1.host is Failed && !s1.chan.resume_sent);
            lemma_blocked_rec(s1, steps.drop_first());
        } else {
            assert(i >= 1);
            assert(steps.drop_first()[i - 1] == steps[i]);
            assert(some_helper_failure(steps.drop_first()));
            lemma_blocked_rec(s1, steps.drop_first());
            assert(!(s1.host is Done) && !(s1.sandbox is Execed));
            assert(!(s.host is Done));
            assert(!(s.sandbox is Execed));
        }
    }
}

/// Law: if an ID-mapping helper exits non-zero, the coordinator ends the
/// trace in its failure state — so `prepare` can only report an error —
/// and the init program is never execed: at every point of the trace the
/// sandbox line is short of the exec, so its only terminal outcome is an
/// exit.
pub proof fn lemma_helper_failure_blocks_exec(steps: Seq<BootStep>)
    requires
        trace_enabled(boot_start(), steps),
        some_helper_failure(steps),
    ensures
        never_execed_nor_done(boot_start(), steps),
        run_trace(boot_start(), steps).host is Failed,
{
    lemma_blocked_rec(boot_start(), steps);
}

/// The coordinator is at some point in a pre-fork failure state.
pub open spec fn reaches_prefork_failure(s: BootState, steps: Seq<BootStep>) -> bool
    decreases steps.len(),
{
    host_prefork_failed(s.host) || (steps.len() > 0 && reaches_prefork_failure(
        step_next(s, steps[0]),
        steps.drop_first(),
    ))
}

/// No sandbox process ever exists along the trace.
pub open spec fn fork_free(s: BootState, steps: Seq<BootStep>) -> bool
    decreases steps.len(),
{
    s.sandbox is NotStarted && (steps.len() == 0 || fork_free(
        step_next(s, steps[0]),
        steps.drop_first(),
    ))
}

proof fn lemma_nonprefork_no_failure(s: BootState, steps: Seq<BootStep>)
    requires
        trace_enabled(s, steps),
        !host_prefork(s.host),
    ensures
        !reaches_prefork_failure(s, steps),
    decreases steps.len(),
{
    if steps.len() > 0 {
        lemma_nonprefork_no_failure(step_next(s, steps[0]), steps.drop_first());
    }
}

proof fn lemma_fork_free_rec(s: BootState, steps: Seq<BootStep>)
    requires
        trace_enabled(s, steps),
        boot_inv(s),
        reaches_prefork_failure(s, steps),
    ensures
        fork_free(s, steps),
        host_prefork_failed(run_trace(s, steps).host),
    decreases steps.len(),
{
    if !(s.sandbox is NotStarted) {
        lemma_nonprefork_no_failure(s, steps);
        assert(false);
    }
    if steps.len() > 0 {
        if host_prefork_failed(s.host) {
            assert(!step_enabled(s, steps[0]));
            assert(false);
        }
        let s1 = step_next(s, steps[0]);
        lemma_inv_step(s, steps[0]);
        lemma_fork_free_rec(s1, steps.drop_first());
    }
}

/// Law: if the coordinator fails on a pre-privilege filesystem or pipe
/// step (rootfs missing or unwritable, injection or pipe allocation
/// failed), no fork ever occurs: no sandbox process exists at any point of
/// the trace, nothing privileged has happened, and the trace ends with the
/// coordinator still in that recoverable failure state.
pub proof fn lemma_prefork_failure_means_no_fork(steps: Seq<BootStep>)
    requires
        trace_enabled(boot_start(), steps),
        reaches_prefork_failure(boot_start(), steps),
    ensures
        fork_free(boot_start(), steps),
        host_prefork_failed(run_trace(boot_start(), steps).host),
{
    lemma_fork_free_rec(boot_start(), steps);
}

/// The sandbox observed itself as namespace PID 1.
pub open spec fn pid1_step(step: BootStep) -> bool {
    step matches BootStep::SandboxAt { event: SandboxEvent::PidIs { pid } } && pid == 1
}

pub open spec fn some_pid1_event(steps: Seq<BootStep>) -> bool {
    exists|i: int| 0 <= i < steps.len() && pid1_step(steps[i])
}

proof fn lemma_pid1_rec(s: BootState, steps: Seq<BootStep>)
    requires
        trace_enabled(s, steps),
        !sandbox_bootstrapped(s.sandbox),
        sandbox_bootstrapped(run_trace(s, steps).sandbox),
    ensures
        some_pid1_event(steps),
    decreases steps.len(),
{
    let s1 = step_next(s, steps[0]);
    if sandbox_bootstrapped(s1.sandbox) {
        assert(pid1_step(steps[0]));
        assert(some_pid1_event(steps));
    } else {
        lemma_pid1_rec(s1, steps.drop_first());
        let i = choose|i: int| 0 <= i < steps.drop_first().len() && pid1_step(
            steps.drop_first()[i],
        );
        assert(steps[i + 1] == steps.drop_first()[i]);
        assert(some_pid1_event(steps));
    }
}

/// Law: the sandbox line passes its PID-1 validation — and so can only
/// reach the exec of the init program — if it actually observed namespace
/// PID 1 for itself somewhere along the trace.
pub proof fn lemma_bootstrap_implies_pid1(steps: Seq<BootStep>)
    requires
        trace_enabled(boot_start(), steps),
        sandbox_bootstrapped(run_trace(boot_start(), steps).sandbox),
    ensures
        some_pid1_event(steps),
{
    lemma_pid1_rec(boot_start(), steps);
}

} // verus!
