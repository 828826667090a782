//! The boot of the backend as a state machine: each event that the outside
//! world reports moves the state and names the next thing to do.

use vstd::prelude::*;

verus! {

/// Why a boot attempt failed.
#[derive(Clone, Copy, Debug, PartialEq, Eq, Structural)]
pub enum FailureKind {
    /// No candidate executable exists.
    BackendNotFound,
    /// The operating system refused to create the process.
    SpawnFailed,
    /// The child never wrote a valid handshake within the budget.
    HandshakeTimeout,
    /// The child never became healthy within the budget.
    HealthCheckTimeout,
    /// The surface that should show the backend is not there.
    PresentationMissing,
}

/// Where a boot attempt stands.
#[derive(Clone, Copy, Debug, PartialEq, Eq, Structural)]
pub enum BootState {
    NotStarted,
    Launching,
    AwaitingHandshake,
    /// The child announced this port; its health is not yet known.
    AwaitingHealth(u16),
    /// The backend serves on this port.
    Ready(u16),
    Terminated,
    /// The attempt failed; nothing restarts it.
    Failed(FailureKind),
}

/// What the outside world reports.
#[derive(Clone, Copy, Debug, PartialEq, Eq, Structural)]
pub enum BootEvent {
    /// The presentation window exists: boot may start.
    Trigger,
    /// The child process was created.
    Spawned,
    /// No candidate executable exists.
    NotFound,
    /// The operating system refused to create the process.
    SpawnRefused,
    /// The handshake was read and names this port.
    Handshake(u16),
    /// The handshake did not appear within the budget.
    HandshakeTimedOut,
    /// The health endpoint answered with success; the flag says whether the
    /// surface to navigate is there.
    Healthy { surface_present: bool },
    /// The health endpoint did not answer with success within the budget.
    HealthTimedOut,
    /// A close or quit signal, or the explicit shutdown command.
    Shutdown,
}

/// What the caller does next.
#[derive(Clone, Copy, Debug, PartialEq, Eq, Structural)]
pub enum BootAction {
    /// Nothing: the event does not concern the state it met.
    Nothing,
    /// Resolve the executable, build the launch spec and spawn the child.
    Launch,
    /// Poll the handshake file.
    AwaitHandshake,
    /// Poll the health endpoint on this port.
    ProbeHealth(u16),
    /// Store the child's handle in the supervisor state, then send the
    /// surface to the backend on this port.
    PublishAndNavigate(u16),
    /// Store the child's handle in the supervisor state, so that shutdown
    /// finds it, and report the failure.
    PublishAndReport(FailureKind),
    /// Report the failure on the diagnostic stream.
    Report(FailureKind),
    /// Take the handle out of the supervisor state; kill and reap it.
    Terminate,
}

/// The state that follows `state` on `event`.
pub open spec fn next_state(state: BootState, event: BootEvent) -> BootState {
    match (state, event) {
        (BootState::Ready(_), BootEvent::Shutdown) => BootState::Terminated,
        (BootState::NotStarted, BootEvent::Trigger) => BootState::Launching,
        (BootState::Launching, BootEvent::Spawned) => BootState::AwaitingHandshake,
        (BootState::Launching, BootEvent::NotFound) => BootState::Failed(
            FailureKind::BackendNotFound,
        ),
        (BootState::Launching, BootEvent::SpawnRefused) => BootState::Failed(
            FailureKind::SpawnFailed,
        ),
        (BootState::AwaitingHandshake, BootEvent::Handshake(port)) => BootState::AwaitingHealth(
            port,
        ),
        (BootState::AwaitingHandshake, BootEvent::HandshakeTimedOut) => BootState::Failed(
            FailureKind::HandshakeTimeout,
        ),
        (BootState::AwaitingHealth(port), BootEvent::Healthy { surface_present }) => {
            if surface_present {
                BootState::Ready(port)
            } else {
                BootState::Failed(FailureKind::PresentationMissing)
            }
        },
        (BootState::AwaitingHealth(_), BootEvent::HealthTimedOut) => BootState::Failed(
            FailureKind::HealthCheckTimeout,
        ),
        _ => state,
    }
}

/// What is to be done when `event` meets `state`.
pub open spec fn action_for(state: BootState, event: BootEvent) -> BootAction {
    match (state, event) {
        (_, BootEvent::Shutdown) => BootAction::Terminate,
        (BootState::NotStarted, BootEvent::Trigger) => BootAction::Launch,
        (BootState::Launching, BootEvent::Spawned) => BootAction::AwaitHandshake,
        (BootState::AwaitingHandshake, BootEvent::Handshake(port)) => BootAction::ProbeHealth(port),
        (BootState::AwaitingHealth(port), BootEvent::Healthy { surface_present }) => {
            if surface_present {
                BootAction::PublishAndNavigate(port)
            } else {
                BootAction::PublishAndReport(FailureKind::PresentationMissing)
            }
        },
        _ => match next_state(state, event) {
            BootState::Failed(kind) => if state is Failed {
                BootAction::Nothing
            } else {
                BootAction::Report(kind)
            },
            _ => BootAction::Nothing,
        },
    }
}

/// The state after a sequence of events, taken in order.
pub open spec fn state_after(state: BootState, events: Seq<BootEvent>) -> BootState
    decreases events.len(),
{
    if events.len() == 0 {
        state
    } else {
        next_state(state_after(state, events.drop_last()), events.last())
    }
}

/// Moves the boot on by one event.
pub fn step(state: BootState, event: BootEvent) -> (next: (BootState, BootAction))
    ensures
        next.0 == next_state(state, event),
        next.1 == action_for(state, event),
{
    match event {
        BootEvent::Shutdown => match state {
            BootState::Ready(_) => (BootState::Terminated, BootAction::Terminate),
            _ => (state, BootAction::Terminate),
        },
        BootEvent::Trigger => match state {
            BootState::NotStarted => (BootState::Launching, BootAction::Launch),
            _ => (state, BootAction::Nothing),
        },
        BootEvent::Spawned => match state {
            BootState::Launching => (BootState::AwaitingHandshake, BootAction::AwaitHandshake),
            _ => (state, BootAction::Nothing),
        },
        BootEvent::NotFound => match state {
            BootState::Launching => fail(FailureKind::BackendNotFound),
            _ => (state, BootAction::Nothing),
        },
        BootEvent::SpawnRefused => match state {
            BootState::Launching => fail(FailureKind::SpawnFailed),
            _ => (state, BootAction::Nothing),
        },
        BootEvent::Handshake(port) => match state {
            BootState::AwaitingHandshake => (
                BootState::AwaitingHealth(port),
                BootAction::ProbeHealth(port),
            ),
            _ => (state, BootAction::Nothing),
        },
        BootEvent::HandshakeTimedOut => match state {
            BootState::AwaitingHandshake => fail(FailureKind::HandshakeTimeout),
            _ => (state, BootAction::Nothing),
        },
        BootEvent::Healthy { surface_present } => match state {
            BootState::AwaitingHealth(port) => if surface_present {
                (BootState::Ready(port), BootAction::PublishAndNavigate(port))
            } else {
                (
                    BootState::Failed(FailureKind::PresentationMissing),
                    BootAction::PublishAndReport(FailureKind::PresentationMissing),
                )
            },
            _ => (state, BootAction::Nothing),
        },
        BootEvent::HealthTimedOut => match state {
            BootState::AwaitingHealth(_) => fail(FailureKind::HealthCheckTimeout),
            _ => (state, BootAction::Nothing),
        },
    }
}

fn fail(kind: FailureKind) -> (next: (BootState, BootAction))
    ensures
        next.0 == BootState::Failed(kind),
        next.1 == BootAction::Report(kind),
{
    (BootState::Failed(kind), BootAction::Report(kind))
}

/// The state in which a failure of this kind can come about.
pub open spec fn phase_of(kind: FailureKind, port: u16) -> BootState {
    match kind {
        FailureKind::BackendNotFound => BootState::Launching,
        FailureKind::SpawnFailed => BootState::Launching,
        FailureKind::HandshakeTimeout => BootState::AwaitingHandshake,
        FailureKind::HealthCheckTimeout => BootState::AwaitingHealth(port),
        FailureKind::PresentationMissing => BootState::AwaitingHealth(port),
    }
}

/// The event that reports a failure of this kind.
pub open spec fn event_of_failure(kind: FailureKind) -> BootEvent {
    match kind {
        FailureKind::BackendNotFound => BootEvent::NotFound,
        FailureKind::SpawnFailed => BootEvent::SpawnRefused,
        FailureKind::HandshakeTimeout => BootEvent::HandshakeTimedOut,
        FailureKind::HealthCheckTimeout => BootEvent::HealthTimedOut,
        FailureKind::PresentationMissing => BootEvent::Healthy { surface_present: false },
    }
}

/// The event by which a failure of this kind is reported to the boot.
pub fn failure_event(kind: FailureKind) -> (event: BootEvent)
    ensures
        event == event_of_failure(kind),
{
    match kind {
        FailureKind::BackendNotFound => BootEvent::NotFound,
        FailureKind::SpawnFailed => BootEvent::SpawnRefused,
        FailureKind::HandshakeTimeout => BootEvent::HandshakeTimedOut,
        FailureKind::HealthCheckTimeout => BootEvent::HealthTimedOut,
        FailureKind::PresentationMissing => BootEvent::Healthy { surface_present: false },
    }
}

/// Whether the boot attempt is over: it failed or was shut down.
pub fn is_over(state: BootState) -> (over: bool)
    ensures
        over == (state is Failed || state is Terminated),
{
    match state {
        BootState::Failed(_) => true,
        BootState::Terminated => true,
        _ => false,
    }
}

/// A failed or terminated attempt stays as it is, whatever is reported
/// afterwards: nothing restarts it.
pub proof fn over_is_absorbing(state: BootState, events: Seq<BootEvent>)
    requires
        state is Failed || state is Terminated,
    ensures
        state_after(state, events) == state,
    decreases events.len(),
{
    if events.len() > 0 {
        over_is_absorbing(state, events.drop_last());
    }
}

/// A failure reported in the phase in which it can come about fails the
/// boot with that kind, and only `Launching`, `AwaitingHandshake` and
/// `AwaitingHealth` ever lead to `Failed`.
pub proof fn failures_fail_the_boot(kind: FailureKind, port: u16, state: BootState, event: BootEvent)
    ensures
        next_state(phase_of(kind, port), event_of_failure(kind)) == BootState::Failed(kind),
        next_state(state, event) is Failed && !(state is Failed) ==> state is Launching || state
            is AwaitingHandshake || state is AwaitingHealth,
{
}

/// A shutdown is answered with a terminate in every state, so it is safe
/// before, during and after boot.
pub proof fn shutdown_always_terminates(state: BootState)
    ensures
        action_for(state, BootEvent::Shutdown) == BootAction::Terminate,
        state is Ready ==> next_state(state, BootEvent::Shutdown) is Terminated,
        !(state is Ready) ==> next_state(state, BootEvent::Shutdown) == state,
{
}

/// The child's handle is published only on the step that leaves
/// `AwaitingHealth` on a healthy report, and `Ready` is entered only there.
pub proof fn ready_only_after_health(state: BootState, event: BootEvent)
    ensures
        (action_for(state, event) is PublishAndNavigate || action_for(state, event)
            is PublishAndReport) ==> state is AwaitingHealth && event is Healthy,
        next_state(state, event) is Ready && !(state is Ready) ==> state is AwaitingHealth && event
            == (BootEvent::Healthy { surface_present: true }) && next_state(state, event)
            == BootState::Ready(state->AwaitingHealth_0),
{
}

/// A boot in which every phase succeeds ends ready on the announced port.
pub proof fn clean_boot_is_ready(port: u16)
    ensures
        state_after(
            BootState::NotStarted,
            seq![
                BootEvent::Trigger,
                BootEvent::Spawned,
                BootEvent::Handshake(port),
                BootEvent::Healthy { surface_present: true },
            ],
        ) == BootState::Ready(port),
{
    let all = seq![
        BootEvent::Trigger,
        BootEvent::Spawned,
        BootEvent::Handshake(port),
        BootEvent::Healthy { surface_present: true },
    ];
    let three = seq![BootEvent::Trigger, BootEvent::Spawned, BootEvent::Handshake(port)];
    let two = seq![BootEvent::Trigger, BootEvent::Spawned];
    let one = seq![BootEvent::Trigger];
    assert(all.drop_last() =~= three);
    assert(three.drop_last() =~= two);
    assert(two.drop_last() =~= one);
    assert(one.drop_last() =~= Seq::<BootEvent>::empty());
    reveal_with_fuel(state_after, 5);
}

} // verus!
