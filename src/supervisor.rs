use vstd::prelude::*;

verus! {

/// Where a supervised game server stands.
#[derive(Clone, Copy, Debug, PartialEq, Eq, Structural)]
pub enum SupervisorState {
    /// The process is being spawned.
    Starting,
    /// The process runs; the console, its output and its exit are watched.
    Running,
    /// Supervision is over.
    Exited,
}

/// What the supervisor observed.
#[derive(Clone, Copy, Debug, PartialEq, Eq, Structural)]
pub enum SupervisorEvent {
    /// The process was spawned with its input and output piped.
    Spawned,
    /// The process could not be spawned.
    SpawnFailed,
    /// The process exited.
    ProcessExited,
    /// The operator console reached its end.
    ConsoleClosed,
    /// The process's output reached its end.
    OutputClosed,
}

/// The state after `event` in `state`.
pub open spec fn spec_next_state(state: SupervisorState, event: SupervisorEvent) -> SupervisorState {
    match (state, event) {
        (SupervisorState::Starting, SupervisorEvent::Spawned) => SupervisorState::Running,
        (SupervisorState::Starting, SupervisorEvent::SpawnFailed) => SupervisorState::Exited,
        (SupervisorState::Running, SupervisorEvent::ProcessExited) => SupervisorState::Exited,
        (SupervisorState::Running, SupervisorEvent::ConsoleClosed) => SupervisorState::Exited,
        (SupervisorState::Running, SupervisorEvent::OutputClosed) => SupervisorState::Exited,
        _ => state,
    }
}

/// The state after `event` in `state`: a spawn starts the run, and whichever
/// of the three watched streams ends first ends it; once over, supervision
/// stays over.
pub fn next_state(state: SupervisorState, event: SupervisorEvent) -> (r: SupervisorState)
    ensures
        r == spec_next_state(state, event),
{
    match (state, event) {
        (SupervisorState::Starting, SupervisorEvent::Spawned) => SupervisorState::Running,
        (SupervisorState::Starting, SupervisorEvent::SpawnFailed) => SupervisorState::Exited,
        (SupervisorState::Running, SupervisorEvent::ProcessExited) => SupervisorState::Exited,
        (SupervisorState::Running, SupervisorEvent::ConsoleClosed) => SupervisorState::Exited,
        (SupervisorState::Running, SupervisorEvent::OutputClosed) => SupervisorState::Exited,
        _ => state,
    }
}

/// Whether the gateway must end: when its listener has stopped, or when
/// supervision of the game server is over. The exit code is then always 0.
pub fn gateway_ends(listener_stopped: bool, state: SupervisorState) -> (r: bool)
    ensures
        r == (listener_stopped || state == SupervisorState::Exited),
{
    listener_stopped || state == SupervisorState::Exited
}

} // verus!
