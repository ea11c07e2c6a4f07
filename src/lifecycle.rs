use vstd::prelude::*;

verus! {

/// Where the server's listener stands. Only the control loop changes it, one
/// transition at a time.
#[derive(Clone, Copy, Debug, PartialEq, Eq, Structural)]
pub enum ServerState {
    Stopped,
    Starting,
    Running,
    Stopping,
    Reloading,
}

/// What reaches the control loop: a request, or the result of work it asked for.
#[derive(Clone, Copy, Debug, PartialEq, Eq, Structural)]
pub enum LifecycleEvent {
    StartRequested,
    StopRequested,
    ReloadRequested,
    BindSucceeded,
    BindFailed,
    /// The record was read again; `same_address` tells whether host and port are unchanged.
    ConfigReread { same_address: bool },
    Drained,
}

/// What the control loop asks its runner to do next.
#[derive(Clone, Copy, Debug, PartialEq, Eq, Structural)]
pub enum LifecycleAction {
    /// Bind the configured address.
    Bind,
    ReportStarted,
    ReportBindError,
    ReportAlreadyRunning,
    ReportNotRunning,
    /// Another transition is in flight; the request is refused and nothing changes.
    ReportBusy,
    /// Stop accepting connections and drain in-flight requests up to the timeout.
    BeginShutdown,
    ReportStopped,
    RereadConfig,
    /// Bind the new address while the old listener keeps serving.
    BindNewAddress,
    /// Apply the new settings on the listener that is already bound.
    KeepListener,
    /// Serve on the new listener, then close the old one.
    SwapListener,
    /// The new address could not be bound; the old listener keeps serving.
    ReportReloadFailed,
    /// The event does not belong to the current state and is dropped.
    Ignore,
}

/// The transition table of the control loop.
pub open spec fn transition(s: ServerState, e: LifecycleEvent) -> (ServerState, LifecycleAction) {
    match (s, e) {
        (ServerState::Stopped, LifecycleEvent::StartRequested) => (ServerState::Starting, LifecycleAction::Bind),
        (ServerState::Stopped, LifecycleEvent::StopRequested) => (ServerState::Stopped, LifecycleAction::ReportNotRunning),
        (ServerState::Stopped, LifecycleEvent::ReloadRequested) => (ServerState::Stopped, LifecycleAction::ReportNotRunning),
        (ServerState::Starting, LifecycleEvent::BindSucceeded) => (ServerState::Running, LifecycleAction::ReportStarted),
        (ServerState::Starting, LifecycleEvent::BindFailed) => (ServerState::Stopped, LifecycleAction::ReportBindError),
        (ServerState::Running, LifecycleEvent::StartRequested) => (ServerState::Running, LifecycleAction::ReportAlreadyRunning),
        (ServerState::Running, LifecycleEvent::StopRequested) => (ServerState::Stopping, LifecycleAction::BeginShutdown),
        (ServerState::Running, LifecycleEvent::ReloadRequested) => (ServerState::Reloading, LifecycleAction::RereadConfig),
        (ServerState::Stopping, LifecycleEvent::Drained) => (ServerState::Stopped, LifecycleAction::ReportStopped),
        (ServerState::Reloading, LifecycleEvent::ConfigReread { same_address }) => if same_address {
            (ServerState::Running, LifecycleAction::KeepListener)
        } else {
            (ServerState::Reloading, LifecycleAction::BindNewAddress)
        },
        (ServerState::Reloading, LifecycleEvent::BindSucceeded) => (ServerState::Running, LifecycleAction::SwapListener),
        (ServerState::Reloading, LifecycleEvent::BindFailed) => (ServerState::Running, LifecycleAction::ReportReloadFailed),
        (_, LifecycleEvent::StartRequested) => (s, LifecycleAction::ReportBusy),
        (_, LifecycleEvent::StopRequested) => (s, LifecycleAction::ReportBusy),
        (_, LifecycleEvent::ReloadRequested) => (s, LifecycleAction::ReportBusy),
        _ => (s, LifecycleAction::Ignore),
    }
}

/// States in which a listener is bound and serving.
pub open spec fn serving(s: ServerState) -> bool {
    s == ServerState::Running || s == ServerState::Stopping || s == ServerState::Reloading
}

/// One step of the control loop: the next state and the action for its runner.
pub fn step(s: ServerState, e: LifecycleEvent) -> (r: (ServerState, LifecycleAction))
    ensures
        r == transition(s, e),
{
    match (s, e) {
        (ServerState::Stopped, LifecycleEvent::StartRequested) => (ServerState::Starting, LifecycleAction::Bind),
        (ServerState::Stopped, LifecycleEvent::StopRequested) => (ServerState::Stopped, LifecycleAction::ReportNotRunning),
        (ServerState::Stopped, LifecycleEvent::ReloadRequested) => (ServerState::Stopped, LifecycleAction::ReportNotRunning),
        (ServerState::Starting, LifecycleEvent::BindSucceeded) => (ServerState::Running, LifecycleAction::ReportStarted),
        (ServerState::Starting, LifecycleEvent::BindFailed) => (ServerState::Stopped, LifecycleAction::ReportBindError),
        (ServerState::Running, LifecycleEvent::StartRequested) => (ServerState::Running, LifecycleAction::ReportAlreadyRunning),
        (ServerState::Running, LifecycleEvent::StopRequested) => (ServerState::Stopping, LifecycleAction::BeginShutdown),
        (ServerState::Running, LifecycleEvent::ReloadRequested) => (ServerState::Reloading, LifecycleAction::RereadConfig),
        (ServerState::Stopping, LifecycleEvent::Drained) => (ServerState::Stopped, LifecycleAction::ReportStopped),
        (ServerState::Reloading, LifecycleEvent::ConfigReread { same_address }) => if same_address {
            (ServerState::Running, LifecycleAction::KeepListener)
        } else {
            (ServerState::Reloading, LifecycleAction::BindNewAddress)
        },
        (ServerState::Reloading, LifecycleEvent::BindSucceeded) => (ServerState::Running, LifecycleAction::SwapListener),
        (ServerState::Reloading, LifecycleEvent::BindFailed) => (ServerState::Running, LifecycleAction::ReportReloadFailed),
        (_, LifecycleEvent::StartRequested) => (s, LifecycleAction::ReportBusy),
        (_, LifecycleEvent::StopRequested) => (s, LifecycleAction::ReportBusy),
        (_, LifecycleEvent::ReloadRequested) => (s, LifecycleAction::ReportBusy),
        _ => (s, LifecycleAction::Ignore),
    }
}

/// From `Reloading` every event leads to a serving state: a failed reload never
/// tears down the working listener.
pub proof fn lemma_reload_keeps_serving(s: ServerState, e: LifecycleEvent)
    requires
        s == ServerState::Reloading,
    ensures
        serving(transition(s, e).0),
{
}

/// `start` on a running server and `stop` on a stopped one change nothing.
pub proof fn lemma_idempotent_requests()
    ensures
        transition(ServerState::Running, LifecycleEvent::StartRequested).0 == ServerState::Running,
        transition(ServerState::Stopped, LifecycleEvent::StopRequested).0 == ServerState::Stopped,
{
}

/// While a transition is in flight, every request is refused and the state stays put,
/// so at most one transition runs at a time.
pub proof fn lemma_one_transition_at_a_time(s: ServerState, e: LifecycleEvent)
    requires
        s == ServerState::Starting || s == ServerState::Stopping || s == ServerState::Reloading,
        e == LifecycleEvent::StartRequested || e == LifecycleEvent::StopRequested || e
            == LifecycleEvent::ReloadRequested,
    ensures
        transition(s, e) == (s, LifecycleAction::ReportBusy),
{
}

/// Whether a reload must bind a new listener: the host or the port changed.
pub fn address_changed(bound_host: &String, bound_port: u16, host: &String, port: u16) -> (r: bool)
    ensures
        r == (bound_host@ != host@ || bound_port != port),
{
    let same_host = bound_host.eq(host);
    !same_host || bound_port != port
}

} // verus!
