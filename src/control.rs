use vstd::prelude::*;

use crate::args::{Command, ResetCommand, UpdateCommand};
use crate::config::{ServerConfig, StoreError};

verus! {

/// How a command ended, as the operator sees it.
#[derive(Clone, Copy, Debug, PartialEq, Eq, Structural)]
pub enum Outcome {
    Success,
    AlreadyRunning,
    NotRunning,
    ValidationFailed,
    StorageUnavailable,
    UpdateConflict,
    StorageCorrupt,
    NotInitialized,
    BindError,
    Busy,
    VersionExhausted,
}

/// The process exit status of each outcome.
pub open spec fn exit_code_of(o: Outcome) -> i32 {
    match o {
        Outcome::Success => 0,
        Outcome::AlreadyRunning => 2,
        Outcome::NotRunning => 3,
        Outcome::ValidationFailed => 4,
        Outcome::StorageUnavailable => 5,
        Outcome::UpdateConflict => 6,
        Outcome::StorageCorrupt => 7,
        Outcome::NotInitialized => 8,
        Outcome::BindError => 9,
        Outcome::Busy => 10,
        Outcome::VersionExhausted => 11,
    }
}

/// The process exit status for an outcome: zero for success, a code of its own for each failure.
pub fn exit_code(o: Outcome) -> (r: i32)
    ensures
        r == exit_code_of(o),
{
    match o {
        Outcome::Success => 0,
        Outcome::AlreadyRunning => 2,
        Outcome::NotRunning => 3,
        Outcome::ValidationFailed => 4,
        Outcome::StorageUnavailable => 5,
        Outcome::UpdateConflict => 6,
        Outcome::StorageCorrupt => 7,
        Outcome::NotInitialized => 8,
        Outcome::BindError => 9,
        Outcome::Busy => 10,
        Outcome::VersionExhausted => 11,
    }
}

/// Distinct outcomes exit with distinct codes, and only success exits with zero.
pub proof fn lemma_exit_codes_distinct(a: Outcome, b: Outcome)
    ensures
        exit_code_of(a) == exit_code_of(b) ==> a == b,
        exit_code_of(a) == 0 <==> a == Outcome::Success,
{
}

/// The outcome that a store error is reported as.
pub open spec fn store_error_outcome(e: StoreError) -> Outcome {
    match e {
        StoreError::NotInitialized => Outcome::NotInitialized,
        StoreError::Conflict => Outcome::UpdateConflict,
        StoreError::StorageCorrupt => Outcome::StorageCorrupt,
        StoreError::VersionExhausted => Outcome::VersionExhausted,
        StoreError::Validation(_) => Outcome::ValidationFailed,
    }
}

/// Reports a store error as an operator-visible outcome.
pub fn outcome_of(e: StoreError) -> (r: Outcome)
    ensures
        r == store_error_outcome(e),
{
    match e {
        StoreError::NotInitialized => Outcome::NotInitialized,
        StoreError::Conflict => Outcome::UpdateConflict,
        StoreError::StorageCorrupt => Outcome::StorageCorrupt,
        StoreError::VersionExhausted => Outcome::VersionExhausted,
        StoreError::Validation(_) => Outcome::ValidationFailed,
    }
}

/// What one command line verb turns into.
#[derive(Clone, Copy, Debug, PartialEq, Eq, Structural)]
pub enum Plan {
    /// Run the server in this process until it is terminated.
    RunForeground,
    /// Launch a detached server, unless one is already running.
    StartServer,
    /// Signal the running server to stop.
    StopServer,
    /// Read a new value and write it through compare-and-swap.
    UpdateField(UpdateCommand),
    /// Put a field back to its default.
    ResetField(ResetCommand),
    /// Print the program version; touches neither the record nor the server.
    PrintVersion,
}

/// Maps each verb to exactly one plan.
pub fn plan(cmd: Command) -> (r: Plan)
    ensures
        r == (match cmd {
            Command::Serve => Plan::RunForeground,
            Command::Start => Plan::StartServer,
            Command::Stop => Plan::StopServer,
            Command::Update { cmd } => Plan::UpdateField(cmd),
            Command::Reset { cmd } => Plan::ResetField(cmd),
            Command::Version => Plan::PrintVersion,
        }),
{
    match cmd {
        Command::Serve => Plan::RunForeground,
        Command::Start => Plan::StartServer,
        Command::Stop => Plan::StopServer,
        Command::Update { cmd } => Plan::UpdateField(cmd),
        Command::Reset { cmd } => Plan::ResetField(cmd),
        Command::Version => Plan::PrintVersion,
    }
}

/// What the liveness marker says about a server on this machine.
#[derive(Clone, Copy, Debug, PartialEq, Eq, Structural)]
pub enum MarkerStatus {
    /// No marker: no server was started, or it stopped cleanly.
    Absent,
    /// A marker whose process is alive: a server is running.
    Live,
    /// A marker left behind by a process that is gone.
    Stale,
}

/// Classifies the marker from whether it exists and whether its process is alive.
pub fn marker_status(marker_present: bool, process_alive: bool) -> (r: MarkerStatus)
    ensures
        r == (if !marker_present {
            MarkerStatus::Absent
        } else if process_alive {
            MarkerStatus::Live
        } else {
            MarkerStatus::Stale
        }),
{
    if !marker_present {
        MarkerStatus::Absent
    } else if process_alive {
        MarkerStatus::Live
    } else {
        MarkerStatus::Stale
    }
}

/// What a short-lived command process does about `start` or `stop`.
#[derive(Clone, Copy, Debug, PartialEq, Eq, Structural)]
pub enum LifecycleStep {
    /// Remove a leftover marker (when `clear_stale`), then launch the server.
    Launch { clear_stale: bool },
    /// Signal the process named in the marker to stop.
    SignalStop,
    /// Nothing to do; report the outcome.
    Report(Outcome),
}

/// Decides `start` (when `start` is true) or `stop` from the marker: `start` on a
/// running server and `stop` without one change nothing and report so.
pub fn lifecycle_step(start: bool, status: MarkerStatus) -> (r: LifecycleStep)
    ensures
        start && status == MarkerStatus::Live ==> r == LifecycleStep::Report(Outcome::AlreadyRunning),
        start && status != MarkerStatus::Live ==> r == (LifecycleStep::Launch {
            clear_stale: status == MarkerStatus::Stale,
        }),
        !start && status == MarkerStatus::Live ==> r == LifecycleStep::SignalStop,
        !start && status != MarkerStatus::Live ==> r == LifecycleStep::Report(Outcome::NotRunning),
{
    if start {
        match status {
            MarkerStatus::Live => LifecycleStep::Report(Outcome::AlreadyRunning),
            MarkerStatus::Stale => LifecycleStep::Launch { clear_stale: true },
            MarkerStatus::Absent => LifecycleStep::Launch { clear_stale: false },
        }
    } else {
        match status {
            MarkerStatus::Live => LifecycleStep::SignalStop,
            _ => LifecycleStep::Report(Outcome::NotRunning),
        }
    }
}

/// How many times `update` tries its compare-and-swap before giving up on conflicts.
pub const MAX_UPDATE_ATTEMPTS: u32 = 3;

/// What `update` does after an attempt.
#[derive(Clone, Copy, Debug, PartialEq, Eq, Structural)]
pub enum RetryStep {
    /// The write landed.
    Done,
    /// Another writer won the race: read the record again and retry.
    Retry,
    /// Stop with this outcome.
    GiveUp(Outcome),
}

/// Decides what follows the attempt numbered `attempts_made` (from one) of an update:
/// conflicts are retried until `MAX_UPDATE_ATTEMPTS` attempts were made, then reported
/// as `UpdateConflict`; any other failure is reported at once.
pub fn after_attempt(attempts_made: u32, r: &Result<ServerConfig, StoreError>) -> (s: RetryStep)
    ensures
        *r is Ok ==> s == RetryStep::Done,
        *r matches Err(e) && e == StoreError::Conflict && attempts_made < MAX_UPDATE_ATTEMPTS
            ==> s == RetryStep::Retry,
        *r matches Err(e) && e == StoreError::Conflict && attempts_made >= MAX_UPDATE_ATTEMPTS
            ==> s == RetryStep::GiveUp(Outcome::UpdateConflict),
        *r matches Err(e) ==> (e != StoreError::Conflict ==> s == RetryStep::GiveUp(
            store_error_outcome(e),
        )),
{
    match r {
        Ok(_) => RetryStep::Done,
        Err(StoreError::Conflict) => if attempts_made < MAX_UPDATE_ATTEMPTS {
            RetryStep::Retry
        } else {
            RetryStep::GiveUp(Outcome::UpdateConflict)
        },
        Err(e) => RetryStep::GiveUp(outcome_of(*e)),
    }
}

/// SQLite reports a damaged file as `SQLITE_CORRUPT` and a file that is no database as
/// `SQLITE_NOTADB`; its extended codes keep the primary code in the low byte.
pub open spec fn is_corruption_code(code: u32) -> bool {
    code % 256 == 11 || code % 256 == 26
}

/// How a storage failure is reported: a damaged backing file is `StorageCorrupt`, any
/// other failure (no code, permissions, disk full) is `StorageUnavailable`.
pub fn storage_failure_outcome(sqlite_code: Option<u32>) -> (r: Outcome)
    ensures
        r == (if sqlite_code matches Some(c) && is_corruption_code(c) {
            Outcome::StorageCorrupt
        } else {
            Outcome::StorageUnavailable
        }),
{
    match sqlite_code {
        Some(c) => if c % 256 == 11 || c % 256 == 26 {
            Outcome::StorageCorrupt
        } else {
            Outcome::StorageUnavailable
        },
        None => Outcome::StorageUnavailable,
    }
}

} // verus!
