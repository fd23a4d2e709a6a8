//! The error taxonomy of the supervisor's operations.

use vstd::prelude::*;
use vstd::string::*;

verus! {

/// Why an operation of the supervisor failed.
///
/// Every failure carries enough to render a human-readable message via
/// [`SupervisorError::message`].
#[derive(Debug, PartialEq, Eq)]
pub enum SupervisorError {
    /// The data directory could not be created or entered.
    DataDirUnavailable,
    /// The log file inside the data directory could not be opened.
    LogFileUnavailable,
    /// The backend executable could not be spawned; carries the
    /// underlying OS error rendered as text.
    SpawnFailed(String),
    /// The readiness endpoint never answered successfully within the
    /// bounded retry budget.
    HealthCheckTimedOut,
    /// `get_url` was called before any successful start.
    NotStarted,
}

impl SupervisorError {
    /// A human-readable description of the failure.
    pub fn message(&self) -> (r: String)
        ensures
            self is DataDirUnavailable ==> r@ == "data directory unavailable"@,
            self is LogFileUnavailable ==> r@ == "log file unavailable"@,
            self matches SupervisorError::SpawnFailed(d) ==> r@ == "failed to spawn backend: "@
                + d@,
            self is HealthCheckTimedOut ==> r@ == "backend health check timed out"@,
            self is NotStarted ==> r@ == "backend not started"@,
    {
        match self {
            SupervisorError::DataDirUnavailable => String::from_str("data directory unavailable"),
            SupervisorError::LogFileUnavailable => String::from_str("log file unavailable"),
            SupervisorError::SpawnFailed(d) => String::from_str("failed to spawn backend: ").concat(
                d.as_str(),
            ),
            SupervisorError::HealthCheckTimedOut => String::from_str(
                "backend health check timed out",
            ),
            SupervisorError::NotStarted => String::from_str("backend not started"),
        }
    }
}

} // verus!
