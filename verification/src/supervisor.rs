//! The supervisor's state machine.
//!
//! A [`Supervisor`] owns the lifecycle of at most one backend process:
//! which process is running, on which port, and in which phase of its
//! lifecycle the backend is.  The process itself and all I/O (creating
//! the data directory, opening the log file, spawning, probing,
//! killing) are performed by the host, which holds the real OS handles;
//! the supervisor records each step's outcome through the verified
//! transitions below and keeps the state consistent.
//!
//! The host must serialize `start` and `stop` so that each whole
//! operation is mutually exclusive with respect to this state — e.g. by
//! holding one lock around the full call.  Under that discipline the
//! single-instance guarantee holds: a `start` only proceeds to spawn
//! when no process is owned, so two serialized `start` calls spawn at
//! most once between them.

use crate::errors::SupervisorError;
use crate::url::{base_url, base_url_seq};
use vstd::prelude::*;

verus! {

/// The lifecycle phase of the backend.
#[derive(Clone, Copy, Debug, PartialEq, Eq, Structural)]
pub enum Phase {
    /// No backend is running; the initial state and the state after
    /// every `stop`.
    Idle,
    /// A backend process was spawned and is being polled for
    /// readiness.
    Starting,
    /// The backend answered a readiness probe; its URL is available.
    Ready,
    /// A `start` gave up on the backend; only a fresh `start` leaves
    /// this phase.
    Failed,
}

/// What a `start` call does next, decided before any resource is
/// touched.
#[derive(Clone, Copy, Debug, PartialEq, Eq, Structural)]
pub enum StartDecision {
    /// A backend process is already owned: keep it and return its URL
    /// instead of spawning a second one.
    AlreadyRunning,
    /// No backend process is owned: allocate a port, open the log file
    /// and spawn.
    Proceed,
}

/// Which preparatory step of `start` failed before the spawn.
#[derive(Clone, Copy, Debug, PartialEq, Eq, Structural)]
pub enum SetupFailure {
    /// The data directory could not be created.
    DataDir,
    /// The log file could not be opened.
    LogFile,
}

/// The supervisor's state: at most one backend process, identified to
/// the host by an opaque handle, together with its port and phase.
pub struct Supervisor {
    /// The current lifecycle phase.
    pub phase: Phase,
    /// The handle under which the host knows the spawned process, if
    /// one is owned.
    pub process: Option<u64>,
    /// The TCP port of the current backend instance; present exactly
    /// while a process is owned.
    pub port: Option<u16>,
}

/// The state invariant: a port is recorded exactly while a process is
/// owned, and a process is owned exactly in the `Starting` and `Ready`
/// phases.
pub open spec fn inv(s: Supervisor) -> bool {
    &&& s.process is Some <==> s.port is Some
    &&& s.process is Some <==> (s.phase == Phase::Starting || s.phase == Phase::Ready)
}

/// The state with no backend: `Idle`, no process, no port.
pub open spec fn idle_state() -> Supervisor {
    Supervisor { phase: Phase::Idle, process: None, port: None }
}

/// What `start` decides from a given state.
pub open spec fn spec_start_decision(s: Supervisor) -> StartDecision {
    if s.process is Some {
        StartDecision::AlreadyRunning
    } else {
        StartDecision::Proceed
    }
}

/// The state after recording a successful spawn.
pub open spec fn spec_spawned(s: Supervisor, handle: u64, port: u16) -> Supervisor {
    Supervisor { phase: Phase::Starting, process: Some(handle), port: Some(port) }
}

/// The state after a successful readiness poll.
pub open spec fn spec_health_confirmed(s: Supervisor) -> Supervisor {
    Supervisor { phase: Phase::Ready, ..s }
}

/// The state after the readiness poll exhausted its budget.
pub open spec fn spec_health_timed_out(s: Supervisor) -> Supervisor {
    Supervisor { phase: Phase::Failed, process: None, port: None }
}

/// The state after `stop`: always back to no backend.
pub open spec fn spec_stop(s: Supervisor) -> Supervisor {
    idle_state()
}

impl Supervisor {
    /// A fresh supervisor: `Idle` with no process and no port.
    pub fn new() -> (s: Supervisor)
        ensures
            s == idle_state(),
            inv(s),
    {
        Supervisor { phase: Phase::Idle, process: None, port: None }
    }

    /// Decides what a `start` call does: if a backend process is
    /// already owned the call reuses it (and the caller answers with
    /// the existing URL); otherwise the call proceeds to spawn one.
    /// Pure read; the state is unchanged.
    pub fn start_decision(&self) -> (d: StartDecision)
        ensures
            d == spec_start_decision(*self),
            d == StartDecision::Proceed <==> self.process is None,
    {
        if self.process.is_some() {
            StartDecision::AlreadyRunning
        } else {
            StartDecision::Proceed
        }
    }

    /// Records that a preparatory step of `start` failed before any
    /// process was spawned: the operation aborts, the state returns to
    /// `Idle`, and the matching error is handed back for the caller.
    pub fn setup_failed(&mut self, failure: SetupFailure) -> (e: SupervisorError)
        requires
            old(self).process is None,
        ensures
            *final(self) == idle_state(),
            inv(*final(self)),
            failure == SetupFailure::DataDir ==> e == SupervisorError::DataDirUnavailable,
            failure == SetupFailure::LogFile ==> e == SupervisorError::LogFileUnavailable,
    {
        self.phase = Phase::Idle;
        self.process = None;
        self.port = None;
        match failure {
            SetupFailure::DataDir => SupervisorError::DataDirUnavailable,
            SetupFailure::LogFile => SupervisorError::LogFileUnavailable,
        }
    }

    /// Records that spawning the backend executable failed: the
    /// operation aborts, the state returns to `Idle`, and the error
    /// carries the host's description of the underlying failure.
    pub fn spawn_failed(&mut self, detail: String) -> (e: SupervisorError)
        requires
            old(self).process is None,
        ensures
            *final(self) == idle_state(),
            inv(*final(self)),
            e matches SupervisorError::SpawnFailed(d) && d@ == detail@,
    {
        self.phase = Phase::Idle;
        self.process = None;
        self.port = None;
        SupervisorError::SpawnFailed(detail)
    }

    /// Records a successful spawn: the process handle and its port are
    /// stored immediately — before polling begins, so that a `stop`
    /// issued mid-poll can still find and kill the process — and the
    /// phase becomes `Starting`.  Requires that no process is owned
    /// yet, which is exactly what [`Self::start_decision`] returning
    /// `Proceed` guarantees.
    pub fn spawned(&mut self, handle: u64, port: u16)
        requires
            old(self).process is None,
        ensures
            *final(self) == spec_spawned(*old(self), handle, port),
            inv(*final(self)),
    {
        self.phase = Phase::Starting;
        self.process = Some(handle);
        self.port = Some(port);
    }

    /// Records the first successful readiness probe: the phase becomes
    /// `Ready`, process and port are kept unchanged, and the backend's
    /// base URL is returned.
    pub fn health_confirmed(&mut self) -> (url: String)
        requires
            inv(*old(self)),
            old(self).phase == Phase::Starting,
        ensures
            *final(self) == spec_health_confirmed(*old(self)),
            inv(*final(self)),
            url@ == base_url_seq(old(self).port->Some_0),
    {
        self.phase = Phase::Ready;
        let port = self.port.unwrap();
        base_url(port)
    }

    /// Records that the readiness poll exhausted its budget: the phase
    /// becomes `Failed`, the process and port are cleared, and the
    /// handle is handed back so the host can kill the unresponsive
    /// process rather than leak it.
    pub fn health_timed_out(&mut self) -> (r: (u64, SupervisorError))
        requires
            inv(*old(self)),
            old(self).phase == Phase::Starting,
        ensures
            *final(self) == spec_health_timed_out(*old(self)),
            inv(*final(self)),
            r.0 == old(self).process->Some_0,
            r.1 == SupervisorError::HealthCheckTimedOut,
    {
        let handle = self.process.unwrap();
        self.phase = Phase::Failed;
        self.process = None;
        self.port = None;
        (handle, SupervisorError::HealthCheckTimedOut)
    }

    /// `stop`: takes the owned process handle out of the state — so a
    /// concurrent `start` cannot race on the same handle — and returns
    /// it for the host to terminate, best-effort.  Always succeeds and
    /// always leaves the supervisor `Idle`, whether or not anything was
    /// running.
    pub fn stop(&mut self) -> (h: Option<u64>)
        ensures
            *final(self) == spec_stop(*old(self)),
            inv(*final(self)),
            h == old(self).process,
    {
        self.phase = Phase::Idle;
        self.port = None;
        self.process.take()
    }

    /// `get_url`: returns the backend's base URL if a port is
    /// recorded, and fails with `NotStarted` before any successful
    /// start.  Pure read; safe from any phase.
    pub fn get_url(&self) -> (r: Result<String, SupervisorError>)
        ensures
            r is Ok <==> self.port is Some,
            r matches Ok(url) ==> url@ == base_url_seq(self.port->Some_0),
            r matches Err(e) ==> e == SupervisorError::NotStarted,
    {
        match self.port {
            Some(p) => Ok(base_url(p)),
            None => Err(SupervisorError::NotStarted),
        }
    }
}

/// In every state that satisfies the invariant, a port is recorded if
/// and only if a process is owned — so after any sequence of the
/// transitions above, which all preserve the invariant, the two fields
/// are always present or absent together.
pub proof fn lemma_port_present_iff_process(s: Supervisor)
    requires
        inv(s),
    ensures
        s.port is Some <==> s.process is Some,
{
}

/// A `stop` in the never-started (or any idle) state is a no-op: the
/// state is unchanged and still `Idle`.
pub proof fn lemma_stop_when_idle_is_noop(s: Supervisor)
    requires
        inv(s),
        s.phase == Phase::Idle,
    ensures
        spec_stop(s) == s,
        s.process is None,
{
}

/// After a `stop`, a following successful spawn owns exactly the fresh
/// handle and port that the new `start` produced; nothing of the
/// previous instance is reused.
pub proof fn lemma_restart_owns_fresh_instance(s: Supervisor, handle: u64, port: u16)
    ensures
        spec_start_decision(spec_stop(s)) == StartDecision::Proceed,
        spec_spawned(spec_stop(s), handle, port).process == Some(handle),
        spec_spawned(spec_stop(s), handle, port).port == Some(port),
{
}

/// While the backend is `Ready` its port cannot silently change: a
/// further `start` reuses the owned instance rather than spawning a new
/// one, a spawn is only ever recorded when no process is owned, and the
/// transitions that do remove the port (`stop`, a health timeout) clear
/// the whole instance — so the port only changes through a full
/// teardown followed by a fresh spawn.
pub proof fn lemma_port_stable_while_ready(s: Supervisor)
    requires
        inv(s),
        s.phase == Phase::Ready,
    ensures
        s.port is Some,
        spec_start_decision(s) == StartDecision::AlreadyRunning,
        spec_stop(s).port is None && spec_stop(s).process is None,
{
}

/// Once a spawn is recorded, any further `start` decision is
/// `AlreadyRunning`: of two serialized `start` calls, only the one
/// that saw no owned process proceeds to spawn, so exactly one process
/// ends up owned.
pub proof fn lemma_second_start_does_not_spawn(s: Supervisor, handle: u64, port: u16)
    ensures
        spec_start_decision(spec_spawned(s, handle, port)) == StartDecision::AlreadyRunning,
        spec_spawned(s, handle, port).process == Some(handle),
{
}

} // verus!
