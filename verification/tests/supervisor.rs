use sidecar::errors::SupervisorError;
use sidecar::health::{HealthPoller, PollVerdict, ProbeOutcome, ATTEMPT_CEILING};
use sidecar::supervisor::{Phase, SetupFailure, StartDecision, Supervisor};

fn port_iff_process(s: &Supervisor) -> bool {
    s.port.is_some() == s.process.is_some()
}

#[test]
fn new_supervisor_is_idle() {
    let s = Supervisor::new();
    assert_eq!(s.phase, Phase::Idle);
    assert!(s.process.is_none());
    assert!(s.port.is_none());
    assert!(port_iff_process(&s));
}

#[test]
fn stop_before_any_start_is_a_noop() {
    let mut s = Supervisor::new();
    let handle = s.stop();
    assert!(handle.is_none());
    assert_eq!(s.phase, Phase::Idle);
    assert!(s.process.is_none());
    assert!(s.port.is_none());
}

#[test]
fn get_url_before_any_start_fails_not_started() {
    let s = Supervisor::new();
    let r = s.get_url();
    assert_eq!(r, Err(SupervisorError::NotStarted));
}

#[test]
fn port_and_process_present_together_through_lifecycle() {
    let mut s = Supervisor::new();
    assert!(port_iff_process(&s));
    assert_eq!(s.start_decision(), StartDecision::Proceed);
    s.spawned(41, 6100);
    assert!(port_iff_process(&s));
    let _url = s.health_confirmed();
    assert!(port_iff_process(&s));
    let _h = s.stop();
    assert!(port_iff_process(&s));
    s.spawned(42, 6101);
    assert!(port_iff_process(&s));
    let (_h, _e) = s.health_timed_out();
    assert!(port_iff_process(&s));
    let e = s.setup_failed(SetupFailure::DataDir);
    assert_eq!(e, SupervisorError::DataDirUnavailable);
    assert!(port_iff_process(&s));
}

#[test]
fn start_succeeds_on_nth_probe_with_n_minus_one_retries() {
    // A fake backend that answers healthily on its 7th probe.
    let n = 7u32;
    let mut s = Supervisor::new();
    assert_eq!(s.start_decision(), StartDecision::Proceed);
    s.spawned(11, 4321);
    assert_eq!(s.phase, Phase::Starting);

    let mut poller = HealthPoller::new();
    let mut probes = 0u32;
    let mut retries = 0u32;
    let url = loop {
        probes += 1;
        let outcome = if probes == n { ProbeOutcome::Healthy } else { ProbeOutcome::Unhealthy };
        match poller.record_probe(outcome) {
            PollVerdict::Ready => break s.health_confirmed(),
            PollVerdict::Retry => retries += 1, // the host sleeps the interval here
            PollVerdict::TimedOut => panic!("unexpected timeout"),
        }
    };
    assert_eq!(probes, n);
    assert_eq!(retries, n - 1);
    assert_eq!(url, "http://127.0.0.1:4321");
    assert_eq!(s.phase, Phase::Ready);
    assert_eq!(s.get_url(), Ok(String::from("http://127.0.0.1:4321")));
}

#[test]
fn never_healthy_backend_times_out_after_exactly_the_ceiling() {
    let mut s = Supervisor::new();
    s.spawned(23, 5000);

    let mut poller = HealthPoller::new();
    let mut probes = 0u32;
    let err = loop {
        probes += 1;
        match poller.record_probe(ProbeOutcome::Unhealthy) {
            PollVerdict::Ready => panic!("never healthy"),
            PollVerdict::Retry => {
                // Every attempt before the last asks for a retry.
                assert!(probes < ATTEMPT_CEILING);
            }
            PollVerdict::TimedOut => {
                let (handle, err) = s.health_timed_out();
                assert_eq!(handle, 23);
                break err;
            }
        }
    };
    assert_eq!(probes, ATTEMPT_CEILING);
    assert_eq!(err, SupervisorError::HealthCheckTimedOut);
    assert_eq!(s.phase, Phase::Failed);
    assert!(s.process.is_none());
    assert!(s.port.is_none());
    assert_eq!(s.get_url(), Err(SupervisorError::NotStarted));
}

#[test]
fn restart_after_stop_owns_only_the_fresh_instance() {
    let mut s = Supervisor::new();
    s.spawned(100, 7000);
    let url1 = s.health_confirmed();
    assert_eq!(url1, "http://127.0.0.1:7000");

    let killed = s.stop();
    assert_eq!(killed, Some(100));
    assert_eq!(s.phase, Phase::Idle);

    assert_eq!(s.start_decision(), StartDecision::Proceed);
    s.spawned(101, 7001);
    let url2 = s.health_confirmed();
    assert_eq!(s.process, Some(101));
    assert_eq!(s.port, Some(7001));
    assert_eq!(url2, "http://127.0.0.1:7001");
}

#[test]
fn two_serialized_starts_spawn_exactly_once() {
    // A fake spawner that records how often it was invoked.
    let mut spawn_count = 0u32;
    let mut next_handle = 200u64;
    let mut spawner = || {
        spawn_count += 1;
        next_handle += 1;
        (next_handle, 9000u16)
    };

    let mut s = Supervisor::new();

    // First caller: sees no process and proceeds to spawn.
    if s.start_decision() == StartDecision::Proceed {
        let (h, p) = spawner();
        s.spawned(h, p);
    }
    // Second caller arrives while the first instance is still being
    // polled: it must reuse the owned instance, not spawn again.
    if s.start_decision() == StartDecision::Proceed {
        let (h, p) = spawner();
        s.spawned(h, p);
    }
    let _url = s.health_confirmed();
    // A third caller after readiness reuses it as well.
    if s.start_decision() == StartDecision::Proceed {
        let (h, p) = spawner();
        s.spawned(h, p);
    }

    assert_eq!(spawn_count, 1);
    assert_eq!(s.process, Some(201));
}

#[test]
fn setup_and_spawn_failures_abort_to_idle() {
    let mut s = Supervisor::new();
    let e = s.setup_failed(SetupFailure::DataDir);
    assert_eq!(e, SupervisorError::DataDirUnavailable);
    assert_eq!(s.phase, Phase::Idle);

    let e = s.setup_failed(SetupFailure::LogFile);
    assert_eq!(e, SupervisorError::LogFileUnavailable);
    assert_eq!(s.phase, Phase::Idle);

    let e = s.spawn_failed(String::from("No such file or directory"));
    assert_eq!(e, SupervisorError::SpawnFailed(String::from("No such file or directory")));
    assert_eq!(s.phase, Phase::Idle);
    assert!(s.process.is_none());
    assert!(s.port.is_none());
}

#[test]
fn stop_while_starting_takes_the_process_handle() {
    let mut s = Supervisor::new();
    s.spawned(55, 3210);
    assert_eq!(s.phase, Phase::Starting);
    // A stop issued mid-poll still finds the stored handle.
    let killed = s.stop();
    assert_eq!(killed, Some(55));
    assert_eq!(s.phase, Phase::Idle);
    assert_eq!(s.get_url(), Err(SupervisorError::NotStarted));
}

#[test]
fn error_messages_are_human_readable() {
    assert_eq!(SupervisorError::DataDirUnavailable.message(), "data directory unavailable");
    assert_eq!(SupervisorError::LogFileUnavailable.message(), "log file unavailable");
    assert_eq!(
        SupervisorError::SpawnFailed(String::from("permission denied")).message(),
        "failed to spawn backend: permission denied"
    );
    assert_eq!(SupervisorError::HealthCheckTimedOut.message(), "backend health check timed out");
    assert_eq!(SupervisorError::NotStarted.message(), "backend not started");
}
