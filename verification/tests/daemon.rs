use nioca_client::daemon::{DaemonCommand, DaemonEvent, DaemonPhase, RenewalDaemon};
use nioca_client::errors::Protocol;

#[test]
fn fetch_failure_schedules_backoff_and_loops() {
    // Any fetch failure sleeps for exactly the configured backoff, then the
    // loop fetches again: the daemon never terminates on a failure.
    let mut daemon = RenewalDaemon::new(Protocol::X509, 60);
    for _ in 0..5 {
        let cmd = daemon.step(DaemonEvent::FetchFailed);
        assert_eq!(cmd, DaemonCommand::Sleep { secs: 60 });
        assert_eq!(daemon.phase, DaemonPhase::Sleeping);
        let cmd = daemon.step(DaemonEvent::SleepElapsed);
        assert_eq!(cmd, DaemonCommand::Fetch);
        assert_eq!(daemon.phase, DaemonPhase::Fetching);
    }
}

#[test]
fn sealed_service_waits_default_backoff() {
    // An HTTP 405 (sealed authority) is a fetch failure like any other: the
    // next attempt comes after the default 60-second backoff.
    let mut daemon = RenewalDaemon::new(Protocol::X509, 60);
    let cmd = daemon.step(DaemonEvent::FetchFailed);
    assert_eq!(cmd, DaemonCommand::Sleep { secs: 60 });
}

#[test]
fn configured_backoff_is_respected() {
    let mut daemon = RenewalDaemon::new(Protocol::Ssh, 15);
    let cmd = daemon.step(DaemonEvent::FetchFailed);
    assert_eq!(cmd, DaemonCommand::Sleep { secs: 15 });
}

#[test]
fn successful_fetch_publishes_then_sleeps_for_renew_delay() {
    let mut daemon = RenewalDaemon::new(Protocol::X509, 60);
    let cmd = daemon.step(DaemonEvent::FetchSucceeded { renew_delay_secs: 900 });
    assert_eq!(cmd, DaemonCommand::Publish);
    assert_eq!(daemon.phase, DaemonPhase::Publishing);
    let cmd = daemon.step(DaemonEvent::PublishSucceeded);
    assert_eq!(cmd, DaemonCommand::Sleep { secs: 900 });
}

#[test]
fn publish_failure_keeps_schedule_from_fetched_material() {
    // A failed (unprivileged) publication skips only this iteration's
    // publication: the next fetch still happens at the delay computed from
    // the already-fetched expiry, not sooner.
    let mut daemon = RenewalDaemon::new(Protocol::X509, 60);
    daemon.step(DaemonEvent::FetchSucceeded { renew_delay_secs: 900 });
    let cmd = daemon.step(DaemonEvent::PublishFailed { privileged: false });
    assert_eq!(cmd, DaemonCommand::Sleep { secs: 900 });
    let cmd = daemon.step(DaemonEvent::SleepElapsed);
    assert_eq!(cmd, DaemonCommand::Fetch);
}

#[test]
fn privileged_install_failure_aborts() {
    // A half-applied system SSH configuration is unsafe: the daemon stops.
    let mut daemon = RenewalDaemon::new(Protocol::Ssh, 60);
    daemon.step(DaemonEvent::FetchSucceeded { renew_delay_secs: 500 });
    let cmd = daemon.step(DaemonEvent::PublishFailed { privileged: true });
    assert_eq!(cmd, DaemonCommand::Abort);
}
