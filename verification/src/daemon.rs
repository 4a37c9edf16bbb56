//! The renewal daemon's control loop as a state machine. One instance runs
//! per protocol. The caller performs each returned command (the network
//! fetch, the publication, the sleep) and reports what happened; the machine
//! decides every transition, and a transient failure never ends the loop.

use crate::errors::Protocol;
use vstd::prelude::*;

verus! {

/// Where the loop stands inside one iteration.
#[derive(Debug, Clone, Copy, PartialEq, Eq, Structural)]
pub enum DaemonPhase {
    /// A fetch from the certificate authority is in flight.
    Fetching,
    /// Freshly fetched material is being installed and/or distributed.
    Publishing,
    /// Waiting for the scheduled delay before the next fetch.
    Sleeping,
}

/// What the caller reports back after performing a command.
#[derive(Debug, Clone, Copy, PartialEq, Eq, Structural)]
pub enum DaemonEvent {
    /// The fetch succeeded; the scheduler computed this renewal delay.
    FetchSucceeded { renew_delay_secs: u64 },
    /// The fetch failed, whatever the kind of error.
    FetchFailed,
    /// Installation and distribution finished without error.
    PublishSucceeded,
    /// Installation or distribution failed. `privileged` is true only for a
    /// failure while writing privileged system SSH paths, which must not
    /// leave a half-applied daemon configuration running.
    PublishFailed { privileged: bool },
    /// The scheduled sleep elapsed.
    SleepElapsed,
}

/// What the caller must do next.
#[derive(Debug, Clone, Copy, PartialEq, Eq, Structural)]
pub enum DaemonCommand {
    /// Ask the certificate authority for fresh material.
    Fetch,
    /// Install and/or distribute the material of the last successful fetch.
    Publish,
    /// Sleep this many seconds, then report that the sleep elapsed.
    Sleep { secs: u64 },
    /// Stop the daemon for this protocol: a privileged SSH installation
    /// failed and continuing would be unsafe.
    Abort,
}

/// Per-protocol renewal loop state: the phase, the configured failure
/// backoff, and the delay computed for the next fetch.
#[derive(Debug, Clone, Copy, PartialEq, Eq, Structural)]
pub struct RenewalDaemon {
    pub protocol: Protocol,
    pub phase: DaemonPhase,
    pub error_backoff_secs: u64,
    pub next_delay_secs: u64,
}

/// Which events may be reported in which phase.
pub open spec fn event_fits_phase(phase: DaemonPhase, event: DaemonEvent) -> bool {
    match event {
        DaemonEvent::FetchSucceeded { .. } => phase is Fetching,
        DaemonEvent::FetchFailed => phase is Fetching,
        DaemonEvent::PublishSucceeded => phase is Publishing,
        DaemonEvent::PublishFailed { .. } => phase is Publishing,
        DaemonEvent::SleepElapsed => phase is Sleeping,
    }
}

/// The complete transition relation of the renewal loop.
pub open spec fn daemon_step(s: RenewalDaemon, event: DaemonEvent) -> (RenewalDaemon,
    DaemonCommand) {
    match event {
        DaemonEvent::FetchSucceeded { renew_delay_secs } => (
            RenewalDaemon { phase: DaemonPhase::Publishing, next_delay_secs: renew_delay_secs, ..s },
            DaemonCommand::Publish,
        ),
        DaemonEvent::FetchFailed => (
            RenewalDaemon {
                phase: DaemonPhase::Sleeping,
                next_delay_secs: s.error_backoff_secs,
                ..s
            },
            DaemonCommand::Sleep { secs: s.error_backoff_secs },
        ),
        DaemonEvent::PublishSucceeded => (
            RenewalDaemon { phase: DaemonPhase::Sleeping, ..s },
            DaemonCommand::Sleep { secs: s.next_delay_secs },
        ),
        DaemonEvent::PublishFailed { privileged } => if privileged {
            (s, DaemonCommand::Abort)
        } else {
            // Publication and scheduling are independent: the fetched material
            // is still valid, so the schedule from the successful fetch stands.
            (
                RenewalDaemon { phase: DaemonPhase::Sleeping, ..s },
                DaemonCommand::Sleep { secs: s.next_delay_secs },
            )
        },
        DaemonEvent::SleepElapsed => (
            RenewalDaemon { phase: DaemonPhase::Fetching, ..s },
            DaemonCommand::Fetch,
        ),
    }
}

impl RenewalDaemon {
    /// A daemon about to perform its first fetch.
    pub fn new(protocol: Protocol, error_backoff_secs: u64) -> (d: RenewalDaemon)
        ensures
            d == (RenewalDaemon {
                protocol,
                phase: DaemonPhase::Fetching,
                error_backoff_secs,
                next_delay_secs: error_backoff_secs,
            }),
    {
        RenewalDaemon {
            protocol,
            phase: DaemonPhase::Fetching,
            error_backoff_secs,
            next_delay_secs: error_backoff_secs,
        }
    }

    /// Advance the loop by one reported event and say what to do next.
    pub fn step(&mut self, event: DaemonEvent) -> (cmd: DaemonCommand)
        requires
            event_fits_phase(old(self).phase, event),
        ensures
            (*final(self), cmd) == daemon_step(*old(self), event),
    {
        match event {
            DaemonEvent::FetchSucceeded { renew_delay_secs } => {
                self.phase = DaemonPhase::Publishing;
                self.next_delay_secs = renew_delay_secs;
                DaemonCommand::Publish
            },
            DaemonEvent::FetchFailed => {
                self.phase = DaemonPhase::Sleeping;
                self.next_delay_secs = self.error_backoff_secs;
                DaemonCommand::Sleep { secs: self.error_backoff_secs }
            },
            DaemonEvent::PublishSucceeded => {
                self.phase = DaemonPhase::Sleeping;
                DaemonCommand::Sleep { secs: self.next_delay_secs }
            },
            DaemonEvent::PublishFailed { privileged } => {
                if privileged {
                    DaemonCommand::Abort
                } else {
                    self.phase = DaemonPhase::Sleeping;
                    DaemonCommand::Sleep { secs: self.next_delay_secs }
                }
            },
            DaemonEvent::SleepElapsed => {
                self.phase = DaemonPhase::Fetching;
                DaemonCommand::Fetch
            },
        }
    }
}

/// A fetch failure of any kind never terminates the loop: the daemon goes to
/// sleep for exactly the configured error backoff and then fetches again.
pub proof fn lemma_fetch_failure_keeps_loop_alive(s: RenewalDaemon)
    requires
        s.phase is Fetching,
    ensures
        daemon_step(s, DaemonEvent::FetchFailed).1 == (DaemonCommand::Sleep {
            secs: s.error_backoff_secs,
        }),
        daemon_step(s, DaemonEvent::FetchFailed).0.phase is Sleeping,
        daemon_step(daemon_step(s, DaemonEvent::FetchFailed).0, DaemonEvent::SleepElapsed).1
            == DaemonCommand::Fetch,
{
}

/// A publication failure on ordinary (unprivileged) paths skips nothing but
/// that iteration's publication: the next fetch is still scheduled from the
/// delay that the successful fetch computed.
pub proof fn lemma_publish_failure_keeps_schedule(s: RenewalDaemon, renew_delay_secs: u64)
    requires
        s.phase is Fetching,
    ensures
        ({
            let after_fetch = daemon_step(
                s,
                DaemonEvent::FetchSucceeded { renew_delay_secs },
            ).0;
            daemon_step(after_fetch, DaemonEvent::PublishFailed { privileged: false }).1
                == (DaemonCommand::Sleep { secs: renew_delay_secs })
        }),
{
}

} // verus!
