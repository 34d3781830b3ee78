//! The restart decisions of the process supervisor.
//!
//! The supervisor owns the worker process and both channel endpoints; it
//! watches three sources at once — configurations from its owner, statuses
//! from the worker, and worker termination — and reacts to whichever is
//! ready first. This module fixes those reactions and the one piece of state
//! behind them: the most recently submitted configuration, retained so a
//! freshly spawned worker can be brought up to date before anything else is
//! forwarded. The caller runs the loop: it spawns processes, moves messages,
//! and reports failures back as events.

use vstd::prelude::*;

use crate::messages::{Configuration, Status};

verus! {

/// One thing the supervisor's loop observed.
pub enum WorkerEvent {
    /// The owner closed its configuration sink: the only graceful shutdown.
    OwnerClosed,
    /// The owner submitted a new configuration.
    OwnerConfig(Configuration),
    /// The worker reported a status.
    WorkerStatus(Status),
    /// The worker exited, its channel closed, or a receive from it failed.
    WorkerLost,
    /// Forwarding a message toward the worker or the owner failed.
    ForwardFailed,
}

/// What the supervisor's loop does next.
#[derive(Debug, PartialEq)]
pub enum SupervisorAction {
    /// Return cleanly; the supervisor is done.
    Stop,
    /// Send this configuration down to the worker.
    ForwardConfig(Configuration),
    /// Publish this status to the owner.
    ForwardStatus(Status),
    /// The worker is unusable: spawn a new generation immediately.
    Respawn,
}

/// The supervisor's state across worker generations.
pub struct Supervisor {
    /// The most recently submitted configuration; replayed to every new
    /// worker so a respawn never runs on defaults the user had already
    /// changed.
    pub last_config: Option<Configuration>,
}

impl Supervisor {
    /// A supervisor that has not yet seen a configuration.
    pub fn new() -> (s: Supervisor)
        ensures
            s.last_config is None,
    {
        Supervisor { last_config: None }
    }

    /// The configuration to resend to a newly spawned worker before any
    /// other traffic, if one was ever submitted. The state is unchanged.
    pub fn replay_config(&self) -> (c: Option<Configuration>)
        ensures
            c == self.last_config,
    {
        match &self.last_config {
            None => None,
            Some(cfg) => Some(cfg.duplicate()),
        }
    }

    /// Reacts to one event. A new configuration is recorded and forwarded;
    /// a status is passed through; every failure — worker exit, channel
    /// loss, forwarding error — is answered the same way, with an immediate
    /// respawn; only the owner closing its sink stops the supervisor. No
    /// event but a new configuration touches the retained one.
    pub fn on_event(&mut self, e: WorkerEvent) -> (a: SupervisorAction)
        ensures
            match e {
                WorkerEvent::OwnerClosed => {
                    &&& a == SupervisorAction::Stop
                    &&& *final(self) == *old(self)
                },
                WorkerEvent::OwnerConfig(c) => {
                    &&& a == SupervisorAction::ForwardConfig(c)
                    &&& final(self).last_config == Some(c)
                },
                WorkerEvent::WorkerStatus(s) => {
                    &&& a == SupervisorAction::ForwardStatus(s)
                    &&& *final(self) == *old(self)
                },
                WorkerEvent::WorkerLost => {
                    &&& a == SupervisorAction::Respawn
                    &&& *final(self) == *old(self)
                },
                WorkerEvent::ForwardFailed => {
                    &&& a == SupervisorAction::Respawn
                    &&& *final(self) == *old(self)
                },
            },
    {
        match e {
            WorkerEvent::OwnerClosed => SupervisorAction::Stop,
            WorkerEvent::OwnerConfig(c) => {
                self.last_config = Some(c.duplicate());
                SupervisorAction::ForwardConfig(c)
            },
            WorkerEvent::WorkerStatus(s) => SupervisorAction::ForwardStatus(s),
            WorkerEvent::WorkerLost => SupervisorAction::Respawn,
            WorkerEvent::ForwardFailed => SupervisorAction::Respawn,
        }
    }
}

} // verus!
