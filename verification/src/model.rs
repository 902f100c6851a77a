//! An abstract host, for stating what the controller's scripts bring about.
//!
//! The real session, volume control and timer queue belong to the host. This
//! model says what they are taken to do: what a completed operation changes,
//! and what the passing of time changes. Nothing here runs; the laws of the
//! crate are stated over it.

use crate::controller::HostOp;
use crate::session::SessionState;
use vstd::prelude::*;

verus! {

/// The gain of a volume control, in thousandths.
pub enum GainModel {
    /// The gain rests at this level.
    Steady(int),
    /// The gain is on a linear ramp that reaches `target` when the session's
    /// clock reads `end`.
    Ramping { target: int, end: nat },
}

/// A session, its volume control, and the suspends that are waiting in the
/// timer queue.
pub struct HostModel {
    /// The state of the session, if there is a session.
    pub session: Option<SessionState>,
    /// The session's playback clock, in milliseconds. It never runs backwards.
    pub clock: nat,
    /// The volume control, if there is one.
    pub volume: Option<GainModel>,
    /// The clock readings at which a scheduled suspend falls due.
    pub suspend_due: Set<nat>,
    /// Whether a playback source has been started.
    pub playing: bool,
}

impl HostModel {
    /// The host after `op` has completed.
    pub open spec fn perform(self, op: HostOp) -> HostModel {
        match op {
            HostOp::CreateSession => HostModel {
                session: Some(SessionState::Running),
                clock: 0,
                volume: None,
                suspend_due: Set::empty(),
                playing: false,
            },
            HostOp::CreateVolumeControl { initial_gain } => HostModel {
                volume: Some(GainModel::Steady(initial_gain as int)),
                ..self
            },
            HostOp::StartSource => HostModel { playing: true, ..self },
            HostOp::RampGain { target, duration_ms } => HostModel {
                volume: if self.volume is Some {
                    Some(GainModel::Ramping { target: target as int, end: self.clock + duration_ms as nat })
                } else {
                    None
                },
                ..self
            },
            HostOp::ScheduleSuspend { delay_ms } => HostModel {
                suspend_due: self.suspend_due.insert(self.clock + delay_ms as nat),
                ..self
            },
            HostOp::ResumeSession => HostModel {
                session: if self.session == Some(SessionState::Suspended) {
                    Some(SessionState::Running)
                } else {
                    self.session
                },
                ..self
            },
            HostOp::DecodePayload
            | HostOp::CreateSource
            | HostOp::ConnectVolumeControlToOutput
            | HostOp::ConnectSourceToVolumeControl => self,
        }
    }

    /// The host after the first `count` operations of `ops` have completed, one
    /// after the other.
    pub open spec fn perform_first(self, ops: Seq<HostOp>, count: nat) -> HostModel
        decreases count,
    {
        if count == 0 {
            self
        } else {
            self.perform_first(ops, (count - 1) as nat).perform(ops[count - 1])
        }
    }

    /// The host after all of `ops` have completed.
    pub open spec fn perform_all(self, ops: Seq<HostOp>) -> HostModel {
        self.perform_first(ops, ops.len())
    }

    /// Whether a scheduled suspend falls due by the time the clock reads `now`.
    pub open spec fn suspend_fires_by(self, now: nat) -> bool {
        exists|due: nat| self.suspend_due.contains(due) && due <= now
    }

    /// The host after `elapsed` milliseconds in which no request is made.
    ///
    /// A ramp that has reached its end leaves the gain at its target. A suspend
    /// that has fallen due suspends a running session and leaves the queue.
    pub open spec fn after(self, elapsed: nat) -> HostModel {
        let now = self.clock + elapsed;
        HostModel {
            session: if self.session == Some(SessionState::Running) && self.suspend_fires_by(now) {
                Some(SessionState::Suspended)
            } else {
                self.session
            },
            clock: now,
            volume: match self.volume {
                Some(GainModel::Ramping { target, end }) if end <= now => Some(GainModel::Steady(target)),
                _ => self.volume,
            },
            suspend_due: self.suspend_due.filter(|due: nat| due > now),
            playing: self.playing,
        }
    }

    /// The host after the owner of the session has closed it.
    pub open spec fn closed(self) -> HostModel {
        HostModel {
            session: if self.session is Some {
                Some(SessionState::Closed)
            } else {
                None
            },
            ..self
        }
    }
}

} // verus!
