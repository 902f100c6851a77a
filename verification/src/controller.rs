//! The decisions of the playback controller.
//!
//! A request is settled in two stages. First [`decide`] picks one of four
//! courses from what the caller handed in and from the state of the session.
//! Each course has a fixed script of host operations and names the handles to
//! give back. Then the host carries the script out: [`begin`], [`observed`],
//! [`Pending::completed`] and [`Pending::failed`] walk it one operation at a
//! time, and stop at the first failure.

use crate::session::SessionState;
use crate::taper::{GAIN_FULL, GAIN_SILENT, TAPER_MS};
use vstd::prelude::*;

verus! {

/// One primitive that the host carries out for the controller.
#[derive(Clone, Copy, Debug, PartialEq, Eq, Structural)]
pub enum HostOp {
    /// Create a new output session.
    CreateSession,
    /// Decode the payload into a playable buffer, and wait for the decoder.
    DecodePayload,
    /// Create a playback source bound to the decoded buffer.
    CreateSource,
    /// Create a volume control on the session and set its gain.
    CreateVolumeControl { initial_gain: u32 },
    /// Connect the volume control to the hardware destination.
    ConnectVolumeControlToOutput,
    /// Connect the playback source to the volume control.
    ConnectSourceToVolumeControl,
    /// Start the playback source at once.
    StartSource,
    /// Ramp the gain linearly from its current value to `target`, from the
    /// session's current playback time to `duration_ms` later.
    RampGain { target: u32, duration_ms: u32 },
    /// Arrange for the session to be suspended `delay_ms` from now, without
    /// waiting for it.
    ScheduleSuspend { delay_ms: u32 },
    /// Resume the session, and wait until it has resumed.
    ResumeSession,
}

/// Where a handle in the result comes from.
#[derive(Clone, Copy, Debug, PartialEq, Eq, Structural)]
pub enum Origin {
    /// The handle that the caller passed in, unchanged.
    Supplied,
    /// The handle that was created while the request was carried out.
    Created,
}

/// The pair of handles that a successful request gives back.
#[derive(Clone, Copy, Debug, PartialEq, Eq, Structural)]
pub struct Outcome {
    pub session: Origin,
    pub volume_control: Origin,
}

/// A request that the caller should not have made.
#[derive(Clone, Copy, Debug, PartialEq, Eq, Structural)]
pub enum UsageError {
    /// A session was passed in without its volume control.
    MissingVolumeControl,
}

/// Why a request failed. `E` is the error value of the host.
#[derive(Debug, PartialEq, Eq)]
pub enum PlayError<E> {
    /// The caller broke the rules of the interface.
    Usage(UsageError),
    /// The host could not decode the payload.
    Decode(E),
    /// A session or gain primitive failed.
    Environment(E),
}

/// The course that the controller takes on a request.
#[derive(Clone, Copy, Debug, PartialEq, Eq, Structural)]
pub enum Decision {
    /// Create a session, decode the payload and start playing it.
    StartFresh,
    /// The session is closed: touch nothing.
    LeaveClosed,
    /// The session is running: fade out, then suspend it.
    Pause,
    /// The session is suspended: fade in and resume it.
    Resume,
}

/// The course that [`decide`] takes.
///
/// Without a session the controller starts afresh. A session without its volume
/// control is a usage error, whatever the state of the session. Otherwise the
/// state of the session alone picks the course.
pub open spec fn decide_spec(session: Option<SessionState>, has_volume_control: bool) -> Result<
    Decision,
    UsageError,
> {
    match session {
        None => Ok(Decision::StartFresh),
        Some(state) => if has_volume_control {
            Ok(dispatch_spec(state))
        } else {
            Err(UsageError::MissingVolumeControl)
        },
    }
}

/// The course for a session in `state` that came with its volume control.
pub open spec fn dispatch_spec(state: SessionState) -> Decision {
    match state {
        SessionState::Closed => Decision::LeaveClosed,
        SessionState::Running => Decision::Pause,
        SessionState::Suspended => Decision::Resume,
    }
}

impl UsageError {
    /// The words in which the error is reported to the caller.
    pub fn message(&self) -> (message: &'static str)
        ensures
            message@ == "no gain node"@,
    {
        match self {
            UsageError::MissingVolumeControl => "no gain node",
        }
    }
}

impl HostOp {
    /// The error that a failure of this operation amounts to: a failed decode is a
    /// decode error, any other failure is the environment's. The host's error
    /// value is passed on as it is.
    pub open spec fn failure_spec<E>(self, error: E) -> PlayError<E> {
        match self {
            HostOp::DecodePayload => PlayError::Decode(error),
            _ => PlayError::Environment(error),
        }
    }

    /// Classifies a failure of this operation.
    pub fn failure<E>(self, error: E) -> (e: PlayError<E>)
        ensures
            e == self.failure_spec(error),
    {
        match self {
            HostOp::DecodePayload => PlayError::Decode(error),
            _ => PlayError::Environment(error),
        }
    }
}

impl Decision {
    /// The host operations of this course, in the order in which they are carried
    /// out.
    pub open spec fn script(self) -> Seq<HostOp> {
        match self {
            Decision::StartFresh => seq![
                HostOp::CreateSession,
                HostOp::DecodePayload,
                HostOp::CreateSource,
                HostOp::CreateVolumeControl { initial_gain: GAIN_FULL },
                HostOp::ConnectVolumeControlToOutput,
                HostOp::ConnectSourceToVolumeControl,
                HostOp::StartSource,
            ],
            Decision::LeaveClosed => seq![],
            Decision::Pause => seq![
                HostOp::RampGain { target: GAIN_SILENT, duration_ms: TAPER_MS },
                HostOp::ScheduleSuspend { delay_ms: TAPER_MS },
            ],
            Decision::Resume => seq![
                HostOp::RampGain { target: GAIN_FULL, duration_ms: TAPER_MS },
                HostOp::ResumeSession,
            ],
        }
    }

    /// The handles that this course gives back: a fresh start gives back what it
    /// created, every other course the pair that was passed in.
    pub open spec fn outcome_spec(self) -> Outcome {
        match self {
            Decision::StartFresh => Outcome { session: Origin::Created, volume_control: Origin::Created },
            _ => Outcome { session: Origin::Supplied, volume_control: Origin::Supplied },
        }
    }

    /// The handles that this course gives back.
    pub fn outcome(&self) -> (outcome: Outcome)
        ensures
            outcome == self.outcome_spec(),
    {
        match self {
            Decision::StartFresh => Outcome { session: Origin::Created, volume_control: Origin::Created },
            _ => Outcome { session: Origin::Supplied, volume_control: Origin::Supplied },
        }
    }

    /// The operation at `position` of the script, if the script is that long.
    pub fn operation(&self, position: usize) -> (op: Option<HostOp>)
        ensures
            position < self.script().len() ==> op == Some(self.script()[position as int]),
            position >= self.script().len() ==> op is None,
    {
        match self {
            Decision::StartFresh => match position {
                0 => Some(HostOp::CreateSession),
                1 => Some(HostOp::DecodePayload),
                2 => Some(HostOp::CreateSource),
                3 => Some(HostOp::CreateVolumeControl { initial_gain: GAIN_FULL }),
                4 => Some(HostOp::ConnectVolumeControlToOutput),
                5 => Some(HostOp::ConnectSourceToVolumeControl),
                6 => Some(HostOp::StartSource),
                _ => None,
            },
            Decision::LeaveClosed => None,
            Decision::Pause => match position {
                0 => Some(HostOp::RampGain { target: GAIN_SILENT, duration_ms: TAPER_MS }),
                1 => Some(HostOp::ScheduleSuspend { delay_ms: TAPER_MS }),
                _ => None,
            },
            Decision::Resume => match position {
                0 => Some(HostOp::RampGain { target: GAIN_FULL, duration_ms: TAPER_MS }),
                1 => Some(HostOp::ResumeSession),
                _ => None,
            },
        }
    }

    /// The whole script.
    pub fn operations(&self) -> (ops: Vec<HostOp>)
        ensures
            ops@ == self.script(),
    {
        let mut ops: Vec<HostOp> = Vec::new();
        let mut position: usize = 0;
        loop
            invariant
                position == ops@.len(),
                position <= self.script().len(),
                ops@ == self.script().subrange(0, position as int),
            ensures
                ops@ == self.script(),
            decreases self.script().len() - position,
        {
            match self.operation(position) {
                Some(op) => {
                    ops.push(op);
                    position = position + 1;
                },
                None => {
                    break ;
                },
            }
        }
        ops
    }
}

/// Picks the course for a request.
///
/// `session` is the state of the session that was passed in, if one was, and
/// `has_volume_control` tells whether a volume control came with it.
pub fn decide(session: Option<SessionState>, has_volume_control: bool) -> (decision: Result<
    Decision,
    UsageError,
>)
    ensures
        decision == decide_spec(session, has_volume_control),
{
    match session {
        None => Ok(Decision::StartFresh),
        Some(state) => {
            if has_volume_control {
                Ok(dispatch(state))
            } else {
                Err(UsageError::MissingVolumeControl)
            }
        },
    }
}

/// Picks the course for a session in `state` that came with its volume control.
pub fn dispatch(state: SessionState) -> (decision: Decision)
    ensures
        decision == dispatch_spec(state),
{
    match state {
        SessionState::Closed => Decision::LeaveClosed,
        SessionState::Running => Decision::Pause,
        SessionState::Suspended => Decision::Resume,
    }
}

} // verus!
