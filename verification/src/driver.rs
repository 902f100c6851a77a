//! Carrying a request out, one host operation at a time.
//!
//! The host calls [`begin`] and then does what each [`Step`] asks: it reads the
//! state of the session and answers with [`observed`], or it performs the
//! operation and answers with [`Pending::completed`] or [`Pending::failed`],
//! until the step is [`Step::Finish`] or [`Step::Fail`].

use crate::controller::{dispatch, dispatch_spec, Decision, HostOp, Outcome, PlayError, UsageError};
use crate::session::SessionState;
use vstd::prelude::*;

verus! {

/// The operation that the host is carrying out: the one at `position` of the
/// script of `decision`.
#[derive(Clone, Copy, Debug, PartialEq, Eq, Structural)]
pub struct Pending {
    pub decision: Decision,
    pub position: usize,
}

/// What the controller asks of the host next.
#[derive(Debug, PartialEq, Eq)]
pub enum Step<E> {
    /// Read the lifecycle state of the session that was passed in, and answer
    /// with [`observed`].
    ObserveState,
    /// Carry out the operation, and answer with [`Pending::completed`] or
    /// [`Pending::failed`].
    Perform(HostOp, Pending),
    /// The request is done: give these handles back.
    Finish(Outcome),
    /// The request failed: give this error back.
    Fail(PlayError<E>),
}

/// The step at `position` of the script of `decision`: the operation there, or
/// the end of the request once the script is used up.
pub open spec fn step_at<E>(decision: Decision, position: int) -> Step<E> {
    if 0 <= position < decision.script().len() {
        Step::Perform(decision.script()[position], Pending { decision, position: position as usize })
    } else {
        Step::Finish(decision.outcome_spec())
    }
}

/// The step that is reached from `step` when the next `count` operations all
/// complete. A step that asks for no operation stays as it is.
pub open spec fn after_completions<E>(step: Step<E>, count: nat) -> Step<E>
    decreases count,
{
    if count == 0 {
        step
    } else {
        match step {
            Step::Perform(_, pending) => after_completions(
                pending.completed_spec::<E>(),
                (count - 1) as nat,
            ),
            _ => step,
        }
    }
}

/// The first step of a request.
///
/// Without a session the fresh start begins at once. A session without its
/// volume control fails before anything is touched or read. Otherwise the
/// state of the session is asked for.
pub open spec fn begin_spec<E>(has_session: bool, has_volume_control: bool) -> Step<E> {
    if !has_session {
        step_at(Decision::StartFresh, 0)
    } else if !has_volume_control {
        Step::Fail(PlayError::Usage(UsageError::MissingVolumeControl))
    } else {
        Step::ObserveState
    }
}

impl Pending {
    /// The step after this operation has completed: the next one of the script.
    pub open spec fn completed_spec<E>(self) -> Step<E> {
        step_at(self.decision, self.position + 1)
    }

    /// The step after this operation has failed with `error`: the failure ends
    /// the request, and nothing further is carried out.
    pub open spec fn failed_spec<E>(self, error: E) -> Step<E> {
        if self.position < self.decision.script().len() {
            Step::Fail(self.decision.script()[self.position as int].failure_spec(error))
        } else {
            Step::Fail(PlayError::Environment(error))
        }
    }

    /// Goes on after the operation has completed.
    pub fn completed<E>(self) -> (step: Step<E>)
        ensures
            step == self.completed_spec::<E>(),
    {
        if self.position < usize::MAX {
            enter_at(self.decision, self.position + 1)
        } else {
            Step::Finish(self.decision.outcome())
        }
    }

    /// Ends the request after the operation has failed with `error`.
    pub fn failed<E>(self, error: E) -> (step: Step<E>)
        ensures
            step == self.failed_spec(error),
    {
        match self.decision.operation(self.position) {
            Some(op) => Step::Fail(op.failure(error)),
            None => Step::Fail(PlayError::Environment(error)),
        }
    }
}

fn enter_at<E>(decision: Decision, position: usize) -> (step: Step<E>)
    ensures
        step == step_at::<E>(decision, position as int),
{
    match decision.operation(position) {
        Some(op) => Step::Perform(op, Pending { decision, position }),
        None => Step::Finish(decision.outcome()),
    }
}

/// Begins a request. `has_session` and `has_volume_control` tell which handles
/// the caller passed in.
pub fn begin<E>(has_session: bool, has_volume_control: bool) -> (step: Step<E>)
    ensures
        step == begin_spec::<E>(has_session, has_volume_control),
{
    if !has_session {
        enter_at(Decision::StartFresh, 0)
    } else if !has_volume_control {
        Step::Fail(PlayError::Usage(UsageError::MissingVolumeControl))
    } else {
        Step::ObserveState
    }
}

/// Goes on after the host has read the state of the session.
pub fn observed<E>(state: SessionState) -> (step: Step<E>)
    ensures
        step == step_at::<E>(dispatch_spec(state), 0),
{
    enter_at(dispatch(state), 0)
}

} // verus!
