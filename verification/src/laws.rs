//! What holds of every request.

use crate::controller::{
    decide_spec, dispatch_spec, Decision, HostOp, Origin, Outcome, PlayError, UsageError,
};
use crate::driver::{after_completions, begin_spec, step_at, Pending, Step};
use crate::model::{GainModel, HostModel};
use crate::session::SessionState;
use crate::taper::{GAIN_FULL, GAIN_SILENT, TAPER_MS};
use crate::timer::timer_delay_spec;
use vstd::prelude::*;

verus! {

/// While the operations complete, the controller follows the script of its
/// course: from any place in the script, `count` completions later it stands
/// `count` places further on, and once the script is used up it has finished
/// with the outcome of the course and stays there.
pub proof fn law_script_is_followed<E>(decision: Decision, position: nat, count: nat)
    ensures
        after_completions(step_at::<E>(decision, position as int), count) == step_at::<E>(
            decision,
            (position + count) as int,
        ),
    decreases count,
{
    if count > 0 && position < decision.script().len() {
        law_script_is_followed::<E>(decision, position + 1, (count - 1) as nat);
    }
}

/// A course whose operations all complete asks for each operation of its
/// script, in order and once, and then gives back its outcome.
pub proof fn law_completed_course_finishes<E>(decision: Decision)
    ensures
        forall|i: int|
            0 <= i < decision.script().len() ==> #[trigger] after_completions(
                step_at::<E>(decision, 0),
                i as nat,
            ) == Step::<E>::Perform(
                decision.script()[i],
                Pending { decision, position: i as usize },
            ),
        after_completions(step_at::<E>(decision, 0), decision.script().len()) == Step::<
            E,
        >::Finish(decision.outcome_spec()),
{
    assert forall|i: int| 0 <= i < decision.script().len() implies #[trigger] after_completions(
        step_at::<E>(decision, 0),
        i as nat,
    ) == Step::<E>::Perform(decision.script()[i], Pending { decision, position: i as usize }) by {
        law_script_is_followed::<E>(decision, 0, i as nat);
    }
    law_script_is_followed::<E>(decision, 0, decision.script().len());
}

/// Every failure is final: the operation that failed decides the kind of the
/// error, the host's error value is passed on as it is, and no operation is
/// asked for after it. A step that ends the request stays as it is.
pub proof fn law_failure_is_final<E>(decision: Decision, position: nat, error: E, count: nat)
    requires
        position < decision.script().len(),
    ensures
        (Pending { decision, position: position as usize }).failed_spec(error) == Step::Fail(
            if decision.script()[position as int] == HostOp::DecodePayload {
                PlayError::Decode(error)
            } else {
                PlayError::Environment(error)
            },
        ),
        after_completions(
            (Pending { decision, position: position as usize }).failed_spec(error),
            count,
        ) == (Pending { decision, position: position as usize }).failed_spec(error),
        after_completions(Step::<E>::Finish(decision.outcome_spec()), count) == Step::<E>::Finish(
            decision.outcome_spec(),
        ),
{
}

/// The steps of a request agree with the course picked for it: without a
/// session they start on that course at once, with a session and its volume
/// control they start on it once the state has been read, and with a session
/// alone they fail with the usage error.
pub proof fn law_steps_follow_decision<E>(session: Option<SessionState>, has_volume_control: bool)
    ensures
        match decide_spec(session, has_volume_control) {
            Ok(decision) => match session {
                None => begin_spec::<E>(false, has_volume_control) == step_at::<E>(decision, 0),
                Some(state) => begin_spec::<E>(true, has_volume_control) == Step::<E>::ObserveState
                    && step_at::<E>(dispatch_spec(state), 0) == step_at::<E>(decision, 0),
            },
            Err(usage) => begin_spec::<E>(session is Some, has_volume_control) == Step::<E>::Fail(
                PlayError::Usage(usage),
            ),
        },
{
}

/// What a fresh start brings about, when the host completes every operation:
/// a new session that runs, with its clock at zero and nothing scheduled, a
/// volume control at full gain, and a started source.
pub proof fn law_effect_of_fresh_start(host: HostModel)
    ensures
        host.perform_all(Decision::StartFresh.script()) == (HostModel {
            session: Some(SessionState::Running),
            clock: 0,
            volume: Some(GainModel::Steady(GAIN_FULL as int)),
            suspend_due: Set::empty(),
            playing: true,
        }),
{
    reveal_with_fuel(HostModel::perform_first, 8);
}

/// What a pause brings about at once: the gain is on a ramp to silence that
/// ends one taper from now, and a suspend is due one taper from now. The
/// session itself is as it was.
pub proof fn law_effect_of_pause(host: HostModel)
    requires
        host.volume is Some,
    ensures
        host.perform_all(Decision::Pause.script()) == (HostModel {
            volume: Some(
                GainModel::Ramping {
                    target: GAIN_SILENT as int,
                    end: host.clock + TAPER_MS as nat,
                },
            ),
            suspend_due: host.suspend_due.insert(host.clock + TAPER_MS as nat),
            ..host
        }),
{
    reveal_with_fuel(HostModel::perform_first, 3);
}

/// What a resume brings about: the gain is on a ramp to full volume that ends
/// one taper from now, and a suspended session runs.
pub proof fn law_effect_of_resume(host: HostModel)
    requires
        host.session == Some(SessionState::Suspended),
        host.volume is Some,
    ensures
        host.perform_all(Decision::Resume.script()) == (HostModel {
            session: Some(SessionState::Running),
            volume: Some(
                GainModel::Ramping { target: GAIN_FULL as int, end: host.clock + TAPER_MS as nat },
            ),
            ..host
        }),
{
    reveal_with_fuel(HostModel::perform_first, 3);
}

/// With no session passed in, whatever the payload and whether or not a volume
/// control was passed in, the controller starts afresh. If the host completes
/// every operation, the request ends with a session that is running, a volume
/// control at full gain and a started source, and gives back the session and
/// the volume control that it created.
pub proof fn law_fresh_start<E>(has_volume_control: bool, host: HostModel)
    ensures
        decide_spec(None, has_volume_control) == Ok::<Decision, UsageError>(Decision::StartFresh),
        begin_spec::<E>(false, has_volume_control) == Step::<E>::Perform(
            HostOp::CreateSession,
            Pending { decision: Decision::StartFresh, position: 0 },
        ),
        after_completions(begin_spec::<E>(false, has_volume_control), 7) == Step::<E>::Finish(
            Outcome { session: Origin::Created, volume_control: Origin::Created },
        ),
        host.perform_all(Decision::StartFresh.script()).session == Some(SessionState::Running),
        host.perform_all(Decision::StartFresh.script()).volume == Some(
            GainModel::Steady(GAIN_FULL as int),
        ),
        host.perform_all(Decision::StartFresh.script()).playing,
{
    law_script_is_followed::<E>(Decision::StartFresh, 0, 7);
    reveal_with_fuel(HostModel::perform_first, 8);
}

/// A running session that comes with its volume control is paused. The gain is
/// set on a ramp to silence that ends one taper after the current clock
/// reading, a suspend is scheduled one taper from now, and the request ends
/// without waiting for it: when it ends the session is still running, and the
/// pair that was passed in is given back. Once a taper or more has passed, the
/// session is suspended and the gain rests at silence.
pub proof fn law_pause<E>(host: HostModel, elapsed: nat)
    requires
        host.session == Some(SessionState::Running),
        host.volume is Some,
        elapsed >= TAPER_MS,
    ensures
        decide_spec(Some(SessionState::Running), true) == Ok::<Decision, UsageError>(
            Decision::Pause,
        ),
        Decision::Pause.script() == seq![
            HostOp::RampGain { target: GAIN_SILENT, duration_ms: TAPER_MS },
            HostOp::ScheduleSuspend { delay_ms: TAPER_MS },
        ],
        after_completions(step_at::<E>(dispatch_spec(SessionState::Running), 0), 2) == Step::<
            E,
        >::Finish(Outcome { session: Origin::Supplied, volume_control: Origin::Supplied }),
        host.perform_all(Decision::Pause.script()).session == Some(SessionState::Running),
        host.perform_all(Decision::Pause.script()).volume == Some(
            GainModel::Ramping { target: GAIN_SILENT as int, end: host.clock + TAPER_MS as nat },
        ),
        host.perform_all(Decision::Pause.script()).suspend_due.contains(
            host.clock + TAPER_MS as nat,
        ),
        host.perform_all(Decision::Pause.script()).after(elapsed).session == Some(
            SessionState::Suspended,
        ),
        host.perform_all(Decision::Pause.script()).after(elapsed).volume == Some(
            GainModel::Steady(GAIN_SILENT as int),
        ),
        timer_delay_spec(TAPER_MS) == TAPER_MS,
{
    law_script_is_followed::<E>(Decision::Pause, 0, 2);
    reveal_with_fuel(HostModel::perform_first, 3);
    let paused = host.perform_all(Decision::Pause.script());
    let due: nat = host.clock + TAPER_MS as nat;
    assert(paused.suspend_due.contains(due));
    assert(due <= paused.clock + elapsed);
    assert(paused.suspend_fires_by(paused.clock + elapsed));
}

/// A suspended session that comes with its volume control is resumed. The gain
/// is set on a ramp to full volume that ends one taper after the current clock
/// reading, and the request ends only after the resume has completed: when it
/// ends the session is running, and the pair that was passed in is given back.
pub proof fn law_resume<E>(host: HostModel)
    requires
        host.session == Some(SessionState::Suspended),
        host.volume is Some,
    ensures
        decide_spec(Some(SessionState::Suspended), true) == Ok::<Decision, UsageError>(
            Decision::Resume,
        ),
        Decision::Resume.script() == seq![
            HostOp::RampGain { target: GAIN_FULL, duration_ms: TAPER_MS },
            HostOp::ResumeSession,
        ],
        after_completions(step_at::<E>(dispatch_spec(SessionState::Suspended), 0), 1) == Step::<
            E,
        >::Perform(HostOp::ResumeSession, Pending { decision: Decision::Resume, position: 1 }),
        after_completions(step_at::<E>(dispatch_spec(SessionState::Suspended), 0), 2) == Step::<
            E,
        >::Finish(Outcome { session: Origin::Supplied, volume_control: Origin::Supplied }),
        host.perform_all(Decision::Resume.script()).session == Some(SessionState::Running),
        host.perform_all(Decision::Resume.script()).volume == Some(
            GainModel::Ramping { target: GAIN_FULL as int, end: host.clock + TAPER_MS as nat },
        ),
{
    law_script_is_followed::<E>(Decision::Resume, 0, 1);
    law_script_is_followed::<E>(Decision::Resume, 0, 2);
    reveal_with_fuel(HostModel::perform_first, 3);
}

/// A closed session is left alone: the request succeeds, asks the host for no
/// operation, changes nothing, and gives back the pair that was passed in.
pub proof fn law_closed_is_left_alone<E>(host: HostModel)
    ensures
        decide_spec(Some(SessionState::Closed), true) == Ok::<Decision, UsageError>(
            Decision::LeaveClosed,
        ),
        Decision::LeaveClosed.script() == Seq::<HostOp>::empty(),
        step_at::<E>(dispatch_spec(SessionState::Closed), 0) == Step::<E>::Finish(
            Outcome { session: Origin::Supplied, volume_control: Origin::Supplied },
        ),
        host.perform_all(Decision::LeaveClosed.script()) == host,
{
}

/// A session without its volume control is a usage error, whatever the state
/// of the session, and the error is raised before the state is read or the
/// host is asked for anything.
pub proof fn law_missing_volume_control<E>(state: SessionState)
    ensures
        decide_spec(Some(state), false) == Err::<Decision, UsageError>(
            UsageError::MissingVolumeControl,
        ),
        begin_spec::<E>(true, false) == Step::<E>::Fail(
            PlayError::Usage(UsageError::MissingVolumeControl),
        ),
{
}

/// The state of the session alone picks the course, one course for each of the
/// three states and none left over: running means pause, suspended means
/// resume, closed means leave alone. A session that was passed in is never
/// replaced by a new one, and it is resumed only if it was suspended: for a
/// session in any other state, no step of the request asks for a resume.
pub proof fn law_dispatch_is_exact<E>(state: SessionState)
    ensures
        dispatch_spec(state) == Decision::Pause <==> state == SessionState::Running,
        dispatch_spec(state) == Decision::Resume <==> state == SessionState::Suspended,
        dispatch_spec(state) == Decision::LeaveClosed <==> state == SessionState::Closed,
        dispatch_spec(state) != Decision::StartFresh,
        !dispatch_spec(state).script().contains(HostOp::CreateSession),
        dispatch_spec(state).script().contains(HostOp::ResumeSession) <==> state
            == SessionState::Suspended,
        state != SessionState::Suspended ==> forall|count: nat|
            !(#[trigger] after_completions(step_at::<E>(dispatch_spec(state), 0), count) matches Step::Perform(
                HostOp::ResumeSession,
                _,
            )),
{
    let script = dispatch_spec(state).script();
    if state == SessionState::Suspended {
        assert(script[1] == HostOp::ResumeSession);
    } else {
        assert forall|count: nat|
            !(#[trigger] after_completions(step_at::<E>(dispatch_spec(state), 0), count) matches Step::Perform(
                HostOp::ResumeSession,
                _,
            )) by {
            law_script_is_followed::<E>(dispatch_spec(state), 0, count);
        }
    }
}

/// A request that succeeds gives back two handles that exist: a handle that it
/// names as passed in was passed in, and a handle that it names as created is
/// created by an operation of its script.
pub proof fn law_result_is_populated(session: Option<SessionState>, has_volume_control: bool)
    ensures
        match decide_spec(session, has_volume_control) {
            Ok(decision) => {
                &&& decision.outcome_spec().session == Origin::Supplied ==> session is Some
                &&& decision.outcome_spec().volume_control == Origin::Supplied
                    ==> has_volume_control
                &&& decision.outcome_spec().session == Origin::Created
                    ==> decision.script().contains(HostOp::CreateSession)
                &&& decision.outcome_spec().volume_control == Origin::Created
                    ==> decision.script().contains(
                    HostOp::CreateVolumeControl { initial_gain: GAIN_FULL },
                )
            },
            Err(_) => true,
        },
{
    if session is None {
        let script = Decision::StartFresh.script();
        assert(script[0] == HostOp::CreateSession);
        assert(script[3] == HostOp::CreateVolumeControl { initial_gain: GAIN_FULL });
    }
}

/// A suspend that was scheduled stays in the queue when the session is
/// resumed. Take a running session with nothing scheduled. After two pauses
/// less than a taper apart, the first suspend stops the session; if the
/// session is resumed before the second falls due, the second stops it again,
/// although the resume gave back a running session.
pub proof fn law_stale_suspend_outlives_resume(host: HostModel, gap: nat, wait: nat)
    requires
        host.session == Some(SessionState::Running),
        host.volume is Some,
        host.suspend_due == Set::<nat>::empty(),
        0 < gap < TAPER_MS,
        TAPER_MS <= gap + wait < gap + TAPER_MS,
    ensures
        ({
            let paused_twice = host.perform_all(Decision::Pause.script()).after(gap).perform_all(
                Decision::Pause.script(),
            );
            let stopped = paused_twice.after(wait);
            let resumed = stopped.perform_all(Decision::Resume.script());
            &&& paused_twice.session == Some(SessionState::Running)
            &&& stopped.session == Some(SessionState::Suspended)
            &&& resumed.session == Some(SessionState::Running)
            &&& resumed.after(TAPER_MS as nat).session == Some(SessionState::Suspended)
        }),
{
    reveal_with_fuel(HostModel::perform_first, 3);
    let first_due: nat = host.clock + TAPER_MS as nat;
    let second_due: nat = host.clock + gap + TAPER_MS as nat;
    let paused = host.perform_all(Decision::Pause.script());
    assert(paused.suspend_due.contains(first_due));
    let later = paused.after(gap);
    assert(!paused.suspend_fires_by(paused.clock + gap)) by {
        assert forall|due: nat| paused.suspend_due.contains(due) implies due > paused.clock
            + gap by {
            assert(due == first_due);
        }
    }
    assert(later.suspend_due.contains(first_due));
    let paused_twice = later.perform_all(Decision::Pause.script());
    assert(paused_twice.suspend_due.contains(first_due));
    assert(paused_twice.suspend_due.contains(second_due));
    assert(paused_twice.suspend_fires_by(paused_twice.clock + wait));
    let stopped = paused_twice.after(wait);
    assert(stopped.suspend_due.contains(second_due));
    let resumed = stopped.perform_all(Decision::Resume.script());
    assert(resumed.suspend_due.contains(second_due));
    assert(resumed.suspend_fires_by(resumed.clock + TAPER_MS as nat));
}

/// A playback from beginning to end. The first request starts a session that
/// runs at full gain. The second finds it running and pauses it: the session
/// still runs when the request ends, and is suspended at silence once a taper
/// or more has passed. The third finds it suspended and resumes it: the
/// session runs again, reaches full gain, and stays running. After the owner
/// has closed the session, a fourth request changes nothing.
pub proof fn law_play_pause_resume_close(host: HostModel, rest: nat)
    requires
        rest >= TAPER_MS,
    ensures
        ({
            let started = host.perform_all(Decision::StartFresh.script());
            let pausing = started.perform_all(dispatch_spec(started.session->0).script());
            let paused = pausing.after(rest);
            let resuming = paused.perform_all(dispatch_spec(paused.session->0).script());
            let resumed = resuming.after(rest);
            let closed = resumed.closed();
            &&& started.session == Some(SessionState::Running)
            &&& started.volume == Some(GainModel::Steady(GAIN_FULL as int))
            &&& pausing.session == Some(SessionState::Running)
            &&& paused.session == Some(SessionState::Suspended)
            &&& paused.volume == Some(GainModel::Steady(GAIN_SILENT as int))
            &&& resuming.session == Some(SessionState::Running)
            &&& resumed.session == Some(SessionState::Running)
            &&& resumed.volume == Some(GainModel::Steady(GAIN_FULL as int))
            &&& closed.session == Some(SessionState::Closed)
            &&& closed.perform_all(dispatch_spec(closed.session->0).script()) == closed
        }),
{
    law_effect_of_fresh_start(host);
    let started = host.perform_all(Decision::StartFresh.script());
    law_effect_of_pause(started);
    let pausing = started.perform_all(Decision::Pause.script());
    let due: nat = started.clock + TAPER_MS as nat;
    assert(pausing.suspend_due.contains(due));
    assert(pausing.suspend_fires_by(pausing.clock + rest));
    let paused = pausing.after(rest);
    law_effect_of_resume(paused);
    let resuming = paused.perform_all(Decision::Resume.script());
    assert(!resuming.suspend_fires_by(resuming.clock + rest)) by {
        assert forall|other: nat| resuming.suspend_due.contains(other) implies other
            > resuming.clock + rest by {
            assert(pausing.suspend_due.contains(other));
            assert(other == due);
        }
    }
}

} // verus!
