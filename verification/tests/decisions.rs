use wasm_audio_player::controller::{
    decide, dispatch, Decision, HostOp, Origin, Outcome, PlayError, UsageError,
};
use wasm_audio_player::session::SessionState;
use wasm_audio_player::taper::{GAIN_FULL, GAIN_SILENT, TAPER_MS};

#[test]
fn no_session_starts_afresh() {
    assert_eq!(decide(None, false), Ok(Decision::StartFresh));
    assert_eq!(decide(None, true), Ok(Decision::StartFresh));
}

#[test]
fn running_session_is_paused() {
    assert_eq!(decide(Some(SessionState::Running), true), Ok(Decision::Pause));
    assert_eq!(dispatch(SessionState::Running), Decision::Pause);
}

#[test]
fn suspended_session_is_resumed() {
    assert_eq!(decide(Some(SessionState::Suspended), true), Ok(Decision::Resume));
    assert_eq!(dispatch(SessionState::Suspended), Decision::Resume);
}

#[test]
fn closed_session_is_left_alone() {
    assert_eq!(decide(Some(SessionState::Closed), true), Ok(Decision::LeaveClosed));
    assert_eq!(dispatch(SessionState::Closed), Decision::LeaveClosed);
}

#[test]
fn session_without_volume_control_is_rejected_in_every_state() {
    for state in [SessionState::Suspended, SessionState::Running, SessionState::Closed] {
        assert_eq!(decide(Some(state), false), Err(UsageError::MissingVolumeControl));
    }
}

#[test]
fn usage_error_message() {
    assert_eq!(UsageError::MissingVolumeControl.message(), "no gain node");
}

#[test]
fn constants_of_the_taper() {
    assert_eq!(TAPER_MS, 200);
    assert_eq!(GAIN_FULL, 1000);
    assert_eq!(GAIN_SILENT, 0);
}

#[test]
fn script_of_a_fresh_start() {
    assert_eq!(
        Decision::StartFresh.operations(),
        vec![
            HostOp::CreateSession,
            HostOp::DecodePayload,
            HostOp::CreateSource,
            HostOp::CreateVolumeControl { initial_gain: 1000 },
            HostOp::ConnectVolumeControlToOutput,
            HostOp::ConnectSourceToVolumeControl,
            HostOp::StartSource,
        ]
    );
}

#[test]
fn script_of_a_pause() {
    assert_eq!(
        Decision::Pause.operations(),
        vec![
            HostOp::RampGain { target: 0, duration_ms: 200 },
            HostOp::ScheduleSuspend { delay_ms: 200 },
        ]
    );
}

#[test]
fn script_of_a_resume() {
    assert_eq!(
        Decision::Resume.operations(),
        vec![HostOp::RampGain { target: 1000, duration_ms: 200 }, HostOp::ResumeSession]
    );
}

#[test]
fn script_of_a_closed_session_is_empty() {
    assert_eq!(Decision::LeaveClosed.operations(), Vec::<HostOp>::new());
}

#[test]
fn operation_by_position() {
    assert_eq!(Decision::StartFresh.operation(0), Some(HostOp::CreateSession));
    assert_eq!(Decision::StartFresh.operation(6), Some(HostOp::StartSource));
    assert_eq!(Decision::StartFresh.operation(7), None);
    assert_eq!(Decision::Pause.operation(1), Some(HostOp::ScheduleSuspend { delay_ms: 200 }));
    assert_eq!(Decision::Pause.operation(2), None);
    assert_eq!(Decision::Resume.operation(1), Some(HostOp::ResumeSession));
    assert_eq!(Decision::Resume.operation(usize::MAX), None);
    assert_eq!(Decision::LeaveClosed.operation(0), None);
}

#[test]
fn only_a_resume_resumes_and_only_a_fresh_start_creates() {
    for decision in [Decision::StartFresh, Decision::LeaveClosed, Decision::Pause, Decision::Resume] {
        let ops = decision.operations();
        assert_eq!(ops.contains(&HostOp::ResumeSession), decision == Decision::Resume);
        assert_eq!(ops.contains(&HostOp::CreateSession), decision == Decision::StartFresh);
    }
}

#[test]
fn outcome_of_each_course() {
    let created = Outcome { session: Origin::Created, volume_control: Origin::Created };
    let supplied = Outcome { session: Origin::Supplied, volume_control: Origin::Supplied };
    assert_eq!(Decision::StartFresh.outcome(), created);
    assert_eq!(Decision::LeaveClosed.outcome(), supplied);
    assert_eq!(Decision::Pause.outcome(), supplied);
    assert_eq!(Decision::Resume.outcome(), supplied);
}

#[test]
fn failed_decode_is_a_decode_error() {
    assert_eq!(HostOp::DecodePayload.failure("bad data"), PlayError::Decode("bad data"));
}

#[test]
fn other_failures_are_the_environments() {
    let others = [
        HostOp::CreateSession,
        HostOp::CreateSource,
        HostOp::CreateVolumeControl { initial_gain: 1000 },
        HostOp::ConnectVolumeControlToOutput,
        HostOp::ConnectSourceToVolumeControl,
        HostOp::StartSource,
        HostOp::RampGain { target: 0, duration_ms: 200 },
        HostOp::ScheduleSuspend { delay_ms: 200 },
        HostOp::ResumeSession,
    ];
    for op in others {
        assert_eq!(op.failure(17u32), PlayError::Environment(17u32));
    }
}
