use wasm_audio_player::controller::{
    Decision, HostOp, Origin, Outcome, PlayError, UsageError,
};
use wasm_audio_player::driver::{begin, observed, Pending, Step};
use wasm_audio_player::session::SessionState;

const SUPPLIED: Outcome = Outcome { session: Origin::Supplied, volume_control: Origin::Supplied };
const CREATED: Outcome = Outcome { session: Origin::Created, volume_control: Origin::Created };

/// Walks a request whose operations all complete, and returns the operations
/// in the order in which they were asked for, with the last step.
fn walk(first: Step<&'static str>) -> (Vec<HostOp>, Step<&'static str>) {
    let mut asked = Vec::new();
    let mut step = first;
    loop {
        match step {
            Step::Perform(op, pending) => {
                asked.push(op);
                step = pending.completed();
            }
            _ => return (asked, step),
        }
    }
}

#[test]
fn fresh_start_walks_its_script() {
    let first: Step<&'static str> = begin(false, false);
    assert_eq!(
        first,
        Step::Perform(
            HostOp::CreateSession,
            Pending { decision: Decision::StartFresh, position: 0 }
        )
    );
    let (asked, last) = walk(first);
    assert_eq!(asked, Decision::StartFresh.operations());
    assert_eq!(last, Step::Finish(CREATED));
}

#[test]
fn fresh_start_ignores_a_stray_volume_control() {
    let (asked, last) = walk(begin(false, true));
    assert_eq!(asked, Decision::StartFresh.operations());
    assert_eq!(last, Step::Finish(CREATED));
}

#[test]
fn session_alone_fails_before_anything_is_asked() {
    let first: Step<&'static str> = begin(true, false);
    assert_eq!(first, Step::Fail(PlayError::Usage(UsageError::MissingVolumeControl)));
}

#[test]
fn session_with_volume_control_asks_for_the_state() {
    let first: Step<&'static str> = begin(true, true);
    assert_eq!(first, Step::ObserveState);
}

#[test]
fn running_session_walks_the_pause_script() {
    let (asked, last) = walk(observed(SessionState::Running));
    assert_eq!(
        asked,
        vec![
            HostOp::RampGain { target: 0, duration_ms: 200 },
            HostOp::ScheduleSuspend { delay_ms: 200 },
        ]
    );
    assert_eq!(last, Step::Finish(SUPPLIED));
}

#[test]
fn suspended_session_walks_the_resume_script() {
    let (asked, last) = walk(observed(SessionState::Suspended));
    assert_eq!(
        asked,
        vec![HostOp::RampGain { target: 1000, duration_ms: 200 }, HostOp::ResumeSession]
    );
    assert_eq!(last, Step::Finish(SUPPLIED));
}

#[test]
fn resume_finishes_only_after_the_session_has_resumed() {
    let first: Step<&'static str> = observed(SessionState::Suspended);
    let pending = match first {
        Step::Perform(HostOp::RampGain { target: 1000, duration_ms: 200 }, pending) => pending,
        other => panic!("{:?}", other),
    };
    let second: Step<&'static str> = pending.completed();
    assert_eq!(
        second,
        Step::Perform(HostOp::ResumeSession, Pending { decision: Decision::Resume, position: 1 })
    );
    let third: Step<&'static str> = Pending { decision: Decision::Resume, position: 1 }.completed();
    assert_eq!(third, Step::Finish(SUPPLIED));
}

#[test]
fn closed_session_finishes_at_once() {
    let first: Step<&'static str> = observed(SessionState::Closed);
    assert_eq!(first, Step::Finish(SUPPLIED));
}

#[test]
fn failure_ends_the_request_at_every_position() {
    for decision in [Decision::StartFresh, Decision::Pause, Decision::Resume] {
        let ops = decision.operations();
        for position in 0..ops.len() {
            let step = Pending { decision, position }.failed("host says no");
            let expected = if ops[position] == HostOp::DecodePayload {
                PlayError::Decode("host says no")
            } else {
                PlayError::Environment("host says no")
            };
            assert_eq!(step, Step::Fail(expected));
        }
    }
}

#[test]
fn failed_decode_keeps_the_hosts_error() {
    let step = Pending { decision: Decision::StartFresh, position: 1 }.failed(String::from("EncodingError"));
    assert_eq!(step, Step::Fail(PlayError::Decode(String::from("EncodingError"))));
}

#[test]
fn failure_past_the_script_is_the_environments() {
    let step = Pending { decision: Decision::LeaveClosed, position: 0 }.failed(3u8);
    assert_eq!(step, Step::Fail(PlayError::Environment(3u8)));
    let step = Pending { decision: Decision::Pause, position: usize::MAX }.failed(3u8);
    assert_eq!(step, Step::Fail(PlayError::Environment(3u8)));
}

#[test]
fn completion_past_the_script_finishes() {
    let step: Step<u8> = Pending { decision: Decision::Pause, position: 5 }.completed();
    assert_eq!(step, Step::Finish(SUPPLIED));
    let step: Step<u8> = Pending { decision: Decision::StartFresh, position: usize::MAX }.completed();
    assert_eq!(step, Step::Finish(CREATED));
}
