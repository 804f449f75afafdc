use speekium::context::{AppContext, InterruptAction};
use speekium::status::AppStatus;

fn all_statuses() -> Vec<AppStatus> {
    vec![
        AppStatus::Idle,
        AppStatus::Listening,
        AppStatus::Recording,
        AppStatus::AsrProcessing,
        AppStatus::LlmProcessing,
        AppStatus::TtsProcessing,
        AppStatus::Playing,
    ]
}

fn allowed(from: AppStatus, to: AppStatus) -> bool {
    if from == to {
        return true;
    }
    matches!(
        (from, to),
        (AppStatus::Idle, AppStatus::Listening)
            | (AppStatus::Idle, AppStatus::Recording)
            | (AppStatus::Listening, AppStatus::Recording)
            | (AppStatus::Listening, AppStatus::Idle)
            | (AppStatus::Recording, AppStatus::AsrProcessing)
            | (AppStatus::Recording, AppStatus::Idle)
            | (AppStatus::AsrProcessing, AppStatus::Idle)
            | (AppStatus::AsrProcessing, AppStatus::LlmProcessing)
            | (AppStatus::LlmProcessing, AppStatus::TtsProcessing)
            | (AppStatus::LlmProcessing, AppStatus::Idle)
            | (AppStatus::TtsProcessing, AppStatus::Playing)
            | (AppStatus::TtsProcessing, AppStatus::Idle)
            | (AppStatus::Playing, AppStatus::Idle)
            | (AppStatus::Playing, AppStatus::Listening)
    )
}

#[test]
fn transition_table_is_complete() {
    for &from in &all_statuses() {
        for &to in &all_statuses() {
            let mut ctx = AppContext::new();
            ctx.status = from;
            let r = ctx.transition_status(to);
            if allowed(from, to) {
                assert!(r.is_ok(), "{:?} -> {:?} should be legal", from, to);
                assert_eq!(ctx.status, to);
            } else {
                let e = r.expect_err("transition should be rejected");
                assert_eq!(e.from, from);
                assert_eq!(e.to, to);
                assert_eq!(ctx.status, from, "rejected transition must not change state");
            }
        }
    }
}

#[test]
fn priority_one_interrupts_everything() {
    for &s in &all_statuses() {
        let mut ctx = AppContext::new();
        ctx.status = s;
        let g = ctx.interrupt_operation(1).expect("priority 1 must succeed");
        assert_eq!(g.previous, s);
        assert_eq!(ctx.status, AppStatus::Idle);
    }
}

#[test]
fn priority_two_interrupts_only_recording_and_listening() {
    for &s in &all_statuses() {
        let mut ctx = AppContext::new();
        ctx.status = s;
        let r = ctx.interrupt_operation(2);
        if s == AppStatus::Recording || s == AppStatus::Listening {
            assert!(r.is_ok());
        } else {
            let d = r.expect_err("priority 2 must be denied");
            assert_eq!(d.status, s);
            assert_eq!(d.priority, 2);
            assert_eq!(ctx.status, s);
        }
    }
}

#[test]
fn priority_three_fails_only_for_recording() {
    for &s in &all_statuses() {
        let mut ctx = AppContext::new();
        ctx.status = s;
        let r = ctx.interrupt_operation(3);
        if s == AppStatus::Recording {
            assert!(r.is_err());
            assert_eq!(ctx.status, AppStatus::Recording);
        } else {
            assert!(r.is_ok());
            assert_eq!(ctx.status, s, "priority 3 must not force a state change");
        }
    }
}

#[test]
fn interrupting_recording_sets_abort_flag() {
    let mut ctx = AppContext::new();
    ctx.status = AppStatus::Recording;
    assert!(!ctx.recording_aborted);
    let g = ctx.interrupt_operation(2).expect("recording accepts priority 2");
    assert_eq!(g.action, InterruptAction::AbortRecording);
    assert_eq!(ctx.status, AppStatus::Idle);
    assert!(ctx.recording_aborted);
}

#[test]
fn interrupting_generation_notifies_worker() {
    for s in [AppStatus::LlmProcessing, AppStatus::TtsProcessing, AppStatus::Playing] {
        let mut ctx = AppContext::new();
        ctx.status = s;
        let g = ctx.interrupt_operation(1).expect("priority 1 must succeed");
        assert_eq!(g.action, InterruptAction::NotifyWorker);
    }
}

#[test]
fn invalid_priority_is_denied() {
    let mut ctx = AppContext::new();
    assert!(ctx.interrupt_operation(0).is_err());
    assert!(ctx.interrupt_operation(4).is_err());
}

#[test]
fn status_strings_round_trip() {
    for &s in &all_statuses() {
        assert_eq!(AppStatus::from_str(s.as_str()), Some(s));
    }
    assert_eq!(AppStatus::from_str("nonsense"), None);
    assert_eq!(AppStatus::Idle.as_str(), "idle");
    assert_eq!(AppStatus::AsrProcessing.as_str(), "asr");
}

#[test]
fn can_be_interrupted_matches_policy() {
    assert!(AppStatus::Playing.can_be_interrupted(1));
    assert!(AppStatus::Recording.can_be_interrupted(2));
    assert!(AppStatus::Listening.can_be_interrupted(2));
    assert!(!AppStatus::Playing.can_be_interrupted(2));
    assert!(!AppStatus::Recording.can_be_interrupted(3));
    assert!(AppStatus::Idle.can_be_interrupted(3));
    assert!(!AppStatus::Idle.can_be_interrupted(9));
}
