use speekium::context::{
    AppContext, EnsureAction, ModeChangeEffect, PttPressPlan, RecordAdmission, RecordReject,
    ShortcutPlan,
};
use speekium::detector::{detect_daemon_mode, DaemonCandidate, DaemonMode};
use speekium::events::{parse_side_channel_line, OverlayPlan, SideChannelEvent};
use speekium::history::paginate;
use speekium::keys::{char_to_key_code, hotkey_config_to_shortcut_string, HotkeyConfig};
use speekium::modes::{RecordingMode, WorkMode};
use speekium::status::AppStatus;

#[test]
fn continuous_request_is_rejected_in_push_to_talk_mode() {
    let mut ctx = AppContext::new();
    assert_eq!(ctx.recording_mode, RecordingMode::PushToTalk);
    let gate = ctx.record_audio_admission("continuous");
    assert_eq!(gate, RecordAdmission::Reject(RecordReject::ModeChanged));
    assert_eq!(RecordReject::ModeChanged.message(), "Recording mode changed");
}

#[test]
fn record_gate_passes_matching_requests() {
    let mut ctx = AppContext::new();
    assert_eq!(ctx.record_audio_admission("push-to-talk"), RecordAdmission::Proceed);
    ctx.set_recording_mode("continuous").expect("valid mode");
    assert_eq!(ctx.record_audio_admission("continuous"), RecordAdmission::Proceed);
}

#[test]
fn record_gate_blocks_streaming_and_consumes_abort() {
    let mut ctx = AppContext::new();
    ctx.begin_streaming();
    assert_eq!(ctx.record_audio_admission("push-to-talk"), RecordAdmission::Reject(RecordReject::StreamingInProgress));
    ctx.end_streaming();
    ctx.recording_aborted = true;
    assert_eq!(ctx.record_audio_admission("push-to-talk"), RecordAdmission::Reject(RecordReject::Cancelled));
    assert!(!ctx.recording_aborted, "the pending abort is consumed");
    assert_eq!(ctx.record_audio_admission("push-to-talk"), RecordAdmission::Proceed);
}

#[test]
fn mode_change_sets_and_clears_abort() {
    let mut ctx = AppContext::new();
    let eff = ctx.set_recording_mode("continuous").expect("valid");
    assert_eq!(eff, ModeChangeEffect::NoWorkerAction);
    assert!(!ctx.recording_aborted);
    let eff = ctx.set_recording_mode("push-to-talk").expect("valid");
    assert_eq!(eff, ModeChangeEffect::NotifyWorkerInterrupt);
    assert!(ctx.recording_aborted, "leaving continuous aborts the running recording");
    let err = ctx.set_recording_mode("sideways").expect_err("invalid mode");
    assert_eq!(err.given, "sideways");
    assert_eq!(err.recording_message(), "Invalid recording mode: sideways");
}

#[test]
fn work_mode_round_trip() {
    let mut ctx = AppContext::new();
    assert_eq!(ctx.get_work_mode(), "conversation");
    ctx.set_work_mode("text-input").expect("valid");
    assert_eq!(ctx.get_work_mode(), "text-input");
    assert!(ctx.set_work_mode("loud").is_err());
    assert_eq!(WorkMode::from_str("conversation"), Some(WorkMode::Conversation));
    assert_eq!(RecordingMode::from_str("continuous"), Some(RecordingMode::Continuous));
    assert_eq!(RecordingMode::from_str("sometimes"), None);
}

#[test]
fn ensure_running_policy() {
    let mut ctx = AppContext::new();
    assert_eq!(ctx.ensure_daemon_running(false, false), EnsureAction::SpawnNew);
    assert_eq!(ctx.ensure_daemon_running(true, true), EnsureAction::KeepCurrent);
    assert_eq!(ctx.ensure_daemon_running(true, false), EnsureAction::ReplaceUnhealthy);
    ctx.begin_streaming();
    assert_eq!(
        ctx.ensure_daemon_running(true, false),
        EnsureAction::KeepCurrent,
        "a stream in flight skips the health check"
    );
    assert!(ctx.health_check_skipped());
}

#[test]
fn daemon_ready_flag() {
    let mut ctx = AppContext::new();
    assert!(!ctx.is_daemon_ready());
    ctx.set_daemon_ready();
    assert!(ctx.is_daemon_ready());
}

#[test]
fn streaming_health_shortcut() {
    let mut ctx = AppContext::new();
    assert!(ctx.streaming_health_result().is_none());
    ctx.begin_streaming();
    let h = ctx.streaming_health_result().expect("streaming shortcut");
    assert!(h.success);
    assert_eq!(h.status.as_deref(), Some("streaming"));
}

#[test]
fn ptt_press_filters_repeats_and_release_plans() {
    let mut ctx = AppContext::new();
    assert_eq!(ctx.ptt_press(), PttPressPlan::StartRecording);
    assert_eq!(ctx.ptt_press(), PttPressPlan::AlreadyPressed);
    let plan = ctx.ptt_release(true);
    assert!(plan.send_audio);
    assert!(plan.auto_chat, "conversation mode chats automatically");
    ctx.set_work_mode("text-input").expect("valid");
    ctx.ptt_press();
    let plan = ctx.ptt_release(false);
    assert!(!plan.send_audio);
    assert!(!plan.auto_chat);
}

#[test]
fn shortcut_plan_follows_mode_and_state() {
    let mut ctx = AppContext::new();
    assert_eq!(ctx.shortcut_update_plan(), ShortcutPlan::RegisterFromConfig);
    ctx.set_recording_mode("continuous").expect("valid");
    assert_eq!(ctx.shortcut_update_plan(), ShortcutPlan::Unregister);
    ctx.status = AppStatus::Recording;
    assert_eq!(ctx.shortcut_update_plan(), ShortcutPlan::LeaveAlone);
}

#[test]
fn modes_sync_ignores_bad_values() {
    let mut ctx = AppContext::new();
    ctx.sync_modes(&Some("text-input".to_string()), &Some("continuous".to_string()));
    assert_eq!(ctx.work_mode, WorkMode::TextInput);
    assert_eq!(ctx.recording_mode, RecordingMode::Continuous);
    ctx.sync_modes(&Some("bogus".to_string()), &None);
    assert_eq!(ctx.work_mode, WorkMode::TextInput, "unreadable values are ignored");
    assert_eq!(ctx.recording_mode, RecordingMode::Continuous);
}

#[test]
fn side_events_drive_overlay_and_guard_flag() {
    let mut ctx = AppContext::new();
    let ev = parse_side_channel_line("{\"ptt_event\":\"user_message\",\"text\":\"hi there\"}")
        .expect("recognized");
    let plan = ctx.handle_side_event(&ev);
    assert!(ctx.ptt_processing, "recognized speech raises the guard");
    assert_eq!(plan.overlay, OverlayPlan::DismissQuiet);
    assert_eq!(plan.user_message.as_deref(), Some("hi there"));
    assert_eq!(plan.main_state, Some("idle"));

    let ev = parse_side_channel_line("{\"ptt_event\":\"assistant_done\",\"content\":\"sure\"}")
        .expect("recognized");
    let plan = ctx.handle_side_event(&ev);
    assert!(!ctx.ptt_processing, "a finished reply clears the guard");
    assert_eq!(plan.assistant_done.as_deref(), Some("sure"));

    let ev = parse_side_channel_line("{\"ptt_event\":\"recording\"}").expect("recognized");
    let plan = ctx.handle_side_event(&ev);
    assert_eq!(plan.overlay, OverlayPlan::ShowState);
    assert_eq!(plan.main_state, Some("recording"));

    let ev = parse_side_channel_line("{\"ptt_event\":\"error\",\"error\":\"mic gone\"}")
        .expect("recognized");
    let plan = ctx.handle_side_event(&ev);
    assert_eq!(plan.overlay, OverlayPlan::HideIdle);
    assert_eq!(plan.error.as_deref(), Some("mic gone"));

    assert!(parse_side_channel_line("{\"event\":\"not_a_ptt_line\"}").is_none());
    assert!(parse_side_channel_line("garbage").is_none());
    assert!(matches!(
        parse_side_channel_line("{\"ptt_event\":\"brand_new\"}"),
        Some(SideChannelEvent::Unknown)
    ));
}

#[test]
fn audio_chunks_need_both_fields() {
    let mut ctx = AppContext::new();
    let ev = parse_side_channel_line(
        "{\"ptt_event\":\"audio_chunk\",\"audio_path\":\"/tmp/x.wav\",\"text\":\"hi\"}",
    )
    .expect("recognized");
    let plan = ctx.handle_side_event(&ev);
    assert_eq!(plan.audio_chunk, Some(("/tmp/x.wav".to_string(), "hi".to_string())));
    let ev = parse_side_channel_line("{\"ptt_event\":\"audio_chunk\",\"text\":\"hi\"}")
        .expect("recognized");
    let plan = ctx.handle_side_event(&ev);
    assert_eq!(plan.audio_chunk, None);
}

#[test]
fn detector_prefers_dev_scripts_in_dev_mode() {
    let dev = vec![
        DaemonCandidate { path: "a.py".to_string(), exists: false },
        DaemonCandidate { path: "b.py".to_string(), exists: true },
    ];
    let side = vec![DaemonCandidate { path: "worker".to_string(), exists: true }];
    match detect_daemon_mode(true, &dev, &side, "fallback.py".to_string()) {
        DaemonMode::Development { script_path } => assert_eq!(script_path, "b.py"),
        other => panic!("expected development mode, got {:?}", other),
    }
    match detect_daemon_mode(false, &dev, &side, "fallback.py".to_string()) {
        DaemonMode::Production { executable_path } => assert_eq!(executable_path, "worker"),
        other => panic!("expected production mode, got {:?}", other),
    }
    let nothing = vec![DaemonCandidate { path: "a.py".to_string(), exists: false }];
    match detect_daemon_mode(false, &nothing, &Vec::new(), "fallback.py".to_string()) {
        DaemonMode::Development { script_path } => assert_eq!(script_path, "fallback.py"),
        other => panic!("expected the fallback, got {:?}", other),
    }
}

#[test]
fn pagination_reports_remaining_rows() {
    let page = paginate(vec![1u8, 2, 3], 10, 1, 3);
    assert!(page.has_more);
    assert_eq!(page.total, 10);
    let page = paginate(vec![1u8], 4, 2, 3);
    assert!(!page.has_more, "rows 4..4 of 4: nothing beyond");
    let page = paginate(Vec::<u8>::new(), 0, 1, 20);
    assert!(!page.has_more);
}

#[test]
fn key_codes_for_characters() {
    assert_eq!(char_to_key_code('a'), Some(0));
    assert_eq!(char_to_key_code('Z'), Some(0));
    assert_eq!(char_to_key_code('0'), Some(29));
    assert_eq!(char_to_key_code('1'), Some(18));
    assert_eq!(char_to_key_code('9'), Some(26));
    assert_eq!(char_to_key_code(' '), Some(49));
    assert_eq!(char_to_key_code('\n'), Some(36));
    assert_eq!(char_to_key_code('?'), Some(44));
    assert_eq!(char_to_key_code('€'), None);
}

#[test]
fn hotkey_config_to_shortcut_strings() {
    let cfg = HotkeyConfig {
        key: "Digit3".to_string(),
        modifiers: vec!["CmdOrCtrl".to_string()],
    };
    assert_eq!(hotkey_config_to_shortcut_string(&cfg), "CommandOrControl+3");
    let cfg = HotkeyConfig {
        key: "KeyA".to_string(),
        modifiers: vec!["Shift".to_string(), "Option".to_string()],
    };
    assert_eq!(hotkey_config_to_shortcut_string(&cfg), "Shift+Alt+A");
    let cfg = HotkeyConfig {
        key: "F5".to_string(),
        modifiers: vec!["Hyper".to_string()],
    };
    assert_eq!(hotkey_config_to_shortcut_string(&cfg), "F5", "unknown modifiers are dropped");
    let cfg = HotkeyConfig { key: "ArrowUp".to_string(), modifiers: vec![] };
    assert_eq!(hotkey_config_to_shortcut_string(&cfg), "Up");
    let cfg = HotkeyConfig { key: "Comma".to_string(), modifiers: vec!["Ctrl".to_string()] };
    assert_eq!(hotkey_config_to_shortcut_string(&cfg), "Control+,");
}
