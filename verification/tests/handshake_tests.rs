use speekium::handshake::{await_ready, is_ready_line, modes_from_config_line, startup_status_message, ReadyOutcome};
use speekium::messages::{get_daemon_message, get_tray_menu_texts, greet};

#[test]
fn ready_line_needs_success_event_and_ready_message() {
    assert!(is_ready_line("{\"event\":\"daemon_success\",\"message\":\"ready\"}"));
    assert!(is_ready_line("{\"event\":\"daemon_success\",\"message\":\"就绪\"}"));
    assert!(is_ready_line("{\"event\":\"daemon_success\",\"message\":\"all models ready now\"}"));
    assert!(!is_ready_line("{\"event\":\"daemon_success\",\"message\":\"loading\"}"));
    assert!(!is_ready_line("{\"event\":\"daemon_success\"}"));
    assert!(!is_ready_line("{\"event\":\"loading_asr\",\"message\":\"ready\"}"));
    assert!(!is_ready_line("{\"message\":\"ready\"}"));
    assert!(!is_ready_line("not json"));
}

#[test]
fn handshake_reaches_ready_within_budget() {
    let lines = vec![
        "{\"event\":\"loading_asr\"}".to_string(),
        "{\"event\":\"daemon_success\",\"message\":\"就绪\"}".to_string(),
    ];
    assert_eq!(await_ready(&lines, false), ReadyOutcome::Ready(1));
}

#[test]
fn handshake_reports_early_exit_on_eof() {
    let lines = vec!["{\"event\":\"loading_asr\"}".to_string()];
    assert_eq!(await_ready(&lines, true), ReadyOutcome::ExitedEarly);
    assert_eq!(await_ready(&lines, false), ReadyOutcome::StillWaiting);
    let empty: Vec<String> = Vec::new();
    assert_eq!(await_ready(&empty, true), ReadyOutcome::ExitedEarly);
}

#[test]
fn startup_messages_follow_events() {
    assert_eq!(
        startup_status_message("{\"event\":\"loading_asr\"}", "en").as_deref(),
        Some("Loading speech recognition model...")
    );
    assert_eq!(
        startup_status_message("{\"event\":\"daemon_success\",\"message\":\"ready\"}", "en").as_deref(),
        Some("Voice service ready")
    );
    assert_eq!(
        startup_status_message("{\"event\":\"daemon_success\",\"message\":\"checkpoint saved\"}", "en")
            .as_deref(),
        Some("checkpoint saved")
    );
    assert_eq!(
        startup_status_message("{\"event\":\"mystery\",\"message\":\"step 3\"}", "en").as_deref(),
        Some("step 3")
    );
    assert_eq!(
        startup_status_message("{\"event\":\"mystery\"}", "en").as_deref(),
        Some("Loading...")
    );
    assert_eq!(startup_status_message("{\"success\":true}", "en"), None);
    assert_eq!(startup_status_message("not json", "en"), None);
}

#[test]
fn daemon_messages_are_localized() {
    assert_eq!(get_daemon_message("ready", "en"), "Ready");
    assert_eq!(get_daemon_message("ready", "zh"), "就绪");
    assert_eq!(get_daemon_message("loading_llm", "en"), "Loading language model...");
    assert_eq!(get_daemon_message("daemon_exited", "zh"), "语音服务意外退出");
    assert_eq!(get_daemon_message("unknown_key", "en"), "unknown_key");
}

#[test]
fn tray_texts_follow_language() {
    let (show, hide, quit, tip) = get_tray_menu_texts("en");
    assert_eq!((show, hide, quit, tip), ("Show Window", "Hide Window", "Quit", "Speekium"));
    let (show, _, quit, tip) = get_tray_menu_texts("zh");
    assert_eq!(show, "显示窗口");
    assert_eq!(quit, "退出");
    assert_eq!(tip, "Speekium");
}

#[test]
fn greeting_embeds_the_name() {
    assert_eq!(greet("Ada"), "Hello, Ada! You've been greeted from Rust!");
}

#[test]
fn config_modes_are_read_two_levels_deep() {
    let line = "{\"success\":true,\"config\":{\"work_mode\":\"text-input\",\"recording_mode\":\"continuous\"}}";
    let (work, rec) = modes_from_config_line(line);
    assert_eq!(work.as_deref(), Some("text-input"));
    assert_eq!(rec.as_deref(), Some("continuous"));
    let (work, rec) = modes_from_config_line("{\"success\":true,\"config\":{}}");
    assert_eq!(work, None);
    assert_eq!(rec, None);
    let (work, _) = modes_from_config_line("{\"success\":true}");
    assert_eq!(work, None);
}
