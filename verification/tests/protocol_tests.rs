use speekium::protocol::{classify_line, scan_for_response, LineClass, LlmStreamStep, ResponseScan, TtsStreamStep};
use speekium::protocol::{llm_stream_step, tts_stream_step};
use speekium::request::{encode_request, record_request_args, ArgValue, RequestArg};
use speekium::results::{health_reply_ok, ChatResult, ConfigResult, HealthResult, RecordResult, TTSResult};
use speekium::strutil::parse_u64;

#[test]
fn classify_log_response_and_noise() {
    assert_eq!(classify_line("{\"event\":\"loading_asr\"}"), LineClass::Log);
    assert_eq!(classify_line("{\"success\":true}"), LineClass::Response);
    assert_eq!(classify_line("not json at all"), LineClass::Malformed);
    assert_eq!(classify_line("42"), LineClass::Response);
}

#[test]
fn scan_returns_first_non_event_line() {
    let lines = vec![
        "{\"event\":\"loading_asr\"}".to_string(),
        "{\"event\":\"asr_loaded\"}".to_string(),
        "{\"success\":true,\"text\":\"hi\"}".to_string(),
        "{\"success\":false}".to_string(),
    ];
    assert_eq!(scan_for_response(&lines), ResponseScan::Response(2));
}

#[test]
fn inserting_log_lines_never_changes_the_response() {
    let response = "{\"success\":true,\"text\":\"hello\"}".to_string();
    let mut lines = vec![response.clone()];
    for n in 0..5 {
        match scan_for_response(&lines) {
            ResponseScan::Response(i) => assert_eq!(lines[i], response),
            other => panic!("expected a response, got {:?} with {} log lines", other, n),
        }
        lines.insert(0, format!("{{\"event\":\"noise_{}\"}}", n));
    }
}

#[test]
fn scan_reports_malformed_and_empty() {
    let lines = vec![
        "{\"event\":\"x\"}".to_string(),
        "garbage".to_string(),
    ];
    assert_eq!(scan_for_response(&lines), ResponseScan::Malformed(1));
    let none: Vec<String> = vec!["{\"event\":\"x\"}".to_string()];
    assert_eq!(scan_for_response(&none), ResponseScan::NoResponse);
    let empty: Vec<String> = Vec::new();
    assert_eq!(scan_for_response(&empty), ResponseScan::NoResponse);
}

#[test]
fn encode_request_is_valid_json() {
    let args = vec![
        RequestArg { key: "text".to_string(), value: ArgValue::Text("hello \"world\"\n".to_string()) },
        RequestArg { key: "count".to_string(), value: ArgValue::Unsigned(42) },
        RequestArg { key: "auto_play".to_string(), value: ArgValue::Flag(true) },
    ];
    let bytes = encode_request("chat_tts_stream", &args);
    assert!(!bytes.contains(&b'\n'), "an encoded request must be a single line");
    let text = String::from_utf8(bytes).expect("utf-8");
    let v: serde_json::Value = serde_json::from_str(&text).expect("parseable");
    assert_eq!(v.get("command").and_then(|c| c.as_str()), Some("chat_tts_stream"));
    let a = v.get("args").expect("args object");
    assert_eq!(a.get("text").and_then(|t| t.as_str()), Some("hello \"world\"\n"));
    assert_eq!(a.get("count").and_then(|c| c.as_u64()), Some(42));
    assert_eq!(a.get("auto_play").and_then(|b| b.as_bool()), Some(true));
}

#[test]
fn encode_request_exact_bytes() {
    let args = vec![RequestArg { key: "priority".to_string(), value: ArgValue::Unsigned(1) }];
    let bytes = encode_request("interrupt", &args);
    assert_eq!(
        String::from_utf8(bytes).unwrap(),
        "{\"command\":\"interrupt\",\"args\":{\"priority\":1}}"
    );
    let none: Vec<RequestArg> = Vec::new();
    assert_eq!(
        String::from_utf8(encode_request("health", &none)).unwrap(),
        "{\"command\":\"health\",\"args\":{}}"
    );
}

#[test]
fn encode_request_escapes_controls() {
    let args = vec![RequestArg {
        key: "text".to_string(),
        value: ArgValue::Text("a\\b\t\r\u{1}z".to_string()),
    }];
    let text = String::from_utf8(encode_request("chat", &args)).unwrap();
    assert!(text.contains("a\\\\b\\t\\r\\u0001z"));
    let v: serde_json::Value = serde_json::from_str(&text).unwrap();
    assert_eq!(
        v.get("args").unwrap().get("text").unwrap().as_str(),
        Some("a\\b\t\r\u{1}z")
    );
}

#[test]
fn record_args_handle_duration_forms() {
    let args = record_request_args("continuous", &Some("auto".to_string()));
    assert_eq!(args[1].value, ArgValue::Unsigned(3));
    let args = record_request_args("continuous", &Some("7".to_string()));
    assert_eq!(args[1].value, ArgValue::Unsigned(7));
    let args = record_request_args("continuous", &Some("bogus".to_string()));
    assert_eq!(args[1].value, ArgValue::Unsigned(3));
    let args = record_request_args("push-to-talk", &None);
    assert_eq!(args.len(), 2);
    match &args[0].value {
        ArgValue::Text(m) => assert_eq!(m, "push-to-talk"),
        other => panic!("expected text mode, got {:?}", other),
    }
    assert_eq!(args[1].value, ArgValue::Unsigned(3));
}

#[test]
fn parse_u64_accepts_digit_runs_only() {
    assert_eq!(parse_u64("0"), Some(0));
    assert_eq!(parse_u64("12345"), Some(12345));
    assert_eq!(parse_u64(""), None);
    assert_eq!(parse_u64("12a"), None);
    assert_eq!(parse_u64("-3"), None);
    assert_eq!(parse_u64("9999999999999999999"), Some(9_999_999_999_999_999_999));
    assert_eq!(parse_u64("99999999999999999999"), None);
}

#[test]
fn record_result_decoding() {
    let r = RecordResult::from_line("{\"success\":true,\"text\":\"hi\",\"language\":\"en\"}")
        .expect("decodes");
    assert!(r.success);
    assert_eq!(r.text.as_deref(), Some("hi"));
    assert_eq!(r.language.as_deref(), Some("en"));
    assert_eq!(r.error, None);
    assert!(RecordResult::from_line("{\"text\":\"hi\"}").is_none());
    assert!(RecordResult::from_line("garbage").is_none());
}

#[test]
fn chat_and_tts_decoding() {
    let c = ChatResult::from_line("{\"success\":true,\"content\":\"sure\"}").unwrap();
    assert!(c.success);
    assert_eq!(c.content.as_deref(), Some("sure"));
    let t = TTSResult::from_line("{\"success\":false,\"error\":\"no voice\"}").unwrap();
    assert!(!t.success);
    assert_eq!(t.audio_path, None);
    assert_eq!(t.error.as_deref(), Some("no voice"));
}

#[test]
fn config_decoding_carries_raw_config() {
    let c = ConfigResult::from_line(
        "{\"success\":true,\"config\":{\"work_mode\":\"conversation\",\"n\":1}}",
    )
    .unwrap();
    assert!(c.success);
    let raw = c.config.expect("raw config text");
    let v: serde_json::Value = serde_json::from_str(&raw).expect("raw text is JSON");
    assert_eq!(v.get("work_mode").and_then(|m| m.as_str()), Some("conversation"));
    assert_eq!(v.get("n").and_then(|n| n.as_u64()), Some(1));
}

#[test]
fn health_decoding_and_check() {
    let h = HealthResult::from_line(
        "{\"success\":true,\"status\":\"ok\",\"command_count\":17,\"models_loaded\":{\"asr\":true}}",
    )
    .unwrap();
    assert!(h.success);
    assert_eq!(h.status.as_deref(), Some("ok"));
    assert_eq!(h.command_count, Some(17));
    assert!(h.models_loaded.unwrap().contains("asr"));
    assert!(health_reply_ok("{\"success\":true}"));
    assert!(!health_reply_ok("{\"success\":false}"));
    assert!(!health_reply_ok("{\"status\":\"ok\"}"));
    assert!(!health_reply_ok("not json"));
}

#[test]
fn llm_stream_steps() {
    assert!(matches!(llm_stream_step("{\"event\":\"x\"}"), LlmStreamStep::SkipEvent));
    match llm_stream_step("{\"type\":\"chunk\",\"content\":\"He\"}") {
        LlmStreamStep::Chunk(Some(c)) => assert_eq!(c, "He"),
        other => panic!("expected chunk, got {:?}", other),
    }
    assert!(matches!(llm_stream_step("{\"type\":\"done\"}"), LlmStreamStep::Done));
    match llm_stream_step("{\"type\":\"error\",\"error\":\"boom\"}") {
        LlmStreamStep::Fail(Some(e)) => assert_eq!(e, "boom"),
        other => panic!("expected failure, got {:?}", other),
    }
    assert!(matches!(llm_stream_step("not json"), LlmStreamStep::Ignore));
    assert!(matches!(llm_stream_step("{\"success\":true}"), LlmStreamStep::Ignore));
}

#[test]
fn tts_stream_steps() {
    match tts_stream_step("{\"type\":\"text_chunk\",\"content\":\"Hi\"}") {
        TtsStreamStep::TextChunk(Some(c)) => assert_eq!(c, "Hi"),
        other => panic!("expected text chunk, got {:?}", other),
    }
    match tts_stream_step("{\"type\":\"audio_chunk\",\"audio_path\":\"/tmp/a.wav\",\"text\":\"Hi\"}") {
        TtsStreamStep::AudioChunk { audio_path: Some(p), text: Some(t) } => {
            assert_eq!(p, "/tmp/a.wav");
            assert_eq!(t, "Hi");
        },
        other => panic!("expected audio chunk, got {:?}", other),
    }
    assert!(matches!(tts_stream_step("{\"type\":\"done\"}"), TtsStreamStep::Done));
    assert!(matches!(tts_stream_step("{\"event\":\"noise\"}"), TtsStreamStep::SkipEvent));
}

#[test]
fn whole_writes_split_cleanly() {
    let r1 = encode_request("health", &Vec::new());
    let args = vec![RequestArg { key: "text".to_string(), value: ArgValue::Text("a\nb".to_string()) }];
    let r2 = encode_request("chat", &args);
    let mut stream = r1.clone();
    stream.push(b'\n');
    stream.extend_from_slice(&r2);
    stream.push(b'\n');
    let pos = stream.iter().position(|&b| b == b'\n').expect("terminator present");
    assert_eq!(&stream[..pos], &r1[..], "the reader takes the first write exactly");
    assert_eq!(&stream[pos + 1..stream.len() - 1], &r2[..], "the second write is untouched");
    let first: serde_json::Value = serde_json::from_slice(&stream[..pos]).expect("first line parses");
    assert_eq!(first.get("command").and_then(|c| c.as_str()), Some("health"));
    let second: serde_json::Value =
        serde_json::from_slice(&stream[pos + 1..stream.len() - 1]).expect("second line parses");
    assert_eq!(
        second.get("args").and_then(|a| a.get("text")).and_then(|t| t.as_str()),
        Some("a\nb")
    );
}
