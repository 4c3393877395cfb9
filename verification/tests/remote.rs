use handy::remote::{
    build_curl_config, curl_path_arg, temp_wav_file_name, cancel_active_requests, cancellation_generation, classify_response,
    is_retryable_http_status, normalize_language, split_response, was_cancelled_since,
    CancelGeneration, Verdict,
};

#[test]
fn normalize_language_auto_and_empty_are_none() {
    assert_eq!(normalize_language("auto"), None);
    assert_eq!(normalize_language(""), None);
}

#[test]
fn normalize_language_chinese_variants_collapse_to_zh() {
    assert_eq!(normalize_language("zh-Hans"), Some("zh".to_string()));
    assert_eq!(normalize_language("zh-Hant"), Some("zh".to_string()));
}

#[test]
fn normalize_language_passes_through_other_codes() {
    assert_eq!(normalize_language("en"), Some("en".to_string()));
    assert_eq!(normalize_language("ru"), Some("ru".to_string()));
}

#[test]
fn normalize_language_is_idempotent_and_case_sensitive() {
    assert_eq!(normalize_language("zh"), Some("zh".to_string()));
    assert_eq!(normalize_language("Auto"), Some("Auto".to_string()));
    assert_eq!(normalize_language("zh-hans"), Some("zh-hans".to_string()));
}

#[test]
fn split_response_separates_body_and_status() {
    let (body, code) = split_response("{\"text\":\"hi\"}\n200");
    assert_eq!(body, "{\"text\":\"hi\"}");
    assert_eq!(code, "200");
}

#[test]
fn split_response_handles_multiline_body_and_crlf() {
    let (body, code) = split_response("{\n  \"text\": \"hi\"\n}\r\n403\r\n");
    assert_eq!(body, "{\n  \"text\": \"hi\"\n}");
    assert_eq!(code, "403");
}

#[test]
fn split_response_without_newline_is_all_status() {
    assert_eq!(split_response("  000 \r\n"), ("", "000"));
    assert_eq!(split_response(""), ("", ""));
    assert_eq!(split_response("\n\n"), ("", ""));
}

#[test]
fn split_response_trims_unicode_whitespace() {
    let (body, code) = split_response("body \u{3000}\n\u{a0}502\t");
    assert_eq!(body, "body");
    assert_eq!(code, "502");
}

#[test]
fn build_curl_config_includes_auth_headers_form_and_timeouts() {
    let cfg = build_curl_config(
        "https://api.example.com/transcribe",
        "TOK",
        &["originator: codex_desktop".to_string()],
        &[("model".to_string(), "whisper-large-v3".to_string())],
        "C:/tmp/handy.wav",
    );
    assert!(cfg.contains("url = \"https://api.example.com/transcribe\""));
    assert!(cfg.contains("header = \"Authorization: Bearer TOK\""));
    assert!(cfg.contains("header = \"originator: codex_desktop\""));
    assert!(cfg.contains("form = \"file=@C:/tmp/handy.wav;type=audio/wav;filename=handy.wav\""));
    assert!(cfg.contains("form = \"model=whisper-large-v3\""));
    assert!(cfg.contains("connect-timeout = 5"));
    assert!(cfg.contains("max-time = 45"));
}

#[test]
fn build_curl_config_is_exactly_one_option_per_line() {
    let cfg = build_curl_config(
        "U",
        "B",
        &["A: 1".to_string(), "C: 2".to_string()],
        &[("x".to_string(), "y".to_string()), ("language".to_string(), "en".to_string())],
        "W",
    );
    let expected = "url = \"U\"\n\
request = \"POST\"\n\
header = \"Authorization: Bearer B\"\n\
header = \"A: 1\"\n\
header = \"C: 2\"\n\
form = \"file=@W;type=audio/wav;filename=handy.wav\"\n\
form = \"x=y\"\n\
form = \"language=en\"\n\
http1.1\n\
silent\n\
show-error\n\
connect-timeout = 5\n\
max-time = 45\n\
write-out = \"\\n%{http_code}\"\n";
    assert_eq!(cfg, expected);
}

#[test]
fn retryable_http_statuses_are_classified() {
    for status in ["408", "425", "429", "500", "502", "503", "504"] {
        assert!(is_retryable_http_status(status), "status {status}");
    }
    for status in ["200", "400", "401", "403", "404"] {
        assert!(!is_retryable_http_status(status), "status {status}");
    }
}

#[test]
fn retryable_status_follows_u16_parsing() {
    assert!(is_retryable_http_status("599"));
    assert!(is_retryable_http_status("+503"));
    assert!(is_retryable_http_status("000503"));
    assert!(!is_retryable_http_status("600"));
    assert!(!is_retryable_http_status("499"));
    assert!(!is_retryable_http_status(""));
    assert!(!is_retryable_http_status("-503"));
    assert!(!is_retryable_http_status(" 503"));
    assert!(!is_retryable_http_status("5O3"));
    assert!(!is_retryable_http_status("000"));
    assert!(!is_retryable_http_status("65536"));
}

#[test]
fn cancellation_reaches_requests_started_before_it() {
    let mut state = CancelGeneration::new();
    let before = cancellation_generation(&state);
    assert!(!was_cancelled_since(&state, before));
    cancel_active_requests(&mut state);
    assert!(was_cancelled_since(&state, before));
    let after = cancellation_generation(&state);
    assert_eq!(after, before + 1);
    assert!(!was_cancelled_since(&state, after));
}

fn verdict_text(v: Verdict<String>) -> (&'static str, String) {
    match v {
        Verdict::Body(s) => ("body", s),
        Verdict::Retryable(s) => ("retryable", s),
        Verdict::Fatal(s) => ("fatal", s),
    }
}

#[test]
fn classify_response_hands_on_ok_bodies() {
    assert_eq!(
        verdict_text(classify_response("{\"text\":\"hi\"}\n200", "", 0)),
        ("body", "{\"text\":\"hi\"}".to_string())
    );
}

#[test]
fn classify_response_retries_transient_statuses() {
    assert_eq!(
        verdict_text(classify_response("busy\n503", "", 0)),
        ("retryable", "Transcription request failed: HTTP 503 - busy".to_string())
    );
}

#[test]
fn classify_response_is_fatal_on_client_errors() {
    let long_body = "x".repeat(400);
    let (kind, msg) = verdict_text(classify_response(&format!("{long_body}\n403"), "", 0));
    assert_eq!(kind, "fatal");
    assert_eq!(msg, format!("Transcription request failed: HTTP 403 - {}", "x".repeat(300)));
}

#[test]
fn classify_response_retries_missing_status_only_within_connect_window() {
    let secs = 1_000_000_000u64;
    assert_eq!(
        verdict_text(classify_response("", "  curl: (7) refused \n", 10 * secs)),
        (
            "retryable",
            "Transcription request failed: HTTP (no status) - curl: (7) refused".to_string()
        )
    );
    assert_eq!(
        verdict_text(classify_response("\n000", "timeout", 10 * secs + 1)),
        ("fatal", "Transcription request failed: HTTP 000 - timeout".to_string())
    );
}

#[test]
fn temp_wav_paths_are_unique_and_use_forward_slashes() {
    assert_eq!(temp_wav_file_name(4242, 0), "handy-remote-4242-0.wav");
    assert_eq!(temp_wav_file_name(1, 23), "handy-remote-1-23.wav");
    assert_ne!(temp_wav_file_name(12, 3), temp_wav_file_name(1, 23));
    assert_eq!(
        curl_path_arg("C:\\Users\\me\\AppData\\Local\\Temp\\handy-remote-1-0.wav"),
        "C:/Users/me/AppData/Local/Temp/handy-remote-1-0.wav"
    );
    assert_eq!(curl_path_arg("/tmp/ü.wav"), "/tmp/ü.wav");
}
