use handy::codex::{CodexAuth, CodexAuthError, CodexEngine};
use handy::groq::GroqEngine;

#[test]
fn parse_auth_reads_access_token_and_account_id() {
    let json = r#"{
            "tokens": {
                "access_token": "abc123",
                "account_id": "acct-xyz",
                "refresh_token": "should-ignore",
                "id_token": "should-ignore"
            }
        }"#;
    let auth = CodexEngine::parse_auth(json).unwrap();
    assert_eq!(auth.access_token, "abc123");
    assert_eq!(auth.account_id, Some("acct-xyz".to_string()));
}

#[test]
fn parse_auth_account_id_optional() {
    let json = r#"{ "tokens": { "access_token": "tok" } }"#;
    let auth = CodexEngine::parse_auth(json).unwrap();
    assert_eq!(auth.access_token, "tok");
    assert_eq!(auth.account_id, None);
}

#[test]
fn parse_auth_empty_account_id_treated_as_absent() {
    let json = r#"{ "tokens": { "access_token": "tok", "account_id": "" } }"#;
    let auth = CodexEngine::parse_auth(json).unwrap();
    assert_eq!(auth.account_id, None);
}

#[test]
fn parse_auth_missing_access_token_errors() {
    let json = r#"{ "tokens": { "account_id": "acct" } }"#;
    assert!(CodexEngine::parse_auth(json).is_err());
}

#[test]
fn parse_auth_missing_tokens_object_errors() {
    let json = r#"{ "other": {} }"#;
    assert!(CodexEngine::parse_auth(json).is_err());
}

#[test]
fn parse_auth_invalid_json_errors() {
    assert!(CodexEngine::parse_auth("not json").is_err());
}

#[test]
fn parse_auth_errors_say_what_is_missing() {
    assert_eq!(
        CodexEngine::parse_auth(r#"{ "other": {} }"#),
        Err(CodexAuthError::MissingTokens)
    );
    assert_eq!(
        CodexEngine::parse_auth(r#"{ "tokens": { "access_token": "" } }"#),
        Err(CodexAuthError::MissingAccessToken)
    );
    assert_eq!(
        CodexEngine::parse_auth(r#"{ "tokens": { "access_token": 5 } }"#),
        Err(CodexAuthError::MissingAccessToken)
    );
    assert_eq!(
        CodexEngine::parse_auth(r#"{ "tokens": "flat" }"#),
        Err(CodexAuthError::MissingAccessToken)
    );
    assert_eq!(CodexEngine::parse_auth("[1, 2]"), Err(CodexAuthError::MissingTokens));
    assert_eq!(
        CodexAuthError::<String>::MissingTokens.message(),
        "Codex auth.json missing 'tokens' object"
    );
    assert_eq!(
        CodexAuthError::<String>::MissingAccessToken.message(),
        "Codex auth.json missing tokens.access_token"
    );
    match CodexEngine::parse_auth("not json") {
        Err(e @ CodexAuthError::InvalidJson(_)) => {
            assert!(e.message().starts_with("Failed to parse Codex auth.json: "));
            assert!(e.message().len() > "Failed to parse Codex auth.json: ".len());
        }
        other => panic!("unexpected {other:?}"),
    }
}

#[test]
fn codex_request_carries_identity_account_and_language() {
    let auth = CodexAuth { access_token: "tok".to_string(), account_id: Some("acct".to_string()) };
    let req = CodexEngine::new().request(&auth, "zh-Hant");
    assert_eq!(req.url, "https://chatgpt.com/backend-api/transcribe");
    assert_eq!(req.bearer, "tok");
    assert_eq!(
        req.extra_headers,
        vec![
            "originator: codex_desktop".to_string(),
            "User-Agent: Codex Desktop/26.611.62324".to_string(),
            "ChatGPT-Account-Id: acct".to_string(),
        ]
    );
    assert_eq!(req.form_fields, vec![("language".to_string(), "zh".to_string())]);

    let anon = CodexAuth { access_token: "t2".to_string(), account_id: None };
    let req = CodexEngine::new().request(&anon, "auto");
    assert_eq!(req.extra_headers.len(), 2);
    assert!(req.form_fields.is_empty());
}

#[test]
fn groq_request_sends_model_json_and_language() {
    let engine = GroqEngine::new("whisper-large-v3-turbo".to_string(), "KEY".to_string());
    let req = engine.request("de");
    assert_eq!(req.url, "https://api.groq.com/openai/v1/audio/transcriptions");
    assert_eq!(req.bearer, "KEY");
    assert!(req.extra_headers.is_empty());
    assert_eq!(
        req.form_fields,
        vec![
            ("model".to_string(), "whisper-large-v3-turbo".to_string()),
            ("response_format".to_string(), "json".to_string()),
            ("language".to_string(), "de".to_string()),
        ]
    );
    assert_eq!(engine.request("").form_fields.len(), 2);
}

#[test]
fn refresh_and_id_tokens_never_reach_the_request() {
    let a = CodexEngine::parse_auth(
        r#"{ "tokens": { "access_token": "tok", "account_id": "acct", "refresh_token": "r1", "id_token": "i1" } }"#,
    )
    .unwrap();
    let b = CodexEngine::parse_auth(r#"{ "tokens": { "access_token": "tok", "account_id": "acct" } }"#)
        .unwrap();
    assert_eq!(a, b);
    let ra = CodexEngine::new().request(&a, "en");
    let rb = CodexEngine::new().request(&b, "en");
    assert_eq!((ra.url, ra.bearer, ra.extra_headers, ra.form_fields), (rb.url, rb.bearer, rb.extra_headers, rb.form_fields));
}
