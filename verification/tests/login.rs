use codex_core::json::{parse_json, JsonValue};
use codex_core::login::{
    credentials_load_failure_message, login_method_violation, workspace_violation, AuthMode,
    ForcedLoginMethod,
    classify_parsed_refresh_failure, classify_refresh_token_failure, error_code_of_parsed_body,
    extract_refresh_token_error_code, read_codex_api_key_from_env,
    read_non_empty_env_var, ApiKeyAuth, ExternalAuthTokens, RecoveryAction, RecoveryFacts,
    RefreshTokenFailedReason, ReloadOutcome,
    UnauthorizedRecoveryMode, UnauthorizedRecoveryState, UnauthorizedRecoveryStep,
    UnauthorizedRecoveryStepResult,
};

fn chatgpt_facts() -> RecoveryFacts {
    RecoveryFacts {
        has_external_api_key_auth: false,
        cached_is_chatgpt_auth: true,
        has_external_auth: false,
    }
}

#[test]
fn api_key_env_value_is_trimmed_and_blank_is_none() {
    assert_eq!(read_codex_api_key_from_env(None), None);
    assert_eq!(read_codex_api_key_from_env(Some("   ".to_string())), None);
    assert_eq!(
        read_codex_api_key_from_env(Some("  sk-test \n".to_string())),
        Some("sk-test".to_string())
    );
    assert_eq!(read_non_empty_env_var(Some(String::new())), None);
    assert_eq!(read_non_empty_env_var(Some(" x ".to_string())), Some("x".to_string()));
}

#[test]
fn api_key_auth_keeps_key() {
    let auth = ApiKeyAuth::new("sk-abc".to_string());
    assert_eq!(auth.api_key(), "sk-abc");
}

#[test]
fn external_tokens_metadata() {
    let plain = ExternalAuthTokens::access_token_only("tok".to_string());
    assert!(plain.chatgpt_metadata().is_none());
    let with = ExternalAuthTokens::chatgpt("tok".to_string(), "acct".to_string(), None);
    assert_eq!(with.chatgpt_metadata().map(|m| m.account_id.clone()), Some("acct".to_string()));
}

#[test]
fn managed_recovery_reloads_then_refreshes_then_ends() {
    let mut state = UnauthorizedRecoveryState::new(false, false, Some("acct-1".to_string()));
    assert_eq!(state.mode, UnauthorizedRecoveryMode::Managed);
    assert_eq!(state.step_name(), "reload");
    assert_eq!(state.mode_name(), "managed");
    let facts = chatgpt_facts();
    assert!(state.has_next(facts));
    assert_eq!(state.unavailable_reason(facts), "ready");
    assert_eq!(
        state.plan_next(facts),
        RecoveryAction::Reload {
            expected_account_id: Some("acct-1".to_string())
        }
    );
    let reloaded = state.after_reload(ReloadOutcome::ReloadedNoChange).unwrap();
    assert_eq!(reloaded.auth_state_changed(), Some(false));
    assert_eq!(state.step, UnauthorizedRecoveryStep::RefreshToken);
    assert_eq!(state.plan_next(facts), RecoveryAction::RefreshToken);
    let refreshed = state.after_refresh();
    assert_eq!(refreshed.auth_state_changed(), Some(true));
    assert_eq!(state.step_name(), "done");
    assert!(!state.has_next(facts));
    assert_eq!(state.unavailable_reason(facts), "recovery_exhausted");
    assert_eq!(state.plan_next(facts), RecoveryAction::Exhausted);
}

#[test]
fn reload_that_changed_credentials_reports_change() {
    let mut state = UnauthorizedRecoveryState::new(false, false, None);
    let r = state.after_reload(ReloadOutcome::ReloadedChanged).unwrap();
    assert_eq!(r.auth_state_changed(), Some(true));
    assert_eq!(state.step, UnauthorizedRecoveryStep::RefreshToken);
}

#[test]
fn skipped_reload_ends_with_account_mismatch() {
    let mut state = UnauthorizedRecoveryState::new(false, false, Some("acct-1".to_string()));
    let err = state.after_reload(ReloadOutcome::Skipped).unwrap_err();
    assert_eq!(
        err,
        "Your access token could not be refreshed because you have since logged out or signed in to another account. Please sign in again."
    );
    assert_eq!(state.step, UnauthorizedRecoveryStep::Done);
}

#[test]
fn external_recovery_needs_external_auth() {
    let state = UnauthorizedRecoveryState::new(false, true, None);
    assert_eq!(state.mode_name(), "external");
    assert_eq!(state.step_name(), "external_refresh");
    let facts = chatgpt_facts();
    assert!(!state.has_next(facts));
    assert_eq!(state.unavailable_reason(facts), "no_external_auth");
    let with_external = RecoveryFacts {
        has_external_auth: true,
        ..facts
    };
    assert_eq!(state.plan_next(with_external), RecoveryAction::ExternalRefresh);
}

#[test]
fn api_key_sign_in_has_no_recovery() {
    let state = UnauthorizedRecoveryState::new(false, false, None);
    let facts = RecoveryFacts {
        has_external_api_key_auth: false,
        cached_is_chatgpt_auth: false,
        has_external_auth: false,
    };
    assert!(!state.has_next(facts));
    assert_eq!(state.unavailable_reason(facts), "not_chatgpt_auth");
}

#[test]
fn external_api_key_recovery_ignores_chatgpt_state() {
    let state = UnauthorizedRecoveryState::new(true, false, None);
    let facts = RecoveryFacts {
        has_external_api_key_auth: true,
        cached_is_chatgpt_auth: false,
        has_external_auth: false,
    };
    assert!(state.has_next(facts));
    assert_eq!(state.plan_next(facts), RecoveryAction::ExternalRefresh);
}

#[test]
fn step_result_reports_change() {
    assert_eq!(UnauthorizedRecoveryStepResult::new(None).auth_state_changed(), None);
}

fn text(t: &str) -> JsonValue {
    JsonValue::Text(t.to_string())
}

fn object_body(code: Option<&str>, top: Option<&str>) -> Option<JsonValue> {
    let mut inner = vec![];
    if let Some(c) = code {
        inner.push(("code".to_string(), text(c)));
    }
    let mut fields = vec![("error".to_string(), JsonValue::Object(inner))];
    if let Some(t) = top {
        fields.push(("code".to_string(), text(t)));
    }
    Some(JsonValue::Object(fields))
}

#[test]
fn refresh_error_code_sources() {
    let body = r#"{"error":{"code":"refresh_token_expired"}}"#;
    assert_eq!(
        error_code_of_parsed_body(body, &object_body(Some("refresh_token_expired"), None)),
        Some("refresh_token_expired".to_string())
    );
    let text_body = Some(JsonValue::Object(vec![("error".to_string(), text("refresh_token_reused"))]));
    assert_eq!(
        error_code_of_parsed_body(r#"{"error":"refresh_token_reused"}"#, &text_body),
        Some("refresh_token_reused".to_string())
    );
    assert_eq!(
        error_code_of_parsed_body(r#"{"code":"x"}"#, &object_body(None, Some("x"))),
        Some("x".to_string())
    );
    assert_eq!(error_code_of_parsed_body("   ", &object_body(Some("x"), None)), None);
    assert_eq!(error_code_of_parsed_body("not json", &None), None);
}

#[test]
fn refresh_failures_are_classified_case_insensitively() {
    let expired = classify_parsed_refresh_failure("{}", &object_body(Some("REFRESH_TOKEN_EXPIRED"), None));
    assert_eq!(expired.reason, RefreshTokenFailedReason::Expired);
    assert_eq!(
        expired.message,
        "Your access token could not be refreshed because your refresh token has expired. Please log out and sign in again."
    );
    let reused = classify_parsed_refresh_failure("{}", &object_body(Some("refresh_token_reused"), None));
    assert_eq!(reused.reason, RefreshTokenFailedReason::Exhausted);
    let revoked = classify_parsed_refresh_failure("{}", &object_body(Some("refresh_token_invalidated"), None));
    assert_eq!(revoked.reason, RefreshTokenFailedReason::Revoked);
    let other = classify_parsed_refresh_failure("oops", &None);
    assert_eq!(other.reason, RefreshTokenFailedReason::Other);
    assert_eq!(
        other.message,
        "Your access token could not be refreshed. Please log out and sign in again."
    );
}

#[test]
fn refresh_error_codes_are_read_from_json_bodies() {
    assert_eq!(
        extract_refresh_token_error_code(r#"{"error":{"code":"refresh_token_expired","message":"x"}}"#),
        Some("refresh_token_expired".to_string())
    );
    assert_eq!(
        extract_refresh_token_error_code(r#"{"error":"refresh_token_reused"}"#),
        Some("refresh_token_reused".to_string())
    );
    assert_eq!(
        extract_refresh_token_error_code(r#"{"error":{"message":"x"},"code":"top"}"#),
        Some("top".to_string())
    );
    assert_eq!(extract_refresh_token_error_code(r#"{"error":42}"#), None);
    assert_eq!(extract_refresh_token_error_code(r#"["refresh_token_expired"]"#), None);
    assert_eq!(extract_refresh_token_error_code("not json"), None);
    assert_eq!(extract_refresh_token_error_code("  "), None);
}

#[test]
fn refresh_failures_are_classified_from_json_bodies() {
    let revoked = classify_refresh_token_failure(r#"{"error":{"code":"Refresh_Token_Invalidated"}}"#);
    assert_eq!(revoked.reason, RefreshTokenFailedReason::Revoked);
    assert_eq!(
        revoked.message,
        "Your access token could not be refreshed because your refresh token was revoked. Please log out and sign in again."
    );
    assert_eq!(classify_refresh_token_failure("").reason, RefreshTokenFailedReason::Other);
    assert_eq!(
        classify_refresh_token_failure(r#"{"code":"refresh_token_reused"}"#).reason,
        RefreshTokenFailedReason::Exhausted
    );
}

#[test]
fn login_restrictions() {
    use_login_restriction_checks();
}

fn use_login_restriction_checks() {
    use_method();
    use_workspace();
}

fn use_method() {
    assert_eq!(login_method_violation(ForcedLoginMethod::Api, AuthMode::ApiKey), None);
    assert_eq!(login_method_violation(ForcedLoginMethod::Chatgpt, AuthMode::ChatgptAuthTokens), None);
    assert_eq!(
        login_method_violation(ForcedLoginMethod::Api, AuthMode::Chatgpt),
        Some("API key login is required, but ChatGPT is currently being used. Logging out.".to_string())
    );
    assert_eq!(
        login_method_violation(ForcedLoginMethod::Chatgpt, AuthMode::ApiKey),
        Some("ChatGPT login is required, but an API key is currently being used. Logging out.".to_string())
    );
}

fn use_workspace() {
    let ids = vec!["ws-a".to_string(), "ws-b".to_string()];
    assert_eq!(workspace_violation(&ids, Some("ws-b")), None);
    assert_eq!(
        workspace_violation(&ids, Some("ws-c")),
        Some("Login is restricted to workspace(s) ws-a, ws-b, but current credentials belong to ws-c. Logging out.".to_string())
    );
    assert_eq!(
        workspace_violation(&ids, None),
        Some("Login is restricted to workspace(s) ws-a, ws-b, but current credentials lack a workspace identifier. Logging out.".to_string())
    );
    assert_eq!(
        credentials_load_failure_message("boom"),
        "Failed to load ChatGPT credentials while enforcing workspace restrictions: boom. Logging out."
    );
}

#[test]
fn json_bodies_parse_into_values() {
    let v = parse_json(r#"{"error":{"code":"x"},"n":1.5,"a":[true,null]}"#).expect("json");
    assert_eq!(v.get("error").and_then(|e| e.get("code")).and_then(|c| c.as_text()), Some("x"));
    assert_eq!(v.get("n"), Some(&JsonValue::Number("1.5".to_string())));
    assert_eq!(v.get("a"), Some(&JsonValue::Array(vec![JsonValue::Bool(true), JsonValue::Null])));
    assert!(v.get("missing").is_none());
    assert!(parse_json("not json").is_none());
    assert_eq!(error_code_of_parsed_body("[1]", &Some(JsonValue::Array(vec![]))), None);
}
