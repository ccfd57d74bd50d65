use codex_core::protocol::{CodexErrorInfo, ErrorEvent, ThreadId};
use codex_core::token_usage::{TokenUsage, TokenUsageInfo};

#[test]
fn generic_error_affects_turn_status() {
    let event = ErrorEvent {
        message: "generic".into(),
        codex_error_info: Some(CodexErrorInfo::Other),
    };
    assert!(event.affects_turn_status());
}

#[test]
fn token_usage_info_new_or_append_updates_context_window_when_provided() {
    let initial = Some(TokenUsageInfo {
        total_token_usage: TokenUsage::default(),
        last_token_usage: TokenUsage::default(),
        model_context_window: Some(258_400),
    });
    let last = Some(TokenUsage {
        input_tokens: 10,
        cached_input_tokens: 0,
        output_tokens: 0,
        reasoning_output_tokens: 0,
        total_tokens: 10,
    });

    let info = TokenUsageInfo::new_or_append(&initial, &last, Some(128_000))
        .expect("new_or_append should return info");

    assert_eq!(info.model_context_window, Some(128_000));
}

#[test]
fn token_usage_info_new_or_append_preserves_context_window_when_not_provided() {
    let initial = Some(TokenUsageInfo {
        total_token_usage: TokenUsage::default(),
        last_token_usage: TokenUsage::default(),
        model_context_window: Some(258_400),
    });
    let last = Some(TokenUsage {
        input_tokens: 10,
        cached_input_tokens: 0,
        output_tokens: 0,
        reasoning_output_tokens: 0,
        total_tokens: 10,
    });

    let info = TokenUsageInfo::new_or_append(&initial, &last, None)
        .expect("new_or_append should return info");

    assert_eq!(info.model_context_window, Some(258_400));
}

#[test]
fn thread_id_reads_canonical_uuid() {
    let id = ThreadId::from_string("00000000-0000-0000-0000-000000000123").expect("valid id");
    assert_eq!(id.as_string(), "00000000-0000-0000-0000-000000000123");
    let upper = ThreadId::from_string("6FA459EA-EE8A-3CA4-894E-DB77E160355E").expect("valid id");
    assert_eq!(upper.as_string(), "6fa459ea-ee8a-3ca4-894e-db77e160355e");
}

#[test]
fn thread_id_rejects_non_uuid() {
    assert_eq!(
        ThreadId::from_string("not-a-uuid"),
        Err("invalid thread id: not-a-uuid".to_string())
    );
}

#[test]
fn token_usage_accumulates_across_appends() {
    let mut info = TokenUsageInfo {
        total_token_usage: TokenUsage::default(),
        last_token_usage: TokenUsage::default(),
        model_context_window: None,
    };
    let usage = TokenUsage {
        input_tokens: 10,
        cached_input_tokens: 2,
        output_tokens: 5,
        reasoning_output_tokens: 1,
        total_tokens: 15,
    };
    info.append_last_usage(&usage);
    info.append_last_usage(&usage);
    assert_eq!(info.total_token_usage.total_tokens, 30);
    assert_eq!(info.total_token_usage.input_tokens, 20);
    assert_eq!(info.last_token_usage, usage);
}

#[test]
fn new_thread_ids_are_canonical_and_distinct() {
    let a = ThreadId::new();
    let b = ThreadId::new();
    assert!(!a.same_as(&b));
    let text = a.as_string();
    assert_eq!(text.len(), 36);
    assert_eq!(text, text.to_lowercase());
    let back = ThreadId::from_string(&text).unwrap();
    assert!(back.same_as(&a));
}
