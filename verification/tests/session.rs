use codex_core::config_types::{ReasoningSummary, ServiceTier, SERVICE_TIER_DEFAULT_REQUEST_VALUE};
use codex_core::context::{
    format_subagent_notification_message, EnvironmentContext, EnvironmentContextEnvironment,
    EnvironmentContextEnvironments,
};
use codex_core::features::{normalize_candidate, Feature, Features};
use codex_core::models::{ContentItem, ResponseInputItem, ResponseItem};
use codex_core::rollout::InitialHistory;
use codex_core::user_input::UserInput;
use codex_core::openai_models::{
    default_input_modalities, ConfigShellToolType, ModelInfo, ModelMessages, ModelServiceTier,
    ModelVisibility, ReasoningEffort, ReasoningEffortPreset, TruncationPolicyConfig, WebSearchToolType,
};
use codex_core::protocol::{
    AgentStatus, CodexErrorInfo, NonSteerableTurnKind, TurnContextItem, TurnEnvironmentSelection,
};
use codex_core::rollout::{RolloutEvent, RolloutItem};
use codex_core::session::{
    build_environment_update_item, build_initial_context_items, build_settings_update_items, effective_reasoning_effort,
    full_token_info, get_service_tier, last_token_info_from_rollout, model_context_window,
    model_instructions_from_info, model_switch_instructions, recomputed_token_info,
    reasoning_effort_for_model, session_base_instructions, session_dynamic_tools, turn_input, TurnInput,
    PreviousTurnSettings, ResolvedTurnEnvironments, SteerInputError,
    TurnEnvironment,
};
use codex_core::token_usage::{TokenUsage, TokenUsageInfo};

fn model(slug: &str) -> ModelInfo {
    ModelInfo {
        slug: slug.to_string(),
        display_name: slug.to_string(),
        description: None,
        default_reasoning_level: Some(ReasoningEffort::Medium),
        supported_reasoning_levels: vec![],
        shell_type: ConfigShellToolType::ShellCommand,
        visibility: ModelVisibility::List,
        supported_in_api: true,
        priority: 1,
        additional_speed_tiers: Vec::new(),
        service_tiers: vec![ModelServiceTier {
            id: ServiceTier::Fast.request_value().to_string(),
            name: "Fast".to_string(),
            description: "Priority processing.".to_string(),
        }],
        default_service_tier: None,
        availability_nux: None,
        upgrade: None,
        base_instructions: "base".to_string(),
        model_messages: None,
        supports_reasoning_summaries: true,
        default_reasoning_summary: ReasoningSummary::Auto,
        support_verbosity: false,
        default_verbosity: None,
        web_search_tool_type: WebSearchToolType::Text,
        truncation_policy: TruncationPolicyConfig::bytes(10_000),
        supports_parallel_tool_calls: false,
        supports_image_detail_original: false,
        context_window: Some(272_000),
        max_context_window: None,
        auto_compact_token_limit: None,
        effective_context_window_percent: 95,
        experimental_supported_tools: vec![],
        input_modalities: default_input_modalities(),
        used_fallback_model_metadata: false,
        supports_search_tool: false,
    }
}

fn usage(total: i64) -> TokenUsage {
    TokenUsage {
        input_tokens: 1,
        cached_input_tokens: 2,
        output_tokens: 3,
        reasoning_output_tokens: 4,
        total_tokens: total,
    }
}

#[test]
fn steer_errors_become_error_events() {
    let no_turn = SteerInputError::NoActiveTurn(vec![]).to_error_event();
    assert_eq!(no_turn.message, "no active turn to steer");
    assert_eq!(no_turn.codex_error_info, Some(CodexErrorInfo::BadRequest));
    let mismatch = SteerInputError::ExpectedTurnMismatch {
        expected: "t1".to_string(),
        actual: "t2".to_string(),
    }
    .to_error_event();
    assert_eq!(mismatch.message, "expected active turn id `t1` but found `t2`");
    let compact = SteerInputError::ActiveTurnNotSteerable {
        turn_kind: NonSteerableTurnKind::Compact,
    }
    .to_error_event();
    assert_eq!(compact.message, "cannot steer a compact turn");
    assert_eq!(
        compact.codex_error_info,
        Some(CodexErrorInfo::ActiveTurnNotSteerable {
            turn_kind: NonSteerableTurnKind::Compact
        })
    );
    assert!(!compact.affects_turn_status());
    assert_eq!(SteerInputError::EmptyInput.to_error_event().message, "input must not be empty");
}

#[test]
fn service_tier_is_kept_only_when_offered() {
    let m = model("gpt");
    let fast = ServiceTier::Fast.request_value().to_string();
    assert_eq!(get_service_tier(Some(fast.clone()), &m), Some(fast));
    assert_eq!(
        get_service_tier(Some(SERVICE_TIER_DEFAULT_REQUEST_VALUE.to_string()), &m),
        Some(SERVICE_TIER_DEFAULT_REQUEST_VALUE.to_string())
    );
    assert_eq!(get_service_tier(Some("turbo".to_string()), &m), None);
    assert_eq!(get_service_tier(None, &m), None);
}

#[test]
fn reasoning_effort_and_window() {
    let mut m = model("gpt");
    assert_eq!(effective_reasoning_effort(&m, Some(ReasoningEffort::High)), Some(ReasoningEffort::High));
    assert_eq!(effective_reasoning_effort(&m, None), Some(ReasoningEffort::Medium));
    assert_eq!(model_context_window(&m), Some(258_400));
    m.supports_reasoning_summaries = false;
    assert_eq!(effective_reasoning_effort(&m, Some(ReasoningEffort::High)), None);
    m.context_window = None;
    assert_eq!(model_context_window(&m), None);
    m.max_context_window = Some(i64::MAX);
    assert_eq!(model_context_window(&m), Some(i64::MAX / 100));
    m.max_context_window = Some(-1001);
    m.effective_context_window_percent = 10;
    assert_eq!(model_context_window(&m), Some(-100));
}

#[test]
fn last_token_info_is_the_latest_count() {
    let first = TokenUsageInfo {
        total_token_usage: usage(10),
        last_token_usage: usage(10),
        model_context_window: None,
    };
    let second = TokenUsageInfo {
        total_token_usage: usage(30),
        last_token_usage: usage(20),
        model_context_window: Some(100),
    };
    let items = vec![
        RolloutItem::EventMsg(RolloutEvent::TokenCount { info: Some(first) }),
        RolloutItem::EventMsg(RolloutEvent::TokenCount { info: Some(second) }),
        RolloutItem::EventMsg(RolloutEvent::TokenCount { info: None }),
        RolloutItem::EventMsg(RolloutEvent::Other),
    ];
    assert_eq!(last_token_info_from_rollout(&items), Some(second));
    assert_eq!(last_token_info_from_rollout(&vec![]), None);
}

#[test]
fn recomputing_and_filling_token_info() {
    let info = TokenUsageInfo {
        total_token_usage: usage(500),
        last_token_usage: usage(50),
        model_context_window: Some(1000),
    };
    let re = recomputed_token_info(Some(info), 700, None);
    assert_eq!(re.total_token_usage, usage(500));
    assert_eq!(re.last_token_usage, TokenUsage { total_tokens: 700, ..TokenUsage::default() });
    assert_eq!(re.model_context_window, Some(1000));
    let fresh = recomputed_token_info(None, -5, Some(2000));
    assert_eq!(fresh.last_token_usage.total_tokens, 0);
    assert_eq!(fresh.model_context_window, Some(2000));
    let full = full_token_info(Some(info), Some(900), 500);
    assert_eq!(full.total_token_usage, usage(900));
    assert_eq!(full.last_token_usage, usage(900));
    let from_total = full_token_info(None, None, 321);
    assert_eq!(from_total.total_token_usage.total_tokens, 321);
    assert_eq!(from_total.model_context_window, None);
}

#[test]
fn model_switch_instructions_need_a_new_model_with_its_own() {
    let mut m = model("next");
    assert_eq!(model_instructions_from_info(&m), None);
    m.model_messages = Some(ModelMessages {
        instructions_template: Some("  ".to_string()),
        instructions_variables: None,
    });
    assert_eq!(model_instructions_from_info(&m), None);
    m.model_messages = Some(ModelMessages {
        instructions_template: Some("Be brief.".to_string()),
        instructions_variables: None,
    });
    assert_eq!(model_instructions_from_info(&m), Some("Be brief.".to_string()));
    let other = PreviousTurnSettings { model: "prev".to_string() };
    let same = PreviousTurnSettings { model: "next".to_string() };
    assert_eq!(model_switch_instructions(Some(&other), &m), Some("Be brief.".to_string()));
    assert_eq!(model_switch_instructions(Some(&same), &m), None);
    assert_eq!(model_switch_instructions(None, &m), None);
}

fn turn_item(cwd: &str) -> TurnContextItem {
    TurnContextItem {
        turn_id: None,
        cwd: cwd.to_string(),
        current_date: Some("2025-01-01".to_string()),
        timezone: None,
        model: "m".to_string(),
        effort: None,
        summary: ReasoningSummary::Auto,
    }
}

fn context(cwd: &str, shell: &str) -> EnvironmentContext {
    EnvironmentContext::new(
        vec![EnvironmentContextEnvironment {
            cwd: cwd.to_string(),
            shell: shell.to_string(),
        }],
        Some("2025-01-01".to_string()),
        None,
    )
}

#[test]
fn environment_updates_only_for_real_changes() {
    let prev = turn_item("/repo");
    assert_eq!(build_environment_update_item(true, Some(&prev), &context("/repo", "zsh"), "bash"), None);
    assert_eq!(build_environment_update_item(false, Some(&prev), &context("/other", "zsh"), "bash"), None);
    assert_eq!(build_environment_update_item(true, None, &context("/other", "zsh"), "bash"), None);
    let update = build_environment_update_item(true, Some(&prev), &context("/other", "zsh"), "bash");
    assert_eq!(
        update,
        Some(ResponseItem::Message {
            id: None,
            role: "user".to_string(),
            content: vec![ContentItem::InputText {
                text: "<environment_context>\n  <cwd>/other</cwd>\n  <shell>zsh</shell>\n  <current_date>2025-01-01</current_date>\n</environment_context>".to_string(),
            }],
            phase: None,
        })
    );
}

#[test]
fn settings_updates_put_developer_message_first() {
    let prev = turn_item("/repo");
    let items = build_settings_update_items(
        Some("switch".to_string()),
        true,
        Some(&prev),
        &context("/other", "zsh"),
        "bash",
    );
    assert_eq!(items.len(), 2);
    assert!(matches!(&items[0], ResponseItem::Message { role, .. } if role == "developer"));
    assert!(matches!(&items[1], ResponseItem::Message { role, .. } if role == "user"));
    assert!(build_settings_update_items(None, true, Some(&prev), &context("/repo", "sh"), "bash").is_empty());
}

#[test]
fn turn_environments_round_trip_selections() {
    let selections = vec![
        TurnEnvironmentSelection { cwd: "/a".to_string() },
        TurnEnvironmentSelection { cwd: "/b".to_string() },
    ];
    let resolved = ResolvedTurnEnvironments::from_selections(selections.clone());
    assert_eq!(resolved.turn_environments.len(), 2);
    assert_eq!(resolved.turn_environments[0].shell, None);
    assert_eq!(resolved.primary().map(|e| e.cwd.clone()), Some("/a".to_string()));
    assert_eq!(resolved.to_selections(), selections);
    let empty = ResolvedTurnEnvironments::from_selections(vec![]);
    assert!(empty.primary().is_none());
    assert!(empty.to_selections().is_empty());
}

#[test]
fn turn_environments_describe_with_session_shell() {
    let envs = vec![
        TurnEnvironment { cwd: "/a".to_string(), shell: None },
        TurnEnvironment { cwd: "/b".to_string(), shell: Some("fish".to_string()) },
    ];
    let described = EnvironmentContextEnvironment::from_turn_environments(&envs, "bash");
    assert_eq!(described[0].shell, "bash");
    assert_eq!(described[1].shell, "fish");
    let ctx = EnvironmentContext::from_turn_environments(&envs, "bash", None, Some("UTC".to_string()));
    assert!(matches!(ctx.environments, EnvironmentContextEnvironments::Multiple(ref v) if v.len() == 2));
    assert_eq!(ctx.timezone, Some("UTC".to_string()));
}

#[test]
fn subagent_notifications_are_json() {
    assert_eq!(
        format_subagent_notification_message("agent-1", &AgentStatus::Running),
        r#"<subagent_notification>{"agent_id":"agent-1","status":"running"}</subagent_notification>"#
    );
    assert_eq!(
        format_subagent_notification_message("a\"b", &AgentStatus::Completed(None)),
        r#"<subagent_notification>{"agent_id":"a\"b","status":"completed"}</subagent_notification>"#
    );
    assert_eq!(
        format_subagent_notification_message("x", &AgentStatus::NotFound),
        r#"<subagent_notification>{"agent_id":"x","status":"not_found"}</subagent_notification>"#
    );
}

#[test]
fn pinned_features_override_candidate() {
    let candidate = Features::with_defaults();
    let pinned = vec![(Feature::ShellSnapshot, false), (Feature::RuntimeMetrics, true)];
    let normalized = normalize_candidate(candidate, &pinned);
    assert!(!normalized.enabled(Feature::ShellSnapshot));
    assert!(normalized.enabled(Feature::RuntimeMetrics));
    assert_eq!(normalize_candidate(candidate, &vec![]), candidate);
}

#[test]
fn fallback_metadata_warns() {
    let mut m = model("mystery");
    assert_eq!(codex_core::session::unknown_model_warning(&m), None);
    m.used_fallback_model_metadata = true;
    assert_eq!(
        codex_core::session::unknown_model_warning(&m).map(|w| w.message),
        Some("Model metadata for `mystery` not found. Defaulting to fallback metadata; this can degrade performance and cause issues.".to_string())
    );
}

#[test]
fn stored_thread_titles() {
    use_title_checks();
}

fn use_title_checks() {
    let title = codex_core::session::thread_title_from_stored;
    assert_eq!(title(&Some("  Fix build ".to_string()), "first message"), Some("Fix build".to_string()));
    assert_eq!(title(&Some("Fix build".to_string()), " Fix build "), None);
    assert_eq!(title(&Some("   ".to_string()), "x"), None);
    assert_eq!(title(&None, "x"), None);
}

#[test]
fn internal_turn_ids_count_up() {
    assert_eq!(codex_core::session::internal_sub_id(0), "auto-compact-0");
    assert_eq!(codex_core::session::internal_sub_id(42), "auto-compact-42");
}

#[test]
fn turn_context_items_record_settings() {
    let m = model("gpt");
    let item = codex_core::session::turn_context_item(
        "turn-1".to_string(),
        "/repo".to_string(),
        Some("2025-01-01".to_string()),
        Some("UTC".to_string()),
        &m,
        Some(ReasoningEffort::High),
    );
    assert_eq!(
        item,
        TurnContextItem {
            turn_id: Some("turn-1".to_string()),
            cwd: "/repo".to_string(),
            current_date: Some("2025-01-01".to_string()),
            timezone: Some("UTC".to_string()),
            model: "gpt".to_string(),
            effort: Some(ReasoningEffort::High),
            summary: ReasoningSummary::Auto,
        }
    );
}

fn preset(effort: ReasoningEffort) -> ReasoningEffortPreset {
    ReasoningEffortPreset { effort, description: String::new() }
}

#[test]
fn switching_models_keeps_or_recenters_the_effort() {
    let mut m = model("gpt-5");
    m.supported_reasoning_levels = vec![
        preset(ReasoningEffort::Low),
        preset(ReasoningEffort::Medium),
        preset(ReasoningEffort::High),
        preset(ReasoningEffort::XHigh),
    ];
    assert_eq!(reasoning_effort_for_model(&m, Some(ReasoningEffort::High)), Some(ReasoningEffort::High));
    assert_eq!(reasoning_effort_for_model(&m, Some(ReasoningEffort::Minimal)), Some(ReasoningEffort::Medium));
    assert_eq!(reasoning_effort_for_model(&m, None), Some(ReasoningEffort::Medium));
    let mut bare = model("plain");
    bare.default_reasoning_level = Some(ReasoningEffort::Low);
    assert_eq!(reasoning_effort_for_model(&bare, Some(ReasoningEffort::High)), Some(ReasoningEffort::Low));
}

fn message_texts(item: &ResponseItem) -> (String, Vec<String>) {
    match item {
        ResponseItem::Message { role, content, .. } => (
            role.clone(),
            content
                .iter()
                .map(|c| match c {
                    ContentItem::InputText { text } => text.clone(),
                    _ => String::new(),
                })
                .collect(),
        ),
        _ => (String::new(), vec![]),
    }
}

#[test]
fn initial_context_has_developer_then_environment() {
    let ctx = context("/repo", "zsh");
    let items = build_initial_context_items(Some("switch".to_string()), Some("be brief"), true, &ctx);
    assert_eq!(items.len(), 2);
    assert_eq!(message_texts(&items[0]), ("developer".to_string(), vec!["switch".to_string(), "be brief".to_string()]));
    assert_eq!(message_texts(&items[1]), ("user".to_string(), vec![ctx.render()]));
    let only_env = build_initial_context_items(None, Some(""), true, &ctx);
    assert_eq!(only_env.len(), 1);
    assert_eq!(message_texts(&only_env[0]).0, "user");
    assert!(build_initial_context_items(None, None, false, &ctx).is_empty());
}

#[test]
fn turn_input_puts_context_before_user_input() {
    let ctx = ResponseInputItem::Message { role: "developer".to_string(), content: vec![] };
    let user = vec![UserInput::Text { text: "hi".to_string(), text_elements: vec![] }];
    let r = turn_input(vec![ctx.clone()], user.clone());
    assert_eq!(r, vec![TurnInput::ResponseInputItem(ctx.clone()), TurnInput::UserInput(user)]);
    assert_eq!(turn_input(vec![ctx.clone()], vec![]), vec![TurnInput::ResponseInputItem(ctx)]);
}

#[test]
fn new_sessions_pick_instructions_and_tools() {
    let m = model("gpt-5");
    assert_eq!(session_base_instructions(Some("mine".to_string()), &InitialHistory::New, &m), "mine");
    assert_eq!(session_base_instructions(None, &InitialHistory::New, &m), "base");
    assert!(session_dynamic_tools(vec![], &InitialHistory::New).is_empty());
}

#[test]
fn subagent_references_escape_control_characters() {
    let m = format_subagent_notification_message("a\nb\u{1}", &AgentStatus::Running);
    assert!(m.contains(r#""agent_id":"a\nb\u0001""#));
}
