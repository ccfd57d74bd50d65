use codex_core::config_types::ReasoningSummary;
use codex_core::openai_models::ReasoningEffort;
use codex_core::protocol::{NonSteerableTurnKind, TurnEnvironmentSelection};
use codex_core::session::{
    check_steer_input, effective_environments, resume_model_warning, thread_settings_update,
    turn_cwd, user_input_settings_update, ActiveTask, PreviousTurnSettings, ResolvedTurnEnvironments,
    SessionSettings, SessionSettingsUpdate, SteerInputError, TaskKind, ThreadSettingsOverrides,
};
use codex_core::user_input::UserInput;
use codex_core::json::JsonValue;

fn text(t: &str) -> UserInput {
    UserInput::Text { text: t.to_string(), text_elements: vec![] }
}

fn task(id: &str, kind: TaskKind) -> ActiveTask {
    ActiveTask { sub_id: id.to_string(), kind }
}

fn no_overrides() -> ThreadSettingsOverrides {
    ThreadSettingsOverrides {
        cwd: None,
        workspace_roots: None,
        model: None,
        effort: None,
        summary: None,
        service_tier: None,
    }
}

#[test]
fn steering_needs_input() {
    let active = task("turn-1", TaskKind::Regular);
    assert_eq!(check_steer_input(vec![], Some(&active), None), Err(SteerInputError::EmptyInput));
}

#[test]
fn steering_needs_an_active_turn_and_hands_the_input_back() {
    let r = check_steer_input(vec![text("hi")], None, None);
    assert_eq!(r, Err(SteerInputError::NoActiveTurn(vec![text("hi")])));
}

#[test]
fn steering_checks_the_expected_turn() {
    let active = task("turn-1", TaskKind::Regular);
    let r = check_steer_input(vec![text("hi")], Some(&active), Some("turn-2"));
    assert_eq!(
        r,
        Err(SteerInputError::ExpectedTurnMismatch {
            expected: "turn-2".to_string(),
            actual: "turn-1".to_string(),
        })
    );
}

#[test]
fn compaction_cannot_be_steered() {
    let active = task("turn-1", TaskKind::Compact);
    let r = check_steer_input(vec![text("hi")], Some(&active), None);
    assert_eq!(
        r,
        Err(SteerInputError::ActiveTurnNotSteerable { turn_kind: NonSteerableTurnKind::Compact })
    );
}

#[test]
fn steering_returns_the_turn_id() {
    let active = task("turn-1", TaskKind::Regular);
    let r = check_steer_input(vec![text("hi")], Some(&active), None).expect("steerable");
    assert_eq!(r.0, vec![text("hi")]);
    assert_eq!(r.1, "turn-1");
    let r = check_steer_input(vec![text("hi")], Some(&active), Some("turn-1")).expect("steerable");
    assert_eq!(r.1, "turn-1");
}

#[test]
fn resuming_on_another_model_warns() {
    let previous = PreviousTurnSettings { model: "gpt-5".to_string() };
    let w = resume_model_warning(Some(&previous), "gpt-5-codex").expect("warning");
    assert_eq!(
        w.message,
        "This session was recorded with model `gpt-5` but is resuming with `gpt-5-codex`. \
Consider switching back to `gpt-5` as it may affect Codex performance."
    );
    assert!(resume_model_warning(Some(&previous), "gpt-5").is_none());
    assert!(resume_model_warning(None, "gpt-5").is_none());
}

#[test]
fn thread_overrides_carry_over_except_model_and_effort() {
    let overrides = ThreadSettingsOverrides {
        cwd: Some("/repo".to_string()),
        workspace_roots: Some(vec!["/repo".to_string()]),
        model: Some("gpt-5".to_string()),
        effort: Some(Some(ReasoningEffort::High)),
        summary: Some(ReasoningSummary::Detailed),
        service_tier: Some(None),
    };
    assert!(!overrides.is_empty());
    let update = thread_settings_update(overrides);
    assert_eq!(update.cwd.as_deref(), Some("/repo"));
    assert_eq!(update.workspace_roots, Some(vec!["/repo".to_string()]));
    assert_eq!(update.reasoning_summary, Some(ReasoningSummary::Detailed));
    assert_eq!(update.service_tier, Some(None));
    assert_eq!(update.environments, None);
}

#[test]
fn user_input_without_overrides_only_sets_environments() {
    let envs = vec![TurnEnvironmentSelection { cwd: "/work".to_string() }];
    assert!(no_overrides().is_empty());
    let (update, emit) = user_input_settings_update(no_overrides(), Some(envs.clone()), None);
    assert!(!emit);
    let mut expected = SessionSettingsUpdate::default();
    expected.environments = Some(envs);
    expected.final_output_json_schema = Some(None);
    assert_eq!(update, expected);
}

#[test]
fn user_input_with_overrides_announces_them() {
    let mut overrides = no_overrides();
    overrides.model = Some("gpt-5".to_string());
    let (update, emit) = user_input_settings_update(overrides, None, None);
    assert!(emit);
    let mut expected = SessionSettingsUpdate::default();
    expected.final_output_json_schema = Some(None);
    assert_eq!(update, expected);
}

#[test]
fn user_input_carries_its_output_schema() {
    let schema = JsonValue::Object(vec![("type".to_string(), JsonValue::Text("object".to_string()))]);
    let (update, emit) = user_input_settings_update(no_overrides(), None, Some(schema));
    assert!(!emit);
    assert_eq!(
        update.final_output_json_schema,
        Some(Some(JsonValue::Object(vec![("type".to_string(), JsonValue::Text("object".to_string()))])))
    );
    assert_eq!(update.environments, None);
}

fn settings() -> SessionSettings {
    SessionSettings {
        model_reasoning_summary: None,
        service_tier: None,
        cwd: "/repo".to_string(),
        workspace_roots: vec!["/repo".to_string(), "/shared".to_string()],
        app_server_client_name: None,
        app_server_client_version: None,
    }
}

#[test]
fn moving_the_cwd_retargets_workspace_roots() {
    let next = settings().apply(&SessionSettingsUpdate::default(), Some("/other".to_string()));
    assert_eq!(next.cwd, "/other");
    assert_eq!(next.workspace_roots, vec!["/other".to_string(), "/shared".to_string()]);
    let merged = settings().apply(&SessionSettingsUpdate::default(), Some("/shared".to_string()));
    assert_eq!(merged.workspace_roots, vec!["/shared".to_string()]);
    let mut explicit = SessionSettingsUpdate::default();
    explicit.workspace_roots = Some(vec!["/x".to_string()]);
    let next = settings().apply(&explicit, Some("/other".to_string()));
    assert_eq!(next.workspace_roots, vec!["/x".to_string()]);
}

#[test]
fn roots_stay_when_cwd_is_not_a_root() {
    let mut s = settings();
    s.workspace_roots = vec!["/shared".to_string()];
    let next = s.apply(&SessionSettingsUpdate::default(), Some("/other".to_string()));
    assert_eq!(next.workspace_roots, vec!["/shared".to_string()]);
    let same = settings().apply(&SessionSettingsUpdate::default(), None);
    assert_eq!(same, settings());
}

#[test]
fn settings_update_tier_summary_and_client() {
    let mut update = SessionSettingsUpdate::default();
    update.service_tier = Some(Some("fast".to_string()));
    update.reasoning_summary = Some(ReasoningSummary::Concise);
    update.app_server_client_name = Some("vscode".to_string());
    let next = settings().apply(&update, None);
    assert_eq!(next.service_tier.as_deref(), Some("priority"));
    assert_eq!(next.model_reasoning_summary, Some(ReasoningSummary::Concise));
    assert_eq!(next.app_server_client_name.as_deref(), Some("vscode"));
    assert_eq!(next.app_server_client_version, None);
    update.service_tier = Some(None);
    assert_eq!(settings().apply(&update, None).service_tier.as_deref(), Some("default"));
}

#[test]
fn turn_environments_follow_the_session_cwd() {
    let session = vec![
        TurnEnvironmentSelection { cwd: "/old".to_string() },
        TurnEnvironmentSelection { cwd: "/b".to_string() },
    ];
    let envs = effective_environments(None, &session, "/new");
    assert_eq!(
        envs,
        vec![
            TurnEnvironmentSelection { cwd: "/new".to_string() },
            TurnEnvironmentSelection { cwd: "/b".to_string() },
        ]
    );
    let chosen = vec![TurnEnvironmentSelection { cwd: "/c".to_string() }];
    assert_eq!(effective_environments(Some(chosen.clone()), &session, "/new"), chosen);
    let resolved = ResolvedTurnEnvironments::from_selections(envs);
    assert_eq!(turn_cwd(&resolved, "/session"), "/new");
    let empty = ResolvedTurnEnvironments::from_selections(vec![]);
    assert_eq!(turn_cwd(&empty, "/session"), "/session");
}
