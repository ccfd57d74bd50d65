use codex_core::additional_context::render_fragment;
use codex_core::context::{
    is_standard_contextual_user_text, EnvironmentContext, EnvironmentContextEnvironment,
    TurnAborted,
};
use codex_core::features::{
    feature_edit, feature_specs, FeatureConfigSource, FeatureEdit, FeatureOverrides, Features,
    FeaturesToml,
};
use codex_core::models::{ContentItem, ResponseInputItem};
use codex_core::openai_models::ReasoningEffort;
use codex_core::protocol::{AdditionalContextEntry, AdditionalContextKind};
use codex_core::rollout_list::AnchorState;
use codex_core::stream_events::sanitize_file_name_part;

#[test]
fn effort_names_parse_back() {
    for e in [
        ReasoningEffort::NoReasoning,
        ReasoningEffort::Minimal,
        ReasoningEffort::Low,
        ReasoningEffort::Medium,
        ReasoningEffort::High,
        ReasoningEffort::XHigh,
    ] {
        assert_eq!(ReasoningEffort::parse(e.as_str()), Ok(e));
    }
}

#[test]
fn context_the_agent_writes_is_recognized_as_context() {
    let env = EnvironmentContext::new(
        vec![
            EnvironmentContextEnvironment { cwd: "/a".to_string(), shell: "zsh".to_string() },
            EnvironmentContextEnvironment { cwd: "/b".to_string(), shell: "bash".to_string() },
        ],
        Some("2025-01-01".to_string()),
        Some("UTC".to_string()),
    );
    assert!(is_standard_contextual_user_text(&env.render()));
    assert!(is_standard_contextual_user_text(&TurnAborted.render()));
    let entry = AdditionalContextEntry {
        value: "selected text".to_string(),
        kind: AdditionalContextKind::Untrusted,
    };
    match render_fragment("selection", &entry) {
        ResponseInputItem::Message { role, content } => {
            assert_eq!(role, "user");
            match &content[0] {
                ContentItem::InputText { text } => assert!(is_standard_contextual_user_text(text)),
                other => panic!("unexpected content {other:?}"),
            }
        }
        other => panic!("unexpected item {other:?}"),
    }
}

#[test]
fn sanitizing_twice_changes_nothing() {
    for s in ["", "abc", "a/b c", "é-x_y", "generated image"] {
        let once = sanitize_file_name_part(s);
        assert_eq!(sanitize_file_name_part(&once), once);
    }
}

#[test]
fn feature_edits_take_effect_when_resolved() {
    for spec in feature_specs() {
        for enabled in [false, true] {
            let mut entries = vec![(spec.key.to_string(), !enabled)];
            match feature_edit(spec.key, enabled) {
                FeatureEdit::SetPath { value, .. } => entries.push((spec.key.to_string(), value)),
                FeatureEdit::ClearPath { .. } => entries.clear(),
            }
            let table = FeaturesToml::from_entries(entries);
            let resolved = Features::from_sources(
                FeatureConfigSource { features: Some(&table) },
                FeatureOverrides::default(),
            );
            assert_eq!(resolved.enabled(spec.id), enabled, "{} {enabled}", spec.key);
        }
    }
}

#[test]
fn resumed_listing_skips_only_leading_newer_files() {
    let mut anchor = AnchorState::new(Some(100));
    let times = [150, 100, 99, 120, 80];
    let skipped: Vec<bool> = times.iter().map(|&t| anchor.should_skip(t)).collect();
    assert_eq!(skipped, vec![true, true, false, false, false]);
}
