use codex_core::config_types::ReasoningSummary;
use codex_core::models_manager::{
    apply_remote_models, default_model_from_available, find_model_by_longest_prefix,
    find_model_by_namespaced_suffix, on_new_etag, refresh_plan, select_model_candidate,
    split_namespaced_model, EtagAction, RefreshPlan, RefreshStrategy,
};
use codex_core::openai_models::{
    default_input_modalities, ConfigShellToolType, ModelInfo, ModelPreset, ModelVisibility,
    TruncationPolicyConfig, WebSearchToolType,
};

fn model(slug: &str) -> ModelInfo {
    ModelInfo {
        slug: slug.to_string(),
        display_name: slug.to_string(),
        description: None,
        default_reasoning_level: None,
        supported_reasoning_levels: vec![],
        shell_type: ConfigShellToolType::ShellCommand,
        visibility: ModelVisibility::Hide,
        supported_in_api: true,
        priority: 1,
        additional_speed_tiers: Vec::new(),
        service_tiers: Vec::new(),
        default_service_tier: None,
        availability_nux: None,
        upgrade: None,
        base_instructions: "base".to_string(),
        model_messages: None,
        supports_reasoning_summaries: false,
        default_reasoning_summary: ReasoningSummary::Auto,
        support_verbosity: false,
        default_verbosity: None,
        web_search_tool_type: WebSearchToolType::Text,
        truncation_policy: TruncationPolicyConfig::bytes(10_000),
        supports_parallel_tool_calls: false,
        supports_image_detail_original: false,
        context_window: None,
        max_context_window: None,
        auto_compact_token_limit: None,
        effective_context_window_percent: 95,
        experimental_supported_tools: vec![],
        input_modalities: default_input_modalities(),
        used_fallback_model_metadata: false,
        supports_search_tool: false,
    }
}

fn preset(name: &str, is_default: bool) -> ModelPreset {
    let mut p = ModelPreset::from(model(name));
    p.is_default = is_default;
    p
}

#[test]
fn refresh_strategy_names() {
    assert_eq!(RefreshStrategy::Online.as_str(), "online");
    assert_eq!(RefreshStrategy::Offline.as_str(), "offline");
    assert_eq!(RefreshStrategy::OnlineIfUncached.as_str(), "online_if_uncached");
}

#[test]
fn refresh_plans() {
    assert_eq!(refresh_plan(RefreshStrategy::Online, false), RefreshPlan::Nothing);
    assert_eq!(refresh_plan(RefreshStrategy::Offline, false), RefreshPlan::LoadCache);
    assert_eq!(
        refresh_plan(RefreshStrategy::OnlineIfUncached, false),
        RefreshPlan::LoadCache
    );
    assert_eq!(refresh_plan(RefreshStrategy::Offline, true), RefreshPlan::LoadCache);
    assert_eq!(
        refresh_plan(RefreshStrategy::OnlineIfUncached, true),
        RefreshPlan::LoadCacheElseFetch
    );
    assert_eq!(refresh_plan(RefreshStrategy::Online, true), RefreshPlan::Fetch);
}

#[test]
fn etag_decisions() {
    assert_eq!(on_new_etag(Some("a"), "a"), EtagAction::RenewCacheTtl);
    assert_eq!(
        on_new_etag(Some("a"), "b"),
        EtagAction::Refresh(RefreshStrategy::Online)
    );
    assert_eq!(on_new_etag(None, "a"), EtagAction::Refresh(RefreshStrategy::Online));
}

#[test]
fn default_model_prefers_marked_default() {
    assert_eq!(
        default_model_from_available(&vec![preset("a", false), preset("b", true)]),
        "b"
    );
    assert_eq!(
        default_model_from_available(&vec![preset("a", false), preset("b", false)]),
        "a"
    );
    assert_eq!(default_model_from_available(&vec![]), "");
}

#[test]
fn longest_prefix_wins() {
    let candidates = vec![model("gpt-5"), model("gpt-5-codex"), model("o3")];
    assert_eq!(find_model_by_longest_prefix("gpt-5-codex-mini", &candidates), Some(1));
    assert_eq!(find_model_by_longest_prefix("gpt-5.1", &candidates), Some(0));
    assert_eq!(find_model_by_longest_prefix("llama", &candidates), None);
    let ties = vec![model("gpt"), model("gpt")];
    assert_eq!(find_model_by_longest_prefix("gpt-4", &ties), Some(0));
}

#[test]
fn namespaced_names() {
    assert_eq!(
        split_namespaced_model("openai/gpt-5"),
        Some("gpt-5".to_string())
    );
    assert_eq!(split_namespaced_model("gpt-5"), None);
    assert_eq!(split_namespaced_model("a/b/c"), None);
    assert_eq!(split_namespaced_model("/gpt-5"), None);
    assert_eq!(split_namespaced_model("bad ns/gpt-5"), None);
    let candidates = vec![model("gpt-5")];
    assert_eq!(find_model_by_namespaced_suffix("my_org-1/gpt-5-pro", &candidates), Some(0));
    assert_eq!(select_model_candidate("team/gpt-5", &candidates), Some(0));
    assert_eq!(select_model_candidate("gpt-5x", &candidates), Some(0));
    assert_eq!(select_model_candidate("team/o3", &candidates), None);
}

#[test]
fn remote_models_merge_into_bundled_by_slug() {
    let mut updated = model("b");
    updated.priority = 7;
    let merged = apply_remote_models(
        vec![updated.clone(), model("c")],
        vec![model("a"), model("b")],
        false,
    );
    let slugs: Vec<&str> = merged.iter().map(|m| m.slug.as_str()).collect();
    assert_eq!(slugs, vec!["a", "b", "c"]);
    assert_eq!(merged[1].priority, 7);
}

#[test]
fn listed_remote_models_replace_bundled_for_chatgpt_users() {
    let mut listed = model("r");
    listed.visibility = ModelVisibility::List;
    let only = apply_remote_models(vec![listed.clone()], vec![model("a")], true);
    assert_eq!(only, vec![listed.clone()]);
    let api_user = apply_remote_models(vec![listed], vec![model("a")], false);
    assert_eq!(api_user.len(), 2);
}

#[test]
fn presets_filtered_by_sign_in() {
    let mut api_only = preset("api", false);
    api_only.supported_in_api = true;
    let mut chat_only = preset("chat", false);
    chat_only.supported_in_api = false;
    let all = vec![api_only.clone(), chat_only.clone()];
    assert_eq!(ModelPreset::filter_by_auth(all.clone(), true), all);
    assert_eq!(ModelPreset::filter_by_auth(all, false), vec![api_only]);
}

#[test]
fn exactly_one_preset_becomes_default() {
    let mut hidden = preset("hidden", true);
    hidden.show_in_picker = false;
    let mut shown = preset("shown", true);
    shown.show_in_picker = true;
    let mut also = preset("also", false);
    also.show_in_picker = true;
    let mut list = vec![hidden.clone(), shown, also];
    ModelPreset::mark_default_by_picker_visibility(&mut list);
    let defaults: Vec<bool> = list.iter().map(|p| p.is_default).collect();
    assert_eq!(defaults, vec![false, true, false]);
    let mut none_shown = vec![hidden.clone(), hidden];
    ModelPreset::mark_default_by_picker_visibility(&mut none_shown);
    let defaults: Vec<bool> = none_shown.iter().map(|p| p.is_default).collect();
    assert_eq!(defaults, vec![true, false]);
    let mut empty: Vec<ModelPreset> = vec![];
    ModelPreset::mark_default_by_picker_visibility(&mut empty);
    assert!(empty.is_empty());
}
