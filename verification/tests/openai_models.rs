use codex_core::config_types::{ReasoningSummary, ServiceTier};
use codex_core::openai_models::{
    default_input_modalities, ConfigShellToolType, ModelAvailabilityNux, ModelInfo, ModelMessages,
    ModelPreset, ModelServiceTier, ModelVisibility, ReasoningEffort, TruncationPolicyConfig,
    WebSearchToolType, SPEED_TIER_FAST,
};

fn test_model(spec: Option<ModelMessages>) -> ModelInfo {
    ModelInfo {
        slug: "test-model".to_string(),
        display_name: "Test Model".to_string(),
        description: None,
        default_reasoning_level: None,
        supported_reasoning_levels: vec![],
        shell_type: ConfigShellToolType::ShellCommand,
        visibility: ModelVisibility::List,
        supported_in_api: true,
        priority: 1,
        additional_speed_tiers: Vec::new(),
        service_tiers: Vec::new(),
        default_service_tier: None,
        availability_nux: None,
        upgrade: None,
        base_instructions: "base".to_string(),
        model_messages: spec,
        supports_reasoning_summaries: false,
        default_reasoning_summary: ReasoningSummary::Auto,
        support_verbosity: false,
        default_verbosity: None,
        web_search_tool_type: WebSearchToolType::Text,
        truncation_policy: TruncationPolicyConfig::bytes(10_000),
        supports_parallel_tool_calls: false,
        supports_image_detail_original: false,
        context_window: None,
        max_context_window: None,
        auto_compact_token_limit: None,
        effective_context_window_percent: 95,
        experimental_supported_tools: vec![],
        input_modalities: default_input_modalities(),
        used_fallback_model_metadata: false,
        supports_search_tool: false,
    }
}

fn fast_tier() -> ModelServiceTier {
    ModelServiceTier {
        id: ServiceTier::Fast.request_value().to_string(),
        name: "Fast".to_string(),
        description: "Priority processing.".to_string(),
    }
}

#[test]
fn reasoning_effort_from_str_accepts_known_values() {
    assert_eq!("high".parse(), Ok(ReasoningEffort::High));
    assert_eq!("minimal".parse(), Ok(ReasoningEffort::Minimal));
}

#[test]
fn reasoning_effort_from_str_rejects_unknown_values() {
    assert_eq!(
        "unsupported".parse::<ReasoningEffort>(),
        Err("invalid reasoning_effort: unsupported".to_string())
    );
}

#[test]
fn resolved_context_window_prefers_context_window() {
    let model = ModelInfo {
        context_window: Some(273_000),
        max_context_window: Some(400_000),
        ..test_model(None)
    };

    assert_eq!(model.resolved_context_window(), Some(273_000));
}

#[test]
fn resolved_context_window_falls_back_to_max_context_window() {
    let model = ModelInfo {
        context_window: None,
        max_context_window: Some(400_000),
        ..test_model(None)
    };

    assert_eq!(model.resolved_context_window(), Some(400_000));
    assert_eq!(model.auto_compact_token_limit(), Some(360_000));
}

#[test]
fn model_preset_preserves_availability_nux() {
    let preset = ModelPreset::from(ModelInfo {
        availability_nux: Some(ModelAvailabilityNux {
            message: "Try Spark.".to_string(),
        }),
        additional_speed_tiers: vec![SPEED_TIER_FAST.to_string()],
        default_service_tier: Some(ServiceTier::Fast.request_value().to_string()),
        service_tiers: Vec::new(),
        ..test_model(None)
    });

    assert_eq!(
        preset.availability_nux,
        Some(ModelAvailabilityNux {
            message: "Try Spark.".to_string(),
        })
    );
    assert!(preset.supports_fast_mode());
    assert_eq!(
        preset.default_service_tier,
        Some(ServiceTier::Fast.request_value().to_string())
    );
}

#[test]
fn model_preset_supports_fast_mode_from_service_tiers() {
    let preset = ModelPreset::from(ModelInfo {
        service_tiers: vec![fast_tier()],
        ..test_model(None)
    });

    assert!(preset.supports_fast_mode());
}

#[test]
fn service_tier_for_request_omits_explicit_default_tier() {
    let model = ModelInfo {
        default_service_tier: Some(ServiceTier::Fast.request_value().to_string()),
        service_tiers: vec![fast_tier()],
        ..test_model(None)
    };

    assert_eq!(
        model.service_tier_for_request(Some(
            codex_core::config_types::SERVICE_TIER_DEFAULT_REQUEST_VALUE.to_string()
        )),
        None
    );
}

#[test]
fn service_tier_for_request_filters_unsupported_tiers() {
    let model = ModelInfo {
        default_service_tier: Some(ServiceTier::Fast.request_value().to_string()),
        service_tiers: vec![fast_tier()],
        ..test_model(None)
    };

    assert_eq!(
        model.service_tier_for_request(Some(ServiceTier::Fast.request_value().to_string())),
        Some(ServiceTier::Fast.request_value().to_string())
    );
    assert_eq!(
        model.service_tier_for_request(Some("unsupported".to_string())),
        None
    );
    assert_eq!(model.service_tier_for_request(None), None);
}

#[test]
fn service_tier_for_request_does_not_apply_catalog_default() {
    let model = ModelInfo {
        default_service_tier: Some(ServiceTier::Fast.request_value().to_string()),
        service_tiers: vec![fast_tier()],
        ..test_model(None)
    };

    assert_eq!(model.service_tier_for_request(None), None);
}

#[test]
fn model_preset_without_tiers_has_no_fast_mode() {
    let preset = ModelPreset::from(test_model(None));
    assert!(!preset.supports_fast_mode());
    assert_eq!(preset.model, "test-model");
}

#[test]
fn reasoning_effort_names_round_trip() {
    for effort in [
        ReasoningEffort::NoReasoning,
        ReasoningEffort::Minimal,
        ReasoningEffort::Low,
        ReasoningEffort::Medium,
        ReasoningEffort::High,
        ReasoningEffort::XHigh,
    ] {
        assert_eq!(effort.as_str().parse::<ReasoningEffort>(), Ok(effort));
    }
}

#[test]
fn auto_compact_limit_is_nine_tenths_of_window() {
    let model = ModelInfo {
        context_window: Some(1_000),
        ..test_model(None)
    };
    assert_eq!(model.auto_compact_token_limit(), Some(900));
}
