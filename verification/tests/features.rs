use codex_core::features::{
    canonical_feature_for_key, feature_edit, FeatureEdit, feature_for_key, feature_specs, is_known_feature_key, Feature,
    FeatureConfigSource, FeatureOverrides, Features, FeaturesToml,
};

#[test]
fn registry_keys_and_defaults() {
    let specs = feature_specs();
    assert_eq!(specs.len(), 6);
    assert_eq!(specs[0].id, Feature::ShellSnapshot);
    assert_eq!(specs[0].key, "shell_snapshot");
    assert!(specs[0].default_enabled);
    assert!(specs[1..].iter().all(|s| !s.default_enabled));
    assert_eq!(Feature::WebSearchRequest.key(), "web_search_request");
    assert_eq!(
        Feature::ResponsesWebsocketResponseProcessed.key(),
        "responses_websocket_response_processed"
    );
    assert!(Feature::ShellSnapshot.default_enabled());
    assert!(!Feature::ImageGeneration.default_enabled());
}

#[test]
fn keys_map_back_to_features() {
    for spec in feature_specs() {
        assert_eq!(feature_for_key(spec.key), Some(spec.id));
        assert_eq!(canonical_feature_for_key(spec.key), Some(spec.id));
        assert!(is_known_feature_key(spec.key));
    }
    assert_eq!(feature_for_key("no_such_feature"), None);
    assert!(!is_known_feature_key("Shell_Snapshot"));
}

#[test]
fn defaults_and_switching() {
    let mut f = Features::with_defaults();
    assert!(f.enabled(Feature::ShellSnapshot));
    assert!(!f.enabled(Feature::WebSearchRequest));
    f.enable(Feature::WebSearchRequest);
    assert!(f.enabled(Feature::WebSearchRequest));
    f.disable(Feature::ShellSnapshot);
    assert!(!f.enabled(Feature::ShellSnapshot));
    f.set_enabled(Feature::ImageGeneration, true);
    assert_eq!(
        f.enabled_features(),
        vec![Feature::WebSearchRequest, Feature::ImageGeneration]
    );
    assert!(Features::empty().enabled_features().is_empty());
}

#[test]
fn later_entries_win_and_unknown_keys_are_skipped() {
    let mut f = Features::with_defaults();
    f.apply_map(&vec![
        ("web_search_request".to_string(), true),
        ("bogus".to_string(), true),
        ("web_search_request".to_string(), false),
        ("runtime_metrics".to_string(), true),
    ]);
    assert!(!f.enabled(Feature::WebSearchRequest));
    assert!(f.enabled(Feature::RuntimeMetrics));
    assert!(f.enabled(Feature::ShellSnapshot));
}

#[test]
fn sources_apply_defaults_then_table_then_overrides() {
    let table = FeaturesToml::from_entries(vec![
        ("shell_snapshot".to_string(), false),
        ("web_search_request".to_string(), true),
    ]);
    let resolved = Features::from_sources(
        FeatureConfigSource {
            features: Some(&table),
        },
        FeatureOverrides {
            web_search_request: Some(false),
        },
    );
    assert!(!resolved.enabled(Feature::ShellSnapshot));
    assert!(!resolved.enabled(Feature::WebSearchRequest));
    let plain = Features::from_sources(FeatureConfigSource::default(), FeatureOverrides::default());
    assert_eq!(plain, Features::with_defaults());
}

#[test]
fn non_default_states_lists_changed_features() {
    let mut f = Features::with_defaults();
    assert!(f.non_default_states().is_empty());
    f.disable(Feature::ShellSnapshot);
    f.enable(Feature::ImageGeneration);
    let mut states = f.non_default_states();
    states.sort();
    assert_eq!(
        states,
        vec![("image_generation", true), ("shell_snapshot", false)]
    );
}

#[test]
fn table_keeps_one_entry_per_key() {
    let mut table = FeaturesToml::from_entries(vec![
        ("a".to_string(), true),
        ("a".to_string(), false),
    ]);
    assert_eq!(table.entries(), vec![("a".to_string(), false)]);
    table.insert("b".to_string(), true);
    table.insert("a".to_string(), true);
    let mut entries = table.entries();
    entries.sort();
    assert_eq!(entries, vec![("a".to_string(), true), ("b".to_string(), true)]);
    assert!(FeaturesToml::default().entries().is_empty());
}

#[test]
fn materialized_table_resolves_to_same_features() {
    let mut features = Features::with_defaults();
    features.enable(Feature::RuntimeMetrics);
    let mut table = FeaturesToml::from_entries(vec![("custom_key".to_string(), true)]);
    table.materialize_resolved_enabled(&features);
    let resolved = Features::from_sources(
        FeatureConfigSource {
            features: Some(&table),
        },
        FeatureOverrides::default(),
    );
    assert_eq!(resolved, features);
    assert!(table.entries().contains(&("custom_key".to_string(), true)));
}

#[test]
fn feature_edits_clear_default_off_features() {
    let path = vec!["features".to_string(), "web_search_request".to_string()];
    assert_eq!(
        feature_edit("web_search_request", false),
        FeatureEdit::ClearPath { segments: path.clone() }
    );
    assert_eq!(
        feature_edit("web_search_request", true),
        FeatureEdit::SetPath { segments: path, value: true }
    );
    assert_eq!(
        feature_edit("shell_snapshot", false),
        FeatureEdit::SetPath {
            segments: vec!["features".to_string(), "shell_snapshot".to_string()],
            value: false
        }
    );
    assert_eq!(
        feature_edit("unknown_key", false),
        FeatureEdit::SetPath {
            segments: vec!["features".to_string(), "unknown_key".to_string()],
            value: false
        }
    );
}

#[test]
fn feature_table_keeps_keys_in_order() {
    let table = FeaturesToml::from_entries(vec![
        ("zeta".to_string(), true),
        ("alpha".to_string(), false),
        ("mid".to_string(), true),
        ("alpha".to_string(), true),
    ]);
    assert_eq!(
        table.entries(),
        vec![("alpha".to_string(), true), ("mid".to_string(), true), ("zeta".to_string(), true)]
    );
}

#[test]
fn feature_switches_chain() {
    let mut f = Features::empty();
    f.enable(Feature::WebSearchRequest).enable(Feature::ImageGeneration).disable(Feature::WebSearchRequest);
    assert!(f.enabled(Feature::ImageGeneration));
    assert!(!f.enabled(Feature::WebSearchRequest));
    f.set_enabled(Feature::RuntimeMetrics, true).set_enabled(Feature::ImageGeneration, false);
    assert!(f.enabled(Feature::RuntimeMetrics));
    assert!(!f.enabled(Feature::ImageGeneration));
}

#[test]
fn enabling_twice_is_enabling_once() {
    let mut once = Features::with_defaults();
    once.enable(Feature::ImageGeneration);
    let mut twice = once.clone();
    twice.enable(Feature::ImageGeneration);
    assert_eq!(twice, once);
    assert!(twice.enabled(Feature::ImageGeneration));
}

#[test]
fn disabling_undoes_enabling() {
    let start = Features::with_defaults();
    assert!(!start.enabled(Feature::WebSearchRequest));
    let mut f = start.clone();
    f.enable(Feature::WebSearchRequest);
    f.disable(Feature::WebSearchRequest);
    assert_eq!(f, start);
    assert!(!f.enabled(Feature::WebSearchRequest));
}

#[test]
fn materializing_into_an_empty_table_round_trips() {
    let mut features = Features::empty();
    features.enable(Feature::ShellSnapshot);
    let mut table = FeaturesToml::default();
    table.materialize_resolved_enabled(&features);
    let back = Features::from_sources(FeatureConfigSource { features: Some(&table) }, FeatureOverrides::default());
    assert_eq!(back, features);
}
