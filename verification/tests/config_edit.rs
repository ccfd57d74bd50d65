use codex_core::config_document::apply_edits_to_text;
use codex_core::config_edit::{
    keeps_project_entry, project_needs_table, projects_step, service_tier_config_value, table_step,
    ConfigEdit, ConfigEditsBuilder, ConfigValue, DocumentChange, ItemShape, ProjectsStep,
    TableStep, TraversalMode, TrustLevel,
};
use codex_core::openai_models::ReasoningEffort;

fn path(parts: &[&str]) -> Vec<String> {
    parts.iter().map(|p| p.to_string()).collect()
}

#[test]
fn set_model_writes_model_and_effort() {
    let edit = ConfigEdit::SetModel {
        model: Some("gpt-5".to_string()),
        effort: Some(ReasoningEffort::High),
    };
    assert_eq!(
        edit.changes(),
        vec![
            DocumentChange::Write {
                segments: path(&["model"]),
                value: ConfigValue::Text("gpt-5".to_string()),
            },
            DocumentChange::Write {
                segments: path(&["model_reasoning_effort"]),
                value: ConfigValue::Text("high".to_string()),
            },
        ]
    );
}

#[test]
fn unset_model_removes_both_keys() {
    let edit = ConfigEdit::SetModel { model: None, effort: None };
    assert_eq!(
        edit.changes(),
        vec![
            DocumentChange::Remove { segments: path(&["model"]) },
            DocumentChange::Remove { segments: path(&["model_reasoning_effort"]) },
        ]
    );
}

#[test]
fn service_tiers_are_recorded_by_config_name() {
    assert_eq!(service_tier_config_value("priority"), "fast");
    assert_eq!(service_tier_config_value("fast"), "fast");
    assert_eq!(service_tier_config_value("flex"), "flex");
    assert_eq!(service_tier_config_value("custom"), "custom");
    let edit = ConfigEdit::SetServiceTier { service_tier: Some("priority".to_string()) };
    assert_eq!(
        edit.changes(),
        vec![DocumentChange::Write {
            segments: path(&["service_tier"]),
            value: ConfigValue::Text("fast".to_string()),
        }]
    );
    let cleared = ConfigEdit::SetServiceTier { service_tier: None };
    assert_eq!(cleared.changes(), vec![DocumentChange::Remove { segments: path(&["service_tier"]) }]);
}

#[test]
fn notices_are_written_under_notice() {
    assert_eq!(
        ConfigEdit::SetNoticeHideFullAccessWarning(true).changes(),
        vec![DocumentChange::Write {
            segments: path(&["notice", "hide_full_access_warning"]),
            value: ConfigValue::Bool(true),
        }]
    );
    assert_eq!(
        ConfigEdit::SetNoticeHideModelMigrationPrompt("gpt-5 to gpt-5.1".to_string(), false).changes(),
        vec![DocumentChange::Write {
            segments: path(&["notice", "gpt-5 to gpt-5.1"]),
            value: ConfigValue::Bool(false),
        }]
    );
    assert_eq!(
        ConfigEdit::SetNoticeExternalConfigMigrationPromptProjectLastPromptedAt("/repo".to_string(), 42)
            .changes(),
        vec![DocumentChange::Write {
            segments: path(&[
                "notice",
                "external_config_migration_prompts",
                "project_last_prompted_at",
                "/repo",
            ]),
            value: ConfigValue::Integer(42),
        }]
    );
    assert_eq!(
        ConfigEdit::SetNoticeHideExternalConfigMigrationPromptHome(true).changes(),
        vec![DocumentChange::Write {
            segments: path(&["notice", "external_config_migration_prompts", "home"]),
            value: ConfigValue::Bool(true),
        }]
    );
}

#[test]
fn paths_and_trust_pass_through() {
    let set = ConfigEdit::SetPath { segments: path(&["a", "b"]), value: ConfigValue::Integer(3) };
    assert_eq!(
        set.changes(),
        vec![DocumentChange::Write { segments: path(&["a", "b"]), value: ConfigValue::Integer(3) }]
    );
    let clear = ConfigEdit::ClearPath { segments: path(&["a"]) };
    assert_eq!(clear.changes(), vec![DocumentChange::Remove { segments: path(&["a"]) }]);
    let trust = ConfigEdit::SetProjectTrustLevel { path: "/repo".to_string(), level: TrustLevel::Trusted };
    assert_eq!(
        trust.changes(),
        vec![DocumentChange::TrustProject { path: "/repo".to_string(), level: TrustLevel::Trusted }]
    );
    assert_eq!(TrustLevel::Trusted.as_str(), "trusted");
}

#[test]
fn walking_tables_by_shape() {
    assert_eq!(table_step(ItemShape::Table, TraversalMode::Existing), TableStep::Enter);
    assert_eq!(table_step(ItemShape::InlineTable, TraversalMode::Existing), TableStep::ConvertInlineTable);
    assert_eq!(table_step(ItemShape::Absent, TraversalMode::Existing), TableStep::Stop);
    assert_eq!(table_step(ItemShape::OtherValue, TraversalMode::Existing), TableStep::Stop);
    assert_eq!(table_step(ItemShape::Absent, TraversalMode::Create), TableStep::InsertImplicitTable);
    assert_eq!(table_step(ItemShape::Empty, TraversalMode::Create), TableStep::ReplaceWithImplicitTable);
    assert_eq!(table_step(ItemShape::OtherValue, TraversalMode::Create), TableStep::ReplaceWithImplicitTable);
    assert_eq!(table_step(ItemShape::ArrayOfTables, TraversalMode::Create), TableStep::Stop);
}

#[test]
fn preparing_projects_for_trust() {
    assert_eq!(projects_step(ItemShape::Table), ProjectsStep::Keep);
    assert_eq!(projects_step(ItemShape::InlineTable), ProjectsStep::Rebuild { copy_inline_entries: true });
    assert_eq!(projects_step(ItemShape::Absent), ProjectsStep::Rebuild { copy_inline_entries: false });
    assert!(keeps_project_entry(ItemShape::InlineTable));
    assert!(!keeps_project_entry(ItemShape::OtherValue));
    assert!(project_needs_table(ItemShape::Absent));
    assert!(project_needs_table(ItemShape::InlineTable));
    assert!(!project_needs_table(ItemShape::Table));
}

#[test]
fn builder_collects_edits_in_order() {
    let builder = ConfigEditsBuilder::new("/home/me/.codex")
        .set_model(Some("gpt-5"), None)
        .set_hide_full_access_warning(true)
        .set_project_trust_level("/repo", TrustLevel::Untrusted)
        .with_edits(vec![ConfigEdit::ClearPath { segments: path(&["x"]) }]);
    assert_eq!(builder.config_path(), "/home/me/.codex/config.toml");
    assert_eq!(
        builder.edits(),
        &vec![
            ConfigEdit::SetModel { model: Some("gpt-5".to_string()), effort: None },
            ConfigEdit::SetNoticeHideFullAccessWarning(true),
            ConfigEdit::SetProjectTrustLevel { path: "/repo".to_string(), level: TrustLevel::Untrusted },
            ConfigEdit::ClearPath { segments: path(&["x"]) },
        ]
    );
    let (file, edits) = builder.into_parts();
    assert_eq!(file, "/home/me/.codex/config.toml");
    assert_eq!(edits.len(), 4);
}

#[test]
fn switching_features() {
    let on = ConfigEditsBuilder::for_config_path("c.toml").set_feature_enabled("web_search_request", true);
    assert_eq!(
        on.edits(),
        &vec![ConfigEdit::SetPath {
            segments: path(&["features", "web_search_request"]),
            value: ConfigValue::Bool(true),
        }]
    );
    let off_default_off =
        ConfigEditsBuilder::for_config_path("c.toml").set_feature_enabled("web_search_request", false);
    assert_eq!(
        off_default_off.edits(),
        &vec![ConfigEdit::ClearPath { segments: path(&["features", "web_search_request"]) }]
    );
    let off_default_on =
        ConfigEditsBuilder::for_config_path("c.toml").set_feature_enabled("shell_snapshot", false);
    assert_eq!(
        off_default_on.edits(),
        &vec![ConfigEdit::SetPath {
            segments: path(&["features", "shell_snapshot"]),
            value: ConfigValue::Bool(false),
        }]
    );
    let unknown = ConfigEditsBuilder::for_config_path("c.toml").set_feature_enabled("mystery", false);
    assert_eq!(
        unknown.edits(),
        &vec![ConfigEdit::SetPath {
            segments: path(&["features", "mystery"]),
            value: ConfigValue::Bool(false),
        }]
    );
}

#[test]
fn edits_rewrite_config_text() {
    let text = "# keep me\nmodel = \"o3\" # old\n\n[notice]\nhide_full_access_warning = false\n";
    let edits = vec![
        ConfigEdit::SetModel { model: Some("gpt-5".to_string()), effort: Some(ReasoningEffort::High) },
        ConfigEdit::SetNoticeHideFullAccessWarning(true),
    ];
    let out = apply_edits_to_text(text, &edits).expect("toml").expect("changed");
    assert!(out.contains("# keep me"));
    assert!(out.contains("model = \"gpt-5\""));
    assert!(out.contains("model_reasoning_effort = \"high\""));
    assert!(out.contains("hide_full_access_warning = true"));
    assert!(!out.contains("o3"));
}

#[test]
fn edits_that_change_nothing_leave_the_file() {
    assert_eq!(apply_edits_to_text("a = 1\n", &vec![]), Ok(None));
    let clear = vec![ConfigEdit::ClearPath { segments: path(&["missing", "key"]) }];
    assert_eq!(apply_edits_to_text("a = 1\n", &clear), Ok(None));
    assert!(apply_edits_to_text("not = = toml", &clear).is_err());
    let remove = vec![ConfigEdit::ClearPath { segments: path(&["a"]) }];
    assert_eq!(apply_edits_to_text("a = 1\n", &remove).expect("toml").map(|t| t.trim().to_string()), Some(String::new()));
}

#[test]
fn trust_levels_are_written_under_projects() {
    let edits = vec![ConfigEdit::SetProjectTrustLevel { path: "/repo".to_string(), level: TrustLevel::Trusted }];
    let out = apply_edits_to_text("", &edits).expect("toml").expect("changed");
    assert!(out.contains("[projects.\"/repo\"]"));
    assert!(out.contains("trust_level = \"trusted\""));
    let inline = "projects = { \"/a\" = { trust_level = \"untrusted\" }, junk = 1 }\n";
    let out = apply_edits_to_text(inline, &edits).expect("toml").expect("changed");
    assert!(out.contains("[projects.\"/a\"]"));
    assert!(!out.contains("junk"));
    assert!(out.contains("trust_level = \"trusted\""));
}

#[test]
fn replaced_values_keep_their_comments() {
    let text = "# top\nmodel = \"o3\" # chosen\n";
    let edits = vec![ConfigEdit::SetModel { model: Some("gpt-5".to_string()), effort: None }];
    let out = apply_edits_to_text(text, &edits).expect("toml").expect("changed");
    assert!(out.contains("# top"));
    assert!(out.contains("model = \"gpt-5\" # chosen"));
}

#[test]
fn writing_below_an_inline_table_turns_it_into_a_table() {
    let text = "tui = { theme = \"dark\" }\n";
    let edits = vec![ConfigEdit::SetPath { segments: path(&["tui", "notifications"]), value: ConfigValue::Bool(true) }];
    let out = apply_edits_to_text(text, &edits).expect("toml").expect("changed");
    assert!(out.contains("[tui]"));
    assert!(out.contains("theme = \"dark\""));
    assert!(out.contains("notifications = true"));
    assert!(!out.contains("{"));
}

#[test]
fn trusted_project_gets_its_own_table_header() {
    let text = "[projects.\"/repo\".extra]\nx = 1\n";
    let edits = vec![ConfigEdit::SetProjectTrustLevel { path: "/repo".to_string(), level: TrustLevel::Trusted }];
    let out = apply_edits_to_text(text, &edits).expect("toml").expect("changed");
    assert!(out.contains("[projects.\"/repo\"]\ntrust_level = \"trusted\""));
    assert!(out.contains("[projects.\"/repo\".extra]"));
    assert!(out.contains("x = 1"));
}

#[test]
fn nested_settings_keep_their_comments() {
    let text = "[tui]\ntheme = \"dark\" # mine\n";
    let edits = vec![ConfigEdit::SetPath {
        segments: path(&["tui", "theme"]),
        value: ConfigValue::Text("light".to_string()),
    }];
    let out = apply_edits_to_text(text, &edits).expect("toml").expect("changed");
    assert!(out.contains("theme = \"light\" # mine"));
    assert!(out.contains("[tui]"));
}

#[test]
fn trusting_a_project_keeps_its_other_keys_and_other_projects() {
    let text = "[projects.\"/repo\"]\nnote = \"x\"\ntrust_level = \"untrusted\"\n\n[projects.\"/b\"]\ntrust_level = \"untrusted\"\n";
    let edits = vec![ConfigEdit::SetProjectTrustLevel { path: "/repo".to_string(), level: TrustLevel::Trusted }];
    let out = apply_edits_to_text(text, &edits).expect("toml").expect("changed");
    assert!(out.contains("note = \"x\""));
    assert!(out.contains("[projects.\"/repo\"]\nnote = \"x\"\ntrust_level = \"trusted\""));
    assert!(out.contains("[projects.\"/b\"]\ntrust_level = \"untrusted\""));
}
