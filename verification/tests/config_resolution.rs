use codex_core::config::{
    forced_workspace_ids, ghost_snapshot_config, provider_not_found_message, resolve_compact_prompt,
    resolve_log_dir, resolve_model_provider_id, resolve_service_tier, resolve_sqlite_home,
    resolve_workspace_roots, DEFAULT_IGNORE_LARGE_UNTRACKED_DIRS,
};

fn s(v: &str) -> String {
    v.to_string()
}

#[test]
fn service_tier_resolution() {
    assert_eq!(resolve_service_tier(Some(Some(s("fast"))), Some(s("flex"))), Some(s("priority")));
    assert_eq!(resolve_service_tier(Some(None), Some(s("flex"))), Some(s("default")));
    assert_eq!(resolve_service_tier(None, Some(s("flex"))), Some(s("flex")));
    assert_eq!(resolve_service_tier(None, Some(s("custom"))), Some(s("custom")));
    assert_eq!(resolve_service_tier(None, None), None);
}

#[test]
fn service_tier_written_then_loaded_is_the_same() {
    let written = codex_core::config_edit::service_tier_config_value("priority");
    assert_eq!(written, "fast");
    assert_eq!(resolve_service_tier(None, Some(written)), Some(s("priority")));
}

#[test]
fn compact_prompt_is_trimmed_and_blank_is_none() {
    assert_eq!(resolve_compact_prompt(Some(s("  summarize  ")), Some(s("x"))), Some(s("summarize")));
    assert_eq!(resolve_compact_prompt(None, Some(s(" x "))), Some(s("x")));
    assert_eq!(resolve_compact_prompt(Some(s("   ")), Some(s("x"))), None);
    assert_eq!(resolve_compact_prompt(None, None), None);
}

#[test]
fn workspace_roots_default_to_cwd_and_extra_roots() {
    let (roots, explicit) = resolve_workspace_roots(None, &vec![], "/repo");
    assert_eq!(roots, vec![s("/repo")]);
    assert!(!explicit);
    let (roots, explicit) = resolve_workspace_roots(None, &vec![s("docs"), s("/repo"), s("/tmp")], "/repo");
    assert_eq!(roots, vec![s("/repo"), s("/repo/docs"), s("/tmp")]);
    assert!(explicit);
    let (roots, explicit) = resolve_workspace_roots(Some(vec![s("a"), s("/b"), s("a")]), &vec![], "/repo");
    assert_eq!(roots, vec![s("/repo/a"), s("/b")]);
    assert!(explicit);
}

#[test]
fn forced_workspace_ids_are_trimmed() {
    assert_eq!(forced_workspace_ids(Some(vec![s(" a "), s("  "), s("b")])), Some(vec![s("a"), s("b")]));
    assert_eq!(forced_workspace_ids(Some(vec![s("  ")])), None);
    assert_eq!(forced_workspace_ids(None), None);
}

#[test]
fn provider_and_paths() {
    assert_eq!(resolve_model_provider_id(None, None), "openai");
    assert_eq!(resolve_model_provider_id(None, Some(s("azure"))), "azure");
    assert_eq!(resolve_model_provider_id(Some(s("ollama")), Some(s("azure"))), "ollama");
    assert_eq!(provider_not_found_message("nope"), "Model provider `nope` not found");
    assert_eq!(resolve_log_dir(None, "/home/me/.codex"), "/home/me/.codex/log");
    assert_eq!(resolve_log_dir(Some(s("/var/log/codex")), "/home/me/.codex"), "/var/log/codex");
    assert_eq!(resolve_sqlite_home(None, Some(s("/db")), "/h"), "/db");
    assert_eq!(resolve_sqlite_home(Some(s("/cfg")), Some(s("/db")), "/h"), "/cfg");
    assert_eq!(resolve_sqlite_home(None, None, "/h"), "/h");
}

#[test]
fn ghost_snapshot_limits() {
    let c = ghost_snapshot_config(Some(0), None, Some(true));
    assert_eq!(c.ignore_large_untracked_files, None);
    assert_eq!(c.ignore_large_untracked_dirs, Some(DEFAULT_IGNORE_LARGE_UNTRACKED_DIRS));
    assert!(c.disable_warnings);
    let c = ghost_snapshot_config(Some(5), Some(7), None);
    assert_eq!(c.ignore_large_untracked_files, Some(5));
    assert_eq!(c.ignore_large_untracked_dirs, Some(7));
    assert!(!c.disable_warnings);
}
