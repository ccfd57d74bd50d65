use codex_core::config::{
    build_cwd_override, lockfile_load, ConfigLockSettings, LockfileLoad, dedupe_paths, resolve_web_search_mode, sqlite_home_from_env_value, ConfigOverrides,
    GhostSnapshotConfig, NetworkProxyAuditMetadata, NetworkProxySpec,
    DEFAULT_IGNORE_LARGE_UNTRACKED_DIRS, DEFAULT_IGNORE_LARGE_UNTRACKED_FILES,
};
use codex_core::config_types::WebSearchMode;
use codex_core::features::{Feature, Features};

#[test]
fn ghost_snapshot_defaults() {
    let config = GhostSnapshotConfig::default();
    assert_eq!(
        config.ignore_large_untracked_files,
        Some(DEFAULT_IGNORE_LARGE_UNTRACKED_FILES)
    );
    assert_eq!(config.ignore_large_untracked_files, Some(10 * 1024 * 1024));
    assert_eq!(config.ignore_large_untracked_dirs, Some(DEFAULT_IGNORE_LARGE_UNTRACKED_DIRS));
    assert!(!config.disable_warnings);
}

#[test]
fn overrides_default_to_nothing() {
    let o = ConfigOverrides::default();
    assert!(o.model.is_none());
    assert!(o.additional_writable_roots.is_empty());
    assert!(o.workspace_roots.is_none());
}

#[test]
fn sqlite_home_from_environment() {
    assert_eq!(sqlite_home_from_env_value(None, "/cwd"), None);
    assert_eq!(sqlite_home_from_env_value(Some("   ".to_string()), "/cwd"), None);
    assert_eq!(
        sqlite_home_from_env_value(Some(" /data ".to_string()), "/cwd"),
        Some("/data".to_string())
    );
    assert_eq!(
        sqlite_home_from_env_value(Some("state".to_string()), "/cwd"),
        Some("/cwd/state".to_string())
    );
}

#[test]
fn dedupe_keeps_first_occurrences() {
    let mut paths = vec![
        "/a".to_string(),
        "/b".to_string(),
        "/a".to_string(),
        "/c".to_string(),
        "/b".to_string(),
    ];
    dedupe_paths(&mut paths);
    assert_eq!(paths, vec!["/a".to_string(), "/b".to_string(), "/c".to_string()]);
}

#[test]
fn web_search_mode_resolution() {
    let mut features = Features::empty();
    assert_eq!(resolve_web_search_mode(None, &features), None);
    features.enable(Feature::WebSearchRequest);
    assert_eq!(resolve_web_search_mode(None, &features), Some(WebSearchMode::Live));
    features.enable(Feature::WebSearchCached);
    assert_eq!(resolve_web_search_mode(None, &features), Some(WebSearchMode::Cached));
    assert_eq!(
        resolve_web_search_mode(Some(WebSearchMode::Disabled), &features),
        Some(WebSearchMode::Disabled)
    );
}

#[test]
fn proxy_host_and_port_drops_scheme() {
    let spec = |url: &str| NetworkProxySpec {
        enabled: true,
        proxy_url: url.to_string(),
        enable_socks5: false,
    };
    assert_eq!(spec("http://127.0.0.1:8080").proxy_host_and_port(), "127.0.0.1:8080");
    assert_eq!(spec("https://proxy:443").proxy_host_and_port(), "proxy:443");
    assert_eq!(spec("proxy:1").proxy_host_and_port(), "proxy:1");
    assert!(spec("x").enabled());
    assert!(!spec("x").socks_enabled());
    assert_eq!(
        spec("x").start_proxy(NetworkProxyAuditMetadata::default()),
        Err("managed network proxy has been removed".to_string())
    );
}

#[test]
fn config_contents_are_trimmed() {
    assert_eq!(
        codex_core::config::non_empty_config_contents("  model = \"x\"\n"),
        Some("model = \"x\"".to_string())
    );
    assert_eq!(codex_core::config::non_empty_config_contents(" \n\t"), None);
}

#[test]
fn build_prefers_the_overrides_directory() {
    assert_eq!(
        build_cwd_override(Some("/a".to_string()), Some("/b".to_string())),
        Some("/a".to_string())
    );
    assert_eq!(build_cwd_override(None, Some("/b".to_string())), Some("/b".to_string()));
    assert_eq!(build_cwd_override(None, None), None);
}

#[test]
fn lockfile_flags_default_when_unset() {
    assert_eq!(lockfile_load(None), None);
    assert_eq!(lockfile_load(Some(ConfigLockSettings::default())), None);
    let settings = ConfigLockSettings { load_path: Some("/lock.toml".to_string()), ..ConfigLockSettings::default() };
    assert_eq!(
        lockfile_load(Some(settings)),
        Some(LockfileLoad {
            load_path: "/lock.toml".to_string(),
            allow_codex_version_mismatch: false,
            save_fields_resolved_from_model_catalog: true,
        })
    );
    let settings = ConfigLockSettings {
        load_path: Some("/lock.toml".to_string()),
        allow_codex_version_mismatch: Some(true),
        save_fields_resolved_from_model_catalog: Some(false),
    };
    let load = lockfile_load(Some(settings)).expect("load path set");
    assert!(load.allow_codex_version_mismatch);
    assert!(!load.save_fields_resolved_from_model_catalog);
}
