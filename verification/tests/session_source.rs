use codex_core::session_source::{Product, SessionSource};

#[test]
fn startup_arg_is_trimmed_and_lowercased() {
    assert_eq!(SessionSource::from_startup_arg(" CLI "), Ok(SessionSource::Cli));
    assert_eq!(SessionSource::from_startup_arg("VSCode"), Ok(SessionSource::VSCode));
    assert_eq!(SessionSource::from_startup_arg("exec"), Ok(SessionSource::Exec));
    assert_eq!(SessionSource::from_startup_arg("unknown"), Ok(SessionSource::Unknown));
    assert_eq!(
        SessionSource::from_startup_arg("  My-App "),
        Ok(SessionSource::Custom("my-app".to_string()))
    );
    assert_eq!(
        SessionSource::from_startup_arg("   "),
        Err("session source must not be empty")
    );
    assert_eq!(
        SessionSource::from_startup_arg(""),
        Err("session source must not be empty")
    );
}

#[test]
fn source_names_round_trip() {
    for arg in ["cli", "vscode", "exec", "unknown", "atlas"] {
        let source = SessionSource::from_startup_arg(arg).unwrap();
        assert_eq!(source.name(), arg);
    }
    assert_eq!(SessionSource::default(), SessionSource::VSCode);
}

#[test]
fn restriction_products() {
    assert_eq!(SessionSource::Cli.restriction_product(), Some(Product::Codex));
    assert_eq!(
        SessionSource::Custom(" ChatGPT ".to_string()).restriction_product(),
        Some(Product::Chatgpt)
    );
    assert_eq!(SessionSource::Custom("other".to_string()).restriction_product(), None);
    assert!(SessionSource::Exec.matches_product_restriction(&[]));
    assert!(SessionSource::Exec.matches_product_restriction(&[Product::Atlas, Product::Codex]));
    assert!(!SessionSource::Exec.matches_product_restriction(&[Product::Atlas]));
    assert!(!SessionSource::Custom("other".to_string()).matches_product_restriction(&[Product::Codex]));
    assert!(SessionSource::Custom("other".to_string()).matches_product_restriction(&[]));
}

#[test]
fn product_names_and_platforms() {
    assert_eq!(Product::from_session_source_name("atlas"), Some(Product::Atlas));
    assert_eq!(Product::from_session_source_name(" CODEX"), Some(Product::Codex));
    assert_eq!(Product::from_session_source_name("chat"), None);
    assert_eq!(Product::Chatgpt.to_app_platform(), "chat");
    assert_eq!(Product::Codex.to_app_platform(), "codex");
    assert_eq!(Product::Atlas.to_app_platform(), "atlas");
    assert!(Product::Atlas.matches_product_restriction(&[]));
    assert!(!Product::Atlas.matches_product_restriction(&[Product::Codex]));
}
