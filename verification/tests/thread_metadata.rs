use codex_core::config_types::ReasoningSummary;
use codex_core::extract::{apply_rollout_item, rollout_item_affects_thread_metadata};
use codex_core::models::{ContentItem, ResponseItem};
use codex_core::openai_models::ReasoningEffort;
use codex_core::protocol::{GitInfo, GitSha, SessionMeta, SessionMetaLine, ThreadId, TurnContextItem};
use codex_core::rollout::{RolloutEvent, RolloutItem};
use codex_core::session_source::SessionSource;
use codex_core::thread_metadata::{
    anchor_from_item, epoch_millis_to_datetime, epoch_seconds_to_datetime, Anchor, SortKey,
    ThreadMetadata, ThreadMetadataBuilder, ThreadMetadataError, ThreadRow,
};
use codex_core::token_usage::{TokenUsage, TokenUsageInfo};

fn thread_row(reasoning_effort: Option<&str>) -> ThreadRow {
    ThreadRow {
        id: "00000000-0000-0000-0000-000000000123".to_string(),
        rollout_path: "/tmp/rollout-123.jsonl".to_string(),
        created_at: 1_700_000_000,
        updated_at: 1_700_000_100,
        source: "cli".to_string(),
        model_provider: "openai".to_string(),
        model: Some("gpt-5".to_string()),
        reasoning_effort: reasoning_effort.map(str::to_string),
        cwd: "/tmp/workspace".to_string(),
        cli_version: "0.0.0".to_string(),
        title: String::new(),
        preview: String::new(),
        tokens_used: 1,
        first_user_message: String::new(),
        archived_at: None,
        git_sha: None,
        git_branch: None,
        git_origin_url: None,
    }
}

fn expected_thread_metadata(reasoning_effort: Option<ReasoningEffort>) -> ThreadMetadata {
    ThreadMetadata {
        id: ThreadId::from_string("00000000-0000-0000-0000-000000000123")
            .expect("valid thread id"),
        rollout_path: "/tmp/rollout-123.jsonl".to_string(),
        created_at: 1_700_000_000_000,
        updated_at: 1_700_000_100_000,
        source: "cli".to_string(),
        model_provider: "openai".to_string(),
        model: Some("gpt-5".to_string()),
        reasoning_effort,
        cwd: "/tmp/workspace".to_string(),
        cli_version: "0.0.0".to_string(),
        title: String::new(),
        preview: None,
        tokens_used: 1,
        first_user_message: None,
        archived_at: None,
        git_sha: None,
        git_branch: None,
        git_origin_url: None,
    }
}

#[test]
fn thread_row_parses_reasoning_effort() {
    let metadata = ThreadMetadata::try_from(thread_row(Some("high")))
        .expect("thread metadata should parse");

    assert_eq!(
        metadata,
        expected_thread_metadata(Some(ReasoningEffort::High))
    );
}

#[test]
fn thread_row_ignores_unknown_reasoning_effort_values() {
    let metadata = ThreadMetadata::try_from(thread_row(Some("future")))
        .expect("thread metadata should parse");

    assert_eq!(metadata, expected_thread_metadata(None));
}

#[test]
fn thread_row_rejects_bad_id() {
    let mut row = thread_row(None);
    row.id = "nope".to_string();
    let err = ThreadMetadata::try_from(row).unwrap_err();
    assert_eq!(err, ThreadMetadataError::InvalidThreadId("nope".to_string()));
    assert_eq!(err.message(), "invalid thread id: nope");
}

#[test]
fn thread_row_reads_archive_seconds_and_non_empty_texts() {
    let mut row = thread_row(None);
    row.archived_at = Some(1_700_000_200);
    row.preview = "hello".to_string();
    row.first_user_message = "first".to_string();
    let m = ThreadMetadata::try_from(row).unwrap();
    assert_eq!(m.archived_at, Some(1_700_000_200_000));
    assert_eq!(m.preview, Some("hello".to_string()));
    assert_eq!(m.first_user_message, Some("first".to_string()));
}

#[test]
fn stored_times_before_2020_are_seconds() {
    assert_eq!(epoch_millis_to_datetime(1_700_000_000), Ok(1_700_000_000_000));
    assert_eq!(
        epoch_millis_to_datetime(1_700_000_000_000),
        Ok(1_700_000_000_000)
    );
    assert_eq!(epoch_seconds_to_datetime(2), Ok(2_000));
    assert_eq!(
        epoch_millis_to_datetime(i64::MAX),
        Err(ThreadMetadataError::InvalidTimestampMillis(i64::MAX))
    );
    assert_eq!(
        ThreadMetadataError::InvalidTimestampMillis(-5).message(),
        "invalid unix timestamp millis: -5"
    );
}

fn base() -> ThreadMetadata {
    expected_thread_metadata(None)
}

#[test]
fn diff_fields_lists_differences_in_order() {
    let a = base();
    let mut b = base();
    assert!(a.diff_fields(&b).is_empty());
    b.title = "t".to_string();
    b.tokens_used = 9;
    b.model = None;
    assert_eq!(a.diff_fields(&b), vec!["model", "title", "tokens_used"]);
}

#[test]
fn prefer_existing_git_info_keeps_known_values() {
    let mut fresh = base();
    fresh.git_branch = Some("new".to_string());
    let mut existing = base();
    existing.git_sha = Some("abc".to_string());
    fresh.prefer_existing_git_info(&existing);
    assert_eq!(fresh.git_sha, Some("abc".to_string()));
    assert_eq!(fresh.git_branch, Some("new".to_string()));
}

#[test]
fn prefer_existing_explicit_title() {
    let mut existing = base();
    existing.title = "My title".to_string();
    existing.first_user_message = Some("question".to_string());
    let mut fresh = base();
    fresh.title = "question".to_string();
    fresh.first_user_message = Some(" question ".to_string());
    fresh.prefer_existing_explicit_title(&existing);
    assert_eq!(fresh.title, "My title");

    let mut derived = base();
    derived.title = "question".to_string();
    derived.first_user_message = Some("question".to_string());
    let mut other = base();
    other.title = "Other".to_string();
    other.prefer_existing_explicit_title(&derived);
    assert_eq!(other.title, "Other");
}

#[test]
fn builder_fills_defaults() {
    let id = ThreadId::from_string("00000000-0000-0000-0000-000000000123").unwrap();
    let builder = ThreadMetadataBuilder::new(
        id,
        "/tmp/r.jsonl".to_string(),
        1_700_000_000_123,
        SessionSource::Custom("ci".to_string()),
    );
    let m = builder.build("openai");
    assert_eq!(m.source, "{\"custom\":\"ci\"}");
    assert_eq!(m.model_provider, "openai");
    assert_eq!(m.created_at, 1_700_000_000_123);
    assert_eq!(m.updated_at, 1_700_000_000_123);
    assert_eq!(m.cli_version, "");
    let cli = ThreadMetadataBuilder::new(
        ThreadId::from_string("00000000-0000-0000-0000-000000000123").unwrap(),
        "/tmp/r.jsonl".to_string(),
        1_700_000_000_123,
        SessionSource::Cli,
    )
    .build("x");
    assert_eq!(cli.source, "cli");
    assert_eq!(
        anchor_from_item(&cli, SortKey::UpdatedAt),
        Some(Anchor {
            ts_ms: 1_700_000_000_123
        })
    );
}

fn user_message(text: &str) -> RolloutItem {
    RolloutItem::ResponseItem(ResponseItem::Message {
        id: None,
        role: "user".to_string(),
        content: vec![ContentItem::InputText {
            text: text.to_string(),
        }],
        phase: None,
    })
}

#[test]
fn rollout_lines_update_metadata() {
    let mut m = base();
    m.model_provider = String::new();
    let meta = RolloutItem::SessionMeta(SessionMetaLine {
        meta: SessionMeta {
            id: ThreadId::from_string("00000000-0000-0000-0000-000000000123").unwrap(),
            forked_from_id: None,
            timestamp: String::new(),
            cwd: "/repo".to_string(),
            originator: String::new(),
            cli_version: "1.2.3".to_string(),
            source: SessionSource::Exec,
            model_provider: None,
            base_instructions: None,
            dynamic_tools: None,
        },
        git: Some(GitInfo {
            commit_hash: Some(GitSha::new("deadbeef")),
            branch: Some("main".to_string()),
            repository_url: None,
        }),
    });
    apply_rollout_item(&mut m, &meta, "fallback");
    assert_eq!(m.source, "exec");
    assert_eq!(m.cli_version, "1.2.3");
    assert_eq!(m.cwd, "/repo");
    assert_eq!(m.git_sha, Some("deadbeef".to_string()));
    assert_eq!(m.git_branch, Some("main".to_string()));
    assert_eq!(m.model_provider, "fallback");

    let turn = RolloutItem::TurnContext(TurnContextItem {
        turn_id: None,
        cwd: "/elsewhere".to_string(),
        current_date: None,
        timezone: None,
        model: "gpt-5".to_string(),
        effort: Some(ReasoningEffort::Low),
        summary: ReasoningSummary::Auto,
    });
    apply_rollout_item(&mut m, &turn, "fallback");
    assert_eq!(m.cwd, "/repo");
    assert_eq!(m.model, Some("gpt-5".to_string()));
    assert_eq!(m.reasoning_effort, Some(ReasoningEffort::Low));

    apply_rollout_item(
        &mut m,
        &user_message("preamble ## My request for Codex:  fix it  "),
        "fallback",
    );
    assert_eq!(m.first_user_message, Some("fix it".to_string()));
    assert_eq!(m.preview, Some("fix it".to_string()));
    assert_eq!(m.title, "fix it");

    apply_rollout_item(&mut m, &user_message("later"), "fallback");
    assert_eq!(m.first_user_message, Some("fix it".to_string()));

    let count = RolloutItem::EventMsg(RolloutEvent::TokenCount {
        info: Some(TokenUsageInfo {
            total_token_usage: TokenUsage {
                input_tokens: 5,
                cached_input_tokens: 0,
                output_tokens: 2,
                reasoning_output_tokens: 0,
                total_tokens: 7,
            },
            last_token_usage: TokenUsage::default(),
            model_context_window: None,
        }),
    });
    assert!(rollout_item_affects_thread_metadata(&count));
    apply_rollout_item(&mut m, &count, "fallback");
    assert_eq!(m.tokens_used, 7);
}

#[test]
fn other_thread_metadata_line_is_ignored() {
    let mut m = base();
    let meta = RolloutItem::SessionMeta(SessionMetaLine {
        meta: SessionMeta {
            id: ThreadId::from_string("00000000-0000-0000-0000-000000000999").unwrap(),
            forked_from_id: None,
            timestamp: String::new(),
            cwd: "/repo".to_string(),
            originator: String::new(),
            cli_version: "1.2.3".to_string(),
            source: SessionSource::Exec,
            model_provider: Some("p".to_string()),
            base_instructions: None,
            dynamic_tools: None,
        },
        git: None,
    });
    apply_rollout_item(&mut m, &meta, "fallback");
    assert_eq!(m, base());
}

#[test]
fn image_only_message_gets_placeholder_preview() {
    let mut m = base();
    let item = RolloutItem::ResponseItem(ResponseItem::Message {
        id: None,
        role: "user".to_string(),
        content: vec![ContentItem::InputImage {
            image_url: "data:".to_string(),
        }],
        phase: None,
    });
    assert!(rollout_item_affects_thread_metadata(&item));
    apply_rollout_item(&mut m, &item, "fallback");
    assert_eq!(m.preview, Some("[Image]".to_string()));
    assert_eq!(m.title, "");
    assert!(!rollout_item_affects_thread_metadata(&RolloutItem::EventMsg(
        RolloutEvent::Other
    )));
}
