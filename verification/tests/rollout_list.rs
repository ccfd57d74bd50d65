use codex_core::models::{ContentItem, ResponseItem};
use codex_core::rollout::RolloutItem;
use codex_core::rollout_list::{
    build_next_cursor, candidate_step, created_visit_step, finish_page, format_rfc3339, parse_cursor,
    parse_timestamp_uuid_from_filename, response_item_preview, rollout_date_parts, sort_candidates,
    thread_item_from_summary, AnchorState, HeadTailSummary, ProviderMatcher, ThreadCandidate,
    ThreadItem, ThreadSortKey, VisitStep, MAX_SCAN_FILES,
};
use codex_core::session_source::SessionSource;

fn user(parts: Vec<ContentItem>) -> ResponseItem {
    ResponseItem::Message {
        id: None,
        role: "user".to_string(),
        content: parts,
        phase: None,
    }
}

#[test]
fn anchor_skips_until_strictly_older() {
    let mut state = AnchorState::new(Some(100));
    assert!(state.should_skip(150));
    assert!(state.should_skip(100));
    assert!(!state.should_skip(99));
    assert!(!state.should_skip(500));
    let mut open = AnchorState::new(None);
    assert!(!open.should_skip(i128::MAX));
}

#[test]
fn provider_filters() {
    assert!(ProviderMatcher::new(vec![], "openai").is_none());
    let m = ProviderMatcher::new(vec!["openai".to_string(), "azure".to_string()], "openai").unwrap();
    assert!(m.matches(Some("azure")));
    assert!(!m.matches(Some("other")));
    assert!(m.matches(None));
    let m2 = ProviderMatcher::new(vec!["azure".to_string()], "openai").unwrap();
    assert!(!m2.matches(None));
}

#[test]
fn previews_of_user_messages() {
    let text = user(vec![ContentItem::InputText {
        text: "context\n## My request for Codex:\n  fix the bug ".to_string(),
    }]);
    assert_eq!(response_item_preview(&text), Some("fix the bug".to_string()));
    let image = user(vec![ContentItem::InputImage {
        image_url: "data:".to_string(),
    }]);
    assert_eq!(response_item_preview(&image), Some("[Image]".to_string()));
    let blank = user(vec![ContentItem::InputText { text: "  ".to_string() }]);
    assert_eq!(response_item_preview(&blank), None);
    let assistant = ResponseItem::Message {
        id: None,
        role: "assistant".to_string(),
        content: vec![ContentItem::OutputText { text: "hi".to_string() }],
        phase: None,
    };
    assert_eq!(response_item_preview(&assistant), None);
}

#[test]
fn date_parts_of_rollout_names() {
    assert_eq!(
        rollout_date_parts("rollout-2025-03-09T10-11-12-abc.jsonl"),
        Some(("2025".to_string(), "03".to_string(), "09".to_string()))
    );
    assert_eq!(rollout_date_parts("other-2025-03-09T10.jsonl"), None);
    assert_eq!(rollout_date_parts("rollout-2025"), None);
}

const UUID: &str = "0199a1b2-c3d4-7e5f-8a9b-0c1d2e3f4a5b";

fn item_at(path: &str, updated_at: Option<&str>) -> ThreadItem {
    ThreadItem {
        path: path.to_string(),
        thread_id: None,
        first_user_message: None,
        preview: Some("p".to_string()),
        cwd: None,
        git_branch: None,
        git_sha: None,
        git_origin_url: None,
        source: None,
        model_provider: None,
        cli_version: None,
        created_at: None,
        updated_at: updated_at.map(str::to_string),
    }
}

#[test]
fn cursors_parse_rfc3339_and_file_times() {
    assert_eq!(parse_cursor("1970-01-01T00:00:01Z").map(|c| c.timestamp()), Some(1_000_000_000));
    assert_eq!(parse_cursor("1970-01-01T00-00-02").map(|c| c.timestamp()), Some(2_000_000_000));
    assert_eq!(parse_cursor("1970-01-01T00:00:01Z|x"), None);
    assert_eq!(parse_cursor("yesterday"), None);
}

#[test]
fn file_names_give_time_and_uuid() {
    let name = format!("rollout-2025-01-02T03-04-05-{UUID}.jsonl");
    let (ts, id) = parse_timestamp_uuid_from_filename(&name).unwrap();
    assert_eq!(ts, 1_735_787_045_000_000_000);
    assert_eq!(id, UUID);
    assert_eq!(parse_timestamp_uuid_from_filename(&format!("rollout-2025-01-02T03-04-05-{UUID}.json")), None);
    assert_eq!(parse_timestamp_uuid_from_filename("rollout-2025-01-02T03-04-05-notauuid.jsonl"), None);
    assert_eq!(parse_timestamp_uuid_from_filename(&format!("x-2025-01-02T03-04-05-{UUID}.jsonl")), None);
}

#[test]
fn times_format_as_rfc3339() {
    assert_eq!(format_rfc3339(0), Some("1970-01-01T00:00:00Z".to_string()));
    assert_eq!(format_rfc3339(1_500_000_000), Some("1970-01-01T00:00:01.5Z".to_string()));
}

#[test]
fn next_cursor_by_sort_key() {
    let path = format!("/s/2025/01/02/rollout-2025-01-02T03-04-05-{UUID}.jsonl");
    let items = vec![item_at(&path, Some("1970-01-01T00:00:07Z"))];
    assert_eq!(
        build_next_cursor(&items, ThreadSortKey::CreatedAt).map(|c| c.timestamp()),
        Some(1_735_787_045_000_000_000)
    );
    assert_eq!(
        build_next_cursor(&items, ThreadSortKey::UpdatedAt).map(|c| c.timestamp()),
        Some(7_000_000_000)
    );
    assert_eq!(build_next_cursor(&vec![], ThreadSortKey::CreatedAt), None);
    let page = finish_page(items, 3, false, ThreadSortKey::CreatedAt);
    assert_eq!(page.next_cursor, None);
    assert!(!page.reached_scan_cap);
    let capped = finish_page(vec![item_at(&path, None)], MAX_SCAN_FILES, false, ThreadSortKey::CreatedAt);
    assert!(capped.reached_scan_cap);
    assert!(capped.next_cursor.is_some());
}

#[test]
fn visit_steps() {
    let mut anchor = AnchorState::new(Some(100));
    assert_eq!(candidate_step(0, 2, &mut anchor, 150), VisitStep::Skip);
    assert_eq!(candidate_step(0, 2, &mut anchor, 50), VisitStep::Build);
    assert_eq!(candidate_step(2, 2, &mut anchor, 40), VisitStep::StopWithMore);
    let mut open = AnchorState::new(None);
    assert_eq!(created_visit_step(MAX_SCAN_FILES, 2, 2, &mut open, 1), VisitStep::StopWithMore);
    assert_eq!(created_visit_step(MAX_SCAN_FILES, 1, 2, &mut open, 1), VisitStep::Build);
}

#[test]
fn candidates_sort_newest_first() {
    let c = |path: &str, id: &str, t: Option<i128>| ThreadCandidate {
        path: path.to_string(),
        id: id.to_string(),
        updated_at: t,
    };
    let sorted = sort_candidates(vec![
        c("a", "1", Some(5)),
        c("b", "2", None),
        c("c", "3", Some(9)),
        c("d", "4", Some(5)),
    ]);
    let paths: Vec<&str> = sorted.iter().map(|x| x.path.as_str()).collect();
    assert_eq!(paths, vec!["c", "d", "a", "b"]);
}

#[test]
fn head_summary_reads_meta_and_first_preview() {
    let mut s = HeadTailSummary::default();
    assert!(s.wants_more_lines(0, 10));
    let user = ResponseItem::Message {
        id: None,
        role: "user".to_string(),
        content: vec![ContentItem::InputText { text: "hello".to_string() }],
        phase: None,
    };
    s.absorb_line(&"t1".to_string(), &RolloutItem::ResponseItem(user.clone()));
    assert_eq!(s.created_at, Some("t1".to_string()));
    assert_eq!(s.preview, Some("hello".to_string()));
    assert_eq!(s.first_user_message, Some("hello".to_string()));
    assert!(!s.is_complete());
    assert!(!s.wants_more_lines(10, 10));
    s.saw_session_meta = true;
    assert!(s.is_complete());
    let mut waiting = HeadTailSummary::default();
    waiting.saw_session_meta = true;
    assert!(waiting.wants_more_lines(209, 10));
    assert!(!waiting.wants_more_lines(210, 10));
}

#[test]
fn thread_items_need_meta_and_preview() {
    let mut s = HeadTailSummary::default();
    s.saw_session_meta = true;
    s.preview = Some("p".to_string());
    s.created_at = Some("c".to_string());
    s.source = Some(SessionSource::Cli);
    let item = thread_item_from_summary("x".to_string(), s, &vec![], None, true, None).unwrap();
    assert_eq!(item.updated_at, Some("c".to_string()));
    let mut t = HeadTailSummary::default();
    t.saw_session_meta = true;
    t.preview = Some("p".to_string());
    t.source = Some(SessionSource::Cli);
    assert!(thread_item_from_summary("x".to_string(), t, &vec![SessionSource::Exec], None, true, None).is_none());
    let mut u = HeadTailSummary::default();
    u.saw_session_meta = true;
    u.preview = Some("p".to_string());
    assert!(thread_item_from_summary("x".to_string(), u, &vec![], None, false, Some("u".to_string())).is_none());
    assert!(thread_item_from_summary("x".to_string(), HeadTailSummary::default(), &vec![], None, true, None).is_none());
}
