use codex_core::models::{BaseInstructions, ContentItem, DynamicToolSpec, ResponseItem};
use codex_core::protocol::{SessionMeta, SessionMetaLine, ThreadId, TurnCompleteEvent};
use codex_core::rollout::{
    fork_turn_positions_in_rollout, truncate_rollout_before_nth_user_message_from_start,
    truncate_rollout_to_last_n_fork_turns, user_message_positions_in_rollout, InitialHistory,
    ResumedHistory, RolloutEvent, RolloutItem,
};
use codex_core::session_source::SessionSource;

fn message(role: &str, text: &str) -> ResponseItem {
    ResponseItem::Message {
        id: None,
        role: role.to_string(),
        content: vec![ContentItem::InputText {
            text: text.to_string(),
        }],
        phase: None,
    }
}

fn user(text: &str) -> RolloutItem {
    RolloutItem::ResponseItem(message("user", text))
}

fn assistant(text: &str) -> RolloutItem {
    RolloutItem::ResponseItem(message("assistant", text))
}

fn thread_id(s: &str) -> ThreadId {
    ThreadId::from_string(s).expect("valid thread id")
}

fn meta(id: &str, dynamic_tools: Option<Vec<DynamicToolSpec>>) -> RolloutItem {
    RolloutItem::SessionMeta(SessionMetaLine {
        meta: SessionMeta {
            id: thread_id(id),
            forked_from_id: None,
            timestamp: String::new(),
            cwd: "/work".to_string(),
            originator: String::new(),
            cli_version: String::new(),
            source: SessionSource::VSCode,
            model_provider: None,
            base_instructions: None,
            dynamic_tools,
        },
        git: None,
    })
}

#[test]
fn truncates_rollout_to_last_n_fork_turns_drops_startup_prefix_even_when_under_limit() {
    let rollout = vec![
        RolloutItem::ResponseItem(message("developer", "startup developer context")),
        RolloutItem::ResponseItem(message("user", "current task")),
        RolloutItem::ResponseItem(message("assistant", "answer")),
    ];

    let truncated = truncate_rollout_to_last_n_fork_turns(rollout.clone(), 2);
    let expected = rollout[1..].to_vec();

    assert_eq!(truncated, expected);
}

#[test]
fn last_fork_turns_keep_only_the_latest_turns() {
    let rollout = vec![
        user("one"),
        assistant("a1"),
        user("two"),
        assistant("a2"),
        user("three"),
        assistant("a3"),
    ];
    assert_eq!(
        truncate_rollout_to_last_n_fork_turns(rollout.clone(), 2),
        rollout[2..].to_vec()
    );
    assert_eq!(truncate_rollout_to_last_n_fork_turns(rollout.clone(), 0), Vec::new());
    assert_eq!(
        truncate_rollout_to_last_n_fork_turns(vec![assistant("only")], 3),
        Vec::new()
    );
}

#[test]
fn user_positions_skip_context_messages() {
    let rollout = vec![
        user("<environment_context>\n</environment_context>"),
        user("real"),
        assistant("a"),
        RolloutItem::EventMsg(RolloutEvent::Other),
        user("again"),
    ];
    assert_eq!(user_message_positions_in_rollout(&rollout), vec![1, 4]);
    assert_eq!(fork_turn_positions_in_rollout(&rollout), vec![1, 4]);
}

#[test]
fn truncate_before_nth_user_message() {
    let rollout = vec![user("one"), assistant("a1"), user("two"), assistant("a2")];
    assert_eq!(
        truncate_rollout_before_nth_user_message_from_start(rollout.clone(), 1),
        rollout[..2].to_vec()
    );
    assert_eq!(
        truncate_rollout_before_nth_user_message_from_start(rollout.clone(), 0),
        Vec::new()
    );
    assert_eq!(
        truncate_rollout_before_nth_user_message_from_start(rollout.clone(), 2),
        rollout.clone()
    );
    assert_eq!(
        truncate_rollout_before_nth_user_message_from_start(rollout.clone(), usize::MAX),
        rollout
    );
}

#[test]
fn initial_history_restores_dynamic_tools_from_session_meta() {
    let dynamic_tools = vec![DynamicToolSpec {
        namespace: Some("codex_app".to_string()),
        name: "geo_lookup".to_string(),
        description: "lookup a city".to_string(),
        input_schema: "{\"type\":\"object\",\"properties\":{\"city\":{\"type\":\"string\"}},\"required\":[\"city\"],\"additionalProperties\":false}".to_string(),
        defer_loading: true,
    }];
    let history = vec![meta(
        "11111111-1111-1111-1111-111111111111",
        Some(dynamic_tools.clone()),
    )];

    assert_eq!(
        InitialHistory::Resumed(ResumedHistory {
            conversation_id: thread_id("22222222-2222-2222-2222-222222222222"),
            history: history.clone(),
            rollout_path: None,
        })
        .get_dynamic_tools(),
        Some(dynamic_tools.clone())
    );
    assert_eq!(
        InitialHistory::Forked(history).get_dynamic_tools(),
        Some(dynamic_tools)
    );
    assert_eq!(InitialHistory::New.get_dynamic_tools(), None);
}

#[test]
fn initial_history_reads_session_metadata() {
    let mut line = meta("11111111-1111-1111-1111-111111111111", None);
    if let RolloutItem::SessionMeta(l) = &mut line {
        l.meta.base_instructions = Some(BaseInstructions {
            text: "be brief".to_string(),
        });
        l.meta.forked_from_id = Some(thread_id("33333333-3333-3333-3333-333333333333"));
    }
    let items = vec![user("hi"), line];
    let forked = InitialHistory::Forked(items.clone());
    assert_eq!(forked.session_cwd(), Some("/work".to_string()));
    assert_eq!(
        forked.get_base_instructions(),
        Some(BaseInstructions {
            text: "be brief".to_string()
        })
    );
    assert_eq!(
        forked.forked_from_id(),
        Some(thread_id("11111111-1111-1111-1111-111111111111"))
    );
    let resumed = InitialHistory::Resumed(ResumedHistory {
        conversation_id: thread_id("22222222-2222-2222-2222-222222222222"),
        history: items.clone(),
        rollout_path: Some("/tmp/r.jsonl".to_string()),
    });
    assert_eq!(
        resumed.forked_from_id(),
        Some(thread_id("33333333-3333-3333-3333-333333333333"))
    );
    assert_eq!(InitialHistory::Cleared.session_cwd(), None);
    assert_eq!(resumed.into_rollout_items(), items);
    assert_eq!(InitialHistory::New.into_rollout_items(), Vec::new());
}

#[test]
fn rollout_events_carry_turn_ends() {
    let item = RolloutItem::EventMsg(RolloutEvent::TurnComplete(TurnCompleteEvent {
        turn_id: "t".to_string(),
        last_agent_message: None,
        completed_at: None,
        duration_ms: None,
        time_to_first_token_ms: None,
    }));
    assert!(matches!(item, RolloutItem::EventMsg(RolloutEvent::TurnComplete(_))));
}

#[test]
fn event_messages_of_histories() {
    let done = RolloutEvent::TurnComplete(TurnCompleteEvent {
        turn_id: "t".to_string(),
        last_agent_message: Some("ok".to_string()),
        completed_at: None,
        duration_ms: Some(5),
        time_to_first_token_ms: None,
    });
    let items = vec![
        user("hi"),
        RolloutItem::EventMsg(RolloutEvent::Other),
        assistant("yo"),
        RolloutItem::EventMsg(done.clone()),
    ];
    assert_eq!(
        InitialHistory::Forked(items).get_event_msgs(),
        Some(vec![RolloutEvent::Other, done])
    );
    assert_eq!(InitialHistory::New.get_event_msgs(), None);
    assert_eq!(InitialHistory::Cleared.get_event_msgs(), None);
}
