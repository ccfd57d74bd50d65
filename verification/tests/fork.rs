use codex_core::fork::{
    append_interrupted_boundary, fork_history_from_snapshot, snapshot_turn_state,
    truncate_before_nth_user_message, ExplicitActiveTurn, ForkSnapshot, SnapshotTurnState,
};
use codex_core::models::{ContentItem, ResponseItem};
use codex_core::protocol::{TurnAbortReason, TurnAbortedEvent, TurnCompleteEvent};
use codex_core::rollout::{InitialHistory, RolloutEvent, RolloutItem};

fn message(role: &str, text: &str) -> RolloutItem {
    RolloutItem::ResponseItem(ResponseItem::Message {
        id: None,
        role: role.to_string(),
        content: vec![ContentItem::InputText {
            text: text.to_string(),
        }],
        phase: None,
    })
}

fn complete() -> RolloutItem {
    RolloutItem::EventMsg(RolloutEvent::TurnComplete(TurnCompleteEvent {
        turn_id: "t1".to_string(),
        last_agent_message: None,
        completed_at: None,
        duration_ms: None,
        time_to_first_token_ms: None,
    }))
}

fn interrupted(turn_id: Option<&str>) -> RolloutItem {
    RolloutItem::EventMsg(RolloutEvent::TurnAborted(TurnAbortedEvent {
        turn_id: turn_id.map(str::to_string),
        reason: TurnAbortReason::Interrupted,
        completed_at: None,
        duration_ms: None,
    }))
}

#[test]
fn fork_snapshot_from_index() {
    assert_eq!(
        ForkSnapshot::from(3usize),
        ForkSnapshot::TruncateBeforeNthUserMessage(3)
    );
}

#[test]
fn finished_history_is_not_mid_turn() {
    let items = vec![message("user", "q"), message("assistant", "a"), complete()];
    let state = snapshot_turn_state(&items, None);
    assert_eq!(
        state,
        SnapshotTurnState {
            ends_mid_turn: false,
            active_turn_id: None,
            active_turn_start_index: None
        }
    );
}

#[test]
fn unanswered_user_message_is_mid_turn() {
    let items = vec![message("user", "q"), message("assistant", "partial")];
    assert!(snapshot_turn_state(&items, None).ends_mid_turn);
    assert!(!snapshot_turn_state(&Vec::new(), None).ends_mid_turn);
}

#[test]
fn explicit_turn_decides() {
    let items = vec![message("user", "q"), complete()];
    let state = snapshot_turn_state(
        &items,
        Some(ExplicitActiveTurn {
            turn_id: "t9".to_string(),
            finished: false,
            start_index: Some(0),
        }),
    );
    assert_eq!(
        state,
        SnapshotTurnState {
            ends_mid_turn: true,
            active_turn_id: Some("t9".to_string()),
            active_turn_start_index: Some(0)
        }
    );
    let done = snapshot_turn_state(
        &items,
        Some(ExplicitActiveTurn {
            turn_id: "t9".to_string(),
            finished: true,
            start_index: Some(0),
        }),
    );
    assert!(!done.ends_mid_turn);
}

#[test]
fn truncating_a_running_turn_cuts_at_its_start() {
    let items = vec![
        message("user", "one"),
        message("assistant", "a1"),
        complete(),
        message("user", "two"),
        message("assistant", "partial"),
    ];
    let state = snapshot_turn_state(&items, None);
    let forked = truncate_before_nth_user_message(InitialHistory::Forked(items.clone()), 5, &state);
    assert_eq!(forked, InitialHistory::Forked(items[..3].to_vec()));
    let first = truncate_before_nth_user_message(InitialHistory::Forked(items.clone()), 0, &state);
    assert_eq!(first, InitialHistory::New);
}

#[test]
fn interrupted_fork_closes_the_running_turn() {
    let items = vec![message("user", "q"), message("assistant", "partial")];
    let marker = match message("user", "<turn_aborted />") {
        RolloutItem::ResponseItem(item) => item,
        _ => unreachable!(),
    };
    let forked = fork_history_from_snapshot(
        ForkSnapshot::Interrupted,
        InitialHistory::Forked(items.clone()),
        None,
        Some(marker.clone()),
    );
    let mut expected = items.clone();
    expected.push(RolloutItem::ResponseItem(marker));
    expected.push(interrupted(None));
    assert_eq!(forked, InitialHistory::Forked(expected));

    let finished = vec![message("user", "q"), complete()];
    assert_eq!(
        fork_history_from_snapshot(
            ForkSnapshot::Interrupted,
            InitialHistory::Forked(finished.clone()),
            None,
            None
        ),
        InitialHistory::Forked(finished)
    );
}

#[test]
fn interrupted_boundary_on_new_history() {
    assert_eq!(
        append_interrupted_boundary(InitialHistory::New, Some("t".to_string()), None),
        InitialHistory::Forked(vec![interrupted(Some("t"))])
    );
}
