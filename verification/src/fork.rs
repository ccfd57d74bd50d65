//! Forking a thread: which part of its history the new thread starts from,
//! and how a fork of a turn still running is closed off.
use vstd::prelude::*;
use crate::models::ResponseItem;
use crate::protocol::{TurnAbortReason, TurnAbortedEvent};
use crate::rollout::{
    cut_before_nth_user_message, history_items, lemma_user_positions, user_positions,
    truncate_rollout_before_nth_user_message_from_start, user_message_positions_in_rollout,
    InitialHistory, RolloutEvent, RolloutItem,
};

verus! {

/// The point of a thread's history a fork starts from.
#[derive(Debug, Clone, Copy, PartialEq, Eq, Structural)]
pub enum ForkSnapshot {
    /// Everything before the user's `n`-th message (counting from zero).
    TruncateBeforeNthUserMessage(usize),
    /// Everything, with a turn still running marked as interrupted.
    Interrupted,
}

impl From<usize> for ForkSnapshot {
    fn from(value: usize) -> (r: ForkSnapshot) {
        ForkSnapshot::TruncateBeforeNthUserMessage(value)
    }
}

impl vstd::std_specs::convert::FromSpecImpl<usize> for ForkSnapshot {
    open spec fn obeys_from_spec() -> bool {
        true
    }

    open spec fn from_spec(value: usize) -> ForkSnapshot {
        ForkSnapshot::TruncateBeforeNthUserMessage(value)
    }
}

/// What the thread's history builder knows of a turn it saw start by id.
#[derive(Debug, Clone, PartialEq, Eq)]
pub struct ExplicitActiveTurn {
    pub turn_id: String,
    /// Whether the builder recorded the turn as no longer in progress.
    pub finished: bool,
    /// Where the turn starts in the rollout, when known.
    pub start_index: Option<usize>,
}

/// Whether the history ends in the middle of a turn, and which.
#[derive(Debug, Clone, PartialEq, Eq)]
pub struct SnapshotTurnState {
    pub ends_mid_turn: bool,
    pub active_turn_id: Option<String>,
    pub active_turn_start_index: Option<usize>,
}

/// Whether a rollout line records the end of a turn.
pub open spec fn ends_turn(item: RolloutItem) -> bool {
    item matches RolloutItem::EventMsg(e) && (e is TurnComplete || e is TurnAborted)
}

/// Whether no line of `items` from index `from` on records the end of a turn.
pub open spec fn no_turn_end_from(items: Seq<RolloutItem>, from: int) -> bool {
    forall|j: int| from <= j < items.len() ==> !ends_turn(#[trigger] items[j])
}

/// The state of the history's last turn: from the builder when it saw a turn
/// start by id, else open exactly when nothing ended a turn after the last
/// user message.
pub open spec fn snapshot_state_of(items: Seq<RolloutItem>, explicit: Option<ExplicitActiveTurn>) -> (bool, Option<Seq<char>>, Option<usize>) {
    match explicit {
        Some(t) => if t.finished {
            (false, None, None)
        } else {
            (true, Some(t.turn_id@), t.start_index)
        },
        None => {
            let p = user_positions(items);
            if p.len() == 0 {
                (false, None, None)
            } else {
                (no_turn_end_from(items, p.last() + 1), None, None)
            }
        },
    }
}

/// The id of the running turn the builder reports, if any.
pub open spec fn active_turn_id_of(explicit: Option<ExplicitActiveTurn>) -> Option<String> {
    match explicit {
        Some(t) => if t.finished {
            None
        } else {
            Some(t.turn_id)
        },
        None => None,
    }
}

/// The state as plain values.
pub open spec fn state_view(s: SnapshotTurnState) -> (bool, Option<Seq<char>>, Option<usize>) {
    (
        s.ends_mid_turn,
        match s.active_turn_id {
            Some(t) => Some(t@),
            None => None,
        },
        s.active_turn_start_index,
    )
}

/// Whether the history ends in the middle of a turn.
pub fn snapshot_turn_state(items: &Vec<RolloutItem>, explicit: Option<ExplicitActiveTurn>) -> (r:
    SnapshotTurnState)
    ensures
        state_view(r) == snapshot_state_of(items@, explicit),
        r.active_turn_id == active_turn_id_of(explicit),
{
    match explicit {
        Some(turn) => {
            if turn.finished {
                return SnapshotTurnState {
                    ends_mid_turn: false,
                    active_turn_id: None,
                    active_turn_start_index: None,
                };
            }
            return SnapshotTurnState {
                ends_mid_turn: true,
                active_turn_id: Some(turn.turn_id),
                active_turn_start_index: turn.start_index,
            };
        },
        None => {},
    }
    proof {
        lemma_user_positions(items@);
    }
    let positions = user_message_positions_in_rollout(items);
    if positions.len() == 0 {
        return SnapshotTurnState {
            ends_mid_turn: false,
            active_turn_id: None,
            active_turn_start_index: None,
        };
    }
    let n = items.len();
    let last = positions[positions.len() - 1];
    assert(last as int == user_positions(items@)[positions@.len() - 1]);
    assert(last < n);
    let mut j: usize = last + 1;
    let mut ended = false;
    while j < items.len()
        invariant
            last < items.len(),
            last + 1 <= j <= items.len(),
            ended == exists|q: int| last + 1 <= q < j && ends_turn(#[trigger] items@[q]),
        decreases items.len() - j,
    {
        let ends = match &items[j] {
            RolloutItem::EventMsg(RolloutEvent::TurnComplete(_)) => true,
            RolloutItem::EventMsg(RolloutEvent::TurnAborted(_)) => true,
            _ => false,
        };
        if ends {
            ended = true;
        }
        j = j + 1;
    }
    SnapshotTurnState { ends_mid_turn: !ended, active_turn_id: None, active_turn_start_index: None }
}

/// A history of the given lines: a new thread when there are none.
pub open spec fn history_of(items: Seq<RolloutItem>, h: InitialHistory) -> bool {
    if items.len() == 0 {
        h is New
    } else {
        h matches InitialHistory::Forked(v) && v@ == items
    }
}

/// Where a fork before the user's `n`-th message is cut: when the history
/// ends mid-turn and there are not more than `n` user messages, at the start
/// of the running turn (or its last user message), keeping all when neither
/// is known; otherwise before the `n`-th user message.
pub open spec fn fork_cut(items: Seq<RolloutItem>, n: usize, ends_mid_turn: bool, start: Option<usize>) -> int {
    let p = user_positions(items);
    if ends_mid_turn && n >= p.len() {
        match start {
            Some(c) => c as int,
            None => if p.len() > 0 {
                p.last()
            } else {
                items.len() as int
            },
        }
    } else {
        cut_before_nth_user_message(items, n)
    }
}

/// The history a fork before the user's `n`-th message starts from.
pub fn truncate_before_nth_user_message(history: InitialHistory, n: usize, snapshot_state: &SnapshotTurnState) -> (r: InitialHistory)
    requires
        snapshot_state.active_turn_start_index matches Some(c) ==> c <= history_items(history).len(),
    ensures
        0 <= fork_cut(
            history_items(history),
            n,
            snapshot_state.ends_mid_turn,
            snapshot_state.active_turn_start_index,
        ) <= history_items(history).len(),
        history_of(
            history_items(history).take(
                fork_cut(
                    history_items(history),
                    n,
                    snapshot_state.ends_mid_turn,
                    snapshot_state.active_turn_start_index,
                ),
            ),
            r,
        ),
{
    let mut items = history.into_rollout_items();
    let ghost all = items@;
    proof {
        lemma_user_positions(all);
    }
    let user_positions = user_message_positions_in_rollout(&items);
    let rolled = if snapshot_state.ends_mid_turn && n >= user_positions.len() {
        let cut = match snapshot_state.active_turn_start_index {
            Some(c) => Some(c),
            None => if user_positions.len() > 0 {
                Some(user_positions[user_positions.len() - 1])
            } else {
                None
            },
        };
        match cut {
            Some(cut_idx) => {
                items.truncate(cut_idx);
                items
            },
            None => {
                assert(all.take(all.len() as int) =~= all);
                items
            },
        }
    } else {
        truncate_rollout_before_nth_user_message_from_start(items, n)
    };
    if rolled.len() == 0 {
        InitialHistory::New
    } else {
        InitialHistory::Forked(rolled)
    }
}

/// The line recording that a turn was interrupted.
pub open spec fn interrupted_event(turn_id: Option<String>) -> RolloutItem {
    RolloutItem::EventMsg(
        RolloutEvent::TurnAborted(
            TurnAbortedEvent {
                turn_id,
                reason: TurnAbortReason::Interrupted,
                completed_at: None,
                duration_ms: None,
            },
        ),
    )
}

/// The lines added when a fork closes a running turn: the marker message,
/// when there is one, then the interruption.
pub open spec fn boundary_lines(turn_id: Option<String>, marker: Option<ResponseItem>) -> Seq<RolloutItem> {
    match marker {
        Some(m) => seq![RolloutItem::ResponseItem(m), interrupted_event(turn_id)],
        None => seq![interrupted_event(turn_id)],
    }
}

/// The history with the running turn marked as interrupted; always a fork.
pub fn append_interrupted_boundary(history: InitialHistory, turn_id: Option<String>, marker: Option<ResponseItem>) -> (r: InitialHistory)
    ensures
        r matches InitialHistory::Forked(v) && v@ == history_items(history) + boundary_lines(
            turn_id,
            marker,
        ),
{
    let mut items = history.into_rollout_items();
    let ghost before = items@;
    let aborted = RolloutItem::EventMsg(
        RolloutEvent::TurnAborted(
            TurnAbortedEvent {
                turn_id,
                reason: TurnAbortReason::Interrupted,
                completed_at: None,
                duration_ms: None,
            },
        ),
    );
    match marker {
        Some(m) => {
            items.push(RolloutItem::ResponseItem(m));
        },
        None => {},
    }
    items.push(aborted);
    proof {
        assert(items@ =~= before + boundary_lines(turn_id, marker));
    }
    InitialHistory::Forked(items)
}

/// The history as a fork: a resumed history becomes a fork of its lines.
pub open spec fn as_fork(h: InitialHistory) -> InitialHistory {
    match h {
        InitialHistory::Resumed(r) => InitialHistory::Forked(r.history),
        _ => h,
    }
}

/// The history a fork starts from.
pub fn fork_history_from_snapshot(
    snapshot: ForkSnapshot,
    history: InitialHistory,
    explicit_turn: Option<ExplicitActiveTurn>,
    interrupted_marker: Option<ResponseItem>,
) -> (r: InitialHistory)
    requires
        explicit_turn matches Some(t) && t.start_index matches Some(c) ==> c <= history_items(
            history,
        ).len(),
    ensures
        ({
            let items = history_items(history);
            let state = snapshot_state_of(items, explicit_turn);
            match snapshot {
                ForkSnapshot::TruncateBeforeNthUserMessage(n) => history_of(
                    items.take(fork_cut(items, n, state.0, state.2)),
                    r,
                ),
                ForkSnapshot::Interrupted => if state.0 {
                    r matches InitialHistory::Forked(v) && v@ == items + boundary_lines(
                        active_turn_id_of(explicit_turn),
                        interrupted_marker,
                    )
                } else {
                    r == as_fork(history)
                },
            }
        }),
{
    let state = match &history {
        InitialHistory::Resumed(resumed) => snapshot_turn_state(&resumed.history, explicit_turn),
        InitialHistory::Forked(items) => snapshot_turn_state(items, explicit_turn),
        _ => {
            let empty: Vec<RolloutItem> = Vec::new();
            snapshot_turn_state(&empty, explicit_turn)
        },
    };
    match snapshot {
        ForkSnapshot::TruncateBeforeNthUserMessage(nth_user_message) => {
            truncate_before_nth_user_message(history, nth_user_message, &state)
        },
        ForkSnapshot::Interrupted => {
            let history = match history {
                InitialHistory::Resumed(resumed) => InitialHistory::Forked(resumed.history),
                other => other,
            };
            if state.ends_mid_turn {
                append_interrupted_boundary(history, state.active_turn_id, interrupted_marker)
            } else {
                history
            }
        },
    }
}


/// A completed or an aborted turn after the last user message ends that
/// turn: without a turn reported by the builder, such a history does not end
/// in the middle of a turn.
pub proof fn law_finished_or_aborted_turn_is_not_open(items: Seq<RolloutItem>, q: int)
    requires
        user_positions(items).len() > 0,
        user_positions(items).last() < q < items.len(),
        items[q] matches RolloutItem::EventMsg(e) && (e is TurnComplete || e is TurnAborted),
    ensures
        !snapshot_state_of(items, None).0,
{
    assert(ends_turn(items[q]));
}

/// After the last user message, a history with neither a completed nor an
/// aborted turn ends in the middle of that turn.
pub proof fn law_unfinished_turn_is_open(items: Seq<RolloutItem>)
    requires
        user_positions(items).len() > 0,
        forall|q: int|
            user_positions(items).last() < q < items.len() ==> !(#[trigger] items[q] matches RolloutItem::EventMsg(e) && (
            e is TurnComplete || e is TurnAborted)),
    ensures
        snapshot_state_of(items, None).0,
{
}

} // verus!
