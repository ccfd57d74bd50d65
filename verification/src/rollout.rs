//! The records of a thread's rollout, and cutting a rollout at a user turn.
use vstd::prelude::*;
use crate::context::{is_user_message, is_user_turn_message};
use crate::models::{clone_dynamic_tools, BaseInstructions, DynamicToolSpec, ResponseItem};
use crate::protocol::{
    CompactedItem, SessionMetaLine, ThreadId, TurnAbortReason, TurnAbortedEvent, TurnCompleteEvent,
    TurnContextItem,
};
use crate::token_usage::TokenUsageInfo;

verus! {

/// An event recorded in a rollout, as far as the thread's records use it.
#[derive(Debug, PartialEq, Eq)]
pub enum RolloutEvent {
    /// A token count, with the usage so far when known.
    TokenCount { info: Option<TokenUsageInfo> },
    /// A turn finished.
    TurnComplete(TurnCompleteEvent),
    /// A turn was stopped.
    TurnAborted(TurnAbortedEvent),
    /// Any other event.
    Other,
}

impl Clone for RolloutEvent {
    fn clone(&self) -> (r: Self)
        ensures
            r == *self,
    {
        match self {
            RolloutEvent::TokenCount { info } => RolloutEvent::TokenCount { info: *info },
            RolloutEvent::TurnComplete(e) => RolloutEvent::TurnComplete(e.clone()),
            RolloutEvent::TurnAborted(e) => RolloutEvent::TurnAborted(e.clone()),
            RolloutEvent::Other => RolloutEvent::Other,
        }
    }
}

/// One line of a rollout.
#[derive(Debug, Clone, PartialEq, Eq)]
pub enum RolloutItem {
    SessionMeta(SessionMetaLine),
    ResponseItem(ResponseItem),
    Compacted(CompactedItem),
    TurnContext(TurnContextItem),
    EventMsg(RolloutEvent),
}

/// Whether a rollout line is a message the user wrote.
pub open spec fn is_user_turn_item(item: RolloutItem) -> bool {
    item matches RolloutItem::ResponseItem(r) && is_user_message(r)
}

/// The indexes of the lines of `items` that are messages the user wrote, in order.
pub open spec fn user_positions(items: Seq<RolloutItem>) -> Seq<int>
    decreases items.len(),
{
    if items.len() == 0 {
        Seq::empty()
    } else {
        let earlier = user_positions(items.drop_last());
        if is_user_turn_item(items.last()) {
            earlier.push(items.len() - 1)
        } else {
            earlier
        }
    }
}

/// Every position is the index of a user message, the positions increase,
/// and every user message is among them.
pub proof fn lemma_user_positions(items: Seq<RolloutItem>)
    ensures
        forall|k: int|
            0 <= k < user_positions(items).len() ==> 0 <= #[trigger] user_positions(items)[k]
                < items.len() && is_user_turn_item(items[user_positions(items)[k]]),
        forall|a: int, b: int|
            0 <= a < b < user_positions(items).len() ==> #[trigger] user_positions(items)[a]
                < #[trigger] user_positions(items)[b],
        forall|i: int|
            0 <= i < items.len() && #[trigger] is_user_turn_item(items[i]) ==> user_positions(
                items,
            ).contains(i),
    decreases items.len(),
{
    if items.len() > 0 {
        let prefix = items.drop_last();
        lemma_user_positions(prefix);
        assert forall|i: int| 0 <= i < items.len() && #[trigger] is_user_turn_item(items[i]) implies user_positions(
            items,
        ).contains(i) by {
            if i < items.len() - 1 {
                assert(prefix[i] == items[i]);
                assert(is_user_turn_item(prefix[i]));
                let k = choose|k: int|
                    0 <= k < user_positions(prefix).len() && user_positions(prefix)[k] == i;
                assert(user_positions(items)[k] == i);
            } else {
                assert(user_positions(items).last() == i);
            }
        }
        assert forall|k: int|
            0 <= k < user_positions(items).len() implies 0 <= #[trigger] user_positions(items)[k]
            < items.len() && is_user_turn_item(items[user_positions(items)[k]]) by {
            if k < user_positions(prefix).len() {
                assert(user_positions(items)[k] == user_positions(prefix)[k]);
                assert(prefix[user_positions(prefix)[k]] == items[user_positions(prefix)[k]]);
            }
        }
    }
}

/// The indexes of the messages the user wrote.
pub fn user_message_positions_in_rollout(items: &Vec<RolloutItem>) -> (r: Vec<usize>)
    ensures
        r@.len() == user_positions(items@).len(),
        forall|k: int| 0 <= k < r@.len() ==> r@[k] as int == #[trigger] user_positions(items@)[k],
{
    let mut positions: Vec<usize> = Vec::new();
    let mut idx: usize = 0;
    while idx < items.len()
        invariant
            idx <= items.len(),
            positions@.len() == user_positions(items@.take(idx as int)).len(),
            forall|k: int|
                0 <= k < positions@.len() ==> positions@[k] as int == #[trigger] user_positions(
                    items@.take(idx as int),
                )[k],
        decreases items.len() - idx,
    {
        let is_user = match &items[idx] {
            RolloutItem::ResponseItem(item) => is_user_turn_message(item),
            _ => false,
        };
        proof {
            assert(items@.take(idx + 1).drop_last() =~= items@.take(idx as int));
            assert(items@.take(idx + 1).last() == items@[idx as int]);
        }
        if is_user {
            positions.push(idx);
        }
        idx = idx + 1;
    }
    proof {
        assert(items@.take(items.len() as int) =~= items@);
    }
    positions
}

/// The indexes at which a forked thread may start: the user's messages.
pub fn fork_turn_positions_in_rollout(items: &Vec<RolloutItem>) -> (r: Vec<usize>)
    ensures
        r@.len() == user_positions(items@).len(),
        forall|k: int| 0 <= k < r@.len() ==> r@[k] as int == #[trigger] user_positions(items@)[k],
{
    user_message_positions_in_rollout(items)
}

/// Where a rollout is cut to keep what came before the user's `n`-th message
/// (counting from zero): nowhere when there are not that many.
pub open spec fn cut_before_nth_user_message(items: Seq<RolloutItem>, n: usize) -> int {
    if n == usize::MAX || user_positions(items).len() <= n {
        items.len() as int
    } else {
        user_positions(items)[n as int]
    }
}

/// The rollout up to, and not including, the user's `n_from_start`-th message.
pub fn truncate_rollout_before_nth_user_message_from_start(
    items: Vec<RolloutItem>,
    n_from_start: usize,
) -> (r: Vec<RolloutItem>)
    ensures
        0 <= cut_before_nth_user_message(items@, n_from_start) <= items@.len(),
        r@ == items@.take(cut_before_nth_user_message(items@, n_from_start)),
{
    let mut items = items;
    proof {
        lemma_user_positions(items@);
    }
    if n_from_start == usize::MAX {
        assert(items@.take(items@.len() as int) =~= items@);
        return items;
    }
    let user_positions = user_message_positions_in_rollout(&items);
    if user_positions.len() <= n_from_start {
        assert(items@.take(items@.len() as int) =~= items@);
        return items;
    }
    let cut_idx = user_positions[n_from_start];
    items.truncate(cut_idx);
    items
}

/// Where a rollout is cut to keep its last `n` forked turns: at the user
/// message that starts them, or at the first one when there are fewer; the
/// whole rollout is dropped when `n` is zero or there are no user messages.
pub open spec fn keep_last_fork_turns_from(items: Seq<RolloutItem>, n: usize) -> Option<int> {
    let p = user_positions(items);
    if n == 0 || p.len() == 0 {
        None
    } else if p.len() >= n {
        Some(p[p.len() - n])
    } else {
        Some(p[0])
    }
}

/// The suffix of a rollout that keeps its last `n_from_end` forked turns,
/// dropping whatever came before the first of them.
pub fn truncate_rollout_to_last_n_fork_turns(items: Vec<RolloutItem>, n_from_end: usize) -> (r: Vec<
    RolloutItem,
>)
    ensures
        keep_last_fork_turns_from(items@, n_from_end) is None ==> r@.len() == 0,
        keep_last_fork_turns_from(items@, n_from_end) matches Some(k) ==> 0 <= k <= items@.len()
            && r@ == items@.skip(k),
{
    let mut items = items;
    proof {
        lemma_user_positions(items@);
    }
    if n_from_end == 0 {
        return Vec::new();
    }
    let fork_turn_positions = fork_turn_positions_in_rollout(&items);
    if fork_turn_positions.len() == 0 {
        return Vec::new();
    }
    let keep_idx = if fork_turn_positions.len() >= n_from_end {
        fork_turn_positions[fork_turn_positions.len() - n_from_end]
    } else {
        fork_turn_positions[0]
    };
    let kept = items.split_off(keep_idx);
    kept
}


/// A rollout resumed from storage.
#[derive(Debug, Clone, PartialEq, Eq)]
pub struct ResumedHistory {
    pub conversation_id: ThreadId,
    pub history: Vec<RolloutItem>,
    pub rollout_path: Option<String>,
}

/// The history a thread starts from.
#[derive(Debug, Clone, PartialEq, Eq)]
pub enum InitialHistory {
    New,
    Cleared,
    Resumed(ResumedHistory),
    Forked(Vec<RolloutItem>),
}

/// The rollout lines a history holds.
pub open spec fn history_items(h: InitialHistory) -> Seq<RolloutItem> {
    match h {
        InitialHistory::New => Seq::empty(),
        InitialHistory::Cleared => Seq::empty(),
        InitialHistory::Resumed(r) => r.history@,
        InitialHistory::Forked(items) => items@,
    }
}

/// The first value that `f` finds in the lines of `items`, in order.
pub open spec fn first_found<T>(items: Seq<RolloutItem>, f: spec_fn(RolloutItem) -> Option<T>) -> Option<T>
    decreases items.len(),
{
    if items.len() == 0 {
        None
    } else {
        match f(items[0]) {
            Some(v) => Some(v),
            None => first_found(items.drop_first(), f),
        }
    }
}

/// The directory of a session metadata line.
pub open spec fn meta_cwd(item: RolloutItem) -> Option<Seq<char>> {
    match item {
        RolloutItem::SessionMeta(line) => Some(line.meta.cwd@),
        _ => None,
    }
}

/// The base instructions of a session metadata line, when it has them.
pub open spec fn meta_base_instructions(item: RolloutItem) -> Option<BaseInstructions> {
    match item {
        RolloutItem::SessionMeta(line) => line.meta.base_instructions,
        _ => None,
    }
}

/// The dynamic tools of a session metadata line, when it has them.
pub open spec fn meta_dynamic_tools(item: RolloutItem) -> Option<Seq<DynamicToolSpec>> {
    match item {
        RolloutItem::SessionMeta(line) => match line.meta.dynamic_tools {
            Some(t) => Some(t@),
            None => None,
        },
        _ => None,
    }
}

/// The thread a session metadata line says it was forked from.
pub open spec fn meta_forked_from(item: RolloutItem) -> Option<ThreadId> {
    match item {
        RolloutItem::SessionMeta(line) => line.meta.forked_from_id,
        _ => None,
    }
}

/// The thread a session metadata line belongs to.
pub open spec fn meta_id(item: RolloutItem) -> Option<ThreadId> {
    match item {
        RolloutItem::SessionMeta(line) => Some(line.meta.id),
        _ => None,
    }
}

proof fn lemma_first_found_step<T>(items: Seq<RolloutItem>, i: int, f: spec_fn(RolloutItem) -> Option<T>)
    requires
        0 <= i < items.len(),
        forall|j: int| 0 <= j < i ==> f(#[trigger] items[j]) is None,
    ensures
        first_found(items, f) == first_found(items.skip(i), f),
    decreases i,
{
    if i > 0 {
        assert(f(items[0]) is None);
        assert forall|j: int| 0 <= j < i - 1 implies f(#[trigger] items.drop_first()[j]) is None by {
            assert(items.drop_first()[j] == items[j + 1]);
        }
        lemma_first_found_step(items.drop_first(), i - 1, f);
        assert(items.drop_first().skip(i - 1) =~= items.skip(i));
    } else {
        assert(items.skip(0) =~= items);
    }
}

proof fn lemma_first_found_none<T>(items: Seq<RolloutItem>, f: spec_fn(RolloutItem) -> Option<T>)
    requires
        forall|j: int| 0 <= j < items.len() ==> f(#[trigger] items[j]) is None,
    ensures
        first_found(items, f) is None,
    decreases items.len(),
{
    if items.len() > 0 {
        assert(f(items[0]) is None);
        assert forall|j: int| 0 <= j < items.len() - 1 implies f(#[trigger] items.drop_first()[j]) is None by {
            assert(items.drop_first()[j] == items[j + 1]);
        }
        lemma_first_found_none(items.drop_first(), f);
    }
}

proof fn lemma_first_found_at<T>(items: Seq<RolloutItem>, i: int, f: spec_fn(RolloutItem) -> Option<T>)
    requires
        0 <= i < items.len(),
        forall|j: int| 0 <= j < i ==> f(#[trigger] items[j]) is None,
        f(items[i]) is Some,
    ensures
        first_found(items, f) == f(items[i]),
{
    lemma_first_found_step(items, i, f);
    assert(items.skip(i)[0] == items[i]);
}

fn session_cwd_from_items(items: &Vec<RolloutItem>) -> (r: Option<String>)
    ensures
        opt_text(r) == first_found(items@, |item: RolloutItem| meta_cwd(item)),
{
    let ghost f = |item: RolloutItem| meta_cwd(item);
    let mut i: usize = 0;
    while i < items.len()
        invariant
            i <= items.len(),
            f == (|item: RolloutItem| meta_cwd(item)),
            forall|j: int| 0 <= j < i ==> f(#[trigger] items@[j]) is None,
        decreases items.len() - i,
    {
        match &items[i] {
            RolloutItem::SessionMeta(line) => {
                proof {
                    lemma_first_found_at(items@, i as int, f);
                }
                return Some(line.meta.cwd.clone());
            },
            _ => {},
        }
        i = i + 1;
    }
    proof {
        lemma_first_found_none(items@, f);
    }
    None
}

/// The text of an optional string.
pub open spec fn opt_text(v: Option<String>) -> Option<Seq<char>> {
    match v {
        Some(s) => Some(s@),
        None => None,
    }
}

fn base_instructions_from_items(items: &Vec<RolloutItem>) -> (r: Option<BaseInstructions>)
    ensures
        r == first_found(items@, |item: RolloutItem| meta_base_instructions(item)),
{
    let ghost f = |item: RolloutItem| meta_base_instructions(item);
    let mut i: usize = 0;
    while i < items.len()
        invariant
            i <= items.len(),
            f == (|item: RolloutItem| meta_base_instructions(item)),
            forall|j: int| 0 <= j < i ==> f(#[trigger] items@[j]) is None,
        decreases items.len() - i,
    {
        match &items[i] {
            RolloutItem::SessionMeta(line) => {
                match &line.meta.base_instructions {
                    Some(b) => {
                        proof {
                            lemma_first_found_at(items@, i as int, f);
                        }
                        return Some(b.clone());
                    },
                    None => {},
                }
            },
            _ => {},
        }
        i = i + 1;
    }
    proof {
        lemma_first_found_none(items@, f);
    }
    None
}

fn dynamic_tools_from_items(items: &Vec<RolloutItem>) -> (r: Option<Vec<DynamicToolSpec>>)
    ensures
        match r {
            Some(t) => first_found(items@, |item: RolloutItem| meta_dynamic_tools(item)) == Some(t@),
            None => first_found(items@, |item: RolloutItem| meta_dynamic_tools(item)) is None,
        },
{
    let ghost f = |item: RolloutItem| meta_dynamic_tools(item);
    let mut i: usize = 0;
    while i < items.len()
        invariant
            i <= items.len(),
            f == (|item: RolloutItem| meta_dynamic_tools(item)),
            forall|j: int| 0 <= j < i ==> f(#[trigger] items@[j]) is None,
        decreases items.len() - i,
    {
        match &items[i] {
            RolloutItem::SessionMeta(line) => {
                match &line.meta.dynamic_tools {
                    Some(t) => {
                        proof {
                            lemma_first_found_at(items@, i as int, f);
                        }
                        return Some(clone_dynamic_tools(t));
                    },
                    None => {},
                }
            },
            _ => {},
        }
        i = i + 1;
    }
    proof {
        lemma_first_found_none(items@, f);
    }
    None
}

fn forked_from_in_items(items: &Vec<RolloutItem>, own_id: bool) -> (r: Option<ThreadId>)
    ensures
        own_id ==> r == first_found(items@, |item: RolloutItem| meta_id(item)),
        !own_id ==> r == first_found(items@, |item: RolloutItem| meta_forked_from(item)),
{
    let ghost f = if own_id {
        |item: RolloutItem| meta_id(item)
    } else {
        |item: RolloutItem| meta_forked_from(item)
    };
    let mut i: usize = 0;
    while i < items.len()
        invariant
            i <= items.len(),
            f == if own_id {
                |item: RolloutItem| meta_id(item)
            } else {
                |item: RolloutItem| meta_forked_from(item)
            },
            forall|j: int| 0 <= j < i ==> f(#[trigger] items@[j]) is None,
        decreases items.len() - i,
    {
        match &items[i] {
            RolloutItem::SessionMeta(line) => {
                if own_id {
                    proof {
                        lemma_first_found_at(items@, i as int, f);
                    }
                    return Some(line.meta.id.clone());
                }
                match &line.meta.forked_from_id {
                    Some(id) => {
                        proof {
                            lemma_first_found_at(items@, i as int, f);
                        }
                        return Some(id.clone());
                    },
                    None => {},
                }
            },
            _ => {},
        }
        i = i + 1;
    }
    proof {
        lemma_first_found_none(items@, f);
    }
    None
}

impl InitialHistory {
    /// The rollout lines the history holds.
    pub fn into_rollout_items(self) -> (r: Vec<RolloutItem>)
        ensures
            r@ == history_items(self),
    {
        match self {
            InitialHistory::New => Vec::new(),
            InitialHistory::Cleared => Vec::new(),
            InitialHistory::Resumed(resumed) => resumed.history,
            InitialHistory::Forked(items) => items,
        }
    }

    /// The thread this history was forked from: for a resumed thread, what
    /// its metadata records; for a fork, the thread whose lines it copies.
    pub fn forked_from_id(&self) -> (r: Option<ThreadId>)
        ensures
            r == match *self {
                InitialHistory::New => None,
                InitialHistory::Cleared => None,
                InitialHistory::Resumed(resumed) => first_found(
                    resumed.history@,
                    |item: RolloutItem| meta_forked_from(item),
                ),
                InitialHistory::Forked(items) => first_found(items@, |item: RolloutItem| meta_id(item)),
            },
    {
        match self {
            InitialHistory::New => None,
            InitialHistory::Cleared => None,
            InitialHistory::Resumed(resumed) => forked_from_in_items(&resumed.history, false),
            InitialHistory::Forked(items) => forked_from_in_items(items, true),
        }
    }

    /// The working directory of the session the history records.
    pub fn session_cwd(&self) -> (r: Option<String>)
        ensures
            opt_text(r) == first_found(history_items(*self), |item: RolloutItem| meta_cwd(item)),
    {
        match self {
            InitialHistory::Resumed(resumed) => session_cwd_from_items(&resumed.history),
            InitialHistory::Forked(items) => session_cwd_from_items(items),
            _ => None,
        }
    }

    /// The base instructions the session's metadata records.
    pub fn get_base_instructions(&self) -> (r: Option<BaseInstructions>)
        ensures
            r == first_found(history_items(*self), |item: RolloutItem| meta_base_instructions(item)),
    {
        match self {
            InitialHistory::Resumed(resumed) => base_instructions_from_items(&resumed.history),
            InitialHistory::Forked(items) => base_instructions_from_items(items),
            _ => None,
        }
    }

    /// The dynamic tools the session's metadata records.
    pub fn get_dynamic_tools(&self) -> (r: Option<Vec<DynamicToolSpec>>)
        ensures
            match r {
                Some(t) => first_found(history_items(*self), |item: RolloutItem| meta_dynamic_tools(item))
                    == Some(t@),
                None => first_found(history_items(*self), |item: RolloutItem| meta_dynamic_tools(item))
                    is None,
            },
    {
        match self {
            InitialHistory::Resumed(resumed) => dynamic_tools_from_items(&resumed.history),
            InitialHistory::Forked(items) => dynamic_tools_from_items(items),
            _ => None,
        }
    }
}


proof fn lemma_positions_of_prefix(s: Seq<RolloutItem>, k: int)
    requires
        0 <= k <= s.len(),
    ensures
        ({
            let p = user_positions(s);
            let q = user_positions(s.take(k));
            &&& q.len() <= p.len()
            &&& q == p.take(q.len() as int)
            &&& forall|i: int| 0 <= i < q.len() ==> #[trigger] q[i] < k
            &&& q.len() < p.len() ==> p[q.len() as int] >= k
        }),
    decreases s.len(),
{
    lemma_user_positions(s);
    if k == s.len() {
        assert(s.take(k) =~= s);
        lemma_user_positions(s.take(k));
        assert(user_positions(s).take(user_positions(s).len() as int) =~= user_positions(s));
    } else {
        let d = s.drop_last();
        assert(s.take(k) =~= d.take(k));
        lemma_positions_of_prefix(d, k);
        lemma_user_positions(d);
        let pd = user_positions(d);
        let p = user_positions(s);
        let q = user_positions(s.take(k));
        assert(p.take(pd.len() as int) =~= pd);
        assert(q == pd.take(q.len() as int));
        assert(q =~= p.take(q.len() as int));
        if q.len() < p.len() {
            if q.len() < pd.len() {
                assert(p[q.len() as int] == pd[q.len() as int]);
            } else {
                assert(p[q.len() as int] == s.len() - 1);
            }
        }
    }
}

/// Cutting a rollout before the user's `n`-th message keeps exactly the
/// user's first `n` messages, when it had more than `n`.
pub proof fn law_truncate_keeps_first_n_user_messages(items: Seq<RolloutItem>, n: usize)
    requires
        n < user_positions(items).len(),
        n != usize::MAX,
    ensures
        user_positions(items.take(cut_before_nth_user_message(items, n)))
            == user_positions(items).take(n as int),
{
    lemma_user_positions(items);
    let p = user_positions(items);
    let cut = p[n as int];
    lemma_positions_of_prefix(items, cut);
    let q = user_positions(items.take(cut));
    if q.len() > n {
        assert(q[n as int] == p[n as int]);
        assert(q[n as int] < cut);
    }
    if q.len() < n {
        assert(p[q.len() as int] >= cut);
        assert(p[q.len() as int] < p[n as int]);
    }
    assert(q.len() == n);
}

/// A fork of the last turns starts with a message of the user.
pub proof fn law_fork_turns_start_with_user_message(items: Seq<RolloutItem>, n: usize)
    requires
        keep_last_fork_turns_from(items, n) is Some,
    ensures
        ({
            let k = keep_last_fork_turns_from(items, n).unwrap();
            0 <= k < items.len() && is_user_turn_item(items.skip(k)[0])
        }),
{
    lemma_user_positions(items);
    let p = user_positions(items);
    let k = keep_last_fork_turns_from(items, n).unwrap();
    if p.len() >= n {
        assert(is_user_turn_item(items[p[p.len() - n]]));
    } else {
        assert(is_user_turn_item(items[p[0]]));
    }
    assert(items.skip(k)[0] == items[k]);
}

/// The events among rollout lines, in order.
pub open spec fn events_of(items: Seq<RolloutItem>) -> Seq<RolloutEvent>
    decreases items.len(),
{
    if items.len() == 0 {
        Seq::empty()
    } else {
        events_of(items.drop_last()) + match items.last() {
            RolloutItem::EventMsg(e) => seq![e],
            _ => Seq::empty(),
        }
    }
}

fn events_in(items: &Vec<RolloutItem>) -> (r: Vec<RolloutEvent>)
    ensures
        r@ == events_of(items@),
{
    let mut r: Vec<RolloutEvent> = Vec::new();
    let mut i: usize = 0;
    while i < items.len()
        invariant
            i <= items.len(),
            r@ == events_of(items@.take(i as int)),
        decreases items.len() - i,
    {
        proof {
            assert(items@.take(i + 1).drop_last() =~= items@.take(i as int));
        }
        match &items[i] {
            RolloutItem::EventMsg(e) => {
                r.push(e.clone());
                proof {
                    assert(r@ =~= events_of(items@.take(i + 1)));
                }
            },
            _ => {
                proof {
                    assert(r@ =~= events_of(items@.take(i + 1)));
                }
            },
        }
        i = i + 1;
    }
    proof {
        assert(items@.take(items@.len() as int) =~= items@);
    }
    r
}

impl InitialHistory {
    /// The events a history records, in order; none for a new or cleared history.
    pub fn get_event_msgs(&self) -> (r: Option<Vec<RolloutEvent>>)
        ensures
            match *self {
                InitialHistory::New => r is None,
                InitialHistory::Cleared => r is None,
                InitialHistory::Resumed(resumed) => r matches Some(v) && v@ == events_of(resumed.history@),
                InitialHistory::Forked(items) => r matches Some(v) && v@ == events_of(items@),
            },
    {
        match self {
            InitialHistory::New => None,
            InitialHistory::Cleared => None,
            InitialHistory::Resumed(resumed) => Some(events_in(&resumed.history)),
            InitialHistory::Forked(items) => Some(events_in(items)),
        }
    }
}

} // verus!
