//! What a thread manager reports after asking its threads to shut down.
use vstd::prelude::*;
use crate::protocol::ThreadId;
use crate::rollout::{InitialHistory, ResumedHistory, RolloutItem};
use crate::text::{lemma_text_lt_asymmetric, lemma_text_lt_transitive, text_lt};

verus! {

/// How the shutdown of one thread ended.
#[derive(Debug, Clone, Copy, PartialEq, Eq, Structural)]
pub enum ShutdownOutcome {
    Complete,
    SubmitFailed,
    TimedOut,
}

/// The threads whose shutdown completed, those whose shutdown request could
/// not be submitted, and those that did not finish in time; each list in the
/// order of the identifiers' text.
#[derive(Debug, Clone, PartialEq, Eq)]
pub struct ThreadShutdownReport {
    pub completed: Vec<ThreadId>,
    pub submit_failed: Vec<ThreadId>,
    pub timed_out: Vec<ThreadId>,
}

impl Default for ThreadShutdownReport {
    fn default() -> (r: Self)
        ensures
            r.completed@.len() == 0,
            r.submit_failed@.len() == 0,
            r.timed_out@.len() == 0,
    {
        ThreadShutdownReport { completed: Vec::new(), submit_failed: Vec::new(), timed_out: Vec::new() }
    }
}

/// The threads whose shutdown ended with `outcome`, in the order reported.
pub open spec fn ids_with(outcomes: Seq<(ThreadId, ShutdownOutcome)>, outcome: ShutdownOutcome) -> Seq<
    ThreadId,
>
    decreases outcomes.len(),
{
    if outcomes.len() == 0 {
        Seq::empty()
    } else {
        let earlier = ids_with(outcomes.drop_last(), outcome);
        if outcomes.last().1 == outcome {
            earlier.push(outcomes.last().0)
        } else {
            earlier
        }
    }
}

/// Whether no identifier's text comes before that of one listed ahead of it.
pub open spec fn in_id_order(s: Seq<ThreadId>) -> bool {
    forall|i: int, j: int|
        #![trigger s[i], s[j]]
        0 <= i < j < s.len() ==> !text_lt(s[j].text(), s[i].text())
}

fn insert_in_id_order(out: &mut Vec<ThreadId>, id: ThreadId)
    requires
        in_id_order(old(out)@),
    ensures
        final(out)@.to_multiset() == old(out)@.to_multiset().insert(id),
        in_id_order(final(out)@),
{
    let mut k: usize = 0;
    while k < out.len() && !id.precedes(&out[k])
        invariant
            k <= out.len(),
            in_id_order(out@),
            forall|m: int| 0 <= m < k ==> !text_lt(id.text(), #[trigger] out@[m].text()),
        decreases out.len() - k,
    {
        k = k + 1;
    }
    let ghost old_out = out@;
    out.insert(k, id);
    proof {
        vstd::seq_lib::to_multiset_insert(old_out, k as int, id);
        assert forall|a: int, b: int| #![trigger out@[a], out@[b]] 0 <= a < b < out@.len() implies !text_lt(
            out@[b].text(),
            out@[a].text(),
        ) by {
            if b < k {
                assert(out@[a] == old_out[a] && out@[b] == old_out[b]);
            } else if b == k {
                assert(out@[a] == old_out[a]);
            } else if a == k {
                assert(out@[b] == old_out[b - 1]);
                assert(text_lt(id.text(), old_out[k as int].text()));
                if text_lt(old_out[b - 1].text(), id.text()) {
                    if b - 1 > k {
                        assert(!text_lt(old_out[b - 1].text(), old_out[k as int].text()));
                        lemma_text_lt_transitive(old_out[b - 1].text(), id.text(), old_out[k as int].text());
                    } else {
                        lemma_text_lt_asymmetric(id.text(), old_out[k as int].text());
                    }
                }
            } else if a < k {
                assert(out@[a] == old_out[a] && out@[b] == old_out[b - 1]);
            } else {
                assert(out@[a] == old_out[a - 1] && out@[b] == old_out[b - 1]);
            }
        }
    }
}

/// The report of a shutdown from the outcome of each thread: the threads
/// sorted into the three lists by outcome, each list ordered by identifier.
pub fn shutdown_report(outcomes: Vec<(ThreadId, ShutdownOutcome)>) -> (r: ThreadShutdownReport)
    ensures
        r.completed@.to_multiset() == ids_with(outcomes@, ShutdownOutcome::Complete).to_multiset(),
        r.submit_failed@.to_multiset() == ids_with(outcomes@, ShutdownOutcome::SubmitFailed).to_multiset(),
        r.timed_out@.to_multiset() == ids_with(outcomes@, ShutdownOutcome::TimedOut).to_multiset(),
        in_id_order(r.completed@),
        in_id_order(r.submit_failed@),
        in_id_order(r.timed_out@),
{
    let ghost all = outcomes@;
    let mut report = ThreadShutdownReport::default();
    proof {
        assert(all.take(0) =~= Seq::<(ThreadId, ShutdownOutcome)>::empty());
        assert(report.completed@ =~= Seq::<ThreadId>::empty());
        assert(report.submit_failed@ =~= Seq::<ThreadId>::empty());
        assert(report.timed_out@ =~= Seq::<ThreadId>::empty());
    }
    for pair in it: outcomes
        invariant
            all == it.seq(),
            report.completed@.to_multiset() == ids_with(all.take(it.index() as int), ShutdownOutcome::Complete).to_multiset(),
            report.submit_failed@.to_multiset() == ids_with(all.take(it.index() as int), ShutdownOutcome::SubmitFailed).to_multiset(),
            report.timed_out@.to_multiset() == ids_with(all.take(it.index() as int), ShutdownOutcome::TimedOut).to_multiset(),
            in_id_order(report.completed@),
            in_id_order(report.submit_failed@),
            in_id_order(report.timed_out@),
    {
        let ghost i = it.index();
        proof {
            assert(all.take(i + 1).drop_last() =~= all.take(i as int));
            assert(all.take(i + 1).last() == pair);
            vstd::seq_lib::to_multiset_build(ids_with(all.take(i as int), pair.1), pair.0);
        }
        let (id, outcome) = pair;
        match outcome {
            ShutdownOutcome::Complete => insert_in_id_order(&mut report.completed, id),
            ShutdownOutcome::SubmitFailed => insert_in_id_order(&mut report.submit_failed, id),
            ShutdownOutcome::TimedOut => insert_in_id_order(&mut report.timed_out, id),
        }
    }
    proof {
        assert(all.take(all.len() as int) =~= all);
    }
    report
}


/// The history a stored thread resumes from: its persisted lines, with the
/// rollout path given by the caller, else the one stored. A stored thread
/// without persisted history cannot be resumed; the message names it.
pub fn stored_thread_to_initial_history(
    thread_id: ThreadId,
    history: Option<Vec<RolloutItem>>,
    rollout_path: Option<String>,
    stored_rollout_path: Option<String>,
) -> (r: Result<InitialHistory, String>)
    ensures
        match history {
            Some(items) => r matches Ok(InitialHistory::Resumed(h)) && h.conversation_id == thread_id
                && h.history@ == items@ && h.rollout_path == match rollout_path {
                Some(p) => Some(p),
                None => stored_rollout_path,
            },
            None => r matches Err(m) && m@ == "thread "@ + thread_id.text() + " did not include persisted history"@,
        },
{
    match history {
        Some(items) => {
            let path = match rollout_path {
                Some(p) => Some(p),
                None => stored_rollout_path,
            };
            Ok(InitialHistory::Resumed(ResumedHistory { conversation_id: thread_id, history: items, rollout_path: path }))
        },
        None => {
            let mut m = String::from_str("thread ");
            let id = thread_id.as_string();
            m.append(id.as_str());
            m.append(" did not include persisted history");
            Err(m)
        },
    }
}


/// The texts of a list of thread ids.
pub open spec fn id_texts(s: Seq<ThreadId>) -> Seq<Seq<char>> {
    s.map_values(|t: ThreadId| t.text())
}

/// The registered threads that remain after those named in `done` leave, in order.
pub open spec fn remaining_threads(registered: Seq<ThreadId>, done: Seq<Seq<char>>) -> Seq<ThreadId>
    decreases registered.len(),
{
    if registered.len() == 0 {
        Seq::empty()
    } else {
        let earlier = remaining_threads(registered.drop_last(), done);
        if done.contains(registered.last().text()) {
            earlier
        } else {
            earlier.push(registered.last())
        }
    }
}

/// A thread remains exactly when it was registered and is not named in `done`.
pub proof fn lemma_remaining_threads(registered: Seq<ThreadId>, done: Seq<Seq<char>>, t: ThreadId)
    ensures
        remaining_threads(registered, done).contains(t) == (registered.contains(t) && !done.contains(
            t.text(),
        )),
    decreases registered.len(),
{
    if registered.len() > 0 {
        let prefix = registered.drop_last();
        lemma_remaining_threads(prefix, done, t);
        let e = remaining_threads(prefix, done);
        if registered.contains(t) && !prefix.contains(t) {
            let i = choose|i: int| 0 <= i < registered.len() && registered[i] == t;
            if i < registered.len() - 1 {
                assert(prefix[i] == t);
            }
        }
        if prefix.contains(t) {
            let i = choose|i: int| 0 <= i < prefix.len() && prefix[i] == t;
            assert(registered[i] == t);
        }
        if t == registered.last() {
            assert(registered[registered.len() - 1] == t);
        }
        if !done.contains(registered.last().text()) {
            assert(e.push(registered.last())[e.len() as int] == registered.last());
            if e.contains(t) {
                let i = choose|i: int| 0 <= i < e.len() && e[i] == t;
                assert(e.push(registered.last())[i] == t);
            }
            if e.push(registered.last()).contains(t) && t != registered.last() {
                let i = choose|i: int| 0 <= i < e.len() + 1 && e.push(registered.last())[i] == t;
                assert(e[i] == t);
            }
        }
    }
}

fn names_thread(ids: &Vec<ThreadId>, t: &ThreadId) -> (r: bool)
    ensures
        r == id_texts(ids@).contains(t.text()),
{
    let mut i: usize = 0;
    while i < ids.len()
        invariant
            i <= ids.len(),
            forall|k: int| 0 <= k < i ==> (#[trigger] ids@[k]).text() != t.text(),
        decreases ids.len() - i,
    {
        if ids[i].same_as(t) {
            proof {
                assert(id_texts(ids@)[i as int] == t.text());
            }
            return true;
        }
        i = i + 1;
    }
    proof {
        if id_texts(ids@).contains(t.text()) {
            let k = choose|k: int| 0 <= k < id_texts(ids@).len() && id_texts(ids@)[k] == t.text();
            assert(ids@[k].text() == t.text());
        }
    }
    false
}

/// Ends a bounded shutdown: reports each thread by how its shutdown ended and
/// drops the threads whose shutdown completed from the registry, keeping the
/// others in order.
pub fn finish_bounded_shutdown(registered: &mut Vec<ThreadId>, outcomes: Vec<(ThreadId, ShutdownOutcome)>) -> (r:
    ThreadShutdownReport)
    ensures
        r.completed@.to_multiset() == ids_with(outcomes@, ShutdownOutcome::Complete).to_multiset(),
        r.submit_failed@.to_multiset() == ids_with(outcomes@, ShutdownOutcome::SubmitFailed).to_multiset(),
        r.timed_out@.to_multiset() == ids_with(outcomes@, ShutdownOutcome::TimedOut).to_multiset(),
        in_id_order(r.completed@),
        in_id_order(r.submit_failed@),
        in_id_order(r.timed_out@),
        final(registered)@ == remaining_threads(old(registered)@, id_texts(r.completed@)),
{
    let report = shutdown_report(outcomes);
    let mut kept: Vec<ThreadId> = Vec::new();
    let mut i: usize = 0;
    let ghost all = registered@;
    while i < registered.len()
        invariant
            i <= registered.len(),
            registered@ == all,
            kept@ == remaining_threads(all.take(i as int), id_texts(report.completed@)),
        decreases registered.len() - i,
    {
        proof {
            assert(all.take(i + 1).drop_last() =~= all.take(i as int));
        }
        if !names_thread(&report.completed, &registered[i]) {
            kept.push(registered[i].clone());
        }
        i = i + 1;
    }
    proof {
        assert(all.take(all.len() as int) =~= all);
    }
    *registered = kept;
    report
}

/// After a bounded shutdown no thread whose shutdown completed is still
/// registered, and every registered thread whose shutdown failed or timed
/// out still is.
pub proof fn law_shutdown_keeps_only_unfinished(registered: Seq<ThreadId>, report: ThreadShutdownReport, t: ThreadId)
    ensures
        report.completed@.contains(t) ==> !remaining_threads(registered, id_texts(report.completed@)).contains(t),
        registered.contains(t) && !id_texts(report.completed@).contains(t.text()) ==> remaining_threads(
            registered,
            id_texts(report.completed@),
        ).contains(t),
{
    lemma_remaining_threads(registered, id_texts(report.completed@), t);
    if report.completed@.contains(t) {
        let i = choose|i: int| 0 <= i < report.completed@.len() && report.completed@[i] == t;
        assert(id_texts(report.completed@)[i] == t.text());
    }
}

} // verus!
