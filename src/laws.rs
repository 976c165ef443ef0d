//! Properties that hold across operations of the queue, the registry and the dispatcher.

use vstd::prelude::*;

use crate::dispatcher::{first_pending_for, pending_for, scanned_task};
use crate::queue::{
    lemma_insert_at_point_is_stable_insert, lemma_insert_at_point_sorted,
    lemma_insertion_point_exists, lemma_stable_insert_filter, of_priority, stable_insert,
    is_insertion_point, queue_wf, retain_active, sorted_by_priority, transition_allowed,
    updated_task,
};
use crate::registry::{registry_wf, Availability, RegistryEntry};
use crate::task::{status_is_terminal, Task, TaskStatus};

verus! {

/// Enqueueing keeps the queue sorted by descending priority, and the new task
/// goes behind every task of equal priority that was queued before it.
pub proof fn lemma_enqueue_sorted_and_stable(s: Seq<Task>, t: Task, k: int)
    requires
        queue_wf(s),
        is_insertion_point(s, t.priority, k),
    ensures
        sorted_by_priority(s.insert(k, t)),
        s.insert(k, t)[k] == t,
        forall|j: int| 0 <= j < s.len() && s[j].priority == t.priority ==> j < k,
        forall|j: int| 0 <= j < k ==> s.insert(k, t)[j] == s[j],
        forall|j: int| k < j <= s.len() ==> s.insert(k, t)[j] == s[j - 1],
{
    let r = s.insert(k, t);
    assert forall|i: int, j: int| 0 <= i < j < r.len() implies r[i].priority >= r[j].priority by {
        if j < k {
        } else if j == k {
        } else if i < k {
            assert(r[j] == s[j - 1]);
        } else if i == k {
            assert(r[j] == s[j - 1]);
        } else {
            assert(r[j] == s[j - 1]);
            assert(r[i] == s[i - 1]);
        }
    }
}

/// The queue that enqueueing the tasks of `ts` one after the other, each
/// with success, makes of an empty queue (`TaskQueue::enqueue` ensures that
/// a successful call turns the queue `s` into `stable_insert(s, task)`).
pub open spec fn enqueue_all(ts: Seq<Task>) -> Seq<Task>
    decreases ts.len(),
{
    if ts.len() == 0 {
        Seq::empty()
    } else {
        stable_insert(enqueue_all(ts.drop_last()), ts.last())
    }
}

/// However many tasks are enqueued, with whatever priorities, the queue is
/// sorted by descending priority after every call, holds as many tasks as
/// were enqueued, and among tasks of equal priority keeps the order in which they were
/// enqueued.
pub proof fn lemma_enqueue_sequence_sorted_and_stable(ts: Seq<Task>)
    ensures
        sorted_by_priority(enqueue_all(ts)),
        enqueue_all(ts).len() == ts.len(),
        forall|p: i32| #[trigger] of_priority(enqueue_all(ts), p) == of_priority(ts, p),
    decreases ts.len(),
{
    broadcast use Seq::lemma_filter_push;

    if ts.len() > 0 {
        let d = ts.drop_last();
        let t = ts.last();
        lemma_enqueue_sequence_sorted_and_stable(d);
        let q = enqueue_all(d);
        lemma_insertion_point_exists(q, t.priority);
        let k = choose|k: int| is_insertion_point(q, t.priority, k);
        lemma_insert_at_point_is_stable_insert(q, t, k);
        lemma_insert_at_point_sorted(q, t, k);
        assert(d.push(t) == ts);
        assert forall|p: i32| #[trigger] of_priority(enqueue_all(ts), p) == of_priority(ts, p) by {
            lemma_stable_insert_filter(q, t, p);
            assert(of_priority(d, p) == of_priority(enqueue_all(d), p));
        }
    }
}

/// Audio files route to the transcription worker.
pub proof fn lemma_audio_routes_to_transcription()
    ensures
        crate::router::route("mp3"@) == crate::router::TRANSCRIPTION_WORKER@,
{
    reveal_strlit("mp3");
}

/// A pending task alone in the queue, routed to an available worker, starts
/// at the next dispatcher pass and that worker takes it: `dispatch_scan`
/// makes the worker at `k` `assigned` to the task's id.
pub proof fn lemma_lone_task_runs_on_idle_worker(w: Seq<RegistryEntry>, t: Task, k: int, now: String)
    requires
        registry_wf(w),
        0 <= k < w.len(),
        w[k].key@ == t.agent_name@,
        w[k].info.status == Availability::Available,
        t.status == TaskStatus::Pending,
        t.started_at is None,
    ensures
        scanned_task(seq![t], w, 0, now).status == TaskStatus::Running,
        scanned_task(seq![t], w, 0, now).started_at == Some(now),
        first_pending_for(seq![t], w[k].key@, 0),
{
    let s = seq![t];
    assert(pending_for(s, w[k].key@, 0));
    assert(!crate::dispatcher::claimed_before(s, w[k].key@, 0));
    assert(crate::dispatcher::worker_available(w, t.agent_name@));
}

/// Every task that clearing keeps was queued before, and none of them is terminal.
pub proof fn lemma_retain_active_keeps_queued_tasks(s: Seq<Task>)
    ensures
        forall|j: int|
            0 <= j < retain_active(s).len() ==> s.contains(#[trigger] retain_active(s)[j])
                && !status_is_terminal(retain_active(s)[j].status),
    decreases s.len(),
{
    if s.len() > 0 {
        lemma_retain_active_keeps_queued_tasks(s.drop_last());
        let r0 = retain_active(s.drop_last());
        assert forall|j: int| 0 <= j < retain_active(s).len() implies s.contains(
            #[trigger] retain_active(s)[j],
        ) && !status_is_terminal(retain_active(s)[j].status) by {
            if j < r0.len() {
                assert(retain_active(s)[j] == r0[j]);
                let x = r0[j];
                let m = choose|m: int| 0 <= m < s.drop_last().len() && s.drop_last()[m] == x;
                assert(s[m] == x);
            } else {
                assert(retain_active(s)[j] == s.last());
                assert(s[s.len() - 1] == s.last());
            }
        }
    }
}

/// A terminal task never leaves its state: no status change is allowed out
/// of it (so updates, cancellations and completion reports leave it as it
/// is), a dispatcher pass leaves it unchanged, and clearing only removes it.
pub proof fn lemma_terminal_status_is_final(
    s: Seq<Task>,
    w: Seq<RegistryEntry>,
    i: int,
    to: TaskStatus,
    now: String,
)
    requires
        0 <= i < s.len(),
        status_is_terminal(s[i].status),
    ensures
        !transition_allowed(s[i].status, to),
        scanned_task(s, w, i, now) == s[i],
        forall|j: int|
            0 <= j < retain_active(s).len() ==> #[trigger] retain_active(s)[j] != s[i],
{
    lemma_retain_active_keeps_queued_tasks(s);
}

/// Every status change that is allowed leads to a state at least as far
/// along the lifecycle, and one into a terminal state stamps completion.
pub proof fn lemma_allowed_change_is_monotonic(
    t: Task,
    to: TaskStatus,
    result: Option<String>,
    error: Option<String>,
    now: String,
)
    requires
        t.wf(),
        transition_allowed(t.status, to),
    ensures
        crate::task::status_rank(t.status) <= crate::task::status_rank(updated_task(t, to, result, error, now).status),
        updated_task(t, to, result, error, now).wf(),
        status_is_terminal(to) ==> updated_task(t, to, result, error, now).completed_at == Some(now),
{
}

/// In a well-formed registry a worker holds a task exactly when it is busy;
/// `dispatch_scan` ensures a well-formed registry after every pass.
pub proof fn lemma_busy_iff_holding_task(w: Seq<RegistryEntry>)
    requires
        registry_wf(w),
    ensures
        forall|k: int|
            0 <= k < w.len() ==> ((#[trigger] w[k]).info.current_task is Some <==> w[k].info.status
                == Availability::Busy),
{
}

/// A cancelled task is out of the dispatcher's consideration: no pass starts
/// it, and it is no worker's first pending task. (Cancellation leaves the
/// registry as it is, so a worker running the task stays busy until the
/// completion report frees it.)
pub proof fn lemma_cancelled_task_is_not_dispatched(
    s: Seq<Task>,
    w: Seq<RegistryEntry>,
    i: int,
    now: String,
)
    requires
        0 <= i < s.len(),
        s[i].status == TaskStatus::Cancelled,
    ensures
        scanned_task(s, w, i, now) == s[i],
        forall|key: Seq<char>| !#[trigger] first_pending_for(s, key, i),
        forall|key: Seq<char>| !#[trigger] pending_for(s, key, i),
{
}

/// Cancelling a pending task at position `i` takes it out of every later
/// dispatcher pass, whatever the registry and the time of the pass.
pub proof fn lemma_cancel_pending_removes_from_dispatch(
    s: Seq<Task>,
    w: Seq<RegistryEntry>,
    i: int,
    cancel_time: String,
    now: String,
)
    requires
        queue_wf(s),
        0 <= i < s.len(),
        s[i].status == TaskStatus::Pending,
    ensures
        ({
            let c = s.update(i, updated_task(s[i], TaskStatus::Cancelled, None, None, cancel_time));
            &&& scanned_task(c, w, i, now) == c[i]
            &&& c[i].status == TaskStatus::Cancelled
            &&& forall|key: Seq<char>| !#[trigger] pending_for(c, key, i)
        }),
{
    let c = s.update(i, updated_task(s[i], TaskStatus::Cancelled, None, None, cancel_time));
    lemma_cancelled_task_is_not_dispatched(c, w, i, now);
}

} // verus!
