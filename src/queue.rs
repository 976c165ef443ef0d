use vstd::prelude::*;

use crate::error::OrchestratorError;
use crate::task::{status_is_terminal, status_rank, text_eq, Task, TaskStatus};

verus! {

/// `s` with `t` enqueued: `t` goes behind the last task whose priority is at
/// least its own, every task of lower priority moves one place back.
pub open spec fn stable_insert(s: Seq<Task>, t: Task) -> Seq<Task>
    decreases s.len(),
{
    if s.len() == 0 || s.last().priority >= t.priority {
        s.push(t)
    } else {
        stable_insert(s.drop_last(), t).push(s.last())
    }
}

/// A sorted sequence has an insertion point for every priority.
pub proof fn lemma_insertion_point_exists(s: Seq<Task>, p: i32)
    requires
        sorted_by_priority(s),
    ensures
        exists|k: int| is_insertion_point(s, p, k),
    decreases s.len(),
{
    if s.len() == 0 {
        assert(is_insertion_point(s, p, 0));
    } else if s.last().priority >= p {
        assert(is_insertion_point(s, p, s.len() as int));
    } else {
        let d = s.drop_last();
        lemma_insertion_point_exists(d, p);
        let k = choose|k: int| is_insertion_point(d, p, k);
        assert forall|j: int| 0 <= j < k implies (#[trigger] s[j]).priority >= p by {
            assert(d[j] == s[j]);
        }
        assert forall|j: int| k <= j < s.len() implies (#[trigger] s[j]).priority < p by {
            if j < d.len() {
                assert(d[j] == s[j]);
            }
        }
        assert(is_insertion_point(s, p, k));
    }
}

/// In a sorted sequence, inserting at the insertion point is `stable_insert`.
pub proof fn lemma_insert_at_point_is_stable_insert(s: Seq<Task>, t: Task, k: int)
    requires
        sorted_by_priority(s),
        is_insertion_point(s, t.priority, k),
    ensures
        s.insert(k, t) == stable_insert(s, t),
    decreases s.len(),
{
    if s.len() == 0 {
        assert(s.insert(k, t) =~= s.push(t));
    } else if s.last().priority >= t.priority {
        assert(k == s.len());
        assert(s.insert(k, t) =~= s.push(t));
    } else {
        let d = s.drop_last();
        assert(is_insertion_point(d, t.priority, k));
        lemma_insert_at_point_is_stable_insert(d, t, k);
        assert(s.insert(k, t) =~= d.insert(k, t).push(s.last()));
    }
}

/// Inserting at the insertion point keeps a sequence sorted.
pub proof fn lemma_insert_at_point_sorted(s: Seq<Task>, t: Task, k: int)
    requires
        sorted_by_priority(s),
        is_insertion_point(s, t.priority, k),
    ensures
        sorted_by_priority(s.insert(k, t)),
{
    let r = s.insert(k, t);
    assert forall|i: int, j: int| 0 <= i < j < r.len() implies r[i].priority >= r[j].priority by {
        if j < k {
        } else if j == k {
        } else if i < k {
            assert(r[j] == s[j - 1]);
        } else if i == k {
            assert(r[j] == s[j - 1]);
        } else {
            assert(r[j] == s[j - 1]);
            assert(r[i] == s[i - 1]);
        }
    }
}

/// The tasks of `s` whose priority is `p`, in their order.
pub open spec fn of_priority(s: Seq<Task>, p: i32) -> Seq<Task> {
    s.filter(|x: Task| x.priority == p)
}

/// The order in which they were enqueued is kept among tasks of one priority.
pub proof fn lemma_stable_insert_filter(s: Seq<Task>, t: Task, p: i32)
    ensures
        of_priority(stable_insert(s, t), p) == if t.priority == p {
            of_priority(s, p).push(t)
        } else {
            of_priority(s, p)
        },
    decreases s.len(),
{
    broadcast use Seq::lemma_filter_push;

    if s.len() == 0 || s.last().priority >= t.priority {
    } else {
        let d = s.drop_last();
        lemma_stable_insert_filter(d, t, p);
        assert(d.push(s.last()) == s);
    }
}

/// Priorities never increase along the sequence.
pub open spec fn sorted_by_priority(s: Seq<Task>) -> bool {
    forall|i: int, j: int| 0 <= i < j < s.len() ==> s[i].priority >= s[j].priority
}

/// No two tasks share an id.
pub open spec fn ids_unique(s: Seq<Task>) -> bool {
    forall|i: int, j: int|
        0 <= i < s.len() && 0 <= j < s.len() && i != j ==> s[i].id@ != s[j].id@
}

pub open spec fn all_tasks_wf(s: Seq<Task>) -> bool {
    forall|i: int| 0 <= i < s.len() ==> (#[trigger] s[i]).wf()
}

/// The queue's invariant: sorted by priority, ids unique, every task well formed.
pub open spec fn queue_wf(s: Seq<Task>) -> bool {
    sorted_by_priority(s) && ids_unique(s) && all_tasks_wf(s)
}

pub open spec fn contains_id(s: Seq<Task>, id: Seq<char>) -> bool {
    exists|i: int| 0 <= i < s.len() && (#[trigger] s[i]).id@ == id
}

/// Position `k` follows every task of priority at least `p` and precedes every
/// task of lower priority: where a stable sort puts a task of priority `p`
/// appended to `s`.
pub open spec fn is_insertion_point(s: Seq<Task>, p: i32, k: int) -> bool {
    &&& 0 <= k <= s.len()
    &&& forall|j: int| 0 <= j < k ==> (#[trigger] s[j]).priority >= p
    &&& forall|j: int| k <= j < s.len() ==> (#[trigger] s[j]).priority < p
}

/// A status change is allowed out of a non-terminal state, never backwards.
pub open spec fn transition_allowed(from: TaskStatus, to: TaskStatus) -> bool {
    !status_is_terminal(from) && status_rank(from) <= status_rank(to)
}

/// The task after a status change to `to` at time `now`: a task that reaches
/// Running, Completed or Failed gets a start time if it had none, a terminal
/// task gets a completion time, and a given result or error replaces the old one.
pub open spec fn updated_task(
    t: Task,
    to: TaskStatus,
    result: Option<String>,
    error: Option<String>,
    now: String,
) -> Task {
    Task {
        status: to,
        started_at: if t.started_at is None && (to == TaskStatus::Running || to
            == TaskStatus::Completed || to == TaskStatus::Failed) {
            Some(now)
        } else {
            t.started_at
        },
        completed_at: if status_is_terminal(to) {
            Some(now)
        } else {
            t.completed_at
        },
        result: if result is Some {
            result
        } else {
            t.result
        },
        error: if error is Some {
            error
        } else {
            t.error
        },
        ..t
    }
}

/// The tasks that are not in a terminal state, in their order.
pub open spec fn retain_active(s: Seq<Task>) -> Seq<Task>
    decreases s.len(),
{
    if s.len() == 0 {
        s
    } else {
        let r = retain_active(s.drop_last());
        if status_is_terminal(s.last().status) {
            r
        } else {
            r.push(s.last())
        }
    }
}

/// Number of tasks in status `st`.
pub open spec fn count_status(s: Seq<Task>, st: TaskStatus) -> nat
    decreases s.len(),
{
    if s.len() == 0 {
        0
    } else {
        count_status(s.drop_last(), st) + if s.last().status == st {
            1nat
        } else {
            0nat
        }
    }
}

/// Counts of the queued tasks by status.
#[derive(Debug, Clone, Copy, PartialEq, Eq, Structural)]
pub struct QueueStats {
    pub pending: usize,
    pub running: usize,
    pub completed: usize,
    pub failed: usize,
    pub total: usize,
}

/// The tasks, highest priority first; among equal priorities, earliest enqueued first.
pub struct TaskQueue {
    tasks: Vec<Task>,
}

impl View for TaskQueue {
    type V = Seq<Task>;

    closed spec fn view(&self) -> Seq<Task> {
        self.tasks@
    }
}

impl TaskQueue {
    pub open spec fn wf(&self) -> bool {
        queue_wf(self@)
    }

    pub fn new() -> (r: TaskQueue)
        ensures
            r@ == Seq::<Task>::empty(),
            r.wf(),
    {
        TaskQueue { tasks: Vec::new() }
    }

    pub fn len(&self) -> (r: usize)
        ensures
            r == self@.len(),
    {
        self.tasks.len()
    }

    /// The task at position `i`.
    pub fn get(&self, i: usize) -> (r: &Task)
        requires
            i < self@.len(),
        ensures
            *r == self@[i as int],
    {
        &self.tasks[i]
    }

    /// Position of the task with id `id`, if one is queued.
    pub fn position_of(&self, id: &str) -> (r: Option<usize>)
        ensures
            match r {
                Some(i) => i < self@.len() && self@[i as int].id@ == id@,
                None => !contains_id(self@, id@),
            },
    {
        let mut i: usize = 0;
        while i < self.tasks.len()
            invariant
                i <= self.tasks@.len(),
                forall|j: int| 0 <= j < i ==> self.tasks@[j].id@ != id@,
            decreases self.tasks@.len() - i,
        {
            if text_eq(self.tasks[i].id.as_str(), id) {
                return Some(i);
            }
            i = i + 1;
        }
        None
    }

    /// Inserts `task` behind every queued task of equal or higher priority
    /// and ahead of every lower one, which is where a stable sort by
    /// descending priority puts it. Fails with `InvalidTask`, leaving the
    /// queue unchanged, where the id is already queued or the task's
    /// timestamps disagree with its status.
    pub fn enqueue(&mut self, task: Task) -> (r: Result<(), OrchestratorError>)
        requires
            old(self).wf(),
        ensures
            final(self).wf(),
            r is Err <==> (contains_id(old(self)@, task.id@) || !task.wf()),
            r is Err ==> r == Err::<(), OrchestratorError>(OrchestratorError::InvalidTask)
                && final(self)@ == old(self)@,
            r is Ok ==> exists|k: int|
                is_insertion_point(old(self)@, task.priority, k) && final(self)@ == old(self)@.insert(k, task),
            r is Ok ==> final(self)@ == stable_insert(old(self)@, task),
    {
        if !task.is_well_formed() {
            return Err(OrchestratorError::InvalidTask);
        }
        if self.position_of(task.id.as_str()).is_some() {
            return Err(OrchestratorError::InvalidTask);
        }
        let ghost s = self.tasks@;
        let p = task.priority;
        let mut k: usize = 0;
        while k < self.tasks.len() && self.tasks[k].priority >= p
            invariant
                s == self.tasks@,
                k <= s.len(),
                forall|j: int| 0 <= j < k ==> (#[trigger] s[j]).priority >= p,
            decreases s.len() - k,
        {
            k = k + 1;
        }
        proof {
            if k < s.len() {
                assert forall|j: int| k <= j < s.len() implies (#[trigger] s[j]).priority < p by {
                    assert(s[k as int].priority >= s[j].priority);
                }
            }
            assert(is_insertion_point(s, p, k as int));
            lemma_insert_at_point_is_stable_insert(s, task, k as int);
        }
        self.tasks.insert(k, task);
        proof {
            let t = self.tasks@;
            assert(t == s.insert(k as int, task));
            assert forall|i: int, j: int| 0 <= i < j < t.len() implies t[i].priority
                >= t[j].priority by {
                if j < k {
                } else if j == k {
                } else if i < k {
                } else if i == k {
                    assert(t[j] == s[j - 1]);
                } else {
                    assert(t[j] == s[j - 1]);
                    assert(t[i] == s[i - 1]);
                }
            }
            assert forall|i: int, j: int|
                0 <= i < t.len() && 0 <= j < t.len() && i != j implies t[i].id@ != t[j].id@ by {
                if i == k {
                    assert(t[j] == (if j < k { s[j] } else { s[j - 1] }));
                } else if j == k {
                    assert(t[i] == (if i < k { s[i] } else { s[i - 1] }));
                } else {
                    let ii = if i < k { i } else { i - 1 };
                    let jj = if j < k { j } else { j - 1 };
                    assert(t[i] == s[ii] && t[j] == s[jj]);
                }
            }
            assert forall|i: int| 0 <= i < t.len() implies (#[trigger] t[i]).wf() by {
                if i < k {
                } else if i > k {
                    assert(t[i] == s[i - 1]);
                }
            }
        }
        Ok(())
    }

    /// A copy of the task with id `id`.
    pub fn find(&self, id: &str) -> (r: Result<Task, OrchestratorError>)
        ensures
            r is Err <==> !contains_id(self@, id@),
            r is Err ==> r == Err::<Task, OrchestratorError>(OrchestratorError::TaskNotFound),
            r matches Ok(t) ==> t.id@ == id@ && exists|i: int| 0 <= i < self@.len() && self@[i] == t,
    {
        match self.position_of(id) {
            Some(i) => Ok(self.tasks[i].snapshot()),
            None => Err(OrchestratorError::TaskNotFound),
        }
    }

    /// Moves the task with id `id` to `to`, stamping times as `updated_task`
    /// says. Fails with `TaskNotFound` where no such task is queued and with
    /// `IllegalTransition` where `transition_allowed` does not hold; on failure
    /// the queue is unchanged.
    pub fn update_status(
        &mut self,
        id: &str,
        to: TaskStatus,
        result: Option<String>,
        error: Option<String>,
        now: String,
    ) -> (r: Result<(), OrchestratorError>)
        requires
            old(self).wf(),
        ensures
            final(self).wf(),
            !contains_id(old(self)@, id@) ==> r == Err::<(), OrchestratorError>(
                OrchestratorError::TaskNotFound,
            ),
            forall|i: int|
                0 <= i < old(self)@.len() && old(self)@[i].id@ == id@ ==> {
                    &&& !transition_allowed(old(self)@[i].status, to) ==> r == Err::<
                        (),
                        OrchestratorError,
                    >(OrchestratorError::IllegalTransition)
                    &&& transition_allowed(old(self)@[i].status, to) ==> r is Ok && final(self)@ == old(self)@.update(i, updated_task(old(self)@[i], to, result, error, now))
                },
            final(self)@.len() == old(self)@.len(),
            forall|j: int|
                0 <= j < old(self)@.len() && status_is_terminal(old(self)@[j].status) ==> #[trigger] final(self)@[j]
                    == old(self)@[j],
            r is Err ==> final(self)@ == old(self)@,
    {
        match self.position_of(id) {
            None => Err(OrchestratorError::TaskNotFound),
            Some(i) => {
                let from = self.tasks[i].status;
                let allowed = match (from, to) {
                    (TaskStatus::Completed, _) | (TaskStatus::Failed, _) | (
                        TaskStatus::Cancelled,
                        _,
                    ) => false,
                    (TaskStatus::Running, TaskStatus::Pending) => false,
                    _ => true,
                };
                if !allowed {
                    proof {
                        self.lemma_id_position(i as int, id@);
                    }
                    return Err(OrchestratorError::IllegalTransition);
                }
                self.set_status_at(i, to, result, error, now);
                proof {
                    self.lemma_id_position(i as int, id@);
                }
                Ok(())
            },
        }
    }

    proof fn lemma_id_position(&self, i: int, id: Seq<char>)
        requires
            self.wf(),
            0 <= i < self@.len(),
            self@[i].id@ == id,
        ensures
            forall|j: int| 0 <= j < self@.len() && self@[j].id@ == id ==> j == i,
    {
    }

    pub fn set_status_at(
        &mut self,
        i: usize,
        to: TaskStatus,
        result: Option<String>,
        error: Option<String>,
        now: String,
    )
        requires
            old(self).wf(),
            i < old(self)@.len(),
            transition_allowed(old(self)@[i as int].status, to),
        ensures
            final(self).wf(),
            final(self)@ == old(self)@.update(
                i as int,
                updated_task(old(self)@[i as int], to, result, error, now),
            ),
    {
        let ghost s = self.tasks@;
        let starts = match to {
            TaskStatus::Running | TaskStatus::Completed | TaskStatus::Failed => true,
            _ => false,
        };
        if starts && self.tasks[i].started_at.is_none() {
            self.tasks[i].started_at = Some(now.clone());
        }
        if to.is_terminal() {
            self.tasks[i].completed_at = Some(now);
        }
        self.tasks[i].status = to;
        if result.is_some() {
            self.tasks[i].result = result;
        }
        if error.is_some() {
            self.tasks[i].error = error;
        }
        proof {
            let t = updated_task(s[i as int], to, result, error, now);
            assert(self.tasks@[i as int] == t);
            assert(self.tasks@ =~= s.update(i as int, t));
            assert forall|a: int| 0 <= a < self.tasks@.len() implies (
            #[trigger] self.tasks@[a]).wf() by {
                if a != i {
                    assert(s[a].wf());
                }
            }
        }
    }

    /// Cancels the task with id `id` from any non-terminal state, stamping
    /// its completion time. Fails with `TaskNotFound` where no such task is
    /// queued and with `AlreadyTerminal` where it is Completed, Failed or
    /// Cancelled already; on failure the queue is unchanged.
    pub fn cancel(&mut self, id: &str, now: String) -> (r: Result<(), OrchestratorError>)
        requires
            old(self).wf(),
        ensures
            final(self).wf(),
            !contains_id(old(self)@, id@) ==> r == Err::<(), OrchestratorError>(
                OrchestratorError::TaskNotFound,
            ),
            forall|i: int|
                0 <= i < old(self)@.len() && old(self)@[i].id@ == id@ ==> {
                    &&& status_is_terminal(old(self)@[i].status) ==> r == Err::<
                        (),
                        OrchestratorError,
                    >(OrchestratorError::AlreadyTerminal)
                    &&& !status_is_terminal(old(self)@[i].status) ==> r is Ok && final(self)@ == old(self)@.update(
                        i,
                        updated_task(old(self)@[i], TaskStatus::Cancelled, None, None, now),
                    )
                },
            final(self)@.len() == old(self)@.len(),
            forall|j: int|
                0 <= j < old(self)@.len() && status_is_terminal(old(self)@[j].status) ==> #[trigger] final(self)@[j]
                    == old(self)@[j],
            r is Err ==> final(self)@ == old(self)@,
    {
        match self.position_of(id) {
            None => Err(OrchestratorError::TaskNotFound),
            Some(i) => {
                proof {
                    self.lemma_id_position(i as int, id@);
                }
                if self.tasks[i].status.is_terminal() {
                    return Err(OrchestratorError::AlreadyTerminal);
                }
                self.set_status_at(i, TaskStatus::Cancelled, None, None, now);
                Ok(())
            },
        }
    }

    /// Removes every Completed, Failed and Cancelled task; the others keep their order.
    pub fn clear_terminal(&mut self)
        requires
            old(self).wf(),
        ensures
            final(self).wf(),
            final(self)@ == retain_active(old(self)@),
    {
        let ghost s = self.tasks@;
        let mut kept: Vec<Task> = Vec::new();
        let ghost mut from: Seq<int> = Seq::empty();
        let mut i: usize = 0;
        while i < self.tasks.len()
            invariant
                self.tasks@ == s,
                queue_wf(s),
                i <= s.len(),
                kept@ == retain_active(s.subrange(0, i as int)),
                from.len() == kept@.len(),
                forall|a: int| 0 <= a < from.len() ==> 0 <= #[trigger] from[a] < i,
                forall|a: int| 0 <= a < from.len() ==> kept@[a] == s[#[trigger] from[a]],
                forall|a: int, b: int| 0 <= a < b < from.len() ==> from[a] < from[b],
            decreases s.len() - i,
        {
            assert(s.subrange(0, i as int + 1).drop_last() =~= s.subrange(0, i as int));
            if !self.tasks[i].status.is_terminal() {
                kept.push(self.tasks[i].snapshot());
                proof {
                    from = from.push(i as int);
                }
            }
            i = i + 1;
        }
        assert(s.subrange(0, s.len() as int) =~= s);
        proof {
            let k = kept@;
            assert forall|a: int, b: int| 0 <= a < b < k.len() implies k[a].priority
                >= k[b].priority by {
                assert(k[a] == s[from[a]] && k[b] == s[from[b]]);
            }
            assert forall|a: int, b: int|
                0 <= a < k.len() && 0 <= b < k.len() && a != b implies k[a].id@ != k[b].id@ by {
                assert(k[a] == s[from[a]] && k[b] == s[from[b]]);
                assert(from[a] != from[b]);
            }
            assert forall|a: int| 0 <= a < k.len() implies (#[trigger] k[a]).wf() by {
                assert(k[a] == s[from[a]]);
            }
        }
        self.tasks = kept;
    }

    /// Counts of the queued tasks by status.
    pub fn stats(&self) -> (r: QueueStats)
        ensures
            r.pending == count_status(self@, TaskStatus::Pending),
            r.running == count_status(self@, TaskStatus::Running),
            r.completed == count_status(self@, TaskStatus::Completed),
            r.failed == count_status(self@, TaskStatus::Failed),
            r.total == self@.len(),
    {
        let ghost s = self.tasks@;
        let mut st = QueueStats { pending: 0, running: 0, completed: 0, failed: 0, total: 0 };
        let mut i: usize = 0;
        while i < self.tasks.len()
            invariant
                s == self.tasks@,
                i <= s.len(),
                st.pending == count_status(s.subrange(0, i as int), TaskStatus::Pending),
                st.running == count_status(s.subrange(0, i as int), TaskStatus::Running),
                st.completed == count_status(s.subrange(0, i as int), TaskStatus::Completed),
                st.failed == count_status(s.subrange(0, i as int), TaskStatus::Failed),
                st.pending <= i && st.running <= i && st.completed <= i && st.failed <= i,
            decreases s.len() - i,
        {
            assert(s.subrange(0, i as int + 1).drop_last() =~= s.subrange(0, i as int));
            match self.tasks[i].status {
                TaskStatus::Pending => st.pending = st.pending + 1,
                TaskStatus::Running => st.running = st.running + 1,
                TaskStatus::Completed => st.completed = st.completed + 1,
                TaskStatus::Failed => st.failed = st.failed + 1,
                TaskStatus::Cancelled => {},
            }
            i = i + 1;
        }
        assert(s.subrange(0, s.len() as int) =~= s);
        st.total = self.tasks.len();
        st
    }
}

} // verus!
