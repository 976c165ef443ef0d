use vstd::prelude::*;

use crate::queue::{queue_wf, updated_task, TaskQueue};
use crate::registry::{assigned, contains_key, registry_wf, Availability, Registry, RegistryEntry};
use crate::task::{Task, TaskStatus};

verus! {

/// Task `i` is pending and routed to `key`.
pub open spec fn pending_for(s: Seq<Task>, key: Seq<char>, i: int) -> bool {
    0 <= i < s.len() && s[i].status == TaskStatus::Pending && s[i].agent_name@ == key
}

/// Some task before position `n` is pending and routed to `key`.
pub open spec fn claimed_before(s: Seq<Task>, key: Seq<char>, n: int) -> bool {
    exists|j: int| 0 <= j < n && #[trigger] pending_for(s, key, j)
}

/// Task `i` is the first pending task routed to `key`, in queue order.
pub open spec fn first_pending_for(s: Seq<Task>, key: Seq<char>, i: int) -> bool {
    pending_for(s, key, i) && !claimed_before(s, key, i)
}

/// Some worker registered under `key` is available.
pub open spec fn worker_available(w: Seq<RegistryEntry>, key: Seq<char>) -> bool {
    exists|k: int|
        0 <= k < w.len() && (#[trigger] w[k]).key@ == key && w[k].info.status
            == Availability::Available
}

/// A scan starts task `i` exactly when it is the first pending task of its
/// worker and that worker was available.
pub open spec fn starts(s: Seq<Task>, w: Seq<RegistryEntry>, i: int) -> bool {
    first_pending_for(s, s[i].agent_name@, i) && worker_available(w, s[i].agent_name@)
}

/// The ids of the tasks among the first `n` that a scan starts, in queue order.
pub open spec fn started_ids(s: Seq<Task>, w: Seq<RegistryEntry>, n: int) -> Seq<Seq<char>>
    decreases n,
{
    if n <= 0 {
        Seq::empty()
    } else if starts(s, w, n - 1) {
        started_ids(s, w, n - 1).push(s[n - 1].id@)
    } else {
        started_ids(s, w, n - 1)
    }
}

/// Task `i` after a scan at time `now`: started tasks run from `now` on.
pub open spec fn scanned_task(s: Seq<Task>, w: Seq<RegistryEntry>, i: int, now: String) -> Task {
    if starts(s, w, i) {
        updated_task(s[i], TaskStatus::Running, None, None, now)
    } else {
        s[i]
    }
}

pub proof fn lemma_first_claim(s: Seq<Task>, key: Seq<char>, n: int)
    requires
        claimed_before(s, key, n),
    ensures
        exists|i: int| 0 <= i < n && #[trigger] first_pending_for(s, key, i),
    decreases n,
{
    if claimed_before(s, key, n - 1) {
        lemma_first_claim(s, key, n - 1);
    } else {
        assert(first_pending_for(s, key, n - 1));
    }
}

/// One pass of the dispatcher. Walks the queue in order; every pending task
/// whose worker is available starts running (stamped `now`), and its worker
/// turns busy holding that task, so that a worker takes at most one task per
/// pass. Nothing else changes. Returns the ids of the started tasks, in queue order.
pub fn dispatch_scan(queue: &mut TaskQueue, registry: &mut Registry, now: String) -> (r: Vec<String>)
    requires
        old(queue).wf(),
        old(registry).wf(),
    ensures
        r@.map_values(|x: String| x@) == started_ids(old(queue)@, old(registry)@, old(queue)@.len() as int),
        final(queue).wf(),
        final(registry).wf(),
        forall|k: int|
            0 <= k < final(registry)@.len() ==> ((#[trigger] final(registry)@[k]).info.current_task is Some
                <==> final(registry)@[k].info.status == Availability::Busy),
        final(queue)@.len() == old(queue)@.len(),
        forall|i: int|
            0 <= i < old(queue)@.len() && old(queue)@[i].status != TaskStatus::Pending ==> #[trigger] final(queue)@[i]
                == old(queue)@[i],
        forall|i: int|
            0 <= i < old(queue)@.len() ==> #[trigger] final(queue)@[i] == scanned_task(
                old(queue)@,
                old(registry)@,
                i,
                now,
            ),
        final(registry)@.len() == old(registry)@.len(),
        forall|k: int, i: int|
            #![trigger final(registry)@[k], first_pending_for(old(queue)@, old(registry)@[k].key@, i)]
            0 <= k < old(registry)@.len() && old(registry)@[k].info.status
                == Availability::Available && first_pending_for(
                old(queue)@,
                old(registry)@[k].key@,
                i,
            ) ==> final(registry)@[k] == assigned(old(registry)@[k], old(queue)@[i].id),
        forall|k: int|
            0 <= k < old(registry)@.len() && !(old(registry)@[k].info.status
                == Availability::Available && claimed_before(
                old(queue)@,
                old(registry)@[k].key@,
                old(queue)@.len() as int,
            )) ==> #[trigger] final(registry)@[k] == old(registry)@[k],
{
    let ghost s = queue@;
    let ghost w = registry@;
    let mut started: Vec<String> = Vec::new();
    let mut i: usize = 0;
    while i < queue.len()
        invariant
            started@.map_values(|x: String| x@) == started_ids(s, w, i as int),
            queue.wf(),
            registry.wf(),
            queue@.len() == s.len(),
            registry@.len() == w.len(),
            registry_wf(w),
            queue_wf(s),
            forall|k: int| 0 <= k < w.len() ==> (#[trigger] registry@[k]).key == w[k].key,
            i <= s.len(),
            forall|a: int| 0 <= a < i ==> #[trigger] queue@[a] == scanned_task(s, w, a, now),
            forall|a: int| i <= a < s.len() ==> #[trigger] queue@[a] == s[a],
            forall|k: int, j: int|
                #![trigger registry@[k], first_pending_for(s, w[k].key@, j)]
                0 <= k < w.len() && w[k].info.status == Availability::Available && 0 <= j < i
                    && first_pending_for(s, w[k].key@, j) ==> registry@[k] == assigned(w[k], s[j].id),
            forall|k: int|
                0 <= k < w.len() && !(w[k].info.status == Availability::Available
                    && claimed_before(s, w[k].key@, i as int)) ==> #[trigger] registry@[k] == w[k],
        decreases s.len() - i,
    {
        let t = queue.get(i);
        if t.status == TaskStatus::Pending {
            let pos = registry.position_of(t.agent_name.as_str());
            match pos {
                Some(k) => {
                    if registry.entry(k).info.status == Availability::Available {
                        let id = t.id.clone();
                        let id2 = t.id.clone();
                        proof {
                            registry.lemma_key_position(k as int, s[i as int].agent_name@);
                            // the worker at k has seen no earlier claim
                            if claimed_before(s, w[k as int].key@, i as int) {
                                lemma_first_claim(s, w[k as int].key@, i as int);
                                let j = choose|j: int|
                                    0 <= j < i && #[trigger] first_pending_for(s, w[k as int].key@, j);
                                assert(registry@[k as int] == assigned(w[k as int], s[j].id));
                            }
                            assert(!claimed_before(s, s[i as int].agent_name@, i as int));
                            assert(worker_available(w, s[i as int].agent_name@)) by {
                                assert(w[k as int].key@ == s[i as int].agent_name@);
                            }
                        }
                        queue.set_status_at(i, TaskStatus::Running, None, None, now.clone());
                        registry.assign(k, id);
                        proof {
                            assert(starts(s, w, i as int));
                        }
                        let ghost before = started@;
                        started.push(id2);
                        assert(started@.map_values(|x: String| x@) =~= before.map_values(|x: String| x@).push(s[i as int].id@));
                        proof {
                            let key = s[i as int].agent_name@;
                            assert forall|kk: int|
                                0 <= kk < w.len() && !(w[kk].info.status == Availability::Available
                                    && claimed_before(s, w[kk].key@, i + 1)) implies #[trigger] registry@[kk]
                                == w[kk] by {
                                if kk == k {
                                    assert(pending_for(s, w[kk].key@, i as int));
                                }
                            }
                            assert forall|kk: int, j: int|
                                #![trigger registry@[kk], first_pending_for(s, w[kk].key@, j)]
                                0 <= kk < w.len() && w[kk].info.status == Availability::Available && 0
                                    <= j < i + 1 && first_pending_for(s, w[kk].key@, j) implies registry@[kk]
                                == assigned(w[kk], s[j].id) by {
                                if kk == k {
                                    if j < i {
                                        assert(pending_for(s, key, j));
                                        assert(claimed_before(s, key, i as int));
                                    }
                                } else if j == i {
                                    registry.lemma_key_position(k as int, key);
                                }
                            }
                        }
                    } else {
                        proof {
                            registry.lemma_key_position(k as int, s[i as int].agent_name@);
                            let key = s[i as int].agent_name@;
                            // the worker is not available now: it was not, or an earlier task took it
                            if first_pending_for(s, key, i as int) && worker_available(w, key) {
                                let kk = choose|kk: int|
                                    0 <= kk < w.len() && (#[trigger] w[kk]).key@ == key
                                        && w[kk].info.status == Availability::Available;
                                assert(registry@[k as int].key == w[k as int].key);
                                assert(kk == k);
                                assert(registry@[k as int] == w[k as int]);
                            }
                            assert forall|kk: int|
                                0 <= kk < w.len() && !(w[kk].info.status == Availability::Available
                                    && claimed_before(s, w[kk].key@, i + 1)) implies #[trigger] registry@[kk]
                                == w[kk] by {
                                if kk == k && w[kk].info.status == Availability::Available {
                                    assert(pending_for(s, w[kk].key@, i as int));
                                }
                            }
                            assert forall|kk: int, j: int|
                                #![trigger registry@[kk], first_pending_for(s, w[kk].key@, j)]
                                0 <= kk < w.len() && w[kk].info.status == Availability::Available && 0
                                    <= j < i + 1 && first_pending_for(s, w[kk].key@, j) implies registry@[kk]
                                == assigned(w[kk], s[j].id) by {
                                if j == i {
                                    registry.lemma_key_position(k as int, key);
                                    if claimed_before(s, key, i as int) {
                                    } else {
                                        assert(kk == k);
                                        assert(registry@[k as int] == w[k as int]);
                                    }
                                }
                            }
                        }
                    }
                },
                None => {
                    proof {
                        let key = s[i as int].agent_name@;
                        if worker_available(w, key) {
                            let kk = choose|kk: int|
                                0 <= kk < w.len() && (#[trigger] w[kk]).key@ == key
                                    && w[kk].info.status == Availability::Available;
                            assert(registry@[kk].key == w[kk].key);
                            assert(contains_key(registry@, key));
                        }
                        assert forall|kk: int|
                            0 <= kk < w.len() && !(w[kk].info.status == Availability::Available
                                && claimed_before(s, w[kk].key@, i + 1)) implies #[trigger] registry@[kk]
                            == w[kk] by {
                            if w[kk].key@ == key {
                            } else if claimed_before(s, w[kk].key@, i + 1) {
                                let j = choose|j: int| 0 <= j < i + 1 && #[trigger] pending_for(s, w[kk].key@, j);
                                assert(j != i);
                                assert(claimed_before(s, w[kk].key@, i as int));
                            }
                        }
                        assert forall|kk: int, j: int|
                                #![trigger registry@[kk], first_pending_for(s, w[kk].key@, j)]
                            0 <= kk < w.len() && w[kk].info.status == Availability::Available && 0
                                <= j < i + 1 && first_pending_for(s, w[kk].key@, j) implies registry@[kk]
                            == assigned(w[kk], s[j].id) by {
                            if j == i {
                                assert(w[kk].key@ == key);
                            }
                        }
                    }
                },
            }
        } else {
            proof {
                assert forall|kk: int|
                    0 <= kk < w.len() && !(w[kk].info.status == Availability::Available
                        && claimed_before(s, w[kk].key@, i + 1)) implies #[trigger] registry@[kk]
                    == w[kk] by {
                    if claimed_before(s, w[kk].key@, i + 1) {
                        let j = choose|j: int| 0 <= j < i + 1 && #[trigger] pending_for(s, w[kk].key@, j);
                        assert(j != i);
                        assert(claimed_before(s, w[kk].key@, i as int));
                    }
                }
            }
        }
        i = i + 1;
    }
    started
}

} // verus!
