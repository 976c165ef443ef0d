use vstd::prelude::*;

use crate::dispatcher::{dispatch_scan, first_pending_for, scanned_task, started_ids};
use crate::error::OrchestratorError;
use crate::outside::{new_task_id, now_rfc3339, random_draw};
use crate::queue::{
    contains_id, is_insertion_point, retain_active, updated_task, QueueStats,
    TaskQueue,
};
use crate::registry::{
    contains_key, registry_wf, RegistryEntry, holds_task, sampled, with_availability, AgentInfo, Availability, Registry,
    HEALTH_FULL,
};
use crate::router::{determine_agent_for_file, route_for_path};
use crate::task::{status_is_terminal, Task, TaskStatus};

verus! {

/// Lowest health score a sampling pass reports, in thousandths.
pub const HEALTH_FLOOR: u32 = 950;

/// Whether the orchestrator has been started.
#[derive(Debug, Clone, Copy, PartialEq, Eq, Structural)]
pub enum RunState {
    Stopped,
    Running,
}

impl RunState {
    pub open spec fn text(&self) -> Seq<char> {
        match self {
            RunState::Stopped => "stopped"@,
            RunState::Running => "running"@,
        }
    }

    pub fn as_str(&self) -> (r: &'static str)
        ensures
            r@ == self.text(),
    {
        match self {
            RunState::Stopped => "stopped",
            RunState::Running => "running",
        }
    }
}

/// Overall health of the system as a monitor reports it.
#[derive(Debug, Clone, Copy, PartialEq, Eq, Structural)]
pub enum HealthStatus {
    Healthy,
    Warning,
    Critical,
    Unknown,
}

/// A component's name, lifecycle state, last activity and resource use
/// (`cpu_usage` in thousandths).
#[derive(Debug, Clone)]
pub struct AgentStatus {
    pub name: String,
    pub status: String,
    pub last_activity: String,
    pub memory_usage: i64,
    pub cpu_usage: u32,
}

/// A status record for a component, stamped with the current time.
pub fn create_agent_status(name: &str, status: &str, memory_usage: i64, cpu_usage: u32) -> (r:
    AgentStatus)
    ensures
        r.name@ == name@,
        r.status@ == status@,
        r.memory_usage == memory_usage,
        r.cpu_usage == cpu_usage,
{
    AgentStatus {
        name: String::from_str(name),
        status: String::from_str(status),
        last_activity: now_rfc3339(),
        memory_usage,
        cpu_usage,
    }
}

/// Process-wide counters. `cpu_usage` and `disk_usage` are in thousandths,
/// `uptime` counts health sampling passes.
#[derive(Debug, Clone, Copy, PartialEq, Eq, Structural)]
pub struct SystemMetrics {
    pub total_memory: i64,
    pub used_memory: i64,
    pub cpu_usage: u32,
    pub disk_usage: u32,
    pub active_tasks: i32,
    pub completed_tasks: i32,
    pub failed_tasks: i32,
    pub uptime: u64,
}

/// Counts of the queue by status, copies of the registry's workers, and the
/// configured concurrency.
pub struct QueueStatus {
    pub queue_stats: QueueStats,
    pub agents: Vec<AgentInfo>,
    pub max_concurrent_tasks: i32,
}

/// The health score a sampling pass derives from a random draw: between
/// `HEALTH_FLOOR` and `HEALTH_FULL`.
pub open spec fn health_from_draw(d: u64) -> u32 {
    (HEALTH_FLOOR + d % 51) as u32
}

/// The task after a completion report at time `now`: Completed with
/// `payload` as its result, or Failed with `payload` as its error.
pub open spec fn reported_task(t: Task, succeeded: bool, payload: String, now: String) -> Task {
    if succeeded {
        updated_task(t, TaskStatus::Completed, Some(payload), None, now)
    } else {
        updated_task(t, TaskStatus::Failed, None, Some(payload), now)
    }
}

/// Queue `s2` and registry `w2` are what a dispatcher pass at time `now`
/// makes of queue `s` and registry `w`: each task becomes its
/// `scanned_task`; an available worker whose key has a pending task holds
/// the first such task and is busy; every other worker is unchanged.
pub open spec fn dispatched(
    s: Seq<Task>,
    w: Seq<RegistryEntry>,
    s2: Seq<Task>,
    w2: Seq<RegistryEntry>,
    now: String,
) -> bool {
    &&& s2.len() == s.len()
    &&& forall|i: int| 0 <= i < s.len() ==> #[trigger] s2[i] == scanned_task(s, w, i, now)
    &&& w2.len() == w.len()
    &&& forall|k: int, i: int|
        #![trigger w2[k], first_pending_for(s, w[k].key@, i)]
        0 <= k < w.len() && w[k].info.status == Availability::Available && first_pending_for(
            s,
            w[k].key@,
            i,
        ) ==> w2[k] == crate::registry::assigned(w[k], s[i].id)
    &&& forall|k: int|
        0 <= k < w.len() && !(w[k].info.status == Availability::Available
            && crate::dispatcher::claimed_before(s, w[k].key@, s.len() as int)) ==> #[trigger] w2[k]
            == w[k]
}

/// Every entry of `after` is its entry of `before` with some health score
/// and `now` as its last activity.
pub open spec fn all_sampled_at(
    before: Seq<RegistryEntry>,
    after: Seq<RegistryEntry>,
    now: String,
) -> bool {
    &&& after.len() == before.len()
    &&& forall|k: int|
        0 <= k < before.len() ==> #[trigger] after[k] == sampled(before[k], after[k].info.health_score, now)
}

/// `t` is the task that a submission of `path` with `parameters`, id `id`
/// and time `now` creates: routed by file type, priority 1, pending.
pub open spec fn is_submitted_task(
    t: Task,
    id: String,
    path: Seq<char>,
    parameters: String,
    now: String,
) -> bool {
    &&& t.id == id
    &&& t.agent_name@ == route_for_path(path)
    &&& t.task_type@ == "file_processing"@
    &&& t.parameters == parameters
    &&& t.priority == 1
    &&& t.status == TaskStatus::Pending
    &&& t.created_at == now
    &&& t.started_at is None
    &&& t.completed_at is None
    &&& t.result is None
    &&& t.error is None
}

/// `e` is a freshly registered entry: under `key`, named `name`, in state
/// `status`, fully healthy, with no usage, active at `now`, holding no task
/// and declaring the capabilities `caps`.
pub open spec fn is_fresh_entry(
    e: RegistryEntry,
    key: Seq<char>,
    name: Seq<char>,
    status: Availability,
    caps: Seq<Seq<char>>,
    now: String,
) -> bool {
    &&& e.key@ == key
    &&& e.info.name@ == name
    &&& e.info.status == status
    &&& e.info.health_score == HEALTH_FULL
    &&& e.info.memory_usage == 0
    &&& e.info.cpu_usage == 0
    &&& e.info.last_activity == now
    &&& e.info.capabilities@.map_values(|c: String| c@) == caps
    &&& e.info.current_task is None
}

pub open spec fn has_fresh_entry(
    w: Seq<RegistryEntry>,
    key: Seq<char>,
    name: Seq<char>,
    status: Availability,
    caps: Seq<Seq<char>>,
    now: String,
) -> bool {
    exists|k: int| 0 <= k < w.len() && #[trigger] is_fresh_entry(w[k], key, name, status, caps, now)
}

/// The registry `after` start-up at time `now`, from the registry `before`:
/// the transcription worker, the generation worker and the orchestrator's
/// own entry are all present; each one that was missing is a fresh entry
/// (the workers Available, the orchestrator Running); the orchestrator's
/// entry is Running; every other entry that was there is unchanged.
pub open spec fn known_workers_registered(
    before: Seq<RegistryEntry>,
    after: Seq<RegistryEntry>,
    now: String,
) -> bool {
    &&& contains_key(after, "vitra_lag"@)
    &&& contains_key(after, "ghost_lag"@)
    &&& contains_key(after, "ceo_lag"@)
    &&& !contains_key(before, "vitra_lag"@) ==> has_fresh_entry(
        after,
        "vitra_lag"@,
        "VITRA_LAG"@,
        Availability::Available,
        seq!["transcription"@, "translation"@],
        now,
    )
    &&& !contains_key(before, "ghost_lag"@) ==> has_fresh_entry(
        after,
        "ghost_lag"@,
        "GHOST_LAG"@,
        Availability::Available,
        seq!["content_generation"@, "optimization"@],
        now,
    )
    &&& !contains_key(before, "ceo_lag"@) ==> has_fresh_entry(
        after,
        "ceo_lag"@,
        "CEO_LAG"@,
        Availability::Running,
        seq!["orchestration"@, "task_management"@],
        now,
    )
    &&& forall|i: int|
        0 <= i < after.len() && (#[trigger] after[i]).key@ == "ceo_lag"@ ==> after[i].info.status
            == Availability::Running
    &&& after.len() >= before.len()
    &&& forall|i: int|
        0 <= i < before.len() && (#[trigger] before[i]).key@ != "ceo_lag"@ ==> after[i] == before[i]
    &&& forall|i: int|
        before.len() <= i < after.len() ==> is_known_key((#[trigger] after[i]).key@)
}

/// The keys of the workers and of the orchestrator's own entry.
pub open spec fn is_known_key(key: Seq<char>) -> bool {
    key == "vitra_lag"@ || key == "ghost_lag"@ || key == "ceo_lag"@
}

/// Registers an available worker under `key` unless the key is taken.
fn register_known(reg: &mut Registry, key: &str, name: &str, caps: Vec<String>, now: String)
    requires
        old(reg).wf(),
    ensures
        final(reg).wf(),
        contains_key(final(reg)@, key@),
        contains_key(old(reg)@, key@) ==> final(reg)@ == old(reg)@,
        !contains_key(old(reg)@, key@) ==> final(reg)@.len() == old(reg)@.len() + 1 && is_fresh_entry(
            final(reg)@.last(),
            key@,
            name@,
            Availability::Available,
            caps@.map_values(|c: String| c@),
            now,
        ),
        final(reg)@.len() >= old(reg)@.len(),
        forall|i: int| 0 <= i < old(reg)@.len() ==> #[trigger] final(reg)@[i] == old(reg)@[i],
        forall|i: int| old(reg)@.len() <= i < final(reg)@.len() ==> (#[trigger] final(reg)@[i]).key@ == key@,
{
    let ghost w = reg@;
    let ghost c = caps;
    let _ = reg.register(String::from_str(key), String::from_str(name), caps, now);
    proof {
        if !contains_key(w, key@) {
            assert(final(reg)@.drop_last() == w);
            assert forall|i: int| 0 <= i < w.len() implies #[trigger] final(reg)@[i] == w[i] by {
                assert(final(reg)@.drop_last()[i] == final(reg)@[i]);
            }
            assert(final(reg)@[w.len() as int] == final(reg)@.last());
        }
    }
}

/// The orchestration facade: owns the task queue, the worker registry and the metrics.
pub struct CeoAgent {
    pub status: RunState,
    pub memory_usage: i64,
    pub cpu_usage: u32,
    pub last_activity: String,
    pub task_queue: TaskQueue,
    pub agent_registry: Registry,
    pub system_metrics: SystemMetrics,
    pub max_concurrent_tasks: i32,
    pub task_timeout: i32,
}

impl CeoAgent {
    pub open spec fn wf(&self) -> bool {
        self.task_queue.wf() && self.agent_registry.wf()
    }

    /// A stopped orchestrator with an empty queue, an empty registry and zeroed metrics.
    pub fn new() -> (r: CeoAgent)
        ensures
            r.wf(),
            r.status == RunState::Stopped,
            r.memory_usage == 0,
            r.cpu_usage == 0,
            r.task_queue@.len() == 0,
            r.agent_registry@.len() == 0,
            r.system_metrics == (SystemMetrics {
                total_memory: 0,
                used_memory: 0,
                cpu_usage: 0,
                disk_usage: 0,
                active_tasks: 0,
                completed_tasks: 0,
                failed_tasks: 0,
                uptime: 0,
            }),
            r.max_concurrent_tasks == 5,
            r.task_timeout == 300,
    {
        CeoAgent {
            status: RunState::Stopped,
            memory_usage: 0,
            cpu_usage: 0,
            last_activity: now_rfc3339(),
            task_queue: TaskQueue::new(),
            agent_registry: Registry::new(),
            system_metrics: SystemMetrics {
                total_memory: 0,
                used_memory: 0,
                cpu_usage: 0,
                disk_usage: 0,
                active_tasks: 0,
                completed_tasks: 0,
                failed_tasks: 0,
                uptime: 0,
            },
            max_concurrent_tasks: 5,
            task_timeout: 300,
        }
    }

    /// This component's status record.
    pub fn get_status(&self) -> (r: AgentStatus)
        ensures
            r.name@ == "CEO_LAG"@,
            r.status@ == self.status.text(),
            r.last_activity == self.last_activity,
            r.memory_usage == self.memory_usage,
            r.cpu_usage == self.cpu_usage,
    {
        AgentStatus {
            name: String::from_str("CEO_LAG"),
            status: String::from_str(self.status.as_str()),
            last_activity: self.last_activity.clone(),
            memory_usage: self.memory_usage,
            cpu_usage: self.cpu_usage,
        }
    }

    /// Registers the two workers and the orchestrator's own entry where they
    /// are missing, and marks the orchestrator's entry Running (see
    /// `known_workers_registered`).
    fn initialize_agent_registry(&mut self, now: String)
        requires
            old(self).wf(),
        ensures
            final(self).wf(),
            final(self).task_queue == old(self).task_queue,
            final(self).status == old(self).status,
            final(self).last_activity == old(self).last_activity,
            known_workers_registered(old(self).agent_registry@, final(self).agent_registry@, now),
            old(self).agent_registry@.len() == 0 ==> final(self).agent_registry@.len() == 3,
    {
        proof {
            reveal_strlit("vitra_lag");
            reveal_strlit("ghost_lag");
            reveal_strlit("ceo_lag");
        }
        let ghost w0 = self.agent_registry@;
        let caps = vec![String::from_str("transcription"), String::from_str("translation")];
        assert(caps@.map_values(|c: String| c@) =~= seq!["transcription"@, "translation"@]);
        register_known(&mut self.agent_registry, "vitra_lag", "VITRA_LAG", caps, now.clone());
        let ghost w1 = self.agent_registry@;
        let caps = vec![String::from_str("content_generation"), String::from_str("optimization")];
        assert(caps@.map_values(|c: String| c@) =~= seq!["content_generation"@, "optimization"@]);
        register_known(&mut self.agent_registry, "ghost_lag", "GHOST_LAG", caps, now.clone());
        let ghost w2 = self.agent_registry@;
        let caps = vec![String::from_str("orchestration"), String::from_str("task_management")];
        assert(caps@.map_values(|c: String| c@) =~= seq!["orchestration"@, "task_management"@]);
        register_known(&mut self.agent_registry, "ceo_lag", "CEO_LAG", caps, now.clone());
        let ghost w3 = self.agent_registry@;
        proof {
            assert(contains_key(w3, "vitra_lag"@)) by {
                let i = choose|i: int| 0 <= i < w1.len() && (#[trigger] w1[i]).key@ == "vitra_lag"@;
                assert(w2[i] == w1[i]);
                assert(w3[i] == w2[i]);
            }
            assert(contains_key(w3, "ghost_lag"@)) by {
                let i = choose|i: int| 0 <= i < w2.len() && (#[trigger] w2[i]).key@ == "ghost_lag"@;
                assert(w3[i] == w2[i]);
            }
            if !contains_key(w0, "vitra_lag"@) {
                let k = w0.len() as int;
                assert(w2[k] == w1[k]);
                assert(w3[k] == w2[k]);
            }
            if !contains_key(w1, "ghost_lag"@) {
                let k = w1.len() as int;
                assert(w3[k] == w2[k]);
            }
            if !contains_key(w0, "ghost_lag"@) {
                assert(!contains_key(w1, "ghost_lag"@)) by {
                    if contains_key(w1, "ghost_lag"@) {
                        let i = choose|i: int| 0 <= i < w1.len() && (#[trigger] w1[i]).key@ == "ghost_lag"@;
                        if i < w0.len() {
                            assert(w1[i] == w0[i]);
                        } else {
                            assert(w1[i].key@ == "vitra_lag"@);
                            assert("vitra_lag"@[0] != "ghost_lag"@[0]);
                        }
                    }
                }
            }
            if !contains_key(w0, "ceo_lag"@) {
                assert(!contains_key(w2, "ceo_lag"@)) by {
                    if contains_key(w2, "ceo_lag"@) {
                        let i = choose|i: int| 0 <= i < w2.len() && (#[trigger] w2[i]).key@ == "ceo_lag"@;
                        if i < w1.len() {
                            assert(w2[i] == w1[i]);
                            if i < w0.len() {
                                assert(w1[i] == w0[i]);
                            } else {
                                assert(w1[i].key@ == "vitra_lag"@);
                                assert("vitra_lag"@[0] != "ceo_lag"@[0]);
                            }
                        } else {
                            assert(w2[i].key@ == "ghost_lag"@);
                            assert("ghost_lag"@[0] != "ceo_lag"@[0]);
                        }
                    }
                }
            }
            assert forall|i: int| 0 <= i < w0.len() implies #[trigger] w3[i] == w0[i] by {
                assert(w1[i] == w0[i]);
                assert(w2[i] == w1[i]);
            }
        }
        proof {
            assert forall|i: int| w0.len() <= i < w3.len() implies is_known_key((#[trigger] w3[i]).key@) by {
                if i < w1.len() {
                    assert(w2[i] == w1[i]);
                    assert(w3[i] == w2[i]);
                    assert(w1[i].key@ == "vitra_lag"@);
                } else if i < w2.len() {
                    assert(w3[i] == w2[i]);
                    assert(w2[i].key@ == "ghost_lag"@);
                } else {
                    assert(w3[i].key@ == "ceo_lag"@);
                }
            }
        }
        let _ = self.agent_registry.set_availability("ceo_lag", Availability::Running);
        proof {
            let w4 = self.agent_registry@;
            let k = choose|k: int| 0 <= k < w3.len() && (#[trigger] w3[k]).key@ == "ceo_lag"@;
            assert(w4 == w3.update(k, with_availability(w3[k], Availability::Running)));
            assert forall|i: int| 0 <= i < w3.len() && i != k implies #[trigger] w4[i] == w3[i] by {}
            assert(contains_key(w4, "vitra_lag"@)) by {
                let i = choose|i: int| 0 <= i < w3.len() && (#[trigger] w3[i]).key@ == "vitra_lag"@;
                assert(w4[i].key == w3[i].key);
            }
            assert(contains_key(w4, "ghost_lag"@)) by {
                let i = choose|i: int| 0 <= i < w3.len() && (#[trigger] w3[i]).key@ == "ghost_lag"@;
                assert(w4[i].key == w3[i].key);
            }
            assert(contains_key(w4, "ceo_lag"@)) by {
                assert(w4[k].key == w3[k].key);
            }
            assert forall|i: int|
                0 <= i < w4.len() && (#[trigger] w4[i]).key@ == "ceo_lag"@ implies w4[i].info.status
                == Availability::Running by {
                if i != k {
                    assert(w4[i] == w3[i]);
                }
            }
            assert forall|i: int| w0.len() <= i < w4.len() implies is_known_key((#[trigger] w4[i]).key@) by {
                assert(w4[i].key == w3[i].key);
                assert(is_known_key(w3[i].key@));
            }
            assert forall|i: int|
                0 <= i < w0.len() && (#[trigger] w0[i]).key@ != "ceo_lag"@ implies w4[i] == w0[i] by {
                assert(w3[i] == w0[i]);
            }
            if !contains_key(w0, "vitra_lag"@) {
                let j = w0.len() as int;
                assert(w3[j].key@ == "vitra_lag"@);
                assert(j != k);
                assert(w4[j] == w3[j]);
                assert(is_fresh_entry(w4[j], "vitra_lag"@, "VITRA_LAG"@, Availability::Available, seq!["transcription"@, "translation"@], now));
            }
            if !contains_key(w0, "ghost_lag"@) {
                let j = w1.len() as int;
                assert(w3[j].key@ == "ghost_lag"@);
                assert(j != k);
                assert(w4[j] == w3[j]);
                assert(is_fresh_entry(w4[j], "ghost_lag"@, "GHOST_LAG"@, Availability::Available, seq!["content_generation"@, "optimization"@], now));
            }
            if !contains_key(w0, "ceo_lag"@) {
                let j = w2.len() as int;
                self.agent_registry.lemma_key_position(k, "ceo_lag"@);
                assert(w3[j].key@ == "ceo_lag"@);
                assert(w4[k].key == w3[k].key);
                assert(registry_wf(w3));
                assert(j == k);
                assert(is_fresh_entry(w4[j], "ceo_lag"@, "CEO_LAG"@, Availability::Running, seq!["orchestration"@, "task_management"@], now));
            }
        }
    }

    /// Marks the orchestrator running at time `now` and fills the registry
    /// with the known workers (see `initialize_agent_registry`).
    pub fn start_at(&mut self, now: String)
        requires
            old(self).wf(),
        ensures
            final(self).wf(),
            final(self).status == RunState::Running,
            final(self).last_activity == now,
            final(self).task_queue == old(self).task_queue,
            known_workers_registered(old(self).agent_registry@, final(self).agent_registry@, now),
            old(self).agent_registry@.len() == 0 ==> final(self).agent_registry@.len() == 3,
    {
        self.status = RunState::Running;
        self.last_activity = now.clone();
        self.initialize_agent_registry(now);
    }

    /// Starts the orchestrator now; the dispatcher and health loops are run by the caller.
    pub fn start(&mut self) -> (r: Result<AgentStatus, OrchestratorError>)
        requires
            old(self).wf(),
        ensures
            final(self).wf(),
            final(self).status == RunState::Running,
            final(self).task_queue == old(self).task_queue,
            exists|now: String|
                known_workers_registered(old(self).agent_registry@, final(self).agent_registry@, now),
            old(self).agent_registry@.len() == 0 ==> final(self).agent_registry@.len() == 3,
            r matches Ok(st) && st.status@ == "running"@ && st.name@ == "CEO_LAG"@,
    {
        self.start_at(now_rfc3339());
        Ok(self.get_status())
    }

    /// Marks the orchestrator stopped; queue and registry are kept.
    pub fn stop(&mut self) -> (r: Result<AgentStatus, OrchestratorError>)
        requires
            old(self).wf(),
        ensures
            final(self).wf(),
            final(self).status == RunState::Stopped,
            final(self).task_queue == old(self).task_queue,
            final(self).agent_registry == old(self).agent_registry,
            r matches Ok(st) && st.status@ == "stopped"@ && st.name@ == "CEO_LAG"@,
    {
        self.status = RunState::Stopped;
        self.last_activity = now_rfc3339();
        Ok(self.get_status())
    }

    /// Submits `file_path` as a task with id `task_id` created at `now`:
    /// routed by its file type, priority 1, pending, carrying `parameters`.
    /// Fails with `FileNotFound` where the file does not exist and with
    /// `InvalidTask` where the id is already queued; on failure nothing changes.
    pub fn submit_task(
        &mut self,
        file_path: &str,
        file_exists: bool,
        parameters: String,
        task_id: String,
        now: String,
    ) -> (r: Result<String, OrchestratorError>)
        requires
            old(self).wf(),
        ensures
            final(self).wf(),
            final(self).agent_registry == old(self).agent_registry,
            final(self).status == old(self).status,
            !file_exists ==> r == Err::<String, OrchestratorError>(OrchestratorError::FileNotFound),
            file_exists && contains_id(old(self).task_queue@, task_id@) ==> r == Err::<
                String,
                OrchestratorError,
            >(OrchestratorError::InvalidTask),
            r is Err ==> final(self).task_queue@ == old(self).task_queue@,
            file_exists && !contains_id(old(self).task_queue@, task_id@) ==> r == Ok::<
                String,
                OrchestratorError,
            >(task_id) && exists|k: int|
                is_insertion_point(old(self).task_queue@, 1, k) && final(self).task_queue@ == old(self).task_queue@.insert(k, final(self).task_queue@[k]) && is_submitted_task(
                    final(self).task_queue@[k],
                    task_id,
                    file_path@,
                    parameters,
                    now,
                ),
    {
        if !file_exists {
            return Err(OrchestratorError::FileNotFound);
        }
        let agent_name = determine_agent_for_file(file_path);
        let task = Task::new(
            task_id.clone(),
            agent_name,
            String::from_str("file_processing"),
            parameters,
            1,
            now,
        );
        let ghost t = task;
        let ghost q0 = self.task_queue@;
        match self.task_queue.enqueue(task) {
            Ok(()) => {
                proof {
                    let k = choose|k: int|
                        is_insertion_point(q0, 1, k) && self.task_queue@ == q0.insert(k, t);
                    assert(self.task_queue@[k] == t);
                }
                Ok(task_id)
            },
            Err(e) => Err(e),
        }
    }

    /// Submits `file_path` (see `submit_task`) under a fresh random id and the
    /// current time, and returns the id.
    pub fn process_file(&mut self, file_path: &str, file_exists: bool, parameters: String) -> (r:
        Result<String, OrchestratorError>)
        requires
            old(self).wf(),
        ensures
            final(self).wf(),
            final(self).agent_registry == old(self).agent_registry,
            !file_exists ==> r == Err::<String, OrchestratorError>(OrchestratorError::FileNotFound),
            file_exists && r is Err ==> r == Err::<String, OrchestratorError>(
                OrchestratorError::InvalidTask,
            ),
            file_exists && old(self).task_queue@.len() == 0 ==> r is Ok,
            r matches Ok(id) ==> id@.len() == 36,
            r is Err ==> final(self).task_queue@ == old(self).task_queue@,
            r matches Ok(id) ==> !contains_id(old(self).task_queue@, id@) && exists|k: int, now: String|
                is_insertion_point(old(self).task_queue@, 1, k) && final(self).task_queue@ == old(self).task_queue@.insert(k, final(self).task_queue@[k]) && is_submitted_task(
                    final(self).task_queue@[k],
                    id,
                    file_path@,
                    parameters,
                    now,
                ),
    {
        let id = new_task_id();
        let now = now_rfc3339();
        let ghost n = now;
        let r = self.submit_task(file_path, file_exists, parameters, id, now);
        proof {
            if r is Ok {
                let k = choose|k: int|
                    is_insertion_point(old(self).task_queue@, 1, k) && self.task_queue@ == old(self).task_queue@.insert(k, self.task_queue@[k]) && is_submitted_task(
                        self.task_queue@[k],
                        id,
                        file_path@,
                        parameters,
                        n,
                    );
                assert(is_submitted_task(self.task_queue@[k], id, file_path@, parameters, n));
            }
        }
        r
    }

    /// A copy of the task with id `task_id`; `TaskNotFound` where none is queued.
    pub fn get_task_status(&self, task_id: &str) -> (r: Result<Task, OrchestratorError>)
        ensures
            r is Err <==> !contains_id(self.task_queue@, task_id@),
            r is Err ==> r == Err::<Task, OrchestratorError>(OrchestratorError::TaskNotFound),
            r matches Ok(t) ==> t.id@ == task_id@ && exists|i: int|
                0 <= i < self.task_queue@.len() && self.task_queue@[i] == t,
    {
        self.task_queue.find(task_id)
    }

    /// Counts of the queue by status, copies of the workers, and the concurrency setting.
    pub fn get_queue_status(&self) -> (r: QueueStatus)
        ensures
            r.queue_stats.total == self.task_queue@.len(),
            r.agents@.len() == self.agent_registry@.len(),
            r.max_concurrent_tasks == self.max_concurrent_tasks,
            forall|i: int|
                0 <= i < r.agents@.len() ==> {
                    let e = #[trigger] self.agent_registry@[i].info;
                    &&& r.agents@[i].name == e.name
                    &&& r.agents@[i].status == e.status
                    &&& r.agents@[i].health_score == e.health_score
                    &&& r.agents@[i].memory_usage == e.memory_usage
                    &&& r.agents@[i].cpu_usage == e.cpu_usage
                    &&& r.agents@[i].last_activity == e.last_activity
                    &&& r.agents@[i].capabilities@ == e.capabilities@
                    &&& r.agents@[i].current_task == e.current_task
                },
            r.queue_stats.pending == crate::queue::count_status(
                self.task_queue@,
                TaskStatus::Pending,
            ),
            r.queue_stats.running == crate::queue::count_status(
                self.task_queue@,
                TaskStatus::Running,
            ),
            r.queue_stats.completed == crate::queue::count_status(
                self.task_queue@,
                TaskStatus::Completed,
            ),
            r.queue_stats.failed == crate::queue::count_status(
                self.task_queue@,
                TaskStatus::Failed,
            ),
    {
        QueueStatus {
            queue_stats: self.task_queue.stats(),
            agents: self.agent_registry.list_all(),
            max_concurrent_tasks: self.max_concurrent_tasks,
        }
    }

    /// A copy of the process-wide counters.
    pub fn get_system_metrics(&self) -> (r: SystemMetrics)
        ensures
            r == self.system_metrics,
    {
        self.system_metrics
    }

    /// Cancels the task `task_id` at time `now` (see `TaskQueue::cancel`).
    /// The registry is untouched: a worker running the task stays busy until
    /// its result is reported.
    pub fn cancel_task_at(&mut self, task_id: &str, now: String) -> (r: Result<
        (),
        OrchestratorError,
    >)
        requires
            old(self).wf(),
        ensures
            final(self).wf(),
            final(self).agent_registry == old(self).agent_registry,
            !contains_id(old(self).task_queue@, task_id@) ==> r == Err::<(), OrchestratorError>(
                OrchestratorError::TaskNotFound,
            ),
            forall|i: int|
                0 <= i < old(self).task_queue@.len() && old(self).task_queue@[i].id@ == task_id@ ==> {
                    &&& status_is_terminal(old(self).task_queue@[i].status) ==> r == Err::<
                        (),
                        OrchestratorError,
                    >(OrchestratorError::AlreadyTerminal)
                    &&& !status_is_terminal(old(self).task_queue@[i].status) ==> r is Ok && final(self).task_queue@ == old(self).task_queue@.update(
                        i,
                        updated_task(
                            old(self).task_queue@[i],
                            TaskStatus::Cancelled,
                            None,
                            None,
                            now,
                        ),
                    )
                },
            r is Err ==> final(self).task_queue@ == old(self).task_queue@,
    {
        self.task_queue.cancel(task_id, now)
    }

    /// Cancels the task `task_id` now (see `cancel_task_at`).
    pub fn cancel_task(&mut self, task_id: &str) -> (r: Result<(), OrchestratorError>)
        requires
            old(self).wf(),
        ensures
            final(self).wf(),
            final(self).agent_registry == old(self).agent_registry,
            !contains_id(old(self).task_queue@, task_id@) ==> r == Err::<(), OrchestratorError>(
                OrchestratorError::TaskNotFound,
            ),
            forall|i: int|
                0 <= i < old(self).task_queue@.len() && old(self).task_queue@[i].id@ == task_id@ ==> {
                    &&& status_is_terminal(old(self).task_queue@[i].status) ==> r == Err::<
                        (),
                        OrchestratorError,
                    >(OrchestratorError::AlreadyTerminal)
                    &&& !status_is_terminal(old(self).task_queue@[i].status) ==> r is Ok && exists|now: String|
                        final(self).task_queue@ == old(self).task_queue@.update(
                            i,
                            updated_task(
                                old(self).task_queue@[i],
                                TaskStatus::Cancelled,
                                None,
                                None,
                                now,
                            ),
                        )
                },
            r is Err ==> final(self).task_queue@ == old(self).task_queue@,
            r is Ok ==> final(self).task_queue@.len() == old(self).task_queue@.len(),
            forall|j: int|
                0 <= j < old(self).task_queue@.len() && status_is_terminal(old(self).task_queue@[j].status) ==> #[trigger] final(self).task_queue@[j]
                    == old(self).task_queue@[j],
    {
        let now = now_rfc3339();
        self.cancel_task_at(task_id, now)
    }

    /// Removes every Completed, Failed and Cancelled task from the queue.
    pub fn clear_completed_tasks(&mut self) -> (r: Result<(), OrchestratorError>)
        requires
            old(self).wf(),
        ensures
            final(self).wf(),
            r is Ok,
            final(self).task_queue@ == retain_active(old(self).task_queue@),
            final(self).agent_registry == old(self).agent_registry,
    {
        self.task_queue.clear_terminal();
        Ok(())
    }

    /// A worker's completion report for task `task_id` at time `now`: every
    /// worker holding the task becomes available and holds none, then the task
    /// moves to Completed with `payload` as its result, or to Failed with
    /// `payload` as its error (see `TaskQueue::update_status`). A report on a
    /// task that is already terminal (cancelled meanwhile) still frees the
    /// worker, and fails with `IllegalTransition`, leaving the task as it was.
    /// Fails with `TaskNotFound`, changing nothing, where no such task is queued.
    pub fn report_result_at(
        &mut self,
        task_id: &str,
        succeeded: bool,
        payload: String,
        now: String,
    ) -> (r: Result<(), OrchestratorError>)
        requires
            old(self).wf(),
        ensures
            final(self).wf(),
            !contains_id(old(self).task_queue@, task_id@) ==> r == Err::<(), OrchestratorError>(
                OrchestratorError::TaskNotFound,
            ) && final(self).agent_registry@ == old(self).agent_registry@,
            contains_id(old(self).task_queue@, task_id@) ==> final(self).agent_registry@.len()
                == old(self).agent_registry@.len() && forall|k: int|
                0 <= k < old(self).agent_registry@.len() ==> #[trigger] final(
                    self).agent_registry@[k] == if holds_task(old(self).agent_registry@[k], task_id@) {
                    with_availability(old(self).agent_registry@[k], Availability::Available)
                } else {
                    old(self).agent_registry@[k]
                },
            forall|i: int|
                0 <= i < old(self).task_queue@.len() && old(self).task_queue@[i].id@ == task_id@ ==> {
                    &&& status_is_terminal(old(self).task_queue@[i].status) ==> r == Err::<
                        (),
                        OrchestratorError,
                    >(OrchestratorError::IllegalTransition)
                    &&& !status_is_terminal(old(self).task_queue@[i].status) ==> r is Ok
                        && final(self).task_queue@ == old(self).task_queue@.update(
                        i,
                        reported_task(old(self).task_queue@[i], succeeded, payload, now),
                    )
                },
            r is Err ==> final(self).task_queue@ == old(self).task_queue@,
    {
        if self.task_queue.position_of(task_id).is_none() {
            return Err(OrchestratorError::TaskNotFound);
        }
        self.agent_registry.release_task(task_id);
        if succeeded {
            self.task_queue.update_status(task_id, TaskStatus::Completed, Some(payload), None, now)
        } else {
            self.task_queue.update_status(task_id, TaskStatus::Failed, None, Some(payload), now)
        }
    }

    /// A worker's completion report, stamped now (see `report_result_at`).
    pub fn report_result(&mut self, task_id: &str, succeeded: bool, payload: String) -> (r: Result<
        (),
        OrchestratorError,
    >)
        requires
            old(self).wf(),
        ensures
            final(self).wf(),
            !contains_id(old(self).task_queue@, task_id@) ==> r == Err::<(), OrchestratorError>(
                OrchestratorError::TaskNotFound,
            ) && final(self).agent_registry@ == old(self).agent_registry@,
            contains_id(old(self).task_queue@, task_id@) ==> final(self).agent_registry@.len()
                == old(self).agent_registry@.len() && forall|k: int|
                0 <= k < old(self).agent_registry@.len() ==> #[trigger] final(
                    self).agent_registry@[k] == if holds_task(old(self).agent_registry@[k], task_id@) {
                    with_availability(old(self).agent_registry@[k], Availability::Available)
                } else {
                    old(self).agent_registry@[k]
                },
            forall|i: int|
                0 <= i < old(self).task_queue@.len() && old(self).task_queue@[i].id@ == task_id@ ==> {
                    &&& status_is_terminal(old(self).task_queue@[i].status) ==> r == Err::<
                        (),
                        OrchestratorError,
                    >(OrchestratorError::IllegalTransition)
                    &&& !status_is_terminal(old(self).task_queue@[i].status) ==> r is Ok
                        && exists|now: String|
                        final(self).task_queue@ == old(self).task_queue@.update(
                            i,
                            reported_task(old(self).task_queue@[i], succeeded, payload, now),
                        )
                },
            forall|j: int|
                0 <= j < old(self).task_queue@.len() && status_is_terminal(old(self).task_queue@[j].status) ==> #[trigger] final(self).task_queue@[j]
                    == old(self).task_queue@[j],
            r is Err ==> final(self).task_queue@ == old(self).task_queue@,
    {
        let now = now_rfc3339();
        self.report_result_at(task_id, succeeded, payload, now)
    }

    /// One dispatcher pass at time `now` (see `dispatch_scan`); returns the
    /// ids of the tasks it started, in queue order.
    pub fn dispatch_at(&mut self, now: String) -> (r: Vec<String>)
        requires
            old(self).wf(),
        ensures
            final(self).wf(),
            dispatched(old(self).task_queue@, old(self).agent_registry@, final(self).task_queue@, final(self).agent_registry@, now),
            r@.map_values(|x: String| x@) == started_ids(
                old(self).task_queue@,
                old(self).agent_registry@,
                old(self).task_queue@.len() as int,
            ),
            final(self).status == old(self).status,
            final(self).system_metrics == old(self).system_metrics,
    {
        dispatch_scan(&mut self.task_queue, &mut self.agent_registry, now)
    }

    /// One dispatcher pass now: every first pending task of an available
    /// worker starts running and its worker turns busy holding it (see
    /// `dispatched`); returns the ids of the started tasks, in queue order.
    pub fn dispatch(&mut self) -> (r: Vec<String>)
        requires
            old(self).wf(),
        ensures
            final(self).wf(),
            exists|now: String|
                dispatched(
                    old(self).task_queue@,
                    old(self).agent_registry@,
                    final(self).task_queue@,
                    final(self).agent_registry@,
                    now,
                ),
            r@.map_values(|x: String| x@) == started_ids(
                old(self).task_queue@,
                old(self).agent_registry@,
                old(self).task_queue@.len() as int,
            ),
            final(self).status == old(self).status,
            final(self).system_metrics == old(self).system_metrics,
    {
        let now = now_rfc3339();
        self.dispatch_at(now)
    }

    /// One health sampling pass at time `now`: the worker at position `i`
    /// gets the health score `health_from_draw(draws[i])` and `now` as its
    /// last activity, for each `i` below both lengths; the others keep theirs.
    /// Availability and held tasks never change. The uptime counter goes up
    /// by one, saturating.
    pub fn sample_health_at(&mut self, draws: &Vec<u64>, now: String)
        requires
            old(self).wf(),
        ensures
            final(self).wf(),
            final(self).task_queue == old(self).task_queue,
            final(self).agent_registry@.len() == old(self).agent_registry@.len(),
            forall|k: int|
                0 <= k < old(self).agent_registry@.len() ==> #[trigger] final(self).agent_registry@[k]
                    == if k < draws@.len() {
                    sampled(old(self).agent_registry@[k], health_from_draw(draws@[k]), now)
                } else {
                    old(self).agent_registry@[k]
                },
            final(self).system_metrics == (SystemMetrics {
                uptime: if old(self).system_metrics.uptime < u64::MAX {
                    (old(self).system_metrics.uptime + 1) as u64
                } else {
                    u64::MAX
                },
                ..old(self).system_metrics
            }),
    {
        let ghost w = self.agent_registry@;
        let n = self.agent_registry.len();
        let mut k: usize = 0;
        while k < n && k < draws.len()
            invariant
                self.wf(),
                n == w.len(),
                self.agent_registry@.len() == w.len(),
                self.task_queue == old(self).task_queue,
                self.system_metrics == old(self).system_metrics,
                w == old(self).agent_registry@,
                k <= n,
                k <= draws@.len(),
                forall|a: int|
                    0 <= a < k ==> #[trigger] self.agent_registry@[a] == sampled(
                        w[a],
                        health_from_draw(draws@[a]),
                        now,
                    ),
                forall|a: int| k <= a < n ==> #[trigger] self.agent_registry@[a] == w[a],
            decreases n - k,
        {
            let health: u32 = HEALTH_FLOOR + (draws[k] % 51) as u32;
            self.agent_registry.sample(k, health, now.clone());
            k = k + 1;
        }
        if self.system_metrics.uptime < u64::MAX {
            self.system_metrics.uptime = self.system_metrics.uptime + 1;
        }
    }

    /// One health sampling pass now, with a random draw per worker: every
    /// health score ends between `HEALTH_FLOOR` and `HEALTH_FULL`, and
    /// availability and held tasks never change.
    pub fn sample_health(&mut self)
        requires
            old(self).wf(),
        ensures
            final(self).wf(),
            final(self).task_queue == old(self).task_queue,
            final(self).agent_registry@.len() == old(self).agent_registry@.len(),
            exists|now: String|
                all_sampled_at(old(self).agent_registry@, final(self).agent_registry@, now),
            forall|k: int|
                0 <= k < old(self).agent_registry@.len() ==> HEALTH_FLOOR <= (#[trigger] final(
                    self).agent_registry@[k]).info.health_score <= HEALTH_FULL,
            final(self).system_metrics == (SystemMetrics {
                uptime: if old(self).system_metrics.uptime < u64::MAX {
                    (old(self).system_metrics.uptime + 1) as u64
                } else {
                    u64::MAX
                },
                ..old(self).system_metrics
            }),
    {
        let n = self.agent_registry.len();
        let mut draws: Vec<u64> = Vec::new();
        let mut k: usize = 0;
        while k < n
            invariant
                k <= n,
                draws@.len() == k,
            decreases n - k,
        {
            draws.push(random_draw());
            k = k + 1;
        }
        let now = now_rfc3339();
        let ghost w = self.agent_registry@;
        self.sample_health_at(&draws, now);
        proof {
            assert forall|k: int| 0 <= k < w.len() implies #[trigger] self.agent_registry@[k] == sampled(
                w[k],
                self.agent_registry@[k].info.health_score,
                now,
            ) by {
                assert(self.agent_registry@[k] == sampled(w[k], health_from_draw(draws@[k]), now));
            }
            assert(all_sampled_at(w, self.agent_registry@, now));
        }
    }
}

} // verus!
