use vstd::prelude::*;

use crate::error::OrchestratorError;
use crate::task::{copy_text, text_eq};

verus! {

/// Health is kept in thousandths: 1000 is a fully healthy worker.
pub const HEALTH_FULL: u32 = 1000;

/// Availability of a registry entry.
///
/// `Running` marks an entry that is active but takes no routed tasks (the
/// orchestrator's own entry).
#[derive(Debug, Clone, Copy, PartialEq, Eq, Structural)]
pub enum Availability {
    Available,
    Busy,
    Offline,
    Running,
}

impl Availability {
    pub open spec fn text(&self) -> Seq<char> {
        match self {
            Availability::Available => "available"@,
            Availability::Busy => "busy"@,
            Availability::Offline => "offline"@,
            Availability::Running => "running"@,
        }
    }

    pub fn as_str(&self) -> (r: &'static str)
        ensures
            r@ == self.text(),
    {
        match self {
            Availability::Available => "available",
            Availability::Busy => "busy",
            Availability::Offline => "offline",
            Availability::Running => "running",
        }
    }
}

/// A registry entry for one named worker.
///
/// `health_score` and `cpu_usage` are in thousandths; `memory_usage` is in bytes.
#[derive(Debug, Clone)]
pub struct AgentInfo {
    pub name: String,
    pub status: Availability,
    pub health_score: u32,
    pub memory_usage: i64,
    pub cpu_usage: u32,
    pub last_activity: String,
    pub capabilities: Vec<String>,
    pub current_task: Option<String>,
}

impl AgentInfo {
    /// A worker holds a task exactly when it is busy, and its health is at most full.
    pub open spec fn wf(&self) -> bool {
        &&& (self.current_task is Some <==> self.status == Availability::Busy)
        &&& self.health_score <= HEALTH_FULL
    }

    /// A field-by-field copy.
    pub fn snapshot(&self) -> (r: AgentInfo)
        ensures
            r.name == self.name,
            r.status == self.status,
            r.health_score == self.health_score,
            r.memory_usage == self.memory_usage,
            r.cpu_usage == self.cpu_usage,
            r.last_activity == self.last_activity,
            r.capabilities@ == self.capabilities@,
            r.current_task == self.current_task,
    {
        AgentInfo {
            name: self.name.clone(),
            status: self.status,
            health_score: self.health_score,
            memory_usage: self.memory_usage,
            cpu_usage: self.cpu_usage,
            last_activity: self.last_activity.clone(),
            capabilities: copy_texts(&self.capabilities),
            current_task: copy_text(&self.current_task),
        }
    }
}

/// A copy of a list of strings.
pub fn copy_texts(v: &Vec<String>) -> (r: Vec<String>)
    ensures
        r@ == v@,
{
    let mut r: Vec<String> = Vec::new();
    let mut i: usize = 0;
    while i < v.len()
        invariant
            i <= v@.len(),
            r@ == v@.subrange(0, i as int),
        decreases v@.len() - i,
    {
        r.push(v[i].clone());
        i = i + 1;
        assert(r@ =~= v@.subrange(0, i as int));
    }
    assert(v@.subrange(0, v@.len() as int) =~= v@);
    r
}

/// A worker together with the key it is registered under.
pub struct RegistryEntry {
    pub key: String,
    pub info: AgentInfo,
}

pub open spec fn keys_unique(s: Seq<RegistryEntry>) -> bool {
    forall|i: int, j: int|
        0 <= i < s.len() && 0 <= j < s.len() && i != j ==> s[i].key@ != s[j].key@
}

pub open spec fn registry_wf(s: Seq<RegistryEntry>) -> bool {
    keys_unique(s) && forall|i: int| 0 <= i < s.len() ==> (#[trigger] s[i]).info.wf()
}

pub open spec fn contains_key(s: Seq<RegistryEntry>, key: Seq<char>) -> bool {
    exists|i: int| 0 <= i < s.len() && (#[trigger] s[i]).key@ == key
}

/// The entry after its worker takes the task `id`.
pub open spec fn assigned(e: RegistryEntry, id: String) -> RegistryEntry {
    RegistryEntry {
        info: AgentInfo { status: Availability::Busy, current_task: Some(id), ..e.info },
        ..e
    }
}

/// The entry after its worker is set to `status` (not Busy) and holds no task.
pub open spec fn with_availability(e: RegistryEntry, status: Availability) -> RegistryEntry {
    RegistryEntry { info: AgentInfo { status, current_task: None, ..e.info }, ..e }
}

/// The entry after a health sample taken at time `now`.
pub open spec fn sampled(e: RegistryEntry, health: u32, now: String) -> RegistryEntry {
    RegistryEntry { info: AgentInfo { health_score: health, last_activity: now, ..e.info }, ..e }
}

/// The worker of the entry holds the task `id`.
pub open spec fn holds_task(e: RegistryEntry, id: Seq<char>) -> bool {
    e.info.current_task matches Some(t) && t@ == id
}

/// The known workers, each under a unique key, in registration order.
///
/// The entries are kept in a vector whose keys are unique rather than in a
/// hash map keyed by name: with string keys, a map's lookups and updates come
/// with no usable specification, while over a sequence the uniqueness of keys,
/// the lookup by key and the exact effect of each update are all proved.
pub struct Registry {
    entries: Vec<RegistryEntry>,
}

impl View for Registry {
    type V = Seq<RegistryEntry>;

    closed spec fn view(&self) -> Seq<RegistryEntry> {
        self.entries@
    }
}

impl Registry {
    pub open spec fn wf(&self) -> bool {
        registry_wf(self@)
    }

    pub fn new() -> (r: Registry)
        ensures
            r@ == Seq::<RegistryEntry>::empty(),
            r.wf(),
    {
        Registry { entries: Vec::new() }
    }

    pub fn len(&self) -> (r: usize)
        ensures
            r == self@.len(),
    {
        self.entries.len()
    }

    /// The entry at position `i`.
    pub fn entry(&self, i: usize) -> (r: &RegistryEntry)
        requires
            i < self@.len(),
        ensures
            *r == self@[i as int],
    {
        &self.entries[i]
    }

    /// Position of the worker registered under `key`, if any.
    pub fn position_of(&self, key: &str) -> (r: Option<usize>)
        ensures
            match r {
                Some(i) => i < self@.len() && self@[i as int].key@ == key@,
                None => !contains_key(self@, key@),
            },
    {
        let mut i: usize = 0;
        while i < self.entries.len()
            invariant
                i <= self.entries@.len(),
                forall|j: int| 0 <= j < i ==> self.entries@[j].key@ != key@,
            decreases self.entries@.len() - i,
        {
            if text_eq(self.entries[i].key.as_str(), key) {
                return Some(i);
            }
            i = i + 1;
        }
        None
    }

    pub proof fn lemma_key_position(&self, i: int, key: Seq<char>)
        requires
            self.wf(),
            0 <= i < self@.len(),
            self@[i].key@ == key,
        ensures
            forall|j: int| 0 <= j < self@.len() && self@[j].key@ == key ==> j == i,
    {
    }

    /// Adds an available, fully healthy worker with no task under `key`.
    /// Fails with `DuplicateWorker`, leaving the registry unchanged, where
    /// `key` is taken.
    pub fn register(
        &mut self,
        key: String,
        name: String,
        capabilities: Vec<String>,
        now: String,
    ) -> (r: Result<(), OrchestratorError>)
        requires
            old(self).wf(),
        ensures
            final(self).wf(),
            r is Err <==> contains_key(old(self)@, key@),
            r is Err ==> r == Err::<(), OrchestratorError>(OrchestratorError::DuplicateWorker)
                && final(self)@ == old(self)@,
            r is Ok ==> final(self)@.len() == old(self)@.len() + 1 && final(self)@.drop_last()
                == old(self)@ && ({
                let e = final(self)@.last();
                &&& e.key == key
                &&& e.info.name == name
                &&& e.info.status == Availability::Available
                &&& e.info.health_score == HEALTH_FULL
                &&& e.info.memory_usage == 0
                &&& e.info.cpu_usage == 0
                &&& e.info.last_activity == now
                &&& e.info.capabilities == capabilities
                &&& e.info.current_task is None
            }),
    {
        if self.position_of(key.as_str()).is_some() {
            return Err(OrchestratorError::DuplicateWorker);
        }
        let info = AgentInfo {
            name,
            status: Availability::Available,
            health_score: HEALTH_FULL,
            memory_usage: 0,
            cpu_usage: 0,
            last_activity: now,
            capabilities,
            current_task: None,
        };
        let ghost s = self.entries@;
        self.entries.push(RegistryEntry { key, info });
        assert(self.entries@.drop_last() =~= s);
        Ok(())
    }

    /// A copy of the worker registered under `key`; `WorkerNotFound` where none is.
    pub fn get(&self, key: &str) -> (r: Result<AgentInfo, OrchestratorError>)
        ensures
            r is Err <==> !contains_key(self@, key@),
            r is Err ==> r == Err::<AgentInfo, OrchestratorError>(
                OrchestratorError::WorkerNotFound,
            ),
            r matches Ok(a) ==> exists|i: int|
                0 <= i < self@.len() && self@[i].key@ == key@ && {
                    let e = self@[i].info;
                    &&& a.name == e.name
                    &&& a.status == e.status
                    &&& a.health_score == e.health_score
                    &&& a.memory_usage == e.memory_usage
                    &&& a.cpu_usage == e.cpu_usage
                    &&& a.last_activity == e.last_activity
                    &&& a.capabilities@ == e.capabilities@
                    &&& a.current_task == e.current_task
                },
    {
        match self.position_of(key) {
            Some(i) => Ok(self.entries[i].info.snapshot()),
            None => Err(OrchestratorError::WorkerNotFound),
        }
    }

    /// Copies of every registered worker, in registration order.
    pub fn list_all(&self) -> (r: Vec<AgentInfo>)
        ensures
            r@.len() == self@.len(),
            forall|i: int|
                0 <= i < r@.len() ==> {
                    let e = #[trigger] self@[i].info;
                    &&& r@[i].name == e.name
                    &&& r@[i].status == e.status
                    &&& r@[i].health_score == e.health_score
                    &&& r@[i].memory_usage == e.memory_usage
                    &&& r@[i].cpu_usage == e.cpu_usage
                    &&& r@[i].last_activity == e.last_activity
                    &&& r@[i].capabilities@ == e.capabilities@
                    &&& r@[i].current_task == e.current_task
                },
    {
        let mut r: Vec<AgentInfo> = Vec::new();
        let mut i: usize = 0;
        while i < self.entries.len()
            invariant
                i <= self.entries@.len(),
                r@.len() == i,
                forall|j: int|
                    0 <= j < i ==> {
                        let e = #[trigger] self.entries@[j].info;
                        &&& r@[j].name == e.name
                        &&& r@[j].status == e.status
                        &&& r@[j].health_score == e.health_score
                        &&& r@[j].memory_usage == e.memory_usage
                        &&& r@[j].cpu_usage == e.cpu_usage
                        &&& r@[j].last_activity == e.last_activity
                        &&& r@[j].capabilities@ == e.capabilities@
                        &&& r@[j].current_task == e.current_task
                    },
            decreases self.entries@.len() - i,
        {
            r.push(self.entries[i].info.snapshot());
            i = i + 1;
        }
        r
    }

    /// Sets the availability of the worker under `key` and clears its task.
    /// Fails with `WorkerNotFound` where no worker has that key and with
    /// `IllegalTransition` for `Busy`: a worker becomes busy only by taking a
    /// task. On failure the registry is unchanged.
    pub fn set_availability(&mut self, key: &str, status: Availability) -> (r: Result<
        (),
        OrchestratorError,
    >)
        requires
            old(self).wf(),
        ensures
            final(self).wf(),
            !contains_key(old(self)@, key@) ==> r == Err::<(), OrchestratorError>(
                OrchestratorError::WorkerNotFound,
            ),
            contains_key(old(self)@, key@) && status == Availability::Busy ==> r == Err::<
                (),
                OrchestratorError,
            >(OrchestratorError::IllegalTransition),
            r is Err ==> final(self)@ == old(self)@,
            forall|i: int|
                0 <= i < old(self)@.len() && old(self)@[i].key@ == key@ && status
                    != Availability::Busy ==> r is Ok && final(self)@ == old(self)@.update(
                    i,
                    with_availability(old(self)@[i], status),
                ),
    {
        match self.position_of(key) {
            None => Err(OrchestratorError::WorkerNotFound),
            Some(i) => {
                proof {
                    self.lemma_key_position(i as int, key@);
                }
                if status == Availability::Busy {
                    return Err(OrchestratorError::IllegalTransition);
                }
                let ghost s = self.entries@;
                self.entries[i].info.status = status;
                self.entries[i].info.current_task = None;
                assert(self.entries@ =~= s.update(i as int, with_availability(s[i as int], status)));
                assert forall|a: int| 0 <= a < self.entries@.len() implies (
                #[trigger] self.entries@[a]).info.wf() by {
                    if a != i {
                        assert(s[a].info.wf());
                    }
                }
                Ok(())
            },
        }
    }

    /// The available worker at position `i` takes the task `id`.
    pub fn assign(&mut self, i: usize, id: String)
        requires
            old(self).wf(),
            i < old(self)@.len(),
            old(self)@[i as int].info.status == Availability::Available,
        ensures
            final(self).wf(),
            final(self)@ == old(self)@.update(i as int, assigned(old(self)@[i as int], id)),
    {
        let ghost s = self.entries@;
        self.entries[i].info.status = Availability::Busy;
        self.entries[i].info.current_task = Some(id);
        assert(self.entries@ =~= s.update(i as int, assigned(s[i as int], id)));
        assert forall|a: int| 0 <= a < self.entries@.len() implies (
        #[trigger] self.entries@[a]).info.wf() by {
            if a != i {
                assert(s[a].info.wf());
            }
        }
    }

    /// Every worker that holds the task `id` becomes available and holds no task.
    pub fn release_task(&mut self, id: &str)
        requires
            old(self).wf(),
        ensures
            final(self).wf(),
            final(self)@.len() == old(self)@.len(),
            forall|i: int|
                0 <= i < old(self)@.len() ==> #[trigger] final(self)@[i] == if holds_task(
                    old(self)@[i],
                    id@,
                ) {
                    with_availability(old(self)@[i], Availability::Available)
                } else {
                    old(self)@[i]
                },
    {
        let ghost s = self.entries@;
        let mut i: usize = 0;
        while i < self.entries.len()
            invariant
                self.entries@.len() == s.len(),
                i <= s.len(),
                registry_wf(self.entries@),
                forall|a: int|
                    0 <= a < i ==> #[trigger] self.entries@[a] == if holds_task(s[a], id@) {
                        with_availability(s[a], Availability::Available)
                    } else {
                        s[a]
                    },
                forall|a: int| i <= a < s.len() ==> #[trigger] self.entries@[a] == s[a],
            decreases s.len() - i,
        {
            let holds = match &self.entries[i].info.current_task {
                Some(t) => text_eq(t.as_str(), id),
                None => false,
            };
            if holds {
                let ghost before = self.entries@;
                self.entries[i].info.status = Availability::Available;
                self.entries[i].info.current_task = None;
                assert(self.entries@ =~= before.update(
                    i as int,
                    with_availability(before[i as int], Availability::Available),
                ));
                assert forall|a: int| 0 <= a < self.entries@.len() implies (
                #[trigger] self.entries@[a]).info.wf() by {
                    if a != i {
                        assert(before[a].info.wf());
                    }
                }
            }
            i = i + 1;
        }
    }

    /// Records a health sample of `health` thousandths, taken at `now`, for
    /// the worker at position `i`.
    pub fn sample(&mut self, i: usize, health: u32, now: String)
        requires
            old(self).wf(),
            i < old(self)@.len(),
            health <= HEALTH_FULL,
        ensures
            final(self).wf(),
            final(self)@ == old(self)@.update(i as int, sampled(old(self)@[i as int], health, now)),
    {
        let ghost s = self.entries@;
        self.entries[i].info.health_score = health;
        self.entries[i].info.last_activity = now;
        assert(self.entries@ =~= s.update(i as int, sampled(s[i as int], health, now)));
        assert forall|a: int| 0 <= a < self.entries@.len() implies (
        #[trigger] self.entries@[a]).info.wf() by {
            if a != i {
                assert(s[a].info.wf());
            }
        }
    }
}

} // verus!
