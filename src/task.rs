use vstd::prelude::*;

verus! {

/// Lifecycle state of a task.
#[derive(Debug, Clone, Copy, PartialEq, Eq, Structural)]
pub enum TaskStatus {
    Pending,
    Running,
    Completed,
    Failed,
    Cancelled,
}

/// Completed, Failed and Cancelled are terminal: a task never leaves them.
pub open spec fn status_is_terminal(s: TaskStatus) -> bool {
    s == TaskStatus::Completed || s == TaskStatus::Failed || s == TaskStatus::Cancelled
}

/// Position of a status along the lifecycle; terminal states share the last rank.
pub open spec fn status_rank(s: TaskStatus) -> int {
    match s {
        TaskStatus::Pending => 0,
        TaskStatus::Running => 1,
        _ => 2,
    }
}

impl TaskStatus {
    pub fn is_terminal(&self) -> (r: bool)
        ensures
            r == status_is_terminal(*self),
    {
        match self {
            TaskStatus::Completed | TaskStatus::Failed | TaskStatus::Cancelled => true,
            _ => false,
        }
    }
}

} // verus!

verus! {

/// One unit of routed work.
///
/// `agent_name` is the registry key of the worker the task is routed to and
/// `parameters` is the free-form payload (JSON text) handed to that worker.
#[derive(Debug, Clone)]
pub struct Task {
    pub id: String,
    pub agent_name: String,
    pub task_type: String,
    pub parameters: String,
    pub priority: i32,
    pub status: TaskStatus,
    pub created_at: String,
    pub started_at: Option<String>,
    pub completed_at: Option<String>,
    pub result: Option<String>,
    pub error: Option<String>,
}

impl Task {
    /// Timestamps agree with the status: a pending task has not started,
    /// a running or finished task has, and exactly the terminal tasks carry a
    /// completion time. (A task cancelled while pending never started.)
    pub open spec fn wf(&self) -> bool {
        &&& (self.completed_at is Some <==> status_is_terminal(self.status))
        &&& (self.status == TaskStatus::Pending ==> self.started_at is None)
        &&& (self.status == TaskStatus::Running || self.status == TaskStatus::Completed
            || self.status == TaskStatus::Failed ==> self.started_at is Some)
    }

    /// A fresh task in the Pending state.
    pub fn new(
        id: String,
        agent_name: String,
        task_type: String,
        parameters: String,
        priority: i32,
        created_at: String,
    ) -> (r: Task)
        ensures
            r.id == id,
            r.agent_name == agent_name,
            r.task_type == task_type,
            r.parameters == parameters,
            r.priority == priority,
            r.status == TaskStatus::Pending,
            r.created_at == created_at,
            r.started_at is None,
            r.completed_at is None,
            r.result is None,
            r.error is None,
            r.wf(),
    {
        Task {
            id,
            agent_name,
            task_type,
            parameters,
            priority,
            status: TaskStatus::Pending,
            created_at,
            started_at: None,
            completed_at: None,
            result: None,
            error: None,
        }
    }

    /// Checks `wf` at run time.
    pub fn is_well_formed(&self) -> (r: bool)
        ensures
            r == self.wf(),
    {
        let terminal = self.status.is_terminal();
        if self.completed_at.is_some() != terminal {
            return false;
        }
        match self.status {
            TaskStatus::Pending => self.started_at.is_none(),
            TaskStatus::Running | TaskStatus::Completed | TaskStatus::Failed => self.started_at.is_some(),
            TaskStatus::Cancelled => true,
        }
    }

    /// A field-by-field copy.
    pub fn snapshot(&self) -> (r: Task)
        ensures
            r == *self,
    {
        Task {
            id: self.id.clone(),
            agent_name: self.agent_name.clone(),
            task_type: self.task_type.clone(),
            parameters: self.parameters.clone(),
            priority: self.priority,
            status: self.status,
            created_at: self.created_at.clone(),
            started_at: copy_text(&self.started_at),
            completed_at: copy_text(&self.completed_at),
            result: copy_text(&self.result),
            error: copy_text(&self.error),
        }
    }
}

/// A copy of an optional string.
pub fn copy_text(o: &Option<String>) -> (r: Option<String>)
    ensures
        r == *o,
{
    match o {
        Some(s) => Some(s.clone()),
        None => None,
    }
}

/// Equality of two string slices by their characters.
pub fn text_eq(a: &str, b: &str) -> (r: bool)
    ensures
        r == (a@ == b@),
{
    String::from_str(a) == String::from_str(b)
}

} // verus!
