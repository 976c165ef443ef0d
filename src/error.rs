use vstd::prelude::*;

verus! {

/// Errors of the orchestration core. All of them are local and recoverable.
#[derive(Debug, Clone, Copy, PartialEq, Eq, Structural)]
pub enum OrchestratorError {
    /// A worker of that name is already registered.
    DuplicateWorker,
    /// No worker of that name is registered.
    WorkerNotFound,
    /// The task's id is already queued, or its timestamps disagree with its status.
    InvalidTask,
    /// No task of that id is queued.
    TaskNotFound,
    /// The change would move a task backwards or out of a terminal state.
    IllegalTransition,
    /// Cancellation of a task that is already Completed, Failed or Cancelled.
    AlreadyTerminal,
    /// The submitted path does not name an existing file.
    FileNotFound,
    /// The path exists but is not a regular file.
    NotAFile,
}

impl OrchestratorError {
    /// A short human-readable description.
    pub open spec fn text(&self) -> Seq<char> {
        match self {
            OrchestratorError::DuplicateWorker => "worker already registered"@,
            OrchestratorError::WorkerNotFound => "worker not found"@,
            OrchestratorError::InvalidTask => "invalid task"@,
            OrchestratorError::TaskNotFound => "task not found"@,
            OrchestratorError::IllegalTransition => "illegal status transition"@,
            OrchestratorError::AlreadyTerminal => "task already in a terminal state"@,
            OrchestratorError::FileNotFound => "file not found"@,
            OrchestratorError::NotAFile => "path is not a file"@,
        }
    }

    pub fn message(&self) -> (r: &'static str)
        ensures
            r@ == self.text(),
    {
        match self {
            OrchestratorError::DuplicateWorker => "worker already registered",
            OrchestratorError::WorkerNotFound => "worker not found",
            OrchestratorError::InvalidTask => "invalid task",
            OrchestratorError::TaskNotFound => "task not found",
            OrchestratorError::IllegalTransition => "illegal status transition",
            OrchestratorError::AlreadyTerminal => "task already in a terminal state",
            OrchestratorError::FileNotFound => "file not found",
            OrchestratorError::NotAFile => "path is not a file",
        }
    }
}

} // verus!
