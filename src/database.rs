use vstd::prelude::*;

verus! {

/// One processed file, as the history keeps it.
#[derive(Debug, Clone)]
pub struct FileProcessingRecord {
    pub file_path: String,
    pub agent_type: String,
    pub status: String,
    pub result: Option<String>,
    pub error_message: Option<String>,
    pub processing_time_ms: Option<i64>,
    pub created_at: String,
    pub completed_at: Option<String>,
}

/// The SQLite connection URL for a database file at `path`.
pub fn get_database_url(path: &str) -> (r: String)
    ensures
        r@ == "sqlite:"@ + path@,
{
    let mut r = String::from_str("sqlite:");
    r.append(path);
    r
}

} // verus!
