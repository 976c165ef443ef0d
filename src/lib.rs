//! Task orchestration core: a priority task queue, a registry of named
//! workers, a router from file types to workers, and the dispatcher that
//! matches pending tasks to available workers.

pub mod ceo;
pub mod database;
pub mod diagnostics;
pub mod dispatcher;
pub mod error;
pub mod generation;
pub mod laws;
pub mod outside;
pub mod queue;
pub mod registry;
pub mod router;
pub mod task;
pub mod transcription;
