use vhq_lag::ceo::{CeoAgent, RunState, HEALTH_FLOOR};
use vhq_lag::dispatcher::dispatch_scan;
use vhq_lag::error::OrchestratorError;
use vhq_lag::queue::TaskQueue;
use vhq_lag::registry::{Availability, Registry, HEALTH_FULL};
use vhq_lag::task::{Task, TaskStatus};

fn task(id: &str, worker: &str, priority: i32) -> Task {
    Task::new(
        id.to_string(),
        worker.to_string(),
        "file_processing".to_string(),
        "{}".to_string(),
        priority,
        "t0".to_string(),
    )
}

fn ids(q: &TaskQueue) -> Vec<String> {
    (0..q.len()).map(|i| q.get(i).id.clone()).collect()
}

fn worker(r: &mut Registry, key: &str) {
    r.register(key.to_string(), key.to_uppercase(), vec!["audio".to_string()], "t0".to_string())
        .unwrap();
}

#[test]
fn enqueue_orders_by_priority_then_arrival() {
    let mut q = TaskQueue::new();
    q.enqueue(task("a", "w", 1)).unwrap();
    q.enqueue(task("b", "w", 5)).unwrap();
    q.enqueue(task("c", "w", 3)).unwrap();
    q.enqueue(task("d", "w", 5)).unwrap();
    q.enqueue(task("e", "w", 1)).unwrap();
    q.enqueue(task("f", "w", -2)).unwrap();
    assert_eq!(ids(&q), vec!["b", "d", "c", "a", "e", "f"]);
}

#[test]
fn enqueue_rejects_duplicate_and_malformed_tasks() {
    let mut q = TaskQueue::new();
    q.enqueue(task("a", "w", 1)).unwrap();
    assert_eq!(q.enqueue(task("a", "w", 9)), Err(OrchestratorError::InvalidTask));
    let mut bad = task("b", "w", 1);
    bad.status = TaskStatus::Running;
    assert_eq!(q.enqueue(bad), Err(OrchestratorError::InvalidTask));
    assert_eq!(ids(&q), vec!["a"]);
}

#[test]
fn find_and_missing_task() {
    let mut q = TaskQueue::new();
    q.enqueue(task("a", "w", 1)).unwrap();
    assert_eq!(q.find("a").unwrap().priority, 1);
    assert!(matches!(q.find("zz"), Err(OrchestratorError::TaskNotFound)));
    assert_eq!(q.cancel("zz", "t".to_string()), Err(OrchestratorError::TaskNotFound));
    assert_eq!(
        q.update_status("zz", TaskStatus::Running, None, None, "t".to_string()),
        Err(OrchestratorError::TaskNotFound)
    );
}

#[test]
fn status_updates_stamp_times_and_never_regress() {
    let mut q = TaskQueue::new();
    q.enqueue(task("a", "w", 1)).unwrap();
    q.update_status("a", TaskStatus::Running, None, None, "t1".to_string()).unwrap();
    let t = q.find("a").unwrap();
    assert_eq!(t.started_at, Some("t1".to_string()));
    assert_eq!(t.completed_at, None);
    assert_eq!(
        q.update_status("a", TaskStatus::Pending, None, None, "t2".to_string()),
        Err(OrchestratorError::IllegalTransition)
    );
    q.update_status("a", TaskStatus::Completed, Some("done".to_string()), None, "t3".to_string())
        .unwrap();
    let t = q.find("a").unwrap();
    assert_eq!(t.status, TaskStatus::Completed);
    assert_eq!(t.started_at, Some("t1".to_string()));
    assert_eq!(t.completed_at, Some("t3".to_string()));
    assert_eq!(t.result, Some("done".to_string()));
    for to in [TaskStatus::Pending, TaskStatus::Running, TaskStatus::Failed, TaskStatus::Cancelled] {
        assert_eq!(
            q.update_status("a", to, None, Some("x".to_string()), "t4".to_string()),
            Err(OrchestratorError::IllegalTransition)
        );
    }
    assert_eq!(q.find("a").unwrap().status, TaskStatus::Completed);
    assert_eq!(q.find("a").unwrap().error, None);
}

#[test]
fn cancel_on_completed_task_is_already_terminal() {
    let mut q = TaskQueue::new();
    q.enqueue(task("a", "w", 1)).unwrap();
    q.update_status("a", TaskStatus::Completed, Some("ok".to_string()), None, "t1".to_string())
        .unwrap();
    let before = q.find("a").unwrap();
    assert_eq!(q.cancel("a", "t2".to_string()), Err(OrchestratorError::AlreadyTerminal));
    let after = q.find("a").unwrap();
    assert_eq!(after.status, before.status);
    assert_eq!(after.started_at, before.started_at);
    assert_eq!(after.completed_at, before.completed_at);
    assert_eq!(after.result, before.result);
    assert_eq!(after.error, before.error);
    assert_eq!(after.priority, before.priority);
}

#[test]
fn clear_completed_leaves_only_pending() {
    let mut q = TaskQueue::new();
    for id in ["c1", "c2", "f1", "pend"] {
        q.enqueue(task(id, "w", 1)).unwrap();
    }
    q.update_status("c1", TaskStatus::Completed, None, None, "t".to_string()).unwrap();
    q.update_status("c2", TaskStatus::Completed, None, None, "t".to_string()).unwrap();
    q.update_status("f1", TaskStatus::Failed, None, Some("e".to_string()), "t".to_string()).unwrap();
    q.clear_terminal();
    assert_eq!(ids(&q), vec!["pend"]);
    assert_eq!(q.get(0).status, TaskStatus::Pending);
}

#[test]
fn stats_count_by_status() {
    let mut q = TaskQueue::new();
    for id in ["a", "b", "c", "d", "e"] {
        q.enqueue(task(id, "w", 1)).unwrap();
    }
    q.update_status("a", TaskStatus::Running, None, None, "t".to_string()).unwrap();
    q.update_status("b", TaskStatus::Completed, None, None, "t".to_string()).unwrap();
    q.update_status("c", TaskStatus::Failed, None, None, "t".to_string()).unwrap();
    q.cancel("d", "t".to_string()).unwrap();
    let s = q.stats();
    assert_eq!((s.pending, s.running, s.completed, s.failed, s.total), (1, 1, 1, 1, 5));
}

#[test]
fn registry_register_get_and_errors() {
    let mut r = Registry::new();
    worker(&mut r, "w1");
    assert_eq!(
        r.register("w1".to_string(), "again".to_string(), vec![], "t".to_string()),
        Err(OrchestratorError::DuplicateWorker)
    );
    let w = r.get("w1").unwrap();
    assert_eq!(w.status, Availability::Available);
    assert_eq!(w.health_score, HEALTH_FULL);
    assert_eq!(w.capabilities, vec!["audio".to_string()]);
    assert!(w.current_task.is_none());
    assert!(matches!(r.get("nope"), Err(OrchestratorError::WorkerNotFound)));
    assert_eq!(r.set_availability("nope", Availability::Offline), Err(OrchestratorError::WorkerNotFound));
    assert_eq!(r.set_availability("w1", Availability::Busy), Err(OrchestratorError::IllegalTransition));
    r.set_availability("w1", Availability::Offline).unwrap();
    assert_eq!(r.get("w1").unwrap().status, Availability::Offline);
    assert_eq!(r.list_all().len(), 1);
    assert_eq!(Availability::Offline.as_str(), "offline");
}

#[test]
fn scan_assigns_submitted_media_file() {
    let mut a = CeoAgent::new();
    a.agent_registry
        .register("vitra_lag".to_string(), "w1".to_string(), vec!["audio".to_string()], "t0".to_string())
        .unwrap();
    let id = a
        .submit_task("clip.mp3", true, "{}".to_string(), "task-1".to_string(), "t1".to_string())
        .unwrap();
    assert_eq!(id, "task-1");
    let t = a.get_task_status("task-1").unwrap();
    assert_eq!(t.agent_name, "vitra_lag");
    assert_eq!(t.status, TaskStatus::Pending);
    assert_eq!(t.priority, 1);
    assert_eq!(t.task_type, "file_processing");
    a.dispatch_at("t2".to_string());
    let t = a.get_task_status("task-1").unwrap();
    assert_eq!(t.status, TaskStatus::Running);
    assert_eq!(t.started_at, Some("t2".to_string()));
    let w = a.agent_registry.get("vitra_lag").unwrap();
    assert_eq!(w.status, Availability::Busy);
    assert_eq!(w.current_task, Some("task-1".to_string()));
}

#[test]
fn one_task_per_worker_per_scan() {
    let mut q = TaskQueue::new();
    let mut r = Registry::new();
    worker(&mut r, "w1");
    q.enqueue(task("low", "w1", 1)).unwrap();
    q.enqueue(task("high", "w1", 5)).unwrap();
    dispatch_scan(&mut q, &mut r, "t1".to_string());
    assert_eq!(q.find("high").unwrap().status, TaskStatus::Running);
    assert_eq!(q.find("low").unwrap().status, TaskStatus::Pending);
    assert_eq!(r.get("w1").unwrap().current_task, Some("high".to_string()));
    dispatch_scan(&mut q, &mut r, "t2".to_string());
    assert_eq!(q.find("low").unwrap().status, TaskStatus::Pending);
}

#[test]
fn scan_keeps_busy_iff_holding_task() {
    let mut q = TaskQueue::new();
    let mut r = Registry::new();
    worker(&mut r, "w1");
    worker(&mut r, "w2");
    worker(&mut r, "w3");
    r.set_availability("w3", Availability::Offline).unwrap();
    q.enqueue(task("a", "w1", 1)).unwrap();
    q.enqueue(task("b", "w3", 1)).unwrap();
    q.enqueue(task("c", "missing", 1)).unwrap();
    dispatch_scan(&mut q, &mut r, "t1".to_string());
    for w in r.list_all() {
        assert_eq!(w.current_task.is_some(), w.status == Availability::Busy);
    }
    assert_eq!(q.find("a").unwrap().status, TaskStatus::Running);
    assert_eq!(q.find("b").unwrap().status, TaskStatus::Pending);
    assert_eq!(q.find("c").unwrap().status, TaskStatus::Pending);
    assert_eq!(r.get("w2").unwrap().status, Availability::Available);
}

#[test]
fn cancelled_pending_task_is_not_dispatched() {
    let mut a = CeoAgent::new();
    a.agent_registry
        .register("ghost_lag".to_string(), "G".to_string(), vec![], "t0".to_string())
        .unwrap();
    a.submit_task("a.txt", true, "{}".to_string(), "x".to_string(), "t1".to_string()).unwrap();
    a.cancel_task_at("x", "t2".to_string()).unwrap();
    let t = a.get_task_status("x").unwrap();
    assert_eq!(t.status, TaskStatus::Cancelled);
    assert_eq!(t.completed_at, Some("t2".to_string()));
    assert_eq!(t.started_at, None);
    a.dispatch_at("t3".to_string());
    assert_eq!(a.get_task_status("x").unwrap().status, TaskStatus::Cancelled);
    assert_eq!(a.agent_registry.get("ghost_lag").unwrap().status, Availability::Available);
}

#[test]
fn cancelling_running_task_keeps_worker_busy_until_report() {
    let mut a = CeoAgent::new();
    a.agent_registry
        .register("ghost_lag".to_string(), "G".to_string(), vec![], "t0".to_string())
        .unwrap();
    a.submit_task("a.txt", true, "{}".to_string(), "x".to_string(), "t1".to_string()).unwrap();
    a.dispatch_at("t2".to_string());
    a.cancel_task_at("x", "t3".to_string()).unwrap();
    let w = a.agent_registry.get("ghost_lag").unwrap();
    assert_eq!(w.status, Availability::Busy);
    assert_eq!(w.current_task, Some("x".to_string()));
    assert_eq!(
        a.report_result_at("x", true, "late".to_string(), "t4".to_string()),
        Err(OrchestratorError::IllegalTransition)
    );
    let t = a.get_task_status("x").unwrap();
    assert_eq!(t.status, TaskStatus::Cancelled);
    assert_eq!(t.result, None);
    let w = a.agent_registry.get("ghost_lag").unwrap();
    assert_eq!(w.status, Availability::Available);
    assert_eq!(w.current_task, None);
}

#[test]
fn completion_report_frees_worker() {
    let mut a = CeoAgent::new();
    a.agent_registry
        .register("vitra_lag".to_string(), "V".to_string(), vec![], "t0".to_string())
        .unwrap();
    a.submit_task("a.wav", true, "{}".to_string(), "x".to_string(), "t1".to_string()).unwrap();
    a.submit_task("b.wav", true, "{}".to_string(), "y".to_string(), "t1".to_string()).unwrap();
    a.dispatch_at("t2".to_string());
    a.report_result_at("x", false, "boom".to_string(), "t3".to_string()).unwrap();
    let t = a.get_task_status("x").unwrap();
    assert_eq!(t.status, TaskStatus::Failed);
    assert_eq!(t.error, Some("boom".to_string()));
    assert_eq!(t.completed_at, Some("t3".to_string()));
    assert_eq!(a.agent_registry.get("vitra_lag").unwrap().status, Availability::Available);
    a.dispatch_at("t4".to_string());
    assert_eq!(a.get_task_status("y").unwrap().status, TaskStatus::Running);
    assert_eq!(
        a.report_result_at("zz", true, "r".to_string(), "t5".to_string()),
        Err(OrchestratorError::TaskNotFound)
    );
}

#[test]
fn submit_errors() {
    let mut a = CeoAgent::new();
    assert_eq!(
        a.submit_task("gone.mp3", false, "{}".to_string(), "x".to_string(), "t".to_string()),
        Err(OrchestratorError::FileNotFound)
    );
    a.submit_task("a.mp3", true, "{}".to_string(), "x".to_string(), "t".to_string()).unwrap();
    assert_eq!(
        a.submit_task("b.mp3", true, "{}".to_string(), "x".to_string(), "t".to_string()),
        Err(OrchestratorError::InvalidTask)
    );
    assert_eq!(a.get_queue_status().queue_stats.total, 1);
}

#[test]
fn lifecycle_and_registry_initialization() {
    let mut a = CeoAgent::new();
    assert_eq!(a.status, RunState::Stopped);
    assert_eq!(a.get_status().status, "stopped");
    let st = a.start().unwrap();
    assert_eq!(st.status, "running");
    assert_eq!(st.name, "CEO_LAG");
    assert!(!a.last_activity.is_empty());
    assert_eq!(a.agent_registry.get("vitra_lag").unwrap().name, "VITRA_LAG");
    assert_eq!(a.agent_registry.get("ghost_lag").unwrap().status, Availability::Available);
    assert_eq!(a.agent_registry.get("ceo_lag").unwrap().status, Availability::Running);
    a.start().unwrap();
    assert_eq!(a.get_queue_status().agents.len(), 3);
    assert_eq!(a.stop().unwrap().status, "stopped");
}

#[test]
fn process_file_uses_fresh_ids() {
    let mut a = CeoAgent::new();
    let x = a.process_file("a.mp3", true, "{}".to_string()).unwrap();
    let y = a.process_file("b.txt", true, "{}".to_string()).unwrap();
    assert_eq!(x.len(), 36);
    assert_ne!(x, y);
    assert_eq!(a.get_task_status(&x).unwrap().agent_name, "vitra_lag");
    assert_eq!(a.get_task_status(&y).unwrap().agent_name, "ghost_lag");
    assert!(!a.get_task_status(&x).unwrap().created_at.is_empty());
    assert_eq!(a.process_file("c.mp3", false, "{}".to_string()), Err(OrchestratorError::FileNotFound));
}

#[test]
fn health_sampling_is_observational() {
    let mut a = CeoAgent::new();
    a.start().unwrap();
    a.submit_task("a.mp3", true, "{}".to_string(), "x".to_string(), "t".to_string()).unwrap();
    a.dispatch();
    a.sample_health();
    a.sample_health();
    assert_eq!(a.get_system_metrics().uptime, 2);
    for w in a.agent_registry.list_all() {
        assert!(w.health_score >= HEALTH_FLOOR && w.health_score <= HEALTH_FULL);
    }
    assert_eq!(a.agent_registry.get("vitra_lag").unwrap().current_task, Some("x".to_string()));
    a.sample_health_at(&vec![0, 50, 51], "t9".to_string());
    assert_eq!(a.agent_registry.list_all()[0].health_score, 950);
    assert_eq!(a.agent_registry.list_all()[1].health_score, 1000);
    assert_eq!(a.agent_registry.list_all()[2].health_score, 950);
    assert_eq!(a.agent_registry.list_all()[0].last_activity, "t9");
}

#[test]
fn cancel_and_clear_through_facade() {
    let mut a = CeoAgent::new();
    a.submit_task("a.txt", true, "{}".to_string(), "x".to_string(), "t".to_string()).unwrap();
    a.submit_task("b.txt", true, "{}".to_string(), "y".to_string(), "t".to_string()).unwrap();
    a.cancel_task("x").unwrap();
    assert_eq!(a.cancel_task("x"), Err(OrchestratorError::AlreadyTerminal));
    assert_eq!(a.cancel_task("nope"), Err(OrchestratorError::TaskNotFound));
    a.clear_completed_tasks().unwrap();
    let s = a.get_queue_status().queue_stats;
    assert_eq!((s.pending, s.total), (1, 1));
    assert!(a.get_task_status("y").is_ok());
    assert_eq!(OrchestratorError::AlreadyTerminal.message(), "task already in a terminal state");
}

#[test]
fn scan_returns_started_ids_in_queue_order() {
    let mut q = TaskQueue::new();
    let mut r = Registry::new();
    worker(&mut r, "w1");
    worker(&mut r, "w2");
    q.enqueue(task("a", "w2", 1)).unwrap();
    q.enqueue(task("b", "w1", 3)).unwrap();
    q.enqueue(task("c", "w1", 2)).unwrap();
    let started = dispatch_scan(&mut q, &mut r, "t1".to_string());
    assert_eq!(started, vec!["b".to_string(), "a".to_string()]);
    assert!(dispatch_scan(&mut q, &mut r, "t2".to_string()).is_empty());
}

#[test]
fn start_registers_fresh_workers() {
    let mut a = CeoAgent::new();
    a.start_at("t0".to_string());
    let v = a.agent_registry.get("vitra_lag").unwrap();
    assert_eq!(v.capabilities, vec!["transcription".to_string(), "translation".to_string()]);
    assert_eq!((v.status, v.health_score, v.current_task.clone()), (Availability::Available, HEALTH_FULL, None));
    assert_eq!(v.last_activity, "t0");
    let g = a.agent_registry.get("ghost_lag").unwrap();
    assert_eq!(g.capabilities, vec!["content_generation".to_string(), "optimization".to_string()]);
    let c = a.agent_registry.get("ceo_lag").unwrap();
    assert_eq!(c.capabilities, vec!["orchestration".to_string(), "task_management".to_string()]);
    assert_eq!(c.status, Availability::Running);
    let ids = a.dispatch();
    assert!(ids.is_empty());
    let x = a.process_file("song.mp3", true, "{}".to_string()).unwrap();
    assert_eq!(a.dispatch(), vec![x.clone()]);
    assert_eq!(a.agent_registry.get("vitra_lag").unwrap().current_task, Some(x));
}

#[test]
fn start_from_empty_registry_holds_exactly_three_entries() {
    let mut a = CeoAgent::new();
    a.start_at("t0".to_string());
    let all = a.agent_registry.list_all();
    assert_eq!(all.len(), 3);
    for w in &all {
        assert!(w.current_task.is_none());
        assert_ne!(w.status, Availability::Busy);
        assert_eq!(w.health_score, HEALTH_FULL);
    }
    assert_eq!(OrchestratorError::NotAFile.message(), "path is not a file");
}
