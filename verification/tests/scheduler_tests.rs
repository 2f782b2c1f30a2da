use autonomy_core::task_scheduler::{
    Task, TaskResult, TaskScheduler, TaskStatus, TaskType,
};

fn task(id: &str, priority: u8, scheduled_time: u64, max_retries: u32) -> Task {
    Task {
        id: id.to_string(),
        name: id.to_string(),
        task_type: TaskType::HealthCheck,
        priority,
        scheduled_time,
        dependencies: vec![],
        max_retries,
        retry_count: 0,
        timeout_seconds: 30,
        status: TaskStatus::Pending,
        result: None,
    }
}

fn failure() -> TaskResult {
    TaskResult {
        success: false,
        message: "boom".to_string(),
        data: None,
        execution_time_seconds: 1,
    }
}

fn success() -> TaskResult {
    TaskResult {
        success: true,
        message: "done".to_string(),
        data: None,
        execution_time_seconds: 1,
    }
}

#[test]
fn retry_budget_of_two_allows_a_third_attempt_then_fails_for_good() {
    let mut s = TaskScheduler::new();
    s.register_executor(TaskType::HealthCheck);
    s.schedule_task(task("t", 5, 0, 2)).unwrap();

    // First attempt fails: scheduled for a second attempt.
    let order = s.dispatch_next(10).unwrap();
    assert!(s.on_task_result(&order.task_id, failure(), 10));
    assert_eq!(s.task_queue.len(), 1);
    assert_eq!(s.task_queue[0].retry_count, 1);
    assert_eq!(s.task_queue[0].status, TaskStatus::Retrying);

    // Second attempt fails: scheduled for a third attempt.
    let order = s.dispatch_next(100).unwrap();
    assert!(s.on_task_result(&order.task_id, failure(), 100));
    assert_eq!(s.task_queue.len(), 1);
    assert_eq!(s.task_queue[0].retry_count, 2);

    // Third attempt fails: terminal, never re-enqueued.
    let order = s.dispatch_next(200).unwrap();
    assert!(s.on_task_result(&order.task_id, failure(), 200));
    assert_eq!(s.task_queue.len(), 0);
    assert_eq!(s.completed_tasks.len(), 1);
    assert_eq!(s.completed_tasks[0].status, TaskStatus::Failed);
    assert_eq!(s.completed_tasks[0].retry_count, 2);
    assert!(s.dispatch_next(300).is_none());
}

#[test]
fn recurring_five_minutes_three_times() {
    let mut s = TaskScheduler::new();
    let base = task("beat", 5, 1000, 0);
    s.schedule_recurring_task(base, 300, 3).unwrap();
    assert_eq!(s.task_queue.len(), 3);
    let times: Vec<u64> = s.task_queue.iter().map(|t| t.scheduled_time).collect();
    assert_eq!(times, vec![1000, 1300, 1600]);
    let ids: Vec<&str> = s.task_queue.iter().map(|t| t.id.as_str()).collect();
    assert_eq!(ids, vec!["beat-0", "beat-1", "beat-2"]);
}

#[test]
fn unmet_dependency_rejected_without_state_change() {
    let mut s = TaskScheduler::new();
    let mut t = task("child", 5, 0, 0);
    t.dependencies = vec!["parent".to_string()];
    let err = s.schedule_task(t).unwrap_err();
    assert_eq!(err, "task has unmet dependencies");
    assert_eq!(s.task_queue.len(), 0);
}

#[test]
fn met_dependency_accepted() {
    let mut s = TaskScheduler::new();
    s.register_executor(TaskType::HealthCheck);
    s.schedule_task(task("parent", 5, 0, 0)).unwrap();
    let order = s.dispatch_next(1).unwrap();
    assert!(s.on_task_result(&order.task_id, success(), 1));
    assert_eq!(s.completed_tasks[0].status, TaskStatus::Completed);

    let mut child = task("child", 5, 0, 0);
    child.dependencies = vec!["parent".to_string()];
    s.schedule_task(child).unwrap();
    assert_eq!(s.task_queue.len(), 1);
}

#[test]
fn dispatch_prefers_priority_then_earlier_time() {
    let mut s = TaskScheduler::new();
    s.schedule_task(task("low", 1, 0, 0)).unwrap();
    s.schedule_task(task("high-late", 9, 50, 0)).unwrap();
    s.schedule_task(task("high-early", 9, 10, 0)).unwrap();
    s.schedule_task(task("future", 200, 10_000, 0)).unwrap();

    let first = s.dispatch_next(100).unwrap();
    assert_eq!(first.task_id, "high-early");
    let second = s.dispatch_next(100).unwrap();
    assert_eq!(second.task_id, "high-late");
    let third = s.dispatch_next(100).unwrap();
    assert_eq!(third.task_id, "low");
    // Only the far-future task is left: nothing is ready.
    assert!(s.dispatch_next(100).is_none());
}

#[test]
fn dispatch_reports_missing_executor() {
    let mut s = TaskScheduler::new();
    s.schedule_task(task("orphan", 5, 0, 0)).unwrap();
    let order = s.dispatch_next(1).unwrap();
    assert!(!order.executor_registered);
}

#[test]
fn concurrency_limit_holds_dispatch() {
    let mut s = TaskScheduler::new();
    for i in 0..7 {
        s.schedule_task(task(&format!("t{}", i), 5, 0, 0)).unwrap();
    }
    let mut dispatched = 0;
    while s.dispatch_next(1).is_some() {
        dispatched += 1;
    }
    assert_eq!(dispatched, 5);
    assert_eq!(s.running_tasks.len(), 5);
    assert_eq!(s.task_queue.len(), 2);
}

#[test]
fn watchdog_force_fails_stuck_tasks() {
    let mut s = TaskScheduler::new();
    s.schedule_task(task("stuck", 5, 0, 0)).unwrap();
    s.dispatch_next(1).unwrap();
    // Twice the 30-second timeout has passed since its scheduled time.
    s.check_running_tasks(100);
    assert_eq!(s.running_tasks.len(), 0);
    assert_eq!(s.completed_tasks.len(), 1);
    assert_eq!(s.completed_tasks[0].status, TaskStatus::Failed);
    let res = s.completed_tasks[0].result.as_ref().unwrap();
    assert_eq!(res.message, "task cancelled due to timeout");
}

#[test]
fn cancel_removes_pending_and_running() {
    let mut s = TaskScheduler::new();
    s.schedule_task(task("x", 5, 0, 0)).unwrap();
    s.schedule_task(task("x", 5, 10, 0)).unwrap();
    s.schedule_task(task("keep", 5, 0, 0)).unwrap();
    s.cancel_task("x").unwrap();
    assert_eq!(s.task_queue.len(), 1);
    assert_eq!(s.task_queue[0].id, "keep");

    let order = s.dispatch_next(1).unwrap();
    assert_eq!(order.task_id, "keep");
    s.cancel_task("keep").unwrap();
    assert_eq!(s.running_tasks.len(), 0);
    assert_eq!(s.completed_tasks.len(), 1);
    assert_eq!(s.completed_tasks[0].status, TaskStatus::Cancelled);
}

#[test]
fn status_reports_counts_and_next_time() {
    let mut s = TaskScheduler::new();
    s.schedule_task(task("a", 1, 500, 0)).unwrap();
    s.schedule_task(task("b", 9, 900, 0)).unwrap();
    let st = s.get_status();
    assert_eq!(st.pending_tasks, 2);
    assert_eq!(st.running_tasks, 0);
    assert_eq!(st.completed_tasks, 0);
    // The queue head is the higher-priority task.
    assert_eq!(st.next_task_time, Some(900));
}

#[test]
fn cleanup_prunes_old_and_excess_completed_tasks() {
    let mut s = TaskScheduler::new();
    s.register_executor(TaskType::HealthCheck);
    s.schedule_task(task("old", 5, 0, 0)).unwrap();
    s.schedule_task(task("fresh", 5, 90_000, 0)).unwrap();
    let o1 = s.dispatch_next(1).unwrap();
    s.on_task_result(&o1.task_id, success(), 1);
    let o2 = s.dispatch_next(95_000).unwrap();
    s.on_task_result(&o2.task_id, success(), 95_000);
    assert_eq!(s.completed_tasks.len(), 2);
    // A day after the old task's slot, only the fresh one survives.
    s.cleanup_completed_tasks(100_000);
    assert_eq!(s.completed_tasks.len(), 1);
    assert_eq!(s.completed_tasks[0].id, "fresh");
}
