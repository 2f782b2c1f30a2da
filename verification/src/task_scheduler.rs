//! Task scheduler: a priority-ordered, dependency-aware, concurrency-bounded
//! executor with timeout and retry semantics.
//!
//! The scheduler owns the bookkeeping: the pending queue, the running set and
//! the completed log. Executing a task is the caller's work: a dispatch hands
//! out an order naming the task, the caller runs the registered executor
//! under the task's timeout, and reports the outcome back, which drives the
//! retry policy. Timestamps and durations are in seconds.

use vstd::prelude::*;
use crate::text::{push_char, push_dec, spec_dec_str, str_eq};

verus! {

#[derive(Debug)]
pub enum TaskType {
    HealthCheck,
    Replication,
    Backup,
    Deployment,
    Monitoring,
    Analysis,
    Cleanup,
    Custom(String),
}

#[derive(Debug, Clone, Copy, PartialEq, Eq, Structural)]
pub enum TaskStatus {
    Pending,
    Running,
    Completed,
    Failed,
    Cancelled,
    Retrying,
}

#[derive(Debug, Clone, PartialEq)]
pub struct TaskResult {
    pub success: bool,
    pub message: String,
    pub data: Option<String>,
    pub execution_time_seconds: u64,
}

/// A schedulable, retryable, timeout-bounded unit of work. A task belongs to
/// exactly one of the queue, the running set and the completed log at any
/// time, and its retry counter never exceeds its retry budget.
#[derive(Debug)]
pub struct Task {
    pub id: String,
    pub name: String,
    pub task_type: TaskType,
    pub priority: u8,
    pub scheduled_time: u64,
    pub dependencies: Vec<String>,
    pub max_retries: u32,
    pub retry_count: u32,
    pub timeout_seconds: u64,
    pub status: TaskStatus,
    pub result: Option<TaskResult>,
}

pub open spec fn spec_task_type_eq(a: TaskType, b: TaskType) -> bool {
    match (a, b) {
        (TaskType::HealthCheck, TaskType::HealthCheck) => true,
        (TaskType::Replication, TaskType::Replication) => true,
        (TaskType::Backup, TaskType::Backup) => true,
        (TaskType::Deployment, TaskType::Deployment) => true,
        (TaskType::Monitoring, TaskType::Monitoring) => true,
        (TaskType::Analysis, TaskType::Analysis) => true,
        (TaskType::Cleanup, TaskType::Cleanup) => true,
        (TaskType::Custom(x), TaskType::Custom(y)) => x@ == y@,
        _ => false,
    }
}

impl PartialEq for TaskType {
    fn eq(&self, other: &Self) -> (r: bool) {
        match (self, other) {
            (TaskType::HealthCheck, TaskType::HealthCheck) => true,
            (TaskType::Replication, TaskType::Replication) => true,
            (TaskType::Backup, TaskType::Backup) => true,
            (TaskType::Deployment, TaskType::Deployment) => true,
            (TaskType::Monitoring, TaskType::Monitoring) => true,
            (TaskType::Analysis, TaskType::Analysis) => true,
            (TaskType::Cleanup, TaskType::Cleanup) => true,
            (TaskType::Custom(x), TaskType::Custom(y)) => str_eq(x.as_str(), y.as_str()),
            _ => false,
        }
    }
}

impl vstd::std_specs::cmp::PartialEqSpecImpl for TaskType {
    open spec fn obeys_eq_spec() -> bool {
        true
    }

    open spec fn eq_spec(&self, other: &Self) -> bool {
        spec_task_type_eq(*self, *other)
    }
}

impl Clone for TaskType {
    /// A clone denotes the same task type.
    fn clone(&self) -> (r: Self)
        ensures
            r == *self,
    {
        match self {
            TaskType::HealthCheck => TaskType::HealthCheck,
            TaskType::Replication => TaskType::Replication,
            TaskType::Backup => TaskType::Backup,
            TaskType::Deployment => TaskType::Deployment,
            TaskType::Monitoring => TaskType::Monitoring,
            TaskType::Analysis => TaskType::Analysis,
            TaskType::Cleanup => TaskType::Cleanup,
            TaskType::Custom(s) => TaskType::Custom(s.clone()),
        }
    }
}

/// `a` leaves the queue no later than `b`: higher priority first, earlier
/// scheduled time among equal priorities.
pub open spec fn spec_dequeues_first(a: Task, b: Task) -> bool {
    a.priority > b.priority || (a.priority == b.priority && a.scheduled_time <= b.scheduled_time)
}

pub open spec fn spec_ready(t: Task, now: int) -> bool {
    t.scheduled_time <= now
}

/// Two string sequences agree element by element.
pub open spec fn spec_str_seq_eq(a: Seq<String>, b: Seq<String>) -> bool {
    a.len() == b.len() && forall|i: int| 0 <= i < a.len() ==> (#[trigger] a[i])@ == b[i]@
}

/// The `k`-th instance of a recurring task: the base task with `-k` appended
/// to its id, scheduled `k` intervals after the base time, entered Pending.
pub open spec fn spec_recurring_instance(base: Task, k: int, interval: int, t: Task) -> bool {
    &&& t.id@ == base.id@ + "-"@ + spec_dec_str(k as nat)
    &&& t.name@ == base.name@
    &&& spec_task_type_eq(t.task_type, base.task_type)
    &&& t.priority == base.priority
    &&& t.scheduled_time == base.scheduled_time + k * interval
    &&& spec_str_seq_eq(t.dependencies@, base.dependencies@)
    &&& t.max_retries == base.max_retries
    &&& t.retry_count == base.retry_count
    &&& t.timeout_seconds == base.timeout_seconds
    &&& t.status is Pending
    &&& t.result is None
}

/// Some entry of the completed log carries the dependency's id with status
/// Completed.
pub open spec fn spec_dep_satisfied(completed: Seq<Task>, dep: String) -> bool {
    exists|j: int|
        0 <= j < completed.len() && (#[trigger] completed[j]).id@ == dep@ && completed[j].status
            is Completed
}

/// Every listed dependency is present in the completed log with status
/// Completed.
pub open spec fn spec_deps_met(completed: Seq<Task>, deps: Seq<String>) -> bool {
    forall|i: int| 0 <= i < deps.len() ==> spec_dep_satisfied(completed, #[trigger] deps[i])
}

pub open spec fn spec_has_executor(registered: Seq<TaskType>, t: TaskType) -> bool {
    exists|i: int| 0 <= i < registered.len() && spec_task_type_eq(#[trigger] registered[i], t)
}

/// A task ran past twice its timeout without reporting back.
pub open spec fn spec_stuck(t: Task, now: int) -> bool {
    now - t.scheduled_time > 2 * t.timeout_seconds
}

/// The task as the watchdog force-fails it.
pub open spec fn spec_force_failed(orig: Task, t: Task) -> bool {
    &&& t.id@ == orig.id@
    &&& t.name@ == orig.name@
    &&& t.task_type == orig.task_type
    &&& t.priority == orig.priority
    &&& t.scheduled_time == orig.scheduled_time
    &&& t.dependencies == orig.dependencies
    &&& t.max_retries == orig.max_retries
    &&& t.retry_count == orig.retry_count
    &&& t.timeout_seconds == orig.timeout_seconds
    &&& t.status is Failed
    &&& t.result matches Some(res) && res.success == false && res.message@
        == "task cancelled due to timeout"@ && res.execution_time_seconds == orig.timeout_seconds
}

/// The running tasks that are not stuck at `now`, in order.
pub open spec fn spec_not_stuck(s: Seq<Task>, now: int) -> Seq<Task>
    decreases s.len(),
{
    if s.len() == 0 {
        Seq::empty()
    } else {
        let rest = spec_not_stuck(s.drop_last(), now);
        if spec_stuck(s.last(), now) {
            rest
        } else {
            rest.push(s.last())
        }
    }
}

/// `moved` holds, in order, each stuck task of `s` after force-failing.
pub open spec fn spec_stuck_moved(s: Seq<Task>, moved: Seq<Task>, now: int) -> bool
    decreases s.len(),
{
    if s.len() == 0 {
        moved.len() == 0
    } else {
        if spec_stuck(s.last(), now) {
            &&& moved.len() > 0
            &&& spec_force_failed(s.last(), moved.last())
            &&& spec_stuck_moved(s.drop_last(), moved.drop_last(), now)
        } else {
            spec_stuck_moved(s.drop_last(), moved, now)
        }
    }
}

/// The queue without the entries carrying the given id.
pub open spec fn spec_without_id(s: Seq<Task>, id: Seq<char>) -> Seq<Task>
    decreases s.len(),
{
    if s.len() == 0 {
        Seq::empty()
    } else {
        let rest = spec_without_id(s.drop_last(), id);
        if s.last().id@ == id {
            rest
        } else {
            rest.push(s.last())
        }
    }
}

/// The most recent `n` entries of a log.
pub open spec fn spec_last_n(s: Seq<Task>, n: int) -> Seq<Task> {
    if s.len() > n {
        s.subrange(s.len() - n, s.len() as int)
    } else {
        s
    }
}

/// The entries scheduled after the cutoff, in order.
pub open spec fn spec_recent_tasks(s: Seq<Task>, cutoff: int) -> Seq<Task>
    decreases s.len(),
{
    if s.len() == 0 {
        Seq::empty()
    } else {
        let rest = spec_recent_tasks(s.drop_last(), cutoff);
        if s.last().scheduled_time > cutoff {
            rest.push(s.last())
        } else {
            rest
        }
    }
}

#[derive(Debug, Clone, Copy, PartialEq, Eq)]
pub struct SchedulerStatus {
    pub pending_tasks: usize,
    pub running_tasks: usize,
    pub completed_tasks: usize,
    pub next_task_time: Option<u64>,
}

/// What a dispatch hands the caller: which task to run, through which
/// executor, and under what timeout.
#[derive(Debug, Clone)]
pub struct DispatchOrder {
    pub task_id: String,
    pub task_type: TaskType,
    pub timeout_seconds: u64,
    pub executor_registered: bool,
}

/// Pluggable handler that performs the work a task describes; registered per
/// task type before scheduling begins and invoked under the scheduler's
/// timeout by the caller driving the dispatch loop.
pub trait TaskExecutor {
    fn execute(&self, task: &Task) -> TaskResult;
}

pub struct HealthCheckExecutor;

impl TaskExecutor for HealthCheckExecutor {
    fn execute(&self, _task: &Task) -> TaskResult {
        TaskResult {
            success: true,
            message: "health check completed".to_owned(),
            data: None,
            execution_time_seconds: 1,
        }
    }
}

pub struct ReplicationExecutor;

impl TaskExecutor for ReplicationExecutor {
    fn execute(&self, _task: &Task) -> TaskResult {
        TaskResult {
            success: true,
            message: "replication initiated".to_owned(),
            data: None,
            execution_time_seconds: 5,
        }
    }
}

/// Scheduler state: the pending queue (a priority queue ordered by
/// `spec_dequeues_first`), the running set, the completed log, and the task
/// types for which an executor has been registered.
pub struct TaskScheduler {
    pub task_queue: Vec<Task>,
    pub running_tasks: Vec<Task>,
    pub completed_tasks: Vec<Task>,
    pub registered_executors: Vec<TaskType>,
    pub max_concurrent_tasks: usize,
    pub default_retry_delay_seconds: u64,
}

impl TaskScheduler {
    /// Queued tasks are Pending or Retrying, running tasks are Running, and
    /// no task's retry counter exceeds its budget.
    pub open spec fn wf(self) -> bool {
        &&& forall|i: int|
            0 <= i < self.task_queue@.len() ==> {
                let t = #[trigger] self.task_queue@[i];
                (t.status is Pending || t.status is Retrying) && t.retry_count <= t.max_retries
            }
        &&& forall|i: int|
            0 <= i < self.running_tasks@.len() ==> {
                let t = #[trigger] self.running_tasks@[i];
                t.status is Running && t.retry_count <= t.max_retries
            }
    }

    pub fn new() -> (r: Self)
        ensures
            r.wf(),
            r.task_queue@.len() == 0,
            r.running_tasks@.len() == 0,
            r.completed_tasks@.len() == 0,
            r.registered_executors@.len() == 0,
            r.max_concurrent_tasks == 5,
            r.default_retry_delay_seconds == 30,
    {
        TaskScheduler {
            task_queue: Vec::new(),
            running_tasks: Vec::new(),
            completed_tasks: Vec::new(),
            registered_executors: Vec::new(),
            max_concurrent_tasks: 5,
            default_retry_delay_seconds: 30,
        }
    }

    /// Record that an executor stands ready for a given kind of work. The caller
    /// driving the dispatch loop keeps the executor itself.
    pub fn register_executor(&mut self, task_type: TaskType)
        ensures
            final(self).registered_executors@ == old(self).registered_executors@.push(task_type),
            final(self).task_queue@ == old(self).task_queue@,
            final(self).running_tasks@ == old(self).running_tasks@,
            final(self).completed_tasks@ == old(self).completed_tasks@,
            final(self).max_concurrent_tasks == old(self).max_concurrent_tasks,
            final(self).default_retry_delay_seconds == old(self).default_retry_delay_seconds,
    {
        self.registered_executors.push(task_type);
    }

    fn has_executor(&self, t: &TaskType) -> (r: bool)
        ensures
            r == spec_has_executor(self.registered_executors@, *t),
    {
        let n: usize = self.registered_executors.len();
        let mut i: usize = 0;
        while i < n
            invariant
                i <= n,
                n == self.registered_executors@.len(),
                forall|j: int|
                    0 <= j < i ==> !spec_task_type_eq(#[trigger] self.registered_executors@[j], *t),
            decreases n - i,
        {
            if self.registered_executors[i] == *t {
                return true;
            }
            i = i + 1;
        }
        false
    }

    fn validate_dependencies(&self, task: &Task) -> (r: bool)
        ensures
            r == spec_deps_met(self.completed_tasks@, task.dependencies@),
    {
        let n: usize = task.dependencies.len();
        let mut i: usize = 0;
        while i < n
            invariant
                i <= n,
                n == task.dependencies@.len(),
                forall|k: int|
                    0 <= k < i ==> spec_dep_satisfied(
                        self.completed_tasks@,
                        #[trigger] task.dependencies@[k],
                    ),
            decreases n - i,
        {
            let dep = &task.dependencies[i];
            let m: usize = self.completed_tasks.len();
            let mut j: usize = 0;
            let mut found: bool = false;
            while j < m
                invariant
                    j <= m,
                    m == self.completed_tasks@.len(),
                    found ==> spec_dep_satisfied(self.completed_tasks@, *dep),
                    !found ==> forall|q: int|
                        0 <= q < j ==> !((#[trigger] self.completed_tasks@[q]).id@ == dep@
                            && self.completed_tasks@[q].status is Completed),
                decreases m - j,
            {
                let c = &self.completed_tasks[j];
                if str_eq(c.id.as_str(), dep.as_str()) && c.status == TaskStatus::Completed {
                    found = true;
                }
                j = j + 1;
            }
            if !found {
                proof {
                    assert(task.dependencies@[i as int] == *dep);
                    assert(!spec_dep_satisfied(self.completed_tasks@, *dep));
                    assert(!spec_deps_met(self.completed_tasks@, task.dependencies@));
                }
                return false;
            }
            i = i + 1;
        }
        proof {
            assert(spec_deps_met(self.completed_tasks@, task.dependencies@));
        }
        true
    }

    /// Enter a task into the pending queue, as Pending; rejected, with no
    /// state touched, exactly when some listed dependency has not completed.
    pub fn schedule_task(&mut self, task: Task) -> (r: Result<(), String>)
        requires
            old(self).wf(),
            task.retry_count <= task.max_retries,
        ensures
            final(self).wf(),
            r is Ok <==> spec_deps_met(old(self).completed_tasks@, task.dependencies@),
            r is Ok ==> final(self).task_queue@ == old(self).task_queue@.push(
                Task { status: TaskStatus::Pending, ..task },
            ),
            r matches Err(m) ==> final(self).task_queue@ == old(self).task_queue@ && m@
                == "task has unmet dependencies"@,
            final(self).running_tasks@ == old(self).running_tasks@,
            final(self).completed_tasks@ == old(self).completed_tasks@,
            final(self).registered_executors@ == old(self).registered_executors@,
            final(self).max_concurrent_tasks == old(self).max_concurrent_tasks,
            final(self).default_retry_delay_seconds == old(self).default_retry_delay_seconds,
    {
        if !self.validate_dependencies(&task) {
            return Err("task has unmet dependencies".to_owned());
        }
        let mut task = task;
        task.status = TaskStatus::Pending;
        self.task_queue.push(task);
        Ok(())
    }

    /// Expand a template into `count` independent pending tasks whose
    /// scheduled times are the base time plus `k` intervals, `k` running
    /// from 0 to `count - 1`, each id carrying the instance number.
    pub fn schedule_recurring_task(
        &mut self,
        base_task: Task,
        interval_seconds: u64,
        count: usize,
    ) -> (r: Result<(), String>)
        requires
            old(self).wf(),
            base_task.retry_count <= base_task.max_retries,
            base_task.result is None,
            base_task.scheduled_time + count * interval_seconds <= u64::MAX,
        ensures
            final(self).wf(),
            r is Ok <==> (count == 0 || spec_deps_met(
                old(self).completed_tasks@,
                base_task.dependencies@,
            )),
            r is Ok ==> {
                &&& final(self).task_queue@.len() == old(self).task_queue@.len() + count
                &&& final(self).task_queue@.subrange(0, old(self).task_queue@.len() as int) == old(self).task_queue@
                &&& forall|k: int|
                    0 <= k < count ==> spec_recurring_instance(
                        base_task,
                        k,
                        interval_seconds as int,
                        #[trigger] final(self).task_queue@[old(self).task_queue@.len() + k],
                    )
            },
            r is Err ==> final(self).task_queue@ == old(self).task_queue@,
            final(self).running_tasks@ == old(self).running_tasks@,
            final(self).completed_tasks@ == old(self).completed_tasks@,
            final(self).registered_executors@ == old(self).registered_executors@,
            final(self).max_concurrent_tasks == old(self).max_concurrent_tasks,
            final(self).default_retry_delay_seconds == old(self).default_retry_delay_seconds,
    {
        let mut k: usize = 0;
        while k < count
            invariant
                k <= count,
                self.wf(),
                base_task.retry_count <= base_task.max_retries,
                base_task.result is None,
                base_task.scheduled_time + count * interval_seconds <= u64::MAX,
                k > 0 ==> spec_deps_met(self.completed_tasks@, base_task.dependencies@),
                self.task_queue@.len() == old(self).task_queue@.len() + k,
                self.task_queue@.subrange(0, old(self).task_queue@.len() as int) == old(self).task_queue@,
                forall|q: int|
                    0 <= q < k ==> spec_recurring_instance(
                        base_task,
                        q,
                        interval_seconds as int,
                        #[trigger] self.task_queue@[old(self).task_queue@.len() + q],
                    ),
                self.running_tasks@ == old(self).running_tasks@,
                self.completed_tasks@ == old(self).completed_tasks@,
                self.registered_executors@ == old(self).registered_executors@,
                self.max_concurrent_tasks == old(self).max_concurrent_tasks,
                self.default_retry_delay_seconds == old(self).default_retry_delay_seconds,
            decreases count - k,
        {
            let instance = instantiate_recurring(&base_task, k, interval_seconds, count);
            let ghost queue_before = self.task_queue@;
            match self.schedule_task(instance) {
                Ok(()) => {},
                Err(m) => {
                    // The template's dependencies are the same for every
                    // instance, so only the first schedule can fail, with
                    // nothing entered yet.
                    proof {
                        assert(k == 0);
                        assert(self.task_queue@ =~= old(self).task_queue@);
                    }
                    return Err(m);
                },
            }
            proof {
                assert(self.task_queue@.subrange(0, old(self).task_queue@.len() as int)
                    =~= queue_before.subrange(0, old(self).task_queue@.len() as int));
            }
            k = k + 1;
        }
        Ok(())
    }

    /// Hand out the next ready task, if any: among the queued tasks whose
    /// scheduled time has arrived, the one that dequeues first leaves the
    /// queue, joins the running set as Running, and is named in the returned
    /// order. Nothing is handed out at the concurrency limit or when no task
    /// is ready.
    pub fn dispatch_next(&mut self, now: u64) -> (r: Option<DispatchOrder>)
        requires
            old(self).wf(),
        ensures
            final(self).wf(),
            r is None ==> final(self).task_queue@ == old(self).task_queue@ && final(self).running_tasks@ == old(self).running_tasks@,
            r is None ==> old(self).running_tasks@.len() >= old(self).max_concurrent_tasks || (
            forall|i: int|
                0 <= i < old(self).task_queue@.len() ==> !spec_ready(
                    #[trigger] old(self).task_queue@[i],
                    now as int,
                )),
            r matches Some(o) ==> {
                &&& old(self).running_tasks@.len() < old(self).max_concurrent_tasks
                &&& exists|i: int|
                    {
                        &&& 0 <= i < old(self).task_queue@.len()
                        &&& spec_ready(#[trigger] old(self).task_queue@[i], now as int)
                        &&& (forall|j: int|
                            0 <= j < old(self).task_queue@.len() && spec_ready(
                                #[trigger] old(self).task_queue@[j],
                                now as int,
                            ) ==> spec_dequeues_first(
                                old(self).task_queue@[i],
                                old(self).task_queue@[j],
                            ))
                        &&& final(self).task_queue@ == old(self).task_queue@.remove(i)
                        &&& final(self).running_tasks@ == old(self).running_tasks@.push(
                            Task { status: TaskStatus::Running, ..old(self).task_queue@[i] },
                        )
                        &&& o.task_id@ == old(self).task_queue@[i].id@
                        &&& o.task_type == old(self).task_queue@[i].task_type
                        &&& o.timeout_seconds == old(self).task_queue@[i].timeout_seconds
                        &&& o.executor_registered == spec_has_executor(
                            old(self).registered_executors@,
                            old(self).task_queue@[i].task_type,
                        )
                    }
            },
            final(self).completed_tasks@ == old(self).completed_tasks@,
            final(self).registered_executors@ == old(self).registered_executors@,
            final(self).max_concurrent_tasks == old(self).max_concurrent_tasks,
            final(self).default_retry_delay_seconds == old(self).default_retry_delay_seconds,
    {
        if self.running_tasks.len() >= self.max_concurrent_tasks {
            return None;
        }
        let n: usize = self.task_queue.len();
        let mut best: usize = 0;
        let mut found: bool = false;
        let mut i: usize = 0;
        while i < n
            invariant
                i <= n,
                n == self.task_queue@.len(),
                found ==> best < i && spec_ready(self.task_queue@[best as int], now as int),
                found ==> forall|j: int|
                    0 <= j < i && spec_ready(#[trigger] self.task_queue@[j], now as int)
                        ==> spec_dequeues_first(self.task_queue@[best as int], self.task_queue@[j]),
                !found ==> forall|j: int|
                    0 <= j < i ==> !spec_ready(#[trigger] self.task_queue@[j], now as int),
            decreases n - i,
        {
            if self.task_queue[i].scheduled_time <= now {
                if !found {
                    best = i;
                    found = true;
                } else {
                    let better = self.task_queue[i].priority > self.task_queue[best].priority || (
                    self.task_queue[i].priority == self.task_queue[best].priority
                        && self.task_queue[i].scheduled_time < self.task_queue[best].scheduled_time);
                    if better {
                        best = i;
                    }
                }
            }
            i = i + 1;
        }
        if !found {
            return None;
        }
        let mut task = self.task_queue.remove(best);
        task.status = TaskStatus::Running;
        let order = DispatchOrder {
            task_id: task.id.clone(),
            task_type: task.task_type.clone(),
            timeout_seconds: task.timeout_seconds,
            executor_registered: self.has_executor(&task.task_type),
        };
        self.running_tasks.push(task);
        proof {
            let i = best as int;
            assert(self.task_queue@ == old(self).task_queue@.remove(i));
            assert(self.running_tasks@ == old(self).running_tasks@.push(
                Task { status: TaskStatus::Running, ..old(self).task_queue@[i] },
            ));
            assert forall|q: int| 0 <= q < self.task_queue@.len() implies {
                let u = #[trigger] self.task_queue@[q];
                (u.status is Pending || u.status is Retrying) && u.retry_count <= u.max_retries
            } by {
                if q < i {
                    assert(self.task_queue@[q] == old(self).task_queue@[q]);
                } else {
                    assert(self.task_queue@[q] == old(self).task_queue@[q + 1]);
                }
            }
        }
        Some(order)
    }

    /// Book the reported outcome of a dispatched task: a success completes
    /// it; a failure within the retry budget re-enters the queue as
    /// Retrying, one retry later and one retry-delay from now; a failure
    /// past the budget is terminal, and the task moves to the completed log
    /// as Failed, never to be re-enqueued. Returns false, changing nothing,
    /// when no running task carries the id.
    pub fn on_task_result(&mut self, task_id: &str, outcome: TaskResult, now: u64) -> (r: bool)
        requires
            old(self).wf(),
            now + old(self).default_retry_delay_seconds <= u64::MAX,
        ensures
            final(self).wf(),
            r == exists|i: int|
                0 <= i < old(self).running_tasks@.len() && (#[trigger] old(self).running_tasks@[i]).id@ == task_id@,
            !r ==> final(self).task_queue@ == old(self).task_queue@ && final(self).running_tasks@
                == old(self).running_tasks@ && final(self).completed_tasks@ == old(self).completed_tasks@,
            r ==> exists|i: int|
                {
                    let t = #[trigger] old(self).running_tasks@[i];
                    &&& 0 <= i < old(self).running_tasks@.len()
                    &&& t.id@ == task_id@
                    &&& (forall|j: int|
                        0 <= j < i ==> (#[trigger] old(self).running_tasks@[j]).id@ != task_id@)
                    &&& final(self).running_tasks@ == old(self).running_tasks@.remove(i)
                    &&& if outcome.success {
                        final(self).completed_tasks@ == old(self).completed_tasks@.push(
                            Task {
                                status: TaskStatus::Completed,
                                result: Some(outcome),
                                ..t
                            },
                        ) && final(self).task_queue@ == old(self).task_queue@
                    } else if t.retry_count < t.max_retries {
                        final(self).task_queue@ == old(self).task_queue@.push(
                            Task {
                                status: TaskStatus::Retrying,
                                result: Some(outcome),
                                retry_count: (t.retry_count + 1) as u32,
                                scheduled_time: (now + old(self).default_retry_delay_seconds) as u64,
                                ..t
                            },
                        ) && final(self).completed_tasks@ == old(self).completed_tasks@
                    } else {
                        final(self).completed_tasks@ == old(self).completed_tasks@.push(
                            Task {
                                status: TaskStatus::Failed,
                                result: Some(outcome),
                                ..t
                            },
                        ) && final(self).task_queue@ == old(self).task_queue@
                    }
                },
            final(self).registered_executors@ == old(self).registered_executors@,
            final(self).max_concurrent_tasks == old(self).max_concurrent_tasks,
            final(self).default_retry_delay_seconds == old(self).default_retry_delay_seconds,
    {
        let n: usize = self.running_tasks.len();
        let mut i: usize = 0;
        while i < n
            invariant
                i <= n,
                old(self).wf(),
                now + old(self).default_retry_delay_seconds <= u64::MAX,
                n == old(self).running_tasks@.len(),
                self.running_tasks@ == old(self).running_tasks@,
                self.task_queue@ == old(self).task_queue@,
                self.completed_tasks@ == old(self).completed_tasks@,
                self.registered_executors@ == old(self).registered_executors@,
                self.max_concurrent_tasks == old(self).max_concurrent_tasks,
                self.default_retry_delay_seconds == old(self).default_retry_delay_seconds,
                forall|j: int|
                    0 <= j < i ==> (#[trigger] old(self).running_tasks@[j]).id@ != task_id@,
            decreases n - i,
        {
            if str_eq(self.running_tasks[i].id.as_str(), task_id) {
                let ghost orig = old(self).running_tasks@[i as int];
                let mut task = self.running_tasks.remove(i);
                if outcome.success {
                    task.status = TaskStatus::Completed;
                    task.result = Some(outcome);
                    self.completed_tasks.push(task);
                } else if task.retry_count < task.max_retries {
                    task.retry_count = task.retry_count + 1;
                    task.status = TaskStatus::Retrying;
                    task.scheduled_time = now + self.default_retry_delay_seconds;
                    task.result = Some(outcome);
                    self.task_queue.push(task);
                } else {
                    task.status = TaskStatus::Failed;
                    task.result = Some(outcome);
                    self.completed_tasks.push(task);
                }
                proof {
                    assert(orig.id@ == task_id@);
                    assert forall|q: int| 0 <= q < self.running_tasks@.len() implies {
                        let u = #[trigger] self.running_tasks@[q];
                        u.status is Running && u.retry_count <= u.max_retries
                    } by {
                        if q < i {
                            assert(self.running_tasks@[q] == old(self).running_tasks@[q]);
                        } else {
                            assert(self.running_tasks@[q] == old(self).running_tasks@[q + 1]);
                        }
                    }
                }
                return true;
            }
            i = i + 1;
        }
        false
    }

    /// Watchdog scan: force-fail every running task that has been out for
    /// more than twice its timeout, moving it to the completed log.
    pub fn check_running_tasks(&mut self, now: u64)
        requires
            old(self).wf(),
        ensures
            final(self).wf(),
            final(self).running_tasks@ == spec_not_stuck(old(self).running_tasks@, now as int),
            final(self).completed_tasks@.len() >= old(self).completed_tasks@.len(),
            final(self).completed_tasks@.subrange(0, old(self).completed_tasks@.len() as int)
                == old(self).completed_tasks@,
            spec_stuck_moved(
                old(self).running_tasks@,
                final(self).completed_tasks@.subrange(
                    old(self).completed_tasks@.len() as int,
                    final(self).completed_tasks@.len() as int,
                ),
                now as int,
            ),
            final(self).task_queue@ == old(self).task_queue@,
            final(self).registered_executors@ == old(self).registered_executors@,
            final(self).max_concurrent_tasks == old(self).max_concurrent_tasks,
            final(self).default_retry_delay_seconds == old(self).default_retry_delay_seconds,
    {
        let mut input: Vec<Task> = Vec::new();
        core::mem::swap(&mut input, &mut self.running_tasks);
        let n: usize = input.len();
        let mut keep: Vec<Task> = Vec::new();
        let mut i: usize = 0;
        while i < n
            invariant
                i <= n,
                old(self).wf(),
                n == old(self).running_tasks@.len(),
                input@ == old(self).running_tasks@.subrange(i as int, n as int),
                keep@ == spec_not_stuck(old(self).running_tasks@.subrange(0, i as int), now as int),
                self.completed_tasks@.len() >= old(self).completed_tasks@.len(),
                self.completed_tasks@.subrange(0, old(self).completed_tasks@.len() as int) == old(self).completed_tasks@,
                spec_stuck_moved(
                    old(self).running_tasks@.subrange(0, i as int),
                    self.completed_tasks@.subrange(
                        old(self).completed_tasks@.len() as int,
                        self.completed_tasks@.len() as int,
                    ),
                    now as int,
                ),
                forall|q: int|
                    0 <= q < keep@.len() ==> {
                        let t = #[trigger] keep@[q];
                        t.status is Running && t.retry_count <= t.max_retries
                    },
                self.task_queue@ == old(self).task_queue@,
                self.registered_executors@ == old(self).registered_executors@,
                self.max_concurrent_tasks == old(self).max_concurrent_tasks,
                self.default_retry_delay_seconds == old(self).default_retry_delay_seconds,
            decreases n - i,
        {
            let ghost completed_prefix = self.completed_tasks@;
            let ghost appended_before = self.completed_tasks@.subrange(
                old(self).completed_tasks@.len() as int,
                self.completed_tasks@.len() as int,
            );
            let mut t = input.remove(0);
            proof {
                assert(t == old(self).running_tasks@[i as int]);
                assert(input@ =~= old(self).running_tasks@.subrange(i + 1, n as int));
            }
            let stuck: bool = now > t.scheduled_time && ((now - t.scheduled_time) as u128 > 2
                * (t.timeout_seconds as u128));
            if stuck {
                let timeout = t.timeout_seconds;
                t.status = TaskStatus::Failed;
                t.result = Some(
                    TaskResult {
                        success: false,
                        message: "task cancelled due to timeout".to_owned(),
                        data: None,
                        execution_time_seconds: timeout,
                    },
                );
                self.completed_tasks.push(t);
            } else {
                keep.push(t);
            }
            i = i + 1;
            proof {
                let s = old(self).running_tasks@.subrange(0, i as int);
                assert(s.drop_last() =~= old(self).running_tasks@.subrange(0, i - 1));
                assert(s.last() == old(self).running_tasks@[i - 1]);
                if spec_stuck(s.last(), now as int) {
                    let appended = self.completed_tasks@.subrange(
                        old(self).completed_tasks@.len() as int,
                        self.completed_tasks@.len() as int,
                    );
                    assert(appended.drop_last() =~= appended_before);
                    assert(self.completed_tasks@.subrange(
                        0,
                        old(self).completed_tasks@.len() as int,
                    ) =~= completed_prefix.subrange(0, old(self).completed_tasks@.len() as int));
                }
            }
        }
        proof {
            assert(old(self).running_tasks@.subrange(0, n as int) =~= old(self).running_tasks@);
        }
        self.running_tasks = keep;
    }

    /// Prune the completed log to the most recent 1000 entries and to a
    /// 24-hour window.
    pub fn cleanup_completed_tasks(&mut self, now: u64)
        ensures
            final(self).completed_tasks@ == spec_recent_tasks(
                spec_last_n(old(self).completed_tasks@, 1000),
                now - 86400,
            ),
            final(self).task_queue@ == old(self).task_queue@,
            final(self).running_tasks@ == old(self).running_tasks@,
            final(self).registered_executors@ == old(self).registered_executors@,
            final(self).max_concurrent_tasks == old(self).max_concurrent_tasks,
            final(self).default_retry_delay_seconds == old(self).default_retry_delay_seconds,
            final(self).wf() == old(self).wf(),
    {
        let mut input: Vec<Task> = Vec::new();
        core::mem::swap(&mut input, &mut self.completed_tasks);
        let len: usize = input.len();
        let start: usize = if len > 1000 {
            len - 1000
        } else {
            0
        };
        let cutoff_known: bool = now >= 86400;
        let cutoff: u64 = if cutoff_known {
            now - 86400
        } else {
            0
        };
        let ghost input0 = input@;
        let mut dropped: usize = 0;
        while dropped < start
            invariant
                dropped <= start <= len,
                len == input0.len(),
                input@ == input0.subrange(dropped as int, len as int),
            decreases start - dropped,
        {
            input.remove(0);
            dropped = dropped + 1;
            proof {
                assert(input@ =~= input0.subrange(dropped as int, len as int));
            }
        }
        let mut kept: Vec<Task> = Vec::new();
        let mut i: usize = start;
        while i < len
            invariant
                start <= i <= len,
                len == input0.len(),
                start == if len > 1000 {
                    len - 1000
                } else {
                    0
                },
                input@ == input0.subrange(i as int, len as int),
                cutoff_known ==> cutoff == now - 86400,
                !cutoff_known ==> now < 86400,
                kept@ == spec_recent_tasks(input0.subrange(start as int, i as int), now - 86400),
            decreases len - i,
        {
            proof {
                assert(input@.len() == len - i);
            }
            let t = input.remove(0);
            proof {
                assert(t == input0[i as int]);
                assert(input@ =~= input0.subrange(i + 1, len as int));
            }
            let keep: bool = if cutoff_known {
                t.scheduled_time > cutoff
            } else {
                true
            };
            if keep {
                kept.push(t);
            }
            i = i + 1;
            proof {
                let s = input0.subrange(start as int, i as int);
                assert(s.drop_last() =~= input0.subrange(start as int, i - 1));
                assert(s.last() == input0[i - 1]);
            }
        }
        proof {
            assert(input0.subrange(start as int, len as int) =~= spec_last_n(input0, 1000));
        }
        self.completed_tasks = kept;
    }

    /// Counts of the three task pools, and the scheduled time of the task
    /// that would dequeue first.
    pub fn get_status(&self) -> (r: SchedulerStatus)
        ensures
            r.pending_tasks == self.task_queue@.len(),
            r.running_tasks == self.running_tasks@.len(),
            r.completed_tasks == self.completed_tasks@.len(),
            r.next_task_time is Some <==> self.task_queue@.len() > 0,
            r.next_task_time matches Some(tm) ==> exists|i: int|
                {
                    &&& 0 <= i < self.task_queue@.len()
                    &&& (#[trigger] self.task_queue@[i]).scheduled_time == tm
                    &&& forall|j: int|
                        0 <= j < self.task_queue@.len() ==> spec_dequeues_first(
                            self.task_queue@[i],
                            #[trigger] self.task_queue@[j],
                        )
                },
    {
        let n: usize = self.task_queue.len();
        let mut best: usize = 0;
        let mut found: bool = false;
        let mut i: usize = 0;
        while i < n
            invariant
                i <= n,
                n == self.task_queue@.len(),
                found == (i > 0),
                found ==> best < i,
                found ==> forall|j: int|
                    0 <= j < i ==> spec_dequeues_first(
                        self.task_queue@[best as int],
                        #[trigger] self.task_queue@[j],
                    ),
            decreases n - i,
        {
            if !found {
                best = i;
                found = true;
            } else {
                let better = self.task_queue[i].priority > self.task_queue[best].priority || (
                self.task_queue[i].priority == self.task_queue[best].priority
                    && self.task_queue[i].scheduled_time < self.task_queue[best].scheduled_time);
                if better {
                    best = i;
                }
            }
            i = i + 1;
        }
        SchedulerStatus {
            pending_tasks: self.task_queue.len(),
            running_tasks: self.running_tasks.len(),
            completed_tasks: self.completed_tasks.len(),
            next_task_time: if found {
                Some(self.task_queue[best].scheduled_time)
            } else {
                None
            },
        }
    }

    /// Administrative cancellation: every queued task with the id leaves the
    /// queue; a running task with the id is marked Cancelled and moved to
    /// the completed log, without interrupting the underlying work.
    pub fn cancel_task(&mut self, task_id: &str) -> (r: Result<(), String>)
        requires
            old(self).wf(),
        ensures
            final(self).wf(),
            r is Ok,
            final(self).task_queue@ == spec_without_id(old(self).task_queue@, task_id@),
            (exists|i: int|
                0 <= i < old(self).running_tasks@.len() && (#[trigger] old(self).running_tasks@[i]).id@ == task_id@) ==> exists|i: int|
                {
                    let t = #[trigger] old(self).running_tasks@[i];
                    &&& 0 <= i < old(self).running_tasks@.len()
                    &&& t.id@ == task_id@
                    &&& (forall|j: int|
                        0 <= j < i ==> (#[trigger] old(self).running_tasks@[j]).id@ != task_id@)
                    &&& final(self).running_tasks@ == old(self).running_tasks@.remove(i)
                    &&& final(self).completed_tasks@ == old(self).completed_tasks@.push(
                        Task { status: TaskStatus::Cancelled, ..t },
                    )
                },
            (forall|i: int|
                0 <= i < old(self).running_tasks@.len() ==> (#[trigger] old(self).running_tasks@[i]).id@ != task_id@) ==> final(self).running_tasks@ == old(self).running_tasks@ && final(self).completed_tasks@ == old(self).completed_tasks@,
            final(self).registered_executors@ == old(self).registered_executors@,
            final(self).max_concurrent_tasks == old(self).max_concurrent_tasks,
            final(self).default_retry_delay_seconds == old(self).default_retry_delay_seconds,
    {
        let mut input: Vec<Task> = Vec::new();
        core::mem::swap(&mut input, &mut self.task_queue);
        let n: usize = input.len();
        let mut kept: Vec<Task> = Vec::new();
        let mut i: usize = 0;
        while i < n
            invariant
                i <= n,
                old(self).wf(),
                n == old(self).task_queue@.len(),
                input@ == old(self).task_queue@.subrange(i as int, n as int),
                kept@ == spec_without_id(old(self).task_queue@.subrange(0, i as int), task_id@),
                forall|q: int|
                    0 <= q < kept@.len() ==> {
                        let t = #[trigger] kept@[q];
                        (t.status is Pending || t.status is Retrying) && t.retry_count
                            <= t.max_retries
                    },
                self.running_tasks@ == old(self).running_tasks@,
                self.completed_tasks@ == old(self).completed_tasks@,
                self.registered_executors@ == old(self).registered_executors@,
                self.max_concurrent_tasks == old(self).max_concurrent_tasks,
                self.default_retry_delay_seconds == old(self).default_retry_delay_seconds,
            decreases n - i,
        {
            let t = input.remove(0);
            proof {
                assert(t == old(self).task_queue@[i as int]);
                assert(input@ =~= old(self).task_queue@.subrange(i + 1, n as int));
            }
            if !str_eq(t.id.as_str(), task_id) {
                kept.push(t);
            }
            i = i + 1;
            proof {
                let s = old(self).task_queue@.subrange(0, i as int);
                assert(s.drop_last() =~= old(self).task_queue@.subrange(0, i - 1));
                assert(s.last() == old(self).task_queue@[i - 1]);
            }
        }
        proof {
            assert(old(self).task_queue@.subrange(0, n as int) =~= old(self).task_queue@);
        }
        self.task_queue = kept;
        let ghost queue_after = self.task_queue@;
        let m: usize = self.running_tasks.len();
        let mut j: usize = 0;
        while j < m
            invariant
                j <= m,
                old(self).wf(),
                m == old(self).running_tasks@.len(),
                self.running_tasks@ == old(self).running_tasks@,
                self.completed_tasks@ == old(self).completed_tasks@,
                self.task_queue@ == queue_after,
                queue_after == spec_without_id(old(self).task_queue@, task_id@),
                forall|q: int|
                    0 <= q < queue_after.len() ==> {
                        let t = #[trigger] queue_after[q];
                        (t.status is Pending || t.status is Retrying) && t.retry_count
                            <= t.max_retries
                    },
                self.registered_executors@ == old(self).registered_executors@,
                self.max_concurrent_tasks == old(self).max_concurrent_tasks,
                self.default_retry_delay_seconds == old(self).default_retry_delay_seconds,
                forall|q: int|
                    0 <= q < j ==> (#[trigger] old(self).running_tasks@[q]).id@ != task_id@,
            decreases m - j,
        {
            if str_eq(self.running_tasks[j].id.as_str(), task_id) {
                let ghost orig = old(self).running_tasks@[j as int];
                let mut t = self.running_tasks.remove(j);
                t.status = TaskStatus::Cancelled;
                self.completed_tasks.push(t);
                proof {
                    assert(orig.id@ == task_id@);
                    assert forall|q: int| 0 <= q < self.running_tasks@.len() implies {
                        let u = #[trigger] self.running_tasks@[q];
                        u.status is Running && u.retry_count <= u.max_retries
                    } by {
                        if q < j {
                            assert(self.running_tasks@[q] == old(self).running_tasks@[q]);
                        } else {
                            assert(self.running_tasks@[q] == old(self).running_tasks@[q + 1]);
                        }
                    }
                }
                return Ok(());
            }
            j = j + 1;
        }
        Ok(())
    }
}

/// The base task copied for one recurring instance.
fn instantiate_recurring(base: &Task, k: usize, interval_seconds: u64, count: usize) -> (t: Task)
    requires
        k < count,
        base.scheduled_time + count * interval_seconds <= u64::MAX,
        base.result is None,
    ensures
        spec_recurring_instance(*base, k as int, interval_seconds as int, t),
        t.retry_count == base.retry_count,
        t.max_retries == base.max_retries,
        t.dependencies@ == base.dependencies@,
{
    let mut id = base.id.clone();
    push_char(&mut id, '-');
    push_dec(&mut id, k as u64);
    proof {
        reveal_strlit("-");
        assert(id@ =~= base.id@ + "-"@ + spec_dec_str(k as nat));
        assert((k as u64) as nat == k as nat);
        mul_le_mono(k as int, count as int, interval_seconds as int);
    }
    Task {
        id,
        name: base.name.clone(),
        task_type: base.task_type.clone(),
        priority: base.priority,
        scheduled_time: base.scheduled_time + (k as u64) * interval_seconds,
        dependencies: duplicate_strings(&base.dependencies),
        max_retries: base.max_retries,
        retry_count: base.retry_count,
        timeout_seconds: base.timeout_seconds,
        status: TaskStatus::Pending,
        result: None,
    }
}

proof fn mul_le_mono(a: int, b: int, c: int)
    requires
        0 <= a <= b,
        0 <= c,
    ensures
        a * c <= b * c,
{
    assert(a * c <= b * c) by (nonlinear_arith)
        requires
            0 <= a <= b,
            0 <= c,
    ;
}

fn duplicate_strings(v: &Vec<String>) -> (r: Vec<String>)
    ensures
        r@ == v@,
{
    let mut out: Vec<String> = Vec::new();
    let n: usize = v.len();
    let mut i: usize = 0;
    while i < n
        invariant
            i <= n,
            n == v@.len(),
            out@ == v@.subrange(0, i as int),
        decreases n - i,
    {
        out.push(v[i].clone());
        i = i + 1;
        proof {
            assert(out@ =~= v@.subrange(0, i as int));
        }
    }
    proof {
        assert(v@.subrange(0, n as int) =~= v@);
    }
    out
}

} // verus!
