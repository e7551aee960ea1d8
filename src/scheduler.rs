//! The in-memory task registry: tasks, registered executors, run instances
//! and their logs, with every operation of the scheduler on them.
//!
//! The executor itself is called by the caller between `start_run` and
//! `finish_run`, so that no state is held while it works.

use vstd::prelude::*;

use crate::cron::{next_run_at, cron_valid, next_fire_after, validate_cron};
use crate::error::SchedulerError;
use crate::keyed::{keyed, lemma_keyed_absent, lemma_keyed_dom, lemma_keyed_index, lemma_keyed_push, lemma_keyed_remove, lemma_keyed_update, lemma_filter_step, lemma_filter_unique, unique_keys};
use crate::runtime::{new_id, now_millis};
use crate::store::{sort_logs_by_time, sorted_by_time, sorted_logs};
use crate::types::{lemma_runs_by_start_same, runs_by_start, BRIEFING_WINDOW, LogLevel, RunInstanceSummary, TaskBriefing, ScheduledTask, TaskExecutionResult, TaskId, TaskLog, TaskRunInstance, TaskStatus, TaskUpdateRequest, Timestamp};

verus! {

pub open spec fn task_key() -> spec_fn(ScheduledTask) -> TaskId {
    |t: ScheduledTask| t.id
}

pub open spec fn instance_key() -> spec_fn(TaskRunInstance) -> TaskId {
    |i: TaskRunInstance| i.id
}

/// `task` with the status a pause gives it.
pub open spec fn paused(task: ScheduledTask) -> ScheduledTask {
    ScheduledTask { status: TaskStatus::Paused, enabled: false, ..task }
}

/// `task` with the status a resume gives it: a paused task becomes pending,
/// any other keeps its status; it is enabled in both cases.
pub open spec fn resumed(task: ScheduledTask) -> ScheduledTask {
    ScheduledTask {
        status: if task.status is Paused { TaskStatus::Pending } else { task.status },
        enabled: true,
        ..task
    }
}

/// `task` after `req` is applied at time `now`.
pub open spec fn updated(task: ScheduledTask, req: TaskUpdateRequest, now: Timestamp) -> ScheduledTask {
    let t1 = match req.title { Some(x) => ScheduledTask { title: x, ..task }, None => task };
    let t2 = match req.description { Some(x) => ScheduledTask { description: Some(x), ..t1 }, None => t1 };
    let t3 = match req.content { Some(x) => ScheduledTask { content: Some(x), ..t2 }, None => t2 };
    let t4 = match req.cron_expression {
        Some(x) => ScheduledTask { cron_expression: x, next_run: next_run_at(x@, now), ..t3 },
        None => t3,
    };
    match req.enabled {
        Some(true) => ScheduledTask {
            enabled: true,
            status: if t4.status is Paused { TaskStatus::Pending } else { t4.status },
            ..t4
        },
        Some(false) => ScheduledTask { enabled: false, status: TaskStatus::Paused, ..t4 },
        None => t4,
    }
}

/// The status that the outcome of an executor call gives the instance and the task.
pub open spec fn outcome_status(outcome: Result<TaskExecutionResult, String>) -> TaskStatus {
    match outcome {
        Ok(r) => if r.success { TaskStatus::Completed } else { TaskStatus::Failed },
        Err(_) => TaskStatus::Error,
    }
}

/// `task` after a run of it ended with `outcome` at `now`: its status follows
/// the outcome, a success counts one more run, and the next run is recomputed.
pub open spec fn finished(task: ScheduledTask, outcome: Result<TaskExecutionResult, String>, now: Timestamp) -> ScheduledTask {
    ScheduledTask {
        status: outcome_status(outcome),
        run_count: if outcome_status(outcome) is Completed && task.run_count < u64::MAX {
            (task.run_count + 1) as u64
        } else {
            task.run_count
        },
        next_run: next_run_at(task.cron_expression@, now),
        ..task
    }
}

/// The message recorded on an instance that the user stopped.
pub open spec fn stop_message() -> Seq<char> {
    "Task stopped by user"@
}

/// The registry of tasks and of their executions. Records are kept in
/// vectors with unique ids, seen as maps by id: listings then follow the
/// order of registration, which a hash map's walk would not fix.
pub struct CronTaskScheduler {
    tasks: Vec<ScheduledTask>,
    executors: Vec<TaskId>,
    run_instances: Vec<TaskRunInstance>,
    logs: Vec<TaskLog>,
    running: bool,
}

impl CronTaskScheduler {
    /// The tasks, by id.
    pub closed spec fn tasks(&self) -> Map<TaskId, ScheduledTask> {
        keyed(self.tasks@, task_key())
    }

    /// The tasks in their order of registration.
    pub closed spec fn task_list(&self) -> Seq<ScheduledTask> {
        self.tasks@
    }

    /// The ids of the tasks that have an executor registered.
    pub closed spec fn executors(&self) -> Seq<TaskId> {
        self.executors@
    }

    /// The run instances, by id.
    pub closed spec fn instances(&self) -> Map<TaskId, TaskRunInstance> {
        keyed(self.run_instances@, instance_key())
    }

    /// The run instances in their order of creation.
    pub closed spec fn instance_list(&self) -> Seq<TaskRunInstance> {
        self.run_instances@
    }

    /// All log lines, in the order they were appended.
    pub closed spec fn logs(&self) -> Seq<TaskLog> {
        self.logs@
    }

    /// Whether the trigger engine is started.
    pub closed spec fn running(&self) -> bool {
        self.running
    }

    pub closed spec fn wf(&self) -> bool {
        &&& unique_keys(self.tasks@, task_key())
        &&& unique_keys(self.run_instances@, instance_key())
        &&& forall|i: int| 0 <= i < self.run_instances@.len() ==> (#[trigger] self.run_instances@[i]).wf()
    }

    /// The list views and the map views agree.
    pub proof fn lemma_views(&self)
        requires
            self.wf(),
        ensures
            unique_keys(self.task_list(), task_key()),
            keyed(self.task_list(), task_key()) == self.tasks(),
            unique_keys(self.instance_list(), instance_key()),
            keyed(self.instance_list(), instance_key()) == self.instances(),
            forall|id: TaskId| #[trigger] self.instances().contains_key(id) ==> self.instances()[id].wf(),
    {
        assert forall|id: TaskId| #[trigger] self.instances().contains_key(id) implies self.instances()[id].wf() by {
            lemma_keyed_dom(self.run_instances@, instance_key(), id);
            let i = choose|i: int| 0 <= i < self.run_instances@.len() && instance_key()(self.run_instances@[i]) == id;
            lemma_keyed_index(self.run_instances@, instance_key(), i);
        }
    }

    /// An empty registry with the trigger engine stopped.
    pub fn new() -> (r: Self)
        ensures
            r.wf(),
            r.tasks() == Map::<TaskId, ScheduledTask>::empty(),
            r.executors() == Seq::<TaskId>::empty(),
            r.instances() == Map::<TaskId, TaskRunInstance>::empty(),
            r.logs() == Seq::<TaskLog>::empty(),
            !r.running(),
    {
        CronTaskScheduler {
            tasks: Vec::new(),
            executors: Vec::new(),
            run_instances: Vec::new(),
            logs: Vec::new(),
            running: false,
        }
    }

    fn find_task(&self, id: TaskId) -> (r: Option<usize>)
        requires
            self.wf(),
        ensures
            r matches Some(i) ==> i < self.tasks@.len() && self.tasks@[i as int].id == id
                && self.tasks().contains_key(id) && self.tasks()[id] == self.tasks@[i as int],
            r is None ==> !self.tasks().contains_key(id),
    {
        let mut i: usize = 0;
        while i < self.tasks.len()
            invariant
                self.wf(),
                i <= self.tasks@.len(),
                forall|k: int| 0 <= k < i ==> (#[trigger] self.tasks@[k]).id != id,
            decreases self.tasks@.len() - i,
        {
            if self.tasks[i].id == id {
                proof {
                    lemma_keyed_index(self.tasks@, task_key(), i as int);
                }
                return Some(i);
            }
            i = i + 1;
        }
        proof {
            lemma_keyed_absent(self.tasks@, task_key(), id);
        }
        None
    }

    fn find_instance(&self, id: TaskId) -> (r: Option<usize>)
        requires
            self.wf(),
        ensures
            r matches Some(i) ==> i < self.run_instances@.len() && self.run_instances@[i as int].id == id
                && self.instances().contains_key(id) && self.instances()[id] == self.run_instances@[i as int],
            r is None ==> !self.instances().contains_key(id),
    {
        let mut i: usize = 0;
        while i < self.run_instances.len()
            invariant
                self.wf(),
                i <= self.run_instances@.len(),
                forall|k: int| 0 <= k < i ==> (#[trigger] self.run_instances@[k]).id != id,
            decreases self.run_instances@.len() - i,
        {
            if self.run_instances[i].id == id {
                proof {
                    lemma_keyed_index(self.run_instances@, instance_key(), i as int);
                }
                return Some(i);
            }
            i = i + 1;
        }
        proof {
            lemma_keyed_absent(self.run_instances@, instance_key(), id);
        }
        None
    }

    /// Whether an executor is registered for the task.
    pub fn has_executor(&self, task_id: TaskId) -> (r: bool)
        ensures
            r == self.executors().contains(task_id),
    {
        let mut i: usize = 0;
        while i < self.executors.len()
            invariant
                i <= self.executors@.len(),
                forall|k: int| 0 <= k < i ==> self.executors@[k] != task_id,
            decreases self.executors@.len() - i,
        {
            if self.executors[i] == task_id {
                return true;
            }
            i = i + 1;
        }
        false
    }

    /// Checks a cron expression the way `add` and `update` do.
    pub fn validate_cron(&self, cron_expression: &str) -> (r: Result<(), SchedulerError>)
        ensures
            r is Ok <==> cron_valid(cron_expression@),
            r matches Err(e) ==> e matches SchedulerError::InvalidCronExpression(m) && m@ == cron_expression@,
    {
        validate_cron(cron_expression)
    }

    /// Puts `task` into the registry, in place of any task with its id.
    fn put_task(&mut self, task: ScheduledTask)
        requires
            old(self).wf(),
        ensures
            final(self).wf(),
            final(self).tasks() == old(self).tasks().insert(task.id, task),
            final(self).executors() == old(self).executors(),
            final(self).instances() == old(self).instances(),
            final(self).instance_list() == old(self).instance_list(),
            final(self).logs() == old(self).logs(),
            final(self).running() == old(self).running(),
    {
        match self.find_task(task.id) {
            Some(i) => {
                proof {
                    lemma_keyed_update(self.tasks@, task_key(), i as int, task);
                }
                self.tasks.set(i, task);
            },
            None => {
                proof {
                    lemma_keyed_push(self.tasks@, task_key(), task);
                }
                self.tasks.push(task);
            },
        }
    }

    /// Marks the task as having an executor.
    pub fn register_executor(&mut self, task_id: TaskId)
        requires
            old(self).wf(),
        ensures
            final(self).wf(),
            final(self).executors().contains(task_id),
            forall|x: TaskId| old(self).executors().contains(x) ==> final(self).executors().contains(x),
            forall|x: TaskId| final(self).executors().contains(x) ==> x == task_id || old(self).executors().contains(x),
            final(self).tasks() == old(self).tasks(),
            final(self).task_list() == old(self).task_list(),
            final(self).instances() == old(self).instances(),
            final(self).instance_list() == old(self).instance_list(),
            final(self).logs() == old(self).logs(),
            final(self).running() == old(self).running(),
    {
        if !self.has_executor(task_id) {
            self.executors.push(task_id);
            proof {
                assert(self.executors@.last() == task_id);
                assert forall|x: TaskId| old(self).executors().contains(x) implies self.executors@.contains(x) by {
                    let k = choose|k: int| 0 <= k < old(self).executors@.len() && old(self).executors@[k] == x;
                    assert(self.executors@[k] == x);
                }
                assert forall|x: TaskId| self.executors@.contains(x) implies x == task_id || old(self).executors().contains(x) by {
                    let k = choose|k: int| 0 <= k < self.executors@.len() && self.executors@[k] == x;
                    if k < old(self).executors@.len() {
                        assert(old(self).executors@[k] == x);
                    }
                }
            }
        }
    }

    /// Registers a new task with a given id, at time `now`: the cron expression
    /// is checked first, and a rejected expression changes nothing.
    pub fn register_task(
        &mut self,
        id: TaskId,
        now: Timestamp,
        title: String,
        name: String,
        description: Option<String>,
        content: Option<String>,
        cron_expression: String,
        is_system: bool,
    ) -> (r: Result<ScheduledTask, SchedulerError>)
        requires
            old(self).wf(),
        ensures
            final(self).wf(),
            r is Ok <==> cron_valid(cron_expression@),
            r is Err ==> *final(self) == *old(self),
            r matches Err(e) ==> (e matches SchedulerError::InvalidCronExpression(m) && m@ == cron_expression@),
            r matches Ok(t) ==> {
                &&& t.id == id
                &&& t.title == title
                &&& t.name == name
                &&& t.description == description
                &&& t.content == content
                &&& t.cron_expression == cron_expression
                &&& t.status == TaskStatus::Pending
                &&& t.created_at == now
                &&& t.last_run is None
                &&& t.next_run == next_run_at(cron_expression@, now)
                &&& (t.next_run matches Some(n) ==> n > now)
                &&& t.run_count == 0
                &&& t.enabled
                &&& t.is_system == is_system
                &&& final(self).tasks() == old(self).tasks().insert(id, t)
                &&& final(self).executors().contains(id)
                &&& forall|x: TaskId| old(self).executors().contains(x) ==> final(self).executors().contains(x)
                &&& forall|x: TaskId| final(self).executors().contains(x) ==> x == id || old(self).executors().contains(x)
                &&& final(self).instances() == old(self).instances()
                &&& final(self).instance_list() == old(self).instance_list()
                &&& final(self).logs() == old(self).logs()
                &&& final(self).running() == old(self).running()
            },
    {
        match validate_cron(cron_expression.as_str()) {
            Err(e) => { return Err(e); },
            Ok(()) => {},
        }
        let next_run = next_fire_after(cron_expression.as_str(), now);
        let mut task = if is_system {
            ScheduledTask::new_system(id, title, name, cron_expression, description, content, now)
        } else {
            ScheduledTask::new(id, title, name, cron_expression, description, content, now)
        };
        task.next_run = next_run;
        let out = task.clone();
        self.register_executor(id);
        self.put_task(task);
        Ok(out)
    }

    /// Adds a task under a fresh id, created now.
    pub fn add_task_with_system(
        &mut self,
        title: String,
        name: String,
        description: Option<String>,
        content: Option<String>,
        cron_expression: String,
        is_system: bool,
    ) -> (r: Result<ScheduledTask, SchedulerError>)
        requires
            old(self).wf(),
        ensures
            final(self).wf(),
            r is Ok <==> cron_valid(cron_expression@),
            r is Err ==> *final(self) == *old(self),
            r matches Err(e) ==> (e matches SchedulerError::InvalidCronExpression(m) && m@ == cron_expression@),
            r matches Ok(t) ==> {
                &&& t.title == title
                &&& t.name == name
                &&& t.description == description
                &&& t.content == content
                &&& t.cron_expression == cron_expression
                &&& t.status == TaskStatus::Pending
                &&& t.last_run is None
                &&& t.next_run == next_run_at(cron_expression@, t.created_at)
                &&& (t.next_run matches Some(n) ==> n > t.created_at)
                &&& t.run_count == 0
                &&& t.enabled
                &&& t.is_system == is_system
                &&& final(self).tasks() == old(self).tasks().insert(t.id, t)
                &&& final(self).executors().contains(t.id)
                &&& final(self).instances() == old(self).instances()
                &&& final(self).logs() == old(self).logs()
            },
    {
        let id = new_id();
        let now = now_millis();
        self.register_task(id, now, title, name, description, content, cron_expression, is_system)
    }

    /// Adds a task with a description and content, under a fresh id.
    pub fn add_task_full(
        &mut self,
        title: String,
        name: String,
        description: Option<String>,
        content: Option<String>,
        cron_expression: String,
    ) -> (r: Result<ScheduledTask, SchedulerError>)
        requires
            old(self).wf(),
        ensures
            final(self).wf(),
            r is Ok <==> cron_valid(cron_expression@),
            r is Err ==> *final(self) == *old(self),
            r matches Err(e) ==> (e matches SchedulerError::InvalidCronExpression(m) && m@ == cron_expression@),
            r matches Ok(t) ==> {
                &&& t.title == title
                &&& t.name == name
                &&& t.description == description
                &&& t.content == content
                &&& t.cron_expression == cron_expression
                &&& t.status == TaskStatus::Pending
                &&& t.last_run is None
                &&& t.next_run == next_run_at(cron_expression@, t.created_at)
                &&& (t.next_run matches Some(n) ==> n > t.created_at)
                &&& t.run_count == 0
                &&& t.enabled
                &&& !t.is_system
                &&& final(self).tasks() == old(self).tasks().insert(t.id, t)
                &&& final(self).executors().contains(t.id)
                &&& final(self).instances() == old(self).instances()
                &&& final(self).logs() == old(self).logs()
            },
    {
        self.add_task_with_system(title, name, description, content, cron_expression, false)
    }

    /// Adds a task with only a title, a name and a schedule, under a fresh id.
    pub fn add_task(&mut self, title: String, name: String, cron_expression: String) -> (r: Result<ScheduledTask, SchedulerError>)
        requires
            old(self).wf(),
        ensures
            final(self).wf(),
            r is Ok <==> cron_valid(cron_expression@),
            r is Err ==> *final(self) == *old(self),
            r matches Err(e) ==> (e matches SchedulerError::InvalidCronExpression(m) && m@ == cron_expression@),
            r matches Ok(t) ==> {
                &&& t.title == title
                &&& t.name == name
                &&& t.description is None
                &&& t.content is None
                &&& t.cron_expression == cron_expression
                &&& t.status == TaskStatus::Pending
                &&& t.last_run is None
                &&& t.next_run == next_run_at(cron_expression@, t.created_at)
                &&& (t.next_run matches Some(n) ==> n > t.created_at)
                &&& t.run_count == 0
                &&& t.enabled
                &&& !t.is_system
                &&& final(self).tasks() == old(self).tasks().insert(t.id, t)
                &&& final(self).executors().contains(t.id)
                &&& final(self).instances() == old(self).instances()
                &&& final(self).logs() == old(self).logs()
            },
    {
        self.add_task_with_system(title, name, None, None, cron_expression, false)
    }

    /// A task read back from the durable store at `now`: an enabled task
    /// that is not paused gets its next run recomputed; a disabled or paused
    /// one keeps the stored next run.
    pub open spec fn restored(task: ScheduledTask, now: Timestamp) -> ScheduledTask {
        if task.enabled && !(task.status is Paused) {
            ScheduledTask { next_run: next_run_at(task.cron_expression@, now), ..task }
        } else {
            task
        }
    }

    /// Puts back a task read from the durable store; its executor must be
    /// registered again.
    pub fn restore_task(&mut self, task: ScheduledTask, now: Timestamp) -> (r: ScheduledTask)
        requires
            old(self).wf(),
        ensures
            final(self).wf(),
            r == Self::restored(task, now),
            final(self).tasks() == old(self).tasks().insert(task.id, r),
            final(self).executors() == old(self).executors(),
            final(self).instances() == old(self).instances(),
            final(self).logs() == old(self).logs(),
            final(self).running() == old(self).running(),
    {
        let mut task = task;
        if task.enabled && task.status != TaskStatus::Paused {
            task.next_run = next_fire_after(task.cron_expression.as_str(), now);
        }
        let out = task.clone();
        self.put_task(task);
        out
    }

    /// Puts back a run instance read from the durable store, unless it is
    /// not well formed or its id is already in use; returns whether it did.
    pub fn restore_instance(&mut self, inst: TaskRunInstance) -> (r: bool)
        requires
            old(self).wf(),
        ensures
            final(self).wf(),
            r == (inst.wf() && !old(self).instances().contains_key(inst.id)),
            r ==> final(self).instances() == old(self).instances().insert(inst.id, inst),
            !r ==> final(self).instances() == old(self).instances(),
            final(self).tasks() == old(self).tasks(),
            final(self).task_list() == old(self).task_list(),
            final(self).executors() == old(self).executors(),
            final(self).logs() == old(self).logs(),
            final(self).running() == old(self).running(),
    {
        let open = inst.status == TaskStatus::Pending || inst.status == TaskStatus::Running;
        let closed = inst.status == TaskStatus::Completed || inst.status == TaskStatus::Failed
            || inst.status == TaskStatus::Error;
        let well_formed = (open || closed) && (inst.completed_at.is_none() == open)
            && (inst.result.is_none() == inst.completed_at.is_none());
        if !well_formed || self.find_instance(inst.id).is_some() {
            return false;
        }
        proof {
            lemma_keyed_push(self.run_instances@, instance_key(), inst);
        }
        self.run_instances.push(inst);
        proof {
            assert forall|k: int| 0 <= k < self.run_instances@.len() implies (#[trigger] self.run_instances@[k]).wf() by {
                if k < old(self).run_instances@.len() {
                    assert(self.run_instances@[k] == old(self).run_instances@[k]);
                }
            }
        }
        true
    }

    /// The task with this id.
    pub fn get_task(&self, task_id: TaskId) -> (r: Result<ScheduledTask, SchedulerError>)
        requires
            self.wf(),
        ensures
            r is Ok <==> self.tasks().contains_key(task_id),
            r matches Ok(t) ==> t == self.tasks()[task_id] && t.id == task_id,
            r matches Err(e) ==> e == SchedulerError::JobNotFound(task_id),
    {
        match self.find_task(task_id) {
            Some(i) => Ok(self.tasks[i].clone()),
            None => Err(SchedulerError::JobNotFound(task_id)),
        }
    }

    /// Whether a log line belongs to a run instance of the task, among `instances`.
    pub open spec fn log_of_task(instances: Map<TaskId, TaskRunInstance>, task_id: TaskId, l: TaskLog) -> bool {
        instances.contains_key(l.run_instance_id) && instances[l.run_instance_id].task_id == task_id
    }

    /// Removes a task with its executor, its run instances and their log lines.
    pub fn remove_task(&mut self, task_id: TaskId) -> (r: Result<(), SchedulerError>)
        requires
            old(self).wf(),
        ensures
            final(self).wf(),
            r is Ok <==> old(self).tasks().contains_key(task_id),
            r matches Err(e) ==> e == SchedulerError::JobNotFound(task_id) && *final(self) == *old(self),
            r is Ok ==> {
                &&& final(self).tasks() == old(self).tasks().remove(task_id)
                &&& final(self).executors() == old(self).executors().filter(|x: TaskId| x != task_id)
                &&& final(self).instance_list() == old(self).instance_list().filter(
                    |i: TaskRunInstance| i.task_id != task_id)
                &&& final(self).logs() == old(self).logs().filter(
                    |l: TaskLog| !Self::log_of_task(old(self).instances(), task_id, l))
            },
            final(self).running() == old(self).running(),
    {
        let i = match self.find_task(task_id) {
            None => { return Err(SchedulerError::JobNotFound(task_id)); },
            Some(i) => i,
        };
        let ghost old_self = *self;
        // log lines of the task's instances
        let ghost lpred = |l: TaskLog| !Self::log_of_task(old_self.instances(), task_id, l);
        let mut rest: Vec<TaskLog> = Vec::new();
        std::mem::swap(&mut rest, &mut self.logs);
        let ghost all_logs = rest@;
        let total_logs = rest.len();
        let mut k: usize = 0;
        while rest.len() > 0
            invariant
                self.wf(),
                self.tasks@ == old_self.tasks@,
                self.run_instances@ == old_self.run_instances@,
                lpred == (|l: TaskLog| !Self::log_of_task(old_self.instances(), task_id, l)),
                k <= all_logs.len() == total_logs,
                self.executors@ == old_self.executors@,
                self.running == old_self.running,
                rest@ == all_logs.subrange(k as int, all_logs.len() as int),
                self.logs@ == all_logs.subrange(0, k as int).filter(lpred),
            decreases rest@.len(),
        {
            proof {
                lemma_filter_step(all_logs, lpred, k as int);
            }
            let l = rest.remove(0);
            let own = match self.find_instance(l.run_instance_id) {
                Some(j) => self.run_instances[j].task_id == task_id,
                None => false,
            };
            if !own {
                self.logs.push(l);
            }
            k = k + 1;
            proof {
                assert(rest@ =~= all_logs.subrange(k as int, all_logs.len() as int));
            }
        }
        proof {
            assert(all_logs.subrange(0, k as int) =~= all_logs);
        }
        // the task's run instances
        let ghost ipred = |x: TaskRunInstance| x.task_id != task_id;
        let mut rest: Vec<TaskRunInstance> = Vec::new();
        std::mem::swap(&mut rest, &mut self.run_instances);
        let ghost all = rest@;
        let total = rest.len();
        let mut k: usize = 0;
        while rest.len() > 0
            invariant
                ipred == (|x: TaskRunInstance| x.task_id != task_id),
                k <= all.len() == total,
                all == old_self.run_instances@,
                self.executors@ == old_self.executors@,
                self.running == old_self.running,
                rest@ == all.subrange(k as int, all.len() as int),
                self.run_instances@ == all.subrange(0, k as int).filter(ipred),
                self.tasks@ == old_self.tasks@,
                self.logs@ == old_self.logs@.filter(lpred),
            decreases rest@.len(),
        {
            proof {
                lemma_filter_step(all, ipred, k as int);
            }
            let x = rest.remove(0);
            if x.task_id != task_id {
                self.run_instances.push(x);
            }
            k = k + 1;
            proof {
                assert(rest@ =~= all.subrange(k as int, all.len() as int));
            }
        }
        proof {
            assert(all.subrange(0, k as int) =~= all);
            lemma_filter_unique(all, instance_key(), ipred);
            assert forall|a: int| 0 <= a < self.run_instances@.len() implies (#[trigger] self.run_instances@[a]).wf() by {
                assert(all.contains(self.run_instances@[a]));
            }
        }
        // its executor
        let ghost epred = |x: TaskId| x != task_id;
        let mut kept: Vec<TaskId> = Vec::new();
        let mut k: usize = 0;
        while k < self.executors.len()
            invariant
                epred == (|x: TaskId| x != task_id),
                k <= self.executors@.len(),
                self.executors@ == old_self.executors@,
                self.running == old_self.running,
                kept@ == self.executors@.subrange(0, k as int).filter(epred),
            decreases self.executors@.len() - k,
        {
            proof {
                lemma_filter_step(self.executors@, epred, k as int);
            }
            if self.executors[k] != task_id {
                kept.push(self.executors[k]);
            }
            k = k + 1;
        }
        proof {
            assert(self.executors@.subrange(0, k as int) =~= self.executors@);
        }
        self.executors = kept;
        // the task itself
        proof {
            lemma_keyed_remove(self.tasks@, task_key(), i as int);
        }
        self.tasks.remove(i);
        Ok(())
    }

    /// The tasks, in registration order.
    pub fn list_tasks(&self) -> (r: Vec<ScheduledTask>)
        requires
            self.wf(),
        ensures
            r@ == self.task_list(),
            unique_keys(r@, task_key()),
            keyed(r@, task_key()) == self.tasks(),
    {
        let mut r: Vec<ScheduledTask> = Vec::new();
        let mut i: usize = 0;
        while i < self.tasks.len()
            invariant
                i <= self.tasks@.len(),
                r@ == self.tasks@.subrange(0, i as int),
            decreases self.tasks@.len() - i,
        {
            r.push(self.tasks[i].clone());
            i = i + 1;
            proof {
                assert(r@ =~= self.tasks@.subrange(0, i as int));
            }
        }
        proof {
            assert(r@ =~= self.tasks@);
        }
        r
    }

    /// The tasks whose status is Running, in registration order.
    pub fn list_running_tasks(&self) -> (r: Vec<ScheduledTask>)
        requires
            self.wf(),
        ensures
            r@ == self.task_list().filter(|t: ScheduledTask| t.status is Running),
    {
        let ghost pred = |t: ScheduledTask| t.status is Running;
        let mut r: Vec<ScheduledTask> = Vec::new();
        let mut i: usize = 0;
        while i < self.tasks.len()
            invariant
                i <= self.tasks@.len(),
                pred == (|t: ScheduledTask| t.status is Running),
                r@ == self.tasks@.subrange(0, i as int).filter(pred),
            decreases self.tasks@.len() - i,
        {
            proof {
                lemma_filter_step(self.tasks@, pred, i as int);
            }
            if self.tasks[i].status == TaskStatus::Running {
                r.push(self.tasks[i].clone());
            }
            i = i + 1;
        }
        proof {
            assert(self.tasks@.subrange(0, i as int) =~= self.tasks@);
        }
        r
    }

    /// Replaces the task at position `i` by `t`, which has the same id.
    fn set_task(&mut self, i: usize, t: ScheduledTask)
        requires
            old(self).wf(),
            i < old(self).tasks@.len(),
            t.id == old(self).tasks@[i as int].id,
        ensures
            final(self).wf(),
            final(self).tasks() == old(self).tasks().insert(t.id, t),
            final(self).task_list() == old(self).task_list().update(i as int, t),
            final(self).executors() == old(self).executors(),
            final(self).instances() == old(self).instances(),
            final(self).instance_list() == old(self).instance_list(),
            final(self).logs() == old(self).logs(),
            final(self).running() == old(self).running(),
    {
        proof {
            lemma_keyed_update(self.tasks@, task_key(), i as int, t);
        }
        self.tasks.set(i, t);
    }

    /// Pauses a task: status Paused, disabled. Pausing twice is the same as once.
    pub fn pause_task(&mut self, task_id: TaskId) -> (r: Result<(), SchedulerError>)
        requires
            old(self).wf(),
        ensures
            final(self).wf(),
            r is Ok <==> old(self).tasks().contains_key(task_id),
            r matches Err(e) ==> e == SchedulerError::JobNotFound(task_id) && *final(self) == *old(self),
            r is Ok ==> final(self).tasks() == old(self).tasks().insert(task_id, paused(old(self).tasks()[task_id])),
            final(self).executors() == old(self).executors(),
            final(self).instances() == old(self).instances(),
            final(self).instance_list() == old(self).instance_list(),
            final(self).logs() == old(self).logs(),
            final(self).running() == old(self).running(),
    {
        match self.find_task(task_id) {
            None => Err(SchedulerError::JobNotFound(task_id)),
            Some(i) => {
                let mut t = self.tasks[i].clone();
                t.status = TaskStatus::Paused;
                t.enabled = false;
                self.set_task(i, t);
                Ok(())
            },
        }
    }

    /// Resumes a task: a paused task becomes Pending, any other keeps its
    /// status; the task is enabled either way.
    pub fn resume_task(&mut self, task_id: TaskId) -> (r: Result<(), SchedulerError>)
        requires
            old(self).wf(),
        ensures
            final(self).wf(),
            r is Ok <==> old(self).tasks().contains_key(task_id),
            r matches Err(e) ==> e == SchedulerError::JobNotFound(task_id) && *final(self) == *old(self),
            r is Ok ==> final(self).tasks() == old(self).tasks().insert(task_id, resumed(old(self).tasks()[task_id])),
            final(self).executors() == old(self).executors(),
            final(self).instances() == old(self).instances(),
            final(self).instance_list() == old(self).instance_list(),
            final(self).logs() == old(self).logs(),
            final(self).running() == old(self).running(),
    {
        match self.find_task(task_id) {
            None => Err(SchedulerError::JobNotFound(task_id)),
            Some(i) => {
                let mut t = self.tasks[i].clone();
                if t.status == TaskStatus::Paused {
                    t.status = TaskStatus::Pending;
                }
                t.enabled = true;
                self.set_task(i, t);
                Ok(())
            },
        }
    }

    /// Applies an update at time `now`. An unknown id or a rejected cron
    /// expression changes nothing.
    pub fn update_task_at(&mut self, request: TaskUpdateRequest, now: Timestamp) -> (r: Result<ScheduledTask, SchedulerError>)
        requires
            old(self).wf(),
        ensures
            final(self).wf(),
            r is Ok <==> old(self).tasks().contains_key(request.id)
                && (request.cron_expression matches Some(c) ==> cron_valid(c@)),
            r is Err ==> *final(self) == *old(self),
            !old(self).tasks().contains_key(request.id) ==> r == Err::<ScheduledTask, SchedulerError>(
                SchedulerError::JobNotFound(request.id)),
            old(self).tasks().contains_key(request.id) && r is Err ==> (r->Err_0 matches
                SchedulerError::InvalidCronExpression(m) && request.cron_expression == Some(m)),
            r matches Ok(t) ==> t == updated(old(self).tasks()[request.id], request, now)
                && final(self).tasks() == old(self).tasks().insert(request.id, t),
            final(self).executors() == old(self).executors(),
            final(self).instances() == old(self).instances(),
            final(self).instance_list() == old(self).instance_list(),
            final(self).logs() == old(self).logs(),
            final(self).running() == old(self).running(),
    {
        let i = match self.find_task(request.id) {
            None => { return Err(SchedulerError::JobNotFound(request.id)); },
            Some(i) => i,
        };
        if let Some(c) = &request.cron_expression {
            if validate_cron(c.as_str()).is_err() {
                return Err(SchedulerError::InvalidCronExpression(c.clone()));
            }
        }
        let mut t = self.tasks[i].clone();
        let TaskUpdateRequest { id, title, description, content, cron_expression, enabled } = request;
        if let Some(x) = title {
            t.title = x;
        }
        if let Some(x) = description {
            t.description = Some(x);
        }
        if let Some(x) = content {
            t.content = Some(x);
        }
        if let Some(x) = cron_expression {
            t.next_run = next_fire_after(x.as_str(), now);
            t.cron_expression = x;
        }
        if let Some(e) = enabled {
            t.enabled = e;
            if e {
                if t.status == TaskStatus::Paused {
                    t.status = TaskStatus::Pending;
                }
            } else {
                t.status = TaskStatus::Paused;
            }
        }
        let out = t.clone();
        self.set_task(i, t);
        Ok(out)
    }

    /// Applies an update now.
    pub fn update_task(&mut self, request: TaskUpdateRequest) -> (r: Result<ScheduledTask, SchedulerError>)
        requires
            old(self).wf(),
        ensures
            final(self).wf(),
            r is Ok <==> old(self).tasks().contains_key(request.id)
                && (request.cron_expression matches Some(c) ==> cron_valid(c@)),
            r is Err ==> *final(self) == *old(self),
            !old(self).tasks().contains_key(request.id) ==> r == Err::<ScheduledTask, SchedulerError>(
                SchedulerError::JobNotFound(request.id)),
            old(self).tasks().contains_key(request.id) && r is Err ==> (r->Err_0 matches
                SchedulerError::InvalidCronExpression(m) && request.cron_expression == Some(m)),
            r matches Ok(t) ==> (exists|now: Timestamp| t == updated(old(self).tasks()[request.id], request, now))
                && final(self).tasks() == old(self).tasks().insert(request.id, t),
            final(self).executors() == old(self).executors(),
            final(self).instances() == old(self).instances(),
            final(self).logs() == old(self).logs(),
    {
        let now = now_millis();
        self.update_task_at(request, now)
    }

    /// Opens a run of a task: a new instance, Running from `now`, and the
    /// task marked Running with its last run at `now`. The caller then calls
    /// the task's executor and hands its outcome to `finish_run`.
    pub fn start_run(&mut self, task_id: TaskId, user_params: Vec<(String, String)>, instance_id: TaskId, now: Timestamp)
        -> (r: Result<TaskRunInstance, SchedulerError>)
        requires
            old(self).wf(),
        ensures
            final(self).wf(),
            r is Ok <==> old(self).tasks().contains_key(task_id) && old(self).executors().contains(task_id)
                && !old(self).instances().contains_key(instance_id),
            r is Err ==> *final(self) == *old(self),
            !old(self).tasks().contains_key(task_id) ==> r == Err::<TaskRunInstance, SchedulerError>(
                SchedulerError::JobNotFound(task_id)),
            old(self).tasks().contains_key(task_id) && !old(self).executors().contains(task_id)
                ==> r == Err::<TaskRunInstance, SchedulerError>(SchedulerError::ExecutorMissing(task_id)),
            r matches Ok(inst) ==> {
                &&& inst.id == instance_id
                &&& inst.task_id == task_id
                &&& inst.user_params@ == user_params@
                &&& inst.status == TaskStatus::Running
                &&& inst.started_at == now
                &&& inst.completed_at is None
                &&& inst.result is None
                &&& final(self).instances().contains_key(instance_id)
                &&& final(self).instances()[instance_id].same(inst)
                &&& final(self).instances() == old(self).instances().insert(instance_id, final(self).instances()[instance_id])
                &&& final(self).instance_list() == old(self).instance_list().push(final(self).instances()[instance_id])
                &&& final(self).tasks() == old(self).tasks().insert(task_id, ScheduledTask {
                    status: TaskStatus::Running,
                    last_run: Some(now),
                    ..old(self).tasks()[task_id]
                })
            },
            final(self).executors() == old(self).executors(),
            final(self).logs() == old(self).logs(),
            final(self).running() == old(self).running(),
    {
        let i = match self.find_task(task_id) {
            None => { return Err(SchedulerError::JobNotFound(task_id)); },
            Some(i) => i,
        };
        if !self.has_executor(task_id) {
            return Err(SchedulerError::ExecutorMissing(task_id));
        }
        if self.find_instance(instance_id).is_some() {
            return Err(SchedulerError::InvalidState(String::from_str("run instance id already in use")));
        }
        let mut inst = TaskRunInstance::new(instance_id, task_id, user_params, now);
        inst.mark_running();
        let out = inst.clone();
        proof {
            lemma_keyed_push(self.run_instances@, instance_key(), inst);
            lemma_keyed_index(self.run_instances@.push(inst), instance_key(), self.run_instances@.len() as int);
        }
        self.run_instances.push(inst);
        let mut t = self.tasks[i].clone();
        t.status = TaskStatus::Running;
        t.last_run = Some(now);
        self.set_task(i, t);
        Ok(out)
    }

    /// Closes an open run with the executor's outcome at `now`: `Ok` with the
    /// result it returned, or `Err` with the message of its failure. The task,
    /// if it still exists, takes the matching status and its next run.
    pub fn finish_run(&mut self, instance_id: TaskId, outcome: Result<TaskExecutionResult, String>, now: Timestamp)
        -> (r: Result<TaskRunInstance, SchedulerError>)
        requires
            old(self).wf(),
        ensures
            final(self).wf(),
            r is Ok <==> old(self).instances().contains_key(instance_id)
                && !old(self).instances()[instance_id].status.is_terminal(),
            r is Err ==> *final(self) == *old(self),
            !old(self).instances().contains_key(instance_id) ==> r == Err::<TaskRunInstance, SchedulerError>(
                SchedulerError::RunInstanceNotFound(instance_id)),
            r matches Ok(inst) ==> {
                let before = old(self).instances()[instance_id];
                let task_id = before.task_id;
                &&& inst.id == instance_id
                &&& inst.task_id == task_id
                &&& inst.user_params@ == before.user_params@
                &&& inst.started_at == before.started_at
                &&& inst.status == outcome_status(outcome)
                &&& inst.completed_at == Some(now)
                &&& inst.result == match outcome {
                    Ok(res) => Some(res),
                    Err(m) => Some(TaskExecutionResult {
                        task_id,
                        run_instance_id: None,
                        started_at: now,
                        completed_at: Some(now),
                        success: false,
                        error: Some(m),
                        stdout: None,
                        stderr: None,
                        exit_code: None,
                    }),
                }
                &&& final(self).instances() == old(self).instances().insert(instance_id, final(self).instances()[instance_id])
                &&& final(self).instances()[instance_id].same(inst)
                &&& final(self).tasks() == if old(self).tasks().contains_key(task_id) {
                    old(self).tasks().insert(task_id, finished(old(self).tasks()[task_id], outcome, now))
                } else {
                    old(self).tasks()
                }
            },
            final(self).executors() == old(self).executors(),
            final(self).logs() == old(self).logs(),
            final(self).running() == old(self).running(),
    {
        let j = match self.find_instance(instance_id) {
            None => { return Err(SchedulerError::RunInstanceNotFound(instance_id)); },
            Some(j) => j,
        };
        let st = self.run_instances[j].status;
        if st == TaskStatus::Completed || st == TaskStatus::Failed || st == TaskStatus::Error {
            return Err(SchedulerError::InvalidState(String::from_str("run instance already finished")));
        }
        let mut inst = self.run_instances[j].clone();
        proof {
            assert(self.run_instances@[j as int].wf());
        }
        let task_id = inst.task_id;
        let status = match outcome {
            Ok(res) => {
                inst.mark_completed(res, now);
                if inst.status == TaskStatus::Completed { TaskStatus::Completed } else { TaskStatus::Failed }
            },
            Err(m) => {
                inst.mark_error(m, now);
                TaskStatus::Error
            },
        };
        let out = inst.clone();
        proof {
            lemma_keyed_update(self.run_instances@, instance_key(), j as int, inst);
            lemma_keyed_index(self.run_instances@.update(j as int, inst), instance_key(), j as int);
            assert forall|k: int| 0 <= k < self.run_instances@.update(j as int, inst).len()
                implies (#[trigger] self.run_instances@.update(j as int, inst)[k]).wf() by {
                if k != j {
                    assert(self.run_instances@.update(j as int, inst)[k] == self.run_instances@[k]);
                }
            }
        }
        self.run_instances.set(j, inst);
        match self.find_task(task_id) {
            None => {},
            Some(i) => {
                let mut t = self.tasks[i].clone();
                t.status = status;
                if status == TaskStatus::Completed && t.run_count < u64::MAX {
                    t.run_count = t.run_count + 1;
                }
                t.next_run = next_fire_after(t.cron_expression.as_str(), now);
                self.set_task(i, t);
            },
        }
        Ok(out)
    }

    /// What stopping `id` at `now` does: a running instance becomes Failed
    /// with the stop result and its task, if any, Failed; an unknown id gives
    /// `RunInstanceNotFound` and any other instance `InvalidState`, with
    /// nothing changed.
    pub open spec fn stop_effect(
        before_state: Self,
        after_state: Self,
        run_instance_id: TaskId,
        now: Timestamp,
        r: Result<(), SchedulerError>,
    ) -> bool {
        &&& (r is Ok <==> before_state.instances().contains_key(run_instance_id)
                && before_state.instances()[run_instance_id].status is Running)
        &&& (r is Err ==> after_state == before_state)
        &&& (!before_state.instances().contains_key(run_instance_id) ==> r == Err::<(), SchedulerError>(
                SchedulerError::RunInstanceNotFound(run_instance_id)))
        &&& (before_state.instances().contains_key(run_instance_id) && !(before_state.instances()[run_instance_id].status is Running)
                ==> r matches Err(SchedulerError::InvalidState(_)))
        &&& (r is Ok ==> {
                let before = before_state.instances()[run_instance_id];
                let after = after_state.instances()[run_instance_id];
                let task_id = before.task_id;
                &&& after_state.instances() == before_state.instances().insert(run_instance_id, after)
                &&& after.id == run_instance_id
                &&& after.task_id == task_id
                &&& after.user_params@ == before.user_params@
                &&& after.started_at == before.started_at
                &&& after.status == TaskStatus::Failed
                &&& after.completed_at == Some(now)
                &&& (after.result matches Some(res) && res.error matches Some(m) && m@ == stop_message()
                    && !res.success && res.task_id == task_id)
                &&& after_state.tasks() == if before_state.tasks().contains_key(task_id) {
                    before_state.tasks().insert(task_id, ScheduledTask { status: TaskStatus::Failed, ..before_state.tasks()[task_id] })
                } else {
                    before_state.tasks()
                }
            })
        &&& (after_state.executors() == before_state.executors())
        &&& (after_state.logs() == before_state.logs())
        &&& (after_state.running() == before_state.running())
    }

    /// Stops a running instance at `now`: it becomes Failed with a "stopped by
    /// user" result, and its task, if it still exists, becomes Failed. An
    /// instance that is not Running is left as it is.
    pub fn stop_task_at(&mut self, run_instance_id: TaskId, now: Timestamp) -> (r: Result<(), SchedulerError>)
        requires
            old(self).wf(),
        ensures
            final(self).wf(),
            Self::stop_effect(*old(self), *final(self), run_instance_id, now, r),
    {
        let j = match self.find_instance(run_instance_id) {
            None => { return Err(SchedulerError::RunInstanceNotFound(run_instance_id)); },
            Some(j) => j,
        };
        if self.run_instances[j].status != TaskStatus::Running {
            return Err(SchedulerError::InvalidState(String::from_str("Task is not running")));
        }
        let mut inst = self.run_instances[j].clone();
        let task_id = inst.task_id;
        inst.status = TaskStatus::Failed;
        inst.completed_at = Some(now);
        inst.result = Some(TaskExecutionResult::failure(task_id, String::from_str("Task stopped by user"), now));
        proof {
            lemma_keyed_update(self.run_instances@, instance_key(), j as int, inst);
            lemma_keyed_index(self.run_instances@.update(j as int, inst), instance_key(), j as int);
            assert forall|k: int| 0 <= k < self.run_instances@.update(j as int, inst).len()
                implies (#[trigger] self.run_instances@.update(j as int, inst)[k]).wf() by {
                if k != j {
                    assert(self.run_instances@.update(j as int, inst)[k] == self.run_instances@[k]);
                }
            }
        }
        self.run_instances.set(j, inst);
        match self.find_task(task_id) {
            None => {},
            Some(i) => {
                let mut t = self.tasks[i].clone();
                t.status = TaskStatus::Failed;
                self.set_task(i, t);
            },
        }
        Ok(())
    }

    /// Stops a running instance now.
    pub fn stop_task(&mut self, run_instance_id: TaskId) -> (r: Result<(), SchedulerError>)
        requires
            old(self).wf(),
        ensures
            final(self).wf(),
            exists|now: Timestamp| Self::stop_effect(*old(self), *final(self), run_instance_id, now, r),
            r is Ok <==> old(self).instances().contains_key(run_instance_id)
                && old(self).instances()[run_instance_id].status is Running,
            r is Err ==> *final(self) == *old(self),
            !old(self).instances().contains_key(run_instance_id) ==> r == Err::<(), SchedulerError>(
                SchedulerError::RunInstanceNotFound(run_instance_id)),
            old(self).instances().contains_key(run_instance_id) && !(old(self).instances()[run_instance_id].status is Running)
                ==> r matches Err(SchedulerError::InvalidState(_)),
    {
        let now = now_millis();
        let r = self.stop_task_at(run_instance_id, now);
        proof {
            assert(Self::stop_effect(*old(self), *self, run_instance_id, now, r));
        }
        r
    }

    /// The run instance with this id.
    pub fn get_run_instance(&self, run_instance_id: TaskId) -> (r: Result<TaskRunInstance, SchedulerError>)
        requires
            self.wf(),
        ensures
            r is Ok <==> self.instances().contains_key(run_instance_id),
            r matches Ok(inst) ==> inst.same(self.instances()[run_instance_id]),
            r matches Err(e) ==> e == SchedulerError::RunInstanceNotFound(run_instance_id),
    {
        match self.find_instance(run_instance_id) {
            Some(j) => Ok(self.run_instances[j].clone()),
            None => Err(SchedulerError::RunInstanceNotFound(run_instance_id)),
        }
    }

    /// The run instances of a task, in creation order.
    pub fn get_task_instances(&self, task_id: TaskId) -> (r: Vec<TaskRunInstance>)
        requires
            self.wf(),
        ensures
            r@.len() == self.instance_list().filter(|i: TaskRunInstance| i.task_id == task_id).len(),
            forall|k: int| 0 <= k < r@.len() ==>
                (#[trigger] r@[k]).same(self.instance_list().filter(|i: TaskRunInstance| i.task_id == task_id)[k]),
    {
        let ghost pred = |i: TaskRunInstance| i.task_id == task_id;
        let mut r: Vec<TaskRunInstance> = Vec::new();
        let mut i: usize = 0;
        while i < self.run_instances.len()
            invariant
                i <= self.run_instances@.len(),
                pred == (|i: TaskRunInstance| i.task_id == task_id),
                r@.len() == self.run_instances@.subrange(0, i as int).filter(pred).len(),
                forall|k: int| 0 <= k < r@.len() ==>
                    (#[trigger] r@[k]).same(self.run_instances@.subrange(0, i as int).filter(pred)[k]),
            decreases self.run_instances@.len() - i,
        {
            proof {
                lemma_filter_step(self.run_instances@, pred, i as int);
            }
            if self.run_instances[i].task_id == task_id {
                r.push(self.run_instances[i].clone());
            }
            i = i + 1;
        }
        proof {
            assert(self.run_instances@.subrange(0, i as int) =~= self.run_instances@);
        }
        r
    }

    /// Appends a log line to a run instance at `now`; this always succeeds.
    pub fn add_log_at(&mut self, log_id: TaskId, run_instance_id: TaskId, level: LogLevel, message: String, now: Timestamp)
        -> (r: TaskLog)
        requires
            old(self).wf(),
        ensures
            final(self).wf(),
            r == (TaskLog { id: log_id, run_instance_id, level, message, timestamp: now }),
            final(self).logs() == old(self).logs().push(r),
            final(self).tasks() == old(self).tasks(),
            final(self).executors() == old(self).executors(),
            final(self).instances() == old(self).instances(),
            final(self).instance_list() == old(self).instance_list(),
            final(self).running() == old(self).running(),
    {
        let log = TaskLog::new(log_id, run_instance_id, level, message, now);
        let out = log.clone();
        self.logs.push(log);
        out
    }

    /// Appends a log line to a run instance now.
    pub fn add_log(&mut self, run_instance_id: TaskId, level: LogLevel, message: String) -> (r: TaskLog)
        requires
            old(self).wf(),
        ensures
            final(self).wf(),
            r.run_instance_id == run_instance_id && r.level == level && r.message == message,
            final(self).logs() == old(self).logs().push(r),
            final(self).tasks() == old(self).tasks(),
            final(self).instances() == old(self).instances(),
    {
        let id = new_id();
        let now = now_millis();
        self.add_log_at(id, run_instance_id, level, message, now)
    }

    /// Every log line, in the order they were appended.
    pub fn log_lines(&self) -> (r: Vec<TaskLog>)
        ensures
            r@ == self.logs(),
    {
        let mut r: Vec<TaskLog> = Vec::new();
        let mut i: usize = 0;
        while i < self.logs.len()
            invariant
                i <= self.logs@.len(),
                r@ == self.logs@.subrange(0, i as int),
            decreases self.logs@.len() - i,
        {
            r.push(self.logs[i].clone());
            i = i + 1;
            proof {
                assert(r@ =~= self.logs@.subrange(0, i as int));
            }
        }
        proof {
            assert(r@ =~= self.logs@);
        }
        r
    }

    /// The log lines of a run instance, restricted to one level if one is
    /// given, ordered by timestamp; lines with equal timestamps stay in the
    /// order they were appended.
    pub fn get_instance_logs(&self, run_instance_id: TaskId, level: Option<LogLevel>) -> (r: Vec<TaskLog>)
        ensures
            r@ == sorted_logs(self.logs().filter(|l: TaskLog| l.run_instance_id == run_instance_id
                && (level matches Some(lv) ==> l.level == lv))),
            sorted_by_time(r@),
    {
        let ghost pred = |l: TaskLog| l.run_instance_id == run_instance_id && (level matches Some(lv) ==> l.level == lv);
        let mut r: Vec<TaskLog> = Vec::new();
        let mut i: usize = 0;
        while i < self.logs.len()
            invariant
                i <= self.logs@.len(),
                pred == (|l: TaskLog| l.run_instance_id == run_instance_id && (level matches Some(lv) ==> l.level == lv)),
                r@ == self.logs@.subrange(0, i as int).filter(pred),
            decreases self.logs@.len() - i,
        {
            proof {
                lemma_filter_step(self.logs@, pred, i as int);
            }
            let l = &self.logs[i];
            let keep = l.run_instance_id == run_instance_id && match level {
                Some(lv) => l.level == lv,
                None => true,
            };
            if keep {
                r.push(l.clone());
            }
            i = i + 1;
        }
        proof {
            assert(self.logs@.subrange(0, i as int) =~= self.logs@);
        }
        sort_logs_by_time(r)
    }

    /// The task with a summary of its most recent run instances, the most
    /// recent first.
    pub fn get_task_briefing(&self, task_id: TaskId) -> (r: Result<TaskBriefing, SchedulerError>)
        requires
            self.wf(),
        ensures
            r is Ok <==> self.tasks().contains_key(task_id),
            r matches Err(e) ==> e == SchedulerError::JobNotFound(task_id),
            r matches Ok(b) ==> b.describes(self.tasks()[task_id],
                self.instance_list().filter(|i: TaskRunInstance| i.task_id == task_id)),
    {
        let task = match self.get_task(task_id) {
            Err(e) => { return Err(e); },
            Ok(t) => t,
        };
        let instances = self.get_task_instances(task_id);
        let ghost got = instances@;
        let b = TaskBriefing::from_task(&task, instances);
        proof {
            let want = self.instance_list().filter(|i: TaskRunInstance| i.task_id == task_id);
            lemma_runs_by_start_same(got, want);
            let sg = runs_by_start(got);
            let sw = runs_by_start(want);
            let n = if want.len() < BRIEFING_WINDOW { want.len() } else { BRIEFING_WINDOW as nat };
            assert forall|k: int| 0 <= k < n implies #[trigger] b.recent_instances@[k]
                == RunInstanceSummary::of(sw[want.len() - 1 - k]) by {
                assert(b.recent_instances@[k] == RunInstanceSummary::of(sg[got.len() - 1 - k]));
                assert(sg[got.len() - 1 - k].same(sw[want.len() - 1 - k]));
            }
        }
        Ok(b)
    }

    /// Whether the in-process trigger should fire `t` at `now`: it is enabled,
    /// not paused, not left to an operating-system trigger, and its next run
    /// is at or before `now`.
    pub open spec fn is_due(t: ScheduledTask, now: Timestamp) -> bool {
        &&& t.enabled
        &&& !(t.status is Paused)
        &&& !t.is_system
        &&& t.next_run matches Some(n) && n <= now
    }

    /// The ids of the tasks due at `now`, in registration order. Each is
    /// listed once however many firings it missed; its run's end sets its
    /// next run after that time.
    pub fn due_tasks(&self, now: Timestamp) -> (r: Vec<TaskId>)
        ensures
            r@ == self.task_list().filter(|t: ScheduledTask| Self::is_due(t, now)).map_values(|t: ScheduledTask| t.id),
    {
        let ghost pred = |t: ScheduledTask| Self::is_due(t, now);
        let ghost key = |t: ScheduledTask| t.id;
        let mut r: Vec<TaskId> = Vec::new();
        let mut i: usize = 0;
        while i < self.tasks.len()
            invariant
                i <= self.tasks@.len(),
                pred == (|t: ScheduledTask| Self::is_due(t, now)),
                key == (|t: ScheduledTask| t.id),
                r@ == self.tasks@.subrange(0, i as int).filter(pred).map_values(key),
            decreases self.tasks@.len() - i,
        {
            proof {
                lemma_filter_step(self.tasks@, pred, i as int);
            }
            let t = &self.tasks[i];
            let due = t.enabled && t.status != TaskStatus::Paused && !t.is_system && match t.next_run {
                Some(n) => n <= now,
                None => false,
            };
            if due {
                proof {
                    let f = self.tasks@.subrange(0, i as int).filter(pred);
                    assert(f.push(self.tasks@[i as int]).map_values(key) =~= f.map_values(key).push(t.id));
                }
                r.push(t.id);
            }
            i = i + 1;
        }
        proof {
            assert(self.tasks@.subrange(0, i as int) =~= self.tasks@);
        }
        r
    }

    /// Removes every task, executor, run instance and log line; returns how
    /// many tasks there were.
    pub fn clear_all_tasks(&mut self) -> (r: usize)
        requires
            old(self).wf(),
        ensures
            final(self).wf(),
            r == old(self).task_list().len(),
            final(self).tasks() == Map::<TaskId, ScheduledTask>::empty(),
            final(self).task_list() == Seq::<ScheduledTask>::empty(),
            final(self).executors() == Seq::<TaskId>::empty(),
            final(self).instances() == Map::<TaskId, TaskRunInstance>::empty(),
            final(self).instance_list() == Seq::<TaskRunInstance>::empty(),
            final(self).logs() == Seq::<TaskLog>::empty(),
            final(self).running() == old(self).running(),
    {
        let count = self.tasks.len();
        self.tasks = Vec::new();
        self.executors = Vec::new();
        self.run_instances = Vec::new();
        self.logs = Vec::new();
        count
    }

    /// Marks the trigger engine started.
    pub fn start(&mut self)
        ensures
            final(self).running(),
            final(self).tasks() == old(self).tasks(),
            final(self).task_list() == old(self).task_list(),
            final(self).executors() == old(self).executors(),
            final(self).instances() == old(self).instances(),
            final(self).instance_list() == old(self).instance_list(),
            final(self).logs() == old(self).logs(),
            final(self).wf() == old(self).wf(),
    {
        self.running = true;
    }

    /// Marks the trigger engine stopped.
    pub fn stop(&mut self)
        ensures
            !final(self).running(),
            final(self).tasks() == old(self).tasks(),
            final(self).task_list() == old(self).task_list(),
            final(self).executors() == old(self).executors(),
            final(self).instances() == old(self).instances(),
            final(self).instance_list() == old(self).instance_list(),
            final(self).logs() == old(self).logs(),
            final(self).wf() == old(self).wf(),
    {
        self.running = false;
    }

    pub fn is_running(&self) -> (r: bool)
        ensures
            r == self.running(),
    {
        self.running
    }
}

} // verus!
