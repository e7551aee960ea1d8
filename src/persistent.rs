//! The registry with a durable store behind it: every change accepted in
//! memory is written through to the store before the operation returns, so
//! the store always holds the registry's tasks.

use vstd::prelude::*;

use crate::cron::{next_run_at, cron_valid};
use crate::error::SchedulerError;
use crate::scheduler::{finished, outcome_status, paused, resumed, updated, CronTaskScheduler};
use crate::store::{dedup_ids, dedup_logs, sort_logs_by_time, sorted_by_time, sorted_logs, MemorySchedulerStorage};
use crate::keyed::lemma_filter_step;
use crate::types::{LogLevel, ScheduledTask, TaskBriefing, TaskExecutionResult, TaskId, TaskLog, TaskRunInstance,
    TaskStatus, TaskUpdateRequest, Timestamp};

verus! {

/// The stored tasks as a fresh registry takes them back at `now`: every
/// field kept, and the next run recomputed for the enabled, unpaused ones.
pub open spec fn reloaded(stored: Map<TaskId, ScheduledTask>, now: Timestamp) -> Map<TaskId, ScheduledTask> {
    Map::new(|id: TaskId| stored.contains_key(id), |id: TaskId| CronTaskScheduler::restored(stored[id], now))
}

/// Whether some instance of `s` has the id `id`.
pub open spec fn has_instance_id(s: Seq<TaskRunInstance>, id: TaskId) -> bool {
    exists|k: int| 0 <= k < s.len() && s[k].id == id
}

/// The instances of `a`, then those of `b` whose id `a` does not hold.
pub open spec fn merged_instances(a: Seq<TaskRunInstance>, b: Seq<TaskRunInstance>) -> Seq<TaskRunInstance> {
    a + b.filter(|x: TaskRunInstance| !has_instance_id(a, x.id))
}

/// A registry whose changes are written through to a store.
pub struct PersistentCronTaskScheduler {
    scheduler: CronTaskScheduler,
    storage: MemorySchedulerStorage,
}

impl PersistentCronTaskScheduler {
    pub closed spec fn registry(&self) -> CronTaskScheduler {
        self.scheduler
    }

    pub closed spec fn store(&self) -> MemorySchedulerStorage {
        self.storage
    }

    /// Both parts are well formed and the store holds exactly the registry's tasks.
    pub closed spec fn wf(&self) -> bool {
        &&& self.scheduler.wf()
        &&& self.storage.wf()
        &&& self.storage.tasks() == self.scheduler.tasks()
    }

    /// Write-through: whenever an operation has returned, the store holds
    /// exactly the tasks of the registry.
    pub proof fn law_store_mirrors_registry(&self)
        requires
            self.wf(),
        ensures
            self.registry().wf(),
            self.store().wf(),
            self.store().tasks() == self.registry().tasks(),
    {
    }

    /// An empty registry over an empty store.
    pub fn new() -> (r: Self)
        ensures
            r.wf(),
            r.registry().tasks() == Map::<TaskId, ScheduledTask>::empty(),
            r.registry().instances() == Map::<TaskId, TaskRunInstance>::empty(),
            r.registry().logs() == Seq::<TaskLog>::empty(),
            !r.registry().running(),
    {
        PersistentCronTaskScheduler { scheduler: CronTaskScheduler::new(), storage: MemorySchedulerStorage::new() }
    }

    /// A fresh registry over an existing store: each stored task is taken
    /// back (an enabled, unpaused one with its next run recomputed at `now`)
    /// and written back, and each well-formed stored run instance is taken
    /// back so that it can be queried and stopped.
    pub fn from_storage(storage: MemorySchedulerStorage, now: Timestamp) -> (r: Self)
        requires
            storage.wf(),
        ensures
            r.wf(),
            r.registry().tasks() == reloaded(storage.tasks(), now),
            r.registry().executors() == Seq::<TaskId>::empty(),
            forall|id: TaskId| #[trigger] r.registry().instances().contains_key(id)
                <==> storage.instances().contains_key(id) && storage.instances()[id].wf(),
            forall|id: TaskId| #[trigger] r.registry().instances().contains_key(id)
                ==> r.registry().instances()[id].same(storage.instances()[id]),
            r.registry().logs() == Seq::<TaskLog>::empty(),
            r.store().instances() == storage.instances(),
            r.store().logs() == storage.logs(),
    {
        let mut scheduler = CronTaskScheduler::new();
        let ghost given = storage;
        let mut storage = storage;
        let ghost stored = storage.tasks();
        let list = storage.list_tasks();
        let ghost ids = list@;
        let mut i: usize = 0;
        while i < list.len()
            invariant
                scheduler.wf(),
                storage.wf(),
                i <= list@.len(),
                crate::keyed::unique_keys(list@, crate::scheduler::task_key()),
                crate::keyed::keyed(list@, crate::scheduler::task_key()) == stored,
                scheduler.executors() == Seq::<TaskId>::empty(),
                scheduler.instances() == Map::<TaskId, TaskRunInstance>::empty(),
                scheduler.logs() == Seq::<TaskLog>::empty(),
                storage.instances() == given.instances(),
                storage.logs() == given.logs(),
                forall|id: TaskId| #[trigger] scheduler.tasks().contains_key(id) <==>
                    exists|k: int| 0 <= k < i && list@[k].id == id,
                forall|id: TaskId| #[trigger] scheduler.tasks().contains_key(id) ==> stored.contains_key(id)
                    && scheduler.tasks()[id] == reloaded(stored, now)[id],
                forall|id: TaskId| #[trigger] storage.tasks().contains_key(id) <==> stored.contains_key(id),
                forall|id: TaskId| #[trigger] storage.tasks().contains_key(id) ==>
                    storage.tasks()[id] == if scheduler.tasks().contains_key(id) { reloaded(stored, now)[id] } else { stored[id] },
            decreases list@.len() - i,
        {
            let t = list[i].clone();
            proof {
                crate::keyed::lemma_keyed_index(list@, crate::scheduler::task_key(), i as int);
            }
            let r = scheduler.restore_task(t, now);
            storage.save_task(&r);
            proof {
                assert forall|id: TaskId| #[trigger] scheduler.tasks().contains_key(id) implies
                    (exists|k: int| 0 <= k < i + 1 && list@[k].id == id) by {
                    if id != list@[i as int].id {
                        let k = choose|k: int| 0 <= k < i && list@[k].id == id;
                        assert(0 <= k < i + 1 && list@[k].id == id);
                    }
                }
                assert forall|id: TaskId| (exists|k: int| 0 <= k < i + 1 && list@[k].id == id)
                    implies #[trigger] scheduler.tasks().contains_key(id) by {
                    let k = choose|k: int| 0 <= k < i + 1 && list@[k].id == id;
                    if k < i {
                        assert(exists|k: int| 0 <= k < i && list@[k].id == id);
                    }
                }
            }
            i = i + 1;
        }
        proof {
            assert forall|id: TaskId| #[trigger] stored.contains_key(id) implies scheduler.tasks().contains_key(id) by {
                crate::keyed::lemma_keyed_dom(list@, crate::scheduler::task_key(), id);
            }
            assert(scheduler.tasks() =~= reloaded(stored, now));
            assert(storage.tasks() =~= scheduler.tasks());
        }
        // the stored run instances, so that they can be queried and stopped
        let insts = storage.list_all_instances();
        proof {
            storage.lemma_views();
        }
        let ghost listed = storage.instance_list();
        let mut k: usize = 0;
        while k < insts.len()
            invariant
                scheduler.wf(),
                storage.wf(),
                k <= insts@.len() == listed.len(),
                listed == storage.instance_list(),
                crate::keyed::unique_keys(listed, crate::scheduler::instance_key()),
                crate::keyed::keyed(listed, crate::scheduler::instance_key()) == storage.instances(),
                forall|q: int| 0 <= q < insts@.len() ==> (#[trigger] insts@[q]).same(listed[q]),
                scheduler.tasks() == reloaded(stored, now),
                storage.tasks() == scheduler.tasks(),
                storage.instances() == given.instances(),
                storage.logs() == given.logs(),
                scheduler.executors() == Seq::<TaskId>::empty(),
                scheduler.logs() == Seq::<TaskLog>::empty(),
                forall|id: TaskId| #[trigger] scheduler.instances().contains_key(id) ==>
                    exists|q: int| 0 <= q < k && listed[q].id == id && listed[q].wf()
                        && scheduler.instances()[id].same(listed[q]),
                forall|q: int| 0 <= q < k && (#[trigger] listed[q]).wf() ==> scheduler.instances().contains_key(listed[q].id),
            decreases insts@.len() - k,
        {
            let x = insts[k].clone();
            proof {
                assert(!scheduler.instances().contains_key(x.id)) by {
                    if scheduler.instances().contains_key(x.id) {
                        let q = choose|q: int| 0 <= q < k && listed[q].id == x.id && listed[q].wf()
                            && scheduler.instances()[x.id].same(listed[q]);
                        assert(crate::scheduler::instance_key()(listed[q]) == crate::scheduler::instance_key()(listed[k as int]));
                    }
                }
            }
            let ghost before = scheduler.instances();
            scheduler.restore_instance(x);
            proof {
                assert forall|id: TaskId| #[trigger] scheduler.instances().contains_key(id) implies
                    exists|q: int| 0 <= q < k + 1 && listed[q].id == id && listed[q].wf()
                        && scheduler.instances()[id].same(listed[q]) by {
                    if before.contains_key(id) {
                        let q = choose|q: int| 0 <= q < k && listed[q].id == id && listed[q].wf()
                            && before[id].same(listed[q]);
                        assert(0 <= q < k + 1 && listed[q].id == id && listed[q].wf() && scheduler.instances()[id].same(listed[q]));
                    } else {
                        assert(id == x.id);
                        assert(0 <= k < k + 1 && listed[k as int].id == id && listed[k as int].wf()
                            && scheduler.instances()[id].same(listed[k as int]));
                    }
                }
            }
            k = k + 1;
        }
        proof {
            assert forall|id: TaskId| #[trigger] scheduler.instances().contains_key(id)
                <==> storage.instances().contains_key(id) && storage.instances()[id].wf() by {
                crate::keyed::lemma_keyed_dom(listed, crate::scheduler::instance_key(), id);
                if scheduler.instances().contains_key(id) {
                    let q = choose|q: int| 0 <= q < k && listed[q].id == id && listed[q].wf()
                        && scheduler.instances()[id].same(listed[q]);
                    crate::keyed::lemma_keyed_index(listed, crate::scheduler::instance_key(), q);
                }
                if storage.instances().contains_key(id) && storage.instances()[id].wf() {
                    let q = choose|q: int| 0 <= q < listed.len() && crate::scheduler::instance_key()(listed[q]) == id;
                    crate::keyed::lemma_keyed_index(listed, crate::scheduler::instance_key(), q);
                }
            }
            assert forall|id: TaskId| #[trigger] scheduler.instances().contains_key(id)
                implies scheduler.instances()[id].same(storage.instances()[id]) by {
                let q = choose|q: int| 0 <= q < k && listed[q].id == id && listed[q].wf()
                    && scheduler.instances()[id].same(listed[q]);
                crate::keyed::lemma_keyed_index(listed, crate::scheduler::instance_key(), q);
            }
        }
        PersistentCronTaskScheduler { scheduler, storage }
    }

    /// The tasks as the store holds them.
    pub fn load_tasks(&self) -> (r: Vec<ScheduledTask>)
        requires
            self.wf(),
        ensures
            r@ == self.store().task_list(),
    {
        self.storage.list_tasks()
    }

    /// Gives up the registry and hands back the store.
    pub fn into_storage(self) -> (r: MemorySchedulerStorage)
        ensures
            r == self.store(),
    {
        self.storage
    }

    pub fn register_executor(&mut self, task_id: TaskId)
        requires
            old(self).wf(),
        ensures
            final(self).wf(),
            final(self).registry().executors().contains(task_id),
            final(self).registry().tasks() == old(self).registry().tasks(),
            final(self).registry().instances() == old(self).registry().instances(),
    {
        self.scheduler.register_executor(task_id);
    }

    /// Adds a task under a fresh id and stores it.
    pub fn add_task_with_system(
        &mut self,
        title: String,
        name: String,
        description: Option<String>,
        content: Option<String>,
        cron_expression: String,
        is_system: bool,
    ) -> (r: Result<ScheduledTask, SchedulerError>)
        requires
            old(self).wf(),
        ensures
            final(self).wf(),
            r is Ok <==> cron_valid(cron_expression@),
            r is Err ==> *final(self) == *old(self),
            r matches Err(e) ==> (e matches SchedulerError::InvalidCronExpression(m) && m@ == cron_expression@),
            r matches Ok(t) ==> {
                &&& t.title == title
                &&& t.name == name
                &&& t.description == description
                &&& t.content == content
                &&& t.cron_expression == cron_expression
                &&& t.status == TaskStatus::Pending
                &&& t.last_run is None
                &&& t.next_run == next_run_at(cron_expression@, t.created_at)
                &&& (t.next_run matches Some(n) ==> n > t.created_at)
                &&& t.run_count == 0
                &&& t.enabled
                &&& t.is_system == is_system
                &&& final(self).registry().tasks() == old(self).registry().tasks().insert(t.id, t)
                &&& final(self).store().tasks() == old(self).store().tasks().insert(t.id, t)
            },
    {
        let t = match self.scheduler.add_task_with_system(title, name, description, content, cron_expression, is_system) {
            Err(e) => { return Err(e); },
            Ok(t) => t,
        };
        self.storage.save_task(&t);
        Ok(t)
    }

    pub fn add_task_full(
        &mut self,
        title: String,
        name: String,
        description: Option<String>,
        content: Option<String>,
        cron_expression: String,
    ) -> (r: Result<ScheduledTask, SchedulerError>)
        requires
            old(self).wf(),
        ensures
            final(self).wf(),
            r is Ok <==> cron_valid(cron_expression@),
            r is Err ==> *final(self) == *old(self),
            r matches Err(e) ==> (e matches SchedulerError::InvalidCronExpression(m) && m@ == cron_expression@),
            r matches Ok(t) ==> {
                &&& t.title == title
                &&& t.name == name
                &&& t.description == description
                &&& t.content == content
                &&& t.cron_expression == cron_expression
                &&& t.status == TaskStatus::Pending
                &&& t.last_run is None
                &&& t.next_run == next_run_at(cron_expression@, t.created_at)
                &&& (t.next_run matches Some(n) ==> n > t.created_at)
                &&& t.run_count == 0
                &&& t.enabled
                &&& !t.is_system
                &&& final(self).registry().tasks() == old(self).registry().tasks().insert(t.id, t)
                &&& final(self).store().tasks() == old(self).store().tasks().insert(t.id, t)
            },
    {
        self.add_task_with_system(title, name, description, content, cron_expression, false)
    }

    pub fn add_task(&mut self, title: String, name: String, cron_expression: String) -> (r: Result<ScheduledTask, SchedulerError>)
        requires
            old(self).wf(),
        ensures
            final(self).wf(),
            r is Ok <==> cron_valid(cron_expression@),
            r is Err ==> *final(self) == *old(self),
            r matches Err(e) ==> (e matches SchedulerError::InvalidCronExpression(m) && m@ == cron_expression@),
            r matches Ok(t) ==> {
                &&& t.title == title
                &&& t.name == name
                &&& t.description is None
                &&& t.content is None
                &&& t.cron_expression == cron_expression
                &&& t.status == TaskStatus::Pending
                &&& t.last_run is None
                &&& t.next_run == next_run_at(cron_expression@, t.created_at)
                &&& (t.next_run matches Some(n) ==> n > t.created_at)
                &&& t.run_count == 0
                &&& t.enabled
                &&& !t.is_system
                &&& final(self).registry().tasks() == old(self).registry().tasks().insert(t.id, t)
                &&& final(self).store().tasks() == old(self).store().tasks().insert(t.id, t)
            },
    {
        self.add_task_with_system(title, name, None, None, cron_expression, false)
    }

    /// Removes a task from the registry and from the store, each time with its
    /// run instances and their log lines.
    pub fn remove_task(&mut self, task_id: TaskId) -> (r: Result<(), SchedulerError>)
        requires
            old(self).wf(),
        ensures
            final(self).wf(),
            r is Ok <==> old(self).registry().tasks().contains_key(task_id),
            r is Err ==> *final(self) == *old(self),
            r matches Err(e) ==> e == SchedulerError::JobNotFound(task_id),
            r is Ok ==> final(self).store().tasks() == old(self).store().tasks().remove(task_id)
                && final(self).store().instance_list() == old(self).store().instance_list().filter(
                    |i: TaskRunInstance| i.task_id != task_id)
                && final(self).store().logs() == old(self).store().logs().filter(
                    |l: TaskLog| !CronTaskScheduler::log_of_task(old(self).store().instances(), task_id, l)),
            r is Ok ==> final(self).registry().tasks() == old(self).registry().tasks().remove(task_id)
                && final(self).registry().instance_list() == old(self).registry().instance_list().filter(
                    |i: TaskRunInstance| i.task_id != task_id),
    {
        match self.scheduler.remove_task(task_id) {
            Err(e) => { return Err(e); },
            Ok(()) => {},
        }
        self.storage.delete_task(task_id);
        self.storage.delete_task_logs(task_id);
        self.storage.delete_run_instances(task_id);
        Ok(())
    }

    /// Writes the registry's copy of a task to the store.
    fn sync_task(&mut self, task_id: TaskId)
        requires
            old(self).scheduler.wf(),
            old(self).storage.wf(),
            old(self).scheduler.tasks().contains_key(task_id),
            old(self).storage.tasks().insert(task_id, old(self).scheduler.tasks()[task_id]) =~= old(self).scheduler.tasks(),
        ensures
            final(self).wf(),
            final(self).scheduler == old(self).scheduler,
            final(self).storage.instances() == old(self).storage.instances(),
            final(self).storage.instance_list() == old(self).storage.instance_list(),
            final(self).storage.logs() == old(self).storage.logs(),
    {
        match self.scheduler.get_task(task_id) {
            Ok(t) => {
                self.storage.save_task(&t);
                proof {
                    assert(self.storage.tasks() =~= self.scheduler.tasks());
                }
            },
            Err(_) => {},
        }
    }

    pub fn pause_task(&mut self, task_id: TaskId) -> (r: Result<(), SchedulerError>)
        requires
            old(self).wf(),
        ensures
            final(self).wf(),
            r is Ok <==> old(self).registry().tasks().contains_key(task_id),
            r is Err ==> *final(self) == *old(self),
            r is Ok ==> final(self).store().tasks() == old(self).store().tasks().insert(
                task_id, paused(old(self).store().tasks()[task_id])),
    {
        match self.scheduler.pause_task(task_id) {
            Err(e) => { return Err(e); },
            Ok(()) => {},
        }
        self.sync_task(task_id);
        Ok(())
    }

    pub fn resume_task(&mut self, task_id: TaskId) -> (r: Result<(), SchedulerError>)
        requires
            old(self).wf(),
        ensures
            final(self).wf(),
            r is Ok <==> old(self).registry().tasks().contains_key(task_id),
            r is Err ==> *final(self) == *old(self),
            r is Ok ==> final(self).store().tasks() == old(self).store().tasks().insert(
                task_id, resumed(old(self).store().tasks()[task_id])),
    {
        match self.scheduler.resume_task(task_id) {
            Err(e) => { return Err(e); },
            Ok(()) => {},
        }
        self.sync_task(task_id);
        Ok(())
    }

    pub fn update_task_at(&mut self, request: TaskUpdateRequest, now: Timestamp) -> (r: Result<ScheduledTask, SchedulerError>)
        requires
            old(self).wf(),
        ensures
            final(self).wf(),
            r is Ok <==> old(self).registry().tasks().contains_key(request.id)
                && (request.cron_expression matches Some(c) ==> cron_valid(c@)),
            r is Err ==> *final(self) == *old(self),
            !old(self).registry().tasks().contains_key(request.id) ==> r == Err::<ScheduledTask, SchedulerError>(
                SchedulerError::JobNotFound(request.id)),
            old(self).registry().tasks().contains_key(request.id) && r is Err ==> (r->Err_0 matches
                SchedulerError::InvalidCronExpression(m) && request.cron_expression == Some(m)),
            r matches Ok(t) ==> t == updated(old(self).registry().tasks()[request.id], request, now)
                && final(self).store().tasks() == old(self).store().tasks().insert(request.id, t),
    {
        let id = request.id;
        match self.scheduler.update_task_at(request, now) {
            Err(e) => Err(e),
            Ok(t) => {
                self.sync_task(id);
                Ok(t)
            },
        }
    }

    pub fn get_task(&self, task_id: TaskId) -> (r: Result<ScheduledTask, SchedulerError>)
        requires
            self.wf(),
        ensures
            r is Ok <==> self.registry().tasks().contains_key(task_id),
            r matches Ok(t) ==> t == self.registry().tasks()[task_id],
    {
        self.scheduler.get_task(task_id)
    }

    /// The tasks, read from the registry, which the store mirrors.
    pub fn list_tasks(&self) -> (r: Vec<ScheduledTask>)
        requires
            self.wf(),
        ensures
            r@ == self.registry().task_list(),
    {
        self.scheduler.list_tasks()
    }

    /// Opens a run, and stores the task and the new instance.
    pub fn start_run(&mut self, task_id: TaskId, user_params: Vec<(String, String)>, instance_id: TaskId, now: Timestamp)
        -> (r: Result<TaskRunInstance, SchedulerError>)
        requires
            old(self).wf(),
        ensures
            final(self).wf(),
            r is Ok <==> old(self).registry().tasks().contains_key(task_id)
                && old(self).registry().executors().contains(task_id)
                && !old(self).registry().instances().contains_key(instance_id),
            r is Err ==> *final(self) == *old(self),
            !old(self).registry().tasks().contains_key(task_id) ==> r == Err::<TaskRunInstance, SchedulerError>(
                SchedulerError::JobNotFound(task_id)),
            old(self).registry().tasks().contains_key(task_id) && !old(self).registry().executors().contains(task_id)
                ==> r == Err::<TaskRunInstance, SchedulerError>(SchedulerError::ExecutorMissing(task_id)),
            r matches Ok(inst) ==> {
                &&& inst.id == instance_id
                &&& inst.task_id == task_id
                &&& inst.user_params@ == user_params@
                &&& inst.status == TaskStatus::Running
                &&& inst.started_at == now
                &&& inst.completed_at is None
                &&& inst.result is None
                &&& final(self).registry().instances() == old(self).registry().instances().insert(
                    instance_id, final(self).registry().instances()[instance_id])
                &&& final(self).registry().instances()[instance_id].same(inst)
                &&& final(self).registry().tasks() == old(self).registry().tasks().insert(task_id, ScheduledTask {
                    status: TaskStatus::Running,
                    last_run: Some(now),
                    ..old(self).registry().tasks()[task_id]
                })
                &&& final(self).store().instances().contains_key(instance_id)
                &&& final(self).store().instances()[instance_id].same(inst)
            },
            final(self).registry().executors() == old(self).registry().executors(),
            final(self).registry().logs() == old(self).registry().logs(),
            final(self).store().logs() == old(self).store().logs(),
    {
        match self.scheduler.start_run(task_id, user_params, instance_id, now) {
            Err(e) => Err(e),
            Ok(inst) => {
                self.sync_task(task_id);
                self.storage.save_run_instance(&inst);
                Ok(inst)
            },
        }
    }

    /// Closes a run with the executor's outcome, and stores the instance and its task.
    pub fn finish_run(&mut self, instance_id: TaskId, outcome: Result<TaskExecutionResult, String>, now: Timestamp)
        -> (r: Result<TaskRunInstance, SchedulerError>)
        requires
            old(self).wf(),
        ensures
            final(self).wf(),
            r is Ok <==> old(self).registry().instances().contains_key(instance_id)
                && !old(self).registry().instances()[instance_id].status.is_terminal(),
            r is Err ==> *final(self) == *old(self),
            !old(self).registry().instances().contains_key(instance_id) ==> r == Err::<TaskRunInstance, SchedulerError>(
                SchedulerError::RunInstanceNotFound(instance_id)),
            r matches Ok(inst) ==> {
                let before = old(self).registry().instances()[instance_id];
                let task_id = before.task_id;
                &&& inst.id == instance_id
                &&& inst.task_id == task_id
                &&& inst.user_params@ == before.user_params@
                &&& inst.started_at == before.started_at
                &&& inst.status == outcome_status(outcome)
                &&& inst.completed_at == Some(now)
                &&& inst.result == match outcome {
                    Ok(res) => Some(res),
                    Err(m) => Some(TaskExecutionResult {
                        task_id,
                        run_instance_id: None,
                        started_at: now,
                        completed_at: Some(now),
                        success: false,
                        error: Some(m),
                        stdout: None,
                        stderr: None,
                        exit_code: None,
                    }),
                }
                &&& final(self).registry().instances() == old(self).registry().instances().insert(
                    instance_id, final(self).registry().instances()[instance_id])
                &&& final(self).registry().instances()[instance_id].same(inst)
                &&& final(self).registry().tasks() == if old(self).registry().tasks().contains_key(task_id) {
                    old(self).registry().tasks().insert(task_id, finished(old(self).registry().tasks()[task_id], outcome, now))
                } else {
                    old(self).registry().tasks()
                }
                &&& final(self).store().instances().contains_key(instance_id)
                &&& final(self).store().instances()[instance_id].same(inst)
            },
            final(self).registry().executors() == old(self).registry().executors(),
            final(self).registry().logs() == old(self).registry().logs(),
            final(self).store().logs() == old(self).store().logs(),
    {
        match self.scheduler.finish_run(instance_id, outcome, now) {
            Err(e) => Err(e),
            Ok(inst) => {
                if self.scheduler.get_task(inst.task_id).is_ok() {
                    self.sync_task(inst.task_id);
                }
                self.storage.save_run_instance(&inst);
                Ok(inst)
            },
        }
    }

    /// Stops a running instance, and stores it and its task.
    pub fn stop_task_at(&mut self, run_instance_id: TaskId, now: Timestamp) -> (r: Result<(), SchedulerError>)
        requires
            old(self).wf(),
        ensures
            final(self).wf(),
            CronTaskScheduler::stop_effect(old(self).registry(), final(self).registry(), run_instance_id, now, r),
            r is Err ==> *final(self) == *old(self),
            r is Ok ==> final(self).store().instances().contains_key(run_instance_id)
                && final(self).store().instances()[run_instance_id].same(final(self).registry().instances()[run_instance_id]),
            final(self).store().logs() == old(self).store().logs(),
    {
        match self.scheduler.stop_task_at(run_instance_id, now) {
            Err(e) => { return Err(e); },
            Ok(()) => {},
        }
        match self.scheduler.get_run_instance(run_instance_id) {
            Ok(inst) => {
                if self.scheduler.get_task(inst.task_id).is_ok() {
                    self.sync_task(inst.task_id);
                }
                self.storage.save_run_instance(&inst);
            },
            Err(_) => {},
        }
        Ok(())
    }

    /// The run instance with this id, from the registry or, failing that,
    /// from the store.
    pub fn get_run_instance(&self, run_instance_id: TaskId) -> (r: Result<TaskRunInstance, SchedulerError>)
        requires
            self.wf(),
        ensures
            r is Ok <==> self.registry().instances().contains_key(run_instance_id)
                || self.store().instances().contains_key(run_instance_id),
            self.registry().instances().contains_key(run_instance_id) ==> (r matches Ok(inst)
                && inst.same(self.registry().instances()[run_instance_id])),
            !self.registry().instances().contains_key(run_instance_id) && self.store().instances().contains_key(
                run_instance_id) ==> (r matches Ok(inst) && inst.same(self.store().instances()[run_instance_id])),
            r matches Err(e) ==> e == SchedulerError::RunInstanceNotFound(run_instance_id),
    {
        match self.scheduler.get_run_instance(run_instance_id) {
            Ok(inst) => Ok(inst),
            Err(_) => match self.storage.load_run_instance(run_instance_id) {
                Some(inst) => Ok(inst),
                None => Err(SchedulerError::RunInstanceNotFound(run_instance_id)),
            },
        }
    }

    /// Appends a log line at `now`, and stores it.
    pub fn add_log_at(&mut self, log_id: TaskId, run_instance_id: TaskId, level: LogLevel, message: String, now: Timestamp)
        -> (r: TaskLog)
        requires
            old(self).wf(),
        ensures
            final(self).wf(),
            r == (TaskLog { id: log_id, run_instance_id, level, message, timestamp: now }),
            final(self).registry().logs() == old(self).registry().logs().push(r),
            final(self).store().logs() == old(self).store().logs().push(r),
    {
        let log = self.scheduler.add_log_at(log_id, run_instance_id, level, message, now);
        self.storage.save_log(&log);
        log
    }

    /// The log lines of a run instance held in the registry or in the
    /// store, restricted to one level if one is given, ordered by timestamp
    /// and with each id once.
    pub fn get_instance_logs(&self, run_instance_id: TaskId, level: Option<LogLevel>) -> (r: Vec<TaskLog>)
        ensures
            r@ == dedup_ids(sorted_logs((self.registry().logs() + self.store().logs()).filter(
                |l: TaskLog| l.run_instance_id == run_instance_id && (level matches Some(lv) ==> l.level == lv)))),
            sorted_by_time(r@),
            forall|a: int, b: int| 0 <= a < b < r@.len() ==> (#[trigger] r@[a]).id != (#[trigger] r@[b]).id,
    {
        let ghost pred = |l: TaskLog| l.run_instance_id == run_instance_id && (level matches Some(lv) ==> l.level == lv);
        let mut all = self.scheduler.log_lines();
        let mut stored = self.storage.list_all_logs();
        all.append(&mut stored);
        let ghost every = all@;
        proof {
            assert(every =~= self.registry().logs() + self.store().logs());
        }
        let mut picked: Vec<TaskLog> = Vec::new();
        let mut i: usize = 0;
        while i < all.len()
            invariant
                i <= all@.len(),
                all@ == every,
                pred == (|l: TaskLog| l.run_instance_id == run_instance_id && (level matches Some(lv) ==> l.level == lv)),
                picked@ == every.subrange(0, i as int).filter(pred),
            decreases all@.len() - i,
        {
            proof {
                lemma_filter_step(every, pred, i as int);
            }
            let keep = all[i].run_instance_id == run_instance_id && match level {
                Some(lv) => all[i].level == lv,
                None => true,
            };
            if keep {
                picked.push(all[i].clone());
            }
            i = i + 1;
        }
        proof {
            assert(every.subrange(0, i as int) =~= every);
        }
        dedup_logs(sort_logs_by_time(picked))
    }

    /// The run instances of a task: those of the registry in creation order,
    /// then those only the store holds.
    pub fn get_task_instances(&self, task_id: TaskId) -> (r: Vec<TaskRunInstance>)
        requires
            self.wf(),
        ensures
            r@.len() == merged_instances(
                self.registry().instance_list().filter(|i: TaskRunInstance| i.task_id == task_id),
                self.store().instance_list().filter(|i: TaskRunInstance| i.task_id == task_id)).len(),
            forall|k: int| 0 <= k < r@.len() ==> (#[trigger] r@[k]).same(merged_instances(
                self.registry().instance_list().filter(|i: TaskRunInstance| i.task_id == task_id),
                self.store().instance_list().filter(|i: TaskRunInstance| i.task_id == task_id))[k]),
    {
        let ghost fa = self.registry().instance_list().filter(|i: TaskRunInstance| i.task_id == task_id);
        let ghost fb = self.store().instance_list().filter(|i: TaskRunInstance| i.task_id == task_id);
        let ghost pred = |x: TaskRunInstance| !has_instance_id(fa, x.id);
        let mut r = self.scheduler.get_task_instances(task_id);
        let na = r.len();
        let b = self.storage.list_run_instances(task_id);
        let mut j: usize = 0;
        while j < b.len()
            invariant
                na == fa.len(),
                b@.len() == fb.len(),
                forall|k: int| 0 <= k < b@.len() ==> (#[trigger] b@[k]).same(fb[k]),
                j <= b@.len(),
                pred == (|x: TaskRunInstance| !has_instance_id(fa, x.id)),
                r@.len() == na + fb.subrange(0, j as int).filter(pred).len(),
                forall|k: int| 0 <= k < na ==> (#[trigger] r@[k]).same(fa[k]),
                forall|k: int| na <= k < r@.len() ==> (#[trigger] r@[k]).same(fb.subrange(0, j as int).filter(pred)[k - na]),
            decreases b@.len() - j,
        {
            proof {
                lemma_filter_step(fb, pred, j as int);
            }
            let id = b[j].id;
            let mut k: usize = 0;
            let mut seen = false;
            while k < na && !seen
                invariant
                    na == fa.len(),
                    na <= r@.len(),
                    forall|q: int| 0 <= q < na ==> (#[trigger] r@[q]).same(fa[q]),
                    k <= na,
                    forall|q: int| 0 <= q < k ==> fa[q].id != id,
                    seen ==> k < na && fa[k as int].id == id,
                decreases na - k + (if seen { 0int } else { 1int }),
            {
                if r[k].id == id {
                    seen = true;
                } else {
                    k = k + 1;
                }
            }
            proof {
                if !seen {
                    assert(!has_instance_id(fa, id));
                }
                assert(b@[j as int].same(fb[j as int]));
            }
            if !seen {
                let x = b[j].clone();
                r.push(x);
            }
            j = j + 1;
        }
        proof {
            assert(fb.subrange(0, j as int) =~= fb);
            let m = merged_instances(fa, fb);
            assert forall|k: int| 0 <= k < r@.len() implies (#[trigger] r@[k]).same(m[k]) by {
                if k < na {
                    assert(m[k] == fa[k]);
                } else {
                    assert(m[k] == fb.filter(pred)[k - na]);
                }
            }
        }
        r
    }

    pub fn get_task_briefing(&self, task_id: TaskId) -> (r: Result<TaskBriefing, SchedulerError>)
        requires
            self.wf(),
        ensures
            r is Ok <==> self.registry().tasks().contains_key(task_id),
            r matches Ok(b) ==> b.describes(self.registry().tasks()[task_id],
                self.registry().instance_list().filter(|i: TaskRunInstance| i.task_id == task_id)),
    {
        self.scheduler.get_task_briefing(task_id)
    }

    /// The ids of the tasks due at `now`, in registration order.
    pub fn due_tasks(&self, now: Timestamp) -> (r: Vec<TaskId>)
        ensures
            r@ == self.registry().task_list().filter(|t: ScheduledTask| CronTaskScheduler::is_due(t, now)).map_values(
                |t: ScheduledTask| t.id,
            ),
    {
        self.scheduler.due_tasks(now)
    }

    pub fn list_running_tasks(&self) -> (r: Vec<ScheduledTask>)
        requires
            self.wf(),
        ensures
            r@ == self.registry().task_list().filter(|t: ScheduledTask| t.status is Running),
    {
        self.scheduler.list_running_tasks()
    }

    /// Empties the registry and the store; returns how many tasks, run
    /// instances and log lines the store held.
    pub fn clear_all_tasks(&mut self) -> (r: (usize, usize, usize))
        requires
            old(self).wf(),
        ensures
            final(self).wf(),
            r == (old(self).store().task_list().len() as usize, old(self).store().instance_list().len() as usize,
                old(self).store().logs().len() as usize),
            final(self).registry().tasks() == Map::<TaskId, ScheduledTask>::empty(),
            final(self).registry().task_list() == Seq::<ScheduledTask>::empty(),
            final(self).registry().instances() == Map::<TaskId, TaskRunInstance>::empty(),
            final(self).registry().logs() == Seq::<TaskLog>::empty(),
            final(self).store().task_list() == Seq::<ScheduledTask>::empty(),
            final(self).store().instance_list() == Seq::<TaskRunInstance>::empty(),
            final(self).store().logs() == Seq::<TaskLog>::empty(),
    {
        self.scheduler.clear_all_tasks();
        let logs = self.storage.clear_all_logs();
        let instances = self.storage.clear_all_instances();
        let tasks = self.storage.clear_all_tasks();
        (tasks, instances, logs)
    }

    pub fn start(&mut self)
        requires
            old(self).wf(),
        ensures
            final(self).wf(),
            final(self).registry().running(),
    {
        self.scheduler.start();
    }

    pub fn stop(&mut self)
        requires
            old(self).wf(),
        ensures
            final(self).wf(),
            !final(self).registry().running(),
    {
        self.scheduler.stop();
    }

    pub fn is_running(&self) -> (r: bool)
        ensures
            r == self.registry().running(),
    {
        self.scheduler.is_running()
    }
}

} // verus!
