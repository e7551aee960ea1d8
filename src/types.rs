//! Records of the scheduler: tasks, run instances, results, logs, briefings.

use vstd::prelude::*;

verus! {

/// Milliseconds since the Unix epoch.
pub type Timestamp = i64;

/// A 128-bit identifier (the integer form of a UUID).
pub type TaskId = u128;

/// State of a task or of one run instance.
#[derive(Debug, Clone, Copy, PartialEq, Eq, Structural)]
pub enum TaskStatus {
    Pending,
    Running,
    Completed,
    Failed,
    Error,
    Expired,
    Paused,
}

impl TaskStatus {
    /// Whether a run that reached this state is over.
    pub open spec fn is_terminal(self) -> bool {
        self is Completed || self is Failed || self is Error
    }

    pub open spec fn label(self) -> Seq<char> {
        match self {
            TaskStatus::Pending => "Pending"@,
            TaskStatus::Running => "Running"@,
            TaskStatus::Completed => "Completed"@,
            TaskStatus::Failed => "Failed"@,
            TaskStatus::Error => "Error"@,
            TaskStatus::Expired => "Expired"@,
            TaskStatus::Paused => "Paused"@,
        }
    }

    /// The display name of the status.
    pub fn to_string(&self) -> (r: String)
        ensures
            r@ == self.label(),
    {
        match self {
            TaskStatus::Pending => String::from_str("Pending"),
            TaskStatus::Running => String::from_str("Running"),
            TaskStatus::Completed => String::from_str("Completed"),
            TaskStatus::Failed => String::from_str("Failed"),
            TaskStatus::Error => String::from_str("Error"),
            TaskStatus::Expired => String::from_str("Expired"),
            TaskStatus::Paused => String::from_str("Paused"),
        }
    }
}

impl Default for TaskStatus {
    /// The status every new task and instance starts with.
    fn default() -> (r: TaskStatus)
        ensures
            r == TaskStatus::Pending,
    {
        TaskStatus::Pending
    }
}

/// Severity of one log line.
#[derive(Debug, Clone, Copy, PartialEq, Eq, Structural)]
pub enum LogLevel {
    Debug,
    Info,
    Warn,
    Error,
}

impl LogLevel {
    pub open spec fn label(self) -> Seq<char> {
        match self {
            LogLevel::Debug => "DEBUG"@,
            LogLevel::Info => "INFO"@,
            LogLevel::Warn => "WARN"@,
            LogLevel::Error => "ERROR"@,
        }
    }

    /// The display name of the level.
    pub fn to_string(&self) -> (r: String)
        ensures
            r@ == self.label(),
    {
        match self {
            LogLevel::Debug => String::from_str("DEBUG"),
            LogLevel::Info => String::from_str("INFO"),
            LogLevel::Warn => String::from_str("WARN"),
            LogLevel::Error => String::from_str("ERROR"),
        }
    }
}

impl Default for LogLevel {
    fn default() -> (r: LogLevel)
        ensures
            r == LogLevel::Info,
    {
        LogLevel::Info
    }
}

/// Copies an optional string.
pub fn clone_opt_string(s: &Option<String>) -> (r: Option<String>)
    ensures
        r == *s,
{
    match s {
        Some(x) => Some(x.clone()),
        None => None,
    }
}

/// Copies a parameter list.
pub fn clone_params(p: &Vec<(String, String)>) -> (r: Vec<(String, String)>)
    ensures
        r@ == p@,
{
    let mut r: Vec<(String, String)> = Vec::new();
    let mut i: usize = 0;
    while i < p.len()
        invariant
            i <= p@.len(),
            r@ == p@.subrange(0, i as int),
        decreases p@.len() - i,
    {
        r.push((p[i].0.clone(), p[i].1.clone()));
        i = i + 1;
        proof {
            assert(r@ =~= p@.subrange(0, i as int));
        }
    }
    r
}

/// A recurring job definition.
pub struct ScheduledTask {
    pub id: TaskId,
    pub title: String,
    /// Short name, used on the command line.
    pub name: String,
    pub description: Option<String>,
    /// The command or text the task carries.
    pub content: Option<String>,
    pub cron_expression: String,
    pub status: TaskStatus,
    pub created_at: Timestamp,
    pub last_run: Option<Timestamp>,
    pub next_run: Option<Timestamp>,
    pub run_count: u64,
    pub enabled: bool,
    /// Whether an operating-system trigger also exists for the task.
    pub is_system: bool,
}

impl Clone for ScheduledTask {
    fn clone(&self) -> (r: Self)
        ensures
            r == *self,
    {
        ScheduledTask {
            id: self.id,
            title: self.title.clone(),
            name: self.name.clone(),
            description: clone_opt_string(&self.description),
            content: clone_opt_string(&self.content),
            cron_expression: self.cron_expression.clone(),
            status: self.status,
            created_at: self.created_at,
            last_run: self.last_run,
            next_run: self.next_run,
            run_count: self.run_count,
            enabled: self.enabled,
            is_system: self.is_system,
        }
    }
}

impl ScheduledTask {
    /// A fresh task as `add` creates it: pending, enabled, never run.
    pub open spec fn is_fresh(self, id: TaskId, created_at: Timestamp, is_system: bool) -> bool {
        &&& self.id == id
        &&& self.status == TaskStatus::Pending
        &&& self.created_at == created_at
        &&& self.last_run is None
        &&& self.next_run is None
        &&& self.run_count == 0
        &&& self.enabled
        &&& self.is_system == is_system
    }

    /// Creates a task that only the in-process trigger fires.
    pub fn new(
        id: TaskId,
        title: String,
        name: String,
        cron_expression: String,
        description: Option<String>,
        content: Option<String>,
        created_at: Timestamp,
    ) -> (r: Self)
        ensures
            r.is_fresh(id, created_at, false),
            r.title == title,
            r.name == name,
            r.cron_expression == cron_expression,
            r.description == description,
            r.content == content,
    {
        ScheduledTask {
            id,
            title,
            name,
            description,
            content,
            cron_expression,
            status: TaskStatus::Pending,
            created_at,
            last_run: None,
            next_run: None,
            run_count: 0,
            enabled: true,
            is_system: false,
        }
    }

    /// Creates a task that an operating-system trigger also fires.
    pub fn new_system(
        id: TaskId,
        title: String,
        name: String,
        cron_expression: String,
        description: Option<String>,
        content: Option<String>,
        created_at: Timestamp,
    ) -> (r: Self)
        ensures
            r.is_fresh(id, created_at, true),
            r.title == title,
            r.name == name,
            r.cron_expression == cron_expression,
            r.description == description,
            r.content == content,
    {
        ScheduledTask {
            id,
            title,
            name,
            description,
            content,
            cron_expression,
            status: TaskStatus::Pending,
            created_at,
            last_run: None,
            next_run: None,
            run_count: 0,
            enabled: true,
            is_system: true,
        }
    }
}

/// The outcome of one executor call.
pub struct TaskExecutionResult {
    pub task_id: TaskId,
    pub run_instance_id: Option<TaskId>,
    pub started_at: Timestamp,
    pub completed_at: Option<Timestamp>,
    pub success: bool,
    pub error: Option<String>,
    pub stdout: Option<String>,
    pub stderr: Option<String>,
    pub exit_code: Option<i32>,
}

impl Clone for TaskExecutionResult {
    fn clone(&self) -> (r: Self)
        ensures
            r == *self,
    {
        TaskExecutionResult {
            task_id: self.task_id,
            run_instance_id: self.run_instance_id,
            started_at: self.started_at,
            completed_at: self.completed_at,
            success: self.success,
            error: clone_opt_string(&self.error),
            stdout: clone_opt_string(&self.stdout),
            stderr: clone_opt_string(&self.stderr),
            exit_code: self.exit_code,
        }
    }
}

/// `completed - started`, where it fits in an `i64`.
pub open spec fn span(started: Timestamp, completed: Option<Timestamp>) -> Option<i64> {
    match completed {
        Some(c) => if i64::MIN <= c - started <= i64::MAX {
            Some((c - started) as i64)
        } else {
            None
        },
        None => None,
    }
}

fn span_ms(started: Timestamp, completed: Option<Timestamp>) -> (r: Option<i64>)
    ensures
        r == span(started, completed),
{
    match completed {
        Some(c) => c.checked_sub(started),
        None => None,
    }
}

impl TaskExecutionResult {
    /// The result of a process that ran to its end: it succeeded iff it exited with 0.
    pub fn success(task_id: TaskId, stdout: String, stderr: String, exit_code: i32, now: Timestamp) -> (r: Self)
        ensures
            r.task_id == task_id,
            r.run_instance_id is None,
            r.started_at == now,
            r.completed_at == Some(now),
            r.success == (exit_code == 0),
            r.error == (if exit_code == 0 { None } else { Some(stderr) }),
            r.stdout == Some(stdout),
            r.stderr == Some(stderr),
            r.exit_code == Some(exit_code),
    {
        let error = if exit_code == 0 { None } else { Some(stderr.clone()) };
        TaskExecutionResult {
            task_id,
            run_instance_id: None,
            started_at: now,
            completed_at: Some(now),
            success: exit_code == 0,
            error,
            stdout: Some(stdout),
            stderr: Some(stderr),
            exit_code: Some(exit_code),
        }
    }

    /// The result of a run that failed with the given message.
    pub fn failure(task_id: TaskId, error: String, now: Timestamp) -> (r: Self)
        ensures
            r.task_id == task_id,
            r.run_instance_id is None,
            r.started_at == now,
            r.completed_at == Some(now),
            !r.success,
            r.error == Some(error),
            r.stdout is None,
            r.stderr is None,
            r.exit_code is None,
    {
        TaskExecutionResult {
            task_id,
            run_instance_id: None,
            started_at: now,
            completed_at: Some(now),
            success: false,
            error: Some(error),
            stdout: None,
            stderr: None,
            exit_code: None,
        }
    }

    /// Milliseconds from start to completion, if completed.
    pub fn duration_ms(&self) -> (r: Option<i64>)
        ensures
            r == span(self.started_at, self.completed_at),
    {
        span_ms(self.started_at, self.completed_at)
    }
}

/// One concrete execution attempt of a task.
pub struct TaskRunInstance {
    pub id: TaskId,
    pub task_id: TaskId,
    /// Parameters supplied by the user for this run, as key/value pairs.
    pub user_params: Vec<(String, String)>,
    pub status: TaskStatus,
    pub started_at: Timestamp,
    pub completed_at: Option<Timestamp>,
    pub result: Option<TaskExecutionResult>,
}

impl Clone for TaskRunInstance {
    fn clone(&self) -> (r: Self)
        ensures
            r.id == self.id,
            r.task_id == self.task_id,
            r.user_params@ == self.user_params@,
            r.status == self.status,
            r.started_at == self.started_at,
            r.completed_at == self.completed_at,
            r.result == self.result,
    {
        let result = match &self.result {
            Some(x) => Some(x.clone()),
            None => None,
        };
        TaskRunInstance {
            id: self.id,
            task_id: self.task_id,
            user_params: clone_params(&self.user_params),
            status: self.status,
            started_at: self.started_at,
            completed_at: self.completed_at,
            result,
        }
    }
}

impl TaskRunInstance {
    /// An instance is open (Pending or Running) with no completion time and no
    /// result, or closed (Completed, Failed or Error) with both; never anything else.
    pub open spec fn wf(self) -> bool {
        &&& (self.status is Pending || self.status is Running || self.status.is_terminal())
        &&& (self.completed_at is None <==> (self.status is Pending || self.status is Running))
        &&& (self.result is None <==> self.completed_at is None)
    }

    /// The same record, up to the copy of its parameter list.
    pub open spec fn same(self, o: TaskRunInstance) -> bool {
        &&& self.id == o.id
        &&& self.task_id == o.task_id
        &&& self.user_params@ == o.user_params@
        &&& self.status == o.status
        &&& self.started_at == o.started_at
        &&& self.completed_at == o.completed_at
        &&& self.result == o.result
    }

    /// A new pending instance.
    pub fn new(id: TaskId, task_id: TaskId, user_params: Vec<(String, String)>, now: Timestamp) -> (r: Self)
        ensures
            r.wf(),
            r.id == id,
            r.task_id == task_id,
            r.user_params == user_params,
            r.status == TaskStatus::Pending,
            r.started_at == now,
            r.completed_at is None,
            r.result is None,
    {
        TaskRunInstance {
            id,
            task_id,
            user_params,
            status: TaskStatus::Pending,
            started_at: now,
            completed_at: None,
            result: None,
        }
    }

    /// Marks an open instance as running.
    pub fn mark_running(&mut self)
        requires
            old(self).wf(),
            !old(self).status.is_terminal(),
        ensures
            final(self).wf(),
            *final(self) == (TaskRunInstance { status: TaskStatus::Running, ..*old(self) }),
    {
        self.status = TaskStatus::Running;
    }

    /// Closes an open instance with the executor's result: Completed when the
    /// result reports success, Failed otherwise.
    pub fn mark_completed(&mut self, result: TaskExecutionResult, now: Timestamp)
        requires
            old(self).wf(),
            !old(self).status.is_terminal(),
        ensures
            final(self).wf(),
            final(self).status == (if result.success { TaskStatus::Completed } else { TaskStatus::Failed }),
            final(self).completed_at == Some(now),
            final(self).result == Some(result),
            final(self).id == old(self).id,
            final(self).task_id == old(self).task_id,
            final(self).user_params == old(self).user_params,
            final(self).started_at == old(self).started_at,
    {
        self.status = if result.success {
            TaskStatus::Completed
        } else {
            TaskStatus::Failed
        };
        self.completed_at = Some(now);
        self.result = Some(result);
    }

    /// Closes an open instance whose executor call itself failed.
    pub fn mark_error(&mut self, error: String, now: Timestamp)
        requires
            old(self).wf(),
            !old(self).status.is_terminal(),
        ensures
            final(self).wf(),
            final(self).status == TaskStatus::Error,
            final(self).completed_at == Some(now),
            final(self).result == Some(TaskExecutionResult {
                task_id: old(self).task_id,
                run_instance_id: None,
                started_at: now,
                completed_at: Some(now),
                success: false,
                error: Some(error),
                stdout: None,
                stderr: None,
                exit_code: None,
            }),
            final(self).id == old(self).id,
            final(self).task_id == old(self).task_id,
            final(self).user_params == old(self).user_params,
            final(self).started_at == old(self).started_at,
    {
        self.status = TaskStatus::Error;
        self.completed_at = Some(now);
        self.result = Some(TaskExecutionResult::failure(self.task_id, error, now));
    }

    /// Milliseconds from start to completion, if completed.
    pub fn duration_ms(&self) -> (r: Option<i64>)
        ensures
            r == span(self.started_at, self.completed_at),
    {
        span_ms(self.started_at, self.completed_at)
    }
}

/// One structured log line of a run instance.
pub struct TaskLog {
    pub id: TaskId,
    pub run_instance_id: TaskId,
    pub level: LogLevel,
    pub message: String,
    pub timestamp: Timestamp,
}

impl Clone for TaskLog {
    fn clone(&self) -> (r: Self)
        ensures
            r == *self,
    {
        TaskLog {
            id: self.id,
            run_instance_id: self.run_instance_id,
            level: self.level,
            message: self.message.clone(),
            timestamp: self.timestamp,
        }
    }
}

impl TaskLog {
    pub fn new(id: TaskId, run_instance_id: TaskId, level: LogLevel, message: String, now: Timestamp) -> (r: Self)
        ensures
            r == (TaskLog { id, run_instance_id, level, message, timestamp: now }),
    {
        TaskLog { id, run_instance_id, level, message, timestamp: now }
    }

    pub fn info(id: TaskId, run_instance_id: TaskId, message: String, now: Timestamp) -> (r: Self)
        ensures
            r == (TaskLog { id, run_instance_id, level: LogLevel::Info, message, timestamp: now }),
    {
        Self::new(id, run_instance_id, LogLevel::Info, message, now)
    }

    pub fn debug(id: TaskId, run_instance_id: TaskId, message: String, now: Timestamp) -> (r: Self)
        ensures
            r == (TaskLog { id, run_instance_id, level: LogLevel::Debug, message, timestamp: now }),
    {
        Self::new(id, run_instance_id, LogLevel::Debug, message, now)
    }

    pub fn warn(id: TaskId, run_instance_id: TaskId, message: String, now: Timestamp) -> (r: Self)
        ensures
            r == (TaskLog { id, run_instance_id, level: LogLevel::Warn, message, timestamp: now }),
    {
        Self::new(id, run_instance_id, LogLevel::Warn, message, now)
    }

    pub fn error(id: TaskId, run_instance_id: TaskId, message: String, now: Timestamp) -> (r: Self)
        ensures
            r == (TaskLog { id, run_instance_id, level: LogLevel::Error, message, timestamp: now }),
    {
        Self::new(id, run_instance_id, LogLevel::Error, message, now)
    }
}

/// A short view of one run instance.
pub struct RunInstanceSummary {
    pub id: TaskId,
    pub status: TaskStatus,
    pub started_at: Timestamp,
    pub completed_at: Option<Timestamp>,
    pub success: bool,
    pub duration_ms: Option<i64>,
}

impl RunInstanceSummary {
    pub open spec fn of(i: TaskRunInstance) -> RunInstanceSummary {
        RunInstanceSummary {
            id: i.id,
            status: i.status,
            started_at: i.started_at,
            completed_at: i.completed_at,
            success: match i.result {
                Some(r) => r.success,
                None => false,
            },
            duration_ms: span(i.started_at, i.completed_at),
        }
    }

    pub fn from(instance: TaskRunInstance) -> (r: Self)
        ensures
            r == Self::of(instance),
    {
        let duration = instance.duration_ms();
        let success = match &instance.result {
            Some(res) => res.success,
            None => false,
        };
        RunInstanceSummary {
            id: instance.id,
            status: instance.status,
            started_at: instance.started_at,
            completed_at: instance.completed_at,
            success,
            duration_ms: duration,
        }
    }
}

/// The position before the first run of `s` that started later than `t`.
pub open spec fn first_started_after(s: Seq<TaskRunInstance>, t: Timestamp) -> int
    decreases s.len(),
{
    if s.len() == 0 {
        0
    } else if s[0].started_at > t {
        0
    } else {
        1 + first_started_after(s.drop_first(), t)
    }
}

proof fn lemma_first_started_after(s: Seq<TaskRunInstance>, t: Timestamp, p: int)
    requires
        0 <= p <= s.len(),
        forall|q: int| 0 <= q < p ==> (#[trigger] s[q]).started_at <= t,
        p == s.len() || s[p].started_at > t,
    ensures
        first_started_after(s, t) == p,
    decreases p,
{
    if p > 0 {
        let d = s.drop_first();
        assert forall|q: int| 0 <= q < p - 1 implies (#[trigger] d[q]).started_at <= t by {
            assert(d[q] == s[q + 1]);
        }
        if p < s.len() {
            assert(d[p - 1] == s[p]);
        }
        lemma_first_started_after(d, t, p - 1);
    }
}

/// `s` ordered by start time, each run placed after every earlier-listed run
/// with the same start time: a stable insertion sort.
pub open spec fn runs_by_start(s: Seq<TaskRunInstance>) -> Seq<TaskRunInstance>
    decreases s.len(),
{
    if s.len() == 0 {
        s
    } else {
        let p = runs_by_start(s.drop_last());
        p.insert(first_started_after(p, s.last().started_at), s.last())
    }
}

/// The two sequences hold the same records, position by position, up to
/// the copy of their parameter lists.
pub open spec fn all_same(a: Seq<TaskRunInstance>, b: Seq<TaskRunInstance>) -> bool {
    a.len() == b.len() && forall|k: int| 0 <= k < a.len() ==> (#[trigger] a[k]).same(b[k])
}

proof fn lemma_first_started_after_bound(s: Seq<TaskRunInstance>, t: Timestamp)
    ensures
        0 <= first_started_after(s, t) <= s.len(),
    decreases s.len(),
{
    if s.len() > 0 {
        lemma_first_started_after_bound(s.drop_first(), t);
    }
}

proof fn lemma_first_started_after_same(a: Seq<TaskRunInstance>, b: Seq<TaskRunInstance>, t: Timestamp)
    requires
        all_same(a, b),
    ensures
        first_started_after(a, t) == first_started_after(b, t),
    decreases a.len(),
{
    if a.len() > 0 {
        assert(a[0].same(b[0]));
        assert(all_same(a.drop_first(), b.drop_first())) by {
            assert forall|k: int| 0 <= k < a.drop_first().len() implies (#[trigger] a.drop_first()[k]).same(b.drop_first()[k]) by {
                assert(a[k + 1].same(b[k + 1]));
            }
        }
        lemma_first_started_after_same(a.drop_first(), b.drop_first(), t);
    }
}

/// Sorting by start time treats copies alike.
pub proof fn lemma_runs_by_start_same(a: Seq<TaskRunInstance>, b: Seq<TaskRunInstance>)
    requires
        all_same(a, b),
    ensures
        all_same(runs_by_start(a), runs_by_start(b)),
        runs_by_start(a).len() == a.len(),
    decreases a.len(),
{
    if a.len() > 0 {
        let da = a.drop_last();
        let db = b.drop_last();
        assert(all_same(da, db)) by {
            assert forall|k: int| 0 <= k < da.len() implies (#[trigger] da[k]).same(db[k]) by {
                assert(a[k].same(b[k]));
            }
        }
        lemma_runs_by_start_same(da, db);
        let pa = runs_by_start(da);
        let pb = runs_by_start(db);
        assert(a.last().same(b.last()));
        lemma_first_started_after_same(pa, pb, a.last().started_at);
        let i = first_started_after(pa, a.last().started_at);
        lemma_first_started_after_bound(pa, a.last().started_at);
        let ra = runs_by_start(a);
        let rb = runs_by_start(b);
        assert(ra == pa.insert(i, a.last()));
        assert(rb == pb.insert(i, b.last()));
        assert forall|k: int| 0 <= k < ra.len() implies (#[trigger] ra[k]).same(rb[k]) by {
            if k < i {
                assert(ra[k] == pa[k] && rb[k] == pb[k]);
            } else if k > i {
                assert(ra[k] == pa[k - 1] && rb[k] == pb[k - 1]);
            }
        }
    }
}

/// Start times never decrease along `s`.
pub open spec fn sorted_by_start(s: Seq<TaskRunInstance>) -> bool {
    forall|i: int, j: int| 0 <= i <= j < s.len() ==> (#[trigger] s[i]).started_at <= (#[trigger] s[j]).started_at
}

/// Orders run instances by start time; equal start times keep their order.
pub fn sort_runs_by_start(runs: Vec<TaskRunInstance>) -> (r: Vec<TaskRunInstance>)
    ensures
        r@ == runs_by_start(runs@),
        sorted_by_start(r@),
        r@.to_multiset() == runs@.to_multiset(),
{
    broadcast use vstd::seq_lib::to_multiset_build, vstd::seq_lib::to_multiset_insert;

    let mut rest = runs;
    let ghost all = rest@;
    let total = rest.len();
    let mut out: Vec<TaskRunInstance> = Vec::new();
    let mut k: usize = 0;
    proof {
        assert(all.subrange(0, 0) =~= Seq::<TaskRunInstance>::empty());
    }
    while rest.len() > 0
        invariant
            k <= all.len() == total,
            rest@ == all.subrange(k as int, all.len() as int),
            sorted_by_start(out@),
            out@.to_multiset() == all.subrange(0, k as int).to_multiset(),
            out@ == runs_by_start(all.subrange(0, k as int)),
        decreases rest@.len(),
    {
        let x = rest.remove(0);
        let mut p: usize = 0;
        while p < out.len() && out[p].started_at <= x.started_at
            invariant
                p <= out@.len(),
                forall|q: int| 0 <= q < p ==> (#[trigger] out@[q]).started_at <= x.started_at,
            decreases out@.len() - p,
        {
            p = p + 1;
        }
        proof {
            assert(all.subrange(0, k as int + 1) =~= all.subrange(0, k as int).push(x));
        }
        let ghost before = out@;
        out.insert(p, x);
        proof {
            assert forall|i: int, j: int| 0 <= i <= j < out@.len() implies
                (#[trigger] out@[i]).started_at <= (#[trigger] out@[j]).started_at by {
                if p < before.len() {
                    assert(x.started_at < before[p as int].started_at);
                }
                if i < p && j < p {
                    assert(out@[i] == before[i] && out@[j] == before[j]);
                } else if i < p && j == p {
                    assert(out@[i] == before[i]);
                } else if i < p {
                    assert(out@[i] == before[i] && out@[j] == before[j - 1]);
                } else if i == p && j > p {
                    assert(out@[j] == before[j - 1]);
                    assert(before[p as int].started_at <= before[j - 1].started_at);
                } else if i > p {
                    assert(out@[i] == before[i - 1] && out@[j] == before[j - 1]);
                }
            }
        }
        proof {
            lemma_first_started_after(before, x.started_at, p as int);
            assert(all.subrange(0, k as int + 1).drop_last() =~= all.subrange(0, k as int));
            vstd::seq_lib::to_multiset_insert(before, p as int, x);
            vstd::seq_lib::to_multiset_build(all.subrange(0, k as int), x);
            assert(out@ == before.insert(p as int, x));
        }
        k = k + 1;
        proof {
            assert(rest@ =~= all.subrange(k as int, all.len() as int));
        }
    }
    proof {
        assert(all.subrange(0, k as int) =~= all);
    }
    out
}

/// How many recent run instances a briefing shows.
pub const BRIEFING_WINDOW: usize = 5;

/// A task together with a summary of its most recent run instances.
pub struct TaskBriefing {
    pub task_id: TaskId,
    pub title: String,
    pub name: String,
    pub description: Option<String>,
    pub status: TaskStatus,
    pub cron_expression: String,
    pub created_at: Timestamp,
    pub last_run: Option<Timestamp>,
    pub next_run: Option<Timestamp>,
    pub run_count: u64,
    pub enabled: bool,
    pub is_system: bool,
    pub recent_instances: Vec<RunInstanceSummary>,
}

impl TaskBriefing {
    /// The briefing of `task` over `instances`: the task's fields and the
    /// summaries of the few instances that started last, the latest first
    /// (of runs that started at the same time, the later listed counts as
    /// the more recent).
    pub open spec fn describes(self, task: ScheduledTask, instances: Seq<TaskRunInstance>) -> bool {
        let n = if instances.len() < BRIEFING_WINDOW { instances.len() } else { BRIEFING_WINDOW as nat };
        &&& self.task_id == task.id
        &&& self.title == task.title
        &&& self.name == task.name
        &&& self.description == task.description
        &&& self.status == task.status
        &&& self.cron_expression == task.cron_expression
        &&& self.created_at == task.created_at
        &&& self.last_run == task.last_run
        &&& self.next_run == task.next_run
        &&& self.run_count == task.run_count
        &&& self.enabled == task.enabled
        &&& self.is_system == task.is_system
        &&& self.recent_instances@.len() == n
        &&& forall|k: int| 0 <= k < n ==> #[trigger] self.recent_instances@[k]
            == RunInstanceSummary::of(runs_by_start(instances)[instances.len() - 1 - k])
    }

    pub fn from_task(task: &ScheduledTask, instances: Vec<TaskRunInstance>) -> (r: Self)
        ensures
            r.describes(*task, instances@),
    {
        let mut recent: Vec<RunInstanceSummary> = Vec::new();
        let ghost given = instances@;
        let mut rest = sort_runs_by_start(instances);
        let ghost all = rest@;
        proof {
            vstd::seq_lib::to_multiset_len(all);
            vstd::seq_lib::to_multiset_len(given);
        }
        let n: usize = if rest.len() < BRIEFING_WINDOW { rest.len() } else { BRIEFING_WINDOW };
        let mut i: usize = 0;
        while i < n
            invariant
                n <= all.len(),
                i <= n,
                rest@ == all.subrange(0, all.len() - i),
                recent@.len() == i,
                forall|k: int| 0 <= k < i ==> #[trigger] recent@[k] == RunInstanceSummary::of(all[all.len() - 1 - k]),
            decreases n - i,
        {
            let inst = rest.pop().unwrap();
            proof {
                assert(inst == all[all.len() - 1 - i]);
            }
            recent.push(RunInstanceSummary::from(inst));
            i = i + 1;
            proof {
                assert(rest@ =~= all.subrange(0, all.len() - i));
            }
        }
        TaskBriefing {
            task_id: task.id,
            title: task.title.clone(),
            name: task.name.clone(),
            description: clone_opt_string(&task.description),
            status: task.status,
            cron_expression: task.cron_expression.clone(),
            created_at: task.created_at,
            last_run: task.last_run,
            next_run: task.next_run,
            run_count: task.run_count,
            enabled: task.enabled,
            is_system: task.is_system,
            recent_instances: recent,
        }
    }
}

/// A partial update of a task: each present field replaces the task's own.
pub struct TaskUpdateRequest {
    pub id: TaskId,
    pub title: Option<String>,
    pub description: Option<String>,
    pub content: Option<String>,
    pub cron_expression: Option<String>,
    pub enabled: Option<bool>,
}

impl TaskUpdateRequest {
    /// Rejects a present but empty title or cron expression.
    pub fn validate(&self) -> (r: Result<(), &'static str>)
        ensures
            r is Err <==> ((self.title is Some && self.title->0@.len() == 0)
                || (self.cron_expression is Some && self.cron_expression->0@.len() == 0)),
            (self.title is Some && self.title->0@.len() == 0) ==> r == Err::<(), &'static str>("Title cannot be empty"),
            !(self.title is Some && self.title->0@.len() == 0) && r is Err
                ==> r == Err::<(), &'static str>("Cron expression cannot be empty"),
    {
        if let Some(t) = &self.title {
            if t.as_str().is_empty() {
                return Err("Title cannot be empty");
            }
        }
        if let Some(c) = &self.cron_expression {
            if c.as_str().is_empty() {
                return Err("Cron expression cannot be empty");
            }
        }
        Ok(())
    }
}

} // verus!
