//! The durable store of tasks, run instances and log lines: its key scheme,
//! its prefix scans, and an in-memory implementation with the same contract.

use vstd::prelude::*;
use vstd::seq_lib::{to_multiset_build, to_multiset_insert};

use crate::keyed::{keyed, lemma_filter_step, lemma_keyed_absent, lemma_keyed_index, lemma_keyed_push, lemma_keyed_update, unique_keys};
use crate::runtime::{id_text, id_to_string};
use crate::scheduler::{instance_key, task_key, CronTaskScheduler};
use crate::types::{ScheduledTask, TaskId, TaskLog, TaskRunInstance, Timestamp};

verus! {

/// Why a store operation failed.
#[derive(Debug)]
pub enum SchedulerStorageError {
    SerializationError(String),
    StorageError(String),
    NotFound(String),
}

pub open spec fn task_prefix() -> Seq<char> {
    "task:"@
}

pub open spec fn instance_prefix() -> Seq<char> {
    "instance:"@
}

pub open spec fn log_prefix() -> Seq<char> {
    "log:"@
}

/// The key of a task record: `task:<id>`.
pub fn task_record_key(id: TaskId) -> (r: String)
    ensures
        r@ == task_prefix() + id_text(id),
{
    let mut k = String::from_str("task:");
    let t = id_to_string(id);
    k.append(t.as_str());
    k
}

/// The key of a run-instance record: `instance:<id>`.
pub fn instance_record_key(id: TaskId) -> (r: String)
    ensures
        r@ == instance_prefix() + id_text(id),
{
    let mut k = String::from_str("instance:");
    let t = id_to_string(id);
    k.append(t.as_str());
    k
}

/// The key of a log record: `log:<id>`.
pub fn log_record_key(id: TaskId) -> (r: String)
    ensures
        r@ == log_prefix() + id_text(id),
{
    let mut k = String::from_str("log:");
    let t = id_to_string(id);
    k.append(t.as_str());
    k
}

pub open spec fn has_prefix(s: Seq<char>, p: Seq<char>) -> bool {
    p.len() <= s.len() && s.subrange(0, p.len() as int) == p
}

/// Whether `s` starts with `p`.
pub fn starts_with(s: &str, p: &str) -> (r: bool)
    ensures
        r == has_prefix(s@, p@),
{
    let n = s.unicode_len();
    let m = p.unicode_len();
    if m > n {
        return false;
    }
    let mut i: usize = 0;
    while i < m
        invariant
            m <= n,
            n == s@.len(),
            m == p@.len(),
            i <= m,
            forall|k: int| 0 <= k < i ==> s@[k] == p@[k],
        decreases m - i,
    {
        if s.get_char(i) != p.get_char(i) {
            proof {
                assert(s@.subrange(0, m as int)[i as int] != p@[i as int]);
            }
            return false;
        }
        i = i + 1;
    }
    proof {
        assert(s@.subrange(0, m as int) =~= p@);
    }
    true
}

/// The keys that start with `prefix`, in their order.
pub fn keys_with_prefix(keys: &Vec<String>, prefix: &str) -> (r: Vec<String>)
    ensures
        r@.len() == keys@.filter(|k: String| has_prefix(k@, prefix@)).len(),
        forall|i: int| 0 <= i < r@.len() ==> #[trigger] r@[i] == keys@.filter(|k: String| has_prefix(k@, prefix@))[i],
{
    let ghost pred = |k: String| has_prefix(k@, prefix@);
    let mut r: Vec<String> = Vec::new();
    let mut i: usize = 0;
    while i < keys.len()
        invariant
            pred == (|k: String| has_prefix(k@, prefix@)),
            i <= keys@.len(),
            r@ == keys@.subrange(0, i as int).filter(pred),
        decreases keys@.len() - i,
    {
        proof {
            lemma_filter_step(keys@, pred, i as int);
        }
        if starts_with(keys[i].as_str(), prefix) {
            r.push(keys[i].clone());
        }
        i = i + 1;
    }
    proof {
        assert(keys@.subrange(0, i as int) =~= keys@);
    }
    r
}

/// Timestamps never decrease along `s`.
pub open spec fn sorted_by_time(s: Seq<TaskLog>) -> bool {
    forall|i: int, j: int| 0 <= i <= j < s.len() ==> (#[trigger] s[i]).timestamp <= (#[trigger] s[j]).timestamp
}

/// The position before the first line of `s` later than `t`.
pub open spec fn first_later(s: Seq<TaskLog>, t: Timestamp) -> int
    decreases s.len(),
{
    if s.len() == 0 {
        0
    } else if s[0].timestamp > t {
        0
    } else {
        1 + first_later(s.drop_first(), t)
    }
}

proof fn lemma_first_later(s: Seq<TaskLog>, t: Timestamp, p: int)
    requires
        0 <= p <= s.len(),
        forall|q: int| 0 <= q < p ==> (#[trigger] s[q]).timestamp <= t,
        p == s.len() || s[p].timestamp > t,
    ensures
        first_later(s, t) == p,
    decreases p,
{
    if p > 0 {
        let d = s.drop_first();
        assert forall|q: int| 0 <= q < p - 1 implies (#[trigger] d[q]).timestamp <= t by {
            assert(d[q] == s[q + 1]);
        }
        if p < s.len() {
            assert(d[p - 1] == s[p]);
        }
        lemma_first_later(d, t, p - 1);
    }
}

/// `s` ordered by timestamp, each line placed after every earlier line with
/// the same timestamp: a stable insertion sort.
pub open spec fn sorted_logs(s: Seq<TaskLog>) -> Seq<TaskLog>
    decreases s.len(),
{
    if s.len() == 0 {
        s
    } else {
        let p = sorted_logs(s.drop_last());
        p.insert(first_later(p, s.last().timestamp), s.last())
    }
}

/// Orders log lines by timestamp; lines with equal timestamps keep their order.
pub fn sort_logs_by_time(logs: Vec<TaskLog>) -> (r: Vec<TaskLog>)
    ensures
        r@ == sorted_logs(logs@),
        sorted_by_time(r@),
        r@.to_multiset() == logs@.to_multiset(),
{
    broadcast use to_multiset_build, to_multiset_insert;

    let mut rest = logs;
    let ghost all = rest@;
    let total = rest.len();
    let mut out: Vec<TaskLog> = Vec::new();
    let mut k: usize = 0;
    proof {
        assert(all.subrange(0, 0) =~= Seq::<TaskLog>::empty());
    }
    while rest.len() > 0
        invariant
            k <= all.len() == total,
            rest@ == all.subrange(k as int, all.len() as int),
            sorted_by_time(out@),
            out@.to_multiset() == all.subrange(0, k as int).to_multiset(),
            out@ == sorted_logs(all.subrange(0, k as int)),
        decreases rest@.len(),
    {
        let x = rest.remove(0);
        let mut p: usize = 0;
        while p < out.len() && out[p].timestamp <= x.timestamp
            invariant
                p <= out@.len(),
                forall|q: int| 0 <= q < p ==> (#[trigger] out@[q]).timestamp <= x.timestamp,
            decreases out@.len() - p,
        {
            p = p + 1;
        }
        proof {
            assert(all.subrange(0, k as int + 1) =~= all.subrange(0, k as int).push(x));
        }
        let ghost before = out@;
        out.insert(p, x);
        proof {
            assert forall|i: int, j: int| 0 <= i <= j < out@.len() implies
                (#[trigger] out@[i]).timestamp <= (#[trigger] out@[j]).timestamp by {
                if p < before.len() {
                    assert(x.timestamp < before[p as int].timestamp);
                }
                if i < p && j < p {
                    assert(out@[i] == before[i] && out@[j] == before[j]);
                } else if i < p && j == p {
                    assert(out@[i] == before[i]);
                } else if i < p {
                    assert(out@[i] == before[i] && out@[j] == before[j - 1]);
                } else if i == p && j > p {
                    assert(out@[j] == before[j - 1]);
                    assert(before[p as int].timestamp <= before[j - 1].timestamp);
                } else if i > p {
                    assert(out@[i] == before[i - 1] && out@[j] == before[j - 1]);
                }
            }
        }
        proof {
            lemma_first_later(before, x.timestamp, p as int);
            assert(all.subrange(0, k as int + 1).drop_last() =~= all.subrange(0, k as int));
            to_multiset_insert(before, p as int, x);
            to_multiset_build(all.subrange(0, k as int), x);
            assert(out@ == before.insert(p as int, x));
        }
        k = k + 1;
        proof {
            assert(rest@ =~= all.subrange(k as int, all.len() as int));
        }
    }
    proof {
        assert(all.subrange(0, k as int) =~= all);
    }
    out
}

/// Whether some line of `s` has the id `id`.
pub open spec fn has_log_id(s: Seq<TaskLog>, id: TaskId) -> bool {
    exists|k: int| 0 <= k < s.len() && s[k].id == id
}

/// `s` without the lines whose id an earlier line already has.
pub open spec fn dedup_ids(s: Seq<TaskLog>) -> Seq<TaskLog>
    decreases s.len(),
{
    if s.len() == 0 {
        s
    } else if has_log_id(s.drop_last(), s.last().id) {
        dedup_ids(s.drop_last())
    } else {
        dedup_ids(s.drop_last()).push(s.last())
    }
}

/// Dropping repeated ids keeps every id.
pub proof fn lemma_dedup_ids_has(s: Seq<TaskLog>, id: TaskId)
    ensures
        has_log_id(dedup_ids(s), id) <==> has_log_id(s, id),
    decreases s.len(),
{
    if s.len() > 0 {
        let d = s.drop_last();
        lemma_dedup_ids_has(d, id);
        if has_log_id(d, id) {
            let k = choose|k: int| 0 <= k < d.len() && d[k].id == id;
            assert(s[k] == d[k]);
        }
        if has_log_id(s, id) && !has_log_id(d, id) {
            let k = choose|k: int| 0 <= k < s.len() && s[k].id == id;
            if k < d.len() {
                assert(d[k] == s[k]);
            }
        }
        if has_log_id(dedup_ids(s), id) {
            if !has_log_id(d, s.last().id) {
                let e = dedup_ids(d);
                let k = choose|k: int| 0 <= k < e.push(s.last()).len() && e.push(s.last())[k].id == id;
                if k < e.len() {
                    assert(e.push(s.last())[k] == e[k]);
                }
            }
        }
        if has_log_id(s, id) && !has_log_id(d, s.last().id) {
            let e = dedup_ids(d);
            assert(e.push(s.last())[e.len() as int] == s.last());
            if has_log_id(e, id) {
                let k = choose|k: int| 0 <= k < e.len() && e[k].id == id;
                assert(e.push(s.last())[k] == e[k]);
            }
        }
        if has_log_id(s, id) && has_log_id(d, s.last().id) && !has_log_id(d, id) {
            let k = choose|k: int| 0 <= k < d.len() && d[k].id == s.last().id;
            assert(s[k] == d[k]);
        }
    }
}

/// Drops the lines whose id an earlier line already has; the order is kept.
pub fn dedup_logs(v: Vec<TaskLog>) -> (r: Vec<TaskLog>)
    ensures
        r@ == dedup_ids(v@),
        forall|a: int, b: int| 0 <= a < b < r@.len() ==> (#[trigger] r@[a]).id != (#[trigger] r@[b]).id,
        sorted_by_time(v@) ==> sorted_by_time(r@),
{
    let mut rest = v;
    let ghost all = rest@;
    let total = rest.len();
    let mut out: Vec<TaskLog> = Vec::new();
    let mut i: usize = 0;
    while rest.len() > 0
        invariant
            i <= all.len() == total,
            all == v@,
            rest@ == all.subrange(i as int, all.len() as int),
            out@ == dedup_ids(all.subrange(0, i as int)),
            forall|a: int, b: int| 0 <= a < b < out@.len() ==> (#[trigger] out@[a]).id != (#[trigger] out@[b]).id,
            sorted_by_time(all) ==> sorted_by_time(out@),
            sorted_by_time(all) ==> forall|q: int, j: int| 0 <= q < out@.len() && i <= j < all.len()
                ==> (#[trigger] out@[q]).timestamp <= (#[trigger] all[j]).timestamp,
        decreases rest@.len(),
    {
        let x = rest.remove(0);
        let ghost pre = all.subrange(0, i as int);
        proof {
            assert(x == all[i as int]);
            assert(all.subrange(0, i as int + 1).drop_last() =~= pre);
            lemma_dedup_ids_has(pre, x.id);
        }
        let mut k: usize = 0;
        let mut seen = false;
        while k < out.len() && !seen
            invariant
                k <= out@.len(),
                forall|q: int| 0 <= q < k ==> out@[q].id != x.id,
                seen ==> k < out@.len() && out@[k as int].id == x.id,
            decreases out@.len() - k + (if seen { 0int } else { 1int }),
        {
            if out[k].id == x.id {
                seen = true;
            } else {
                k = k + 1;
            }
        }
        let ghost before = out@;
        if !seen {
            out.push(x);
            proof {
                if sorted_by_time(all) {
                    assert forall|a: int, b: int| 0 <= a <= b < out@.len() implies
                        (#[trigger] out@[a]).timestamp <= (#[trigger] out@[b]).timestamp by {
                        if b < before.len() {
                            assert(out@[a] == before[a] && out@[b] == before[b]);
                        } else if a < before.len() {
                            assert(out@[a] == before[a] && out@[b] == all[i as int]);
                        }
                    }
                    assert forall|q: int, j: int| 0 <= q < out@.len() && i + 1 <= j < all.len() implies
                        (#[trigger] out@[q]).timestamp <= (#[trigger] all[j]).timestamp by {
                        if q < before.len() {
                            assert(out@[q] == before[q]);
                        } else {
                            assert(out@[q] == all[i as int]);
                        }
                    }
                }
            }
        } else {
            proof {
                assert(has_log_id(dedup_ids(pre), x.id));
            }
        }
        i = i + 1;
        proof {
            assert(rest@ =~= all.subrange(i as int, all.len() as int));
        }
    }
    proof {
        assert(all.subrange(0, i as int) =~= all);
    }
    out
}

/// A store held in memory, with the contract of the durable one.
pub struct MemorySchedulerStorage {
    tasks: Vec<ScheduledTask>,
    instances: Vec<TaskRunInstance>,
    logs: Vec<TaskLog>,
}

impl MemorySchedulerStorage {
    /// The stored tasks, by id.
    pub closed spec fn tasks(&self) -> Map<TaskId, ScheduledTask> {
        keyed(self.tasks@, task_key())
    }

    /// The stored tasks, in the order they were first saved.
    pub closed spec fn task_list(&self) -> Seq<ScheduledTask> {
        self.tasks@
    }

    /// The stored run instances, by id.
    pub closed spec fn instances(&self) -> Map<TaskId, TaskRunInstance> {
        keyed(self.instances@, instance_key())
    }

    /// The stored run instances, in the order they were first saved.
    pub closed spec fn instance_list(&self) -> Seq<TaskRunInstance> {
        self.instances@
    }

    /// The stored log lines, in the order they were saved.
    pub closed spec fn logs(&self) -> Seq<TaskLog> {
        self.logs@
    }

    pub closed spec fn wf(&self) -> bool {
        unique_keys(self.tasks@, task_key()) && unique_keys(self.instances@, instance_key())
    }

    /// The list views and the map views agree.
    pub proof fn lemma_views(&self)
        requires
            self.wf(),
        ensures
            unique_keys(self.instance_list(), instance_key()),
            keyed(self.instance_list(), instance_key()) == self.instances(),
            unique_keys(self.task_list(), task_key()),
            keyed(self.task_list(), task_key()) == self.tasks(),
    {
    }

    pub fn new() -> (r: Self)
        ensures
            r.wf(),
            r.tasks() == Map::<TaskId, ScheduledTask>::empty(),
            r.task_list() == Seq::<ScheduledTask>::empty(),
            r.instances() == Map::<TaskId, TaskRunInstance>::empty(),
            r.instance_list() == Seq::<TaskRunInstance>::empty(),
            r.logs() == Seq::<TaskLog>::empty(),
    {
        MemorySchedulerStorage { tasks: Vec::new(), instances: Vec::new(), logs: Vec::new() }
    }

    fn find_task(&self, id: TaskId) -> (r: Option<usize>)
        requires
            self.wf(),
        ensures
            r matches Some(i) ==> i < self.tasks@.len() && self.tasks@[i as int].id == id
                && self.tasks().contains_key(id) && self.tasks()[id] == self.tasks@[i as int],
            r is None ==> !self.tasks().contains_key(id),
    {
        let mut i: usize = 0;
        while i < self.tasks.len()
            invariant
                self.wf(),
                i <= self.tasks@.len(),
                forall|k: int| 0 <= k < i ==> (#[trigger] self.tasks@[k]).id != id,
            decreases self.tasks@.len() - i,
        {
            if self.tasks[i].id == id {
                proof {
                    lemma_keyed_index(self.tasks@, task_key(), i as int);
                }
                return Some(i);
            }
            i = i + 1;
        }
        proof {
            lemma_keyed_absent(self.tasks@, task_key(), id);
        }
        None
    }

    fn find_instance(&self, id: TaskId) -> (r: Option<usize>)
        requires
            self.wf(),
        ensures
            r matches Some(i) ==> i < self.instances@.len() && self.instances@[i as int].id == id
                && self.instances().contains_key(id) && self.instances()[id] == self.instances@[i as int],
            r is None ==> !self.instances().contains_key(id),
    {
        let mut i: usize = 0;
        while i < self.instances.len()
            invariant
                self.wf(),
                i <= self.instances@.len(),
                forall|k: int| 0 <= k < i ==> (#[trigger] self.instances@[k]).id != id,
            decreases self.instances@.len() - i,
        {
            if self.instances[i].id == id {
                proof {
                    lemma_keyed_index(self.instances@, instance_key(), i as int);
                }
                return Some(i);
            }
            i = i + 1;
        }
        proof {
            lemma_keyed_absent(self.instances@, instance_key(), id);
        }
        None
    }

    /// Writes a task under its id, in place of any earlier record.
    pub fn save_task(&mut self, task: &ScheduledTask)
        requires
            old(self).wf(),
        ensures
            final(self).wf(),
            final(self).tasks() == old(self).tasks().insert(task.id, *task),
            final(self).instances() == old(self).instances(),
            final(self).instance_list() == old(self).instance_list(),
            final(self).logs() == old(self).logs(),
    {
        let t = task.clone();
        match self.find_task(task.id) {
            Some(i) => {
                proof {
                    lemma_keyed_update(self.tasks@, task_key(), i as int, t);
                }
                self.tasks.set(i, t);
            },
            None => {
                proof {
                    lemma_keyed_push(self.tasks@, task_key(), t);
                }
                self.tasks.push(t);
            },
        }
    }

    /// The task stored under `task_id`, if any.
    pub fn load_task(&self, task_id: TaskId) -> (r: Option<ScheduledTask>)
        requires
            self.wf(),
        ensures
            r == if self.tasks().contains_key(task_id) { Some(self.tasks()[task_id]) } else { None::<ScheduledTask> },
    {
        match self.find_task(task_id) {
            Some(i) => Some(self.tasks[i].clone()),
            None => None,
        }
    }

    /// Deletes the task stored under `task_id`; deleting an absent one is harmless.
    pub fn delete_task(&mut self, task_id: TaskId)
        requires
            old(self).wf(),
        ensures
            final(self).wf(),
            final(self).tasks() == old(self).tasks().remove(task_id),
            final(self).instances() == old(self).instances(),
            final(self).instance_list() == old(self).instance_list(),
            final(self).logs() == old(self).logs(),
    {
        match self.find_task(task_id) {
            Some(i) => {
                proof {
                    crate::keyed::lemma_keyed_remove(self.tasks@, task_key(), i as int);
                }
                self.tasks.remove(i);
            },
            None => {
                proof {
                    assert(old(self).tasks().remove(task_id) =~= old(self).tasks());
                }
            },
        }
    }

    /// All stored tasks.
    pub fn list_tasks(&self) -> (r: Vec<ScheduledTask>)
        requires
            self.wf(),
        ensures
            r@ == self.task_list(),
            unique_keys(r@, task_key()),
            keyed(r@, task_key()) == self.tasks(),
    {
        let mut r: Vec<ScheduledTask> = Vec::new();
        let mut i: usize = 0;
        while i < self.tasks.len()
            invariant
                i <= self.tasks@.len(),
                r@ == self.tasks@.subrange(0, i as int),
            decreases self.tasks@.len() - i,
        {
            r.push(self.tasks[i].clone());
            i = i + 1;
            proof {
                assert(r@ =~= self.tasks@.subrange(0, i as int));
            }
        }
        proof {
            assert(r@ =~= self.tasks@);
        }
        r
    }

    /// Deletes every task; returns how many there were.
    pub fn clear_all_tasks(&mut self) -> (r: usize)
        requires
            old(self).wf(),
        ensures
            final(self).wf(),
            r == old(self).task_list().len(),
            final(self).tasks() == Map::<TaskId, ScheduledTask>::empty(),
            final(self).task_list() == Seq::<ScheduledTask>::empty(),
            final(self).instances() == old(self).instances(),
            final(self).instance_list() == old(self).instance_list(),
            final(self).logs() == old(self).logs(),
    {
        let n = self.tasks.len();
        self.tasks = Vec::new();
        n
    }

    /// Writes a run instance under its id, in place of any earlier record.
    pub fn save_run_instance(&mut self, instance: &TaskRunInstance)
        requires
            old(self).wf(),
        ensures
            final(self).wf(),
            final(self).instances().contains_key(instance.id),
            final(self).instances()[instance.id].same(*instance),
            final(self).instances() == old(self).instances().insert(instance.id, final(self).instances()[instance.id]),
            final(self).tasks() == old(self).tasks(),
            final(self).task_list() == old(self).task_list(),
            final(self).logs() == old(self).logs(),
    {
        let x = instance.clone();
        match self.find_instance(instance.id) {
            Some(i) => {
                proof {
                    lemma_keyed_update(self.instances@, instance_key(), i as int, x);
                    lemma_keyed_index(self.instances@.update(i as int, x), instance_key(), i as int);
                }
                self.instances.set(i, x);
            },
            None => {
                proof {
                    lemma_keyed_push(self.instances@, instance_key(), x);
                }
                self.instances.push(x);
            },
        }
    }

    /// The run instance stored under `instance_id`, if any.
    pub fn load_run_instance(&self, instance_id: TaskId) -> (r: Option<TaskRunInstance>)
        requires
            self.wf(),
        ensures
            r is Some <==> self.instances().contains_key(instance_id),
            r matches Some(x) ==> x.same(self.instances()[instance_id]),
    {
        match self.find_instance(instance_id) {
            Some(i) => Some(self.instances[i].clone()),
            None => None,
        }
    }

    /// The stored run instances of a task.
    pub fn list_run_instances(&self, task_id: TaskId) -> (r: Vec<TaskRunInstance>)
        ensures
            r@.len() == self.instance_list().filter(|i: TaskRunInstance| i.task_id == task_id).len(),
            forall|k: int| 0 <= k < r@.len() ==>
                (#[trigger] r@[k]).same(self.instance_list().filter(|i: TaskRunInstance| i.task_id == task_id)[k]),
    {
        let ghost pred = |i: TaskRunInstance| i.task_id == task_id;
        let mut r: Vec<TaskRunInstance> = Vec::new();
        let mut i: usize = 0;
        while i < self.instances.len()
            invariant
                i <= self.instances@.len(),
                pred == (|i: TaskRunInstance| i.task_id == task_id),
                r@.len() == self.instances@.subrange(0, i as int).filter(pred).len(),
                forall|k: int| 0 <= k < r@.len() ==>
                    (#[trigger] r@[k]).same(self.instances@.subrange(0, i as int).filter(pred)[k]),
            decreases self.instances@.len() - i,
        {
            proof {
                lemma_filter_step(self.instances@, pred, i as int);
            }
            if self.instances[i].task_id == task_id {
                r.push(self.instances[i].clone());
            }
            i = i + 1;
        }
        proof {
            assert(self.instances@.subrange(0, i as int) =~= self.instances@);
        }
        r
    }

    /// All stored run instances, in the order they were first saved.
    pub fn list_all_instances(&self) -> (r: Vec<TaskRunInstance>)
        ensures
            r@.len() == self.instance_list().len(),
            forall|k: int| 0 <= k < r@.len() ==> (#[trigger] r@[k]).same(self.instance_list()[k]),
    {
        let mut r: Vec<TaskRunInstance> = Vec::new();
        let mut i: usize = 0;
        while i < self.instances.len()
            invariant
                i <= self.instances@.len(),
                r@.len() == i,
                forall|k: int| 0 <= k < i ==> (#[trigger] r@[k]).same(self.instances@[k]),
            decreases self.instances@.len() - i,
        {
            r.push(self.instances[i].clone());
            i = i + 1;
        }
        r
    }

    /// All stored log lines, in the order they were saved.
    pub fn list_all_logs(&self) -> (r: Vec<TaskLog>)
        ensures
            r@ == self.logs(),
    {
        let mut r: Vec<TaskLog> = Vec::new();
        let mut i: usize = 0;
        while i < self.logs.len()
            invariant
                i <= self.logs@.len(),
                r@ == self.logs@.subrange(0, i as int),
            decreases self.logs@.len() - i,
        {
            r.push(self.logs[i].clone());
            i = i + 1;
            proof {
                assert(r@ =~= self.logs@.subrange(0, i as int));
            }
        }
        proof {
            assert(r@ =~= self.logs@);
        }
        r
    }

    /// Deletes every stored run instance of a task.
    pub fn delete_run_instances(&mut self, task_id: TaskId)
        requires
            old(self).wf(),
        ensures
            final(self).wf(),
            final(self).instance_list() == old(self).instance_list().filter(|i: TaskRunInstance| i.task_id != task_id),
            final(self).tasks() == old(self).tasks(),
            final(self).task_list() == old(self).task_list(),
            final(self).logs() == old(self).logs(),
    {
        let ghost pred = |x: TaskRunInstance| x.task_id != task_id;
        let mut rest: Vec<TaskRunInstance> = Vec::new();
        std::mem::swap(&mut rest, &mut self.instances);
        let ghost all = rest@;
        let total = rest.len();
        let mut k: usize = 0;
        while rest.len() > 0
            invariant
                pred == (|x: TaskRunInstance| x.task_id != task_id),
                k <= all.len() == total,
                all == old(self).instances@,
                rest@ == all.subrange(k as int, all.len() as int),
                self.instances@ == all.subrange(0, k as int).filter(pred),
                self.tasks@ == old(self).tasks@,
                self.logs@ == old(self).logs@,
            decreases rest@.len(),
        {
            proof {
                lemma_filter_step(all, pred, k as int);
            }
            let x = rest.remove(0);
            if x.task_id != task_id {
                self.instances.push(x);
            }
            k = k + 1;
            proof {
                assert(rest@ =~= all.subrange(k as int, all.len() as int));
            }
        }
        proof {
            assert(all.subrange(0, k as int) =~= all);
            crate::keyed::lemma_filter_unique(all, instance_key(), pred);
        }
    }

    /// Deletes the log lines of every stored run instance of a task.
    pub fn delete_task_logs(&mut self, task_id: TaskId)
        requires
            old(self).wf(),
        ensures
            final(self).wf(),
            final(self).logs() == old(self).logs().filter(
                |l: TaskLog| !CronTaskScheduler::log_of_task(old(self).instances(), task_id, l)),
            final(self).tasks() == old(self).tasks(),
            final(self).task_list() == old(self).task_list(),
            final(self).instances() == old(self).instances(),
            final(self).instance_list() == old(self).instance_list(),
    {
        let ghost pred = |l: TaskLog| !CronTaskScheduler::log_of_task(old(self).instances(), task_id, l);
        let mut kept: Vec<TaskLog> = Vec::new();
        let mut i: usize = 0;
        while i < self.logs.len()
            invariant
                self.wf(),
                *self == *old(self),
                i <= self.logs@.len(),
                pred == (|l: TaskLog| !CronTaskScheduler::log_of_task(old(self).instances(), task_id, l)),
                kept@ == self.logs@.subrange(0, i as int).filter(pred),
            decreases self.logs@.len() - i,
        {
            proof {
                lemma_filter_step(self.logs@, pred, i as int);
            }
            let own = match self.find_instance(self.logs[i].run_instance_id) {
                Some(j) => self.instances[j].task_id == task_id,
                None => false,
            };
            if !own {
                kept.push(self.logs[i].clone());
            }
            i = i + 1;
        }
        proof {
            assert(self.logs@.subrange(0, i as int) =~= self.logs@);
        }
        self.logs = kept;
    }

    /// Deletes every run instance; returns how many there were.
    pub fn clear_all_instances(&mut self) -> (r: usize)
        requires
            old(self).wf(),
        ensures
            final(self).wf(),
            r == old(self).instance_list().len(),
            final(self).instances() == Map::<TaskId, TaskRunInstance>::empty(),
            final(self).instance_list() == Seq::<TaskRunInstance>::empty(),
            final(self).tasks() == old(self).tasks(),
            final(self).task_list() == old(self).task_list(),
            final(self).logs() == old(self).logs(),
    {
        let n = self.instances.len();
        self.instances = Vec::new();
        n
    }

    /// Appends a log line.
    pub fn save_log(&mut self, log: &TaskLog)
        requires
            old(self).wf(),
        ensures
            final(self).wf(),
            final(self).logs() == old(self).logs().push(*log),
            final(self).tasks() == old(self).tasks(),
            final(self).task_list() == old(self).task_list(),
            final(self).instances() == old(self).instances(),
            final(self).instance_list() == old(self).instance_list(),
    {
        self.logs.push(log.clone());
    }

    /// The log lines of a run instance, ordered by timestamp.
    pub fn list_logs(&self, instance_id: TaskId) -> (r: Vec<TaskLog>)
        ensures
            r@ == sorted_logs(self.logs().filter(|l: TaskLog| l.run_instance_id == instance_id)),
            sorted_by_time(r@),
            r@.to_multiset() == self.logs().filter(|l: TaskLog| l.run_instance_id == instance_id).to_multiset(),
    {
        let ghost pred = |l: TaskLog| l.run_instance_id == instance_id;
        let mut r: Vec<TaskLog> = Vec::new();
        let mut i: usize = 0;
        while i < self.logs.len()
            invariant
                i <= self.logs@.len(),
                pred == (|l: TaskLog| l.run_instance_id == instance_id),
                r@ == self.logs@.subrange(0, i as int).filter(pred),
            decreases self.logs@.len() - i,
        {
            proof {
                lemma_filter_step(self.logs@, pred, i as int);
            }
            if self.logs[i].run_instance_id == instance_id {
                r.push(self.logs[i].clone());
            }
            i = i + 1;
        }
        proof {
            assert(self.logs@.subrange(0, i as int) =~= self.logs@);
        }
        sort_logs_by_time(r)
    }

    /// Deletes the log lines of a run instance.
    pub fn delete_logs(&mut self, instance_id: TaskId)
        requires
            old(self).wf(),
        ensures
            final(self).wf(),
            final(self).logs() == old(self).logs().filter(|l: TaskLog| l.run_instance_id != instance_id),
            final(self).tasks() == old(self).tasks(),
            final(self).task_list() == old(self).task_list(),
            final(self).instances() == old(self).instances(),
            final(self).instance_list() == old(self).instance_list(),
    {
        let ghost pred = |l: TaskLog| l.run_instance_id != instance_id;
        let mut kept: Vec<TaskLog> = Vec::new();
        let mut i: usize = 0;
        while i < self.logs.len()
            invariant
                i <= self.logs@.len(),
                pred == (|l: TaskLog| l.run_instance_id != instance_id),
                kept@ == self.logs@.subrange(0, i as int).filter(pred),
                self.logs@ == old(self).logs@,
            decreases self.logs@.len() - i,
        {
            proof {
                lemma_filter_step(self.logs@, pred, i as int);
            }
            if self.logs[i].run_instance_id != instance_id {
                kept.push(self.logs[i].clone());
            }
            i = i + 1;
        }
        proof {
            assert(self.logs@.subrange(0, i as int) =~= self.logs@);
        }
        self.logs = kept;
    }

    /// Deletes every log line; returns how many there were.
    pub fn clear_all_logs(&mut self) -> (r: usize)
        requires
            old(self).wf(),
        ensures
            final(self).wf(),
            r == old(self).logs().len(),
            final(self).logs() == Seq::<TaskLog>::empty(),
            final(self).tasks() == old(self).tasks(),
            final(self).task_list() == old(self).task_list(),
            final(self).instances() == old(self).instances(),
            final(self).instance_list() == old(self).instance_list(),
    {
        let n = self.logs.len();
        self.logs = Vec::new();
        n
    }
}

} // verus!
