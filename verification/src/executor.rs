//! The task executor: the scheduler of the runtime.
//!
//! The executor keeps one record for every task that was submitted to it, in
//! submission order, and a fixed number of worker slots. A waiting task is
//! started when a slot is free and no other waiting task goes before it:
//! higher priority first, and among equal priorities the task that was
//! submitted first. A task holds its slot while it runs and gives it back
//! when it is finished.
//!
//! The executor can be driven in two ways. `submit` runs a task from
//! submission to its end in one call. `enqueue`, `try_start` and `finish` are
//! the single steps, for a caller that drives the computations itself and
//! has several tasks waiting or running at the same time.

use crate::clock::millis_since;
use crate::crystal::Crystal;
use crate::schedule::{
    advances, answers, cancel_records, failure_of, finish_records, fresh_record, goes_first,
    is_running, is_waiting, lemma_goes_first_unique, lemma_newcomer_goes_first,
    lemma_running_count_prefix, lemma_running_count_push, lemma_running_count_update, precedes,
    ran, record_consistent, running_count, settled, started, starts_at_once, timed_out,
    withdrawn, TaskRecord,
};
use crate::task::{Task, TaskConfig};
use crate::types::{ErrorKind, PrismError, PrismResult, TaskStatus};
use std::sync::Arc;
use std::time::Instant;
use vstd::prelude::*;

verus! {

/// The scheduler: the records of all submitted tasks and a fixed number of
/// worker slots.
pub struct TaskExecutor {
    crystal: Option<Arc<Crystal>>,
    workers: u32,
    records: Vec<TaskRecord>,
}

impl View for TaskExecutor {
    type V = Seq<TaskRecord>;

    /// The records of the submitted tasks, in submission order.
    closed spec fn view(&self) -> Seq<TaskRecord> {
        self.records@
    }
}

impl TaskExecutor {
    /// There is at least one worker slot, no more tasks run than there are
    /// slots, and every record is consistent.
    #[verifier::type_invariant]
    spec fn wf(&self) -> bool {
        &&& self.workers >= 1
        &&& running_count(self.records@) <= self.workers
        &&& forall|id: int|
            0 <= id < self.records@.len() ==> record_consistent(#[trigger] self.records@[id])
    }

    /// The number of worker slots.
    pub closed spec fn capacity_spec(&self) -> u32 {
        self.workers
    }

    /// The lattice that the executor is bound to, if any.
    pub closed spec fn crystal_spec(&self) -> Option<Arc<Crystal>> {
        self.crystal
    }

    /// Whether the executor refuses a task of this configuration at the
    /// door: the task needs the lattice and the executor is bound to none.
    pub open spec fn refuses(&self, config: TaskConfig) -> bool {
        config.requires_crystal && self.crystal_spec() is None
    }

    /// Creates an executor with `workers` worker slots, bound to the given
    /// lattice. Fails with a `Runtime` error when there would be no worker.
    pub fn new(crystal: Option<Arc<Crystal>>, workers: u32) -> (r: PrismResult<TaskExecutor>)
        ensures
            r is Ok <==> workers >= 1,
            r matches Ok(executor) ==> {
                &&& executor@ == Seq::<TaskRecord>::empty()
                &&& executor.capacity_spec() == workers
                &&& executor.crystal_spec() == crystal
            },
            r matches Err(e) ==> e matches PrismError::Runtime(m) && m@
                == "worker pool needs at least one worker"@,
    {
        if workers == 0 {
            return Err(PrismError::Runtime("worker pool needs at least one worker".to_owned()));
        }
        Ok(TaskExecutor { crystal, workers, records: Vec::new() })
    }

    /// The number of worker slots; at least one.
    #[verifier::when_used_as_spec(capacity_spec)]
    pub fn capacity(&self) -> (workers: u32)
        ensures
            workers == self.capacity_spec(),
            workers >= 1,
    {
        proof {
            use_type_invariant(self);
        }
        self.workers
    }

    /// The lattice that the executor is bound to, if any.
    pub fn crystal(&self) -> (crystal: Option<&Arc<Crystal>>)
        ensures
            match crystal {
                Some(handle) => self.crystal_spec() == Some(*handle),
                None => self.crystal_spec() is None,
            },
    {
        self.crystal.as_ref()
    }

    /// The number of tasks submitted so far, which is the identifier that the
    /// next submitted task gets.
    pub fn len(&self) -> (n: usize)
        ensures
            n == self@.len(),
    {
        self.records.len()
    }

    /// The record of task `id`, if such a task was submitted.
    pub fn record(&self, id: usize) -> (record: Option<TaskRecord>)
        ensures
            id < self@.len() ==> record == Some(self@[id as int]),
            id >= self@.len() ==> record is None,
            record matches Some(found) ==> record_consistent(found),
    {
        proof {
            use_type_invariant(self);
        }
        if id < self.records.len() {
            Some(self.records[id])
        } else {
            None
        }
    }

    /// The lifecycle state of task `id`, if such a task was submitted.
    pub fn status(&self, id: usize) -> (status: Option<TaskStatus>)
        ensures
            id < self@.len() ==> status == Some(self@[id as int].status),
            id >= self@.len() ==> status is None,
    {
        if id < self.records.len() {
            Some(self.records[id].status)
        } else {
            None
        }
    }

    /// The kind of error that task `id` failed with: `Some` exactly when the
    /// task was submitted and is `Failed`.
    pub fn failure(&self, id: usize) -> (failure: Option<ErrorKind>)
        ensures
            id < self@.len() ==> failure == self@[id as int].failure,
            id >= self@.len() ==> failure is None,
            failure is Some <==> id < self@.len() && self@[id as int].status
                == TaskStatus::Failed,
    {
        proof {
            use_type_invariant(self);
        }
        if id < self.records.len() {
            self.records[id].failure
        } else {
            None
        }
    }

    /// The number of tasks that are running: the worker slots in use. It
    /// never exceeds the number of slots.
    pub fn running(&self) -> (n: u32)
        ensures
            n == running_count(self@),
            n <= self.capacity_spec(),
    {
        proof {
            use_type_invariant(self);
        }
        let mut n: u32 = 0;
        let mut i: usize = 0;
        while i < self.records.len()
            invariant
                i <= self.records@.len(),
                n == running_count(self.records@.take(i as int)),
                running_count(self.records@) <= self.workers,
            decreases self.records@.len() - i,
        {
            proof {
                let upto = self.records@.take(i as int + 1);
                assert(upto.drop_last() =~= self.records@.take(i as int));
                lemma_running_count_prefix(self.records@, i as int + 1);
            }
            if self.records[i].status == TaskStatus::Running {
                n = n + 1;
            }
            i = i + 1;
        }
        proof {
            assert(self.records@.take(i as int) =~= self.records@);
        }
        n
    }

    /// The number of worker slots that are free.
    pub fn free_slots(&self) -> (n: u32)
        ensures
            n == self.capacity_spec() - running_count(self@),
    {
        self.workers - self.running()
    }

    /// Whether task `id` runs and has run past its deadline after
    /// `elapsed_ms`, so that `finish` would now end it with a `Timeout`
    /// error. A caller that drives the computation itself asks this to know
    /// when to stop driving.
    pub fn is_overdue(&self, id: usize, elapsed_ms: u64) -> (overdue: bool)
        ensures
            overdue <==> is_running(self@, id as int) && timed_out(
                self@[id as int].timeout_ms,
                elapsed_ms,
            ),
    {
        if id >= self.records.len() {
            return false;
        }
        let record = self.records[id];
        if record.status != TaskStatus::Running {
            return false;
        }
        match record.timeout_ms {
            Some(limit) => elapsed_ms > limit,
            None => false,
        }
    }

    /// The waiting task that is to start next, whether or not a slot is free
    /// for it: `None` exactly when no task waits.
    pub fn next_ready(&self) -> (next: Option<usize>)
        ensures
            match next {
                Some(id) => goes_first(self@, id as int),
                None => forall|id: int| !is_waiting(self@, id),
            },
    {
        let mut best: Option<usize> = None;
        let mut best_rank: u8 = 0;
        let mut i: usize = 0;
        while i < self.records.len()
            invariant
                i <= self.records@.len(),
                match best {
                    Some(id) => {
                        &&& id < i
                        &&& self.records@[id as int].status == TaskStatus::Ready
                        &&& best_rank == self.records@[id as int].priority.rank_spec()
                        &&& forall|other: int|
                            0 <= other < i && (#[trigger] self.records@[other]).status
                                == TaskStatus::Ready ==> !precedes(
                                self.records@,
                                other,
                                id as int,
                            )
                    },
                    None => forall|other: int|
                        0 <= other < i ==> (#[trigger] self.records@[other]).status
                            != TaskStatus::Ready,
                },
            decreases self.records@.len() - i,
        {
            let record = self.records[i];
            if record.status == TaskStatus::Ready {
                let rank = record.priority.rank();
                if best.is_none() || rank > best_rank {
                    best = Some(i);
                    best_rank = rank;
                }
            }
            i = i + 1;
        }
        best
    }

    /// Takes a task in: appends its record, `Ready`, and hands back the
    /// identifier of the task and its computation, which the caller drives
    /// once the task has been started. A task that needs the lattice is
    /// refused with a `Crystal` error when the executor is bound to none; the
    /// executor then keeps no record of it.
    pub fn enqueue<F>(&mut self, task: Task<F>) -> (r: PrismResult<(usize, F)>)
        ensures
            final(self).capacity_spec() == old(self).capacity_spec(),
            final(self).crystal_spec() == old(self).crystal_spec(),
            advances(old(self)@, final(self)@),
            r is Err <==> old(self).refuses(task.config_spec()),
            r matches Ok(taken) ==> {
                &&& taken.0 == old(self)@.len()
                &&& taken.1 == task.computation_spec()
                &&& final(self)@ == old(self)@.push(
                    fresh_record(task.config_spec().priority, task.config_spec().timeout_ms),
                )
            },
            r matches Err(e) ==> {
                &&& final(self)@ == old(self)@
                &&& e matches PrismError::Crystal(m)
                &&& m@ == "task requires a crystal but the executor has none"@
            },
    {
        proof {
            use_type_invariant(&*self);
        }
        let (computation, config) = task.into_parts();
        if config.requires_crystal && self.crystal.is_none() {
            return Err(
                PrismError::Crystal("task requires a crystal but the executor has none".to_owned()),
            );
        }
        let id = self.records.len();
        let record = TaskRecord {
            priority: config.priority,
            status: TaskStatus::Ready,
            timeout_ms: config.timeout_ms,
            failure: None,
        };
        proof {
            lemma_running_count_push(self.records@, record);
        }
        let mut records: Vec<TaskRecord> = Vec::new();
        std::mem::swap(&mut self.records, &mut records);
        records.push(record);
        self.records = records;
        Ok((id, computation))
    }

    /// Starts task `id` if it is its turn: a worker slot is free and the task
    /// is the waiting task that goes first. The task then becomes `Running`
    /// and holds a slot. Otherwise nothing changes.
    pub fn try_start(&mut self, id: usize) -> (begun: bool)
        ensures
            final(self).capacity_spec() == old(self).capacity_spec(),
            final(self).crystal_spec() == old(self).crystal_spec(),
            advances(old(self)@, final(self)@),
            begun <==> running_count(old(self)@) < old(self).capacity_spec() && goes_first(
                old(self)@,
                id as int,
            ),
            begun ==> final(self)@ == old(self)@.update(id as int, started(old(self)@[id as int])),
            begun ==> running_count(final(self)@) == running_count(old(self)@) + 1,
            !begun ==> final(self)@ == old(self)@,
    {
        proof {
            use_type_invariant(&*self);
        }
        if self.running() >= self.workers {
            return false;
        }
        match self.next_ready() {
            Some(next) => {
                if next != id {
                    proof {
                        if goes_first(self@, id as int) {
                            lemma_goes_first_unique(self@, next as int, id as int);
                        }
                    }
                    return false;
                }
            },
            None => {
                return false;
            },
        }
        let waiting = self.records[id];
        let record = TaskRecord {
            priority: waiting.priority,
            status: TaskStatus::Running,
            timeout_ms: waiting.timeout_ms,
            failure: waiting.failure,
        };
        proof {
            lemma_running_count_update(self.records@, id as int, record);
        }
        self.replace_record(id, record);
        true
    }

    /// Records the end of the computation of task `id`, which took
    /// `elapsed_ms` and ended with `outcome`, and gives the slot back.
    ///
    /// A running task that ran past its deadline becomes `Failed` with a
    /// `Timeout` error, whatever its outcome. Otherwise it becomes
    /// `Completed` on `Ok` and `Failed` on `Err`, and its outcome is handed
    /// back as it came. For a task that is not running the call changes
    /// nothing and answers with a `Task` error.
    pub fn finish(&mut self, id: usize, outcome: PrismResult<()>, elapsed_ms: u64) -> (r:
        PrismResult<()>)
        ensures
            final(self).capacity_spec() == old(self).capacity_spec(),
            final(self).crystal_spec() == old(self).crystal_spec(),
            final(self)@ == finish_records(old(self)@, id as int, outcome, elapsed_ms),
            advances(old(self)@, final(self)@),
            is_running(old(self)@, id as int) ==> {
                &&& answers(old(self)@[id as int].timeout_ms, outcome, elapsed_ms, r)
                &&& r is Ok <==> final(self)@[id as int].status == TaskStatus::Completed
                &&& r is Err <==> final(self)@[id as int].status == TaskStatus::Failed
                &&& r matches Err(e) ==> final(self)@[id as int].failure == Some(e.kind_spec())
                &&& running_count(final(self)@) + 1 == running_count(old(self)@)
            },
            !is_running(old(self)@, id as int) ==> (r matches Err(PrismError::Task(m)) && m@
                == "task is not running"@),
    {
        proof {
            use_type_invariant(&*self);
        }
        if id >= self.records.len() {
            return Err(PrismError::Task("task is not running".to_owned()));
        }
        let running = self.records[id];
        if running.status != TaskStatus::Running {
            return Err(PrismError::Task("task is not running".to_owned()));
        }
        let late = match running.timeout_ms {
            Some(limit) => elapsed_ms > limit,
            None => false,
        };
        let answer = if late {
            Err(PrismError::Timeout("task exceeded its deadline".to_owned()))
        } else {
            outcome
        };
        let record = match &answer {
            Ok(_) => TaskRecord {
                priority: running.priority,
                status: TaskStatus::Completed,
                timeout_ms: running.timeout_ms,
                failure: None,
            },
            Err(e) => TaskRecord {
                priority: running.priority,
                status: TaskStatus::Failed,
                timeout_ms: running.timeout_ms,
                failure: Some(e.kind()),
            },
        };
        proof {
            lemma_running_count_update(self.records@, id as int, record);
        }
        self.replace_record(id, record);
        answer
    }

    /// Withdraws task `id` while it still waits: the task becomes `Failed`
    /// with a `Runtime` error without ever running, and no longer stands in
    /// the way of the tasks behind it. A task that does not wait is left as
    /// it is.
    pub fn cancel(&mut self, id: usize) -> (cancelled: bool)
        ensures
            final(self).capacity_spec() == old(self).capacity_spec(),
            final(self).crystal_spec() == old(self).crystal_spec(),
            cancelled <==> is_waiting(old(self)@, id as int),
            final(self)@ == cancel_records(old(self)@, id as int),
            advances(old(self)@, final(self)@),
            running_count(final(self)@) == running_count(old(self)@),
    {
        proof {
            use_type_invariant(&*self);
        }
        if id >= self.records.len() {
            return false;
        }
        let waiting = self.records[id];
        if waiting.status != TaskStatus::Ready {
            return false;
        }
        let record = TaskRecord {
            priority: waiting.priority,
            status: TaskStatus::Failed,
            timeout_ms: waiting.timeout_ms,
            failure: Some(ErrorKind::Runtime),
        };
        proof {
            lemma_running_count_update(self.records@, id as int, record);
        }
        self.replace_record(id, record);
        true
    }

    /// Submits a task and runs it to its end: takes it in, starts it, drives
    /// its computation and records how it ended.
    ///
    /// A task that needs the lattice is refused with a `Crystal` error when
    /// the executor is bound to none, and leaves no record. Every other task
    /// leaves one record, which is `Completed` exactly when the answer is
    /// `Ok` and `Failed` exactly when it is an error. A task that cannot
    /// start at once, because no slot is free or another task waits before
    /// it, is withdrawn with a `Runtime` error: this call cannot wait.
    /// Otherwise the computation is run, and the task ends as `finish` says
    /// for the outcome of the computation and the time that it took.
    pub fn submit<F: FnOnce() -> PrismResult<()>>(&mut self, task: Task<F>) -> (r: PrismResult<()>)
        requires
            call_requires(task.computation_spec(), ()),
        ensures
            final(self).capacity_spec() == old(self).capacity_spec(),
            final(self).crystal_spec() == old(self).crystal_spec(),
            advances(old(self)@, final(self)@),
            old(self).refuses(task.config_spec()) ==> {
                &&& final(self)@ == old(self)@
                &&& r matches Err(PrismError::Crystal(m))
                &&& m@ == "task requires a crystal but the executor has none"@
            },
            !old(self).refuses(task.config_spec()) ==> {
                &&& final(self)@.len() == old(self)@.len() + 1
                &&& final(self)@.drop_last() == old(self)@
                &&& r is Ok <==> final(self)@.last().status == TaskStatus::Completed
                &&& r is Err <==> final(self)@.last().status == TaskStatus::Failed
                &&& r matches Err(e) ==> final(self)@.last().failure == Some(e.kind_spec())
                &&& running_count(final(self)@) == running_count(old(self)@)
            },
            !old(self).refuses(task.config_spec()) && !starts_at_once(
                old(self)@,
                old(self).capacity_spec(),
                task.config_spec().priority,
            ) ==> {
                &&& final(self)@ == old(self)@.push(
                    withdrawn(
                        fresh_record(task.config_spec().priority, task.config_spec().timeout_ms),
                    ),
                )
                &&& r matches Err(PrismError::Runtime(m))
                &&& m@ == "no worker slot is free for the task"@
            },
            !old(self).refuses(task.config_spec()) && starts_at_once(
                old(self)@,
                old(self).capacity_spec(),
                task.config_spec().priority,
            ) ==> exists|outcome: PrismResult<()>, elapsed_ms: u64|
                call_ensures(task.computation_spec(), (), outcome) && #[trigger] ran(
                    old(self)@,
                    task.config_spec().priority,
                    task.config_spec().timeout_ms,
                    outcome,
                    elapsed_ms,
                    final(self)@,
                    r,
                ),
    {
        let ghost before = self@;
        let ghost fresh = fresh_record(task.config_spec().priority, task.config_spec().timeout_ms);
        let (id, computation) = match self.enqueue(task) {
            Ok(taken) => taken,
            Err(e) => {
                return Err(e);
            },
        };
        proof {
            lemma_running_count_push(before, fresh);
            lemma_newcomer_goes_first(before, fresh);
        }
        if !self.try_start(id) {
            self.cancel(id);
            proof {
                lemma_running_count_push(before, withdrawn(fresh));
                assert(self@ =~= before.push(withdrawn(fresh)));
                assert(self@.drop_last() =~= before);
            }
            return Err(PrismError::Runtime("no worker slot is free for the task".to_owned()));
        }
        let clock = Instant::now();
        let outcome = computation();
        let elapsed_ms = millis_since(&clock);
        let ghost ended = settled(fresh, failure_of(outcome), elapsed_ms);
        let ghost handed = outcome;
        let answer = self.finish(id, outcome, elapsed_ms);
        proof {
            lemma_running_count_push(before, ended);
            assert(self@ =~= before.push(ended));
            assert(self@.drop_last() =~= before);
            assert(ran(
                before,
                fresh.priority,
                fresh.timeout_ms,
                handed,
                elapsed_ms,
                self@,
                answer,
            ));
        }
        answer
    }

    /// Puts `record` in the place of the record of task `id`.
    fn replace_record(&mut self, id: usize, record: TaskRecord)
        requires
            id < old(self)@.len(),
            record_consistent(record),
            running_count(old(self)@.update(id as int, record)) <= old(self).capacity_spec(),
        ensures
            final(self)@ == old(self)@.update(id as int, record),
            final(self).capacity_spec() == old(self).capacity_spec(),
            final(self).crystal_spec() == old(self).crystal_spec(),
    {
        proof {
            use_type_invariant(&*self);
        }
        let mut records: Vec<TaskRecord> = Vec::new();
        std::mem::swap(&mut self.records, &mut records);
        records.set(id, record);
        self.records = records;
    }
}

} // verus!
