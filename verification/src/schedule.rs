//! The model of the scheduler: what is recorded of a submitted task, in which
//! order waiting tasks start, and how a record changes when its task starts,
//! ends or is withdrawn.
//!
//! A task is known by its identifier, which is the position of its record:
//! the number of tasks that were submitted before it. Records are never
//! removed, so a smaller identifier always means an earlier submission.

use crate::types::{ErrorKind, Priority, PrismError, PrismResult, TaskStatus};
use vstd::prelude::*;

verus! {

/// What the executor keeps of a submitted task.
#[derive(Debug, Clone, Copy, PartialEq, Eq)]
pub struct TaskRecord {
    /// Urgency of the task among those waiting.
    pub priority: Priority,
    /// Where the task stands in its lifecycle.
    pub status: TaskStatus,
    /// Deadline of the computation in milliseconds, if there is one.
    pub timeout_ms: Option<u64>,
    /// The kind of the error that the task failed with, once it has failed.
    pub failure: Option<ErrorKind>,
}

/// The record of a task at the moment of its submission.
pub open spec fn fresh_record(priority: Priority, timeout_ms: Option<u64>) -> TaskRecord {
    TaskRecord { priority, status: TaskStatus::Ready, timeout_ms, failure: None }
}

/// The record of a waiting task after it has started.
pub open spec fn started(record: TaskRecord) -> TaskRecord {
    TaskRecord { status: TaskStatus::Running, ..record }
}

/// The record of a waiting task after it has been withdrawn: `Failed` with a
/// `Runtime` error, without ever having run.
pub open spec fn withdrawn(record: TaskRecord) -> TaskRecord {
    TaskRecord { status: TaskStatus::Failed, failure: Some(ErrorKind::Runtime), ..record }
}

/// Whether a computation that took `elapsed_ms` ran past its deadline.
pub open spec fn timed_out(timeout_ms: Option<u64>, elapsed_ms: u64) -> bool {
    timeout_ms matches Some(limit) && elapsed_ms > limit
}

/// The kind of error that an outcome carries, if it is an error.
pub open spec fn failure_of(outcome: PrismResult<()>) -> Option<ErrorKind> {
    match outcome {
        Ok(_) => None,
        Err(e) => Some(e.kind_spec()),
    }
}

/// The record of a running task after its computation has ended with
/// `failure` (`None` when it ended without error) after `elapsed_ms`: a task
/// that ran past its deadline has failed with `Timeout`, whatever came of
/// its computation.
pub open spec fn settled(record: TaskRecord, failure: Option<ErrorKind>, elapsed_ms: u64)
    -> TaskRecord {
    if timed_out(record.timeout_ms, elapsed_ms) {
        TaskRecord { status: TaskStatus::Failed, failure: Some(ErrorKind::Timeout), ..record }
    } else if failure is Some {
        TaskRecord { status: TaskStatus::Failed, failure, ..record }
    } else {
        TaskRecord { status: TaskStatus::Completed, failure: None, ..record }
    }
}

/// What the executor answers when the computation of a task with the given
/// deadline has ended with `outcome` after `elapsed_ms`: a `Timeout` error
/// when it ran past the deadline, else the outcome as it came.
pub open spec fn answers(
    timeout_ms: Option<u64>,
    outcome: PrismResult<()>,
    elapsed_ms: u64,
    answer: PrismResult<()>,
) -> bool {
    if timed_out(timeout_ms, elapsed_ms) {
        answer matches Err(PrismError::Timeout(m)) && m@ == "task exceeded its deadline"@
    } else {
        answer == outcome
    }
}

/// A record is consistent when it names a failure exactly if it is `Failed`.
pub open spec fn record_consistent(record: TaskRecord) -> bool {
    record.failure is Some <==> record.status == TaskStatus::Failed
}

/// Whether task `id` was submitted and still waits for a slot.
pub open spec fn is_waiting(records: Seq<TaskRecord>, id: int) -> bool {
    0 <= id < records.len() && records[id].status == TaskStatus::Ready
}

/// Whether task `id` was submitted and is `Running`.
pub open spec fn is_running(records: Seq<TaskRecord>, id: int) -> bool {
    0 <= id < records.len() && records[id].status == TaskStatus::Running
}

/// The worker slots that a record occupies: one while its task runs.
pub open spec fn occupies(record: TaskRecord) -> nat {
    if record.status == TaskStatus::Running {
        1
    } else {
        0
    }
}

/// Number of records that are `Running`: the worker slots in use.
pub open spec fn running_count(records: Seq<TaskRecord>) -> nat
    decreases records.len(),
{
    if records.len() == 0 {
        0
    } else {
        running_count(records.drop_last()) + occupies(records.last())
    }
}

/// Whether task `a` starts before task `b` when both wait: it has the higher
/// priority, or the same priority and was submitted earlier.
pub open spec fn precedes(records: Seq<TaskRecord>, a: int, b: int) -> bool {
    ||| records[a].priority.rank_spec() > records[b].priority.rank_spec()
    ||| records[a].priority.rank_spec() == records[b].priority.rank_spec() && a < b
}

/// Whether task `id` is the one to start next: it waits, and no waiting task
/// precedes it.
pub open spec fn goes_first(records: Seq<TaskRecord>, id: int) -> bool {
    &&& is_waiting(records, id)
    &&& forall|other: int|
        0 <= other < records.len() && (#[trigger] records[other]).status == TaskStatus::Ready
            ==> !precedes(records, other, id)
}

/// Whether a task of the given priority that is submitted now, to an
/// executor with these records and `capacity` worker slots, can start at
/// once: a slot is free and every waiting task has a lower priority.
pub open spec fn starts_at_once(records: Seq<TaskRecord>, capacity: u32, priority: Priority)
    -> bool {
    &&& running_count(records) < capacity
    &&& forall|other: int|
        0 <= other < records.len() && (#[trigger] records[other]).status == TaskStatus::Ready
            ==> records[other].priority.rank_spec() < priority.rank_spec()
}

/// The records after the computation of task `id` has ended with `outcome`
/// after `elapsed_ms`: the record of a running task is settled, and nothing
/// changes for a task that is not running.
pub open spec fn finish_records(
    records: Seq<TaskRecord>,
    id: int,
    outcome: PrismResult<()>,
    elapsed_ms: u64,
) -> Seq<TaskRecord> {
    if is_running(records, id) {
        records.update(id, settled(records[id], failure_of(outcome), elapsed_ms))
    } else {
        records
    }
}

/// The records after task `id` has been withdrawn: the record of a waiting
/// task becomes `Failed`, and nothing changes for a task that does not wait.
pub open spec fn cancel_records(records: Seq<TaskRecord>, id: int) -> Seq<TaskRecord> {
    if is_waiting(records, id) {
        records.update(id, withdrawn(records[id]))
    } else {
        records
    }
}

/// What a task leaves behind that was submitted to an executor with the
/// records `before`, started at once, and whose computation ended with
/// `outcome` after `elapsed_ms`: one more record, settled, and the answer to
/// the submitter.
pub open spec fn ran(
    before: Seq<TaskRecord>,
    priority: Priority,
    timeout_ms: Option<u64>,
    outcome: PrismResult<()>,
    elapsed_ms: u64,
    after: Seq<TaskRecord>,
    answer: PrismResult<()>,
) -> bool {
    &&& after == before.push(
        settled(fresh_record(priority, timeout_ms), failure_of(outcome), elapsed_ms),
    )
    &&& answers(timeout_ms, outcome, elapsed_ms, answer)
}

/// Whether the lifecycle lets a task pass from `before` to `after` in one
/// step of the executor: it stays as it is, starts, ends after running, or
/// is withdrawn while it waits.
pub open spec fn steps_to(before: TaskStatus, after: TaskStatus) -> bool {
    ||| after == before
    ||| before == TaskStatus::Ready && after == TaskStatus::Running
    ||| before == TaskStatus::Running && after == TaskStatus::Completed
    ||| before == TaskStatus::Running && after == TaskStatus::Failed
    ||| before == TaskStatus::Ready && after == TaskStatus::Failed
}

/// Whether the records `after` come from the records `before` by steps of
/// the lifecycle: no record is lost, every task keeps its priority and its
/// deadline, and every status moves forward or stays.
pub open spec fn advances(before: Seq<TaskRecord>, after: Seq<TaskRecord>) -> bool {
    &&& before.len() <= after.len()
    &&& forall|id: int|
        0 <= id < before.len() ==> {
            &&& steps_to(before[id].status, (#[trigger] after[id]).status)
            &&& after[id].priority == before[id].priority
            &&& after[id].timeout_ms == before[id].timeout_ms
        }
}

/// Priority order: while a task of higher priority waits, a waiting task of
/// lower priority is not the one to start.
pub proof fn lemma_higher_priority_first(records: Seq<TaskRecord>, urgent: int, other: int)
    requires
        is_waiting(records, urgent),
        is_waiting(records, other),
        records[urgent].priority.rank_spec() > records[other].priority.rank_spec(),
    ensures
        !goes_first(records, other),
{
    assert(precedes(records, urgent, other));
}

/// Submission order: of two waiting tasks of equal priority, the one that
/// was submitted later is not the one to start.
pub proof fn lemma_earlier_first(records: Seq<TaskRecord>, earlier: int, later: int)
    requires
        is_waiting(records, earlier),
        is_waiting(records, later),
        records[earlier].priority == records[later].priority,
        earlier < later,
    ensures
        !goes_first(records, later),
{
    assert(precedes(records, earlier, later));
}

/// At most one task goes first: any two waiting tasks are ordered.
pub proof fn lemma_goes_first_unique(records: Seq<TaskRecord>, a: int, b: int)
    requires
        goes_first(records, a),
        goes_first(records, b),
    ensures
        a == b,
{
    assert(!precedes(records, a, b));
    assert(!precedes(records, b, a));
}

/// The task that goes first among the first `n` records, if one waits there.
spec fn front_of(records: Seq<TaskRecord>, n: int) -> Option<int>
    decreases n,
{
    if n <= 0 {
        None
    } else if records[n - 1].status != TaskStatus::Ready {
        front_of(records, n - 1)
    } else {
        match front_of(records, n - 1) {
            Some(best) if records[best].priority.rank_spec() >= records[n
                - 1].priority.rank_spec() => Some(best),
            _ => Some(n - 1),
        }
    }
}

proof fn lemma_front_of(records: Seq<TaskRecord>, n: int)
    requires
        0 <= n <= records.len(),
    ensures
        match front_of(records, n) {
            Some(best) => {
                &&& 0 <= best < n
                &&& records[best].status == TaskStatus::Ready
                &&& forall|other: int|
                    0 <= other < n && (#[trigger] records[other]).status == TaskStatus::Ready
                        ==> !precedes(records, other, best)
            },
            None => forall|other: int|
                0 <= other < n ==> (#[trigger] records[other]).status != TaskStatus::Ready,
        },
    decreases n,
{
    if n > 0 {
        lemma_front_of(records, n - 1);
    }
}

/// Someone is always next: whenever a task waits, one of the waiting tasks
/// is the one to start.
pub proof fn lemma_some_task_goes_first(records: Seq<TaskRecord>)
    requires
        exists|id: int| is_waiting(records, id),
    ensures
        exists|id: int| goes_first(records, id),
{
    let waiting = choose|id: int| is_waiting(records, id);
    lemma_front_of(records, records.len() as int);
    assert(records[waiting].status == TaskStatus::Ready);
    let best = front_of(records, records.len() as int).unwrap();
    assert(goes_first(records, best));
}

/// The lifecycle never goes back: a task that has ended stays as it ended,
/// and a task that runs does not wait again.
pub proof fn lemma_steps_never_go_back(before: TaskStatus, after: TaskStatus)
    requires
        steps_to(before, after),
    ensures
        before == TaskStatus::Completed ==> after == TaskStatus::Completed,
        before == TaskStatus::Failed ==> after == TaskStatus::Failed,
        before == TaskStatus::Running ==> after != TaskStatus::Ready,
{
}

/// A task that is submitted goes first among the waiting tasks exactly when
/// every task that already waits has a lower priority.
pub proof fn lemma_newcomer_goes_first(records: Seq<TaskRecord>, fresh: TaskRecord)
    requires
        fresh.status == TaskStatus::Ready,
    ensures
        goes_first(records.push(fresh), records.len() as int) <==> forall|other: int|
            0 <= other < records.len() && (#[trigger] records[other]).status == TaskStatus::Ready
                ==> records[other].priority.rank_spec() < fresh.priority.rank_spec(),
{
    let queued = records.push(fresh);
    let id = records.len() as int;
    if goes_first(queued, id) {
        assert forall|other: int|
            0 <= other < records.len() && (#[trigger] records[other]).status
                == TaskStatus::Ready implies records[other].priority.rank_spec()
            < fresh.priority.rank_spec() by {
            assert(queued[other] == records[other]);
            assert(!precedes(queued, other, id));
        }
    }
    if forall|other: int|
        0 <= other < records.len() && (#[trigger] records[other]).status == TaskStatus::Ready
            ==> records[other].priority.rank_spec() < fresh.priority.rank_spec() {
        assert forall|other: int|
            0 <= other < queued.len() && (#[trigger] queued[other]).status
                == TaskStatus::Ready implies !precedes(queued, other, id) by {
            if other < records.len() {
                assert(queued[other] == records[other]);
            }
        }
    }
}

/// Replacing one record changes the slots in use by what the new record
/// occupies more or less than the old one.
pub proof fn lemma_running_count_update(records: Seq<TaskRecord>, id: int, record: TaskRecord)
    requires
        0 <= id < records.len(),
    ensures
        running_count(records.update(id, record)) + occupies(records[id]) == running_count(
            records,
        ) + occupies(record),
    decreases records.len(),
{
    let after = records.update(id, record);
    if id == records.len() - 1 {
        assert(after.drop_last() =~= records.drop_last());
    } else {
        assert(after.drop_last() =~= records.drop_last().update(id, record));
        lemma_running_count_update(records.drop_last(), id, record);
    }
}

/// One more record adds what it occupies to the slots in use.
pub proof fn lemma_running_count_push(records: Seq<TaskRecord>, record: TaskRecord)
    ensures
        running_count(records.push(record)) == running_count(records) + occupies(record),
{
    assert(records.push(record).drop_last() =~= records);
}

/// The first `n` records use no more slots than all of them.
pub proof fn lemma_running_count_prefix(records: Seq<TaskRecord>, n: int)
    requires
        0 <= n <= records.len(),
    ensures
        running_count(records.take(n)) <= running_count(records),
    decreases records.len(),
{
    if n < records.len() {
        assert(records.drop_last().take(n) =~= records.take(n));
        lemma_running_count_prefix(records.drop_last(), n);
    } else {
        assert(records.take(n) =~= records);
    }
}

} // verus!
