use prism::crystal::Crystal;
use prism::executor::TaskExecutor;
use prism::task::{Task, TaskConfig};
use prism::types::{ErrorKind, PatternType, Priority, PrismError, PrismResult, TaskStatus};
use std::sync::Arc;

type Job = fn() -> PrismResult<()>;

fn succeed() -> PrismResult<()> {
    Ok(())
}

fn fail() -> PrismResult<()> {
    Err(PrismError::Binding(String::from("no such symbol")))
}

fn lattice() -> Arc<Crystal> {
    Arc::new(Crystal::new(PatternType::Hexagonal).unwrap())
}

fn with_priority(priority: Priority) -> TaskConfig {
    TaskConfig { priority, requires_crystal: false, timeout_ms: None }
}

fn task(job: Job, config: TaskConfig) -> Task<Job> {
    Task::new(job, config, None).unwrap()
}

#[test]
fn executor_needs_a_worker() {
    let refused = TaskExecutor::new(None, 0);
    assert!(
        matches!(refused, Err(PrismError::Runtime(ref m)) if m == "worker pool needs at least one worker")
    );
    let executor = TaskExecutor::new(None, 1).unwrap();
    assert_eq!(executor.capacity(), 1);
    assert_eq!(executor.len(), 0);
    assert_eq!(executor.running(), 0);
    assert_eq!(executor.free_slots(), 1);
    assert!(executor.crystal().is_none());
    assert_eq!(executor.next_ready(), None);
}

#[test]
fn executor_keeps_its_lattice() {
    let executor = TaskExecutor::new(Some(lattice()), 3).unwrap();
    assert_eq!(executor.capacity(), 3);
    assert_eq!(executor.crystal().unwrap().system(), PatternType::Hexagonal);
}

#[test]
fn new_task_is_ready() {
    let t = task(succeed, TaskConfig::default());
    assert_eq!(t.status(), TaskStatus::Ready);
    assert_eq!(t.priority(), Priority::Normal);
    assert!(!t.config().requires_crystal);
    assert!(t.config().timeout_ms.is_none());
    assert!(t.crystal().is_none());
}

#[test]
fn task_that_needs_a_lattice_must_get_one() {
    let config = TaskConfig { priority: Priority::High, requires_crystal: true, timeout_ms: None };
    let refused = Task::new(succeed as Job, config, None);
    assert!(
        matches!(refused, Err(PrismError::Task(ref m)) if m == "resource binding requested but no crystal supplied")
    );
    let bound = Task::new(succeed as Job, config, Some(lattice())).unwrap();
    assert_eq!(bound.status(), TaskStatus::Ready);
    assert_eq!(bound.crystal().unwrap().system(), PatternType::Hexagonal);
}

#[test]
fn unbound_executor_refuses_bound_task() {
    let mut executor = TaskExecutor::new(None, 1).unwrap();
    let config = TaskConfig { priority: Priority::Normal, requires_crystal: true, timeout_ms: None };
    let bound = Task::new(succeed as Job, config, Some(lattice())).unwrap();
    let refused = executor.enqueue(bound);
    assert!(
        matches!(refused, Err(PrismError::Crystal(ref m)) if m == "task requires a crystal but the executor has none")
    );
    assert_eq!(executor.len(), 0);
    assert_eq!(executor.status(0), None);

    let again = Task::new(succeed as Job, config, Some(lattice())).unwrap();
    let refused = executor.submit(again);
    assert!(matches!(refused, Err(PrismError::Crystal(_))));
    assert_eq!(executor.len(), 0);
}

#[test]
fn bound_executor_takes_bound_task() {
    let shared = lattice();
    let mut executor = TaskExecutor::new(Some(Arc::clone(&shared)), 1).unwrap();
    let config = TaskConfig { priority: Priority::Normal, requires_crystal: true, timeout_ms: None };
    let bound = Task::new(succeed as Job, config, Some(shared)).unwrap();
    assert!(executor.submit(bound).is_ok());
    assert_eq!(executor.status(0), Some(TaskStatus::Completed));
}

#[test]
fn critical_task_starts_before_low_task() {
    let mut executor = TaskExecutor::new(None, 1).unwrap();
    let (low, low_job) = executor.enqueue(task(succeed, with_priority(Priority::Low))).unwrap();
    let (critical, critical_job) =
        executor.enqueue(task(succeed, with_priority(Priority::Critical))).unwrap();
    assert_eq!((low, critical), (0, 1));
    assert_eq!(executor.status(low), Some(TaskStatus::Ready));
    assert_eq!(executor.status(critical), Some(TaskStatus::Ready));

    assert_eq!(executor.next_ready(), Some(critical));
    assert!(!executor.try_start(low));
    assert_eq!(executor.status(low), Some(TaskStatus::Ready));
    assert!(executor.try_start(critical));
    assert_eq!(executor.status(critical), Some(TaskStatus::Running));
    assert_eq!(executor.free_slots(), 0);

    assert!(!executor.try_start(low));
    assert!(executor.finish(critical, critical_job(), 0).is_ok());
    assert_eq!(executor.status(critical), Some(TaskStatus::Completed));
    assert_eq!(executor.free_slots(), 1);

    assert!(executor.try_start(low));
    assert!(executor.finish(low, low_job(), 0).is_ok());
    assert_eq!(executor.status(low), Some(TaskStatus::Completed));
    assert_eq!(executor.next_ready(), None);
}

#[test]
fn equal_priority_starts_in_submission_order() {
    let mut executor = TaskExecutor::new(None, 1).unwrap();
    let (first, _) = executor.enqueue(task(succeed, TaskConfig::default())).unwrap();
    let (second, _) = executor.enqueue(task(succeed, TaskConfig::default())).unwrap();
    assert_eq!(executor.next_ready(), Some(first));
    assert!(!executor.try_start(second));
    assert!(executor.try_start(first));
    assert_eq!(executor.status(first), Some(TaskStatus::Running));
    assert_eq!(executor.status(second), Some(TaskStatus::Ready));
    assert!(!executor.try_start(second));
    assert!(executor.finish(first, Ok(()), 3).is_ok());
    assert!(executor.try_start(second));
    assert_eq!(executor.status(second), Some(TaskStatus::Running));
}

#[test]
fn order_is_priority_then_submission() {
    let mut executor = TaskExecutor::new(None, 1).unwrap();
    let order = [
        Priority::Normal,
        Priority::High,
        Priority::Low,
        Priority::High,
        Priority::Critical,
        Priority::Normal,
    ];
    for priority in order {
        executor.enqueue(task(succeed, with_priority(priority))).unwrap();
    }
    let mut started = Vec::new();
    while let Some(next) = executor.next_ready() {
        assert!(executor.try_start(next));
        assert!(executor.finish(next, Ok(()), 0).is_ok());
        started.push(next);
    }
    assert_eq!(started, vec![4, 1, 3, 0, 5, 2]);
}

#[test]
fn slots_bound_the_running_tasks() {
    let mut executor = TaskExecutor::new(None, 2).unwrap();
    for _ in 0..3 {
        executor.enqueue(task(succeed, TaskConfig::default())).unwrap();
    }
    assert!(executor.try_start(0));
    assert!(executor.try_start(1));
    assert_eq!(executor.running(), 2);
    assert_eq!(executor.free_slots(), 0);
    assert_eq!(executor.next_ready(), Some(2));
    assert!(!executor.try_start(2));
    assert!(executor.finish(0, Ok(()), 1).is_ok());
    assert_eq!(executor.running(), 1);
    assert!(executor.try_start(2));
    assert_eq!(executor.running(), 2);
}

#[test]
fn failure_is_recorded_and_returned() {
    let mut executor = TaskExecutor::new(None, 1).unwrap();
    let (id, job) = executor.enqueue(task(fail, TaskConfig::default())).unwrap();
    assert_eq!(executor.failure(id), None);
    assert!(executor.try_start(id));
    let answer = executor.finish(id, job(), 0);
    assert!(matches!(answer, Err(PrismError::Binding(ref m)) if m == "no such symbol"));
    assert_eq!(executor.status(id), Some(TaskStatus::Failed));
    assert_eq!(executor.failure(id), Some(ErrorKind::Binding));
    assert_eq!(executor.free_slots(), 1);
    let record = executor.record(id).unwrap();
    assert_eq!(record.priority, Priority::Normal);
    assert_eq!(record.status, TaskStatus::Failed);
    assert_eq!(record.timeout_ms, None);
    assert_eq!(record.failure, Some(ErrorKind::Binding));
    assert!(executor.record(id + 1).is_none());
}

#[test]
fn late_task_fails_with_timeout_and_frees_its_slot() {
    let mut executor = TaskExecutor::new(None, 1).unwrap();
    let config = TaskConfig { priority: Priority::Normal, requires_crystal: false, timeout_ms: Some(50) };
    let (late, _) = executor.enqueue(task(succeed, config)).unwrap();
    let (next, _) = executor.enqueue(task(succeed, TaskConfig::default())).unwrap();
    assert!(executor.try_start(late));
    assert!(!executor.try_start(next));
    let answer = executor.finish(late, Ok(()), 51);
    assert!(matches!(answer, Err(PrismError::Timeout(ref m)) if m == "task exceeded its deadline"));
    assert_eq!(executor.status(late), Some(TaskStatus::Failed));
    assert_eq!(executor.failure(late), Some(ErrorKind::Timeout));
    assert_eq!(executor.free_slots(), 1);
    assert!(executor.try_start(next));
    assert_eq!(executor.status(next), Some(TaskStatus::Running));
}

#[test]
fn running_task_is_overdue_past_its_deadline() {
    let mut executor = TaskExecutor::new(None, 2).unwrap();
    let config = TaskConfig { priority: Priority::Normal, requires_crystal: false, timeout_ms: Some(50) };
    let (timed, _) = executor.enqueue(task(succeed, config)).unwrap();
    let (free, _) = executor.enqueue(task(succeed, TaskConfig::default())).unwrap();
    assert!(!executor.is_overdue(timed, 51));
    assert!(executor.try_start(timed));
    assert!(executor.try_start(free));
    assert!(!executor.is_overdue(timed, 0));
    assert!(!executor.is_overdue(timed, 50));
    assert!(executor.is_overdue(timed, 51));
    assert!(executor.is_overdue(timed, u64::MAX));
    assert!(!executor.is_overdue(free, u64::MAX));
    assert!(!executor.is_overdue(9, u64::MAX));
    assert!(executor.finish(timed, Ok(()), 51).is_err());
    assert!(!executor.is_overdue(timed, 51));
}

#[test]
fn task_on_its_deadline_is_in_time() {
    let mut executor = TaskExecutor::new(None, 1).unwrap();
    let config = TaskConfig { priority: Priority::Normal, requires_crystal: false, timeout_ms: Some(50) };
    let (id, _) = executor.enqueue(task(succeed, config)).unwrap();
    assert!(executor.try_start(id));
    assert!(executor.finish(id, Ok(()), 50).is_ok());
    assert_eq!(executor.status(id), Some(TaskStatus::Completed));
    assert_eq!(executor.failure(id), None);
}

#[test]
fn timeout_overrides_the_error_of_a_late_task() {
    let mut executor = TaskExecutor::new(None, 1).unwrap();
    let config = TaskConfig { priority: Priority::Normal, requires_crystal: false, timeout_ms: Some(0) };
    let (id, job) = executor.enqueue(task(fail, config)).unwrap();
    assert!(executor.try_start(id));
    let answer = executor.finish(id, job(), u64::MAX);
    assert!(matches!(answer, Err(PrismError::Timeout(_))));
    assert_eq!(executor.failure(id), Some(ErrorKind::Timeout));
}

#[test]
fn finish_needs_a_running_task() {
    let mut executor = TaskExecutor::new(None, 1).unwrap();
    let unknown = executor.finish(0, Ok(()), 0);
    assert!(matches!(unknown, Err(PrismError::Task(ref m)) if m == "task is not running"));
    let (id, _) = executor.enqueue(task(succeed, TaskConfig::default())).unwrap();
    let waiting = executor.finish(id, Ok(()), 0);
    assert!(matches!(waiting, Err(PrismError::Task(_))));
    assert_eq!(executor.status(id), Some(TaskStatus::Ready));
    assert!(executor.try_start(id));
    assert!(executor.finish(id, Ok(()), 0).is_ok());
    let twice = executor.finish(id, Ok(()), 0);
    assert!(matches!(twice, Err(PrismError::Task(_))));
    assert_eq!(executor.status(id), Some(TaskStatus::Completed));
    assert_eq!(executor.free_slots(), 1);
}

#[test]
fn started_task_cannot_start_again() {
    let mut executor = TaskExecutor::new(None, 2).unwrap();
    let (id, _) = executor.enqueue(task(succeed, TaskConfig::default())).unwrap();
    assert!(!executor.try_start(id + 1));
    assert!(executor.try_start(id));
    assert!(!executor.try_start(id));
    assert_eq!(executor.running(), 1);
}

#[test]
fn withdrawn_task_makes_way() {
    let mut executor = TaskExecutor::new(None, 1).unwrap();
    let (first, _) = executor.enqueue(task(succeed, with_priority(Priority::High))).unwrap();
    let (second, _) = executor.enqueue(task(succeed, TaskConfig::default())).unwrap();
    assert!(!executor.cancel(7));
    assert!(executor.cancel(first));
    assert_eq!(executor.status(first), Some(TaskStatus::Failed));
    assert_eq!(executor.failure(first), Some(ErrorKind::Runtime));
    assert!(!executor.cancel(first));
    assert!(!executor.try_start(first));
    assert_eq!(executor.next_ready(), Some(second));
    assert!(executor.try_start(second));
    assert!(!executor.cancel(second));
    assert_eq!(executor.status(second), Some(TaskStatus::Running));
}

#[test]
fn submit_runs_the_task_to_its_end() {
    let mut executor = TaskExecutor::new(None, 1).unwrap();
    assert!(executor.submit(task(succeed, TaskConfig::default())).is_ok());
    assert_eq!(executor.status(0), Some(TaskStatus::Completed));
    let answer = executor.submit(task(fail, TaskConfig::default()));
    assert!(matches!(answer, Err(PrismError::Binding(_))));
    assert_eq!(executor.status(1), Some(TaskStatus::Failed));
    assert_eq!(executor.failure(1), Some(ErrorKind::Binding));
    assert_eq!(executor.len(), 2);
    assert_eq!(executor.running(), 0);
}

#[test]
fn submit_runs_the_computation_once() {
    let mut executor = TaskExecutor::new(None, 1).unwrap();
    let mut runs = 0;
    let counted = Task::new(
        || {
            runs += 1;
            Ok(())
        },
        TaskConfig::default(),
        None,
    )
    .unwrap();
    assert!(executor.submit(counted).is_ok());
    assert_eq!(runs, 1);
}

#[test]
fn submit_cannot_wait_for_a_slot() {
    let mut executor = TaskExecutor::new(None, 1).unwrap();
    let (busy, _) = executor.enqueue(task(succeed, TaskConfig::default())).unwrap();
    assert!(executor.try_start(busy));
    let answer = executor.submit(task(succeed, with_priority(Priority::Critical)));
    assert!(
        matches!(answer, Err(PrismError::Runtime(ref m)) if m == "no worker slot is free for the task")
    );
    assert_eq!(executor.status(1), Some(TaskStatus::Failed));
    assert_eq!(executor.failure(1), Some(ErrorKind::Runtime));
    assert_eq!(executor.status(busy), Some(TaskStatus::Running));
}

#[test]
fn submit_yields_to_a_waiting_task_of_equal_priority() {
    let mut executor = TaskExecutor::new(None, 2).unwrap();
    let (waiting, _) = executor.enqueue(task(succeed, TaskConfig::default())).unwrap();
    let answer = executor.submit(task(succeed, TaskConfig::default()));
    assert!(matches!(answer, Err(PrismError::Runtime(_))));
    assert_eq!(executor.status(waiting), Some(TaskStatus::Ready));
    let urgent = executor.submit(task(succeed, with_priority(Priority::High)));
    assert!(urgent.is_ok());
    assert_eq!(executor.status(2), Some(TaskStatus::Completed));
}

#[test]
fn submit_times_a_slow_computation() {
    let mut executor = TaskExecutor::new(None, 1).unwrap();
    let config = TaskConfig { priority: Priority::Normal, requires_crystal: false, timeout_ms: Some(0) };
    let slow = Task::new(
        || {
            let started = std::time::Instant::now();
            while started.elapsed().as_millis() < 5 {
                std::hint::spin_loop();
            }
            Ok(())
        },
        config,
        None,
    )
    .unwrap();
    let answer = executor.submit(slow);
    assert!(matches!(answer, Err(PrismError::Timeout(ref m)) if m == "task exceeded its deadline"));
    assert_eq!(executor.status(0), Some(TaskStatus::Failed));
    assert_eq!(executor.failure(0), Some(ErrorKind::Timeout));
    assert_eq!(executor.free_slots(), 1);

    let patient = TaskConfig {
        priority: Priority::Normal,
        requires_crystal: false,
        timeout_ms: Some(u64::MAX),
    };
    assert!(executor.submit(task(succeed, patient)).is_ok());
    assert_eq!(executor.status(1), Some(TaskStatus::Completed));
}
