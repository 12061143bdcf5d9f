use prism::types::ErrorKind;
use prism::{PrismError, PrismResult, Priority, Runtime, RuntimeConfig, TaskConfig, TaskStatus};
use prism::{PatternType, VERSION};
use std::sync::Arc;

async fn test_task() -> PrismResult<()> {
    Ok(())
}

fn done() -> PrismResult<()> {
    Ok(())
}

fn uninitialized() -> PrismResult<()> {
    Err(PrismError::NotInitialized)
}

fn config_with(thread_count: u32) -> RuntimeConfig {
    RuntimeConfig {
        thread_count,
        stack_size: 64 * 1024,
        use_hardware_threads: false,
        memory_limit: Some(1 << 20),
    }
}

#[test]
fn test_runtime_init() {
    let config = RuntimeConfig::default();
    let runtime = Runtime::init(config).unwrap();
    assert!(Arc::strong_count(runtime.crystal()) >= 1);
}

#[test]
fn test_task_creation() {
    let runtime = Runtime::init(RuntimeConfig::default()).unwrap();
    let task_config = TaskConfig::default();
    let task = runtime.create_task(test_task(), task_config).unwrap();
    assert_eq!(task.status(), TaskStatus::Ready);
}

#[test]
fn test_version() {
    assert!(!VERSION.is_empty());
}

#[test]
fn default_config_follows_the_host() {
    let config = RuntimeConfig::default();
    assert!(config.thread_count >= 1);
    assert_eq!(config.thread_count as usize, num_cpus::get());
    assert_eq!(config.stack_size, 2 * 1024 * 1024);
    assert!(config.use_hardware_threads);
    assert_eq!(config.memory_limit, None);
}

#[test]
fn config_for_a_host_has_a_worker_for_each_cpu() {
    assert_eq!(RuntimeConfig::for_host(0).thread_count, 1);
    assert_eq!(RuntimeConfig::for_host(1).thread_count, 1);
    assert_eq!(RuntimeConfig::for_host(12).thread_count, 12);
    assert_eq!(RuntimeConfig::for_host(u32::MAX as usize).thread_count, u32::MAX);
    assert_eq!(RuntimeConfig::for_host(usize::MAX).thread_count, u32::MAX);
    let config = RuntimeConfig::for_host(4);
    assert!(config.is_valid());
    assert!(!config_with(0).is_valid());
    assert_eq!(config.stack_size, 2097152);
    assert!(config.use_hardware_threads);
    assert!(config.memory_limit.is_none());
}

#[test]
fn init_succeeds_with_at_least_one_thread() {
    for thread_count in [1, 2, 7, 1024, u32::MAX] {
        let runtime = Runtime::init(config_with(thread_count)).unwrap();
        assert_eq!(runtime.config().thread_count, thread_count);
        assert_eq!(runtime.config().stack_size, 64 * 1024);
        assert!(!runtime.config().use_hardware_threads);
        assert_eq!(runtime.config().memory_limit, Some(1 << 20));
        assert_eq!(runtime.executor().capacity(), thread_count);
        assert_eq!(runtime.executor().len(), 0);
        assert_eq!(runtime.crystal().system(), PatternType::Cubic);
        assert!(runtime.crystal_holders() >= 1);
    }
}

#[test]
fn init_fails_without_a_thread() {
    let refused = Runtime::init(config_with(0));
    assert!(matches!(
        refused,
        Err(PrismError::Runtime(ref m)) if m == "Runtime error: worker pool needs at least one worker"
    ));
}

#[test]
fn runtime_and_executor_hold_the_lattice() {
    let runtime = Runtime::init(config_with(1)).unwrap();
    assert_eq!(runtime.crystal_holders(), 2);
    assert_eq!(Arc::strong_count(runtime.crystal()), 2);
    assert!(Arc::ptr_eq(runtime.crystal(), runtime.executor().crystal().unwrap()));
}

#[test]
fn created_task_shares_the_lattice() {
    let runtime = Runtime::init(config_with(1)).unwrap();
    let before = runtime.crystal_holders();
    let config = TaskConfig { priority: Priority::High, requires_crystal: true, timeout_ms: Some(10) };
    let task = runtime.create_task(done, config).unwrap();
    assert_eq!(task.status(), TaskStatus::Ready);
    assert_eq!(task.priority(), Priority::High);
    assert!(task.config().requires_crystal);
    assert_eq!(task.config().timeout_ms, Some(10));
    assert!(Arc::ptr_eq(task.crystal().unwrap(), runtime.crystal()));
    assert_eq!(runtime.crystal_holders(), before + 1);
    drop(task);
    assert_eq!(runtime.crystal_holders(), before);
}

#[test]
fn dropping_an_unsubmitted_task_leaves_no_trace() {
    let mut runtime = Runtime::init(config_with(1)).unwrap();
    let task = runtime.create_task(uninitialized, TaskConfig::default()).unwrap();
    assert_eq!(task.status(), TaskStatus::Ready);
    drop(task);
    assert_eq!(runtime.executor().len(), 0);
    assert_eq!(runtime.executor().status(0), None);
    assert_eq!(runtime.executor().failure(0), None);
    assert_eq!(runtime.executor().free_slots(), 1);
    let next = runtime.create_task(|| Ok(()), TaskConfig::default()).unwrap();
    assert!(runtime.execute(next).is_ok());
    assert_eq!(runtime.executor().status(0), Some(TaskStatus::Completed));
}

#[test]
fn executed_task_is_completed_on_ok() {
    let mut runtime = Runtime::init(config_with(2)).unwrap();
    let config = TaskConfig { priority: Priority::Low, requires_crystal: true, timeout_ms: None };
    let task = runtime.create_task(|| Ok(()), config).unwrap();
    assert!(runtime.execute(task).is_ok());
    assert_eq!(runtime.executor().len(), 1);
    assert_eq!(runtime.executor().status(0), Some(TaskStatus::Completed));
    assert_eq!(runtime.executor().failure(0), None);
    assert_eq!(runtime.executor().running(), 0);
}

#[test]
fn executed_task_is_failed_on_err() {
    let mut runtime = Runtime::init(config_with(2)).unwrap();
    let task = runtime
        .create_task(|| Err(PrismError::OutOfMemory(String::from("arena full"))), TaskConfig::default())
        .unwrap();
    let answer = runtime.execute(task);
    assert!(matches!(
        answer,
        Err(PrismError::Runtime(ref m)) if m == "Out of memory: arena full"
    ));
    assert_eq!(runtime.executor().status(0), Some(TaskStatus::Failed));
    assert_eq!(runtime.executor().failure(0), Some(ErrorKind::OutOfMemory));
    assert_eq!(runtime.executor().running(), 0);
}

#[test]
fn tasks_get_their_records_in_submission_order() {
    let mut runtime = Runtime::init(config_with(1)).unwrap();
    for round in 0..4 {
        let fails = round % 2 == 1;
        let task = runtime
            .create_task(
                move || if fails { Err(PrismError::Success) } else { Ok(()) },
                TaskConfig::default(),
            )
            .unwrap();
        assert_eq!(runtime.execute(task).is_err(), fails);
    }
    let executor = runtime.executor();
    assert_eq!(executor.len(), 4);
    assert_eq!(executor.status(0), Some(TaskStatus::Completed));
    assert_eq!(executor.status(1), Some(TaskStatus::Failed));
    assert_eq!(executor.failure(1), Some(ErrorKind::Success));
    assert_eq!(executor.status(2), Some(TaskStatus::Completed));
    assert_eq!(executor.status(3), Some(TaskStatus::Failed));
}

#[test]
fn slow_task_times_out_and_the_next_one_runs() {
    let mut runtime = Runtime::init(config_with(1)).unwrap();
    let config = TaskConfig { priority: Priority::Normal, requires_crystal: false, timeout_ms: Some(1) };
    let slow = runtime
        .create_task(
            || {
                let started = std::time::Instant::now();
                while started.elapsed().as_millis() < 10 {
                    std::hint::spin_loop();
                }
                Ok(())
            },
            config,
        )
        .unwrap();
    let answer = runtime.execute(slow);
    assert!(matches!(
        answer,
        Err(PrismError::Runtime(ref m)) if m == "Operation timed out: task exceeded its deadline"
    ));
    assert_eq!(runtime.executor().status(0), Some(TaskStatus::Failed));
    assert_eq!(runtime.executor().failure(0), Some(ErrorKind::Timeout));
    assert_eq!(runtime.executor().free_slots(), 1);

    let patient = TaskConfig { timeout_ms: Some(3_600_000), ..config };
    let next = runtime.create_task(|| Ok(()), patient).unwrap();
    assert!(runtime.execute(next).is_ok());
    assert_eq!(runtime.executor().status(1), Some(TaskStatus::Completed));
}

#[test]
fn runtime_comes_apart_for_stepwise_driving() {
    let runtime = Runtime::init(config_with(3)).unwrap();
    let task = runtime.create_task(|| Ok(()), TaskConfig::default()).unwrap();
    let (mut executor, crystal, config) = runtime.into_parts();
    assert_eq!(config.thread_count, 3);
    assert_eq!(executor.capacity(), 3);
    assert!(Arc::ptr_eq(&crystal, executor.crystal().unwrap()));
    let (id, job) = executor.enqueue(task).unwrap();
    assert!(executor.try_start(id));
    assert!(executor.finish(id, job(), 0).is_ok());
    assert_eq!(executor.status(id), Some(TaskStatus::Completed));
}

#[test]
fn prelude_names_the_main_types() {
    fn run() -> prism::Result<prism::prelude::TaskStatus> {
        let mut runtime = prism::prelude::Runtime::init(prism::prelude::RuntimeConfig::for_host(2))?;
        let task = runtime.create_task(done, prism::prelude::TaskConfig::default())?;
        let status = task.status();
        runtime.execute(task)?;
        Ok(status)
    }
    assert_eq!(run().unwrap(), TaskStatus::Ready);
}
