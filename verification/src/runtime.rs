//! The runtime: the facade that owns the lattice and the executor.

use crate::crystal::{holders, share, Crystal};
use crate::executor::TaskExecutor;
use crate::schedule::{
    advances, fresh_record, ran, running_count, starts_at_once, withdrawn, TaskRecord,
};
use crate::task::{Task, TaskConfig};
use crate::types::{PatternType, PrismError, PrismResult, TaskStatus};
use std::sync::Arc;
use vstd::prelude::*;

verus! {

/// Stack reserved for a task unless the configuration says otherwise: 2 MiB.
pub const DEFAULT_STACK_SIZE: usize = 2 * 1024 * 1024;

/// Configuration of a runtime. Read-only once the runtime is initialized.
#[derive(Debug, Clone, Copy)]
pub struct RuntimeConfig {
    /// Number of worker slots; at least one.
    pub thread_count: u32,
    /// Stack size reserved for each task, in bytes.
    pub stack_size: usize,
    /// Whether workers are hardware threads.
    pub use_hardware_threads: bool,
    /// Optional ceiling on the memory of the runtime, in bytes.
    pub memory_limit: Option<usize>,
}

/// `num_cpus::get` gives the number of logical CPUs that the process can
/// use, which differs from machine to machine and from run to run. Its
/// documentation promises that the number is at least one; nothing more is
/// claimed of it.
#[verifier::external_body]
fn host_parallelism() -> (cpus: usize)
    ensures
        cpus >= 1,
{
    num_cpus::get()
}

impl RuntimeConfig {
    /// A configuration is valid when it names at least one worker.
    pub open spec fn valid(&self) -> bool {
        self.thread_count >= 1
    }

    /// The number of workers for a host with `cpus` CPUs: one for each, but
    /// at least one and no more than the count can hold.
    pub open spec fn workers_for(cpus: usize) -> u32 {
        if cpus < 1 {
            1
        } else if cpus > u32::MAX {
            u32::MAX
        } else {
            cpus as u32
        }
    }

    /// Whether the configuration names at least one worker.
    #[verifier::when_used_as_spec(valid)]
    pub fn is_valid(&self) -> (valid: bool)
        ensures
            valid == self.valid(),
    {
        self.thread_count >= 1
    }

    /// The default configuration for a host with `cpus` CPUs: one worker for
    /// each, the default stack size, hardware threads, and no memory ceiling.
    pub fn for_host(cpus: usize) -> (config: RuntimeConfig)
        ensures
            config.valid(),
            config.thread_count == RuntimeConfig::workers_for(cpus),
            config.stack_size == DEFAULT_STACK_SIZE,
            config.use_hardware_threads,
            config.memory_limit is None,
    {
        let thread_count: u32 = if cpus < 1 {
            1
        } else if cpus > 0xffff_ffff {
            u32::MAX
        } else {
            cpus as u32
        };
        RuntimeConfig {
            thread_count,
            stack_size: DEFAULT_STACK_SIZE,
            use_hardware_threads: true,
            memory_limit: None,
        }
    }
}

impl Default for RuntimeConfig {
    /// The default configuration for this host: `for_host` of the number of
    /// CPUs that the host reports, whatever that number is.
    fn default() -> (config: Self)
        ensures
            config.valid(),
            config.stack_size == DEFAULT_STACK_SIZE,
            config.use_hardware_threads,
            config.memory_limit is None,
    {
        RuntimeConfig::for_host(host_parallelism())
    }
}

/// How the runtime passes on what its executor answered: `Ok` as it is, an
/// error as a `Runtime` error whose message is the text of that error.
pub open spec fn passes_on(answer: PrismResult<()>, report: PrismResult<()>) -> bool {
    match answer {
        Ok(_) => report is Ok,
        Err(e) => report matches Err(PrismError::Runtime(m)) && m@ == e.text(),
    }
}

/// The runtime: one lattice, shared with every task created through the
/// runtime, and one executor bound to it.
pub struct Runtime {
    executor: TaskExecutor,
    crystal: Arc<Crystal>,
    config: RuntimeConfig,
}

impl Runtime {
    /// A runtime is well formed when its executor is bound to its lattice
    /// and has as many worker slots as its configuration names. `init`
    /// gives such a runtime and every method keeps it so.
    pub closed spec fn wf(&self) -> bool {
        &&& self.executor.crystal_spec() == Some(self.crystal)
        &&& self.executor.capacity_spec() == self.config.thread_count
    }

    /// The configuration that the runtime was initialized with.
    pub closed spec fn config_spec(&self) -> RuntimeConfig {
        self.config
    }

    /// The lattice of the runtime.
    pub closed spec fn crystal_spec(&self) -> Arc<Crystal> {
        self.crystal
    }

    /// The executor of the runtime.
    pub closed spec fn executor_spec(&self) -> TaskExecutor {
        self.executor
    }

    /// The records of the tasks submitted so far, in submission order.
    pub open spec fn tasks(&self) -> Seq<TaskRecord> {
        self.executor_spec()@
    }

    /// Initializes a runtime: creates a cubic lattice and an executor bound
    /// to it with `config.thread_count` worker slots. Succeeds for every
    /// valid configuration, and fails with a `Runtime` error when the
    /// configuration names no worker.
    pub fn init(config: RuntimeConfig) -> (r: PrismResult<Runtime>)
        ensures
            r is Ok <==> config.valid(),
            r matches Ok(runtime) ==> {
                &&& runtime.wf()
                &&& runtime.config_spec() == config
                &&& runtime.crystal_spec().system_spec() == PatternType::Cubic
                &&& runtime.tasks() == Seq::<TaskRecord>::empty()
                &&& runtime.executor_spec().capacity_spec() == config.thread_count
                &&& runtime.executor_spec().crystal_spec() == Some(runtime.crystal_spec())
            },
            r matches Err(e) ==> e matches PrismError::Runtime(m) && m@ == "Runtime error: "@
                + "worker pool needs at least one worker"@,
    {
        let crystal = match Crystal::new(PatternType::Cubic) {
            Ok(crystal) => Arc::new(crystal),
            Err(e) => {
                return Err(PrismError::Runtime(e.to_string()));
            },
        };
        let executor = match TaskExecutor::new(Some(share(&crystal)), config.thread_count) {
            Ok(executor) => executor,
            Err(e) => {
                return Err(PrismError::Runtime(e.to_string()));
            },
        };
        Ok(Runtime { executor, crystal, config })
    }

    /// Creates a task bound to the lattice of the runtime. The task is
    /// `Ready`; nothing is started.
    pub fn create_task<F>(&self, computation: F, config: TaskConfig) -> (r: PrismResult<Task<F>>)
        ensures
            r matches Ok(task) && {
                &&& task.status_spec() == TaskStatus::Ready
                &&& task.computation_spec() == computation
                &&& task.config_spec() == config
                &&& task.crystal_spec() == Some(self.crystal_spec())
            },
    {
        match Task::new(computation, config, Some(share(&self.crystal))) {
            Ok(task) => Ok(task),
            Err(e) => Err(PrismError::Task(e.to_string())),
        }
    }

    /// Submits the task to the executor and returns when the task has
    /// reached its end. Whatever the executor answers with an error comes
    /// back as a `Runtime` error that carries the text of that error.
    ///
    /// The task leaves one more record, which is `Completed` exactly when
    /// the answer is `Ok` and `Failed` exactly when it is an error.
    pub fn execute<F: FnOnce() -> PrismResult<()>>(&mut self, task: Task<F>) -> (r: PrismResult<()>)
        requires
            old(self).wf(),
            call_requires(task.computation_spec(), ()),
        ensures
            final(self).wf(),
            final(self).config_spec() == old(self).config_spec(),
            final(self).crystal_spec() == old(self).crystal_spec(),
            final(self).tasks().len() == old(self).tasks().len() + 1,
            final(self).tasks().drop_last() == old(self).tasks(),
            advances(old(self).tasks(), final(self).tasks()),
            r is Ok <==> final(self).tasks().last().status == TaskStatus::Completed,
            r is Err <==> final(self).tasks().last().status == TaskStatus::Failed,
            r matches Err(e) ==> e is Runtime,
            running_count(final(self).tasks()) == running_count(old(self).tasks()),
            !starts_at_once(
                old(self).tasks(),
                old(self).config_spec().thread_count,
                task.config_spec().priority,
            ) ==> {
                &&& final(self).tasks() == old(self).tasks().push(
                    withdrawn(
                        fresh_record(task.config_spec().priority, task.config_spec().timeout_ms),
                    ),
                )
                &&& r matches Err(PrismError::Runtime(m))
                &&& m@ == "Runtime error: "@ + "no worker slot is free for the task"@
            },
            starts_at_once(
                old(self).tasks(),
                old(self).config_spec().thread_count,
                task.config_spec().priority,
            ) ==> exists|outcome: PrismResult<()>, elapsed_ms: u64, answer: PrismResult<()>|
                {
                    &&& call_ensures(task.computation_spec(), (), outcome)
                    &&& #[trigger] ran(
                        old(self).tasks(),
                        task.config_spec().priority,
                        task.config_spec().timeout_ms,
                        outcome,
                        elapsed_ms,
                        final(self).tasks(),
                        answer,
                    )
                    &&& passes_on(answer, r)
                },
    {
        match self.executor.submit(task) {
            Ok(done) => Ok(done),
            Err(e) => Err(PrismError::Runtime(e.to_string())),
        }
    }

    /// The lattice of the runtime.
    pub fn crystal(&self) -> (crystal: &Arc<Crystal>)
        ensures
            *crystal == self.crystal_spec(),
    {
        &self.crystal
    }

    /// The configuration that the runtime was initialized with.
    pub fn config(&self) -> (config: &RuntimeConfig)
        ensures
            *config == self.config_spec(),
    {
        &self.config
    }

    /// The executor of the runtime, to ask how the submitted tasks stand.
    pub fn executor(&self) -> (executor: &TaskExecutor)
        ensures
            *executor == self.executor_spec(),
    {
        &self.executor
    }

    /// The number of live handles to the lattice of the runtime at this
    /// moment. The runtime holds one itself, so there is at least one.
    pub fn crystal_holders(&self) -> (count: usize)
        ensures
            count >= 1,
    {
        holders(&self.crystal)
    }

    /// Takes the runtime apart into its executor, its lattice and its
    /// configuration, for a caller that drives the executor step by step.
    pub fn into_parts(self) -> (parts: (TaskExecutor, Arc<Crystal>, RuntimeConfig))
        ensures
            parts.0 == self.executor_spec(),
            parts.1 == self.crystal_spec(),
            parts.2 == self.config_spec(),
            self.wf() ==> parts.0.crystal_spec() == Some(parts.1) && parts.0.capacity_spec()
                == parts.2.thread_count,
    {
        (self.executor, self.crystal, self.config)
    }
}

} // verus!
