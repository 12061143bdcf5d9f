//! Tasks: a computation, its configuration and its binding to the lattice,
//! as they stand before submission.

use crate::crystal::Crystal;
use crate::types::{Priority, PrismError, PrismResult, TaskStatus};
use std::sync::Arc;
use vstd::prelude::*;

verus! {

/// How a task is to be scheduled. Fixed once a task is built from it.
#[derive(Debug, Clone, Copy)]
pub struct TaskConfig {
    /// Urgency of the task among those waiting for a worker slot.
    pub priority: Priority,
    /// Whether the task needs the lattice to run.
    pub requires_crystal: bool,
    /// Deadline for the computation in milliseconds, if there is one.
    pub timeout_ms: Option<u64>,
}

impl Default for TaskConfig {
    fn default() -> (config: Self)
        ensures
            config.priority == Priority::Normal,
            !config.requires_crystal,
            config.timeout_ms is None,
    {
        TaskConfig { priority: Priority::Normal, requires_crystal: false, timeout_ms: None }
    }
}

/// A unit of work that has not been submitted yet. It owns its computation
/// until submission, which takes the task apart: the computation goes to
/// whoever drives it, and from then on the executor's record of the task
/// tells how the task stands.
pub struct Task<F> {
    computation: F,
    config: TaskConfig,
    crystal: Option<Arc<Crystal>>,
    status: TaskStatus,
}

impl<F> Task<F> {
    /// A task that nobody has submitted is `Ready`, and one that needs the
    /// lattice holds a handle to it.
    #[verifier::type_invariant]
    spec fn wf(&self) -> bool {
        &&& self.status == TaskStatus::Ready
        &&& self.config.requires_crystal ==> self.crystal is Some
    }

    /// The computation that the task wraps.
    pub closed spec fn computation_spec(&self) -> F {
        self.computation
    }

    /// The configuration that the task was built from.
    pub closed spec fn config_spec(&self) -> TaskConfig {
        self.config
    }

    /// The lattice that the task is bound to, if any.
    pub closed spec fn crystal_spec(&self) -> Option<Arc<Crystal>> {
        self.crystal
    }

    /// The lifecycle state of the task.
    pub closed spec fn status_spec(&self) -> TaskStatus {
        self.status
    }

    /// Wraps a computation and its configuration into a task, bound to the
    /// given lattice. Fails with a `Task` error when the configuration asks
    /// for the lattice and none is given.
    pub fn new(computation: F, config: TaskConfig, crystal: Option<Arc<Crystal>>) -> (r:
        PrismResult<Task<F>>)
        ensures
            r is Err <==> config.requires_crystal && crystal is None,
            r matches Ok(task) ==> {
                &&& task.status_spec() == TaskStatus::Ready
                &&& task.computation_spec() == computation
                &&& task.config_spec() == config
                &&& task.crystal_spec() == crystal
            },
            r matches Err(e) ==> e matches PrismError::Task(m) && m@
                == "resource binding requested but no crystal supplied"@,
    {
        if config.requires_crystal && crystal.is_none() {
            return Err(
                PrismError::Task("resource binding requested but no crystal supplied".to_owned()),
            );
        }
        Ok(Task { computation, config, crystal, status: TaskStatus::Ready })
    }

    /// The lifecycle state of the task. A task in hand has not been
    /// submitted, so it is `Ready`.
    pub fn status(&self) -> (status: TaskStatus)
        ensures
            status == self.status_spec(),
            status == TaskStatus::Ready,
    {
        proof {
            use_type_invariant(self);
        }
        self.status
    }

    /// The configuration that the task was built from.
    pub fn config(&self) -> (config: &TaskConfig)
        ensures
            *config == self.config_spec(),
    {
        &self.config
    }

    /// The priority of the task.
    pub fn priority(&self) -> (priority: Priority)
        ensures
            priority == self.config_spec().priority,
    {
        self.config.priority
    }

    /// The lattice that the task is bound to, if any. A task that needs the
    /// lattice always has one.
    pub fn crystal(&self) -> (crystal: Option<&Arc<Crystal>>)
        ensures
            match crystal {
                Some(handle) => self.crystal_spec() == Some(*handle),
                None => self.crystal_spec() is None,
            },
            self.config_spec().requires_crystal ==> crystal is Some,
    {
        proof {
            use_type_invariant(self);
        }
        self.crystal.as_ref()
    }

    /// Takes the task apart at submission: its computation, which the
    /// executor will drive, and its configuration.
    pub fn into_parts(self) -> (parts: (F, TaskConfig))
        ensures
            parts.0 == self.computation_spec(),
            parts.1 == self.config_spec(),
    {
        (self.computation, self.config)
    }
}

} // verus!
