//! Prism: an in-process task runtime that schedules units of work against a
//! shared crystal lattice, with priority ordering, lifecycle tracking and a
//! bounded pool of worker slots.

use vstd::prelude::*;

mod clock;
pub mod crystal;
pub mod executor;
pub mod prelude;
pub mod runtime;
pub mod schedule;
pub mod task;
pub mod text;
pub mod types;

pub use crystal::Crystal;
pub use executor::TaskExecutor;
pub use runtime::{Runtime, RuntimeConfig};
pub use schedule::TaskRecord;
pub use task::{Task, TaskConfig};
pub use types::{ErrorKind, PatternType, Priority, PrismError, PrismResult, TaskStatus};

verus! {

/// Result type for operations of the runtime.
pub type Result<T> = std::result::Result<T, PrismError>;

/// Framework version.
pub const VERSION: &'static str = "0.1.0";

} // verus!
