//! The types that most users of the runtime need, in one import.

pub use crate::crystal::Crystal;
pub use crate::executor::TaskExecutor;
pub use crate::runtime::{Runtime, RuntimeConfig};
pub use crate::task::{Task, TaskConfig};
pub use crate::types::{PrismError, PrismResult, TaskStatus};
