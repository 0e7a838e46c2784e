//! Runnable tasks: the statuses a task can report, and the task that runs
//! a shell script.
//!
//! Nothing here touches the operating system. The caller spawns, polls and
//! signals the process, and tells the task what came of it; the task keeps
//! the books and says what its status is.

pub mod bash;
pub mod tasks;

pub use bash::{BashScriptTask, ScriptFacts, ValidationError, SHELL};
pub use tasks::{ExitReport, Runnable, RunnableStatus, StatusView};
