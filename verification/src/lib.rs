//! Weekly availability calendar and script-task lifecycle for a personal
//! task-automation tool.
//!
//! * [`schedule`] records, on a fixed grid of time blocks, whether each
//!   moment of each weekday is free or busy.
//! * [`task`] holds the rules of a script-backed task: which scripts may be
//!   run, and how the status of a task follows from what the operating system
//!   reports about its process.

pub mod schedule;
pub mod task;
