//! What every runnable task has in common: its statuses, and how a status
//! follows from what happened to the task's process.

use vstd::prelude::*;

verus! {

/// The state of a task, as seen from outside.
#[derive(Debug, PartialEq, Eq)]
pub enum RunnableStatus {
    /// The task has no process yet.
    Waiting,
    /// The task's process has not been seen to exit.
    Running,
    /// The task's process exited with success.
    Finished,
    /// The task's process was sent the signal that ends it.
    Killed,
    /// Something went wrong; the message says what.
    Error(String),
}

/// The mathematical value of a [`RunnableStatus`].
pub enum StatusView {
    Waiting,
    Running,
    Finished,
    Killed,
    Error(Seq<char>),
}

impl View for RunnableStatus {
    type V = StatusView;

    open spec fn view(&self) -> StatusView {
        match self {
            RunnableStatus::Waiting => StatusView::Waiting,
            RunnableStatus::Running => StatusView::Running,
            RunnableStatus::Finished => StatusView::Finished,
            RunnableStatus::Killed => StatusView::Killed,
            RunnableStatus::Error(message) => StatusView::Error(message@),
        }
    }
}

/// How a process ended: whether its exit code means success, and the exit
/// status as text.
#[derive(Debug, PartialEq, Eq)]
pub struct ExitReport {
    pub success: bool,
    pub status: String,
}

/// A unit of work that can be started, asked for its status, and killed.
///
/// The work itself runs in a process that the caller handles. Each method
/// takes what the operating system answered and returns the status that
/// follows from it.
pub trait Runnable {
    /// Whether the task owns a process: true from the first successful
    /// start on.
    spec fn owns_process(&self) -> bool;

    /// Whether the task owns a process. While it does not, there is
    /// nothing to poll and nothing to signal.
    fn has_process(&self) -> (owned: bool)
        ensures
            owned == self.owns_process(),
    ;

    /// Records an attempt to start the task's process. `spawned` is `Ok`
    /// when the process was started, and holds the reason when it was not.
    ///
    /// A start that failed leaves the task as it was: a task that was
    /// waiting is still waiting, and the error is in the status returned.
    fn start(&mut self, spawned: Result<(), String>) -> (status: RunnableStatus)
        ensures
            spawned is Ok ==> status@ == StatusView::Running,
            spawned is Err ==> status@ is Error,
            final(self).owns_process() == (old(self).owns_process() || spawned is Ok),
    ;

    /// The status of the task. `exit` is how the task's process ended, or
    /// `None` when it has not ended or when there is no process to ask.
    fn status(&self, exit: Option<ExitReport>) -> (status: RunnableStatus)
        ensures
            !self.owns_process() ==> status@ == StatusView::Waiting,
            self.owns_process() && exit is None ==> status@ == StatusView::Running,
            self.owns_process() && exit is Some && exit->0.success ==> status@
                == StatusView::Finished,
            self.owns_process() && exit is Some && !exit->0.success ==> status@ is Error,
    ;

    /// Records an attempt to kill the task's process. `delivered` says
    /// whether the signal reached the process; it counts for nothing when
    /// the task has no process.
    fn kill(&mut self, delivered: bool) -> (status: RunnableStatus)
        ensures
            !old(self).owns_process() ==> status@ == StatusView::Waiting,
            old(self).owns_process() && delivered ==> status@ == StatusView::Killed,
            old(self).owns_process() && !delivered ==> status@ is Error,
            final(self).owns_process() == old(self).owns_process(),
    ;
}

} // verus!
