//! The task that runs a shell script.

use super::tasks::{ExitReport, Runnable, RunnableStatus, StatusView};
use std::path::PathBuf;
use vstd::prelude::*;

verus! {

/// `std::path::PathBuf`, which a task carries and never looks into.
#[verifier::external_type_specification]
#[verifier::external_body]
pub struct ExPathBuf(PathBuf);

/// The shell that runs the script, with the script's path as its one
/// argument.
pub const SHELL: &'static str = "bash";

/// The permission bits that let the owner, the group or anyone else
/// execute a file.
pub const EXECUTE_BITS: u32 = 0o111;

/// What the file system says about the path of a script.
#[derive(Clone, Copy, Debug, PartialEq, Eq, Structural)]
pub struct ScriptFacts {
    /// Whether anything exists at the path.
    pub exists: bool,
    /// Whether what exists there is a regular file.
    pub is_file: bool,
    /// The permission bits of the file; read only for a regular file.
    pub mode: u32,
}

/// Why a script was refused.
#[derive(Clone, Copy, Debug, PartialEq, Eq, Structural)]
pub enum ValidationError {
    /// Nothing exists at the path.
    NotFound,
    /// The path exists and is not a regular file.
    InvalidInput,
    /// The file has none of the three execute bits.
    PermissionDenied,
}

/// Whether `mode` has at least one of the three execute bits.
pub open spec fn is_executable(mode: u32) -> bool {
    (mode & 0o111) != 0
}

/// The reason for which a script with these facts is refused, if any.
/// Existence is looked at first, then the kind of file, then the mode.
pub open spec fn script_error(facts: ScriptFacts) -> Option<ValidationError> {
    if !facts.exists {
        Some(ValidationError::NotFound)
    } else if !facts.is_file {
        Some(ValidationError::InvalidInput)
    } else if !is_executable(facts.mode) {
        Some(ValidationError::PermissionDenied)
    } else {
        None
    }
}

/// The status after an attempt to start a script: running, or an error
/// that holds the reason for which no process could be started.
pub open spec fn start_status(spawned: Result<(), String>) -> StatusView {
    match spawned {
        Ok(_) => StatusView::Running,
        Err(reason) => StatusView::Error("Failed to start script: "@ + reason@),
    }
}

/// The status of a script task, given whether it owns a process and, if
/// that process was seen to have exited, how. A failed exit is an error
/// that holds the exit status.
pub open spec fn poll_status(owns_process: bool, exit: Option<ExitReport>) -> StatusView {
    if !owns_process {
        StatusView::Waiting
    } else {
        match exit {
            None => StatusView::Running,
            Some(report) => if report.success {
                StatusView::Finished
            } else {
                StatusView::Error("Script failed with status "@ + report.status@)
            },
        }
    }
}

/// The status after an attempt to kill a script task, given whether it
/// owns a process and whether the signal was delivered.
pub open spec fn kill_status(owns_process: bool, delivered: bool) -> StatusView {
    if !owns_process {
        StatusView::Waiting
    } else if delivered {
        StatusView::Killed
    } else {
        StatusView::Error("Failed to kill script"@)
    }
}

/// A task that runs a script through a shell.
pub struct BashScriptTask {
    script: PathBuf,
    owns_process: bool,
}

impl BashScriptTask {
    /// The path of the script.
    pub closed spec fn script_path(&self) -> PathBuf {
        self.script
    }

    /// A task for the script at `script`, about which the file system says
    /// `facts`. The task waits to be started.
    ///
    /// Fails with [`ValidationError::NotFound`] when nothing exists at the path,
    /// with [`ValidationError::InvalidInput`] when it is not a regular file, and
    /// with [`ValidationError::PermissionDenied`] when the file has no execute
    /// bit.
    pub fn new(script: PathBuf, facts: ScriptFacts) -> (r: Result<BashScriptTask, ValidationError>)
        ensures
            match script_error(facts) {
                Some(e) => r matches Err(err) && err == e,
                None => r matches Ok(task) && task.script_path() == script
                    && !task.owns_process(),
            },
    {
        if !facts.exists {
            return Err(ValidationError::NotFound);
        }
        if !facts.is_file {
            return Err(ValidationError::InvalidInput);
        }
        if facts.mode & EXECUTE_BITS == 0 {
            return Err(ValidationError::PermissionDenied);
        }
        Ok(BashScriptTask { script, owns_process: false })
    }

    /// The path of the script.
    pub fn script(&self) -> (path: &PathBuf)
        ensures
            *path == self.script_path(),
    {
        &self.script
    }
}

impl Runnable for BashScriptTask {
    closed spec fn owns_process(&self) -> bool {
        self.owns_process
    }

    fn has_process(&self) -> (owned: bool) {
        self.owns_process
    }

    fn start(&mut self, spawned: Result<(), String>) -> (status: RunnableStatus)
        ensures
            status@ == start_status(spawned),
            final(self).script_path() == old(self).script_path(),
    {
        match spawned {
            Ok(_) => {
                self.owns_process = true;
                RunnableStatus::Running
            },
            Err(reason) => {
                let message = String::from_str("Failed to start script: ").concat(reason.as_str());
                RunnableStatus::Error(message)
            },
        }
    }

    fn status(&self, exit: Option<ExitReport>) -> (status: RunnableStatus)
        ensures
            status@ == poll_status(self.owns_process(), exit),
    {
        if !self.owns_process {
            return RunnableStatus::Waiting;
        }
        match exit {
            None => RunnableStatus::Running,
            Some(report) => {
                if report.success {
                    RunnableStatus::Finished
                } else {
                    let message = String::from_str("Script failed with status ").concat(
                        report.status.as_str(),
                    );
                    RunnableStatus::Error(message)
                }
            },
        }
    }

    fn kill(&mut self, delivered: bool) -> (status: RunnableStatus)
        ensures
            status@ == kill_status(old(self).owns_process(), delivered),
            final(self).script_path() == old(self).script_path(),
    {
        if !self.owns_process {
            RunnableStatus::Waiting
        } else if delivered {
            RunnableStatus::Killed
        } else {
            RunnableStatus::Error(String::from_str("Failed to kill script"))
        }
    }
}

} // verus!
