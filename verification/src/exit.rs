//! How the end of a node's long-running task is reported.

use vstd::prelude::*;

verus! {

/// An error a task ended with: how it displays, and its debug form with its causes.
#[derive(Debug, Clone)]
pub struct TaskError {
    pub message: String,
    pub cause_chain: String,
}

/// How loud a report is.
#[derive(Debug, Clone, Copy, PartialEq, Eq, Structural)]
pub enum Level {
    Info,
    Error,
}

/// A report of how a task ended: its level, its text, and the error it ended with, if any.
#[derive(Debug, Clone)]
pub struct ExitReport {
    pub level: Level,
    pub text: String,
    pub error: Option<TaskError>,
}

/// The report of the end of the task `task_name`: `outcome` is what the task returned, or
/// the error of the runtime when the task did not run to its end.
pub fn report_exit(task_name: &str, outcome: Result<Result<(), TaskError>, TaskError>) -> (report: ExitReport)
    ensures
        match outcome {
            Ok(Ok(())) => report.level == Level::Info && report.text@ == task_name@ + " has exited"@
                && report.error is None,
            Ok(Err(e)) => report.level == Level::Error && report.text@ == task_name@ + " failed"@
                && report.error == Some(e),
            Err(e) => report.level == Level::Error && report.text@ == task_name@
                + "' task failed to complete"@ && report.error == Some(e),
        },
{
    let name = String::from_str(task_name);
    match outcome {
        Ok(Ok(())) => ExitReport { level: Level::Info, text: name.concat(" has exited"), error: None },
        Ok(Err(e)) => ExitReport { level: Level::Error, text: name.concat(" failed"), error: Some(e) },
        Err(e) => ExitReport {
            level: Level::Error,
            text: name.concat("' task failed to complete"),
            error: Some(e),
        },
    }
}

} // verus!
