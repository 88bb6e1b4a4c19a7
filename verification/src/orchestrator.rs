//! An orchestrator that completes every task at once.

use vstd::prelude::*;
use vstd::string::*;
use crate::agent::{Orchestrator, TaskContext, TaskError, TaskResult, TaskStatus, completed_with};

verus! {

#[derive(Debug)]
pub struct CoreOrchestrator;

impl Orchestrator for CoreOrchestrator {
    fn name(&self) -> (r: &'static str)
        ensures
            r@ == "gorkforge-orchestrator"@,
    {
        "gorkforge-orchestrator"
    }

    fn coordinate(&self, context: &TaskContext) -> (r: Result<TaskResult, TaskError>)
        ensures
            completed_with(r, "orchestrator stub for task: "@ + context.task@),
    {
        let mut out = String::new();
        out.append("orchestrator stub for task: ");
        out.append(context.task.as_str());
        Ok(TaskResult { status: TaskStatus::Completed, output: out })
    }
}

} // verus!
