//! A sub-agent that completes every task at once.

use vstd::prelude::*;
use vstd::string::*;
use crate::agent::{Agent, TaskContext, TaskError, TaskResult, TaskStatus, completed_with};

verus! {

#[derive(Debug)]
pub struct SubAgent;

impl Agent for SubAgent {
    fn name(&self) -> (r: &'static str)
        ensures
            r@ == "gorkforge-subagent"@,
    {
        "gorkforge-subagent"
    }

    fn run(&self, context: &TaskContext) -> (r: Result<TaskResult, TaskError>)
        ensures
            completed_with(r, "subagent stub for task: "@ + context.task@),
    {
        let mut out = String::new();
        out.append("subagent stub for task: ");
        out.append(context.task.as_str());
        Ok(TaskResult { status: TaskStatus::Completed, output: out })
    }
}

} // verus!
