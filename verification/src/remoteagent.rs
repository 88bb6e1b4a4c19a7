//! A remote agent that completes every task at once.

use vstd::prelude::*;
use vstd::string::*;
use crate::agent::{Agent, TaskContext, TaskError, TaskResult, TaskStatus, completed_with};

verus! {

#[derive(Debug)]
pub struct RemoteAgent;

impl Agent for RemoteAgent {
    fn name(&self) -> (r: &'static str)
        ensures
            r@ == "gorkforge-remoteagent"@,
    {
        "gorkforge-remoteagent"
    }

    fn run(&self, context: &TaskContext) -> (r: Result<TaskResult, TaskError>)
        ensures
            completed_with(r, "remoteagent stub for task: "@ + context.task@),
    {
        let mut out = String::new();
        out.append("remoteagent stub for task: ");
        out.append(context.task.as_str());
        Ok(TaskResult { status: TaskStatus::Completed, output: out })
    }
}

} // verus!
