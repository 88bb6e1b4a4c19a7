//! The core agent, which completes every task at once.

use vstd::prelude::*;
use vstd::string::*;
use crate::agent::{Agent, TaskContext, TaskError, TaskResult, TaskStatus, completed_with};

verus! {

#[derive(Debug)]
pub struct CoreAgent;

impl Agent for CoreAgent {
    fn name(&self) -> (r: &'static str)
        ensures
            r@ == "agent"@,
    {
        "agent"
    }

    fn run(&self, context: &TaskContext) -> (r: Result<TaskResult, TaskError>)
        ensures
            completed_with(r, "agent stub ran '"@ + context.task@ + "'"@),
    {
        let mut out = String::new();
        out.append("agent stub ran '");
        out.append(context.task.as_str());
        out.append("'");
        Ok(TaskResult { status: TaskStatus::Completed, output: out })
    }
}

pub fn new_agent() -> CoreAgent {
    CoreAgent
}

} // verus!
