//! Task records, the agent and orchestrator interfaces, the mock LLM and
//! the stub agent.

use vstd::prelude::*;
use vstd::string::*;
use crate::text::{
    debug_opt_string, debug_opt_u32, opt_nat_debug, opt_str_debug, opt_u32_nat, opt_view,
};

verus! {

/// What an agent is asked to do.
#[derive(Clone, Debug)]
pub struct TaskContext {
    pub task: String,
    pub spec_file: Option<String>,
    pub policy_file: Option<String>,
    pub max_iter: Option<u32>,
}

/// How a task ended.
#[derive(Clone, Copy, Debug, PartialEq, Eq, Structural)]
pub enum TaskStatus {
    Completed,
    Deferred,
    Failed,
}

/// The outcome of a task: its status and a text for the user.
#[derive(Clone, Debug)]
pub struct TaskResult {
    pub status: TaskStatus,
    pub output: String,
}

/// Why a task could not produce a result at all.
#[derive(Clone, Debug)]
pub struct TaskError {
    pub message: String,
}

/// An agent that runs tasks.
pub trait Agent {
    fn name(&self) -> &'static str;

    fn run(&self, context: &TaskContext) -> Result<TaskResult, TaskError>;
}

/// An agent that coordinates other agents on a task.
pub trait Orchestrator {
    fn name(&self) -> &'static str;

    fn coordinate(&self, context: &TaskContext) -> Result<TaskResult, TaskError>;
}

/// A completed result whose output holds exactly `text`.
pub open spec fn completed_with(r: Result<TaskResult, TaskError>, text: Seq<char>) -> bool {
    r matches Ok(res) && res.status == TaskStatus::Completed && res.output@ == text
}

#[derive(Debug, Default, Clone)]
pub struct MockLlmConfig {
    pub model: String,
}

/// A stand-in language model that echoes its prompt.
#[derive(Debug, Default, Clone)]
pub struct MockLlm {
    pub config: MockLlmConfig,
}

impl MockLlm {
    /// A mock model named `mock-gpt`.
    pub fn new() -> (m: Self)
        ensures
            m.config.model@ == "mock-gpt"@,
    {
        let mut model = String::new();
        model.append("mock-gpt");
        MockLlm { config: MockLlmConfig { model } }
    }

    /// Answers with the prompt, tagged with the model's name.
    pub fn infer(&self, prompt: &str) -> (r: String)
        ensures
            r@ == "[mock:"@ + self.config.model@ + "] "@ + prompt@,
    {
        let mut r = String::new();
        r.append("[mock:");
        r.append(self.config.model.as_str());
        r.append("] ");
        r.append(prompt);
        r
    }
}

/// An agent that completes every task at once and reports what it was given.
#[derive(Default)]
pub struct StubAgent;

pub open spec fn stub_agent_output(c: TaskContext) -> Seq<char> {
    "agent stub executed task '"@ + c.task@ + "' with spec="@ + opt_str_debug(opt_view(c.spec_file))
        + " policy="@ + opt_str_debug(opt_view(c.policy_file)) + " max_iter="@ + opt_nat_debug(
        opt_u32_nat(c.max_iter),
    )
}

impl Agent for StubAgent {
    fn name(&self) -> (r: &'static str)
        ensures
            r@ == "stub-agent"@,
    {
        "stub-agent"
    }

    fn run(&self, context: &TaskContext) -> (r: Result<TaskResult, TaskError>)
        ensures
            completed_with(r, stub_agent_output(*context)),
    {
        let mut out = String::new();
        out.append("agent stub executed task '");
        out.append(context.task.as_str());
        out.append("' with spec=");
        let s = debug_opt_string(&context.spec_file);
        out.append(s.as_str());
        out.append(" policy=");
        let p = debug_opt_string(&context.policy_file);
        out.append(p.as_str());
        out.append(" max_iter=");
        let m = debug_opt_u32(context.max_iter);
        out.append(m.as_str());
        Ok(TaskResult { status: TaskStatus::Completed, output: out })
    }
}

} // verus!
