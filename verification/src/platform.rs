//! The platform interface and running a task on a platform.

use vstd::prelude::*;
use crate::agent::{TaskContext, TaskError};

verus! {

/// A shell around the core (command line, desktop, web, headless) that
/// carries out tasks.
pub trait Platform {
    fn name(&self) -> &'static str;

    /// Whether `result` is an answer this platform gives for `context`.
    spec fn answers(&self, context: TaskContext, result: Result<String, TaskError>) -> bool;

    fn execute_task(&self, context: &TaskContext) -> (r: Result<String, TaskError>)
        ensures
            self.answers(*context, r),
    ;
}

/// Builds the task context from its parts and hands it to the platform.
pub fn run_with_platform<P: Platform>(
    platform: &P,
    task: String,
    spec: Option<String>,
    policy: Option<String>,
    max_iter: Option<u32>,
) -> (r: Result<String, TaskError>)
    ensures
        platform.answers(
            (TaskContext { task: task, spec_file: spec, policy_file: policy, max_iter: max_iter }),
            r,
        ),
        call_ensures(
            P::execute_task,
            (platform, &(TaskContext { task: task, spec_file: spec, policy_file: policy, max_iter: max_iter })),
            r,
        ),
{
    let context = TaskContext { task, spec_file: spec, policy_file: policy, max_iter };
    platform.execute_task(&context)
}

} // verus!
