//! The desktop platform shell, which answers every task at once.

use vstd::prelude::*;
use vstd::string::*;
use crate::agent::{TaskContext, TaskError};
use crate::platform::Platform;

verus! {

#[derive(Debug)]
pub struct DesktopPlatform;

impl Platform for DesktopPlatform {
    fn name(&self) -> (r: &'static str)
        ensures
            r@ == "gorkforge-desktop"@,
    {
        "gorkforge-desktop"
    }

    open spec fn answers(&self, context: TaskContext, result: Result<String, TaskError>) -> bool {
        result matches Ok(s) && s@ == "desktop platform stub for task: "@ + context.task@
    }

    fn execute_task(&self, context: &TaskContext) -> (r: Result<String, TaskError>) {
        let mut out = String::new();
        out.append("desktop platform stub for task: ");
        out.append(context.task.as_str());
        Ok(out)
    }
}

} // verus!
