//! The headless platform shell, which answers every task at once.

use vstd::prelude::*;
use vstd::string::*;
use crate::agent::{TaskContext, TaskError};
use crate::platform::Platform;

verus! {

#[derive(Debug)]
pub struct HeadlessPlatform;

impl Platform for HeadlessPlatform {
    fn name(&self) -> (r: &'static str)
        ensures
            r@ == "headless"@,
    {
        "headless"
    }

    open spec fn answers(&self, context: TaskContext, result: Result<String, TaskError>) -> bool {
        result matches Ok(s) && s@ == "headless platform stub: "@ + context.task@
    }

    fn execute_task(&self, context: &TaskContext) -> (r: Result<String, TaskError>) {
        let mut out = String::new();
        out.append("headless platform stub: ");
        out.append(context.task.as_str());
        Ok(out)
    }
}

pub fn new_stub() -> HeadlessPlatform {
    HeadlessPlatform
}

} // verus!
