//! The ReAct reasoning loop as a state machine: the caller asks the model,
//! runs the tools it calls and reports back; the session decides when the
//! task is done, failed or out of iterations. Also the system prompt, the
//! code context and the self-improvement cycle.

use vstd::prelude::*;
use vstd::string::*;
use crate::agent::{TaskContext, TaskResult, TaskStatus};
use crate::llm::{GrokTool, LlmMessage, LlmTurn};
use crate::text::{
    concat2, concat3, contains_str, decimal, decimal_string, has_substr, is_blank, lower_seq,
    owned, to_ascii_lowercase, trim,
};
use crate::tools::ToolSet;

verus! {

/// What the task text itself asks for.
#[derive(Debug)]
pub struct TaskFlags {
    /// The task carries `SELF_APPROVED: YES` (in any case).
    pub self_approved: bool,
    /// The task carries `PUSH_APPROVED: YES` (in any case).
    pub push_approved: bool,
    /// The task asks for a change, so it cannot be finished without tools.
    pub requires_tooling: bool,
}

pub open spec fn needs_tools(task: Seq<char>) -> bool {
    let l = lower_seq(task);
    ||| has_substr(l, "add"@)
    ||| has_substr(l, "create"@)
    ||| has_substr(l, "edit"@)
    ||| has_substr(l, "update"@)
    ||| has_substr(l, "append"@)
    ||| has_substr(l, "tree-sitter"@)
    ||| has_substr(l, "parse_rust_file"@)
}

/// A task that asks for a change needs tools: when its text, lower-cased,
/// holds `add`, `create`, `edit`, `update`, `append`, `tree-sitter` or
/// `parse_rust_file`, tools are required, and only then.
pub proof fn change_words_need_tools(task: Seq<char>)
    ensures
        has_substr(lower_seq(task), "add"@) ==> needs_tools(task),
        has_substr(lower_seq(task), "create"@) ==> needs_tools(task),
        has_substr(lower_seq(task), "edit"@) ==> needs_tools(task),
        has_substr(lower_seq(task), "update"@) ==> needs_tools(task),
        has_substr(lower_seq(task), "append"@) ==> needs_tools(task),
        has_substr(lower_seq(task), "tree-sitter"@) ==> needs_tools(task),
        has_substr(lower_seq(task), "parse_rust_file"@) ==> needs_tools(task),
        needs_tools(task) ==> has_substr(lower_seq(task), "add"@) || has_substr(
            lower_seq(task),
            "create"@,
        ) || has_substr(lower_seq(task), "edit"@) || has_substr(lower_seq(task), "update"@)
            || has_substr(lower_seq(task), "append"@) || has_substr(lower_seq(task), "tree-sitter"@)
            || has_substr(lower_seq(task), "parse_rust_file"@),
{
}

pub fn task_flags(task: &str) -> (r: TaskFlags)
    ensures
        r.self_approved == has_substr(lower_seq(task@), "self_approved: yes"@),
        r.push_approved == has_substr(lower_seq(task@), "push_approved: yes"@),
        r.requires_tooling == needs_tools(task@),
{
    let l = to_ascii_lowercase(task);
    let s = l.as_str();
    TaskFlags {
        self_approved: contains_str(s, "self_approved: yes"),
        push_approved: contains_str(s, "push_approved: yes"),
        requires_tooling: contains_str(s, "add") || contains_str(s, "create") || contains_str(
            s,
            "edit",
        ) || contains_str(s, "update") || contains_str(s, "append") || contains_str(
            s,
            "tree-sitter",
        ) || contains_str(s, "parse_rust_file"),
    }
}

impl ToolSet {
    /// A task that carries an approval grants it for the rest of the run;
    /// approvals are never taken back.
    pub fn apply_task_flags(&mut self, flags: &TaskFlags)
        ensures
            final(self).core_self_approved == (old(self).core_self_approved || flags.self_approved),
            final(self).push_self_approved == (old(self).push_self_approved || flags.push_approved),
            final(self).sandbox == old(self).sandbox,
            final(self).policy == old(self).policy,
    {
        self.core_self_approved = self.core_self_approved || flags.self_approved;
        self.push_self_approved = self.push_self_approved || flags.push_approved;
    }
}

/// What a turn of the model leads to.
#[derive(Debug)]
pub enum TurnOutcome {
    /// The task is over with this result.
    Finished(TaskResult),
    /// The model gave neither tool calls nor text, and no tool had failed:
    /// the run ends in an error.
    NoTerminalContent,
    /// Run the turn's tool calls, in order, and report each result.
    RunTools,
}

/// The result text when the iterations run out.
pub open spec fn max_iter_text(max_iter: u32, last_error: Option<String>) -> Seq<char> {
    match last_error {
        Some(e) => "max iterations reached: "@ + decimal(max_iter as nat) + " (last tool error: "@
            + e@ + ")"@,
        None => "max iterations reached: "@ + decimal(max_iter as nat),
    }
}

/// A turn has text when its content is there and not blank.
pub open spec fn turn_has_content(t: LlmTurn) -> bool {
    t.content matches Some(c) && trim(c@).len() > 0
}

/// A message with the given role, content and call id.
pub open spec fn is_message(m: LlmMessage, role: Seq<char>, content: Seq<char>, id: Option<String>) -> bool {
    m.role@ == role && m.content@ == content && m.tool_call_id == id
}

pub open spec fn failed_with(r: TaskResult, text: Seq<char>) -> bool {
    r.status == TaskStatus::Failed && r.output@ == text
}

/// The state of a ReAct run.
#[derive(Debug)]
pub struct ReActSession {
    pub requires_tooling: bool,
    pub max_iter: u32,
    /// Turns completed so far.
    pub iteration: u32,
    /// The conversation so far, starting with the task.
    pub messages: Vec<LlmMessage>,
    pub consecutive_tool_failures: u32,
    pub last_tool_error: Option<String>,
}

impl ReActSession {
    /// The session's invariant: it never runs more turns than allowed.
    pub open spec fn wf(&self) -> bool {
        self.iteration <= self.max_iter && self.messages@.len() >= 1
    }

    /// A session for a task: the conversation starts with the task as the
    /// user's message.
    pub fn start(task: &str, requires_tooling: bool, max_iter: u32) -> (r: ReActSession)
        ensures
            r.wf(),
            r.requires_tooling == requires_tooling,
            r.max_iter == max_iter,
            r.iteration == 0,
            r.consecutive_tool_failures == 0,
            r.last_tool_error is None,
            r.messages@.len() == 1,
            is_message(r.messages@[0], "user"@, task@, None),
    {
        let mut messages: Vec<LlmMessage> = Vec::new();
        messages.push(LlmMessage { role: owned("user"), content: owned(task), tool_call_id: None });
        ReActSession {
            requires_tooling,
            max_iter,
            iteration: 0,
            messages,
            consecutive_tool_failures: 0,
            last_tool_error: None,
        }
    }

    /// Before asking the model: the failed result when every allowed turn
    /// has been used.
    pub fn out_of_iterations(&self) -> (r: Option<TaskResult>)
        ensures
            self.iteration >= self.max_iter ==> (r matches Some(res) && failed_with(
                res,
                max_iter_text(self.max_iter, self.last_tool_error),
            )),
            self.iteration < self.max_iter ==> r is None,
    {
        if self.iteration < self.max_iter {
            return None;
        }
        let n = decimal_string(self.max_iter as u128);
        let out = match &self.last_tool_error {
            Some(e) => {
                let mut t = concat3("max iterations reached: ", n.as_str(), " (last tool error: ");
                t.append(e.as_str());
                t.append(")");
                t
            },
            None => concat2("max iterations reached: ", n.as_str()),
        };
        Some(TaskResult { status: TaskStatus::Failed, output: out })
    }

    /// Takes the model's turn. A turn without tool calls ends the task: a
    /// task that needs tools fails, a text answer completes it, and after a
    /// tool error the run fails with that error. More than 12 tool calls in
    /// one turn fail the task. Otherwise the turn's text joins the
    /// conversation and its tools are to be run.
    pub fn on_turn(&mut self, turn: &LlmTurn) -> (r: TurnOutcome)
        requires
            old(self).wf(),
        ensures
            final(self).wf(),
            final(self).iteration == old(self).iteration,
            final(self).max_iter == old(self).max_iter,
            final(self).requires_tooling == old(self).requires_tooling,
            final(self).consecutive_tool_failures == old(self).consecutive_tool_failures,
            final(self).last_tool_error == old(self).last_tool_error,
            if turn.tool_calls@.len() == 0 {
                &&& final(self).messages@ == old(self).messages@
                &&& if old(self).requires_tooling {
                    r matches TurnOutcome::Finished(res) && failed_with(
                        res,
                        "completion blocked: task requires tool usage"@,
                    )
                } else if turn_has_content(*turn) {
                    r matches TurnOutcome::Finished(res) && res.status == TaskStatus::Completed
                        && res.output == turn.content->Some_0
                } else if old(self).last_tool_error is Some {
                    r matches TurnOutcome::Finished(res) && failed_with(
                        res,
                        "assistant returned no tool calls after prior tool error: "@ + old(
                            self,
                        ).last_tool_error->Some_0@,
                    )
                } else {
                    r is NoTerminalContent
                }
            } else if turn.tool_calls@.len() > 12 {
                &&& final(self).messages@ == old(self).messages@
                &&& r matches TurnOutcome::Finished(res) && failed_with(
                    res,
                    "tool burst blocked: "@ + decimal(turn.tool_calls@.len()) + " tool calls in one turn"@,
                )
            } else {
                &&& r is RunTools
                &&& if turn_has_content(*turn) {
                    final(self).messages@.len() == old(self).messages@.len() + 1
                        && final(self).messages@.drop_last() == old(self).messages@ && is_message(
                        final(self).messages@.last(),
                        "assistant"@,
                        turn.content->Some_0@,
                        None,
                    )
                } else {
                    final(self).messages@ == old(self).messages@
                }
            },
    {
        let has_content = match &turn.content {
            Some(c) => !is_blank(c.as_str()),
            None => false,
        };
        if turn.tool_calls.len() == 0 {
            if self.requires_tooling {
                return TurnOutcome::Finished(
                    TaskResult {
                        status: TaskStatus::Failed,
                        output: owned("completion blocked: task requires tool usage"),
                    },
                );
            }
            if has_content {
                let c = match &turn.content {
                    Some(c) => c.clone(),
                    None => owned("agent returned empty completion"),
                };
                return TurnOutcome::Finished(TaskResult { status: TaskStatus::Completed, output: c });
            }
            match &self.last_tool_error {
                Some(e) => {
                    return TurnOutcome::Finished(
                        TaskResult {
                            status: TaskStatus::Failed,
                            output: concat2(
                                "assistant returned no tool calls after prior tool error: ",
                                e.as_str(),
                            ),
                        },
                    );
                },
                None => {
                    return TurnOutcome::NoTerminalContent;
                },
            }
        }
        if turn.tool_calls.len() > 12 {
            let n = decimal_string(turn.tool_calls.len() as u128);
            return TurnOutcome::Finished(
                TaskResult {
                    status: TaskStatus::Failed,
                    output: concat3("tool burst blocked: ", n.as_str(), " tool calls in one turn"),
                },
            );
        }
        if has_content {
            let c = match &turn.content {
                Some(c) => c.clone(),
                None => String::new(),
            };
            let ghost before = self.messages@;
            self.messages.push(LlmMessage { role: owned("assistant"), content: c, tool_call_id: None });
            assert(self.messages@.drop_last() =~= before);
        }
        TurnOutcome::RunTools
    }

    /// Takes the result of one tool call (its error text when it failed). A
    /// success clears the failure count and the last error; a failure counts
    /// and becomes the last error. Either way the conversation gets the
    /// tool's answer.
    pub fn on_tool_result(&mut self, call: &GrokTool, result: Result<String, String>)
        requires
            old(self).wf(),
            old(self).consecutive_tool_failures < u32::MAX,
        ensures
            final(self).wf(),
            final(self).iteration == old(self).iteration,
            final(self).max_iter == old(self).max_iter,
            final(self).requires_tooling == old(self).requires_tooling,
            final(self).messages@.len() == old(self).messages@.len() + 1,
            final(self).messages@.drop_last() == old(self).messages@,
            match result {
                Ok(v) => {
                    &&& final(self).consecutive_tool_failures == 0
                    &&& final(self).last_tool_error is None
                    &&& is_message(
                        final(self).messages@.last(),
                        "tool"@,
                        call.name@ + ":"@ + v@,
                        Some(call.id),
                    )
                },
                Err(e) => {
                    &&& final(self).consecutive_tool_failures == old(self).consecutive_tool_failures
                        + 1
                    &&& final(self).last_tool_error matches Some(m) && m@ == call.name@ + ": "@ + e@
                    &&& is_message(
                        final(self).messages@.last(),
                        "tool"@,
                        "error: "@ + call.name@ + ": "@ + e@,
                        Some(call.id),
                    )
                },
            },
    {
        let ghost before = self.messages@;
        match result {
            Ok(v) => {
                self.consecutive_tool_failures = 0;
                self.last_tool_error = None;
                let content = concat3(call.name.as_str(), ":", v.as_str());
                self.messages.push(
                    LlmMessage { role: owned("tool"), content, tool_call_id: Some(call.id.clone()) },
                );
            },
            Err(e) => {
                self.consecutive_tool_failures = self.consecutive_tool_failures + 1;
                let msg = concat3(call.name.as_str(), ": ", e.as_str());
                let content = concat2("error: ", msg.as_str());
                assert(content@ =~= "error: "@ + call.name@ + ": "@ + e@);
                self.last_tool_error = Some(msg);
                self.messages.push(
                    LlmMessage { role: owned("tool"), content, tool_call_id: Some(call.id.clone()) },
                );
            },
        }
        assert(self.messages@.drop_last() =~= before);
    }

    /// After the turn's tools ran: two or more failures in a row end the
    /// task; otherwise the turn counts and the loop goes on.
    pub fn end_turn(&mut self) -> (r: Option<TaskResult>)
        requires
            old(self).wf(),
            old(self).iteration < old(self).max_iter,
        ensures
            final(self).wf(),
            final(self).messages == old(self).messages,
            final(self).max_iter == old(self).max_iter,
            final(self).requires_tooling == old(self).requires_tooling,
            final(self).consecutive_tool_failures == old(self).consecutive_tool_failures,
            final(self).last_tool_error == old(self).last_tool_error,
            old(self).consecutive_tool_failures >= 2 ==> (r matches Some(res) && failed_with(
                res,
                "aborting after "@ + decimal(old(self).consecutive_tool_failures as nat)
                    + " consecutive tool failures: "@ + match old(self).last_tool_error {
                    Some(e) => e@,
                    None => "unknown"@,
                },
            ) && final(self).iteration == old(self).iteration),
            old(self).consecutive_tool_failures < 2 ==> (r is None && final(self).iteration
                == old(self).iteration + 1),
    {
        if self.consecutive_tool_failures >= 2 {
            let n = decimal_string(self.consecutive_tool_failures as u128);
            let mut out = concat3("aborting after ", n.as_str(), " consecutive tool failures: ");
            match &self.last_tool_error {
                Some(e) => out.append(e.as_str()),
                None => out.append("unknown"),
            }
            return Some(TaskResult { status: TaskStatus::Failed, output: out });
        }
        self.iteration = self.iteration + 1;
        None
    }
}

/// The system prompt: the agent's standing instructions, the policy file
/// and iteration cap of the task when given, then the code context.
pub open spec fn system_prompt_text(c: TaskContext, code_context: Seq<char>) -> Seq<char> {
    "You are goRkForge Phase 1: a local ReAct reasoner for safe code edits.\n"@
        + "Work only inside the repository.\n"@ + "Use tools in Plan/Execute/Verify/Reflect loops.\n"@
        + "Return PLAN and PATCH text for requested edits, but do not claim work is done without tool calls.\n"@
        + match c.policy_file {
        Some(p) => "Policy file: "@ + p@ + "\n"@,
        None => ""@,
    } + match c.max_iter {
        Some(n) => "Max iterations for this run: "@ + decimal(n as nat) + "\n"@,
        None => ""@,
    } + "\nCode context:\n"@ + code_context
}

pub fn system_prompt(context: &TaskContext, code_context: &str) -> (r: String)
    ensures
        r@ == system_prompt_text(*context, code_context@),
{
    proof {
        reveal_strlit("");
    }
    let mut p = String::new();
    p.append("You are goRkForge Phase 1: a local ReAct reasoner for safe code edits.\n");
    p.append("Work only inside the repository.\n");
    p.append("Use tools in Plan/Execute/Verify/Reflect loops.\n");
    p.append(
        "Return PLAN and PATCH text for requested edits, but do not claim work is done without tool calls.\n",
    );
    let ghost head = p@;
    match &context.policy_file {
        Some(f) => {
            p.append("Policy file: ");
            p.append(f.as_str());
            p.append("\n");
        },
        None => {},
    }
    let ghost with_policy = p@;
    match context.max_iter {
        Some(n) => {
            let d = decimal_string(n as u128);
            p.append("Max iterations for this run: ");
            p.append(d.as_str());
            p.append("\n");
        },
        None => {},
    }
    p.append("\nCode context:\n");
    p.append(code_context);
    assert(p@ =~= system_prompt_text(*context, code_context@));
    p
}

/// The files whose text goes into the code context, relative to the
/// repository root; the full context adds more (some twice).
pub open spec fn snapshot_paths_spec(include_full: bool) -> Seq<Seq<char>> {
    seq![
        "special.md"@,
        "Cargo.toml"@,
        "gorkforge.config.toml"@,
        "crates/gorkforge-core/src/agent/reasoner.rs"@,
        "crates/gorkforge-core/src/tools/mod.rs"@,
        "crates/gorkforge-core/src/config.rs"@,
        "crates/gorkforge-core/src/llm/grok.rs"@,
    ] + if include_full {
        seq![
            ".gorkforge/policy.toml"@,
            "crates/gorkforge-core/Cargo.toml"@,
            "crates/gorkforge-core/src/llm/grok.rs"@,
            "crates/gorkforge-core/src/agent/mod.rs"@,
            "crates/gorkforge-core/src/agent/reasoner.rs"@,
            "crates/gorkforge-core/src/platform.rs"@,
            "crates/gorkforge-core/src/sandbox.rs"@,
            "crates/gorkforge-core/src/tools/mod.rs"@,
        ]
    } else {
        seq![]
    }
}

pub fn snapshot_paths(include_full: bool) -> (r: Vec<String>)
    ensures
        crate::text::string_views(r@) == snapshot_paths_spec(include_full),
{
    let mut v: Vec<String> = Vec::new();
    crate::text::push_owned(&mut v, "special.md");
    crate::text::push_owned(&mut v, "Cargo.toml");
    crate::text::push_owned(&mut v, "gorkforge.config.toml");
    crate::text::push_owned(&mut v, "crates/gorkforge-core/src/agent/reasoner.rs");
    crate::text::push_owned(&mut v, "crates/gorkforge-core/src/tools/mod.rs");
    crate::text::push_owned(&mut v, "crates/gorkforge-core/src/config.rs");
    crate::text::push_owned(&mut v, "crates/gorkforge-core/src/llm/grok.rs");
    if include_full {
        crate::text::push_owned(&mut v, ".gorkforge/policy.toml");
        crate::text::push_owned(&mut v, "crates/gorkforge-core/Cargo.toml");
        crate::text::push_owned(&mut v, "crates/gorkforge-core/src/llm/grok.rs");
        crate::text::push_owned(&mut v, "crates/gorkforge-core/src/agent/mod.rs");
        crate::text::push_owned(&mut v, "crates/gorkforge-core/src/agent/reasoner.rs");
        crate::text::push_owned(&mut v, "crates/gorkforge-core/src/platform.rs");
        crate::text::push_owned(&mut v, "crates/gorkforge-core/src/sandbox.rs");
        crate::text::push_owned(&mut v, "crates/gorkforge-core/src/tools/mod.rs");
    }
    assert(crate::text::string_views(v@) =~= snapshot_paths_spec(include_full));
    v
}

/// A file of the code context: its path as shown, and its text if it could
/// be read.
#[derive(Debug)]
pub struct ContextFile {
    pub path: String,
    pub content: Option<String>,
}

/// The code context for the first `k` files: a section per readable file.
pub open spec fn context_upto(files: Seq<ContextFile>, k: nat) -> Seq<char>
    decreases k,
{
    if k == 0 {
        seq![]
    } else {
        let prev = context_upto(files, (k - 1) as nat);
        match files[k - 1].content {
            Some(c) => prev + "\n### "@ + files[k - 1].path@ + "\n"@ + c@ + "\n"@,
            None => prev,
        }
    }
}

/// The code context: the readable files' sections, or a placeholder when
/// none could be read.
pub open spec fn code_context_spec(files: Seq<ContextFile>) -> Seq<char> {
    let t = context_upto(files, files.len());
    if t.len() == 0 {
        "<context-unavailable>"@
    } else {
        t
    }
}

pub fn code_context_text(files: &Vec<ContextFile>) -> (r: String)
    ensures
        r@ == code_context_spec(files@),
{
    let mut out = String::new();
    let mut k: usize = 0;
    while k < files.len()
        invariant
            k <= files.len(),
            out@ == context_upto(files@, k as nat),
        decreases files.len() - k,
    {
        match &files[k].content {
            Some(c) => {
                out.append("\n### ");
                out.append(files[k].path.as_str());
                out.append("\n");
                out.append(c.as_str());
                out.append("\n");
            },
            None => {},
        }
        k = k + 1;
        assert(out@ =~= context_upto(files@, k as nat));
    }
    if crate::text::chars_of(out.as_str()).len() == 0 {
        owned("<context-unavailable>")
    } else {
        out
    }
}

/// The task of attempt `attempt` of a self-improvement cycle: the standing
/// request, the spec text, the rules, and from the second attempt on the
/// previous output that failed the format check.
pub open spec fn self_improve_task_spec(special: Seq<char>, attempt: u32, last_output: Seq<char>) -> Seq<char> {
    "Run a self-improve cycle. Return explicit PLAN and PATCH. Use only tool calls.\n\n"@ + special
        + "\n\nDo not modify .env or secrets.\n"@
        + "FORMAT RULES:\nPLAN:\n...\nPATCH:\n...\nNo extra prose before PLAN.\n"@ + if attempt > 1 {
        "\n\nPrevious attempt failed format validation:\n"@ + last_output
            + "\n\nRetry with exact PLAN/PATCH sections only.\n"@
    } else {
        ""@
    }
}

pub fn self_improve_task(special: &str, attempt: u32, last_output: &str) -> (r: String)
    ensures
        r@ == self_improve_task_spec(special@, attempt, last_output@),
{
    proof {
        reveal_strlit("");
    }
    let mut t = String::new();
    t.append("Run a self-improve cycle. Return explicit PLAN and PATCH. Use only tool calls.\n\n");
    t.append(special);
    t.append("\n\nDo not modify .env or secrets.\n");
    t.append("FORMAT RULES:\nPLAN:\n...\nPATCH:\n...\nNo extra prose before PLAN.\n");
    if attempt > 1 {
        t.append("\n\nPrevious attempt failed format validation:\n");
        t.append(last_output);
        t.append("\n\nRetry with exact PLAN/PATCH sections only.\n");
    }
    assert(t@ =~= self_improve_task_spec(special@, attempt, last_output@));
    t
}

/// The context a self-improvement attempt runs under.
pub fn self_improve_context(task: String, max_iter: u32) -> (r: TaskContext)
    ensures
        r.task == task,
        r.spec_file matches Some(f) && f@ == "special.md"@,
        r.policy_file matches Some(f) && f@ == ".gorkforge/policy.toml"@,
        r.max_iter == Some(max_iter),
{
    TaskContext {
        task,
        spec_file: Some(owned("special.md")),
        policy_file: Some(owned(".gorkforge/policy.toml")),
        max_iter: Some(max_iter),
    }
}

/// Output in the required format names a plan and a patch, in any case.
pub open spec fn format_ok(output: Seq<char>) -> bool {
    has_substr(lower_seq(output), "plan:"@) && has_substr(lower_seq(output), "patch:"@)
}

/// An attempt's output passes the format check exactly when it holds both a
/// `plan:` and a `patch:` section, in any case: an output without `patch:`
/// (or without `plan:`) is refused.
pub proof fn format_needs_plan_and_patch(output: Seq<char>)
    ensures
        format_ok(output) ==> has_substr(lower_seq(output), "plan:"@),
        format_ok(output) ==> has_substr(lower_seq(output), "patch:"@),
        has_substr(lower_seq(output), "plan:"@) && has_substr(lower_seq(output), "patch:"@)
            ==> format_ok(output),
{
}

pub fn self_improve_format_ok(output: &str) -> (r: bool)
    ensures
        r == format_ok(output@),
{
    let l = to_ascii_lowercase(output);
    contains_str(l.as_str(), "plan:") && contains_str(l.as_str(), "patch:")
}

/// What follows an attempt of the self-improvement cycle.
#[derive(Debug)]
pub enum ImproveStep {
    /// The cycle ends with this result.
    Done(TaskResult),
    /// Try again; the output failed the format check.
    Retry,
}

/// The self-improvement cycle: at most two attempts.
#[derive(Debug)]
pub struct SelfImprove {
    /// The attempt being made, from 1.
    pub attempt: u32,
    pub last_output: String,
}

impl SelfImprove {
    pub fn new() -> (r: SelfImprove)
        ensures
            r.attempt == 1,
            r.last_output@.len() == 0,
    {
        SelfImprove { attempt: 1, last_output: String::new() }
    }

    /// Whether another attempt may be made.
    pub fn has_attempt(&self) -> (r: bool)
        ensures
            r == (self.attempt <= 2),
    {
        self.attempt <= 2
    }

    /// An attempt's run ended with `result`; when it completed, the changes
    /// were committed with outcome `commit` (its error text on failure).
    /// A run that did not complete ends the cycle with its result; a failed
    /// commit fails the cycle; output in the right format ends it; other
    /// output is kept for the next attempt.
    pub fn after_attempt(&mut self, result: TaskResult, commit: Result<(), String>) -> (r: ImproveStep)
        requires
            old(self).attempt <= 2,
        ensures
            result.status != TaskStatus::Completed ==> (r matches ImproveStep::Done(x) && x
                == result),
            result.status == TaskStatus::Completed && commit is Err ==> (r matches ImproveStep::Done(
                x,
            ) && failed_with(x, "auto commit/push failed after completion: "@ + commit->Err_0@)),
            result.status == TaskStatus::Completed && commit is Ok && format_ok(result.output@) ==> (
            r matches ImproveStep::Done(x) && x == result),
            result.status == TaskStatus::Completed && commit is Ok && !format_ok(result.output@)
                ==> (r is Retry && final(self).last_output == result.output && final(self).attempt
                == old(self).attempt + 1),
    {
        if result.status != TaskStatus::Completed {
            return ImproveStep::Done(result);
        }
        match commit {
            Err(e) => {
                return ImproveStep::Done(
                    TaskResult {
                        status: TaskStatus::Failed,
                        output: concat2("auto commit/push failed after completion: ", e.as_str()),
                    },
                );
            },
            Ok(()) => {},
        }
        if self_improve_format_ok(result.output.as_str()) {
            return ImproveStep::Done(result);
        }
        self.last_output = result.output;
        self.attempt = self.attempt + 1;
        ImproveStep::Retry
    }

    /// The result when both attempts missed the format.
    pub fn exhausted(&self) -> (r: TaskResult)
        ensures
            failed_with(
                r,
                "self-improve output missing explicit PLAN/PATCH after 2 attempts\n"@
                    + self.last_output@,
            ),
    {
        TaskResult {
            status: TaskStatus::Failed,
            output: concat2(
                "self-improve output missing explicit PLAN/PATCH after 2 attempts\n",
                self.last_output.as_str(),
            ),
        }
    }
}

} // verus!
