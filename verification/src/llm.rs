//! Messages exchanged with the language model, the shape of a chat
//! completion request, client settings and the retry decisions.

use vstd::prelude::*;
use crate::args::ToolArgs;
use crate::catalog::ToolSpec;
use crate::text::{owned, parse_unsigned, parse_unsigned_str, str_eq, opt_view};

verus! {

/// A message of the conversation: `user`, `assistant` or `tool`.
#[derive(Clone, Debug)]
pub struct LlmMessage {
    pub role: String,
    pub content: String,
    pub tool_call_id: Option<String>,
}

/// A tool call the model made.
#[derive(Clone, Debug)]
pub struct GrokTool {
    pub id: String,
    pub name: String,
    pub arguments: ToolArgs,
}

/// One answer of the model: text, tool calls, or both.
#[derive(Clone, Debug)]
pub struct LlmTurn {
    pub content: Option<String>,
    pub tool_calls: Vec<GrokTool>,
}

/// A tool as described to the model.
#[derive(Clone, Debug)]
pub struct ToolDefinition {
    pub name: String,
    pub description: String,
    /// The JSON schema of the arguments, as JSON text.
    pub parameters: String,
}

/// A message as the chat completion request carries it.
#[derive(Clone, Debug)]
pub enum RequestMessage {
    System { content: String },
    User { content: String },
    Assistant { content: Option<String> },
    Tool { content: String, tool_call_id: String },
}

/// The request form of a conversation message: `user` and `tool` keep their
/// role (a tool message without a call id gets an empty one), every other
/// role is sent as `assistant`.
pub open spec fn request_form(r: RequestMessage, m: LlmMessage) -> bool {
    if m.role@ == "user"@ {
        r matches RequestMessage::User { content } && content == m.content
    } else if m.role@ == "tool"@ {
        r matches RequestMessage::Tool { content, tool_call_id } && content == m.content
            && tool_call_id@ == match m.tool_call_id {
            Some(x) => x@,
            None => ""@,
        }
    } else {
        r matches RequestMessage::Assistant { content } && content == Some(m.content)
    }
}

/// A message goes to the API with its own content, and a tool result goes
/// as a tool message that answers the very call it came from: its call id is
/// the message's own, and empty only when the message has none.
pub proof fn tool_results_answer_their_call(r: RequestMessage, m: LlmMessage)
    requires
        request_form(r, m),
    ensures
        m.role@ == "tool"@ ==> (r matches RequestMessage::Tool { content, tool_call_id }
            && content@ == m.content@ && tool_call_id@ == (match m.tool_call_id {
            Some(x) => x@,
            None => ""@,
        })),
        m.role@ == "tool"@ && m.tool_call_id is Some ==> (r matches RequestMessage::Tool {
            tool_call_id,
            ..
        } && tool_call_id@ == m.tool_call_id->Some_0@),
        m.role@ == "user"@ ==> (r matches RequestMessage::User { content } && content@ == m.content@),
        m.role@ != "user"@ && m.role@ != "tool"@ ==> (r matches RequestMessage::Assistant { content }
            && content matches Some(c) && c@ == m.content@),
{
    reveal_strlit("tool");
    reveal_strlit("user");
    assert("tool"@[0] != "user"@[0]);
}

pub fn request_message(m: &LlmMessage) -> (r: RequestMessage)
    ensures
        request_form(r, *m),
{
    if str_eq(m.role.as_str(), "user") {
        RequestMessage::User { content: m.content.clone() }
    } else if str_eq(m.role.as_str(), "tool") {
        let id = match &m.tool_call_id {
            Some(x) => x.clone(),
            None => owned(""),
        };
        RequestMessage::Tool { content: m.content.clone(), tool_call_id: id }
    } else {
        RequestMessage::Assistant { content: Some(m.content.clone()) }
    }
}

/// The request's messages: the system prompt, then the conversation.
pub fn request_messages(system_prompt: &str, messages: &Vec<LlmMessage>) -> (r: Vec<RequestMessage>)
    ensures
        r@.len() == messages@.len() + 1,
        r@[0] matches RequestMessage::System { content } && content@ == system_prompt@,
        forall|i: int| 0 <= i < messages@.len() ==> request_form(#[trigger] r@[i + 1], messages@[i]),
{
    let mut r: Vec<RequestMessage> = Vec::new();
    r.push(RequestMessage::System { content: owned(system_prompt) });
    let mut i: usize = 0;
    while i < messages.len()
        invariant
            i <= messages.len(),
            r@.len() == i + 1,
            r@[0] matches RequestMessage::System { content } && content@ == system_prompt@,
            forall|j: int| 0 <= j < i ==> request_form(#[trigger] r@[j + 1], messages@[j]),
        decreases messages.len() - i,
    {
        let m = request_message(&messages[i]);
        r.push(m);
        i = i + 1;
    }
    r
}

/// A tool in the request: always of type `function`.
#[derive(Clone, Debug)]
pub struct RequestTool {
    pub type_: String,
    pub function: ToolDefinition,
}

/// A chat completion request; the model picks tools itself (`auto`).
#[derive(Clone, Debug)]
pub struct RequestEnvelope {
    pub model: String,
    pub messages: Vec<RequestMessage>,
    pub tools: Vec<RequestTool>,
    pub tool_choice: String,
}

/// The tool definitions of a catalog.
pub fn tool_definitions(specs: &Vec<ToolSpec>) -> (r: Vec<ToolDefinition>)
    ensures
        r@.len() == specs@.len(),
        forall|i: int|
            0 <= i < r@.len() ==> (#[trigger] r@[i]).name == specs@[i].name && r@[i].description
                == specs@[i].description && r@[i].parameters == specs@[i].parameters,
{
    let mut r: Vec<ToolDefinition> = Vec::new();
    let mut i: usize = 0;
    while i < specs.len()
        invariant
            i <= specs.len(),
            r@.len() == i,
            forall|j: int|
                0 <= j < i ==> (#[trigger] r@[j]).name == specs@[j].name && r@[j].description
                    == specs@[j].description && r@[j].parameters == specs@[j].parameters,
        decreases specs.len() - i,
    {
        r.push(
            ToolDefinition {
                name: specs[i].name.clone(),
                description: specs[i].description.clone(),
                parameters: specs[i].parameters.clone(),
            },
        );
        i = i + 1;
    }
    r
}

/// The request for a model, system prompt, conversation and tools.
pub fn build_request(
    model: &str,
    system_prompt: &str,
    messages: &Vec<LlmMessage>,
    tools: &Vec<ToolDefinition>,
) -> (r: RequestEnvelope)
    ensures
        r.model@ == model@,
        r.tool_choice@ == "auto"@,
        r.messages@.len() == messages@.len() + 1,
        r.messages@[0] matches RequestMessage::System { content } && content@ == system_prompt@,
        forall|i: int|
            0 <= i < messages@.len() ==> request_form(#[trigger] r.messages@[i + 1], messages@[i]),
        r.tools@.len() == tools@.len(),
        forall|i: int|
            0 <= i < tools@.len() ==> (#[trigger] r.tools@[i]).type_@ == "function"@
                && r.tools@[i].function == tools@[i],
{
    let msgs = request_messages(system_prompt, messages);
    let mut ts: Vec<RequestTool> = Vec::new();
    let mut i: usize = 0;
    while i < tools.len()
        invariant
            i <= tools.len(),
            ts@.len() == i,
            forall|j: int|
                0 <= j < i ==> (#[trigger] ts@[j]).type_@ == "function"@ && ts@[j].function
                    == tools@[j],
        decreases tools.len() - i,
    {
        let t = &tools[i];
        let f = ToolDefinition {
            name: t.name.clone(),
            description: t.description.clone(),
            parameters: t.parameters.clone(),
        };
        ts.push(RequestTool { type_: owned("function"), function: f });
        i = i + 1;
    }
    RequestEnvelope {
        model: owned(model),
        messages: msgs,
        tools: ts,
        tool_choice: owned("auto"),
    }
}

/// A positive number from a setting, or `default` when the setting is
/// absent, not a number no larger than `max`, or zero.
pub open spec fn positive_setting(setting: Option<Seq<char>>, max: nat, default: nat) -> nat {
    match setting {
        Some(v) => match parse_unsigned(v, max) {
            Some(n) => if n > 0 {
                n
            } else {
                default
            },
            None => default,
        },
        None => default,
    }
}

/// The request timeout in seconds: the timeout variable's value, 60 by default.
pub fn timeout_seconds(setting: &Option<String>) -> (r: u64)
    ensures
        r as nat == positive_setting(opt_view(*setting), u64::MAX as nat, 60),
{
    match setting {
        Some(v) => match parse_unsigned_str(v.as_str(), u64::MAX) {
            Some(n) => if n > 0 {
                n
            } else {
                60
            },
            None => 60,
        },
        None => 60,
    }
}

/// How many attempts a request gets: the retries variable's value (at most
/// 255), 3 by default.
pub fn max_retries(setting: &Option<String>) -> (r: u8)
    ensures
        r as nat == positive_setting(opt_view(*setting), 255, 3),
{
    match setting {
        Some(v) => match parse_unsigned_str(v.as_str(), 255) {
            Some(n) => if n > 0 {
                n as u8
            } else {
                3
            },
            None => 3,
        },
        None => 3,
    }
}

/// Statuses worth another attempt: server errors, 429 and 408.
pub open spec fn retryable_status(code: u16) -> bool {
    (500 <= code && code <= 599) || code == 429 || code == 408
}

/// What to do after a failed attempt.
#[derive(Clone, Copy, Debug, PartialEq, Eq, Structural)]
pub enum AttemptOutcome {
    /// Wait this many milliseconds, then try again.
    Retry { backoff_ms: u64 },
    /// Report the error.
    GiveUp,
}

/// The wait before the attempt after `attempt`: 200 ms per attempt made.
pub open spec fn backoff_for(attempt: u8) -> u64 {
    (200 * attempt) as u64
}

/// The decision after an unsuccessful status: retry a retryable status
/// unless this was the last attempt.
pub open spec fn status_outcome(attempt: u8, max_attempts: u8, code: u16) -> AttemptOutcome {
    if retryable_status(code) && attempt < max_attempts {
        AttemptOutcome::Retry { backoff_ms: backoff_for(attempt) }
    } else {
        AttemptOutcome::GiveUp
    }
}

/// The decision after a request that could not be sent: retry timeouts,
/// connection and request errors unless this was the last attempt.
pub open spec fn send_error_outcome(
    attempt: u8,
    max_attempts: u8,
    is_timeout: bool,
    is_connect: bool,
    is_request: bool,
) -> AttemptOutcome {
    if attempt < max_attempts && (is_timeout || is_connect || is_request) {
        AttemptOutcome::Retry { backoff_ms: backoff_for(attempt) }
    } else {
        AttemptOutcome::GiveUp
    }
}

/// After attempt `attempt` of `max_attempts` got an unsuccessful status.
pub fn after_status(attempt: u8, max_attempts: u8, code: u16) -> (r: AttemptOutcome)
    ensures
        r == status_outcome(attempt, max_attempts, code),
{
    let retryable = (500 <= code && code <= 599) || code == 429 || code == 408;
    if retryable && attempt < max_attempts {
        AttemptOutcome::Retry { backoff_ms: 200 * (attempt as u64) }
    } else {
        AttemptOutcome::GiveUp
    }
}

/// After attempt `attempt` of `max_attempts` could not be sent: timeouts,
/// connection failures and request errors are retried.
pub fn after_send_error(
    attempt: u8,
    max_attempts: u8,
    is_timeout: bool,
    is_connect: bool,
    is_request: bool,
) -> (r: AttemptOutcome)
    ensures
        r == send_error_outcome(attempt, max_attempts, is_timeout, is_connect, is_request),
{
    if attempt < max_attempts && (is_timeout || is_connect || is_request) {
        AttemptOutcome::Retry { backoff_ms: 200 * (attempt as u64) }
    } else {
        AttemptOutcome::GiveUp
    }
}

/// The last attempt is never followed by another, and every wait is
/// shorter than 200 ms times the number of attempts allowed.
pub proof fn retries_are_bounded(attempt: u8, max_attempts: u8, code: u16, t: bool, c: bool, q: bool)
    ensures
        attempt >= max_attempts ==> status_outcome(attempt, max_attempts, code)
            == AttemptOutcome::GiveUp,
        attempt >= max_attempts ==> send_error_outcome(attempt, max_attempts, t, c, q)
            == AttemptOutcome::GiveUp,
        status_outcome(attempt, max_attempts, code) matches AttemptOutcome::Retry { backoff_ms }
            ==> backoff_ms < 200 * (max_attempts as int),
        send_error_outcome(attempt, max_attempts, t, c, q) matches AttemptOutcome::Retry {
            backoff_ms,
        } ==> backoff_ms < 200 * (max_attempts as int),
{
}

} // verus!
