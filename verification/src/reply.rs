//! The model's reply made into a turn: its first choice, with each tool call
//! and the call's JSON arguments read as tool arguments.

use vstd::prelude::*;
use serde_json::Value;
use crate::args::{ArgItem, ArgValue, ToolArgs};
use crate::llm::{GrokTool, LlmTurn};
use crate::catalog::pair_views;
use crate::text::owned;

verus! {

/// The fields of the JSON object that `raw` holds, as `serde_json` reads it
/// into a `Value`, in the key order its map keeps, each value as compact JSON
/// text (`Value::to_string`); nothing when `raw` is not JSON text of an
/// object.
pub uninterp spec fn json_fields(raw: Seq<char>) -> Option<Seq<(Seq<char>, Seq<char>)>>;

/// The value that the JSON text `text` holds, as `serde_json` reads it into a
/// `Value` and as the tools read that: a number as a `u64` when it is one,
/// array elements as strings, `u64` numbers or other, an object only as an
/// object. `Null` as well when `text` is not JSON text.
pub uninterp spec fn json_value(text: Seq<char>) -> ArgValue;

/// The fields of the JSON object in `raw` (`serde_json::from_str`), each
/// value as its JSON text.
#[verifier::external_body]
fn object_fields(raw: &str) -> (r: Option<Vec<(String, String)>>)
    ensures
        r is Some ==> json_fields(raw@) == Some(pair_views(r->Some_0@)),
        r is None ==> json_fields(raw@) is None,
{
    let Ok(Value::Object(map)) = serde_json::from_str::<Value>(raw) else { return None };
    Some(map.into_iter().map(|(k, v)| (k, v.to_string())).collect())
}

/// One JSON value (`serde_json::from_str`) as the tools read it.
#[verifier::external_body]
fn read_value(text: &str) -> (r: ArgValue)
    ensures
        r == json_value(text@),
{
    let item = |v: &Value| {
        v.as_str().map(|s| ArgItem::Str(s.into())).or(v.as_u64().map(ArgItem::UInt)).unwrap_or(ArgItem::Other)
    };
    match serde_json::from_str::<Value>(text) {
        Ok(Value::Null) | Err(_) => ArgValue::Null,
        Ok(Value::Bool(b)) => ArgValue::Bool(b),
        Ok(Value::Number(n)) => n.as_u64().map_or(ArgValue::OtherNumber, ArgValue::UInt),
        Ok(Value::String(s)) => ArgValue::Str(s),
        Ok(Value::Array(a)) => ArgValue::Array(a.iter().map(item).collect()),
        Ok(Value::Object(_)) => ArgValue::Object,
    }
}

/// `a` is what a tool call with argument text `raw` carries: the fields of
/// the object `raw` holds, in order, each value read from its text; no
/// fields when `raw` holds no object.
pub open spec fn arguments_of(raw: Seq<char>, a: ToolArgs) -> bool {
    match json_fields(raw) {
        Some(fs) => {
            &&& a.entries@.len() == fs.len()
            &&& forall|i: int|
                0 <= i < fs.len() ==> {
                    &&& (#[trigger] a.entries@[i]).0@ == fs[i].0
                    &&& a.entries@[i].1 == json_value(fs[i].1)
                }
        },
        None => a.entries@.len() == 0,
    }
}

/// The arguments of a tool call from its JSON text; an empty object when
/// the text does not hold one.
pub fn tool_call_arguments(raw: &str) -> (r: ToolArgs)
    ensures
        arguments_of(raw@, r),
{
    let fields = match object_fields(raw) {
        Some(fields) => fields,
        None => {
            return ToolArgs { entries: Vec::new() };
        },
    };
    let ghost fs = pair_views(fields@);
    let mut entries: Vec<(String, ArgValue)> = Vec::new();
    let mut i: usize = 0;
    while i < fields.len()
        invariant
            i <= fields.len(),
            fs == pair_views(fields@),
            entries@.len() == i,
            forall|j: int|
                0 <= j < i ==> {
                    &&& (#[trigger] entries@[j]).0@ == fs[j].0
                    &&& entries@[j].1 == json_value(fs[j].1)
                },
        decreases fields.len() - i,
    {
        let (key, text) = &fields[i];
        entries.push((owned(key.as_str()), read_value(text.as_str())));
        i = i + 1;
    }
    ToolArgs { entries }
}

/// One tool call of a reply: its id, the tool's name and the argument text.
pub type ReplyCall = (String, String, String);

/// `turn` holds `content` and one tool call per reply call, in order, with
/// the same id and name and the arguments read from its text.
pub open spec fn turn_of(content: Option<String>, calls: Seq<ReplyCall>, turn: LlmTurn) -> bool {
    &&& turn.content == content
    &&& turn.tool_calls@.len() == calls.len()
    &&& forall|i: int|
        0 <= i < calls.len() ==> {
            &&& (#[trigger] turn.tool_calls@[i]).id@ == calls[i].0@
            &&& turn.tool_calls@[i].name@ == calls[i].1@
            &&& arguments_of(calls[i].2@, turn.tool_calls@[i].arguments)
        }
}

/// The turn for a reply's text and tool calls.
pub fn turn_from_reply(content: Option<String>, calls: Vec<ReplyCall>) -> (r: LlmTurn)
    ensures
        turn_of(content, calls@, r),
{
    let mut tool_calls: Vec<GrokTool> = Vec::new();
    let mut i: usize = 0;
    while i < calls.len()
        invariant
            i <= calls.len(),
            tool_calls@.len() == i,
            forall|j: int|
                0 <= j < i ==> {
                    &&& (#[trigger] tool_calls@[j]).id@ == calls@[j].0@
                    &&& tool_calls@[j].name@ == calls@[j].1@
                    &&& arguments_of(calls@[j].2@, tool_calls@[j].arguments)
                },
        decreases calls.len() - i,
    {
        let call = &calls[i];
        let arguments = tool_call_arguments(call.2.as_str());
        tool_calls.push(GrokTool { id: owned(call.0.as_str()), name: owned(call.1.as_str()), arguments });
        i = i + 1;
    }
    LlmTurn { content, tool_calls }
}

/// The turn for a completion reply: made from its first choice, each choice
/// being the message text and tool calls; an error when there is no choice.
pub fn turn_from_choices(choices: Vec<(Option<String>, Vec<ReplyCall>)>) -> (r: Result<
    LlmTurn,
    String,
>)
    ensures
        choices@.len() == 0 ==> (r matches Err(e) && e@ == "xAI API returned no completion choice"@),
        choices@.len() > 0 ==> (r matches Ok(t) && turn_of(choices@[0].0, choices@[0].1@, t)),
{
    let mut choices = choices;
    if choices.len() == 0 {
        return Err(owned("xAI API returned no completion choice"));
    }
    let (content, calls) = choices.swap_remove(0);
    Ok(turn_from_reply(content, calls))
}

} // verus!
