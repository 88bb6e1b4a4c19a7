use gorkforge::args::{ArgItem, ArgValue};
use gorkforge::reply::{tool_call_arguments, turn_from_choices, turn_from_reply};

#[test]
fn arguments_are_read_from_json() {
    let a = tool_call_arguments(r#"{"path":"src/a.rs","all":true,"n":7,"ids":[1,"x",-2],"o":{},"z":null,"f":1.5}"#);
    assert_eq!(a.get_str("path").unwrap(), "src/a.rs");
    assert_eq!(a.get_bool("all"), Some(true));
    assert_eq!(a.get_u64("n"), Some(7));
    let ids = a.get_array("ids").unwrap();
    assert!(matches!(ids[0], ArgItem::UInt(1)));
    assert!(matches!(&ids[1], ArgItem::Str(s) if s == "x"));
    assert!(matches!(ids[2], ArgItem::Other));
    let keys: Vec<&str> = a.entries.iter().map(|(k, _)| k.as_str()).collect();
    assert_eq!(keys, vec!["all", "f", "ids", "n", "o", "path", "z"]);
    assert!(matches!(a.entries[1].1, ArgValue::OtherNumber));
    assert!(matches!(a.entries[4].1, ArgValue::Object));
    assert!(matches!(a.entries[6].1, ArgValue::Null));
}

#[test]
fn unreadable_arguments_are_an_empty_object() {
    assert!(tool_call_arguments("not json").entries.is_empty());
    assert!(tool_call_arguments("[1,2]").entries.is_empty());
    assert!(tool_call_arguments("").entries.is_empty());
}

#[test]
fn calls_keep_order_ids_and_names() {
    let calls = vec![
        ("c1".to_string(), "read_file".to_string(), r#"{"path":"a"}"#.to_string()),
        ("c2".to_string(), "list_dir".to_string(), "oops".to_string()),
    ];
    let turn = turn_from_reply(Some("thinking".to_string()), calls);
    assert_eq!(turn.content.as_deref(), Some("thinking"));
    assert_eq!(turn.tool_calls.len(), 2);
    assert_eq!(turn.tool_calls[0].id, "c1");
    assert_eq!(turn.tool_calls[0].name, "read_file");
    assert_eq!(turn.tool_calls[0].arguments.get_str("path").unwrap(), "a");
    assert_eq!(turn.tool_calls[1].id, "c2");
    assert_eq!(turn.tool_calls[1].name, "list_dir");
    assert!(turn.tool_calls[1].arguments.entries.is_empty());
}

#[test]
fn first_choice_is_taken() {
    assert_eq!(turn_from_choices(vec![]).unwrap_err(), "xAI API returned no completion choice");
    let turn = turn_from_choices(vec![
        (Some("one".to_string()), vec![]),
        (Some("two".to_string()), vec![("c".to_string(), "grep".to_string(), "{}".to_string())]),
    ])
    .unwrap();
    assert_eq!(turn.content.as_deref(), Some("one"));
    assert!(turn.tool_calls.is_empty());
}
