use gorkforge::syntax::{collect_rust_decls, rust_decl_summary, SyntaxNode};
use gorkforge::text::sorted_lines;

#[test]
fn rust_declarations_are_listed() {
    let src = "fn main() {}\nstruct A;\nmod m { fn inner() {} struct B { x: u8 } }\nfn last() {}\n";
    let s = rust_decl_summary(src).unwrap();
    assert_eq!(s, "Functions: [\"last\", \"inner\", \"main\"]\nStructs: [\"B\", \"A\"]");
}

#[test]
fn empty_source_has_no_declarations() {
    assert_eq!(rust_decl_summary("").unwrap(), "Functions: []\nStructs: []");
}

#[test]
fn listings_are_sorted() {
    let names = vec!["b.rs".to_string(), "Cargo.toml".to_string(), "a".to_string(), "ab".to_string(), "é".to_string()];
    let mut want = names.clone();
    want.sort_unstable();
    assert_eq!(sorted_lines(&names), want.join("\n"));
    assert_eq!(sorted_lines(&vec![]), "");
}

#[test]
fn struct_and_function_are_told_apart() {
    assert_eq!(rust_decl_summary("struct S;\nfn a() {}\n").unwrap(), "Functions: [\"a\"]\nStructs: [\"S\"]");
}

fn node(kind: &str, name: Option<&str>, children: Vec<usize>) -> SyntaxNode {
    SyntaxNode { kind: kind.to_string(), name: name.map(|n| n.to_string()), children }
}

#[test]
fn walk_takes_children_last_to_first() {
    let nodes = vec![
        node("source_file", None, vec![1, 2, 3]),
        node("function_item", Some("first"), vec![4]),
        node("struct_item", Some("S"), vec![]),
        node("function_item", Some("third"), vec![]),
        node("function_item", Some("nested"), vec![0]),
    ];
    let (functions, structs) = collect_rust_decls(&nodes);
    assert_eq!(functions, vec!["third".to_string(), "first".to_string(), "nested".to_string()]);
    assert_eq!(structs, vec!["S".to_string()]);
}
