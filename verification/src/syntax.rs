//! Rust source summaries: the names of the functions and structs declared
//! in a file, found with the tree-sitter Rust grammar.

use vstd::prelude::*;
use tree_sitter::Parser;
use tree_sitter_rust::LANGUAGE;
use crate::text::{owned, str_eq, string_views};
use crate::tools::{decl_summary, decl_summary_text, tool_error, ToolError};

verus! {

/// One named node of a parsed Rust file: its grammar kind, the text of its
/// `name` field when it has one, and where its named children stand in the
/// list of all nodes.
pub struct SyntaxNode {
    pub kind: String,
    pub name: Option<String>,
    pub children: Vec<usize>,
}

/// A syntax node as plain text and indices.
pub struct SyntaxNodeView {
    pub kind: Seq<char>,
    pub name: Option<Seq<char>>,
    pub children: Seq<usize>,
}

impl View for SyntaxNode {
    type V = SyntaxNodeView;

    open spec fn view(&self) -> SyntaxNodeView {
        SyntaxNodeView {
            kind: self.kind@,
            name: match self.name {
                Some(n) => Some(n@),
                None => None,
            },
            children: self.children@,
        }
    }
}

pub open spec fn nodes_view(nodes: Seq<SyntaxNode>) -> Seq<SyntaxNodeView> {
    nodes.map_values(|n: SyntaxNode| n@)
}

/// The named nodes of the tree that the `tree_sitter_rust` grammar gives for
/// `src`, root first and breadth first (a node's named children in source
/// order, each listed after all nodes of the level above).
pub uninterp spec fn rust_syntax(src: Seq<char>) -> Seq<SyntaxNodeView>;

/// Parses `src` with the `tree_sitter_rust` grammar (`Parser::new`,
/// `Parser::set_language`, `Parser::parse` with no earlier tree) and lists the
/// named nodes of the tree as `rust_syntax` orders them, each with its kind
/// (`Node::kind`), the text of its `name` field child when that text is UTF-8
/// (`Node::child_by_field_name`, `Node::utf8_text` on the parsed text itself)
/// and the places of its named children (`Node::named_children`).
/// The grammar has ABI version 14, inside the 13 to 14 that this tree-sitter
/// accepts, so `set_language` succeeds; with a language set, no timeout and
/// no cancellation flag, `parse` always gives a tree. So the result is there.
#[verifier::external_body]
fn parse_rust_nodes(src: &str) -> (r: Option<Vec<SyntaxNode>>)
    ensures
        r is Some,
        r is Some ==> nodes_view(r->Some_0@) == rust_syntax(src@),
{
    let mut parser = Parser::new();
    parser.set_language(&LANGUAGE.into()).ok()?;
    let tree = parser.parse(src, None)?;
    let mut queue = vec![tree.root_node()];
    let mut nodes = Vec::new();
    while let Some(&node) = queue.get(nodes.len()) {
        let first = queue.len();
        queue.extend(node.named_children(&mut node.walk()));
        let name = node.child_by_field_name("name").and_then(|c| c.utf8_text(src.as_bytes()).ok());
        nodes.push(SyntaxNode { kind: node.kind().into(), name: name.map(Into::into), children: (first..queue.len()).collect() });
    }
    Some(nodes)
}

/// The `name` of node `i` when the node is of kind `kind`, else nothing.
pub open spec fn own_name(nodes: Seq<SyntaxNodeView>, i: int, kind: Seq<char>) -> Seq<Seq<char>> {
    if nodes[i].kind == kind && nodes[i].name is Some {
        seq![nodes[i].name->Some_0]
    } else {
        seq![]
    }
}

/// The names of the nodes of kind `kind` met in a depth-first walk from node
/// `i`: the node itself first, then its named children last to first, each
/// walked the same way. A child link that does not point further down the
/// list, or points past its end, is not followed.
pub open spec fn names_from(nodes: Seq<SyntaxNodeView>, i: int, kind: Seq<char>) -> Seq<Seq<char>>
    decreases nodes.len() - i, 1int, 0int,
{
    if 0 <= i < nodes.len() {
        own_name(nodes, i, kind) + names_of_children(nodes, i, nodes[i].children.len() as int, kind)
    } else {
        seq![]
    }
}

/// The walk of `names_from` over the first `k` named children of node `i`,
/// child `k - 1` first.
pub open spec fn names_of_children(nodes: Seq<SyntaxNodeView>, i: int, k: int, kind: Seq<char>) -> Seq<
    Seq<char>,
>
    decreases nodes.len() - i, 0int, k,
{
    if 0 <= i < nodes.len() && 0 < k <= nodes[i].children.len() {
        let c = nodes[i].children[k - 1] as int;
        (if i < c < nodes.len() {
            names_from(nodes, c, kind)
        } else {
            seq![]
        }) + names_of_children(nodes, i, k - 1, kind)
    } else {
        seq![]
    }
}

/// The functions a parsed file declares, in walk order from the root.
pub open spec fn fn_names(nodes: Seq<SyntaxNodeView>) -> Seq<Seq<char>> {
    names_from(nodes, 0, "function_item"@)
}

/// The structs a parsed file declares, in walk order from the root.
pub open spec fn struct_names(nodes: Seq<SyntaxNodeView>) -> Seq<Seq<char>> {
    names_from(nodes, 0, "struct_item"@)
}

fn push_name(out: &mut Vec<String>, name: &String)
    ensures
        string_views(final(out)@) == string_views(old(out)@).push(name@),
{
    let ghost before = string_views(out@);
    out.push(name.clone());
    assert(string_views(out@) =~= before.push(name@));
}

/// Adds the function and struct names met in the walk from node `i`.
fn collect_from(
    nodes: &Vec<SyntaxNode>,
    i: usize,
    functions: &mut Vec<String>,
    structs: &mut Vec<String>,
)
    requires
        i < nodes.len(),
    ensures
        string_views(final(functions)@) == string_views(old(functions)@) + names_from(
            nodes_view(nodes@),
            i as int,
            "function_item"@,
        ),
        string_views(final(structs)@) == string_views(old(structs)@) + names_from(
            nodes_view(nodes@),
            i as int,
            "struct_item"@,
        ),
    decreases nodes.len() - i,
{
    let ghost ns = nodes_view(nodes@);
    let ghost f0 = string_views(functions@);
    let ghost s0 = string_views(structs@);
    let node = &nodes[i];
    assert(ns[i as int] == node@);
    proof {
        reveal_strlit("function_item");
        reveal_strlit("struct_item");
        assert("function_item"@.len() != "struct_item"@.len());
    }
    match &node.name {
        Some(name) => {
            if str_eq(node.kind.as_str(), "function_item") {
                push_name(functions, name);
            } else if str_eq(node.kind.as_str(), "struct_item") {
                push_name(structs, name);
            }
        },
        None => {},
    }
    assert(string_views(functions@) =~= f0 + own_name(ns, i as int, "function_item"@));
    assert(string_views(structs@) =~= s0 + own_name(ns, i as int, "struct_item"@));
    let ghost f1 = string_views(functions@);
    let ghost s1 = string_views(structs@);
    let count = node.children.len();
    let mut k: usize = count;
    let ghost mut done_f: Seq<Seq<char>> = seq![];
    let ghost mut done_s: Seq<Seq<char>> = seq![];
    while k > 0
        invariant
            i < nodes.len(),
            ns == nodes_view(nodes@),
            node@ == ns[i as int],
            count == ns[i as int].children.len(),
            k <= count,
            string_views(functions@) == f1 + done_f,
            string_views(structs@) == s1 + done_s,
            done_f + names_of_children(ns, i as int, k as int, "function_item"@) == names_of_children(
                ns,
                i as int,
                count as int,
                "function_item"@,
            ),
            done_s + names_of_children(ns, i as int, k as int, "struct_item"@) == names_of_children(
                ns,
                i as int,
                count as int,
                "struct_item"@,
            ),
        decreases k,
    {
        let c = node.children[k - 1];
        let ghost fb = string_views(functions@);
        let ghost sb = string_views(structs@);
        if i < c && c < nodes.len() {
            collect_from(nodes, c, functions, structs);
        }
        proof {
            let pf = if i < c < nodes.len() {
                names_from(ns, c as int, "function_item"@)
            } else {
                seq![]
            };
            let ps = if i < c < nodes.len() {
                names_from(ns, c as int, "struct_item"@)
            } else {
                seq![]
            };
            assert(names_of_children(ns, i as int, k as int, "function_item"@) == pf
                + names_of_children(ns, i as int, k - 1, "function_item"@));
            assert(names_of_children(ns, i as int, k as int, "struct_item"@) == ps
                + names_of_children(ns, i as int, k - 1, "struct_item"@));
            assert(string_views(functions@) == fb + pf);
            assert(string_views(structs@) == sb + ps);
            assert(done_f + pf + names_of_children(ns, i as int, k - 1, "function_item"@) =~= done_f
                + names_of_children(ns, i as int, k as int, "function_item"@));
            assert(done_s + ps + names_of_children(ns, i as int, k - 1, "struct_item"@) =~= done_s
                + names_of_children(ns, i as int, k as int, "struct_item"@));
            done_f = done_f + pf;
            done_s = done_s + ps;
            assert(string_views(functions@) =~= f1 + done_f);
            assert(string_views(structs@) =~= s1 + done_s);
        }
        k = k - 1;
    }
    assert(names_of_children(ns, i as int, 0, "function_item"@) == Seq::<Seq<char>>::empty());
    assert(names_of_children(ns, i as int, 0, "struct_item"@) == Seq::<Seq<char>>::empty());
    assert(done_f =~= names_of_children(ns, i as int, count as int, "function_item"@));
    assert(done_s =~= names_of_children(ns, i as int, count as int, "struct_item"@));
    assert(names_from(ns, i as int, "function_item"@) == own_name(ns, i as int, "function_item"@)
        + names_of_children(ns, i as int, count as int, "function_item"@));
    assert(names_from(ns, i as int, "struct_item"@) == own_name(ns, i as int, "struct_item"@)
        + names_of_children(ns, i as int, count as int, "struct_item"@));
    assert(string_views(functions@) =~= f0 + names_from(ns, i as int, "function_item"@));
    assert(string_views(structs@) =~= s0 + names_from(ns, i as int, "struct_item"@));
}

/// The names of the function items and struct items of a parsed file, in
/// the order of a depth-first walk from the root that takes a node's named
/// children last to first.
pub fn collect_rust_decls(nodes: &Vec<SyntaxNode>) -> (r: (Vec<String>, Vec<String>))
    ensures
        string_views(r.0@) == fn_names(nodes_view(nodes@)),
        string_views(r.1@) == struct_names(nodes_view(nodes@)),
{
    let mut functions: Vec<String> = Vec::new();
    let mut structs: Vec<String> = Vec::new();
    if nodes.len() > 0 {
        collect_from(nodes, 0, &mut functions, &mut structs);
        assert(string_views(functions@) =~= fn_names(nodes_view(nodes@)));
        assert(string_views(structs@) =~= struct_names(nodes_view(nodes@)));
    } else {
        assert(string_views(functions@) =~= fn_names(nodes_view(nodes@)));
        assert(string_views(structs@) =~= struct_names(nodes_view(nodes@)));
    }
    (functions, structs)
}

/// The `parse_rust_file` answer for Rust source text: the names of the
/// functions and structs it declares.
pub fn rust_decl_summary(src: &str) -> (r: Result<String, ToolError>)
    ensures
        r matches Ok(text) && text@ == decl_summary_text(
            fn_names(rust_syntax(src@)),
            struct_names(rust_syntax(src@)),
        ),
{
    let nodes = match parse_rust_nodes(src) {
        Some(nodes) => nodes,
        None => {
            return Err(tool_error(owned("parse_rust_file: parse failed")));
        },
    };
    let (functions, structs) = collect_rust_decls(&nodes);
    Ok(decl_summary(&functions, &structs))
}

} // verus!
