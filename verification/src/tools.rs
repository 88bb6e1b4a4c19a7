//! The toolset: its permission checks, argument checking and path handling
//! for the file and shell tools, and the texts the tools answer with.

use vstd::prelude::*;
use vstd::string::*;
use crate::args::{str_arg, bool_arg, ToolArgs};
use crate::policy::{grants, PolicyConfig};
use crate::sandbox::{absolute_path, is_absolute, join_path, lemma_join_stays_under, path_join, strip_path_prefix, strip_prefix_path, Sandbox};
use crate::text::{
    chars_of, concat2, concat3, contains_char, decimal, decimal_string, has_substr,
    is_prefix, join, lines, lines_of, owned, replace_all, replace_all_chars, replace_first,
    replace_first_chars, starts_with_str, str_eq, string_from, string_views, trim, trim_chars,
    views, words, split_words,
};

verus! {

/// A tool call that failed, with the message the model is shown.
#[derive(Clone, Debug)]
pub struct ToolError {
    pub message: String,
}

/// The call failed with exactly this message.
pub open spec fn fails_with<T>(r: Result<T, ToolError>, text: Seq<char>) -> bool {
    r matches Err(e) && e.message@ == text
}

pub fn tool_error(message: String) -> (e: ToolError)
    ensures
        e.message == message,
{
    ToolError { message }
}

/// An approval variable grants approval when it holds exactly `YES`.
pub open spec fn is_yes(v: Option<String>) -> bool {
    v matches Some(s) && s@ == "YES"@
}

pub fn approval_flag(v: &Option<String>) -> (r: bool)
    ensures
        r == is_yes(*v),
{
    match v {
        Some(s) => str_eq(s.as_str(), "YES"),
        None => false,
    }
}

/// The tools' shared state: the sandbox they work in, the policy they
/// enforce, and whether edits to the core crate and pushes are approved.
#[derive(Clone)]
pub struct ToolSet {
    pub sandbox: Sandbox,
    pub policy: PolicyConfig,
    pub core_self_approved: bool,
    pub push_self_approved: bool,
}

impl ToolSet {
    /// A toolset whose approvals come from the values of the
    /// `SELF_APPROVED` and `PUSH_APPROVED` variables.
    pub fn new(
        sandbox: Sandbox,
        policy: PolicyConfig,
        self_approved: Option<String>,
        push_approved: Option<String>,
    ) -> (r: Self)
        ensures
            r.sandbox == sandbox,
            r.policy == policy,
            r.core_self_approved == is_yes(self_approved),
            r.push_self_approved == is_yes(push_approved),
    {
        let core = approval_flag(&self_approved);
        let push = approval_flag(&push_approved);
        ToolSet { sandbox, policy, core_self_approved: core, push_self_approved: push }
    }
}

/// A `..` component of a `/`-separated path begins at `i`.
pub open spec fn parent_at(p: Seq<char>, i: int) -> bool {
    &&& 0 <= i
    &&& i + 2 <= p.len()
    &&& p[i] == '.'
    &&& p[i + 1] == '.'
    &&& (i == 0 || p[i - 1] == '/')
    &&& (i + 2 == p.len() || p[i + 2] == '/')
}

/// The path has a `..` component.
pub open spec fn has_parent_component(p: Seq<char>) -> bool {
    exists|i: int| parent_at(p, i)
}

/// Refuses paths that climb out of their base with a `..` component.
pub fn ensure_no_path_traversal(path: &str) -> (r: Result<(), ToolError>)
    ensures
        has_parent_component(path@) ==> fails_with(
            r,
            "path traversal is not allowed: "@ + path@,
        ),
        !has_parent_component(path@) ==> r is Ok,
{
    let v = chars_of(path);
    let n = v.len();
    let mut i: usize = 0;
    while i < n
        invariant
            n == v@.len(),
            v@ == path@,
            i <= n,
            forall|j: int| 0 <= j < i ==> !parent_at(path@, j),
        decreases n - i,
    {
        if n - i >= 2 && v[i] == '.' && v[i + 1] == '.' && (i == 0 || v[i - 1] == '/') && (i + 2
            == n || v[i + 2] == '/') {
            assert(parent_at(path@, i as int));
            return Err(tool_error(concat2("path traversal is not allowed: ", path)));
        }
        i = i + 1;
    }
    assert forall|j: int| !parent_at(path@, j) by {
        if 0 <= j < n {
        }
    }
    Ok(())
}

/// `rel` under `base`, refusing a `rel` with a `..` component.
pub fn overlay_or_workspace_path(base: &str, rel: &str) -> (r: Result<String, ToolError>)
    ensures
        has_parent_component(rel@) ==> fails_with(r, "path traversal is not allowed: "@ + rel@),
        !has_parent_component(rel@) ==> (r matches Ok(p) && p@ == path_join(base@, rel@)),
{
    match ensure_no_path_traversal(rel) {
        Err(e) => Err(e),
        Ok(()) => Ok(join_path(base, rel)),
    }
}

/// A path whose edits need approval: inside the core crate, or the
/// project's `special.md`.
pub open spec fn is_core_path(rel: Seq<char>) -> bool {
    is_prefix("crates/gorkforge-core/"@, rel) || is_prefix("crates\\gorkforge-core\\"@, rel) || rel
        == "special.md"@
}

pub fn core_path(rel: &str) -> (r: bool)
    ensures
        r == is_core_path(rel@),
{
    starts_with_str(rel, "crates/gorkforge-core/") || starts_with_str(rel, "crates\\gorkforge-core\\")
        || str_eq(rel, "special.md")
}

/// A required string argument, or the error `missing`.
fn required_str(args: &ToolArgs, key: &str, missing: &str) -> (r: Result<String, ToolError>)
    ensures
        match str_arg(*args, key@) {
            Some(s) => r matches Ok(x) && x@ == s,
            None => fails_with(r, missing@),
        },
{
    match args.get_str(key) {
        Some(s) => Ok(s),
        None => Err(tool_error(owned(missing))),
    }
}

/// A file edit the model asked for.
#[derive(Debug)]
pub struct EditRequest {
    pub path: String,
    pub find: String,
    pub replace: String,
    pub all: bool,
}

/// A file write the model asked for.
#[derive(Debug)]
pub struct WriteRequest {
    pub path: String,
    pub content: String,
    /// Where the content goes in the overlay.
    pub target: String,
}

/// What to search for, and where.
#[derive(Debug)]
pub struct GrepRequest {
    pub pattern: String,
    pub target: String,
}

/// The paths of a file in the overlay and in the workspace.
#[derive(Debug)]
pub struct OverlayPaths {
    pub overlay: String,
    pub workspace: String,
}

impl ToolSet {
    /// `read_file`: the path to read, if reading is allowed.
    pub fn plan_read_file(&self, args: &ToolArgs) -> (r: Result<String, ToolError>)
        ensures
            !grants(self.policy.permissions.file_read@) ==> fails_with(
                r,
                "policy denies file_read"@,
            ),
            grants(self.policy.permissions.file_read@) ==> match str_arg(*args, "path"@) {
                Some(p) => r matches Ok(x) && x@ == p,
                None => fails_with(r, "read_file: path required"@),
            },
    {
        if !self.policy.read_allowed() {
            return Err(tool_error(owned("policy denies file_read")));
        }
        required_str(args, "path", "read_file: path required")
    }

    /// The overlay and workspace paths of `rel`: a file is read from the
    /// overlay, copied there from the workspace first if missing.
    pub fn overlay_copy_paths(&self, rel: &str) -> (r: Result<OverlayPaths, ToolError>)
        ensures
            has_parent_component(rel@) ==> fails_with(
                r,
                "path traversal is not allowed: "@ + rel@,
            ),
            !has_parent_component(rel@) ==> (r matches Ok(p) && p.overlay@ == path_join(
                self.sandbox.overlay_root@,
                rel@,
            ) && p.workspace@ == path_join(self.sandbox.workspace_root@, rel@)),
            r is Ok && !is_absolute(rel@) ==> is_prefix(self.sandbox.overlay_root@, r->Ok_0.overlay@),
    {
        proof {
            if !is_absolute(rel@) {
                lemma_join_stays_under(self.sandbox.overlay_root@, rel@);
            }
        }
        let overlay = overlay_or_workspace_path(self.sandbox.overlay_root.as_str(), rel)?;
        let workspace = overlay_or_workspace_path(self.sandbox.workspace_root.as_str(), rel)?;
        Ok(OverlayPaths { overlay, workspace })
    }

    /// `parse_rust_file`: the path to parse, if reading is allowed.
    pub fn plan_parse_rust_file(&self, args: &ToolArgs) -> (r: Result<String, ToolError>)
        ensures
            !grants(self.policy.permissions.file_read@) ==> fails_with(
                r,
                "policy denies file_read"@,
            ),
            grants(self.policy.permissions.file_read@) ==> match str_arg(*args, "path"@) {
                Some(p) => r matches Ok(x) && x@ == p,
                None => fails_with(r, "parse_rust_file: path required"@),
            },
    {
        if !self.policy.read_allowed() {
            return Err(tool_error(owned("policy denies file_read")));
        }
        required_str(args, "path", "parse_rust_file: path required")
    }

    /// `edit_file`: the edit, if writing is allowed, the arguments are
    /// there, and a core file is edited only with approval.
    pub fn plan_edit_file(&self, args: &ToolArgs) -> (r: Result<EditRequest, ToolError>)
        ensures
            !grants(self.policy.permissions.file_write@) ==> fails_with(
                r,
                "policy denies file_write"@,
            ),
            grants(self.policy.permissions.file_write@) ==> match (
                str_arg(*args, "path"@),
                str_arg(*args, "find"@),
                str_arg(*args, "replace"@),
            ) {
                (None, _, _) => fails_with(r, "edit_file: path required"@),
                (Some(_), None, _) => fails_with(r, "edit_file: find required"@),
                (Some(_), Some(_), None) => fails_with(r, "edit_file: replace required"@),
                (Some(p), Some(f), Some(t)) => if is_core_path(p) && !self.core_self_approved {
                    fails_with(r, "core edits require SELF_APPROVED=YES"@)
                } else {
                    r matches Ok(e) && e.path@ == p && e.find@ == f && e.replace@ == t && e.all
                        == (bool_arg(*args, "all"@) == Some(true))
                },
            },
    {
        if !self.policy.write_allowed() {
            return Err(tool_error(owned("policy denies file_write")));
        }
        let path = required_str(args, "path", "edit_file: path required")?;
        let find = required_str(args, "find", "edit_file: find required")?;
        let replace = required_str(args, "replace", "edit_file: replace required")?;
        let all = match args.get_bool("all") {
            Some(b) => b,
            None => false,
        };
        if core_path(path.as_str()) && !self.core_self_approved {
            return Err(tool_error(owned("core edits require SELF_APPROVED=YES")));
        }
        Ok(EditRequest { path, find, replace, all })
    }

    /// `write_file`: the write, if writing is allowed, the arguments are
    /// there, the path stays inside the overlay, and a core file is written
    /// only with approval.
    pub fn plan_write_file(&self, args: &ToolArgs) -> (r: Result<WriteRequest, ToolError>)
        ensures
            !grants(self.policy.permissions.file_write@) ==> fails_with(
                r,
                "policy denies file_write"@,
            ),
            grants(self.policy.permissions.file_write@) ==> match (
                str_arg(*args, "path"@),
                str_arg(*args, "content"@),
            ) {
                (None, _) => fails_with(r, "write_file: path required"@),
                (Some(_), None) => fails_with(r, "write_file: content required"@),
                (Some(p), Some(c)) => if has_parent_component(p) {
                    fails_with(r, "path traversal is not allowed: "@ + p)
                } else if is_absolute(p) {
                    fails_with(r, "write_file: absolute paths are not allowed: "@ + p)
                } else if is_core_path(p) && !self.core_self_approved {
                    fails_with(r, "core edits require SELF_APPROVED=YES"@)
                } else {
                    r matches Ok(w) && w.path@ == p && w.content@ == c && w.target@ == path_join(
                        self.sandbox.overlay_root@,
                        p,
                    ) && is_prefix(self.sandbox.overlay_root@, w.target@)
                },
            },
    {
        if !self.policy.write_allowed() {
            return Err(tool_error(owned("policy denies file_write")));
        }
        let path = required_str(args, "path", "write_file: path required")?;
        let content = required_str(args, "content", "write_file: content required")?;
        ensure_no_path_traversal(path.as_str())?;
        if absolute_path(path.as_str()) {
            return Err(tool_error(concat2("write_file: absolute paths are not allowed: ", path.as_str())));
        }
        if core_path(path.as_str()) && !self.core_self_approved {
            return Err(tool_error(owned("core edits require SELF_APPROVED=YES")));
        }
        let target = join_path(self.sandbox.overlay_root.as_str(), path.as_str());
        proof {
            lemma_join_stays_under(self.sandbox.overlay_root@, path@);
        }
        Ok(WriteRequest { path, content, target })
    }

    /// `list_dir`: the workspace directory to list (`.` by default).
    pub fn plan_list_dir(&self, args: &ToolArgs) -> (r: Result<String, ToolError>)
        ensures
            ({
                let p = match str_arg(*args, "path"@) {
                    Some(x) => x,
                    None => "."@,
                };
                if has_parent_component(p) {
                    fails_with(r, "path traversal is not allowed: "@ + p)
                } else {
                    r matches Ok(t) && t@ == path_join(self.sandbox.workspace_root@, p)
                }
            }),
    {
        let path = match args.get_str("path") {
            Some(p) => p,
            None => owned("."),
        };
        overlay_or_workspace_path(self.sandbox.workspace_root.as_str(), path.as_str())
    }

    /// `grep`: the pattern and the workspace directory to search (`.` by
    /// default), if reading is allowed.
    pub fn plan_grep(&self, args: &ToolArgs) -> (r: Result<GrepRequest, ToolError>)
        ensures
            !grants(self.policy.permissions.file_read@) ==> fails_with(
                r,
                "policy denies read for grep"@,
            ),
            grants(self.policy.permissions.file_read@) ==> match str_arg(*args, "pattern"@) {
                None => fails_with(r, "grep: pattern required"@),
                Some(pat) => {
                    let p = match str_arg(*args, "path"@) {
                        Some(x) => x,
                        None => "."@,
                    };
                    if has_parent_component(p) {
                        fails_with(r, "path traversal is not allowed: "@ + p)
                    } else {
                        r matches Ok(g) && g.pattern@ == pat && g.target@ == path_join(
                            self.sandbox.workspace_root@,
                            p,
                        )
                    }
                },
            },
    {
        if !self.policy.read_allowed() {
            return Err(tool_error(owned("policy denies read for grep")));
        }
        let pattern = required_str(args, "pattern", "grep: pattern required")?;
        let path = match args.get_str("path") {
            Some(p) => p,
            None => owned("."),
        };
        let target = overlay_or_workspace_path(
            self.sandbox.workspace_root.as_str(),
            path.as_str(),
        )?;
        Ok(GrepRequest { pattern, target })
    }

    /// The overlay copy of a file found by `grep` in the workspace, which is
    /// read in preference to the workspace file when it can be.
    pub fn grep_overlay_source(&self, entry: &str) -> (r: Option<String>)
        ensures
            ({
                let rel = match strip_path_prefix(entry@, self.sandbox.workspace_root@) {
                    Some(x) => x,
                    None => entry@,
                };
                if has_parent_component(rel) {
                    r is None
                } else {
                    r matches Some(p) && p@ == path_join(self.sandbox.overlay_root@, rel)
                }
            }),
    {
        let rel = match strip_prefix_path(entry, self.sandbox.workspace_root.as_str()) {
            Some(x) => x,
            None => owned(entry),
        };
        match overlay_or_workspace_path(self.sandbox.overlay_root.as_str(), rel.as_str()) {
            Ok(p) => Some(p),
            Err(_) => None,
        }
    }

    /// `shell_safe`: the command, if shell access is allowed and the command
    /// has no pipe, `&` or `$`.
    pub fn plan_shell_safe(&self, args: &ToolArgs) -> (r: Result<String, ToolError>)
        ensures
            self.policy.permissions.shell_safe@ == "deny"@ ==> fails_with(
                r,
                "policy denies shell_safe"@,
            ),
            self.policy.permissions.shell_safe@ != "deny"@ ==> match str_arg(
                *args,
                "command"@,
            ) {
                None => fails_with(r, "shell_safe: command required"@),
                Some(c) => if c.contains('|') || c.contains('&') || c.contains('$') {
                    fails_with(r, "unsafe shell syntax blocked"@)
                } else {
                    r matches Ok(x) && x@ == c
                },
            },
    {
        if !self.policy.shell_allowed() {
            return Err(tool_error(owned("policy denies shell_safe")));
        }
        let command = required_str(args, "command", "shell_safe: command required")?;
        if contains_char(command.as_str(), '|') || contains_char(command.as_str(), '&')
            || contains_char(command.as_str(), '$') {
            return Err(tool_error(owned("unsafe shell syntax blocked")));
        }
        Ok(command)
    }
}

/// The text after an edit: every occurrence of `find` replaced, or only the
/// first.
pub open spec fn edited_text(existing: Seq<char>, find: Seq<char>, replace: Seq<char>, all: bool) -> Seq<char> {
    if all {
        replace_all(existing, find, replace)
    } else {
        replace_first(existing, find, replace)
    }
}

fn chars_eq(a: &Vec<char>, b: &Vec<char>) -> (r: bool)
    ensures
        r == (a@ == b@),
{
    if a.len() != b.len() {
        return false;
    }
    let mut i: usize = 0;
    while i < a.len()
        invariant
            a.len() == b.len(),
            i <= a.len(),
            forall|j: int| 0 <= j < i ==> a@[j] == b@[j],
        decreases a.len() - i,
    {
        if a[i] != b[i] {
            return false;
        }
        i = i + 1;
    }
    assert(a@ =~= b@);
    true
}

/// The new text of an edited file, or `None` when the edit changes nothing.
pub fn apply_edit(existing: &str, find: &str, replace: &str, all: bool) -> (r: Option<String>)
    ensures
        match r {
            Some(t) => t@ == edited_text(existing@, find@, replace@, all) && t@ != existing@,
            None => edited_text(existing@, find@, replace@, all) == existing@,
        },
{
    let e = chars_of(existing);
    let f = chars_of(find);
    let t = chars_of(replace);
    let out = if all {
        replace_all_chars(&e, &f, &t)
    } else {
        replace_first_chars(&e, &f, &t)
    };
    if chars_eq(&out, &e) {
        None
    } else {
        Some(string_from(&out))
    }
}

/// Names in double quotes.
pub open spec fn quoted(names: Seq<Seq<char>>) -> Seq<Seq<char>> {
    names.map_values(|n: Seq<char>| "\""@ + n + "\""@)
}

/// The answer of `parse_rust_file`: the function names, then the struct names.
pub open spec fn decl_summary_text(functions: Seq<Seq<char>>, structs: Seq<Seq<char>>) -> Seq<char> {
    "Functions: ["@ + join(quoted(functions), ", "@) + "]\nStructs: ["@ + join(quoted(structs), ", "@)
        + "]"@
}

pub fn quote_all(names: &Vec<String>) -> (r: Vec<String>)
    ensures
        string_views(r@) == quoted(string_views(names@)),
{
    let mut r: Vec<String> = Vec::new();
    let mut i: usize = 0;
    while i < names.len()
        invariant
            i <= names.len(),
            string_views(r@) == quoted(string_views(names@)).subrange(0, i as int),
        decreases names.len() - i,
    {
        let q = concat3("\"", names[i].as_str(), "\"");
        assert(q@ == quoted(string_views(names@))[i as int]);
        let ghost old_r = string_views(r@);
        r.push(q);
        assert(string_views(r@) =~= old_r.push(q@));
        i = i + 1;
        assert(string_views(r@) =~= quoted(string_views(names@)).subrange(0, i as int));
    }
    assert(string_views(r@) =~= quoted(string_views(names@)));
    r
}

pub fn decl_summary(functions: &Vec<String>, structs: &Vec<String>) -> (r: String)
    ensures
        r@ == decl_summary_text(string_views(functions@), string_views(structs@)),
{
    let qf = quote_all(functions);
    let qs = quote_all(structs);
    let jf = crate::text::join_strings(&qf, ", ");
    let js = crate::text::join_strings(&qs, ", ");
    let mut r = String::new();
    r.append("Functions: [");
    r.append(jf.as_str());
    r.append("]\nStructs: [");
    r.append(js.as_str());
    r.append("]");
    r
}

/// The `grep` answer lines for the first `k` lines of a file: each line
/// holding the pattern, as `<path>:<line number>:<trimmed line>`.
pub open spec fn grep_upto(display: Seq<char>, ls: Seq<Seq<char>>, pattern: Seq<char>, k: nat) -> Seq<Seq<char>>
    decreases k,
{
    if k == 0 {
        seq![]
    } else {
        let prev = grep_upto(display, ls, pattern, (k - 1) as nat);
        let line = ls[k - 1];
        if has_substr(line, pattern) {
            prev.push(display + ":"@ + decimal(k) + ":"@ + trim(line))
        } else {
            prev
        }
    }
}

/// How `grep` reports line `i` (from 0) of a file: `<path>:<i + 1>:<trimmed line>`.
pub open spec fn grep_entry(display: Seq<char>, ls: Seq<Seq<char>>, i: int) -> Seq<char> {
    display + ":"@ + decimal((i + 1) as nat) + ":"@ + trim(ls[i])
}

/// `e` is how `grep` reports one of the first `k` lines, one that holds the
/// pattern.
pub open spec fn reports_matching_line(
    display: Seq<char>,
    ls: Seq<Seq<char>>,
    pattern: Seq<char>,
    k: int,
    e: Seq<char>,
) -> bool {
    exists|i: int| 0 <= i < k && has_substr(ls[i], pattern) && #[trigger] grep_entry(display, ls, i) == e
}

/// `grep` matches lines character for character: every line it reports is a
/// line that holds the pattern, and every line holding the pattern is
/// reported.
pub proof fn grep_reports_exactly_matching_lines(
    display: Seq<char>,
    ls: Seq<Seq<char>>,
    pattern: Seq<char>,
    k: nat,
)
    requires
        k <= ls.len(),
    ensures
        forall|j: int|
            0 <= j < grep_upto(display, ls, pattern, k).len() ==> reports_matching_line(
                display,
                ls,
                pattern,
                k as int,
                #[trigger] grep_upto(display, ls, pattern, k)[j],
            ),
        forall|i: int|
            0 <= i < k && has_substr(#[trigger] ls[i], pattern) ==> grep_upto(
                display,
                ls,
                pattern,
                k,
            ).contains(grep_entry(display, ls, i)),
    decreases k,
{
    if k > 0 {
        let km = (k - 1) as nat;
        grep_reports_exactly_matching_lines(display, ls, pattern, km);
        let prev = grep_upto(display, ls, pattern, km);
        let cur = grep_upto(display, ls, pattern, k);
        assert(grep_entry(display, ls, k - 1) == display + ":"@ + decimal(k) + ":"@ + trim(ls[k - 1]));
        if has_substr(ls[k - 1], pattern) {
            assert(cur == prev.push(grep_entry(display, ls, k - 1)));
        } else {
            assert(cur == prev);
        }
        assert forall|j: int| 0 <= j < cur.len() implies reports_matching_line(
            display,
            ls,
            pattern,
            k as int,
            #[trigger] cur[j],
        ) by {
            if j < prev.len() {
                assert(cur[j] == prev[j]);
                assert(reports_matching_line(display, ls, pattern, km as int, prev[j]));
                let i = choose|i: int|
                    0 <= i < km && has_substr(ls[i], pattern) && #[trigger] grep_entry(display, ls, i)
                        == prev[j];
                assert(grep_entry(display, ls, i) == cur[j]);
            } else {
                assert(grep_entry(display, ls, k - 1) == cur[j]);
            }
        }
        assert forall|i: int| 0 <= i < k && has_substr(#[trigger] ls[i], pattern) implies cur.contains(
            grep_entry(display, ls, i),
        ) by {
            if i < k - 1 {
                let j = choose|j: int| 0 <= j < prev.len() && prev[j] == grep_entry(display, ls, i);
                assert(cur[j] == grep_entry(display, ls, i));
            } else {
                assert(cur[prev.len() as int] == grep_entry(display, ls, i));
            }
        }
    }
}

/// The `grep` answer lines for a whole file.
pub open spec fn grep_text(display: Seq<char>, text: Seq<char>, pattern: Seq<char>) -> Seq<Seq<char>> {
    grep_upto(display, lines(text), pattern, lines(text).len())
}

/// For a whole file: `grep` reports exactly the lines of the file that hold
/// the pattern character for character.
pub proof fn grep_file_reports_exactly_matching_lines(
    display: Seq<char>,
    text: Seq<char>,
    pattern: Seq<char>,
)
    ensures
        forall|j: int|
            0 <= j < grep_text(display, text, pattern).len() ==> reports_matching_line(
                display,
                lines(text),
                pattern,
                lines(text).len() as int,
                #[trigger] grep_text(display, text, pattern)[j],
            ),
        forall|i: int|
            0 <= i < lines(text).len() && has_substr(#[trigger] lines(text)[i], pattern)
                ==> grep_text(display, text, pattern).contains(grep_entry(display, lines(text), i)),
{
    grep_reports_exactly_matching_lines(display, lines(text), pattern, lines(text).len());
}

/// The lines of a file that hold the pattern, each with its place.
pub fn grep_matches(display: &str, text: &str, pattern: &str) -> (r: Vec<String>)
    ensures
        string_views(r@) == grep_text(display@, text@, pattern@),
{
    let ls = lines_of(text);
    let pv = chars_of(pattern);
    let mut r: Vec<String> = Vec::new();
    let mut k: usize = 0;
    while k < ls.len()
        invariant
            k <= ls.len(),
            views(ls@) == lines(text@),
            pv@ == pattern@,
            string_views(r@) == grep_upto(display@, lines(text@), pattern@, k as nat),
        decreases ls.len() - k,
    {
        assert(views(ls@)[k as int] == ls@[k as int]@);
        let found = crate::text::find_from(&ls[k], &pv, 0);
        let holds = found.is_some();
        assert(holds == has_substr(ls@[k as int]@, pattern@)) by {
            if !holds {
                assert forall|j: int| !crate::text::occurs_at(ls@[k as int]@, pattern@, j) by {
                    if j < 0 {
                    }
                }
            }
        }
        if holds {
            let t = trim_chars(&ls[k]);
            let ts = string_from(&t);
            let n = decimal_string((k as u128) + 1);
            let mut line = concat3(display, ":", n.as_str());
            line.append(":");
            line.append(ts.as_str());
            let ghost old_r = string_views(r@);
            r.push(line);
            assert(string_views(r@) =~= old_r.push(string_views(r@).last()));
        }
        k = k + 1;
    }
    r
}

/// The programs `shell_safe` may run.
pub open spec fn is_allowed_program(p: Seq<char>) -> bool {
    ||| p == "cargo"@
    ||| p == "git"@
    ||| p == "ls"@
    ||| p == "dir"@
    ||| p == "echo"@
    ||| p == "pwd"@
    ||| p == "rg"@
    ||| p == "findstr"@
    ||| p == "python"@
    ||| p == "python3"@
    ||| p == "node"@
    ||| p == "gh"@
}

pub fn allowed_program(p: &str) -> (r: bool)
    ensures
        r == is_allowed_program(p@),
{
    str_eq(p, "cargo") || str_eq(p, "git") || str_eq(p, "ls") || str_eq(p, "dir") || str_eq(
        p,
        "echo",
    ) || str_eq(p, "pwd") || str_eq(p, "rg") || str_eq(p, "findstr") || str_eq(p, "python")
        || str_eq(p, "python3") || str_eq(p, "node") || str_eq(p, "gh")
}

/// A program and its arguments.
#[derive(Debug)]
pub struct CommandLine {
    pub program: String,
    pub args: Vec<String>,
}

/// The words of a `shell_safe` command as a program and its arguments, if
/// the program is allowed and the command is not a `git merge`.
pub fn allowlist_command(command: &str) -> (r: Result<CommandLine, ToolError>)
    ensures
        ({
            let w = words(command@);
            if w.len() == 0 {
                fails_with(r, "shell_safe: empty command"@)
            } else if !is_allowed_program(w[0]) {
                fails_with(r, "shell_safe disallows program "@ + w[0])
            } else if w[0] == "git"@ && w.len() > 1 && w[1] == "merge"@ {
                fails_with(r, "shell_safe: blocked for branch merge safety"@)
            } else {
                r matches Ok(c) && c.program@ == w[0] && string_views(c.args@) == w.drop_first()
            }
        }),
{
    let ws = split_words(command);
    if ws.len() == 0 {
        return Err(tool_error(owned("shell_safe: empty command")));
    }
    let program = string_from(&ws[0]);
    if !allowed_program(program.as_str()) {
        return Err(tool_error(concat2("shell_safe disallows program ", program.as_str())));
    }
    let mut args: Vec<String> = Vec::new();
    let mut i: usize = 1;
    while i < ws.len()
        invariant
            1 <= i <= ws.len(),
            string_views(args@) == views(ws@).subrange(1, i as int),
        decreases ws.len() - i,
    {
        let a = string_from(&ws[i]);
        assert(a@ == views(ws@)[i as int]);
        let ghost old_args = string_views(args@);
        args.push(a);
        assert(string_views(args@) =~= old_args.push(a@));
        i = i + 1;
        assert(string_views(args@) =~= views(ws@).subrange(1, i as int));
    }
    assert(views(ws@).subrange(1, ws.len() as int) =~= views(ws@).drop_first());
    assert(program@ == views(ws@)[0]);
    if args.len() > 0 {
        assert(args@[0]@ == string_views(args@)[0]);
    }
    if str_eq(program.as_str(), "git") && args.len() > 0 && str_eq(args[0].as_str(), "merge") {
        return Err(tool_error(owned("shell_safe: blocked for branch merge safety")));
    }
    Ok(CommandLine { program, args })
}

/// A commit message with the `gorkforge: ` prefix, added unless present.
pub open spec fn normalized_commit_message(m: Seq<char>) -> Seq<char> {
    if is_prefix("gorkforge: "@, m) {
        m
    } else {
        "gorkforge: "@ + m
    }
}

pub fn normalize_commit_message(message: &str) -> (r: String)
    ensures
        r@ == normalized_commit_message(message@),
{
    if starts_with_str(message, "gorkforge: ") {
        owned(message)
    } else {
        concat2("gorkforge: ", message)
    }
}

/// Every commit message the tools make carries the `gorkforge: ` prefix,
/// and adding it twice changes nothing.
pub proof fn commit_messages_prefixed(m: Seq<char>)
    ensures
        is_prefix("gorkforge: "@, normalized_commit_message(m)),
        normalized_commit_message(normalized_commit_message(m)) == normalized_commit_message(m),
{
    let p = "gorkforge: "@;
    if !is_prefix(p, m) {
        assert((p + m).subrange(0, p.len() as int) =~= p);
    }
}

/// The message of a `git_commit` call: its `message` argument, or
/// `gorkforge overlay commit`.
pub fn commit_message_arg(args: &ToolArgs) -> (r: String)
    ensures
        r@ == match str_arg(*args, "message"@) {
            Some(m) => m,
            None => "gorkforge overlay commit"@,
        },
{
    match args.get_str("message") {
        Some(m) => m,
        None => owned("gorkforge overlay commit"),
    }
}

/// Whether `git status --short` output reports any change.
pub fn status_has_changes(status: &str) -> (r: bool)
    ensures
        r == (trim(status@).len() > 0),
{
    !crate::text::is_blank(status)
}

/// What committing after a tool's change comes to.
#[derive(Debug)]
pub enum AutoCommitPlan {
    /// Nothing changed; the answer is this text.
    NothingToCommit(String),
    /// Commit with this message, then push when `push` holds.
    Commit { message: String, push: bool },
}

impl ToolSet {
    /// After a change made for `reason`: commit it, and push it when pushes
    /// are approved; nothing when the workspace has no changes.
    pub fn auto_commit_plan(&self, has_changes: bool, reason: &str) -> (r: AutoCommitPlan)
        ensures
            !has_changes ==> (r matches AutoCommitPlan::NothingToCommit(t) && t@
                == "no workspace changes to commit"@),
            has_changes ==> (r matches AutoCommitPlan::Commit { message, push } && message@
                == "gorkforge: "@ + reason@ && push == self.push_self_approved),
    {
        if !has_changes {
            return AutoCommitPlan::NothingToCommit(owned("no workspace changes to commit"));
        }
        let m = concat2("gorkforge: ", reason);
        let message = normalize_commit_message(m.as_str());
        proof {
            let p = "gorkforge: "@;
            assert((p + reason@).subrange(0, p.len() as int) =~= p);
        }
        AutoCommitPlan::Commit { message, push: self.push_self_approved }
    }
}

impl ToolSet {
    /// The tools this toolset offers the model, in catalog order.
    pub fn tool_specs(&self) -> (r: Vec<crate::catalog::ToolSpec>)
        ensures
            r@.len() == crate::catalog::catalog_order().len(),
            forall|i: int|
                0 <= i < r@.len() ==> {
                    &&& (#[trigger] r@[i]).name@ == crate::catalog::tool_name(
                        crate::catalog::catalog_order()[i],
                    )
                    &&& r@[i].description@ == crate::catalog::tool_description(
                        crate::catalog::catalog_order()[i],
                    )
                    &&& r@[i].parameters@ == crate::catalog::tool_schema(
                        crate::catalog::catalog_order()[i],
                    )
                },
    {
        crate::catalog::tool_specs()
    }

    /// The tool a call names, or the error `unknown tool: <name>`.
    pub fn dispatch(&self, name: &str) -> (r: Result<crate::catalog::ToolKind, ToolError>)
        ensures
            match r {
                Ok(k) => crate::catalog::tool_name(k) == name@,
                Err(e) => e.message@ == "unknown tool: "@ + name@ && forall|k: crate::catalog::ToolKind|
                    crate::catalog::tool_name(k) != name@,
            },
    {
        match crate::catalog::ToolKind::from_name(name) {
            Some(k) => Ok(k),
            None => Err(tool_error(concat2("unknown tool: ", name))),
        }
    }
}

/// The directories directly under the search root that `grep` leaves out.
pub fn scan_skipped_dirs(root: &str) -> (r: Vec<String>)
    ensures
        string_views(r@) == seq![
            path_join(root@, ".git"@),
            path_join(root@, "target"@),
            path_join(root@, ".gorkforge"@),
        ],
{
    let mut v: Vec<String> = Vec::new();
    v.push(join_path(root, ".git"));
    v.push(join_path(root, "target"));
    v.push(join_path(root, ".gorkforge"));
    assert(string_views(v@) =~= seq![
        path_join(root@, ".git"@),
        path_join(root@, "target"@),
        path_join(root@, ".gorkforge"@),
    ]);
    v
}

/// Entries that `grep` never descends into or reads, wherever they are.
pub open spec fn scan_skips(name: Seq<char>) -> bool {
    name == ".git"@ || name == "target"@ || name == "runs"@
}

pub fn scan_skips_entry(name: &str) -> (r: bool)
    ensures
        r == scan_skips(name@),
{
    str_eq(name, ".git") || str_eq(name, "target") || str_eq(name, "runs")
}

/// What follows every file change a tool makes: log it, run the cargo gates
/// (fixing the format if needed, fast mode unless the gates-mode setting says
/// otherwise), then commit.
#[derive(Debug)]
pub enum AfterWrite {
    Log(String),
    RunGates { reason: String, auto_fix: bool, default_fast: bool },
    AutoCommit(String),
}

/// The follow-up of a change by `tool` to the file `target`.
pub fn after_write_steps(tool: &str, target: &str) -> (r: Vec<AfterWrite>)
    ensures
        r@.len() == 3,
        r@[0] matches AfterWrite::Log(line) && line@ == tool@ + " "@ + target@,
        r@[1] matches AfterWrite::RunGates { reason, auto_fix, default_fast } && reason@ == tool@
            && auto_fix && default_fast,
        r@[2] matches AfterWrite::AutoCommit(reason) && reason@ == tool@,
{
    let mut r: Vec<AfterWrite> = Vec::new();
    r.push(AfterWrite::Log(concat3(tool, " ", target)));
    r.push(AfterWrite::RunGates { reason: owned(tool), auto_fix: true, default_fast: true });
    r.push(AfterWrite::AutoCommit(owned(tool)));
    r
}

proof fn lemma_no_occurrence_tail(s: Seq<char>, from: Seq<char>)
    requires
        s.len() > 0,
        !has_substr(s, from),
    ensures
        !has_substr(s.drop_first(), from),
        !is_prefix(from, s),
{
    if has_substr(s.drop_first(), from) {
        let i = choose|i: int| crate::text::occurs_at(s.drop_first(), from, i);
        assert(s.subrange(i + 1, i + 1 + from.len()) =~= s.drop_first().subrange(i, i + from.len()));
        assert(crate::text::occurs_at(s, from, i + 1));
    }
    if is_prefix(from, s) {
        assert(crate::text::occurs_at(s, from, 0));
    }
}

/// An edit whose search text does not occur changes nothing, whether it
/// replaces the first occurrence or all of them; so the tool answers
/// `no change` and writes nothing.
pub proof fn edit_without_match_changes_nothing(s: Seq<char>, find: Seq<char>, replace: Seq<char>)
    requires
        !has_substr(s, find),
    ensures
        replace_first(s, find, replace) == s,
        replace_all(s, find, replace) == s,
    decreases s.len(),
{
    if find.len() == 0 {
        assert(s.subrange(0, 0) =~= find);
        assert(crate::text::occurs_at(s, find, 0));
    } else if s.len() == 0 {
        assert(s =~= seq![]);
    } else {
        lemma_no_occurrence_tail(s, find);
        edit_without_match_changes_nothing(s.drop_first(), find, replace);
        assert(seq![s[0]] + s.drop_first() =~= s);
    }
}

} // verus!
