//! The catalog of tools the agent offers the model, and the mapping from a
//! tool's name to its kind.

use vstd::prelude::*;
use crate::text::{concat3, is_prefix, join, join_strings, owned, str_eq, string_views};
use crate::tools::{quote_all, quoted};

verus! {

/// The tools of a toolset.
#[derive(Clone, Copy, Debug, PartialEq, Eq, Structural)]
pub enum ToolKind {
    ParseRustFile,
    ReadFile,
    EditFile,
    WriteFile,
    RunCargo,
    GitStatus,
    GitCommit,
    GitPush,
    OpenPullRequest,
    ListGithubIssues,
    ReadGithubIssue,
    CreateIssue,
    GitCreateFeatureBranch,
    ListDir,
    Grep,
    ShellSafe,
}

/// The name under which the model calls a tool.
pub open spec fn tool_name(k: ToolKind) -> Seq<char> {
    match k {
        ToolKind::ParseRustFile => "parse_rust_file"@,
        ToolKind::ReadFile => "read_file"@,
        ToolKind::EditFile => "edit_file"@,
        ToolKind::WriteFile => "write_file"@,
        ToolKind::RunCargo => "run_cargo"@,
        ToolKind::GitStatus => "git_status"@,
        ToolKind::GitCommit => "git_commit"@,
        ToolKind::GitPush => "git_push"@,
        ToolKind::OpenPullRequest => "open_pull_request"@,
        ToolKind::ListGithubIssues => "list_github_issues"@,
        ToolKind::ReadGithubIssue => "read_github_issue"@,
        ToolKind::CreateIssue => "create_issue"@,
        ToolKind::GitCreateFeatureBranch => "git_create_feature_branch"@,
        ToolKind::ListDir => "list_dir"@,
        ToolKind::Grep => "grep"@,
        ToolKind::ShellSafe => "shell_safe"@,
    }
}

/// What the model is told a tool does.
pub open spec fn tool_description(k: ToolKind) -> Seq<char> {
    match k {
        ToolKind::ParseRustFile => "Parse a Rust file and summarize functions and structs by name. Args: {path}."@,
        ToolKind::ReadFile => "Read file content from overlay workspace by path. Args: {path}."@,
        ToolKind::EditFile => "Search-replace edit. Args: {path, find, replace, all}. all optional false default."@,
        ToolKind::WriteFile => "Create or overwrite file content in overlay. Args: {path, content}."@,
        ToolKind::RunCargo => "Run cargo gates in overlay dir. Fast mode: fmt --check + check. Full mode: clippy -- -D warnings, test, build. Controlled by GORKFORGE_GATES_MODE."@,
        ToolKind::GitStatus => "Show git status on workspace root."@,
        ToolKind::GitCommit => "Commit overlay changes with normalized message. Args: {message}."@,
        ToolKind::GitPush => "Push current branch to origin. Requires PUSH_APPROVED=YES and safe branch."@,
        ToolKind::OpenPullRequest => "Create a GitHub pull request for the current branch using gh. Requires PUSH_APPROVED=YES. If this fails, fall back to shell_safe with manual gh command if needed. Args: {title, body?, base?, head?, draft?, labels?, issue_numbers?}."@,
        ToolKind::ListGithubIssues => "List GitHub issues in the current repository. Args: {state?, limit?, labels?}. Args are optional."@,
        ToolKind::ReadGithubIssue => "Read a GitHub issue by number for review. Args: {number}."@,
        ToolKind::CreateIssue => "Create a GitHub issue for deferred/future work using gh. Requires PUSH_APPROVED=YES. Args: {title, body?, labels?, assignees?}."@,
        ToolKind::GitCreateFeatureBranch => "Create a new local feature branch. Args: {name}."@,
        ToolKind::ListDir => "List directory entries. Args: {path}."@,
        ToolKind::Grep => "Search literal pattern in source files. Args: {path, pattern}."@,
        ToolKind::ShellSafe => "Run safe shell command. Args: {command}."@,
    }
}

/// The schema of a string field.
pub open spec fn string_type() -> Seq<char> {
    "{\"type\":\"string\"}"@
}

/// The schema of a boolean field.
pub open spec fn boolean_type() -> Seq<char> {
    "{\"type\":\"boolean\"}"@
}

/// The schema of an integer field.
pub open spec fn integer_type() -> Seq<char> {
    "{\"type\":\"integer\"}"@
}

/// The schema of a field holding an array of strings.
pub open spec fn string_array_type() -> Seq<char> {
    "{\"type\":\"array\",\"items\":{\"type\":\"string\"}}"@
}

/// The schema of a field holding an array of integers.
pub open spec fn integer_array_type() -> Seq<char> {
    "{\"type\":\"array\",\"items\":{\"type\":\"integer\"}}"@
}

/// The fields a tool's arguments may have, in order, each with the JSON
/// text of its schema.
pub open spec fn tool_properties(k: ToolKind) -> Seq<(Seq<char>, Seq<char>)> {
    match k {
        ToolKind::ParseRustFile => seq![("path"@, string_type())],
        ToolKind::ReadFile => seq![("path"@, string_type())],
        ToolKind::EditFile => seq![("path"@, string_type()), ("find"@, string_type()), ("replace"@, string_type()), ("all"@, boolean_type())],
        ToolKind::WriteFile => seq![("path"@, string_type()), ("content"@, string_type())],
        ToolKind::RunCargo => seq![],
        ToolKind::GitStatus => seq![],
        ToolKind::GitCommit => seq![("message"@, string_type())],
        ToolKind::GitPush => seq![],
        ToolKind::OpenPullRequest => seq![("title"@, string_type()), ("body"@, string_type()), ("base"@, string_type()), ("head"@, string_type()), ("draft"@, boolean_type()), ("labels"@, string_array_type()), ("issue_numbers"@, integer_array_type())],
        ToolKind::ListGithubIssues => seq![("state"@, string_type()), ("limit"@, integer_type()), ("labels"@, string_type())],
        ToolKind::ReadGithubIssue => seq![("number"@, integer_type())],
        ToolKind::CreateIssue => seq![("title"@, string_type()), ("body"@, string_type()), ("labels"@, string_array_type()), ("assignees"@, string_array_type())],
        ToolKind::GitCreateFeatureBranch => seq![("name"@, string_type())],
        ToolKind::ListDir => seq![("path"@, string_type())],
        ToolKind::Grep => seq![("path"@, string_type()), ("pattern"@, string_type())],
        ToolKind::ShellSafe => seq![("command"@, string_type())],
    }
}

/// The fields a tool's arguments must have, when its schema lists them.
pub open spec fn tool_required(k: ToolKind) -> Option<Seq<Seq<char>>> {
    match k {
        ToolKind::ParseRustFile => Some(seq!["path"@]),
        ToolKind::ReadFile => Some(seq!["path"@]),
        ToolKind::EditFile => Some(seq!["path"@, "find"@, "replace"@]),
        ToolKind::WriteFile => Some(seq!["path"@, "content"@]),
        ToolKind::RunCargo => None,
        ToolKind::GitStatus => None,
        ToolKind::GitCommit => None,
        ToolKind::GitPush => None,
        ToolKind::OpenPullRequest => Some(seq!["title"@]),
        ToolKind::ListGithubIssues => Some(seq![]),
        ToolKind::ReadGithubIssue => Some(seq!["number"@]),
        ToolKind::CreateIssue => Some(seq!["title"@]),
        ToolKind::GitCreateFeatureBranch => Some(seq!["name"@]),
        ToolKind::ListDir => None,
        ToolKind::Grep => Some(seq!["pattern"@]),
        ToolKind::ShellSafe => Some(seq!["command"@]),
    }
}

/// `"name":schema` for one field.
pub open spec fn property_text(p: (Seq<char>, Seq<char>)) -> Seq<char> {
    "\""@ + p.0 + "\":"@ + p.1
}

/// The `"required"` part of a schema, when there is one.
pub open spec fn required_text(required: Option<Seq<Seq<char>>>) -> Seq<char> {
    match required {
        Some(r) => ",\"required\":["@ + join(quoted(r), ","@) + "]"@,
        None => seq![],
    }
}

/// The JSON schema of an object with these fields and no others.
pub open spec fn schema_text(props: Seq<(Seq<char>, Seq<char>)>, required: Option<Seq<Seq<char>>>) -> Seq<
    char,
> {
    schema_head() + join(props.map_values(|p: (Seq<char>, Seq<char>)| property_text(p)), ","@) + "}"@
        + required_text(required) + schema_tail()
}

pub open spec fn schema_head() -> Seq<char> {
    "{\"type\":\"object\",\"properties\":{"@
}

pub open spec fn schema_tail() -> Seq<char> {
    ",\"additionalProperties\":false}"@
}

/// The JSON schema of a tool's arguments, as JSON text.
pub open spec fn tool_schema(k: ToolKind) -> Seq<char> {
    schema_text(tool_properties(k), tool_required(k))
}

/// The order in which the catalog lists the tools.
pub open spec fn catalog_order() -> Seq<ToolKind> {
    seq![
        ToolKind::ParseRustFile,
        ToolKind::ReadFile,
        ToolKind::EditFile,
        ToolKind::WriteFile,
        ToolKind::RunCargo,
        ToolKind::GitStatus,
        ToolKind::GitCommit,
        ToolKind::GitPush,
        ToolKind::OpenPullRequest,
        ToolKind::ListGithubIssues,
        ToolKind::ReadGithubIssue,
        ToolKind::CreateIssue,
        ToolKind::GitCreateFeatureBranch,
        ToolKind::ListDir,
        ToolKind::Grep,
        ToolKind::ShellSafe,
    ]
}

/// A tool as it is offered to the model.
#[derive(Clone, Debug)]
pub struct ToolSpec {
    pub name: String,
    pub description: String,
    /// The JSON schema of the arguments, as JSON text.
    pub parameters: String,
}

pub open spec fn pair_views(s: Seq<(String, String)>) -> Seq<(Seq<char>, Seq<char>)> {
    s.map_values(|p: (String, String)| (p.0@, p.1@))
}

pub open spec fn optional_views(r: Option<Vec<String>>) -> Option<Seq<Seq<char>>> {
    match r {
        Some(v) => Some(string_views(v@)),
        None => None,
    }
}

fn string_type_text() -> (r: &'static str)
    ensures
        r@ == string_type(),
{
    "{\"type\":\"string\"}"
}

fn boolean_type_text() -> (r: &'static str)
    ensures
        r@ == boolean_type(),
{
    "{\"type\":\"boolean\"}"
}

fn integer_type_text() -> (r: &'static str)
    ensures
        r@ == integer_type(),
{
    "{\"type\":\"integer\"}"
}

fn string_array_type_text() -> (r: &'static str)
    ensures
        r@ == string_array_type(),
{
    "{\"type\":\"array\",\"items\":{\"type\":\"string\"}}"
}

fn integer_array_type_text() -> (r: &'static str)
    ensures
        r@ == integer_array_type(),
{
    "{\"type\":\"array\",\"items\":{\"type\":\"integer\"}}"
}

/// The JSON schema of an object with these fields and no others.
pub fn render_schema(props: &Vec<(String, String)>, required: &Option<Vec<String>>) -> (r: String)
    ensures
        r@ == schema_text(pair_views(props@), optional_views(*required)),
{
    let mut texts: Vec<String> = Vec::new();
    let mut i: usize = 0;
    while i < props.len()
        invariant
            i <= props.len(),
            string_views(texts@) == pair_views(props@).subrange(0, i as int).map_values(
                |p: (Seq<char>, Seq<char>)| property_text(p),
            ),
        decreases props.len() - i,
    {
        let mut t = concat3("\"", props[i].0.as_str(), "\":");
        t.append(props[i].1.as_str());
        assert(t@ == property_text(pair_views(props@)[i as int]));
        let ghost before = string_views(texts@);
        texts.push(t);
        assert(string_views(texts@) =~= before.push(property_text(pair_views(props@)[i as int])));
        assert(string_views(texts@) =~= pair_views(props@).subrange(0, i + 1).map_values(
            |p: (Seq<char>, Seq<char>)| property_text(p),
        ));
        i = i + 1;
    }
    assert(pair_views(props@).subrange(0, props.len() as int) =~= pair_views(props@));
    let mut r = owned("{\"type\":\"object\",\"properties\":{");
    r.append(join_strings(&texts, ",").as_str());
    r.append("}");
    match required {
        Some(names) => {
            r.append(",\"required\":[");
            r.append(join_strings(&quote_all(names), ",").as_str());
            r.append("]");
        },
        None => {},
    }
    r.append(",\"additionalProperties\":false}");
    r
}

impl ToolKind {
    pub fn name(&self) -> (r: &'static str)
        ensures
            r@ == tool_name(*self),
    {
        match self {
            ToolKind::ParseRustFile => "parse_rust_file",
            ToolKind::ReadFile => "read_file",
            ToolKind::EditFile => "edit_file",
            ToolKind::WriteFile => "write_file",
            ToolKind::RunCargo => "run_cargo",
            ToolKind::GitStatus => "git_status",
            ToolKind::GitCommit => "git_commit",
            ToolKind::GitPush => "git_push",
            ToolKind::OpenPullRequest => "open_pull_request",
            ToolKind::ListGithubIssues => "list_github_issues",
            ToolKind::ReadGithubIssue => "read_github_issue",
            ToolKind::CreateIssue => "create_issue",
            ToolKind::GitCreateFeatureBranch => "git_create_feature_branch",
            ToolKind::ListDir => "list_dir",
            ToolKind::Grep => "grep",
            ToolKind::ShellSafe => "shell_safe",
        }
    }

    pub fn description(&self) -> (r: &'static str)
        ensures
            r@ == tool_description(*self),
    {
        match self {
            ToolKind::ParseRustFile => "Parse a Rust file and summarize functions and structs by name. Args: {path}.",
            ToolKind::ReadFile => "Read file content from overlay workspace by path. Args: {path}.",
            ToolKind::EditFile => "Search-replace edit. Args: {path, find, replace, all}. all optional false default.",
            ToolKind::WriteFile => "Create or overwrite file content in overlay. Args: {path, content}.",
            ToolKind::RunCargo => "Run cargo gates in overlay dir. Fast mode: fmt --check + check. Full mode: clippy -- -D warnings, test, build. Controlled by GORKFORGE_GATES_MODE.",
            ToolKind::GitStatus => "Show git status on workspace root.",
            ToolKind::GitCommit => "Commit overlay changes with normalized message. Args: {message}.",
            ToolKind::GitPush => "Push current branch to origin. Requires PUSH_APPROVED=YES and safe branch.",
            ToolKind::OpenPullRequest => "Create a GitHub pull request for the current branch using gh. Requires PUSH_APPROVED=YES. If this fails, fall back to shell_safe with manual gh command if needed. Args: {title, body?, base?, head?, draft?, labels?, issue_numbers?}.",
            ToolKind::ListGithubIssues => "List GitHub issues in the current repository. Args: {state?, limit?, labels?}. Args are optional.",
            ToolKind::ReadGithubIssue => "Read a GitHub issue by number for review. Args: {number}.",
            ToolKind::CreateIssue => "Create a GitHub issue for deferred/future work using gh. Requires PUSH_APPROVED=YES. Args: {title, body?, labels?, assignees?}.",
            ToolKind::GitCreateFeatureBranch => "Create a new local feature branch. Args: {name}.",
            ToolKind::ListDir => "List directory entries. Args: {path}.",
            ToolKind::Grep => "Search literal pattern in source files. Args: {path, pattern}.",
            ToolKind::ShellSafe => "Run safe shell command. Args: {command}.",
        }
    }

    /// The fields of the tool's arguments with their schemas.
    pub fn properties(&self) -> (r: Vec<(String, String)>)
        ensures
            pair_views(r@) == tool_properties(*self),
    {
        match self {
            ToolKind::ParseRustFile => {
                let r: Vec<(String, String)> = vec![(owned("path"), owned(string_type_text()))];
                assert(pair_views(r@) =~= tool_properties(*self));
                r
            },
            ToolKind::ReadFile => {
                let r: Vec<(String, String)> = vec![(owned("path"), owned(string_type_text()))];
                assert(pair_views(r@) =~= tool_properties(*self));
                r
            },
            ToolKind::EditFile => {
                let r: Vec<(String, String)> = vec![(owned("path"), owned(string_type_text())), (owned("find"), owned(string_type_text())), (owned("replace"), owned(string_type_text())), (owned("all"), owned(boolean_type_text()))];
                assert(pair_views(r@) =~= tool_properties(*self));
                r
            },
            ToolKind::WriteFile => {
                let r: Vec<(String, String)> = vec![(owned("path"), owned(string_type_text())), (owned("content"), owned(string_type_text()))];
                assert(pair_views(r@) =~= tool_properties(*self));
                r
            },
            ToolKind::RunCargo => {
                let r: Vec<(String, String)> = vec![];
                assert(pair_views(r@) =~= tool_properties(*self));
                r
            },
            ToolKind::GitStatus => {
                let r: Vec<(String, String)> = vec![];
                assert(pair_views(r@) =~= tool_properties(*self));
                r
            },
            ToolKind::GitCommit => {
                let r: Vec<(String, String)> = vec![(owned("message"), owned(string_type_text()))];
                assert(pair_views(r@) =~= tool_properties(*self));
                r
            },
            ToolKind::GitPush => {
                let r: Vec<(String, String)> = vec![];
                assert(pair_views(r@) =~= tool_properties(*self));
                r
            },
            ToolKind::OpenPullRequest => {
                let r: Vec<(String, String)> = vec![(owned("title"), owned(string_type_text())), (owned("body"), owned(string_type_text())), (owned("base"), owned(string_type_text())), (owned("head"), owned(string_type_text())), (owned("draft"), owned(boolean_type_text())), (owned("labels"), owned(string_array_type_text())), (owned("issue_numbers"), owned(integer_array_type_text()))];
                assert(pair_views(r@) =~= tool_properties(*self));
                r
            },
            ToolKind::ListGithubIssues => {
                let r: Vec<(String, String)> = vec![(owned("state"), owned(string_type_text())), (owned("limit"), owned(integer_type_text())), (owned("labels"), owned(string_type_text()))];
                assert(pair_views(r@) =~= tool_properties(*self));
                r
            },
            ToolKind::ReadGithubIssue => {
                let r: Vec<(String, String)> = vec![(owned("number"), owned(integer_type_text()))];
                assert(pair_views(r@) =~= tool_properties(*self));
                r
            },
            ToolKind::CreateIssue => {
                let r: Vec<(String, String)> = vec![(owned("title"), owned(string_type_text())), (owned("body"), owned(string_type_text())), (owned("labels"), owned(string_array_type_text())), (owned("assignees"), owned(string_array_type_text()))];
                assert(pair_views(r@) =~= tool_properties(*self));
                r
            },
            ToolKind::GitCreateFeatureBranch => {
                let r: Vec<(String, String)> = vec![(owned("name"), owned(string_type_text()))];
                assert(pair_views(r@) =~= tool_properties(*self));
                r
            },
            ToolKind::ListDir => {
                let r: Vec<(String, String)> = vec![(owned("path"), owned(string_type_text()))];
                assert(pair_views(r@) =~= tool_properties(*self));
                r
            },
            ToolKind::Grep => {
                let r: Vec<(String, String)> = vec![(owned("path"), owned(string_type_text())), (owned("pattern"), owned(string_type_text()))];
                assert(pair_views(r@) =~= tool_properties(*self));
                r
            },
            ToolKind::ShellSafe => {
                let r: Vec<(String, String)> = vec![(owned("command"), owned(string_type_text()))];
                assert(pair_views(r@) =~= tool_properties(*self));
                r
            },
        }
    }

    /// The fields the tool's arguments must have, when its schema lists them.
    pub fn required(&self) -> (r: Option<Vec<String>>)
        ensures
            optional_views(r) == tool_required(*self),
    {
        match self {
            ToolKind::ParseRustFile => {
                let r: Vec<String> = vec![owned("path")];
                assert(string_views(r@) =~= tool_required(*self)->Some_0);
                Some(r)
            },
            ToolKind::ReadFile => {
                let r: Vec<String> = vec![owned("path")];
                assert(string_views(r@) =~= tool_required(*self)->Some_0);
                Some(r)
            },
            ToolKind::EditFile => {
                let r: Vec<String> = vec![owned("path"), owned("find"), owned("replace")];
                assert(string_views(r@) =~= tool_required(*self)->Some_0);
                Some(r)
            },
            ToolKind::WriteFile => {
                let r: Vec<String> = vec![owned("path"), owned("content")];
                assert(string_views(r@) =~= tool_required(*self)->Some_0);
                Some(r)
            },
            ToolKind::RunCargo => None,
            ToolKind::GitStatus => None,
            ToolKind::GitCommit => None,
            ToolKind::GitPush => None,
            ToolKind::OpenPullRequest => {
                let r: Vec<String> = vec![owned("title")];
                assert(string_views(r@) =~= tool_required(*self)->Some_0);
                Some(r)
            },
            ToolKind::ListGithubIssues => {
                let r: Vec<String> = vec![];
                assert(string_views(r@) =~= tool_required(*self)->Some_0);
                Some(r)
            },
            ToolKind::ReadGithubIssue => {
                let r: Vec<String> = vec![owned("number")];
                assert(string_views(r@) =~= tool_required(*self)->Some_0);
                Some(r)
            },
            ToolKind::CreateIssue => {
                let r: Vec<String> = vec![owned("title")];
                assert(string_views(r@) =~= tool_required(*self)->Some_0);
                Some(r)
            },
            ToolKind::GitCreateFeatureBranch => {
                let r: Vec<String> = vec![owned("name")];
                assert(string_views(r@) =~= tool_required(*self)->Some_0);
                Some(r)
            },
            ToolKind::ListDir => None,
            ToolKind::Grep => {
                let r: Vec<String> = vec![owned("pattern")];
                assert(string_views(r@) =~= tool_required(*self)->Some_0);
                Some(r)
            },
            ToolKind::ShellSafe => {
                let r: Vec<String> = vec![owned("command")];
                assert(string_views(r@) =~= tool_required(*self)->Some_0);
                Some(r)
            },
        }
    }

    /// The JSON schema of the tool's arguments.
    pub fn schema(&self) -> (r: String)
        ensures
            r@ == tool_schema(*self),
    {
        render_schema(&self.properties(), &self.required())
    }

    /// The tool a name calls, if any.
    pub fn from_name(name: &str) -> (r: Option<ToolKind>)
        ensures
            match r {
                Some(k) => tool_name(k) == name@,
                None => forall|k: ToolKind| tool_name(k) != name@,
            },
    {
        if str_eq(name, "parse_rust_file") {
            return Some(ToolKind::ParseRustFile);
        }
        if str_eq(name, "read_file") {
            return Some(ToolKind::ReadFile);
        }
        if str_eq(name, "edit_file") {
            return Some(ToolKind::EditFile);
        }
        if str_eq(name, "write_file") {
            return Some(ToolKind::WriteFile);
        }
        if str_eq(name, "run_cargo") {
            return Some(ToolKind::RunCargo);
        }
        if str_eq(name, "git_status") {
            return Some(ToolKind::GitStatus);
        }
        if str_eq(name, "git_commit") {
            return Some(ToolKind::GitCommit);
        }
        if str_eq(name, "git_push") {
            return Some(ToolKind::GitPush);
        }
        if str_eq(name, "open_pull_request") {
            return Some(ToolKind::OpenPullRequest);
        }
        if str_eq(name, "list_github_issues") {
            return Some(ToolKind::ListGithubIssues);
        }
        if str_eq(name, "read_github_issue") {
            return Some(ToolKind::ReadGithubIssue);
        }
        if str_eq(name, "create_issue") {
            return Some(ToolKind::CreateIssue);
        }
        if str_eq(name, "git_create_feature_branch") {
            return Some(ToolKind::GitCreateFeatureBranch);
        }
        if str_eq(name, "list_dir") {
            return Some(ToolKind::ListDir);
        }
        if str_eq(name, "grep") {
            return Some(ToolKind::Grep);
        }
        if str_eq(name, "shell_safe") {
            return Some(ToolKind::ShellSafe);
        }
        None
    }

    /// The spec under which the tool is offered.
    pub fn spec(&self) -> (r: ToolSpec)
        ensures
            r.name@ == tool_name(*self),
            r.description@ == tool_description(*self),
            r.parameters@ == tool_schema(*self),
    {
        ToolSpec {
            name: owned(self.name()),
            description: owned(self.description()),
            parameters: self.schema(),
        }
    }
}

/// The tools offered to the model, in catalog order.
pub fn tool_specs() -> (r: Vec<ToolSpec>)
    ensures
        r@.len() == catalog_order().len(),
        forall|i: int|
            0 <= i < r@.len() ==> {
                &&& (#[trigger] r@[i]).name@ == tool_name(catalog_order()[i])
                &&& r@[i].description@ == tool_description(catalog_order()[i])
                &&& r@[i].parameters@ == tool_schema(catalog_order()[i])
            },
{
    let kinds = [
        ToolKind::ParseRustFile,
        ToolKind::ReadFile,
        ToolKind::EditFile,
        ToolKind::WriteFile,
        ToolKind::RunCargo,
        ToolKind::GitStatus,
        ToolKind::GitCommit,
        ToolKind::GitPush,
        ToolKind::OpenPullRequest,
        ToolKind::ListGithubIssues,
        ToolKind::ReadGithubIssue,
        ToolKind::CreateIssue,
        ToolKind::GitCreateFeatureBranch,
        ToolKind::ListDir,
        ToolKind::Grep,
        ToolKind::ShellSafe,
    ];
    let mut r: Vec<ToolSpec> = Vec::new();
    let mut i: usize = 0;
    while i < 16
        invariant
            i <= 16,
            kinds@ == catalog_order(),
            r@.len() == i,
            forall|j: int|
                0 <= j < i ==> {
                    &&& (#[trigger] r@[j]).name@ == tool_name(catalog_order()[j])
                    &&& r@[j].description@ == tool_description(catalog_order()[j])
                    &&& r@[j].parameters@ == tool_schema(catalog_order()[j])
                },
        decreases 16 - i,
    {
        r.push(kinds[i].spec());
        i = i + 1;
    }
    r
}

/// A name's length with its first and last characters; no two tools' names
/// share it.
pub open spec fn name_key(s: Seq<char>) -> (nat, char, char) {
    (s.len(), s[0], s[s.len() - 1])
}

/// The key of each tool's name, written out.
pub open spec fn tool_key(k: ToolKind) -> (nat, char, char) {
    match k {
        ToolKind::ParseRustFile => (15, 'p', 'e'),
        ToolKind::ReadFile => (9, 'r', 'e'),
        ToolKind::EditFile => (9, 'e', 'e'),
        ToolKind::WriteFile => (10, 'w', 'e'),
        ToolKind::RunCargo => (9, 'r', 'o'),
        ToolKind::GitStatus => (10, 'g', 's'),
        ToolKind::GitCommit => (10, 'g', 't'),
        ToolKind::GitPush => (8, 'g', 'h'),
        ToolKind::OpenPullRequest => (17, 'o', 't'),
        ToolKind::ListGithubIssues => (18, 'l', 's'),
        ToolKind::ReadGithubIssue => (17, 'r', 'e'),
        ToolKind::CreateIssue => (12, 'c', 'e'),
        ToolKind::GitCreateFeatureBranch => (25, 'g', 'h'),
        ToolKind::ListDir => (8, 'l', 'r'),
        ToolKind::Grep => (4, 'g', 'p'),
        ToolKind::ShellSafe => (10, 's', 'e'),
    }
}

proof fn lemma_tool_key(k: ToolKind)
    ensures
        name_key(tool_name(k)) == tool_key(k),
{
        reveal_strlit("parse_rust_file");
        reveal_strlit("read_file");
        reveal_strlit("edit_file");
        reveal_strlit("write_file");
        reveal_strlit("run_cargo");
        reveal_strlit("git_status");
        reveal_strlit("git_commit");
        reveal_strlit("git_push");
        reveal_strlit("open_pull_request");
        reveal_strlit("list_github_issues");
        reveal_strlit("read_github_issue");
        reveal_strlit("create_issue");
        reveal_strlit("git_create_feature_branch");
        reveal_strlit("list_dir");
        reveal_strlit("grep");
        reveal_strlit("shell_safe");
}

/// Every tool has a name of its own, and the catalog lists every tool: the
/// name under which the catalog offers a tool calls that tool and no other.
pub proof fn catalog_names_dispatch(k: ToolKind)
    ensures
        exists|i: int| 0 <= i < catalog_order().len() && catalog_order()[i] == k,
        forall|k2: ToolKind| tool_name(k2) == tool_name(k) ==> k2 == k,
{
    match k {
        ToolKind::ParseRustFile => assert(catalog_order()[0] == k),
        ToolKind::ReadFile => assert(catalog_order()[1] == k),
        ToolKind::EditFile => assert(catalog_order()[2] == k),
        ToolKind::WriteFile => assert(catalog_order()[3] == k),
        ToolKind::RunCargo => assert(catalog_order()[4] == k),
        ToolKind::GitStatus => assert(catalog_order()[5] == k),
        ToolKind::GitCommit => assert(catalog_order()[6] == k),
        ToolKind::GitPush => assert(catalog_order()[7] == k),
        ToolKind::OpenPullRequest => assert(catalog_order()[8] == k),
        ToolKind::ListGithubIssues => assert(catalog_order()[9] == k),
        ToolKind::ReadGithubIssue => assert(catalog_order()[10] == k),
        ToolKind::CreateIssue => assert(catalog_order()[11] == k),
        ToolKind::GitCreateFeatureBranch => assert(catalog_order()[12] == k),
        ToolKind::ListDir => assert(catalog_order()[13] == k),
        ToolKind::Grep => assert(catalog_order()[14] == k),
        ToolKind::ShellSafe => assert(catalog_order()[15] == k),
    }
    assert forall|k2: ToolKind| tool_name(k2) == tool_name(k) implies k2 == k by {
        lemma_tool_key(k);
        lemma_tool_key(k2);
    }
}

/// Every tool's argument schema is a closed JSON object: it declares the
/// type `object`, lists its fields under `properties`, admits no other field
/// (`additionalProperties` is false), and every field it requires is one of
/// its fields.
pub proof fn schemas_are_closed_objects(k: ToolKind)
    ensures
        tool_schema(k) == schema_text(tool_properties(k), tool_required(k)),
        is_prefix(schema_head(), tool_schema(k)),
        tool_schema(k).subrange(tool_schema(k).len() - schema_tail().len(), tool_schema(k).len() as int)
            == schema_tail(),
        tool_required(k) is Some ==> forall|i: int|
            0 <= i < tool_required(k)->Some_0.len() ==> exists|j: int|
                0 <= j < tool_properties(k).len() && tool_properties(k)[j].0
                    == #[trigger] tool_required(k)->Some_0[i],
{
    let s = tool_schema(k);
    let mid = join(tool_properties(k).map_values(|p: (Seq<char>, Seq<char>)| property_text(p)), ","@)
        + "}"@ + required_text(tool_required(k));
    assert(s =~= schema_head() + mid + schema_tail());
    assert(s.subrange(0, schema_head().len() as int) =~= schema_head());
    assert(s.subrange(s.len() - schema_tail().len(), s.len() as int) =~= schema_tail());
    match k {
        ToolKind::ParseRustFile => {
            assert(tool_properties(k)[0].0 == tool_required(k)->Some_0[0]);
        },
        ToolKind::ReadFile => {
            assert(tool_properties(k)[0].0 == tool_required(k)->Some_0[0]);
        },
        ToolKind::EditFile => {
            assert(tool_properties(k)[0].0 == tool_required(k)->Some_0[0]);
            assert(tool_properties(k)[1].0 == tool_required(k)->Some_0[1]);
            assert(tool_properties(k)[2].0 == tool_required(k)->Some_0[2]);
        },
        ToolKind::WriteFile => {
            assert(tool_properties(k)[0].0 == tool_required(k)->Some_0[0]);
            assert(tool_properties(k)[1].0 == tool_required(k)->Some_0[1]);
        },
        ToolKind::RunCargo => {},
        ToolKind::GitStatus => {},
        ToolKind::GitCommit => {},
        ToolKind::GitPush => {},
        ToolKind::OpenPullRequest => {
            assert(tool_properties(k)[0].0 == tool_required(k)->Some_0[0]);
        },
        ToolKind::ListGithubIssues => {},
        ToolKind::ReadGithubIssue => {
            assert(tool_properties(k)[0].0 == tool_required(k)->Some_0[0]);
        },
        ToolKind::CreateIssue => {
            assert(tool_properties(k)[0].0 == tool_required(k)->Some_0[0]);
        },
        ToolKind::GitCreateFeatureBranch => {
            assert(tool_properties(k)[0].0 == tool_required(k)->Some_0[0]);
        },
        ToolKind::ListDir => {},
        ToolKind::Grep => {
            assert(tool_properties(k)[1].0 == tool_required(k)->Some_0[0]);
        },
        ToolKind::ShellSafe => {
            assert(tool_properties(k)[0].0 == tool_required(k)->Some_0[0]);
        },
    }
}

} // verus!
