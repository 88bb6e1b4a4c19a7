//! The git and GitHub tools: branch names, pull requests, issues and pushes
//! are checked here and turned into command-line arguments.

use vstd::prelude::*;
use vstd::string::*;
use crate::args::{array_arg, bool_arg, or_default, str_arg, u64_arg, ArgItem, ToolArgs};
use crate::text::{
    concat2, concat3, contains_char, contains_str, decimal, decimal_string, has_substr, is_prefix,
    join, join_strings, owned, push_owned, starts_with_str, str_eq, string_views, trim, trim_str,
};
use crate::tools::{fails_with, tool_error, ToolError, ToolSet};

verus! {

/// Branches that are never used as a pull request's source, and that pushes
/// leave alone unless explicitly allowed.
pub open spec fn is_protected(b: Seq<char>) -> bool {
    b == "main"@ || b == "master"@ || b == "develop"@ || b == "trunk"@
}

pub fn protected_branch(b: &str) -> (r: bool)
    ensures
        r == is_protected(b@),
{
    str_eq(b, "main") || str_eq(b, "master") || str_eq(b, "develop") || str_eq(b, "trunk")
}

/// `flag item` for every item, in order.
pub open spec fn flag_pairs(flag: Seq<char>, items: Seq<Seq<char>>) -> Seq<Seq<char>>
    decreases items.len(),
{
    if items.len() == 0 {
        seq![]
    } else {
        flag_pairs(flag, items.drop_last()) + seq![flag, items.last()]
    }
}

pub fn push_flag_pairs(out: &mut Vec<String>, flag: &str, items: &Vec<String>)
    ensures
        string_views(final(out)@) == string_views(old(out)@) + flag_pairs(
            flag@,
            string_views(items@),
        ),
{
    let mut i: usize = 0;
    while i < items.len()
        invariant
            i <= items.len(),
            string_views(out@) == string_views(old(out)@) + flag_pairs(
                flag@,
                string_views(items@).subrange(0, i as int),
            ),
        decreases items.len() - i,
    {
        let ghost pre = string_views(items@).subrange(0, i as int);
        let ghost next = string_views(items@).subrange(0, i + 1);
        assert(next.drop_last() =~= pre);
        push_owned(out, flag);
        push_owned(out, items[i].as_str());
        i = i + 1;
        assert(string_views(out@) =~= string_views(old(out)@) + flag_pairs(flag@, next));
    }
    assert(string_views(items@).subrange(0, items.len() as int) =~= string_views(items@));
}

/// The trimmed, non-empty strings among array elements, in order.
pub open spec fn trimmed_strs(items: Seq<ArgItem>) -> Seq<Seq<char>>
    decreases items.len(),
{
    if items.len() == 0 {
        seq![]
    } else {
        let prev = trimmed_strs(items.drop_last());
        match items.last() {
            ArgItem::Str(s) => if trim(s@).len() > 0 {
                prev.push(trim(s@))
            } else {
                prev
            },
            _ => prev,
        }
    }
}

/// The decimal text of the `u64` numbers among array elements, in order.
pub open spec fn uint_decimals(items: Seq<ArgItem>) -> Seq<Seq<char>>
    decreases items.len(),
{
    if items.len() == 0 {
        seq![]
    } else {
        let prev = uint_decimals(items.drop_last());
        match items.last() {
            ArgItem::UInt(n) => prev.push(decimal(n as nat)),
            _ => prev,
        }
    }
}

/// The items of an optional array.
pub open spec fn items_or_empty(a: Option<Seq<ArgItem>>) -> Seq<ArgItem> {
    match a {
        Some(v) => v,
        None => seq![],
    }
}

pub fn trimmed_str_items(items: &Vec<ArgItem>) -> (r: Vec<String>)
    ensures
        string_views(r@) == trimmed_strs(items@),
{
    let mut r: Vec<String> = Vec::new();
    let mut i: usize = 0;
    while i < items.len()
        invariant
            i <= items.len(),
            string_views(r@) == trimmed_strs(items@.subrange(0, i as int)),
        decreases items.len() - i,
    {
        let ghost pre = items@.subrange(0, i as int);
        let ghost next = items@.subrange(0, i + 1);
        assert(next.drop_last() =~= pre);
        match &items[i] {
            ArgItem::Str(s) => {
                let t = trim_str(s.as_str());
                if !crate::text::is_blank(t.as_str()) {
                    proof {
                        assert(trim(t@) == t@) by {
                            crate::text::lemma_trim_idempotent(s@);
                        }
                    }
                    let ghost old_r = string_views(r@);
                    r.push(t);
                    assert(string_views(r@) =~= old_r.push(trim(s@)));
                } else {
                    proof {
                        crate::text::lemma_trim_idempotent(s@);
                    }
                }
            },
            _ => {},
        }
        i = i + 1;
    }
    assert(items@.subrange(0, items.len() as int) =~= items@);
    r
}

pub fn uint_item_decimals(items: &Vec<ArgItem>) -> (r: Vec<String>)
    ensures
        string_views(r@) == uint_decimals(items@),
{
    let mut r: Vec<String> = Vec::new();
    let mut i: usize = 0;
    while i < items.len()
        invariant
            i <= items.len(),
            string_views(r@) == uint_decimals(items@.subrange(0, i as int)),
        decreases items.len() - i,
    {
        let ghost pre = items@.subrange(0, i as int);
        let ghost next = items@.subrange(0, i + 1);
        assert(next.drop_last() =~= pre);
        match &items[i] {
            ArgItem::UInt(n) => {
                let d = decimal_string(*n as u128);
                let ghost old_r = string_views(r@);
                r.push(d);
                assert(string_views(r@) =~= old_r.push(decimal(*n as nat)));
            },
            _ => {},
        }
        i = i + 1;
    }
    assert(items@.subrange(0, items.len() as int) =~= items@);
    r
}

/// The checked name of a new feature branch, or why it is refused.
pub open spec fn feature_branch_outcome(args: ToolArgs) -> Result<Seq<char>, Seq<char>> {
    match str_arg(args, "name"@) {
        None => Err("git_create_feature_branch: name required"@),
        Some(n) => {
            let raw = trim(n);
            if raw.len() == 0 {
                Err("git_create_feature_branch: branch name cannot be empty"@)
            } else if raw.contains(' ') || raw.contains('\n') || raw.contains('\t') || raw.contains(
                '\\',
            ) {
                Err("git_create_feature_branch: invalid branch name '"@ + raw + "'"@)
            } else if has_substr(raw, ".."@) {
                Err("git_create_feature_branch: suspicious branch path '"@ + raw + "'"@)
            } else {
                let b = if is_prefix("feature/"@, raw) {
                    raw
                } else {
                    "feature/"@ + raw
                };
                if is_protected(b) {
                    Err("git_create_feature_branch: branch '"@ + b + "' is protected"@)
                } else {
                    Ok(b)
                }
            }
        },
    }
}

/// Creating a feature branch: the `git` arguments, the log line and the answer.
#[derive(Debug)]
pub struct BranchCreation {
    pub branch: String,
    pub git_args: Vec<String>,
    pub log_line: String,
    pub answer: String,
}

pub fn plan_feature_branch(args: &ToolArgs) -> (r: Result<BranchCreation, ToolError>)
    ensures
        match feature_branch_outcome(*args) {
            Ok(b) => r matches Ok(c) && c.branch@ == b && string_views(c.git_args@) == seq![
                "checkout"@,
                "-b"@,
                b,
            ] && c.log_line@ == "git_create_feature_branch: "@ + b && c.answer@
                == "created feature branch '"@ + b + "'"@,
            Err(m) => fails_with(r, m),
        },
{
    let name = match args.get_str("name") {
        Some(n) => n,
        None => {
            return Err(tool_error(owned("git_create_feature_branch: name required")));
        },
    };
    let raw = trim_str(name.as_str());
    if crate::text::is_blank(raw.as_str()) {
        proof {
            crate::text::lemma_trim_idempotent(name@);
        }
        return Err(tool_error(owned("git_create_feature_branch: branch name cannot be empty")));
    }
    if contains_char(raw.as_str(), ' ') || contains_char(raw.as_str(), '\n') || contains_char(
        raw.as_str(),
        '\t',
    ) || contains_char(raw.as_str(), '\\') {
        return Err(
            tool_error(
                concat3("git_create_feature_branch: invalid branch name '", raw.as_str(), "'"),
            ),
        );
    }
    if contains_str(raw.as_str(), "..") {
        return Err(
            tool_error(
                concat3("git_create_feature_branch: suspicious branch path '", raw.as_str(), "'"),
            ),
        );
    }
    let branch = if starts_with_str(raw.as_str(), "feature/") {
        raw
    } else {
        concat2("feature/", raw.as_str())
    };
    if protected_branch(branch.as_str()) {
        return Err(
            tool_error(
                concat3("git_create_feature_branch: branch '", branch.as_str(), "' is protected"),
            ),
        );
    }
    let mut git_args: Vec<String> = Vec::new();
    push_owned(&mut git_args, "checkout");
    push_owned(&mut git_args, "-b");
    push_owned(&mut git_args, branch.as_str());
    assert(string_views(git_args@) =~= seq!["checkout"@, "-b"@, branch@]);
    let log_line = concat2("git_create_feature_branch: ", branch.as_str());
    let answer = concat3("created feature branch '", branch.as_str(), "'");
    Ok(BranchCreation { branch, git_args, log_line, answer })
}

/// A branch created by `git_create_feature_branch` always lies under
/// `feature/`, and so is never a protected branch.
pub proof fn feature_branches_unprotected(args: ToolArgs)
    requires
        feature_branch_outcome(args) is Ok,
    ensures
        is_prefix("feature/"@, feature_branch_outcome(args)->Ok_0),
        !is_protected(feature_branch_outcome(args)->Ok_0),
{
    reveal_strlit("feature/");
    let raw = trim(str_arg(args, "name"@)->Some_0);
    let p = "feature/"@;
    if !is_prefix(p, raw) {
        assert((p + raw).subrange(0, p.len() as int) =~= p);
    }
}

/// A pull request the model asked for, before its source branch is known.
#[derive(Debug)]
pub struct PrDraft {
    pub title: String,
    pub body: String,
    pub base: String,
    /// The source branch, when the model named one.
    pub head: Option<String>,
    pub draft: bool,
    pub labels: Vec<String>,
    /// The issues the pull request closes, as decimal text.
    pub issue_numbers: Vec<String>,
}

/// A trimmed string argument, or a default.
fn trimmed_or(args: &ToolArgs, key: &str, default: &str) -> (r: String)
    ensures
        r@ == trim(or_default(str_arg(*args, key@), default@)),
{
    match args.get_str(key) {
        Some(s) => trim_str(s.as_str()),
        None => trim_str(default),
    }
}

/// The trimmed, non-empty strings of an array argument.
fn str_list_arg(args: &ToolArgs, key: &str) -> (r: Vec<String>)
    ensures
        string_views(r@) == trimmed_strs(items_or_empty(array_arg(*args, key@))),
{
    match args.get_array(key) {
        Some(items) => trimmed_str_items(items),
        None => {
            let r: Vec<String> = Vec::new();
            assert(string_views(r@) =~= trimmed_strs(seq![]));
            r
        },
    }
}

impl ToolSet {
    /// `open_pull_request`, first part: the request, if pushes are approved
    /// and the title is there and not blank.
    pub fn plan_pull_request(&self, args: &ToolArgs) -> (r: Result<PrDraft, ToolError>)
        ensures
            !self.push_self_approved ==> fails_with(
                r,
                "open_pull_request blocked: PUSH_APPROVED=YES required"@,
            ),
            self.push_self_approved ==> match str_arg(*args, "title"@) {
                None => fails_with(r, "open_pull_request: title required"@),
                Some(t) => if trim(t).len() == 0 {
                    fails_with(r, "open_pull_request: title cannot be empty"@)
                } else {
                    r matches Ok(d) && d.title@ == trim(t) && d.body@ == trim(
                        or_default(str_arg(*args, "body"@), ""@),
                    ) && d.base@ == trim(or_default(str_arg(*args, "base"@), "main"@)) && (match str_arg(
                        *args,
                        "head"@,
                    ) {
                        Some(h) => d.head matches Some(x) && x@ == trim(h),
                        None => d.head is None,
                    }) && d.draft == (bool_arg(*args, "draft"@) == Some(true)) && string_views(
                        d.labels@,
                    ) == trimmed_strs(items_or_empty(array_arg(*args, "labels"@)))
                        && string_views(d.issue_numbers@) == uint_decimals(
                        items_or_empty(array_arg(*args, "issue_numbers"@)),
                    )
                },
            },
    {
        if !self.push_self_approved {
            return Err(tool_error(owned("open_pull_request blocked: PUSH_APPROVED=YES required")));
        }
        let title = match args.get_str("title") {
            Some(t) => trim_str(t.as_str()),
            None => {
                return Err(tool_error(owned("open_pull_request: title required")));
            },
        };
        if crate::text::is_blank(title.as_str()) {
            proof {
                crate::text::lemma_trim_idempotent(str_arg(*args, "title"@)->Some_0);
            }
            return Err(tool_error(owned("open_pull_request: title cannot be empty")));
        }
        proof {
            crate::text::lemma_trim_idempotent(str_arg(*args, "title"@)->Some_0);
        }
        let body = trimmed_or(args, "body", "");
        let base = trimmed_or(args, "base", "main");
        let head = match args.get_str("head") {
            Some(h) => Some(trim_str(h.as_str())),
            None => None,
        };
        let draft = match args.get_bool("draft") {
            Some(b) => b,
            None => false,
        };
        let issue_numbers = match args.get_array("issue_numbers") {
            Some(items) => uint_item_decimals(items),
            None => {
                let r: Vec<String> = Vec::new();
                assert(string_views(r@) =~= uint_decimals(seq![]));
                r
            },
        };
        let labels = str_list_arg(args, "labels");
        Ok(PrDraft { title, body, base, head, draft, labels, issue_numbers })
    }
}

/// The source branch of a pull request: the one named, or the current one.
pub open spec fn pr_head(named: Option<String>, current: Seq<char>) -> Seq<char> {
    match named {
        Some(h) => h@,
        None => trim(current),
    }
}

/// `Closes #<n>` for every issue number.
pub open spec fn closes_lines(issues: Seq<Seq<char>>) -> Seq<Seq<char>> {
    issues.map_values(|n: Seq<char>| "Closes #"@ + n)
}

/// The `--body` arguments: the body, followed by the closing lines when
/// there are any; only the closing lines when the body is empty.
pub open spec fn pr_body_args(body: Seq<char>, issues: Seq<Seq<char>>) -> Seq<Seq<char>> {
    if body.len() > 0 {
        if issues.len() > 0 {
            seq!["--body"@, body + "\n\n"@ + join(closes_lines(issues), "\n"@)]
        } else {
            seq!["--body"@, body]
        }
    } else if issues.len() > 0 {
        seq!["--body"@, join(closes_lines(issues), "\n"@)]
    } else {
        seq![]
    }
}

/// The `gh pr create` arguments, or why the branches are refused.
pub open spec fn pr_args_outcome(d: PrDraft, head: Seq<char>) -> Result<Seq<Seq<char>>, Seq<char>> {
    let base = d.base@;
    if head.len() == 0 {
        Err("open_pull_request: head branch cannot be empty"@)
    } else if is_protected(head) {
        Err("open_pull_request: branch '"@ + head + "' cannot be used as PR source"@)
    } else if base.len() == 0 {
        Err("open_pull_request: base branch cannot be empty"@)
    } else if head.contains('\\') || base.contains('\\') {
        Err("open_pull_request: invalid branch separator in '"@ + head + "' or '"@ + base + "'"@)
    } else if has_substr(head, ".."@) || has_substr(base, ".."@) {
        Err("open_pull_request: suspicious branch reference in '"@ + head + "' or '"@ + base + "'"@)
    } else if head.contains('\n') || head.contains('\t') || base.contains('\n') || base.contains(
        '\t',
    ) {
        Err("open_pull_request: invalid branch/newline in '"@ + head + "' or '"@ + base + "'"@)
    } else if head.contains(' ') || base.contains(' ') {
        Err(
            "open_pull_request: branch names cannot contain spaces: '"@ + head + "' / '"@ + base
                + "'"@,
        )
    } else {
        Ok(
            seq!["pr"@, "create"@, "--title"@, d.title@] + seq!["--base"@, base] + seq![
                "--head"@,
                head,
            ] + (if d.draft {
                seq!["--draft"@]
            } else {
                seq![]
            }) + flag_pairs("--label"@, string_views(d.labels@)) + pr_body_args(
                d.body@,
                string_views(d.issue_numbers@),
            ),
        )
    }
}

/// A pull request keeps its body: when the draft's body is not empty, the
/// `gh` arguments end with `--body` and a text that begins with the body, and
/// that text is the body itself when no issue is closed.
pub proof fn pull_requests_keep_their_body(d: PrDraft, head: Seq<char>)
    ensures
        pr_args_outcome(d, head) is Ok && d.body@.len() > 0 ==> {
            let a = pr_args_outcome(d, head)->Ok_0;
            &&& a.len() >= 2
            &&& a[a.len() - 2] == "--body"@
            &&& is_prefix(d.body@, a[a.len() - 1])
            &&& d.issue_numbers@.len() == 0 ==> a[a.len() - 1] == d.body@
        },
{
    if pr_args_outcome(d, head) is Ok {
        let a = pr_args_outcome(d, head)->Ok_0;
        let issues = string_views(d.issue_numbers@);
        let tail = pr_body_args(d.body@, issues);
        let front = a.subrange(0, a.len() - tail.len());
        assert(a =~= front + tail);
        if d.body@.len() > 0 {
            assert(a[a.len() - 2] == tail[0]);
            assert(a[a.len() - 1] == tail[1]);
            if issues.len() > 0 {
                let full = d.body@ + "\n\n"@ + join(closes_lines(issues), "\n"@);
                assert(full.subrange(0, d.body@.len() as int) =~= d.body@);
            } else {
                assert(tail[1].subrange(0, d.body@.len() as int) =~= d.body@);
            }
        }
    }
}

fn closes_text(issues: &Vec<String>) -> (r: String)
    ensures
        r@ == join(closes_lines(string_views(issues@)), "\n"@),
{
    let mut lines: Vec<String> = Vec::new();
    let mut i: usize = 0;
    while i < issues.len()
        invariant
            i <= issues.len(),
            string_views(lines@) == closes_lines(string_views(issues@)).subrange(0, i as int),
        decreases issues.len() - i,
    {
        let l = concat2("Closes #", issues[i].as_str());
        let ghost old_l = string_views(lines@);
        lines.push(l);
        assert(string_views(lines@) =~= old_l.push(l@));
        i = i + 1;
        assert(string_views(lines@) =~= closes_lines(string_views(issues@)).subrange(0, i as int));
    }
    assert(string_views(lines@) =~= closes_lines(string_views(issues@)));
    join_strings(&lines, "\n")
}

/// `open_pull_request`, second part: the `gh` arguments for the request, with
/// `current_branch` (the output of `git rev-parse --abbrev-ref HEAD`) as
/// the source branch when the model named none. A protected branch is never
/// the source.
pub fn pr_create_args(d: &PrDraft, current_branch: &str) -> (r: Result<Vec<String>, ToolError>)
    ensures
        match pr_args_outcome(*d, pr_head(d.head, current_branch@)) {
            Ok(a) => r matches Ok(v) && string_views(v@) == a,
            Err(m) => fails_with(r, m),
        },
        r is Ok ==> !is_protected(pr_head(d.head, current_branch@)),
{
    let head = match &d.head {
        Some(h) => h.clone(),
        None => trim_str(current_branch),
    };
    let base = &d.base;
    if crate::text::chars_of(head.as_str()).len() == 0 {
        return Err(tool_error(owned("open_pull_request: head branch cannot be empty")));
    }
    if protected_branch(head.as_str()) {
        return Err(
            tool_error(
                concat3(
                    "open_pull_request: branch '",
                    head.as_str(),
                    "' cannot be used as PR source",
                ),
            ),
        );
    }
    if crate::text::chars_of(base.as_str()).len() == 0 {
        return Err(tool_error(owned("open_pull_request: base branch cannot be empty")));
    }
    let both = concat3("' or '", base.as_str(), "'");
    if contains_char(head.as_str(), '\\') || contains_char(base.as_str(), '\\') {
        let mut m = concat2("open_pull_request: invalid branch separator in '", head.as_str());
        m.append(both.as_str());
        assert(m@ =~= "open_pull_request: invalid branch separator in '"@ + head@ + "' or '"@ + base@ + "'"@);
        return Err(tool_error(m));
    }
    if contains_str(head.as_str(), "..") || contains_str(base.as_str(), "..") {
        let mut m = concat2("open_pull_request: suspicious branch reference in '", head.as_str());
        m.append(both.as_str());
        assert(m@ =~= "open_pull_request: suspicious branch reference in '"@ + head@ + "' or '"@ + base@ + "'"@);
        return Err(tool_error(m));
    }
    if contains_char(head.as_str(), '\n') || contains_char(head.as_str(), '\t') || contains_char(
        base.as_str(),
        '\n',
    ) || contains_char(base.as_str(), '\t') {
        let mut m = concat2("open_pull_request: invalid branch/newline in '", head.as_str());
        m.append(both.as_str());
        assert(m@ =~= "open_pull_request: invalid branch/newline in '"@ + head@ + "' or '"@ + base@ + "'"@);
        return Err(tool_error(m));
    }
    if contains_char(head.as_str(), ' ') || contains_char(base.as_str(), ' ') {
        let mut m = concat3(
            "open_pull_request: branch names cannot contain spaces: '",
            head.as_str(),
            "' / '",
        );
        m.append(base.as_str());
        m.append("'");
        return Err(tool_error(m));
    }
    let mut v: Vec<String> = Vec::new();
    push_owned(&mut v, "pr");
    push_owned(&mut v, "create");
    push_owned(&mut v, "--title");
    push_owned(&mut v, d.title.as_str());
    push_owned(&mut v, "--base");
    push_owned(&mut v, base.as_str());
    push_owned(&mut v, "--head");
    push_owned(&mut v, head.as_str());
    let ghost fixed = string_views(v@);
    assert(fixed =~= seq!["pr"@, "create"@, "--title"@, d.title@] + seq!["--base"@, base@] + seq![
        "--head"@,
        head@,
    ]);
    if d.draft {
        push_owned(&mut v, "--draft");
    }
    let ghost with_draft = string_views(v@);
    assert(with_draft =~= fixed + (if d.draft {
        seq!["--draft"@]
    } else {
        seq![]
    }));
    push_flag_pairs(&mut v, "--label", &d.labels);
    let ghost with_labels = string_views(v@);
    let has_body = crate::text::chars_of(d.body.as_str()).len() > 0;
    let has_issues = d.issue_numbers.len() > 0;
    if has_body {
        push_owned(&mut v, "--body");
        if has_issues {
            let closes = closes_text(&d.issue_numbers);
            let full = concat3(d.body.as_str(), "\n\n", closes.as_str());
            push_owned(&mut v, full.as_str());
        } else {
            push_owned(&mut v, d.body.as_str());
        }
    } else if has_issues {
        push_owned(&mut v, "--body");
        let closes = closes_text(&d.issue_numbers);
        push_owned(&mut v, closes.as_str());
    }
    assert(string_views(v@) =~= with_labels + pr_body_args(
        d.body@,
        string_views(d.issue_numbers@),
    ));
    Ok(v)
}

/// `list_github_issues`: the `gh issue list` arguments. The state defaults to
/// `open`, the limit to 20; an empty state or label filter is left out.
pub open spec fn list_issues_outcome(args: ToolArgs) -> Seq<Seq<char>> {
    let state = trim(or_default(str_arg(args, "state"@), "open"@));
    let labels = trim(or_default(str_arg(args, "labels"@), ""@));
    let limit: nat = match u64_arg(args, "limit"@) {
        Some(n) => n as nat,
        None => 20,
    };
    seq!["issue"@, "list"@, "--json"@, "number,title,url,state,labels,assignees"@] + (if state.len()
        > 0 {
        seq!["--state"@, state]
    } else {
        seq![]
    }) + (if labels.len() > 0 {
        seq!["--label"@, labels]
    } else {
        seq![]
    }) + seq!["--limit"@, decimal(limit)]
}

pub fn list_issues_args(args: &ToolArgs) -> (r: Vec<String>)
    ensures
        string_views(r@) == list_issues_outcome(*args),
{
    let state = trimmed_or(args, "state", "open");
    let limit: u64 = match args.get_u64("limit") {
        Some(n) => n,
        None => 20,
    };
    let labels = trimmed_or(args, "labels", "");
    let mut v: Vec<String> = Vec::new();
    push_owned(&mut v, "issue");
    push_owned(&mut v, "list");
    push_owned(&mut v, "--json");
    push_owned(&mut v, "number,title,url,state,labels,assignees");
    if crate::text::chars_of(state.as_str()).len() > 0 {
        push_owned(&mut v, "--state");
        push_owned(&mut v, state.as_str());
    }
    if crate::text::chars_of(labels.as_str()).len() > 0 {
        push_owned(&mut v, "--label");
        push_owned(&mut v, labels.as_str());
    }
    push_owned(&mut v, "--limit");
    let l = decimal_string(limit as u128);
    push_owned(&mut v, l.as_str());
    assert(string_views(v@) =~= list_issues_outcome(*args));
    v
}

/// `read_github_issue`: the `gh issue view` arguments for a positive issue number.
pub fn read_issue_args(args: &ToolArgs) -> (r: Result<Vec<String>, ToolError>)
    ensures
        match u64_arg(*args, "number"@) {
            None => fails_with(r, "read_github_issue: number required"@),
            Some(n) => if n == 0 {
                fails_with(r, "read_github_issue: number must be positive"@)
            } else {
                r matches Ok(v) && string_views(v@) == seq![
                    "issue"@,
                    "view"@,
                    decimal(n as nat),
                    "--json"@,
                    "number,title,body,state,labels,assignees,url"@,
                ]
            },
        },
{
    let n = match args.get_u64("number") {
        Some(n) => n,
        None => {
            return Err(tool_error(owned("read_github_issue: number required")));
        },
    };
    if n == 0 {
        return Err(tool_error(owned("read_github_issue: number must be positive")));
    }
    let d = decimal_string(n as u128);
    let mut v: Vec<String> = Vec::new();
    push_owned(&mut v, "issue");
    push_owned(&mut v, "view");
    push_owned(&mut v, d.as_str());
    push_owned(&mut v, "--json");
    push_owned(&mut v, "number,title,body,state,labels,assignees,url");
    assert(string_views(v@) =~= seq![
        "issue"@,
        "view"@,
        decimal(n as nat),
        "--json"@,
        "number,title,body,state,labels,assignees,url"@,
    ]);
    Ok(v)
}

/// The `gh issue create` arguments for an approved request with a title.
pub open spec fn create_issue_outcome(args: ToolArgs, title: Seq<char>) -> Seq<Seq<char>> {
    let body = trim(or_default(str_arg(args, "body"@), ""@));
    seq!["issue"@, "create"@, "--title"@, title] + (if body.len() > 0 {
        seq!["--body"@, body]
    } else {
        seq![]
    }) + flag_pairs("--label"@, trimmed_strs(items_or_empty(array_arg(args, "labels"@))))
        + flag_pairs("--assignee"@, trimmed_strs(items_or_empty(array_arg(args, "assignees"@))))
}

impl ToolSet {
    /// `create_issue`: the `gh` arguments, if pushes are approved and the
    /// title is there and not blank.
    pub fn create_issue_args(&self, args: &ToolArgs) -> (r: Result<Vec<String>, ToolError>)
        ensures
            !self.push_self_approved ==> fails_with(
                r,
                "create_issue blocked: PUSH_APPROVED=YES required"@,
            ),
            self.push_self_approved ==> match str_arg(*args, "title"@) {
                None => fails_with(r, "create_issue: title required"@),
                Some(t) => if trim(t).len() == 0 {
                    fails_with(r, "create_issue: title cannot be empty"@)
                } else {
                    r matches Ok(v) && string_views(v@) == create_issue_outcome(*args, trim(t))
                },
            },
    {
        if !self.push_self_approved {
            return Err(tool_error(owned("create_issue blocked: PUSH_APPROVED=YES required")));
        }
        let title = match args.get_str("title") {
            Some(t) => trim_str(t.as_str()),
            None => {
                return Err(tool_error(owned("create_issue: title required")));
            },
        };
        proof {
            crate::text::lemma_trim_idempotent(str_arg(*args, "title"@)->Some_0);
        }
        if crate::text::is_blank(title.as_str()) {
            return Err(tool_error(owned("create_issue: title cannot be empty")));
        }
        let body = trimmed_or(args, "body", "");
        let labels = str_list_arg(args, "labels");
        let assignees = str_list_arg(args, "assignees");
        let mut v: Vec<String> = Vec::new();
        push_owned(&mut v, "issue");
        push_owned(&mut v, "create");
        push_owned(&mut v, "--title");
        push_owned(&mut v, title.as_str());
        if crate::text::chars_of(body.as_str()).len() > 0 {
            push_owned(&mut v, "--body");
            push_owned(&mut v, body.as_str());
        }
        let ghost head_part = string_views(v@);
        push_flag_pairs(&mut v, "--label", &labels);
        push_flag_pairs(&mut v, "--assignee", &assignees);
        assert(string_views(v@) =~= create_issue_outcome(*args, title@));
        Ok(v)
    }

    /// `git_push`, first check: pushes must be approved.
    pub fn check_push_approved(&self) -> (r: Result<(), ToolError>)
        ensures
            self.push_self_approved ==> r is Ok,
            !self.push_self_approved ==> fails_with(
                r,
                "push blocked: PUSH_APPROVED=YES required"@,
            ),
    {
        if !self.push_self_approved {
            return Err(tool_error(owned("push blocked: PUSH_APPROVED=YES required")));
        }
        Ok(())
    }
}

/// The `git` arguments that print the current branch.
pub fn current_branch_args() -> (r: Vec<String>)
    ensures
        string_views(r@) == seq!["rev-parse"@, "--abbrev-ref"@, "HEAD"@],
{
    let mut v: Vec<String> = Vec::new();
    push_owned(&mut v, "rev-parse");
    push_owned(&mut v, "--abbrev-ref");
    push_owned(&mut v, "HEAD");
    assert(string_views(v@) =~= seq!["rev-parse"@, "--abbrev-ref"@, "HEAD"@]);
    v
}

/// The branch `git_push` may push, given the current-branch output: never a
/// protected branch unless `allow_protected`, never an empty, detached
/// (`HEAD`) or `..` name.
pub fn check_push_branch(current_branch: &str, allow_protected: bool) -> (r: Result<String, ToolError>)
    ensures
        ({
            let b = trim(current_branch@);
            if is_protected(b) && !allow_protected {
                fails_with(r, "push blocked: branch '"@ + b + "' is protected"@)
            } else if b.len() == 0 || b == "HEAD"@ || has_substr(b, ".."@) {
                fails_with(r, "push blocked: invalid branch '"@ + b + "'"@)
            } else {
                r matches Ok(x) && x@ == b
            }
        }),
        r is Ok ==> allow_protected || !is_protected(trim(current_branch@)),
{
    let b = trim_str(current_branch);
    if protected_branch(b.as_str()) && !allow_protected {
        return Err(tool_error(concat3("push blocked: branch '", b.as_str(), "' is protected")));
    }
    if crate::text::chars_of(b.as_str()).len() == 0 || str_eq(b.as_str(), "HEAD") || contains_str(
        b.as_str(),
        "..",
    ) {
        return Err(tool_error(concat3("push blocked: invalid branch '", b.as_str(), "'")));
    }
    Ok(b)
}

} // verus!
