use gorkforge::args::{ArgItem, ArgValue, ToolArgs};
use gorkforge::gh::{
    check_push_branch, current_branch_args, list_issues_args, plan_feature_branch, pr_create_args,
    protected_branch, read_issue_args,
};
use gorkforge::policy::PolicyConfig;
use gorkforge::sandbox::Sandbox;
use gorkforge::tools::ToolSet;

fn args(pairs: Vec<(&str, ArgValue)>) -> ToolArgs {
    ToolArgs { entries: pairs.into_iter().map(|(k, v)| (k.to_string(), v)).collect() }
}

fn st(s: &str) -> ArgValue {
    ArgValue::Str(s.to_string())
}

fn toolset(push: bool) -> ToolSet {
    let sb = Sandbox::layout("/ws".to_string(), "run_1".to_string());
    ToolSet::new(sb, PolicyConfig::default_config(), None, if push { Some("YES".to_string()) } else { None })
}

fn strs(v: &[&str]) -> Vec<String> {
    v.iter().map(|s| s.to_string()).collect()
}

#[test]
fn feature_branches() {
    let c = plan_feature_branch(&args(vec![("name", st("  login-page "))])).unwrap();
    assert_eq!(c.branch, "feature/login-page");
    assert_eq!(c.git_args, strs(&["checkout", "-b", "feature/login-page"]));
    assert_eq!(c.log_line, "git_create_feature_branch: feature/login-page");
    assert_eq!(c.answer, "created feature branch 'feature/login-page'");
    assert_eq!(plan_feature_branch(&args(vec![("name", st("feature/x"))])).unwrap().branch, "feature/x");
    assert_eq!(plan_feature_branch(&args(vec![("name", st("main"))])).unwrap().branch, "feature/main");
    assert_eq!(plan_feature_branch(&args(vec![])).err().unwrap().message, "git_create_feature_branch: name required");
    assert_eq!(plan_feature_branch(&args(vec![("name", st("   "))])).err().unwrap().message, "git_create_feature_branch: branch name cannot be empty");
    assert_eq!(plan_feature_branch(&args(vec![("name", st("a b"))])).err().unwrap().message, "git_create_feature_branch: invalid branch name 'a b'");
    assert_eq!(plan_feature_branch(&args(vec![("name", st("a..b"))])).err().unwrap().message, "git_create_feature_branch: suspicious branch path 'a..b'");
}

#[test]
fn pull_requests() {
    assert_eq!(toolset(false).plan_pull_request(&args(vec![("title", st("T"))])).err().unwrap().message, "open_pull_request blocked: PUSH_APPROVED=YES required");
    let t = toolset(true);
    assert_eq!(t.plan_pull_request(&args(vec![])).err().unwrap().message, "open_pull_request: title required");
    assert_eq!(t.plan_pull_request(&args(vec![("title", st("  "))])).err().unwrap().message, "open_pull_request: title cannot be empty");
    let a = args(vec![
        ("title", st(" Add X ")),
        ("body", st("Details")),
        ("draft", ArgValue::Bool(true)),
        ("labels", ArgValue::Array(vec![ArgItem::Str(" bug ".into()), ArgItem::Str(" ".into()), ArgItem::UInt(3)])),
        ("issue_numbers", ArgValue::Array(vec![ArgItem::UInt(12), ArgItem::Str("x".into()), ArgItem::UInt(7)])),
    ]);
    let d = t.plan_pull_request(&a).unwrap();
    assert_eq!(d.title, "Add X");
    assert_eq!(d.base, "main");
    assert!(d.head.is_none());
    assert_eq!(d.labels, strs(&["bug"]));
    assert_eq!(d.issue_numbers, strs(&["12", "7"]));
    let cli = pr_create_args(&d, "feature/x\n").unwrap();
    assert_eq!(cli, strs(&["pr", "create", "--title", "Add X", "--base", "main", "--head", "feature/x", "--draft", "--label", "bug", "--body", "Details\n\nCloses #12\nCloses #7"]));
    assert_eq!(pr_create_args(&d, "main").err().unwrap().message, "open_pull_request: branch 'main' cannot be used as PR source");
    assert_eq!(pr_create_args(&d, "  ").err().unwrap().message, "open_pull_request: head branch cannot be empty");
    assert_eq!(pr_create_args(&d, "a..b").err().unwrap().message, "open_pull_request: suspicious branch reference in 'a..b' or 'main'");
    assert_eq!(pr_create_args(&d, "a\\b").err().unwrap().message, "open_pull_request: invalid branch separator in 'a\\b' or 'main'");
    let only_issues = t.plan_pull_request(&args(vec![("title", st("T")), ("head", st(" dev-x ")), ("base", st("")), ("issue_numbers", ArgValue::Array(vec![ArgItem::UInt(1)]))])).unwrap();
    assert_eq!(pr_create_args(&only_issues, "").err().unwrap().message, "open_pull_request: base branch cannot be empty");
    let spaced = t.plan_pull_request(&args(vec![("title", st("T")), ("head", st("a")), ("base", st("b c"))])).unwrap();
    assert_eq!(pr_create_args(&spaced, "").err().unwrap().message, "open_pull_request: branch names cannot contain spaces: 'a' / 'b c'");
    let plain = t.plan_pull_request(&args(vec![("title", st("T")), ("head", st("h")), ("issue_numbers", ArgValue::Array(vec![ArgItem::UInt(1)]))])).unwrap();
    assert_eq!(pr_create_args(&plain, "").unwrap(), strs(&["pr", "create", "--title", "T", "--base", "main", "--head", "h", "--body", "Closes #1"]));
}

#[test]
fn issue_commands() {
    assert_eq!(list_issues_args(&args(vec![])), strs(&["issue", "list", "--json", "number,title,url,state,labels,assignees", "--state", "open", "--limit", "20"]));
    assert_eq!(list_issues_args(&args(vec![("state", st(" ")), ("labels", st("bug")), ("limit", ArgValue::UInt(5))])), strs(&["issue", "list", "--json", "number,title,url,state,labels,assignees", "--label", "bug", "--limit", "5"]));
    assert_eq!(read_issue_args(&args(vec![("number", ArgValue::UInt(42))])).unwrap(), strs(&["issue", "view", "42", "--json", "number,title,body,state,labels,assignees,url"]));
    assert_eq!(read_issue_args(&args(vec![("number", ArgValue::UInt(0))])).err().unwrap().message, "read_github_issue: number must be positive");
    assert_eq!(read_issue_args(&args(vec![("number", ArgValue::OtherNumber)])).err().unwrap().message, "read_github_issue: number required");
    assert_eq!(toolset(false).create_issue_args(&args(vec![("title", st("T"))])).err().unwrap().message, "create_issue blocked: PUSH_APPROVED=YES required");
    let t = toolset(true);
    assert_eq!(t.create_issue_args(&args(vec![])).err().unwrap().message, "create_issue: title required");
    assert_eq!(t.create_issue_args(&args(vec![("title", st(""))])).err().unwrap().message, "create_issue: title cannot be empty");
    let a = args(vec![("title", st("T")), ("body", st(" b ")), ("assignees", ArgValue::Array(vec![ArgItem::Str("me".into())]))]);
    assert_eq!(t.create_issue_args(&a).unwrap(), strs(&["issue", "create", "--title", "T", "--body", "b", "--assignee", "me"]));
}

#[test]
fn pushes() {
    assert_eq!(toolset(false).check_push_approved().err().unwrap().message, "push blocked: PUSH_APPROVED=YES required");
    assert!(toolset(true).check_push_approved().is_ok());
    assert_eq!(current_branch_args(), strs(&["rev-parse", "--abbrev-ref", "HEAD"]));
    assert_eq!(check_push_branch("feature/x\n", false).unwrap(), "feature/x");
    assert_eq!(check_push_branch("main\n", false).err().unwrap().message, "push blocked: branch 'main' is protected");
    assert_eq!(check_push_branch("main\n", true).unwrap(), "main");
    assert_eq!(check_push_branch("HEAD", false).err().unwrap().message, "push blocked: invalid branch 'HEAD'");
    assert_eq!(check_push_branch("", false).err().unwrap().message, "push blocked: invalid branch ''");
    assert!(protected_branch("trunk") && !protected_branch("feature/trunk"));
}
