use gorkforge::args::{ArgItem, ArgValue, ToolArgs};
use gorkforge::catalog::{tool_specs, ToolKind};
use gorkforge::policy::{
    default_agent_policy, default_max_iterations, default_max_tokens_per_run, default_permission_state,
    default_permissions, AgentPolicy, PermissionBlock, PolicyConfig,
};
use gorkforge::sandbox::Sandbox;
use gorkforge::tools::{
    after_write_steps, AfterWrite,
    scan_skipped_dirs, scan_skips_entry,
    allowlist_command, apply_edit, approval_flag, commit_message_arg, core_path, decl_summary,
    ensure_no_path_traversal, grep_matches, normalize_commit_message, overlay_or_workspace_path,
    status_has_changes, AutoCommitPlan, ToolSet,
};

fn args(pairs: Vec<(&str, ArgValue)>) -> ToolArgs {
    ToolArgs { entries: pairs.into_iter().map(|(k, v)| (k.to_string(), v)).collect() }
}

fn st(s: &str) -> ArgValue {
    ArgValue::Str(s.to_string())
}

fn policy(read: &str, write: &str, shell: &str) -> PolicyConfig {
    PolicyConfig {
        agent: AgentPolicy { max_iterations: None, max_tokens_per_run: None },
        permissions: PermissionBlock {
            file_read: read.to_string(),
            file_write: write.to_string(),
            shell_safe: shell.to_string(),
        },
    }
}

fn toolset(p: PolicyConfig, core: bool, push: bool) -> ToolSet {
    let sb = Sandbox::layout("/ws".to_string(), "run_1".to_string());
    let yes = |b: bool| if b { Some("YES".to_string()) } else { None };
    ToolSet::new(sb, p, yes(core), yes(push))
}

#[test]
fn defaults_allow_everything() {
    assert_eq!(default_permission_state(), "allow");
    assert_eq!(default_max_iterations(), Some(20));
    assert_eq!(default_max_tokens_per_run(), Some(500_000));
    let perms = default_permissions();
    assert_eq!(perms.file_write, "allow");
    assert_eq!(default_agent_policy().max_iterations, Some(20));
    let p = PolicyConfig::default_config();
    assert!(p.read_allowed() && p.write_allowed() && p.shell_allowed());
    assert_eq!(p.max_iterations(7), 20);
}

#[test]
fn permission_states() {
    let p = policy("learn_once", "deny", "ask");
    assert!(p.read_allowed());
    assert!(!p.write_allowed());
    assert!(p.shell_allowed());
    assert!(!policy("allow", "allow", "deny").shell_allowed());
    assert_eq!(p.max_iterations(7), 7);
}

#[test]
fn approvals_need_exact_yes() {
    assert!(approval_flag(&Some("YES".to_string())));
    assert!(!approval_flag(&Some("yes".to_string())));
    assert!(!approval_flag(&None));
}

#[test]
fn path_traversal_refused() {
    assert!(ensure_no_path_traversal("a/b/c.rs").is_ok());
    assert!(ensure_no_path_traversal("a/..b/c").is_ok());
    assert!(ensure_no_path_traversal("...").is_ok());
    assert_eq!(ensure_no_path_traversal("a/../b").unwrap_err().message, "path traversal is not allowed: a/../b");
    assert!(ensure_no_path_traversal("..").is_err());
    assert!(ensure_no_path_traversal("x/..").is_err());
    assert_eq!(overlay_or_workspace_path("/ws", "src/lib.rs").unwrap(), "/ws/src/lib.rs");
    assert_eq!(overlay_or_workspace_path("/ws/", "a").unwrap(), "/ws/a");
}

#[test]
fn core_paths() {
    assert!(core_path("crates/gorkforge-core/src/lib.rs"));
    assert!(core_path("crates\\gorkforge-core\\x"));
    assert!(!core_path("crates/gorkforge-cli/src/main.rs"));
}

#[test]
fn read_file_plans() {
    let t = toolset(policy("deny", "allow", "allow"), false, false);
    assert_eq!(t.plan_read_file(&args(vec![("path", st("a"))])).unwrap_err().message, "policy denies file_read");
    let t = toolset(PolicyConfig::default_config(), false, false);
    assert_eq!(t.plan_read_file(&args(vec![])).unwrap_err().message, "read_file: path required");
    assert_eq!(t.plan_read_file(&args(vec![("path", ArgValue::UInt(3))])).unwrap_err().message, "read_file: path required");
    assert_eq!(t.plan_read_file(&args(vec![("path", st("src/a.rs"))])).unwrap(), "src/a.rs");
    let p = t.overlay_copy_paths("src/a.rs").unwrap();
    assert_eq!(p.overlay, "/ws/.gorkforge/runs/run_1/overlay/src/a.rs");
    assert_eq!(p.workspace, "/ws/src/a.rs");
    assert_eq!(t.plan_parse_rust_file(&args(vec![])).unwrap_err().message, "parse_rust_file: path required");
}

#[test]
fn edit_file_plans() {
    let t = toolset(PolicyConfig::default_config(), false, false);
    let full = args(vec![("path", st("crates/gorkforge-core/src/lib.rs")), ("find", st("a")), ("replace", st("b"))]);
    assert_eq!(t.plan_edit_file(&full).unwrap_err().message, "core edits require SELF_APPROVED=YES");
    let t2 = toolset(PolicyConfig::default_config(), true, false);
    let e = t2.plan_edit_file(&full).unwrap();
    assert_eq!((e.path.as_str(), e.find.as_str(), e.replace.as_str(), e.all), ("crates/gorkforge-core/src/lib.rs", "a", "b", false));
    assert_eq!(t.plan_edit_file(&args(vec![("path", st("x"))])).unwrap_err().message, "edit_file: find required");
    assert_eq!(t.plan_edit_file(&args(vec![("path", st("x")), ("find", st("y"))])).unwrap_err().message, "edit_file: replace required");
    assert_eq!(t.plan_edit_file(&args(vec![])).unwrap_err().message, "edit_file: path required");
    let all = args(vec![("path", st("x")), ("find", st("y")), ("replace", st("z")), ("all", ArgValue::Bool(true))]);
    assert!(t.plan_edit_file(&all).unwrap().all);
    let ro = toolset(policy("allow", "deny", "allow"), true, true);
    assert_eq!(ro.plan_edit_file(&all).unwrap_err().message, "policy denies file_write");
}

#[test]
fn applying_edits() {
    assert_eq!(apply_edit("a b a", "a", "c", false), Some("c b a".to_string()));
    assert_eq!(apply_edit("a b a", "a", "c", true), Some("c b c".to_string()));
    assert_eq!(apply_edit("abc", "z", "y", true), None);
    assert_eq!(apply_edit("abc", "b", "b", false), None);
}

#[test]
fn write_file_plans() {
    let t = toolset(PolicyConfig::default_config(), false, false);
    let w = t.plan_write_file(&args(vec![("path", st("docs/x.md")), ("content", st("hi"))])).unwrap();
    assert_eq!(w.target, "/ws/.gorkforge/runs/run_1/overlay/docs/x.md");
    assert_eq!(w.content, "hi");
    assert_eq!(t.plan_write_file(&args(vec![("path", st("../x")), ("content", st("hi"))])).unwrap_err().message, "path traversal is not allowed: ../x");
    assert_eq!(t.plan_write_file(&args(vec![("path", st("x"))])).unwrap_err().message, "write_file: content required");
    assert_eq!(t.plan_write_file(&args(vec![])).unwrap_err().message, "write_file: path required");
    assert_eq!(t.plan_write_file(&args(vec![("path", st("crates/gorkforge-core/a")), ("content", st("c"))])).unwrap_err().message, "core edits require SELF_APPROVED=YES");
}

#[test]
fn list_and_grep_plans() {
    let t = toolset(PolicyConfig::default_config(), false, false);
    assert_eq!(t.plan_list_dir(&args(vec![])).unwrap(), "/ws/.");
    assert_eq!(t.plan_list_dir(&args(vec![("path", st("src"))])).unwrap(), "/ws/src");
    assert!(t.plan_list_dir(&args(vec![("path", st(".."))])).is_err());
    assert_eq!(t.plan_grep(&args(vec![])).unwrap_err().message, "grep: pattern required");
    let g = t.plan_grep(&args(vec![("pattern", st("fn"))])).unwrap();
    assert_eq!((g.pattern.as_str(), g.target.as_str()), ("fn", "/ws/."));
    let ro = toolset(policy("deny", "allow", "allow"), false, false);
    assert_eq!(ro.plan_grep(&args(vec![("pattern", st("fn"))])).unwrap_err().message, "policy denies read for grep");
    assert_eq!(t.grep_overlay_source("/ws/src/a.rs").unwrap(), "/ws/.gorkforge/runs/run_1/overlay/src/a.rs");
    assert_eq!(t.grep_overlay_source("/ws//src/a.rs").unwrap(), "/ws/.gorkforge/runs/run_1/overlay/src/a.rs");
    assert_eq!(t.grep_overlay_source("/ws/./src//a.rs").unwrap(), "/ws/.gorkforge/runs/run_1/overlay/src//a.rs");
}

#[test]
fn grep_reports_lines() {
    let m = grep_matches("f.rs", "fn a() {}\nlet x = 1;\n  fn b()  \n", "fn");
    assert_eq!(m, vec!["f.rs:1:fn a() {}".to_string(), "f.rs:3:fn b()".to_string()]);
    assert!(grep_matches("f.rs", "", "x").is_empty());
}

#[test]
fn shell_plans() {
    let t = toolset(PolicyConfig::default_config(), false, false);
    assert_eq!(t.plan_shell_safe(&args(vec![("command", st("ls | wc"))])).unwrap_err().message, "unsafe shell syntax blocked");
    assert_eq!(t.plan_shell_safe(&args(vec![("command", st("echo $HOME"))])).unwrap_err().message, "unsafe shell syntax blocked");
    assert_eq!(t.plan_shell_safe(&args(vec![])).unwrap_err().message, "shell_safe: command required");
    assert_eq!(t.plan_shell_safe(&args(vec![("command", st("git status"))])).unwrap(), "git status");
    let d = toolset(policy("allow", "allow", "deny"), false, false);
    assert_eq!(d.plan_shell_safe(&args(vec![("command", st("ls"))])).unwrap_err().message, "policy denies shell_safe");
    let c = allowlist_command("  git   status --short ").unwrap();
    assert_eq!(c.program, "git");
    assert_eq!(c.args, vec!["status".to_string(), "--short".to_string()]);
    assert_eq!(allowlist_command("   ").err().unwrap().message, "shell_safe: empty command");
    assert_eq!(allowlist_command("rm -rf /").err().unwrap().message, "shell_safe disallows program rm");
    assert_eq!(allowlist_command("git merge main").err().unwrap().message, "shell_safe: blocked for branch merge safety");
    assert!(allowlist_command("git status merge").is_ok());
}

#[test]
fn commit_messages() {
    assert_eq!(normalize_commit_message("fix"), "gorkforge: fix");
    assert_eq!(normalize_commit_message("gorkforge: fix"), "gorkforge: fix");
    assert_eq!(normalize_commit_message(&normalize_commit_message("x")), "gorkforge: x");
    assert_eq!(commit_message_arg(&args(vec![])), "gorkforge overlay commit");
    assert_eq!(commit_message_arg(&args(vec![("message", st("m"))])), "m");
    assert!(status_has_changes(" M src/lib.rs\n"));
    assert!(!status_has_changes("  \n"));
    let t = toolset(PolicyConfig::default_config(), false, true);
    match t.auto_commit_plan(true, "edit_file") {
        AutoCommitPlan::Commit { message, push } => {
            assert_eq!(message, "gorkforge: edit_file");
            assert!(push);
        }
        _ => panic!("expected a commit"),
    }
    match t.auto_commit_plan(false, "edit_file") {
        AutoCommitPlan::NothingToCommit(m) => assert_eq!(m, "no workspace changes to commit"),
        _ => panic!("expected nothing to commit"),
    }
}

#[test]
fn decl_summaries() {
    let f = vec!["main".to_string(), "run".to_string()];
    assert_eq!(decl_summary(&f, &vec![]), "Functions: [\"main\", \"run\"]\nStructs: []");
}

#[test]
fn catalog_dispatch() {
    let specs = tool_specs();
    assert_eq!(specs.len(), 16);
    for s in &specs {
        let k = ToolKind::from_name(&s.name).expect("every catalog tool dispatches");
        assert_eq!(k.name(), s.name);
        let _: serde_json::Value = serde_json::from_str(&s.parameters).expect("schema is JSON");
    }
    assert_eq!(specs[0].name, "parse_rust_file");
    assert_eq!(specs[15].name, "shell_safe");
    assert_eq!(ToolKind::from_name("rm"), None);
    assert_eq!(ToolKind::from_name("grep"), Some(ToolKind::Grep));
}

#[test]
fn arg_lookup_takes_first_field() {
    let a = args(vec![("k", st("one")), ("k", st("two")), ("n", ArgValue::UInt(5)), ("l", ArgValue::Array(vec![ArgItem::Str("x".into())]))]);
    assert_eq!(a.get_str("k").unwrap(), "one");
    assert_eq!(a.get_u64("n"), Some(5));
    assert_eq!(a.get_bool("n"), None);
    assert_eq!(a.get_array("l").unwrap().len(), 1);
}

#[test]
fn toolset_dispatch() {
    let t = toolset(PolicyConfig::default_config(), false, false);
    assert_eq!(t.tool_specs().len(), 16);
    assert_eq!(t.dispatch("write_file").unwrap(), ToolKind::WriteFile);
    assert_eq!(t.dispatch("format_disk").unwrap_err().message, "unknown tool: format_disk");
}

#[test]
fn scan_skips() {
    assert_eq!(scan_skipped_dirs("/ws"), vec!["/ws/.git", "/ws/target", "/ws/.gorkforge"]);
    assert!(scan_skips_entry("runs") && scan_skips_entry(".git") && !scan_skips_entry("src"));
}

#[test]
fn writes_are_gated_then_committed() {
    let steps = after_write_steps("write_file", "/o/a.rs");
    assert_eq!(steps.len(), 3);
    assert!(matches!(&steps[0], AfterWrite::Log(l) if l == "write_file /o/a.rs"));
    assert!(matches!(&steps[1], AfterWrite::RunGates { reason, auto_fix: true, default_fast: true } if reason == "write_file"));
    assert!(matches!(&steps[2], AfterWrite::AutoCommit(r) if r == "write_file"));
}

#[test]
fn special_md_needs_approval() {
    let t = toolset(PolicyConfig::default_config(), false, false);
    let edit = args(vec![("path", st("special.md")), ("find", st("a")), ("replace", st("b"))]);
    assert_eq!(t.plan_edit_file(&edit).unwrap_err().message, "core edits require SELF_APPROVED=YES");
    let write = args(vec![("path", st("special.md")), ("content", st("c"))]);
    assert_eq!(t.plan_write_file(&write).unwrap_err().message, "core edits require SELF_APPROVED=YES");
    let approved = toolset(PolicyConfig::default_config(), true, false);
    assert_eq!(approved.plan_edit_file(&edit).unwrap().path, "special.md");
}

#[test]
fn writes_stay_in_the_overlay() {
    let t = toolset(PolicyConfig::default_config(), true, false);
    let write = args(vec![("path", st("/tmp/x")), ("content", st("c"))]);
    assert_eq!(t.plan_write_file(&write).unwrap_err().message, "write_file: absolute paths are not allowed: /tmp/x");
    let edit = args(vec![("path", st("/etc/x")), ("find", st("a")), ("replace", st("b"))]);
    assert_eq!(t.plan_edit_file(&edit).unwrap().path, "/etc/x");
}
