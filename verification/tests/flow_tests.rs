use gorkforge::agent::{TaskContext, TaskResult, TaskStatus};
use gorkforge::args::ToolArgs;
use gorkforge::catalog::tool_specs;
use gorkforge::gates::{cargo_args, run_cargo_default_fast, step_failure_message, CargoGates, CargoStep, GateAction, GatesMode};
use gorkforge::llm::{
    after_send_error, after_status, build_request, max_retries, timeout_seconds, tool_definitions,
    AttemptOutcome, GrokTool, LlmMessage, LlmTurn, RequestMessage,
};
use gorkforge::reasoner::{
    code_context_text, self_improve_context, self_improve_format_ok, self_improve_task, snapshot_paths,
    system_prompt, task_flags, ContextFile, ImproveStep, ReActSession, SelfImprove, TurnOutcome,
};
use gorkforge::sandbox::{matches_skip, overlay_skip_entries, run_id_for, strip_prefix_path, Sandbox, SandboxStep};

fn turn(content: Option<&str>, calls: usize) -> LlmTurn {
    LlmTurn {
        content: content.map(|s| s.to_string()),
        tool_calls: (0..calls)
            .map(|i| GrokTool { id: format!("c{}", i), name: "read_file".to_string(), arguments: ToolArgs { entries: vec![] } })
            .collect(),
    }
}

fn msg(role: &str, content: &str) -> LlmMessage {
    LlmMessage { role: role.to_string(), content: content.to_string(), tool_call_id: None }
}

#[test]
fn gates_modes() {
    assert_eq!(GatesMode::from_setting(&Some("STRICT".to_string()), true), GatesMode::Full);
    assert_eq!(GatesMode::from_setting(&Some("fast".to_string()), false), GatesMode::Fast);
    assert_eq!(GatesMode::from_setting(&Some("other".to_string()), true), GatesMode::Fast);
    assert_eq!(GatesMode::from_setting(&None, false), GatesMode::Full);
    assert!(GatesMode::Full.is_full() && !GatesMode::Fast.is_full());
    assert!(run_cargo_default_fast("Run a Self-Improve cycle"));
    assert!(!run_cargo_default_fast("fix the bug"));
    assert_eq!(cargo_args(CargoStep::Clippy), vec!["clippy", "--", "-D", "warnings"]);
    assert_eq!(step_failure_message(CargoStep::FmtCheck, "diff"), "cargo fmt --check failed\ndiff");
}

#[test]
fn fast_gates_with_format_fix() {
    let mut g = CargoGates::start("edit_file".to_string(), true, GatesMode::Fast);
    assert_eq!(g.current, CargoStep::FmtCheck);
    match g.on_result(Err("bad fmt".to_string())) {
        GateAction::LogThenRun(line, CargoStep::Fmt) => assert_eq!(line, "cargo fmt check failed during edit_file: bad fmt"),
        _ => panic!("expected a format fix"),
    }
    assert!(matches!(g.on_result(Ok(())), GateAction::Run(CargoStep::Check)));
    match g.on_result(Ok(())) {
        GateAction::Finish(Ok(t)) => assert_eq!(t, "run_cargo ok: edit_file"),
        _ => panic!("expected success"),
    }
}

#[test]
fn full_gates_fail_fast() {
    let mut g = CargoGates::start("run_cargo".to_string(), false, GatesMode::Full);
    assert!(matches!(g.on_result(Ok(())), GateAction::Run(CargoStep::Clippy)));
    assert!(matches!(g.on_result(Ok(())), GateAction::Run(CargoStep::Test)));
    match g.on_result(Err("test failed".to_string())) {
        GateAction::Finish(Err(e)) => assert_eq!(e.message, "test failed"),
        _ => panic!("expected failure"),
    }
    let mut h = CargoGates::start("r".to_string(), false, GatesMode::Fast);
    assert!(matches!(h.on_result(Err("x".to_string())), GateAction::Finish(Err(_))));
}

#[test]
fn request_shape() {
    let msgs = vec![msg("user", "u"), msg("tool", "t"), msg("system", "s")];
    let defs = tool_definitions(&tool_specs());
    let r = build_request("grok-4", "sys", &msgs, &defs);
    assert_eq!(r.model, "grok-4");
    assert_eq!(r.tool_choice, "auto");
    assert_eq!(r.messages.len(), 4);
    assert!(matches!(&r.messages[0], RequestMessage::System { content } if content == "sys"));
    assert!(matches!(&r.messages[1], RequestMessage::User { content } if content == "u"));
    assert!(matches!(&r.messages[2], RequestMessage::Tool { content, tool_call_id } if content == "t" && tool_call_id.is_empty()));
    assert!(matches!(&r.messages[3], RequestMessage::Assistant { content: Some(c) } if c == "s"));
    assert_eq!(r.tools.len(), 16);
    assert_eq!(r.tools[3].type_, "function");
}

#[test]
fn client_settings() {
    assert_eq!(timeout_seconds(&None), 60);
    assert_eq!(timeout_seconds(&Some("0".to_string())), 60);
    assert_eq!(timeout_seconds(&Some("15".to_string())), 15);
    assert_eq!(timeout_seconds(&Some("x".to_string())), 60);
    assert_eq!(max_retries(&Some("5".to_string())), 5);
    assert_eq!(max_retries(&Some("300".to_string())), 3);
    assert_eq!(max_retries(&None), 3);
}

#[test]
fn retry_decisions() {
    assert_eq!(after_status(1, 3, 503), AttemptOutcome::Retry { backoff_ms: 200 });
    assert_eq!(after_status(2, 3, 429), AttemptOutcome::Retry { backoff_ms: 400 });
    assert_eq!(after_status(3, 3, 503), AttemptOutcome::GiveUp);
    assert_eq!(after_status(1, 3, 404), AttemptOutcome::GiveUp);
    assert_eq!(after_status(1, 3, 408), AttemptOutcome::Retry { backoff_ms: 200 });
    assert_eq!(after_send_error(1, 3, true, false, false), AttemptOutcome::Retry { backoff_ms: 200 });
    assert_eq!(after_send_error(1, 3, false, false, false), AttemptOutcome::GiveUp);
    assert_eq!(after_send_error(3, 3, true, true, true), AttemptOutcome::GiveUp);
}

#[test]
fn task_flag_detection() {
    let f = task_flags("Please EDIT foo. SELF_APPROVED: yes");
    assert!(f.self_approved && !f.push_approved && f.requires_tooling);
    let g = task_flags("explain the design");
    assert!(!g.self_approved && !g.requires_tooling);
}

#[test]
fn react_completes_on_answer() {
    let mut s = ReActSession::start("explain", false, 3);
    assert!(s.out_of_iterations().is_none());
    match s.on_turn(&turn(Some("done"), 0)) {
        TurnOutcome::Finished(r) => {
            assert_eq!(r.status, TaskStatus::Completed);
            assert_eq!(r.output, "done");
        }
        _ => panic!("expected completion"),
    }
}

#[test]
fn react_requires_tools_for_changes() {
    let mut s = ReActSession::start("add a test", true, 3);
    match s.on_turn(&turn(Some("I added it"), 0)) {
        TurnOutcome::Finished(r) => {
            assert_eq!(r.status, TaskStatus::Failed);
            assert_eq!(r.output, "completion blocked: task requires tool usage");
        }
        _ => panic!("expected a block"),
    }
    assert!(matches!(ReActSession::start("x", false, 1).on_turn(&turn(Some("  "), 0)), TurnOutcome::NoTerminalContent));
}

#[test]
fn react_tool_burst_blocked() {
    let mut s = ReActSession::start("x", false, 3);
    match s.on_turn(&turn(None, 13)) {
        TurnOutcome::Finished(r) => assert_eq!(r.output, "tool burst blocked: 13 tool calls in one turn"),
        _ => panic!("expected a block"),
    }
}

#[test]
fn react_aborts_after_two_failures() {
    let mut s = ReActSession::start("x", false, 5);
    let t = turn(Some("trying"), 2);
    assert!(matches!(s.on_turn(&t), TurnOutcome::RunTools));
    assert_eq!(s.messages.len(), 2);
    assert_eq!(s.messages[1].role, "assistant");
    s.on_tool_result(&t.tool_calls[0], Err("boom".to_string()));
    s.on_tool_result(&t.tool_calls[1], Err("bang".to_string()));
    assert_eq!(s.messages[3].content, "error: read_file: bang");
    assert_eq!(s.messages[3].tool_call_id.as_deref(), Some("c1"));
    let r = s.end_turn().unwrap();
    assert_eq!(r.output, "aborting after 2 consecutive tool failures: read_file: bang");
}

#[test]
fn react_success_resets_and_iterations_run_out() {
    let mut s = ReActSession::start("x", false, 1);
    let t = turn(None, 2);
    assert!(matches!(s.on_turn(&t), TurnOutcome::RunTools));
    s.on_tool_result(&t.tool_calls[0], Err("boom".to_string()));
    s.on_tool_result(&t.tool_calls[1], Ok("text".to_string()));
    assert_eq!(s.consecutive_tool_failures, 0);
    assert!(s.last_tool_error.is_none());
    assert_eq!(s.messages[2].content, "read_file:text");
    assert!(s.end_turn().is_none());
    let r = s.out_of_iterations().unwrap();
    assert_eq!(r.output, "max iterations reached: 1");
    let mut u = ReActSession::start("x", false, 1);
    let t1 = turn(None, 1);
    u.on_turn(&t1);
    u.on_tool_result(&t1.tool_calls[0], Err("e".to_string()));
    assert!(u.end_turn().is_none());
    assert_eq!(u.out_of_iterations().unwrap().output, "max iterations reached: 1 (last tool error: read_file: e)");
    let mut v = ReActSession::start("x", false, 2);
    let t2 = turn(None, 1);
    v.on_turn(&t2);
    v.on_tool_result(&t2.tool_calls[0], Err("e".to_string()));
    v.end_turn();
    match v.on_turn(&turn(None, 0)) {
        TurnOutcome::Finished(r) => assert_eq!(r.output, "assistant returned no tool calls after prior tool error: read_file: e"),
        _ => panic!("expected failure"),
    }
}

#[test]
fn prompts_and_context() {
    let c = TaskContext { task: "t".into(), spec_file: None, policy_file: Some("p.toml".into()), max_iter: Some(4) };
    let p = system_prompt(&c, "CTX");
    assert!(p.starts_with("You are goRkForge Phase 1: a local ReAct reasoner for safe code edits.\n"));
    assert!(p.ends_with("Policy file: p.toml\nMax iterations for this run: 4\n\nCode context:\nCTX"));
    assert_eq!(snapshot_paths(false).len(), 7);
    assert_eq!(snapshot_paths(true).len(), 15);
    let files = vec![
        ContextFile { path: "./a".into(), content: Some("A".into()) },
        ContextFile { path: "./b".into(), content: None },
    ];
    assert_eq!(code_context_text(&files), "\n### ./a\nA\n");
    assert_eq!(code_context_text(&vec![]), "<context-unavailable>");
}

#[test]
fn self_improvement_cycle() {
    let t1 = self_improve_task("SPEC", 1, "");
    assert!(t1.starts_with("Run a self-improve cycle."));
    assert!(!t1.contains("Previous attempt"));
    assert!(self_improve_task("SPEC", 2, "old").contains("Previous attempt failed format validation:\nold\n"));
    let c = self_improve_context("task".into(), 9);
    assert_eq!(c.spec_file.as_deref(), Some("special.md"));
    assert!(self_improve_format_ok("Plan: a\nPATCH: b"));
    assert!(!self_improve_format_ok("plan only"));
    let mut si = SelfImprove::new();
    let bad = TaskResult { status: TaskStatus::Completed, output: "no format".into() };
    assert!(matches!(si.after_attempt(bad, Ok(())), ImproveStep::Retry));
    assert_eq!(si.attempt, 2);
    let good = TaskResult { status: TaskStatus::Completed, output: "PLAN: x PATCH: y".into() };
    assert!(matches!(si.after_attempt(good, Ok(())), ImproveStep::Done(r) if r.status == TaskStatus::Completed));
    let mut sj = SelfImprove::new();
    let done = TaskResult { status: TaskStatus::Completed, output: "PLAN: PATCH:".into() };
    match sj.after_attempt(done, Err("no git".into())) {
        ImproveStep::Done(r) => assert_eq!(r.output, "auto commit/push failed after completion: no git"),
        _ => panic!(),
    }
    sj.last_output = "x".into();
    assert_eq!(sj.exhausted().output, "self-improve output missing explicit PLAN/PATCH after 2 attempts\nx");
}

#[test]
fn sandbox_layout_and_steps() {
    let id = run_id_for(123);
    assert_eq!(id, "run_123");
    let s = Sandbox::layout("/repo".into(), id);
    assert_eq!(s.run_dir, "/repo/.gorkforge/runs/run_123");
    assert_eq!(s.overlay_root, "/repo/.gorkforge/runs/run_123/overlay");
    assert_eq!(s.workspace_path("a.rs"), "/repo/a.rs");
    assert_eq!(s.overlay_path("/abs"), "/abs");
    assert_eq!(s.log_path(), "/repo/.gorkforge/runs/run_123/sandbox.log");
    let steps = s.commit("gorkforge: x");
    assert_eq!(steps.len(), 4);
    assert!(matches!(&steps[2], SandboxStep::Run(c) if c.args == vec!["commit", "-m", "gorkforge: x"]));
    assert!(matches!(&steps[3], SandboxStep::Log(l) if l == "git commit: gorkforge: x"));
    let p = s.push("origin", "feature/x");
    assert!(matches!(&p[0], SandboxStep::Run(c) if c.program == "git" && c.args == vec!["push", "origin", "feature/x"] && c.cwd == "/repo"));
    assert!(matches!(&p[1], SandboxStep::Log(l) if l == "git push: origin feature/x"));
    assert_eq!(overlay_skip_entries(), vec![".git", "target", ".gorkforge"]);
}

#[test]
fn skip_matching() {
    assert!(matches_skip(".git", "/repo/.git", "/repo"));
    assert!(matches_skip("target", "/repo/target/debug", "/repo"));
    assert!(matches_skip("a\\b", "/repo/a/b/c", "/repo"));
    assert!(!matches_skip(".git", "/repo/.github", "/repo"));
    assert!(!matches_skip(".git", "/other/.git", "/repo"));
}

#[test]
fn strip_matches_std_paths() {
    let cases = [
        ("/w//x/f", "/w"), ("/w/x/", "/w"), ("/w/./x", "/w"), ("/w", "/w"), ("/w/", "/w"),
        ("a/b", ""), ("./a", ""), ("./a/b", "."), ("/a", "a"), ("a//b/.", "a"), ("/w/x", "/w/"),
        ("/ww/x", "/w"), ("a/../b", "a"), (".", ""), ("", ""), ("/", "/"), ("//x", "/"),
        ("/w/x//y/", "/w//"), ("a/./b", "a/."), ("a/b", "./a"), ("./a/b", "./a"), ("a/b/./", "a/b"),
        ("/w/x", "w"), ("x/y", "x/y/z"), ("/w/.x", "/w"), ("/w/x/..", "/w/x"), ("a", "./"),
    ];
    for (path, base) in cases {
        let want = std::path::Path::new(path)
            .strip_prefix(base)
            .ok()
            .map(|p| p.to_string_lossy().into_owned());
        assert_eq!(strip_prefix_path(path, base), want, "path {:?} base {:?}", path, base);
    }
}
