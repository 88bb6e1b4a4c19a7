use gorkforge::agent::{Agent, MockLlm, Orchestrator, StubAgent, TaskContext, TaskStatus};
use gorkforge::config::{Config, ConfigError, CoreConfig};
use gorkforge::core_agent::{new_agent, CoreAgent};
use gorkforge::desktop::DesktopPlatform;
use gorkforge::headless;
use gorkforge::orchestrator::CoreOrchestrator;
use gorkforge::platform::{run_with_platform, Platform};
use gorkforge::remoteagent::RemoteAgent;
use gorkforge::subagent::SubAgent;
use gorkforge::web;

fn ctx(task: &str) -> TaskContext {
    TaskContext { task: task.to_string(), spec_file: None, policy_file: None, max_iter: None }
}

#[test]
fn core_agent_completes() {
    let a: CoreAgent = new_agent();
    assert_eq!(a.name(), "agent");
    let r = a.run(&ctx("hello world test")).unwrap();
    assert_eq!(r.status, TaskStatus::Completed);
    assert_eq!(r.output, "agent stub ran 'hello world test'");
}

#[test]
fn stub_agent_reports_context() {
    let c = TaskContext {
        task: "t".to_string(),
        spec_file: Some("special.md".to_string()),
        policy_file: None,
        max_iter: Some(3),
    };
    let r = StubAgent.run(&c).unwrap();
    assert_eq!(StubAgent.name(), "stub-agent");
    assert_eq!(r.output, "agent stub executed task 't' with spec=Some(\"special.md\") policy=None max_iter=Some(3)");
}

#[test]
fn other_agents_complete() {
    assert_eq!(SubAgent.run(&ctx("x")).unwrap().output, "subagent stub for task: x");
    assert_eq!(SubAgent.name(), "gorkforge-subagent");
    assert_eq!(RemoteAgent.run(&ctx("x")).unwrap().output, "remoteagent stub for task: x");
    assert_eq!(RemoteAgent.name(), "gorkforge-remoteagent");
    assert_eq!(CoreOrchestrator.coordinate(&ctx("x")).unwrap().output, "orchestrator stub for task: x");
    assert_eq!(CoreOrchestrator.name(), "gorkforge-orchestrator");
}

#[test]
fn platforms_answer() {
    assert_eq!(DesktopPlatform.execute_task(&ctx("x")).unwrap(), "desktop platform stub for task: x");
    assert_eq!(DesktopPlatform.name(), "gorkforge-desktop");
    let h = headless::new_stub();
    assert_eq!(h.name(), "headless");
    assert_eq!(h.execute_task(&ctx("x")).unwrap(), "headless platform stub: x");
    let w = web::new_stub();
    assert_eq!(w.name(), "web");
    assert_eq!(run_with_platform(&w, "job".to_string(), None, None, Some(2)).unwrap(), "web platform stub: job");
}

#[test]
fn mock_llm_echoes() {
    let m = MockLlm::new();
    assert_eq!(m.config.model, "mock-gpt");
    assert_eq!(m.infer("hi"), "[mock:mock-gpt] hi");
}

#[test]
fn api_key_selection() {
    let c = Config::from_vars(Some("low".to_string()), Some("up".to_string())).unwrap();
    assert_eq!(c.xai_api_key, "low");
    let c = Config::from_vars(None, Some("up".to_string())).unwrap();
    assert_eq!(c.xai_api_key, "up");
    assert!(matches!(Config::from_vars(None, None), Err(ConfigError::MissingApiKey)));
}

#[test]
fn core_config_default_is_empty() {
    let c = CoreConfig::default();
    assert!(c.policy_file.is_none() && c.spec_file.is_none() && c.max_iter.is_none());
}
