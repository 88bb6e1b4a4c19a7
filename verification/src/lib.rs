//! Core logic of an autonomous coding agent: task records and agent stubs,
//! the tool-permission policy, argument checking and command planning for
//! the agent's tools, sandbox path layout, LLM request shaping and the
//! ReAct reasoning loop as a state machine.

pub mod text;
pub mod agent;
pub mod platform;
pub mod core_agent;
pub mod subagent;
pub mod remoteagent;
pub mod orchestrator;
pub mod desktop;
pub mod headless;
pub mod web;
pub mod config;
pub mod args;
pub mod policy;
pub mod components;
pub mod sandbox;
pub mod catalog;
pub mod tools;
pub mod gh;
pub mod gates;
pub mod llm;
pub mod reply;
pub mod reasoner;
pub mod syntax;
