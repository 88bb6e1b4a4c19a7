//! The tool-permission policy and its defaults.

use vstd::prelude::*;
use vstd::string::*;
use crate::text::str_eq;

verus! {

/// Permission states of the three kinds of tool access: `allow`,
/// `learn_once`, `deny` or any other word.
#[derive(Debug, Clone)]
pub struct PermissionBlock {
    pub file_read: String,
    pub file_write: String,
    pub shell_safe: String,
}

/// Limits of one agent run.
#[derive(Debug, Clone)]
pub struct AgentPolicy {
    pub max_iterations: Option<u32>,
    pub max_tokens_per_run: Option<u64>,
}

/// The policy a toolset enforces.
#[derive(Debug, Clone)]
pub struct PolicyConfig {
    pub agent: AgentPolicy,
    pub permissions: PermissionBlock,
}

/// A permission state that grants file access.
pub open spec fn grants(state: Seq<char>) -> bool {
    state == "allow"@ || state == "learn_once"@
}

pub fn default_permission_state() -> (r: String)
    ensures
        r@ == "allow"@,
{
    let mut r = String::new();
    r.append("allow");
    r
}

pub fn default_max_iterations() -> (r: Option<u32>)
    ensures
        r == Some(20u32),
{
    Some(20)
}

pub fn default_max_tokens_per_run() -> (r: Option<u64>)
    ensures
        r == Some(500_000u64),
{
    Some(500_000)
}

/// Every kind of access allowed.
pub fn default_permissions() -> (r: PermissionBlock)
    ensures
        r.file_read@ == "allow"@,
        r.file_write@ == "allow"@,
        r.shell_safe@ == "allow"@,
{
    PermissionBlock {
        file_read: default_permission_state(),
        file_write: default_permission_state(),
        shell_safe: default_permission_state(),
    }
}

pub fn default_agent_policy() -> (r: AgentPolicy)
    ensures
        r.max_iterations == Some(20u32),
        r.max_tokens_per_run == Some(500_000u64),
{
    AgentPolicy {
        max_iterations: default_max_iterations(),
        max_tokens_per_run: default_max_tokens_per_run(),
    }
}

impl PolicyConfig {
    /// The policy used when no policy file exists.
    pub fn default_config() -> (r: Self)
        ensures
            r.agent.max_iterations == Some(20u32),
            r.agent.max_tokens_per_run == Some(500_000u64),
            r.permissions.file_read@ == "allow"@,
            r.permissions.file_write@ == "allow"@,
            r.permissions.shell_safe@ == "allow"@,
    {
        PolicyConfig { agent: default_agent_policy(), permissions: default_permissions() }
    }

    /// The policy's iteration cap, or `fallback` when it sets none.
    pub fn max_iterations(&self, fallback: u32) -> (r: u32)
        ensures
            r == match self.agent.max_iterations {
                Some(n) => n,
                None => fallback,
            },
    {
        match self.agent.max_iterations {
            Some(n) => n,
            None => fallback,
        }
    }

    pub fn read_allowed(&self) -> (r: bool)
        ensures
            r == grants(self.permissions.file_read@),
    {
        str_eq(self.permissions.file_read.as_str(), "allow") || str_eq(
            self.permissions.file_read.as_str(),
            "learn_once",
        )
    }

    pub fn write_allowed(&self) -> (r: bool)
        ensures
            r == grants(self.permissions.file_write@),
    {
        str_eq(self.permissions.file_write.as_str(), "allow") || str_eq(
            self.permissions.file_write.as_str(),
            "learn_once",
        )
    }

    /// Shell commands are allowed unless the state is exactly `deny`.
    pub fn shell_allowed(&self) -> (r: bool)
        ensures
            r == (self.permissions.shell_safe@ != "deny"@),
    {
        !str_eq(self.permissions.shell_safe.as_str(), "deny")
    }
}

/// The default policy grants reading, writing and shell access.
pub proof fn default_policy_allows_all(p: PolicyConfig)
    requires
        p.permissions.file_read@ == "allow"@,
        p.permissions.file_write@ == "allow"@,
        p.permissions.shell_safe@ == "allow"@,
    ensures
        grants(p.permissions.file_read@),
        grants(p.permissions.file_write@),
        p.permissions.shell_safe@ != "deny"@,
{
    reveal_strlit("allow");
    reveal_strlit("deny");
    assert("allow"@[0] != "deny"@[0]);
}

} // verus!
