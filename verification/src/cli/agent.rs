//! `scribe agent install`: skill files for AI coding agents.
//!
//! Checking directories and writing files happens outside the library; this
//! module knows the targets and turns what happened into results.

use vstd::prelude::*;
use crate::cli::project::OutputFormat;
use crate::text::str_eq;

verus! {

/// `scribe agent`.
#[derive(Debug, Clone, Copy)]
pub enum AgentCommand {
    /// Install the skill file for every detected agent.
    Install(AgentInstallArgs),
}

/// `scribe agent install`.
#[derive(Debug, Clone, Copy)]
pub struct AgentInstallArgs {
    /// Output format.
    pub output: OutputFormat,
}

/// An agent the skill file can be installed for.
#[derive(Debug, Clone, Copy)]
pub struct AgentTarget {
    /// Display name.
    pub name: &'static str,
    /// Skill directory, relative to the home directory.
    pub dir: &'static str,
    /// File name inside the skill directory.
    pub filename: &'static str,
}

/// The agents the skill file is installed for, in display order.
pub fn agent_targets() -> (r: Vec<AgentTarget>)
    ensures
        r@.len() == 3,
        r@[0].name@ == "Cursor"@ && r@[0].dir@ == ".cursor/rules"@,
        r@[1].name@ == "Codex"@ && r@[1].dir@ == ".codex"@,
        r@[2].name@ == "Windsurf"@ && r@[2].dir@ == ".windsurf/rules"@,
        forall|i: int| 0 <= i < 3 ==> (#[trigger] r@[i]).filename@ == "scribe.md"@,
{
    vec![
        AgentTarget { name: "Cursor", dir: ".cursor/rules", filename: "scribe.md" },
        AgentTarget { name: "Codex", dir: ".codex", filename: "scribe.md" },
        AgentTarget { name: "Windsurf", dir: ".windsurf/rules", filename: "scribe.md" },
    ]
}

/// What happened for one agent.
#[derive(Debug)]
pub struct AgentInstallResult {
    /// The agent's display name.
    pub agent: String,
    /// `installed` or `skipped`.
    pub status: String,
    /// The file written, when installed.
    pub path: Option<String>,
    /// Why it was skipped, when skipped.
    pub reason: Option<String>,
}

/// How writing the skill file went for an agent whose directory exists.
#[derive(Debug)]
pub enum WriteOutcome {
    /// Written to this path.
    Written(String),
    /// The write failed with this message.
    Failed(String),
}

/// The result for an agent: skipped when its directory is missing, else
/// installed at the written path or skipped with the write error.
pub fn install_result(agent: &str, dir_exists: bool, write: Option<WriteOutcome>) -> (r: AgentInstallResult)
    ensures
        r.agent@ == agent@,
        !dir_exists || write is None ==> r.status@ == "skipped"@ && r.path is None && r.reason
            == Some(r.reason->0) && r.reason->0@ == "directory not found"@,
        dir_exists && (write matches Some(w) && w is Written) ==> r.status@ == "installed"@ && r.path
            == Some(write->0->Written_0) && r.reason is None,
        dir_exists && (write matches Some(w) && w is Failed) ==> r.status@ == "skipped"@ && r.path is None
            && r.reason is Some && r.reason->0@ == "write failed: "@ + write->0->Failed_0@,
{
    if !dir_exists {
        return AgentInstallResult {
            agent: agent.to_owned(),
            status: "skipped".to_owned(),
            path: None,
            reason: Some("directory not found".to_owned()),
        };
    }
    match write {
        None => AgentInstallResult {
            agent: agent.to_owned(),
            status: "skipped".to_owned(),
            path: None,
            reason: Some("directory not found".to_owned()),
        },
        Some(WriteOutcome::Written(p)) => AgentInstallResult {
            agent: agent.to_owned(),
            status: "installed".to_owned(),
            path: Some(p),
            reason: None,
        },
        Some(WriteOutcome::Failed(m)) => {
            let mut out: Vec<char> = Vec::new();
            crate::text::push_str(&mut out, "write failed: ");
            crate::text::push_str(&mut out, m.as_str());
            AgentInstallResult {
                agent: agent.to_owned(),
                status: "skipped".to_owned(),
                path: None,
                reason: Some(crate::text::string_of(&out)),
            }
        },
    }
}

/// Some agent got the skill file.
pub fn any_installed(results: &Vec<AgentInstallResult>) -> (r: bool)
    ensures
        r == exists|i: int| 0 <= i < results@.len() && (#[trigger] results@[i]).status@ == "installed"@,
{
    let mut i: usize = 0;
    while i < results.len()
        invariant
            0 <= i <= results@.len(),
            forall|j: int| 0 <= j < i ==> (#[trigger] results@[j]).status@ != "installed"@,
        decreases results@.len() - i,
    {
        if str_eq(results[i].status.as_str(), "installed") {
            return true;
        }
        i = i + 1;
    }
    false
}

} // verus!
