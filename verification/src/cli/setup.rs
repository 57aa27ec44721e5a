//! `scribe setup`: the first-run wizard or the setup status.

use vstd::prelude::*;
use crate::config::{Config, SetupConfig};
use crate::text::{lowercase, str_eq, string_of, to_lowercase, trim_chars, trimmed};

verus! {

/// `scribe setup`.
#[derive(Debug, Clone, Copy)]
pub struct SetupArgs {
    /// Always run the wizard.
    pub wizard: bool,
    /// Only show the status.
    pub status: bool,
}

/// What `scribe setup` does.
#[derive(Debug, Clone, Copy, PartialEq, Eq, Structural)]
pub enum SetupStep {
    /// Show what is and is not set up.
    ShowStatus,
    /// Run the interactive wizard.
    RunWizard,
}

/// Some optional step is already done.
pub open spec fn setup_started(s: SetupConfig) -> bool {
    s.daemon_service_installed || s.agent_installed
}

/// Decides what `scribe setup` does: the status with `--status`, or when
/// some step is done and `--wizard` is not given; the wizard otherwise.
pub fn run(args: &SetupArgs, config: &Config) -> (r: SetupStep)
    ensures
        r == (if args.status || (setup_started(config.setup) && !args.wizard) {
            SetupStep::ShowStatus
        } else {
            SetupStep::RunWizard
        }),
{
    let already_done = config.setup.daemon_service_installed || config.setup.agent_installed;
    if args.status || (already_done && !args.wizard) {
        SetupStep::ShowStatus
    } else {
        SetupStep::RunWizard
    }
}

/// Every optional step is done.
pub fn setup_complete(s: &SetupConfig) -> (r: bool)
    ensures
        r == (s.daemon_service_installed && s.agent_installed),
{
    s.daemon_service_installed && s.agent_installed
}

/// The answer to a yes/no question: `y`/`yes` and `n`/`no` in any case,
/// anything else (an empty line too) the default.
pub open spec fn yes_no_answer(line: Seq<char>, default: bool) -> bool {
    let t = lowercase(trimmed(line));
    if t == "y"@ || t == "yes"@ {
        true
    } else if t == "n"@ || t == "no"@ {
        false
    } else {
        default
    }
}

/// Reads the answer to a yes/no question.
pub fn parse_yes_no(line: &str, default: bool) -> (r: bool)
    ensures
        r == yes_no_answer(line@, default),
{
    let t = string_of(&trim_chars(line));
    let l = to_lowercase(t.as_str());
    let s = l.as_str();
    if str_eq(s, "y") || str_eq(s, "yes") {
        true
    } else if str_eq(s, "n") || str_eq(s, "no") {
        false
    } else {
        default
    }
}

} // verus!
