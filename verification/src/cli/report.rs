//! `scribe report …`: summary and per-domain reports.

use vstd::prelude::*;
use crate::cli::project::OutputFormat;

verus! {

/// `scribe report`.
#[derive(Debug)]
pub struct ReportCommand {
    /// Which report; the summary across every table when absent.
    pub subcommand: Option<ReportSubcommand>,
    /// Only today.
    pub today: bool,
    /// Only this week.
    pub week: bool,
    /// Output format.
    pub output: OutputFormat,
    /// Include details.
    pub detailed: bool,
}

/// The `scribe report` subcommands.
#[derive(Debug)]
pub enum ReportSubcommand {
    /// A project's report.
    Project { slug: String },
    /// A task's report.
    Task { slug: String },
    /// A todo's report.
    Todo { slug: String },
    /// The inbox report.
    Inbox,
    /// The reminders report.
    Reminders,
}

/// The label of a report's time range.
pub open spec fn range_label(today: bool, week: bool) -> Seq<char> {
    if today { "today"@ } else if week { "this week"@ } else { "all time"@ }
}

/// The label of a report's time range: `today`, `this week` or `all time`.
pub fn date_range_label(today: bool, week: bool) -> (r: &'static str)
    ensures
        r@ == range_label(today, week),
{
    if today { "today" } else if week { "this week" } else { "all time" }
}

} // verus!
