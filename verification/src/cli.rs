//! What the command line asks for, before it is checked.

use vstd::prelude::*;

verus! {

/// The limit on events when none is given.
pub const DEFAULT_LIMIT: usize = 20;

/// The arguments of the tool.
pub struct Args {
    pub command: Command,
}

/// The tool's commands.
pub enum Command {
    /// Fetch and display events for a GitHub user.
    Run {
        username: String,
        event_types: Vec<EventType>,
        limit: usize,
        output_format: OutputFormat,
        html_template: HtmlTemplate,
        include_private: bool,
    },
}

/// An event type named on the command line.
#[derive(Debug, PartialEq, Eq, Structural, Clone, Copy)]
pub enum EventType {
    Create,
    Delete,
    IssueComment,
    Issues,
    PullRequest,
    PullRequestReview,
    Push,
    Release,
}

/// An output format named on the command line.
#[derive(Debug, PartialEq, Eq, Structural, Clone, Copy)]
pub enum OutputFormat {
    Html,
    Markdown,
    Plain,
    Terminal,
}

/// An HTML template named on the command line.
#[derive(Debug, PartialEq, Eq, Structural, Clone, Copy)]
pub enum HtmlTemplate {
    Editorial,
    Notebook,
    Terminal,
    Zine,
}

} // verus!
