//! The command line, checked: a command the tool can carry out.

use vstd::prelude::*;

use crate::cli;
use crate::cli::EventType;
use crate::cmds::run::RunSession;
use crate::domain::events::{EventKindFilter, EventLimit, EventVisibility, MAX_EVENT_LIMIT};
use crate::domain::user::Username;
use crate::domain::InputError;
use crate::output::presentation::EventKind;
use crate::output::{HtmlTemplate, OutputFormat};
use crate::service::github::filter_view;
use crate::text::trim;

verus! {

/// A checked command.
pub enum Command {
    Run {
        event_kind_filter: Option<EventKindFilter>,
        username: Username,
        limit: EventLimit,
        event_visibility: EventVisibility,
        output_format: OutputFormat,
    },
}

/// The kind of event an event type names.
pub open spec fn kind_of_type(t: EventType) -> EventKind {
    match t {
        EventType::Create => EventKind::Create,
        EventType::Delete => EventKind::Delete,
        EventType::IssueComment => EventKind::IssueComment,
        EventType::Issues => EventKind::Issues,
        EventType::PullRequest => EventKind::PullRequest,
        EventType::PullRequestReview => EventKind::PullRequestReview,
        EventType::Push => EventKind::Push,
        EventType::Release => EventKind::Release,
    }
}

/// The template a command-line template names.
pub open spec fn template_of(t: cli::HtmlTemplate) -> HtmlTemplate {
    match t {
        cli::HtmlTemplate::Editorial => HtmlTemplate::Editorial,
        cli::HtmlTemplate::Notebook => HtmlTemplate::Notebook,
        cli::HtmlTemplate::Terminal => HtmlTemplate::Terminal,
        cli::HtmlTemplate::Zine => HtmlTemplate::Zine,
    }
}

/// The output format a command-line format and template name.
pub open spec fn format_of(format: cli::OutputFormat, template: cli::HtmlTemplate) -> OutputFormat {
    match format {
        cli::OutputFormat::Html => OutputFormat::Html { template: template_of(template) },
        cli::OutputFormat::Markdown => OutputFormat::Markdown,
        cli::OutputFormat::Plain => OutputFormat::Plain,
        cli::OutputFormat::Terminal => OutputFormat::Terminal,
    }
}

/// The visibility asked for by the `--include-private` flag.
pub open spec fn visibility_of(include_private: bool) -> EventVisibility {
    if include_private {
        EventVisibility::IncludePrivate
    } else {
        EventVisibility::PublicOnly
    }
}

/// The kinds the event types name, as a filter's kinds: none when no type is named.
pub open spec fn kinds_of_types(types: Seq<EventType>) -> Option<Set<EventKind>> {
    if types.len() == 0 {
        None
    } else {
        Some(types.map_values(|t: EventType| kind_of_type(t)).to_set())
    }
}

/// Each kind is named by exactly one command-line event type.
pub proof fn lemma_event_types_name_each_kind_once(a: EventType, b: EventType, k: EventKind)
    ensures
        kind_of_type(a) == kind_of_type(b) ==> a == b,
        exists|t: EventType| kind_of_type(t) == k,
{
    let t = match k {
        EventKind::Push => EventType::Push,
        EventKind::Create => EventType::Create,
        EventKind::Delete => EventType::Delete,
        EventKind::Issues => EventType::Issues,
        EventKind::IssueComment => EventType::IssueComment,
        EventKind::PullRequest => EventType::PullRequest,
        EventKind::PullRequestReview => EventType::PullRequestReview,
        EventKind::Release => EventType::Release,
    };
    assert(kind_of_type(t) == k);
}

impl EventKind {
    pub fn from_cli(value: EventType) -> (r: EventKind)
        ensures
            r == kind_of_type(value),
    {
        match value {
            EventType::Create => EventKind::Create,
            EventType::Delete => EventKind::Delete,
            EventType::IssueComment => EventKind::IssueComment,
            EventType::Issues => EventKind::Issues,
            EventType::PullRequest => EventKind::PullRequest,
            EventType::PullRequestReview => EventKind::PullRequestReview,
            EventType::Push => EventKind::Push,
            EventType::Release => EventKind::Release,
        }
    }
}

impl From<cli::HtmlTemplate> for HtmlTemplate {
    fn from(value: cli::HtmlTemplate) -> (r: HtmlTemplate) {
        match value {
            cli::HtmlTemplate::Editorial => HtmlTemplate::Editorial,
            cli::HtmlTemplate::Notebook => HtmlTemplate::Notebook,
            cli::HtmlTemplate::Terminal => HtmlTemplate::Terminal,
            cli::HtmlTemplate::Zine => HtmlTemplate::Zine,
        }
    }
}

impl vstd::std_specs::convert::FromSpecImpl<cli::HtmlTemplate> for HtmlTemplate {
    open spec fn obeys_from_spec() -> bool {
        true
    }

    open spec fn from_spec(value: cli::HtmlTemplate) -> HtmlTemplate {
        template_of(value)
    }
}

impl OutputFormat {
    pub fn from_cli(format: cli::OutputFormat, html_template: cli::HtmlTemplate) -> (r: OutputFormat)
        ensures
            r == format_of(format, html_template),
    {
        match format {
            cli::OutputFormat::Html => OutputFormat::Html { template: HtmlTemplate::from(html_template) },
            cli::OutputFormat::Markdown => OutputFormat::Markdown,
            cli::OutputFormat::Plain => OutputFormat::Plain,
            cli::OutputFormat::Terminal => OutputFormat::Terminal,
        }
    }
}

impl Command {
    /// The command line checked: the username must not be empty once trimmed,
    /// then the limit must lie in 1 to 300.
    pub fn try_from(command: cli::Command) -> (r: Result<Command, InputError>)
        ensures
            match command {
                cli::Command::Run {
                    username,
                    event_types,
                    limit,
                    output_format,
                    html_template,
                    include_private,
                } => {
                    &&& r is Ok <==> (trim(username@).len() > 0 && 1 <= limit <= MAX_EVENT_LIMIT)
                    &&& r matches Err(e) ==> e == (if trim(username@).len() == 0 {
                        InputError::EmptyUsername
                    } else {
                        InputError::LimitOutOfRange
                    })
                    &&& r matches Ok(Command::Run { event_kind_filter, username: u, limit: l, event_visibility, output_format: f })
                        ==> {
                        &&& u@ == trim(username@)
                        &&& l.spec_get() == limit
                        &&& event_visibility == visibility_of(include_private)
                        &&& f == format_of(output_format, html_template)
                        &&& filter_view(event_kind_filter) == kinds_of_types(event_types@)
                    }
                },
            },
    {
        match command {
            cli::Command::Run {
                event_types,
                username,
                limit,
                output_format,
                html_template,
                include_private,
            } => {
                let mut kinds: Vec<EventKind> = Vec::new();
                let mut i: usize = 0;
                while i < event_types.len()
                    invariant
                        i <= event_types.len(),
                        kinds@ == event_types@.take(i as int).map_values(|t: EventType| kind_of_type(t)),
                    decreases event_types.len() - i,
                {
                    kinds.push(EventKind::from_cli(event_types[i]));
                    assert(event_types@.take(i + 1).map_values(|t: EventType| kind_of_type(t)) =~= event_types@.take(
                        i as int,
                    ).map_values(|t: EventType| kind_of_type(t)).push(kind_of_type(event_types@[i as int])));
                    i = i + 1;
                }
                assert(event_types@.take(event_types@.len() as int) =~= event_types@);
                let event_kind_filter = EventKindFilter::from_event_kinds(kinds);
                let username = match Username::try_from(username) {
                    Ok(u) => u,
                    Err(e) => {
                        return Err(e);
                    },
                };
                let limit = match EventLimit::try_from(limit) {
                    Ok(l) => l,
                    Err(e) => {
                        return Err(e);
                    },
                };
                let event_visibility = if include_private {
                    EventVisibility::IncludePrivate
                } else {
                    EventVisibility::PublicOnly
                };
                Ok(Command::Run {
                    event_kind_filter,
                    username,
                    limit,
                    event_visibility,
                    output_format: OutputFormat::from_cli(output_format, html_template),
                })
            },
        }
    }

    /// Starts carrying out the command: a run that has fetched nothing yet.
    pub fn handle(self) -> (r: RunSession)
        ensures
            r.wf(),
            !r.collector().finished(),
            r.collector().pages() == Seq::<Seq<crate::domain::events::Event>>::empty(),
            match self {
                Command::Run { event_kind_filter, username, limit, event_visibility, output_format } => {
                    &&& r.user() == username@
                    &&& r.collector().limit() == limit.spec_get()
                    &&& r.collector().kinds() == filter_view(event_kind_filter)
                    &&& r.visibility() == event_visibility
                    &&& r.format() == output_format
                },
            },
    {
        match self {
            Command::Run { event_kind_filter, username, limit, event_visibility, output_format } => {
                RunSession::new(username, limit, event_kind_filter, event_visibility, output_format)
            },
        }
    }
}

} // verus!
