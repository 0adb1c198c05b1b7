//! Rendering events in the output formats the tool offers.

pub mod html;
pub mod markdown;
pub mod plain;
pub mod presentation;
pub mod terminal;

use vstd::prelude::*;

use crate::domain::events::Event;
use crate::domain::timestamp::Timestamp;
use crate::domain::user::Username;
use crate::output::html::{fills_page, HtmlContext};
use crate::output::markdown::markdown_output;
use crate::output::plain::plain_output;
use crate::output::presentation::{presentation_views, presented, EventPresentation, PresentationView};
use crate::output::terminal::terminal_output;

verus! {

/// The templates of the HTML output.
#[derive(Debug, PartialEq, Eq, Structural, Clone, Copy)]
pub enum HtmlTemplate {
    Editorial,
    Notebook,
    Terminal,
    Zine,
}

/// The formats the tool writes events in.
#[derive(Debug, PartialEq, Eq, Structural, Clone, Copy)]
pub enum OutputFormat {
    Html { template: HtmlTemplate },
    Markdown,
    Plain,
    Terminal,
}


/// How each event is shown, in order.
pub open spec fn presented_all(events: Seq<Event>) -> Seq<PresentationView> {
    events.map_values(|e: Event| presented(e))
}

/// Rendered output: the finished text, or, for HTML, the template to use and
/// what it is filled with (tera fills it once the caller has turned the
/// context into tera's own).
pub enum Rendered {
    Text(String),
    Html { template: HtmlTemplate, context: HtmlContext },
}

/// How `events` are shown.
pub fn present_all(events: &Vec<Event>) -> (r: Vec<EventPresentation>)
    ensures
        presentation_views(r@) == presented_all(events@),
{
    let mut r: Vec<EventPresentation> = Vec::new();
    let mut i: usize = 0;
    while i < events.len()
        invariant
            i <= events.len(),
            r.len() == i,
            forall|k: int| 0 <= k < i ==> (#[trigger] r@[k])@ == presented(events@[k]),
        decreases events.len() - i,
    {
        r.push(EventPresentation::from(&events[i]));
        i = i + 1;
    }
    assert(presentation_views(r@) =~= presented_all(events@));
    r
}

/// Whether `r` is `events` of `username` rendered in `format`, their ages taken
/// at `reference_time`.
pub open spec fn renders(
    r: Rendered,
    events: Seq<Event>,
    reference_time: Timestamp,
    format: OutputFormat,
    username: Seq<char>,
) -> bool {
    match format {
        OutputFormat::Html { template } => r matches Rendered::Html { template: t, context: c }
            && t == template && fills_page(c, events, reference_time, username),
        OutputFormat::Markdown => r matches Rendered::Text(s) && s@ == markdown_output(
            presented_all(events),
        ),
        OutputFormat::Plain => r matches Rendered::Text(s) && s@ == plain_output(
            presented_all(events),
            reference_time,
        ),
        OutputFormat::Terminal => r matches Rendered::Text(s) && s@ == terminal_output(
            presented_all(events),
            reference_time,
        ),
    }
}

/// `events` of `username` rendered in `format`, their ages taken at `reference_time`.
pub fn render(events: &Vec<Event>, reference_time: Timestamp, format: OutputFormat, username: &Username) -> (r: Rendered)
    ensures
        renders(r, events@, reference_time, format, username@),
{
    match format {
        OutputFormat::Html { template } => Rendered::Html {
            template,
            context: html::context(events, &reference_time, username),
        },
        OutputFormat::Markdown => Rendered::Text(markdown::render(present_all(events))),
        OutputFormat::Plain => Rendered::Text(plain::render(present_all(events), reference_time)),
        OutputFormat::Terminal => Rendered::Text(terminal::render(present_all(events), reference_time)),
    }
}

} // verus!
