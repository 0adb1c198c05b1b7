//! ANSI-coloured terminal text, with links written as OSC 8 hyperlinks.

use vstd::prelude::*;

use crate::domain::timestamp::Timestamp;
use crate::output::plain::age_column;
use crate::output::presentation::{
    fragment_views, humanized_date, kind_color, presentation_views, Color, EventPresentation,
    Fragment, FragmentView, PresentationView,
};
use crate::text::{join, join_strings, pad_end_string, string_views};

verus! {

/// The escape sequence that sets the terminal's text colour to `color`.
pub open spec fn ansi(color: Color) -> Seq<char> {
    match color {
        Color::Gray => "\u{1b}[90m"@,
        Color::Blue => "\u{1b}[34m"@,
        Color::Green => "\u{1b}[32m"@,
        Color::Yellow => "\u{1b}[33m"@,
        Color::Purple => "\u{1b}[35m"@,
        Color::Red => "\u{1b}[31m"@,
    }
}

/// `text` in `color`, followed by the reset sequence.
pub open spec fn colored(text: Seq<char>, color: Color) -> Seq<char> {
    ansi(color) + text + "\u{1b}[0m"@
}

/// A fragment in the terminal: an OSC 8 hyperlink when it has a url, else its text.
pub open spec fn terminal_fragment(f: FragmentView) -> Seq<char> {
    match f.url {
        Some(url) => "\u{1b}]"@ + "8;;"@ + url + "\u{1b}\\"@ + f.text + "\u{1b}]"@ + "8;;"@
            + "\u{1b}\\"@,
        None => f.text,
    }
}

/// The terminal line of one event.
pub open spec fn terminal_line(event: PresentationView, reference: Timestamp) -> Seq<char> {
    colored(age_column(event.created_at, reference), Color::Gray) + " "@ + colored(
        join(event.fragments.map_values(|f: FragmentView| terminal_fragment(f)), " "@),
        kind_color(event.kind),
    )
}

/// The terminal output: the line of each event, joined by newlines.
pub open spec fn terminal_output(events: Seq<PresentationView>, reference: Timestamp) -> Seq<
    char,
> {
    join(Seq::new(events.len(), |i: int| terminal_line(events[i], reference)), "\n"@)
}

/// The terminal output has one line per event, in order: nothing for no
/// event, the event's line for one, and for more, the output of all but the
/// last, a newline, then the last event's line. Each line starts in gray, with
/// the event's age.
pub proof fn lemma_terminal_lines(events: Seq<PresentationView>, reference: Timestamp)
    ensures
        events.len() == 0 ==> terminal_output(events, reference) == Seq::<char>::empty(),
        events.len() == 1 ==> terminal_output(events, reference) == terminal_line(events[0], reference),
        events.len() >= 2 ==> terminal_output(events, reference) == terminal_output(
            events.drop_last(),
            reference,
        ) + "\n"@ + terminal_line(events.last(), reference),
        forall|e: PresentationView| #[trigger] terminal_line(e, reference) == "\u{1b}[90m"@ + age_column(
            e.created_at,
            reference,
        ) + "\u{1b}[0m"@ + " "@ + colored(
            join(e.fragments.map_values(|f: FragmentView| terminal_fragment(f)), " "@),
            kind_color(e.kind),
        ),
{
    if events.len() >= 2 {
        let lines = Seq::new(events.len(), |i: int| terminal_line(events[i], reference));
        assert(lines.drop_last() =~= Seq::new(
            events.drop_last().len(),
            |i: int| terminal_line(events.drop_last()[i], reference),
        ));
    }
}

pub fn ansi_code(color: Color) -> (r: &'static str)
    ensures
        r@ == ansi(color),
{
    match color {
        Color::Gray => "\u{1b}[90m",
        Color::Blue => "\u{1b}[34m",
        Color::Green => "\u{1b}[32m",
        Color::Yellow => "\u{1b}[33m",
        Color::Purple => "\u{1b}[35m",
        Color::Red => "\u{1b}[31m",
    }
}

pub fn colorize(text: &str, color: Color) -> (r: String)
    ensures
        r@ == colored(text@, color),
{
    let mut r = String::from_str(ansi_code(color));
    r.append(text);
    r.append("\u{1b}[0m");
    r
}

pub fn render_fragment(fragment: &Fragment) -> (r: String)
    ensures
        r@ == terminal_fragment(fragment@),
{
    match &fragment.url {
        Some(url) => {
            let mut r = String::from_str("\u{1b}]");
            r.append("8;;");
            r.append(url.as_str());
            r.append("\u{1b}\\");
            r.append(fragment.text.as_str());
            r.append("\u{1b}]");
            r.append("8;;");
            r.append("\u{1b}\\");
            r
        },
        None => String::from_str(fragment.text.as_str()),
    }
}

/// The terminal line of one event: its age in gray, padded to 13 characters,
/// a space, and its fragments joined by spaces in its kind's colour.
pub fn render_event(event: &EventPresentation, reference_time: &Timestamp) -> (r: String)
    ensures
        r@ == terminal_line(event@, *reference_time),
{
    let relative_time = humanized_date(&event.created_at, reference_time);
    let time = colorize(pad_end_string(relative_time.as_str(), 13).as_str(), Color::Gray);
    let mut parts: Vec<String> = Vec::new();
    let mut i: usize = 0;
    while i < event.fragments.len()
        invariant
            i <= event.fragments.len(),
            parts.len() == i,
            forall|k: int| 0 <= k < i ==> (#[trigger] parts@[k])@ == terminal_fragment(event.fragments@[k]@),
        decreases event.fragments.len() - i,
    {
        parts.push(render_fragment(&event.fragments[i]));
        i = i + 1;
    }
    let text = join_strings(&parts, " ");
    assert(string_views(parts@) =~= fragment_views(event.fragments@).map_values(
        |f: FragmentView| terminal_fragment(f),
    ));
    let event_text = colorize(text.as_str(), event.kind.color());
    let mut r = time;
    r.append(" ");
    r.append(event_text.as_str());
    r
}

/// The terminal output for `events`, their ages taken at `reference_time`.
pub fn render(events: Vec<EventPresentation>, reference_time: Timestamp) -> (r: String)
    ensures
        r@ == terminal_output(presentation_views(events@), reference_time),
{
    let mut lines: Vec<String> = Vec::new();
    let mut i: usize = 0;
    while i < events.len()
        invariant
            i <= events.len(),
            lines.len() == i,
            forall|k: int| 0 <= k < i ==> (#[trigger] lines@[k])@ == terminal_line(events@[k]@, reference_time),
        decreases events.len() - i,
    {
        lines.push(render_event(&events[i], &reference_time));
        i = i + 1;
    }
    let r = join_strings(&lines, "\n");
    assert(string_views(lines@) =~= Seq::new(
        presentation_views(events@).len(),
        |k: int| terminal_line(presentation_views(events@)[k], reference_time),
    ));
    r
}

} // verus!
