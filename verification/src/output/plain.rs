//! Plain, unstyled text: one line per event, its age and its description.

use vstd::prelude::*;

use crate::domain::timestamp::{span_nanos, whole_seconds, Timestamp};
use crate::output::presentation::{
    fragment_views, humanized, humanized_date, presentation_views, EventPresentation, Fragment,
    FragmentView, PresentationView,
};
use crate::text::{join, join_strings, pad_end, pad_end_string, string_views};

verus! {

/// The age of an event written as in the plain and terminal outputs: in words,
/// padded to 13 characters.
pub open spec fn age_column(created_at: Timestamp, reference: Timestamp) -> Seq<char> {
    pad_end(humanized(whole_seconds(span_nanos(reference, created_at))), 13)
}

/// The texts of the fragments, one after the other with nothing between them.
pub open spec fn fragment_texts(fragments: Seq<FragmentView>) -> Seq<char> {
    join(fragments.map_values(|f: FragmentView| f.text), ""@)
}

/// The plain line of one event.
pub open spec fn plain_line(event: PresentationView, reference: Timestamp) -> Seq<char> {
    age_column(event.created_at, reference) + " "@ + fragment_texts(event.fragments)
}

/// The plain output: the line of each event, joined by newlines.
pub open spec fn plain_output(events: Seq<PresentationView>, reference: Timestamp) -> Seq<char> {
    join(Seq::new(events.len(), |i: int| plain_line(events[i], reference)), "\n"@)
}

/// The texts of `fragments` written one after the other.
pub fn concat_texts(fragments: &Vec<Fragment>) -> (r: String)
    ensures
        r@ == fragment_texts(fragment_views(fragments@)),
{
    let mut texts: Vec<String> = Vec::new();
    let mut i: usize = 0;
    while i < fragments.len()
        invariant
            i <= fragments.len(),
            texts.len() == i,
            forall|k: int| 0 <= k < i ==> (#[trigger] texts@[k])@ == fragments@[k].text@,
        decreases fragments.len() - i,
    {
        texts.push(String::from_str(fragments[i].text.as_str()));
        i = i + 1;
    }
    let r = join_strings(&texts, "");
    assert(string_views(texts@) =~= fragment_views(fragments@).map_values(|f: FragmentView| f.text));
    r
}

/// The plain line of one event: its age padded to 13 characters, a space,
/// and the texts of its fragments.
pub fn render_event(event: &EventPresentation, reference_time: &Timestamp) -> (r: String)
    ensures
        r@ == plain_line(event@, *reference_time),
{
    let relative_time = humanized_date(&event.created_at, reference_time);
    let mut r = pad_end_string(relative_time.as_str(), 13);
    r.append(" ");
    r.append(concat_texts(&event.fragments).as_str());
    r
}

/// The plain output for `events`, their ages taken at `reference_time`.
pub fn render(events: Vec<EventPresentation>, reference_time: Timestamp) -> (r: String)
    ensures
        r@ == plain_output(presentation_views(events@), reference_time),
{
    let mut lines: Vec<String> = Vec::new();
    let mut i: usize = 0;
    while i < events.len()
        invariant
            i <= events.len(),
            lines.len() == i,
            forall|k: int| 0 <= k < i ==> (#[trigger] lines@[k])@ == plain_line(events@[k]@, reference_time),
        decreases events.len() - i,
    {
        lines.push(render_event(&events[i], &reference_time));
        i = i + 1;
    }
    let r = join_strings(&lines, "\n");
    assert(string_views(lines@) =~= Seq::new(
        presentation_views(events@).len(),
        |k: int| plain_line(presentation_views(events@)[k], reference_time),
    ));
    r
}

} // verus!
