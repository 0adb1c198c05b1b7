//! A Markdown list: one item per event, its emoji and its description with links.

use vstd::prelude::*;

use crate::output::presentation::{
    fragment_views, kind_emoji, presentation_views, EventPresentation, Fragment, FragmentView,
    PresentationView,
};
use crate::text::{join, join_strings, string_views};

verus! {

/// A fragment in Markdown: a link `[text](url)` when it has a url, else its text.
pub open spec fn markdown_fragment(f: FragmentView) -> Seq<char> {
    match f.url {
        Some(url) => "["@ + f.text + "]("@ + url + ")"@,
        None => f.text,
    }
}

/// The Markdown item of one event.
pub open spec fn markdown_line(event: PresentationView) -> Seq<char> {
    "- "@ + kind_emoji(event.kind) + " "@ + join(
        event.fragments.map_values(|f: FragmentView| markdown_fragment(f)),
        ""@,
    )
}

/// The Markdown output: the item of each event, joined by newlines.
pub open spec fn markdown_output(events: Seq<PresentationView>) -> Seq<char> {
    join(Seq::new(events.len(), |i: int| markdown_line(events[i])), "\n"@)
}

/// The Markdown output is a list with one item per event, in order: nothing
/// for no event, the event's item for one, and for more, the output of all but
/// the last, a newline, then the last event's item. Each item starts with
/// "- " and the emoji of its kind.
pub proof fn lemma_markdown_items(events: Seq<PresentationView>)
    ensures
        events.len() == 0 ==> markdown_output(events) == Seq::<char>::empty(),
        events.len() == 1 ==> markdown_output(events) == markdown_line(events[0]),
        events.len() >= 2 ==> markdown_output(events) == markdown_output(events.drop_last()) + "\n"@
            + markdown_line(events.last()),
        forall|e: PresentationView| #[trigger] markdown_line(e).len() >= 2 && markdown_line(e)[0] == '-'
            && markdown_line(e)[1] == ' ',
        forall|e: PresentationView| #[trigger] markdown_line(e).subrange(2, 2 + kind_emoji(e.kind).len() as int)
            == kind_emoji(e.kind),
{
    reveal_strlit("- ");
    if events.len() >= 2 {
        let lines = Seq::new(events.len(), |i: int| markdown_line(events[i]));
        assert(lines.drop_last() =~= Seq::new(
            events.drop_last().len(),
            |i: int| markdown_line(events.drop_last()[i]),
        ));
    }
    assert forall|e: PresentationView| #[trigger] markdown_line(e).subrange(2, 2 + kind_emoji(e.kind).len() as int)
        == kind_emoji(e.kind) by {
        let rest = " "@ + join(e.fragments.map_values(|f: FragmentView| markdown_fragment(f)), ""@);
        assert(markdown_line(e) == "- "@ + kind_emoji(e.kind) + rest);
        assert(markdown_line(e).subrange(2, 2 + kind_emoji(e.kind).len() as int) =~= kind_emoji(e.kind));
    }
}

pub fn render_fragment(part: &Fragment) -> (r: String)
    ensures
        r@ == markdown_fragment(part@),
{
    match &part.url {
        Some(url) => {
            let mut r = String::from_str("[");
            r.append(part.text.as_str());
            r.append("](");
            r.append(url.as_str());
            r.append(")");
            r
        },
        None => String::from_str(part.text.as_str()),
    }
}

fn render_event(event: &EventPresentation) -> (r: String)
    ensures
        r@ == markdown_line(event@),
{
    let mut parts: Vec<String> = Vec::new();
    let mut i: usize = 0;
    while i < event.fragments.len()
        invariant
            i <= event.fragments.len(),
            parts.len() == i,
            forall|k: int| 0 <= k < i ==> (#[trigger] parts@[k])@ == markdown_fragment(event.fragments@[k]@),
        decreases event.fragments.len() - i,
    {
        parts.push(render_fragment(&event.fragments[i]));
        i = i + 1;
    }
    let text = join_strings(&parts, "");
    assert(string_views(parts@) =~= fragment_views(event.fragments@).map_values(
        |f: FragmentView| markdown_fragment(f),
    ));
    let mut r = String::from_str("- ");
    r.append(event.kind.emoji());
    r.append(" ");
    r.append(text.as_str());
    r
}

/// The Markdown output for `events`.
pub fn render(events: Vec<EventPresentation>) -> (r: String)
    ensures
        r@ == markdown_output(presentation_views(events@)),
{
    let mut lines: Vec<String> = Vec::new();
    let mut i: usize = 0;
    while i < events.len()
        invariant
            i <= events.len(),
            lines.len() == i,
            forall|k: int| 0 <= k < i ==> (#[trigger] lines@[k])@ == markdown_line(events@[k]@),
        decreases events.len() - i,
    {
        lines.push(render_event(&events[i]));
        i = i + 1;
    }
    let r = join_strings(&lines, "\n");
    assert(string_views(lines@) =~= Seq::new(
        presentation_views(events@).len(),
        |k: int| markdown_line(presentation_views(events@)[k]),
    ));
    r
}

} // verus!
