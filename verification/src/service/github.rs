//! Collecting events page by page, converting what GitHub sends, and reading
//! its `Link` header.

use vstd::prelude::*;

use crate::domain::events::{payload_kind, Event, EventKindFilter, EventLimit};
use crate::output::presentation::EventKind;
use reqwest::header::{HeaderMap, HeaderValue};

use crate::text::{chars_of, char_views, same_chars, same_text, split_chars, split_on, trim, trim_chars};

verus! {

/// One page of events as GitHub returned it, and whether another page follows.
pub struct GithubPage {
    pub events: Vec<Event>,
    pub has_next_page: bool,
}

/// Whether `event` passes `filter` (no filter lets every event through).
pub open spec fn passes(filter: Option<Set<EventKind>>, event: Event) -> bool {
    match filter {
        Some(kinds) => kinds.contains(payload_kind(event.payload)),
        None => true,
    }
}

/// The events of `pages`, in order, one page after the other.
pub open spec fn all_events(pages: Seq<Seq<Event>>) -> Seq<Event>
    decreases pages.len(),
{
    if pages.len() == 0 {
        seq![]
    } else {
        all_events(pages.drop_last()) + pages.last()
    }
}

/// The events of `events` that pass `filter`, in order.
pub open spec fn kept(events: Seq<Event>, filter: Option<Set<EventKind>>) -> Seq<Event> {
    events.filter(passes_with(filter))
}

/// `passes` with the filter fixed.
pub open spec fn passes_with(filter: Option<Set<EventKind>>) -> spec_fn(Event) -> bool {
    |e: Event| passes(filter, e)
}

/// The first `limit` events of `events` (all of them when there are fewer).
pub open spec fn first_n(events: Seq<Event>, limit: nat) -> Seq<Event> {
    if events.len() <= limit {
        events
    } else {
        events.take(limit as int)
    }
}

/// At most `limit` events are shown, each of a kind the filter lets through, and
/// they are the first of the kept events, in order: the limit applies after
/// filtering.
pub proof fn lemma_shown_events(events: Seq<Event>, filter: Option<Set<EventKind>>, limit: nat)
    ensures
        first_n(kept(events, filter), limit).len() <= limit,
        first_n(kept(events, filter), limit).len() == if kept(events, filter).len() < limit {
            kept(events, filter).len()
        } else {
            limit
        },
        forall|i: int|
            0 <= i < first_n(kept(events, filter), limit).len() ==> passes(
                filter,
                #[trigger] first_n(kept(events, filter), limit)[i],
            ),
        forall|i: int|
            0 <= i < first_n(kept(events, filter), limit).len() ==> #[trigger] first_n(
                kept(events, filter),
                limit,
            )[i] == kept(events, filter)[i],
{
    let k = kept(events, filter);
    assert forall|i: int| 0 <= i < first_n(k, limit).len() implies passes(
        filter,
        #[trigger] first_n(k, limit)[i],
    ) by {
        assert(first_n(k, limit)[i] == k[i]);
        events.lemma_filter_pred(passes_with(filter), i);
    }
}

/// A filter naming only pull requests lets through exactly the pull request
/// events, and a filter naming only pull request reviews exactly the reviews:
/// what each keeps is fixed by the event's payload.
pub proof fn lemma_one_kind_filters(events: Seq<Event>, e: Event)
    ensures
        passes(Some(set![EventKind::PullRequest]), e) <==> e.payload is PullRequest,
        passes(Some(set![EventKind::PullRequestReview]), e) <==> e.payload is PullRequestReview,
        passes(Some(set![EventKind::Push]), e) <==> e.payload is Push,
        forall|i: int|
            0 <= i < kept(events, Some(set![EventKind::PullRequest])).len()
                ==> (#[trigger] kept(events, Some(set![EventKind::PullRequest]))[i]).payload is PullRequest,
        forall|i: int|
            0 <= i < events.len() && (#[trigger] events[i]).payload is PullRequest
                ==> kept(events, Some(set![EventKind::PullRequest])).contains(events[i]),
{
    let f = Some(set![EventKind::PullRequest]);
    assert forall|i: int| 0 <= i < kept(events, f).len() implies (#[trigger] kept(events, f)[i]).payload is PullRequest by {
        events.lemma_filter_pred(passes_with(f), i);
    }
    assert forall|i: int| 0 <= i < events.len() && (#[trigger] events[i]).payload is PullRequest implies kept(events, f).contains(events[i]) by {
        events.filter_lemma(passes_with(f));
        assert(passes_with(f)(events[i]));
    }
}

/// Without a filter every event is kept, in order.
pub proof fn lemma_no_filter_keeps_all(events: Seq<Event>)
    ensures
        kept(events, None) == events,
    decreases events.len(),
{
    reveal(Seq::filter);
    if events.len() > 0 {
        lemma_no_filter_keeps_all(events.drop_last());
        assert(events.drop_last().push(events.last()) =~= events);
    }
}

/// What the collector asks for next.
#[derive(Debug, PartialEq, Eq, Structural, Clone, Copy)]
pub enum CollectStep {
    /// Fetch this page (pages count from 1).
    Fetch(usize),
    /// Enough events have been collected, or no page follows.
    Done,
}

/// The filter's kinds, when there is a filter.
pub open spec fn filter_view(filter: Option<EventKindFilter>) -> Option<Set<EventKind>> {
    match filter {
        Some(f) => Some(f@),
        None => None,
    }
}

/// Collects a user's events page by page, keeping those whose kind passes the
/// filter, until the limit is reached or no page follows.
pub struct EventCollector {
    limit: EventLimit,
    filter: Option<EventKindFilter>,
    collected: Vec<Event>,
    next_page: usize,
    finished: bool,
    pages: Ghost<Seq<Seq<Event>>>,
}

impl EventCollector {
    /// The collector's state agrees with the pages received: before it stops it
    /// holds every kept event, fewer than the limit; once it stops, the first
    /// `limit` of them; and it asks for the page after the last one received.
    pub closed spec fn wf(self) -> bool {
        let k = kept(all_events(self.pages@), filter_view(self.filter));
        &&& !self.finished ==> self.next_page == self.pages@.len() + 1
        &&& !self.finished ==> self.collected@ == k && k.len() < self.limit.spec_get()
        &&& self.finished ==> self.collected@ == first_n(k, self.limit.spec_get())
    }

    /// The events of the pages received so far, page by page.
    pub closed spec fn pages(self) -> Seq<Seq<Event>> {
        self.pages@
    }

    /// The limit.
    pub closed spec fn limit(self) -> nat {
        self.limit.spec_get()
    }

    /// The kinds let through, if there is a filter.
    pub closed spec fn kinds(self) -> Option<Set<EventKind>> {
        filter_view(self.filter)
    }

    /// Whether no more pages are wanted.
    pub closed spec fn finished(self) -> bool {
        self.finished
    }

    /// The events received so far that pass the filter, in order.
    pub open spec fn kept_so_far(self) -> Seq<Event> {
        kept(all_events(self.pages()), self.kinds())
    }

    /// A collector that has received nothing and asks for page 1.
    pub fn new(limit: EventLimit, filter: Option<EventKindFilter>) -> (r: EventCollector)
        ensures
            r.wf(),
            r.pages() == Seq::<Seq<Event>>::empty(),
            r.limit() == limit.spec_get(),
            r.kinds() == filter_view(filter),
            !r.finished(),
    {
        proof {
            assert(kept(all_events(Seq::<Seq<Event>>::empty()), filter_view(filter)) =~= Seq::<Event>::empty()) by {
                reveal(Seq::filter);
            }
        }
        let _ = limit.get();
        EventCollector {
            limit,
            filter,
            collected: Vec::new(),
            next_page: 1,
            finished: false,
            pages: Ghost(Seq::empty()),
        }
    }

    /// What to do next: fetch the following page, or stop.
    pub fn next_step(&self) -> (r: CollectStep)
        requires
            self.wf(),
        ensures
            self.finished() ==> r == CollectStep::Done,
            !self.finished() ==> r == CollectStep::Fetch((self.pages().len() + 1) as usize),
    {
        if self.finished {
            CollectStep::Done
        } else {
            CollectStep::Fetch(self.next_page)
        }
    }

    /// Takes in the page last asked for: keeps its events that pass the filter,
    /// then stops when the limit is reached or no page follows, and otherwise asks
    /// for the next page.
    pub fn receive(&mut self, page: GithubPage) -> (r: CollectStep)
        requires
            old(self).wf(),
            !old(self).finished(),
            old(self).pages().len() + 1 < usize::MAX,
        ensures
            final(self).wf(),
            final(self).pages() == old(self).pages().push(page.events@),
            final(self).limit() == old(self).limit(),
            final(self).kinds() == old(self).kinds(),
            final(self).finished() == (final(self).kept_so_far().len() >= final(self).limit()
                || !page.has_next_page),
            final(self).finished() ==> r == CollectStep::Done,
            !final(self).finished() ==> r == CollectStep::Fetch((old(self).pages().len() + 2) as usize),
    {
        let limit = self.limit.get();
        let ghost filter = filter_view(self.filter);
        let ghost before = self.collected@;
        let ghost pred = passes_with(filter);
        let events = page.events;
        let ghost page_events = events@;
        let mut collected: Vec<Event> = Vec::new();
        std::mem::swap(&mut collected, &mut self.collected);
        for event in it: events
            invariant
                it.seq() == page_events,
                filter == filter_view(self.filter),
                pred == passes_with(filter),
                collected@ == before + page_events.take(it.index() as int).filter(pred),
        {
            proof {
                reveal(Seq::filter);
                assert(page_events.take(it.index() + 1).drop_last() =~= page_events.take(
                    it.index() as int,
                ));
            }
            let pass = match &self.filter {
                Some(f) => f.matches(event.kind()),
                None => true,
            };
            if pass {
                collected.push(event);
            }
        }
        proof {
            assert(page_events.take(page_events.len() as int) =~= page_events);
            let old_pages = self.pages@;
            let new_pages = old_pages.push(page_events);
            assert(new_pages.drop_last() =~= old_pages);
            Seq::filter_distributes_over_add(all_events(old_pages), page_events, pred);
            assert(all_events(new_pages) == all_events(old_pages) + page_events);
            assert(collected@ == kept(all_events(new_pages), filter));
        }
        self.pages = Ghost(self.pages@.push(page_events));
        if collected.len() >= limit {
            collected.truncate(limit);
            assert(collected@ =~= first_n(kept(all_events(self.pages@), filter), limit as nat));
            self.collected = collected;
            self.finished = true;
            return CollectStep::Done;
        }
        self.collected = collected;
        if !page.has_next_page {
            self.finished = true;
            return CollectStep::Done;
        }
        self.next_page = self.next_page + 1;
        CollectStep::Fetch(self.next_page)
    }

    /// The events collected: the first `limit` events received, across pages and
    /// in order, whose kind passes the filter.
    pub fn into_events(self) -> (r: Vec<Event>)
        requires
            self.wf(),
        ensures
            r@ == first_n(self.kept_so_far(), self.limit()),
    {
        self.collected
    }
}


/// The entries of a `Link` header value: its pieces between commas.
pub open spec fn link_entries(value: Seq<char>) -> Seq<Seq<char>> {
    split_on(value, ',')
}

/// The parts of a `Link` entry: the pieces of the trimmed entry between semicolons.
pub open spec fn link_parts(entry: Seq<char>) -> Seq<Seq<char>> {
    split_on(trim(entry), ';')
}

/// Whether the `j`-th part of the `i`-th entry of `value`, trimmed, is `rel="next"`.
pub open spec fn part_is_next(value: Seq<char>, i: int, j: int) -> bool {
    let entries = link_entries(value);
    &&& 0 <= i < entries.len()
    &&& 0 <= j < link_parts(entries[i]).len()
    &&& trim(link_parts(entries[i])[j]) == "rel=\"next\""@
}

/// Whether a `Link` header value points to a following page: some part of
/// some entry, trimmed, is exactly `rel="next"`.
pub open spec fn names_next_page(value: Seq<char>) -> bool {
    exists|i: int, j: int| #[trigger] part_is_next(value, i, j)
}

/// Whether the `Link` header value `value` points to a following page.
pub fn link_names_next_page(value: &str) -> (r: bool)
    ensures
        r == names_next_page(value@),
{
    let chars = chars_of(value);
    let target = chars_of("rel=\"next\"");
    let entries = split_chars(&chars, ',');
    let mut i: usize = 0;
    while i < entries.len()
        invariant
            chars@ == value@,
            target@ == "rel=\"next\""@,
            char_views(entries@) == link_entries(value@),
            i <= entries.len(),
            forall|a: int, b: int| 0 <= a < i ==> !#[trigger] part_is_next(value@, a, b),
        decreases entries.len() - i,
    {
        assert(entries@[i as int]@ == link_entries(value@)[i as int]);
        let entry = trim_chars(&entries[i]);
        let parts = split_chars(&entry, ';');
        let mut j: usize = 0;
        while j < parts.len()
            invariant
                target@ == "rel=\"next\""@,
                char_views(entries@) == link_entries(value@),
                i < entries.len(),
                char_views(parts@) == link_parts(link_entries(value@)[i as int]),
                j <= parts.len(),
                forall|b: int| 0 <= b < j ==> !#[trigger] part_is_next(value@, i as int, b),
            decreases parts.len() - j,
        {
            let part = trim_chars(&parts[j]);
            if same_chars(&part, &target) {
                assert(part_is_next(value@, i as int, j as int));
                return true;
            }
            j = j + 1;
        }
        assert forall|b: int| !#[trigger] part_is_next(value@, i as int, b) by {
            if 0 <= b < j {
            }
        }
        i = i + 1;
    }
    false
}


#[verifier::external_type_specification]
#[verifier::external_body]
#[verifier::reject_recursive_types(T)]
pub struct ExHeaderMap<T>(reqwest::header::HeaderMap<T>);

#[verifier::external_type_specification]
#[verifier::external_body]
pub struct ExHeaderValue(reqwest::header::HeaderValue);

/// What a header map holds: for each header name (in lower case), its values
/// in the order they were added, each as bytes.
pub uninterp spec fn header_entries(headers: HeaderMap) -> Map<Seq<char>, Seq<Seq<u8>>>;

/// The bytes of a header value.
pub uninterp spec fn header_value_bytes(value: HeaderValue) -> Seq<u8>;

/// Whether `name` is a header name in the form a header map keeps it: lower-case
/// ASCII letters, digits and hyphens, at least one.
pub open spec fn is_lowercase_header_name(name: Seq<char>) -> bool {
    &&& name.len() > 0
    &&& forall|i: int|
        0 <= i < name.len() ==> {
            let c = #[trigger] name[i];
            ('a' <= c && c <= 'z') || ('0' <= c && c <= '9') || c == '-'
        }
}

/// `HeaderMap::get(name)`: the first value kept under `name`, if any. The
/// contract claims what the source and documentation of `http` show: the value
/// returned is the first of those kept under the name, and there is none when
/// the name is absent.
#[verifier::external_body]
fn header_get<'a>(headers: &'a HeaderMap, name: &str) -> (r: Option<&'a HeaderValue>)
    requires
        is_lowercase_header_name(name@),
    ensures
        r is Some <==> (header_entries(*headers).contains_key(name@)
            && header_entries(*headers)[name@].len() > 0),
        r matches Some(v) ==> header_value_bytes(*v) == header_entries(*headers)[name@][0],
{
    headers.get(name)
}

/// Whether a header value byte is one `to_str` accepts: visible ASCII or a tab.
pub open spec fn is_visible_ascii(b: u8) -> bool {
    (32 <= b && b < 127) || b == 9
}

/// Bytes read one character each.
pub open spec fn ascii_text(bytes: Seq<u8>) -> Seq<char> {
    bytes.map_values(|b: u8| b as char)
}

/// `HeaderValue::to_str`, with its error dropped: the value as text when each
/// of its bytes is visible ASCII or a tab (the check in `http`'s source), and
/// nothing otherwise.
#[verifier::external_body]
fn header_text<'a>(value: &'a HeaderValue) -> (r: Option<&'a str>)
    ensures
        r is Some <==> (forall|i: int|
            0 <= i < header_value_bytes(*value).len() ==> is_visible_ascii(
                #[trigger] header_value_bytes(*value)[i],
            )),
        r matches Some(s) ==> s@ == ascii_text(header_value_bytes(*value)),
{
    value.to_str().ok()
}

/// Whether the headers of GitHub's answer point to a following page: the first
/// `Link` value is visible ASCII and names a part `rel="next"`.
pub open spec fn next_page_linked(headers: HeaderMap) -> bool {
    let entries = header_entries(headers);
    let link = entries["link"@][0];
    &&& entries.contains_key("link"@)
    &&& entries["link"@].len() > 0
    &&& forall|i: int| 0 <= i < link.len() ==> is_visible_ascii(#[trigger] link[i])
    &&& names_next_page(ascii_text(link))
}

/// Whether GitHub's answer says that another page of events follows.
pub fn next_page_exists(headers: &HeaderMap) -> (r: bool)
    ensures
        r == next_page_linked(*headers),
{
    proof {
        reveal_strlit("link");
    }
    match header_get(headers, "link") {
        Some(value) => match header_text(value) {
            Some(text) => link_names_next_page(text),
            None => false,
        },
        None => false,
    }
}


/// The kind of event GitHub's `type` field names, when it is one the tool shows.
pub open spec fn type_kind(event_type: Option<Seq<char>>) -> Option<EventKind> {
    match event_type {
        Some(t) => if t == "PushEvent"@ {
            Some(EventKind::Push)
        } else if t == "CreateEvent"@ {
            Some(EventKind::Create)
        } else if t == "DeleteEvent"@ {
            Some(EventKind::Delete)
        } else if t == "IssuesEvent"@ {
            Some(EventKind::Issues)
        } else if t == "IssueCommentEvent"@ {
            Some(EventKind::IssueComment)
        } else if t == "PullRequestEvent"@ {
            Some(EventKind::PullRequest)
        } else if t == "PullRequestReviewEvent"@ {
            Some(EventKind::PullRequestReview)
        } else if t == "ReleaseEvent"@ {
            Some(EventKind::Release)
        } else {
            None
        },
        None => None,
    }
}

/// The view of an optional text.
pub open spec fn opt_text(t: Option<&str>) -> Option<Seq<char>> {
    match t {
        Some(s) => Some(s@),
        None => None,
    }
}

/// The kind of event GitHub's `type` field names; none for the other types,
/// which the tool skips.
pub fn kind_for_type(event_type: Option<&str>) -> (r: Option<EventKind>)
    ensures
        r == type_kind(opt_text(event_type)),
{
    match event_type {
        Some(t) => {
            if same_text(t, "PushEvent") {
                Some(EventKind::Push)
            } else if same_text(t, "CreateEvent") {
                Some(EventKind::Create)
            } else if same_text(t, "DeleteEvent") {
                Some(EventKind::Delete)
            } else if same_text(t, "IssuesEvent") {
                Some(EventKind::Issues)
            } else if same_text(t, "IssueCommentEvent") {
                Some(EventKind::IssueComment)
            } else if same_text(t, "PullRequestEvent") {
                Some(EventKind::PullRequest)
            } else if same_text(t, "PullRequestReviewEvent") {
                Some(EventKind::PullRequestReview)
            } else if same_text(t, "ReleaseEvent") {
                Some(EventKind::Release)
            } else {
                None
            }
        },
        None => None,
    }
}

/// What became of one raw event from GitHub.
pub enum Conversion {
    /// An event of a kind the tool shows.
    Converted(Event),
    /// An event of a type the tool does not show.
    Unsupported,
    /// An event whose payload did not parse; the text says why.
    InvalidPayload(String),
}

/// The events of a page, in order, skipping unsupported ones; or the message of
/// the first payload that did not parse.
pub open spec fn page_result(items: Seq<Conversion>) -> Result<Seq<Event>, Seq<char>>
    decreases items.len(),
{
    if items.len() == 0 {
        Ok(seq![])
    } else {
        match page_result(items.drop_last()) {
            Err(m) => Err(m),
            Ok(events) => match items.last() {
                Conversion::Converted(e) => Ok(events.push(e)),
                Conversion::Unsupported => Ok(events),
                Conversion::InvalidPayload(m) => Err(m@),
            },
        }
    }
}

proof fn lemma_page_result_err_stays(items: Seq<Conversion>, k: int)
    requires
        0 <= k <= items.len(),
        page_result(items.take(k)) is Err,
    ensures
        page_result(items) == page_result(items.take(k)),
    decreases items.len() - k,
{
    if k == items.len() {
        assert(items.take(k) =~= items);
    } else {
        assert(items.take(k + 1).drop_last() =~= items.take(k));
        lemma_page_result_err_stays(items, k + 1);
    }
}

/// The events of a page, in order, skipping those of types the tool does not
/// show, or the message of the first payload that did not parse.
pub fn collect_page_events(items: Vec<Conversion>) -> (r: Result<Vec<Event>, String>)
    ensures
        match (r, page_result(items@)) {
            (Ok(events), Ok(expected)) => events@ == expected,
            (Err(m), Err(expected)) => m@ == expected,
            _ => false,
        },
{
    let ghost all = items@;
    let mut events: Vec<Event> = Vec::new();
    assert(all.take(0) =~= Seq::<Conversion>::empty());
    for item in it: items
        invariant
            it.seq() == all,
            page_result(all.take(it.index() as int)) == Ok::<Seq<Event>, Seq<char>>(events@),
    {
        proof {
            assert(all.take(it.index() + 1).drop_last() =~= all.take(it.index() as int));
        }
        match item {
            Conversion::Converted(event) => {
                events.push(event);
            },
            Conversion::Unsupported => {},
            Conversion::InvalidPayload(message) => {
                proof {
                    lemma_page_result_err_stays(all, it.index() + 1);
                }
                return Err(message);
            },
        }
    }
    assert(all.take(all.len() as int) =~= all);
    Ok(events)
}

/// The message for an event whose payload did not parse.
pub fn invalid_payload_message(id: &str, error: &str) -> (r: String)
    ensures
        r@ == "couldn't parse payload for event "@ + id@ + ": "@ + error@,
{
    let mut r = String::from_str("couldn't parse payload for event ");
    r.append(id);
    r.append(": ");
    r.append(error);
    r
}

/// Whether an HTTP status code reports success (200 to 299, as `StatusCode::is_success` says).
pub fn is_success_status(code: u16) -> (r: bool)
    ensures
        r == (200 <= code && code < 300),
{
    200 <= code && code < 300
}

/// The message for an answer from GitHub that reports failure.
pub fn github_error_message(status: &str, body: &str) -> (r: String)
    ensures
        r@ == "GitHub returned "@ + status@ + ": "@ + body@,
{
    let mut r = String::from_str("GitHub returned ");
    r.append(status);
    r.append(": ");
    r.append(body);
    r
}

} // verus!
