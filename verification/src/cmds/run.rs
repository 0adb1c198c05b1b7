//! A run of the tool: the pages to fetch, and once they are in, what to show.
//! The caller does the fetching, takes the time and prints; the session decides.

use vstd::prelude::*;

use crate::domain::events::{EventKindFilter, EventLimit, EventVisibility};
use crate::domain::timestamp::Timestamp;
use crate::domain::user::Username;
use crate::output::{render, renders, OutputFormat, Rendered};
use crate::service::github::{filter_view, first_n, CollectStep, EventCollector, GithubPage};

verus! {

/// A run for one user: it collects events page by page, then renders them.
pub struct RunSession {
    username: Username,
    event_visibility: EventVisibility,
    output_format: OutputFormat,
    collector: EventCollector,
}

impl RunSession {
    /// The session's collector is consistent with the pages it has received.
    pub closed spec fn wf(self) -> bool {
        self.collector.wf()
    }

    /// The collector of the session.
    pub closed spec fn collector(self) -> EventCollector {
        self.collector
    }

    /// The user whose events are shown.
    pub closed spec fn user(self) -> Seq<char> {
        self.username@
    }

    /// Whether private events are asked for too.
    pub closed spec fn visibility(self) -> EventVisibility {
        self.event_visibility
    }

    /// The output format.
    pub closed spec fn format(self) -> OutputFormat {
        self.output_format
    }

    /// The events that will be shown: the first `limit` events received whose
    /// kind passes the filter.
    pub open spec fn shown(self) -> Seq<crate::domain::events::Event> {
        first_n(self.collector().kept_so_far(), self.collector().limit())
    }

    /// A session that has fetched nothing yet.
    pub fn new(
        username: Username,
        limit: EventLimit,
        event_kind_filter: Option<EventKindFilter>,
        event_visibility: EventVisibility,
        output_format: OutputFormat,
    ) -> (r: RunSession)
        ensures
            r.wf(),
            r.user() == username@,
            r.visibility() == event_visibility,
            r.format() == output_format,
            r.collector().pages() == Seq::<Seq<crate::domain::events::Event>>::empty(),
            r.collector().limit() == limit.spec_get(),
            r.collector().kinds() == filter_view(event_kind_filter),
            !r.collector().finished(),
    {
        RunSession {
            username,
            event_visibility,
            output_format,
            collector: EventCollector::new(limit, event_kind_filter),
        }
    }

    pub fn username(&self) -> (r: &Username)
        ensures
            r@ == self.user(),
    {
        &self.username
    }

    pub fn event_visibility(&self) -> (r: EventVisibility)
        ensures
            r == self.visibility(),
    {
        self.event_visibility
    }

    /// What to do next: fetch a page, or stop fetching.
    pub fn next_step(&self) -> (r: CollectStep)
        requires
            self.wf(),
        ensures
            self.collector().finished() ==> r == CollectStep::Done,
            !self.collector().finished() ==> r == CollectStep::Fetch(
                (self.collector().pages().len() + 1) as usize,
            ),
    {
        self.collector.next_step()
    }

    /// Takes in the page last asked for and says what to do next.
    pub fn receive(&mut self, page: GithubPage) -> (r: CollectStep)
        requires
            old(self).wf(),
            !old(self).collector().finished(),
            old(self).collector().pages().len() + 1 < usize::MAX,
        ensures
            final(self).wf(),
            final(self).user() == old(self).user(),
            final(self).visibility() == old(self).visibility(),
            final(self).format() == old(self).format(),
            final(self).collector().pages() == old(self).collector().pages().push(page.events@),
            final(self).collector().limit() == old(self).collector().limit(),
            final(self).collector().kinds() == old(self).collector().kinds(),
            final(self).collector().finished() == (final(self).collector().kept_so_far().len()
                >= final(self).collector().limit() || !page.has_next_page),
            final(self).collector().finished() ==> r == CollectStep::Done,
            !final(self).collector().finished() ==> r == CollectStep::Fetch(
                (old(self).collector().pages().len() + 2) as usize,
            ),
    {
        self.collector.receive(page)
    }

    /// What the run shows once fetching is over: nothing when no event was
    /// collected, else the collected events rendered in the session's format,
    /// their ages taken at `reference_time`.
    pub fn finish(self, reference_time: Timestamp) -> (r: Option<Rendered>)
        requires
            self.wf(),
        ensures
            r is None <==> self.shown().len() == 0,
            r matches Some(out) ==> renders(
                out,
                self.shown(),
                reference_time,
                self.format(),
                self.user(),
            ),
    {
        let events = self.collector.into_events();
        if events.len() == 0 {
            return None;
        }
        Some(render(&events, reference_time, self.output_format, &self.username))
    }
}

} // verus!
