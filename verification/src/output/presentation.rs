//! How each event is worded: its kind, its colour, its emoji and the fragments
//! of text (some of them links) that describe it.

use vstd::prelude::*;

use crate::domain::events::{
    commit_path_of, pull_path, ref_short_name, repo_html_url, repo_url_for, tree_path, Event,
    EventPayload, PullRequest, Release, ReleaseEvent, Repo,
};
use crate::domain::timestamp::{seconds_between, span_nanos, whole_seconds, Timestamp};
use crate::text::{byte_prefix_or_all, byte_prefix_or_whole, decimal, decimal_string, same_text};

verus! {

/// A colour of the terminal output.
#[derive(Debug, PartialEq, Eq, Structural, Clone, Copy)]
pub enum Color {
    Gray,
    Blue,
    Green,
    Yellow,
    Purple,
    Red,
}

/// The kinds of GitHub event the tool shows.
#[derive(Debug, PartialEq, Eq, Structural, Clone, Copy)]
pub enum EventKind {
    Push,
    Create,
    Delete,
    Issues,
    IssueComment,
    PullRequest,
    PullRequestReview,
    Release,
}

/// The name of a kind, as the HTML output labels it.
pub open spec fn kind_name(kind: EventKind) -> Seq<char> {
    match kind {
        EventKind::Push => "push"@,
        EventKind::Create => "create"@,
        EventKind::Delete => "delete"@,
        EventKind::Issues => "issues"@,
        EventKind::IssueComment => "issue-comment"@,
        EventKind::PullRequest => "pull-request"@,
        EventKind::PullRequestReview => "pull-request-review"@,
        EventKind::Release => "release"@,
    }
}

/// The emoji that opens a Markdown line for a kind.
pub open spec fn kind_emoji(kind: EventKind) -> Seq<char> {
    match kind {
        EventKind::Push => "⬆️"@,
        EventKind::Create => "🌱"@,
        EventKind::Delete => "🗑️"@,
        EventKind::Issues => "❗"@,
        EventKind::IssueComment => "💬"@,
        EventKind::PullRequest => "🔀"@,
        EventKind::PullRequestReview => "📝"@,
        EventKind::Release => "📦"@,
    }
}

/// The colour of a kind in the terminal output.
pub open spec fn kind_color(kind: EventKind) -> Color {
    match kind {
        EventKind::Push => Color::Blue,
        EventKind::Create => Color::Green,
        EventKind::Delete => Color::Red,
        EventKind::Issues => Color::Yellow,
        EventKind::IssueComment => Color::Yellow,
        EventKind::PullRequest => Color::Purple,
        EventKind::PullRequestReview => Color::Purple,
        EventKind::Release => Color::Green,
    }
}

impl EventKind {
    pub fn name(self) -> (r: &'static str)
        ensures
            r@ == kind_name(self),
    {
        match self {
            Self::Push => "push",
            Self::Create => "create",
            Self::Delete => "delete",
            Self::Issues => "issues",
            Self::IssueComment => "issue-comment",
            Self::PullRequest => "pull-request",
            Self::PullRequestReview => "pull-request-review",
            Self::Release => "release",
        }
    }

    pub fn emoji(self) -> (r: &'static str)
        ensures
            r@ == kind_emoji(self),
    {
        match self {
            Self::Push => "⬆️",
            Self::Create => "🌱",
            Self::Delete => "🗑️",
            Self::Issues => "❗",
            Self::IssueComment => "💬",
            Self::PullRequest => "🔀",
            Self::PullRequestReview => "📝",
            Self::Release => "📦",
        }
    }

    pub fn color(self) -> (r: Color)
        ensures
            r == kind_color(self),
    {
        match self {
            Self::Push => Color::Blue,
            Self::Create => Color::Green,
            Self::Delete => Color::Red,
            Self::Issues => Color::Yellow,
            Self::IssueComment => Color::Yellow,
            Self::PullRequest => Color::Purple,
            Self::PullRequestReview => Color::Purple,
            Self::Release => Color::Green,
        }
    }
}


/// A piece of an event's description: some text, perhaps a link, perhaps a
/// longer detail shown beside it.
pub struct Fragment {
    pub text: String,
    pub url: Option<String>,
    pub detail: Option<String>,
}

/// A fragment as plain values.
pub struct FragmentView {
    pub text: Seq<char>,
    pub url: Option<Seq<char>>,
    pub detail: Option<Seq<char>>,
}

/// The view of an optional string.
pub open spec fn opt_view(o: Option<String>) -> Option<Seq<char>> {
    match o {
        Some(s) => Some(s@),
        None => None,
    }
}

impl View for Fragment {
    type V = FragmentView;

    open spec fn view(&self) -> FragmentView {
        FragmentView { text: self.text@, url: opt_view(self.url), detail: opt_view(self.detail) }
    }
}

/// The views of a list of fragments.
pub open spec fn fragment_views(v: Seq<Fragment>) -> Seq<FragmentView> {
    v.map_values(|f: Fragment| f@)
}

/// Plain text.
pub open spec fn plain_text(t: Seq<char>) -> FragmentView {
    FragmentView { text: t, url: None, detail: None }
}

/// Text linking to `url`.
pub open spec fn link_to(t: Seq<char>, url: Seq<char>) -> FragmentView {
    FragmentView { text: t, url: Some(url), detail: None }
}

/// Text linking to `url`, with a detail.
pub open spec fn link_with(t: Seq<char>, url: Seq<char>, detail: Seq<char>) -> FragmentView {
    FragmentView { text: t, url: Some(url), detail: Some(detail) }
}

/// An event as it is shown: when it happened, its kind, and its description.
pub struct EventPresentation {
    pub created_at: Timestamp,
    pub kind: EventKind,
    pub fragments: Vec<Fragment>,
}

/// An event as it is shown, as plain values.
pub struct PresentationView {
    pub created_at: Timestamp,
    pub kind: EventKind,
    pub fragments: Seq<FragmentView>,
}

impl View for EventPresentation {
    type V = PresentationView;

    open spec fn view(&self) -> PresentationView {
        PresentationView {
            created_at: self.created_at,
            kind: self.kind,
            fragments: fragment_views(self.fragments@),
        }
    }
}

/// The views of a list of presentations.
pub open spec fn presentation_views(v: Seq<EventPresentation>) -> Seq<PresentationView> {
    v.map_values(|p: EventPresentation| p@)
}

/// How `event` is shown.
pub open spec fn presented(event: Event) -> PresentationView {
    PresentationView {
        created_at: event.created_at,
        kind: crate::domain::events::payload_kind(event.payload),
        fragments: event_fragments(event),
    }
}

/// The first seven bytes of a commit hash, or all of it when they do not end a character.
pub open spec fn short_hash(hash: Seq<char>) -> Seq<char> {
    byte_prefix_or_all(hash, 7)
}

/// `#` and the number of an issue or pull request.
pub open spec fn number_label(number: u64) -> Seq<char> {
    "#"@ + decimal(number as nat)
}

/// The branches a pull request merges: `base-repo:base-ref ← head-repo:head-ref`.
pub open spec fn refs_of(pr: PullRequest) -> Seq<char> {
    pr.base.repo.name@ + ":"@ + pr.base.git_ref@ + " ← "@ + pr.head.repo.name@ + ":"@
        + pr.head.git_ref@
}

/// What a release is called: a draft, a prerelease or a release.
pub open spec fn release_kind_text(release: Release) -> Seq<char> {
    if release.draft {
        "draft release"@
    } else if release.prerelease {
        "prerelease"@
    } else {
        "release"@
    }
}

/// The verb that describes a pull request review, by its action and state.
pub open spec fn review_verb(action: Seq<char>, state: Seq<char>) -> Seq<char> {
    if action == "created"@ {
        if state == "approved"@ {
            "approved"@
        } else if state == "changes_requested"@ {
            "requested changes in"@
        } else if state == "commented"@ {
            "commented on"@
        } else {
            "reviewed"@
        }
    } else if action == "dismissed"@ {
        "dismissed review on"@
    } else if action == "edited"@ {
        "edited review on"@
    } else {
        "reviewed"@
    }
}

/// The description of an event, fragment by fragment.
pub open spec fn event_fragments(event: Event) -> Seq<FragmentView> {
    let name = event.repo.name@;
    let in_repo = link_to(name, repo_html_url(name));
    match event.payload {
        EventPayload::Push(push) => seq![
            plain_text("pushed"@),
            link_to(short_hash(push.head@), repo_url_for(name, commit_path_of(push.head@))),
            plain_text("to"@),
            link_to(ref_short_name(push.git_ref@), repo_url_for(name, tree_path(push.git_ref@))),
            plain_text("in"@),
            in_repo,
        ],
        EventPayload::Create(create) => seq![
            plain_text("created"@),
            plain_text(create.ref_type@),
            link_to(ref_short_name(create.git_ref@), repo_url_for(name, tree_path(create.git_ref@))),
            plain_text("in"@),
            in_repo,
        ],
        EventPayload::Delete(delete) => seq![
            plain_text("deleted"@),
            plain_text(delete.ref_type@),
            plain_text(ref_short_name(delete.git_ref@)),
            plain_text("in"@),
            in_repo,
        ],
        EventPayload::Issues(issue) => seq![
            plain_text(issue.action@),
            plain_text("issue"@),
            link_with(number_label(issue.issue.number), issue.issue.html_url@, issue.issue.title@),
            plain_text("in"@),
            in_repo,
        ],
        EventPayload::IssueComment(comment) => seq![
            plain_text("commented on issue"@),
            link_with(
                number_label(comment.issue.number),
                comment.issue.html_url@,
                comment.issue.title@,
            ),
            plain_text("in"@),
            in_repo,
        ],
        EventPayload::PullRequest(pr) => seq![
            plain_text(pr.action@),
            plain_text("pull request"@),
            link_with(
                number_label(pr.pull_request.number),
                repo_url_for(name, pull_path(pr.pull_request.number)),
                refs_of(pr.pull_request),
            ),
            plain_text("in"@),
            in_repo,
        ],
        EventPayload::PullRequestReview(review) => seq![
            link_to(review_verb(review.action@, review.review.state@), review.review.html_url@),
            plain_text("pull request"@),
            link_with(
                number_label(review.pull_request.number),
                repo_url_for(name, pull_path(review.pull_request.number)),
                refs_of(review.pull_request),
            ),
            plain_text("in"@),
            in_repo,
        ],
        EventPayload::Release(release) => seq![
            plain_text(release.action@),
            plain_text(release_kind_text(release.release)),
            link_to(release.release.tag_name@, release.release.html_url@),
            plain_text("in"@),
            in_repo,
        ],
    }
}

/// Every description ends with the word "in" and a link to the event's repository.
pub proof fn lemma_description_ends_in_repo(event: Event)
    ensures
        event_fragments(event).len() >= 4,
        event_fragments(event).last() == link_to(event.repo.name@, repo_html_url(event.repo.name@)),
        event_fragments(event)[event_fragments(event).len() - 2] == plain_text("in"@),
{
}

/// An event is presented with its payload's kind, and each kind carries its own
/// label: a push is labelled "push", a created ref "create", a deleted ref
/// "delete", and so on, and a pull request event is presented as a pull
/// request and only such an event is.
pub proof fn lemma_kind_labels(event: Event)
    ensures
        presented(event).kind == EventKind::PullRequest <==> event.payload is PullRequest,
        presented(event).kind == EventKind::PullRequestReview <==> event.payload is PullRequestReview,
        event.payload is Push ==> kind_name(presented(event).kind) == "push"@,
        event.payload is Create ==> kind_name(presented(event).kind) == "create"@,
        event.payload is Delete ==> kind_name(presented(event).kind) == "delete"@,
        event.payload is Issues ==> kind_name(presented(event).kind) == "issues"@,
        event.payload is IssueComment ==> kind_name(presented(event).kind) == "issue-comment"@,
        event.payload is PullRequest ==> kind_name(presented(event).kind) == "pull-request"@,
        event.payload is PullRequestReview ==> kind_name(presented(event).kind)
            == "pull-request-review"@,
        event.payload is Release ==> kind_name(presented(event).kind) == "release"@,
{
}

/// Issues, pull requests and releases are described starting with what was
/// done, in GitHub's own word for it: the first fragment is the event's
/// action, as plain text, whatever that action is.
pub proof fn lemma_action_comes_first(event: Event)
    ensures
        event.payload matches EventPayload::Issues(i) ==> presented(event).fragments[0] == (
        FragmentView { text: i.action@, url: None, detail: None }),
        event.payload matches EventPayload::PullRequest(pr) ==> presented(event).fragments[0] == (
        FragmentView { text: pr.action@, url: None, detail: None }),
        event.payload matches EventPayload::Release(r) ==> presented(event).fragments[0] == (
        FragmentView { text: r.action@, url: None, detail: None }),
{
}

/// Different kinds have different names, so the HTML page tells them apart.
pub proof fn lemma_kind_names_distinct(a: EventKind, b: EventKind)
    ensures
        a != b ==> kind_name(a) != kind_name(b),
{
    reveal_strlit("push");
    reveal_strlit("create");
    reveal_strlit("delete");
    reveal_strlit("issues");
    reveal_strlit("issue-comment");
    reveal_strlit("pull-request");
    reveal_strlit("pull-request-review");
    reveal_strlit("release");
    if a != b {
        if kind_name(a).len() == kind_name(b).len() {
            assert(kind_name(a)[0] != kind_name(b)[0] || kind_name(a)[1] != kind_name(b)[1]);
        }
    }
}

fn owned(s: &str) -> (r: String)
    ensures
        r@ == s@,
{
    String::from_str(s)
}

fn text(words: String) -> (r: Fragment)
    ensures
        r@ == plain_text(words@),
{
    Fragment { text: words, url: None, detail: None }
}

fn link(words: String, url: String) -> (r: Fragment)
    ensures
        r@ == link_to(words@, url@),
{
    Fragment { text: words, url: Some(url), detail: None }
}

fn link_with_detail(words: String, url: String, detail: String) -> (r: Fragment)
    ensures
        r@ == link_with(words@, url@, detail@),
{
    Fragment { text: words, url: Some(url), detail: Some(detail) }
}

/// The branches a pull request merges, written `base-repo:base-ref ← head-repo:head-ref`.
pub fn pull_request_refs(pull_request: &PullRequest) -> (r: String)
    ensures
        r@ == refs_of(*pull_request),
{
    let mut r = owned(pull_request.base.repo.name.as_str());
    r.append(":");
    r.append(pull_request.base.git_ref.as_str());
    r.append(" ← ");
    r.append(pull_request.head.repo.name.as_str());
    r.append(":");
    r.append(pull_request.head.git_ref.as_str());
    r
}

/// What a release is called.
pub fn release_kind(release_event: &ReleaseEvent) -> (r: &'static str)
    ensures
        r@ == release_kind_text(release_event.release),
{
    if release_event.release.draft {
        "draft release"
    } else if release_event.release.prerelease {
        "prerelease"
    } else {
        "release"
    }
}

/// The first seven bytes of a commit hash (the whole hash when they do not end a character).
pub fn shorten_commit_hash(hash: &str) -> (r: &str)
    ensures
        r@ == short_hash(hash@),
{
    byte_prefix_or_whole(hash, 7)
}

/// The verb for a pull request review with the given action and state.
pub fn pull_request_review_verb(action: &str, state: &str) -> (r: &'static str)
    ensures
        r@ == review_verb(action@, state@),
{
    if same_text(action, "created") {
        if same_text(state, "approved") {
            "approved"
        } else if same_text(state, "changes_requested") {
            "requested changes in"
        } else if same_text(state, "commented") {
            "commented on"
        } else {
            "reviewed"
        }
    } else if same_text(action, "dismissed") {
        "dismissed review on"
    } else if same_text(action, "edited") {
        "edited review on"
    } else {
        "reviewed"
    }
}

fn number_text(number: u64) -> (r: String)
    ensures
        r@ == number_label(number),
{
    let digits = decimal_string(number);
    let mut r = owned("#");
    r.append(digits.as_str());
    r
}

fn repo_link(repo: &Repo) -> (r: Fragment)
    ensures
        r@ == link_to(repo.name@, repo_html_url(repo.name@)),
{
    link(owned(repo.name.as_str()), repo.html_url())
}

impl EventPresentation {
    /// How `event` is shown.
    pub fn from(event: &Event) -> (r: EventPresentation)
        ensures
            r@ == presented(*event),
    {
        let repo = &event.repo;
        let (kind, fragments) = match &event.payload {
            EventPayload::Push(push) => {
                let head = owned(shorten_commit_hash(push.head.as_str()));
                let fragments = vec![
                    text(owned("pushed")),
                    link(head, repo.url_for(push.commit_path().as_str())),
                    text(owned("to")),
                    link(owned(push.ref_name()), repo.url_for(push.ref_path().as_str())),
                    text(owned("in")),
                    repo_link(repo),
                ];
                (EventKind::Push, fragments)
            },
            EventPayload::Create(create) => {
                let fragments = vec![
                    text(owned("created")),
                    text(owned(create.ref_type.as_str())),
                    link(owned(create.ref_name()), repo.url_for(create.ref_path().as_str())),
                    text(owned("in")),
                    repo_link(repo),
                ];
                (EventKind::Create, fragments)
            },
            EventPayload::Delete(delete) => {
                let fragments = vec![
                    text(owned("deleted")),
                    text(owned(delete.ref_type.as_str())),
                    text(owned(delete.ref_name())),
                    text(owned("in")),
                    repo_link(repo),
                ];
                (EventKind::Delete, fragments)
            },
            EventPayload::Issues(issue) => {
                let fragments = vec![
                    text(owned(issue.action.as_str())),
                    text(owned("issue")),
                    link_with_detail(
                        number_text(issue.issue.number),
                        owned(issue.issue.html_url.as_str()),
                        owned(issue.issue.title.as_str()),
                    ),
                    text(owned("in")),
                    repo_link(repo),
                ];
                (EventKind::Issues, fragments)
            },
            EventPayload::IssueComment(comment) => {
                let fragments = vec![
                    text(owned("commented on issue")),
                    link_with_detail(
                        number_text(comment.issue.number),
                        owned(comment.issue.html_url.as_str()),
                        owned(comment.issue.title.as_str()),
                    ),
                    text(owned("in")),
                    repo_link(repo),
                ];
                (EventKind::IssueComment, fragments)
            },
            EventPayload::PullRequest(pr) => {
                let fragments = vec![
                    text(owned(pr.action.as_str())),
                    text(owned("pull request")),
                    link_with_detail(
                        number_text(pr.pull_request.number),
                        repo.url_for(pr.pull_request.path().as_str()),
                        pull_request_refs(&pr.pull_request),
                    ),
                    text(owned("in")),
                    repo_link(repo),
                ];
                (EventKind::PullRequest, fragments)
            },
            EventPayload::PullRequestReview(review) => {
                let verb = pull_request_review_verb(
                    review.action.as_str(),
                    review.review.state.as_str(),
                );
                let fragments = vec![
                    link(owned(verb), owned(review.review.html_url.as_str())),
                    text(owned("pull request")),
                    link_with_detail(
                        number_text(review.pull_request.number),
                        repo.url_for(review.pull_request.path().as_str()),
                        pull_request_refs(&review.pull_request),
                    ),
                    text(owned("in")),
                    repo_link(repo),
                ];
                (EventKind::PullRequestReview, fragments)
            },
            EventPayload::Release(release) => {
                let fragments = vec![
                    text(owned(release.action.as_str())),
                    text(owned(release_kind(release))),
                    link(
                        owned(release.release.tag_name.as_str()),
                        owned(release.release.html_url.as_str()),
                    ),
                    text(owned("in")),
                    repo_link(repo),
                ];
                (EventKind::Release, fragments)
            },
        };
        proof {
            assert(fragment_views(fragments@) =~= event_fragments(*event));
        }
        EventPresentation { created_at: event.created_at, kind, fragments }
    }
}

/// How long ago an event happened, in words, from the whole seconds elapsed.
pub open spec fn humanized(seconds: int) -> Seq<char> {
    if seconds < 0 {
        "-"@
    } else if seconds < 60 {
        "just now"@
    } else if seconds / 60 < 60 {
        decimal((seconds / 60) as nat) + "m ago"@
    } else if seconds / 3600 < 24 {
        decimal((seconds / 3600) as nat) + "h ago"@
    } else {
        decimal((seconds / 86400) as nat) + "d ago"@
    }
}

/// How long before `reference` the instant `dt` was, in words.
pub fn humanized_date(dt: &Timestamp, reference: &Timestamp) -> (r: String)
    ensures
        r@ == humanized(whole_seconds(span_nanos(*reference, *dt))),
{
    let seconds = seconds_between(reference, dt);
    if seconds < 0 {
        return owned("-");
    }
    if seconds < 60 {
        return owned("just now");
    }
    let minutes = seconds / 60;
    if minutes < 60 {
        let mut r = decimal_string(minutes as u64);
        r.append("m ago");
        return r;
    }
    let hours = seconds / 3600;
    if hours < 24 {
        let mut r = decimal_string(hours as u64);
        r.append("h ago");
        return r;
    }
    let mut r = decimal_string((seconds / 86400) as u64);
    r.append("d ago");
    r
}

} // verus!
