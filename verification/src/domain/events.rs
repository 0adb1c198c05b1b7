//! GitHub events as the tool keeps them, the limit on how many are shown, and
//! which kinds and which visibility are asked for.

use vstd::prelude::*;

use crate::domain::timestamp::Timestamp;
use crate::domain::InputError;
use crate::output::presentation::EventKind;
use crate::text::{chars_of, decimal, decimal_string, has_prefix, starts_with_chars};

verus! {

/// The most events the tool shows at once.
pub const MAX_EVENT_LIMIT: usize = 300;

/// How many events to show: a number from 1 to 300.
#[derive(Clone, Copy)]
pub struct EventLimit {
    value: usize,
}

impl EventLimit {
    #[verifier::type_invariant]
    spec fn in_range(self) -> bool {
        1 <= self.value <= MAX_EVENT_LIMIT
    }

    /// The number this limit allows.
    pub closed spec fn spec_get(self) -> nat {
        self.value as nat
    }

    /// The limit `value`, refused unless it lies in 1 to 300.
    pub fn try_from(value: usize) -> (r: Result<EventLimit, InputError>)
        ensures
            r is Ok <==> 1 <= value <= MAX_EVENT_LIMIT,
            r matches Ok(l) ==> l.spec_get() == value,
            r matches Err(e) ==> e == InputError::LimitOutOfRange,
    {
        if 1 <= value && value <= MAX_EVENT_LIMIT {
            Ok(EventLimit { value })
        } else {
            Err(InputError::LimitOutOfRange)
        }
    }

    pub fn get(&self) -> (r: usize)
        ensures
            r == self.spec_get(),
            1 <= r <= MAX_EVENT_LIMIT,
    {
        proof {
            use_type_invariant(self);
        }
        self.value
    }
}

/// Whether private events visible to the authenticated user are asked for too.
#[derive(Debug, PartialEq, Eq, Structural, Clone, Copy)]
pub enum EventVisibility {
    PublicOnly,
    IncludePrivate,
}

/// The kinds of event a user asked to see.
pub struct EventKindFilter {
    kinds: Vec<EventKind>,
}

impl View for EventKindFilter {
    type V = Set<EventKind>;

    closed spec fn view(&self) -> Set<EventKind> {
        self.kinds@.to_set()
    }
}

impl EventKindFilter {
    /// A filter that lets the given kinds through, or none at all when no kind
    /// is given (every kind is then shown).
    pub fn from_event_kinds(kinds: Vec<EventKind>) -> (r: Option<EventKindFilter>)
        ensures
            r is Some <==> kinds@.len() > 0,
            r matches Some(f) ==> f@ == kinds@.to_set(),
    {
        if kinds.len() == 0 {
            None
        } else {
            Some(EventKindFilter { kinds })
        }
    }

    /// Whether events of `kind` pass the filter.
    pub fn matches(&self, kind: EventKind) -> (r: bool)
        ensures
            r == self@.contains(kind),
    {
        let mut i: usize = 0;
        while i < self.kinds.len()
            invariant
                i <= self.kinds@.len(),
                forall|k: int| 0 <= k < i ==> self.kinds@[k] != kind,
            decreases self.kinds.len() - i,
        {
            if self.kinds[i] == kind {
                assert(self.kinds@.contains(kind));
                return true;
            }
            i = i + 1;
        }
        assert(!self.kinds@.contains(kind));
        false
    }
}

/// A repository that an event happened in.
pub struct Repo {
    pub name: String,
    pub url: String,
}

/// The address of the repository named `name` on github.com.
pub open spec fn repo_html_url(name: Seq<char>) -> Seq<char> {
    "https://github.com/"@ + name
}

/// The address of `path` within the repository named `name`.
pub open spec fn repo_url_for(name: Seq<char>, path: Seq<char>) -> Seq<char> {
    repo_html_url(name) + "/"@ + path
}

impl Repo {
    pub fn html_url(&self) -> (r: String)
        ensures
            r@ == repo_html_url(self.name@),
    {
        let mut r = String::from_str("https://github.com/");
        r.append(self.name.as_str());
        r
    }

    pub fn url_for(&self, path: &str) -> (r: String)
        ensures
            r@ == repo_url_for(self.name@, path@),
    {
        let mut r = self.html_url();
        r.append("/");
        r.append(path);
        r
    }
}

/// A GitHub event the tool shows.
pub struct Event {
    pub id: String,
    pub repo: Repo,
    pub payload: EventPayload,
    pub created_at: Timestamp,
}

/// What happened in an event, by kind.
pub enum EventPayload {
    Push(PushEvent),
    Create(CreateEvent),
    Delete(DeleteEvent),
    IssueComment(IssueCommentEvent),
    Issues(IssuesEvent),
    PullRequest(PullRequestEvent),
    PullRequestReview(PullRequestReviewEvent),
    Release(ReleaseEvent),
}

/// The kind of a payload.
pub open spec fn payload_kind(p: EventPayload) -> EventKind {
    match p {
        EventPayload::Push(_) => EventKind::Push,
        EventPayload::Create(_) => EventKind::Create,
        EventPayload::Delete(_) => EventKind::Delete,
        EventPayload::IssueComment(_) => EventKind::IssueComment,
        EventPayload::Issues(_) => EventKind::Issues,
        EventPayload::PullRequest(_) => EventKind::PullRequest,
        EventPayload::PullRequestReview(_) => EventKind::PullRequestReview,
        EventPayload::Release(_) => EventKind::Release,
    }
}

/// The kind of an event is fixed by its payload: each payload variant has the
/// kind of the same name, and no other variant has that kind.
pub proof fn lemma_kind_of_payload(p: EventPayload)
    ensures
        p is Push <==> payload_kind(p) == EventKind::Push,
        p is Create <==> payload_kind(p) == EventKind::Create,
        p is Delete <==> payload_kind(p) == EventKind::Delete,
        p is IssueComment <==> payload_kind(p) == EventKind::IssueComment,
        p is Issues <==> payload_kind(p) == EventKind::Issues,
        p is PullRequest <==> payload_kind(p) == EventKind::PullRequest,
        p is PullRequestReview <==> payload_kind(p) == EventKind::PullRequestReview,
        p is Release <==> payload_kind(p) == EventKind::Release,
{
}

impl Event {
    /// The kind of this event.
    pub fn kind(&self) -> (r: EventKind)
        ensures
            r == payload_kind(self.payload),
    {
        match &self.payload {
            EventPayload::Push(_) => EventKind::Push,
            EventPayload::Create(_) => EventKind::Create,
            EventPayload::Delete(_) => EventKind::Delete,
            EventPayload::IssueComment(_) => EventKind::IssueComment,
            EventPayload::Issues(_) => EventKind::Issues,
            EventPayload::PullRequest(_) => EventKind::PullRequest,
            EventPayload::PullRequestReview(_) => EventKind::PullRequestReview,
            EventPayload::Release(_) => EventKind::Release,
        }
    }
}

pub struct PushEvent {
    pub git_ref: String,
    pub head: String,
    pub before: String,
}

/// A git ref without its `refs/heads/` or `refs/tags/` prefix.
pub open spec fn ref_short_name(git_ref: Seq<char>) -> Seq<char> {
    if has_prefix(git_ref, "refs/heads/"@) {
        git_ref.skip("refs/heads/"@.len() as int)
    } else if has_prefix(git_ref, "refs/tags/"@) {
        git_ref.skip("refs/tags/"@.len() as int)
    } else {
        git_ref
    }
}

/// The path of a branch or tag tree within a repository.
pub open spec fn tree_path(git_ref: Seq<char>) -> Seq<char> {
    "tree/"@ + ref_short_name(git_ref)
}

/// The path of a commit within a repository.
pub open spec fn commit_path_of(hash: Seq<char>) -> Seq<char> {
    "commit/"@ + hash
}

/// The path of a pull request within a repository.
pub open spec fn pull_path(number: u64) -> Seq<char> {
    "pull/"@ + decimal(number as nat)
}

/// The short name of a ref is what follows some prefix of it: dropping the
/// `refs/heads/` or `refs/tags/` prefix never changes the rest.
pub proof fn lemma_short_name_is_suffix(git_ref: Seq<char>)
    ensures
        ref_short_name(git_ref).len() <= git_ref.len(),
        ref_short_name(git_ref) == git_ref.skip(git_ref.len() - ref_short_name(git_ref).len()),
{
    if !has_prefix(git_ref, "refs/heads/"@) && !has_prefix(git_ref, "refs/tags/"@) {
        assert(git_ref.skip(0) =~= git_ref);
    }
}

/// `git_ref` without its `refs/heads/` or `refs/tags/` prefix, if it has one.
pub fn strip_git_ref_prefix(git_ref: &str) -> (r: &str)
    ensures
        r@ == ref_short_name(git_ref@),
{
    let v = chars_of(git_ref);
    if starts_with_chars(&v, "refs/heads/") {
        let n = chars_of("refs/heads/").len();
        git_ref.substring_char(n, v.len())
    } else if starts_with_chars(&v, "refs/tags/") {
        let n = chars_of("refs/tags/").len();
        git_ref.substring_char(n, v.len())
    } else {
        git_ref
    }
}

fn prefixed(prefix: &str, rest: &str) -> (r: String)
    ensures
        r@ == prefix@ + rest@,
{
    let mut r = String::from_str(prefix);
    r.append(rest);
    r
}

impl PushEvent {
    pub fn ref_name(&self) -> (r: &str)
        ensures
            r@ == ref_short_name(self.git_ref@),
    {
        strip_git_ref_prefix(self.git_ref.as_str())
    }

    pub fn ref_path(&self) -> (r: String)
        ensures
            r@ == tree_path(self.git_ref@),
    {
        prefixed("tree/", self.ref_name())
    }

    pub fn commit_path(&self) -> (r: String)
        ensures
            r@ == commit_path_of(self.head@),
    {
        prefixed("commit/", self.head.as_str())
    }
}

pub struct CreateEvent {
    pub git_ref: String,
    pub ref_type: String,
}

impl CreateEvent {
    pub fn ref_name(&self) -> (r: &str)
        ensures
            r@ == ref_short_name(self.git_ref@),
    {
        strip_git_ref_prefix(self.git_ref.as_str())
    }

    pub fn ref_path(&self) -> (r: String)
        ensures
            r@ == tree_path(self.git_ref@),
    {
        prefixed("tree/", self.ref_name())
    }
}

pub struct DeleteEvent {
    pub git_ref: String,
    pub ref_type: String,
}

impl DeleteEvent {
    pub fn ref_name(&self) -> (r: &str)
        ensures
            r@ == ref_short_name(self.git_ref@),
    {
        strip_git_ref_prefix(self.git_ref.as_str())
    }
}

pub struct IssuesEvent {
    pub action: String,
    pub issue: Issue,
}

pub struct IssueCommentEvent {
    pub action: String,
    pub issue: Issue,
    pub comment: IssueCommentComment,
}

pub struct Issue {
    pub number: u64,
    pub title: String,
    pub html_url: String,
}

pub struct IssueCommentComment {
    pub html_url: String,
}

pub struct PullRequestEvent {
    pub action: String,
    pub pull_request: PullRequest,
}

pub struct PullRequestRepo {
    pub name: String,
}

pub struct PullRequestBase {
    pub git_ref: String,
    pub repo: PullRequestRepo,
}

pub struct PullRequestHead {
    pub git_ref: String,
    pub repo: PullRequestRepo,
}

pub struct PullRequest {
    pub number: u64,
    pub base: PullRequestBase,
    pub head: PullRequestHead,
}

impl PullRequest {
    pub fn path(&self) -> (r: String)
        ensures
            r@ == pull_path(self.number),
    {
        let n = decimal_string(self.number);
        prefixed("pull/", n.as_str())
    }
}

pub struct PullRequestReviewEvent {
    pub action: String,
    pub review: PullRequestReview,
    pub pull_request: PullRequest,
}

pub struct PullRequestReview {
    pub state: String,
    pub html_url: String,
}

pub struct ReleaseEvent {
    pub action: String,
    pub release: Release,
}

pub struct Release {
    pub html_url: String,
    pub tag_name: String,
    pub prerelease: bool,
    pub draft: bool,
}

} // verus!
