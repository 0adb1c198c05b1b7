//! The HTML page: the data a template is filled with, the choice of template,
//! and the filling itself, which `tera` does.

use vstd::prelude::*;

use crate::domain::events::{payload_kind, Event};
use crate::domain::timestamp::{valid_instant, Timestamp};
use crate::domain::user::Username;
use crate::output::presentation::{event_fragments, kind_name, EventPresentation, FragmentView};
use crate::output::HtmlTemplate;

verus! {

/// The format the HTML page writes instants in, for `chrono`'s `format`.
pub open spec fn html_time_format() -> Seq<char> {
    "%-d %b %Y · %H:%M UTC"@
}

/// What `chrono` writes for the instant `secs` seconds and `nanos` nanoseconds
/// after the Unix epoch, in UTC, with the format `fmt`.
pub uninterp spec fn chrono_utc_format(secs: int, nanos: int, fmt: Seq<char>) -> Seq<char>;

/// Writes an instant with `chrono`: `DateTime::<Utc>::from_timestamp(secs, nanos)`,
/// then `format(fmt).to_string()`. The contract claims that `from_timestamp`
/// accepts every valid instant (its source checks exactly the range and the
/// leap-second rule of `valid_instant`) and names what `format` writes; it is
/// asked only for the page's own format, which `chrono` always accepts, so the
/// `to_string` never fails.
#[verifier::external_body]
fn format_utc(secs: i64, nanos: u32, fmt: &str) -> (r: String)
    requires
        valid_instant(secs as int, nanos as int),
        fmt@ == html_time_format(),
    ensures
        r@ == chrono_utc_format(secs as int, nanos as int, fmt@),
{
    match chrono::DateTime::from_timestamp(secs, nanos) {
        Some(dt) => dt.format(fmt).to_string(),
        None => String::new(),
    }
}

/// An instant as the HTML page writes it.
pub open spec fn html_time(t: Timestamp) -> Seq<char> {
    chrono_utc_format(t.spec_secs(), t.spec_nanos(), html_time_format())
}

/// `t` written in the page's format.
pub fn html_timestamp(t: &Timestamp) -> (r: String)
    ensures
        r@ == html_time(*t),
{
    format_utc(t.secs(), t.nanos(), "%-d %b %Y · %H:%M UTC")
}

/// Who made the page.
pub struct Branding {
    pub tool_name: String,
    pub url: String,
}

/// A fragment of an event's description on the page.
pub struct HtmlFragment {
    pub text: String,
    pub url: Option<String>,
}

/// An event on the page.
pub struct HtmlEvent {
    pub event_kind: String,
    pub fragments: Vec<HtmlFragment>,
    pub timestamp: String,
}

/// Everything a template is filled with.
pub struct HtmlContext {
    pub branding: Branding,
    pub events: Vec<HtmlEvent>,
    pub timestamp: String,
    pub title: String,
    pub user_url: String,
    pub username: String,
}

/// The four built-in templates, as text.
pub struct HtmlTemplates {
    pub editorial: String,
    pub notebook: String,
    pub terminal: String,
    pub zine: String,
}

/// Whether `f` on the page shows the text and link of the fragment `v`.
pub open spec fn shows_fragment(f: HtmlFragment, v: FragmentView) -> bool {
    &&& f.text@ == v.text
    &&& match (f.url, v.url) {
        (Some(a), Some(b)) => a@ == b,
        (None, None) => true,
        _ => false,
    }
}

/// Whether `h` is how the page shows `event`: the name of its kind, its
/// fragments without details, and when it happened.
pub open spec fn shows_event(h: HtmlEvent, event: Event) -> bool {
    let frags = event_fragments(event);
    &&& h.event_kind@ == kind_name(payload_kind(event.payload))
    &&& h.fragments@.len() == frags.len()
    &&& forall|i: int| 0 <= i < frags.len() ==> shows_fragment(#[trigger] h.fragments@[i], frags[i])
    &&& h.timestamp@ == html_time(event.created_at)
}

/// The page labels each event with its own kind: a created ref "create", a
/// deleted ref "delete", a pull request "pull-request", a review
/// "pull-request-review", and so on for every payload.
pub proof fn lemma_page_labels(h: HtmlEvent, event: Event)
    requires
        shows_event(h, event),
    ensures
        event.payload is Push ==> h.event_kind@ == "push"@,
        event.payload is Create ==> h.event_kind@ == "create"@,
        event.payload is Delete ==> h.event_kind@ == "delete"@,
        event.payload is Issues ==> h.event_kind@ == "issues"@,
        event.payload is IssueComment ==> h.event_kind@ == "issue-comment"@,
        event.payload is PullRequest ==> h.event_kind@ == "pull-request"@,
        event.payload is PullRequestReview ==> h.event_kind@ == "pull-request-review"@,
        event.payload is Release ==> h.event_kind@ == "release"@,
{
}

/// The page's title for a user.
pub open spec fn page_title(username: Seq<char>) -> Seq<char> {
    "@"@ + username + " recent activity"@
}

/// The address of a user's profile.
pub open spec fn user_profile_url(username: Seq<char>) -> Seq<char> {
    "https://github.com/"@ + username
}

/// Whether `c` is what the page is filled with for `events` of `username`, at `reference`.
pub open spec fn fills_page(c: HtmlContext, events: Seq<Event>, reference: Timestamp, username: Seq<char>) -> bool {
    &&& c.branding.tool_name@ == "ghlog"@
    &&& c.branding.url@ == "https://github.com/dhth/ghlog"@
    &&& c.events@.len() == events.len()
    &&& forall|i: int| 0 <= i < events.len() ==> shows_event(#[trigger] c.events@[i], events[i])
    &&& c.timestamp@ == html_time(reference)
    &&& c.title@ == page_title(username)
    &&& c.user_url@ == user_profile_url(username)
    &&& c.username@ == username
}

impl HtmlEvent {
    /// How the page shows `event`.
    pub fn from(event: &Event) -> (r: HtmlEvent)
        ensures
            shows_event(r, *event),
    {
        let presentation = EventPresentation::from(event);
        let ghost frags = event_fragments(*event);
        let mut fragments: Vec<HtmlFragment> = Vec::new();
        let mut i: usize = 0;
        while i < presentation.fragments.len()
            invariant
                i <= presentation.fragments.len(),
                fragments.len() == i,
                frags.len() == presentation.fragments@.len(),
                forall|k: int| 0 <= k < frags.len() ==> frags[k] == (#[trigger] presentation.fragments@[k])@,
                forall|k: int| 0 <= k < i ==> shows_fragment(#[trigger] fragments@[k], frags[k]),
            decreases presentation.fragments.len() - i,
        {
            let f = &presentation.fragments[i];
            let url = match &f.url {
                Some(u) => Some(String::from_str(u.as_str())),
                None => None,
            };
            fragments.push(HtmlFragment { text: String::from_str(f.text.as_str()), url });
            i = i + 1;
        }
        HtmlEvent {
            event_kind: String::from_str(presentation.kind.name()),
            fragments,
            timestamp: html_timestamp(&event.created_at),
        }
    }
}

/// What the page is filled with for `events` of `username`, at `reference_time`.
pub fn context(events: &Vec<Event>, reference_time: &Timestamp, username: &Username) -> (r: HtmlContext)
    ensures
        fills_page(r, events@, *reference_time, username@),
{
    let mut html_events: Vec<HtmlEvent> = Vec::new();
    let mut i: usize = 0;
    while i < events.len()
        invariant
            i <= events.len(),
            html_events.len() == i,
            forall|k: int| 0 <= k < i ==> shows_event(#[trigger] html_events@[k], events@[k]),
        decreases events.len() - i,
    {
        html_events.push(HtmlEvent::from(&events[i]));
        i = i + 1;
    }
    let mut title = String::from_str("@");
    title.append(username.as_str());
    title.append(" recent activity");
    let mut user_url = String::from_str("https://github.com/");
    user_url.append(username.as_str());
    HtmlContext {
        branding: Branding {
            tool_name: String::from_str("ghlog"),
            url: String::from_str("https://github.com/dhth/ghlog"),
        },
        events: html_events,
        timestamp: html_timestamp(reference_time),
        title,
        user_url,
        username: String::from_str(username.as_str()),
    }
}

/// The text of a template.
pub open spec fn template_text(template: HtmlTemplate, templates: HtmlTemplates) -> Seq<char> {
    match template {
        HtmlTemplate::Editorial => templates.editorial@,
        HtmlTemplate::Notebook => templates.notebook@,
        HtmlTemplate::Terminal => templates.terminal@,
        HtmlTemplate::Zine => templates.zine@,
    }
}

/// The text of the chosen template.
pub fn template_contents(html_template: HtmlTemplate, templates: &HtmlTemplates) -> (r: &str)
    ensures
        r@ == template_text(html_template, *templates),
{
    match html_template {
        HtmlTemplate::Editorial => templates.editorial.as_str(),
        HtmlTemplate::Notebook => templates.notebook.as_str(),
        HtmlTemplate::Terminal => templates.terminal.as_str(),
        HtmlTemplate::Zine => templates.zine.as_str(),
    }
}


#[verifier::external_type_specification]
#[verifier::external_body]
pub struct ExTera(tera::Tera);

#[verifier::external_type_specification]
#[verifier::external_body]
pub struct ExTeraContext(tera::Context);

#[verifier::external_type_specification]
#[verifier::external_body]
pub struct ExTeraError(tera::Error);

/// Whether tera accepts `content` as a template kept under `name` in an engine
/// that holds no other template: whether it parses, and its inheritance and
/// components resolve within it.
pub uninterp spec fn tera_accepts_template(name: Seq<char>, content: Seq<char>) -> bool;

/// What tera made of a template and a context.
pub enum TeraOutcome {
    /// The filled page.
    Page(String),
    /// Tera did not accept the template; the text is tera's message.
    Rejected(String),
    /// Tera accepted the template but could not fill it; the text is tera's message.
    FillFailed(String),
}

/// `tera::Tera::default()`, then `add_raw_template(name, content)` on that
/// engine, then `render(name, context)` of that same template; each error as
/// its `Display` text. The contract names whether the template is accepted,
/// which depends on the two texts alone, as the engine starts with no other
/// template. It states nothing of which texts tera accepts (tera's grammar)
/// nor of the page: tera keeps context objects in hash maps seeded per
/// process, and templates may read the clock, so the page is not a function
/// of the arguments.
#[verifier::external_body]
fn fill(name: &str, content: &str, context: &tera::Context) -> (r: TeraOutcome)
    ensures
        r is Rejected <==> !tera_accepts_template(name@, content@),
{
    let mut engine = tera::Tera::default();
    match engine.add_raw_template(name, content) {
        Err(e) => TeraOutcome::Rejected(e.to_string()),
        Ok(()) => match engine.render(name, context) {
            Ok(page) => TeraOutcome::Page(page),
            Err(e) => TeraOutcome::FillFailed(e.to_string()),
        },
    }
}

/// Why the HTML page could not be written.
pub enum HtmlError {
    /// The template did not parse; the text is tera's message.
    Template(String),
    /// Filling the template failed; the text is tera's message.
    Render(String),
}

impl HtmlError {
    /// What the tool says happened, before tera's own message.
    pub fn message(&self) -> (r: &'static str)
        ensures
            r@ == match self {
                HtmlError::Template(_) => "failed to parse built-in HTML template"@,
                HtmlError::Render(_) => "failed to render HTML template"@,
            },
    {
        match self {
            HtmlError::Template(_) => "failed to parse built-in HTML template",
            HtmlError::Render(_) => "failed to render HTML template",
        }
    }

    /// Tera's own message.
    pub fn cause(&self) -> (r: &str)
        ensures
            r@ == match self {
                HtmlError::Template(m) => m@,
                HtmlError::Render(m) => m@,
            },
    {
        match self {
            HtmlError::Template(m) => m.as_str(),
            HtmlError::Render(m) => m.as_str(),
        }
    }
}

/// The result the tool gives for what tera made of the page.
pub open spec fn page_result(outcome: TeraOutcome) -> Result<Seq<char>, HtmlError> {
    match outcome {
        TeraOutcome::Page(page) => Ok(page@),
        TeraOutcome::Rejected(m) => Err(HtmlError::Template(m)),
        TeraOutcome::FillFailed(m) => Err(HtmlError::Render(m)),
    }
}

/// The page, or the error the tool reports, for what tera made of it.
pub fn page_of(outcome: TeraOutcome) -> (r: Result<String, HtmlError>)
    ensures
        match (r, page_result(outcome)) {
            (Ok(page), Ok(expected)) => page@ == expected,
            (Err(e), Err(expected)) => e == expected,
            _ => false,
        },
{
    match outcome {
        TeraOutcome::Page(page) => Ok(page),
        TeraOutcome::Rejected(m) => Err(HtmlError::Template(m)),
        TeraOutcome::FillFailed(m) => Err(HtmlError::Render(m)),
    }
}

/// The page: `template_source`, kept by tera under the name `template.html`
/// (so that tera escapes HTML in what it inserts), filled with `context`. The
/// template error comes exactly when tera does not accept the template; the
/// page and the fill error are tera's work, passed on by `page_of`.
pub fn render(template_source: &str, context: &tera::Context) -> (r: Result<String, HtmlError>)
    ensures
        r matches Err(HtmlError::Template(_)) <==> !tera_accepts_template(
            "template.html"@,
            template_source@,
        ),
{
    page_of(fill("template.html", template_source, context))
}

} // verus!
