use ghlog::domain::events::{
    CreateEvent, DeleteEvent, Event, EventPayload, Issue, IssueCommentComment, IssueCommentEvent,
    IssuesEvent, PullRequest, PullRequestBase, PullRequestEvent, PullRequestHead,
    PullRequestRepo, PullRequestReview, PullRequestReviewEvent, PushEvent, Release,
    ReleaseEvent, Repo,
};
use ghlog::domain::timestamp::Timestamp;
use ghlog::domain::user::Username;
use ghlog::output::html::{self, HtmlError, HtmlEvent, HtmlTemplates, TeraOutcome};
use ghlog::output::presentation::{
    humanized_date, pull_request_review_verb, release_kind, shorten_commit_hash, Color,
    EventKind, EventPresentation,
};
use ghlog::output::{markdown, plain, render, terminal, HtmlTemplate, OutputFormat, Rendered};

const NOW: i64 = 1_700_000_000;

fn at(secs: i64) -> Timestamp {
    Timestamp::new(secs, 0).unwrap()
}

fn repo() -> Repo {
    Repo {
        name: "dhth/ghlog".to_string(),
        url: "https://api.github.com/repos/dhth/ghlog".to_string(),
    }
}

fn event(payload: EventPayload, created_at: i64) -> Event {
    Event { id: "1".to_string(), repo: repo(), payload, created_at: at(created_at) }
}

fn push_event(created_at: i64) -> Event {
    event(
        EventPayload::Push(PushEvent {
            git_ref: "refs/heads/main".to_string(),
            head: "0123456789abcdef".to_string(),
            before: "fedcba9876543210".to_string(),
        }),
        created_at,
    )
}

fn pull_request(number: u64) -> PullRequest {
    PullRequest {
        number,
        base: PullRequestBase {
            git_ref: "main".to_string(),
            repo: PullRequestRepo { name: "dhth/ghlog".to_string() },
        },
        head: PullRequestHead {
            git_ref: "fix".to_string(),
            repo: PullRequestRepo { name: "someone/ghlog".to_string() },
        },
    }
}

fn parts(p: &EventPresentation) -> Vec<(String, Option<String>, Option<String>)> {
    p.fragments.iter().map(|f| (f.text.clone(), f.url.clone(), f.detail.clone())).collect()
}

fn t(s: &str) -> (String, Option<String>, Option<String>) {
    (s.to_string(), None, None)
}

fn l(s: &str, u: &str) -> (String, Option<String>, Option<String>) {
    (s.to_string(), Some(u.to_string()), None)
}

fn d(s: &str, u: &str, x: &str) -> (String, Option<String>, Option<String>) {
    (s.to_string(), Some(u.to_string()), Some(x.to_string()))
}

const REPO_URL: &str = "https://github.com/dhth/ghlog";

#[test]
fn kinds_have_names_emojis_and_colors() {
    assert_eq!(EventKind::Push.name(), "push");
    assert_eq!(EventKind::IssueComment.name(), "issue-comment");
    assert_eq!(EventKind::PullRequestReview.name(), "pull-request-review");
    assert_eq!(EventKind::Push.emoji(), "⬆️");
    assert_eq!(EventKind::Delete.emoji(), "🗑️");
    assert_eq!(EventKind::Release.emoji(), "📦");
    assert_eq!(EventKind::Push.color(), Color::Blue);
    assert_eq!(EventKind::Delete.color(), Color::Red);
    assert_eq!(EventKind::IssueComment.color(), Color::Yellow);
    assert_eq!(EventKind::PullRequestReview.color(), Color::Purple);
    assert_eq!(EventKind::Release.color(), Color::Green);
}

#[test]
fn push_is_described_with_links() {
    let p = EventPresentation::from(&push_event(NOW));
    assert_eq!(p.kind, EventKind::Push);
    assert_eq!(p.created_at.secs(), NOW);
    assert_eq!(
        parts(&p),
        vec![
            t("pushed"),
            l("0123456", "https://github.com/dhth/ghlog/commit/0123456789abcdef"),
            t("to"),
            l("main", "https://github.com/dhth/ghlog/tree/main"),
            t("in"),
            l("dhth/ghlog", REPO_URL),
        ]
    );
}

#[test]
fn create_and_delete_are_described() {
    let create = EventPresentation::from(&event(
        EventPayload::Create(CreateEvent {
            git_ref: "refs/tags/v1".to_string(),
            ref_type: "tag".to_string(),
        }),
        NOW,
    ));
    assert_eq!(
        parts(&create),
        vec![
            t("created"),
            t("tag"),
            l("v1", "https://github.com/dhth/ghlog/tree/v1"),
            t("in"),
            l("dhth/ghlog", REPO_URL),
        ]
    );
    let delete = EventPresentation::from(&event(
        EventPayload::Delete(DeleteEvent {
            git_ref: "old".to_string(),
            ref_type: "branch".to_string(),
        }),
        NOW,
    ));
    assert_eq!(delete.kind, EventKind::Delete);
    assert_eq!(
        parts(&delete),
        vec![t("deleted"), t("branch"), t("old"), t("in"), l("dhth/ghlog", REPO_URL)]
    );
}

#[test]
fn issues_are_described_with_their_title() {
    let issue = Issue {
        number: 42,
        title: "It breaks".to_string(),
        html_url: "https://github.com/dhth/ghlog/issues/42".to_string(),
    };
    let opened = EventPresentation::from(&event(
        EventPayload::Issues(IssuesEvent { action: "opened".to_string(), issue }),
        NOW,
    ));
    assert_eq!(
        parts(&opened),
        vec![
            t("opened"),
            t("issue"),
            d("#42", "https://github.com/dhth/ghlog/issues/42", "It breaks"),
            t("in"),
            l("dhth/ghlog", REPO_URL),
        ]
    );
    let comment = EventPresentation::from(&event(
        EventPayload::IssueComment(IssueCommentEvent {
            action: "created".to_string(),
            issue: Issue {
                number: 7,
                title: "Question".to_string(),
                html_url: "https://github.com/dhth/ghlog/issues/7".to_string(),
            },
            comment: IssueCommentComment {
                html_url: "https://github.com/dhth/ghlog/issues/7#c".to_string(),
            },
        }),
        NOW,
    ));
    assert_eq!(comment.kind, EventKind::IssueComment);
    assert_eq!(
        parts(&comment),
        vec![
            t("commented on issue"),
            d("#7", "https://github.com/dhth/ghlog/issues/7", "Question"),
            t("in"),
            l("dhth/ghlog", REPO_URL),
        ]
    );
}

#[test]
fn pull_requests_and_reviews_are_described() {
    let pr = EventPresentation::from(&event(
        EventPayload::PullRequest(PullRequestEvent {
            action: "merged".to_string(),
            pull_request: pull_request(9),
        }),
        NOW,
    ));
    assert_eq!(
        parts(&pr),
        vec![
            t("merged"),
            t("pull request"),
            d(
                "#9",
                "https://github.com/dhth/ghlog/pull/9",
                "dhth/ghlog:main ← someone/ghlog:fix"
            ),
            t("in"),
            l("dhth/ghlog", REPO_URL),
        ]
    );
    let review = EventPresentation::from(&event(
        EventPayload::PullRequestReview(PullRequestReviewEvent {
            action: "created".to_string(),
            review: PullRequestReview {
                state: "changes_requested".to_string(),
                html_url: "https://github.com/dhth/ghlog/pull/9#r".to_string(),
            },
            pull_request: pull_request(9),
        }),
        NOW,
    ));
    assert_eq!(review.kind, EventKind::PullRequestReview);
    assert_eq!(
        parts(&review),
        vec![
            l("requested changes in", "https://github.com/dhth/ghlog/pull/9#r"),
            t("pull request"),
            d(
                "#9",
                "https://github.com/dhth/ghlog/pull/9",
                "dhth/ghlog:main ← someone/ghlog:fix"
            ),
            t("in"),
            l("dhth/ghlog", REPO_URL),
        ]
    );
}

fn release_event(draft: bool, prerelease: bool) -> ReleaseEvent {
    ReleaseEvent {
        action: "published".to_string(),
        release: Release {
            html_url: "https://github.com/dhth/ghlog/releases/tag/v1".to_string(),
            tag_name: "v1".to_string(),
            prerelease,
            draft,
        },
    }
}

#[test]
fn releases_are_described_by_their_kind() {
    assert_eq!(release_kind(&release_event(true, true)), "draft release");
    assert_eq!(release_kind(&release_event(false, true)), "prerelease");
    assert_eq!(release_kind(&release_event(false, false)), "release");
    let p = EventPresentation::from(&event(EventPayload::Release(release_event(false, true)), NOW));
    assert_eq!(
        parts(&p),
        vec![
            t("published"),
            t("prerelease"),
            l("v1", "https://github.com/dhth/ghlog/releases/tag/v1"),
            t("in"),
            l("dhth/ghlog", REPO_URL),
        ]
    );
}

#[test]
fn review_verbs() {
    assert_eq!(pull_request_review_verb("created", "approved"), "approved");
    assert_eq!(pull_request_review_verb("created", "changes_requested"), "requested changes in");
    assert_eq!(pull_request_review_verb("created", "commented"), "commented on");
    assert_eq!(pull_request_review_verb("created", "pending"), "reviewed");
    assert_eq!(pull_request_review_verb("dismissed", "approved"), "dismissed review on");
    assert_eq!(pull_request_review_verb("edited", "commented"), "edited review on");
    assert_eq!(pull_request_review_verb("submitted", "approved"), "reviewed");
}

#[test]
fn commit_hashes_are_shortened_to_seven_bytes() {
    assert_eq!(shorten_commit_hash("0123456789abcdef"), "0123456");
    assert_eq!(shorten_commit_hash("0123456"), "0123456");
    assert_eq!(shorten_commit_hash("012345"), "012345");
    assert_eq!(shorten_commit_hash(""), "");
    // seven bytes that end inside a character: the whole hash is kept
    assert_eq!(shorten_commit_hash("012345é9"), "012345é9");
    // seven bytes that end a two-byte character
    assert_eq!(shorten_commit_hash("01234é9"), "01234é");
}

#[test]
fn ages_in_words() {
    let now = at(NOW);
    assert_eq!(humanized_date(&at(NOW), &now), "just now");
    assert_eq!(humanized_date(&at(NOW - 59), &now), "just now");
    assert_eq!(humanized_date(&at(NOW - 60), &now), "1m ago");
    assert_eq!(humanized_date(&at(NOW - 3599), &now), "59m ago");
    assert_eq!(humanized_date(&at(NOW - 3600), &now), "1h ago");
    assert_eq!(humanized_date(&at(NOW - 86399), &now), "23h ago");
    assert_eq!(humanized_date(&at(NOW - 86400), &now), "1d ago");
    assert_eq!(humanized_date(&at(NOW - 86400 * 400), &now), "400d ago");
    assert_eq!(humanized_date(&at(NOW + 1), &now), "-");
    let half_second_later = Timestamp::new(NOW, 500_000_000).unwrap();
    assert_eq!(humanized_date(&half_second_later, &now), "just now");
}

#[test]
fn plain_output_has_a_line_per_event() {
    let events = vec![
        EventPresentation::from(&push_event(NOW - 120)),
        EventPresentation::from(&push_event(NOW)),
    ];
    assert_eq!(
        plain::render(events, at(NOW)),
        "2m ago        pushed0123456tomainindhth/ghlog\njust now      pushed0123456tomainindhth/ghlog"
    );
    assert_eq!(plain::render(vec![], at(NOW)), "");
}

#[test]
fn markdown_output_links_fragments() {
    let events = vec![EventPresentation::from(&push_event(NOW))];
    assert_eq!(
        markdown::render(events),
        "- ⬆️ pushed[0123456](https://github.com/dhth/ghlog/commit/0123456789abcdef)to[main](https://github.com/dhth/ghlog/tree/main)in[dhth/ghlog](https://github.com/dhth/ghlog)"
    );
}

#[test]
fn terminal_output_colors_and_links() {
    let events = vec![EventPresentation::from(&event(
        EventPayload::Delete(DeleteEvent {
            git_ref: "old".to_string(),
            ref_type: "branch".to_string(),
        }),
        NOW - 7200,
    ))];
    assert_eq!(
        terminal::render(events, at(NOW)),
        "\u{1b}[90m2h ago       \u{1b}[0m \u{1b}[31mdeleted branch old in \u{1b}]8;;https://github.com/dhth/ghlog\u{1b}\\dhth/ghlog\u{1b}]8;;\u{1b}\\\u{1b}[0m"
    );
    assert_eq!(terminal::colorize("x", Color::Green), "\u{1b}[32mx\u{1b}[0m");
    assert_eq!(terminal::ansi_code(Color::Gray), "\u{1b}[90m");
}

#[test]
fn html_event_keeps_kind_fragments_and_time() {
    let h = HtmlEvent::from(&push_event(0));
    assert_eq!(h.event_kind, "push");
    assert_eq!(h.timestamp, "1 Jan 1970 · 00:00 UTC");
    assert_eq!(h.fragments.len(), 6);
    assert_eq!(h.fragments[1].text, "0123456");
    assert_eq!(
        h.fragments[1].url.as_deref(),
        Some("https://github.com/dhth/ghlog/commit/0123456789abcdef")
    );
    assert_eq!(h.fragments[0].url, None);
}

#[test]
fn html_context_describes_the_page() {
    let user = Username::try_from("dhth".to_string()).ok().unwrap();
    let c = html::context(&vec![push_event(NOW)], &at(NOW), &user);
    assert_eq!(c.title, "@dhth recent activity");
    assert_eq!(c.user_url, "https://github.com/dhth");
    assert_eq!(c.username, "dhth");
    assert_eq!(c.timestamp, "14 Nov 2023 · 22:13 UTC");
    assert_eq!(c.branding.tool_name, "ghlog");
    assert_eq!(c.branding.url, "https://github.com/dhth/ghlog");
    assert_eq!(c.events.len(), 1);
    assert_eq!(c.events[0].timestamp, "14 Nov 2023 · 22:13 UTC");
}

#[test]
fn html_templates_are_chosen_by_name() {
    let templates = HtmlTemplates {
        editorial: "e".to_string(),
        notebook: "n".to_string(),
        terminal: "t".to_string(),
        zine: "z".to_string(),
    };
    assert_eq!(html::template_contents(HtmlTemplate::Editorial, &templates), "e");
    assert_eq!(html::template_contents(HtmlTemplate::Notebook, &templates), "n");
    assert_eq!(html::template_contents(HtmlTemplate::Terminal, &templates), "t");
    assert_eq!(html::template_contents(HtmlTemplate::Zine, &templates), "z");
}

#[test]
fn html_render_fills_and_escapes() {
    let mut context = tera::Context::new();
    context.insert("title", "<b>me</b>");
    let page = html::render("<h1>{{ title }}</h1>", &context).ok().unwrap();
    assert_eq!(page, "<h1>&lt;b&gt;me&lt;/b&gt;</h1>");
    match html::render("{{ title", &context) {
        Err(e @ HtmlError::Template(_)) => {
            assert_eq!(e.message(), "failed to parse built-in HTML template");
            assert!(!e.cause().is_empty());
        }
        _ => panic!("a template that does not parse is refused"),
    }
    match html::render("{{ missing.field }}", &context) {
        Err(e @ HtmlError::Render(_)) => {
            assert_eq!(e.message(), "failed to render HTML template");
        }
        _ => panic!("a missing value fails the rendering"),
    }
}

#[test]
fn render_chooses_the_format() {
    let user = Username::try_from("dhth".to_string()).ok().unwrap();
    let events = vec![push_event(NOW)];
    match render(&events, at(NOW), OutputFormat::Plain, &user) {
        Rendered::Text(s) => assert_eq!(s, "just now      pushed0123456tomainindhth/ghlog"),
        _ => panic!("plain output is text"),
    }
    match render(&events, at(NOW), OutputFormat::Markdown, &user) {
        Rendered::Text(s) => assert!(s.starts_with("- ⬆️ pushed")),
        _ => panic!("markdown output is text"),
    }
    match render(&events, at(NOW), OutputFormat::Terminal, &user) {
        Rendered::Text(s) => assert!(s.starts_with("\u{1b}[90mjust now")),
        _ => panic!("terminal output is text"),
    }
    match render(&events, at(NOW), OutputFormat::Html { template: HtmlTemplate::Zine }, &user) {
        Rendered::Html { template, context } => {
            assert_eq!(template, HtmlTemplate::Zine);
            assert_eq!(context.title, "@dhth recent activity");
        }
        _ => panic!("html output is a template to fill"),
    }
}

#[test]
fn one_event_line_per_format() {
    let event = EventPresentation::from(&push_event(NOW - 90));
    assert_eq!(
        terminal::render_event(&event, &at(NOW)),
        "\u{1b}[90m1m ago       \u{1b}[0m \u{1b}[34mpushed \u{1b}]8;;https://github.com/dhth/ghlog/commit/0123456789abcdef\u{1b}\\0123456\u{1b}]8;;\u{1b}\\ to \u{1b}]8;;https://github.com/dhth/ghlog/tree/main\u{1b}\\main\u{1b}]8;;\u{1b}\\ in \u{1b}]8;;https://github.com/dhth/ghlog\u{1b}\\dhth/ghlog\u{1b}]8;;\u{1b}\\\u{1b}[0m"
    );
    assert_eq!(
        plain::render_event(&event, &at(NOW)),
        "1m ago        pushed0123456tomainindhth/ghlog"
    );
}

#[test]
fn tera_outcomes_become_pages_or_errors() {
    assert_eq!(html::page_of(TeraOutcome::Page("<p>hi</p>".to_string())).ok().unwrap(), "<p>hi</p>");
    match html::page_of(TeraOutcome::Rejected("bad syntax".to_string())) {
        Err(HtmlError::Template(m)) => assert_eq!(m, "bad syntax"),
        _ => panic!("a rejected template is a template error"),
    }
    match html::page_of(TeraOutcome::FillFailed("no such value".to_string())) {
        Err(HtmlError::Render(m)) => assert_eq!(m, "no such value"),
        _ => panic!("a failed fill is a render error"),
    }
}
