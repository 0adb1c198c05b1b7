use ghlog::domain::events::{
    Event, EventKindFilter, EventLimit, EventPayload, PushEvent, Release, ReleaseEvent, Repo,
};
use ghlog::domain::timestamp::Timestamp;
use ghlog::output::presentation::EventKind;
use ghlog::service::github::{
    collect_page_events, github_error_message, invalid_payload_message, is_success_status,
    kind_for_type, link_names_next_page, next_page_exists, CollectStep, Conversion,
    EventCollector, GithubPage,
};
use reqwest::header::{HeaderMap, HeaderValue, LINK};

#[test]
fn has_next_page_returns_false_when_link_header_is_absent() {
    // GIVEN
    let headers = HeaderMap::new();

    // WHEN
    let has_next_page = next_page_exists(&headers);

    // THEN
    assert!(!has_next_page);
}

#[test]
fn next_page_exists_returns_true_when_link_header_contains_next_relation() {
    // GIVEN
    let mut headers = HeaderMap::new();
    headers.insert(
        LINK,
        HeaderValue::from_static(
            r#"<https://api.github.com/user/13575379/events?per_page=100&page=1>; rel="prev", <https://api.github.com/user/13575379/events?per_page=100&page=3>; rel="next", <https://api.github.com/user/13575379/events?per_page=100&page=3>; rel="last", <https://api.github.com/user/13575379/events?per_page=100&page=1>; rel="first""#,
        ),
    );

    // WHEN
    let has_next_page = next_page_exists(&headers);

    // THEN
    assert!(has_next_page);
}

#[test]
fn next_page_exists_returns_false_when_link_header_does_not_contain_next_relation() {
    // GIVEN
    let mut headers = HeaderMap::new();
    headers.insert(
        LINK,
        HeaderValue::from_static(
            r#"<https://api.github.com/user/13575379/events?per_page=100&page=2>; rel="prev", <https://api.github.com/user/13575379/events?per_page=100&page=1>; rel="first""#,
        ),
    );

    // WHEN
    let has_next_page = next_page_exists(&headers);

    // THEN
    assert!(!has_next_page);
}

#[test]
fn next_page_exists_returns_false_for_malformed_link_header() {
    // GIVEN
    let mut headers = HeaderMap::new();
    headers.insert(LINK, HeaderValue::from_static("this is not a link header"));

    // WHEN
    let has_next_page = next_page_exists(&headers);

    // THEN
    assert!(!has_next_page);
}

#[test]
fn next_page_exists_returns_false_for_malformed_next_relation() {
    // GIVEN
    let mut headers = HeaderMap::new();
    headers.insert(
        LINK,
        HeaderValue::from_static(
            "<https://api.github.com/user/13575379/events?per_page=100&page=4>; rel next",
        ),
    );

    // WHEN
    let has_next_page = next_page_exists(&headers);

    // THEN
    assert!(!has_next_page);
}

#[test]
fn next_page_exists_reads_the_first_link_value_only() {
    let mut headers = HeaderMap::new();
    headers.append(LINK, HeaderValue::from_static("<a>; rel=\"prev\""));
    headers.append(LINK, HeaderValue::from_static("<b>; rel=\"next\""));
    assert!(!next_page_exists(&headers));

    let mut headers = HeaderMap::new();
    headers.append(LINK, HeaderValue::from_static("<b>; rel=\"next\""));
    headers.append(LINK, HeaderValue::from_static("<a>; rel=\"prev\""));
    assert!(next_page_exists(&headers));
}

#[test]
fn next_page_exists_is_false_for_a_value_that_is_not_visible_ascii() {
    let mut headers = HeaderMap::new();
    headers.insert(LINK, HeaderValue::from_bytes(b"<a>; rel=\"next\" \xc3\xa9").unwrap());
    assert!(!next_page_exists(&headers));
}

#[test]
fn link_relation_is_found_whatever_the_spacing() {
    assert!(link_names_next_page("<a>;rel=\"next\""));
    assert!(link_names_next_page("  <a> ;   rel=\"next\"  ,<b>; rel=\"last\""));
    assert!(link_names_next_page("rel=\"next\""));
    assert!(link_names_next_page("<a>; rel=\"prev\",\trel=\"next\"\t"));
    assert!(!link_names_next_page(""));
    assert!(!link_names_next_page("<a>; rel=\"Next\""));
    assert!(!link_names_next_page("<a>; rel=next"));
    assert!(!link_names_next_page("<a>; rel=\"next\"x"));
}

#[test]
fn event_types_map_to_kinds() {
    assert_eq!(kind_for_type(Some("PushEvent")), Some(EventKind::Push));
    assert_eq!(kind_for_type(Some("CreateEvent")), Some(EventKind::Create));
    assert_eq!(kind_for_type(Some("DeleteEvent")), Some(EventKind::Delete));
    assert_eq!(kind_for_type(Some("IssuesEvent")), Some(EventKind::Issues));
    assert_eq!(kind_for_type(Some("IssueCommentEvent")), Some(EventKind::IssueComment));
    assert_eq!(kind_for_type(Some("PullRequestEvent")), Some(EventKind::PullRequest));
    assert_eq!(
        kind_for_type(Some("PullRequestReviewEvent")),
        Some(EventKind::PullRequestReview)
    );
    assert_eq!(kind_for_type(Some("ReleaseEvent")), Some(EventKind::Release));
    assert_eq!(kind_for_type(Some("WatchEvent")), None);
    assert_eq!(kind_for_type(Some("pushevent")), None);
    assert_eq!(kind_for_type(None), None);
}

fn at(secs: i64) -> Timestamp {
    Timestamp::new(secs, 0).unwrap()
}

fn repo(name: &str) -> Repo {
    Repo { name: name.to_string(), url: format!("https://api.github.com/repos/{name}") }
}

fn push(id: &str) -> Event {
    Event {
        id: id.to_string(),
        repo: repo("dhth/ghlog"),
        payload: EventPayload::Push(PushEvent {
            git_ref: "refs/heads/main".to_string(),
            head: "0123456789abcdef".to_string(),
            before: "fedcba9876543210".to_string(),
        }),
        created_at: at(1_700_000_000),
    }
}

fn release(id: &str) -> Event {
    Event {
        id: id.to_string(),
        repo: repo("dhth/ghlog"),
        payload: EventPayload::Release(ReleaseEvent {
            action: "published".to_string(),
            release: Release {
                html_url: "https://github.com/dhth/ghlog/releases/tag/v1".to_string(),
                tag_name: "v1".to_string(),
                prerelease: false,
                draft: false,
            },
        }),
        created_at: at(1_700_000_000),
    }
}

fn ids(events: &[Event]) -> Vec<String> {
    events.iter().map(|e| e.id.clone()).collect()
}

#[test]
fn collector_stops_once_the_limit_is_reached() {
    let mut collector = EventCollector::new(EventLimit::try_from(3).unwrap(), None);
    assert_eq!(collector.next_step(), CollectStep::Fetch(1));
    let step = collector.receive(GithubPage {
        events: vec![push("1"), push("2")],
        has_next_page: true,
    });
    assert_eq!(step, CollectStep::Fetch(2));
    let step = collector.receive(GithubPage {
        events: vec![push("3"), push("4"), push("5")],
        has_next_page: true,
    });
    assert_eq!(step, CollectStep::Done);
    assert_eq!(collector.next_step(), CollectStep::Done);
    assert_eq!(ids(&collector.into_events()), vec!["1", "2", "3"]);
}

#[test]
fn collector_stops_after_the_last_page() {
    let mut collector = EventCollector::new(EventLimit::try_from(10).unwrap(), None);
    let step = collector.receive(GithubPage { events: vec![push("1")], has_next_page: false });
    assert_eq!(step, CollectStep::Done);
    assert_eq!(ids(&collector.into_events()), vec!["1"]);
}

#[test]
fn collector_applies_the_limit_after_the_filter() {
    let filter = EventKindFilter::from_event_kinds(vec![EventKind::Release]);
    let mut collector = EventCollector::new(EventLimit::try_from(2).unwrap(), filter);
    let step = collector.receive(GithubPage {
        events: vec![push("1"), release("2"), push("3")],
        has_next_page: true,
    });
    assert_eq!(step, CollectStep::Fetch(2));
    let step = collector.receive(GithubPage {
        events: vec![push("4"), release("5"), release("6")],
        has_next_page: true,
    });
    assert_eq!(step, CollectStep::Done);
    assert_eq!(ids(&collector.into_events()), vec!["2", "5"]);
}

#[test]
fn collector_with_an_empty_last_page_collects_nothing() {
    let mut collector = EventCollector::new(EventLimit::try_from(1).unwrap(), None);
    let step = collector.receive(GithubPage { events: vec![], has_next_page: false });
    assert_eq!(step, CollectStep::Done);
    assert!(collector.into_events().is_empty());
}

#[test]
fn page_events_skip_unsupported_ones() {
    let result = collect_page_events(vec![
        Conversion::Converted(push("1")),
        Conversion::Unsupported,
        Conversion::Converted(release("2")),
    ]);
    assert_eq!(ids(&result.ok().unwrap()), vec!["1", "2"]);
}

#[test]
fn page_events_stop_at_the_first_invalid_payload() {
    let result = collect_page_events(vec![
        Conversion::Converted(push("1")),
        Conversion::InvalidPayload("first".to_string()),
        Conversion::InvalidPayload("second".to_string()),
    ]);
    assert_eq!(result.err(), Some("first".to_string()));
}

#[test]
fn messages_about_github_answers() {
    assert_eq!(
        invalid_payload_message("42", "missing field `ref`"),
        "couldn't parse payload for event 42: missing field `ref`"
    );
    assert_eq!(
        github_error_message("404 Not Found", "{\"message\":\"Not Found\"}"),
        "GitHub returned 404 Not Found: {\"message\":\"Not Found\"}"
    );
    assert!(is_success_status(200));
    assert!(is_success_status(299));
    assert!(!is_success_status(199));
    assert!(!is_success_status(300));
    assert!(!is_success_status(404));
}
