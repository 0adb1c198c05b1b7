use ghlog::domain::events::{
    strip_git_ref_prefix, CreateEvent, DeleteEvent, Event, EventKindFilter, EventLimit,
    EventPayload, PullRequest, PullRequestBase, PullRequestHead, PullRequestRepo, PushEvent, Repo,
};
use ghlog::domain::timestamp::{seconds_between, Timestamp, MAX_SECS, MIN_SECS};
use ghlog::domain::user::Username;
use ghlog::domain::InputError;
use ghlog::output::presentation::EventKind;

#[test]
fn event_limit_accepts_one_to_three_hundred() {
    assert_eq!(EventLimit::try_from(1).ok().map(|l| l.get()), Some(1));
    assert_eq!(EventLimit::try_from(20).ok().map(|l| l.get()), Some(20));
    assert_eq!(EventLimit::try_from(300).ok().map(|l| l.get()), Some(300));
    assert_eq!(EventLimit::try_from(0).err(), Some(InputError::LimitOutOfRange));
    assert_eq!(EventLimit::try_from(301).err(), Some(InputError::LimitOutOfRange));
    assert_eq!(
        InputError::LimitOutOfRange.message(),
        "limit must be in the range [1, 300]"
    );
}

#[test]
fn username_is_trimmed_and_must_not_be_empty() {
    let user = Username::try_from("  dhth\n".to_string()).ok().unwrap();
    assert_eq!(user.as_str(), "dhth");
    let again = Username::try_from(user.as_str().to_string()).ok().unwrap();
    assert_eq!(again.as_str(), "dhth");
    assert_eq!(
        Username::try_from(" \t\u{3000} ".to_string()).err(),
        Some(InputError::EmptyUsername)
    );
    assert_eq!(Username::try_from(String::new()).err(), Some(InputError::EmptyUsername));
    assert_eq!(InputError::EmptyUsername.message(), "username must not be empty");
    let inner = Username::try_from("a b".to_string()).ok().unwrap();
    assert_eq!(inner.as_str(), "a b");
}

#[test]
fn kind_filter_matches_the_kinds_given() {
    assert!(EventKindFilter::from_event_kinds(vec![]).is_none());
    let filter =
        EventKindFilter::from_event_kinds(vec![EventKind::Push, EventKind::Release]).unwrap();
    assert!(filter.matches(EventKind::Push));
    assert!(filter.matches(EventKind::Release));
    assert!(!filter.matches(EventKind::Create));
    assert!(!filter.matches(EventKind::PullRequestReview));
}

fn repo() -> Repo {
    Repo {
        name: "dhth/ghlog".to_string(),
        url: "https://api.github.com/repos/dhth/ghlog".to_string(),
    }
}

#[test]
fn repo_urls() {
    assert_eq!(repo().html_url(), "https://github.com/dhth/ghlog");
    assert_eq!(repo().url_for("pull/7"), "https://github.com/dhth/ghlog/pull/7");
}

#[test]
fn git_ref_prefixes_are_stripped() {
    assert_eq!(strip_git_ref_prefix("refs/heads/main"), "main");
    assert_eq!(strip_git_ref_prefix("refs/tags/v1.2.0"), "v1.2.0");
    assert_eq!(strip_git_ref_prefix("refs/heads/refs/tags/x"), "refs/tags/x");
    assert_eq!(strip_git_ref_prefix("refs/remotes/origin/main"), "refs/remotes/origin/main");
    assert_eq!(strip_git_ref_prefix("main"), "main");
    assert_eq!(strip_git_ref_prefix("refs/heads/"), "");
    assert_eq!(strip_git_ref_prefix(""), "");
}

#[test]
fn event_paths() {
    let push = PushEvent {
        git_ref: "refs/heads/feature/é".to_string(),
        head: "abc123".to_string(),
        before: "000000".to_string(),
    };
    assert_eq!(push.ref_name(), "feature/é");
    assert_eq!(push.ref_path(), "tree/feature/é");
    assert_eq!(push.commit_path(), "commit/abc123");

    let create = CreateEvent { git_ref: "v2".to_string(), ref_type: "tag".to_string() };
    assert_eq!(create.ref_name(), "v2");
    assert_eq!(create.ref_path(), "tree/v2");

    let delete =
        DeleteEvent { git_ref: "refs/tags/old".to_string(), ref_type: "tag".to_string() };
    assert_eq!(delete.ref_name(), "old");

    let pr = PullRequest {
        number: 1234,
        base: PullRequestBase {
            git_ref: "main".to_string(),
            repo: PullRequestRepo { name: "ghlog".to_string() },
        },
        head: PullRequestHead {
            git_ref: "fix".to_string(),
            repo: PullRequestRepo { name: "ghlog".to_string() },
        },
    };
    assert_eq!(pr.path(), "pull/1234");
}

#[test]
fn event_kind_follows_its_payload() {
    let event = Event {
        id: "1".to_string(),
        repo: repo(),
        payload: EventPayload::Delete(DeleteEvent {
            git_ref: "x".to_string(),
            ref_type: "branch".to_string(),
        }),
        created_at: Timestamp::new(0, 0).unwrap(),
    };
    assert_eq!(event.kind(), EventKind::Delete);
}

#[test]
fn timestamps_hold_what_chrono_can_hold() {
    let t = Timestamp::new(1_700_000_000, 5).unwrap();
    assert_eq!(t.secs(), 1_700_000_000);
    assert_eq!(t.nanos(), 5);
    assert!(Timestamp::new(MIN_SECS, 0).is_some());
    assert!(Timestamp::new(MAX_SECS, 999_999_999).is_some());
    assert!(Timestamp::new(MIN_SECS - 1, 0).is_none());
    assert!(Timestamp::new(MAX_SECS + 1, 0).is_none());
    assert!(Timestamp::new(59, 1_500_000_000).is_some());
    assert!(Timestamp::new(-1, 1_000_000_000).is_some());
    assert!(Timestamp::new(58, 1_000_000_000).is_none());
    assert!(Timestamp::new(59, 2_000_000_000).is_none());
}

#[test]
fn seconds_between_rounds_toward_zero() {
    let t = |s, n| Timestamp::new(s, n).unwrap();
    assert_eq!(seconds_between(&t(100, 0), &t(40, 0)), 60);
    assert_eq!(seconds_between(&t(40, 0), &t(100, 0)), -60);
    assert_eq!(seconds_between(&t(100, 0), &t(98, 500_000_000)), 1);
    assert_eq!(seconds_between(&t(98, 500_000_000), &t(100, 0)), -1);
    assert_eq!(seconds_between(&t(100, 0), &t(100, 500_000_000)), 0);
    assert_eq!(seconds_between(&t(-5, 0), &t(5, 0)), -10);
    // a leap second counts as an extra second
    assert_eq!(seconds_between(&t(61, 0), &t(59, 1_500_000_000)), 1);
    assert_eq!(seconds_between(&t(120, 0), &t(59, 1_000_000_000)), 61);
    assert_eq!(seconds_between(&t(59, 1_000_000_000), &t(0, 0)), 60);
    assert_eq!(seconds_between(&t(MAX_SECS, 0), &t(MIN_SECS, 0)), MAX_SECS - MIN_SECS);
}
