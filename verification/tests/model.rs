use crane::crane_error::CraneError;
use crane::github_events::{EventType, CHECK_SUITE, EVENT_HEADER};
use crane::model::commands::start_build::{
    StartBuild, CHECK_NAME, CHECK_SUMMARY, CHECK_TITLE, FIRST_AGENT,
};
use crane::model::state::CommitState;
use crane::model::values::sha::Sha;

const TEXT: &str = "0123456789abcdef0123456789abcdef01234567";

#[test]
fn sha_is_read_from_forty_bytes() {
    let sha = Sha::parse(TEXT).unwrap();
    assert_eq!(&sha.0[..], TEXT.as_bytes());
    assert_eq!(sha.to_str(), TEXT);
}

#[test]
fn sha_of_another_length_is_refused() {
    assert!(Sha::parse("").is_none());
    assert!(Sha::parse(&TEXT[..39]).is_none());
    assert!(Sha::parse(&format!("{}0", TEXT)).is_none());
    // forty characters, but more than forty bytes
    assert!(Sha::parse(&"\u{e9}".repeat(40)).is_none());
    // forty bytes in twenty characters
    let twenty = "\u{e9}".repeat(20);
    assert_eq!(Sha::parse(&twenty).unwrap().to_str(), twenty);
}

#[test]
fn sha_that_is_no_text_is_shown_as_invalid() {
    assert_eq!(Sha([0xff; 40]).to_str(), "INVALID");
    let mut bytes = [b'a'; 40];
    bytes[39] = 0xc3;
    assert_eq!(Sha(bytes).to_str(), "INVALID");
    assert_eq!(Sha([b'a'; 40]).to_str(), "a".repeat(40));
}

#[test]
fn shas_are_compared_byte_for_byte() {
    let a = Sha::parse(TEXT).unwrap();
    let b = Sha::parse(TEXT).unwrap();
    let mut other = a.0;
    other[39] = b'8';
    let c = Sha(other);
    assert!(a.same_as(&b));
    assert!(!a.same_as(&c));
    assert!(a == b);
    assert!(a != c);
    assert!(a.clone() == a);
}

#[test]
fn a_pending_commit_goes_to_the_first_agent() {
    let request = StartBuild { repo_url: "https://api.github.com/repos/octo/cat".to_string() };
    let id = Sha::parse(TEXT).unwrap();
    let started = request.apply_to_commit(&id, CommitState::Pending);
    assert_eq!(started.commit, CommitState::Building { agent_id: 0 });
    assert_eq!(FIRST_AGENT, 0);
    let create = started.check.unwrap();
    assert_eq!(create.repo_url, "https://api.github.com/repos/octo/cat");
    assert_eq!(create.check.name, "craneci");
    assert_eq!(create.check.head_sha, TEXT);
    assert_eq!(create.check.output.title, "Crane CI");
    assert_eq!(create.check.output.summary, "TODO");
}

#[test]
fn a_commit_under_way_or_built_stays_as_it_is() {
    let request = StartBuild { repo_url: "https://api.github.com/repos/octo/cat".to_string() };
    let id = Sha::parse(TEXT).unwrap();
    for state in [
        CommitState::Building { agent_id: 7 },
        CommitState::Built { was_successful: true },
        CommitState::Built { was_successful: false },
    ] {
        let started = request.apply_to_commit(&id, state);
        assert_eq!(started.commit, state);
        assert!(started.check.is_none());
    }
}

#[test]
fn a_check_run_announces_the_build_of_a_commit() {
    assert_eq!(CHECK_NAME, "craneci");
    assert_eq!(CHECK_TITLE, "Crane CI");
    assert_eq!(CHECK_SUMMARY, "TODO");
    let request = StartBuild { repo_url: "https://api.github.com/repos/a/b".to_string() };
    let create = request.check_for(&Sha([b'7'; 40]));
    assert_eq!(create.repo_url, "https://api.github.com/repos/a/b");
    assert_eq!(create.check.name, "craneci");
    assert_eq!(create.check.head_sha, "7".repeat(40));
    assert_eq!(create.check.output.title, "Crane CI");
    assert_eq!(create.check.output.summary, "TODO");
    let create = request.check_for(&Sha([0xff; 40]));
    assert_eq!(create.check.head_sha, "INVALID");
}

#[test]
fn event_type_is_told_from_the_header() {
    assert_eq!(EVENT_HEADER, "X-GitHub-Event");
    assert_eq!(CHECK_SUITE, "check_suite");
    assert!(matches!(EventType::from_req(Some("check_suite")), Ok(EventType::CheckSuite)));
    assert!(matches!(EventType::from_req(None), Err(CraneError::MissingEventType)));
    match EventType::from_req(Some("push")) {
        Err(CraneError::InvalidEventType(given)) => assert_eq!(given, "push"),
        other => panic!("unexpected: {:?}", other),
    }
    assert!(matches!(EventType::from_req(Some("Check_Suite")), Err(CraneError::InvalidEventType(_))));
    assert!(matches!(EventType::from_req(Some("")), Err(CraneError::InvalidEventType(_))));
}

#[test]
fn event_errors_have_a_line_for_the_operator() {
    assert_eq!(CraneError::MissingEventType.message(), "Missing event type.");
    assert_eq!(
        CraneError::InvalidEventType("push".to_string()).message(),
        "Event type 'push' is invalid."
    );
}
