use crane::hub::common::State;
use crane::hub::responses::Commit;
use crane::hub::{
    check_status, latest_commit, CommitLocator, GitHubClient, GitHubError, RepoLocator, BASE_URL,
};

fn repo() -> RepoLocator {
    RepoLocator { owner: "octo".to_string(), repo: "cat".to_string() }
}

#[test]
fn repository_url_names_owner_and_repo() {
    assert_eq!(BASE_URL, "https://api.github.com");
    assert_eq!(repo().url(), "https://api.github.com/repos/octo/cat");
}

#[test]
fn commits_url_is_below_the_repository() {
    assert_eq!(repo().commits_url(), "https://api.github.com/repos/octo/cat/commits");
}

#[test]
fn statuses_url_names_the_commit() {
    let repo = repo();
    let commit = CommitLocator { repo: &repo, sha: "0123456789abcdef0123456789abcdef01234567".to_string() };
    assert_eq!(
        commit.statuses_url(),
        "https://api.github.com/repos/octo/cat/statuses/0123456789abcdef0123456789abcdef01234567"
    );
}

#[test]
fn latest_commit_of_an_empty_listing_is_none() {
    let repo = repo();
    let commits: Vec<Commit> = Vec::new();
    assert!(latest_commit(&repo, &commits).is_none());
}

#[test]
fn latest_commit_is_the_first_of_the_listing() {
    let repo = repo();
    let commits = vec![
        Commit { sha: "aaaa".to_string(), html_url: "https://example.org/a".to_string() },
        Commit { sha: "bbbb".to_string(), html_url: "https://example.org/b".to_string() },
    ];
    let latest = latest_commit(&repo, &commits).unwrap();
    assert_eq!(latest.sha, "aaaa");
    assert_eq!(latest.repo.owner, "octo");
    assert_eq!(latest.repo.repo, "cat");
}

#[test]
fn rejected_credentials_are_told_by_status_code() {
    assert!(matches!(check_status(401), Err(GitHubError::Auth { status: 401 })));
    assert!(matches!(check_status(403), Err(GitHubError::Auth { status: 403 })));
    assert!(check_status(200).is_ok());
    assert!(check_status(201).is_ok());
    assert!(check_status(404).is_ok());
    assert!(check_status(500).is_ok());
    assert!(check_status(400).is_ok());
    assert!(check_status(402).is_ok());
}

#[test]
fn client_carries_the_token_and_the_media_type() {
    let client = GitHubClient::new("s3cr3t").unwrap();
    assert_eq!(client.authorization(), "token s3cr3t");
    assert_eq!(client.accept(), "application/vnd.github.v3+json");
}

#[test]
fn client_accepts_tabs_and_bytes_beyond_ascii() {
    assert!(GitHubClient::new("a\tb").is_ok());
    assert!(GitHubClient::new("gr\u{fc}n").is_ok());
    assert!(GitHubClient::new("").is_ok());
}

#[test]
fn client_refuses_a_token_with_control_characters() {
    match GitHubClient::new("bad\ntoken") {
        Err(GitHubError::InvalidHeader { name }) => assert_eq!(name, "authorization"),
        other => panic!("unexpected: {:?}", other),
    }
    assert!(matches!(GitHubClient::new("bell\u{7}"), Err(GitHubError::InvalidHeader { .. })));
    assert!(matches!(GitHubClient::new("del\u{7f}"), Err(GitHubError::InvalidHeader { .. })));
    assert!(matches!(GitHubClient::new("\r"), Err(GitHubError::InvalidHeader { .. })));
}

#[test]
fn states_carry_the_platform_words() {
    assert_eq!(State::Error.as_str(), "error");
    assert_eq!(State::Failure.as_str(), "failure");
    assert_eq!(State::Pending.as_str(), "pending");
    assert_eq!(State::Success.as_str(), "success");
}

#[test]
fn exit_code_decides_between_success_and_failure() {
    assert_eq!(State::from_exit(true), State::Success);
    assert_eq!(State::from_exit(false), State::Failure);
}

#[test]
fn commits_are_asked_for_by_branch() {
    let request = crane::hub::requests::GetCommitsRequest::for_branch("main");
    assert_eq!(request.sha, "main");
}

#[test]
fn status_reports_carry_state_link_and_context() {
    let request = crane::hub::requests::SetStatusRequest::report(State::Pending, None, "linux");
    assert_eq!(request.state, State::Pending);
    assert_eq!(request.target_url, None);
    assert_eq!(request.description, None);
    assert_eq!(request.context, Some("linux"));
    let request =
        crane::hub::requests::SetStatusRequest::report(State::Failure, Some("https://logs/x"), "mac");
    assert_eq!(request.state, State::Failure);
    assert_eq!(request.target_url, Some("https://logs/x"));
    assert_eq!(request.description, None);
    assert_eq!(request.context, Some("mac"));
}

#[test]
fn states_are_read_from_the_platform_words() {
    assert_eq!(State::from_wire("error"), Some(State::Error));
    assert_eq!(State::from_wire("failure"), Some(State::Failure));
    assert_eq!(State::from_wire("pending"), Some(State::Pending));
    assert_eq!(State::from_wire("success"), Some(State::Success));
    assert_eq!(State::from_wire("Success"), None);
    assert_eq!(State::from_wire(""), None);
    assert_eq!(State::from_wire("succes"), None);
    for state in [State::Error, State::Failure, State::Pending, State::Success] {
        assert_eq!(State::from_wire(state.as_str()), Some(state));
    }
}
