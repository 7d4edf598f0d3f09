use gitea_bridge::events::{GiteaEvent, PullRequestEvent, PushEvent};
use gitea_bridge::models::{Commit, PRBranchInfo, PayloadUser, PullRequest, Repository, User};
use gitea_bridge::processor::EventProcessor;

fn mock_user() -> User {
    User {
        id: 1,
        login: "user".to_string(),
        full_name: None,
        email: None,
        avatar_url: None,
    }
}

fn mock_payload_user() -> PayloadUser {
    PayloadUser {
        name: "Test User".to_string(),
        email: "test@example.com".to_string(),
        username: Some("testuser".to_string()),
    }
}

fn mock_repo() -> Repository {
    Repository {
        id: 1,
        name: "repo".to_string(),
        full_name: "user/repo".to_string(),
        owner: mock_user(),
        private: false,
        html_url: "http://gitea/user/repo".to_string(),
        ssh_url: "git@gitea:user/repo.git".to_string(),
        clone_url: "http://gitea/user/repo.git".to_string(),
        default_branch: "main".to_string(),
    }
}

fn mock_commit(id: &str) -> Commit {
    Commit {
        id: id.to_string(),
        message: "msg".to_string(),
        url: "url".to_string(),
        author: mock_payload_user(),
        committer: mock_payload_user(),
        timestamp: "time".to_string(),
    }
}

fn push_event(reference: &str, after: &str, head: Option<Commit>) -> PushEvent {
    PushEvent {
        ref_field: reference.to_string(),
        before: "123".to_string(),
        after: after.to_string(),
        compare_url: "url".to_string(),
        commits: vec![],
        head_commit: head,
        repository: mock_repo(),
        pusher: mock_user(),
        sender: mock_user(),
    }
}

fn branch(label: &str, reference: &str, sha: &str) -> PRBranchInfo {
    PRBranchInfo {
        label: label.to_string(),
        ref_name: reference.to_string(),
        ref_field: reference.to_string(),
        sha: sha.to_string(),
        repo: mock_repo(),
    }
}

fn pr_event(action: &str, number: i64, state: &str) -> PullRequestEvent {
    PullRequestEvent {
        action: action.to_string(),
        number,
        pull_request: PullRequest {
            id: 100,
            url: "url".to_string(),
            number,
            title: "Fix bug".to_string(),
            body: Some("Fixed it".to_string()),
            state: state.to_string(),
            html_url: "http://gitea/user/repo/pulls/42".to_string(),
            head: branch("user:feature", "feature", "789"),
            base: branch("user:main", "main", "123"),
        },
        repository: mock_repo(),
        sender: mock_user(),
    }
}

#[test]
fn test_process_push_event_normal() {
    let processor = EventProcessor::new("test-job".to_string());
    let event = PushEvent {
        ref_field: "refs/heads/main".to_string(),
        before: "123".to_string(),
        after: "456".to_string(),
        compare_url: "url".to_string(),
        commits: vec![],
        head_commit: Some(Commit {
            id: "456".to_string(),
            message: "msg".to_string(),
            url: "url".to_string(),
            author: mock_payload_user(),
            committer: mock_payload_user(),
            timestamp: "time".to_string(),
        }),
        repository: mock_repo(),
        pusher: mock_user(),
        sender: mock_user(),
    };

    let result = processor
        .process(GiteaEvent::Push(Box::new(event)))
        .unwrap();
    assert_eq!(result.job_name, "test-job");
    assert_eq!(result.params.branch_name, "main");
    assert_eq!(result.params.commit_sha, "456");
    assert_eq!(result.params.gitea_repo_url, "http://gitea/user/repo");
    assert_eq!(result.params.event_type, "push");
    assert_eq!(result.params.pr_id, None);
}

#[test]
fn test_process_push_event_deleted_branch() {
    let processor = EventProcessor::new("test-job".to_string());
    let event = PushEvent {
        ref_field: "refs/heads/feature".to_string(),
        before: "123".to_string(),
        after: "0000000000000000000000000000000000000000".to_string(),
        compare_url: "url".to_string(),
        commits: vec![],
        head_commit: None,
        repository: mock_repo(),
        pusher: mock_user(),
        sender: mock_user(),
    };

    let result = processor.process(GiteaEvent::Push(Box::new(event)));
    assert!(result.is_none());
}

#[test]
fn test_process_pr_event_opened() {
    let processor = EventProcessor::new("test-job".to_string());
    let event = PullRequestEvent {
        action: "opened".to_string(),
        number: 42,
        pull_request: PullRequest {
            id: 100,
            url: "url".to_string(),
            number: 42,
            title: "Fix bug".to_string(),
            body: Some("Fixed it".to_string()),
            state: "open".to_string(),
            html_url: "http://gitea/user/repo/pulls/42".to_string(),
            head: PRBranchInfo {
                label: "user:feature".to_string(),
                ref_name: "feature".to_string(),
                ref_field: "feature".to_string(),
                sha: "789".to_string(),
                repo: mock_repo(),
            },
            base: PRBranchInfo {
                label: "user:main".to_string(),
                ref_name: "main".to_string(),
                ref_field: "main".to_string(),
                sha: "123".to_string(),
                repo: mock_repo(),
            },
        },
        repository: mock_repo(),
        sender: mock_user(),
    };

    let result = processor
        .process(GiteaEvent::PullRequest(Box::new(event)))
        .unwrap();
    assert_eq!(result.job_name, "test-job");
    assert_eq!(result.params.branch_name, "feature");
    assert_eq!(result.params.commit_sha, "789");
    assert_eq!(result.params.gitea_repo_url, "http://gitea/user/repo");
    assert_eq!(result.params.event_type, "pull_request");
    assert_eq!(result.params.pr_id, Some("42".to_string()));
}

#[test]
fn test_process_pr_event_closed() {
    let processor = EventProcessor::new("test-job".to_string());
    let event = PullRequestEvent {
        action: "closed".to_string(),
        number: 42,
        pull_request: PullRequest {
            id: 100,
            url: "url".to_string(),
            number: 42,
            title: "Fix bug".to_string(),
            body: Some("Fixed it".to_string()),
            state: "closed".to_string(),
            html_url: "http://gitea/user/repo/pulls/42".to_string(),
            head: PRBranchInfo {
                label: "user:feature".to_string(),
                ref_name: "feature".to_string(),
                ref_field: "feature".to_string(),
                sha: "789".to_string(),
                repo: mock_repo(),
            },
            base: PRBranchInfo {
                label: "user:main".to_string(),
                ref_name: "main".to_string(),
                ref_field: "main".to_string(),
                sha: "123".to_string(),
                repo: mock_repo(),
            },
        },
        repository: mock_repo(),
        sender: mock_user(),
    };

    let result = processor.process(GiteaEvent::PullRequest(Box::new(event)));
    assert!(result.is_none());
}

#[test]
fn push_without_head_commit_builds_after_sha() {
    let processor = EventProcessor::new("ci".to_string());
    let result = processor.process_push_event(push_event("refs/heads/dev", "abc", None)).unwrap();
    assert_eq!(result.params.commit_sha, "abc");
    assert_eq!(result.params.branch_name, "dev");
}

#[test]
fn push_head_commit_wins_over_after_sha() {
    let processor = EventProcessor::new("ci".to_string());
    let event = push_event("refs/heads/dev", "0000000000000000000000000000000000000000", Some(mock_commit("fff")));
    let result = processor.process_push_event(event).unwrap();
    assert_eq!(result.params.commit_sha, "fff");
}

#[test]
fn push_of_deleted_branch_with_zero_head_is_ignored() {
    let processor = EventProcessor::new("ci".to_string());
    let event = push_event("refs/heads/dev", "123", Some(mock_commit("0000000000000000000000000000000000000000")));
    assert!(processor.process_push_event(event).is_none());
}

#[test]
fn push_of_tag_keeps_full_reference() {
    let processor = EventProcessor::new("ci".to_string());
    let result = processor.process_push_event(push_event("refs/tags/v1.0", "abc", None)).unwrap();
    assert_eq!(result.params.branch_name, "refs/tags/v1.0");
}

#[test]
fn push_of_non_ascii_branch_is_stripped() {
    let processor = EventProcessor::new("ci".to_string());
    let result = processor.process_push_event(push_event("refs/heads/фича/ß", "abc", None)).unwrap();
    assert_eq!(result.params.branch_name, "фича/ß");
}

#[test]
fn push_of_bare_prefix_builds_empty_branch() {
    let processor = EventProcessor::new("ci".to_string());
    let result = processor.process_push_event(push_event("refs/heads/", "abc", None)).unwrap();
    assert_eq!(result.params.branch_name, "");
}

#[test]
fn pr_reopened_and_synchronized_build() {
    let processor = EventProcessor::new("ci".to_string());
    for action in ["reopened", "synchronized", "edited"] {
        let result = processor.process_pull_request_event(pr_event(action, 7, "open")).unwrap();
        assert_eq!(result.params.pr_id, Some("7".to_string()));
        assert_eq!(result.job_name, "ci");
    }
}

#[test]
fn pr_ids_are_decimal() {
    let processor = EventProcessor::new("ci".to_string());
    for (n, text) in [(0i64, "0"), (10, "10"), (1234567890, "1234567890"), (-5, "-5"),
                      (i64::MAX, "9223372036854775807"), (i64::MIN, "-9223372036854775808")] {
        let result = processor.process_pull_request_event(pr_event("opened", n, "open")).unwrap();
        assert_eq!(result.params.pr_id, Some(text.to_string()));
    }
}

#[test]
fn unknown_event_is_not_built() {
    let processor = EventProcessor::new("ci".to_string());
    assert!(processor.process(GiteaEvent::Unknown(serde_json::Value::Null)).is_none());
}
