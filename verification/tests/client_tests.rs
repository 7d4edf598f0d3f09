use gitea_bridge::gitea_api::{
    commit_status_outcome, commit_status_url, normalize_base_url, token_authorization,
    GiteaClientError,
};
use gitea_bridge::http_status::{is_redirection, is_success};
use gitea_bridge::jenkins_api::{
    build_url, crumb_or_stand_in, next_trigger_request, TriggerRequest, crumb_reply_check, crumb_url, trigger_outcome, CrumbResponse,
    JenkinsClientError,
};

#[test]
fn base_urls_lose_trailing_slashes() {
    assert_eq!(normalize_base_url("http://gitea:3000/"), "http://gitea:3000");
    assert_eq!(normalize_base_url("http://gitea:3000///"), "http://gitea:3000");
    assert_eq!(normalize_base_url("http://gitea:3000"), "http://gitea:3000");
    assert_eq!(normalize_base_url("/"), "");
    assert_eq!(normalize_base_url(""), "");
    assert_eq!(normalize_base_url("http://a/b/"), "http://a/b");
}

#[test]
fn commit_status_request() {
    assert_eq!(
        commit_status_url("http://gitea", "myorg", "myrepo", "abcdef123456"),
        "http://gitea/api/v1/repos/myorg/myrepo/statuses/abcdef123456"
    );
    assert_eq!(token_authorization("mytoken"), "token mytoken");
}

#[test]
fn commit_status_replies() {
    assert!(commit_status_outcome(201, String::new()).is_ok());
    assert!(commit_status_outcome(200, String::new()).is_ok());
    let err = commit_status_outcome(404, "Not Found".to_string()).unwrap_err();
    assert!(err.describe().contains("API Error: 404 - Not Found"));
    match commit_status_outcome(302, "moved".to_string()) {
        Err(GiteaClientError::ApiError { status, message }) => {
            assert_eq!(status, 302);
            assert_eq!(message, "moved");
        }
        _ => panic!("a redirection is not a success for Gitea"),
    }
}

#[test]
fn status_classes() {
    assert!(!is_success(199));
    assert!(is_success(200));
    assert!(is_success(299));
    assert!(!is_success(300));
    assert!(is_redirection(300));
    assert!(is_redirection(399));
    assert!(!is_redirection(400));
}

#[test]
fn jenkins_requests() {
    assert_eq!(crumb_url("http://jenkins"), "http://jenkins/crumbIssuer/api/json");
    assert_eq!(build_url("http://jenkins", "test-job"), "http://jenkins/job/test-job/buildWithParameters");
}

#[test]
fn crumb_replies() {
    assert!(crumb_reply_check(200).is_ok());
    assert!(matches!(crumb_reply_check(404), Err(JenkinsClientError::CrumbError)));
    assert!(matches!(crumb_reply_check(302), Err(JenkinsClientError::CrumbError)));
}

#[test]
fn crumb_falls_back_to_stand_in() {
    let got = crumb_or_stand_in(Ok(CrumbResponse { field: "Jenkins-Crumb".to_string(), crumb: "test-crumb".to_string() }));
    assert_eq!(got.crumb, "test-crumb");
    let fallback = crumb_or_stand_in(Err(JenkinsClientError::CrumbError));
    assert_eq!(fallback.field, "Jenkins-Crumb");
    assert_eq!(fallback.crumb, "dummy");
}

#[test]
fn trigger_replies() {
    assert!(trigger_outcome(201, String::new()).is_ok());
    assert!(trigger_outcome(302, String::new()).is_ok());
    let err = trigger_outcome(403, "No valid crumb".to_string()).unwrap_err();
    assert_eq!(err.describe(), "API Error: 403 - No valid crumb");
    assert_eq!(JenkinsClientError::CrumbError.describe(), "Failed to acquire CSRF crumb");
}

#[test]
fn trigger_asks_for_crumb_first() {
    match next_trigger_request("http://jenkins", "test-job", None) {
        TriggerRequest::FetchCrumb { url } => assert_eq!(url, "http://jenkins/crumbIssuer/api/json"),
        other => panic!("expected a crumb request, got {:?}", other),
    }
}

#[test]
fn trigger_starts_build_with_crumb_or_stand_in() {
    let got = CrumbResponse { field: "Jenkins-Crumb".to_string(), crumb: "test-crumb".to_string() };
    match next_trigger_request("http://jenkins", "test-job", Some(Ok(got))) {
        TriggerRequest::StartBuild { url, crumb } => {
            assert_eq!(url, "http://jenkins/job/test-job/buildWithParameters");
            assert_eq!(crumb.crumb, "test-crumb");
        }
        other => panic!("expected a build request, got {:?}", other),
    }
    match next_trigger_request("http://jenkins", "test-job", Some(Err(JenkinsClientError::CrumbError))) {
        TriggerRequest::StartBuild { url, crumb } => {
            assert_eq!(url, "http://jenkins/job/test-job/buildWithParameters");
            assert_eq!(crumb.field, "Jenkins-Crumb");
            assert_eq!(crumb.crumb, "dummy");
        }
        other => panic!("expected a build request, got {:?}", other),
    }
}
