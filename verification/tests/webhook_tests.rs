use gitea_bridge::events::GiteaEvent;
use gitea_bridge::gitea_api::GiteaClientError;
use gitea_bridge::http_status::{INTERNAL_SERVER_ERROR, OK, UNPROCESSABLE_ENTITY};
use gitea_bridge::processor::EventProcessor;
use gitea_bridge::webhook::{
    answer_gitea_event, answer_status_update, commit_status_for, event_kind, gitea_state_for,
    screen_gitea_delivery, signature_matches, EventKind, JenkinsStatusPayload, Screening,
};
use hmac::Mac;

fn sign(secret: &str, body: &[u8]) -> String {
    let mut mac = hmac::Hmac::<sha2::Sha256>::new_from_slice(secret.as_bytes()).unwrap();
    mac.update(body);
    hex::encode(mac.finalize().into_bytes())
}

#[test]
fn known_signature_of_sample_body() {
    // HMAC-SHA256("key", "The quick brown fox jumps over the lazy dog")
    let body = b"The quick brown fox jumps over the lazy dog";
    let expected = "f7bc83f430538424b13298e6aa6fb143ef4d59a14946175997479dbc2d1a3cd8";
    assert!(signature_matches("key", expected, body));
    assert!(!signature_matches("key", "f7bc83f430538424b13298e6aa6fb143ef4d59a14946175997479dbc2d1a3cd9", body));
    assert!(!signature_matches("key", "F7BC83F430538424B13298E6AA6FB143EF4D59A14946175997479DBC2D1A3CD8", body));
}

#[test]
fn hex_of_body_is_not_a_signature() {
    let body = b"{}";
    assert!(!signature_matches("s3cret", &hex::encode(body), body));
    assert!(!signature_matches("s3cret", "{}", body));
}

#[test]
fn no_secret_lets_everything_through() {
    assert_eq!(screen_gitea_delivery(None, None, Some("push"), b"{}"), Screening::Read(EventKind::Push));
    assert_eq!(screen_gitea_delivery(None, Some("junk"), Some("pull_request"), b"{}"), Screening::Read(EventKind::PullRequest));
    assert_eq!(screen_gitea_delivery(None, None, Some("issues"), b"{}"), Screening::Ignored);
    assert_eq!(screen_gitea_delivery(None, None, None, b"{}"), Screening::Ignored);
}

#[test]
fn secret_requires_a_signature() {
    assert_eq!(screen_gitea_delivery(Some("s3cret"), None, Some("push"), b"{}"), Screening::Unauthorized);
}

#[test]
fn secret_refuses_a_wrong_signature() {
    let body = b"{\"ref\":\"refs/heads/main\"}";
    let wrong = sign("other", body);
    assert_eq!(screen_gitea_delivery(Some("s3cret"), Some(&wrong), Some("push"), body), Screening::Unauthorized);
    assert_eq!(screen_gitea_delivery(Some("s3cret"), Some(""), Some("issues"), body), Screening::Unauthorized);
}

#[test]
fn secret_accepts_the_right_signature() {
    let body = b"{\"ref\":\"refs/heads/main\"}";
    let right = sign("s3cret", body);
    assert_eq!(screen_gitea_delivery(Some("s3cret"), Some(&right), Some("push"), body), Screening::Read(EventKind::Push));
    assert_eq!(screen_gitea_delivery(Some("s3cret"), Some(&right), Some("issues"), body), Screening::Ignored);
}

#[test]
fn signature_uses_utf8_bytes_of_secret() {
    let body = b"payload";
    let right = sign("ключ", body);
    assert!(signature_matches("ключ", &right, body));
}

#[test]
fn event_header_names() {
    assert_eq!(event_kind(Some("push")), Some(EventKind::Push));
    assert_eq!(event_kind(Some("pull_request")), Some(EventKind::PullRequest));
    assert_eq!(event_kind(Some("Push")), None);
    assert_eq!(event_kind(Some("unknown")), None);
    assert_eq!(event_kind(None), None);
}

#[test]
fn unreadable_event_is_unprocessable() {
    let processor = EventProcessor::new("ci".to_string());
    let (code, trigger) = answer_gitea_event(&processor, GiteaEvent::Unknown(serde_json::Value::Null));
    assert_eq!(code, UNPROCESSABLE_ENTITY);
    assert_eq!(code, 422);
    assert!(trigger.is_none());
}

#[test]
fn build_states_map_to_gitea_states() {
    assert_eq!(gitea_state_for("SUCCESS"), "success");
    assert_eq!(gitea_state_for("FAILURE"), "failure");
    assert_eq!(gitea_state_for("UNSTABLE"), "failure");
    assert_eq!(gitea_state_for("ABORTED"), "failure");
    assert_eq!(gitea_state_for("IN_PROGRESS"), "pending");
    assert_eq!(gitea_state_for("NOT_BUILT"), "warning");
    assert_eq!(gitea_state_for("success"), "warning");
    assert_eq!(gitea_state_for(""), "warning");
}

#[test]
fn commit_status_reports_the_build() {
    let payload = JenkinsStatusPayload {
        repo_owner: "myorg".to_string(),
        repo_name: "myrepo".to_string(),
        commit_sha: "abcdef123456".to_string(),
        build_status: "UNSTABLE".to_string(),
        target_url: "http://jenkins/job/test/1".to_string(),
        context: "jenkins/build".to_string(),
    };
    let status = commit_status_for(&payload);
    assert_eq!(status.id, None);
    assert_eq!(status.status, "failure");
    assert_eq!(status.target_url, Some("http://jenkins/job/test/1".to_string()));
    assert_eq!(status.description, Some("Jenkins build: UNSTABLE".to_string()));
    assert_eq!(status.context, Some("jenkins/build".to_string()));
}

#[test]
fn status_update_answers() {
    assert_eq!(answer_status_update(&Ok(())), OK);
    let err = GiteaClientError::ApiError { status: 404, message: "Not Found".to_string() };
    assert_eq!(answer_status_update(&Err(err)), INTERNAL_SERVER_ERROR);
}
