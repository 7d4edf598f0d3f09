//! The decisions of the two webhook endpoints: screening a Gitea delivery
//! (signature and event kind), answering it, and turning a Jenkins build
//! status into a Gitea commit status.

use crate::events::GiteaEvent;
use crate::gitea_api::GiteaClientError;
use crate::http_status::{INTERNAL_SERVER_ERROR, OK, UNPROCESSABLE_ENTITY};
use crate::models::CommitStatus;
use crate::processor::{event_trigger, EventProcessor, JenkinsTriggerRequest};
use crate::text::str_eq;
use hmac::Mac;
use vstd::prelude::*;
use vstd::utf8::encode_utf8;

verus! {

/// HMAC-SHA256 of `message` under `key`.
pub uninterp spec fn hmac_sha256(key: Seq<u8>, message: Seq<u8>) -> Seq<u8>;

/// HMAC-SHA256 of `message` under `key` (`Hmac<Sha256>` of the crates `hmac` and `sha2`:
/// `new_from_slice`, `update`, `finalize`). Claimed: the tag is `hmac_sha256(key, message)`,
/// a function of the two byte strings alone, and is 32 bytes long (the SHA-256 output size).
/// `new_from_slice` accepts keys of any length for HMAC, so the `unwrap` does not fail.
#[verifier::external_body]
fn compute_hmac_sha256(key: &[u8], message: &[u8]) -> (tag: Vec<u8>)
    ensures
        tag@ == hmac_sha256(key@, message@),
        tag@.len() == 32,
{
    let mut mac = hmac::Hmac::<sha2::Sha256>::new_from_slice(key).unwrap();
    mac.update(message);
    mac.finalize().into_bytes().to_vec()
}

/// The lower-case hexadecimal digit of `n < 16`.
pub open spec fn hex_digit(n: nat) -> char {
    if n < 10 {
        (48 + n) as char
    } else {
        (87 + n) as char
    }
}

/// Lower-case hexadecimal text of bytes, two digits per byte, high half first.
pub open spec fn hex_lower(bytes: Seq<u8>) -> Seq<char>
    decreases bytes.len(),
{
    if bytes.len() == 0 {
        Seq::empty()
    } else {
        seq![hex_digit((bytes[0] / 16) as nat), hex_digit((bytes[0] % 16) as nat)] + hex_lower(
            bytes.drop_first(),
        )
    }
}

/// Lower-case hexadecimal text of bytes (`hex::encode`). Claimed: two characters per byte,
/// high half first, from the table `0123456789abcdef`.
#[verifier::external_body]
fn hex_encode(bytes: &[u8]) -> (res: String)
    ensures
        res@ == hex_lower(bytes@),
{
    hex::encode(bytes)
}

/// The signature Gitea sends for a body under a secret: hex of HMAC-SHA256 keyed by the
/// secret's UTF-8 bytes.
pub open spec fn expected_signature(secret: Seq<char>, body: Seq<u8>) -> Seq<char> {
    hex_lower(hmac_sha256(encode_utf8(secret), body))
}

/// The characters of an optional string.
pub open spec fn opt_chars(s: Option<&str>) -> Option<Seq<char>> {
    match s {
        Some(t) => Some(t@),
        None => None,
    }
}

/// A delivery passes the signature check: no secret is set, or the signature matches.
pub open spec fn signature_accepted(
    secret: Option<Seq<char>>,
    signature: Option<Seq<char>>,
    body: Seq<u8>,
) -> bool {
    match secret {
        None => true,
        Some(k) => signature == Some(expected_signature(k, body)),
    }
}

/// Whether `signature` is the one Gitea computes for `body` under `secret`.
pub fn signature_matches(secret: &str, signature: &str, body: &[u8]) -> (res: bool)
    ensures
        res == (signature@ == expected_signature(secret@, body@)),
{
    let tag = compute_hmac_sha256(secret.as_bytes(), body);
    let expected = hex_encode(tag.as_slice());
    str_eq(signature, expected.as_str())
}

/// The kinds of Gitea events the bridge reads.
#[derive(Debug, Clone, Copy, PartialEq, Eq)]
pub enum EventKind {
    /// A push (`X-Gitea-Event: push`).
    Push,
    /// A pull request (`X-Gitea-Event: pull_request`).
    PullRequest,
}

/// The kind of event named by the `X-Gitea-Event` header, if the bridge reads it.
pub open spec fn event_kind_of(header: Option<Seq<char>>) -> Option<EventKind> {
    match header {
        Some(h) => if h == "push"@ {
            Some(EventKind::Push)
        } else if h == "pull_request"@ {
            Some(EventKind::PullRequest)
        } else {
            None
        },
        None => None,
    }
}

/// The kind of event named by the `X-Gitea-Event` header, if the bridge reads it.
pub fn event_kind(header: Option<&str>) -> (res: Option<EventKind>)
    ensures
        res == event_kind_of(opt_chars(header)),
{
    match header {
        Some(h) => if str_eq(h, "push") {
            Some(EventKind::Push)
        } else if str_eq(h, "pull_request") {
            Some(EventKind::PullRequest)
        } else {
            None
        },
        None => None,
    }
}

/// What to do with a Gitea delivery before its body is read.
#[derive(Debug, Clone, Copy, PartialEq, Eq)]
pub enum Screening {
    /// Refuse it with `401 Unauthorized`: the signature is missing or wrong.
    Unauthorized,
    /// Acknowledge it with `200 OK` and do nothing: the bridge does not read this kind.
    Ignored,
    /// Read the body as an event of this kind.
    Read(EventKind),
}

/// The screening owed to a delivery.
pub open spec fn screening_of(
    secret: Option<Seq<char>>,
    signature: Option<Seq<char>>,
    event_header: Option<Seq<char>>,
    body: Seq<u8>,
) -> Screening {
    if !signature_accepted(secret, signature, body) {
        Screening::Unauthorized
    } else {
        match event_kind_of(event_header) {
            Some(kind) => Screening::Read(kind),
            None => Screening::Ignored,
        }
    }
}

/// Screens a Gitea delivery: with a secret set, a missing or wrong `X-Gitea-Signature` is
/// refused; otherwise the `X-Gitea-Event` header decides whether the body is read.
pub fn screen_gitea_delivery(
    secret: Option<&str>,
    signature: Option<&str>,
    event_header: Option<&str>,
    body: &[u8],
) -> (res: Screening)
    ensures
        res == screening_of(opt_chars(secret), opt_chars(signature), opt_chars(event_header), body@),
{
    match secret {
        Some(k) => match signature {
            Some(sig) => {
                if !signature_matches(k, sig, body) {
                    return Screening::Unauthorized;
                }
            },
            None => {
                return Screening::Unauthorized;
            },
        },
        None => {},
    }
    match event_kind(event_header) {
        Some(kind) => Screening::Read(kind),
        None => Screening::Ignored,
    }
}

/// The answer to a delivery whose body was read: `422 Unprocessable Entity` and no build for
/// an event that could not be read, else `200 OK` with the build to start, where the event
/// calls for one.
pub fn answer_gitea_event(processor: &EventProcessor, event: GiteaEvent) -> (res: (
    u16,
    Option<JenkinsTriggerRequest>,
))
    ensures
        event is Unknown ==> res.0 == UNPROCESSABLE_ENTITY && res.1 is None,
        !(event is Unknown) ==> res.0 == OK && res.1.deep_view() == event_trigger(
            processor.job(),
            event,
        ),
{
    match event {
        GiteaEvent::Unknown(_) => (UNPROCESSABLE_ENTITY, None),
        _ => (OK, processor.process(event)),
    }
}

/// A build status callback from Jenkins.
#[derive(Debug)]
pub struct JenkinsStatusPayload {
    /// Owner of the repository in Gitea.
    pub repo_owner: String,
    /// Name of the repository in Gitea.
    pub repo_name: String,
    /// SHA of the commit the build is for.
    pub commit_sha: String,
    /// Status of the build (`SUCCESS`, `FAILURE`, `UNSTABLE`, ...).
    pub build_status: String,
    /// URL of the build's page in Jenkins.
    pub target_url: String,
    /// Context (name of the check) shown beside the commit status.
    pub context: String,
}

/// The Gitea state for a Jenkins build status.
pub open spec fn gitea_state_of(build_status: Seq<char>) -> Seq<char> {
    if build_status == "SUCCESS"@ {
        "success"@
    } else if build_status == "FAILURE"@ || build_status == "UNSTABLE"@ || build_status
        == "ABORTED"@ {
        "failure"@
    } else if build_status == "IN_PROGRESS"@ {
        "pending"@
    } else {
        "warning"@
    }
}

/// The Gitea state for a Jenkins build status: `success`, `failure`, `pending`, or `warning`
/// for any status it does not know.
pub fn gitea_state_for(build_status: &str) -> (res: &'static str)
    ensures
        res@ == gitea_state_of(build_status@),
{
    if str_eq(build_status, "SUCCESS") {
        "success"
    } else if str_eq(build_status, "FAILURE") || str_eq(build_status, "UNSTABLE") || str_eq(
        build_status,
        "ABORTED",
    ) {
        "failure"
    } else if str_eq(build_status, "IN_PROGRESS") {
        "pending"
    } else {
        "warning"
    }
}

/// The commit status that reports a Jenkins build to Gitea.
pub fn commit_status_for(payload: &JenkinsStatusPayload) -> (res: CommitStatus)
    ensures
        res.id is None,
        res.status@ == gitea_state_of(payload.build_status@),
        res.target_url matches Some(u) && u@ == payload.target_url@,
        res.description matches Some(d) && d@ == "Jenkins build: "@ + payload.build_status@,
        res.context matches Some(c) && c@ == payload.context@,
{
    let state = gitea_state_for(payload.build_status.as_str());
    let mut description: String = "Jenkins build: ".to_owned();
    description.append(payload.build_status.as_str());
    CommitStatus {
        id: None,
        status: state.to_owned(),
        target_url: Some(payload.target_url.clone()),
        description: Some(description),
        context: Some(payload.context.clone()),
    }
}

/// The answer to a Jenkins callback once Gitea was told: `200 OK`, or
/// `500 Internal Server Error` when the commit status could not be set.
pub fn answer_status_update(result: &Result<(), GiteaClientError>) -> (res: u16)
    ensures
        result is Ok ==> res == OK,
        result is Err ==> res == INTERNAL_SERVER_ERROR,
{
    match result {
        Ok(_) => OK,
        Err(_) => INTERNAL_SERVER_ERROR,
    }
}

} // verus!
