//! Gitea webhook events.

use crate::models::{Commit, PullRequest, Repository, User};
use vstd::prelude::*;

verus! {

/// Raw JSON, held unread by an unrecognised event.
#[verifier::external_type_specification]
#[verifier::external_body]
pub struct ExJsonValue(serde_json::Value);

/// Payload of the push event, sent by Gitea when commits are pushed.
#[derive(Debug, Clone)]
pub struct PushEvent {
    /// Full reference of the branch or tag (JSON field `ref`), such as `refs/heads/main`.
    pub ref_field: String,
    /// SHA the reference pointed to before the push.
    pub before: String,
    /// SHA the reference points to after the push.
    pub after: String,
    /// URL comparing the states `before` and `after`.
    pub compare_url: String,
    /// Commits of the push.
    pub commits: Vec<Commit>,
    /// Head commit of the push, where the payload has one.
    pub head_commit: Option<Commit>,
    /// Repository of the event.
    pub repository: Repository,
    /// User who pushed.
    pub pusher: User,
    /// User who caused the delivery.
    pub sender: User,
}

/// Payload of the pull request event.
#[derive(Debug, Clone)]
pub struct PullRequestEvent {
    /// Action on the pull request (`opened`, `closed`, `reopened`, `synchronized`, ...).
    pub action: String,
    /// Number of the pull request within the repository.
    pub number: i64,
    /// The pull request itself.
    pub pull_request: PullRequest,
    /// Repository of the event.
    pub repository: Repository,
    /// User who caused the delivery.
    pub sender: User,
}

/// A Gitea webhook event: one of the supported kinds, or an unrecognised one.
#[derive(Debug)]
pub enum GiteaEvent {
    /// A push event.
    Push(Box<PushEvent>),
    /// A pull request event.
    PullRequest(Box<PullRequestEvent>),
    /// An event that was not recognised, kept as raw JSON.
    Unknown(serde_json::Value),
}

} // verus!
