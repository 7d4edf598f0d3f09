//! Gitea data carried by webhook payloads and sent back as commit statuses.

use vstd::prelude::*;

verus! {

/// A Gitea user account.
#[derive(Debug, Clone)]
pub struct User {
    /// Unique id of the user.
    pub id: i64,
    /// Login name of the account.
    pub login: String,
    /// Full display name, where set.
    pub full_name: Option<String>,
    /// E-mail address, where available.
    pub email: Option<String>,
    /// Avatar URL, where set.
    pub avatar_url: Option<String>,
}

/// A Gitea repository and its main attributes.
#[derive(Debug, Clone)]
pub struct Repository {
    /// Unique id of the repository.
    pub id: i64,
    /// Short name of the repository.
    pub name: String,
    /// Full name, `owner/name`.
    pub full_name: String,
    /// Owner of the repository.
    pub owner: User,
    /// Whether the repository is private.
    pub private: bool,
    /// URL of the repository's web page.
    pub html_url: String,
    /// Clone URL over SSH.
    pub ssh_url: String,
    /// Clone URL over HTTP(S).
    pub clone_url: String,
    /// Name of the default branch.
    pub default_branch: String,
}

/// Author or committer as recorded in a commit of a payload.
#[derive(Debug, Clone)]
pub struct PayloadUser {
    /// Name given in the commit.
    pub name: String,
    /// E-mail address given in the commit.
    pub email: String,
    /// Gitea login matched to the commit, where there is one.
    pub username: Option<String>,
}

/// A Git commit in a Gitea webhook payload.
#[derive(Debug, Clone)]
pub struct Commit {
    /// SHA of the commit.
    pub id: String,
    /// Commit message.
    pub message: String,
    /// URL of the commit's web page.
    pub url: String,
    /// Author of the commit.
    pub author: PayloadUser,
    /// Committer of the commit.
    pub committer: PayloadUser,
    /// Timestamp of the commit (ISO 8601).
    pub timestamp: String,
}

/// A Gitea pull request and its main attributes.
#[derive(Debug, Clone)]
pub struct PullRequest {
    /// Unique id of the pull request.
    pub id: i64,
    /// API URL of the pull request.
    pub url: String,
    /// Number of the pull request within its repository.
    pub number: i64,
    /// State of the pull request (`open`, `closed`).
    pub state: String,
    /// Title of the pull request.
    pub title: String,
    /// Description, where set.
    pub body: Option<String>,
    /// URL of the pull request's web page.
    pub html_url: String,
    /// Source branch (head) of the pull request.
    pub head: PRBranchInfo,
    /// Target branch (base) of the pull request.
    pub base: PRBranchInfo,
}

/// One branch of a pull request (source or target).
#[derive(Debug, Clone)]
pub struct PRBranchInfo {
    /// Label of the branch, `owner:branch`.
    pub label: String,
    /// Name of the branch.
    pub ref_name: String,
    /// Reference of the branch (the JSON field `ref`).
    pub ref_field: String,
    /// SHA at the tip of the branch.
    pub sha: String,
    /// Repository that holds the branch.
    pub repo: Repository,
}

/// A commit status sent to Gitea to show the result of a build.
#[derive(Debug, Clone)]
pub struct CommitStatus {
    /// Id given by Gitea, where known.
    pub id: Option<i64>,
    /// State of the status (`pending`, `success`, `error`, `failure`, `warning`).
    pub status: String,
    /// URL the status links to (such as the build page).
    pub target_url: Option<String>,
    /// Human-readable description.
    pub description: Option<String>,
    /// Context naming the source of the check.
    pub context: Option<String>,
}

} // verus!
