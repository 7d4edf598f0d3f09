//! `EventProcessor`: turns Gitea webhook events into Jenkins build requests.

use crate::events::{GiteaEvent, PullRequestEvent, PushEvent};
use crate::text::{
    decimal, i64_to_decimal, str_eq, strip_prefix_or_keep, strip_prefix_or_keep_exec,
};
use vstd::prelude::*;

verus! {

/// Parameters of a Jenkins build, sent form-encoded as the body of `buildWithParameters`
/// (fields `BRANCH_NAME`, `COMMIT_SHA`, `GITEA_REPO_URL`, `EVENT_TYPE`, and `PR_ID` where set).
#[derive(Debug, PartialEq)]
pub struct BuildParams {
    /// Name of the branch to build.
    pub branch_name: String,
    /// SHA of the commit to build.
    pub commit_sha: String,
    /// URL of the Gitea repository.
    pub gitea_repo_url: String,
    /// Kind of event (`push` or `pull_request`).
    pub event_type: String,
    /// Number of the pull request, for an event about one.
    pub pr_id: Option<String>,
}

/// A request to start a Jenkins build: the job and its parameters.
pub struct JenkinsTriggerRequest {
    /// Name of the Jenkins job to start.
    pub job_name: String,
    /// Parameters handed to the build.
    pub params: BuildParams,
}

/// Turns Gitea events into requests to start builds of one Jenkins job.
pub struct EventProcessor {
    job_name: String,
}

/// Build parameters as mathematical strings.
pub struct BuildParamsView {
    /// Branch to build.
    pub branch_name: Seq<char>,
    /// Commit to build.
    pub commit_sha: Seq<char>,
    /// Repository URL.
    pub gitea_repo_url: Seq<char>,
    /// `push` or `pull_request`.
    pub event_type: Seq<char>,
    /// Pull request number, for a pull request.
    pub pr_id: Option<Seq<char>>,
}

/// A build request as mathematical strings.
pub struct TriggerRequestView {
    /// Job to start.
    pub job_name: Seq<char>,
    /// Parameters of the build.
    pub params: BuildParamsView,
}

impl View for BuildParams {
    type V = BuildParamsView;

    open spec fn view(&self) -> BuildParamsView {
        BuildParamsView {
            branch_name: self.branch_name@,
            commit_sha: self.commit_sha@,
            gitea_repo_url: self.gitea_repo_url@,
            event_type: self.event_type@,
            pr_id: match self.pr_id {
                Some(p) => Some(p@),
                None => None,
            },
        }
    }
}

impl View for JenkinsTriggerRequest {
    type V = TriggerRequestView;

    open spec fn view(&self) -> TriggerRequestView {
        TriggerRequestView { job_name: self.job_name@, params: self.params@ }
    }
}

impl DeepView for JenkinsTriggerRequest {
    type V = TriggerRequestView;

    open spec fn deep_view(&self) -> TriggerRequestView {
        self@
    }
}

/// The prefix of the references of branches.
pub open spec fn branch_ref_prefix() -> Seq<char> {
    "refs/heads/"@
}

/// The SHA Gitea reports after a push that deleted a branch.
pub open spec fn deleted_branch_sha() -> Seq<char> {
    "0000000000000000000000000000000000000000"@
}

/// The branch named by a reference: the reference without `refs/heads/`, or the reference itself.
pub open spec fn branch_of_ref(reference: Seq<char>) -> Seq<char> {
    strip_prefix_or_keep(reference, branch_ref_prefix())
}

/// The commit a push is built at: its head commit, or the `after` SHA where it has none.
pub open spec fn push_commit_sha(event: PushEvent) -> Seq<char> {
    match event.head_commit {
        Some(head) => head.id@,
        None => event.after@,
    }
}

/// The build request for a push event, if any.
pub open spec fn push_trigger(job: Seq<char>, event: PushEvent) -> Option<TriggerRequestView> {
    if push_commit_sha(event) == deleted_branch_sha() {
        None
    } else {
        Some(
            TriggerRequestView {
                job_name: job,
                params: BuildParamsView {
                    branch_name: branch_of_ref(event.ref_field@),
                    commit_sha: push_commit_sha(event),
                    gitea_repo_url: event.repository.html_url@,
                    event_type: "push"@,
                    pr_id: None,
                },
            },
        )
    }
}

/// The build request for a pull request event, if any.
pub open spec fn pull_request_trigger(job: Seq<char>, event: PullRequestEvent) -> Option<
    TriggerRequestView,
> {
    if event.action@ == "closed"@ {
        None
    } else {
        Some(
            TriggerRequestView {
                job_name: job,
                params: BuildParamsView {
                    branch_name: event.pull_request.head.ref_field@,
                    commit_sha: event.pull_request.head.sha@,
                    gitea_repo_url: event.repository.html_url@,
                    event_type: "pull_request"@,
                    pr_id: Some(decimal(event.number as int)),
                },
            },
        )
    }
}

/// The build request for any event, if any.
pub open spec fn event_trigger(job: Seq<char>, event: GiteaEvent) -> Option<TriggerRequestView> {
    match event {
        GiteaEvent::Push(e) => push_trigger(job, *e),
        GiteaEvent::PullRequest(e) => pull_request_trigger(job, *e),
        GiteaEvent::Unknown(_) => None,
    }
}

impl EventProcessor {
    /// The name of the job this processor starts.
    pub closed spec fn job(&self) -> Seq<char> {
        self.job_name@
    }

    /// Creates an `EventProcessor` that starts the given Jenkins job.
    pub fn new(job_name: String) -> (res: Self)
        ensures
            res.job() == job_name@,
    {
        Self { job_name }
    }

    /// Turns a Gitea event into a request to start a build, where the event calls for one.
    pub fn process(&self, event: GiteaEvent) -> (res: Option<JenkinsTriggerRequest>)
        ensures
            res.deep_view() == event_trigger(self.job(), event),
    {
        match event {
            GiteaEvent::Push(e) => self.process_push_event(*e),
            GiteaEvent::PullRequest(e) => self.process_pull_request_event(*e),
            _ => None,
        }
    }

    /// The build request for a push: none for a deleted branch, else one for the pushed branch.
    pub fn process_push_event(&self, event: PushEvent) -> (res: Option<JenkinsTriggerRequest>)
        ensures
            res.deep_view() == push_trigger(self.job(), event),
    {
        let ghost spec_event = event;
        let branch_name = strip_prefix_or_keep_exec(event.ref_field.as_str(), "refs/heads/");
        let commit_sha: String = match &event.head_commit {
            Some(head) => head.id.clone(),
            None => event.after.clone(),
        };
        if str_eq(commit_sha.as_str(), "0000000000000000000000000000000000000000") {
            return None;
        }
        Some(
            JenkinsTriggerRequest {
                job_name: self.job_name.clone(),
                params: BuildParams {
                    branch_name,
                    commit_sha,
                    gitea_repo_url: event.repository.html_url,
                    event_type: "push".to_owned(),
                    pr_id: None,
                },
            },
        )
    }

    /// The build request for a pull request: none once it is closed, else one for its head.
    pub fn process_pull_request_event(&self, event: PullRequestEvent) -> (res: Option<
        JenkinsTriggerRequest,
    >)
        ensures
            res.deep_view() == pull_request_trigger(self.job(), event),
    {
        if str_eq(event.action.as_str(), "closed") {
            return None;
        }
        let pr_id = i64_to_decimal(event.number);
        Some(
            JenkinsTriggerRequest {
                job_name: self.job_name.clone(),
                params: BuildParams {
                    branch_name: event.pull_request.head.ref_field,
                    commit_sha: event.pull_request.head.sha,
                    gitea_repo_url: event.repository.html_url,
                    event_type: "pull_request".to_owned(),
                    pr_id: Some(pr_id),
                },
            },
        )
    }
}

} // verus!
