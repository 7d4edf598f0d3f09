//! Decisions of the Jenkins REST client: the requests it sends and what a reply means.

use crate::gitea_api::{api_error_description, api_error_text, request_error_text};
use crate::http_status::{is_redirection, is_success, spec_is_redirection, spec_is_success};
use crate::text::has_prefix;
use vstd::prelude::*;

verus! {

/// Errors of the Jenkins client.
#[derive(Debug)]
pub enum JenkinsClientError {
    /// The HTTP request failed at the transport level.
    RequestError(reqwest::Error),
    /// Jenkins answered with a status that is neither success nor redirection.
    ApiError {
        /// HTTP status of the reply.
        status: u16,
        /// Body of the reply.
        message: String,
    },
    /// No CSRF crumb could be obtained.
    CrumbError,
}

impl JenkinsClientError {
    /// The error's message, as the client reports it.
    pub fn describe(&self) -> (res: String)
        ensures
            match self {
                JenkinsClientError::RequestError(_) => has_prefix(res@, "HTTP Request Failed: "@),
                JenkinsClientError::ApiError { status, message } => res@ == api_error_text(
                    *status,
                    message@,
                ),
                JenkinsClientError::CrumbError => res@ == "Failed to acquire CSRF crumb"@,
            },
    {
        match self {
            JenkinsClientError::RequestError(e) => {
                let mut res: String = "HTTP Request Failed: ".to_owned();
                let text = request_error_text(e);
                res.append(text.as_str());
                assert(res@.take("HTTP Request Failed: "@.len() as int) =~= "HTTP Request Failed: "@);
                res
            },
            JenkinsClientError::ApiError { status, message } => api_error_description(
                *status,
                message,
            ),
            JenkinsClientError::CrumbError => "Failed to acquire CSRF crumb".to_owned(),
        }
    }
}

/// The CSRF crumb of Jenkins: the header to send it in and its value
/// (JSON fields `crumbRequestField` and `crumb`).
#[derive(Debug)]
pub struct CrumbResponse {
    /// Name of the header that carries the crumb.
    pub field: String,
    /// Value of the crumb.
    pub crumb: String,
}

/// `{base_url}/crumbIssuer/api/json`.
pub fn crumb_url(base_url: &str) -> (res: String)
    ensures
        res@ == base_url@ + "/crumbIssuer/api/json"@,
{
    let mut res: String = base_url.to_owned();
    res.append("/crumbIssuer/api/json");
    res
}

/// What the status of a reply to a crumb request means: go on and read the crumb, or no crumb.
pub fn crumb_reply_check(status: u16) -> (res: Result<(), JenkinsClientError>)
    ensures
        spec_is_success(status) ==> res is Ok,
        !spec_is_success(status) ==> res matches Err(JenkinsClientError::CrumbError),
{
    if is_success(status) {
        Ok(())
    } else {
        Err(JenkinsClientError::CrumbError)
    }
}

/// The crumb to send: the one obtained, or a stand-in where none could be had
/// (Jenkins without CSRF protection has no crumb endpoint).
pub fn crumb_or_stand_in(fetched: Result<CrumbResponse, JenkinsClientError>) -> (res: CrumbResponse)
    ensures
        match fetched {
            Ok(c) => res == c,
            Err(_) => res.field@ == "Jenkins-Crumb"@ && res.crumb@ == "dummy"@,
        },
{
    match fetched {
        Ok(c) => c,
        Err(_) => CrumbResponse { field: "Jenkins-Crumb".to_owned(), crumb: "dummy".to_owned() },
    }
}

/// The address that starts a parameterized build of a job.
pub open spec fn build_url_spec(base_url: Seq<char>, job_name: Seq<char>) -> Seq<char> {
    base_url + "/job/"@ + job_name + "/buildWithParameters"@
}

/// `{base_url}/job/{job_name}/buildWithParameters`.
pub fn build_url(base_url: &str, job_name: &str) -> (res: String)
    ensures
        res@ == build_url_spec(base_url@, job_name@),
{
    let mut res: String = base_url.to_owned();
    res.append("/job/");
    res.append(job_name);
    res.append("/buildWithParameters");
    res
}

/// The next request of a build trigger.
#[derive(Debug)]
pub enum TriggerRequest {
    /// Ask for a CSRF crumb: `GET {url}`.
    FetchCrumb {
        /// Address of the crumb issuer.
        url: String,
    },
    /// Start the build: `POST {url}` with the crumb's header.
    StartBuild {
        /// Address that starts the build.
        url: String,
        /// Crumb to send, in the header it names.
        crumb: CrumbResponse,
    },
}

/// The next request of a build trigger, from what the crumb request has given so far:
/// first the crumb is asked for (`crumb_reply` is `None`); then, whatever its reply, the
/// build is started with the crumb obtained or the stand-in.
pub fn next_trigger_request(
    base_url: &str,
    job_name: &str,
    crumb_reply: Option<Result<CrumbResponse, JenkinsClientError>>,
) -> (res: TriggerRequest)
    ensures
        crumb_reply is None ==> (res matches TriggerRequest::FetchCrumb { url } && url@
            == base_url@ + "/crumbIssuer/api/json"@),
        crumb_reply matches Some(fetched) ==> (res matches TriggerRequest::StartBuild { url, crumb }
            && url@ == build_url_spec(base_url@, job_name@) && match fetched {
            Ok(c) => crumb == c,
            Err(_) => crumb.field@ == "Jenkins-Crumb"@ && crumb.crumb@ == "dummy"@,
        }),
{
    match crumb_reply {
        None => TriggerRequest::FetchCrumb { url: crumb_url(base_url) },
        Some(fetched) => TriggerRequest::StartBuild {
            url: build_url(base_url, job_name),
            crumb: crumb_or_stand_in(fetched),
        },
    }
}

/// What a reply to a build request means: started (success or redirection), or an API error.
pub fn trigger_outcome(status: u16, body: String) -> (res: Result<(), JenkinsClientError>)
    ensures
        (spec_is_success(status) || spec_is_redirection(status)) <==> res is Ok,
        !(spec_is_success(status) || spec_is_redirection(status)) ==> (match res {
            Err(JenkinsClientError::ApiError { status: s, message: m }) => s == status && m@
                == body@,
            _ => false,
        }),
{
    if is_success(status) || is_redirection(status) {
        Ok(())
    } else {
        Err(JenkinsClientError::ApiError { status, message: body })
    }
}

} // verus!
