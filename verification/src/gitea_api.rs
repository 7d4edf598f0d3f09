//! Decisions of the Gitea REST client: the requests it sends and what a reply means.

use crate::http_status::{is_success, spec_is_success};
use crate::text::{append_decimal_digits, decimal_digits, has_prefix, trim_end_char, trim_end_char_exec};
use vstd::prelude::*;

verus! {

/// A failure of the HTTP transport, carried unread.
#[verifier::external_type_specification]
#[verifier::external_body]
pub struct ExRequestError(reqwest::Error);

/// Errors of the Gitea client.
#[derive(Debug)]
pub enum GiteaClientError {
    /// The HTTP request failed at the transport level.
    RequestError(reqwest::Error),
    /// The Gitea API answered with a status other than success.
    ApiError {
        /// HTTP status of the reply.
        status: u16,
        /// Body of the reply.
        message: String,
    },
}

/// Text of a transport error (the `Display` of `reqwest::Error`). Nothing is claimed of it.
#[verifier::external_body]
pub(crate) fn request_error_text(e: &reqwest::Error) -> String {
    format!("{}", e)
}

/// Text of an API error: `API Error: {status} - {message}`.
pub open spec fn api_error_text(status: u16, message: Seq<char>) -> Seq<char> {
    "API Error: "@ + decimal_digits(status as nat) + " - "@ + message
}

/// Writes `API Error: {status} - {message}`.
pub(crate) fn api_error_description(status: u16, message: &String) -> (res: String)
    ensures
        res@ == api_error_text(status, message@),
{
    let mut res: String = "API Error: ".to_owned();
    append_decimal_digits(&mut res, status as u64);
    res.append(" - ");
    res.append(message.as_str());
    res
}

impl GiteaClientError {
    /// The error's message: `HTTP Request Failed: {error}` or `API Error: {status} - {message}`.
    pub fn describe(&self) -> (res: String)
        ensures
            match self {
                GiteaClientError::RequestError(_) => has_prefix(res@, "HTTP Request Failed: "@),
                GiteaClientError::ApiError { status, message } => res@ == api_error_text(
                    *status,
                    message@,
                ),
            },
    {
        match self {
            GiteaClientError::RequestError(e) => {
                let mut res: String = "HTTP Request Failed: ".to_owned();
                let text = request_error_text(e);
                res.append(text.as_str());
                assert(res@.take("HTTP Request Failed: "@.len() as int) =~= "HTTP Request Failed: "@);
                res
            },
            GiteaClientError::ApiError { status, message } => api_error_description(*status, message),
        }
    }
}

/// A base URL without its trailing slashes, as the clients keep it.
pub fn normalize_base_url(base_url: &str) -> (res: String)
    ensures
        res@ == trim_end_char(base_url@, '/'),
{
    trim_end_char_exec(base_url, '/')
}

/// The address of the commit statuses of a commit.
pub open spec fn commit_status_url_spec(
    base_url: Seq<char>,
    owner: Seq<char>,
    repo: Seq<char>,
    sha: Seq<char>,
) -> Seq<char> {
    base_url + "/api/v1/repos/"@ + owner + "/"@ + repo + "/statuses/"@ + sha
}

/// `{base_url}/api/v1/repos/{owner}/{repo}/statuses/{sha}`.
pub fn commit_status_url(base_url: &str, owner: &str, repo: &str, sha: &str) -> (res: String)
    ensures
        res@ == commit_status_url_spec(base_url@, owner@, repo@, sha@),
{
    let mut res: String = base_url.to_owned();
    res.append("/api/v1/repos/");
    res.append(owner);
    res.append("/");
    res.append(repo);
    res.append("/statuses/");
    res.append(sha);
    res
}

/// The `Authorization` header for a Gitea token: `token {token}`.
pub fn token_authorization(token: &str) -> (res: String)
    ensures
        res@ == "token "@ + token@,
{
    let mut res: String = "token ".to_owned();
    res.append(token);
    res
}

/// What a reply to a commit status request means: success, or an API error with its status and body.
pub fn commit_status_outcome(status: u16, body: String) -> (res: Result<(), GiteaClientError>)
    ensures
        spec_is_success(status) <==> res is Ok,
        !spec_is_success(status) ==> (match res {
            Err(GiteaClientError::ApiError { status: s, message: m }) => s == status && m@ == body@,
            _ => false,
        }),
{
    if is_success(status) {
        Ok(())
    } else {
        Err(GiteaClientError::ApiError { status, message: body })
    }
}

} // verus!
