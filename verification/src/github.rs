//! The PR-host-side data model and the pure parts of the PR-host client:
//! request and record shapes, response classification, and the link shown
//! when a pull request for a head branch already exists.

use vstd::prelude::*;
use crate::error::{AppError, AppErrorType};
use crate::text::{dec_str, spec_contains, contains_sub, u64_to_dec};

verus! {

/// The payload for creating a pull request.
#[derive(Debug, Clone, PartialEq)]
pub struct CreatePullRequestRequest {
    pub title: String,
    pub body: String,
    pub head: String,
    pub base: String,
}

/// A pull request as the host reports it.
#[derive(Debug, Clone, PartialEq)]
pub struct PullRequest {
    pub id: u64,
    pub number: u32,
    pub title: String,
    pub body: Option<String>,
    pub html_url: String,
    pub head: BranchInfo,
    pub base: BranchInfo,
}

#[derive(Debug, Clone, PartialEq)]
pub struct BranchInfo {
    pub ref_name: String,
    pub sha: String,
    pub repo: Option<Repository>,
}

#[derive(Debug, Clone, PartialEq)]
pub struct Repository {
    pub name: String,
    pub full_name: String,
}

#[derive(Debug, Clone, PartialEq)]
pub struct User {
    pub login: String,
    pub id: u64,
}

/// A PR-host HTTP status code that counts as success.
pub open spec fn is_success_status(status: u16) -> bool {
    200 <= status < 300
}

/// Classify the response to creating a pull request: `None` on success, else
/// the error to report, carrying the status code and response text.
pub fn classify_create_pr_response(status: u16, body: &str) -> (r: Option<AppError>)
    ensures
        r is None <==> is_success_status(status),
        !is_success_status(status) ==> (r matches Some(e)
            && e.error_type matches AppErrorType::GitHubApiError(m) && m@ == "PR 생성 실패 ("@
            + dec_str(status as nat) + "): "@ + body@),
{
    if 200 <= status && status < 300 {
        None
    } else {
        let code = u64_to_dec(status as u64);
        Some(
            AppError::new(
                AppErrorType::GitHubApiError(
                    String::from_str("PR 생성 실패 (").concat(code.as_str()).concat(
                        "): ",
                    ).concat(body),
                ),
            ),
        )
    }
}

/// Classify the response to fetching a pull request by number.
pub fn classify_get_pr_response(status: u16, body: &str) -> (r: Option<AppError>)
    ensures
        r is None <==> is_success_status(status),
        !is_success_status(status) ==> (r matches Some(e)
            && e.error_type matches AppErrorType::GitHubApiError(m) && m@ == "PR 조회 실패 ("@
            + dec_str(status as nat) + "): "@ + body@),
{
    if 200 <= status && status < 300 {
        None
    } else {
        let code = u64_to_dec(status as u64);
        Some(
            AppError::new(
                AppErrorType::GitHubApiError(
                    String::from_str("PR 조회 실패 (").concat(code.as_str()).concat(
                        "): ",
                    ).concat(body),
                ),
            ),
        )
    }
}

/// The PR host reported that a pull request for this head already exists:
/// the error is an API error whose text mentions it.
pub open spec fn spec_already_exists_error(e: AppError) -> bool {
    e.error_type matches AppErrorType::GitHubApiError(m) && spec_contains(
        m@,
        "already exists"@,
    )
}

pub fn is_already_exists_error(e: &AppError) -> (r: bool)
    ensures
        r == spec_already_exists_error(*e),
{
    match &e.error_type {
        AppErrorType::GitHubApiError(m) => contains_sub(m.as_str(), "already exists"),
        _ => false,
    }
}

/// The listing page for all open pull requests whose head is `head_branch`.
pub fn pr_listing_url(owner: &str, repo: &str, head_branch: &str) -> (r: String)
    ensures
        r@ == "https://github.com/"@ + owner@ + "/"@ + repo@ + "/pulls?q=is%3Apr+head%3A"@
            + head_branch@,
{
    String::from_str("https://github.com/").concat(owner).concat("/").concat(repo).concat(
        "/pulls?q=is%3Apr+head%3A",
    ).concat(head_branch)
}

} // verus!
