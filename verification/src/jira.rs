//! The tracker-side data model and the pure parts of the tracker client:
//! issue snapshots, workflow transitions, search-query construction and the
//! classification of tracker responses. The network transport itself lives
//! outside the library and hands plain status codes and bodies in.

use vstd::prelude::*;
use crate::error::{AppError, AppErrorType};
use crate::text::dec_str;
use crate::text::u64_to_dec;

verus! {

/// A workflow status of an issue.
#[derive(Debug, Clone, PartialEq)]
pub struct Status {
    pub id: String,
    pub name: String,
    pub description: Option<String>,
    pub status_category: Option<StatusCategory>,
}

#[derive(Debug, Clone, PartialEq)]
pub struct StatusCategory {
    pub id: i32,
    pub key: String,
    pub name: String,
}

#[derive(Debug, Clone, PartialEq)]
pub struct Priority {
    pub id: Option<String>,
    pub name: String,
    pub icon_url: Option<String>,
}

#[derive(Debug, Clone, PartialEq)]
pub struct User {
    pub account_id: Option<String>,
    pub email_address: Option<String>,
    pub display_name: Option<String>,
    pub active: Option<bool>,
}

#[derive(Debug, Clone, PartialEq)]
pub struct IssueType {
    pub id: String,
    pub name: String,
    pub description: Option<String>,
    pub subtask: bool,
}

#[derive(Debug, Clone, PartialEq)]
pub struct Project {
    pub id: String,
    pub key: String,
    pub name: String,
}

/// The fields of an issue snapshot. Timestamps are carried as Unix seconds.
#[derive(Debug, Clone, PartialEq)]
pub struct IssueFields {
    pub summary: String,
    pub description: Option<String>,
    pub status: Status,
    pub priority: Option<Priority>,
    pub assignee: Option<User>,
    pub reporter: Option<User>,
    pub created: i64,
    pub updated: i64,
    pub issuetype: IssueType,
    pub project: Project,
}

/// A fresh snapshot of one issue; never cached across workflow steps.
#[derive(Debug, Clone, PartialEq)]
pub struct Issue {
    pub id: String,
    pub key: String,
    pub fields: IssueFields,
}

/// One page of search results.
#[derive(Debug, Clone, PartialEq)]
pub struct SearchResults {
    pub expand: Option<String>,
    pub start_at: i32,
    pub max_results: i32,
    pub total: i32,
    pub issues: Vec<Issue>,
}

/// A workflow transition currently available on an issue: an opaque id, a
/// display name and the destination status.
#[derive(Debug, Clone, PartialEq)]
pub struct Transition {
    pub id: String,
    pub name: String,
    pub to: Status,
}

#[derive(Debug, Clone, PartialEq)]
pub struct TransitionList {
    pub transitions: Vec<Transition>,
}

#[derive(Debug, Clone, PartialEq)]
pub struct TransitionRequest {
    pub transition: TransitionId,
}

#[derive(Debug, Clone, PartialEq)]
pub struct TransitionId {
    pub id: String,
}

impl Issue {
    /// `[KEY] summary`.
    pub fn format_summary(&self) -> (r: String)
        ensures
            r@ == "["@ + self.key@ + "] "@ + self.fields.summary@,
    {
        String::from_str("[").concat(self.key.as_str()).concat("] ").concat(
            self.fields.summary.as_str(),
        )
    }

    /// The name of the current status.
    pub fn format_status(&self) -> (r: String)
        ensures
            r@ == self.fields.status.name@,
    {
        self.fields.status.name.clone()
    }

    /// The assignee's display name, or a fixed placeholder when the issue is
    /// unassigned or the assignee has no display name.
    pub fn format_assignee(&self) -> (r: String)
        ensures
            match self.fields.assignee {
                Some(u) => match u.display_name {
                    Some(n) => r@ == n@,
                    None => r@ == "미할당"@,
                },
                None => r@ == "미할당"@,
            },
    {
        match &self.fields.assignee {
            Some(u) => match &u.display_name {
                Some(n) => n.clone(),
                None => String::from_str("미할당"),
            },
            None => String::from_str("미할당"),
        }
    }

    /// The priority's name, or a fixed placeholder when the issue has none.
    pub fn format_priority(&self) -> (r: String)
        ensures
            match self.fields.priority {
                Some(p) => r@ == p.name@,
                None => r@ == "없음"@,
            },
    {
        match &self.fields.priority {
            Some(p) => p.name.clone(),
            None => String::from_str("없음"),
        }
    }
}

/// The line a ticket is offered under in an interactive listing:
/// `KEY - summary`.
pub fn ticket_option_line(issue: &Issue) -> (r: String)
    ensures
        r@ == issue.key@ + " - "@ + issue.fields.summary@,
{
    issue.key.clone().concat(" - ").concat(issue.fields.summary.as_str())
}

/// The position of a chosen line among the offered ones: the first index
/// holding exactly that string.
pub fn index_of_line(options: &Vec<String>, chosen: &str) -> (r: Option<usize>)
    ensures
        r matches Some(i) ==> i < options@.len() && options@[i as int]@ == chosen@ && (forall|
            j: int,
        |
            0 <= j < i ==> (#[trigger] options@[j])@ != chosen@),
        r is None ==> forall|j: int| 0 <= j < options@.len() ==> (#[trigger] options@[j])@
            != chosen@,
{
    let n = options.len();
    let mut i: usize = 0;
    while i < n
        invariant
            n == options@.len(),
            i <= n,
            forall|j: int| 0 <= j < i ==> (#[trigger] options@[j])@ != chosen@,
        decreases n - i,
    {
        if crate::text::str_eq(options[i].as_str(), chosen) {
            return Some(i);
        }
        i = i + 1;
    }
    None
}

/// The search clause for all issues of a project assigned to one person,
/// most urgent and most recently updated first.
pub fn jql_for_assignee(project_key: &str, assignee_email: &str) -> (r: String)
    ensures
        r@ == "project = "@ + project_key@ + " AND assignee = \""@ + assignee_email@
            + "\" ORDER BY priority DESC, updated DESC"@,
{
    String::from_str("project = ").concat(project_key).concat(" AND assignee = \"").concat(
        assignee_email,
    ).concat("\" ORDER BY priority DESC, updated DESC")
}

/// The search clause for all issues of a project in one status, most
/// recently updated first.
pub fn jql_for_status(project_key: &str, status: &str) -> (r: String)
    ensures
        r@ == "project = "@ + project_key@ + " AND status = \""@ + status@
            + "\" ORDER BY updated DESC"@,
{
    String::from_str("project = ").concat(project_key).concat(" AND status = \"").concat(
        status,
    ).concat("\" ORDER BY updated DESC")
}

/// The page size a search uses when the caller gives none.
pub fn effective_search_limit(limit: Option<i32>) -> (r: i32)
    ensures
        r == match limit {
            Some(l) => l,
            None => 50i32,
        },
{
    match limit {
        Some(l) => l,
        None => 50,
    }
}

/// A tracker HTTP status code that counts as success.
pub open spec fn is_success_status(status: u16) -> bool {
    200 <= status < 300
}

/// Classify a tracker response by its status code, as the error to report,
/// or `None` on success. `context` names the request for the message; `body`
/// is the response text.
///
/// Relies on nothing outside the crate: the caller performs the request and
/// hands the code and body in.
pub fn classify_jira_response(status: u16, context: &str, body: &str) -> (r: Option<AppError>)
    ensures
        r is None <==> is_success_status(status),
        !is_success_status(status) && status == 401 ==> (r matches Some(e) && e.error_type
            == AppErrorType::JiraAuthenticationError),
        !is_success_status(status) && status == 404 ==> (r matches Some(e)
            && e.error_type matches AppErrorType::JiraTicketNotFound(m) && m@ == context@
            + ": 리소스를 찾을 수 없음"@),
        !is_success_status(status) && status != 401 && status != 404 ==> (r matches Some(e)
            && e.error_type matches AppErrorType::JiraApiError(m) && m@ == context@ + ": "@
            + dec_str(status as nat) + " - "@ + body@),
{
    if 200 <= status && status < 300 {
        None
    } else if status == 401 {
        Some(AppError::new(AppErrorType::JiraAuthenticationError))
    } else if status == 404 {
        Some(
            AppError::new(
                AppErrorType::JiraTicketNotFound(
                    String::from_str(context).concat(": 리소스를 찾을 수 없음"),
                ),
            ),
        )
    } else {
        let code = u64_to_dec(status as u64);
        Some(
            AppError::new(
                AppErrorType::JiraApiError(
                    String::from_str(context).concat(": ").concat(code.as_str()).concat(
                        " - ",
                    ).concat(body),
                ),
            ),
        )
    }
}

/// Classify the response to applying a transition: success, a rejected
/// transition, or a general tracker error carrying the response text.
pub fn classify_transition_response(status: u16, issue_key: &str, body: &str) -> (r: Option<
    AppError,
>)
    ensures
        r is None <==> is_success_status(status),
        !is_success_status(status) && status == 400 ==> (r matches Some(e) && e.error_type
            == AppErrorType::JiraTransitionNotAllowed),
        !is_success_status(status) && status != 400 ==> (r matches Some(e)
            && e.error_type matches AppErrorType::JiraApiError(m) && m@ == "상태 전환 실패 ("@
            + issue_key@ + "): "@ + body@),
{
    if 200 <= status && status < 300 {
        None
    } else if status == 400 {
        Some(AppError::new(AppErrorType::JiraTransitionNotAllowed))
    } else {
        Some(
            AppError::new(
                AppErrorType::JiraApiError(
                    String::from_str("상태 전환 실패 (").concat(issue_key).concat(
                        "): ",
                    ).concat(body),
                ),
            ),
        )
    }
}

/// Classify the response to a connection probe: success, an authentication
/// failure, or a connection failure.
pub fn classify_connection_response(status: u16) -> (r: Option<AppError>)
    ensures
        r is None <==> is_success_status(status),
        !is_success_status(status) && status == 401 ==> (r matches Some(e) && e.error_type
            == AppErrorType::JiraAuthenticationError),
        !is_success_status(status) && status != 401 ==> (r matches Some(e) && e.error_type
            == AppErrorType::JiraConnectionError),
{
    if 200 <= status && status < 300 {
        None
    } else if status == 401 {
        Some(AppError::new(AppErrorType::JiraAuthenticationError))
    } else {
        Some(AppError::new(AppErrorType::JiraConnectionError))
    }
}

} // verus!
