//! The OpenReview workflow: open a pull request for the current ticket
//! branch. The current branch must differ from the base branch; uncommitted
//! changes are a confirmable warning, not a hard stop. The ticket key is
//! derived from the branch name, never fabricated. The pull-request title
//! and body are enriched from the issue when it can be read, and fall back
//! to a template that still carries the ticket's tracker link. A creation
//! failure that says a pull request for this head already exists is
//! informational: the workflow reports the listing page for that head and
//! ends well.

use vstd::prelude::*;
use crate::config::strip_one_trailing_slash;
use crate::error::AppError;
use crate::github::{PullRequest, is_already_exists_error, pr_listing_url, spec_already_exists_error};
use crate::jira::Issue;
use crate::keys::{is_ticket_branch, spec_is_ticket_branch};
use crate::text::str_eq;

verus! {

/// The fixed pull-request body around the ticket's tracker link.
pub open spec fn spec_pr_body(url: Seq<char>) -> Seq<char> {
    "## 관련 티켓\n"@ + url + "\n\n## 변경사항\n- \n\n## 테스트 방법\n- "@
}

/// The pull-request body: the ticket's tracker link with empty sections for
/// the changes and the test steps.
pub fn pr_body_for(url: &str) -> (r: String)
    ensures
        r@ == spec_pr_body(url@),
{
    String::from_str("## 관련 티켓\n").concat(url).concat(
        "\n\n## 변경사항\n- \n\n## 테스트 방법\n- ",
    )
}

/// The enriched pull-request title: `[KEY] summary`.
pub fn pr_title(key: &str, summary: &str) -> (r: String)
    ensures
        r@ == "["@ + key@ + "] "@ + summary@,
{
    String::from_str("[").concat(key).concat("] ").concat(summary)
}

/// The fallback title when the issue cannot be read.
pub fn fallback_pr_title(key: &str) -> (r: String)
    ensures
        r@ == "["@ + key@ + "] 제목을 입력해주세요"@,
{
    String::from_str("[").concat(key).concat("] 제목을 입력해주세요")
}

/// The tracker page of a ticket under the given base URL.
pub fn ticket_link(jira_url: &str, key: &str) -> (r: String)
    ensures
        r@ == strip_one_trailing_slash(jira_url@) + "/browse/"@ + key@,
{
    let n = jira_url.unicode_len();
    let base = if n > 0 && jira_url.get_char(n - 1) == '/' {
        let stripped = jira_url.substring_char(0, n - 1);
        proof {
            assert(stripped@ =~= jira_url@.drop_last());
        }
        stripped.to_owned()
    } else {
        String::from_str(jira_url)
    };
    base.concat("/browse/").concat(key)
}

/// How an OpenReview run ended.
#[derive(Debug, Clone, PartialEq)]
pub enum ReviewOutcome {
    /// The current branch could not be read.
    GitFailed(AppError),
    /// The current branch is the base branch: no pull request from there.
    OnBaseBranch,
    /// The branch does not look like a ticket branch; no key is fabricated.
    CannotInferTicket,
    /// The tree was dirty and the user declined to continue.
    Declined,
    /// The pull request was opened; `status` is the ticket's status as
    /// re-read afterwards, when it could be read.
    PrOpened { number: u32, url: String, status: Option<String> },
    /// A pull request for this head already exists; `listing_url` lists it.
    PrAlreadyExists { listing_url: String },
    /// The creation failed for another reason.
    CreateFailed(AppError),
}

/// Where the OpenReview workflow stands: which external answer it waits for.
#[derive(Debug, Clone, PartialEq)]
pub enum ReviewStage {
    /// Waiting for the name of the current branch.
    CheckCurrent,
    /// Waiting for the working-tree cleanliness check.
    CheckClean,
    /// The tree is dirty; waiting for the user's decision to continue.
    ConfirmProceed,
    /// Waiting for the issue snapshot that enriches the pull request.
    FetchingIssue,
    /// Waiting for the pull-request creation.
    CreatingPr,
    /// The pull request exists; waiting for the status re-read.
    ReportingStatus { number: u32, url: String },
    /// The workflow is over.
    Done { outcome: ReviewOutcome },
}

/// The outcome of the one external action the workflow waits for.
#[derive(Debug, PartialEq)]
pub enum ReviewEvent {
    CurrentBranch(Result<String, AppError>),
    CleanChecked(bool),
    ProceedAnswered(bool),
    IssueFetched(Result<Issue, AppError>),
    PrCreated(Result<PullRequest, AppError>),
    StatusFetched(Result<Issue, AppError>),
}

/// The next external action to perform. The machine's fields carry the
/// branch, base, title and body the action concerns.
#[derive(Debug, Clone, Copy, PartialEq, Eq, Structural)]
pub enum ReviewAction {
    QueryCurrentBranch,
    QueryClean,
    PromptProceed,
    FetchIssue,
    CreatePr,
    FetchStatus,
    Report,
}

/// One OpenReview workflow run.
#[derive(Debug, Clone, PartialEq)]
pub struct ReviewMachine {
    /// The base branch pull requests are opened against.
    pub base: String,
    /// The ticket project prefix that names ticket branches.
    pub project: String,
    /// The tracker base URL, as configured.
    pub jira_url: String,
    pub repo_owner: String,
    pub repo_name: String,
    /// The current branch, once read: the head of the pull request.
    pub branch: String,
    /// The ticket key derived from the branch.
    pub ticket: String,
    /// The pull-request title, once built.
    pub title: String,
    /// The pull-request body, once built.
    pub body: String,
    pub stage: ReviewStage,
}

/// The event a stage waits for.
pub open spec fn review_stage_expects(s: ReviewStage, e: ReviewEvent) -> bool {
    match (s, e) {
        (ReviewStage::CheckCurrent, ReviewEvent::CurrentBranch(_)) => true,
        (ReviewStage::CheckClean, ReviewEvent::CleanChecked(_)) => true,
        (ReviewStage::ConfirmProceed, ReviewEvent::ProceedAnswered(_)) => true,
        (ReviewStage::FetchingIssue, ReviewEvent::IssueFetched(_)) => true,
        (ReviewStage::CreatingPr, ReviewEvent::PrCreated(_)) => true,
        (ReviewStage::ReportingStatus { .. }, ReviewEvent::StatusFetched(_)) => true,
        _ => false,
    }
}

/// Begin an OpenReview run: first read the current branch.
pub fn review_begin(
    base: &str,
    project: &str,
    jira_url: &str,
    repo_owner: &str,
    repo_name: &str,
) -> (r: (ReviewMachine, ReviewAction))
    ensures
        r.0.base@ == base@,
        r.0.project@ == project@,
        r.0.jira_url@ == jira_url@,
        r.0.repo_owner@ == repo_owner@,
        r.0.repo_name@ == repo_name@,
        r.0.stage == ReviewStage::CheckCurrent,
        r.1 == ReviewAction::QueryCurrentBranch,
{
    (
        ReviewMachine {
            base: String::from_str(base),
            project: String::from_str(project),
            jira_url: String::from_str(jira_url),
            repo_owner: String::from_str(repo_owner),
            repo_name: String::from_str(repo_name),
            branch: String::new(),
            ticket: String::new(),
            title: String::new(),
            body: String::new(),
            stage: ReviewStage::CheckCurrent,
        },
        ReviewAction::QueryCurrentBranch,
    )
}

/// Derive the ticket key from the branch once the preconditions passed: the
/// branch must look like a ticket branch of this project, else the run ends
/// without fabricating a key.
fn derive_ticket(
    base: String,
    project: String,
    jira_url: String,
    repo_owner: String,
    repo_name: String,
    branch: String,
    title: String,
    body: String,
) -> (r: (ReviewMachine, ReviewAction))
    ensures
        r.0.base == base,
        r.0.project == project,
        r.0.jira_url == jira_url,
        r.0.repo_owner == repo_owner,
        r.0.repo_name == repo_name,
        r.0.branch == branch,
        r.0.title == title,
        r.0.body == body,
        spec_is_ticket_branch(branch@, project@) ==> (r.0.stage == ReviewStage::FetchingIssue
            && r.0.ticket == branch && r.1 == ReviewAction::FetchIssue),
        !spec_is_ticket_branch(branch@, project@) ==> (r.0.stage matches ReviewStage::Done {
            outcome,
        } && outcome == ReviewOutcome::CannotInferTicket && r.1 == ReviewAction::Report),
{
    let is_ticket = is_ticket_branch(branch.as_str(), project.as_str());
    if is_ticket {
        let key = branch.clone();
        (
            ReviewMachine {
                base,
                project,
                jira_url,
                repo_owner,
                repo_name,
                branch,
                ticket: key,
                title,
                body,
                stage: ReviewStage::FetchingIssue,
            },
            ReviewAction::FetchIssue,
        )
    } else {
        (
            ReviewMachine {
                base,
                project,
                jira_url,
                repo_owner,
                repo_name,
                branch,
                ticket: String::new(),
                title,
                body,
                stage: ReviewStage::Done { outcome: ReviewOutcome::CannotInferTicket },
            },
            ReviewAction::Report,
        )
    }
}

/// One step of the OpenReview workflow: consume the answer to the pending
/// action and decide the next stage and action.
pub fn review_step(m: ReviewMachine, event: ReviewEvent) -> (r: (ReviewMachine, ReviewAction))
    requires
        review_stage_expects(m.stage, event),
    ensures
        r.0.base == m.base,
        r.0.project == m.project,
        r.0.jira_url == m.jira_url,
        r.0.repo_owner == m.repo_owner,
        r.0.repo_name == m.repo_name,
        r.0.stage is Done <==> r.1 == ReviewAction::Report,
        !(m.stage is CheckCurrent) ==> r.0.branch == m.branch,
        !(m.stage is CheckClean || m.stage is ConfirmProceed) ==> r.0.ticket == m.ticket,
        !(m.stage is FetchingIssue) ==> (r.0.title == m.title && r.0.body == m.body),
        m.stage is CheckCurrent ==> (event matches ReviewEvent::CurrentBranch(Err(e0)) ==> (
        r.0.stage matches ReviewStage::Done { outcome }
            && outcome matches ReviewOutcome::GitFailed(e1) && e1 == e0 && r.1
            == ReviewAction::Report)),
        m.stage is CheckCurrent ==> (event matches ReviewEvent::CurrentBranch(Ok(name)) ==> ((
        name@ == m.base@ ==> (r.0.stage matches ReviewStage::Done { outcome } && outcome
            == ReviewOutcome::OnBaseBranch)) && (name@ != m.base@ ==> (r.0.stage
            == ReviewStage::CheckClean && r.0.branch@ == name@ && r.1
            == ReviewAction::QueryClean)))),
        m.stage is CheckClean ==> (event matches ReviewEvent::CleanChecked(b) ==> ((b
            && spec_is_ticket_branch(m.branch@, m.project@) ==> (r.0.stage
            == ReviewStage::FetchingIssue && r.0.ticket == m.branch && r.1
            == ReviewAction::FetchIssue)) && (b && !spec_is_ticket_branch(m.branch@, m.project@)
            ==> (r.0.stage matches ReviewStage::Done { outcome } && outcome
            == ReviewOutcome::CannotInferTicket)) && (!b ==> (r.0.stage
            == ReviewStage::ConfirmProceed && r.1 == ReviewAction::PromptProceed)))),
        m.stage is ConfirmProceed ==> (event matches ReviewEvent::ProceedAnswered(b) ==> ((b
            && spec_is_ticket_branch(m.branch@, m.project@) ==> (r.0.stage
            == ReviewStage::FetchingIssue && r.0.ticket == m.branch && r.1
            == ReviewAction::FetchIssue)) && (b && !spec_is_ticket_branch(m.branch@, m.project@)
            ==> (r.0.stage matches ReviewStage::Done { outcome } && outcome
            == ReviewOutcome::CannotInferTicket)) && (!b ==> (r.0.stage matches ReviewStage::Done {
            outcome,
        } && outcome == ReviewOutcome::Declined)))),
        m.stage is FetchingIssue ==> (event matches ReviewEvent::IssueFetched(Ok(issue)) ==> (
        r.0.stage == ReviewStage::CreatingPr && r.1 == ReviewAction::CreatePr && r.0.title@ == "["@
            + issue.key@ + "] "@ + issue.fields.summary@ && r.0.body@ == spec_pr_body(
            strip_one_trailing_slash(m.jira_url@) + "/browse/"@ + issue.key@,
        ))),
        m.stage is FetchingIssue ==> (event matches ReviewEvent::IssueFetched(Err(_)) ==> (
        r.0.stage == ReviewStage::CreatingPr && r.1 == ReviewAction::CreatePr && r.0.title@ == "["@
            + m.ticket@ + "] 제목을 입력해주세요"@ && r.0.body@ == spec_pr_body(
            strip_one_trailing_slash(m.jira_url@) + "/browse/"@ + m.ticket@,
        ))),
        m.stage is CreatingPr ==> (event matches ReviewEvent::PrCreated(Ok(pr)) ==> (
        r.0.stage matches ReviewStage::ReportingStatus { number, url } && number == pr.number
            && url == pr.html_url && r.1 == ReviewAction::FetchStatus)),
        m.stage is CreatingPr ==> (event matches ReviewEvent::PrCreated(Err(e0)) ==> ((
        spec_already_exists_error(e0) ==> (r.0.stage matches ReviewStage::Done { outcome }
            && outcome matches ReviewOutcome::PrAlreadyExists { listing_url } && listing_url@
            == "https://github.com/"@ + m.repo_owner@ + "/"@ + m.repo_name@
            + "/pulls?q=is%3Apr+head%3A"@ + m.branch@)) && (!spec_already_exists_error(e0) ==> (
        r.0.stage matches ReviewStage::Done { outcome }
            && outcome matches ReviewOutcome::CreateFailed(e1) && e1 == e0)))),
        m.stage matches ReviewStage::ReportingStatus { number: n0, url: u0 } ==> (
        event matches ReviewEvent::StatusFetched(res) ==> (r.0.stage matches ReviewStage::Done {
            outcome,
        } && outcome matches ReviewOutcome::PrOpened { number, url, status } && number == n0 && url
            == u0 && (res matches Ok(issue) ==> status matches Some(st) && st@
            == issue.fields.status.name@) && (res is Err ==> status is None))),
{
    let ReviewMachine {
        base,
        project,
        jira_url,
        repo_owner,
        repo_name,
        branch,
        ticket,
        title,
        body,
        stage,
    } = m;
    match (stage, event) {
        (ReviewStage::CheckCurrent, ReviewEvent::CurrentBranch(Ok(name))) => {
            let on_base = str_eq(name.as_str(), base.as_str());
            if on_base {
                (
                    ReviewMachine {
                        base,
                        project,
                        jira_url,
                        repo_owner,
                        repo_name,
                        branch,
                        ticket,
                        title,
                        body,
                        stage: ReviewStage::Done { outcome: ReviewOutcome::OnBaseBranch },
                    },
                    ReviewAction::Report,
                )
            } else {
                (
                    ReviewMachine {
                        base,
                        project,
                        jira_url,
                        repo_owner,
                        repo_name,
                        branch: name,
                        ticket,
                        title,
                        body,
                        stage: ReviewStage::CheckClean,
                    },
                    ReviewAction::QueryClean,
                )
            }
        },
        (ReviewStage::CheckCurrent, ReviewEvent::CurrentBranch(Err(e))) => (
            ReviewMachine {
                base,
                project,
                jira_url,
                repo_owner,
                repo_name,
                branch,
                ticket,
                title,
                body,
                stage: ReviewStage::Done { outcome: ReviewOutcome::GitFailed(e) },
            },
            ReviewAction::Report,
        ),
        (ReviewStage::CheckClean, ReviewEvent::CleanChecked(clean)) => {
            if clean {
                derive_ticket(base, project, jira_url, repo_owner, repo_name, branch, title, body)
            } else {
                (
                    ReviewMachine {
                        base,
                        project,
                        jira_url,
                        repo_owner,
                        repo_name,
                        branch,
                        ticket,
                        title,
                        body,
                        stage: ReviewStage::ConfirmProceed,
                    },
                    ReviewAction::PromptProceed,
                )
            }
        },
        (ReviewStage::ConfirmProceed, ReviewEvent::ProceedAnswered(go_on)) => {
            if go_on {
                derive_ticket(base, project, jira_url, repo_owner, repo_name, branch, title, body)
            } else {
                (
                    ReviewMachine {
                        base,
                        project,
                        jira_url,
                        repo_owner,
                        repo_name,
                        branch,
                        ticket,
                        title,
                        body,
                        stage: ReviewStage::Done { outcome: ReviewOutcome::Declined },
                    },
                    ReviewAction::Report,
                )
            }
        },
        (ReviewStage::FetchingIssue, ReviewEvent::IssueFetched(Ok(issue))) => {
            let url = ticket_link(jira_url.as_str(), issue.key.as_str());
            let new_title = pr_title(issue.key.as_str(), issue.fields.summary.as_str());
            let new_body = pr_body_for(url.as_str());
            (
                ReviewMachine {
                    base,
                    project,
                    jira_url,
                    repo_owner,
                    repo_name,
                    branch,
                    ticket,
                    title: new_title,
                    body: new_body,
                    stage: ReviewStage::CreatingPr,
                },
                ReviewAction::CreatePr,
            )
        },
        (ReviewStage::FetchingIssue, ReviewEvent::IssueFetched(Err(_))) => {
            let url = ticket_link(jira_url.as_str(), ticket.as_str());
            let new_title = fallback_pr_title(ticket.as_str());
            let new_body = pr_body_for(url.as_str());
            (
                ReviewMachine {
                    base,
                    project,
                    jira_url,
                    repo_owner,
                    repo_name,
                    branch,
                    ticket,
                    title: new_title,
                    body: new_body,
                    stage: ReviewStage::CreatingPr,
                },
                ReviewAction::CreatePr,
            )
        },
        (ReviewStage::CreatingPr, ReviewEvent::PrCreated(Ok(pr))) => (
            ReviewMachine {
                base,
                project,
                jira_url,
                repo_owner,
                repo_name,
                branch,
                ticket,
                title,
                body,
                stage: ReviewStage::ReportingStatus { number: pr.number, url: pr.html_url },
            },
            ReviewAction::FetchStatus,
        ),
        (ReviewStage::CreatingPr, ReviewEvent::PrCreated(Err(e))) => {
            let exists = is_already_exists_error(&e);
            if exists {
                let listing_url = pr_listing_url(
                    repo_owner.as_str(),
                    repo_name.as_str(),
                    branch.as_str(),
                );
                (
                    ReviewMachine {
                        base,
                        project,
                        jira_url,
                        repo_owner,
                        repo_name,
                        branch,
                        ticket,
                        title,
                        body,
                        stage: ReviewStage::Done {
                            outcome: ReviewOutcome::PrAlreadyExists { listing_url },
                        },
                    },
                    ReviewAction::Report,
                )
            } else {
                (
                    ReviewMachine {
                        base,
                        project,
                        jira_url,
                        repo_owner,
                        repo_name,
                        branch,
                        ticket,
                        title,
                        body,
                        stage: ReviewStage::Done { outcome: ReviewOutcome::CreateFailed(e) },
                    },
                    ReviewAction::Report,
                )
            }
        },
        (ReviewStage::ReportingStatus { number, url }, ReviewEvent::StatusFetched(res)) => {
            let status = match res {
                Ok(issue) => Some(issue.fields.status.name),
                Err(_) => None,
            };
            (
                ReviewMachine {
                    base,
                    project,
                    jira_url,
                    repo_owner,
                    repo_name,
                    branch,
                    ticket,
                    title,
                    body,
                    stage: ReviewStage::Done {
                        outcome: ReviewOutcome::PrOpened { number, url, status },
                    },
                },
                ReviewAction::Report,
            )
        },
        (s, _) => {
            proof {
                assert(false);
            }
            (
                ReviewMachine {
                    base,
                    project,
                    jira_url,
                    repo_owner,
                    repo_name,
                    branch,
                    ticket,
                    title,
                    body,
                    stage: s,
                },
                ReviewAction::Report,
            )
        },
    }
}

} // verus!
