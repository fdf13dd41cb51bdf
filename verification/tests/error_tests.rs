use jgf::auth::basic_auth_header;
use jgf::error::{AppError, AppErrorExt, AppErrorType};
use jgf::github::{
    classify_create_pr_response, classify_get_pr_response, is_already_exists_error,
    pr_listing_url,
};
use jgf::jira::{
    classify_connection_response, classify_jira_response, classify_transition_response,
    effective_search_limit, jql_for_assignee, jql_for_status,
};
use jgf::text::{contains_sub, eq_ignore_case, starts_with, str_eq, u64_to_dec};

#[test]
fn error_messages_are_exact() {
    assert_eq!(
        AppError::new(AppErrorType::GitBranchExists).message(),
        "❌ 브랜치가 이미 존재합니다"
    );
    assert_eq!(
        AppError::not_found(String::from("x")).message(),
        "❌ 찾을 수 없음: x"
    );
    assert_eq!(
        AppError::git_error(String::from("boom")).message(),
        "❌ Git 오류: boom"
    );
    assert_eq!(
        AppError::new(AppErrorType::GitUncommittedChanges).message(),
        "❌ 커밋되지 않은 변경사항이 있습니다"
    );
}

#[test]
fn with_app_type_attaches_the_condition_to_failures_only() {
    let ok: Result<i32, String> = Ok(5);
    assert_eq!(ok.with_app_type(AppErrorType::JiraConnectionError).unwrap(), 5);
    let err: Result<i32, String> = Err(String::from("io"));
    let e = err.with_app_type(AppErrorType::JiraConnectionError).unwrap_err();
    assert_eq!(e.error_type, AppErrorType::JiraConnectionError);
}

#[test]
fn jira_response_classification() {
    assert!(classify_jira_response(200, "이슈 조회: ABC-1", "").is_none());
    assert!(classify_jira_response(204, "이슈 조회: ABC-1", "").is_none());
    let e = classify_jira_response(401, "이슈 조회: ABC-1", "").unwrap();
    assert_eq!(e.error_type, AppErrorType::JiraAuthenticationError);
    let e = classify_jira_response(404, "이슈 조회: ABC-1", "").unwrap();
    assert_eq!(
        e.error_type,
        AppErrorType::JiraTicketNotFound(String::from(
            "이슈 조회: ABC-1: 리소스를 찾을 수 없음"
        ))
    );
    let e = classify_jira_response(500, "이슈 조회: ABC-1", "oops").unwrap();
    assert_eq!(
        e.error_type,
        AppErrorType::JiraApiError(String::from("이슈 조회: ABC-1: 500 - oops"))
    );
}

#[test]
fn transition_response_classification() {
    assert!(classify_transition_response(204, "ABC-1", "").is_none());
    let e = classify_transition_response(400, "ABC-1", "").unwrap();
    assert_eq!(e.error_type, AppErrorType::JiraTransitionNotAllowed);
    let e = classify_transition_response(409, "ABC-1", "conflict").unwrap();
    assert_eq!(
        e.error_type,
        AppErrorType::JiraApiError(String::from("상태 전환 실패 (ABC-1): conflict"))
    );
}

#[test]
fn connection_response_classification() {
    assert!(classify_connection_response(200).is_none());
    let e = classify_connection_response(401).unwrap();
    assert_eq!(e.error_type, AppErrorType::JiraAuthenticationError);
    let e = classify_connection_response(503).unwrap();
    assert_eq!(e.error_type, AppErrorType::JiraConnectionError);
}

#[test]
fn pr_host_response_classification() {
    assert!(classify_create_pr_response(201, "").is_none());
    let e = classify_create_pr_response(422, "boom").unwrap();
    assert_eq!(
        e.error_type,
        AppErrorType::GitHubApiError(String::from("PR 생성 실패 (422): boom"))
    );
    let e = classify_get_pr_response(404, "gone").unwrap();
    assert_eq!(
        e.error_type,
        AppErrorType::GitHubApiError(String::from("PR 조회 실패 (404): gone"))
    );
}

#[test]
fn existing_pr_detection() {
    let e = classify_create_pr_response(
        422,
        "Validation Failed: A pull request already exists for acme:ABC-12.",
    )
    .unwrap();
    assert!(is_already_exists_error(&e));
    let other = classify_create_pr_response(500, "server error").unwrap();
    assert!(!is_already_exists_error(&other));
    let git = AppError::git_error(String::from("already exists"));
    assert!(!is_already_exists_error(&git));
}

#[test]
fn decimal_rendering() {
    assert_eq!(u64_to_dec(0), "0");
    assert_eq!(u64_to_dec(7), "7");
    assert_eq!(u64_to_dec(42), "42");
    assert_eq!(u64_to_dec(1000), "1000");
    assert_eq!(u64_to_dec(65535), "65535");
}

#[test]
fn search_clauses_are_exact() {
    assert_eq!(
        jql_for_assignee("ABC", "dev@example.com"),
        "project = ABC AND assignee = \"dev@example.com\" ORDER BY priority DESC, updated DESC"
    );
    assert_eq!(
        jql_for_status("ABC", "In Progress"),
        "project = ABC AND status = \"In Progress\" ORDER BY updated DESC"
    );
    assert_eq!(effective_search_limit(None), 50);
    assert_eq!(effective_search_limit(Some(10)), 10);
}

#[test]
fn listing_url_is_exact() {
    assert_eq!(
        pr_listing_url("acme", "widget", "ABC-12"),
        "https://github.com/acme/widget/pulls?q=is%3Apr+head%3AABC-12"
    );
}

#[test]
fn text_helpers() {
    assert!(str_eq("abc", "abc"));
    assert!(!str_eq("abc", "abd"));
    assert!(!str_eq("abc", "ab"));
    assert!(eq_ignore_case("Start Progress", "start progress"));
    assert!(!eq_ignore_case("Start", "start progress"));
    assert!(starts_with("https://x", "https://"));
    assert!(!starts_with("http://x", "https://"));
    assert!(contains_sub("a pull request already exists for", "already exists"));
    assert!(!contains_sub("all good", "already exists"));
    assert!(contains_sub("anything", ""));
}

#[test]
fn basic_auth_header_is_the_encoded_account() {
    assert_eq!(basic_auth_header("user", "tok"), "Basic dXNlcjp0b2s=");
    assert_eq!(basic_auth_header("", ""), "Basic Og==");
}
