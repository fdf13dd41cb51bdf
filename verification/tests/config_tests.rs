use jgf::config::Config;
use jgf::error::AppErrorType;

fn base_config() -> Config {
    Config {
        jira_url: String::from("https://example.atlassian.net"),
        jira_project: String::from("ABC"),
        jira_username: String::from("dev@example.com"),
        jira_token: String::from("jt"),
        github_token: String::from("ght"),
        repo_owner: String::from("acme"),
        repo_name: String::from("widget"),
        default_branch: String::from("main"),
        project_name: String::from("widget"),
        project_root: None,
        pr_template_content: None,
    }
}

#[test]
fn validate_accepts_a_complete_config() {
    assert!(base_config().validate().is_ok());
    let mut http = base_config();
    http.jira_url = String::from("http://jira.internal");
    assert!(http.validate().is_ok());
}

#[test]
fn validate_rejects_an_empty_tracker_url() {
    let mut c = base_config();
    c.jira_url = String::new();
    let e = c.validate().unwrap_err();
    assert_eq!(
        e.error_type,
        AppErrorType::ValidationError(String::from("JIRA_URL이 비어있습니다"))
    );
}

#[test]
fn validate_rejects_a_schemeless_tracker_url() {
    let mut c = base_config();
    c.jira_url = String::from("example.atlassian.net");
    let e = c.validate().unwrap_err();
    assert_eq!(
        e.error_type,
        AppErrorType::ValidationError(String::from(
            "JIRA_URL은 http:// 또는 https://로 시작해야 합니다"
        ))
    );
}

#[test]
fn validate_rejects_a_missing_pr_host_token() {
    let mut c = base_config();
    c.github_token = String::new();
    let e = c.validate().unwrap_err();
    assert_eq!(
        e.error_type,
        AppErrorType::ValidationError(String::from("GITHUB_TOKEN이 비어있습니다"))
    );
}

#[test]
fn validate_rejects_a_lowercase_project_key() {
    let mut c = base_config();
    c.jira_project = String::from("abc");
    let e = c.validate().unwrap_err();
    assert_eq!(
        e.error_type,
        AppErrorType::ValidationError(String::from(
            "JIRA_PROJECT는 대문자와 숫자만 포함해야 합니다"
        ))
    );
}

#[test]
fn base_url_strips_one_trailing_separator_exactly_once() {
    let mut c = base_config();
    c.jira_url = String::from("https://example.atlassian.net/");
    assert_eq!(c.get_jira_base_url(), "https://example.atlassian.net");
    c.jira_url = String::from("https://example.atlassian.net//");
    assert_eq!(c.get_jira_base_url(), "https://example.atlassian.net/");
    c.jira_url = String::from("https://example.atlassian.net");
    assert_eq!(c.get_jira_base_url(), "https://example.atlassian.net");
}

#[test]
fn ticket_and_repo_urls() {
    let c = base_config();
    assert_eq!(
        c.get_jira_ticket_url("ABC-12"),
        "https://example.atlassian.net/browse/ABC-12"
    );
    assert_eq!(c.get_github_repo_url(), "https://github.com/acme/widget");
}
