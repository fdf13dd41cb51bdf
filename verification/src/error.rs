//! The crate's error values. Every fallible operation of the workflows
//! reports one of these typed conditions; the text of each condition is
//! available through [`AppError::message`].

use vstd::prelude::*;

verus! {

/// The typed error conditions of the workflows.
#[derive(Debug, Clone, PartialEq)]
pub enum AppErrorType {
    NotFound(String),
    IoError(String),
    ConfigError(String),
    ValidationError(String),
    GitError(String),
    GitBranchExists,
    GitNoCurrentBranch,
    GitUncommittedChanges,
    JiraConnectionError,
    JiraAuthenticationError,
    JiraTicketNotFound(String),
    JiraTransitionNotAllowed,
    JiraApiError(String),
    GitHubConnectionError,
    GitHubAuthenticationError,
    GitHubRepoNotFound,
    GitHubPrCreateFailed,
    GitHubApiError(String),
    Unknown(String),
}

/// An error as the workflows hand it back to the caller.
#[derive(Debug, Clone, PartialEq)]
pub struct AppError {
    pub error_type: AppErrorType,
}

pub type AppResult<T> = Result<T, AppError>;

/// The user-facing text of an error condition.
pub open spec fn error_text(t: AppErrorType) -> Seq<char> {
    match t {
        AppErrorType::NotFound(m) => "❌ 찾을 수 없음: "@ + m@,
        AppErrorType::IoError(m) => "❌ 파일 시스템 오류: "@ + m@,
        AppErrorType::ConfigError(m) => "❌ 설정 오류: "@ + m@,
        AppErrorType::ValidationError(m) => "❌ 유효성 검사 실패: "@ + m@,
        AppErrorType::GitError(m) => "❌ Git 오류: "@ + m@,
        AppErrorType::GitBranchExists => "❌ 브랜치가 이미 존재합니다"@,
        AppErrorType::GitNoCurrentBranch => "❌ 현재 브랜치를 찾을 수 없습니다"@,
        AppErrorType::GitUncommittedChanges => "❌ 커밋되지 않은 변경사항이 있습니다"@,
        AppErrorType::JiraConnectionError => "❌ Jira 연결 실패"@,
        AppErrorType::JiraAuthenticationError => "❌ Jira 인증 실패"@,
        AppErrorType::JiraTicketNotFound(m) => "❌ Jira 티켓을 찾을 수 없음: "@ + m@,
        AppErrorType::JiraTransitionNotAllowed => "❌ Jira 상태 변경이 허용되지 않습니다"@,
        AppErrorType::JiraApiError(m) => "❌ Jira API 오류: "@ + m@,
        AppErrorType::GitHubConnectionError => "❌ GitHub 연결 실패"@,
        AppErrorType::GitHubAuthenticationError => "❌ GitHub 인증 실패"@,
        AppErrorType::GitHubRepoNotFound => "❌ GitHub 저장소를 찾을 수 없습니다"@,
        AppErrorType::GitHubPrCreateFailed => "❌ PR 생성 실패"@,
        AppErrorType::GitHubApiError(m) => "❌ GitHub API 오류: "@ + m@,
        AppErrorType::Unknown(m) => "❌ 오류: "@ + m@,
    }
}

impl AppError {
    pub fn new(error_type: AppErrorType) -> (r: Self)
        ensures
            r.error_type == error_type,
    {
        AppError { error_type }
    }

    pub fn not_found(msg: String) -> (r: Self)
        ensures
            r.error_type == AppErrorType::NotFound(msg),
    {
        AppError { error_type: AppErrorType::NotFound(msg) }
    }

    pub fn config_error(msg: String) -> (r: Self)
        ensures
            r.error_type == AppErrorType::ConfigError(msg),
    {
        AppError { error_type: AppErrorType::ConfigError(msg) }
    }

    pub fn validation_error(msg: String) -> (r: Self)
        ensures
            r.error_type == AppErrorType::ValidationError(msg),
    {
        AppError { error_type: AppErrorType::ValidationError(msg) }
    }

    pub fn git_error(msg: String) -> (r: Self)
        ensures
            r.error_type == AppErrorType::GitError(msg),
    {
        AppError { error_type: AppErrorType::GitError(msg) }
    }

    pub fn jira_api_error(msg: String) -> (r: Self)
        ensures
            r.error_type == AppErrorType::JiraApiError(msg),
    {
        AppError { error_type: AppErrorType::JiraApiError(msg) }
    }

    pub fn github_api_error(msg: String) -> (r: Self)
        ensures
            r.error_type == AppErrorType::GitHubApiError(msg),
    {
        AppError { error_type: AppErrorType::GitHubApiError(msg) }
    }

    /// The user-facing text of this error.
    pub fn message(&self) -> (r: String)
        ensures
            r@ == error_text(self.error_type),
    {
        match &self.error_type {
            AppErrorType::NotFound(m) => String::from_str("❌ 찾을 수 없음: ").concat(
                m.as_str(),
            ),
            AppErrorType::IoError(m) => String::from_str("❌ 파일 시스템 오류: ").concat(
                m.as_str(),
            ),
            AppErrorType::ConfigError(m) => String::from_str("❌ 설정 오류: ").concat(
                m.as_str(),
            ),
            AppErrorType::ValidationError(m) => String::from_str(
                "❌ 유효성 검사 실패: ",
            ).concat(m.as_str()),
            AppErrorType::GitError(m) => String::from_str("❌ Git 오류: ").concat(m.as_str()),
            AppErrorType::GitBranchExists => String::from_str(
                "❌ 브랜치가 이미 존재합니다",
            ),
            AppErrorType::GitNoCurrentBranch => String::from_str(
                "❌ 현재 브랜치를 찾을 수 없습니다",
            ),
            AppErrorType::GitUncommittedChanges => String::from_str(
                "❌ 커밋되지 않은 변경사항이 있습니다",
            ),
            AppErrorType::JiraConnectionError => String::from_str("❌ Jira 연결 실패"),
            AppErrorType::JiraAuthenticationError => String::from_str("❌ Jira 인증 실패"),
            AppErrorType::JiraTicketNotFound(m) => String::from_str(
                "❌ Jira 티켓을 찾을 수 없음: ",
            ).concat(m.as_str()),
            AppErrorType::JiraTransitionNotAllowed => String::from_str(
                "❌ Jira 상태 변경이 허용되지 않습니다",
            ),
            AppErrorType::JiraApiError(m) => String::from_str("❌ Jira API 오류: ").concat(
                m.as_str(),
            ),
            AppErrorType::GitHubConnectionError => String::from_str("❌ GitHub 연결 실패"),
            AppErrorType::GitHubAuthenticationError => String::from_str(
                "❌ GitHub 인증 실패",
            ),
            AppErrorType::GitHubRepoNotFound => String::from_str(
                "❌ GitHub 저장소를 찾을 수 없습니다",
            ),
            AppErrorType::GitHubPrCreateFailed => String::from_str("❌ PR 생성 실패"),
            AppErrorType::GitHubApiError(m) => String::from_str(
                "❌ GitHub API 오류: ",
            ).concat(m.as_str()),
            AppErrorType::Unknown(m) => String::from_str("❌ 오류: ").concat(m.as_str()),
        }
    }
}

impl From<AppErrorType> for AppError {
    fn from(error_type: AppErrorType) -> (r: AppError) {
        AppError { error_type }
    }
}

impl vstd::std_specs::convert::FromSpecImpl<AppErrorType> for AppError {
    open spec fn obeys_from_spec() -> bool {
        true
    }

    open spec fn from_spec(error_type: AppErrorType) -> AppError {
        AppError { error_type }
    }
}

/// Attach a typed condition to any failed result, keeping a success as it
/// is. The failure value itself is dropped; only the typed condition is
/// kept.
pub trait AppErrorExt<T>: Sized {
    spec fn spec_success(&self) -> Option<T>;

    fn with_app_type(self, error_type: AppErrorType) -> (r: AppResult<T>)
        ensures
            r matches Ok(v) ==> self.spec_success() matches Some(w) && v == w,
            r is Ok <==> self.spec_success() is Some,
            r matches Err(e) ==> e.error_type == error_type,
    ;
}

impl<T, E> AppErrorExt<T> for Result<T, E> {
    open spec fn spec_success(&self) -> Option<T> {
        match self {
            Ok(v) => Some(*v),
            Err(_) => None,
        }
    }

    fn with_app_type(self, error_type: AppErrorType) -> (r: AppResult<T>) {
        match self {
            Ok(v) => Ok(v),
            Err(_) => Err(AppError { error_type }),
        }
    }
}

} // verus!
