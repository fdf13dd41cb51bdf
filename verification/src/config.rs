//! Configuration of one orchestrator run: tracker URL and project, PR-host
//! repository, base branch. Loading the values (files, environment) happens
//! outside the library; validation and everything derived from the values is
//! verified here.

use vstd::prelude::*;
use crate::error::{AppError, AppErrorType};
use crate::keys::is_key_head_char;
use crate::text::{spec_starts_with, starts_with, to_upper, upper_seq};

verus! {

/// The shape of a project configuration file.
#[derive(Debug, Clone, PartialEq)]
pub struct ProjectConfig {
    pub project: String,
    pub jira: JiraConfig,
    pub github: GithubConfig,
    pub default_branch: String,
    pub pr_template: Option<PrTemplate>,
}

#[derive(Debug, Clone, PartialEq)]
pub struct PrTemplate {
    pub path: Option<String>,
    pub content: Option<String>,
}

#[derive(Debug, Clone, PartialEq)]
pub struct JiraConfig {
    pub url: String,
    pub project: String,
    pub username: Option<String>,
}

#[derive(Debug, Clone, PartialEq)]
pub struct GithubConfig {
    pub owner: String,
    pub repo: String,
}

/// The resolved configuration a run works with.
#[derive(Debug, Clone, PartialEq)]
pub struct Config {
    pub jira_url: String,
    pub jira_project: String,
    pub jira_username: String,
    pub jira_token: String,
    pub github_token: String,
    pub repo_owner: String,
    pub repo_name: String,
    pub default_branch: String,
    pub project_name: String,
    pub project_root: Option<String>,
    pub pr_template_content: Option<String>,
}

/// The base URL with one trailing path separator stripped, exactly once.
pub open spec fn strip_one_trailing_slash(s: Seq<char>) -> Seq<char> {
    if s.len() > 0 && s[s.len() - 1] == '/' {
        s.drop_last()
    } else {
        s
    }
}

/// The first failing validation check of a configuration, as its message, or
/// `None` when the configuration is acceptable.
pub open spec fn spec_validate_error(c: Config) -> Option<Seq<char>> {
    if c.jira_url@.len() == 0 {
        Some("JIRA_URL이 비어있습니다"@)
    } else if !spec_starts_with(c.jira_url@, "https://"@) && !spec_starts_with(
        c.jira_url@,
        "http://"@,
    ) {
        Some("JIRA_URL은 http:// 또는 https://로 시작해야 합니다"@)
    } else if c.github_token@.len() == 0 {
        Some("GITHUB_TOKEN이 비어있습니다"@)
    } else if !(forall|i: int|
        0 <= i < c.jira_project@.len() ==> is_key_head_char(#[trigger] c.jira_project@[i])) {
        Some("JIRA_PROJECT는 대문자와 숫자만 포함해야 합니다"@)
    } else {
        None
    }
}

fn all_key_head_chars(s: &str) -> (r: bool)
    ensures
        r == forall|i: int| 0 <= i < s@.len() ==> is_key_head_char(#[trigger] s@[i]),
{
    let n = s.unicode_len();
    let mut i: usize = 0;
    while i < n
        invariant
            n == s@.len(),
            i <= n,
            forall|j: int| 0 <= j < i ==> is_key_head_char(#[trigger] s@[j]),
        decreases n - i,
    {
        let c = s.get_char(i);
        if !(('A' <= c && c <= 'Z') || ('0' <= c && c <= '9')) {
            return false;
        }
        i = i + 1;
    }
    true
}

impl Config {
    /// Check the configuration: the tracker URL must be present and carry an
    /// HTTP scheme, the PR-host token must be present, and the tracker
    /// project key may hold only uppercase letters and digits. The error
    /// names the first check that fails.
    pub fn validate(&self) -> (r: Result<(), AppError>)
        ensures
            r is Ok <==> spec_validate_error(*self) is None,
            r matches Err(e) ==> (spec_validate_error(*self) matches Some(t)
                && e.error_type matches AppErrorType::ValidationError(m) && m@ == t),
    {
        if self.jira_url.as_str().is_empty() {
            return Err(
                AppError::validation_error(String::from_str("JIRA_URL이 비어있습니다")),
            );
        }
        let https = starts_with(self.jira_url.as_str(), "https://");
        let http = starts_with(self.jira_url.as_str(), "http://");
        if !https && !http {
            return Err(
                AppError::validation_error(
                    String::from_str(
                        "JIRA_URL은 http:// 또는 https://로 시작해야 합니다",
                    ),
                ),
            );
        }
        if self.github_token.as_str().is_empty() {
            return Err(
                AppError::validation_error(
                    String::from_str("GITHUB_TOKEN이 비어있습니다"),
                ),
            );
        }
        if !all_key_head_chars(self.jira_project.as_str()) {
            return Err(
                AppError::validation_error(
                    String::from_str(
                        "JIRA_PROJECT는 대문자와 숫자만 포함해야 합니다",
                    ),
                ),
            );
        }
        Ok(())
    }

    /// The tracker base URL, with a trailing path separator stripped exactly
    /// once.
    pub fn get_jira_base_url(&self) -> (r: String)
        ensures
            r@ == strip_one_trailing_slash(self.jira_url@),
    {
        let n = self.jira_url.as_str().unicode_len();
        if n > 0 && self.jira_url.as_str().get_char(n - 1) == '/' {
            let stripped = self.jira_url.as_str().substring_char(0, n - 1);
            proof {
                assert(stripped@ =~= self.jira_url@.drop_last());
            }
            stripped.to_owned()
        } else {
            self.jira_url.clone()
        }
    }

    /// The PR-host repository page.
    pub fn get_github_repo_url(&self) -> (r: String)
        ensures
            r@ == "https://github.com/"@ + self.repo_owner@ + "/"@ + self.repo_name@,
    {
        String::from_str("https://github.com/").concat(self.repo_owner.as_str()).concat(
            "/",
        ).concat(self.repo_name.as_str())
    }

    /// The tracker page of one ticket: the return link every pull request
    /// carries.
    pub fn get_jira_ticket_url(&self, ticket_key: &str) -> (r: String)
        ensures
            r@ == strip_one_trailing_slash(self.jira_url@) + "/browse/"@ + ticket_key@,
    {
        self.get_jira_base_url().concat("/browse/").concat(ticket_key)
    }

    /// The branch of a ticket: exactly the normalized (uppercased) key. The
    /// summary takes no part in the name under the current policy.
    pub fn format_branch_name(&self, ticket_key: &str, _summary: Option<&str>) -> (r: String)
        ensures
            r@ == upper_seq(ticket_key@),
    {
        to_upper(ticket_key)
    }
}

} // verus!
