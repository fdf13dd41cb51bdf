use jgf::config::Config;
use jgf::keys::{format_ticket_key, is_ticket_branch, normalize_ticket_key, validate_ticket_key};
use jgf::text::{to_upper, trim_spaces};

fn sample_config() -> Config {
    Config {
        jira_url: String::from("https://example.atlassian.net"),
        jira_project: String::from("ABC"),
        jira_username: String::from("dev@example.com"),
        jira_token: String::from("jt"),
        github_token: String::from("ght"),
        repo_owner: String::from("acme"),
        repo_name: String::from("widget"),
        default_branch: String::from("main"),
        project_name: String::from("widget"),
        project_root: None,
        pr_template_content: None,
    }
}

#[test]
fn normalize_uppercases() {
    assert_eq!(normalize_ticket_key("abc-12"), "ABC-12");
    assert_eq!(normalize_ticket_key("ABC-12"), "ABC-12");
    assert_eq!(normalize_ticket_key("aBc-007"), "ABC-007");
}

#[test]
fn normalize_is_idempotent() {
    for s in ["abc-12", "ABC-12", "  mixed-Case ", "진행 중", "a1-2"] {
        let once = normalize_ticket_key(s);
        let twice = normalize_ticket_key(&once);
        assert_eq!(once, twice);
    }
}

#[test]
fn validate_accepts_well_formed_keys() {
    assert!(validate_ticket_key("ABC-12"));
    assert!(validate_ticket_key("A1-9"));
    assert!(validate_ticket_key("123-456"));
    assert!(validate_ticket_key("EM-100"));
}

#[test]
fn validate_rejects_malformed_keys() {
    assert!(!validate_ticket_key(""));
    assert!(!validate_ticket_key("abc-12"));
    assert!(!validate_ticket_key("ABC"));
    assert!(!validate_ticket_key("ABC-"));
    assert!(!validate_ticket_key("-12"));
    assert!(!validate_ticket_key("-"));
    assert!(!validate_ticket_key("ABC-1-2"));
    assert!(!validate_ticket_key("ABC-1x"));
    assert!(!validate_ticket_key("AB C-1"));
}

#[test]
fn normalization_then_validation_guards_ingestion() {
    assert!(validate_ticket_key(&normalize_ticket_key("abc-12")));
    assert!(!validate_ticket_key(&normalize_ticket_key("not a key")));
}

#[test]
fn format_ticket_key_prefixes_bare_numbers() {
    assert_eq!(format_ticket_key("EM", "100"), "EM-100");
}

#[test]
fn format_ticket_key_keeps_prefixed_numbers() {
    assert_eq!(format_ticket_key("EM", "em-100"), "EM-100");
    assert_eq!(format_ticket_key("EM", "EM-7"), "EM-7");
}

#[test]
fn format_ticket_key_uppercases_the_whole_key() {
    assert_eq!(format_ticket_key("EM", "12x"), "EM-12X");
}

#[test]
fn format_ticket_key_is_idempotent() {
    for number in ["12x", "100", "em-100", "EM-7", "xy-3"] {
        let once = format_ticket_key("EM", number);
        let twice = format_ticket_key("EM", &once);
        assert_eq!(once, twice);
    }
}

#[test]
fn branch_derivation_is_stable_and_uppercase() {
    let config = sample_config();
    let once = config.format_branch_name("abc-12", None);
    let twice = config.format_branch_name("abc-12", Some("a summary"));
    assert_eq!(once, "ABC-12");
    assert_eq!(once, twice);
    // Deriving from an already derived name changes nothing.
    assert_eq!(config.format_branch_name(&once, None), once);
}

#[test]
fn ticket_branch_recognition() {
    assert!(is_ticket_branch("ABC-12", "ABC"));
    assert!(!is_ticket_branch("main", "ABC"));
    assert!(!is_ticket_branch("XYZ-12", "ABC"));
    assert!(!is_ticket_branch("abc-12", "ABC"));
}

#[test]
fn upper_and_trim_helpers() {
    assert_eq!(to_upper("hello-World"), "HELLO-WORLD");
    assert_eq!(to_upper("진행 중"), "진행 중");
    assert_eq!(trim_spaces("  AB-1 \t"), "AB-1");
    assert_eq!(trim_spaces("AB-1"), "AB-1");
    assert_eq!(trim_spaces("   "), "");
    assert_eq!(trim_spaces(""), "");
}
