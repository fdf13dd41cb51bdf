use jgf::jira::{
    Issue, IssueFields, IssueType, Priority, Project, Status, User, index_of_line,
    ticket_option_line,
};

fn issue(key: &str, summary: &str) -> Issue {
    Issue {
        id: String::from("10001"),
        key: String::from(key),
        fields: IssueFields {
            summary: String::from(summary),
            description: None,
            status: Status {
                id: String::from("3"),
                name: String::from("To Do"),
                description: None,
                status_category: None,
            },
            priority: None,
            assignee: None,
            reporter: None,
            created: 0,
            updated: 0,
            issuetype: IssueType {
                id: String::from("1"),
                name: String::from("Task"),
                description: None,
                subtask: false,
            },
            project: Project {
                id: String::from("100"),
                key: String::from("ABC"),
                name: String::from("Widget"),
            },
        },
    }
}

#[test]
fn issue_formatting() {
    let mut i = issue("ABC-1", "Fix the widget");
    assert_eq!(i.format_summary(), "[ABC-1] Fix the widget");
    assert_eq!(i.format_status(), "To Do");
    assert_eq!(i.format_assignee(), "미할당");
    assert_eq!(i.format_priority(), "없음");

    i.fields.assignee = Some(User {
        account_id: None,
        email_address: None,
        display_name: Some(String::from("Dana Dev")),
        active: Some(true),
    });
    i.fields.priority = Some(Priority {
        id: Some(String::from("2")),
        name: String::from("High"),
        icon_url: None,
    });
    assert_eq!(i.format_assignee(), "Dana Dev");
    assert_eq!(i.format_priority(), "High");
}

#[test]
fn option_lines_and_selection() {
    let issues = vec![issue("ABC-1", "First"), issue("ABC-2", "Second")];
    let lines: Vec<String> = issues.iter().map(ticket_option_line).collect();
    assert_eq!(lines, vec![String::from("ABC-1 - First"), String::from("ABC-2 - Second")]);
    assert_eq!(index_of_line(&lines, "ABC-2 - Second"), Some(1));
    assert_eq!(index_of_line(&lines, "ABC-3 - Third"), None);
}
