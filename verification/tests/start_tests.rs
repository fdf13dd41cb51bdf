use jgf::jira::{Issue, IssueFields, IssueType, Project, Status, Transition};
use jgf::start::{
    StartAction, StartEvent, StartMachine, StartOutcome, StartStage, start_begin, start_step,
};
use jgf::transitions::TicketUpdate;

fn issue(key: &str, summary: &str, status_name: &str) -> Issue {
    Issue {
        id: String::from("10001"),
        key: String::from(key),
        fields: IssueFields {
            summary: String::from(summary),
            description: None,
            status: Status {
                id: String::from("3"),
                name: String::from(status_name),
                description: None,
                status_category: None,
            },
            priority: None,
            assignee: None,
            reporter: None,
            created: 0,
            updated: 0,
            issuetype: IssueType {
                id: String::from("1"),
                name: String::from("Task"),
                description: None,
                subtask: false,
            },
            project: Project {
                id: String::from("100"),
                key: String::from("ABC"),
                name: String::from("Widget"),
            },
        },
    }
}

fn transition(id: &str, name: &str, to: &str) -> Transition {
    Transition {
        id: String::from(id),
        name: String::from(name),
        to: Status {
            id: String::from("s"),
            name: String::from(to),
            description: None,
            status_category: None,
        },
    }
}

fn step(m: StartMachine, e: StartEvent, actions: &mut Vec<StartAction>) -> StartMachine {
    let (next, action) = start_step(m, e);
    actions.push(action);
    next
}

#[test]
fn start_happy_path_creates_branch_and_updates_ticket() {
    // Clean tree, base up to date: `start ABC-12` ends with branch ABC-12
    // checked out and a transition attempted toward "In Progress".
    let mut actions: Vec<StartAction> = Vec::new();
    let (m, first) = start_begin("abc-12", "main");
    assert_eq!(first, StartAction::QueryClean);
    assert_eq!(m.ticket, "ABC-12");
    assert_eq!(m.branch, "ABC-12");
    assert_eq!(m.base, "main");

    let m = step(m, StartEvent::CleanChecked(true), &mut actions);
    let m = step(m, StartEvent::BranchChecked(false), &mut actions);
    let m = step(m, StartEvent::Pulled(Ok(())), &mut actions);
    let m = step(m, StartEvent::Created(Ok(())), &mut actions);
    let m = step(
        m,
        StartEvent::IssueFetched(Ok(issue("ABC-12", "Fix the widget", "To Do"))),
        &mut actions,
    );
    let m = step(m, StartEvent::UpdateAnswered(true), &mut actions);
    let m = step(
        m,
        StartEvent::TransitionsFetched(Ok(vec![transition(
            "11",
            "Start Progress",
            "In Progress",
        )])),
        &mut actions,
    );
    assert_eq!(
        m.stage,
        StartStage::Applying { transition_id: String::from("11") }
    );
    let m = step(m, StartEvent::TransitionApplied(Ok(())), &mut actions);

    assert_eq!(
        actions,
        vec![
            StartAction::QueryBranchExists,
            StartAction::PullBase,
            StartAction::CreateBranch,
            StartAction::FetchIssue,
            StartAction::PromptUpdate,
            StartAction::FetchTransitions,
            StartAction::ApplyTransition,
            StartAction::Report,
        ]
    );
    assert_eq!(
        m.stage,
        StartStage::Done {
            outcome: StartOutcome::Completed { update: TicketUpdate::Applied }
        }
    );
    assert_eq!(m.branch, "ABC-12");
}

#[test]
fn start_never_creates_a_branch_on_a_dirty_tree() {
    let mut actions: Vec<StartAction> = Vec::new();
    let (m, first) = start_begin("ABC-12", "main");
    actions.push(first);
    let m = step(m, StartEvent::CleanChecked(false), &mut actions);
    assert_eq!(
        m.stage,
        StartStage::Done { outcome: StartOutcome::UncommittedChanges }
    );
    assert!(!actions.contains(&StartAction::CreateBranch));
    assert!(!actions.contains(&StartAction::PullBase));
}

#[test]
fn start_rejects_a_key_that_does_not_parse() {
    let (m, action) = start_begin("not a ticket", "main");
    assert_eq!(action, StartAction::Report);
    assert_eq!(m.stage, StartStage::Done { outcome: StartOutcome::InvalidTicket });
}

#[test]
fn start_trims_and_uppercases_the_key() {
    let (m, action) = start_begin("  abc-12 ", "main");
    assert_eq!(action, StartAction::QueryClean);
    assert_eq!(m.ticket, "ABC-12");
}

#[test]
fn start_offers_a_switch_when_the_branch_exists() {
    let mut actions: Vec<StartAction> = Vec::new();
    let (m, _) = start_begin("ABC-12", "main");
    let m = step(m, StartEvent::CleanChecked(true), &mut actions);
    let m = step(m, StartEvent::BranchChecked(true), &mut actions);
    assert_eq!(actions, vec![StartAction::QueryBranchExists, StartAction::PromptSwitch]);
    let m = step(m, StartEvent::SwitchAnswered(true), &mut actions);
    let m = step(m, StartEvent::CheckedOut(Ok(())), &mut actions);
    assert_eq!(
        m.stage,
        StartStage::Done { outcome: StartOutcome::SwitchedToExisting }
    );
    assert!(!actions.contains(&StartAction::CreateBranch));
}

#[test]
fn start_aborts_cleanly_when_the_switch_is_declined() {
    let mut actions: Vec<StartAction> = Vec::new();
    let (m, _) = start_begin("ABC-12", "main");
    let m = step(m, StartEvent::CleanChecked(true), &mut actions);
    let m = step(m, StartEvent::BranchChecked(true), &mut actions);
    let m = step(m, StartEvent::SwitchAnswered(false), &mut actions);
    assert_eq!(m.stage, StartStage::Done { outcome: StartOutcome::SwitchDeclined });
    assert!(!actions.contains(&StartAction::Checkout));
}

#[test]
fn start_reports_a_ticket_already_in_progress() {
    let mut actions: Vec<StartAction> = Vec::new();
    let (m, _) = start_begin("ABC-12", "main");
    let m = step(m, StartEvent::CleanChecked(true), &mut actions);
    let m = step(m, StartEvent::BranchChecked(false), &mut actions);
    let m = step(m, StartEvent::Pulled(Ok(())), &mut actions);
    let m = step(m, StartEvent::Created(Ok(())), &mut actions);
    let m = step(
        m,
        StartEvent::IssueFetched(Ok(issue("ABC-12", "Fix", "진행 중"))),
        &mut actions,
    );
    assert_eq!(
        m.stage,
        StartStage::Done {
            outcome: StartOutcome::Completed { update: TicketUpdate::AlreadyInTarget }
        }
    );
}

#[test]
fn start_reports_unresolvable_transitions_with_the_available_destinations() {
    let mut actions: Vec<StartAction> = Vec::new();
    let (m, _) = start_begin("ABC-12", "main");
    let m = step(m, StartEvent::CleanChecked(true), &mut actions);
    let m = step(m, StartEvent::BranchChecked(false), &mut actions);
    let m = step(m, StartEvent::Pulled(Ok(())), &mut actions);
    let m = step(m, StartEvent::Created(Ok(())), &mut actions);
    let m = step(m, StartEvent::IssueFetched(Ok(issue("ABC-12", "Fix", "To Do"))), &mut actions);
    let m = step(m, StartEvent::UpdateAnswered(true), &mut actions);
    let m = step(
        m,
        StartEvent::TransitionsFetched(Ok(vec![
            transition("1", "Block", "Blocked"),
            transition("2", "Close", "Closed"),
            transition("3", "Block again", "Blocked"),
        ])),
        &mut actions,
    );
    assert_eq!(
        m.stage,
        StartStage::Done {
            outcome: StartOutcome::Completed {
                update: TicketUpdate::Unresolvable {
                    available: vec![String::from("Blocked"), String::from("Closed")],
                },
            }
        }
    );
}
