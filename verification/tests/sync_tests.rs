use jgf::jira::{Issue, IssueFields, IssueType, Project, Status, Transition};
use jgf::sync::{
    BranchFinding, DeletionResult, SyncAction, SyncEvent, SyncMachine, SyncOutcome, SyncReport,
    SyncStage, filter_ticket_branches, sync_begin, sync_step,
};
use jgf::transitions::TicketUpdate;

fn issue(key: &str, status_name: &str) -> Issue {
    Issue {
        id: String::from("10001"),
        key: String::from(key),
        fields: IssueFields {
            summary: String::from("A ticket"),
            description: None,
            status: Status {
                id: String::from("3"),
                name: String::from(status_name),
                description: None,
                status_category: None,
            },
            priority: None,
            assignee: None,
            reporter: None,
            created: 0,
            updated: 0,
            issuetype: IssueType {
                id: String::from("1"),
                name: String::from("Task"),
                description: None,
                subtask: false,
            },
            project: Project {
                id: String::from("100"),
                key: String::from("ABC"),
                name: String::from("Widget"),
            },
        },
    }
}

fn transition(id: &str, name: &str, to: &str) -> Transition {
    Transition {
        id: String::from(id),
        name: String::from(name),
        to: Status {
            id: String::from("s"),
            name: String::from(to),
            description: None,
            status_category: None,
        },
    }
}

fn strings(items: &[&str]) -> Vec<String> {
    items.iter().map(|s| String::from(*s)).collect()
}

fn step(m: SyncMachine, e: SyncEvent, actions: &mut Vec<SyncAction>) -> SyncMachine {
    let (next, action) = sync_step(m, e);
    actions.push(action);
    next
}

#[test]
fn filter_keeps_only_this_projects_ticket_branches() {
    let branches = strings(&["main", "ABC-1", "feature-x", "XYZ-2", "abc-3", "ABC-22"]);
    let kept = filter_ticket_branches(&branches, "ABC", "main");
    assert_eq!(kept, strings(&["ABC-1", "ABC-22"]));
}

#[test]
fn filter_excludes_the_base_branch() {
    let branches = strings(&["ABC-1", "ABC-2"]);
    let kept = filter_ticket_branches(&branches, "ABC", "ABC-1");
    assert_eq!(kept, strings(&["ABC-2"]));
}

#[test]
fn sync_declining_both_offers_leaves_the_branch_untouched() {
    // Branch ABC-9 is an ancestor of main: classified merged. The user
    // declines the tracker update and the deletion: the branch remains and
    // the sweep completes.
    let mut actions: Vec<SyncAction> = Vec::new();
    let (m, first) = sync_begin("main", "ABC");
    assert_eq!(first, SyncAction::QueryCurrentBranch);
    let m = step(m, SyncEvent::CurrentBranch(Ok(String::from("main"))), &mut actions);
    let m = step(m, SyncEvent::Pulled(Ok(())), &mut actions);
    let m = step(m, SyncEvent::BranchesListed(Ok(strings(&["main", "ABC-9"]))), &mut actions);
    assert_eq!(m.branches, strings(&["ABC-9"]));
    let m = step(m, SyncEvent::MergedChecked(true), &mut actions);
    let m = step(m, SyncEvent::UpdateAnswered(false), &mut actions);
    let m = step(m, SyncEvent::DeleteAnswered(false), &mut actions);
    assert_eq!(m.stage, SyncStage::Done { outcome: SyncOutcome::Completed });
    assert_eq!(
        m.reports,
        vec![SyncReport {
            branch: String::from("ABC-9"),
            finding: BranchFinding::Merged {
                update: TicketUpdate::Declined,
                deletion: DeletionResult::DeclinedDelete,
            },
        }]
    );
    assert!(!actions.contains(&SyncAction::DeleteBranch));
    assert!(!actions.contains(&SyncAction::FetchIssue));
}

#[test]
fn sync_never_deletes_an_unmerged_branch() {
    let mut actions: Vec<SyncAction> = Vec::new();
    let (m, _) = sync_begin("main", "ABC");
    let m = step(m, SyncEvent::CurrentBranch(Ok(String::from("main"))), &mut actions);
    let m = step(m, SyncEvent::Pulled(Ok(())), &mut actions);
    let m = step(m, SyncEvent::BranchesListed(Ok(strings(&["ABC-5"]))), &mut actions);
    let m = step(m, SyncEvent::MergedChecked(false), &mut actions);
    assert_eq!(m.stage, SyncStage::Done { outcome: SyncOutcome::Completed });
    assert_eq!(
        m.reports,
        vec![SyncReport {
            branch: String::from("ABC-5"),
            finding: BranchFinding::Unmerged,
        }]
    );
    assert!(!actions.contains(&SyncAction::DeleteBranch));
    assert!(!actions.contains(&SyncAction::PromptDelete));
}

#[test]
fn sync_full_cleanup_of_a_merged_branch() {
    let mut actions: Vec<SyncAction> = Vec::new();
    let (m, _) = sync_begin("main", "ABC");
    let m = step(m, SyncEvent::CurrentBranch(Ok(String::from("main"))), &mut actions);
    let m = step(m, SyncEvent::Pulled(Ok(())), &mut actions);
    let m = step(m, SyncEvent::BranchesListed(Ok(strings(&["ABC-7"]))), &mut actions);
    let m = step(m, SyncEvent::MergedChecked(true), &mut actions);
    let m = step(m, SyncEvent::UpdateAnswered(true), &mut actions);
    let m = step(m, SyncEvent::IssueFetched(Ok(issue("ABC-7", "In Progress"))), &mut actions);
    let m = step(
        m,
        SyncEvent::TransitionsFetched(Ok(vec![transition("51", "Complete", "Done")])),
        &mut actions,
    );
    assert_eq!(m.stage, SyncStage::Applying { transition_id: String::from("51") });
    let m = step(m, SyncEvent::TransitionApplied(Ok(())), &mut actions);
    let m = step(m, SyncEvent::DeleteAnswered(true), &mut actions);
    let m = step(m, SyncEvent::Deleted(Ok(())), &mut actions);
    assert_eq!(m.stage, SyncStage::Done { outcome: SyncOutcome::Completed });
    assert_eq!(
        m.reports,
        vec![SyncReport {
            branch: String::from("ABC-7"),
            finding: BranchFinding::Merged {
                update: TicketUpdate::Applied,
                deletion: DeletionResult::Deleted,
            },
        }]
    );
    assert!(actions.contains(&SyncAction::ApplyTransition));
    assert!(actions.contains(&SyncAction::DeleteBranch));
}

#[test]
fn sync_apply_failure_never_blocks_deletion() {
    // The transition application fails; the deletion is still offered and
    // attempted, the failure is recorded, and the sweep completes.
    let mut actions: Vec<SyncAction> = Vec::new();
    let (m, _) = sync_begin("main", "ABC");
    let m = step(m, SyncEvent::CurrentBranch(Ok(String::from("main"))), &mut actions);
    let m = step(m, SyncEvent::Pulled(Ok(())), &mut actions);
    let m = step(m, SyncEvent::BranchesListed(Ok(strings(&["ABC-7"]))), &mut actions);
    let m = step(m, SyncEvent::MergedChecked(true), &mut actions);
    let m = step(m, SyncEvent::UpdateAnswered(true), &mut actions);
    let m = step(m, SyncEvent::IssueFetched(Ok(issue("ABC-7", "In Progress"))), &mut actions);
    let m = step(
        m,
        SyncEvent::TransitionsFetched(Ok(vec![transition("51", "Complete", "Done")])),
        &mut actions,
    );
    let apply_error = jgf::error::AppError::new(jgf::error::AppErrorType::JiraTransitionNotAllowed);
    let m = step(m, SyncEvent::TransitionApplied(Err(apply_error.clone())), &mut actions);
    let m = step(m, SyncEvent::DeleteAnswered(true), &mut actions);
    assert!(actions.contains(&SyncAction::DeleteBranch));
    let m = step(m, SyncEvent::Deleted(Ok(())), &mut actions);
    assert_eq!(m.stage, SyncStage::Done { outcome: SyncOutcome::Completed });
    assert_eq!(
        m.reports,
        vec![SyncReport {
            branch: String::from("ABC-7"),
            finding: BranchFinding::Merged {
                update: TicketUpdate::ApplyFailed(apply_error),
                deletion: DeletionResult::Deleted,
            },
        }]
    );
}

#[test]
fn sync_skips_the_update_when_the_ticket_is_already_done() {
    let mut actions: Vec<SyncAction> = Vec::new();
    let (m, _) = sync_begin("main", "ABC");
    let m = step(m, SyncEvent::CurrentBranch(Ok(String::from("main"))), &mut actions);
    let m = step(m, SyncEvent::Pulled(Ok(())), &mut actions);
    let m = step(m, SyncEvent::BranchesListed(Ok(strings(&["ABC-7"]))), &mut actions);
    let m = step(m, SyncEvent::MergedChecked(true), &mut actions);
    let m = step(m, SyncEvent::UpdateAnswered(true), &mut actions);
    let m = step(m, SyncEvent::IssueFetched(Ok(issue("ABC-7", "완료"))), &mut actions);
    assert_eq!(m.stage, SyncStage::ConfirmDelete { update: TicketUpdate::AlreadyInTarget });
    assert!(!actions.contains(&SyncAction::FetchTransitions));
}

#[test]
fn sync_switches_to_the_base_branch_first() {
    let mut actions: Vec<SyncAction> = Vec::new();
    let (m, _) = sync_begin("main", "ABC");
    let m = step(m, SyncEvent::CurrentBranch(Ok(String::from("ABC-3"))), &mut actions);
    assert_eq!(actions, vec![SyncAction::SwitchToBase]);
    let m = step(m, SyncEvent::SwitchedBase(Ok(())), &mut actions);
    assert_eq!(actions, vec![SyncAction::SwitchToBase, SyncAction::PullBase]);
    assert_eq!(m.stage, SyncStage::Pulling);
}

#[test]
fn sync_with_no_ticket_branches_reports_and_stops() {
    let mut actions: Vec<SyncAction> = Vec::new();
    let (m, _) = sync_begin("main", "ABC");
    let m = step(m, SyncEvent::CurrentBranch(Ok(String::from("main"))), &mut actions);
    let m = step(m, SyncEvent::Pulled(Ok(())), &mut actions);
    let m = step(m, SyncEvent::BranchesListed(Ok(strings(&["main", "dev"]))), &mut actions);
    assert_eq!(m.stage, SyncStage::Done { outcome: SyncOutcome::NoTicketBranches });
}

#[test]
fn sync_processes_branches_in_enumeration_order() {
    let mut actions: Vec<SyncAction> = Vec::new();
    let (m, _) = sync_begin("main", "ABC");
    let m = step(m, SyncEvent::CurrentBranch(Ok(String::from("main"))), &mut actions);
    let m = step(m, SyncEvent::Pulled(Ok(())), &mut actions);
    let m = step(
        m,
        SyncEvent::BranchesListed(Ok(strings(&["ABC-2", "ABC-1"]))),
        &mut actions,
    );
    assert_eq!(m.branches, strings(&["ABC-2", "ABC-1"]));
    assert_eq!(m.idx, 0);
    let m = step(m, SyncEvent::MergedChecked(false), &mut actions);
    assert_eq!(m.idx, 1);
    let m = step(m, SyncEvent::MergedChecked(false), &mut actions);
    assert_eq!(m.stage, SyncStage::Done { outcome: SyncOutcome::Completed });
    assert_eq!(m.reports[0].branch, "ABC-2");
    assert_eq!(m.reports[1].branch, "ABC-1");
}
