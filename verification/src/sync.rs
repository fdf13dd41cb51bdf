//! The Sync workflow (merge sweep): bring the base branch up to date, find
//! the local ticket branches, classify each as merged or unmerged by an
//! ancestor test, and for each merged branch independently offer a ticket
//! update toward the logical "Done" status and a branch deletion. Branches
//! are processed strictly in enumeration order; an unmerged branch is
//! reported and left untouched.

use vstd::prelude::*;
use crate::error::AppError;
use crate::jira::{Issue, Transition};
use crate::keys::spec_is_ticket_branch;
use crate::transitions::{
    TicketUpdate,
    TransitionResolution,
    lists_destinations_exactly,
    resolve_transition,
    spec_has_match,
    spec_resolution,
    spec_status_matches,
    status_matches_logical,
};

verus! {

/// What became of the offer to delete a merged branch.
#[derive(Debug, Clone, PartialEq)]
pub enum DeletionResult {
    /// The branch was deleted.
    Deleted,
    /// The user declined the deletion; the branch remains.
    DeclinedDelete,
    /// The deletion was attempted and failed.
    DeleteFailed(AppError),
}

/// What the sweep found and did for one branch.
#[derive(Debug, Clone, PartialEq)]
pub enum BranchFinding {
    /// The branch is not an ancestor of the base: reported, left untouched.
    Unmerged,
    /// The branch is merged; the ticket update and the deletion were each
    /// offered and resolved independently.
    Merged { update: TicketUpdate, deletion: DeletionResult },
}

/// The record of one branch of the sweep.
#[derive(Debug, Clone, PartialEq)]
pub struct SyncReport {
    pub branch: String,
    pub finding: BranchFinding,
}

/// How a Sync run ended.
#[derive(Debug, Clone, PartialEq)]
pub enum SyncOutcome {
    /// A repository operation failed before the sweep.
    GitFailed(AppError),
    /// The branch enumeration failed.
    ListFailed(AppError),
    /// No local branch matches the ticket-branch naming convention.
    NoTicketBranches,
    /// Every ticket branch was processed; the machine's reports say what
    /// happened to each.
    Completed,
}

/// Where the Sync workflow stands: which external answer it waits for.
#[derive(Debug, Clone, PartialEq)]
pub enum SyncStage {
    /// Waiting for the name of the current branch.
    CheckCurrent,
    /// Waiting for the checkout of the base branch.
    SwitchingBase,
    /// Waiting for the pull of the base branch.
    Pulling,
    /// Waiting for the enumeration of local branches.
    Listing,
    /// Waiting for the ancestor test of the current candidate branch.
    Classify,
    /// Waiting for the user's ticket-update decision.
    ConfirmUpdate,
    /// Waiting for the issue snapshot of the candidate's ticket.
    FetchingIssue,
    /// Waiting for the available transitions of the candidate's ticket.
    FetchingTransitions,
    /// Waiting for the result of applying the resolved transition.
    Applying { transition_id: String },
    /// Waiting for the user's deletion decision; `update` is what became of
    /// the ticket.
    ConfirmDelete { update: TicketUpdate },
    /// Waiting for the result of the branch deletion.
    Deleting { update: TicketUpdate },
    /// The sweep is over.
    Done { outcome: SyncOutcome },
}

/// The outcome of the one external action the sweep waits for.
#[derive(Debug, PartialEq)]
pub enum SyncEvent {
    CurrentBranch(Result<String, AppError>),
    SwitchedBase(Result<(), AppError>),
    Pulled(Result<(), AppError>),
    BranchesListed(Result<Vec<String>, AppError>),
    MergedChecked(bool),
    UpdateAnswered(bool),
    IssueFetched(Result<Issue, AppError>),
    TransitionsFetched(Result<Vec<Transition>, AppError>),
    TransitionApplied(Result<(), AppError>),
    DeleteAnswered(bool),
    Deleted(Result<(), AppError>),
}

/// The next external action to perform. The machine's fields say which
/// branch the action concerns: always `branches[idx]`.
#[derive(Debug, Clone, Copy, PartialEq, Eq, Structural)]
pub enum SyncAction {
    QueryCurrentBranch,
    SwitchToBase,
    PullBase,
    ListBranches,
    QueryMerged,
    PromptUpdate,
    FetchIssue,
    FetchTransitions,
    ApplyTransition,
    PromptDelete,
    DeleteBranch,
    Report,
}

/// One Sync workflow run.
#[derive(Debug, Clone, PartialEq)]
pub struct SyncMachine {
    /// The base branch of the repository.
    pub base: String,
    /// The ticket project prefix that names ticket branches.
    pub project: String,
    /// The candidate ticket branches, in enumeration order.
    pub branches: Vec<String>,
    /// The branch currently processed.
    pub idx: usize,
    /// One record per processed branch, in order.
    pub reports: Vec<SyncReport>,
    pub stage: SyncStage,
}

/// The ticket branches among `bs`, in order: valid ticket keys of this
/// project, the base branch excluded.
pub open spec fn spec_ticket_branches(bs: Seq<String>, project: Seq<char>, base: Seq<char>) -> Seq<
    String,
>
    decreases bs.len(),
{
    if bs.len() == 0 {
        Seq::empty()
    } else {
        let rest = spec_ticket_branches(bs.drop_last(), project, base);
        if spec_is_ticket_branch(bs.last()@, project) && bs.last()@ != base {
            rest.push(bs.last())
        } else {
            rest
        }
    }
}

/// Keep the ticket branches of this project, excluding the base branch.
pub fn filter_ticket_branches(branches: &Vec<String>, project: &str, base: &str) -> (r: Vec<
    String,
>)
    ensures
        r@ == spec_ticket_branches(branches@, project@, base@),
{
    let n = branches.len();
    let mut out: Vec<String> = Vec::new();
    let mut i: usize = 0;
    while i < n
        invariant
            n == branches@.len(),
            i <= n,
            out@ == spec_ticket_branches(branches@.take(i as int), project@, base@),
        decreases n - i,
    {
        let keep = crate::keys::is_ticket_branch(branches[i].as_str(), project);
        let same_base = crate::text::str_eq(branches[i].as_str(), base);
        proof {
            assert(branches@.take(i + 1 as int).drop_last() =~= branches@.take(i as int));
            assert(branches@.take(i + 1 as int).last() == branches@[i as int]);
        }
        if keep && !same_base {
            out.push(branches[i].clone());
        }
        i = i + 1;
    }
    proof {
        assert(branches@.take(n as int) =~= branches@);
    }
    out
}

/// The phases of the abstract machine the trace laws speak about.
#[derive(Debug, Clone, Copy, PartialEq, Eq, Structural)]
pub enum SyncPhaseG {
    CheckCurrent,
    SwitchingBase,
    Pulling,
    Listing,
    Classify,
    ConfirmUpdate,
    FetchingIssue,
    FetchingTransitions,
    Applying,
    ConfirmDelete,
    Deleting,
    Done,
}

/// The abstract state: the phase plus how far the sweep has come.
pub struct SyncG {
    pub phase: SyncPhaseG,
    pub idx: int,
    pub len: int,
}

/// The decision content of an event.
pub enum SyncEventG {
    /// The current branch was read; the payload says whether it is the base
    /// branch. `None`: it could not be read.
    Current(Option<bool>),
    /// A repository mutation (checkout, pull, delete) succeeded or failed.
    Git(bool),
    /// The branches were listed; the payload is the number of ticket
    /// branches. `None`: the listing failed.
    Branches(Option<int>),
    /// The ancestor test of the current branch.
    Merged(bool),
    /// A confirmation prompt was answered.
    Confirmed(bool),
    /// The issue was read; the payload says whether it already sits in the
    /// target status. `None`: it could not be read.
    Issue(Option<bool>),
    /// The transitions were read; the payload says whether one resolves.
    /// `None`: they could not be read.
    Trans(Option<bool>),
    /// The resolved transition was applied, or not.
    Applied(bool),
}

/// The actions of the abstract machine; branch-bound actions carry the index
/// of the branch they concern.
pub enum SyncActionG {
    QueryCurrentG,
    SwitchBaseG,
    PullG,
    ListG,
    QueryMergedG(int),
    PromptUpdateG(int),
    FetchIssueG(int),
    FetchTransitionsG(int),
    ApplyG(int),
    PromptDeleteG(int),
    DeleteG(int),
    ReportG,
}

/// The abstract state of a concrete machine.
pub open spec fn sync_model(m: SyncMachine) -> SyncG {
    SyncG {
        phase: sync_phase_model(m.stage),
        idx: m.idx as int,
        len: m.branches@.len() as int,
    }
}

pub open spec fn sync_phase_model(s: SyncStage) -> SyncPhaseG {
    match s {
        SyncStage::CheckCurrent => SyncPhaseG::CheckCurrent,
        SyncStage::SwitchingBase => SyncPhaseG::SwitchingBase,
        SyncStage::Pulling => SyncPhaseG::Pulling,
        SyncStage::Listing => SyncPhaseG::Listing,
        SyncStage::Classify => SyncPhaseG::Classify,
        SyncStage::ConfirmUpdate => SyncPhaseG::ConfirmUpdate,
        SyncStage::FetchingIssue => SyncPhaseG::FetchingIssue,
        SyncStage::FetchingTransitions => SyncPhaseG::FetchingTransitions,
        SyncStage::Applying { .. } => SyncPhaseG::Applying,
        SyncStage::ConfirmDelete { .. } => SyncPhaseG::ConfirmDelete,
        SyncStage::Deleting { .. } => SyncPhaseG::Deleting,
        SyncStage::Done { .. } => SyncPhaseG::Done,
    }
}

/// The decision content of a concrete event, read against the machine it is
/// fed to. The logical target status of the sweep is "Done".
pub open spec fn sync_event_model(m: SyncMachine, e: SyncEvent) -> SyncEventG {
    match e {
        SyncEvent::CurrentBranch(r) => match r {
            Ok(name) => SyncEventG::Current(Some(name@ == m.base@)),
            Err(_) => SyncEventG::Current(None),
        },
        SyncEvent::SwitchedBase(r) => SyncEventG::Git(r is Ok),
        SyncEvent::Pulled(r) => SyncEventG::Git(r is Ok),
        SyncEvent::BranchesListed(r) => match r {
            Ok(bs) => SyncEventG::Branches(
                Some(spec_ticket_branches(bs@, m.project@, m.base@).len() as int),
            ),
            Err(_) => SyncEventG::Branches(None),
        },
        SyncEvent::MergedChecked(b) => SyncEventG::Merged(b),
        SyncEvent::UpdateAnswered(b) => SyncEventG::Confirmed(b),
        SyncEvent::IssueFetched(r) => match r {
            Ok(issue) => SyncEventG::Issue(
                Some(spec_status_matches(issue.fields.status.name@, "Done"@)),
            ),
            Err(_) => SyncEventG::Issue(None),
        },
        SyncEvent::TransitionsFetched(r) => match r {
            Ok(ts) => SyncEventG::Trans(Some(spec_has_match("Done"@, ts@))),
            Err(_) => SyncEventG::Trans(None),
        },
        SyncEvent::TransitionApplied(r) => SyncEventG::Applied(r is Ok),
        SyncEvent::DeleteAnswered(b) => SyncEventG::Confirmed(b),
        SyncEvent::Deleted(r) => SyncEventG::Git(r is Ok),
    }
}

/// The event a stage waits for. A step must be fed the answer to the action
/// it last asked for.
pub open spec fn sync_stage_expects(s: SyncStage, e: SyncEvent) -> bool {
    match (s, e) {
        (SyncStage::CheckCurrent, SyncEvent::CurrentBranch(_)) => true,
        (SyncStage::SwitchingBase, SyncEvent::SwitchedBase(_)) => true,
        (SyncStage::Pulling, SyncEvent::Pulled(_)) => true,
        (SyncStage::Listing, SyncEvent::BranchesListed(_)) => true,
        (SyncStage::Classify, SyncEvent::MergedChecked(_)) => true,
        (SyncStage::ConfirmUpdate, SyncEvent::UpdateAnswered(_)) => true,
        (SyncStage::FetchingIssue, SyncEvent::IssueFetched(_)) => true,
        (SyncStage::FetchingTransitions, SyncEvent::TransitionsFetched(_)) => true,
        (SyncStage::Applying { .. }, SyncEvent::TransitionApplied(_)) => true,
        (SyncStage::ConfirmDelete { .. }, SyncEvent::DeleteAnswered(_)) => true,
        (SyncStage::Deleting { .. }, SyncEvent::Deleted(_)) => true,
        _ => false,
    }
}

/// The abstract state after one more branch is finished: the next candidate,
/// or the end of the sweep.
pub open spec fn sync_advance(s: SyncG) -> SyncG {
    if s.idx + 1 < s.len {
        SyncG { phase: SyncPhaseG::Classify, idx: s.idx + 1, len: s.len }
    } else {
        SyncG { phase: SyncPhaseG::Done, idx: s.idx, len: s.len }
    }
}

/// The transition relation of the abstract machine. An event that the phase
/// does not expect ends the run.
pub open spec fn sync_next(s: SyncG, e: SyncEventG) -> SyncG {
    match (s.phase, e) {
        (SyncPhaseG::CheckCurrent, SyncEventG::Current(Some(true))) => SyncG {
            phase: SyncPhaseG::Pulling,
            ..s
        },
        (SyncPhaseG::CheckCurrent, SyncEventG::Current(Some(false))) => SyncG {
            phase: SyncPhaseG::SwitchingBase,
            ..s
        },
        (SyncPhaseG::SwitchingBase, SyncEventG::Git(true)) => SyncG {
            phase: SyncPhaseG::Pulling,
            ..s
        },
        (SyncPhaseG::Pulling, SyncEventG::Git(true)) => SyncG { phase: SyncPhaseG::Listing, ..s },
        (SyncPhaseG::Listing, SyncEventG::Branches(Some(n))) => if n == 0 {
            SyncG { phase: SyncPhaseG::Done, idx: s.idx, len: n }
        } else {
            SyncG { phase: SyncPhaseG::Classify, idx: 0, len: n }
        },
        (SyncPhaseG::Classify, SyncEventG::Merged(true)) => SyncG {
            phase: SyncPhaseG::ConfirmUpdate,
            ..s
        },
        (SyncPhaseG::Classify, SyncEventG::Merged(false)) => sync_advance(s),
        (SyncPhaseG::ConfirmUpdate, SyncEventG::Confirmed(true)) => SyncG {
            phase: SyncPhaseG::FetchingIssue,
            ..s
        },
        (SyncPhaseG::ConfirmUpdate, SyncEventG::Confirmed(false)) => SyncG {
            phase: SyncPhaseG::ConfirmDelete,
            ..s
        },
        (SyncPhaseG::FetchingIssue, SyncEventG::Issue(Some(false))) => SyncG {
            phase: SyncPhaseG::FetchingTransitions,
            ..s
        },
        (SyncPhaseG::FetchingIssue, SyncEventG::Issue(_)) => SyncG {
            phase: SyncPhaseG::ConfirmDelete,
            ..s
        },
        (SyncPhaseG::FetchingTransitions, SyncEventG::Trans(Some(true))) => SyncG {
            phase: SyncPhaseG::Applying,
            ..s
        },
        (SyncPhaseG::FetchingTransitions, SyncEventG::Trans(_)) => SyncG {
            phase: SyncPhaseG::ConfirmDelete,
            ..s
        },
        (SyncPhaseG::Applying, SyncEventG::Applied(_)) => SyncG {
            phase: SyncPhaseG::ConfirmDelete,
            ..s
        },
        (SyncPhaseG::ConfirmDelete, SyncEventG::Confirmed(true)) => SyncG {
            phase: SyncPhaseG::Deleting,
            ..s
        },
        (SyncPhaseG::ConfirmDelete, SyncEventG::Confirmed(false)) => sync_advance(s),
        (SyncPhaseG::Deleting, SyncEventG::Git(_)) => sync_advance(s),
        _ => SyncG { phase: SyncPhaseG::Done, ..s },
    }
}

/// The action the abstract machine emits on a step.
pub open spec fn sync_emit(s: SyncG, e: SyncEventG) -> SyncActionG {
    match (s.phase, e) {
        (SyncPhaseG::CheckCurrent, SyncEventG::Current(Some(true))) => SyncActionG::PullG,
        (SyncPhaseG::CheckCurrent, SyncEventG::Current(Some(false))) => SyncActionG::SwitchBaseG,
        (SyncPhaseG::SwitchingBase, SyncEventG::Git(true)) => SyncActionG::PullG,
        (SyncPhaseG::Pulling, SyncEventG::Git(true)) => SyncActionG::ListG,
        (SyncPhaseG::Listing, SyncEventG::Branches(Some(n))) => if n == 0 {
            SyncActionG::ReportG
        } else {
            SyncActionG::QueryMergedG(0)
        },
        (SyncPhaseG::Classify, SyncEventG::Merged(true)) => SyncActionG::PromptUpdateG(s.idx),
        (SyncPhaseG::Classify, SyncEventG::Merged(false)) => sync_advance_emit(s),
        (SyncPhaseG::ConfirmUpdate, SyncEventG::Confirmed(true)) => SyncActionG::FetchIssueG(
            s.idx,
        ),
        (SyncPhaseG::ConfirmUpdate, SyncEventG::Confirmed(false)) => SyncActionG::PromptDeleteG(
            s.idx,
        ),
        (SyncPhaseG::FetchingIssue, SyncEventG::Issue(Some(false))) => (
        SyncActionG::FetchTransitionsG(s.idx)),
        (SyncPhaseG::FetchingIssue, SyncEventG::Issue(_)) => SyncActionG::PromptDeleteG(s.idx),
        (SyncPhaseG::FetchingTransitions, SyncEventG::Trans(Some(true))) => SyncActionG::ApplyG(
            s.idx,
        ),
        (SyncPhaseG::FetchingTransitions, SyncEventG::Trans(_)) => SyncActionG::PromptDeleteG(
            s.idx,
        ),
        (SyncPhaseG::Applying, SyncEventG::Applied(_)) => SyncActionG::PromptDeleteG(s.idx),
        (SyncPhaseG::ConfirmDelete, SyncEventG::Confirmed(true)) => SyncActionG::DeleteG(s.idx),
        (SyncPhaseG::ConfirmDelete, SyncEventG::Confirmed(false)) => sync_advance_emit(s),
        (SyncPhaseG::Deleting, SyncEventG::Git(_)) => sync_advance_emit(s),
        _ => SyncActionG::ReportG,
    }
}

/// The action emitted when one more branch is finished.
pub open spec fn sync_advance_emit(s: SyncG) -> SyncActionG {
    if s.idx + 1 < s.len {
        SyncActionG::QueryMergedG(s.idx + 1)
    } else {
        SyncActionG::ReportG
    }
}

/// The abstract action of a concrete action, bound to the branch index the
/// machine stands at after the step.
pub open spec fn sync_action_model(a: SyncAction, idx: int) -> SyncActionG {
    match a {
        SyncAction::QueryCurrentBranch => SyncActionG::QueryCurrentG,
        SyncAction::SwitchToBase => SyncActionG::SwitchBaseG,
        SyncAction::PullBase => SyncActionG::PullG,
        SyncAction::ListBranches => SyncActionG::ListG,
        SyncAction::QueryMerged => SyncActionG::QueryMergedG(idx),
        SyncAction::PromptUpdate => SyncActionG::PromptUpdateG(idx),
        SyncAction::FetchIssue => SyncActionG::FetchIssueG(idx),
        SyncAction::FetchTransitions => SyncActionG::FetchTransitionsG(idx),
        SyncAction::ApplyTransition => SyncActionG::ApplyG(idx),
        SyncAction::PromptDelete => SyncActionG::PromptDeleteG(idx),
        SyncAction::DeleteBranch => SyncActionG::DeleteG(idx),
        SyncAction::Report => SyncActionG::ReportG,
    }
}

/// The actions an abstract run emits, one per consumed event.
pub open spec fn sync_run(s: SyncG, events: Seq<SyncEventG>) -> Seq<SyncActionG>
    decreases events.len(),
{
    if events.len() == 0 {
        Seq::empty()
    } else {
        seq![sync_emit(s, events[0])] + sync_run(sync_next(s, events[0]), events.drop_first())
    }
}

/// The phases that process one candidate branch.
pub open spec fn sync_in_sweep(p: SyncPhaseG) -> bool {
    ||| p == SyncPhaseG::Classify
    ||| p == SyncPhaseG::ConfirmUpdate
    ||| p == SyncPhaseG::FetchingIssue
    ||| p == SyncPhaseG::FetchingTransitions
    ||| p == SyncPhaseG::Applying
    ||| p == SyncPhaseG::ConfirmDelete
    ||| p == SyncPhaseG::Deleting
}

/// Once the sweep has moved past branch `i` (or ended), no later step emits
/// a deletion of branch `i`.
proof fn lemma_sync_no_delete_behind(s: SyncG, events: Seq<SyncEventG>, i: int)
    requires
        s.phase == SyncPhaseG::Done || (sync_in_sweep(s.phase) && s.idx > i),
    ensures
        forall|k: int|
            0 <= k < sync_run(s, events).len() ==> sync_run(s, events)[k] != SyncActionG::DeleteG(
                i,
            ),
    decreases events.len(),
{
    if events.len() > 0 {
        let e0 = events[0];
        let s1 = sync_next(s, e0);
        assert(s1.phase == SyncPhaseG::Done || (sync_in_sweep(s1.phase) && s1.idx > i));
        lemma_sync_no_delete_behind(s1, events.drop_first(), i);
        assert(sync_emit(s, e0) != SyncActionG::DeleteG(i));
    }
}

/// The sweep never deletes an unmerged branch: when the ancestor test of the
/// candidate branch answers "not merged", no step of the rest of the run —
/// the same sweep — emits a deletion of that branch.
pub proof fn lemma_sync_unmerged_never_deleted(s: SyncG, events: Seq<SyncEventG>)
    requires
        s.phase == SyncPhaseG::Classify,
        events.len() > 0,
        events[0] == SyncEventG::Merged(false),
    ensures
        forall|k: int|
            0 <= k < sync_run(s, events).len() ==> sync_run(s, events)[k] != SyncActionG::DeleteG(
                s.idx,
            ),
{
    let s1 = sync_next(s, events[0]);
    assert(s1.phase == SyncPhaseG::Done || (sync_in_sweep(s1.phase) && s1.idx > s.idx));
    lemma_sync_no_delete_behind(s1, events.drop_first(), s.idx);
    assert(sync_emit(s, events[0]) != SyncActionG::DeleteG(s.idx));
}

/// The machine is well formed: while a branch is being processed, the index
/// points into the candidate list.
pub open spec fn sync_wf(m: SyncMachine) -> bool {
    (sync_phase_model(m.stage) == SyncPhaseG::Classify || sync_phase_model(m.stage)
        == SyncPhaseG::ConfirmUpdate || sync_phase_model(m.stage) == SyncPhaseG::FetchingIssue
        || sync_phase_model(m.stage) == SyncPhaseG::FetchingTransitions || sync_phase_model(
        m.stage,
    ) == SyncPhaseG::Applying || sync_phase_model(m.stage) == SyncPhaseG::ConfirmDelete
        || sync_phase_model(m.stage) == SyncPhaseG::Deleting) ==> m.idx < m.branches@.len()
}

/// Begin a Sync run: first read the current branch.
pub fn sync_begin(base: &str, project: &str) -> (r: (SyncMachine, SyncAction))
    ensures
        r.0.base@ == base@,
        r.0.project@ == project@,
        r.0.branches@.len() == 0,
        r.0.idx == 0,
        r.0.reports@.len() == 0,
        r.0.stage == SyncStage::CheckCurrent,
        r.1 == SyncAction::QueryCurrentBranch,
        sync_wf(r.0),
{
    (
        SyncMachine {
            base: String::from_str(base),
            project: String::from_str(project),
            branches: Vec::new(),
            idx: 0,
            reports: Vec::new(),
            stage: SyncStage::CheckCurrent,
        },
        SyncAction::QueryCurrentBranch,
    )
}

/// Finish the current branch: record its report and move to the next
/// candidate, or end the sweep.
fn advance_machine(
    base: String,
    project: String,
    branches: Vec<String>,
    idx: usize,
    reports: Vec<SyncReport>,
    report: SyncReport,
) -> (r: (SyncMachine, SyncAction))
    requires
        idx < branches@.len(),
    ensures
        r.0.base == base,
        r.0.project == project,
        r.0.branches == branches,
        r.0.reports@ == reports@.push(report),
        idx + 1 < branches@.len() ==> (r.0.idx == idx + 1 && r.0.stage == SyncStage::Classify
            && r.1 == SyncAction::QueryMerged),
        idx + 1 == branches@.len() ==> (r.0.idx == idx && (r.0.stage matches SyncStage::Done {
            outcome,
        } && outcome == SyncOutcome::Completed) && r.1 == SyncAction::Report),
        sync_wf(r.0),
{
    let mut reports = reports;
    reports.push(report);
    let n = branches.len();
    if idx + 1 < n {
        (
            SyncMachine { base, project, branches, idx: idx + 1, reports, stage: SyncStage::Classify },
            SyncAction::QueryMerged,
        )
    } else {
        (
            SyncMachine {
                base,
                project,
                branches,
                idx,
                reports,
                stage: SyncStage::Done { outcome: SyncOutcome::Completed },
            },
            SyncAction::Report,
        )
    }
}

/// One step of the Sync workflow: consume the answer to the pending action
/// and decide the next stage and action. The contract pins every decision;
/// the abstract-machine clauses tie the run to the trace laws.
pub fn sync_step(m: SyncMachine, event: SyncEvent) -> (r: (SyncMachine, SyncAction))
    requires
        sync_wf(m),
        sync_stage_expects(m.stage, event),
    ensures
        r.0.base == m.base,
        r.0.project == m.project,
        sync_wf(r.0),
        sync_model(r.0) == sync_next(sync_model(m), sync_event_model(m, event)),
        sync_action_model(r.1, sync_model(r.0).idx) == sync_emit(
            sync_model(m),
            sync_event_model(m, event),
        ),
        !(m.stage is Listing) ==> r.0.branches == m.branches,
        !(m.stage is Classify || m.stage is ConfirmDelete || m.stage is Deleting) ==> r.0.reports@
            == m.reports@,
        m.stage is Classify ==> (event matches SyncEvent::MergedChecked(true) ==> r.0.reports@
            == m.reports@),
        m.stage is ConfirmDelete ==> (event matches SyncEvent::DeleteAnswered(true)
            ==> r.0.reports@ == m.reports@),
        (m.stage is Classify || m.stage is ConfirmDelete || m.stage is Deleting) ==> (
        r.0.stage matches SyncStage::Done { outcome } ==> outcome == SyncOutcome::Completed),
        m.stage is CheckCurrent ==> (event matches SyncEvent::CurrentBranch(Err(e0)) ==> (
        r.0.stage matches SyncStage::Done { outcome } && outcome matches SyncOutcome::GitFailed(e1)
            && e1 == e0)),
        m.stage is SwitchingBase ==> (event matches SyncEvent::SwitchedBase(Err(e0)) ==> (
        r.0.stage matches SyncStage::Done { outcome } && outcome matches SyncOutcome::GitFailed(e1)
            && e1 == e0)),
        m.stage is Pulling ==> (event matches SyncEvent::Pulled(Err(e0)) ==> (
        r.0.stage matches SyncStage::Done { outcome } && outcome matches SyncOutcome::GitFailed(e1)
            && e1 == e0)),
        m.stage is Listing ==> (event matches SyncEvent::BranchesListed(Ok(bs)) ==> (
        r.0.branches@ == spec_ticket_branches(bs@, m.project@, m.base@) && (r.0.branches@.len()
            == 0 ==> (r.0.stage matches SyncStage::Done { outcome } && outcome
            == SyncOutcome::NoTicketBranches)) && (r.0.branches@.len() > 0 ==> r.0.stage
            == SyncStage::Classify && r.0.idx == 0))),
        m.stage is Listing ==> (event matches SyncEvent::BranchesListed(Err(e0)) ==> (
        r.0.stage matches SyncStage::Done { outcome } && outcome matches SyncOutcome::ListFailed(
            e1,
        ) && e1 == e0)),
        m.stage is Classify ==> (event matches SyncEvent::MergedChecked(false) ==> r.0.reports@
            == m.reports@.push(
            SyncReport { branch: m.branches@[m.idx as int], finding: BranchFinding::Unmerged },
        )),
        m.stage is ConfirmUpdate ==> (event matches SyncEvent::UpdateAnswered(false) ==> (
        r.0.stage matches SyncStage::ConfirmDelete { update } && update == TicketUpdate::Declined)),
        m.stage is FetchingIssue ==> (event matches SyncEvent::IssueFetched(Ok(issue)) ==> (
        spec_status_matches(issue.fields.status.name@, "Done"@) ==> (
        r.0.stage matches SyncStage::ConfirmDelete { update } && update
            == TicketUpdate::AlreadyInTarget))),
        m.stage is FetchingIssue ==> (event matches SyncEvent::IssueFetched(Err(e0)) ==> (
        r.0.stage matches SyncStage::ConfirmDelete { update }
            && update matches TicketUpdate::FetchFailed(e1) && e1 == e0)),
        m.stage is FetchingTransitions ==> (event matches SyncEvent::TransitionsFetched(
            Ok(ts),
        ) ==> ((spec_resolution("Done"@, ts@) matches Some(i) ==> (
        r.0.stage matches SyncStage::Applying { transition_id } && transition_id@ == ts@[i].id@))
            && (spec_resolution("Done"@, ts@) is None ==> (
        r.0.stage matches SyncStage::ConfirmDelete { update }
            && update matches TicketUpdate::Unresolvable { available }
            && lists_destinations_exactly(available@, ts@))))),
        m.stage is FetchingTransitions ==> (event matches SyncEvent::TransitionsFetched(
            Err(e0),
        ) ==> (r.0.stage matches SyncStage::ConfirmDelete { update }
            && update matches TicketUpdate::FetchFailed(e1) && e1 == e0)),
        m.stage is Applying ==> (event matches SyncEvent::TransitionApplied(Ok(())) ==> (
        r.0.stage matches SyncStage::ConfirmDelete { update } && update == TicketUpdate::Applied)),
        m.stage is Applying ==> (event matches SyncEvent::TransitionApplied(Err(e0)) ==> (
        r.0.stage matches SyncStage::ConfirmDelete { update }
            && update matches TicketUpdate::ApplyFailed(e1) && e1 == e0)),
        m.stage matches SyncStage::ConfirmDelete { update: u0 } ==> (
        event matches SyncEvent::DeleteAnswered(false) ==> r.0.reports@ == m.reports@.push(
            SyncReport {
                branch: m.branches@[m.idx as int],
                finding: BranchFinding::Merged {
                    update: u0,
                    deletion: DeletionResult::DeclinedDelete,
                },
            },
        )),
        m.stage matches SyncStage::Deleting { update: u0 } ==> (event matches SyncEvent::Deleted(
            Ok(()),
        ) ==> r.0.reports@ == m.reports@.push(
            SyncReport {
                branch: m.branches@[m.idx as int],
                finding: BranchFinding::Merged { update: u0, deletion: DeletionResult::Deleted },
            },
        )),
        m.stage matches SyncStage::Deleting { update: u0 } ==> (event matches SyncEvent::Deleted(
            Err(e0),
        ) ==> r.0.reports@ == m.reports@.push(
            SyncReport {
                branch: m.branches@[m.idx as int],
                finding: BranchFinding::Merged {
                    update: u0,
                    deletion: DeletionResult::DeleteFailed(e0),
                },
            },
        )),
{
    let SyncMachine { base, project, branches, idx, reports, stage } = m;
    match (stage, event) {
        (SyncStage::CheckCurrent, SyncEvent::CurrentBranch(Ok(name))) => {
            let on_base = crate::text::str_eq(name.as_str(), base.as_str());
            if on_base {
                (
                    SyncMachine { base, project, branches, idx, reports, stage: SyncStage::Pulling },
                    SyncAction::PullBase,
                )
            } else {
                (
                    SyncMachine {
                        base,
                        project,
                        branches,
                        idx,
                        reports,
                        stage: SyncStage::SwitchingBase,
                    },
                    SyncAction::SwitchToBase,
                )
            }
        },
        (SyncStage::CheckCurrent, SyncEvent::CurrentBranch(Err(e))) => (
            SyncMachine {
                base,
                project,
                branches,
                idx,
                reports,
                stage: SyncStage::Done { outcome: SyncOutcome::GitFailed(e) },
            },
            SyncAction::Report,
        ),
        (SyncStage::SwitchingBase, SyncEvent::SwitchedBase(Ok(()))) => (
            SyncMachine { base, project, branches, idx, reports, stage: SyncStage::Pulling },
            SyncAction::PullBase,
        ),
        (SyncStage::SwitchingBase, SyncEvent::SwitchedBase(Err(e))) => (
            SyncMachine {
                base,
                project,
                branches,
                idx,
                reports,
                stage: SyncStage::Done { outcome: SyncOutcome::GitFailed(e) },
            },
            SyncAction::Report,
        ),
        (SyncStage::Pulling, SyncEvent::Pulled(Ok(()))) => (
            SyncMachine { base, project, branches, idx, reports, stage: SyncStage::Listing },
            SyncAction::ListBranches,
        ),
        (SyncStage::Pulling, SyncEvent::Pulled(Err(e))) => (
            SyncMachine {
                base,
                project,
                branches,
                idx,
                reports,
                stage: SyncStage::Done { outcome: SyncOutcome::GitFailed(e) },
            },
            SyncAction::Report,
        ),
        (SyncStage::Listing, SyncEvent::BranchesListed(Ok(bs))) => {
            let ticket_branches = filter_ticket_branches(&bs, project.as_str(), base.as_str());
            if ticket_branches.len() == 0 {
                (
                    SyncMachine {
                        base,
                        project,
                        branches: ticket_branches,
                        idx,
                        reports,
                        stage: SyncStage::Done { outcome: SyncOutcome::NoTicketBranches },
                    },
                    SyncAction::Report,
                )
            } else {
                (
                    SyncMachine {
                        base,
                        project,
                        branches: ticket_branches,
                        idx: 0,
                        reports,
                        stage: SyncStage::Classify,
                    },
                    SyncAction::QueryMerged,
                )
            }
        },
        (SyncStage::Listing, SyncEvent::BranchesListed(Err(e))) => (
            SyncMachine {
                base,
                project,
                branches,
                idx,
                reports,
                stage: SyncStage::Done { outcome: SyncOutcome::ListFailed(e) },
            },
            SyncAction::Report,
        ),
        (SyncStage::Classify, SyncEvent::MergedChecked(true)) => (
            SyncMachine { base, project, branches, idx, reports, stage: SyncStage::ConfirmUpdate },
            SyncAction::PromptUpdate,
        ),
        (SyncStage::Classify, SyncEvent::MergedChecked(false)) => {
            let report = SyncReport {
                branch: branches[idx].clone(),
                finding: BranchFinding::Unmerged,
            };
            advance_machine(base, project, branches, idx, reports, report)
        },
        (SyncStage::ConfirmUpdate, SyncEvent::UpdateAnswered(true)) => (
            SyncMachine { base, project, branches, idx, reports, stage: SyncStage::FetchingIssue },
            SyncAction::FetchIssue,
        ),
        (SyncStage::ConfirmUpdate, SyncEvent::UpdateAnswered(false)) => (
            SyncMachine {
                base,
                project,
                branches,
                idx,
                reports,
                stage: SyncStage::ConfirmDelete { update: TicketUpdate::Declined },
            },
            SyncAction::PromptDelete,
        ),
        (SyncStage::FetchingIssue, SyncEvent::IssueFetched(Ok(issue))) => {
            let already = status_matches_logical(issue.fields.status.name.as_str(), "Done");
            if already {
                (
                    SyncMachine {
                        base,
                        project,
                        branches,
                        idx,
                        reports,
                        stage: SyncStage::ConfirmDelete { update: TicketUpdate::AlreadyInTarget },
                    },
                    SyncAction::PromptDelete,
                )
            } else {
                (
                    SyncMachine {
                        base,
                        project,
                        branches,
                        idx,
                        reports,
                        stage: SyncStage::FetchingTransitions,
                    },
                    SyncAction::FetchTransitions,
                )
            }
        },
        (SyncStage::FetchingIssue, SyncEvent::IssueFetched(Err(e))) => (
            SyncMachine {
                base,
                project,
                branches,
                idx,
                reports,
                stage: SyncStage::ConfirmDelete { update: TicketUpdate::FetchFailed(e) },
            },
            SyncAction::PromptDelete,
        ),
        (SyncStage::FetchingTransitions, SyncEvent::TransitionsFetched(Ok(ts))) => {
            match resolve_transition("Done", &ts) {
                TransitionResolution::Resolved { id } => (
                    SyncMachine {
                        base,
                        project,
                        branches,
                        idx,
                        reports,
                        stage: SyncStage::Applying { transition_id: id },
                    },
                    SyncAction::ApplyTransition,
                ),
                TransitionResolution::NoMatch { available } => (
                    SyncMachine {
                        base,
                        project,
                        branches,
                        idx,
                        reports,
                        stage: SyncStage::ConfirmDelete {
                            update: TicketUpdate::Unresolvable { available },
                        },
                    },
                    SyncAction::PromptDelete,
                ),
            }
        },
        (SyncStage::FetchingTransitions, SyncEvent::TransitionsFetched(Err(e))) => (
            SyncMachine {
                base,
                project,
                branches,
                idx,
                reports,
                stage: SyncStage::ConfirmDelete { update: TicketUpdate::FetchFailed(e) },
            },
            SyncAction::PromptDelete,
        ),
        (SyncStage::Applying { .. }, SyncEvent::TransitionApplied(Ok(()))) => (
            SyncMachine {
                base,
                project,
                branches,
                idx,
                reports,
                stage: SyncStage::ConfirmDelete { update: TicketUpdate::Applied },
            },
            SyncAction::PromptDelete,
        ),
        (SyncStage::Applying { .. }, SyncEvent::TransitionApplied(Err(e))) => (
            SyncMachine {
                base,
                project,
                branches,
                idx,
                reports,
                stage: SyncStage::ConfirmDelete { update: TicketUpdate::ApplyFailed(e) },
            },
            SyncAction::PromptDelete,
        ),
        (SyncStage::ConfirmDelete { update }, SyncEvent::DeleteAnswered(true)) => (
            SyncMachine {
                base,
                project,
                branches,
                idx,
                reports,
                stage: SyncStage::Deleting { update },
            },
            SyncAction::DeleteBranch,
        ),
        (SyncStage::ConfirmDelete { update }, SyncEvent::DeleteAnswered(false)) => {
            let report = SyncReport {
                branch: branches[idx].clone(),
                finding: BranchFinding::Merged {
                    update,
                    deletion: DeletionResult::DeclinedDelete,
                },
            };
            advance_machine(base, project, branches, idx, reports, report)
        },
        (SyncStage::Deleting { update }, SyncEvent::Deleted(res)) => {
            let deletion = match res {
                Ok(()) => DeletionResult::Deleted,
                Err(e) => DeletionResult::DeleteFailed(e),
            };
            let report = SyncReport {
                branch: branches[idx].clone(),
                finding: BranchFinding::Merged { update, deletion },
            };
            advance_machine(base, project, branches, idx, reports, report)
        },
        (s, _) => {
            proof {
                assert(false);
            }
            (SyncMachine { base, project, branches, idx, reports, stage: s }, SyncAction::Report)
        },
    }
}

} // verus!
