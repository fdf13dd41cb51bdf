//! The Start workflow: take a ticket key, guard the repository state, create
//! and check out the ticket's branch, then move the ticket toward the
//! logical "In Progress" status. The workflow is a state machine: each step
//! consumes the outcome of one external action (a repository query, a
//! prompt, a tracker call) and decides the next action. The surrounding
//! process performs the actions; every decision is made here.
//!
//! Preconditions are hard stops: a dirty working tree aborts before any
//! mutation, an existing branch only offers a switch. After the branch is
//! created it is the durable artifact of the workflow: tracker failures from
//! then on are reported, never treated as workflow failures.

use vstd::prelude::*;
use crate::error::AppError;
use crate::jira::{Issue, Transition};
use crate::keys::spec_valid_ticket_key;
use crate::text::{trim_spec, upper_seq};
use crate::transitions::{
    TicketUpdate,
    TransitionResolution,
    lists_destinations_exactly,
    resolve_transition,
    spec_has_match,
    spec_resolution,
    spec_status_matches,
    status_matches_logical,
};

verus! {

/// Where the Start workflow stands: which external answer it waits for.
#[derive(Debug, Clone, PartialEq)]
pub enum StartStage {
    /// Waiting for the working-tree cleanliness check.
    CheckClean,
    /// Waiting for the branch-existence check.
    CheckBranch,
    /// The branch exists; waiting for the user's switch decision.
    ConfirmSwitch,
    /// Waiting for the checkout of the existing branch.
    Switching,
    /// Waiting for the pull of the base branch.
    Pulling,
    /// Waiting for branch creation and checkout.
    Creating,
    /// Waiting for the issue snapshot.
    FetchingIssue,
    /// Waiting for the user's status-update decision.
    ConfirmUpdate,
    /// Waiting for the list of available transitions.
    FetchingTransitions,
    /// Waiting for the result of applying the resolved transition.
    Applying { transition_id: String },
    /// The workflow is over.
    Done { outcome: StartOutcome },
}

/// How a Start run ended.
#[derive(Debug, Clone, PartialEq)]
pub enum StartOutcome {
    /// The given key does not parse as a ticket key; nothing was done.
    InvalidTicket,
    /// The working tree is dirty; nothing was done.
    UncommittedChanges,
    /// The branch already existed and the user switched to it.
    SwitchedToExisting,
    /// The branch already existed and the user declined the switch.
    SwitchDeclined,
    /// The checkout of the existing branch failed.
    SwitchFailed(AppError),
    /// Pulling the base branch failed; no branch was created.
    PullFailed(AppError),
    /// Creating the branch failed.
    CreateFailed(AppError),
    /// The branch was created and checked out; `update` says what became of
    /// the ticket status.
    Completed { update: TicketUpdate },
}

/// The outcome of the one external action the workflow waits for.
#[derive(Debug, PartialEq)]
pub enum StartEvent {
    CleanChecked(bool),
    BranchChecked(bool),
    SwitchAnswered(bool),
    CheckedOut(Result<(), AppError>),
    Pulled(Result<(), AppError>),
    Created(Result<(), AppError>),
    IssueFetched(Result<Issue, AppError>),
    UpdateAnswered(bool),
    TransitionsFetched(Result<Vec<Transition>, AppError>),
    TransitionApplied(Result<(), AppError>),
}

/// The next external action to perform. The machine's fields say which
/// branch, base and ticket the action concerns; `ApplyTransition` reads its
/// transition id from the `Applying` stage.
#[derive(Debug, Clone, Copy, PartialEq, Eq, Structural)]
pub enum StartAction {
    QueryClean,
    QueryBranchExists,
    PromptSwitch,
    Checkout,
    PullBase,
    CreateBranch,
    FetchIssue,
    PromptUpdate,
    FetchTransitions,
    ApplyTransition,
    Report,
}

/// One Start workflow run.
#[derive(Debug, Clone, PartialEq)]
pub struct StartMachine {
    /// The normalized ticket key.
    pub ticket: String,
    /// The branch derived from the ticket key.
    pub branch: String,
    /// The base branch the new branch starts from.
    pub base: String,
    pub stage: StartStage,
}

/// The stages of the abstract machine the trace laws speak about.
#[derive(Debug, Clone, Copy, PartialEq, Eq, Structural)]
pub enum StartStageG {
    CheckClean,
    CheckBranch,
    ConfirmSwitch,
    Switching,
    Pulling,
    Creating,
    FetchingIssue,
    ConfirmUpdate,
    FetchingTransitions,
    Applying,
    Done,
}

/// The decision content of an event: what the workflow's next move depends
/// on, with the payloads abstracted away.
#[derive(Debug, Clone, Copy, PartialEq, Eq, Structural)]
pub enum StartEventG {
    Clean(bool),
    Exists(bool),
    SwitchAnswer(bool),
    Checkout(bool),
    Pull(bool),
    Create(bool),
    /// The issue was read and already sits in the target status.
    IssueAlready,
    /// The issue was read and needs a transition.
    IssueNeedsUpdate,
    /// The issue could not be read.
    IssueError,
    UpdateAnswer(bool),
    /// Transitions were read and one resolves to the target.
    TransResolved,
    /// Transitions were read and none resolves.
    TransUnresolved,
    /// The transitions could not be read.
    TransError,
    Apply(bool),
}

/// The stage of the abstract machine a concrete stage corresponds to.
pub open spec fn start_stage_model(s: StartStage) -> StartStageG {
    match s {
        StartStage::CheckClean => StartStageG::CheckClean,
        StartStage::CheckBranch => StartStageG::CheckBranch,
        StartStage::ConfirmSwitch => StartStageG::ConfirmSwitch,
        StartStage::Switching => StartStageG::Switching,
        StartStage::Pulling => StartStageG::Pulling,
        StartStage::Creating => StartStageG::Creating,
        StartStage::FetchingIssue => StartStageG::FetchingIssue,
        StartStage::ConfirmUpdate => StartStageG::ConfirmUpdate,
        StartStage::FetchingTransitions => StartStageG::FetchingTransitions,
        StartStage::Applying { .. } => StartStageG::Applying,
        StartStage::Done { .. } => StartStageG::Done,
    }
}

/// The decision content of a concrete event. The logical target status of
/// the Start workflow is "In Progress".
pub open spec fn start_event_model(e: StartEvent) -> StartEventG {
    match e {
        StartEvent::CleanChecked(b) => StartEventG::Clean(b),
        StartEvent::BranchChecked(b) => StartEventG::Exists(b),
        StartEvent::SwitchAnswered(b) => StartEventG::SwitchAnswer(b),
        StartEvent::CheckedOut(r) => StartEventG::Checkout(r is Ok),
        StartEvent::Pulled(r) => StartEventG::Pull(r is Ok),
        StartEvent::Created(r) => StartEventG::Create(r is Ok),
        StartEvent::IssueFetched(r) => match r {
            Ok(issue) => if spec_status_matches(issue.fields.status.name@, "In Progress"@) {
                StartEventG::IssueAlready
            } else {
                StartEventG::IssueNeedsUpdate
            },
            Err(_) => StartEventG::IssueError,
        },
        StartEvent::UpdateAnswered(b) => StartEventG::UpdateAnswer(b),
        StartEvent::TransitionsFetched(r) => match r {
            Ok(ts) => if spec_has_match("In Progress"@, ts@) {
                StartEventG::TransResolved
            } else {
                StartEventG::TransUnresolved
            },
            Err(_) => StartEventG::TransError,
        },
        StartEvent::TransitionApplied(r) => StartEventG::Apply(r is Ok),
    }
}

/// The event a stage waits for. A step must be fed the answer to the action
/// it last asked for.
pub open spec fn start_expects(s: StartStageG, e: StartEventG) -> bool {
    match (s, e) {
        (StartStageG::CheckClean, StartEventG::Clean(_)) => true,
        (StartStageG::CheckBranch, StartEventG::Exists(_)) => true,
        (StartStageG::ConfirmSwitch, StartEventG::SwitchAnswer(_)) => true,
        (StartStageG::Switching, StartEventG::Checkout(_)) => true,
        (StartStageG::Pulling, StartEventG::Pull(_)) => true,
        (StartStageG::Creating, StartEventG::Create(_)) => true,
        (StartStageG::FetchingIssue, StartEventG::IssueAlready) => true,
        (StartStageG::FetchingIssue, StartEventG::IssueNeedsUpdate) => true,
        (StartStageG::FetchingIssue, StartEventG::IssueError) => true,
        (StartStageG::ConfirmUpdate, StartEventG::UpdateAnswer(_)) => true,
        (StartStageG::FetchingTransitions, StartEventG::TransResolved) => true,
        (StartStageG::FetchingTransitions, StartEventG::TransUnresolved) => true,
        (StartStageG::FetchingTransitions, StartEventG::TransError) => true,
        (StartStageG::Applying, StartEventG::Apply(_)) => true,
        _ => false,
    }
}

/// The transition relation of the abstract machine. An event that the stage
/// does not expect ends the run.
pub open spec fn start_next(s: StartStageG, e: StartEventG) -> StartStageG {
    match (s, e) {
        (StartStageG::CheckClean, StartEventG::Clean(true)) => StartStageG::CheckBranch,
        (StartStageG::CheckBranch, StartEventG::Exists(true)) => StartStageG::ConfirmSwitch,
        (StartStageG::CheckBranch, StartEventG::Exists(false)) => StartStageG::Pulling,
        (StartStageG::ConfirmSwitch, StartEventG::SwitchAnswer(true)) => StartStageG::Switching,
        (StartStageG::Pulling, StartEventG::Pull(true)) => StartStageG::Creating,
        (StartStageG::Creating, StartEventG::Create(true)) => StartStageG::FetchingIssue,
        (StartStageG::FetchingIssue, StartEventG::IssueNeedsUpdate) => StartStageG::ConfirmUpdate,
        (StartStageG::ConfirmUpdate, StartEventG::UpdateAnswer(true)) => (
        StartStageG::FetchingTransitions),
        (StartStageG::FetchingTransitions, StartEventG::TransResolved) => StartStageG::Applying,
        _ => StartStageG::Done,
    }
}

/// The action the abstract machine emits on a step.
pub open spec fn start_emit(s: StartStageG, e: StartEventG) -> StartAction {
    match (s, e) {
        (StartStageG::CheckClean, StartEventG::Clean(true)) => StartAction::QueryBranchExists,
        (StartStageG::CheckBranch, StartEventG::Exists(true)) => StartAction::PromptSwitch,
        (StartStageG::CheckBranch, StartEventG::Exists(false)) => StartAction::PullBase,
        (StartStageG::ConfirmSwitch, StartEventG::SwitchAnswer(true)) => StartAction::Checkout,
        (StartStageG::Pulling, StartEventG::Pull(true)) => StartAction::CreateBranch,
        (StartStageG::Creating, StartEventG::Create(true)) => StartAction::FetchIssue,
        (StartStageG::FetchingIssue, StartEventG::IssueNeedsUpdate) => StartAction::PromptUpdate,
        (StartStageG::ConfirmUpdate, StartEventG::UpdateAnswer(true)) => (
        StartAction::FetchTransitions),
        (StartStageG::FetchingTransitions, StartEventG::TransResolved) => (
        StartAction::ApplyTransition),
        _ => StartAction::Report,
    }
}

/// The actions an abstract run emits, one per consumed event.
pub open spec fn start_run(s: StartStageG, events: Seq<StartEventG>) -> Seq<StartAction>
    decreases events.len(),
{
    if events.len() == 0 {
        Seq::empty()
    } else {
        seq![start_emit(s, events[0])] + start_run(start_next(s, events[0]), events.drop_first())
    }
}

/// From the final stage a run only reports: it asks for no further action.
proof fn lemma_start_done_only_reports(events: Seq<StartEventG>)
    ensures
        forall|i: int|
            0 <= i < start_run(StartStageG::Done, events).len() ==> start_run(
                StartStageG::Done,
                events,
            )[i] == StartAction::Report,
    decreases events.len(),
{
    if events.len() > 0 {
        lemma_start_done_only_reports(events.drop_first());
    }
}

/// The Start workflow never mutates anything on a dirty working tree: in
/// any run from the initial stage in which the cleanliness check never
/// answers "clean", every emitted action is the final report — in
/// particular, the branch-creation action is never emitted.
pub proof fn lemma_start_dirty_never_creates(events: Seq<StartEventG>)
    requires
        forall|i: int| 0 <= i < events.len() ==> events[i] != StartEventG::Clean(true),
    ensures
        forall|i: int|
            0 <= i < start_run(StartStageG::CheckClean, events).len() ==> start_run(
                StartStageG::CheckClean,
                events,
            )[i] == StartAction::Report,
        forall|i: int|
            0 <= i < start_run(StartStageG::CheckClean, events).len() ==> start_run(
                StartStageG::CheckClean,
                events,
            )[i] != StartAction::CreateBranch,
{
    if events.len() > 0 {
        let e0 = events[0];
        assert(e0 != StartEventG::Clean(true));
        assert(start_next(StartStageG::CheckClean, e0) == StartStageG::Done);
        assert(start_emit(StartStageG::CheckClean, e0) == StartAction::Report);
        lemma_start_done_only_reports(events.drop_first());
    }
}

/// Begin a Start run: trim and normalize the ticket key, reject one that
/// does not parse, and otherwise ask for the cleanliness check first.
pub fn start_begin(ticket: &str, base: &str) -> (r: (StartMachine, StartAction))
    ensures
        r.0.ticket@ == upper_seq(trim_spec(ticket@)),
        r.0.branch@ == upper_seq(trim_spec(ticket@)),
        r.0.base@ == base@,
        spec_valid_ticket_key(upper_seq(trim_spec(ticket@))) ==> (r.0.stage
            == StartStage::CheckClean && r.1 == StartAction::QueryClean),
        !spec_valid_ticket_key(upper_seq(trim_spec(ticket@))) ==> (
        r.0.stage matches StartStage::Done { outcome } && outcome == StartOutcome::InvalidTicket
            && r.1 == StartAction::Report),
{
    let trimmed = crate::text::trim_spaces(ticket);
    let key = crate::keys::normalize_ticket_key(trimmed);
    let branch = key.clone();
    let valid = crate::keys::validate_ticket_key(key.as_str());
    if valid {
        (
            StartMachine {
                ticket: key,
                branch,
                base: String::from_str(base),
                stage: StartStage::CheckClean,
            },
            StartAction::QueryClean,
        )
    } else {
        (
            StartMachine {
                ticket: key,
                branch,
                base: String::from_str(base),
                stage: StartStage::Done { outcome: StartOutcome::InvalidTicket },
            },
            StartAction::Report,
        )
    }
}

/// One step of the Start workflow: consume the answer to the pending action
/// and decide the next stage and action. The contract pins every decision;
/// the abstract-machine clauses tie the run to the trace laws.
pub fn start_step(m: StartMachine, event: StartEvent) -> (r: (StartMachine, StartAction))
    requires
        start_expects(start_stage_model(m.stage), start_event_model(event)),
    ensures
        r.0.ticket == m.ticket,
        r.0.branch == m.branch,
        r.0.base == m.base,
        start_stage_model(r.0.stage) == start_next(
            start_stage_model(m.stage),
            start_event_model(event),
        ),
        r.1 == start_emit(start_stage_model(m.stage), start_event_model(event)),
        m.stage is CheckClean ==> (event matches StartEvent::CleanChecked(false) ==> (
        r.0.stage matches StartStage::Done { outcome } && outcome
            == StartOutcome::UncommittedChanges)),
        m.stage is ConfirmSwitch ==> (event matches StartEvent::SwitchAnswered(false) ==> (
        r.0.stage matches StartStage::Done { outcome } && outcome
            == StartOutcome::SwitchDeclined)),
        m.stage is Switching ==> (event matches StartEvent::CheckedOut(Ok(())) ==> (
        r.0.stage matches StartStage::Done { outcome } && outcome
            == StartOutcome::SwitchedToExisting)),
        m.stage is Switching ==> (event matches StartEvent::CheckedOut(Err(e0)) ==> (
        r.0.stage matches StartStage::Done { outcome }
            && outcome matches StartOutcome::SwitchFailed(e1) && e1 == e0)),
        m.stage is Pulling ==> (event matches StartEvent::Pulled(Err(e0)) ==> (
        r.0.stage matches StartStage::Done { outcome }
            && outcome matches StartOutcome::PullFailed(e1) && e1 == e0)),
        m.stage is Creating ==> (event matches StartEvent::Created(Err(e0)) ==> (
        r.0.stage matches StartStage::Done { outcome }
            && outcome matches StartOutcome::CreateFailed(e1) && e1 == e0)),
        m.stage is FetchingIssue ==> (event matches StartEvent::IssueFetched(Ok(issue)) ==> (
        spec_status_matches(issue.fields.status.name@, "In Progress"@) ==> (
        r.0.stage matches StartStage::Done { outcome }
            && outcome matches StartOutcome::Completed { update } && update
            == TicketUpdate::AlreadyInTarget))),
        m.stage is FetchingIssue ==> (event matches StartEvent::IssueFetched(Err(e0)) ==> (
        r.0.stage matches StartStage::Done { outcome }
            && outcome matches StartOutcome::Completed { update }
            && update matches TicketUpdate::FetchFailed(e1) && e1 == e0)),
        m.stage is ConfirmUpdate ==> (event matches StartEvent::UpdateAnswered(false) ==> (
        r.0.stage matches StartStage::Done { outcome }
            && outcome matches StartOutcome::Completed { update } && update
            == TicketUpdate::Declined)),
        m.stage is FetchingTransitions ==> (event matches StartEvent::TransitionsFetched(
            Ok(ts),
        ) ==> ((spec_resolution("In Progress"@, ts@) matches Some(i) ==> (
        r.0.stage matches StartStage::Applying { transition_id } && transition_id@ == ts@[i].id@))
            && (spec_resolution("In Progress"@, ts@) is None ==> (
        r.0.stage matches StartStage::Done { outcome }
            && outcome matches StartOutcome::Completed { update }
            && update matches TicketUpdate::Unresolvable { available }
            && lists_destinations_exactly(available@, ts@))))),
        m.stage is FetchingTransitions ==> (event matches StartEvent::TransitionsFetched(
            Err(e0),
        ) ==> (r.0.stage matches StartStage::Done { outcome }
            && outcome matches StartOutcome::Completed { update }
            && update matches TicketUpdate::FetchFailed(e1) && e1 == e0)),
        m.stage is Applying ==> (event matches StartEvent::TransitionApplied(Ok(())) ==> (
        r.0.stage matches StartStage::Done { outcome }
            && outcome matches StartOutcome::Completed { update } && update
            == TicketUpdate::Applied)),
        m.stage is Applying ==> (event matches StartEvent::TransitionApplied(Err(e0)) ==> (
        r.0.stage matches StartStage::Done { outcome }
            && outcome matches StartOutcome::Completed { update }
            && update matches TicketUpdate::ApplyFailed(e1) && e1 == e0)),
{
    let StartMachine { ticket, branch, base, stage } = m;
    match (stage, event) {
        (StartStage::CheckClean, StartEvent::CleanChecked(true)) => (
            StartMachine { ticket, branch, base, stage: StartStage::CheckBranch },
            StartAction::QueryBranchExists,
        ),
        (StartStage::CheckClean, StartEvent::CleanChecked(false)) => (
            StartMachine {
                ticket,
                branch,
                base,
                stage: StartStage::Done { outcome: StartOutcome::UncommittedChanges },
            },
            StartAction::Report,
        ),
        (StartStage::CheckBranch, StartEvent::BranchChecked(true)) => (
            StartMachine { ticket, branch, base, stage: StartStage::ConfirmSwitch },
            StartAction::PromptSwitch,
        ),
        (StartStage::CheckBranch, StartEvent::BranchChecked(false)) => (
            StartMachine { ticket, branch, base, stage: StartStage::Pulling },
            StartAction::PullBase,
        ),
        (StartStage::ConfirmSwitch, StartEvent::SwitchAnswered(true)) => (
            StartMachine { ticket, branch, base, stage: StartStage::Switching },
            StartAction::Checkout,
        ),
        (StartStage::ConfirmSwitch, StartEvent::SwitchAnswered(false)) => (
            StartMachine {
                ticket,
                branch,
                base,
                stage: StartStage::Done { outcome: StartOutcome::SwitchDeclined },
            },
            StartAction::Report,
        ),
        (StartStage::Switching, StartEvent::CheckedOut(res)) => {
            let outcome = match res {
                Ok(()) => StartOutcome::SwitchedToExisting,
                Err(e) => StartOutcome::SwitchFailed(e),
            };
            (
                StartMachine { ticket, branch, base, stage: StartStage::Done { outcome } },
                StartAction::Report,
            )
        },
        (StartStage::Pulling, StartEvent::Pulled(Ok(()))) => (
            StartMachine { ticket, branch, base, stage: StartStage::Creating },
            StartAction::CreateBranch,
        ),
        (StartStage::Pulling, StartEvent::Pulled(Err(e))) => (
            StartMachine {
                ticket,
                branch,
                base,
                stage: StartStage::Done { outcome: StartOutcome::PullFailed(e) },
            },
            StartAction::Report,
        ),
        (StartStage::Creating, StartEvent::Created(Ok(()))) => (
            StartMachine { ticket, branch, base, stage: StartStage::FetchingIssue },
            StartAction::FetchIssue,
        ),
        (StartStage::Creating, StartEvent::Created(Err(e))) => (
            StartMachine {
                ticket,
                branch,
                base,
                stage: StartStage::Done { outcome: StartOutcome::CreateFailed(e) },
            },
            StartAction::Report,
        ),
        (StartStage::FetchingIssue, StartEvent::IssueFetched(Ok(issue))) => {
            let already = status_matches_logical(issue.fields.status.name.as_str(), "In Progress");
            if already {
                (
                    StartMachine {
                        ticket,
                        branch,
                        base,
                        stage: StartStage::Done {
                            outcome: StartOutcome::Completed {
                                update: TicketUpdate::AlreadyInTarget,
                            },
                        },
                    },
                    StartAction::Report,
                )
            } else {
                (
                    StartMachine { ticket, branch, base, stage: StartStage::ConfirmUpdate },
                    StartAction::PromptUpdate,
                )
            }
        },
        (StartStage::FetchingIssue, StartEvent::IssueFetched(Err(e))) => (
            StartMachine {
                ticket,
                branch,
                base,
                stage: StartStage::Done {
                    outcome: StartOutcome::Completed { update: TicketUpdate::FetchFailed(e) },
                },
            },
            StartAction::Report,
        ),
        (StartStage::ConfirmUpdate, StartEvent::UpdateAnswered(true)) => (
            StartMachine { ticket, branch, base, stage: StartStage::FetchingTransitions },
            StartAction::FetchTransitions,
        ),
        (StartStage::ConfirmUpdate, StartEvent::UpdateAnswered(false)) => (
            StartMachine {
                ticket,
                branch,
                base,
                stage: StartStage::Done {
                    outcome: StartOutcome::Completed { update: TicketUpdate::Declined },
                },
            },
            StartAction::Report,
        ),
        (StartStage::FetchingTransitions, StartEvent::TransitionsFetched(Ok(ts))) => {
            match resolve_transition("In Progress", &ts) {
                TransitionResolution::Resolved { id } => (
                    StartMachine {
                        ticket,
                        branch,
                        base,
                        stage: StartStage::Applying { transition_id: id },
                    },
                    StartAction::ApplyTransition,
                ),
                TransitionResolution::NoMatch { available } => (
                    StartMachine {
                        ticket,
                        branch,
                        base,
                        stage: StartStage::Done {
                            outcome: StartOutcome::Completed {
                                update: TicketUpdate::Unresolvable { available },
                            },
                        },
                    },
                    StartAction::Report,
                ),
            }
        },
        (StartStage::FetchingTransitions, StartEvent::TransitionsFetched(Err(e))) => (
            StartMachine {
                ticket,
                branch,
                base,
                stage: StartStage::Done {
                    outcome: StartOutcome::Completed { update: TicketUpdate::FetchFailed(e) },
                },
            },
            StartAction::Report,
        ),
        (StartStage::Applying { .. }, StartEvent::TransitionApplied(Ok(()))) => (
            StartMachine {
                ticket,
                branch,
                base,
                stage: StartStage::Done {
                    outcome: StartOutcome::Completed { update: TicketUpdate::Applied },
                },
            },
            StartAction::Report,
        ),
        (StartStage::Applying { .. }, StartEvent::TransitionApplied(Err(e))) => (
            StartMachine {
                ticket,
                branch,
                base,
                stage: StartStage::Done {
                    outcome: StartOutcome::Completed { update: TicketUpdate::ApplyFailed(e) },
                },
            },
            StartAction::Report,
        ),
        (s, _) => {
            proof {
                assert(false);
            }
            (StartMachine { ticket, branch, base, stage: s }, StartAction::Report)
        },
    }
}

} // verus!
