//! The events of a workflow: as they are replayed from its rows and as they
//! are sent while it runs.

use vstd::prelude::*;
use vstd::string::*;

use crate::ids::Uuid;
use crate::protocol::WorkflowStreamEvent;
use crate::text::{after_prefix, begins_with, chars_of, clone_opt, has_prefix, opt_text};
use crate::workflow::nodes::{candidate_of_gate, gate_candidate};
use crate::workflow::resume::{final_verdict, last_verdict};
use crate::workflow::types::{is_invalid_state, ReviewVerdict, RoleKind};
use crate::workflow::types::{StoredStep, StoredWorkflow, WorkflowError, WorkflowRole};
use crate::workflow::types::{WorkflowStatus, WorkflowStepStatus};

verus! {

/// What an event tells, over texts.
pub enum EventView {
    WorkflowStarted { workflow_id: Uuid, preset: Seq<char>, goal: Seq<char> },
    StepStarted { workflow_id: Uuid, ordinal: usize, role: WorkflowRole, agent: Seq<char> },
    StepCompleted { workflow_id: Uuid, ordinal: usize, role: WorkflowRole },
    StepFailed { workflow_id: Uuid, ordinal: usize, role: WorkflowRole, error: Seq<char> },
    StepCancelled { workflow_id: Uuid, ordinal: usize, role: WorkflowRole },
    StepSkipped { workflow_id: Uuid, ordinal: usize, role: WorkflowRole },
    NodeReady { workflow_id: Uuid, node: Seq<char>, role: WorkflowRole },
    NodeStarted { workflow_id: Uuid, node: Seq<char>, role: WorkflowRole, agent: Seq<char> },
    NodeCompleted { workflow_id: Uuid, node: Seq<char>, role: WorkflowRole },
    NodeFailed { workflow_id: Uuid, node: Seq<char>, role: WorkflowRole, error: Seq<char> },
    NodeSkipped { workflow_id: Uuid, node: Seq<char>, role: WorkflowRole },
    NodeCancelled { workflow_id: Uuid, node: Seq<char>, role: WorkflowRole },
    NodeInterrupted { workflow_id: Uuid, node: Seq<char>, role: WorkflowRole },
    AgentMessage { workflow_id: Uuid, agent: Seq<char>, message: Seq<char> },
    WorkflowCompleted { workflow_id: Uuid, verdict: Option<ReviewVerdict> },
    WorkflowFailed { workflow_id: Uuid, error: Option<Seq<char>> },
    WorkflowCancelled { workflow_id: Uuid },
    WorkflowInterrupted { workflow_id: Uuid, reason: Seq<char> },
    RecoveryStarted { workflow_id: Uuid, recovery_id: Uuid, attempt: usize },
    RecoveryCompleted { workflow_id: Uuid, recovery_id: Uuid },
    RecoveryFailed { workflow_id: Uuid, recovery_id: Uuid, error: Option<Seq<char>> },
    EvaluationSnapshotChanged { workflow_id: Uuid, node: Seq<char> },
    CandidateStarted { workflow_id: Uuid, candidate: Seq<char>, agent: Seq<char> },
    CandidateCompleted { workflow_id: Uuid, candidate: Seq<char>, hash: Option<Seq<char>> },
    CandidateFailed { workflow_id: Uuid, candidate: Seq<char>, error: Seq<char> },
    CandidateSnapshotChanged { workflow_id: Uuid, candidate: Seq<char> },
    CandidateConsensusReady { workflow_id: Uuid, candidate: Seq<char>, outcome: Seq<char> },
    WinnerSelected { workflow_id: Uuid, candidate: Seq<char>, agent: Seq<char> },
    NoAcceptableCandidate { workflow_id: Uuid },
    RecoveryPlanningStarted { workflow_id: Uuid, failed: Seq<char> },
    RecoveryProposalReady { workflow_id: Uuid, recovery_id: Uuid, attempt: usize },
    RecoveryLimitReached { workflow_id: Uuid },
}

/// What an event tells, over texts.
pub open spec fn event_view(e: WorkflowStreamEvent) -> EventView {
    match e {
        WorkflowStreamEvent::WorkflowStarted { workflow_id, preset, goal } => {
            EventView::WorkflowStarted { workflow_id, preset: preset@, goal: goal@ }
        },
        WorkflowStreamEvent::StepStarted { workflow_id, ordinal, role, agent_id } => {
            EventView::StepStarted { workflow_id, ordinal, role, agent: agent_id@ }
        },
        WorkflowStreamEvent::StepCompleted { workflow_id, ordinal, role } => {
            EventView::StepCompleted { workflow_id, ordinal, role }
        },
        WorkflowStreamEvent::StepFailed { workflow_id, ordinal, role, error } => {
            EventView::StepFailed { workflow_id, ordinal, role, error: error@ }
        },
        WorkflowStreamEvent::StepCancelled { workflow_id, ordinal, role } => {
            EventView::StepCancelled { workflow_id, ordinal, role }
        },
        WorkflowStreamEvent::StepSkipped { workflow_id, ordinal, role } => {
            EventView::StepSkipped { workflow_id, ordinal, role }
        },
        WorkflowStreamEvent::NodeReady { workflow_id, node_id, role } => {
            EventView::NodeReady { workflow_id, node: node_id@, role }
        },
        WorkflowStreamEvent::NodeStarted { workflow_id, node_id, role, agent_id } => {
            EventView::NodeStarted { workflow_id, node: node_id@, role, agent: agent_id@ }
        },
        WorkflowStreamEvent::NodeCompleted { workflow_id, node_id, role } => {
            EventView::NodeCompleted { workflow_id, node: node_id@, role }
        },
        WorkflowStreamEvent::NodeFailed { workflow_id, node_id, role, error } => {
            EventView::NodeFailed { workflow_id, node: node_id@, role, error: error@ }
        },
        WorkflowStreamEvent::NodeSkipped { workflow_id, node_id, role } => {
            EventView::NodeSkipped { workflow_id, node: node_id@, role }
        },
        WorkflowStreamEvent::NodeCancelled { workflow_id, node_id, role } => {
            EventView::NodeCancelled { workflow_id, node: node_id@, role }
        },
        WorkflowStreamEvent::NodeInterrupted { workflow_id, node_id, role } => {
            EventView::NodeInterrupted { workflow_id, node: node_id@, role }
        },
        WorkflowStreamEvent::AgentMessage { workflow_id, agent_id, message } => {
            EventView::AgentMessage { workflow_id, agent: agent_id@, message: message@ }
        },
        WorkflowStreamEvent::WorkflowCompleted { workflow_id, final_review_verdict } => {
            EventView::WorkflowCompleted { workflow_id, verdict: final_review_verdict }
        },
        WorkflowStreamEvent::WorkflowFailed { workflow_id, error } => {
            EventView::WorkflowFailed { workflow_id, error: opt_text(error) }
        },
        WorkflowStreamEvent::WorkflowCancelled { workflow_id } => {
            EventView::WorkflowCancelled { workflow_id }
        },
        WorkflowStreamEvent::WorkflowInterrupted { workflow_id, reason } => {
            EventView::WorkflowInterrupted { workflow_id, reason: reason@ }
        },
        WorkflowStreamEvent::RecoveryPlanningStarted { workflow_id, failed_node_id } => {
            EventView::RecoveryPlanningStarted { workflow_id, failed: failed_node_id@ }
        },
        WorkflowStreamEvent::RecoveryProposalReady { workflow_id, recovery_id, attempt } => {
            EventView::RecoveryProposalReady { workflow_id, recovery_id, attempt }
        },
        WorkflowStreamEvent::RecoveryStarted { workflow_id, recovery_workflow_id, attempt } => {
            EventView::RecoveryStarted { workflow_id, recovery_id: recovery_workflow_id, attempt }
        },
        WorkflowStreamEvent::RecoveryCompleted { workflow_id, recovery_workflow_id } => {
            EventView::RecoveryCompleted { workflow_id, recovery_id: recovery_workflow_id }
        },
        WorkflowStreamEvent::RecoveryFailed { workflow_id, recovery_workflow_id, error } => {
            EventView::RecoveryFailed {
                workflow_id,
                recovery_id: recovery_workflow_id,
                error: opt_text(error),
            }
        },
        WorkflowStreamEvent::RecoveryLimitReached { workflow_id } => {
            EventView::RecoveryLimitReached { workflow_id }
        },
        WorkflowStreamEvent::EvaluationSnapshotChanged { workflow_id, node_id } => {
            EventView::EvaluationSnapshotChanged { workflow_id, node: node_id@ }
        },
        WorkflowStreamEvent::CandidateStarted { workflow_id, candidate_id, agent_id } => {
            EventView::CandidateStarted {
                workflow_id,
                candidate: candidate_id@,
                agent: agent_id@,
            }
        },
        WorkflowStreamEvent::CandidateCompleted { workflow_id, candidate_id, snapshot_hash } => {
            EventView::CandidateCompleted {
                workflow_id,
                candidate: candidate_id@,
                hash: opt_text(snapshot_hash),
            }
        },
        WorkflowStreamEvent::CandidateFailed { workflow_id, candidate_id, error } => {
            EventView::CandidateFailed { workflow_id, candidate: candidate_id@, error: error@ }
        },
        WorkflowStreamEvent::CandidateSnapshotChanged { workflow_id, candidate_id } => {
            EventView::CandidateSnapshotChanged { workflow_id, candidate: candidate_id@ }
        },
        WorkflowStreamEvent::CandidateConsensusReady { workflow_id, candidate_id, outcome } => {
            EventView::CandidateConsensusReady {
                workflow_id,
                candidate: candidate_id@,
                outcome: outcome@,
            }
        },
        WorkflowStreamEvent::WinnerSelected { workflow_id, candidate_id, agent_id } => {
            EventView::WinnerSelected {
                workflow_id,
                candidate: candidate_id@,
                agent: agent_id@,
            }
        },
        WorkflowStreamEvent::NoAcceptableCandidate { workflow_id } => {
            EventView::NoAcceptableCandidate { workflow_id }
        },
    }
}

/// What a list of events tells.
pub open spec fn event_views(list: Seq<WorkflowStreamEvent>) -> Seq<EventView> {
    list.map_values(|e: WorkflowStreamEvent| event_view(e))
}

fn push_event(events: &mut Vec<WorkflowStreamEvent>, event: WorkflowStreamEvent)
    ensures
        event_views(final(events)@) == event_views(old(events)@).push(event_view(event)),
{
    assert(event_views(events@.push(event)) =~= event_views(events@).push(event_view(event)));
    events.push(event);
}

/// An error text, or a default one.
pub open spec fn error_or(error: Option<String>, default: Seq<char>) -> Seq<char> {
    match error {
        Some(e) => e@,
        None => default,
    }
}

/// An error text, or a default one.
pub fn error_text(error: &Option<String>, default: &str) -> (r: String)
    ensures
        r@ == error_or(*error, default@),
{
    match error {
        Some(e) => e.clone(),
        None => default.to_owned(),
    }
}

/// The event of a node in a status; a pending node has none, a running one
/// only when its agent is known.
pub open spec fn node_event(
    workflow_id: Uuid,
    node: Seq<char>,
    role: WorkflowRole,
    status: WorkflowStepStatus,
    agent: Option<String>,
    error: Option<String>,
) -> Option<EventView> {
    match status {
        WorkflowStepStatus::Completed => Some(
            EventView::NodeCompleted { workflow_id, node, role },
        ),
        WorkflowStepStatus::Failed => Some(
            EventView::NodeFailed { workflow_id, node, role, error: error_or(error, "node failed"@) },
        ),
        WorkflowStepStatus::Cancelled => Some(
            EventView::NodeCancelled { workflow_id, node, role },
        ),
        WorkflowStepStatus::Skipped => Some(EventView::NodeSkipped { workflow_id, node, role }),
        WorkflowStepStatus::Running => match agent {
            Some(a) => Some(EventView::NodeStarted { workflow_id, node, role, agent: a@ }),
            None => None,
        },
        WorkflowStepStatus::Interrupted => Some(
            EventView::NodeInterrupted { workflow_id, node, role },
        ),
        WorkflowStepStatus::Pending => None,
    }
}

/// The event of a sequential step in a status.
pub open spec fn step_event(
    workflow_id: Uuid,
    ordinal: usize,
    role: WorkflowRole,
    status: WorkflowStepStatus,
    agent: Option<String>,
    error: Option<String>,
) -> Option<EventView> {
    match status {
        WorkflowStepStatus::Completed => Some(
            EventView::StepCompleted { workflow_id, ordinal, role },
        ),
        WorkflowStepStatus::Failed => Some(
            EventView::StepFailed {
                workflow_id,
                ordinal,
                role,
                error: error_or(error, "step failed"@),
            },
        ),
        WorkflowStepStatus::Cancelled => Some(
            EventView::StepCancelled { workflow_id, ordinal, role },
        ),
        WorkflowStepStatus::Skipped => Some(EventView::StepSkipped { workflow_id, ordinal, role }),
        WorkflowStepStatus::Running => match agent {
            Some(a) => Some(EventView::StepStarted { workflow_id, ordinal, role, agent: a@ }),
            None => None,
        },
        WorkflowStepStatus::Interrupted => None,
        WorkflowStepStatus::Pending => None,
    }
}

/// The event that a row replays to.
pub open spec fn row_event(workflow_id: Uuid, row: StoredStep) -> Option<EventView> {
    match row.node_id {
        Some(node) => node_event(
            workflow_id,
            node@,
            row.role.value->0,
            row.status.value->0,
            row.agent_id,
            row.error,
        ),
        None => step_event(
            workflow_id,
            row.ordinal as usize,
            row.role.value->0,
            row.status.value->0,
            row.agent_id,
            row.error,
        ),
    }
}

/// What keeps a row from being replayed.
pub open spec fn replay_fault(row: StoredStep) -> Option<Seq<char>> {
    if row.role.value is None {
        Some("unknown role "@ + row.role.text@)
    } else if row.status.value is None {
        Some("unknown step status "@ + row.status.text@)
    } else {
        None
    }
}

/// Why the first row that cannot be replayed cannot be.
pub open spec fn first_replay_fault(rows: Seq<StoredStep>) -> Option<Seq<char>>
    decreases rows.len(),
{
    if rows.len() == 0 {
        None
    } else {
        match first_replay_fault(rows.drop_last()) {
            Some(fault) => Some(fault),
            None => replay_fault(rows.last()),
        }
    }
}

/// The events that the rows replay to, in order.
pub open spec fn rows_events(workflow_id: Uuid, rows: Seq<StoredStep>) -> Seq<EventView>
    decreases rows.len(),
{
    if rows.len() == 0 {
        Seq::empty()
    } else {
        match row_event(workflow_id, rows.last()) {
            Some(event) => rows_events(workflow_id, rows.drop_last()).push(event),
            None => rows_events(workflow_id, rows.drop_last()),
        }
    }
}

/// The event that ends a workflow in a status; a workflow that still runs has
/// none.
pub open spec fn end_event(
    workflow_id: Uuid,
    status: WorkflowStatus,
    error: Option<String>,
    verdict: Option<ReviewVerdict>,
) -> Seq<EventView> {
    match status {
        WorkflowStatus::Completed => seq![EventView::WorkflowCompleted { workflow_id, verdict }],
        WorkflowStatus::Failed => seq![
            EventView::WorkflowFailed { workflow_id, error: opt_text(error) },
        ],
        WorkflowStatus::Cancelled => seq![EventView::WorkflowCancelled { workflow_id }],
        WorkflowStatus::Interrupted => seq![
            EventView::WorkflowInterrupted { workflow_id, reason: error_or(error, Seq::empty()) },
        ],
        WorkflowStatus::Pending => Seq::empty(),
        WorkflowStatus::Running => Seq::empty(),
    }
}

/// The events of a workflow, replayed from its rows.
pub open spec fn replayed(row: StoredWorkflow, rows: Seq<StoredStep>) -> Seq<EventView> {
    seq![
        EventView::WorkflowStarted { workflow_id: row.id, preset: row.preset@, goal: row.goal@ },
    ] + rows_events(row.id, rows) + end_event(
        row.id,
        row.status.value->0,
        row.error,
        last_verdict(rows),
    )
}

/// The event of a node in a status.
pub fn make_node_event(
    workflow_id: Uuid,
    node_id: &String,
    role: &WorkflowRole,
    status: WorkflowStepStatus,
    agent_id: &Option<String>,
    error: &Option<String>,
) -> (r: Option<WorkflowStreamEvent>)
    ensures
        match r {
            Some(e) => Some(event_view(e)) == node_event(
                workflow_id,
                node_id@,
                *role,
                status,
                *agent_id,
                *error,
            ),
            None => node_event(workflow_id, node_id@, *role, status, *agent_id, *error) is None,
        },
{
    match status {
        WorkflowStepStatus::Completed => Some(
            WorkflowStreamEvent::NodeCompleted {
                workflow_id,
                node_id: node_id.clone(),
                role: role.clone(),
            },
        ),
        WorkflowStepStatus::Failed => Some(
            WorkflowStreamEvent::NodeFailed {
                workflow_id,
                node_id: node_id.clone(),
                role: role.clone(),
                error: error_text(error, "node failed"),
            },
        ),
        WorkflowStepStatus::Cancelled => Some(
            WorkflowStreamEvent::NodeCancelled {
                workflow_id,
                node_id: node_id.clone(),
                role: role.clone(),
            },
        ),
        WorkflowStepStatus::Skipped => Some(
            WorkflowStreamEvent::NodeSkipped {
                workflow_id,
                node_id: node_id.clone(),
                role: role.clone(),
            },
        ),
        WorkflowStepStatus::Running => match agent_id {
            Some(agent_id) => Some(
                WorkflowStreamEvent::NodeStarted {
                    workflow_id,
                    node_id: node_id.clone(),
                    role: role.clone(),
                    agent_id: agent_id.clone(),
                },
            ),
            None => None,
        },
        WorkflowStepStatus::Interrupted => Some(
            WorkflowStreamEvent::NodeInterrupted {
                workflow_id,
                node_id: node_id.clone(),
                role: role.clone(),
            },
        ),
        WorkflowStepStatus::Pending => None,
    }
}

/// The event of a sequential step in a status.
pub fn make_step_event(
    workflow_id: Uuid,
    ordinal: usize,
    role: &WorkflowRole,
    status: WorkflowStepStatus,
    agent_id: &Option<String>,
    error: &Option<String>,
) -> (r: Option<WorkflowStreamEvent>)
    ensures
        match r {
            Some(e) => Some(event_view(e)) == step_event(
                workflow_id,
                ordinal,
                *role,
                status,
                *agent_id,
                *error,
            ),
            None => step_event(workflow_id, ordinal, *role, status, *agent_id, *error) is None,
        },
{
    match status {
        WorkflowStepStatus::Completed => Some(
            WorkflowStreamEvent::StepCompleted { workflow_id, ordinal, role: role.clone() },
        ),
        WorkflowStepStatus::Failed => Some(
            WorkflowStreamEvent::StepFailed {
                workflow_id,
                ordinal,
                role: role.clone(),
                error: error_text(error, "step failed"),
            },
        ),
        WorkflowStepStatus::Cancelled => Some(
            WorkflowStreamEvent::StepCancelled { workflow_id, ordinal, role: role.clone() },
        ),
        WorkflowStepStatus::Skipped => Some(
            WorkflowStreamEvent::StepSkipped { workflow_id, ordinal, role: role.clone() },
        ),
        WorkflowStepStatus::Running => match agent_id {
            Some(agent_id) => Some(
                WorkflowStreamEvent::StepStarted {
                    workflow_id,
                    ordinal,
                    role: role.clone(),
                    agent_id: agent_id.clone(),
                },
            ),
            None => None,
        },
        WorkflowStepStatus::Interrupted | WorkflowStepStatus::Pending => None,
    }
}

/// The event that ends a workflow in a status.
pub fn make_end_event(
    workflow_id: Uuid,
    status: WorkflowStatus,
    error: &Option<String>,
    verdict: Option<ReviewVerdict>,
) -> (r: Option<WorkflowStreamEvent>)
    ensures
        match r {
            Some(e) => seq![event_view(e)] == end_event(workflow_id, status, *error, verdict),
            None => end_event(workflow_id, status, *error, verdict) == Seq::<EventView>::empty(),
        },
{
    match status {
        WorkflowStatus::Completed => Some(
            WorkflowStreamEvent::WorkflowCompleted { workflow_id, final_review_verdict: verdict },
        ),
        WorkflowStatus::Failed => Some(
            WorkflowStreamEvent::WorkflowFailed { workflow_id, error: clone_opt(error) },
        ),
        WorkflowStatus::Cancelled => Some(WorkflowStreamEvent::WorkflowCancelled { workflow_id }),
        WorkflowStatus::Interrupted => Some(
            WorkflowStreamEvent::WorkflowInterrupted {
                workflow_id,
                reason: match error {
                    Some(e) => e.clone(),
                    None => String::new(),
                },
            },
        ),
        WorkflowStatus::Pending | WorkflowStatus::Running => None,
    }
}

proof fn replay_fault_stays(rows: Seq<StoredStep>, n: int)
    requires
        0 <= n <= rows.len(),
        first_replay_fault(rows.take(n)) is Some,
    ensures
        first_replay_fault(rows) == first_replay_fault(rows.take(n)),
    decreases rows.len() - n,
{
    if n < rows.len() {
        assert(rows.take(n + 1).drop_last() =~= rows.take(n));
        replay_fault_stays(rows, n + 1);
    } else {
        assert(rows.take(n) =~= rows);
    }
}

/// The event replay for attach, reconstructed from the persisted state: the
/// start, an event per row that has one, and the end.
pub fn replay(row: &StoredWorkflow, rows: &[StoredStep]) -> (r: Result<
    Vec<WorkflowStreamEvent>,
    WorkflowError,
>)
    ensures
        match row.status.value {
            None => is_invalid_state(r, "unknown status "@ + row.status.text@),
            Some(_) => match first_replay_fault(rows@) {
                Some(reason) => is_invalid_state(r, reason),
                None => r matches Ok(events) && event_views(events@) == replayed(*row, rows@),
            },
        },
{
    let status = match row.status.value {
        Some(status) => status,
        None => {
            return Err(
                WorkflowError::InvalidState(
                    "unknown status ".to_owned().concat(row.status.text.as_str()),
                ),
            );
        },
    };
    let workflow_id = row.id;
    let mut events: Vec<WorkflowStreamEvent> = Vec::new();
    assert(event_views(events@) =~= Seq::<EventView>::empty());
    push_event(
        &mut events,
        WorkflowStreamEvent::WorkflowStarted {
            workflow_id,
            preset: row.preset.clone(),
            goal: row.goal.clone(),
        },
    );
    let ghost start = event_views(events@);
    let mut i: usize = 0;
    assert(start + rows_events(workflow_id, rows@.take(0)) =~= start);
    while i < rows.len()
        invariant
            i <= rows@.len(),
            row.status.value is Some,
            first_replay_fault(rows@.take(i as int)) is None,
            event_views(events@) == start + rows_events(workflow_id, rows@.take(i as int)),
        decreases rows.len() - i,
    {
        let step = &rows[i];
        proof {
            assert(rows@.take(i + 1).drop_last() =~= rows@.take(i as int));
            assert(rows@.take(i + 1).last() == *step);
        }
        let role = match &step.role.value {
            Some(role) => role,
            None => {
                proof {
                    replay_fault_stays(rows@, i + 1);
                }
                return Err(
                    WorkflowError::InvalidState(
                        "unknown role ".to_owned().concat(step.role.text.as_str()),
                    ),
                );
            },
        };
        let step_status = match step.status.value {
            Some(status) => status,
            None => {
                proof {
                    replay_fault_stays(rows@, i + 1);
                }
                return Err(
                    WorkflowError::InvalidState(
                        "unknown step status ".to_owned().concat(step.status.text.as_str()),
                    ),
                );
            },
        };
        let event = match &step.node_id {
            Some(node_id) => make_node_event(
                workflow_id,
                node_id,
                role,
                step_status,
                &step.agent_id,
                &step.error,
            ),
            None => make_step_event(
                workflow_id,
                step.ordinal as usize,
                role,
                step_status,
                &step.agent_id,
                &step.error,
            ),
        };
        let ghost before = event_views(events@);
        if let Some(event) = event {
            push_event(&mut events, event);
        }
        assert(event_views(events@) =~= start + rows_events(workflow_id, rows@.take(i + 1)));
        i += 1;
    }
    assert(rows@.take(i as int) =~= rows@);
    let verdict = final_verdict(rows);
    if let Some(event) = make_end_event(workflow_id, status, &row.error, verdict) {
        push_event(&mut events, event);
    }
    assert(event_views(events@) =~= replayed(*row, rows@));
    Ok(events)
}

/// A replay starts with the start of the workflow, and a workflow that is
/// over ends with its end.
pub proof fn replay_starts_and_ends(row: StoredWorkflow, rows: Seq<StoredStep>)
    requires
        row.status.value is Some,
    ensures
        replayed(row, rows).len() > 0,
        replayed(row, rows)[0] is WorkflowStarted,
        row.status.value == Some(WorkflowStatus::Completed) ==> replayed(row, rows).last()
            is WorkflowCompleted,
        row.status.value == Some(WorkflowStatus::Failed) ==> replayed(row, rows).last()
            is WorkflowFailed,
        row.status.value == Some(WorkflowStatus::Cancelled) ==> replayed(row, rows).last()
            is WorkflowCancelled,
        row.status.value == Some(WorkflowStatus::Interrupted) ==> replayed(row, rows).last()
            is WorkflowInterrupted,
{
}

/// What the live run of a step or node tells at its end.
pub struct StepOutcomeView {
    pub status: WorkflowStepStatus,
    pub agent_id: Option<String>,
    pub error: Option<String>,
    /// The reason a gate gave for its decision.
    pub reason: Option<String>,
    /// The verdict of the review, where one was made.
    pub verdict: Option<ReviewVerdict>,
    /// The stable text of the status.
    pub status_text: String,
}

/// The event that ends a sequential step; a step that is not over has none.
pub fn on_step_complete(
    workflow_id: Uuid,
    ordinal: usize,
    role: &WorkflowRole,
    result: &StepOutcomeView,
) -> (r: Option<WorkflowStreamEvent>)
    ensures
        match r {
            Some(e) => result.status != WorkflowStepStatus::Running && Some(event_view(e))
                == step_event(workflow_id, ordinal, *role, result.status, None, result.error),
            None => result.status == WorkflowStepStatus::Running || step_event(
                workflow_id,
                ordinal,
                *role,
                result.status,
                None,
                result.error,
            ) is None,
        },
{
    if result.status == WorkflowStepStatus::Running {
        return None;
    }
    make_step_event(workflow_id, ordinal, role, result.status, &None, &result.error)
}

/// The events when a node starts: that of a candidate comes first.
pub open spec fn started_events(
    workflow_id: Uuid,
    node: Seq<char>,
    role: WorkflowRole,
    agent: Seq<char>,
) -> Seq<EventView> {
    let started = EventView::NodeStarted { workflow_id, node, role, agent };
    if role.kind == RoleKind::Candidate {
        seq![EventView::CandidateStarted { workflow_id, candidate: node, agent }, started]
    } else {
        seq![started]
    }
}

/// The events when a node starts.
pub fn on_node_started(workflow_id: Uuid, node_id: &str, role: &WorkflowRole, agent_id: &str) -> (r:
    Vec<WorkflowStreamEvent>)
    ensures
        event_views(r@) == started_events(workflow_id, node_id@, *role, agent_id@),
{
    let mut events: Vec<WorkflowStreamEvent> = Vec::new();
    assert(event_views(events@) =~= Seq::<EventView>::empty());
    if role.kind == RoleKind::Candidate {
        push_event(
            &mut events,
            WorkflowStreamEvent::CandidateStarted {
                workflow_id,
                candidate_id: node_id.to_owned(),
                agent_id: agent_id.to_owned(),
            },
        );
    }
    push_event(
        &mut events,
        WorkflowStreamEvent::NodeStarted {
            workflow_id,
            node_id: node_id.to_owned(),
            role: role.clone(),
            agent_id: agent_id.to_owned(),
        },
    );
    assert(event_views(events@) =~= started_events(workflow_id, node_id@, *role, agent_id@));
    events
}

/// The winner that a selection reason names: the text after `winner `, else
/// the first candidate.
pub open spec fn named_winner(reason: Option<String>) -> Seq<char> {
    match reason {
        Some(text) => if begins_with(text@, "winner "@) {
            text@.skip("winner "@.len() as int)
        } else {
            "candidate_1"@
        },
        None => "candidate_1"@,
    }
}

/// The winner that a selection reason names.
pub fn winner_of(reason: &Option<String>) -> (r: String)
    ensures
        r@ == named_winner(*reason),
{
    match reason {
        Some(text) => match after_prefix(text.as_str(), "winner ") {
            Some(rest) => rest,
            None => "candidate_1".to_owned(),
        },
        None => "candidate_1".to_owned(),
    }
}

/// The competition event of a node that is over, where it has one.
pub open spec fn competition_event(
    workflow_id: Uuid,
    node: Seq<char>,
    role: WorkflowRole,
    result: StepOutcomeView,
) -> Option<EventView> {
    if role.kind == RoleKind::Candidate {
        if result.status == WorkflowStepStatus::Completed {
            Some(EventView::CandidateCompleted { workflow_id, candidate: node, hash: None })
        } else if result.status == WorkflowStepStatus::Failed {
            Some(
                EventView::CandidateFailed {
                    workflow_id,
                    candidate: node,
                    error: error_or(result.error, "candidate failed"@),
                },
            )
        } else {
            None
        }
    } else if role.kind == RoleKind::ConsensusGate && begins_with(node, "consensus_c"@) {
        Some(
            EventView::CandidateConsensusReady {
                workflow_id,
                candidate: gate_candidate(node),
                outcome: match result.verdict {
                    Some(v) => v.key@,
                    None => result.status_text@,
                },
            },
        )
    } else if role.kind == RoleKind::SelectionGate {
        if result.status == WorkflowStepStatus::Completed {
            Some(
                EventView::WinnerSelected {
                    workflow_id,
                    candidate: named_winner(result.reason),
                    agent: error_or(result.agent_id, Seq::empty()),
                },
            )
        } else if result.status == WorkflowStepStatus::Failed {
            Some(EventView::NoAcceptableCandidate { workflow_id })
        } else {
            None
        }
    } else {
        None
    }
}

/// The events when a node is over: the competition event first.
pub open spec fn finished_events(
    workflow_id: Uuid,
    node: Seq<char>,
    role: WorkflowRole,
    result: StepOutcomeView,
) -> Seq<EventView> {
    (match competition_event(workflow_id, node, role, result) {
        Some(e) => seq![e],
        None => Seq::empty(),
    }) + (if result.status == WorkflowStepStatus::Running {
        Seq::empty()
    } else {
        match node_event(workflow_id, node, role, result.status, None, result.error) {
            Some(e) => seq![e],
            None => Seq::empty(),
        }
    })
}

fn make_competition_event(
    workflow_id: Uuid,
    node_id: &String,
    role: &WorkflowRole,
    result: &StepOutcomeView,
) -> (r: Option<WorkflowStreamEvent>)
    ensures
        match r {
            Some(e) => Some(event_view(e)) == competition_event(
                workflow_id,
                node_id@,
                *role,
                *result,
            ),
            None => competition_event(workflow_id, node_id@, *role, *result) is None,
        },
{
    if role.kind == RoleKind::Candidate {
        if result.status == WorkflowStepStatus::Completed {
            Some(
                WorkflowStreamEvent::CandidateCompleted {
                    workflow_id,
                    candidate_id: node_id.clone(),
                    snapshot_hash: None,
                },
            )
        } else if result.status == WorkflowStepStatus::Failed {
            Some(
                WorkflowStreamEvent::CandidateFailed {
                    workflow_id,
                    candidate_id: node_id.clone(),
                    error: error_text(&result.error, "candidate failed"),
                },
            )
        } else {
            None
        }
    } else if role.kind == RoleKind::ConsensusGate && has_prefix(
        chars_of(node_id.as_str()).as_slice(),
        "consensus_c",
    ) {
        Some(
            WorkflowStreamEvent::CandidateConsensusReady {
                workflow_id,
                candidate_id: candidate_of_gate(node_id.as_str()),
                outcome: match &result.verdict {
                    Some(v) => v.key.clone(),
                    None => result.status_text.clone(),
                },
            },
        )
    } else if role.kind == RoleKind::SelectionGate {
        if result.status == WorkflowStepStatus::Completed {
            Some(
                WorkflowStreamEvent::WinnerSelected {
                    workflow_id,
                    candidate_id: winner_of(&result.reason),
                    agent_id: match &result.agent_id {
                        Some(agent) => agent.clone(),
                        None => String::new(),
                    },
                },
            )
        } else if result.status == WorkflowStepStatus::Failed {
            Some(WorkflowStreamEvent::NoAcceptableCandidate { workflow_id })
        } else {
            None
        }
    } else {
        None
    }
}

/// The events when a node is over.
pub fn on_node_complete(
    workflow_id: Uuid,
    node_id: &String,
    role: &WorkflowRole,
    result: &StepOutcomeView,
) -> (r: Vec<WorkflowStreamEvent>)
    ensures
        event_views(r@) == finished_events(workflow_id, node_id@, *role, *result),
{
    let mut events: Vec<WorkflowStreamEvent> = Vec::new();
    assert(event_views(events@) =~= Seq::<EventView>::empty());
    if let Some(event) = make_competition_event(workflow_id, node_id, role, result) {
        push_event(&mut events, event);
    }
    if result.status != WorkflowStepStatus::Running {
        if let Some(event) = make_node_event(
            workflow_id,
            node_id,
            role,
            result.status,
            &None,
            &result.error,
        ) {
            push_event(&mut events, event);
        }
    }
    assert(event_views(events@) =~= finished_events(workflow_id, node_id@, *role, *result));
    events
}

/// The event that ends a recovery workflow on its own stream; a workflow that
/// recovers none, or that did not complete or fail, has none.
pub fn recovery_terminal_event(
    workflow_id: Uuid,
    parent_workflow_id: Option<Uuid>,
    status: WorkflowStatus,
    error: Option<String>,
) -> (r: Option<WorkflowStreamEvent>)
    ensures
        match r {
            Some(e) => parent_workflow_id is Some && event_view(e) == (if status
                == WorkflowStatus::Completed {
                EventView::RecoveryCompleted { workflow_id, recovery_id: workflow_id }
            } else {
                EventView::RecoveryFailed {
                    workflow_id,
                    recovery_id: workflow_id,
                    error: opt_text(error),
                }
            }) && (status == WorkflowStatus::Completed || status == WorkflowStatus::Failed),
            None => parent_workflow_id is None || (status != WorkflowStatus::Completed && status
                != WorkflowStatus::Failed),
        },
        r is Some <==> parent_workflow_id is Some && (status == WorkflowStatus::Completed || status
            == WorkflowStatus::Failed),
        r matches Some(event) ==> (event is RecoveryCompleted <==> status
            == WorkflowStatus::Completed),
{
    if parent_workflow_id.is_none() {
        return None;
    }
    match status {
        WorkflowStatus::Completed => Some(
            WorkflowStreamEvent::RecoveryCompleted {
                workflow_id,
                recovery_workflow_id: workflow_id,
            },
        ),
        WorkflowStatus::Failed => Some(
            WorkflowStreamEvent::RecoveryFailed {
                workflow_id,
                recovery_workflow_id: workflow_id,
                error,
            },
        ),
        _ => None,
    }
}

/// An event tells what it is: the view of an event is of the event's own kind.
pub proof fn views_keep_the_kind(e: WorkflowStreamEvent)
    ensures
        event_view(e) is WorkflowStarted <==> e is WorkflowStarted,
        event_view(e) is StepStarted <==> e is StepStarted,
        event_view(e) is StepCompleted <==> e is StepCompleted,
        event_view(e) is StepFailed <==> e is StepFailed,
        event_view(e) is StepCancelled <==> e is StepCancelled,
        event_view(e) is StepSkipped <==> e is StepSkipped,
        event_view(e) is NodeReady <==> e is NodeReady,
        event_view(e) is NodeStarted <==> e is NodeStarted,
        event_view(e) is NodeCompleted <==> e is NodeCompleted,
        event_view(e) is NodeFailed <==> e is NodeFailed,
        event_view(e) is NodeSkipped <==> e is NodeSkipped,
        event_view(e) is NodeCancelled <==> e is NodeCancelled,
        event_view(e) is NodeInterrupted <==> e is NodeInterrupted,
        event_view(e) is AgentMessage <==> e is AgentMessage,
        event_view(e) is WorkflowCompleted <==> e is WorkflowCompleted,
        event_view(e) is WorkflowFailed <==> e is WorkflowFailed,
        event_view(e) is WorkflowCancelled <==> e is WorkflowCancelled,
        event_view(e) is WorkflowInterrupted <==> e is WorkflowInterrupted,
        event_view(e) is RecoveryStarted <==> e is RecoveryStarted,
        event_view(e) is RecoveryCompleted <==> e is RecoveryCompleted,
        event_view(e) is RecoveryFailed <==> e is RecoveryFailed,
        event_view(e) is EvaluationSnapshotChanged <==> e is EvaluationSnapshotChanged,
        event_view(e) is CandidateStarted <==> e is CandidateStarted,
        event_view(e) is CandidateCompleted <==> e is CandidateCompleted,
        event_view(e) is CandidateFailed <==> e is CandidateFailed,
        event_view(e) is CandidateSnapshotChanged <==> e is CandidateSnapshotChanged,
        event_view(e) is CandidateConsensusReady <==> e is CandidateConsensusReady,
        event_view(e) is WinnerSelected <==> e is WinnerSelected,
        event_view(e) is NoAcceptableCandidate <==> e is NoAcceptableCandidate,
        event_view(e) is RecoveryPlanningStarted <==> e is RecoveryPlanningStarted,
        event_view(e) is RecoveryProposalReady <==> e is RecoveryProposalReady,
        event_view(e) is RecoveryLimitReached <==> e is RecoveryLimitReached,
{
}

/// The event of a node tells its status: each kind of event comes from one
/// status, of the node itself, and a node that waits has none. A failed node
/// tells its error where it has one, a running one its agent.
pub proof fn node_event_tells_the_status(
    workflow_id: Uuid,
    node: Seq<char>,
    role: WorkflowRole,
    status: WorkflowStepStatus,
    agent: Option<String>,
    error: Option<String>,
)
    ensures
        ({
            let event = node_event(workflow_id, node, role, status, agent, error);
            &&& event == Some(EventView::NodeCompleted { workflow_id, node, role }) <==> status
                == WorkflowStepStatus::Completed
            &&& event == Some(EventView::NodeCancelled { workflow_id, node, role }) <==> status
                == WorkflowStepStatus::Cancelled
            &&& event == Some(EventView::NodeSkipped { workflow_id, node, role }) <==> status
                == WorkflowStepStatus::Skipped
            &&& event == Some(EventView::NodeInterrupted { workflow_id, node, role }) <==> status
                == WorkflowStepStatus::Interrupted
            &&& (event matches Some(EventView::NodeFailed { workflow_id: w, node: n, role: r, .. })
                && w == workflow_id && n == node && r == role) <==> status
                == WorkflowStepStatus::Failed
            &&& (event matches Some(EventView::NodeFailed { error: told, .. }) ==> (
            error matches Some(e) ==> told == e@))
            &&& (event matches Some(EventView::NodeStarted {
                workflow_id: w,
                node: n,
                role: r,
                agent: a,
            }) && w == workflow_id && n == node && r == role && agent is Some && agent->0@ == a)
                <==> status == WorkflowStepStatus::Running && agent is Some
            &&& event is None <==> status == WorkflowStepStatus::Pending || (status
                == WorkflowStepStatus::Running && agent is None)
        }),
{
}

/// The event of a sequential step tells its status, as that of a node does; a
/// step that was interrupted has none.
pub proof fn step_event_tells_the_status(
    workflow_id: Uuid,
    ordinal: usize,
    role: WorkflowRole,
    status: WorkflowStepStatus,
    agent: Option<String>,
    error: Option<String>,
)
    ensures
        ({
            let event = step_event(workflow_id, ordinal, role, status, agent, error);
            &&& event == Some(EventView::StepCompleted { workflow_id, ordinal, role }) <==> status
                == WorkflowStepStatus::Completed
            &&& event == Some(EventView::StepCancelled { workflow_id, ordinal, role }) <==> status
                == WorkflowStepStatus::Cancelled
            &&& event == Some(EventView::StepSkipped { workflow_id, ordinal, role }) <==> status
                == WorkflowStepStatus::Skipped
            &&& (event matches Some(EventView::StepFailed { workflow_id: w, ordinal: n, role: r, .. })
                && w == workflow_id && n == ordinal && r == role) <==> status
                == WorkflowStepStatus::Failed
            &&& (event matches Some(EventView::StepFailed { error: told, .. }) ==> (
            error matches Some(e) ==> told == e@))
            &&& (event matches Some(EventView::StepStarted {
                workflow_id: w,
                ordinal: n,
                role: r,
                agent: a,
            }) && w == workflow_id && n == ordinal && r == role && agent is Some && agent->0@ == a)
                <==> status == WorkflowStepStatus::Running && agent is Some
            &&& event is None <==> status == WorkflowStepStatus::Pending || status
                == WorkflowStepStatus::Interrupted || (status == WorkflowStepStatus::Running
                && agent is None)
        }),
{
}

/// A row replays under its own id: a node row to an event of that node, any
/// other to one of its step; a row that cannot be read replays to none, and the
/// first of these is what a replay fails for.
pub proof fn rows_replay_in_order(workflow_id: Uuid, rows: Seq<StoredStep>, row: StoredStep)
    ensures
        row.role.value is Some && row.status.value is Some <==> replay_fault(row) is None,
        rows_events(workflow_id, Seq::empty()).len() == 0,
        first_replay_fault(Seq::empty()) is None,
        first_replay_fault(rows) is Some ==> first_replay_fault(rows.push(row))
            == first_replay_fault(rows),
        first_replay_fault(rows) is None ==> first_replay_fault(rows.push(row)) == replay_fault(row),
        row_event(workflow_id, row) is None ==> rows_events(workflow_id, rows.push(row))
            == rows_events(workflow_id, rows),
        row_event(workflow_id, row) matches Some(event) ==> {
            let events = rows_events(workflow_id, rows.push(row));
            &&& events.len() == rows_events(workflow_id, rows).len() + 1
            &&& events.drop_last() == rows_events(workflow_id, rows)
            &&& events.last() == event
        },
        row.node_id matches Some(node) ==> row_event(workflow_id, row) == node_event(
            workflow_id,
            node@,
            row.role.value->0,
            row.status.value->0,
            row.agent_id,
            row.error,
        ),
        row.node_id is None ==> row_event(workflow_id, row) == step_event(
            workflow_id,
            row.ordinal as usize,
            row.role.value->0,
            row.status.value->0,
            row.agent_id,
            row.error,
        ),
{
    assert(rows.push(row).drop_last() =~= rows);
    if row_event(workflow_id, row) is Some {
        assert(rows_events(workflow_id, rows.push(row)).drop_last() =~= rows_events(
            workflow_id,
            rows,
        ));
    }
}

/// A workflow that is over tells how: once, with its verdict where it completed
/// and its error where it failed or was interrupted. One that still runs tells
/// no end.
pub proof fn end_event_tells_the_status(
    workflow_id: Uuid,
    status: WorkflowStatus,
    error: Option<String>,
    verdict: Option<ReviewVerdict>,
)
    ensures
        ({
            let end = end_event(workflow_id, status, error, verdict);
            &&& end.len() <= 1
            &&& end.len() == 0 <==> status == WorkflowStatus::Pending || status
                == WorkflowStatus::Running
            &&& end.contains(EventView::WorkflowCompleted { workflow_id, verdict }) <==> status
                == WorkflowStatus::Completed
            &&& end.contains(EventView::WorkflowFailed { workflow_id, error: opt_text(error) })
                <==> status == WorkflowStatus::Failed
            &&& end.contains(EventView::WorkflowCancelled { workflow_id }) <==> status
                == WorkflowStatus::Cancelled
            &&& (end.len() == 1 && end[0] is WorkflowInterrupted) <==> status
                == WorkflowStatus::Interrupted
            &&& status == WorkflowStatus::Interrupted ==> (
            end[0] matches EventView::WorkflowInterrupted { workflow_id: w, reason } && w
                == workflow_id && (error matches Some(e) ==> reason == e@) && (error is None
                ==> reason.len() == 0))
        }),
{
    let end = end_event(workflow_id, status, error, verdict);
    if end.len() > 0 {
        assert(end.contains(end[0]));
    }
}

/// A replay tells of the workflow's own start and of every row between the
/// start and the end.
pub proof fn replay_tells_every_row(row: StoredWorkflow, rows: Seq<StoredStep>)
    ensures
        ({
            let end = end_event(row.id, row.status.value->0, row.error, last_verdict(rows));
            let middle = rows_events(row.id, rows);
            let events = replayed(row, rows);
            &&& events.len() == 1 + middle.len() + end.len()
            &&& events[0] == EventView::WorkflowStarted {
                workflow_id: row.id,
                preset: row.preset@,
                goal: row.goal@,
            }
            &&& events.subrange(1, (1 + middle.len()) as int) == middle
            &&& events.skip((1 + middle.len()) as int) == end
        }),
{
    let end = end_event(row.id, row.status.value->0, row.error, last_verdict(rows));
    let middle = rows_events(row.id, rows);
    let events = replayed(row, rows);
    assert(events.subrange(1, (1 + middle.len()) as int) =~= middle);
    assert(events.skip((1 + middle.len()) as int) =~= end);
}

/// A node that starts is announced under its agent, and a candidate also as
/// one, before.
pub proof fn started_candidate_is_announced(
    workflow_id: Uuid,
    node: Seq<char>,
    role: WorkflowRole,
    agent: Seq<char>,
)
    ensures
        ({
            let events = started_events(workflow_id, node, role, agent);
            &&& events.last() == EventView::NodeStarted { workflow_id, node, role, agent }
            &&& events.len() == 2 <==> role.kind == RoleKind::Candidate
            &&& events.len() == 1 <==> role.kind != RoleKind::Candidate
            &&& role.kind == RoleKind::Candidate ==> events[0] == EventView::CandidateStarted {
                workflow_id,
                candidate: node,
                agent,
            }
        }),
{
}

/// What a competition tells of a node that is over: a candidate that it
/// completed or failed, a candidate's gate its verdict, a selection its winner,
/// or that there is none where it failed.
pub proof fn competition_tells_candidates_and_winner(
    workflow_id: Uuid,
    node: Seq<char>,
    role: WorkflowRole,
    result: StepOutcomeView,
)
    ensures
        ({
            let event = competition_event(workflow_id, node, role, result);
            let completed = result.status == WorkflowStepStatus::Completed;
            let failed = result.status == WorkflowStepStatus::Failed;
            &&& event == Some(
                EventView::CandidateCompleted { workflow_id, candidate: node, hash: None },
            ) <==> role.kind == RoleKind::Candidate && completed
            &&& (event matches Some(EventView::CandidateFailed { workflow_id: w, candidate, error })
                && w == workflow_id && candidate == node && (result.error matches Some(e) ==> error
                == e@)) <==> role.kind == RoleKind::Candidate && failed
            &&& (event is Some && event->0 is CandidateConsensusReady) <==> role.kind
                == RoleKind::ConsensusGate && begins_with(node, "consensus_c"@)
            &&& event matches Some(EventView::CandidateConsensusReady {
                workflow_id: w,
                candidate,
                outcome,
            }) ==> w == workflow_id && candidate == gate_candidate(node) && (
            result.verdict matches Some(v) ==> outcome == v.key@) && (result.verdict is None
                ==> outcome == result.status_text@)
            &&& (event is Some && event->0 is WinnerSelected) <==> role.kind
                == RoleKind::SelectionGate && completed
            &&& event matches Some(EventView::WinnerSelected { workflow_id: w, candidate, agent })
                ==> w == workflow_id && candidate == named_winner(result.reason) && (
            result.agent_id matches Some(a) ==> agent == a@)
            &&& event == Some(EventView::NoAcceptableCandidate { workflow_id }) <==> role.kind
                == RoleKind::SelectionGate && failed
        }),
{
}

/// A node that is over tells of the competition first, where there is something
/// to tell, and of itself last; one that still runs or waits tells nothing of
/// itself.
pub proof fn finished_node_tells_itself_last(
    workflow_id: Uuid,
    node: Seq<char>,
    role: WorkflowRole,
    result: StepOutcomeView,
)
    ensures
        ({
            let events = finished_events(workflow_id, node, role, result);
            let told = competition_event(workflow_id, node, role, result);
            let idle = result.status == WorkflowStepStatus::Running || result.status
                == WorkflowStepStatus::Pending;
            &&& told matches Some(event) ==> events.len() > 0 && events[0] == event
            &&& events.len() == (if told is Some {
                1int
            } else {
                0
            }) + (if idle {
                0int
            } else {
                1
            })
            &&& result.status == WorkflowStepStatus::Completed ==> events.last()
                == EventView::NodeCompleted { workflow_id, node, role }
            &&& result.status == WorkflowStepStatus::Cancelled ==> events.last()
                == EventView::NodeCancelled { workflow_id, node, role }
            &&& result.status == WorkflowStepStatus::Skipped ==> events.last()
                == EventView::NodeSkipped { workflow_id, node, role }
            &&& result.status == WorkflowStepStatus::Interrupted ==> events.last()
                == EventView::NodeInterrupted { workflow_id, node, role }
            &&& result.status == WorkflowStepStatus::Failed ==> events.last() is NodeFailed
        }),
{
}

/// The winner that is announced is the one that the selection names; the first
/// candidate where it names none.
pub proof fn announced_winner_is_the_named_one(reason: String, id: Seq<char>)
    ensures
        reason@ == "winner "@ + id ==> named_winner(Some(reason)) == id,
        !begins_with(reason@, "winner "@) ==> named_winner(Some(reason)) == "candidate_1"@,
        named_winner(None) == "candidate_1"@,
{
    let head = "winner "@;
    if reason@ == head + id {
        assert(reason@.subrange(0, head.len() as int) =~= head);
        assert(begins_with(reason@, head));
        assert(reason@.skip(head.len() as int) =~= id);
    }
}

/// The views of a list of events are those of its events, each at its place; an
/// error is told as it is, and a default only where there is none.
pub proof fn events_are_viewed_one_by_one(
    list: Seq<WorkflowStreamEvent>,
    i: int,
    error: String,
    default: Seq<char>,
)
    requires
        0 <= i < list.len(),
    ensures
        event_views(list).len() == list.len(),
        event_views(list)[i] == event_view(list[i]),
        error_or(Some(error), default) == error@,
        error_or(None, default) == default,
{
}

} // verus!
