//! What is told of workflows: listings, details, lineage, failure history and
//! the records of their end.

use vstd::prelude::*;
use vstd::string::*;

use crate::ids::{id_text, Uuid};
use crate::model::Artifact;
use crate::protocol::{EvaluationRoundInfo, LineageNode, WorkflowDetail, WorkflowInfo};
use crate::protocol::{WorkflowLineage, WorkflowStepInfo};
use crate::provenance::payloads::{WorkflowCancelledPayload, WorkflowCompletedPayload};
use crate::provenance::payloads::WorkflowFailedPayload;
use crate::text::{clone_opt, same_text};
use crate::workflow::events::{error_or, error_text};
use crate::workflow::graph::{fresh_row, step_row, RowStamp};
use crate::workflow::resume::{change_requests, final_verdict, last_verdict, review_rounds};
use crate::workflow::types::{is_invalid_state, ConsensusOutcome, PersistedStepResult};
use crate::workflow::types::StoredStep;
use crate::workflow::types::{StoredWorkflow, WorkflowError, WorkflowRole, WorkflowStatus};
use crate::workflow::types::{WorkflowStepRow, WorkflowStepStatus};

verus! {

/// The status under which a step of a live run is persisted: a step that was
/// running when the run was cancelled is cancelled.
pub open spec fn live_status(status: WorkflowStepStatus, cancelled: bool) -> WorkflowStepStatus {
    if status == WorkflowStepStatus::Running && cancelled {
        WorkflowStepStatus::Cancelled
    } else {
        status
    }
}

/// Whether a step in this status has started.
pub open spec fn has_started(status: WorkflowStepStatus) -> bool {
    status == WorkflowStepStatus::Running || has_ended(status)
}

/// Whether a step in this status has ended by itself or by cancellation.
pub open spec fn has_ended(status: WorkflowStepStatus) -> bool {
    status == WorkflowStepStatus::Completed || status == WorkflowStepStatus::Failed || status
        == WorkflowStepStatus::Cancelled
}

/// The row of a step of a live sequential run: its result, its review round
/// and the times that its status calls for. Nothing for a step that the run
/// does not have.
pub fn live_step_row(
    stamp: RowStamp,
    results: &[PersistedStepResult],
    cancelled: bool,
    result_json: Option<String>,
) -> (r: Option<WorkflowStepRow>)
    requires
        results@.len() <= i64::MAX,
    ensures
        r is Some <==> stamp.ordinal < results@.len(),
        r matches Some(row) ==> {
            let result = results@[stamp.ordinal as int];
            let status = live_status(result.status, cancelled);
            row == (WorkflowStepRow {
                review_round: change_requests(results@.take(stamp.ordinal as int)) as i64,
                started_at: if has_started(status) {
                    Some(stamp.now)
                } else {
                    None
                },
                completed_at: if has_ended(status) {
                    Some(stamp.now)
                } else {
                    None
                },
                ..fresh_row(
                    stamp,
                    None,
                    result.step.role,
                    result.step.intent,
                    result.step.objective,
                    status,
                    Some(&result),
                    result_json,
                    result.error,
                )
            })
        },
{
    let index = stamp.ordinal;
    if index >= results.len() {
        return None;
    }
    let now = stamp.now.clone();
    let result = &results[index];
    let status = if result.status == WorkflowStepStatus::Running && cancelled {
        WorkflowStepStatus::Cancelled
    } else {
        result.status
    };
    let rounds = review_rounds(results, index);
    let mut row = step_row(
        stamp,
        None,
        &result.step,
        status,
        Some(result),
        result_json,
        clone_opt(&result.error),
    );
    row.review_round = rounds as i64;
    let ended = matches!(
        status,
        WorkflowStepStatus::Completed | WorkflowStepStatus::Failed | WorkflowStepStatus::Cancelled
    );
    if ended || status == WorkflowStepStatus::Running {
        row.started_at = Some(now.clone());
    }
    if ended {
        row.completed_at = Some(now);
    }
    Some(row)
}

/// Whether this is the listing of a stored workflow.
pub open spec fn is_info_of(info: WorkflowInfo, row: StoredWorkflow) -> bool {
    &&& row.status.value == Some(info.status)
    &&& info.workflow_id == row.id
    &&& info.preset == row.preset
    &&& info.goal == row.goal
    &&& info.context_id == row.context_id
    &&& info.created_at == row.created_at
    &&& info.updated_at == row.updated_at
    &&& info.completed_at == row.completed_at
    &&& info.error == row.error
    &&& info.graph_revision == row.graph_revision
    &&& info.parent_workflow_id == row.parent_workflow_id
    &&& info.recovery_of_node_id == row.recovery_of_node_id
    &&& info.recovery_attempt == row.recovery_attempt
    &&& info.source_workspace == row.source_workspace
}

fn unknown_status(row: &StoredWorkflow) -> (e: WorkflowError)
    ensures
        e matches WorkflowError::InvalidState(text) && text@ == "unknown status "@
            + row.status.text@,
{
    WorkflowError::InvalidState("unknown status ".to_owned().concat(row.status.text.as_str()))
}

/// The listing of a stored workflow.
pub fn info_from_row(row: &StoredWorkflow) -> (r: Result<WorkflowInfo, WorkflowError>)
    ensures
        row.status.value is None ==> is_invalid_state(r, "unknown status "@ + row.status.text@),
        row.status.value is Some ==> (r matches Ok(info) && is_info_of(info, *row)),
{
    match row.status.value {
        None => Err(unknown_status(row)),
        Some(status) => Ok(
            WorkflowInfo {
                workflow_id: row.id,
                preset: row.preset.clone(),
                goal: row.goal.clone(),
                status,
                context_id: row.context_id,
                created_at: row.created_at.clone(),
                updated_at: row.updated_at.clone(),
                completed_at: clone_opt(&row.completed_at),
                error: clone_opt(&row.error),
                graph_revision: row.graph_revision,
                parent_workflow_id: row.parent_workflow_id,
                recovery_of_node_id: clone_opt(&row.recovery_of_node_id),
                recovery_attempt: row.recovery_attempt,
                source_workspace: clone_opt(&row.source_workspace),
            },
        ),
    }
}

/// Whether this is the listing of a stored step; a role that cannot be read
/// is shown as the given one, a status that cannot be read as pending.
pub open spec fn is_step_info_of(info: WorkflowStepInfo, row: StoredStep, fallback: WorkflowRole) -> bool {
    &&& info.ordinal == row.ordinal as usize
    &&& info.node_id == row.node_id
    &&& info.role == (match row.role.value {
        Some(role) => role,
        None => fallback,
    })
    &&& info.status == (match row.status.value {
        Some(status) => status,
        None => WorkflowStepStatus::Pending,
    })
    &&& info.agent_id == row.agent_id
    &&& info.task_id == row.task_id
    &&& info.review_round == row.review_round as usize
    &&& info.summary == row.summary
    &&& info.error == row.error
}

fn step_info(row: &StoredStep, fallback: &WorkflowRole) -> (r: WorkflowStepInfo)
    ensures
        is_step_info_of(r, *row, *fallback),
{
    let role = match &row.role.value {
        Some(role) => role.clone(),
        None => fallback.clone(),
    };
    let status = match row.status.value {
        Some(status) => status,
        None => WorkflowStepStatus::Pending,
    };
    WorkflowStepInfo {
        ordinal: row.ordinal as usize,
        node_id: clone_opt(&row.node_id),
        role,
        status,
        agent_id: clone_opt(&row.agent_id),
        task_id: row.task_id,
        review_round: row.review_round as usize,
        summary: clone_opt(&row.summary),
        error: clone_opt(&row.error),
    }
}

/// The full detail of a stored workflow, its steps included.
pub fn detail_from_row(
    row: &StoredWorkflow,
    steps: &[StoredStep],
    max_review_rounds: usize,
    max_parallel: usize,
    fallback_role: &WorkflowRole,
) -> (r: Result<WorkflowDetail, WorkflowError>)
    ensures
        row.status.value is None ==> is_invalid_state(r, "unknown status "@ + row.status.text@),
        row.status.value is Some ==> (r matches Ok(detail) && {
            &&& row.status.value == Some(detail.status)
            &&& detail.workflow_id == row.id
            &&& detail.preset == row.preset
            &&& detail.goal == row.goal
            &&& detail.context_id == row.context_id
            &&& detail.max_review_rounds == max_review_rounds
            &&& detail.max_parallel == max_parallel
            &&& detail.final_review_verdict == last_verdict(steps@)
            &&& detail.error == row.error
            &&& detail.created_at == row.created_at
            &&& detail.updated_at == row.updated_at
            &&& detail.completed_at == row.completed_at
            &&& detail.graph_revision == row.graph_revision
            &&& detail.parent_workflow_id == row.parent_workflow_id
            &&& detail.recovery_of_node_id == row.recovery_of_node_id
            &&& detail.recovery_attempt == row.recovery_attempt
            &&& detail.source_workspace == row.source_workspace
            &&& detail.steps@.len() == steps@.len()
            &&& forall|i: int|
                0 <= i < steps@.len() ==> is_step_info_of(
                    #[trigger] detail.steps@[i],
                    steps@[i],
                    *fallback_role,
                )
        }),
{
    let status = match row.status.value {
        None => {
            return Err(unknown_status(row));
        },
        Some(status) => status,
    };
    let mut infos: Vec<WorkflowStepInfo> = Vec::new();
    let mut i: usize = 0;
    while i < steps.len()
        invariant
            i <= steps@.len(),
            infos@.len() == i,
            forall|k: int|
                0 <= k < i ==> is_step_info_of(#[trigger] infos@[k], steps@[k], *fallback_role),
        decreases steps.len() - i,
    {
        infos.push(step_info(&steps[i], fallback_role));
        i += 1;
    }
    Ok(
        WorkflowDetail {
            workflow_id: row.id,
            preset: row.preset.clone(),
            goal: row.goal.clone(),
            status,
            context_id: row.context_id,
            max_review_rounds,
            max_parallel,
            final_review_verdict: final_verdict(steps),
            error: clone_opt(&row.error),
            created_at: row.created_at.clone(),
            updated_at: row.updated_at.clone(),
            completed_at: clone_opt(&row.completed_at),
            graph_revision: row.graph_revision,
            parent_workflow_id: row.parent_workflow_id,
            recovery_of_node_id: clone_opt(&row.recovery_of_node_id),
            recovery_attempt: row.recovery_attempt,
            source_workspace: clone_opt(&row.source_workspace),
            steps: infos,
        },
    )
}

/// Whether this is the lineage node of a stored workflow; a status that
/// cannot be read is shown as the given one.
pub open spec fn is_lineage_node(node: LineageNode, row: StoredWorkflow, fallback: WorkflowStatus) -> bool {
    &&& node.workflow_id == row.id
    &&& node.preset == row.preset
    &&& node.status == (match row.status.value {
        Some(status) => status,
        None => fallback,
    })
    &&& node.parent_workflow_id == row.parent_workflow_id
    &&& node.recovery_of_node_id == row.recovery_of_node_id
    &&& node.recovery_attempt == row.recovery_attempt
    &&& node.created_at == row.created_at
}

fn lineage_node(row: &StoredWorkflow, fallback: WorkflowStatus) -> (r: LineageNode)
    ensures
        is_lineage_node(r, *row, fallback),
{
    let status = match row.status.value {
        Some(status) => status,
        None => fallback,
    };
    LineageNode {
        workflow_id: row.id,
        preset: row.preset.clone(),
        status,
        parent_workflow_id: row.parent_workflow_id,
        recovery_of_node_id: clone_opt(&row.recovery_of_node_id),
        recovery_attempt: row.recovery_attempt,
        created_at: row.created_at.clone(),
    }
}

/// The lineage of a workflow: its parent, where it recovers one, and the
/// workflows that recover it. A parent that is named must exist.
pub fn lineage(
    row: &StoredWorkflow,
    parent: Option<&StoredWorkflow>,
    children: &[StoredWorkflow],
) -> (r: Result<WorkflowLineage, WorkflowError>)
    requires
        parent matches Some(p) ==> row.parent_workflow_id == Some(p.id),
    ensures
        row.parent_workflow_id matches Some(id) ==> (parent is None ==> is_invalid_state(
            r,
            "lineage parent "@ + id_text(id.bits) + " of "@ + id_text(row.id.bits) + " missing"@,
        )),
        !(row.parent_workflow_id is Some && parent is None) ==> (r matches Ok(l) && {
            &&& l.workflow_id == row.id
            &&& match (l.parent, parent) {
                (Some(node), Some(p)) => is_lineage_node(node, *p, WorkflowStatus::Failed),
                (None, None) => true,
                _ => false,
            }
            &&& l.recovery_children@.len() == children@.len()
            &&& forall|i: int|
                0 <= i < children@.len() ==> is_lineage_node(
                    #[trigger] l.recovery_children@[i],
                    children@[i],
                    WorkflowStatus::Pending,
                )
        }),
{
    if let Some(id) = row.parent_workflow_id {
        if parent.is_none() {
            return Err(
                WorkflowError::InvalidState(
                    "lineage parent ".to_owned().concat(id.to_text().as_str()).concat(
                        " of ",
                    ).concat(row.id.to_text().as_str()).concat(" missing"),
                ),
            );
        }
    }
    let parent_node = match parent {
        Some(p) => Some(lineage_node(p, WorkflowStatus::Failed)),
        None => None,
    };
    let mut recovery_children: Vec<LineageNode> = Vec::new();
    let mut i: usize = 0;
    while i < children.len()
        invariant
            i <= children@.len(),
            recovery_children@.len() == i,
            forall|k: int|
                0 <= k < i ==> is_lineage_node(
                    #[trigger] recovery_children@[k],
                    children@[k],
                    WorkflowStatus::Pending,
                ),
        decreases children.len() - i,
    {
        recovery_children.push(lineage_node(&children[i], WorkflowStatus::Pending));
        i += 1;
    }
    Ok(WorkflowLineage { workflow_id: row.id, parent: parent_node, recovery_children })
}

/// The workflows that are interrupted.
pub open spec fn interrupted_ids(rows: Seq<StoredWorkflow>) -> Seq<Uuid>
    decreases rows.len(),
{
    if rows.len() == 0 {
        Seq::empty()
    } else if rows.last().status.value == Some(WorkflowStatus::Interrupted) {
        interrupted_ids(rows.drop_last()).push(rows.last().id)
    } else {
        interrupted_ids(rows.drop_last())
    }
}

/// The workflows that are interrupted, whose running steps are to be marked
/// so too.
pub fn interrupted_workflows(rows: &[StoredWorkflow]) -> (r: Vec<Uuid>)
    ensures
        r@ == interrupted_ids(rows@),
{
    let mut ids: Vec<Uuid> = Vec::new();
    let mut i: usize = 0;
    while i < rows.len()
        invariant
            i <= rows@.len(),
            ids@ == interrupted_ids(rows@.take(i as int)),
        decreases rows.len() - i,
    {
        proof {
            assert(rows@.take(i + 1).drop_last() =~= rows@.take(i as int));
            assert(rows@.take(i + 1).last() == rows@[i as int]);
        }
        if let Some(status) = rows[i].status.value {
            if status == WorkflowStatus::Interrupted {
                ids.push(rows[i].id);
            }
        }
        i += 1;
    }
    assert(rows@.take(i as int) =~= rows@);
    ids
}

/// The first failed row.
pub open spec fn first_failed(rows: Seq<StoredStep>) -> Option<StoredStep>
    decreases rows.len(),
{
    if rows.len() == 0 {
        None
    } else if rows[0].status.text@ == "failed"@ {
        Some(rows[0])
    } else {
        first_failed(rows.drop_first())
    }
}

/// The first failed step of a workflow, where it has one.
pub fn failed_node<'a>(rows: &'a [StoredStep]) -> (r: Option<&'a StoredStep>)
    ensures
        match r {
            Some(row) => first_failed(rows@) == Some(*row),
            None => first_failed(rows@) is None,
        },
{
    let mut i: usize = 0;
    assert(rows@.skip(0) =~= rows@);
    while i < rows.len()
        invariant
            i <= rows@.len(),
            first_failed(rows@) == first_failed(rows@.skip(i as int)),
        decreases rows.len() - i,
    {
        assert(rows@.skip(i as int).drop_first() =~= rows@.skip(i + 1));
        if same_text(rows[i].status.text.as_str(), "failed") {
            return Some(&rows[i]);
        }
        i += 1;
    }
    None
}

/// The immutable failure history handed to the failure analyzer.
pub struct RecoveryInputs {
    pub goal: String,
    pub failed_node_id: String,
    pub failed_role: String,
    pub failed_intent: String,
    pub failed_error: String,
    pub failed_summary: Option<String>,
    /// Node or role, and summary, of every completed step that has one.
    pub dependency_summaries: Vec<(String, String)>,
    pub failed_task_id: Option<Uuid>,
    pub failed_session_id: Option<Uuid>,
    /// The failed task's artifacts.
    pub artifacts: Vec<Artifact>,
}

/// The name of a row: its node, or its role where it has none.
pub open spec fn row_name(row: StoredStep) -> Seq<char> {
    match row.node_id {
        Some(id) => id@,
        None => row.role.text@,
    }
}

fn name_of(row: &StoredStep) -> (r: String)
    ensures
        r@ == row_name(*row),
{
    match &row.node_id {
        Some(id) => id.clone(),
        None => row.role.text.clone(),
    }
}

/// The names and summaries of the completed rows that have a summary.
pub open spec fn completed_summaries(rows: Seq<StoredStep>) -> Seq<(Seq<char>, Seq<char>)>
    decreases rows.len(),
{
    if rows.len() == 0 {
        Seq::empty()
    } else {
        let row = rows.last();
        match row.summary {
            Some(summary) => if row.status.value == Some(WorkflowStepStatus::Completed) {
                completed_summaries(rows.drop_last()).push((row_name(row), summary@))
            } else {
                completed_summaries(rows.drop_last())
            },
            None => completed_summaries(rows.drop_last()),
        }
    }
}

/// The texts of a list of pairs.
pub open spec fn pair_texts(list: Seq<(String, String)>) -> Seq<(Seq<char>, Seq<char>)> {
    list.map_values(|p: (String, String)| (p.0@, p.1@))
}

fn summaries_of(rows: &[StoredStep]) -> (r: Vec<(String, String)>)
    ensures
        pair_texts(r@) == completed_summaries(rows@),
{
    let mut r: Vec<(String, String)> = Vec::new();
    let mut i: usize = 0;
    assert(pair_texts(r@) =~= Seq::<(Seq<char>, Seq<char>)>::empty());
    while i < rows.len()
        invariant
            i <= rows@.len(),
            pair_texts(r@) == completed_summaries(rows@.take(i as int)),
        decreases rows.len() - i,
    {
        let row = &rows[i];
        proof {
            assert(rows@.take(i + 1).drop_last() =~= rows@.take(i as int));
            assert(rows@.take(i + 1).last() == *row);
        }
        let is_completed = match row.status.value {
            Some(status) => status == WorkflowStepStatus::Completed,
            None => false,
        };
        if is_completed {
            if let Some(summary) = &row.summary {
                let pair = (name_of(row), summary.clone());
                assert(pair_texts(r@.push(pair)) =~= pair_texts(r@).push((pair.0@, pair.1@)));
                r.push(pair);
            }
        }
        i += 1;
    }
    assert(rows@.take(i as int) =~= rows@);
    r
}

/// The failure history of a workflow: nothing when no step failed. The
/// session and artifacts are those of the failed task, as far as they could
/// be read.
pub fn recovery_inputs(
    goal: &String,
    rows: &[StoredStep],
    session_id: Option<Uuid>,
    artifacts: Vec<Artifact>,
) -> (r: Option<RecoveryInputs>)
    ensures
        match first_failed(rows@) {
            None => r is None,
            Some(failed) => r matches Some(inputs) && {
                &&& inputs.goal == *goal
                &&& inputs.failed_node_id@ == row_name(failed)
                &&& inputs.failed_role == failed.role.text
                &&& inputs.failed_intent == failed.intent
                &&& inputs.failed_error@ == error_or(failed.error, "node failed"@)
                &&& inputs.failed_summary == failed.summary
                &&& pair_texts(inputs.dependency_summaries@) == completed_summaries(rows@)
                &&& inputs.failed_task_id == failed.task_id
                &&& inputs.failed_session_id == session_id
                &&& inputs.artifacts == artifacts
            },
        },
{
    match failed_node(rows) {
        None => None,
        Some(failed) => Some(
            RecoveryInputs {
                goal: goal.clone(),
                failed_node_id: name_of(failed),
                failed_role: failed.role.text.clone(),
                failed_intent: failed.intent.clone(),
                failed_error: error_text(&failed.error, "node failed"),
                failed_summary: clone_opt(&failed.summary),
                dependency_summaries: summaries_of(rows),
                failed_task_id: failed.task_id,
                failed_session_id: session_id,
                artifacts,
            },
        ),
    }
}

/// What is recorded of a workflow that is over.
#[derive(Debug, PartialEq, Eq)]
pub enum TerminalRecord {
    Completed(WorkflowCompletedPayload),
    Failed(WorkflowFailedPayload),
    Cancelled(WorkflowCancelledPayload),
}

/// The record of a workflow that completed, failed or was cancelled; there is
/// none for any other status.
pub fn terminal_record(
    workflow_id: Uuid,
    status: WorkflowStatus,
    verdict: Option<String>,
    error: Option<String>,
) -> (r: Option<TerminalRecord>)
    ensures
        match status {
            WorkflowStatus::Completed => r == Some(
                TerminalRecord::Completed(
                    WorkflowCompletedPayload {
                        workflow_id,
                        final_review_verdict: verdict,
                        winner_candidate_id: None,
                    },
                ),
            ),
            WorkflowStatus::Failed => r matches Some(TerminalRecord::Failed(p)) && p.workflow_id
                == workflow_id && p.error@ == error_or(error, "workflow failed"@),
            WorkflowStatus::Cancelled => r == Some(
                TerminalRecord::Cancelled(WorkflowCancelledPayload { workflow_id, reason: error }),
            ),
            _ => r is None,
        },
        r is Some <==> status == WorkflowStatus::Completed || status == WorkflowStatus::Failed || status
            == WorkflowStatus::Cancelled,
        r matches Some(TerminalRecord::Completed(_)) ==> status == WorkflowStatus::Completed,
        r matches Some(TerminalRecord::Failed(_)) ==> status == WorkflowStatus::Failed,
        r matches Some(TerminalRecord::Cancelled(_)) ==> status == WorkflowStatus::Cancelled,
{
    match status {
        WorkflowStatus::Completed => Some(
            TerminalRecord::Completed(
                WorkflowCompletedPayload {
                    workflow_id,
                    final_review_verdict: verdict,
                    winner_candidate_id: None,
                },
            ),
        ),
        WorkflowStatus::Failed => Some(
            TerminalRecord::Failed(
                WorkflowFailedPayload {
                    workflow_id,
                    error: error_text(&error, "workflow failed"),
                },
            ),
        ),
        WorkflowStatus::Cancelled => Some(
            TerminalRecord::Cancelled(WorkflowCancelledPayload { workflow_id, reason: error }),
        ),
        _ => None,
    }
}

/// The votes that a stored consensus counted.
#[derive(Debug, PartialEq, Eq)]
pub struct ConsensusCount {
    pub valid_count: usize,
    pub total_count: usize,
    pub outcome: ConsensusOutcome,
}

/// What a listing tells of a round of evaluation: without a consensus that can
/// be read, no votes and no outcome.
pub fn evaluation_round_info(
    group_id: Uuid,
    round: i64,
    consensus: Option<ConsensusCount>,
    snapshot_hash: Option<String>,
    status: String,
) -> (r: EvaluationRoundInfo)
    ensures
        r == (EvaluationRoundInfo {
            round: round as usize,
            group_id,
            valid_count: match consensus {
                Some(c) => c.valid_count,
                None => 0,
            },
            total_count: match consensus {
                Some(c) => c.total_count,
                None => 0,
            },
            result: match consensus {
                Some(c) => Some(c.outcome),
                None => None,
            },
            snapshot_hash,
            status,
        }),
{
    let (valid_count, total_count, result): (usize, usize, Option<ConsensusOutcome>) =
        match consensus {
        Some(c) => (c.valid_count, c.total_count, Some(c.outcome)),
        None => (0, 0, None),
    };
    EvaluationRoundInfo {
        round: round as usize,
        group_id,
        valid_count,
        total_count,
        result,
        snapshot_hash,
        status,
    }
}

/// A step of a live run is persisted under its own status, but that a running
/// one of a cancelled run is cancelled. It has a start once it runs, and an end
/// once it completed, failed or was cancelled.
pub proof fn live_steps_have_their_times(status: WorkflowStepStatus, cancelled: bool)
    ensures
        !cancelled ==> live_status(status, cancelled) == status,
        status != WorkflowStepStatus::Running ==> live_status(status, cancelled) == status,
        cancelled ==> live_status(status, cancelled) != WorkflowStepStatus::Running,
        cancelled && status == WorkflowStepStatus::Running ==> live_status(status, cancelled)
            == WorkflowStepStatus::Cancelled,
        has_ended(status) <==> status == WorkflowStepStatus::Completed || status
            == WorkflowStepStatus::Failed || status == WorkflowStepStatus::Cancelled,
        has_ended(status) ==> has_started(status),
        has_started(WorkflowStepStatus::Running),
        !has_ended(WorkflowStepStatus::Running),
        !has_started(WorkflowStepStatus::Pending),
        !has_started(WorkflowStepStatus::Skipped),
        !has_started(WorkflowStepStatus::Interrupted),
{
}

/// A listing shows what is stored: a step's own role and status where they can
/// be read.
pub proof fn listings_show_what_is_stored(
    info: WorkflowInfo,
    row: StoredWorkflow,
    step: WorkflowStepInfo,
    stored: StoredStep,
    fallback: WorkflowRole,
    node: LineageNode,
    shown: WorkflowStatus,
)
    requires
        is_info_of(info, row),
        is_step_info_of(step, stored, fallback),
        is_lineage_node(node, row, shown),
    ensures
        info.workflow_id == row.id && row.status.value == Some(info.status),
        info.preset == row.preset && info.goal == row.goal && info.error == row.error,
        info.parent_workflow_id == row.parent_workflow_id,
        info.recovery_of_node_id == row.recovery_of_node_id,
        info.recovery_attempt == row.recovery_attempt,
        info.graph_revision == row.graph_revision,
        info.source_workspace == row.source_workspace,
        info.created_at == row.created_at && info.updated_at == row.updated_at
            && info.completed_at == row.completed_at && info.context_id == row.context_id,
        stored.role.value matches Some(role) ==> step.role == role,
        stored.role.value is None ==> step.role == fallback,
        stored.status.value matches Some(status) ==> step.status == status,
        stored.status.value is None ==> step.status == WorkflowStepStatus::Pending,
        step.node_id == stored.node_id && step.ordinal == stored.ordinal as usize,
        step.agent_id == stored.agent_id && step.task_id == stored.task_id,
        step.summary == stored.summary && step.error == stored.error,
        step.review_round == stored.review_round as usize,
        node.workflow_id == row.id && node.preset == row.preset,
        row.status.value matches Some(status) ==> node.status == status,
        row.status.value is None ==> node.status == shown,
        node.parent_workflow_id == row.parent_workflow_id,
        node.recovery_of_node_id == row.recovery_of_node_id,
        node.recovery_attempt == row.recovery_attempt && node.created_at == row.created_at,
{
}

/// One more workflow is among the interrupted ones exactly when it is.
pub proof fn interrupted_workflows_are_listed(rows: Seq<StoredWorkflow>, row: StoredWorkflow)
    ensures
        interrupted_ids(Seq::empty()).len() == 0,
        row.status.value == Some(WorkflowStatus::Interrupted) ==> interrupted_ids(rows.push(row))
            == interrupted_ids(rows).push(row.id),
        row.status.value != Some(WorkflowStatus::Interrupted) ==> interrupted_ids(rows.push(row))
            == interrupted_ids(rows),
{
    assert(rows.push(row).drop_last() =~= rows);
}

/// What a recovery starts from is the first failed row, and there is one exactly
/// when some row failed.
pub proof fn recovery_starts_from_the_first_failure(rows: Seq<StoredStep>, i: int)
    ensures
        first_failed(rows) is None <==> forall|k: int|
            0 <= k < rows.len() ==> (#[trigger] rows[k]).status.text@ != "failed"@,
        0 <= i < rows.len() && rows[i].status.text@ == "failed"@ && (forall|k: int|
            0 <= k < i ==> (#[trigger] rows[k]).status.text@ != "failed"@) ==> first_failed(rows)
            == Some(rows[i]),
    decreases rows.len(),
{
    if rows.len() > 0 {
        let rest = rows.drop_first();
        recovery_starts_from_the_first_failure(rest, i - 1);
        assert forall|k: int| 0 <= k < rest.len() implies #[trigger] rest[k] == rows[k + 1] by {}
        if first_failed(rows) is None {
            assert forall|k: int| 0 <= k < rows.len() implies (
            #[trigger] rows[k]).status.text@ != "failed"@ by {
                if k > 0 {
                    assert(rest[k - 1] == rows[k]);
                }
            }
        } else if rows[0].status.text@ != "failed"@ {
            let k = choose|k: int|
                0 <= k < rest.len() && (#[trigger] rest[k]).status.text@ == "failed"@;
            assert(rows[k + 1].status.text@ == "failed"@);
        }
        if 0 < i < rows.len() && rows[i].status.text@ == "failed"@ && (forall|k: int|
            0 <= k < i ==> (#[trigger] rows[k]).status.text@ != "failed"@) {
            assert(rows[0].status.text@ != "failed"@);
            assert(rest[i - 1] == rows[i]);
            assert forall|k: int| 0 <= k < i - 1 implies (
            #[trigger] rest[k]).status.text@ != "failed"@ by {
                assert(rest[k] == rows[k + 1]);
            }
        }
    }
}

/// One more row adds a summary to the failure history exactly when it is
/// completed and has one: under its node, or its role where it has no node.
pub proof fn completed_work_enters_the_history(rows: Seq<StoredStep>, row: StoredStep)
    ensures
        completed_summaries(Seq::empty()).len() == 0,
        row.status.value == Some(WorkflowStepStatus::Completed) && row.summary is Some ==> {
            let told = completed_summaries(rows.push(row));
            &&& told.len() == completed_summaries(rows).len() + 1
            &&& told.drop_last() == completed_summaries(rows)
            &&& told.last().1 == row.summary->0@
            &&& row.node_id matches Some(id) ==> told.last().0 == id@
            &&& row.node_id is None ==> told.last().0 == row.role.text@
        },
        row.status.value != Some(WorkflowStepStatus::Completed) || row.summary is None
            ==> completed_summaries(rows.push(row)) == completed_summaries(rows),
{
    assert(rows.push(row).drop_last() =~= rows);
    if row.status.value == Some(WorkflowStepStatus::Completed) && row.summary is Some {
        assert(completed_summaries(rows.push(row)).drop_last() =~= completed_summaries(rows));
    }
}

} // verus!
