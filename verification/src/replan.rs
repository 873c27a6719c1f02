//! Runtime replanning.
//!
//! A replan is triggered by the user: a planner agent proposes a delta of the
//! workflow's graph, which is validated, checked against the policy and
//! persisted. A proposal never changes the live workflow by itself: the user
//! applies it explicitly, which validates it again, claims it atomically, and
//! only then swaps the pending part of the graph.

use vstd::prelude::*;
use vstd::string::*;

use crate::ids::{id_text, is_random_id, is_time_text, now_text, Uuid};
use crate::model::ArtifactKind;
use crate::protocol::{PlanPolicyUsage, ReplanInfo, ReplanPreview};
use crate::recovery::PlanBudget;
use crate::text::{ascii_lower, chars_of, clone_opt, decimal_int, ends_with};
use crate::text::{has_prefix, has_suffix, lowered, opt_text, same_text, show_i64, trim_start};
use crate::text::{leading_space, trimmed_start, white_space};
use crate::workflow::types::{unreadable_status, unreadable_status_text, Decoded, WorkflowStatus};
use crate::text::{contains_text, parts_stand_where_they_are};
use crate::text::longer_texts_contain_the_same;

verus! {

/// Errors produced by the replan service. An error of another layer is
/// carried by its message.
#[derive(Debug, PartialEq, Eq)]
pub enum ReplanError {
    NotFound(Uuid),
    WorkflowNotFound(Uuid),
    NotDag(Uuid),
    NotReplannable(Uuid, String),
    NotReady(Uuid, String),
    AlreadyApplied(Uuid),
    ApplyInProgress(Uuid),
    ReplanStale { replan_id: Uuid, base: i64, current: i64 },
    InvalidDelta(String),
    InvalidCandidate(String),
    PolicyViolation(Uuid, String),
    DirectoryUninitialized,
    PlannerTaskFailed(String),
    Storage(String),
    Workflow(String),
    Orchestrator(String),
}

/// The message of a replan error.
pub open spec fn replan_error_text(e: ReplanError) -> Seq<char> {
    match e {
        ReplanError::NotFound(id) => "replan `"@ + id_text(id.bits) + "` not found"@,
        ReplanError::WorkflowNotFound(id) => "workflow `"@ + id_text(id.bits) + "` not found"@,
        ReplanError::NotDag(id) => "workflow `"@ + id_text(id.bits) + "` has no DAG to replan"@,
        ReplanError::NotReplannable(id, status) => "workflow `"@ + id_text(id.bits)
            + "` cannot be replanned (status `"@ + status@
            + "`); only running or interrupted workflows replan"@,
        ReplanError::NotReady(id, status) => "replan `"@ + id_text(id.bits)
            + "` is not ready (status `"@ + status@ + "`); only ready proposals apply"@,
        ReplanError::AlreadyApplied(id) => "replan `"@ + id_text(id.bits)
            + "` has already been applied"@,
        ReplanError::ApplyInProgress(id) => "replan `"@ + id_text(id.bits)
            + "` apply is already in progress by another caller"@,
        ReplanError::ReplanStale { replan_id, base, current } => "replan `"@ + id_text(
            replan_id.bits,
        ) + "` is stale (base graph revision "@ + decimal_int(base as int) + " != current "@
            + decimal_int(current as int) + "); re-plan from the current graph"@,
        ReplanError::InvalidDelta(reason) => "invalid replan delta: "@ + reason@,
        ReplanError::InvalidCandidate(reason) => "replan candidate invalid: "@ + reason@,
        ReplanError::PolicyViolation(id, violation) => "replan `"@ + id_text(id.bits)
            + "` violates policy: "@ + violation@,
        ReplanError::DirectoryUninitialized => "agent directory is not initialized"@,
        ReplanError::PlannerTaskFailed(reason) => "replan planner task failed: "@ + reason@,
        ReplanError::Storage(message) => "storage error: "@ + message@,
        ReplanError::Workflow(message) => "workflow error: "@ + message@,
        ReplanError::Orchestrator(message) => "orchestrator error: "@ + message@,
    }
}

impl ReplanError {
    /// The message of the error.
    pub fn message(&self) -> (r: String)
        ensures
            r@ == replan_error_text(*self),
    {
        match self {
            ReplanError::NotFound(id) => "replan `".to_owned().concat(
                id.to_text().as_str(),
            ).concat("` not found"),
            ReplanError::WorkflowNotFound(id) => "workflow `".to_owned().concat(
                id.to_text().as_str(),
            ).concat("` not found"),
            ReplanError::NotDag(id) => "workflow `".to_owned().concat(
                id.to_text().as_str(),
            ).concat("` has no DAG to replan"),
            ReplanError::NotReplannable(id, status) => "workflow `".to_owned().concat(
                id.to_text().as_str(),
            ).concat("` cannot be replanned (status `").concat(status.as_str()).concat(
                "`); only running or interrupted workflows replan",
            ),
            ReplanError::NotReady(id, status) => "replan `".to_owned().concat(
                id.to_text().as_str(),
            ).concat("` is not ready (status `").concat(status.as_str()).concat(
                "`); only ready proposals apply",
            ),
            ReplanError::AlreadyApplied(id) => "replan `".to_owned().concat(
                id.to_text().as_str(),
            ).concat("` has already been applied"),
            ReplanError::ApplyInProgress(id) => "replan `".to_owned().concat(
                id.to_text().as_str(),
            ).concat("` apply is already in progress by another caller"),
            ReplanError::ReplanStale { replan_id, base, current } => "replan `".to_owned().concat(
                replan_id.to_text().as_str(),
            ).concat("` is stale (base graph revision ").concat(
                show_i64(*base).as_str(),
            ).concat(" != current ").concat(show_i64(*current).as_str()).concat(
                "); re-plan from the current graph",
            ),
            ReplanError::InvalidDelta(reason) => "invalid replan delta: ".to_owned().concat(
                reason.as_str(),
            ),
            ReplanError::InvalidCandidate(reason) => "replan candidate invalid: ".to_owned().concat(
                reason.as_str(),
            ),
            ReplanError::PolicyViolation(id, violation) => "replan `".to_owned().concat(
                id.to_text().as_str(),
            ).concat("` violates policy: ").concat(violation.as_str()),
            ReplanError::DirectoryUninitialized => "agent directory is not initialized".to_owned(),
            ReplanError::PlannerTaskFailed(reason) =>
                "replan planner task failed: ".to_owned().concat(reason.as_str()),
            ReplanError::Storage(message) => "storage error: ".to_owned().concat(message.as_str()),
            ReplanError::Workflow(message) => "workflow error: ".to_owned().concat(
                message.as_str(),
            ),
            ReplanError::Orchestrator(message) => "orchestrator error: ".to_owned().concat(
                message.as_str(),
            ),
        }
    }
}

/// Lifecycle status of a replan proposal.
#[derive(Clone, Copy, Debug, PartialEq, Eq, Structural)]
pub enum ReplanStatus {
    Generating,
    Ready,
    Applying,
    Applied,
    Invalid,
    Failed,
    Rejected,
}

/// The text that a status is persisted under.
pub open spec fn replan_status_text(status: ReplanStatus) -> Seq<char> {
    match status {
        ReplanStatus::Generating => "generating"@,
        ReplanStatus::Ready => "ready"@,
        ReplanStatus::Applying => "applying"@,
        ReplanStatus::Applied => "applied"@,
        ReplanStatus::Invalid => "invalid"@,
        ReplanStatus::Failed => "failed"@,
        ReplanStatus::Rejected => "rejected"@,
    }
}

impl ReplanStatus {
    /// Stable snake_case text used for persistence and the wire.
    pub fn as_str(&self) -> (r: &'static str)
        ensures
            r@ == replan_status_text(*self),
    {
        match self {
            ReplanStatus::Generating => "generating",
            ReplanStatus::Ready => "ready",
            ReplanStatus::Applying => "applying",
            ReplanStatus::Applied => "applied",
            ReplanStatus::Invalid => "invalid",
            ReplanStatus::Failed => "failed",
            ReplanStatus::Rejected => "rejected",
        }
    }

    /// Whether a persisted text names this status.
    pub fn is(&self, text: &String) -> (r: bool)
        ensures
            r == (text@ == replan_status_text(*self)),
    {
        same_text(text.as_str(), self.as_str())
    }
}

/// Different statuses are persisted under different texts.
pub proof fn replan_status_text_injective(a: ReplanStatus, b: ReplanStatus)
    requires
        replan_status_text(a) == replan_status_text(b),
    ensures
        a == b,
{
    reveal_strlit("generating");
    reveal_strlit("ready");
    reveal_strlit("applying");
    reveal_strlit("applied");
    reveal_strlit("invalid");
    reveal_strlit("failed");
    reveal_strlit("rejected");
    let x = replan_status_text(a);
    let y = replan_status_text(b);
    assert(x.len() == y.len());
    assert(x[0] == y[0] && x[1] == y[1]);
}

/// A replan proposal as it is stored.
#[derive(Debug, PartialEq, Eq)]
pub struct WorkflowReplanRow {
    pub id: Uuid,
    pub workflow_id: Uuid,
    pub status: String,
    pub planner_agent_id: Option<String>,
    pub planner_task_id: Option<Uuid>,
    pub delta_json: Option<String>,
    pub validation_error: Option<String>,
    pub base_graph_revision: i64,
    pub applied_graph_revision: Option<i64>,
    pub created_at: String,
    pub applied_at: Option<String>,
}

/// Whether the status of a proposal is this one.
pub open spec fn replan_is(row: WorkflowReplanRow, status: ReplanStatus) -> bool {
    row.status@ == replan_status_text(status)
}

/// A new proposal against the graph revision it is made for.
pub fn new_replan(id: Uuid, workflow_id: Uuid, base_graph_revision: i64, now: String) -> (r:
    WorkflowReplanRow)
    ensures
        replan_is(r, ReplanStatus::Generating),
        r == (WorkflowReplanRow {
            id,
            workflow_id,
            status: r.status,
            planner_agent_id: None,
            planner_task_id: None,
            delta_json: None,
            validation_error: None,
            base_graph_revision,
            applied_graph_revision: None,
            created_at: now,
            applied_at: None,
        }),
{
    WorkflowReplanRow {
        id,
        workflow_id,
        status: ReplanStatus::Generating.as_str().to_owned(),
        planner_agent_id: None,
        planner_task_id: None,
        delta_json: None,
        validation_error: None,
        base_graph_revision,
        applied_graph_revision: None,
        created_at: now,
        applied_at: None,
    }
}

/// A new proposal under a fresh id, as of now.
pub fn fresh_replan(workflow_id: Uuid, base_graph_revision: i64) -> (r: WorkflowReplanRow)
    ensures
        replan_is(r, ReplanStatus::Generating),
        is_random_id(r.id.bits),
        is_time_text(r.created_at@),
        r == (WorkflowReplanRow {
            id: r.id,
            workflow_id,
            status: r.status,
            planner_agent_id: None,
            planner_task_id: None,
            delta_json: None,
            validation_error: None,
            base_graph_revision,
            applied_graph_revision: None,
            created_at: r.created_at,
            applied_at: None,
        }),
{
    new_replan(Uuid::new_v4(), workflow_id, base_graph_revision, now_text())
}

/// Only a workflow that is running or interrupted is replanned. A status that
/// cannot be read is an error of the workflow.
pub fn replannable_status(workflow_id: Uuid, status: &Decoded<WorkflowStatus>) -> (r: Result<
    (),
    ReplanError,
>)
    ensures
        match status.value {
            None => r matches Err(ReplanError::Workflow(m)) && m@ == unreadable_status_text(
                status.text@,
            ),
            Some(WorkflowStatus::Running) | Some(WorkflowStatus::Interrupted) => r is Ok,
            Some(_) => r == Err::<(), ReplanError>(
                ReplanError::NotReplannable(workflow_id, status.text),
            ),
        },
        r is Ok <==> status.value == Some(WorkflowStatus::Running) || status.value == Some(
            WorkflowStatus::Interrupted,
        ),
{
    match status.value {
        None => Err(ReplanError::Workflow(unreadable_status(status.text.as_str()))),
        Some(WorkflowStatus::Running) | Some(WorkflowStatus::Interrupted) => Ok(()),
        Some(_) => Err(ReplanError::NotReplannable(workflow_id, status.text.clone())),
    }
}

/// Only a DAG that is running or interrupted is replanned.
pub fn replannable_gate(workflow_id: Uuid, status: &Decoded<WorkflowStatus>, is_dag: bool) -> (r:
    Result<(), ReplanError>)
    ensures
        match status.value {
            None => r matches Err(ReplanError::Workflow(m)) && m@ == unreadable_status_text(
                status.text@,
            ),
            Some(WorkflowStatus::Running) | Some(WorkflowStatus::Interrupted) => if is_dag {
                r is Ok
            } else {
                r == Err::<(), ReplanError>(ReplanError::NotDag(workflow_id))
            },
            Some(_) => r == Err::<(), ReplanError>(
                ReplanError::NotReplannable(workflow_id, status.text),
            ),
        },
        r is Ok <==> is_dag && (status.value == Some(WorkflowStatus::Running) || status.value == Some(
            WorkflowStatus::Interrupted,
        )),
{
    if let Err(error) = replannable_status(workflow_id, status) {
        return Err(error);
    }
    if is_dag {
        Ok(())
    } else {
        Err(ReplanError::NotDag(workflow_id))
    }
}

/// What came back from the replan planner.
#[derive(Debug, PartialEq, Eq)]
pub enum PlannerReply {
    /// The task could not be started.
    NotStarted(String),
    /// The task completed; whether its output was a delta, could be written
    /// down, and gave a candidate graph that passed validation and policy.
    Completed {
        parsed: Result<(), String>,
        written: Result<(), String>,
        validated: Result<(), String>,
    },
    /// The task failed.
    Failed(String),
    /// The task was cancelled.
    Cancelled,
}

/// What becomes of a proposal.
#[derive(Debug, PartialEq, Eq)]
pub enum ReplanUpdate {
    /// It stays as it is.
    Unchanged,
    /// It is ready, with the delta that was written down.
    Ready,
    /// It is invalid, for this reason.
    Invalid(String),
    /// It failed, for this reason.
    Failed(String),
}

/// Whether an update of the proposal, and the error that the caller gets, are
/// those that a reply calls for. An unusable reply is a status of the
/// proposal and no error.
pub open spec fn is_replan_outcome(
    update: ReplanUpdate,
    error: Option<ReplanError>,
    reply: PlannerReply,
) -> bool {
    match reply {
        PlannerReply::NotStarted(reason) => {
            &&& update matches ReplanUpdate::Failed(text) && text@
                == "failed to start replan planner task: "@ + reason@
            &&& error matches Some(ReplanError::PlannerTaskFailed(text)) && text@
                == "failed to start replan planner task: "@ + reason@
        },
        PlannerReply::Completed { parsed: Err(reason), .. } => update == ReplanUpdate::Invalid(
            reason,
        ) && error is None,
        PlannerReply::Completed { written: Err(reason), .. } => update == ReplanUpdate::Unchanged
            && error == Some(ReplanError::InvalidDelta(reason)),
        PlannerReply::Completed { validated: Err(reason), .. } => update == ReplanUpdate::Invalid(
            reason,
        ) && error is None,
        PlannerReply::Completed { .. } => update == ReplanUpdate::Ready && error is None,
        PlannerReply::Failed(reason) => update == ReplanUpdate::Failed(reason) && error is None,
        PlannerReply::Cancelled => {
            &&& update matches ReplanUpdate::Failed(text) && text@
                == "replan planner task was cancelled"@
            &&& error is None
        },
    }
}

/// What becomes of a proposal after the planner's reply, and the error that
/// the caller gets.
pub fn replan_outcome(reply: PlannerReply) -> (r: (ReplanUpdate, Option<ReplanError>))
    ensures
        is_replan_outcome(r.0, r.1, reply),
{
    match reply {
        PlannerReply::NotStarted(reason) => {
            let text = "failed to start replan planner task: ".to_owned().concat(reason.as_str());
            (ReplanUpdate::Failed(text.clone()), Some(ReplanError::PlannerTaskFailed(text)))
        },
        PlannerReply::Completed { parsed, written, validated } => match parsed {
            Err(reason) => (ReplanUpdate::Invalid(reason), None),
            Ok(_) => match written {
                Err(reason) => (ReplanUpdate::Unchanged, Some(ReplanError::InvalidDelta(reason))),
                Ok(_) => match validated {
                    Err(reason) => (ReplanUpdate::Invalid(reason), None),
                    Ok(_) => (ReplanUpdate::Ready, None),
                },
            },
        },
        PlannerReply::Failed(reason) => (ReplanUpdate::Failed(reason), None),
        PlannerReply::Cancelled => (
            ReplanUpdate::Failed("replan planner task was cancelled".to_owned()),
            None,
        ),
    }
}

/// Whether an outcome is the one that the gates of an apply give before the
/// claim: the status of the proposal, the graph revision it was made for, and
/// the stored delta, in this order. `delta` says whether the stored delta, if
/// there is one, can be read.
pub open spec fn is_apply_decision(
    r: Result<(), ReplanError>,
    row: WorkflowReplanRow,
    current: i64,
    delta: Option<Result<(), String>>,
) -> bool {
    if replan_is(row, ReplanStatus::Applied) {
        r == Err::<(), ReplanError>(ReplanError::AlreadyApplied(row.id))
    } else if replan_is(row, ReplanStatus::Applying) {
        r == Err::<(), ReplanError>(ReplanError::ApplyInProgress(row.id))
    } else if !replan_is(row, ReplanStatus::Ready) {
        r == Err::<(), ReplanError>(ReplanError::NotReady(row.id, row.status))
    } else if row.base_graph_revision != current {
        r == Err::<(), ReplanError>(
            ReplanError::ReplanStale { replan_id: row.id, base: row.base_graph_revision, current },
        )
    } else {
        match delta {
            None => r matches Err(ReplanError::InvalidDelta(text)) && text@
                == "proposal has no stored delta"@,
            Some(Err(reason)) => r == Err::<(), ReplanError>(ReplanError::InvalidDelta(reason)),
            Some(Ok(_)) => r is Ok,
        }
    }
}

/// Whether a proposal may go on to the claim.
pub fn apply_decision(
    row: &WorkflowReplanRow,
    current: i64,
    delta: Option<Result<(), String>>,
) -> (r: Result<(), ReplanError>)
    ensures
        is_apply_decision(r, *row, current, delta),
{
    if ReplanStatus::Applied.is(&row.status) {
        return Err(ReplanError::AlreadyApplied(row.id));
    }
    if ReplanStatus::Applying.is(&row.status) {
        return Err(ReplanError::ApplyInProgress(row.id));
    }
    if !ReplanStatus::Ready.is(&row.status) {
        return Err(ReplanError::NotReady(row.id, row.status.clone()));
    }
    if row.base_graph_revision != current {
        return Err(
            ReplanError::ReplanStale { replan_id: row.id, base: row.base_graph_revision, current },
        );
    }
    stored_delta(delta)
}

/// A delta counts only when it was stored and can be read.
pub fn stored_delta(delta: Option<Result<(), String>>) -> (r: Result<(), ReplanError>)
    ensures
        match delta {
            None => r matches Err(ReplanError::InvalidDelta(text)) && text@
                == "proposal has no stored delta"@,
            Some(Err(reason)) => r == Err::<(), ReplanError>(ReplanError::InvalidDelta(reason)),
            Some(Ok(_)) => r is Ok,
        },
        r is Ok <==> delta is Some && delta->0 is Ok,
{
    match delta {
        None => Err(ReplanError::InvalidDelta("proposal has no stored delta".to_owned())),
        Some(Err(reason)) => Err(ReplanError::InvalidDelta(reason)),
        Some(Ok(_)) => Ok(()),
    }
}

/// The reason under which a refused proposal is rejected for good, where it
/// is still ready: only a stale one is.
pub fn replan_rejection(error: &ReplanError) -> (r: Option<String>)
    ensures
        opt_text(r) == (match *error {
            ReplanError::ReplanStale { .. } => Some(
                "stale base graph revision; re-plan from the current graph"@,
            ),
            _ => None,
        }),
        r is Some <==> *error is ReplanStale,
{
    match error {
        ReplanError::ReplanStale { .. } => Some(
            "stale base graph revision; re-plan from the current graph".to_owned(),
        ),
        _ => None,
    }
}

/// A proposal that was made for another graph revision never passes the
/// gates, whatever its status and its delta.
pub proof fn stale_proposal_is_refused(
    r: Result<(), ReplanError>,
    row: WorkflowReplanRow,
    current: i64,
    delta: Option<Result<(), String>>,
)
    requires
        is_apply_decision(r, row, current, delta),
        row.base_graph_revision != current,
    ensures
        r is Err,
{
}

/// The outcome of the atomic claim that decides who applies a proposal.
#[derive(Clone, Copy, Debug, PartialEq, Eq, Structural)]
pub enum ReplanApplyResult {
    Claimed,
    AlreadyApplied,
    ApplyInProgress,
    ReplanStale,
    NotReady,
}

/// Whether an outcome is the one that a claim gives its caller: only the caller
/// that claimed the proposal goes on. `current` is the graph revision, and
/// `status` the status text, after the claim.
pub open spec fn is_replan_claim(
    r: Result<(), ReplanError>,
    row: WorkflowReplanRow,
    claim: ReplanApplyResult,
    current: i64,
    status: Option<String>,
) -> bool {
    match claim {
        ReplanApplyResult::Claimed => r is Ok,
        ReplanApplyResult::AlreadyApplied => r == Err::<(), ReplanError>(
            ReplanError::AlreadyApplied(row.id),
        ),
        ReplanApplyResult::ApplyInProgress => r == Err::<(), ReplanError>(
            ReplanError::ApplyInProgress(row.id),
        ),
        ReplanApplyResult::ReplanStale => r == Err::<(), ReplanError>(
            ReplanError::ReplanStale { replan_id: row.id, base: row.base_graph_revision, current },
        ),
        ReplanApplyResult::NotReady => r matches Err(ReplanError::NotReady(id, text)) && id
            == row.id && text@ == (match status {
            Some(t) => t@,
            None => Seq::empty(),
        }),
    }
}

/// One concurrent caller's part in the apply of a proposal: what it got from
/// the claim, and what it was told.
pub struct ReplanTrial {
    pub claim: ReplanApplyResult,
    pub current: i64,
    pub status: Option<String>,
    pub told: Result<(), ReplanError>,
}

/// A proposal is applied by one caller: where at most one of concurrent callers
/// got the claim, at most one goes on.
pub proof fn one_caller_applies(
    row: WorkflowReplanRow,
    trials: Seq<ReplanTrial>,
    i: int,
    j: int,
)
    requires
        forall|k: int|
            0 <= k < trials.len() ==> is_replan_claim(
                (#[trigger] trials[k]).told,
                row,
                trials[k].claim,
                trials[k].current,
                trials[k].status,
            ),
        forall|k: int, l: int|
            0 <= k < trials.len() && 0 <= l < trials.len() && (#[trigger] trials[k]).claim
                == ReplanApplyResult::Claimed && (#[trigger] trials[l]).claim
                == ReplanApplyResult::Claimed ==> k == l,
        0 <= i < trials.len(),
        0 <= j < trials.len(),
        trials[i].told is Ok,
        trials[j].told is Ok,
    ensures
        i == j,
{
}

/// What a claim lets its caller do.
pub fn replan_claim_gate(
    row: &WorkflowReplanRow,
    claim: ReplanApplyResult,
    current: i64,
    status: Option<String>,
) -> (r: Result<(), ReplanError>)
    ensures
        is_replan_claim(r, *row, claim, current, status),
{
    match claim {
        ReplanApplyResult::Claimed => Ok(()),
        ReplanApplyResult::AlreadyApplied => Err(ReplanError::AlreadyApplied(row.id)),
        ReplanApplyResult::ApplyInProgress => Err(ReplanError::ApplyInProgress(row.id)),
        ReplanApplyResult::ReplanStale => Err(
            ReplanError::ReplanStale { replan_id: row.id, base: row.base_graph_revision, current },
        ),
        ReplanApplyResult::NotReady => {
            let text = match status {
                Some(text) => text,
                None => String::new(),
            };
            Err(ReplanError::NotReady(row.id, text))
        },
    }
}

/// The candidate graph of a delta: the workflow must be a DAG, the delta must
/// apply to it, and the result must stay within the policy.
pub fn candidate_gate(
    workflow_id: Uuid,
    is_dag: bool,
    applied: Result<(), String>,
    policy: Result<(), String>,
) -> (r: Result<(), ReplanError>)
    ensures
        !is_dag ==> r == Err::<(), ReplanError>(ReplanError::NotDag(workflow_id)),
        is_dag ==> match applied {
            Err(reason) => r == Err::<(), ReplanError>(ReplanError::InvalidCandidate(reason)),
            Ok(_) => match policy {
                Err(violation) => r == Err::<(), ReplanError>(
                    ReplanError::PolicyViolation(workflow_id, violation),
                ),
                Ok(_) => r is Ok,
            },
        },
        r is Ok <==> is_dag && applied is Ok && policy is Ok,
{
    if !is_dag {
        return Err(ReplanError::NotDag(workflow_id));
    }
    match applied {
        Err(reason) => Err(ReplanError::InvalidCandidate(reason)),
        Ok(_) => match policy {
            Err(violation) => Err(ReplanError::PolicyViolation(workflow_id, violation)),
            Ok(_) => Ok(()),
        },
    }
}

/// What becomes of a claimed proposal once its candidate was checked again: a
/// refused candidate puts it back to ready, so that it stays retryable and
/// never hangs while it is being applied. `None` leaves the status to the apply
/// itself.
pub fn after_claim(candidate: Result<(), ReplanError>) -> (r: (
    Option<ReplanStatus>,
    Result<(), ReplanError>,
))
    ensures
        r.0 == (if candidate is Err {
            Some(ReplanStatus::Ready)
        } else {
            None
        }),
        r.1 == candidate,
        r.0 is Some <==> r.1 is Err,
        r.0 matches Some(status) ==> status == ReplanStatus::Ready,
{
    match candidate {
        Ok(done) => (None, Ok(done)),
        Err(error) => (Some(ReplanStatus::Ready), Err(error)),
    }
}

/// The ids of the nodes that a delta adds, updates and removes.
#[derive(Debug, PartialEq, Eq)]
pub struct DeltaNodes {
    pub add_nodes: Vec<String>,
    pub update_nodes: Vec<String>,
    pub remove_nodes: Vec<String>,
}

/// The preview of an apply: the proposal, what its delta touches, the cost of
/// the resulting graph, and the limits of the policy. Only a ready proposal is
/// previewed.
pub fn replan_preview(
    row: &WorkflowReplanRow,
    current: i64,
    delta: DeltaNodes,
    budget: &PlanBudget,
    limits: &PlanPolicyUsage,
) -> (r: Result<ReplanPreview, ReplanError>)
    ensures
        !replan_is(*row, ReplanStatus::Ready) ==> r == Err::<ReplanPreview, ReplanError>(
            ReplanError::NotReady(row.id, row.status),
        ),
        replan_is(*row, ReplanStatus::Ready) ==> r == Ok::<ReplanPreview, ReplanError>(
            ReplanPreview {
                replan_id: row.id,
                workflow_id: row.workflow_id,
                status: row.status,
                base_graph_revision: row.base_graph_revision,
                current_graph_revision: current,
                add_nodes: delta.add_nodes,
                update_nodes: delta.update_nodes,
                remove_nodes: delta.remove_nodes,
                node_count: budget.node_count,
                estimated_agent_calls: budget.estimated_agent_calls,
                evaluation_agent_calls: budget.evaluation_agent_calls,
                root_count: budget.root_count,
                terminal_count: budget.terminal_count,
                policy_max_nodes: limits.max_nodes,
                policy_max_agent_calls: limits.max_agent_calls,
            },
        ),
{
    if !ReplanStatus::Ready.is(&row.status) {
        return Err(ReplanError::NotReady(row.id, row.status.clone()));
    }
    Ok(
        ReplanPreview {
            replan_id: row.id,
            workflow_id: row.workflow_id,
            status: row.status.clone(),
            base_graph_revision: row.base_graph_revision,
            current_graph_revision: current,
            add_nodes: delta.add_nodes,
            update_nodes: delta.update_nodes,
            remove_nodes: delta.remove_nodes,
            node_count: budget.node_count,
            estimated_agent_calls: budget.estimated_agent_calls,
            evaluation_agent_calls: budget.evaluation_agent_calls,
            root_count: budget.root_count,
            terminal_count: budget.terminal_count,
            policy_max_nodes: limits.max_nodes,
            policy_max_agent_calls: limits.max_agent_calls,
        },
    )
}

/// What is told of a proposal.
pub fn replan_info(row: &WorkflowReplanRow) -> (r: ReplanInfo)
    ensures
        r == (ReplanInfo {
            replan_id: row.id,
            workflow_id: row.workflow_id,
            status: row.status,
            planner_agent_id: row.planner_agent_id,
            planner_task_id: row.planner_task_id,
            validation_error: row.validation_error,
            base_graph_revision: row.base_graph_revision,
            applied_graph_revision: row.applied_graph_revision,
            created_at: row.created_at,
            applied_at: row.applied_at,
        }),
{
    ReplanInfo {
        replan_id: row.id,
        workflow_id: row.workflow_id,
        status: row.status.clone(),
        planner_agent_id: clone_opt(&row.planner_agent_id),
        planner_task_id: row.planner_task_id,
        validation_error: clone_opt(&row.validation_error),
        base_graph_revision: row.base_graph_revision,
        applied_graph_revision: row.applied_graph_revision,
        created_at: row.created_at.clone(),
        applied_at: clone_opt(&row.applied_at),
    }
}

/// Whether a text opens like Markdown: with a backtick, after white space.
pub open spec fn opens_with_backtick(text: Seq<char>) -> bool {
    let body = trimmed_start(text);
    body.len() > 0 && body[0] == '`'
}

/// Whether a text looks like Markdown rather than JSON: it opens with a code
/// fence or a backtick.
pub fn looks_markdown(text: &str) -> (r: bool)
    ensures
        r == opens_with_backtick(text@),
{
    let body = trim_start(text);
    proof {
        reveal_strlit("`");
        if body@.len() > 0 {
            assert(body@.subrange(0, 1) =~= seq![body@[0]]);
            assert("`"@ =~= seq!['`']);
            assert(seq![body@[0]][0] == body@[0]);
        }
    }
    has_prefix(chars_of(body.as_str()).as_slice(), "`")
}

/// An artifact of a planner, as far as its output is read.
#[derive(Debug, PartialEq, Eq)]
pub struct PlannerArtifact {
    pub name: String,
    pub kind: ArtifactKind,
    /// The inline content, where there is any.
    pub content: Option<String>,
}

/// Whether an artifact holds JSON, by its kind or its name.
pub open spec fn is_json_artifact(artifact: PlannerArtifact) -> bool {
    artifact.kind == ArtifactKind::Json || ends_with(ascii_lower(artifact.name@), ".json"@)
}

/// The first artifact that holds JSON.
pub open spec fn first_json(artifacts: Seq<PlannerArtifact>) -> Option<PlannerArtifact>
    decreases artifacts.len(),
{
    if artifacts.len() == 0 {
        None
    } else if is_json_artifact(artifacts[0]) {
        Some(artifacts[0])
    } else {
        first_json(artifacts.drop_first())
    }
}

/// Why no text of a planner can be read as a delta.
#[derive(Debug, PartialEq, Eq)]
pub enum PlanParseError {
    NoJsonOutput(String),
    MarkdownFenced,
}

/// Whether a text is the one to read: as it stands, unless it is Markdown.
pub open spec fn is_plain_json(r: Result<String, PlanParseError>, text: Seq<char>) -> bool {
    if opens_with_backtick(text) {
        r == Err::<String, PlanParseError>(PlanParseError::MarkdownFenced)
    } else {
        r matches Ok(t) && t@ == text
    }
}

fn plain_json(text: &String) -> (r: Result<String, PlanParseError>)
    ensures
        is_plain_json(r, text@),
{
    if looks_markdown(text.as_str()) {
        Err(PlanParseError::MarkdownFenced)
    } else {
        Ok(text.clone())
    }
}

/// The text that holds the delta: a JSON artifact is preferred, the final
/// message is the fallback, and Markdown is refused.
pub fn replan_delta_text(summary: Option<&String>, artifacts: &[PlannerArtifact]) -> (r: Result<
    String,
    PlanParseError,
>)
    ensures
        match first_json(artifacts@) {
            Some(artifact) => match artifact.content {
                Some(text) => is_plain_json(r, text@),
                None => r matches Err(PlanParseError::NoJsonOutput(reason)) && reason@
                    == "json artifact `"@ + artifact.name@ + "` has no inline content"@,
            },
            None => match summary {
                Some(message) => is_plain_json(r, message@),
                None => r matches Err(PlanParseError::NoJsonOutput(reason)) && reason@
                    == "replan planner produced no JSON artifact and no final message"@,
            },
        },
{
    let mut i: usize = 0;
    assert(artifacts@.skip(0) =~= artifacts@);
    while i < artifacts.len()
        invariant
            i <= artifacts@.len(),
            first_json(artifacts@) == first_json(artifacts@.skip(i as int)),
        decreases artifacts.len() - i,
    {
        assert(artifacts@.skip(i as int).drop_first() =~= artifacts@.skip(i + 1));
        let artifact = &artifacts[i];
        let lower = lowered(artifact.name.as_str());
        if artifact.kind == ArtifactKind::Json || has_suffix(lower.as_slice(), ".json") {
            return match &artifact.content {
                Some(text) => plain_json(text),
                None => Err(
                    PlanParseError::NoJsonOutput(
                        "json artifact `".to_owned().concat(artifact.name.as_str()).concat(
                            "` has no inline content",
                        ),
                    ),
                ),
            };
        }
        i += 1;
    }
    match summary {
        Some(message) => plain_json(message),
        None => Err(
            PlanParseError::NoJsonOutput(
                "replan planner produced no JSON artifact and no final message".to_owned(),
            ),
        ),
    }
}

/// A proposal becomes ready exactly when the planner completed with a delta that
/// was read, written down and gave a valid candidate. One that cannot be
/// written down leaves the proposal and is told as an error; a delta that cannot
/// be read or gives no candidate makes it invalid; any other reply makes it
/// failed.
pub proof fn only_a_valid_delta_is_ready(
    update: ReplanUpdate,
    error: Option<ReplanError>,
    reply: PlannerReply,
)
    requires
        is_replan_outcome(update, error, reply),
    ensures
        update is Ready <==> (reply matches PlannerReply::Completed { parsed, written, validated }
            && parsed is Ok && written is Ok && validated is Ok),
        update is Unchanged <==> (reply matches PlannerReply::Completed { parsed, written, .. }
            && parsed is Ok && written is Err),
        update is Invalid <==> (reply matches PlannerReply::Completed {
            parsed,
            written,
            validated,
        } && (parsed is Err || (written is Ok && validated is Err))),
        update is Failed <==> !(reply is Completed),
        error is Some <==> update is Unchanged || reply is NotStarted,
        (update matches ReplanUpdate::Invalid(reason) ==> (
        reply matches PlannerReply::Completed { parsed, validated, .. } && (if parsed is Err {
            parsed->Err_0 == reason
        } else {
            validated->Err_0 == reason
        }))),
        reply matches PlannerReply::Failed(reason) ==> update == ReplanUpdate::Failed(reason),
{
}

/// A proposal goes on to the claim exactly when it is ready, was made for the
/// current graph, and its stored delta can be read. Each refusal tells its own
/// reason.
pub proof fn apply_passes_exactly_on_the_current_graph(
    r: Result<(), ReplanError>,
    row: WorkflowReplanRow,
    current: i64,
    delta: Option<Result<(), String>>,
)
    requires
        is_apply_decision(r, row, current, delta),
    ensures
        r is Ok <==> row.status@ == "ready"@ && row.base_graph_revision == current && (
        delta matches Some(read) && read is Ok),
        row.status@ == "applied"@ <==> r == Err::<(), ReplanError>(
            ReplanError::AlreadyApplied(row.id),
        ),
        row.status@ == "applying"@ <==> r == Err::<(), ReplanError>(
            ReplanError::ApplyInProgress(row.id),
        ),
        row.status@ != "ready"@ && row.status@ != "applied"@ && row.status@ != "applying"@ <==> (r
            is Err && r->Err_0 is NotReady),
        row.status@ == "ready"@ && row.base_graph_revision != current <==> (r is Err && r->Err_0
            is ReplanStale),
{
    reveal_strlit("ready");
    reveal_strlit("applied");
    reveal_strlit("applying");
    assert("ready"@.len() == 5);
    assert("applied"@.len() == 7);
    assert("applying"@.len() == 8);
}

/// Only the caller that got the claim goes on; any other is told why not.
pub proof fn only_the_claim_lets_apply(
    r: Result<(), ReplanError>,
    row: WorkflowReplanRow,
    claim: ReplanApplyResult,
    current: i64,
    status: Option<String>,
)
    requires
        is_replan_claim(r, row, claim, current, status),
    ensures
        r is Ok <==> claim == ReplanApplyResult::Claimed,
        r == Err::<(), ReplanError>(ReplanError::AlreadyApplied(row.id)) <==> claim
            == ReplanApplyResult::AlreadyApplied,
        r == Err::<(), ReplanError>(ReplanError::ApplyInProgress(row.id)) <==> claim
            == ReplanApplyResult::ApplyInProgress,
        (r is Err && r->Err_0 is ReplanStale) <==> claim == ReplanApplyResult::ReplanStale,
        (r is Err && r->Err_0 is NotReady) <==> claim == ReplanApplyResult::NotReady,
{
}

/// The delta is read from the first artifact that holds JSON: one of that kind,
/// or whose name ends in `.json` in any case.
pub proof fn delta_comes_from_the_first_json(artifacts: Seq<PlannerArtifact>, i: int)
    ensures
        first_json(artifacts) is None <==> forall|k: int|
            0 <= k < artifacts.len() ==> (#[trigger] artifacts[k]).kind != ArtifactKind::Json
                && !ends_with(ascii_lower(artifacts[k].name@), ".json"@),
        0 <= i < artifacts.len() && (artifacts[i].kind == ArtifactKind::Json || ends_with(
            ascii_lower(artifacts[i].name@),
            ".json"@,
        )) && (forall|k: int|
            0 <= k < i ==> (#[trigger] artifacts[k]).kind != ArtifactKind::Json && !ends_with(
                ascii_lower(artifacts[k].name@),
                ".json"@,
            )) ==> first_json(artifacts) == Some(artifacts[i]),
    decreases artifacts.len(),
{
    if artifacts.len() > 0 {
        let rest = artifacts.drop_first();
        delta_comes_from_the_first_json(rest, i - 1);
        if first_json(artifacts) is None {
            assert forall|k: int| 0 <= k < artifacts.len() implies (#[trigger] artifacts[k]).kind
                != ArtifactKind::Json && !ends_with(
                ascii_lower(artifacts[k].name@),
                ".json"@,
            ) by {
                if k > 0 {
                    assert(rest[k - 1] == artifacts[k]);
                }
            }
        } else if !is_json_artifact(artifacts[0]) {
            let k = choose|k: int|
                0 <= k < rest.len() && !((#[trigger] rest[k]).kind != ArtifactKind::Json
                    && !ends_with(ascii_lower(rest[k].name@), ".json"@));
            assert(artifacts[k + 1] == rest[k]);
        }
        if 0 < i < artifacts.len() && (artifacts[i].kind == ArtifactKind::Json || ends_with(
            ascii_lower(artifacts[i].name@),
            ".json"@,
        )) && (forall|k: int|
            0 <= k < i ==> (#[trigger] artifacts[k]).kind != ArtifactKind::Json && !ends_with(
                ascii_lower(artifacts[k].name@),
                ".json"@,
            )) {
            assert(!is_json_artifact(artifacts[0]));
            assert(rest[i - 1] == artifacts[i]);
            assert forall|k: int| 0 <= k < i - 1 implies (#[trigger] rest[k]).kind
                != ArtifactKind::Json && !ends_with(ascii_lower(rest[k].name@), ".json"@) by {
                assert(rest[k] == artifacts[k + 1]);
            }
        }
    }
}

/// A text is refused as Markdown exactly when its first character that is not
/// white space is a backtick; any other text is read as it stands.
pub proof fn fenced_text_is_refused(r: Result<String, PlanParseError>, text: Seq<char>, k: int)
    requires
        is_plain_json(r, text),
        0 <= k < text.len(),
        !white_space(text[k]),
        forall|i: int| 0 <= i < k ==> white_space(#[trigger] text[i]),
    ensures
        r is Err <==> text[k] == '`',
        r is Err ==> r->Err_0 is MarkdownFenced,
        r matches Ok(read) ==> read@ == text,
{
    first_text_is_kept(text, k);
}

proof fn first_text_is_kept(text: Seq<char>, k: int)
    requires
        0 <= k < text.len(),
        !white_space(text[k]),
        forall|i: int| 0 <= i < k ==> white_space(#[trigger] text[i]),
    ensures
        leading_space(text) == k,
        trimmed_start(text).len() > 0,
        trimmed_start(text)[0] == text[k],
    decreases k,
{
    if k > 0 {
        let rest = text.drop_first();
        assert(white_space(text[0]));
        assert(rest[k - 1] == text[k]);
        assert forall|i: int| 0 <= i < k - 1 implies white_space(#[trigger] rest[i]) by {
            assert(rest[i] == text[i + 1]);
        }
        first_text_is_kept(rest, k - 1);
    }
}

/// The message of an error names what the error is about: ids, statuses, numbers
/// and reasons.
#[verifier::rlimit(40)]
pub proof fn replan_messages_name_their_subject(e: ReplanError)
    ensures
        e matches ReplanError::NotFound(id)
            ==> contains_text(replan_error_text(e), id_text(id.bits)),
        e matches ReplanError::WorkflowNotFound(id)
            ==> contains_text(replan_error_text(e), id_text(id.bits)),
        e matches ReplanError::NotDag(id) ==> contains_text(replan_error_text(e), id_text(id.bits)),
        e matches ReplanError::NotReplannable(id, status)
            ==> contains_text(replan_error_text(e), id_text(id.bits))
            && contains_text(replan_error_text(e), status@),
        e matches ReplanError::NotReady(id, status)
            ==> contains_text(replan_error_text(e), id_text(id.bits))
            && contains_text(replan_error_text(e), status@),
        e matches ReplanError::AlreadyApplied(id)
            ==> contains_text(replan_error_text(e), id_text(id.bits)),
        e matches ReplanError::ApplyInProgress(id)
            ==> contains_text(replan_error_text(e), id_text(id.bits)),
        e matches ReplanError::ReplanStale { replan_id, base, current }
            ==> contains_text(replan_error_text(e), id_text(replan_id.bits))
            && contains_text(replan_error_text(e), decimal_int(base as int))
            && contains_text(replan_error_text(e), decimal_int(current as int)),
        e matches ReplanError::InvalidDelta(reason)
            ==> contains_text(replan_error_text(e), reason@),
        e matches ReplanError::InvalidCandidate(reason)
            ==> contains_text(replan_error_text(e), reason@),
        e matches ReplanError::PolicyViolation(id, violation)
            ==> contains_text(replan_error_text(e), id_text(id.bits))
            && contains_text(replan_error_text(e), violation@),
        e matches ReplanError::PlannerTaskFailed(reason)
            ==> contains_text(replan_error_text(e), reason@),
        e matches ReplanError::Storage(message) ==> contains_text(replan_error_text(e), message@),
        e matches ReplanError::Workflow(message) ==> contains_text(replan_error_text(e), message@),
        e matches ReplanError::Orchestrator(message)
            ==> contains_text(replan_error_text(e), message@),
{
    match e {
        ReplanError::NotFound(id) => {
            let t0 = "replan `"@;
            let t1 = t0 + id_text(id.bits);
            let t2 = t1 + "` not found"@;
            assert(replan_error_text(e) == t2);
            told_last(t0, id_text(id.bits));
            longer_texts_contain_the_same(t1, id_text(id.bits), "` not found"@);
        },
        ReplanError::WorkflowNotFound(id) => {
            let t0 = "workflow `"@;
            let t1 = t0 + id_text(id.bits);
            let t2 = t1 + "` not found"@;
            assert(replan_error_text(e) == t2);
            told_last(t0, id_text(id.bits));
            longer_texts_contain_the_same(t1, id_text(id.bits), "` not found"@);
        },
        ReplanError::NotDag(id) => {
            let t0 = "workflow `"@;
            let t1 = t0 + id_text(id.bits);
            let t2 = t1 + "` has no DAG to replan"@;
            assert(replan_error_text(e) == t2);
            told_last(t0, id_text(id.bits));
            longer_texts_contain_the_same(t1, id_text(id.bits), "` has no DAG to replan"@);
        },
        ReplanError::NotReplannable(id, status) => {
            let t0 = "workflow `"@;
            let t1 = t0 + id_text(id.bits);
            let t2 = t1 + "` cannot be replanned (status `"@;
            let t3 = t2 + status@;
            let t4 = t3 + "`); only running or interrupted workflows replan"@;
            assert(replan_error_text(e) == t4);
            told_last(t0, id_text(id.bits));
            longer_texts_contain_the_same(t1, id_text(id.bits), "` cannot be replanned (status `"@);
            longer_texts_contain_the_same(t2, id_text(id.bits), status@);
            longer_texts_contain_the_same(
                t3,
                id_text(id.bits),
                "`); only running or interrupted workflows replan"@,
            );
            told_last(t2, status@);
            longer_texts_contain_the_same(
                t3,
                status@,
                "`); only running or interrupted workflows replan"@,
            );
        },
        ReplanError::NotReady(id, status) => {
            let t0 = "replan `"@;
            let t1 = t0 + id_text(id.bits);
            let t2 = t1 + "` is not ready (status `"@;
            let t3 = t2 + status@;
            let t4 = t3 + "`); only ready proposals apply"@;
            assert(replan_error_text(e) == t4);
            told_last(t0, id_text(id.bits));
            longer_texts_contain_the_same(t1, id_text(id.bits), "` is not ready (status `"@);
            longer_texts_contain_the_same(t2, id_text(id.bits), status@);
            longer_texts_contain_the_same(t3, id_text(id.bits), "`); only ready proposals apply"@);
            told_last(t2, status@);
            longer_texts_contain_the_same(t3, status@, "`); only ready proposals apply"@);
        },
        ReplanError::AlreadyApplied(id) => {
            let t0 = "replan `"@;
            let t1 = t0 + id_text(id.bits);
            let t2 = t1 + "` has already been applied"@;
            assert(replan_error_text(e) == t2);
            told_last(t0, id_text(id.bits));
            longer_texts_contain_the_same(t1, id_text(id.bits), "` has already been applied"@);
        },
        ReplanError::ApplyInProgress(id) => {
            let t0 = "replan `"@;
            let t1 = t0 + id_text(id.bits);
            let t2 = t1 + "` apply is already in progress by another caller"@;
            assert(replan_error_text(e) == t2);
            told_last(t0, id_text(id.bits));
            longer_texts_contain_the_same(
                t1,
                id_text(id.bits),
                "` apply is already in progress by another caller"@,
            );
        },
        ReplanError::ReplanStale { replan_id, base, current } => {
            let t0 = "replan `"@;
            let t1 = t0 + id_text(replan_id.bits);
            let t2 = t1 + "` is stale (base graph revision "@;
            let t3 = t2 + decimal_int(base as int);
            let t4 = t3 + " != current "@;
            let t5 = t4 + decimal_int(current as int);
            let t6 = t5 + "); re-plan from the current graph"@;
            assert(replan_error_text(e) == t6);
            told_last(t0, id_text(replan_id.bits));
            longer_texts_contain_the_same(
                t1,
                id_text(replan_id.bits),
                "` is stale (base graph revision "@,
            );
            longer_texts_contain_the_same(t2, id_text(replan_id.bits), decimal_int(base as int));
            longer_texts_contain_the_same(t3, id_text(replan_id.bits), " != current "@);
            longer_texts_contain_the_same(t4, id_text(replan_id.bits), decimal_int(current as int));
            longer_texts_contain_the_same(
                t5,
                id_text(replan_id.bits),
                "); re-plan from the current graph"@,
            );
            told_last(t2, decimal_int(base as int));
            longer_texts_contain_the_same(t3, decimal_int(base as int), " != current "@);
            longer_texts_contain_the_same(
                t4,
                decimal_int(base as int),
                decimal_int(current as int),
            );
            longer_texts_contain_the_same(
                t5,
                decimal_int(base as int),
                "); re-plan from the current graph"@,
            );
            told_last(t4, decimal_int(current as int));
            longer_texts_contain_the_same(
                t5,
                decimal_int(current as int),
                "); re-plan from the current graph"@,
            );
        },
        ReplanError::InvalidDelta(reason) => {
            let t0 = "invalid replan delta: "@;
            let t1 = t0 + reason@;
            assert(replan_error_text(e) == t1);
            told_last(t0, reason@);
        },
        ReplanError::InvalidCandidate(reason) => {
            let t0 = "replan candidate invalid: "@;
            let t1 = t0 + reason@;
            assert(replan_error_text(e) == t1);
            told_last(t0, reason@);
        },
        ReplanError::PolicyViolation(id, violation) => {
            let t0 = "replan `"@;
            let t1 = t0 + id_text(id.bits);
            let t2 = t1 + "` violates policy: "@;
            let t3 = t2 + violation@;
            assert(replan_error_text(e) == t3);
            told_last(t0, id_text(id.bits));
            longer_texts_contain_the_same(t1, id_text(id.bits), "` violates policy: "@);
            longer_texts_contain_the_same(t2, id_text(id.bits), violation@);
            told_last(t2, violation@);
        },
        ReplanError::PlannerTaskFailed(reason) => {
            let t0 = "replan planner task failed: "@;
            let t1 = t0 + reason@;
            assert(replan_error_text(e) == t1);
            told_last(t0, reason@);
        },
        ReplanError::Storage(message) => {
            let t0 = "storage error: "@;
            let t1 = t0 + message@;
            assert(replan_error_text(e) == t1);
            told_last(t0, message@);
        },
        ReplanError::Workflow(message) => {
            let t0 = "workflow error: "@;
            let t1 = t0 + message@;
            assert(replan_error_text(e) == t1);
            told_last(t0, message@);
        },
        ReplanError::Orchestrator(message) => {
            let t0 = "orchestrator error: "@;
            let t1 = t0 + message@;
            assert(replan_error_text(e) == t1);
            told_last(t0, message@);
        },
        _ => {},
    }
}

proof fn told_last(head: Seq<char>, part: Seq<char>)
    ensures
        contains_text(head + part, part),
{
    parts_stand_where_they_are(head, part, Seq::empty());
    assert(head + part + Seq::<char>::empty() =~= head + part);
}

/// A status is written under a text of its own, and read from no other.
pub proof fn replan_statuses_have_their_texts(s: ReplanStatus)
    ensures
        replan_status_text(s) == "generating"@ <==> s == ReplanStatus::Generating,
        replan_status_text(s) == "ready"@ <==> s == ReplanStatus::Ready,
        replan_status_text(s) == "applying"@ <==> s == ReplanStatus::Applying,
        replan_status_text(s) == "applied"@ <==> s == ReplanStatus::Applied,
        replan_status_text(s) == "invalid"@ <==> s == ReplanStatus::Invalid,
        replan_status_text(s) == "failed"@ <==> s == ReplanStatus::Failed,
        replan_status_text(s) == "rejected"@ <==> s == ReplanStatus::Rejected,
{
    if replan_status_text(s) == replan_status_text(ReplanStatus::Generating) {
        replan_status_text_injective(s, ReplanStatus::Generating);
    }
    if replan_status_text(s) == replan_status_text(ReplanStatus::Ready) {
        replan_status_text_injective(s, ReplanStatus::Ready);
    }
    if replan_status_text(s) == replan_status_text(ReplanStatus::Applying) {
        replan_status_text_injective(s, ReplanStatus::Applying);
    }
    if replan_status_text(s) == replan_status_text(ReplanStatus::Applied) {
        replan_status_text_injective(s, ReplanStatus::Applied);
    }
    if replan_status_text(s) == replan_status_text(ReplanStatus::Invalid) {
        replan_status_text_injective(s, ReplanStatus::Invalid);
    }
    if replan_status_text(s) == replan_status_text(ReplanStatus::Failed) {
        replan_status_text_injective(s, ReplanStatus::Failed);
    }
    if replan_status_text(s) == replan_status_text(ReplanStatus::Rejected) {
        replan_status_text_injective(s, ReplanStatus::Rejected);
    }
}

} // verus!
