//! Decisions of the daemon's HTTP API: the answer to each error, the gates of
//! requests, and what is told of tasks.

use vstd::prelude::*;
use vstd::string::*;
use vstd::utf8::*;

use crate::a2a::{TaskFault, TaskFaultKind};
use crate::cleanup::{cleanup_error_text, CleanupError, WorkspaceFaultKind};
use crate::cross_context::{PriorArtifactSummary, PriorTaskSummary};
use crate::ids::{id_text, rfc3339_text, Uuid};
use crate::model::{status_text, AgentTask, Artifact, TaskStatus};
use crate::planner::{plan_error_text, PlanError};
use crate::protocol::{ApiError, HealthResponse, LiveTaskInfo, DAEMON_PROTOCOL_VERSION};
use crate::protocol::WorkflowReplayResponse;
use crate::provenance_service::ReplayReport;
use crate::recovery::{recovery_error_text, RecoveryError};
use crate::replan::{replan_error_text, ReplanError};
use crate::text::{clone_opt, decimal, opt_text, same_text, show_usize};
use crate::workflow::types::{workflow_error_text, WorkflowError};
use crate::text::{contains_text, ends_with, parts_stand_where_they_are};

verus! {

/// An answer other than success.
#[derive(Debug, PartialEq, Eq)]
pub struct ErrorResponse {
    /// The HTTP status.
    pub status: u16,
    pub error: ApiError,
}

/// Whether an answer has a status, a code and a message.
pub open spec fn answers(r: ErrorResponse, answer: (u16, Seq<char>), message: Seq<char>) -> bool {
    &&& r.status == answer.0
    &&& r.error.error.code@ == answer.1
    &&& r.error.error.message@ == message
    &&& r.error.error.details is None
}

fn respond(status: u16, code: &str, message: String) -> (r: ErrorResponse)
    ensures
        answers(r, (status, code@), message@),
{
    ErrorResponse { status, error: ApiError::new(code, message) }
}

/// The answer to a request without the token of the daemon.
pub fn unauthorized() -> (r: ErrorResponse)
    ensures
        answers(r, (401, "unauthorized"@), "invalid or missing bearer token"@),
{
    respond(401, "unauthorized", "invalid or missing bearer token".to_owned())
}

/// The answer to an error of the storage layer, whose details are kept back.
pub fn storage_error_response() -> (r: ErrorResponse)
    ensures
        answers(r, (500, "daemon_internal"@), "storage error"@),
{
    respond(500, "daemon_internal", "storage error".to_owned())
}

/// What a request can fail to find.
#[derive(Clone, Copy, Debug, PartialEq, Eq, Structural)]
pub enum Missing {
    Endpoint,
    LiveTask,
    Task,
    Workflow,
    Plan,
    Replan,
    Recovery,
    Evaluation,
    Competition,
    Apply,
}

/// The code and message of the answer where something is not found.
pub open spec fn missing_answer(what: Missing) -> (Seq<char>, Seq<char>) {
    match what {
        Missing::Endpoint => ("invalid_request"@, "unknown endpoint"@),
        Missing::LiveTask => ("task_not_found"@, "task is not live"@),
        Missing::Task => ("task_not_found"@, "task not found"@),
        Missing::Workflow => ("workflow_not_found"@, "workflow not found"@),
        Missing::Plan => ("plan_not_found"@, "plan not found"@),
        Missing::Replan => ("replan_not_found"@, "replan not found"@),
        Missing::Recovery => ("recovery_not_found"@, "recovery not found"@),
        Missing::Evaluation => ("evaluation_not_found"@, "evaluation group not found"@),
        Missing::Competition => ("competition_not_found"@, "competition group not found"@),
        Missing::Apply => ("apply_not_found"@, "apply not found"@),
    }
}

/// The answer where something is not found.
pub fn not_found(what: Missing) -> (r: ErrorResponse)
    ensures
        answers(r, (404, missing_answer(what).0), missing_answer(what).1),
{
    let (code, message): (&str, &str) = match what {
        Missing::Endpoint => ("invalid_request", "unknown endpoint"),
        Missing::LiveTask => ("task_not_found", "task is not live"),
        Missing::Task => ("task_not_found", "task not found"),
        Missing::Workflow => ("workflow_not_found", "workflow not found"),
        Missing::Plan => ("plan_not_found", "plan not found"),
        Missing::Replan => ("replan_not_found", "replan not found"),
        Missing::Recovery => ("recovery_not_found", "recovery not found"),
        Missing::Evaluation => ("evaluation_not_found", "evaluation group not found"),
        Missing::Competition => ("competition_not_found", "competition group not found"),
        Missing::Apply => ("apply_not_found", "apply not found"),
    };
    respond(404, code, message.to_owned())
}

/// The answer to a request for a task that this daemon does not own.
pub fn task_not_live() -> (r: ErrorResponse)
    ensures
        answers(r, (409, "task_not_live"@), "task is not owned by the current daemon runtime"@),
{
    respond(409, "task_not_live", "task is not owned by the current daemon runtime".to_owned())
}

/// The answer to a failure inside the daemon, with the given message.
pub fn internal_error(message: String) -> (r: ErrorResponse)
    ensures
        answers(r, (500, "daemon_internal"@), message@),
{
    respond(500, "daemon_internal", message)
}

/// The answer to a request for a session that another task holds.
pub fn session_busy(message: String) -> (r: ErrorResponse)
    ensures
        answers(r, (409, "session_busy"@), message@),
{
    respond(409, "session_busy", message)
}

/// What the health endpoint tells.
pub fn health(instance_id: &Uuid) -> (r: HealthResponse)
    ensures
        r.protocol_version == DAEMON_PROTOCOL_VERSION,
        r.instance_id@ == id_text(instance_id.bits),
        r.status@ == "ok"@,
{
    HealthResponse {
        protocol_version: DAEMON_PROTOCOL_VERSION,
        instance_id: instance_id.to_text(),
        status: "ok".to_owned(),
    }
}

/// The message that an error of the task layer is answered with: no internal
/// details for a missing workspace or agent.
pub open spec fn task_fault_text(e: TaskFault) -> Seq<char> {
    match e.kind {
        TaskFaultKind::WorkspaceUnavailable(path) => "workspace unavailable: "@ + path@,
        TaskFaultKind::AgentNotFound(agent) => "agent `"@ + agent@ + "` not found"@,
        _ => e.message@,
    }
}

/// The status and code of an error of the task layer.
pub open spec fn task_fault_answer(e: TaskFault) -> (u16, Seq<char>) {
    match e.kind {
        TaskFaultKind::AgentNotFound(_) => (404, "agent_not_found"@),
        TaskFaultKind::TaskNotFound => (404, "task_not_found"@),
        TaskFaultKind::AgentSessionNotFound => (404, "task_not_found"@),
        TaskFaultKind::NativeSessionUnavailable => (409, "native_session_unavailable"@),
        TaskFaultKind::WorkspaceUnavailable(_) => (409, "workspace_unavailable"@),
        TaskFaultKind::Workspace => (409, "workspace_unavailable"@),
        _ => (500, "daemon_internal"@),
    }
}

/// The answer to an error of the task layer.
pub fn api_error_from_task(e: &TaskFault) -> (r: ErrorResponse)
    ensures
        answers(r, task_fault_answer(*e), task_fault_text(*e)),
{
    let (status, code): (u16, &str) = match &e.kind {
        TaskFaultKind::AgentNotFound(_) => (404, "agent_not_found"),
        TaskFaultKind::TaskNotFound => (404, "task_not_found"),
        TaskFaultKind::AgentSessionNotFound => (404, "task_not_found"),
        TaskFaultKind::NativeSessionUnavailable => (409, "native_session_unavailable"),
        TaskFaultKind::WorkspaceUnavailable(_) => (409, "workspace_unavailable"),
        TaskFaultKind::Workspace => (409, "workspace_unavailable"),
        _ => (500, "daemon_internal"),
    };
    let message = match &e.kind {
        TaskFaultKind::WorkspaceUnavailable(path) => "workspace unavailable: ".to_owned().concat(
            path.as_str(),
        ),
        TaskFaultKind::AgentNotFound(agent) => "agent `".to_owned().concat(agent.as_str()).concat(
            "` not found",
        ),
        _ => e.message.clone(),
    };
    respond(status, code, message)
}

/// The status and code of an error of the workflow service.
pub open spec fn workflow_error_answer(e: WorkflowError) -> (u16, Seq<char>) {
    match e {
        WorkflowError::NotFound(_) => (404, "workflow_not_found"@),
        WorkflowError::NotRunning(_) => (409, "workflow_not_running"@),
        WorkflowError::NotResumable(..) => (409, "workflow_not_resumable"@),
        WorkflowError::DirectoryUninitialized => (503, "daemon_not_ready"@),
        WorkflowError::InvalidState(_) => (500, "workflow_invalid_state"@),
        _ => (500, "daemon_internal"@),
    }
}

/// The answer to an error of the workflow service.
pub fn workflow_error_response(e: &WorkflowError) -> (r: ErrorResponse)
    ensures
        answers(r, workflow_error_answer(*e), workflow_error_text(*e)),
{
    let (status, code): (u16, &str) = match e {
        WorkflowError::NotFound(_) => (404, "workflow_not_found"),
        WorkflowError::NotRunning(_) => (409, "workflow_not_running"),
        WorkflowError::NotResumable(..) => (409, "workflow_not_resumable"),
        WorkflowError::DirectoryUninitialized => (503, "daemon_not_ready"),
        WorkflowError::InvalidState(_) => (500, "workflow_invalid_state"),
        _ => (500, "daemon_internal"),
    };
    respond(status, code, e.message())
}

/// The status and code of an error of the plan service.
pub open spec fn plan_error_answer(e: PlanError) -> (u16, Seq<char>) {
    match e {
        PlanError::NotFound(_) => (404, "plan_not_found"@),
        PlanError::NotReady(..) => (409, "plan_not_ready"@),
        PlanError::AlreadyExecuted(_) => (409, "plan_already_executed"@),
        PlanError::ExecutionInProgress(_) => (409, "plan_execution_in_progress"@),
        PlanError::NotEditable(..) => (409, "plan_not_editable"@),
        PlanError::PolicyViolation(..) => (422, "plan_policy_violation"@),
        PlanError::DirectoryUninitialized => (503, "daemon_not_ready"@),
        PlanError::InvalidPlannerOutput(_) => (422, "plan_invalid"@),
        PlanError::InvalidPlan(_) => (422, "plan_invalid"@),
        PlanError::PlannerTaskFailed(_) => (502, "planner_task_failed"@),
        _ => (500, "daemon_internal"@),
    }
}

/// The answer to an error of the plan service.
pub fn plan_error_response(e: &PlanError) -> (r: ErrorResponse)
    ensures
        answers(r, plan_error_answer(*e), plan_error_text(*e)),
{
    let (status, code): (u16, &str) = match e {
        PlanError::NotFound(_) => (404, "plan_not_found"),
        PlanError::NotReady(..) => (409, "plan_not_ready"),
        PlanError::AlreadyExecuted(_) => (409, "plan_already_executed"),
        PlanError::ExecutionInProgress(_) => (409, "plan_execution_in_progress"),
        PlanError::NotEditable(..) => (409, "plan_not_editable"),
        PlanError::PolicyViolation(..) => (422, "plan_policy_violation"),
        PlanError::DirectoryUninitialized => (503, "daemon_not_ready"),
        PlanError::InvalidPlannerOutput(_) => (422, "plan_invalid"),
        PlanError::InvalidPlan(_) => (422, "plan_invalid"),
        PlanError::PlannerTaskFailed(_) => (502, "planner_task_failed"),
        _ => (500, "daemon_internal"),
    };
    respond(status, code, e.message())
}

/// The status and code of an error of the replan service.
pub open spec fn replan_error_answer(e: ReplanError) -> (u16, Seq<char>) {
    match e {
        ReplanError::NotFound(_) => (404, "replan_not_found"@),
        ReplanError::WorkflowNotFound(_) => (404, "workflow_not_found"@),
        ReplanError::NotDag(_) => (422, "workflow_not_dag"@),
        ReplanError::NotReplannable(..) => (409, "workflow_not_replannable"@),
        ReplanError::NotReady(..) => (409, "replan_not_ready"@),
        ReplanError::AlreadyApplied(_) => (409, "replan_already_applied"@),
        ReplanError::ApplyInProgress(_) => (409, "replan_apply_in_progress"@),
        ReplanError::ReplanStale { .. } => (409, "replan_stale"@),
        ReplanError::InvalidDelta(_) => (422, "replan_invalid"@),
        ReplanError::InvalidCandidate(_) => (422, "replan_invalid"@),
        ReplanError::PolicyViolation(..) => (422, "replan_policy_violation"@),
        ReplanError::DirectoryUninitialized => (503, "daemon_not_ready"@),
        ReplanError::PlannerTaskFailed(_) => (502, "replan_planner_failed"@),
        _ => (500, "daemon_internal"@),
    }
}

/// The answer to an error of the replan service.
pub fn replan_error_response(e: &ReplanError) -> (r: ErrorResponse)
    ensures
        answers(r, replan_error_answer(*e), replan_error_text(*e)),
{
    let (status, code): (u16, &str) = match e {
        ReplanError::NotFound(_) => (404, "replan_not_found"),
        ReplanError::WorkflowNotFound(_) => (404, "workflow_not_found"),
        ReplanError::NotDag(_) => (422, "workflow_not_dag"),
        ReplanError::NotReplannable(..) => (409, "workflow_not_replannable"),
        ReplanError::NotReady(..) => (409, "replan_not_ready"),
        ReplanError::AlreadyApplied(_) => (409, "replan_already_applied"),
        ReplanError::ApplyInProgress(_) => (409, "replan_apply_in_progress"),
        ReplanError::ReplanStale { .. } => (409, "replan_stale"),
        ReplanError::InvalidDelta(_) => (422, "replan_invalid"),
        ReplanError::InvalidCandidate(_) => (422, "replan_invalid"),
        ReplanError::PolicyViolation(..) => (422, "replan_policy_violation"),
        ReplanError::DirectoryUninitialized => (503, "daemon_not_ready"),
        ReplanError::PlannerTaskFailed(_) => (502, "replan_planner_failed"),
        _ => (500, "daemon_internal"),
    };
    respond(status, code, e.message())
}

/// The status and code of an error of the recovery service.
pub open spec fn recovery_error_answer(e: RecoveryError) -> (u16, Seq<char>) {
    match e {
        RecoveryError::NotFound(_) => (404, "recovery_not_found"@),
        RecoveryError::WorkflowNotFound(_) => (404, "workflow_not_found"@),
        RecoveryError::WorkflowNotFailed(..) => (409, "workflow_not_failed"@),
        RecoveryError::NoFailedNode(_) => (422, "no_failed_node"@),
        RecoveryError::RecoveryLimitReached { .. } => (409, "recovery_limit_reached"@),
        RecoveryError::RecoveryBudgetExceeded { .. } => (422, "recovery_budget_exceeded"@),
        RecoveryError::NotReady(..) => (409, "recovery_not_ready"@),
        RecoveryError::AlreadyExecuted(_) => (409, "recovery_already_executed"@),
        RecoveryError::AlreadyPending { .. } => (409, "recovery_already_pending"@),
        RecoveryError::ExecutionInProgress(_) => (409, "recovery_execution_in_progress"@),
        RecoveryError::InvalidPlan(_) => (422, "recovery_invalid"@),
        RecoveryError::PolicyViolation(..) => (422, "recovery_policy_violation"@),
        RecoveryError::DirectoryUninitialized => (503, "daemon_not_ready"@),
        RecoveryError::AnalyzerTaskFailed(_) => (502, "failure_analyzer_failed"@),
        _ => (500, "daemon_internal"@),
    }
}

/// The answer to an error of the recovery service.
pub fn recovery_error_response(e: &RecoveryError) -> (r: ErrorResponse)
    ensures
        answers(r, recovery_error_answer(*e), recovery_error_text(*e)),
{
    let (status, code): (u16, &str) = match e {
        RecoveryError::NotFound(_) => (404, "recovery_not_found"),
        RecoveryError::WorkflowNotFound(_) => (404, "workflow_not_found"),
        RecoveryError::WorkflowNotFailed(..) => (409, "workflow_not_failed"),
        RecoveryError::NoFailedNode(_) => (422, "no_failed_node"),
        RecoveryError::RecoveryLimitReached { .. } => (409, "recovery_limit_reached"),
        RecoveryError::RecoveryBudgetExceeded { .. } => (422, "recovery_budget_exceeded"),
        RecoveryError::NotReady(..) => (409, "recovery_not_ready"),
        RecoveryError::AlreadyExecuted(_) => (409, "recovery_already_executed"),
        RecoveryError::AlreadyPending { .. } => (409, "recovery_already_pending"),
        RecoveryError::ExecutionInProgress(_) => (409, "recovery_execution_in_progress"),
        RecoveryError::InvalidPlan(_) => (422, "recovery_invalid"),
        RecoveryError::PolicyViolation(..) => (422, "recovery_policy_violation"),
        RecoveryError::DirectoryUninitialized => (503, "daemon_not_ready"),
        RecoveryError::AnalyzerTaskFailed(_) => (502, "failure_analyzer_failed"),
        _ => (500, "daemon_internal"),
    };
    respond(status, code, e.message())
}

/// What kind of error the apply layer had.
#[derive(Clone, Copy, Debug, PartialEq, Eq, Structural)]
pub enum ApplyFaultKind {
    TaskNotFound,
    TaskHasNoSession,
    TaskHasNoWorkspace,
    WorkflowNotFound,
    AmbiguousApplySource,
    WorkflowNotCompleted,
    ReviewNotApproved,
    SourceRepositoryMissing,
    SourceRepositoryDirty,
    SourceRevisionChanged,
    ApplyConflict,
    UnsafeApplyPath,
    SourceFileMissing,
    ApplyCheckFailed,
    ApplyFailed,
    NoChanges,
    AlreadyApplied,
    ApplyInProgress,
    CopyFailed,
    ApplyRollbackFailed,
    Workspace,
    Storage,
    Internal,
}

/// An error of the apply layer, with its message.
#[derive(Debug, PartialEq, Eq)]
pub struct ApplyFault {
    pub kind: ApplyFaultKind,
    pub message: String,
}

/// The message that an error of the apply layer is answered with: internal
/// failures keep their details back.
pub open spec fn apply_fault_text(e: ApplyFault) -> Seq<char> {
    match e.kind {
        ApplyFaultKind::Storage | ApplyFaultKind::Internal => "apply failed (internal error)"@,
        _ => e.message@,
    }
}

/// The status and code of an error of the apply layer.
pub open spec fn apply_fault_answer(e: ApplyFault) -> (u16, Seq<char>) {
    match e.kind {
        ApplyFaultKind::TaskNotFound => (404, "task_not_found"@),
        ApplyFaultKind::TaskHasNoSession => (409, "task_not_applicable"@),
        ApplyFaultKind::TaskHasNoWorkspace => (409, "task_not_applicable"@),
        ApplyFaultKind::WorkflowNotFound => (404, "workflow_not_found"@),
        ApplyFaultKind::AmbiguousApplySource => (409, "ambiguous_apply_source"@),
        ApplyFaultKind::WorkflowNotCompleted => (409, "workflow_not_completed"@),
        ApplyFaultKind::ReviewNotApproved => (409, "review_not_approved"@),
        ApplyFaultKind::SourceRepositoryMissing => (409, "source_repository_missing"@),
        ApplyFaultKind::SourceRepositoryDirty => (409, "source_repository_dirty"@),
        ApplyFaultKind::SourceRevisionChanged => (409, "source_revision_changed"@),
        ApplyFaultKind::ApplyConflict => (409, "apply_conflict"@),
        ApplyFaultKind::UnsafeApplyPath => (409, "unsafe_apply_path"@),
        ApplyFaultKind::SourceFileMissing => (409, "source_file_missing"@),
        ApplyFaultKind::ApplyCheckFailed => (409, "apply_check_failed"@),
        ApplyFaultKind::ApplyFailed => (500, "apply_failed"@),
        ApplyFaultKind::NoChanges => (409, "no_changes"@),
        ApplyFaultKind::AlreadyApplied => (409, "already_applied"@),
        ApplyFaultKind::ApplyInProgress => (409, "apply_in_progress"@),
        ApplyFaultKind::CopyFailed => (500, "copy_failed"@),
        ApplyFaultKind::ApplyRollbackFailed => (500, "apply_rollback_failed"@),
        ApplyFaultKind::Workspace => (409, "workspace_unavailable"@),
        ApplyFaultKind::Storage => (500, "daemon_internal"@),
        ApplyFaultKind::Internal => (500, "daemon_internal"@),
    }
}

/// The answer to an error of the apply layer.
pub fn apply_error_response(e: &ApplyFault) -> (r: ErrorResponse)
    ensures
        answers(r, apply_fault_answer(*e), apply_fault_text(*e)),
{
    let (status, code): (u16, &str) = match e.kind {
        ApplyFaultKind::TaskNotFound => (404, "task_not_found"),
        ApplyFaultKind::TaskHasNoSession => (409, "task_not_applicable"),
        ApplyFaultKind::TaskHasNoWorkspace => (409, "task_not_applicable"),
        ApplyFaultKind::WorkflowNotFound => (404, "workflow_not_found"),
        ApplyFaultKind::AmbiguousApplySource => (409, "ambiguous_apply_source"),
        ApplyFaultKind::WorkflowNotCompleted => (409, "workflow_not_completed"),
        ApplyFaultKind::ReviewNotApproved => (409, "review_not_approved"),
        ApplyFaultKind::SourceRepositoryMissing => (409, "source_repository_missing"),
        ApplyFaultKind::SourceRepositoryDirty => (409, "source_repository_dirty"),
        ApplyFaultKind::SourceRevisionChanged => (409, "source_revision_changed"),
        ApplyFaultKind::ApplyConflict => (409, "apply_conflict"),
        ApplyFaultKind::UnsafeApplyPath => (409, "unsafe_apply_path"),
        ApplyFaultKind::SourceFileMissing => (409, "source_file_missing"),
        ApplyFaultKind::ApplyCheckFailed => (409, "apply_check_failed"),
        ApplyFaultKind::ApplyFailed => (500, "apply_failed"),
        ApplyFaultKind::NoChanges => (409, "no_changes"),
        ApplyFaultKind::AlreadyApplied => (409, "already_applied"),
        ApplyFaultKind::ApplyInProgress => (409, "apply_in_progress"),
        ApplyFaultKind::CopyFailed => (500, "copy_failed"),
        ApplyFaultKind::ApplyRollbackFailed => (500, "apply_rollback_failed"),
        ApplyFaultKind::Workspace => (409, "workspace_unavailable"),
        ApplyFaultKind::Storage => (500, "daemon_internal"),
        ApplyFaultKind::Internal => (500, "daemon_internal"),
    };
    let message = match e.kind {
        ApplyFaultKind::Storage | ApplyFaultKind::Internal =>
            "apply failed (internal error)".to_owned(),
        _ => e.message.clone(),
    };
    respond(status, code, message)
}

/// The message that a cleanup error is answered with: internal failures keep
/// their details back.
pub open spec fn cleanup_fault_text(e: CleanupError) -> Seq<char> {
    match e {
        CleanupError::Storage(_) | CleanupError::Task(_) | CleanupError::Internal(_) =>
            "cleanup failed (internal error)"@,
        _ => cleanup_error_text(e),
    }
}

/// The status and code of a cleanup error.
pub open spec fn cleanup_answer(e: CleanupError) -> (u16, Seq<char>) {
    match e {
        CleanupError::TaskNotFound(_) => (404, "task_not_found"@),
        CleanupError::TaskHasNoWorkspace(_) => (409, "task_not_applicable"@),
        CleanupError::WorkflowNotFound(_) => (404, "workflow_not_found"@),
        CleanupError::WorkflowStillActive(..) => (409, "workflow_still_active"@),
        CleanupError::Workspace(fault) => match fault.kind {
            WorkspaceFaultKind::NotSafeToRemove => (409, "workspace_not_safe_to_remove"@),
            WorkspaceFaultKind::ChangedAfterApply => (409, "workspace_changed_after_apply"@),
            WorkspaceFaultKind::Removed => (409, "workspace_removed"@),
            WorkspaceFaultKind::NotManagedBranch => (409, "not_managed_branch"@),
            _ => (409, "workspace_unavailable"@),
        },
        _ => (500, "daemon_internal"@),
    }
}

/// The answer to a cleanup error.
pub fn cleanup_error_response(e: &CleanupError) -> (r: ErrorResponse)
    ensures
        answers(r, cleanup_answer(*e), cleanup_fault_text(*e)),
{
    let (status, code): (u16, &str) = match e {
        CleanupError::TaskNotFound(_) => (404, "task_not_found"),
        CleanupError::TaskHasNoWorkspace(_) => (409, "task_not_applicable"),
        CleanupError::WorkflowNotFound(_) => (404, "workflow_not_found"),
        CleanupError::WorkflowStillActive(..) => (409, "workflow_still_active"),
        CleanupError::Workspace(fault) => match fault.kind {
            WorkspaceFaultKind::NotSafeToRemove => (409, "workspace_not_safe_to_remove"),
            WorkspaceFaultKind::ChangedAfterApply => (409, "workspace_changed_after_apply"),
            WorkspaceFaultKind::Removed => (409, "workspace_removed"),
            WorkspaceFaultKind::NotManagedBranch => (409, "not_managed_branch"),
            _ => (409, "workspace_unavailable"),
        },
        _ => (500, "daemon_internal"),
    };
    let message = match e {
        CleanupError::Storage(_) | CleanupError::Task(_) | CleanupError::Internal(_) =>
            "cleanup failed (internal error)".to_owned(),
        _ => e.message(),
    };
    respond(status, code, message)
}

/// Internal failures do not leak: whatever such an error says, the answer is
/// the same.
pub proof fn internal_details_stay_inside(a: CleanupError, b: CleanupError)
    requires
        a is Storage || a is Task || a is Internal,
        b is Storage || b is Task || b is Internal,
    ensures
        cleanup_answer(a) == cleanup_answer(b),
        cleanup_fault_text(a) == cleanup_fault_text(b),
{
}

/// A daemon with running tasks is shut down only by force.
pub fn shutdown_gate(force: bool, live: usize) -> (r: Result<(), ErrorResponse>)
    ensures
        force || live == 0 ==> r is Ok,
        !force && live > 0 ==> (r matches Err(answer) && answers(
            answer,
            (409, "daemon_busy"@),
            "daemon has "@ + decimal(live as nat)
                + " running tasks; use force to cancel them before shutdown"@,
        )),
        r is Ok <==> force || live == 0,
{
    if force || live == 0 {
        Ok(())
    } else {
        Err(
            respond(
                409,
                "daemon_busy",
                "daemon has ".to_owned().concat(show_usize(live).as_str()).concat(
                    " running tasks; use force to cancel them before shutdown",
                ),
            ),
        )
    }
}

/// Query of an event stream.
#[derive(Clone, Copy, Debug, PartialEq, Eq)]
pub struct EventsQuery {
    pub after: Option<u64>,
}

impl EventsQuery {
    /// The sequence number behind which the stream starts.
    pub fn start(&self) -> (r: u64)
        ensures
            r == (match self.after {
                Some(n) => n,
                None => 0,
            }),
    {
        match self.after {
            Some(n) => n,
            None => 0,
        }
    }
}

/// Query of the apply history.
#[derive(Clone, Debug, PartialEq, Eq)]
pub struct AppliesQuery {
    pub limit: Option<usize>,
    pub status: Option<String>,
}

/// Query of the workspaces.
#[derive(Clone, Debug, PartialEq, Eq)]
pub struct WorkspacesQuery {
    pub state: Option<String>,
    pub limit: Option<usize>,
}

/// How many rows a listing gives where no limit is asked for.
pub const DEFAULT_LIMIT: usize = 20;

/// Status of an apply.
#[derive(Clone, Copy, Debug, PartialEq, Eq, Structural)]
pub enum ApplyStatus {
    Planned,
    Applying,
    Completed,
    Failed,
}

/// The text of an apply status.
pub open spec fn apply_status_text(status: ApplyStatus) -> Seq<char> {
    match status {
        ApplyStatus::Planned => "planned"@,
        ApplyStatus::Applying => "applying"@,
        ApplyStatus::Completed => "completed"@,
        ApplyStatus::Failed => "failed"@,
    }
}

impl AppliesQuery {
    /// How many rows to give.
    pub fn rows(&self) -> (r: usize)
        ensures
            r == (match self.limit {
                Some(n) => n,
                None => DEFAULT_LIMIT,
            }),
    {
        self.limit.unwrap_or(DEFAULT_LIMIT)
    }

    /// The status to filter by, if one is asked for; an unknown one is refused.
    pub fn filter(&self) -> (r: Result<Option<ApplyStatus>, ErrorResponse>)
        ensures
            match self.status {
                None => r == Ok::<Option<ApplyStatus>, ErrorResponse>(None),
                Some(raw) => match r {
                    Ok(status) => status is Some && apply_status_text(status->0) == raw@,
                    Err(answer) => {
                        &&& forall|s: ApplyStatus| #[trigger] apply_status_text(s) != raw@
                        &&& answers(
                            answer,
                            (400, "invalid_status"@),
                            "invalid apply status `"@ + raw@
                                + "` (expected: planned, applying, completed, failed)"@,
                        )
                    },
                },
            },
    {
        match &self.status {
            None => Ok(None),
            Some(raw) => {
                if same_text(raw.as_str(), "planned") {
                    Ok(Some(ApplyStatus::Planned))
                } else if same_text(raw.as_str(), "applying") {
                    Ok(Some(ApplyStatus::Applying))
                } else if same_text(raw.as_str(), "completed") {
                    Ok(Some(ApplyStatus::Completed))
                } else if same_text(raw.as_str(), "failed") {
                    Ok(Some(ApplyStatus::Failed))
                } else {
                    Err(
                        respond(
                            400,
                            "invalid_status",
                            "invalid apply status `".to_owned().concat(raw.as_str()).concat(
                                "` (expected: planned, applying, completed, failed)",
                            ),
                        ),
                    )
                }
            },
        }
    }
}

/// State of a workspace.
#[derive(Clone, Copy, Debug, PartialEq, Eq, Structural)]
pub enum WorkspaceState {
    Active,
    Applied,
    Archived,
    Missing,
    Removed,
}

/// The text of a workspace state.
pub open spec fn workspace_state_text(state: WorkspaceState) -> Seq<char> {
    match state {
        WorkspaceState::Active => "active"@,
        WorkspaceState::Applied => "applied"@,
        WorkspaceState::Archived => "archived"@,
        WorkspaceState::Missing => "missing"@,
        WorkspaceState::Removed => "removed"@,
    }
}

impl WorkspacesQuery {
    /// How many rows to give.
    pub fn rows(&self) -> (r: usize)
        ensures
            r == (match self.limit {
                Some(n) => n,
                None => DEFAULT_LIMIT,
            }),
    {
        self.limit.unwrap_or(DEFAULT_LIMIT)
    }

    /// The state to filter by, if one is asked for; an unknown one is refused.
    pub fn filter(&self) -> (r: Result<Option<WorkspaceState>, ErrorResponse>)
        ensures
            match self.state {
                None => r == Ok::<Option<WorkspaceState>, ErrorResponse>(None),
                Some(raw) => match r {
                    Ok(state) => state is Some && workspace_state_text(state->0) == raw@,
                    Err(answer) => {
                        &&& forall|s: WorkspaceState| #[trigger] workspace_state_text(s) != raw@
                        &&& answers(
                            answer,
                            (400, "invalid_state"@),
                            "invalid workspace state `"@ + raw@
                                + "` (expected: active, applied, archived, missing, removed)"@,
                        )
                    },
                },
            },
    {
        match &self.state {
            None => Ok(None),
            Some(raw) => {
                if same_text(raw.as_str(), "active") {
                    Ok(Some(WorkspaceState::Active))
                } else if same_text(raw.as_str(), "applied") {
                    Ok(Some(WorkspaceState::Applied))
                } else if same_text(raw.as_str(), "archived") {
                    Ok(Some(WorkspaceState::Archived))
                } else if same_text(raw.as_str(), "missing") {
                    Ok(Some(WorkspaceState::Missing))
                } else if same_text(raw.as_str(), "removed") {
                    Ok(Some(WorkspaceState::Removed))
                } else {
                    Err(
                        respond(
                            400,
                            "invalid_state",
                            "invalid workspace state `".to_owned().concat(raw.as_str()).concat(
                                "` (expected: active, applied, archived, missing, removed)",
                            ),
                        ),
                    )
                }
            },
        }
    }
}

/// What the runtime endpoint tells of live tasks (id, agent, session and
/// status).
pub fn live_task_infos(live: &[(Uuid, String, Uuid, TaskStatus)]) -> (r: Vec<LiveTaskInfo>)
    ensures
        r@.len() == live@.len(),
        forall|i: int|
            0 <= i < r@.len() ==> {
                &&& (#[trigger] r@[i]).task_id == live@[i].0
                &&& r@[i].agent_id == live@[i].1
                &&& r@[i].agent_session_id == live@[i].2
                &&& r@[i].status@ == status_text(live@[i].3)
            },
{
    let mut out: Vec<LiveTaskInfo> = Vec::new();
    let mut i: usize = 0;
    while i < live.len()
        invariant
            i <= live@.len(),
            out@.len() == i,
            forall|j: int|
                0 <= j < i ==> {
                    &&& (#[trigger] out@[j]).task_id == live@[j].0
                    &&& out@[j].agent_id == live@[j].1
                    &&& out@[j].agent_session_id == live@[j].2
                    &&& out@[j].status@ == status_text(live@[j].3)
                },
        decreases live.len() - i,
    {
        out.push(
            LiveTaskInfo {
                task_id: live[i].0,
                agent_id: live[i].1.clone(),
                agent_session_id: live[i].2,
                status: live[i].3.as_str().to_owned(),
            },
        );
        i += 1;
    }
    out
}

/// What a replay is answered with.
pub fn replay_response(report: ReplayReport) -> (r: WorkflowReplayResponse)
    ensures
        r == (WorkflowReplayResponse {
            workflow_id: report.workflow_id,
            passed: report.passed,
            is_legacy: report.is_legacy,
            integrity_passed: report.integrity_passed,
            consensus_passed: report.consensus_passed,
            selection_passed: report.selection_passed,
            apply_passed: report.apply_passed,
            policy_passed: report.policy_passed,
            mismatches: report.mismatches,
            details: report.details,
        }),
{
    WorkflowReplayResponse {
        workflow_id: report.workflow_id,
        passed: report.passed,
        is_legacy: report.is_legacy,
        integrity_passed: report.integrity_passed,
        consensus_passed: report.consensus_passed,
        selection_passed: report.selection_passed,
        apply_passed: report.apply_passed,
        policy_passed: report.policy_passed,
        mismatches: report.mismatches,
        details: report.details,
    }
}

/// Whose history a new task inherits.
#[derive(Clone, Copy, Debug, PartialEq, Eq, Structural)]
pub enum PriorSource {
    /// That of one task.
    Task(Uuid),
    /// That of all tasks of a context.
    Context(Uuid),
    /// None.
    Nothing,
}

/// Whose history a new task inherits: a task is preferred to a context.
pub fn prior_source(from_task_id: Option<Uuid>, from_context_id: Option<Uuid>) -> (r: PriorSource)
    ensures
        r == (match (from_task_id, from_context_id) {
            (Some(task), _) => PriorSource::Task(task),
            (None, Some(context)) => PriorSource::Context(context),
            (None, None) => PriorSource::Nothing,
        }),
        r is Task <==> from_task_id is Some,
        r is Nothing <==> from_task_id is None && from_context_id is None,
{
    match from_task_id {
        Some(task) => PriorSource::Task(task),
        None => match from_context_id {
            Some(context) => PriorSource::Context(context),
            None => PriorSource::Nothing,
        },
    }
}

/// Whether a summary tells of an artifact: its size, and its content where it
/// is text.
pub open spec fn is_artifact_summary(r: PriorArtifactSummary, a: Artifact) -> bool {
    &&& r.name == a.name
    &&& r.kind == a.kind
    &&& r.size_bytes == a.content@.len()
    &&& opt_text(r.content_preview) == (if valid_utf8(a.content@) {
        Some(decode_utf8(a.content@))
    } else {
        None
    })
}

/// The summary of an artifact.
pub fn artifact_summary(a: &Artifact) -> (r: PriorArtifactSummary)
    ensures
        is_artifact_summary(r, *a),
{
    let content_preview = match a.content_as_str() {
        Some(text) => Some(text.to_owned()),
        None => None,
    };
    PriorArtifactSummary {
        name: a.name.clone(),
        kind: a.kind,
        content_preview,
        size_bytes: a.content.len(),
    }
}

/// Whether a summary tells of a task and its artifacts, with these texts of
/// its times.
pub open spec fn is_task_summary(
    r: PriorTaskSummary,
    task: AgentTask,
    artifacts: Seq<Artifact>,
    created_at: Seq<char>,
    completed_at: Option<Seq<char>>,
) -> bool {
    &&& r.task_id == task.id
    &&& r.agent_id == task.agent_id
    &&& r.status == task.status
    &&& r.prompt == task.input.content
    &&& r.error == task.error
    &&& r.created_at@ == created_at
    &&& opt_text(r.completed_at) == completed_at
    &&& r.artifacts@.len() == artifacts.len()
    &&& forall|i: int|
        0 <= i < artifacts.len() ==> is_artifact_summary(#[trigger] r.artifacts@[i], artifacts[i])
}

/// The summary of a task, with the given texts of its times.
pub fn task_summary(
    task: &AgentTask,
    artifacts: &[Artifact],
    created_at: String,
    completed_at: Option<String>,
) -> (r: PriorTaskSummary)
    ensures
        is_task_summary(r, *task, artifacts@, created_at@, opt_text(completed_at)),
{
    let mut summaries: Vec<PriorArtifactSummary> = Vec::new();
    let mut i: usize = 0;
    while i < artifacts.len()
        invariant
            i <= artifacts@.len(),
            summaries@.len() == i,
            forall|j: int|
                0 <= j < i ==> is_artifact_summary(#[trigger] summaries@[j], artifacts@[j]),
        decreases artifacts.len() - i,
    {
        summaries.push(artifact_summary(&artifacts[i]));
        i += 1;
    }
    PriorTaskSummary {
        task_id: task.id,
        agent_id: task.agent_id.clone(),
        status: task.status,
        prompt: task.input.content.clone(),
        error: clone_opt(&task.error),
        artifacts: summaries,
        created_at,
        completed_at,
    }
}

/// The text of the time at which a task completed, if it has.
pub open spec fn completion_text(task: AgentTask) -> Option<Seq<char>> {
    match task.completed_at {
        Some(t) => rfc3339_text(t.seconds as int, t.nanos as int),
        None => None,
    }
}

/// Whether the times of a task are dates of the calendar.
pub open spec fn has_dates(task: AgentTask) -> bool {
    &&& rfc3339_text(task.created_at.seconds as int, task.created_at.nanos as int) is Some
    &&& task.completed_at is Some ==> completion_text(task) is Some
}

/// The summary of a task and its artifacts; nothing where its times are no
/// dates of the calendar.
pub fn summarize_task(task: &AgentTask, artifacts: &[Artifact]) -> (r: Option<PriorTaskSummary>)
    ensures
        r is Some <==> has_dates(*task),
        r matches Some(summary) ==> is_task_summary(
            summary,
            *task,
            artifacts@,
            rfc3339_text(task.created_at.seconds as int, task.created_at.nanos as int)->0,
            completion_text(*task),
        ),
{
    let created_at = match task.created_at.to_rfc3339() {
        Some(text) => text,
        None => return None,
    };
    let completed_at = match &task.completed_at {
        Some(time) => match time.to_rfc3339() {
            Some(text) => Some(text),
            None => return None,
        },
        None => None,
    };
    Some(task_summary(task, artifacts, created_at, completed_at))
}

/// The answer where the task whose history is to be inherited does not exist.
pub fn prior_task_missing(task_id: &Uuid) -> (r: ErrorResponse)
    ensures
        answers(
            r,
            (404, "not_found"@),
            "prior task `"@ + id_text(task_id.bits) + "` not found"@,
        ),
{
    respond(
        404,
        "not_found",
        "prior task `".to_owned().concat(task_id.to_text().as_str()).concat("` not found"),
    )
}

/// A context whose history is to be inherited must have tasks.
pub fn prior_context_gate(context_id: &Uuid, tasks: usize) -> (r: Result<(), ErrorResponse>)
    ensures
        tasks > 0 ==> r is Ok,
        tasks == 0 ==> (r matches Err(answer) && answers(
            answer,
            (404, "not_found"@),
            "no tasks found for prior context `"@ + id_text(context_id.bits) + "`"@,
        )),
        r is Ok <==> tasks > 0,
{
    if tasks > 0 {
        Ok(())
    } else {
        Err(
            respond(
                404,
                "not_found",
                "no tasks found for prior context `".to_owned().concat(
                    context_id.to_text().as_str(),
                ).concat("`"),
            ),
        )
    }
}

/// Why no history is inherited.
#[derive(Debug, PartialEq, Eq)]
pub enum PriorFault {
    /// It does not exist.
    Missing(ErrorResponse),
    /// A time in it is no date of the calendar.
    NoDate,
}

/// Whether summaries tell of tasks and their artifacts.
pub open spec fn are_summaries(
    r: Seq<PriorTaskSummary>,
    found: Seq<(AgentTask, Vec<Artifact>)>,
) -> bool {
    &&& r.len() == found.len()
    &&& forall|i: int|
        0 <= i < found.len() ==> is_task_summary(
            #[trigger] r[i],
            found[i].0,
            found[i].1@,
            rfc3339_text(
                found[i].0.created_at.seconds as int,
                found[i].0.created_at.nanos as int,
            )->0,
            completion_text(found[i].0),
        )
}

/// Whether the times of all tasks are dates of the calendar.
pub open spec fn all_have_dates(found: Seq<(AgentTask, Vec<Artifact>)>) -> bool {
    forall|i: int| 0 <= i < found.len() ==> has_dates((#[trigger] found[i]).0)
}

fn summarize_tasks(found: &[(AgentTask, Vec<Artifact>)]) -> (r: Option<Vec<PriorTaskSummary>>)
    ensures
        r is Some <==> all_have_dates(found@),
        r matches Some(list) ==> are_summaries(list@, found@),
{
    let mut list: Vec<PriorTaskSummary> = Vec::new();
    let mut i: usize = 0;
    while i < found.len()
        invariant
            i <= found@.len(),
            forall|j: int| 0 <= j < i ==> has_dates((#[trigger] found@[j]).0),
            are_summaries(list@, found@.take(i as int)),
        decreases found.len() - i,
    {
        match summarize_task(&found[i].0, found[i].1.as_slice()) {
            Some(summary) => {
                let ghost before = list@;
                list.push(summary);
                proof {
                    let part = found@.take(i + 1);
                    assert forall|j: int| 0 <= j < part.len() implies is_task_summary(
                        #[trigger] list@[j],
                        part[j].0,
                        part[j].1@,
                        rfc3339_text(
                            part[j].0.created_at.seconds as int,
                            part[j].0.created_at.nanos as int,
                        )->0,
                        completion_text(part[j].0),
                    ) by {
                        if j < i {
                            assert(list@[j] == before[j]);
                            assert(part[j] == found@.take(i as int)[j]);
                        }
                    }
                }
            },
            None => {
                return None;
            },
        }
        i += 1;
    }
    assert(found@.take(i as int) =~= found@);
    Some(list)
}

/// The history that a new task inherits: the context it joins and the
/// summaries of the tasks before it. `found` are the tasks, with their
/// artifacts, that the source gives: at most one for a task, all of them for
/// a context.
pub fn collect_prior_tasks(
    from_task_id: Option<Uuid>,
    from_context_id: Option<Uuid>,
    found: &[(AgentTask, Vec<Artifact>)],
) -> (r: Result<(Option<Uuid>, Vec<PriorTaskSummary>), PriorFault>)
    ensures
        match (from_task_id, from_context_id) {
            (Some(task_id), _) => if found@.len() == 0 {
                r matches Err(PriorFault::Missing(answer)) && answers(
                    answer,
                    (404, "not_found"@),
                    "prior task `"@ + id_text(task_id.bits) + "` not found"@,
                )
            } else if all_have_dates(found@) {
                r matches Ok(history) && history.0 == Some(found@[0].0.context_id)
                    && are_summaries(history.1@, found@)
            } else {
                r == Err::<(Option<Uuid>, Vec<PriorTaskSummary>), PriorFault>(PriorFault::NoDate)
            },
            (None, Some(context_id)) => if found@.len() == 0 {
                r matches Err(PriorFault::Missing(answer)) && answers(
                    answer,
                    (404, "not_found"@),
                    "no tasks found for prior context `"@ + id_text(context_id.bits) + "`"@,
                )
            } else if all_have_dates(found@) {
                r matches Ok(history) && history.0 == Some(context_id) && are_summaries(
                    history.1@,
                    found@,
                )
            } else {
                r == Err::<(Option<Uuid>, Vec<PriorTaskSummary>), PriorFault>(PriorFault::NoDate)
            },
            (None, None) => r matches Ok(history) && history.0 is None && history.1@.len() == 0,
        },
{
    let context_id: Uuid = match prior_source(from_task_id, from_context_id) {
        PriorSource::Nothing => return Ok((None, Vec::new())),
        PriorSource::Task(task_id) => {
            if found.len() == 0 {
                return Err(PriorFault::Missing(prior_task_missing(&task_id)));
            }
            found[0].0.context_id
        },
        PriorSource::Context(context_id) => {
            if let Err(answer) = prior_context_gate(&context_id, found.len()) {
                return Err(PriorFault::Missing(answer));
            }
            context_id
        },
    };
    match summarize_tasks(found) {
        Some(list) => Ok((Some(context_id), list)),
        None => Err(PriorFault::NoDate),
    }
}

/// The answer where an audit trail cannot be read.
pub fn audit_storage_error(message: String) -> (r: ErrorResponse)
    ensures
        answers(r, (500, "storage_error"@), message@),
{
    respond(500, "storage_error", message)
}

/// The answer where the history that is to be inherited cannot be read.
pub fn prior_storage_error(message: String) -> (r: ErrorResponse)
    ensures
        answers(r, (404, "storage_error"@), message@),
{
    respond(404, "storage_error", message)
}

/// What an error of a workflow is answered with: by its kind, whether something is missing, the
/// state is in the way, the request cannot be carried out, an agent failed or the
/// daemon is not ready; any other error is internal.
pub proof fn workflow_answers_by_kind(e: WorkflowError)
    ensures
        workflow_error_answer(e).0 == 404 <==> e is NotFound,
        workflow_error_answer(e).0 == 409 <==> e is NotRunning || e is NotResumable,
        workflow_error_answer(e).0 == 503 <==> e is DirectoryUninitialized,
        e is NotFound ==> workflow_error_answer(e).1 == "workflow_not_found"@,
        e is NotRunning ==> workflow_error_answer(e).1 == "workflow_not_running"@,
        e is NotResumable ==> workflow_error_answer(e).1 == "workflow_not_resumable"@,
        e is DirectoryUninitialized ==> workflow_error_answer(e).1 == "daemon_not_ready"@,
        e is InvalidState ==> workflow_error_answer(e).1 == "workflow_invalid_state"@,
        !(e is NotFound) && !(e is NotRunning) && !(e is NotResumable)
            && !(e is DirectoryUninitialized) && !(e is InvalidState)
            ==> workflow_error_answer(e) == (500u16, "daemon_internal"@),
{
}

/// What an error of a plan is answered with: by its kind, whether something is missing, the
/// state is in the way, the request cannot be carried out, an agent failed or the
/// daemon is not ready; any other error is internal.
pub proof fn plan_answers_by_kind(e: PlanError)
    ensures
        plan_error_answer(e).0 == 404 <==> e is NotFound,
        plan_error_answer(e).0 == 409 <==> e is NotReady || e is AlreadyExecuted
            || e is ExecutionInProgress || e is NotEditable,
        plan_error_answer(e).0 == 422 <==> e is PolicyViolation || e is InvalidPlannerOutput
            || e is InvalidPlan,
        plan_error_answer(e).0 == 502 <==> e is PlannerTaskFailed,
        plan_error_answer(e).0 == 503 <==> e is DirectoryUninitialized,
        e is NotFound ==> plan_error_answer(e).1 == "plan_not_found"@,
        e is NotReady ==> plan_error_answer(e).1 == "plan_not_ready"@,
        e is AlreadyExecuted ==> plan_error_answer(e).1 == "plan_already_executed"@,
        e is ExecutionInProgress ==> plan_error_answer(e).1 == "plan_execution_in_progress"@,
        e is NotEditable ==> plan_error_answer(e).1 == "plan_not_editable"@,
        e is PolicyViolation ==> plan_error_answer(e).1 == "plan_policy_violation"@,
        e is DirectoryUninitialized ==> plan_error_answer(e).1 == "daemon_not_ready"@,
        e is InvalidPlannerOutput ==> plan_error_answer(e).1 == "plan_invalid"@,
        e is InvalidPlan ==> plan_error_answer(e).1 == "plan_invalid"@,
        e is PlannerTaskFailed ==> plan_error_answer(e).1 == "planner_task_failed"@,
        !(e is NotFound) && !(e is NotReady) && !(e is AlreadyExecuted)
            && !(e is ExecutionInProgress) && !(e is NotEditable) && !(e is PolicyViolation)
            && !(e is DirectoryUninitialized) && !(e is InvalidPlannerOutput)
            && !(e is InvalidPlan) && !(e is PlannerTaskFailed)
            ==> plan_error_answer(e) == (500u16, "daemon_internal"@),
{
}

/// What an error of a replan is answered with: by its kind, whether something is missing, the
/// state is in the way, the request cannot be carried out, an agent failed or the
/// daemon is not ready; any other error is internal.
pub proof fn replan_answers_by_kind(e: ReplanError)
    ensures
        replan_error_answer(e).0 == 404 <==> e is NotFound || e is WorkflowNotFound,
        replan_error_answer(e).0 == 409 <==> e is NotReplannable || e is NotReady
            || e is AlreadyApplied || e is ApplyInProgress || e is ReplanStale,
        replan_error_answer(e).0 == 422 <==> e is NotDag || e is InvalidDelta
            || e is InvalidCandidate || e is PolicyViolation,
        replan_error_answer(e).0 == 502 <==> e is PlannerTaskFailed,
        replan_error_answer(e).0 == 503 <==> e is DirectoryUninitialized,
        e is NotFound ==> replan_error_answer(e).1 == "replan_not_found"@,
        e is WorkflowNotFound ==> replan_error_answer(e).1 == "workflow_not_found"@,
        e is NotDag ==> replan_error_answer(e).1 == "workflow_not_dag"@,
        e is NotReplannable ==> replan_error_answer(e).1 == "workflow_not_replannable"@,
        e is NotReady ==> replan_error_answer(e).1 == "replan_not_ready"@,
        e is AlreadyApplied ==> replan_error_answer(e).1 == "replan_already_applied"@,
        e is ApplyInProgress ==> replan_error_answer(e).1 == "replan_apply_in_progress"@,
        e is ReplanStale ==> replan_error_answer(e).1 == "replan_stale"@,
        e is InvalidDelta ==> replan_error_answer(e).1 == "replan_invalid"@,
        e is InvalidCandidate ==> replan_error_answer(e).1 == "replan_invalid"@,
        e is PolicyViolation ==> replan_error_answer(e).1 == "replan_policy_violation"@,
        e is DirectoryUninitialized ==> replan_error_answer(e).1 == "daemon_not_ready"@,
        e is PlannerTaskFailed ==> replan_error_answer(e).1 == "replan_planner_failed"@,
        !(e is NotFound) && !(e is WorkflowNotFound) && !(e is NotDag) && !(e is NotReplannable)
            && !(e is NotReady) && !(e is AlreadyApplied) && !(e is ApplyInProgress)
            && !(e is ReplanStale) && !(e is InvalidDelta) && !(e is InvalidCandidate)
            && !(e is PolicyViolation) && !(e is DirectoryUninitialized)
            && !(e is PlannerTaskFailed)
            ==> replan_error_answer(e) == (500u16, "daemon_internal"@),
{
}

/// What an error of a recovery is answered with: by its kind, whether something is missing, the
/// state is in the way, the request cannot be carried out, an agent failed or the
/// daemon is not ready; any other error is internal.
pub proof fn recovery_answers_by_kind(e: RecoveryError)
    ensures
        recovery_error_answer(e).0 == 404 <==> e is NotFound || e is WorkflowNotFound,
        recovery_error_answer(e).0 == 409 <==> e is WorkflowNotFailed || e is RecoveryLimitReached
            || e is NotReady || e is AlreadyExecuted || e is AlreadyPending
            || e is ExecutionInProgress,
        recovery_error_answer(e).0 == 422 <==> e is NoFailedNode || e is RecoveryBudgetExceeded
            || e is InvalidPlan || e is PolicyViolation,
        recovery_error_answer(e).0 == 502 <==> e is AnalyzerTaskFailed,
        recovery_error_answer(e).0 == 503 <==> e is DirectoryUninitialized,
        e is NotFound ==> recovery_error_answer(e).1 == "recovery_not_found"@,
        e is WorkflowNotFound ==> recovery_error_answer(e).1 == "workflow_not_found"@,
        e is WorkflowNotFailed ==> recovery_error_answer(e).1 == "workflow_not_failed"@,
        e is NoFailedNode ==> recovery_error_answer(e).1 == "no_failed_node"@,
        e is RecoveryLimitReached ==> recovery_error_answer(e).1 == "recovery_limit_reached"@,
        e is RecoveryBudgetExceeded ==> recovery_error_answer(e).1 == "recovery_budget_exceeded"@,
        e is NotReady ==> recovery_error_answer(e).1 == "recovery_not_ready"@,
        e is AlreadyExecuted ==> recovery_error_answer(e).1 == "recovery_already_executed"@,
        e is AlreadyPending ==> recovery_error_answer(e).1 == "recovery_already_pending"@,
        e is ExecutionInProgress
            ==> recovery_error_answer(e).1 == "recovery_execution_in_progress"@,
        e is InvalidPlan ==> recovery_error_answer(e).1 == "recovery_invalid"@,
        e is PolicyViolation ==> recovery_error_answer(e).1 == "recovery_policy_violation"@,
        e is DirectoryUninitialized ==> recovery_error_answer(e).1 == "daemon_not_ready"@,
        e is AnalyzerTaskFailed ==> recovery_error_answer(e).1 == "failure_analyzer_failed"@,
        !(e is NotFound) && !(e is WorkflowNotFound) && !(e is WorkflowNotFailed)
            && !(e is NoFailedNode) && !(e is RecoveryLimitReached)
            && !(e is RecoveryBudgetExceeded) && !(e is NotReady) && !(e is AlreadyExecuted)
            && !(e is AlreadyPending) && !(e is ExecutionInProgress) && !(e is InvalidPlan)
            && !(e is PolicyViolation) && !(e is DirectoryUninitialized)
            && !(e is AnalyzerTaskFailed)
            ==> recovery_error_answer(e) == (500u16, "daemon_internal"@),
{
}

/// A missing thing is answered as what it is.
pub proof fn missing_things_are_named(a: Missing, b: Missing)
    requires
        missing_answer(a).1 == missing_answer(b).1,
    ensures
        a == b,
{
    reveal_strlit("unknown endpoint");
    reveal_strlit("task is not live");
    reveal_strlit("task not found");
    reveal_strlit("workflow not found");
    reveal_strlit("plan not found");
    reveal_strlit("replan not found");
    reveal_strlit("recovery not found");
    reveal_strlit("evaluation group not found");
    reveal_strlit("competition group not found");
    reveal_strlit("apply not found");
    assert("unknown endpoint"@.len() == 16 && "unknown endpoint"@[0] == 'u');
    assert("task is not live"@.len() == 16 && "task is not live"@[0] == 't');
    assert("task not found"@.len() == 14 && "task not found"@[0] == 't');
    assert("workflow not found"@.len() == 18 && "workflow not found"@[0] == 'w');
    assert("plan not found"@.len() == 14 && "plan not found"@[0] == 'p');
    assert("replan not found"@.len() == 16 && "replan not found"@[0] == 'r');
    assert("recovery not found"@.len() == 18 && "recovery not found"@[0] == 'r');
    assert("evaluation group not found"@.len() == 26);
    assert("competition group not found"@.len() == 27);
    assert("apply not found"@.len() == 15);
    let x = missing_answer(a).1;
    let y = missing_answer(b).1;
    assert(x.len() == y.len());
    assert(x[0] == y[0]);
}

/// An apply that something stands in the way of is a conflict; a missing task or
/// workflow is missing, and only a failure of the apply itself, of the storage or
/// of the daemon is internal. Internal details are not told.
pub proof fn apply_answers_by_kind(e: ApplyFault)
    ensures
        apply_fault_answer(e).0 == 404 <==> e.kind == ApplyFaultKind::TaskNotFound || e.kind
            == ApplyFaultKind::WorkflowNotFound,
        apply_fault_answer(e).0 == 500 <==> e.kind == ApplyFaultKind::ApplyFailed || e.kind
            == ApplyFaultKind::CopyFailed || e.kind == ApplyFaultKind::ApplyRollbackFailed || e.kind
            == ApplyFaultKind::Storage || e.kind == ApplyFaultKind::Internal,
        apply_fault_answer(e).0 == 404 || apply_fault_answer(e).0 == 500 || apply_fault_answer(e).0
            == 409,
        e.kind == ApplyFaultKind::AlreadyApplied ==> apply_fault_answer(e).1
            == "already_applied"@,
        e.kind == ApplyFaultKind::ApplyInProgress ==> apply_fault_answer(e).1
            == "apply_in_progress"@,
        e.kind == ApplyFaultKind::ApplyConflict ==> apply_fault_answer(e).1 == "apply_conflict"@,
        e.kind == ApplyFaultKind::UnsafeApplyPath ==> apply_fault_answer(e).1
            == "unsafe_apply_path"@,
        e.kind == ApplyFaultKind::ReviewNotApproved ==> apply_fault_answer(e).1
            == "review_not_approved"@,
        e.kind == ApplyFaultKind::SourceRepositoryDirty ==> apply_fault_answer(e).1
            == "source_repository_dirty"@,
        e.kind == ApplyFaultKind::SourceRevisionChanged ==> apply_fault_answer(e).1
            == "source_revision_changed"@,
        e.kind == ApplyFaultKind::NoChanges ==> apply_fault_answer(e).1 == "no_changes"@,
        e.kind != ApplyFaultKind::Storage && e.kind != ApplyFaultKind::Internal
            ==> apply_fault_text(e) == e.message@,
        e.kind == ApplyFaultKind::Storage || e.kind == ApplyFaultKind::Internal
            ==> apply_fault_text(e) == "apply failed (internal error)"@,
{
}

/// A cleanup that something stands in the way of is a conflict, which is told; a
/// missing task or workflow is missing, and any other error internal.
pub proof fn cleanup_answers_by_kind(e: CleanupError)
    ensures
        cleanup_answer(e).0 == 404 <==> e is TaskNotFound || e is WorkflowNotFound,
        cleanup_answer(e).0 == 409 <==> e is TaskHasNoWorkspace || e is WorkflowStillActive || e
            is Workspace,
        cleanup_answer(e).0 == 500 <==> e is Storage || e is Task || e is Internal,
        e matches CleanupError::Workspace(fault) ==> {
            &&& fault.kind == WorkspaceFaultKind::NotSafeToRemove ==> cleanup_answer(e).1
                == "workspace_not_safe_to_remove"@
            &&& fault.kind == WorkspaceFaultKind::ChangedAfterApply ==> cleanup_answer(e).1
                == "workspace_changed_after_apply"@
            &&& fault.kind == WorkspaceFaultKind::Removed ==> cleanup_answer(e).1
                == "workspace_removed"@
            &&& fault.kind == WorkspaceFaultKind::NotManagedBranch ==> cleanup_answer(e).1
                == "not_managed_branch"@
        },
        e is WorkflowStillActive ==> cleanup_answer(e).1 == "workflow_still_active"@,
        !(e is Storage || e is Task || e is Internal) ==> cleanup_fault_text(e)
            == cleanup_error_text(e),
{
}

/// A task that cannot be found is missing, one whose session or workspace is not
/// there a conflict, and any other fault of the task layer internal.
pub proof fn task_answers_by_kind(e: TaskFault)
    ensures
        task_fault_answer(e).0 == 404 <==> e.kind is AgentNotFound || e.kind is TaskNotFound
            || e.kind is AgentSessionNotFound,
        task_fault_answer(e).0 == 409 <==> e.kind is NativeSessionUnavailable || e.kind
            is WorkspaceUnavailable || e.kind is Workspace,
        task_fault_answer(e).0 == 500 <==> e.kind is SessionForAgentNotFound || e.kind is Other,
        e.kind is AgentNotFound ==> task_fault_answer(e).1 == "agent_not_found"@,
        e.kind is TaskNotFound || e.kind is AgentSessionNotFound ==> task_fault_answer(e).1
            == "task_not_found"@,
        e.kind is NativeSessionUnavailable ==> task_fault_answer(e).1
            == "native_session_unavailable"@,
        e.kind is WorkspaceUnavailable || e.kind is Workspace ==> task_fault_answer(e).1
            == "workspace_unavailable"@,
{
}

/// What is told of a prior task is its own: its ids, status, prompt, error and
/// times, and each of its artifacts, with a preview exactly where its content is
/// text.
pub proof fn prior_tasks_are_told_as_they_are(
    r: PriorTaskSummary,
    task: AgentTask,
    artifacts: Seq<Artifact>,
    created_at: Seq<char>,
    completed_at: Option<Seq<char>>,
    i: int,
)
    requires
        is_task_summary(r, task, artifacts, created_at, completed_at),
        0 <= i < artifacts.len(),
    ensures
        r.task_id == task.id && r.agent_id == task.agent_id && r.status == task.status,
        r.prompt == task.input.content && r.error == task.error,
        r.created_at@ == created_at,
        r.artifacts@.len() == artifacts.len(),
        r.artifacts@[i].name == artifacts[i].name && r.artifacts@[i].kind == artifacts[i].kind,
        r.artifacts@[i].size_bytes == artifacts[i].content@.len(),
        r.artifacts@[i].content_preview is Some <==> valid_utf8(artifacts[i].content@),
        r.artifacts@[i].content_preview matches Some(text) ==> text@ == decode_utf8(
            artifacts[i].content@,
        ),
{
    assert(is_artifact_summary(r.artifacts@[i], artifacts[i]));
}

/// A task has dates exactly when its creation, and its completion where it has
/// one, is a date of the calendar.
pub proof fn dated_tasks_have_calendar_dates(task: AgentTask)
    ensures
        has_dates(task) <==> rfc3339_text(
            task.created_at.seconds as int,
            task.created_at.nanos as int,
        ) is Some && (task.completed_at matches Some(t) ==> rfc3339_text(
            t.seconds as int,
            t.nanos as int,
        ) is Some),
        task.completed_at is None ==> completion_text(task) is None,
        task.completed_at matches Some(t) ==> completion_text(task) == rfc3339_text(
            t.seconds as int,
            t.nanos as int,
        ),
{
}

/// An answer carries the status, the code and the message it is given, and no
/// more.
pub proof fn answers_carry_code_and_message(
    r: ErrorResponse,
    answer: (u16, Seq<char>),
    message: Seq<char>,
)
    requires
        answers(r, answer, message),
    ensures
        r.status == answer.0,
        r.error.error.code@ == answer.1,
        r.error.error.message@ == message,
        r.error.error.details is None,
{
}

/// The message of a task fault is its own, but that a missing workspace or agent
/// is told by its path or id.
pub proof fn task_faults_are_told(e: TaskFault)
    ensures
        e.kind matches TaskFaultKind::WorkspaceUnavailable(path) ==> ends_with(
            task_fault_text(e),
            path@,
        ),
        e.kind matches TaskFaultKind::AgentNotFound(agent) ==> contains_text(
            task_fault_text(e),
            agent@,
        ),
        !(e.kind is WorkspaceUnavailable) && !(e.kind is AgentNotFound) ==> task_fault_text(e)
            == e.message@,
{
    let text = task_fault_text(e);
    match e.kind {
        TaskFaultKind::WorkspaceUnavailable(path) => {
            parts_stand_where_they_are("workspace unavailable: "@, Seq::empty(), path@);
            assert(text =~= "workspace unavailable: "@ + Seq::<char>::empty() + path@);
        },
        TaskFaultKind::AgentNotFound(agent) => {
            parts_stand_where_they_are("agent `"@, agent@, "` not found"@);
        },
        _ => {},
    }
}

/// A filter is read from the text of the status or state that it names.
pub proof fn filters_name_their_status(status: ApplyStatus, state: WorkspaceState)
    ensures
        apply_status_text(status) == "planned"@ <==> status == ApplyStatus::Planned,
        apply_status_text(status) == "applying"@ <==> status == ApplyStatus::Applying,
        apply_status_text(status) == "completed"@ <==> status == ApplyStatus::Completed,
        apply_status_text(status) == "failed"@ <==> status == ApplyStatus::Failed,
        workspace_state_text(state) == "active"@ <==> state == WorkspaceState::Active,
        workspace_state_text(state) == "applied"@ <==> state == WorkspaceState::Applied,
        workspace_state_text(state) == "archived"@ <==> state == WorkspaceState::Archived,
        workspace_state_text(state) == "missing"@ <==> state == WorkspaceState::Missing,
        workspace_state_text(state) == "removed"@ <==> state == WorkspaceState::Removed,
{
    reveal_strlit("planned");
    reveal_strlit("applying");
    reveal_strlit("completed");
    reveal_strlit("failed");
    reveal_strlit("active");
    reveal_strlit("applied");
    reveal_strlit("archived");
    reveal_strlit("missing");
    reveal_strlit("removed");
    assert("planned"@.len() == 7);
    assert("applying"@.len() == 8);
    assert("completed"@.len() == 9);
    assert("failed"@.len() == 6);
    assert("active"@.len() == 6);
    assert("applied"@.len() == 7 && "applied"@[0] == 'a');
    assert("archived"@.len() == 8);
    assert("missing"@.len() == 7 && "missing"@[0] == 'm');
    assert("removed"@.len() == 7 && "removed"@[0] == 'r');
}

/// The history that is handed on tells each prior task once, in order.
pub proof fn history_tells_each_task(
    r: Seq<PriorTaskSummary>,
    found: Seq<(AgentTask, Vec<Artifact>)>,
    i: int,
)
    requires
        are_summaries(r, found),
        0 <= i < found.len(),
    ensures
        r.len() == found.len(),
        r[i].task_id == found[i].0.id,
        r[i].agent_id == found[i].0.agent_id,
        r[i].prompt == found[i].0.input.content,
        r[i].artifacts@.len() == found[i].1@.len(),
        all_have_dates(found) ==> has_dates(found[i].0),
{
    let summary = r[i];
}

} // verus!
