//! Daemon protocol types shared by server and client.

use vstd::prelude::*;

use crate::ids::Uuid;
use crate::json::JsonValue;
use crate::model::AgentEvent;
use crate::workflow::types::{ConsensusOutcome, ReviewVerdict, WorkflowRole, WorkflowStatus};
use crate::workflow::types::WorkflowStepStatus;

verus! {

/// Protocol version between CLI and daemon.
pub const DAEMON_PROTOCOL_VERSION: u32 = 1;

/// Metadata written after a daemon binds successfully.
#[derive(Debug, PartialEq, Eq)]
pub struct DaemonMeta {
    pub protocol_version: u32,
    pub instance_id: String,
    pub pid: u32,
    pub address: String,
    pub started_at: String,
}

/// Health endpoint payload.
#[derive(Debug, PartialEq, Eq)]
pub struct HealthResponse {
    pub protocol_version: u32,
    pub instance_id: String,
    pub status: String,
}

/// Request to run a fresh task.
#[derive(Debug, PartialEq, Eq)]
pub struct RunRequest {
    pub agent_id: String,
    pub prompt: String,
    /// Source project/repository location; `null` uses the daemon cwd scope.
    pub source_workspace: Option<String>,
    /// A prior task whose context and output the new task takes over.
    pub from_task_id: Option<Uuid>,
    /// A prior context whose tasks' output the new task takes over.
    pub from_context_id: Option<Uuid>,
}

/// Request to resume a previous task.
#[derive(Debug, PartialEq, Eq)]
pub struct ResumeRequest {
    pub source_task_id: Uuid,
    pub prompt: String,
}

/// Task start response: the daemon now owns the live runtime.
#[derive(Debug, PartialEq, Eq)]
pub struct RunResponse {
    pub task_id: Uuid,
    pub context_id: Uuid,
    pub agent_session_id: Uuid,
    pub agent_id: String,
}

/// One live task as reported by the runtime endpoint.
#[derive(Debug, PartialEq, Eq)]
pub struct LiveTaskInfo {
    pub task_id: Uuid,
    pub agent_id: String,
    pub agent_session_id: Uuid,
    pub status: String,
}

/// Runtime endpoint payload.
#[derive(Debug, PartialEq, Eq)]
pub struct RuntimeResponse {
    pub instance_id: String,
    pub live_tasks: Vec<LiveTaskInfo>,
}

/// Uniform error payload.
#[derive(Debug, PartialEq, Eq)]
pub struct ApiError {
    pub error: ApiErrorBody,
}

#[derive(Debug, PartialEq, Eq)]
pub struct ApiErrorBody {
    pub code: String,
    pub message: String,
    pub details: Option<JsonValue>,
}

/// Events streamed to clients over SSE.
///
/// Vendor-neutral: adapters stay behind the AgentEvent boundary.
#[derive(Debug, PartialEq, Eq)]
pub enum DaemonStreamEvent {
    /// Initial metadata, sent once when attaching.
    TaskInfo {
        task_id: Uuid,
        context_id: Uuid,
        agent_session_id: Uuid,
        agent_id: String,
    },
    /// A forwarded agent event.
    Agent { event: AgentEvent },
    /// Requested replay position is older than the buffer; continuing from
    /// the oldest available sequence.
    ReplayGap { oldest_available: u64 },
}

/// Shutdown request.
#[derive(Debug, PartialEq, Eq)]
pub struct ShutdownRequest {
    pub force: bool,
}

#[derive(Debug, PartialEq, Eq)]
pub struct ShutdownResponse {
    pub cancelled_tasks: usize,
}

/// Request to plan (`check`) or execute an apply for a task or workflow.
#[derive(Debug, PartialEq, Eq)]
pub struct ApplyRequest {
    /// `true` runs the preflight only and never modifies the source
    /// repository (the CLI `--check` path).
    pub check: bool,
}

/// One apply row for the `agentmesh applies` history listing.
#[derive(Debug, PartialEq, Eq)]
pub struct ApplyInfo {
    pub apply_id: Uuid,
    pub task_id: Option<Uuid>,
    pub workflow_id: Option<Uuid>,
    pub workspace_id: Uuid,
    pub source_repository: String,
    pub base_revision: String,
    pub status: String,
    pub error: Option<String>,
    pub created_at: String,
    pub completed_at: Option<String>,
    pub workspace_snapshot_hash: Option<String>,
}

/// One workspace for the `agentmesh workspaces` listing.
#[derive(Debug, PartialEq, Eq)]
pub struct WorkspaceInfo {
    pub id: Uuid,
    pub agent_id: String,
    pub state: String,
    pub repository: String,
    pub branch: String,
    pub base_revision: String,
    pub created_at: String,
}

/// Request to plan (`check`) or execute a cleanup for a task/workflow.
#[derive(Debug, PartialEq, Eq)]
pub struct CleanupRequest {
    /// `true` runs the preflight only and never deletes anything.
    pub check: bool,
}

/// Artifact prune request (`agentmesh artifacts prune`).
#[derive(Debug, PartialEq, Eq)]
pub struct PruneRequest {
    pub older_than_days: u64,
    pub check: bool,
}

/// Artifact prune response.
#[derive(Debug, PartialEq, Eq)]
pub struct PruneResponse {
    /// Number of file-backed artifacts that qualified.
    pub candidates: usize,
    /// Number actually pruned (0 for a `--check` preview).
    pub pruned: usize,
}

/// Request to start a daemon-owned workflow.
#[derive(Debug, PartialEq, Eq)]
pub struct WorkflowStartRequest {
    pub preset: String,
    pub goal: String,
    pub max_review_rounds: usize,
    /// Maximum concurrent DAG nodes; ignored for sequential presets.
    pub max_parallel: usize,
    /// The explicit source project/repository the workflow operates on;
    /// `None` runs where the daemon runs.
    pub source_workspace: Option<String>,
}

/// Response to starting a workflow: the daemon owns the background run.
#[derive(Debug, PartialEq, Eq)]
pub struct WorkflowStartResponse {
    pub workflow_id: Uuid,
}

/// One workflow as reported when listing.
#[derive(Debug, PartialEq, Eq)]
pub struct WorkflowInfo {
    pub workflow_id: Uuid,
    pub preset: String,
    pub goal: String,
    pub status: WorkflowStatus,
    pub context_id: Option<Uuid>,
    pub created_at: String,
    pub updated_at: String,
    pub completed_at: Option<String>,
    pub error: Option<String>,
    /// Bumped on every successful replan apply.
    pub graph_revision: i64,
    /// The failed workflow this workflow recovers; `None` otherwise.
    pub parent_workflow_id: Option<Uuid>,
    /// The parent node whose failure this workflow recovers.
    pub recovery_of_node_id: Option<String>,
    /// Which recovery attempt this is for the parent (1 = first).
    pub recovery_attempt: i64,
    /// The explicit source project/repository; `None` where none was given.
    pub source_workspace: Option<String>,
}

/// One step as reported in a workflow detail.
#[derive(Debug, PartialEq, Eq)]
pub struct WorkflowStepInfo {
    pub ordinal: usize,
    /// The stable node slug for DAG workflows; `None` for sequential steps.
    pub node_id: Option<String>,
    pub role: WorkflowRole,
    pub status: WorkflowStepStatus,
    pub agent_id: Option<String>,
    pub task_id: Option<Uuid>,
    pub review_round: usize,
    pub summary: Option<String>,
    pub error: Option<String>,
}

/// Full detail of one workflow, including its steps.
#[derive(Debug, PartialEq, Eq)]
pub struct WorkflowDetail {
    pub workflow_id: Uuid,
    pub preset: String,
    pub goal: String,
    pub status: WorkflowStatus,
    pub context_id: Option<Uuid>,
    pub max_review_rounds: usize,
    /// Maximum concurrent DAG nodes.
    pub max_parallel: usize,
    pub final_review_verdict: Option<ReviewVerdict>,
    pub error: Option<String>,
    pub created_at: String,
    pub updated_at: String,
    pub completed_at: Option<String>,
    /// Bumped on every successful replan apply.
    pub graph_revision: i64,
    /// The failed workflow this workflow recovers; `None` otherwise.
    pub parent_workflow_id: Option<Uuid>,
    /// The parent node whose failure this workflow recovers.
    pub recovery_of_node_id: Option<String>,
    /// Which recovery attempt this is for the parent (1 = first).
    pub recovery_attempt: i64,
    /// The explicit source project/repository; `None` where none was given.
    pub source_workspace: Option<String>,
    pub steps: Vec<WorkflowStepInfo>,
}

/// Events streamed to workflow attach/start clients over SSE.
#[derive(Debug, PartialEq, Eq)]
pub enum WorkflowStreamEvent {
    WorkflowStarted {
        workflow_id: Uuid,
        preset: String,
        goal: String,
    },
    StepStarted {
        workflow_id: Uuid,
        ordinal: usize,
        role: WorkflowRole,
        agent_id: String,
    },
    StepCompleted {
        workflow_id: Uuid,
        ordinal: usize,
        role: WorkflowRole,
    },
    StepFailed {
        workflow_id: Uuid,
        ordinal: usize,
        role: WorkflowRole,
        error: String,
    },
    StepCancelled {
        workflow_id: Uuid,
        ordinal: usize,
        role: WorkflowRole,
    },
    StepSkipped {
        workflow_id: Uuid,
        ordinal: usize,
        role: WorkflowRole,
    },
    NodeReady {
        workflow_id: Uuid,
        node_id: String,
        role: WorkflowRole,
    },
    NodeStarted {
        workflow_id: Uuid,
        node_id: String,
        role: WorkflowRole,
        agent_id: String,
    },
    NodeCompleted {
        workflow_id: Uuid,
        node_id: String,
        role: WorkflowRole,
    },
    NodeFailed {
        workflow_id: Uuid,
        node_id: String,
        role: WorkflowRole,
        error: String,
    },
    NodeSkipped {
        workflow_id: Uuid,
        node_id: String,
        role: WorkflowRole,
    },
    NodeCancelled {
        workflow_id: Uuid,
        node_id: String,
        role: WorkflowRole,
    },
    NodeInterrupted {
        workflow_id: Uuid,
        node_id: String,
        role: WorkflowRole,
    },
    AgentMessage {
        workflow_id: Uuid,
        agent_id: String,
        message: String,
    },
    WorkflowCompleted {
        workflow_id: Uuid,
        final_review_verdict: Option<ReviewVerdict>,
    },
    WorkflowFailed {
        workflow_id: Uuid,
        error: Option<String>,
    },
    WorkflowCancelled {
        workflow_id: Uuid,
    },
    WorkflowInterrupted {
        workflow_id: Uuid,
        reason: String,
    },
    RecoveryPlanningStarted {
        workflow_id: Uuid,
        failed_node_id: String,
    },
    RecoveryProposalReady {
        workflow_id: Uuid,
        recovery_id: Uuid,
        attempt: usize,
    },
    RecoveryStarted {
        workflow_id: Uuid,
        recovery_workflow_id: Uuid,
        attempt: usize,
    },
    RecoveryCompleted {
        workflow_id: Uuid,
        recovery_workflow_id: Uuid,
    },
    RecoveryFailed {
        workflow_id: Uuid,
        recovery_workflow_id: Uuid,
        error: Option<String>,
    },
    RecoveryLimitReached {
        workflow_id: Uuid,
    },
    EvaluationSnapshotChanged {
        workflow_id: Uuid,
        node_id: String,
    },
    CandidateStarted {
        workflow_id: Uuid,
        candidate_id: String,
        agent_id: String,
    },
    CandidateCompleted {
        workflow_id: Uuid,
        candidate_id: String,
        snapshot_hash: Option<String>,
    },
    CandidateFailed {
        workflow_id: Uuid,
        candidate_id: String,
        error: String,
    },
    CandidateSnapshotChanged {
        workflow_id: Uuid,
        candidate_id: String,
    },
    CandidateConsensusReady {
        workflow_id: Uuid,
        candidate_id: String,
        outcome: String,
    },
    WinnerSelected {
        workflow_id: Uuid,
        candidate_id: String,
        agent_id: String,
    },
    NoAcceptableCandidate {
        workflow_id: Uuid,
    },
}

/// Detailed view of a competition group and its candidates.
#[derive(Debug, PartialEq, Eq)]
pub struct CompetitionGroupInfo {
    pub id: Uuid,
    pub workflow_id: Uuid,
    pub source_workspace: Option<String>,
    pub base_revision: String,
    pub candidate_count: i64,
    pub status: String,
    pub winner_candidate_id: Option<String>,
    pub winner_task_id: Option<Uuid>,
    pub winner_workspace_id: Option<Uuid>,
    pub winner_snapshot_hash: Option<String>,
    pub created_at: String,
    pub updated_at: String,
    pub candidates: Vec<CompetitionCandidateInfo>,
}

#[derive(Debug, PartialEq, Eq)]
pub struct CompetitionCandidateInfo {
    pub id: Uuid,
    pub group_id: Uuid,
    pub candidate_id: String,
    pub agent_id: String,
    pub session_lane: String,
    pub task_id: Option<Uuid>,
    pub workspace_id: Option<Uuid>,
    pub snapshot_hash: Option<String>,
    pub evaluation_group_id: Option<Uuid>,
    pub status: String,
    pub summary: Option<String>,
    pub patch_path: Option<String>,
    pub consensus: Option<String>,
    pub approved_count: Option<usize>,
    pub valid_count: Option<usize>,
    pub created_at: String,
    pub updated_at: String,
}

/// Request to generate a replan proposal for a workflow.
#[derive(Debug, PartialEq, Eq)]
pub struct ReplanCreateRequest {
    pub prompt: String,
    /// Explicit replan planner agent id; bypasses routing but still goes
    /// through A2A.
    pub agent: Option<String>,
}

#[derive(Debug, PartialEq, Eq)]
pub struct ReplanCreateResponse {
    pub replan_id: Uuid,
}

/// One replan proposal as reported when listing.
#[derive(Debug, PartialEq, Eq)]
pub struct ReplanInfo {
    pub replan_id: Uuid,
    pub workflow_id: Uuid,
    pub status: String,
    pub planner_agent_id: Option<String>,
    pub planner_task_id: Option<Uuid>,
    pub validation_error: Option<String>,
    pub base_graph_revision: i64,
    pub applied_graph_revision: Option<i64>,
    pub created_at: String,
    pub applied_at: Option<String>,
}

/// Request to apply (`check = false`) or preview (`check = true`) a proposal.
#[derive(Debug, PartialEq, Eq)]
pub struct ReplanApplyRequest {
    /// Preview only; never claims the proposal or mutates the workflow.
    pub check: bool,
}

/// The `replan apply --check` preview: the delta's added/updated/removed
/// nodes, the resulting budget and the graph-revision gate.
#[derive(Debug, PartialEq, Eq)]
pub struct ReplanPreview {
    pub replan_id: Uuid,
    pub workflow_id: Uuid,
    pub status: String,
    pub base_graph_revision: i64,
    pub current_graph_revision: i64,
    pub add_nodes: Vec<String>,
    pub update_nodes: Vec<String>,
    pub remove_nodes: Vec<String>,
    pub node_count: usize,
    pub estimated_agent_calls: usize,
    /// Evaluator agent calls across all consensus fix rounds.
    pub evaluation_agent_calls: usize,
    pub root_count: usize,
    pub terminal_count: usize,
    pub policy_max_nodes: usize,
    pub policy_max_agent_calls: usize,
}

/// Request to generate a recovery proposal for a failed workflow.
#[derive(Debug, PartialEq, Eq)]
pub struct RecoveryCreateRequest {
    /// Explicit Failure Analyzer agent id; bypasses routing but still goes
    /// through A2A.
    pub agent: Option<String>,
}

#[derive(Debug, PartialEq, Eq)]
pub struct RecoveryCreateResponse {
    pub recovery_id: Uuid,
}

/// One recovery proposal as reported when listing.
#[derive(Debug, PartialEq, Eq)]
pub struct RecoveryInfo {
    pub recovery_id: Uuid,
    pub workflow_id: Uuid,
    pub failed_node_id: String,
    pub status: String,
    pub planner_agent_id: Option<String>,
    pub validation_error: Option<String>,
    pub recovery_workflow_id: Option<Uuid>,
    pub attempt: i64,
    pub created_at: String,
    pub executed_at: Option<String>,
}

/// Request to preview (`check = true`) or execute (`check = false`) a recovery.
#[derive(Debug, PartialEq, Eq)]
pub struct RecoveryApplyRequest {
    /// Preview only; never claims the proposal or creates a child workflow.
    pub check: bool,
}

/// The `recovery execute --check` preview.
#[derive(Debug, PartialEq, Eq)]
pub struct RecoveryPreview {
    pub recovery_id: Uuid,
    pub workflow_id: Uuid,
    pub status: String,
    pub failed_node_id: String,
    pub attempt: i64,
    pub node_count: usize,
    pub estimated_agent_calls: usize,
    /// Evaluator agent calls across all consensus fix rounds.
    pub evaluation_agent_calls: usize,
    pub policy_max_nodes: usize,
    pub policy_max_agent_calls: usize,
    pub chain_calls_used: usize,
    pub chain_calls_max: usize,
}

/// One node of a workflow lineage chain.
#[derive(Debug, PartialEq, Eq)]
pub struct LineageNode {
    pub workflow_id: Uuid,
    pub preset: String,
    pub status: WorkflowStatus,
    pub parent_workflow_id: Option<Uuid>,
    pub recovery_of_node_id: Option<String>,
    pub recovery_attempt: i64,
    pub created_at: String,
}

/// A workflow's lineage: itself, its parent (if it is a recovery child) and its
/// recovery children.
#[derive(Debug, PartialEq, Eq)]
pub struct WorkflowLineage {
    pub workflow_id: Uuid,
    pub parent: Option<LineageNode>,
    pub recovery_children: Vec<LineageNode>,
}

/// One evaluation group in the compact `workflow evaluations` listing: the
/// round, group, valid-vote count, consensus outcome and snapshot hash.
#[derive(Debug, PartialEq, Eq)]
pub struct EvaluationRoundInfo {
    pub round: usize,
    pub group_id: Uuid,
    pub valid_count: usize,
    pub total_count: usize,
    pub result: Option<ConsensusOutcome>,
    pub snapshot_hash: Option<String>,
    pub status: String,
}

/// Request to run a standalone evaluation of a workflow's latest implementation.
#[derive(Debug, PartialEq, Eq)]
pub struct EvaluationStartRequest {
    /// Evaluators 1..=5 (default 3).
    pub evaluators: Option<usize>,
    /// `majority` | `unanimous` (default `majority`).
    pub strategy: Option<String>,
    /// Minimum valid results (default 2).
    pub quorum: Option<usize>,
}

#[derive(Debug, PartialEq, Eq)]
pub struct EvaluationStartResponse {
    pub workflow_id: Uuid,
    pub group_id: Uuid,
}

/// Request to generate a plan from a natural-language goal.
#[derive(Debug, PartialEq, Eq)]
pub struct PlanCreateRequest {
    pub goal: String,
    /// Explicit planner agent id; bypasses routing but still goes through A2A.
    pub agent: Option<String>,
}

/// Response to creating a plan: the daemon owns the planning task.
#[derive(Debug, PartialEq, Eq)]
pub struct PlanCreateResponse {
    pub plan_id: Uuid,
}

/// One plan as reported when listing.
#[derive(Debug, PartialEq, Eq)]
pub struct PlanInfo {
    pub plan_id: Uuid,
    pub goal: String,
    pub status: String,
    pub planner_agent_id: Option<String>,
    pub planner_task_id: Option<Uuid>,
    pub workflow_id: Option<Uuid>,
    pub validation_error: Option<String>,
    pub created_at: String,
    pub updated_at: String,
    pub executed_at: Option<String>,
}

/// One planned node as reported in a plan detail (preview).
#[derive(Debug, PartialEq, Eq)]
pub struct PlanNodeInfo {
    pub id: String,
    pub role: String,
    pub intent: String,
    pub objective: String,
    pub depends_on: Vec<String>,
}

/// Full detail of one plan, including its preview nodes.
#[derive(Debug, PartialEq, Eq)]
pub struct PlanDetail {
    pub plan_id: Uuid,
    pub goal: String,
    pub status: String,
    pub summary: Option<String>,
    pub nodes: Vec<PlanNodeInfo>,
    pub planner_agent_id: Option<String>,
    pub planner_task_id: Option<Uuid>,
    pub workflow_id: Option<Uuid>,
    pub validation_error: Option<String>,
    pub created_at: String,
    pub updated_at: String,
    pub executed_at: Option<String>,
    /// The active revision.
    pub current_revision: Option<i64>,
    /// Which revision actually executed (audit).
    pub executed_revision: Option<i64>,
    /// The current revision's raw plan JSON (for `plan show --json`, the edit
    /// round-trip and audit).
    pub plan_json: Option<String>,
}

/// Request to execute a ready plan (`max_parallel` comes from the CLI/config,
/// never from the plan itself). `check = true` previews without claiming or
/// creating a workflow (the CLI `--check` path).
#[derive(Debug, PartialEq, Eq)]
pub struct PlanExecuteRequest {
    pub max_parallel: usize,
    /// Preview only; never claims the plan or creates a workflow.
    pub check: bool,
    /// The explicit source project/repository the executed workflow operates
    /// on. Never part of the plan JSON — it is execution
    /// control-plane input.
    pub source_workspace: Option<String>,
}

/// Request to replace the current revision with an edited plan JSON. The edit
/// uses the exact same workflow plan schema as the
/// planner output — there is no second, editable DTO.
#[derive(Debug, PartialEq, Eq)]
pub struct PlanEditRequest {
    pub plan_json: String,
}

#[derive(Debug, PartialEq, Eq)]
pub struct PlanEditResponse {
    pub plan_id: Uuid,
    pub revision: i64,
}

/// One plan revision as reported by `plan revisions`.
#[derive(Debug, PartialEq, Eq)]
pub struct PlanRevisionInfo {
    pub revision: i64,
    pub source: String,
    pub created_at: String,
}

/// The active policy limits, for rendering the execution preview.
#[derive(Debug, PartialEq, Eq)]
pub struct PlanPolicyUsage {
    pub max_nodes: usize,
    pub max_agent_calls: usize,
    pub max_parallel: usize,
}

/// The `plan execute --check` preview: budget + policy usage, never a claim.
#[derive(Debug, PartialEq, Eq)]
pub struct PlanPreview {
    pub plan_id: Uuid,
    pub status: String,
    pub revision: Option<i64>,
    pub node_count: usize,
    pub estimated_agent_calls: usize,
    /// Evaluator agent calls across all consensus fix rounds.
    pub evaluation_agent_calls: usize,
    pub root_count: usize,
    pub terminal_count: usize,
    pub planning_calls: usize,
    pub max_parallel_requested: usize,
    pub effective_max_parallel: usize,
    pub policy: PlanPolicyUsage,
}

/// Request to run deterministic decision replay.
#[derive(Debug, PartialEq, Eq)]
pub struct WorkflowReplayRequest {
    pub verify_only: bool,
}

/// Response of deterministic decision replay.
#[derive(Debug, PartialEq, Eq)]
pub struct WorkflowReplayResponse {
    pub workflow_id: Uuid,
    pub passed: bool,
    pub is_legacy: bool,
    pub integrity_passed: bool,
    pub consensus_passed: bool,
    pub selection_passed: bool,
    pub apply_passed: bool,
    pub policy_passed: bool,
    pub mismatches: Vec<String>,
    pub details: Vec<String>,
}

/// Workflow lineage response.
#[derive(Debug, PartialEq, Eq)]
pub struct WorkflowLineageResponse {
    pub workflow_id: Uuid,
    pub preset: String,
    pub goal: String,
    pub status: String,
    pub parent_workflow_id: Option<Uuid>,
    pub recovery_workflows: Vec<Uuid>,
    pub plan_id: Option<Uuid>,
    pub graph_revision: i64,
    pub replans_count: usize,
    pub competition_group_id: Option<Uuid>,
    pub winner_candidate_id: Option<String>,
    pub evaluation_groups_count: usize,
    pub apply_id: Option<Uuid>,
    pub provenance_events_count: usize,
}

impl ApiError {
    /// An error payload without details.
    pub fn new(code: &str, message: String) -> (r: Self)
        ensures
            r.error.code@ == code@,
            r.error.message == message,
            r.error.details is None,
    {
        ApiError { error: ApiErrorBody { code: code.to_owned(), message, details: None } }
    }
}

} // verus!
