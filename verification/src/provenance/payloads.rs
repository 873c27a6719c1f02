//! The payloads of provenance events, and the event itself.

use vstd::prelude::*;

use crate::ids::Uuid;
use crate::json::{JsonNumber, JsonValue};
use crate::provenance::ranking::CandidateRankingEntry;
use crate::provenance::PolicySnapshot;
use crate::workflow::types::ConsensusOutcome;

verus! {

/// Metadata reference to an artifact without storing full raw content.
#[derive(Debug, PartialEq, Eq)]
pub struct ArtifactRef {
    pub id: Uuid,
    pub name: String,
    pub kind: String,
    pub size_bytes: Option<i64>,
    pub hash: Option<String>,
}

/// A plan was generated.
#[derive(Debug, PartialEq, Eq)]
pub struct PlanGeneratedPayload {
    pub plan_id: Uuid,
    pub revision: i64,
    pub goal: String,
    pub node_count: usize,
    pub policy: PolicySnapshot,
}

/// A plan was executed.
#[derive(Debug, PartialEq, Eq)]
pub struct PlanExecutedPayload {
    pub plan_id: Uuid,
    pub revision: i64,
    pub workflow_id: Uuid,
    pub node_count: usize,
    pub policy: PolicySnapshot,
}

/// A workflow was started.
#[derive(Debug, PartialEq, Eq)]
pub struct WorkflowStartedPayload {
    pub workflow_id: Uuid,
    pub preset: String,
    pub goal: String,
    pub source_workspace: Option<String>,
    pub base_revision: Option<String>,
    pub policy: PolicySnapshot,
}

/// An interrupted workflow was resumed.
#[derive(Debug, PartialEq, Eq)]
pub struct WorkflowResumedPayload {
    pub workflow_id: Uuid,
    pub from_status: String,
    pub resumed_nodes: Vec<String>,
}

/// A workflow was cancelled.
#[derive(Debug, PartialEq, Eq)]
pub struct WorkflowCancelledPayload {
    pub workflow_id: Uuid,
    pub reason: Option<String>,
}

/// A workflow completed.
#[derive(Debug, PartialEq, Eq)]
pub struct WorkflowCompletedPayload {
    pub workflow_id: Uuid,
    pub final_review_verdict: Option<String>,
    pub winner_candidate_id: Option<String>,
}

/// A workflow failed.
#[derive(Debug, PartialEq, Eq)]
pub struct WorkflowFailedPayload {
    pub workflow_id: Uuid,
    pub error: String,
}

/// A node started.
#[derive(Debug, PartialEq, Eq)]
pub struct NodeStartedPayload {
    pub node_id: String,
    pub role: String,
    pub intent: String,
    pub agent_id: String,
    pub session_lane: String,
    pub workspace_id: Option<Uuid>,
}

/// A node completed.
#[derive(Debug, PartialEq, Eq)]
pub struct NodeCompletedPayload {
    pub node_id: String,
    pub role: String,
    pub agent_id: String,
    pub task_id: Option<Uuid>,
    pub summary: Option<String>,
    pub snapshot_hash: Option<String>,
    pub artifacts: Vec<ArtifactRef>,
}

/// A node failed.
#[derive(Debug, PartialEq, Eq)]
pub struct NodeFailedPayload {
    pub node_id: String,
    pub role: String,
    pub agent_id: Option<String>,
    pub error: String,
}

/// A replan was proposed.
#[derive(Debug, PartialEq, Eq)]
pub struct ReplanProposedPayload {
    pub workflow_id: Uuid,
    pub base_graph_revision: i64,
    pub new_graph_revision: i64,
    pub reason: String,
    pub added_nodes: Vec<String>,
    pub removed_nodes: Vec<String>,
}

/// A replan was applied.
#[derive(Debug, PartialEq, Eq)]
pub struct ReplanAppliedPayload {
    pub workflow_id: Uuid,
    pub graph_revision: i64,
    pub node_count: usize,
}

/// A recovery was proposed.
#[derive(Debug, PartialEq, Eq)]
pub struct RecoveryProposedPayload {
    pub workflow_id: Uuid,
    pub failed_node_id: String,
    pub attempt: usize,
    pub strategy: String,
}

/// A recovery workflow was created.
#[derive(Debug, PartialEq, Eq)]
pub struct RecoveryWorkflowCreatedPayload {
    pub parent_workflow_id: Uuid,
    pub child_workflow_id: Uuid,
    pub recovery_of_node_id: String,
    pub attempt: usize,
}

/// An evaluation was started.
#[derive(Debug, PartialEq, Eq)]
pub struct EvaluationStartedPayload {
    pub group_id: Uuid,
    pub workflow_id: Uuid,
    pub candidate_id: Option<String>,
    pub round: usize,
    pub strategy: String,
    pub quorum: usize,
    pub evaluators: Vec<String>,
}

/// An evaluator completed.
#[derive(Debug, PartialEq, Eq)]
pub struct EvaluationCompletedPayload {
    pub member_id: Uuid,
    pub group_id: Uuid,
    pub node_id: String,
    pub agent_id: String,
    pub verdict: String,
    pub confidence: Option<JsonNumber>,
    pub issue_count: usize,
}

/// The consensus of an evaluation was computed.
#[derive(Debug, PartialEq, Eq)]
pub struct ConsensusComputedPayload {
    pub group_id: Uuid,
    pub workflow_id: Uuid,
    pub candidate_id: Option<String>,
    pub round: usize,
    pub outcome: ConsensusOutcome,
    pub approved_count: usize,
    pub changes_requested_count: usize,
    pub total_issues: usize,
}

/// A candidate started.
#[derive(Debug, PartialEq, Eq)]
pub struct CandidateStartedPayload {
    pub group_id: Uuid,
    pub candidate_id: String,
    pub agent_id: String,
    pub session_lane: String,
}

/// A candidate completed.
#[derive(Debug, PartialEq, Eq)]
pub struct CandidateCompletedPayload {
    pub group_id: Uuid,
    pub candidate_id: String,
    pub agent_id: String,
    pub task_id: Option<Uuid>,
    pub workspace_id: Option<Uuid>,
    pub snapshot_hash: Option<String>,
}

/// The consensus on a candidate was computed.
#[derive(Debug, PartialEq, Eq)]
pub struct CandidateConsensusComputedPayload {
    pub group_id: Uuid,
    pub candidate_id: String,
    pub outcome: String,
    pub approved_count: usize,
    pub valid_count: usize,
    pub issue_count: usize,
}

/// A winner was selected.
#[derive(Debug, PartialEq, Eq)]
pub struct WinnerSelectedPayload {
    pub group_id: Uuid,
    pub workflow_id: Uuid,
    pub winner_candidate_id: String,
    pub winner_agent_id: String,
    pub winner_task_id: Option<Uuid>,
    pub winner_workspace_id: Option<Uuid>,
    pub winner_snapshot_hash: Option<String>,
    pub candidate_rankings: Vec<CandidateRankingEntry>,
    pub selection_reason: String,
}

/// An apply was planned.
#[derive(Debug, PartialEq, Eq)]
pub struct ApplyPlannedPayload {
    pub apply_id: Uuid,
    pub workflow_id: Option<Uuid>,
    pub source_workspace: String,
    pub source_task_id: Option<Uuid>,
    pub snapshot_hash: Option<String>,
    pub target_branch: String,
    pub base_revision: String,
}

/// An apply completed.
#[derive(Debug, PartialEq, Eq)]
pub struct ApplyCompletedPayload {
    pub apply_id: Uuid,
    pub workflow_id: Option<Uuid>,
    pub source_workspace_id: Option<Uuid>,
    pub applied_commit: Option<String>,
    pub applied_files_count: usize,
    pub snapshot_hash: Option<String>,
}

/// A workspace was archived.
#[derive(Debug, PartialEq, Eq)]
pub struct WorkspaceArchivedPayload {
    pub workspace_id: Uuid,
    pub session_id: Uuid,
    pub path: String,
}

/// A workspace was removed.
#[derive(Debug, PartialEq, Eq)]
pub struct WorkspaceRemovedPayload {
    pub workspace_id: Uuid,
    pub session_id: Uuid,
    pub path: String,
}

/// A state was recorded after the fact.
#[derive(Debug, PartialEq, Eq)]
pub struct SyntheticSnapshotPayload {
    pub workflow_id: Uuid,
    pub synthetic: bool,
    pub schema_version: u32,
    pub note: String,
}

/// Fully resolved provenance event object for audit views, exports, and integrity verification.
#[derive(Debug, PartialEq, Eq)]
pub struct ProvenanceEvent {
    pub id: Uuid,
    pub workflow_id: Option<Uuid>,
    pub sequence: i64,
    pub event_type: String,
    pub entity_type: String,
    pub entity_id: String,
    pub parent_event_id: Option<Uuid>,
    pub actor_type: String,
    pub actor_id: Option<String>,
    pub payload: JsonValue,
    pub payload_hash: String,
    pub previous_hash: Option<String>,
    pub event_hash: String,
    pub created_at: String,
    pub schema_version: u32,
}

} // verus!
