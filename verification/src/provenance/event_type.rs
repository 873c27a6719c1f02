//! Stable provenance event types.

use vstd::prelude::*;

verus! {

pub const PLAN_GENERATED: &'static str = "PlanGenerated";

pub const PLAN_REVISED: &'static str = "PlanRevised";

pub const PLAN_EXECUTED: &'static str = "PlanExecuted";

pub const WORKFLOW_STARTED: &'static str = "WorkflowStarted";

pub const WORKFLOW_RESUMED: &'static str = "WorkflowResumed";

pub const WORKFLOW_CANCELLED: &'static str = "WorkflowCancelled";

pub const WORKFLOW_COMPLETED: &'static str = "WorkflowCompleted";

pub const WORKFLOW_FAILED: &'static str = "WorkflowFailed";

pub const NODE_STARTED: &'static str = "NodeStarted";

pub const NODE_COMPLETED: &'static str = "NodeCompleted";

pub const NODE_FAILED: &'static str = "NodeFailed";

pub const REPLAN_PROPOSED: &'static str = "ReplanProposed";

pub const REPLAN_APPLIED: &'static str = "ReplanApplied";

pub const RECOVERY_PROPOSED: &'static str = "RecoveryProposed";

pub const RECOVERY_WORKFLOW_CREATED: &'static str = "RecoveryWorkflowCreated";

pub const EVALUATION_STARTED: &'static str = "EvaluationStarted";

pub const EVALUATION_COMPLETED: &'static str = "EvaluationCompleted";

pub const CONSENSUS_COMPUTED: &'static str = "ConsensusComputed";

pub const CANDIDATE_STARTED: &'static str = "CandidateStarted";

pub const CANDIDATE_COMPLETED: &'static str = "CandidateCompleted";

pub const CANDIDATE_CONSENSUS_COMPUTED: &'static str = "CandidateConsensusComputed";

pub const WINNER_SELECTED: &'static str = "WinnerSelected";

pub const APPLY_PLANNED: &'static str = "ApplyPlanned";

pub const APPLY_COMPLETED: &'static str = "ApplyCompleted";

pub const WORKSPACE_ARCHIVED: &'static str = "WorkspaceArchived";

pub const WORKSPACE_REMOVED: &'static str = "WorkspaceRemoved";

pub const SYNTHETIC_SNAPSHOT: &'static str = "SyntheticSnapshot";

} // verus!
