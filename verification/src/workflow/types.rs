//! The data the workflow decisions work on.

use vstd::prelude::*;
use vstd::string::*;

use crate::ids::{id_text, Uuid};
use crate::model::TaskIntent;
use crate::text::{clone_opt, decimal, show_usize};
use crate::text::{begins_with, contains_text, ends_with, parts_stand_where_they_are};
use crate::text::longer_texts_contain_the_same;

verus! {

/// Lifecycle status of a workflow.
#[derive(Clone, Copy, Debug, PartialEq, Eq, Structural)]
pub enum WorkflowStatus {
    Pending,
    Running,
    Completed,
    Failed,
    Cancelled,
    Interrupted,
}

/// Lifecycle status of a persisted step or node.
#[derive(Clone, Copy, Debug, PartialEq, Eq, Structural)]
pub enum WorkflowStepStatus {
    Pending,
    Running,
    Completed,
    Failed,
    Cancelled,
    Skipped,
    Interrupted,
}

/// Scheduling status of a graph node.
#[derive(Clone, Copy, Debug, PartialEq, Eq, Structural)]
pub enum NodeStatus {
    Pending,
    Ready,
    Running,
    Completed,
    Failed,
    Skipped,
    Cancelled,
    Interrupted,
}

/// The roles that the evaluation bookkeeping tells apart.
#[derive(Clone, Copy, Debug, PartialEq, Eq, Structural)]
pub enum RoleKind {
    Implementer,
    Fixer,
    Evaluator,
    Candidate,
    ConsensusGate,
    SelectionGate,
    Other,
}

/// The role of a step or node.
#[derive(Debug, PartialEq, Eq)]
pub struct WorkflowRole {
    /// The stable text of the role.
    pub key: String,
    pub kind: RoleKind,
    /// Whether the role reviews the work of another.
    pub reviewer: bool,
}

impl Clone for WorkflowRole {
    fn clone(&self) -> (r: Self)
        ensures
            r == *self,
    {
        WorkflowRole { key: self.key.clone(), kind: self.kind, reviewer: self.reviewer }
    }
}

/// The verdict of a review.
#[derive(Debug, PartialEq, Eq)]
pub struct ReviewVerdict {
    /// The stable text of the verdict.
    pub key: String,
    /// Whether changes are asked for.
    pub changes_requested: bool,
}

impl Clone for ReviewVerdict {
    fn clone(&self) -> (r: Self)
        ensures
            r == *self,
    {
        ReviewVerdict { key: self.key.clone(), changes_requested: self.changes_requested }
    }
}

/// The review that a step made: its verdict, and all of it as it was stored.
#[derive(Debug, PartialEq, Eq)]
pub struct ReviewResult {
    pub verdict: ReviewVerdict,
    /// The whole review as JSON: verdict, confidence, summary and issues.
    pub json: String,
}

impl Clone for ReviewResult {
    fn clone(&self) -> (r: Self)
        ensures
            r == *self,
    {
        ReviewResult { verdict: self.verdict.clone(), json: self.json.clone() }
    }
}

/// A copy of an optional review.
pub fn clone_review(review: &Option<ReviewResult>) -> (r: Option<ReviewResult>)
    ensures
        r == *review,
{
    match review {
        Some(v) => Some(v.clone()),
        None => None,
    }
}

/// The outcome of a consensus of evaluators.
#[derive(Debug, PartialEq, Eq)]
pub enum ConsensusOutcome {
    Approved,
    ChangesRequested,
    /// There is no consensus to go by.
    Unavailable,
    /// Any other outcome, by its stable text.
    Other(String),
}

impl Clone for ConsensusOutcome {
    fn clone(&self) -> (r: Self)
        ensures
            r == *self,
    {
        match self {
            ConsensusOutcome::Approved => ConsensusOutcome::Approved,
            ConsensusOutcome::ChangesRequested => ConsensusOutcome::ChangesRequested,
            ConsensusOutcome::Unavailable => ConsensusOutcome::Unavailable,
            ConsensusOutcome::Other(text) => ConsensusOutcome::Other(text.clone()),
        }
    }
}

/// A persisted text and the value it stands for, where it stands for one.
#[derive(Debug, PartialEq, Eq)]
pub struct Decoded<T> {
    pub text: String,
    pub value: Option<T>,
}

/// One step of a workflow: what is to be done, and by which role.
#[derive(Debug, PartialEq, Eq)]
pub struct WorkflowStep {
    pub id: String,
    pub role: WorkflowRole,
    pub intent: TaskIntent,
    pub objective: Option<String>,
}

impl Clone for WorkflowStep {
    fn clone(&self) -> (r: Self)
        ensures
            r == *self,
    {
        WorkflowStep {
            id: self.id.clone(),
            role: self.role.clone(),
            intent: self.intent,
            objective: clone_opt(&self.objective),
        }
    }
}

/// The persisted result of a step.
#[derive(Debug, PartialEq, Eq)]
pub struct PersistedStepResult {
    pub step: WorkflowStep,
    pub status: WorkflowStepStatus,
    pub agent_id: Option<String>,
    pub task_id: Option<Uuid>,
    pub summary: Option<String>,
    /// The step's review, where it made one.
    pub review_result: Option<ReviewResult>,
    pub error: Option<String>,
}

impl Clone for PersistedStepResult {
    fn clone(&self) -> (r: Self)
        ensures
            r == *self,
    {
        PersistedStepResult {
            step: self.step.clone(),
            status: self.status,
            agent_id: clone_opt(&self.agent_id),
            task_id: self.task_id,
            summary: clone_opt(&self.summary),
            review_result: clone_review(&self.review_result),
            error: clone_opt(&self.error),
        }
    }
}

/// A step or node as it was read from storage.
#[derive(Debug, PartialEq, Eq)]
pub struct StoredStep {
    pub ordinal: i64,
    /// The node id; a step of a sequential workflow has none.
    pub node_id: Option<String>,
    pub role: Decoded<WorkflowRole>,
    /// The key of the step's intent.
    pub intent: String,
    pub objective: Option<String>,
    /// The status, read as the status of a step.
    pub status: Decoded<WorkflowStepStatus>,
    /// The same status, read as the status of a node.
    pub node_status: Option<NodeStatus>,
    pub agent_id: Option<String>,
    pub task_id: Option<Uuid>,
    pub review_round: i64,
    pub summary: Option<String>,
    /// The stored result.
    pub result_json: Option<String>,
    /// The stored result, where there is one that can be read.
    pub result: Option<PersistedStepResult>,
    /// The plain step of the row's role under its node id, where the role can
    /// be read.
    pub plain_step: Option<WorkflowStep>,
    pub created_at: String,
    pub started_at: Option<String>,
    pub completed_at: Option<String>,
    pub error: Option<String>,
}

/// A step or node as it is written to storage.
#[derive(Debug, PartialEq, Eq)]
pub struct WorkflowStepRow {
    pub id: Uuid,
    pub workflow_id: Uuid,
    pub ordinal: i64,
    pub node_id: Option<String>,
    pub role: WorkflowRole,
    pub intent: TaskIntent,
    pub objective: Option<String>,
    pub status: WorkflowStepStatus,
    pub agent_id: Option<String>,
    pub task_id: Option<Uuid>,
    pub review_round: i64,
    pub summary: Option<String>,
    pub result_json: Option<String>,
    pub created_at: String,
    pub started_at: Option<String>,
    pub completed_at: Option<String>,
    pub error: Option<String>,
}

/// A dependency of one node on another.
#[derive(Clone, Debug, PartialEq, Eq)]
pub struct DependencyEdge {
    pub node_id: String,
    pub depends_on_node_id: String,
}

/// A node of a workflow graph.
#[derive(Debug, PartialEq, Eq)]
pub struct WorkflowNode {
    pub node_id: String,
    pub role: WorkflowRole,
    pub intent: TaskIntent,
    pub dependencies: Vec<String>,
    pub objective: Option<String>,
}

/// A workflow as it was read from storage.
#[derive(Debug, PartialEq, Eq)]
pub struct StoredWorkflow {
    pub id: Uuid,
    pub preset: String,
    pub goal: String,
    pub status: Decoded<WorkflowStatus>,
    pub context_id: Option<Uuid>,
    pub error: Option<String>,
    pub created_at: String,
    pub updated_at: String,
    pub completed_at: Option<String>,
    pub graph_revision: i64,
    pub parent_workflow_id: Option<Uuid>,
    pub recovery_of_node_id: Option<String>,
    pub recovery_attempt: i64,
    pub source_workspace: Option<String>,
}

/// How many review rounds a workflow may take and how many nodes it may run
/// at once.
#[derive(Clone, Copy, Debug, PartialEq, Eq, Structural)]
pub struct WorkflowOptions {
    pub max_review_rounds: usize,
    pub max_parallel: usize,
}

/// Errors produced by the workflow service. An error of another layer is
/// carried by its message.
#[derive(Debug, PartialEq, Eq)]
pub enum WorkflowError {
    NotFound(Uuid),
    NotRunning(Uuid),
    NotResumable(Uuid, String),
    DirectoryUninitialized,
    InvalidSourceWorkspace(String, String),
    EvaluationBudgetExceeded(usize, usize),
    CompetitionBudgetExceeded(usize, usize),
    InsufficientCandidates(usize, usize),
    InsufficientEvaluationPanel(usize, usize),
    FixRoundPolicy(String),
    InvalidState(String),
    Storage(String),
    Orchestrator(String),
    Task(String),
}

/// The message of a workflow error.
pub open spec fn workflow_error_text(e: WorkflowError) -> Seq<char> {
    match e {
        WorkflowError::NotFound(id) => "workflow `"@ + id_text(id.bits) + "` not found"@,
        WorkflowError::NotRunning(id) => "workflow `"@ + id_text(id.bits) + "` is not running"@,
        WorkflowError::NotResumable(id, status) => "workflow `"@ + id_text(id.bits)
            + "` is not resumable (status `"@ + status@
            + "`); only interrupted workflows resume"@,
        WorkflowError::DirectoryUninitialized => "agent directory is not initialized"@,
        WorkflowError::InvalidSourceWorkspace(path, reason) => "InvalidSourceWorkspace `"@ + path@
            + "`: "@ + reason@,
        WorkflowError::EvaluationBudgetExceeded(needed, limit) =>
            "EvaluationBudgetExceeded: the consensus graph needs "@ + decimal(needed as nat)
            + " evaluator calls but the limit is "@ + decimal(limit as nat),
        WorkflowError::CompetitionBudgetExceeded(needed, limit) =>
            "CompetitionBudgetExceeded: the competition needs "@ + decimal(needed as nat)
            + " candidate calls but the limit is "@ + decimal(limit as nat),
        WorkflowError::InsufficientCandidates(needed, found) => "InsufficientCandidates: need "@
            + decimal(needed as nat) + " distinct candidate agents, only "@ + decimal(found as nat)
            + " available"@,
        WorkflowError::InsufficientEvaluationPanel(needed, found) =>
            "InsufficientEvaluationPanel: need "@ + decimal(needed as nat)
            + " distinct evaluator agents, only "@ + decimal(found as nat) + " available"@,
        WorkflowError::FixRoundPolicy(reason) => "consensus fix round rejected by policy: "@
            + reason@,
        WorkflowError::InvalidState(reason) => "invalid persisted workflow state: "@ + reason@,
        WorkflowError::Storage(message) => "storage error: "@ + message@,
        WorkflowError::Orchestrator(message) => "orchestrator error: "@ + message@,
        WorkflowError::Task(message) => "task error: "@ + message@,
    }
}

impl WorkflowError {
    /// The message of the error.
    pub fn message(&self) -> (r: String)
        ensures
            r@ == workflow_error_text(*self),
    {
        match self {
            WorkflowError::NotFound(id) => "workflow `".to_owned().concat(
                id.to_text().as_str(),
            ).concat("` not found"),
            WorkflowError::NotRunning(id) => "workflow `".to_owned().concat(
                id.to_text().as_str(),
            ).concat("` is not running"),
            WorkflowError::NotResumable(id, status) => "workflow `".to_owned().concat(
                id.to_text().as_str(),
            ).concat("` is not resumable (status `").concat(status.as_str()).concat(
                "`); only interrupted workflows resume",
            ),
            WorkflowError::DirectoryUninitialized => "agent directory is not initialized".to_owned(),
            WorkflowError::InvalidSourceWorkspace(path, reason) =>
                "InvalidSourceWorkspace `".to_owned().concat(path.as_str()).concat("`: ").concat(
                reason.as_str(),
            ),
            WorkflowError::EvaluationBudgetExceeded(needed, limit) =>
                "EvaluationBudgetExceeded: the consensus graph needs ".to_owned().concat(
                show_usize(*needed).as_str(),
            ).concat(" evaluator calls but the limit is ").concat(show_usize(*limit).as_str()),
            WorkflowError::CompetitionBudgetExceeded(needed, limit) =>
                "CompetitionBudgetExceeded: the competition needs ".to_owned().concat(
                show_usize(*needed).as_str(),
            ).concat(" candidate calls but the limit is ").concat(show_usize(*limit).as_str()),
            WorkflowError::InsufficientCandidates(needed, found) =>
                "InsufficientCandidates: need ".to_owned().concat(
                show_usize(*needed).as_str(),
            ).concat(" distinct candidate agents, only ").concat(
                show_usize(*found).as_str(),
            ).concat(" available"),
            WorkflowError::InsufficientEvaluationPanel(needed, found) =>
                "InsufficientEvaluationPanel: need ".to_owned().concat(
                show_usize(*needed).as_str(),
            ).concat(" distinct evaluator agents, only ").concat(
                show_usize(*found).as_str(),
            ).concat(" available"),
            WorkflowError::FixRoundPolicy(reason) =>
                "consensus fix round rejected by policy: ".to_owned().concat(reason.as_str()),
            WorkflowError::InvalidState(reason) =>
                "invalid persisted workflow state: ".to_owned().concat(reason.as_str()),
            WorkflowError::Storage(message) => "storage error: ".to_owned().concat(
                message.as_str(),
            ),
            WorkflowError::Orchestrator(message) => "orchestrator error: ".to_owned().concat(
                message.as_str(),
            ),
            WorkflowError::Task(message) => "task error: ".to_owned().concat(message.as_str()),
        }
    }
}

/// The message of a workflow whose persisted status cannot be read.
pub open spec fn unreadable_status_text(status: Seq<char>) -> Seq<char> {
    "invalid persisted workflow state: "@ + ("unknown status "@ + status)
}

/// The message of a workflow whose persisted status cannot be read.
pub fn unreadable_status(status: &str) -> (r: String)
    ensures
        r@ == unreadable_status_text(status@),
{
    WorkflowError::InvalidState("unknown status ".to_owned().concat(status)).message()
}

/// Whether the result is the error of an invalid persisted state, with this
/// reason.
pub open spec fn is_invalid_state<T>(r: Result<T, WorkflowError>, reason: Seq<char>) -> bool {
    r matches Err(WorkflowError::InvalidState(text)) && text@ == reason
}

/// The message of an error names what the error is about: ids, statuses, numbers
/// and reasons.
#[verifier::rlimit(40)]
pub proof fn workflow_messages_name_their_subject(e: WorkflowError)
    ensures
        e matches WorkflowError::NotFound(id)
            ==> contains_text(workflow_error_text(e), id_text(id.bits)),
        e matches WorkflowError::NotRunning(id)
            ==> contains_text(workflow_error_text(e), id_text(id.bits)),
        e matches WorkflowError::NotResumable(id, status)
            ==> contains_text(workflow_error_text(e), id_text(id.bits))
            && contains_text(workflow_error_text(e), status@),
        e matches WorkflowError::InvalidSourceWorkspace(path, reason)
            ==> contains_text(workflow_error_text(e), path@)
            && contains_text(workflow_error_text(e), reason@),
        e matches WorkflowError::EvaluationBudgetExceeded(needed, limit)
            ==> contains_text(workflow_error_text(e), decimal(needed as nat))
            && contains_text(workflow_error_text(e), decimal(limit as nat)),
        e matches WorkflowError::CompetitionBudgetExceeded(needed, limit)
            ==> contains_text(workflow_error_text(e), decimal(needed as nat))
            && contains_text(workflow_error_text(e), decimal(limit as nat)),
        e matches WorkflowError::InsufficientCandidates(needed, found)
            ==> contains_text(workflow_error_text(e), decimal(needed as nat))
            && contains_text(workflow_error_text(e), decimal(found as nat)),
        e matches WorkflowError::InsufficientEvaluationPanel(needed, found)
            ==> contains_text(workflow_error_text(e), decimal(needed as nat))
            && contains_text(workflow_error_text(e), decimal(found as nat)),
        e matches WorkflowError::FixRoundPolicy(reason)
            ==> contains_text(workflow_error_text(e), reason@),
        e matches WorkflowError::InvalidState(reason)
            ==> contains_text(workflow_error_text(e), reason@),
        e matches WorkflowError::Storage(message)
            ==> contains_text(workflow_error_text(e), message@),
        e matches WorkflowError::Orchestrator(message)
            ==> contains_text(workflow_error_text(e), message@),
        e matches WorkflowError::Task(message) ==> contains_text(workflow_error_text(e), message@),
{
    match e {
        WorkflowError::NotFound(id) => {
            let t0 = "workflow `"@;
            let t1 = t0 + id_text(id.bits);
            let t2 = t1 + "` not found"@;
            assert(workflow_error_text(e) == t2);
            told_last(t0, id_text(id.bits));
            longer_texts_contain_the_same(t1, id_text(id.bits), "` not found"@);
        },
        WorkflowError::NotRunning(id) => {
            let t0 = "workflow `"@;
            let t1 = t0 + id_text(id.bits);
            let t2 = t1 + "` is not running"@;
            assert(workflow_error_text(e) == t2);
            told_last(t0, id_text(id.bits));
            longer_texts_contain_the_same(t1, id_text(id.bits), "` is not running"@);
        },
        WorkflowError::NotResumable(id, status) => {
            let t0 = "workflow `"@;
            let t1 = t0 + id_text(id.bits);
            let t2 = t1 + "` is not resumable (status `"@;
            let t3 = t2 + status@;
            let t4 = t3 + "`); only interrupted workflows resume"@;
            assert(workflow_error_text(e) == t4);
            told_last(t0, id_text(id.bits));
            longer_texts_contain_the_same(t1, id_text(id.bits), "` is not resumable (status `"@);
            longer_texts_contain_the_same(t2, id_text(id.bits), status@);
            longer_texts_contain_the_same(
                t3,
                id_text(id.bits),
                "`); only interrupted workflows resume"@,
            );
            told_last(t2, status@);
            longer_texts_contain_the_same(t3, status@, "`); only interrupted workflows resume"@);
        },
        WorkflowError::InvalidSourceWorkspace(path, reason) => {
            let t0 = "InvalidSourceWorkspace `"@;
            let t1 = t0 + path@;
            let t2 = t1 + "`: "@;
            let t3 = t2 + reason@;
            assert(workflow_error_text(e) == t3);
            told_last(t0, path@);
            longer_texts_contain_the_same(t1, path@, "`: "@);
            longer_texts_contain_the_same(t2, path@, reason@);
            told_last(t2, reason@);
        },
        WorkflowError::EvaluationBudgetExceeded(needed, limit) => {
            let t0 = "EvaluationBudgetExceeded: the consensus graph needs "@;
            let t1 = t0 + decimal(needed as nat);
            let t2 = t1 + " evaluator calls but the limit is "@;
            let t3 = t2 + decimal(limit as nat);
            assert(workflow_error_text(e) == t3);
            told_last(t0, decimal(needed as nat));
            longer_texts_contain_the_same(
                t1,
                decimal(needed as nat),
                " evaluator calls but the limit is "@,
            );
            longer_texts_contain_the_same(t2, decimal(needed as nat), decimal(limit as nat));
            told_last(t2, decimal(limit as nat));
        },
        WorkflowError::CompetitionBudgetExceeded(needed, limit) => {
            let t0 = "CompetitionBudgetExceeded: the competition needs "@;
            let t1 = t0 + decimal(needed as nat);
            let t2 = t1 + " candidate calls but the limit is "@;
            let t3 = t2 + decimal(limit as nat);
            assert(workflow_error_text(e) == t3);
            told_last(t0, decimal(needed as nat));
            longer_texts_contain_the_same(
                t1,
                decimal(needed as nat),
                " candidate calls but the limit is "@,
            );
            longer_texts_contain_the_same(t2, decimal(needed as nat), decimal(limit as nat));
            told_last(t2, decimal(limit as nat));
        },
        WorkflowError::InsufficientCandidates(needed, found) => {
            let t0 = "InsufficientCandidates: need "@;
            let t1 = t0 + decimal(needed as nat);
            let t2 = t1 + " distinct candidate agents, only "@;
            let t3 = t2 + decimal(found as nat);
            let t4 = t3 + " available"@;
            assert(workflow_error_text(e) == t4);
            told_last(t0, decimal(needed as nat));
            longer_texts_contain_the_same(
                t1,
                decimal(needed as nat),
                " distinct candidate agents, only "@,
            );
            longer_texts_contain_the_same(t2, decimal(needed as nat), decimal(found as nat));
            longer_texts_contain_the_same(t3, decimal(needed as nat), " available"@);
            told_last(t2, decimal(found as nat));
            longer_texts_contain_the_same(t3, decimal(found as nat), " available"@);
        },
        WorkflowError::InsufficientEvaluationPanel(needed, found) => {
            let t0 = "InsufficientEvaluationPanel: need "@;
            let t1 = t0 + decimal(needed as nat);
            let t2 = t1 + " distinct evaluator agents, only "@;
            let t3 = t2 + decimal(found as nat);
            let t4 = t3 + " available"@;
            assert(workflow_error_text(e) == t4);
            told_last(t0, decimal(needed as nat));
            longer_texts_contain_the_same(
                t1,
                decimal(needed as nat),
                " distinct evaluator agents, only "@,
            );
            longer_texts_contain_the_same(t2, decimal(needed as nat), decimal(found as nat));
            longer_texts_contain_the_same(t3, decimal(needed as nat), " available"@);
            told_last(t2, decimal(found as nat));
            longer_texts_contain_the_same(t3, decimal(found as nat), " available"@);
        },
        WorkflowError::FixRoundPolicy(reason) => {
            let t0 = "consensus fix round rejected by policy: "@;
            let t1 = t0 + reason@;
            assert(workflow_error_text(e) == t1);
            told_last(t0, reason@);
        },
        WorkflowError::InvalidState(reason) => {
            let t0 = "invalid persisted workflow state: "@;
            let t1 = t0 + reason@;
            assert(workflow_error_text(e) == t1);
            told_last(t0, reason@);
        },
        WorkflowError::Storage(message) => {
            let t0 = "storage error: "@;
            let t1 = t0 + message@;
            assert(workflow_error_text(e) == t1);
            told_last(t0, message@);
        },
        WorkflowError::Orchestrator(message) => {
            let t0 = "orchestrator error: "@;
            let t1 = t0 + message@;
            assert(workflow_error_text(e) == t1);
            told_last(t0, message@);
        },
        WorkflowError::Task(message) => {
            let t0 = "task error: "@;
            let t1 = t0 + message@;
            assert(workflow_error_text(e) == t1);
            told_last(t0, message@);
        },
        _ => {},
    }
}

proof fn told_last(head: Seq<char>, part: Seq<char>)
    ensures
        contains_text(head + part, part),
{
    parts_stand_where_they_are(head, part, Seq::empty());
    assert(head + part + Seq::<char>::empty() =~= head + part);
}

/// A status that cannot be read is told as it is stored.
pub proof fn unreadable_status_is_told(status: Seq<char>)
    ensures
        ends_with(unreadable_status_text(status), status),
        begins_with(unreadable_status_text(status), "invalid persisted workflow state: "@),
{
    let head = "invalid persisted workflow state: "@;
    parts_stand_where_they_are(head, "unknown status "@, status);
    assert(unreadable_status_text(status) =~= head + "unknown status "@ + status);
}

/// An invalid persisted state is told with its reason.
pub proof fn invalid_state_tells_its_reason<T>(r: Result<T, WorkflowError>, reason: Seq<char>)
    requires
        is_invalid_state(r, reason),
    ensures
        r is Err,
        r->Err_0 matches WorkflowError::InvalidState(text) && text@ == reason,
{
}

} // verus!
