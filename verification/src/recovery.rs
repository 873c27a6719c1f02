//! Failure recovery with bounded self-healing.
//!
//! A failed workflow stays failed; it is never reopened. Recovery runs as a
//! new child workflow, from a proposal that a user approves. Attempts and
//! agent calls are bounded, and a proposal is never executed by itself unless
//! that is explicitly asked for.

use vstd::prelude::*;
use vstd::string::*;
use vstd::utf8::*;

use crate::config::RecoveryConfig;
use crate::ids::{id_text, is_random_id, is_time_text, now_text, Uuid};
use crate::model::{kind_key, Artifact};
use crate::protocol::{PlanPolicyUsage, RecoveryInfo, RecoveryPreview};
use crate::text::{begins_with, contains_text, ends_with, stands_at};
use crate::text::{chars_of, clone_opt, decimal, opt_text, same_text, show_usize, string_of, texts};
use crate::workflow::queries::{pair_texts, RecoveryInputs};
use crate::workflow::types::{unreadable_status, unreadable_status_text, Decoded, WorkflowStatus};
use crate::text::parts_stand_where_they_are;
use crate::text::longer_texts_contain_the_same;

verus! {

/// Bounded recovery policy (from `[recovery]` config, defaults safe).
#[derive(Clone, Copy, Debug, PartialEq, Eq, Structural)]
pub struct RecoveryPolicy {
    pub max_attempts: usize,
    pub auto_generate: bool,
    pub auto_execute: bool,
    pub max_recovery_agent_calls: usize,
}

/// Hard cap on recovery attempts: no unbounded self-healing.
pub const MAX_ATTEMPTS_CAP: usize = 2;

impl Default for RecoveryPolicy {
    fn default() -> (r: Self)
        ensures
            r == (RecoveryPolicy {
                max_attempts: 1,
                auto_generate: true,
                auto_execute: false,
                max_recovery_agent_calls: 6,
            }),
    {
        RecoveryPolicy {
            max_attempts: 1,
            auto_generate: true,
            auto_execute: false,
            max_recovery_agent_calls: 6,
        }
    }
}

/// The policy that a configuration asks for: what it leaves open is the
/// default, and the attempts are held to the cap.
pub open spec fn policy_of(config: RecoveryConfig) -> RecoveryPolicy {
    RecoveryPolicy {
        max_attempts: match config.max_attempts {
            Some(n) => if n < MAX_ATTEMPTS_CAP {
                n
            } else {
                MAX_ATTEMPTS_CAP
            },
            None => 1,
        },
        auto_generate: match config.auto_generate {
            Some(b) => b,
            None => true,
        },
        auto_execute: match config.auto_execute {
            Some(b) => b,
            None => false,
        },
        max_recovery_agent_calls: match config.max_recovery_agent_calls {
            Some(n) => n,
            None => 6,
        },
    }
}

impl RecoveryPolicy {
    /// Build from `[recovery]`; absent fields use defaults; the attempts are
    /// held to [`MAX_ATTEMPTS_CAP`].
    pub fn from_config(config: &RecoveryConfig) -> (r: Self)
        ensures
            r == policy_of(*config),
    {
        let default = RecoveryPolicy::default();
        let asked: usize = config.max_attempts.unwrap_or(default.max_attempts);
        let max_attempts: usize = if asked < MAX_ATTEMPTS_CAP {
            asked
        } else {
            MAX_ATTEMPTS_CAP
        };
        RecoveryPolicy {
            max_attempts,
            auto_generate: config.auto_generate.unwrap_or(default.auto_generate),
            auto_execute: config.auto_execute.unwrap_or(default.auto_execute),
            max_recovery_agent_calls: config.max_recovery_agent_calls.unwrap_or(
                default.max_recovery_agent_calls,
            ),
        }
    }
}

/// Lifecycle status of a recovery proposal.
#[derive(Clone, Copy, Debug, PartialEq, Eq, Structural)]
pub enum RecoveryStatus {
    Generating,
    Ready,
    Executing,
    Executed,
    Invalid,
    Failed,
    Rejected,
}

/// The text that a status is persisted under.
pub open spec fn recovery_status_text(status: RecoveryStatus) -> Seq<char> {
    match status {
        RecoveryStatus::Generating => "generating"@,
        RecoveryStatus::Ready => "ready"@,
        RecoveryStatus::Executing => "executing"@,
        RecoveryStatus::Executed => "executed"@,
        RecoveryStatus::Invalid => "invalid"@,
        RecoveryStatus::Failed => "failed"@,
        RecoveryStatus::Rejected => "rejected"@,
    }
}

impl RecoveryStatus {
    /// Stable snake_case text used for persistence and the wire.
    pub fn as_str(&self) -> (r: &'static str)
        ensures
            r@ == recovery_status_text(*self),
    {
        match self {
            RecoveryStatus::Generating => "generating",
            RecoveryStatus::Ready => "ready",
            RecoveryStatus::Executing => "executing",
            RecoveryStatus::Executed => "executed",
            RecoveryStatus::Invalid => "invalid",
            RecoveryStatus::Failed => "failed",
            RecoveryStatus::Rejected => "rejected",
        }
    }

    /// Whether a persisted text names this status.
    pub fn is(&self, text: &String) -> (r: bool)
        ensures
            r == (text@ == recovery_status_text(*self)),
    {
        same_text(text.as_str(), self.as_str())
    }
}

/// Different statuses are persisted under different texts.
pub proof fn recovery_status_text_injective(a: RecoveryStatus, b: RecoveryStatus)
    requires
        recovery_status_text(a) == recovery_status_text(b),
    ensures
        a == b,
{
    reveal_strlit("generating");
    reveal_strlit("ready");
    reveal_strlit("executing");
    reveal_strlit("executed");
    reveal_strlit("invalid");
    reveal_strlit("failed");
    reveal_strlit("rejected");
    let x = recovery_status_text(a);
    let y = recovery_status_text(b);
    assert(x.len() == y.len());
    assert(x[0] == y[0] && x[1] == y[1]);
    if x.len() > 8 {
        assert(x[0] == y[0]);
    }
}

/// Whether a new proposal is executed without being asked for: only when the
/// policy says so and the proposal is ready.
pub fn executes_by_itself(policy: &RecoveryPolicy, row: &WorkflowRecoveryRow) -> (r: bool)
    ensures
        r == (policy.auto_execute && row.status@ == recovery_status_text(RecoveryStatus::Ready)),
        r ==> policy.auto_execute && row.status@ == "ready"@,
{
    policy.auto_execute && RecoveryStatus::Ready.is(&row.status)
}

/// Nothing is executed without being asked for unless the configuration says
/// so explicitly.
pub proof fn execution_is_opt_in(config: RecoveryConfig)
    ensures
        policy_of(config).auto_execute <==> config.auto_execute == Some(true),
{
}

/// Errors produced by the recovery service. An error of another layer is
/// carried by its message.
#[derive(Debug, PartialEq, Eq)]
pub enum RecoveryError {
    NotFound(Uuid),
    WorkflowNotFound(Uuid),
    WorkflowNotFailed(Uuid, String),
    NoFailedNode(Uuid),
    RecoveryLimitReached { workflow_id: Uuid, attempt: usize, max_attempts: usize },
    RecoveryBudgetExceeded { workflow_id: Uuid, used: usize, requested: usize, max: usize },
    NotReady(Uuid, String),
    AlreadyExecuted(Uuid),
    AlreadyPending { workflow_id: Uuid, recovery_id: Uuid },
    ExecutionInProgress(Uuid),
    DirectoryUninitialized,
    AnalyzerTaskFailed(String),
    InvalidPlan(String),
    PolicyViolation(Uuid, String),
    Storage(String),
    Workflow(String),
    Orchestrator(String),
}

/// The message of a recovery error.
pub open spec fn recovery_error_text(e: RecoveryError) -> Seq<char> {
    match e {
        RecoveryError::NotFound(id) => "recovery `"@ + id_text(id.bits) + "` not found"@,
        RecoveryError::WorkflowNotFound(id) => "workflow `"@ + id_text(id.bits) + "` not found"@,
        RecoveryError::WorkflowNotFailed(id, status) => "workflow `"@ + id_text(id.bits)
            + "` cannot be recovered (status `"@ + status@ + "`); only failed workflows recover"@,
        RecoveryError::NoFailedNode(id) => "workflow `"@ + id_text(id.bits)
            + "` has no failed node to recover"@,
        RecoveryError::RecoveryLimitReached { workflow_id, attempt, max_attempts } =>
            "recovery limit reached for workflow `"@ + id_text(workflow_id.bits) + "` (attempt "@
            + decimal(attempt as nat) + " > max "@ + decimal(max_attempts as nat) + ")"@,
        RecoveryError::RecoveryBudgetExceeded { workflow_id, used, requested, max } =>
            "recovery agent-call budget exceeded for workflow `"@ + id_text(workflow_id.bits)
            + "` ("@ + decimal(used as nat) + " used + "@ + decimal(requested as nat) + " > max "@
            + decimal(max as nat) + ")"@,
        RecoveryError::NotReady(id, status) => "recovery `"@ + id_text(id.bits)
            + "` is not ready (status `"@ + status@ + "`); only ready proposals execute"@,
        RecoveryError::AlreadyExecuted(id) => "recovery `"@ + id_text(id.bits)
            + "` has already been executed"@,
        RecoveryError::AlreadyPending { workflow_id, recovery_id } => "workflow `"@ + id_text(
            workflow_id.bits,
        ) + "` already has a pending recovery proposal `"@ + id_text(recovery_id.bits)
            + "`; run `recovery execute "@ + id_text(recovery_id.bits)
            + "` instead of generating a competing one"@,
        RecoveryError::ExecutionInProgress(id) => "recovery `"@ + id_text(id.bits)
            + "` execution is already in progress by another caller"@,
        RecoveryError::DirectoryUninitialized => "agent directory is not initialized"@,
        RecoveryError::AnalyzerTaskFailed(reason) => "failure analyzer task failed: "@ + reason@,
        RecoveryError::InvalidPlan(reason) => "invalid recovery plan: "@ + reason@,
        RecoveryError::PolicyViolation(id, violation) => "recovery `"@ + id_text(id.bits)
            + "` violates policy: "@ + violation@,
        RecoveryError::Storage(message) => "storage error: "@ + message@,
        RecoveryError::Workflow(message) => "workflow error: "@ + message@,
        RecoveryError::Orchestrator(message) => "orchestrator error: "@ + message@,
    }
}

impl RecoveryError {
    /// The message of the error.
    pub fn message(&self) -> (r: String)
        ensures
            r@ == recovery_error_text(*self),
    {
        match self {
            RecoveryError::NotFound(id) => "recovery `".to_owned().concat(
                id.to_text().as_str(),
            ).concat("` not found"),
            RecoveryError::WorkflowNotFound(id) => "workflow `".to_owned().concat(
                id.to_text().as_str(),
            ).concat("` not found"),
            RecoveryError::WorkflowNotFailed(id, status) => "workflow `".to_owned().concat(
                id.to_text().as_str(),
            ).concat("` cannot be recovered (status `").concat(status.as_str()).concat(
                "`); only failed workflows recover",
            ),
            RecoveryError::NoFailedNode(id) => "workflow `".to_owned().concat(
                id.to_text().as_str(),
            ).concat("` has no failed node to recover"),
            RecoveryError::RecoveryLimitReached { workflow_id, attempt, max_attempts } =>
                "recovery limit reached for workflow `".to_owned().concat(
                workflow_id.to_text().as_str(),
            ).concat("` (attempt ").concat(show_usize(*attempt).as_str()).concat(" > max ").concat(
                show_usize(*max_attempts).as_str(),
            ).concat(")"),
            RecoveryError::RecoveryBudgetExceeded { workflow_id, used, requested, max } =>
                "recovery agent-call budget exceeded for workflow `".to_owned().concat(
                workflow_id.to_text().as_str(),
            ).concat("` (").concat(show_usize(*used).as_str()).concat(" used + ").concat(
                show_usize(*requested).as_str(),
            ).concat(" > max ").concat(show_usize(*max).as_str()).concat(")"),
            RecoveryError::NotReady(id, status) => "recovery `".to_owned().concat(
                id.to_text().as_str(),
            ).concat("` is not ready (status `").concat(status.as_str()).concat(
                "`); only ready proposals execute",
            ),
            RecoveryError::AlreadyExecuted(id) => "recovery `".to_owned().concat(
                id.to_text().as_str(),
            ).concat("` has already been executed"),
            RecoveryError::AlreadyPending { workflow_id, recovery_id } =>
                "workflow `".to_owned().concat(workflow_id.to_text().as_str()).concat(
                "` already has a pending recovery proposal `",
            ).concat(recovery_id.to_text().as_str()).concat("`; run `recovery execute ").concat(
                recovery_id.to_text().as_str(),
            ).concat("` instead of generating a competing one"),
            RecoveryError::ExecutionInProgress(id) => "recovery `".to_owned().concat(
                id.to_text().as_str(),
            ).concat("` execution is already in progress by another caller"),
            RecoveryError::DirectoryUninitialized => "agent directory is not initialized".to_owned(),
            RecoveryError::AnalyzerTaskFailed(reason) =>
                "failure analyzer task failed: ".to_owned().concat(reason.as_str()),
            RecoveryError::InvalidPlan(reason) => "invalid recovery plan: ".to_owned().concat(
                reason.as_str(),
            ),
            RecoveryError::PolicyViolation(id, violation) => "recovery `".to_owned().concat(
                id.to_text().as_str(),
            ).concat("` violates policy: ").concat(violation.as_str()),
            RecoveryError::Storage(message) => "storage error: ".to_owned().concat(
                message.as_str(),
            ),
            RecoveryError::Workflow(message) => "workflow error: ".to_owned().concat(
                message.as_str(),
            ),
            RecoveryError::Orchestrator(message) => "orchestrator error: ".to_owned().concat(
                message.as_str(),
            ),
        }
    }
}

/// A recovery proposal as it is stored.
#[derive(Debug, PartialEq, Eq)]
pub struct WorkflowRecoveryRow {
    pub id: Uuid,
    pub workflow_id: Uuid,
    pub failed_node_id: String,
    pub status: String,
    pub planner_agent_id: Option<String>,
    pub planner_task_id: Option<Uuid>,
    pub plan_json: Option<String>,
    pub validation_error: Option<String>,
    pub recovery_workflow_id: Option<Uuid>,
    pub attempt: i64,
    pub created_at: String,
    pub executed_at: Option<String>,
}

/// A new proposal: it is being generated, and nothing is known of it yet.
pub fn new_recovery(
    id: Uuid,
    workflow_id: Uuid,
    failed_node_id: &String,
    attempt: usize,
    now: String,
) -> (r: WorkflowRecoveryRow)
    requires
        attempt <= i64::MAX,
    ensures
        r.status@ == recovery_status_text(RecoveryStatus::Generating),
        r == (WorkflowRecoveryRow {
            id,
            workflow_id,
            failed_node_id: *failed_node_id,
            status: r.status,
            planner_agent_id: None,
            planner_task_id: None,
            plan_json: None,
            validation_error: None,
            recovery_workflow_id: None,
            attempt: attempt as i64,
            created_at: now,
            executed_at: None,
        }),
{
    WorkflowRecoveryRow {
        id,
        workflow_id,
        failed_node_id: failed_node_id.clone(),
        status: RecoveryStatus::Generating.as_str().to_owned(),
        planner_agent_id: None,
        planner_task_id: None,
        plan_json: None,
        validation_error: None,
        recovery_workflow_id: None,
        attempt: attempt as i64,
        created_at: now,
        executed_at: None,
    }
}

/// A new proposal under a fresh id, as of now.
pub fn fresh_recovery(workflow_id: Uuid, failed_node_id: &String, attempt: usize) -> (r:
    WorkflowRecoveryRow)
    requires
        attempt <= i64::MAX,
    ensures
        r.status@ == recovery_status_text(RecoveryStatus::Generating),
        is_random_id(r.id.bits),
        is_time_text(r.created_at@),
        r == (WorkflowRecoveryRow {
            id: r.id,
            workflow_id,
            failed_node_id: *failed_node_id,
            status: r.status,
            planner_agent_id: None,
            planner_task_id: None,
            plan_json: None,
            validation_error: None,
            recovery_workflow_id: None,
            attempt: attempt as i64,
            created_at: r.created_at,
            executed_at: None,
        }),
{
    new_recovery(Uuid::new_v4(), workflow_id, failed_node_id, attempt, now_text())
}

/// Whether the status of a proposal is this one.
pub open spec fn recovery_is(row: WorkflowRecoveryRow, status: RecoveryStatus) -> bool {
    row.status@ == recovery_status_text(status)
}

/// Whether a proposal still stands in the way of another one.
pub open spec fn is_open(row: WorkflowRecoveryRow) -> bool {
    recovery_is(row, RecoveryStatus::Generating) || recovery_is(row, RecoveryStatus::Ready)
        || recovery_is(row, RecoveryStatus::Executing)
}

/// The first proposal that is still open.
pub open spec fn first_open(rows: Seq<WorkflowRecoveryRow>) -> Option<Uuid>
    decreases rows.len(),
{
    if rows.len() == 0 {
        None
    } else if is_open(rows[0]) {
        Some(rows[0].id)
    } else {
        first_open(rows.drop_first())
    }
}

fn find_open(rows: &[WorkflowRecoveryRow]) -> (r: Option<Uuid>)
    ensures
        r == first_open(rows@),
{
    let mut i: usize = 0;
    assert(rows@.skip(0) =~= rows@);
    while i < rows.len()
        invariant
            i <= rows@.len(),
            first_open(rows@) == first_open(rows@.skip(i as int)),
        decreases rows.len() - i,
    {
        assert(rows@.skip(i as int).drop_first() =~= rows@.skip(i + 1));
        let status = &rows[i].status;
        if RecoveryStatus::Generating.is(status) || RecoveryStatus::Ready.is(status)
            || RecoveryStatus::Executing.is(status) {
            return Some(rows[i].id);
        }
        i += 1;
    }
    None
}

/// Only a failed workflow is recovered. A status that cannot be read is an
/// error of the workflow.
pub fn recoverable_status(workflow_id: Uuid, status: &Decoded<WorkflowStatus>) -> (r: Result<
    (),
    RecoveryError,
>)
    ensures
        match status.value {
            None => r matches Err(RecoveryError::Workflow(m)) && m@ == unreadable_status_text(
                status.text@,
            ),
            Some(WorkflowStatus::Failed) => r is Ok,
            Some(_) => r == Err::<(), RecoveryError>(
                RecoveryError::WorkflowNotFailed(workflow_id, status.text),
            ),
        },
        r is Ok <==> status.value == Some(WorkflowStatus::Failed),
{
    match status.value {
        None => Err(RecoveryError::Workflow(unreadable_status(status.text.as_str()))),
        Some(WorkflowStatus::Failed) => Ok(()),
        Some(_) => Err(RecoveryError::WorkflowNotFailed(workflow_id, status.text.clone())),
    }
}

/// Whether a proposal may be made for a workflow: the workflow has failed at
/// a node, no other proposal is open, and an attempt is left. Gives the
/// number of the attempt.
pub fn propose_gate(
    workflow_id: Uuid,
    status: &Decoded<WorkflowStatus>,
    has_failed_node: bool,
    existing: &[WorkflowRecoveryRow],
    children: u64,
    policy: &RecoveryPolicy,
) -> (r: Result<usize, RecoveryError>)
    requires
        children < usize::MAX,
    ensures
        status.value is None ==> (r matches Err(RecoveryError::Workflow(m)) && m@
            == unreadable_status_text(status.text@)),
        status.value is Some && status.value != Some(WorkflowStatus::Failed) ==> r == Err::<
            usize,
            RecoveryError,
        >(RecoveryError::WorkflowNotFailed(workflow_id, status.text)),
        status.value == Some(WorkflowStatus::Failed) && !has_failed_node ==> r == Err::<usize, RecoveryError>(
            RecoveryError::NoFailedNode(workflow_id),
        ),
        status.value == Some(WorkflowStatus::Failed) && has_failed_node ==> match first_open(existing@) {
            Some(recovery_id) => r == Err::<usize, RecoveryError>(
                RecoveryError::AlreadyPending { workflow_id, recovery_id },
            ),
            None => if children + 1 > policy.max_attempts {
                r == Err::<usize, RecoveryError>(
                    RecoveryError::RecoveryLimitReached {
                        workflow_id,
                        attempt: (children + 1) as usize,
                        max_attempts: policy.max_attempts,
                    },
                )
            } else {
                r == Ok::<usize, RecoveryError>((children + 1) as usize)
            },
        },
        r is Ok ==> status.value == Some(WorkflowStatus::Failed) && has_failed_node,
        r matches Ok(attempt) ==> attempt == children + 1 && attempt <= policy.max_attempts,
        r is Ok ==> forall|i: int|
            0 <= i < existing@.len() ==> (#[trigger] existing@[i]).status@ != "generating"@
                && existing@[i].status@ != "ready"@ && existing@[i].status@ != "executing"@,
{
    if let Err(error) = recoverable_status(workflow_id, status) {
        return Err(error);
    }
    if !has_failed_node {
        return Err(RecoveryError::NoFailedNode(workflow_id));
    }
    proof {
        open_proposals_stand_in_the_way(existing@, 0);
    }
    if let Some(recovery_id) = find_open(existing) {
        return Err(RecoveryError::AlreadyPending { workflow_id, recovery_id });
    }
    let attempt: usize = (children + 1) as usize;
    if attempt > policy.max_attempts {
        return Err(
            RecoveryError::RecoveryLimitReached {
                workflow_id,
                attempt,
                max_attempts: policy.max_attempts,
            },
        );
    }
    Ok(attempt)
}

/// Self-healing is bounded: however a configuration is set, an attempt
/// that is let through is at most the cap.
pub proof fn attempts_are_capped(config: RecoveryConfig, children: nat)
    requires
        children + 1 <= policy_of(config).max_attempts,
    ensures
        children + 1 <= MAX_ATTEMPTS_CAP,
{
}

/// What came back from the failure analyzer.
#[derive(Debug, PartialEq, Eq)]
pub enum AnalyzerReply {
    /// The task could not be started.
    NotStarted(String),
    /// The task completed; whether its output was a plan, could be written
    /// down, and passed validation and policy.
    Completed {
        parsed: Result<(), String>,
        written: Result<(), String>,
        validated: Result<(), String>,
    },
    /// The task failed.
    Failed(String),
    /// The task was cancelled.
    Cancelled,
}

/// What becomes of a proposal.
#[derive(Debug, PartialEq, Eq)]
pub enum ProposalUpdate {
    /// It is ready, with the plan that was written down.
    Ready,
    /// It is invalid, for this reason.
    Invalid(String),
    /// It failed, for this reason.
    Failed(String),
}

/// Whether an update of the proposal, and the error that the caller gets, are
/// those that a reply calls for: the first of parsing, writing and validation
/// that failed makes it invalid. An unusable reply is a status of the proposal
/// and no error.
pub open spec fn is_recovery_outcome(
    update: ProposalUpdate,
    error: Option<RecoveryError>,
    reply: AnalyzerReply,
) -> bool {
    match reply {
        AnalyzerReply::NotStarted(reason) => {
            &&& update matches ProposalUpdate::Failed(text) && text@
                == "failed to start failure analyzer task: "@ + reason@
            &&& error matches Some(RecoveryError::AnalyzerTaskFailed(text)) && text@
                == "failed to start failure analyzer task: "@ + reason@
        },
        AnalyzerReply::Completed { parsed: Err(reason), .. } => update == ProposalUpdate::Invalid(
            reason,
        ) && error is None,
        AnalyzerReply::Completed { written: Err(reason), .. } => update == ProposalUpdate::Invalid(
            reason,
        ) && error is None,
        AnalyzerReply::Completed { validated: Err(reason), .. } => update
            == ProposalUpdate::Invalid(reason) && error is None,
        AnalyzerReply::Completed { .. } => update == ProposalUpdate::Ready && error is None,
        AnalyzerReply::Failed(reason) => update == ProposalUpdate::Failed(reason) && error is None,
        AnalyzerReply::Cancelled => {
            &&& update matches ProposalUpdate::Failed(text) && text@
                == "failure analyzer task was cancelled"@
            &&& error is None
        },
    }
}

/// What becomes of a proposal after the analyzer's reply, and the error that
/// the caller gets.
pub fn recovery_outcome(reply: AnalyzerReply) -> (r: (ProposalUpdate, Option<RecoveryError>))
    ensures
        is_recovery_outcome(r.0, r.1, reply),
{
    match reply {
        AnalyzerReply::NotStarted(reason) => {
            let text = "failed to start failure analyzer task: ".to_owned().concat(
                reason.as_str(),
            );
            (ProposalUpdate::Failed(text.clone()), Some(RecoveryError::AnalyzerTaskFailed(text)))
        },
        AnalyzerReply::Completed { parsed, written, validated } => match parsed {
            Err(reason) => (ProposalUpdate::Invalid(reason), None),
            Ok(_) => match written {
                Err(reason) => (ProposalUpdate::Invalid(reason), None),
                Ok(_) => match validated {
                    Err(reason) => (ProposalUpdate::Invalid(reason), None),
                    Ok(_) => (ProposalUpdate::Ready, None),
                },
            },
        },
        AnalyzerReply::Failed(reason) => (ProposalUpdate::Failed(reason), None),
        AnalyzerReply::Cancelled => (
            ProposalUpdate::Failed("failure analyzer task was cancelled".to_owned()),
            None,
        ),
    }
}

/// Only a ready proposal is previewed.
pub fn preview_gate(row: &WorkflowRecoveryRow) -> (r: Result<(), RecoveryError>)
    ensures
        recovery_is(*row, RecoveryStatus::Ready) ==> r is Ok,
        !recovery_is(*row, RecoveryStatus::Ready) ==> r == Err::<(), RecoveryError>(
            RecoveryError::NotReady(row.id, row.status),
        ),
        r is Ok <==> row.status@ == "ready"@,
{
    if RecoveryStatus::Ready.is(&row.status) {
        Ok(())
    } else {
        Err(RecoveryError::NotReady(row.id, row.status.clone()))
    }
}

/// What the stored plan of a proposal reads as.
#[derive(Debug, PartialEq, Eq)]
pub enum PlanReading {
    /// None is stored.
    Missing,
    /// It cannot be read, or what was read is not a valid plan.
    Invalid(String),
    /// It is a valid plan of so many nodes.
    Valid { nodes: usize },
}

/// The nodes of a stored plan: a plan counts only when it was stored, can be
/// read and is valid.
pub fn validated_plan(reading: PlanReading) -> (r: Result<usize, RecoveryError>)
    ensures
        match reading {
            PlanReading::Missing => r matches Err(RecoveryError::InvalidPlan(text)) && text@
                == "proposal has no stored plan"@,
            PlanReading::Invalid(reason) => r == Err::<usize, RecoveryError>(
                RecoveryError::InvalidPlan(reason),
            ),
            PlanReading::Valid { nodes } => r == Ok::<usize, RecoveryError>(nodes),
        },
        r is Ok <==> reading is Valid,
{
    match reading {
        PlanReading::Missing => Err(
            RecoveryError::InvalidPlan("proposal has no stored plan".to_owned()),
        ),
        PlanReading::Invalid(reason) => Err(RecoveryError::InvalidPlan(reason)),
        PlanReading::Valid { nodes } => Ok(nodes),
    }
}

/// The agent calls that the executed proposals of a workflow took: one for
/// each node of a plan that can be read.
pub open spec fn calls_used(rows: Seq<WorkflowRecoveryRow>, plan_nodes: Seq<Option<usize>>) -> nat
    decreases rows.len(),
{
    if rows.len() == 0 {
        0
    } else {
        calls_used(rows.drop_last(), plan_nodes) + (if recovery_is(
            rows.last(),
            RecoveryStatus::Executed,
        ) {
            match plan_nodes[rows.len() - 1] {
                Some(n) => n as nat,
                None => 0,
            }
        } else {
            0
        })
    }
}

proof fn calls_used_monotonic(rows: Seq<WorkflowRecoveryRow>, plan_nodes: Seq<Option<usize>>, n: int)
    requires
        0 <= n <= rows.len(),
    ensures
        calls_used(rows.take(n), plan_nodes) <= calls_used(rows, plan_nodes),
    decreases rows.len() - n,
{
    if n < rows.len() {
        assert(rows.take(n + 1).drop_last() =~= rows.take(n));
        calls_used_monotonic(rows, plan_nodes, n + 1);
    } else {
        assert(rows.take(n) =~= rows);
    }
}

/// The agent calls already spent by the recovery chain of a workflow, with
/// the number of nodes of each stored plan that can be read.
pub fn recovery_calls_used(rows: &[WorkflowRecoveryRow], plan_nodes: &[Option<usize>]) -> (r: usize)
    requires
        rows@.len() == plan_nodes@.len(),
        calls_used(rows@, plan_nodes@) <= usize::MAX,
    ensures
        r == calls_used(rows@, plan_nodes@),
{
    let mut total: usize = 0;
    let mut i: usize = 0;
    while i < rows.len()
        invariant
            i <= rows@.len(),
            rows@.len() == plan_nodes@.len(),
            total == calls_used(rows@.take(i as int), plan_nodes@),
            calls_used(rows@, plan_nodes@) <= usize::MAX,
        decreases rows.len() - i,
    {
        proof {
            assert(rows@.take(i + 1).drop_last() =~= rows@.take(i as int));
            assert(rows@.take(i + 1).last() == rows@[i as int]);
            calls_used_monotonic(rows@, plan_nodes@, i + 1);
        }
        if RecoveryStatus::Executed.is(&rows[i].status) {
            if let Some(n) = plan_nodes[i] {
                total += n;
            }
        }
        i += 1;
    }
    assert(rows@.take(i as int) =~= rows@);
    total
}

/// The error of a proposal whose attempt is past the limit.
pub open spec fn limit_error(row: WorkflowRecoveryRow, policy: RecoveryPolicy) -> RecoveryError {
    RecoveryError::RecoveryLimitReached {
        workflow_id: row.workflow_id,
        attempt: row.attempt as usize,
        max_attempts: policy.max_attempts,
    }
}

/// Whether an outcome is the one that the gates of execution give before the
/// claim: the status of the proposal, its plan, the policy over the plan, the
/// call budget of the chain and the attempt limit, in this order.
pub open spec fn is_execution_decision(
    r: Result<(), RecoveryError>,
    row: WorkflowRecoveryRow,
    reading: PlanReading,
    plan_policy: Result<(), String>,
    used: int,
    policy: RecoveryPolicy,
) -> bool {
    if recovery_is(row, RecoveryStatus::Executed) {
        r == Err::<(), RecoveryError>(RecoveryError::AlreadyExecuted(row.id))
    } else if recovery_is(row, RecoveryStatus::Executing) {
        r == Err::<(), RecoveryError>(RecoveryError::ExecutionInProgress(row.id))
    } else if !recovery_is(row, RecoveryStatus::Ready) {
        r == Err::<(), RecoveryError>(RecoveryError::NotReady(row.id, row.status))
    } else {
        match reading {
            PlanReading::Missing => r matches Err(RecoveryError::InvalidPlan(text)) && text@
                == "proposal has no stored plan"@,
            PlanReading::Invalid(reason) => r == Err::<(), RecoveryError>(
                RecoveryError::InvalidPlan(reason),
            ),
            PlanReading::Valid { nodes } => match plan_policy {
                Err(violation) => r == Err::<(), RecoveryError>(
                    RecoveryError::PolicyViolation(row.id, violation),
                ),
                Ok(_) => if used + nodes > policy.max_recovery_agent_calls {
                    r == Err::<(), RecoveryError>(
                        RecoveryError::RecoveryBudgetExceeded {
                            workflow_id: row.workflow_id,
                            used: used as usize,
                            requested: nodes,
                            max: policy.max_recovery_agent_calls,
                        },
                    )
                } else if row.attempt as usize > policy.max_attempts {
                    r == Err::<(), RecoveryError>(limit_error(row, policy))
                } else {
                    r is Ok
                },
            },
        }
    }
}

/// Whether a proposal may go on to the claim.
pub fn execution_decision(
    row: &WorkflowRecoveryRow,
    reading: PlanReading,
    plan_policy: Result<(), String>,
    used: usize,
    policy: &RecoveryPolicy,
) -> (r: Result<(), RecoveryError>)
    ensures
        is_execution_decision(r, *row, reading, plan_policy, used as int, *policy),
{
    if RecoveryStatus::Executed.is(&row.status) {
        return Err(RecoveryError::AlreadyExecuted(row.id));
    }
    if RecoveryStatus::Executing.is(&row.status) {
        return Err(RecoveryError::ExecutionInProgress(row.id));
    }
    if !RecoveryStatus::Ready.is(&row.status) {
        return Err(RecoveryError::NotReady(row.id, row.status.clone()));
    }
    let requested: usize = match validated_plan(reading) {
        Ok(nodes) => nodes,
        Err(err) => return Err(err),
    };
    if let Err(violation) = plan_policy {
        return Err(RecoveryError::PolicyViolation(row.id, violation));
    }
    if let Err(err) = check_call_budget(row.workflow_id, used, requested, policy) {
        return Err(err);
    }
    let attempt: usize = row.attempt as usize;
    if attempt > policy.max_attempts {
        return Err(
            RecoveryError::RecoveryLimitReached {
                workflow_id: row.workflow_id,
                attempt,
                max_attempts: policy.max_attempts,
            },
        );
    }
    Ok(())
}

/// The reason under which a proposal that the gates refused is rejected for
/// good: only one past the attempt limit is.
pub fn rejection_reason(error: &RecoveryError) -> (r: Option<String>)
    ensures
        opt_text(r) == (match *error {
            RecoveryError::RecoveryLimitReached { .. } => Some("attempt limit reached"@),
            _ => None,
        }),
        r is Some <==> *error is RecoveryLimitReached,
{
    match error {
        RecoveryError::RecoveryLimitReached { .. } => Some("attempt limit reached".to_owned()),
        _ => None,
    }
}

/// Bounded self-healing: what passes the gates of execution was ready, stays
/// within the call budget together with all that ran before it, and is an
/// attempt that the policy allows.
pub proof fn execution_is_bounded(
    row: WorkflowRecoveryRow,
    reading: PlanReading,
    plan_policy: Result<(), String>,
    used: int,
    policy: RecoveryPolicy,
)
    requires
        is_execution_decision(Ok(()), row, reading, plan_policy, used, policy),
    ensures
        recovery_is(row, RecoveryStatus::Ready),
        plan_policy is Ok,
        reading matches PlanReading::Valid { nodes } && used + nodes
            <= policy.max_recovery_agent_calls,
        row.attempt as usize <= policy.max_attempts,
{
}

/// The outcome of the atomic claim that decides who executes a proposal.
#[derive(Clone, Copy, Debug, PartialEq, Eq, Structural)]
pub enum RecoveryClaimResult {
    Claimed,
    AlreadyExecuted,
    ExecutionInProgress,
    NotReady,
    RecoveryLimitReached,
}

/// Whether an outcome is the one that a claim gives its caller: only the caller
/// that claimed the proposal goes on. `current` is the status text after the
/// claim.
pub open spec fn is_claim_outcome(
    r: Result<(), RecoveryError>,
    row: WorkflowRecoveryRow,
    claim: RecoveryClaimResult,
    current: Option<String>,
    policy: RecoveryPolicy,
) -> bool {
    match claim {
        RecoveryClaimResult::Claimed => r is Ok,
        RecoveryClaimResult::AlreadyExecuted => r == Err::<(), RecoveryError>(
            RecoveryError::AlreadyExecuted(row.id),
        ),
        RecoveryClaimResult::ExecutionInProgress => r == Err::<(), RecoveryError>(
            RecoveryError::ExecutionInProgress(row.id),
        ),
        RecoveryClaimResult::NotReady => r matches Err(RecoveryError::NotReady(id, text)) && id
            == row.id && text@ == (match current {
            Some(t) => t@,
            None => Seq::empty(),
        }),
        RecoveryClaimResult::RecoveryLimitReached => r == Err::<(), RecoveryError>(
            limit_error(row, policy),
        ),
    }
}

/// One concurrent caller's part in the execution of a proposal: what it got
/// from the claim, and what it was told.
pub struct ClaimTrial {
    pub claim: RecoveryClaimResult,
    pub current: Option<String>,
    pub told: Result<(), RecoveryError>,
}

/// Of any concurrent callers at most one makes a child: where at most one of
/// them got the claim, at most one goes on.
pub proof fn one_caller_executes(
    row: WorkflowRecoveryRow,
    policy: RecoveryPolicy,
    trials: Seq<ClaimTrial>,
    i: int,
    j: int,
)
    requires
        forall|k: int|
            0 <= k < trials.len() ==> is_claim_outcome(
                (#[trigger] trials[k]).told,
                row,
                trials[k].claim,
                trials[k].current,
                policy,
            ),
        forall|k: int, l: int|
            0 <= k < trials.len() && 0 <= l < trials.len() && (#[trigger] trials[k]).claim
                == RecoveryClaimResult::Claimed && (#[trigger] trials[l]).claim
                == RecoveryClaimResult::Claimed ==> k == l,
        0 <= i < trials.len(),
        0 <= j < trials.len(),
        trials[i].told is Ok,
        trials[j].told is Ok,
    ensures
        i == j,
{
}

/// A proposal that was executed is never executed again: whatever its plan,
/// its budget and its attempt, it is told that it has been.
pub proof fn executed_stays_executed(
    r: Result<(), RecoveryError>,
    row: WorkflowRecoveryRow,
    reading: PlanReading,
    plan_policy: Result<(), String>,
    used: int,
    policy: RecoveryPolicy,
)
    requires
        recovery_is(row, RecoveryStatus::Executed),
        is_execution_decision(r, row, reading, plan_policy, used, policy),
    ensures
        r == Err::<(), RecoveryError>(RecoveryError::AlreadyExecuted(row.id)),
{
}

/// What a claim lets its caller do.
pub fn claim_gate(
    row: &WorkflowRecoveryRow,
    claim: RecoveryClaimResult,
    current: Option<String>,
    policy: &RecoveryPolicy,
) -> (r: Result<(), RecoveryError>)
    ensures
        is_claim_outcome(r, *row, claim, current, *policy),
{
    match claim {
        RecoveryClaimResult::Claimed => Ok(()),
        RecoveryClaimResult::AlreadyExecuted => Err(RecoveryError::AlreadyExecuted(row.id)),
        RecoveryClaimResult::ExecutionInProgress => Err(RecoveryError::ExecutionInProgress(row.id)),
        RecoveryClaimResult::NotReady => {
            let text = match current {
                Some(text) => text,
                None => String::new(),
            };
            Err(RecoveryError::NotReady(row.id, text))
        },
        RecoveryClaimResult::RecoveryLimitReached => Err(
            RecoveryError::RecoveryLimitReached {
                workflow_id: row.workflow_id,
                attempt: row.attempt as usize,
                max_attempts: policy.max_attempts,
            },
        ),
    }
}

/// A plan of the analyzer is checked for validity first, then against the
/// plan policy, then against what is left of the chain's call budget. `valid`
/// gives the number of nodes of a valid plan.
pub fn validate_recovery_plan(
    workflow_id: Uuid,
    valid: Result<usize, String>,
    plan_policy: Result<(), String>,
    used: usize,
    policy: &RecoveryPolicy,
) -> (r: Result<(), RecoveryError>)
    ensures
        match valid {
            Err(reason) => r == Err::<(), RecoveryError>(RecoveryError::InvalidPlan(reason)),
            Ok(nodes) => match plan_policy {
                Err(violation) => r == Err::<(), RecoveryError>(
                    RecoveryError::PolicyViolation(workflow_id, violation),
                ),
                Ok(_) => if used + nodes > policy.max_recovery_agent_calls {
                    r == Err::<(), RecoveryError>(
                        RecoveryError::RecoveryBudgetExceeded {
                            workflow_id,
                            used,
                            requested: nodes,
                            max: policy.max_recovery_agent_calls,
                        },
                    )
                } else {
                    r is Ok
                },
            },
        },
        r is Ok <==> valid is Ok && plan_policy is Ok && used + valid->Ok_0
            <= policy.max_recovery_agent_calls,
{
    match valid {
        Err(reason) => Err(RecoveryError::InvalidPlan(reason)),
        Ok(nodes) => match plan_policy {
            Err(violation) => Err(RecoveryError::PolicyViolation(workflow_id, violation)),
            Ok(_) => check_call_budget(workflow_id, used, nodes, policy),
        },
    }
}

/// The calls of a plan must fit into what is left of the chain's budget.
fn check_call_budget(workflow_id: Uuid, used: usize, requested: usize, policy: &RecoveryPolicy) -> (r:
    Result<(), RecoveryError>)
    ensures
        used + requested <= policy.max_recovery_agent_calls ==> r is Ok,
        used + requested > policy.max_recovery_agent_calls ==> r == Err::<(), RecoveryError>(
            RecoveryError::RecoveryBudgetExceeded {
                workflow_id,
                used,
                requested,
                max: policy.max_recovery_agent_calls,
            },
        ),
{
    let max = policy.max_recovery_agent_calls;
    if used > max || requested > max - used {
        Err(RecoveryError::RecoveryBudgetExceeded { workflow_id, used, requested, max })
    } else {
        Ok(())
    }
}

/// The structural cost of a plan.
#[derive(Clone, Copy, Debug, PartialEq, Eq, Structural)]
pub struct PlanBudget {
    pub node_count: usize,
    pub estimated_agent_calls: usize,
    pub evaluation_agent_calls: usize,
    pub root_count: usize,
    pub terminal_count: usize,
    pub planning_calls: usize,
}

/// The preview of a recovery: the proposal, the cost of its plan, the limits
/// of the policy, and what the chain has spent of its own.
pub fn recovery_preview(
    row: &WorkflowRecoveryRow,
    budget: &PlanBudget,
    limits: &PlanPolicyUsage,
    used: usize,
    policy: &RecoveryPolicy,
) -> (r: Result<RecoveryPreview, RecoveryError>)
    ensures
        !recovery_is(*row, RecoveryStatus::Ready) ==> r == Err::<RecoveryPreview, RecoveryError>(
            RecoveryError::NotReady(row.id, row.status),
        ),
        recovery_is(*row, RecoveryStatus::Ready) ==> r == Ok::<RecoveryPreview, RecoveryError>(
            RecoveryPreview {
                recovery_id: row.id,
                workflow_id: row.workflow_id,
                status: row.status,
                failed_node_id: row.failed_node_id,
                attempt: row.attempt,
                node_count: budget.node_count,
                estimated_agent_calls: budget.estimated_agent_calls,
                evaluation_agent_calls: budget.evaluation_agent_calls,
                policy_max_nodes: limits.max_nodes,
                policy_max_agent_calls: limits.max_agent_calls,
                chain_calls_used: used,
                chain_calls_max: policy.max_recovery_agent_calls,
            },
        ),
{
    if let Err(err) = preview_gate(row) {
        return Err(err);
    }
    Ok(
        RecoveryPreview {
            recovery_id: row.id,
            workflow_id: row.workflow_id,
            status: row.status.clone(),
            failed_node_id: row.failed_node_id.clone(),
            attempt: row.attempt,
            node_count: budget.node_count,
            estimated_agent_calls: budget.estimated_agent_calls,
            evaluation_agent_calls: budget.evaluation_agent_calls,
            policy_max_nodes: limits.max_nodes,
            policy_max_agent_calls: limits.max_agent_calls,
            chain_calls_used: used,
            chain_calls_max: policy.max_recovery_agent_calls,
        },
    )
}

/// What is told of a proposal.
pub fn recovery_info(row: &WorkflowRecoveryRow) -> (r: RecoveryInfo)
    ensures
        r == (RecoveryInfo {
            recovery_id: row.id,
            workflow_id: row.workflow_id,
            failed_node_id: row.failed_node_id,
            status: row.status,
            planner_agent_id: row.planner_agent_id,
            validation_error: row.validation_error,
            recovery_workflow_id: row.recovery_workflow_id,
            attempt: row.attempt,
            created_at: row.created_at,
            executed_at: row.executed_at,
        }),
{
    RecoveryInfo {
        recovery_id: row.id,
        workflow_id: row.workflow_id,
        failed_node_id: row.failed_node_id.clone(),
        status: row.status.clone(),
        planner_agent_id: clone_opt(&row.planner_agent_id),
        validation_error: clone_opt(&row.validation_error),
        recovery_workflow_id: row.recovery_workflow_id,
        attempt: row.attempt,
        created_at: row.created_at.clone(),
        executed_at: clone_opt(&row.executed_at),
    }
}

/// A text cut to at most `max` characters; what was cut is told by an
/// ellipsis.
pub open spec fn truncated(text: Seq<char>, max: nat) -> Seq<char> {
    if text.len() <= max {
        text
    } else {
        text.take(max as int).push('\u{2026}')
    }
}

/// A text cut to at most `max` characters.
pub fn truncate(text: &str, max: usize) -> (r: String)
    ensures
        r@ == truncated(text@, max as nat),
{
    let chars = chars_of(text);
    if chars.len() <= max {
        text.to_owned()
    } else {
        let mut out = string_of(chars.as_slice(), 0, max);
        assert(out@ =~= text@.take(max as int));
        out.push('\u{2026}');
        out
    }
}

/// The text that a run of bytes reads as, whatever it holds.
pub uninterp spec fn lossy_text(bytes: Seq<u8>) -> Seq<char>;

/// `String::from_utf8_lossy` reads bytes as text: valid UTF-8 as what it
/// encodes, anything else with replacement characters for what is not valid.
#[verifier::external_body]
pub(crate) fn read_lossy(bytes: &[u8]) -> (r: String)
    ensures
        r@ == lossy_text(bytes@),
        valid_utf8(bytes@) ==> r@ == decode_utf8(bytes@),
{
    String::from_utf8_lossy(bytes).into_owned()
}

/// The changes in the workspace of a failed node.
pub struct WorkspaceChanges {
    /// The paths of the changed files.
    pub files: Vec<String>,
    pub patch: String,
}

/// The lines of the completed dependencies.
pub open spec fn dependency_lines(summaries: Seq<(Seq<char>, Seq<char>)>) -> Seq<char>
    decreases summaries.len(),
{
    if summaries.len() == 0 {
        Seq::empty()
    } else {
        dependency_lines(summaries.drop_last()) + "- "@ + summaries.last().0 + ": "@
            + summaries.last().1 + "\n"@
    }
}

/// The lines of the artifacts, each cut to 800 characters.
pub open spec fn artifact_lines(artifacts: Seq<Artifact>) -> Seq<char>
    decreases artifacts.len(),
{
    if artifacts.len() == 0 {
        Seq::empty()
    } else {
        let a = artifacts.last();
        artifact_lines(artifacts.drop_last()) + "- "@ + a.name@ + " ("@ + kind_key(a.kind) + "): "@
            + truncated(lossy_text(a.content@), 800) + "\n"@
    }
}

/// Texts joined by line breaks.
pub open spec fn joined_lines(list: Seq<Seq<char>>) -> Seq<char>
    decreases list.len(),
{
    if list.len() == 0 {
        Seq::empty()
    } else if list.len() == 1 {
        list[0]
    } else {
        joined_lines(list.drop_last()) + "\n"@ + list.last()
    }
}

/// A text, or `(none)` in place of an empty one.
pub open spec fn or_none(text: Seq<char>) -> Seq<char> {
    if text.len() == 0 {
        "(none)"@
    } else {
        text
    }
}

/// What the changes of a workspace are told as, the patch cut to 4000
/// characters.
pub open spec fn changes_text(changes: Option<&WorkspaceChanges>) -> Seq<char> {
    match changes {
        Some(c) => "changed files:\n"@ + (if c.files@.len() == 0 {
            "(none)"@
        } else {
            joined_lines(texts(c.files@))
        }) + "\npatch (truncated):\n"@ + truncated(c.patch@, 4000) + "\n"@,
        None => Seq::empty(),
    }
}

/// The instruction at the head of the analyzer's prompt.
pub open spec fn analyzer_instruction() -> Seq<char> {
    "RECOVERY PLANNING INSTRUCTION (trusted, authoritative)\nYou are the Failure Analyzer of AgentMesh. A workflow node failed and its workflow is now permanently Failed. You must plan a NEW recovery child workflow that continues the original goal from the failed state.\n- The failed workflow's history is immutable; you never modify it.\n- The failed node is NOT retried directly; recovery is a fresh child workflow.\n- Produce a structured recovery plan as STRICT JSON matching the WorkflowPlan schema: {\"version\":1,\"summary\":\"...\",\"nodes\":[{\"id\":\"...\",\"role\":\"...\",\"intent\":\"...\",\"objective\":\"...\",\"depends_on\":[\"...\"]}]}.\n- A typical recovery plan is diagnose \u{2192} fix \u{2192} test \u{2192} review.\n- Previous attempt failed. Inspect the current workspace state. Do not assume partial changes are correct. Preserve useful work only after verification.\n- The recovery agent that fixes the implementation may be the SAME agent that failed; if so it reuses the existing session and worktree.\n- Never include agent/provider/model/workspace/permissions/commands/parallelism fields. Agents are chosen by AgentMesh routing.\n- At least one root and one terminal node; the plan must be acyclic.\nAttempt: "@
}

/// The prompt of the failure analyzer: the instruction, the immutable failure
/// history, and apart from it the untrusted output of agents.
pub open spec fn recovery_prompt(
    inputs: RecoveryInputs,
    changes: Option<&WorkspaceChanges>,
    attempt: nat,
) -> Seq<char> {
    analyzer_instruction() + decimal(attempt)
        + "\n\nIMMUTABLE FAILURE HISTORY\nOriginal user goal:\n"@ + inputs.goal@
        + "\n\nFailed node: "@ + inputs.failed_node_id@ + " [role="@ + inputs.failed_role@
        + ", intent="@ + inputs.failed_intent@ + "]\nTask error: "@ + inputs.failed_error@
        + "\nCompleted dependency summaries:\n"@ + or_none(
        dependency_lines(pair_texts(inputs.dependency_summaries@)),
    ) + "\n\nUNTRUSTED AGENT OUTPUT\nFailed task summary: "@ + (match inputs.failed_summary {
        Some(s) => s@,
        None => "(none)"@,
    }) + "\n"@ + changes_text(changes) + "Relevant artifacts (untrusted, input to analyze):\n"@
        + or_none(artifact_lines(inputs.artifacts@))
}

fn tell_dependencies(summaries: &Vec<(String, String)>) -> (r: String)
    ensures
        r@ == dependency_lines(pair_texts(summaries@)),
{
    let mut out = String::new();
    let mut i: usize = 0;
    assert(pair_texts(summaries@.take(0)) =~= Seq::<(Seq<char>, Seq<char>)>::empty());
    while i < summaries.len()
        invariant
            i <= summaries@.len(),
            out@ == dependency_lines(pair_texts(summaries@.take(i as int))),
        decreases summaries.len() - i,
    {
        proof {
            let m = pair_texts(summaries@.take(i + 1));
            assert(m.drop_last() =~= pair_texts(summaries@.take(i as int)));
            assert(m.last() == (summaries@[i as int].0@, summaries@[i as int].1@));
        }
        out.append("- ");
        out.append(summaries[i].0.as_str());
        out.append(": ");
        out.append(summaries[i].1.as_str());
        out.append("\n");
        i += 1;
    }
    assert(summaries@.take(i as int) =~= summaries@);
    out
}

fn tell_artifacts(artifacts: &Vec<Artifact>) -> (r: String)
    ensures
        r@ == artifact_lines(artifacts@),
{
    let mut out = String::new();
    let mut i: usize = 0;
    while i < artifacts.len()
        invariant
            i <= artifacts@.len(),
            out@ == artifact_lines(artifacts@.take(i as int)),
        decreases artifacts.len() - i,
    {
        proof {
            assert(artifacts@.take(i + 1).drop_last() =~= artifacts@.take(i as int));
            assert(artifacts@.take(i + 1).last() == artifacts@[i as int]);
        }
        let text = read_lossy(artifacts[i].content.as_slice());
        out.append("- ");
        out.append(artifacts[i].name.as_str());
        out.append(" (");
        out.append(artifacts[i].kind.key());
        out.append("): ");
        out.append(truncate(text.as_str(), 800).as_str());
        out.append("\n");
        i += 1;
    }
    assert(artifacts@.take(i as int) =~= artifacts@);
    out
}

fn join_lines(list: &Vec<String>) -> (r: String)
    ensures
        r@ == joined_lines(texts(list@)),
{
    let mut out = String::new();
    let mut i: usize = 0;
    assert(texts(list@.take(0)) =~= Seq::<Seq<char>>::empty());
    while i < list.len()
        invariant
            i <= list@.len(),
            out@ == joined_lines(texts(list@.take(i as int))),
        decreases list.len() - i,
    {
        proof {
            let m = texts(list@.take(i + 1));
            assert(m.drop_last() =~= texts(list@.take(i as int)));
            assert(m.last() == list@[i as int]@);
            assert(m.len() == i + 1);
            if i == 0 {
                assert(m[0] == list@[0]@);
            }
        }
        if i > 0 {
            out.append("\n");
        }
        out.append(list[i].as_str());
        assert(i == 0 ==> out@ =~= list@[0]@);
        i += 1;
    }
    assert(list@.take(i as int) =~= list@);
    out
}

fn tell_changes(changes: Option<&WorkspaceChanges>) -> (r: String)
    ensures
        r@ == changes_text(changes),
{
    match changes {
        Some(c) => {
            let files = if c.files.len() == 0 {
                "(none)".to_owned()
            } else {
                join_lines(&c.files)
            };
            "changed files:\n".to_owned().concat(files.as_str()).concat(
                "\npatch (truncated):\n",
            ).concat(truncate(c.patch.as_str(), 4000).as_str()).concat("\n")
        },
        None => String::new(),
    }
}

fn text_or_none(text: String) -> (r: String)
    ensures
        r@ == or_none(text@),
{
    if text.as_str().is_empty() {
        "(none)".to_owned()
    } else {
        text
    }
}

/// The prompt sent to the failure analyzer over A2A. It keeps apart the
/// immutable failure history, the untrusted agent output, and the recovery
/// planning instruction.
pub fn build_recovery_prompt(
    inputs: &RecoveryInputs,
    changes: Option<&WorkspaceChanges>,
    attempt: usize,
) -> (r: String)
    ensures
        r@ == recovery_prompt(*inputs, changes, attempt as nat),
{
    let deps = text_or_none(tell_dependencies(&inputs.dependency_summaries));
    let artifacts = text_or_none(tell_artifacts(&inputs.artifacts));
    let summary = match &inputs.failed_summary {
        Some(s) => s.clone(),
        None => "(none)".to_owned(),
    };
    let mut out =
        "RECOVERY PLANNING INSTRUCTION (trusted, authoritative)\nYou are the Failure Analyzer of AgentMesh. A workflow node failed and its workflow is now permanently Failed. You must plan a NEW recovery child workflow that continues the original goal from the failed state.\n- The failed workflow's history is immutable; you never modify it.\n- The failed node is NOT retried directly; recovery is a fresh child workflow.\n- Produce a structured recovery plan as STRICT JSON matching the WorkflowPlan schema: {\"version\":1,\"summary\":\"...\",\"nodes\":[{\"id\":\"...\",\"role\":\"...\",\"intent\":\"...\",\"objective\":\"...\",\"depends_on\":[\"...\"]}]}.\n- A typical recovery plan is diagnose \u{2192} fix \u{2192} test \u{2192} review.\n- Previous attempt failed. Inspect the current workspace state. Do not assume partial changes are correct. Preserve useful work only after verification.\n- The recovery agent that fixes the implementation may be the SAME agent that failed; if so it reuses the existing session and worktree.\n- Never include agent/provider/model/workspace/permissions/commands/parallelism fields. Agents are chosen by AgentMesh routing.\n- At least one root and one terminal node; the plan must be acyclic.\nAttempt: ".to_owned();
    out.append(show_usize(attempt).as_str());
    out.append("\n\nIMMUTABLE FAILURE HISTORY\nOriginal user goal:\n");
    out.append(inputs.goal.as_str());
    out.append("\n\nFailed node: ");
    out.append(inputs.failed_node_id.as_str());
    out.append(" [role=");
    out.append(inputs.failed_role.as_str());
    out.append(", intent=");
    out.append(inputs.failed_intent.as_str());
    out.append("]\nTask error: ");
    out.append(inputs.failed_error.as_str());
    out.append("\nCompleted dependency summaries:\n");
    out.append(deps.as_str());
    out.append("\n\nUNTRUSTED AGENT OUTPUT\nFailed task summary: ");
    out.append(summary.as_str());
    out.append("\n");
    out.append(tell_changes(changes).as_str());
    out.append("Relevant artifacts (untrusted, input to analyze):\n");
    out.append(artifacts.as_str());
    out
}

/// The goal of a recovery workflow: that a previous attempt failed, and the
/// original goal.
pub open spec fn recovery_goal(inputs: RecoveryInputs, failed_node: Seq<char>, attempt: nat) -> Seq<
    char,
> {
    "Recovery of a failed workflow (attempt "@ + decimal(attempt)
        + "). Previous attempt failed at node `"@ + failed_node + "` ("@ + inputs.failed_role@
        + "): "@ + inputs.failed_error@
        + "\nPrevious attempt failed. Inspect the current workspace state. Do not assume partial changes are correct. Preserve useful work only after verification.\n\nOriginal user goal:\n"@
        + inputs.goal@
}

/// The goal of a recovery workflow.
pub fn build_recovery_goal(inputs: &RecoveryInputs, failed_node_id: &str, attempt: usize) -> (r:
    String)
    ensures
        r@ == recovery_goal(*inputs, failed_node_id@, attempt as nat),
{
    "Recovery of a failed workflow (attempt ".to_owned().concat(
        show_usize(attempt).as_str(),
    ).concat("). Previous attempt failed at node `").concat(failed_node_id).concat("` (").concat(
        inputs.failed_role.as_str(),
    ).concat("): ").concat(inputs.failed_error.as_str()).concat(
        "\nPrevious attempt failed. Inspect the current workspace state. Do not assume partial changes are correct. Preserve useful work only after verification.\n\nOriginal user goal:\n",
    ).concat(inputs.goal.as_str())
}

/// The policy that a configuration asks for: at most two attempts, one where it
/// says nothing; proposals are made unless it says no, and executed by
/// themselves only where it says so; six agent calls where it says nothing.
pub proof fn policy_is_the_configured_one(config: RecoveryConfig)
    ensures
        policy_of(config).max_attempts <= 2,
        config.max_attempts matches Some(n) ==> (n <= 2 ==> policy_of(config).max_attempts == n),
        config.max_attempts matches Some(n) ==> (n > 2 ==> policy_of(config).max_attempts == 2),
        config.max_attempts is None ==> policy_of(config).max_attempts == 1,
        policy_of(config).auto_generate <==> config.auto_generate != Some(false),
        config.max_recovery_agent_calls matches Some(n) ==> policy_of(
            config,
        ).max_recovery_agent_calls == n,
        config.max_recovery_agent_calls is None ==> policy_of(config).max_recovery_agent_calls
            == 6,
{
}

/// A proposal stands in the way of another exactly while it is generating, ready
/// or executing; the one that is named is the first of these.
pub proof fn open_proposals_stand_in_the_way(rows: Seq<WorkflowRecoveryRow>, i: int)
    ensures
        first_open(rows) is None <==> forall|k: int|
            0 <= k < rows.len() ==> (#[trigger] rows[k]).status@ != "generating"@
                && rows[k].status@ != "ready"@ && rows[k].status@ != "executing"@,
        0 <= i < rows.len() && (rows[i].status@ == "generating"@ || rows[i].status@ == "ready"@
            || rows[i].status@ == "executing"@) && (forall|k: int|
            0 <= k < i ==> (#[trigger] rows[k]).status@ != "generating"@ && rows[k].status@
                != "ready"@ && rows[k].status@ != "executing"@) ==> first_open(rows) == Some(
            rows[i].id,
        ),
    decreases rows.len(),
{
    if rows.len() > 0 {
        let rest = rows.drop_first();
        open_proposals_stand_in_the_way(rest, i - 1);
        if first_open(rows) is None {
            assert forall|k: int| 0 <= k < rows.len() implies (#[trigger] rows[k]).status@
                != "generating"@ && rows[k].status@ != "ready"@ && rows[k].status@
                != "executing"@ by {
                if k > 0 {
                    assert(rest[k - 1] == rows[k]);
                }
            }
        } else if !is_open(rows[0]) {
            let k = choose|k: int|
                0 <= k < rest.len() && !((#[trigger] rest[k]).status@ != "generating"@
                    && rest[k].status@ != "ready"@ && rest[k].status@ != "executing"@);
            assert(rows[k + 1] == rest[k]);
        }
        if 0 < i < rows.len() && (rows[i].status@ == "generating"@ || rows[i].status@ == "ready"@
            || rows[i].status@ == "executing"@) && (forall|k: int|
            0 <= k < i ==> (#[trigger] rows[k]).status@ != "generating"@ && rows[k].status@
                != "ready"@ && rows[k].status@ != "executing"@) {
            assert(!is_open(rows[0]));
            assert(rest[i - 1] == rows[i]);
            assert forall|k: int| 0 <= k < i - 1 implies (#[trigger] rest[k]).status@
                != "generating"@ && rest[k].status@ != "ready"@ && rest[k].status@
                != "executing"@ by {
                assert(rest[k] == rows[k + 1]);
            }
        }
    }
}

/// A proposal becomes ready exactly when the analyzer completed with a plan that
/// was read, written down and found valid. A completed reply that fails one of
/// these makes it invalid, for the reason of the first that failed; any other
/// reply makes it failed. The caller gets an error only where no task started.
pub proof fn only_a_valid_plan_is_ready(
    update: ProposalUpdate,
    error: Option<RecoveryError>,
    reply: AnalyzerReply,
)
    requires
        is_recovery_outcome(update, error, reply),
    ensures
        update is Ready <==> (reply matches AnalyzerReply::Completed { parsed, written, validated }
            && parsed is Ok && written is Ok && validated is Ok),
        update is Invalid <==> (reply matches AnalyzerReply::Completed {
            parsed,
            written,
            validated,
        } && (parsed is Err || written is Err || validated is Err)),
        update is Failed <==> !(reply is Completed),
        error is Some <==> reply is NotStarted,
        (update matches ProposalUpdate::Invalid(reason) ==> (
        reply matches AnalyzerReply::Completed { parsed, written, validated } && (if parsed is Err {
            parsed->Err_0 == reason
        } else if written is Err {
            written->Err_0 == reason
        } else {
            validated->Err_0 == reason
        }))),
        reply matches AnalyzerReply::Failed(reason) ==> update == ProposalUpdate::Failed(reason),
{
}

/// Only executed proposals spend agent calls, one for each node of a plan that
/// can be read: one more proposal adds those of its own.
pub proof fn only_executed_proposals_spend_calls(
    rows: Seq<WorkflowRecoveryRow>,
    row: WorkflowRecoveryRow,
    plan_nodes: Seq<Option<usize>>,
)
    requires
        plan_nodes.len() > rows.len(),
    ensures
        calls_used(Seq::empty(), plan_nodes) == 0,
        row.status@ != "executed"@ ==> calls_used(rows.push(row), plan_nodes) == calls_used(
            rows,
            plan_nodes,
        ),
        row.status@ == "executed"@ ==> (plan_nodes[rows.len() as int] matches Some(n)
            ==> calls_used(rows.push(row), plan_nodes) == calls_used(rows, plan_nodes) + n),
        plan_nodes[rows.len() as int] is None ==> calls_used(rows.push(row), plan_nodes)
            == calls_used(rows, plan_nodes),
{
    assert(rows.push(row).drop_last() =~= rows);
}

/// A proposal goes on to the claim exactly when it is ready, its plan is valid
/// and within the policy, all calls of its chain with its own stay within the
/// budget, and its attempt is allowed. Each refusal tells its own reason.
pub proof fn execution_passes_exactly_within_bounds(
    r: Result<(), RecoveryError>,
    row: WorkflowRecoveryRow,
    reading: PlanReading,
    plan_policy: Result<(), String>,
    used: int,
    policy: RecoveryPolicy,
)
    requires
        is_execution_decision(r, row, reading, plan_policy, used, policy),
    ensures
        r is Ok <==> row.status@ == "ready"@ && (reading matches PlanReading::Valid { nodes }
            && used + nodes <= policy.max_recovery_agent_calls) && plan_policy is Ok
            && row.attempt as usize <= policy.max_attempts,
        row.status@ == "executed"@ <==> r == Err::<(), RecoveryError>(
            RecoveryError::AlreadyExecuted(row.id),
        ),
        row.status@ == "executing"@ <==> r == Err::<(), RecoveryError>(
            RecoveryError::ExecutionInProgress(row.id),
        ),
        row.status@ != "ready"@ && row.status@ != "executed"@ && row.status@ != "executing"@ <==> (r
            is Err && r->Err_0 is NotReady),
        row.status@ == "ready"@ && !(reading is Valid) <==> (r is Err && r->Err_0 is InvalidPlan),
        row.status@ == "ready"@ && reading is Valid && plan_policy is Err <==> (r is Err
            && r->Err_0 is PolicyViolation),
        r matches Err(RecoveryError::RecoveryBudgetExceeded { .. }) ==> (
        reading matches PlanReading::Valid { nodes } && used + nodes
            > policy.max_recovery_agent_calls),
        r matches Err(RecoveryError::RecoveryLimitReached { .. }) ==> row.attempt as usize
            > policy.max_attempts,
{
    recovery_status_texts_differ();
}

proof fn recovery_status_texts_differ()
    ensures
        "ready"@ != "executed"@,
        "ready"@ != "executing"@,
        "executed"@ != "executing"@,
{
    reveal_strlit("ready");
    reveal_strlit("executed");
    reveal_strlit("executing");
    assert("ready"@.len() == 5);
    assert("executed"@.len() == 8);
    assert("executing"@.len() == 9);
}

/// Only the caller that got the claim goes on; any other is told why not.
pub proof fn only_the_claim_lets_execute(
    r: Result<(), RecoveryError>,
    row: WorkflowRecoveryRow,
    claim: RecoveryClaimResult,
    current: Option<String>,
    policy: RecoveryPolicy,
)
    requires
        is_claim_outcome(r, row, claim, current, policy),
    ensures
        r is Ok <==> claim == RecoveryClaimResult::Claimed,
        r == Err::<(), RecoveryError>(RecoveryError::AlreadyExecuted(row.id)) <==> claim
            == RecoveryClaimResult::AlreadyExecuted,
        r == Err::<(), RecoveryError>(RecoveryError::ExecutionInProgress(row.id)) <==> claim
            == RecoveryClaimResult::ExecutionInProgress,
        (r is Err && r->Err_0 is NotReady) <==> claim == RecoveryClaimResult::NotReady,
        (r is Err && r->Err_0 is RecoveryLimitReached) <==> claim
            == RecoveryClaimResult::RecoveryLimitReached,
{
}

/// A text that is cut keeps its beginning and tells that it was cut; one that
/// fits is kept whole.
pub proof fn cut_texts_keep_their_beginning(text: Seq<char>, max: nat)
    ensures
        text.len() <= max ==> truncated(text, max) == text,
        text.len() > max ==> truncated(text, max).len() == max + 1 && truncated(text, max).take(
            max as int,
        ) == text.take(max as int) && truncated(text, max).last() == '\u{2026}',
{
    if text.len() > max {
        assert(truncated(text, max).take(max as int) =~= text.take(max as int));
    }
}

/// The analyzer is told the goal, the failed node, its role, its intent and its
/// error, and what the completed dependencies and the failed task say.
#[verifier::rlimit(40)]
pub proof fn analyzer_is_told_the_failure(
    inputs: RecoveryInputs,
    changes: Option<&WorkspaceChanges>,
    attempt: nat,
)
    ensures
        ({
            let prompt = recovery_prompt(inputs, changes, attempt);
            &&& begins_with(prompt, analyzer_instruction())
            &&& contains_text(prompt, inputs.goal@)
            &&& contains_text(prompt, inputs.failed_node_id@)
            &&& contains_text(prompt, inputs.failed_role@)
            &&& contains_text(prompt, inputs.failed_intent@)
            &&& contains_text(prompt, inputs.failed_error@)
            &&& contains_text(
                prompt,
                dependency_lines(pair_texts(inputs.dependency_summaries@)),
            )
            &&& inputs.failed_summary matches Some(s) ==> contains_text(prompt, s@)
            &&& contains_text(prompt, changes_text(changes))
            &&& ends_with(prompt, artifact_lines(inputs.artifacts@))
        }),
{
    let prompt = recovery_prompt(inputs, changes, attempt);
    let p0 = analyzer_instruction();
    let l0 = decimal(attempt);
    let l1 = "\n\nIMMUTABLE FAILURE HISTORY\nOriginal user goal:\n"@;
    let p1 = p0 + l0 + l1;
    let p2 = p1 + inputs.goal@ + "\n\nFailed node: "@;
    let p3 = p2 + inputs.failed_node_id@ + " [role="@;
    let p4 = p3 + inputs.failed_role@ + ", intent="@;
    let p5 = p4 + inputs.failed_intent@ + "]\nTask error: "@;
    let p6 = p5 + inputs.failed_error@ + "\nCompleted dependency summaries:\n"@;
    let deps = dependency_lines(pair_texts(inputs.dependency_summaries@));
    let p7 = p6 + or_none(deps) + "\n\nUNTRUSTED AGENT OUTPUT\nFailed task summary: "@;
    let summary = match inputs.failed_summary {
        Some(s) => s@,
        None => "(none)"@,
    };
    let p8 = p7 + summary + "\n"@;
    let told = "Relevant artifacts (untrusted, input to analyze):\n"@;
    let p9 = p8 + changes_text(changes) + told;
    let artifacts = artifact_lines(inputs.artifacts@);
    assert(prompt == p9 + or_none(artifacts));
    head_of_sum(p9, or_none(artifacts));
    part_of_head(p8, changes_text(changes), told, prompt);
    part_of_head(p7, summary, "\n"@, prompt);
    part_of_head(
        p6,
        or_none(deps),
        "\n\nUNTRUSTED AGENT OUTPUT\nFailed task summary: "@,
        prompt,
    );
    part_of_head(
        p5,
        inputs.failed_error@,
        "\nCompleted dependency summaries:\n"@,
        prompt,
    );
    part_of_head(p4, inputs.failed_intent@, "]\nTask error: "@, prompt);
    part_of_head(p3, inputs.failed_role@, ", intent="@, prompt);
    part_of_head(p2, inputs.failed_node_id@, " [role="@, prompt);
    part_of_head(p1, inputs.goal@, "\n\nFailed node: "@, prompt);
    part_of_head(p0, l0, l1, prompt);
    assert(stands_at(prompt, p0, 0));
    if deps.len() == 0 {
        assert(prompt.subrange(0, 0) =~= deps);
        assert(stands_at(prompt, deps, 0));
    }
    assert(prompt.subrange(prompt.len() - artifacts.len(), prompt.len() as int) =~= artifacts);
}

/// Whether a text begins with another.
spec fn is_head(head: Seq<char>, whole: Seq<char>) -> bool {
    head.len() <= whole.len() && whole.subrange(0, head.len() as int) == head
}

proof fn head_of_sum(head: Seq<char>, tail: Seq<char>)
    ensures
        is_head(head, head + tail),
{
    assert((head + tail).subrange(0, head.len() as int) =~= head);
}

proof fn part_of_head(before: Seq<char>, part: Seq<char>, after: Seq<char>, whole: Seq<char>)
    requires
        is_head(before + part + after, whole),
    ensures
        is_head(before, whole),
        contains_text(whole, part),
{
    let head = before + part + after;
    assert forall|i: int| 0 <= i < head.len() implies whole[i] == head[i] by {
        assert(whole.subrange(0, head.len() as int)[i] == whole[i]);
    }
    assert(whole.subrange(0, before.len() as int) =~= before);
    let at = before.len() as int;
    assert(whole.subrange(at, at + part.len()) =~= part);
    assert(stands_at(whole, part, at));
}

/// The goal of a recovery workflow tells the failed node and its error, and ends
/// with the original goal.
#[verifier::rlimit(40)]
pub proof fn recovery_goal_continues_the_original(
    inputs: RecoveryInputs,
    failed_node: Seq<char>,
    attempt: nat,
)
    ensures
        ({
            let goal = recovery_goal(inputs, failed_node, attempt);
            &&& ends_with(goal, inputs.goal@)
            &&& contains_text(goal, failed_node)
            &&& contains_text(goal, inputs.failed_role@)
            &&& contains_text(goal, inputs.failed_error@)
        }),
{
    let goal = recovery_goal(inputs, failed_node, attempt);
    let p0 = "Recovery of a failed workflow (attempt "@ + decimal(attempt)
        + "). Previous attempt failed at node `"@;
    let p1 = p0 + failed_node + "` ("@;
    let p2 = p1 + inputs.failed_role@ + "): "@;
    let told =
        "\nPrevious attempt failed. Inspect the current workspace state. Do not assume partial changes are correct. Preserve useful work only after verification.\n\nOriginal user goal:\n"@;
    let p3 = p2 + inputs.failed_error@ + told;
    assert(goal == p3 + inputs.goal@);
    head_of_sum(p3, inputs.goal@);
    part_of_head(p2, inputs.failed_error@, told, goal);
    part_of_head(p1, inputs.failed_role@, "): "@, goal);
    part_of_head(p0, failed_node, "` ("@, goal);
    assert(goal.subrange(goal.len() - inputs.goal@.len(), goal.len() as int) =~= inputs.goal@);
}

/// What the analyzer is told of dependencies, artifacts and files: each of them,
/// in order, on a line of its own.
pub proof fn each_part_has_its_line(
    summaries: Seq<(Seq<char>, Seq<char>)>,
    summary: (Seq<char>, Seq<char>),
    artifacts: Seq<Artifact>,
    artifact: Artifact,
    files: Seq<Seq<char>>,
    file: Seq<char>,
)
    ensures
        dependency_lines(Seq::empty()).len() == 0,
        dependency_lines(summaries.push(summary)) == dependency_lines(summaries) + "- "@ + summary.0
            + ": "@ + summary.1 + "\n"@,
        artifact_lines(Seq::empty()).len() == 0,
        artifact_lines(artifacts.push(artifact)) == artifact_lines(artifacts) + "- "@
            + artifact.name@ + " ("@ + kind_key(artifact.kind) + "): "@ + truncated(
            lossy_text(artifact.content@),
            800,
        ) + "\n"@,
        files.len() > 0 ==> joined_lines(files.push(file)) == joined_lines(files) + "\n"@ + file,
        joined_lines(seq![file]) == file,
{
    assert(summaries.push(summary).drop_last() =~= summaries);
    assert(artifacts.push(artifact).drop_last() =~= artifacts);
    assert(files.push(file).drop_last() =~= files);
}

/// The message of an error names what the error is about: ids, statuses, numbers
/// and reasons.
#[verifier::rlimit(40)]
pub proof fn recovery_messages_name_their_subject(e: RecoveryError)
    ensures
        e matches RecoveryError::NotFound(id)
            ==> contains_text(recovery_error_text(e), id_text(id.bits)),
        e matches RecoveryError::WorkflowNotFound(id)
            ==> contains_text(recovery_error_text(e), id_text(id.bits)),
        e matches RecoveryError::WorkflowNotFailed(id, status)
            ==> contains_text(recovery_error_text(e), id_text(id.bits))
            && contains_text(recovery_error_text(e), status@),
        e matches RecoveryError::NoFailedNode(id)
            ==> contains_text(recovery_error_text(e), id_text(id.bits)),
        e matches RecoveryError::RecoveryLimitReached { workflow_id, attempt, max_attempts }
            ==> contains_text(recovery_error_text(e), id_text(workflow_id.bits))
            && contains_text(recovery_error_text(e), decimal(attempt as nat))
            && contains_text(recovery_error_text(e), decimal(max_attempts as nat)),
        e matches RecoveryError::RecoveryBudgetExceeded { workflow_id, used, requested, max }
            ==> contains_text(recovery_error_text(e), id_text(workflow_id.bits))
            && contains_text(recovery_error_text(e), decimal(used as nat))
            && contains_text(recovery_error_text(e), decimal(requested as nat))
            && contains_text(recovery_error_text(e), decimal(max as nat)),
        e matches RecoveryError::NotReady(id, status)
            ==> contains_text(recovery_error_text(e), id_text(id.bits))
            && contains_text(recovery_error_text(e), status@),
        e matches RecoveryError::AlreadyExecuted(id)
            ==> contains_text(recovery_error_text(e), id_text(id.bits)),
        e matches RecoveryError::AlreadyPending { workflow_id, recovery_id }
            ==> contains_text(recovery_error_text(e), id_text(workflow_id.bits))
            && contains_text(recovery_error_text(e), id_text(recovery_id.bits))
            && contains_text(recovery_error_text(e), id_text(recovery_id.bits)),
        e matches RecoveryError::ExecutionInProgress(id)
            ==> contains_text(recovery_error_text(e), id_text(id.bits)),
        e matches RecoveryError::AnalyzerTaskFailed(reason)
            ==> contains_text(recovery_error_text(e), reason@),
        e matches RecoveryError::InvalidPlan(reason)
            ==> contains_text(recovery_error_text(e), reason@),
        e matches RecoveryError::PolicyViolation(id, violation)
            ==> contains_text(recovery_error_text(e), id_text(id.bits))
            && contains_text(recovery_error_text(e), violation@),
        e matches RecoveryError::Storage(message)
            ==> contains_text(recovery_error_text(e), message@),
        e matches RecoveryError::Workflow(message)
            ==> contains_text(recovery_error_text(e), message@),
        e matches RecoveryError::Orchestrator(message)
            ==> contains_text(recovery_error_text(e), message@),
{
    match e {
        RecoveryError::NotFound(id) => {
            let t0 = "recovery `"@;
            let t1 = t0 + id_text(id.bits);
            let t2 = t1 + "` not found"@;
            assert(recovery_error_text(e) == t2);
            told_last(t0, id_text(id.bits));
            longer_texts_contain_the_same(t1, id_text(id.bits), "` not found"@);
        },
        RecoveryError::WorkflowNotFound(id) => {
            let t0 = "workflow `"@;
            let t1 = t0 + id_text(id.bits);
            let t2 = t1 + "` not found"@;
            assert(recovery_error_text(e) == t2);
            told_last(t0, id_text(id.bits));
            longer_texts_contain_the_same(t1, id_text(id.bits), "` not found"@);
        },
        RecoveryError::WorkflowNotFailed(id, status) => {
            let t0 = "workflow `"@;
            let t1 = t0 + id_text(id.bits);
            let t2 = t1 + "` cannot be recovered (status `"@;
            let t3 = t2 + status@;
            let t4 = t3 + "`); only failed workflows recover"@;
            assert(recovery_error_text(e) == t4);
            told_last(t0, id_text(id.bits));
            longer_texts_contain_the_same(t1, id_text(id.bits), "` cannot be recovered (status `"@);
            longer_texts_contain_the_same(t2, id_text(id.bits), status@);
            longer_texts_contain_the_same(
                t3,
                id_text(id.bits),
                "`); only failed workflows recover"@,
            );
            told_last(t2, status@);
            longer_texts_contain_the_same(t3, status@, "`); only failed workflows recover"@);
        },
        RecoveryError::NoFailedNode(id) => {
            let t0 = "workflow `"@;
            let t1 = t0 + id_text(id.bits);
            let t2 = t1 + "` has no failed node to recover"@;
            assert(recovery_error_text(e) == t2);
            told_last(t0, id_text(id.bits));
            longer_texts_contain_the_same(t1, id_text(id.bits), "` has no failed node to recover"@);
        },
        RecoveryError::RecoveryLimitReached { workflow_id, attempt, max_attempts } => {
            let t0 = "recovery limit reached for workflow `"@;
            let t1 = t0 + id_text(workflow_id.bits);
            let t2 = t1 + "` (attempt "@;
            let t3 = t2 + decimal(attempt as nat);
            let t4 = t3 + " > max "@;
            let t5 = t4 + decimal(max_attempts as nat);
            let t6 = t5 + ")"@;
            assert(recovery_error_text(e) == t6);
            told_last(t0, id_text(workflow_id.bits));
            longer_texts_contain_the_same(t1, id_text(workflow_id.bits), "` (attempt "@);
            longer_texts_contain_the_same(t2, id_text(workflow_id.bits), decimal(attempt as nat));
            longer_texts_contain_the_same(t3, id_text(workflow_id.bits), " > max "@);
            longer_texts_contain_the_same(
                t4,
                id_text(workflow_id.bits),
                decimal(max_attempts as nat),
            );
            longer_texts_contain_the_same(t5, id_text(workflow_id.bits), ")"@);
            told_last(t2, decimal(attempt as nat));
            longer_texts_contain_the_same(t3, decimal(attempt as nat), " > max "@);
            longer_texts_contain_the_same(
                t4,
                decimal(attempt as nat),
                decimal(max_attempts as nat),
            );
            longer_texts_contain_the_same(t5, decimal(attempt as nat), ")"@);
            told_last(t4, decimal(max_attempts as nat));
            longer_texts_contain_the_same(t5, decimal(max_attempts as nat), ")"@);
        },
        RecoveryError::RecoveryBudgetExceeded { workflow_id, used, requested, max } => {
            let t0 = "recovery agent-call budget exceeded for workflow `"@;
            let t1 = t0 + id_text(workflow_id.bits);
            let t2 = t1 + "` ("@;
            let t3 = t2 + decimal(used as nat);
            let t4 = t3 + " used + "@;
            let t5 = t4 + decimal(requested as nat);
            let t6 = t5 + " > max "@;
            let t7 = t6 + decimal(max as nat);
            let t8 = t7 + ")"@;
            assert(recovery_error_text(e) == t8);
            told_last(t0, id_text(workflow_id.bits));
            longer_texts_contain_the_same(t1, id_text(workflow_id.bits), "` ("@);
            longer_texts_contain_the_same(t2, id_text(workflow_id.bits), decimal(used as nat));
            longer_texts_contain_the_same(t3, id_text(workflow_id.bits), " used + "@);
            longer_texts_contain_the_same(t4, id_text(workflow_id.bits), decimal(requested as nat));
            longer_texts_contain_the_same(t5, id_text(workflow_id.bits), " > max "@);
            longer_texts_contain_the_same(t6, id_text(workflow_id.bits), decimal(max as nat));
            longer_texts_contain_the_same(t7, id_text(workflow_id.bits), ")"@);
            told_last(t2, decimal(used as nat));
            longer_texts_contain_the_same(t3, decimal(used as nat), " used + "@);
            longer_texts_contain_the_same(t4, decimal(used as nat), decimal(requested as nat));
            longer_texts_contain_the_same(t5, decimal(used as nat), " > max "@);
            longer_texts_contain_the_same(t6, decimal(used as nat), decimal(max as nat));
            longer_texts_contain_the_same(t7, decimal(used as nat), ")"@);
            told_last(t4, decimal(requested as nat));
            longer_texts_contain_the_same(t5, decimal(requested as nat), " > max "@);
            longer_texts_contain_the_same(t6, decimal(requested as nat), decimal(max as nat));
            longer_texts_contain_the_same(t7, decimal(requested as nat), ")"@);
            told_last(t6, decimal(max as nat));
            longer_texts_contain_the_same(t7, decimal(max as nat), ")"@);
        },
        RecoveryError::NotReady(id, status) => {
            let t0 = "recovery `"@;
            let t1 = t0 + id_text(id.bits);
            let t2 = t1 + "` is not ready (status `"@;
            let t3 = t2 + status@;
            let t4 = t3 + "`); only ready proposals execute"@;
            assert(recovery_error_text(e) == t4);
            told_last(t0, id_text(id.bits));
            longer_texts_contain_the_same(t1, id_text(id.bits), "` is not ready (status `"@);
            longer_texts_contain_the_same(t2, id_text(id.bits), status@);
            longer_texts_contain_the_same(
                t3,
                id_text(id.bits),
                "`); only ready proposals execute"@,
            );
            told_last(t2, status@);
            longer_texts_contain_the_same(t3, status@, "`); only ready proposals execute"@);
        },
        RecoveryError::AlreadyExecuted(id) => {
            let t0 = "recovery `"@;
            let t1 = t0 + id_text(id.bits);
            let t2 = t1 + "` has already been executed"@;
            assert(recovery_error_text(e) == t2);
            told_last(t0, id_text(id.bits));
            longer_texts_contain_the_same(t1, id_text(id.bits), "` has already been executed"@);
        },
        RecoveryError::AlreadyPending { workflow_id, recovery_id } => {
            let t0 = "workflow `"@;
            let t1 = t0 + id_text(workflow_id.bits);
            let t2 = t1 + "` already has a pending recovery proposal `"@;
            let t3 = t2 + id_text(recovery_id.bits);
            let t4 = t3 + "`; run `recovery execute "@;
            let t5 = t4 + id_text(recovery_id.bits);
            let t6 = t5 + "` instead of generating a competing one"@;
            assert(recovery_error_text(e) == t6);
            told_last(t0, id_text(workflow_id.bits));
            longer_texts_contain_the_same(
                t1,
                id_text(workflow_id.bits),
                "` already has a pending recovery proposal `"@,
            );
            longer_texts_contain_the_same(t2, id_text(workflow_id.bits), id_text(recovery_id.bits));
            longer_texts_contain_the_same(
                t3,
                id_text(workflow_id.bits),
                "`; run `recovery execute "@,
            );
            longer_texts_contain_the_same(t4, id_text(workflow_id.bits), id_text(recovery_id.bits));
            longer_texts_contain_the_same(
                t5,
                id_text(workflow_id.bits),
                "` instead of generating a competing one"@,
            );
            told_last(t2, id_text(recovery_id.bits));
            longer_texts_contain_the_same(
                t3,
                id_text(recovery_id.bits),
                "`; run `recovery execute "@,
            );
            longer_texts_contain_the_same(t4, id_text(recovery_id.bits), id_text(recovery_id.bits));
            longer_texts_contain_the_same(
                t5,
                id_text(recovery_id.bits),
                "` instead of generating a competing one"@,
            );
            told_last(t4, id_text(recovery_id.bits));
            longer_texts_contain_the_same(
                t5,
                id_text(recovery_id.bits),
                "` instead of generating a competing one"@,
            );
        },
        RecoveryError::ExecutionInProgress(id) => {
            let t0 = "recovery `"@;
            let t1 = t0 + id_text(id.bits);
            let t2 = t1 + "` execution is already in progress by another caller"@;
            assert(recovery_error_text(e) == t2);
            told_last(t0, id_text(id.bits));
            longer_texts_contain_the_same(
                t1,
                id_text(id.bits),
                "` execution is already in progress by another caller"@,
            );
        },
        RecoveryError::AnalyzerTaskFailed(reason) => {
            let t0 = "failure analyzer task failed: "@;
            let t1 = t0 + reason@;
            assert(recovery_error_text(e) == t1);
            told_last(t0, reason@);
        },
        RecoveryError::InvalidPlan(reason) => {
            let t0 = "invalid recovery plan: "@;
            let t1 = t0 + reason@;
            assert(recovery_error_text(e) == t1);
            told_last(t0, reason@);
        },
        RecoveryError::PolicyViolation(id, violation) => {
            let t0 = "recovery `"@;
            let t1 = t0 + id_text(id.bits);
            let t2 = t1 + "` violates policy: "@;
            let t3 = t2 + violation@;
            assert(recovery_error_text(e) == t3);
            told_last(t0, id_text(id.bits));
            longer_texts_contain_the_same(t1, id_text(id.bits), "` violates policy: "@);
            longer_texts_contain_the_same(t2, id_text(id.bits), violation@);
            told_last(t2, violation@);
        },
        RecoveryError::Storage(message) => {
            let t0 = "storage error: "@;
            let t1 = t0 + message@;
            assert(recovery_error_text(e) == t1);
            told_last(t0, message@);
        },
        RecoveryError::Workflow(message) => {
            let t0 = "workflow error: "@;
            let t1 = t0 + message@;
            assert(recovery_error_text(e) == t1);
            told_last(t0, message@);
        },
        RecoveryError::Orchestrator(message) => {
            let t0 = "orchestrator error: "@;
            let t1 = t0 + message@;
            assert(recovery_error_text(e) == t1);
            told_last(t0, message@);
        },
        _ => {},
    }
}

proof fn told_last(head: Seq<char>, part: Seq<char>)
    ensures
        contains_text(head + part, part),
{
    parts_stand_where_they_are(head, part, Seq::empty());
    assert(head + part + Seq::<char>::empty() =~= head + part);
}

/// A proposal past the limit is told with its own attempt and the limit.
pub proof fn limit_is_told_with_the_attempt(row: WorkflowRecoveryRow, policy: RecoveryPolicy)
    ensures
        limit_error(row, policy) matches RecoveryError::RecoveryLimitReached {
            workflow_id,
            attempt,
            max_attempts,
        } && workflow_id == row.workflow_id && attempt == row.attempt as usize && max_attempts
            == policy.max_attempts,
{
}

/// A status is written under a text of its own, and read from no other.
pub proof fn recovery_statuses_have_their_texts(s: RecoveryStatus)
    ensures
        recovery_status_text(s) == "generating"@ <==> s == RecoveryStatus::Generating,
        recovery_status_text(s) == "ready"@ <==> s == RecoveryStatus::Ready,
        recovery_status_text(s) == "executing"@ <==> s == RecoveryStatus::Executing,
        recovery_status_text(s) == "executed"@ <==> s == RecoveryStatus::Executed,
        recovery_status_text(s) == "invalid"@ <==> s == RecoveryStatus::Invalid,
        recovery_status_text(s) == "failed"@ <==> s == RecoveryStatus::Failed,
        recovery_status_text(s) == "rejected"@ <==> s == RecoveryStatus::Rejected,
{
    if recovery_status_text(s) == recovery_status_text(RecoveryStatus::Generating) {
        recovery_status_text_injective(s, RecoveryStatus::Generating);
    }
    if recovery_status_text(s) == recovery_status_text(RecoveryStatus::Ready) {
        recovery_status_text_injective(s, RecoveryStatus::Ready);
    }
    if recovery_status_text(s) == recovery_status_text(RecoveryStatus::Executing) {
        recovery_status_text_injective(s, RecoveryStatus::Executing);
    }
    if recovery_status_text(s) == recovery_status_text(RecoveryStatus::Executed) {
        recovery_status_text_injective(s, RecoveryStatus::Executed);
    }
    if recovery_status_text(s) == recovery_status_text(RecoveryStatus::Invalid) {
        recovery_status_text_injective(s, RecoveryStatus::Invalid);
    }
    if recovery_status_text(s) == recovery_status_text(RecoveryStatus::Failed) {
        recovery_status_text_injective(s, RecoveryStatus::Failed);
    }
    if recovery_status_text(s) == recovery_status_text(RecoveryStatus::Rejected) {
        recovery_status_text_injective(s, RecoveryStatus::Rejected);
    }
}

} // verus!
