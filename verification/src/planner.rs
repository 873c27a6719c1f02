//! Plans of the AI planner.
//!
//! The planner proposes structure, the user may edit it, the validator checks
//! correctness and the policy checks the allowed scope. Neither planner nor
//! user can bypass the policy, and a plan is never trusted on its stored
//! status alone: every path reads and validates it again.

use vstd::prelude::*;
use vstd::string::*;

use crate::ids::{id_text, is_random_id, is_time_text, now_text, Uuid};
use crate::protocol::{PlanDetail, PlanInfo, PlanNodeInfo, PlanPolicyUsage, PlanPreview};
use crate::recovery::PlanBudget;
use crate::text::{clone_opt, opt_text, same_text};
use crate::text::{contains_text, parts_stand_where_they_are};
use crate::text::longer_texts_contain_the_same;

verus! {

/// Lifecycle status of a plan.
#[derive(Clone, Copy, Debug, PartialEq, Eq, Structural)]
pub enum PlanStatus {
    Generating,
    Ready,
    Invalid,
    Failed,
    Executing,
    Executed,
}

/// The text that a status is persisted under.
pub open spec fn plan_status_text(status: PlanStatus) -> Seq<char> {
    match status {
        PlanStatus::Generating => "generating"@,
        PlanStatus::Ready => "ready"@,
        PlanStatus::Invalid => "invalid"@,
        PlanStatus::Failed => "failed"@,
        PlanStatus::Executing => "executing"@,
        PlanStatus::Executed => "executed"@,
    }
}

/// Different statuses are persisted under different texts.
pub proof fn plan_status_text_injective(a: PlanStatus, b: PlanStatus)
    requires
        plan_status_text(a) == plan_status_text(b),
    ensures
        a == b,
{
    reveal_strlit("generating");
    reveal_strlit("ready");
    reveal_strlit("invalid");
    reveal_strlit("failed");
    reveal_strlit("executing");
    reveal_strlit("executed");
    let x = plan_status_text(a);
    let y = plan_status_text(b);
    assert(x.len() == y.len());
    assert(x[0] == y[0]);
}

impl PlanStatus {
    /// Stable snake_case text used for persistence and the wire.
    pub fn as_str(&self) -> (r: &'static str)
        ensures
            r@ == plan_status_text(*self),
    {
        match self {
            PlanStatus::Generating => "generating",
            PlanStatus::Ready => "ready",
            PlanStatus::Invalid => "invalid",
            PlanStatus::Failed => "failed",
            PlanStatus::Executing => "executing",
            PlanStatus::Executed => "executed",
        }
    }

    /// The status that a text names; `None` for unknown texts.
    pub fn from_str(value: &str) -> (r: Option<Self>)
        ensures
            r matches Some(status) ==> plan_status_text(status) == value@,
            r is None ==> forall|status: PlanStatus| #[trigger] plan_status_text(status) != value@,
    {
        if same_text(value, "generating") {
            Some(PlanStatus::Generating)
        } else if same_text(value, "ready") {
            Some(PlanStatus::Ready)
        } else if same_text(value, "invalid") {
            Some(PlanStatus::Invalid)
        } else if same_text(value, "failed") {
            Some(PlanStatus::Failed)
        } else if same_text(value, "executing") {
            Some(PlanStatus::Executing)
        } else if same_text(value, "executed") {
            Some(PlanStatus::Executed)
        } else {
            None
        }
    }

    /// Whether a persisted text names this status.
    pub fn is(&self, text: &String) -> (r: bool)
        ensures
            r == (text@ == plan_status_text(*self)),
    {
        same_text(text.as_str(), self.as_str())
    }
}

/// Errors produced by the plan service. An error of another layer is carried
/// by its message.
#[derive(Debug, PartialEq, Eq)]
pub enum PlanError {
    NotFound(Uuid),
    NotReady(Uuid, String),
    AlreadyExecuted(Uuid),
    ExecutionInProgress(Uuid),
    NotEditable(Uuid, String),
    PolicyViolation(Uuid, String),
    DirectoryUninitialized,
    InvalidPlannerOutput(String),
    InvalidPlan(String),
    PlannerTaskFailed(String),
    A2A(String),
    Storage(String),
    Workflow(String),
    Orchestrator(String),
}

/// The message of a plan error.
pub open spec fn plan_error_text(e: PlanError) -> Seq<char> {
    match e {
        PlanError::NotFound(id) => "plan `"@ + id_text(id.bits) + "` not found"@,
        PlanError::NotReady(id, status) => "plan `"@ + id_text(id.bits)
            + "` is not ready (status `"@ + status@ + "`); only ready plans execute"@,
        PlanError::AlreadyExecuted(id) => "plan `"@ + id_text(id.bits)
            + "` has already been executed; a plan executes at most once"@,
        PlanError::ExecutionInProgress(id) => "plan `"@ + id_text(id.bits)
            + "` execution is already in progress by another caller"@,
        PlanError::NotEditable(id, status) => "plan `"@ + id_text(id.bits)
            + "` is not editable (status `"@ + status@
            + "`); only ready or invalid plans can be edited"@,
        PlanError::PolicyViolation(id, violation) => "plan `"@ + id_text(id.bits)
            + "` violates policy: "@ + violation@,
        PlanError::DirectoryUninitialized => "agent directory is not initialized"@,
        PlanError::InvalidPlannerOutput(reason) => "invalid planner output: "@ + reason@,
        PlanError::InvalidPlan(reason) => "invalid plan: "@ + reason@,
        PlanError::PlannerTaskFailed(reason) => "planner task failed: "@ + reason@,
        PlanError::A2A(message) => "A2A error: "@ + message@,
        PlanError::Storage(message) => "storage error: "@ + message@,
        PlanError::Workflow(message) => "workflow error: "@ + message@,
        PlanError::Orchestrator(message) => "orchestrator error: "@ + message@,
    }
}

impl PlanError {
    /// The message of the error.
    pub fn message(&self) -> (r: String)
        ensures
            r@ == plan_error_text(*self),
    {
        match self {
            PlanError::NotFound(id) => "plan `".to_owned().concat(id.to_text().as_str()).concat(
                "` not found",
            ),
            PlanError::NotReady(id, status) => "plan `".to_owned().concat(
                id.to_text().as_str(),
            ).concat("` is not ready (status `").concat(status.as_str()).concat(
                "`); only ready plans execute",
            ),
            PlanError::AlreadyExecuted(id) => "plan `".to_owned().concat(
                id.to_text().as_str(),
            ).concat("` has already been executed; a plan executes at most once"),
            PlanError::ExecutionInProgress(id) => "plan `".to_owned().concat(
                id.to_text().as_str(),
            ).concat("` execution is already in progress by another caller"),
            PlanError::NotEditable(id, status) => "plan `".to_owned().concat(
                id.to_text().as_str(),
            ).concat("` is not editable (status `").concat(status.as_str()).concat(
                "`); only ready or invalid plans can be edited",
            ),
            PlanError::PolicyViolation(id, violation) => "plan `".to_owned().concat(
                id.to_text().as_str(),
            ).concat("` violates policy: ").concat(violation.as_str()),
            PlanError::DirectoryUninitialized => "agent directory is not initialized".to_owned(),
            PlanError::InvalidPlannerOutput(reason) => "invalid planner output: ".to_owned().concat(
                reason.as_str(),
            ),
            PlanError::InvalidPlan(reason) => "invalid plan: ".to_owned().concat(reason.as_str()),
            PlanError::PlannerTaskFailed(reason) => "planner task failed: ".to_owned().concat(
                reason.as_str(),
            ),
            PlanError::A2A(message) => "A2A error: ".to_owned().concat(message.as_str()),
            PlanError::Storage(message) => "storage error: ".to_owned().concat(message.as_str()),
            PlanError::Workflow(message) => "workflow error: ".to_owned().concat(message.as_str()),
            PlanError::Orchestrator(message) => "orchestrator error: ".to_owned().concat(
                message.as_str(),
            ),
        }
    }
}

/// A plan as it is stored.
#[derive(Debug, PartialEq, Eq)]
pub struct WorkflowPlanRow {
    pub id: Uuid,
    pub goal: String,
    pub status: String,
    pub planner_agent_id: Option<String>,
    pub planner_task_id: Option<Uuid>,
    pub plan_json: Option<String>,
    pub validation_error: Option<String>,
    pub workflow_id: Option<Uuid>,
    pub created_at: String,
    pub updated_at: String,
    pub executed_at: Option<String>,
    pub current_revision: Option<i64>,
    pub execution_claimed_at: Option<String>,
    pub executed_revision: Option<i64>,
}

/// Whether the status of a plan is this one.
pub open spec fn plan_is(row: WorkflowPlanRow, status: PlanStatus) -> bool {
    row.status@ == plan_status_text(status)
}

/// A new plan: it is persisted as being generated before the planner is
/// asked, so that a failure is never silent.
pub fn new_plan(id: Uuid, goal: &String, created_at: String, updated_at: String) -> (r:
    WorkflowPlanRow)
    ensures
        plan_is(r, PlanStatus::Generating),
        r == (WorkflowPlanRow {
            id,
            goal: *goal,
            status: r.status,
            planner_agent_id: None,
            planner_task_id: None,
            plan_json: None,
            validation_error: None,
            workflow_id: None,
            created_at,
            updated_at,
            executed_at: None,
            current_revision: None,
            execution_claimed_at: None,
            executed_revision: None,
        }),
{
    WorkflowPlanRow {
        id,
        goal: goal.clone(),
        status: PlanStatus::Generating.as_str().to_owned(),
        planner_agent_id: None,
        planner_task_id: None,
        plan_json: None,
        validation_error: None,
        workflow_id: None,
        created_at,
        updated_at,
        executed_at: None,
        current_revision: None,
        execution_claimed_at: None,
        executed_revision: None,
    }
}

/// A new plan under a fresh id, as of now.
pub fn fresh_plan(goal: &String) -> (r: WorkflowPlanRow)
    ensures
        plan_is(r, PlanStatus::Generating),
        is_random_id(r.id.bits),
        is_time_text(r.created_at@),
        is_time_text(r.updated_at@),
        r == (WorkflowPlanRow {
            id: r.id,
            goal: *goal,
            status: r.status,
            planner_agent_id: None,
            planner_task_id: None,
            plan_json: None,
            validation_error: None,
            workflow_id: None,
            created_at: r.created_at,
            updated_at: r.updated_at,
            executed_at: None,
            current_revision: None,
            execution_claimed_at: None,
            executed_revision: None,
        }),
{
    new_plan(Uuid::new_v4(), goal, now_text(), now_text())
}

/// What came back from the planner.
#[derive(Debug, PartialEq, Eq)]
pub enum PlanReply {
    /// The task could not be started.
    NotStarted(String),
    /// The task completed; whether its output was a plan, could be written
    /// down (as this JSON), and passed validation.
    Completed {
        parsed: Result<(), String>,
        written: Result<String, String>,
        validated: Result<(), String>,
    },
    /// The task failed.
    Failed(String),
    /// The task was cancelled.
    Cancelled,
}

/// What becomes of a plan.
#[derive(Debug, PartialEq, Eq)]
pub struct PlanUpdate {
    /// The new status, unless it stays as it is.
    pub status: Option<PlanStatus>,
    /// Why the plan is invalid or failed.
    pub reason: Option<String>,
    /// The JSON stored as the planner's revision.
    pub first_revision: Option<String>,
}

/// Whether an update of the plan, and the error that the caller gets, are
/// those that a reply calls for. An unusable output is a status of the plan
/// and no error; what can be read but is not valid is stored as the planner's
/// revision, so that the user can read and mend it.
pub open spec fn is_plan_outcome(
    update: PlanUpdate,
    error: Option<PlanError>,
    reply: PlanReply,
) -> bool {
    match reply {
        PlanReply::NotStarted(reason) => {
            &&& update.status == Some(PlanStatus::Failed)
            &&& opt_text(update.reason) == Some("failed to start planner task: "@ + reason@)
            &&& update.first_revision is None
            &&& error matches Some(PlanError::PlannerTaskFailed(text)) && text@
                == "failed to start planner task: "@ + reason@
        },
        PlanReply::Completed { parsed: Err(reason), .. } => {
            &&& update == (PlanUpdate {
                status: Some(PlanStatus::Invalid),
                reason: Some(reason),
                first_revision: None,
            })
            &&& error is None
        },
        PlanReply::Completed { written: Err(reason), .. } => {
            &&& update == (PlanUpdate { status: None, reason: None, first_revision: None })
            &&& error == Some(PlanError::InvalidPlan(reason))
        },
        PlanReply::Completed { written: Ok(json), validated: Err(reason), .. } => {
            &&& update == (PlanUpdate {
                status: Some(PlanStatus::Invalid),
                reason: Some(reason),
                first_revision: Some(json),
            })
            &&& error is None
        },
        PlanReply::Completed { written: Ok(json), .. } => {
            &&& update == (PlanUpdate {
                status: Some(PlanStatus::Ready),
                reason: None,
                first_revision: Some(json),
            })
            &&& error is None
        },
        PlanReply::Failed(reason) => {
            &&& update == (PlanUpdate {
                status: Some(PlanStatus::Failed),
                reason: Some(reason),
                first_revision: None,
            })
            &&& error is None
        },
        PlanReply::Cancelled => {
            &&& update.status == Some(PlanStatus::Failed)
            &&& opt_text(update.reason) == Some("planner task was cancelled"@)
            &&& update.first_revision is None
            &&& error is None
        },
    }
}

/// What becomes of a plan after the planner's reply, and the error that the
/// caller gets.
pub fn plan_outcome(reply: PlanReply) -> (r: (PlanUpdate, Option<PlanError>))
    ensures
        is_plan_outcome(r.0, r.1, reply),
{
    match reply {
        PlanReply::NotStarted(reason) => {
            let text = "failed to start planner task: ".to_owned().concat(reason.as_str());
            (
                PlanUpdate {
                    status: Some(PlanStatus::Failed),
                    reason: Some(text.clone()),
                    first_revision: None,
                },
                Some(PlanError::PlannerTaskFailed(text)),
            )
        },
        PlanReply::Completed { parsed, written, validated } => match parsed {
            Err(reason) => (
                PlanUpdate {
                    status: Some(PlanStatus::Invalid),
                    reason: Some(reason),
                    first_revision: None,
                },
                None,
            ),
            Ok(_) => match written {
                Err(reason) => (
                    PlanUpdate { status: None, reason: None, first_revision: None },
                    Some(PlanError::InvalidPlan(reason)),
                ),
                Ok(json) => match validated {
                    Err(reason) => (
                        PlanUpdate {
                            status: Some(PlanStatus::Invalid),
                            reason: Some(reason),
                            first_revision: Some(json),
                        },
                        None,
                    ),
                    Ok(_) => (
                        PlanUpdate {
                            status: Some(PlanStatus::Ready),
                            reason: None,
                            first_revision: Some(json),
                        },
                        None,
                    ),
                },
            },
        },
        PlanReply::Failed(reason) => (
            PlanUpdate {
                status: Some(PlanStatus::Failed),
                reason: Some(reason),
                first_revision: None,
            },
            None,
        ),
        PlanReply::Cancelled => (
            PlanUpdate {
                status: Some(PlanStatus::Failed),
                reason: Some("planner task was cancelled".to_owned()),
                first_revision: None,
            },
            None,
        ),
    }
}

/// The reason under which a plan that was executing when the daemon died is
/// failed.
pub fn stale_execution_reason() -> (r: &'static str)
    ensures
        r@ == "AgentMesh daemon terminated during plan execution setup."@,
{
    "AgentMesh daemon terminated during plan execution setup."
}

/// The revision that follows the current one.
pub open spec fn revision_after(current: Option<i64>) -> int {
    match current {
        Some(n) => n + 1,
        None => 1,
    }
}

/// Whether an outcome is the one that an edit has: only ready or invalid plans
/// are editable, and the user's JSON must be readable, valid and within the
/// policy, in this order. Gives the number of the new revision.
pub open spec fn is_edit_decision(
    r: Result<i64, PlanError>,
    row: WorkflowPlanRow,
    parsed: Result<(), String>,
    validated: Result<(), String>,
    policy: Result<(), String>,
) -> bool {
    if !plan_is(row, PlanStatus::Ready) && !plan_is(row, PlanStatus::Invalid) {
        r == Err::<i64, PlanError>(PlanError::NotEditable(row.id, row.status))
    } else {
        match (parsed, validated, policy) {
            (Err(reason), _, _) => r matches Err(PlanError::InvalidPlan(text)) && text@
                == "user plan JSON invalid: "@ + reason@,
            (_, Err(reason), _) => r matches Err(PlanError::InvalidPlan(text)) && text@
                == "user plan invalid: "@ + reason@,
            (_, _, Err(violation)) => r == Err::<i64, PlanError>(
                PlanError::PolicyViolation(row.id, violation),
            ),
            _ => r matches Ok(revision) && revision == revision_after(row.current_revision),
        }
    }
}

/// Whether a plan takes a user's edit, and as which revision.
pub fn edit_decision(
    row: &WorkflowPlanRow,
    parsed: Result<(), String>,
    validated: Result<(), String>,
    policy: Result<(), String>,
) -> (r: Result<i64, PlanError>)
    requires
        row.current_revision matches Some(n) ==> n < i64::MAX,
    ensures
        is_edit_decision(r, *row, parsed, validated, policy),
{
    if !PlanStatus::Ready.is(&row.status) && !PlanStatus::Invalid.is(&row.status) {
        return Err(PlanError::NotEditable(row.id, row.status.clone()));
    }
    match parsed {
        Err(reason) => Err(
            PlanError::InvalidPlan("user plan JSON invalid: ".to_owned().concat(reason.as_str())),
        ),
        Ok(_) => match validated {
            Err(reason) => Err(
                PlanError::InvalidPlan("user plan invalid: ".to_owned().concat(reason.as_str())),
            ),
            Ok(_) => match policy {
                Err(violation) => Err(PlanError::PolicyViolation(row.id, violation)),
                Ok(_) => {
                    let revision: i64 = match row.current_revision {
                        Some(n) => n + 1,
                        None => 1,
                    };
                    Ok(revision)
                },
            },
        },
    }
}

/// An edit never overwrites a revision: the new one comes after the current
/// one, so that the planner's own revision stays.
pub proof fn edit_keeps_earlier_revisions(
    revision: i64,
    row: WorkflowPlanRow,
    parsed: Result<(), String>,
    validated: Result<(), String>,
    policy: Result<(), String>,
)
    requires
        is_edit_decision(Ok(revision), row, parsed, validated, policy),
    ensures
        row.current_revision matches Some(n) ==> revision > n,
{
}

/// Neither planner nor user can bypass the policy: an edit that violates it is
/// refused.
pub proof fn edit_obeys_policy(
    r: Result<i64, PlanError>,
    row: WorkflowPlanRow,
    parsed: Result<(), String>,
    validated: Result<(), String>,
    policy: Result<(), String>,
)
    requires
        is_edit_decision(r, row, parsed, validated, policy),
        parsed is Err || validated is Err || policy is Err,
    ensures
        r is Err,
{
}

/// A plan that cannot be previewed or executed is told why, by its status.
pub fn gate_executable(row: &WorkflowPlanRow) -> (r: Result<(), PlanError>)
    ensures
        is_executable_gate(r, *row),
{
    if PlanStatus::Ready.is(&row.status) {
        Ok(())
    } else if PlanStatus::Executed.is(&row.status) {
        Err(PlanError::AlreadyExecuted(row.id))
    } else if PlanStatus::Executing.is(&row.status) {
        Err(PlanError::ExecutionInProgress(row.id))
    } else {
        Err(PlanError::NotReady(row.id, row.status.clone()))
    }
}

/// Whether an outcome is the one that the status of a plan gives.
pub open spec fn is_executable_gate(r: Result<(), PlanError>, row: WorkflowPlanRow) -> bool {
    if plan_is(row, PlanStatus::Ready) {
        r is Ok
    } else if plan_is(row, PlanStatus::Executed) {
        r == Err::<(), PlanError>(PlanError::AlreadyExecuted(row.id))
    } else if plan_is(row, PlanStatus::Executing) {
        r == Err::<(), PlanError>(PlanError::ExecutionInProgress(row.id))
    } else {
        r == Err::<(), PlanError>(PlanError::NotReady(row.id, row.status))
    }
}

/// A stored revision of a plan.
#[derive(Debug, PartialEq, Eq)]
pub struct PlanRevision {
    pub revision: i64,
    pub plan_json: String,
}

/// The JSON that stands for a plan, with its revision: the latest revision, or
/// the plan's own JSON where there is none.
pub fn current_revision(row: &WorkflowPlanRow, latest: Option<PlanRevision>) -> (r: Result<
    PlanRevision,
    PlanError,
>)
    ensures
        match latest {
            Some(revision) => r == Ok::<PlanRevision, PlanError>(revision),
            None => match row.plan_json {
                Some(json) => r == Ok::<PlanRevision, PlanError>(
                    PlanRevision {
                        revision: match row.current_revision {
                            Some(n) => n,
                            None => 1,
                        },
                        plan_json: json,
                    },
                ),
                None => r matches Err(PlanError::InvalidPlan(text)) && text@
                    == "plan has no stored JSON"@,
            },
        },
        r is Ok <==> latest is Some || row.plan_json is Some,
        latest matches Some(revision) ==> r == Ok::<PlanRevision, PlanError>(revision),
{
    match latest {
        Some(revision) => Ok(revision),
        None => match &row.plan_json {
            Some(json) => {
                let revision: i64 = match row.current_revision {
                    Some(n) => n,
                    None => 1,
                };
                Ok(PlanRevision { revision, plan_json: json.clone() })
            },
            None => Err(PlanError::InvalidPlan("plan has no stored JSON".to_owned())),
        },
    }
}

/// Whether an outcome is the one that the checks of a stored plan give: it
/// must be readable, valid, and within the policy, as must the parallelism
/// that is asked for.
pub open spec fn is_plan_check(
    r: Result<(), PlanError>,
    plan_id: Uuid,
    parsed: Result<(), String>,
    validated: Result<(), String>,
    policy: Result<(), String>,
    parallel: Result<(), String>,
) -> bool {
    match (parsed, validated, policy, parallel) {
        (Err(reason), _, _, _) => r matches Err(PlanError::InvalidPlan(text)) && text@
            == "stored plan JSON corrupt: "@ + reason@,
        (_, Err(reason), _, _) => r == Err::<(), PlanError>(PlanError::InvalidPlan(reason)),
        (_, _, Err(violation), _) => r == Err::<(), PlanError>(
            PlanError::PolicyViolation(plan_id, violation),
        ),
        (_, _, _, Err(violation)) => r == Err::<(), PlanError>(
            PlanError::PolicyViolation(plan_id, violation),
        ),
        _ => r is Ok,
    }
}

/// Whether a stored plan may be previewed or go on to the claim. A plan is
/// never trusted on its status alone.
pub fn check_stored_plan(
    plan_id: Uuid,
    parsed: Result<(), String>,
    validated: Result<(), String>,
    policy: Result<(), String>,
    parallel: Result<(), String>,
) -> (r: Result<(), PlanError>)
    ensures
        is_plan_check(r, plan_id, parsed, validated, policy, parallel),
{
    match parsed {
        Err(reason) => Err(
            PlanError::InvalidPlan("stored plan JSON corrupt: ".to_owned().concat(reason.as_str())),
        ),
        Ok(_) => match validated {
            Err(reason) => Err(PlanError::InvalidPlan(reason)),
            Ok(_) => match policy {
                Err(violation) => Err(PlanError::PolicyViolation(plan_id, violation)),
                Ok(_) => match parallel {
                    Err(violation) => Err(PlanError::PolicyViolation(plan_id, violation)),
                    Ok(_) => Ok(()),
                },
            },
        },
    }
}

/// The outcome of the atomic claim that decides who executes a plan.
#[derive(Clone, Copy, Debug, PartialEq, Eq, Structural)]
pub enum PlanClaimResult {
    Claimed,
    AlreadyExecuted,
    ExecutionInProgress,
    NotReady,
}

/// Whether an outcome is the one that a claim gives its caller: only the caller
/// that claimed the plan goes on. `status` is the status text after the claim.
pub open spec fn is_plan_claim(
    r: Result<(), PlanError>,
    plan_id: Uuid,
    claim: PlanClaimResult,
    status: Option<String>,
) -> bool {
    match claim {
        PlanClaimResult::Claimed => r is Ok,
        PlanClaimResult::AlreadyExecuted => r == Err::<(), PlanError>(
            PlanError::AlreadyExecuted(plan_id),
        ),
        PlanClaimResult::ExecutionInProgress => r == Err::<(), PlanError>(
            PlanError::ExecutionInProgress(plan_id),
        ),
        PlanClaimResult::NotReady => r matches Err(PlanError::NotReady(id, text)) && id == plan_id
            && text@ == (match status {
            Some(t) => t@,
            None => Seq::empty(),
        }),
    }
}

/// One concurrent caller's part in the execution of a plan: what it got from
/// the claim, and what it was told.
pub struct PlanTrial {
    pub claim: PlanClaimResult,
    pub status: Option<String>,
    pub told: Result<(), PlanError>,
}

/// A plan executes at most once: where at most one of concurrent callers got
/// the claim, at most one goes on.
pub proof fn one_caller_executes_plan(plan_id: Uuid, trials: Seq<PlanTrial>, i: int, j: int)
    requires
        forall|k: int|
            0 <= k < trials.len() ==> is_plan_claim(
                (#[trigger] trials[k]).told,
                plan_id,
                trials[k].claim,
                trials[k].status,
            ),
        forall|k: int, l: int|
            0 <= k < trials.len() && 0 <= l < trials.len() && (#[trigger] trials[k]).claim
                == PlanClaimResult::Claimed && (#[trigger] trials[l]).claim
                == PlanClaimResult::Claimed ==> k == l,
        0 <= i < trials.len(),
        0 <= j < trials.len(),
        trials[i].told is Ok,
        trials[j].told is Ok,
    ensures
        i == j,
{
}

/// What a claim lets its caller do.
pub fn plan_claim_gate(plan_id: Uuid, claim: PlanClaimResult, status: Option<String>) -> (r: Result<
    (),
    PlanError,
>)
    ensures
        is_plan_claim(r, plan_id, claim, status),
{
    match claim {
        PlanClaimResult::Claimed => Ok(()),
        PlanClaimResult::AlreadyExecuted => Err(PlanError::AlreadyExecuted(plan_id)),
        PlanClaimResult::ExecutionInProgress => Err(PlanError::ExecutionInProgress(plan_id)),
        PlanClaimResult::NotReady => {
            let text = match status {
                Some(text) => text,
                None => String::new(),
            };
            Err(PlanError::NotReady(plan_id, text))
        },
    }
}

/// What becomes of a claimed plan whose workflow was to be started: the claim is
/// spent, so a plan whose workflow did not start fails for that reason, and is
/// never left executing. `None` leaves the status to the execution itself.
pub fn after_plan_claim(started: Result<Uuid, String>) -> (r: (
    Option<PlanUpdate>,
    Result<Uuid, PlanError>,
))
    ensures
        match started {
            Ok(workflow_id) => r.0 is None && r.1 == Ok::<Uuid, PlanError>(workflow_id),
            Err(reason) => {
                &&& r.0 == Some(
                    PlanUpdate {
                        status: Some(PlanStatus::Failed),
                        reason: Some(reason),
                        first_revision: None,
                    },
                )
                &&& r.1 == Err::<Uuid, PlanError>(PlanError::Workflow(reason))
            },
        },
        r.0 is Some <==> started is Err,
        r.1 is Ok <==> started is Ok,
        r.0 matches Some(update) ==> update.status == Some(PlanStatus::Failed),
{
    match started {
        Ok(workflow_id) => (None, Ok(workflow_id)),
        Err(reason) => (
            Some(
                PlanUpdate {
                    status: Some(PlanStatus::Failed),
                    reason: Some(reason.clone()),
                    first_revision: None,
                },
            ),
            Err(PlanError::Workflow(reason)),
        ),
    }
}

/// The lesser of two numbers.
pub open spec fn lesser(a: usize, b: usize) -> usize {
    if a <= b {
        a
    } else {
        b
    }
}

/// The parallelism of an execution: what is asked for, bounded by the limit of
/// the policy and the cap of the scheduler.
pub fn effective_max_parallel(requested: usize, limits: &PlanPolicyUsage, cap: usize) -> (r: usize)
    ensures
        r == lesser(lesser(requested, limits.max_parallel), cap),
        r <= requested,
        r <= limits.max_parallel,
        r <= cap,
{
    let bounded: usize = if requested <= limits.max_parallel {
        requested
    } else {
        limits.max_parallel
    };
    if bounded <= cap {
        bounded
    } else {
        cap
    }
}

/// The preview of an execution: the cost of the plan and the limits of the
/// policy. It claims nothing.
pub fn plan_preview(
    row: &WorkflowPlanRow,
    revision: i64,
    budget: &PlanBudget,
    limits: &PlanPolicyUsage,
    max_parallel: usize,
    cap: usize,
) -> (r: PlanPreview)
    ensures
        r == (PlanPreview {
            plan_id: row.id,
            status: row.status,
            revision: Some(revision),
            node_count: budget.node_count,
            estimated_agent_calls: budget.estimated_agent_calls,
            evaluation_agent_calls: budget.evaluation_agent_calls,
            root_count: budget.root_count,
            terminal_count: budget.terminal_count,
            planning_calls: budget.planning_calls,
            max_parallel_requested: max_parallel,
            effective_max_parallel: lesser(lesser(max_parallel, limits.max_parallel), cap),
            policy: *limits,
        }),
{
    PlanPreview {
        plan_id: row.id,
        status: row.status.clone(),
        revision: Some(revision),
        node_count: budget.node_count,
        estimated_agent_calls: budget.estimated_agent_calls,
        evaluation_agent_calls: budget.evaluation_agent_calls,
        root_count: budget.root_count,
        terminal_count: budget.terminal_count,
        planning_calls: budget.planning_calls,
        max_parallel_requested: max_parallel,
        effective_max_parallel: effective_max_parallel(max_parallel, limits, cap),
        policy: PlanPolicyUsage {
            max_nodes: limits.max_nodes,
            max_agent_calls: limits.max_agent_calls,
            max_parallel: limits.max_parallel,
        },
    }
}

/// What a stored plan reads as.
#[derive(Debug, PartialEq, Eq)]
pub enum StoredPlan {
    /// None is stored.
    Missing,
    /// It cannot be read.
    Corrupt,
    /// It reads as a plan of these nodes, which is valid unless an error is
    /// given.
    Readable { summary: String, nodes: Vec<PlanNodeInfo>, error: Option<String> },
}

/// Whether a detail tells of a plan: the stored plan is validated again, and
/// one that fails is told as invalid whatever its status.
pub open spec fn is_plan_detail(r: PlanDetail, row: WorkflowPlanRow, stored: StoredPlan) -> bool {
    &&& r == (PlanDetail {
        plan_id: row.id,
        goal: row.goal,
        status: r.status,
        summary: match stored {
            StoredPlan::Readable { summary, .. } => Some(summary),
            _ => None,
        },
        nodes: r.nodes,
        planner_agent_id: row.planner_agent_id,
        planner_task_id: row.planner_task_id,
        workflow_id: row.workflow_id,
        validation_error: r.validation_error,
        created_at: row.created_at,
        updated_at: row.updated_at,
        executed_at: row.executed_at,
        current_revision: row.current_revision,
        executed_revision: row.executed_revision,
        plan_json: row.plan_json,
    })
    &&& match stored {
        StoredPlan::Missing => r.nodes@.len() == 0 && r.status == row.status && r.validation_error
            == row.validation_error,
        StoredPlan::Corrupt => {
            &&& r.nodes@.len() == 0
            &&& r.status@ == plan_status_text(PlanStatus::Invalid)
            &&& opt_text(r.validation_error) == Some("stored plan JSON is corrupt"@)
        },
        StoredPlan::Readable { nodes, error: None, .. } => r.nodes == nodes && r.status
            == row.status && r.validation_error == row.validation_error,
        StoredPlan::Readable { nodes, error: Some(reason), .. } => {
            &&& r.nodes == nodes
            &&& r.status@ == plan_status_text(PlanStatus::Invalid)
            &&& r.validation_error == Some(reason)
        },
    }
}

/// The detail of a plan.
pub fn plan_detail(row: &WorkflowPlanRow, stored: StoredPlan) -> (r: PlanDetail)
    ensures
        is_plan_detail(r, *row, stored),
{
    let invalid = PlanStatus::Invalid.as_str().to_owned();
    let (summary, nodes, fault) = match stored {
        StoredPlan::Missing => (None, Vec::new(), None),
        StoredPlan::Corrupt => (None, Vec::new(), Some("stored plan JSON is corrupt".to_owned())),
        StoredPlan::Readable { summary, nodes, error } => (Some(summary), nodes, error),
    };
    let (status, validation_error) = match fault {
        Some(reason) => (invalid, Some(reason)),
        None => (row.status.clone(), clone_opt(&row.validation_error)),
    };
    PlanDetail {
        plan_id: row.id,
        goal: row.goal.clone(),
        status,
        summary,
        nodes,
        planner_agent_id: clone_opt(&row.planner_agent_id),
        planner_task_id: row.planner_task_id,
        workflow_id: row.workflow_id,
        validation_error,
        created_at: row.created_at.clone(),
        updated_at: row.updated_at.clone(),
        executed_at: clone_opt(&row.executed_at),
        current_revision: row.current_revision,
        executed_revision: row.executed_revision,
        plan_json: clone_opt(&row.plan_json),
    }
}

/// What a listing tells of a plan.
pub fn plan_info(row: &WorkflowPlanRow) -> (r: PlanInfo)
    ensures
        r == (PlanInfo {
            plan_id: row.id,
            goal: row.goal,
            status: row.status,
            planner_agent_id: row.planner_agent_id,
            planner_task_id: row.planner_task_id,
            workflow_id: row.workflow_id,
            validation_error: row.validation_error,
            created_at: row.created_at,
            updated_at: row.updated_at,
            executed_at: row.executed_at,
        }),
{
    PlanInfo {
        plan_id: row.id,
        goal: row.goal.clone(),
        status: row.status.clone(),
        planner_agent_id: clone_opt(&row.planner_agent_id),
        planner_task_id: row.planner_task_id,
        workflow_id: row.workflow_id,
        validation_error: clone_opt(&row.validation_error),
        created_at: row.created_at.clone(),
        updated_at: row.updated_at.clone(),
        executed_at: clone_opt(&row.executed_at),
    }
}

/// The two revisions that a diff sets against each other must be readable.
pub fn diff_gate(planner: Result<(), String>, current: Result<(), String>) -> (r: Result<
    (),
    PlanError,
>)
    ensures
        match (planner, current) {
            (Err(reason), _) => r matches Err(PlanError::InvalidPlan(text)) && text@
                == "planner revision corrupt: "@ + reason@,
            (_, Err(reason)) => r matches Err(PlanError::InvalidPlan(text)) && text@
                == "current revision corrupt: "@ + reason@,
            _ => r is Ok,
        },
        r is Ok <==> planner is Ok && current is Ok,
{
    match planner {
        Err(reason) => Err(
            PlanError::InvalidPlan("planner revision corrupt: ".to_owned().concat(reason.as_str())),
        ),
        Ok(_) => match current {
            Err(reason) => Err(
                PlanError::InvalidPlan(
                    "current revision corrupt: ".to_owned().concat(reason.as_str()),
                ),
            ),
            Ok(_) => Ok(()),
        },
    }
}

/// A plan becomes ready exactly when the planner completed with a plan that was
/// read, written down and found valid. One that was written down is kept as the
/// first revision, valid or not; one that cannot be written down leaves the plan
/// and is told as an error; any reply but a completed one makes it failed.
pub proof fn only_a_valid_plan_is_ready(
    update: PlanUpdate,
    error: Option<PlanError>,
    reply: PlanReply,
)
    requires
        is_plan_outcome(update, error, reply),
    ensures
        update.status == Some(PlanStatus::Ready) <==> (reply matches PlanReply::Completed {
            parsed,
            written,
            validated,
        } && parsed is Ok && written is Ok && validated is Ok),
        update.status == Some(PlanStatus::Invalid) <==> (reply matches PlanReply::Completed {
            parsed,
            written,
            validated,
        } && (parsed is Err || (written is Ok && validated is Err))),
        update.status is None <==> (reply matches PlanReply::Completed { parsed, written, .. }
            && parsed is Ok && written is Err),
        update.status == Some(PlanStatus::Failed) <==> !(reply is Completed),
        (update.first_revision matches Some(json) ==> (reply matches PlanReply::Completed {
            parsed,
            written,
            ..
        } && parsed is Ok && written == Ok::<String, String>(json))),
        update.first_revision is Some <==> (reply matches PlanReply::Completed {
            parsed,
            written,
            ..
        } && parsed is Ok && written is Ok),
        update.status == Some(PlanStatus::Ready) ==> update.reason is None,
        update.status == Some(PlanStatus::Invalid) || update.status == Some(PlanStatus::Failed)
            ==> update.reason is Some,
        error is Some <==> update.status is None || reply is NotStarted,
        reply matches PlanReply::Failed(reason) ==> update.reason == Some(reason),
{
}

/// An edit is accepted exactly when the plan is ready or invalid and the new text
/// can be read, is valid and obeys the policy; it then gets the next revision
/// number, the first one where there was none.
pub proof fn edit_is_accepted_exactly_when_sound(
    r: Result<i64, PlanError>,
    row: WorkflowPlanRow,
    parsed: Result<(), String>,
    validated: Result<(), String>,
    policy: Result<(), String>,
)
    requires
        is_edit_decision(r, row, parsed, validated, policy),
    ensures
        r is Ok <==> (row.status@ == "ready"@ || row.status@ == "invalid"@) && parsed is Ok
            && validated is Ok && policy is Ok,
        r matches Ok(revision) ==> (row.current_revision matches Some(n) ==> revision == n + 1) && (
        row.current_revision is None ==> revision == 1),
        (r is Err && r->Err_0 is NotEditable) <==> row.status@ != "ready"@ && row.status@
            != "invalid"@,
        (r is Err && r->Err_0 is InvalidPlan) <==> (row.status@ == "ready"@ || row.status@
            == "invalid"@) && (parsed is Err || validated is Err),
        (r is Err && r->Err_0 is PolicyViolation) <==> (row.status@ == "ready"@ || row.status@
            == "invalid"@) && parsed is Ok && validated is Ok && policy is Err,
{
}

/// A plan is executed only when it is ready; one that was executed, or is being
/// executed, is told so.
pub proof fn only_a_ready_plan_executes(r: Result<(), PlanError>, row: WorkflowPlanRow)
    requires
        is_executable_gate(r, row),
    ensures
        r is Ok <==> row.status@ == "ready"@,
        r == Err::<(), PlanError>(PlanError::AlreadyExecuted(row.id)) <==> row.status@
            == "executed"@,
        r == Err::<(), PlanError>(PlanError::ExecutionInProgress(row.id)) <==> row.status@
            == "executing"@,
        (r is Err && r->Err_0 is NotReady) <==> row.status@ != "ready"@ && row.status@
            != "executed"@ && row.status@ != "executing"@,
{
    reveal_strlit("ready");
    reveal_strlit("executed");
    reveal_strlit("executing");
    assert("ready"@.len() == 5);
    assert("executed"@.len() == 8);
    assert("executing"@.len() == 9);
}

/// A stored plan passes exactly when it can be read, is valid, obeys the policy
/// and asks for no more parallel nodes than that allows.
pub proof fn stored_plan_passes_exactly_when_sound(
    r: Result<(), PlanError>,
    plan_id: Uuid,
    parsed: Result<(), String>,
    validated: Result<(), String>,
    policy: Result<(), String>,
    parallel: Result<(), String>,
)
    requires
        is_plan_check(r, plan_id, parsed, validated, policy, parallel),
    ensures
        r is Ok <==> parsed is Ok && validated is Ok && policy is Ok && parallel is Ok,
        (r is Err && r->Err_0 is InvalidPlan) <==> parsed is Err || validated is Err,
        (r is Err && r->Err_0 is PolicyViolation) <==> parsed is Ok && validated is Ok && (policy
            is Err || parallel is Err),
{
}

/// Only the caller that got the claim goes on; any other is told why not.
pub proof fn only_the_claim_lets_execute_a_plan(
    r: Result<(), PlanError>,
    plan_id: Uuid,
    claim: PlanClaimResult,
    status: Option<String>,
)
    requires
        is_plan_claim(r, plan_id, claim, status),
    ensures
        r is Ok <==> claim == PlanClaimResult::Claimed,
        r == Err::<(), PlanError>(PlanError::AlreadyExecuted(plan_id)) <==> claim
            == PlanClaimResult::AlreadyExecuted,
        r == Err::<(), PlanError>(PlanError::ExecutionInProgress(plan_id)) <==> claim
            == PlanClaimResult::ExecutionInProgress,
        (r is Err && r->Err_0 is NotReady) <==> claim == PlanClaimResult::NotReady,
{
}

/// The lesser of two numbers is one of them and above neither.
pub proof fn lesser_is_a_lower_bound(a: usize, b: usize)
    ensures
        lesser(a, b) <= a,
        lesser(a, b) <= b,
        lesser(a, b) == a || lesser(a, b) == b,
{
}

/// A plan is shown as invalid exactly when its stored text is corrupt or no valid
/// plan, and else under its own status; its nodes are those of the stored text.
pub proof fn shown_plan_is_the_stored_one(
    r: PlanDetail,
    row: WorkflowPlanRow,
    stored: StoredPlan,
)
    requires
        is_plan_detail(r, row, stored),
    ensures
        r.plan_id == row.id && r.goal == row.goal && r.plan_json == row.plan_json,
        r.workflow_id == row.workflow_id && r.current_revision == row.current_revision,
        r.executed_revision == row.executed_revision && r.executed_at == row.executed_at,
        stored is Corrupt ==> r.status@ == "invalid"@ && r.nodes@.len() == 0 && r.summary is None,
        stored is Missing ==> r.status == row.status && r.nodes@.len() == 0 && r.summary is None,
        stored matches StoredPlan::Readable { summary, nodes, error } ==> r.summary == Some(summary)
            && r.nodes == nodes && (error is None ==> r.status == row.status && r.validation_error
            == row.validation_error) && (error is Some ==> r.status@ == "invalid"@
            && r.validation_error == error),
{
}

/// The message of an error names what the error is about: ids, statuses and
/// reasons.
#[verifier::rlimit(40)]
pub proof fn plan_messages_name_their_subject(e: PlanError)
    ensures
        e matches PlanError::NotFound(id) ==> contains_text(plan_error_text(e), id_text(id.bits)),
        e matches PlanError::NotReady(id, status)
            ==> contains_text(plan_error_text(e), id_text(id.bits))
            && contains_text(plan_error_text(e), status@),
        e matches PlanError::AlreadyExecuted(id)
            ==> contains_text(plan_error_text(e), id_text(id.bits)),
        e matches PlanError::ExecutionInProgress(id)
            ==> contains_text(plan_error_text(e), id_text(id.bits)),
        e matches PlanError::NotEditable(id, status)
            ==> contains_text(plan_error_text(e), id_text(id.bits))
            && contains_text(plan_error_text(e), status@),
        e matches PlanError::PolicyViolation(id, violation)
            ==> contains_text(plan_error_text(e), id_text(id.bits))
            && contains_text(plan_error_text(e), violation@),
        e matches PlanError::InvalidPlannerOutput(reason)
            ==> contains_text(plan_error_text(e), reason@),
        e matches PlanError::InvalidPlan(reason) ==> contains_text(plan_error_text(e), reason@),
        e matches PlanError::PlannerTaskFailed(reason)
            ==> contains_text(plan_error_text(e), reason@),
        e matches PlanError::A2A(message) ==> contains_text(plan_error_text(e), message@),
        e matches PlanError::Storage(message) ==> contains_text(plan_error_text(e), message@),
        e matches PlanError::Workflow(message) ==> contains_text(plan_error_text(e), message@),
        e matches PlanError::Orchestrator(message) ==> contains_text(plan_error_text(e), message@),
{
    match e {
        PlanError::NotFound(id) => {
            let t0 = "plan `"@;
            let t1 = t0 + id_text(id.bits);
            let t2 = t1 + "` not found"@;
            assert(plan_error_text(e) == t2);
            told_last(t0, id_text(id.bits));
            longer_texts_contain_the_same(t1, id_text(id.bits), "` not found"@);
        },
        PlanError::NotReady(id, status) => {
            let t0 = "plan `"@;
            let t1 = t0 + id_text(id.bits);
            let t2 = t1 + "` is not ready (status `"@;
            let t3 = t2 + status@;
            let t4 = t3 + "`); only ready plans execute"@;
            assert(plan_error_text(e) == t4);
            told_last(t0, id_text(id.bits));
            longer_texts_contain_the_same(t1, id_text(id.bits), "` is not ready (status `"@);
            longer_texts_contain_the_same(t2, id_text(id.bits), status@);
            longer_texts_contain_the_same(t3, id_text(id.bits), "`); only ready plans execute"@);
            told_last(t2, status@);
            longer_texts_contain_the_same(t3, status@, "`); only ready plans execute"@);
        },
        PlanError::AlreadyExecuted(id) => {
            let t0 = "plan `"@;
            let t1 = t0 + id_text(id.bits);
            let t2 = t1 + "` has already been executed; a plan executes at most once"@;
            assert(plan_error_text(e) == t2);
            told_last(t0, id_text(id.bits));
            longer_texts_contain_the_same(
                t1,
                id_text(id.bits),
                "` has already been executed; a plan executes at most once"@,
            );
        },
        PlanError::ExecutionInProgress(id) => {
            let t0 = "plan `"@;
            let t1 = t0 + id_text(id.bits);
            let t2 = t1 + "` execution is already in progress by another caller"@;
            assert(plan_error_text(e) == t2);
            told_last(t0, id_text(id.bits));
            longer_texts_contain_the_same(
                t1,
                id_text(id.bits),
                "` execution is already in progress by another caller"@,
            );
        },
        PlanError::NotEditable(id, status) => {
            let t0 = "plan `"@;
            let t1 = t0 + id_text(id.bits);
            let t2 = t1 + "` is not editable (status `"@;
            let t3 = t2 + status@;
            let t4 = t3 + "`); only ready or invalid plans can be edited"@;
            assert(plan_error_text(e) == t4);
            told_last(t0, id_text(id.bits));
            longer_texts_contain_the_same(t1, id_text(id.bits), "` is not editable (status `"@);
            longer_texts_contain_the_same(t2, id_text(id.bits), status@);
            longer_texts_contain_the_same(
                t3,
                id_text(id.bits),
                "`); only ready or invalid plans can be edited"@,
            );
            told_last(t2, status@);
            longer_texts_contain_the_same(
                t3,
                status@,
                "`); only ready or invalid plans can be edited"@,
            );
        },
        PlanError::PolicyViolation(id, violation) => {
            let t0 = "plan `"@;
            let t1 = t0 + id_text(id.bits);
            let t2 = t1 + "` violates policy: "@;
            let t3 = t2 + violation@;
            assert(plan_error_text(e) == t3);
            told_last(t0, id_text(id.bits));
            longer_texts_contain_the_same(t1, id_text(id.bits), "` violates policy: "@);
            longer_texts_contain_the_same(t2, id_text(id.bits), violation@);
            told_last(t2, violation@);
        },
        PlanError::InvalidPlannerOutput(reason) => {
            let t0 = "invalid planner output: "@;
            let t1 = t0 + reason@;
            assert(plan_error_text(e) == t1);
            told_last(t0, reason@);
        },
        PlanError::InvalidPlan(reason) => {
            let t0 = "invalid plan: "@;
            let t1 = t0 + reason@;
            assert(plan_error_text(e) == t1);
            told_last(t0, reason@);
        },
        PlanError::PlannerTaskFailed(reason) => {
            let t0 = "planner task failed: "@;
            let t1 = t0 + reason@;
            assert(plan_error_text(e) == t1);
            told_last(t0, reason@);
        },
        PlanError::A2A(message) => {
            let t0 = "A2A error: "@;
            let t1 = t0 + message@;
            assert(plan_error_text(e) == t1);
            told_last(t0, message@);
        },
        PlanError::Storage(message) => {
            let t0 = "storage error: "@;
            let t1 = t0 + message@;
            assert(plan_error_text(e) == t1);
            told_last(t0, message@);
        },
        PlanError::Workflow(message) => {
            let t0 = "workflow error: "@;
            let t1 = t0 + message@;
            assert(plan_error_text(e) == t1);
            told_last(t0, message@);
        },
        PlanError::Orchestrator(message) => {
            let t0 = "orchestrator error: "@;
            let t1 = t0 + message@;
            assert(plan_error_text(e) == t1);
            told_last(t0, message@);
        },
        _ => {},
    }
}

proof fn told_last(head: Seq<char>, part: Seq<char>)
    ensures
        contains_text(head + part, part),
{
    parts_stand_where_they_are(head, part, Seq::empty());
    assert(head + part + Seq::<char>::empty() =~= head + part);
}

/// A status is written under a text of its own, and read from no other.
pub proof fn plan_statuses_have_their_texts(s: PlanStatus)
    ensures
        plan_status_text(s) == "generating"@ <==> s == PlanStatus::Generating,
        plan_status_text(s) == "ready"@ <==> s == PlanStatus::Ready,
        plan_status_text(s) == "invalid"@ <==> s == PlanStatus::Invalid,
        plan_status_text(s) == "failed"@ <==> s == PlanStatus::Failed,
        plan_status_text(s) == "executing"@ <==> s == PlanStatus::Executing,
        plan_status_text(s) == "executed"@ <==> s == PlanStatus::Executed,
{
    if plan_status_text(s) == plan_status_text(PlanStatus::Generating) {
        plan_status_text_injective(s, PlanStatus::Generating);
    }
    if plan_status_text(s) == plan_status_text(PlanStatus::Ready) {
        plan_status_text_injective(s, PlanStatus::Ready);
    }
    if plan_status_text(s) == plan_status_text(PlanStatus::Invalid) {
        plan_status_text_injective(s, PlanStatus::Invalid);
    }
    if plan_status_text(s) == plan_status_text(PlanStatus::Failed) {
        plan_status_text_injective(s, PlanStatus::Failed);
    }
    if plan_status_text(s) == plan_status_text(PlanStatus::Executing) {
        plan_status_text_injective(s, PlanStatus::Executing);
    }
    if plan_status_text(s) == plan_status_text(PlanStatus::Executed) {
        plan_status_text_injective(s, PlanStatus::Executed);
    }
}

} // verus!
