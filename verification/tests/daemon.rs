//! Plans, replans, recoveries, leases, live tasks, the client and the API.

use agentmesh::a2a::{
    backend_error, cancel_step, directory_endpoints, listener_endpoint, map_a2a_event,
    runtime_agents, session_lane, subscribe_gate, A2AStreamEvent, BackendError, CancelStep,
    DiscoveredEndpoint, TaskFault, TaskFaultKind,
};
use agentmesh::auth::{authorized, generate_token, read_token, token_file, token_of};
use agentmesh::cleanup::{
    build_cleanup_context, distinct_sessions, session_of_task, workflow_cleanup_gate,
    workspace_lookup_error, CleanupError, CleanupSweep, SweepAction, WorkspaceFault,
    WorkspaceFaultKind,
};
use agentmesh::client::{
    base_url, events_path, find_event_boundary, listing_path, parse_error_response,
    parse_frame_text, parse_sse_frame, probe_gate, resource_path, startup_step, FrameReader,
    StartupStep,
};
use agentmesh::config::{AgentMeshConfig, RecoveryConfig};
use agentmesh::error::{CoreError, DaemonError, LockError};
use agentmesh::ids::{Timestamp, Uuid};
use agentmesh::json::JsonValue;
use agentmesh::lease::{LeaseError, SessionLeaseManager};
use agentmesh::model::{
    AgentEvent, AgentMessage, AgentTask, Artifact, ArtifactKind, TaskStatus,
};
use agentmesh::planner::{
    check_stored_plan, current_revision, diff_gate, edit_decision, effective_max_parallel,
    after_plan_claim, fresh_plan, gate_executable, plan_claim_gate, plan_detail, plan_info, plan_outcome,
    plan_preview, PlanClaimResult, PlanError, PlanReply, PlanRevision, PlanStatus, StoredPlan,
};
use agentmesh::protocol::{DaemonStreamEvent, PlanPolicyUsage, RunResponse};
use agentmesh::recovery::{
    build_recovery_goal, build_recovery_prompt, claim_gate, executes_by_itself,
    execution_decision, fresh_recovery, propose_gate, recovery_calls_used, recovery_info,
    recovery_outcome, recovery_preview, rejection_reason, truncate, validate_recovery_plan,
    AnalyzerReply, PlanBudget, PlanReading, ProposalUpdate, RecoveryClaimResult, RecoveryError,
    RecoveryPolicy, WorkflowRecoveryRow, WorkspaceChanges, MAX_ATTEMPTS_CAP,
};
use agentmesh::registry::{
    replay_gap, EventCursor, LiveTask, LiveTaskRegistry, ReplayBuffer,
};
use agentmesh::replan::{
    after_claim, apply_decision, candidate_gate, fresh_replan, looks_markdown, replan_claim_gate,
    replan_delta_text, replan_info, replan_outcome, replan_preview, replan_rejection,
    replannable_gate, DeltaNodes, PlanParseError, PlannerArtifact, PlannerReply,
    ReplanApplyResult, ReplanError, ReplanStatus, ReplanUpdate,
};
use agentmesh::runtime::{configured_recovery_policy, fresh_daemon_meta};
use agentmesh::server::{
    api_error_from_task, apply_error_response, cleanup_error_response, collect_prior_tasks,
    health, live_task_infos, not_found, plan_error_response, recovery_error_response,
    replan_error_response, shutdown_gate, unauthorized, workflow_error_response, AppliesQuery,
    ApplyFault, ApplyFaultKind, ApplyStatus, ErrorResponse, EventsQuery, Missing, PriorFault,
    WorkspaceState, WorkspacesQuery,
};
use agentmesh::workflow::queries::RecoveryInputs;
use agentmesh::workflow::types::{Decoded, WorkflowError, WorkflowStatus};

fn id(n: u128) -> Uuid {
    Uuid { bits: n }
}

const ID_1: &str = "00000000-0000-0000-0000-000000000001";

fn text(s: &str) -> String {
    s.to_string()
}

fn answer(r: &ErrorResponse) -> (u16, &str, &str) {
    (r.status, &r.error.error.code, &r.error.error.message)
}

fn limits() -> PlanPolicyUsage {
    PlanPolicyUsage {
        max_nodes: 12,
        max_agent_calls: 20,
        max_parallel: 4,
    }
}

fn budget() -> PlanBudget {
    PlanBudget {
        node_count: 3,
        estimated_agent_calls: 3,
        evaluation_agent_calls: 0,
        root_count: 1,
        terminal_count: 1,
        planning_calls: 1,
    }
}

// ---------- plans ----------

#[test]
fn plan_status_round_trips() {
    for status in [
        PlanStatus::Generating,
        PlanStatus::Ready,
        PlanStatus::Invalid,
        PlanStatus::Failed,
        PlanStatus::Executing,
        PlanStatus::Executed,
    ] {
        assert_eq!(PlanStatus::from_str(status.as_str()), Some(status));
    }
    assert_eq!(PlanStatus::from_str("bogus"), None);
}

#[test]
fn plan_reply_decides_the_status() {
    let (update, error) = plan_outcome(PlanReply::NotStarted(text("down")));
    assert_eq!(update.status, Some(PlanStatus::Failed));
    assert_eq!(
        error.unwrap().message(),
        "planner task failed: failed to start planner task: down"
    );
    let (update, error) = plan_outcome(PlanReply::Completed {
        parsed: Ok(()),
        written: Ok(text("{}")),
        validated: Err(text("cycle")),
    });
    assert_eq!(update.status, Some(PlanStatus::Invalid));
    assert_eq!(update.first_revision.as_deref(), Some("{}"));
    assert!(error.is_none());
    let (update, _) = plan_outcome(PlanReply::Completed {
        parsed: Ok(()),
        written: Ok(text("{}")),
        validated: Ok(()),
    });
    assert_eq!(update.status, Some(PlanStatus::Ready));
    let (update, _) = plan_outcome(PlanReply::Completed {
        parsed: Err(text("no json")),
        written: Ok(text("{}")),
        validated: Ok(()),
    });
    assert_eq!(update.first_revision, None);
    assert_eq!(update.reason.as_deref(), Some("no json"));
    let (_, error) = plan_outcome(PlanReply::Completed {
        parsed: Ok(()),
        written: Err(text("bad")),
        validated: Ok(()),
    });
    assert_eq!(error, Some(PlanError::InvalidPlan(text("bad"))));
    let (update, _) = plan_outcome(PlanReply::Cancelled);
    assert_eq!(update.reason.as_deref(), Some("planner task was cancelled"));
    let (update, _) = plan_outcome(PlanReply::Failed(text("x")));
    assert_eq!(update.status, Some(PlanStatus::Failed));
}

#[test]
fn edits_are_gated_and_numbered() {
    let mut row = fresh_plan(&text("goal"));
    assert_eq!(row.status, "generating");
    assert!(matches!(
        edit_decision(&row, Ok(()), Ok(()), Ok(())),
        Err(PlanError::NotEditable(..))
    ));
    row.status = text("invalid");
    assert_eq!(edit_decision(&row, Ok(()), Ok(()), Ok(())), Ok(1));
    row.status = text("ready");
    row.current_revision = Some(1);
    assert_eq!(edit_decision(&row, Ok(()), Ok(()), Ok(())), Ok(2));
    assert_eq!(
        edit_decision(&row, Err(text("x")), Ok(()), Ok(())),
        Err(PlanError::InvalidPlan(text("user plan JSON invalid: x")))
    );
    assert_eq!(
        edit_decision(&row, Ok(()), Err(text("x")), Ok(())),
        Err(PlanError::InvalidPlan(text("user plan invalid: x")))
    );
    assert_eq!(
        edit_decision(&row, Ok(()), Ok(()), Err(text("v"))),
        Err(PlanError::PolicyViolation(row.id, text("v")))
    );
}

#[test]
fn plan_executes_at_most_once() {
    let mut row = fresh_plan(&text("goal"));
    assert!(matches!(gate_executable(&row), Err(PlanError::NotReady(..))));
    row.status = text("ready");
    assert!(gate_executable(&row).is_ok());
    row.status = text("executed");
    assert_eq!(gate_executable(&row), Err(PlanError::AlreadyExecuted(row.id)));
    row.status = text("executing");
    assert_eq!(
        gate_executable(&row),
        Err(PlanError::ExecutionInProgress(row.id))
    );
    assert!(plan_claim_gate(id(1), PlanClaimResult::Claimed, None).is_ok());
    assert_eq!(
        plan_claim_gate(id(1), PlanClaimResult::NotReady, None),
        Err(PlanError::NotReady(id(1), text("")))
    );
    assert_eq!(
        plan_claim_gate(id(1), PlanClaimResult::AlreadyExecuted, None)
            .unwrap_err()
            .message(),
        format!("plan `{ID_1}` has already been executed; a plan executes at most once")
    );
    assert!(plan_claim_gate(id(1), PlanClaimResult::ExecutionInProgress, None).is_err());
}

#[test]
fn stored_plan_is_never_trusted() {
    assert!(check_stored_plan(id(1), Ok(()), Ok(()), Ok(()), Ok(())).is_ok());
    assert_eq!(
        check_stored_plan(id(1), Err(text("x")), Ok(()), Ok(()), Ok(())),
        Err(PlanError::InvalidPlan(text("stored plan JSON corrupt: x")))
    );
    assert_eq!(
        check_stored_plan(id(1), Ok(()), Ok(()), Ok(()), Err(text("p"))),
        Err(PlanError::PolicyViolation(id(1), text("p")))
    );
    let mut row = fresh_plan(&text("goal"));
    assert_eq!(
        current_revision(&row, None),
        Err(PlanError::InvalidPlan(text("plan has no stored JSON")))
    );
    row.plan_json = Some(text("{}"));
    assert_eq!(current_revision(&row, None).unwrap().revision, 1);
    let latest = PlanRevision {
        revision: 4,
        plan_json: text("{1}"),
    };
    assert_eq!(current_revision(&row, Some(latest)).unwrap().revision, 4);
    assert_eq!(diff_gate(Ok(()), Ok(())), Ok(()));
    assert_eq!(
        diff_gate(Err(text("a")), Err(text("b"))),
        Err(PlanError::InvalidPlan(text("planner revision corrupt: a")))
    );
}

#[test]
fn plan_detail_tells_a_broken_plan_as_invalid() {
    let mut row = fresh_plan(&text("goal"));
    row.status = text("ready");
    let detail = plan_detail(&row, StoredPlan::Corrupt);
    assert_eq!(detail.status, "invalid");
    assert_eq!(
        detail.validation_error.as_deref(),
        Some("stored plan JSON is corrupt")
    );
    let detail = plan_detail(
        &row,
        StoredPlan::Readable {
            summary: text("s"),
            nodes: Vec::new(),
            error: None,
        },
    );
    assert_eq!(detail.status, "ready");
    assert_eq!(detail.summary.as_deref(), Some("s"));
    assert_eq!(plan_detail(&row, StoredPlan::Missing).summary, None);
    assert_eq!(plan_info(&row).goal, "goal");
}

#[test]
fn parallelism_is_bounded() {
    assert_eq!(effective_max_parallel(9, &limits(), 8), 4);
    assert_eq!(effective_max_parallel(2, &limits(), 8), 2);
    assert_eq!(effective_max_parallel(9, &limits(), 3), 3);
    let row = fresh_plan(&text("goal"));
    let preview = plan_preview(&row, 2, &budget(), &limits(), 9, 8);
    assert_eq!(preview.effective_max_parallel, 4);
    assert_eq!(preview.revision, Some(2));
}

// ---------- replans ----------

#[test]
fn replan_reply_decides_the_status() {
    let (update, error) = replan_outcome(PlannerReply::NotStarted(text("down")));
    assert_eq!(
        update,
        ReplanUpdate::Failed(text("failed to start replan planner task: down"))
    );
    assert!(matches!(error, Some(ReplanError::PlannerTaskFailed(_))));
    let done = |parsed: Result<(), String>, written, validated| {
        replan_outcome(PlannerReply::Completed {
            parsed,
            written,
            validated,
        })
    };
    assert_eq!(done(Ok(()), Ok(()), Ok(())), (ReplanUpdate::Ready, None));
    assert_eq!(
        done(Err(text("a")), Err(text("b")), Ok(())).0,
        ReplanUpdate::Invalid(text("a"))
    );
    assert_eq!(
        done(Ok(()), Err(text("b")), Ok(())),
        (
            ReplanUpdate::Unchanged,
            Some(ReplanError::InvalidDelta(text("b")))
        )
    );
    assert_eq!(
        replan_outcome(PlannerReply::Cancelled).0,
        ReplanUpdate::Failed(text("replan planner task was cancelled"))
    );
    assert_eq!(
        replan_outcome(PlannerReply::Failed(text("f"))).0,
        ReplanUpdate::Failed(text("f"))
    );
}

#[test]
fn stale_replan_is_rejected() {
    let mut row = fresh_replan(id(1), 3);
    row.status = text("ready");
    assert!(apply_decision(&row, 3, Some(Ok(()))).is_ok());
    let stale = apply_decision(&row, 4, Some(Ok(()))).unwrap_err();
    assert_eq!(
        stale,
        ReplanError::ReplanStale {
            replan_id: row.id,
            base: 3,
            current: 4
        }
    );
    assert_eq!(
        replan_rejection(&stale).as_deref(),
        Some("stale base graph revision; re-plan from the current graph")
    );
    assert_eq!(
        apply_decision(&row, 3, None),
        Err(ReplanError::InvalidDelta(text("proposal has no stored delta")))
    );
    assert_eq!(
        apply_decision(&row, 3, Some(Err(text("x")))),
        Err(ReplanError::InvalidDelta(text("x")))
    );
    row.status = text("applied");
    assert_eq!(
        apply_decision(&row, 4, None),
        Err(ReplanError::AlreadyApplied(row.id))
    );
    row.status = text("applying");
    assert_eq!(
        apply_decision(&row, 4, None),
        Err(ReplanError::ApplyInProgress(row.id))
    );
    row.status = text("rejected");
    assert_eq!(
        apply_decision(&row, 3, None),
        Err(ReplanError::NotReady(row.id, text("rejected")))
    );
    assert_eq!(replan_rejection(&ReplanError::NotFound(id(1))), None);
}

#[test]
fn replan_claim_and_candidate_are_gated() {
    let row = fresh_replan(id(1), 3);
    let claim = |result| replan_claim_gate(&row, result, 5, Some(text("s")));
    assert!(claim(ReplanApplyResult::Claimed).is_ok());
    assert!(matches!(
        claim(ReplanApplyResult::ReplanStale),
        Err(ReplanError::ReplanStale { current: 5, .. })
    ));
    assert_eq!(
        claim(ReplanApplyResult::NotReady),
        Err(ReplanError::NotReady(row.id, text("s")))
    );
    assert!(claim(ReplanApplyResult::AlreadyApplied).is_err());
    assert!(claim(ReplanApplyResult::ApplyInProgress).is_err());
    assert_eq!(
        candidate_gate(id(1), false, Ok(()), Ok(())),
        Err(ReplanError::NotDag(id(1)))
    );
    assert_eq!(
        candidate_gate(id(1), true, Err(text("c")), Ok(())),
        Err(ReplanError::InvalidCandidate(text("c")))
    );
    assert_eq!(
        candidate_gate(id(1), true, Ok(()), Err(text("p"))),
        Err(ReplanError::PolicyViolation(id(1), text("p")))
    );
    let decoded = |value| Decoded {
        text: text("s"),
        value,
    };
    let gate = |status, dag| replannable_gate(id(1), &decoded(Some(status)), dag);
    assert_eq!(
        replannable_gate(id(1), &decoded(None), true)
            .unwrap_err()
            .message(),
        "workflow error: invalid persisted workflow state: unknown status s"
    );
    assert!(gate(WorkflowStatus::Running, true).is_ok());
    assert!(gate(WorkflowStatus::Interrupted, true).is_ok());
    assert_eq!(
        gate(WorkflowStatus::Running, false),
        Err(ReplanError::NotDag(id(1)))
    );
    assert_eq!(
        gate(WorkflowStatus::Failed, true),
        Err(ReplanError::NotReplannable(id(1), text("s")))
    );
}

#[test]
fn replan_preview_needs_a_ready_proposal() {
    let delta = || DeltaNodes {
        add_nodes: vec![text("a")],
        update_nodes: Vec::new(),
        remove_nodes: Vec::new(),
    };
    let mut row = fresh_replan(id(1), 3);
    assert!(replan_preview(&row, 3, delta(), &budget(), &limits()).is_err());
    row.status = text("ready");
    let preview = replan_preview(&row, 4, delta(), &budget(), &limits()).unwrap();
    assert_eq!(preview.add_nodes, vec!["a"]);
    assert_eq!(preview.current_graph_revision, 4);
    assert_eq!(replan_info(&row).base_graph_revision, 3);
}

#[test]
fn markdown_is_told_from_json() {
    assert!(looks_markdown("  ```json\n{}"));
    assert!(looks_markdown("`{}`"));
    assert!(!looks_markdown(" {}"));
    assert!(!looks_markdown(""));
}

#[test]
fn delta_text_prefers_a_json_artifact() {
    let artifact = |name: &str, kind, content: Option<&str>| PlannerArtifact {
        name: text(name),
        kind,
        content: content.map(text),
    };
    let summary = text("{\"m\":1}");
    assert_eq!(
        replan_delta_text(
            Some(&summary),
            &[
                artifact("note", ArtifactKind::Text, Some("x")),
                artifact("PLAN.JSON", ArtifactKind::Text, Some("{}"))
            ]
        ),
        Ok(text("{}"))
    );
    assert_eq!(
        replan_delta_text(Some(&summary), &[]),
        Ok(text("{\"m\":1}"))
    );
    assert_eq!(
        replan_delta_text(None, &[artifact("a", ArtifactKind::Json, None)]),
        Err(PlanParseError::NoJsonOutput(text(
            "json artifact `a` has no inline content"
        )))
    );
    assert_eq!(
        replan_delta_text(Some(&text("```{}```")), &[]),
        Err(PlanParseError::MarkdownFenced)
    );
    assert_eq!(
        replan_delta_text(None, &[]),
        Err(PlanParseError::NoJsonOutput(text(
            "replan planner produced no JSON artifact and no final message"
        )))
    );
}

// ---------- recoveries ----------

fn recovery(status: &str, attempt: usize) -> WorkflowRecoveryRow {
    let mut row = fresh_recovery(id(1), &text("implement"), attempt);
    row.status = text(status);
    row
}

#[test]
fn recovery_policy_is_capped() {
    let asked = RecoveryConfig {
        max_attempts: Some(50),
        auto_execute: Some(true),
        ..RecoveryConfig::default()
    };
    let policy = RecoveryPolicy::from_config(&asked);
    assert_eq!(policy.max_attempts, MAX_ATTEMPTS_CAP);
    assert!(policy.auto_execute);
    assert_eq!(policy.max_recovery_agent_calls, 6);
    let default = RecoveryPolicy::from_config(&RecoveryConfig::default());
    assert_eq!(default, RecoveryPolicy::default());
    assert_eq!(
        configured_recovery_policy(&AgentMeshConfig::default_config("lead")),
        RecoveryPolicy::default()
    );
    assert!(!executes_by_itself(&default, &recovery("ready", 1)));
    assert!(executes_by_itself(&policy, &recovery("ready", 1)));
    assert!(!executes_by_itself(&policy, &recovery("invalid", 1)));
}

#[test]
fn proposals_are_gated() {
    let policy = RecoveryPolicy::default();
    let gate = |status, failed_node, rows: &[WorkflowRecoveryRow], children| {
        propose_gate(
            id(1),
            &Decoded {
                text: text("s"),
                value: status,
            },
            failed_node,
            rows,
            children,
            &policy,
        )
    };
    let failed = Some(WorkflowStatus::Failed);
    assert_eq!(gate(failed, true, &[], 0), Ok(1));
    assert_eq!(
        gate(None, true, &[], 0),
        Err(RecoveryError::Workflow(text(
            "invalid persisted workflow state: unknown status s"
        )))
    );
    assert_eq!(
        gate(Some(WorkflowStatus::Running), true, &[], 0),
        Err(RecoveryError::WorkflowNotFailed(id(1), text("s")))
    );
    assert_eq!(
        gate(failed, false, &[], 0),
        Err(RecoveryError::NoFailedNode(id(1)))
    );
    let rows = [recovery("failed", 1), recovery("ready", 1)];
    assert_eq!(
        gate(failed, true, &rows, 0),
        Err(RecoveryError::AlreadyPending {
            workflow_id: id(1),
            recovery_id: rows[1].id
        })
    );
    assert_eq!(
        gate(failed, true, &[], 1).unwrap_err().message(),
        format!("recovery limit reached for workflow `{ID_1}` (attempt 2 > max 1)")
    );
}

#[test]
fn recovery_reply_decides_the_status() {
    let done = |parsed: Result<(), String>, written, validated| {
        recovery_outcome(AnalyzerReply::Completed {
            parsed,
            written,
            validated,
        })
    };
    assert_eq!(done(Ok(()), Ok(()), Ok(())), (ProposalUpdate::Ready, None));
    assert_eq!(
        done(Err(text("a")), Err(text("b")), Err(text("c"))).0,
        ProposalUpdate::Invalid(text("a"))
    );
    assert_eq!(
        done(Ok(()), Ok(()), Err(text("c"))).0,
        ProposalUpdate::Invalid(text("c"))
    );
    let (update, error) = recovery_outcome(AnalyzerReply::NotStarted(text("down")));
    assert_eq!(
        update,
        ProposalUpdate::Failed(text("failed to start failure analyzer task: down"))
    );
    assert!(matches!(error, Some(RecoveryError::AnalyzerTaskFailed(_))));
    assert_eq!(
        recovery_outcome(AnalyzerReply::Cancelled).0,
        ProposalUpdate::Failed(text("failure analyzer task was cancelled"))
    );
    assert_eq!(
        recovery_outcome(AnalyzerReply::Failed(text("f"))).0,
        ProposalUpdate::Failed(text("f"))
    );
}

#[test]
fn execution_is_bounded() {
    let policy = RecoveryPolicy::default();
    let valid = |nodes| PlanReading::Valid { nodes };
    let row = recovery("ready", 1);
    assert!(execution_decision(&row, valid(6), Ok(()), 0, &policy).is_ok());
    assert_eq!(
        execution_decision(&row, valid(4), Ok(()), 3, &policy),
        Err(RecoveryError::RecoveryBudgetExceeded {
            workflow_id: id(1),
            used: 3,
            requested: 4,
            max: 6
        })
    );
    let late = execution_decision(&recovery("ready", 2), valid(1), Ok(()), 0, &policy).unwrap_err();
    assert_eq!(
        rejection_reason(&late).as_deref(),
        Some("attempt limit reached")
    );
    assert_eq!(
        execution_decision(&row, PlanReading::Missing, Ok(()), 0, &policy),
        Err(RecoveryError::InvalidPlan(text("proposal has no stored plan")))
    );
    assert_eq!(
        execution_decision(&row, PlanReading::Invalid(text("x")), Ok(()), 0, &policy),
        Err(RecoveryError::InvalidPlan(text("x")))
    );
    assert_eq!(
        execution_decision(&row, valid(1), Err(text("v")), 0, &policy),
        Err(RecoveryError::PolicyViolation(row.id, text("v")))
    );
    let refused = |status| {
        execution_decision(&recovery(status, 1), valid(1), Ok(()), 0, &policy).unwrap_err()
    };
    assert!(matches!(refused("executed"), RecoveryError::AlreadyExecuted(_)));
    assert!(matches!(
        refused("executing"),
        RecoveryError::ExecutionInProgress(_)
    ));
    assert!(matches!(refused("failed"), RecoveryError::NotReady(..)));
}

#[test]
fn analyzer_plan_is_validated_in_order() {
    let policy = RecoveryPolicy::default();
    let check = |valid, plan_policy, used| {
        validate_recovery_plan(id(1), valid, plan_policy, used, &policy)
    };
    assert!(check(Ok(3), Ok(()), 3).is_ok());
    assert!(matches!(
        check(Ok(4), Ok(()), 3),
        Err(RecoveryError::RecoveryBudgetExceeded { .. })
    ));
    assert_eq!(
        check(Ok(4), Err(text("p")), 3),
        Err(RecoveryError::PolicyViolation(id(1), text("p")))
    );
    assert_eq!(
        check(Err(text("v")), Err(text("p")), 9),
        Err(RecoveryError::InvalidPlan(text("v")))
    );
}

#[test]
fn calls_of_executed_plans_are_counted() {
    let rows = [
        recovery("executed", 1),
        recovery("failed", 1),
        recovery("executed", 2),
        recovery("executed", 2),
    ];
    assert_eq!(
        recovery_calls_used(&rows, &[Some(4), Some(9), Some(2), None]),
        6
    );
}

#[test]
fn recovery_claim_and_preview_are_gated() {
    let policy = RecoveryPolicy::default();
    let row = recovery("ready", 1);
    let claim = |result, status| claim_gate(&row, result, status, &policy);
    assert!(claim(RecoveryClaimResult::Claimed, None).is_ok());
    assert_eq!(
        claim(RecoveryClaimResult::NotReady, Some(text("failed"))),
        Err(RecoveryError::NotReady(row.id, text("failed")))
    );
    assert!(matches!(
        claim(RecoveryClaimResult::RecoveryLimitReached, None),
        Err(RecoveryError::RecoveryLimitReached { .. })
    ));
    assert!(claim(RecoveryClaimResult::AlreadyExecuted, None).is_err());
    assert!(claim(RecoveryClaimResult::ExecutionInProgress, None).is_err());
    let preview = recovery_preview(&row, &budget(), &limits(), 2, &policy).unwrap();
    assert_eq!(preview.chain_calls_used, 2);
    assert_eq!(preview.chain_calls_max, 6);
    assert!(recovery_preview(&recovery("failed", 1), &budget(), &limits(), 2, &policy).is_err());
    assert_eq!(recovery_info(&row).attempt, 1);
}

fn recovery_inputs() -> RecoveryInputs {
    let mut bytes = Artifact::text("log.txt", "ok");
    bytes.content = vec![b'a', 0xff];
    RecoveryInputs {
        goal: text("Ship it"),
        failed_node_id: text("implement"),
        failed_role: text("implementer"),
        failed_intent: text("implementation"),
        failed_error: text("boom"),
        failed_summary: None,
        dependency_summaries: vec![(text("design"), text("done"))],
        failed_task_id: None,
        failed_session_id: None,
        artifacts: vec![bytes],
    }
}

#[test]
fn recovery_prompt_keeps_its_parts_apart() {
    let changes = WorkspaceChanges {
        files: vec![text("a.rs"), text("b.rs")],
        patch: "x".repeat(4001),
    };
    let prompt = build_recovery_prompt(&recovery_inputs(), Some(&changes), 2);
    assert!(prompt.starts_with("RECOVERY PLANNING INSTRUCTION (trusted, authoritative)\n"));
    assert!(prompt.contains("Attempt: 2\n\nIMMUTABLE FAILURE HISTORY\nOriginal user goal:\nShip it\n\nFailed node: implement [role=implementer, intent=implementation]\nTask error: boom\nCompleted dependency summaries:\n- design: done\n\n\nUNTRUSTED AGENT OUTPUT\nFailed task summary: (none)\nchanged files:\na.rs\nb.rs\npatch (truncated):\n"));
    assert!(prompt.contains(&format!("{}\u{2026}\n", "x".repeat(4000))));
    assert!(prompt.ends_with(
        "Relevant artifacts (untrusted, input to analyze):\n- log.txt (text): a\u{fffd}\n"
    ));
    let mut empty = recovery_inputs();
    empty.artifacts = Vec::new();
    empty.dependency_summaries = Vec::new();
    let prompt = build_recovery_prompt(&empty, None, 1);
    assert!(prompt.contains("Completed dependency summaries:\n(none)\n"));
    assert!(prompt.ends_with(
        "(none)\nRelevant artifacts (untrusted, input to analyze):\n(none)"
    ));
}

#[test]
fn recovery_goal_names_the_failure() {
    assert_eq!(
        build_recovery_goal(&recovery_inputs(), "implement", 1),
        "Recovery of a failed workflow (attempt 1). Previous attempt failed at node `implement` (implementer): boom\nPrevious attempt failed. Inspect the current workspace state. Do not assume partial changes are correct. Preserve useful work only after verification.\n\nOriginal user goal:\nShip it"
    );
}

#[test]
fn long_texts_are_truncated() {
    assert_eq!(truncate("abc", 3), "abc");
    assert_eq!(truncate("abcd", 3), "abc\u{2026}");
    assert_eq!(truncate("\u{e9}\u{e9}", 1), "\u{e9}\u{2026}");
}

// ---------- leases and live tasks ----------

#[test]
fn session_has_one_live_task() {
    let mut leases = SessionLeaseManager::new();
    let lease = leases.acquire(id(1), id(10)).unwrap();
    assert_eq!(lease.session_id(), id(1));
    assert!(leases.acquire(id(1), id(10)).is_ok());
    let busy = leases.acquire(id(1), id(11)).unwrap_err();
    assert_eq!(
        busy,
        LeaseError::SessionBusy {
            session_id: id(1),
            active_task_id: id(10)
        }
    );
    assert_eq!(
        busy.message(),
        format!("agent session {ID_1} is busy with task 00000000-0000-0000-0000-00000000000a")
    );
    assert!(leases.acquire(id(2), id(11)).is_ok());
    assert!(leases.is_leased(id(1)));
    leases.release(id(1));
    assert!(!leases.is_leased(id(1)));
    assert!(leases.is_leased(id(2)));
    assert!(leases.acquire(id(1), id(11)).is_ok());
}

fn gap(n: u64) -> DaemonStreamEvent {
    DaemonStreamEvent::ReplayGap {
        oldest_available: n,
    }
}

#[test]
fn replay_buffer_drops_the_oldest() {
    let mut buffer = ReplayBuffer::new(3, 100);
    assert_eq!(buffer.oldest_available(), 1);
    for n in 1..=5 {
        assert_eq!(buffer.push(gap(n), 10), n);
    }
    assert_eq!(buffer.next_seq(), 6);
    assert_eq!(buffer.oldest_available(), 3);
    let seqs: Vec<u64> = buffer.replay_after(3).iter().map(|(n, _)| *n).collect();
    assert_eq!(seqs, vec![4, 5]);
    buffer.push(gap(6), 90);
    assert_eq!(buffer.oldest_available(), 5);
    buffer.push(gap(7), 101);
    assert!(buffer.replay_after(0).is_empty());
    assert_eq!(buffer.oldest_available(), 8);
    let mut unbounded = ReplayBuffer::new(usize::MAX, usize::MAX);
    unbounded.push(gap(1), 10);
    unbounded.push(gap(2), 20);
    assert_eq!(unbounded.replay_after(0).len(), 2);
    let mut none = ReplayBuffer::new(0, 100);
    assert_eq!(none.push(gap(1), 1), 1);
    assert_eq!(none.oldest_available(), 2);
    let mut huge = ReplayBuffer::new(10, usize::MAX);
    huge.push(gap(1), usize::MAX);
    assert_eq!(huge.push(gap(2), usize::MAX), 2);
    assert_eq!(huge.oldest_available(), 2);
    assert_eq!(huge.replay_after(0), vec![(2, &gap(2))]);
}

#[test]
fn refused_candidate_stays_retryable() {
    let refused = ReplanError::InvalidDelta(text("bad"));
    let (status, result) = after_claim(Err(refused));
    assert_eq!(status, Some(ReplanStatus::Ready));
    assert!(matches!(result, Err(ReplanError::InvalidDelta(reason)) if reason == "bad"));
    assert!(matches!(after_claim(Ok(())), (None, Ok(()))));
}

#[test]
fn plan_that_did_not_start_fails() {
    let (update, result) = after_plan_claim(Err(text("no agent")));
    let update = update.unwrap();
    assert_eq!(update.status, Some(PlanStatus::Failed));
    assert_eq!(update.reason.as_deref(), Some("no agent"));
    assert!(matches!(result, Err(PlanError::Workflow(reason)) if reason == "no agent"));
    assert!(matches!(after_plan_claim(Ok(id(7))), (None, Ok(w)) if w == id(7)));
}

#[test]
fn events_are_delivered_once_and_in_order() {
    let mut cursor = EventCursor::new(2);
    let delivered: Vec<u64> = [1, 2, 3, 4, 4, 3, 5]
        .into_iter()
        .filter(|n| cursor.pass(*n))
        .collect();
    assert_eq!(delivered, vec![3, 4, 5]);
    assert_eq!(replay_gap(2, 3), Some(gap(3)));
    assert_eq!(replay_gap(3, 3), None);
    assert_eq!(replay_gap(0, 3), None);
}

fn live_task(n: u128) -> LiveTask {
    let run = RunResponse {
        task_id: id(n),
        context_id: id(100),
        agent_session_id: id(200 + n),
        agent_id: text("codex"),
    };
    LiveTask::new(&run, id(300))
}

#[test]
fn live_task_follows_its_events() {
    let mut task = live_task(1);
    assert_eq!(task.status, TaskStatus::Submitted);
    let info = task.info();
    assert_eq!(task.push(info, 20), 1);
    assert!(!task.observe(&AgentEvent::Started));
    assert_eq!(task.status, TaskStatus::Working);
    assert!(!task.observe(&AgentEvent::Message(text("m"))));
    assert_eq!(task.status, TaskStatus::Working);
    assert!(!task.observe(&AgentEvent::StatusChanged(TaskStatus::InputRequired)));
    assert!(task.observe(&AgentEvent::Failed(text("x"))));
    assert_eq!(task.status, TaskStatus::Failed);
    assert!(live_task(2).observe(&AgentEvent::Completed));
}

#[test]
fn registry_holds_each_task_once() {
    let mut registry = LiveTaskRegistry::new();
    registry.insert(live_task(1));
    registry.insert(live_task(2));
    let mut again = live_task(1);
    again.observe(&AgentEvent::Started);
    registry.insert(again);
    assert_eq!(registry.live_count(), 2);
    assert_eq!(registry.get(id(1)).unwrap().status, TaskStatus::Working);
    assert!(registry.get(id(3)).is_none());
    let list = registry.list();
    assert_eq!(list.len(), 2);
    let working = live_task_infos(&list)
        .into_iter()
        .find(|t| t.task_id == id(1))
        .unwrap();
    assert_eq!(working.status, "working");
    assert!(registry.remove(id(1)).is_some());
    assert!(registry.get(id(1)).is_none());
    assert!(registry.get(id(2)).is_some());
}

// ---------- tokens ----------

#[test]
fn tokens_are_fresh_and_round_trip() {
    let token = generate_token();
    assert_eq!(token.len(), 64);
    assert!(token.chars().all(|c| c.is_ascii_hexdigit()));
    assert_ne!(token, generate_token());
    assert_eq!(read_token(&token_file(&token)), token);
    assert_eq!(token_of(&[0xab, 0x01]), "ab01");
}

#[test]
fn only_the_exact_token_is_authorized() {
    assert!(authorized(Some("Bearer t"), "t"));
    assert!(!authorized(Some("bearer t"), "t"));
    assert!(!authorized(Some("Bearer t "), "t"));
    assert!(!authorized(Some("t"), "t"));
    assert!(!authorized(None, "t"));
    assert_eq!(
        answer(&unauthorized()),
        (401, "unauthorized", "invalid or missing bearer token")
    );
}

// ---------- client ----------

#[test]
fn stream_is_split_at_blank_lines() {
    assert_eq!(find_event_boundary(b"a\n\nb"), Some(3));
    assert_eq!(find_event_boundary(b"\n\n"), Some(2));
    assert_eq!(find_event_boundary(b"a\nb\n"), None);
    assert_eq!(find_event_boundary(b""), None);
    let stream = b"id: 1\ndata: a\n\nid: 2\ndata: b\n\ndata: c";
    let mut whole = FrameReader::new();
    let all = whole.feed(stream);
    assert_eq!(all.len(), 2);
    for cut in 0..=stream.len() {
        let mut reader = FrameReader::new();
        let mut frames = reader.feed(&stream[..cut]);
        frames.extend(reader.feed(&stream[cut..]));
        assert_eq!(frames, all);
    }
}

#[test]
fn frames_are_read() {
    let frame = parse_sse_frame(b"event: agent\r\nid: 7\r\ndata: {\"a\":\r\ndata: 1}\r\n\n").unwrap();
    assert_eq!(frame.id, Some(7));
    assert_eq!(frame.data, "{\"a\":1}");
    assert_eq!(parse_sse_frame(b": ping\n\n"), None);
    assert_eq!(parse_frame_text("id: x\ndata: y").unwrap().id, None);
    assert_eq!(
        parse_sse_frame(&[b'd', b'a', b't', b'a', b':', 0xff]).unwrap().data,
        "\u{fffd}"
    );
}

fn object(entries: Vec<(&str, JsonValue)>) -> JsonValue {
    JsonValue::Object(
        entries
            .into_iter()
            .map(|(k, v)| (k.to_string(), v))
            .collect(),
    )
}

#[test]
fn error_answers_are_read() {
    let body = object(vec![(
        "error",
        object(vec![
            ("code", JsonValue::Text(text("plan_invalid"))),
            ("message", JsonValue::Text(text("cycle"))),
        ]),
    )]);
    assert_eq!(parse_error_response(401, &body), DaemonError::Unauthorized);
    assert_eq!(
        parse_error_response(422, &body).message(),
        "daemon api error (plan_invalid): cycle"
    );
    assert_eq!(
        parse_error_response(500, &JsonValue::Null),
        DaemonError::api(text("daemon_internal"), text("daemon error"))
    );
}

#[test]
fn paths_are_built() {
    let meta = fresh_daemon_meta(&id(1), 7, "127.0.0.1:8");
    assert_eq!(base_url(&meta), "http://127.0.0.1:8");
    assert_eq!(meta.instance_id, ID_1);
    assert_eq!(
        resource_path("tasks", &id(1), "cancel"),
        format!("/v1/tasks/{ID_1}/cancel")
    );
    assert_eq!(resource_path("plans", &id(1), ""), format!("/v1/plans/{ID_1}"));
    assert_eq!(
        events_path("workflows", &id(1), 5),
        format!("/v1/workflows/{ID_1}/events?after=5")
    );
    assert_eq!(
        listing_path("applies", 3, "status", Some("failed")),
        "/v1/applies?limit=3&status=failed"
    );
    assert_eq!(
        listing_path("workspaces", 3, "state", None),
        "/v1/workspaces?limit=3"
    );
}

#[test]
fn probe_needs_the_same_protocol() {
    assert_eq!(probe_gate(None), Err(DaemonError::NotRunning));
    let mut meta = fresh_daemon_meta(&id(1), 7, "a");
    assert_eq!(probe_gate(Some(&meta)), Ok(()));
    meta.protocol_version += 1;
    assert_eq!(probe_gate(Some(&meta)), Err(DaemonError::ProtocolMismatch));
    assert_eq!(startup_step(true, true), StartupStep::Connected);
    assert_eq!(startup_step(false, false), StartupStep::Wait);
    assert_eq!(
        startup_step(false, true),
        StartupStep::GiveUp(DaemonError::StartupTimeout(10))
    );
    assert_eq!(
        DaemonError::StartupTimeout(10).message(),
        "daemon did not become healthy within 10s"
    );
}

#[test]
fn errors_have_their_messages() {
    assert_eq!(
        CoreError::AgentNotFound(text("x")).message(),
        "agent `x` not found"
    );
    assert_eq!(
        CoreError::InvalidInput(text("x")).message(),
        "invalid input: x"
    );
    let held = LockError::Held { path: text("/l") };
    assert_eq!(
        held.message(),
        "daemon lock is held by another process (path: /l)"
    );
    assert_eq!(
        held.startup_message("user"),
        "AgentMesh daemon is already running for this scope (user)."
    );
    let open = LockError::Open {
        path: text("/l"),
        source: text("denied"),
    };
    assert_eq!(
        open.startup_message("user"),
        "failed to open lock file `/l`: denied"
    );
}

// ---------- a2a ----------

#[test]
fn agents_are_registered_and_found() {
    let listeners = vec![
        listener_endpoint(&text("codex"), "127.0.0.1:2"),
        listener_endpoint(&text("alpha"), "127.0.0.1:1"),
        listener_endpoint(&text("codex"), "127.0.0.1:3"),
    ];
    assert_eq!(listeners[0].url, "http://127.0.0.1:2/");
    let found = directory_endpoints(&runtime_agents(&listeners));
    assert_eq!(found.len(), 2);
    assert_eq!(found[0].agent_id, "alpha");
    assert_eq!(found[1].url, "http://127.0.0.1:3/");
    assert_eq!(
        found[1].card_url,
        "http://127.0.0.1:3/.well-known/agent-card.json"
    );
    let broken = DiscoveredEndpoint {
        agent_id: text("x"),
        url: text(""),
        card_url: text("c"),
    };
    assert!(directory_endpoints(&runtime_agents(&[broken])).is_empty());
    assert!(directory_endpoints(&JsonValue::Null).is_empty());
}

fn task_fault(kind: TaskFaultKind) -> TaskFault {
    TaskFault {
        kind,
        message: text("detail"),
    }
}

#[test]
fn backend_answers_without_details() {
    assert_eq!(
        backend_error(task_fault(TaskFaultKind::AgentNotFound(text("a")))),
        BackendError::AgentNotFound(text(""))
    );
    assert_eq!(
        backend_error(task_fault(TaskFaultKind::TaskNotFound)),
        BackendError::TaskNotFound(Uuid::nil())
    );
    assert_eq!(
        backend_error(task_fault(TaskFaultKind::SessionForAgentNotFound)),
        BackendError::SessionForAgentNotFound
    );
    assert_eq!(
        backend_error(task_fault(TaskFaultKind::Other)),
        BackendError::Internal(text("detail"))
    );
    assert_eq!(
        map_a2a_event(gap(3)),
        Some(A2AStreamEvent::ReplayGap {
            oldest_available: 3
        })
    );
    assert_eq!(map_a2a_event(live_task(1).info()), None);
    assert_eq!(cancel_step(None), CancelStep::NotLive);
    assert_eq!(
        cancel_step(Some(TaskStatus::Completed)),
        CancelStep::AlreadyTerminal
    );
    assert_eq!(cancel_step(Some(TaskStatus::Working)), CancelStep::Cancel);
    assert_eq!(subscribe_gate(None), Err(BackendError::TaskNotLive));
    assert_eq!(
        subscribe_gate(Some(TaskStatus::Failed)),
        Err(BackendError::Unsupported)
    );
    assert!(subscribe_gate(Some(TaskStatus::Working)).is_ok());
    assert_eq!(session_lane(None), "default");
    assert_eq!(session_lane(Some("l")), "l");
}

// ---------- cleanup ----------

#[test]
fn cleanup_finds_its_owners() {
    assert_eq!(
        session_of_task(id(1), None),
        Err(CleanupError::TaskNotFound(id(1)))
    );
    assert_eq!(
        session_of_task(id(1), Some(None)),
        Err(CleanupError::TaskHasNoWorkspace(id(1)))
    );
    assert_eq!(session_of_task(id(1), Some(Some(id(2)))), Ok(id(2)));
    let live = [
        (id(1), text("a"), id(5), TaskStatus::Completed),
        (id(2), text("a"), id(6), TaskStatus::Working),
    ];
    assert!(!build_cleanup_context(&live, id(5), false, false).has_live_task);
    let context = build_cleanup_context(&live, id(6), true, true);
    assert!(context.has_live_task && context.has_session_lease);
    assert!(context.has_workflow_dependency && !context.archive_only);
    assert_eq!(
        distinct_sessions(&[Some(id(2)), None, Some(id(1)), Some(id(2))]),
        vec![id(2), id(1)]
    );
}

#[test]
fn active_workflow_refuses_cleanup() {
    let status = |value, name: &str| {
        Some(Decoded {
            text: text(name),
            value,
        })
    };
    assert_eq!(
        workflow_cleanup_gate(id(1), None),
        Err(CleanupError::WorkflowNotFound(id(1)))
    );
    assert!(
        workflow_cleanup_gate(id(1), status(Some(WorkflowStatus::Completed), "completed")).is_ok()
    );
    assert_eq!(
        workflow_cleanup_gate(id(1), status(Some(WorkflowStatus::Running), "running"))
            .unwrap_err()
            .message(),
        format!(
            "workflow `{ID_1}` is still active (status `running`); cancel or wait before cleanup"
        )
    );
    assert_eq!(
        workflow_cleanup_gate(id(1), status(None, "odd")),
        Err(CleanupError::Internal(text("unknown workflow status `odd`")))
    );
}

#[test]
fn nothing_is_removed_before_all_are_checked() {
    let mut sweep = CleanupSweep::new(2);
    let mut actions = Vec::new();
    while sweep.next() != SweepAction::Finished {
        actions.push(sweep.next());
        sweep.report(true);
    }
    assert_eq!(
        actions,
        vec![
            SweepAction::Check(0),
            SweepAction::Check(1),
            SweepAction::Remove(0),
            SweepAction::Remove(1)
        ]
    );
    let mut unsafe_one = CleanupSweep::new(2);
    unsafe_one.report(true);
    unsafe_one.report(false);
    assert_eq!(unsafe_one.next(), SweepAction::Aborted);
    unsafe_one.report(true);
    assert_eq!(unsafe_one.next(), SweepAction::Aborted);
    assert_eq!(CleanupSweep::new(0).next(), SweepAction::Finished);
}

// ---------- answers ----------

#[test]
fn errors_are_answered() {
    assert_eq!(
        answer(&workflow_error_response(&WorkflowError::NotRunning(id(1)))),
        (
            409,
            "workflow_not_running",
            format!("workflow `{ID_1}` is not running").as_str()
        )
    );
    assert_eq!(
        workflow_error_response(&WorkflowError::Storage(text("x"))).status,
        500
    );
    assert_eq!(
        plan_error_response(&PlanError::PolicyViolation(id(1), text("p"))).status,
        422
    );
    assert_eq!(plan_error_response(&PlanError::A2A(text("x"))).status, 500);
    assert_eq!(
        replan_error_response(&ReplanError::PlannerTaskFailed(text("x"))).status,
        502
    );
    assert_eq!(
        answer(&recovery_error_response(&RecoveryError::DirectoryUninitialized)),
        (
            503,
            "daemon_not_ready",
            "agent directory is not initialized"
        )
    );
    assert_eq!(
        answer(&api_error_from_task(&task_fault(
            TaskFaultKind::WorkspaceUnavailable(text("/w"))
        ))),
        (409, "workspace_unavailable", "workspace unavailable: /w")
    );
    assert_eq!(
        answer(&api_error_from_task(&task_fault(TaskFaultKind::Other))),
        (500, "daemon_internal", "detail")
    );
    assert_eq!(
        answer(&not_found(Missing::Competition)),
        (404, "competition_not_found", "competition group not found")
    );
    assert_eq!(health(&id(1)).instance_id, ID_1);
}

#[test]
fn internal_details_are_kept_back() {
    let fault = |kind| ApplyFault {
        kind,
        message: text("secret path"),
    };
    assert_eq!(
        answer(&apply_error_response(&fault(ApplyFaultKind::Storage))),
        (500, "daemon_internal", "apply failed (internal error)")
    );
    assert_eq!(
        answer(&apply_error_response(&fault(ApplyFaultKind::NoChanges))),
        (409, "no_changes", "secret path")
    );
    assert_eq!(
        answer(&cleanup_error_response(&CleanupError::Storage(text("x")))),
        (500, "daemon_internal", "cleanup failed (internal error)")
    );
    let workspace = |kind| WorkspaceFault {
        kind,
        message: text("w"),
    };
    assert_eq!(
        answer(&cleanup_error_response(&CleanupError::Workspace(workspace(
            WorkspaceFaultKind::Removed
        )))),
        (409, "workspace_removed", "workspace error: w")
    );
    assert_eq!(
        workspace_lookup_error(id(1), workspace(WorkspaceFaultKind::NotFound)),
        CleanupError::TaskHasNoWorkspace(id(1))
    );
    assert!(matches!(
        workspace_lookup_error(id(1), workspace(WorkspaceFaultKind::Other)),
        CleanupError::Workspace(_)
    ));
}

#[test]
fn requests_are_gated() {
    assert!(shutdown_gate(true, 3).is_ok());
    assert!(shutdown_gate(false, 0).is_ok());
    assert_eq!(
        answer(&shutdown_gate(false, 3).unwrap_err()),
        (
            409,
            "daemon_busy",
            "daemon has 3 running tasks; use force to cancel them before shutdown"
        )
    );
    assert_eq!(EventsQuery { after: None }.start(), 0);
    let applies = |status: Option<&str>| AppliesQuery {
        limit: None,
        status: status.map(text),
    };
    assert_eq!(applies(None).rows(), 20);
    assert_eq!(applies(None).filter(), Ok(None));
    assert_eq!(
        applies(Some("failed")).filter(),
        Ok(Some(ApplyStatus::Failed))
    );
    assert_eq!(
        answer(&applies(Some("x")).filter().unwrap_err()).2,
        "invalid apply status `x` (expected: planned, applying, completed, failed)"
    );
    let spaces = |state: &str| WorkspacesQuery {
        state: Some(text(state)),
        limit: Some(4),
    };
    assert_eq!(spaces("missing").rows(), 4);
    assert_eq!(
        spaces("missing").filter(),
        Ok(Some(WorkspaceState::Missing))
    );
    assert_eq!(spaces("x").filter().unwrap_err().status, 400);
}

#[test]
fn prior_tasks_are_collected() {
    let task = |seconds| {
        let mut task = AgentTask::new("codex", AgentMessage::user("do it"));
        task.created_at = Timestamp { seconds, nanos: 0 };
        task
    };
    let mut raw = Artifact::text("b", "x");
    raw.content = vec![0xff];
    let found = vec![(task(0), vec![Artifact::text("a", "hello"), raw])];
    let (context, list) = collect_prior_tasks(Some(id(1)), Some(id(2)), &found).unwrap();
    assert_eq!(context, Some(found[0].0.context_id));
    assert_eq!(list[0].created_at, "1970-01-01T00:00:00+00:00");
    assert_eq!(list[0].prompt, "do it");
    assert_eq!(list[0].artifacts[0].content_preview.as_deref(), Some("hello"));
    assert_eq!(list[0].artifacts[1].content_preview, None);
    assert_eq!(list[0].artifacts[1].size_bytes, 1);
    let (context, _) = collect_prior_tasks(None, Some(id(2)), &found).unwrap();
    assert_eq!(context, Some(id(2)));
    assert_eq!(
        collect_prior_tasks(None, None, &found),
        Ok((None, Vec::new()))
    );
    match collect_prior_tasks(Some(id(1)), None, &[]) {
        Err(PriorFault::Missing(r)) => assert_eq!(
            answer(&r).2,
            format!("prior task `{ID_1}` not found")
        ),
        other => panic!("unexpected: {other:?}"),
    }
    match collect_prior_tasks(None, Some(id(1)), &[]) {
        Err(PriorFault::Missing(r)) => assert_eq!(
            answer(&r).2,
            format!("no tasks found for prior context `{ID_1}`")
        ),
        other => panic!("unexpected: {other:?}"),
    }
    assert_eq!(
        collect_prior_tasks(None, Some(id(1)), &[(task(i64::MAX), Vec::new())]),
        Err(PriorFault::NoDate)
    );
}
