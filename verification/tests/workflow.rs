//! Workflow decisions: start, graph, resume, events, evaluation, fix rounds
//! and what is told of workflows.

use agentmesh::config::{CompetitionConfig, EvaluationConfig};
use agentmesh::ids::Uuid;
use agentmesh::model::TaskIntent;
use agentmesh::protocol::WorkflowStreamEvent;
use agentmesh::workflow::evaluation::{
    code_completion_actions, consensus_inputs, current_evaluation_group, evaluation_step,
    evaluator_failure_actions, evaluator_group, evaluator_group_for_round, gate_closing_actions,
    gate_group, gate_votes, latest_code_node, restored_assignments, restored_evaluation, selected_candidate, voting_group,
    selection_actions, CandidateRecord, ConsensusResult, DependencyResult, EvaluationAction,
    EvaluationGroup, EvaluationStep, GroupRef, MemberRecord, MemberResult, MemberState,
    NodeProgress,
};
use agentmesh::workflow::events::{
    on_node_complete, on_node_started, recovery_terminal_event, replay, winner_of, StepOutcomeView,
};
use agentmesh::workflow::fix::{
    count_evaluators, fix_budget_fault, fix_round_decision, next_fix_round, FixDecision,
    FixRequest, GraphNode,
};
use agentmesh::workflow::graph::{
    assign_fixer, build_graph_rows, current_dag, dependencies_of, live_node_row, RowStamp,
};
use agentmesh::workflow::ledger::{
    record_key, recovery_key, terminal_key, workflow_key, WorkflowMoment,
};
use agentmesh::workflow::nodes::{
    candidate_evaluator_node, candidate_lane, candidate_node, candidate_of_evaluator,
    candidate_of_gate, evaluation_lane, evaluator_node, evaluator_round, replace_text,
    round_evaluator_node,
};
use agentmesh::workflow::queries::{
    evaluation_round_info, failed_node, info_from_row, interrupted_workflows, live_step_row,
    recovery_inputs, terminal_record, ConsensusCount, TerminalRecord,
};
use agentmesh::workflow::resume::{
    agent_assignments, final_verdict, is_dag, plan_graph_applies, rebuild_completed, resume_gate,
    seed_nodes, seed_progress,
};
use agentmesh::workflow::rows::{competition_rows, fresh_candidate_ids, CompetitionSeed};
use agentmesh::workflow::start::{
    accept_source, check_competition_budget, check_evaluation_budget, competition_layout,
    competition_max_total_calls, competition_settings, evaluation_max_total_calls,
    evaluation_nodes, evaluation_settings, max_candidates, requested_evaluation, start_kind,
    strategy_of, CompetitionLimits, CompetitionOverride, ConsensusStrategy, EvaluationOverride,
    PanelDraft, StartKind,
};
use agentmesh::workflow::types::{
    ConsensusOutcome, Decoded, DependencyEdge, NodeStatus, PersistedStepResult, ReviewResult,
    ReviewVerdict, RoleKind, StoredStep, StoredWorkflow, WorkflowError, WorkflowNode, WorkflowRole,
    WorkflowStatus, WorkflowStep, WorkflowStepStatus,
};

fn id(n: u128) -> Uuid {
    Uuid { bits: n }
}

fn text(s: &str) -> String {
    s.to_string()
}

fn role(kind: RoleKind, key: &str) -> WorkflowRole {
    WorkflowRole {
        key: text(key),
        kind,
        reviewer: key == "critic",
    }
}

fn step(node: &str) -> WorkflowStep {
    WorkflowStep {
        id: text(node),
        role: role(RoleKind::Implementer, "implementer"),
        intent: TaskIntent::Implementation,
        objective: None,
    }
}

fn result(node: &str, status: WorkflowStepStatus) -> PersistedStepResult {
    PersistedStepResult {
        step: step(node),
        status,
        agent_id: Some(text("codex")),
        task_id: Some(id(9)),
        summary: Some(text("did it")),
        review_result: None,
        error: None,
    }
}

fn reviewed_as(key: &str, changes_requested: bool) -> ReviewResult {
    ReviewResult {
        verdict: ReviewVerdict {
            key: text(key),
            changes_requested,
        },
        json: format!("{{\"verdict\":\"{key}\",\"summary\":\"read it\",\"issues\":[]}}"),
    }
}

fn row(node: &str, status: WorkflowStepStatus, node_status: NodeStatus, name: &str) -> StoredStep {
    StoredStep {
        ordinal: 0,
        node_id: Some(text(node)),
        role: Decoded {
            text: text("implementer"),
            value: Some(role(RoleKind::Implementer, "implementer")),
        },
        intent: text("implementation"),
        objective: Some(text("build")),
        status: Decoded {
            text: text(name),
            value: Some(status),
        },
        node_status: Some(node_status),
        agent_id: Some(text("codex")),
        task_id: Some(id(9)),
        review_round: 0,
        summary: Some(text("did it")),
        result_json: None,
        result: None,
        plain_step: Some(step(node)),
        created_at: text("t"),
        started_at: None,
        completed_at: None,
        error: None,
    }
}

fn done_row(node: &str) -> StoredStep {
    let mut r = row(
        node,
        WorkflowStepStatus::Completed,
        NodeStatus::Completed,
        "completed",
    );
    r.result = Some(result(node, WorkflowStepStatus::Completed));
    r
}

fn workflow(status: Option<WorkflowStatus>, name: &str) -> StoredWorkflow {
    StoredWorkflow {
        id: id(1),
        preset: text("feature"),
        goal: text("Ship it"),
        status: Decoded {
            text: text(name),
            value: status,
        },
        context_id: None,
        error: None,
        created_at: text("t"),
        updated_at: text("t"),
        completed_at: None,
        graph_revision: 1,
        parent_workflow_id: None,
        recovery_of_node_id: None,
        recovery_attempt: 0,
        source_workspace: None,
    }
}

fn edge(node: &str, on: &str) -> DependencyEdge {
    DependencyEdge {
        node_id: text(node),
        depends_on_node_id: text(on),
    }
}

fn node(name: &str, deps: &[&str]) -> WorkflowNode {
    WorkflowNode {
        node_id: text(name),
        role: role(RoleKind::Implementer, "implementer"),
        intent: TaskIntent::Implementation,
        dependencies: deps.iter().map(|d| text(d)).collect(),
        objective: None,
    }
}

// ---------- names ----------

#[test]
fn node_names_round_trip() {
    assert_eq!(evaluator_node(2), "evaluator_2");
    assert_eq!(evaluator_round("evaluator_2"), 0);
    assert_eq!(round_evaluator_node(3, 1), "evaluator_r3_1");
    assert_eq!(evaluator_round("evaluator_r3_1"), 3);
    assert_eq!(evaluator_round("other"), 0);
    assert_eq!(candidate_node(2), "candidate_2");
    assert_eq!(candidate_lane(2), "candidate:candidate_2");
    assert_eq!(candidate_evaluator_node(2, 1), "eval_c2_1");
    assert_eq!(candidate_of_evaluator("eval_c2_1"), "candidate_2");
    assert_eq!(candidate_of_gate("consensus_c2"), "candidate_2");
    assert_eq!(
        evaluation_lane(id(1), "candidate_1", "eval_c1_1"),
        "evaluation:00000000-0000-0000-0000-000000000001:candidate_1:eval_c1_1"
    );
    assert_eq!(replace_text("aXbX", "X", "--"), "a--b--");
}

// ---------- start ----------

fn competition_limits() -> CompetitionLimits {
    CompetitionLimits {
        max_candidates: 3,
        default_evaluators: 3,
        max_evaluators: 5,
    }
}

#[test]
fn competition_settings_are_bounded() {
    let settings =
        competition_settings(None, CompetitionOverride::default(), competition_limits());
    assert_eq!(settings.candidates, 2);
    assert_eq!(settings.evaluators, 3);
    assert_eq!(settings.quorum, 2);
    assert_eq!(settings.strategy, ConsensusStrategy::Majority);
    let config = CompetitionConfig {
        default_candidates: Some(9),
        max_candidates: Some(8),
        ..CompetitionConfig::default()
    };
    assert_eq!(
        max_candidates(Some(config), CompetitionOverride::default(), competition_limits()),
        3
    );
    let over = CompetitionOverride {
        default_evaluators: Some(9),
        ..CompetitionOverride::default()
    };
    let settings = competition_settings(Some(config), over, competition_limits());
    assert_eq!(settings.candidates, 3);
    assert_eq!(settings.evaluators, 5);
    assert_eq!(settings.quorum, 3);
    assert_eq!(competition_max_total_calls(None, None), 3);
}

#[test]
fn evaluation_settings_follow_the_configuration() {
    let config = EvaluationConfig {
        default_evaluators: Some(4),
        default_quorum: Some(3),
        strategy: Some(text("unanimous")),
        ..EvaluationConfig::default()
    };
    let settings = evaluation_settings(Some(&config), EvaluationOverride::default(), 5);
    assert_eq!(settings.evaluators, 4);
    assert_eq!(settings.strategy, ConsensusStrategy::Unanimous);
    assert_eq!(strategy_of(Some("bogus")), ConsensusStrategy::Majority);
    assert_eq!(evaluation_max_total_calls(None, None), 6);
    let asked = requested_evaluation(None, Some(99), Some("majority"), None, settings, 5);
    assert_eq!(asked.evaluators, 5);
    assert_eq!(asked.strategy, ConsensusStrategy::Majority);
}

#[test]
fn evaluators_are_capped_by_the_configuration() {
    let config = EvaluationConfig {
        max_evaluators: Some(2),
        default_evaluators: Some(3),
        default_quorum: Some(3),
        ..EvaluationConfig::default()
    };
    let settings = evaluation_settings(Some(&config), EvaluationOverride::default(), 5);
    assert_eq!((settings.evaluators, settings.quorum), (2, 2));
    let asked = requested_evaluation(Some(&config), Some(4), None, None, settings, 5);
    assert_eq!(asked.evaluators, 2);
}

#[test]
fn budgets_are_checked() {
    assert!(check_evaluation_budget(6, 6).is_ok());
    assert_eq!(
        check_evaluation_budget(7, 6),
        Err(WorkflowError::EvaluationBudgetExceeded(7, 6))
    );
    assert_eq!(
        check_competition_budget(4, 3),
        Err(WorkflowError::CompetitionBudgetExceeded(4, 3))
    );
}

#[test]
fn panel_is_distinct() {
    let mut panel = PanelDraft::without(2, &text("codex"));
    assert_eq!(panel.excluded, vec!["codex"]);
    panel.accept(text("opencode"));
    assert!(!panel.is_full());
    assert_eq!(
        panel.too_few_evaluators(),
        WorkflowError::InsufficientEvaluationPanel(2, 1)
    );
    panel.accept(text("antigravity"));
    assert!(panel.is_full());
    assert_eq!(panel.excluded, vec!["codex", "opencode", "antigravity"]);
    assert_eq!(
        PanelDraft::distinct(2).too_few_candidates(),
        WorkflowError::InsufficientCandidates(2, 0)
    );
}

#[test]
fn competition_is_laid_out() {
    let plans = competition_layout(
        id(1),
        &vec![text("codex"), text("opencode")],
        &vec![vec![text("a")], vec![text("b"), text("c")]],
    );
    assert_eq!(plans[0].candidate_id, "candidate_1");
    assert_eq!(plans[1].lane, "candidate:candidate_2");
    assert_eq!(plans[1].evaluators[1].node_id, "eval_c2_2");
    assert_eq!(plans[1].evaluators[1].agent_id, "c");
    let nodes = evaluation_nodes(2);
    assert_eq!(nodes[0].node_id, "evaluator_1");
    assert_eq!(nodes.last().unwrap().kind, RoleKind::ConsensusGate);
    assert_eq!(
        nodes.last().unwrap().dependencies,
        vec!["evaluator_1", "evaluator_2"]
    );
}

#[test]
fn presets_decide_the_start() {
    let kind = |preset: &str, graph| start_kind(preset, "consensus", "best", graph);
    assert_eq!(kind("consensus", true), StartKind::ConsensusReview);
    assert_eq!(kind("best", false), StartKind::BestOfN);
    assert_eq!(kind("x", true), StartKind::Graph);
    assert_eq!(kind("x", false), StartKind::Sequential);
}

#[test]
fn source_workspace_is_checked() {
    assert_eq!(
        accept_source(text("/p"), Ok(text("/real")), true, Ok(())),
        Ok(text("/real"))
    );
    assert!(matches!(
        accept_source(text("/p"), Err(text("gone")), true, Ok(())),
        Err(WorkflowError::InvalidSourceWorkspace(..))
    ));
    assert!(accept_source(text("/p"), Ok(text("/real")), false, Ok(())).is_err());
    assert!(accept_source(text("/p"), Ok(text("/real")), true, Err(text("no repo"))).is_err());
}

// ---------- graph ----------

#[test]
fn graph_is_read_from_rows() {
    let rows = [
        done_row("design"),
        row(
            "implement",
            WorkflowStepStatus::Running,
            NodeStatus::Running,
            "running",
        ),
    ];
    let edges = [edge("implement", "design")];
    let dag = current_dag(&rows, &edges, 4).unwrap().unwrap();
    assert_eq!(dag.nodes.len(), 2);
    assert_eq!(dag.nodes[1].dependencies, vec!["design"]);
    assert_eq!(dag.statuses.get("design"), Some(&NodeStatus::Completed));
    assert_eq!(dag.summaries.get("design").map(String::as_str), Some("did it"));
    assert_eq!(dag.graph_revision, 4);
    assert_eq!(dependencies_of(&edges, "design"), Vec::<String>::new());
    let mut plain = done_row("x");
    plain.node_id = None;
    assert!(current_dag(&[plain], &[], 1).unwrap().is_none());
}

#[test]
fn replaced_graph_keeps_finished_nodes() {
    let nodes = vec![node("design", &[]), node("test", &["design"])];
    let (rows, edges) = build_graph_rows(
        id(1),
        &nodes,
        &[done_row("design")],
        &vec![id(11), id(12)],
        &text("now"),
    );
    assert_eq!(rows[0].status, WorkflowStepStatus::Completed);
    assert_eq!(rows[0].task_id, Some(id(9)));
    assert_eq!(rows[1].status, WorkflowStepStatus::Pending);
    assert_eq!(edges, vec![(text("test"), text("design"))]);
    let rows = assign_fixer(rows, "test", Some(&text("codex")));
    assert_eq!(rows[1].agent_id.as_deref(), Some("codex"));
}

#[test]
fn running_node_keeps_its_agent() {
    let stamp = RowStamp {
        id: id(5),
        workflow_id: id(1),
        ordinal: 3,
        now: text("now"),
    };
    let r = live_node_row(
        stamp,
        &node("a", &[]),
        NodeStatus::Running,
        None,
        None,
        Some(text("opencode")),
    );
    assert_eq!(r.agent_id.as_deref(), Some("opencode"));
    assert_eq!(r.ordinal, 3);
    assert_eq!(r.status, WorkflowStepStatus::Running);
}

// ---------- resume ----------

#[test]
fn only_interrupted_workflows_resume() {
    assert!(resume_gate(&workflow(Some(WorkflowStatus::Interrupted), "interrupted")).is_ok());
    assert_eq!(
        resume_gate(&workflow(Some(WorkflowStatus::Failed), "failed")),
        Err(WorkflowError::NotResumable(id(1), text("failed")))
    );
    assert!(resume_gate(&workflow(None, "odd")).is_err());
    assert!(plan_graph_applies(1));
    assert!(!plan_graph_applies(2));
}

#[test]
fn progress_is_rebuilt() {
    let rows = [
        done_row("a"),
        row(
            "c",
            WorkflowStepStatus::Pending,
            NodeStatus::Pending,
            "pending",
        ),
        row(
            "b",
            WorkflowStepStatus::Interrupted,
            NodeStatus::Interrupted,
            "interrupted",
        ),
    ];
    assert!(is_dag(&rows));
    let seed = seed_progress(&rows).unwrap();
    assert_eq!(seed.completed.len(), 1);
    assert_eq!(seed.pending, vec!["c"]);
    assert_eq!(seed.interrupted, vec!["b"]);
    let nodes = seed_nodes(&rows, &[edge("c", "a")], None).unwrap();
    assert_eq!(nodes.len(), 3);
    assert_eq!(
        agent_assignments(&rows).get("a").map(String::as_str),
        Some("codex")
    );
}

#[test]
fn sequential_progress_is_rebuilt() {
    let mut reviewed = done_row("review");
    reviewed.node_id = None;
    let mut review = result("review", WorkflowStepStatus::Completed);
    review.step.role = role(RoleKind::Other, "critic");
    review.review_result = Some(reviewed_as("approved", false));
    reviewed.result = Some(review);
    let rows = [reviewed];
    assert!(!is_dag(&rows));
    let completed = rebuild_completed(&rows).unwrap();
    assert_eq!(completed.len(), 1);
    assert_eq!(
        completed[0].review_result,
        Some(reviewed_as("approved", false))
    );
    assert_eq!(final_verdict(&rows).unwrap().key, "approved");
    assert_eq!(final_verdict(&[]), None);
}

// ---------- events ----------

#[test]
fn replay_starts_and_ends() {
    let events = replay(
        &workflow(Some(WorkflowStatus::Completed), "completed"),
        &[done_row("a")],
    )
    .unwrap();
    assert!(matches!(
        events.first(),
        Some(WorkflowStreamEvent::WorkflowStarted { .. })
    ));
    assert!(events
        .iter()
        .any(|e| matches!(e, WorkflowStreamEvent::NodeCompleted { .. })));
    assert!(matches!(
        events.last(),
        Some(WorkflowStreamEvent::WorkflowCompleted { .. })
    ));
    assert!(replay(&workflow(None, "odd"), &[]).is_err());
}

fn outcome(status: WorkflowStepStatus) -> StepOutcomeView {
    StepOutcomeView {
        status,
        agent_id: Some(text("codex")),
        error: None,
        reason: None,
        verdict: None,
        status_text: text("s"),
    }
}

#[test]
fn node_events_tell_the_competition() {
    let candidate = role(RoleKind::Candidate, "candidate");
    let started = on_node_started(id(1), "candidate_1", &candidate, "codex");
    assert!(!started.is_empty());
    let events = on_node_complete(
        id(1),
        &text("candidate_1"),
        &candidate,
        &outcome(WorkflowStepStatus::Completed),
    );
    assert!(matches!(
        events[0],
        WorkflowStreamEvent::CandidateCompleted { .. }
    ));
    assert!(matches!(
        events[1],
        WorkflowStreamEvent::NodeCompleted { .. }
    ));
    let events = on_node_complete(
        id(1),
        &text("select"),
        &role(RoleKind::SelectionGate, "selection"),
        &outcome(WorkflowStepStatus::Failed),
    );
    assert!(matches!(
        events[0],
        WorkflowStreamEvent::NoAcceptableCandidate { .. }
    ));
    assert_eq!(winner_of(&Some(text("winner candidate_2"))), "candidate_2");
}

#[test]
fn recovery_end_is_told_on_the_child() {
    assert!(recovery_terminal_event(id(1), None, WorkflowStatus::Completed, None).is_none());
    assert!(matches!(
        recovery_terminal_event(id(1), Some(id(2)), WorkflowStatus::Completed, None),
        Some(WorkflowStreamEvent::RecoveryCompleted { .. })
    ));
    assert!(matches!(
        recovery_terminal_event(id(1), Some(id(2)), WorkflowStatus::Failed, None),
        Some(WorkflowStreamEvent::RecoveryFailed { .. })
    ));
    assert!(
        recovery_terminal_event(id(1), Some(id(2)), WorkflowStatus::Cancelled, None).is_none()
    );
}

// ---------- evaluation ----------

fn group(n: u128, round: i64) -> EvaluationGroup {
    EvaluationGroup {
        id: id(n),
        workflow_id: id(1),
        source_task_id: None,
        strategy: text("majority"),
        quorum: 2,
        snapshot_hash: Some(text("h1")),
        round,
    }
}

#[test]
fn evaluation_steps_follow_role_and_status() {
    assert_eq!(
        evaluation_step(
            RoleKind::Evaluator,
            NodeStatus::Completed,
            true,
            "eval_c2_1"
        ),
        EvaluationStep::EvaluatorCompleted(GroupRef::OfCandidate {
            candidate_id: text("candidate_2"),
            round: 0
        })
    );
    assert_eq!(
        evaluator_group("evaluator_r1_2"),
        GroupRef::OfRound { round: 1 }
    );
    assert_eq!(
        evaluation_step(
            RoleKind::ConsensusGate,
            NodeStatus::Failed,
            true,
            "consensus_c1"
        ),
        EvaluationStep::GateClosed {
            candidate_id: Some(text("candidate_1")),
            completed: false
        }
    );
    assert_eq!(
        evaluation_step(RoleKind::Other, NodeStatus::Completed, true, "x"),
        EvaluationStep::Nothing
    );
    let groups = [group(1, 0), group(2, 1), group(3, 1)];
    assert_eq!(evaluator_group_for_round(&groups, 1), Some(1));
    assert_eq!(current_evaluation_group(&groups), Some(2));
    assert_eq!(current_evaluation_group(&[]), None);
}

#[test]
fn linked_group_is_never_replaced() {
    let groups = [group(1, 0), group(2, 1), group(3, 1)];
    assert_eq!(gate_group(&groups, Some(id(1))), Some(0));
    assert_eq!(gate_group(&groups, Some(id(9))), None);
    assert_eq!(gate_group(&groups, None), Some(2));
    assert_eq!(voting_group(&groups, Some(id(3)), 0), Some(2));
    assert_eq!(voting_group(&groups, Some(id(9)), 0), None);
    assert_eq!(voting_group(&groups, None, 1), Some(1));
    assert_eq!(voting_group(&groups, None, 7), None);
}

fn counts(outcome: ConsensusOutcome) -> ConsensusResult {
    ConsensusResult {
        outcome,
        approved_count: 1,
        changes_requested_count: 2,
        valid_count: 3,
        total_count: 4,
        issues: Vec::new(),
    }
}

#[test]
fn changed_code_voids_the_consensus() {
    let actions = gate_closing_actions(
        &group(1, 0),
        &text("consensus_gate"),
        None,
        true,
        &Some(text("h2")),
        counts(ConsensusOutcome::Approved),
    );
    assert!(actions.contains(&EvaluationAction::FailSnapshotChanged));
    assert!(actions.contains(&EvaluationAction::CompleteGroup {
        group_id: id(1),
        failed: true,
        consensus: counts(ConsensusOutcome::Unavailable)
    }));
    let actions = gate_closing_actions(
        &group(1, 0),
        &text("consensus_gate"),
        None,
        true,
        &Some(text("h1")),
        counts(ConsensusOutcome::ChangesRequested),
    );
    assert_eq!(actions.last(), Some(&EvaluationAction::ExtendFixRound));
}

#[test]
fn votes_winner_and_failures_are_recorded() {
    let vote = |agent: Option<&str>, review| {
        Some(DependencyResult {
            agent_id: agent.map(text),
            review,
        })
    };
    let (votes, total) = gate_votes(vec![
        vote(Some("a"), Some(1)),
        vote(None, Some(2)),
        vote(Some("c"), None),
        None,
    ]);
    assert_eq!(votes, vec![(text("a"), 1), (text(""), 2)]);
    assert_eq!(total, 3);
    assert_eq!(
        selected_candidate(&Some(text("winner candidate_3 "))),
        "candidate_3"
    );
    assert_eq!(selected_candidate(&None), "candidate_1");
    assert!(selection_actions(id(1), id(2), None, text("r")).is_empty());
    let winner = CandidateRecord {
        candidate_id: text("candidate_1"),
        agent_id: text("codex"),
        session_lane: text("l"),
        task_id: Some(id(9)),
        workspace_id: None,
        snapshot_hash: None,
        evaluation_group_id: None,
    };
    let actions = selection_actions(id(1), id(2), Some(&winner), text("r"));
    assert_eq!(
        actions[1],
        EvaluationAction::SetCompetitionOver {
            group_id: id(2),
            failed: false
        }
    );
    let failure = evaluator_failure_actions(id(3), Some(text("boom")));
    assert!(matches!(
        failure[0],
        EvaluationAction::UpdateMember {
            state: MemberState::Failed,
            ..
        }
    ));
    assert_eq!(
        code_completion_actions(id(1), Some(text("h")), None)[0],
        EvaluationAction::SetGroupSnapshot {
            group_id: id(1),
            hash: text("h")
        }
    );
}

#[test]
fn latest_code_is_the_last_completed() {
    let progress = |kind, index, status| NodeProgress {
        kind,
        node_id: text("n"),
        index: Some(index),
        status: Some(status),
    };
    let nodes = [
        progress(RoleKind::Fixer, 5, WorkflowStepStatus::Completed),
        progress(RoleKind::Implementer, 1, WorkflowStepStatus::Completed),
        progress(RoleKind::Fixer, 9, WorkflowStepStatus::Failed),
    ];
    assert_eq!(latest_code_node(&nodes), Some(0));
    assert_eq!(latest_code_node(&nodes[2..]), None);
}

// ---------- fix rounds ----------

#[test]
fn fix_rounds_are_bounded() {
    let graph = |kind, name: &str| GraphNode {
        node_id: text(name),
        kind,
    };
    let nodes = [
        graph(RoleKind::Implementer, "implementation"),
        graph(RoleKind::Evaluator, "evaluator_1"),
    ];
    let fix = next_fix_round(0, 1, &nodes, "consensus_gate", 2).unwrap();
    assert_eq!(fix.round, 1);
    assert_eq!(fix.fixer_id, "fix_r1");
    assert_eq!(fix.gate_id, "consensus_gate_r1");
    assert_eq!(fix.evaluator_ids, vec!["evaluator_r1_1", "evaluator_r1_2"]);
    assert_eq!(fix.nodes.len(), 4);
    assert!(next_fix_round(1, 1, &nodes, "consensus_gate", 2).is_none());
    assert!(next_fix_round(0, 1, &nodes[1..], "consensus_gate", 2).is_none());
    assert_eq!(count_evaluators(&nodes), 1);
    assert!(fix_budget_fault(&nodes, 1).is_none());
    assert!(fix_budget_fault(&nodes, 0).is_some());
}

// ---------- queries ----------

#[test]
fn live_step_row_counts_reviews() {
    let mut review = result("review", WorkflowStepStatus::Completed);
    review.step.role = role(RoleKind::Other, "critic");
    review.review_result = Some(reviewed_as("changes_requested", true));
    let results = [review, result("fix", WorkflowStepStatus::Running)];
    let stamp = |ordinal| RowStamp {
        id: id(5),
        workflow_id: id(1),
        ordinal,
        now: text("now"),
    };
    let r = live_step_row(stamp(1), &results, true, None).unwrap();
    assert_eq!(r.review_round, 1);
    assert_eq!(r.status, WorkflowStepStatus::Cancelled);
    assert_eq!(r.completed_at.as_deref(), Some("now"));
    assert!(live_step_row(stamp(2), &results, false, None).is_none());
}

#[test]
fn workflows_are_told() {
    let info = info_from_row(&workflow(Some(WorkflowStatus::Running), "running")).unwrap();
    assert_eq!(info.goal, "Ship it");
    assert!(info_from_row(&workflow(None, "odd")).is_err());
    let rows = [
        workflow(Some(WorkflowStatus::Interrupted), "interrupted"),
        workflow(Some(WorkflowStatus::Completed), "completed"),
    ];
    assert_eq!(interrupted_workflows(&rows), vec![id(1)]);
    assert!(matches!(
        terminal_record(id(1), WorkflowStatus::Failed, None, None),
        Some(TerminalRecord::Failed(p)) if p.error == "workflow failed"
    ));
    assert!(terminal_record(id(1), WorkflowStatus::Running, None, None).is_none());
}

#[test]
fn failure_history_is_gathered() {
    let mut failed = row(
        "implement",
        WorkflowStepStatus::Failed,
        NodeStatus::Failed,
        "failed",
    );
    failed.error = Some(text("boom"));
    let rows = [done_row("design"), failed];
    assert_eq!(
        failed_node(&rows).and_then(|r| r.node_id.clone()),
        Some(text("implement"))
    );
    let inputs = recovery_inputs(&text("Ship it"), &rows, Some(id(4)), Vec::new()).unwrap();
    assert_eq!(inputs.failed_node_id, "implement");
    assert_eq!(inputs.failed_error, "boom");
    assert_eq!(
        inputs.dependency_summaries,
        vec![(text("design"), text("did it"))]
    );
    assert!(recovery_inputs(&text("g"), &rows[..1], None, Vec::new()).is_none());
}

#[test]
fn rounds_are_told() {
    let info = evaluation_round_info(
        id(2),
        1,
        Some(ConsensusCount {
            valid_count: 2,
            total_count: 3,
            outcome: ConsensusOutcome::Approved,
        }),
        None,
        text("completed"),
    );
    assert_eq!((info.round, info.valid_count, info.total_count), (1, 2, 3));
    assert_eq!(info.result, Some(ConsensusOutcome::Approved));
    let none = evaluation_round_info(id(2), 0, None, None, text("running"));
    assert_eq!((none.valid_count, none.result), (0, None));
}

#[test]
fn fix_round_is_decided() {
    let nodes = || {
        vec![
            GraphNode {
                node_id: text("implementation"),
                kind: RoleKind::Implementer,
            },
            GraphNode {
                node_id: text("evaluator_1"),
                kind: RoleKind::Evaluator,
            },
        ]
    };
    let decide = |rounds, max_total, valid, policy| {
        let request = FixRequest {
            group: group(1, 0),
            gate_node_id: text("consensus_gate"),
            max_review_rounds: rounds,
            evaluators: 2,
            max_total,
            implementer_agent: Some(text("codex")),
            now: text("now"),
        };
        fix_round_decision(request, &nodes(), valid, policy, id(7), &vec![id(8), id(9)])
    };
    assert!(matches!(
        decide(0, 9, Err(text("x")), Ok(())),
        FixDecision::Unchanged
    ));
    let reason = |decision| match decision {
        FixDecision::Fail(reason) => reason,
        _ => panic!("not refused"),
    };
    assert_eq!(
        reason(decide(1, 9, Err(text("cycle")), Ok(()))),
        "consensus fix round rejected: cycle"
    );
    assert_eq!(
        reason(decide(1, 0, Ok(()), Err(text("too many nodes")))),
        "EvaluationBudgetExceeded: too many nodes"
    );
    assert_eq!(
        reason(decide(1, 2, Ok(()), Ok(()))),
        "EvaluationBudgetExceeded: the fix loop would need 3 evaluator calls but the limit is 2"
    );
    match decide(1, 3, Ok(()), Ok(())) {
        FixDecision::Extend(e) => {
            let names: Vec<&str> = e.graph.iter().map(|n| n.node_id.as_str()).collect();
            assert_eq!(
                names,
                vec![
                    "implementation",
                    "evaluator_1",
                    "fix_r1",
                    "evaluator_r1_1",
                    "evaluator_r1_2",
                    "consensus_gate_r1"
                ]
            );
            assert_eq!(e.rows.group.round, 1);
            assert_eq!(e.rows.group.strategy, "majority");
            assert_eq!(e.rows.group.quorum, 2);
            assert_eq!(e.rows.members[1].node_id, "evaluator_r1_2");
            assert_eq!(e.rows.members[1].id, id(9));
            assert_eq!(e.fixer_agent.as_deref(), Some("codex"));
        }
        _ => panic!("not extended"),
    }
}

#[test]
fn competition_rows_are_linked() {
    let plans = competition_layout(
        id(1),
        &vec![text("codex"), text("opencode")],
        &vec![vec![text("a"), text("b")], vec![text("c"), text("d")]],
    );
    let seed = CompetitionSeed {
        workflow_id: id(2),
        group_id: id(1),
        source_workspace: None,
        strategy: ConsensusStrategy::Majority,
        quorum: 2,
        now: text("now"),
    };
    let ids = fresh_candidate_ids(&plans);
    let random = |id: &Uuid| (id.bits >> 76) & 0xf == 4 && (id.bits >> 62) & 0x3 == 2;
    for fresh in &ids {
        assert!(random(&fresh.row) && random(&fresh.group));
        assert_eq!(fresh.members.len(), 2);
        assert!(fresh.members.iter().all(random));
    }
    assert_ne!(ids[0].row, ids[1].row);
    let rows = competition_rows(&seed, &plans, &ids);
    assert_eq!(rows.group.candidate_count, 2);
    assert_eq!(rows.group.status, "running");
    assert_eq!(rows.group.base_revision, "HEAD");
    let second = &rows.candidates[1];
    assert_eq!(second.candidate.candidate_id, "candidate_2");
    assert_eq!(
        second.candidate.evaluation_group_id,
        Some(second.evaluation.group.id)
    );
    assert_eq!(second.evaluation.members[0].node_id, "eval_c2_1");
    assert_eq!(second.evaluation.members[0].agent_id, "c");
    assert_eq!(
        second.evaluation.members[0].group_id,
        second.evaluation.group.id
    );
    assert_ne!(ids[0].group, ids[1].group);
}

#[test]
fn facts_are_filed_under_their_actors() {
    let started = workflow_key(id(1), WorkflowMoment::Started);
    assert_eq!(started.event_type, "WorkflowStarted");
    assert_eq!(started.actor_id.as_deref(), Some("WorkflowService"));
    assert_eq!(started.entity_id, id(1).to_text());
    let resumed = workflow_key(id(1), WorkflowMoment::Resumed);
    assert_eq!((resumed.actor_type.as_str(), resumed.actor_id), ("user", None));
    let cancelled = workflow_key(id(1), WorkflowMoment::CancelRequested);
    assert_eq!(cancelled.event_type, "WorkflowCancelled");
    let recovery = recovery_key(id(3), "implement");
    assert_eq!(recovery.entity_type, "recovery");
    assert_eq!(recovery.entity_id, "implement");
    let end = terminal_record(id(1), WorkflowStatus::Failed, None, None).unwrap();
    assert_eq!(terminal_key(id(1), &end).event_type, "WorkflowFailed");
    let actions = gate_closing_actions(
        &group(4, 0),
        &text("consensus_gate"),
        None,
        true,
        &None,
        counts(ConsensusOutcome::Approved),
    );
    match &actions[1] {
        EvaluationAction::Record(record) => {
            let key = record_key(record);
            assert_eq!(key.event_type, "ConsensusComputed");
            assert_eq!(key.entity_type, "evaluation_group");
            assert_eq!(key.entity_id, id(4).to_text());
            assert_eq!(key.actor_id.as_deref(), Some("ConsensusGate"));
        }
        other => panic!("unexpected: {other:?}"),
    }
}

#[test]
fn recorded_consensus_has_its_inputs() {
    let member = |agent: &str, result| MemberResult {
        agent_id: text(agent),
        result,
    };
    let mut unknown = group(1, 0);
    unknown.strategy = text("odd");
    let inputs = consensus_inputs(
        &unknown,
        vec![
            member("a", Some(1)),
            member("b", None),
            member("c", Some(3)),
        ],
    );
    assert_eq!(inputs.results, vec![(text("a"), 1), (text("c"), 3)]);
    assert_eq!(inputs.strategy, ConsensusStrategy::Majority);
    assert_eq!((inputs.quorum, inputs.total), (2, 3));
    assert_eq!(restored_evaluation(&unknown, 0).required_evaluators, 1);
    assert_eq!(restored_evaluation(&unknown, 3).required_evaluators, 3);
    unknown.quorum = -1;
    assert_eq!(restored_evaluation(&unknown, 3).quorum, usize::MAX);
    assert_eq!(
        consensus_inputs(&unknown, vec![member("a", Some(1))]).quorum,
        usize::MAX
    );
}

#[test]
fn competition_is_restored() {
    let candidate = CandidateRecord {
        candidate_id: text("candidate_1"),
        agent_id: text("codex"),
        session_lane: text("candidate:candidate_1"),
        task_id: None,
        workspace_id: None,
        snapshot_hash: None,
        evaluation_group_id: None,
    };
    let members = vec![MemberRecord {
        id: id(5),
        group_id: id(6),
        node_id: text("eval_c1_1"),
        agent_id: text(""),
    }];
    let assignments = restored_assignments(id(1), &candidate, &members);
    assert_eq!(assignments[0].agent_id.as_deref(), Some("codex"));
    assert_eq!(assignments[1].agent_id, None);
    assert_eq!(
        assignments[1].lane,
        evaluation_lane(id(1), "candidate_1", "eval_c1_1")
    );
}
