//! Evaluation and competition bookkeeping: what is recorded as the nodes of a
//! workflow move.

use vstd::prelude::*;
use vstd::string::*;

use crate::ids::Uuid;
use crate::json::{JsonNumber, JsonValue};
use crate::provenance::payloads::{CandidateCompletedPayload, ConsensusComputedPayload};
use crate::provenance::payloads::EvaluationCompletedPayload;
use crate::text::{after_prefix, begins_with, chars_of, clone_opt, has_prefix, opt_text};
use crate::text::{leading_space, same_text, stands_at, trailing_space, trim, trimmed};
use crate::text::{trimmed_start, white_space};
use crate::workflow::nodes::{candidate_of_evaluator, candidate_of_gate, evaluated_candidate};
use crate::workflow::nodes::{evaluation_lane, evaluation_lane_name, evaluator_round};
use crate::workflow::nodes::{candidate_evaluator_name, candidate_name, evaluator_name};
use crate::workflow::nodes::{evaluator_names_candidate, evaluator_round_is_named};
use crate::workflow::nodes::{gate_candidate, round_evaluator_name, round_of};
use crate::workflow::start::{named_strategy, strategy_of, ConsensusStrategy};
use crate::workflow::types::{ConsensusOutcome, NodeStatus, RoleKind, WorkflowStepStatus};

verus! {

/// Which evaluation group an evaluator node belongs to.
#[derive(Debug, PartialEq, Eq)]
pub enum GroupRef {
    /// The group of a candidate; where it has none, the first group of the
    /// round.
    OfCandidate { candidate_id: String, round: i64 },
    /// The first group of a round.
    OfRound { round: i64 },
}

/// What is to be recorded when a node moves.
#[derive(Debug, PartialEq, Eq)]
pub enum EvaluationStep {
    /// Nothing.
    Nothing,
    /// A candidate completed.
    CandidateCompleted,
    /// A candidate failed.
    CandidateFailed,
    /// The code under evaluation was written or fixed.
    CodeCompleted,
    /// An evaluator was dispatched.
    EvaluatorRunning(GroupRef),
    /// An evaluator completed.
    EvaluatorCompleted(GroupRef),
    /// An evaluator failed.
    EvaluatorFailed(GroupRef),
    /// A consensus gate is over, of this candidate where it is a candidate's.
    GateClosed { candidate_id: Option<String>, completed: bool },
    /// The selection gate completed.
    WinnerChosen,
    /// The selection gate did not complete.
    SelectionFailed,
}

/// Whether a reference is the one of an evaluator node: by the candidate that
/// its name gives, else by its round.
pub open spec fn is_group_of(r: GroupRef, node: Seq<char>) -> bool {
    if begins_with(node, "eval_c"@) {
        r matches GroupRef::OfCandidate { candidate_id, round } && candidate_id@
            == evaluated_candidate(node) && round == round_of(node)
    } else {
        r matches GroupRef::OfRound { round } && round == round_of(node)
    }
}

/// The group of an evaluator node.
pub fn evaluator_group(node_id: &str) -> (r: GroupRef)
    ensures
        is_group_of(r, node_id@),
{
    let round = evaluator_round(node_id);
    if has_prefix(chars_of(node_id).as_slice(), "eval_c") {
        GroupRef::OfCandidate { candidate_id: candidate_of_evaluator(node_id), round }
    } else {
        GroupRef::OfRound { round }
    }
}

/// Whether a step is the one to record for a node: by its role, its status
/// and, for a gate, whether the status is final.
pub open spec fn is_step_of(
    step: EvaluationStep,
    kind: RoleKind,
    status: NodeStatus,
    terminal: bool,
    node: Seq<char>,
) -> bool {
    match kind {
        RoleKind::Candidate => match status {
            NodeStatus::Completed => step is CandidateCompleted,
            NodeStatus::Failed => step is CandidateFailed,
            _ => step is Nothing,
        },
        RoleKind::Implementer | RoleKind::Fixer => if status == NodeStatus::Completed {
            step is CodeCompleted
        } else {
            step is Nothing
        },
        RoleKind::Evaluator => match status {
            NodeStatus::Ready | NodeStatus::Running => step matches EvaluationStep::EvaluatorRunning(
                g,
            ) && is_group_of(g, node),
            NodeStatus::Completed => step matches EvaluationStep::EvaluatorCompleted(g)
                && is_group_of(g, node),
            NodeStatus::Failed => step matches EvaluationStep::EvaluatorFailed(g) && is_group_of(
                g,
                node,
            ),
            _ => step is Nothing,
        },
        RoleKind::ConsensusGate => if terminal {
            step matches EvaluationStep::GateClosed { candidate_id, completed } && completed == (
            status == NodeStatus::Completed) && opt_text(candidate_id) == (if begins_with(
                node,
                "consensus_c"@,
            ) {
                Some(gate_candidate(node))
            } else {
                None
            })
        } else {
            step is Nothing
        },
        RoleKind::SelectionGate => if terminal {
            if status == NodeStatus::Completed {
                step is WinnerChosen
            } else {
                step is SelectionFailed
            }
        } else {
            step is Nothing
        },
        RoleKind::Other => step is Nothing,
    }
}

/// What is to be recorded when a node of a role moves to a status.
pub fn evaluation_step(kind: RoleKind, status: NodeStatus, terminal: bool, node_id: &str) -> (r:
    EvaluationStep)
    ensures
        is_step_of(r, kind, status, terminal, node_id@),
{
    match kind {
        RoleKind::Candidate => match status {
            NodeStatus::Completed => EvaluationStep::CandidateCompleted,
            NodeStatus::Failed => EvaluationStep::CandidateFailed,
            _ => EvaluationStep::Nothing,
        },
        RoleKind::Implementer | RoleKind::Fixer => if status == NodeStatus::Completed {
            EvaluationStep::CodeCompleted
        } else {
            EvaluationStep::Nothing
        },
        RoleKind::Evaluator => match status {
            NodeStatus::Ready | NodeStatus::Running => EvaluationStep::EvaluatorRunning(
                evaluator_group(node_id),
            ),
            NodeStatus::Completed => EvaluationStep::EvaluatorCompleted(evaluator_group(node_id)),
            NodeStatus::Failed => EvaluationStep::EvaluatorFailed(evaluator_group(node_id)),
            _ => EvaluationStep::Nothing,
        },
        RoleKind::ConsensusGate => if terminal {
            let candidate_id = if has_prefix(chars_of(node_id).as_slice(), "consensus_c") {
                Some(candidate_of_gate(node_id))
            } else {
                None
            };
            EvaluationStep::GateClosed { candidate_id, completed: status == NodeStatus::Completed }
        } else {
            EvaluationStep::Nothing
        },
        RoleKind::SelectionGate => if terminal {
            if status == NodeStatus::Completed {
                EvaluationStep::WinnerChosen
            } else {
                EvaluationStep::SelectionFailed
            }
        } else {
            EvaluationStep::Nothing
        },
        RoleKind::Other => EvaluationStep::Nothing,
    }
}

/// An evaluation group, as far as the decisions read it.
#[derive(Debug, PartialEq, Eq)]
pub struct EvaluationGroup {
    pub id: Uuid,
    pub workflow_id: Uuid,
    pub source_task_id: Option<Uuid>,
    pub strategy: String,
    pub quorum: i64,
    pub snapshot_hash: Option<String>,
    pub round: i64,
}

/// The first group whose round is that of an evaluator node.
pub fn evaluator_group_for_round(groups: &[EvaluationGroup], round: i64) -> (r: Option<usize>)
    ensures
        is_round_group(groups@, round, r),
{
    let mut i: usize = 0;
    while i < groups.len()
        invariant
            i <= groups@.len(),
            forall|k: int| 0 <= k < i ==> (#[trigger] groups@[k]).round != round,
        decreases groups.len() - i,
    {
        if groups[i].round == round {
            return Some(i);
        }
        i += 1;
    }
    None
}

/// The current evaluation group of a workflow: of the groups of the highest
/// round the one listed last.
pub fn current_evaluation_group(groups: &[EvaluationGroup]) -> (r: Option<usize>)
    ensures
        is_current_group(groups@, r),
{
    if groups.len() == 0 {
        return None;
    }
    let mut best: usize = 0;
    let mut i: usize = 1;
    while i < groups.len()
        invariant
            best < i <= groups@.len(),
            forall|k: int|
                0 <= k < i ==> (#[trigger] groups@[k]).round <= groups@[best as int].round,
            forall|k: int|
                best < k < i ==> (#[trigger] groups@[k]).round < groups@[best as int].round,
        decreases groups.len() - i,
    {
        if groups[i].round >= groups[best].round {
            best = i;
        }
        i += 1;
    }
    Some(best)
}

/// Whether a group is the current one: of those of the highest round the last.
pub open spec fn is_current_group(groups: Seq<EvaluationGroup>, found: Option<usize>) -> bool {
    match found {
        Some(i) => {
            &&& i < groups.len()
            &&& forall|k: int|
                0 <= k < groups.len() ==> (#[trigger] groups[k]).round <= groups[i as int].round
            &&& forall|k: int|
                i < k < groups.len() ==> (#[trigger] groups[k]).round < groups[i as int].round
        },
        None => groups.len() == 0,
    }
}

/// Whether a group is the first one of a round.
pub open spec fn is_round_group(
    groups: Seq<EvaluationGroup>,
    round: i64,
    found: Option<usize>,
) -> bool {
    match found {
        Some(i) => i < groups.len() && groups[i as int].round == round && forall|k: int|
            0 <= k < i ==> (#[trigger] groups[k]).round != round,
        None => forall|k: int| 0 <= k < groups.len() ==> (#[trigger] groups[k]).round != round,
    }
}

/// Whether a group is the first one with an id.
pub open spec fn is_group_with_id(
    groups: Seq<EvaluationGroup>,
    id: Uuid,
    found: Option<usize>,
) -> bool {
    match found {
        Some(i) => i < groups.len() && groups[i as int].id == id && forall|k: int|
            0 <= k < i ==> (#[trigger] groups[k]).id != id,
        None => forall|k: int| 0 <= k < groups.len() ==> (#[trigger] groups[k]).id != id,
    }
}

/// The group with an id.
pub fn group_with_id(groups: &[EvaluationGroup], id: Uuid) -> (r: Option<usize>)
    ensures
        is_group_with_id(groups@, id, r),
{
    let mut i: usize = 0;
    while i < groups.len()
        invariant
            i <= groups@.len(),
            forall|k: int| 0 <= k < i ==> (#[trigger] groups@[k]).id != id,
        decreases groups.len() - i,
    {
        if groups[i].id == id {
            return Some(i);
        }
        i += 1;
    }
    None
}

/// The group that a gate closes: the one that its candidate is linked to, and
/// without a link the current one. A link to a group that is not there gives
/// none.
pub fn gate_group(groups: &[EvaluationGroup], linked: Option<Uuid>) -> (r: Option<usize>)
    ensures
        match linked {
            Some(id) => is_group_with_id(groups@, id, r),
            None => is_current_group(groups@, r),
        },
{
    match linked {
        Some(id) => group_with_id(groups, id),
        None => current_evaluation_group(groups),
    }
}

/// The group that an evaluator votes in: the one that its candidate is linked
/// to, and without a link the first one of its round. A link to a group that
/// is not there gives none.
pub fn voting_group(groups: &[EvaluationGroup], linked: Option<Uuid>, round: i64) -> (r: Option<
    usize,
>)
    ensures
        match linked {
            Some(id) => is_group_with_id(groups@, id, r),
            None => is_round_group(groups@, round, r),
        },
{
    match linked {
        Some(id) => group_with_id(groups, id),
        None => evaluator_group_for_round(groups, round),
    }
}

/// A candidate of a competition, as far as the decisions read it.
#[derive(Debug, PartialEq, Eq)]
pub struct CandidateRecord {
    pub candidate_id: String,
    pub agent_id: String,
    pub session_lane: String,
    pub task_id: Option<Uuid>,
    pub workspace_id: Option<Uuid>,
    pub snapshot_hash: Option<String>,
    pub evaluation_group_id: Option<Uuid>,
}

/// A member of an evaluation group, as far as the decisions read it.
#[derive(Debug, PartialEq, Eq)]
pub struct MemberRecord {
    pub id: Uuid,
    pub group_id: Uuid,
    pub node_id: String,
    pub agent_id: String,
}

/// The state of an evaluation member.
#[derive(Clone, Copy, Debug, PartialEq, Eq, Structural)]
pub enum MemberState {
    Running,
    Completed,
    Failed,
}

/// What is written into the provenance ledger.
#[derive(Debug, PartialEq, Eq)]
pub enum ProvenanceRecord {
    CandidateCompleted { workflow_id: Uuid, payload: CandidateCompletedPayload },
    EvaluationCompleted { workflow_id: Uuid, payload: EvaluationCompletedPayload },
    ConsensusComputed { payload: ConsensusComputedPayload },
    /// The winner of a competition; no ranking is recorded with it.
    WinnerSelected { winner: WinnerRecord },
}

/// The winner of a competition and why it won.
#[derive(Debug, PartialEq, Eq)]
pub struct WinnerRecord {
    pub group_id: Uuid,
    pub workflow_id: Uuid,
    pub winner_candidate_id: String,
    pub winner_agent_id: String,
    pub winner_task_id: Option<Uuid>,
    pub winner_workspace_id: Option<Uuid>,
    pub winner_snapshot_hash: Option<String>,
    pub selection_reason: String,
}

/// One thing to do to the stored evaluation state or the run.
#[derive(Debug, PartialEq, Eq)]
pub enum EvaluationAction {
    /// Bind a candidate to its task and workspace.
    SetCandidateTask {
        group_id: Uuid,
        candidate_id: String,
        task_id: Uuid,
        workspace_id: Option<Uuid>,
    },
    /// Mark a candidate completed.
    CompleteCandidate {
        group_id: Uuid,
        candidate_id: String,
        snapshot_hash: Option<String>,
        summary: Option<String>,
    },
    /// Mark a candidate failed.
    FailCandidate { group_id: Uuid, candidate_id: String },
    /// Record the snapshot that the evaluators of a group see.
    SetGroupSnapshot { group_id: Uuid, hash: String },
    /// Record the task whose work a group evaluates.
    SetGroupSourceTask { group_id: Uuid, task_id: Uuid },
    /// Record the agent and task of a member.
    SetMemberAgent { member_id: Uuid, agent_id: String, task_id: Option<Uuid> },
    /// Move a member to a state.
    UpdateMember {
        member_id: Uuid,
        state: MemberState,
        result_json: Option<String>,
        error: Option<String>,
    },
    /// Tell that the workspace of a candidate changed during its evaluation.
    AnnounceCandidateChanged { candidate_id: String },
    /// Tell that the implementation changed during its evaluation.
    AnnounceEvaluationChanged { node_id: String },
    /// Fail the workflow: the implementation changed during its evaluation.
    FailSnapshotChanged,
    /// Close a group with the consensus that counts.
    CompleteGroup { group_id: Uuid, failed: bool, consensus: ConsensusResult },
    /// Record the winner of a competition.
    SetWinner {
        group_id: Uuid,
        candidate_id: String,
        task_id: Option<Uuid>,
        workspace_id: Option<Uuid>,
        snapshot_hash: Option<String>,
    },
    /// Close a competition.
    SetCompetitionOver { group_id: Uuid, failed: bool },
    /// Write into the provenance ledger.
    Record(ProvenanceRecord),
    /// Extend the graph by a fix round, where the limits allow one.
    ExtendFixRound,
}

/// The message of a workflow that failed since its implementation changed
/// during its evaluation.
pub fn snapshot_changed_message() -> (r: String)
    ensures
        r@
            == "EvaluationSnapshotChanged: the implementation workspace changed during evaluation; the consensus is void"@,
{
    "EvaluationSnapshotChanged: the implementation workspace changed during evaluation; the consensus is void".to_owned()
}

/// One action when there is a value for it.
pub open spec fn snapshot_action(group_id: Uuid, hash: Option<String>) -> Seq<EvaluationAction> {
    match hash {
        Some(hash) => seq![EvaluationAction::SetGroupSnapshot { group_id, hash }],
        None => Seq::empty(),
    }
}

/// One action when there is a task for it.
pub open spec fn source_task_action(group_id: Uuid, task_id: Option<Uuid>) -> Seq<EvaluationAction> {
    match task_id {
        Some(task_id) => seq![EvaluationAction::SetGroupSourceTask { group_id, task_id }],
        None => Seq::empty(),
    }
}

/// What is done when a candidate completes: bind its task, mark it
/// completed, record it, and hand its snapshot and task to the group that
/// evaluates it.
pub open spec fn candidate_completion(
    workflow_id: Uuid,
    group_id: Uuid,
    node_id: String,
    candidate: CandidateRecord,
    task_id: Option<Uuid>,
    workspace_id: Option<Uuid>,
    hash: Option<String>,
    summary: Option<String>,
) -> Seq<EvaluationAction> {
    (match task_id {
        Some(task_id) => seq![
            EvaluationAction::SetCandidateTask {
                group_id,
                candidate_id: node_id,
                task_id,
                workspace_id,
            },
        ],
        None => Seq::empty(),
    }) + seq![
        EvaluationAction::CompleteCandidate {
            group_id,
            candidate_id: node_id,
            snapshot_hash: hash,
            summary,
        },
        EvaluationAction::Record(
            ProvenanceRecord::CandidateCompleted {
                workflow_id,
                payload: CandidateCompletedPayload {
                    group_id,
                    candidate_id: node_id,
                    agent_id: candidate.agent_id,
                    task_id,
                    workspace_id,
                    snapshot_hash: hash,
                },
            },
        ),
    ] + (match candidate.evaluation_group_id {
        Some(id) => snapshot_action(id, hash) + source_task_action(id, task_id),
        None => Seq::empty(),
    })
}

/// What is done when a candidate completes.
pub fn candidate_completion_actions(
    workflow_id: Uuid,
    group_id: Uuid,
    node_id: &String,
    candidate: &CandidateRecord,
    task_id: Option<Uuid>,
    workspace_id: Option<Uuid>,
    hash: Option<String>,
    summary: Option<String>,
) -> (r: Vec<EvaluationAction>)
    ensures
        r@ == candidate_completion(
            workflow_id,
            group_id,
            *node_id,
            *candidate,
            task_id,
            workspace_id,
            hash,
            summary,
        ),
{
    let mut actions: Vec<EvaluationAction> = Vec::new();
    if let Some(task_id) = task_id {
        actions.push(
            EvaluationAction::SetCandidateTask {
                group_id,
                candidate_id: node_id.clone(),
                task_id,
                workspace_id,
            },
        );
    }
    actions.push(
        EvaluationAction::CompleteCandidate {
            group_id,
            candidate_id: node_id.clone(),
            snapshot_hash: clone_opt(&hash),
            summary,
        },
    );
    actions.push(
        EvaluationAction::Record(
            ProvenanceRecord::CandidateCompleted {
                workflow_id,
                payload: CandidateCompletedPayload {
                    group_id,
                    candidate_id: node_id.clone(),
                    agent_id: candidate.agent_id.clone(),
                    task_id,
                    workspace_id,
                    snapshot_hash: clone_opt(&hash),
                },
            },
        ),
    );
    if let Some(id) = candidate.evaluation_group_id {
        if let Some(h) = &hash {
            actions.push(EvaluationAction::SetGroupSnapshot { group_id: id, hash: h.clone() });
        }
        if let Some(task_id) = task_id {
            actions.push(EvaluationAction::SetGroupSourceTask { group_id: id, task_id });
        }
    }
    assert(actions@ =~= candidate_completion(
        workflow_id,
        group_id,
        *node_id,
        *candidate,
        task_id,
        workspace_id,
        hash,
        summary,
    ));
    actions
}

/// What is done when the code under evaluation was written or fixed: the
/// current group sees the new snapshot and the new task.
pub fn code_completion_actions(group_id: Uuid, hash: Option<String>, task_id: Option<Uuid>) -> (r:
    Vec<EvaluationAction>)
    ensures
        r@ == snapshot_action(group_id, hash) + source_task_action(group_id, task_id),
{
    let mut actions: Vec<EvaluationAction> = Vec::new();
    if let Some(hash) = hash {
        actions.push(EvaluationAction::SetGroupSnapshot { group_id, hash });
    }
    if let Some(task_id) = task_id {
        actions.push(EvaluationAction::SetGroupSourceTask { group_id, task_id });
    }
    assert(actions@ =~= snapshot_action(group_id, hash) + source_task_action(group_id, task_id));
    actions
}

/// What is done when an evaluator is dispatched.
pub fn evaluator_running_actions(member_id: Uuid, agent: Option<String>, task_id: Option<Uuid>) -> (r:
    Vec<EvaluationAction>)
    ensures
        r@.len() == 2,
        r@[0] matches EvaluationAction::SetMemberAgent { member_id: m, agent_id, task_id: t } && m
            == member_id && t == task_id && agent_id@ == (match agent {
            Some(a) => a@,
            None => Seq::empty(),
        }),
        r@[1] == (EvaluationAction::UpdateMember {
            member_id,
            state: MemberState::Running,
            result_json: None,
            error: None,
        }),
{
    let agent_id = match agent {
        Some(agent) => agent,
        None => String::new(),
    };
    vec![
        EvaluationAction::SetMemberAgent { member_id, agent_id, task_id },
        EvaluationAction::UpdateMember {
            member_id,
            state: MemberState::Running,
            result_json: None,
            error: None,
        },
    ]
}

/// The review of an evaluator, as far as it is recorded.
#[derive(Debug, PartialEq, Eq)]
pub struct ReviewRecord {
    /// The stable text of the verdict.
    pub verdict: String,
    pub confidence: Option<JsonNumber>,
    pub issue_count: usize,
}

/// What is done when an evaluator completed: its result is stored, and its
/// review, where it made one, recorded.
pub open spec fn evaluator_completion(
    workflow_id: Uuid,
    member: MemberRecord,
    result_json: Option<String>,
    review: Option<ReviewRecord>,
) -> Seq<EvaluationAction> {
    seq![
        EvaluationAction::UpdateMember {
            member_id: member.id,
            state: MemberState::Completed,
            result_json,
            error: None,
        },
    ] + (match review {
        Some(review) => seq![
            EvaluationAction::Record(
                ProvenanceRecord::EvaluationCompleted {
                    workflow_id,
                    payload: EvaluationCompletedPayload {
                        member_id: member.id,
                        group_id: member.group_id,
                        node_id: member.node_id,
                        agent_id: member.agent_id,
                        verdict: review.verdict,
                        confidence: review.confidence,
                        issue_count: review.issue_count,
                    },
                },
            ),
        ],
        None => Seq::empty(),
    })
}

/// What is done when an evaluator completed.
pub fn evaluator_completion_actions(
    workflow_id: Uuid,
    member: &MemberRecord,
    result_json: Option<String>,
    review: Option<ReviewRecord>,
) -> (r: Vec<EvaluationAction>)
    ensures
        r@ == evaluator_completion(workflow_id, *member, result_json, review),
{
    let mut actions: Vec<EvaluationAction> = Vec::new();
    actions.push(
        EvaluationAction::UpdateMember {
            member_id: member.id,
            state: MemberState::Completed,
            result_json,
            error: None,
        },
    );
    if let Some(review) = review {
        actions.push(
            EvaluationAction::Record(
                ProvenanceRecord::EvaluationCompleted {
                    workflow_id,
                    payload: EvaluationCompletedPayload {
                        member_id: member.id,
                        group_id: member.group_id,
                        node_id: member.node_id.clone(),
                        agent_id: member.agent_id.clone(),
                        verdict: review.verdict,
                        confidence: review.confidence,
                        issue_count: review.issue_count,
                    },
                },
            ),
        );
    }
    assert(actions@ =~= evaluator_completion(workflow_id, *member, result_json, review));
    actions
}

/// What is done when an evaluator failed.
pub fn evaluator_failure_actions(member_id: Uuid, error: Option<String>) -> (r: Vec<
    EvaluationAction,
>)
    ensures
        r@ == seq![
            EvaluationAction::UpdateMember {
                member_id,
                state: MemberState::Failed,
                result_json: None,
                error,
            },
        ],
{
    let actions = vec![
        EvaluationAction::UpdateMember {
            member_id,
            state: MemberState::Failed,
            result_json: None,
            error,
        },
    ];
    assert(actions@ =~= seq![
        EvaluationAction::UpdateMember {
            member_id,
            state: MemberState::Failed,
            result_json: None,
            error,
        },
    ]);
    actions
}

/// The result of a node that a gate depends on.
pub struct DependencyResult<R> {
    pub agent_id: Option<String>,
    /// The review of the node, where it made one.
    pub review: Option<R>,
}

/// A vote: the agent, empty where it is not known, and its review.
pub open spec fn vote_of<R>(result: DependencyResult<R>) -> (Seq<char>, R) {
    (
        match result.agent_id {
            Some(agent) => agent@,
            None => Seq::empty(),
        },
        result.review->0,
    )
}

/// The votes of the results that have a review, in order.
pub open spec fn votes_of<R>(results: Seq<Option<DependencyResult<R>>>) -> Seq<(Seq<char>, R)>
    decreases results.len(),
{
    if results.len() == 0 {
        Seq::empty()
    } else {
        let rest = votes_of(results.drop_last());
        match results.last() {
            Some(result) => if result.review is Some {
                rest.push(vote_of(result))
            } else {
                rest
            },
            None => rest,
        }
    }
}

/// How many dependencies have a result.
pub open spec fn result_count<R>(results: Seq<Option<DependencyResult<R>>>) -> nat
    decreases results.len(),
{
    if results.len() == 0 {
        0
    } else {
        result_count(results.drop_last()) + if results.last() is Some {
            1nat
        } else {
            0nat
        }
    }
}

/// The votes that a gate counts, and of how many results: one vote per
/// dependency that has a review.
pub fn gate_votes<R>(results: Vec<Option<DependencyResult<R>>>) -> (r: (Vec<(String, R)>, usize))
    ensures
        r.0@.map_values(|v: (String, R)| (v.0@, v.1)) == votes_of(results@),
        r.1 == result_count(results@),
{
    let mut votes: Vec<(String, R)> = Vec::new();
    let mut total: usize = 0;
    let ghost f = |v: (String, R)| (v.0@, v.1);
    let ghost all = results@;
    let n: usize = results.len();
    let mut rest = results;
    let mut backward: Vec<Option<DependencyResult<R>>> = Vec::new();
    while rest.len() > 0
        invariant
            all == rest@ + backward@.reverse(),
        decreases rest.len(),
    {
        let ghost head = rest@;
        let ghost tail = backward@;
        let last = rest.pop();
        if let Some(last) = last {
            proof {
                assert(head =~= rest@.push(last));
                assert(tail.push(last).reverse() =~= seq![last] + tail.reverse());
                assert(all =~= rest@ + tail.push(last).reverse());
            }
            backward.push(last);
        }
    }
    assert(backward@.reverse() =~= all);
    assert(votes@.map_values(f) =~= Seq::<(Seq<char>, R)>::empty());
    let ghost mut done: int = 0;
    assert(all.take(0) =~= Seq::<Option<DependencyResult<R>>>::empty());
    while backward.len() > 0
        invariant
            f == (|v: (String, R)| (v.0@, v.1)),
            0 <= done <= all.len(),
            backward@.reverse() == all.skip(done),
            votes@.map_values(f) == votes_of(all.take(done)),
            total == result_count(all.take(done)),
            total <= done,
            backward@.len() + done == all.len(),
            all.len() == n,
        decreases backward.len(),
    {
        let ghost before = backward@;
        let next = backward.pop();
        if let Some(next) = next {
            proof {
                assert(before.reverse()[0] == before.last());
                assert(all.skip(done)[0] == all[done]);
                assert(all.take(done + 1).drop_last() =~= all.take(done));
                assert(all.take(done + 1).last() == next);
                assert(backward@.reverse() =~= before.reverse().drop_first());
                assert(all.skip(done).drop_first() =~= all.skip(done + 1));
            }
            if let Some(result) = next {
                let ghost vote = vote_of(result);
                if let Some(review) = result.review {
                    let agent = match result.agent_id {
                        Some(agent) => agent,
                        None => String::new(),
                    };
                    assert(votes@.push((agent, review)).map_values(f) =~= votes@.map_values(f).push(
                        vote,
                    ));
                    votes.push((agent, review));
                }
                total += 1;
            }
            proof {
                done = done + 1;
            }
        }
    }
    assert(all.take(done) =~= all);
    (votes, total)
}

/// Whether the evaluated code changed since it was recorded: both snapshots
/// are known and differ.
pub open spec fn snapshot_changed(recorded: Option<String>, current: Option<String>) -> bool {
    recorded matches Some(r) && current matches Some(c) && r@ != c@
}

/// The consensus that was computed from the votes.
#[derive(Debug, PartialEq, Eq)]
pub struct ConsensusResult {
    pub outcome: ConsensusOutcome,
    pub approved_count: usize,
    pub changes_requested_count: usize,
    pub valid_count: usize,
    pub total_count: usize,
    /// The issues that the evaluators raised.
    pub issues: Vec<JsonValue>,
}

/// The outcome that counts: none when the code changed during the evaluation.
pub open spec fn effective_outcome(
    group: EvaluationGroup,
    current: Option<String>,
    counts: ConsensusResult,
) -> ConsensusOutcome {
    if snapshot_changed(group.snapshot_hash, current) {
        ConsensusOutcome::Unavailable
    } else {
        counts.outcome
    }
}

/// What is done when a consensus gate closes: a change of the code during the
/// evaluation is told (and fails a workflow that evaluates its own
/// implementation), the group is closed and the consensus recorded; a request
/// for changes of the implementation asks for a fix round.
pub open spec fn gate_closing(
    group: EvaluationGroup,
    node_id: String,
    candidate_id: Option<String>,
    completed: bool,
    current: Option<String>,
    counts: ConsensusResult,
) -> Seq<EvaluationAction> {
    let changed = snapshot_changed(group.snapshot_hash, current);
    let outcome = effective_outcome(group, current, counts);
    (if changed {
        match candidate_id {
            Some(candidate_id) => seq![
                EvaluationAction::AnnounceCandidateChanged { candidate_id },
            ],
            None => seq![
                EvaluationAction::AnnounceEvaluationChanged { node_id },
                EvaluationAction::FailSnapshotChanged,
            ],
        }
    } else {
        Seq::empty()
    }) + seq![
        EvaluationAction::CompleteGroup {
            group_id: group.id,
            failed: !completed || changed,
            consensus: ConsensusResult { outcome, ..counts },
        },
        EvaluationAction::Record(
            ProvenanceRecord::ConsensusComputed {
                payload: ConsensusComputedPayload {
                    group_id: group.id,
                    workflow_id: group.workflow_id,
                    candidate_id,
                    round: group.round as usize,
                    outcome,
                    approved_count: counts.approved_count,
                    changes_requested_count: counts.changes_requested_count,
                    total_issues: counts.issues@.len() as usize,
                },
            },
        ),
    ] + (if candidate_id is None && outcome is ChangesRequested {
        seq![EvaluationAction::ExtendFixRound]
    } else {
        Seq::empty()
    })
}

/// What is done when a consensus gate closes.
pub fn gate_closing_actions(
    group: &EvaluationGroup,
    node_id: &String,
    candidate_id: Option<String>,
    completed: bool,
    current: &Option<String>,
    counts: ConsensusResult,
) -> (r: Vec<EvaluationAction>)
    ensures
        r@ == gate_closing(*group, *node_id, candidate_id, completed, *current, counts),
        r@.contains(EvaluationAction::ExtendFixRound) <==> candidate_id is None
            && counts.outcome is ChangesRequested && !(group.snapshot_hash is Some
            && current is Some && group.snapshot_hash->0@ != current->0@),
        r@.contains(EvaluationAction::FailSnapshotChanged) <==> candidate_id is None
            && group.snapshot_hash is Some && current is Some && group.snapshot_hash->0@
            != current->0@,
{
    let mut actions: Vec<EvaluationAction> = Vec::new();
    let changed = match (&group.snapshot_hash, current) {
        (Some(recorded), Some(now)) => !same_text(recorded.as_str(), now.as_str()),
        _ => false,
    };
    assert(changed == snapshot_changed(group.snapshot_hash, *current));
    let outcome = if changed {
        ConsensusOutcome::Unavailable
    } else {
        counts.outcome.clone()
    };
    if changed {
        match &candidate_id {
            Some(candidate_id) => {
                actions.push(
                    EvaluationAction::AnnounceCandidateChanged {
                        candidate_id: candidate_id.clone(),
                    },
                );
            },
            None => {
                actions.push(
                    EvaluationAction::AnnounceEvaluationChanged { node_id: node_id.clone() },
                );
                actions.push(EvaluationAction::FailSnapshotChanged);
            },
        }
    }
    let approved_count = counts.approved_count;
    let changes_requested_count = counts.changes_requested_count;
    let total_issues: usize = counts.issues.len();
    actions.push(
        EvaluationAction::CompleteGroup {
            group_id: group.id,
            failed: !completed || changed,
            consensus: ConsensusResult {
                outcome: outcome.clone(),
                approved_count,
                changes_requested_count,
                valid_count: counts.valid_count,
                total_count: counts.total_count,
                issues: counts.issues,
            },
        },
    );
    let is_candidate = candidate_id.is_some();
    let asks = matches!(outcome, ConsensusOutcome::ChangesRequested);
    actions.push(
        EvaluationAction::Record(
            ProvenanceRecord::ConsensusComputed {
                payload: ConsensusComputedPayload {
                    group_id: group.id,
                    workflow_id: group.workflow_id,
                    candidate_id,
                    round: group.round as usize,
                    outcome,
                    approved_count,
                    changes_requested_count,
                    total_issues,
                },
            },
        ),
    );
    if !is_candidate && asks {
        actions.push(EvaluationAction::ExtendFixRound);
    }
    assert(actions@ =~= gate_closing(*group, *node_id, candidate_id, completed, *current, counts));
    proof {
        fix_round_follows_a_request_for_changes(
            *group,
            *node_id,
            candidate_id,
            completed,
            *current,
            counts,
        );
        changed_code_fails_the_workflow(
            *group,
            *node_id,
            candidate_id,
            completed,
            *current,
            counts,
        );
    }
    actions
}

/// A closing gate asks for a fix round exactly when it is no candidate's gate,
/// the code did not change during the evaluation, and the evaluators requested
/// changes: never for approved code. It then asks once, after all else.
pub proof fn fix_round_follows_a_request_for_changes(
    group: EvaluationGroup,
    node_id: String,
    candidate_id: Option<String>,
    completed: bool,
    current: Option<String>,
    counts: ConsensusResult,
)
    ensures
        ({
            let actions = gate_closing(group, node_id, candidate_id, completed, current, counts);
            let changed = group.snapshot_hash is Some && current is Some
                && group.snapshot_hash->0@ != current->0@;
            &&& actions.contains(EvaluationAction::ExtendFixRound) <==> candidate_id is None
                && !changed && counts.outcome is ChangesRequested
            &&& counts.outcome is Approved ==> !actions.contains(EvaluationAction::ExtendFixRound)
            &&& forall|i: int|
                0 <= i < actions.len() - 1 ==> #[trigger] actions[i]
                    != EvaluationAction::ExtendFixRound
        }),
{
    let actions = gate_closing(group, node_id, candidate_id, completed, current, counts);
    let changed = group.snapshot_hash is Some && current is Some && group.snapshot_hash->0@
        != current->0@;
    assert(changed == snapshot_changed(group.snapshot_hash, current));
    if candidate_id is None && !changed && counts.outcome is ChangesRequested {
        assert(actions[actions.len() - 1] == EvaluationAction::ExtendFixRound);
    }
}

/// Code that changed during its evaluation fails a workflow that evaluates its
/// own implementation, and a candidate's gate announces it instead. Nothing of
/// it is told when the code is the same or one of the snapshots is unknown.
pub proof fn changed_code_fails_the_workflow(
    group: EvaluationGroup,
    node_id: String,
    candidate_id: Option<String>,
    completed: bool,
    current: Option<String>,
    counts: ConsensusResult,
)
    ensures
        ({
            let actions = gate_closing(group, node_id, candidate_id, completed, current, counts);
            let changed = group.snapshot_hash is Some && current is Some
                && group.snapshot_hash->0@ != current->0@;
            &&& actions.contains(EvaluationAction::FailSnapshotChanged) <==> candidate_id is None
                && changed
            &&& actions.contains(EvaluationAction::AnnounceEvaluationChanged { node_id }) <==>
                candidate_id is None && changed
            &&& candidate_id matches Some(c) ==> (actions.contains(
                EvaluationAction::AnnounceCandidateChanged { candidate_id: c },
            ) <==> changed)
        }),
{
    let actions = gate_closing(group, node_id, candidate_id, completed, current, counts);
    let changed = group.snapshot_hash is Some && current is Some && group.snapshot_hash->0@
        != current->0@;
    assert(changed == snapshot_changed(group.snapshot_hash, current));
    if changed {
        if let Some(c) = candidate_id {
            assert(actions[0] == EvaluationAction::AnnounceCandidateChanged { candidate_id: c });
        } else {
            assert(actions[0] == EvaluationAction::AnnounceEvaluationChanged { node_id });
            assert(actions[1] == EvaluationAction::FailSnapshotChanged);
        }
    }
}

/// A closing gate closes its own group once. The group fails exactly when the
/// gate did not complete or the code changed; the consensus that is stored and
/// recorded has the counts that were computed, and their outcome unless the
/// code changed.
pub proof fn closing_gate_stores_the_consensus(
    group: EvaluationGroup,
    node_id: String,
    candidate_id: Option<String>,
    completed: bool,
    current: Option<String>,
    counts: ConsensusResult,
    i: int,
)
    requires
        0 <= i < gate_closing(group, node_id, candidate_id, completed, current, counts).len(),
    ensures
        ({
            let actions = gate_closing(group, node_id, candidate_id, completed, current, counts);
            let changed = group.snapshot_hash is Some && current is Some
                && group.snapshot_hash->0@ != current->0@;
            &&& exists|k: int|
                0 <= k < actions.len() && (#[trigger] actions[k] is CompleteGroup)
            &&& exists|k: int| 0 <= k < actions.len() && (#[trigger] actions[k] is Record)
            &&& actions[i] matches EvaluationAction::CompleteGroup {
                group_id,
                failed,
                consensus,
            } ==> {
                &&& group_id == group.id
                &&& failed <==> !completed || changed
                &&& consensus.approved_count == counts.approved_count
                &&& consensus.changes_requested_count == counts.changes_requested_count
                &&& consensus.valid_count == counts.valid_count
                &&& consensus.total_count == counts.total_count
                &&& consensus.issues == counts.issues
                &&& changed ==> consensus.outcome is Unavailable
                &&& !changed ==> consensus.outcome == counts.outcome
            }
            &&& actions[i] matches EvaluationAction::Record(record) ==> (
            record matches ProvenanceRecord::ConsensusComputed { payload } && {
                &&& payload.group_id == group.id
                &&& payload.workflow_id == group.workflow_id
                &&& payload.candidate_id == candidate_id
                &&& payload.round == group.round as usize
                &&& payload.approved_count == counts.approved_count
                &&& payload.changes_requested_count == counts.changes_requested_count
                &&& payload.total_issues == counts.issues@.len() as usize
                &&& changed ==> payload.outcome is Unavailable
                &&& !changed ==> payload.outcome == counts.outcome
            })
        }),
{
    let actions = gate_closing(group, node_id, candidate_id, completed, current, counts);
    let changed = group.snapshot_hash is Some && current is Some && group.snapshot_hash->0@
        != current->0@;
    assert(changed == snapshot_changed(group.snapshot_hash, current));
    let at: int = if !changed {
        0
    } else if candidate_id is Some {
        1
    } else {
        2
    };
    assert(actions[at] is CompleteGroup);
    assert(actions[at + 1] is Record);
}

/// A consensus over code that changed during its evaluation is void: the group
/// fails, the outcome is unavailable, and no fix round follows.
pub proof fn changed_code_voids_consensus(
    group: EvaluationGroup,
    node_id: String,
    candidate_id: Option<String>,
    completed: bool,
    current: Option<String>,
    counts: ConsensusResult,
    i: int,
)
    requires
        snapshot_changed(group.snapshot_hash, current),
        0 <= i < gate_closing(group, node_id, candidate_id, completed, current, counts).len(),
    ensures
        ({
            let action = gate_closing(group, node_id, candidate_id, completed, current, counts)[i];
            &&& action != EvaluationAction::ExtendFixRound
            &&& action matches EvaluationAction::CompleteGroup { failed, consensus, .. } ==> failed
                && consensus.outcome is Unavailable
        }),
{
}

/// The winner that a selection reason names, trimmed; the first candidate
/// where it names none.
pub open spec fn selected_winner(reason: Option<String>) -> Seq<char> {
    match reason {
        Some(text) => if begins_with(text@, "winner "@) {
            trimmed(text@.skip("winner "@.len() as int))
        } else {
            "candidate_1"@
        },
        None => "candidate_1"@,
    }
}

/// The winner that a selection reason names.
pub fn selected_candidate(reason: &Option<String>) -> (r: String)
    ensures
        r@ == selected_winner(*reason),
{
    match reason {
        Some(text) => match after_prefix(text.as_str(), "winner ") {
            Some(rest) => trim(rest.as_str()),
            None => "candidate_1".to_owned(),
        },
        None => "candidate_1".to_owned(),
    }
}

/// What is done when a winner was chosen and found: the competition records
/// the winner's task, workspace and snapshot, and closes.
pub open spec fn selection_closing(
    workflow_id: Uuid,
    group_id: Uuid,
    candidate: CandidateRecord,
    reason: String,
) -> Seq<EvaluationAction> {
    seq![
        EvaluationAction::SetWinner {
            group_id,
            candidate_id: candidate.candidate_id,
            task_id: candidate.task_id,
            workspace_id: candidate.workspace_id,
            snapshot_hash: candidate.snapshot_hash,
        },
        EvaluationAction::SetCompetitionOver { group_id, failed: false },
        EvaluationAction::Record(
            ProvenanceRecord::WinnerSelected {
                winner: WinnerRecord {
                    group_id,
                    workflow_id,
                    winner_candidate_id: candidate.candidate_id,
                    winner_agent_id: candidate.agent_id,
                    winner_task_id: candidate.task_id,
                    winner_workspace_id: candidate.workspace_id,
                    winner_snapshot_hash: candidate.snapshot_hash,
                    selection_reason: reason,
                },
            },
        ),
    ]
}

/// What is done when a winner was chosen: nothing when the chosen candidate is
/// not in the competition.
pub fn selection_actions(
    workflow_id: Uuid,
    group_id: Uuid,
    candidate: Option<&CandidateRecord>,
    reason: String,
) -> (r: Vec<EvaluationAction>)
    ensures
        match candidate {
            Some(c) => r@ == selection_closing(workflow_id, group_id, *c, reason),
            None => r@ == Seq::<EvaluationAction>::empty(),
        },
{
    let mut actions: Vec<EvaluationAction> = Vec::new();
    if let Some(candidate) = candidate {
        actions.push(
            EvaluationAction::SetWinner {
                group_id,
                candidate_id: candidate.candidate_id.clone(),
                task_id: candidate.task_id,
                workspace_id: candidate.workspace_id,
                snapshot_hash: clone_opt(&candidate.snapshot_hash),
            },
        );
        actions.push(EvaluationAction::SetCompetitionOver { group_id, failed: false });
        actions.push(
            EvaluationAction::Record(
                ProvenanceRecord::WinnerSelected {
                    winner: WinnerRecord {
                        group_id,
                        workflow_id,
                        winner_candidate_id: candidate.candidate_id.clone(),
                        winner_agent_id: candidate.agent_id.clone(),
                        winner_task_id: candidate.task_id,
                        winner_workspace_id: candidate.workspace_id,
                        winner_snapshot_hash: clone_opt(&candidate.snapshot_hash),
                        selection_reason: reason,
                    },
                },
            ),
        );
        assert(actions@ =~= selection_closing(workflow_id, group_id, *candidate, reason));
    } else {
        assert(actions@ =~= Seq::<EvaluationAction>::empty());
    }
    actions
}

/// A node of the graph with its place and whether it completed.
pub struct NodeProgress {
    pub kind: RoleKind,
    pub node_id: String,
    /// The place of the node in the run, where it has one.
    pub index: Option<usize>,
    /// The status of the node's result, where it has one.
    pub status: Option<WorkflowStepStatus>,
}

/// Whether a node wrote or fixed the code and completed.
pub open spec fn wrote_code(node: NodeProgress) -> bool {
    &&& node.kind == RoleKind::Implementer || node.kind == RoleKind::Fixer
    &&& node.status == Some(WorkflowStepStatus::Completed)
    &&& node.index is Some
}

/// The node whose workspace holds the code under evaluation: the completed
/// coding node that comes last in the run.
pub fn latest_code_node(nodes: &[NodeProgress]) -> (r: Option<usize>)
    ensures
        match r {
            Some(i) => {
                &&& i < nodes@.len()
                &&& wrote_code(nodes@[i as int])
                &&& forall|k: int|
                    0 <= k < nodes@.len() && wrote_code(#[trigger] nodes@[k]) ==> nodes@[k].index->0
                        <= nodes@[i as int].index->0
            },
            None => forall|k: int| 0 <= k < nodes@.len() ==> !wrote_code(#[trigger] nodes@[k]),
        },
{
    let mut best: Option<usize> = None;
    let mut best_index: usize = 0;
    let mut i: usize = 0;
    while i < nodes.len()
        invariant
            i <= nodes@.len(),
            match best {
                Some(b) => {
                    &&& b < i
                    &&& wrote_code(nodes@[b as int])
                    &&& nodes@[b as int].index == Some(best_index)
                    &&& forall|k: int|
                        0 <= k < i && wrote_code(#[trigger] nodes@[k]) ==> nodes@[k].index->0
                            <= best_index
                },
                None => forall|k: int| 0 <= k < i ==> !wrote_code(#[trigger] nodes@[k]),
            },
        decreases nodes.len() - i,
    {
        let node = &nodes[i];
        let is_code = match node.kind {
            RoleKind::Implementer | RoleKind::Fixer => true,
            _ => false,
        };
        let is_completed = match node.status {
            Some(status) => status == WorkflowStepStatus::Completed,
            None => false,
        };
        if is_code && is_completed {
            if let Some(index) = node.index {
                if best.is_none() || index >= best_index {
                    best = Some(i);
                    best_index = index;
                }
            }
        }
        i += 1;
    }
    best
}

/// A member of an evaluation group as a replay reads it: its agent, and its
/// result where there is one that can be read.
pub struct MemberResult<R> {
    pub agent_id: String,
    pub result: Option<R>,
}

/// What a consensus is computed from.
pub struct ConsensusInputs<R> {
    /// The readable results with their agents, in the order of the members.
    pub results: Vec<(String, R)>,
    pub strategy: ConsensusStrategy,
    pub quorum: usize,
    /// How many members the group has.
    pub total: usize,
}

/// The readable results with their agents, in the order of the members.
pub open spec fn readable_results<R>(members: Seq<MemberResult<R>>) -> Seq<(String, R)>
    decreases members.len(),
{
    if members.len() == 0 {
        Seq::empty()
    } else {
        let rest = readable_results(members.drop_last());
        match members.last().result {
            Some(result) => rest.push((members.last().agent_id, result)),
            None => rest,
        }
    }
}

/// What the consensus of a recorded group is computed from anew: the results
/// that can be read, the recorded strategy (majority where it is unknown) and
/// quorum, and the number of members.
pub fn consensus_inputs<R>(group: &EvaluationGroup, members: Vec<MemberResult<R>>) -> (r:
    ConsensusInputs<R>)
    ensures
        r.results@ == readable_results(members@),
        r.strategy == named_strategy(Some(group.strategy@)),
        r.quorum == group.quorum as usize,
        r.total == members@.len(),
{
    let total: usize = members.len();
    let ghost all = members@;
    let mut rest = members;
    let mut backward: Vec<MemberResult<R>> = Vec::new();
    while rest.len() > 0
        invariant
            all == rest@ + backward@.reverse(),
        decreases rest.len(),
    {
        let ghost head = rest@;
        let ghost tail = backward@;
        if let Some(last) = rest.pop() {
            proof {
                assert(head =~= rest@.push(last));
                assert(tail.push(last).reverse() =~= seq![last] + tail.reverse());
                assert(all =~= rest@ + tail.push(last).reverse());
            }
            backward.push(last);
        }
    }
    assert(backward@.reverse() =~= all);
    let mut results: Vec<(String, R)> = Vec::new();
    let ghost mut done: Seq<MemberResult<R>> = Seq::empty();
    while backward.len() > 0
        invariant
            all == done + backward@.reverse(),
            results@ == readable_results(done),
        decreases backward.len(),
    {
        let ghost before = backward@;
        let ghost earlier = done;
        if let Some(member) = backward.pop() {
            proof {
                done = done.push(member);
                assert(before =~= backward@.push(member));
                assert(before.reverse() =~= seq![member] + backward@.reverse());
                assert(all =~= done + backward@.reverse());
                assert(done.drop_last() =~= earlier);
            }
            if let Some(result) = member.result {
                results.push((member.agent_id, result));
            }
        }
    }
    assert(done =~= all);
    ConsensusInputs {
        results,
        strategy: strategy_of(Some(group.strategy.as_str())),
        quorum: group.quorum as usize,
        total,
    }
}

/// What the evaluation of a resumed run goes by: the strategy and the quorum of
/// the recorded group, one evaluator at least, and the task under evaluation.
pub struct RestoredEvaluation {
    pub strategy: ConsensusStrategy,
    pub quorum: usize,
    pub required_evaluators: usize,
    pub source_task_id: Option<Uuid>,
}

/// What the evaluation of a resumed run goes by.
pub fn restored_evaluation(group: &EvaluationGroup, members: usize) -> (r: RestoredEvaluation)
    ensures
        r.strategy == named_strategy(Some(group.strategy@)),
        r.quorum == group.quorum as usize,
        r.required_evaluators == (if members == 0 {
            1
        } else {
            members as int
        }),
        r.source_task_id == group.source_task_id,
{
    RestoredEvaluation {
        strategy: strategy_of(Some(group.strategy.as_str())),
        quorum: group.quorum as usize,
        required_evaluators: if members == 0 {
            1
        } else {
            members
        },
        source_task_id: group.source_task_id,
    }
}

/// The agent and the session lane of a node of a resumed competition. A node
/// whose agent is not known yet has none.
#[derive(Debug, PartialEq, Eq)]
pub struct Assignment {
    pub node_id: String,
    pub agent_id: Option<String>,
    pub lane: String,
}

/// Whether an assignment is that of a candidate: its agent, in its own lane.
pub open spec fn is_candidate_assignment(r: Assignment, candidate: CandidateRecord) -> bool {
    r == (Assignment {
        node_id: candidate.candidate_id,
        agent_id: Some(candidate.agent_id),
        lane: candidate.session_lane,
    })
}

/// Whether an assignment is that of an evaluator of a candidate: its agent,
/// where one is known, in the lane named after the competition, the candidate
/// and the evaluator node.
pub open spec fn is_member_assignment(
    r: Assignment,
    group_id: Uuid,
    candidate: CandidateRecord,
    member: MemberRecord,
) -> bool {
    &&& r.node_id == member.node_id
    &&& r.agent_id == (if member.agent_id@.len() == 0 {
        None
    } else {
        Some(member.agent_id)
    })
    &&& r.lane@ == evaluation_lane_name(group_id, candidate.candidate_id@, member.node_id@)
}

/// The assignments of a candidate and its evaluators in a resumed competition.
pub fn restored_assignments(
    group_id: Uuid,
    candidate: &CandidateRecord,
    members: &Vec<MemberRecord>,
) -> (r: Vec<Assignment>)
    ensures
        r@.len() == members@.len() + 1,
        is_candidate_assignment(r@[0], *candidate),
        forall|i: int|
            0 <= i < members@.len() ==> is_member_assignment(
                #[trigger] r@[i + 1],
                group_id,
                *candidate,
                members@[i],
            ),
{
    let mut out: Vec<Assignment> = Vec::new();
    out.push(
        Assignment {
            node_id: candidate.candidate_id.clone(),
            agent_id: Some(candidate.agent_id.clone()),
            lane: candidate.session_lane.clone(),
        },
    );
    let mut i: usize = 0;
    while i < members.len()
        invariant
            i <= members@.len(),
            out@.len() == i + 1,
            is_candidate_assignment(out@[0], *candidate),
            forall|k: int|
                0 <= k < i ==> is_member_assignment(
                    #[trigger] out@[k + 1],
                    group_id,
                    *candidate,
                    members@[k],
                ),
        decreases members.len() - i,
    {
        let member = &members[i];
        let agent_id = if member.agent_id.as_str().is_empty() {
            None
        } else {
            Some(member.agent_id.clone())
        };
        let lane = evaluation_lane(
            group_id,
            candidate.candidate_id.as_str(),
            member.node_id.as_str(),
        );
        let ghost before = out@;
        out.push(Assignment { node_id: member.node_id.clone(), agent_id, lane });
        assert forall|k: int| 0 <= k < i + 1 implies is_member_assignment(
            #[trigger] out@[k + 1],
            group_id,
            *candidate,
            members@[k],
        ) by {
            if k < i {
                assert(out@[k + 1] == before[k + 1]);
            }
        }
        i += 1;
    }
    out
}

/// Which move of a node each step stands for: work that completed or failed is
/// recorded for candidates and evaluators, code only once it is complete, an
/// evaluator also when it is dispatched, and a gate only once it is over. A
/// selection has a winner exactly when its gate completed.
pub proof fn steps_stand_for_moves(
    step: EvaluationStep,
    kind: RoleKind,
    status: NodeStatus,
    terminal: bool,
    node: Seq<char>,
)
    requires
        is_step_of(step, kind, status, terminal, node),
    ensures
        step is CandidateCompleted <==> kind == RoleKind::Candidate && status
            == NodeStatus::Completed,
        step is CandidateFailed <==> kind == RoleKind::Candidate && status == NodeStatus::Failed,
        step is CodeCompleted <==> (kind == RoleKind::Implementer || kind == RoleKind::Fixer)
            && status == NodeStatus::Completed,
        step is EvaluatorRunning <==> kind == RoleKind::Evaluator && (status == NodeStatus::Ready
            || status == NodeStatus::Running),
        step is EvaluatorCompleted <==> kind == RoleKind::Evaluator && status
            == NodeStatus::Completed,
        step is EvaluatorFailed <==> kind == RoleKind::Evaluator && status == NodeStatus::Failed,
        step is GateClosed <==> kind == RoleKind::ConsensusGate && terminal,
        step matches EvaluationStep::GateClosed { candidate_id, completed } ==> (completed <==> status
            == NodeStatus::Completed) && (candidate_id is Some <==> begins_with(
            node,
            "consensus_c"@,
        )),
        step is WinnerChosen <==> kind == RoleKind::SelectionGate && terminal && status
            == NodeStatus::Completed,
        step is SelectionFailed <==> kind == RoleKind::SelectionGate && terminal && status
            != NodeStatus::Completed,
{
}

/// A completed candidate is marked complete with its snapshot and summary. The
/// group that evaluates it, and no other, is given the snapshot and the task, as
/// far as they are known; the candidate itself is bound to its task and
/// workspace.
#[verifier::rlimit(40)]
pub proof fn completed_candidate_is_handed_to_its_group(
    workflow_id: Uuid,
    group_id: Uuid,
    node_id: String,
    candidate: CandidateRecord,
    task_id: Option<Uuid>,
    workspace_id: Option<Uuid>,
    hash: Option<String>,
    summary: Option<String>,
    g: Uuid,
    h: String,
    t: Uuid,
    w: Option<Uuid>,
)
    ensures
        ({
            let actions = candidate_completion(
                workflow_id,
                group_id,
                node_id,
                candidate,
                task_id,
                workspace_id,
                hash,
                summary,
            );
            &&& actions.contains(EvaluationAction::SetGroupSnapshot { group_id: g, hash: h }) <==>
                candidate.evaluation_group_id == Some(g) && hash == Some(h)
            &&& actions.contains(EvaluationAction::SetGroupSourceTask { group_id: g, task_id: t })
                <==> candidate.evaluation_group_id == Some(g) && task_id == Some(t)
            &&& actions.contains(
                EvaluationAction::SetCandidateTask {
                    group_id: g,
                    candidate_id: h,
                    task_id: t,
                    workspace_id: w,
                },
            ) <==> g == group_id && h == node_id && task_id == Some(t) && w == workspace_id
            &&& actions.contains(
                EvaluationAction::CompleteCandidate {
                    group_id,
                    candidate_id: node_id,
                    snapshot_hash: hash,
                    summary,
                },
            )
            &&& !actions.contains(
                EvaluationAction::FailCandidate { group_id: g, candidate_id: h },
            )
        }),
{
    let actions = candidate_completion(
        workflow_id,
        group_id,
        node_id,
        candidate,
        task_id,
        workspace_id,
        hash,
        summary,
    );
    let at: int = if task_id is Some {
        1
    } else {
        0
    };
    assert(actions[at] is CompleteCandidate);
    if task_id is Some {
        assert(actions[0] is SetCandidateTask);
    }
    if candidate.evaluation_group_id is Some {
        if hash is Some {
            assert(actions[at + 2] is SetGroupSnapshot);
            if task_id is Some {
                assert(actions[at + 3] is SetGroupSourceTask);
            }
        } else if task_id is Some {
            assert(actions[at + 2] is SetGroupSourceTask);
        }
    }
}

/// The code that was written or fixed is what a group looks at from then on:
/// its snapshot and its task, as far as they are known, and nothing else.
pub proof fn written_code_is_handed_to_the_group(
    group_id: Uuid,
    hash: Option<String>,
    task_id: Option<Uuid>,
    i: int,
)
    requires
        0 <= i < (snapshot_action(group_id, hash) + source_task_action(group_id, task_id)).len(),
    ensures
        ({
            let actions = snapshot_action(group_id, hash) + source_task_action(group_id, task_id);
            &&& actions.len() == (if hash is Some {
                1int
            } else {
                0
            }) + (if task_id is Some {
                1int
            } else {
                0
            })
            &&& actions[i] matches EvaluationAction::SetGroupSnapshot { group_id: g, hash: h }
                ==> g == group_id && hash == Some(h)
            &&& actions[i] matches EvaluationAction::SetGroupSourceTask { group_id: g, task_id: t }
                ==> g == group_id && task_id == Some(t)
            &&& actions[i] is SetGroupSnapshot || actions[i] is SetGroupSourceTask
        }),
{
}

/// A completed evaluator is stored as completed with its result and without an
/// error. Its review is recorded exactly when it made one, under its own member,
/// group, node and agent.
pub proof fn completed_evaluator_keeps_its_review(
    workflow_id: Uuid,
    member: MemberRecord,
    result_json: Option<String>,
    review: Option<ReviewRecord>,
    i: int,
)
    requires
        0 <= i < evaluator_completion(workflow_id, member, result_json, review).len(),
    ensures
        ({
            let actions = evaluator_completion(workflow_id, member, result_json, review);
            &&& actions[0] is UpdateMember
            &&& actions[i] matches EvaluationAction::UpdateMember {
                member_id,
                state,
                result_json: stored,
                error,
            } ==> member_id == member.id && state == MemberState::Completed && stored
                == result_json && error is None
            &&& actions[i] is UpdateMember || actions[i] is Record
            &&& actions.len() == 2 <==> review is Some
            &&& actions.len() <= 2
            &&& actions[i] matches EvaluationAction::Record(record) ==> (
            record matches ProvenanceRecord::EvaluationCompleted { workflow_id: w, payload } && {
                &&& w == workflow_id
                &&& payload.member_id == member.id
                &&& payload.group_id == member.group_id
                &&& payload.node_id == member.node_id
                &&& payload.agent_id == member.agent_id
                &&& review matches Some(made) && payload.verdict == made.verdict
                    && payload.confidence == made.confidence && payload.issue_count
                    == made.issue_count
            })
        }),
{
}

/// One more result at a gate adds a vote exactly when it has a review: the
/// review, under its agent. Every result counts towards the total, a review or
/// not; a dependency without a result counts nowhere.
pub proof fn each_review_is_one_vote<R>(
    results: Seq<Option<DependencyResult<R>>>,
    next: Option<DependencyResult<R>>,
)
    ensures
        votes_of(Seq::<Option<DependencyResult<R>>>::empty()).len() == 0,
        result_count(Seq::<Option<DependencyResult<R>>>::empty()) == 0,
        next is None ==> votes_of(results.push(next)) == votes_of(results) && result_count(
            results.push(next),
        ) == result_count(results),
        next matches Some(result) ==> {
            &&& result_count(results.push(next)) == result_count(results) + 1
            &&& result.review is None ==> votes_of(results.push(next)) == votes_of(results)
            &&& result.review matches Some(review) ==> {
                let votes = votes_of(results.push(next));
                &&& votes.len() == votes_of(results).len() + 1
                &&& votes.drop_last() == votes_of(results)
                &&& votes.last().1 == review
                &&& result.agent_id matches Some(agent) ==> votes.last().0 == agent@
                &&& result.agent_id is None ==> votes.last().0.len() == 0
            }
        },
{
    assert(results.push(next).drop_last() =~= results);
    if next is Some && next->0.review is Some {
        assert(votes_of(results.push(next)).drop_last() =~= votes_of(results));
    }
}

/// One more member of a recorded group adds its result, under its agent, exactly
/// when the result can be read.
pub proof fn each_readable_result_counts<R>(members: Seq<MemberResult<R>>, next: MemberResult<R>)
    ensures
        readable_results(Seq::<MemberResult<R>>::empty()).len() == 0,
        next.result is None ==> readable_results(members.push(next)) == readable_results(members),
        next.result matches Some(result) ==> {
            let results = readable_results(members.push(next));
            &&& results.len() == readable_results(members).len() + 1
            &&& results.drop_last() == readable_results(members)
            &&& results.last() == (next.agent_id, result)
        },
{
    assert(members.push(next).drop_last() =~= members);
    if next.result is Some {
        assert(readable_results(members.push(next)).drop_last() =~= readable_results(members));
    }
}

/// A selection that names a winner selects that candidate, however the name is
/// padded; one that names none selects the first candidate.
pub proof fn named_winner_is_selected(reason: String, id: Seq<char>)
    requires
        id.len() > 0,
        !white_space(id[0]),
        !white_space(id.last()),
    ensures
        reason@ == "winner "@ + id ==> selected_winner(Some(reason)) == id,
        reason@ == "winner "@ + id + " "@ ==> selected_winner(Some(reason)) == id,
        !begins_with(reason@, "winner "@) ==> selected_winner(Some(reason)) == "candidate_1"@,
        selected_winner(None) == "candidate_1"@,
{
    let head = "winner "@;
    reveal_strlit(" ");
    if reason@ == head + id {
        assert(reason@.skip(head.len() as int) =~= id);
        assert(stands_at(reason@, head, 0)) by {
            assert(reason@.subrange(0, head.len() as int) =~= head);
        }
        assert(trailing_space(id) == 0);
        assert(leading_space(id) == 0);
        assert(trimmed_start(id) =~= id);
        assert(trimmed(id) =~= id);
    }
    if reason@ == head + id + " "@ {
        let padded = id + " "@;
        assert(reason@.skip(head.len() as int) =~= padded);
        assert(stands_at(reason@, head, 0)) by {
            assert(reason@.subrange(0, head.len() as int) =~= head);
        }
        assert(padded[0] == id[0]);
        assert(leading_space(padded) == 0);
        assert(trimmed_start(padded) =~= padded);
        assert(padded.drop_last() =~= id);
        assert(trailing_space(id) == 0);
        assert(padded.last() == ' ');
        assert(trailing_space(padded) == 1);
        assert(trimmed(padded) =~= id);
    }
}

/// A chosen winner closes its competition, which did not fail: the stored winner
/// and the recorded one are the chosen candidate, with its own task, workspace
/// and snapshot, and no other candidate is touched.
pub proof fn chosen_winner_closes_the_competition(
    workflow_id: Uuid,
    group_id: Uuid,
    candidate: CandidateRecord,
    reason: String,
    i: int,
)
    requires
        0 <= i < selection_closing(workflow_id, group_id, candidate, reason).len(),
    ensures
        ({
            let actions = selection_closing(workflow_id, group_id, candidate, reason);
            &&& actions.len() == 3
            &&& actions.contains(EvaluationAction::SetCompetitionOver { group_id, failed: false })
            &&& exists|k: int| 0 <= k < actions.len() && (#[trigger] actions[k] is SetWinner)
            &&& exists|k: int| 0 <= k < actions.len() && (#[trigger] actions[k] is Record)
            &&& actions[i] matches EvaluationAction::SetCompetitionOver { group_id: g, failed }
                ==> g == group_id && !failed
            &&& actions[i] matches EvaluationAction::SetWinner {
                group_id: g,
                candidate_id,
                task_id,
                workspace_id,
                snapshot_hash,
            } ==> {
                &&& g == group_id
                &&& candidate_id == candidate.candidate_id
                &&& task_id == candidate.task_id
                &&& workspace_id == candidate.workspace_id
                &&& snapshot_hash == candidate.snapshot_hash
            }
            &&& actions[i] matches EvaluationAction::Record(record) ==> (
            record matches ProvenanceRecord::WinnerSelected { winner } && {
                &&& winner.group_id == group_id
                &&& winner.workflow_id == workflow_id
                &&& winner.winner_candidate_id == candidate.candidate_id
                &&& winner.winner_agent_id == candidate.agent_id
                &&& winner.winner_task_id == candidate.task_id
                &&& winner.winner_workspace_id == candidate.workspace_id
                &&& winner.winner_snapshot_hash == candidate.snapshot_hash
                &&& winner.selection_reason == reason
            })
        }),
{
    let actions = selection_closing(workflow_id, group_id, candidate, reason);
    assert(actions[0] is SetWinner);
    assert(actions[1] is SetCompetitionOver);
    assert(actions[2] is Record);
}

/// The code under evaluation is that of a node which wrote or fixed it and is
/// complete, and no such node comes later in the run.
pub proof fn evaluated_code_is_the_latest(node: NodeProgress)
    ensures
        wrote_code(node) ==> node.kind == RoleKind::Implementer || node.kind == RoleKind::Fixer,
        wrote_code(node) ==> node.status == Some(WorkflowStepStatus::Completed),
        node.kind == RoleKind::Implementer && node.status == Some(WorkflowStepStatus::Completed)
            && node.index is Some ==> wrote_code(node),
        node.kind == RoleKind::Fixer && node.status == Some(WorkflowStepStatus::Completed)
            && node.index is Some ==> wrote_code(node),
{
}

/// In a resumed competition a candidate keeps its agent and lane, and an
/// evaluator its agent where it had one, in a lane of its own.
pub proof fn restored_assignments_keep_agents_and_lanes(
    first: Assignment,
    second: Assignment,
    group_id: Uuid,
    candidate: CandidateRecord,
    member: MemberRecord,
)
    requires
        is_candidate_assignment(first, candidate),
        is_member_assignment(second, group_id, candidate, member),
    ensures
        first.node_id == candidate.candidate_id,
        first.agent_id == Some(candidate.agent_id),
        first.lane == candidate.session_lane,
        second.node_id == member.node_id,
        member.agent_id@.len() > 0 ==> second.agent_id == Some(member.agent_id),
        member.agent_id@.len() == 0 ==> second.agent_id is None,
        second.lane@ == evaluation_lane_name(group_id, candidate.candidate_id@, member.node_id@),
{
}

/// The current group is of the latest round, the last one listed where several
/// are; there is none exactly where there is no group. The group of a round is
/// the first one of it, and that of an id the first one with it.
pub proof fn found_groups_are_the_right_ones(
    groups: Seq<EvaluationGroup>,
    current: Option<usize>,
    of_round: Option<usize>,
    linked: Option<usize>,
    round: i64,
    id: Uuid,
    k: int,
)
    requires
        is_current_group(groups, current),
        is_round_group(groups, round, of_round),
        is_group_with_id(groups, id, linked),
        0 <= k < groups.len(),
    ensures
        current is Some,
        groups[k].round <= groups[current->0 as int].round,
        k > current->0 ==> groups[k].round < groups[current->0 as int].round,
        groups[k].round == round ==> of_round is Some && of_round->0 <= k,
        of_round matches Some(i) ==> groups[i as int].round == round,
        groups[k].id == id ==> linked is Some && linked->0 <= k,
        linked matches Some(i) ==> groups[i as int].id == id,
{
}

/// An evaluator votes in the group of the candidate that its name carries, and
/// one without a candidate in that of the round that its name carries.
pub proof fn evaluators_belong_to_what_they_name(r: GroupRef, c: nat, e: nat, round: int)
    requires
        0 <= round <= i64::MAX,
    ensures
        is_group_of(r, candidate_evaluator_name(c, e)) ==> (
        r matches GroupRef::OfCandidate { candidate_id, .. } && candidate_id@ == candidate_name(c)),
        is_group_of(r, evaluator_name(e)) ==> r == (GroupRef::OfRound { round: 0 }),
        is_group_of(r, round_evaluator_name(round, e)) ==> (r matches GroupRef::OfRound {
            round: found,
        } && found == round),
{
    evaluator_names_candidate(c, e);
    evaluator_round_is_named(round, e);
    reveal_strlit("eval_c");
    reveal_strlit("evaluator_");
    reveal_strlit("evaluator_r");
    let plain = evaluator_name(e);
    let named = round_evaluator_name(round, e);
    assert("eval_c"@[4] == '_');
    assert("evaluator_"@[4] == 'u');
    assert("evaluator_r"@[4] == 'u');
    assert(plain[4] == 'u');
    assert(named[4] == 'u');
    assert(plain.subrange(0, 6)[4] == plain[4]);
    assert(named.subrange(0, 6)[4] == named[4]);
}

} // verus!
