//! The rows that evaluations and competitions start with.

use vstd::prelude::*;
use vstd::string::*;

use crate::ids::{is_random_id, Uuid};
use crate::text::{clone_opt, texts};
use crate::workflow::start::{named_strategy, CandidatePlan, ConsensusStrategy};

verus! {

/// The text of a consensus strategy.
pub open spec fn strategy_text(strategy: ConsensusStrategy) -> Seq<char> {
    match strategy {
        ConsensusStrategy::Majority => "majority"@,
        ConsensusStrategy::Unanimous => "unanimous"@,
    }
}

/// The text of a consensus strategy.
pub fn strategy_str(strategy: ConsensusStrategy) -> (r: &'static str)
    ensures
        r@ == strategy_text(strategy),
{
    match strategy {
        ConsensusStrategy::Majority => "majority",
        ConsensusStrategy::Unanimous => "unanimous",
    }
}

/// An evaluation group as it is stored.
#[derive(Debug, PartialEq, Eq)]
pub struct EvaluationGroupRow {
    pub id: Uuid,
    pub workflow_id: Uuid,
    pub source_task_id: Option<Uuid>,
    pub strategy: String,
    pub quorum: i64,
    pub status: String,
    pub consensus: Option<String>,
    pub snapshot_hash: Option<String>,
    pub round: i64,
    pub created_at: String,
    pub completed_at: Option<String>,
}

/// A member of an evaluation group as it is stored.
#[derive(Debug, PartialEq, Eq)]
pub struct EvaluationMemberRow {
    pub id: Uuid,
    pub group_id: Uuid,
    pub node_id: String,
    pub agent_id: String,
    pub task_id: Option<Uuid>,
    pub status: String,
    pub result_json: Option<String>,
    pub error: Option<String>,
    pub created_at: String,
    pub completed_at: Option<String>,
}

/// A competition as it is stored.
#[derive(Debug, PartialEq, Eq)]
pub struct CompetitionGroupRow {
    pub id: Uuid,
    pub workflow_id: Uuid,
    pub source_workspace: Option<String>,
    pub base_revision: String,
    pub candidate_count: i64,
    pub status: String,
    pub winner_candidate_id: Option<String>,
    pub winner_task_id: Option<Uuid>,
    pub winner_workspace_id: Option<Uuid>,
    pub winner_snapshot_hash: Option<String>,
    pub created_at: String,
    pub updated_at: String,
}

/// A candidate of a competition as it is stored.
#[derive(Debug, PartialEq, Eq)]
pub struct CompetitionCandidateRow {
    pub id: Uuid,
    pub group_id: Uuid,
    pub candidate_id: String,
    pub agent_id: String,
    pub session_lane: String,
    pub task_id: Option<Uuid>,
    pub workspace_id: Option<Uuid>,
    pub snapshot_hash: Option<String>,
    pub evaluation_group_id: Option<Uuid>,
    pub status: String,
    pub summary: Option<String>,
    pub patch_path: Option<String>,
    pub created_at: String,
    pub updated_at: String,
}

/// An evaluation group with its members.
#[derive(Debug, PartialEq, Eq)]
pub struct EvaluationRows {
    pub group: EvaluationGroupRow,
    pub members: Vec<EvaluationMemberRow>,
}

/// Whether a row is that of a group that is still to be evaluated.
pub open spec fn is_pending_group(
    r: EvaluationGroupRow,
    id: Uuid,
    workflow_id: Uuid,
    source_task_id: Option<Uuid>,
    strategy: Seq<char>,
    quorum: i64,
    round: i64,
    now: String,
) -> bool {
    &&& r.strategy@ == strategy
    &&& r.status@ == "pending"@
    &&& r == (EvaluationGroupRow {
        id,
        workflow_id,
        source_task_id,
        strategy: r.strategy,
        quorum,
        status: r.status,
        consensus: None,
        snapshot_hash: None,
        round,
        created_at: now,
        completed_at: None,
    })
}

/// The row of a group that is still to be evaluated.
pub fn pending_group(
    id: Uuid,
    workflow_id: Uuid,
    source_task_id: Option<Uuid>,
    strategy: &str,
    quorum: i64,
    round: i64,
    now: &String,
) -> (r: EvaluationGroupRow)
    ensures
        is_pending_group(r, id, workflow_id, source_task_id, strategy@, quorum, round, *now),
{
    EvaluationGroupRow {
        id,
        workflow_id,
        source_task_id,
        strategy: strategy.to_owned(),
        quorum,
        status: "pending".to_owned(),
        consensus: None,
        snapshot_hash: None,
        round,
        created_at: now.clone(),
        completed_at: None,
    }
}

/// Whether a row is that of a member that is still to evaluate.
pub open spec fn is_pending_member(
    r: EvaluationMemberRow,
    id: Uuid,
    group_id: Uuid,
    node_id: Seq<char>,
    agent_id: Seq<char>,
    now: String,
) -> bool {
    &&& r.node_id@ == node_id
    &&& r.agent_id@ == agent_id
    &&& r.status@ == "pending"@
    &&& r == (EvaluationMemberRow {
        id,
        group_id,
        node_id: r.node_id,
        agent_id: r.agent_id,
        task_id: None,
        status: r.status,
        result_json: None,
        error: None,
        created_at: now,
        completed_at: None,
    })
}

/// The row of a member that is still to evaluate.
pub fn pending_member(id: Uuid, group_id: Uuid, node_id: &str, agent_id: &str, now: &String) -> (r:
    EvaluationMemberRow)
    ensures
        is_pending_member(r, id, group_id, node_id@, agent_id@, *now),
{
    EvaluationMemberRow {
        id,
        group_id,
        node_id: node_id.to_owned(),
        agent_id: agent_id.to_owned(),
        task_id: None,
        status: "pending".to_owned(),
        result_json: None,
        error: None,
        created_at: now.clone(),
        completed_at: None,
    }
}

/// Whether rows are those of members, one for each node, whose agents are not
/// known yet.
pub open spec fn are_unassigned_members(
    r: Seq<EvaluationMemberRow>,
    ids: Seq<Uuid>,
    group_id: Uuid,
    nodes: Seq<Seq<char>>,
    now: String,
) -> bool {
    &&& r.len() == nodes.len()
    &&& forall|i: int|
        0 <= i < r.len() ==> is_pending_member(
            #[trigger] r[i],
            ids[i],
            group_id,
            nodes[i],
            Seq::empty(),
            now,
        )
}

/// The rows of members, one for each node; an agent is assigned when its node
/// is dispatched.
pub fn unassigned_members(
    ids: &Vec<Uuid>,
    group_id: Uuid,
    nodes: &Vec<String>,
    now: &String,
) -> (r: Vec<EvaluationMemberRow>)
    requires
        ids@.len() == nodes@.len(),
    ensures
        are_unassigned_members(r@, ids@, group_id, texts(nodes@), *now),
{
    let mut out: Vec<EvaluationMemberRow> = Vec::new();
    let mut i: usize = 0;
    let ghost names = texts(nodes@);
    while i < nodes.len()
        invariant
            i <= nodes@.len(),
            ids@.len() == nodes@.len(),
            names == texts(nodes@),
            out@.len() == i,
            forall|j: int|
                0 <= j < i ==> is_pending_member(
                    #[trigger] out@[j],
                    ids@[j],
                    group_id,
                    names[j],
                    Seq::empty(),
                    *now,
                ),
        decreases nodes.len() - i,
    {
        proof {
            reveal_strlit("");
            assert(""@ =~= Seq::<char>::empty());
            assert(names[i as int] == nodes@[i as int]@);
        }
        out.push(pending_member(ids[i], group_id, nodes[i].as_str(), "", now));
        i += 1;
    }
    out
}

/// Fresh identifiers.
pub fn fresh_ids(n: usize) -> (r: Vec<Uuid>)
    ensures
        r@.len() == n,
        forall|i: int| 0 <= i < n ==> is_random_id((#[trigger] r@[i]).bits),
{
    let mut out: Vec<Uuid> = Vec::new();
    let mut i: usize = 0;
    while i < n
        invariant
            i <= n,
            out@.len() == i,
            forall|j: int| 0 <= j < i ==> is_random_id((#[trigger] out@[j]).bits),
        decreases n - i,
    {
        out.push(Uuid::new_v4());
        i += 1;
    }
    out
}

/// The identifiers of what a candidate brings along: its own row, its
/// evaluation group, and the members of that group.
#[derive(Debug, PartialEq, Eq)]
pub struct CandidateIds {
    pub row: Uuid,
    pub group: Uuid,
    pub members: Vec<Uuid>,
}

/// Fresh identifiers for candidates.
pub fn fresh_candidate_ids(plans: &Vec<CandidatePlan>) -> (r: Vec<CandidateIds>)
    ensures
        r@.len() == plans@.len(),
        forall|i: int|
            0 <= i < r@.len() ==> (#[trigger] r@[i]).members@.len()
                == plans@[i].evaluators@.len(),
        forall|i: int|
            0 <= i < r@.len() ==> is_random_id((#[trigger] r@[i]).row.bits) && is_random_id(
                r@[i].group.bits,
            ),
        forall|i: int, j: int|
            0 <= i < r@.len() && 0 <= j < r@[i].members@.len() ==> is_random_id(
                (#[trigger] r@[i].members@[j]).bits,
            ),
{
    let mut out: Vec<CandidateIds> = Vec::new();
    let mut i: usize = 0;
    while i < plans.len()
        invariant
            i <= plans@.len(),
            out@.len() == i,
            forall|j: int|
                0 <= j < i ==> (#[trigger] out@[j]).members@.len() == plans@[j].evaluators@.len(),
            forall|j: int|
                0 <= j < i ==> is_random_id((#[trigger] out@[j]).row.bits) && is_random_id(
                    out@[j].group.bits,
                ),
            forall|j: int, k: int|
                0 <= j < i && 0 <= k < out@[j].members@.len() ==> is_random_id(
                    (#[trigger] out@[j].members@[k]).bits,
                ),
        decreases plans.len() - i,
    {
        let members = fresh_ids(plans[i].evaluators.len());
        out.push(CandidateIds { row: Uuid::new_v4(), group: Uuid::new_v4(), members });
        i += 1;
    }
    out
}

/// The rows of a candidate: its own, its evaluation group and that group's
/// members.
#[derive(Debug, PartialEq, Eq)]
pub struct CandidateRows {
    pub candidate: CompetitionCandidateRow,
    pub evaluation: EvaluationRows,
}

/// What the rows of a competition have in common.
pub struct CompetitionSeed {
    pub workflow_id: Uuid,
    pub group_id: Uuid,
    pub source_workspace: Option<String>,
    pub strategy: ConsensusStrategy,
    pub quorum: i64,
    pub now: String,
}

/// Whether rows are those of a candidate: it waits, and is linked to its
/// evaluation group, whose members are its evaluators.
pub open spec fn are_candidate_rows(
    r: CandidateRows,
    seed: CompetitionSeed,
    plan: CandidatePlan,
    ids: CandidateIds,
) -> bool {
    &&& r.candidate.status@ == "pending"@
    &&& r.candidate == (CompetitionCandidateRow {
        id: ids.row,
        group_id: seed.group_id,
        candidate_id: plan.candidate_id,
        agent_id: plan.agent_id,
        session_lane: plan.lane,
        task_id: None,
        workspace_id: None,
        snapshot_hash: None,
        evaluation_group_id: Some(ids.group),
        status: r.candidate.status,
        summary: None,
        patch_path: None,
        created_at: seed.now,
        updated_at: seed.now,
    })
    &&& is_pending_group(
        r.evaluation.group,
        ids.group,
        seed.workflow_id,
        None,
        strategy_text(seed.strategy),
        seed.quorum,
        0,
        seed.now,
    )
    &&& r.evaluation.members@.len() == plan.evaluators@.len()
    &&& forall|e: int|
        0 <= e < plan.evaluators@.len() ==> is_pending_member(
            #[trigger] r.evaluation.members@[e],
            ids.members@[e],
            ids.group,
            plan.evaluators@[e].node_id@,
            plan.evaluators@[e].agent_id@,
            seed.now,
        )
}

fn candidate_rows(seed: &CompetitionSeed, plan: &CandidatePlan, ids: &CandidateIds) -> (r:
    CandidateRows)
    requires
        ids.members@.len() == plan.evaluators@.len(),
    ensures
        are_candidate_rows(r, *seed, *plan, *ids),
{
    let mut members: Vec<EvaluationMemberRow> = Vec::new();
    let mut e: usize = 0;
    while e < plan.evaluators.len()
        invariant
            e <= plan.evaluators@.len(),
            ids.members@.len() == plan.evaluators@.len(),
            members@.len() == e,
            forall|j: int|
                0 <= j < e ==> is_pending_member(
                    #[trigger] members@[j],
                    ids.members@[j],
                    ids.group,
                    plan.evaluators@[j].node_id@,
                    plan.evaluators@[j].agent_id@,
                    seed.now,
                ),
        decreases plan.evaluators.len() - e,
    {
        let evaluator = &plan.evaluators[e];
        members.push(
            pending_member(
                ids.members[e],
                ids.group,
                evaluator.node_id.as_str(),
                evaluator.agent_id.as_str(),
                &seed.now,
            ),
        );
        e += 1;
    }
    CandidateRows {
        candidate: CompetitionCandidateRow {
            id: ids.row,
            group_id: seed.group_id,
            candidate_id: plan.candidate_id.clone(),
            agent_id: plan.agent_id.clone(),
            session_lane: plan.lane.clone(),
            task_id: None,
            workspace_id: None,
            snapshot_hash: None,
            evaluation_group_id: Some(ids.group),
            status: "pending".to_owned(),
            summary: None,
            patch_path: None,
            created_at: seed.now.clone(),
            updated_at: seed.now.clone(),
        },
        evaluation: EvaluationRows {
            group: pending_group(
                ids.group,
                seed.workflow_id,
                None,
                strategy_str(seed.strategy),
                seed.quorum,
                0,
                &seed.now,
            ),
            members,
        },
    }
}

/// The rows of a competition.
#[derive(Debug, PartialEq, Eq)]
pub struct CompetitionRows {
    pub group: CompetitionGroupRow,
    pub candidates: Vec<CandidateRows>,
}

/// Whether a row is that of a competition that runs, with no winner yet.
pub open spec fn is_running_competition(
    r: CompetitionGroupRow,
    seed: CompetitionSeed,
    candidates: int,
) -> bool {
    &&& r.base_revision@ == "HEAD"@
    &&& r.status@ == "running"@
    &&& r == (CompetitionGroupRow {
        id: seed.group_id,
        workflow_id: seed.workflow_id,
        source_workspace: seed.source_workspace,
        base_revision: r.base_revision,
        candidate_count: candidates as i64,
        status: r.status,
        winner_candidate_id: None,
        winner_task_id: None,
        winner_workspace_id: None,
        winner_snapshot_hash: None,
        created_at: seed.now,
        updated_at: seed.now,
    })
}

/// The rows that a competition starts with: the competition, and for each
/// candidate its row, its evaluation group and that group's members.
pub fn competition_rows(
    seed: &CompetitionSeed,
    plans: &Vec<CandidatePlan>,
    ids: &Vec<CandidateIds>,
) -> (r: CompetitionRows)
    requires
        plans@.len() <= i64::MAX,
        ids@.len() == plans@.len(),
        forall|i: int|
            0 <= i < ids@.len() ==> (#[trigger] ids@[i]).members@.len()
                == plans@[i].evaluators@.len(),
    ensures
        is_running_competition(r.group, *seed, plans@.len() as int),
        r.candidates@.len() == plans@.len(),
        forall|i: int|
            0 <= i < plans@.len() ==> are_candidate_rows(
                #[trigger] r.candidates@[i],
                *seed,
                plans@[i],
                ids@[i],
            ),
{
    let mut candidates: Vec<CandidateRows> = Vec::new();
    let mut i: usize = 0;
    while i < plans.len()
        invariant
            i <= plans@.len(),
            ids@.len() == plans@.len(),
            candidates@.len() == i,
            forall|k: int|
                0 <= k < ids@.len() ==> (#[trigger] ids@[k]).members@.len()
                    == plans@[k].evaluators@.len(),
            forall|k: int|
                0 <= k < i ==> are_candidate_rows(
                    #[trigger] candidates@[k],
                    *seed,
                    plans@[k],
                    ids@[k],
                ),
        decreases plans.len() - i,
    {
        assert(ids@[i as int].members@.len() == plans@[i as int].evaluators@.len());
        candidates.push(candidate_rows(seed, &plans[i], &ids[i]));
        i += 1;
    }
    CompetitionRows {
        group: CompetitionGroupRow {
            id: seed.group_id,
            workflow_id: seed.workflow_id,
            source_workspace: clone_opt(&seed.source_workspace),
            base_revision: "HEAD".to_owned(),
            candidate_count: plans.len() as i64,
            status: "running".to_owned(),
            winner_candidate_id: None,
            winner_task_id: None,
            winner_workspace_id: None,
            winner_snapshot_hash: None,
            created_at: seed.now.clone(),
            updated_at: seed.now.clone(),
        },
        candidates,
    }
}

/// A strategy is read back from the text it is stored under.
pub proof fn strategy_text_is_read_back(strategy: ConsensusStrategy)
    ensures
        named_strategy(Some(strategy_text(strategy))) == strategy,
{
    reveal_strlit("majority");
    reveal_strlit("unanimous");
    assert("majority"@.len() == 8);
    assert("unanimous"@.len() == 9);
}

/// A group that is still to be evaluated has no consensus, no snapshot and no
/// end, and a member no task, result, error or end; both wait.
pub proof fn pending_rows_have_no_outcome(
    group: EvaluationGroupRow,
    member: EvaluationMemberRow,
    ids: (Uuid, Uuid, Uuid),
    source_task_id: Option<Uuid>,
    strategy: Seq<char>,
    quorum: i64,
    round: i64,
    node: Seq<char>,
    agent: Seq<char>,
    now: String,
)
    requires
        is_pending_group(group, ids.0, ids.1, source_task_id, strategy, quorum, round, now),
        is_pending_member(member, ids.2, ids.0, node, agent, now),
    ensures
        group.id == ids.0 && group.workflow_id == ids.1,
        group.source_task_id == source_task_id,
        group.strategy@ == strategy && group.quorum == quorum && group.round == round,
        group.status@ == "pending"@,
        group.consensus is None && group.snapshot_hash is None && group.completed_at is None,
        member.id == ids.2 && member.group_id == ids.0,
        member.node_id@ == node && member.agent_id@ == agent,
        member.status@ == "pending"@,
        member.task_id is None && member.result_json is None && member.error is None,
        group.created_at == now && member.created_at == now && member.completed_at is None,
{
}

/// The rows of a competition are linked: a candidate belongs to the competition
/// and names the group that evaluates it, and that group's members are its
/// evaluators, each under its own node and agent. Nothing has a task, a
/// snapshot or a winner yet.
pub proof fn candidate_rows_are_linked(
    r: CandidateRows,
    group: CompetitionGroupRow,
    seed: CompetitionSeed,
    plan: CandidatePlan,
    ids: CandidateIds,
    candidates: int,
    e: int,
)
    requires
        are_candidate_rows(r, seed, plan, ids),
        is_running_competition(group, seed, candidates),
        0 <= e < plan.evaluators@.len(),
        0 <= candidates <= i64::MAX,
    ensures
        r.candidate.group_id == group.id,
        r.candidate.candidate_id == plan.candidate_id,
        r.candidate.agent_id == plan.agent_id,
        r.candidate.session_lane == plan.lane,
        r.candidate.evaluation_group_id == Some(r.evaluation.group.id),
        r.candidate.task_id is None && r.candidate.workspace_id is None
            && r.candidate.snapshot_hash is None,
        r.evaluation.group.workflow_id == group.workflow_id,
        r.evaluation.group.quorum == seed.quorum,
        r.evaluation.group.round == 0,
        r.evaluation.members@.len() == plan.evaluators@.len(),
        r.evaluation.members@[e].group_id == r.evaluation.group.id,
        r.evaluation.members@[e].node_id@ == plan.evaluators@[e].node_id@,
        r.evaluation.members@[e].agent_id@ == plan.evaluators@[e].agent_id@,
        group.candidate_count == candidates,
        group.winner_candidate_id is None && group.winner_task_id is None
            && group.winner_workspace_id is None && group.winner_snapshot_hash is None,
{
    assert(is_pending_member(
        r.evaluation.members@[e],
        ids.members@[e],
        ids.group,
        plan.evaluators@[e].node_id@,
        plan.evaluators@[e].agent_id@,
        seed.now,
    ));
}

} // verus!
