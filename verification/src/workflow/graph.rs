//! The graph of a workflow and its persisted rows: reading one from the other.

use vstd::prelude::*;
use vstd::string::*;

use crate::collections::StringMap;
use crate::ids::Uuid;
use crate::model::{intent_key, TaskIntent};
use crate::text::{clone_opt, insert_unique, same_text, strictly_ascending, texts};
use crate::workflow::types::{is_invalid_state, DependencyEdge, NodeStatus, PersistedStepResult};
use crate::workflow::types::{StoredStep, WorkflowError, WorkflowNode, WorkflowRole, WorkflowStep};
use crate::workflow::types::{WorkflowStepRow, WorkflowStepStatus};

verus! {

/// Whether some edge says that `node` depends on `other`.
pub open spec fn depends_on(edges: Seq<DependencyEdge>, node: Seq<char>, other: Seq<char>) -> bool {
    exists|i: int|
        0 <= i < edges.len() && (#[trigger] edges[i]).node_id@ == node
            && edges[i].depends_on_node_id@ == other
}

/// Whether a list holds the dependencies of a node, each once, in ascending
/// order.
pub open spec fn is_dependency_list(
    list: Seq<Seq<char>>,
    edges: Seq<DependencyEdge>,
    node: Seq<char>,
) -> bool {
    &&& strictly_ascending(list)
    &&& forall|t: Seq<char>| #[trigger] list.contains(t) <==> depends_on(edges, node, t)
}

/// The dependencies of a node, each once, in ascending order.
pub fn dependencies_of(edges: &[DependencyEdge], node_id: &str) -> (r: Vec<String>)
    ensures
        is_dependency_list(texts(r@), edges@, node_id@),
{
    let mut r: Vec<String> = Vec::new();
    let mut i: usize = 0;
    assert(texts(r@) =~= Seq::<Seq<char>>::empty());
    while i < edges.len()
        invariant
            i <= edges@.len(),
            is_dependency_list(texts(r@), edges@.take(i as int), node_id@),
        decreases edges.len() - i,
    {
        let ghost done = edges@.take(i as int);
        let ghost next = edges@.take(i + 1);
        let ghost e = edges@[i as int];
        let ghost before = texts(r@);
        if same_text(edges[i].node_id.as_str(), node_id) {
            insert_unique(&mut r, edges[i].depends_on_node_id.as_str());
        }
        proof {
            assert forall|t: Seq<char>| #[trigger] texts(r@).contains(t) <==> depends_on(
                next,
                node_id@,
                t,
            ) by {
                assert(before.contains(t) <==> depends_on(done, node_id@, t));
                if depends_on(done, node_id@, t) {
                    let k = choose|k: int|
                        0 <= k < done.len() && (#[trigger] done[k]).node_id@ == node_id@
                            && done[k].depends_on_node_id@ == t;
                    assert(next[k] == done[k]);
                }
                if e.node_id@ == node_id@ && e.depends_on_node_id@ == t {
                    assert(next[i as int] == e);
                }
                if depends_on(next, node_id@, t) {
                    let k = choose|k: int|
                        0 <= k < next.len() && (#[trigger] next[k]).node_id@ == node_id@
                            && next[k].depends_on_node_id@ == t;
                    if k < i {
                        assert(done[k] == next[k]);
                    }
                }
            }
        }
        i += 1;
    }
    assert(edges@.take(i as int) =~= edges@);
    r
}

/// What makes a persisted row no node: a role or an intent that is unknown.
pub open spec fn row_fault(row: StoredStep) -> Option<Seq<char>> {
    if row.role.value is None {
        Some("unknown role "@ + row.role.text@)
    } else if !crate::config::validation::known_intent(row.intent@) {
        Some("unknown intent "@ + row.intent@)
    } else {
        None
    }
}

/// Whether a node is the one that a persisted row stands for, with this
/// objective.
pub open spec fn node_of_row(
    node: WorkflowNode,
    row: StoredStep,
    edges: Seq<DependencyEdge>,
    objective: Option<String>,
) -> bool {
    &&& row.node_id == Some(node.node_id)
    &&& row.role.value == Some(node.role)
    &&& row.intent@ == intent_key(node.intent)
    &&& is_dependency_list(texts(node.dependencies@), edges, node.node_id@)
    &&& node.objective == objective
}

fn read_intent(row: &StoredStep) -> (r: Option<TaskIntent>)
    ensures
        r is Some <==> crate::config::validation::known_intent(row.intent@),
        r matches Some(i) ==> row.intent@ == intent_key(i),
{
    let r = TaskIntent::from_key(row.intent.as_str());
    proof {
        if crate::config::validation::known_intent(row.intent@) {
            let k = choose|k: TaskIntent| row.intent@ == #[trigger] intent_key(k);
            assert(r == Some(k));
        }
        if let Some(k) = r {
            assert(row.intent@ == intent_key(k));
        }
    }
    r
}

fn read_node(
    row: &StoredStep,
    node_id: &String,
    edges: &[DependencyEdge],
    objective: Option<String>,
) -> (r: Result<WorkflowNode, WorkflowError>)
    requires
        row.node_id == Some(*node_id),
    ensures
        match row_fault(*row) {
            Some(reason) => is_invalid_state(r, reason),
            None => r matches Ok(node) && node_of_row(node, *row, edges@, objective),
        },
{
    let role = match &row.role.value {
        Some(role) => role.clone(),
        None => {
            return Err(
                WorkflowError::InvalidState(
                    "unknown role ".to_owned().concat(row.role.text.as_str()),
                ),
            );
        },
    };
    let intent = match read_intent(row) {
        Some(intent) => intent,
        None => {
            return Err(
                WorkflowError::InvalidState(
                    "unknown intent ".to_owned().concat(row.intent.as_str()),
                ),
            );
        },
    };
    Ok(
        WorkflowNode {
            node_id: node_id.clone(),
            role,
            intent,
            dependencies: dependencies_of(edges, node_id.as_str()),
            objective,
        },
    )
}

/// The rows of graph nodes; a step of a sequential workflow is none.
pub open spec fn node_rows(rows: Seq<StoredStep>) -> Seq<StoredStep>
    decreases rows.len(),
{
    if rows.len() == 0 {
        Seq::empty()
    } else if rows.last().node_id is Some {
        node_rows(rows.drop_last()).push(rows.last())
    } else {
        node_rows(rows.drop_last())
    }
}

/// The fault of the first faulty row.
pub open spec fn first_fault(rows: Seq<StoredStep>) -> Option<Seq<char>>
    decreases rows.len(),
{
    if rows.len() == 0 {
        None
    } else {
        match first_fault(rows.drop_last()) {
            Some(fault) => Some(fault),
            None => row_fault(rows.last()),
        }
    }
}

/// The scheduling status of every node; one that cannot be read is pending.
pub open spec fn row_statuses(rows: Seq<StoredStep>) -> Map<Seq<char>, NodeStatus>
    decreases rows.len(),
{
    if rows.len() == 0 {
        Map::empty()
    } else {
        let last = rows.last();
        row_statuses(rows.drop_last()).insert(
            (last.node_id->0)@,
            match last.node_status {
                Some(status) => status,
                None => NodeStatus::Pending,
            },
        )
    }
}

/// The summary of every node that has one.
pub open spec fn row_summaries(rows: Seq<StoredStep>) -> Map<Seq<char>, String>
    decreases rows.len(),
{
    if rows.len() == 0 {
        Map::empty()
    } else {
        let last = rows.last();
        match last.summary {
            Some(summary) => row_summaries(rows.drop_last()).insert((last.node_id->0)@, summary),
            None => row_summaries(rows.drop_last()),
        }
    }
}

/// The persisted graph of a workflow with its live state.
pub struct CurrentDag {
    pub nodes: Vec<WorkflowNode>,
    /// Node id to current scheduling status.
    pub statuses: StringMap<NodeStatus>,
    /// Node id to completed summary.
    pub summaries: StringMap<String>,
    pub graph_revision: i64,
}

proof fn first_fault_stays(rows: Seq<StoredStep>, n: int)
    requires
        0 <= n <= rows.len(),
        first_fault(node_rows(rows.take(n))) is Some,
    ensures
        first_fault(node_rows(rows)) == first_fault(node_rows(rows.take(n))),
    decreases rows.len() - n,
{
    if n < rows.len() {
        let a = rows.take(n);
        let b = rows.take(n + 1);
        assert(b.drop_last() =~= a);
        if b.last().node_id is Some {
            assert(node_rows(b).drop_last() =~= node_rows(a));
        }
        first_fault_stays(rows, n + 1);
    } else {
        assert(rows.take(n) =~= rows);
    }
}

/// The graph of a workflow, its node statuses and its completed summaries,
/// read from its rows and edges; nothing when it has no node rows.
pub fn current_dag(rows: &[StoredStep], edges: &[DependencyEdge], graph_revision: i64) -> (r: Result<
    Option<CurrentDag>,
    WorkflowError,
>)
    ensures
        match first_fault(node_rows(rows@)) {
            Some(reason) => is_invalid_state(r, reason),
            None => r matches Ok(dag) && match dag {
                None => node_rows(rows@).len() == 0,
                Some(dag) => {
                    &&& node_rows(rows@).len() > 0
                    &&& dag.nodes@.len() == node_rows(rows@).len()
                    &&& forall|i: int|
                        0 <= i < dag.nodes@.len() ==> node_of_row(
                            #[trigger] dag.nodes@[i],
                            node_rows(rows@)[i],
                            edges@,
                            node_rows(rows@)[i].objective,
                        )
                    &&& dag.statuses@ == row_statuses(node_rows(rows@))
                    &&& dag.summaries@ == row_summaries(node_rows(rows@))
                    &&& dag.graph_revision == graph_revision
                },
            },
        },
{
    let mut nodes: Vec<WorkflowNode> = Vec::new();
    let mut statuses: StringMap<NodeStatus> = StringMap::new();
    let mut summaries: StringMap<String> = StringMap::new();
    let mut i: usize = 0;
    while i < rows.len()
        invariant
            i <= rows@.len(),
            first_fault(node_rows(rows@.take(i as int))) is None,
            nodes@.len() == node_rows(rows@.take(i as int)).len(),
            forall|k: int|
                0 <= k < nodes@.len() ==> node_of_row(
                    #[trigger] nodes@[k],
                    node_rows(rows@.take(i as int))[k],
                    edges@,
                    node_rows(rows@.take(i as int))[k].objective,
                ),
            statuses@ == row_statuses(node_rows(rows@.take(i as int))),
            summaries@ == row_summaries(node_rows(rows@.take(i as int))),
        decreases rows.len() - i,
    {
        let row = &rows[i];
        let ghost a = rows@.take(i as int);
        let ghost b = rows@.take(i + 1);
        proof {
            assert(b.drop_last() =~= a);
            assert(b.last() == *row);
            if row.node_id is Some {
                assert(node_rows(b).drop_last() =~= node_rows(a));
            }
        }
        if let Some(node_id) = &row.node_id {
            let node = match read_node(row, node_id, edges, clone_opt(&row.objective)) {
                Ok(node) => node,
                Err(e) => {
                    proof {
                        first_fault_stays(rows@, i + 1);
                    }
                    return Err(e);
                },
            };
            nodes.push(node);
            let status = match row.node_status {
                Some(status) => status,
                None => NodeStatus::Pending,
            };
            statuses.insert(node_id.clone(), status);
            if let Some(summary) = &row.summary {
                summaries.insert(node_id.clone(), summary.clone());
            }
        }
        i += 1;
    }
    assert(rows@.take(i as int) =~= rows@);
    if nodes.len() == 0 {
        return Ok(None);
    }
    Ok(Some(CurrentDag { nodes, statuses, summaries, graph_revision }))
}

/// The status under which a node is persisted: a ready node is still pending.
pub open spec fn persisted_status(status: NodeStatus) -> WorkflowStepStatus {
    match status {
        NodeStatus::Pending => WorkflowStepStatus::Pending,
        NodeStatus::Ready => WorkflowStepStatus::Pending,
        NodeStatus::Running => WorkflowStepStatus::Running,
        NodeStatus::Completed => WorkflowStepStatus::Completed,
        NodeStatus::Failed => WorkflowStepStatus::Failed,
        NodeStatus::Skipped => WorkflowStepStatus::Skipped,
        NodeStatus::Cancelled => WorkflowStepStatus::Cancelled,
        NodeStatus::Interrupted => WorkflowStepStatus::Interrupted,
    }
}

fn to_step_status(status: NodeStatus) -> (r: WorkflowStepStatus)
    ensures
        r == persisted_status(status),
{
    match status {
        NodeStatus::Pending => WorkflowStepStatus::Pending,
        NodeStatus::Ready => WorkflowStepStatus::Pending,
        NodeStatus::Running => WorkflowStepStatus::Running,
        NodeStatus::Completed => WorkflowStepStatus::Completed,
        NodeStatus::Failed => WorkflowStepStatus::Failed,
        NodeStatus::Skipped => WorkflowStepStatus::Skipped,
        NodeStatus::Cancelled => WorkflowStepStatus::Cancelled,
        NodeStatus::Interrupted => WorkflowStepStatus::Interrupted,
    }
}

/// Where and when a row is written: its identity, its workflow, its place and
/// the time.
pub struct RowStamp {
    pub id: Uuid,
    pub workflow_id: Uuid,
    pub ordinal: usize,
    pub now: String,
}

/// The agent of a result, where there is one.
pub open spec fn result_agent(result: Option<&PersistedStepResult>) -> Option<String> {
    match result {
        Some(r) => r.agent_id,
        None => None,
    }
}

/// The task of a result, where there is one.
pub open spec fn result_task(result: Option<&PersistedStepResult>) -> Option<Uuid> {
    match result {
        Some(r) => r.task_id,
        None => None,
    }
}

/// The summary of a result, where there is one.
pub open spec fn result_summary(result: Option<&PersistedStepResult>) -> Option<String> {
    match result {
        Some(r) => r.summary,
        None => None,
    }
}

/// The row of a step: fresh, in the given status, with what its result holds.
pub open spec fn fresh_row(
    stamp: RowStamp,
    node_id: Option<String>,
    role: WorkflowRole,
    intent: TaskIntent,
    objective: Option<String>,
    status: WorkflowStepStatus,
    result: Option<&PersistedStepResult>,
    result_json: Option<String>,
    error: Option<String>,
) -> WorkflowStepRow {
    WorkflowStepRow {
        id: stamp.id,
        workflow_id: stamp.workflow_id,
        ordinal: stamp.ordinal as i64,
        node_id,
        role,
        intent,
        objective,
        status,
        agent_id: result_agent(result),
        task_id: result_task(result),
        review_round: 0,
        summary: result_summary(result),
        result_json,
        created_at: stamp.now,
        started_at: None,
        completed_at: None,
        error,
    }
}

/// The row of a step.
pub fn step_row(
    stamp: RowStamp,
    node_id: Option<String>,
    step: &WorkflowStep,
    status: WorkflowStepStatus,
    result: Option<&PersistedStepResult>,
    result_json: Option<String>,
    error: Option<String>,
) -> (r: WorkflowStepRow)
    requires
        stamp.ordinal <= i64::MAX,
    ensures
        r == fresh_row(
            stamp,
            node_id,
            step.role,
            step.intent,
            step.objective,
            status,
            result,
            result_json,
            error,
        ),
{
    let (agent_id, task_id, summary) = match result {
        Some(r) => (clone_opt(&r.agent_id), r.task_id, clone_opt(&r.summary)),
        None => (None, None, None),
    };
    WorkflowStepRow {
        id: stamp.id,
        workflow_id: stamp.workflow_id,
        ordinal: stamp.ordinal as i64,
        node_id,
        role: step.role.clone(),
        intent: step.intent,
        objective: clone_opt(&step.objective),
        status,
        agent_id,
        task_id,
        review_round: 0,
        summary,
        result_json,
        created_at: stamp.now,
        started_at: None,
        completed_at: None,
        error,
    }
}

/// The row of a graph node.
pub fn node_row(
    stamp: RowStamp,
    node: &WorkflowNode,
    status: NodeStatus,
    result: Option<&PersistedStepResult>,
    result_json: Option<String>,
    error: Option<String>,
) -> (r: WorkflowStepRow)
    requires
        stamp.ordinal <= i64::MAX,
    ensures
        r == fresh_row(
            stamp,
            Some(node.node_id),
            node.role,
            node.intent,
            node.objective,
            persisted_status(status),
            result,
            result_json,
            error,
        ),
{
    let step = WorkflowStep {
        id: node.node_id.clone(),
        role: node.role.clone(),
        intent: node.intent,
        objective: clone_opt(&node.objective),
    };
    step_row(
        stamp,
        Some(node.node_id.clone()),
        &step,
        to_step_status(status),
        result,
        result_json,
        error,
    )
}

/// The row of a node as the scheduler runs it: what its result holds, and
/// the agent assigned to it where the result names none.
pub fn live_node_row(
    stamp: RowStamp,
    node: &WorkflowNode,
    status: NodeStatus,
    result: Option<&PersistedStepResult>,
    result_json: Option<String>,
    assigned_agent: Option<String>,
) -> (r: WorkflowStepRow)
    requires
        stamp.ordinal <= i64::MAX,
    ensures
        r == (WorkflowStepRow {
            agent_id: match result_agent(result) {
                Some(agent) => Some(agent),
                None => assigned_agent,
            },
            ..fresh_row(
                stamp,
                Some(node.node_id),
                node.role,
                node.intent,
                node.objective,
                persisted_status(status),
                result,
                result_json,
                match result {
                    Some(p) => p.error,
                    None => None,
                },
            )
        }),
{
    let error = match result {
        Some(p) => clone_opt(&p.error),
        None => None,
    };
    let mut row = node_row(stamp, node, status, result, result_json, error);
    if row.agent_id.is_none() {
        row.agent_id = assigned_agent;
    }
    row
}

/// The row of a node that is in the stored graph already keeps what that row
/// holds; only its place, role, intent and objective come from the new graph.
pub open spec fn surviving_row(row: WorkflowStepRow, prior: StoredStep) -> WorkflowStepRow {
    WorkflowStepRow {
        agent_id: prior.agent_id,
        task_id: prior.task_id,
        summary: prior.summary,
        result_json: prior.result_json,
        started_at: prior.started_at,
        completed_at: prior.completed_at,
        error: prior.error,
        review_round: prior.review_round,
        created_at: prior.created_at,
        ..row
    }
}

/// The first stored row of a node.
pub open spec fn prior_row(existing: Seq<StoredStep>, node_id: Seq<char>) -> Option<StoredStep>
    decreases existing.len(),
{
    if existing.len() == 0 {
        None
    } else if existing[0].node_id matches Some(id) && id@ == node_id {
        Some(existing[0])
    } else {
        prior_row(existing.drop_first(), node_id)
    }
}

fn find_prior<'a>(existing: &'a [StoredStep], node_id: &str) -> (r: Option<&'a StoredStep>)
    ensures
        match r {
            Some(row) => prior_row(existing@, node_id@) == Some(*row),
            None => prior_row(existing@, node_id@) is None,
        },
{
    let mut i: usize = 0;
    assert(existing@.skip(0) =~= existing@);
    while i < existing.len()
        invariant
            i <= existing@.len(),
            prior_row(existing@, node_id@) == prior_row(existing@.skip(i as int), node_id@),
        decreases existing.len() - i,
    {
        assert(existing@.skip(i as int).drop_first() =~= existing@.skip(i + 1));
        if let Some(id) = &existing[i].node_id {
            if same_text(id.as_str(), node_id) {
                return Some(&existing[i]);
            }
        }
        i += 1;
    }
    None
}

/// The row of a node in a new graph: the surviving row of the same node, or a
/// fresh pending one.
pub open spec fn graph_row(
    workflow_id: Uuid,
    ordinal: int,
    id: Uuid,
    now: String,
    node: WorkflowNode,
    existing: Seq<StoredStep>,
) -> WorkflowStepRow {
    let prior = prior_row(existing, node.node_id@);
    let status = match prior {
        Some(p) => match p.node_status {
            Some(s) => s,
            None => NodeStatus::Pending,
        },
        None => NodeStatus::Pending,
    };
    let row = fresh_row(
        RowStamp { id, workflow_id, ordinal: ordinal as usize, now },
        Some(node.node_id),
        node.role,
        node.intent,
        node.objective,
        persisted_status(status),
        None,
        None,
        None,
    );
    match prior {
        Some(p) => surviving_row(row, p),
        None => row,
    }
}

/// The dependency edges of a graph, node by node.
pub open spec fn graph_edges(nodes: Seq<WorkflowNode>) -> Seq<(Seq<char>, Seq<char>)>
    decreases nodes.len(),
{
    if nodes.len() == 0 {
        Seq::empty()
    } else {
        graph_edges(nodes.drop_last()) + nodes.last().dependencies@.map_values(
            |d: String| (nodes.last().node_id@, d@),
        )
    }
}

/// The texts of a list of edges.
pub open spec fn edge_texts(edges: Seq<(String, String)>) -> Seq<(Seq<char>, Seq<char>)> {
    edges.map_values(|e: (String, String)| (e.0@, e.1@))
}

fn push_edges(edges: &mut Vec<(String, String)>, node: &WorkflowNode)
    ensures
        edge_texts(final(edges)@) == edge_texts(old(edges)@) + node.dependencies@.map_values(
            |d: String| (node.node_id@, d@),
        ),
{
    let ghost start = edge_texts(edges@);
    let ghost f = |d: String| (node.node_id@, d@);
    let mut i: usize = 0;
    assert(start + node.dependencies@.take(0).map_values(f) =~= start);
    while i < node.dependencies.len()
        invariant
            i <= node.dependencies@.len(),
            f == (|d: String| (node.node_id@, d@)),
            edge_texts(edges@) == start + node.dependencies@.take(i as int).map_values(f),
        decreases node.dependencies.len() - i,
    {
        let edge = (node.node_id.clone(), node.dependencies[i].clone());
        assert(edge_texts(edges@.push(edge)) =~= edge_texts(edges@).push((edge.0@, edge.1@)));
        edges.push(edge);
        assert(edge_texts(edges@) =~= start + node.dependencies@.take(i + 1).map_values(f));
        i += 1;
    }
    assert(node.dependencies@.take(i as int) =~= node.dependencies@);
}

/// The complete rows and edges of a new graph over the stored rows of a
/// workflow: a node that survives keeps its status, result and task, so a
/// completed or running node is never reset; a new node starts pending.
/// `ids` are fresh row identities, one per node.
pub fn build_graph_rows(
    workflow_id: Uuid,
    nodes: &Vec<WorkflowNode>,
    existing: &[StoredStep],
    ids: &Vec<Uuid>,
    now: &String,
) -> (r: (Vec<WorkflowStepRow>, Vec<(String, String)>))
    requires
        ids@.len() == nodes@.len(),
        nodes@.len() <= i64::MAX,
    ensures
        r.0@.len() == nodes@.len(),
        forall|i: int|
            0 <= i < nodes@.len() ==> #[trigger] r.0@[i] == graph_row(
                workflow_id,
                i,
                ids@[i],
                *now,
                nodes@[i],
                existing@,
            ),
        edge_texts(r.1@) == graph_edges(nodes@),
{
    let mut rows: Vec<WorkflowStepRow> = Vec::new();
    let mut edges: Vec<(String, String)> = Vec::new();
    let mut i: usize = 0;
    assert(edge_texts(edges@) =~= Seq::<(Seq<char>, Seq<char>)>::empty());
    while i < nodes.len()
        invariant
            i <= nodes@.len(),
            ids@.len() == nodes@.len(),
            nodes@.len() <= i64::MAX,
            rows@.len() == i,
            forall|k: int|
                0 <= k < i ==> #[trigger] rows@[k] == graph_row(
                    workflow_id,
                    k,
                    ids@[k],
                    *now,
                    nodes@[k],
                    existing@,
                ),
            edge_texts(edges@) == graph_edges(nodes@.take(i as int)),
        decreases nodes.len() - i,
    {
        let node = &nodes[i];
        let prior = find_prior(existing, node.node_id.as_str());
        let status = match prior {
            Some(p) => match p.node_status {
                Some(status) => status,
                None => NodeStatus::Pending,
            },
            None => NodeStatus::Pending,
        };
        let stamp = RowStamp { id: ids[i], workflow_id, ordinal: i, now: now.clone() };
        let mut row = node_row(stamp, node, status, None, None, None);
        if let Some(p) = prior {
            row.agent_id = clone_opt(&p.agent_id);
            row.task_id = p.task_id;
            row.summary = clone_opt(&p.summary);
            row.result_json = clone_opt(&p.result_json);
            row.started_at = clone_opt(&p.started_at);
            row.completed_at = clone_opt(&p.completed_at);
            row.error = clone_opt(&p.error);
            row.review_round = p.review_round;
            row.created_at = p.created_at.clone();
        }
        rows.push(row);
        push_edges(&mut edges, node);
        proof {
            assert(nodes@.take(i + 1).drop_last() =~= nodes@.take(i as int));
            assert(nodes@.take(i + 1).last() == nodes@[i as int]);
        }
        i += 1;
    }
    assert(nodes@.take(i as int) =~= nodes@);
    (rows, edges)
}

/// The rows of a fix round's graph, in which the new fixer carries the agent
/// that is to run it.
pub fn assign_fixer(rows: Vec<WorkflowStepRow>, fixer_id: &str, agent: Option<&String>) -> (r: Vec<
    WorkflowStepRow,
>)
    ensures
        r@.len() == rows@.len(),
        forall|i: int|
            0 <= i < rows@.len() ==> #[trigger] r@[i] == (if agent is Some && is_first_row(
                rows@,
                fixer_id@,
                i,
            ) {
                WorkflowStepRow { agent_id: Some(*agent->0), ..rows@[i] }
            } else {
                rows@[i]
            }),
{
    let ghost before = rows@;
    let mut out = rows;
    if let Some(name) = agent {
        let mut i: usize = 0;
        while i < out.len()
            invariant
                i <= out@.len(),
                out@ == before,
                before == rows@,
                agent == Some(name),
                forall|k: int| 0 <= k < i ==> !is_row_of(#[trigger] before[k], fixer_id@),
            decreases out.len() - i,
        {
            let found = match &out[i].node_id {
                Some(id) => same_text(id.as_str(), fixer_id),
                None => false,
            };
            if found {
                let row = out.remove(i);
                let mut row = row;
                row.agent_id = Some(name.clone());
                out.insert(i, row);
                assert forall|k: int| 0 <= k < before.len() implies #[trigger] out@[k] == (
                if is_first_row(before, fixer_id@, k) {
                    WorkflowStepRow { agent_id: Some(*name), ..before[k] }
                } else {
                    before[k]
                }) by {
                    if k > i {
                        assert(is_row_of(before[i as int], fixer_id@));
                    }
                }
                return out;
            }
            i += 1;
        }
    }
    out
}

/// Whether a row is the row of a node.
pub open spec fn is_row_of(row: WorkflowStepRow, node_id: Seq<char>) -> bool {
    row.node_id matches Some(id) && id@ == node_id
}

/// Whether a row is the first row of a node.
pub open spec fn is_first_row(rows: Seq<WorkflowStepRow>, node_id: Seq<char>, i: int) -> bool {
    is_row_of(rows[i], node_id) && forall|k: int| 0 <= k < i ==> !is_row_of(#[trigger] rows[k], node_id)
}

/// A node that has a stored row keeps its status, its result and its task when
/// the graph is replaced; a node without one starts pending.
pub proof fn replaced_graph_keeps_progress(
    workflow_id: Uuid,
    ordinal: int,
    id: Uuid,
    now: String,
    node: WorkflowNode,
    existing: Seq<StoredStep>,
)
    ensures
        ({
            let row = graph_row(workflow_id, ordinal, id, now, node, existing);
            match prior_row(existing, node.node_id@) {
                Some(p) => {
                    &&& p.node_status matches Some(s) ==> row.status == persisted_status(s)
                    &&& row.task_id == p.task_id
                    &&& row.agent_id == p.agent_id
                    &&& row.result_json == p.result_json
                    &&& row.summary == p.summary
                    &&& row.error == p.error
                },
                None => row.status == WorkflowStepStatus::Pending && row.task_id is None
                    && row.result_json is None,
            }
        }),
{
}

/// A node is persisted under the status it has; only a ready one still counts as
/// pending.
pub proof fn persisted_status_is_the_own_one(status: NodeStatus)
    ensures
        persisted_status(status) == WorkflowStepStatus::Pending <==> status == NodeStatus::Pending
            || status == NodeStatus::Ready,
        persisted_status(status) == WorkflowStepStatus::Running <==> status == NodeStatus::Running,
        persisted_status(status) == WorkflowStepStatus::Completed <==> status
            == NodeStatus::Completed,
        persisted_status(status) == WorkflowStepStatus::Failed <==> status == NodeStatus::Failed,
        persisted_status(status) == WorkflowStepStatus::Skipped <==> status == NodeStatus::Skipped,
        persisted_status(status) == WorkflowStepStatus::Cancelled <==> status
            == NodeStatus::Cancelled,
        persisted_status(status) == WorkflowStepStatus::Interrupted <==> status
            == NodeStatus::Interrupted,
{
}

/// A node that is read from a row waits for another exactly when an edge says
/// so, and has the row's id, role and intent.
pub proof fn read_node_waits_for_its_edges(
    node: WorkflowNode,
    row: StoredStep,
    edges: Seq<DependencyEdge>,
    objective: Option<String>,
    other: Seq<char>,
)
    requires
        node_of_row(node, row, edges, objective),
    ensures
        row.node_id == Some(node.node_id),
        row.role.value == Some(node.role),
        row.intent@ == intent_key(node.intent),
        node.objective == objective,
        (exists|i: int|
            0 <= i < node.dependencies@.len() && (#[trigger] node.dependencies@[i])@ == other) <==> (
        exists|k: int|
            0 <= k < edges.len() && (#[trigger] edges[k]).node_id@ == node.node_id@
                && edges[k].depends_on_node_id@ == other),
{
    let list = texts(node.dependencies@);
    assert(list.contains(other) <==> depends_on(edges, node.node_id@, other));
    if list.contains(other) {
        let i = choose|i: int| 0 <= i < list.len() && list[i] == other;
        assert(node.dependencies@[i]@ == other);
    }
    if exists|i: int| 0 <= i < node.dependencies@.len() && (#[trigger] node.dependencies@[i])@
        == other {
        let i = choose|i: int|
            0 <= i < node.dependencies@.len() && (#[trigger] node.dependencies@[i])@ == other;
        assert(list[i] == other);
    }
}

/// A row is a node exactly when its role and its intent can be read.
pub proof fn readable_rows_are_nodes(row: StoredStep)
    ensures
        row_fault(row) is None <==> row.role.value is Some
            && crate::config::validation::known_intent(row.intent@),
{
}

/// One more row adds a node exactly when it has a node id; the first fault stays
/// the first.
pub proof fn one_more_row_adds_a_node(rows: Seq<StoredStep>, row: StoredStep)
    ensures
        node_rows(Seq::empty()).len() == 0,
        row.node_id is Some ==> node_rows(rows.push(row)) == node_rows(rows).push(row),
        row.node_id is None ==> node_rows(rows.push(row)) == node_rows(rows),
        first_fault(Seq::empty()) is None,
        first_fault(rows) is Some ==> first_fault(rows.push(row)) == first_fault(rows),
        first_fault(rows) is None ==> first_fault(rows.push(row)) == row_fault(row),
{
    assert(rows.push(row).drop_last() =~= rows);
}

/// The state of a graph is that of its last rows: one more row sets the status
/// and the summary of its own node and of no other.
pub proof fn one_more_row_sets_its_node(rows: Seq<StoredStep>, row: StoredStep, other: Seq<char>)
    requires
        row.node_id is Some,
        other != (row.node_id->0)@,
    ensures
        ({
            let id = (row.node_id->0)@;
            let statuses = row_statuses(rows.push(row));
            let summaries = row_summaries(rows.push(row));
            &&& statuses.dom().contains(id)
            &&& row.node_status matches Some(status) ==> statuses[id] == status
            &&& row.node_status is None ==> statuses[id] == NodeStatus::Pending
            &&& statuses.dom().contains(other) <==> row_statuses(rows).dom().contains(other)
            &&& statuses.dom().contains(other) ==> statuses[other] == row_statuses(rows)[other]
            &&& row.summary matches Some(summary) ==> summaries.dom().contains(id) && summaries[id]
                == summary
            &&& row.summary is None ==> summaries == row_summaries(rows)
            &&& summaries.dom().contains(other) <==> row_summaries(rows).dom().contains(other)
            &&& summaries.dom().contains(other) ==> summaries[other] == row_summaries(rows)[other]
        }),
{
    assert(rows.push(row).drop_last() =~= rows);
}

/// A fresh row holds what its result holds, under its own id, place and status,
/// and has neither started nor ended.
pub proof fn fresh_row_holds_its_result(
    stamp: RowStamp,
    node_id: Option<String>,
    role: WorkflowRole,
    intent: TaskIntent,
    objective: Option<String>,
    status: WorkflowStepStatus,
    result: Option<&PersistedStepResult>,
    result_json: Option<String>,
    error: Option<String>,
)
    ensures
        ({
            let row = fresh_row(
                stamp,
                node_id,
                role,
                intent,
                objective,
                status,
                result,
                result_json,
                error,
            );
            &&& row.id == stamp.id && row.workflow_id == stamp.workflow_id && row.ordinal
                == stamp.ordinal as i64 && row.created_at == stamp.now
            &&& row.node_id == node_id && row.role == role && row.intent == intent && row.objective
                == objective
            &&& row.status == status && row.result_json == result_json && row.error == error
            &&& result matches Some(p) ==> row.agent_id == p.agent_id && row.task_id == p.task_id
                && row.summary == p.summary
            &&& result is None ==> row.agent_id is None && row.task_id is None
                && row.summary is None
            &&& row.started_at is None && row.completed_at is None && row.review_round == 0
        }),
{
}

/// When a graph is replaced, a node that was there keeps everything of its first
/// stored row but its place, role, intent and objective, which the new graph
/// gives; a node that was not starts pending and empty.
pub proof fn replaced_graph_keeps_stored_rows(
    workflow_id: Uuid,
    ordinal: int,
    id: Uuid,
    now: String,
    node: WorkflowNode,
    existing: Seq<StoredStep>,
    i: int,
)
    requires
        0 <= ordinal <= i64::MAX && ordinal <= usize::MAX,
        0 <= i <= existing.len(),
        forall|k: int|
            0 <= k < i ==> !((#[trigger] existing[k]).node_id matches Some(n) && n@
                == node.node_id@),
        i < existing.len() ==> existing[i].node_id is Some && existing[i].node_id->0@
            == node.node_id@,
    ensures
        ({
            let row = graph_row(workflow_id, ordinal, id, now, node, existing);
            let p = existing[i];
            &&& row.id == id && row.workflow_id == workflow_id && row.ordinal == ordinal
            &&& row.node_id == Some(node.node_id) && row.role == node.role && row.intent
                == node.intent && row.objective == node.objective
            &&& i < existing.len() ==> {
                &&& p.node_status == Some(NodeStatus::Completed) ==> row.status
                    == WorkflowStepStatus::Completed
                &&& p.node_status == Some(NodeStatus::Running) ==> row.status
                    == WorkflowStepStatus::Running
                &&& p.node_status == Some(NodeStatus::Failed) ==> row.status
                    == WorkflowStepStatus::Failed
                &&& row.agent_id == p.agent_id && row.task_id == p.task_id
                &&& row.summary == p.summary && row.result_json == p.result_json
                &&& row.error == p.error && row.review_round == p.review_round
                &&& row.started_at == p.started_at && row.completed_at == p.completed_at
                &&& row.created_at == p.created_at
            }
            &&& i == existing.len() ==> {
                &&& row.status == WorkflowStepStatus::Pending
                &&& row.agent_id is None && row.task_id is None && row.summary is None
                &&& row.result_json is None && row.error is None && row.review_round == 0
                &&& row.started_at is None && row.completed_at is None && row.created_at == now
            }
        }),
{
    first_row_is_prior(existing, node.node_id@, i);
}

proof fn first_row_is_prior(existing: Seq<StoredStep>, node_id: Seq<char>, i: int)
    requires
        0 <= i <= existing.len(),
        forall|k: int|
            0 <= k < i ==> !((#[trigger] existing[k]).node_id matches Some(n) && n@ == node_id),
        i < existing.len() ==> existing[i].node_id is Some && existing[i].node_id->0@ == node_id,
    ensures
        i < existing.len() ==> prior_row(existing, node_id) == Some(existing[i]),
        i == existing.len() ==> prior_row(existing, node_id) is None,
    decreases i,
{
    if i > 0 {
        let rest = existing.drop_first();
        assert(!(existing[0].node_id matches Some(n) && n@ == node_id));
        assert forall|k: int| 0 <= k < i - 1 implies !((
        #[trigger] rest[k]).node_id matches Some(n) && n@ == node_id) by {
            assert(rest[k] == existing[k + 1]);
        }
        if i < existing.len() {
            assert(rest[i - 1] == existing[i]);
        }
        first_row_is_prior(rest, node_id, i - 1);
    }
}

/// The stored edges of a graph are exactly the dependencies of its nodes.
pub proof fn stored_edges_are_the_dependencies(
    nodes: Seq<WorkflowNode>,
    node: Seq<char>,
    other: Seq<char>,
)
    ensures
        graph_edges(nodes).contains((node, other)) <==> exists|i: int, k: int|
            0 <= i < nodes.len() && 0 <= k < nodes[i].dependencies@.len() && nodes[i].node_id@
                == node && (#[trigger] nodes[i].dependencies@[k])@ == other,
    decreases nodes.len(),
{
    if nodes.len() > 0 {
        let rest = nodes.drop_last();
        let last = nodes.last();
        let new = last.dependencies@.map_values(|d: String| (last.node_id@, d@));
        stored_edges_are_the_dependencies(rest, node, other);
        let all = graph_edges(nodes);
        assert(all == graph_edges(rest) + new);
        if graph_edges(rest).contains((node, other)) {
            let n = choose|n: int|
                0 <= n < graph_edges(rest).len() && graph_edges(rest)[n] == (node, other);
            assert(all[n] == (node, other));
            let (i, k) = choose|i: int, k: int|
                0 <= i < rest.len() && 0 <= k < rest[i].dependencies@.len() && rest[i].node_id@
                    == node && (#[trigger] rest[i].dependencies@[k])@ == other;
            assert(nodes[i].dependencies@[k]@ == other);
        }
        if all.contains((node, other)) && !graph_edges(rest).contains((node, other)) {
            let n = choose|n: int| 0 <= n < all.len() && all[n] == (node, other);
            if n < graph_edges(rest).len() {
                assert(graph_edges(rest)[n] == (node, other));
            }
            let k = n - graph_edges(rest).len();
            assert(new[k] == (node, other));
            assert(nodes[nodes.len() - 1].dependencies@[k]@ == other);
        }
        if exists|i: int, k: int|
            0 <= i < nodes.len() && 0 <= k < nodes[i].dependencies@.len() && nodes[i].node_id@
                == node && (#[trigger] nodes[i].dependencies@[k])@ == other {
            let (i, k) = choose|i: int, k: int|
                0 <= i < nodes.len() && 0 <= k < nodes[i].dependencies@.len() && nodes[i].node_id@
                    == node && (#[trigger] nodes[i].dependencies@[k])@ == other;
            if i < rest.len() {
                assert(rest[i].dependencies@[k]@ == other);
            } else {
                assert(new[k] == (node, other));
                assert(all[graph_edges(rest).len() + k] == (node, other));
            }
        }
    }
}

/// Only the first row of the fixer is given an agent.
pub proof fn first_row_is_the_one_assigned(
    rows: Seq<WorkflowStepRow>,
    node_id: Seq<char>,
    i: int,
    k: int,
)
    requires
        0 <= i < rows.len(),
        0 <= k < rows.len(),
    ensures
        is_first_row(rows, node_id, i) ==> rows[i].node_id is Some && rows[i].node_id->0@
            == node_id,
        is_first_row(rows, node_id, i) && is_first_row(rows, node_id, k) ==> i == k,
        rows[k].node_id is Some && rows[k].node_id->0@ == node_id && is_first_row(rows, node_id, i)
            ==> i <= k,
{
    if is_first_row(rows, node_id, i) && is_row_of(rows[k], node_id) && k < i {
        assert(!is_row_of(rows[k], node_id));
    }
    if is_first_row(rows, node_id, i) && is_first_row(rows, node_id, k) && i < k {
        assert(!is_row_of(rows[i], node_id));
    }
}

} // verus!
