//! Resuming a workflow: what its persisted rows say is done, and what is left.

use vstd::prelude::*;
use vstd::string::*;

use crate::collections::StringMap;
use crate::config::validation::known_intent;
use crate::ids::Uuid;
use crate::model::{intent_key, TaskIntent};
use crate::text::{ascending, clone_opt, insert_sorted, same_text, texts};
use crate::workflow::graph::{node_of_row, dependencies_of};
use crate::workflow::types::{is_invalid_state, DependencyEdge, NodeStatus};
use crate::workflow::types::{PersistedStepResult, ReviewVerdict, StoredStep, StoredWorkflow};
use crate::workflow::types::{WorkflowError, WorkflowNode, WorkflowStatus, WorkflowStep};
use crate::workflow::types::WorkflowStepStatus;

verus! {

/// Only an interrupted workflow resumes.
pub fn resume_gate(row: &StoredWorkflow) -> (r: Result<(), WorkflowError>)
    ensures
        match row.status.value {
            None => is_invalid_state(r, "unknown status "@ + row.status.text@),
            Some(status) => if status == WorkflowStatus::Interrupted {
                r is Ok
            } else {
                r == Err::<(), WorkflowError>(WorkflowError::NotResumable(row.id, row.status.text))
            },
        },
        r is Ok <==> row.status.value == Some(WorkflowStatus::Interrupted),
{
    match row.status.value {
        None => Err(
            WorkflowError::InvalidState(
                "unknown status ".to_owned().concat(row.status.text.as_str()),
            ),
        ),
        Some(status) => {
            if status == WorkflowStatus::Interrupted {
                Ok(())
            } else {
                Err(WorkflowError::NotResumable(row.id, row.status.text.clone()))
            }
        },
    }
}

/// Whether the stored plan still gives the objectives of a resumed workflow:
/// only as long as its graph was never replaced.
pub fn plan_graph_applies(graph_revision: i64) -> (r: bool)
    ensures
        r == (graph_revision <= 1),
{
    graph_revision <= 1
}

/// A workflow is a graph when it has a node row.
pub fn is_dag(rows: &[StoredStep]) -> (r: bool)
    ensures
        r == exists|i: int| 0 <= i < rows@.len() && (#[trigger] rows@[i]).node_id is Some,
{
    let mut i: usize = 0;
    while i < rows.len()
        invariant
            i <= rows@.len(),
            forall|k: int| 0 <= k < i ==> (#[trigger] rows@[k]).node_id is None,
        decreases rows.len() - i,
    {
        if rows[i].node_id.is_some() {
            return true;
        }
        i += 1;
    }
    false
}

/// The first node of an id.
pub open spec fn find_node(nodes: Seq<WorkflowNode>, node_id: Seq<char>) -> Option<WorkflowNode>
    decreases nodes.len(),
{
    if nodes.len() == 0 {
        None
    } else if nodes[0].node_id@ == node_id {
        Some(nodes[0])
    } else {
        find_node(nodes.drop_first(), node_id)
    }
}

/// The first node of an id.
pub fn get_node<'a>(nodes: &'a Vec<WorkflowNode>, node_id: &str) -> (r: Option<&'a WorkflowNode>)
    ensures
        match r {
            Some(node) => find_node(nodes@, node_id@) == Some(*node),
            None => find_node(nodes@, node_id@) is None,
        },
{
    let mut i: usize = 0;
    assert(nodes@.skip(0) =~= nodes@);
    while i < nodes.len()
        invariant
            i <= nodes@.len(),
            find_node(nodes@, node_id@) == find_node(nodes@.skip(i as int), node_id@),
        decreases nodes.len() - i,
    {
        assert(nodes@.skip(i as int).drop_first() =~= nodes@.skip(i + 1));
        if same_text(nodes[i].node_id.as_str(), node_id) {
            return Some(&nodes[i]);
        }
        i += 1;
    }
    None
}

/// The objective of a resumed node: its own, or that of the stored plan.
pub open spec fn seed_objective(row: StoredStep, plan: Option<&Vec<WorkflowNode>>) -> Option<
    String,
> {
    match row.objective {
        Some(objective) => Some(objective),
        None => match (plan, row.node_id) {
            (Some(nodes), Some(id)) => match find_node(nodes@, id@) {
                Some(node) => node.objective,
                None => None,
            },
            _ => None,
        },
    }
}

/// What keeps a persisted row from being resumed.
pub open spec fn seed_fault(row: StoredStep) -> Option<Seq<char>> {
    if row.role.value is None {
        Some("unknown role "@ + row.role.text@)
    } else if row.node_id is None {
        Some("resumed workflow has no node_id"@)
    } else if !known_intent(row.intent@) {
        Some("unknown intent "@ + row.intent@)
    } else {
        None
    }
}

/// The fault of the first row that cannot be resumed.
pub open spec fn first_seed_fault(rows: Seq<StoredStep>) -> Option<Seq<char>>
    decreases rows.len(),
{
    if rows.len() == 0 {
        None
    } else {
        match first_seed_fault(rows.drop_last()) {
            Some(fault) => Some(fault),
            None => seed_fault(rows.last()),
        }
    }
}

proof fn seed_fault_stays(rows: Seq<StoredStep>, n: int)
    requires
        0 <= n <= rows.len(),
        first_seed_fault(rows.take(n)) is Some,
    ensures
        first_seed_fault(rows) == first_seed_fault(rows.take(n)),
    decreases rows.len() - n,
{
    if n < rows.len() {
        assert(rows.take(n + 1).drop_last() =~= rows.take(n));
        seed_fault_stays(rows, n + 1);
    } else {
        assert(rows.take(n) =~= rows);
    }
}

fn seed_node(
    row: &StoredStep,
    edges: &[DependencyEdge],
    plan: Option<&Vec<WorkflowNode>>,
) -> (r: Result<WorkflowNode, WorkflowError>)
    ensures
        match seed_fault(*row) {
            Some(reason) => is_invalid_state(r, reason),
            None => r matches Ok(node) && node_of_row(
                node,
                *row,
                edges@,
                seed_objective(*row, plan),
            ),
        },
{
    let role = match &row.role.value {
        Some(role) => role.clone(),
        None => {
            return Err(
                WorkflowError::InvalidState(
                    "unknown role ".to_owned().concat(row.role.text.as_str()),
                ),
            );
        },
    };
    let node_id = match &row.node_id {
        Some(node_id) => node_id.clone(),
        None => {
            return Err(WorkflowError::InvalidState("resumed workflow has no node_id".to_owned()));
        },
    };
    let key = TaskIntent::from_key(row.intent.as_str());
    proof {
        if known_intent(row.intent@) {
            let k = choose|k: TaskIntent| row.intent@ == #[trigger] intent_key(k);
            assert(key == Some(k));
        }
        if let Some(k) = key {
            assert(row.intent@ == intent_key(k));
        }
    }
    let intent = match key {
        Some(intent) => intent,
        None => {
            return Err(
                WorkflowError::InvalidState(
                    "unknown intent ".to_owned().concat(row.intent.as_str()),
                ),
            );
        },
    };
    let objective = match &row.objective {
        Some(objective) => Some(objective.clone()),
        None => match plan {
            Some(nodes) => match get_node(nodes, node_id.as_str()) {
                Some(node) => clone_opt(&node.objective),
                None => None,
            },
            None => None,
        },
    };
    let dependencies = dependencies_of(edges, node_id.as_str());
    Ok(WorkflowNode { node_id, role, intent, dependencies, objective })
}

/// The nodes of a resumed workflow, one per row.
pub fn seed_nodes(
    rows: &[StoredStep],
    edges: &[DependencyEdge],
    plan: Option<&Vec<WorkflowNode>>,
) -> (r: Result<Vec<WorkflowNode>, WorkflowError>)
    ensures
        match first_seed_fault(rows@) {
            Some(reason) => is_invalid_state(r, reason),
            None => r matches Ok(nodes) && nodes@.len() == rows@.len() && forall|i: int|
                0 <= i < rows@.len() ==> node_of_row(
                    #[trigger] nodes@[i],
                    rows@[i],
                    edges@,
                    seed_objective(rows@[i], plan),
                ),
        },
{
    let mut nodes: Vec<WorkflowNode> = Vec::new();
    let mut i: usize = 0;
    while i < rows.len()
        invariant
            i <= rows@.len(),
            nodes@.len() == i,
            first_seed_fault(rows@.take(i as int)) is None,
            forall|k: int|
                0 <= k < i ==> node_of_row(
                    #[trigger] nodes@[k],
                    rows@[k],
                    edges@,
                    seed_objective(rows@[k], plan),
                ),
        decreases rows.len() - i,
    {
        proof {
            assert(rows@.take(i + 1).drop_last() =~= rows@.take(i as int));
            assert(rows@.take(i + 1).last() == rows@[i as int]);
        }
        match seed_node(&rows[i], edges, plan) {
            Ok(node) => {
                nodes.push(node);
            },
            Err(e) => {
                proof {
                    seed_fault_stays(rows@, i + 1);
                }
                return Err(e);
            },
        }
        i += 1;
    }
    assert(rows@.take(i as int) =~= rows@);
    Ok(nodes)
}

/// The place of a row in a resumed run.
pub enum Progress {
    /// The node is over, with this result.
    Done(PersistedStepResult),
    /// The node has not started.
    Waiting(Seq<char>),
    /// The node was running when the workflow stopped.
    Stopped(Seq<char>),
    /// The row cannot be read.
    Unreadable(Seq<char>),
}

/// The id of a node row; a row without one counts under the empty id.
pub open spec fn row_node(row: StoredStep) -> Seq<char> {
    match row.node_id {
        Some(id) => id@,
        None => Seq::empty(),
    }
}

/// The result of a finished row: the stored result, with the row's task where
/// a node that did not complete names none; else one rebuilt from the row.
pub open spec fn restored_result(row: StoredStep, completed: bool) -> Option<PersistedStepResult> {
    match row.result {
        Some(result) => if completed || result.task_id is Some {
            Some(result)
        } else {
            Some(PersistedStepResult { task_id: row.task_id, ..result })
        },
        None => match (row.role.value, row.plain_step) {
            (Some(_), Some(step)) => Some(
                PersistedStepResult {
                    step,
                    status: if completed {
                        WorkflowStepStatus::Completed
                    } else {
                        match row.status.value {
                            Some(status) => status,
                            None => WorkflowStepStatus::Failed,
                        }
                    },
                    agent_id: row.agent_id,
                    task_id: row.task_id,
                    summary: row.summary,
                    review_result: None,
                    error: row.error,
                },
            ),
            _ => None,
        },
    }
}

/// The place of a row in a resumed run.
pub open spec fn row_progress(row: StoredStep) -> Progress {
    match row.node_status {
        None => Progress::Unreadable("unknown node status "@ + row.status.text@),
        Some(status) => match status {
            NodeStatus::Pending | NodeStatus::Ready => Progress::Waiting(row_node(row)),
            NodeStatus::Running | NodeStatus::Interrupted => Progress::Stopped(row_node(row)),
            NodeStatus::Completed => match restored_result(row, true) {
                Some(result) => Progress::Done(result),
                None => Progress::Unreadable("unknown role "@ + row.role.text@),
            },
            NodeStatus::Failed | NodeStatus::Skipped | NodeStatus::Cancelled => {
                match restored_result(row, false) {
                    Some(result) => Progress::Done(result),
                    None => Progress::Unreadable("unknown role "@ + row.role.text@),
                }
            },
        },
    }
}

/// The results of the rows that are over, in order.
pub open spec fn done_results(rows: Seq<StoredStep>) -> Seq<PersistedStepResult>
    decreases rows.len(),
{
    if rows.len() == 0 {
        Seq::empty()
    } else {
        match row_progress(rows.last()) {
            Progress::Done(result) => done_results(rows.drop_last()).push(result),
            _ => done_results(rows.drop_last()),
        }
    }
}

/// The ids of the rows that have not started, in the order of the rows.
pub open spec fn waiting_nodes(rows: Seq<StoredStep>) -> Seq<Seq<char>>
    decreases rows.len(),
{
    if rows.len() == 0 {
        Seq::empty()
    } else {
        match row_progress(rows.last()) {
            Progress::Waiting(id) => waiting_nodes(rows.drop_last()).push(id),
            _ => waiting_nodes(rows.drop_last()),
        }
    }
}

/// The ids of the rows that were stopped, in the order of the rows.
pub open spec fn stopped_nodes(rows: Seq<StoredStep>) -> Seq<Seq<char>>
    decreases rows.len(),
{
    if rows.len() == 0 {
        Seq::empty()
    } else {
        match row_progress(rows.last()) {
            Progress::Stopped(id) => stopped_nodes(rows.drop_last()).push(id),
            _ => stopped_nodes(rows.drop_last()),
        }
    }
}

/// Why the first row that cannot be read cannot be.
pub open spec fn first_unreadable(rows: Seq<StoredStep>) -> Option<Seq<char>>
    decreases rows.len(),
{
    if rows.len() == 0 {
        None
    } else {
        match first_unreadable(rows.drop_last()) {
            Some(reason) => Some(reason),
            None => match row_progress(rows.last()) {
                Progress::Unreadable(reason) => Some(reason),
                _ => None,
            },
        }
    }
}

proof fn unreadable_stays(rows: Seq<StoredStep>, n: int)
    requires
        0 <= n <= rows.len(),
        first_unreadable(rows.take(n)) is Some,
    ensures
        first_unreadable(rows) == first_unreadable(rows.take(n)),
    decreases rows.len() - n,
{
    if n < rows.len() {
        assert(rows.take(n + 1).drop_last() =~= rows.take(n));
        unreadable_stays(rows, n + 1);
    } else {
        assert(rows.take(n) =~= rows);
    }
}

fn restore_result(row: &StoredStep, completed: bool) -> (r: Option<PersistedStepResult>)
    ensures
        r == restored_result(*row, completed),
{
    match &row.result {
        Some(result) => {
            let mut result = result.clone();
            if !completed && result.task_id.is_none() {
                result.task_id = row.task_id;
            }
            Some(result)
        },
        None => match (&row.role.value, &row.plain_step) {
            (Some(_), Some(step)) => {
                let status = if completed {
                    WorkflowStepStatus::Completed
                } else {
                    match row.status.value {
                        Some(status) => status,
                        None => WorkflowStepStatus::Failed,
                    }
                };
                Some(
                    PersistedStepResult {
                        step: step.clone(),
                        status,
                        agent_id: clone_opt(&row.agent_id),
                        task_id: row.task_id,
                        summary: clone_opt(&row.summary),
                        review_result: None,
                        error: clone_opt(&row.error),
                    },
                )
            },
            _ => None,
        },
    }
}

/// What a resumed run starts from.
pub struct SeedProgress {
    /// The results of the nodes that are over.
    pub completed: Vec<PersistedStepResult>,
    /// The nodes that have not started, in ascending order.
    pub pending: Vec<String>,
    /// The nodes that were running when the workflow stopped, in ascending
    /// order.
    pub interrupted: Vec<String>,
}

fn row_id(row: &StoredStep) -> (r: String)
    ensures
        r@ == row_node(*row),
{
    match &row.node_id {
        Some(id) => id.clone(),
        None => String::new(),
    }
}

fn unknown_role(row: &StoredStep) -> (e: WorkflowError)
    ensures
        e matches WorkflowError::InvalidState(text) && text@ == "unknown role "@ + row.role.text@,
{
    WorkflowError::InvalidState("unknown role ".to_owned().concat(row.role.text.as_str()))
}

/// What the rows of a workflow say is done, not started and interrupted.
pub fn seed_progress(rows: &[StoredStep]) -> (r: Result<SeedProgress, WorkflowError>)
    ensures
        match first_unreadable(rows@) {
            Some(reason) => is_invalid_state(r, reason),
            None => r matches Ok(seed) && {
                &&& seed.completed@ == done_results(rows@)
                &&& ascending(texts(seed.pending@))
                &&& texts(seed.pending@).to_multiset() == waiting_nodes(rows@).to_multiset()
                &&& ascending(texts(seed.interrupted@))
                &&& texts(seed.interrupted@).to_multiset() == stopped_nodes(rows@).to_multiset()
            },
        },
        r matches Ok(seed) ==> forall|t: Seq<char>| #[trigger]
            texts(seed.pending@).contains(t) <==> exists|i: int|
                0 <= i < rows@.len() && ((#[trigger] rows@[i]).node_status == Some(
                    NodeStatus::Pending,
                ) || rows@[i].node_status == Some(NodeStatus::Ready)) && row_node(rows@[i]) == t,
        r matches Ok(seed) ==> forall|t: Seq<char>| #[trigger]
            texts(seed.interrupted@).contains(t) <==> exists|i: int|
                0 <= i < rows@.len() && ((#[trigger] rows@[i]).node_status == Some(
                    NodeStatus::Running,
                ) || rows@[i].node_status == Some(NodeStatus::Interrupted)) && row_node(rows@[i])
                    == t,
        r matches Ok(seed) ==> forall|i: int|
            0 <= i < rows@.len() && ((#[trigger] rows@[i]).node_status == Some(
                NodeStatus::Completed,
            ) || rows@[i].node_status == Some(NodeStatus::Failed) || rows@[i].node_status == Some(
                NodeStatus::Skipped,
            ) || rows@[i].node_status == Some(NodeStatus::Cancelled)) ==> exists|k: int|
                0 <= k < seed.completed@.len() && is_result_of_row(
                    #[trigger] seed.completed@[k],
                    rows@[i],
                ),
{
    let mut completed: Vec<PersistedStepResult> = Vec::new();
    let mut pending: Vec<String> = Vec::new();
    let mut interrupted: Vec<String> = Vec::new();
    let mut i: usize = 0;
    proof {
        assert(texts(pending@) =~= Seq::<Seq<char>>::empty());
        assert(texts(interrupted@) =~= Seq::<Seq<char>>::empty());
    }
    while i < rows.len()
        invariant
            i <= rows@.len(),
            first_unreadable(rows@.take(i as int)) is None,
            completed@ == done_results(rows@.take(i as int)),
            ascending(texts(pending@)),
            texts(pending@).to_multiset() == waiting_nodes(rows@.take(i as int)).to_multiset(),
            ascending(texts(interrupted@)),
            texts(interrupted@).to_multiset() == stopped_nodes(rows@.take(i as int)).to_multiset(),
        decreases rows.len() - i,
    {
        let row = &rows[i];
        let ghost a = rows@.take(i as int);
        let ghost b = rows@.take(i + 1);
        proof {
            assert(b.drop_last() =~= a);
            assert(b.last() == *row);
            waiting_nodes(a).to_multiset_ensures();
            stopped_nodes(a).to_multiset_ensures();
        }
        let status = match row.node_status {
            Some(status) => status,
            None => {
                proof {
                    unreadable_stays(rows@, i + 1);
                }
                return Err(
                    WorkflowError::InvalidState(
                        "unknown node status ".to_owned().concat(row.status.text.as_str()),
                    ),
                );
            },
        };
        match status {
            NodeStatus::Pending | NodeStatus::Ready => {
                insert_sorted(&mut pending, row_id(row));
            },
            NodeStatus::Running | NodeStatus::Interrupted => {
                insert_sorted(&mut interrupted, row_id(row));
            },
            NodeStatus::Completed => {
                match restore_result(row, true) {
                    Some(result) => {
                        completed.push(result);
                    },
                    None => {
                        proof {
                            unreadable_stays(rows@, i + 1);
                        }
                        return Err(unknown_role(row));
                    },
                }
            },
            NodeStatus::Failed | NodeStatus::Skipped | NodeStatus::Cancelled => {
                match restore_result(row, false) {
                    Some(result) => {
                        completed.push(result);
                    },
                    None => {
                        proof {
                            unreadable_stays(rows@, i + 1);
                        }
                        return Err(unknown_role(row));
                    },
                }
            },
        }
        i += 1;
    }
    assert(rows@.take(i as int) =~= rows@);
    let seed = SeedProgress { completed, pending, interrupted };
    proof {
        waiting_rows_are_the_unstarted(rows@);
        stopped_rows_are_the_running(rows@);
        same_multiset_contains(texts(seed.pending@), waiting_nodes(rows@));
        same_multiset_contains(texts(seed.interrupted@), stopped_nodes(rows@));
        assert forall|k: int| 0 <= k < rows@.len() && ((#[trigger] rows@[k]).node_status == Some(
            NodeStatus::Completed,
        ) || rows@[k].node_status == Some(NodeStatus::Failed) || rows@[k].node_status == Some(
            NodeStatus::Skipped,
        ) || rows@[k].node_status == Some(NodeStatus::Cancelled)) implies exists|n: int|
            0 <= n < seed.completed@.len() && is_result_of_row(#[trigger] seed.completed@[n], rows@[k]) by {
            terminal_rows_keep_their_result(rows@, k);
            let n = choose|n: int|
                0 <= n < done_results(rows@).len() && is_result_of_row(
                    #[trigger] done_results(rows@)[n],
                    rows@[k],
                );
            assert(is_result_of_row(seed.completed@[n], rows@[k]));
        }
        assert forall|t: Seq<char>| #[trigger] texts(seed.pending@).contains(t) <==> exists|n: int|
            0 <= n < rows@.len() && ((#[trigger] rows@[n]).node_status == Some(
                NodeStatus::Pending,
            ) || rows@[n].node_status == Some(NodeStatus::Ready)) && row_node(rows@[n]) == t by {
            assert(texts(seed.pending@).contains(t) <==> waiting_nodes(rows@).contains(t));
        }
        assert forall|t: Seq<char>| #[trigger] texts(seed.interrupted@).contains(t) <==> exists|n: int|
            0 <= n < rows@.len() && ((#[trigger] rows@[n]).node_status == Some(
                NodeStatus::Running,
            ) || rows@[n].node_status == Some(NodeStatus::Interrupted)) && row_node(rows@[n])
                == t by {
            assert(texts(seed.interrupted@).contains(t) <==> stopped_nodes(rows@).contains(t));
        }
    }
    Ok(seed)
}

/// Whether a result is what a finished row holds: the stored result, or one with
/// the row's own fields where none is stored.
pub open spec fn is_result_of_row(result: PersistedStepResult, row: StoredStep) -> bool {
    match row.result {
        Some(stored) => {
            &&& result.step == stored.step
            &&& result.status == stored.status
            &&& result.agent_id == stored.agent_id
            &&& result.summary == stored.summary
            &&& result.review_result == stored.review_result
            &&& result.error == stored.error
            &&& stored.task_id is Some ==> result.task_id == stored.task_id
            &&& stored.task_id is None && row.node_status == Some(NodeStatus::Completed)
                ==> result.task_id is None
            &&& stored.task_id is None && row.node_status != Some(NodeStatus::Completed)
                ==> result.task_id == row.task_id
        },
        None => {
            &&& row.plain_step == Some(result.step)
            &&& result.agent_id == row.agent_id
            &&& result.task_id == row.task_id
            &&& result.summary == row.summary
            &&& result.error == row.error
            &&& result.review_result is None
            &&& row.node_status == Some(NodeStatus::Completed) ==> result.status
                == WorkflowStepStatus::Completed
            &&& row.node_status != Some(NodeStatus::Completed) && row.status.value is Some
                ==> row.status.value == Some(result.status)
            &&& row.node_status != Some(NodeStatus::Completed) && row.status.value is None
                ==> result.status == WorkflowStepStatus::Failed
        },
    }
}

proof fn same_multiset_contains<A>(a: Seq<A>, b: Seq<A>)
    requires
        a.to_multiset() == b.to_multiset(),
    ensures
        forall|x: A| #[trigger] a.contains(x) <==> b.contains(x),
{
    a.to_multiset_ensures();
    b.to_multiset_ensures();
    assert forall|x: A| #[trigger] a.contains(x) <==> b.contains(x) by {
        assert(a.contains(x) <==> a.to_multiset().count(x) > 0);
        assert(b.contains(x) <==> b.to_multiset().count(x) > 0);
    }
}

proof fn push_contains<A>(s: Seq<A>, a: A)
    ensures
        forall|x: A| #[trigger] s.push(a).contains(x) <==> s.contains(x) || x == a,
{
    assert forall|x: A| #[trigger] s.push(a).contains(x) <==> s.contains(x) || x == a by {
        if s.contains(x) {
            let i = choose|i: int| 0 <= i < s.len() && s[i] == x;
            assert(s.push(a)[i] == x);
        }
        assert(s.push(a)[s.len() as int] == a);
        if s.push(a).contains(x) && x != a {
            let i = choose|i: int| 0 <= i < s.push(a).len() && s.push(a)[i] == x;
            assert(s[i] == x);
        }
    }
}

/// The nodes that wait in a resumed run are exactly those of the rows that are
/// pending or ready: no node that is over is queued again.
pub proof fn waiting_rows_are_the_unstarted(rows: Seq<StoredStep>)
    requires
        first_unreadable(rows) is None,
    ensures
        forall|t: Seq<char>| #[trigger]
            waiting_nodes(rows).contains(t) <==> exists|i: int|
                0 <= i < rows.len() && ((#[trigger] rows[i]).node_status == Some(
                    NodeStatus::Pending,
                ) || rows[i].node_status == Some(NodeStatus::Ready)) && row_node(rows[i]) == t,
    decreases rows.len(),
{
    if rows.len() > 0 {
        let rest = rows.drop_last();
        waiting_rows_are_the_unstarted(rest);
        push_contains(waiting_nodes(rest), row_node(rows.last()));
        assert forall|t: Seq<char>| #[trigger]
            waiting_nodes(rows).contains(t) <==> exists|i: int|
                0 <= i < rows.len() && ((#[trigger] rows[i]).node_status == Some(
                    NodeStatus::Pending,
                ) || rows[i].node_status == Some(NodeStatus::Ready)) && row_node(rows[i]) == t by {
            let last = rows[rows.len() - 1];
            if waiting_nodes(rest).contains(t) {
                let i = choose|i: int|
                    0 <= i < rest.len() && ((#[trigger] rest[i]).node_status == Some(
                        NodeStatus::Pending,
                    ) || rest[i].node_status == Some(NodeStatus::Ready)) && row_node(rest[i]) == t;
                assert(rows[i] == rest[i]);
            }
            if exists|i: int|
                0 <= i < rows.len() && ((#[trigger] rows[i]).node_status == Some(
                    NodeStatus::Pending,
                ) || rows[i].node_status == Some(NodeStatus::Ready)) && row_node(rows[i]) == t {
                let i = choose|i: int|
                    0 <= i < rows.len() && ((#[trigger] rows[i]).node_status == Some(
                        NodeStatus::Pending,
                    ) || rows[i].node_status == Some(NodeStatus::Ready)) && row_node(rows[i]) == t;
                if i < rest.len() {
                    assert(rest[i] == rows[i]);
                }
            }
        }
    }
}

/// The nodes that were interrupted in a resumed run are exactly those of the
/// rows that are running or interrupted.
pub proof fn stopped_rows_are_the_running(rows: Seq<StoredStep>)
    requires
        first_unreadable(rows) is None,
    ensures
        forall|t: Seq<char>| #[trigger]
            stopped_nodes(rows).contains(t) <==> exists|i: int|
                0 <= i < rows.len() && ((#[trigger] rows[i]).node_status == Some(
                    NodeStatus::Running,
                ) || rows[i].node_status == Some(NodeStatus::Interrupted)) && row_node(rows[i])
                    == t,
    decreases rows.len(),
{
    if rows.len() > 0 {
        let rest = rows.drop_last();
        stopped_rows_are_the_running(rest);
        push_contains(stopped_nodes(rest), row_node(rows.last()));
        assert forall|t: Seq<char>| #[trigger]
            stopped_nodes(rows).contains(t) <==> exists|i: int|
                0 <= i < rows.len() && ((#[trigger] rows[i]).node_status == Some(
                    NodeStatus::Running,
                ) || rows[i].node_status == Some(NodeStatus::Interrupted)) && row_node(rows[i])
                    == t by {
            let last = rows[rows.len() - 1];
            if stopped_nodes(rest).contains(t) {
                let i = choose|i: int|
                    0 <= i < rest.len() && ((#[trigger] rest[i]).node_status == Some(
                        NodeStatus::Running,
                    ) || rest[i].node_status == Some(NodeStatus::Interrupted)) && row_node(rest[i])
                        == t;
                assert(rows[i] == rest[i]);
            }
            if exists|i: int|
                0 <= i < rows.len() && ((#[trigger] rows[i]).node_status == Some(
                    NodeStatus::Running,
                ) || rows[i].node_status == Some(NodeStatus::Interrupted)) && row_node(rows[i])
                    == t {
                let i = choose|i: int|
                    0 <= i < rows.len() && ((#[trigger] rows[i]).node_status == Some(
                        NodeStatus::Running,
                    ) || rows[i].node_status == Some(NodeStatus::Interrupted)) && row_node(rows[i])
                        == t;
                if i < rest.len() {
                    assert(rest[i] == rows[i]);
                }
            }
        }
    }
}

/// A row whose node is over (completed, failed, skipped or cancelled) is
/// restored as a result, the one it holds.
pub proof fn terminal_rows_keep_their_result(rows: Seq<StoredStep>, i: int)
    requires
        first_unreadable(rows) is None,
        0 <= i < rows.len(),
        rows[i].node_status == Some(NodeStatus::Completed) || rows[i].node_status == Some(
            NodeStatus::Failed,
        ) || rows[i].node_status == Some(NodeStatus::Skipped) || rows[i].node_status == Some(
            NodeStatus::Cancelled,
        ),
    ensures
        exists|k: int|
            0 <= k < done_results(rows).len() && is_result_of_row(
                #[trigger] done_results(rows)[k],
                rows[i],
            ),
    decreases rows.len(),
{
    let rest = rows.drop_last();
    let done = done_results(rows);
    if i < rest.len() {
        assert(rest[i] == rows[i]);
        terminal_rows_keep_their_result(rest, i);
        let k = choose|k: int|
            0 <= k < done_results(rest).len() && is_result_of_row(
                #[trigger] done_results(rest)[k],
                rest[i],
            );
        assert(done[k] == done_results(rest)[k]);
    } else {
        assert(rows.last() == rows[i]);
        assert(is_result_of_row(done[done.len() - 1], rows[i]));
    }
}

/// What one more row adds to a resumed run: a result where its node is over,
/// and then nothing else; a waiting node where it has not started; an
/// interrupted one where it was running.
pub proof fn one_more_row_has_one_place(rows: Seq<StoredStep>, row: StoredStep)
    requires
        first_unreadable(rows.push(row)) is None,
    ensures
        row.node_status == Some(NodeStatus::Completed) || row.node_status == Some(
            NodeStatus::Failed,
        ) || row.node_status == Some(NodeStatus::Skipped) || row.node_status == Some(
            NodeStatus::Cancelled,
        ) <==> done_results(rows.push(row)).len() == done_results(rows).len() + 1,
        row.node_status == Some(NodeStatus::Pending) || row.node_status == Some(NodeStatus::Ready)
            <==> waiting_nodes(rows.push(row)) == waiting_nodes(rows).push(row_node(row)),
        row.node_status == Some(NodeStatus::Running) || row.node_status == Some(
            NodeStatus::Interrupted,
        ) <==> stopped_nodes(rows.push(row)) == stopped_nodes(rows).push(row_node(row)),
        done_results(rows.push(row)).take(done_results(rows).len() as int) == done_results(rows),
{
    let more = rows.push(row);
    assert(more.drop_last() =~= rows);
    assert(done_results(more).take(done_results(rows).len() as int) =~= done_results(rows));
    assert(waiting_nodes(rows).len() != waiting_nodes(rows).push(row_node(row)).len());
    assert(stopped_nodes(rows).len() != stopped_nodes(rows).push(row_node(row)).len());
}

/// Every row of a resumed workflow has exactly one place: done, waiting or
/// stopped.
pub proof fn every_row_has_one_place(rows: Seq<StoredStep>)
    requires
        first_unreadable(rows) is None,
    ensures
        done_results(rows).len() + waiting_nodes(rows).len() + stopped_nodes(rows).len()
            == rows.len(),
    decreases rows.len(),
{
    if rows.len() > 0 {
        every_row_has_one_place(rows.drop_last());
    }
}

/// A node that is over is never run again: its row is neither waiting nor
/// stopped.
pub proof fn completed_rows_are_done(row: StoredStep)
    requires
        row.node_status == Some(NodeStatus::Completed) || row.node_status == Some(
            NodeStatus::Failed,
        ) || row.node_status == Some(NodeStatus::Skipped) || row.node_status == Some(
            NodeStatus::Cancelled,
        ),
    ensures
        !(row_progress(row) is Waiting),
        !(row_progress(row) is Stopped),
{
}

/// The agents assigned to nodes, by node id.
pub open spec fn assigned_agents(rows: Seq<StoredStep>) -> Map<Seq<char>, String>
    decreases rows.len(),
{
    if rows.len() == 0 {
        Map::empty()
    } else {
        match (rows.last().node_id, rows.last().agent_id) {
            (Some(node), Some(agent)) => assigned_agents(rows.drop_last()).insert(node@, agent),
            _ => assigned_agents(rows.drop_last()),
        }
    }
}

/// The agents assigned to nodes, so that an interrupted node resumes with the
/// agent it had.
pub fn agent_assignments(rows: &[StoredStep]) -> (r: StringMap<String>)
    ensures
        r@ == assigned_agents(rows@),
{
    let mut r: StringMap<String> = StringMap::new();
    let mut i: usize = 0;
    while i < rows.len()
        invariant
            i <= rows@.len(),
            r@ == assigned_agents(rows@.take(i as int)),
        decreases rows.len() - i,
    {
        proof {
            assert(rows@.take(i + 1).drop_last() =~= rows@.take(i as int));
            assert(rows@.take(i + 1).last() == rows@[i as int]);
        }
        if let Some(node) = &rows[i].node_id {
            if let Some(agent) = &rows[i].agent_id {
                r.insert(node.clone(), agent.clone());
            }
        }
        i += 1;
    }
    assert(rows@.take(i as int) =~= rows@);
    r
}

/// The handoff to rebuild for a finished step: from its task's artifacts.
pub struct HandoffRequest {
    pub step_id: String,
    pub task_id: Uuid,
    /// The agent of the step; empty where none is known.
    pub agent_id: String,
    pub summary: Option<String>,
}

/// Whether a request is the one for a result with a task id.
pub open spec fn is_handoff_of(request: HandoffRequest, result: PersistedStepResult) -> bool {
    &&& request.step_id == result.step.id
    &&& result.task_id == Some(request.task_id)
    &&& request.agent_id@ == (match result.agent_id {
        Some(agent) => agent@,
        None => Seq::empty(),
    })
    &&& request.summary == result.summary
}

fn handoff_of(result: &PersistedStepResult, task_id: Uuid) -> (r: HandoffRequest)
    requires
        result.task_id == Some(task_id),
    ensures
        is_handoff_of(r, *result),
{
    let agent_id = match &result.agent_id {
        Some(agent) => agent.clone(),
        None => String::new(),
    };
    HandoffRequest {
        step_id: result.step.id.clone(),
        task_id,
        agent_id,
        summary: clone_opt(&result.summary),
    }
}

/// The results that have a task.
pub open spec fn with_task(results: Seq<PersistedStepResult>) -> Seq<PersistedStepResult>
    decreases results.len(),
{
    if results.len() == 0 {
        Seq::empty()
    } else if results.last().task_id is Some {
        with_task(results.drop_last()).push(results.last())
    } else {
        with_task(results.drop_last())
    }
}

/// The handoffs to rebuild so that the children of finished nodes resume with
/// the same inputs: one per result that has a task.
pub fn handoff_requests(completed: &Vec<PersistedStepResult>) -> (r: Vec<HandoffRequest>)
    ensures
        r@.len() == with_task(completed@).len(),
        forall|i: int|
            0 <= i < r@.len() ==> is_handoff_of(#[trigger] r@[i], with_task(completed@)[i]),
{
    let mut r: Vec<HandoffRequest> = Vec::new();
    let mut i: usize = 0;
    while i < completed.len()
        invariant
            i <= completed@.len(),
            r@.len() == with_task(completed@.take(i as int)).len(),
            forall|k: int|
                0 <= k < r@.len() ==> is_handoff_of(
                    #[trigger] r@[k],
                    with_task(completed@.take(i as int))[k],
                ),
        decreases completed.len() - i,
    {
        proof {
            assert(completed@.take(i + 1).drop_last() =~= completed@.take(i as int));
            assert(completed@.take(i + 1).last() == completed@[i as int]);
        }
        if let Some(task_id) = completed[i].task_id {
            r.push(handoff_of(&completed[i], task_id));
        }
        i += 1;
    }
    assert(completed@.take(i as int) =~= completed@);
    r
}

/// The handoff from which a sequential workflow continues: that of its last
/// completed step, which must have a task.
pub fn rebuild_previous(completed: &Vec<PersistedStepResult>) -> (r: Result<
    Option<HandoffRequest>,
    WorkflowError,
>)
    ensures
        completed@.len() == 0 ==> r == Ok::<Option<HandoffRequest>, WorkflowError>(None),
        completed@.len() > 0 && completed@.last().task_id is None ==> is_invalid_state(
            r,
            "completed step has no task id"@,
        ),
        completed@.len() > 0 && completed@.last().task_id is Some ==> (r matches Ok(Some(request))
            && is_handoff_of(request, completed@.last())),
        r is Ok <==> completed@.len() == 0 || completed@.last().task_id is Some,
{
    if completed.len() == 0 {
        return Ok(None);
    }
    let last = &completed[completed.len() - 1];
    match last.task_id {
        None => Err(WorkflowError::InvalidState("completed step has no task id".to_owned())),
        Some(task_id) => Ok(Some(handoff_of(last, task_id))),
    }
}

/// Whether a row of a sequential workflow is a completed step.
pub open spec fn row_completed(row: StoredStep) -> bool {
    row.status.value == Some(WorkflowStepStatus::Completed)
}

/// What keeps a completed row from being rebuilt: an unknown role, or without
/// a stored result an unknown intent.
pub open spec fn completed_fault(row: StoredStep) -> Option<Seq<char>> {
    if !row_completed(row) {
        None
    } else if row.role.value is None {
        Some("unknown role "@ + row.role.text@)
    } else if row.result is None && !known_intent(row.intent@) {
        Some("unknown intent "@ + row.intent@)
    } else {
        None
    }
}

/// The fault of the first completed row that cannot be rebuilt.
pub open spec fn first_completed_fault(rows: Seq<StoredStep>) -> Option<Seq<char>>
    decreases rows.len(),
{
    if rows.len() == 0 {
        None
    } else {
        match first_completed_fault(rows.drop_last()) {
            Some(fault) => Some(fault),
            None => completed_fault(rows.last()),
        }
    }
}

/// The completed rows, in order.
pub open spec fn completed_rows(rows: Seq<StoredStep>) -> Seq<StoredStep>
    decreases rows.len(),
{
    if rows.len() == 0 {
        Seq::empty()
    } else if row_completed(rows.last()) {
        completed_rows(rows.drop_last()).push(rows.last())
    } else {
        completed_rows(rows.drop_last())
    }
}

/// Whether a result is the one of a completed row: the stored one, or one
/// rebuilt from the row's columns under the name of its role.
pub open spec fn is_completed_result(result: PersistedStepResult, row: StoredStep) -> bool {
    match row.result {
        Some(stored) => result == stored,
        None => {
            &&& row.role.value == Some(result.step.role)
            &&& result.step.id == result.step.role.key
            &&& intent_key(result.step.intent) == row.intent@
            &&& result.step.objective is None
            &&& result.status == WorkflowStepStatus::Completed
            &&& result.agent_id == row.agent_id
            &&& result.task_id == row.task_id
            &&& result.summary == row.summary
            &&& result.review_result is None
            &&& result.error == row.error
        },
    }
}

proof fn completed_fault_stays(rows: Seq<StoredStep>, n: int)
    requires
        0 <= n <= rows.len(),
        first_completed_fault(rows.take(n)) is Some,
    ensures
        first_completed_fault(rows) == first_completed_fault(rows.take(n)),
    decreases rows.len() - n,
{
    if n < rows.len() {
        assert(rows.take(n + 1).drop_last() =~= rows.take(n));
        completed_fault_stays(rows, n + 1);
    } else {
        assert(rows.take(n) =~= rows);
    }
}

fn rebuild_step(row: &StoredStep) -> (r: Result<PersistedStepResult, WorkflowError>)
    requires
        row_completed(*row),
    ensures
        match completed_fault(*row) {
            Some(reason) => is_invalid_state(r, reason),
            None => r matches Ok(result) && is_completed_result(result, *row),
        },
{
    let role = match &row.role.value {
        Some(role) => role.clone(),
        None => {
            return Err(unknown_role(row));
        },
    };
    if let Some(result) = &row.result {
        return Ok(result.clone());
    }
    let key = TaskIntent::from_key(row.intent.as_str());
    proof {
        if known_intent(row.intent@) {
            let k = choose|k: TaskIntent| row.intent@ == #[trigger] intent_key(k);
            assert(key == Some(k));
        }
        if let Some(k) = key {
            assert(row.intent@ == intent_key(k));
        }
    }
    match key {
        None => Err(
            WorkflowError::InvalidState("unknown intent ".to_owned().concat(row.intent.as_str())),
        ),
        Some(intent) => Ok(
            PersistedStepResult {
                step: WorkflowStep { id: role.key.clone(), role, intent, objective: None },
                status: WorkflowStepStatus::Completed,
                agent_id: clone_opt(&row.agent_id),
                task_id: row.task_id,
                summary: clone_opt(&row.summary),
                review_result: None,
                error: clone_opt(&row.error),
            },
        ),
    }
}

/// The results of the completed steps of a sequential workflow, in order.
pub fn rebuild_completed(rows: &[StoredStep]) -> (r: Result<
    Vec<PersistedStepResult>,
    WorkflowError,
>)
    ensures
        match first_completed_fault(rows@) {
            Some(reason) => is_invalid_state(r, reason),
            None => r matches Ok(results) && results@.len() == completed_rows(rows@).len()
                && forall|i: int|
                0 <= i < results@.len() ==> is_completed_result(
                    #[trigger] results@[i],
                    completed_rows(rows@)[i],
                ),
        },
{
    let mut completed: Vec<PersistedStepResult> = Vec::new();
    let mut i: usize = 0;
    while i < rows.len()
        invariant
            i <= rows@.len(),
            first_completed_fault(rows@.take(i as int)) is None,
            completed@.len() == completed_rows(rows@.take(i as int)).len(),
            forall|k: int|
                0 <= k < completed@.len() ==> is_completed_result(
                    #[trigger] completed@[k],
                    completed_rows(rows@.take(i as int))[k],
                ),
        decreases rows.len() - i,
    {
        let row = &rows[i];
        proof {
            assert(rows@.take(i + 1).drop_last() =~= rows@.take(i as int));
            assert(rows@.take(i + 1).last() == *row);
        }
        let is_completed = match row.status.value {
            Some(status) => status == WorkflowStepStatus::Completed,
            None => false,
        };
        if is_completed {
            match rebuild_step(row) {
                Ok(result) => {
                    completed.push(result);
                },
                Err(e) => {
                    proof {
                        completed_fault_stays(rows@, i + 1);
                    }
                    return Err(e);
                },
            }
        }
        i += 1;
    }
    assert(rows@.take(i as int) =~= rows@);
    Ok(completed)
}

/// Whether a result is a review that asks for changes.
pub open spec fn asks_for_changes(result: PersistedStepResult) -> bool {
    result.step.role.reviewer && (result.review_result matches Some(review)
        && review.verdict.changes_requested)
}

/// How many of the results are reviews that ask for changes.
pub open spec fn change_requests(results: Seq<PersistedStepResult>) -> nat
    decreases results.len(),
{
    if results.len() == 0 {
        0
    } else {
        change_requests(results.drop_last()) + if asks_for_changes(results.last()) {
            1nat
        } else {
            0nat
        }
    }
}

/// How many of the first `n` results are reviews that ask for changes: the
/// review rounds that were taken by then.
pub fn review_rounds(results: &[PersistedStepResult], n: usize) -> (r: usize)
    requires
        n <= results@.len(),
    ensures
        r == change_requests(results@.take(n as int)),
        r <= n,
{
    let mut rounds: usize = 0;
    let mut i: usize = 0;
    while i < n
        invariant
            i <= n <= results@.len(),
            rounds == change_requests(results@.take(i as int)),
            rounds <= i,
        decreases n - i,
    {
        proof {
            assert(results@.take(i + 1).drop_last() =~= results@.take(i as int));
            assert(results@.take(i + 1).last() == results@[i as int]);
        }
        let asks = match &results[i].review_result {
            Some(review) => results[i].step.role.reviewer && review.verdict.changes_requested,
            None => false,
        };
        if asks {
            rounds += 1;
        }
        i += 1;
    }
    rounds
}

/// The verdict of the last completed review among the rows.
pub open spec fn last_verdict(rows: Seq<StoredStep>) -> Option<ReviewVerdict>
    decreases rows.len(),
{
    if rows.len() == 0 {
        None
    } else {
        let row = rows.last();
        if row_completed(row) && (row.result matches Some(result) && result.step.role.reviewer
            && result.review_result is Some) {
            Some(row.result->0.review_result->0.verdict)
        } else {
            last_verdict(rows.drop_last())
        }
    }
}

/// The verdict of the last completed review of a workflow.
pub fn final_verdict(rows: &[StoredStep]) -> (r: Option<ReviewVerdict>)
    ensures
        r == last_verdict(rows@),
{
    let mut i: usize = rows.len();
    assert(rows@.take(rows@.len() as int) =~= rows@);
    while i > 0
        invariant
            i <= rows@.len(),
            last_verdict(rows@) == last_verdict(rows@.take(i as int)),
        decreases i,
    {
        i -= 1;
        let row = &rows[i];
        proof {
            assert(rows@.take(i + 1).drop_last() =~= rows@.take(i as int));
            assert(rows@.take(i + 1).last() == *row);
        }
        let is_completed = match row.status.value {
            Some(status) => status == WorkflowStepStatus::Completed,
            None => false,
        };
        if is_completed {
            if let Some(result) = &row.result {
                if result.step.role.reviewer {
                    if let Some(review) = &result.review_result {
                        return Some(review.verdict.clone());
                    }
                }
            }
        }
    }
    None
}

/// The objective of a resumed node is its own where it has one; else that of the
/// first node of the plan with its id.
pub proof fn resumed_node_keeps_its_objective(
    row: StoredStep,
    plan: &Vec<WorkflowNode>,
    i: int,
)
    requires
        row.node_id is Some,
        0 <= i < plan@.len(),
        plan@[i].node_id@ == row.node_id->0@,
        forall|k: int| 0 <= k < i ==> (#[trigger] plan@[k]).node_id@ != row.node_id->0@,
    ensures
        row.objective is Some ==> seed_objective(row, Some(plan)) == row.objective,
        row.objective is None ==> seed_objective(row, Some(plan)) == plan@[i].objective,
        row.objective is None ==> seed_objective(row, None) is None,
{
    first_node_is_found(plan@, row.node_id->0@, i);
}

proof fn first_node_is_found(nodes: Seq<WorkflowNode>, id: Seq<char>, i: int)
    requires
        0 <= i < nodes.len(),
        nodes[i].node_id@ == id,
        forall|k: int| 0 <= k < i ==> (#[trigger] nodes[k]).node_id@ != id,
    ensures
        find_node(nodes, id) == Some(nodes[i]),
    decreases i,
{
    if i > 0 {
        let rest = nodes.drop_first();
        assert(nodes[0].node_id@ != id);
        assert(rest[i - 1] == nodes[i]);
        assert forall|k: int| 0 <= k < i - 1 implies (#[trigger] rest[k]).node_id@ != id by {
            assert(rest[k] == nodes[k + 1]);
        }
        first_node_is_found(rest, id, i - 1);
    }
}

/// A row is resumed as a node exactly when its role, its id and its intent can
/// be read, and the first row that cannot be is what a resume fails for.
pub proof fn readable_rows_resume(rows: Seq<StoredStep>, row: StoredStep)
    ensures
        seed_fault(row) is None <==> row.role.value is Some && row.node_id is Some && known_intent(
            row.intent@,
        ),
        first_seed_fault(Seq::empty()) is None,
        first_seed_fault(rows) is Some ==> first_seed_fault(rows.push(row)) == first_seed_fault(
            rows,
        ),
        first_seed_fault(rows) is None ==> first_seed_fault(rows.push(row)) == seed_fault(row),
        first_unreadable(Seq::empty()) is None,
        first_unreadable(rows) is Some ==> first_unreadable(rows.push(row)) == first_unreadable(
            rows,
        ),
        row.node_status is None ==> first_unreadable(rows.push(row)) is Some,
        first_unreadable(rows) is None && row.node_status is Some && (row.result is Some || (
        row.role.value is Some && row.plain_step is Some)) ==> first_unreadable(rows.push(row))
            is None,
{
    assert(rows.push(row).drop_last() =~= rows);
}

/// A node of a resumed run counts under its own id.
pub proof fn resumed_node_has_its_id(row: StoredStep)
    ensures
        row.node_id matches Some(id) ==> row_node(row) == id@,
        row.node_id is None ==> row_node(row).len() == 0,
{
}

/// The agent of a node in a resumed run is the one its last row names; one more
/// row changes that of its own node at most.
pub proof fn resumed_node_keeps_its_agent(rows: Seq<StoredStep>, row: StoredStep, other: Seq<char>)
    ensures
        assigned_agents(Seq::empty()) == Map::<Seq<char>, String>::empty(),
        ({
            let agents = assigned_agents(rows.push(row));
            &&& row.node_id is Some && row.agent_id is Some ==> agents.dom().contains(
                row.node_id->0@,
            ) && agents[row.node_id->0@] == row.agent_id->0
            &&& row.node_id is None || row.agent_id is None ==> agents == assigned_agents(rows)
            &&& (row.node_id is None || row.node_id->0@ != other) ==> {
                &&& agents.dom().contains(other) <==> assigned_agents(rows).dom().contains(other)
                &&& agents.dom().contains(other) ==> agents[other] == assigned_agents(rows)[other]
            }
        }),
{
    assert(rows.push(row).drop_last() =~= rows);
}

/// One more finished step adds a handoff exactly when it has a task, and the
/// handoff is of that step, task, agent and summary.
pub proof fn finished_steps_with_a_task_hand_off(
    results: Seq<PersistedStepResult>,
    result: PersistedStepResult,
    request: HandoffRequest,
)
    ensures
        with_task(Seq::empty()).len() == 0,
        result.task_id is Some ==> with_task(results.push(result)) == with_task(results).push(
            result,
        ),
        result.task_id is None ==> with_task(results.push(result)) == with_task(results),
        is_handoff_of(request, result) ==> request.step_id == result.step.id && result.task_id
            == Some(request.task_id) && request.summary == result.summary && (
        result.agent_id matches Some(agent) ==> request.agent_id@ == agent@) && (
        result.agent_id is None ==> request.agent_id@.len() == 0),
{
    assert(results.push(result).drop_last() =~= results);
}

/// One more row of a sequential workflow counts as done exactly when it is
/// completed, and only a completed row can keep it from being resumed.
pub proof fn only_completed_steps_are_rebuilt(rows: Seq<StoredStep>, row: StoredStep)
    ensures
        completed_rows(Seq::empty()).len() == 0,
        row.status.value == Some(WorkflowStepStatus::Completed) ==> completed_rows(rows.push(row))
            == completed_rows(rows).push(row),
        row.status.value != Some(WorkflowStepStatus::Completed) ==> completed_rows(rows.push(row))
            == completed_rows(rows),
        first_completed_fault(Seq::empty()) is None,
        first_completed_fault(rows) is Some ==> first_completed_fault(rows.push(row))
            == first_completed_fault(rows),
        first_completed_fault(rows) is None ==> (first_completed_fault(rows.push(row)) is Some
            <==> row.status.value == Some(WorkflowStepStatus::Completed) && (row.role.value is None
            || (row.result is None && !known_intent(row.intent@)))),
{
    assert(rows.push(row).drop_last() =~= rows);
}

/// A completed step is rebuilt as it was stored; without a stored result, from
/// the columns of its own row, as completed and without a review.
pub proof fn completed_steps_keep_their_result(result: PersistedStepResult, row: StoredStep)
    requires
        is_completed_result(result, row),
    ensures
        row.result is Some ==> row.result == Some(result),
        row.result is None ==> {
            &&& row.role.value == Some(result.step.role)
            &&& row.intent@ == intent_key(result.step.intent)
            &&& result.status == WorkflowStepStatus::Completed
            &&& result.agent_id == row.agent_id && result.task_id == row.task_id
            &&& result.summary == row.summary && result.error == row.error
            &&& result.review_result is None
        },
{
}

/// One more result is one more review round exactly when it is a review that
/// asks for changes.
pub proof fn review_rounds_count_requests(
    results: Seq<PersistedStepResult>,
    result: PersistedStepResult,
)
    ensures
        change_requests(Seq::empty()) == 0,
        ({
            let asks = result.step.role.reviewer && result.review_result is Some
                && result.review_result->0.verdict.changes_requested;
            &&& asks ==> change_requests(results.push(result)) == change_requests(results) + 1
            &&& !asks ==> change_requests(results.push(result)) == change_requests(results)
        }),
{
    assert(results.push(result).drop_last() =~= results);
}

/// The verdict of a workflow is that of its last completed review: one more row
/// decides it exactly when it is a completed review.
pub proof fn last_completed_review_decides(rows: Seq<StoredStep>, row: StoredStep)
    ensures
        last_verdict(Seq::empty()) is None,
        ({
            let decides = row.status.value == Some(WorkflowStepStatus::Completed) && row.result
                is Some && row.result->0.step.role.reviewer && row.result->0.review_result is Some;
            &&& decides ==> last_verdict(rows.push(row)) == Some(
                row.result->0.review_result->0.verdict,
            )
            &&& !decides ==> last_verdict(rows.push(row)) == last_verdict(rows)
        }),
{
    assert(rows.push(row).drop_last() =~= rows);
}

} // verus!
