//! Consensus fix rounds: extending a graph after evaluators asked for changes.

use vstd::prelude::*;
use vstd::string::*;

use crate::ids::Uuid;
use crate::text::{decimal, decimal_injective, decimal_int, same_text, show_i64, show_usize, texts};
use crate::workflow::evaluation::EvaluationGroup;
use crate::workflow::nodes::{round_evaluator_name, round_evaluator_node};
use crate::workflow::rows::{are_unassigned_members, is_pending_group, pending_group};
use crate::workflow::rows::{unassigned_members, EvaluationRows};
use crate::workflow::start::PlannedNode;
use crate::workflow::types::RoleKind;

verus! {

/// A node of the current graph, as far as a fix round reads it.
pub struct GraphNode {
    pub node_id: String,
    pub kind: RoleKind,
}

/// Whether the graph has an implementation to fix.
pub open spec fn has_implementation(nodes: Seq<GraphNode>) -> bool {
    exists|i: int| 0 <= i < nodes.len() && (#[trigger] nodes[i]).node_id@ == "implementation"@
}

/// Whether a group asks for one more fix round: its round is below the
/// allowed number of review rounds and there is an implementation to fix.
pub open spec fn may_extend(round: i64, max_review_rounds: usize, nodes: Seq<GraphNode>) -> bool {
    round < max_review_rounds as i64 && has_implementation(nodes)
}

/// A fix round: the nodes that are added to the graph for it.
pub struct FixRound {
    pub round: i64,
    pub fixer_id: String,
    pub gate_id: String,
    /// The evaluators of the round.
    pub evaluator_ids: Vec<String>,
    /// The fixer, the evaluators and the consensus node, in this order.
    pub nodes: Vec<PlannedNode>,
}

/// The name of the fixer of a round.
pub open spec fn fixer_name(round: int) -> Seq<char> {
    "fix_r"@ + decimal_int(round)
}

/// The name of the consensus node of a round.
pub open spec fn round_gate_name(round: int) -> Seq<char> {
    "consensus_gate_r"@ + decimal_int(round)
}

/// The names of the evaluators of a round.
pub open spec fn round_evaluator_names(round: int, n: nat) -> Seq<Seq<char>> {
    Seq::new(n, |i: int| round_evaluator_name(round, (i + 1) as nat))
}

/// Whether these are the nodes of a fix round after a gate: a fixer that
/// waits for the consensus node and the implementation, the evaluators that wait for
/// the fixer, and a gate that waits for all of them.
pub open spec fn is_fix_round(fix: FixRound, round: int, gate: Seq<char>, evaluators: nat) -> bool {
    &&& fix.round == round
    &&& fix.fixer_id@ == fixer_name(round)
    &&& fix.gate_id@ == round_gate_name(round)
    &&& texts(fix.evaluator_ids@) == round_evaluator_names(round, evaluators)
    &&& fix.nodes@.len() == evaluators + 2
    &&& fix.nodes@[0].node_id@ == fixer_name(round)
    &&& fix.nodes@[0].kind == RoleKind::Fixer
    &&& texts(fix.nodes@[0].dependencies@) == seq![gate, "implementation"@]
    &&& forall|i: int|
        1 <= i <= evaluators ==> {
            let node = #[trigger] fix.nodes@[i];
            &&& node.node_id@ == round_evaluator_name(round, i as nat)
            &&& node.kind == RoleKind::Evaluator
            &&& texts(node.dependencies@) == seq![fixer_name(round)]
        }
    &&& fix.nodes@[evaluators as int + 1].node_id@ == round_gate_name(round)
    &&& fix.nodes@[evaluators as int + 1].kind == RoleKind::ConsensusGate
    &&& texts(fix.nodes@[evaluators as int + 1].dependencies@) == round_evaluator_names(round, evaluators)
}

fn find_implementation_node(nodes: &[GraphNode]) -> (r: bool)
    ensures
        r == has_implementation(nodes@),
{
    let mut i: usize = 0;
    while i < nodes.len()
        invariant
            i <= nodes@.len(),
            forall|k: int| 0 <= k < i ==> (#[trigger] nodes@[k]).node_id@ != "implementation"@,
        decreases nodes.len() - i,
    {
        if same_text(nodes[i].node_id.as_str(), "implementation") {
            return true;
        }
        i += 1;
    }
    false
}

fn one(name: &String) -> (r: Vec<String>)
    ensures
        texts(r@) == seq![name@],
{
    let r = vec![name.clone()];
    assert(texts(r@) =~= seq![name@]);
    r
}

fn build_round(round: i64, gate_node_id: &str, evaluators: usize) -> (r: FixRound)
    requires
        evaluators < usize::MAX,
    ensures
        is_fix_round(r, round as int, gate_node_id@, evaluators as nat),
{
    let fixer_id = "fix_r".to_owned().concat(show_i64(round).as_str());
    let gate_id = "consensus_gate_r".to_owned().concat(show_i64(round).as_str());
    let first = vec![gate_node_id.to_owned(), "implementation".to_owned()];
    assert(texts(first@) =~= seq![gate_node_id@, "implementation"@]);
    let mut nodes: Vec<PlannedNode> = Vec::new();
    nodes.push(
        PlannedNode { node_id: fixer_id.clone(), kind: RoleKind::Fixer, dependencies: first },
    );
    let mut evaluator_ids: Vec<String> = Vec::new();
    let mut waits: Vec<String> = Vec::new();
    let mut i: usize = 0;
    while i < evaluators
        invariant
            i <= evaluators < usize::MAX,
            fixer_id@ == fixer_name(round as int),
            evaluator_ids@.len() == i,
            waits@ == evaluator_ids@,
            forall|k: int|
                0 <= k < i ==> (#[trigger] evaluator_ids@[k])@ == round_evaluator_name(
                    round as int,
                    (k + 1) as nat,
                ),
            nodes@.len() == i + 1,
            nodes@[0].node_id@ == fixer_name(round as int),
            nodes@[0].kind == RoleKind::Fixer,
            texts(nodes@[0].dependencies@) == seq![gate_node_id@, "implementation"@],
            forall|k: int|
                1 <= k <= i ==> {
                    let node = #[trigger] nodes@[k];
                    &&& node.node_id@ == round_evaluator_name(round as int, k as nat)
                    &&& node.kind == RoleKind::Evaluator
                    &&& texts(node.dependencies@) == seq![fixer_name(round as int)]
                },
        decreases evaluators - i,
    {
        let id = round_evaluator_node(round, i + 1);
        nodes.push(
            PlannedNode {
                node_id: id.clone(),
                kind: RoleKind::Evaluator,
                dependencies: one(&fixer_id),
            },
        );
        waits.push(id.clone());
        evaluator_ids.push(id);
        i += 1;
    }
    assert(texts(evaluator_ids@) =~= round_evaluator_names(round as int, evaluators as nat));
    nodes.push(
        PlannedNode {
            node_id: gate_id.clone(),
            kind: RoleKind::ConsensusGate,
            dependencies: waits,
        },
    );
    FixRound { round, fixer_id, gate_id, evaluator_ids, nodes }
}

/// The fix round that follows a gate that requested changes; none when the
/// allowed rounds are used up or there is nothing to fix.
pub fn next_fix_round(
    round: i64,
    max_review_rounds: usize,
    nodes: &[GraphNode],
    gate_node_id: &str,
    evaluators: usize,
) -> (r: Option<FixRound>)
    requires
        evaluators < usize::MAX,
    ensures
        r is Some <==> may_extend(round, max_review_rounds, nodes@),
        r matches Some(fix) ==> is_fix_round(
            fix,
            round + 1,
            gate_node_id@,
            evaluators as nat,
        ),
{
    if round >= max_review_rounds as i64 {
        return None;
    }
    if !find_implementation_node(nodes) {
        return None;
    }
    Some(build_round(round + 1, gate_node_id, evaluators))
}

/// A fix round never goes past the allowed number of review rounds.
pub proof fn fix_rounds_are_bounded(
    fix: FixRound,
    round: i64,
    max_review_rounds: usize,
    nodes: Seq<GraphNode>,
    gate: Seq<char>,
    evaluators: nat,
)
    requires
        max_review_rounds <= i64::MAX,
        may_extend(round, max_review_rounds, nodes),
        is_fix_round(fix, round + 1, gate, evaluators),
    ensures
        round < fix.round <= max_review_rounds,
{
}

/// How many evaluators a graph has.
pub open spec fn evaluator_count(nodes: Seq<GraphNode>) -> nat
    decreases nodes.len(),
{
    if nodes.len() == 0 {
        0
    } else {
        evaluator_count(nodes.drop_last()) + if nodes.last().kind == RoleKind::Evaluator {
            1nat
        } else {
            0nat
        }
    }
}

/// How many evaluators a graph has.
pub fn count_evaluators(nodes: &[GraphNode]) -> (r: usize)
    ensures
        r == evaluator_count(nodes@),
        r <= nodes@.len(),
{
    let mut n: usize = 0;
    let mut i: usize = 0;
    while i < nodes.len()
        invariant
            i <= nodes@.len(),
            n == evaluator_count(nodes@.take(i as int)),
            n <= i,
        decreases nodes.len() - i,
    {
        proof {
            assert(nodes@.take(i + 1).drop_last() =~= nodes@.take(i as int));
            assert(nodes@.take(i + 1).last() == nodes@[i as int]);
        }
        if nodes[i].kind == RoleKind::Evaluator {
            n += 1;
        }
        i += 1;
    }
    assert(nodes@.take(i as int) =~= nodes@);
    n
}

/// The message of a fix round that would exceed the evaluator budget.
pub open spec fn fix_budget_text(calls: nat, limit: nat) -> Seq<char> {
    "EvaluationBudgetExceeded: the fix loop would need "@ + decimal(calls)
        + " evaluator calls but the limit is "@ + decimal(limit)
}

/// Why an extended graph exceeds the evaluator budget; nothing when it fits.
/// All evaluators of all rounds count.
pub fn fix_budget_fault(extended: &[GraphNode], max_total: usize) -> (r: Option<String>)
    ensures
        match r {
            Some(message) => evaluator_count(extended@) > max_total && message@ == fix_budget_text(
                evaluator_count(extended@),
                max_total as nat,
            ),
            None => evaluator_count(extended@) <= max_total,
        },
{
    let calls = count_evaluators(extended);
    if calls > max_total {
        Some(
            "EvaluationBudgetExceeded: the fix loop would need ".to_owned().concat(
                show_usize(calls).as_str(),
            ).concat(" evaluator calls but the limit is ").concat(show_usize(max_total).as_str()),
        )
    } else {
        None
    }
}

/// A graph node of a planned one.
pub open spec fn graph_node(planned: PlannedNode) -> GraphNode {
    GraphNode { node_id: planned.node_id, kind: planned.kind }
}

/// The graph with a fix round behind it: the old nodes, untouched, and then the
/// new ones.
pub open spec fn extended_graph(nodes: Seq<GraphNode>, fix: FixRound) -> Seq<GraphNode> {
    nodes + fix.nodes@.map_values(|n: PlannedNode| graph_node(n))
}

/// How many evaluators a graph with a fix round behind it has.
pub open spec fn extended_calls(nodes: Seq<GraphNode>, evaluators: nat) -> nat {
    evaluator_count(nodes) + evaluators
}

/// The nodes of a graph with a fix round behind it, as the policy is asked
/// about them.
pub fn extend_graph(nodes: &[GraphNode], fix: &FixRound) -> (r: Vec<GraphNode>)
    ensures
        r@ == extended_graph(nodes@, *fix),
{
    let mut out: Vec<GraphNode> = Vec::new();
    let mut i: usize = 0;
    while i < nodes.len()
        invariant
            i <= nodes@.len(),
            out@ == nodes@.take(i as int),
        decreases nodes.len() - i,
    {
        out.push(GraphNode { node_id: nodes[i].node_id.clone(), kind: nodes[i].kind });
        i += 1;
        assert(out@ =~= nodes@.take(i as int));
    }
    assert(nodes@.take(i as int) =~= nodes@);
    let ghost added = fix.nodes@.map_values(|n: PlannedNode| graph_node(n));
    let mut k: usize = 0;
    assert(out@ =~= nodes@ + added.take(0));
    while k < fix.nodes.len()
        invariant
            k <= fix.nodes@.len(),
            added == fix.nodes@.map_values(|n: PlannedNode| graph_node(n)),
            out@ == nodes@ + added.take(k as int),
        decreases fix.nodes.len() - k,
    {
        out.push(GraphNode { node_id: fix.nodes[k].node_id.clone(), kind: fix.nodes[k].kind });
        assert(added[k as int] == graph_node(fix.nodes@[k as int]));
        k += 1;
        assert(out@ =~= nodes@ + added.take(k as int));
    }
    assert(added.take(k as int) =~= added);
    out
}

/// What a fix round is extended with: the graph, the new nodes, the pending
/// group of the round with its members, and the agent that fixes.
pub struct FixExtension {
    /// The old nodes and the new ones behind them.
    pub graph: Vec<GraphNode>,
    pub fix: FixRound,
    pub rows: EvaluationRows,
    /// The agent of the implementation, which fixes in the same session.
    pub fixer_agent: Option<String>,
}

/// What is decided of a fix round.
pub enum FixDecision {
    /// The graph stays as it is.
    Unchanged,
    /// The workflow fails, for this reason; no node is added.
    Fail(String),
    /// The graph is extended.
    Extend(FixExtension),
}

/// What a fix round is made for: the group whose evaluators asked for changes,
/// and their gate.
pub struct FixRequest {
    pub group: EvaluationGroup,
    pub gate_node_id: String,
    pub max_review_rounds: usize,
    /// How many evaluators the new round has.
    pub evaluators: usize,
    /// The most evaluator calls over all rounds.
    pub max_total: usize,
    /// The agent of the implementation, where it is known.
    pub implementer_agent: Option<String>,
    pub now: String,
}

/// Whether a decision is the one on a fix round: none past the allowed rounds
/// or without an implementation; else the extended graph must be valid, within
/// the policy's node counts and within the evaluator budget, in this order; and
/// then it is the old graph with the new nodes behind it, together with the
/// pending group of the new round, whose strategy and quorum are those of the
/// group before.
pub open spec fn is_fix_decision(
    r: FixDecision,
    request: FixRequest,
    nodes: Seq<GraphNode>,
    valid: Result<(), String>,
    policy: Result<(), String>,
    group_id: Uuid,
    member_ids: Seq<Uuid>,
) -> bool {
    let round = request.group.round + 1;
    let calls = extended_calls(nodes, request.evaluators as nat);
    if !may_extend(request.group.round, request.max_review_rounds, nodes) {
        r is Unchanged
    } else if valid is Err {
        let reason = valid->Err_0;
        r matches FixDecision::Fail(text) && text@ == "consensus fix round rejected: "@ + reason@
    } else if policy is Err {
        let violation = policy->Err_0;
        r matches FixDecision::Fail(text) && text@ == "EvaluationBudgetExceeded: "@ + violation@
    } else if calls > request.max_total {
        r matches FixDecision::Fail(text) && text@ == fix_budget_text(
            calls,
            request.max_total as nat,
        )
    } else {
        r matches FixDecision::Extend(e) && {
            &&& is_fix_round(
                e.fix,
                round,
                request.gate_node_id@,
                request.evaluators as nat,
            )
            &&& e.graph@ == extended_graph(nodes, e.fix)
            &&& is_pending_group(
                e.rows.group,
                group_id,
                request.group.workflow_id,
                None,
                request.group.strategy@,
                request.group.quorum,
                round as i64,
                request.now,
            )
            &&& are_unassigned_members(
                e.rows.members@,
                member_ids,
                group_id,
                round_evaluator_names(round, request.evaluators as nat),
                request.now,
            )
            &&& e.fixer_agent == request.implementer_agent
        }
    }
}

proof fn evaluators_of_sum(a: Seq<GraphNode>, b: Seq<GraphNode>)
    ensures
        evaluator_count(a + b) == evaluator_count(a) + evaluator_count(b),
    decreases b.len(),
{
    if b.len() == 0 {
        assert(a + b =~= a);
    } else {
        assert((a + b).drop_last() =~= a + b.drop_last());
        evaluators_of_sum(a, b.drop_last());
    }
}

proof fn evaluators_of_middle(nodes: Seq<GraphNode>, n: int)
    requires
        0 <= n < nodes.len(),
        nodes[0].kind != RoleKind::Evaluator,
        forall|i: int| 1 <= i <= n ==> (#[trigger] nodes[i]).kind == RoleKind::Evaluator,
    ensures
        evaluator_count(nodes.take(n + 1)) == n,
    decreases n,
{
    let part = nodes.take(n + 1);
    assert(part.len() == n + 1);
    assert(part.drop_last() =~= nodes.take(n));
    assert(part.last() == nodes[n]);
    if n > 0 {
        assert(nodes[n].kind == RoleKind::Evaluator);
        evaluators_of_middle(nodes, n - 1);
        assert(nodes.take(n - 1 + 1) =~= part.drop_last());
    } else {
        assert(part.drop_last() =~= Seq::<GraphNode>::empty());
        assert(evaluator_count(part.drop_last()) == 0);
    }
    assert(evaluator_count(part) == evaluator_count(part.drop_last()) + if part.last().kind
        == RoleKind::Evaluator {
        1nat
    } else {
        0nat
    });
}

proof fn evaluators_of_round(fix: FixRound, round: int, gate: Seq<char>, evaluators: nat)
    requires
        is_fix_round(fix, round, gate, evaluators),
    ensures
        evaluator_count(fix.nodes@.map_values(|n: PlannedNode| graph_node(n))) == evaluators,
{
    let nodes = fix.nodes@.map_values(|n: PlannedNode| graph_node(n));
    assert(nodes[0] == graph_node(fix.nodes@[0]));
    assert forall|i: int| 1 <= i <= evaluators implies (#[trigger] nodes[i]).kind
        == RoleKind::Evaluator by {
        assert(nodes[i] == graph_node(fix.nodes@[i]));
    }
    evaluators_of_middle(nodes, evaluators as int);
    assert(nodes.drop_last() =~= nodes.take(evaluators as int + 1));
    assert(nodes.last() == graph_node(fix.nodes@[evaluators as int + 1]));
}

/// The decision on a fix round. `valid` and `policy` say whether the extended
/// graph is a valid one and within the policy's node counts.
pub fn fix_round_decision(
    request: FixRequest,
    nodes: &[GraphNode],
    valid: Result<(), String>,
    policy: Result<(), String>,
    group_id: Uuid,
    member_ids: &Vec<Uuid>,
) -> (r: FixDecision)
    requires
        request.evaluators < usize::MAX,
        member_ids@.len() == request.evaluators,
    ensures
        is_fix_decision(r, request, nodes@, valid, policy, group_id, member_ids@),
{
    let fix = match next_fix_round(
        request.group.round,
        request.max_review_rounds,
        nodes,
        request.gate_node_id.as_str(),
        request.evaluators,
    ) {
        Some(fix) => fix,
        None => return FixDecision::Unchanged,
    };
    if let Err(reason) = valid {
        return FixDecision::Fail(
            "consensus fix round rejected: ".to_owned().concat(reason.as_str()),
        );
    }
    if let Err(violation) = policy {
        return FixDecision::Fail(
            "EvaluationBudgetExceeded: ".to_owned().concat(violation.as_str()),
        );
    }
    let graph = extend_graph(nodes, &fix);
    proof {
        evaluators_of_sum(nodes@, fix.nodes@.map_values(|n: PlannedNode| graph_node(n)));
        evaluators_of_round(
            fix,
            request.group.round + 1,
            request.gate_node_id@,
            request.evaluators as nat,
        );
    }
    if let Some(reason) = fix_budget_fault(graph.as_slice(), request.max_total) {
        return FixDecision::Fail(reason);
    }
    let group = pending_group(
        group_id,
        request.group.workflow_id,
        None,
        request.group.strategy.as_str(),
        request.group.quorum,
        fix.round,
        &request.now,
    );
    assert(texts(fix.evaluator_ids@).len() == fix.evaluator_ids@.len());
    let members = unassigned_members(member_ids, group_id, &fix.evaluator_ids, &request.now);
    FixDecision::Extend(
        FixExtension {
            graph,
            fix,
            rows: EvaluationRows { group, members },
            fixer_agent: request.implementer_agent,
        },
    )
}

/// A fix round leaves what was there: the nodes before it keep their places,
/// and one that fails or is not due adds none.
pub proof fn fix_round_keeps_the_graph(
    r: FixDecision,
    request: FixRequest,
    nodes: Seq<GraphNode>,
    valid: Result<(), String>,
    policy: Result<(), String>,
    group_id: Uuid,
    member_ids: Seq<Uuid>,
)
    requires
        is_fix_decision(r, request, nodes, valid, policy, group_id, member_ids),
    ensures
        r matches FixDecision::Extend(e) ==> e.graph@.take(nodes.len() as int) == nodes
            && e.graph@.len() == nodes.len() + request.evaluators + 2 && request.group.round
            < request.max_review_rounds as i64 && extended_calls(nodes, request.evaluators as nat)
            <= request.max_total,
{
    if let FixDecision::Extend(e) = r {
        assert(extended_graph(nodes, e.fix).take(nodes.len() as int) =~= nodes);
    }
}

/// A fix round is made exactly when the group's round is below the allowed
/// number, there is an implementation to fix, the extended graph is valid and
/// within the policy, and all evaluators together stay within the budget. One
/// that is not due leaves the graph; one that is due but refused fails.
pub proof fn fix_round_is_made_within_all_limits(
    r: FixDecision,
    request: FixRequest,
    nodes: Seq<GraphNode>,
    valid: Result<(), String>,
    policy: Result<(), String>,
    group_id: Uuid,
    member_ids: Seq<Uuid>,
)
    requires
        is_fix_decision(r, request, nodes, valid, policy, group_id, member_ids),
    ensures
        ({
            let due = request.group.round < request.max_review_rounds as i64 && exists|i: int|
                0 <= i < nodes.len() && (#[trigger] nodes[i]).node_id@ == "implementation"@;
            let fits = evaluator_count(nodes) + request.evaluators <= request.max_total;
            &&& r is Unchanged <==> !due
            &&& r is Extend <==> due && valid is Ok && policy is Ok && fits
            &&& r is Fail <==> due && !(valid is Ok && policy is Ok && fits)
        }),
{
}

/// An evaluator counts once and no other node counts; the counts of two parts of
/// a graph add up.
pub proof fn only_evaluators_count(a: Seq<GraphNode>, node: GraphNode, b: Seq<GraphNode>)
    ensures
        evaluator_count(Seq::empty()) == 0,
        node.kind == RoleKind::Evaluator ==> evaluator_count(seq![node]) == 1,
        node.kind != RoleKind::Evaluator ==> evaluator_count(seq![node]) == 0,
        evaluator_count(a + b) == evaluator_count(a) + evaluator_count(b),
{
    evaluators_of_sum(a, b);
    let one = seq![node];
    assert(one.drop_last() =~= Seq::<GraphNode>::empty());
    assert(one.last() == node);
    assert(evaluator_count(one.drop_last()) == 0);
}

/// The order of a fix round: the fixer waits for the consensus node before it
/// and for the implementation, every evaluator waits for the fixer alone, and
/// the new consensus node waits for every evaluator and for nothing else.
pub proof fn fix_round_runs_fixer_evaluators_gate(
    fix: FixRound,
    round: int,
    gate: Seq<char>,
    evaluators: nat,
    i: int,
)
    requires
        is_fix_round(fix, round, gate, evaluators),
        0 <= i < fix.nodes@.len(),
    ensures
        ({
            let node = fix.nodes@[i];
            let last = fix.nodes@[fix.nodes@.len() - 1];
            &&& fix.nodes@.len() == evaluators + 2
            &&& node.kind == RoleKind::Fixer <==> i == 0
            &&& node.kind == RoleKind::ConsensusGate <==> i == fix.nodes@.len() - 1
            &&& node.kind == RoleKind::Evaluator <==> 0 < i < fix.nodes@.len() - 1
            &&& i == 0 ==> node.node_id@ == fix.fixer_id@ && node.dependencies@.len() == 2
                && node.dependencies@[0]@ == gate && node.dependencies@[1]@ == "implementation"@
            &&& 0 < i < fix.nodes@.len() - 1 ==> {
                &&& node.dependencies@.len() == 1
                &&& node.dependencies@[0]@ == fix.fixer_id@
                &&& node.node_id@ == fix.evaluator_ids@[i - 1]@
                &&& last.dependencies@[i - 1]@ == node.node_id@
            }
            &&& i == fix.nodes@.len() - 1 ==> node.node_id@ == fix.gate_id@
                && node.dependencies@.len() == evaluators
        }),
{
    let last = fix.nodes@[fix.nodes@.len() - 1];
    assert(texts(fix.nodes@[0].dependencies@).len() == 2);
    assert(texts(fix.nodes@[0].dependencies@)[0] == fix.nodes@[0].dependencies@[0]@);
    assert(texts(fix.nodes@[0].dependencies@)[1] == fix.nodes@[0].dependencies@[1]@);
    assert(texts(last.dependencies@).len() == last.dependencies@.len());
    assert(texts(last.dependencies@).len() == evaluators);
    assert(texts(fix.evaluator_ids@).len() == evaluators);
    if 0 < i < fix.nodes@.len() - 1 {
        let node = fix.nodes@[i];
        assert(texts(node.dependencies@).len() == 1);
        assert(texts(node.dependencies@)[0] == node.dependencies@[0]@);
        assert(texts(fix.evaluator_ids@)[i - 1] == fix.evaluator_ids@[i - 1]@);
        assert(texts(last.dependencies@)[i - 1] == last.dependencies@[i - 1]@);
    }
}

/// The names of a fix round carry its number: two rounds share no fixer and no
/// gate.
pub proof fn fix_rounds_have_names_of_their_own(a: nat, b: nat)
    requires
        a != b,
    ensures
        fixer_name(a as int) != fixer_name(b as int),
        round_gate_name(a as int) != round_gate_name(b as int),
{
    let fix = "fix_r"@;
    let gate = "consensus_gate_r"@;
    if fixer_name(a as int) == fixer_name(b as int) {
        assert(fixer_name(a as int).skip(fix.len() as int) =~= decimal(a));
        assert(fixer_name(b as int).skip(fix.len() as int) =~= decimal(b));
        decimal_injective(a, b);
    }
    if round_gate_name(a as int) == round_gate_name(b as int) {
        assert(round_gate_name(a as int).skip(gate.len() as int) =~= decimal(a));
        assert(round_gate_name(b as int).skip(gate.len() as int) =~= decimal(b));
        decimal_injective(a, b);
    }
}

/// An extension is of the next round: its group waits to be evaluated under the
/// strategy and the quorum of the group before, and the implementer fixes.
pub proof fn fix_round_keeps_the_rules_of_its_group(
    e: FixExtension,
    request: FixRequest,
    nodes: Seq<GraphNode>,
    valid: Result<(), String>,
    policy: Result<(), String>,
    group_id: Uuid,
    member_ids: Seq<Uuid>,
)
    requires
        is_fix_decision(
            FixDecision::Extend(e),
            request,
            nodes,
            valid,
            policy,
            group_id,
            member_ids,
        ),
    ensures
        e.fix.round == request.group.round + 1,
        e.rows.group.id == group_id,
        e.rows.group.workflow_id == request.group.workflow_id,
        e.rows.group.strategy@ == request.group.strategy@,
        e.rows.group.quorum == request.group.quorum,
        e.rows.group.round == request.group.round + 1,
        e.rows.members@.len() == request.evaluators,
        forall|i: int|
            0 <= i < e.rows.members@.len() ==> (#[trigger] e.rows.members@[i]).group_id == group_id
                && e.rows.members@[i].node_id@ == e.fix.evaluator_ids@[i]@,
        e.fixer_agent == request.implementer_agent,
{
    assert forall|i: int| 0 <= i < e.rows.members@.len() implies (
    #[trigger] e.rows.members@[i]).group_id == group_id && e.rows.members@[i].node_id@
        == e.fix.evaluator_ids@[i]@ by {
        assert(texts(e.fix.evaluator_ids@)[i] == e.fix.evaluator_ids@[i]@);
    }
}

/// The evaluators of a fix round are numbered from one, under its round; the
/// graph with the round behind it keeps each node and adds those of the round as
/// they are.
pub proof fn round_adds_its_nodes(
    nodes: Seq<GraphNode>,
    fix: FixRound,
    round: nat,
    n: nat,
    i: int,
)
    requires
        0 <= i,
    ensures
        round_evaluator_names(round as int, n).len() == n,
        i < n ==> round_evaluator_names(round as int, n)[i] == "evaluator_r"@ + decimal(round)
            + "_"@ + decimal((i + 1) as nat),
        extended_graph(nodes, fix).len() == nodes.len() + fix.nodes@.len(),
        i < nodes.len() ==> extended_graph(nodes, fix)[i] == nodes[i],
        i < fix.nodes@.len() ==> extended_graph(nodes, fix)[nodes.len() + i].node_id
            == fix.nodes@[i].node_id && extended_graph(nodes, fix)[nodes.len() + i].kind
            == fix.nodes@[i].kind,
{
}

} // verus!
