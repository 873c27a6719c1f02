//! Starting workflows: settings, budgets, panels and the layout of a
//! competition.

use vstd::prelude::*;
use vstd::string::*;

use crate::config::{CompetitionConfig, EvaluationConfig};
use crate::ids::{id_text, Uuid};
use crate::provenance::payloads::WorkflowStartedPayload;
use crate::provenance::PolicySnapshot;
use crate::text::{clone_opt, contains_text, decimal, ends_with, opt_text, same_text};
use crate::text::{stands_at, texts};
use crate::workflow::nodes::{candidate_evaluator_name, candidate_evaluator_node, candidate_lane};
use crate::workflow::nodes::{candidate_lane_name, candidate_name, candidate_node};
use crate::workflow::nodes::{evaluation_lane, evaluation_lane_name, evaluator_name, evaluator_node};
use crate::workflow::types::{RoleKind, StoredStep, StoredWorkflow, WorkflowError, WorkflowStatus};
use crate::workflow::types::WorkflowStepStatus;

verus! {

/// Override of the evaluation control-plane limits.
#[derive(Clone, Copy, Debug, PartialEq, Eq, Structural)]
pub struct EvaluationOverride {
    pub max_total_evaluator_calls: Option<usize>,
    pub default_evaluators: Option<usize>,
}

impl Default for EvaluationOverride {
    fn default() -> (r: Self)
        ensures
            r == (EvaluationOverride { max_total_evaluator_calls: None, default_evaluators: None }),
    {
        EvaluationOverride { max_total_evaluator_calls: None, default_evaluators: None }
    }
}

/// Override of the competition control-plane limits.
#[derive(Clone, Copy, Debug, PartialEq, Eq, Structural)]
pub struct CompetitionOverride {
    pub default_candidates: Option<usize>,
    pub default_evaluators: Option<usize>,
    pub max_candidates: Option<usize>,
    pub max_total_candidate_calls: Option<usize>,
}

impl Default for CompetitionOverride {
    fn default() -> (r: Self)
        ensures
            r == (CompetitionOverride {
                default_candidates: None,
                default_evaluators: None,
                max_candidates: None,
                max_total_candidate_calls: None,
            }),
    {
        CompetitionOverride {
            default_candidates: None,
            default_evaluators: None,
            max_candidates: None,
            max_total_candidate_calls: None,
        }
    }
}

/// How evaluators come to a consensus.
#[derive(Clone, Copy, Debug, PartialEq, Eq, Structural)]
pub enum ConsensusStrategy {
    Majority,
    Unanimous,
}

/// The bounds that the scheduler sets on a competition.
#[derive(Clone, Copy, Debug, PartialEq, Eq, Structural)]
pub struct CompetitionLimits {
    pub max_candidates: usize,
    pub default_evaluators: usize,
    pub max_evaluators: usize,
}

/// The first of two settings that is there, else the default.
pub open spec fn setting(first: Option<usize>, second: Option<usize>, default: usize) -> usize {
    match first {
        Some(n) => n,
        None => match second {
            Some(n) => n,
            None => default,
        },
    }
}

fn pick(first: Option<usize>, second: Option<usize>, default: usize) -> (r: usize)
    ensures
        r == setting(first, second, default),
{
    match first {
        Some(n) => n,
        None => match second {
            Some(n) => n,
            None => default,
        },
    }
}

/// A number held between one and a bound.
pub open spec fn clamped(n: int, max: int) -> int {
    if n < 1 {
        1
    } else if n > max {
        max
    } else {
        n
    }
}

fn clamp(n: usize, max: usize) -> (r: usize)
    requires
        1 <= max,
    ensures
        r == clamped(n as int, max as int),
{
    if n < 1 {
        1
    } else if n > max {
        max
    } else {
        n
    }
}

/// The smaller of two numbers.
pub open spec fn least(a: int, b: int) -> int {
    if a <= b {
        a
    } else {
        b
    }
}

fn min(a: usize, b: usize) -> (r: usize)
    ensures
        r == least(a as int, b as int),
{
    if a <= b {
        a
    } else {
        b
    }
}

/// The configured candidate cap, at most the scheduler's own.
pub open spec fn candidate_cap(
    config: Option<CompetitionConfig>,
    over: CompetitionOverride,
    limits: CompetitionLimits,
) -> int {
    least(
        setting(
            over.max_candidates,
            match config {
                Some(c) => c.max_candidates,
                None => None,
            },
            3,
        ) as int,
        limits.max_candidates as int,
    )
}

/// The settings of a competition.
#[derive(Clone, Copy, Debug, PartialEq, Eq, Structural)]
pub struct CompetitionSettings {
    pub candidates: usize,
    pub evaluators: usize,
    pub strategy: ConsensusStrategy,
    pub quorum: usize,
}

/// The highest number of candidates that a competition may have: the
/// override, else the configuration, else the default, held to the
/// scheduler's own bound.
pub fn max_candidates(
    config: Option<CompetitionConfig>,
    over: CompetitionOverride,
    limits: CompetitionLimits,
) -> (r: usize)
    ensures
        r == candidate_cap(config, over, limits),
{
    let configured: Option<usize> = match config {
        Some(c) => c.max_candidates,
        None => None,
    };
    min(pick(over.max_candidates, configured, 3), limits.max_candidates)
}

/// The `[competition]` control-plane settings: the number of candidates and
/// of evaluators per candidate, majority consensus, and a quorum of more than
/// half the evaluators. An override wins over the configuration.
pub fn competition_settings(
    config: Option<CompetitionConfig>,
    over: CompetitionOverride,
    limits: CompetitionLimits,
) -> (r: CompetitionSettings)
    requires
        candidate_cap(config, over, limits) >= 1,
        limits.max_evaluators >= 1,
    ensures
        r.candidates == clamped(
            setting(
                over.default_candidates,
                match config {
                    Some(c) => c.default_candidates,
                    None => None,
                },
                2,
            ) as int,
            candidate_cap(config, over, limits),
        ),
        r.evaluators == clamped(
            setting(over.default_evaluators, None, limits.default_evaluators) as int,
            limits.max_evaluators as int,
        ),
        r.strategy == ConsensusStrategy::Majority,
        r.quorum == r.evaluators / 2 + 1,
        1 <= r.candidates <= limits.max_candidates,
        1 <= r.evaluators <= limits.max_evaluators,
        r.evaluators < 2 * r.quorum <= r.evaluators + 2,
{
    let cap = max_candidates(config, over, limits);
    let configured: Option<usize> = match config {
        Some(c) => c.default_candidates,
        None => None,
    };
    let candidates = clamp(pick(over.default_candidates, configured, 2), cap);
    let evaluators = clamp(
        pick(over.default_evaluators, None, limits.default_evaluators),
        limits.max_evaluators,
    );
    CompetitionSettings {
        candidates,
        evaluators,
        strategy: ConsensusStrategy::Majority,
        quorum: evaluators / 2 + 1,
    }
}

/// A quorum of more than half the evaluators is within their number.
pub proof fn quorum_is_a_majority(evaluators: nat)
    requires
        evaluators >= 1,
    ensures
        2 * (evaluators / 2 + 1) > evaluators,
        evaluators / 2 + 1 <= evaluators,
{
}

/// The `[competition]` total of candidate calls: the override, else the
/// configuration, else the default.
pub fn competition_max_total_calls(
    config: Option<CompetitionConfig>,
    over: Option<CompetitionOverride>,
) -> (r: usize)
    ensures
        r == setting(
            match over {
                Some(o) => o.max_total_candidate_calls,
                None => None,
            },
            match config {
                Some(c) => c.max_total_candidate_calls,
                None => None,
            },
            3,
        ),
{
    let first: Option<usize> = match over {
        Some(o) => o.max_total_candidate_calls,
        None => None,
    };
    let second: Option<usize> = match config {
        Some(c) => c.max_total_candidate_calls,
        None => None,
    };
    pick(first, second, 3)
}

/// The settings of an evaluation.
#[derive(Clone, Copy, Debug, PartialEq, Eq, Structural)]
pub struct EvaluationSettings {
    pub evaluators: usize,
    pub quorum: usize,
    pub strategy: ConsensusStrategy,
}

/// The strategy that a text names: unanimous only when it says so.
pub open spec fn named_strategy(name: Option<Seq<char>>) -> ConsensusStrategy {
    if name == Some("unanimous"@) {
        ConsensusStrategy::Unanimous
    } else {
        ConsensusStrategy::Majority
    }
}

/// The strategy that a text names.
pub fn strategy_of(name: Option<&str>) -> (r: ConsensusStrategy)
    ensures
        r == named_strategy(crate::text::opt_str(name)),
{
    match name {
        Some(name) => {
            if same_text(name, "unanimous") {
                ConsensusStrategy::Unanimous
            } else {
                ConsensusStrategy::Majority
            }
        },
        None => ConsensusStrategy::Majority,
    }
}

/// The evaluators that a configuration asks for.
pub open spec fn configured_evaluators(config: Option<&EvaluationConfig>) -> Option<usize> {
    match config {
        Some(c) => c.default_evaluators,
        None => None,
    }
}

/// The quorum that a configuration asks for.
pub open spec fn configured_quorum(config: Option<&EvaluationConfig>) -> Option<usize> {
    match config {
        Some(c) => c.default_quorum,
        None => None,
    }
}

/// The strategy that a configuration asks for.
pub open spec fn configured_strategy(config: Option<&EvaluationConfig>) -> Option<Seq<char>> {
    match config {
        Some(c) => opt_text(c.strategy),
        None => None,
    }
}

/// The hard cap on evaluators in one group: the configured one, five by default,
/// at most the scheduler's own, and at least one.
pub open spec fn evaluator_cap(config: Option<&EvaluationConfig>, max_evaluators: usize) -> int {
    clamped(
        setting(
            match config {
                Some(c) => c.max_evaluators,
                None => None,
            },
            None,
            5,
        ) as int,
        max_evaluators as int,
    )
}

fn cap_evaluators(config: Option<&EvaluationConfig>, max_evaluators: usize) -> (r: usize)
    requires
        max_evaluators >= 1,
    ensures
        r == evaluator_cap(config, max_evaluators),
        r >= 1,
{
    let configured: Option<usize> = match config {
        Some(c) => c.max_evaluators,
        None => None,
    };
    clamp(pick(configured, None, 5), max_evaluators)
}

/// No group has more evaluators than the configured cap, whatever the default,
/// the override or a request asks for.
pub proof fn evaluators_are_capped(
    config: EvaluationConfig,
    cap: usize,
    max_evaluators: usize,
    asked: int,
)
    requires
        config.max_evaluators == Some(cap),
        cap >= 1,
        max_evaluators >= 1,
    ensures
        1 <= clamped(asked, evaluator_cap(Some(&config), max_evaluators)) <= cap,
        clamped(asked, evaluator_cap(Some(&config), max_evaluators)) <= max_evaluators,
{
}

/// The `[evaluation]` control-plane settings, held to the cap on evaluators in
/// one group. An override wins over the configuration.
pub fn evaluation_settings(
    config: Option<&EvaluationConfig>,
    over: EvaluationOverride,
    max_evaluators: usize,
) -> (r: EvaluationSettings)
    requires
        max_evaluators >= 1,
    ensures
        r.evaluators == clamped(
            setting(over.default_evaluators, configured_evaluators(config), 3) as int,
            evaluator_cap(config, max_evaluators),
        ),
        r.quorum == least(
            setting(None, configured_quorum(config), 2) as int,
            r.evaluators as int,
        ),
        r.strategy == named_strategy(configured_strategy(config)),
        1 <= r.evaluators <= max_evaluators,
        r.quorum <= r.evaluators,
{
    let (asked, quorum, strategy) = match config {
        Some(c) => (
            c.default_evaluators,
            c.default_quorum,
            match &c.strategy {
                Some(name) => strategy_of(Some(name.as_str())),
                None => ConsensusStrategy::Majority,
            },
        ),
        None => (None, None, ConsensusStrategy::Majority),
    };
    let cap = cap_evaluators(config, max_evaluators);
    let evaluators = clamp(pick(over.default_evaluators, asked, 3), cap);
    EvaluationSettings {
        evaluators,
        quorum: min(pick(None, quorum, 2), evaluators),
        strategy,
    }
}

/// The total of evaluator calls across all fix rounds: the override, else the
/// configuration, else the default.
pub fn evaluation_max_total_calls(
    config: Option<&EvaluationConfig>,
    over: Option<EvaluationOverride>,
) -> (r: usize)
    ensures
        r == setting(
            match over {
                Some(o) => o.max_total_evaluator_calls,
                None => None,
            },
            match config {
                Some(c) => c.max_total_evaluator_calls,
                None => None,
            },
            6,
        ),
{
    let first: Option<usize> = match over {
        Some(o) => o.max_total_evaluator_calls,
        None => None,
    };
    let second: Option<usize> = match config {
        Some(c) => c.max_total_evaluator_calls,
        None => None,
    };
    pick(first, second, 6)
}

/// The first evaluators of a consensus review must fit the total budget.
pub fn check_evaluation_budget(evaluators: usize, max_total: usize) -> (r: Result<
    (),
    WorkflowError,
>)
    ensures
        evaluators <= max_total ==> r is Ok,
        evaluators > max_total ==> r == Err::<(), WorkflowError>(
            WorkflowError::EvaluationBudgetExceeded(evaluators, max_total),
        ),
        r is Ok <==> evaluators <= max_total,
{
    if evaluators > max_total {
        Err(WorkflowError::EvaluationBudgetExceeded(evaluators, max_total))
    } else {
        Ok(())
    }
}

/// The candidates of a competition must fit the total budget.
pub fn check_competition_budget(candidates: usize, max_total: usize) -> (r: Result<
    (),
    WorkflowError,
>)
    ensures
        candidates <= max_total ==> r is Ok,
        candidates > max_total ==> r == Err::<(), WorkflowError>(
            WorkflowError::CompetitionBudgetExceeded(candidates, max_total),
        ),
        r is Ok <==> candidates <= max_total,
{
    if candidates > max_total {
        Err(WorkflowError::CompetitionBudgetExceeded(candidates, max_total))
    } else {
        Ok(())
    }
}

/// A panel of agents in the making: each is routed with those excluded that
/// may not be chosen again.
#[derive(Debug, PartialEq, Eq)]
pub struct PanelDraft {
    /// How many agents the panel needs.
    pub wanted: usize,
    /// The agents that the next one must differ from.
    pub excluded: Vec<String>,
    /// The agents chosen so far.
    pub chosen: Vec<String>,
}

impl PanelDraft {
    /// Whether the exclusions are the agents that were barred at first and
    /// those chosen since.
    pub open spec fn consistent(&self, barred: Seq<Seq<char>>) -> bool {
        texts(self.excluded@) == barred + texts(self.chosen@)
    }

    /// A panel of distinct agents.
    pub fn distinct(wanted: usize) -> (r: Self)
        ensures
            r.wanted == wanted,
            r.chosen@.len() == 0,
            r.consistent(Seq::empty()),
    {
        let r = PanelDraft { wanted, excluded: Vec::new(), chosen: Vec::new() };
        assert(texts(r.excluded@) =~= Seq::<Seq<char>>::empty() + texts(r.chosen@));
        r
    }

    /// A panel of distinct agents without one agent: nobody reviews their own
    /// work.
    pub fn without(wanted: usize, barred: &String) -> (r: Self)
        ensures
            r.wanted == wanted,
            r.chosen@.len() == 0,
            r.consistent(seq![barred@]),
    {
        let mut excluded: Vec<String> = Vec::new();
        excluded.push(barred.clone());
        let r = PanelDraft { wanted, excluded, chosen: Vec::new() };
        assert(texts(r.excluded@) =~= seq![barred@] + texts(r.chosen@));
        r
    }

    /// Whether the panel has all its agents.
    pub fn is_full(&self) -> (r: bool)
        ensures
            r == (self.chosen@.len() >= self.wanted),
    {
        self.chosen.len() >= self.wanted
    }

    /// Takes the agent that was routed; it is excluded from then on. The
    /// agents stay distinct as long as the routed agent is not an excluded
    /// one.
    pub fn accept(&mut self, agent: String)
        ensures
            final(self).wanted == old(self).wanted,
            final(self).chosen@ == old(self).chosen@.push(agent),
            forall|barred: Seq<Seq<char>>| #[trigger]
                old(self).consistent(barred) ==> final(self).consistent(barred),
            texts(old(self).excluded@).no_duplicates() && !texts(old(self).excluded@).contains(
                agent@,
            ) ==> texts(final(self).excluded@).no_duplicates(),
    {
        let ghost before = texts(self.excluded@);
        let ghost held = texts(self.chosen@);
        let copy = agent.clone();
        self.excluded.push(copy);
        self.chosen.push(agent);
        proof {
            assert(texts(self.excluded@) =~= before.push(agent@));
            assert(texts(self.chosen@) =~= held.push(agent@));
            assert forall|barred: Seq<Seq<char>>| #[trigger]
                old(self).consistent(barred) implies self.consistent(barred) by {
                assert(barred + held.push(agent@) =~= (barred + held).push(agent@));
            }
        }
    }

    /// The error of a competition for which no further candidate was found.
    pub fn too_few_candidates(&self) -> (r: WorkflowError)
        ensures
            r == WorkflowError::InsufficientCandidates(self.wanted, self.chosen.len()),
    {
        WorkflowError::InsufficientCandidates(self.wanted, self.chosen.len())
    }

    /// The error of a competition for which no further evaluator was found.
    pub fn too_few_evaluators(&self) -> (r: WorkflowError)
        ensures
            r == WorkflowError::InsufficientEvaluationPanel(self.wanted, self.chosen.len()),
    {
        WorkflowError::InsufficientEvaluationPanel(self.wanted, self.chosen.len())
    }
}

/// In a panel without duplicates nobody reviews their own work and no agent
/// sits twice.
pub proof fn panel_is_independent(panel: PanelDraft, barred: Seq<char>)
    requires
        panel.consistent(seq![barred]),
        texts(panel.excluded@).no_duplicates(),
    ensures
        !texts(panel.chosen@).contains(barred),
        texts(panel.chosen@).no_duplicates(),
{
    let all = texts(panel.excluded@);
    let chosen = texts(panel.chosen@);
    assert(all[0] == barred);
    assert forall|i: int, j: int|
        0 <= i < chosen.len() && 0 <= j < chosen.len() && i != j implies chosen[i] != chosen[j] by {
        assert(all[i + 1] == chosen[i]);
        assert(all[j + 1] == chosen[j]);
    }
    if chosen.contains(barred) {
        let k = choose|k: int| 0 <= k < chosen.len() && chosen[k] == barred;
        assert(all[k + 1] == barred);
    }
}

/// An evaluator of a candidate: its node, its agent and its session lane.
#[derive(Debug, PartialEq, Eq)]
pub struct EvaluatorPlan {
    pub node_id: String,
    pub agent_id: String,
    pub lane: String,
}

/// A candidate of a competition: its name, its agent, its session lane and
/// its evaluators.
#[derive(Debug, PartialEq, Eq)]
pub struct CandidatePlan {
    pub candidate_id: String,
    pub agent_id: String,
    pub lane: String,
    pub evaluators: Vec<EvaluatorPlan>,
}

/// Whether this is the plan of an evaluator of a candidate.
pub open spec fn is_evaluator_plan(
    plan: EvaluatorPlan,
    group: Uuid,
    c: nat,
    e: nat,
    agent: String,
) -> bool {
    &&& plan.node_id@ == candidate_evaluator_name(c, e)
    &&& plan.agent_id == agent
    &&& plan.lane@ == evaluation_lane_name(group, candidate_name(c), candidate_evaluator_name(c, e))
}

/// Whether this is the plan of a candidate: named by its number, in a lane of
/// its own, with an evaluator per agent of its panel.
pub open spec fn is_candidate_plan(
    plan: CandidatePlan,
    group: Uuid,
    c: nat,
    agent: String,
    panel: Seq<String>,
) -> bool {
    &&& plan.candidate_id@ == candidate_name(c)
    &&& plan.agent_id == agent
    &&& plan.lane@ == candidate_lane_name(c)
    &&& plan.evaluators@.len() == panel.len()
    &&& forall|e: int|
        0 <= e < panel.len() ==> is_evaluator_plan(
            #[trigger] plan.evaluators@[e],
            group,
            c,
            (e + 1) as nat,
            panel[e],
        )
}

fn plan_candidate(group: Uuid, c: usize, agent: &String, panel: &Vec<String>) -> (r: CandidatePlan)
    ensures
        is_candidate_plan(r, group, c as nat, *agent, panel@),
{
    let candidate_id = candidate_node(c);
    let mut evaluators: Vec<EvaluatorPlan> = Vec::new();
    let n: usize = panel.len();
    let mut e: usize = 0;
    while e < n
        invariant
            e <= n == panel@.len(),
            evaluators@.len() == e,
            candidate_id@ == candidate_name(c as nat),
            forall|k: int|
                0 <= k < e ==> is_evaluator_plan(
                    #[trigger] evaluators@[k],
                    group,
                    c as nat,
                    (k + 1) as nat,
                    panel@[k],
                ),
        decreases n - e,
    {
        let node_id = candidate_evaluator_node(c, e + 1);
        let lane = evaluation_lane(group, candidate_id.as_str(), node_id.as_str());
        evaluators.push(EvaluatorPlan { node_id, agent_id: panel[e].clone(), lane });
        e += 1;
    }
    CandidatePlan { candidate_id, agent_id: agent.clone(), lane: candidate_lane(c), evaluators }
}

/// The layout of a competition: a candidate per agent, numbered from one,
/// each with its own session lane and its own panel of evaluators.
pub fn competition_layout(
    group: Uuid,
    agents: &Vec<String>,
    panels: &Vec<Vec<String>>,
) -> (r: Vec<CandidatePlan>)
    requires
        panels@.len() == agents@.len(),
    ensures
        r@.len() == agents@.len(),
        forall|c: int|
            0 <= c < r@.len() ==> is_candidate_plan(
                #[trigger] r@[c],
                group,
                (c + 1) as nat,
                agents@[c],
                panels@[c]@,
            ),
{
    let mut plans: Vec<CandidatePlan> = Vec::new();
    let n: usize = agents.len();
    let mut c: usize = 0;
    while c < n
        invariant
            c <= n == agents@.len(),
            panels@.len() == agents@.len(),
            plans@.len() == c,
            forall|k: int|
                0 <= k < c ==> is_candidate_plan(
                    #[trigger] plans@[k],
                    group,
                    (k + 1) as nat,
                    agents@[k],
                    panels@[k]@,
                ),
        decreases n - c,
    {
        plans.push(plan_candidate(group, c + 1, &agents[c], &panels[c]));
        c += 1;
    }
    plans
}

/// A node to be added to a graph.
#[derive(Debug, PartialEq, Eq)]
pub struct PlannedNode {
    pub node_id: String,
    pub kind: RoleKind,
    pub dependencies: Vec<String>,
}

/// The names of the first `n` evaluators.
pub open spec fn evaluator_names(n: nat) -> Seq<Seq<char>> {
    Seq::new(n, |i: int| evaluator_name((i + 1) as nat))
}

/// The evaluator nodes of a group, by name.
pub fn evaluator_ids(n: usize) -> (r: Vec<String>)
    ensures
        texts(r@) == evaluator_names(n as nat),
{
    let mut ids: Vec<String> = Vec::new();
    let mut i: usize = 0;
    while i < n
        invariant
            i <= n,
            ids@.len() == i,
            forall|k: int| 0 <= k < i ==> (#[trigger] ids@[k])@ == evaluator_name((k + 1) as nat),
        decreases n - i,
    {
        ids.push(evaluator_node(i + 1));
        i += 1;
    }
    assert(texts(ids@) =~= evaluator_names(n as nat));
    ids
}

/// The graph of a standalone evaluation: the evaluators, side by side, and a
/// consensus gate that waits for all of them.
pub fn evaluation_nodes(evaluators: usize) -> (r: Vec<PlannedNode>)
    requires
        evaluators < usize::MAX,
    ensures
        r@.len() == evaluators + 1,
        forall|i: int|
            0 <= i < evaluators ==> {
                let node = #[trigger] r@[i];
                &&& node.node_id@ == evaluator_name((i + 1) as nat)
                &&& node.kind == RoleKind::Evaluator
                &&& node.dependencies@.len() == 0
            },
        r@[evaluators as int].node_id@ == "consensus_gate"@,
        r@[evaluators as int].kind == RoleKind::ConsensusGate,
        texts(r@[evaluators as int].dependencies@) == evaluator_names(evaluators as nat),
{
    let mut nodes: Vec<PlannedNode> = Vec::new();
    let mut i: usize = 0;
    while i < evaluators
        invariant
            i <= evaluators,
            nodes@.len() == i,
            forall|k: int|
                0 <= k < i ==> {
                    let node = #[trigger] nodes@[k];
                    &&& node.node_id@ == evaluator_name((k + 1) as nat)
                    &&& node.kind == RoleKind::Evaluator
                    &&& node.dependencies@.len() == 0
                },
        decreases evaluators - i,
    {
        nodes.push(
            PlannedNode {
                node_id: evaluator_node(i + 1),
                kind: RoleKind::Evaluator,
                dependencies: Vec::new(),
            },
        );
        i += 1;
    }
    nodes.push(
        PlannedNode {
            node_id: "consensus_gate".to_owned(),
            kind: RoleKind::ConsensusGate,
            dependencies: evaluator_ids(evaluators),
        },
    );
    nodes
}

/// Only a completed workflow is evaluated after the fact.
pub fn check_evaluable(source: &StoredWorkflow) -> (r: Result<(), WorkflowError>)
    ensures
        source.status.value == Some(WorkflowStatus::Completed) ==> r is Ok,
        source.status.value != Some(WorkflowStatus::Completed) ==> r == Err::<(), WorkflowError>(
            WorkflowError::NotRunning(source.id),
        ),
        r is Ok <==> source.status.value == Some(WorkflowStatus::Completed),
{
    match source.status.value {
        Some(status) => if status == WorkflowStatus::Completed {
            Ok(())
        } else {
            Err(WorkflowError::NotRunning(source.id))
        },
        None => Err(WorkflowError::NotRunning(source.id)),
    }
}

/// Whether a row is a completed implementation step.
pub open spec fn is_implementation(row: StoredStep) -> bool {
    row.status.value == Some(WorkflowStepStatus::Completed) && (row.role.value matches Some(role)
        && role.kind == RoleKind::Implementer)
}

/// The last completed implementation step.
pub open spec fn latest_implementation(rows: Seq<StoredStep>) -> Option<StoredStep>
    decreases rows.len(),
{
    if rows.len() == 0 {
        None
    } else if is_implementation(rows.last()) {
        Some(rows.last())
    } else {
        latest_implementation(rows.drop_last())
    }
}

/// The last completed implementation step: what a standalone evaluation looks
/// at.
pub fn find_implementation<'a>(rows: &'a [StoredStep]) -> (r: Option<&'a StoredStep>)
    ensures
        match r {
            Some(row) => latest_implementation(rows@) == Some(*row),
            None => latest_implementation(rows@) is None,
        },
{
    let mut i: usize = rows.len();
    assert(rows@.take(rows@.len() as int) =~= rows@);
    while i > 0
        invariant
            i <= rows@.len(),
            latest_implementation(rows@) == latest_implementation(rows@.take(i as int)),
        decreases i,
    {
        i -= 1;
        let row = &rows[i];
        proof {
            assert(rows@.take(i + 1).drop_last() =~= rows@.take(i as int));
            assert(rows@.take(i + 1).last() == *row);
        }
        let is_completed = match row.status.value {
            Some(status) => status == WorkflowStepStatus::Completed,
            None => false,
        };
        if is_completed {
            if let Some(role) = &row.role.value {
                if role.kind == RoleKind::Implementer {
                    return Some(row);
                }
            }
        }
    }
    None
}

/// The goal of a standalone evaluation: the original goal and what the
/// implementation says of itself.
pub open spec fn evaluation_goal_text(
    source_workflow_id: Uuid,
    goal: Seq<char>,
    summary: Option<Seq<char>>,
) -> Seq<char> {
    "Evaluate the implementation of workflow "@ + id_text(source_workflow_id.bits)
        + " against the original goal. The implementation has completed; assess whether it should be approved.\n\nOriginal goal:\n"@
        + goal + "\n\nImplementation summary:\n"@ + (match summary {
        Some(s) => s,
        None => "(no summary)"@,
    })
}

/// The goal of a standalone evaluation.
pub fn evaluation_goal(source_workflow_id: Uuid, goal: &str, summary: &Option<String>) -> (r:
    String)
    ensures
        r@ == evaluation_goal_text(source_workflow_id, goal@, opt_text(*summary)),
{
    let told = match summary {
        Some(s) => s.clone(),
        None => "(no summary)".to_owned(),
    };
    "Evaluate the implementation of workflow ".to_owned().concat(
        source_workflow_id.to_text().as_str(),
    ).concat(
        " against the original goal. The implementation has completed; assess whether it should be approved.\n\nOriginal goal:\n",
    ).concat(goal).concat("\n\nImplementation summary:\n").concat(told.as_str())
}

/// The settings of a standalone evaluation: what the request asks for, else
/// the configured defaults, held to the cap on evaluators in one group. The
/// strategy is the request's alone.
pub fn requested_evaluation(
    config: Option<&EvaluationConfig>,
    evaluators: Option<usize>,
    strategy: Option<&str>,
    quorum: Option<usize>,
    defaults: EvaluationSettings,
    max_evaluators: usize,
) -> (r: EvaluationSettings)
    requires
        max_evaluators >= 1,
    ensures
        r.evaluators == clamped(
            setting(evaluators, None, defaults.evaluators) as int,
            evaluator_cap(config, max_evaluators),
        ),
        r.quorum == least(setting(quorum, None, defaults.quorum) as int, r.evaluators as int),
        r.strategy == named_strategy(crate::text::opt_str(strategy)),
        1 <= r.evaluators <= max_evaluators,
        r.quorum <= r.evaluators,
{
    let cap = cap_evaluators(config, max_evaluators);
    let n = clamp(pick(evaluators, None, defaults.evaluators), cap);
    EvaluationSettings {
        evaluators: n,
        quorum: min(pick(quorum, None, defaults.quorum), n),
        strategy: strategy_of(strategy),
    }
}

/// How a workflow is started.
#[derive(Clone, Copy, Debug, PartialEq, Eq, Structural)]
pub enum StartKind {
    /// As a consensus review.
    ConsensusReview,
    /// As a Best-of-N competition.
    BestOfN,
    /// As the graph of its preset.
    Graph,
    /// Step by step.
    Sequential,
}

/// How a preset is started: the two presets with evaluators of their own are
/// told by name, the others by whether they have a graph.
pub fn start_kind(preset: &str, consensus_preset: &str, best_of_n_preset: &str, has_graph: bool) -> (r:
    StartKind)
    ensures
        r == (if preset@ == consensus_preset@ {
            StartKind::ConsensusReview
        } else if preset@ == best_of_n_preset@ {
            StartKind::BestOfN
        } else if has_graph {
            StartKind::Graph
        } else {
            StartKind::Sequential
        }),
        r == StartKind::ConsensusReview <==> preset@ == consensus_preset@,
        r == StartKind::BestOfN <==> preset@ == best_of_n_preset@ && preset@ != consensus_preset@,
        r == StartKind::Graph <==> has_graph && preset@ != consensus_preset@ && preset@
            != best_of_n_preset@,
{
    if same_text(preset, consensus_preset) {
        StartKind::ConsensusReview
    } else if same_text(preset, best_of_n_preset) {
        StartKind::BestOfN
    } else if has_graph {
        StartKind::Graph
    } else {
        StartKind::Sequential
    }
}

/// A workflow as it is written to storage when it starts.
#[derive(Debug, PartialEq, Eq)]
pub struct WorkflowRow {
    pub id: Uuid,
    pub preset: String,
    pub goal: String,
    pub status: WorkflowStatus,
    pub context_id: Option<Uuid>,
    pub options_json: String,
    pub review_rounds: i64,
    pub runtime_owner: Option<String>,
    pub runtime_heartbeat_at: Option<String>,
    pub error: Option<String>,
    pub created_at: String,
    pub updated_at: String,
    pub completed_at: Option<String>,
    pub graph_revision: i64,
    pub parent_workflow_id: Option<Uuid>,
    pub recovery_of_node_id: Option<String>,
    pub recovery_attempt: i64,
    pub source_workspace: Option<String>,
}

/// The failed workflow that a new one recovers.
pub struct RecoveryOrigin {
    pub parent_workflow_id: Uuid,
    pub failed_node_id: String,
    pub attempt: i64,
    /// The context of the parent, which the child goes on in.
    pub context_id: Option<Uuid>,
}

/// The row of a workflow that starts: pending, owned by this daemon, at graph
/// revision one, with its lineage where it recovers another workflow.
pub fn new_workflow(
    id: Uuid,
    preset: &str,
    goal: &str,
    options_json: String,
    owner: Uuid,
    now: &String,
    source_workspace: Option<String>,
    origin: Option<RecoveryOrigin>,
) -> (r: WorkflowRow)
    ensures
        r.id == id,
        r.preset@ == preset@,
        r.goal@ == goal@,
        r.status == WorkflowStatus::Pending,
        r.options_json == options_json,
        r.review_rounds == 0,
        opt_text(r.runtime_owner) == Some(id_text(owner.bits)),
        r.runtime_heartbeat_at is None,
        r.error is None,
        r.created_at == *now,
        r.updated_at == *now,
        r.completed_at is None,
        r.graph_revision == 1,
        r.source_workspace == source_workspace,
        match origin {
            Some(o) => r.parent_workflow_id == Some(o.parent_workflow_id) && r.recovery_of_node_id
                == Some(o.failed_node_id) && r.recovery_attempt == o.attempt && r.context_id
                == o.context_id,
            None => r.parent_workflow_id is None && r.recovery_of_node_id is None
                && r.recovery_attempt == 0 && r.context_id is None,
        },
{
    let (parent_workflow_id, recovery_of_node_id, recovery_attempt, context_id) = match origin {
        Some(o) => (Some(o.parent_workflow_id), Some(o.failed_node_id), o.attempt, o.context_id),
        None => (None, None, 0i64, None),
    };
    WorkflowRow {
        id,
        preset: preset.to_owned(),
        goal: goal.to_owned(),
        status: WorkflowStatus::Pending,
        context_id,
        options_json,
        review_rounds: 0,
        runtime_owner: Some(owner.to_text()),
        runtime_heartbeat_at: None,
        error: None,
        created_at: now.clone(),
        updated_at: now.clone(),
        completed_at: None,
        graph_revision: 1,
        parent_workflow_id,
        recovery_of_node_id,
        recovery_attempt,
        source_workspace,
    }
}

/// What is recorded of a workflow that starts.
pub fn started_payload(row: &WorkflowRow, policy: PolicySnapshot) -> (r: WorkflowStartedPayload)
    ensures
        r == (WorkflowStartedPayload {
            workflow_id: row.id,
            preset: row.preset,
            goal: row.goal,
            source_workspace: row.source_workspace,
            base_revision: None,
            policy,
        }),
{
    WorkflowStartedPayload {
        workflow_id: row.id,
        preset: row.preset.clone(),
        goal: row.goal.clone(),
        source_workspace: clone_opt(&row.source_workspace),
        base_revision: None,
        policy,
    }
}

/// The source workspace of a workflow: the canonical form of an existing
/// directory inside a repository. What the file system and git said of the
/// path is given.
pub fn accept_source(
    path: String,
    canonical: Result<String, String>,
    is_dir: bool,
    repository: Result<(), String>,
) -> (r: Result<String, WorkflowError>)
    ensures
        match canonical {
            Err(reason) => r == Err::<String, WorkflowError>(
                WorkflowError::InvalidSourceWorkspace(path, reason),
            ),
            Ok(canonical) => if !is_dir {
                r matches Err(WorkflowError::InvalidSourceWorkspace(p, reason)) && p == path
                    && reason@ == "not a directory"@
            } else {
                match repository {
                    Err(reason) => r == Err::<String, WorkflowError>(
                        WorkflowError::InvalidSourceWorkspace(path, reason),
                    ),
                    Ok(_) => r == Ok::<String, WorkflowError>(canonical),
                }
            },
        },
        r is Ok <==> canonical is Ok && is_dir && repository is Ok,
        r matches Ok(accepted) ==> canonical == Ok::<String, String>(accepted),
{
    match canonical {
        Err(reason) => Err(WorkflowError::InvalidSourceWorkspace(path, reason)),
        Ok(canonical) => {
            if !is_dir {
                return Err(
                    WorkflowError::InvalidSourceWorkspace(path, "not a directory".to_owned()),
                );
            }
            match repository {
                Err(reason) => Err(WorkflowError::InvalidSourceWorkspace(path, reason)),
                Ok(_) => Ok(canonical),
            }
        },
    }
}

/// A number is held between one and a bound by moving it no further than it
/// must.
pub proof fn clamped_is_nearest(n: int, max: int)
    requires
        max >= 1,
    ensures
        1 <= clamped(n, max) <= max,
        1 <= n <= max ==> clamped(n, max) == n,
        n > max ==> clamped(n, max) == max,
        n < 1 ==> clamped(n, max) == 1,
{
}

/// The smaller of two numbers is one of them and above neither.
pub proof fn least_is_a_lower_bound(a: int, b: int)
    ensures
        least(a, b) <= a,
        least(a, b) <= b,
        least(a, b) == a || least(a, b) == b,
{
}

/// The first setting wins over the second, and either over the default.
pub proof fn first_setting_wins(n: usize, other: Option<usize>, default: usize)
    ensures
        setting(Some(n), other, default) == n,
        setting(None, Some(n), default) == n,
        setting(None, None, default) == default,
{
}

/// Consensus is unanimous exactly when the text says so.
pub proof fn only_unanimous_is_unanimous(name: Option<Seq<char>>)
    ensures
        named_strategy(name) == ConsensusStrategy::Unanimous <==> name == Some("unanimous"@),
        named_strategy(name) == ConsensusStrategy::Majority <==> name != Some("unanimous"@),
{
}

/// The candidates of a competition are capped by the override, else by the
/// configuration, else by three, and always by the scheduler.
pub proof fn candidates_are_capped(
    config: Option<CompetitionConfig>,
    over: CompetitionOverride,
    limits: CompetitionLimits,
)
    ensures
        candidate_cap(config, over, limits) <= limits.max_candidates,
        over.max_candidates matches Some(n) ==> candidate_cap(config, over, limits) <= n,
        over.max_candidates is None && config is None && limits.max_candidates >= 3
            ==> candidate_cap(config, over, limits) == 3,
        over.max_candidates matches Some(n) ==> (n <= limits.max_candidates ==> candidate_cap(
            config,
            over,
            limits,
        ) == n),
        over.max_candidates is None ==> (config matches Some(c) ==> (
        c.max_candidates matches Some(n) ==> (n <= limits.max_candidates ==> candidate_cap(
            config,
            over,
            limits,
        ) == n))),
{
}

/// The hard cap on evaluators is the configured one where the scheduler allows
/// it, five where none is configured, never more than the scheduler's and never
/// none.
pub proof fn evaluator_cap_is_the_configured_one(
    config: Option<&EvaluationConfig>,
    max_evaluators: usize,
)
    requires
        max_evaluators >= 1,
    ensures
        1 <= evaluator_cap(config, max_evaluators) <= max_evaluators,
        config is None && max_evaluators >= 5 ==> evaluator_cap(config, max_evaluators) == 5,
        config matches Some(c) ==> (c.max_evaluators matches Some(n) ==> (1 <= n
            <= max_evaluators ==> evaluator_cap(config, max_evaluators) == n)),
        config matches Some(c) ==> (c.max_evaluators is None && max_evaluators >= 5
            ==> evaluator_cap(config, max_evaluators) == 5),
{
}

/// What a standalone evaluation looks at is a completed implementation step,
/// and no completed implementation step comes after it.
pub proof fn latest_implementation_is_the_last_one(rows: Seq<StoredStep>)
    ensures
        latest_implementation(rows) is None <==> forall|i: int|
            0 <= i < rows.len() ==> !((#[trigger] rows[i]).status.value == Some(
                WorkflowStepStatus::Completed,
            ) && rows[i].role.value is Some && rows[i].role.value->0.kind
                == RoleKind::Implementer),
        latest_implementation(rows) matches Some(row) ==> exists|i: int|
            {
                &&& 0 <= i < rows.len()
                &&& #[trigger] rows[i] == row
                &&& row.status.value == Some(WorkflowStepStatus::Completed)
                &&& row.role.value is Some && row.role.value->0.kind == RoleKind::Implementer
                &&& forall|k: int|
                    i < k < rows.len() ==> !((#[trigger] rows[k]).status.value == Some(
                        WorkflowStepStatus::Completed,
                    ) && rows[k].role.value is Some && rows[k].role.value->0.kind
                        == RoleKind::Implementer)
            },
    decreases rows.len(),
{
    if rows.len() > 0 {
        let rest = rows.drop_last();
        let last = rows[rows.len() - 1];
        latest_implementation_is_the_last_one(rest);
        if is_implementation(last) {
            assert(rows[rows.len() - 1] == last);
        } else {
            assert forall|i: int| 0 <= i < rest.len() implies #[trigger] rows[i] == rest[i] by {}
            if latest_implementation(rest) is Some {
                let row = latest_implementation(rest)->0;
                let i = choose|i: int|
                    {
                        &&& 0 <= i < rest.len()
                        &&& #[trigger] rest[i] == row
                        &&& row.status.value == Some(WorkflowStepStatus::Completed)
                        &&& row.role.value is Some && row.role.value->0.kind
                            == RoleKind::Implementer
                        &&& forall|k: int|
                            i < k < rest.len() ==> !((#[trigger] rest[k]).status.value == Some(
                                WorkflowStepStatus::Completed,
                            ) && rest[k].role.value is Some && rest[k].role.value->0.kind
                                == RoleKind::Implementer)
                    };
                assert(rows[i] == row);
                assert forall|k: int| i < k < rows.len() implies !((
                #[trigger] rows[k]).status.value == Some(WorkflowStepStatus::Completed)
                    && rows[k].role.value is Some && rows[k].role.value->0.kind
                    == RoleKind::Implementer) by {
                    if k < rest.len() {
                        assert(rest[k] == rows[k]);
                    }
                }
            } else {
                assert forall|i: int| 0 <= i < rows.len() implies !((
                #[trigger] rows[i]).status.value == Some(WorkflowStepStatus::Completed)
                    && rows[i].role.value is Some && rows[i].role.value->0.kind
                    == RoleKind::Implementer) by {
                    if i < rest.len() {
                        assert(rest[i] == rows[i]);
                    }
                }
            }
        }
    }
}

/// A candidate is made by its own agent in a lane of its own, and each agent of
/// its panel evaluates it once.
pub proof fn candidate_plan_has_its_own_agents(
    plan: CandidatePlan,
    group: Uuid,
    c: nat,
    agent: String,
    panel: Seq<String>,
    e: int,
)
    requires
        is_candidate_plan(plan, group, c, agent, panel),
        0 <= e < panel.len(),
    ensures
        plan.agent_id == agent,
        plan.candidate_id@ == "candidate_"@ + decimal(c),
        plan.evaluators@.len() == panel.len(),
        plan.evaluators@[e].agent_id == panel[e],
        plan.evaluators@[e].node_id@ == candidate_evaluator_name(c, (e + 1) as nat),
        plan.evaluators@[e].lane@ == evaluation_lane_name(
            group,
            plan.candidate_id@,
            plan.evaluators@[e].node_id@,
        ),
{
    assert(is_evaluator_plan(plan.evaluators@[e], group, c, (e + 1) as nat, panel[e]));
}

/// The goal of a standalone evaluation holds the original goal, and the summary
/// of the implementation at its end.
#[verifier::rlimit(40)]
pub proof fn evaluation_goal_holds_goal_and_summary(
    source_workflow_id: Uuid,
    goal: Seq<char>,
    summary: Seq<char>,
)
    ensures
        ends_with(evaluation_goal_text(source_workflow_id, goal, Some(summary)), summary),
        contains_text(evaluation_goal_text(source_workflow_id, goal, Some(summary)), goal),
        contains_text(evaluation_goal_text(source_workflow_id, goal, None), goal),
        contains_text(
            evaluation_goal_text(source_workflow_id, goal, None),
            id_text(source_workflow_id.bits),
        ),
{
    let a = "Evaluate the implementation of workflow "@;
    let id = id_text(source_workflow_id.bits);
    let b =
        " against the original goal. The implementation has completed; assess whether it should be approved.\n\nOriginal goal:\n"@;
    let text = evaluation_goal_text(source_workflow_id, goal, Some(summary));
    let bare = evaluation_goal_text(source_workflow_id, goal, None);
    let at: int = (a + id + b).len() as int;
    assert(text.subrange(at, at + goal.len()) =~= goal);
    assert(stands_at(text, goal, at));
    assert(bare.subrange(at, at + goal.len()) =~= goal);
    assert(stands_at(bare, goal, at));
    assert(bare.subrange(a.len() as int, (a.len() + id.len()) as int) =~= id);
    assert(stands_at(bare, id, a.len() as int));
    assert(text.subrange(text.len() - summary.len(), text.len() as int) =~= summary);
}

/// What a configuration asks for is read from its own fields; without a
/// configuration it asks for nothing.
pub proof fn settings_are_read_from_their_fields(config: &EvaluationConfig)
    ensures
        configured_evaluators(Some(config)) == config.default_evaluators,
        configured_quorum(Some(config)) == config.default_quorum,
        config.strategy matches Some(s) ==> configured_strategy(Some(config)) == Some(s@),
        config.strategy is None ==> configured_strategy(Some(config)) is None,
        configured_evaluators(None) is None,
        configured_quorum(None) is None,
        configured_strategy(None) is None,
{
}

/// The evaluators of a group are numbered from one.
pub proof fn evaluators_are_numbered_from_one(n: nat, i: int)
    requires
        0 <= i < n,
    ensures
        evaluator_names(n).len() == n,
        evaluator_names(n)[i] == "evaluator_"@ + decimal((i + 1) as nat),
{
}

} // verus!
