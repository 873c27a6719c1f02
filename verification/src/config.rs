//! Configuration: defaults, layering and validation.
//!
//! Precedence: project config over user config over defaults.

use vstd::prelude::*;
use vstd::string::*;

use crate::collections::{entries_agree, StringMap};
use crate::model::TaskIntent;
use crate::paths::Location;
use crate::text::{clone_opt, clone_strings, opt_text, texts};

pub use crate::config::validation::ConfigValidationError;

pub mod validation;

verus! {

/// Deterministic routing preferences, one ordered agent list per intent, most
/// preferred first.
#[derive(Debug, PartialEq, Eq)]
pub struct RoutingConfig {
    pub architecture: Vec<String>,
    pub implementation: Vec<String>,
    pub debug: Vec<String>,
    pub review: Vec<String>,
    pub testing: Vec<String>,
    pub uiux: Vec<String>,
    pub general: Vec<String>,
}

impl Clone for RoutingConfig {
    fn clone(&self) -> (r: Self)
        ensures
            r.same(*self),
    {
        RoutingConfig {
            architecture: clone_strings(&self.architecture),
            implementation: clone_strings(&self.implementation),
            debug: clone_strings(&self.debug),
            review: clone_strings(&self.review),
            testing: clone_strings(&self.testing),
            uiux: clone_strings(&self.uiux),
            general: clone_strings(&self.general),
        }
    }
}

fn agents4(a: &str, b: &str, c: &str, d: &str) -> (r: Vec<String>)
    ensures
        texts(r@) == seq![a@, b@, c@, d@],
{
    let r = vec![a.to_owned(), b.to_owned(), c.to_owned(), d.to_owned()];
    assert(texts(r@) =~= seq![a@, b@, c@, d@]);
    r
}

/// The agents in the order in which they are asked to plan; `lead` is the one
/// that is asked first.
pub open spec fn planning_order(lead: Seq<char>) -> Seq<Seq<char>> {
    seq![lead, "codex"@, "opencode"@, "antigravity"@]
}

/// The agents in the order in which they are asked to code.
pub open spec fn coding_order(lead: Seq<char>) -> Seq<Seq<char>> {
    seq!["codex"@, "opencode"@, lead, "antigravity"@]
}

/// The agents in the order in which they are asked to design.
pub open spec fn design_order(lead: Seq<char>) -> Seq<Seq<char>> {
    seq!["antigravity"@, lead, "opencode"@]
}

fn default_architecture(lead: &str) -> (r: Vec<String>)
    ensures
        texts(r@) == planning_order(lead@),
{
    agents4(lead, "codex", "opencode", "antigravity")
}

fn default_implementation(lead: &str) -> (r: Vec<String>)
    ensures
        texts(r@) == coding_order(lead@),
{
    agents4("codex", "opencode", lead, "antigravity")
}

fn default_debug(lead: &str) -> (r: Vec<String>)
    ensures
        texts(r@) == coding_order(lead@),
{
    agents4("codex", "opencode", lead, "antigravity")
}

fn default_review(lead: &str) -> (r: Vec<String>)
    ensures
        texts(r@) == planning_order(lead@),
{
    agents4(lead, "codex", "opencode", "antigravity")
}

fn default_testing(lead: &str) -> (r: Vec<String>)
    ensures
        texts(r@) == coding_order(lead@),
{
    agents4("codex", "opencode", lead, "antigravity")
}

fn default_uiux(lead: &str) -> (r: Vec<String>)
    ensures
        texts(r@) == design_order(lead@),
{
    let r = vec!["antigravity".to_owned(), lead.to_owned(), "opencode".to_owned()];
    assert(texts(r@) =~= design_order(lead@));
    r
}

fn default_general(lead: &str) -> (r: Vec<String>)
    ensures
        texts(r@) == planning_order(lead@),
{
    agents4(lead, "codex", "opencode", "antigravity")
}

impl RoutingConfig {
    /// Whether two routing tables list the same agents.
    pub open spec fn same(&self, other: RoutingConfig) -> bool {
        &&& self.architecture@ == other.architecture@
        &&& self.implementation@ == other.implementation@
        &&& self.debug@ == other.debug@
        &&& self.review@ == other.review@
        &&& self.testing@ == other.testing@
        &&& self.uiux@ == other.uiux@
        &&& self.general@ == other.general@
    }

    /// Whether this is the default routing table.
    pub open spec fn is_default(&self, lead: Seq<char>) -> bool {
        &&& texts(self.architecture@) == planning_order(lead)
        &&& texts(self.implementation@) == coding_order(lead)
        &&& texts(self.debug@) == coding_order(lead)
        &&& texts(self.review@) == planning_order(lead)
        &&& texts(self.testing@) == coding_order(lead)
        &&& texts(self.uiux@) == design_order(lead)
        &&& texts(self.general@) == planning_order(lead)
    }

    /// The list of an intent.
    pub open spec fn list_of(&self, intent: TaskIntent) -> Seq<String> {
        match intent {
            TaskIntent::Architecture => self.architecture@,
            TaskIntent::Implementation => self.implementation@,
            TaskIntent::Debug => self.debug@,
            TaskIntent::Review => self.review@,
            TaskIntent::Testing => self.testing@,
            TaskIntent::UIUX => self.uiux@,
            TaskIntent::General => self.general@,
        }
    }

    /// Preferred agent ids for an intent, most preferred first.
    pub fn preferred(&self, intent: TaskIntent) -> (r: &[String])
        ensures
            r@ == self.list_of(intent),
    {
        match intent {
            TaskIntent::Architecture => self.architecture.as_slice(),
            TaskIntent::Implementation => self.implementation.as_slice(),
            TaskIntent::Debug => self.debug.as_slice(),
            TaskIntent::Review => self.review.as_slice(),
            TaskIntent::Testing => self.testing.as_slice(),
            TaskIntent::UIUX => self.uiux.as_slice(),
            TaskIntent::General => self.general.as_slice(),
        }
    }

    /// A routing table from the lists that are given; an intent without a
    /// list has its default.
    pub fn with_defaults(
        lead: &str,
        architecture: Option<Vec<String>>,
        implementation: Option<Vec<String>>,
        debug: Option<Vec<String>>,
        review: Option<Vec<String>>,
        testing: Option<Vec<String>>,
        uiux: Option<Vec<String>>,
        general: Option<Vec<String>>,
    ) -> (r: Self)
        ensures
            list_or(r.architecture, architecture, planning_order(lead@)),
            list_or(r.implementation, implementation, coding_order(lead@)),
            list_or(r.debug, debug, coding_order(lead@)),
            list_or(r.review, review, planning_order(lead@)),
            list_or(r.testing, testing, coding_order(lead@)),
            list_or(r.uiux, uiux, design_order(lead@)),
            list_or(r.general, general, planning_order(lead@)),
    {
        let defaults = RoutingConfig::defaults(lead);
        RoutingConfig {
            architecture: architecture.unwrap_or(defaults.architecture),
            implementation: implementation.unwrap_or(defaults.implementation),
            debug: debug.unwrap_or(defaults.debug),
            review: review.unwrap_or(defaults.review),
            testing: testing.unwrap_or(defaults.testing),
            uiux: uiux.unwrap_or(defaults.uiux),
            general: general.unwrap_or(defaults.general),
        }
    }
}

/// Whether a list is the one given, or else the default one.
pub open spec fn list_or(list: Vec<String>, given: Option<Vec<String>>, default: Seq<Seq<char>>) -> bool {
    match given {
        Some(l) => list == l,
        None => texts(list@) == default,
    }
}

impl RoutingConfig {
    /// The default routing table, with the id of the lead agent.
    pub fn defaults(lead: &str) -> (r: Self)
        ensures
            r.is_default(lead@),
    {
        RoutingConfig {
            architecture: default_architecture(lead),
            implementation: default_implementation(lead),
            debug: default_debug(lead),
            review: default_review(lead),
            testing: default_testing(lead),
            uiux: default_uiux(lead),
            general: default_general(lead),
        }
    }
}

/// The value of a layer, or of the layer below where it has none.
pub open spec fn layered<T>(below: Option<T>, above: Option<T>) -> Option<T> {
    match above {
        Some(v) => Some(v),
        None => below,
    }
}

/// Planner policy limits, `[planner.policy]`. Every field is optional; an
/// absent field falls back to a safe default.
#[derive(Clone, Debug, PartialEq, Eq)]
pub struct PlanPolicyConfig {
    /// Maximum plan nodes (and, for a fixed DAG, maximum agent calls).
    pub max_nodes: Option<usize>,
    /// Maximum estimated agent calls (= node count for a fixed DAG).
    pub max_agent_calls: Option<usize>,
    /// Maximum concurrent DAG nodes a `plan execute` may request.
    pub max_parallel: Option<usize>,
    /// Intents a plan node may use; absent = the full legal intent set.
    pub allowed_intents: Option<Vec<String>>,
    /// Roles a plan node may use; absent = the full legal role set.
    pub allowed_roles: Option<Vec<String>>,
}

impl Default for PlanPolicyConfig {
    fn default() -> (r: Self)
        ensures
            r == (PlanPolicyConfig {
                max_nodes: None,
                max_agent_calls: None,
                max_parallel: None,
                allowed_intents: None,
                allowed_roles: None,
            }),
    {
        PlanPolicyConfig {
            max_nodes: None,
            max_agent_calls: None,
            max_parallel: None,
            allowed_intents: None,
            allowed_roles: None,
        }
    }
}

impl PlanPolicyConfig {
    /// The policy with another layered on top, field by field.
    pub open spec fn under(self, above: PlanPolicyConfig) -> PlanPolicyConfig {
        PlanPolicyConfig {
            max_nodes: layered(self.max_nodes, above.max_nodes),
            max_agent_calls: layered(self.max_agent_calls, above.max_agent_calls),
            max_parallel: layered(self.max_parallel, above.max_parallel),
            allowed_intents: layered(self.allowed_intents, above.allowed_intents),
            allowed_roles: layered(self.allowed_roles, above.allowed_roles),
        }
    }

    /// Merge `other` into `self`; `other` wins per-field on conflicts.
    pub fn merge(&mut self, other: PlanPolicyConfig)
        ensures
            *final(self) == old(self).under(other),
    {
        if other.max_nodes.is_some() {
            self.max_nodes = other.max_nodes;
        }
        if other.max_agent_calls.is_some() {
            self.max_agent_calls = other.max_agent_calls;
        }
        if other.max_parallel.is_some() {
            self.max_parallel = other.max_parallel;
        }
        if other.allowed_intents.is_some() {
            self.allowed_intents = other.allowed_intents;
        }
        if other.allowed_roles.is_some() {
            self.allowed_roles = other.allowed_roles;
        }
    }
}

/// Planner configuration, `[planner]`.
#[derive(Clone, Debug, PartialEq, Eq)]
pub struct PlannerConfig {
    pub policy: Option<PlanPolicyConfig>,
}

impl Default for PlannerConfig {
    fn default() -> (r: Self)
        ensures
            r.policy is None,
    {
        PlannerConfig { policy: None }
    }
}

impl PlannerConfig {
    /// The planner configuration with another layered on top.
    pub open spec fn under(self, above: PlannerConfig) -> PlannerConfig {
        PlannerConfig {
            policy: match (self.policy, above.policy) {
                (Some(p), Some(q)) => Some(p.under(q)),
                (p, q) => layered(p, q),
            },
        }
    }

    /// Merge `other` into `self`; `other` wins per-field on conflicts.
    pub fn merge(&mut self, other: PlannerConfig)
        ensures
            *final(self) == old(self).under(other),
    {
        if let Some(policy) = other.policy {
            match self.policy.take() {
                Some(existing) => {
                    let mut merged = existing;
                    merged.merge(policy);
                    self.policy = Some(merged);
                },
                None => {
                    self.policy = Some(policy);
                },
            }
        }
    }
}

/// Evaluation policy, `[evaluation]`.
///
/// The control plane decides evaluator count, quorum and consensus strategy;
/// the planner never sets them.
#[derive(Debug, PartialEq, Eq)]
pub struct EvaluationConfig {
    /// Hard cap on evaluators in one group (default 5).
    pub max_evaluators: Option<usize>,
    /// Default evaluators when not specified (default 3).
    pub default_evaluators: Option<usize>,
    /// Default quorum (default 2).
    pub default_quorum: Option<usize>,
    /// Consensus strategy: `majority` | `unanimous` (default `majority`).
    pub strategy: Option<String>,
    /// Maximum total evaluator agent calls across all consensus fix rounds
    /// (default 6).
    pub max_total_evaluator_calls: Option<usize>,
}

impl Clone for EvaluationConfig {
    fn clone(&self) -> (r: Self)
        ensures
            r == *self,
    {
        EvaluationConfig {
            max_evaluators: self.max_evaluators,
            default_evaluators: self.default_evaluators,
            default_quorum: self.default_quorum,
            strategy: clone_opt(&self.strategy),
            max_total_evaluator_calls: self.max_total_evaluator_calls,
        }
    }
}

impl Default for EvaluationConfig {
    fn default() -> (r: Self)
        ensures
            r == (EvaluationConfig {
                max_evaluators: None,
                default_evaluators: None,
                default_quorum: None,
                strategy: None,
                max_total_evaluator_calls: None,
            }),
    {
        EvaluationConfig {
            max_evaluators: None,
            default_evaluators: None,
            default_quorum: None,
            strategy: None,
            max_total_evaluator_calls: None,
        }
    }
}

impl EvaluationConfig {
    /// The safe defaults.
    pub fn defaults() -> (r: Self)
        ensures
            r.max_evaluators == Some(5usize),
            r.default_evaluators == Some(3usize),
            r.default_quorum == Some(2usize),
            opt_text(r.strategy) == Some("majority"@),
            r.max_total_evaluator_calls == Some(6usize),
    {
        EvaluationConfig {
            max_evaluators: Some(5),
            default_evaluators: Some(3),
            default_quorum: Some(2),
            strategy: Some("majority".to_owned()),
            max_total_evaluator_calls: Some(6),
        }
    }

    /// The evaluation policy with another layered on top, field by field.
    pub open spec fn under(self, above: EvaluationConfig) -> EvaluationConfig {
        EvaluationConfig {
            max_evaluators: layered(self.max_evaluators, above.max_evaluators),
            default_evaluators: layered(self.default_evaluators, above.default_evaluators),
            default_quorum: layered(self.default_quorum, above.default_quorum),
            strategy: layered(self.strategy, above.strategy),
            max_total_evaluator_calls: layered(
                self.max_total_evaluator_calls,
                above.max_total_evaluator_calls,
            ),
        }
    }

    /// Merge `other` into `self`; `other` wins per-field on conflicts.
    pub fn merge(&mut self, other: EvaluationConfig)
        ensures
            *final(self) == old(self).under(other),
    {
        if other.max_evaluators.is_some() {
            self.max_evaluators = other.max_evaluators;
        }
        if other.default_evaluators.is_some() {
            self.default_evaluators = other.default_evaluators;
        }
        if other.default_quorum.is_some() {
            self.default_quorum = other.default_quorum;
        }
        if other.strategy.is_some() {
            self.strategy = other.strategy;
        }
        if other.max_total_evaluator_calls.is_some() {
            self.max_total_evaluator_calls = other.max_total_evaluator_calls;
        }
    }
}

/// Competition policy limits, `[competition]`.
#[derive(Clone, Copy, Debug, PartialEq, Eq, Structural)]
pub struct CompetitionConfig {
    /// Default number of candidates in a Best-of-N competition (default 2).
    pub default_candidates: Option<usize>,
    /// Hard cap on candidates in one competition (default 3, max 3).
    pub max_candidates: Option<usize>,
    /// Maximum total candidate calls allowed (default 3).
    pub max_total_candidate_calls: Option<usize>,
}

impl Default for CompetitionConfig {
    fn default() -> (r: Self)
        ensures
            r == (CompetitionConfig {
                default_candidates: None,
                max_candidates: None,
                max_total_candidate_calls: None,
            }),
    {
        CompetitionConfig {
            default_candidates: None,
            max_candidates: None,
            max_total_candidate_calls: None,
        }
    }
}

impl CompetitionConfig {
    /// The safe defaults.
    pub fn defaults() -> (r: Self)
        ensures
            r == (CompetitionConfig {
                default_candidates: Some(2),
                max_candidates: Some(3),
                max_total_candidate_calls: Some(3),
            }),
    {
        CompetitionConfig {
            default_candidates: Some(2),
            max_candidates: Some(3),
            max_total_candidate_calls: Some(3),
        }
    }

    /// The competition policy with another layered on top, field by field.
    pub open spec fn under(self, above: CompetitionConfig) -> CompetitionConfig {
        CompetitionConfig {
            default_candidates: layered(self.default_candidates, above.default_candidates),
            max_candidates: layered(self.max_candidates, above.max_candidates),
            max_total_candidate_calls: layered(
                self.max_total_candidate_calls,
                above.max_total_candidate_calls,
            ),
        }
    }

    /// Merge `other` into `self`; `other` wins per-field on conflicts.
    pub fn merge(&mut self, other: CompetitionConfig)
        ensures
            *final(self) == old(self).under(other),
    {
        if other.default_candidates.is_some() {
            self.default_candidates = other.default_candidates;
        }
        if other.max_candidates.is_some() {
            self.max_candidates = other.max_candidates;
        }
        if other.max_total_candidate_calls.is_some() {
            self.max_total_candidate_calls = other.max_total_candidate_calls;
        }
    }
}

/// Recovery policy limits, `[recovery]`.
///
/// Failure recovery is bounded, and a proposal is never auto-executed unless
/// `auto_execute` is explicitly `true`.
#[derive(Clone, Copy, Debug, PartialEq, Eq, Structural)]
pub struct RecoveryConfig {
    /// Max recovery attempts per failed workflow (default 1, hard cap 2).
    pub max_attempts: Option<usize>,
    /// Auto-generate a recovery proposal when a node fails (default true).
    pub auto_generate: Option<bool>,
    /// Auto-execute a ready recovery proposal (default false).
    pub auto_execute: Option<bool>,
    /// Total agent calls budgeted across the whole recovery chain (default 6).
    pub max_recovery_agent_calls: Option<usize>,
}

impl Default for RecoveryConfig {
    fn default() -> (r: Self)
        ensures
            r == (RecoveryConfig {
                max_attempts: None,
                auto_generate: None,
                auto_execute: None,
                max_recovery_agent_calls: None,
            }),
    {
        RecoveryConfig {
            max_attempts: None,
            auto_generate: None,
            auto_execute: None,
            max_recovery_agent_calls: None,
        }
    }
}

impl RecoveryConfig {
    /// The safe default policy.
    pub fn defaults() -> (r: Self)
        ensures
            r == (RecoveryConfig {
                max_attempts: Some(1),
                auto_generate: Some(true),
                auto_execute: Some(false),
                max_recovery_agent_calls: Some(6),
            }),
    {
        RecoveryConfig {
            max_attempts: Some(1),
            auto_generate: Some(true),
            auto_execute: Some(false),
            max_recovery_agent_calls: Some(6),
        }
    }

    /// The recovery policy with another layered on top, field by field.
    pub open spec fn under(self, above: RecoveryConfig) -> RecoveryConfig {
        RecoveryConfig {
            max_attempts: layered(self.max_attempts, above.max_attempts),
            auto_generate: layered(self.auto_generate, above.auto_generate),
            auto_execute: layered(self.auto_execute, above.auto_execute),
            max_recovery_agent_calls: layered(
                self.max_recovery_agent_calls,
                above.max_recovery_agent_calls,
            ),
        }
    }

    /// Merge `other` into `self`; `other` wins per-field on conflicts.
    pub fn merge(&mut self, other: RecoveryConfig)
        ensures
            *final(self) == old(self).under(other),
    {
        if other.max_attempts.is_some() {
            self.max_attempts = other.max_attempts;
        }
        if other.auto_generate.is_some() {
            self.auto_generate = other.auto_generate;
        }
        if other.auto_execute.is_some() {
            self.auto_execute = other.auto_execute;
        }
        if other.max_recovery_agent_calls.is_some() {
            self.max_recovery_agent_calls = other.max_recovery_agent_calls;
        }
    }
}

/// Per-agent configuration, e.g. `[agents.codex]`.
#[derive(Clone, Debug, PartialEq, Eq)]
pub struct AgentConfig {
    pub enabled: bool,
    /// Executable used to launch the agent; `None` means the adapter's
    /// built-in default (e.g. `codex`).
    pub command: Option<String>,
    /// Extra arguments prepended to the adapter's own arguments.
    pub args: Vec<String>,
    /// Extra environment variables passed to the agent process.
    pub env: StringMap<String>,
    /// Vendor-specific options, e.g. `options.sandbox = "read-only"`.
    pub options: StringMap<String>,
}

/// An agent is enabled unless its section says otherwise.
pub fn default_enabled() -> (r: bool)
    ensures
        r,
{
    true
}

impl Default for AgentConfig {
    fn default() -> (r: Self)
        ensures
            r.is_plain(None),
    {
        AgentConfig {
            enabled: true,
            command: None,
            args: Vec::new(),
            env: StringMap::new(),
            options: StringMap::new(),
        }
    }
}

impl AgentConfig {
    /// Whether the agent is enabled with a command and nothing else set.
    pub open spec fn is_plain(&self, command: Option<Seq<char>>) -> bool {
        &&& self.enabled
        &&& opt_text(self.command) == command
        &&& self.args@.len() == 0
        &&& self.env@ == Map::<Seq<char>, String>::empty()
        &&& self.options@ == Map::<Seq<char>, String>::empty()
    }

    /// An enabled agent with a command and nothing else set.
    pub fn with_command(command: &str) -> (r: Self)
        ensures
            r.is_plain(Some(command@)),
    {
        AgentConfig {
            enabled: true,
            command: Some(command.to_owned()),
            args: Vec::new(),
            env: StringMap::new(),
            options: StringMap::new(),
        }
    }

    /// Whether this is `below` with `above` layered on top: whether it is
    /// enabled and its arguments come from `above`, the command from `above`
    /// where it has one, and each variable and option from `above` where it
    /// sets it.
    pub open spec fn layers(&self, below: AgentConfig, above: AgentConfig) -> bool {
        &&& self.enabled == above.enabled
        &&& self.command == layered(below.command, above.command)
        &&& self.args == above.args
        &&& self.env@ == below.env@.union_prefer_right(above.env@)
        &&& self.options@ == below.options@.union_prefer_right(above.options@)
    }

    /// Merge `other` into `self`; `other` wins on conflicts. Env and options
    /// maps are merged key-by-key.
    pub fn merge(&mut self, other: AgentConfig)
        ensures
            final(self).layers(*old(self), other),
    {
        self.enabled = other.enabled;
        if other.command.is_some() {
            self.command = other.command;
        }
        self.args = other.args;
        merge_map(&mut self.env, other.env);
        merge_map(&mut self.options, other.options);
    }
}

fn merge_map(below: &mut StringMap<String>, above: StringMap<String>)
    ensures
        final(below)@ == old(below)@.union_prefer_right(above@),
{
    let n: usize = above.len();
    let mut i: usize = 0;
    let ghost start = below@;
    while i < n
        invariant
            i <= n == above.keys().len(),
            entries_agree(above@, above.keys(), above.values()),
            forall|k: Seq<char>| #[trigger]
                below@.dom().contains(k) <==> start.dom().contains(k) || above.keys().take(
                    i as int,
                ).contains(k),
            forall|k: Seq<char>|
                above.keys().take(i as int).contains(k) ==> #[trigger] below@[k] == above@[k],
            forall|k: Seq<char>|
                start.dom().contains(k) && !above.keys().take(i as int).contains(k)
                    ==> #[trigger] below@[k] == start[k],
        decreases n - i,
    {
        let ghost ks = above.keys();
        let key = above.key_at(i).clone();
        let value = above.value_at(i).clone();
        let ghost prior = below@;
        proof {
            assert(ks.take(i + 1) =~= ks.take(i as int).push(ks[i as int]));
            assert forall|k: Seq<char>| #[trigger]
                ks.take(i + 1).contains(k) <==> ks.take(i as int).contains(k) || k
                    == ks[i as int] by {
                if ks.take(i as int).contains(k) {
                    let j = choose|j: int| 0 <= j < i && ks.take(i as int)[j] == k;
                    assert(ks.take(i + 1)[j] == k);
                }
                if k == ks[i as int] {
                    assert(ks.take(i + 1)[i as int] == k);
                }
            }
        }
        below.insert(key, value);
        i += 1;
        proof {
            assert(ks.take(i as int) == above.keys().take(i as int));
            assert forall|k: Seq<char>| #[trigger]
                below@.dom().contains(k) <==> start.dom().contains(k) || above.keys().take(
                    i as int,
                ).contains(k) by {
                assert(ks.take(i as int).contains(k) <==> ks.take(i - 1).contains(k) || k == ks[i
                    - 1]);
                assert(prior.dom().contains(k) <==> start.dom().contains(k) || ks.take(
                    i - 1,
                ).contains(k));
            }
            assert forall|k: Seq<char>|
                start.dom().contains(k) && !above.keys().take(i as int).contains(
                    k,
                ) implies #[trigger] below@[k] == start[k] by {
                assert(ks.take(i as int).contains(k) <==> ks.take(i - 1).contains(k) || k == ks[i
                    - 1]);
                assert(prior[k] == start[k]);
            }
        }
    }
    proof {
        assert(above.keys().take(i as int) =~= above.keys());
        assert forall|k: Seq<char>| #[trigger] above@.dom().contains(k) <==> above.keys().contains(
            k,
        ) by {
            if above.keys().contains(k) {
                let j = choose|j: int| 0 <= j < above.keys().len() && above.keys()[j] == k;
                assert(above@.dom().contains(above.keys()[j]));
            }
        }
        assert(below@ =~= start.union_prefer_right(above@));
    }
}

/// Top-level AgentMesh configuration.
#[derive(Clone, Debug, PartialEq, Eq)]
pub struct AgentMeshConfig {
    pub agents: StringMap<AgentConfig>,
    /// Routing preferences for the rule router; `None` uses the defaults.
    pub routing: Option<RoutingConfig>,
    /// Planner configuration; `None` uses the safe defaults.
    pub planner: Option<PlannerConfig>,
    /// Recovery policy; `None` uses the safe defaults.
    pub recovery: Option<RecoveryConfig>,
    /// Evaluation policy; `None` uses the safe defaults.
    pub evaluation: Option<EvaluationConfig>,
    /// Competition policy; `None` uses the safe defaults.
    pub competition: Option<CompetitionConfig>,
}

/// The sections of two layers of which both may lack it.
pub open spec fn layered_section<T>(
    below: Option<T>,
    above: Option<T>,
    merge: spec_fn(T, T) -> T,
) -> Option<T> {
    match (below, above) {
        (Some(b), Some(a)) => Some(merge(b, a)),
        (b, a) => layered(b, a),
    }
}

/// Whether agents are those of two layers: an agent of one layer alone is
/// kept as it is, an agent of both has the two layered.
pub open spec fn agents_layered(
    result: Map<Seq<char>, AgentConfig>,
    below: Map<Seq<char>, AgentConfig>,
    above: Map<Seq<char>, AgentConfig>,
) -> bool {
    &&& forall|k: Seq<char>| #[trigger]
        result.dom().contains(k) <==> below.dom().contains(k) || above.dom().contains(k)
    &&& forall|k: Seq<char>|
        below.dom().contains(k) && !above.dom().contains(k) ==> #[trigger] result[k] == below[k]
    &&& forall|k: Seq<char>|
        above.dom().contains(k) && !below.dom().contains(k) ==> #[trigger] result[k] == above[k]
    &&& forall|k: Seq<char>|
        above.dom().contains(k) && below.dom().contains(k) ==> (#[trigger] result[k]).layers(
            below[k],
            above[k],
        )
}

/// Whether an id can be that of the lead agent: it is none of the other
/// built-in agents.
pub open spec fn is_lead(id: Seq<char>) -> bool {
    id != "mock"@ && id != "codex"@ && id != "opencode"@ && id != "antigravity"@
}

impl AgentMeshConfig {
    /// Whether this is the default configuration: the five built-in agents
    /// (`lead` among them) enabled with their standard commands, default
    /// routing, nothing else.
    pub open spec fn is_default(&self, lead: Seq<char>) -> bool {
        &&& self.agents@.dom() == set![
            "mock"@,
            lead,
            "codex"@,
            "opencode"@,
            "antigravity"@,
        ]
        &&& self.agents@["mock"@].is_plain(None)
        &&& self.agents@[lead].is_plain(Some(lead))
        &&& self.agents@["codex"@].is_plain(Some("codex"@))
        &&& self.agents@["opencode"@].is_plain(Some("opencode"@))
        &&& self.agents@["antigravity"@].is_plain(Some("agy"@))
        &&& self.routing matches Some(r) && r.is_default(lead)
        &&& self.planner is None
        &&& self.recovery is None
        &&& self.evaluation is None
        &&& self.competition is None
    }

    /// Default configuration: the five built-in agents enabled with their
    /// standard commands. The id of the lead agent, under which it is also
    /// launched, is given.
    pub fn default_config(lead: &str) -> (r: Self)
        requires
            is_lead(lead@),
        ensures
            r.is_default(lead@),
    {
        proof {
            agent_names_differ();
        }
        let mut agents: StringMap<AgentConfig> = StringMap::new();
        agents.insert("mock".to_owned(), AgentConfig::default());
        agents.insert(lead.to_owned(), AgentConfig::with_command(lead));
        agents.insert("codex".to_owned(), AgentConfig::with_command("codex"));
        agents.insert("opencode".to_owned(), AgentConfig::with_command("opencode"));
        agents.insert("antigravity".to_owned(), AgentConfig::with_command("agy"));
        assert(agents@.dom() =~= set![
            "mock"@,
            lead@,
            "codex"@,
            "opencode"@,
            "antigravity"@,
        ]);
        AgentMeshConfig {
            agents,
            routing: Some(RoutingConfig::defaults(lead)),
            planner: None,
            recovery: None,
            evaluation: None,
            competition: None,
        }
    }

    /// Resolved routing configuration (defaults when not configured).
    pub fn routing_config(&self, lead: &str) -> (r: RoutingConfig)
        ensures
            match self.routing {
                Some(routing) => r.same(routing),
                None => r.is_default(lead@),
            },
    {
        match &self.routing {
            Some(routing) => routing.clone(),
            None => RoutingConfig::defaults(lead),
        }
    }

    /// Whether this is `below` with `above` layered on top.
    pub open spec fn layers(&self, below: AgentMeshConfig, above: AgentMeshConfig) -> bool {
        &&& agents_layered(self.agents@, below.agents@, above.agents@)
        &&& self.routing == layered(below.routing, above.routing)
        &&& self.planner == layered_section(
            below.planner,
            above.planner,
            |b: PlannerConfig, a: PlannerConfig| b.under(a),
        )
        &&& self.recovery == layered_section(
            below.recovery,
            above.recovery,
            |b: RecoveryConfig, a: RecoveryConfig| b.under(a),
        )
        &&& self.evaluation == layered_section(
            below.evaluation,
            above.evaluation,
            |b: EvaluationConfig, a: EvaluationConfig| b.under(a),
        )
        &&& self.competition == layered_section(
            below.competition,
            above.competition,
            |b: CompetitionConfig, a: CompetitionConfig| b.under(a),
        )
    }
}

/// Whether a configuration is another one with a layer on top, where there is
/// a layer.
pub open spec fn with_layer(
    result: AgentMeshConfig,
    below: AgentMeshConfig,
    layer: Option<AgentMeshConfig>,
) -> bool {
    match layer {
        Some(above) => result.layers(below, above),
        None => result == below,
    }
}

fn layer_agents(below: StringMap<AgentConfig>, above: StringMap<AgentConfig>) -> (r: StringMap<
    AgentConfig,
>)
    ensures
        agents_layered(r@, below@, above@),
{
    let ghost start = below@;
    let ghost over = above@;
    let mut below = below;
    let mut rest = above;
    let ghost mut taken = Map::<Seq<char>, AgentConfig>::empty();
    let mut left: usize = rest.len();
    assert(over =~= taken.union_prefer_right(rest@));
    while left > 0
        invariant
            left == rest.keys().len(),
            entries_agree(rest@, rest.keys(), rest.values()),
            over == taken.union_prefer_right(rest@),
            taken.dom().disjoint(rest@.dom()),
            agents_layered(below@, start, taken),
        decreases left,
    {
        let ghost before = below@;
        let (id, agent) = rest.remove_at(0);
        let ghost key = id@;
        proof {
            taken = taken.insert(id@, agent);
            assert(over =~= taken.union_prefer_right(rest@));
        }
        match below.position(id.as_str()) {
            Some(at) => {
                let (name, existing) = below.remove_at(at);
                let mut merged = existing;
                merged.merge(agent);
                below.insert(name, merged);
                assert(below@ =~= before.insert(key, merged));
            },
            None => {
                below.insert(id, agent);
            },
        }
        left = rest.len();
    }
    assert(over =~= taken);
    below
}

impl AgentMeshConfig {
    /// Overlay `other` on top of `self`; per-agent entries in `other` win.
    pub fn overlay(self, other: AgentMeshConfig) -> (r: AgentMeshConfig)
        ensures
            r.layers(self, other),
    {
        let agents = layer_agents(self.agents, other.agents);
        let routing = if other.routing.is_some() {
            other.routing
        } else {
            self.routing
        };
        let planner = match (self.planner, other.planner) {
            (Some(existing), Some(planner)) => {
                let mut merged = existing;
                merged.merge(planner);
                Some(merged)
            },
            (None, Some(planner)) => Some(planner),
            (existing, None) => existing,
        };
        let recovery = match (self.recovery, other.recovery) {
            (Some(existing), Some(recovery)) => {
                let mut merged = existing;
                merged.merge(recovery);
                Some(merged)
            },
            (None, Some(recovery)) => Some(recovery),
            (existing, None) => existing,
        };
        let evaluation = match (self.evaluation, other.evaluation) {
            (Some(existing), Some(evaluation)) => {
                let mut merged = existing;
                merged.merge(evaluation);
                Some(merged)
            },
            (None, Some(evaluation)) => Some(evaluation),
            (existing, None) => existing,
        };
        let competition = match (self.competition, other.competition) {
            (Some(existing), Some(competition)) => {
                let mut merged = existing;
                merged.merge(competition);
                Some(merged)
            },
            (None, Some(competition)) => Some(competition),
            (existing, None) => existing,
        };
        AgentMeshConfig { agents, routing, planner, recovery, evaluation, competition }
    }

    /// Configuration with precedence project > user > defaults, from the
    /// layers that were read.
    pub fn load(
        lead: &str,
        user: Option<AgentMeshConfig>,
        project: Option<AgentMeshConfig>,
    ) -> (r: Self)
        requires
            is_lead(lead@),
        ensures
            exists|base: AgentMeshConfig, middle: AgentMeshConfig|
                base.is_default(lead@) && #[trigger] with_layer(middle, base, user) && with_layer(
                    r,
                    middle,
                    project,
                ),
    {
        let base = AgentMeshConfig::default_config(lead);
        let ghost first = base;
        let middle = match user {
            Some(user) => base.overlay(user),
            None => base,
        };
        let ghost second = middle;
        assert(with_layer(second, first, user));
        match project {
            Some(project) => middle.overlay(project),
            None => middle,
        }
    }

    /// The layer that a read of a config file gives: a missing or invalid
    /// file gives none.
    pub fn load_optional<E>(outcome: Result<Option<AgentMeshConfig>, E>) -> (r: Option<
        AgentMeshConfig,
    >)
        ensures
            match outcome {
                Ok(layer) => r == layer,
                Err(_) => r is None,
            },
    {
        match outcome {
            Ok(layer) => layer,
            Err(_) => None,
        }
    }
}

/// Project-local configuration path (`./.agentmesh/config.toml`).
pub fn project_config_path(current_dir: Option<String>) -> (r: Location)
    ensures
        r.is_at(
            match current_dir {
                Some(dir) => dir@,
                None => "."@,
            },
            seq![".agentmesh"@, "config.toml"@],
        ),
{
    let base = match current_dir {
        Some(dir) => dir,
        None => ".".to_owned(),
    };
    let r = Location::at(base.as_str()).join(".agentmesh").join("config.toml");
    assert(texts(r.segments@) =~= seq![".agentmesh"@, "config.toml"@]);
    r
}

/// User-level configuration path (`~/.config/agentmesh/config.toml`).
pub fn user_config_path(home: Option<String>) -> (r: Location)
    ensures
        r.is_at(
            match home {
                Some(dir) => dir@,
                None => "."@,
            },
            seq![".config"@, "agentmesh"@, "config.toml"@],
        ),
{
    let base = match home {
        Some(dir) => dir,
        None => ".".to_owned(),
    };
    let r = Location::at(base.as_str()).join(".config").join("agentmesh").join("config.toml");
    assert(texts(r.segments@) =~= seq![".config"@, "agentmesh"@, "config.toml"@]);
    r
}

/// User-level configuration path on Windows (`%APPDATA%\\agentmesh`).
pub fn roaming_config_path(app_data: Option<String>) -> (r: Location)
    ensures
        r.is_at(
            match app_data {
                Some(dir) => dir@,
                None => "."@,
            },
            seq!["agentmesh"@, "config.toml"@],
        ),
{
    let base = match app_data {
        Some(dir) => dir,
        None => ".".to_owned(),
    };
    let r = Location::at(base.as_str()).join("agentmesh").join("config.toml");
    assert(texts(r.segments@) =~= seq!["agentmesh"@, "config.toml"@]);
    r
}

proof fn agent_names_differ()
    ensures
        "mock"@ != "codex"@,
        "mock"@ != "opencode"@,
        "mock"@ != "antigravity"@,
        "codex"@ != "opencode"@,
        "codex"@ != "antigravity"@,
        "opencode"@ != "antigravity"@,
{
    reveal_strlit("mock");
    reveal_strlit("codex");
    reveal_strlit("opencode");
    reveal_strlit("antigravity");
    assert("mock"@.len() == 4);
    assert("codex"@.len() == 5);
    assert("opencode"@.len() == 8);
    assert("antigravity"@.len() == 11);
}

/// Layers can be merged in either grouping: project over user over defaults is
/// the same whether the lower or the upper two are merged first.
pub proof fn layering_is_associative(
    p: (PlanPolicyConfig, PlanPolicyConfig, PlanPolicyConfig),
    e: (EvaluationConfig, EvaluationConfig, EvaluationConfig),
    c: (CompetitionConfig, CompetitionConfig, CompetitionConfig),
    r: (RecoveryConfig, RecoveryConfig, RecoveryConfig),
    planner: (PlannerConfig, PlannerConfig, PlannerConfig),
)
    ensures
        p.0.under(p.1).under(p.2) == p.0.under(p.1.under(p.2)),
        e.0.under(e.1).under(e.2) == e.0.under(e.1.under(e.2)),
        c.0.under(c.1).under(c.2) == c.0.under(c.1.under(c.2)),
        r.0.under(r.1).under(r.2) == r.0.under(r.1.under(r.2)),
        planner.0.under(planner.1).under(planner.2) == planner.0.under(
            planner.1.under(planner.2),
        ),
{
}

impl AgentConfig {
    /// Whether two agents are configured the same.
    pub open spec fn same(&self, other: AgentConfig) -> bool {
        &&& self.enabled == other.enabled
        &&& self.command == other.command
        &&& self.args == other.args
        &&& self.env@ == other.env@
        &&& self.options@ == other.options@
    }
}

/// Whether two configurations say the same.
pub open spec fn same_config(a: AgentMeshConfig, b: AgentMeshConfig) -> bool {
    &&& a.agents@.dom() == b.agents@.dom()
    &&& forall|k: Seq<char>| #[trigger] a.agents@.dom().contains(k) ==> a.agents@[k].same(b.agents@[k])
    &&& a.routing == b.routing
    &&& a.planner == b.planner
    &&& a.recovery == b.recovery
    &&& a.evaluation == b.evaluation
    &&& a.competition == b.competition
}

proof fn maps_layer_associatively(
    a: Map<Seq<char>, String>,
    b: Map<Seq<char>, String>,
    c: Map<Seq<char>, String>,
)
    ensures
        a.union_prefer_right(b).union_prefer_right(c) == a.union_prefer_right(
            b.union_prefer_right(c),
        ),
{
    assert(a.union_prefer_right(b).union_prefer_right(c) =~= a.union_prefer_right(
        b.union_prefer_right(c),
    ));
}

proof fn agents_layer_associatively(
    k: Seq<char>,
    maps: (
        Map<Seq<char>, AgentConfig>,
        Map<Seq<char>, AgentConfig>,
        Map<Seq<char>, AgentConfig>,
    ),
    lower: (Map<Seq<char>, AgentConfig>, Map<Seq<char>, AgentConfig>),
    upper: (Map<Seq<char>, AgentConfig>, Map<Seq<char>, AgentConfig>),
)
    requires
        agents_layered(lower.0, maps.0, maps.1),
        agents_layered(lower.1, lower.0, maps.2),
        agents_layered(upper.0, maps.1, maps.2),
        agents_layered(upper.1, maps.0, upper.0),
        lower.1.dom().contains(k),
    ensures
        lower.1[k].same(upper.1[k]),
{
    let (a, b, c) = maps;
    let (ab, left) = lower;
    let (bc, right) = upper;
    assert(left.dom().contains(k) <==> ab.dom().contains(k) || c.dom().contains(k));
    assert(ab.dom().contains(k) <==> a.dom().contains(k) || b.dom().contains(k));
    assert(bc.dom().contains(k) <==> b.dom().contains(k) || c.dom().contains(k));
    assert(right.dom().contains(k) <==> a.dom().contains(k) || bc.dom().contains(k));
    let l = left[k];
    let r = right[k];
    let x = ab[k];
    let y = bc[k];
    if a.dom().contains(k) && b.dom().contains(k) && c.dom().contains(k) {
        maps_layer_associatively(a[k].env@, b[k].env@, c[k].env@);
        maps_layer_associatively(a[k].options@, b[k].options@, c[k].options@);
    }
}

/// Whole configurations can be layered in either grouping, agents and all.
pub proof fn overlay_is_associative(
    layers: (AgentMeshConfig, AgentMeshConfig, AgentMeshConfig),
    lower: (AgentMeshConfig, AgentMeshConfig),
    upper: (AgentMeshConfig, AgentMeshConfig),
)
    requires
        lower.0.layers(layers.0, layers.1),
        lower.1.layers(lower.0, layers.2),
        upper.0.layers(layers.1, layers.2),
        upper.1.layers(layers.0, upper.0),
    ensures
        same_config(lower.1, upper.1),
{
    let (a, b, c) = layers;
    let (ab, left) = lower;
    let (bc, right) = upper;
    assert forall|k: Seq<char>| left.agents@.dom().contains(k) <==> right.agents@.dom().contains(k) by {
        assert(left.agents@.dom().contains(k) <==> ab.agents@.dom().contains(k)
            || c.agents@.dom().contains(k));
        assert(ab.agents@.dom().contains(k) <==> a.agents@.dom().contains(k)
            || b.agents@.dom().contains(k));
        assert(bc.agents@.dom().contains(k) <==> b.agents@.dom().contains(k)
            || c.agents@.dom().contains(k));
        assert(right.agents@.dom().contains(k) <==> a.agents@.dom().contains(k)
            || bc.agents@.dom().contains(k));
    }
    assert(left.agents@.dom() =~= right.agents@.dom());
    assert forall|k: Seq<char>| #[trigger] left.agents@.dom().contains(k) implies left.agents@[k].same(
        right.agents@[k],
    ) by {
        agents_layer_associatively(
            k,
            (a.agents@, b.agents@, c.agents@),
            (ab.agents@, left.agents@),
            (bc.agents@, right.agents@),
        );
    }
}

/// Layering a configuration a second time changes nothing more.
pub proof fn overlay_is_idempotent(
    below: AgentMeshConfig,
    above: AgentMeshConfig,
    once: AgentMeshConfig,
    twice: AgentMeshConfig,
)
    requires
        once.layers(below, above),
        twice.layers(once, above),
    ensures
        same_config(twice, once),
{
    assert forall|k: Seq<char>| twice.agents@.dom().contains(k) <==> once.agents@.dom().contains(k) by {
        assert(twice.agents@.dom().contains(k) <==> once.agents@.dom().contains(k)
            || above.agents@.dom().contains(k));
        assert(once.agents@.dom().contains(k) <==> below.agents@.dom().contains(k)
            || above.agents@.dom().contains(k));
    }
    assert(twice.agents@.dom() =~= once.agents@.dom());
    assert forall|k: Seq<char>| #[trigger] twice.agents@.dom().contains(k) implies twice.agents@[k].same(
        once.agents@[k],
    ) by {
        assert(once.agents@.dom().contains(k));
        let t = twice.agents@[k];
        let o = once.agents@[k];
        if above.agents@.dom().contains(k) {
            let x = above.agents@[k];
            assert(t.layers(o, x));
            if below.agents@.dom().contains(k) {
                assert(o.layers(below.agents@[k], x));
            } else {
                assert(o == x);
            }
            assert(t.env@ =~= o.env@);
            assert(t.options@ =~= o.options@);
        }
    }
}

/// A layer that sets nothing changes nothing.
pub proof fn empty_layer_changes_nothing(
    result: AgentMeshConfig,
    below: AgentMeshConfig,
    above: AgentMeshConfig,
)
    requires
        result.layers(below, above),
        above.agents@ == Map::<Seq<char>, AgentConfig>::empty(),
        above.routing is None,
        above.planner is None,
        above.recovery is None,
        above.evaluation is None,
        above.competition is None,
    ensures
        result.agents@ == below.agents@,
        result.routing == below.routing,
        result.planner == below.planner,
        result.recovery == below.recovery,
        result.evaluation == below.evaluation,
        result.competition == below.competition,
{
    assert(result.agents@ =~= below.agents@);
}

/// An agent that the upper layer disables is disabled, and one that it does
/// not mention is as it was.
pub proof fn upper_layer_decides(
    result: AgentMeshConfig,
    below: AgentMeshConfig,
    above: AgentMeshConfig,
    agent: Seq<char>,
)
    requires
        result.layers(below, above),
    ensures
        above.agents@.dom().contains(agent) ==> result.agents@[agent].enabled
            == above.agents@[agent].enabled,
        !above.agents@.dom().contains(agent) && below.agents@.dom().contains(agent)
            ==> result.agents@[agent] == below.agents@[agent],
{
    let kept = result.agents@[agent];
}

/// Each field of the planner policy comes from the upper layer where it sets it,
/// and from the lower one where it does not.
pub proof fn policy_layers_field_by_field(below: PlanPolicyConfig, above: PlanPolicyConfig)
    ensures
        above.max_nodes is Some ==> below.under(above).max_nodes == above.max_nodes,
        above.max_nodes is None ==> below.under(above).max_nodes == below.max_nodes,
        above.max_agent_calls is Some
            ==> below.under(above).max_agent_calls == above.max_agent_calls,
        above.max_agent_calls is None
            ==> below.under(above).max_agent_calls == below.max_agent_calls,
        above.max_parallel is Some ==> below.under(above).max_parallel == above.max_parallel,
        above.max_parallel is None ==> below.under(above).max_parallel == below.max_parallel,
        above.allowed_intents is Some
            ==> below.under(above).allowed_intents == above.allowed_intents,
        above.allowed_intents is None
            ==> below.under(above).allowed_intents == below.allowed_intents,
        above.allowed_roles is Some ==> below.under(above).allowed_roles == above.allowed_roles,
        above.allowed_roles is None ==> below.under(above).allowed_roles == below.allowed_roles,
{
}

/// Each field of the evaluation policy comes from the upper layer where it sets it,
/// and from the lower one where it does not.
pub proof fn evaluation_layers_field_by_field(below: EvaluationConfig, above: EvaluationConfig)
    ensures
        above.max_evaluators is Some ==> below.under(above).max_evaluators == above.max_evaluators,
        above.max_evaluators is None ==> below.under(above).max_evaluators == below.max_evaluators,
        above.default_evaluators is Some
            ==> below.under(above).default_evaluators == above.default_evaluators,
        above.default_evaluators is None
            ==> below.under(above).default_evaluators == below.default_evaluators,
        above.default_quorum is Some ==> below.under(above).default_quorum == above.default_quorum,
        above.default_quorum is None ==> below.under(above).default_quorum == below.default_quorum,
        above.strategy is Some ==> below.under(above).strategy == above.strategy,
        above.strategy is None ==> below.under(above).strategy == below.strategy,
        above.max_total_evaluator_calls is Some
            ==> below.under(above).max_total_evaluator_calls == above.max_total_evaluator_calls,
        above.max_total_evaluator_calls is None
            ==> below.under(above).max_total_evaluator_calls == below.max_total_evaluator_calls,
{
}

/// Each field of the competition policy comes from the upper layer where it sets it,
/// and from the lower one where it does not.
pub proof fn competition_layers_field_by_field(below: CompetitionConfig, above: CompetitionConfig)
    ensures
        above.default_candidates is Some
            ==> below.under(above).default_candidates == above.default_candidates,
        above.default_candidates is None
            ==> below.under(above).default_candidates == below.default_candidates,
        above.max_candidates is Some ==> below.under(above).max_candidates == above.max_candidates,
        above.max_candidates is None ==> below.under(above).max_candidates == below.max_candidates,
        above.max_total_candidate_calls is Some
            ==> below.under(above).max_total_candidate_calls == above.max_total_candidate_calls,
        above.max_total_candidate_calls is None
            ==> below.under(above).max_total_candidate_calls == below.max_total_candidate_calls,
{
}

/// Each field of the recovery policy comes from the upper layer where it sets it,
/// and from the lower one where it does not.
pub proof fn recovery_layers_field_by_field(below: RecoveryConfig, above: RecoveryConfig)
    ensures
        above.max_attempts is Some ==> below.under(above).max_attempts == above.max_attempts,
        above.max_attempts is None ==> below.under(above).max_attempts == below.max_attempts,
        above.auto_generate is Some ==> below.under(above).auto_generate == above.auto_generate,
        above.auto_generate is None ==> below.under(above).auto_generate == below.auto_generate,
        above.auto_execute is Some ==> below.under(above).auto_execute == above.auto_execute,
        above.auto_execute is None ==> below.under(above).auto_execute == below.auto_execute,
        above.max_recovery_agent_calls is Some
            ==> below.under(above).max_recovery_agent_calls == above.max_recovery_agent_calls,
        above.max_recovery_agent_calls is None
            ==> below.under(above).max_recovery_agent_calls == below.max_recovery_agent_calls,
{
}

/// A section that one layer alone has is kept as it is; of a section that both
/// have the fields are layered.
pub proof fn sections_are_layered(
    result: AgentMeshConfig,
    below: AgentMeshConfig,
    above: AgentMeshConfig,
)
    requires
        result.layers(below, above),
    ensures
        above.routing is Some ==> result.routing == above.routing,
        above.routing is None ==> result.routing == below.routing,
        above.planner is None ==> result.planner == below.planner,
        below.planner is None ==> result.planner == above.planner,
        below.planner matches Some(x) ==> (above.planner matches Some(y) ==> (
        result.planner matches Some(z) && (y.policy is None ==> z.policy == x.policy) && (x.policy
            is None ==> z.policy == y.policy) && (x.policy matches Some(p) ==> (
        y.policy matches Some(q) ==> z.policy == Some(p.under(q)))))),
        above.recovery is None ==> result.recovery == below.recovery,
        below.recovery is None ==> result.recovery == above.recovery,
        below.recovery matches Some(x) ==> (above.recovery matches Some(y) ==> result.recovery
            == Some(x.under(y))),
        above.evaluation is None ==> result.evaluation == below.evaluation,
        below.evaluation is None ==> result.evaluation == above.evaluation,
        below.evaluation matches Some(x) ==> (above.evaluation matches Some(y) ==> result.evaluation
            == Some(x.under(y))),
        above.competition is None ==> result.competition == below.competition,
        below.competition is None ==> result.competition == above.competition,
        below.competition matches Some(x) ==> (above.competition matches Some(y)
            ==> result.competition == Some(x.under(y))),
{
}

/// An agent of both layers has its switch and arguments from the upper one, its
/// command from there where it is set, and each variable and option from there
/// where that sets it.
pub proof fn agents_of_both_layers_are_merged(
    result: AgentMeshConfig,
    below: AgentMeshConfig,
    above: AgentMeshConfig,
    agent: Seq<char>,
    name: Seq<char>,
)
    requires
        result.layers(below, above),
        below.agents@.dom().contains(agent),
        above.agents@.dom().contains(agent),
    ensures
        ({
            let lower = below.agents@[agent];
            let upper = above.agents@[agent];
            let merged = result.agents@[agent];
            &&& result.agents@.dom().contains(agent)
            &&& merged.enabled == upper.enabled && merged.args == upper.args
            &&& upper.command is Some ==> merged.command == upper.command
            &&& upper.command is None ==> merged.command == lower.command
            &&& merged.env@.dom().contains(name) <==> lower.env@.dom().contains(name)
                || upper.env@.dom().contains(name)
            &&& upper.env@.dom().contains(name) ==> merged.env@[name] == upper.env@[name]
            &&& !upper.env@.dom().contains(name) && lower.env@.dom().contains(name)
                ==> merged.env@[name] == lower.env@[name]
            &&& merged.options@.dom().contains(name) <==> lower.options@.dom().contains(name)
                || upper.options@.dom().contains(name)
            &&& upper.options@.dom().contains(name) ==> merged.options@[name]
                == upper.options@[name]
            &&& !upper.options@.dom().contains(name) && lower.options@.dom().contains(name)
                ==> merged.options@[name] == lower.options@[name]
        }),
{
    let merged = result.agents@[agent];
    assert(result.agents@.dom().contains(agent));
    assert(merged.layers(below.agents@[agent], above.agents@[agent]));
}

/// The project decides over the user, and the user over the defaults: the
/// command of an agent is the first that is set in this order, and whether it is
/// enabled is what the highest layer that names it says.
pub proof fn project_wins_over_user_over_defaults(
    base: AgentMeshConfig,
    middle: AgentMeshConfig,
    loaded: AgentMeshConfig,
    user: AgentMeshConfig,
    project: AgentMeshConfig,
    agent: Seq<char>,
)
    requires
        with_layer(middle, base, Some(user)),
        with_layer(loaded, middle, Some(project)),
    ensures
        loaded.agents@.dom().contains(agent) <==> base.agents@.dom().contains(agent)
            || user.agents@.dom().contains(agent) || project.agents@.dom().contains(agent),
        project.agents@.dom().contains(agent) ==> loaded.agents@[agent].enabled
            == project.agents@[agent].enabled && (project.agents@[agent].command is Some
            ==> loaded.agents@[agent].command == project.agents@[agent].command),
        !project.agents@.dom().contains(agent) && user.agents@.dom().contains(agent)
            ==> loaded.agents@[agent].enabled == user.agents@[agent].enabled && (
        user.agents@[agent].command is Some ==> loaded.agents@[agent].command
            == user.agents@[agent].command),
        !project.agents@.dom().contains(agent) && !user.agents@.dom().contains(agent)
            && base.agents@.dom().contains(agent) ==> loaded.agents@[agent] == base.agents@[agent],
        project.routing is Some ==> loaded.routing == project.routing,
        project.routing is None && user.routing is Some ==> loaded.routing == user.routing,
        project.routing is None && user.routing is None ==> loaded.routing == base.routing,
{
    assert(middle.agents@.dom().contains(agent) <==> base.agents@.dom().contains(agent)
        || user.agents@.dom().contains(agent));
    assert(loaded.agents@.dom().contains(agent) <==> middle.agents@.dom().contains(agent)
        || project.agents@.dom().contains(agent));
    let a = middle.agents@[agent];
    let b = loaded.agents@[agent];
}

/// By default the lead agent is asked first to plan, review and for general
/// work, `codex` to code, debug and test, and `antigravity` to design.
pub proof fn default_routing_asks_these_first(routing: RoutingConfig, lead: Seq<char>)
    requires
        routing.is_default(lead),
    ensures
        routing.list_of(TaskIntent::Architecture).len() == 4 && routing.list_of(
            TaskIntent::Architecture,
        )[0]@ == lead,
        routing.list_of(TaskIntent::Review).len() == 4 && routing.list_of(TaskIntent::Review)[0]@
            == lead,
        routing.list_of(TaskIntent::General).len() == 4 && routing.list_of(TaskIntent::General)[0]@
            == lead,
        routing.list_of(TaskIntent::Implementation).len() == 4 && routing.list_of(
            TaskIntent::Implementation,
        )[0]@ == "codex"@,
        routing.list_of(TaskIntent::Debug).len() == 4 && routing.list_of(TaskIntent::Debug)[0]@
            == "codex"@,
        routing.list_of(TaskIntent::Testing).len() == 4 && routing.list_of(TaskIntent::Testing)[0]@
            == "codex"@,
        routing.list_of(TaskIntent::UIUX).len() == 3 && routing.list_of(TaskIntent::UIUX)[0]@
            == "antigravity"@,
{
    assert(texts(routing.architecture@).len() == 4);
    assert(texts(routing.architecture@)[0] == routing.architecture@[0]@);
    assert(texts(routing.review@).len() == 4);
    assert(texts(routing.review@)[0] == routing.review@[0]@);
    assert(texts(routing.general@).len() == 4);
    assert(texts(routing.general@)[0] == routing.general@[0]@);
    assert(texts(routing.implementation@).len() == 4);
    assert(texts(routing.implementation@)[0] == routing.implementation@[0]@);
    assert(texts(routing.debug@).len() == 4);
    assert(texts(routing.debug@)[0] == routing.debug@[0]@);
    assert(texts(routing.testing@).len() == 4);
    assert(texts(routing.testing@)[0] == routing.testing@[0]@);
    assert(texts(routing.uiux@).len() == 3);
    assert(texts(routing.uiux@)[0] == routing.uiux@[0]@);
}

/// An intent is routed by the list of its own name.
pub proof fn intents_are_routed_by_their_own_list(routing: RoutingConfig, intent: TaskIntent)
    ensures
        intent == TaskIntent::Architecture ==> routing.list_of(intent) == routing.architecture@,
        intent == TaskIntent::Implementation ==> routing.list_of(intent)
            == routing.implementation@,
        intent == TaskIntent::Debug ==> routing.list_of(intent) == routing.debug@,
        intent == TaskIntent::Review ==> routing.list_of(intent) == routing.review@,
        intent == TaskIntent::Testing ==> routing.list_of(intent) == routing.testing@,
        intent == TaskIntent::UIUX ==> routing.list_of(intent) == routing.uiux@,
        intent == TaskIntent::General ==> routing.list_of(intent) == routing.general@,
{
}

/// Every built-in agent is enabled by default, under its own command, without
/// arguments, variables or options, and there is no other agent.
pub proof fn built_in_agents_are_enabled(
    config: AgentMeshConfig,
    lead: Seq<char>,
    agent: Seq<char>,
)
    requires
        config.is_default(lead),
        is_lead(lead),
    ensures
        config.agents@.dom().contains(agent) <==> agent == "mock"@ || agent == lead || agent
            == "codex"@ || agent == "opencode"@ || agent == "antigravity"@,
        config.agents@.dom().contains(agent) ==> config.agents@[agent].enabled
            && config.agents@[agent].args@.len() == 0,
        agent == lead || agent == "codex"@ || agent == "opencode"@ ==> (
        config.agents@[agent].command matches Some(command) && command@ == agent),
        config.agents@["antigravity"@].command matches Some(command) && command@ == "agy"@,
        config.agents@["mock"@].command is None,
        config.planner is None && config.recovery is None && config.evaluation is None
            && config.competition is None,
{
}

} // verus!
