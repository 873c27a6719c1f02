//! Validation of a configuration: every fault, with section, field and reason.

use vstd::prelude::*;
use vstd::string::*;

use crate::collections::entries_agree;
use crate::config::{AgentConfig, AgentMeshConfig, CompetitionConfig, EvaluationConfig};
use crate::config::{PlanPolicyConfig, RecoveryConfig, RoutingConfig};
use crate::model::{intent_key, TaskIntent};
use crate::text::{clone_opt, decimal, is_blank, opt_str, opt_text, same_text, show_usize};
use crate::text::{begins_with, contains_text, ends_with, parts_stand_where_they_are};
use crate::text::{trimmed, trimmed_empty, white_space};

verus! {

/// Detailed, actionable configuration validation error.
#[derive(Clone, Debug, PartialEq, Eq)]
pub struct ConfigValidationError {
    pub file: Option<String>,
    pub section: String,
    pub field: String,
    pub reason: String,
}

/// What a validation error says.
pub struct Fault {
    pub file: Option<Seq<char>>,
    pub section: Seq<char>,
    pub field: Seq<char>,
    pub reason: Seq<char>,
}

/// What a validation error says.
pub open spec fn fault_of(e: ConfigValidationError) -> Fault {
    Fault {
        file: opt_text(e.file),
        section: e.section@,
        field: e.field@,
        reason: e.reason@,
    }
}

/// What a list of validation errors says.
pub open spec fn faults_of(list: Seq<ConfigValidationError>) -> Seq<Fault> {
    list.map_values(|e: ConfigValidationError| fault_of(e))
}

/// The text of a fault: the file when one is named, the section in brackets,
/// the field and the reason, a line each.
pub open spec fn fault_text(fault: Fault) -> Seq<char> {
    (match fault.file {
        Some(file) => file + "\n"@,
        None => Seq::empty(),
    }) + "["@ + fault.section + "]\n"@ + fault.field + "\n"@ + fault.reason
}

impl ConfigValidationError {
    /// The error as text: file, section, field and reason, a line each.
    pub fn to_text(&self) -> (r: String)
        ensures
            r@ == fault_text(fault_of(*self)),
    {
        let mut out = String::new();
        if let Some(file) = &self.file {
            out.append(file.as_str());
            out.append("\n");
            assert(out@ =~= file@ + "\n"@);
        }
        out.append("[");
        out.append(self.section.as_str());
        out.append("]\n");
        out.append(self.field.as_str());
        out.append("\n");
        out.append(self.reason.as_str());
        out
    }
}

/// One fault when a condition holds, none otherwise.
pub open spec fn fault_if(
    bad: bool,
    file: Option<Seq<char>>,
    section: Seq<char>,
    field: Seq<char>,
    reason: Seq<char>,
) -> Seq<Fault> {
    if bad {
        seq![Fault { file, section, field, reason }]
    } else {
        Seq::empty()
    }
}

/// Whether a limit is set to a value outside 1 to `max`.
pub open spec fn outside(limit: Option<usize>, max: int) -> bool {
    limit matches Some(n) && (n == 0 || n > max)
}

/// Whether two limits are set and the first is below the second.
pub open spec fn below(limit: Option<usize>, least: Option<usize>) -> bool {
    limit matches Some(n) && least matches Some(m) && n < m
}

/// A limit, or its default.
pub open spec fn limit_or(limit: Option<usize>, default: int) -> int {
    match limit {
        Some(n) => n as int,
        None => default,
    }
}

/// The faults of the agents: a command of white space alone.
pub open spec fn agent_faults(
    file: Option<Seq<char>>,
    keys: Seq<Seq<char>>,
    agents: Seq<AgentConfig>,
) -> Seq<Fault>
    decreases keys.len(),
{
    if keys.len() == 0 {
        Seq::empty()
    } else {
        agent_faults(file, keys.drop_last(), agents) + fault_if(
            agents[keys.len() - 1].command matches Some(c) && trimmed(c@).len() == 0,
            file,
            "agents."@ + keys.last(),
            "command"@,
            "command cannot be empty"@,
        )
    }
}

/// The fault of a routing list: no agent in it.
pub open spec fn list_fault(file: Option<Seq<char>>, field: Seq<char>, list: Seq<String>) -> Seq<
    Fault,
> {
    fault_if(list.len() == 0, file, "routing"@, field, "must specify at least one agent"@)
}

/// The faults of the routing table, in the order of its lists.
pub open spec fn routing_faults(file: Option<Seq<char>>, routing: RoutingConfig) -> Seq<Fault> {
    list_fault(file, "architecture"@, routing.architecture@) + list_fault(
        file,
        "implementation"@,
        routing.implementation@,
    ) + list_fault(file, "debug"@, routing.debug@) + list_fault(file, "review"@, routing.review@)
        + list_fault(file, "testing"@, routing.testing@) + list_fault(
        file,
        "uiux"@,
        routing.uiux@,
    ) + list_fault(file, "general"@, routing.general@)
}

/// Whether a text is the key of an intent.
pub open spec fn known_intent(key: Seq<char>) -> bool {
    exists|i: TaskIntent| key == #[trigger] intent_key(i)
}

/// The faults of a list of intents: each unknown one.
pub open spec fn intent_faults(file: Option<Seq<char>>, intents: Seq<String>) -> Seq<Fault>
    decreases intents.len(),
{
    if intents.len() == 0 {
        Seq::empty()
    } else {
        intent_faults(file, intents.drop_last()) + fault_if(
            !known_intent(intents.last()@),
            file,
            "planner.policy"@,
            "allowed_intents"@,
            "unknown intent `"@ + intents.last()@ + "`"@,
        )
    }
}

/// The faults of the planner policy.
pub open spec fn policy_faults(file: Option<Seq<char>>, policy: PlanPolicyConfig) -> Seq<Fault> {
    fault_if(
        outside(policy.max_nodes, 100),
        file,
        "planner.policy"@,
        "max_nodes"@,
        "must be between 1 and 100"@,
    ) + fault_if(
        below(policy.max_agent_calls, policy.max_nodes),
        file,
        "planner.policy"@,
        "max_agent_calls"@,
        "must be >= max_nodes ("@ + decimal(limit_or(policy.max_nodes, 0) as nat) + ")"@,
    ) + fault_if(
        outside(policy.max_parallel, 8),
        file,
        "planner.policy"@,
        "max_parallel"@,
        "must be between 1 and 8"@,
    ) + (match policy.allowed_intents {
        Some(intents) => intent_faults(file, intents@),
        None => Seq::empty(),
    })
}

/// The faults of the recovery policy.
pub open spec fn recovery_faults(file: Option<Seq<char>>, recovery: RecoveryConfig) -> Seq<Fault> {
    fault_if(
        outside(recovery.max_attempts, 2),
        file,
        "recovery"@,
        "max_attempts"@,
        "must be between 1 and 2"@,
    ) + fault_if(
        outside(recovery.max_recovery_agent_calls, 20),
        file,
        "recovery"@,
        "max_recovery_agent_calls"@,
        "must be between 1 and 20"@,
    )
}

/// The faults of the evaluation policy.
pub open spec fn evaluation_faults(file: Option<Seq<char>>, evaluation: EvaluationConfig) -> Seq<
    Fault,
> {
    fault_if(
        outside(evaluation.max_evaluators, 5),
        file,
        "evaluation"@,
        "max_evaluators"@,
        "must be between 1 and 5"@,
    ) + fault_if(
        outside(evaluation.default_evaluators, limit_or(evaluation.max_evaluators, 5)),
        file,
        "evaluation"@,
        "default_evaluators"@,
        "must be between 1 and "@ + decimal(limit_or(evaluation.max_evaluators, 5) as nat),
    ) + fault_if(
        outside(evaluation.default_quorum, limit_or(evaluation.default_evaluators, 3)),
        file,
        "evaluation"@,
        "default_quorum"@,
        "must be between 1 and default_evaluators ("@ + decimal(
            limit_or(evaluation.default_evaluators, 3) as nat,
        ) + ")"@,
    ) + fault_if(
        evaluation.strategy matches Some(s) && s@ != "majority"@ && s@ != "unanimous"@,
        file,
        "evaluation"@,
        "strategy"@,
        "must be `majority` or `unanimous`"@,
    )
}

/// The faults of the competition policy.
pub open spec fn competition_faults(file: Option<Seq<char>>, comp: CompetitionConfig) -> Seq<
    Fault,
> {
    fault_if(
        outside(comp.max_candidates, 3),
        file,
        "competition"@,
        "max_candidates"@,
        "must be between 1 and 3"@,
    ) + fault_if(
        outside(comp.default_candidates, limit_or(comp.max_candidates, 3)),
        file,
        "competition"@,
        "default_candidates"@,
        "must be between 1 and "@ + decimal(limit_or(comp.max_candidates, 3) as nat),
    ) + fault_if(
        below(comp.max_total_candidate_calls, comp.max_candidates),
        file,
        "competition"@,
        "max_total_candidate_calls"@,
        "must be >= max_candidates ("@ + decimal(limit_or(comp.max_candidates, 0) as nat) + ")"@,
    )
}

/// All faults of a configuration, section by section.
pub open spec fn config_faults(file: Option<Seq<char>>, config: AgentMeshConfig) -> Seq<Fault> {
    agent_faults(file, config.agents.keys(), config.agents.values()) + (match config.routing {
        Some(routing) => routing_faults(file, routing),
        None => Seq::empty(),
    }) + (match config.planner {
        Some(planner) => match planner.policy {
            Some(policy) => policy_faults(file, policy),
            None => Seq::empty(),
        },
        None => Seq::empty(),
    }) + (match config.recovery {
        Some(recovery) => recovery_faults(file, recovery),
        None => Seq::empty(),
    }) + (match config.evaluation {
        Some(evaluation) => evaluation_faults(file, evaluation),
        None => Seq::empty(),
    }) + (match config.competition {
        Some(competition) => competition_faults(file, competition),
        None => Seq::empty(),
    })
}

fn report(
    errors: &mut Vec<ConfigValidationError>,
    file: &Option<String>,
    section: &str,
    field: &str,
    reason: String,
)
    ensures
        faults_of(final(errors)@) == faults_of(old(errors)@) + fault_if(
            true,
            opt_text(*file),
            section@,
            field@,
            reason@,
        ),
{
    let e = ConfigValidationError {
        file: clone_opt(file),
        section: section.to_owned(),
        field: field.to_owned(),
        reason,
    };
    assert(faults_of(errors@.push(e)) =~= faults_of(errors@) + fault_if(
        true,
        opt_text(*file),
        section@,
        field@,
        reason@,
    ));
    errors.push(e);
}

fn report_if(
    bad: bool,
    errors: &mut Vec<ConfigValidationError>,
    file: &Option<String>,
    section: &str,
    field: &str,
    reason: &str,
)
    ensures
        faults_of(final(errors)@) == faults_of(old(errors)@) + fault_if(
            bad,
            opt_text(*file),
            section@,
            field@,
            reason@,
        ),
{
    if bad {
        report(errors, file, section, field, reason.to_owned());
    } else {
        assert(faults_of(errors@) + Seq::<Fault>::empty() =~= faults_of(errors@));
    }
}

fn is_outside(limit: Option<usize>, max: usize) -> (r: bool)
    ensures
        r == outside(limit, max as int),
{
    match limit {
        Some(n) => n == 0 || n > max,
        None => false,
    }
}

fn is_below(limit: Option<usize>, least: Option<usize>) -> (r: bool)
    ensures
        r == below(limit, least),
{
    match (limit, least) {
        (Some(n), Some(m)) => n < m,
        _ => false,
    }
}

fn with_number(before: &str, n: usize, after: &str) -> (r: String)
    ensures
        r@ == before@ + decimal(n as nat) + after@,
{
    before.to_owned().concat(show_usize(n).as_str()).concat(after)
}

fn check_agents(
    errors: &mut Vec<ConfigValidationError>,
    file: &Option<String>,
    config: &AgentMeshConfig,
)
    ensures
        faults_of(final(errors)@) == faults_of(old(errors)@) + agent_faults(
            opt_text(*file),
            config.agents.keys(),
            config.agents.values(),
        ),
{
    let n: usize = config.agents.len();
    let ghost start = faults_of(errors@);
    let ghost ks = config.agents.keys();
    let ghost vs = config.agents.values();
    let mut i: usize = 0;
    assert(start + agent_faults(opt_text(*file), ks.take(0), vs) =~= start);
    while i < n
        invariant
            i <= n == ks.len(),
            ks == config.agents.keys(),
            vs == config.agents.values(),
            ks.len() == vs.len(),
            faults_of(errors@) == start + agent_faults(opt_text(*file), ks.take(i as int), vs),
        decreases n - i,
    {
        let bad = match &config.agents.value_at(i).command {
            Some(command) => is_blank(command.as_str()),
            None => false,
        };
        let section = "agents.".to_owned().concat(config.agents.key_at(i).as_str());
        proof {
            assert(ks.take(i + 1).drop_last() =~= ks.take(i as int));
            assert(ks.take(i + 1).last() == ks[i as int]);
        }
        let ghost before = faults_of(errors@);
        report_if(bad, errors, file, section.as_str(), "command", "command cannot be empty");
        assert(faults_of(errors@) =~= start + agent_faults(
            opt_text(*file),
            ks.take(i + 1),
            vs,
        ));
        i += 1;
    }
    assert(ks.take(i as int) =~= ks);
}

fn check_list(
    errors: &mut Vec<ConfigValidationError>,
    file: &Option<String>,
    field: &str,
    list: &Vec<String>,
)
    ensures
        faults_of(final(errors)@) == faults_of(old(errors)@) + list_fault(
            opt_text(*file),
            field@,
            list@,
        ),
{
    report_if(
        list.len() == 0,
        errors,
        file,
        "routing",
        field,
        "must specify at least one agent",
    );
}

fn check_routing(
    errors: &mut Vec<ConfigValidationError>,
    file: &Option<String>,
    routing: &RoutingConfig,
)
    ensures
        faults_of(final(errors)@) == faults_of(old(errors)@) + routing_faults(
            opt_text(*file),
            *routing,
        ),
{
    let ghost start = faults_of(errors@);
    check_list(errors, file, "architecture", &routing.architecture);
    check_list(errors, file, "implementation", &routing.implementation);
    check_list(errors, file, "debug", &routing.debug);
    check_list(errors, file, "review", &routing.review);
    check_list(errors, file, "testing", &routing.testing);
    check_list(errors, file, "uiux", &routing.uiux);
    check_list(errors, file, "general", &routing.general);
    assert(faults_of(errors@) =~= start + routing_faults(opt_text(*file), *routing));
}

fn check_intents(
    errors: &mut Vec<ConfigValidationError>,
    file: &Option<String>,
    intents: &Vec<String>,
)
    ensures
        faults_of(final(errors)@) == faults_of(old(errors)@) + intent_faults(
            opt_text(*file),
            intents@,
        ),
{
    let ghost start = faults_of(errors@);
    let mut i: usize = 0;
    assert(start + intent_faults(opt_text(*file), intents@.take(0)) =~= start);
    while i < intents.len()
        invariant
            i <= intents@.len(),
            faults_of(errors@) == start + intent_faults(opt_text(*file), intents@.take(i as int)),
        decreases intents.len() - i,
    {
        let known = TaskIntent::from_key(intents[i].as_str());
        proof {
            assert(intents@.take(i + 1).drop_last() =~= intents@.take(i as int));
            assert(intents@.take(i + 1).last() == intents@[i as int]);
            if let Some(k) = known {
                assert(intents@[i as int]@ == intent_key(k));
            }
            assert(known is None <==> !known_intent(intents@[i as int]@)) by {
                if known is None && known_intent(intents@[i as int]@) {
                    let k = choose|k: TaskIntent| intents@[i as int]@ == #[trigger] intent_key(k);
                    assert(known == Some(k));
                }
            }
        }
        let reason = "unknown intent `".to_owned().concat(intents[i].as_str()).concat("`");
        report_if(
            known.is_none(),
            errors,
            file,
            "planner.policy",
            "allowed_intents",
            reason.as_str(),
        );
        assert(faults_of(errors@) =~= start + intent_faults(
            opt_text(*file),
            intents@.take(i + 1),
        ));
        i += 1;
    }
    assert(intents@.take(i as int) =~= intents@);
}

fn check_policy(
    errors: &mut Vec<ConfigValidationError>,
    file: &Option<String>,
    policy: &PlanPolicyConfig,
)
    ensures
        faults_of(final(errors)@) == faults_of(old(errors)@) + policy_faults(
            opt_text(*file),
            *policy,
        ),
{
    let ghost start = faults_of(errors@);
    report_if(
        is_outside(policy.max_nodes, 100),
        errors,
        file,
        "planner.policy",
        "max_nodes",
        "must be between 1 and 100",
    );
    let least: usize = policy.max_nodes.unwrap_or(0);
    report_if(
        is_below(policy.max_agent_calls, policy.max_nodes),
        errors,
        file,
        "planner.policy",
        "max_agent_calls",
        with_number("must be >= max_nodes (", least, ")").as_str(),
    );
    report_if(
        is_outside(policy.max_parallel, 8),
        errors,
        file,
        "planner.policy",
        "max_parallel",
        "must be between 1 and 8",
    );
    if let Some(intents) = &policy.allowed_intents {
        check_intents(errors, file, intents);
    }
    assert(faults_of(errors@) =~= start + policy_faults(opt_text(*file), *policy));
}

fn check_recovery(
    errors: &mut Vec<ConfigValidationError>,
    file: &Option<String>,
    recovery: &RecoveryConfig,
)
    ensures
        faults_of(final(errors)@) == faults_of(old(errors)@) + recovery_faults(
            opt_text(*file),
            *recovery,
        ),
{
    let ghost start = faults_of(errors@);
    report_if(
        is_outside(recovery.max_attempts, 2),
        errors,
        file,
        "recovery",
        "max_attempts",
        "must be between 1 and 2",
    );
    report_if(
        is_outside(recovery.max_recovery_agent_calls, 20),
        errors,
        file,
        "recovery",
        "max_recovery_agent_calls",
        "must be between 1 and 20",
    );
    assert(faults_of(errors@) =~= start + recovery_faults(opt_text(*file), *recovery));
}

fn check_evaluation(
    errors: &mut Vec<ConfigValidationError>,
    file: &Option<String>,
    evaluation: &EvaluationConfig,
)
    ensures
        faults_of(final(errors)@) == faults_of(old(errors)@) + evaluation_faults(
            opt_text(*file),
            *evaluation,
        ),
{
    let ghost start = faults_of(errors@);
    report_if(
        is_outside(evaluation.max_evaluators, 5),
        errors,
        file,
        "evaluation",
        "max_evaluators",
        "must be between 1 and 5",
    );
    let max_bound: usize = evaluation.max_evaluators.unwrap_or(5);
    let reason = "must be between 1 and ".to_owned().concat(show_usize(max_bound).as_str());
    report_if(
        is_outside(evaluation.default_evaluators, max_bound),
        errors,
        file,
        "evaluation",
        "default_evaluators",
        reason.as_str(),
    );
    let eval_bound: usize = evaluation.default_evaluators.unwrap_or(3);
    report_if(
        is_outside(evaluation.default_quorum, eval_bound),
        errors,
        file,
        "evaluation",
        "default_quorum",
        with_number("must be between 1 and default_evaluators (", eval_bound, ")").as_str(),
    );
    let bad_strategy = match &evaluation.strategy {
        Some(strategy) => !same_text(strategy.as_str(), "majority") && !same_text(
            strategy.as_str(),
            "unanimous",
        ),
        None => false,
    };
    report_if(
        bad_strategy,
        errors,
        file,
        "evaluation",
        "strategy",
        "must be `majority` or `unanimous`",
    );
    assert(faults_of(errors@) =~= start + evaluation_faults(opt_text(*file), *evaluation));
}

fn check_competition(
    errors: &mut Vec<ConfigValidationError>,
    file: &Option<String>,
    comp: &CompetitionConfig,
)
    ensures
        faults_of(final(errors)@) == faults_of(old(errors)@) + competition_faults(
            opt_text(*file),
            *comp,
        ),
{
    let ghost start = faults_of(errors@);
    report_if(
        is_outside(comp.max_candidates, 3),
        errors,
        file,
        "competition",
        "max_candidates",
        "must be between 1 and 3",
    );
    let max_bound: usize = comp.max_candidates.unwrap_or(3);
    let reason = "must be between 1 and ".to_owned().concat(show_usize(max_bound).as_str());
    report_if(
        is_outside(comp.default_candidates, max_bound),
        errors,
        file,
        "competition",
        "default_candidates",
        reason.as_str(),
    );
    let least: usize = comp.max_candidates.unwrap_or(0);
    report_if(
        is_below(comp.max_total_candidate_calls, comp.max_candidates),
        errors,
        file,
        "competition",
        "max_total_candidate_calls",
        with_number("must be >= max_candidates (", least, ")").as_str(),
    );
    assert(faults_of(errors@) =~= start + competition_faults(opt_text(*file), *comp));
}

impl AgentMeshConfig {
    /// Validates the configuration and returns all structured errors with
    /// section, field, and reason.
    pub fn validate(&self, file_label: Option<&str>) -> (r: Result<
        (),
        Vec<ConfigValidationError>,
    >)
        ensures
            r is Ok <==> config_faults(opt_str(file_label), *self).len() == 0,
            r matches Err(errors) ==> faults_of(errors@) == config_faults(
                opt_str(file_label),
                *self,
            ),
    {
        let mut errors: Vec<ConfigValidationError> = Vec::new();
        let file: Option<String> = match file_label {
            Some(label) => Some(label.to_owned()),
            None => None,
        };
        assert(opt_text(file) == opt_str(file_label));
        assert(faults_of(errors@) =~= Seq::<Fault>::empty());
        check_agents(&mut errors, &file, self);
        if let Some(routing) = &self.routing {
            check_routing(&mut errors, &file, routing);
        }
        if let Some(planner) = &self.planner {
            if let Some(policy) = &planner.policy {
                check_policy(&mut errors, &file, policy);
            }
        }
        if let Some(recovery) = &self.recovery {
            check_recovery(&mut errors, &file, recovery);
        }
        if let Some(evaluation) = &self.evaluation {
            check_evaluation(&mut errors, &file, evaluation);
        }
        if let Some(competition) = &self.competition {
            check_competition(&mut errors, &file, competition);
        }
        assert(faults_of(errors@) =~= config_faults(opt_str(file_label), *self));
        assert(faults_of(errors@).len() == errors@.len());
        if errors.len() == 0 {
            Ok(())
        } else {
            Err(errors)
        }
    }
}

proof fn plain_agents_have_no_faults(
    file: Option<Seq<char>>,
    keys: Seq<Seq<char>>,
    agents: Seq<AgentConfig>,
)
    requires
        keys.len() <= agents.len(),
        forall|i: int|
            0 <= i < keys.len() ==> ((#[trigger] agents[i]).command matches Some(c) ==> trimmed(
                c@,
            ).len() > 0),
    ensures
        agent_faults(file, keys, agents) == Seq::<Fault>::empty(),
    decreases keys.len(),
{
    if keys.len() > 0 {
        plain_agents_have_no_faults(file, keys.drop_last(), agents);
        assert(agent_faults(file, keys, agents) =~= Seq::<Fault>::empty());
    }
}

proof fn starts_with_letter(s: Seq<char>)
    requires
        s.len() > 0,
        'a' <= s[0] <= 'z',
    ensures
        trimmed(s).len() > 0,
{
    trimmed_empty(s);
    assert(!white_space(s[0]));
}

/// The default configuration passes validation, where the id of the lead agent
/// is not blank.
pub proof fn default_config_is_valid(
    file: Option<Seq<char>>,
    lead: Seq<char>,
    config: AgentMeshConfig,
)
    requires
        trimmed(lead).len() > 0,
        config.is_default(lead),
        entries_agree(config.agents@, config.agents.keys(), config.agents.values()),
    ensures
        config_faults(file, config) == Seq::<Fault>::empty(),
{
    let ks = config.agents.keys();
    let values = config.agents.values();
    reveal_strlit("codex");
    reveal_strlit("opencode");
    reveal_strlit("agy");
    starts_with_letter("codex"@);
    starts_with_letter("opencode"@);
    starts_with_letter("agy"@);
    assert forall|i: int| 0 <= i < ks.len() implies ((#[trigger] values[i]).command matches Some(c)
        ==> trimmed(c@).len() > 0) by {
        assert(config.agents@.dom().contains(ks[i]));
        assert(config.agents@[ks[i]] == values[i]);
    }
    plain_agents_have_no_faults(file, ks, values);
    let routing = config.routing->0;
    assert(routing.architecture@.len() == crate::text::texts(routing.architecture@).len());
    assert(routing.implementation@.len() == crate::text::texts(routing.implementation@).len());
    assert(routing.debug@.len() == crate::text::texts(routing.debug@).len());
    assert(routing.review@.len() == crate::text::texts(routing.review@).len());
    assert(routing.testing@.len() == crate::text::texts(routing.testing@).len());
    assert(routing.uiux@.len() == crate::text::texts(routing.uiux@).len());
    assert(routing.general@.len() == crate::text::texts(routing.general@).len());
    assert(routing_faults(file, routing) =~= Seq::<Fault>::empty());
    assert(config_faults(file, config) =~= Seq::<Fault>::empty());
}

/// Whether a limit, where it is set, lies between 1 and `max`.
pub open spec fn within(limit: Option<usize>, max: int) -> bool {
    limit matches Some(n) ==> 1 <= n <= max
}

proof fn valid_routing_is_full(file: Option<Seq<char>>, routing: RoutingConfig)
    requires
        routing_faults(file, routing).len() == 0,
    ensures
        forall|i: TaskIntent| #[trigger] routing.list_of(i).len() > 0,
{
    assert forall|i: TaskIntent| #[trigger] routing.list_of(i).len() > 0 by {
        assert(list_fault(file, "architecture"@, routing.architecture@).len() == 0);
        assert(list_fault(file, "implementation"@, routing.implementation@).len() == 0);
        assert(list_fault(file, "debug"@, routing.debug@).len() == 0);
        assert(list_fault(file, "review"@, routing.review@).len() == 0);
        assert(list_fault(file, "testing"@, routing.testing@).len() == 0);
        assert(list_fault(file, "uiux"@, routing.uiux@).len() == 0);
        assert(list_fault(file, "general"@, routing.general@).len() == 0);
    }
}

proof fn valid_policy_is_bounded(file: Option<Seq<char>>, policy: PlanPolicyConfig)
    requires
        policy_faults(file, policy).len() == 0,
    ensures
        within(policy.max_nodes, 100),
        within(policy.max_parallel, 8),
        !below(policy.max_agent_calls, policy.max_nodes),
{
    assert(!outside(policy.max_parallel, 8));
    assert(!below(policy.max_agent_calls, policy.max_nodes));
    assert(!outside(policy.max_nodes, 100));
}

proof fn valid_recovery_is_bounded(file: Option<Seq<char>>, recovery: RecoveryConfig)
    requires
        recovery_faults(file, recovery).len() == 0,
    ensures
        within(recovery.max_attempts, 2),
        within(recovery.max_recovery_agent_calls, 20),
{
}

proof fn valid_evaluation_is_bounded(file: Option<Seq<char>>, e: EvaluationConfig)
    requires
        evaluation_faults(file, e).len() == 0,
    ensures
        within(e.max_evaluators, 5),
        within(e.default_evaluators, 5),
        within(e.default_quorum, 5),
{
}

proof fn valid_competition_is_bounded(file: Option<Seq<char>>, c: CompetitionConfig)
    requires
        competition_faults(file, c).len() == 0,
    ensures
        within(c.max_candidates, 3),
        within(c.default_candidates, 3),
        !below(c.max_total_candidate_calls, c.max_candidates),
{
}

/// A configuration that passes validation keeps every limit in its bounds.
pub proof fn valid_config_is_bounded(file: Option<Seq<char>>, config: AgentMeshConfig)
    requires
        config_faults(file, config).len() == 0,
    ensures
        config.planner matches Some(planner) ==> (planner.policy matches Some(policy) ==> (within(
            policy.max_nodes,
            100,
        ) && within(policy.max_parallel, 8) && !below(policy.max_agent_calls, policy.max_nodes))),
        config.recovery matches Some(recovery) ==> within(recovery.max_attempts, 2) && within(
            recovery.max_recovery_agent_calls,
            20,
        ),
        config.evaluation matches Some(e) ==> within(e.max_evaluators, 5) && within(
            e.default_evaluators,
            5,
        ) && within(e.default_quorum, 5),
        config.competition matches Some(c) ==> within(c.max_candidates, 3) && within(
            c.default_candidates,
            3,
        ) && !below(c.max_total_candidate_calls, c.max_candidates),
        config.routing matches Some(r) ==> forall|i: TaskIntent| #[trigger]
            r.list_of(i).len() > 0,
{
    if let Some(routing) = config.routing {
        valid_routing_is_full(file, routing);
    }
    if let Some(planner) = config.planner {
        if let Some(policy) = planner.policy {
            valid_policy_is_bounded(file, policy);
        }
    }
    if let Some(recovery) = config.recovery {
        valid_recovery_is_bounded(file, recovery);
    }
    if let Some(evaluation) = config.evaluation {
        valid_evaluation_is_bounded(file, evaluation);
    }
    if let Some(competition) = config.competition {
        valid_competition_is_bounded(file, competition);
    }
}

/// Whether a fault of a field is among faults of one section of a file.
pub open spec fn names(faults: Seq<Fault>, field: Seq<char>) -> bool {
    exists|i: int| 0 <= i < faults.len() && (#[trigger] faults[i]).field == field
}

/// Whether all faults are of one section of a file.
pub open spec fn all_of(faults: Seq<Fault>, file: Option<Seq<char>>, section: Seq<char>) -> bool {
    forall|i: int|
        0 <= i < faults.len() ==> (#[trigger] faults[i]).file == file && faults[i].section
            == section
}

proof fn one_names(
    bad: bool,
    file: Option<Seq<char>>,
    section: Seq<char>,
    name: Seq<char>,
    reason: Seq<char>,
    field: Seq<char>,
)
    ensures
        names(fault_if(bad, file, section, name, reason), field) <==> bad && name == field,
        all_of(fault_if(bad, file, section, name, reason), file, section),
        fault_if(bad, file, section, name, reason).len() == 0 <==> !bad,
{
    let faults = fault_if(bad, file, section, name, reason);
    if bad {
        assert(faults[0].field == name);
    }
}

proof fn both_name(
    a: Seq<Fault>,
    b: Seq<Fault>,
    file: Option<Seq<char>>,
    section: Seq<char>,
    field: Seq<char>,
)
    ensures
        names(a + b, field) <==> names(a, field) || names(b, field),
        all_of(a, file, section) && all_of(b, file, section) ==> all_of(a + b, file, section),
{
    if names(a, field) {
        let i = choose|i: int| 0 <= i < a.len() && (#[trigger] a[i]).field == field;
        assert((a + b)[i].field == field);
    }
    if names(b, field) {
        let i = choose|i: int| 0 <= i < b.len() && (#[trigger] b[i]).field == field;
        assert((a + b)[a.len() + i].field == field);
    }
    if names(a + b, field) {
        let i = choose|i: int| 0 <= i < (a + b).len() && (#[trigger] (a + b)[i]).field == field;
        if i < a.len() {
            assert(a[i].field == field);
        } else {
            assert(b[i - a.len()].field == field);
        }
    }
}

#[verifier::rlimit(40)]
proof fn field_names_differ()
    ensures
        "max_nodes"@ != "max_agent_calls"@,
        "max_nodes"@ != "max_parallel"@,
        "max_nodes"@ != "allowed_intents"@,
        "max_agent_calls"@ != "max_parallel"@,
        "max_agent_calls"@ != "allowed_intents"@,
        "max_parallel"@ != "allowed_intents"@,
        "max_attempts"@ != "max_recovery_agent_calls"@,
        "max_evaluators"@ != "default_evaluators"@,
        "max_evaluators"@ != "default_quorum"@,
        "max_evaluators"@ != "strategy"@,
        "default_evaluators"@ != "default_quorum"@,
        "default_evaluators"@ != "strategy"@,
        "default_quorum"@ != "strategy"@,
        "max_candidates"@ != "default_candidates"@,
        "max_candidates"@ != "max_total_candidate_calls"@,
        "default_candidates"@ != "max_total_candidate_calls"@,
        "architecture"@ != "implementation"@,
        "architecture"@ != "debug"@,
        "architecture"@ != "review"@,
        "architecture"@ != "testing"@,
        "architecture"@ != "uiux"@,
        "architecture"@ != "general"@,
        "implementation"@ != "debug"@,
        "implementation"@ != "review"@,
        "implementation"@ != "testing"@,
        "implementation"@ != "uiux"@,
        "implementation"@ != "general"@,
        "debug"@ != "review"@,
        "debug"@ != "testing"@,
        "debug"@ != "uiux"@,
        "debug"@ != "general"@,
        "review"@ != "testing"@,
        "review"@ != "uiux"@,
        "review"@ != "general"@,
        "testing"@ != "uiux"@,
        "testing"@ != "general"@,
        "uiux"@ != "general"@,
{
    reveal_strlit("max_nodes");
    reveal_strlit("max_agent_calls");
    reveal_strlit("max_parallel");
    reveal_strlit("allowed_intents");
    reveal_strlit("max_attempts");
    reveal_strlit("max_recovery_agent_calls");
    reveal_strlit("max_evaluators");
    reveal_strlit("default_evaluators");
    reveal_strlit("default_quorum");
    reveal_strlit("strategy");
    reveal_strlit("max_candidates");
    reveal_strlit("default_candidates");
    reveal_strlit("max_total_candidate_calls");
    reveal_strlit("architecture");
    reveal_strlit("implementation");
    reveal_strlit("debug");
    reveal_strlit("review");
    reveal_strlit("testing");
    reveal_strlit("uiux");
    reveal_strlit("general");
    assert("max_nodes"@.len() == 9);
    assert("max_agent_calls"@.len() == 15);
    assert("max_parallel"@.len() == 12);
    assert("allowed_intents"@.len() == 15);
    assert("max_attempts"@.len() == 12);
    assert("max_recovery_agent_calls"@.len() == 24);
    assert("max_evaluators"@.len() == 14);
    assert("default_evaluators"@.len() == 18);
    assert("default_quorum"@.len() == 14);
    assert("strategy"@.len() == 8);
    assert("max_candidates"@.len() == 14);
    assert("default_candidates"@.len() == 18);
    assert("max_total_candidate_calls"@.len() == 25);
    assert("architecture"@.len() == 12);
    assert("implementation"@.len() == 14);
    assert("debug"@.len() == 5);
    assert("review"@.len() == 6);
    assert("testing"@.len() == 7);
    assert("uiux"@.len() == 4);
    assert("general"@.len() == 7);
    assert("max_agent_calls"@[0] == 'm' && "allowed_intents"@[0] == 'a');
    assert("max_evaluators"@[0] == 'm' && "default_quorum"@[0] == 'd');
    assert("testing"@[0] == 't' && "general"@[0] == 'g');
}

proof fn next_fault(
    faults: Seq<Fault>,
    file: Option<Seq<char>>,
    section: Seq<char>,
    bad: bool,
    name: Seq<char>,
    reason: Seq<char>,
)
    requires
        all_of(faults, file, section),
    ensures
        ({
            let all = faults + fault_if(bad, file, section, name, reason);
            &&& all_of(all, file, section)
            &&& all.len() == 0 <==> faults.len() == 0 && !bad
            &&& forall|field: Seq<char>| #[trigger]
                names(all, field) <==> names(faults, field) || (bad && field == name)
        }),
{
    let one = fault_if(bad, file, section, name, reason);
    assert forall|field: Seq<char>| #[trigger] names(faults + one, field) <==> names(faults, field)
        || (bad && field == name) by {
        one_names(bad, file, section, name, reason, field);
        both_name(faults, one, file, section, field);
    }
    one_names(bad, file, section, name, reason, name);
    both_name(faults, one, file, section, name);
}

proof fn no_faults_name_nothing()
    ensures
        forall|field: Seq<char>| !#[trigger] names(Seq::<Fault>::empty(), field),
{
}

/// The evaluation policy is faulty exactly where the cap on evaluators is outside
/// 1 to 5, the default number is outside 1 to that cap (5 where it is not set),
/// the quorum is outside 1 to the default number (3 where it is not set), or the
/// strategy is neither `majority` nor `unanimous`; each fault names its field.
pub proof fn evaluation_faults_are_exact(file: Option<Seq<char>>, evaluation: EvaluationConfig)
    ensures
        ({
            let faults = evaluation_faults(file, evaluation);
            let cap = match evaluation.max_evaluators {
                Some(n) => n as int,
                None => 5,
            };
            let panel = match evaluation.default_evaluators {
                Some(n) => n as int,
                None => 3,
            };
            &&& all_of(faults, file, "evaluation"@)
            &&& names(faults, "max_evaluators"@) <==> (evaluation.max_evaluators matches Some(n)
                && !(1 <= n <= 5))
            &&& names(faults, "default_evaluators"@) <==> (
            evaluation.default_evaluators matches Some(n) && !(1 <= n <= cap))
            &&& names(faults, "default_quorum"@) <==> (evaluation.default_quorum matches Some(n)
                && !(1 <= n <= panel))
            &&& names(faults, "strategy"@) <==> (evaluation.strategy matches Some(s) && !(s@
                == "majority"@ || s@ == "unanimous"@))
            &&& faults.len() == 0 <==> !names(faults, "max_evaluators"@) && !names(
                faults,
                "default_evaluators"@,
            ) && !names(faults, "default_quorum"@) && !names(faults, "strategy"@)
        }),
{
    field_names_differ();
    no_faults_name_nothing();
    let section = "evaluation"@;
    let cap = limit_or(evaluation.max_evaluators, 5);
    let panel = limit_or(evaluation.default_evaluators, 3);
    let r0 = "must be between 1 and 5"@;
    let r1 = "must be between 1 and "@ + decimal(cap as nat);
    let r2 = "must be between 1 and default_evaluators ("@ + decimal(panel as nat) + ")"@;
    let r3 = "must be `majority` or `unanimous`"@;
    let b0 = outside(evaluation.max_evaluators, 5);
    let b1 = outside(evaluation.default_evaluators, cap);
    let b2 = outside(evaluation.default_quorum, panel);
    let b3 = evaluation.strategy matches Some(s) && s@ != "majority"@ && s@ != "unanimous"@;
    let s0 = fault_if(b0, file, section, "max_evaluators"@, r0);
    let s1 = s0 + fault_if(b1, file, section, "default_evaluators"@, r1);
    let s2 = s1 + fault_if(b2, file, section, "default_quorum"@, r2);
    next_fault(Seq::empty(), file, section, b0, "max_evaluators"@, r0);
    assert(Seq::<Fault>::empty() + s0 =~= s0);
    next_fault(s0, file, section, b1, "default_evaluators"@, r1);
    next_fault(s1, file, section, b2, "default_quorum"@, r2);
    next_fault(s2, file, section, b3, "strategy"@, r3);
}

/// The competition policy is faulty exactly where the cap on candidates is
/// outside 1 to 3, the default number is outside 1 to that cap (3 where it is not
/// set), or fewer calls than the cap are allowed; each fault names its field.
pub proof fn competition_faults_are_exact(file: Option<Seq<char>>, comp: CompetitionConfig)
    ensures
        ({
            let faults = competition_faults(file, comp);
            let cap = match comp.max_candidates {
                Some(n) => n as int,
                None => 3,
            };
            &&& all_of(faults, file, "competition"@)
            &&& names(faults, "max_candidates"@) <==> (comp.max_candidates matches Some(n) && !(1
                <= n <= 3))
            &&& names(faults, "default_candidates"@) <==> (comp.default_candidates matches Some(n)
                && !(1 <= n <= cap))
            &&& names(faults, "max_total_candidate_calls"@) <==> (
            comp.max_total_candidate_calls matches Some(n) && comp.max_candidates matches Some(m)
                && n < m)
            &&& faults.len() == 0 <==> !names(faults, "max_candidates"@) && !names(
                faults,
                "default_candidates"@,
            ) && !names(faults, "max_total_candidate_calls"@)
        }),
{
    field_names_differ();
    no_faults_name_nothing();
    let section = "competition"@;
    let cap = limit_or(comp.max_candidates, 3);
    let least = limit_or(comp.max_candidates, 0);
    let r0 = "must be between 1 and 3"@;
    let r1 = "must be between 1 and "@ + decimal(cap as nat);
    let r2 = "must be >= max_candidates ("@ + decimal(least as nat) + ")"@;
    let b0 = outside(comp.max_candidates, 3);
    let b1 = outside(comp.default_candidates, cap);
    let b2 = below(comp.max_total_candidate_calls, comp.max_candidates);
    let s0 = fault_if(b0, file, section, "max_candidates"@, r0);
    let s1 = s0 + fault_if(b1, file, section, "default_candidates"@, r1);
    next_fault(Seq::empty(), file, section, b0, "max_candidates"@, r0);
    assert(Seq::<Fault>::empty() + s0 =~= s0);
    next_fault(s0, file, section, b1, "default_candidates"@, r1);
    next_fault(s1, file, section, b2, "max_total_candidate_calls"@, r2);
}

/// The recovery policy is faulty exactly where the attempts are outside 1 to 2
/// or the agent calls outside 1 to 20; each fault names its field.
pub proof fn recovery_faults_are_exact(file: Option<Seq<char>>, recovery: RecoveryConfig)
    ensures
        ({
            let faults = recovery_faults(file, recovery);
            &&& all_of(faults, file, "recovery"@)
            &&& names(faults, "max_attempts"@) <==> (recovery.max_attempts matches Some(n) && !(1
                <= n <= 2))
            &&& names(faults, "max_recovery_agent_calls"@) <==> (
            recovery.max_recovery_agent_calls matches Some(n) && !(1 <= n <= 20))
            &&& faults.len() == 0 <==> !names(faults, "max_attempts"@) && !names(
                faults,
                "max_recovery_agent_calls"@,
            )
        }),
{
    field_names_differ();
    no_faults_name_nothing();
    let section = "recovery"@;
    let r0 = "must be between 1 and 2"@;
    let r1 = "must be between 1 and 20"@;
    let b0 = outside(recovery.max_attempts, 2);
    let b1 = outside(recovery.max_recovery_agent_calls, 20);
    let s0 = fault_if(b0, file, section, "max_attempts"@, r0);
    next_fault(Seq::empty(), file, section, b0, "max_attempts"@, r0);
    assert(Seq::<Fault>::empty() + s0 =~= s0);
    next_fault(s0, file, section, b1, "max_recovery_agent_calls"@, r1);
}

/// The routing table is faulty exactly where a list has no agent; each fault
/// names its list.
pub proof fn routing_faults_are_exact(file: Option<Seq<char>>, routing: RoutingConfig)
    ensures
        ({
            let faults = routing_faults(file, routing);
            &&& all_of(faults, file, "routing"@)
            &&& names(faults, "architecture"@) <==> routing.architecture@.len() == 0
            &&& names(faults, "implementation"@) <==> routing.implementation@.len() == 0
            &&& names(faults, "debug"@) <==> routing.debug@.len() == 0
            &&& names(faults, "review"@) <==> routing.review@.len() == 0
            &&& names(faults, "testing"@) <==> routing.testing@.len() == 0
            &&& names(faults, "uiux"@) <==> routing.uiux@.len() == 0
            &&& names(faults, "general"@) <==> routing.general@.len() == 0
            &&& faults.len() == 0 <==> routing.architecture@.len() > 0
                && routing.implementation@.len() > 0 && routing.debug@.len() > 0
                && routing.review@.len() > 0 && routing.testing@.len() > 0 && routing.uiux@.len()
                > 0 && routing.general@.len() > 0
        }),
{
    field_names_differ();
    no_faults_name_nothing();
    let section = "routing"@;
    let r = "must specify at least one agent"@;
    let s0 = list_fault(file, "architecture"@, routing.architecture@);
    let s1 = s0 + list_fault(file, "implementation"@, routing.implementation@);
    let s2 = s1 + list_fault(file, "debug"@, routing.debug@);
    let s3 = s2 + list_fault(file, "review"@, routing.review@);
    let s4 = s3 + list_fault(file, "testing"@, routing.testing@);
    let s5 = s4 + list_fault(file, "uiux"@, routing.uiux@);
    let none = Seq::<Fault>::empty();
    next_fault(none, file, section, routing.architecture@.len() == 0, "architecture"@, r);
    assert(none + s0 =~= s0);
    next_fault(s0, file, section, routing.implementation@.len() == 0, "implementation"@, r);
    next_fault(s1, file, section, routing.debug@.len() == 0, "debug"@, r);
    next_fault(s2, file, section, routing.review@.len() == 0, "review"@, r);
    next_fault(s3, file, section, routing.testing@.len() == 0, "testing"@, r);
    next_fault(s4, file, section, routing.uiux@.len() == 0, "uiux"@, r);
    next_fault(s5, file, section, routing.general@.len() == 0, "general"@, r);
}

proof fn intents_are_known(file: Option<Seq<char>>, intents: Seq<String>)
    ensures
        all_of(intent_faults(file, intents), file, "planner.policy"@),
        names(intent_faults(file, intents), "allowed_intents"@) <==> exists|i: int|
            0 <= i < intents.len() && !known_intent((#[trigger] intents[i])@),
        forall|field: Seq<char>|
            field != "allowed_intents"@ ==> !#[trigger] names(intent_faults(file, intents), field),
        intent_faults(file, intents).len() == 0 <==> forall|i: int|
            0 <= i < intents.len() ==> known_intent((#[trigger] intents[i])@),
    decreases intents.len(),
{
    if intents.len() > 0 {
        let rest = intents.drop_last();
        let last = intents.last();
        intents_are_known(file, rest);
        let reason = "unknown intent `"@ + last@ + "`"@;
        let bad = !known_intent(last@);
        let one = fault_if(bad, file, "planner.policy"@, "allowed_intents"@, reason);
        let all = intent_faults(file, intents);
        one_names(
            bad,
            file,
            "planner.policy"@,
            "allowed_intents"@,
            reason,
            "allowed_intents"@,
        );
        both_name(
            intent_faults(file, rest),
            one,
            file,
            "planner.policy"@,
            "allowed_intents"@,
        );
        assert(intents[intents.len() - 1] == last);
        assert forall|i: int| 0 <= i < rest.len() implies #[trigger] rest[i] == intents[i] by {}
        if names(intent_faults(file, rest), "allowed_intents"@) {
            let i = choose|i: int| 0 <= i < rest.len() && !known_intent((#[trigger] rest[i])@);
            assert(!known_intent(intents[i]@));
        }
        if exists|i: int| 0 <= i < intents.len() && !known_intent((#[trigger] intents[i])@) {
            let i = choose|i: int|
                0 <= i < intents.len() && !known_intent((#[trigger] intents[i])@);
            if i < rest.len() {
                assert(!known_intent(rest[i]@));
            }
        }
        assert forall|field: Seq<char>| field != "allowed_intents"@ implies !#[trigger] names(
            all,
            field,
        ) by {
            one_names(bad, file, "planner.policy"@, "allowed_intents"@, reason, field);
            both_name(intent_faults(file, rest), one, file, "planner.policy"@, field);
        }
        if all.len() == 0 {
            assert forall|i: int| 0 <= i < intents.len() implies known_intent(
                (#[trigger] intents[i])@,
            ) by {
                if i < rest.len() {
                    assert(known_intent(rest[i]@));
                }
            }
        }
    }
}

/// The planner policy is faulty exactly where the nodes are outside 1 to 100,
/// fewer agent calls than nodes are allowed, the parallel nodes are outside 1 to
/// 8, or an allowed intent is unknown; each fault names its field.
pub proof fn policy_faults_are_exact(file: Option<Seq<char>>, policy: PlanPolicyConfig)
    ensures
        all_of(policy_faults(file, policy), file, "planner.policy"@),
        names(policy_faults(file, policy), "max_nodes"@) <==> (policy.max_nodes matches Some(n) && (
        n < 1 || n > 100)),
        names(policy_faults(file, policy), "max_agent_calls"@) <==> (
        policy.max_agent_calls matches Some(n) && policy.max_nodes matches Some(m) && n < m),
        names(policy_faults(file, policy), "max_parallel"@) <==> (
        policy.max_parallel matches Some(n) && (n < 1 || n > 8)),
        names(policy_faults(file, policy), "allowed_intents"@) <==> (
        policy.allowed_intents matches Some(list) && exists|i: int|
            0 <= i < list@.len() && !known_intent((#[trigger] list@[i])@)),
        policy_faults(file, policy).len() == 0 <==> {
            &&& policy.max_nodes matches Some(n) ==> 1 <= n <= 100
            &&& policy.max_agent_calls matches Some(n) ==> (policy.max_nodes matches Some(m) ==> n
                >= m)
            &&& policy.max_parallel matches Some(n) ==> 1 <= n <= 8
            &&& policy.allowed_intents matches Some(list) ==> forall|i: int|
                0 <= i < list@.len() ==> known_intent((#[trigger] list@[i])@)
        },
{
    field_names_differ();
    let section = "planner.policy"@;
    let r0 = "must be between 1 and 100"@;
    let r1 = "must be >= max_nodes ("@ + decimal(limit_or(policy.max_nodes, 0) as nat) + ")"@;
    let r2 = "must be between 1 and 8"@;
    let b0 = outside(policy.max_nodes, 100);
    let b1 = below(policy.max_agent_calls, policy.max_nodes);
    let b2 = outside(policy.max_parallel, 8);
    let s0 = fault_if(b0, file, section, "max_nodes"@, r0);
    let s1 = s0 + fault_if(b1, file, section, "max_agent_calls"@, r1);
    let s2 = s1 + fault_if(b2, file, section, "max_parallel"@, r2);
    let listed = match policy.allowed_intents {
        Some(intents) => intent_faults(file, intents@),
        None => Seq::empty(),
    };
    if let Some(intents) = policy.allowed_intents {
        intents_are_known(file, intents@);
    }
    no_faults_name_nothing();
    next_fault(Seq::empty(), file, section, b0, "max_nodes"@, r0);
    assert(Seq::<Fault>::empty() + s0 =~= s0);
    next_fault(s0, file, section, b1, "max_agent_calls"@, r1);
    next_fault(s1, file, section, b2, "max_parallel"@, r2);
    assert(policy_faults(file, policy) == s2 + listed);
    both_name(s2, listed, file, section, "max_nodes"@);
    both_name(s2, listed, file, section, "max_agent_calls"@);
    both_name(s2, listed, file, section, "max_parallel"@);
    both_name(s2, listed, file, section, "allowed_intents"@);
}

proof fn commands_are_not_blank(
    file: Option<Seq<char>>,
    keys: Seq<Seq<char>>,
    agents: Seq<AgentConfig>,
)
    requires
        keys.len() <= agents.len(),
    ensures
        agent_faults(file, keys, agents).len() == 0 <==> forall|i: int|
            0 <= i < keys.len() ==> ((#[trigger] agents[i]).command matches Some(c) ==> exists|k: int|
                0 <= k < c@.len() && !white_space(#[trigger] c@[k])),
    decreases keys.len(),
{
    if keys.len() > 0 {
        let n = keys.len() - 1;
        commands_are_not_blank(file, keys.drop_last(), agents);
        if let Some(c) = agents[n].command {
            trimmed_empty(c@);
        }
    }
}

/// A configuration passes validation exactly when every command has a character
/// that is not white space, every routing list has an agent, every limit that is
/// set lies in its bounds, every allowed intent is known, and the strategy is
/// absent, `majority` or `unanimous`.
#[verifier::rlimit(40)]
pub proof fn config_passes_exactly_when_sound(file: Option<Seq<char>>, config: AgentMeshConfig)
    requires
        entries_agree(config.agents@, config.agents.keys(), config.agents.values()),
    ensures
        config_faults(file, config).len() == 0 <==> {
            &&& forall|k: Seq<char>| #[trigger]
                config.agents@.dom().contains(k) ==> (config.agents@[k].command matches Some(c)
                    ==> exists|i: int| 0 <= i < c@.len() && !white_space(#[trigger] c@[i]))
            &&& config.routing matches Some(r) ==> r.architecture@.len() > 0
                && r.implementation@.len() > 0 && r.debug@.len() > 0 && r.review@.len() > 0
                && r.testing@.len() > 0 && r.uiux@.len() > 0 && r.general@.len() > 0
            &&& config.planner matches Some(planner) ==> (planner.policy matches Some(p) ==> {
                &&& p.max_nodes matches Some(n) ==> 1 <= n <= 100
                &&& p.max_agent_calls matches Some(n) ==> (p.max_nodes matches Some(m) ==> n >= m)
                &&& p.max_parallel matches Some(n) ==> 1 <= n <= 8
                &&& p.allowed_intents matches Some(list) ==> forall|i: int|
                    0 <= i < list@.len() ==> known_intent((#[trigger] list@[i])@)
            })
            &&& config.recovery matches Some(r) ==> {
                &&& r.max_attempts matches Some(n) ==> 1 <= n <= 2
                &&& r.max_recovery_agent_calls matches Some(n) ==> 1 <= n <= 20
            }
            &&& config.evaluation matches Some(e) ==> {
                &&& e.max_evaluators matches Some(n) ==> 1 <= n <= 5
                &&& e.default_evaluators matches Some(n) ==> 1 <= n && (match e.max_evaluators {
                    Some(m) => n <= m,
                    None => n <= 5,
                })
                &&& e.default_quorum matches Some(n) ==> 1 <= n && (match e.default_evaluators {
                    Some(m) => n <= m,
                    None => n <= 3,
                })
                &&& e.strategy matches Some(s) ==> s@ == "majority"@ || s@ == "unanimous"@
            }
            &&& config.competition matches Some(c) ==> {
                &&& c.max_candidates matches Some(n) ==> 1 <= n <= 3
                &&& c.default_candidates matches Some(n) ==> 1 <= n && (match c.max_candidates {
                    Some(m) => n <= m,
                    None => n <= 3,
                })
                &&& c.max_total_candidate_calls matches Some(n) ==> (
                c.max_candidates matches Some(m) ==> n >= m)
            }
        },
{
    let ks = config.agents.keys();
    let vs = config.agents.values();
    commands_are_not_blank(file, ks, vs);
    let sound = forall|k: Seq<char>| #[trigger]
        config.agents@.dom().contains(k) ==> (config.agents@[k].command matches Some(c)
            ==> exists|i: int| 0 <= i < c@.len() && !white_space(#[trigger] c@[i]));
    if sound {
        assert forall|i: int| 0 <= i < ks.len() implies ((#[trigger] vs[i]).command matches Some(c)
            ==> exists|k: int| 0 <= k < c@.len() && !white_space(#[trigger] c@[k])) by {
            assert(config.agents@.dom().contains(ks[i]));
        }
    }
    if agent_faults(file, ks, vs).len() == 0 {
        assert forall|k: Seq<char>| #[trigger] config.agents@.dom().contains(k) implies (
        config.agents@[k].command matches Some(c) ==> exists|i: int|
            0 <= i < c@.len() && !white_space(#[trigger] c@[i])) by {
            assert(ks.contains(k));
            let i = choose|i: int| 0 <= i < ks.len() && ks[i] == k;
            assert(vs[i] == config.agents@[k]);
        }
    }
    assert(sound <==> agent_faults(file, ks, vs).len() == 0);
    if let Some(routing) = config.routing {
        routing_faults_are_exact(file, routing);
    }
    if let Some(planner) = config.planner {
        if let Some(policy) = planner.policy {
            policy_faults_are_exact(file, policy);
        }
    }
    if let Some(recovery) = config.recovery {
        recovery_faults_are_exact(file, recovery);
    }
    if let Some(evaluation) = config.evaluation {
        evaluation_faults_are_exact(file, evaluation);
    }
    if let Some(competition) = config.competition {
        competition_faults_are_exact(file, competition);
    }
}

/// An intent is known exactly when it is one of the seven.
pub proof fn known_intents_are_seven(key: Seq<char>)
    ensures
        known_intent(key) <==> key == "architecture"@ || key == "implementation"@ || key
            == "debug"@ || key == "review"@ || key == "testing"@ || key == "uiux"@ || key
            == "general"@,
{
    assert(intent_key(TaskIntent::Architecture) == "architecture"@);
    assert(intent_key(TaskIntent::Implementation) == "implementation"@);
    assert(intent_key(TaskIntent::Debug) == "debug"@);
    assert(intent_key(TaskIntent::Review) == "review"@);
    assert(intent_key(TaskIntent::Testing) == "testing"@);
    assert(intent_key(TaskIntent::UIUX) == "uiux"@);
    assert(intent_key(TaskIntent::General) == "general"@);
}

/// The text of a fault tells its file, section and field, and ends with the
/// reason.
#[verifier::rlimit(40)]
pub proof fn fault_text_tells_all(fault: Fault)
    ensures
        ends_with(fault_text(fault), fault.reason),
        contains_text(fault_text(fault), fault.section),
        contains_text(fault_text(fault), fault.field),
        fault.file matches Some(file) ==> begins_with(fault_text(fault), file),
{
    let text = fault_text(fault);
    let file = match fault.file {
        Some(file) => file + "\n"@,
        None => Seq::empty(),
    };
    let p0 = file + "["@;
    let p1 = p0 + fault.section + "]\n"@;
    let p2 = p1 + fault.field + "\n"@;
    assert(text == p2 + fault.reason);
    tail_stands(p2, fault.reason);
    told_then(p1, fault.field, "\n"@, fault.reason);
    told_then(p0, fault.section, "]\n"@, fault.field + "\n"@ + fault.reason);
    assert(text =~= p1 + (fault.field + "\n"@ + fault.reason));
    if let Some(name) = fault.file {
        head_stands(p0, fault.section, p1, fault.field, p2, text, name);
    }
}

proof fn tail_stands(head: Seq<char>, tail: Seq<char>)
    ensures
        ends_with(head + tail, tail),
{
    let whole = head + tail;
    assert(whole.subrange(whole.len() - tail.len(), whole.len() as int) =~= tail);
}

proof fn told_then(before: Seq<char>, part: Seq<char>, after: Seq<char>, rest: Seq<char>)
    ensures
        contains_text(before + part + after + rest, part),
{
    parts_stand_where_they_are(before, part, after + rest);
    assert(before + part + after + rest =~= before + part + (after + rest));
}

proof fn head_stands(
    p0: Seq<char>,
    section: Seq<char>,
    p1: Seq<char>,
    field: Seq<char>,
    p2: Seq<char>,
    text: Seq<char>,
    name: Seq<char>,
)
    requires
        p0 == name + "\n"@ + "["@,
        p1 == p0 + section + "]\n"@,
        p2 == p1 + field + "\n"@,
        p2.len() <= text.len(),
        text.subrange(0, p2.len() as int) =~= p2,
    ensures
        begins_with(text, name),
{
    assert forall|i: int| 0 <= i < name.len() implies text[i] == name[i] by {
        assert(text.subrange(0, p2.len() as int)[i] == text[i]);
        assert(p2[i] == p1[i]);
        assert(p1[i] == p0[i]);
        assert(p0[i] == name[i]);
    }
    assert(text.subrange(0, name.len() as int) =~= name);
}

} // verus!
