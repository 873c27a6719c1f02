//! Configuration, domain model and cross-agent context.

use agentmesh::collections::StringMap;
use agentmesh::config::validation::ConfigValidationError;
use agentmesh::config::{
    project_config_path, roaming_config_path, user_config_path, AgentConfig, AgentMeshConfig,
    CompetitionConfig, EvaluationConfig, PlanPolicyConfig, PlannerConfig, RecoveryConfig,
    RoutingConfig,
};
use agentmesh::cross_context::{
    format_cross_agent_prompt, format_workspace_context_md, PriorArtifactSummary, PriorTaskSummary,
};
use agentmesh::ids::{now_text, Timestamp, Uuid};
use agentmesh::model::{
    AgentMessage, AgentSession, AgentSkill, AgentTask, Artifact, ArtifactKind, Context,
    MessageRole, TaskIntent, TaskStatus, DEFAULT_SESSION_LANE,
};
use agentmesh::paths::{
    a2a_token_path, daemon_json_path, daemon_lock_path, daemon_log_path, daemon_token_path,
    parse_scope_arg, project_database_path, scope_arg, Location, Scope, ScopeError,
};
use agentmesh::text;

/// The id of the lead agent.
const LEAD: &str = "primary";

fn agent<'a>(config: &'a AgentMeshConfig, id: &str) -> &'a AgentConfig {
    config.agents.get(id).expect("agent is configured")
}

fn string_map(entries: &[(&str, &str)]) -> StringMap<String> {
    let mut map = StringMap::new();
    for (k, v) in entries {
        map.insert(k.to_string(), v.to_string());
    }
    map
}

fn empty_config() -> AgentMeshConfig {
    AgentMeshConfig {
        agents: StringMap::new(),
        routing: None,
        planner: None,
        recovery: None,
        evaluation: None,
        competition: None,
    }
}

fn policy() -> PlanPolicyConfig {
    PlanPolicyConfig::default()
}

#[test]
fn default_config_has_all_builtin_agents() {
    let config = AgentMeshConfig::default_config(LEAD);
    assert_eq!(config.agents.len(), 5);
    for id in ["mock", LEAD, "codex", "opencode", "antigravity"] {
        assert!(agent(&config, id).enabled, "{id} should be enabled");
    }
    assert_eq!(agent(&config, LEAD).command.as_deref(), Some(LEAD));
    assert_eq!(agent(&config, "codex").command.as_deref(), Some("codex"));
    assert_eq!(
        agent(&config, "opencode").command.as_deref(),
        Some("opencode")
    );
    assert_eq!(agent(&config, "antigravity").command.as_deref(), Some("agy"));
}

#[test]
fn project_overrides_user() {
    let mut base = empty_config();
    base.agents.insert(
        LEAD.to_string(),
        AgentConfig {
            command: Some(LEAD.to_string()),
            env: string_map(&[("A", "1")]),
            ..AgentConfig::default()
        },
    );
    base.agents
        .insert("mock".to_string(), AgentConfig::default());
    let mut overlay = empty_config();
    overlay.agents.insert(
        LEAD.to_string(),
        AgentConfig {
            command: Some("/opt/primary".to_string()),
            env: string_map(&[("B", "2")]),
            ..AgentConfig::default()
        },
    );
    let merged = base.overlay(overlay);
    let merged_agent = agent(&merged, LEAD);
    assert_eq!(merged_agent.command.as_deref(), Some("/opt/primary"));
    assert_eq!(merged_agent.env.get("A").map(String::as_str), Some("1"));
    assert_eq!(merged_agent.env.get("B").map(String::as_str), Some("2"));
    assert!(merged.agents.contains_key("mock"));
}

#[test]
fn disabled_agent_stays_disabled() {
    let mut config = empty_config();
    config.agents.insert(
        LEAD.to_string(),
        AgentConfig {
            enabled: false,
            ..AgentConfig::default()
        },
    );
    assert!(!agent(&config, LEAD).enabled);
    let merged = AgentMeshConfig::default_config(LEAD).overlay(config);
    assert!(!agent(&merged, LEAD).enabled);
    assert!(agent(&merged, "codex").enabled);
}

#[test]
fn agent_section_without_enabled_defaults_to_enabled() {
    let mut config = empty_config();
    config.agents.insert(
        LEAD.to_string(),
        AgentConfig {
            command: Some(LEAD.to_string()),
            ..AgentConfig::default()
        },
    );
    assert!(agent(&config, LEAD).enabled);
}

#[test]
fn routing_defaults_follow_spec() {
    let config = AgentMeshConfig::default_config(LEAD);
    let routing = config.routing_config(LEAD);
    assert_eq!(
        routing.architecture,
        vec![LEAD, "codex", "opencode", "antigravity"]
    );
    assert_eq!(
        routing.implementation,
        vec!["codex", "opencode", LEAD, "antigravity"]
    );
    assert_eq!(
        routing.debug,
        vec!["codex", "opencode", LEAD, "antigravity"]
    );
    assert_eq!(
        routing.review,
        vec![LEAD, "codex", "opencode", "antigravity"]
    );
    assert_eq!(
        routing.testing,
        vec!["codex", "opencode", LEAD, "antigravity"]
    );
    assert_eq!(routing.uiux, vec!["antigravity", LEAD, "opencode"]);
    assert_eq!(
        routing.general,
        vec![LEAD, "codex", "opencode", "antigravity"]
    );
}

#[test]
fn routing_parses_from_toml_with_partial_defaults() {
    let routing = RoutingConfig::with_defaults(
        LEAD,
        Some(vec!["mock".to_string()]),
        None,
        None,
        Some(vec!["codex".to_string()]),
        None,
        None,
        None,
    );
    let config = AgentMeshConfig {
        routing: Some(routing),
        ..empty_config()
    };
    let routing = config.routing_config(LEAD);
    assert_eq!(routing.architecture, vec!["mock"]);
    assert_eq!(routing.review, vec!["codex"]);
    assert_eq!(
        routing.testing,
        vec!["codex", "opencode", LEAD, "antigravity"]
    );
    assert_eq!(
        routing.general,
        vec![LEAD, "codex", "opencode", "antigravity"]
    );
}

#[test]
fn routing_overlay_replaces_only_when_present() {
    let base = AgentMeshConfig::default_config(LEAD);
    let overlay = AgentMeshConfig {
        routing: Some(RoutingConfig::with_defaults(
        LEAD,
            Some(vec!["mock".to_string()]),
            None,
            None,
            None,
            None,
            None,
            None,
        )),
        ..empty_config()
    };
    let merged = base.overlay(overlay);
    let routing = merged.routing_config(LEAD);
    assert_eq!(routing.architecture, vec!["mock"]);
    assert_eq!(
        routing.review,
        vec![LEAD, "codex", "opencode", "antigravity"]
    );
}

#[test]
fn routing_config_missing_entirely_uses_defaults() {
    let config = AgentMeshConfig::load_optional(Ok::<_, String>(None));
    let routing = config.map(|c| c.routing_config(LEAD)).unwrap_or_else(|| RoutingConfig::defaults(LEAD));
    assert_eq!(
        routing.general,
        vec![LEAD, "codex", "opencode", "antigravity"]
    );
}

#[test]
fn preferred_agents_follow_the_intent() {
    let routing = RoutingConfig::defaults(LEAD);
    assert_eq!(
        routing.preferred(TaskIntent::UIUX).to_vec(),
        vec!["antigravity", LEAD, "opencode"]
    );
    assert_eq!(
        routing.preferred(TaskIntent::Debug).to_vec(),
        vec!["codex", "opencode", LEAD, "antigravity"]
    );
}

#[test]
fn planner_policy_parses_from_toml() {
    let config = AgentMeshConfig {
        planner: Some(PlannerConfig {
            policy: Some(PlanPolicyConfig {
                max_nodes: Some(10),
                max_parallel: Some(4),
                allowed_intents: Some(vec![
                    "architecture".to_string(),
                    "implementation".to_string(),
                ]),
                ..policy()
            }),
        }),
        ..empty_config()
    };
    let policy = config
        .planner
        .expect("planner present")
        .policy
        .expect("policy present");
    assert_eq!(policy.max_nodes, Some(10));
    assert_eq!(policy.max_parallel, Some(4));
    assert_eq!(policy.max_agent_calls, None, "absent fields stay None");
    assert_eq!(
        policy.allowed_intents,
        Some(vec![
            "architecture".to_string(),
            "implementation".to_string()
        ])
    );
    assert_eq!(policy.allowed_roles, None);
}

#[test]
fn planner_policy_absent_uses_none() {
    let config = AgentMeshConfig::default_config(LEAD);
    assert!(config.planner.is_none());
}

#[test]
fn planner_policy_overlay_merges_field_by_field() {
    let base = AgentMeshConfig {
        planner: Some(PlannerConfig {
            policy: Some(PlanPolicyConfig {
                max_nodes: Some(10),
                max_parallel: Some(4),
                ..policy()
            }),
        }),
        ..empty_config()
    };
    let overlay = AgentMeshConfig {
        planner: Some(PlannerConfig {
            policy: Some(PlanPolicyConfig {
                max_nodes: Some(6),
                ..policy()
            }),
        }),
        ..empty_config()
    };
    let merged = base.overlay(overlay);
    let policy = merged.planner.expect("planner").policy.expect("policy");
    assert_eq!(policy.max_nodes, Some(6), "overlay wins on max_nodes");
    assert_eq!(policy.max_parallel, Some(4), "unmentioned field is kept");
}

#[test]
fn recovery_config_parses_and_defaults() {
    let config = AgentMeshConfig {
        recovery: Some(RecoveryConfig {
            max_attempts: Some(2),
            auto_execute: Some(true),
            ..RecoveryConfig::default()
        }),
        ..empty_config()
    };
    let recovery = config.recovery.expect("recovery present");
    assert_eq!(recovery.max_attempts, Some(2));
    assert_eq!(recovery.auto_execute, Some(true));
    assert_eq!(recovery.auto_generate, None, "absent fields stay None");
    let defaults = RecoveryConfig::defaults();
    assert_eq!(defaults.max_attempts, Some(1));
    assert_eq!(defaults.auto_generate, Some(true));
    assert_eq!(defaults.auto_execute, Some(false));
    assert_eq!(defaults.max_recovery_agent_calls, Some(6));
}

#[test]
fn recovery_overlay_merges_field_by_field() {
    let base = AgentMeshConfig {
        recovery: Some(RecoveryConfig {
            max_attempts: Some(1),
            auto_execute: Some(false),
            ..RecoveryConfig::default()
        }),
        ..empty_config()
    };
    let overlay = AgentMeshConfig {
        recovery: Some(RecoveryConfig {
            max_attempts: Some(2),
            ..RecoveryConfig::default()
        }),
        ..empty_config()
    };
    let merged = base.overlay(overlay);
    let recovery = merged.recovery.expect("recovery");
    assert_eq!(recovery.max_attempts, Some(2), "overlay wins");
    assert_eq!(recovery.auto_execute, Some(false), "unmentioned field kept");
}

#[test]
fn evaluation_config_parses_and_defaults() {
    let config = AgentMeshConfig {
        evaluation: Some(EvaluationConfig {
            max_evaluators: Some(5),
            default_evaluators: Some(3),
            default_quorum: Some(2),
            strategy: Some("majority".to_string()),
            max_total_evaluator_calls: Some(6),
        }),
        ..empty_config()
    };
    let evaluation = config.evaluation.expect("evaluation present");
    assert_eq!(evaluation.max_evaluators, Some(5));
    assert_eq!(evaluation.default_evaluators, Some(3));
    assert_eq!(evaluation.default_quorum, Some(2));
    assert_eq!(evaluation.strategy.as_deref(), Some("majority"));
    assert_eq!(evaluation.max_total_evaluator_calls, Some(6));
    let defaults = EvaluationConfig::defaults();
    assert_eq!(defaults.default_evaluators, Some(3));
    assert_eq!(defaults.default_quorum, Some(2));
    assert_eq!(defaults.max_total_evaluator_calls, Some(6));
}

#[test]
fn config_validation_catches_invalid_competition_and_planner_fields() {
    let config = AgentMeshConfig {
        competition: Some(CompetitionConfig {
            max_candidates: Some(0),
            default_candidates: Some(5),
            ..CompetitionConfig::default()
        }),
        planner: Some(PlannerConfig {
            policy: Some(PlanPolicyConfig {
                max_nodes: Some(0),
                max_parallel: Some(10),
                ..policy()
            }),
        }),
        ..empty_config()
    };
    let errs = config
        .validate(Some(".agentmesh/config.toml"))
        .expect_err("should have validation errors");
    let has = |section: &str, field: &str| {
        errs.iter()
            .any(|e: &ConfigValidationError| e.section == section && e.field == field)
    };
    assert!(has("competition", "max_candidates"));
    assert!(has("competition", "default_candidates"));
    assert!(has("planner.policy", "max_nodes"));
    assert!(has("planner.policy", "max_parallel"));
    for err in &errs {
        assert_eq!(err.file.as_deref(), Some(".agentmesh/config.toml"));
    }
}

#[test]
fn default_config_passes_validation() {
    let config = AgentMeshConfig::default_config(LEAD);
    assert!(config.validate(None).is_ok());
}

#[test]
fn validation_error_names_its_place() {
    let error = ConfigValidationError {
        file: Some("a.toml".to_string()),
        section: "competition".to_string(),
        field: "max_candidates".to_string(),
        reason: "too small".to_string(),
    };
    let text = error.to_text();
    assert!(text.contains("a.toml"));
    assert!(text.contains("competition"));
    assert!(text.contains("max_candidates"));
    assert!(text.contains("too small"));
}

#[test]
fn layers_are_loaded_over_the_defaults() {
    let mut user = empty_config();
    user.agents.insert(
        LEAD.to_string(),
        AgentConfig {
            command: Some("/home/primary".to_string()),
            ..AgentConfig::default()
        },
    );
    let mut project = empty_config();
    project.agents.insert(
        LEAD.to_string(),
        AgentConfig {
            command: Some("/project/primary".to_string()),
            ..AgentConfig::default()
        },
    );
    let both = AgentMeshConfig::load(LEAD, Some(user), Some(project));
    assert_eq!(
        agent(&both, LEAD).command.as_deref(),
        Some("/project/primary")
    );
    assert_eq!(agent(&both, "codex").command.as_deref(), Some("codex"));
    let none = AgentMeshConfig::load(LEAD, None, None);
    assert_eq!(none.agents.len(), 5);
    assert!(AgentMeshConfig::load_optional(Err::<Option<AgentMeshConfig>, _>("bad")).is_none());
}

fn layer(command: &str, variable: (&str, &str)) -> AgentMeshConfig {
    let mut config = empty_config();
    let mut agent = AgentConfig {
        command: Some(command.to_string()),
        ..AgentConfig::default()
    };
    agent.env.insert(variable.0.to_string(), variable.1.to_string());
    config.agents.insert("codex".to_string(), agent);
    config
}

#[test]
fn layers_may_be_grouped_and_repeated() {
    let a = || layer("one", ("A", "1"));
    let b = || layer("two", ("B", "2"));
    let c = || layer("three", ("A", "3"));
    let left = a().overlay(b()).overlay(c());
    let right = a().overlay(b().overlay(c()));
    assert_eq!(left, right);
    let codex = agent(&left, "codex");
    assert_eq!(codex.command.as_deref(), Some("three"));
    assert_eq!(codex.env.get("A").map(String::as_str), Some("3"));
    assert_eq!(codex.env.get("B").map(String::as_str), Some("2"));
    assert_eq!(left.overlay(c()), right);
}

#[test]
fn config_paths_have_their_places() {
    let place = |l: Location| (l.base, l.segments);
    assert_eq!(
        place(project_config_path(Some("/p".to_string()))),
        (
            "/p".to_string(),
            vec![".agentmesh".to_string(), "config.toml".to_string()]
        )
    );
    let (base, segments) = place(user_config_path(Some("/home/u".to_string())));
    assert_eq!(base, "/home/u");
    assert_eq!(segments.last().map(String::as_str), Some("config.toml"));
    let (base, segments) = place(roaming_config_path(Some("C:/roam".to_string())));
    assert_eq!(base, "C:/roam");
    assert_eq!(segments.last().map(String::as_str), Some("config.toml"));
}

#[test]
fn string_map_keeps_one_value_per_key() {
    let mut map = string_map(&[("a", "1"), ("b", "2"), ("a", "3")]);
    assert_eq!(map.len(), 2);
    assert_eq!(map.get("a").map(String::as_str), Some("3"));
    assert_eq!(map.position("b"), Some(1));
    assert_eq!(map.remove_at(0).0, "a");
    assert!(!map.contains_key("a"));
    map.insert("a".to_string(), "4".to_string());
    assert_eq!(map.key_at(0), "a");
    assert!(!map.is_empty());
    assert_eq!(map.clone().into_entries().len(), 2);
}

#[test]
fn maps_with_the_same_contents_are_equal() {
    let one = string_map(&[("a", "1"), ("b", "2"), ("c", "3")]);
    let other = string_map(&[("c", "0"), ("b", "2"), ("a", "1"), ("c", "3")]);
    assert_eq!(one, other);
    assert_ne!(one, string_map(&[("a", "1")]));
}

#[test]
fn task_starts_submitted() {
    let task = AgentTask::new("mock", AgentMessage::user("hello"));
    assert_eq!(task.status, TaskStatus::Submitted);
    assert_eq!(task.agent_id, "mock");
    assert!(task.artifacts.is_empty());
    assert!(task.started_at.is_none());
    assert!(task.error.is_none());
}

#[test]
fn task_takes_workspace_and_artifacts() {
    let mut task = AgentTask::with_workspace(
        "mock",
        AgentMessage::assistant("hi"),
        Some("/w".to_string()),
    );
    assert_eq!(task.workspace.as_deref(), Some("/w"));
    assert_eq!(task.input.role, MessageRole::Assistant);
    task.add_artifact(Artifact::text("a", "b"));
    assert_eq!(task.artifacts.len(), 1);
    assert_eq!(AgentMessage::system("s").role, MessageRole::System);
    assert_eq!(AgentSkill::new("code", None).name, "code");
}

#[test]
fn artifact_text_round_trip() {
    let artifact = Artifact::text("note.md", "content");
    assert_eq!(artifact.kind, ArtifactKind::Text);
    assert_eq!(artifact.mime_type, "text/plain");
    assert_eq!(artifact.content_as_str(), Some("content"));
}

#[test]
fn artifact_that_is_no_text_has_no_content_text() {
    let mut artifact = Artifact::text("note.md", "content");
    artifact.content = vec![0xff, 0xfe];
    assert_eq!(artifact.content_as_str(), None);
    artifact.content = "h\u{e9}llo".as_bytes().to_vec();
    assert_eq!(artifact.content_as_str(), Some("h\u{e9}llo"));
}

#[test]
fn session_and_context_are_separate_identities() {
    let ctx = Context::new();
    let first_session = AgentSession::new(ctx.id, LEAD);
    let codex_session = AgentSession::new(ctx.id, "codex");
    assert_ne!(first_session.id, codex_session.id);
    assert_eq!(first_session.context_id, ctx.id);
    assert_eq!(codex_session.context_id, ctx.id);
    assert_eq!(first_session.agent_id, LEAD);
    assert!(first_session.native_session_id.is_none());
    assert_eq!(first_session.session_lane, DEFAULT_SESSION_LANE);
    assert_eq!(
        AgentSession::with_lane(ctx.id, LEAD, "lane").session_lane,
        "lane"
    );
}

/// Whether an identifier is marked as a random one.
fn is_random(id: Uuid) -> bool {
    (id.bits >> 76) & 0xf == 4 && (id.bits >> 62) & 0x3 == 2
}

#[test]
fn fresh_identities_are_random() {
    let message = || AgentMessage::user("hi");
    let (a, b) = (
        AgentTask::new("codex", message()),
        AgentTask::with_workspace("codex", message(), Some("/w".to_string())),
    );
    assert!(is_random(a.id) && is_random(a.context_id));
    assert!(is_random(b.id) && is_random(b.context_id));
    assert_ne!(a.id, b.id);
    assert_ne!(a.context_id, b.context_id);
    assert!(a.created_at.to_rfc3339().is_some());
    let (c, d) = (Context::new(), Context::default());
    assert!(is_random(c.id) && is_random(d.id));
    assert_ne!(c.id, d.id);
    assert!(c.created_at.to_rfc3339().is_some());
    let (s, t) = (
        AgentSession::new(c.id, "codex"),
        AgentSession::with_lane(c.id, "codex", "lane"),
    );
    assert!(is_random(s.id) && is_random(t.id));
    assert_ne!(s.id, t.id);
    assert!(s.created_at.to_rfc3339().is_some());
    assert!(is_random(Artifact::text("n", "c").id));
    assert!(!is_random(Uuid::nil()));
}

#[test]
fn status_string_roundtrip() {
    for status in [
        TaskStatus::Submitted,
        TaskStatus::Working,
        TaskStatus::InputRequired,
        TaskStatus::Completed,
        TaskStatus::Failed,
        TaskStatus::Cancelled,
    ] {
        assert_eq!(TaskStatus::from_str(status.as_str()), Some(status));
    }
    assert_eq!(TaskStatus::from_str("bogus"), None);
}

#[test]
fn status_terminal_states() {
    assert!(TaskStatus::Completed.is_terminal());
    assert!(TaskStatus::Failed.is_terminal());
    assert!(TaskStatus::Cancelled.is_terminal());
    assert!(!TaskStatus::Submitted.is_terminal());
    assert!(!TaskStatus::Working.is_terminal());
}

#[test]
fn valid_transitions() {
    assert!(TaskStatus::Submitted.can_transition_to(TaskStatus::Working));
    assert!(TaskStatus::Submitted.can_transition_to(TaskStatus::Failed));
    assert!(TaskStatus::Submitted.can_transition_to(TaskStatus::Cancelled));
    assert!(TaskStatus::Working.can_transition_to(TaskStatus::InputRequired));
    assert!(TaskStatus::Working.can_transition_to(TaskStatus::Completed));
    assert!(TaskStatus::Working.can_transition_to(TaskStatus::Failed));
    assert!(TaskStatus::Working.can_transition_to(TaskStatus::Cancelled));
    assert!(TaskStatus::InputRequired.can_transition_to(TaskStatus::Working));
}

#[test]
fn invalid_transitions() {
    assert!(!TaskStatus::Working.can_transition_to(TaskStatus::Working));
    assert!(!TaskStatus::Completed.can_transition_to(TaskStatus::Working));
    assert!(!TaskStatus::Failed.can_transition_to(TaskStatus::Completed));
    assert!(!TaskStatus::Cancelled.can_transition_to(TaskStatus::Completed));
    assert!(!TaskStatus::Completed.can_transition_to(TaskStatus::Failed));
    assert!(!TaskStatus::Working.can_transition_to(TaskStatus::Submitted));
}

#[test]
fn intent_skills_follow_spec() {
    assert_eq!(TaskIntent::Architecture.skill(), "architecture");
    assert_eq!(TaskIntent::Implementation.skill(), "code");
    assert_eq!(TaskIntent::Debug.skill(), "debug");
    assert_eq!(TaskIntent::Review.skill(), "review");
    assert_eq!(TaskIntent::Testing.skill(), "testing");
    assert_eq!(TaskIntent::UIUX.skill(), "ui");
    assert_eq!(TaskIntent::General.skill(), "code");
}

#[test]
fn intent_key_roundtrips() {
    for key in [
        "architecture",
        "implementation",
        "debug",
        "review",
        "testing",
        "uiux",
        "general",
    ] {
        let intent = TaskIntent::from_key(key).expect(key);
        assert_eq!(intent.key(), key);
    }
    assert_eq!(TaskIntent::from_key("bogus"), None);
}

#[test]
fn artifact_kind_key_roundtrips() {
    for (key, kind) in [
        ("text", ArtifactKind::Text),
        ("file", ArtifactKind::File),
        ("patch", ArtifactKind::Patch),
        ("json", ArtifactKind::Json),
        ("log", ArtifactKind::Log),
        ("test_result", ArtifactKind::TestResult),
    ] {
        assert_eq!(kind.key(), key);
        assert_eq!(ArtifactKind::from_key(key), Some(kind));
    }
    assert_eq!(ArtifactKind::from_key("bogus"), None);
}

#[test]
fn test_format_cross_agent_prompt_empty() {
    assert_eq!(format_cross_agent_prompt("hello", &[]), "hello");
}

fn prior_task() -> PriorTaskSummary {
    PriorTaskSummary {
        task_id: Uuid::nil(),
        agent_id: "codex".to_string(),
        status: TaskStatus::Completed,
        prompt: "Design API".to_string(),
        error: None,
        artifacts: vec![PriorArtifactSummary {
            name: "api.json".to_string(),
            kind: ArtifactKind::Json,
            content_preview: Some("{\"ok\":true}".to_string()),
            size_bytes: 11,
        }],
        created_at: "2026-08-14T00:00:00Z".to_string(),
        completed_at: Some("2026-08-14T00:00:01Z".to_string()),
    }
}

#[test]
fn test_format_cross_agent_prompt_with_prior_task() {
    let formatted = format_cross_agent_prompt("Implement API in Rust", &[prior_task()]);
    assert!(formatted.contains("<prior_agent_context>"));
    assert!(formatted.contains("codex"));
    assert!(formatted.contains("Design API"));
    assert!(formatted.contains("api.json"));
    assert!(formatted.contains("## Current Task Request\nImplement API in Rust"));
}

#[test]
fn cross_agent_prompt_has_its_exact_form() {
    let mut failed = prior_task();
    failed.error = Some("boom".to_string());
    failed.artifacts = Vec::new();
    assert_eq!(
        format_cross_agent_prompt("go", &[prior_task(), failed]),
        "<prior_agent_context>\nThe following previous task(s) were completed by other agents in this session:\n\n\
         ### Task 1 [ID: 00000000-0000-0000-0000-000000000000 | Agent: codex | Status: completed]\n\
         **User Request / Input:**\nDesign API\n\n\
         **Generated Artifacts & Output:**\n- **api.json** (`json` - 11 bytes)\n```\n{\"ok\":true}\n```\n\n\
         ### Task 2 [ID: 00000000-0000-0000-0000-000000000000 | Agent: codex | Status: completed]\n\
         **User Request / Input:**\nDesign API\n\n\
         **Execution Error:**\n```\nboom\n```\n\n\
         </prior_agent_context>\n\n## Current Task Request\ngo"
    );
}

#[test]
fn context_document_has_its_exact_form() {
    let mut task = prior_task();
    task.error = Some("boom".to_string());
    assert_eq!(
        format_workspace_context_md(&[task]),
        "# AgentMesh Cross-Agent Session Context\n\n> Auto-generated context snapshot for cross-agent collaboration.\n\n\
         ## Task 1 \u{2014} codex (`00000000-0000-0000-0000-000000000000`)\n\n\
         - **Status**: `completed`\n- **Created**: `2026-08-14T00:00:00Z`\n- **Completed**: `2026-08-14T00:00:01Z`\n\
         \n### Prompt\n\nDesign API\n\n### Error\n\n```\nboom\n```\n\n\
         ### Artifacts\n\n#### api.json (json, 11 bytes)\n\n```\n{\"ok\":true}\n```\n\n---\n\n"
    );
}

#[test]
fn identifiers_are_random_and_written_with_hyphens() {
    let a = Uuid::new_v4();
    let b = Uuid::new_v4();
    assert_ne!(a, b);
    assert_eq!(a.bits >> 76 & 15, 4);
    assert_eq!(a.bits >> 62 & 3, 2);
    let id = Uuid {
        bits: 0x0123_4567_89ab_4def_8123_4567_89ab_cdef,
    };
    assert_eq!(id.to_text(), "01234567-89ab-4def-8123-456789abcdef");
    assert_eq!(
        Uuid::nil().to_text(),
        "00000000-0000-0000-0000-000000000000"
    );
}

#[test]
fn times_are_written_as_rfc3339() {
    let time = Timestamp {
        seconds: 0,
        nanos: 0,
    };
    assert_eq!(
        time.to_rfc3339().as_deref(),
        Some("1970-01-01T00:00:00+00:00")
    );
    let no_date = Timestamp {
        seconds: i64::MAX,
        nanos: 0,
    };
    assert_eq!(no_date.to_rfc3339(), None);
    assert!(Timestamp::now().to_rfc3339().is_some());
    assert!(now_text().contains('T'));
}

fn project() -> Scope {
    Scope::Project("/p".to_string())
}

#[test]
fn runtime_files_lie_in_the_scope() {
    let last = |l: Location| (l.base, l.segments.last().cloned().unwrap());
    assert_eq!(
        last(daemon_lock_path(&project(), "/u")),
        ("/p".to_string(), "daemon.lock".to_string())
    );
    assert_eq!(
        last(daemon_json_path(&Scope::User, "/u")),
        ("/u".to_string(), "daemon.json".to_string())
    );
    assert_eq!(last(daemon_token_path(&project(), "/u")).1, "daemon.token");
    assert_eq!(last(a2a_token_path(&project(), "/u")).1, "a2a.token");
    assert_eq!(last(daemon_log_path(&project(), "/u")).1, "daemon.log");
    assert_eq!(
        project_database_path(&project()).map(last),
        Some(("/p".to_string(), "agentmesh.db".to_string()))
    );
    assert!(project_database_path(&Scope::User).is_none());
}

#[test]
fn scope_argument_round_trips() {
    for scope in [project(), Scope::User] {
        assert_eq!(parse_scope_arg(&scope_arg(&scope), true), Ok(scope));
    }
    let missing = parse_scope_arg("/none", false).unwrap_err();
    assert_eq!(missing, ScopeError::NoSuchDirectory("/none".to_string()));
    assert_eq!(
        missing.message(),
        "scope directory does not exist: /none"
    );
    assert_eq!(Scope::resolve(None), Scope::User);
    assert_eq!(Scope::resolve(Some("/p".to_string())), project());
    assert_eq!(project().project_root().map(String::as_str), Some("/p"));
}

#[test]
fn texts_are_read_and_written() {
    assert_eq!(text::show_i64(i64::MIN), "-9223372036854775808");
    assert_eq!(text::show_u64(0), "0");
    assert_eq!(text::parse_number("+42", 100), Some(42));
    assert_eq!(text::parse_number("101", 100), None);
    assert_eq!(text::parse_number("", 100), None);
    assert_eq!(text::parse_number("4x", 100), None);
    assert_eq!(text::trim(" \t a b \u{3000}\n"), "a b");
    assert_eq!(text::trim_start(" a "), "a ");
    assert!(text::text_before("a", "ab"));
    assert!(!text::text_before("b", "ab"));
    assert!(text::is_blank(" \n"));
    assert_eq!(text::after_prefix("id: 4", "id:").as_deref(), Some(" 4"));
    let mut list = Vec::new();
    for item in ["b", "a", "b"] {
        text::insert_unique(&mut list, item);
    }
    assert_eq!(list, vec!["a", "b"]);
}
