//! Redaction, canonical JSON, the hash chain and the ranking.

use agentmesh::ids::Uuid;
use agentmesh::json::{parse_json, JsonNumber, JsonValue};
use agentmesh::provenance::{
    actor_type, canonical_json_string, canonicalize_json, compute_event_hash,
    compute_payload_hash, entity_type, event_type, hex_encode, rank_candidates, sha256_hex,
    AuditRedactor, CandidateRankingEntry, PolicySnapshot,
};
use agentmesh::provenance_service::{
    is_unknown_workflow, replay_decisions, replay_workflow, unreadable_report, verify_integrity,
    verify_only_report, ApplyReplay, CompetitionReplay, ConsensusView, GroupReplay, StoredEvent,
};
use agentmesh::workflow::types::ConsensusOutcome;

fn text(s: &str) -> JsonValue {
    JsonValue::Text(s.to_string())
}

fn number(n: u64) -> JsonValue {
    JsonValue::Number(JsonNumber::Unsigned(n))
}

fn object(entries: Vec<(&str, JsonValue)>) -> JsonValue {
    JsonValue::Object(
        entries
            .into_iter()
            .map(|(k, v)| (k.to_string(), v))
            .collect(),
    )
}

fn at<'a>(value: &'a JsonValue, path: &[&str]) -> Option<&'a JsonValue> {
    let mut here = value;
    for key in path {
        here = here.get(key)?;
    }
    Some(here)
}

#[test]
fn redactor_masks_tokens_secrets_and_env() {
    let raw = object(vec![
        ("agent_id", text("primary")),
        ("api_token", text("secret-12345")),
        ("Authorization", text("Bearer super-secret-jwt")),
        (
            "nested",
            object(vec![
                ("credential_value", text("pass123")),
                ("ENV", text("production_key")),
                ("safe_key", text("safe_value")),
            ]),
        ),
    ]);
    let redacted = AuditRedactor::redact_value(&raw);
    let read = |path: &[&str]| at(&redacted, path).and_then(|v| v.as_str());
    assert_eq!(read(&["agent_id"]), Some("primary"));
    assert_eq!(read(&["api_token"]), Some("[REDACTED]"));
    assert_eq!(read(&["Authorization"]), Some("[REDACTED]"));
    assert_eq!(read(&["nested", "credential_value"]), Some("[REDACTED]"));
    assert_eq!(read(&["nested", "ENV"]), Some("[REDACTED]"));
    assert_eq!(read(&["nested", "safe_key"]), Some("safe_value"));
    assert_eq!(AuditRedactor::redact_value(&redacted), redacted);
}

#[test]
fn redactor_strips_reasoning_and_chain_of_thought() {
    let raw = object(vec![
        ("verdict", text("approved")),
        ("summary", text("all tests pass")),
        ("reasoning", text("I thought about step 1 then step 2...")),
        ("chain_of_thought", text("hidden thoughts...")),
        (
            "nested",
            object(vec![
                ("thinking_trace", text("internal model tokens")),
                ("issue_count", number(0)),
            ]),
        ),
    ]);
    let redacted = AuditRedactor::redact_value(&raw);
    let read = |path: &[&str]| at(&redacted, path).and_then(|v| v.as_str());
    assert_eq!(read(&["verdict"]), Some("approved"));
    assert_eq!(read(&["summary"]), Some("all tests pass"));
    assert!(redacted.get("reasoning").is_none());
    assert!(redacted.get("chain_of_thought").is_none());
    assert!(at(&redacted, &["nested", "thinking_trace"]).is_none());
    assert_eq!(at(&redacted, &["nested", "issue_count"]), Some(&number(0)));
}

#[test]
fn canonical_json_and_hash_deterministic_across_key_orders() {
    let list = || JsonValue::Array(vec![number(2), number(1)]);
    let v1 = object(vec![
        ("z_key", number(1)),
        ("a_key", text("first")),
        ("m_key", list()),
    ]);
    let v2 = object(vec![
        ("a_key", text("first")),
        ("m_key", list()),
        ("z_key", number(1)),
    ]);
    let (c1, h1) = compute_payload_hash(&v1);
    let (c2, h2) = compute_payload_hash(&v2);
    assert_eq!(c1, c2);
    assert_eq!(h1, h2);
    assert_eq!(c1, "{\"a_key\":\"first\",\"m_key\":[2,1],\"z_key\":1}");
    assert_eq!(h1, sha256_hex(c1.as_bytes()));
}

#[test]
fn canonical_form_is_stable_and_escapes_strings() {
    let value = object(vec![
        ("b", JsonValue::Null),
        ("a\n", JsonValue::Bool(true)),
        ("c", JsonValue::Number(JsonNumber::Signed(-3))),
    ]);
    let once = canonicalize_json(&value);
    assert_eq!(canonicalize_json(&once), once);
    assert_eq!(
        canonical_json_string(&value),
        "{\"a\\n\":true,\"b\":null,\"c\":-3}"
    );
}

#[test]
fn event_hash_chain_computes_and_verifies() {
    let w_id = Uuid::new_v4();
    let payload1 = object(vec![("action", text("start"))]);
    let (_, p_hash1) = compute_payload_hash(&payload1);
    let e_hash1 = compute_event_hash(
        None,
        Some(&w_id.to_text()),
        1,
        event_type::WORKFLOW_STARTED,
        entity_type::WORKFLOW,
        &w_id.to_text(),
        actor_type::SYSTEM,
        Some("Scheduler"),
        &p_hash1,
    );
    let payload2 = object(vec![
        ("node_id", text("architect")),
        ("status", text("completed")),
    ]);
    let (_, p_hash2) = compute_payload_hash(&payload2);
    let e_hash2 = compute_event_hash(
        Some(&e_hash1),
        Some(&w_id.to_text()),
        2,
        event_type::NODE_COMPLETED,
        entity_type::NODE,
        "architect",
        actor_type::AGENT,
        Some("primary"),
        &p_hash2,
    );
    assert_ne!(e_hash1, e_hash2);
    assert!(!e_hash1.is_empty());
    assert!(!e_hash2.is_empty());
    let raw = format!(
        "GENESIS:{id}:1:WorkflowStarted:{entity}:{id}:system:Scheduler:{p_hash1}",
        id = w_id.to_text(),
        entity = entity_type::WORKFLOW
    );
    assert_eq!(e_hash1, sha256_hex(raw.as_bytes()));
}

#[test]
fn stored_text_is_what_is_hashed() {
    let workflow = Uuid::new_v4();
    let mut spaced = chain(workflow);
    spaced[0].payload_json = " { \"action\" : \"a\" } ".to_string();
    assert!(verify_integrity(workflow, &spaced, true).valid);
    let mut broken = chain(workflow);
    broken[0].payload_json = "{\"action\":".to_string();
    assert!(!verify_integrity(workflow, &broken, true).valid);
}

#[test]
fn json_is_read_and_written() {
    let text_of = |s: &str| parse_json(s).map(|v| v.to_text());
    assert_eq!(
        text_of("{ \"b\": [1, -2, 1.5e3, true, null], \"a\": \"\\u0001\\b\\t\\n\\f\\r\\\"\\\\\" }"),
        Some(
            "{\"a\":\"\\u0001\\b\\t\\n\\f\\r\\\"\\\\\",\"b\":[1,-2,1500.0,true,null]}"
                .to_string()
        )
    );
    assert_eq!(parse_json("7"), Some(number(7)));
    assert_eq!(parse_json("nope"), None);
}

#[test]
fn hash_does_not_depend_on_secrets() {
    let payload = |secret: &str, thought: &str, header: &str| {
        object(vec![
            ("api_token", text(secret)),
            ("reasoning", text(thought)),
            ("note", text(header)),
            ("kept", number(1)),
        ])
    };
    let one = payload("s1", "because", "Bearer abc");
    let other = payload("s2", "since", "basic xyz");
    assert_eq!(compute_payload_hash(&one), compute_payload_hash(&other));
    let changed = payload("s1", "because", "plain");
    assert_ne!(compute_payload_hash(&one), compute_payload_hash(&changed));
}

#[test]
fn sha256_has_its_known_value() {
    assert_eq!(
        sha256_hex(b"abc"),
        "ba7816bf8f01cfea414140de5dae2223b00361a396177a9cb410ff61f20015ad"
    );
    assert_eq!(hex_encode(&[0, 15, 255]), "000fff");
}

fn candidate(
    id: &str,
    agent: &str,
    approved: bool,
    votes: usize,
    issues: usize,
) -> CandidateRankingEntry {
    CandidateRankingEntry {
        candidate_id: id.to_string(),
        agent_id: agent.to_string(),
        is_approved: approved,
        approved_count: votes,
        valid_count: 3,
        issue_count: issues,
    }
}

#[test]
fn deterministic_candidate_ranking() {
    let candidates = vec![
        candidate("candidate_3", "primary", true, 2, 1),
        candidate("candidate_1", "codex", true, 3, 0),
        candidate("candidate_2", "opencode", false, 1, 4),
    ];
    let ranked = rank_candidates(&candidates);
    assert_eq!(ranked.len(), 2);
    assert_eq!(ranked[0].candidate_id, "candidate_1");
    assert_eq!(ranked[1].candidate_id, "candidate_3");
    let mut reversed = candidates;
    reversed.reverse();
    assert_eq!(rank_candidates(&reversed), ranked);
}

fn event(workflow: Uuid, sequence: i64, previous: Option<&str>, action: &str) -> StoredEvent {
    let payload = object(vec![("action", text(action))]);
    let (canonical, payload_hash) = compute_payload_hash(&payload);
    let id = workflow.to_text();
    let event_hash = compute_event_hash(
        previous,
        Some(&id),
        sequence,
        event_type::NODE_COMPLETED,
        entity_type::NODE,
        "n",
        actor_type::AGENT,
        None,
        &payload_hash,
    );
    StoredEvent {
        id: Uuid::new_v4(),
        workflow_id: Some(workflow),
        sequence,
        event_type: event_type::NODE_COMPLETED.to_string(),
        entity_type: entity_type::NODE.to_string(),
        entity_id: "n".to_string(),
        actor_type: actor_type::AGENT.to_string(),
        actor_id: None,
        payload_json: canonical,
        policy: None,
        payload_hash,
        previous_hash: previous.map(str::to_string),
        event_hash,
    }
}

fn chain(workflow: Uuid) -> Vec<StoredEvent> {
    let first = event(workflow, 1, None, "a");
    let second = event(workflow, 2, Some(&first.event_hash), "b");
    let third = event(workflow, 3, Some(&second.event_hash), "c");
    vec![first, second, third]
}

#[test]
fn intact_chain_is_valid() {
    let workflow = Uuid::new_v4();
    let events = chain(workflow);
    for n in 1..=events.len() {
        let report = verify_integrity(workflow, &events[..n], true);
        assert!(report.valid);
        assert_eq!(report.failure, None);
        assert_eq!(report.total_events, n);
    }
}

#[test]
fn tampering_is_detected() {
    let workflow = Uuid::new_v4();
    let mut removed = chain(workflow);
    removed.remove(1);
    assert!(!verify_integrity(workflow, &removed, true).valid);
    let mut altered = chain(workflow);
    altered[1].payload_json = "{\"action\":\"forged\"}".to_string();
    let report = verify_integrity(workflow, &altered, true);
    assert!(!report.valid);
    assert!(report.failure.is_some());
    let mut swapped = chain(workflow);
    swapped.swap(0, 1);
    assert!(!verify_integrity(workflow, &swapped, true).valid);
    let mut relinked = chain(workflow);
    relinked[2].previous_hash = Some("quote \" here".to_string());
    let failure = verify_integrity(workflow, &relinked, true).failure.unwrap();
    assert!(failure.contains("Some(\"quote \\\" here\")"));
}

#[test]
fn workflow_without_events_is_legacy_or_unknown() {
    let workflow = Uuid::new_v4();
    let legacy = verify_integrity(workflow, &[], true);
    assert!(legacy.valid && legacy.is_legacy);
    let unknown = verify_integrity(workflow, &[], false);
    assert!(!unknown.valid);
    assert!(is_unknown_workflow(&unknown));
    assert!(!is_unknown_workflow(&legacy));
    let unreadable = unreadable_report(workflow, "disk".to_string());
    assert_eq!(unreadable.failure.as_deref(), Some("disk"));
    let report = verify_only_report(unreadable);
    assert!(!report.passed);
    assert_eq!(report.mismatches, vec!["disk"]);
}

fn consensus(approved_count: usize) -> ConsensusView {
    ConsensusView {
        outcome: ConsensusOutcome::Approved,
        outcome_name: "Approved".to_string(),
        approved_count,
        changes_requested_count: 0,
        valid_count: 3,
    }
}

#[test]
fn replay_goes_by_the_chain_of_its_events() {
    let workflow = Uuid::new_v4();
    let events = chain(workflow);
    let passed = replay_workflow(workflow, &events, true, &[], None, &[]);
    assert!(passed.passed && passed.integrity_passed && !passed.is_legacy);
    assert!(passed.mismatches.is_empty());
    let mut altered = chain(workflow);
    altered[1].payload_json = "{\"action\":\"forged\"}".to_string();
    let failed = replay_workflow(workflow, &altered, true, &[], None, &[]);
    assert!(!failed.passed && !failed.integrity_passed && !failed.policy_passed);
    assert_eq!(failed.mismatches, vec!["Integrity verification failed"]);
    assert_eq!(
        failed.details,
        verify_integrity(workflow, &altered, true).details
    );
    let legacy = replay_workflow(workflow, &[], true, &[], None, &[]);
    assert!(legacy.passed && legacy.is_legacy);
    let unknown = replay_workflow(workflow, &[], false, &[], None, &[]);
    assert_eq!(unknown.details, vec!["Workflow not found"]);
    let unreadable = unreadable_report(workflow, "disk".to_string());
    assert!(!replay_decisions(unreadable, &events, &[], None, &[]).passed);
}

#[test]
fn replay_finds_each_mismatch() {
    let workflow = Uuid::new_v4();
    let events = chain(workflow);
    let group = |recorded| GroupReplay {
        id: Uuid::new_v4(),
        recomputed: consensus(3),
        recorded: Some(recorded),
    };
    let same = replay_workflow(workflow, &events, true, &[group(consensus(3))], None, &[]);
    assert!(same.passed && same.consensus_passed);
    let other = replay_workflow(workflow, &events, true, &[group(consensus(2))], None, &[]);
    assert!(!other.passed && !other.consensus_passed && other.selection_passed);
    assert_eq!(other.mismatches.len(), 1);
    let winner = Uuid::new_v4();
    let competition = CompetitionReplay {
        winner_candidate_id: None,
        winner_workspace_id: Some(winner),
        candidates: vec![],
    };
    let apply = |workspace_id| ApplyReplay {
        id: Uuid::new_v4(),
        workspace_id,
    };
    let from_winner = [apply(winner)];
    let right = replay_workflow(workflow, &events, true, &[], Some(&competition), &from_winner);
    assert!(right.apply_passed);
    let elsewhere = [apply(Uuid::new_v4())];
    let wrong = replay_workflow(workflow, &events, true, &[], Some(&competition), &elsewhere);
    assert!(!wrong.passed && !wrong.apply_passed);
}

#[test]
fn hashes_have_sixty_four_digits() {
    let (_, payload_hash) = compute_payload_hash(&object(vec![]));
    assert_eq!(payload_hash.len(), 64);
    let only = event(Uuid::new_v4(), 1, None, "a");
    assert_eq!(only.event_hash.len(), 64);
}

#[test]
fn default_policy_snapshot_is_bounded() {
    let policy = PolicySnapshot::default();
    assert!(policy.max_nodes > 0);
    assert!(policy.max_recovery_attempts <= 2);
}
