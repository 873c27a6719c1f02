//! Provenance verification, deterministic decision replay and lineage.
//!
//! Nothing here calls an agent or touches a workspace: recorded decisions are
//! recomputed from what was persisted and compared with what was recorded.

use vstd::prelude::*;
use vstd::string::*;
use vstd::utf8::*;

use crate::ids::{id_text, Uuid};
use crate::json::{lookup, parse_json, parsed_json, Json, JsonValue};
use crate::provenance::ranking::{approved, different_ids_never_tie, rank_candidates, ranked};
use crate::provenance::ranking::{ranking_holds_the_approved, ranks_before, CandidateRankingEntry};
use crate::provenance::{compute_event_hash, compute_payload_hash, event_hash, event_text};
use crate::provenance::{hash_text, hex_text_injective, payload_hash, payload_text};
use crate::provenance::{sha256_digest, PolicySnapshot};
use crate::text::{begins_with, decimal, decimal_int, opt_is, opt_text, same_opt, same_text};
use crate::text::{show_i64, show_usize, texts};
use crate::workflow::types::ConsensusOutcome;

verus! {

/// A provenance event as it was read from storage.
#[derive(Debug, PartialEq, Eq)]
pub struct StoredEvent {
    pub id: Uuid,
    pub workflow_id: Option<Uuid>,
    pub sequence: i64,
    pub event_type: String,
    pub entity_type: String,
    pub entity_id: String,
    pub actor_type: String,
    pub actor_id: Option<String>,
    /// The payload as it was stored.
    pub payload_json: String,
    /// The policy in the payload, where there is one that can be read.
    pub policy: Option<PolicySnapshot>,
    pub payload_hash: String,
    pub previous_hash: Option<String>,
    pub event_hash: String,
}

/// Result of hash-chain and provenance integrity verification.
#[derive(Debug, PartialEq, Eq)]
pub struct IntegrityReport {
    pub workflow_id: Uuid,
    pub valid: bool,
    pub is_legacy: bool,
    pub total_events: usize,
    pub details: Vec<String>,
    pub failure: Option<String>,
}

/// Result of deterministic decision replay.
#[derive(Debug, PartialEq, Eq)]
pub struct ReplayReport {
    pub workflow_id: Uuid,
    pub passed: bool,
    pub is_legacy: bool,
    pub integrity_passed: bool,
    pub consensus_passed: bool,
    pub selection_passed: bool,
    pub apply_passed: bool,
    pub policy_passed: bool,
    pub mismatches: Vec<String>,
    pub details: Vec<String>,
}

/// Workflow lineage tree / graph query representation.
#[derive(Debug, PartialEq, Eq)]
pub struct LineageReport {
    pub workflow_id: Uuid,
    pub preset: String,
    pub goal: String,
    pub status: String,
    pub parent_workflow_id: Option<Uuid>,
    pub recovery_workflows: Vec<Uuid>,
    pub plan_id: Option<Uuid>,
    pub graph_revision: i64,
    pub replans_count: usize,
    pub competition_group_id: Option<Uuid>,
    pub winner_candidate_id: Option<String>,
    pub evaluation_groups_count: usize,
    pub apply_id: Option<Uuid>,
    pub provenance_events_count: usize,
}

/// The Rust string literal of a text, as it is shown for debugging.
pub uninterp spec fn debug_literal(text: Seq<char>) -> Seq<char>;

/// Formatting a string with `{:?}` writes it as a Rust string literal, in
/// quotes and escaped.
#[verifier::external_body]
fn debug_str(text: &str) -> (r: String)
    ensures
        r@ == debug_literal(text@),
{
    format!("{:?}", text)
}

/// An optional text as it is shown for debugging.
pub open spec fn debug_opt(value: Option<Seq<char>>) -> Seq<char> {
    match value {
        Some(text) => "Some("@ + debug_literal(text) + ")"@,
        None => "None"@,
    }
}

fn show_debug(value: &Option<String>) -> (r: String)
    ensures
        r@ == debug_opt(opt_text(*value)),
{
    match value {
        Some(text) => "Some(".to_owned().concat(debug_str(text.as_str()).as_str()).concat(")"),
        None => "None".to_owned(),
    }
}

/// The payload of an event as it is hashed: a payload that is no JSON counts
/// as a JSON string.
pub open spec fn hashed_payload(event: StoredEvent) -> Json {
    match parsed_json(event.payload_json@) {
        Some(value) => value,
        None => Json::Text(event.payload_json@),
    }
}

/// The workflow of an event, as text.
pub open spec fn workflow_text(event: StoredEvent) -> Option<Seq<char>> {
    match event.workflow_id {
        Some(id) => Some(id_text(id.bits)),
        None => None,
    }
}

/// The text over which the hash of an event is taken.
pub open spec fn sealed_text(event: StoredEvent) -> Seq<char> {
    event_text(
        opt_text(event.previous_hash),
        workflow_text(event),
        event.sequence as int,
        event.event_type@,
        event.entity_type@,
        event.entity_id@,
        event.actor_type@,
        opt_text(event.actor_id),
        event.payload_hash@,
    )
}

/// The hash that an event must carry.
pub open spec fn expected_hash(event: StoredEvent) -> Seq<char> {
    hash_text(encode_utf8(sealed_text(event)))
}

/// The previous hash that the event at a position must carry.
pub open spec fn expected_link(events: Seq<StoredEvent>, i: int) -> Option<Seq<char>> {
    if i == 0 {
        None
    } else {
        Some(events[i - 1].event_hash@)
    }
}

/// What is wrong with the event at a position, where something is: its
/// sequence number, its link to the event before, the hash of its payload or
/// its own hash.
pub open spec fn event_fault(events: Seq<StoredEvent>, i: int) -> Option<Seq<char>> {
    let e = events[i];
    if e.sequence != i + 1 {
        Some(
            "Sequence gap detected: event "@ + id_text(e.id.bits) + " at index "@ + decimal(
                i as nat,
            ) + " has sequence "@ + decimal_int(e.sequence as int) + ", expected "@ + decimal_int(
                i + 1,
            ),
        )
    } else if opt_text(e.previous_hash) != expected_link(events, i) {
        if i == 0 {
            Some("Event 1 has non-null previous_hash: "@ + debug_opt(opt_text(e.previous_hash)))
        } else {
            Some(
                "Hash chain broken at sequence "@ + decimal_int(e.sequence as int)
                    + ": previous_hash "@ + debug_opt(opt_text(e.previous_hash)) + " != expected "@
                    + events[i - 1].event_hash@,
            )
        }
    } else if e.payload_hash@ != payload_hash(hashed_payload(e)) {
        Some(
            "Payload hash mismatch at sequence "@ + decimal_int(e.sequence as int) + ": recorded "@
                + e.payload_hash@ + " != computed "@ + payload_hash(hashed_payload(e)),
        )
    } else if e.event_hash@ != expected_hash(e) {
        Some(
            "Event hash mismatch at sequence "@ + decimal_int(e.sequence as int) + ": recorded "@
                + e.event_hash@ + " != computed "@ + expected_hash(e),
        )
    } else {
        None
    }
}

/// Whether every event stands in the chain as it must.
pub open spec fn chain_holds(events: Seq<StoredEvent>) -> bool {
    forall|i: int| 0 <= i < events.len() ==> #[trigger] event_fault(events, i) is None
}

/// Whether the event at a position is the first one with a fault.
pub open spec fn first_broken(events: Seq<StoredEvent>, i: int) -> bool {
    &&& 0 <= i < events.len()
    &&& event_fault(events, i) is Some
    &&& forall|k: int| 0 <= k < i ==> #[trigger] event_fault(events, k) is None
}

fn check_event(events: &[StoredEvent], i: usize) -> (r: Option<String>)
    requires
        i < events@.len(),
        events@.len() < i64::MAX,
    ensures
        opt_text(r) == event_fault(events@, i as int),
{
    let e = &events[i];
    let expected_seq: i64 = (i + 1) as i64;
    if e.sequence != expected_seq {
        return Some(
            "Sequence gap detected: event ".to_owned().concat(e.id.to_text().as_str()).concat(
                " at index ",
            ).concat(show_usize(i).as_str()).concat(" has sequence ").concat(
                show_i64(e.sequence).as_str(),
            ).concat(", expected ").concat(show_i64(expected_seq).as_str()),
        );
    }
    if i == 0 {
        if e.previous_hash.is_some() {
            return Some(
                "Event 1 has non-null previous_hash: ".to_owned().concat(
                    show_debug(&e.previous_hash).as_str(),
                ),
            );
        }
    } else {
        let expected = events[i - 1].event_hash.as_str();
        if !opt_is(&e.previous_hash, expected) {
            return Some(
                "Hash chain broken at sequence ".to_owned().concat(
                    show_i64(e.sequence).as_str(),
                ).concat(": previous_hash ").concat(show_debug(&e.previous_hash).as_str()).concat(
                    " != expected ",
                ).concat(expected),
            );
        }
    }
    let computed = match parse_json(e.payload_json.as_str()) {
        Some(value) => compute_payload_hash(&value).1,
        None => compute_payload_hash(&JsonValue::Text(e.payload_json.clone())).1,
    };
    if !same_text(e.payload_hash.as_str(), computed.as_str()) {
        return Some(
            "Payload hash mismatch at sequence ".to_owned().concat(
                show_i64(e.sequence).as_str(),
            ).concat(": recorded ").concat(e.payload_hash.as_str()).concat(" != computed ").concat(
                computed.as_str(),
            ),
        );
    }
    let workflow = match e.workflow_id {
        Some(id) => Some(id.to_text()),
        None => None,
    };
    let workflow_str: Option<&str> = match &workflow {
        Some(text) => Some(text.as_str()),
        None => None,
    };
    let previous: Option<&str> = match &e.previous_hash {
        Some(text) => Some(text.as_str()),
        None => None,
    };
    let actor: Option<&str> = match &e.actor_id {
        Some(text) => Some(text.as_str()),
        None => None,
    };
    let sealed = compute_event_hash(
        previous,
        workflow_str,
        e.sequence,
        e.event_type.as_str(),
        e.entity_type.as_str(),
        e.entity_id.as_str(),
        e.actor_type.as_str(),
        actor,
        e.payload_hash.as_str(),
    );
    if !same_text(e.event_hash.as_str(), sealed.as_str()) {
        return Some(
            "Event hash mismatch at sequence ".to_owned().concat(
                show_i64(e.sequence).as_str(),
            ).concat(": recorded ").concat(e.event_hash.as_str()).concat(" != computed ").concat(
                sealed.as_str(),
            ),
        );
    }
    None
}

fn line(text: String) -> (r: Vec<String>)
    ensures
        texts(r@) == seq![text@],
{
    let r = vec![text];
    assert(texts(r@) =~= seq![text@]);
    r
}

/// The report on events that could not be read.
pub fn unreadable_report(workflow_id: Uuid, reason: String) -> (r: IntegrityReport)
    ensures
        r.workflow_id == workflow_id,
        !r.valid,
        !r.is_legacy,
        r.total_events == 0,
        texts(r.details@) == seq!["Failed to query provenance events: "@ + reason@],
        opt_text(r.failure) == Some(reason@),
{
    let text = "Failed to query provenance events: ".to_owned().concat(reason.as_str());
    IntegrityReport {
        workflow_id,
        valid: false,
        is_legacy: false,
        total_events: 0,
        details: line(text),
        failure: Some(reason),
    }
}

/// Verifies the chain of a workflow's events: contiguous sequence numbers,
/// unbroken links, payload hashes and event hashes. A workflow without events
/// counts as an old one when it exists.
pub fn verify_integrity(workflow_id: Uuid, events: &[StoredEvent], exists_in_storage: bool) -> (r:
    IntegrityReport)
    requires
        events@.len() < i64::MAX,
    ensures
        r.workflow_id == workflow_id,
        r.total_events == events@.len(),
        r.is_legacy == (events@.len() == 0 && exists_in_storage),
        r.valid == (if events@.len() == 0 {
            exists_in_storage
        } else {
            chain_holds(events@)
        }),
        r.valid ==> r.failure is None,
        events@.len() == 0 && exists_in_storage ==> texts(r.details@)
            == seq!["Legacy workflow: provenance unavailable before schema v1"@],
        events@.len() == 0 && !exists_in_storage ==> texts(r.details@)
            == seq!["Workflow not found"@] && opt_text(r.failure) == Some(
            "Workflow "@ + id_text(workflow_id.bits) + " not found"@,
        ),
        events@.len() > 0 && chain_holds(events@) ==> texts(r.details@) == seq![
            "Verified "@ + decimal(events@.len())
                + " provenance events in continuous hash chain"@,
        ],
        events@.len() > 0 && !chain_holds(events@) ==> exists|i: int| #[trigger]
            first_broken(events@, i) && opt_text(r.failure) == event_fault(events@, i) && texts(
                r.details@,
            ) == seq![event_fault(events@, i)->0],
        r.valid ==> events@.len() > 0 || exists_in_storage,
        r.failure is Some <==> !r.valid,
        r.is_legacy ==> r.valid && r.total_events == 0,
{
    if events.len() == 0 {
        if exists_in_storage {
            return IntegrityReport {
                workflow_id,
                valid: true,
                is_legacy: true,
                total_events: 0,
                details: line(
                    "Legacy workflow: provenance unavailable before schema v1".to_owned(),
                ),
                failure: None,
            };
        }
        return IntegrityReport {
            workflow_id,
            valid: false,
            is_legacy: false,
            total_events: 0,
            details: line("Workflow not found".to_owned()),
            failure: Some(
                "Workflow ".to_owned().concat(workflow_id.to_text().as_str()).concat(" not found"),
            ),
        };
    }
    let mut i: usize = 0;
    while i < events.len()
        invariant
            i <= events@.len(),
            0 < events@.len() < i64::MAX,
            forall|k: int| 0 <= k < i ==> #[trigger] event_fault(events@, k) is None,
        decreases events.len() - i,
    {
        if let Some(msg) = check_event(events, i) {
            assert(first_broken(events@, i as int));
            assert(!chain_holds(events@));
            return IntegrityReport {
                workflow_id,
                valid: false,
                is_legacy: false,
                total_events: events.len(),
                details: line(msg.clone()),
                failure: Some(msg),
            };
        }
        i += 1;
    }
    let text = "Verified ".to_owned().concat(show_usize(events.len()).as_str()).concat(
        " provenance events in continuous hash chain",
    );
    IntegrityReport {
        workflow_id,
        valid: true,
        is_legacy: false,
        total_events: events.len(),
        details: line(text),
        failure: None,
    }
}

/// Whether an event is sealed as the next one of a chain.
pub open spec fn sealed_next(events: Seq<StoredEvent>, event: StoredEvent) -> bool {
    &&& event.sequence == events.len() + 1
    &&& opt_text(event.previous_hash) == (if events.len() == 0 {
        None
    } else {
        Some(events.last().event_hash@)
    })
    &&& event.payload_hash@ == payload_hash(hashed_payload(event))
    &&& event.event_hash@ == expected_hash(event)
}

/// A chain that holds still holds when the next sealed event is appended.
pub proof fn appending_keeps_chain(events: Seq<StoredEvent>, event: StoredEvent)
    requires
        chain_holds(events),
        sealed_next(events, event),
    ensures
        chain_holds(events.push(event)),
{
    let longer = events.push(event);
    assert forall|i: int| 0 <= i < longer.len() implies #[trigger] event_fault(longer, i) is None by {
        if i < events.len() {
            assert(event_fault(events, i) is None);
            assert(longer[i] == events[i]);
            if i > 0 {
                assert(longer[i - 1] == events[i - 1]);
            }
        } else if events.len() > 0 {
            assert(longer[i - 1] == events.last());
        }
    }
}

/// In a chain that holds the events are numbered from one without a gap, each
/// is linked to the one before, and each carries its own hash.
pub proof fn verified_chain_is_contiguous(events: Seq<StoredEvent>, i: int)
    requires
        chain_holds(events),
        0 <= i < events.len(),
    ensures
        events[i].sequence == i + 1,
        opt_text(events[i].previous_hash) == expected_link(events, i),
        i == 0 ==> events[i].previous_hash is None,
        i > 0 ==> (events[i].previous_hash matches Some(link) && link@ == events[i
            - 1].event_hash@),
        events[i].payload_hash@ == payload_hash(hashed_payload(events[i])),
        events[i].event_hash@ == expected_hash(events[i]),
{
    assert(event_fault(events, i) is None);
}

/// Events that are numbered from one without a gap, each linked to the one
/// before and each carrying the hashes of its payload and of its own fields,
/// make a chain that holds.
pub proof fn contiguous_chain_is_verified(events: Seq<StoredEvent>)
    requires
        forall|i: int|
            0 <= i < events.len() ==> {
                &&& (#[trigger] events[i]).sequence == i + 1
                &&& i == 0 ==> events[i].previous_hash is None
                &&& i > 0 ==> (events[i].previous_hash matches Some(link) && link@ == events[i
                    - 1].event_hash@)
                &&& events[i].payload_hash@ == payload_hash(hashed_payload(events[i]))
                &&& events[i].event_hash@ == event_hash(
                    opt_text(events[i].previous_hash),
                    workflow_text(events[i]),
                    events[i].sequence as int,
                    events[i].event_type@,
                    events[i].entity_type@,
                    events[i].entity_id@,
                    events[i].actor_type@,
                    opt_text(events[i].actor_id),
                    events[i].payload_hash@,
                )
            },
    ensures
        chain_holds(events),
{
    assert forall|i: int| 0 <= i < events.len() implies #[trigger] event_fault(events, i) is None by {
        let e = events[i];
        if i > 0 {
            let p = events[i - 1];
        }
    }
}

/// Every prefix of a chain that holds, holds.
pub proof fn prefix_of_chain_holds(events: Seq<StoredEvent>, n: int)
    requires
        chain_holds(events),
        0 <= n <= events.len(),
    ensures
        chain_holds(events.take(n)),
{
    let head = events.take(n);
    assert forall|i: int| 0 <= i < head.len() implies #[trigger] event_fault(head, i) is None by {
        assert(event_fault(events, i) is None);
        assert(head[i] == events[i]);
        if i > 0 {
            assert(head[i - 1] == events[i - 1]);
        }
    }
}

/// Leaving out an event that is not the last one breaks the chain.
pub proof fn removal_is_detected(events: Seq<StoredEvent>, at: int)
    requires
        chain_holds(events),
        0 <= at < events.len() - 1,
    ensures
        !chain_holds(events.remove(at)),
{
    let cut = events.remove(at);
    assert(event_fault(events, at + 1) is None);
    assert(cut[at] == events[at + 1]);
    assert(event_fault(cut, at) is Some);
}

/// Whether two different texts have the same SHA-256 digest.
pub open spec fn collides(a: Seq<char>, b: Seq<char>) -> bool {
    a != b && sha256_digest(encode_utf8(a)) == sha256_digest(encode_utf8(b))
}

proof fn equal_hashes(a: Seq<char>, b: Seq<char>)
    requires
        hash_text(encode_utf8(a)) == hash_text(encode_utf8(b)),
    ensures
        a == b || collides(a, b),
{
    hex_text_injective(sha256_digest(encode_utf8(a)), sha256_digest(encode_utf8(b)));
}

/// An event that was altered but kept its hash passes only if the altered
/// fields spell the same text, or collide in SHA-256.
pub proof fn altered_event_needs_collision(
    events: Seq<StoredEvent>,
    altered: Seq<StoredEvent>,
    i: int,
)
    requires
        chain_holds(events),
        chain_holds(altered),
        0 <= i < events.len(),
        i < altered.len(),
        altered[i].event_hash@ == events[i].event_hash@,
    ensures
        sealed_text(altered[i]) == sealed_text(events[i]) || collides(
            sealed_text(altered[i]),
            sealed_text(events[i]),
        ),
{
    assert(event_fault(events, i) is None);
    assert(event_fault(altered, i) is None);
    equal_hashes(sealed_text(altered[i]), sealed_text(events[i]));
}

/// A payload that was altered but kept its hash passes only if its redacted
/// canonical text is the same, or collides in SHA-256.
pub proof fn altered_payload_needs_collision(
    events: Seq<StoredEvent>,
    altered: Seq<StoredEvent>,
    i: int,
)
    requires
        chain_holds(events),
        chain_holds(altered),
        0 <= i < events.len(),
        i < altered.len(),
        altered[i].payload_hash@ == events[i].payload_hash@,
    ensures
        payload_text(hashed_payload(altered[i])) == payload_text(hashed_payload(events[i]))
            || collides(
            payload_text(hashed_payload(altered[i])),
            payload_text(hashed_payload(events[i])),
        ),
{
    assert(event_fault(events, i) is None);
    assert(event_fault(altered, i) is None);
    equal_hashes(
        payload_text(hashed_payload(altered[i])),
        payload_text(hashed_payload(events[i])),
    );
}

/// A line of a replay report: what was found, and whether it is a mismatch.
pub struct ReplayLine {
    pub mismatch: bool,
    pub text: Seq<char>,
}

/// The texts of lines.
pub open spec fn line_texts(lines: Seq<ReplayLine>) -> Seq<Seq<char>> {
    lines.map_values(|l: ReplayLine| l.text)
}

/// The texts of the lines that are mismatches.
pub open spec fn mismatch_texts(lines: Seq<ReplayLine>) -> Seq<Seq<char>>
    decreases lines.len(),
{
    if lines.len() == 0 {
        Seq::empty()
    } else if lines.last().mismatch {
        mismatch_texts(lines.drop_last()).push(lines.last().text)
    } else {
        mismatch_texts(lines.drop_last())
    }
}

/// Whether no line is a mismatch.
pub open spec fn all_match(lines: Seq<ReplayLine>) -> bool {
    forall|i: int| 0 <= i < lines.len() ==> !(#[trigger] lines[i]).mismatch
}

/// The findings of a replay so far.
struct Findings {
    mismatches: Vec<String>,
    details: Vec<String>,
}

impl Findings {
    spec fn holds(&self, lines: Seq<ReplayLine>) -> bool {
        &&& texts(self.details@) == line_texts(lines)
        &&& texts(self.mismatches@) == mismatch_texts(lines)
    }

    fn new() -> (r: Self)
        ensures
            r.holds(Seq::empty()),
    {
        let r = Findings { mismatches: Vec::new(), details: Vec::new() };
        assert(texts(r.details@) =~= line_texts(Seq::empty()));
        assert(texts(r.mismatches@) =~= mismatch_texts(Seq::empty()));
        r
    }

    fn add(&mut self, mismatch: bool, text: String)
        ensures
            forall|lines: Seq<ReplayLine>| #[trigger]
                old(self).holds(lines) ==> final(self).holds(
                    lines.push(ReplayLine { mismatch, text: text@ }),
                ),
    {
        let ghost d = texts(self.details@);
        let ghost m = texts(self.mismatches@);
        if mismatch {
            self.mismatches.push(text.clone());
        }
        let ghost copy = text@;
        self.details.push(text);
        proof {
            assert(texts(self.details@) =~= d.push(copy));
            if mismatch {
                assert(texts(self.mismatches@) =~= m.push(copy));
            }
            assert forall|lines: Seq<ReplayLine>| #[trigger] old(self).holds(lines) implies self.holds(
                lines.push(ReplayLine { mismatch, text: copy }),
            ) by {
                let longer = lines.push(ReplayLine { mismatch, text: copy });
                assert(longer.drop_last() =~= lines);
                assert(line_texts(longer) =~= line_texts(lines).push(copy));
            }
        }
    }
}

/// A consensus: its outcome, the name under which the outcome is shown, and
/// its counts.
#[derive(Debug, PartialEq, Eq)]
pub struct ConsensusView {
    pub outcome: ConsensusOutcome,
    pub outcome_name: String,
    pub approved_count: usize,
    pub changes_requested_count: usize,
    pub valid_count: usize,
}

/// Whether two outcomes are the same.
pub open spec fn same_outcome(a: ConsensusOutcome, b: ConsensusOutcome) -> bool {
    match (a, b) {
        (ConsensusOutcome::Approved, ConsensusOutcome::Approved) => true,
        (ConsensusOutcome::ChangesRequested, ConsensusOutcome::ChangesRequested) => true,
        (ConsensusOutcome::Unavailable, ConsensusOutcome::Unavailable) => true,
        (ConsensusOutcome::Other(x), ConsensusOutcome::Other(y)) => x@ == y@,
        _ => false,
    }
}

fn outcomes_equal(a: &ConsensusOutcome, b: &ConsensusOutcome) -> (r: bool)
    ensures
        r == same_outcome(*a, *b),
{
    match (a, b) {
        (ConsensusOutcome::Approved, ConsensusOutcome::Approved) => true,
        (ConsensusOutcome::ChangesRequested, ConsensusOutcome::ChangesRequested) => true,
        (ConsensusOutcome::Unavailable, ConsensusOutcome::Unavailable) => true,
        (ConsensusOutcome::Other(x), ConsensusOutcome::Other(y)) => same_text(
            x.as_str(),
            y.as_str(),
        ),
        _ => false,
    }
}

/// An evaluation group to replay: the consensus recomputed from its members'
/// stored results, and the one recorded, where it can be read.
#[derive(Debug, PartialEq, Eq)]
pub struct GroupReplay {
    pub id: Uuid,
    pub recomputed: ConsensusView,
    pub recorded: Option<ConsensusView>,
}

/// A consensus as it is shown.
pub open spec fn consensus_text(c: ConsensusView) -> Seq<char> {
    c.outcome_name@ + " ("@ + decimal(c.approved_count as nat) + "/"@ + decimal(
        c.valid_count as nat,
    ) + " approved)"@
}

fn show_consensus(c: &ConsensusView) -> (r: String)
    ensures
        r@ == consensus_text(*c),
{
    c.outcome_name.clone().concat(" (").concat(show_usize(c.approved_count).as_str()).concat(
        "/",
    ).concat(show_usize(c.valid_count).as_str()).concat(" approved)")
}

/// Whether two consensuses agree in outcome, approvals and change requests.
pub open spec fn consensus_agrees(a: ConsensusView, b: ConsensusView) -> bool {
    &&& same_outcome(a.outcome, b.outcome)
    &&& a.approved_count == b.approved_count
    &&& a.changes_requested_count == b.changes_requested_count
}

/// The line of an evaluation group; a group without a recorded consensus has
/// none.
pub open spec fn group_lines(group: GroupReplay) -> Seq<ReplayLine> {
    match group.recorded {
        Some(recorded) => if consensus_agrees(group.recomputed, recorded) {
            seq![
                ReplayLine {
                    mismatch: false,
                    text: "Consensus verified for group "@ + id_text(group.id.bits) + ": "@
                        + consensus_text(group.recomputed),
                },
            ]
        } else {
            seq![
                ReplayLine {
                    mismatch: true,
                    text: "Consensus mismatch for group "@ + id_text(group.id.bits)
                        + ": recomputed "@ + consensus_text(group.recomputed) + " != recorded "@
                        + consensus_text(recorded),
                },
            ]
        },
        None => Seq::empty(),
    }
}

/// The lines of the evaluation groups, in order.
pub open spec fn consensus_lines(groups: Seq<GroupReplay>) -> Seq<ReplayLine>
    decreases groups.len(),
{
    if groups.len() == 0 {
        Seq::empty()
    } else {
        consensus_lines(groups.drop_last()) + group_lines(groups.last())
    }
}

/// The evaluation of a candidate: the recorded consensus, where it can be
/// read, and how many issues each evaluator raised.
#[derive(Debug, PartialEq, Eq)]
pub struct CandidateEvaluation {
    pub consensus: Option<ConsensusView>,
    pub issue_counts: Vec<usize>,
}

/// A candidate to replay.
#[derive(Debug, PartialEq, Eq)]
pub struct CandidateReplay {
    pub candidate_id: String,
    pub agent_id: String,
    /// Its evaluation, where it has one.
    pub evaluation: Option<CandidateEvaluation>,
}

/// A competition to replay, with the winner that was persisted.
#[derive(Debug, PartialEq, Eq)]
pub struct CompetitionReplay {
    pub winner_candidate_id: Option<String>,
    pub winner_workspace_id: Option<Uuid>,
    pub candidates: Vec<CandidateReplay>,
}

/// The sum of a list of counts.
pub open spec fn sum(counts: Seq<usize>) -> nat
    decreases counts.len(),
{
    if counts.len() == 0 {
        0
    } else {
        sum(counts.drop_last()) + counts.last() as nat
    }
}

/// How many issues the evaluators of a candidate raised.
pub open spec fn issues_of(candidate: CandidateReplay) -> nat {
    match candidate.evaluation {
        Some(e) => sum(e.issue_counts@),
        None => 0,
    }
}

/// Whether an entry ranks a candidate by its recorded consensus and the
/// issues its evaluators raised.
pub open spec fn is_ranking_of(entry: CandidateRankingEntry, candidate: CandidateReplay) -> bool {
    let consensus = match candidate.evaluation {
        Some(e) => e.consensus,
        None => None,
    };
    &&& entry.candidate_id == candidate.candidate_id
    &&& entry.agent_id == candidate.agent_id
    &&& entry.is_approved == (consensus matches Some(c) && c.outcome is Approved)
    &&& entry.approved_count == (match consensus {
        Some(c) => c.approved_count as int,
        None => 0,
    })
    &&& entry.valid_count == (match consensus {
        Some(c) => c.valid_count as int,
        None => 0,
    })
    &&& entry.issue_count == issues_of(candidate)
}

/// The sum of counts adds each of them once.
pub proof fn sum_adds_each(a: Seq<usize>, n: usize, b: Seq<usize>)
    ensures
        sum(Seq::empty()) == 0,
        sum(seq![n]) == n,
        sum(a + b) == sum(a) + sum(b),
    decreases b.len(),
{
    let one = seq![n];
    assert(one.drop_last() =~= Seq::<usize>::empty());
    assert(one.last() == n);
    assert(sum(one.drop_last()) == 0);
    assert(sum(one) == sum(one.drop_last()) + one.last());
    if b.len() == 0 {
        assert(a + b =~= a);
    } else {
        assert((a + b).drop_last() =~= a + b.drop_last());
        sum_adds_each(a, n, b.drop_last());
    }
}

proof fn sum_monotonic(counts: Seq<usize>, n: int)
    requires
        0 <= n <= counts.len(),
    ensures
        sum(counts.take(n)) <= sum(counts),
    decreases counts.len() - n,
{
    if n < counts.len() {
        assert(counts.take(n + 1).drop_last() =~= counts.take(n));
        sum_monotonic(counts, n + 1);
    } else {
        assert(counts.take(n) =~= counts);
    }
}

fn ranking_entry(candidate: &CandidateReplay) -> (r: CandidateRankingEntry)
    requires
        issues_of(*candidate) <= usize::MAX,
    ensures
        is_ranking_of(r, *candidate),
{
    let mut is_approved = false;
    let mut approved_count: usize = 0;
    let mut valid_count: usize = 0;
    let mut issue_count: usize = 0;
    if let Some(e) = &candidate.evaluation {
        if let Some(c) = &e.consensus {
            is_approved = matches!(c.outcome, ConsensusOutcome::Approved);
            approved_count = c.approved_count;
            valid_count = c.valid_count;
        }
        let mut i: usize = 0;
        while i < e.issue_counts.len()
            invariant
                i <= e.issue_counts@.len(),
                issue_count == sum(e.issue_counts@.take(i as int)),
                sum(e.issue_counts@) <= usize::MAX,
            decreases e.issue_counts.len() - i,
        {
            proof {
                assert(e.issue_counts@.take(i + 1).drop_last() =~= e.issue_counts@.take(i as int));
                assert(e.issue_counts@.take(i + 1).last() == e.issue_counts@[i as int]);
                sum_monotonic(e.issue_counts@, i + 1);
            }
            issue_count += e.issue_counts[i];
            i += 1;
        }
        assert(e.issue_counts@.take(i as int) =~= e.issue_counts@);
    }
    CandidateRankingEntry {
        candidate_id: candidate.candidate_id.clone(),
        agent_id: candidate.agent_id.clone(),
        is_approved,
        approved_count,
        valid_count,
        issue_count,
    }
}

/// Whether a candidate is the winner that the candidates rank to: first in a
/// ranking of their entries; none when no candidate is approved.
pub open spec fn is_recomputed_winner(winner: Option<Seq<char>>, candidates: Seq<CandidateReplay>) -> bool {
    exists|entries: Seq<CandidateRankingEntry>, ranking: Seq<CandidateRankingEntry>|
        {
            &&& #[trigger] entries_of(entries, candidates)
            &&& #[trigger] ranked(ranking)
            &&& ranking.to_multiset() == approved(entries).to_multiset()
            &&& winner == (if ranking.len() == 0 {
                None
            } else {
                Some(ranking[0].candidate_id@)
            })
        }
}

/// Whether these are the ranking entries of candidates, one each.
pub open spec fn entries_of(
    entries: Seq<CandidateRankingEntry>,
    candidates: Seq<CandidateReplay>,
) -> bool {
    &&& entries.len() == candidates.len()
    &&& forall|i: int|
        0 <= i < entries.len() ==> is_ranking_of(#[trigger] entries[i], candidates[i])
}

/// The winner that the candidates of a competition rank to.
pub fn recompute_winner(candidates: &Vec<CandidateReplay>) -> (r: Option<String>)
    requires
        forall|i: int|
            0 <= i < candidates@.len() ==> issues_of(#[trigger] candidates@[i]) <= usize::MAX,
    ensures
        is_recomputed_winner(opt_text(r), candidates@),
        r is None <==> forall|i: int|
            0 <= i < candidates@.len() ==> !((#[trigger] candidates@[i]).evaluation matches Some(e)
                && e.consensus matches Some(c) && c.outcome is Approved),
        r matches Some(id) ==> exists|i: int|
            0 <= i < candidates@.len() && (#[trigger] candidates@[i]).candidate_id@ == id@
                && candidates@[i].evaluation is Some
                && candidates@[i].evaluation->0.consensus is Some
                && candidates@[i].evaluation->0.consensus->0.outcome is Approved,
{
    let mut entries: Vec<CandidateRankingEntry> = Vec::new();
    let mut i: usize = 0;
    while i < candidates.len()
        invariant
            i <= candidates@.len(),
            entries@.len() == i,
            forall|k: int|
                0 <= k < candidates@.len() ==> issues_of(#[trigger] candidates@[k]) <= usize::MAX,
            forall|k: int| 0 <= k < i ==> is_ranking_of(#[trigger] entries@[k], candidates@[k]),
        decreases candidates.len() - i,
    {
        entries.push(ranking_entry(&candidates[i]));
        i += 1;
    }
    let ranking = rank_candidates(entries.as_slice());
    assert(entries_of(entries@, candidates@));
    assert(ranked(ranking@));
    let r = if ranking.len() == 0 {
        None
    } else {
        Some(ranking[0].candidate_id.clone())
    };
    proof {
        winner_is_the_best_approved_candidate(opt_text(r), candidates@);
    }
    r
}

/// The winner of a competition is an approved candidate, and there is one
/// exactly when some candidate was approved: one whose recorded consensus has
/// that outcome. No approved candidate has more approvals; none with as many
/// approvals has more valid votes; none with as many of both has fewer issues.
#[verifier::rlimit(40)]
pub proof fn winner_is_the_best_approved_candidate(
    winner: Option<Seq<char>>,
    candidates: Seq<CandidateReplay>,
)
    requires
        is_recomputed_winner(winner, candidates),
    ensures
        winner is None <==> forall|i: int|
            0 <= i < candidates.len() ==> !((#[trigger] candidates[i]).evaluation matches Some(e)
                && e.consensus matches Some(c) && c.outcome is Approved),
        winner matches Some(id) ==> exists|i: int|
            {
                &&& 0 <= i < candidates.len()
                &&& (#[trigger] candidates[i]).candidate_id@ == id
                &&& candidates[i].evaluation is Some
                &&& candidates[i].evaluation->0.consensus is Some
                &&& candidates[i].evaluation->0.consensus->0.outcome is Approved
                &&& forall|j: int|
                    0 <= j < candidates.len() ==> ((#[trigger] candidates[j]).evaluation matches Some(
                        e,
                    ) && e.consensus matches Some(c) && c.outcome is Approved ==> {
                        let mine = candidates[i].evaluation->0;
                        let best = mine.consensus->0;
                        let rival = candidates[j].evaluation->0;
                        let other = rival.consensus->0;
                        &&& best.approved_count >= other.approved_count
                        &&& best.approved_count == other.approved_count ==> best.valid_count
                            >= other.valid_count
                        &&& best.approved_count == other.approved_count && best.valid_count
                            == other.valid_count ==> sum(mine.issue_counts@) <= sum(
                            rival.issue_counts@,
                        )
                    })
            },
{
    let (entries, ranking) = choose|e: Seq<CandidateRankingEntry>, r: Seq<CandidateRankingEntry>|
        {
            &&& #[trigger] entries_of(e, candidates)
            &&& #[trigger] ranked(r)
            &&& r.to_multiset() == approved(e).to_multiset()
            &&& winner == (if r.len() == 0 {
                None
            } else {
                Some(r[0].candidate_id@)
            })
        };
    ranking_holds_the_approved(entries, ranking);
    assert forall|i: int| 0 <= i < candidates.len() implies entries[i].is_approved == ((
    #[trigger] candidates[i]).evaluation matches Some(e) && e.consensus matches Some(c)
        && c.outcome is Approved) by {
        assert(is_ranking_of(entries[i], candidates[i]));
    }
    if ranking.len() > 0 {
        assert(ranking.contains(ranking[0]));
        let i = choose|i: int| 0 <= i < entries.len() && entries[i] == ranking[0];
        assert(is_ranking_of(entries[i], candidates[i]));
        assert(candidates[i].candidate_id@ == ranking[0].candidate_id@);
        assert forall|j: int| 0 <= j < candidates.len() implies ((
        #[trigger] candidates[j]).evaluation matches Some(e) && e.consensus matches Some(c)
            && c.outcome is Approved ==> {
            let mine = candidates[i].evaluation->0;
            let best = mine.consensus->0;
            let rival = candidates[j].evaluation->0;
            let other = rival.consensus->0;
            &&& best.approved_count >= other.approved_count
            &&& best.approved_count == other.approved_count ==> best.valid_count
                >= other.valid_count
            &&& best.approved_count == other.approved_count && best.valid_count
                == other.valid_count ==> sum(mine.issue_counts@) <= sum(rival.issue_counts@)
        }) by {
            assert(is_ranking_of(entries[j], candidates[j]));
            if entries[j].is_approved {
                assert(entries.contains(entries[j]));
                assert(ranking.contains(entries[j]));
                let k = choose|k: int| 0 <= k < ranking.len() && ranking[k] == entries[j];
                if k > 0 {
                    assert(!ranks_before(ranking[k], ranking[0]));
                }
            }
        }
    } else {
        assert forall|i: int| 0 <= i < candidates.len() implies !((
        #[trigger] candidates[i]).evaluation matches Some(e) && e.consensus matches Some(c)
            && c.outcome is Approved) by {
            if entries[i].is_approved {
                assert(entries.contains(entries[i]));
                assert(ranking.contains(entries[i]));
            }
        }
    }
}

/// The winner that candidates rank to is unique.
pub proof fn recomputed_winner_is_unique(
    a: Option<Seq<char>>,
    b: Option<Seq<char>>,
    candidates: Seq<CandidateReplay>,
)
    requires
        is_recomputed_winner(a, candidates),
        is_recomputed_winner(b, candidates),
    ensures
        a == b,
{
    let (e, r) = choose|e: Seq<CandidateRankingEntry>, r: Seq<CandidateRankingEntry>|
        {
            &&& #[trigger] entries_of(e, candidates)
            &&& #[trigger] ranked(r)
            &&& r.to_multiset() == approved(e).to_multiset()
            &&& a == (if r.len() == 0 {
                None
            } else {
                Some(r[0].candidate_id@)
            })
        };
    let (f, s) = choose|f: Seq<CandidateRankingEntry>, s: Seq<CandidateRankingEntry>|
        {
            &&& #[trigger] entries_of(f, candidates)
            &&& #[trigger] ranked(s)
            &&& s.to_multiset() == approved(f).to_multiset()
            &&& b == (if s.len() == 0 {
                None
            } else {
                Some(s[0].candidate_id@)
            })
        };
    assert forall|i: int| 0 <= i < e.len() implies e[i] == f[i] by {
        assert(is_ranking_of(e[i], candidates[i]));
        assert(is_ranking_of(f[i], candidates[i]));
    }
    assert(e =~= f);
    r.to_multiset_ensures();
    s.to_multiset_ensures();
    assert(r.len() == r.to_multiset().len());
    assert(s.len() == s.to_multiset().len());
    if r.len() > 0 {
        assert(r.contains(r[0]));
        assert(s.contains(s[0]));
        assert(s.to_multiset().count(r[0]) > 0);
        assert(r.to_multiset().count(s[0]) > 0);
        assert(s.contains(r[0]));
        assert(r.contains(s[0]));
        let i = choose|i: int| 0 <= i < s.len() && s[i] == r[0];
        let j = choose|j: int| 0 <= j < r.len() && r[j] == s[0];
        if r[0].candidate_id@ != s[0].candidate_id@ {
            different_ids_never_tie(r[0], s[0]);
            assert(i > 0);
            assert(j > 0);
            assert(!ranks_before(s[i], s[0]));
            assert(!ranks_before(r[j], r[0]));
        }
    }
}

/// The first event of a type.
pub open spec fn first_of_type(events: Seq<StoredEvent>, event_type: Seq<char>) -> Option<
    StoredEvent,
>
    decreases events.len(),
{
    if events.len() == 0 {
        None
    } else if events[0].event_type@ == event_type {
        Some(events[0])
    } else {
        first_of_type(events.drop_first(), event_type)
    }
}

fn find_event<'a>(events: &'a [StoredEvent], event_type: &str) -> (r: Option<&'a StoredEvent>)
    ensures
        match r {
            Some(e) => first_of_type(events@, event_type@) == Some(*e),
            None => first_of_type(events@, event_type@) is None,
        },
{
    let mut i: usize = 0;
    assert(events@.skip(0) =~= events@);
    while i < events.len()
        invariant
            i <= events@.len(),
            first_of_type(events@, event_type@) == first_of_type(
                events@.skip(i as int),
                event_type@,
            ),
        decreases events.len() - i,
    {
        assert(events@.skip(i as int).drop_first() =~= events@.skip(i + 1));
        if same_text(events[i].event_type.as_str(), event_type) {
            return Some(&events[i]);
        }
        i += 1;
    }
    None
}

/// The winner that an event's payload names, where it names one.
pub open spec fn payload_winner(event: StoredEvent) -> Option<Seq<char>> {
    match parsed_json(event.payload_json@) {
        Some(value) => match value {
            Json::Object(entries) => match lookup(entries, "winner_candidate_id"@) {
                Some(Json::Text(text)) => Some(text),
                _ => None,
            },
            _ => None,
        },
        None => None,
    }
}

fn winner_in_payload(event: &StoredEvent) -> (r: Option<String>)
    ensures
        opt_text(r) == payload_winner(*event),
{
    match parse_json(event.payload_json.as_str()) {
        Some(value) => match value.get("winner_candidate_id") {
            Some(v) => match v.as_str() {
                Some(text) => Some(text.to_owned()),
                None => None,
            },
            None => None,
        },
        None => None,
    }
}

/// The lines of a competition: whether the persisted winner is the one that
/// the candidates rank to, and whether the recorded event names the same.
pub open spec fn selection_lines(
    recomputed: Option<Seq<char>>,
    persisted: Option<Seq<char>>,
    event: Option<StoredEvent>,
) -> Seq<ReplayLine> {
    (if persisted != recomputed {
        seq![
            ReplayLine {
                mismatch: true,
                text: "Winner selection mismatch: recomputed "@ + debug_opt(recomputed)
                    + " != persisted "@ + debug_opt(persisted),
            },
        ]
    } else {
        seq![
            ReplayLine {
                mismatch: false,
                text: "Winner selection verified: winner = "@ + debug_opt(recomputed),
            },
        ]
    }) + (match event {
        Some(e) => if payload_winner(e) != persisted {
            seq![
                ReplayLine {
                    mismatch: true,
                    text: "Winner provenance mismatch: event payload winner "@ + debug_opt(
                        payload_winner(e),
                    ) + " != persisted "@ + debug_opt(persisted),
                },
            ]
        } else {
            Seq::empty()
        },
        None => Seq::empty(),
    })
}

/// An apply to replay.
#[derive(Clone, Copy, Debug, PartialEq, Eq, Structural)]
pub struct ApplyReplay {
    pub id: Uuid,
    pub workspace_id: Uuid,
}

/// The line of an apply: it must take the winner's workspace.
pub open spec fn apply_line(apply: ApplyReplay, winner: Uuid) -> ReplayLine {
    if apply.workspace_id != winner {
        ReplayLine {
            mismatch: true,
            text: "Apply source mismatch for apply "@ + id_text(apply.id.bits)
                + ": apply workspace "@ + id_text(apply.workspace_id.bits)
                + " != winner workspace "@ + id_text(winner.bits),
        }
    } else {
        ReplayLine {
            mismatch: false,
            text: "Apply source verified for apply "@ + id_text(apply.id.bits)
                + ": correctly used winner workspace "@ + id_text(winner.bits),
        }
    }
}

/// The lines of the applies of a workflow with this winner workspace.
pub open spec fn apply_lines(applies: Seq<ApplyReplay>, winner: Option<Uuid>) -> Seq<ReplayLine> {
    match winner {
        Some(w) => applies.map_values(|a: ApplyReplay| apply_line(a, w)),
        None => Seq::empty(),
    }
}

/// Whether an event records the policy that a workflow runs under.
pub open spec fn records_policy(event: StoredEvent) -> bool {
    (event.event_type@ == "WorkflowStarted"@ || event.event_type@ == "PlanExecuted"@)
        && event.policy is Some
}

/// The line of a policy: the workflow may have twenty events per allowed
/// node.
pub open spec fn policy_line(policy: PolicySnapshot, total: nat) -> ReplayLine {
    if policy.max_nodes > 0 && total > policy.max_nodes * 20 {
        ReplayLine {
            mismatch: true,
            text: "Policy budget violation: total events "@ + decimal(total)
                + " exceeded policy max nodes "@ + decimal(policy.max_nodes as nat),
        }
    } else {
        ReplayLine {
            mismatch: false,
            text: "Policy snapshot verified: max_nodes="@ + decimal(policy.max_nodes as nat)
                + ", max_parallel="@ + decimal(policy.max_parallel as nat)
                + ", max_agent_calls="@ + decimal(policy.max_agent_calls as nat),
        }
    }
}

/// The lines of the recorded policies, in order.
pub open spec fn policy_lines(events: Seq<StoredEvent>, total: nat) -> Seq<ReplayLine>
    decreases events.len(),
{
    if events.len() == 0 {
        Seq::empty()
    } else if records_policy(events.last()) {
        policy_lines(events.drop_last(), total).push(policy_line(events.last().policy->0, total))
    } else {
        policy_lines(events.drop_last(), total)
    }
}

proof fn all_match_push(lines: Seq<ReplayLine>, line: ReplayLine)
    ensures
        all_match(lines.push(line)) == (all_match(lines) && !line.mismatch),
{
    let longer = lines.push(line);
    if all_match(longer) {
        assert forall|i: int| 0 <= i < lines.len() implies !(#[trigger] lines[i]).mismatch by {
            assert(longer[i] == lines[i]);
        }
        assert(longer[lines.len() as int] == line);
    }
}

fn replay_groups(findings: &mut Findings, groups: &[GroupReplay], Ghost(base): Ghost<
    Seq<ReplayLine>,
>) -> (passed: bool)
    requires
        old(findings).holds(base),
    ensures
        final(findings).holds(base + consensus_lines(groups@)),
        passed == all_match(consensus_lines(groups@)),
{
    let mut passed = true;
    let mut i: usize = 0;
    assert(base + consensus_lines(groups@.take(0)) =~= base);
    while i < groups.len()
        invariant
            i <= groups@.len(),
            findings.holds(base + consensus_lines(groups@.take(i as int))),
            passed == all_match(consensus_lines(groups@.take(i as int))),
        decreases groups.len() - i,
    {
        let group = &groups[i];
        let ghost done = consensus_lines(groups@.take(i as int));
        proof {
            assert(groups@.take(i + 1).drop_last() =~= groups@.take(i as int));
            assert(groups@.take(i + 1).last() == *group);
        }
        match &group.recorded {
            Some(recorded) => {
                let agrees = outcomes_equal(&group.recomputed.outcome, &recorded.outcome)
                    && group.recomputed.approved_count == recorded.approved_count
                    && group.recomputed.changes_requested_count
                    == recorded.changes_requested_count;
                let text = if agrees {
                    "Consensus verified for group ".to_owned().concat(
                        group.id.to_text().as_str(),
                    ).concat(": ").concat(show_consensus(&group.recomputed).as_str())
                } else {
                    "Consensus mismatch for group ".to_owned().concat(
                        group.id.to_text().as_str(),
                    ).concat(": recomputed ").concat(
                        show_consensus(&group.recomputed).as_str(),
                    ).concat(" != recorded ").concat(show_consensus(recorded).as_str())
                };
                let ghost l = ReplayLine { mismatch: !agrees, text: text@ };
                findings.add(!agrees, text);
                proof {
                    assert(group_lines(*group) =~= seq![l]);
                    assert(done + group_lines(*group) =~= done.push(l));
                    assert((base + done).push(l) =~= base + done.push(l));
                    all_match_push(done, l);
                }
                passed = passed && agrees;
            },
            None => {
                assert(done + group_lines(*group) =~= done);
            },
        }
        i += 1;
    }
    assert(groups@.take(i as int) =~= groups@);
    passed
}

fn replay_selection(
    findings: &mut Findings,
    recomputed: &Option<String>,
    persisted: &Option<String>,
    event: Option<&StoredEvent>,
    Ghost(base): Ghost<Seq<ReplayLine>>,
) -> (passed: bool)
    requires
        old(findings).holds(base),
    ensures
        ({
            let lines = selection_lines(
                opt_text(*recomputed),
                opt_text(*persisted),
                match event {
                    Some(e) => Some(*e),
                    None => None,
                },
            );
            &&& final(findings).holds(base + lines)
            &&& passed == all_match(lines)
        }),
{
    let ghost whole = selection_lines(
        opt_text(*recomputed),
        opt_text(*persisted),
        match event {
            Some(e) => Some(*e),
            None => None,
        },
    );
    let same = same_opt(persisted, recomputed);
    let text = if same {
        "Winner selection verified: winner = ".to_owned().concat(show_debug(recomputed).as_str())
    } else {
        "Winner selection mismatch: recomputed ".to_owned().concat(
            show_debug(recomputed).as_str(),
        ).concat(" != persisted ").concat(show_debug(persisted).as_str())
    };
    let ghost first = ReplayLine { mismatch: !same, text: text@ };
    findings.add(!same, text);
    let mut passed = same;
    let ghost one = seq![first];
    proof {
        assert(base.push(first) =~= base + one);
        all_match_push(Seq::empty(), first);
        assert(Seq::<ReplayLine>::empty().push(first) =~= one);
    }
    if let Some(event) = event {
        let named = winner_in_payload(event);
        if !same_opt(&named, persisted) {
            let text = "Winner provenance mismatch: event payload winner ".to_owned().concat(
                show_debug(&named).as_str(),
            ).concat(" != persisted ").concat(show_debug(persisted).as_str());
            let ghost second = ReplayLine { mismatch: true, text: text@ };
            findings.add(true, text);
            passed = false;
            proof {
                assert((base + one).push(second) =~= base + one.push(second));
                all_match_push(one, second);
                assert(whole =~= one.push(second));
            }
        } else {
            assert(whole =~= one);
        }
    } else {
        assert(whole =~= one);
    }
    passed
}

fn replay_applies(
    findings: &mut Findings,
    applies: &[ApplyReplay],
    winner: Option<Uuid>,
    Ghost(base): Ghost<Seq<ReplayLine>>,
) -> (passed: bool)
    requires
        old(findings).holds(base),
    ensures
        final(findings).holds(base + apply_lines(applies@, winner)),
        passed == all_match(apply_lines(applies@, winner)),
{
    let mut passed = true;
    match winner {
        None => {
            assert(base + apply_lines(applies@, winner) =~= base);
        },
        Some(w) => {
            let mut i: usize = 0;
            assert(base + apply_lines(applies@.take(0), winner) =~= base);
            while i < applies.len()
                invariant
                    i <= applies@.len(),
                    winner == Some(w),
                    findings.holds(base + apply_lines(applies@.take(i as int), winner)),
                    passed == all_match(apply_lines(applies@.take(i as int), winner)),
                decreases applies.len() - i,
            {
                let apply = &applies[i];
                let ghost done = apply_lines(applies@.take(i as int), winner);
                let bad = apply.workspace_id != w;
                let text = if bad {
                    "Apply source mismatch for apply ".to_owned().concat(
                        apply.id.to_text().as_str(),
                    ).concat(": apply workspace ").concat(
                        apply.workspace_id.to_text().as_str(),
                    ).concat(" != winner workspace ").concat(w.to_text().as_str())
                } else {
                    "Apply source verified for apply ".to_owned().concat(
                        apply.id.to_text().as_str(),
                    ).concat(": correctly used winner workspace ").concat(w.to_text().as_str())
                };
                let ghost l = apply_line(*apply, w);
                assert(l == ReplayLine { mismatch: bad, text: text@ });
                findings.add(bad, text);
                proof {
                    assert(apply_lines(applies@.take(i + 1), winner) =~= done.push(l));
                    assert((base + done).push(l) =~= base + done.push(l));
                    all_match_push(done, l);
                }
                passed = passed && !bad;
                i += 1;
            }
            assert(applies@.take(i as int) =~= applies@);
        },
    }
    passed
}

fn replay_policies(findings: &mut Findings, events: &[StoredEvent], Ghost(base): Ghost<
    Seq<ReplayLine>,
>) -> (passed: bool)
    requires
        old(findings).holds(base),
    ensures
        final(findings).holds(base + policy_lines(events@, events@.len())),
        passed == all_match(policy_lines(events@, events@.len())),
{
    let mut passed = true;
    let total: usize = events.len();
    let mut i: usize = 0;
    assert(base + policy_lines(events@.take(0), total as nat) =~= base);
    while i < total
        invariant
            i <= total == events@.len(),
            findings.holds(base + policy_lines(events@.take(i as int), total as nat)),
            passed == all_match(policy_lines(events@.take(i as int), total as nat)),
        decreases total - i,
    {
        let event = &events[i];
        let ghost done = policy_lines(events@.take(i as int), total as nat);
        proof {
            assert(events@.take(i + 1).drop_last() =~= events@.take(i as int));
            assert(events@.take(i + 1).last() == *event);
        }
        let of_type = same_text(event.event_type.as_str(), "WorkflowStarted") || same_text(
            event.event_type.as_str(),
            "PlanExecuted",
        );
        if of_type {
            if let Some(policy) = event.policy {
                let bad = policy.max_nodes > 0 && (total as u128) > (policy.max_nodes as u128) * 20;
                let text = if bad {
                    "Policy budget violation: total events ".to_owned().concat(
                        show_usize(total).as_str(),
                    ).concat(" exceeded policy max nodes ").concat(
                        show_usize(policy.max_nodes).as_str(),
                    )
                } else {
                    "Policy snapshot verified: max_nodes=".to_owned().concat(
                        show_usize(policy.max_nodes).as_str(),
                    ).concat(", max_parallel=").concat(
                        show_usize(policy.max_parallel).as_str(),
                    ).concat(", max_agent_calls=").concat(
                        show_usize(policy.max_agent_calls).as_str(),
                    )
                };
                let ghost l = policy_line(policy, total as nat);
                assert(l == ReplayLine { mismatch: bad, text: text@ });
                findings.add(bad, text);
                proof {
                    assert((base + done).push(l) =~= base + done.push(l));
                    all_match_push(done, l);
                }
                passed = passed && !bad;
            }
        }
        i += 1;
    }
    assert(events@.take(i as int) =~= events@);
    passed
}

/// All lines of the replay of a workflow whose chain holds: consensus,
/// selection, applies and policies. `winner` is the recomputed winner.
pub open spec fn replay_lines(
    events: Seq<StoredEvent>,
    groups: Seq<GroupReplay>,
    competition: Option<&CompetitionReplay>,
    applies: Seq<ApplyReplay>,
    winner: Option<Seq<char>>,
) -> (Seq<ReplayLine>, Seq<ReplayLine>, Seq<ReplayLine>, Seq<ReplayLine>) {
    (
        consensus_lines(groups),
        match competition {
            Some(c) => selection_lines(
                winner,
                opt_text(c.winner_candidate_id),
                first_of_type(events, "WinnerSelected"@),
            ),
            None => Seq::empty(),
        },
        apply_lines(
            applies,
            match competition {
                Some(c) => c.winner_workspace_id,
                None => None,
            },
        ),
        policy_lines(events, events.len()),
    )
}

/// Whether a report says what was found: each part passed when none of its
/// lines is a mismatch, the whole when every part passed.
pub open spec fn reports(
    report: ReplayReport,
    lines: (Seq<ReplayLine>, Seq<ReplayLine>, Seq<ReplayLine>, Seq<ReplayLine>),
) -> bool {
    let all = lines.0 + lines.1 + lines.2 + lines.3;
    &&& report.integrity_passed
    &&& !report.is_legacy
    &&& report.consensus_passed == all_match(lines.0)
    &&& report.selection_passed == all_match(lines.1)
    &&& report.apply_passed == all_match(lines.2)
    &&& report.policy_passed == all_match(lines.3)
    &&& report.passed == (report.consensus_passed && report.selection_passed && report.apply_passed
        && report.policy_passed)
    &&& texts(report.details@) == line_texts(all)
    &&& texts(report.mismatches@) == mismatch_texts(all)
}

/// Replays all deterministic decisions of a workflow (consensus, selection,
/// apply source, policy) and compares them with what was recorded, under a
/// report on its chain. A chain that does not hold fails the replay; an old
/// workflow without events has nothing to replay.
pub fn replay_decisions(
    integrity: IntegrityReport,
    events: &[StoredEvent],
    groups: &[GroupReplay],
    competition: Option<&CompetitionReplay>,
    applies: &[ApplyReplay],
) -> (r: ReplayReport)
    requires
        competition matches Some(c) ==> forall|i: int|
            0 <= i < c.candidates@.len() ==> issues_of(#[trigger] c.candidates@[i]) <= usize::MAX,
    ensures
        r.workflow_id == integrity.workflow_id,
        !integrity.valid ==> {
            &&& !r.passed && !r.integrity_passed && !r.consensus_passed && !r.selection_passed
                && !r.apply_passed && !r.policy_passed
            &&& r.is_legacy == integrity.is_legacy
            &&& texts(r.mismatches@) == seq!["Integrity verification failed"@]
            &&& r.details == integrity.details
        },
        integrity.valid && integrity.is_legacy ==> {
            &&& r.passed && r.integrity_passed && r.consensus_passed && r.selection_passed
                && r.apply_passed && r.policy_passed && r.is_legacy
            &&& r.mismatches@.len() == 0
            &&& texts(r.details@) == seq!["Legacy workflow: deterministic replay skipped"@]
        },
        integrity.valid && !integrity.is_legacy ==> exists|winner: Option<Seq<char>>|
            {
                &&& competition matches Some(c) ==> is_recomputed_winner(winner, c.candidates@)
                &&& reports(
                    r,
                    #[trigger] replay_lines(
                        events@,
                        groups@,
                        competition,
                        applies@,
                        winner,
                    ),
                )
            },
{
    let workflow_id = integrity.workflow_id;
    if !integrity.valid {
        return ReplayReport {
            workflow_id,
            passed: false,
            is_legacy: integrity.is_legacy,
            integrity_passed: false,
            consensus_passed: false,
            selection_passed: false,
            apply_passed: false,
            policy_passed: false,
            mismatches: line("Integrity verification failed".to_owned()),
            details: integrity.details,
        };
    }
    if integrity.is_legacy {
        return ReplayReport {
            workflow_id,
            passed: true,
            is_legacy: true,
            integrity_passed: true,
            consensus_passed: true,
            selection_passed: true,
            apply_passed: true,
            policy_passed: true,
            mismatches: Vec::new(),
            details: line("Legacy workflow: deterministic replay skipped".to_owned()),
        };
    }
    let mut findings = Findings::new();
    let ghost none = Seq::<ReplayLine>::empty();
    let consensus_passed = replay_groups(&mut findings, groups, Ghost(none));
    let ghost a = consensus_lines(groups@);
    assert(none + a =~= a);
    let mut selection_passed = true;
    let mut winner_workspace: Option<Uuid> = None;
    let ghost mut winner: Option<Seq<char>> = None;
    let ghost mut b = Seq::<ReplayLine>::empty();
    assert(a + b =~= a);
    if let Some(c) = competition {
        let recomputed = recompute_winner(&c.candidates);
        let event = find_event(events, "WinnerSelected");
        selection_passed = replay_selection(
            &mut findings,
            &recomputed,
            &c.winner_candidate_id,
            event,
            Ghost(a),
        );
        winner_workspace = c.winner_workspace_id;
        proof {
            winner = opt_text(recomputed);
            b = selection_lines(
                winner,
                opt_text(c.winner_candidate_id),
                first_of_type(events@, "WinnerSelected"@),
            );
        }
    }
    let apply_passed = replay_applies(&mut findings, applies, winner_workspace, Ghost(a + b));
    let ghost d = apply_lines(applies@, winner_workspace);
    let policy_passed = replay_policies(&mut findings, events, Ghost(a + b + d));
    let passed = consensus_passed && selection_passed && apply_passed && policy_passed;
    let report = ReplayReport {
        workflow_id,
        passed,
        is_legacy: false,
        integrity_passed: true,
        consensus_passed,
        selection_passed,
        apply_passed,
        policy_passed,
        mismatches: findings.mismatches,
        details: findings.details,
    };
    assert(reports(
        report,
        replay_lines(
            events@,
            groups@,
            competition,
            applies@,
            winner,
        ),
    ));
    report
}

/// Whether no part of a replay passed.
pub open spec fn nothing_passed(r: ReplayReport) -> bool {
    !r.passed && !r.integrity_passed && !r.consensus_passed && !r.selection_passed
        && !r.apply_passed && !r.policy_passed
}

/// Replays a workflow from its events: the chain of these events is verified
/// first, and the decisions are replayed only where it holds.
pub fn replay_workflow(
    workflow_id: Uuid,
    events: &[StoredEvent],
    exists_in_storage: bool,
    groups: &[GroupReplay],
    competition: Option<&CompetitionReplay>,
    applies: &[ApplyReplay],
) -> (r: ReplayReport)
    requires
        events@.len() < i64::MAX,
        competition matches Some(c) ==> forall|i: int|
            0 <= i < c.candidates@.len() ==> issues_of(#[trigger] c.candidates@[i]) <= usize::MAX,
    ensures
        r.workflow_id == workflow_id,
        events@.len() == 0 && !exists_in_storage ==> {
            &&& nothing_passed(r) && !r.is_legacy
            &&& texts(r.mismatches@) == seq!["Integrity verification failed"@]
            &&& texts(r.details@) == seq!["Workflow not found"@]
        },
        events@.len() == 0 && exists_in_storage ==> {
            &&& r.passed && r.integrity_passed && r.consensus_passed && r.selection_passed
                && r.apply_passed && r.policy_passed && r.is_legacy
            &&& r.mismatches@.len() == 0
            &&& texts(r.details@) == seq!["Legacy workflow: deterministic replay skipped"@]
        },
        events@.len() > 0 && !chain_holds(events@) ==> {
            &&& nothing_passed(r) && !r.is_legacy
            &&& texts(r.mismatches@) == seq!["Integrity verification failed"@]
            &&& exists|i: int| #[trigger]
                first_broken(events@, i) && texts(r.details@) == seq![event_fault(events@, i)->0]
        },
        events@.len() > 0 && chain_holds(events@) ==> exists|winner: Option<Seq<char>>|
            {
                &&& competition matches Some(c) ==> is_recomputed_winner(winner, c.candidates@)
                &&& reports(
                    r,
                    #[trigger] replay_lines(events@, groups@, competition, applies@, winner),
                )
            },
{
    let integrity = verify_integrity(workflow_id, events, exists_in_storage);
    replay_decisions(integrity, events, groups, competition, applies)
}

proof fn consensus_lines_match(groups: Seq<GroupReplay>)
    ensures
        all_match(consensus_lines(groups)) <==> forall|i: int|
            0 <= i < groups.len() ==> ((#[trigger] groups[i]).recorded matches Some(recorded)
                ==> consensus_agrees(groups[i].recomputed, recorded)),
    decreases groups.len(),
{
    if groups.len() > 0 {
        let rest = groups.drop_last();
        let last = groups.last();
        consensus_lines_match(rest);
        let lines = consensus_lines(rest);
        if last.recorded is Some {
            let l = group_lines(last)[0];
            assert(group_lines(last) =~= seq![l]);
            assert(lines + group_lines(last) =~= lines.push(l));
            all_match_push(lines, l);
        } else {
            assert(lines + group_lines(last) =~= lines);
        }
        assert(forall|i: int| 0 <= i < rest.len() ==> #[trigger] groups[i] == rest[i]);
        assert(groups[groups.len() - 1] == last);
        if all_match(consensus_lines(groups)) {
            assert forall|i: int| 0 <= i < groups.len() implies ((
            #[trigger] groups[i]).recorded matches Some(recorded) ==> consensus_agrees(
                groups[i].recomputed,
                recorded,
            )) by {
                if i < rest.len() {
                    assert(rest[i] == groups[i]);
                }
            }
        } else if all_match(lines) {
            assert(groups[groups.len() - 1] == last);
        } else {
            let i = choose|i: int|
                0 <= i < rest.len() && !((#[trigger] rest[i]).recorded matches Some(recorded)
                    ==> consensus_agrees(rest[i].recomputed, recorded));
            assert(groups[i] == rest[i]);
        }
    }
}

proof fn policy_lines_match(events: Seq<StoredEvent>, total: nat)
    ensures
        all_match(policy_lines(events, total)) <==> forall|i: int|
            0 <= i < events.len() && records_policy(#[trigger] events[i]) ==> !policy_line(
                events[i].policy->0,
                total,
            ).mismatch,
    decreases events.len(),
{
    if events.len() > 0 {
        let rest = events.drop_last();
        let last = events.last();
        policy_lines_match(rest, total);
        let lines = policy_lines(rest, total);
        if records_policy(last) {
            all_match_push(lines, policy_line(last.policy->0, total));
        }
        assert(events[events.len() - 1] == last);
        if all_match(policy_lines(events, total)) {
            assert forall|i: int|
                0 <= i < events.len() && records_policy(#[trigger] events[i]) implies !policy_line(
                events[i].policy->0,
                total,
            ).mismatch by {
                if i < rest.len() {
                    assert(rest[i] == events[i]);
                }
            }
        } else if !all_match(lines) {
            let i = choose|i: int|
                0 <= i < rest.len() && records_policy(#[trigger] rest[i]) && policy_line(
                    rest[i].policy->0,
                    total,
                ).mismatch;
            assert(events[i] == rest[i]);
        }
    }
}

proof fn first_of_type_is_first(events: Seq<StoredEvent>, event_type: Seq<char>, i: int)
    requires
        0 <= i < events.len(),
        events[i].event_type@ == event_type,
        forall|k: int| 0 <= k < i ==> (#[trigger] events[k]).event_type@ != event_type,
    ensures
        first_of_type(events, event_type) == Some(events[i]),
    decreases i,
{
    if i > 0 {
        let rest = events.drop_first();
        assert(events[0].event_type@ != event_type);
        assert(rest[i - 1] == events[i]);
        assert forall|k: int| 0 <= k < i - 1 implies (
        #[trigger] rest[k]).event_type@ != event_type by {
            assert(rest[k] == events[k + 1]);
        }
        first_of_type_is_first(rest, event_type, i - 1);
    }
}

proof fn first_of_type_exists(events: Seq<StoredEvent>, event_type: Seq<char>) -> (i: int)
    requires
        first_of_type(events, event_type) is Some,
    ensures
        0 <= i < events.len(),
        events[i].event_type@ == event_type,
        forall|k: int| 0 <= k < i ==> (#[trigger] events[k]).event_type@ != event_type,
        first_of_type(events, event_type) == Some(events[i]),
    decreases events.len(),
{
    if events[0].event_type@ == event_type {
        0
    } else {
        let rest = events.drop_first();
        let n = first_of_type_exists(rest, event_type);
        assert(rest[n] == events[n + 1]);
        assert forall|k: int| 0 <= k < n + 1 implies (
        #[trigger] events[k]).event_type@ != event_type by {
            if k > 0 {
                assert(rest[k - 1] == events[k]);
            }
        }
        n + 1
    }
}

/// What each part of a replay stands for. The consensus part passes exactly
/// when every group with a recorded consensus has the recomputed outcome,
/// approvals and change requests. The apply part passes exactly when every
/// apply took the winner's workspace, where one is known. The policy part
/// passes exactly when no recorded policy with a node limit has more than
/// twenty events per node. The whole passes exactly when all four do.
#[verifier::rlimit(40)]
pub proof fn replay_parts_compare_with_the_record(
    report: ReplayReport,
    events: Seq<StoredEvent>,
    groups: Seq<GroupReplay>,
    competition: Option<&CompetitionReplay>,
    applies: Seq<ApplyReplay>,
    winner: Option<Seq<char>>,
)
    requires
        reports(report, replay_lines(events, groups, competition, applies, winner)),
    ensures
        report.integrity_passed,
        report.passed <==> report.consensus_passed && report.selection_passed
            && report.apply_passed && report.policy_passed,
        report.consensus_passed <==> forall|i: int|
            0 <= i < groups.len() ==> ((#[trigger] groups[i]).recorded matches Some(recorded) ==> {
                let fresh = groups[i].recomputed;
                &&& fresh.approved_count == recorded.approved_count
                &&& fresh.changes_requested_count == recorded.changes_requested_count
                &&& fresh.outcome is Approved <==> recorded.outcome is Approved
                &&& fresh.outcome is ChangesRequested <==> recorded.outcome is ChangesRequested
                &&& fresh.outcome is Unavailable <==> recorded.outcome is Unavailable
                &&& fresh.outcome matches ConsensusOutcome::Other(a) ==> (
                recorded.outcome matches ConsensusOutcome::Other(b) && a@ == b@)
            }),
        report.apply_passed <==> (competition matches Some(c) ==> (
        c.winner_workspace_id matches Some(w) ==> forall|i: int|
            0 <= i < applies.len() ==> (#[trigger] applies[i]).workspace_id == w)),
        report.policy_passed <==> forall|i: int|
            0 <= i < events.len() && ((#[trigger] events[i]).event_type@ == "WorkflowStarted"@
                || events[i].event_type@ == "PlanExecuted"@) ==> (
            events[i].policy matches Some(policy) ==> policy.max_nodes == 0 || events.len() <= 20
                * policy.max_nodes),
{
    let lines = replay_lines(events, groups, competition, applies, winner);
    consensus_lines_match(groups);
    assert forall|i: int| 0 <= i < groups.len() && (
    #[trigger] groups[i]).recorded is Some implies consensus_agrees(
        groups[i].recomputed,
        groups[i].recorded->0,
    ) == ({
        let fresh = groups[i].recomputed;
        let recorded = groups[i].recorded->0;
        &&& fresh.approved_count == recorded.approved_count
        &&& fresh.changes_requested_count == recorded.changes_requested_count
        &&& fresh.outcome is Approved <==> recorded.outcome is Approved
        &&& fresh.outcome is ChangesRequested <==> recorded.outcome is ChangesRequested
        &&& fresh.outcome is Unavailable <==> recorded.outcome is Unavailable
        &&& fresh.outcome matches ConsensusOutcome::Other(a) ==> (
        recorded.outcome matches ConsensusOutcome::Other(b) && a@ == b@)
    }) by {}
    policy_lines_match(events, events.len());
    if let Some(c) = competition {
        if let Some(w) = c.winner_workspace_id {
            assert forall|i: int| 0 <= i < applies.len() implies lines.2[i].mismatch == ((
            #[trigger] applies[i]).workspace_id != w) by {
                assert(lines.2[i] == apply_line(applies[i], w));
            }
            if all_match(lines.2) {
                assert forall|i: int| 0 <= i < applies.len() implies (
                #[trigger] applies[i]).workspace_id == w by {
                    assert(!lines.2[i].mismatch);
                }
            } else {
                let i = choose|i: int| 0 <= i < lines.2.len() && (#[trigger] lines.2[i]).mismatch;
                assert(applies[i].workspace_id != w);
            }
        }
    }
}

/// The selection part of a replay passes exactly when the persisted winner is
/// the recomputed one and the first recorded selection names it too; without a
/// competition there is nothing to compare.
pub proof fn replay_selection_compares_with_the_record(
    report: ReplayReport,
    events: Seq<StoredEvent>,
    groups: Seq<GroupReplay>,
    competition: Option<&CompetitionReplay>,
    applies: Seq<ApplyReplay>,
    winner: Option<Seq<char>>,
)
    requires
        reports(report, replay_lines(events, groups, competition, applies, winner)),
    ensures
        competition is None ==> report.selection_passed,
        competition matches Some(c) ==> (report.selection_passed <==> {
            &&& opt_text(c.winner_candidate_id) == winner
            &&& forall|i: int|
                0 <= i < events.len() && (#[trigger] events[i]).event_type@ == "WinnerSelected"@
                    && (forall|k: int|
                    0 <= k < i ==> (#[trigger] events[k]).event_type@ != "WinnerSelected"@)
                    ==> payload_winner(events[i]) == opt_text(c.winner_candidate_id)
        }),
{
    if let Some(c) = competition {
        let persisted = opt_text(c.winner_candidate_id);
        let first = first_of_type(events, "WinnerSelected"@);
        let lines = selection_lines(winner, persisted, first);
        assert(lines[0].mismatch == (persisted != winner));
        if first is Some && payload_winner(first->0) != persisted {
            assert(lines[1].mismatch);
        } else {
            assert(lines.len() == 1);
        }
        assert(all_match(lines) == (persisted == winner && (first is Some ==> payload_winner(
            first->0,
        ) == persisted)));
        if first is Some {
            let n = first_of_type_exists(events, "WinnerSelected"@);
            assert(events[n] == first->0);
        }
        assert forall|i: int|
            0 <= i < events.len() && (#[trigger] events[i]).event_type@ == "WinnerSelected"@ && (
            forall|k: int|
                0 <= k < i ==> (#[trigger] events[k]).event_type@
                    != "WinnerSelected"@) implies first == Some(events[i]) by {
            first_of_type_is_first(events, "WinnerSelected"@, i);
        }
    }
}

/// A replay passes exactly when it found no mismatch.
pub proof fn replay_passes_without_mismatch(
    report: ReplayReport,
    lines: (Seq<ReplayLine>, Seq<ReplayLine>, Seq<ReplayLine>, Seq<ReplayLine>),
)
    requires
        reports(report, lines),
    ensures
        report.passed == (report.mismatches@.len() == 0),
{
    let all = lines.0 + lines.1 + lines.2 + lines.3;
    no_mismatch_texts(all);
    assert(all_match(all) == (all_match(lines.0) && all_match(lines.1) && all_match(lines.2)
        && all_match(lines.3))) by {
        assert forall|i: int| 0 <= i < lines.0.len() implies all[i] == #[trigger] lines.0[i] by {}
        assert forall|i: int| 0 <= i < lines.1.len() implies all[lines.0.len() + i]
            == #[trigger] lines.1[i] by {}
        assert forall|i: int| 0 <= i < lines.2.len() implies all[lines.0.len() + lines.1.len() + i]
            == #[trigger] lines.2[i] by {}
        assert forall|i: int| 0 <= i < lines.3.len() implies all[lines.0.len() + lines.1.len()
            + lines.2.len() + i] == #[trigger] lines.3[i] by {}
    }
    assert(texts(report.mismatches@).len() == report.mismatches@.len());
}

proof fn no_mismatch_texts(lines: Seq<ReplayLine>)
    ensures
        all_match(lines) == (mismatch_texts(lines).len() == 0),
    decreases lines.len(),
{
    if lines.len() > 0 {
        no_mismatch_texts(lines.drop_last());
        all_match_push(lines.drop_last(), lines.last());
        assert(lines.drop_last().push(lines.last()) =~= lines);
    }
}

/// The report of a replay that was asked to verify the chain alone: every
/// part stands for the chain.
pub fn verify_only_report(integrity: IntegrityReport) -> (r: ReplayReport)
    ensures
        r.workflow_id == integrity.workflow_id,
        r.is_legacy == integrity.is_legacy,
        r.passed == integrity.valid,
        r.integrity_passed == integrity.valid,
        r.consensus_passed == integrity.valid,
        r.selection_passed == integrity.valid,
        r.apply_passed == integrity.valid,
        r.policy_passed == integrity.valid,
        r.details == integrity.details,
        texts(r.mismatches@) == (match integrity.failure {
            Some(text) => seq![text@],
            None => Seq::empty(),
        }),
{
    let valid = integrity.valid;
    let mismatches = match integrity.failure {
        Some(text) => line(text),
        None => {
            let none: Vec<String> = Vec::new();
            assert(texts(none@) =~= Seq::<Seq<char>>::empty());
            none
        },
    };
    ReplayReport {
        workflow_id: integrity.workflow_id,
        passed: valid,
        is_legacy: integrity.is_legacy,
        integrity_passed: valid,
        consensus_passed: valid,
        selection_passed: valid,
        apply_passed: valid,
        policy_passed: valid,
        mismatches,
        details: integrity.details,
    }
}

/// Whether a report is about a workflow that does not exist.
pub fn is_unknown_workflow(report: &IntegrityReport) -> (r: bool)
    ensures
        r == (!report.valid && report.total_events == 0 && !report.is_legacy),
{
    !report.valid && report.total_events == 0 && !report.is_legacy
}

/// The recovery workflows among recovery proposals: those that were executed.
pub open spec fn executed_ids(ids: Seq<Option<Uuid>>) -> Seq<Uuid>
    decreases ids.len(),
{
    if ids.len() == 0 {
        Seq::empty()
    } else {
        match ids.last() {
            Some(id) => executed_ids(ids.drop_last()).push(id),
            None => executed_ids(ids.drop_last()),
        }
    }
}

/// What the lineage of a workflow is put together from.
pub struct LineageInputs {
    pub workflow_id: Uuid,
    pub preset: String,
    pub goal: String,
    pub status: String,
    pub parent_workflow_id: Option<Uuid>,
    pub graph_revision: i64,
    /// The workflow of each recovery proposal, where it was executed.
    pub recoveries: Vec<Option<Uuid>>,
    pub replans_count: usize,
    /// The competition of the workflow, with its winner.
    pub competition: Option<(Uuid, Option<String>)>,
    pub evaluation_groups_count: usize,
    pub applies: Vec<Uuid>,
    pub events_count: i64,
}

/// Resolves the full lineage of a workflow.
pub fn get_lineage(inputs: LineageInputs) -> (r: LineageReport)
    ensures
        r.workflow_id == inputs.workflow_id,
        r.preset == inputs.preset,
        r.goal == inputs.goal,
        r.status == inputs.status,
        r.parent_workflow_id == inputs.parent_workflow_id,
        r.recovery_workflows@ == executed_ids(inputs.recoveries@),
        r.plan_id is None,
        r.graph_revision == inputs.graph_revision,
        r.replans_count == inputs.replans_count,
        match inputs.competition {
            Some((id, winner)) => r.competition_group_id == Some(id) && r.winner_candidate_id
                == winner,
            None => r.competition_group_id is None && r.winner_candidate_id is None,
        },
        r.evaluation_groups_count == inputs.evaluation_groups_count,
        r.apply_id == (if inputs.applies@.len() == 0 {
            None
        } else {
            Some(inputs.applies@[0])
        }),
        r.provenance_events_count == inputs.events_count as usize,
{
    let mut recovery_workflows: Vec<Uuid> = Vec::new();
    let mut i: usize = 0;
    while i < inputs.recoveries.len()
        invariant
            i <= inputs.recoveries@.len(),
            recovery_workflows@ == executed_ids(inputs.recoveries@.take(i as int)),
        decreases inputs.recoveries.len() - i,
    {
        proof {
            assert(inputs.recoveries@.take(i + 1).drop_last() =~= inputs.recoveries@.take(
                i as int,
            ));
            assert(inputs.recoveries@.take(i + 1).last() == inputs.recoveries@[i as int]);
        }
        if let Some(id) = inputs.recoveries[i] {
            recovery_workflows.push(id);
        }
        i += 1;
    }
    assert(inputs.recoveries@.take(i as int) =~= inputs.recoveries@);
    let apply_id = if inputs.applies.len() == 0 {
        None
    } else {
        Some(inputs.applies[0])
    };
    let (competition_group_id, winner_candidate_id) = match inputs.competition {
        Some((id, winner)) => (Some(id), winner),
        None => (None, None),
    };
    LineageReport {
        workflow_id: inputs.workflow_id,
        preset: inputs.preset,
        goal: inputs.goal,
        status: inputs.status,
        parent_workflow_id: inputs.parent_workflow_id,
        recovery_workflows,
        plan_id: None,
        graph_revision: inputs.graph_revision,
        replans_count: inputs.replans_count,
        competition_group_id,
        winner_candidate_id,
        evaluation_groups_count: inputs.evaluation_groups_count,
        apply_id,
        provenance_events_count: inputs.events_count as usize,
    }
}

/// The payload of an event is hashed as the JSON it is, and one that is no JSON
/// as a text.
pub proof fn payloads_are_hashed_as_what_they_are(event: StoredEvent)
    ensures
        parsed_json(event.payload_json@) matches Some(value) ==> hashed_payload(event) == value,
        parsed_json(event.payload_json@) is None ==> hashed_payload(event) == Json::Text(
            event.payload_json@,
        ),
        event.workflow_id matches Some(id) ==> workflow_text(event) == Some(id_text(id.bits)),
        event.workflow_id is None ==> workflow_text(event) is None,
{
}

/// The winner that an event names is the text under `winner_candidate_id` of its
/// payload; a payload without such a text names none.
pub proof fn recorded_winner_is_the_named_one(
    event: StoredEvent,
    entries: Seq<(Seq<char>, Json)>,
)
    ensures
        parsed_json(event.payload_json@) is None ==> payload_winner(event) is None,
        parsed_json(event.payload_json@) == Some(Json::Object(entries)) ==> {
            &&& lookup(entries, "winner_candidate_id"@) matches Some(Json::Text(text))
                ==> payload_winner(event) == Some(text)
            &&& !(lookup(entries, "winner_candidate_id"@) matches Some(Json::Text(_)))
                ==> payload_winner(event) is None
        },
{
}

/// One more line of a report is listed behind the others, and among the
/// mismatches exactly when it is one.
pub proof fn mismatches_are_listed(lines: Seq<ReplayLine>, line: ReplayLine)
    ensures
        line_texts(lines.push(line)) == line_texts(lines).push(line.text),
        mismatch_texts(Seq::empty()).len() == 0,
        line.mismatch ==> mismatch_texts(lines.push(line)) == mismatch_texts(lines).push(line.text),
        !line.mismatch ==> mismatch_texts(lines.push(line)) == mismatch_texts(lines),
{
    assert(lines.push(line).drop_last() =~= lines);
    assert(line_texts(lines.push(line)) =~= line_texts(lines).push(line.text));
}

/// One more group adds a line exactly when a consensus was recorded for it, and
/// one more event exactly when it records a policy.
pub proof fn each_recorded_decision_has_a_line(
    groups: Seq<GroupReplay>,
    group: GroupReplay,
    events: Seq<StoredEvent>,
    event: StoredEvent,
    total: nat,
)
    ensures
        consensus_lines(Seq::empty()).len() == 0,
        consensus_lines(groups.push(group)) == consensus_lines(groups) + group_lines(group),
        group_lines(group).len() == (if group.recorded is Some {
            1int
        } else {
            0
        }),
        policy_lines(Seq::empty(), total).len() == 0,
        (event.event_type@ == "WorkflowStarted"@ || event.event_type@ == "PlanExecuted"@)
            && event.policy is Some ==> policy_lines(events.push(event), total).len()
            == policy_lines(events, total).len() + 1,
        !((event.event_type@ == "WorkflowStarted"@ || event.event_type@ == "PlanExecuted"@)
            && event.policy is Some) ==> policy_lines(events.push(event), total) == policy_lines(
            events,
            total,
        ),
{
    assert(groups.push(group).drop_last() =~= groups);
    assert(events.push(event).drop_last() =~= events);
}

/// The lineage names a recovery workflow exactly for each recovery that was
/// executed, in their order.
pub proof fn executed_recoveries_are_named(ids: Seq<Option<Uuid>>, id: Option<Uuid>)
    ensures
        executed_ids(Seq::empty()).len() == 0,
        id matches Some(workflow) ==> executed_ids(ids.push(id)) == executed_ids(ids).push(
            workflow,
        ),
        id is None ==> executed_ids(ids.push(id)) == executed_ids(ids),
{
    assert(ids.push(id).drop_last() =~= ids);
}

/// What is wrong with an event is found in this order: its number, its link, the
/// hash of its payload and its own hash; each is told with what was recorded.
#[verifier::rlimit(40)]
pub proof fn faults_tell_what_is_wrong(events: Seq<StoredEvent>, i: int)
    requires
        0 <= i < events.len(),
    ensures
        ({
            let e = events[i];
            let linked = if i == 0 {
                e.previous_hash is None
            } else {
                e.previous_hash is Some && e.previous_hash->0@ == events[i - 1].event_hash@
            };
            let hashed = e.payload_hash@ == payload_hash(hashed_payload(e));
            let sealed = e.event_hash@ == event_hash(
                opt_text(e.previous_hash),
                workflow_text(e),
                e.sequence as int,
                e.event_type@,
                e.entity_type@,
                e.entity_id@,
                e.actor_type@,
                opt_text(e.actor_id),
                e.payload_hash@,
            );
            &&& event_fault(events, i) is None <==> e.sequence == i + 1 && linked && hashed
                && sealed
            &&& e.sequence != i + 1 ==> begins_with(
                event_fault(events, i)->0,
                "Sequence gap detected: event "@,
            )
            &&& e.sequence == i + 1 && !linked && i > 0 ==> begins_with(
                event_fault(events, i)->0,
                "Hash chain broken at sequence "@,
            )
            &&& e.sequence == i + 1 && !linked && i == 0 ==> begins_with(
                event_fault(events, i)->0,
                "Event 1 has non-null previous_hash: "@,
            )
            &&& e.sequence == i + 1 && linked && !hashed ==> begins_with(
                event_fault(events, i)->0,
                "Payload hash mismatch at sequence "@,
            )
            &&& e.sequence == i + 1 && linked && hashed && !sealed ==> begins_with(
                event_fault(events, i)->0,
                "Event hash mismatch at sequence "@,
            )
        }),
{
    let fault = event_fault(events, i);
    if let Some(text) = fault {
        let a = "Sequence gap detected: event "@;
        let b = "Hash chain broken at sequence "@;
        let c = "Event 1 has non-null previous_hash: "@;
        let d = "Payload hash mismatch at sequence "@;
        let f = "Event hash mismatch at sequence "@;
        let e = events[i];
        if e.sequence != i + 1 {
            assert(text.subrange(0, a.len() as int) =~= a);
        } else if opt_text(e.previous_hash) != expected_link(events, i) {
            if i == 0 {
                assert(text.subrange(0, c.len() as int) =~= c);
            } else {
                assert(text.subrange(0, b.len() as int) =~= b);
            }
        } else if e.payload_hash@ != payload_hash(hashed_payload(e)) {
            assert(text.subrange(0, d.len() as int) =~= d);
        } else {
            assert(text.subrange(0, f.len() as int) =~= f);
        }
    }
}

/// The first fault of a chain is one that no fault comes before.
pub proof fn first_fault_comes_first(events: Seq<StoredEvent>, i: int, k: int)
    requires
        first_broken(events, i),
        0 <= k < events.len(),
    ensures
        0 <= i < events.len(),
        event_fault(events, i) is Some,
        event_fault(events, k) is Some ==> i <= k,
        !chain_holds(events),
{
    if k < i {
        assert(event_fault(events, k) is None);
    }
    assert(event_fault(events, i) is Some);
}

/// A chain holds exactly when no event of it has a fault.
pub proof fn chain_holds_without_a_fault(events: Seq<StoredEvent>)
    ensures
        chain_holds(events) <==> forall|i: int|
            0 <= i < events.len() ==> #[trigger] event_fault(events, i) is None,
        chain_holds(Seq::empty()),
{
}

/// Where nothing passed, no part did.
pub proof fn nothing_passed_means_no_part(r: ReplayReport)
    requires
        nothing_passed(r),
    ensures
        !r.passed && !r.integrity_passed && !r.consensus_passed && !r.selection_passed
            && !r.apply_passed && !r.policy_passed,
{
}

/// A line tells what was found: that a decision was verified, or what differs
/// from the record.
#[verifier::rlimit(40)]
pub proof fn lines_tell_what_was_found(
    group: GroupReplay,
    recomputed: Option<Seq<char>>,
    persisted: Option<Seq<char>>,
    apply: ApplyReplay,
    winner: Uuid,
)
    ensures
        group.recorded is Some ==> (group_lines(group)[0].mismatch ==> begins_with(
            group_lines(group)[0].text,
            "Consensus mismatch for group "@,
        )) && (!group_lines(group)[0].mismatch ==> begins_with(
            group_lines(group)[0].text,
            "Consensus verified for group "@,
        )),
        persisted != recomputed ==> begins_with(
            selection_lines(recomputed, persisted, None)[0].text,
            "Winner selection mismatch: recomputed "@,
        ),
        persisted == recomputed ==> begins_with(
            selection_lines(recomputed, persisted, None)[0].text,
            "Winner selection verified: winner = "@,
        ),
        apply.workspace_id != winner ==> apply_line(apply, winner).mismatch && begins_with(
            apply_line(apply, winner).text,
            "Apply source mismatch for apply "@,
        ),
        apply.workspace_id == winner ==> !apply_line(apply, winner).mismatch && begins_with(
            apply_line(apply, winner).text,
            "Apply source verified for apply "@,
        ),
        debug_opt(None) == "None"@,
{
    let a = "Consensus mismatch for group "@;
    let b = "Consensus verified for group "@;
    let c = "Winner selection mismatch: recomputed "@;
    let d = "Winner selection verified: winner = "@;
    let e = "Apply source mismatch for apply "@;
    let f = "Apply source verified for apply "@;
    if group.recorded is Some {
        let text = group_lines(group)[0].text;
        if group_lines(group)[0].mismatch {
            assert(text.subrange(0, a.len() as int) =~= a);
        } else {
            assert(text.subrange(0, b.len() as int) =~= b);
        }
    }
    let selected = selection_lines(recomputed, persisted, None)[0].text;
    if persisted != recomputed {
        assert(selected.subrange(0, c.len() as int) =~= c);
    } else {
        assert(selected.subrange(0, d.len() as int) =~= d);
    }
    let applied = apply_line(apply, winner).text;
    if apply.workspace_id != winner {
        assert(applied.subrange(0, e.len() as int) =~= e);
    } else {
        assert(applied.subrange(0, f.len() as int) =~= f);
    }
}

} // verus!
