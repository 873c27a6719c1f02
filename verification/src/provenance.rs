//! Provenance: redaction of secrets, canonical JSON, the hash chain of events
//! and the deterministic ranking of candidates.

use sha2::Digest;
use vstd::prelude::*;
use vstd::string::*;
use vstd::utf8::*;

use crate::ids::hex_digit;
use crate::json::{json_text, Json, JsonValue};
use crate::text::{decimal, decimal_injective, decimal_int, opt_str, show_i64};

pub use crate::provenance::canonical::{canonical_json_string, canonicalize_json};
pub use crate::provenance::ranking::{rank_candidates, CandidateRankingEntry};
pub use crate::provenance::redaction::AuditRedactor;

pub mod actor_type;
pub mod canonical;
pub mod entity_type;
pub mod event_type;
pub mod payloads;
pub mod ranking;
pub mod redaction;

verus! {

/// Stable schema version for exported provenance events and audit streams.
pub const PROVENANCE_SCHEMA_VERSION: u32 = 1;

/// The SHA-256 digest of a run of bytes.
pub uninterp spec fn sha256_digest(bytes: Seq<u8>) -> Seq<u8>;

/// `sha2::Sha256` with `new`, `update` and `finalize` computes the SHA-256
/// digest of the bytes: 32 bytes that depend on the input alone.
#[verifier::external_body]
fn sha256(bytes: &[u8]) -> (r: Vec<u8>)
    ensures
        r@ == sha256_digest(bytes@),
        r@.len() == 32,
{
    let mut hasher = sha2::Sha256::new();
    hasher.update(bytes);
    hasher.finalize().to_vec()
}

/// The lower-case hexadecimal text of a run of bytes, two digits each.
pub open spec fn hex_text(bytes: Seq<u8>) -> Seq<char> {
    Seq::new(
        2 * bytes.len(),
        |i: int|
            if i % 2 == 0 {
                hex_digit(bytes[i / 2] as int / 16)
            } else {
                hex_digit(bytes[i / 2] as int % 16)
            },
    )
}

fn hex_char(n: u8) -> (c: char)
    requires
        n < 16,
    ensures
        c == hex_digit(n as int),
{
    if n < 10 {
        (48u8 + n) as char
    } else {
        (87u8 + n) as char
    }
}

/// The lower-case hexadecimal text of a run of bytes, two digits each.
pub fn hex_encode(bytes: &[u8]) -> (s: String)
    ensures
        s@ == hex_text(bytes@),
{
    let mut s = String::new();
    let mut i: usize = 0;
    while i < bytes.len()
        invariant
            i <= bytes@.len(),
            s@ == hex_text(bytes@.take(i as int)),
        decreases bytes.len() - i,
    {
        let b = bytes[i];
        s.push(hex_char(b / 16));
        s.push(hex_char(b % 16));
        assert(s@ =~= hex_text(bytes@.take(i + 1)));
        i += 1;
    }
    assert(bytes@.take(i as int) =~= bytes@);
    s
}

proof fn hex_digit_injective(x: int, y: int)
    requires
        0 <= x < 16,
        0 <= y < 16,
        hex_digit(x) == hex_digit(y),
    ensures
        x == y,
{
}

/// Different bytes have different hexadecimal texts.
pub proof fn hex_text_injective(a: Seq<u8>, b: Seq<u8>)
    requires
        hex_text(a) == hex_text(b),
    ensures
        a == b,
{
    assert(hex_text(a).len() == 2 * a.len());
    assert(hex_text(b).len() == 2 * b.len());
    assert forall|i: int| 0 <= i < a.len() implies a[i] == b[i] by {
        assert(hex_text(a)[2 * i] == hex_text(b)[2 * i]);
        assert(hex_text(a)[2 * i + 1] == hex_text(b)[2 * i + 1]);
        let x = a[i] as int;
        let y = b[i] as int;
        assert((2 * i) / 2 == i && (2 * i + 1) / 2 == i && (2 * i) % 2 == 0 && (2 * i + 1) % 2 == 1);
        assert(hex_text(a)[2 * i] == hex_digit(x / 16));
        assert(hex_text(b)[2 * i] == hex_digit(y / 16));
        assert(hex_text(a)[2 * i + 1] == hex_digit(x % 16));
        assert(hex_text(b)[2 * i + 1] == hex_digit(y % 16));
        hex_digit_injective(x / 16, y / 16);
        hex_digit_injective(x % 16, y % 16);
    }
    assert(a =~= b);
}

/// The hexadecimal SHA-256 digest of a run of bytes.
pub open spec fn hash_text(bytes: Seq<u8>) -> Seq<char> {
    hex_text(sha256_digest(bytes))
}

/// Computes SHA-256 hex digest of a byte slice.
pub fn sha256_hex(bytes: &[u8]) -> (s: String)
    ensures
        s@ == hash_text(bytes@),
        s@.len() == 64,
{
    hex_encode(sha256(bytes).as_slice())
}

/// The canonical text of a payload, secrets and reasoning redacted.
pub open spec fn payload_text(payload: Json) -> Seq<char> {
    json_text(canonical::canonical(redaction::redacted(payload)))
}

/// The hash of a payload.
pub open spec fn payload_hash(payload: Json) -> Seq<char> {
    hash_text(encode_utf8(payload_text(payload)))
}

/// Computes the canonical payload string and its SHA-256 payload hash.
pub fn compute_payload_hash(payload: &JsonValue) -> (r: (String, String))
    ensures
        r.0@ == payload_text(payload@),
        r.1@ == payload_hash(payload@),
        r.1@.len() == 64,
{
    let redacted = AuditRedactor::redact_value(payload);
    let canonical_str = canonical_json_string(&redacted);
    let hash = sha256_hex(canonical_str.as_str().as_bytes());
    (canonical_str, hash)
}

/// The payload text and hash do not depend on the order in which the entries
/// of objects are written.
pub proof fn payload_hash_ignores_entry_order(a: Json, b: Json)
    requires
        canonical::distinct_keys(a),
        canonical::distinct_keys(b),
        canonical::same_json(a, b),
    ensures
        payload_text(a) == payload_text(b),
        payload_hash(a) == payload_hash(b),
{
    redaction::redacted_distinct_keys(a);
    redaction::redacted_distinct_keys(b);
    redaction::redacted_same(a, b);
    canonical::canonical_ignores_entry_order(redaction::redacted(a), redaction::redacted(b));
}

/// Neither the payload text nor its hash depends on a secret: payloads that
/// differ only in the order of entries, in fields under reasoning keys, in
/// values under sensitive keys or in authorization header texts have the same.
pub proof fn payload_hash_ignores_secrets(a: Json, b: Json)
    requires
        canonical::distinct_keys(a),
        canonical::distinct_keys(b),
        redaction::same_but_secrets(a, b),
    ensures
        payload_text(a) == payload_text(b),
        payload_hash(a) == payload_hash(b),
        payload_hash(a) == hash_text(encode_utf8(payload_text(a))),
{
    redaction::redacted_distinct_keys(a);
    redaction::redacted_distinct_keys(b);
    redaction::redacted_hides_secrets(a, b);
    canonical::canonical_ignores_entry_order(redaction::redacted(a), redaction::redacted(b));
}

/// Redacting a payload before it is recorded does not change its hash.
pub proof fn payload_hash_of_redacted(payload: Json)
    ensures
        payload_hash(redaction::redacted(payload)) == payload_hash(payload),
{
    redaction::redacted_idempotent(payload);
}

/// A text, or another in its place.
pub open spec fn text_or(value: Option<Seq<char>>, default: Seq<char>) -> Seq<char> {
    match value {
        Some(text) => text,
        None => default,
    }
}

/// The text over which the hash of an event is taken: its fields, joined by
/// colons.
pub open spec fn event_text(
    previous_hash: Option<Seq<char>>,
    workflow_id: Option<Seq<char>>,
    sequence: int,
    event_type: Seq<char>,
    entity_type: Seq<char>,
    entity_id: Seq<char>,
    actor_type: Seq<char>,
    actor_id: Option<Seq<char>>,
    payload_hash: Seq<char>,
) -> Seq<char> {
    text_or(previous_hash, "GENESIS"@) + ":"@ + text_or(workflow_id, "NONE"@) + ":"@ + decimal_int(
        sequence,
    ) + ":"@ + event_type + ":"@ + entity_type + ":"@ + entity_id + ":"@ + actor_type + ":"@
        + text_or(actor_id, "NONE"@) + ":"@ + payload_hash
}

/// The hash of an event.
pub open spec fn event_hash(
    previous_hash: Option<Seq<char>>,
    workflow_id: Option<Seq<char>>,
    sequence: int,
    event_type: Seq<char>,
    entity_type: Seq<char>,
    entity_id: Seq<char>,
    actor_type: Seq<char>,
    actor_id: Option<Seq<char>>,
    payload_hash: Seq<char>,
) -> Seq<char> {
    hash_text(
        encode_utf8(
            event_text(
                previous_hash,
                workflow_id,
                sequence,
                event_type,
                entity_type,
                entity_id,
                actor_type,
                actor_id,
                payload_hash,
            ),
        ),
    )
}

fn str_or<'a>(value: Option<&'a str>, default: &'a str) -> (r: &'a str)
    ensures
        r@ == text_or(opt_str(value), default@),
{
    match value {
        Some(text) => text,
        None => default,
    }
}

/// Computes the tamper-evident event hash across previous hash, canonical
/// event fields, and payload hash.
pub fn compute_event_hash(
    previous_hash: Option<&str>,
    workflow_id: Option<&str>,
    sequence: i64,
    event_type: &str,
    entity_type: &str,
    entity_id: &str,
    actor_type: &str,
    actor_id: Option<&str>,
    payload_hash: &str,
) -> (r: String)
    ensures
        r@ == event_hash(
            opt_str(previous_hash),
            opt_str(workflow_id),
            sequence as int,
            event_type@,
            entity_type@,
            entity_id@,
            actor_type@,
            opt_str(actor_id),
            payload_hash@,
        ),
        r@.len() == 64,
{
    let mut raw = String::new();
    raw.append(str_or(previous_hash, "GENESIS"));
    assert(raw@ =~= text_or(opt_str(previous_hash), "GENESIS"@));
    raw.append(":");
    raw.append(str_or(workflow_id, "NONE"));
    raw.append(":");
    raw.append(show_i64(sequence).as_str());
    raw.append(":");
    raw.append(event_type);
    raw.append(":");
    raw.append(entity_type);
    raw.append(":");
    raw.append(entity_id);
    raw.append(":");
    raw.append(actor_type);
    raw.append(":");
    raw.append(str_or(actor_id, "NONE"));
    raw.append(":");
    raw.append(payload_hash);
    sha256_hex(raw.as_str().as_bytes())
}

/// Execution policy snapshot recorded at decision/execution time.
#[derive(Clone, Copy, Debug, PartialEq, Eq, Structural)]
pub struct PolicySnapshot {
    pub max_nodes: usize,
    pub max_agent_calls: usize,
    pub max_parallel: usize,
    pub max_review_rounds: usize,
    pub max_replan_rounds: usize,
    pub max_recovery_attempts: usize,
    pub max_candidates: usize,
    pub max_evaluators: usize,
}

impl Default for PolicySnapshot {
    fn default() -> (r: Self)
        ensures
            r == (PolicySnapshot {
                max_nodes: 50,
                max_agent_calls: 100,
                max_parallel: 8,
                max_review_rounds: 3,
                max_replan_rounds: 2,
                max_recovery_attempts: 1,
                max_candidates: 3,
                max_evaluators: 3,
            }),
    {
        PolicySnapshot {
            max_nodes: 50,
            max_agent_calls: 100,
            max_parallel: 8,
            max_review_rounds: 3,
            max_replan_rounds: 2,
            max_recovery_attempts: 1,
            max_candidates: 3,
            max_evaluators: 3,
        }
    }
}

/// The fields of an event that its hash is taken over.
pub struct SealedFields {
    pub previous_hash: Option<Seq<char>>,
    pub workflow_id: Option<Seq<char>>,
    pub sequence: int,
    pub event_type: Seq<char>,
    pub entity_type: Seq<char>,
    pub entity_id: Seq<char>,
    pub actor_type: Seq<char>,
    pub actor_id: Option<Seq<char>>,
    pub payload_hash: Seq<char>,
}

/// The text over which the hash of these fields is taken.
pub open spec fn text_of_fields(f: SealedFields) -> Seq<char> {
    event_text(
        f.previous_hash,
        f.workflow_id,
        f.sequence,
        f.event_type,
        f.entity_type,
        f.entity_id,
        f.actor_type,
        f.actor_id,
        f.payload_hash,
    )
}

/// No field of an event can be altered alone without altering the text that its
/// hash is taken over. An absent hash or id reads like the word that stands for
/// it.
#[verifier::rlimit(40)]
pub proof fn every_field_enters_the_hash(f: SealedFields, g: SealedFields)
    requires
        text_of_fields(f) == text_of_fields(g),
    ensures
        g == (SealedFields { previous_hash: g.previous_hash, ..f }) && f.previous_hash is Some
            && g.previous_hash is Some ==> f.previous_hash == g.previous_hash,
        g == (SealedFields { workflow_id: g.workflow_id, ..f }) && f.workflow_id is Some
            && g.workflow_id is Some ==> f.workflow_id == g.workflow_id,
        g == (SealedFields { sequence: g.sequence, ..f }) ==> f.sequence == g.sequence,
        g == (SealedFields { event_type: g.event_type, ..f }) ==> f.event_type == g.event_type,
        g == (SealedFields { entity_type: g.entity_type, ..f }) ==> f.entity_type
            == g.entity_type,
        g == (SealedFields { entity_id: g.entity_id, ..f }) ==> f.entity_id == g.entity_id,
        g == (SealedFields { actor_type: g.actor_type, ..f }) ==> f.actor_type == g.actor_type,
        g == (SealedFields { actor_id: g.actor_id, ..f }) && f.actor_id is Some && g.actor_id
            is Some ==> f.actor_id == g.actor_id,
        g == (SealedFields { payload_hash: g.payload_hash, ..f }) ==> f.payload_hash
            == g.payload_hash,
{
    let x = event_parts(f);
    let y = event_parts(g);
    let colon = ":"@;
    assert(text_of_fields(f) =~= colon_joined(x));
    assert(text_of_fields(g) =~= colon_joined(y));
    if g == (SealedFields { previous_hash: g.previous_hash, ..f }) {
        one_part_decides(x, y, 0);
    }
    if g == (SealedFields { workflow_id: g.workflow_id, ..f }) {
        one_part_decides(x, y, 1);
    }
    if g == (SealedFields { sequence: g.sequence, ..f }) {
        one_part_decides(x, y, 2);
        integer_numerals_differ(f.sequence, g.sequence);
    }
    if g == (SealedFields { event_type: g.event_type, ..f }) {
        one_part_decides(x, y, 3);
    }
    if g == (SealedFields { entity_type: g.entity_type, ..f }) {
        one_part_decides(x, y, 4);
    }
    if g == (SealedFields { entity_id: g.entity_id, ..f }) {
        one_part_decides(x, y, 5);
    }
    if g == (SealedFields { actor_type: g.actor_type, ..f }) {
        one_part_decides(x, y, 6);
    }
    if g == (SealedFields { actor_id: g.actor_id, ..f }) {
        one_part_decides(x, y, 7);
    }
    if g == (SealedFields { payload_hash: g.payload_hash, ..f }) {
        one_part_decides(x, y, 8);
    }
}

spec fn event_parts(f: SealedFields) -> Seq<Seq<char>> {
    seq![
        text_or(f.previous_hash, "GENESIS"@),
        text_or(f.workflow_id, "NONE"@),
        decimal_int(f.sequence),
        f.event_type,
        f.entity_type,
        f.entity_id,
        f.actor_type,
        text_or(f.actor_id, "NONE"@),
        f.payload_hash,
    ]
}

spec fn colon_joined(parts: Seq<Seq<char>>) -> Seq<char> {
    parts[0] + ":"@ + parts[1] + ":"@ + parts[2] + ":"@ + parts[3] + ":"@ + parts[4] + ":"@
        + parts[5] + ":"@ + parts[6] + ":"@ + parts[7] + ":"@ + parts[8]
}

spec fn before_part(parts: Seq<Seq<char>>, k: int) -> Seq<char>
    decreases k,
{
    if k <= 0 {
        Seq::empty()
    } else {
        before_part(parts, k - 1) + parts[k - 1] + ":"@
    }
}

spec fn after_part(parts: Seq<Seq<char>>, k: int) -> Seq<char>
    decreases 8 - k,
{
    if k >= 8 {
        Seq::empty()
    } else {
        ":"@ + parts[k + 1] + after_part(parts, k + 1)
    }
}

#[verifier::rlimit(40)]
proof fn joined_around(parts: Seq<Seq<char>>, k: int)
    requires
        parts.len() == 9,
        0 <= k <= 8,
    ensures
        colon_joined(parts) == before_part(parts, k) + parts[k] + after_part(parts, k),
    decreases 8 - k,
{
    if k == 8 {
        assert(before_part(parts, 0) =~= Seq::<char>::empty());
        assert(before_part(parts, 1) =~= parts[0] + ":"@);
        assert(before_part(parts, 2) =~= before_part(parts, 1) + parts[1] + ":"@);
        assert(before_part(parts, 3) =~= before_part(parts, 2) + parts[2] + ":"@);
        assert(before_part(parts, 4) =~= before_part(parts, 3) + parts[3] + ":"@);
        assert(before_part(parts, 5) =~= before_part(parts, 4) + parts[4] + ":"@);
        assert(before_part(parts, 6) =~= before_part(parts, 5) + parts[5] + ":"@);
        assert(before_part(parts, 7) =~= before_part(parts, 6) + parts[6] + ":"@);
        assert(before_part(parts, 8) =~= before_part(parts, 7) + parts[7] + ":"@);
        assert(colon_joined(parts) =~= before_part(parts, 8) + parts[8]);
        assert(after_part(parts, 8) =~= Seq::<char>::empty());
        assert(colon_joined(parts) =~= before_part(parts, 8) + parts[8] + after_part(parts, 8));
    } else {
        joined_around(parts, k + 1);
        assert(before_part(parts, k + 1) == before_part(parts, k) + parts[k] + ":"@);
        assert(after_part(parts, k) == ":"@ + parts[k + 1] + after_part(parts, k + 1));
        assert(before_part(parts, k) + parts[k] + after_part(parts, k) =~= before_part(parts, k + 1)
            + parts[k + 1] + after_part(parts, k + 1));
    }
}

proof fn before_agrees(x: Seq<Seq<char>>, y: Seq<Seq<char>>, k: int)
    requires
        forall|i: int| 0 <= i < k ==> x[i] == y[i],
    ensures
        before_part(x, k) == before_part(y, k),
    decreases k,
{
    if k > 0 {
        before_agrees(x, y, k - 1);
    }
}

proof fn after_agrees(x: Seq<Seq<char>>, y: Seq<Seq<char>>, k: int)
    requires
        forall|i: int| k < i < 9 ==> x[i] == y[i],
    ensures
        after_part(x, k) == after_part(y, k),
    decreases 8 - k,
{
    if k < 8 {
        after_agrees(x, y, k + 1);
    }
}

proof fn one_part_decides(x: Seq<Seq<char>>, y: Seq<Seq<char>>, k: int)
    requires
        x.len() == 9,
        y.len() == 9,
        0 <= k <= 8,
        forall|i: int| 0 <= i < 9 && i != k ==> x[i] == y[i],
        colon_joined(x) == colon_joined(y),
    ensures
        x[k] == y[k],
{
    joined_around(x, k);
    joined_around(y, k);
    before_agrees(x, y, k);
    after_agrees(x, y, k);
    let head = before_part(x, k);
    let tail = after_part(x, k);
    let a = head + x[k] + tail;
    let b = head + y[k] + tail;
    assert(a.len() == b.len());
    assert(a.subrange(head.len() as int, a.len() - tail.len()) =~= x[k]);
    assert(b.subrange(head.len() as int, b.len() - tail.len()) =~= y[k]);
}

proof fn integer_numerals_differ(a: int, b: int)
    requires
        decimal_int(a) == decimal_int(b),
    ensures
        a == b,
{
    if a < 0 && b < 0 {
        assert(decimal_int(a).drop_first() =~= decimal((-a) as nat));
        assert(decimal_int(b).drop_first() =~= decimal((-b) as nat));
        decimal_injective((-a) as nat, (-b) as nat);
    } else if a >= 0 && b >= 0 {
        decimal_injective(a as nat, b as nat);
    } else if a < 0 {
        numeral_starts_with_digit(b as nat);
        assert(decimal_int(a)[0] == '-');
    } else {
        numeral_starts_with_digit(a as nat);
        assert(decimal_int(b)[0] == '-');
    }
}

proof fn numeral_starts_with_digit(n: nat)
    ensures
        decimal(n).len() > 0,
        decimal(n)[0] != '-',
    decreases n,
{
    if n >= 10 {
        numeral_starts_with_digit(n / 10);
        assert(decimal(n)[0] == decimal(n / 10)[0]);
    }
}

/// The text of a run of bytes has two digits for each, the upper half first.
pub proof fn each_byte_has_two_digits(bytes: Seq<u8>, i: int)
    requires
        0 <= i < bytes.len(),
    ensures
        hex_text(bytes).len() == 2 * bytes.len(),
        hex_text(bytes)[2 * i] == hex_digit(bytes[i] as int / 16),
        hex_text(bytes)[2 * i + 1] == hex_digit(bytes[i] as int % 16),
{
    assert((2 * i) / 2 == i && (2 * i + 1) / 2 == i && (2 * i) % 2 == 0 && (2 * i + 1) % 2 == 1);
}

} // verus!
