//! Redaction of credentials and hidden reasoning.

use vstd::prelude::*;

use crate::json::{entries_model, items_model, lookup, Json, JsonValue};
use crate::provenance::canonical::{distinct_keys, same_json};
use crate::text::{ascii_lower, begins_with, contains_text, has_part, has_prefix, lowered};

verus! {

/// Whether a key names confidential data, whatever the case of its letters.
pub open spec fn sensitive_key(key: Seq<char>) -> bool {
    let lower = ascii_lower(key);
    ||| lower == "env"@
    ||| lower == "environment"@
    ||| contains_text(lower, "token"@)
    ||| contains_text(lower, "authorization"@)
    ||| contains_text(lower, "api_key"@)
    ||| contains_text(lower, "apikey"@)
    ||| contains_text(lower, "secret"@)
    ||| contains_text(lower, "password"@)
    ||| contains_text(lower, "passwd"@)
    ||| contains_text(lower, "cookie"@)
    ||| contains_text(lower, "credential"@)
    ||| contains_text(lower, "auth_header"@)
    ||| contains_text(lower, "bearer"@)
    ||| contains_text(lower, "private_key"@)
    ||| contains_text(lower, "privkey"@)
}

/// Whether a key names hidden reasoning, whatever the case of its letters.
pub open spec fn reasoning_key(key: Seq<char>) -> bool {
    let lower = ascii_lower(key);
    ||| contains_text(lower, "reasoning"@)
    ||| contains_text(lower, "chain_of_thought"@)
    ||| contains_text(lower, "cot"@)
    ||| contains_text(lower, "hidden_thoughts"@)
    ||| contains_text(lower, "thinking_trace"@)
    ||| contains_text(lower, "model_trace"@)
    ||| contains_text(lower, "hidden_reasoning"@)
}

/// Whether a text is the value of an authorization header.
pub open spec fn authorization_text(text: Seq<char>) -> bool {
    begins_with(ascii_lower(text), "bearer "@) || begins_with(ascii_lower(text), "basic "@)
}

/// A JSON value with secrets masked and hidden reasoning taken out: entries
/// under reasoning keys are dropped, values under sensitive keys become
/// `[REDACTED]`, and authorization header texts `[REDACTED_AUTH_HEADER]`.
pub open spec fn redacted(value: Json) -> Json
    decreases value,
{
    match value {
        Json::Text(s) => if authorization_text(s) {
            Json::Text("[REDACTED_AUTH_HEADER]"@)
        } else {
            value
        },
        Json::Array(items) => Json::Array(redacted_items(items)),
        Json::Object(entries) => Json::Object(redacted_entries(entries)),
        _ => value,
    }
}

/// The redacted items of an array, in the same order.
pub open spec fn redacted_items(items: Seq<Json>) -> Seq<Json>
    decreases items,
{
    if items.len() == 0 {
        Seq::empty()
    } else {
        redacted_items(items.drop_last()).push(redacted(items.last()))
    }
}

/// The redacted entries of an object, in the same order.
pub open spec fn redacted_entries(entries: Seq<(Seq<char>, Json)>) -> Seq<(Seq<char>, Json)>
    decreases entries,
{
    if entries.len() == 0 {
        Seq::empty()
    } else {
        let rest = redacted_entries(entries.drop_last());
        let key = entries.last().0;
        if reasoning_key(key) {
            rest
        } else if sensitive_key(key) {
            rest.push((key, Json::Text("[REDACTED]"@)))
        } else {
            rest.push((key, redacted(entries.last().1)))
        }
    }
}

/// Centralized redactor that strips confidential credentials, environment
/// variables, authorization headers, tokens, and hidden reasoning.
pub struct AuditRedactor;

fn is_text(chars: &Vec<char>, text: &str) -> (r: bool)
    ensures
        r == (chars@ == text@),
{
    let other = crate::text::chars_of(text);
    if chars.len() != other.len() {
        return false;
    }
    let same = crate::text::is_at(chars.as_slice(), other.as_slice(), 0);
    assert(chars@.subrange(0, chars@.len() as int) =~= chars@);
    same
}

impl AuditRedactor {
    /// Check if a JSON key is sensitive.
    pub fn is_sensitive_key(key: &str) -> (r: bool)
        ensures
            r == sensitive_key(key@),
    {
        let lower = lowered(key);
        if is_text(&lower, "env") || is_text(&lower, "environment") {
            return true;
        }
        let l = lower.as_slice();
        has_part(l, "token") || has_part(l, "authorization") || has_part(l, "api_key") || has_part(
            l,
            "apikey",
        ) || has_part(l, "secret") || has_part(l, "password") || has_part(l, "passwd") || has_part(
            l,
            "cookie",
        ) || has_part(l, "credential") || has_part(l, "auth_header") || has_part(l, "bearer")
            || has_part(l, "private_key") || has_part(l, "privkey")
    }

    /// Check if a JSON key represents hidden reasoning.
    pub fn is_reasoning_key(key: &str) -> (r: bool)
        ensures
            r == reasoning_key(key@),
    {
        let lower = lowered(key);
        let l = lower.as_slice();
        has_part(l, "reasoning") || has_part(l, "chain_of_thought") || has_part(l, "cot")
            || has_part(l, "hidden_thoughts") || has_part(l, "thinking_trace") || has_part(
            l,
            "model_trace",
        ) || has_part(l, "hidden_reasoning")
    }

    /// Redact secrets and strip hidden reasoning from a JSON value.
    pub fn redact_value(value: &JsonValue) -> (r: JsonValue)
        ensures
            r@ == redacted(value@),
        decreases value,
    {
        match value {
            JsonValue::Object(entries) => {
                let mut out: Vec<(String, JsonValue)> = Vec::new();
                let mut i: usize = 0;
                while i < entries.len()
                    invariant
                        i <= entries@.len(),
                        *value is Object,
                        value->Object_0 == *entries,
                        entries_model(out@) == redacted_entries(
                            entries_model(entries@.take(i as int)),
                        ),
                    decreases entries.len() - i,
                {
                    assert(decreases_to!(*value => value->Object_0));
                    assert(decreases_to!(*entries => entries[i as int]));
                    proof {
                        let m = entries_model(entries@.take(i + 1));
                        assert(entries@.take(i + 1).drop_last() =~= entries@.take(i as int));
                        assert(m.drop_last() =~= entries_model(entries@.take(i as int)));
                        assert(m.last() == (entries@[i as int].0@, entries@[i as int].1@));
                    }
                    let key = &entries[i].0;
                    if !AuditRedactor::is_reasoning_key(key.as_str()) {
                        let item = if AuditRedactor::is_sensitive_key(key.as_str()) {
                            JsonValue::Text("[REDACTED]".to_owned())
                        } else {
                            AuditRedactor::redact_value(&entries[i].1)
                        };
                        let entry = (key.clone(), item);
                        assert(item@ == redacted_under(key@, entries@[i as int].1@));
                        assert(out@.push(entry).drop_last() =~= out@);
                        out.push(entry);
                    }
                    i += 1;
                }
                assert(entries@.take(i as int) =~= entries@);
                JsonValue::Object(out)
            },
            JsonValue::Array(items) => {
                let mut out: Vec<JsonValue> = Vec::new();
                let mut i: usize = 0;
                while i < items.len()
                    invariant
                        i <= items@.len(),
                        *value is Array,
                        value->Array_0 == *items,
                        items_model(out@) == redacted_items(items_model(items@.take(i as int))),
                    decreases items.len() - i,
                {
                    assert(decreases_to!(*value => value->Array_0));
                    assert(decreases_to!(*items => items[i as int]));
                    let item = AuditRedactor::redact_value(&items[i]);
                    proof {
                        let m = items_model(items@.take(i + 1));
                        assert(items@.take(i + 1).drop_last() =~= items@.take(i as int));
                        assert(m.drop_last() =~= items_model(items@.take(i as int)));
                        assert(out@.push(item).drop_last() =~= out@);
                    }
                    out.push(item);
                    i += 1;
                }
                assert(items@.take(i as int) =~= items@);
                JsonValue::Array(out)
            },
            JsonValue::Text(s) => {
                let lower = lowered(s.as_str());
                if has_prefix(lower.as_slice(), "bearer ") || has_prefix(
                    lower.as_slice(),
                    "basic ",
                ) {
                    JsonValue::Text("[REDACTED_AUTH_HEADER]".to_owned())
                } else {
                    JsonValue::Text(s.clone())
                }
            },
            other => other.copy(),
        }
    }
}

/// Whether a value holds nothing that redaction would touch: no entry under
/// a reasoning key, only the mask under a sensitive key, and no authorization
/// header text.
pub open spec fn clean(value: Json) -> bool
    decreases value,
{
    match value {
        Json::Text(s) => !authorization_text(s),
        Json::Array(items) => forall|i: int| 0 <= i < items.len() ==> clean(#[trigger] items[i]),
        Json::Object(entries) => forall|i: int|
            0 <= i < entries.len() ==> {
                let e = #[trigger] entries[i];
                &&& !reasoning_key(e.0)
                &&& if sensitive_key(e.0) {
                    e.1 == Json::Text("[REDACTED]"@)
                } else {
                    clean(e.1)
                }
            },
        _ => true,
    }
}

proof fn masks_are_no_headers()
    ensures
        !authorization_text("[REDACTED]"@),
        !authorization_text("[REDACTED_AUTH_HEADER]"@),
{
    reveal_strlit("[REDACTED]");
    reveal_strlit("[REDACTED_AUTH_HEADER]");
    reveal_strlit("bearer ");
    reveal_strlit("basic ");
    let a = ascii_lower("[REDACTED]"@);
    let b = ascii_lower("[REDACTED_AUTH_HEADER]"@);
    assert(a[0] == '[');
    assert(b[0] == '[');
    assert("bearer "@[0] == 'b');
    assert("basic "@[0] == 'b');
    assert(a.subrange(0, 7)[0] == a[0]);
    assert(b.subrange(0, 7)[0] == b[0]);
    assert(a.subrange(0, 6)[0] == a[0]);
    assert(b.subrange(0, 6)[0] == b[0]);
}

proof fn redacted_items_index(items: Seq<Json>)
    ensures
        redacted_items(items).len() == items.len(),
        forall|i: int|
            0 <= i < items.len() ==> #[trigger] redacted_items(items)[i] == redacted(items[i]),
    decreases items.len(),
{
    if items.len() > 0 {
        redacted_items_index(items.drop_last());
    }
}

/// The redacted form of the value under a key that is no reasoning key.
pub open spec fn redacted_under(key: Seq<char>, value: Json) -> Json {
    if sensitive_key(key) {
        Json::Text("[REDACTED]"@)
    } else {
        redacted(value)
    }
}

/// Every redacted entry comes from an entry of the same key, which is no
/// reasoning key.
proof fn redacted_entry_source(entries: Seq<(Seq<char>, Json)>, i: int) -> (j: int)
    requires
        0 <= i < redacted_entries(entries).len(),
    ensures
        0 <= j < entries.len(),
        i <= j,
        redacted_entries(entries)[i].0 == entries[j].0,
        !reasoning_key(entries[j].0),
        redacted_entries(entries)[i].1 == redacted_under(entries[j].0, entries[j].1),
    decreases entries.len(),
{
    let rest = redacted_entries(entries.drop_last());
    redacted_entries_bound(entries.drop_last());
    if i < rest.len() {
        redacted_entry_source(entries.drop_last(), i)
    } else {
        entries.len() - 1
    }
}

proof fn redacted_entries_bound(entries: Seq<(Seq<char>, Json)>)
    ensures
        redacted_entries(entries).len() <= entries.len(),
    decreases entries.len(),
{
    if entries.len() > 0 {
        redacted_entries_bound(entries.drop_last());
    }
}

/// Redaction leaves nothing to redact: whatever was put in, no reasoning key
/// is left at any depth, sensitive keys hold only the mask, and no
/// authorization header text is left.
pub proof fn redacted_is_clean(value: Json)
    ensures
        clean(redacted(value)),
    decreases value,
{
    masks_are_no_headers();
    match value {
        Json::Array(items) => {
            redacted_items_index(items);
            assert forall|i: int| 0 <= i < items.len() implies clean(
                #[trigger] redacted_items(items)[i],
            ) by {
                redacted_is_clean(items[i]);
            }
        },
        Json::Object(entries) => {
            let r = redacted_entries(entries);
            assert forall|i: int| 0 <= i < r.len() implies {
                let e = #[trigger] r[i];
                &&& !reasoning_key(e.0)
                &&& if sensitive_key(e.0) {
                    e.1 == Json::Text("[REDACTED]"@)
                } else {
                    clean(e.1)
                }
            } by {
                let j = redacted_entry_source(entries, i);
                redacted_is_clean(entries[j].1);
            }
        },
        _ => {},
    }
}

/// A clean value is left as it is.
pub proof fn clean_is_kept(value: Json)
    requires
        clean(value),
    ensures
        redacted(value) == value,
    decreases value,
{
    match value {
        Json::Array(items) => {
            redacted_items_index(items);
            assert forall|i: int| 0 <= i < items.len() implies #[trigger] redacted_items(items)[i]
                == items[i] by {
                clean_is_kept(items[i]);
            }
            assert(redacted_items(items) =~= items);
        },
        Json::Object(entries) => {
            clean_entries_kept(entries);
        },
        _ => {},
    }
}

proof fn clean_entries_kept(entries: Seq<(Seq<char>, Json)>)
    requires
        clean(Json::Object(entries)),
    ensures
        redacted_entries(entries) == entries,
    decreases entries,
{
    if entries.len() > 0 {
        let rest = entries.drop_last();
        assert forall|i: int| 0 <= i < rest.len() implies {
            let e = #[trigger] rest[i];
            &&& !reasoning_key(e.0)
            &&& if sensitive_key(e.0) {
                e.1 == Json::Text("[REDACTED]"@)
            } else {
                clean(e.1)
            }
        } by {
            assert(rest[i] == entries[i]);
        }
        clean_entries_kept(rest);
        let e = entries[entries.len() - 1];
        if !sensitive_key(e.0) {
            clean_is_kept(e.1);
        }
        assert(redacted_entries(entries) =~= entries);
    } else {
        assert(redacted_entries(entries) =~= entries);
    }
}

/// Redacting twice is redacting once.
pub proof fn redacted_idempotent(value: Json)
    ensures
        redacted(redacted(value)) == redacted(value),
{
    redacted_is_clean(value);
    clean_is_kept(redacted(value));
}

proof fn redacted_lookup(entries: Seq<(Seq<char>, Json)>, k: Seq<char>)
    ensures
        lookup(redacted_entries(entries), k) == (if reasoning_key(k) {
            None
        } else {
            match lookup(entries, k) {
                Some(v) => Some(redacted_under(k, v)),
                None => None,
            }
        }),
    decreases entries.len(),
{
    if entries.len() > 0 {
        let rest = redacted_entries(entries.drop_last());
        redacted_lookup(entries.drop_last(), k);
        if !reasoning_key(entries.last().0) {
            assert(redacted_entries(entries).drop_last() =~= rest);
        }
    }
}

proof fn redacted_keys_apart(entries: Seq<(Seq<char>, Json)>)
    requires
        forall|i: int, j: int|
            0 <= i < j < entries.len() ==> (#[trigger] entries[i]).0 != (#[trigger] entries[j]).0,
    ensures
        forall|i: int, j: int|
            0 <= i < j < redacted_entries(entries).len() ==> (#[trigger] redacted_entries(
                entries,
            )[i]).0 != (#[trigger] redacted_entries(entries)[j]).0,
    decreases entries.len(),
{
    if entries.len() > 0 {
        let before = entries.drop_last();
        let rest = redacted_entries(before);
        redacted_keys_apart(before);
        let r = redacted_entries(entries);
        assert forall|i: int, j: int| 0 <= i < j < r.len() implies (#[trigger] r[i]).0 != (
        #[trigger] r[j]).0 by {
            assert(r[i] == rest[i]);
            if j < rest.len() {
                assert(r[j] == rest[j]);
            } else {
                let s = redacted_entry_source(before, i);
                assert(entries[s].0 != entries[entries.len() - 1].0);
            }
        }
    }
}

/// Redaction keeps the keys of every object distinct.
pub proof fn redacted_distinct_keys(value: Json)
    requires
        distinct_keys(value),
    ensures
        distinct_keys(redacted(value)),
    decreases value,
{
    match value {
        Json::Array(items) => {
            redacted_items_index(items);
            assert forall|i: int| 0 <= i < items.len() implies distinct_keys(
                #[trigger] redacted_items(items)[i],
            ) by {
                redacted_distinct_keys(items[i]);
            }
        },
        Json::Object(entries) => {
            redacted_keys_apart(entries);
            let r = redacted_entries(entries);
            assert forall|i: int| 0 <= i < r.len() implies distinct_keys((#[trigger] r[i]).1) by {
                let j = redacted_entry_source(entries, i);
                redacted_distinct_keys(entries[j].1);
            }
        },
        _ => {},
    }
}

/// Values that are the same but for the order of object entries stay so when
/// they are redacted.
pub proof fn redacted_same(a: Json, b: Json)
    requires
        same_json(a, b),
    ensures
        same_json(redacted(a), redacted(b)),
    decreases a,
{
    match (a, b) {
        (Json::Array(x), Json::Array(y)) => {
            redacted_items_index(x);
            redacted_items_index(y);
            assert forall|i: int| 0 <= i < x.len() implies same_json(
                #[trigger] redacted_items(x)[i],
                redacted_items(y)[i],
            ) by {
                assert(same_json(x[i], y[i]));
                redacted_same(x[i], y[i]);
            }
        },
        (Json::Object(x), Json::Object(y)) => {
            let r = redacted_entries(x);
            let s = redacted_entries(y);
            assert forall|k: Seq<char>| #[trigger] lookup(r, k) is Some <==> lookup(s, k) is Some by {
                redacted_lookup(x, k);
                redacted_lookup(y, k);
                assert(lookup(x, k) is Some <==> lookup(y, k) is Some);
            }
            assert forall|i: int, j: int|
                0 <= i < r.len() && 0 <= j < s.len() && (#[trigger] r[i]).0 == (#[trigger] s[j]).0 implies same_json(
                r[i].1,
                s[j].1,
            ) by {
                let p = redacted_entry_source(x, i);
                let q = redacted_entry_source(y, j);
                assert(x[p].0 == y[q].0);
                assert(same_json(x[p].1, y[q].1));
                redacted_same(x[p].1, y[q].1);
            }
        },
        _ => {},
    }
}

/// Whether two values differ only in what redaction takes out: the order of
/// object entries, fields under reasoning keys, values under sensitive keys,
/// and the texts of authorization headers.
pub open spec fn same_but_secrets(a: Json, b: Json) -> bool
    decreases a,
{
    match (a, b) {
        (Json::Text(s), Json::Text(t)) => s == t || (authorization_text(s) && authorization_text(t)),
        (Json::Array(x), Json::Array(y)) => {
            &&& x.len() == y.len()
            &&& forall|i: int| 0 <= i < x.len() ==> same_but_secrets(#[trigger] x[i], y[i])
        },
        (Json::Object(x), Json::Object(y)) => {
            &&& forall|k: Seq<char>|
                !reasoning_key(k) ==> (#[trigger] lookup(x, k) is Some <==> lookup(y, k) is Some)
            &&& forall|i: int, j: int|
                0 <= i < x.len() && 0 <= j < y.len() && (#[trigger] x[i]).0 == (#[trigger] y[j]).0
                    && !reasoning_key(x[i].0) && !sensitive_key(x[i].0) ==> same_but_secrets(
                    x[i].1,
                    y[j].1,
                )
        },
        _ => a == b,
    }
}

/// Values that differ only in secrets are redacted to the same value, but for
/// the order of object entries.
pub proof fn redacted_hides_secrets(a: Json, b: Json)
    requires
        same_but_secrets(a, b),
    ensures
        same_json(redacted(a), redacted(b)),
    decreases a,
{
    match (a, b) {
        (Json::Array(x), Json::Array(y)) => {
            redacted_items_index(x);
            redacted_items_index(y);
            assert forall|i: int| 0 <= i < x.len() implies same_json(
                #[trigger] redacted_items(x)[i],
                redacted_items(y)[i],
            ) by {
                assert(same_but_secrets(x[i], y[i]));
                redacted_hides_secrets(x[i], y[i]);
            }
        },
        (Json::Object(x), Json::Object(y)) => {
            let r = redacted_entries(x);
            let s = redacted_entries(y);
            assert forall|k: Seq<char>| #[trigger] lookup(r, k) is Some <==> lookup(s, k) is Some by {
                redacted_lookup(x, k);
                redacted_lookup(y, k);
                if !reasoning_key(k) {
                    assert(lookup(x, k) is Some <==> lookup(y, k) is Some);
                }
            }
            assert forall|i: int, j: int|
                0 <= i < r.len() && 0 <= j < s.len() && (#[trigger] r[i]).0 == (#[trigger] s[j]).0 implies same_json(
                r[i].1,
                s[j].1,
            ) by {
                let p = redacted_entry_source(x, i);
                let q = redacted_entry_source(y, j);
                assert(x[p].0 == y[q].0);
                if !sensitive_key(x[p].0) {
                    assert(same_but_secrets(x[p].1, y[q].1));
                    redacted_hides_secrets(x[p].1, y[q].1);
                }
            }
        },
        _ => {},
    }
}

/// A key with one of these words in it is sensitive, in any case and wherever
/// the word stands, as is a key that names the environment; no other key is.
pub proof fn secret_words_make_a_key_sensitive(key: Seq<char>)
    ensures
        contains_text(ascii_lower(key), "token"@) ==> sensitive_key(key),
        contains_text(ascii_lower(key), "authorization"@) ==> sensitive_key(key),
        contains_text(ascii_lower(key), "api_key"@) ==> sensitive_key(key),
        contains_text(ascii_lower(key), "apikey"@) ==> sensitive_key(key),
        contains_text(ascii_lower(key), "secret"@) ==> sensitive_key(key),
        contains_text(ascii_lower(key), "password"@) ==> sensitive_key(key),
        contains_text(ascii_lower(key), "passwd"@) ==> sensitive_key(key),
        contains_text(ascii_lower(key), "cookie"@) ==> sensitive_key(key),
        contains_text(ascii_lower(key), "credential"@) ==> sensitive_key(key),
        contains_text(ascii_lower(key), "auth_header"@) ==> sensitive_key(key),
        contains_text(ascii_lower(key), "bearer"@) ==> sensitive_key(key),
        contains_text(ascii_lower(key), "private_key"@) ==> sensitive_key(key),
        contains_text(ascii_lower(key), "privkey"@) ==> sensitive_key(key),
        ascii_lower(key) == "env"@ ==> sensitive_key(key),
        ascii_lower(key) == "environment"@ ==> sensitive_key(key),
        sensitive_key(key) && ascii_lower(key) != "env"@ && ascii_lower(key) != "environment"@
            ==> contains_text(ascii_lower(key), "token"@)
            || contains_text(ascii_lower(key), "authorization"@)
            || contains_text(ascii_lower(key), "api_key"@)
            || contains_text(ascii_lower(key), "apikey"@)
            || contains_text(ascii_lower(key), "secret"@)
            || contains_text(ascii_lower(key), "password"@)
            || contains_text(ascii_lower(key), "passwd"@)
            || contains_text(ascii_lower(key), "cookie"@)
            || contains_text(ascii_lower(key), "credential"@)
            || contains_text(ascii_lower(key), "auth_header"@)
            || contains_text(ascii_lower(key), "bearer"@)
            || contains_text(ascii_lower(key), "private_key"@)
            || contains_text(ascii_lower(key), "privkey"@),
{
}

/// A key with one of these words in it names hidden reasoning, in any case and
/// wherever the word stands; no other key does.
pub proof fn reasoning_words_make_a_key_hidden(key: Seq<char>)
    ensures
        contains_text(ascii_lower(key), "reasoning"@) ==> reasoning_key(key),
        contains_text(ascii_lower(key), "chain_of_thought"@) ==> reasoning_key(key),
        contains_text(ascii_lower(key), "cot"@) ==> reasoning_key(key),
        contains_text(ascii_lower(key), "hidden_thoughts"@) ==> reasoning_key(key),
        contains_text(ascii_lower(key), "thinking_trace"@) ==> reasoning_key(key),
        contains_text(ascii_lower(key), "model_trace"@) ==> reasoning_key(key),
        contains_text(ascii_lower(key), "hidden_reasoning"@) ==> reasoning_key(key),
        reasoning_key(key) ==> contains_text(ascii_lower(key), "reasoning"@)
            || contains_text(ascii_lower(key), "chain_of_thought"@)
            || contains_text(ascii_lower(key), "cot"@)
            || contains_text(ascii_lower(key), "hidden_thoughts"@)
            || contains_text(ascii_lower(key), "thinking_trace"@)
            || contains_text(ascii_lower(key), "model_trace"@)
            || contains_text(ascii_lower(key), "hidden_reasoning"@),
{
}

/// Whether a key is sensitive or names hidden reasoning does not depend on the
/// case of its letters.
pub proof fn key_classes_ignore_case(a: Seq<char>, b: Seq<char>)
    requires
        ascii_lower(a) == ascii_lower(b),
    ensures
        sensitive_key(a) == sensitive_key(b),
        reasoning_key(a) == reasoning_key(b),
{
}

/// A text is masked exactly when it begins like the value of an authorization
/// header, in any case; any other text, a number, a truth value and null are
/// kept as they are.
pub proof fn plain_values_are_kept(text: Seq<char>, number: Seq<char>, b: bool)
    ensures
        begins_with(ascii_lower(text), "bearer "@) ==> redacted(Json::Text(text)) == Json::Text(
            "[REDACTED_AUTH_HEADER]"@,
        ),
        begins_with(ascii_lower(text), "basic "@) ==> redacted(Json::Text(text)) == Json::Text(
            "[REDACTED_AUTH_HEADER]"@,
        ),
        !begins_with(ascii_lower(text), "bearer "@) && !begins_with(ascii_lower(text), "basic "@)
            ==> redacted(Json::Text(text)) == Json::Text(text),
        redacted(Json::Number(number)) == Json::Number(number),
        redacted(Json::Bool(b)) == Json::Bool(b),
        redacted(Json::Null) == Json::Null,
{
}

/// One more entry of an object: dropped under a reasoning key, masked under a
/// sensitive one, and else kept under its key with its value redacted. The
/// entries before it are redacted as without it. The items of an array are
/// redacted each at its place.
pub proof fn each_entry_is_redacted_by_its_key(
    entries: Seq<(Seq<char>, Json)>,
    key: Seq<char>,
    value: Json,
    items: Seq<Json>,
    i: int,
)
    ensures
        ({
            let before = redacted_entries(entries);
            let after = redacted_entries(entries.push((key, value)));
            &&& reasoning_key(key) ==> after == before
            &&& !reasoning_key(key) ==> after.len() == before.len() + 1 && after.drop_last()
                == before && after.last().0 == key
            &&& !reasoning_key(key) && sensitive_key(key) ==> after.last().1 == Json::Text(
                "[REDACTED]"@,
            )
            &&& !reasoning_key(key) && !sensitive_key(key) ==> after.last().1 == redacted(value)
        }),
        redacted(Json::Object(entries)) == Json::Object(redacted_entries(entries)),
        redacted(Json::Array(items)) matches Json::Array(kept) && kept.len() == items.len() && (0
            <= i < items.len() ==> kept[i] == redacted(items[i])),
{
    assert(entries.push((key, value)).drop_last() =~= entries);
    if !reasoning_key(key) {
        assert(redacted_entries(entries.push((key, value))).drop_last() =~= redacted_entries(
            entries,
        ));
    }
    redacted_items_index(items);
}

} // verus!
