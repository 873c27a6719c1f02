//! Canonical JSON: the entries of every object in ascending key order.

use vstd::prelude::*;

use crate::json::{entries_model, entries_model_index, items_model};
use crate::json::{json_text, lookup, Json, JsonValue};
use crate::text::{same_text, text_before, text_lt};
use crate::text::{text_lt_asymmetric, text_lt_irreflexive, text_lt_total, text_lt_transitive};

verus! {

/// Sorted entries with a key set to a value.
pub open spec fn put(entries: Seq<(Seq<char>, Json)>, key: Seq<char>, value: Json) -> Seq<
    (Seq<char>, Json),
>
    decreases entries.len(),
{
    if entries.len() == 0 {
        seq![(key, value)]
    } else if entries.last().0 == key {
        entries.drop_last().push((key, value))
    } else if text_lt(entries.last().0, key) {
        entries.push((key, value))
    } else {
        put(entries.drop_last(), key, value).push(entries.last())
    }
}

/// The canonical form of a JSON value: every object has its entries in
/// ascending order of their keys.
pub open spec fn canonical(value: Json) -> Json
    decreases value,
{
    match value {
        Json::Array(items) => Json::Array(canonical_items(items)),
        Json::Object(entries) => Json::Object(canonical_entries(entries)),
        _ => value,
    }
}

/// The canonical forms of array items, in the same order.
pub open spec fn canonical_items(items: Seq<Json>) -> Seq<Json>
    decreases items,
{
    if items.len() == 0 {
        Seq::empty()
    } else {
        canonical_items(items.drop_last()).push(canonical(items.last()))
    }
}

/// The canonical entries of an object, in ascending order of their keys; of
/// two entries of one key the later one counts.
pub open spec fn canonical_entries(entries: Seq<(Seq<char>, Json)>) -> Seq<(Seq<char>, Json)>
    decreases entries,
{
    if entries.len() == 0 {
        Seq::empty()
    } else {
        put(
            canonical_entries(entries.drop_last()),
            entries.last().0,
            canonical(entries.last().1),
        )
    }
}

/// Whether the keys ascend strictly.
pub open spec fn ascending(entries: Seq<(Seq<char>, Json)>) -> bool {
    forall|i: int, j: int|
        0 <= i < j < entries.len() ==> text_lt(#[trigger] entries[i].0, #[trigger] entries[j].0)
}

proof fn put_prefix(entries: Seq<(Seq<char>, Json)>, n: int, key: Seq<char>, value: Json)
    requires
        0 <= n < entries.len(),
        forall|j: int| n <= j < entries.len() ==> text_lt(key, #[trigger] entries[j].0),
    ensures
        put(entries, key, value) == put(entries.take(n), key, value) + entries.skip(n),
    decreases entries.len(),
{
    let last = entries.last();
    assert(text_lt(key, entries[entries.len() - 1].0));
    text_lt_asymmetric(key, last.0);
    text_lt_irreflexive(key);
    let rest = entries.drop_last();
    if n == entries.len() - 1 {
        assert(rest =~= entries.take(n));
        assert(put(entries, key, value) =~= put(entries.take(n), key, value) + entries.skip(n));
    } else {
        put_prefix(rest, n, key, value);
        assert(rest.take(n) =~= entries.take(n));
        assert(put(entries, key, value) =~= put(entries.take(n), key, value) + entries.skip(n));
    }
}

fn put_entry(out: &mut Vec<(String, JsonValue)>, key: &String, value: JsonValue)
    ensures
        entries_model(final(out)@) == put(entries_model(old(out)@), key@, value@),
{
    let ghost before = out@;
    let ghost m = entries_model(before);
    proof {
        entries_model_index(before);
        assert(m.take(m.len() as int) =~= m);
        assert(m.skip(m.len() as int) =~= Seq::<(Seq<char>, Json)>::empty());
    }
    let mut i: usize = out.len();
    while i > 0 && text_before(key.as_str(), out[i - 1].0.as_str())
        invariant
            i <= out@.len(),
            out@ == before,
            m == entries_model(before),
            m.len() == before.len(),
            forall|j: int|
                0 <= j < before.len() ==> #[trigger] m[j] == (before[j].0@, before[j].1@),
            forall|j: int| i <= j < m.len() ==> text_lt(key@, #[trigger] m[j].0),
        decreases i,
    {
        assert(m[i - 1] == (before[i - 1].0@, before[i - 1].1@));
        i -= 1;
    }
    let ghost head = m.take(i as int);
    proof {
        if i < m.len() {
            put_prefix(m, i as int, key@, value@);
        } else {
            assert(put(m, key@, value@) =~= put(m.take(i as int), key@, value@) + m.skip(i as int));
        }
    }
    if i > 0 && same_text(out[i - 1].0.as_str(), key.as_str()) {
        proof {
            assert(m[i - 1] == (before[i - 1].0@, before[i - 1].1@));
            assert(head.last() == m[i - 1]);
        }
        out.set(i - 1, (key.clone(), value));
        proof {
            entries_model_index(out@);
            assert(entries_model(out@) =~= put(m, key@, value@));
        }
    } else {
        proof {
            if i > 0 {
                assert(m[i - 1] == (before[i - 1].0@, before[i - 1].1@));
                assert(head.last() == m[i - 1]);
                text_lt_total(m[i - 1].0, key@);
            }
        }
        out.insert(i, (key.clone(), value));
        proof {
            entries_model_index(out@);
            assert(put(head, key@, value@) =~= head.push((key@, value@)));
            assert(entries_model(out@) =~= put(m, key@, value@));
        }
    }
}

/// Recursively puts the entries of all JSON objects in ascending key order.
pub fn canonicalize_json(value: &JsonValue) -> (r: JsonValue)
    ensures
        r@ == canonical(value@),
    decreases value,
{
    match value {
        JsonValue::Object(entries) => {
            let mut sorted: Vec<(String, JsonValue)> = Vec::new();
            let mut i: usize = 0;
            while i < entries.len()
                invariant
                    i <= entries@.len(),
                    *value is Object,
                    value->Object_0 == *entries,
                    entries_model(sorted@) == canonical_entries(
                        entries_model(entries@.take(i as int)),
                    ),
                decreases entries.len() - i,
            {
                assert(decreases_to!(*value => value->Object_0));
                assert(decreases_to!(*entries => entries[i as int]));
                let item = canonicalize_json(&entries[i].1);
                proof {
                    let m = entries_model(entries@.take(i + 1));
                    assert(entries@.take(i + 1).drop_last() =~= entries@.take(i as int));
                    assert(m.drop_last() =~= entries_model(entries@.take(i as int)));
                }
                put_entry(&mut sorted, &entries[i].0, item);
                i += 1;
            }
            assert(entries@.take(i as int) =~= entries@);
            JsonValue::Object(sorted)
        },
        JsonValue::Array(items) => {
            let mut out: Vec<JsonValue> = Vec::new();
            let mut i: usize = 0;
            while i < items.len()
                invariant
                    i <= items@.len(),
                    *value is Array,
                    value->Array_0 == *items,
                    items_model(out@) == canonical_items(items_model(items@.take(i as int))),
                decreases items.len() - i,
            {
                assert(decreases_to!(*value => value->Array_0));
                assert(decreases_to!(*items => items[i as int]));
                let item = canonicalize_json(&items[i]);
                proof {
                    let m = items_model(items@.take(i + 1));
                    assert(items@.take(i + 1).drop_last() =~= items@.take(i as int));
                    assert(m.drop_last() =~= items_model(items@.take(i as int)));
                    assert(out@.push(item).drop_last() =~= out@);
                }
                out.push(item);
                i += 1;
            }
            assert(items@.take(i as int) =~= items@);
            JsonValue::Array(out)
        },
        other => other.copy(),
    }
}

/// Serializes a JSON value to its deterministic canonical string.
pub fn canonical_json_string(value: &JsonValue) -> (r: String)
    ensures
        r@ == json_text(canonical(value@)),
{
    canonicalize_json(value).to_text()
}

proof fn put_ascending(entries: Seq<(Seq<char>, Json)>, key: Seq<char>, value: Json)
    requires
        ascending(entries),
    ensures
        ascending(put(entries, key, value)),
        forall|i: int|
            0 <= i < put(entries, key, value).len() ==> (#[trigger] put(entries, key, value)[i]).0
                == key || exists|j: int|
                0 <= j < entries.len() && entries[j].0 == put(entries, key, value)[i].0,
    decreases entries.len(),
{
    let r = put(entries, key, value);
    if entries.len() > 0 {
        let rest = entries.drop_last();
        let last = entries.last();
        assert(ascending(rest));
        if last.0 == key {
            assert forall|i: int, j: int| 0 <= i < j < r.len() implies text_lt(
                #[trigger] r[i].0,
                #[trigger] r[j].0,
            ) by {
                assert(r[i].0 == entries[i].0);
                assert(r[j].0 == entries[j].0);
            }
            assert forall|i: int| 0 <= i < r.len() implies (#[trigger] r[i]).0 == key || exists|j: int|
                0 <= j < entries.len() && entries[j].0 == r[i].0 by {
                assert(entries[i].0 == r[i].0);
            }
        } else if text_lt(last.0, key) {
            assert forall|i: int, j: int| 0 <= i < j < r.len() implies text_lt(
                #[trigger] r[i].0,
                #[trigger] r[j].0,
            ) by {
                assert(r[i] == entries[i]);
                if j == r.len() - 1 {
                    if i < entries.len() - 1 {
                        assert(text_lt(entries[i].0, entries[entries.len() - 1].0));
                        text_lt_transitive(entries[i].0, last.0, key);
                    }
                } else {
                    assert(r[j] == entries[j]);
                }
            }
            assert forall|i: int| 0 <= i < r.len() implies (#[trigger] r[i]).0 == key || exists|j: int|
                0 <= j < entries.len() && entries[j].0 == r[i].0 by {
                if i < entries.len() {
                    assert(entries[i].0 == r[i].0);
                }
            }
        } else {
            put_ascending(rest, key, value);
            text_lt_total(last.0, key);
            let s = put(rest, key, value);
            assert forall|i: int, j: int| 0 <= i < j < r.len() implies text_lt(
                #[trigger] r[i].0,
                #[trigger] r[j].0,
            ) by {
                if j == r.len() - 1 {
                    assert(r[i] == s[i]);
                    if s[i].0 != key {
                        let k = choose|k: int| 0 <= k < rest.len() && rest[k].0 == s[i].0;
                        assert(text_lt(entries[k].0, entries[entries.len() - 1].0));
                    }
                } else {
                    assert(r[i] == s[i]);
                    assert(r[j] == s[j]);
                }
            }
            assert forall|i: int| 0 <= i < r.len() implies (#[trigger] r[i]).0 == key || exists|j: int|
                0 <= j < entries.len() && entries[j].0 == r[i].0 by {
                if i < s.len() {
                    assert(r[i] == s[i]);
                    if s[i].0 != key {
                        let k = choose|k: int| 0 <= k < rest.len() && rest[k].0 == s[i].0;
                        assert(entries[k].0 == r[i].0);
                    }
                } else {
                    assert(entries[entries.len() - 1].0 == r[i].0);
                }
            }
        }
    }
}

proof fn put_lookup(entries: Seq<(Seq<char>, Json)>, key: Seq<char>, value: Json, k: Seq<char>)
    requires
        ascending(entries),
    ensures
        lookup(put(entries, key, value), k) == (if k == key {
            Some(value)
        } else {
            lookup(entries, k)
        }),
    decreases entries.len(),
{
    reveal_with_fuel(lookup, 2);
    let r = put(entries, key, value);
    if entries.len() == 0 {
        assert(r.drop_last() =~= Seq::<(Seq<char>, Json)>::empty());
    } else {
        let rest = entries.drop_last();
        let last = entries.last();
        assert(ascending(rest));
        if last.0 == key {
            assert(r.drop_last() =~= rest);
        } else if text_lt(last.0, key) {
            assert(r.drop_last() =~= entries);
        } else {
            put_lookup(rest, key, value, k);
            assert(r.drop_last() =~= put(rest, key, value));
        }
    }
}

/// The canonical entries of an object ascend strictly by key.
pub proof fn canonical_entries_ascend(entries: Seq<(Seq<char>, Json)>)
    ensures
        ascending(canonical_entries(entries)),
    decreases entries.len(),
{
    if entries.len() > 0 {
        canonical_entries_ascend(entries.drop_last());
        put_ascending(
            canonical_entries(entries.drop_last()),
            entries.last().0,
            canonical(entries.last().1),
        );
    }
}

/// Canonicalization keeps every key with the canonical form of its value.
pub proof fn canonical_entries_lookup(entries: Seq<(Seq<char>, Json)>, k: Seq<char>)
    ensures
        lookup(canonical_entries(entries), k) == (match lookup(entries, k) {
            Some(v) => Some(canonical(v)),
            None => None,
        }),
    decreases entries.len(),
{
    if entries.len() > 0 {
        canonical_entries_ascend(entries.drop_last());
        canonical_entries_lookup(entries.drop_last(), k);
        put_lookup(
            canonical_entries(entries.drop_last()),
            entries.last().0,
            canonical(entries.last().1),
            k,
        );
    }
}

proof fn lookup_index(entries: Seq<(Seq<char>, Json)>, k: Seq<char>) -> (i: int)
    requires
        lookup(entries, k) is Some,
    ensures
        0 <= i < entries.len(),
        entries[i].0 == k,
        lookup(entries, k) == Some(entries[i].1),
    decreases entries.len(),
{
    if entries.last().0 == k {
        entries.len() - 1
    } else {
        lookup_index(entries.drop_last(), k)
    }
}

proof fn lookup_present(entries: Seq<(Seq<char>, Json)>, i: int)
    requires
        0 <= i < entries.len(),
    ensures
        lookup(entries, entries[i].0) is Some,
    decreases entries.len(),
{
    if i < entries.len() - 1 && entries.last().0 != entries[i].0 {
        lookup_present(entries.drop_last(), i);
    }
}

proof fn ascending_lookup_last(entries: Seq<(Seq<char>, Json)>, k: Seq<char>)
    requires
        ascending(entries),
        entries.len() > 0,
        lookup(entries.drop_last(), k) is Some,
    ensures
        text_lt(k, entries.last().0),
        k != entries.last().0,
{
    let i = lookup_index(entries.drop_last(), k);
    assert(text_lt(entries[i].0, entries[entries.len() - 1].0));
    text_lt_irreflexive(k);
}

proof fn ascending_unique(a: Seq<(Seq<char>, Json)>, b: Seq<(Seq<char>, Json)>)
    requires
        ascending(a),
        ascending(b),
        forall|k: Seq<char>| #[trigger] lookup(a, k) == lookup(b, k),
    ensures
        a == b,
    decreases a.len(),
{
    if a.len() == 0 {
        if b.len() > 0 {
            lookup_present(b, b.len() - 1);
            assert(lookup(a, b.last().0) == lookup(b, b.last().0));
        }
        assert(a =~= b);
    } else {
        lookup_present(a, a.len() - 1);
        assert(lookup(a, a.last().0) == lookup(b, a.last().0));
        assert(b.len() > 0);
        lookup_present(b, b.len() - 1);
        assert(lookup(a, b.last().0) == lookup(b, b.last().0));
        if a.last().0 != b.last().0 {
            ascending_lookup_last(a, b.last().0);
            ascending_lookup_last(b, a.last().0);
            text_lt_asymmetric(a.last().0, b.last().0);
        }
        let ra = a.drop_last();
        let rb = b.drop_last();
        assert(ascending(ra));
        assert(ascending(rb));
        assert forall|k: Seq<char>| #[trigger] lookup(ra, k) == lookup(rb, k) by {
            assert(lookup(a, k) == lookup(b, k));
            if lookup(ra, k) is Some {
                ascending_lookup_last(a, k);
            }
            if lookup(rb, k) is Some {
                ascending_lookup_last(b, k);
            }
        }
        ascending_unique(ra, rb);
        assert(a =~= ra.push(a.last()));
        assert(b =~= rb.push(b.last()));
    }
}

/// Whether no object in the value has a key twice.
pub open spec fn distinct_keys(value: Json) -> bool
    decreases value,
{
    match value {
        Json::Array(items) => forall|i: int|
            0 <= i < items.len() ==> distinct_keys(#[trigger] items[i]),
        Json::Object(entries) => {
            &&& forall|i: int, j: int|
                0 <= i < j < entries.len() ==> (#[trigger] entries[i]).0 != (#[trigger] entries[j]).0
            &&& forall|i: int| 0 <= i < entries.len() ==> distinct_keys((#[trigger] entries[i]).1)
        },
        _ => true,
    }
}

/// Whether two values are the same but for the order of object entries.
pub open spec fn same_json(a: Json, b: Json) -> bool
    decreases a,
{
    match (a, b) {
        (Json::Array(x), Json::Array(y)) => {
            &&& x.len() == y.len()
            &&& forall|i: int| 0 <= i < x.len() ==> same_json(#[trigger] x[i], y[i])
        },
        (Json::Object(x), Json::Object(y)) => {
            &&& forall|k: Seq<char>| #[trigger] lookup(x, k) is Some <==> lookup(y, k) is Some
            &&& forall|i: int, j: int|
                0 <= i < x.len() && 0 <= j < y.len() && (#[trigger] x[i]).0 == (#[trigger] y[j]).0
                    ==> same_json(x[i].1, y[j].1)
        },
        _ => a == b,
    }
}

proof fn canonical_items_index(items: Seq<Json>)
    ensures
        canonical_items(items).len() == items.len(),
        forall|i: int|
            0 <= i < items.len() ==> #[trigger] canonical_items(items)[i] == canonical(items[i]),
    decreases items.len(),
{
    if items.len() > 0 {
        canonical_items_index(items.drop_last());
    }
}

proof fn objects_agree(x: Seq<(Seq<char>, Json)>, y: Seq<(Seq<char>, Json)>, k: Seq<char>)
    requires
        distinct_keys(Json::Object(x)),
        distinct_keys(Json::Object(y)),
        same_json(Json::Object(x), Json::Object(y)),
    ensures
        lookup(canonical_entries(x), k) == lookup(canonical_entries(y), k),
    decreases Json::Object(x), 0int,
{
    canonical_entries_lookup(x, k);
    canonical_entries_lookup(y, k);
    assert(lookup(x, k) is Some <==> lookup(y, k) is Some);
    if lookup(x, k) is Some {
        let i = lookup_index(x, k);
        let j = lookup_index(y, k);
        assert(same_json(x[i].1, y[j].1));
        assert(distinct_keys(x[i].1));
        assert(distinct_keys(y[j].1));
        canonical_ignores_entry_order(x[i].1, y[j].1);
    }
}

/// The canonical form does not depend on the order in which the entries of
/// objects are written.
pub proof fn canonical_ignores_entry_order(a: Json, b: Json)
    requires
        distinct_keys(a),
        distinct_keys(b),
        same_json(a, b),
    ensures
        canonical(a) == canonical(b),
    decreases a, 1int,
{
    match (a, b) {
        (Json::Array(x), Json::Array(y)) => {
            canonical_items_index(x);
            canonical_items_index(y);
            assert forall|i: int| 0 <= i < x.len() implies #[trigger] canonical_items(x)[i]
                == canonical_items(y)[i] by {
                assert(same_json(x[i], y[i]));
                assert(distinct_keys(x[i]));
                assert(distinct_keys(y[i]));
                canonical_ignores_entry_order(x[i], y[i]);
            }
            assert(canonical_items(x) =~= canonical_items(y));
        },
        (Json::Object(x), Json::Object(y)) => {
            let c = canonical_entries(x);
            let d = canonical_entries(y);
            canonical_entries_ascend(x);
            canonical_entries_ascend(y);
            assert forall|k: Seq<char>| #[trigger] lookup(c, k) == lookup(d, k) by {
                objects_agree(x, y, k);
            }
            ascending_unique(c, d);
        },
        _ => {},
    }
}

proof fn ascending_is_canonical(entries: Seq<(Seq<char>, Json)>)
    requires
        ascending(entries),
        forall|i: int|
            0 <= i < entries.len() ==> canonical((#[trigger] entries[i]).1) == entries[i].1,
    ensures
        canonical_entries(entries) == entries,
    decreases entries.len(),
{
    if entries.len() > 0 {
        let rest = entries.drop_last();
        assert(ascending(rest));
        assert forall|i: int| 0 <= i < rest.len() implies canonical((#[trigger] rest[i]).1)
            == rest[i].1 by {
            assert(rest[i] == entries[i]);
        }
        ascending_is_canonical(rest);
        assert(canonical(entries[entries.len() - 1].1) == entries.last().1);
        if rest.len() > 0 {
            assert(text_lt(entries[rest.len() - 1].0, entries[entries.len() - 1].0));
            text_lt_irreflexive(entries.last().0);
        }
        assert(canonical_entries(entries) =~= entries);
    } else {
        assert(canonical_entries(entries) =~= entries);
    }
}

proof fn put_values_canonical(entries: Seq<(Seq<char>, Json)>, key: Seq<char>, value: Json)
    requires
        canonical(value) == value,
        forall|i: int|
            0 <= i < entries.len() ==> canonical((#[trigger] entries[i]).1) == entries[i].1,
    ensures
        forall|i: int|
            0 <= i < put(entries, key, value).len() ==> canonical(
                (#[trigger] put(entries, key, value)[i]).1,
            ) == put(entries, key, value)[i].1,
    decreases entries.len(),
{
    if entries.len() > 0 {
        let rest = entries.drop_last();
        assert forall|i: int| 0 <= i < rest.len() implies canonical((#[trigger] rest[i]).1)
            == rest[i].1 by {
            assert(rest[i] == entries[i]);
        }
        assert(canonical(entries[entries.len() - 1].1) == entries.last().1);
        put_values_canonical(rest, key, value);
    }
}

proof fn canonical_values(entries: Seq<(Seq<char>, Json)>)
    requires
        forall|i: int|
            0 <= i < entries.len() ==> canonical(canonical((#[trigger] entries[i]).1)) == canonical(
                entries[i].1,
            ),
    ensures
        forall|i: int|
            0 <= i < canonical_entries(entries).len() ==> canonical(
                (#[trigger] canonical_entries(entries)[i]).1,
            ) == canonical_entries(entries)[i].1,
    decreases entries.len(),
{
    if entries.len() > 0 {
        let rest = entries.drop_last();
        assert forall|i: int| 0 <= i < rest.len() implies canonical(
            canonical((#[trigger] rest[i]).1),
        ) == canonical(rest[i].1) by {
            assert(rest[i] == entries[i]);
        }
        assert(canonical(canonical(entries[entries.len() - 1].1)) == canonical(entries.last().1));
        canonical_values(rest);
        put_values_canonical(
            canonical_entries(rest),
            entries.last().0,
            canonical(entries.last().1),
        );
    }
}

/// A canonical form is its own canonical form.
pub proof fn canonical_idempotent(value: Json)
    ensures
        canonical(canonical(value)) == canonical(value),
    decreases value,
{
    match value {
        Json::Array(items) => {
            let c = canonical_items(items);
            canonical_items_index(items);
            canonical_items_index(c);
            assert forall|i: int| 0 <= i < items.len() implies #[trigger] canonical_items(c)[i]
                == c[i] by {
                canonical_idempotent(items[i]);
            }
            assert(canonical_items(c) =~= c);
        },
        Json::Object(entries) => {
            assert forall|i: int| 0 <= i < entries.len() implies canonical(
                canonical((#[trigger] entries[i]).1),
            ) == canonical(entries[i].1) by {
                canonical_idempotent(entries[i].1);
            }
            canonical_entries_ascend(entries);
            canonical_values(entries);
            ascending_is_canonical(canonical_entries(entries));
        },
        _ => {},
    }
}

/// The canonical form changes nothing but the order of entries: an array keeps
/// its items at their places, and a text, number, truth value and null are kept.
pub proof fn canonical_keeps_items_and_leaves(
    items: Seq<Json>,
    i: int,
    text: Seq<char>,
    number: Seq<char>,
    b: bool,
)
    ensures
        canonical(Json::Array(items)) matches Json::Array(kept) && kept.len() == items.len() && (0
            <= i < items.len() ==> kept[i] == canonical(items[i])),
        canonical(Json::Text(text)) == Json::Text(text),
        canonical(Json::Number(number)) == Json::Number(number),
        canonical(Json::Bool(b)) == Json::Bool(b),
        canonical(Json::Null) == Json::Null,
{
    canonical_items_index(items);
}

} // verus!
