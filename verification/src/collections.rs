//! A map from text to values that keeps its entries in ascending order of their
//! keys, so that maps with the same contents are equal.

use vstd::prelude::*;

use crate::text::{same_text, strictly_ascending, text_before, text_lt, text_lt_asymmetric};
use crate::text::{text_lt_irreflexive, text_lt_total, text_lt_transitive};

verus! {

/// The text keys of a list of entries, in order.
pub open spec fn keys_of<V>(entries: Seq<(String, V)>) -> Seq<Seq<char>> {
    entries.map_values(|e: (String, V)| e.0@)
}

/// The map that a list of entries stands for; a later entry wins over an
/// earlier one of the same key.
pub open spec fn entries_map<V>(entries: Seq<(String, V)>) -> Map<Seq<char>, V>
    decreases entries.len(),
{
    if entries.len() == 0 {
        Map::empty()
    } else {
        entries_map(entries.drop_last()).insert(entries.last().0@, entries.last().1)
    }
}

/// A map with text keys, which ascend strictly.
#[derive(Debug, PartialEq, Eq)]
pub struct StringMap<V> {
    entries: Vec<(String, V)>,
}

impl<V> StringMap<V> {
    /// The keys of the map, in the order of its entries.
    pub closed spec fn keys(&self) -> Seq<Seq<char>> {
        keys_of(self.entries@)
    }

    /// The values of the map, in the order of its entries.
    pub closed spec fn values(&self) -> Seq<V> {
        self.entries@.map_values(|e: (String, V)| e.1)
    }

    #[verifier::type_invariant]
    spec fn inv(&self) -> bool {
        strictly_ascending(keys_of(self.entries@))
    }
}

proof fn ascending_is_distinct(keys: Seq<Seq<char>>)
    requires
        strictly_ascending(keys),
    ensures
        keys.no_duplicates(),
{
    assert forall|i: int, j: int| 0 <= i < keys.len() && 0 <= j < keys.len() && i != j implies keys[i]
        != keys[j] by {
        if i < j {
            assert(text_lt(keys[i], keys[j]));
            text_lt_irreflexive(keys[i]);
        } else {
            assert(text_lt(keys[j], keys[i]));
            text_lt_irreflexive(keys[j]);
        }
    }
}

impl<V> View for StringMap<V> {
    type V = Map<Seq<char>, V>;

    closed spec fn view(&self) -> Map<Seq<char>, V> {
        entries_map(self.entries@)
    }
}

proof fn entries_map_lookup<V>(entries: Seq<(String, V)>)
    requires
        keys_of(entries).no_duplicates(),
    ensures
        forall|i: int|
            0 <= i < entries.len() ==> entries_map(entries).dom().contains((#[trigger] entries[i]).0@)
                && entries_map(entries)[entries[i].0@] == entries[i].1,
        forall|k: Seq<char>| #[trigger]
            entries_map(entries).dom().contains(k) ==> keys_of(entries).contains(k),
    decreases entries.len(),
{
    if entries.len() > 0 {
        let rest = entries.drop_last();
        let ks = keys_of(entries);
        assert(keys_of(rest) =~= ks.drop_last());
        assert(keys_of(rest).no_duplicates());
        entries_map_lookup(rest);
        assert forall|i: int| 0 <= i < entries.len() implies entries_map(entries).dom().contains(
            (#[trigger] entries[i]).0@,
        ) && entries_map(entries)[entries[i].0@] == entries[i].1 by {
            if i < rest.len() {
                assert(rest[i] == entries[i]);
                assert(ks[i] != ks[entries.len() - 1]);
            }
        }
        assert forall|k: Seq<char>| #[trigger] entries_map(entries).dom().contains(k) implies ks.contains(
            k,
        ) by {
            if k == entries.last().0@ {
                assert(ks[entries.len() - 1] == k);
            } else {
                assert(entries_map(rest).dom().contains(k));
                assert(keys_of(rest).contains(k));
                let j = choose|j: int| 0 <= j < rest.len() && keys_of(rest)[j] == k;
                assert(ks[j] == k);
            }
        }
    }
}

proof fn entries_map_update<V>(entries: Seq<(String, V)>, at: int, key: String, value: V)
    requires
        keys_of(entries).no_duplicates(),
        0 <= at < entries.len(),
        entries[at].0@ == key@,
    ensures
        entries_map(entries.update(at, (key, value))) == entries_map(entries).insert(key@, value),
        keys_of(entries.update(at, (key, value))) == keys_of(entries),
    decreases entries.len(),
{
    let updated = entries.update(at, (key, value));
    assert(keys_of(updated) =~= keys_of(entries));
    if at == entries.len() - 1 {
        assert(updated.drop_last() =~= entries.drop_last());
        assert(entries_map(updated) =~= entries_map(entries).insert(key@, value));
    } else {
        let rest = entries.drop_last();
        assert(keys_of(rest) =~= keys_of(entries).drop_last());
        assert(updated.drop_last() =~= rest.update(at, (key, value)));
        entries_map_update(rest, at, key, value);
        assert(keys_of(entries)[at] != keys_of(entries)[entries.len() - 1]);
        assert(entries_map(updated) =~= entries_map(entries).insert(key@, value));
    }
}

proof fn entries_map_remove<V>(entries: Seq<(String, V)>, at: int)
    requires
        keys_of(entries).no_duplicates(),
        0 <= at < entries.len(),
    ensures
        keys_of(entries.remove(at)) == keys_of(entries).remove(at),
        keys_of(entries.remove(at)).no_duplicates(),
        entries_map(entries.remove(at)) == entries_map(entries).remove(entries[at].0@),
{
    let rest = entries.remove(at);
    let ks = keys_of(entries);
    let rs = keys_of(rest);
    assert(rs =~= ks.remove(at));
    assert forall|i: int, j: int| 0 <= i < rs.len() && 0 <= j < rs.len() && i != j implies rs[i]
        != rs[j] by {
        let p = if i < at {
            i
        } else {
            i + 1
        };
        let q = if j < at {
            j
        } else {
            j + 1
        };
        assert(rs[i] == ks[p] && rs[j] == ks[q] && p != q);
    }
    entries_map_lookup(entries);
    entries_map_lookup(rest);
    let key = entries[at].0@;
    let a = entries_map(rest);
    let b = entries_map(entries).remove(key);
    assert forall|k: Seq<char>| a.dom().contains(k) <==> b.dom().contains(k) by {
        if a.dom().contains(k) {
            let i = choose|i: int| 0 <= i < rs.len() && rs[i] == k;
            let p = if i < at {
                i
            } else {
                i + 1
            };
            assert(entries[p].0@ == k);
            assert(ks[p] != ks[at]);
        }
        if b.dom().contains(k) {
            assert(ks.contains(k));
            let p = choose|p: int| 0 <= p < ks.len() && ks[p] == k;
            let i = if p < at {
                p
            } else {
                p - 1
            };
            assert(rest[i].0@ == k);
        }
    }
    assert forall|k: Seq<char>| a.dom().contains(k) implies a[k] == b[k] by {
        let i = choose|i: int| 0 <= i < rs.len() && rs[i] == k;
        let p = if i < at {
            i
        } else {
            i + 1
        };
        assert(rest[i] == entries[p]);
        assert(ks[p] != ks[at]);
        assert(entries_map(entries)[entries[p].0@] == entries[p].1);
        assert(entries_map(rest)[rest[i].0@] == rest[i].1);
    }
    assert(a =~= b);
}

proof fn entries_map_insert<V>(entries: Seq<(String, V)>, at: int, key: String, value: V)
    requires
        strictly_ascending(keys_of(entries)),
        0 <= at <= entries.len(),
        forall|j: int| 0 <= j < at ==> text_lt(#[trigger] keys_of(entries)[j], key@),
        at < entries.len() ==> !text_lt(keys_of(entries)[at], key@) && keys_of(entries)[at] != key@,
    ensures
        strictly_ascending(keys_of(entries.insert(at, (key, value)))),
        entries_map(entries.insert(at, (key, value))) == entries_map(entries).insert(key@, value),
{
    let before = keys_of(entries);
    let after = entries.insert(at, (key, value));
    let ks = keys_of(after);
    assert(ks =~= before.insert(at, key@));
    assert forall|j: int| at <= j < before.len() implies text_lt(key@, #[trigger] before[j]) by {
        text_lt_total(before[at], key@);
        if j > at {
            assert(text_lt(before[at], before[j]));
            text_lt_transitive(key@, before[at], before[j]);
        }
    }
    assert forall|p: int, q: int| 0 <= p < q < ks.len() implies text_lt(
        #[trigger] ks[p],
        #[trigger] ks[q],
    ) by {
        let p0 = if p < at {
            p
        } else {
            p - 1
        };
        let q0 = if q < at {
            q
        } else {
            q - 1
        };
        if p != at {
            assert(ks[p] == before[p0]);
        }
        if q != at {
            assert(ks[q] == before[q0]);
        }
        if p != at && q != at {
            assert(text_lt(before[p0], before[q0]));
        }
    }
    ascending_is_distinct(ks);
    ascending_is_distinct(before);
    entries_map_remove(after, at);
    entries_map_lookup(after);
    entries_map_lookup(entries);
    assert(after.remove(at) =~= entries);
    assert(after[at] == (key, value));
    assert(entries_map(after) =~= entries_map(entries).insert(key@, value));
}

/// Ascending lists with the same keys are the same list.
proof fn ascending_is_unique(a: Seq<Seq<char>>, b: Seq<Seq<char>>)
    requires
        strictly_ascending(a),
        strictly_ascending(b),
        forall|k: Seq<char>| a.contains(k) <==> b.contains(k),
    ensures
        a == b,
    decreases a.len(),
{
    if a.len() == 0 {
        if b.len() > 0 {
            assert(b.contains(b[0]));
        }
        assert(a =~= b);
    } else {
        assert(a.contains(a.last()));
        let i = choose|i: int| 0 <= i < b.len() && b[i] == a.last();
        assert(b.contains(b.last()));
        let j = choose|j: int| 0 <= j < a.len() && a[j] == b.last();
        if a.last() != b.last() {
            assert(text_lt(b[i], b[b.len() - 1]));
            assert(text_lt(a[j], a[a.len() - 1]));
            text_lt_asymmetric(a.last(), b.last());
        }
        let ra = a.drop_last();
        let rb = b.drop_last();
        assert forall|k: Seq<char>| ra.contains(k) <==> rb.contains(k) by {
            if ra.contains(k) {
                let p = choose|p: int| 0 <= p < ra.len() && ra[p] == k;
                assert(text_lt(a[p], a[a.len() - 1]));
                text_lt_irreflexive(k);
                assert(a.contains(k));
                let q = choose|q: int| 0 <= q < b.len() && b[q] == k;
                assert(rb[q] == k);
            }
            if rb.contains(k) {
                let p = choose|p: int| 0 <= p < rb.len() && rb[p] == k;
                assert(text_lt(b[p], b[b.len() - 1]));
                text_lt_irreflexive(k);
                assert(b.contains(k));
                let q = choose|q: int| 0 <= q < a.len() && a[q] == k;
                assert(ra[q] == k);
            }
        }
        ascending_is_unique(ra, rb);
        assert(a =~= ra.push(a.last()));
        assert(b =~= rb.push(b.last()));
    }
}

/// Maps with the same contents have the same entries in the same order, in
/// whatever order they were filled.
pub proof fn same_contents_same_entries<V>(
    map: Map<Seq<char>, V>,
    a: (Seq<Seq<char>>, Seq<V>),
    b: (Seq<Seq<char>>, Seq<V>),
)
    requires
        entries_agree(map, a.0, a.1),
        entries_agree(map, b.0, b.1),
    ensures
        a == b,
{
    assert forall|k: Seq<char>| a.0.contains(k) <==> b.0.contains(k) by {
        if a.0.contains(k) {
            let i = choose|i: int| 0 <= i < a.0.len() && a.0[i] == k;
            assert(map.dom().contains(a.0[i]));
        }
        if b.0.contains(k) {
            let i = choose|i: int| 0 <= i < b.0.len() && b.0[i] == k;
            assert(map.dom().contains(b.0[i]));
        }
    }
    ascending_is_unique(a.0, b.0);
    assert forall|i: int| 0 <= i < a.1.len() implies a.1[i] == b.1[i] by {
        assert(map[a.0[i]] == a.1[i]);
        assert(map[b.0[i]] == b.1[i]);
    }
    assert(a.1 =~= b.1);
}

/// The positions of the entries and the map agree: the value of an entry is
/// the value of its key, every key of the map has an entry, and the keys
/// ascend strictly.
pub open spec fn entries_agree<V>(map: Map<Seq<char>, V>, keys: Seq<Seq<char>>, values: Seq<V>) -> bool {
    &&& keys.len() == values.len()
    &&& keys.no_duplicates()
    &&& strictly_ascending(keys)
    &&& forall|i: int|
        0 <= i < keys.len() ==> map.dom().contains(#[trigger] keys[i]) && map[keys[i]] == values[i]
    &&& forall|k: Seq<char>| #[trigger] map.dom().contains(k) ==> keys.contains(k)
}

impl<V> StringMap<V> {
    /// An empty map.
    pub fn new() -> (m: StringMap<V>)
        ensures
            m@ == Map::<Seq<char>, V>::empty(),
            m.keys() == Seq::<Seq<char>>::empty(),
            m.values() == Seq::<V>::empty(),
    {
        let m = StringMap { entries: Vec::new() };
        assert(m.keys() =~= Seq::<Seq<char>>::empty());
        assert(m.values() =~= Seq::<V>::empty());
        m
    }

    /// The number of entries.
    pub fn len(&self) -> (n: usize)
        ensures
            n == self.keys().len(),
            entries_agree(self@, self.keys(), self.values()),
    {
        proof {
            use_type_invariant(self);
            ascending_is_distinct(keys_of(self.entries@));
            entries_map_lookup(self.entries@);
            let ks = self.keys();
            assert forall|i: int| 0 <= i < ks.len() implies self@.dom().contains(#[trigger] ks[i])
                && self@[ks[i]] == self.values()[i] by {
                assert(ks[i] == self.entries@[i].0@);
            }
        }
        self.entries.len()
    }

    /// Whether the map has no entry.
    pub fn is_empty(&self) -> (r: bool)
        ensures
            r == (self.keys().len() == 0),
    {
        self.entries.len() == 0
    }

    /// The key of the entry at a position.
    pub fn key_at(&self, i: usize) -> (k: &String)
        requires
            i < self.keys().len(),
        ensures
            k@ == self.keys()[i as int],
    {
        &self.entries[i].0
    }

    /// The value of the entry at a position.
    pub fn value_at(&self, i: usize) -> (v: &V)
        requires
            i < self.values().len(),
        ensures
            *v == self.values()[i as int],
    {
        &self.entries[i].1
    }

    /// The position of a key.
    pub fn position(&self, key: &str) -> (r: Option<usize>)
        ensures
            match r {
                Some(i) => i < self.keys().len() && self.keys()[i as int] == key@
                    && self@.dom().contains(key@) && self@[key@] == self.values()[i as int],
                None => !self@.dom().contains(key@) && !self.keys().contains(key@),
            },
    {
        let n: usize = self.len();
        let mut i: usize = 0;
        while i < n
            invariant
                i <= n == self.entries@.len(),
                self.keys() == keys_of(self.entries@),
                entries_agree(self@, self.keys(), self.values()),
                forall|j: int| 0 <= j < i ==> self.keys()[j] != key@,
            decreases n - i,
        {
            if same_text(self.entries[i].0.as_str(), key) {
                assert(self.keys()[i as int] == key@);
                return Some(i);
            }
            i += 1;
        }
        None
    }

    /// The value of a key.
    pub fn get(&self, key: &str) -> (r: Option<&V>)
        ensures
            match r {
                Some(v) => self@.dom().contains(key@) && *v == self@[key@],
                None => !self@.dom().contains(key@),
            },
    {
        match self.position(key) {
            Some(i) => Some(&self.entries[i].1),
            None => None,
        }
    }

    /// Whether the map has a key.
    pub fn contains_key(&self, key: &str) -> (r: bool)
        ensures
            r == self@.dom().contains(key@),
    {
        self.position(key).is_some()
    }

    /// Where a key stands, or would stand: behind all smaller keys.
    fn place(&self, key: &str) -> (i: usize)
        ensures
            i <= self.entries@.len(),
            forall|j: int| 0 <= j < i ==> text_lt(#[trigger] keys_of(self.entries@)[j], key@),
            i < self.entries@.len() ==> !text_lt(keys_of(self.entries@)[i as int], key@),
    {
        let mut i: usize = 0;
        while i < self.entries.len() && text_before(self.entries[i].0.as_str(), key)
            invariant
                i <= self.entries@.len(),
                forall|j: int| 0 <= j < i ==> text_lt(#[trigger] keys_of(self.entries@)[j], key@),
            decreases self.entries.len() - i,
        {
            i += 1;
        }
        i
    }

    /// Sets the value of a key.
    pub fn insert(&mut self, key: String, value: V)
        ensures
            final(self)@ == old(self)@.insert(key@, value),
    {
        let i = self.place(key.as_str());
        proof {
            use_type_invariant(&*self);
            ascending_is_distinct(keys_of(self.entries@));
        }
        let ghost before = self.entries@;
        let known = i < self.entries.len() && same_text(
            self.entries[i].0.as_str(),
            key.as_str(),
        );
        let mut whole: StringMap<V> = StringMap::new();
        core::mem::swap(self, &mut whole);
        let mut entries = whole.entries;
        if known {
            proof {
                entries_map_update(before, i as int, key, value);
            }
            entries.set(i, (key, value));
        } else {
            proof {
                entries_map_insert(before, i as int, key, value);
            }
            entries.insert(i, (key, value));
        }
        *self = StringMap { entries };
    }

    /// Takes the entry at a position out of the map.
    pub fn remove_at(&mut self, i: usize) -> (e: (String, V))
        requires
            i < old(self).keys().len(),
        ensures
            e.0@ == old(self).keys()[i as int],
            e.1 == old(self).values()[i as int],
            old(self)@.dom().contains(e.0@),
            old(self)@[e.0@] == e.1,
            final(self).keys() == old(self).keys().remove(i as int),
            final(self)@ == old(self)@.remove(e.0@),
    {
        proof {
            use_type_invariant(&*self);
            ascending_is_distinct(keys_of(self.entries@));
            entries_map_lookup(self.entries@);
            entries_map_remove(self.entries@, i as int);
            let ks = keys_of(self.entries@);
            let rest = ks.remove(i as int);
            assert forall|p: int, q: int| 0 <= p < q < rest.len() implies text_lt(
                #[trigger] rest[p],
                #[trigger] rest[q],
            ) by {
                let p0 = if p < i {
                    p
                } else {
                    p + 1
                };
                let q0 = if q < i {
                    q
                } else {
                    q + 1
                };
                assert(text_lt(ks[p0], ks[q0]));
            }
        }
        let ghost before = self.entries@;
        let mut whole: StringMap<V> = StringMap::new();
        core::mem::swap(self, &mut whole);
        let mut entries = whole.entries;
        let e = entries.remove(i);
        assert(e == before[i as int]);
        *self = StringMap { entries };
        e
    }

    /// The entries of the map, in order.
    pub fn into_entries(self) -> (r: Vec<(String, V)>)
        ensures
            keys_of(r@) == self.keys(),
            entries_map(r@) == self@,
            strictly_ascending(keys_of(r@)),
    {
        proof {
            use_type_invariant(&self);
        }
        self.entries
    }
}

impl<V: Clone> Clone for StringMap<V> {
    fn clone(&self) -> (r: StringMap<V>)
        ensures
            r.keys() == self.keys(),
            r.values().len() == self.values().len(),
            forall|i: int|
                0 <= i < self.values().len() ==> cloned(
                    self.values()[i],
                    #[trigger] r.values()[i],
                ),
    {
        let mut entries: Vec<(String, V)> = Vec::new();
        let mut i: usize = 0;
        while i < self.entries.len()
            invariant
                i <= self.entries@.len(),
                entries@.len() == i,
                forall|j: int|
                    0 <= j < i ==> (#[trigger] entries@[j]).0 == self.entries@[j].0 && cloned(
                        self.entries@[j].1,
                        entries@[j].1,
                    ),
            decreases self.entries.len() - i,
        {
            let value = self.entries[i].1.clone();
            entries.push((self.entries[i].0.clone(), value));
            i += 1;
        }
        proof {
            use_type_invariant(self);
            assert(keys_of(entries@) =~= keys_of(self.entries@));
        }
        StringMap { entries }
    }
}

} // verus!
