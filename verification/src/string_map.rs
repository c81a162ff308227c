//! A map from strings, kept in the order of its keys.
use vstd::prelude::*;

use crate::text;
use crate::text::{str_eq, str_lt};

verus! {

/// A map from strings to `V`. No key occurs twice, and the entries stand in
/// ascending order of their keys.
#[derive(Debug, PartialEq)]
pub struct StringMap<V> {
    entries: Vec<(String, V)>,
}

/// The keys of a list of entries, in its order.
pub open spec fn keys_of<V>(listing: Seq<(Seq<char>, V)>) -> Seq<Seq<char>> {
    listing.map_values(|e: (Seq<char>, V)| e.0)
}

/// `listing` holds the entries of `m`, each once, in ascending order of keys.
pub open spec fn lists_map<V>(listing: Seq<(Seq<char>, V)>, m: Map<Seq<char>, V>) -> bool {
    &&& text::ascending(keys_of(listing))
    &&& forall|k: Seq<char>| #[trigger] m.contains_key(k) <==> keys_of(listing).contains(k)
    &&& forall|i: int|
        0 <= i < listing.len() ==> m.contains_key((#[trigger] listing[i]).0) && m[listing[i].0] == listing[i].1
}

/// A map has one list of entries in ascending order of keys.
pub proof fn lemma_listing_unique<V>(a: Seq<(Seq<char>, V)>, b: Seq<(Seq<char>, V)>, m: Map<Seq<char>, V>)
    requires
        lists_map(a, m),
        lists_map(b, m),
    ensures
        a == b,
{
    let ka = keys_of(a);
    let kb = keys_of(b);
    assert forall|k: Seq<char>| #[trigger] ka.contains(k) <==> kb.contains(k) by {
        assert(m.contains_key(k) <==> ka.contains(k));
        assert(m.contains_key(k) <==> kb.contains(k));
    }
    text::lemma_ascending_same_set(ka, kb);
    assert(a.len() == ka.len() && b.len() == kb.len());
    assert forall|i: int| 0 <= i < a.len() implies a[i] == b[i] by {
        assert(ka[i] == a[i].0 && kb[i] == b[i].0);
        assert(m[a[i].0] == a[i].1);
        assert(m[b[i].0] == b[i].1);
    }
    assert(a =~= b);
}

/// The entries of a map in ascending order of keys.
pub open spec fn listing_of<V>(m: Map<Seq<char>, V>) -> Seq<(Seq<char>, V)> {
    choose|listing: Seq<(Seq<char>, V)>| lists_map(listing, m)
}

/// A finite map has a list of its entries in ascending order of keys.
pub proof fn lemma_listing_of<V>(m: Map<Seq<char>, V>)
    requires
        m.dom().finite(),
    ensures
        lists_map(listing_of(m), m),
{
    let keys = m.dom().to_seq();
    m.dom().lemma_to_seq_to_set_id();
    text::lemma_sorted_ids(keys);
    let sorted = text::sorted_ids(keys);
    let listing = Seq::new(sorted.len(), |i: int| (sorted[i], m[sorted[i]]));
    assert(keys_of(listing) =~= sorted);
    assert forall|k: Seq<char>| #[trigger] m.contains_key(k) <==> sorted.contains(k) by {
        assert(keys.to_set().contains(k) <==> keys.contains(k));
        assert(m.dom().contains(k) <==> keys.to_set().contains(k));
    }
    assert forall|i: int| 0 <= i < listing.len() implies m.contains_key((#[trigger] listing[i]).0) && m[listing[i].0]
        == listing[i].1 by {
        assert(sorted.contains(sorted[i]));
    }
    assert(lists_map(listing, m));
}

/// A list in ascending order of keys lists one map.
pub open spec fn map_of<V>(listing: Seq<(Seq<char>, V)>) -> Map<Seq<char>, V> {
    Map::new(|k: Seq<char>| keys_of(listing).contains(k), |k: Seq<char>| listing[keys_of(listing).index_of(k)].1)
}

proof fn lemma_map_of<V>(listing: Seq<(Seq<char>, V)>)
    requires
        text::ascending(keys_of(listing)),
    ensures
        lists_map(listing, map_of(listing)),
{
    let keys = keys_of(listing);
    assert forall|i: int| 0 <= i < listing.len() implies map_of(listing).contains_key((#[trigger] listing[i]).0)
        && map_of(listing)[listing[i].0] == listing[i].1 by {
        assert(keys[i] == listing[i].0);
        assert(keys.contains(listing[i].0));
        let j = keys.index_of(listing[i].0);
        assert(0 <= j < keys.len() && keys[j] == listing[i].0);
        if i != j {
            if i < j {
                assert(text::text_lt(keys[i], keys[j]));
            } else {
                assert(text::text_lt(keys[j], keys[i]));
            }
            text::lemma_text_lt_irreflexive(keys[i]);
        }
    }
}

/// A list in ascending order lists one map.
proof fn lemma_map_unique<V>(listing: Seq<(Seq<char>, V)>, m: Map<Seq<char>, V>)
    requires
        lists_map(listing, m),
    ensures
        map_of(listing) == m,
{
    lemma_map_of(listing);
    let made = map_of(listing);
    let keys = keys_of(listing);
    assert forall|k: Seq<char>| #[trigger] made.contains_key(k) implies made[k] == m[k] by {
        assert(keys.contains(k));
        let n = choose|n: int| 0 <= n < keys.len() && keys[n] == k;
        assert(listing[n].0 == k);
    }
    assert forall|k: Seq<char>| #[trigger] made.contains_key(k) <==> m.contains_key(k) by {
        assert(m.contains_key(k) <==> keys.contains(k));
    }
    assert(made =~= m);
}

/// What a new value at the place of its key does to the list and to the map.
proof fn lemma_update<V>(before: Seq<(Seq<char>, V)>, m: Map<Seq<char>, V>, at: int, v: V)
    requires
        lists_map(before, m),
        0 <= at < before.len(),
    ensures
        text::ascending(keys_of(before.update(at, (before[at].0, v)))),
        map_of(before.update(at, (before[at].0, v))) == m.insert(before[at].0, v),
{
    let k = before[at].0;
    let after = before.update(at, (k, v));
    assert(keys_of(after) =~= keys_of(before));
    let target = m.insert(k, v);
    let keys = keys_of(before);
    assert(keys[at] == k);
    assert forall|q: Seq<char>| #[trigger] target.contains_key(q) <==> keys_of(after).contains(q) by {
        assert(m.contains_key(q) <==> keys.contains(q));
    }
    assert forall|i: int| 0 <= i < after.len() implies target.contains_key((#[trigger] after[i]).0)
        && target[after[i].0] == after[i].1 by {
        assert(m.contains_key(before[i].0) && m[before[i].0] == before[i].1);
        if i != at && before[i].0 == k {
            assert(keys[i] == k);
            text::lemma_text_lt_irreflexive(k);
            if i < at {
                assert(text::text_lt(keys[i], keys[at]));
            } else {
                assert(text::text_lt(keys[at], keys[i]));
            }
        }
    }
    lemma_map_unique(after, target);
}

/// What a new entry at the place of its key does to the list and to the map.
proof fn lemma_insert<V>(before: Seq<(Seq<char>, V)>, m: Map<Seq<char>, V>, at: int, k: Seq<char>, v: V)
    requires
        lists_map(before, m),
        !m.contains_key(k),
        0 <= at <= before.len(),
        forall|i: int| 0 <= i < at ==> text::text_lt(#[trigger] keys_of(before)[i], k),
        forall|i: int| at <= i < before.len() ==> text::text_lt(k, #[trigger] keys_of(before)[i]),
    ensures
        text::ascending(keys_of(before.insert(at, (k, v)))),
        map_of(before.insert(at, (k, v))) == m.insert(k, v),
{
    let after = before.insert(at, (k, v));
    let kb = keys_of(before);
    let ka = keys_of(after);
    assert(ka =~= kb.insert(at, k));
    assert forall|i: int, j: int| 0 <= i < j < ka.len() implies text::text_lt(#[trigger] ka[i], #[trigger] ka[j]) by {
        let x = if i < at { i } else { i - 1 };
        let y = if j < at { j } else { j - 1 };
        if i != at && j != at {
            assert(text::text_lt(kb[x], kb[y]));
        } else if j == at {
            assert(text::text_lt(kb[x], k));
        } else {
            assert(text::text_lt(k, kb[y]));
        }
    }
    let target = m.insert(k, v);
    assert forall|q: Seq<char>| #[trigger] target.contains_key(q) <==> ka.contains(q) by {
        assert(m.contains_key(q) <==> kb.contains(q));
        if kb.contains(q) {
            let n = choose|n: int| 0 <= n < kb.len() && kb[n] == q;
            assert(ka[if n < at { n } else { n + 1 }] == q);
        }
        if q == k {
            assert(ka[at] == k);
        }
        if ka.contains(q) && q != k {
            let n = choose|n: int| 0 <= n < ka.len() && ka[n] == q;
            assert(kb[if n < at { n } else { n - 1 }] == q);
        }
    }
    assert forall|i: int| 0 <= i < after.len() implies target.contains_key((#[trigger] after[i]).0)
        && target[after[i].0] == after[i].1 by {
        if i != at {
            let n = if i < at { i } else { i - 1 };
            assert(after[i] == before[n]);
            assert(m.contains_key(before[n].0) && m[before[n].0] == before[n].1);
        }
    }
    lemma_map_unique(after, target);
}

/// What taking an entry out does to the list and to the map.
proof fn lemma_remove<V>(before: Seq<(Seq<char>, V)>, m: Map<Seq<char>, V>, at: int)
    requires
        lists_map(before, m),
        0 <= at < before.len(),
    ensures
        text::ascending(keys_of(before.remove(at))),
        map_of(before.remove(at)) == m.remove(before[at].0),
{
    let k = before[at].0;
    let after = before.remove(at);
    let kb = keys_of(before);
    let ka = keys_of(after);
    assert(ka =~= kb.remove(at));
    assert(kb[at] == k);
    assert forall|i: int, j: int| 0 <= i < j < ka.len() implies text::text_lt(#[trigger] ka[i], #[trigger] ka[j]) by {
        assert(text::text_lt(kb[if i < at { i } else { i + 1 }], kb[if j < at { j } else { j + 1 }]));
    }
    assert forall|n: int| 0 <= n < kb.len() && n != at implies #[trigger] kb[n] != k by {
        text::lemma_text_lt_irreflexive(k);
        if n < at {
            assert(text::text_lt(kb[n], kb[at]));
        } else {
            assert(text::text_lt(kb[at], kb[n]));
        }
    }
    let target = m.remove(k);
    assert forall|q: Seq<char>| #[trigger] target.contains_key(q) <==> ka.contains(q) by {
        assert(m.contains_key(q) <==> kb.contains(q));
        if kb.contains(q) && q != k {
            let n = choose|n: int| 0 <= n < kb.len() && kb[n] == q;
            assert(ka[if n < at { n } else { n - 1 }] == q);
        }
        if ka.contains(q) {
            let n = choose|n: int| 0 <= n < ka.len() && ka[n] == q;
            assert(kb[if n < at { n } else { n + 1 }] == q);
        }
    }
    assert forall|i: int| 0 <= i < after.len() implies target.contains_key((#[trigger] after[i]).0)
        && target[after[i].0] == after[i].1 by {
        let n = if i < at { i } else { i + 1 };
        assert(after[i] == before[n]);
        assert(kb[n] == before[n].0);
        assert(m.contains_key(before[n].0) && m[before[n].0] == before[n].1);
    }
    lemma_map_unique(after, target);
}

impl<V> StringMap<V> {
    /// The entries in ascending order of their keys.
    pub closed spec fn listing(&self) -> Seq<(Seq<char>, V)> {
        Seq::new(self.entries@.len(), |i: int| (self.entries@[i].0@, self.entries@[i].1))
    }

    #[verifier::type_invariant]
    spec fn ordered(self) -> bool {
        text::ascending(keys_of(self.listing()))
    }

    /// The map without entries.
    pub fn new() -> (r: Self)
        ensures
            r@ == Map::<Seq<char>, V>::empty(),
    {
        let r = StringMap { entries: Vec::new() };
        proof {
            assert(r@ =~= Map::<Seq<char>, V>::empty());
        }
        r
    }

    /// The number of entries.
    pub fn len(&self) -> (n: usize)
        ensures
            n == self.listing().len(),
            lists_map(self.listing(), self@),
    {
        proof {
            use_type_invariant(self);
            lemma_map_of(self.listing());
        }
        self.entries.len()
    }

    /// The key at a place in the order.
    pub fn key_at(&self, i: usize) -> (r: &String)
        requires
            i < self.listing().len(),
        ensures
            r@ == self.listing()[i as int].0,
    {
        &self.entries[i].0
    }

    /// The value at a place in the order.
    pub fn value_at(&self, i: usize) -> (r: &V)
        requires
            i < self.listing().len(),
        ensures
            *r == self.listing()[i as int].1,
    {
        &self.entries[i].1
    }

    /// The first place whose key is not before `key`.
    fn place_of(&self, key: &str) -> (at: usize)
        ensures
            at <= self.listing().len(),
            forall|i: int| 0 <= i < at ==> text::text_lt(#[trigger] keys_of(self.listing())[i], key@),
            forall|i: int| at < i < self.listing().len() ==> text::text_lt(key@, #[trigger] keys_of(self.listing())[i]),
            at < self.listing().len() ==> !text::text_lt(keys_of(self.listing())[at as int], key@),
            self@.contains_key(key@) <==> at < self.listing().len() && self.listing()[at as int].0 == key@,
            self@.contains_key(key@) ==> self@[key@] == self.listing()[at as int].1,
    {
        proof {
            use_type_invariant(self);
            lemma_map_of(self.listing());
        }
        let ghost keys = keys_of(self.listing());
        let mut at: usize = 0;
        while at < self.entries.len() && str_lt(self.entries[at].0.as_str(), key)
            invariant
                at <= self.entries@.len(),
                keys == keys_of(self.listing()),
                forall|i: int| 0 <= i < at ==> text::text_lt(#[trigger] keys[i], key@),
            decreases self.entries@.len() - at,
        {
            proof {
                assert(keys[at as int] == self.entries@[at as int].0@);
            }
            at = at + 1;
        }
        proof {
            if at < keys.len() {
                assert(keys[at as int] == self.entries@[at as int].0@);
                text::lemma_text_lt_total(keys[at as int], key@);
                assert forall|i: int| at < i < keys.len() implies text::text_lt(key@, #[trigger] keys[i]) by {
                    assert(text::text_lt(keys[at as int], keys[i]));
                    if keys[at as int] != key@ {
                        text::lemma_text_lt_transitive(key@, keys[at as int], keys[i]);
                    }
                }
            }
            assert(self@.contains_key(key@) <==> keys.contains(key@));
            if keys.contains(key@) {
                let k = choose|k: int| 0 <= k < keys.len() && keys[k] == key@;
                text::lemma_text_lt_irreflexive(key@);
                if k < at {
                    assert(text::text_lt(keys[k], key@));
                } else if k > at {
                    assert(text::text_lt(key@, keys[k]));
                }
            } else if at < keys.len() {
                assert(keys.contains(keys[at as int]));
            }
        }
        at
    }

    /// Is there an entry under `key`?
    pub fn contains_key(&self, key: &str) -> (r: bool)
        ensures
            r == self@.contains_key(key@),
    {
        let at = self.place_of(key);
        at < self.entries.len() && str_eq(self.entries[at].0.as_str(), key)
    }

    /// The value under `key`.
    pub fn get(&self, key: &str) -> (r: Option<&V>)
        ensures
            match r {
                Some(v) => self@.contains_key(key@) && *v == self@[key@],
                None => !self@.contains_key(key@),
            },
    {
        let at = self.place_of(key);
        if at < self.entries.len() && str_eq(self.entries[at].0.as_str(), key) {
            Some(&self.entries[at].1)
        } else {
            None
        }
    }

    /// Puts `value` under `key`, in place of what was there.
    pub fn insert(&mut self, key: String, value: V)
        ensures
            final(self)@ == old(self)@.insert(key@, value),
    {
        proof {
            use_type_invariant(&*self);
            lemma_map_of(self.listing());
        }
        let at = self.place_of(key.as_str());
        let present = at < self.entries.len() && str_eq(self.entries[at].0.as_str(), key.as_str());
        let ghost before = self.listing();
        let ghost before_map = self@;
        let ghost k = key@;
        let ghost v = value;
        let mut entries: Vec<(String, V)> = Vec::new();
        std::mem::swap(&mut entries, &mut self.entries);
        let ghost raw = entries@;
        if present {
            let _replaced = entries.remove(at);
            entries.insert(at, (key, value));
        } else {
            entries.insert(at, (key, value));
        }
        let ghost after = Seq::new(entries@.len(), |i: int| (entries@[i].0@, entries@[i].1));
        proof {
            if present {
                assert(after =~= before.update(at as int, (k, v)));
                lemma_update(before, before_map, at as int, v);
            } else {
                assert(after =~= before.insert(at as int, (k, v)));
                if at < before.len() {
                    assert(keys_of(before)[at as int] == before[at as int].0);
                    text::lemma_text_lt_total(keys_of(before)[at as int], k);
                }
                lemma_insert(before, before_map, at as int, k, v);
            }
        }
        self.entries = entries;
        proof {
            assert(self.listing() =~= after);
        }
    }

    /// Takes the entry under `key` out.
    pub fn remove(&mut self, key: &str) -> (r: Option<V>)
        ensures
            final(self)@ == old(self)@.remove(key@),
            match r {
                Some(v) => old(self)@.contains_key(key@) && v == old(self)@[key@],
                None => !old(self)@.contains_key(key@),
            },
    {
        proof {
            use_type_invariant(&*self);
            lemma_map_of(self.listing());
        }
        let at = self.place_of(key);
        if !(at < self.entries.len() && str_eq(self.entries[at].0.as_str(), key)) {
            proof {
                assert(self@.remove(key@) =~= self@);
            }
            return None;
        }
        let ghost before = self.listing();
        let ghost before_map = self@;
        let mut entries: Vec<(String, V)> = Vec::new();
        std::mem::swap(&mut entries, &mut self.entries);
        let (_key, value) = entries.remove(at);
        let ghost after = Seq::new(entries@.len(), |i: int| (entries@[i].0@, entries@[i].1));
        proof {
            assert(after =~= before.remove(at as int));
            lemma_remove(before, before_map, at as int);
        }
        self.entries = entries;
        proof {
            assert(self.listing() =~= after);
        }
        Some(value)
    }
}

impl<V> View for StringMap<V> {
    type V = Map<Seq<char>, V>;

    closed spec fn view(&self) -> Map<Seq<char>, V> {
        map_of(self.listing())
    }
}

impl<V: Clone> Clone for StringMap<V> {
    fn clone(&self) -> (r: Self)
        ensures
            r@.dom() == self@.dom(),
            forall|k: Seq<char>| #[trigger] self@.contains_key(k) ==> cloned::<V>(self@[k], r@[k]),
    {
        proof {
            use_type_invariant(self);
            lemma_map_of(self.listing());
        }
        let mut entries: Vec<(String, V)> = Vec::new();
        let mut i: usize = 0;
        while i < self.entries.len()
            invariant
                i <= self.entries@.len(),
                entries@.len() == i,
                forall|j: int|
                    0 <= j < i ==> (#[trigger] entries@[j]).0@ == self.entries@[j].0@ && cloned::<V>(
                        self.entries@[j].1,
                        entries@[j].1,
                    ),
            decreases self.entries@.len() - i,
        {
            entries.push((self.entries[i].0.clone(), self.entries[i].1.clone()));
            i = i + 1;
        }
        proof {
            let after = Seq::new(entries@.len(), |i: int| (entries@[i].0@, entries@[i].1));
            assert(keys_of(after) =~= keys_of(self.listing()));
            lemma_map_of(after);
            let keys = keys_of(after);
            assert forall|k: Seq<char>| #[trigger] self@.contains_key(k) implies cloned::<V>(self@[k], map_of(after)[k]) by {
                assert(keys.contains(k));
                let n = choose|n: int| 0 <= n < keys.len() && keys[n] == k;
                assert(after[n].0 == k && self.listing()[n].0 == k);
                assert(map_of(after)[after[n].0] == after[n].1);
                assert(self@[self.listing()[n].0] == self.listing()[n].1);
            }
            assert(map_of(after).dom() =~= self@.dom());
        }
        let r = StringMap { entries };
        proof {
            assert(r.listing() =~= Seq::new(r.entries@.len(), |i: int| (r.entries@[i].0@, r.entries@[i].1)));
        }
        r
    }
}

impl<V> Default for StringMap<V> {
    fn default() -> (r: Self)
        ensures
            r@ == Map::<Seq<char>, V>::empty(),
    {
        StringMap::new()
    }
}

} // verus!
