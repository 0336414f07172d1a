//! A small map from text keys to values.
//!
//! Entries stay in the order in which their keys were first inserted, and no
//! key occurs twice. The model is a `Map` from the characters of the key to the
//! value.

use vstd::prelude::*;

use crate::text::str_eq;

verus! {

/// One key with its value.
#[derive(Debug)]
pub struct Entry<V> {
    pub key: String,
    pub value: V,
}

/// A map from text keys to values.
#[derive(Debug)]
pub struct Table<V> {
    entries: Vec<Entry<V>>,
}

/// Whether no two entries share a key.
pub open spec fn distinct_keys<V>(s: Seq<Entry<V>>) -> bool {
    forall|i: int, j: int|
        0 <= i < j < s.len() ==> (#[trigger] s[i]).key@ != (#[trigger] s[j]).key@
}

/// The map that a sequence of entries stands for.
pub open spec fn map_of<V>(s: Seq<Entry<V>>) -> Map<Seq<char>, V>
    decreases s.len(),
{
    if s.len() == 0 {
        Map::empty()
    } else {
        map_of(s.drop_last()).insert(s.last().key@, s.last().value)
    }
}

/// Whether the entry at `i` holds the key `k`.
pub open spec fn key_at<V>(s: Seq<Entry<V>>, i: int, k: Seq<char>) -> bool {
    0 <= i < s.len() && s[i].key@ == k
}

/// A key is in the map exactly when some entry holds it.
pub proof fn lemma_map_of_keys<V>(s: Seq<Entry<V>>, k: Seq<char>)
    ensures
        map_of(s).contains_key(k) <==> exists|i: int| key_at(s, i, k),
    decreases s.len(),
{
    if s.len() > 0 {
        lemma_map_of_keys(s.drop_last(), k);
        if exists|i: int| key_at(s, i, k) {
            let i = choose|i: int| key_at(s, i, k);
            if i < s.len() - 1 {
                assert(key_at(s.drop_last(), i, k));
            }
        }
        if s.last().key@ == k {
            assert(key_at(s, s.len() - 1, k));
        }
        if exists|i: int| key_at(s.drop_last(), i, k) {
            let i = choose|i: int| key_at(s.drop_last(), i, k);
            assert(key_at(s, i, k));
        }
    }
}

/// With distinct keys, the map gives each entry's key that entry's value.
pub proof fn lemma_map_of_value<V>(s: Seq<Entry<V>>, i: int)
    requires
        distinct_keys(s),
        0 <= i < s.len(),
    ensures
        map_of(s).contains_key(s[i].key@),
        map_of(s)[s[i].key@] == s[i].value,
    decreases s.len(),
{
    if i < s.len() - 1 {
        assert(s.drop_last()[i] == s[i]);
        lemma_map_of_value(s.drop_last(), i);
        assert(s[i].key@ != s[s.len() - 1].key@);
    }
}

/// The map has as many keys as there are entries.
pub proof fn lemma_map_of_len<V>(s: Seq<Entry<V>>)
    requires
        distinct_keys(s),
    ensures
        map_of(s).dom().finite(),
        map_of(s).dom().len() == s.len(),
    decreases s.len(),
{
    if s.len() > 0 {
        lemma_map_of_len(s.drop_last());
        lemma_map_of_keys(s.drop_last(), s.last().key@);
        assert(!map_of(s.drop_last()).contains_key(s.last().key@)) by {
            if exists|i: int| key_at(s.drop_last(), i, s.last().key@) {
                let i = choose|i: int| key_at(s.drop_last(), i, s.last().key@);
                assert(s[i].key@ == s[s.len() - 1].key@);
            }
        }
    } else {
        assert(map_of(s).dom() =~= Set::empty());
    }
}

/// Changing the value of one entry changes the map at that entry's key.
pub proof fn lemma_map_of_update<V>(s: Seq<Entry<V>>, i: int, e: Entry<V>)
    requires
        distinct_keys(s),
        0 <= i < s.len(),
        e.key@ == s[i].key@,
    ensures
        distinct_keys(s.update(i, e)),
        map_of(s.update(i, e)) == map_of(s).insert(e.key@, e.value),
    decreases s.len(),
{
    let t = s.update(i, e);
    if i == s.len() - 1 {
        assert(t.drop_last() =~= s.drop_last());
        assert(map_of(t) =~= map_of(s).insert(e.key@, e.value));
    } else {
        assert(t.drop_last() =~= s.drop_last().update(i, e));
        lemma_map_of_update(s.drop_last(), i, e);
        assert(s[i].key@ != s[s.len() - 1].key@);
        assert(map_of(t) =~= map_of(s).insert(e.key@, e.value));
    }
}

/// Removing one entry removes its key from the map.
pub proof fn lemma_map_of_remove<V>(s: Seq<Entry<V>>, i: int)
    requires
        distinct_keys(s),
        0 <= i < s.len(),
    ensures
        distinct_keys(s.remove(i)),
        map_of(s.remove(i)) == map_of(s).remove(s[i].key@),
    decreases s.len(),
{
    let t = s.remove(i);
    let k = s[i].key@;
    if i == s.len() - 1 {
        assert(t =~= s.drop_last());
        lemma_map_of_keys(s.drop_last(), k);
        assert(!map_of(s.drop_last()).contains_key(k)) by {
            if exists|j: int| key_at(s.drop_last(), j, k) {
                let j = choose|j: int| key_at(s.drop_last(), j, k);
                assert(s[j].key@ == s[i].key@);
            }
        }
        assert(map_of(t) =~= map_of(s).remove(k));
    } else {
        assert(t.drop_last() =~= s.drop_last().remove(i));
        lemma_map_of_remove(s.drop_last(), i);
        assert(s[i].key@ != s[s.len() - 1].key@);
        assert(map_of(t) =~= map_of(s).remove(k));
    }
}

/// The keys of those among the first `n` entries whose value satisfies `p`, in
/// order.
pub open spec fn picked<V>(s: Seq<Entry<V>>, p: spec_fn(V) -> bool, n: int) -> Seq<Seq<char>>
    decreases n,
{
    if n <= 0 {
        Seq::empty()
    } else if p(s[n - 1].value) {
        picked(s, p, n - 1).push(s[n - 1].key@)
    } else {
        picked(s, p, n - 1)
    }
}

/// Whether the entry at `i`, which satisfies `p`, holds the key `k`.
pub open spec fn picked_at<V>(s: Seq<Entry<V>>, p: spec_fn(V) -> bool, i: int, k: Seq<char>) -> bool {
    key_at(s, i, k) && p(s[i].value)
}

proof fn lemma_picked_from<V>(s: Seq<Entry<V>>, p: spec_fn(V) -> bool, n: int)
    requires
        distinct_keys(s),
        0 <= n <= s.len(),
    ensures
        picked(s, p, n).no_duplicates(),
        picked(s, p, n).len() <= n,
        forall|k: Seq<char>| #[trigger]
            picked(s, p, n).contains(k) <==> exists|i: int| i < n && picked_at(s, p, i, k),
    decreases n,
{
    if n > 0 {
        lemma_picked_from(s, p, n - 1);
        let before = picked(s, p, n - 1);
        let key = s[n - 1].key@;
        let now = picked(s, p, n);
        if p(s[n - 1].value) {
            assert(!before.contains(key)) by {
                if before.contains(key) {
                    let i = choose|i: int| i < n - 1 && picked_at(s, p, i, key);
                    assert(s[i].key@ == s[n - 1].key@);
                }
            }
            assert forall|i: int, j: int| 0 <= i < now.len() && 0 <= j < now.len() && i != j implies
                now[i] != now[j] by {
                if i < before.len() {
                    assert(before.contains(before[i]));
                }
                if j < before.len() {
                    assert(before.contains(before[j]));
                }
            }
        }
        assert forall|k: Seq<char>| #[trigger] now.contains(k) <==> exists|i: int|
            i < n && picked_at(s, p, i, k) by {
            if now.contains(k) {
                let at = choose|at: int| 0 <= at < now.len() && now[at] == k;
                if at < before.len() {
                    assert(before[at] == k);
                    assert(before.contains(k));
                    let i = choose|i: int| i < n - 1 && picked_at(s, p, i, k);
                    assert(i < n && picked_at(s, p, i, k));
                } else {
                    assert(picked_at(s, p, n - 1, k));
                }
            }
            if exists|i: int| i < n && picked_at(s, p, i, k) {
                let i = choose|i: int| i < n && picked_at(s, p, i, k);
                if i < n - 1 {
                    assert(before.contains(k));
                    let at = choose|at: int| 0 <= at < before.len() && before[at] == k;
                    assert(now[at] == k);
                } else {
                    assert(now[before.len() as int] == k);
                }
            }
        }
    }
}

/// The keys that are picked are those whose value satisfies `p`, each once.
pub proof fn lemma_picked<V>(s: Seq<Entry<V>>, p: spec_fn(V) -> bool)
    requires
        distinct_keys(s),
    ensures
        picked(s, p, s.len() as int).no_duplicates(),
        picked(s, p, s.len() as int).len() <= s.len(),
        forall|k: Seq<char>| #[trigger]
            picked(s, p, s.len() as int).contains(k) <==> map_of(s).contains_key(k) && p(
                map_of(s)[k],
            ),
{
    let n = s.len() as int;
    lemma_picked_from(s, p, n);
    assert forall|k: Seq<char>| #[trigger] picked(s, p, n).contains(k) <==> map_of(s).contains_key(k)
        && p(map_of(s)[k]) by {
        lemma_map_of_keys(s, k);
        if picked(s, p, n).contains(k) {
            let i = choose|i: int| i < n && picked_at(s, p, i, k);
            lemma_map_of_value(s, i);
        }
        if map_of(s).contains_key(k) && p(map_of(s)[k]) {
            let i = choose|i: int| key_at(s, i, k);
            lemma_map_of_value(s, i);
            assert(i < n && picked_at(s, p, i, k));
        }
    }
}

impl<V> View for Table<V> {
    type V = Map<Seq<char>, V>;

    closed spec fn view(&self) -> Map<Seq<char>, V> {
        map_of(self.entries@)
    }
}

impl<V> Table<V> {
    /// No key occurs twice.
    #[verifier::type_invariant]
    spec fn inv(&self) -> bool {
        distinct_keys(self.entries@)
    }

    /// The entries, in the order in which their keys were first inserted.
    pub closed spec fn seq(&self) -> Seq<Entry<V>> {
        self.entries@
    }

    /// An empty map.
    pub fn new() -> (r: Self)
        ensures
            r@ == Map::<Seq<char>, V>::empty(),
            r.seq() == Seq::<Entry<V>>::empty(),
    {
        Table { entries: Vec::new() }
    }

    /// The number of keys.
    pub fn len(&self) -> (r: usize)
        ensures
            self@.dom().finite(),
            r == self@.dom().len(),
            r == self.seq().len(),
            distinct_keys(self.seq()),
            self@ == map_of(self.seq()),
    {
        proof {
            use_type_invariant(self);
            lemma_map_of_len(self.entries@);
        }
        self.entries.len()
    }

    /// The entry at position `i`.
    pub fn entry_at(&self, i: usize) -> (r: &Entry<V>)
        requires
            i < self.seq().len(),
        ensures
            *r == self.seq()[i as int],
            self@.contains_key(r.key@),
            self@[r.key@] == r.value,
    {
        proof {
            use_type_invariant(self);
            lemma_map_of_value(self.entries@, i as int);
        }
        &self.entries[i]
    }

    fn position(&self, key: &str) -> (r: Option<usize>)
        ensures
            match r {
                Some(i) => i < self.entries@.len() && self.entries@[i as int].key@ == key@
                    && self@.contains_key(key@) && self@[key@] == self.entries@[i as int].value,
                None => !self@.contains_key(key@) && forall|j: int|
                    0 <= j < self.entries@.len() ==> (#[trigger] self.entries@[j]).key@ != key@,
            },
    {
        proof {
            use_type_invariant(self);
        }
        let mut i: usize = 0;
        while i < self.entries.len()
            invariant
                i <= self.entries@.len(),
                distinct_keys(self.entries@),
                forall|j: int| 0 <= j < i ==> (#[trigger] self.entries@[j]).key@ != key@,
            decreases self.entries@.len() - i,
        {
            if str_eq(self.entries[i].key.as_str(), key) {
                proof {
                    lemma_map_of_value(self.entries@, i as int);
                }
                return Some(i);
            }
            i += 1;
        }
        proof {
            use_type_invariant(self);
            lemma_map_of_keys(self.entries@, key@);
        }
        None
    }

    /// The value of `key`.
    pub fn get(&self, key: &str) -> (r: Option<&V>)
        ensures
            match r {
                Some(v) => self@.contains_key(key@) && *v == self@[key@],
                None => !self@.contains_key(key@),
            },
    {
        match self.position(key) {
            Some(i) => Some(&self.entries[i].value),
            None => None,
        }
    }

    /// Whether the map has `key`.
    pub fn contains_key(&self, key: &str) -> (r: bool)
        ensures
            r == self@.contains_key(key@),
    {
        match self.position(key) {
            Some(_) => true,
            None => false,
        }
    }

    /// Gives `key` the value `value`, in place of any earlier one.
    pub fn insert(&mut self, key: String, value: V)
        ensures
            final(self)@ == old(self)@.insert(key@, value),
    {
        proof {
            use_type_invariant(&*self);
        }
        match self.position(key.as_str()) {
            Some(i) => {
                let ghost before = self.entries@;
                let entry = Entry { key, value };
                let mut entries: Vec<Entry<V>> = Vec::new();
                std::mem::swap(&mut entries, &mut self.entries);
                proof {
                    lemma_map_of_update(before, i as int, entry);
                }
                entries.set(i, entry);
                self.entries = entries;
            },
            None => {
                let ghost before = self.entries@;
                let mut entries: Vec<Entry<V>> = Vec::new();
                std::mem::swap(&mut entries, &mut self.entries);
                entries.push(Entry { key, value });
                assert(entries@.drop_last() =~= before);
                self.entries = entries;
            },
        }
    }

    /// Takes `key` out of the map.
    pub fn remove(&mut self, key: &str) -> (r: Option<V>)
        ensures
            final(self)@ == old(self)@.remove(key@),
            match r {
                Some(v) => old(self)@.contains_key(key@) && v == old(self)@[key@],
                None => !old(self)@.contains_key(key@),
            },
    {
        proof {
            use_type_invariant(&*self);
        }
        match self.position(key) {
            Some(i) => {
                let ghost before = self.entries@;
                let mut entries: Vec<Entry<V>> = Vec::new();
                std::mem::swap(&mut entries, &mut self.entries);
                let entry = entries.remove(i);
                proof {
                    lemma_map_of_remove(before, i as int);
                }
                self.entries = entries;
                Some(entry.value)
            },
            None => {
                assert(self@.remove(key@) =~= self@);
                None
            },
        }
    }

    /// Takes every key out of the map.
    pub fn clear(&mut self)
        ensures
            final(self)@ == Map::<Seq<char>, V>::empty(),
            final(self).seq() == Seq::<Entry<V>>::empty(),
    {
        self.entries = Vec::new();
    }
}

impl Table<String> {
    /// A map with the same entries.
    pub fn copy(&self) -> (r: Table<String>)
        ensures
            r.seq() == self.seq(),
            r@ == self@,
    {
        proof {
            use_type_invariant(self);
        }
        let mut entries: Vec<Entry<String>> = Vec::new();
        let mut i: usize = 0;
        while i < self.entries.len()
            invariant
                i <= self.entries@.len(),
                entries@ == self.entries@.take(i as int),
            decreases self.entries@.len() - i,
        {
            let e = Entry { key: self.entries[i].key.clone(), value: self.entries[i].value.clone() };
            assert(self.entries@.take(i as int + 1) =~= self.entries@.take(i as int).push(e));
            entries.push(e);
            i += 1;
        }
        assert(self.entries@.take(self.entries@.len() as int) =~= self.entries@);
        Table { entries }
    }
}

} // verus!
