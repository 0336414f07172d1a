//! The receipts that were issued, by their id.

use vstd::prelude::*;
use vstd::seq_lib::{to_multiset_build, to_multiset_contains, to_multiset_insert};

use crate::signing::ReceiptClaims;
use crate::table::{
    distinct_keys, key_at, lemma_map_of_keys, lemma_map_of_value, map_of, Entry, Table,
};

verus! {

/// A receipt as it was issued.
#[derive(Debug)]
pub struct StoredReceipt {
    pub jti: String,
    pub kid: String,
    pub jws: String,
    pub body_digest: String,
    pub claims: ReceiptClaims,
}

impl Clone for StoredReceipt {
    fn clone(&self) -> (r: Self)
        ensures
            r == *self,
    {
        StoredReceipt {
            jti: self.jti.clone(),
            kid: self.kid.clone(),
            jws: self.jws.clone(),
            body_digest: self.body_digest.clone(),
            claims: self.claims.clone(),
        }
    }
}

/// The receipts that were issued, kept in this process.
#[derive(Debug)]
pub struct ReceiptStore {
    inner: Table<StoredReceipt>,
}

impl View for ReceiptStore {
    type V = Map<Seq<char>, StoredReceipt>;

    closed spec fn view(&self) -> Map<Seq<char>, StoredReceipt> {
        self.inner@
    }
}

/// Whether the receipts come newest first.
pub open spec fn newest_first(s: Seq<StoredReceipt>) -> bool {
    forall|i: int, j: int|
        0 <= i < j < s.len() ==> (#[trigger] s[i]).claims.iat >= (#[trigger] s[j]).claims.iat
}

/// The first `n` of a sequence, or all when there are fewer.
pub open spec fn at_most<T>(s: Seq<T>, n: int) -> Seq<T> {
    if s.len() <= n {
        s
    } else {
        s.take(n)
    }
}

/// Whether some key of the map has this value.
pub open spec fn holds_value<V>(m: Map<Seq<char>, V>, x: V) -> bool {
    exists|k: Seq<char>| #[trigger] m.contains_key(k) && m[k] == x
}

/// The values of a sequence of entries.
pub open spec fn values<V>(s: Seq<Entry<V>>) -> Seq<V> {
    s.map_values(|e: Entry<V>| e.value)
}

/// Whether every receipt is kept under its own id.
pub open spec fn under_own_ids(m: Map<Seq<char>, StoredReceipt>) -> bool {
    forall|k: Seq<char>| #[trigger] m.contains_key(k) ==> m[k].jti@ == k
}

/// Whether no id occurs twice.
pub open spec fn distinct_ids(s: Seq<StoredReceipt>) -> bool {
    forall|i: int, j: int|
        0 <= i < j < s.len() ==> (#[trigger] s[i]).jti@ != (#[trigger] s[j]).jti@
}

impl Default for ReceiptStore {
    fn default() -> (r: Self)
        ensures
            r@ == Map::<Seq<char>, StoredReceipt>::empty(),
    {
        ReceiptStore::new()
    }
}

impl ReceiptStore {
    #[verifier::type_invariant]
    spec fn inv(self) -> bool {
        under_own_ids(self.inner@)
    }

    /// All receipts, in the order in which they were first issued.
    pub closed spec fn all(&self) -> Seq<StoredReceipt> {
        values(self.inner.seq())
    }

    /// An empty store.
    pub fn new() -> (r: ReceiptStore)
        ensures
            r@ == Map::<Seq<char>, StoredReceipt>::empty(),
    {
        ReceiptStore { inner: Table::new() }
    }

    /// An empty store.
    pub fn in_memory() -> (r: ReceiptStore)
        ensures
            r@ == Map::<Seq<char>, StoredReceipt>::empty(),
    {
        ReceiptStore::new()
    }

    /// Keeps a receipt under its id, in place of any earlier one.
    pub fn insert(&mut self, receipt: StoredReceipt)
        ensures
            final(self)@ == old(self)@.insert(receipt.jti@, receipt),
    {
        proof {
            use_type_invariant(&*self);
        }
        let mut inner: Table<StoredReceipt> = Table::new();
        std::mem::swap(&mut inner, &mut self.inner);
        inner.insert(receipt.jti.clone(), receipt);
        self.inner = inner;
    }

    /// The receipt with this id.
    pub fn get(&self, jti: &str) -> (r: Option<StoredReceipt>)
        ensures
            match r {
                Some(x) => self@.contains_key(jti@) && x == self@[jti@] && x.jti@ == jti@,
                None => !self@.contains_key(jti@),
            },
    {
        proof {
            use_type_invariant(self);
        }
        match self.inner.get(jti) {
            Some(x) => Some(x.clone()),
            None => None,
        }
    }

    /// The newest receipts, at most `limit` of them, newest first. The result
    /// is the beginning of all receipts of the store in that order, each of them
    /// once; among receipts of the same second the order is not determined.
    pub fn list_recent(&self, limit: usize) -> (r: Vec<StoredReceipt>)
        ensures
            exists|all: Seq<StoredReceipt>| #[trigger]
                all.to_multiset() == self.all().to_multiset() && newest_first(all) && r@ == at_most(
                    all,
                    limit as int,
                ),
            self.all().len() == self@.dom().len(),
            forall|i: int| 0 <= i < self.all().len() ==> holds_value(self@, #[trigger] self.all()[i]),
            forall|k: Seq<char>| #[trigger]
                self@.contains_key(k) ==> self.all().contains(self@[k]),
            under_own_ids(self@),
            distinct_ids(r@),
    {
        proof {
            use_type_invariant(self);
        }
        let n: usize = self.inner.len();
        let mut out: Vec<StoredReceipt> = Vec::new();
        let ghost all = self.all();
        let mut i: usize = 0;
        assert(out@ =~= all.take(0));
        while i < n
            invariant
                i <= n == self.inner.seq().len(),
                all == values(self.inner.seq()),
                out@.to_multiset() == all.take(i as int).to_multiset(),
                out@.len() == i,
                newest_first(out@),
                distinct_ids(out@),
                under_own_ids(self@),
                distinct_keys(self.inner.seq()),
                self.inner@ == map_of(self.inner.seq()),
                forall|j: int| 0 <= j < i ==> holds_value(self@, #[trigger] all[j]),
            decreases n - i,
        {
            let e = self.inner.entry_at(i);
            let x = e.value.clone();
            assert(all[i as int] == x);
            assert(self@.contains_key(e.key@) && self@[e.key@] == x);
            // `x` goes behind everything that is at least as new.
            let mut at: usize = out.len();
            while at > 0 && out[at - 1].claims.iat < x.claims.iat
                invariant
                    at <= out@.len(),
                    forall|j: int|
                        at <= j < out@.len() ==> (#[trigger] out@[j]).claims.iat < x.claims.iat,
                decreases at,
            {
                at -= 1;
            }
            let ghost before = out@;
            out.insert(at, x);
            proof {
                assert forall|p: int| 0 <= p < before.len() implies (#[trigger] before[p]).jti@
                    != x.jti@ by {
                    let y = before[p];
                    to_multiset_contains(before, y);
                    to_multiset_contains(all.take(i as int), y);
                    let j = choose|j: int| 0 <= j < i && all.take(i as int)[j] == y;
                    assert(all[j] == y);
                    lemma_map_of_value(self.inner.seq(), j);
                    lemma_map_of_value(self.inner.seq(), i as int);
                    assert(self.inner.seq()[j].key@ != self.inner.seq()[i as int].key@);
                }
                assert(distinct_ids(out@)) by {
                    assert forall|p: int, q: int| 0 <= p < q < out@.len() implies (
                    #[trigger] out@[p]).jti@ != (#[trigger] out@[q]).jti@ by {
                        let a = if p < at {
                            p
                        } else {
                            p - 1
                        };
                        let b = if q < at {
                            q
                        } else {
                            q - 1
                        };
                        if p == at {
                            assert(out@[q] == before[b]);
                        } else if q == at {
                            assert(out@[p] == before[a]);
                        } else {
                            assert(out@[p] == before[a]);
                            assert(out@[q] == before[b]);
                        }
                    }
                }
                to_multiset_insert(before, at as int, x);
                to_multiset_build(all.take(i as int), x);
                assert(all.take(i as int + 1) =~= all.take(i as int).push(x));
                assert(newest_first(out@)) by {
                    assert forall|p: int, q: int| 0 <= p < q < out@.len() implies (
                    #[trigger] out@[p]).claims.iat >= (#[trigger] out@[q]).claims.iat by {
                        let a = if p < at {
                            p
                        } else {
                            p - 1
                        };
                        let b = if q < at {
                            q
                        } else {
                            q - 1
                        };
                        if p == at {
                            assert(out@[q] == before[b]);
                        } else if q == at {
                            assert(out@[p] == before[a]);
                            if at > 0 && a < at - 1 {
                                assert(before[a].claims.iat >= before[at - 1].claims.iat);
                            }
                        } else {
                            assert(out@[p] == before[a]);
                            assert(out@[q] == before[b]);
                        }
                    }
                }
            }
            i += 1;
        }
        assert(all.take(n as int) =~= all);
        proof {
            assert forall|k: Seq<char>| #[trigger] self@.contains_key(k) implies all.contains(
                self@[k],
            ) by {
                lemma_map_of_keys(self.inner.seq(), k);
                let j = choose|j: int| key_at(self.inner.seq(), j, k);
                lemma_map_of_value(self.inner.seq(), j);
                assert(all[j] == self@[k]);
            }
        }
        let ghost sorted = out@;
        assert(sorted.to_multiset() == self.all().to_multiset());
        if limit < out.len() {
            out.truncate(limit);
            assert(out@ =~= sorted.take(limit as int));
        }
        out
    }

    /// The number of receipts.
    pub fn len(&self) -> (r: usize)
        ensures
            r == self@.dom().len(),
    {
        self.inner.len()
    }

    /// Whether there is no receipt.
    pub fn is_empty(&self) -> (r: bool)
        ensures
            r == (self@.dom().len() == 0),
    {
        self.len() == 0
    }
}

// ---------------------------------------------------------------------------
// Laws
// ---------------------------------------------------------------------------

/// A list of receipts that is newest first never shows an older one before a newer one, and a
/// short list is the beginning of the long one.
pub proof fn law_recent_receipts_come_first(s: Seq<StoredReceipt>, n: int, i: int, j: int)
    requires
        newest_first(s),
        0 <= n,
        0 <= i < j < at_most(s, n).len(),
    ensures
        at_most(s, n).len() == (if s.len() <= n {
            s.len() as int
        } else {
            n
        }),
        at_most(s, n)[i] == s[i],
        at_most(s, n)[i].claims.iat >= at_most(s, n)[j].claims.iat,
{
}

} // verus!
