//! Pages of rows, newest first.

use vstd::prelude::*;

use crate::text::string_views;
use crate::time::Timestamp;

verus! {

/// The smaller of two numbers.
pub open spec fn smaller(a: int, b: int) -> int {
    if a <= b {
        a
    } else {
        b
    }
}

/// Whether these are the positions of the `limit` newest among the times, newest
/// first.
pub open spec fn newest_of(r: Seq<usize>, times: Seq<Timestamp>, limit: int) -> bool {
    &&& r.len() == smaller(limit, times.len() as int)
    &&& forall|i: int| 0 <= i < r.len() ==> (#[trigger] r[i]) < times.len()
    &&& forall|i: int, j: int| 0 <= i < j < r.len() ==> #[trigger] r[i] != #[trigger] r[j]
    &&& forall|i: int, j: int|
        0 <= i < j < r.len() ==> times[(#[trigger] r[i]) as int]@ >= times[(
        #[trigger] r[j]) as int]@
    &&& forall|k: usize, i: int|
        k < times.len() && !r.contains(k) && 0 <= i < r.len() ==> (#[trigger] times[k as int])@
            <= times[(#[trigger] r[i]) as int]@
}

/// The positions of the `limit` newest among the times, newest first.
pub fn newest(times: &Vec<Timestamp>, limit: usize) -> (r: Vec<usize>)
    ensures
        newest_of(r@, times@, limit as int),
{
    let mut order: Vec<usize> = Vec::new();
    let mut i: usize = 0;
    while i < times.len()
        invariant
            i <= times@.len(),
            order@.len() == i,
            forall|j: int| 0 <= j < i ==> (#[trigger] order@[j]) < i,
            forall|j: int, k: int|
                0 <= j < k < i ==> #[trigger] order@[j] != #[trigger] order@[k],
            forall|j: int, k: int|
                0 <= j < k < i ==> times@[(#[trigger] order@[j]) as int]@ >= times@[(
                #[trigger] order@[k]) as int]@,
            forall|k: usize| k < i ==> #[trigger] order@.contains(k),
        decreases times@.len() - i,
    {
        let mut at: usize = order.len();
        while at > 0 && times[order[at - 1]].before(&times[i])
            invariant
                at <= order@.len() == i < times@.len(),
                forall|j: int| 0 <= j < i ==> (#[trigger] order@[j]) < i,
                forall|j: int|
                    at <= j < order@.len() ==> times@[(#[trigger] order@[j]) as int]@
                        < times@[i as int]@,
            decreases at,
        {
            at -= 1;
        }
        let ghost before = order@;
        order.insert(at, i);
        proof {
            assert forall|j: int, k: int| 0 <= j < k < i + 1 implies times@[(
            #[trigger] order@[j]) as int]@ >= times@[(#[trigger] order@[k]) as int]@
                && order@[j] != order@[k] by {
                let a = if j < at {
                    j
                } else {
                    j - 1
                };
                let b = if k < at {
                    k
                } else {
                    k - 1
                };
                if j == at {
                    assert(order@[k] == before[b]);
                } else if k == at {
                    assert(order@[j] == before[a]);
                    if a < at - 1 {
                        assert(times@[before[a] as int]@ >= times@[before[at - 1] as int]@);
                    }
                } else {
                    assert(order@[j] == before[a]);
                    assert(order@[k] == before[b]);
                }
            }
            assert forall|k: usize| k < i + 1 implies #[trigger] order@.contains(k) by {
                if k == i {
                    assert(order@[at as int] == k);
                } else {
                    assert(before.contains(k));
                    let j = before.index_of(k);
                    if j < at {
                        assert(order@[j] == k);
                    } else {
                        assert(order@[j + 1] == k);
                    }
                }
            }
        }
        i += 1;
    }
    let ghost all = order@;
    if limit < order.len() {
        order.truncate(limit);
    }
    proof {
        assert forall|k: usize, j: int|
            k < times@.len() && !order@.contains(k) && 0 <= j < order@.len() implies (
        #[trigger] times@[k as int])@ <= times@[(#[trigger] order@[j]) as int]@ by {
            assert(all.contains(k));
            let p = all.index_of(k);
            if p < order@.len() {
                assert(order@[p] == k);
            }
            assert(order@[j] == all[j]);
            assert(times@[all[j] as int]@ >= times@[all[p] as int]@);
        }
    }
    order
}

/// Whether `shown` are the `limit` newest of the keys, newest first.
pub open spec fn page_of(
    shown: Seq<Seq<char>>,
    all: Seq<Seq<char>>,
    time: spec_fn(Seq<char>) -> int,
    limit: int,
) -> bool {
    &&& shown.len() == smaller(limit, all.len() as int)
    &&& shown.no_duplicates()
    &&& forall|i: int| 0 <= i < shown.len() ==> all.contains(#[trigger] shown[i])
    &&& forall|i: int, j: int|
        0 <= i < j < shown.len() ==> time(#[trigger] shown[i]) >= time(#[trigger] shown[j])
    &&& forall|k: Seq<char>, i: int|
        #![trigger all.contains(k), shown[i]]
        all.contains(k) && !shown.contains(k) && 0 <= i < shown.len() ==> time(k) <= time(shown[i])
}

/// The `limit` newest of the keys, newest first.
pub(crate) fn page(
    keys: &Vec<String>,
    times: &Vec<Timestamp>,
    limit: usize,
    Ghost(time): Ghost<spec_fn(Seq<char>) -> int>,
) -> (r: Vec<String>)
    requires
        keys@.len() == times@.len(),
        string_views(keys@).no_duplicates(),
        forall|i: int| 0 <= i < keys@.len() ==> time((#[trigger] keys@[i])@) == times@[i]@,
    ensures
        page_of(string_views(r@), string_views(keys@), time, limit as int),
{
    let order = newest(times, limit);
    let n: usize = keys.len();
    let ghost all = string_views(keys@);
    let mut out: Vec<String> = Vec::new();
    let mut i: usize = 0;
    while i < order.len()
        invariant
            i <= order@.len(),
            out@.len() == i,
            keys@.len() == times@.len(),
            newest_of(order@, times@, limit as int),
            forall|j: int| 0 <= j < i ==> #[trigger] out@[j] == keys@[order@[j] as int],
        decreases order@.len() - i,
    {
        assert(order@[i as int] < times@.len());
        out.push(keys[order[i]].clone());
        i += 1;
    }
    proof {
        let shown = string_views(out@);
        assert forall|j: int| 0 <= j < shown.len() implies all.contains(#[trigger] shown[j]) by {
            assert(out@[j] == keys@[order@[j] as int]);
            assert(all[order@[j] as int] == shown[j]);
        }
        assert forall|j: int, k: int|
            0 <= j < shown.len() && 0 <= k < shown.len() && j != k implies shown[j] != shown[k] by {
            assert(out@[j] == keys@[order@[j] as int]);
            assert(out@[k] == keys@[order@[k] as int]);
            assert(order@[j] != order@[k]);
            assert(all[order@[j] as int] != all[order@[k] as int]);
        }
        assert forall|j: int, k: int| 0 <= j < k < shown.len() implies time(#[trigger] shown[j])
            >= time(#[trigger] shown[k]) by {
            assert(out@[j] == keys@[order@[j] as int]);
            assert(out@[k] == keys@[order@[k] as int]);
            assert(time(keys@[order@[j] as int]@) == times@[order@[j] as int]@);
            assert(time(keys@[order@[k] as int]@) == times@[order@[k] as int]@);
        }
        assert forall|k: Seq<char>, j: int|
            #![trigger all.contains(k), shown[j]]
            all.contains(k) && !shown.contains(k) && 0 <= j < shown.len() implies time(k) <= time(
            shown[j],
        ) by {
            let p = all.index_of(k);
            assert(p < n);
            assert(keys@[p]@ == k);
            if order@.contains(p as usize) {
                let q = order@.index_of(p as usize);
                assert(out@[q] == keys@[order@[q] as int]);
                assert(shown[q] == k);
            }
            assert(out@[j] == keys@[order@[j] as int]);
            assert(time(keys@[p]@) == times@[p]@);
            assert(time(keys@[order@[j] as int]@) == times@[order@[j] as int]@);
            assert(times@[p]@ <= times@[order@[j] as int]@);
        }
    }
    out
}

/// The size of a page: what was asked for, a hundred by default, and never more
/// than five hundred.
pub open spec fn page_size(asked: Option<usize>) -> int {
    match asked {
        Some(n) => smaller(n as int, 500),
        None => 100,
    }
}

/// The size of a page.
pub fn page_limit(asked: Option<usize>) -> (r: usize)
    ensures
        r == page_size(asked),
{
    match asked {
        Some(n) => if n <= 500 {
            n
        } else {
            500
        },
        None => 100,
    }
}

} // verus!
