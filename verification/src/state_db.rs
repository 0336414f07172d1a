//! The ladder of schema migrations of the state database.

use vstd::prelude::*;

use crate::text::{has_prefix, starts_with};

verus! {

/// One step of the ladder.
#[derive(Debug, Clone, Copy)]
pub struct Migration {
    /// Steps are taken in the order of their versions.
    pub version: u32,
    pub name: &'static str,
}

/// The versions of the ladder with their names, lowest first.
pub open spec fn ladder() -> Seq<(u32, Seq<char>)> {
    Seq::empty().push((1u32, "initial_schema"@)).push((2u32, "tenant_id_columns"@)).push(
        (3u32, "denormalized_query_columns_and_indexes"@),
    )
}

/// The versions and names of these steps.
pub open spec fn steps(v: Seq<Migration>) -> Seq<(u32, Seq<char>)> {
    v.map_values(|m: Migration| (m.version, m.name@))
}

/// The ladder: steps are only ever appended.
pub fn migrations() -> (r: Vec<Migration>)
    ensures
        steps(r@) == ladder(),
{
    let mut r: Vec<Migration> = Vec::new();
    r.push(Migration { version: 1, name: "initial_schema" });
    r.push(Migration { version: 2, name: "tenant_id_columns" });
    r.push(Migration { version: 3, name: "denormalized_query_columns_and_indexes" });
    assert(steps(r@) =~= ladder());
    r
}

/// The steps among the first `n` of the ladder that are not applied yet.
pub open spec fn missing_steps(applied: Seq<u32>, n: int) -> Seq<(u32, Seq<char>)>
    decreases n,
{
    if n <= 0 {
        Seq::empty()
    } else if applied.contains(ladder()[n - 1].0) {
        missing_steps(applied, n - 1)
    } else {
        missing_steps(applied, n - 1).push(ladder()[n - 1])
    }
}

fn holds(applied: &Vec<u32>, version: u32) -> (r: bool)
    ensures
        r == applied@.contains(version),
{
    let mut i: usize = 0;
    while i < applied.len()
        invariant
            i <= applied@.len(),
            forall|j: int| 0 <= j < i ==> applied@[j] != version,
        decreases applied@.len() - i,
    {
        if applied[i] == version {
            assert(applied@[i as int] == version);
            return true;
        }
        i += 1;
    }
    false
}

/// The steps that are still to be taken on a database with these versions, in
/// the order of the ladder.
pub fn pending_migrations(applied: &Vec<u32>) -> (r: Vec<Migration>)
    ensures
        steps(r@) == missing_steps(applied@, ladder().len() as int),
{
    let all = migrations();
    let mut out: Vec<Migration> = Vec::new();
    let mut i: usize = 0;
    assert(steps(out@) =~= Seq::empty());
    while i < all.len()
        invariant
            i <= all@.len() == ladder().len(),
            steps(all@) == ladder(),
            steps(out@) == missing_steps(applied@, i as int),
        decreases all@.len() - i,
    {
        assert(ladder()[i as int] == (all@[i as int].version, all@[i as int].name@));
        if !holds(applied, all[i].version) {
            let ghost before = out@;
            out.push(all[i]);
            assert(steps(out@) =~= steps(before).push(ladder()[i as int]));
        }
        i += 1;
    }
    out
}

/// Whether the text holds `p` at position `i` or later.
pub open spec fn occurs_from(s: Seq<char>, p: Seq<char>, i: int) -> bool
    decreases s.len() - i + 1,
{
    if i < 0 || i > s.len() {
        false
    } else {
        has_prefix(s.skip(i), p) || occurs_from(s, p, i + 1)
    }
}

/// Whether the failure of an additive step means that it was taken before: the
/// column is there already, or the table never was.
pub open spec fn tolerable(message: Seq<char>) -> bool {
    occurs_from(message, "duplicate column name"@, 0) || has_prefix(message, "no such table"@)
}

fn contains(s: &str, p: &str) -> (r: bool)
    ensures
        r == occurs_from(s@, p@, 0),
{
    let n: usize = s.unicode_len();
    let mut i: usize = 0;
    loop
        invariant
            i <= n == s@.len(),
            occurs_from(s@, p@, 0) == occurs_from(s@, p@, i as int),
        decreases n - i,
    {
        let rest = s.substring_char(i, n);
        assert(rest@ =~= s@.skip(i as int));
        if starts_with(rest, p) {
            return true;
        }
        if i == n {
            assert(!occurs_from(s@, p@, n as int + 1));
            return false;
        }
        i += 1;
    }
}

/// Whether the failure of an additive step means that it was taken before.
pub fn is_tolerable(message: &str) -> (r: bool)
    ensures
        r == tolerable(message@),
{
    contains(message, "duplicate column name") || starts_with(message, "no such table")
}

// ---------------------------------------------------------------------------
// Laws
// ---------------------------------------------------------------------------

/// Versions rise along the ladder, and none occurs twice.
pub proof fn law_ladder_rises(i: int, j: int)
    requires
        0 <= i < j < ladder().len(),
    ensures
        ladder()[i].0 < ladder()[j].0,
{
}

/// A fresh database takes every step, and one that took them all takes none.
pub proof fn law_ladder_is_climbed_once(applied: Seq<u32>)
    ensures
        missing_steps(Seq::empty(), ladder().len() as int) == ladder(),
        (forall|i: int| 0 <= i < ladder().len() ==> applied.contains((#[trigger] ladder()[i]).0))
            ==> missing_steps(applied, ladder().len() as int) == Seq::<(u32, Seq<char>)>::empty(),
{
    reveal_with_fuel(missing_steps, 4);
    assert(ladder().len() == 3);
    assert(ladder()[0].0 == 1 && ladder()[1].0 == 2 && ladder()[2].0 == 3);
    assert(missing_steps(Seq::empty(), 3) =~= ladder());
}

/// A step is still to be made exactly when it is on the ladder and was not made.
pub proof fn law_missing_steps_are_those_not_made(applied: Seq<u32>, n: int, step: (u32, Seq<char>))
    requires
        0 <= n <= ladder().len(),
    ensures
        missing_steps(applied, n).contains(step) <==> (exists|i: int|
            0 <= i < n && #[trigger] ladder()[i] == step) && !applied.contains(step.0),
    decreases n,
{
    if n > 0 {
        law_missing_steps_are_those_not_made(applied, n - 1, step);
        let before = missing_steps(applied, n - 1);
        let last = ladder()[n - 1];
        if !applied.contains(last.0) {
            let all = before.push(last);
            assert(all[before.len() as int] == last);
            if before.contains(step) {
                let i = choose|i: int| 0 <= i < before.len() && before[i] == step;
                assert(all[i] == step);
            }
            if all.contains(step) && step != last {
                let i = choose|i: int| 0 <= i < all.len() && all[i] == step;
                assert(before[i] == step);
            }
        }
    }
}

proof fn lemma_occurs(s: Seq<char>, p: Seq<char>, from: int)
    requires
        0 <= from <= s.len() + 1,
    ensures
        occurs_from(s, p, from) <==> exists|i: int|
            from <= i <= s.len() && has_prefix(#[trigger] s.skip(i), p),
    decreases s.len() - from + 1,
{
    if from <= s.len() {
        lemma_occurs(s, p, from + 1);
    }
}

/// A failure of a step is tolerated exactly when it says that the step was made before: that a
/// column is there already, or that there is no table to change.
pub proof fn law_repeated_steps_are_tolerated(message: Seq<char>)
    ensures
        tolerable(message) <==> (exists|i: int|
            0 <= i <= message.len() && has_prefix(
                #[trigger] message.skip(i),
                "duplicate column name"@,
            )) || has_prefix(message, "no such table"@),
{
    lemma_occurs(message, "duplicate column name"@, 0);
}

} // verus!
