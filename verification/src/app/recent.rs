//! A table of keys with the moment at which each was last seen.
//!
//! Moments are nanoseconds of a monotonic clock, counted from any fixed start.

use crate::text;
use vstd::prelude::*;

verus! {

/// How long ago `then` was at `now`; a moment that is still to come was just now.
pub open spec fn elapsed(now: u64, then: u64) -> int {
    if then <= now {
        now - then
    } else {
        0
    }
}

/// The table that a list of entries stands for.
pub open spec fn entries_map(entries: Seq<(String, u64)>) -> Map<Seq<char>, u64>
    decreases entries.len(),
{
    if entries.len() == 0 {
        Map::empty()
    } else {
        entries_map(entries.drop_last()).insert(entries.last().0@, entries.last().1)
    }
}

/// No key occurs in two entries.
pub open spec fn keys_distinct(entries: Seq<(String, u64)>) -> bool {
    forall|i: int, j: int|
        #![trigger entries[i], entries[j]]
        0 <= i < j < entries.len() ==> entries[i].0@ != entries[j].0@
}

/// The entries of `m` that are younger than `window` at `now`.
pub open spec fn younger(m: Map<Seq<char>, u64>, now: u64, window: u64) -> Map<Seq<char>, u64> {
    m.restrict(Set::new(|k: Seq<char>| m.contains_key(k) && elapsed(now, m[k]) < window))
}

proof fn lemma_entries_map(entries: Seq<(String, u64)>)
    requires
        keys_distinct(entries),
    ensures
        forall|i: int|
            #![trigger entries[i]]
            0 <= i < entries.len() ==> entries_map(entries).contains_key(entries[i].0@)
                && entries_map(entries)[entries[i].0@] == entries[i].1,
        forall|k: Seq<char>| #[trigger]
            entries_map(entries).contains_key(k) ==> exists|i: int|
                #![trigger entries[i]]
                0 <= i < entries.len() && entries[i].0@ == k,
    decreases entries.len(),
{
    if entries.len() > 0 {
        let front = entries.drop_last();
        assert(keys_distinct(front)) by {
            assert forall|i: int, j: int|
                #![trigger front[i], front[j]]
                0 <= i < j < front.len() implies front[i].0@ != front[j].0@ by {
                assert(entries[i].0@ != entries[j].0@);
            }
        }
        lemma_entries_map(front);
        assert forall|i: int|
            #![trigger entries[i]]
            0 <= i < entries.len() implies entries_map(entries).contains_key(entries[i].0@)
            && entries_map(entries)[entries[i].0@] == entries[i].1 by {
            if i < front.len() {
                assert(front[i] == entries[i]);
                assert(entries[i].0@ != entries[entries.len() - 1].0@);
            }
        }
        assert forall|k: Seq<char>| #[trigger] entries_map(entries).contains_key(k) implies exists|
            i: int,
        |
            #![trigger entries[i]]
            0 <= i < entries.len() && entries[i].0@ == k by {
            if k == entries.last().0@ {
                assert(entries[entries.len() - 1].0@ == k);
            } else {
                assert(entries_map(front).contains_key(k));
                let i = choose|i: int|
                    #![trigger front[i]]
                    0 <= i < front.len() && front[i].0@ == k;
                assert(entries[i].0@ == k);
            }
        }
    }
}

/// A table of keys with the moment at which each was last seen.
#[derive(Debug)]
pub struct RecentKeys {
    entries: Vec<(String, u64)>,
}

impl View for RecentKeys {
    type V = Map<Seq<char>, u64>;

    closed spec fn view(&self) -> Map<Seq<char>, u64> {
        entries_map(self.entries@)
    }
}

impl RecentKeys {
    /// No key is held twice.
    pub closed spec fn wf(&self) -> bool {
        keys_distinct(self.entries@)
    }

    /// The empty table.
    pub fn new() -> (r: Self)
        ensures
            r.wf(),
            r@ == Map::<Seq<char>, u64>::empty(),
    {
        RecentKeys { entries: Vec::new() }
    }

    /// The moment at which `key` was last seen, if it was.
    pub fn get(&self, key: &str) -> (r: Option<u64>)
        requires
            self.wf(),
        ensures
            r == if self@.contains_key(key@) {
                Some(self@[key@])
            } else {
                None
            },
    {
        proof {
            lemma_entries_map(self.entries@);
        }
        let mut i: usize = 0;
        while i < self.entries.len()
            invariant
                i <= self.entries@.len(),
                forall|k: int| 0 <= k < i ==> (#[trigger] self.entries@[k]).0@ != key@,
                forall|k: int|
                    #![trigger self.entries@[k]]
                    0 <= k < self.entries@.len() ==> self@.contains_key(self.entries@[k].0@)
                        && self@[self.entries@[k].0@] == self.entries@[k].1,
            decreases self.entries@.len() - i,
        {
            if text::str_eq(self.entries[i].0.as_str(), key) {
                return Some(self.entries[i].1);
            }
            i = i + 1;
        }
        None
    }

    /// Notes that `key` was seen at `now`.
    pub fn note(&mut self, key: &str, now: u64)
        requires
            old(self).wf(),
        ensures
            final(self).wf(),
            final(self)@ == old(self)@.insert(key@, now),
    {
        let mut kept: Vec<(String, u64)> = Vec::new();
        let mut i: usize = 0;
        proof {
            lemma_entries_map(self.entries@);
        }
        while i < self.entries.len()
            invariant
                i <= self.entries@.len(),
                *self == *old(self),
                old(self).wf(),
                keys_distinct(kept@),
                forall|j: int|
                    0 <= j < kept@.len() ==> (#[trigger] kept@[j]).0@ != key@ && exists|k: int|
                        0 <= k < i && (#[trigger] self.entries@[k]).0@ == kept@[j].0@,
                entries_map(kept@) == entries_map(self.entries@.take(i as int)).remove(key@),
            decreases self.entries@.len() - i,
        {
            let ghost before = kept@;
            assert(self.entries@.take(i + 1).drop_last() =~= self.entries@.take(i as int));
            if !text::str_eq(self.entries[i].0.as_str(), key) {
                kept.push((self.entries[i].0.clone(), self.entries[i].1));
                assert(kept@.drop_last() =~= before);
                assert(entries_map(kept@) =~= entries_map(self.entries@.take(i + 1)).remove(key@));
            } else {
                assert(entries_map(kept@) =~= entries_map(self.entries@.take(i + 1)).remove(key@));
            }
            i = i + 1;
        }
        let ghost before = kept@;
        assert(self.entries@.take(i as int) =~= self.entries@);
        kept.push((text::copy_str(key), now));
        assert(kept@.drop_last() =~= before);
        assert(entries_map(kept@) =~= entries_map(old(self).entries@).insert(key@, now));
        self.entries = kept;
    }

    /// Forgets every key that was last seen `window` ago or earlier.
    pub fn forget_older(&mut self, now: u64, window: u64)
        requires
            old(self).wf(),
        ensures
            final(self).wf(),
            final(self)@ == younger(old(self)@, now, window),
    {
        let mut kept: Vec<(String, u64)> = Vec::new();
        let mut i: usize = 0;
        while i < self.entries.len()
            invariant
                i <= self.entries@.len(),
                *self == *old(self),
                old(self).wf(),
                keys_distinct(kept@),
                forall|j: int|
                    0 <= j < kept@.len() ==> exists|k: int|
                        0 <= k < i && (#[trigger] self.entries@[k]).0@ == (
                        #[trigger] kept@[j]).0@,
                entries_map(kept@) == younger(
                    entries_map(self.entries@.take(i as int)),
                    now,
                    window,
                ),
            decreases self.entries@.len() - i,
        {
            let ghost before = kept@;
            let ghost seen = self.entries@.take(i as int);
            proof {
                assert(self.entries@.take(i + 1).drop_last() =~= seen);
                assert(keys_distinct(seen)) by {
                    assert forall|a: int, b: int|
                        #![trigger seen[a], seen[b]]
                        0 <= a < b < seen.len() implies seen[a].0@ != seen[b].0@ by {
                        assert(self.entries@[a].0@ != self.entries@[b].0@);
                    }
                }
                lemma_entries_map(seen);
                if entries_map(seen).contains_key(self.entries@[i as int].0@) {
                    let a = choose|a: int|
                        #![trigger seen[a]]
                        0 <= a < seen.len() && seen[a].0@ == self.entries@[i as int].0@;
                    assert(self.entries@[a].0@ != self.entries@[i as int].0@);
                }
            }
            let then: u64 = self.entries[i].1;
            let age: u64 = now.saturating_sub(then);
            if age < window {
                kept.push((self.entries[i].0.clone(), then));
                assert(kept@.drop_last() =~= before);
            }
            assert(entries_map(kept@) =~= younger(
                entries_map(self.entries@.take(i + 1)),
                now,
                window,
            ));
            i = i + 1;
        }
        assert(self.entries@.take(i as int) =~= self.entries@);
        self.entries = kept;
    }
}

// ── Laws ──

/// An entry stays exactly as long as less than the window has passed since its time, and it
/// keeps that time. A time that lies ahead counts as just now.
pub proof fn law_young_entries_stay(
    m: Map<Seq<char>, u64>,
    now: u64,
    window: u64,
    key: Seq<char>,
)
    ensures
        younger(m, now, window).contains_key(key) ==> m.contains_key(key),
        younger(m, now, window).contains_key(key) ==> younger(m, now, window)[key] == m[key],
        m.contains_key(key) && m[key] <= now ==> (younger(m, now, window).contains_key(key)
            <==> now - m[key] < window),
        m.contains_key(key) && m[key] > now ==> (younger(m, now, window).contains_key(key)
            <==> window > 0),
{
}

/// The table by its operations: a new one is empty, what is noted is found with its time, and
/// a key that was not noted is not found.
pub proof fn law_noted_is_found(
    fresh: RecentKeys,
    table: &mut RecentKeys,
    key: &str,
    now: u64,
    r: (),
    other: &str,
    before: Option<u64>,
)
    requires
        call_ensures(RecentKeys::new, (), fresh),
        call_ensures(RecentKeys::note, (table, key, now), r),
        call_ensures(RecentKeys::get, (&*old(table), other), before),
    ensures
        !fresh@.contains_key(other@),
        final(table)@.contains_key(key@),
        final(table)@[key@] == now,
        other@ != key@ ==> (final(table)@.contains_key(other@) <==> before is Some),
        other@ != key@ && before is Some ==> final(table)@[other@] == before->0,
{
}

/// Forgetting leaves exactly the entries that are younger than the window, with their times.
pub proof fn law_old_entries_go(
    table: &mut RecentKeys,
    now: u64,
    window: u64,
    r: (),
    key: Seq<char>,
)
    requires
        call_ensures(RecentKeys::forget_older, (table, now, window), r),
        old(table)@.contains_key(key),
        old(table)@[key] <= now,
    ensures
        final(table)@.contains_key(key) <==> now - old(table)@[key] < window,
        final(table)@.contains_key(key) ==> final(table)@[key] == old(table)@[key],
{
}

} // verus!
