//! Time-limited memory of keys already seen, used to drop re-delivered
//! inbound messages.
use vstd::prelude::*;
use crate::text::{clone_string, str_eq};

verus! {

/// Milliseconds from `t` to `now`; zero when `t` is later.
pub open spec fn elapsed(t: u64, now: u64) -> u64 {
    if now >= t {
        (now - t) as u64
    } else {
        0
    }
}

/// Whether a key recorded at `t` still counts at `now`.
pub open spec fn still_fresh(t: u64, now: u64, ttl: u64) -> bool {
    elapsed(t, now) < ttl
}

/// Whether some entry has key `k`.
pub open spec fn has_key(s: Seq<(String, u64)>, k: Seq<char>) -> bool {
    exists|i: int| 0 <= i < s.len() && s[i].0@ == k
}

/// The time of the entry with key `k`.
pub open spec fn time_of(s: Seq<(String, u64)>, k: Seq<char>) -> u64 {
    s[choose|i: int| 0 <= i < s.len() && s[i].0@ == k].1
}

/// No key occurs twice.
pub open spec fn distinct_keys(s: Seq<(String, u64)>) -> bool {
    forall|i: int, j: int| 0 <= i < s.len() && 0 <= j < s.len() && i != j ==> s[i].0@ != s[j].0@
}

/// The key-to-time map a list of distinct entries stands for.
pub open spec fn as_map(s: Seq<(String, u64)>) -> Map<Seq<char>, u64> {
    Map::new(|k: Seq<char>| has_key(s, k), |k: Seq<char>| time_of(s, k))
}

proof fn lemma_time_at(s: Seq<(String, u64)>, i: int)
    requires
        distinct_keys(s),
        0 <= i < s.len(),
    ensures
        has_key(s, s[i].0@),
        time_of(s, s[i].0@) == s[i].1,
{
    let k = s[i].0@;
    assert(0 <= i < s.len() && s[i].0@ == k);
    let j = choose|j: int| 0 <= j < s.len() && s[j].0@ == k;
    assert(j == i);
}

fn min_index(v: &Vec<(String, u64)>) -> (r: usize)
    requires
        v@.len() > 0,
    ensures
        r < v@.len(),
        forall|j: int| 0 <= j < v@.len() ==> v@[r as int].1 <= #[trigger] v@[j].1,
{
    let mut best: usize = 0;
    let mut i: usize = 1;
    while i < v.len()
        invariant
            1 <= i <= v@.len(),
            best < i,
            forall|j: int| 0 <= j < i ==> v@[best as int].1 <= #[trigger] v@[j].1,
        decreases v@.len() - i,
    {
        if v[i].1 < v[best].1 {
            best = i;
        }
        i += 1;
    }
    best
}

/// Keys seen recently, each with the time (milliseconds) it was recorded.
pub struct TtlCache {
    entries: Vec<(String, u64)>,
    ttl_ms: u64,
    max_len: usize,
}

impl TtlCache {
    #[verifier::type_invariant]
    spec fn keys_unique(self) -> bool {
        distinct_keys(self.entries@) && self.ttl_ms > 0
    }

    /// When each remembered key was recorded.
    pub closed spec fn times(self) -> Map<Seq<char>, u64> {
        as_map(self.entries@)
    }

    /// How long a key counts as seen.
    pub closed spec fn ttl(self) -> u64 {
        self.ttl_ms
    }

    /// How many keys may be kept before the stale ones are dropped.
    pub closed spec fn capacity(self) -> nat {
        self.max_len as nat
    }

    /// Whether `key` was recorded less than the time-to-live before `now`.
    pub open spec fn fresh(self, key: Seq<char>, now: u64) -> bool {
        self.times().contains_key(key) && still_fresh(self.times()[key], now, self.ttl())
    }

    /// An empty cache whose keys count for `ttl_ms` milliseconds; stale keys
    /// are dropped once more than `max_len` are kept.
    pub fn new(ttl_ms: u64, max_len: usize) -> (r: TtlCache)
        requires
            ttl_ms > 0,
        ensures
            r.times() == Map::<Seq<char>, u64>::empty(),
            r.ttl() == ttl_ms,
            r.capacity() == max_len,
    {
        let r = TtlCache { entries: Vec::new(), ttl_ms, max_len };
        assert(as_map(r.entries@) =~= Map::<Seq<char>, u64>::empty());
        r
    }

    /// The number of keys kept.
    pub fn len(&self) -> (r: usize)
        ensures
            r == self.times().len(),
    {
        proof {
            use_type_invariant(self);
            self.lemma_len();
        }
        self.entries.len()
    }

    proof fn lemma_len(self)
        requires
            distinct_keys(self.entries@),
        ensures
            as_map(self.entries@).len() == self.entries@.len(),
    {
        let s = self.entries@;
        let keys = s.map_values(|e: (String, u64)| e.0@);
        assert(as_map(s).dom() =~= keys.to_set()) by {
            assert forall|k: Seq<char>| as_map(s).dom().contains(k) implies keys.to_set().contains(k) by {
                let i = choose|i: int| 0 <= i < s.len() && s[i].0@ == k;
                assert(keys[i] == k);
            }
            assert forall|k: Seq<char>| keys.to_set().contains(k) implies as_map(s).dom().contains(k) by {
                let i = choose|i: int| 0 <= i < keys.len() && keys[i] == k;
                assert(s[i].0@ == k);
            }
        }
        assert(keys.no_duplicates()) by {
            assert forall|i: int, j: int| 0 <= i < keys.len() && 0 <= j < keys.len() && i != j implies keys[i] != keys[j] by {
                assert(s[i].0@ != s[j].0@);
            }
        }
        keys.unique_seq_to_set();
    }

    fn position(&self, key: &str) -> (r: Option<usize>)
        ensures
            match r {
                Some(i) => i < self.entries@.len() && self.entries@[i as int].0@ == key@,
                None => !has_key(self.entries@, key@),
            },
    {
        let mut i: usize = 0;
        while i < self.entries.len()
            invariant
                i <= self.entries@.len(),
                forall|j: int| 0 <= j < i ==> self.entries@[j].0@ != key@,
            decreases self.entries@.len() - i,
        {
            if str_eq(self.entries[i].0.as_str(), key) {
                return Some(i);
            }
            i += 1;
        }
        None
    }

    /// Whether `key` was recorded less than the time-to-live before `now`.
    pub fn is_fresh(&self, key: &str, now: u64) -> (r: bool)
        ensures
            r == self.fresh(key@, now),
    {
        proof {
            use_type_invariant(self);
        }
        match self.position(key) {
            Some(i) => {
                proof {
                    lemma_time_at(self.entries@, i as int);
                }
                let t = self.entries[i].1;
                if now >= t {
                    now - t < self.ttl_ms
                } else {
                    0 < self.ttl_ms
                }
            },
            None => false,
        }
    }

    /// Records `key` as seen at `now`.
    pub fn record(&mut self, key: &str, now: u64)
        ensures
            final(self).times() == old(self).times().insert(key@, now),
            final(self).ttl() == old(self).ttl(),
            final(self).ttl() > 0,
            final(self).capacity() == old(self).capacity(),
    {
        proof {
            use_type_invariant(&*self);
        }
        let ghost before = self.entries@;
        match self.position(key) {
            Some(i) => {
                let mut entries: Vec<(String, u64)> = Vec::new();
                std::mem::swap(&mut entries, &mut self.entries);
                entries.set(i, (String::from_str(key), now));
                proof {
                    let after = entries@;
                    assert(distinct_keys(after)) by {
                        assert forall|a: int, b: int|
                            0 <= a < after.len() && 0 <= b < after.len() && a != b implies after[a].0@
                            != after[b].0@ by {
                            if a != i as int && b != i as int {
                                assert(before[a].0@ != before[b].0@);
                            } else if a == i as int {
                                assert(before[i as int].0@ != before[b].0@);
                            } else {
                                assert(before[a].0@ != before[i as int].0@);
                            }
                        }
                    }
                    assert(as_map(after) =~= as_map(before).insert(key@, now)) by {
                        assert forall|k: Seq<char>| #[trigger] has_key(after, k) == (has_key(before, k)
                            || k == key@) by {
                            if has_key(before, k) {
                                let j = choose|j: int| 0 <= j < before.len() && before[j].0@ == k;
                                assert(after[j].0@ == k);
                            }
                            if has_key(after, k) {
                                let j = choose|j: int| 0 <= j < after.len() && after[j].0@ == k;
                                assert(before[j].0@ == k);
                            }
                        }
                        assert forall|k: Seq<char>| has_key(after, k) implies #[trigger] time_of(after, k)
                            == (if k == key@ {
                            now
                        } else {
                            time_of(before, k)
                        }) by {
                            let j = choose|j: int| 0 <= j < after.len() && after[j].0@ == k;
                            lemma_time_at(after, j);
                            if k != key@ {
                                assert(j != i as int);
                                lemma_time_at(before, j);
                            } else {
                                assert(j == i as int);
                            }
                        }
                    }
                }
                self.entries = entries;
            },
            None => {
                let mut entries: Vec<(String, u64)> = Vec::new();
                std::mem::swap(&mut entries, &mut self.entries);
                entries.push((String::from_str(key), now));
                proof {
                    let after = entries@;
                    let n = before.len() as int;
                    assert(distinct_keys(after)) by {
                        assert forall|a: int, b: int|
                            0 <= a < after.len() && 0 <= b < after.len() && a != b implies after[a].0@
                            != after[b].0@ by {
                            if a < n && b < n {
                                assert(before[a].0@ != before[b].0@);
                            } else if a == n {
                                assert(before[b].0@ != key@);
                            } else {
                                assert(before[a].0@ != key@);
                            }
                        }
                    }
                    assert(as_map(after) =~= as_map(before).insert(key@, now)) by {
                        assert forall|k: Seq<char>| #[trigger] has_key(after, k) == (has_key(before, k)
                            || k == key@) by {
                            if has_key(before, k) {
                                let j = choose|j: int| 0 <= j < before.len() && before[j].0@ == k;
                                assert(after[j].0@ == k);
                            }
                            if k == key@ {
                                assert(after[n].0@ == k);
                            }
                            if has_key(after, k) && k != key@ {
                                let j = choose|j: int| 0 <= j < after.len() && after[j].0@ == k;
                                assert(j < n);
                                assert(before[j].0@ == k);
                            }
                        }
                        assert forall|k: Seq<char>| has_key(after, k) implies #[trigger] time_of(after, k)
                            == (if k == key@ {
                            now
                        } else {
                            time_of(before, k)
                        }) by {
                            let j = choose|j: int| 0 <= j < after.len() && after[j].0@ == k;
                            lemma_time_at(after, j);
                            if k != key@ {
                                assert(j < n);
                                lemma_time_at(before, j);
                            } else {
                                assert(j == n);
                            }
                        }
                    }
                }
                self.entries = entries;
            },
        }
    }

    /// Drops the keys that are no longer fresh at `now`.
    pub fn evict_expired(&mut self, now: u64)
        ensures
            forall|k: Seq<char>| #[trigger] final(self).times().contains_key(k) == old(self).fresh(k, now),
            forall|k: Seq<char>| final(self).times().contains_key(k) ==> #[trigger] final(self).times()[k]
                == old(self).times()[k],
            final(self).ttl() == old(self).ttl(),
            final(self).capacity() == old(self).capacity(),
    {
        proof {
            use_type_invariant(&*self);
        }
        let ghost before = self.entries@;
        let mut kept: Vec<(String, u64)> = Vec::new();
        let mut i: usize = 0;
        while i < self.entries.len()
            invariant
                self.entries@ == before,
                distinct_keys(before),
                i <= before.len(),
                distinct_keys(kept@),
                forall|a: int| 0 <= a < kept@.len() ==> exists|b: int| 0 <= b < i && #[trigger] kept@[a].0@ == before[b].0@ && kept@[a].1 == before[b].1 && still_fresh(before[b].1, now, self.ttl_ms),
                forall|b: int| 0 <= b < i && still_fresh(before[b].1, now, self.ttl_ms) ==> has_key(kept@, #[trigger] before[b].0@),
            decreases before.len() - i,
        {
            let t = self.entries[i].1;
            let fresh = if now >= t {
                now - t < self.ttl_ms
            } else {
                0 < self.ttl_ms
            };
            if fresh {
                let ghost k0 = kept@;
                kept.push((clone_string(&self.entries[i].0), t));
                proof {
                    let k1 = kept@;
                    assert forall|a: int, c: int| 0 <= a < k1.len() && 0 <= c < k1.len() && a != c implies k1[a].0@ != k1[c].0@ by {
                        if a < k0.len() && c < k0.len() {
                        } else if a == k0.len() {
                            let b = choose|b: int| 0 <= b < i && #[trigger] k0[c].0@ == before[b].0@ && k0[c].1 == before[b].1 && still_fresh(before[b].1, now, self.ttl_ms);
                            assert(before[b].0@ != before[i as int].0@);
                        } else {
                            let b = choose|b: int| 0 <= b < i && #[trigger] k0[a].0@ == before[b].0@ && k0[a].1 == before[b].1 && still_fresh(before[b].1, now, self.ttl_ms);
                            assert(before[b].0@ != before[i as int].0@);
                        }
                    }
                    assert forall|a: int| 0 <= a < k1.len() implies exists|b: int| 0 <= b < i + 1 && #[trigger] k1[a].0@ == before[b].0@ && k1[a].1 == before[b].1 && still_fresh(before[b].1, now, self.ttl_ms) by {
                        if a < k0.len() {
                            let b = choose|b: int| 0 <= b < i && #[trigger] k0[a].0@ == before[b].0@ && k0[a].1 == before[b].1 && still_fresh(before[b].1, now, self.ttl_ms);
                            assert(k1[a] == k0[a]);
                        } else {
                            assert(k1[a].0@ == before[i as int].0@);
                        }
                    }
                    assert forall|b: int| 0 <= b < i + 1 && still_fresh(before[b].1, now, self.ttl_ms) implies has_key(k1, #[trigger] before[b].0@) by {
                        if b < i {
                            let a = choose|a: int| 0 <= a < k0.len() && k0[a].0@ == before[b].0@;
                            assert(k1[a] == k0[a]);
                        } else {
                            assert(k1[k0.len() as int].0@ == before[b].0@);
                        }
                    }
                }
            } else {
                proof {
                    assert forall|b: int| 0 <= b < i + 1 && still_fresh(before[b].1, now, self.ttl_ms) implies has_key(kept@, #[trigger] before[b].0@) by {
                        if b == i as int {
                            assert(false);
                        }
                    }
                }
            }
            i += 1;
        }
        self.entries = kept;
        proof {
            let after = self.entries@;
            assert forall|k: Seq<char>| #[trigger] as_map(after).contains_key(k) == (as_map(before).contains_key(k) && still_fresh(as_map(before)[k], now, self.ttl_ms)) by {
                if has_key(after, k) {
                    let a = choose|a: int| 0 <= a < after.len() && after[a].0@ == k;
                    let b = choose|b: int| 0 <= b < before.len() && #[trigger] after[a].0@ == before[b].0@ && after[a].1 == before[b].1 && still_fresh(before[b].1, now, self.ttl_ms);
                    lemma_time_at(before, b);
                }
                if has_key(before, k) && still_fresh(time_of(before, k), now, self.ttl_ms) {
                    let b = choose|b: int| 0 <= b < before.len() && before[b].0@ == k;
                    lemma_time_at(before, b);
                }
            }
            assert forall|k: Seq<char>| as_map(after).contains_key(k) implies #[trigger] as_map(after)[k] == as_map(before)[k] by {
                let a = choose|a: int| 0 <= a < after.len() && after[a].0@ == k;
                let b = choose|b: int| 0 <= b < before.len() && #[trigger] after[a].0@ == before[b].0@ && after[a].1 == before[b].1 && still_fresh(before[b].1, now, self.ttl_ms);
                lemma_time_at(before, b);
                lemma_time_at(after, a);
            }
        }
    }


    /// Keeps only the `keep` most recently recorded keys (all of them when
    /// there are no more): every key dropped was recorded no later than
    /// every key kept. Which of equally old keys go is left open.
    pub fn evict_oldest(&mut self, keep: usize)
        ensures
            final(self).times().len() == if old(self).times().len() <= keep {
                old(self).times().len()
            } else {
                keep as nat
            },
            forall|k: Seq<char>| #[trigger] final(self).times().contains_key(k) ==> old(self).times().contains_key(k)
                && final(self).times()[k] == old(self).times()[k],
            forall|k: Seq<char>, j: Seq<char>| old(self).times().contains_key(k) && !final(self).times().contains_key(k)
                && #[trigger] final(self).times().contains_key(j) ==> #[trigger] old(self).times()[k]
                <= final(self).times()[j],
            final(self).ttl() == old(self).ttl(),
            final(self).capacity() == old(self).capacity(),
    {
        proof {
            use_type_invariant(&*self);
            self.lemma_len();
        }
        let ghost before = self.entries@;
        let mut entries: Vec<(String, u64)> = Vec::new();
        std::mem::swap(&mut entries, &mut self.entries);
        let mut work = entries;
        assert(work@ == before);
        assert forall|a: int| 0 <= a < work@.len() implies before.contains(#[trigger] work@[a]) by {
            assert(work@[a] == before[a]);
        }
        while work.len() > keep
            invariant
                distinct_keys(work@),
                distinct_keys(before),
                before.len() > keep ==> work@.len() >= keep,
                before.len() <= keep ==> work@ == before,
                forall|a: int| 0 <= a < work@.len() ==> before.contains(#[trigger] work@[a]),
                forall|b: int| 0 <= b < before.len() && !has_key(work@, #[trigger] before[b].0@) ==> forall|a: int| 0 <= a < work@.len() ==> before[b].1 <= #[trigger] work@[a].1,
            decreases work@.len(),
        {
            let m = min_index(&work);
            let ghost w0 = work@;
            let gone = work.remove(m);
            proof {
                let w1 = work@;
                assert forall|a: int| 0 <= a < w1.len() implies before.contains(#[trigger] w1[a]) by {
                    let a0 = if a < m as int { a } else { a + 1 };
                    assert(w1[a] == w0[a0]);
                }
                assert forall|x: int, y: int| 0 <= x < w1.len() && 0 <= y < w1.len() && x != y implies w1[x].0@ != w1[y].0@ by {
                    let x0 = if x < m as int { x } else { x + 1 };
                    let y0 = if y < m as int { y } else { y + 1 };
                    assert(w1[x] == w0[x0] && w1[y] == w0[y0]);
                }
                assert forall|b: int| 0 <= b < before.len() && !has_key(w1, #[trigger] before[b].0@) implies forall|a: int| 0 <= a < w1.len() ==> before[b].1 <= #[trigger] w1[a].1 by {
                    assert forall|a: int| 0 <= a < w1.len() implies before[b].1 <= #[trigger] w1[a].1 by {
                        let a0 = if a < m as int { a } else { a + 1 };
                        assert(w1[a] == w0[a0]);
                        if has_key(w0, before[b].0@) {
                            let i0 = choose|i0: int| 0 <= i0 < w0.len() && w0[i0].0@ == before[b].0@;
                            if i0 != m as int {
                                let i1 = if i0 < m as int { i0 } else { i0 - 1 };
                                assert(w1[i1] == w0[i0]);
                                assert(false);
                            }
                            let bb = choose|bb: int| #![trigger before[bb]] 0 <= bb < before.len() && w0[m as int] == before[bb];
                            assert(before[bb].0@ == before[b].0@);
                            if bb != b {
                                assert(false);
                            }
                            assert(before[b].1 == w0[m as int].1);
                            assert(w0[m as int].1 <= w0[a0].1);
                        }
                    }
                }
            }
        }
        self.entries = work;
        proof {
            let after = self.entries@;
            if before.len() > keep {
                assert(after.len() == keep);
            }
            self.lemma_len();
            assert forall|k: Seq<char>| #[trigger] as_map(after).contains_key(k) implies as_map(before).contains_key(k)
                && as_map(after)[k] == as_map(before)[k] by {
                let a = choose|a: int| 0 <= a < after.len() && after[a].0@ == k;
                let b = choose|b: int| #![trigger before[b]] 0 <= b < before.len() && after[a] == before[b];
                lemma_time_at(after, a);
                lemma_time_at(before, b);
            }
            assert forall|k: Seq<char>, j: Seq<char>| as_map(before).contains_key(k) && !as_map(after).contains_key(k)
                && #[trigger] as_map(after).contains_key(j) implies #[trigger] as_map(before)[k] <= as_map(after)[j] by {
                let b = choose|b: int| 0 <= b < before.len() && before[b].0@ == k;
                let a = choose|a: int| 0 <= a < after.len() && after[a].0@ == j;
                lemma_time_at(before, b);
                lemma_time_at(after, a);
            }
        }
    }

    /// The dedup step: a key fresh at `now` is a repeat (`true`) and the
    /// cache is left as it was; otherwise it is recorded at `now` (`false`),
    /// and once more than the capacity is kept the keys no longer fresh at
    /// `now` are dropped and the fresh ones kept.
    pub fn check_and_record(&mut self, key: &str, now: u64) -> (dup: bool)
        ensures
            dup == old(self).fresh(key@, now),
            dup ==> *final(self) == *old(self),
            !dup && old(self).times().insert(key@, now).len() <= old(self).capacity() ==> final(self).times()
                == old(self).times().insert(key@, now),
            !dup && old(self).times().insert(key@, now).len() > old(self).capacity() ==> {
                let recorded = old(self).times().insert(key@, now);
                &&& forall|k: Seq<char>| #[trigger] final(self).times().contains_key(k) == (
                recorded.contains_key(k) && still_fresh(recorded[k], now, old(self).ttl()))
                &&& forall|k: Seq<char>| final(self).times().contains_key(k)
                    ==> #[trigger] final(self).times()[k] == recorded[k]
            },
            !dup ==> final(self).fresh(key@, now) && final(self).times().contains_key(key@),
            !dup ==> final(self).times()[key@] == now,
            final(self).ttl() == old(self).ttl(),
            final(self).capacity() == old(self).capacity(),
    {
        if self.is_fresh(key, now) {
            return true;
        }
        self.record(key, now);
        proof {
            use_type_invariant(&*self);
            assert(self.times()[key@] == now);
        }
        if self.len() > self.max_len {
            self.evict_expired(now);
        }
        false
    }
}


/// A key recorded at `t` is a repeat at every `now` from `t` until the
/// time-to-live has passed.
pub proof fn lemma_repeat_within_ttl(c: TtlCache, key: Seq<char>, t: u64, now: u64)
    requires
        c.times().contains_key(key),
        c.times()[key] == t,
        t <= now,
        now - t < c.ttl(),
    ensures
        c.fresh(key, now),
{
}

} // verus!
