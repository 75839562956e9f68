//! The fleet-wide online count: the last count each proxy reported, and
//! their sum.

use vstd::prelude::*;

verus! {

/// The sum of the counts of a list of reports.
pub open spec fn sum_counts(s: Seq<(u128, i32)>) -> int
    decreases s.len(),
{
    if s.len() == 0 {
        0
    } else {
        sum_counts(s.drop_last()) + s.last().1 as int
    }
}

/// The most proxies tracked at once.
pub const MAX_PROXIES: usize = 0x7fff_ffff;

/// The last count reported by each proxy.
pub struct OnlineCounts {
    counts: Vec<(u128, i32)>,
}

proof fn lemma_sum_update(s: Seq<(u128, i32)>, i: int, x: (u128, i32))
    requires
        0 <= i < s.len(),
    ensures
        sum_counts(s.update(i, x)) == sum_counts(s) - s[i].1 + x.1,
    decreases s.len(),
{
    if i == s.len() - 1 {
        assert(s.update(i, x).drop_last() =~= s.drop_last());
    } else {
        lemma_sum_update(s.drop_last(), i, x);
        assert(s.update(i, x).drop_last() =~= s.drop_last().update(i, x));
    }
}

proof fn lemma_sum_remove(s: Seq<(u128, i32)>, i: int)
    requires
        0 <= i < s.len(),
    ensures
        sum_counts(s.remove(i)) == sum_counts(s) - s[i].1,
    decreases s.len(),
{
    if i == s.len() - 1 {
        assert(s.remove(i) =~= s.drop_last());
    } else {
        lemma_sum_remove(s.drop_last(), i);
        assert(s.remove(i).drop_last() =~= s.drop_last().remove(i));
    }
}

/// No two reports of the same proxy.
pub open spec fn unique_keys(s: Seq<(u128, i32)>) -> bool {
    forall|i: int, j: int| 0 <= i < j < s.len() ==> s[i].0 != s[j].0
}

proof fn lemma_count_at(s: Seq<(u128, i32)>, i: int, p: u128)
    requires
        unique_keys(s),
        0 <= i < s.len(),
        s[i].0 == p,
    ensures
        (choose|c: int| 0 <= c < s.len() && s[c].0 == p) == i,
{
    let c = choose|c: int| 0 <= c < s.len() && s[c].0 == p;
    if c < i {
        assert(s[c].0 != s[i].0);
    } else if c > i {
        assert(s[i].0 != s[c].0);
    }
}

/// The count of proxy `p` in a list of reports.
pub open spec fn count_in(s: Seq<(u128, i32)>, p: u128) -> Option<int> {
    if exists|i: int| 0 <= i < s.len() && s[i].0 == p {
        Some(s[choose|i: int| 0 <= i < s.len() && s[i].0 == p].1 as int)
    } else {
        None
    }
}

proof fn lemma_count_in_at(s: Seq<(u128, i32)>, i: int, p: u128)
    requires
        unique_keys(s),
        0 <= i < s.len(),
        s[i].0 == p,
    ensures
        count_in(s, p) == Some(s[i].1 as int),
{
    lemma_count_at(s, i, p);
}

proof fn lemma_count_in_none(s: Seq<(u128, i32)>, p: u128)
    requires
        forall|k: int| 0 <= k < s.len() ==> s[k].0 != p,
    ensures
        count_in(s, p) is None,
{
}

/// Changing or removing the report of one proxy leaves the others' as they were.
proof fn lemma_others_kept(pre: Seq<(u128, i32)>, post: Seq<(u128, i32)>, proxy: u128, p: u128)
    requires
        unique_keys(pre),
        unique_keys(post),
        p != proxy,
        forall|k: int| 0 <= k < pre.len() && pre[k].0 != proxy ==> exists|m: int| 0 <= m < post.len() && post[m] == pre[k],
        forall|m: int| 0 <= m < post.len() && post[m].0 != proxy ==> exists|k: int| 0 <= k < pre.len() && post[m] == pre[k],
    ensures
        count_in(post, p) == count_in(pre, p),
{
    if exists|k: int| 0 <= k < pre.len() && pre[k].0 == p {
        let a = choose|k: int| 0 <= k < pre.len() && pre[k].0 == p;
        lemma_count_in_at(pre, a, p);
        let m = choose|m: int| 0 <= m < post.len() && post[m] == pre[a];
        lemma_count_in_at(post, m, p);
    } else {
        assert forall|m: int| 0 <= m < post.len() implies post[m].0 != p by {
            if post[m].0 == p {
                let k = choose|k: int| 0 <= k < pre.len() && post[m] == pre[k];
                assert(pre[k].0 == p);
            }
        }
        lemma_count_in_none(post, p);
    }
}

proof fn lemma_sum_bound(s: Seq<(u128, i32)>)
    ensures
        -(s.len() as int) * 0x8000_0000 <= sum_counts(s) <= (s.len() as int) * 0x7fff_ffff,
    decreases s.len(),
{
    if s.len() > 0 {
        lemma_sum_bound(s.drop_last());
    }
}

impl OnlineCounts {
    /// The reports, one per proxy.
    pub closed spec fn entries(&self) -> Seq<(u128, i32)> {
        self.counts@
    }

    /// At most one report per proxy, and not more than `MAX_PROXIES`.
    pub open spec fn wf(&self) -> bool {
        &&& unique_keys(self.entries())
        &&& self.entries().len() <= MAX_PROXIES
    }

    /// The count last reported by `proxy`.
    pub open spec fn count_of(&self, proxy: u128) -> Option<int> {
        count_in(self.entries(), proxy)
    }

    /// The sum of the counts.
    pub open spec fn spec_total(&self) -> int {
        sum_counts(self.entries())
    }

    /// No report yet.
    pub fn new() -> (r: OnlineCounts)
        ensures
            r.wf(),
            r.entries().len() == 0,
            r.spec_total() == 0,
    {
        OnlineCounts { counts: Vec::new() }
    }

    fn find(&self, proxy: u128) -> (r: Option<usize>)
        ensures
            match r {
                Some(i) => i < self.entries().len() && self.entries()[i as int].0 == proxy,
                None => forall|i: int| 0 <= i < self.entries().len() ==> self.entries()[i].0 != proxy,
            },
    {
        let mut i: usize = 0;
        while i < self.counts.len()
            invariant
                i <= self.counts@.len(),
                forall|j: int| 0 <= j < i ==> self.counts@[j].0 != proxy,
            decreases self.counts@.len() - i,
        {
            if self.counts[i].0 == proxy {
                return Some(i);
            }
            i = i + 1;
        }
        None
    }

    /// Records that `proxy` now has `count` players. A proxy not yet known is
    /// added, unless `MAX_PROXIES` are tracked already.
    pub fn update(&mut self, proxy: u128, count: i32) -> (added: bool)
        requires
            old(self).wf(),
        ensures
            final(self).wf(),
            old(self).count_of(proxy) is Some || old(self).entries().len() < MAX_PROXIES ==> {
                &&& final(self).count_of(proxy) == Some(count as int)
                &&& final(self).spec_total() == old(self).spec_total() - match old(self).count_of(proxy) {
                    Some(c) => c,
                    None => 0,
                } + count
            },
            !(old(self).count_of(proxy) is Some || old(self).entries().len() < MAX_PROXIES) ==> final(self).entries() == old(self).entries(),
            forall|p: u128| p != proxy ==> final(self).count_of(p) == old(self).count_of(p),
            added == (old(self).count_of(proxy) is None && old(self).entries().len() < MAX_PROXIES),
            final(self).entries().len() == old(self).entries().len() + if added { 1int } else { 0int },
    {
        let ghost pre = self.counts@;
        match self.find(proxy) {
            Some(i) => {
                proof {
                    lemma_count_in_at(pre, i as int, proxy);
                    lemma_sum_update(pre, i as int, (proxy, count));
                }
                self.counts.set(i, (proxy, count));
                proof {
                    let post = self.counts@;
                    assert(post =~= pre.update(i as int, (proxy, count)));
                    assert(unique_keys(post));
                    lemma_count_in_at(post, i as int, proxy);
                    assert forall|p: u128| p != proxy implies count_in(post, p) == count_in(pre, p) by {
                        assert forall|k: int| 0 <= k < pre.len() && pre[k].0 != proxy implies exists|m: int| 0 <= m < post.len() && post[m] == pre[k] by {
                            assert(post[k] == pre[k]);
                        }
                        assert forall|m: int| 0 <= m < post.len() && post[m].0 != proxy implies exists|k: int| 0 <= k < pre.len() && post[m] == pre[k] by {
                            assert(post[m] == pre[m]);
                        }
                        lemma_others_kept(pre, post, proxy, p);
                    }
                }
                false
            },
            None => {
                proof {
                    lemma_count_in_none(pre, proxy);
                }
                if self.counts.len() >= MAX_PROXIES {
                    return false;
                }
                self.counts.push((proxy, count));
                proof {
                    let post = self.counts@;
                    assert(post =~= pre.push((proxy, count)));
                    assert(post.drop_last() =~= pre);
                    assert(unique_keys(post));
                    lemma_count_in_at(post, pre.len() as int, proxy);
                    assert forall|p: u128| p != proxy implies count_in(post, p) == count_in(pre, p) by {
                        assert forall|k: int| 0 <= k < pre.len() && pre[k].0 != proxy implies exists|m: int| 0 <= m < post.len() && post[m] == pre[k] by {
                            assert(post[k] == pre[k]);
                        }
                        assert forall|m: int| 0 <= m < post.len() && post[m].0 != proxy implies exists|k: int| 0 <= k < pre.len() && post[m] == pre[k] by {
                            assert(post[m] == pre[m]);
                        }
                        lemma_others_kept(pre, post, proxy, p);
                    }
                }
                true
            },
        }
    }

    /// Forgets the report of `proxy`.
    pub fn remove(&mut self, proxy: u128)
        requires
            old(self).wf(),
        ensures
            final(self).wf(),
            final(self).count_of(proxy) is None,
            final(self).spec_total() == old(self).spec_total() - match old(self).count_of(proxy) {
                Some(c) => c,
                None => 0,
            },
            forall|p: u128| p != proxy ==> final(self).count_of(p) == old(self).count_of(p),
    {
        let ghost pre = self.counts@;
        match self.find(proxy) {
            Some(i) => {
                proof {
                    lemma_count_in_at(pre, i as int, proxy);
                    lemma_sum_remove(pre, i as int);
                }
                self.counts.remove(i);
                proof {
                    let post = self.counts@;
                    assert(post =~= pre.remove(i as int));
                    assert forall|m: int| 0 <= m < post.len() implies post[m] == pre[if m < i { m } else { m + 1 }] by {
                    }
                    assert(unique_keys(post)) by {
                        assert forall|x: int, y: int| 0 <= x < y < post.len() implies post[x].0 != post[y].0 by {
                            let x2 = if x < i { x } else { x + 1 };
                            let y2 = if y < i { y } else { y + 1 };
                            assert(post[x] == pre[x2]);
                            assert(post[y] == pre[y2]);
                        }
                    }
                    assert forall|k: int| 0 <= k < post.len() implies post[k].0 != proxy by {
                        let k2 = if k < i { k } else { k + 1 };
                        assert(post[k] == pre[k2]);
                    }
                    lemma_count_in_none(post, proxy);
                    assert forall|p: u128| p != proxy implies count_in(post, p) == count_in(pre, p) by {
                        assert forall|k: int| 0 <= k < pre.len() && pre[k].0 != proxy implies exists|m: int| 0 <= m < post.len() && post[m] == pre[k] by {
                            let m = if k < i { k } else { k - 1 };
                            assert(k != i);
                            assert(post[m] == pre[k]);
                        }
                        assert forall|m: int| 0 <= m < post.len() && post[m].0 != proxy implies exists|k: int| 0 <= k < pre.len() && post[m] == pre[k] by {
                            let k = if m < i { m } else { m + 1 };
                            assert(post[m] == pre[k]);
                        }
                        lemma_others_kept(pre, post, proxy, p);
                    }
                }
            },
            None => {
                proof {
                    lemma_count_in_none(pre, proxy);
                }
            },
        }
    }

    /// The sum of the counts.
    pub fn total(&self) -> (r: i64)
        requires
            self.wf(),
        ensures
            r as int == self.spec_total(),
    {
        let mut sum: i64 = 0;
        let mut i: usize = 0;
        while i < self.counts.len()
            invariant
                i <= self.counts@.len(),
                self.counts@.len() <= MAX_PROXIES,
                sum as int == sum_counts(self.counts@.take(i as int)),
            decreases self.counts@.len() - i,
        {
            proof {
                assert(self.counts@.take(i + 1).drop_last() =~= self.counts@.take(i as int));
                lemma_sum_bound(self.counts@.take(i + 1));
                assert((i + 1) * 0x8000_0000 <= 0x8000_0000 * 0x8000_0000) by (nonlinear_arith)
                    requires i + 1 <= 0x7fff_ffff;
            }
            sum = sum + self.counts[i].1 as i64;
            i = i + 1;
        }
        assert(self.counts@.take(self.counts@.len() as int) =~= self.counts@);
        sum
    }

    /// Takes a proxy's count. The leader records it and returns the new total
    /// to publish; another replica records nothing and returns `None`, and
    /// forwards the count to the leader.
    pub fn record(&mut self, leader: bool, proxy: u128, count: i32) -> (r: Option<i64>)
        requires
            old(self).wf(),
        ensures
            final(self).wf(),
            !leader ==> r is None && final(self).entries() == old(self).entries(),
            leader && (old(self).count_of(proxy) is Some || old(self).entries().len() < MAX_PROXIES) ==> {
                &&& final(self).count_of(proxy) == Some(count as int)
                &&& r == Some(final(self).spec_total() as i64)
                &&& final(self).spec_total() == old(self).spec_total() - match old(self).count_of(proxy) {
                    Some(c) => c,
                    None => 0,
                } + count
                &&& final(self).entries().len() == old(self).entries().len() + if old(self).count_of(proxy) is None { 1int } else { 0int }
            },
            leader ==> r == Some(final(self).spec_total() as i64),
            leader ==> forall|p: u128| p != proxy ==> final(self).count_of(p) == old(self).count_of(p),
    {
        if !leader {
            return None;
        }
        self.update(proxy, count);
        Some(self.total())
    }
}

} // verus!
