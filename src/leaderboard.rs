//! Leaderboards: rules, the period they cover, and the ranking built from
//! the statistics of that period.

use vstd::prelude::*;
use chrono::{Datelike, Timelike};
use itertools::Itertools;
use crate::text::{decimal_text, i64_text};

verus! {

/// The period a leaderboard covers.
#[derive(Debug, Clone, Copy, PartialEq, Eq, Structural)]
pub enum LeaderboardPeriod {
    /// Since the start of the current calendar month.
    Monthly,
    /// Since the beginning.
    AllTime,
}

/// How a leaderboard is computed: which statistic, over which period, for
/// which game kind (any when none), and how many places.
#[derive(Debug)]
pub struct LeaderboardRule {
    pub stat_key: String,
    pub period: LeaderboardPeriod,
    pub game_kind: Option<String>,
    pub size: i32,
}

/// A leaderboard as stored and shown.
#[derive(Debug)]
pub struct Leaderboard {
    pub label: String,
    pub leaderboard: Vec<String>,
}

/// Relies on `chrono::Local::now` and the `with_*` setters: the first
/// millisecond of the current month in local time, in milliseconds since the
/// epoch; none where the local calendar has no such instant. It depends on
/// the clock and the machine's time zone.
#[verifier::external_body]
fn month_start_millis() -> (r: Option<i64>) {
    let t = chrono::Local::now().with_day0(0)?.with_hour(0)?.with_minute(0)?.with_second(0)?.with_nanosecond(0)?;
    Some(t.timestamp_millis())
}

impl LeaderboardPeriod {
    /// The lower bound of the period, in milliseconds since the epoch: 0 for
    /// all time; the start of the month for a monthly board (none where the
    /// local calendar has no such instant).
    pub fn timestamp(&self) -> (r: Option<i64>)
        ensures
            *self == LeaderboardPeriod::AllTime ==> r == Some(0i64),
    {
        match self {
            LeaderboardPeriod::Monthly => month_start_millis(),
            LeaderboardPeriod::AllTime => Some(0),
        }
    }
}

/// The sum of the values of `rows` for player `p`.
pub open spec fn player_total(rows: Seq<(u128, i32)>, p: u128) -> int
    decreases rows.len(),
{
    if rows.len() == 0 {
        0
    } else {
        player_total(rows.drop_last(), p) + if rows.last().0 == p { rows.last().1 as int } else { 0 }
    }
}

proof fn lemma_total_bound(rows: Seq<(u128, i32)>, p: u128)
    ensures
        -(rows.len() as int) * 0x8000_0000 <= player_total(rows, p) <= (rows.len() as int) * 0x8000_0000,
    decreases rows.len(),
{
    if rows.len() > 0 {
        lemma_total_bound(rows.drop_last(), p);
    }
}

/// Player `p` has an entry.
pub open spec fn listed(totals: Seq<(u128, i64)>, p: u128) -> bool {
    exists|i: int| 0 <= i < totals.len() && totals[i].0 == p
}

fn position_of(out: &Vec<(u128, i64)>, p: u128) -> (r: Option<usize>)
    ensures
        match r {
            Some(f) => f < out@.len() && out@[f as int].0 == p,
            None => forall|j: int| 0 <= j < out@.len() ==> out@[j].0 != p,
        },
{
    let mut i: usize = 0;
    while i < out.len()
        invariant
            i <= out@.len(),
            forall|j: int| 0 <= j < i ==> out@[j].0 != p,
        decreases out@.len() - i,
    {
        if out[i].0 == p {
            return Some(i);
        }
        i = i + 1;
    }
    None
}

/// Adds up the statistic rows of each player: one entry per player that has
/// rows, in order of first appearance.
pub fn totals_by_player(rows: &Vec<(u128, i32)>) -> (r: Vec<(u128, i64)>)
    requires
        rows@.len() <= u32::MAX,
    ensures
        forall|i: int, j: int| 0 <= i < j < r@.len() ==> r@[i].0 != r@[j].0,
        forall|i: int| 0 <= i < r@.len() ==> r@[i].1 == player_total(rows@, #[trigger] r@[i].0),
        forall|k: int| 0 <= k < rows@.len() ==> listed(r@, #[trigger] rows@[k].0),
{
    let mut out: Vec<(u128, i64)> = Vec::new();
    let mut k: usize = 0;
    while k < rows.len()
        invariant
            k <= rows@.len(),
            rows@.len() <= u32::MAX,
            forall|i: int, j: int| 0 <= i < j < out@.len() ==> out@[i].0 != out@[j].0,
            forall|i: int| 0 <= i < out@.len() ==> out@[i].1 == player_total(rows@.take(k as int), #[trigger] out@[i].0),
            forall|m: int| 0 <= m < k ==> listed(out@, #[trigger] rows@[m].0),
            forall|p: u128| (forall|i: int| 0 <= i < out@.len() ==> out@[i].0 != p) ==> player_total(rows@.take(k as int), p) == 0,
        decreases rows@.len() - k,
    {
        let (p, v) = rows[k];
        let ghost pre = rows@.take(k as int);
        let ghost post = rows@.take(k + 1);
        assert(post.drop_last() =~= pre);
        let found = position_of(&out, p);
        let ghost before = out@;
        proof {
            assert(post.last() == (p, v));
            assert forall|q: u128| #[trigger] player_total(post, q) == player_total(pre, q) + if q == p { v as int } else { 0 } by {
            }
            lemma_total_bound(post, p);
            assert((k + 1) * 0x8000_0000 <= 0x1_0000_0000 * 0x8000_0000) by (nonlinear_arith)
                requires k + 1 <= 0x1_0000_0000;
        }
        match found {
            Some(f) => {
                let cur = out[f].1;
                out.set(f, (p, cur + v as i64));
            },
            None => {
                out.push((p, v as i64));
            },
        }
        proof {
            assert forall|i2: int| 0 <= i2 < out@.len() implies out@[i2].1 == player_total(post, #[trigger] out@[i2].0) by {
                if i2 < before.len() && before[i2].0 != p {
                    assert(out@[i2] == before[i2]);
                    assert(before[i2].1 == player_total(pre, before[i2].0));
                } else if i2 < before.len() {
                    assert(before[i2].1 == player_total(pre, before[i2].0));
                } else {
                    assert(forall|j: int| 0 <= j < before.len() ==> before[j].0 != p);
                    assert(player_total(pre, p) == 0);
                }
            }
            assert forall|m: int| 0 <= m < k + 1 implies listed(out@, #[trigger] rows@[m].0) by {
                if m < k {
                    let i2 = choose|i2: int| 0 <= i2 < before.len() && before[i2].0 == rows@[m].0;
                    assert(out@[i2].0 == before[i2].0);
                } else {
                    match found {
                        Some(f) => assert(out@[f as int].0 == p),
                        None => assert(out@[before.len() as int].0 == p),
                    }
                }
            }
            assert forall|i2: int| 0 <= i2 < before.len() implies out@[i2].0 == before[i2].0 by {
            }
            assert forall|q: u128| (forall|i2: int| 0 <= i2 < out@.len() ==> out@[i2].0 != q) implies player_total(post, q) == 0 by {
                if q == p {
                    match found {
                        Some(f) => assert(out@[f as int].0 == p),
                        None => assert(out@[before.len() as int].0 == p),
                    }
                } else {
                    assert forall|i2: int| 0 <= i2 < before.len() implies before[i2].0 != q by {
                        assert(out@[i2].0 == before[i2].0);
                    }
                }
            }
        }
        k = k + 1;
    }
    assert(rows@.take(rows@.len() as int) =~= rows@);
    out
}

/// Relies on `itertools::Itertools::sorted_by`, a stable sort, with a
/// comparison of the values in reverse: the same entries, highest value first.
#[verifier::external_body]
fn sorted_by_value_desc(v: Vec<(u128, i64)>) -> (r: Vec<(u128, i64)>)
    ensures
        r@.to_multiset() == v@.to_multiset(),
        forall|i: int, j: int| 0 <= i < j < r@.len() ==> r@[i].1 >= r@[j].1,
{
    v.into_iter().sorted_by(|a, b| b.1.cmp(&a.1)).collect()
}

/// `s` holds the entries of `totals`, highest value first.
pub open spec fn ranked_order(s: Seq<(u128, i64)>, totals: Seq<(u128, i64)>) -> bool {
    &&& s.to_multiset() == totals.to_multiset()
    &&& forall|i: int, j: int| 0 <= i < j < s.len() ==> s[i].1 >= s[j].1
}

/// The places of a leaderboard: the totals, highest first, cut to `size`
/// places (all of them for a negative size).
pub fn rank(totals: Vec<(u128, i64)>, size: i32) -> (r: Vec<(u128, i64)>)
    ensures
        forall|i: int, j: int| 0 <= i < j < r@.len() ==> r@[i].1 >= r@[j].1,
        r@.len() == if size < 0 || size as int >= totals@.len() { totals@.len() as int } else { size as int },
        exists|s: Seq<(u128, i64)>| ranked_order(s, totals@) && r@ == s.take(r@.len() as int),
{
    let sorted = sorted_by_value_desc(totals);
    proof {
        broadcast use vstd::seq_lib::group_to_multiset_ensures;
        assert(sorted@.len() == totals@.len()) by {
            assert(sorted@.to_multiset().len() == totals@.to_multiset().len());
        }
    }
    let n: usize = if size < 0 || size as usize >= sorted.len() { sorted.len() } else { size as usize };
    let mut out: Vec<(u128, i64)> = Vec::new();
    let mut i: usize = 0;
    while i < n
        invariant
            n <= sorted@.len(),
            i <= n,
            out@ == sorted@.take(i as int),
        decreases n - i,
    {
        out.push(sorted[i]);
        assert(sorted@.take(i + 1) =~= sorted@.take(i as int).push(sorted@[i as int]));
        i = i + 1;
    }
    assert(out@ == sorted@.take(out@.len() as int));
    assert(ranked_order(sorted@, totals@));
    out
}

/// One place of a leaderboard as shown: `{username}:{value}`, with `?` for a
/// player whose name is unknown.
pub fn leaderboard_entry(username: &Option<String>, value: i64) -> (r: String)
    ensures
        r@ == match *username {
            Some(u) => u@,
            None => "?"@,
        } + ":"@ + decimal_text(value as int),
{
    let name = match username {
        Some(u) => u.clone(),
        None => String::from_str("?"),
    };
    name.concat(":").concat(i64_text(value).as_str())
}

} // verus!
