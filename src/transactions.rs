//! Transactions on a player's account: currencies, inventory, and groups.

use vstd::prelude::*;
use crate::text::{before_char, first_at, has_char, integer_of, parse_i64, find_char, skip_chars, text_before};

verus! {

/// A change of a player's two currencies.
#[derive(Debug, Clone, Copy, PartialEq, Eq, Structural)]
pub struct PlayerTransaction {
    pub currency: i32,
    pub premium_currency: i32,
}

/// A balance stays a balance: not negative, within `i32`.
pub open spec fn balance_ok(v: int) -> bool {
    0 <= v <= i32::MAX
}

impl PlayerTransaction {
    /// The balances after the change; none when either would go negative
    /// (or past `i32::MAX`), in which case nothing changes.
    pub fn apply(&self, currency: i32, premium_currency: i32) -> (r: Option<(i32, i32)>)
        ensures
            r is Some <==> balance_ok(currency + self.currency) && balance_ok(premium_currency + self.premium_currency),
            r is Some ==> r.unwrap().0 == currency + self.currency && r.unwrap().1 == premium_currency + self.premium_currency,
    {
        let a = currency as i64 + self.currency as i64;
        let b = premium_currency as i64 + self.premium_currency as i64;
        if 0 <= a && a <= i32::MAX as i64 && 0 <= b && b <= i32::MAX as i64 {
            Some((a as i32, b as i32))
        } else {
            None
        }
    }
}

/// `i` is the first entry of an inventory for item `k`.
pub open spec fn item_at(inv: Seq<(String, i32)>, k: Seq<char>, i: int) -> bool {
    &&& 0 <= i < inv.len()
    &&& inv[i].0@ == k
    &&& forall|j: int| 0 <= j < i ==> inv[j].0@ != k
}

/// How many of item `k` the inventory holds: 0 when it lists none.
pub open spec fn held(inv: Seq<(String, i32)>, k: Seq<char>) -> int {
    if exists|i: int| item_at(inv, k, i) {
        inv[choose|i: int| item_at(inv, k, i)].1 as int
    } else {
        0
    }
}

fn held_count(inv: &Vec<(String, i32)>, k: &String) -> (r: i32)
    ensures
        r as int == held(inv@, k@),
{
    let mut i: usize = 0;
    while i < inv.len()
        invariant
            i <= inv@.len(),
            forall|j: int| 0 <= j < i ==> inv@[j].0@ != k@,
        decreases inv@.len() - i,
    {
        if inv[i].0 == *k {
            proof {
                assert(item_at(inv@, k@, i as int));
                let c = choose|c: int| item_at(inv@, k@, c);
                if c < i {
                } else if c > i {
                    assert(inv@[i as int].0@ == k@);
                }
            }
            return inv[i].1;
        }
        i = i + 1;
    }
    0
}

/// Whether every item of a change keeps a count that is not negative.
pub open spec fn inventory_ok(inv: Seq<(String, i32)>, delta: Seq<(String, i32)>) -> bool {
    forall|i: int| 0 <= i < delta.len() ==> balance_ok(#[trigger] held(inv, delta[i].0@) + delta[i].1)
}

/// The counts to write for a change of inventory: for each item of `delta`,
/// in order, what the inventory holds plus the change; none, and nothing
/// written, when any would go negative (or past `i32::MAX`).
pub fn inventory_updates(inv: &Vec<(String, i32)>, delta: &Vec<(String, i32)>) -> (r: Option<Vec<(String, i32)>>)
    ensures
        r is Some <==> inventory_ok(inv@, delta@),
        r is Some ==> {
            let u = r.unwrap()@;
            &&& u.len() == delta@.len()
            &&& forall|i: int| 0 <= i < u.len() ==> u[i].0@ == delta@[i].0@ && u[i].1 == held(inv@, delta@[i].0@) + delta@[i].1
        },
{
    let mut out: Vec<(String, i32)> = Vec::new();
    let mut i: usize = 0;
    while i < delta.len()
        invariant
            i <= delta@.len(),
            out@.len() == i,
            forall|j: int| 0 <= j < i ==> balance_ok(#[trigger] held(inv@, delta@[j].0@) + delta@[j].1),
            forall|j: int| 0 <= j < i ==> out@[j].0@ == delta@[j].0@ && out@[j].1 == held(inv@, delta@[j].0@) + delta@[j].1,
        decreases delta@.len() - i,
    {
        let have = held_count(inv, &delta[i].0);
        let v = have as i64 + delta[i].1 as i64;
        if v < 0 || v > i32::MAX as i64 {
            return None;
        }
        out.push((delta[i].0.clone(), v as i32));
        i = i + 1;
    }
    Some(out)
}

/// One change of a player's groups.
#[derive(Debug)]
pub enum GroupUpdate {
    /// `-name`: leave the group.
    Remove(String),
    /// `name`, or `name/ttl` with a ttl not above 0: join the group for good.
    Add(String),
    /// `name/ttl`: join the group for `ttl` seconds.
    AddFor(String, i32),
}

#[derive(Debug, Clone, Copy, PartialEq, Eq, Structural)]
pub enum GroupUpdateError {
    /// The text after `/` is not an `i32`.
    InvalidDuration,
}

/// The ttl text of `name/ttl...`: after the first `/`, up to the next.
pub open spec fn ttl_text(s: Seq<char>) -> Seq<char> {
    before_char(s.skip((choose|i: int| first_at(s, '/', i)) + 1), '/')
}

/// Reads a group update: `-name`, `name/ttl` or `name`.
pub fn parse_group_update(s: &str) -> (r: Result<GroupUpdate, GroupUpdateError>)
    ensures
        s@.len() > 0 && s@[0] == '-' ==> r is Ok && r->Ok_0 is Remove && r->Ok_0->Remove_0@ == s@.skip(1),
        !(s@.len() > 0 && s@[0] == '-') && !has_char(s@, '/') ==> r is Ok && r->Ok_0 is Add && r->Ok_0->Add_0@ == s@,
        !(s@.len() > 0 && s@[0] == '-') && has_char(s@, '/') ==> {
            let t = integer_of(ttl_text(s@));
            let name = before_char(s@, '/');
            &&& (t is None || t.unwrap() < i32::MIN || t.unwrap() > i32::MAX) ==> r == Err::<GroupUpdate, GroupUpdateError>(GroupUpdateError::InvalidDuration)
            &&& (t is Some && i32::MIN <= t.unwrap() <= 0) ==> r is Ok && r->Ok_0 is Add && r->Ok_0->Add_0@ == name
            &&& (t is Some && 0 < t.unwrap() <= i32::MAX) ==> r is Ok && r->Ok_0 is AddFor && r->Ok_0->AddFor_0@ == name
                && r->Ok_0->AddFor_1 == t.unwrap()
        },
{
    let n = s.unicode_len();
    if n > 0 && s.get_char(0) == '-' {
        return Ok(GroupUpdate::Remove(skip_chars(s, 1)));
    }
    match find_char(s, '/') {
        None => Ok(GroupUpdate::Add(s.to_owned())),
        Some(i) => {
            proof {
                let k = choose|k: int| first_at(s@, '/', k);
                assert(k == i) by {
                    if k < i {
                        assert(s@[k] == '/');
                    } else if k > i {
                        assert(s@[i as int] == '/');
                    }
                }
            }
            let name = text_before(s, '/');
            let rest = skip_chars(s, i + 1);
            let ttl = text_before(rest.as_str(), '/');
            match parse_i64(ttl.as_str()) {
                None => Err(GroupUpdateError::InvalidDuration),
                Some(v) => if v < i32::MIN as i64 || v > i32::MAX as i64 {
                    Err(GroupUpdateError::InvalidDuration)
                } else if v <= 0 {
                    Ok(GroupUpdate::Add(name))
                } else {
                    Ok(GroupUpdate::AddFor(name, v as i32))
                },
            }
        },
    }
}

} // verus!
