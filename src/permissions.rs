//! Permission resolution: what a player may do on a proxy or on a server of
//! some kind, from its groups, its own permissions and the kind's overrides.

use vstd::prelude::*;
use crate::text::{has_char, is_prefix, decimal_text, contains_char, starts_with, skip_chars, i64_text};

verus! {

/// A permission group.
#[derive(Debug)]
pub struct Group {
    pub name: String,
    pub power: i32,
    pub prefix: Option<String>,
    pub suffix: Option<String>,
    pub permissions: Option<Vec<String>>,
}

pub open spec fn texts(v: Seq<String>) -> Seq<Seq<char>> {
    v.map_values(|s: String| s@)
}

pub open spec fn opt_texts(v: Option<Vec<String>>) -> Seq<Seq<char>> {
    match v {
        Some(v) => texts(v@),
        None => Seq::empty(),
    }
}

/// The highest power among the groups, 0 when there are none.
pub open spec fn max_power(gs: Seq<Group>) -> int
    decreases gs.len(),
{
    if gs.len() == 0 {
        0
    } else if gs.len() == 1 {
        gs[0].power as int
    } else {
        let m = max_power(gs.drop_last());
        if gs.last().power as int > m { gs.last().power as int } else { m }
    }
}

/// The groups' permissions, group after group.
pub open spec fn group_permissions(gs: Seq<Group>) -> Seq<Seq<char>>
    decreases gs.len(),
{
    if gs.len() == 0 {
        Seq::empty()
    } else {
        group_permissions(gs.drop_last()) + opt_texts(gs.last().permissions)
    }
}

/// The kind's permissions for the groups that the player belongs to, in the
/// kind's order.
pub open spec fn kind_permissions(ov: Seq<(String, Vec<String>)>, member: Seq<Seq<char>>) -> Seq<Seq<char>>
    decreases ov.len(),
{
    if ov.len() == 0 {
        Seq::empty()
    } else {
        kind_permissions(ov.drop_last(), member) + if member.contains(ov.last().0@) {
            texts(ov.last().1@)
        } else {
            Seq::empty()
        }
    }
}

/// The power permission: `power.{n}`.
pub open spec fn power_permission(n: int) -> Seq<char> {
    "power."@ + decimal_text(n)
}

/// What becomes of one permission on a login: kept when unscoped; on a
/// proxy, kept without its scope when scoped `proxy:`; dropped otherwise.
pub open spec fn scoped(p: Seq<char>, proxy: bool) -> Option<Seq<char>> {
    if !has_char(p, ':') {
        Some(p)
    } else if proxy && is_prefix("proxy:"@, p) {
        Some(p.skip(6))
    } else {
        None
    }
}

/// The permissions that remain after scoping, in order.
pub open spec fn scoped_all(ps: Seq<Seq<char>>, proxy: bool) -> Seq<Seq<char>>
    decreases ps.len(),
{
    if ps.len() == 0 {
        Seq::empty()
    } else {
        scoped_all(ps.drop_last(), proxy) + match scoped(ps.last(), proxy) {
            Some(p) => seq![p],
            None => Seq::empty(),
        }
    }
}

/// The permissions of a login: the groups', the power permission, the
/// player's own, the kind's for the player's groups; then scoped for a proxy
/// login or for a login on a server of another kind.
pub open spec fn resolved(gs: Seq<Group>, member: Seq<Seq<char>>, own: Option<Vec<String>>, ov: Option<Vec<(String, Vec<String>)>>, proxy: bool) -> Seq<Seq<char>> {
    scoped_all(
        group_permissions(gs) + seq![power_permission(max_power(gs))] + opt_texts(own) + match ov {
            Some(ov) => kind_permissions(ov@, member),
            None => Seq::empty(),
        },
        proxy,
    )
}

/// The highest power among the groups, 0 when there are none.
pub fn groups_power(gs: &Vec<Group>) -> (r: i32)
    ensures
        r as int == max_power(gs@),
{
    let mut m: i32 = 0;
    let mut i: usize = 0;
    while i < gs.len()
        invariant
            i <= gs@.len(),
            m as int == max_power(gs@.take(i as int)),
        decreases gs@.len() - i,
    {
        assert(gs@.take(i + 1).drop_last() =~= gs@.take(i as int));
        if i == 0 || gs[i].power > m {
            m = gs[i].power;
        }
        i = i + 1;
    }
    assert(gs@.take(gs@.len() as int) =~= gs@);
    m
}

/// Appends copies of `v`'s strings to `out`.
fn extend_texts(out: &mut Vec<String>, v: &Vec<String>)
    ensures
        texts(final(out)@) == texts(old(out)@) + texts(v@),
{
    let mut i: usize = 0;
    while i < v.len()
        invariant
            i <= v@.len(),
            texts(out@) == texts(old(out)@) + texts(v@.take(i as int)),
        decreases v@.len() - i,
    {
        let ghost before = out@;
        out.push(v[i].clone());
        assert(texts(out@) =~= texts(before) + seq![v@[i as int]@]);
        assert(texts(v@.take(i + 1)) =~= texts(v@.take(i as int)) + seq![v@[i as int]@]);
        i = i + 1;
    }
    assert(v@.take(v@.len() as int) =~= v@);
}

/// Whether `names` holds `n`.
pub fn holds_name(names: &Vec<String>, n: &String) -> (r: bool)
    ensures
        r == texts(names@).contains(n@),
{
    let mut i: usize = 0;
    while i < names.len()
        invariant
            i <= names@.len(),
            forall|j: int| 0 <= j < i ==> names@[j]@ != n@,
        decreases names@.len() - i,
    {
        if names[i] == *n {
            assert(texts(names@)[i as int] == n@);
            return true;
        }
        i = i + 1;
    }
    assert(!texts(names@).contains(n@)) by {
        if texts(names@).contains(n@) {
            let j = choose|j: int| 0 <= j < texts(names@).len() && texts(names@)[j] == n@;
            assert(names@[j]@ == n@);
        }
    }
    false
}

/// Scopes one permission, for a proxy login or another.
pub fn scope_permission(p: &String, proxy: bool) -> (r: Option<String>)
    ensures
        match r {
            Some(x) => scoped(p@, proxy) == Some(x@),
            None => scoped(p@, proxy) is None,
        },
{
    if !contains_char(p.as_str(), ':') {
        return Some(p.clone());
    }
    proof {
        reveal_strlit("proxy:");
    }
    if proxy && starts_with(p.as_str(), "proxy:") {
        Some(skip_chars(p.as_str(), 6))
    } else {
        None
    }
}

/// Resolves the permissions of a login: those of `groups` (the player's
/// groups as stored), `power.{highest power}`, the player's own, then the
/// kind's overrides for the groups named in `member`; each then scoped, as
/// for a proxy when `proxy` holds. Returns the power and the permissions.
pub fn resolve_permissions(
    groups: &Vec<Group>,
    member: &Vec<String>,
    own: &Option<Vec<String>>,
    overrides: &Option<Vec<(String, Vec<String>)>>,
    proxy: bool,
) -> (r: (i32, Vec<String>))
    ensures
        r.0 as int == max_power(groups@),
        texts(r.1@) == resolved(groups@, texts(member@), *own, *overrides, proxy),
{
    let power = groups_power(groups);
    let mut raw: Vec<String> = Vec::new();
    let mut i: usize = 0;
    while i < groups.len()
        invariant
            i <= groups@.len(),
            texts(raw@) == group_permissions(groups@.take(i as int)),
        decreases groups@.len() - i,
    {
        assert(groups@.take(i + 1).drop_last() =~= groups@.take(i as int));
        match &groups[i].permissions {
            Some(ps) => extend_texts(&mut raw, ps),
            None => {
                assert(texts(raw@) =~= texts(raw@) + Seq::<Seq<char>>::empty());
            },
        }
        i = i + 1;
    }
    assert(groups@.take(groups@.len() as int) =~= groups@);
    let power_text = String::from_str("power.").concat(i64_text(power as i64).as_str());
    let ghost before = raw@;
    raw.push(power_text);
    assert(texts(raw@) =~= texts(before) + seq![power_permission(max_power(groups@))]);
    match own {
        Some(ps) => extend_texts(&mut raw, ps),
        None => {
            assert(texts(raw@) =~= texts(raw@) + Seq::<Seq<char>>::empty());
        },
    }
    let ghost head = texts(raw@);
    match overrides {
        Some(ov) => {
            let mut k: usize = 0;
            while k < ov.len()
                invariant
                    k <= ov@.len(),
                    texts(raw@) == head + kind_permissions(ov@.take(k as int), texts(member@)),
                decreases ov@.len() - k,
            {
                assert(ov@.take(k + 1).drop_last() =~= ov@.take(k as int));
                if holds_name(member, &ov[k].0) {
                    extend_texts(&mut raw, &ov[k].1);
                    assert(texts(raw@) =~= head + kind_permissions(ov@.take(k + 1), texts(member@)));
                } else {
                    assert(texts(raw@) =~= head + kind_permissions(ov@.take(k + 1), texts(member@)));
                }
                k = k + 1;
            }
            assert(ov@.take(ov@.len() as int) =~= ov@);
        },
        None => {
            assert(texts(raw@) =~= head + Seq::<Seq<char>>::empty());
        },
    }
    let ghost all = texts(raw@);
    let mut out: Vec<String> = Vec::new();
    let mut j: usize = 0;
    while j < raw.len()
        invariant
            j <= raw@.len(),
            all == texts(raw@),
            texts(out@) == scoped_all(all.take(j as int), proxy),
        decreases raw@.len() - j,
    {
        assert(all.take(j + 1).drop_last() =~= all.take(j as int));
        let ghost before_out = out@;
        match scope_permission(&raw[j], proxy) {
            Some(p) => {
                out.push(p);
                assert(texts(out@) =~= texts(before_out) + seq![out@.last()@]);
            },
            None => {
                assert(texts(out@) =~= texts(out@) + Seq::<Seq<char>>::empty());
            },
        }
        j = j + 1;
    }
    assert(all.take(all.len() as int) =~= all);
    (power, out)
}

} // verus!
