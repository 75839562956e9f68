//! String-to-string property lists, as carried by servers, pods and kinds.
//! Keys are looked up front to back: the first entry with a key wins.

use vstd::prelude::*;

verus! {

/// Key-value pairs, in order.
pub type Properties = Vec<(String, String)>;

/// `i` is the first position whose key is `k`.
pub open spec fn first_key_at(ps: Seq<(String, String)>, k: Seq<char>, i: int) -> bool {
    &&& 0 <= i < ps.len()
    &&& ps[i].0@ == k
    &&& forall|j: int| 0 <= j < i ==> ps[j].0@ != k
}

/// The value of key `k`, if some entry has it.
pub open spec fn prop(ps: Seq<(String, String)>, k: Seq<char>) -> Option<Seq<char>> {
    if exists|i: int| first_key_at(ps, k, i) {
        Some(ps[choose|i: int| first_key_at(ps, k, i)].1@)
    } else {
        None
    }
}

/// The value of key `k` in a list that may be absent.
pub open spec fn opt_prop(ps: Option<Vec<(String, String)>>, k: Seq<char>) -> Option<Seq<char>> {
    match ps {
        Some(ps) => prop(ps@, k),
        None => None,
    }
}

pub open spec fn text_of(s: Option<String>) -> Option<Seq<char>> {
    match s {
        Some(s) => Some(s@),
        None => None,
    }
}

proof fn lemma_first_key_unique(ps: Seq<(String, String)>, k: Seq<char>, i: int, j: int)
    requires
        first_key_at(ps, k, i),
        first_key_at(ps, k, j),
    ensures
        i == j,
{
}

proof fn lemma_same_keys(a: Seq<(String, String)>, b: Seq<(String, String)>, q: Seq<char>)
    requires
        a.len() == b.len(),
        forall|j: int| 0 <= j < a.len() ==> (a[j].0@ == q <==> b[j].0@ == q),
        forall|j: int| 0 <= j < a.len() && a[j].0@ == q ==> a[j] == b[j],
    ensures
        prop(a, q) == prop(b, q),
{
    if exists|i: int| first_key_at(a, q, i) {
        let c = choose|c: int| first_key_at(a, q, c);
        assert(first_key_at(b, q, c));
        let d = choose|d: int| first_key_at(b, q, d);
        assert(first_key_at(a, q, d));
        lemma_first_key_unique(a, q, c, d);
    } else {
        assert forall|i: int| !first_key_at(b, q, i) by {
            if first_key_at(b, q, i) {
                assert(first_key_at(a, q, i));
            }
        }
    }
}

proof fn lemma_same_keys_push(a: Seq<(String, String)>, x: (String, String), q: Seq<char>)
    requires
        x.0@ != q,
    ensures
        prop(a.push(x), q) == prop(a, q),
{
    let b = a.push(x);
    if exists|i: int| first_key_at(a, q, i) {
        let c = choose|c: int| first_key_at(a, q, c);
        assert(first_key_at(b, q, c));
        let d = choose|d: int| first_key_at(b, q, d);
        lemma_first_key_unique(b, q, c, d);
    } else {
        assert forall|i: int| !first_key_at(b, q, i) by {
            if first_key_at(b, q, i) {
                assert(b[a.len() as int] == x);
                assert(i != a.len());
                assert(forall|j: int| 0 <= j < a.len() ==> b[j] == a[j]);
                assert(first_key_at(a, q, i));
            }
        }
    }
}

/// The position of the first entry whose key is `k`.
pub fn find_key(ps: &Vec<(String, String)>, k: &str) -> (r: Option<usize>)
    ensures
        match r {
            Some(i) => first_key_at(ps@, k@, i as int),
            None => forall|j: int| 0 <= j < ps@.len() ==> ps@[j].0@ != k@,
        },
{
    let mut i: usize = 0;
    while i < ps.len()
        invariant
            i <= ps@.len(),
            forall|j: int| 0 <= j < i ==> ps@[j].0@ != k@,
        decreases ps@.len() - i,
    {
        if crate::text::same_text(ps[i].0.as_str(), k) {
            return Some(i);
        }
        i = i + 1;
    }
    None
}

/// The value of key `k`.
pub fn get_prop(ps: &Vec<(String, String)>, k: &str) -> (r: Option<String>)
    ensures
        text_of(r) == prop(ps@, k@),
{
    match find_key(ps, k) {
        Some(i) => {
            proof {
                let c = choose|c: int| first_key_at(ps@, k@, c);
                lemma_first_key_unique(ps@, k@, i as int, c);
            }
            Some(ps[i].1.clone())
        },
        None => None,
    }
}

/// The value of key `k` in a list that may be absent.
pub fn get_opt_prop(ps: &Option<Vec<(String, String)>>, k: &str) -> (r: Option<String>)
    ensures
        text_of(r) == opt_prop(*ps, k@),
{
    match ps {
        Some(ps) => get_prop(ps, k),
        None => None,
    }
}

/// Whether key `k` has the value `v`.
pub fn prop_is(ps: &Option<Vec<(String, String)>>, k: &str, v: &str) -> (r: bool)
    ensures
        r == (opt_prop(*ps, k@) == Some(v@)),
{
    match get_opt_prop(ps, k) {
        Some(x) => crate::text::same_text(x.as_str(), v),
        None => false,
    }
}

/// Sets key `k` to `v`: the first entry with that key gets the value, or a new
/// entry is appended when none has it.
pub fn set_prop(ps: &mut Vec<(String, String)>, k: String, v: String)
    ensures
        prop(final(ps)@, k@) == Some(v@),
        forall|q: Seq<char>| q != k@ ==> prop(final(ps)@, q) == prop(old(ps)@, q),
{
    let ghost pre = old(ps)@;
    match find_key(ps, k.as_str()) {
        Some(i) => {
            let ghost kk = k@;
            ps.set(i, (k, v));
            proof {
                let post = ps@;
                assert(first_key_at(post, kk, i as int));
                let c = choose|c: int| first_key_at(post, kk, c);
                lemma_first_key_unique(post, kk, i as int, c);
                assert forall|q: Seq<char>| q != kk implies prop(post, q) == prop(pre, q) by {
                    lemma_same_keys(post, pre, q);
                }
            }
        },
        None => {
            let ghost kk = k@;
            let ghost vv = v@;
            ps.push((k, v));
            proof {
                let post = ps@;
                assert(first_key_at(post, kk, pre.len() as int));
                let c = choose|c: int| first_key_at(post, kk, c);
                lemma_first_key_unique(post, kk, pre.len() as int, c);
                assert forall|q: Seq<char>| q != kk implies prop(post, q) == prop(pre, q) by {
                    lemma_same_keys_push(pre, (post[pre.len() as int]), q);
                    assert(post =~= pre.push(post[pre.len() as int]));
                }
            }
        },
    }
}

} // verus!
