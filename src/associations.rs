//! The associations of a player: every name, account, address and discord
//! identity reachable from one of them through the records that link them.

use vstd::prelude::*;
use crate::ident::IpAddress;
use crate::permissions::{texts, holds_name};

verus! {

/// A lookup of the walk.
#[derive(Debug)]
pub enum Lookup {
    /// The account that bears this name.
    Name(String),
    /// The name, session addresses and discord identity of this account.
    Uuid(u128),
    /// The accounts whose sessions came from this address.
    Ip(IpAddress),
    /// The accounts linked to this discord identity.
    Discord(String),
}

/// What a walk found: each item once, in the order found, and how many
/// lookups were made.
#[derive(Debug)]
pub struct ApocalypseState {
    pub uuids: Vec<u128>,
    pub names: Vec<String>,
    pub discords: Vec<String>,
    pub ips: Vec<IpAddress>,
    pub i: i64,
}

/// What is queued after `from` items became `to`: the lookups queued before
/// stay, and one more is queued per item added.
pub open spec fn queued_after(from: nat, to: nat, before: Seq<Lookup>, after: Seq<Lookup>) -> bool {
    &&& after.len() == before.len() + to - from
    &&& after.take(before.len() as int) == before
}

/// A walk over associations. Each item found for the first time is recorded
/// and looked up in turn.
pub struct Associations {
    state: ApocalypseState,
    pending: Vec<Lookup>,
}

impl Associations {
    pub closed spec fn found(&self) -> ApocalypseState {
        self.state
    }

    /// The lookups still to make; the last is made first.
    pub closed spec fn pending(&self) -> Seq<Lookup> {
        self.pending@
    }

    pub open spec fn pending_len(&self) -> nat {
        self.pending().len()
    }

    /// Each list holds its items once.
    pub open spec fn wf(&self) -> bool {
        &&& self.found().uuids@.no_duplicates()
        &&& self.found().ips@.no_duplicates()
        &&& texts(self.found().names@).no_duplicates()
        &&& texts(self.found().discords@).no_duplicates()
    }

    /// A walk that starts with one lookup; nothing is recorded yet.
    pub fn new(start: Lookup) -> (r: Associations)
        ensures
            r.wf(),
            r.found().uuids@.len() == 0,
            r.found().names@.len() == 0,
            r.found().discords@.len() == 0,
            r.found().ips@.len() == 0,
            r.found().i == 0,
            r.pending() == seq![start],
    {
        let mut pending: Vec<Lookup> = Vec::new();
        pending.push(start);
        let r = Associations {
            state: ApocalypseState { uuids: Vec::new(), names: Vec::new(), discords: Vec::new(), ips: Vec::new(), i: 0 },
            pending,
        };
        assert(r.pending() =~= seq![start]);
        assert(texts(r.found().names@) =~= Seq::<Seq<char>>::empty());
        assert(texts(r.found().discords@) =~= Seq::<Seq<char>>::empty());
        r
    }

    /// The next lookup, counted; none when the walk is over.
    pub fn next(&mut self) -> (r: Option<Lookup>)
        requires
            old(self).wf(),
        ensures
            final(self).wf(),
            old(self).pending_len() == 0 ==> r is None && final(self).pending() == old(self).pending(),
            old(self).pending_len() > 0 ==> r == Some(old(self).pending().last())
                && final(self).pending() == old(self).pending().drop_last(),
            r is Some && old(self).found().i < i64::MAX ==> final(self).found().i == old(self).found().i + 1,
            final(self).found().uuids == old(self).found().uuids,
            final(self).found().names == old(self).found().names,
            final(self).found().discords == old(self).found().discords,
            final(self).found().ips == old(self).found().ips,
    {
        match self.pending.pop() {
            None => None,
            Some(l) => {
                if self.state.i < i64::MAX {
                    self.state.i = self.state.i + 1;
                }
                Some(l)
            },
        }
    }

    /// Takes the accounts a lookup found.
    pub fn accounts_found(&mut self, found: &Vec<u128>)
        requires
            old(self).wf(),
        ensures
            final(self).wf(),
            forall|u: u128| found@.contains(u) ==> final(self).found().uuids@.contains(u),
            forall|u: u128| final(self).found().uuids@.contains(u) ==> old(self).found().uuids@.contains(u) || found@.contains(u),
            queued_after(old(self).found().uuids@.len(), final(self).found().uuids@.len(), old(self).pending(), final(self).pending()),
            final(self).found().uuids@.take(old(self).found().uuids@.len() as int) == old(self).found().uuids@,
            forall|j: int| old(self).found().uuids@.len() <= j < final(self).found().uuids@.len() ==>
                final(self).pending()[old(self).pending().len() + j - old(self).found().uuids@.len()] == Lookup::Uuid(#[trigger] final(self).found().uuids@[j]),
            final(self).found().names == old(self).found().names,
            final(self).found().discords == old(self).found().discords,
            final(self).found().ips == old(self).found().ips,
            final(self).found().i == old(self).found().i,
    {
        let ghost pre = self.state.uuids@;
        let ghost pre_pending = self.pending@;
        assert(pre_pending.take(pre_pending.len() as int) =~= pre_pending);
        assert(pre.take(pre.len() as int) =~= pre);
        let mut k: usize = 0;
        while k < found.len()
            invariant
                pre == old(self).state.uuids@,
                pre_pending == old(self).pending@,
                self.state.uuids@.take(pre.len() as int) == pre,
                pre.len() <= self.state.uuids@.len(),
                queued_after(pre.len(), self.state.uuids@.len(), pre_pending, self.pending@),
                forall|j: int| pre.len() <= j < self.state.uuids@.len() ==>
                    self.pending@[pre_pending.len() + j - pre.len()] == Lookup::Uuid(#[trigger] self.state.uuids@[j]),
                self.state.uuids@.no_duplicates(),
                k <= found@.len(),
                forall|j: int| 0 <= j < k ==> self.state.uuids@.contains(found@[j]),
                forall|u: u128| self.state.uuids@.contains(u) ==> pre.contains(u) || found@.contains(u),
                self.state.names == old(self).state.names,
                self.state.discords == old(self).state.discords,
                self.state.ips == old(self).state.ips,
                self.state.i == old(self).state.i,
            decreases found@.len() - k,
        {
            let u = found[k];
            let mut seen = false;
            let mut j: usize = 0;
            while j < self.state.uuids.len()
                invariant
                    j <= self.state.uuids@.len(),
                    seen == exists|m: int| 0 <= m < j && self.state.uuids@[m] == u,
                decreases self.state.uuids@.len() - j,
            {
                if self.state.uuids[j] == u {
                    seen = true;
                }
                j = j + 1;
            }
            if !seen {
                let ghost before = self.state.uuids@;
                let ghost before_pending = self.pending@;
                self.state.uuids.push(u);
                self.pending.push(Lookup::Uuid(u));
                proof {
                    assert(self.state.uuids@.take(pre.len() as int) =~= before.take(pre.len() as int));
                    assert(self.pending@.take(pre_pending.len() as int) =~= before_pending.take(pre_pending.len() as int));
                    assert forall|j: int| pre.len() <= j < self.state.uuids@.len() implies
                        self.pending@[pre_pending.len() + j - pre.len()] == Lookup::Uuid(#[trigger] self.state.uuids@[j]) by {
                        if j < before.len() {
                            assert(self.state.uuids@[j] == before[j]);
                            assert(self.pending@[pre_pending.len() + j - pre.len()] == before_pending[pre_pending.len() + j - pre.len()]);
                        }
                    }
                    assert forall|x: u128| self.state.uuids@.contains(x) implies pre.contains(x) || found@.contains(x) by {
                        let m = choose|m: int| 0 <= m < self.state.uuids@.len() && self.state.uuids@[m] == x;
                        if m < before.len() {
                            assert(before.contains(x));
                        } else {
                            assert(found@[k as int] == x);
                        }
                    }
                    assert forall|j2: int| 0 <= j2 <= k implies self.state.uuids@.contains(found@[j2]) by {
                        if j2 < k {
                            assert(before.contains(found@[j2]));
                            let m = choose|m: int| 0 <= m < before.len() && before[m] == found@[j2];
                            assert(self.state.uuids@[m] == found@[j2]);
                        } else {
                            assert(self.state.uuids@[before.len() as int] == u);
                        }
                    }
                }
            }
            k = k + 1;
        }
    }

    /// Takes the addresses a lookup found.
    pub fn addresses_found(&mut self, found: &Vec<IpAddress>)
        requires
            old(self).wf(),
        ensures
            final(self).wf(),
            forall|a: IpAddress| found@.contains(a) ==> final(self).found().ips@.contains(a),
            forall|a: IpAddress| final(self).found().ips@.contains(a) ==> old(self).found().ips@.contains(a) || found@.contains(a),
            queued_after(old(self).found().ips@.len(), final(self).found().ips@.len(), old(self).pending(), final(self).pending()),
            final(self).found().ips@.take(old(self).found().ips@.len() as int) == old(self).found().ips@,
            forall|j: int| old(self).found().ips@.len() <= j < final(self).found().ips@.len() ==>
                final(self).pending()[old(self).pending().len() + j - old(self).found().ips@.len()] == Lookup::Ip(#[trigger] final(self).found().ips@[j]),
            final(self).found().uuids == old(self).found().uuids,
            final(self).found().names == old(self).found().names,
            final(self).found().discords == old(self).found().discords,
            final(self).found().i == old(self).found().i,
    {
        let ghost pre = self.state.ips@;
        let ghost pre_pending = self.pending@;
        assert(pre_pending.take(pre_pending.len() as int) =~= pre_pending);
        assert(pre.take(pre.len() as int) =~= pre);
        let mut k: usize = 0;
        while k < found.len()
            invariant
                pre == old(self).state.ips@,
                pre_pending == old(self).pending@,
                self.state.ips@.take(pre.len() as int) == pre,
                pre.len() <= self.state.ips@.len(),
                queued_after(pre.len(), self.state.ips@.len(), pre_pending, self.pending@),
                forall|j: int| pre.len() <= j < self.state.ips@.len() ==>
                    self.pending@[pre_pending.len() + j - pre.len()] == Lookup::Ip(#[trigger] self.state.ips@[j]),
                self.state.ips@.no_duplicates(),
                k <= found@.len(),
                forall|j: int| 0 <= j < k ==> self.state.ips@.contains(found@[j]),
                forall|a: IpAddress| self.state.ips@.contains(a) ==> pre.contains(a) || found@.contains(a),
                self.state.names == old(self).state.names,
                self.state.discords == old(self).state.discords,
                self.state.uuids == old(self).state.uuids,
                self.state.i == old(self).state.i,
            decreases found@.len() - k,
        {
            let a = found[k];
            let mut seen = false;
            let mut j: usize = 0;
            while j < self.state.ips.len()
                invariant
                    j <= self.state.ips@.len(),
                    seen == exists|m: int| 0 <= m < j && self.state.ips@[m] == a,
                decreases self.state.ips@.len() - j,
            {
                if self.state.ips[j] == a {
                    seen = true;
                }
                j = j + 1;
            }
            if !seen {
                let ghost before = self.state.ips@;
                let ghost before_pending = self.pending@;
                self.state.ips.push(a);
                self.pending.push(Lookup::Ip(a));
                proof {
                    assert(self.state.ips@.take(pre.len() as int) =~= before.take(pre.len() as int));
                    assert(self.pending@.take(pre_pending.len() as int) =~= before_pending.take(pre_pending.len() as int));
                    assert forall|j: int| pre.len() <= j < self.state.ips@.len() implies
                        self.pending@[pre_pending.len() + j - pre.len()] == Lookup::Ip(#[trigger] self.state.ips@[j]) by {
                        if j < before.len() {
                            assert(self.state.ips@[j] == before[j]);
                            assert(self.pending@[pre_pending.len() + j - pre.len()] == before_pending[pre_pending.len() + j - pre.len()]);
                        }
                    }
                    assert forall|x: IpAddress| self.state.ips@.contains(x) implies pre.contains(x) || found@.contains(x) by {
                        let m = choose|m: int| 0 <= m < self.state.ips@.len() && self.state.ips@[m] == x;
                        if m < before.len() {
                            assert(before.contains(x));
                        } else {
                            assert(found@[k as int] == x);
                        }
                    }
                    assert forall|j2: int| 0 <= j2 <= k implies self.state.ips@.contains(found@[j2]) by {
                        if j2 < k {
                            assert(before.contains(found@[j2]));
                            let m = choose|m: int| 0 <= m < before.len() && before[m] == found@[j2];
                            assert(self.state.ips@[m] == found@[j2]);
                        } else {
                            assert(self.state.ips@[before.len() as int] == a);
                        }
                    }
                }
            }
            k = k + 1;
        }
    }

    /// Takes a name that a lookup found.
    pub fn name_found(&mut self, name: String)
        requires
            old(self).wf(),
        ensures
            final(self).wf(),
            texts(final(self).found().names@) == if texts(old(self).found().names@).contains(name@) {
                texts(old(self).found().names@)
            } else {
                texts(old(self).found().names@).push(name@)
            },
            final(self).pending() == if texts(old(self).found().names@).contains(name@) {
                old(self).pending()
            } else {
                old(self).pending().push(Lookup::Name(name))
            },
            final(self).found().uuids == old(self).found().uuids,
            final(self).found().discords == old(self).found().discords,
            final(self).found().ips == old(self).found().ips,
            final(self).found().i == old(self).found().i,
    {
        if !holds_name(&self.state.names, &name) {
            let ghost before = self.state.names@;
            let lookup = Lookup::Name(name.clone());
            self.state.names.push(name);
            self.pending.push(lookup);
            assert(texts(self.state.names@) =~= texts(before).push(self.state.names@.last()@));
        }
    }

    /// Takes a discord identity that a lookup found.
    pub fn discord_found(&mut self, discord: String)
        requires
            old(self).wf(),
        ensures
            final(self).wf(),
            texts(final(self).found().discords@) == if texts(old(self).found().discords@).contains(discord@) {
                texts(old(self).found().discords@)
            } else {
                texts(old(self).found().discords@).push(discord@)
            },
            final(self).pending() == if texts(old(self).found().discords@).contains(discord@) {
                old(self).pending()
            } else {
                old(self).pending().push(Lookup::Discord(discord))
            },
            final(self).found().uuids == old(self).found().uuids,
            final(self).found().names == old(self).found().names,
            final(self).found().ips == old(self).found().ips,
            final(self).found().i == old(self).found().i,
    {
        if !holds_name(&self.state.discords, &discord) {
            let ghost before = self.state.discords@;
            let lookup = Lookup::Discord(discord.clone());
            self.state.discords.push(discord);
            self.pending.push(lookup);
            assert(texts(self.state.discords@) =~= texts(before).push(self.state.discords@.last()@));
        }
    }

    /// What the walk found.
    pub fn into_state(self) -> (r: ApocalypseState)
        ensures
            r == self.found(),
    {
        self.state
    }
}

} // verus!
