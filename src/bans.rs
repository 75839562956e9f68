//! IP bans: the walk that gathers every player and address linked to a
//! player through shared session addresses, and what a ban records.

use vstd::prelude::*;
use crate::ident::IpAddress;

verus! {

/// The next lookup of a walk.
#[derive(Debug, Clone, Copy, PartialEq, Eq, Structural)]
pub enum WalkStep {
    /// The addresses that this player's sessions came from.
    AddressesOf(u128),
    /// The players whose sessions came from this address.
    PlayersOn(IpAddress),
    /// Every player and address found has been looked up.
    Done,
}

/// A walk over players and session addresses. Each player and each address
/// found is looked up once; what a lookup returns that was not found before
/// is added.
pub struct BanWalk {
    players: Vec<u128>,
    ips: Vec<IpAddress>,
    next_player: usize,
    next_ip: usize,
}

impl BanWalk {
    pub closed spec fn players_found(&self) -> Seq<u128> {
        self.players@
    }

    pub closed spec fn ips_found(&self) -> Seq<IpAddress> {
        self.ips@
    }

    /// How many players have been looked up.
    pub closed spec fn players_done(&self) -> int {
        self.next_player as int
    }

    /// How many addresses have been looked up.
    pub closed spec fn ips_done(&self) -> int {
        self.next_ip as int
    }

    pub open spec fn wf(&self) -> bool {
        &&& self.players_found().no_duplicates()
        &&& self.ips_found().no_duplicates()
        &&& 0 <= self.players_done() <= self.players_found().len()
        &&& 0 <= self.ips_done() <= self.ips_found().len()
    }

    /// The lookup that comes next: addresses are looked up before players.
    pub open spec fn spec_step(&self) -> WalkStep {
        if self.ips_done() < self.ips_found().len() {
            WalkStep::PlayersOn(self.ips_found()[self.ips_done()])
        } else if self.players_done() < self.players_found().len() {
            WalkStep::AddressesOf(self.players_found()[self.players_done()])
        } else {
            WalkStep::Done
        }
    }

    /// A walk from one player.
    pub fn new(player: u128) -> (r: BanWalk)
        ensures
            r.wf(),
            r.players_found() == seq![player],
            r.ips_found().len() == 0,
            r.spec_step() == WalkStep::AddressesOf(player),
    {
        let mut players: Vec<u128> = Vec::new();
        players.push(player);
        let r = BanWalk { players, ips: Vec::new(), next_player: 0, next_ip: 0 };
        assert(r.players_found() =~= seq![player]);
        r
    }

    pub fn step(&self) -> (r: WalkStep)
        requires
            self.wf(),
        ensures
            r == self.spec_step(),
    {
        if self.next_ip < self.ips.len() {
            WalkStep::PlayersOn(self.ips[self.next_ip])
        } else if self.next_player < self.players.len() {
            WalkStep::AddressesOf(self.players[self.next_player])
        } else {
            WalkStep::Done
        }
    }

    /// Takes the answer to an `AddressesOf` lookup.
    pub fn addresses_found(&mut self, found: &Vec<IpAddress>)
        requires
            old(self).wf(),
            old(self).spec_step() is AddressesOf,
        ensures
            final(self).wf(),
            final(self).players_found() == old(self).players_found(),
            final(self).players_done() == old(self).players_done() + 1,
            final(self).ips_done() == old(self).ips_done(),
            final(self).ips_found().take(old(self).ips_found().len() as int) == old(self).ips_found(),
            forall|a: IpAddress| found@.contains(a) ==> final(self).ips_found().contains(a),
            forall|a: IpAddress| final(self).ips_found().contains(a) ==> old(self).ips_found().contains(a) || found@.contains(a),
    {
        let ghost pre = self.ips@;
        let mut k: usize = 0;
        while k < found.len()
            invariant
                self.ips@.no_duplicates(),
                self.ips@.take(pre.len() as int) == pre,
                pre.len() <= self.ips@.len(),
                k <= found@.len(),
                forall|j: int| 0 <= j < k ==> self.ips@.contains(found@[j]),
                forall|a: IpAddress| self.ips@.contains(a) ==> pre.contains(a) || found@.contains(a),
                self.next_ip <= pre.len(),
                self.players@ == old(self).players@,
                self.next_player == old(self).next_player,
                self.next_ip == old(self).next_ip,
                self.next_player < self.players@.len(),
            decreases found@.len() - k,
        {
            let a = found[k];
            let mut seen = false;
            let mut j: usize = 0;
            while j < self.ips.len()
                invariant
                    j <= self.ips@.len(),
                    seen == exists|m: int| 0 <= m < j && self.ips@[m] == a,
                decreases self.ips@.len() - j,
            {
                if self.ips[j] == a {
                    seen = true;
                }
                j = j + 1;
            }
            if !seen {
                let ghost before = self.ips@;
                self.ips.push(a);
                proof {
                    assert(self.ips@.take(pre.len() as int) =~= before.take(pre.len() as int));
                    assert forall|x: IpAddress| self.ips@.contains(x) implies pre.contains(x) || found@.contains(x) by {
                        let m = choose|m: int| 0 <= m < self.ips@.len() && self.ips@[m] == x;
                        if m < before.len() {
                            assert(before.contains(x));
                        } else {
                            assert(found@[k as int] == x);
                        }
                    }
                    assert forall|j2: int| 0 <= j2 <= k implies self.ips@.contains(found@[j2]) by {
                        if j2 < k {
                            assert(before.contains(found@[j2]));
                            let m = choose|m: int| 0 <= m < before.len() && before[m] == found@[j2];
                            assert(self.ips@[m] == found@[j2]);
                        } else {
                            assert(self.ips@[before.len() as int] == a);
                        }
                    }
                }
            }
            k = k + 1;
        }
        let n = self.players.len();
        assert(self.next_player < n);
        self.next_player = self.next_player + 1;
    }

    /// Takes the answer to a `PlayersOn` lookup.
    pub fn players_found_on(&mut self, found: &Vec<u128>)
        requires
            old(self).wf(),
            old(self).spec_step() is PlayersOn,
        ensures
            final(self).wf(),
            final(self).ips_found() == old(self).ips_found(),
            final(self).ips_done() == old(self).ips_done() + 1,
            final(self).players_done() == old(self).players_done(),
            final(self).players_found().take(old(self).players_found().len() as int) == old(self).players_found(),
            forall|p: u128| found@.contains(p) ==> final(self).players_found().contains(p),
            forall|p: u128| final(self).players_found().contains(p) ==> old(self).players_found().contains(p) || found@.contains(p),
    {
        let ghost pre = self.players@;
        let mut k: usize = 0;
        while k < found.len()
            invariant
                self.players@.no_duplicates(),
                self.players@.take(pre.len() as int) == pre,
                pre.len() <= self.players@.len(),
                k <= found@.len(),
                forall|j: int| 0 <= j < k ==> self.players@.contains(found@[j]),
                forall|p: u128| self.players@.contains(p) ==> pre.contains(p) || found@.contains(p),
                self.next_player <= pre.len(),
                self.ips@ == old(self).ips@,
                self.next_player == old(self).next_player,
                self.next_ip == old(self).next_ip,
                self.next_ip < self.ips@.len(),
            decreases found@.len() - k,
        {
            let a = found[k];
            let mut seen = false;
            let mut j: usize = 0;
            while j < self.players.len()
                invariant
                    j <= self.players@.len(),
                    seen == exists|m: int| 0 <= m < j && self.players@[m] == a,
                decreases self.players@.len() - j,
            {
                if self.players[j] == a {
                    seen = true;
                }
                j = j + 1;
            }
            if !seen {
                let ghost before = self.players@;
                self.players.push(a);
                proof {
                    assert(self.players@.take(pre.len() as int) =~= before.take(pre.len() as int));
                    assert forall|x: u128| self.players@.contains(x) implies pre.contains(x) || found@.contains(x) by {
                        let m = choose|m: int| 0 <= m < self.players@.len() && self.players@[m] == x;
                        if m < before.len() {
                            assert(before.contains(x));
                        } else {
                            assert(found@[k as int] == x);
                        }
                    }
                    assert forall|j2: int| 0 <= j2 <= k implies self.players@.contains(found@[j2]) by {
                        if j2 < k {
                            assert(before.contains(found@[j2]));
                            let m = choose|m: int| 0 <= m < before.len() && before[m] == found@[j2];
                            assert(self.players@[m] == found@[j2]);
                        } else {
                            assert(self.players@[before.len() as int] == a);
                        }
                    }
                }
            }
            k = k + 1;
        }
        let n = self.ips.len();
        assert(self.next_ip < n);
        self.next_ip = self.next_ip + 1;
    }

    /// The players and addresses found, in the order found.
    pub fn into_found(self) -> (r: (Vec<u128>, Vec<IpAddress>))
        ensures
            r.0@ == self.players_found(),
            r.1@ == self.ips_found(),
    {
        (self.players, self.ips)
    }
}

/// Every lookup made so far was answered by `ips_of` and `players_on`, and
/// what it returned is among what was found.
pub open spec fn answered_by(
    w: BanWalk,
    ips_of: spec_fn(u128) -> Seq<IpAddress>,
    players_on: spec_fn(IpAddress) -> Seq<u128>,
) -> bool {
    &&& forall|k: int, a: IpAddress| 0 <= k < w.players_done() && ips_of(w.players_found()[k]).contains(a) ==> w.ips_found().contains(a)
    &&& forall|k: int, p: u128| 0 <= k < w.ips_done() && players_on(w.ips_found()[k]).contains(p) ==> w.players_found().contains(p)
}

/// A walk started from one player has made no lookup yet.
pub proof fn lemma_walk_starts_answered(
    w: BanWalk,
    ips_of: spec_fn(u128) -> Seq<IpAddress>,
    players_on: spec_fn(IpAddress) -> Seq<u128>,
)
    requires
        w.players_done() == 0,
        w.ips_done() == 0,
    ensures
        answered_by(w, ips_of, players_on),
{
}

/// Answering an `AddressesOf` lookup with `ips_of` keeps the walk answered.
pub proof fn lemma_addresses_step(
    before: BanWalk,
    after: BanWalk,
    found: Seq<IpAddress>,
    ips_of: spec_fn(u128) -> Seq<IpAddress>,
    players_on: spec_fn(IpAddress) -> Seq<u128>,
)
    requires
        before.wf(),
        answered_by(before, ips_of, players_on),
        before.spec_step() == WalkStep::AddressesOf(before.players_found()[before.players_done()]),
        found == ips_of(before.players_found()[before.players_done()]),
        after.players_found() == before.players_found(),
        after.players_done() == before.players_done() + 1,
        after.ips_done() == before.ips_done(),
        after.ips_found().take(before.ips_found().len() as int) == before.ips_found(),
        before.ips_found().len() <= after.ips_found().len(),
        forall|a: IpAddress| found.contains(a) ==> after.ips_found().contains(a),
    ensures
        answered_by(after, ips_of, players_on),
{
    let n = before.ips_found().len() as int;
    assert forall|a: IpAddress| before.ips_found().contains(a) implies after.ips_found().contains(a) by {
        let m = choose|m: int| 0 <= m < n && before.ips_found()[m] == a;
        assert(after.ips_found().take(n)[m] == a);
    }
    assert forall|k: int| 0 <= k < after.ips_done() implies after.ips_found()[k] == before.ips_found()[k] by {
        assert(after.ips_found().take(n)[k] == after.ips_found()[k]);
    }
}

/// Answering a `PlayersOn` lookup with `players_on` keeps the walk answered.
pub proof fn lemma_players_step(
    before: BanWalk,
    after: BanWalk,
    found: Seq<u128>,
    ips_of: spec_fn(u128) -> Seq<IpAddress>,
    players_on: spec_fn(IpAddress) -> Seq<u128>,
)
    requires
        before.wf(),
        answered_by(before, ips_of, players_on),
        before.spec_step() == WalkStep::PlayersOn(before.ips_found()[before.ips_done()]),
        found == players_on(before.ips_found()[before.ips_done()]),
        after.ips_found() == before.ips_found(),
        after.ips_done() == before.ips_done() + 1,
        after.players_done() == before.players_done(),
        after.players_found().take(before.players_found().len() as int) == before.players_found(),
        before.players_found().len() <= after.players_found().len(),
        forall|p: u128| found.contains(p) ==> after.players_found().contains(p),
    ensures
        answered_by(after, ips_of, players_on),
{
    let n = before.players_found().len() as int;
    assert forall|p: u128| before.players_found().contains(p) implies after.players_found().contains(p) by {
        let m = choose|m: int| 0 <= m < n && before.players_found()[m] == p;
        assert(after.players_found().take(n)[m] == p);
    }
    assert forall|k: int| 0 <= k < after.players_done() implies after.players_found()[k] == before.players_found()[k] by {
        assert(after.players_found().take(n)[k] == after.players_found()[k]);
    }
}

/// A walk that is done and was answered throughout holds a closed set: the
/// addresses of every player found, and the players of every address found,
/// are all found too; so one ban covers every linked player and address.
pub proof fn lemma_done_walk_is_closed(
    w: BanWalk,
    ips_of: spec_fn(u128) -> Seq<IpAddress>,
    players_on: spec_fn(IpAddress) -> Seq<u128>,
)
    requires
        w.wf(),
        answered_by(w, ips_of, players_on),
        w.spec_step() == WalkStep::Done,
    ensures
        forall|p: u128, a: IpAddress| w.players_found().contains(p) && ips_of(p).contains(a) ==> w.ips_found().contains(a),
        forall|a: IpAddress, p: u128| w.ips_found().contains(a) && players_on(a).contains(p) ==> w.players_found().contains(p),
{
    assert forall|p: u128, a: IpAddress| w.players_found().contains(p) && ips_of(p).contains(a) implies w.ips_found().contains(a) by {
        let k = choose|k: int| 0 <= k < w.players_found().len() && w.players_found()[k] == p;
        assert(0 <= k < w.players_done() && ips_of(w.players_found()[k]).contains(a));
    }
    assert forall|a: IpAddress, p: u128| w.ips_found().contains(a) && players_on(a).contains(p) implies w.players_found().contains(p) by {
        let k = choose|k: int| 0 <= k < w.ips_found().len() && w.ips_found()[k] == a;
        assert(0 <= k < w.ips_done() && players_on(w.ips_found()[k]).contains(p));
    }
}

/// The reason recorded for an IP ban: `IPBan : {reason}`, or `IPBan`.
pub open spec fn ip_ban_reason_text(reason: Option<String>) -> Seq<char> {
    match reason {
        Some(r) => "IPBan : "@ + r@,
        None => "IPBan"@,
    }
}

pub fn ip_ban_reason(reason: &Option<String>) -> (r: String)
    ensures
        r@ == ip_ban_reason_text(*reason),
{
    match reason {
        Some(x) => String::from_str("IPBan : ").concat(x.as_str()),
        None => String::from_str("IPBan"),
    }
}

/// The message shown to a player disconnected by a ban.
pub fn banned_notice() -> (r: String)
    ensures
        r@ == "Vous avez été bannis"@,
{
    String::from_str("Vous avez été bannis")
}

} // verus!
