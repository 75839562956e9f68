//! Player records as stored, and what a proxy or a server is told of a
//! player when it logs in.

use vstd::prelude::*;
use crate::permissions::{Group, texts, max_power, resolved, resolve_permissions};
use crate::props::Properties;

verus! {

/// A mute as shown to servers.
#[derive(Debug)]
pub struct Mute {
    pub id: u128,
    pub start: String,
    pub end: Option<String>,
    pub issuer: Option<u128>,
    pub reason: Option<String>,
    pub target: Option<u128>,
    pub remaining: Option<i64>,
}

/// What a proxy login reads of a player.
#[derive(Debug)]
pub struct DbProxyPlayerInfo {
    pub locale: Option<String>,
    pub groups: Option<Vec<String>>,
    pub permissions: Option<Vec<String>>,
    pub properties: Option<Properties>,
    pub session: Option<u128>,
    pub ban: Option<u128>,
    pub ban_reason: Option<String>,
    pub ban_ttl: Option<i32>,
}

/// What a server login reads of a player.
#[derive(Debug)]
pub struct DbServerPlayerInfo {
    pub prefix: Option<String>,
    pub suffix: Option<String>,
    pub proxy: u128,
    pub session: u128,
    pub discord_id: Option<String>,
    pub locale: Option<String>,
    pub groups: Option<Vec<String>>,
    pub permissions: Option<Vec<String>>,
    pub currency: i32,
    pub premium_currency: i32,
    pub mute: Option<u128>,
    pub blocked: Option<Vec<u128>>,
    pub inventory: Option<Vec<(String, i32)>>,
    pub properties: Option<Properties>,
}

/// What a proxy is told of a player it admits.
#[derive(Debug)]
pub struct ProxyLoginPlayerInfo {
    pub power: i32,
    pub permissions: Vec<String>,
    pub locale: String,
    pub properties: Properties,
}

/// What a server is told of a player that joins it.
#[derive(Debug)]
pub struct ServerLoginPlayerInfo {
    pub session: u128,
    pub proxy: u128,
    pub prefix: Option<String>,
    pub suffix: Option<String>,
    pub locale: String,
    pub permissions: Vec<String>,
    pub power: i32,
    pub currency: i32,
    pub premium_currency: i32,
    pub blocked: Vec<u128>,
    pub inventory: Vec<(String, i32)>,
    pub properties: Properties,
    pub mute: Option<Mute>,
    pub discord_id: Option<String>,
}

/// The groups a player belongs to: those stored, or `Default` when none are.
pub open spec fn member_of(groups: Option<Vec<String>>) -> Seq<Seq<char>> {
    match groups {
        Some(g) => texts(g@),
        None => seq!["Default"@],
    }
}

/// The locale of a player: the one stored, or `fr`.
pub open spec fn locale_of(l: Option<String>) -> Seq<char> {
    match l {
        Some(l) => l@,
        None => "fr"@,
    }
}

/// The player's groups: those stored, or `Default` when none are.
pub fn member_groups(groups: &Option<Vec<String>>) -> (r: Vec<String>)
    ensures
        texts(r@) == member_of(*groups),
{
    match groups {
        Some(g) => {
            let mut out: Vec<String> = Vec::new();
            let mut i: usize = 0;
            while i < g.len()
                invariant
                    i <= g@.len(),
                    out@.len() == i,
                    forall|j: int| 0 <= j < i ==> out@[j]@ == g@[j]@,
                decreases g@.len() - i,
            {
                out.push(g[i].clone());
                i = i + 1;
            }
            assert(texts(out@) =~= texts(g@));
            out
        },
        None => {
            let mut out: Vec<String> = Vec::new();
            out.push(String::from_str("Default"));
            assert(texts(out@) =~= seq!["Default"@]);
            out
        },
    }
}

fn locale_or_default(l: Option<String>) -> (r: String)
    ensures
        r@ == locale_of(l),
{
    match l {
        Some(l) => l,
        None => String::from_str("fr"),
    }
}

/// The last group with a prefix among those of highest power that have one.
pub open spec fn prefix_group(gs: Seq<Group>) -> Option<Group>
    decreases gs.len(),
{
    if gs.len() == 0 {
        None
    } else {
        let rest = prefix_group(gs.drop_last());
        if gs.last().prefix is Some && (rest is None || gs.last().power >= rest.unwrap().power) {
            Some(gs.last())
        } else {
            rest
        }
    }
}

/// The last group with a suffix among those of highest power that have one.
pub open spec fn suffix_group(gs: Seq<Group>) -> Option<Group>
    decreases gs.len(),
{
    if gs.len() == 0 {
        None
    } else {
        let rest = suffix_group(gs.drop_last());
        if gs.last().suffix is Some && (rest is None || gs.last().power >= rest.unwrap().power) {
            Some(gs.last())
        } else {
            rest
        }
    }
}

pub open spec fn opt_text(s: Option<String>) -> Option<Seq<char>> {
    match s {
        Some(s) => Some(s@),
        None => None,
    }
}

/// The prefix shown for a player: its own, else that of its group of highest
/// power that has one.
pub open spec fn shown_prefix(own: Option<String>, gs: Seq<Group>) -> Option<Seq<char>> {
    match own {
        Some(p) => Some(p@),
        None => match prefix_group(gs) {
            Some(g) => opt_text(g.prefix),
            None => None,
        },
    }
}

/// The suffix shown for a player: its own, else that of its group of highest
/// power that has one.
pub open spec fn shown_suffix(own: Option<String>, gs: Seq<Group>) -> Option<Seq<char>> {
    match own {
        Some(p) => Some(p@),
        None => match suffix_group(gs) {
            Some(g) => opt_text(g.suffix),
            None => None,
        },
    }
}

fn pick_prefix(own: Option<String>, gs: &Vec<Group>) -> (r: Option<String>)
    ensures
        opt_text(r) == shown_prefix(own, gs@),
{
    if own.is_some() {
        return own;
    }
    let mut best: Option<usize> = None;
    let mut i: usize = 0;
    while i < gs.len()
        invariant
            i <= gs@.len(),
            match best {
                Some(b) => b < i && prefix_group(gs@.take(i as int)) == Some(gs@[b as int]),
                None => prefix_group(gs@.take(i as int)) is None,
            },
        decreases gs@.len() - i,
    {
        assert(gs@.take(i + 1).drop_last() =~= gs@.take(i as int));
        if gs[i].prefix.is_some() {
            match best {
                None => best = Some(i),
                Some(b) => if gs[i].power >= gs[b].power {
                    best = Some(i);
                },
            }
        }
        i = i + 1;
    }
    assert(gs@.take(gs@.len() as int) =~= gs@);
    match best {
        Some(b) => gs[b].prefix.clone(),
        None => None,
    }
}

fn pick_suffix(own: Option<String>, gs: &Vec<Group>) -> (r: Option<String>)
    ensures
        opt_text(r) == shown_suffix(own, gs@),
{
    if own.is_some() {
        return own;
    }
    let mut best: Option<usize> = None;
    let mut i: usize = 0;
    while i < gs.len()
        invariant
            i <= gs@.len(),
            match best {
                Some(b) => b < i && suffix_group(gs@.take(i as int)) == Some(gs@[b as int]),
                None => suffix_group(gs@.take(i as int)) is None,
            },
        decreases gs@.len() - i,
    {
        assert(gs@.take(i + 1).drop_last() =~= gs@.take(i as int));
        if gs[i].suffix.is_some() {
            match best {
                None => best = Some(i),
                Some(b) => if gs[i].power >= gs[b].power {
                    best = Some(i);
                },
            }
        }
        i = i + 1;
    }
    assert(gs@.take(gs@.len() as int) =~= gs@);
    match best {
        Some(b) => gs[b].suffix.clone(),
        None => None,
    }
}

impl DbProxyPlayerInfo {
    /// What a proxy is told of this player: power and permissions resolved
    /// from `groups` (the player's groups, loaded) and the proxy kind's
    /// `overrides`; locale `fr` when none is stored; its properties.
    pub fn build_proxy_login_player_info(self, groups: &Vec<Group>, overrides: &Option<Vec<(String, Vec<String>)>>) -> (r: ProxyLoginPlayerInfo)
        ensures
            r.power as int == max_power(groups@),
            texts(r.permissions@) == resolved(groups@, member_of(self.groups), self.permissions, *overrides, true),
            r.locale@ == locale_of(self.locale),
            r.properties@ == match self.properties {
                Some(p) => p@,
                None => Seq::empty(),
            },
    {
        let member = member_groups(&self.groups);
        let (power, permissions) = resolve_permissions(groups, &member, &self.permissions, overrides, true);
        ProxyLoginPlayerInfo {
            power,
            permissions,
            locale: locale_or_default(self.locale),
            properties: match self.properties {
                Some(p) => p,
                None => Vec::new(),
            },
        }
    }
}

impl DbServerPlayerInfo {
    /// What a server of kind `kind` is told of this player: power and
    /// permissions with the kind's `overrides`, scoped as for a proxy only on
    /// the proxy kind; prefix and suffix; its stored values with empty
    /// defaults; and its mute, loaded.
    pub fn build_server_login_player_info(
        self,
        kind: &String,
        groups: &Vec<Group>,
        overrides: &Option<Vec<(String, Vec<String>)>>,
        mute: Option<Mute>,
    ) -> (r: ServerLoginPlayerInfo)
        ensures
            r.power as int == max_power(groups@),
            texts(r.permissions@) == resolved(groups@, member_of(self.groups), self.permissions, *overrides, kind@ == "proxy"@),
            opt_text(r.prefix) == shown_prefix(self.prefix, groups@),
            opt_text(r.suffix) == shown_suffix(self.suffix, groups@),
            r.locale@ == locale_of(self.locale),
            r.session == self.session,
            r.proxy == self.proxy,
            r.currency == self.currency,
            r.premium_currency == self.premium_currency,
            r.blocked@ == match self.blocked {
                Some(b) => b@,
                None => Seq::empty(),
            },
            r.mute == mute,
            r.inventory@ == match self.inventory {
                Some(i) => i@,
                None => Seq::empty(),
            },
            r.properties@ == match self.properties {
                Some(p) => p@,
                None => Seq::empty(),
            },
            r.discord_id == self.discord_id,
    {
        let member = member_groups(&self.groups);
        let proxy = crate::text::same_text(kind.as_str(), "proxy");
        let (power, permissions) = resolve_permissions(groups, &member, &self.permissions, overrides, proxy);
        let prefix = pick_prefix(self.prefix, groups);
        let suffix = pick_suffix(self.suffix, groups);
        ServerLoginPlayerInfo {
            session: self.session,
            proxy: self.proxy,
            prefix,
            suffix,
            locale: locale_or_default(self.locale),
            permissions,
            power,
            currency: self.currency,
            premium_currency: self.premium_currency,
            blocked: match self.blocked {
                Some(b) => b,
                None => Vec::new(),
            },
            inventory: match self.inventory {
                Some(i) => i,
                None => Vec::new(),
            },
            properties: match self.properties {
                Some(p) => p,
                None => Vec::new(),
            },
            mute,
            discord_id: self.discord_id,
        }
    }
}

/// A ban as shown.
#[derive(Debug)]
pub struct Ban {
    pub id: u128,
    pub start: String,
    pub end: Option<String>,
    pub issuer: Option<u128>,
    pub reason: Option<String>,
    pub ip: Option<crate::ident::IpAddress>,
    pub target: Option<u128>,
}

/// What is read of a player to show it.
#[derive(Debug)]
pub struct DbPlayerInfo {
    pub uuid: u128,
    pub username: String,
    pub groups: Option<Vec<String>>,
    pub locale: Option<String>,
    pub prefix: Option<String>,
    pub suffix: Option<String>,
    pub currency: i32,
    pub premium_currency: i32,
    pub proxy: Option<u128>,
    pub server: Option<u128>,
    pub blocked: Option<Vec<u128>>,
    pub inventory: Option<Vec<(String, i32)>>,
    pub properties: Option<Properties>,
    pub ban: Option<u128>,
    pub discord_id: Option<String>,
    pub mute: Option<u128>,
}

/// A player as shown.
#[derive(Debug)]
pub struct PlayerInfo {
    pub uuid: u128,
    pub username: String,
    pub power: i32,
    pub locale: String,
    pub prefix: Option<String>,
    pub suffix: Option<String>,
    pub currency: i32,
    pub premium_currency: i32,
    pub proxy: Option<u128>,
    pub server: Option<u128>,
    pub blocked: Vec<u128>,
    pub inventory: Vec<(String, i32)>,
    pub properties: Properties,
    pub ban: Option<Ban>,
    pub discord_id: Option<String>,
    pub mute: Option<Mute>,
}

impl DbPlayerInfo {
    /// The player as shown: the power of its groups (loaded), locale `fr`
    /// when none is stored, empty defaults, and its ban and mute (loaded).
    pub fn build_player_info(self, groups: &Vec<Group>, ban: Option<Ban>, mute: Option<Mute>) -> (r: PlayerInfo)
        ensures
            r.power as int == max_power(groups@),
            r.locale@ == locale_of(self.locale),
            r.uuid == self.uuid,
            r.username == self.username,
            r.prefix == self.prefix,
            r.suffix == self.suffix,
            r.currency == self.currency,
            r.premium_currency == self.premium_currency,
            r.proxy == self.proxy,
            r.server == self.server,
            r.blocked@ == match self.blocked {
                Some(b) => b@,
                None => Seq::empty(),
            },
            r.inventory@ == match self.inventory {
                Some(i) => i@,
                None => Seq::empty(),
            },
            r.properties@ == match self.properties {
                Some(p) => p@,
                None => Seq::empty(),
            },
            r.ban == ban,
            r.mute == mute,
            r.discord_id == self.discord_id,
    {
        let power = crate::permissions::groups_power(groups);
        PlayerInfo {
            uuid: self.uuid,
            username: self.username,
            power,
            locale: locale_or_default(self.locale),
            prefix: self.prefix,
            suffix: self.suffix,
            currency: self.currency,
            premium_currency: self.premium_currency,
            proxy: self.proxy,
            server: self.server,
            blocked: match self.blocked {
                Some(b) => b,
                None => Vec::new(),
            },
            inventory: match self.inventory {
                Some(i) => i,
                None => Vec::new(),
            },
            properties: match self.properties {
                Some(p) => p,
                None => Vec::new(),
            },
            ban,
            discord_id: self.discord_id,
            mute,
        }
    }
}

} // verus!
