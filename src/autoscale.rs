//! Servers, kinds and autoscale policies, and the autoscaler's decisions:
//! when an idle server goes away, how many players a server takes, who is
//! drained to a server that is ready, and where a move to a kind lands.

use vstd::prelude::*;
use crate::events::ServerEvent;
use crate::ident::{IpAddress, random_five_digits};
use crate::props::{Properties, opt_prop, prop, get_opt_prop, set_prop};
use crate::text::{integer_of, decimal_text, parse_i64, i64_text};

verus! {

/// The state a server reports for itself.
#[derive(Clone, Copy, Debug, PartialEq, Eq, Structural)]
pub enum ServerState {
    Starting,
    Waiting,
    Idle,
    Playing,
    Started,
}

/// A server that can take players: `Waiting` or `Idle`.
pub open spec fn accepts_players(s: ServerState) -> bool {
    s == ServerState::Waiting || s == ServerState::Idle
}

/// A registered server.
#[derive(Debug)]
pub struct Server {
    pub id: u128,
    pub description: String,
    pub ip: IpAddress,
    pub key: Option<u128>,
    pub kind: String,
    pub label: String,
    pub properties: Option<Properties>,
    pub state: ServerState,
}

/// The scaling policy of a kind: players per server, what a new server gets,
/// and how many servers that accept players are kept when one goes idle.
#[derive(Debug)]
pub enum Autoscale {
    Simple { slots: i64, properties: Properties, env: Properties, min: i32 },
}

pub open spec fn policy_slots(a: Autoscale) -> int {
    match a {
        Autoscale::Simple { slots, .. } => slots as int,
    }
}

pub open spec fn policy_min(a: Autoscale) -> int {
    match a {
        Autoscale::Simple { min, .. } => min as int,
    }
}

/// A class of servers: image, per-group permissions, and the scaling policy
/// and startup settings as stored (JSON text).
#[derive(Debug)]
pub struct ServerKind {
    pub name: String,
    pub image: String,
    pub permissions: Option<Vec<(String, Vec<String>)>>,
    pub autoscale: Option<String>,
    pub startup: Option<String>,
}

/// The errors of the autoscaler's own decisions.
#[derive(Debug, Clone, Copy, PartialEq, Eq, Structural)]
pub enum ScalingError {
    /// A `slots` property that is not an integer.
    ParseInt,
}

/// A server that carries `canidle=false` is never kept idle.
pub open spec fn cannot_idle(s: Server) -> bool {
    opt_prop(s.properties, "canidle"@) == Some("false"@)
}

/// `p` is another server of the same kind as `s` that accepts players.
pub open spec fn is_peer(p: Server, s: Server) -> bool {
    p.id != s.id && p.kind@ == s.kind@ && accepts_players(p.state)
}

/// How many servers of `peers` are peers of `s`.
pub open spec fn peer_count(peers: Seq<Server>, s: Server) -> nat
    decreases peers.len(),
{
    if peers.len() == 0 {
        0
    } else {
        peer_count(peers.drop_last(), s) + if is_peer(peers.last(), s) { 1nat } else { 0nat }
    }
}

/// Whether a server that went idle is deleted: it cannot idle; or its kind
/// scales and keeps no headroom, or already has `min` peers without it.
pub open spec fn deletes_idle(s: Server, policy: Option<Autoscale>, peers: Seq<Server>) -> bool {
    cannot_idle(s) || match policy {
        None => false,
        Some(a) => policy_min(a) == 0 || peer_count(peers, s) >= policy_min(a),
    }
}

/// Decides whether a server that reported `Idle` is deleted. `peers` are the
/// servers registered when it did; others than its kind are not counted.
pub fn should_delete_idle(server: &Server, policy: &Option<Autoscale>, peers: &Vec<Server>) -> (r: bool)
    ensures
        r == deletes_idle(*server, *policy, peers@),
{
    if crate::props::prop_is(&server.properties, "canidle", "false") {
        proof {
            reveal_strlit("canidle");
        }
        return true;
    }
    let min: i32 = match policy {
        None => return false,
        Some(Autoscale::Simple { min, .. }) => *min,
    };
    if min == 0 {
        return true;
    }
    let mut count: usize = 0;
    let mut i: usize = 0;
    while i < peers.len()
        invariant
            i <= peers@.len(),
            count == peer_count(peers@.take(i as int), *server),
            count <= i,
        decreases peers@.len() - i,
    {
        assert(peers@.take(i + 1).drop_last() =~= peers@.take(i as int));
        let p = &peers[i];
        if p.id != server.id && p.kind == server.kind
            && (p.state == ServerState::Waiting || p.state == ServerState::Idle) {
            count = count + 1;
        }
        i = i + 1;
    }
    assert(peers@.take(peers@.len() as int) =~= peers@);
    (count as i128) >= (min as i128)
}

/// With a policy that keeps `min > 0` servers, a server that can idle is
/// deleted when going idle exactly when `min` peers (servers of its kind
/// that accept players, itself excluded) remain; else it is kept as headroom.
pub proof fn lemma_idle_headroom(s: Server, policy: Autoscale, peers: Seq<Server>)
    requires
        policy_min(policy) > 0,
        !cannot_idle(s),
    ensures
        deletes_idle(s, Some(policy), peers) <==> peer_count(peers, s) >= policy_min(policy),
{
}

/// How many players a server takes: its `slots` property, else its kind's
/// policy, else 100; `None` when the property is not an integer.
pub open spec fn slots_of(props: Option<Properties>, policy: Option<Autoscale>) -> Option<int> {
    match opt_prop(props, "slots"@) {
        Some(t) => integer_of(t),
        None => match policy {
            Some(a) => Some(policy_slots(a)),
            None => Some(100),
        },
    }
}

/// How many players a server takes.
pub fn effective_slots(props: &Option<Properties>, policy: &Option<Autoscale>) -> (r: Result<i64, ScalingError>)
    ensures
        match r {
            Ok(v) => slots_of(*props, *policy) == Some(v as int),
            Err(_) => slots_of(*props, *policy) is None,
        },
{
    proof {
        reveal_strlit("slots");
    }
    match get_opt_prop(props, "slots") {
        Some(t) => match parse_i64(t.as_str()) {
            Some(v) => Ok(v),
            None => Err(ScalingError::ParseInt),
        },
        None => match policy {
            Some(Autoscale::Simple { slots, .. }) => Ok(*slots),
            None => Ok(100),
        },
    }
}

/// A player as listed among those online or queued for a kind.
#[derive(Debug)]
pub struct ReducedPlayerInfo {
    pub uuid: u128,
    pub username: String,
    pub session: u128,
    pub proxy: u128,
    pub server: Option<u128>,
}

/// The event that sends player `p` to `server` through its proxy.
pub open spec fn move_event(p: ReducedPlayerInfo, server: u128) -> ServerEvent {
    ServerEvent::MovePlayer { proxy: p.proxy, server, player: p.uuid }
}

/// What follows a server's report that it is `Waiting`.
pub struct WaitingPlan {
    /// A new server of the kind is requested.
    pub provision: bool,
    /// The moves sent, in queue order.
    pub moves: Vec<ServerEvent>,
}

/// Decides what a server that is now `Waiting` does with the players queued
/// for its kind (listed with a limit of `slots + 1`): when they are more than
/// its slots and the kind scales, a new server is requested. The first
/// players, as many as its slots take, are moved here.
pub fn plan_waiting(server: u128, slots: i64, queued: &Vec<ReducedPlayerInfo>, scales: bool) -> (r: WaitingPlan)
    ensures
        r.provision == (scales && queued@.len() > slots),
        r.moves@.len() == if slots < 0 {
            0
        } else if queued@.len() < slots {
            queued@.len() as int
        } else {
            slots as int
        },
        forall|i: int| 0 <= i < r.moves@.len() ==> r.moves@[i] == move_event(queued@[i], server),
{
    let provision = scales && (queued.len() as i128) > (slots as i128);
    let n: usize = if slots < 0 {
        0
    } else if (queued.len() as i128) < (slots as i128) {
        queued.len()
    } else {
        slots as usize
    };
    let mut moves: Vec<ServerEvent> = Vec::new();
    let mut i: usize = 0;
    while i < n
        invariant
            n <= queued@.len(),
            i <= n,
            moves@.len() == i,
            forall|j: int| 0 <= j < i ==> moves@[j] == move_event(queued@[j], server),
        decreases n - i,
    {
        let p = &queued[i];
        moves.push(ServerEvent::MovePlayer { proxy: p.proxy, server, player: p.uuid });
        i = i + 1;
    }
    WaitingPlan { provision, moves }
}

/// A server that a move to its kind may pick: it accepts players and is not
/// hosted by a player.
pub open spec fn is_candidate(s: Server) -> bool {
    accepts_players(s.state) && opt_prop(s.properties, "host"@) is None
}

/// The first candidate from position `i` on with fewer players than slots;
/// an error where a candidate's slots cannot be read before one is found.
pub open spec fn pick_from(servers: Seq<Server>, counts: Seq<i64>, policy: Option<Autoscale>, i: int) -> Result<Option<int>, ()>
    decreases servers.len() - i,
{
    if i < 0 || i >= servers.len() {
        Ok(None)
    } else if !is_candidate(servers[i]) {
        pick_from(servers, counts, policy, i + 1)
    } else {
        match slots_of(servers[i].properties, policy) {
            None => Err(()),
            Some(v) => if (counts[i] as int) < v {
                Ok(Some(i))
            } else {
                pick_from(servers, counts, policy, i + 1)
            },
        }
    }
}

/// Picks the server that a player moved to a kind goes to: the first of
/// `servers` (those of the kind, in order) that is a candidate and has room,
/// `counts[i]` being the players on `servers[i]`.
pub fn choose_server(servers: &Vec<Server>, counts: &Vec<i64>, policy: &Option<Autoscale>) -> (r: Result<Option<usize>, ScalingError>)
    requires
        counts@.len() == servers@.len(),
    ensures
        match r {
            Ok(Some(i)) => pick_from(servers@, counts@, *policy, 0) == Ok::<Option<int>, ()>(Some(i as int)),
            Ok(None) => pick_from(servers@, counts@, *policy, 0) == Ok::<Option<int>, ()>(None),
            Err(_) => pick_from(servers@, counts@, *policy, 0) is Err,
        },
{
    proof {
        reveal_strlit("host");
    }
    let mut i: usize = 0;
    while i < servers.len()
        invariant
            counts@.len() == servers@.len(),
            i <= servers@.len(),
            pick_from(servers@, counts@, *policy, 0) == pick_from(servers@, counts@, *policy, i as int),
        decreases servers@.len() - i,
    {
        let s = &servers[i];
        let open = s.state == ServerState::Waiting || s.state == ServerState::Idle;
        let hosted = get_opt_prop(&s.properties, "host").is_some();
        if open && !hosted {
            match effective_slots(&s.properties, policy) {
                Err(e) => return Err(e),
                Ok(slots) => {
                    if counts[i] < slots {
                        return Ok(Some(i));
                    }
                },
            }
        }
        i = i + 1;
    }
    Ok(None)
}

/// Where a move to a kind goes.
#[derive(Debug, Clone, Copy, PartialEq, Eq, Structural)]
pub enum KindMove {
    /// To the server at this position.
    Commit(usize),
    /// A server of the kind is already on its way: the player waits for it.
    JoinWaiting,
    /// A new server is requested and the player waits for it.
    ProvisionAndWait,
    /// No server can take the player.
    Failed,
}

/// Decides a move to a kind: to the server picked if any; else, for a kind
/// that scales, the player waits, and a server is requested unless some player
/// already waits for the kind; else the move fails.
pub fn plan_kind_move(chosen: Option<usize>, scales: bool, someone_waiting: bool) -> (r: KindMove)
    ensures
        r == match chosen {
            Some(i) => KindMove::Commit(i),
            None => if !scales {
                KindMove::Failed
            } else if someone_waiting {
                KindMove::JoinWaiting
            } else {
                KindMove::ProvisionAndWait
            },
        },
{
    match chosen {
        Some(i) => KindMove::Commit(i),
        None => if !scales {
            KindMove::Failed
        } else if someone_waiting {
            KindMove::JoinWaiting
        } else {
            KindMove::ProvisionAndWait
        },
    }
}

/// The name of a pod: `prefix`, a dash, and the number.
pub fn numbered_name(prefix: &str, n: u32) -> (r: String)
    ensures
        r@ == prefix@ + "-"@ + decimal_text(n as int),
{
    let digits = i64_text(n as i64);
    String::from_str(prefix).concat("-").concat(digits.as_str())
}

/// The name of a pod that the autoscaler creates for a kind:
/// `{kind}-{five random digits}`.
pub fn autoscale_pod_name(kind: &str) -> (r: String)
    ensures
        exists|n: int| 10000 <= n < 99999 && r@ == kind@ + "-"@ + decimal_text(n),
{
    let n = random_five_digits();
    numbered_name(kind, n)
}

/// The name of a pod created on request: `{kind}-{name}-{five random digits}`.
pub fn generate_server_name(kind: &str, name: &str) -> (r: String)
    ensures
        exists|n: int| 10000 <= n < 99999 && r@ == kind@ + "-"@ + name@ + "-"@ + decimal_text(n),
{
    let prefix = String::from_str(kind).concat("-").concat(name);
    let n = random_five_digits();
    numbered_name(prefix.as_str(), n)
}

/// A copy of a property list.
pub fn copy_props(ps: &Properties) -> (r: Properties)
    ensures
        r@ == ps@,
{
    let mut out: Properties = Vec::new();
    let mut i: usize = 0;
    while i < ps.len()
        invariant
            i <= ps@.len(),
            out@ == ps@.take(i as int),
        decreases ps@.len() - i,
    {
        let k = ps[i].0.clone();
        let v = ps[i].1.clone();
        out.push((k, v));
        assert(ps@.take(i + 1) =~= ps@.take(i as int).push(ps@[i as int]));
        i = i + 1;
    }
    assert(ps@.take(ps@.len() as int) =~= ps@);
    out
}

/// The properties of a server that the autoscaler creates: the policy's, with
/// `autoscale` set to `true`.
pub fn autoscale_properties(policy: &Autoscale) -> (r: Properties)
    ensures
        prop(r@, "autoscale"@) == Some("true"@),
        forall|q: Seq<char>| q != "autoscale"@ ==> prop(r@, q) == match *policy {
            Autoscale::Simple { properties, .. } => prop(properties@, q),
        },
{
    let mut ps = match policy {
        Autoscale::Simple { properties, .. } => copy_props(properties),
    };
    set_prop(&mut ps, String::from_str("autoscale"), String::from_str("true"));
    ps
}

} // verus!
