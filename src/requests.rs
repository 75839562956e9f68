//! The decisions behind the API's endpoints: who may call them, and what
//! moving players and managing servers does.

use vstd::prelude::*;
use crate::autoscale::ServerState;
use crate::events::ServerEvent;
use crate::permissions::texts;
use crate::props::{Properties, prop, opt_prop, set_prop, prop_is};
use crate::text::{is_prefix, starts_with, skip_chars, same_text, integer_of, parse_i64};
use crate::autoscale::copy_props;

verus! {

/// A group of API keys and the routes it may call.
#[derive(Debug)]
pub struct ApiGroup {
    pub name: String,
    pub permissions: Option<Vec<String>>,
}

/// Who a request says it comes from, by its `Authorization` header.
#[derive(Debug)]
pub enum Credential {
    /// `Server {key}`: a game server, by the key it got when it registered.
    Server(String),
    /// `Proxy {key}`: a proxy, by the key it got when it registered.
    Proxy(String),
    /// An API key.
    Key(String),
}

/// Reads an `Authorization` header.
pub fn credential_of(header: &str) -> (r: Credential)
    ensures
        is_prefix("Server "@, header@) ==> r is Server && r->Server_0@ == header@.skip(7),
        !is_prefix("Server "@, header@) && is_prefix("Proxy "@, header@) ==> r is Proxy && r->Proxy_0@ == header@.skip(6),
        !is_prefix("Server "@, header@) && !is_prefix("Proxy "@, header@) ==> r is Key && r->Key_0@ == header@,
{
    proof {
        reveal_strlit("Server ");
        reveal_strlit("Proxy ");
    }
    if starts_with(header, "Server ") {
        Credential::Server(skip_chars(header, 7))
    } else if starts_with(header, "Proxy ") {
        Credential::Proxy(skip_chars(header, 6))
    } else {
        Credential::Key(header.to_owned())
    }
}

/// Whether the group lists the permission.
pub open spec fn group_allows(group: Option<ApiGroup>, permission: Seq<char>) -> bool {
    match group {
        Some(g) => match g.permissions {
            Some(ps) => texts(ps@).contains(permission),
            None => false,
        },
        None => false,
    }
}

/// Whether the group lists the permission.
pub fn allows(group: &Option<ApiGroup>, permission: &String) -> (r: bool)
    ensures
        r == group_allows(*group, permission@),
{
    match group {
        Some(g) => match &g.permissions {
            Some(ps) => crate::permissions::holds_name(ps, permission),
            None => false,
        },
        None => false,
    }
}

/// Whether a server or proxy key may call a route: its group (`server` or
/// `proxy`) lists the permission, and the key belongs to a registered server
/// of the right side, `kind` being the kind of the key's server.
pub fn server_key_allowed(group: &Option<ApiGroup>, permission: &String, kind: &Option<String>, proxy: bool) -> (r: bool)
    ensures
        r == (group_allows(*group, permission@) && match *kind {
            Some(k) => (k@ == "proxy"@) == proxy,
            None => false,
        }),
{
    if !allows(group, permission) {
        return false;
    }
    match kind {
        Some(k) => same_text(k.as_str(), "proxy") == proxy,
        None => false,
    }
}

/// Whether an API key may call a route. `key_group` is the key's record:
/// none for an unknown key, `Some(None)` for an unrestricted key, else its
/// group's name; `group` is that group, loaded.
pub fn api_key_allowed(key_group: &Option<Option<String>>, group: &Option<ApiGroup>, permission: &String) -> (r: bool)
    ensures
        r == match *key_group {
            None => false,
            Some(None) => true,
            Some(Some(_)) => group_allows(*group, permission@),
        },
{
    match key_group {
        None => false,
        Some(None) => true,
        Some(Some(_)) => allows(group, permission),
    }
}

/// A request to create a server of a kind.
#[derive(Debug)]
pub struct CreateServer {
    pub kind: String,
    pub name: String,
    pub properties: Option<Properties>,
}

/// What a kind gives the servers created on request.
#[derive(Debug)]
pub struct ServerStartup {
    pub properties: Properties,
    pub env: Properties,
}

/// The value of key `q` in the last entry that has it.
pub open spec fn last_value(ps: Seq<(String, String)>, q: Seq<char>) -> Option<Seq<char>>
    decreases ps.len(),
{
    if ps.len() == 0 {
        None
    } else if ps.last().0@ == q {
        Some(ps.last().1@)
    } else {
        last_value(ps.drop_last(), q)
    }
}

/// The properties of a server created on request: the kind's startup
/// properties, each overridden by the request's.
pub fn startup_properties(startup: &ServerStartup, request: &Option<Properties>) -> (r: Properties)
    ensures
        forall|q: Seq<char>| prop(r@, q) == match request {
            Some(req) => match last_value(req@, q) {
                Some(v) => Some(v),
                None => prop(startup.properties@, q),
            },
            None => prop(startup.properties@, q),
        },
{
    let mut out = copy_props(&startup.properties);
    match request {
        None => {},
        Some(req) => {
            let mut i: usize = 0;
            while i < req.len()
                invariant
                    i <= req@.len(),
                    forall|q: Seq<char>| prop(out@, q) == match last_value(req@.take(i as int), q) {
                        Some(v) => Some(v),
                        None => prop(startup.properties@, q),
                    },
                decreases req@.len() - i,
            {
                assert(req@.take(i + 1).drop_last() =~= req@.take(i as int));
                let k = req[i].0.clone();
                let v = req[i].1.clone();
                set_prop(&mut out, k, v);
                i = i + 1;
            }
            assert(req@.take(req@.len() as int) =~= req@);
        },
    }
    out
}

/// Whether a server is protected from deletion: `protected=true`.
pub fn is_protected(props: &Option<Properties>) -> (r: bool)
    ensures
        r == (opt_prop(*props, "protected"@) == Some("true"@)),
{
    prop_is(props, "protected", "true")
}

/// Reads a server state as sent by a server.
pub fn parse_state(s: &str) -> (r: Option<ServerState>)
    ensures
        s@ == "Starting"@ ==> r == Some(ServerState::Starting),
        s@ == "Waiting"@ ==> r == Some(ServerState::Waiting),
        s@ == "Idle"@ ==> r == Some(ServerState::Idle),
        s@ == "Playing"@ ==> r == Some(ServerState::Playing),
        s@ == "Started"@ ==> r == Some(ServerState::Started),
        r is None <==> !(s@ == "Starting"@ || s@ == "Waiting"@ || s@ == "Idle"@ || s@ == "Playing"@ || s@ == "Started"@),
{
    proof {
        reveal_strlit("Starting");
        reveal_strlit("Waiting");
        reveal_strlit("Idle");
        reveal_strlit("Playing");
        reveal_strlit("Started");
        assert("Starting"@.len() == 8 && "Waiting"@.len() == 7 && "Idle"@.len() == 4 && "Playing"@.len() == 7 && "Started"@.len() == 7);
        assert("Waiting"@[0] == 'W' && "Playing"@[0] == 'P' && "Started"@[0] == 'S');
        assert("Starting"@ != "Waiting"@ && "Starting"@ != "Idle"@ && "Starting"@ != "Playing"@ && "Starting"@ != "Started"@);
        assert("Waiting"@ != "Idle"@ && "Waiting"@ != "Playing"@ && "Waiting"@ != "Started"@);
        assert("Idle"@ != "Playing"@ && "Idle"@ != "Started"@ && "Playing"@ != "Started"@);
    }
    if same_text(s, "Starting") {
        Some(ServerState::Starting)
    } else if same_text(s, "Waiting") {
        Some(ServerState::Waiting)
    } else if same_text(s, "Idle") {
        Some(ServerState::Idle)
    } else if same_text(s, "Playing") {
        Some(ServerState::Playing)
    } else if same_text(s, "Started") {
        Some(ServerState::Started)
    } else {
        None
    }
}

/// The answer to a move request.
#[derive(Debug, Clone, Copy, PartialEq, Eq, Structural)]
pub enum PlayerMoveResponse {
    Done,
    Failed,
    PlayerOffline,
    MissingServer,
    MissingServerKind,
    UnlinkedPlayer,
}

/// The checks before a move: the player is online (`proxy` is its proxy) and
/// has linked a discord account. Gives the proxy, or the refusal.
pub fn move_precheck(proxy: Option<u128>, discord: &Option<String>) -> (r: Result<u128, PlayerMoveResponse>)
    ensures
        proxy is None ==> r == Err::<u128, PlayerMoveResponse>(PlayerMoveResponse::PlayerOffline),
        proxy is Some && discord is None ==> r == Err::<u128, PlayerMoveResponse>(PlayerMoveResponse::UnlinkedPlayer),
        proxy is Some && discord is Some ==> r == Ok::<u128, PlayerMoveResponse>(proxy.unwrap()),
{
    match proxy {
        None => Err(PlayerMoveResponse::PlayerOffline),
        Some(p) => if discord.is_none() {
            Err(PlayerMoveResponse::UnlinkedPlayer)
        } else {
            Ok(p)
        },
    }
}

/// The event of a move to a server: to the server itself for an admin move,
/// else to the player's proxy.
pub fn move_event(proxy: u128, player: u128, server: u128, admin: bool) -> (r: ServerEvent)
    ensures
        admin ==> r == (ServerEvent::AdminMovePlayer { server, player }),
        !admin ==> r == (ServerEvent::MovePlayer { proxy, server, player }),
{
    if admin {
        ServerEvent::AdminMovePlayer { server, player }
    } else {
        ServerEvent::MovePlayer { proxy, server, player }
    }
}

/// A message to broadcast, to the servers of a kind or to the proxies.
#[derive(Debug)]
pub struct Broadcast {
    pub message: String,
    pub permission: Option<String>,
    pub server_kind: Option<String>,
}

impl Broadcast {
    pub fn into_event(self) -> (r: ServerEvent)
        ensures
            r == (ServerEvent::Broadcast { message: self.message, permission: self.permission, server_kind: self.server_kind }),
    {
        ServerEvent::Broadcast { message: self.message, permission: self.permission, server_kind: self.server_kind }
    }
}

/// A JSON body of one message.
#[derive(Debug)]
pub struct JsonMessage {
    pub message: String,
}

/// A count kept as a setting: 0 when unset; an error when not an `i32`.
pub fn setting_count(v: &Option<String>) -> (r: Option<i32>)
    ensures
        v is None ==> r == Some(0i32),
        v is Some ==> match integer_of(v.unwrap()@) {
            Some(n) => if i32::MIN <= n <= i32::MAX { r == Some(n as i32) } else { r is None },
            None => r is None,
        },
{
    match v {
        None => Some(0),
        Some(t) => match parse_i64(t.as_str()) {
            Some(n) => if n >= i32::MIN as i64 && n <= i32::MAX as i64 {
                Some(n as i32)
            } else {
                None
            },
            None => None,
        },
    }
}

} // verus!
