//! Events exchanged on the bus, and where each one is routed.

use vstd::prelude::*;
use crate::ident::{IpAddress, id_text, uuid_text};
use crate::props::Properties;

verus! {

/// An event of the bus. Direct events go to one replica's queue, named by the
/// replica's identifier; the others are broadcast under a topic key.
#[derive(Debug)]
#[allow(inconsistent_fields)]
pub enum ServerEvent {
    NewRoute { addr: IpAddress, id: u128, description: String, name: String, kind: String, properties: Properties },
    DeleteRoute { id: u128, name: String },
    ServerStarted { addr: IpAddress, id: u128, description: String, name: String, kind: String, properties: Properties },
    MovePlayer { proxy: u128, server: u128, player: u128 },
    AdminMovePlayer { server: u128, player: u128 },
    DisconnectPlayer { proxy: u128, player: u128, message: Option<String> },
    InvalidatePlayer { server: u128, uuid: u128 },
    PlayerCountSync { proxy: u128, count: i32 },
    PlayerCount { count: i32 },
    InvalidateLeaderBoard { name: String, label: String, leaderboard: Vec<String> },
    Broadcast { message: String, permission: Option<String>, server_kind: Option<String> },
    ServerStateUpdate { server: u128, state: String },
    ServerDescriptionUpdate { server: u128, description: String },
    ServerCountUpdate { server: u128, count: i32 },
}

/// The routing key of an event.
pub open spec fn route_of(e: ServerEvent) -> Seq<char> {
    match e {
        ServerEvent::NewRoute { .. } => "proxy.servers.routes.new"@,
        ServerEvent::DeleteRoute { .. } => "proxy.servers.routes.delete"@,
        ServerEvent::ServerStarted { .. } => "proxy.servers.routes.started"@,
        ServerEvent::MovePlayer { proxy, .. } => uuid_text(proxy),
        ServerEvent::AdminMovePlayer { server, .. } => uuid_text(server),
        ServerEvent::DisconnectPlayer { proxy, .. } => uuid_text(proxy),
        ServerEvent::InvalidatePlayer { server, .. } => uuid_text(server),
        ServerEvent::PlayerCountSync { .. } => "skynet.playercountsync"@,
        ServerEvent::InvalidateLeaderBoard { name, .. } => "leaderboard.invalidate."@ + name@,
        ServerEvent::Broadcast { server_kind, .. } => match server_kind {
            Some(kind) => "server."@ + kind@ + ".broadcast"@,
            None => "proxy.broadcast"@,
        },
        ServerEvent::PlayerCount { .. } => "server.playercount"@,
        ServerEvent::ServerStateUpdate { .. } => "server.update.state"@,
        ServerEvent::ServerDescriptionUpdate { .. } => "server.update.description"@,
        ServerEvent::ServerCountUpdate { .. } => "server.update.onlines"@,
    }
}

/// Whether an event goes to a single replica's queue.
pub open spec fn is_direct(e: ServerEvent) -> bool {
    match e {
        ServerEvent::MovePlayer { .. } | ServerEvent::AdminMovePlayer { .. }
        | ServerEvent::DisconnectPlayer { .. } | ServerEvent::InvalidatePlayer { .. } => true,
        _ => false,
    }
}

impl ServerEvent {
    /// The routing key: the destination's identifier for a direct event, the
    /// topic key otherwise.
    pub fn route(&self) -> (r: String)
        ensures
            r@ == route_of(*self),
    {
        match self {
            ServerEvent::NewRoute { .. } => String::from_str("proxy.servers.routes.new"),
            ServerEvent::DeleteRoute { .. } => String::from_str("proxy.servers.routes.delete"),
            ServerEvent::ServerStarted { .. } => String::from_str("proxy.servers.routes.started"),
            ServerEvent::MovePlayer { proxy, .. } => id_text(*proxy),
            ServerEvent::AdminMovePlayer { server, .. } => id_text(*server),
            ServerEvent::DisconnectPlayer { proxy, .. } => id_text(*proxy),
            ServerEvent::InvalidatePlayer { server, .. } => id_text(*server),
            ServerEvent::PlayerCountSync { .. } => String::from_str("skynet.playercountsync"),
            ServerEvent::InvalidateLeaderBoard { name, .. } => {
                String::from_str("leaderboard.invalidate.").concat(name.as_str())
            },
            ServerEvent::Broadcast { server_kind, .. } => match server_kind {
                Some(kind) => String::from_str("server.").concat(kind.as_str()).concat(".broadcast"),
                None => String::from_str("proxy.broadcast"),
            },
            ServerEvent::PlayerCount { .. } => String::from_str("server.playercount"),
            ServerEvent::ServerStateUpdate { .. } => String::from_str("server.update.state"),
            ServerEvent::ServerDescriptionUpdate { .. } => String::from_str("server.update.description"),
            ServerEvent::ServerCountUpdate { .. } => String::from_str("server.update.onlines"),
        }
    }

    /// Whether the event goes to a single replica's queue.
    pub fn direct(&self) -> (r: bool)
        ensures
            r == is_direct(*self),
    {
        match self {
            ServerEvent::MovePlayer { .. } | ServerEvent::AdminMovePlayer { .. }
            | ServerEvent::DisconnectPlayer { .. } | ServerEvent::InvalidatePlayer { .. } => true,
            _ => false,
        }
    }
}

} // verus!
