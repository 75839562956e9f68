//! Control plane for a fleet of game servers and proxies: the decisions that
//! reconcile pods into servers, scale kinds up and down, and drive the player
//! lifecycle, each stated as a contract and proved.

pub mod message;
pub mod text;
pub mod ident;
pub mod props;
pub mod events;
pub mod autoscale;
pub mod permissions;
pub mod players;
pub mod sanctions;
pub mod online_count;
pub mod reconcile;
pub mod bans;
pub mod proxycheck;
pub mod login;
pub mod transactions;
pub mod leaderboard;
pub mod requests;
pub mod autoscaler;
pub mod associations;
pub mod leadership;
