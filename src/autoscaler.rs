//! Fleet-wide scaling settings.

use vstd::prelude::*;

verus! {

/// How many players each server of a scaled fleet is meant to carry.
#[derive(Debug, Clone, Copy, PartialEq, Eq, Structural)]
pub struct Autoscale {
    pub players_per_servers: i32,
}

} // verus!
