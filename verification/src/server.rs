//! Settings of the dedicated multiplayer server.

use vstd::prelude::*;

verus! {

/// Simulation ticks per second shared by clients and server.
pub const TICK_RATE: u32 = 60;

/// Server configuration.
#[derive(Debug, Clone, Copy)]
pub struct ServerConfig {
    /// Port to listen on.
    pub port: u16,
    /// Maximum players per game.
    pub max_players: u8,
    /// Tick rate (should match client).
    pub tick_rate: u32,
}

impl Default for ServerConfig {
    fn default() -> (c: Self)
        ensures
            c.port == 7777,
            c.max_players == 8,
            c.tick_rate == TICK_RATE,
    {
        ServerConfig { port: 7777, max_players: 8, tick_rate: TICK_RATE }
    }
}

} // verus!
