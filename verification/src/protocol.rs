//! Vocabulary of the JSON-lines protocol spoken between an AI controller and
//! the headless runner: command names, entity and game status values, and
//! match statistics.

use vstd::prelude::*;

verus! {

/// Tick count a `tick` command carries when it names none.
pub fn default_tick_count() -> (n: u32)
    ensures
        n == 1,
{
    1
}

/// The kinds of command an AI controller can send.
#[derive(Debug, Clone, Copy, PartialEq, Eq, Structural)]
pub enum CommandKind {
    Tick,
    Query,
    Spawn,
    SpawnBuilding,
    Move,
    Attack,
    Stop,
    SetResources,
    Teleport,
    Kill,
    Speed,
    Win,
    Lose,
    Quit,
    Hash,
    LoadScenario,
    Screenshot,
}

/// Wire name of each command kind (its `cmd` tag).
pub open spec fn command_name(k: CommandKind) -> Seq<char> {
    match k {
        CommandKind::Tick => "tick"@,
        CommandKind::Query => "query"@,
        CommandKind::Spawn => "spawn"@,
        CommandKind::SpawnBuilding => "spawn_building"@,
        CommandKind::Move => "move"@,
        CommandKind::Attack => "attack"@,
        CommandKind::Stop => "stop"@,
        CommandKind::SetResources => "set_resources"@,
        CommandKind::Teleport => "teleport"@,
        CommandKind::Kill => "kill"@,
        CommandKind::Speed => "speed"@,
        CommandKind::Win => "win"@,
        CommandKind::Lose => "lose"@,
        CommandKind::Quit => "quit"@,
        CommandKind::Hash => "hash"@,
        CommandKind::LoadScenario => "load_scenario"@,
        CommandKind::Screenshot => "screenshot"@,
    }
}

impl CommandKind {
    /// Get command name for acknowledgment.
    pub fn name(&self) -> (s: &'static str)
        ensures
            s@ == command_name(*self),
    {
        match self {
            CommandKind::Tick => "tick",
            CommandKind::Query => "query",
            CommandKind::Spawn => "spawn",
            CommandKind::SpawnBuilding => "spawn_building",
            CommandKind::Move => "move",
            CommandKind::Attack => "attack",
            CommandKind::Stop => "stop",
            CommandKind::SetResources => "set_resources",
            CommandKind::Teleport => "teleport",
            CommandKind::Kill => "kill",
            CommandKind::Speed => "speed",
            CommandKind::Win => "win",
            CommandKind::Lose => "lose",
            CommandKind::Quit => "quit",
            CommandKind::Hash => "hash",
            CommandKind::LoadScenario => "load_scenario",
            CommandKind::Screenshot => "screenshot",
        }
    }
}

/// Type of entity.
#[derive(Debug, Clone)]
pub enum EntityType {
    Unit { kind: String },
    Building { kind: String },
    ResourceNode,
    Projectile,
}

/// Health state.
#[derive(Debug, Clone, Copy, PartialEq, Eq, Structural)]
pub struct HealthState {
    pub current: u32,
    pub max: u32,
}

/// Resource state for a player.
#[derive(Debug, Clone, Copy, PartialEq, Eq, Structural)]
pub struct ResourceState {
    pub feedstock: u32,
}

/// Current game status.
#[derive(Debug, Clone, Copy, PartialEq, Eq, Structural)]
pub enum GameStatus {
    InProgress,
    Victory,
    Defeat,
}

/// Game result.
#[derive(Debug, Clone, Copy, PartialEq, Eq, Structural)]
pub enum GameResult {
    Victory,
    Defeat,
    Draw,
}

/// Match statistics output.
#[derive(Debug, Clone, Copy, PartialEq, Eq, Structural)]
pub struct MatchStatsOutput {
    pub duration_ticks: u64,
    pub units_produced: u32,
    pub units_lost: u32,
    pub enemies_killed: u32,
    pub resources_gathered: u32,
}

impl Default for MatchStatsOutput {
    fn default() -> (m: Self)
        ensures
            m.duration_ticks == 0,
            m.units_produced == 0,
            m.units_lost == 0,
            m.enemies_killed == 0,
            m.resources_gathered == 0,
    {
        MatchStatsOutput {
            duration_ticks: 0,
            units_produced: 0,
            units_lost: 0,
            enemies_killed: 0,
            resources_gathered: 0,
        }
    }
}

} // verus!
