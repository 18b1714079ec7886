//! Scenario configuration: factions, starting forces, victory conditions and
//! resource nodes that make up the initial state of a headless game.

use crate::text::{decimal, decimal_digits};
use vstd::prelude::*;

verus! {

/// Map size presets for procedural generation.
#[derive(Debug, Clone, Copy, PartialEq, Eq, Default, Structural)]
pub enum MapSize {
    /// 512x512 world units.
    #[default]
    Small,
    /// 768x768 world units.
    Medium,
    /// 1024x1024 world units.
    Large,
}

/// A complete scenario configuration.
#[derive(Debug)]
pub struct Scenario {
    /// Scenario name.
    pub name: String,
    /// Human-readable description.
    pub description: String,
    /// Map dimensions (width, height) in world units.
    pub map_size: (u32, u32),
    /// Faction setups for each player.
    pub factions: Vec<FactionSetup>,
    /// Victory conditions.
    pub victory_conditions: VictoryConditions,
    /// Initial resource setup.
    pub initial_resources: ResourceSetup,
}

/// Setup for a single faction in the scenario.
#[derive(Debug)]
pub struct FactionSetup {
    /// Faction identifier ("continuity", "collegium", etc.).
    pub faction_id: String,
    /// How this faction is controlled.
    pub ai_controller: AiController,
    /// Starting units.
    pub starting_units: Vec<UnitPlacement>,
    /// Starting buildings.
    pub starting_buildings: Vec<BuildingPlacement>,
    /// Spawn position (x, y).
    pub spawn_position: (i32, i32),
    /// Starting resources.
    pub starting_resources: i64,
}

/// How a faction's units are controlled.
#[derive(Debug)]
pub enum AiController {
    /// Full autonomous AI (sandbox mode).
    Sandbox,
    /// Follow a scripted strategy file.
    Scripted(String),
    /// Controlled via JSON protocol.
    External,
    /// No control (for spectator/testing).
    NoControl,
}

/// Placement of a unit at scenario start.
#[derive(Debug)]
pub struct UnitPlacement {
    /// Unit type identifier.
    pub kind: String,
    /// Position (x, y).
    pub position: (i32, i32),
    /// Number of units to spawn.
    pub count: u32,
}

/// Placement of a building at scenario start.
#[derive(Debug)]
pub struct BuildingPlacement {
    /// Building type identifier.
    pub kind: String,
    /// Position (x, y).
    pub position: (i32, i32),
}

/// Victory conditions for the scenario.
#[derive(Debug)]
pub struct VictoryConditions {
    /// Victory by eliminating all enemy structures.
    pub elimination: bool,
    /// Optional time limit in ticks.
    pub time_limit_ticks: Option<u64>,
    /// Optional resource threshold for economic victory.
    pub resource_threshold: Option<i64>,
}

/// Resource setup for the map.
#[derive(Debug)]
pub struct ResourceSetup {
    /// Ore/resource node placements.
    pub ore_nodes: Vec<OreNode>,
}

/// An ore/resource node on the map.
#[derive(Debug)]
pub struct OreNode {
    /// Position (x, y).
    pub position: (i32, i32),
    /// Total resources available.
    pub amount: i64,
}

impl Clone for OreNode {
    fn clone(&self) -> (c: Self)
        ensures
            c == *self,
    {
        OreNode { position: self.position, amount: self.amount }
    }
}

impl Clone for UnitPlacement {
    fn clone(&self) -> (c: Self)
        ensures
            c == *self,
    {
        UnitPlacement { kind: self.kind.clone(), position: self.position, count: self.count }
    }
}

impl Clone for BuildingPlacement {
    fn clone(&self) -> (c: Self)
        ensures
            c == *self,
    {
        BuildingPlacement { kind: self.kind.clone(), position: self.position }
    }
}

impl Clone for AiController {
    fn clone(&self) -> (c: Self)
        ensures
            c == *self,
    {
        match self {
            AiController::Sandbox => AiController::Sandbox,
            AiController::Scripted(path) => AiController::Scripted(path.clone()),
            AiController::External => AiController::External,
            AiController::NoControl => AiController::NoControl,
        }
    }
}

impl Clone for VictoryConditions {
    fn clone(&self) -> (c: Self)
        ensures
            c == *self,
    {
        VictoryConditions {
            elimination: self.elimination,
            time_limit_ticks: self.time_limit_ticks,
            resource_threshold: self.resource_threshold,
        }
    }
}

impl Clone for ResourceSetup {
    fn clone(&self) -> (c: Self)
        ensures
            c.ore_nodes@ == self.ore_nodes@,
    {
        let ore_nodes = self.ore_nodes.clone();
        assert(ore_nodes@ =~= self.ore_nodes@);
        ResourceSetup { ore_nodes }
    }
}

/// Two faction setups hold the same data.
pub open spec fn same_setup(a: FactionSetup, b: FactionSetup) -> bool {
    &&& a.faction_id == b.faction_id
    &&& a.ai_controller == b.ai_controller
    &&& a.starting_units@ == b.starting_units@
    &&& a.starting_buildings@ == b.starting_buildings@
    &&& a.spawn_position == b.spawn_position
    &&& a.starting_resources == b.starting_resources
}

impl Clone for FactionSetup {
    fn clone(&self) -> (c: Self)
        ensures
            same_setup(c, *self),
    {
        let starting_units = self.starting_units.clone();
        assert(starting_units@ =~= self.starting_units@);
        let starting_buildings = self.starting_buildings.clone();
        assert(starting_buildings@ =~= self.starting_buildings@);
        FactionSetup {
            faction_id: self.faction_id.clone(),
            ai_controller: self.ai_controller.clone(),
            starting_units,
            starting_buildings,
            spawn_position: self.spawn_position,
            starting_resources: self.starting_resources,
        }
    }
}

impl Clone for Scenario {
    fn clone(&self) -> (c: Self)
        ensures
            c.name == self.name,
            c.description == self.description,
            c.map_size == self.map_size,
            c.factions@.len() == self.factions@.len(),
            forall|i: int| 0 <= i < c.factions@.len() ==> same_setup(c.factions@[i], self.factions@[i]),
            c.victory_conditions == self.victory_conditions,
            c.initial_resources.ore_nodes@ == self.initial_resources.ore_nodes@,
    {
        let factions = self.factions.clone();
        Scenario {
            name: self.name.clone(),
            description: self.description.clone(),
            map_size: self.map_size,
            factions,
            victory_conditions: self.victory_conditions.clone(),
            initial_resources: self.initial_resources.clone(),
        }
    }
}

/// `u` places `count` units of type `kind` at `(x, y)`.
pub open spec fn unit_placement_is(u: UnitPlacement, kind: Seq<char>, x: i32, y: i32, count: u32) -> bool {
    &&& u.kind@ == kind
    &&& u.position == (x, y)
    &&& u.count == count
}

/// `b` places a building of type `kind` at `(x, y)`.
pub open spec fn building_placement_is(b: BuildingPlacement, kind: Seq<char>, x: i32, y: i32) -> bool {
    &&& b.kind@ == kind
    &&& b.position == (x, y)
}

/// `f` is the standard setup for faction `id` based at `(x, y)`: two scouts
/// beside the base at `scout_x`, one harvester at `harvester_x`, a command
/// center on the spawn point, 1000 starting resources, sandbox AI.
pub open spec fn standard_faction_setup(
    f: FactionSetup,
    id: Seq<char>,
    x: i32,
    y: i32,
    scout_x: i32,
    harvester_x: i32,
) -> bool {
    &&& f.faction_id@ == id
    &&& f.ai_controller is Sandbox
    &&& f.starting_units@.len() == 2
    &&& unit_placement_is(f.starting_units@[0], "scout"@, scout_x, y, 2)
    &&& unit_placement_is(f.starting_units@[1], "harvester"@, harvester_x, y, 1)
    &&& f.starting_buildings@.len() == 1
    &&& building_placement_is(f.starting_buildings@[0], "command_center"@, x, y)
    &&& f.spawn_position == (x, y)
    &&& f.starting_resources == 1000
}

/// `f` is the default Continuity setup (west side of a 512-unit map).
pub open spec fn is_default_continuity(f: FactionSetup) -> bool {
    standard_faction_setup(f, "continuity"@, 48, 256, 64, 80)
}

/// `f` is the default Collegium setup (east side of a 512-unit map).
pub open spec fn is_default_collegium(f: FactionSetup) -> bool {
    standard_faction_setup(f, "collegium"@, 464, 256, 448, 432)
}

/// `n` is an ore node at `(x, y)` holding `amount` resources.
pub open spec fn ore_node_is(n: OreNode, x: i32, y: i32, amount: i64) -> bool {
    n.position == (x, y) && n.amount == amount
}

impl UnitPlacement {
    /// Create a new unit placement.
    pub fn new(kind: &str, x: i32, y: i32, count: u32) -> (u: Self)
        ensures
            unit_placement_is(u, kind@, x, y, count),
    {
        UnitPlacement { kind: kind.to_string(), position: (x, y), count }
    }
}

impl BuildingPlacement {
    /// Create a new building placement.
    pub fn new(kind: &str, x: i32, y: i32) -> (b: Self)
        ensures
            building_placement_is(b, kind@, x, y),
    {
        BuildingPlacement { kind: kind.to_string(), position: (x, y) }
    }
}

impl OreNode {
    /// Create a new ore node.
    pub fn new(x: i32, y: i32, amount: i64) -> (n: Self)
        ensures
            ore_node_is(n, x, y, amount),
    {
        OreNode { position: (x, y), amount }
    }
}

impl Default for VictoryConditions {
    fn default() -> (v: Self)
        ensures
            v.elimination,
            v.time_limit_ticks is None,
            v.resource_threshold is None,
    {
        VictoryConditions { elimination: true, time_limit_ticks: None, resource_threshold: None }
    }
}

impl Default for ResourceSetup {
    fn default() -> (r: Self)
        ensures
            r.ore_nodes@.len() == 2,
            ore_node_is(r.ore_nodes@[0], 128, 128, 5000),
            ore_node_is(r.ore_nodes@[1], 384, 384, 5000),
    {
        let mut ore_nodes: Vec<OreNode> = Vec::new();
        ore_nodes.push(OreNode::new(128, 128, 5000));
        ore_nodes.push(OreNode::new(384, 384, 5000));
        ResourceSetup { ore_nodes }
    }
}

impl FactionSetup {
    /// Builds the standard setup for one faction.
    fn standard(id: &str, x: i32, y: i32, scout_x: i32, harvester_x: i32) -> (f: Self)
        ensures
            standard_faction_setup(f, id@, x, y, scout_x, harvester_x),
    {
        let mut starting_units: Vec<UnitPlacement> = Vec::new();
        starting_units.push(UnitPlacement::new("scout", scout_x, y, 2));
        starting_units.push(UnitPlacement::new("harvester", harvester_x, y, 1));
        let mut starting_buildings: Vec<BuildingPlacement> = Vec::new();
        starting_buildings.push(BuildingPlacement::new("command_center", x, y));
        FactionSetup {
            faction_id: id.to_string(),
            ai_controller: AiController::Sandbox,
            starting_units,
            starting_buildings,
            spawn_position: (x, y),
            starting_resources: 1000,
        }
    }

    /// Create default Continuity faction setup.
    pub fn default_continuity() -> (f: Self)
        ensures
            is_default_continuity(f),
    {
        Self::standard("continuity", 48, 256, 64, 80)
    }

    /// Create default Collegium faction setup.
    pub fn default_collegium() -> (f: Self)
        ensures
            is_default_collegium(f),
    {
        Self::standard("collegium", 464, 256, 448, 432)
    }
}

impl Default for Scenario {
    /// A basic 1v1 skirmish on a 512x512 map.
    fn default() -> (s: Self)
        ensures
            s.name@ == "Default Skirmish"@,
            s.description@ == "A basic 1v1 skirmish scenario"@,
            s.map_size == (512u32, 512u32),
            s.factions@.len() == 2,
            is_default_continuity(s.factions@[0]),
            is_default_collegium(s.factions@[1]),
            s.victory_conditions.elimination,
            s.victory_conditions.time_limit_ticks is None,
            s.victory_conditions.resource_threshold is None,
            s.initial_resources.ore_nodes@.len() == 2,
            ore_node_is(s.initial_resources.ore_nodes@[0], 128, 128, 5000),
            ore_node_is(s.initial_resources.ore_nodes@[1], 384, 384, 5000),
    {
        let mut factions: Vec<FactionSetup> = Vec::new();
        factions.push(FactionSetup::default_continuity());
        factions.push(FactionSetup::default_collegium());
        Scenario {
            name: "Default Skirmish".to_string(),
            description: "A basic 1v1 skirmish scenario".to_string(),
            map_size: (512, 512),
            factions,
            victory_conditions: VictoryConditions::default(),
            initial_resources: ResourceSetup::default(),
        }
    }
}

impl Scenario {
    /// Create a standard 1v1 skirmish scenario: both factions in their
    /// default setups, a ten-minute time limit, four corner ore nodes and a
    /// richer contested node at the center.
    pub fn skirmish_1v1() -> (s: Self)
        ensures
            s.name@ == "Standard 1v1 Skirmish"@,
            s.description@ == "Balanced starting positions for faction matchup testing"@,
            s.map_size == (512u32, 512u32),
            s.factions@.len() == 2,
            is_default_continuity(s.factions@[0]),
            is_default_collegium(s.factions@[1]),
            s.victory_conditions.elimination,
            s.victory_conditions.time_limit_ticks == Some(36000u64),
            s.victory_conditions.resource_threshold is None,
            s.initial_resources.ore_nodes@.len() == 5,
            ore_node_is(s.initial_resources.ore_nodes@[0], 128, 200, 5000),
            ore_node_is(s.initial_resources.ore_nodes@[1], 128, 312, 5000),
            ore_node_is(s.initial_resources.ore_nodes@[2], 384, 200, 5000),
            ore_node_is(s.initial_resources.ore_nodes@[3], 384, 312, 5000),
            ore_node_is(s.initial_resources.ore_nodes@[4], 256, 256, 10000),
    {
        let mut factions: Vec<FactionSetup> = Vec::new();
        factions.push(FactionSetup::default_continuity());
        factions.push(FactionSetup::default_collegium());
        let mut ore_nodes: Vec<OreNode> = Vec::new();
        ore_nodes.push(OreNode::new(128, 200, 5000));
        ore_nodes.push(OreNode::new(128, 312, 5000));
        ore_nodes.push(OreNode::new(384, 200, 5000));
        ore_nodes.push(OreNode::new(384, 312, 5000));
        ore_nodes.push(OreNode::new(256, 256, 10000));
        Scenario {
            name: "Standard 1v1 Skirmish".to_string(),
            description: "Balanced starting positions for faction matchup testing".to_string(),
            map_size: (512, 512),
            factions,
            victory_conditions: VictoryConditions {
                elimination: true,
                time_limit_ticks: Some(36000),
                resource_threshold: None,
            },
            initial_resources: ResourceSetup { ore_nodes },
        }
    }
}

/// Faction ids given to the spawn points of a generated map, in order.
pub open spec fn generated_faction_id(i: int) -> Seq<char> {
    if i == 0 {
        "continuity"@
    } else {
        "collegium"@
    }
}

/// Every spawn point leaves room for the starting units placed east of it.
pub open spec fn spawns_fit(spawns: Seq<(i32, i32)>) -> bool {
    forall|i: int| 0 <= i < spawns.len() ==> #[trigger] spawns[i].0 <= i32::MAX - 32
}

impl Scenario {
    /// Scenario for a procedurally generated map of `world_w` by `world_h`
    /// units, given its spawn points and resource deposits
    /// (`(x, y, amount)`): the first two spawn points become Continuity and
    /// Collegium with the standard starting forces, every deposit an ore
    /// node, with elimination and a ten-minute limit as victory conditions.
    pub fn from_generated_layout(
        seed: u64,
        world_w: u32,
        world_h: u32,
        spawns: &Vec<(i32, i32)>,
        resources: &Vec<(i32, i32, i64)>,
    ) -> (s: Self)
        requires
            spawns_fit(spawns@),
        ensures
            s.name@ == "Procedural Map (seed: "@ + decimal_digits(seed as nat) + ")"@,
            s.description@ == decimal_digits(world_w as nat) + "x"@ + decimal_digits(
                world_h as nat,
            ) + " procedurally generated map"@,
            s.map_size == (world_w, world_h),
            s.factions@.len() == if spawns@.len() < 2 {
                spawns@.len()
            } else {
                2
            },
            forall|i: int|
                0 <= i < s.factions@.len() ==> standard_faction_setup(
                    #[trigger] s.factions@[i],
                    generated_faction_id(i),
                    spawns@[i].0,
                    spawns@[i].1,
                    (spawns@[i].0 + 16) as i32,
                    (spawns@[i].0 + 32) as i32,
                ),
            s.victory_conditions.elimination,
            s.victory_conditions.time_limit_ticks == Some(36000u64),
            s.victory_conditions.resource_threshold is None,
            s.initial_resources.ore_nodes@.len() == resources@.len(),
            forall|i: int|
                0 <= i < resources@.len() ==> ore_node_is(
                    #[trigger] s.initial_resources.ore_nodes@[i],
                    resources@[i].0,
                    resources@[i].1,
                    resources@[i].2,
                ),
    {
        let mut factions: Vec<FactionSetup> = Vec::new();
        let mut i: usize = 0;
        while i < spawns.len() && i < 2
            invariant
                spawns_fit(spawns@),
                i <= spawns@.len(),
                i <= 2,
                factions@.len() == i,
                forall|j: int|
                    0 <= j < i ==> standard_faction_setup(
                        #[trigger] factions@[j],
                        generated_faction_id(j),
                        spawns@[j].0,
                        spawns@[j].1,
                        (spawns@[j].0 + 16) as i32,
                        (spawns@[j].0 + 32) as i32,
                    ),
            decreases 2 - i,
        {
            let (x, y) = spawns[i];
            assert(spawns@[i as int].0 <= i32::MAX - 32);
            let id = if i == 0 {
                "continuity"
            } else {
                "collegium"
            };
            proof {
                reveal_strlit("continuity");
                reveal_strlit("collegium");
            }
            let f = FactionSetup::standard(id, x, y, x + 16, x + 32);
            factions.push(f);
            i = i + 1;
        }
        let mut ore_nodes: Vec<OreNode> = Vec::new();
        let mut k: usize = 0;
        while k < resources.len()
            invariant
                k <= resources@.len(),
                ore_nodes@.len() == k,
                forall|j: int|
                    0 <= j < k ==> ore_node_is(
                        #[trigger] ore_nodes@[j],
                        resources@[j].0,
                        resources@[j].1,
                        resources@[j].2,
                    ),
            decreases resources@.len() - k,
        {
            let (x, y, amount) = resources[k];
            ore_nodes.push(OreNode::new(x, y, amount));
            k = k + 1;
        }
        let mut name = "Procedural Map (seed: ".to_string();
        name.append(decimal(seed).as_str());
        name.append(")");
        let mut description = decimal(world_w as u64);
        description.append("x");
        description.append(decimal(world_h as u64).as_str());
        description.append(" procedurally generated map");
        Scenario {
            name,
            description,
            map_size: (world_w, world_h),
            factions,
            victory_conditions: VictoryConditions {
                elimination: true,
                time_limit_ticks: Some(36000),
                resource_threshold: None,
            },
            initial_resources: ResourceSetup { ore_nodes },
        }
    }
}

} // verus!
