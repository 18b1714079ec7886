//! Rules of the headless game loop: production costs, the fallback unit and
//! building tables, salvage arithmetic, the deterministic random source and
//! the victory check that ends a match.

use crate::strategies::{count_of, names_distinct, record_count, recorded_once, total_count, BuildOrderItem};
use crate::text::{contains_text, has_infix, lowercase, text_eq, to_lowercase};
use vstd::prelude::*;

verus! {

/// Match length used when a configuration asks for zero ticks
/// (10 minutes at 60 ticks per second).
pub const DEFAULT_MAX_TICKS: u64 = 36000;

/// Most units a player may field at once.
pub const MAX_SUPPLY_PER_PLAYER: usize = 200;

/// Ticks a wreck stays on the field before it disappears.
pub const WRECK_LIFETIME: u64 = 600;

/// Below this many resources the economy counts as tight.
pub const ECONOMY_TIGHT_THRESHOLD: i64 = 100;

/// High-level game runner for headless testing.
#[derive(Debug, Clone)]
pub struct GameRunner {
    /// Default max ticks if not specified in config.
    pub default_max_ticks: u64,
}

impl GameRunner {
    /// Create a new game runner.
    pub fn new() -> (r: Self)
        ensures
            r.default_max_ticks == DEFAULT_MAX_TICKS,
    {
        GameRunner { default_max_ticks: DEFAULT_MAX_TICKS }
    }

    /// The tick limit a run uses: the requested one, or this runner's
    /// default when the request is zero.
    pub fn effective_max_ticks(&self, requested: u64) -> (t: u64)
        ensures
            t == if requested == 0 {
                self.default_max_ticks
            } else {
                requested
            },
    {
        if requested == 0 {
            self.default_max_ticks
        } else {
            requested
        }
    }
}

impl Default for GameRunner {
    fn default() -> (r: Self)
        ensures
            r.default_max_ticks == 0,
    {
        GameRunner { default_max_ticks: 0 }
    }
}

/// Production cost of a unit kind when no faction data is loaded.
pub open spec fn unit_cost(kind: Seq<char>) -> i64 {
    if kind == "scout"@ || kind == "patrol_vehicle"@ {
        60
    } else if kind == "infantry"@ || kind == "security_team"@ {
        50
    } else if kind == "crowd_management_unit"@ {
        75
    } else if kind == "ranger"@ {
        100
    } else if kind == "tank"@ || kind == "guardian_mech"@ {
        300
    } else if kind == "harvester"@ || kind == "collection_vehicle"@ {
        100
    } else if kind == "pacification_platform"@ {
        250
    } else if kind == "protected_transport"@ {
        150
    } else if kind == "sovereign_platform"@ {
        800
    } else if kind == "rapid_response_squadron"@ {
        400
    } else {
        75
    }
}

/// Construction cost of a building kind when no faction data is loaded.
pub open spec fn building_cost(kind: Seq<char>) -> i64 {
    if kind == "barracks"@ || kind == "training_center"@ {
        150
    } else if kind == "supply_depot"@ || kind == "processing_facility"@ {
        200
    } else if kind == "tech_lab"@ || kind == "research_institute"@ {
        200
    } else if kind == "turret"@ || kind == "defense_turret"@ {
        150
    } else if kind == "vehicle_depot"@ {
        200
    } else if kind == "walker_facility"@ {
        350
    } else if kind == "air_operations"@ {
        400
    } else if kind == "strategic_operations"@ {
        500
    } else if kind == "checkpoint"@ {
        100
    } else {
        200
    }
}

/// Get unit production cost (hardcoded fallback table).
pub fn get_unit_cost(unit_type: &str) -> (c: i64)
    ensures
        c == unit_cost(unit_type@),
{
    if text_eq(unit_type, "scout") || text_eq(unit_type, "patrol_vehicle") {
        60
    } else if text_eq(unit_type, "infantry") || text_eq(unit_type, "security_team") {
        50
    } else if text_eq(unit_type, "crowd_management_unit") {
        75
    } else if text_eq(unit_type, "ranger") {
        100
    } else if text_eq(unit_type, "tank") || text_eq(unit_type, "guardian_mech") {
        300
    } else if text_eq(unit_type, "harvester") || text_eq(unit_type, "collection_vehicle") {
        100
    } else if text_eq(unit_type, "pacification_platform") {
        250
    } else if text_eq(unit_type, "protected_transport") {
        150
    } else if text_eq(unit_type, "sovereign_platform") {
        800
    } else if text_eq(unit_type, "rapid_response_squadron") {
        400
    } else {
        75
    }
}

/// Get building construction cost (hardcoded fallback table).
pub fn get_building_cost(building_type: &str) -> (c: i64)
    ensures
        c == building_cost(building_type@),
{
    if text_eq(building_type, "barracks") || text_eq(building_type, "training_center") {
        150
    } else if text_eq(building_type, "supply_depot") || text_eq(
        building_type,
        "processing_facility",
    ) {
        200
    } else if text_eq(building_type, "tech_lab") || text_eq(building_type, "research_institute") {
        200
    } else if text_eq(building_type, "turret") || text_eq(building_type, "defense_turret") {
        150
    } else if text_eq(building_type, "vehicle_depot") {
        200
    } else if text_eq(building_type, "walker_facility") {
        350
    } else if text_eq(building_type, "air_operations") {
        400
    } else if text_eq(building_type, "strategic_operations") {
        500
    } else if text_eq(building_type, "checkpoint") {
        100
    } else {
        200
    }
}

/// Combat profile of a unit spawned from the fallback table.
#[derive(Debug, Clone, Copy, PartialEq, Eq, Structural)]
pub struct UnitStats {
    pub health: u32,
    /// Damage per attack; zero means the unit carries no weapon.
    pub damage: u32,
    pub range: u32,
    pub speed: u32,
}

/// Fallback stats of a unit kind as (health, damage, range, speed).
pub open spec fn unit_stats_of(kind: Seq<char>) -> (u32, u32, u32, u32) {
    if kind == "scout"@ || kind == "patrol_vehicle"@ {
        (100, 8, 80, 15)
    } else if kind == "infantry"@ || kind == "security_team"@ {
        (80, 12, 50, 10)
    } else if kind == "crowd_management_unit"@ {
        (60, 18, 40, 9)
    } else if kind == "ranger"@ {
        (80, 20, 120, 10)
    } else if kind == "tank"@ || kind == "guardian_mech"@ {
        (500, 45, 70, 5)
    } else if kind == "harvester"@ || kind == "collection_vehicle"@ {
        (150, 0, 0, 7)
    } else if kind == "pacification_platform"@ {
        (300, 60, 120, 4)
    } else if kind == "sovereign_platform"@ {
        (1200, 100, 90, 3)
    } else {
        (100, 12, 60, 10)
    }
}

fn stats(health: u32, damage: u32, range: u32, speed: u32) -> (s: UnitStats)
    ensures
        (s.health, s.damage, s.range, s.speed) == (health, damage, range, speed),
{
    UnitStats { health, damage, range, speed }
}

/// Stats a unit kind is spawned with when no faction data is loaded.
pub fn fallback_unit_stats(unit_type: &str) -> (s: UnitStats)
    ensures
        (s.health, s.damage, s.range, s.speed) == unit_stats_of(unit_type@),
{
    if text_eq(unit_type, "scout") || text_eq(unit_type, "patrol_vehicle") {
        stats(100, 8, 80, 15)
    } else if text_eq(unit_type, "infantry") || text_eq(unit_type, "security_team") {
        stats(80, 12, 50, 10)
    } else if text_eq(unit_type, "crowd_management_unit") {
        stats(60, 18, 40, 9)
    } else if text_eq(unit_type, "ranger") {
        stats(80, 20, 120, 10)
    } else if text_eq(unit_type, "tank") || text_eq(unit_type, "guardian_mech") {
        stats(500, 45, 70, 5)
    } else if text_eq(unit_type, "harvester") || text_eq(unit_type, "collection_vehicle") {
        stats(150, 0, 0, 7)
    } else if text_eq(unit_type, "pacification_platform") {
        stats(300, 60, 120, 4)
    } else if text_eq(unit_type, "sovereign_platform") {
        stats(1200, 100, 90, 3)
    } else {
        stats(100, 12, 60, 10)
    }
}

/// The building kind is a main base (its loss decides the match).
pub open spec fn is_depot_kind(kind: Seq<char>) -> bool {
    kind == "command_center"@ || kind == "depot"@ || kind == "administration_center"@
}

/// Hit points of a building kind when no faction data is loaded.
pub open spec fn building_health_of(kind: Seq<char>) -> u32 {
    if is_depot_kind(kind) {
        1500
    } else if kind == "barracks"@ || kind == "training_center"@ {
        500
    } else if kind == "supply_depot"@ || kind == "processing_facility"@ {
        600
    } else if kind == "tech_lab"@ || kind == "research_institute"@ {
        400
    } else if kind == "turret"@ || kind == "defense_turret"@ {
        350
    } else if kind == "vehicle_depot"@ {
        600
    } else if kind == "walker_facility"@ {
        800
    } else if kind == "air_operations"@ {
        700
    } else {
        500
    }
}

/// Whether a building of this kind is the player's main base.
pub fn is_depot_building(building_type: &str) -> (b: bool)
    ensures
        b == is_depot_kind(building_type@),
{
    text_eq(building_type, "command_center") || text_eq(building_type, "depot") || text_eq(
        building_type,
        "administration_center",
    )
}

/// Hit points a building kind is spawned with when no faction data is
/// loaded.
pub fn fallback_building_health(building_type: &str) -> (h: u32)
    ensures
        h == building_health_of(building_type@),
{
    if is_depot_building(building_type) {
        1500
    } else if text_eq(building_type, "barracks") || text_eq(building_type, "training_center") {
        500
    } else if text_eq(building_type, "supply_depot") || text_eq(
        building_type,
        "processing_facility",
    ) {
        600
    } else if text_eq(building_type, "tech_lab") || text_eq(building_type, "research_institute") {
        400
    } else if text_eq(building_type, "turret") || text_eq(building_type, "defense_turret") {
        350
    } else if text_eq(building_type, "vehicle_depot") {
        600
    } else if text_eq(building_type, "walker_facility") {
        800
    } else if text_eq(building_type, "air_operations") {
        700
    } else {
        500
    }
}

/// The lowercased unit kind names a frontline combat unit: it mentions
/// no support role and mentions at least one combat role.
pub open spec fn battleline_kind(kind: Seq<char>) -> bool {
    let k = lowercase(kind);
    &&& !(has_infix(k, "harvester"@) || has_infix(k, "collection"@) || has_infix(
        k,
        "constructor"@,
    ) || has_infix(k, "scout_drone"@))
    &&& (has_infix(k, "security"@) || has_infix(k, "crowd"@) || has_infix(k, "patrol"@)
        || has_infix(k, "guardian"@) || has_infix(k, "attack"@) || has_infix(k, "mech"@)
        || has_infix(k, "tank"@) || has_infix(k, "infantry"@) || has_infix(k, "platform"@)
        || has_infix(k, "archon"@) || has_infix(k, "response"@))
}

/// Whether a unit kind may collect salvage (fallback rule when no faction
/// data is loaded).
pub fn is_battleline_kind(unit_kind: &str) -> (b: bool)
    ensures
        b == battleline_kind(unit_kind@),
{
    let lower = to_lowercase(unit_kind);
    let k = lower.as_str();
    if contains_text(k, "harvester") || contains_text(k, "collection") || contains_text(
        k,
        "constructor",
    ) || contains_text(k, "scout_drone") {
        return false;
    }
    contains_text(k, "security") || contains_text(k, "crowd") || contains_text(k, "patrol")
        || contains_text(k, "guardian") || contains_text(k, "attack") || contains_text(k, "mech")
        || contains_text(k, "tank") || contains_text(k, "infantry") || contains_text(k, "platform")
        || contains_text(k, "archon") || contains_text(k, "response")
}

/// Tier of a unit kind from its lowercased name (fallback rule).
pub open spec fn tier_of_kind(kind: Seq<char>) -> u32 {
    let k = lowercase(kind);
    if has_infix(k, "sovereign"@) || has_infix(k, "strategic"@) || has_infix(
        k,
        "rapid_response"@,
    ) {
        3
    } else if has_infix(k, "tank"@) || has_infix(k, "guardian"@) || has_infix(
        k,
        "pacification"@,
    ) || has_infix(k, "walker"@) {
        2
    } else {
        1
    }
}

/// Tier of a unit kind, used for its salvage rate (fallback rule).
pub fn unit_tier_from_kind(unit_kind: &str) -> (t: u32)
    ensures
        t == tier_of_kind(unit_kind@),
        1 <= t <= 3,
{
    let lower = to_lowercase(unit_kind);
    let k = lower.as_str();
    if contains_text(k, "sovereign") || contains_text(k, "strategic") || contains_text(
        k,
        "rapid_response",
    ) {
        3
    } else if contains_text(k, "tank") || contains_text(k, "guardian") || contains_text(
        k,
        "pacification",
    ) || contains_text(k, "walker") {
        2
    } else {
        1
    }
}

/// Resources per tick that a unit of the given tier collects from a wreck.
pub open spec fn tier_salvage_rate(tier: u32) -> i64 {
    if tier == 2 {
        2
    } else if tier == 3 {
        4
    } else {
        1
    }
}

/// Salvage collection rate multiplier based on unit tier.
/// Tier 1 = 1 resource/tick, Tier 2 = 2/tick, Tier 3 = 4/tick.
pub fn salvage_rate_for_tier(tier: u32) -> (r: i64)
    ensures
        r == tier_salvage_rate(tier),
{
    match tier {
        1 => 1,
        2 => 2,
        3 => 4,
        _ => 1,
    }
}

/// Collection rate of a unit: halved (but at least 1) while it fights.
pub open spec fn effective_salvage_rate(tier: u32, in_combat: bool) -> int {
    let r = tier_salvage_rate(tier) as int;
    if in_combat {
        if r / 2 == 0 {
            1
        } else {
            r / 2
        }
    } else {
        r
    }
}

/// Resources a unit takes from a wreck in one tick: its rate, capped by
/// what the wreck still holds.
pub fn salvage_collected(tier: u32, in_combat: bool, remaining: i64) -> (c: i64)
    ensures
        c == if effective_salvage_rate(tier, in_combat) <= remaining {
            effective_salvage_rate(tier, in_combat)
        } else {
            remaining as int
        },
{
    let mut rate = salvage_rate_for_tier(tier);
    if in_combat {
        rate = rate / 2;
        if rate == 0 {
            rate = 1;
        }
    }
    if rate <= remaining {
        rate
    } else {
        remaining
    }
}

/// Salvage a destroyed unit leaves behind: a quarter of its cost, rounded
/// down.  Costs are bounded by 2^24, where every whole number is exact in
/// single precision.
pub fn salvage_value(cost: i64) -> (v: i64)
    requires
        0 <= cost <= 16777216,
    ensures
        v == cost / 4,
{
    cost / 4
}

/// A wreck spawned at `spawn_tick` is still on the field at `tick`.
pub fn wreck_active(tick: u64, spawn_tick: u64) -> (b: bool)
    requires
        spawn_tick <= tick,
    ensures
        b == (tick - spawn_tick < WRECK_LIFETIME),
{
    tick - spawn_tick < WRECK_LIFETIME
}

/// Next state of the xorshift64 generator.
pub open spec fn xorshift64(s: u64) -> u64 {
    let a = s ^ (s << 13u64);
    let b = a ^ (a >> 7u64);
    b ^ (b << 17u64)
}

/// Simple deterministic RNG for reproducibility.
#[derive(Debug)]
pub struct SimpleRng {
    state: u64,
}

impl SimpleRng {
    /// Current generator state.
    pub closed spec fn state(&self) -> u64 {
        self.state
    }

    /// Seeds the generator; the state is the seed plus one, wrapping.
    pub fn new(seed: u64) -> (r: Self)
        ensures
            r.state() == (if seed == u64::MAX {
                0
            } else {
                seed + 1
            }),
    {
        SimpleRng { state: seed.wrapping_add(1) }
    }

    /// Advances the generator (xorshift64) and returns the new state.
    pub fn next(&mut self) -> (r: u64)
        ensures
            r == xorshift64(old(self).state()),
            final(self).state() == r,
    {
        self.state = self.state ^ (self.state << 13u64);
        self.state = self.state ^ (self.state >> 7u64);
        self.state = self.state ^ (self.state << 17u64);
        self.state
    }
}

/// Offset from the depot at which new production appears, drawn from a
/// random value: uniform over `[-span/2, span - span/2)`.
pub fn spawn_offset(draw: u64, span: u32) -> (o: i32)
    requires
        0 < span <= i32::MAX,
    ensures
        o == (draw % (span as u64)) - (span / 2),
{
    let m: u64 = draw % (span as u64);
    let half: u32 = span / 2;
    (m as i32) - (half as i32)
}

/// Side of a head-to-head match.
#[derive(Debug, Clone, Copy, PartialEq, Eq, Structural)]
pub enum Side {
    Continuity,
    Collegium,
}

/// What the loss of main bases means for the match after a tick.
#[derive(Debug, Clone, Copy, PartialEq, Eq, Structural)]
pub enum DepotVerdict {
    /// Both sides still hold a main base.
    Ongoing,
    /// Only this side still holds a main base.
    Won(Side),
    /// Both main bases are gone.
    Draw,
}

/// Victory by main-base destruction: a side wins exactly when it alone
/// keeps its base; losing both is a draw.
pub fn depot_verdict(a_has_depot: bool, b_has_depot: bool) -> (v: DepotVerdict)
    ensures
        v == if !a_has_depot && b_has_depot {
            DepotVerdict::Won(Side::Collegium)
        } else if !b_has_depot && a_has_depot {
            DepotVerdict::Won(Side::Continuity)
        } else if !a_has_depot && !b_has_depot {
            DepotVerdict::Draw
        } else {
            DepotVerdict::Ongoing
        },
{
    if !a_has_depot && b_has_depot {
        DepotVerdict::Won(Side::Collegium)
    } else if !b_has_depot && a_has_depot {
        DepotVerdict::Won(Side::Continuity)
    } else if !a_has_depot && !b_has_depot {
        DepotVerdict::Draw
    } else {
        DepotVerdict::Ongoing
    }
}

/// One tick of research: the remaining time drops by one, and the research
/// completes on the tick it reaches zero.
pub fn research_step(remaining: u64) -> (r: (u64, bool))
    ensures
        r.0 == if remaining > 0 {
            remaining - 1
        } else {
            0
        },
        r.1 == (remaining == 1),
{
    if remaining > 0 {
        let left = remaining - 1;
        (left, left == 0)
    } else {
        (0, false)
    }
}

/// A unit may be ordered when its cost is covered and the supply cap is not
/// reached.
pub fn unit_order_allowed(resources: i64, cost: i64, supply: usize) -> (b: bool)
    ensures
        b == (resources >= cost && supply < MAX_SUPPLY_PER_PLAYER),
{
    resources >= cost && supply < MAX_SUPPLY_PER_PLAYER
}

/// What one AI turn produces: at most one unit or one building.
#[derive(Debug, Clone, PartialEq, Eq)]
pub enum Production {
    /// Train a unit of this kind at the depot.
    Unit(String),
    /// Construct a building of this kind near the depot.
    Building(String),
    /// Produce nothing this turn.
    Idle,
}

/// The production of an AI turn.  `item` is what the build order handed out
/// (`None` once it is exhausted, when continuous production offers
/// `fallback`); costs are those of the item and of the fallback unit;
/// `depot_ready` says whether the player's depot stands where production
/// happens.  Units need their cost and a free supply slot, buildings their
/// cost; nothing is produced without the depot.
pub open spec fn production_of(
    item: Option<BuildOrderItem>,
    item_cost: i64,
    fallback: Option<String>,
    fallback_cost: i64,
    resources: i64,
    supply: usize,
    depot_ready: bool,
) -> Production {
    match item {
        Some(BuildOrderItem::Unit(kind)) => if resources >= item_cost && supply < MAX_SUPPLY_PER_PLAYER
            && depot_ready {
            Production::Unit(kind)
        } else {
            Production::Idle
        },
        Some(BuildOrderItem::Building(kind)) => if resources >= item_cost && depot_ready {
            Production::Building(kind)
        } else {
            Production::Idle
        },
        Some(_) => Production::Idle,
        None => match fallback {
            Some(kind) => if resources >= fallback_cost && supply < MAX_SUPPLY_PER_PLAYER && depot_ready {
                Production::Unit(kind)
            } else {
                Production::Idle
            },
            None => Production::Idle,
        },
    }
}

/// Decides what an AI turn produces (see [`production_of`]); a unit is
/// never produced at the supply cap or beyond the player's resources.
pub fn plan_production(
    item: Option<BuildOrderItem>,
    item_cost: i64,
    fallback: Option<String>,
    fallback_cost: i64,
    resources: i64,
    supply: usize,
    depot_ready: bool,
) -> (p: Production)
    ensures
        p == production_of(item, item_cost, fallback, fallback_cost, resources, supply, depot_ready),
        p is Unit ==> supply < MAX_SUPPLY_PER_PLAYER && depot_ready,
        p is Building ==> depot_ready,
{
    match item {
        Some(BuildOrderItem::Unit(kind)) => {
            if unit_order_allowed(resources, item_cost, supply) && depot_ready {
                Production::Unit(kind)
            } else {
                Production::Idle
            }
        },
        Some(BuildOrderItem::Building(kind)) => {
            if resources >= item_cost && depot_ready {
                Production::Building(kind)
            } else {
                Production::Idle
            }
        },
        Some(_) => Production::Idle,
        None => match fallback {
            Some(kind) => {
                if unit_order_allowed(resources, fallback_cost, supply) && depot_ready {
                    Production::Unit(kind)
                } else {
                    Production::Idle
                }
            },
            None => Production::Idle,
        },
    }
}

/// Number of units sent scouting while holding: a third of the army when no
/// enemy is visible and at least five units stand at home.
pub fn hold_scouts(has_visible_enemies: bool, army: usize) -> (n: usize)
    ensures
        n == if !has_visible_enemies && army >= 5 {
            army / 3
        } else {
            0
        },
{
    if !has_visible_enemies && army >= 5 {
        army / 3
    } else {
        0
    }
}

/// Drops a destroyed entity from a player's unit list, keeping the order
/// of the others.
pub fn remove_unit(units: &mut Vec<u64>, dead: u64)
    ensures
        final(units)@ == old(units)@.filter(|x: u64| x != dead),
{
    let ghost before = units@;
    let ghost keep = |x: u64| x != dead;
    let mut kept: Vec<u64> = Vec::new();
    let mut i: usize = 0;
    while i < units.len()
        invariant
            units@ == before,
            before == old(units)@,
            keep == (|x: u64| x != dead),
            i <= before.len(),
            kept@ == before.subrange(0, i as int).filter(keep),
        decreases before.len() - i,
    {
        let ghost next = before.subrange(0, i + 1);
        proof {
            assert(next.drop_last() =~= before.subrange(0, i as int));
            assert(next.last() == before[i as int]);
            reveal(Seq::filter);
            assert(next.filter(keep) == if keep(next.last()) {
                next.drop_last().filter(keep).push(next.last())
            } else {
                next.drop_last().filter(keep)
            });
        }
        let u = units[i];
        let ghost old_kept = kept@;
        assert(keep(u) == (u != dead));
        assert(u == next.last());
        if u != dead {
            kept.push(u);
            assert(kept@ == old_kept.push(u));
        }
        assert(kept@ == next.filter(keep));
        i = i + 1;
    }
    assert(before.subrange(0, before.len() as int) =~= before);
    *units = kept;
}

/// `after` is `before` with one more `unit` recorded when `counted` (see
/// [`recorded_once`]), and `before` unchanged otherwise; a list without
/// repeated names keeps none.
pub open spec fn one_more_unit(after: Seq<(String, u32)>, before: Seq<(String, u32)>, counted: bool) -> bool {
    &&& if counted {
        recorded_once(after, before, "unit"@)
    } else {
        after == before
    }
    &&& names_distinct(before) ==> names_distinct(after)
    &&& total_count(after) == total_count(before) + if counted {
        1int
    } else {
        0int
    }
}

fn count_unit_if(counts: &mut Vec<(String, u32)>, counted: bool)
    requires
        counted ==> count_of(old(counts)@, "unit"@) < u32::MAX,
    ensures
        one_more_unit(final(counts)@, old(counts)@, counted),
{
    if counted {
        record_count(counts, "unit");
    }
}

/// Bookkeeping of one unit death: a side whose roster holds the dead unit
/// drops it from the roster (keeping the others in order) and counts a
/// loss, and the other side counts a kill, so losses and kills grow
/// alike.  Reports which rosters held it.
pub fn settle_death(
    dead: u64,
    units_a: &mut Vec<u64>,
    lost_a: &mut Vec<(String, u32)>,
    killed_a: &mut Vec<(String, u32)>,
    units_b: &mut Vec<u64>,
    lost_b: &mut Vec<(String, u32)>,
    killed_b: &mut Vec<(String, u32)>,
) -> (owners: (bool, bool))
    requires
        old(units_a)@.contains(dead) ==> count_of(old(lost_a)@, "unit"@) < u32::MAX && count_of(
            old(killed_b)@,
            "unit"@,
        ) < u32::MAX,
        old(units_b)@.contains(dead) ==> count_of(old(lost_b)@, "unit"@) < u32::MAX && count_of(
            old(killed_a)@,
            "unit"@,
        ) < u32::MAX,
    ensures
        owners == (old(units_a)@.contains(dead), old(units_b)@.contains(dead)),
        final(units_a)@ == old(units_a)@.filter(|x: u64| x != dead),
        final(units_b)@ == old(units_b)@.filter(|x: u64| x != dead),
        one_more_unit(final(lost_a)@, old(lost_a)@, owners.0),
        one_more_unit(final(killed_b)@, old(killed_b)@, owners.0),
        one_more_unit(final(lost_b)@, old(lost_b)@, owners.1),
        one_more_unit(final(killed_a)@, old(killed_a)@, owners.1),
        total_count(final(lost_a)@) + total_count(final(lost_b)@) - total_count(old(lost_a)@) - total_count(
            old(lost_b)@,
        ) == total_count(final(killed_a)@) + total_count(final(killed_b)@) - total_count(old(killed_a)@)
            - total_count(old(killed_b)@),
{
    let in_a = vec_contains(units_a, dead);
    let in_b = vec_contains(units_b, dead);
    remove_unit(units_a, dead);
    count_unit_if(lost_a, in_a);
    count_unit_if(killed_b, in_a);
    remove_unit(units_b, dead);
    count_unit_if(lost_b, in_b);
    count_unit_if(killed_a, in_b);
    (in_a, in_b)
}

fn vec_contains(v: &Vec<u64>, x: u64) -> (b: bool)
    ensures
        b == v@.contains(x),
{
    let mut k: usize = 0;
    while k < v.len()
        invariant
            k <= v@.len(),
            forall|j: int| 0 <= j < k ==> v@[j] != x,
        decreases v@.len() - k,
    {
        if v[k] == x {
            return true;
        }
        k = k + 1;
    }
    false
}

/// Largest representable squared distance; enemies this far away (or
/// farther) are never picked as nearest.
pub const FAR_AWAY: i64 = i64::MAX;

/// Index of the first visible enemy main base within reach, if any.
pub open spec fn first_depot_in_reach(is_depot: Seq<bool>, dist_sq: Seq<i64>, reach_sq: i64, n: int) -> Option<int>
    decreases n,
{
    if n <= 0 {
        None
    } else {
        match first_depot_in_reach(is_depot, dist_sq, reach_sq, n - 1) {
            Some(i) => Some(i),
            None => if is_depot[n - 1] && dist_sq[n - 1] <= reach_sq {
                Some(n - 1)
            } else {
                None
            },
        }
    }
}

/// Index of the first nearest enemy among the first `n` (strictly closer
/// than `FAR_AWAY`), if any.
pub open spec fn nearest_enemy(dist_sq: Seq<i64>, n: int) -> Option<int>
    decreases n,
{
    if n <= 0 {
        None
    } else {
        match nearest_enemy(dist_sq, n - 1) {
            Some(i) => if dist_sq[n - 1] < dist_sq[i] {
                Some(n - 1)
            } else {
                Some(i)
            },
            None => if dist_sq[n - 1] < FAR_AWAY {
                Some(n - 1)
            } else {
                None
            },
        }
    }
}

/// Target a unit is ordered to attack, as an index into the visible
/// enemies (`None`: no new order). An enemy main base within reach always
/// wins, unless the unit already attacks it; otherwise a unit that needs a
/// target attacks the nearest enemy.
pub open spec fn target_choice(
    enemy_ids: Seq<u64>,
    is_depot: Seq<bool>,
    dist_sq: Seq<i64>,
    reach_sq: i64,
    current_target: Option<u64>,
    needs_target: bool,
) -> Option<int> {
    let n = enemy_ids.len() as int;
    match first_depot_in_reach(is_depot, dist_sq, reach_sq, n) {
        Some(d) => if current_target == Some(enemy_ids[d]) {
            None
        } else {
            Some(d)
        },
        None => if needs_target {
            nearest_enemy(dist_sq, n)
        } else {
            None
        },
    }
}

/// An enemy main base is within reach at `j`.
pub open spec fn depot_in_reach(is_depot: Seq<bool>, dist_sq: Seq<i64>, reach_sq: i64, j: int) -> bool {
    is_depot[j] && dist_sq[j] <= reach_sq
}

/// The depot search finds the first enemy main base within reach, and
/// finds none exactly when no base is within reach.
proof fn lemma_depot_search(is_depot: Seq<bool>, dist_sq: Seq<i64>, reach_sq: i64, n: int)
    requires
        0 <= n <= is_depot.len(),
        n <= dist_sq.len(),
    ensures
        first_depot_in_reach(is_depot, dist_sq, reach_sq, n) matches Some(i) ==> {
            &&& 0 <= i < n
            &&& depot_in_reach(is_depot, dist_sq, reach_sq, i)
            &&& forall|j: int| 0 <= j < i ==> !#[trigger] depot_in_reach(is_depot, dist_sq, reach_sq, j)
        },
        first_depot_in_reach(is_depot, dist_sq, reach_sq, n) is None <==> forall|j: int|
            0 <= j < n ==> !#[trigger] depot_in_reach(is_depot, dist_sq, reach_sq, j),
    decreases n,
{
    if n > 0 {
        lemma_depot_search(is_depot, dist_sq, reach_sq, n - 1);
    }
    if let Some(i) = first_depot_in_reach(is_depot, dist_sq, reach_sq, n) {
        assert(depot_in_reach(is_depot, dist_sq, reach_sq, i));
    }
}

/// The nearest-enemy search finds a nearest enemy (the first of several
/// equally near), and finds none exactly when every enemy is at the
/// largest distance.
proof fn lemma_nearest_search(dist_sq: Seq<i64>, n: int)
    requires
        0 <= n <= dist_sq.len(),
    ensures
        nearest_enemy(dist_sq, n) matches Some(i) ==> {
            &&& 0 <= i < n
            &&& forall|j: int| 0 <= j < n ==> dist_sq[i] <= #[trigger] dist_sq[j]
            &&& forall|j: int| 0 <= j < i ==> dist_sq[i] < #[trigger] dist_sq[j]
        },
        nearest_enemy(dist_sq, n) is None <==> forall|j: int| 0 <= j < n ==> #[trigger] dist_sq[j] == FAR_AWAY,
    decreases n,
{
    if n > 0 {
        lemma_nearest_search(dist_sq, n - 1);
    }
}

/// How a unit picks its target, over every input: a visible enemy main
/// base within reach wins (the first one in order), and the unit is only
/// ordered there when it is not already attacking it; with no base within
/// reach, a unit that needs a target attacks a nearest enemy (the first of
/// several equally near), none only when every enemy is out of range of
/// measurement, and a unit that needs none gets no order.
pub proof fn lemma_target_choice(
    enemy_ids: Seq<u64>,
    is_depot: Seq<bool>,
    dist_sq: Seq<i64>,
    reach_sq: i64,
    current_target: Option<u64>,
    needs_target: bool,
)
    requires
        enemy_ids.len() == is_depot.len(),
        enemy_ids.len() == dist_sq.len(),
    ensures
        ({
            let n = enemy_ids.len() as int;
            let r = target_choice(enemy_ids, is_depot, dist_sq, reach_sq, current_target, needs_target);
            &&& forall|i: int|
                0 <= i < n && #[trigger] depot_in_reach(is_depot, dist_sq, reach_sq, i) && (forall|j: int|
                    0 <= j < i ==> !depot_in_reach(is_depot, dist_sq, reach_sq, j)) ==> r == if current_target
                    == Some(enemy_ids[i]) {
                    None::<int>
                } else {
                    Some(i)
                }
            &&& (forall|j: int| 0 <= j < n ==> !#[trigger] depot_in_reach(is_depot, dist_sq, reach_sq, j))
                ==> {
                &&& !needs_target ==> r is None
                &&& needs_target ==> (r is None <==> forall|j: int| 0 <= j < n ==> #[trigger] dist_sq[j] == FAR_AWAY)
                &&& needs_target ==> (r matches Some(i) ==> 0 <= i < n && (forall|j: int|
                    0 <= j < n ==> dist_sq[i] <= #[trigger] dist_sq[j]) && (forall|j: int|
                    0 <= j < i ==> dist_sq[i] < #[trigger] dist_sq[j]))
            }
        }),
{
    let n = enemy_ids.len() as int;
    lemma_depot_search(is_depot, dist_sq, reach_sq, n);
    lemma_nearest_search(dist_sq, n);
    assert forall|i: int|
        0 <= i < n && #[trigger] depot_in_reach(is_depot, dist_sq, reach_sq, i) && (forall|j: int|
            0 <= j < i ==> !depot_in_reach(is_depot, dist_sq, reach_sq, j)) implies target_choice(
        enemy_ids,
        is_depot,
        dist_sq,
        reach_sq,
        current_target,
        needs_target,
    ) == if current_target == Some(enemy_ids[i]) {
        None::<int>
    } else {
        Some(i)
    } by {
        match first_depot_in_reach(is_depot, dist_sq, reach_sq, n) {
            Some(d) => {
                if d < i {
                    assert(!depot_in_reach(is_depot, dist_sq, reach_sq, d));
                } else if d > i {
                    assert(!depot_in_reach(is_depot, dist_sq, reach_sq, i));
                }
            },
            None => {
                assert(!depot_in_reach(is_depot, dist_sq, reach_sq, i));
            },
        }
    }
}

proof fn lemma_depot_search_stable(is_depot: Seq<bool>, dist_sq: Seq<i64>, reach_sq: i64, m: int, n: int)
    requires
        0 <= m <= n,
        first_depot_in_reach(is_depot, dist_sq, reach_sq, m) is Some,
    ensures
        first_depot_in_reach(is_depot, dist_sq, reach_sq, n) == first_depot_in_reach(
            is_depot,
            dist_sq,
            reach_sq,
            m,
        ),
    decreases n - m,
{
    if m < n {
        lemma_depot_search_stable(is_depot, dist_sq, reach_sq, m, n - 1);
    }
}

proof fn lemma_nearest_in_range(dist_sq: Seq<i64>, n: int)
    ensures
        nearest_enemy(dist_sq, n) matches Some(i) ==> 0 <= i < n,
    decreases n,
{
    if n > 0 {
        lemma_nearest_in_range(dist_sq, n - 1);
    }
}

/// Chooses which visible enemy a unit attacks this tick (see
/// [`target_choice`]); distances are squared and in the engine's
/// fixed-point units.
pub fn choose_target(
    enemy_ids: &Vec<u64>,
    is_depot: &Vec<bool>,
    dist_sq: &Vec<i64>,
    reach_sq: i64,
    current_target: Option<u64>,
    needs_target: bool,
) -> (r: Option<usize>)
    requires
        enemy_ids.len() == is_depot.len(),
        enemy_ids.len() == dist_sq.len(),
    ensures
        r matches Some(i) ==> i < enemy_ids.len(),
        match r {
            Some(i) => target_choice(enemy_ids@, is_depot@, dist_sq@, reach_sq, current_target, needs_target)
                == Some(i as int),
            None => target_choice(enemy_ids@, is_depot@, dist_sq@, reach_sq, current_target, needs_target)
                is None,
        },
        forall|i: int|
            0 <= i < enemy_ids.len() && #[trigger] depot_in_reach(is_depot@, dist_sq@, reach_sq, i) && (
            forall|j: int| 0 <= j < i ==> !depot_in_reach(is_depot@, dist_sq@, reach_sq, j)) ==> r == if current_target
                == Some(enemy_ids@[i]) {
                None::<usize>
            } else {
                Some(i as usize)
            },
        (forall|j: int| 0 <= j < enemy_ids.len() ==> !#[trigger] depot_in_reach(is_depot@, dist_sq@, reach_sq, j))
            ==> {
            &&& !needs_target ==> r is None
            &&& needs_target ==> (r is None <==> forall|j: int|
                0 <= j < enemy_ids.len() ==> #[trigger] dist_sq@[j] == FAR_AWAY)
            &&& needs_target ==> (r matches Some(i) ==> (forall|j: int|
                0 <= j < enemy_ids.len() ==> dist_sq@[i as int] <= #[trigger] dist_sq@[j]) && (forall|j: int|
                0 <= j < i ==> dist_sq@[i as int] < #[trigger] dist_sq@[j]))
        },
{
    let r = search_target(enemy_ids, is_depot, dist_sq, reach_sq, current_target, needs_target);
    proof {
        lemma_target_choice(enemy_ids@, is_depot@, dist_sq@, reach_sq, current_target, needs_target);
    }
    r
}

/// The target search itself: the first enemy main base within reach, else
/// the first nearest enemy when a target is needed.
fn search_target(
    enemy_ids: &Vec<u64>,
    is_depot: &Vec<bool>,
    dist_sq: &Vec<i64>,
    reach_sq: i64,
    current_target: Option<u64>,
    needs_target: bool,
) -> (r: Option<usize>)
    requires
        enemy_ids.len() == is_depot.len(),
        enemy_ids.len() == dist_sq.len(),
    ensures
        r matches Some(i) ==> i < enemy_ids.len(),
        match r {
            Some(i) => target_choice(enemy_ids@, is_depot@, dist_sq@, reach_sq, current_target, needs_target)
                == Some(i as int),
            None => target_choice(enemy_ids@, is_depot@, dist_sq@, reach_sq, current_target, needs_target)
                is None,
        },
{
    let n = enemy_ids.len();
    let mut i: usize = 0;
    while i < n
        invariant
            n == enemy_ids@.len(),
            n == is_depot@.len(),
            n == dist_sq@.len(),
            i <= n,
            first_depot_in_reach(is_depot@, dist_sq@, reach_sq, i as int) is None,
        decreases n - i,
    {
        if is_depot[i] && dist_sq[i] <= reach_sq {
            proof {
                lemma_depot_search_stable(is_depot@, dist_sq@, reach_sq, i + 1, n as int);
            }
            if current_target == Some(enemy_ids[i]) {
                return None;
            }
            return Some(i);
        }
        i = i + 1;
    }
    if !needs_target {
        return None;
    }
    let mut best: Option<usize> = None;
    let mut best_dist: i64 = FAR_AWAY;
    let mut j: usize = 0;
    while j < n
        invariant
            n == dist_sq@.len(),
            j <= n,
            best == (match nearest_enemy(dist_sq@, j as int) {
                Some(k) => Some(k as usize),
                None => None::<usize>,
            }),
            nearest_enemy(dist_sq@, j as int) matches Some(k) ==> 0 <= k < j && best_dist
                == dist_sq@[k],
            nearest_enemy(dist_sq@, j as int) is None ==> best_dist == FAR_AWAY,
        decreases n - j,
    {
        proof {
            lemma_nearest_in_range(dist_sq@, j as int);
        }
        if dist_sq[j] < best_dist {
            best_dist = dist_sq[j];
            best = Some(j);
        }
        j = j + 1;
    }
    proof {
        lemma_nearest_in_range(dist_sq@, n as int);
    }
    best
}

/// Production candidate `i` may be chosen in continuous production
/// (harvesters are never picked there).
pub open spec fn production_candidate(names: Seq<String>, i: int) -> bool {
    names[i]@ != "harvester"@
}

/// Cheapest production candidate, as picked when the economy is tight: the
/// first non-harvester entry of least cost, or none when every entry is a
/// harvester.
pub fn cheapest_candidate(names: &Vec<String>, costs: &Vec<i64>) -> (r: Option<usize>)
    requires
        names.len() == costs.len(),
    ensures
        r is None <==> (forall|j: int|
            0 <= j < names.len() ==> !#[trigger] production_candidate(names@, j)),
        r matches Some(i) ==> {
            &&& i < names.len()
            &&& production_candidate(names@, i as int)
            &&& forall|j: int|
                0 <= j < names.len() && #[trigger] production_candidate(names@, j) ==> costs@[i as int]
                    <= costs@[j]
            &&& forall|j: int|
                0 <= j < i && #[trigger] production_candidate(names@, j) ==> costs@[j] > costs@[i as int]
        },
{
    let mut best: Option<usize> = None;
    let mut k: usize = 0;
    while k < names.len()
        invariant
            k <= names.len(),
            names.len() == costs.len(),
            best is None <==> (forall|j: int| 0 <= j < k ==> !#[trigger] production_candidate(names@, j)),
            best matches Some(i) ==> {
                &&& i < k
                &&& production_candidate(names@, i as int)
                &&& forall|j: int|
                    0 <= j < k && #[trigger] production_candidate(names@, j) ==> costs@[i as int]
                        <= costs@[j]
                &&& forall|j: int|
                    0 <= j < i && #[trigger] production_candidate(names@, j) ==> costs@[j]
                        > costs@[i as int]
            },
        decreases names.len() - k,
    {
        if !text_eq(names[k].as_str(), "harvester") {
            assert(production_candidate(names@, k as int));
            match best {
                None => {
                    best = Some(k);
                },
                Some(i) => {
                    if costs[k] < costs[i] {
                        best = Some(k);
                    }
                },
            }
        }
        k = k + 1;
    }
    best
}

/// Economy bookkeeping of one player over a match.
///
/// Resources change only by passive income, collected salvage and spending;
/// `wf` ties the balance to those three flows.
pub struct PlayerLedger {
    resources: i64,
    from_harvest: i64,
    from_salvage: i64,
    salvage_given: i64,
    damage_dealt: i64,
    damage_taken: i64,
    first_attack_tick: Option<u64>,
    peak_army_size: u32,
    starting: Ghost<int>,
    spent: Ghost<int>,
}

impl PlayerLedger {
    pub closed spec fn spec_resources(&self) -> int {
        self.resources as int
    }

    pub closed spec fn harvested(&self) -> int {
        self.from_harvest as int
    }

    pub closed spec fn salvaged(&self) -> int {
        self.from_salvage as int
    }

    pub closed spec fn given(&self) -> int {
        self.salvage_given as int
    }

    pub closed spec fn dealt(&self) -> int {
        self.damage_dealt as int
    }

    pub closed spec fn taken(&self) -> int {
        self.damage_taken as int
    }

    pub closed spec fn first_attack(&self) -> Option<u64> {
        self.first_attack_tick
    }

    pub closed spec fn peak_army(&self) -> u32 {
        self.peak_army_size
    }

    /// Resources the player started with.
    pub closed spec fn starting(&self) -> int {
        self.starting@
    }

    /// Resources spent on production and research so far.
    pub closed spec fn spent(&self) -> int {
        self.spent@
    }

    /// The balance equals the starting resources plus income minus spending,
    /// and every flow is non-negative.
    pub closed spec fn wf(&self) -> bool {
        &&& self.resources == self.starting@ + self.from_harvest + self.from_salvage - self.spent@
        &&& self.from_harvest >= 0
        &&& self.from_salvage >= 0
        &&& self.spent@ >= 0
        &&& self.salvage_given >= 0
    }

    /// A fresh ledger holding the starting resources.
    pub fn new(starting_resources: i64) -> (l: Self)
        ensures
            l.wf(),
            l.spec_resources() == starting_resources,
            l.starting() == starting_resources,
            l.harvested() == 0,
            l.salvaged() == 0,
            l.given() == 0,
            l.spent() == 0,
            l.dealt() == 0,
            l.taken() == 0,
            l.first_attack() is None,
            l.peak_army() == 0,
    {
        PlayerLedger {
            resources: starting_resources,
            from_harvest: 0,
            from_salvage: 0,
            salvage_given: 0,
            damage_dealt: 0,
            damage_taken: 0,
            first_attack_tick: None,
            peak_army_size: 0,
            starting: Ghost(starting_resources as int),
            spent: Ghost(0),
        }
    }

    /// Current resources.
    pub fn resources(&self) -> (r: i64)
        ensures
            r == self.spec_resources(),
    {
        self.resources
    }

    /// Passive income: one resource on every sixth tick.
    pub fn earn_passive_income(&mut self, tick: u64)
        requires
            old(self).wf(),
            tick % 6 == 0 ==> old(self).spec_resources() < i64::MAX,
            tick % 6 == 0 ==> old(self).harvested() < i64::MAX,
        ensures
            final(self).wf(),
            final(self).spec_resources() == old(self).spec_resources() + if tick % 6 == 0 {
                1int
            } else {
                0int
            },
            final(self).harvested() == old(self).harvested() + if tick % 6 == 0 {
                1int
            } else {
                0int
            },
            final(self).salvaged() == old(self).salvaged(),
            final(self).spent() == old(self).spent(),
            final(self).starting() == old(self).starting(),
            final(self).given() == old(self).given(),
            final(self).dealt() == old(self).dealt(),
            final(self).taken() == old(self).taken(),
            final(self).first_attack() == old(self).first_attack(),
            final(self).peak_army() == old(self).peak_army(),
    {
        if tick % 6 == 0 {
            self.resources = self.resources + 1;
            self.from_harvest = self.from_harvest + 1;
        }
    }

    /// Pays `cost` when the balance covers it; reports whether it did.
    pub fn try_spend(&mut self, cost: i64) -> (paid: bool)
        requires
            old(self).wf(),
            cost >= 0,
        ensures
            final(self).wf(),
            paid == (old(self).spec_resources() >= cost),
            final(self).spec_resources() == old(self).spec_resources() - if paid {
                cost as int
            } else {
                0int
            },
            final(self).spent() == old(self).spent() + if paid {
                cost as int
            } else {
                0int
            },
            final(self).harvested() == old(self).harvested(),
            final(self).salvaged() == old(self).salvaged(),
            final(self).starting() == old(self).starting(),
            final(self).given() == old(self).given(),
            final(self).dealt() == old(self).dealt(),
            final(self).taken() == old(self).taken(),
            final(self).first_attack() == old(self).first_attack(),
            final(self).peak_army() == old(self).peak_army(),
    {
        if self.resources >= cost {
            self.resources = self.resources - cost;
            self.spent = Ghost(self.spent@ + cost);
            true
        } else {
            false
        }
    }

    /// Adds resources collected from an enemy wreck.
    pub fn collect_salvage(&mut self, amount: i64)
        requires
            old(self).wf(),
            amount >= 0,
            old(self).spec_resources() + amount <= i64::MAX,
            old(self).salvaged() + amount <= i64::MAX,
        ensures
            final(self).wf(),
            final(self).spec_resources() == old(self).spec_resources() + amount,
            final(self).salvaged() == old(self).salvaged() + amount,
            final(self).harvested() == old(self).harvested(),
            final(self).spent() == old(self).spent(),
            final(self).starting() == old(self).starting(),
            final(self).given() == old(self).given(),
            final(self).dealt() == old(self).dealt(),
            final(self).taken() == old(self).taken(),
            final(self).first_attack() == old(self).first_attack(),
            final(self).peak_army() == old(self).peak_army(),
    {
        self.resources = self.resources + amount;
        self.from_salvage = self.from_salvage + amount;
    }

    /// Records salvage value left to the enemy by one of our fallen units.
    pub fn give_salvage(&mut self, value: i64)
        requires
            old(self).wf(),
            value >= 0,
            old(self).given() + value <= i64::MAX,
        ensures
            final(self).wf(),
            final(self).given() == old(self).given() + value,
            final(self).spec_resources() == old(self).spec_resources(),
            final(self).harvested() == old(self).harvested(),
            final(self).salvaged() == old(self).salvaged(),
            final(self).spent() == old(self).spent(),
            final(self).starting() == old(self).starting(),
            final(self).dealt() == old(self).dealt(),
            final(self).taken() == old(self).taken(),
            final(self).first_attack() == old(self).first_attack(),
            final(self).peak_army() == old(self).peak_army(),
    {
        self.salvage_given = self.salvage_given + value;
    }

    /// Adds damage dealt by this player's units.
    pub fn record_damage_dealt(&mut self, damage: i64)
        requires
            old(self).wf(),
            i64::MIN <= old(self).dealt() + damage <= i64::MAX,
        ensures
            final(self).wf(),
            final(self).dealt() == old(self).dealt() + damage,
            final(self).taken() == old(self).taken(),
            final(self).spec_resources() == old(self).spec_resources(),
            final(self).harvested() == old(self).harvested(),
            final(self).salvaged() == old(self).salvaged(),
            final(self).spent() == old(self).spent(),
            final(self).starting() == old(self).starting(),
            final(self).given() == old(self).given(),
            final(self).first_attack() == old(self).first_attack(),
            final(self).peak_army() == old(self).peak_army(),
    {
        self.damage_dealt = self.damage_dealt + damage;
    }

    /// Adds damage taken by this player's units.
    pub fn record_damage_taken(&mut self, damage: i64)
        requires
            old(self).wf(),
            i64::MIN <= old(self).taken() + damage <= i64::MAX,
        ensures
            final(self).wf(),
            final(self).taken() == old(self).taken() + damage,
            final(self).dealt() == old(self).dealt(),
            final(self).spec_resources() == old(self).spec_resources(),
            final(self).harvested() == old(self).harvested(),
            final(self).salvaged() == old(self).salvaged(),
            final(self).spent() == old(self).spent(),
            final(self).starting() == old(self).starting(),
            final(self).given() == old(self).given(),
            final(self).first_attack() == old(self).first_attack(),
            final(self).peak_army() == old(self).peak_army(),
    {
        self.damage_taken = self.damage_taken + damage;
    }

    /// Notes an attack order at `tick`; only the first one is kept.
    pub fn record_attack(&mut self, tick: u64)
        requires
            old(self).wf(),
        ensures
            final(self).wf(),
            final(self).first_attack() == if old(self).first_attack() is None {
                Some(tick)
            } else {
                old(self).first_attack()
            },
            final(self).spec_resources() == old(self).spec_resources(),
            final(self).harvested() == old(self).harvested(),
            final(self).salvaged() == old(self).salvaged(),
            final(self).spent() == old(self).spent(),
            final(self).starting() == old(self).starting(),
            final(self).given() == old(self).given(),
            final(self).dealt() == old(self).dealt(),
            final(self).taken() == old(self).taken(),
            final(self).peak_army() == old(self).peak_army(),
    {
        if self.first_attack_tick.is_none() {
            self.first_attack_tick = Some(tick);
        }
    }

    /// Update peak army size with the current number of units.
    pub fn update_peak_army(&mut self, army: usize)
        requires
            old(self).wf(),
        ensures
            final(self).wf(),
            final(self).peak_army() == if (army as u32) > old(self).peak_army() {
                army as u32
            } else {
                old(self).peak_army()
            },
            final(self).spec_resources() == old(self).spec_resources(),
            final(self).harvested() == old(self).harvested(),
            final(self).salvaged() == old(self).salvaged(),
            final(self).spent() == old(self).spent(),
            final(self).starting() == old(self).starting(),
            final(self).given() == old(self).given(),
            final(self).dealt() == old(self).dealt(),
            final(self).taken() == old(self).taken(),
            final(self).first_attack() == old(self).first_attack(),
    {
        let current = army as u32;
        if current > self.peak_army_size {
            self.peak_army_size = current;
        }
    }

    /// Tick of the first attack order, if any.
    pub fn first_attack_tick(&self) -> (t: Option<u64>)
        ensures
            t == self.first_attack(),
    {
        self.first_attack_tick
    }

    /// Largest army fielded so far.
    pub fn peak_army_size(&self) -> (p: u32)
        ensures
            p == self.peak_army(),
    {
        self.peak_army_size
    }

    /// Resources gained from passive income.
    pub fn resources_from_harvest(&self) -> (r: i64)
        ensures
            r == self.harvested(),
    {
        self.from_harvest
    }

    /// Resources gained from salvaging enemy wrecks.
    pub fn resources_from_salvage(&self) -> (r: i64)
        ensures
            r == self.salvaged(),
    {
        self.from_salvage
    }

    /// Salvage value left to the enemy.
    pub fn salvage_given_to_enemy(&self) -> (r: i64)
        ensures
            r == self.given(),
    {
        self.salvage_given
    }

    /// Total damage dealt.
    pub fn total_damage_dealt(&self) -> (r: i64)
        ensures
            r == self.dealt(),
    {
        self.damage_dealt
    }

    /// Total damage taken.
    pub fn total_damage_taken(&self) -> (r: i64)
        ensures
            r == self.taken(),
    {
        self.damage_taken
    }

    /// Final score: damage dealt minus damage taken plus resources held.
    pub fn final_score(&self) -> (s: i64)
        requires
            i64::MIN <= self.dealt() - self.taken() <= i64::MAX,
            i64::MIN <= self.dealt() - self.taken() + self.spec_resources() <= i64::MAX,
        ensures
            s == self.dealt() - self.taken() + self.spec_resources(),
    {
        self.damage_dealt - self.damage_taken + self.resources
    }

    /// Resources gathered from harvest and salvage together.
    pub fn total_resources_gathered(&self) -> (g: i64)
        requires
            self.wf(),
            self.harvested() + self.salvaged() <= i64::MAX,
        ensures
            g == self.harvested() + self.salvaged(),
    {
        self.from_harvest + self.from_salvage
    }

    /// Salvage collected minus salvage given away.
    pub fn net_salvage_advantage(&self) -> (n: i64)
        requires
            self.wf(),
        ensures
            n == self.salvaged() - self.given(),
    {
        self.from_salvage - self.salvage_given
    }
}

/// Resources are conserved: the balance is always the starting resources
/// plus passive income plus collected salvage minus everything spent.
pub proof fn lemma_resources_balance(l: PlayerLedger)
    requires
        l.wf(),
    ensures
        l.spec_resources() == l.starting() + l.harvested() + l.salvaged() - l.spent(),
        l.spent() >= 0,
{
}

} // verus!
