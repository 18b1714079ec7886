//! Army arithmetic for balance testing: what a composition costs, how much
//! supply and health it brings, and how many attacks one unit type needs to
//! bring down another.

use vstd::prelude::*;

verus! {

/// Unit composition for a battle.
#[derive(Debug, Clone, Copy)]
pub struct ArmyComposition {
    /// Number of infantry units.
    pub infantry: u32,
    /// Number of ranger units.
    pub rangers: u32,
    /// Number of harvesters.
    pub harvesters: u32,
}

impl Default for ArmyComposition {
    fn default() -> (a: Self)
        ensures
            a.infantry == 0,
            a.rangers == 0,
            a.harvesters == 0,
    {
        ArmyComposition { infantry: 0, rangers: 0, harvesters: 0 }
    }
}

/// Resource cost of an army: 50 per infantry, 75 per ranger, 100 per
/// harvester.
pub open spec fn army_cost(a: ArmyComposition) -> int {
    a.infantry * 50 + a.rangers * 75 + a.harvesters * 100
}

/// Supply of an army: 1 per infantry, 2 per ranger or harvester.
pub open spec fn army_supply(a: ArmyComposition) -> int {
    a.infantry + a.rangers * 2 + a.harvesters * 2
}

/// Hit points of an army: 100 per infantry, 75 per ranger, 80 per
/// harvester.
pub open spec fn army_hp(a: ArmyComposition) -> int {
    a.infantry * 100 + a.rangers * 75 + a.harvesters * 80
}

/// What each unit adds to an army's cost, supply and hit points, over
/// every army: an infantry unit costs 50, takes 1 supply and brings 100
/// hit points; a ranger 75, 2 and 75; a harvester 100, 2 and 80; an empty
/// army has none of them.
pub proof fn lemma_unit_contributions(a: ArmyComposition)
    ensures
        army_cost(ArmyComposition { infantry: 0, rangers: 0, harvesters: 0 }) == 0,
        army_supply(ArmyComposition { infantry: 0, rangers: 0, harvesters: 0 }) == 0,
        army_hp(ArmyComposition { infantry: 0, rangers: 0, harvesters: 0 }) == 0,
        a.infantry < u32::MAX ==> {
            let b = ArmyComposition { infantry: (a.infantry + 1) as u32, ..a };
            &&& army_cost(b) == army_cost(a) + 50
            &&& army_supply(b) == army_supply(a) + 1
            &&& army_hp(b) == army_hp(a) + 100
        },
        a.rangers < u32::MAX ==> {
            let b = ArmyComposition { rangers: (a.rangers + 1) as u32, ..a };
            &&& army_cost(b) == army_cost(a) + 75
            &&& army_supply(b) == army_supply(a) + 2
            &&& army_hp(b) == army_hp(a) + 75
        },
        a.harvesters < u32::MAX ==> {
            let b = ArmyComposition { harvesters: (a.harvesters + 1) as u32, ..a };
            &&& army_cost(b) == army_cost(a) + 100
            &&& army_supply(b) == army_supply(a) + 2
            &&& army_hp(b) == army_hp(a) + 80
        },
{
}

impl ArmyComposition {
    /// Create a new army composition.
    pub fn new(infantry: u32, rangers: u32, harvesters: u32) -> (a: Self)
        ensures
            a.infantry == infantry,
            a.rangers == rangers,
            a.harvesters == harvesters,
    {
        ArmyComposition { infantry, rangers, harvesters }
    }

    /// Calculate total resource cost of army.
    pub fn total_cost(&self) -> (c: i32)
        requires
            army_cost(*self) <= i32::MAX,
        ensures
            c == army_cost(*self),
    {
        (self.infantry as i32 * 50) + (self.rangers as i32 * 75) + (self.harvesters as i32 * 100)
    }

    /// Calculate total supply used.
    pub fn total_supply(&self) -> (s: i32)
        requires
            army_supply(*self) <= i32::MAX,
        ensures
            s == army_supply(*self),
    {
        self.infantry as i32 + (self.rangers as i32 * 2) + (self.harvesters as i32 * 2)
    }

    /// Calculate total HP of army.
    pub fn total_hp(&self) -> (h: i32)
        requires
            army_hp(*self) <= i32::MAX,
        ensures
            h == army_hp(*self),
    {
        (self.infantry as i32 * 100) + (self.rangers as i32 * 75) + (self.harvesters as i32 * 80)
    }

    /// Theoretical damage per second of the army; harvesters do not count
    /// as fighters.
    pub fn total_dps(&self) -> (d: u64)
        ensures
            d == (self.infantry + self.rangers) * DPS_PER_UNIT,
    {
        (self.infantry as u64 + self.rangers as u64) * DPS_PER_UNIT
    }
}

/// Unit type for matchup testing.
#[derive(Debug, Clone, Copy, PartialEq, Eq, Hash, Structural)]
pub enum UnitType {
    /// Basic melee combat unit.
    Infantry,
    /// Ranged combat unit with lower HP.
    Ranger,
    /// Economic unit, weak in combat.
    Harvester,
}

/// (health, damage, armor, attack range, cost) of each unit type.
pub open spec fn profile_of(u: UnitType) -> (i32, i32, i32, i32, i32) {
    match u {
        UnitType::Infantry => (100, 15, 0, 50, 50),
        UnitType::Ranger => (75, 15, 0, 150, 75),
        UnitType::Harvester => (80, 5, 0, 30, 100),
    }
}

/// Seconds between two attacks of any unit.
pub const ATTACK_COOLDOWN_SECS: i32 = 1;

/// Damage per second of one fighting unit (its damage over the cooldown).
pub const DPS_PER_UNIT: u64 = 15;

/// Attacks an attacker of type `a` needs to destroy a target of type `t`:
/// the target's health divided by the damage that gets through its armor
/// (at least 1), rounded up.
pub open spec fn attacks_needed(a: UnitType, t: UnitType) -> int {
    let damage = profile_of(a).1 - profile_of(t).2;
    let per_hit: int = if damage < 1 {
        1
    } else {
        damage as int
    };
    (profile_of(t).0 + per_hit - 1) / per_hit
}

/// Seconds an attacker of type `a` needs to kill a target of type `t` one
/// on one.
pub open spec fn ttk_secs(a: UnitType, t: UnitType) -> int {
    attacks_needed(a, t) * ATTACK_COOLDOWN_SECS
}

/// Cost efficiency of `a` against `t` as a fraction: how much longer the
/// target needs to kill `a` than `a` needs to kill it, scaled by how much
/// more the target costs, i.e. `(ttk(t, a) / ttk(a, t)) * (cost(t) / cost(a))`.
pub open spec fn efficiency_fraction(a: UnitType, t: UnitType) -> (int, int) {
    (ttk_secs(t, a) * profile_of(t).4, ttk_secs(a, t) * profile_of(a).4)
}

/// Unit type at position `i` of the matchup tables (infantry, ranger,
/// harvester).
pub open spec fn matchup_unit(i: int) -> UnitType {
    if i == 0 {
        UnitType::Infantry
    } else if i == 1 {
        UnitType::Ranger
    } else {
        UnitType::Harvester
    }
}

proof fn lemma_attacks_bounds(a: UnitType, t: UnitType)
    ensures
        1 <= attacks_needed(a, t) <= 20,
{
    assert(114int / 15int == 7) by (nonlinear_arith);
    assert(attacks_needed(UnitType::Infantry, UnitType::Infantry) == 7);
    assert(89int / 15int == 5) by (nonlinear_arith);
    assert(attacks_needed(UnitType::Infantry, UnitType::Ranger) == 5);
    assert(94int / 15int == 6) by (nonlinear_arith);
    assert(attacks_needed(UnitType::Infantry, UnitType::Harvester) == 6);
    assert(attacks_needed(UnitType::Ranger, UnitType::Infantry) == 7);
    assert(attacks_needed(UnitType::Ranger, UnitType::Ranger) == 5);
    assert(attacks_needed(UnitType::Ranger, UnitType::Harvester) == 6);
    assert(104int / 5int == 20) by (nonlinear_arith);
    assert(attacks_needed(UnitType::Harvester, UnitType::Infantry) == 20);
    assert(79int / 5int == 15) by (nonlinear_arith);
    assert(attacks_needed(UnitType::Harvester, UnitType::Ranger) == 15);
    assert(84int / 5int == 16) by (nonlinear_arith);
    assert(attacks_needed(UnitType::Harvester, UnitType::Harvester) == 16);
}

fn unit_at(i: usize) -> (u: UnitType)
    requires
        i < 3,
    ensures
        u == matchup_unit(i as int),
{
    if i == 0 {
        UnitType::Infantry
    } else if i == 1 {
        UnitType::Ranger
    } else {
        UnitType::Harvester
    }
}

impl UnitType {
    /// Unit stats: (health, damage, armor, attack range, cost).
    pub fn stats(&self) -> (s: (i32, i32, i32, i32, i32))
        ensures
            s == profile_of(*self),
    {
        match self {
            UnitType::Infantry => (100, 15, 0, 50, 50),
            UnitType::Ranger => (75, 15, 0, 150, 75),
            UnitType::Harvester => (80, 5, 0, 30, 100),
        }
    }

    /// Attacks needed to kill a unit of type `target` one on one.
    pub fn attacks_to_kill(&self, target: UnitType) -> (n: i32)
        ensures
            n == attacks_needed(*self, target),
            n >= 1,
    {
        let (_, my_damage, _, _, _) = self.stats();
        let (target_hp, _, target_armor, _, _) = target.stats();
        let raw = my_damage - target_armor;
        let per_hit = if raw < 1 {
            1
        } else {
            raw
        };
        (target_hp + per_hit - 1) / per_hit
    }

    /// Time, in seconds, to kill a unit of type `target` one on one.
    pub fn time_to_kill(&self, target: UnitType) -> (t: i32)
        ensures
            t == ttk_secs(*self, target),
            t >= 1,
    {
        proof {
            lemma_attacks_bounds(*self, target);
        }
        self.attacks_to_kill(target) * ATTACK_COOLDOWN_SECS
    }

    /// Cost efficiency against `target`, as the exact fraction
    /// `(numerator, denominator)` of [`efficiency_fraction`]: above one
    /// means this unit trades favourably.
    pub fn cost_efficiency_vs(&self, target: UnitType) -> (r: (i32, i32))
        ensures
            (r.0 as int, r.1 as int) == efficiency_fraction(*self, target),
            r.1 > 0,
    {
        let (_, _, _, _, my_cost) = self.stats();
        let (_, _, _, _, target_cost) = target.stats();
        proof {
            lemma_attacks_bounds(*self, target);
            lemma_attacks_bounds(target, *self);
        }
        let my_ttk = self.time_to_kill(target);
        let their_ttk = target.time_to_kill(*self);
        assert(0 < my_ttk * my_cost <= 2000) by (nonlinear_arith)
            requires
                1 <= my_ttk <= 20,
                50 <= my_cost <= 100,
        ;
        assert(0 < their_ttk * target_cost <= 2000) by (nonlinear_arith)
            requires
                1 <= their_ttk <= 20,
                50 <= target_cost <= 100,
        ;
        (their_ttk * target_cost, my_ttk * my_cost)
    }
}

/// Time-to-kill table of every matchup: entry `3 * a + d` is attacker `a`
/// against defender `d`, in the order infantry, ranger, harvester.
pub fn generate_ttk_matrix() -> (m: Vec<(UnitType, UnitType, i32)>)
    ensures
        m.len() == 9,
        forall|k: int|
            0 <= k < 9 ==> {
                let (a, d) = (matchup_unit(k / 3), matchup_unit(k % 3));
                #[trigger] m[k] == (a, d, ttk_secs(a, d) as i32)
            },
{
    let mut m: Vec<(UnitType, UnitType, i32)> = Vec::new();
    let mut k: usize = 0;
    while k < 9
        invariant
            k <= 9,
            m.len() == k,
            forall|j: int|
                0 <= j < k ==> {
                    let (a, d) = (matchup_unit(j / 3), matchup_unit(j % 3));
                    #[trigger] m[j] == (a, d, ttk_secs(a, d) as i32)
                },
        decreases 9 - k,
    {
        let attacker = unit_at(k / 3);
        let defender = unit_at(k % 3);
        let t = attacker.time_to_kill(defender);
        m.push((attacker, defender, t));
        k = k + 1;
    }
    m
}

} // verus!
