use rts_headless::game_runner::{plan_production, settle_death, Production};
use rts_headless::strategies::BuildOrderItem;
use rts_headless::game_runner::remove_unit;
use rts_headless::game_runner::choose_target;
use rts_headless::game_runner::{
    cheapest_candidate, depot_verdict, fallback_building_health, fallback_unit_stats,
    get_building_cost, get_unit_cost, hold_scouts, is_battleline_kind, is_depot_building,
    research_step, salvage_collected, salvage_rate_for_tier, salvage_value, spawn_offset,
    unit_order_allowed, unit_tier_from_kind, wreck_active, DepotVerdict, GameRunner,
    PlayerLedger, Side, SimpleRng,
};

#[test]
fn game_runner_defaults() {
    assert_eq!(GameRunner::new().default_max_ticks, 36000);
    assert_eq!(GameRunner::default().default_max_ticks, 0);
    let r = GameRunner::new();
    assert_eq!(r.effective_max_ticks(0), 36000);
    assert_eq!(r.effective_max_ticks(500), 500);
}

#[test]
fn unit_and_building_costs() {
    assert_eq!(get_unit_cost("infantry"), 50);
    assert_eq!(get_unit_cost("security_team"), 50);
    assert_eq!(get_unit_cost("tank"), 300);
    assert_eq!(get_unit_cost("sovereign_platform"), 800);
    assert_eq!(get_unit_cost("unknown"), 75);
    assert_eq!(get_building_cost("barracks"), 150);
    assert_eq!(get_building_cost("walker_facility"), 350);
    assert_eq!(get_building_cost("nothing"), 200);
}

#[test]
fn fallback_tables() {
    let t = fallback_unit_stats("guardian_mech");
    assert_eq!((t.health, t.damage, t.range, t.speed), (500, 45, 70, 5));
    let h = fallback_unit_stats("harvester");
    assert_eq!(h.damage, 0);
    let d = fallback_unit_stats("whatever");
    assert_eq!((d.health, d.damage, d.range, d.speed), (100, 12, 60, 10));
    assert_eq!(fallback_building_health("administration_center"), 1500);
    assert_eq!(fallback_building_health("air_operations"), 700);
    assert!(is_depot_building("depot"));
    assert!(!is_depot_building("barracks"));
}

#[test]
fn salvage_rules() {
    assert_eq!(salvage_rate_for_tier(1), 1);
    assert_eq!(salvage_rate_for_tier(2), 2);
    assert_eq!(salvage_rate_for_tier(3), 4);
    assert_eq!(salvage_rate_for_tier(9), 1);
    assert_eq!(salvage_collected(3, false, 100), 4);
    assert_eq!(salvage_collected(3, true, 100), 2);
    assert_eq!(salvage_collected(1, true, 100), 1);
    assert_eq!(salvage_collected(3, false, 3), 3);
    assert_eq!(salvage_value(300), 75);
    assert_eq!(salvage_value(75), 18);
    assert!(wreck_active(1099, 500));
    assert!(!wreck_active(1100, 500));
}

#[test]
fn battleline_and_tiers() {
    assert!(is_battleline_kind("Security_Team"));
    assert!(is_battleline_kind("tank"));
    assert!(!is_battleline_kind("harvester"));
    assert!(!is_battleline_kind("collection_vehicle"));
    assert!(!is_battleline_kind("scout"));
    assert_eq!(unit_tier_from_kind("Sovereign_Platform"), 3);
    assert_eq!(unit_tier_from_kind("guardian_mech"), 2);
    assert_eq!(unit_tier_from_kind("infantry"), 1);
}

#[test]
fn simple_rng_is_xorshift() {
    let mut rng = SimpleRng::new(0);
    assert_eq!(rng.next(), 1082269761);
    assert_eq!(rng.next(), 1152992998833853505);
    let mut a = SimpleRng::new(12345);
    let mut b = SimpleRng::new(12345);
    for _ in 0..50 {
        assert_eq!(a.next(), b.next());
    }
    let mut stuck = SimpleRng::new(u64::MAX);
    assert_eq!(stuck.next(), 0);
}

#[test]
fn spawn_offsets() {
    assert_eq!(spawn_offset(0, 50), -25);
    assert_eq!(spawn_offset(49, 50), 24);
    assert_eq!(spawn_offset(150, 100), 0);
    assert_eq!(spawn_offset(100, 100), -50);
}

#[test]
fn depot_victory() {
    assert_eq!(depot_verdict(true, true), DepotVerdict::Ongoing);
    assert_eq!(depot_verdict(false, true), DepotVerdict::Won(Side::Collegium));
    assert_eq!(depot_verdict(true, false), DepotVerdict::Won(Side::Continuity));
    assert_eq!(depot_verdict(false, false), DepotVerdict::Draw);
}

#[test]
fn research_and_orders() {
    assert_eq!(research_step(3), (2, false));
    assert_eq!(research_step(1), (0, true));
    assert_eq!(research_step(0), (0, false));
    assert!(unit_order_allowed(100, 50, 199));
    assert!(!unit_order_allowed(100, 50, 200));
    assert!(!unit_order_allowed(40, 50, 0));
    assert_eq!(hold_scouts(false, 9), 3);
    assert_eq!(hold_scouts(true, 9), 0);
    assert_eq!(hold_scouts(false, 4), 0);
}

#[test]
fn cheapest_candidate_picks_first_minimum() {
    let names = vec![
        "harvester".to_string(),
        "tank".to_string(),
        "infantry".to_string(),
        "security_team".to_string(),
    ];
    let costs = vec![10, 300, 50, 50];
    assert_eq!(cheapest_candidate(&names, &costs), Some(2));
    let only = vec!["harvester".to_string()];
    assert_eq!(cheapest_candidate(&only, &vec![1]), None);
}

#[test]
fn ledger_balances() {
    let mut l = PlayerLedger::new(1000);
    assert!(l.try_spend(300));
    assert!(!l.try_spend(800));
    assert_eq!(l.resources(), 700);
    l.earn_passive_income(6);
    l.earn_passive_income(7);
    l.collect_salvage(4);
    assert_eq!(l.resources(), 705);
    assert_eq!(l.resources_from_harvest(), 1);
    assert_eq!(l.resources_from_salvage(), 4);
    assert_eq!(l.total_resources_gathered(), 5);
    l.give_salvage(10);
    assert_eq!(l.net_salvage_advantage(), -6);
    l.record_damage_dealt(40);
    l.record_damage_taken(15);
    assert_eq!(l.final_score(), 40 - 15 + 705);
    l.record_attack(120);
    l.record_attack(300);
    assert_eq!(l.first_attack_tick(), Some(120));
    l.update_peak_army(7);
    l.update_peak_army(3);
    assert_eq!(l.peak_army_size(), 7);
}

#[test]
fn dead_units_removed() {
    let mut units = vec![4, 7, 4, 9];
    remove_unit(&mut units, 4);
    assert_eq!(units, vec![7, 9]);
    remove_unit(&mut units, 100);
    assert_eq!(units, vec![7, 9]);
}

#[test]
fn depot_in_reach_wins_target_choice() {
    let ids = vec![10u64, 11, 12];
    let depot = vec![false, true, true];
    let dist = vec![4i64, 50, 9];
    // first depot within reach (index 2) beats the nearer plain unit
    assert_eq!(choose_target(&ids, &depot, &dist, 20, None, false), Some(2));
    // already attacking that depot: no new order
    assert_eq!(choose_target(&ids, &depot, &dist, 20, Some(12), true), None);
    // both depots within a larger reach: the first one is picked
    assert_eq!(choose_target(&ids, &depot, &dist, 100, Some(10), false), Some(1));
}

#[test]
fn nearest_enemy_when_no_depot_in_reach() {
    let ids = vec![1u64, 2, 3, 4];
    let depot = vec![false, false, true, false];
    let dist = vec![30i64, 7, 100, 7];
    assert_eq!(choose_target(&ids, &depot, &dist, 50, None, true), Some(1));
    assert_eq!(choose_target(&ids, &depot, &dist, 50, None, false), None);
    let empty: Vec<u64> = Vec::new();
    assert_eq!(choose_target(&empty, &Vec::new(), &Vec::new(), 50, None, true), None);
}

#[test]
fn production_plans() {
    let unit = || Some(BuildOrderItem::Unit("infantry".to_string()));
    assert_eq!(plan_production(unit(), 50, None, 0, 100, 10, true), Production::Unit("infantry".to_string()));
    // supply cap reached, too poor, or no depot: nothing
    assert_eq!(plan_production(unit(), 50, None, 0, 100, 200, true), Production::Idle);
    assert_eq!(plan_production(unit(), 50, None, 0, 40, 10, true), Production::Idle);
    assert_eq!(plan_production(unit(), 50, None, 0, 100, 10, false), Production::Idle);
    let building = Some(BuildOrderItem::Building("barracks".to_string()));
    assert_eq!(plan_production(building, 150, None, 0, 150, 200, true), Production::Building("barracks".to_string()));
    assert_eq!(plan_production(Some(BuildOrderItem::WaitForTick(5)), 0, None, 0, 999, 0, true), Production::Idle);
    assert_eq!(
        plan_production(None, 0, Some("ranger".to_string()), 75, 80, 3, true),
        Production::Unit("ranger".to_string())
    );
    assert_eq!(plan_production(None, 0, Some("ranger".to_string()), 75, 70, 3, true), Production::Idle);
    assert_eq!(plan_production(None, 0, None, 0, 999, 0, true), Production::Idle);
}

#[test]
fn deaths_count_for_both_sides() {
    let mut units_a = vec![1u64, 2, 3];
    let mut units_b = vec![7u64, 8];
    let (mut lost_a, mut killed_a, mut lost_b, mut killed_b) = (Vec::new(), Vec::new(), Vec::new(), Vec::new());
    let owners = settle_death(2, &mut units_a, &mut lost_a, &mut killed_a, &mut units_b, &mut lost_b, &mut killed_b);
    assert_eq!(owners, (true, false));
    assert_eq!(units_a, vec![1, 3]);
    assert_eq!(units_b, vec![7, 8]);
    assert_eq!(lost_a, vec![("unit".to_string(), 1)]);
    assert_eq!(killed_b, vec![("unit".to_string(), 1)]);
    assert!(killed_a.is_empty() && lost_b.is_empty());
    let owners = settle_death(8, &mut units_a, &mut lost_a, &mut killed_a, &mut units_b, &mut lost_b, &mut killed_b);
    assert_eq!(owners, (false, true));
    assert_eq!(killed_a, vec![("unit".to_string(), 1)]);
    // a building or an unknown entity changes nothing
    let owners = settle_death(99, &mut units_a, &mut lost_a, &mut killed_a, &mut units_b, &mut lost_b, &mut killed_b);
    assert_eq!(owners, (false, false));
    assert_eq!(lost_a, vec![("unit".to_string(), 1)]);
}
