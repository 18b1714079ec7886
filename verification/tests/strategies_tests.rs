use rts_headless::strategies::{
    record_count, BuildOrderItem, EconomyTargets, StrategyExecutor, TacticalDecision,
};

fn executor(order: Vec<BuildOrderItem>, timing: u64, interval: u64) -> StrategyExecutor {
    StrategyExecutor::new(
        "Test".to_string(),
        order,
        timing,
        interval,
        EconomyTargets::default(),
        50,
        false,
    )
}

#[test]
fn executor_next_item_skips_met_waits() {
    let order = vec![
        BuildOrderItem::WaitForResources(500),
        BuildOrderItem::Unit("infantry".to_string()),
        BuildOrderItem::WaitForTick(100),
        BuildOrderItem::Building("barracks".to_string()),
    ];
    let mut ex = executor(order, 12000, 3000);
    let counts: Vec<(String, u32)> = Vec::new();
    assert!(ex.next_item(0, 100, &counts).is_none());
    assert!(matches!(ex.next_item(0, 1000, &counts), Some(BuildOrderItem::Unit(_))));
    assert!(ex.next_item(50, 1000, &counts).is_none());
    assert!(matches!(ex.next_item(100, 0, &counts), Some(BuildOrderItem::Building(_))));
    assert!(ex.next_item(100, 0, &counts).is_none());
    assert_eq!(ex.items_consumed(), 4);
}

#[test]
fn executor_should_attack_timing() {
    let mut ex = executor(Vec::new(), 100, 50);
    assert!(!ex.should_attack(50));
    assert!(ex.should_attack(100));
    assert!(!ex.should_attack(120));
    assert!(ex.should_attack(160));
}

#[test]
fn wait_for_units_uses_counts() {
    let order = vec![
        BuildOrderItem::WaitForUnits("infantry".to_string(), 2),
        BuildOrderItem::Unit("tank".to_string()),
    ];
    let mut ex = executor(order, 0, 0);
    let mut counts: Vec<(String, u32)> = Vec::new();
    record_count(&mut counts, "infantry");
    assert!(ex.next_item(0, 0, &counts).is_none());
    record_count(&mut counts, "infantry");
    record_count(&mut counts, "scout");
    assert_eq!(counts, vec![("infantry".to_string(), 2), ("scout".to_string(), 1)]);
    assert!(matches!(ex.next_item(0, 0, &counts), Some(BuildOrderItem::Unit(_))));
}

#[test]
fn tactical_decisions() {
    let ex = executor(Vec::new(), 1000, 500);
    assert_eq!(ex.decide_action(10, 50, 5, true), TacticalDecision::Defend);
    assert_eq!(ex.decide_action(10, 50, 5, false), TacticalDecision::Hold);
    let e = EconomyTargets::default();
    assert_eq!((e.target_harvesters, e.target_supply_depots, e.expand_at_resources), (2, 1, 2500));
}

#[test]
fn attack_needs_army_scaled_by_aggression() {
    // economic strategy: aggression 30 percent, first attack at tick 18000
    let ex = StrategyExecutor::new("Economic".to_string(), Vec::new(), 18000, 4800, EconomyTargets::default(), 30, false);
    assert_eq!(ex.decide_action(18000, 0, 10, false), TacticalDecision::Hold);
    assert_eq!(ex.decide_action(18000, 6, 10, false), TacticalDecision::Hold);
    assert_eq!(ex.decide_action(18000, 7, 10, false), TacticalDecision::Attack);
    assert_eq!(ex.decide_action(17999, 70, 10, false), TacticalDecision::Hold);
    // hyper-aggressive strategies attack with any army
    let all_in = StrategyExecutor::new("All-In".to_string(), Vec::new(), 5400, 600, EconomyTargets::default(), 100, true);
    assert_eq!(all_in.decide_action(5400, 0, 10, false), TacticalDecision::Attack);
}

#[test]
fn record_count_keeps_names_unique() {
    let mut counts: Vec<(String, u32)> = Vec::new();
    for kind in ["infantry", "ranger", "infantry", "infantry", "ranger", "scout"] {
        record_count(&mut counts, kind);
    }
    assert_eq!(
        counts,
        vec![("infantry".to_string(), 3), ("ranger".to_string(), 2), ("scout".to_string(), 1)]
    );
}
