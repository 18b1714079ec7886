use rts_headless::balance::{generate_ttk_matrix, ArmyComposition, UnitType};

#[test]
fn test_army_composition_cost() {
    let army = ArmyComposition::new(5, 3, 2);
    // 5*50 + 3*75 + 2*100 = 250 + 225 + 200 = 675
    assert_eq!(army.total_cost(), 675);
}

#[test]
fn test_army_composition_supply() {
    let army = ArmyComposition::new(5, 3, 2);
    // 5*1 + 3*2 + 2*2 = 5 + 6 + 4 = 15
    assert_eq!(army.total_supply(), 15);
}

#[test]
fn army_hp_and_default() {
    assert_eq!(ArmyComposition::new(5, 3, 2).total_hp(), 500 + 225 + 160);
    let empty = ArmyComposition::default();
    assert_eq!(empty.total_cost(), 0);
    assert_eq!(empty.total_supply(), 0);
}

#[test]
fn attacks_to_kill_matches_ttk_table() {
    // 100 HP / 15 damage, rounded up
    assert_eq!(UnitType::Infantry.attacks_to_kill(UnitType::Infantry), 7);
    assert_eq!(UnitType::Infantry.attacks_to_kill(UnitType::Ranger), 5);
    assert_eq!(UnitType::Harvester.attacks_to_kill(UnitType::Infantry), 20);
    assert_eq!(UnitType::Ranger.stats().3, 150);
}

#[test]
fn test_infantry_ttk_matrix() {
    let matrix = generate_ttk_matrix();

    // Infantry vs Infantry: 100 HP / 15 damage = 7 attacks = 7 seconds
    let inf_v_inf = matrix
        .iter()
        .find(|(a, d, _)| *a == UnitType::Infantry && *d == UnitType::Infantry)
        .map(|(_, _, ttk)| *ttk)
        .unwrap();
    assert_eq!(inf_v_inf, 7);

    // Infantry vs Ranger: 75 HP / 15 damage = 5 attacks = 5 seconds
    let inf_v_rang = matrix
        .iter()
        .find(|(a, d, _)| *a == UnitType::Infantry && *d == UnitType::Ranger)
        .map(|(_, _, ttk)| *ttk)
        .unwrap();
    assert_eq!(inf_v_rang, 5);
}

#[test]
fn test_ranger_has_range_advantage() {
    let (_, _, _, inf_range, _) = UnitType::Infantry.stats();
    let (_, _, _, rang_range, _) = UnitType::Ranger.stats();

    assert!(
        rang_range > inf_range * 2,
        "Rangers should outrange infantry significantly"
    );
}

#[test]
fn test_infantry_is_cost_efficient() {
    // Infantry should be reasonably cost efficient vs rangers
    let (num, den) = UnitType::Infantry.cost_efficiency_vs(UnitType::Ranger);
    let efficiency = num as f32 / den as f32;

    // Infantry costs 50, kills ranger in 5s
    // Ranger costs 75, kills infantry in 7s
    // Efficiency = (7/5) * (75/50) = 1.4 * 1.5 = 2.1
    assert!(
        efficiency > 1.0,
        "Infantry should be cost efficient vs rangers in straight fight"
    );
}

#[test]
fn ttk_matrix_order_and_efficiency_fraction() {
    let m = generate_ttk_matrix();
    assert_eq!(m.len(), 9);
    assert_eq!(m[6], (UnitType::Harvester, UnitType::Infantry, 20));
    assert_eq!(m[8], (UnitType::Harvester, UnitType::Harvester, 16));
    assert_eq!(UnitType::Infantry.time_to_kill(UnitType::Harvester), 6);
    // (7 * 75) / (5 * 50)
    assert_eq!(UnitType::Infantry.cost_efficiency_vs(UnitType::Ranger), (525, 250));
    assert_eq!(ArmyComposition::new(5, 3, 2).total_dps(), 120);
}
