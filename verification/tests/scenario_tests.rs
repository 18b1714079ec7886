use rts_headless::scenario::{Scenario, UnitPlacement};

#[test]
fn test_default_scenario() {
    let scenario = Scenario::default();
    assert_eq!(scenario.factions.len(), 2);
    assert_eq!(scenario.factions[0].faction_id, "continuity");
    assert_eq!(scenario.factions[1].faction_id, "collegium");
}

#[test]
fn test_skirmish_scenario() {
    let scenario = Scenario::skirmish_1v1();
    assert_eq!(scenario.map_size, (512, 512));
    assert!(scenario.victory_conditions.elimination);
    assert_eq!(scenario.initial_resources.ore_nodes.len(), 5);
}

#[test]
fn unit_placement_new() {
    let p = UnitPlacement::new("harvester", 3, -4, 2);
    assert_eq!(p.kind, "harvester");
    assert_eq!(p.position, (3, -4));
    assert_eq!(p.count, 2);
}

#[test]
fn generated_layout_scenario() {
    let spawns = vec![(100, 200), (400, 300), (10, 10)];
    let resources = vec![(256, 256, 7000)];
    let s = Scenario::from_generated_layout(42, 768, 768, &spawns, &resources);
    assert_eq!(s.name, "Procedural Map (seed: 42)");
    assert_eq!(s.description, "768x768 procedurally generated map");
    assert_eq!(s.factions.len(), 2);
    assert_eq!(s.factions[1].faction_id, "collegium");
    assert_eq!(s.factions[0].starting_units[0].position, (116, 200));
    assert_eq!(s.factions[0].starting_units[1].position, (132, 200));
    assert_eq!(s.initial_resources.ore_nodes[0].amount, 7000);
    assert_eq!(s.victory_conditions.time_limit_ticks, Some(36000));
}
