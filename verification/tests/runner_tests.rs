use rts_headless::runner::{
    attack_verdict, building_template, order_error_message, order_verdict, spawn_faction,
    BuildingTemplate, EntityIdMap, HeadlessConfig, OrderVerdict, SpawnFaction,
};

#[test]
fn test_entity_id_map() {
    let map = EntityIdMap::default();
    assert_eq!(map.next_id(), 0);
}

#[test]
fn entity_ids_round_trip() {
    let mut map = EntityIdMap::new();
    let a = map.register(1000);
    let b = map.register(2000);
    assert_eq!((a, b), (0, 1));
    assert_eq!(map.register(1000), 0);
    assert_eq!(map.lookup(1), Some(2000));
    assert_eq!(map.lookup_external(1000), Some(0));
    map.remove(1000);
    assert_eq!(map.lookup(0), None);
    assert_eq!(map.lookup_external(1000), None);
    assert_eq!(map.register(1000), 2);
}

#[test]
fn command_choices() {
    assert_eq!(spawn_faction(None), SpawnFaction::Continuity);
    assert_eq!(spawn_faction(Some(1)), SpawnFaction::Collegium);
    assert_eq!(spawn_faction(Some(7)), SpawnFaction::Tinkers);
    assert_eq!(building_template("techlab"), BuildingTemplate::TechLab);
    assert_eq!(building_template("defense"), BuildingTemplate::Turret);
    assert_eq!(building_template("castle"), BuildingTemplate::Depot);
    let c = HeadlessConfig::default();
    assert!(!c.auto_state_output && c.scenario_path.is_none());
}

#[test]
fn order_verdicts_follow_check_order() {
    assert_eq!(order_verdict(false, false, false), OrderVerdict::EntityNotFound);
    assert_eq!(order_verdict(true, false, false), OrderVerdict::NotRegistered);
    assert_eq!(order_verdict(true, true, false), OrderVerdict::CoreUnavailable);
    assert_eq!(order_verdict(true, true, true), OrderVerdict::Issue);
    assert_eq!(attack_verdict(false, false, true, true), OrderVerdict::EntityNotFound);
    assert_eq!(attack_verdict(true, false, true, true), OrderVerdict::TargetNotFound);
    assert_eq!(attack_verdict(true, true, false, false), OrderVerdict::NotRegistered);
    assert_eq!(attack_verdict(true, true, true, false), OrderVerdict::CoreUnavailable);
    assert_eq!(attack_verdict(true, true, true, true), OrderVerdict::Issue);
}

#[test]
fn order_error_messages() {
    assert_eq!(order_error_message(OrderVerdict::Issue, 4, 0, false), None);
    assert_eq!(
        order_error_message(OrderVerdict::EntityNotFound, 42, 7, true).as_deref(),
        Some("Entity 42 not found")
    );
    assert_eq!(
        order_error_message(OrderVerdict::TargetNotFound, 42, 7, true).as_deref(),
        Some("Target 7 not found")
    );
    assert_eq!(
        order_error_message(OrderVerdict::NotRegistered, 3, 0, false).as_deref(),
        Some("Entity 3 not registered with core")
    );
    assert_eq!(
        order_error_message(OrderVerdict::NotRegistered, 3, 9, true).as_deref(),
        Some("Entities not registered with core")
    );
    assert_eq!(
        order_error_message(OrderVerdict::CoreUnavailable, 3, 9, false).as_deref(),
        Some("Core simulation not available")
    );
}
