use rts_headless::protocol::{default_tick_count, CommandKind, MatchStatsOutput};

#[test]
fn tick_count_defaults_to_one() {
    assert_eq!(default_tick_count(), 1);
}

#[test]
fn command_names() {
    assert_eq!(CommandKind::Tick.name(), "tick");
    assert_eq!(CommandKind::SpawnBuilding.name(), "spawn_building");
    assert_eq!(CommandKind::SetResources.name(), "set_resources");
    assert_eq!(CommandKind::LoadScenario.name(), "load_scenario");
    let s = MatchStatsOutput::default();
    assert_eq!(s.duration_ticks + s.units_produced as u64, 0);
}
