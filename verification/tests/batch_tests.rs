use rts_headless::batch::{
    base_scenario, batch_max_ticks, game_duration_text, game_id, game_seed, runs_agree,
    strategy_preset, RunOutcome, StrategyPreset,
};
use rts_headless::metrics::tally_games;

#[test]
fn batch_game_lengths() {
    assert_eq!(batch_max_ticks(10, false, false), 36000);
    assert_eq!(batch_max_ticks(10, true, false), 18000);
    assert_eq!(batch_max_ticks(10, false, true), 216000);
    assert_eq!(game_duration_text(36000), "10 minutes");
    assert_eq!(game_duration_text(216000), "1 hour(s)");
    assert_eq!(game_duration_text(500000), "2 hour(s)");
}

#[test]
fn batch_scenarios_and_presets() {
    assert_eq!(base_scenario("skirmish_1v1").initial_resources.ore_nodes.len(), 5);
    assert_eq!(base_scenario("other").name, "Default Skirmish");
    assert_eq!(strategy_preset(Some("eco")), StrategyPreset::Economic);
    assert_eq!(strategy_preset(Some("all_in")), StrategyPreset::AllIn);
    assert_eq!(strategy_preset(Some("zerg")), StrategyPreset::Balanced);
    assert_eq!(strategy_preset(None), StrategyPreset::Balanced);
}

#[test]
fn batch_seeds_and_ids() {
    assert_eq!(game_seed(10, 5), 15);
    assert_eq!(game_seed(u64::MAX, 2), 1);
    assert_eq!(game_id(12345), "game_12345");
}

#[test]
fn repeated_runs_compared() {
    let a = RunOutcome { winner: Some("continuity".to_string()), duration_ticks: 500, win_condition: "elimination".to_string() };
    let b = a.clone();
    let c = RunOutcome { winner: None, duration_ticks: 500, win_condition: "timeout".to_string() };
    assert!(runs_agree(&vec![a.clone(), b]));
    assert!(!runs_agree(&vec![a, c]));
}

#[test]
fn batch_tally() {
    let durations = vec![100, 50, 300, 200];
    let winners = vec![
        Some("continuity".to_string()),
        None,
        Some("collegium".to_string()),
        Some("continuity".to_string()),
    ];
    let t = tally_games(&durations, &winners);
    assert_eq!(t.total_games, 4);
    assert_eq!(t.draws, 1);
    assert_eq!(t.duration_sum, 650);
    assert_eq!((t.min_duration_ticks, t.max_duration_ticks), (50, 300));
    assert_eq!(t.wins_by_faction, vec![("continuity".to_string(), 2), ("collegium".to_string(), 1)]);
    let empty = tally_games(&Vec::new(), &Vec::new());
    assert_eq!((empty.total_games, empty.min_duration_ticks, empty.max_duration_ticks), (0, 0, 0));
}

#[test]
fn tally_of_two_decided_games() {
    let t = tally_games(&vec![1000, 2000], &vec![Some("continuity".to_string()), Some("collegium".to_string())]);
    assert_eq!(t.total_games, 2);
    assert_eq!(t.draws, 0);
    assert_eq!(t.wins_by_faction, vec![("continuity".to_string(), 1), ("collegium".to_string(), 1)]);
    assert_eq!(t.duration_sum, 3000);
    assert_eq!((t.min_duration_ticks, t.max_duration_ticks), (1000, 2000));
    let wins: u32 = t.wins_by_faction.iter().map(|(_, n)| *n).sum();
    assert_eq!(wins + t.draws, t.total_games);
}
