use rts_headless::determinism::{
    find_first_divergence, first_divergence, verify_determinism, DeterminismResult, ParallelSimResult,
};
use rts_headless::faction_loader::{unit_for_role, FactionLoadError};
use rts_headless::fixtures::fixed;
use rts_headless::metrics::{EventType, TimedEvent};
use rts_headless::server::ServerConfig;

#[test]
fn determinism_of_a_pure_step() {
    let r = verify_determinism(3, 10, || 1u64, |s: &mut u64| *s = s.wrapping_mul(31).wrapping_add(7), |s: &u64| *s);
    assert!(r.is_deterministic);
    assert_eq!(r.hashes.len(), 3);
    assert_eq!(r.ticks, 10);
    r.assert_deterministic();
    let counted = verify_determinism(3, 100, || 0u64, |n: &mut u64| *n += 1, |n: &u64| *n);
    assert_eq!(counted.hashes, vec![100, 100, 100]);
}

#[test]
fn unique_hashes_sorted() {
    let r = DeterminismResult { is_deterministic: false, hashes: vec![5, 1, 5, 3], ticks: 1 };
    assert_eq!(r.unique_hashes(), vec![1, 3, 5]);
    let p = ParallelSimResult { hashes: vec![2, 2], ticks: 4, num_sims: 2 };
    assert!(p.is_deterministic());
    let q = ParallelSimResult { hashes: vec![2, 3], ticks: 4, num_sims: 2 };
    assert!(!q.is_deterministic());
}

#[test]
fn faction_error_messages() {
    let e = FactionLoadError::ParseError("a.ron".to_string(), "bad".to_string());
    assert_eq!(e.message(), "Parse error in 'a.ron': bad");
    assert_eq!(FactionLoadError::DirectoryNotFound("d".to_string()).message(), "Directory not found: d");
    assert_eq!(FactionLoadError::IoError("p".to_string(), "m".to_string()).message(), "IO error reading 'p': m");
}

#[test]
fn server_and_fixtures() {
    let c = ServerConfig::default();
    assert_eq!((c.port, c.max_players, c.tick_rate), (7777, 8, 60));
    assert_eq!(fixed(3).to_bits(), 3i64 << 32);
    let e = TimedEvent::new(5, EventType::UnitKilled, "continuity", "Unit 3 died");
    assert_eq!(e.tick, 5);
    assert_eq!(e.faction, "continuity");
}

#[test]
fn divergence_found_at_first_mismatch() {
    assert_eq!(first_divergence(&vec![1, 2, 3, 4], &vec![1, 2, 9, 5]), Some(2));
    assert_eq!(first_divergence(&vec![1, 2], &vec![1, 2]), None);
    assert_eq!(first_divergence(&vec![7], &vec![8]), Some(0));
    let r = find_first_divergence(|| 5u64, |s: &mut u64| *s = s.wrapping_mul(3), |s: &u64| *s, 20);
    assert_eq!(r, None);
    // a counter that is shared between the two runs makes them drift apart
    let runs = std::cell::Cell::new(0u64);
    let r = find_first_divergence(
        || {
            runs.set(runs.get() + 1);
            runs.get()
        },
        |s: &mut u64| *s += 2,
        |s: &u64| *s % 2,
        5,
    );
    assert_eq!(r, Some(0));
    let r = find_first_divergence(|| 0u64, |s: &mut u64| *s += 1, |s: &u64| (*s >= 3) as u64, 5);
    assert_eq!(r, None);
}

#[test]
fn role_pick_prefers_first_of_lowest_tier() {
    assert_eq!(unit_for_role(&vec![2, 1, 1, 3], &vec![true, true, true, false]), Some(1));
    assert_eq!(unit_for_role(&vec![2, 1, 0], &vec![true, true, false]), Some(1));
    assert_eq!(unit_for_role(&vec![2, 1], &vec![false, false]), None);
    assert_eq!(unit_for_role(&Vec::new(), &Vec::new()), None);
}
