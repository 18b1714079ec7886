use rts_headless::scenario::Scenario;
use rts_headless::spawn_generator::{
    clamp_spawn, dynamic_spawn_pattern, generate_corner_spawns, generate_cross_spawns,
    generate_dynamic_scenario,
    generate_horizontal_spawns, SpawnRng,
};

#[test]
fn test_rng_determinism() {
    let mut rng1 = SpawnRng::new(12345);
    let mut rng2 = SpawnRng::new(12345);

    for _ in 0..100 {
        assert_eq!(rng1.next(), rng2.next());
    }
}

#[test]
fn next_range_stays_in_range() {
    let mut rng = SpawnRng::new(7);
    for _ in 0..200 {
        let v = rng.next_range(-5, 5);
        assert!((-5..5).contains(&v));
    }
    assert_eq!(rng.next_range(3, 3), 3);
}

#[test]
fn clamp_spawn_keeps_padding() {
    assert_eq!(clamp_spawn((-10, 600), 512, 512, 50), (50, 462));
    assert_eq!(clamp_spawn((100, 100), 512, 512, 50), (100, 100));
}

#[test]
fn corner_spawns_are_far_apart_and_inside() {
    let mut rng = SpawnRng::new(42);
    let spawns = generate_corner_spawns(512, 512, 50, &mut rng, 20);
    assert_eq!(spawns.len(), 2);
    for s in &spawns {
        assert!(s.0 >= 50 && s.0 <= 462 && s.1 >= 50 && s.1 <= 462);
    }
    let dx = (spawns[0].0 - spawns[1].0) as f32;
    let dy = (spawns[0].1 - spawns[1].1) as f32;
    assert!((dx * dx + dy * dy).sqrt() > 200.0);
}

#[test]
fn horizontal_spawns_left_and_right() {
    let mut rng = SpawnRng::new(42);
    let spawns = generate_horizontal_spawns(512, 512, 50, &mut rng, 20, true);
    assert_eq!(spawns.len(), 2);
    assert!(spawns[0].0 < 256);
    assert!(spawns[1].0 > 256);
    // mirrored around the middle
    assert_eq!(spawns[0].1 + spawns[1].1, 512);
}

#[test]
fn dynamic_scenario_keeps_layout_and_names_seed() {
    let base = Scenario::skirmish_1v1();
    let mut rng = SpawnRng::new(99);
    let spawns = generate_corner_spawns(512, 512, 50, &mut rng, 20);
    let s = generate_dynamic_scenario(99, &base, &spawns, 200);
    assert_eq!(s.name, format!("{} (seed:99)", base.name));
    assert_eq!(s.factions.len(), base.factions.len());
    for f in &s.factions {
        assert!(f.starting_resources >= 500);
    }
    let _ = dynamic_spawn_pattern(99);
}

#[test]
fn corner_and_cross_spawns_keep_apart() {
    for seed in [1u64, 42, 999, 123456789] {
        let mut rng = SpawnRng::new(seed);
        let s = generate_corner_spawns(512, 512, 48, &mut rng, 25);
        assert!((s[0].0 - s[1].0).abs() >= 512 - 96 - 50);
        assert!(s[1].1 - s[0].1 >= 512 - 96 - 50);
        let mut rng = SpawnRng::new(seed);
        let c = generate_cross_spawns(512, 512, 48, &mut rng, 15);
        assert!(c[1].1 - c[0].1 >= 512 - 96 - 30 || c[0].0 - c[1].0 >= 512 - 96 - 30);
    }
}

#[test]
fn dynamic_scenario_moves_forces_with_spawn() {
    let base = Scenario::skirmish_1v1();
    let spawns = vec![(100, 100), (400, 100)];
    let s = generate_dynamic_scenario(7, &base, &spawns, 0);
    for (i, f) in s.factions.iter().enumerate() {
        let b = &base.factions[i];
        assert_eq!(f.spawn_position, spawns[i]);
        assert_eq!(f.starting_buildings.len(), b.starting_buildings.len());
        for (nb, ob) in f.starting_buildings.iter().zip(b.starting_buildings.iter()) {
            assert_eq!(nb.kind, ob.kind);
            assert_eq!(
                nb.position,
                (spawns[i].0 + ob.position.0 - b.spawn_position.0, spawns[i].1 + ob.position.1 - b.spawn_position.1)
            );
        }
        for (nu, ou) in f.starting_units.iter().zip(b.starting_units.iter()) {
            assert_eq!((nu.kind.clone(), nu.count), (ou.kind.clone(), ou.count));
            assert_eq!(
                nu.position,
                (spawns[i].0 + ou.position.0 - b.spawn_position.0, spawns[i].1 + ou.position.1 - b.spawn_position.1)
            );
        }
    }
    // the headquarters of the first faction sits on its new spawn point
    // when it sat on the old one
    if base.factions[0].starting_buildings[0].position == base.factions[0].spawn_position {
        assert_eq!(s.factions[0].starting_buildings[0].position, (100, 100));
    }
    // a faction without a new spawn point keeps everything
    let one = vec![(100, 100)];
    let s = generate_dynamic_scenario(7, &base, &one, 0);
    assert_eq!(s.factions[1].spawn_position, base.factions[1].spawn_position);
    assert_eq!(s.factions[1].starting_buildings[0].position, base.factions[1].starting_buildings[0].position);
}

#[test]
fn first_draw_follows_the_seed() {
    let seed: u64 = 12345;
    let mut rng = SpawnRng::new(seed);
    assert_eq!(rng.next(), seed.wrapping_add(0x9E3779B97F4A7C15).wrapping_mul(0x5DEECE66D).wrapping_add(11));
}
