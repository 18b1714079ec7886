use rts_headless::screenshot::{CaptureSchedule, ScreenshotMode, ScreenshotTrigger};

#[test]
fn test_trigger_names() {
    assert_eq!(ScreenshotTrigger::FirstContact.name(), "first_contact");
    assert_eq!(
        ScreenshotTrigger::MajorBattle { unit_count: 15 }.name(),
        "major_battle"
    );
    assert_eq!(
        ScreenshotTrigger::Victory {
            winner: "continuity".to_string()
        }
        .name(),
        "victory_continuity"
    );
    assert_eq!(
        ScreenshotTrigger::TimedSnapshot { tick: 3600 }.name(),
        "snapshot_3600"
    );
}

#[test]
fn test_review_prompts() {
    let prompts = ScreenshotTrigger::FirstContact.review_prompts();
    assert!(!prompts.is_empty());
    assert!(prompts[0].contains("silhouette"));

    let battle_prompts = ScreenshotTrigger::MajorBattle { unit_count: 20 }.review_prompts();
    assert!(!battle_prompts.is_empty());
}

#[test]
fn other_trigger_names() {
    let t = ScreenshotTrigger::TechMilestone {
        faction: "collegium".to_string(),
        tech: "t2".to_string(),
    };
    assert_eq!(t.name(), "tech_collegium_t2");
    assert_eq!(
        ScreenshotTrigger::BaseUnderAttack { faction: "a".to_string() }.name(),
        "base_attack_a"
    );
    assert_eq!(ScreenshotTrigger::Manual { name: "x".to_string() }.name(), "x");
    assert_eq!(ScreenshotTrigger::TimedSnapshot { tick: 0 }.name(), "snapshot_0");
    assert_eq!(ScreenshotTrigger::TechMilestone { faction: String::new(), tech: String::new() }.review_prompts().len(), 1);
}

#[test]
fn modes_and_schedule() {
    assert_eq!(ScreenshotMode::default(), ScreenshotMode::Disabled);
    assert_eq!(ScreenshotMode::StateDump.name(), "state_dump");
    let mut off = CaptureSchedule::new(ScreenshotMode::Disabled, 7200);
    assert!(!off.accept(&ScreenshotTrigger::FirstContact));
    let mut s = CaptureSchedule::new(ScreenshotMode::StateDump, 7200);
    assert!(s.accept(&ScreenshotTrigger::FirstContact));
    assert!(!s.accept(&ScreenshotTrigger::FirstContact));
    assert!(s.accept(&ScreenshotTrigger::MajorBattle { unit_count: 6 }));
    assert!(!s.should_capture_timed(7199));
    assert!(s.should_capture_timed(7200));
    s.record_timed_capture(7200);
    assert!(!s.should_capture_timed(14399));
    assert!(s.should_capture_timed(14400));
    let never = CaptureSchedule::new(ScreenshotMode::Gpu, 0);
    assert!(!never.should_capture_timed(1_000_000));
}
