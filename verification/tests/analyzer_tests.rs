use rts_headless::analyzer::duration_bands;
use rts_headless::analyzer::{has_critical, severity_order};
use rts_headless::analyzer::Severity;

#[test]
fn test_severity_priority() {
    assert!(Severity::Critical.priority() > Severity::High.priority());
    assert!(Severity::High.priority() > Severity::Medium.priority());
    assert!(Severity::Medium.priority() > Severity::Low.priority());
}

#[test]
fn severity_priorities_are_one_to_four() {
    assert_eq!(Severity::Low.priority(), 1);
    assert_eq!(Severity::Medium.priority(), 2);
    assert_eq!(Severity::High.priority(), 3);
    assert_eq!(Severity::Critical.priority(), 4);
}

#[test]
fn outliers_listed_most_severe_first() {
    let sevs = vec![Severity::Low, Severity::High, Severity::Medium, Severity::High, Severity::Critical];
    assert_eq!(severity_order(&sevs), vec![4, 1, 3, 2, 0]);
    assert!(has_critical(&sevs));
    assert!(!has_critical(&vec![Severity::Low, Severity::High]));
    assert!(severity_order(&Vec::new()).is_empty());
}

#[test]
fn duration_band_counts() {
    assert_eq!(duration_bands(&vec![9999, 10000, 34999, 35000, 40000, 5]), (2, 2));
    assert_eq!(duration_bands(&Vec::new()), (0, 0));
}
