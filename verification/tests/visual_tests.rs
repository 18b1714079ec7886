use rts_headless::visual_rating::{improvement_priorities, rate_map_usage};
use rts_headless::visual_rating::{positives_for, suggestions_for, VisualDimensions, VisualIssue};
use rts_headless::visual_review::{overall_quality, score_class};

fn issue(category: &str) -> VisualIssue {
    VisualIssue { severity: 2, category: category.to_string(), description: String::new(), penalty: 10 }
}

#[test]
fn positives_follow_thresholds() {
    let d = VisualDimensions::default();
    assert!(positives_for(&d).is_empty());
    let good = VisualDimensions { unit_clarity: 80, faction_distinction: 79, map_usage: 70, formation_quality: 90, ..d };
    assert_eq!(
        positives_for(&good),
        vec![
            "Good unit separation - units clearly distinguishable".to_string(),
            "Good map coverage and usage".to_string(),
            "Units form meaningful tactical groups".to_string(),
        ]
    );
}

#[test]
fn suggestions_sorted_and_unique() {
    let issues = vec![issue("unit_overlap"), issue("deathball"), issue("unit_overlap"), issue("army_imbalance")];
    assert_eq!(
        suggestions_for(&issues),
        vec![
            "Add formation controls to spread units during combat".to_string(),
            "Increase unit spacing or add formation spreading".to_string(),
        ]
    );
}

#[test]
fn quality_scores() {
    assert_eq!(overall_quality(None, None, None), (true, 100));
    assert_eq!(overall_quality(Some(true), Some(false), None), (false, 60));
    assert_eq!(overall_quality(Some(false), Some(false), Some(false)), (false, 10));
    assert_eq!(score_class(80), "score-high");
    assert_eq!(score_class(50), "score-mid");
    assert_eq!(score_class(49), "score-low");
}

#[test]
fn improvement_priorities_three_lowest() {
    let d = VisualDimensions {
        unit_clarity: 90,
        faction_distinction: 40,
        battle_readability: 65,
        map_usage: 40,
        formation_quality: 69,
        visual_balance: 10,
    };
    assert_eq!(
        improvement_priorities(&d),
        vec![
            "Improve Visual Balance (currently 10)".to_string(),
            "Improve Faction Distinction (currently 40)".to_string(),
            "Improve Map Usage (currently 40)".to_string(),
        ]
    );
    let fine = VisualDimensions { unit_clarity: 70, faction_distinction: 70, battle_readability: 70, map_usage: 70, formation_quality: 70, visual_balance: 70 };
    assert!(improvement_priorities(&fine).is_empty());
    let dflt = improvement_priorities(&VisualDimensions::default());
    assert_eq!(dflt, vec![
        "Improve Unit Clarity (currently 50)".to_string(),
        "Improve Faction Distinction (currently 50)".to_string(),
        "Improve Battle Readability (currently 50)".to_string(),
    ]);
}

#[test]
fn map_usage_ratings() {
    let (score, issues) = rate_map_usage([0, 0, 0, 0]);
    assert_eq!((score, issues.len()), (50, 0));
    let (score, issues) = rate_map_usage([12, 0, 0, 0]);
    assert_eq!(score, 80);
    assert_eq!(issues.len(), 1);
    assert_eq!(issues[0].severity, 2);
    assert_eq!(issues[0].category, "map_unused");
    assert_eq!(issues[0].description, "All units concentrated in one quadrant");
    assert_eq!(issues[0].penalty, 20);
    // ten units in one quadrant are not yet a problem
    assert_eq!(rate_map_usage([0, 10, 0, 0]).0, 100);
    assert_eq!(rate_map_usage([5, 6, 7, 8]).0, 100);
}
