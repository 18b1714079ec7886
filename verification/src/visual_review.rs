//! Scoring rules of the visual quality review: how failed checks lower a
//! screenshot's quality score, and how a score is classed in reports.

use vstd::prelude::*;

verus! {

/// Points lost when a check was run and failed (silhouette: 30, color
/// distinction: 40, brightness: 20); a check that was not run costs nothing.
pub open spec fn penalty(check: Option<bool>, points: int) -> int {
    match check {
        Some(false) => points,
        _ => 0,
    }
}

/// Quality score of a screenshot from the outcome of its three checks.
pub open spec fn quality_score_of(
    silhouette: Option<bool>,
    color: Option<bool>,
    brightness: Option<bool>,
) -> int {
    100 - penalty(silhouette, 30) - penalty(color, 40) - penalty(brightness, 20)
}

/// Overall pass: no check that was run failed.
pub open spec fn overall_pass_of(
    silhouette: Option<bool>,
    color: Option<bool>,
    brightness: Option<bool>,
) -> bool {
    silhouette != Some(false) && color != Some(false) && brightness != Some(false)
}

/// Overall pass and quality score (0-100) from the outcome of the
/// silhouette, color distinction and brightness checks (`None` when a check
/// was not run).
pub fn overall_quality(
    silhouette: Option<bool>,
    color: Option<bool>,
    brightness: Option<bool>,
) -> (r: (bool, u32))
    ensures
        r.0 == overall_pass_of(silhouette, color, brightness),
        r.1 == quality_score_of(silhouette, color, brightness),
{
    let mut score: u32 = 100;
    let mut pass = true;
    if let Some(s) = silhouette {
        if !s {
            score = score.saturating_sub(30);
            pass = false;
        }
    }
    if let Some(c) = color {
        if !c {
            score = score.saturating_sub(40);
            pass = false;
        }
    }
    if let Some(b) = brightness {
        if !b {
            score = score.saturating_sub(20);
            pass = false;
        }
    }
    (pass, score)
}

/// What each check costs, over every combination of the other checks: a
/// failed silhouette check takes 30 points, a failed color check 40 and a
/// failed brightness check 20, whatever the other checks gave; a check
/// that was not run costs as much as one that passed, and a screenshot
/// passing all three scores 100.
pub proof fn lemma_check_costs(silhouette: Option<bool>, color: Option<bool>, brightness: Option<bool>)
    ensures
        quality_score_of(Some(true), color, brightness) - quality_score_of(Some(false), color, brightness) == 30,
        quality_score_of(silhouette, Some(true), brightness) - quality_score_of(silhouette, Some(false), brightness)
            == 40,
        quality_score_of(silhouette, color, Some(true)) - quality_score_of(silhouette, color, Some(false)) == 20,
        quality_score_of(None, color, brightness) == quality_score_of(Some(true), color, brightness),
        quality_score_of(silhouette, None, brightness) == quality_score_of(silhouette, Some(true), brightness),
        quality_score_of(silhouette, color, None) == quality_score_of(silhouette, color, Some(true)),
        quality_score_of(Some(true), Some(true), Some(true)) == 100,
{
}

/// A screenshot passes exactly when its quality score is full; every
/// failed check lowers the score.
pub proof fn lemma_pass_iff_full_score(
    silhouette: Option<bool>,
    color: Option<bool>,
    brightness: Option<bool>,
)
    ensures
        overall_pass_of(silhouette, color, brightness) <==> quality_score_of(
            silhouette,
            color,
            brightness,
        ) == 100,
        10 <= quality_score_of(silhouette, color, brightness) <= 100,
{
}

/// Report class of a quality score.
pub open spec fn score_class_of(score: u32) -> Seq<char> {
    if score >= 80 {
        "score-high"@
    } else if score >= 50 {
        "score-mid"@
    } else {
        "score-low"@
    }
}

/// CSS class used for a quality score in the HTML review.
pub fn score_class(score: u32) -> (c: &'static str)
    ensures
        c@ == score_class_of(score),
{
    if score >= 80 {
        "score-high"
    } else if score >= 50 {
        "score-mid"
    } else {
        "score-low"
    }
}

} // verus!
