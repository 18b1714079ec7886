//! Visual quality ratings of game screenshots: the scored dimensions, the
//! issues found, and the remarks derived from them.

use crate::screenshot::texts;
use crate::text::{decimal, decimal_digits, text_eq};
use vstd::prelude::*;

verus! {

/// Individual scoring dimensions (each 0-100).
#[derive(Debug, Clone, Copy, PartialEq, Eq, Structural)]
pub struct VisualDimensions {
    /// Unit clarity - can individual units be distinguished?
    pub unit_clarity: u32,
    /// Faction distinction - are factions visually different?
    pub faction_distinction: u32,
    /// Battle readability - can you understand the battle state?
    pub battle_readability: u32,
    /// Map usage - are units well distributed?
    pub map_usage: u32,
    /// Formation quality - do units form sensible groups?
    pub formation_quality: u32,
    /// Visual balance - symmetric/fair feeling?
    pub visual_balance: u32,
}

impl Default for VisualDimensions {
    fn default() -> (d: Self)
        ensures
            d.unit_clarity == 50,
            d.faction_distinction == 50,
            d.battle_readability == 50,
            d.map_usage == 50,
            d.formation_quality == 50,
            d.visual_balance == 50,
    {
        VisualDimensions {
            unit_clarity: 50,
            faction_distinction: 50,
            battle_readability: 50,
            map_usage: 50,
            formation_quality: 50,
            visual_balance: 50,
        }
    }
}

/// A visual issue that affects score.
#[derive(Debug, Clone)]
pub struct VisualIssue {
    /// Issue severity (1-5, 5 being worst).
    pub severity: u32,
    /// Issue category.
    pub category: String,
    /// Description of the issue.
    pub description: String,
    /// Score penalty.
    pub penalty: u32,
}

/// Comprehensive visual quality score.
#[derive(Debug, Clone)]
pub struct VisualScore {
    /// Overall score (0-100).
    pub overall: u32,
    /// Individual dimension scores.
    pub dimensions: VisualDimensions,
    /// Issues detected.
    pub issues: Vec<VisualIssue>,
    /// Positive aspects found.
    pub positives: Vec<String>,
    /// Improvement suggestions.
    pub suggestions: Vec<String>,
}

/// Praise for the dimensions that scored well, in a fixed order.
pub open spec fn positives_of(d: VisualDimensions) -> Seq<Seq<char>> {
    let a: Seq<Seq<char>> = if d.unit_clarity >= 80 {
        seq!["Good unit separation - units clearly distinguishable"@]
    } else {
        seq![]
    };
    let b: Seq<Seq<char>> = if d.faction_distinction >= 80 {
        seq!["Strong faction visual distinction"@]
    } else {
        seq![]
    };
    let c: Seq<Seq<char>> = if d.map_usage >= 70 {
        seq!["Good map coverage and usage"@]
    } else {
        seq![]
    };
    let e: Seq<Seq<char>> = if d.formation_quality >= 70 {
        seq!["Units form meaningful tactical groups"@]
    } else {
        seq![]
    };
    a + b + c + e
}

/// Positive aspects found for the given dimension scores.
pub fn positives_for(d: &VisualDimensions) -> (v: Vec<String>)
    ensures
        texts(v@) == positives_of(*d),
{
    let mut v: Vec<String> = Vec::new();
    if d.unit_clarity >= 80 {
        v.push("Good unit separation - units clearly distinguishable".to_string());
    }
    if d.faction_distinction >= 80 {
        v.push("Strong faction visual distinction".to_string());
    }
    if d.map_usage >= 70 {
        v.push("Good map coverage and usage".to_string());
    }
    if d.formation_quality >= 70 {
        v.push("Units form meaningful tactical groups".to_string());
    }
    assert(texts(v@) =~= positives_of(*d));
    v
}

/// Some issue in the list has this category.
pub open spec fn has_category(issues: Seq<VisualIssue>, category: Seq<char>) -> bool {
    exists|i: int| 0 <= i < issues.len() && #[trigger] issues[i].category@ == category
}

/// Suggestions for the categories present among the issues, each once and
/// in alphabetical order.
pub open spec fn suggestions_of(issues: Seq<VisualIssue>) -> Seq<Seq<char>> {
    let a: Seq<Seq<char>> = if has_category(issues, "deathball"@) {
        seq!["Add formation controls to spread units during combat"@]
    } else {
        seq![]
    };
    let b: Seq<Seq<char>> = if has_category(issues, "map_unused"@) {
        seq!["Encourage more map exploration and expansion"@]
    } else {
        seq![]
    };
    let c: Seq<Seq<char>> = if has_category(issues, "faction_clustering"@) {
        seq!["Improve faction color contrast or add unit markers"@]
    } else {
        seq![]
    };
    let e: Seq<Seq<char>> = if has_category(issues, "unit_overlap"@) {
        seq!["Increase unit spacing or add formation spreading"@]
    } else {
        seq![]
    };
    a + b + c + e
}

fn find_category(issues: &Vec<VisualIssue>, category: &str) -> (b: bool)
    ensures
        b == has_category(issues@, category@),
{
    let mut i: usize = 0;
    while i < issues.len()
        invariant
            i <= issues.len(),
            forall|j: int| 0 <= j < i ==> #[trigger] issues@[j].category@ != category@,
        decreases issues.len() - i,
    {
        if text_eq(issues[i].category.as_str(), category) {
            assert(issues@[i as int].category@ == category@);
            return true;
        }
        i = i + 1;
    }
    false
}

/// Improvement suggestions for a list of issues: one per recognized issue
/// category present, without repeats, sorted.
pub fn suggestions_for(issues: &Vec<VisualIssue>) -> (v: Vec<String>)
    ensures
        texts(v@) == suggestions_of(issues@),
{
    let mut v: Vec<String> = Vec::new();
    if find_category(issues, "deathball") {
        v.push("Add formation controls to spread units during combat".to_string());
    }
    if find_category(issues, "map_unused") {
        v.push("Encourage more map exploration and expansion".to_string());
    }
    if find_category(issues, "faction_clustering") {
        v.push("Improve faction color contrast or add unit markers".to_string());
    }
    if find_category(issues, "unit_overlap") {
        v.push("Increase unit spacing or add formation spreading".to_string());
    }
    assert(texts(v@) =~= suggestions_of(issues@));
    v
}

/// The six dimension scores in report order: unit clarity, faction
/// distinction, battle readability, map usage, formation quality, visual
/// balance.
pub open spec fn dimension_scores(d: VisualDimensions) -> Seq<u32> {
    seq![
        d.unit_clarity,
        d.faction_distinction,
        d.battle_readability,
        d.map_usage,
        d.formation_quality,
        d.visual_balance,
    ]
}

/// Display names of the six dimensions, in report order.
pub open spec fn dimension_names() -> Seq<Seq<char>> {
    seq![
        "Unit Clarity"@,
        "Faction Distinction"@,
        "Battle Readability"@,
        "Map Usage"@,
        "Formation Quality"@,
        "Visual Balance"@,
    ]
}

/// Sort key of dimension `i`: by score, ties kept in report order.
pub open spec fn dimension_key(scores: Seq<u32>, i: int) -> int {
    scores[i] * 8 + i
}

/// Number of dimensions among the first `upto` that sort before dimension
/// `i`.
pub open spec fn sorts_before_count(scores: Seq<u32>, i: int, upto: int) -> nat
    decreases upto,
{
    if upto <= 0 {
        0
    } else {
        sorts_before_count(scores, i, upto - 1) + if dimension_key(scores, upto - 1)
            < dimension_key(scores, i) {
            1nat
        } else {
            0nat
        }
    }
}

/// Position of dimension `i` when the six are sorted by score, ties kept
/// in report order.
pub open spec fn dimension_rank(scores: Seq<u32>, i: int) -> nat {
    sorts_before_count(scores, i, 6)
}

/// The line that asks to improve dimension `i`.
pub open spec fn priority_line(d: VisualDimensions, i: int) -> Seq<char> {
    "Improve "@ + dimension_names()[i] + " (currently "@ + decimal_digits(
        dimension_scores(d)[i] as nat,
    ) + ")"@
}

/// Lines for the dimensions among the first `upto` that sit at sorted
/// position `m` and score below 70.
pub open spec fn priorities_at(d: VisualDimensions, m: int, upto: int) -> Seq<Seq<char>>
    decreases upto,
{
    if upto <= 0 {
        seq![]
    } else {
        let i = upto - 1;
        priorities_at(d, m, upto - 1) + if dimension_rank(dimension_scores(d), i) == m
            && dimension_scores(d)[i] < 70 {
            seq![priority_line(d, i)]
        } else {
            seq![]
        }
    }
}

/// Improvement priorities: of the three lowest-scoring dimensions (ties in
/// report order), in ascending order of score, those that score below 70.
pub open spec fn priorities_upto(d: VisualDimensions, positions: int) -> Seq<Seq<char>>
    decreases positions,
{
    if positions <= 0 {
        seq![]
    } else {
        priorities_upto(d, positions - 1) + priorities_at(d, positions - 1, 6)
    }
}

fn dimension_score_at(d: &VisualDimensions, i: usize) -> (s: u32)
    requires
        i < 6,
    ensures
        s == dimension_scores(*d)[i as int],
{
    if i == 0 {
        d.unit_clarity
    } else if i == 1 {
        d.faction_distinction
    } else if i == 2 {
        d.battle_readability
    } else if i == 3 {
        d.map_usage
    } else if i == 4 {
        d.formation_quality
    } else {
        d.visual_balance
    }
}

fn dimension_name_at(i: usize) -> (s: &'static str)
    requires
        i < 6,
    ensures
        s@ == dimension_names()[i as int],
{
    if i == 0 {
        "Unit Clarity"
    } else if i == 1 {
        "Faction Distinction"
    } else if i == 2 {
        "Battle Readability"
    } else if i == 3 {
        "Map Usage"
    } else if i == 4 {
        "Formation Quality"
    } else {
        "Visual Balance"
    }
}

fn rank_of(d: &VisualDimensions, i: usize) -> (r: usize)
    requires
        i < 6,
    ensures
        r == dimension_rank(dimension_scores(*d), i as int),
{
    let ghost scores = dimension_scores(*d);
    let si = dimension_score_at(d, i) as u64 * 8 + i as u64;
    let mut count: usize = 0;
    let mut j: usize = 0;
    while j < 6
        invariant
            i < 6,
            j <= 6,
            scores == dimension_scores(*d),
            si == dimension_key(scores, i as int),
            count == sorts_before_count(scores, i as int, j as int),
            count <= j,
        decreases 6 - j,
    {
        let sj = dimension_score_at(d, j) as u64 * 8 + j as u64;
        if sj < si {
            count = count + 1;
        }
        j = j + 1;
    }
    count
}

fn priority_text(d: &VisualDimensions, i: usize) -> (s: String)
    requires
        i < 6,
    ensures
        s@ == priority_line(*d, i as int),
{
    let mut s = "Improve ".to_string();
    s.append(dimension_name_at(i));
    s.append(" (currently ");
    s.append(decimal(dimension_score_at(d, i) as u64).as_str());
    s.append(")");
    s
}

/// Get improvement priority list.
pub fn improvement_priorities(d: &VisualDimensions) -> (v: Vec<String>)
    ensures
        texts(v@) == priorities_upto(*d, 3),
{
    let mut v: Vec<String> = Vec::new();
    let mut m: usize = 0;
    while m < 3
        invariant
            m <= 3,
            texts(v@) == priorities_upto(*d, m as int),
        decreases 3 - m,
    {
        let ghost before = texts(v@);
        let mut i: usize = 0;
        while i < 6
            invariant
                m < 3,
                i <= 6,
                before == priorities_upto(*d, m as int),
                texts(v@) == before + priorities_at(*d, m as int, i as int),
            decreases 6 - i,
        {
            let r = rank_of(d, i);
            let sc = dimension_score_at(d, i);
            if r == m && sc < 70 {
                let line = priority_text(d, i);
                let ghost old_v = v@;
                v.push(line);
                assert(texts(v@) =~= texts(old_v).push(line@));
            }
            assert(texts(v@) =~= before + priorities_at(*d, m as int, i + 1));
            i = i + 1;
        }
        m = m + 1;
    }
    v
}

/// Units counted in the four map quadrants.
pub open spec fn quadrant_total(q: [u32; 4]) -> int {
    q[0] + q[1] + q[2] + q[3]
}

/// Largest count of units in any one quadrant.
pub open spec fn quadrant_max(q: [u32; 4]) -> int {
    let m01: int = if q[0] >= q[1] {
        q[0] as int
    } else {
        q[1] as int
    };
    let m23: int = if q[2] >= q[3] {
        q[2] as int
    } else {
        q[3] as int
    };
    if m01 >= m23 {
        m01
    } else {
        m23
    }
}

/// Number of quadrants without any unit.
pub open spec fn empty_quadrants(q: [u32; 4]) -> int {
    (if q[0] == 0 { 1int } else { 0int }) + (if q[1] == 0 { 1int } else { 0int }) + (if q[2] == 0 {
        1int
    } else {
        0int
    }) + (if q[3] == 0 { 1int } else { 0int })
}

/// Map usage rating of a screenshot from its units' quadrant counts: no
/// units rate 50; more than ten units all in one quadrant lose 20 points,
/// else more than fifteen units leaving three quadrants empty lose 10.
pub fn rate_map_usage(quadrants: [u32; 4]) -> (r: (u32, Vec<VisualIssue>))
    requires
        quadrant_total(quadrants) <= u32::MAX,
    ensures
        ({
            let (total, top, empty) = (
                quadrant_total(quadrants),
                quadrant_max(quadrants),
                empty_quadrants(quadrants),
            );
            if total == 0 {
                r.0 == 50 && r.1@.len() == 0
            } else if top == total && total > 10 {
                &&& r.0 == 80
                &&& r.1@.len() == 1
                &&& r.1@[0].severity == 2
                &&& r.1@[0].category@ == "map_unused"@
                &&& r.1@[0].description@ == "All units concentrated in one quadrant"@
                &&& r.1@[0].penalty == 20
            } else if empty >= 3 && total > 15 {
                &&& r.0 == 90
                &&& r.1@.len() == 1
                &&& r.1@[0].severity == 1
                &&& r.1@[0].category@ == "map_unused"@
                &&& r.1@[0].description@ == decimal_digits(empty as nat) + " quadrants empty"@
                &&& r.1@[0].penalty == 10
            } else {
                r.0 == 100 && r.1@.len() == 0
            }
        }),
{
    let mut issues: Vec<VisualIssue> = Vec::new();
    let total: u32 = quadrants[0] + quadrants[1] + quadrants[2] + quadrants[3];
    if total == 0 {
        return (50, issues);
    }
    let m01 = if quadrants[0] >= quadrants[1] {
        quadrants[0]
    } else {
        quadrants[1]
    };
    let m23 = if quadrants[2] >= quadrants[3] {
        quadrants[2]
    } else {
        quadrants[3]
    };
    let top = if m01 >= m23 {
        m01
    } else {
        m23
    };
    let mut empty: u64 = 0;
    if quadrants[0] == 0 {
        empty = empty + 1;
    }
    if quadrants[1] == 0 {
        empty = empty + 1;
    }
    if quadrants[2] == 0 {
        empty = empty + 1;
    }
    if quadrants[3] == 0 {
        empty = empty + 1;
    }
    if top == total && total > 10 {
        issues.push(
            VisualIssue {
                severity: 2,
                category: "map_unused".to_string(),
                description: "All units concentrated in one quadrant".to_string(),
                penalty: 20,
            },
        );
        (80, issues)
    } else if empty >= 3 && total > 15 {
        let mut description = decimal(empty);
        description.append(" quadrants empty");
        issues.push(
            VisualIssue { severity: 1, category: "map_unused".to_string(), description, penalty: 10 },
        );
        (90, issues)
    } else {
        (100, issues)
    }
}

} // verus!
