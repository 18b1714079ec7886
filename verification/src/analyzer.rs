//! Balance-analysis vocabulary: issue severities and report records.

use vstd::prelude::*;

verus! {

/// Severity of a balance issue, from least to most urgent.
#[derive(Debug, Clone, Copy, PartialEq, Eq, PartialOrd, Ord, Structural)]
pub enum Severity {
    /// Minor issue, low priority.
    Low,
    /// Noticeable imbalance.
    Medium,
    /// Significant problem requiring attention.
    High,
    /// Critical imbalance breaking gameplay.
    Critical,
}

/// Rank of a severity in declaration order (`Low` is 0).
pub open spec fn severity_rank(s: Severity) -> int {
    match s {
        Severity::Low => 0,
        Severity::Medium => 1,
        Severity::High => 2,
        Severity::Critical => 3,
    }
}

impl Severity {
    /// Numeric priority: higher means more urgent.
    pub fn priority(&self) -> (p: u32)
        ensures
            p == severity_rank(*self) + 1,
    {
        match self {
            Severity::Low => 1,
            Severity::Medium => 2,
            Severity::High => 3,
            Severity::Critical => 4,
        }
    }
}

/// Priorities tell severities apart: equal priorities mean equal
/// severities, and every priority lies between 1 and 4.
pub proof fn lemma_priority_order(a: Severity, b: Severity)
    ensures
        severity_rank(a) == severity_rank(b) <==> a == b,
        0 <= severity_rank(a) <= 3,
{
}

/// Indices `i < upto` whose severity has the given rank, in increasing
/// order.
pub open spec fn indices_at_rank(sevs: Seq<Severity>, rank: int, upto: int) -> Seq<usize>
    decreases upto,
{
    if upto <= 0 {
        seq![]
    } else {
        indices_at_rank(sevs, rank, upto - 1) + if severity_rank(sevs[upto - 1]) == rank {
            seq![(upto - 1) as usize]
        } else {
            seq![]
        }
    }
}

/// Issues ordered from most to least severe, equally severe ones in their
/// given order: first every critical one, then high, medium and low.
pub open spec fn most_severe_first(sevs: Seq<Severity>) -> Seq<usize> {
    indices_at_rank(sevs, 3, sevs.len() as int) + indices_at_rank(sevs, 2, sevs.len() as int)
        + indices_at_rank(sevs, 1, sevs.len() as int) + indices_at_rank(sevs, 0, sevs.len() as int)
}

fn append_rank(sevs: &Vec<Severity>, rank: u32, out: &mut Vec<usize>)
    requires
        rank <= 3,
    ensures
        final(out)@ == old(out)@ + indices_at_rank(sevs@, rank as int, sevs@.len() as int),
{
    let ghost start = out@;
    let mut i: usize = 0;
    while i < sevs.len()
        invariant
            i <= sevs@.len(),
            rank <= 3,
            out@ == start + indices_at_rank(sevs@, rank as int, i as int),
        decreases sevs@.len() - i,
    {
        if sevs[i].priority() == rank + 1 {
            out.push(i);
        }
        assert(out@ =~= start + indices_at_rank(sevs@, rank as int, i + 1));
        i = i + 1;
    }
}

/// Order in which issues of the given severities are listed: indices of
/// the most severe first, ties in their given order.
pub fn severity_order(sevs: &Vec<Severity>) -> (order: Vec<usize>)
    ensures
        order@ == most_severe_first(sevs@),
{
    let mut order: Vec<usize> = Vec::new();
    append_rank(sevs, 3, &mut order);
    append_rank(sevs, 2, &mut order);
    append_rank(sevs, 1, &mut order);
    append_rank(sevs, 0, &mut order);
    order
}

/// Membership in the index list of one rank: exactly the indices below
/// `upto` whose severity has that rank.
proof fn lemma_indices_at_rank(sevs: Seq<Severity>, rank: int, upto: int)
    requires
        0 <= upto <= sevs.len(),
        sevs.len() <= usize::MAX,
    ensures
        forall|k: int|
            0 <= k < indices_at_rank(sevs, rank, upto).len() ==> {
                let i = #[trigger] indices_at_rank(sevs, rank, upto)[k] as int;
                0 <= i < upto && severity_rank(sevs[i]) == rank
            },
        forall|k1: int, k2: int|
            0 <= k1 < k2 < indices_at_rank(sevs, rank, upto).len() ==> #[trigger] indices_at_rank(
                sevs,
                rank,
                upto,
            )[k1] < #[trigger] indices_at_rank(sevs, rank, upto)[k2],
        forall|i: int|
            0 <= i < upto && severity_rank(sevs[i]) == rank ==> #[trigger] indices_at_rank(
                sevs,
                rank,
                upto,
            ).contains(i as usize),
    decreases upto,
{
    if upto > 0 {
        lemma_indices_at_rank(sevs, rank, upto - 1);
        let prev = indices_at_rank(sevs, rank, upto - 1);
        let cur = indices_at_rank(sevs, rank, upto);
        if severity_rank(sevs[upto - 1]) == rank {
            assert(cur =~= prev.push((upto - 1) as usize));
            assert(cur[prev.len() as int] == (upto - 1) as usize);
            assert forall|i: int|
                0 <= i < upto && severity_rank(sevs[i]) == rank implies cur.contains(i as usize) by {
                if i < upto - 1 {
                    assert(prev.contains(i as usize));
                    let k = choose|k: int| 0 <= k < prev.len() && prev[k] == i as usize;
                    assert(cur[k] == i as usize);
                } else {
                    assert(cur[prev.len() as int] == i as usize);
                }
            }
        } else {
            assert(cur =~= prev);
        }
    }
}

/// `s` lists issue indices most severe first, equally severe ones in
/// increasing index order.
pub open spec fn severity_sorted(sevs: Seq<Severity>, s: Seq<usize>) -> bool {
    forall|k1: int, k2: int|
        0 <= k1 < k2 < s.len() ==> {
            let a = #[trigger] s[k1] as int;
            let b = #[trigger] s[k2] as int;
            severity_rank(sevs[a]) > severity_rank(sevs[b]) || (severity_rank(sevs[a])
                == severity_rank(sevs[b]) && a < b)
        }
}

/// Every index in `s` is an issue of rank at least `m`.
spec fn ranks_at_least(sevs: Seq<Severity>, s: Seq<usize>, m: int) -> bool {
    forall|k: int|
        0 <= k < s.len() ==> (#[trigger] s[k] as int) < sevs.len() && severity_rank(sevs[s[k] as int])
            >= m
}

proof fn lemma_concat_sorted(sevs: Seq<Severity>, a: Seq<usize>, b: Seq<usize>, m: int)
    requires
        severity_sorted(sevs, a),
        severity_sorted(sevs, b),
        ranks_at_least(sevs, a, m + 1),
        forall|k: int|
            0 <= k < b.len() ==> (#[trigger] b[k] as int) < sevs.len() && severity_rank(
                sevs[b[k] as int],
            ) == m,
    ensures
        severity_sorted(sevs, a + b),
        ranks_at_least(sevs, a + b, m),
{
    let c = a + b;
    assert forall|k1: int, k2: int| 0 <= k1 < k2 < c.len() implies {
        let x = #[trigger] c[k1] as int;
        let y = #[trigger] c[k2] as int;
        severity_rank(sevs[x]) > severity_rank(sevs[y]) || (severity_rank(sevs[x]) == severity_rank(
            sevs[y],
        ) && x < y)
    } by {
        if k2 < a.len() {
            assert(c[k1] == a[k1] && c[k2] == a[k2]);
        } else if k1 >= a.len() {
            assert(c[k1] == b[k1 - a.len()] && c[k2] == b[k2 - a.len()]);
        } else {
            assert(c[k1] == a[k1] && c[k2] == b[k2 - a.len()]);
        }
    }
    assert forall|k: int| 0 <= k < c.len() implies (#[trigger] c[k] as int) < sevs.len()
        && severity_rank(sevs[c[k] as int]) >= m by {
        if k < a.len() {
            assert(c[k] == a[k]);
        } else {
            assert(c[k] == b[k - a.len()]);
        }
    }
}

proof fn lemma_rank_lists_cover(sevs: Seq<Severity>, upto: int)
    requires
        0 <= upto <= sevs.len(),
    ensures
        indices_at_rank(sevs, 3, upto).len() + indices_at_rank(sevs, 2, upto).len()
            + indices_at_rank(sevs, 1, upto).len() + indices_at_rank(sevs, 0, upto).len() == upto,
    decreases upto,
{
    if upto > 0 {
        lemma_rank_lists_cover(sevs, upto - 1);
    }
}

/// Listing issues most severe first lists every issue exactly once, and
/// never puts a less severe issue before a more severe one; equally severe
/// issues keep their relative order.
pub proof fn lemma_severity_order_sorted(sevs: Seq<Severity>)
    requires
        sevs.len() <= usize::MAX,
    ensures
        most_severe_first(sevs).len() == sevs.len(),
        forall|k: int|
            0 <= k < most_severe_first(sevs).len() ==> (#[trigger] most_severe_first(sevs)[k] as int)
                < sevs.len(),
        forall|i: int| 0 <= i < sevs.len() ==> #[trigger] most_severe_first(sevs).contains(i as usize),
        severity_sorted(sevs, most_severe_first(sevs)),
{
    let n = sevs.len() as int;
    let l3 = indices_at_rank(sevs, 3, n);
    let l2 = indices_at_rank(sevs, 2, n);
    let l1 = indices_at_rank(sevs, 1, n);
    let l0 = indices_at_rank(sevs, 0, n);
    lemma_indices_at_rank(sevs, 3, n);
    lemma_indices_at_rank(sevs, 2, n);
    lemma_indices_at_rank(sevs, 1, n);
    lemma_indices_at_rank(sevs, 0, n);
    lemma_rank_lists_cover(sevs, n);
    assert forall|m: int, l: Seq<usize>| l == indices_at_rank(sevs, m, n) implies severity_sorted(
        sevs,
        l,
    ) by {
        lemma_indices_at_rank(sevs, m, n);
    }
    assert(ranks_at_least(sevs, l3, 3));
    lemma_concat_sorted(sevs, l3, l2, 2);
    lemma_concat_sorted(sevs, l3 + l2, l1, 1);
    lemma_concat_sorted(sevs, l3 + l2 + l1, l0, 0);
    let all = most_severe_first(sevs);
    assert forall|i: int| 0 <= i < sevs.len() implies #[trigger] all.contains(i as usize) by {
        let r = severity_rank(sevs[i]);
        let l = indices_at_rank(sevs, r, n);
        assert(l.contains(i as usize));
        let k = choose|k: int| 0 <= k < l.len() && l[k] == i as usize;
        if r == 3 {
            assert(all[k] == i as usize);
        } else if r == 2 {
            assert(all[l3.len() + k] == i as usize);
        } else if r == 1 {
            assert(all[l3.len() + l2.len() + k] == i as usize);
        } else {
            assert(all[l3.len() + l2.len() + l1.len() + k] == i as usize);
        }
    }
}

/// Some issue is critical.
pub fn has_critical(sevs: &Vec<Severity>) -> (b: bool)
    ensures
        b == exists|i: int| 0 <= i < sevs@.len() && #[trigger] sevs@[i] == Severity::Critical,
{
    let mut i: usize = 0;
    while i < sevs.len()
        invariant
            i <= sevs@.len(),
            forall|j: int| 0 <= j < i ==> #[trigger] sevs@[j] != Severity::Critical,
        decreases sevs@.len() - i,
    {
        if sevs[i] == Severity::Critical {
            return true;
        }
        i = i + 1;
    }
    false
}

/// Games shorter than this many ticks ended early.
pub const EARLY_GAME_TICKS: u64 = 10000;

/// Games reaching this many ticks ran into the time limit.
pub const STALEMATE_TICKS: u64 = 35000;

/// Number of durations among the first `upto` that satisfy the band test.
pub open spec fn count_band(durations: Seq<u64>, upto: int, early: bool) -> nat
    decreases upto,
{
    if upto <= 0 {
        0
    } else {
        let d = durations[upto - 1];
        count_band(durations, upto - 1, early) + if (early && d < EARLY_GAME_TICKS) || (!early
            && d >= STALEMATE_TICKS) {
            1nat
        } else {
            0nat
        }
    }
}

/// Numbers of games that ended early and that ran into the time limit.
pub fn duration_bands(durations: &Vec<u64>) -> (r: (usize, usize))
    ensures
        r.0 == count_band(durations@, durations@.len() as int, true),
        r.1 == count_band(durations@, durations@.len() as int, false),
{
    let mut early: usize = 0;
    let mut late: usize = 0;
    let mut i: usize = 0;
    while i < durations.len()
        invariant
            i <= durations@.len(),
            early == count_band(durations@, i as int, true),
            late == count_band(durations@, i as int, false),
            early <= i,
            late <= i,
        decreases durations@.len() - i,
    {
        let d = durations[i];
        if d < EARLY_GAME_TICKS {
            early = early + 1;
        }
        if d >= STALEMATE_TICKS {
            late = late + 1;
        }
        i = i + 1;
    }
    (early, late)
}

/// Metadata about an analysis run.
#[derive(Debug, Clone, Default)]
pub struct AnalysisMetadata {
    /// Timestamp.
    pub timestamp: String,
    /// Source batch identifier.
    pub source_batch: String,
    /// Analysis version.
    pub version: String,
}

/// Report comparing two batch runs.
#[derive(Debug, Clone)]
pub struct ComparisonReport {
    pub before_games: u32,
    pub after_games: u32,
    pub improvements: Vec<String>,
    pub regressions: Vec<String>,
    pub before_issue_count: u32,
    pub after_issue_count: u32,
    pub overall_improved: bool,
}

} // verus!
