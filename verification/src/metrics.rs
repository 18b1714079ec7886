//! Events recorded during a game for later balance analysis.

use crate::strategies::{count_of, lemma_count_of_entry, names_distinct, record_count, total_count};
use vstd::prelude::*;

verus! {

/// Types of events that can be recorded.
#[derive(Debug, Clone, Copy, PartialEq, Eq, Structural)]
pub enum EventType {
    /// Unit was produced.
    UnitProduced,
    /// Unit was killed.
    UnitKilled,
    /// Building completed construction.
    BuildingCompleted,
    /// Building was destroyed.
    BuildingDestroyed,
    /// Battle started (multiple units engaged).
    BattleStarted,
    /// Battle ended.
    BattleEnded,
    /// Expansion (new base) started.
    ExpansionStarted,
    /// Tech was unlocked.
    TechUnlocked,
    /// Major engagement (>5 units involved).
    MajorEngagement,
    /// Resources depleted (node exhausted).
    ResourcesDepleted,
    /// First attack on enemy.
    FirstAttack,
}

/// A timed event during the game.
#[derive(Debug, Clone)]
pub struct TimedEvent {
    /// Tick when the event occurred.
    pub tick: u64,
    /// Type of event.
    pub event_type: EventType,
    /// Faction involved.
    pub faction: String,
    /// Event details.
    pub details: String,
}

impl TimedEvent {
    /// An event of `event_type` for `faction` at `tick`.
    pub fn new(tick: u64, event_type: EventType, faction: &str, details: &str) -> (e: Self)
        ensures
            e.tick == tick,
            e.event_type == event_type,
            e.faction@ == faction@,
            e.details@ == details@,
    {
        TimedEvent { tick, event_type, faction: faction.to_string(), details: details.to_string() }
    }
}

/// Sum of a list of tick counts.
pub open spec fn total_ticks(s: Seq<u64>) -> int
    decreases s.len(),
{
    if s.len() == 0 {
        0
    } else {
        total_ticks(s.drop_last()) + s.last()
    }
}

/// Number of games in the list won by `faction`.
pub open spec fn wins_in(winners: Seq<Option<String>>, faction: Seq<char>) -> nat
    decreases winners.len(),
{
    if winners.len() == 0 {
        0
    } else {
        wins_in(winners.drop_last(), faction) + match winners.last() {
            Some(w) => if w@ == faction {
                1nat
            } else {
                0nat
            },
            None => 0nat,
        }
    }
}

/// Number of games in the list that ended without a winner.
pub open spec fn draws_in(winners: Seq<Option<String>>) -> nat
    decreases winners.len(),
{
    if winners.len() == 0 {
        0
    } else {
        draws_in(winners.drop_last()) + if winners.last() is None {
            1nat
        } else {
            0nat
        }
    }
}

/// Outcome counts and duration extremes over a batch of games.
#[derive(Debug, Clone)]
pub struct BatchTally {
    /// Total games played.
    pub total_games: u32,
    /// Games won by each faction.
    pub wins_by_faction: Vec<(String, u32)>,
    /// Games that ended in a draw.
    pub draws: u32,
    /// Sum of all game durations in ticks.
    pub duration_sum: u64,
    /// Shortest game (zero for an empty batch).
    pub min_duration_ticks: u64,
    /// Longest game (zero for an empty batch).
    pub max_duration_ticks: u64,
}

/// Counts wins per faction and draws, and sums and bounds the durations of
/// a batch of games given as parallel lists of durations and winners.
pub fn tally_games(durations: &Vec<u64>, winners: &Vec<Option<String>>) -> (t: BatchTally)
    requires
        durations.len() == winners.len(),
        durations.len() <= u32::MAX,
        total_ticks(durations@) <= u64::MAX,
    ensures
        t.total_games == durations.len(),
        t.draws == draws_in(winners@),
        forall|f: Seq<char>| #[trigger] count_of(t.wins_by_faction@, f) == wins_in(winners@, f),
        names_distinct(t.wins_by_faction@),
        forall|j: int|
            0 <= j < t.wins_by_faction@.len() ==> (#[trigger] t.wins_by_faction@[j]).1 > 0
                && t.wins_by_faction@[j].1 == wins_in(winners@, t.wins_by_faction@[j].0@),
        total_count(t.wins_by_faction@) + t.draws == t.total_games,
        t.duration_sum == total_ticks(durations@),
        durations.len() == 0 ==> t.min_duration_ticks == 0 && t.max_duration_ticks == 0,
        durations.len() > 0 ==> {
            &&& exists|i: int| 0 <= i < durations.len() && durations@[i] == t.min_duration_ticks
            &&& exists|i: int| 0 <= i < durations.len() && durations@[i] == t.max_duration_ticks
            &&& forall|i: int|
                0 <= i < durations.len() ==> t.min_duration_ticks <= #[trigger] durations@[i]
                    <= t.max_duration_ticks
        },
{
    let n = durations.len();
    let mut wins: Vec<(String, u32)> = Vec::new();
    let mut draws: u32 = 0;
    let mut sum: u64 = 0;
    let mut lo: u64 = u64::MAX;
    let mut hi: u64 = 0;
    let mut i: usize = 0;
    while i < n
        invariant
            n == durations.len(),
            n == winners.len(),
            n <= u32::MAX,
            total_ticks(durations@) <= u64::MAX,
            i <= n,
            draws == draws_in(winners@.subrange(0, i as int)),
            forall|f: Seq<char>| #[trigger] count_of(wins@, f) == wins_in(
                winners@.subrange(0, i as int),
                f,
            ),
            names_distinct(wins@),
            forall|j: int| 0 <= j < wins@.len() ==> (#[trigger] wins@[j]).1 > 0,
            total_count(wins@) + draws == i,
            sum == total_ticks(durations@.subrange(0, i as int)),
            i == 0 ==> lo == u64::MAX && hi == 0,
            i > 0 ==> exists|j: int| 0 <= j < i && durations@[j] == lo,
            i > 0 ==> exists|j: int| 0 <= j < i && durations@[j] == hi,
            forall|j: int| 0 <= j < i ==> lo <= #[trigger] durations@[j] <= hi,
        decreases n - i,
    {
        let ghost prefix_w = winners@.subrange(0, i as int);
        let ghost next_w = winners@.subrange(0, i + 1);
        let ghost prefix_d = durations@.subrange(0, i as int);
        let ghost next_d = durations@.subrange(0, i + 1);
        assert(next_w.drop_last() =~= prefix_w);
        assert(next_d.drop_last() =~= prefix_d);
        proof {
            lemma_total_ticks_prefix(durations@, i as int + 1);
        }
        let d = durations[i];
        sum = sum + d;
        if d < lo {
            lo = d;
        }
        if d > hi {
            hi = d;
        }
        match &winners[i] {
            Some(w) => {
                proof {
                    lemma_wins_bounded(prefix_w, w@);
                }
                let ghost old_wins = wins@;
                record_count(&mut wins, w.as_str());
                assert forall|j: int| 0 <= j < wins@.len() implies (#[trigger] wins@[j]).1 > 0 by {
                    if j < old_wins.len() {
                        assert(old_wins[j].1 > 0);
                    }
                }
            },
            None => {
                proof {
                    lemma_draws_bounded(prefix_w);
                }
                draws = draws + 1;
            },
        }
        i = i + 1;
    }
    assert(winners@.subrange(0, n as int) =~= winners@);
    assert(durations@.subrange(0, n as int) =~= durations@);
    assert forall|j: int| 0 <= j < wins@.len() implies (#[trigger] wins@[j]).1 == wins_in(
        winners@,
        wins@[j].0@,
    ) by {
        lemma_count_of_entry(wins@, j);
    }
    let (min_duration_ticks, max_duration_ticks) = if n == 0 {
        (0, 0)
    } else {
        (lo, hi)
    };
    BatchTally {
        total_games: n as u32,
        wins_by_faction: wins,
        draws,
        duration_sum: sum,
        min_duration_ticks,
        max_duration_ticks,
    }
}

/// A prefix of a list never sums to more than the whole list.
proof fn lemma_total_ticks_prefix(s: Seq<u64>, k: int)
    requires
        0 <= k <= s.len(),
    ensures
        total_ticks(s.subrange(0, k)) <= total_ticks(s),
    decreases s.len() - k,
{
    if k < s.len() {
        lemma_total_ticks_prefix(s, k + 1);
        assert(s.subrange(0, k + 1).drop_last() =~= s.subrange(0, k));
    } else {
        assert(s.subrange(0, k) =~= s);
    }
}

/// No faction wins more games than the list holds.
proof fn lemma_wins_bounded(w: Seq<Option<String>>, f: Seq<char>)
    ensures
        wins_in(w, f) <= w.len(),
    decreases w.len(),
{
    if w.len() > 0 {
        lemma_wins_bounded(w.drop_last(), f);
    }
}

/// There are no more draws than games.
proof fn lemma_draws_bounded(w: Seq<Option<String>>)
    ensures
        draws_in(w) <= w.len(),
    decreases w.len(),
{
    if w.len() > 0 {
        lemma_draws_bounded(w.drop_last());
    }
}

} // verus!
