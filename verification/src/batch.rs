//! Choices a balance-testing batch makes before and after its games run:
//! game length, base scenario, strategy presets, per-game seeds and names,
//! and whether repeated runs agreed.

use crate::scenario::{is_default_collegium, is_default_continuity, Scenario};
use crate::text::{decimal, decimal_digits, text_eq};
use vstd::prelude::*;

verus! {

/// Game ticks in one minute of game time (60 ticks per second).
pub const TICKS_PER_MINUTE: u64 = 3600;

/// Game length of a batch run in quick mode: five minutes.
pub const QUICK_MAX_TICKS: u64 = 18000;

/// Game length of a batch run in extended mode: sixty minutes.
pub const EXTENDED_DEFAULT_MAX_TICKS: u64 = 216000;

/// Tick limit of each game of a batch: five minutes in quick mode, sixty in
/// extended mode, else the requested number of minutes.
pub fn batch_max_ticks(duration_minutes: u32, quick: bool, extended: bool) -> (t: u64)
    ensures
        t == if quick {
            QUICK_MAX_TICKS as int
        } else if extended {
            EXTENDED_DEFAULT_MAX_TICKS as int
        } else {
            duration_minutes * TICKS_PER_MINUTE
        },
{
    if quick {
        QUICK_MAX_TICKS
    } else if extended {
        EXTENDED_DEFAULT_MAX_TICKS
    } else {
        (duration_minutes as u64) * TICKS_PER_MINUTE
    }
}

/// How a game length is described in batch logs.
pub open spec fn duration_text(max_ticks: u64) -> Seq<char> {
    if max_ticks >= 216000 {
        decimal_digits((max_ticks as int / 216000) as nat) + " hour(s)"@
    } else {
        decimal_digits((max_ticks as int / 3600) as nat) + " minutes"@
    }
}

/// Describes a game length in whole hours, or else whole minutes.
pub fn game_duration_text(max_ticks: u64) -> (s: String)
    ensures
        s@ == duration_text(max_ticks),
{
    if max_ticks >= 60 * TICKS_PER_MINUTE {
        let mut s = decimal(max_ticks / (60 * TICKS_PER_MINUTE));
        s.append(" hour(s)");
        s
    } else {
        let mut s = decimal(max_ticks / TICKS_PER_MINUTE);
        s.append(" minutes");
        s
    }
}

/// Base scenario of a batch: the standard skirmish when asked for by name,
/// the default scenario otherwise.
pub fn base_scenario(name: &str) -> (s: Scenario)
    ensures
        s.factions@.len() == 2,
        is_default_continuity(s.factions@[0]),
        is_default_collegium(s.factions@[1]),
        s.map_size == (512u32, 512u32),
        name@ == "skirmish_1v1"@ ==> s.name@ == "Standard 1v1 Skirmish"@
            && s.initial_resources.ore_nodes@.len() == 5,
        name@ != "skirmish_1v1"@ ==> s.name@ == "Default Skirmish"@
            && s.initial_resources.ore_nodes@.len() == 2,
{
    if text_eq(name, "skirmish_1v1") {
        Scenario::skirmish_1v1()
    } else {
        Scenario::default()
    }
}

/// The named strategy presets a batch can assign to a faction.
#[derive(Debug, Clone, Copy, PartialEq, Eq, Structural)]
pub enum StrategyPreset {
    Rush,
    Economic,
    Balanced,
    Turtle,
    Harassment,
    FastExpand,
    AllIn,
}

/// Preset selected by a strategy name; unknown names fall back to the
/// balanced default.
pub open spec fn preset_of(name: Seq<char>) -> StrategyPreset {
    if name == "rush"@ {
        StrategyPreset::Rush
    } else if name == "economic"@ || name == "eco"@ {
        StrategyPreset::Economic
    } else if name == "turtle"@ {
        StrategyPreset::Turtle
    } else if name == "harassment"@ {
        StrategyPreset::Harassment
    } else if name == "fast_expand"@ {
        StrategyPreset::FastExpand
    } else if name == "all_in"@ {
        StrategyPreset::AllIn
    } else {
        StrategyPreset::Balanced
    }
}

/// Which names select which preset, over every name: each preset is
/// selected by its own name alone ("eco" also selects the economic one),
/// and every other name falls back to the balanced preset.
pub proof fn lemma_preset_names(name: Seq<char>)
    ensures
        preset_of(name) == StrategyPreset::Rush <==> name == "rush"@,
        preset_of(name) == StrategyPreset::Economic <==> name == "economic"@ || name == "eco"@,
        preset_of(name) == StrategyPreset::Turtle <==> name == "turtle"@,
        preset_of(name) == StrategyPreset::Harassment <==> name == "harassment"@,
        preset_of(name) == StrategyPreset::FastExpand <==> name == "fast_expand"@,
        preset_of(name) == StrategyPreset::AllIn <==> name == "all_in"@,
        preset_of(name) == StrategyPreset::Balanced <==> name != "rush"@ && name != "economic"@ && name
            != "eco"@ && name != "turtle"@ && name != "harassment"@ && name != "fast_expand"@ && name
            != "all_in"@,
{
    reveal_strlit("rush");
    reveal_strlit("economic");
    reveal_strlit("eco");
    reveal_strlit("turtle");
    reveal_strlit("harassment");
    reveal_strlit("fast_expand");
    reveal_strlit("all_in");
    assert("rush"@.len() == 4 && "economic"@.len() == 8 && "eco"@.len() == 3 && "turtle"@.len() == 6);
    assert("harassment"@.len() == 10 && "fast_expand"@.len() == 11 && "all_in"@.len() == 6);
    assert("turtle"@[0] != "all_in"@[0]);
}

/// Strategy preset for a faction: the named one, or the balanced default
/// when no name is given.
pub fn strategy_preset(name: Option<&str>) -> (p: StrategyPreset)
    ensures
        p == match name {
            Some(n) => preset_of(n@),
            None => StrategyPreset::Balanced,
        },
        p == StrategyPreset::Rush <==> (name matches Some(n) && n@ == "rush"@),
        p == StrategyPreset::Economic <==> (name matches Some(n) && (n@ == "economic"@ || n@ == "eco"@)),
        p == StrategyPreset::Turtle <==> (name matches Some(n) && n@ == "turtle"@),
        p == StrategyPreset::Harassment <==> (name matches Some(n) && n@ == "harassment"@),
        p == StrategyPreset::FastExpand <==> (name matches Some(n) && n@ == "fast_expand"@),
        p == StrategyPreset::AllIn <==> (name matches Some(n) && n@ == "all_in"@),
{
    proof {
        if let Some(n) = name {
            lemma_preset_names(n@);
        }
    }
    match name {
        None => StrategyPreset::Balanced,
        Some(n) => {
            if text_eq(n, "rush") {
                StrategyPreset::Rush
            } else if text_eq(n, "economic") || text_eq(n, "eco") {
                StrategyPreset::Economic
            } else if text_eq(n, "turtle") {
                StrategyPreset::Turtle
            } else if text_eq(n, "harassment") {
                StrategyPreset::Harassment
            } else if text_eq(n, "fast_expand") {
                StrategyPreset::FastExpand
            } else if text_eq(n, "all_in") {
                StrategyPreset::AllIn
            } else {
                StrategyPreset::Balanced
            }
        },
    }
}

/// Seed of the `index`-th game of a batch starting at `seed_start`
/// (wrapping around at the top of the range).
pub fn game_seed(seed_start: u64, index: u32) -> (s: u64)
    ensures
        s == (seed_start + index) % 0x1_0000_0000_0000_0000int,
{
    let s = seed_start.wrapping_add(index as u64);
    s
}

/// Identifier of the game played with `seed`.
pub fn game_id(seed: u64) -> (id: String)
    ensures
        id@ == "game_"@ + decimal_digits(seed as nat),
{
    let mut id = "game_".to_string();
    id.append(decimal(seed).as_str());
    id
}

/// Outcome of one game as compared across repeated runs.
#[derive(Debug, Clone)]
pub struct RunOutcome {
    pub winner: Option<String>,
    pub duration_ticks: u64,
    pub win_condition: String,
}

/// Two outcomes agree in winner, length and win condition.
pub open spec fn same_outcome(a: RunOutcome, b: RunOutcome) -> bool {
    &&& match (a.winner, b.winner) {
        (Some(x), Some(y)) => x@ == y@,
        (None, None) => true,
        _ => false,
    }
    &&& a.duration_ticks == b.duration_ticks
    &&& a.win_condition@ == b.win_condition@
}

fn outcome_matches(a: &RunOutcome, b: &RunOutcome) -> (r: bool)
    ensures
        r == same_outcome(*a, *b),
{
    let winners_match = match (&a.winner, &b.winner) {
        (Some(x), Some(y)) => text_eq(x.as_str(), y.as_str()),
        (None, None) => true,
        _ => false,
    };
    winners_match && a.duration_ticks == b.duration_ticks && text_eq(
        a.win_condition.as_str(),
        b.win_condition.as_str(),
    )
}

/// Repeated runs of one seed were deterministic: every run ended like the
/// first one.
pub fn runs_agree(runs: &Vec<RunOutcome>) -> (b: bool)
    requires
        runs.len() > 0,
    ensures
        b == forall|i: int| 0 <= i < runs.len() ==> same_outcome(#[trigger] runs@[i], runs@[0]),
{
    let mut i: usize = 0;
    while i < runs.len()
        invariant
            0 < runs.len(),
            i <= runs.len(),
            forall|j: int| 0 <= j < i ==> same_outcome(#[trigger] runs@[j], runs@[0]),
        decreases runs.len() - i,
    {
        if !outcome_matches(&runs[i], &runs[0]) {
            return false;
        }
        i = i + 1;
    }
    true
}

} // verus!
