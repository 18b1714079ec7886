//! Screenshot triggers for visual quality review: what each trigger is
//! called, which questions are asked about its pictures, and when a capture
//! is taken at all.

use crate::text::{decimal, decimal_digits};
use vstd::prelude::*;

verus! {

/// Screenshot capture mode.
#[derive(Debug, Clone, Copy, PartialEq, Eq, Structural)]
pub enum ScreenshotMode {
    /// No screenshots.
    Disabled,
    /// State dump for offline rendering (headless-compatible).
    StateDump,
    /// Direct GPU capture (requires display).
    Gpu,
}

impl Default for ScreenshotMode {
    fn default() -> (m: Self)
        ensures
            m == ScreenshotMode::Disabled,
    {
        ScreenshotMode::Disabled
    }
}

/// Printed name of each capture mode.
pub open spec fn mode_name(m: ScreenshotMode) -> Seq<char> {
    match m {
        ScreenshotMode::Disabled => "disabled"@,
        ScreenshotMode::StateDump => "state_dump"@,
        ScreenshotMode::Gpu => "gpu"@,
    }
}

impl ScreenshotMode {
    /// Printed name of the mode, as shown in manifests.
    pub fn name(&self) -> (s: &'static str)
        ensures
            s@ == mode_name(*self),
    {
        match self {
            ScreenshotMode::Disabled => "disabled",
            ScreenshotMode::StateDump => "state_dump",
            ScreenshotMode::Gpu => "gpu",
        }
    }
}

/// Events that trigger screenshot capture.
#[derive(Debug, Clone)]
pub enum ScreenshotTrigger {
    /// First combat between factions.
    FirstContact,
    /// Large engagement (>10 units).
    MajorBattle { unit_count: u32 },
    /// Enemy attacking command center.
    BaseUnderAttack { faction: String },
    /// New base established.
    ExpansionComplete { faction: String },
    /// Tech tier unlocked.
    TechMilestone { faction: String, tech: String },
    /// Game ended.
    Victory { winner: String },
    /// Periodic capture.
    TimedSnapshot { tick: u64 },
    /// Manual capture request.
    Manual { name: String },
}

/// Short name of a trigger, used in file names.
pub open spec fn trigger_name(t: ScreenshotTrigger) -> Seq<char> {
    match t {
        ScreenshotTrigger::FirstContact => "first_contact"@,
        ScreenshotTrigger::MajorBattle { .. } => "major_battle"@,
        ScreenshotTrigger::BaseUnderAttack { faction } => "base_attack_"@ + faction@,
        ScreenshotTrigger::ExpansionComplete { faction } => "expansion_"@ + faction@,
        ScreenshotTrigger::TechMilestone { faction, tech } => "tech_"@ + faction@ + "_"@ + tech@,
        ScreenshotTrigger::Victory { winner } => "victory_"@ + winner@,
        ScreenshotTrigger::TimedSnapshot { tick } => "snapshot_"@ + decimal_digits(tick as nat),
        ScreenshotTrigger::Manual { name } => name@,
    }
}

/// Questions asked about a screenshot of this trigger.
pub open spec fn trigger_prompts(t: ScreenshotTrigger) -> Seq<Seq<char>> {
    match t {
        ScreenshotTrigger::FirstContact => seq![
            "Are unit silhouettes distinct during combat?"@,
            "Are faction colors clearly distinguishable?"@,
            "Are attack animations visible and impactful?"@,
        ],
        ScreenshotTrigger::MajorBattle { .. } => seq![
            "Is the battle readable at this zoom level?"@,
            "Are unit types distinguishable in the melee?"@,
            "Are visual effects (explosions, projectiles) clear?"@,
        ],
        ScreenshotTrigger::BaseUnderAttack { .. } => seq![
            "Is the threat clearly visible to the player?"@,
            "Are buildings distinct from attacking units?"@,
        ],
        ScreenshotTrigger::ExpansionComplete { .. } => seq![
            "Does the new base look established?"@,
            "Is building placement logical?"@,
        ],
        ScreenshotTrigger::TechMilestone { .. } => seq![
            "Are new units/buildings visually distinct from earlier tiers?"@,
        ],
        ScreenshotTrigger::Victory { .. } => seq![
            "Does the final state look decisive?"@,
            "Is the winner's dominance visually apparent?"@,
        ],
        _ => seq![
            "Is the overall visual quality acceptable?"@,
            "Are there any visual glitches or artifacts?"@,
        ],
    }
}

/// The texts of a list of strings.
pub open spec fn texts(v: Seq<String>) -> Seq<Seq<char>> {
    v.map_values(|s: String| s@)
}

fn joined(a: &str, b: &str) -> (s: String)
    ensures
        s@ == a@ + b@,
{
    let mut s = a.to_string();
    s.append(b);
    s
}

fn push_text(v: &mut Vec<String>, t: &str)
    ensures
        texts(final(v)@) == texts(old(v)@).push(t@),
{
    v.push(t.to_string());
    assert(texts(v@) =~= texts(old(v)@).push(t@));
}

impl ScreenshotTrigger {
    /// Get a short name for this trigger type.
    pub fn name(&self) -> (s: String)
        ensures
            s@ == trigger_name(*self),
    {
        match self {
            ScreenshotTrigger::FirstContact => "first_contact".to_string(),
            ScreenshotTrigger::MajorBattle { .. } => "major_battle".to_string(),
            ScreenshotTrigger::BaseUnderAttack { faction } => joined("base_attack_", faction.as_str()),
            ScreenshotTrigger::ExpansionComplete { faction } => joined("expansion_", faction.as_str()),
            ScreenshotTrigger::TechMilestone { faction, tech } => {
                let mut s = joined("tech_", faction.as_str());
                s.append("_");
                s.append(tech.as_str());
                s
            },
            ScreenshotTrigger::Victory { winner } => joined("victory_", winner.as_str()),
            ScreenshotTrigger::TimedSnapshot { tick } => {
                let digits = decimal(*tick);
                joined("snapshot_", digits.as_str())
            },
            ScreenshotTrigger::Manual { name } => name.clone(),
        }
    }

    /// Get review prompts for this screenshot type.
    pub fn review_prompts(&self) -> (v: Vec<String>)
        ensures
            texts(v@) == trigger_prompts(*self),
    {
        let mut v: Vec<String> = Vec::new();
        match self {
            ScreenshotTrigger::FirstContact => {
                push_text(&mut v, "Are unit silhouettes distinct during combat?");
                push_text(&mut v, "Are faction colors clearly distinguishable?");
                push_text(&mut v, "Are attack animations visible and impactful?");
            },
            ScreenshotTrigger::MajorBattle { .. } => {
                push_text(&mut v, "Is the battle readable at this zoom level?");
                push_text(&mut v, "Are unit types distinguishable in the melee?");
                push_text(&mut v, "Are visual effects (explosions, projectiles) clear?");
            },
            ScreenshotTrigger::BaseUnderAttack { .. } => {
                push_text(&mut v, "Is the threat clearly visible to the player?");
                push_text(&mut v, "Are buildings distinct from attacking units?");
            },
            ScreenshotTrigger::ExpansionComplete { .. } => {
                push_text(&mut v, "Does the new base look established?");
                push_text(&mut v, "Is building placement logical?");
            },
            ScreenshotTrigger::TechMilestone { .. } => {
                push_text(&mut v, "Are new units/buildings visually distinct from earlier tiers?");
            },
            ScreenshotTrigger::Victory { .. } => {
                push_text(&mut v, "Does the final state look decisive?");
                push_text(&mut v, "Is the winner's dominance visually apparent?");
            },
            _ => {
                push_text(&mut v, "Is the overall visual quality acceptable?");
                push_text(&mut v, "Are there any visual glitches or artifacts?");
            },
        }
        assert(texts(v@) =~= trigger_prompts(*self));
        v
    }
}

/// Interval between timed snapshots by default (2 minutes at 60 ticks per
/// second).
pub const DEFAULT_TIMED_INTERVAL: u64 = 7200;

/// When a screenshot manager takes a capture: only when enabled, first
/// contact only once, and timed snapshots spaced by the configured
/// interval.
#[derive(Debug, Clone, Copy)]
pub struct CaptureSchedule {
    mode: ScreenshotMode,
    timed_interval: u64,
    first_contact_captured: bool,
    last_timed_capture: u64,
}

impl CaptureSchedule {
    pub closed spec fn spec_mode(&self) -> ScreenshotMode {
        self.mode
    }

    pub closed spec fn interval(&self) -> u64 {
        self.timed_interval
    }

    /// A first-contact capture has been taken.
    pub closed spec fn contact_taken(&self) -> bool {
        self.first_contact_captured
    }

    /// Tick of the last timed capture (zero before any).
    pub closed spec fn last_timed(&self) -> u64 {
        self.last_timed_capture
    }

    /// A schedule for `mode` with snapshots every `timed_interval` ticks
    /// (zero disables them).
    pub fn new(mode: ScreenshotMode, timed_interval: u64) -> (s: Self)
        ensures
            s.spec_mode() == mode,
            s.interval() == timed_interval,
            !s.contact_taken(),
            s.last_timed() == 0,
    {
        CaptureSchedule { mode, timed_interval, first_contact_captured: false, last_timed_capture: 0 }
    }

    /// Check if screenshots are enabled.
    pub fn is_enabled(&self) -> (b: bool)
        ensures
            b == (self.spec_mode() != ScreenshotMode::Disabled),
    {
        !matches!(self.mode, ScreenshotMode::Disabled)
    }

    /// Decides whether a capture for `trigger` is taken; a first contact is
    /// taken only once.
    pub fn accept(&mut self, trigger: &ScreenshotTrigger) -> (taken: bool)
        ensures
            taken == accepts(*old(self), trigger is FirstContact),
            final(self).contact_taken() == (old(self).contact_taken() || (taken
                && trigger is FirstContact)),
            final(self).spec_mode() == old(self).spec_mode(),
            final(self).interval() == old(self).interval(),
            final(self).last_timed() == old(self).last_timed(),
    {
        if !self.is_enabled() {
            return false;
        }
        if matches!(trigger, ScreenshotTrigger::FirstContact) {
            if self.first_contact_captured {
                return false;
            }
            self.first_contact_captured = true;
        }
        true
    }

    /// Check if a timed capture should occur at this tick.
    pub fn should_capture_timed(&self, current_tick: u64) -> (b: bool)
        requires
            self.last_timed() + self.interval() <= u64::MAX,
        ensures
            b == timed_due(*self, current_tick),
    {
        if self.timed_interval == 0 {
            return false;
        }
        current_tick >= self.last_timed_capture + self.timed_interval
    }

    /// Record a timed capture occurred.
    pub fn record_timed_capture(&mut self, tick: u64)
        ensures
            final(self).last_timed() == tick,
            final(self).spec_mode() == old(self).spec_mode(),
            final(self).interval() == old(self).interval(),
            final(self).contact_taken() == old(self).contact_taken(),
    {
        self.last_timed_capture = tick;
    }
}

/// A capture is taken when screenshots are enabled, unless it is a first
/// contact and one was already taken.
pub open spec fn accepts(s: CaptureSchedule, first_contact: bool) -> bool {
    s.spec_mode() != ScreenshotMode::Disabled && !(first_contact && s.contact_taken())
}

/// A timed snapshot is due: snapshots are on and a full interval has passed
/// since the last one.
pub open spec fn timed_due(s: CaptureSchedule, tick: u64) -> bool {
    s.interval() != 0 && tick >= s.last_timed() + s.interval()
}

/// First contact is captured at most once: once a first-contact capture has
/// been taken, every later first-contact trigger is refused, while other
/// triggers are still taken whenever capture is enabled.
pub proof fn lemma_first_contact_once(s: CaptureSchedule)
    requires
        s.contact_taken(),
    ensures
        !accepts(s, true),
        accepts(s, false) == (s.spec_mode() != ScreenshotMode::Disabled),
{
}

/// A disabled schedule takes no capture at all.
pub proof fn lemma_disabled_takes_nothing(s: CaptureSchedule, first_contact: bool)
    requires
        s.spec_mode() == ScreenshotMode::Disabled,
    ensures
        !accepts(s, first_contact),
{
}

/// Timed captures are spaced: no timed capture is due before the last one
/// plus the interval, and one is due from then on.
pub proof fn lemma_timed_spacing(s: CaptureSchedule, tick: u64)
    requires
        s.interval() > 0,
    ensures
        tick < s.last_timed() + s.interval() ==> !timed_due(s, tick),
        tick >= s.last_timed() + s.interval() ==> timed_due(s, tick),
{
}

} // verus!
