//! Scripted build orders and the runtime state that walks them.
//!
//! A strategy's build order is a queue of production steps interleaved with
//! wait conditions.  The executor hands out production steps one at a time,
//! silently passing every wait condition that is already satisfied and
//! stopping at the first one that is not.

use std::collections::VecDeque;
use vstd::prelude::*;

verus! {

/// A single item in a build order.
#[derive(Debug, Clone)]
pub enum BuildOrderItem {
    /// Produce a unit.
    Unit(String),
    /// Construct a building.
    Building(String),
    /// Wait for a certain amount of resources.
    WaitForResources(i64),
    /// Wait for a certain number of a unit type.
    WaitForUnits(String, u32),
    /// Wait for a specific tick.
    WaitForTick(u64),
}

/// Economic targets for the AI.
#[derive(Debug, Clone)]
pub struct EconomyTargets {
    /// Target number of harvesters.
    pub target_harvesters: u32,
    /// Target number of supply depots.
    pub target_supply_depots: u32,
    /// Expand when resources exceed this amount.
    pub expand_at_resources: i64,
}

impl Default for EconomyTargets {
    fn default() -> (e: Self)
        ensures
            e.target_harvesters == 2,
            e.target_supply_depots == 1,
            e.expand_at_resources == 2500,
    {
        EconomyTargets { target_harvesters: 2, target_supply_depots: 1, expand_at_resources: 2500 }
    }
}

/// Tactical decision types for AI actions.
#[derive(Debug, Clone, Copy, PartialEq, Eq, Structural)]
pub enum TacticalDecision {
    /// Do nothing special.
    Hold,
    /// Attack the enemy.
    Attack,
    /// Rally units to defend base.
    Defend,
    /// Expand to a new location.
    Expand,
    /// Send scouts to explore.
    Scout,
}

/// Tactical rules that trigger decisions.
#[derive(Debug, Clone)]
pub struct TacticalRule {
    /// Name of the rule.
    pub name: String,
    /// Priority (higher = checked first).
    pub priority: u32,
    /// Condition expression.
    pub condition: String,
    /// Action to take when condition is met.
    pub action: String,
}

/// How many units of type `kind` the count list records: the count of the
/// first entry with that name, or 0 when there is none.
pub open spec fn count_of(counts: Seq<(String, u32)>, kind: Seq<char>) -> u32
    decreases counts.len(),
{
    if counts.len() == 0 {
        0
    } else if counts[0].0@ == kind {
        counts[0].1
    } else {
        count_of(counts.drop_first(), kind)
    }
}

/// The item is a wait condition rather than a production step.
pub open spec fn is_wait(item: BuildOrderItem) -> bool {
    match item {
        BuildOrderItem::WaitForResources(_) => true,
        BuildOrderItem::WaitForUnits(_, _) => true,
        BuildOrderItem::WaitForTick(_) => true,
        _ => false,
    }
}

/// The wait condition `item` is satisfied in the given game state.
pub open spec fn wait_satisfied(
    item: BuildOrderItem,
    tick: u64,
    resources: i64,
    counts: Seq<(String, u32)>,
) -> bool {
    match item {
        BuildOrderItem::WaitForResources(amount) => resources >= amount,
        BuildOrderItem::WaitForUnits(kind, count) => count_of(counts, kind@) >= count,
        BuildOrderItem::WaitForTick(t) => tick >= t,
        _ => false,
    }
}

/// Number of leading items of `queue` that are satisfied wait conditions.
pub open spec fn passable_prefix(
    queue: Seq<BuildOrderItem>,
    tick: u64,
    resources: i64,
    counts: Seq<(String, u32)>,
) -> nat
    decreases queue.len(),
{
    if queue.len() > 0 && is_wait(queue[0]) && wait_satisfied(queue[0], tick, resources, counts) {
        1 + passable_prefix(queue.drop_first(), tick, resources, counts)
    } else {
        0
    }
}

/// An attack is due: either the first attack has not happened and attack
/// timing has been reached, or it has and the re-attack interval has passed
/// since the last one.
pub open spec fn attack_due(triggered: bool, last: u64, timing: u64, interval: u64, tick: u64) -> bool {
    (tick >= timing && !triggered) || (triggered && tick >= last + interval)
}

/// The army is large enough to attack at an aggression of `pct` percent:
/// at least `(100 - pct)` percent of the enemy's army (any army will do
/// from 100 percent on).
pub open spec fn army_advantage(army: u32, enemy: u32, pct: u32) -> bool {
    army * 100 >= (100 - pct) * enemy
}

/// The tactical decision for the given situation: defend a base under
/// attack; once attack timing is reached, attack when the army has the
/// advantage its aggression asks for, or the strategy is hyper-aggressive;
/// else hold.
pub open spec fn tactical_choice(
    tick: u64,
    army: u32,
    enemy: u32,
    base_under_attack: bool,
    timing: u64,
    pct: u32,
    hyper: bool,
) -> TacticalDecision {
    if base_under_attack {
        TacticalDecision::Defend
    } else if tick >= timing && (army_advantage(army, enemy, pct) || hyper) {
        TacticalDecision::Attack
    } else {
        TacticalDecision::Hold
    }
}

/// Runtime state for executing a strategy's build order and attack timing.
#[derive(Debug)]
pub struct StrategyExecutor {
    /// Strategy name.
    name: String,
    /// Length of the full build order.
    build_order_len: usize,
    /// Remaining build order items.
    build_queue: VecDeque<BuildOrderItem>,
    /// Number of build order items consumed so far.
    current_index: usize,
    /// Whether the first attack has been triggered.
    attack_triggered: bool,
    /// Tick of the last attack.
    last_attack_tick: u64,
    /// Tick when the first attack should happen.
    attack_timing: u64,
    /// Re-attack interval after the first attack.
    attack_interval: u64,
    /// Economic targets.
    economy: EconomyTargets,
    /// Aggression level in percent: the army must reach `100 - pct` percent
    /// of the enemy's before attacking.
    aggression_pct: u32,
    /// Aggression above the hyper-aggressive threshold: attack regardless of
    /// army size once attack timing has been reached.
    hyper_aggressive: bool,
}

impl StrategyExecutor {
    /// Items still waiting in the build queue.
    pub closed spec fn pending(&self) -> Seq<BuildOrderItem> {
        self.build_queue@
    }

    /// Number of items consumed from the build order.
    pub closed spec fn consumed(&self) -> nat {
        self.current_index as nat
    }

    /// Length of the full build order.
    pub closed spec fn order_len(&self) -> nat {
        self.build_order_len as nat
    }

    /// Whether the first attack has happened.
    pub closed spec fn has_attacked(&self) -> bool {
        self.attack_triggered
    }

    /// Tick of the most recent attack.
    pub closed spec fn last_attack(&self) -> u64 {
        self.last_attack_tick
    }

    /// Tick when the first attack is due.
    pub closed spec fn timing(&self) -> u64 {
        self.attack_timing
    }

    /// Ticks between attacks after the first.
    pub closed spec fn interval(&self) -> u64 {
        self.attack_interval
    }

    /// Aggression level in percent.
    pub closed spec fn aggression(&self) -> u32 {
        self.aggression_pct
    }

    /// Attacks whenever timing allows, whatever the army sizes.
    pub closed spec fn hyper(&self) -> bool {
        self.hyper_aggressive
    }

    /// Strategy name.
    pub closed spec fn spec_name(&self) -> Seq<char> {
        self.name@
    }

    /// Economic targets.
    pub closed spec fn spec_economy(&self) -> EconomyTargets {
        self.economy
    }

    /// Well-formedness: consumed items plus pending items make up the whole
    /// build order.
    pub closed spec fn wf(&self) -> bool {
        self.current_index + self.build_queue@.len() == self.build_order_len
    }

    /// Create a new executor for a build order.
    pub fn new(
        name: String,
        build_order: Vec<BuildOrderItem>,
        attack_timing: u64,
        attack_interval: u64,
        economy: EconomyTargets,
        aggression_pct: u32,
        hyper_aggressive: bool,
    ) -> (ex: Self)
        ensures
            ex.wf(),
            ex.pending() == build_order@,
            ex.consumed() == 0,
            ex.order_len() == build_order@.len(),
            !ex.has_attacked(),
            ex.last_attack() == 0,
            ex.timing() == attack_timing,
            ex.interval() == attack_interval,
            ex.aggression() == aggression_pct,
            ex.hyper() == hyper_aggressive,
            ex.spec_name() == name@,
            ex.spec_economy() == economy,
    {
        let build_order_len = build_order.len();
        let mut rest = build_order;
        let mut build_queue: VecDeque<BuildOrderItem> = VecDeque::new();
        let ghost whole = rest@;
        while rest.len() > 0
            invariant
                rest@ + build_queue@ == whole,
            decreases rest@.len(),
        {
            let ghost r = rest@;
            let item = rest.pop().unwrap();
            build_queue.push_front(item);
            assert(rest@ + build_queue@ =~= r.drop_last() + (seq![r.last()] + (whole.subrange(
                r.len() as int,
                whole.len() as int,
            ))));
            assert(r =~= whole.subrange(0, r.len() as int));
            assert(rest@ + build_queue@ =~= whole);
        }
        assert(build_queue@ =~= whole);
        StrategyExecutor {
            name,
            build_order_len,
            build_queue,
            current_index: 0,
            attack_triggered: false,
            last_attack_tick: 0,
            attack_timing,
            attack_interval,
            economy,
            aggression_pct,
            hyper_aggressive,
        }
    }

    /// Get the next build order item if conditions are met.
    ///
    /// Satisfied wait conditions at the front of the queue are consumed;
    /// the first unsatisfied one stops the walk and nothing is returned.
    /// Otherwise the first production step is removed and returned.
    pub fn next_item(
        &mut self,
        current_tick: u64,
        resources: i64,
        unit_counts: &Vec<(String, u32)>,
    ) -> (item: Option<BuildOrderItem>)
        requires
            old(self).wf(),
        ensures
            ({
                let q = old(self).pending();
                let k = passable_prefix(q, current_tick, resources, unit_counts@);
                &&& k <= q.len()
                &&& if k == q.len() {
                    &&& item is None
                    &&& final(self).pending() == Seq::<BuildOrderItem>::empty()
                    &&& final(self).consumed() == old(self).consumed() + k
                } else if is_wait(q[k as int]) {
                    &&& item is None
                    &&& final(self).pending() == q.skip(k as int)
                    &&& final(self).consumed() == old(self).consumed() + k
                } else {
                    &&& item == Some(q[k as int])
                    &&& final(self).pending() == q.skip(k as int + 1)
                    &&& final(self).consumed() == old(self).consumed() + k + 1
                }
            }),
            item matches Some(it) ==> !is_wait(it),
            final(self).wf(),
            final(self).order_len() == old(self).order_len(),
            final(self).has_attacked() == old(self).has_attacked(),
            final(self).last_attack() == old(self).last_attack(),
            final(self).timing() == old(self).timing(),
            final(self).interval() == old(self).interval(),
            final(self).aggression() == old(self).aggression(),
            final(self).hyper() == old(self).hyper(),
            final(self).spec_name() == old(self).spec_name(),
            final(self).spec_economy() == old(self).spec_economy(),
    {
        let ghost q0 = self.build_queue@;
        let ghost idx0 = self.current_index as nat;
        let ghost counts = unit_counts@;
        let mut passed: usize = 0;
        assert(q0.skip(0) =~= q0);
        loop
            invariant
                self.wf(),
                q0 == old(self).build_queue@,
                idx0 == old(self).current_index,
                passed <= q0.len(),
                self.build_queue@ == q0.skip(passed as int),
                self.current_index == idx0 + passed,
                passable_prefix(q0, current_tick, resources, counts) == passed
                    + passable_prefix(q0.skip(passed as int), current_tick, resources, counts),
                self.build_order_len == old(self).build_order_len,
                self.attack_triggered == old(self).attack_triggered,
                self.last_attack_tick == old(self).last_attack_tick,
                self.attack_timing == old(self).attack_timing,
                self.attack_interval == old(self).attack_interval,
                self.aggression_pct == old(self).aggression_pct,
                self.hyper_aggressive == old(self).hyper_aggressive,
                self.name == old(self).name,
                self.economy == old(self).economy,
                unit_counts@ == counts,
            decreases q0.len() - passed,
        {
            let ghost rest = q0.skip(passed as int);
            if self.build_queue.len() == 0 {
                assert(rest.len() == 0);
                assert(passable_prefix(rest, current_tick, resources, counts) == 0);
                assert(passed == q0.len());
                assert(self.build_queue@ =~= Seq::<BuildOrderItem>::empty());
                return None;
            }
            assert(rest[0] == q0[passed as int]);
            let open: Option<bool> = match &self.build_queue[0] {
                BuildOrderItem::WaitForResources(amount) => Some(resources >= *amount),
                BuildOrderItem::WaitForUnits(unit_type, count) => {
                    let current = lookup_count(unit_counts, unit_type);
                    Some(current >= *count)
                },
                BuildOrderItem::WaitForTick(tick) => Some(current_tick >= *tick),
                _ => None,
            };
            match open {
                Some(true) => {
                    assert(is_wait(rest[0]) && wait_satisfied(rest[0], current_tick, resources, counts));
                    assert(rest.drop_first() =~= q0.skip(passed + 1));
                    self.build_queue.pop_front();
                    self.current_index = self.current_index + 1;
                    passed = passed + 1;
                },
                Some(false) => {
                    assert(is_wait(rest[0]) && !wait_satisfied(rest[0], current_tick, resources, counts));
                    assert(passable_prefix(rest, current_tick, resources, counts) == 0);
                    return None;
                },
                None => {
                    assert(!is_wait(rest[0]));
                    assert(passable_prefix(rest, current_tick, resources, counts) == 0);
                    self.current_index = self.current_index + 1;
                    let item = self.build_queue.pop_front();
                    assert(self.build_queue@ =~= q0.skip(passed + 1));
                    return item;
                },
            }
        }
    }

    /// Check whether to attack at `current_tick`: the first attack comes
    /// once attack timing is reached, later ones once the re-attack
    /// interval has passed since the previous attack.
    pub fn should_attack(&mut self, current_tick: u64) -> (attack: bool)
        requires
            old(self).has_attacked() ==> old(self).last_attack() + old(self).interval()
                <= u64::MAX,
        ensures
            attack == attack_due(
                old(self).has_attacked(),
                old(self).last_attack(),
                old(self).timing(),
                old(self).interval(),
                current_tick,
            ),
            final(self).has_attacked() == (old(self).has_attacked() || attack),
            final(self).last_attack() == if attack {
                current_tick
            } else {
                old(self).last_attack()
            },
            final(self).pending() == old(self).pending(),
            final(self).consumed() == old(self).consumed(),
            final(self).wf() == old(self).wf(),
            final(self).order_len() == old(self).order_len(),
            final(self).timing() == old(self).timing(),
            final(self).interval() == old(self).interval(),
            final(self).aggression() == old(self).aggression(),
            final(self).hyper() == old(self).hyper(),
            final(self).spec_name() == old(self).spec_name(),
            final(self).spec_economy() == old(self).spec_economy(),
    {
        if current_tick >= self.attack_timing && !self.attack_triggered {
            self.attack_triggered = true;
            self.last_attack_tick = current_tick;
            return true;
        }
        if self.attack_triggered && current_tick >= self.last_attack_tick + self.attack_interval {
            self.last_attack_tick = current_tick;
            return true;
        }
        false
    }

    /// Get the strategy name.
    pub fn name(&self) -> (n: &str)
        ensures
            n@ == self.spec_name(),
    {
        self.name.as_str()
    }

    /// Get economy targets.
    pub fn economy(&self) -> (e: &EconomyTargets)
        ensures
            *e == self.spec_economy(),
    {
        &self.economy
    }

    /// Number of build order items consumed so far.
    pub fn items_consumed(&self) -> (n: usize)
        ensures
            n == self.consumed(),
    {
        self.current_index
    }

    /// Length of the full build order.
    pub fn build_order_len(&self) -> (n: usize)
        ensures
            n == self.order_len(),
    {
        self.build_order_len
    }

    /// Decide what tactical action to take based on current game state.
    pub fn decide_action(
        &self,
        current_tick: u64,
        army_supply: u32,
        enemy_army_supply: u32,
        base_under_attack: bool,
    ) -> (d: TacticalDecision)
        ensures
            d == tactical_choice(
                current_tick,
                army_supply,
                enemy_army_supply,
                base_under_attack,
                self.timing(),
                self.aggression(),
                self.hyper(),
            ),
    {
        if base_under_attack {
            return TacticalDecision::Defend;
        }
        if current_tick >= self.attack_timing {
            let pct = self.aggression_pct;
            let advantage = if pct >= 100 {
                assert((100 - pct) * enemy_army_supply <= 0 <= army_supply * 100) by (nonlinear_arith)
                    requires
                        pct >= 100,
                ;
                true
            } else {
                let need: u64 = 100 - pct as u64;
                assert(need * enemy_army_supply <= 100 * 0xffff_ffffu64) by (nonlinear_arith)
                    requires
                        need <= 100,
                        enemy_army_supply <= 0xffff_ffffu64,
                ;
                army_supply as u64 * 100 >= need * enemy_army_supply as u64
            };
            if advantage || self.hyper_aggressive {
                return TacticalDecision::Attack;
            }
        }
        TacticalDecision::Hold
    }

    /// Convenience alias for [`StrategyExecutor::next_item`].
    pub fn next_build_item(
        &mut self,
        current_tick: u64,
        resources: i64,
        unit_counts: &Vec<(String, u32)>,
    ) -> (item: Option<BuildOrderItem>)
        requires
            old(self).wf(),
        ensures
            ({
                let q = old(self).pending();
                let k = passable_prefix(q, current_tick, resources, unit_counts@);
                &&& k <= q.len()
                &&& if k == q.len() {
                    &&& item is None
                    &&& final(self).pending() == Seq::<BuildOrderItem>::empty()
                    &&& final(self).consumed() == old(self).consumed() + k
                } else if is_wait(q[k as int]) {
                    &&& item is None
                    &&& final(self).pending() == q.skip(k as int)
                    &&& final(self).consumed() == old(self).consumed() + k
                } else {
                    &&& item == Some(q[k as int])
                    &&& final(self).pending() == q.skip(k as int + 1)
                    &&& final(self).consumed() == old(self).consumed() + k + 1
                }
            }),
            item matches Some(it) ==> !is_wait(it),
            final(self).wf(),
            final(self).order_len() == old(self).order_len(),
            final(self).has_attacked() == old(self).has_attacked(),
            final(self).last_attack() == old(self).last_attack(),
            final(self).timing() == old(self).timing(),
            final(self).interval() == old(self).interval(),
            final(self).aggression() == old(self).aggression(),
            final(self).hyper() == old(self).hyper(),
            final(self).spec_name() == old(self).spec_name(),
            final(self).spec_economy() == old(self).spec_economy(),
    {
        self.next_item(current_tick, resources, unit_counts)
    }
}

/// Looks up how many units of `kind` the count list records.
fn lookup_count(counts: &Vec<(String, u32)>, kind: &String) -> (n: u32)
    ensures
        n == count_of(counts@, kind@),
{
    let mut i: usize = 0;
    assert(counts@.skip(0) =~= counts@);
    while i < counts.len()
        invariant
            i <= counts@.len(),
            count_of(counts@, kind@) == count_of(counts@.skip(i as int), kind@),
        decreases counts@.len() - i,
    {
        assert(counts@.skip(i as int)[0] == counts@[i as int]);
        assert(counts@.skip(i as int).drop_first() =~= counts@.skip(i + 1));
        if counts[i].0 == *kind {
            return counts[i].1;
        }
        i = i + 1;
    }
    0
}

/// The count of the first entry named `kind` is the recorded count.
proof fn lemma_count_at_first(counts: Seq<(String, u32)>, kind: Seq<char>, i: int)
    requires
        0 <= i < counts.len(),
        counts[i].0@ == kind,
        forall|j: int| 0 <= j < i ==> #[trigger] counts[j].0@ != kind,
    ensures
        count_of(counts, kind) == counts[i].1,
    decreases i,
{
    if i > 0 {
        assert forall|j: int| 0 <= j < i - 1 implies #[trigger] counts.drop_first()[j].0@ != kind by {
            assert(counts.drop_first()[j] == counts[j + 1]);
        }
        lemma_count_at_first(counts.drop_first(), kind, i - 1);
    }
}

/// A kind that no entry names has count zero.
proof fn lemma_count_absent(counts: Seq<(String, u32)>, kind: Seq<char>)
    requires
        forall|j: int| 0 <= j < counts.len() ==> #[trigger] counts[j].0@ != kind,
    ensures
        count_of(counts, kind) == 0,
    decreases counts.len(),
{
    if counts.len() > 0 {
        assert(counts[0].0@ != kind);
        assert forall|j: int| 0 <= j < counts.len() - 1 implies #[trigger] counts.drop_first()[j].0@
            != kind by {
            assert(counts.drop_first()[j] == counts[j + 1]);
        }
        lemma_count_absent(counts.drop_first(), kind);
    }
}

/// Appending an entry for another kind leaves a count unchanged.
proof fn lemma_count_push_other(counts: Seq<(String, u32)>, e: (String, u32), kind: Seq<char>)
    requires
        e.0@ != kind,
    ensures
        count_of(counts.push(e), kind) == count_of(counts, kind),
    decreases counts.len(),
{
    if counts.len() == 0 {
        assert(counts.push(e)[0] == e);
        assert(counts.push(e).drop_first() =~= Seq::<(String, u32)>::empty());
        assert(count_of(Seq::<(String, u32)>::empty(), kind) == 0);
    } else {
        assert(counts.push(e)[0] == counts[0]);
        assert(counts.push(e).drop_first() =~= counts.drop_first().push(e));
        lemma_count_push_other(counts.drop_first(), e, kind);
    }
}

/// Replacing an entry whose name is not `kind` by another entry whose name
/// is not `kind` leaves the count of `kind` unchanged.
proof fn lemma_count_update_other(
    counts: Seq<(String, u32)>,
    i: int,
    e: (String, u32),
    kind: Seq<char>,
)
    requires
        0 <= i < counts.len(),
        counts[i].0@ != kind,
        e.0@ != kind,
    ensures
        count_of(counts.update(i, e), kind) == count_of(counts, kind),
    decreases i,
{
    if i == 0 {
        assert(counts.update(i, e).drop_first() =~= counts.drop_first());
    } else {
        assert(counts.update(i, e)[0] == counts[0]);
        assert(counts.update(i, e).drop_first() =~= counts.drop_first().update(i - 1, e));
        lemma_count_update_other(counts.drop_first(), i - 1, e, kind);
    }
}

/// No two entries of the count list carry the same name (the list stands
/// for a map from names to counts).
pub open spec fn names_distinct(counts: Seq<(String, u32)>) -> bool {
    forall|i: int, j: int|
        0 <= i < j < counts.len() ==> #[trigger] counts[i].0@ != #[trigger] counts[j].0@
}

/// Sum of all counts in the list.
pub open spec fn total_count(counts: Seq<(String, u32)>) -> int
    decreases counts.len(),
{
    if counts.len() == 0 {
        0
    } else {
        total_count(counts.drop_last()) + counts.last().1
    }
}

/// Index of the first entry named `kind`, or the list's length when none
/// is.
pub open spec fn first_named(counts: Seq<(String, u32)>, kind: Seq<char>) -> int
    decreases counts.len(),
{
    if counts.len() == 0 {
        0
    } else if counts[0].0@ == kind {
        0
    } else {
        1 + first_named(counts.drop_first(), kind)
    }
}

/// `after` is `before` with one more `kind` recorded: the first entry named
/// `kind` counts one more, or, when there is none, the entry `(kind, 1)` is
/// appended; every other entry stays as it was, in its place.
pub open spec fn recorded_once(after: Seq<(String, u32)>, before: Seq<(String, u32)>, kind: Seq<char>) -> bool {
    let i = first_named(before, kind);
    if i < before.len() {
        &&& after.len() == before.len()
        &&& forall|j: int|
            0 <= j < after.len() ==> (#[trigger] after[j]).0@ == before[j].0@ && after[j].1 == if j
                == i {
                before[j].1 + 1
            } else {
                before[j].1 as int
            }
    } else {
        &&& after.len() == before.len() + 1
        &&& forall|j: int|
            0 <= j < before.len() ==> (#[trigger] after[j]).0@ == before[j].0@ && after[j].1
                == before[j].1
        &&& after[before.len() as int].0@ == kind
        &&& after[before.len() as int].1 == 1
    }
}

/// `first_named` points at the first entry named `kind`, and every entry
/// before it has another name.
pub proof fn lemma_first_named(counts: Seq<(String, u32)>, kind: Seq<char>)
    ensures
        0 <= first_named(counts, kind) <= counts.len(),
        first_named(counts, kind) < counts.len() ==> counts[first_named(counts, kind)].0@ == kind,
        forall|j: int| 0 <= j < first_named(counts, kind) ==> #[trigger] counts[j].0@ != kind,
    decreases counts.len(),
{
    if counts.len() > 0 && counts[0].0@ != kind {
        lemma_first_named(counts.drop_first(), kind);
        assert forall|j: int| 0 <= j < first_named(counts, kind) implies #[trigger] counts[j].0@ != kind by {
            if j > 0 {
                assert(counts[j] == counts.drop_first()[j - 1]);
            }
        }
    }
}

/// The entry at `i` is the first named `kind` when the entries before it
/// have other names.
proof fn lemma_first_named_at(counts: Seq<(String, u32)>, kind: Seq<char>, i: int)
    requires
        0 <= i <= counts.len(),
        i < counts.len() ==> counts[i].0@ == kind,
        forall|j: int| 0 <= j < i ==> #[trigger] counts[j].0@ != kind,
    ensures
        first_named(counts, kind) == i,
    decreases i,
{
    if i > 0 {
        assert forall|j: int| 0 <= j < i - 1 implies #[trigger] counts.drop_first()[j].0@ != kind by {
            assert(counts.drop_first()[j] == counts[j + 1]);
        }
        assert(counts[0].0@ != kind);
        lemma_first_named_at(counts.drop_first(), kind, i - 1);
    }
}

/// Raising one count by one raises the total by one.
proof fn lemma_total_update(counts: Seq<(String, u32)>, i: int, e: (String, u32))
    requires
        0 <= i < counts.len(),
        e.1 == counts[i].1 + 1,
    ensures
        total_count(counts.update(i, e)) == total_count(counts) + 1,
    decreases counts.len(),
{
    let u = counts.update(i, e);
    if i == counts.len() - 1 {
        assert(u.drop_last() =~= counts.drop_last());
    } else {
        assert(u.drop_last() =~= counts.drop_last().update(i, e));
        lemma_total_update(counts.drop_last(), i, e);
    }
}

/// In a list without repeated names, an entry's count is the count of its
/// name.
pub proof fn lemma_count_of_entry(counts: Seq<(String, u32)>, i: int)
    requires
        names_distinct(counts),
        0 <= i < counts.len(),
    ensures
        count_of(counts, counts[i].0@) == counts[i].1,
{
    assert forall|j: int| 0 <= j < i implies #[trigger] counts[j].0@ != counts[i].0@ by {
        assert(counts[j].0@ != counts[i].0@);
    }
    lemma_count_at_first(counts, counts[i].0@, i);
}

/// Adds one to the count recorded for `kind`, creating the entry on first
/// use; every other entry keeps its name, count and place, so a list
/// without repeated names keeps none, and the total grows by one.
pub fn record_count(counts: &mut Vec<(String, u32)>, kind: &str)
    requires
        count_of(old(counts)@, kind@) < u32::MAX,
    ensures
        recorded_once(final(counts)@, old(counts)@, kind@),
        names_distinct(old(counts)@) ==> names_distinct(final(counts)@),
        total_count(final(counts)@) == total_count(old(counts)@) + 1,
        count_of(final(counts)@, kind@) == count_of(old(counts)@, kind@) + 1,
        forall|other: Seq<char>|
            other != kind@ ==> #[trigger] count_of(final(counts)@, other) == count_of(
                old(counts)@,
                other,
            ),
{
    let ghost before = counts@;
    let mut i: usize = 0;
    while i < counts.len()
        invariant
            i <= counts.len(),
            counts@ == before,
            before == old(counts)@,
            count_of(before, kind@) < u32::MAX,
            forall|j: int| 0 <= j < i ==> #[trigger] counts@[j].0@ != kind@,
        decreases counts.len() - i,
    {
        if crate::text::text_eq(counts[i].0.as_str(), kind) {
            proof {
                lemma_count_at_first(before, kind@, i as int);
                lemma_first_named_at(before, kind@, i as int);
            }
            let name = counts[i].0.clone();
            let n = counts[i].1;
            let entry = (name, n + 1);
            counts.set(i, entry);
            proof {
                assert(counts@ == before.update(i as int, entry));
                assert forall|j: int| 0 <= j < i implies #[trigger] counts@[j].0@ != kind@ by {
                    assert(counts@[j] == before[j]);
                }
                lemma_count_at_first(counts@, kind@, i as int);
                assert forall|other: Seq<char>| other != kind@ implies #[trigger] count_of(
                    counts@,
                    other,
                ) == count_of(before, other) by {
                    lemma_count_update_other(before, i as int, entry, other);
                }
                lemma_total_update(before, i as int, entry);
                assert(recorded_once(counts@, before, kind@));
                if names_distinct(before) {
                    assert forall|a: int, b: int| 0 <= a < b < counts@.len() implies #[trigger] counts@[a].0@
                        != #[trigger] counts@[b].0@ by {
                        assert(counts@[a].0@ == before[a].0@);
                        assert(counts@[b].0@ == before[b].0@);
                        assert(before[a].0@ != before[b].0@);
                    }
                }
            }
            return;
        }
        i = i + 1;
    }
    let entry = (kind.to_string(), 1u32);
    counts.push(entry);
    proof {
        lemma_count_absent(before, kind@);
        lemma_first_named_at(before, kind@, before.len() as int);
        assert(counts@ == before.push(entry));
        assert forall|j: int| 0 <= j < before.len() implies #[trigger] counts@[j].0@ != kind@ by {
            assert(counts@[j] == before[j]);
        }
        lemma_count_at_first(counts@, kind@, before.len() as int);
        assert forall|other: Seq<char>| other != kind@ implies #[trigger] count_of(counts@, other)
            == count_of(before, other) by {
            lemma_count_push_other(before, entry, other);
        }
        assert(counts@.drop_last() =~= before);
        assert(recorded_once(counts@, before, kind@));
        if names_distinct(before) {
            assert forall|a: int, b: int| 0 <= a < b < counts@.len() implies #[trigger] counts@[a].0@
                != #[trigger] counts@[b].0@ by {
                if b < before.len() {
                    assert(counts@[a] == before[a]);
                    assert(counts@[b] == before[b]);
                    assert(before[a].0@ != before[b].0@);
                } else {
                    assert(counts@[a] == before[a]);
                }
            }
        }
    }
}

/// Before attack timing, an executor that has not yet attacked never
/// attacks.
pub proof fn lemma_no_attack_before_timing(last: u64, timing: u64, interval: u64, tick: u64)
    requires
        tick < timing,
    ensures
        !attack_due(false, last, timing, interval, tick),
{
}

/// Once attack timing is reached, an executor that has not yet attacked
/// attacks.
pub proof fn lemma_first_attack_at_timing(last: u64, timing: u64, interval: u64, tick: u64)
    requires
        tick >= timing,
    ensures
        attack_due(false, last, timing, interval, tick),
{
}

/// After an attack at tick `t`, no further attack happens before `t` plus
/// the interval, and one is due from then on.
pub proof fn lemma_attack_spacing(t: u64, timing: u64, interval: u64, tick: u64)
    ensures
        tick < t + interval ==> !attack_due(true, t, timing, interval, tick),
        tick >= t + interval ==> attack_due(true, t, timing, interval, tick),
{
}

/// A base under attack is always defended, whatever else holds.
pub proof fn lemma_defend_first(tick: u64, army: u32, enemy: u32, timing: u64, pct: u32, hyper: bool)
    ensures
        tactical_choice(tick, army, enemy, true, timing, pct, hyper) == TacticalDecision::Defend,
        tick < timing ==> tactical_choice(tick, army, enemy, false, timing, pct, hyper)
            == TacticalDecision::Hold,
{
}

/// Without hyper-aggression, an executor past attack timing and not under
/// attack attacks exactly when its army has the advantage its aggression
/// asks for: at least `100 - pct` percent of the enemy's army.
pub proof fn lemma_attack_needs_advantage(tick: u64, army: u32, enemy: u32, timing: u64, pct: u32)
    requires
        tick >= timing,
    ensures
        (tactical_choice(tick, army, enemy, false, timing, pct, false) == TacticalDecision::Attack)
            <==> army * 100 >= (100 - pct) * enemy,
        tactical_choice(tick, army, enemy, false, timing, pct, true) == TacticalDecision::Attack,
{
}

} // verus!
