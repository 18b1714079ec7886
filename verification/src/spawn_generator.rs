//! Seeded spawn placement: a small deterministic RNG and the integer spawn
//! layouts (corners, opposite sides, cross) that keep every spawn inside the
//! padded map.

use crate::scenario::{same_setup, BuildingPlacement, FactionSetup, Scenario, UnitPlacement};
use crate::text::{decimal, decimal_digits};
use vstd::prelude::*;
use vstd::string::StringExecFns;

verus! {

/// Predefined spawn patterns.
#[derive(Debug, Clone, Copy, PartialEq, Eq, Structural)]
pub enum SpawnPattern {
    /// Spawn at opposite corners (classic).
    Corners,
    /// Spawn on opposite sides (horizontal).
    Horizontal,
    /// Spawn on opposite sides (vertical).
    Vertical,
    /// Spawn at random positions with distance constraints.
    Random,
    /// Circular arena with central resources.
    Arena,
    /// Cross pattern (4 spawn points).
    Cross,
}

/// Initial generator state for a seed.
pub open spec fn rng_seed_state(seed: u64) -> u64 {
    ((seed + 0x9E3779B97F4A7C15) % 0x1_0000_0000_0000_0000) as u64
}

/// Successor of a generator state (a linear congruential step modulo 2^64).
#[verifier::opaque]
pub open spec fn rng_next(s: u64) -> u64 {
    ((s * 0x5DEECE66D + 11) % 0x1_0000_0000_0000_0000) as u64
}

/// Width of the half-open range `[min, max)` as the generator sees it.
pub open spec fn range_width(min: i32, max: i32) -> u64 {
    ((max - min) as i32) as u64
}

/// Generator state after drawing from `[min, max)` in state `s` (an empty
/// range draws nothing).
pub open spec fn draw_state(s: u64, min: i32, max: i32) -> u64 {
    if range_width(min, max) == 0 {
        s
    } else {
        rng_next(s)
    }
}

/// Value drawn from `[min, max)` in state `s`.
pub open spec fn draw_value(s: u64, min: i32, max: i32) -> int {
    if range_width(min, max) == 0 {
        min as int
    } else {
        min + ((rng_next(s) % range_width(min, max)) as i32)
    }
}

/// Offset in `[-j, j]` drawn in state `s` for a jitter of `j >= 0`.
pub open spec fn jitter_value(s: u64, j: int) -> int {
    -j + (rng_next(s) % ((2 * j + 1) as u64)) as int
}

/// Clamps `v` into `[lo, hi]`.
pub open spec fn clamp_int(v: int, lo: int, hi: int) -> int {
    if v < lo {
        lo
    } else if v > hi {
        hi
    } else {
        v
    }
}

/// Half of `v`, rounded toward zero (as integer division rounds).
pub open spec fn half(v: int) -> int {
    if v >= 0 {
        v / 2
    } else {
        -((-v) / 2)
    }
}

/// The padded map box `[p, w - p] x [p, h - p]` is non-empty and its
/// corners are representable.
pub open spec fn box_ok(w: i32, h: i32, p: i32) -> bool {
    &&& p <= w - p
    &&& p <= h - p
    &&& w - p <= i32::MAX
    &&& h - p <= i32::MAX
}

/// `pos` lies inside the padded map box.
pub open spec fn in_box(pos: (i32, i32), w: i32, h: i32, p: i32) -> bool {
    p <= pos.0 <= w - p && p <= pos.1 <= h - p
}

/// `pos` is `(x, y)` clamped into the padded map box.
pub open spec fn clamped_to(pos: (i32, i32), x: int, y: int, w: i32, h: i32, p: i32) -> bool {
    pos.0 == clamp_int(x, p as int, w - p) && pos.1 == clamp_int(y, p as int, h - p)
}

/// A jitter of `j` keeps every jittered coordinate of the box representable.
pub open spec fn jitter_ok(w: i32, h: i32, p: i32, j: i32) -> bool {
    &&& 0 <= j
    &&& 2 * j + 1 <= i32::MAX
    &&& p - j >= i32::MIN
    &&& w - p + j <= i32::MAX
    &&& h - p + j <= i32::MAX
}

/// Simple deterministic RNG for spawns.
#[derive(Debug, Clone)]
pub struct SpawnRng {
    state: u64,
}

proof fn lemma_wrap_step(s: u64, m: u64, r: u64)
    requires
        m == ((s as nat * 0x5DEECE66D as nat) % 0x1_0000_0000_0000_0000 as nat) as u64,
        r == (if m + 11 > u64::MAX {
            (m + 11 - 0x1_0000_0000_0000_0000) as u64
        } else {
            (m + 11) as u64
        }),
    ensures
        r == rng_next(s),
{
    reveal(rng_next);
    let x: int = s * 0x5DEECE66D;
    let md: int = 0x1_0000_0000_0000_0000;
    assert(m == x % md);
    vstd::arithmetic::div_mod::lemma_add_mod_noop(x, 11, md);
    assert((x + 11) % md == (m + 11) % md);
    if m + 11 >= md {
        vstd::arithmetic::div_mod::lemma_mod_self_0(md);
        assert((m + 11) % md == m + 11 - md) by {
            vstd::arithmetic::div_mod::lemma_mod_sub_multiples_vanish(m + 11 - md, md);
            vstd::arithmetic::div_mod::lemma_small_mod((m + 11 - md) as nat, md as nat);
        }
    } else {
        vstd::arithmetic::div_mod::lemma_small_mod((m + 11) as nat, md as nat);
    }
}

impl SpawnRng {
    /// Current generator state.
    pub closed spec fn state(&self) -> u64 {
        self.state
    }

    /// Create new RNG from seed.
    pub fn new(seed: u64) -> (r: Self)
        ensures
            r.state() == rng_seed_state(seed),
    {
        SpawnRng { state: seed.wrapping_add(0x9E3779B97F4A7C15) }
    }

    /// Get next random value (the new state).
    #[allow(clippy::should_implement_trait)]
    pub fn next(&mut self) -> (v: u64)
        ensures
            v == rng_next(old(self).state()),
            final(self).state() == v,
    {
        let m = self.state.wrapping_mul(0x5DEECE66D);
        let r = m.wrapping_add(11);
        proof {
            lemma_wrap_step(old(self).state, m, r);
        }
        self.state = r;
        r
    }

    /// Get random int in range `[min, max)`; an empty range gives `min`
    /// without drawing.
    pub fn next_range(&mut self, min: i32, max: i32) -> (v: i32)
        requires
            i32::MIN <= max - min <= i32::MAX,
            range_width(min, max) != 0 ==> i32::MIN <= min + ((rng_next(old(self).state())
                % range_width(min, max)) as i32) <= i32::MAX,
        ensures
            v == draw_value(old(self).state(), min, max),
            final(self).state() == draw_state(old(self).state(), min, max),
    {
        let range = (max - min) as u64;
        if range == 0 {
            return min;
        }
        let n = self.next();
        min + (n % range) as i32
    }
}

/// Draws one jitter offset in `[-j, j]`.
fn draw_jitter(rng: &mut SpawnRng, j: i32) -> (v: i32)
    requires
        0 <= j,
        2 * j + 1 <= i32::MAX,
    ensures
        v == jitter_value(old(rng).state(), j as int),
        -j <= v <= j,
        final(rng).state() == rng_next(old(rng).state()),
{
    let ghost s = rng.state();
    assert(range_width((-j) as i32, (j + 1) as i32) == (2 * j + 1) as u64);
    assert((rng_next(s) % ((2 * j + 1) as u64)) < 2 * j + 1);
    assert((rng_next(s) % ((2 * j + 1) as u64)) as i32 == (rng_next(s) % ((2 * j + 1) as u64)));
    rng.next_range(-j, j + 1)
}

/// Clamp a spawn position into the padded map box.
pub fn clamp_spawn(pos: (i32, i32), map_w: i32, map_h: i32, padding: i32) -> (r: (i32, i32))
    requires
        box_ok(map_w, map_h, padding),
    ensures
        clamped_to(r, pos.0 as int, pos.1 as int, map_w, map_h, padding),
        in_box(r, map_w, map_h, padding),
{
    let hi_x = map_w - padding;
    let hi_y = map_h - padding;
    let x = if pos.0 < padding {
        padding
    } else if pos.0 > hi_x {
        hi_x
    } else {
        pos.0
    };
    let y = if pos.1 < padding {
        padding
    } else if pos.1 > hi_y {
        hi_y
    } else {
        pos.1
    };
    (x, y)
}

/// Spawns at two opposite corners of the padded box, each jittered by up
/// to `jitter` on both axes and clamped back into the box.
///
/// The first draw picks the diagonal: an even value gives top-left and
/// bottom-right, an odd one top-right and bottom-left.
pub fn generate_corner_spawns(
    map_w: i32,
    map_h: i32,
    padding: i32,
    rng: &mut SpawnRng,
    jitter: i32,
) -> (spawns: Vec<(i32, i32)>)
    requires
        box_ok(map_w, map_h, padding),
        jitter_ok(map_w, map_h, padding, jitter),
    ensures
        ({
            let s1 = rng_next(old(rng).state());
            let s2 = rng_next(s1);
            let s3 = rng_next(s2);
            let s4 = rng_next(s3);
            let s5 = rng_next(s4);
            let main_diagonal = s1 % 2 == 0;
            let c1 = if main_diagonal { (padding, padding) } else { ((map_w - padding) as i32, padding) };
            let c2 = if main_diagonal {
                ((map_w - padding) as i32, (map_h - padding) as i32)
            } else {
                (padding, (map_h - padding) as i32)
            };
            &&& spawns@.len() == 2
            &&& clamped_to(spawns@[0], c1.0 + jitter_value(s1, jitter as int), c1.1 + jitter_value(s2, jitter as int), map_w, map_h, padding)
            &&& clamped_to(spawns@[1], c2.0 + jitter_value(s3, jitter as int), c2.1 + jitter_value(s4, jitter as int), map_w, map_h, padding)
            &&& final(rng).state() == s5
        }),
        forall|i: int| 0 <= i < spawns@.len() ==> in_box(#[trigger] spawns@[i], map_w, map_h, padding),
        spawns@[1].0 - spawns@[0].0 >= map_w - 2 * padding - 2 * jitter || spawns@[0].0 - spawns@[1].0
            >= map_w - 2 * padding - 2 * jitter,
        spawns@[1].1 - spawns@[0].1 >= map_h - 2 * padding - 2 * jitter,
{
    let right = map_w - padding;
    let bottom = map_h - padding;
    let pair = rng.next() % 2;
    let (c1, c2) = if pair == 0 {
        ((padding, padding), (right, bottom))
    } else {
        ((right, padding), (padding, bottom))
    };
    let dx1 = draw_jitter(rng, jitter);
    let dy1 = draw_jitter(rng, jitter);
    let dx2 = draw_jitter(rng, jitter);
    let dy2 = draw_jitter(rng, jitter);
    let spawn1 = clamp_spawn((c1.0 + dx1, c1.1 + dy1), map_w, map_h, padding);
    let spawn2 = clamp_spawn((c2.0 + dx2, c2.1 + dy2), map_w, map_h, padding);
    let mut spawns: Vec<(i32, i32)> = Vec::new();
    spawns.push(spawn1);
    spawns.push(spawn2);
    spawns
}

/// Spawns on the left and right edges of the padded box.  The left spawn's
/// height is jittered by up to `jitter_y` around the middle; the right one
/// mirrors it around the middle when `mirrored`, else draws its own jitter.
pub fn generate_horizontal_spawns(
    map_w: i32,
    map_h: i32,
    padding: i32,
    rng: &mut SpawnRng,
    jitter_y: i32,
    mirrored: bool,
) -> (spawns: Vec<(i32, i32)>)
    requires
        box_ok(map_w, map_h, padding),
        0 <= jitter_y,
        2 * jitter_y + 1 <= i32::MAX,
        map_h + jitter_y <= i32::MAX,
    ensures
        ({
            let s1 = rng_next(old(rng).state());
            let s2 = rng_next(s1);
            let y1 = half(map_h as int) + jitter_value(old(rng).state(), jitter_y as int);
            let y2 = if mirrored { map_h - y1 } else { half(map_h as int) + jitter_value(s1, jitter_y as int) };
            &&& spawns@.len() == 2
            &&& clamped_to(spawns@[0], padding as int, y1, map_w, map_h, padding)
            &&& clamped_to(spawns@[1], map_w - padding, y2, map_w, map_h, padding)
            &&& final(rng).state() == if mirrored { s1 } else { s2 }
        }),
        forall|i: int| 0 <= i < spawns@.len() ==> in_box(#[trigger] spawns@[i], map_w, map_h, padding),
        spawns@[0].0 == padding,
        spawns@[1].0 == map_w - padding,
        mirrored ==> spawns@[0].1 + spawns@[1].1 == map_h,
{
    let center_y = map_h / 2;
    let y1 = center_y + draw_jitter(rng, jitter_y);
    let y2 = if mirrored {
        map_h - y1
    } else {
        center_y + draw_jitter(rng, jitter_y)
    };
    let spawn1 = clamp_spawn((padding, y1), map_w, map_h, padding);
    let spawn2 = clamp_spawn((map_w - padding, y2), map_w, map_h, padding);
    let mut spawns: Vec<(i32, i32)> = Vec::new();
    spawns.push(spawn1);
    spawns.push(spawn2);
    spawns
}

/// Spawns on the top and bottom edges of the padded box.  The top spawn's
/// column is jittered by up to `jitter_x` around the middle; the bottom one
/// mirrors it around the middle when `mirrored`, else draws its own jitter.
pub fn generate_vertical_spawns(
    map_w: i32,
    map_h: i32,
    padding: i32,
    rng: &mut SpawnRng,
    jitter_x: i32,
    mirrored: bool,
) -> (spawns: Vec<(i32, i32)>)
    requires
        box_ok(map_w, map_h, padding),
        0 <= jitter_x,
        2 * jitter_x + 1 <= i32::MAX,
        map_w + jitter_x <= i32::MAX,
    ensures
        ({
            let s1 = rng_next(old(rng).state());
            let s2 = rng_next(s1);
            let x1 = half(map_w as int) + jitter_value(old(rng).state(), jitter_x as int);
            let x2 = if mirrored { map_w - x1 } else { half(map_w as int) + jitter_value(s1, jitter_x as int) };
            &&& spawns@.len() == 2
            &&& clamped_to(spawns@[0], x1, padding as int, map_w, map_h, padding)
            &&& clamped_to(spawns@[1], x2, map_h - padding, map_w, map_h, padding)
            &&& final(rng).state() == if mirrored { s1 } else { s2 }
        }),
        forall|i: int| 0 <= i < spawns@.len() ==> in_box(#[trigger] spawns@[i], map_w, map_h, padding),
        spawns@[0].1 == padding,
        spawns@[1].1 == map_h - padding,
        mirrored ==> spawns@[0].0 + spawns@[1].0 == map_w,
{
    let center_x = map_w / 2;
    let x1 = center_x + draw_jitter(rng, jitter_x);
    let x2 = if mirrored {
        map_w - x1
    } else {
        center_x + draw_jitter(rng, jitter_x)
    };
    let spawn1 = clamp_spawn((x1, padding), map_w, map_h, padding);
    let spawn2 = clamp_spawn((x2, map_h - padding), map_w, map_h, padding);
    let mut spawns: Vec<(i32, i32)> = Vec::new();
    spawns.push(spawn1);
    spawns.push(spawn2);
    spawns
}

/// Spawns at two opposite midpoints of the padded box's edges, each
/// jittered by up to `jitter` on both axes and clamped back into the box.
///
/// The first draw picks the axis: an even value gives top and bottom, an odd
/// one right and left.
pub fn generate_cross_spawns(
    map_w: i32,
    map_h: i32,
    padding: i32,
    rng: &mut SpawnRng,
    jitter: i32,
) -> (spawns: Vec<(i32, i32)>)
    requires
        box_ok(map_w, map_h, padding),
        jitter_ok(map_w, map_h, padding, jitter),
    ensures
        ({
            let s1 = rng_next(old(rng).state());
            let s2 = rng_next(s1);
            let s3 = rng_next(s2);
            let s4 = rng_next(s3);
            let s5 = rng_next(s4);
            let vertical_axis = s1 % 2 == 0;
            let c1 = if vertical_axis { ((half(map_w as int)) as i32, padding) } else { ((map_w - padding) as i32, (half(map_h as int)) as i32) };
            let c2 = if vertical_axis {
                ((half(map_w as int)) as i32, (map_h - padding) as i32)
            } else {
                (padding, (half(map_h as int)) as i32)
            };
            &&& spawns@.len() == 2
            &&& clamped_to(spawns@[0], c1.0 + jitter_value(s1, jitter as int), c1.1 + jitter_value(s2, jitter as int), map_w, map_h, padding)
            &&& clamped_to(spawns@[1], c2.0 + jitter_value(s3, jitter as int), c2.1 + jitter_value(s4, jitter as int), map_w, map_h, padding)
            &&& final(rng).state() == s5
        }),
        forall|i: int| 0 <= i < spawns@.len() ==> in_box(#[trigger] spawns@[i], map_w, map_h, padding),
        spawns@[1].1 - spawns@[0].1 >= map_h - 2 * padding - 2 * jitter || spawns@[0].0 - spawns@[1].0
            >= map_w - 2 * padding - 2 * jitter,
{
    let top = (map_w / 2, padding);
    let right = (map_w - padding, map_h / 2);
    let bottom = (map_w / 2, map_h - padding);
    let left = (padding, map_h / 2);
    let pair = rng.next() % 2;
    let (c1, c2) = if pair == 0 {
        (top, bottom)
    } else {
        (right, left)
    };
    let dx1 = draw_jitter(rng, jitter);
    let dy1 = draw_jitter(rng, jitter);
    let dx2 = draw_jitter(rng, jitter);
    let dy2 = draw_jitter(rng, jitter);
    let spawn1 = clamp_spawn((c1.0 + dx1, c1.1 + dy1), map_w, map_h, padding);
    let spawn2 = clamp_spawn((c2.0 + dx2, c2.1 + dy2), map_w, map_h, padding);
    let mut spawns: Vec<(i32, i32)> = Vec::new();
    spawns.push(spawn1);
    spawns.push(spawn2);
    spawns
}

/// The generator state after `k` steps from `s`.
pub open spec fn rng_advance(s: u64, k: nat) -> u64
    decreases k,
{
    if k == 0 {
        s
    } else {
        rng_next(rng_advance(s, (k - 1) as nat))
    }
}

/// `draws` is what successive calls of `next` return on a generator that
/// starts in state `s`: each draw steps the state the previous one left.
pub open spec fn successive_draws(s: u64, draws: Seq<u64>) -> bool {
    forall|i: int|
        0 <= i < draws.len() ==> #[trigger] draws[i] == rng_next(
            if i == 0 {
                s
            } else {
                draws[i - 1]
            },
        )
}

/// Draw `k` of successive draws from a state is that state advanced `k + 1`
/// steps.
proof fn lemma_draw_at(s: u64, draws: Seq<u64>, k: int)
    requires
        successive_draws(s, draws),
        0 <= k < draws.len(),
    ensures
        draws[k] == rng_advance(s, (k + 1) as nat),
    decreases k,
{
    assert(draws[k] == rng_next(
        if k == 0 {
            s
        } else {
            draws[k - 1]
        },
    ));
    if k > 0 {
        lemma_draw_at(s, draws, k - 1);
    }
    assert(rng_advance(s, (k + 1) as nat) == rng_next(rng_advance(s, k as nat)));
}

/// Successive draws from a state are that state advanced one, two, ...
/// steps.
pub proof fn lemma_draws_advance(s: u64, draws: Seq<u64>)
    requires
        successive_draws(s, draws),
    ensures
        forall|i: int| 0 <= i < draws.len() ==> #[trigger] draws[i] == rng_advance(s, (i + 1) as nat),
{
    assert forall|i: int| 0 <= i < draws.len() implies #[trigger] draws[i] == rng_advance(s, (i + 1) as nat) by {
        lemma_draw_at(s, draws, i);
    }
}

/// Two generators made from one seed give the same draw at every position:
/// the k-th draw depends on the seed alone.  The first one is
/// `(seed + 0x9E3779B97F4A7C15) * 0x5DEECE66D + 11`, modulo 2^64.
pub proof fn lemma_same_seed_same_draws(seed: u64, a: Seq<u64>, b: Seq<u64>)
    requires
        successive_draws(rng_seed_state(seed), a),
        successive_draws(rng_seed_state(seed), b),
    ensures
        forall|k: int| 0 <= k < a.len() && 0 <= k < b.len() ==> #[trigger] a[k] == #[trigger] b[k],
        a.len() > 0 ==> a[0] == ((((seed + 0x9E3779B97F4A7C15) % 0x1_0000_0000_0000_0000) * 0x5DEECE66D + 11)
            % 0x1_0000_0000_0000_0000),
{
    lemma_draws_advance(rng_seed_state(seed), a);
    lemma_draws_advance(rng_seed_state(seed), b);
    if a.len() > 0 {
        assert(a[0] == rng_next(rng_seed_state(seed)));
        reveal(rng_next);
    }
}

/// The spawn pattern picked for index `i` of the dynamic-scenario rotation.
pub open spec fn rotation_pattern(i: nat) -> SpawnPattern {
    if i == 0 {
        SpawnPattern::Corners
    } else if i == 1 {
        SpawnPattern::Horizontal
    } else if i == 2 {
        SpawnPattern::Vertical
    } else if i == 3 {
        SpawnPattern::Arena
    } else {
        SpawnPattern::Cross
    }
}

/// The spawn pattern a dynamic scenario uses for `seed`: the first draw of
/// the seed's generator, modulo five, picks corners, horizontal, vertical,
/// arena or cross.
pub fn dynamic_spawn_pattern(seed: u64) -> (p: SpawnPattern)
    ensures
        p == rotation_pattern((rng_next(rng_seed_state(seed)) % 5) as nat),
{
    let mut rng = SpawnRng::new(seed);
    let idx = rng.next() % 5;
    if idx == 0 {
        SpawnPattern::Corners
    } else if idx == 1 {
        SpawnPattern::Horizontal
    } else if idx == 2 {
        SpawnPattern::Vertical
    } else if idx == 3 {
        SpawnPattern::Arena
    } else {
        SpawnPattern::Cross
    }
}

/// Starting resources after applying a variance, never below 500.
pub open spec fn varied_resources(start: i64, variance: int) -> int {
    if start + variance > 500 {
        start + variance
    } else {
        500
    }
}

/// `pos` keeps its offset from the spawn point when the spawn point moves
/// from `from` to `to`: `to + (pos - from)` on both axes.
pub open spec fn keeps_offset(moved: (i32, i32), pos: (i32, i32), from: (i32, i32), to: (i32, i32)) -> bool {
    &&& moved.0 == to.0 + pos.0 - from.0
    &&& moved.1 == to.1 + pos.1 - from.1
}

/// Moving `pos` along with its spawn point from `from` to `to` stays within
/// the coordinate range.
pub open spec fn offset_fits(pos: (i32, i32), from: (i32, i32), to: (i32, i32)) -> bool {
    &&& i32::MIN <= to.0 + pos.0 - from.0 <= i32::MAX
    &&& i32::MIN <= to.1 + pos.1 - from.1 <= i32::MAX
}

/// Every starting unit and building of `b` can move along with its spawn
/// point to `to`.
pub open spec fn forces_fit(b: FactionSetup, to: (i32, i32)) -> bool {
    &&& forall|k: int|
        0 <= k < b.starting_units@.len() ==> offset_fits(
            #[trigger] b.starting_units@[k].position,
            b.spawn_position,
            to,
        )
    &&& forall|k: int|
        0 <= k < b.starting_buildings@.len() ==> offset_fits(
            #[trigger] b.starting_buildings@[k].position,
            b.spawn_position,
            to,
        )
}

/// `new` holds the units of `old`, each kept at its offset from the spawn
/// point as that moves from `from` to `to`.
pub open spec fn units_moved(new: Seq<UnitPlacement>, old: Seq<UnitPlacement>, from: (i32, i32), to: (i32, i32)) -> bool {
    &&& new.len() == old.len()
    &&& forall|k: int|
        0 <= k < new.len() ==> {
            &&& (#[trigger] new[k]).kind@ == old[k].kind@
            &&& new[k].count == old[k].count
            &&& keeps_offset(new[k].position, old[k].position, from, to)
        }
}

/// `new` holds the buildings of `old`, each kept at its offset from the
/// spawn point as that moves from `from` to `to`.
pub open spec fn buildings_moved(
    new: Seq<BuildingPlacement>,
    old: Seq<BuildingPlacement>,
    from: (i32, i32),
    to: (i32, i32),
) -> bool {
    &&& new.len() == old.len()
    &&& forall|k: int|
        0 <= k < new.len() ==> {
            &&& (#[trigger] new[k]).kind@ == old[k].kind@
            &&& keeps_offset(new[k].position, old[k].position, from, to)
        }
}

/// `f` is the base setup `b` of faction `i` of a dynamic scenario: when a
/// spawn point was generated for it, it moves there and takes its starting
/// units and buildings along (each keeps its offset from the spawn point);
/// its starting resources are varied; everything else is unchanged.
pub open spec fn dynamic_faction(
    f: FactionSetup,
    b: FactionSetup,
    i: int,
    spawns: Seq<(i32, i32)>,
    seed: u64,
    resource_variance: i64,
) -> bool {
    &&& f.faction_id == b.faction_id
    &&& f.ai_controller == b.ai_controller
    &&& if i < spawns.len() {
        &&& f.spawn_position == spawns[i]
        &&& units_moved(f.starting_units@, b.starting_units@, b.spawn_position, spawns[i])
        &&& buildings_moved(f.starting_buildings@, b.starting_buildings@, b.spawn_position, spawns[i])
    } else {
        &&& f.spawn_position == b.spawn_position
        &&& f.starting_units@ == b.starting_units@
        &&& f.starting_buildings@ == b.starting_buildings@
    }
    &&& f.starting_resources == varied_resources(
        b.starting_resources,
        jitter_value(rng_advance(rng_seed_state(seed), (i + 1) as nat), resource_variance as int),
    )
}

fn shift_point(pos: (i32, i32), from: (i32, i32), to: (i32, i32)) -> (r: (i32, i32))
    requires
        offset_fits(pos, from, to),
    ensures
        keeps_offset(r, pos, from, to),
{
    (
        (to.0 as i64 + pos.0 as i64 - from.0 as i64) as i32,
        (to.1 as i64 + pos.1 as i64 - from.1 as i64) as i32,
    )
}

/// Starting units moved along with their spawn point from `from` to `to`.
fn move_units(units: &Vec<UnitPlacement>, from: (i32, i32), to: (i32, i32)) -> (r: Vec<UnitPlacement>)
    requires
        forall|k: int| 0 <= k < units@.len() ==> offset_fits(#[trigger] units@[k].position, from, to),
    ensures
        units_moved(r@, units@, from, to),
{
    let mut r: Vec<UnitPlacement> = Vec::new();
    let mut k: usize = 0;
    while k < units.len()
        invariant
            k <= units@.len(),
            forall|j: int| 0 <= j < units@.len() ==> offset_fits(#[trigger] units@[j].position, from, to),
            r@.len() == k,
            forall|j: int|
                0 <= j < k ==> {
                    &&& (#[trigger] r@[j]).kind@ == units@[j].kind@
                    &&& r@[j].count == units@[j].count
                    &&& keeps_offset(r@[j].position, units@[j].position, from, to)
                },
        decreases units@.len() - k,
    {
        let u = &units[k];
        let position = shift_point(u.position, from, to);
        r.push(UnitPlacement { kind: u.kind.clone(), position, count: u.count });
        k = k + 1;
    }
    r
}

/// Starting buildings moved along with their spawn point from `from` to
/// `to`.
fn move_buildings(buildings: &Vec<BuildingPlacement>, from: (i32, i32), to: (i32, i32)) -> (r: Vec<BuildingPlacement>)
    requires
        forall|k: int| 0 <= k < buildings@.len() ==> offset_fits(#[trigger] buildings@[k].position, from, to),
    ensures
        buildings_moved(r@, buildings@, from, to),
{
    let mut r: Vec<BuildingPlacement> = Vec::new();
    let mut k: usize = 0;
    while k < buildings.len()
        invariant
            k <= buildings@.len(),
            forall|j: int| 0 <= j < buildings@.len() ==> offset_fits(#[trigger] buildings@[j].position, from, to),
            r@.len() == k,
            forall|j: int|
                0 <= j < k ==> {
                    &&& (#[trigger] r@[j]).kind@ == buildings@[j].kind@
                    &&& keeps_offset(r@[j].position, buildings@[j].position, from, to)
                },
        decreases buildings@.len() - k,
    {
        let b = &buildings[k];
        let position = shift_point(b.position, from, to);
        r.push(BuildingPlacement { kind: b.kind.clone(), position });
        k = k + 1;
    }
    r
}

/// Varies a base scenario for a seed: faction `i` moves to `spawns[i]`
/// and takes its starting units and buildings along, each keeping its
/// offset from the spawn point,
/// every faction's starting resources move by a seeded amount in
/// `[-resource_variance, resource_variance]` but not below 500, and the
/// seed is appended to the name.
///
/// The resource draws continue the seed's generator after the draw that
/// [`dynamic_spawn_pattern`] uses, one draw per faction in order.
pub fn generate_dynamic_scenario(
    seed: u64,
    base: &Scenario,
    spawns: &Vec<(i32, i32)>,
    resource_variance: i64,
) -> (s: Scenario)
    requires
        0 <= resource_variance,
        2 * resource_variance + 1 <= i32::MAX,
        forall|i: int|
            0 <= i < base.factions@.len() ==> i64::MIN + resource_variance
                <= #[trigger] base.factions@[i].starting_resources <= i64::MAX - resource_variance,
        forall|i: int|
            0 <= i < base.factions@.len() && i < spawns@.len() ==> forces_fit(
                #[trigger] base.factions@[i],
                spawns@[i],
            ),
    ensures
        s.name@ == base.name@ + " (seed:"@ + decimal_digits(seed as nat) + ")"@,
        s.description == base.description,
        s.map_size == base.map_size,
        s.victory_conditions == base.victory_conditions,
        s.initial_resources.ore_nodes@ == base.initial_resources.ore_nodes@,
        s.factions@.len() == base.factions@.len(),
        forall|i: int|
            0 <= i < s.factions@.len() ==> dynamic_faction(
                #[trigger] s.factions@[i],
                base.factions@[i],
                i,
                spawns@,
                seed,
                resource_variance,
            ),
        forall|i: int| 0 <= i < s.factions@.len() ==> #[trigger] s.factions@[i].starting_resources >= 500,
{
    let mut scenario = base.clone();
    let mut rng = SpawnRng::new(seed);
    let _pattern_draw = rng.next();
    assert(rng_advance(rng_seed_state(seed), 1) == rng_next(rng_advance(rng_seed_state(seed), 0)));
    let rv = resource_variance as i32;
    let mut factions: Vec<FactionSetup> = Vec::new();
    let n = base.factions.len();
    let mut i: usize = 0;
    while i < n
        invariant
            n == base.factions@.len(),
            i <= n,
            factions@.len() == i,
            rv == resource_variance,
            0 <= rv,
            2 * rv + 1 <= i32::MAX,
            rng.state() == rng_advance(rng_seed_state(seed), (i + 1) as nat),
            forall|k: int|
                0 <= k < base.factions@.len() ==> i64::MIN + resource_variance
                    <= #[trigger] base.factions@[k].starting_resources <= i64::MAX
                    - resource_variance,
            forall|k: int|
                0 <= k < base.factions@.len() && k < spawns@.len() ==> forces_fit(
                    #[trigger] base.factions@[k],
                    spawns@[k],
                ),
            forall|k: int|
                0 <= k < i ==> dynamic_faction(
                    #[trigger] factions@[k],
                    base.factions@[k],
                    k,
                    spawns@,
                    seed,
                    resource_variance,
                ),
        decreases n - i,
    {
        let mut faction = base.factions[i].clone();
        if i < spawns.len() {
            let from = base.factions[i].spawn_position;
            let to = spawns[i];
            proof {
                assert(forces_fit(base.factions@[i as int], spawns@[i as int]));
            }
            faction.starting_units = move_units(&base.factions[i].starting_units, from, to);
            faction.starting_buildings = move_buildings(&base.factions[i].starting_buildings, from, to);
            faction.spawn_position = to;
        }
        let ghost before = rng.state();
        let variance = draw_jitter(&mut rng, rv) as i64;
        let total = faction.starting_resources + variance;
        faction.starting_resources = if total > 500 {
            total
        } else {
            500
        };
        factions.push(faction);
        i = i + 1;
    }
    scenario.factions = factions;
    let mut name = base.name.clone();
    name.append(" (seed:");
    name.append(decimal(seed).as_str());
    name.append(")");
    scenario.name = name;
    scenario
}

} // verus!
