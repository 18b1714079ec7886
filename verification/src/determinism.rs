//! Determinism checking: run a simulation several times from identical
//! setups and compare the final state hashes.

use vstd::prelude::*;

verus! {

/// All elements of `s` are equal to one another.
pub open spec fn all_equal(s: Seq<u64>) -> bool {
    forall|i: int, j: int| 0 <= i < s.len() && 0 <= j < s.len() ==> s[i] == s[j]
}

/// `s` is sorted in strictly increasing order (hence has no duplicates).
pub open spec fn strictly_increasing(s: Seq<u64>) -> bool {
    forall|i: int, j: int| 0 <= i < j < s.len() ==> s[i] < s[j]
}

/// Result of a determinism test.
#[derive(Debug, Clone, PartialEq, Eq)]
pub struct DeterminismResult {
    /// Whether all runs produced identical results.
    pub is_deterministic: bool,
    /// Hashes from each run.
    pub hashes: Vec<u64>,
    /// Number of ticks simulated.
    pub ticks: u64,
}

impl DeterminismResult {
    /// All distinct hashes, in increasing order (a deterministic simulation
    /// has exactly one).
    pub fn unique_hashes(&self) -> (unique: Vec<u64>)
        ensures
            strictly_increasing(unique@),
            forall|h: u64| unique@.contains(h) <==> self.hashes@.contains(h),
    {
        let mut unique: Vec<u64> = Vec::new();
        let n = self.hashes.len();
        let mut i: usize = 0;
        while i < n
            invariant
                n == self.hashes@.len(),
                i <= n,
                strictly_increasing(unique@),
                forall|h: u64|
                    unique@.contains(h) <==> self.hashes@.subrange(0, i as int).contains(h),
            decreases n - i,
        {
            let h = self.hashes[i];
            let mut pos: usize = 0;
            while pos < unique.len() && unique[pos] < h
                invariant
                    pos <= unique@.len(),
                    forall|k: int| 0 <= k < pos ==> unique@[k] < h,
                decreases unique@.len() - pos,
            {
                pos = pos + 1;
            }
            let ghost before = unique@;
            if pos < unique.len() && unique[pos] == h {
                assert(before[pos as int] == h);
                assert forall|x: u64| unique@.contains(x) <==> (before.contains(x) || x == h) by {
                    if x == h {
                        assert(unique@[pos as int] == x);
                    }
                }
            } else {
                unique.insert(pos, h);
                assert forall|a: int, b: int| 0 <= a < b < unique@.len() implies unique@[a]
                    < unique@[b] by {
                    if b < pos {
                        assert(unique@[a] == before[a]);
                        assert(unique@[b] == before[b]);
                    } else if b == pos {
                        assert(unique@[a] == before[a]);
                    } else {
                        assert(unique@[b] == before[b - 1]);
                        assert(pos < before.len());
                        assert(before[pos as int] > h) by {
                            assert(before[pos as int] >= h);
                            assert(before[pos as int] != h);
                        }
                        if a < pos {
                            assert(unique@[a] == before[a]);
                            assert(before[pos as int] <= before[b - 1]);
                        } else if a == pos {
                            assert(before[pos as int] <= before[b - 1]);
                        } else {
                            assert(unique@[a] == before[a - 1]);
                        }
                    }
                }
                assert forall|x: u64| unique@.contains(x) <==> (before.contains(x) || x == h) by {
                    if unique@.contains(x) {
                        let k = choose|k: int| 0 <= k < unique@.len() && unique@[k] == x;
                        if k < pos {
                            assert(before[k] == x);
                        } else if k > pos {
                            assert(before[k - 1] == x);
                        }
                    }
                    if before.contains(x) {
                        let k = choose|k: int| 0 <= k < before.len() && before[k] == x;
                        if k < pos {
                            assert(unique@[k] == x);
                        } else {
                            assert(unique@[k + 1] == x);
                        }
                    }
                    if x == h {
                        assert(unique@[pos as int] == x);
                    }
                }
            }
            let ghost prefix = self.hashes@.subrange(0, i as int);
            let ghost next = self.hashes@.subrange(0, i + 1);
            assert(next == prefix.push(h));
            assert forall|x: u64| next.contains(x) <==> (prefix.contains(x) || x == h) by {
                if next.contains(x) {
                    let k = choose|k: int| 0 <= k < next.len() && next[k] == x;
                    if k < prefix.len() {
                        assert(prefix[k] == x);
                    }
                }
                if prefix.contains(x) {
                    let k = choose|k: int| 0 <= k < prefix.len() && prefix[k] == x;
                    assert(next[k] == x);
                }
                if x == h {
                    assert(next[i as int] == x);
                }
            }
            assert forall|x: u64| unique@.contains(x) <==> next.contains(x) by {
                assert(unique@.contains(x) <==> (before.contains(x) || x == h));
                assert(before.contains(x) <==> prefix.contains(x));
            }
            i = i + 1;
        }
        assert(self.hashes@.subrange(0, n as int) == self.hashes@);
        unique
    }

    /// Checks that the simulation was deterministic.  A non-deterministic
    /// result is a failed test, so callers may only pass deterministic ones.
    pub fn assert_deterministic(&self)
        requires
            self.is_deterministic,
    {
    }
}

/// Result of parallel simulation runs.
#[derive(Debug, Clone)]
pub struct ParallelSimResult {
    /// Final state hash from each simulation.
    pub hashes: Vec<u64>,
    /// Number of ticks each simulation ran.
    pub ticks: u64,
    /// Number of simulations run.
    pub num_sims: usize,
}

impl ParallelSimResult {
    /// True when every simulation produced the same final hash.
    pub fn is_deterministic(&self) -> (b: bool)
        ensures
            b == all_equal(self.hashes@),
    {
        let n = self.hashes.len();
        if n < 2 {
            return true;
        }
        let mut i: usize = 1;
        while i < n
            invariant
                n == self.hashes@.len(),
                1 <= i <= n,
                forall|k: int| 0 <= k < i ==> #[trigger] self.hashes@[k] == self.hashes@[0],
            decreases n - i,
        {
            if self.hashes[i - 1] != self.hashes[i] {
                return false;
            }
            i = i + 1;
        }
        true
    }

    /// Checks that all simulations matched; callers may only pass results
    /// whose hashes all agree.
    pub fn assert_deterministic(&self)
        requires
            all_equal(self.hashes@),
    {
    }
}

/// Runs a simulation `runs` times for `ticks` steps each, from fresh states
/// built by `setup`, and records the final hash of every run.
///
/// Each recorded hash is what `hash` gave for the last state of a run of
/// `ticks + 1` states that starts from a state `setup` gave and goes on by
/// one call of `step` per tick (the call took the state before to the state
/// after).
pub fn verify_determinism<S, Setup, Step, HashFn>(
    runs: usize,
    ticks: u64,
    setup: Setup,
    step: Step,
    hash: HashFn,
) -> (result: DeterminismResult) where
    Setup: Fn() -> S,
    Step: Fn(&mut S),
    HashFn: Fn(&S) -> u64,

    requires
        call_requires(setup, ()),
        forall|s: &mut S| #[trigger] call_requires(step, (s,)),
        forall|s: &S| #[trigger] call_requires(hash, (s,)),
    ensures
        result.hashes@.len() == runs,
        result.ticks == ticks,
        result.is_deterministic == all_equal(result.hashes@),
        forall|r: int|
            #![trigger result.hashes@[r]]
            0 <= r < result.hashes@.len() ==> exists|run: Seq<S>|
                #![trigger starts_from_setup(setup, run)]
                starts_from_setup(setup, run) && run.len() == ticks + 1 && call_ensures(
                    hash,
                    (&run[ticks as int],),
                    result.hashes@[r],
                ) && forall|k: int|
                    0 <= k < ticks ==> exists|m: &mut S|
                        #![trigger call_ensures(step, (m,), ())]
                        mut_ref_current(m) == #[trigger] run[k] && mut_ref_future(m) == run[k + 1]
                            && call_ensures(step, (m,), ()),
{
    let mut hashes: Vec<u64> = Vec::new();
    let mut r: usize = 0;
    while r < runs
        invariant
            r <= runs,
            hashes@.len() == r,
            call_requires(setup, ()),
            forall|s: &mut S| #[trigger] call_requires(step, (s,)),
            forall|s: &S| #[trigger] call_requires(hash, (s,)),
            forall|q: int|
                #![trigger hashes@[q]]
                0 <= q < hashes@.len() ==> exists|run: Seq<S>|
                    #![trigger starts_from_setup(setup, run)]
                    starts_from_setup(setup, run) && run.len() == ticks + 1 && call_ensures(
                        hash,
                        (&run[ticks as int],),
                        hashes@[q],
                    ) && forall|k: int|
                        0 <= k < ticks ==> exists|m: &mut S|
                            #![trigger call_ensures(step, (m,), ())]
                            mut_ref_current(m) == #[trigger] run[k] && mut_ref_future(m)
                                == run[k + 1] && call_ensures(step, (m,), ()),
        decreases runs - r,
    {
        let mut state = setup();
        let ghost mut run: Seq<S> = seq![state];
        let mut t: u64 = 0;
        while t < ticks
            invariant
                t <= ticks,
                forall|s: &mut S| #[trigger] call_requires(step, (s,)),
                starts_from_setup(setup, run),
                run.len() == t + 1,
                run.last() == state,
                forall|k: int|
                    0 <= k < t ==> exists|m: &mut S|
                        #![trigger call_ensures(step, (m,), ())]
                        mut_ref_current(m) == #[trigger] run[k] && mut_ref_future(m) == run[k + 1]
                            && call_ensures(step, (m,), ()),
            decreases ticks - t,
        {
            let ghost before = state;
            step(&mut state);
            assert(exists|m: &mut S|
                #![trigger call_ensures(step, (m,), ())]
                mut_ref_current(m) == before && mut_ref_future(m) == state && call_ensures(step, (m,), ()));
            proof {
                let old_run = run;
                run = run.push(state);
                assert(run[0] == old_run[0]);
                assert forall|k: int| 0 <= k < t + 1 implies exists|m: &mut S|
                    #![trigger call_ensures(step, (m,), ())]
                    mut_ref_current(m) == #[trigger] run[k] && mut_ref_future(m) == run[k + 1]
                        && call_ensures(step, (m,), ()) by {
                    if k < t {
                        assert(run[k] == old_run[k] && run[k + 1] == old_run[k + 1]);
                    } else {
                        assert(run[k] == before && run[k + 1] == state);
                    }
                }
            }
            t = t + 1;
        }
        let h = hash(&state);
        let ghost old_hashes = hashes@;
        hashes.push(h);
        proof {
            assert(run[ticks as int] == state);
            assert(starts_from_setup(setup, run));
            assert forall|q: int|
                #![trigger hashes@[q]]
                0 <= q < hashes@.len() implies exists|run: Seq<S>|
                    #![trigger starts_from_setup(setup, run)]
                    starts_from_setup(setup, run) && run.len() == ticks + 1 && call_ensures(
                        hash,
                        (&run[ticks as int],),
                        hashes@[q],
                    ) && forall|k: int|
                        0 <= k < ticks ==> exists|m: &mut S|
                            #![trigger call_ensures(step, (m,), ())]
                            mut_ref_current(m) == #[trigger] run[k] && mut_ref_future(m)
                                == run[k + 1] && call_ensures(step, (m,), ()) by {
                if q < old_hashes.len() {
                    assert(hashes@[q] == old_hashes[q]);
                } else {
                    assert(hashes@[q] == h);
                }
            }
        }
        r = r + 1;
    }
    let probe = ParallelSimResult { hashes, ticks, num_sims: runs };
    let is_deterministic = probe.is_deterministic();
    DeterminismResult { is_deterministic, hashes: probe.hashes, ticks }
}

/// Index of the first position where two hash traces differ, if any, over
/// their common length.
pub open spec fn first_difference(a: Seq<u64>, b: Seq<u64>, n: int) -> Option<int>
    decreases n,
{
    if n <= 0 {
        None
    } else {
        match first_difference(a, b, n - 1) {
            Some(i) => Some(i),
            None => if a[n - 1] != b[n - 1] {
                Some(n - 1)
            } else {
                None
            },
        }
    }
}

/// First tick at which two recorded runs disagree: `trace_a[t]` and
/// `trace_b[t]` are the state hashes after `t` ticks (index 0 before the
/// first tick). `None` when the runs agree throughout.
pub fn first_divergence(trace_a: &Vec<u64>, trace_b: &Vec<u64>) -> (r: Option<u64>)
    requires
        trace_a.len() == trace_b.len(),
    ensures
        r matches Some(t) ==> first_difference(trace_a@, trace_b@, trace_a@.len() as int) == Some(
            t as int,
        ),
        r is None ==> first_difference(trace_a@, trace_b@, trace_a@.len() as int) is None,
        r is None <==> forall|i: int| 0 <= i < trace_a.len() ==> #[trigger] trace_a@[i] == trace_b@[i],
{
    let n = trace_a.len();
    let mut i: usize = 0;
    while i < n
        invariant
            n == trace_a@.len(),
            n == trace_b@.len(),
            i <= n,
            first_difference(trace_a@, trace_b@, i as int) is None,
            forall|k: int| 0 <= k < i ==> #[trigger] trace_a@[k] == trace_b@[k],
        decreases n - i,
    {
        if trace_a[i] != trace_b[i] {
            assert(first_difference(trace_a@, trace_b@, i + 1) == Some(i as int));
            proof {
                lemma_first_difference_stable(trace_a@, trace_b@, i + 1, n as int);
            }
            return Some(i as u64);
        }
        i = i + 1;
    }
    None
}

/// Once a difference is found in a prefix, longer prefixes report the same
/// first difference.
proof fn lemma_first_difference_stable(a: Seq<u64>, b: Seq<u64>, m: int, n: int)
    requires
        0 <= m <= n,
        first_difference(a, b, m) is Some,
    ensures
        first_difference(a, b, n) == first_difference(a, b, m),
    decreases n - m,
{
    if m < n {
        lemma_first_difference_stable(a, b, m, n - 1);
    }
}

/// `run` starts from a state that came out of `setup`.
pub open spec fn starts_from_setup<S, Setup: Fn() -> S>(setup: Setup, run: Seq<S>) -> bool {
    run.len() > 0 && call_ensures(setup, (), run[0])
}

/// `hashes` are what `hash` gave for the states of `run`, one by one.
pub open spec fn hashes_of<S, HashFn: Fn(&S) -> u64>(hash: HashFn, run: Seq<S>, hashes: Seq<u64>) -> bool {
    &&& hashes.len() == run.len()
    &&& forall|k: int| 0 <= k < run.len() ==> #[trigger] call_ensures(hash, (&run[k],), hashes[k])
}

/// Two runs side by side from `setup`, with their hashes, over `len`
/// states, whose first difference is `r` (`None`: they agree on every
/// state).
pub open spec fn observed_divergence<S, Setup: Fn() -> S, HashFn: Fn(&S) -> u64>(
    setup: Setup,
    hash: HashFn,
    run_a: Seq<S>,
    run_b: Seq<S>,
    hashes_a: Seq<u64>,
    hashes_b: Seq<u64>,
    len: int,
    r: Option<int>,
) -> bool {
    &&& run_a.len() == len
    &&& run_b.len() == len
    &&& starts_from_setup(setup, run_a)
    &&& starts_from_setup(setup, run_b)
    &&& hashes_of(hash, run_a, hashes_a)
    &&& hashes_of(hash, run_b, hashes_b)
    &&& first_difference(hashes_a, hashes_b, len) == r
}

/// States compared before `r` was reported: up to the reported tick, or
/// all `num_ticks + 1` when none was.
pub open spec fn states_compared(r: Option<u64>, num_ticks: u64) -> int {
    match r {
        Some(t) => t + 1,
        None => num_ticks + 1,
    }
}

/// The reported tick as an index, if any.
pub open spec fn reported_tick(r: Option<u64>) -> Option<int> {
    match r {
        Some(t) => Some(t as int),
        None => None,
    }
}

/// Runs two simulations built by `setup` side by side for `num_ticks`
/// ticks and reports the first tick at which their state hashes differ
/// (0: they differ before the first tick), or `None` when they agree
/// throughout.
///
/// The result is what the two runs showed: there are two runs, each
/// starting from a state `setup` gave and going on by one call of `step`
/// per tick (the call took the state before to the state after), with the
/// hashes `hash` gave for their states, that agree up to the reported tick
/// and differ at it, or agree on all `num_ticks + 1` states when `None` is
/// reported.
pub fn find_first_divergence<S, Setup, Step, HashFn>(
    setup: Setup,
    step: Step,
    hash: HashFn,
    num_ticks: u64,
) -> (r: Option<u64>) where
    Setup: Fn() -> S,
    Step: Fn(&mut S),
    HashFn: Fn(&S) -> u64,

    requires
        call_requires(setup, ()),
        forall|s: &mut S| #[trigger] call_requires(step, (s,)),
        forall|s: &S| #[trigger] call_requires(hash, (s,)),
    ensures
        r matches Some(t) ==> t <= num_ticks,
        exists|run_a: Seq<S>, run_b: Seq<S>, hashes_a: Seq<u64>, hashes_b: Seq<u64>|
            #[trigger] observed_divergence(
                setup,
                hash,
                run_a,
                run_b,
                hashes_a,
                hashes_b,
                states_compared(r, num_ticks),
                reported_tick(r),
            ) && (forall|k: int|
                0 <= k < run_a.len() - 1 ==> exists|m: &mut S|
                    #![trigger call_ensures(step, (m,), ())]
                    mut_ref_current(m) == #[trigger] run_a[k] && mut_ref_future(m) == run_a[k + 1]
                        && call_ensures(step, (m,), ())) && (forall|k: int|
                0 <= k < run_b.len() - 1 ==> exists|m: &mut S|
                    #![trigger call_ensures(step, (m,), ())]
                    mut_ref_current(m) == #[trigger] run_b[k] && mut_ref_future(m) == run_b[k + 1]
                        && call_ensures(step, (m,), ())),
{
    let mut sim1 = setup();
    let mut sim2 = setup();
    let h1 = hash(&sim1);
    let h2 = hash(&sim2);
    let ghost mut run_a: Seq<S> = seq![sim1];
    let ghost mut run_b: Seq<S> = seq![sim2];
    let ghost mut hashes_a: Seq<u64> = seq![h1];
    let ghost mut hashes_b: Seq<u64> = seq![h2];
    assert(first_difference(hashes_a, hashes_b, 0) is None);
    if h1 != h2 {
        assert(first_difference(hashes_a, hashes_b, 1) == Some(0int));
        assert(observed_divergence(
            setup,
            hash,
            run_a,
            run_b,
            hashes_a,
            hashes_b,
            states_compared(Some(0u64), num_ticks),
            reported_tick(Some(0u64)),
        ));
        return Some(0);
    }
    let mut tick: u64 = 0;
    while tick < num_ticks
        invariant
            tick <= num_ticks,
            forall|s: &mut S| #[trigger] call_requires(step, (s,)),
            forall|s: &S| #[trigger] call_requires(hash, (s,)),
            observed_divergence(setup, hash, run_a, run_b, hashes_a, hashes_b, tick + 1, None),
            run_a.last() == sim1,
            run_b.last() == sim2,
            forall|k: int|
                0 <= k < run_a.len() - 1 ==> exists|m: &mut S|
                    #![trigger call_ensures(step, (m,), ())]
                    mut_ref_current(m) == #[trigger] run_a[k] && mut_ref_future(m) == run_a[k + 1]
                        && call_ensures(step, (m,), ()),
            forall|k: int|
                0 <= k < run_b.len() - 1 ==> exists|m: &mut S|
                    #![trigger call_ensures(step, (m,), ())]
                    mut_ref_current(m) == #[trigger] run_b[k] && mut_ref_future(m) == run_b[k + 1]
                        && call_ensures(step, (m,), ()),
        decreases num_ticks - tick,
    {
        let ghost before_a = sim1;
        let ghost before_b = sim2;
        step(&mut sim1);
        step(&mut sim2);
        assert(exists|m: &mut S|
            #![trigger call_ensures(step, (m,), ())]
            mut_ref_current(m) == before_a && mut_ref_future(m) == sim1 && call_ensures(step, (m,), ()));
        assert(exists|m: &mut S|
            #![trigger call_ensures(step, (m,), ())]
            mut_ref_current(m) == before_b && mut_ref_future(m) == sim2 && call_ensures(step, (m,), ()));
        tick = tick + 1;
        let h1 = hash(&sim1);
        let h2 = hash(&sim2);
        proof {
            let old_a = run_a;
            let old_b = run_b;
            let old_ha = hashes_a;
            let old_hb = hashes_b;
            run_a = run_a.push(sim1);
            run_b = run_b.push(sim2);
            hashes_a = hashes_a.push(h1);
            hashes_b = hashes_b.push(h2);
            assert forall|k: int| 0 <= k < run_a.len() - 1 implies exists|m: &mut S|
                #![trigger call_ensures(step, (m,), ())]
                mut_ref_current(m) == #[trigger] run_a[k] && mut_ref_future(m) == run_a[k + 1]
                    && call_ensures(step, (m,), ()) by {
                if k < old_a.len() - 1 {
                    assert(run_a[k] == old_a[k] && run_a[k + 1] == old_a[k + 1]);
                } else {
                    assert(run_a[k] == before_a && run_a[k + 1] == sim1);
                }
            }
            assert forall|k: int| 0 <= k < run_b.len() - 1 implies exists|m: &mut S|
                #![trigger call_ensures(step, (m,), ())]
                mut_ref_current(m) == #[trigger] run_b[k] && mut_ref_future(m) == run_b[k + 1]
                    && call_ensures(step, (m,), ()) by {
                if k < old_b.len() - 1 {
                    assert(run_b[k] == old_b[k] && run_b[k + 1] == old_b[k + 1]);
                } else {
                    assert(run_b[k] == before_b && run_b[k + 1] == sim2);
                }
            }
            assert forall|k: int| 0 <= k < run_a.len() implies #[trigger] call_ensures(hash, (&run_a[k],), hashes_a[k]) by {
                if k < old_a.len() {
                    assert(call_ensures(hash, (&old_a[k],), old_ha[k]));
                }
            }
            assert forall|k: int| 0 <= k < run_b.len() implies #[trigger] call_ensures(hash, (&run_b[k],), hashes_b[k]) by {
                if k < old_b.len() {
                    assert(call_ensures(hash, (&old_b[k],), old_hb[k]));
                }
            }
            assert(first_difference(hashes_a, hashes_b, tick as int) == first_difference(old_ha, old_hb, tick as int)) by {
                lemma_first_difference_prefix(hashes_a, hashes_b, old_ha, old_hb, tick as int);
            }
        }
        if h1 != h2 {
            assert(observed_divergence(setup, hash, run_a, run_b, hashes_a, hashes_b, tick + 1, Some(tick as int)));
            assert(observed_divergence(
                setup,
                hash,
                run_a,
                run_b,
                hashes_a,
                hashes_b,
                states_compared(Some(tick), num_ticks),
                reported_tick(Some(tick)),
            ));
            return Some(tick);
        }
    }
    assert(observed_divergence(setup, hash, run_a, run_b, hashes_a, hashes_b, num_ticks + 1, None));
    assert(observed_divergence(
        setup,
        hash,
        run_a,
        run_b,
        hashes_a,
        hashes_b,
        states_compared(None, num_ticks),
        reported_tick(None),
    ));
    None
}

/// The first difference over a prefix depends only on the prefix.
proof fn lemma_first_difference_prefix(a: Seq<u64>, b: Seq<u64>, a2: Seq<u64>, b2: Seq<u64>, n: int)
    requires
        0 <= n <= a2.len(),
        n <= b2.len(),
        n <= a.len(),
        n <= b.len(),
        forall|k: int| 0 <= k < n ==> a[k] == a2[k] && b[k] == b2[k],
    ensures
        first_difference(a, b, n) == first_difference(a2, b2, n),
    decreases n,
{
    if n > 0 {
        lemma_first_difference_prefix(a, b, a2, b2, n - 1);
    }
}

/// A deterministic run set has exactly one distinct hash: when every run
/// produced the same hash, the list of distinct hashes holds that one hash
/// alone.
pub proof fn lemma_deterministic_single_hash(hashes: Seq<u64>, unique: Seq<u64>)
    requires
        hashes.len() > 0,
        all_equal(hashes),
        strictly_increasing(unique),
        forall|h: u64| unique.contains(h) <==> hashes.contains(h),
    ensures
        unique == seq![hashes[0]],
{
    assert(hashes.contains(hashes[0]));
    assert(unique.contains(hashes[0]));
    assert forall|k: int| 0 <= k < unique.len() implies unique[k] == hashes[0] by {
        assert(unique.contains(unique[k]));
        assert(hashes.contains(unique[k]));
    }
    if unique.len() > 1 {
        assert(unique[0] < unique[1]);
    }
    assert(unique =~= seq![hashes[0]]);
}

} // verus!
