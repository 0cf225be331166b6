//! Deterministic fixed-point signal pieces: the noise generator, the tone
//! table, and the per-channel conditioning chain (DC blocker, click
//! suppression by slew limiting, and a hard clip).
//!
//! Samples are integers in [-FULL_SCALE, FULL_SCALE]; noise internals work in
//! the unsigned "offset" domain [0, 2 * FULL_SCALE] and are recentred when a
//! sample is read, which keeps all divisions on non-negative numerators.
use vstd::prelude::*;

verus! {

use vstd::arithmetic::div_mod::{
    lemma_div_is_ordered,
    lemma_div_pos_is_pos,
    lemma_fundamental_div_mod,
    lemma_mod_division_less_than_divisor,
};

/// Full-scale sample amplitude: the fixed-point value that stands for 1.0.
pub const FULL_SCALE: i64 = 32767;

/// Largest value of the unsigned offset domain: 2 * FULL_SCALE.
pub const OFFSET_MAX: u64 = 65534;

/// Bound on the mixed (pre-conditioning) sample: four full-scale sources.
pub const MIX_MAX: i64 = 4 * FULL_SCALE;

/// The DC blocker's feedback pole, as the divisor of the leak: the feedback
/// state keeps 1 - 1/DC_POLE of itself each sample, so a constant offset
/// dies out while audio passes.
pub const DC_POLE: i64 = 64;

/// Bound on the DC blocker's feedback state. With inputs bounded by MIX_MAX
/// the recurrence never leaves this range.
pub const DC_STATE_MAX: i64 = 128 * MIX_MAX;

/// Click suppression: the output may move at most this far per sample, so a
/// gain jump becomes a short ramp instead of an audible pop.
pub const SLEW_STEP: i64 = 256;

// ---------------------------------------------------------------------------
// Deterministic noise generator
// ---------------------------------------------------------------------------

/// One step of the linear congruential generator driving all noise sources.
pub open spec fn spec_next_rng(x: u64) -> u64 {
    vstd::wrapping::u64_specs::wrapping_add(
        vstd::wrapping::u64_specs::wrapping_mul(x, 6364136223846793005u64),
        1442695040888963407u64,
    )
}

/// Advance the noise generator; the successor is a pure function of the
/// state, so noise is reproducible from the seed.
pub fn next_rng(x: u64) -> (r: u64)
    ensures
        r == spec_next_rng(x),
{
    x.wrapping_mul(6364136223846793005u64).wrapping_add(1442695040888963407u64)
}

/// The white-noise offset drawn from a generator state: high bits reduced
/// into [0, OFFSET_MAX].
pub open spec fn spec_white_offset(x: u64) -> u64 {
    (x >> 33) % 65535
}

pub fn white_offset(x: u64) -> (r: u64)
    ensures
        r == spec_white_offset(x),
        r <= OFFSET_MAX,
{
    (x >> 33) % 65535
}

// ---------------------------------------------------------------------------
// Fixed 40 Hz tone
// ---------------------------------------------------------------------------

/// Phase accumulator modulus: one full cycle of the tone oscillator.
pub const PHASE_MOD: u64 = 4294967296;

/// Phase covered by one entry of the sixteen-entry sine table.
pub const PHASE_PER_ENTRY: u64 = 268435456;

/// The tone's frequency times the phase modulus: the per-sample phase
/// increment is this divided by the sample rate, so the oscillator completes
/// 40 cycles per second of samples.
pub const TONE_PHASE_RATE: u64 = 40 * 4294967296;

/// One period of a sine wave at full scale, sampled at sixteen points.
pub open spec fn spec_tone_entry(i: int) -> int {
    if i == 0 {
        0
    } else if i == 1 {
        12539
    } else if i == 2 {
        23170
    } else if i == 3 {
        30273
    } else if i == 4 {
        32767
    } else if i == 5 {
        30273
    } else if i == 6 {
        23170
    } else if i == 7 {
        12539
    } else if i == 8 {
        0
    } else if i == 9 {
        -12539
    } else if i == 10 {
        -23170
    } else if i == 11 {
        -30273
    } else if i == 12 {
        -32767
    } else if i == 13 {
        -30273
    } else if i == 14 {
        -23170
    } else {
        -12539
    }
}

/// Look up one sine-table entry.
pub fn tone_entry(i: u64) -> (v: i64)
    requires
        i < 16,
    ensures
        v == spec_tone_entry(i as int),
        -FULL_SCALE <= v <= FULL_SCALE,
{
    if i == 0 {
        0
    } else if i == 1 {
        12539
    } else if i == 2 {
        23170
    } else if i == 3 {
        30273
    } else if i == 4 {
        32767
    } else if i == 5 {
        30273
    } else if i == 6 {
        23170
    } else if i == 7 {
        12539
    } else if i == 8 {
        0
    } else if i == 9 {
        -12539
    } else if i == 10 {
        -23170
    } else if i == 11 {
        -30273
    } else if i == 12 {
        -32767
    } else if i == 13 {
        -30273
    } else if i == 14 {
        -23170
    } else {
        -12539
    }
}

// ---------------------------------------------------------------------------
// Conditioning chain
// ---------------------------------------------------------------------------

/// Leak of the DC blocker's feedback: the state shrinks by at least its
/// DC_POLE-th part (rounded up), so it reaches exact zero on zero input.
pub open spec fn spec_decay(v: int) -> int {
    if v >= 0 {
        v - (v + DC_POLE - 1) / (DC_POLE as int)
    } else {
        -((-v) - ((-v) + DC_POLE - 1) / (DC_POLE as int))
    }
}

/// The leak shrinks its argument toward zero by at least one, never flips
/// its sign, and keeps enough headroom below DC_STATE_MAX for two more
/// full-scale mixed samples.
pub proof fn lemma_decay_props(v: int)
    requires
        -DC_STATE_MAX <= v <= DC_STATE_MAX,
    ensures
        v == 0 ==> spec_decay(v) == 0,
        v > 0 ==> 0 <= spec_decay(v) <= v - 1,
        v < 0 ==> v + 1 <= spec_decay(v) <= 0,
        -(DC_STATE_MAX - 2 * MIX_MAX) <= spec_decay(v) <= DC_STATE_MAX - 2 * MIX_MAX,
{
    let k = DC_POLE as int;
    if v >= 0 {
        let q = (v + k - 1) / k;
        lemma_fundamental_div_mod(v + k - 1, k);
        lemma_mod_division_less_than_divisor(v + k - 1, k);
        assert(k * q == v + k - 1 - ((v + k - 1) % k));
        assert(v <= k * q <= v + k - 1);
        if v > 0 {
            assert(k * q >= v >= 1);
            assert(q >= 1);
            assert(k * q <= v + k - 1 <= k * v) by {
                assert(v + k - 1 <= k * v);
            }
            assert(q <= v);
        }
        assert(DC_POLE * spec_decay(v) <= (DC_POLE - 1) * v);
        assert((DC_POLE - 1) * v <= (DC_POLE - 1) * DC_STATE_MAX);
        assert((DC_POLE - 1) * DC_STATE_MAX == DC_POLE * (DC_STATE_MAX - 2 * MIX_MAX));
    } else {
        let n = -v;
        let q = (n + k - 1) / k;
        lemma_fundamental_div_mod(n + k - 1, k);
        lemma_mod_division_less_than_divisor(n + k - 1, k);
        assert(k * q == n + k - 1 - ((n + k - 1) % k));
        assert(n <= k * q <= n + k - 1);
        assert(k * q >= n >= 1);
        assert(q >= 1);
        assert(k * q <= n + k - 1 <= k * n) by {
            assert(n + k - 1 <= k * n);
        }
        assert(q <= n);
        assert(DC_POLE * (n - q) <= (DC_POLE - 1) * n);
        assert((DC_POLE - 1) * n <= (DC_POLE - 1) * DC_STATE_MAX);
        assert((DC_POLE - 1) * DC_STATE_MAX == DC_POLE * (DC_STATE_MAX - 2 * MIX_MAX));
    }
}

/// Apply the leak to the DC blocker's state.
fn decay(v: i64) -> (r: i64)
    requires
        -DC_STATE_MAX <= v <= DC_STATE_MAX,
    ensures
        r == spec_decay(v as int),
        -(DC_STATE_MAX - 2 * MIX_MAX) <= r <= DC_STATE_MAX - 2 * MIX_MAX,
{
    proof {
        lemma_decay_props(v as int);
    }
    if v >= 0 {
        v - (v + (DC_POLE - 1)) / DC_POLE
    } else {
        let n = -v;
        -(n - (n + (DC_POLE - 1)) / DC_POLE)
    }
}

/// Hard clip into [-FULL_SCALE, FULL_SCALE].
pub open spec fn spec_clip(v: int) -> int {
    if v > FULL_SCALE {
        FULL_SCALE as int
    } else if v < -FULL_SCALE {
        -(FULL_SCALE as int)
    } else {
        v
    }
}

fn clip_sample(v: i64) -> (r: i64)
    ensures
        r == spec_clip(v as int),
        -FULL_SCALE <= r <= FULL_SCALE,
{
    if v > FULL_SCALE {
        FULL_SCALE
    } else if v < -FULL_SCALE {
        -FULL_SCALE
    } else {
        v
    }
}

/// Slew limiting: move from `prev` toward `target`, at most SLEW_STEP per
/// sample.
pub open spec fn spec_slew(prev: int, target: int) -> int {
    if target > prev + SLEW_STEP {
        prev + SLEW_STEP
    } else if target < prev - SLEW_STEP {
        prev - SLEW_STEP
    } else {
        target
    }
}

fn slew(prev: i64, target: i64) -> (r: i64)
    requires
        -FULL_SCALE <= prev <= FULL_SCALE,
        -FULL_SCALE <= target <= FULL_SCALE,
    ensures
        r == spec_slew(prev as int, target as int),
        -FULL_SCALE <= r <= FULL_SCALE,
        -SLEW_STEP <= r - prev <= SLEW_STEP,
{
    if target > prev + SLEW_STEP {
        prev + SLEW_STEP
    } else if target < prev - SLEW_STEP {
        prev - SLEW_STEP
    } else {
        target
    }
}

/// One channel of the conditioning chain. `last_in` and `acc` are the DC
/// blocker's memory (previous input and feedback state); `prev_out` is the
/// last emitted sample, which the slew limiter continues from.
#[derive(Clone, Copy)]
pub struct Conditioner {
    pub last_in: i64,
    pub acc: i64,
    pub prev_out: i64,
}

/// The DC blocker's intermediate output for input `x`:
/// y[n] = x[n] - x[n-1] + leak(y[n-1]).
pub open spec fn spec_cond_y(c: Conditioner, x: int) -> int {
    x - c.last_in + spec_decay(c.acc as int)
}

/// The emitted sample: the DC-blocked value, clipped, then slew-limited
/// from the previous output.
pub open spec fn spec_cond_out(c: Conditioner, x: int) -> int {
    spec_slew(c.prev_out as int, spec_clip(spec_cond_y(c, x)))
}

/// The whole next state of the chain for input `x`.
pub open spec fn spec_cond_next(c: Conditioner, x: int) -> Conditioner {
    Conditioner {
        last_in: x as i64,
        acc: spec_cond_y(c, x) as i64,
        prev_out: spec_cond_out(c, x) as i64,
    }
}

/// All filter memory is exactly zero: silence leaves no residue.
pub open spec fn spec_cond_settled(c: Conditioner) -> bool {
    c.last_in == 0 && c.acc == 0 && c.prev_out == 0
}

impl Conditioner {
    pub open spec fn wf(self) -> bool {
        &&& -MIX_MAX <= self.last_in <= MIX_MAX
        &&& -DC_STATE_MAX <= self.acc <= DC_STATE_MAX
        &&& -FULL_SCALE <= self.prev_out <= FULL_SCALE
    }

    /// A settled chain.
    pub fn new() -> (c: Conditioner)
        ensures
            c.wf(),
            spec_cond_settled(c),
    {
        Conditioner { last_in: 0, acc: 0, prev_out: 0 }
    }

    /// Feed one mixed sample through the chain and emit the conditioned
    /// sample. The output is bounded by full scale and moves at most
    /// SLEW_STEP away from the previous output.
    pub fn step(&mut self, x: i64) -> (r: i64)
        requires
            old(self).wf(),
            -MIX_MAX <= x <= MIX_MAX,
        ensures
            final(self).wf(),
            *final(self) == spec_cond_next(*old(self), x as int),
            r == spec_cond_out(*old(self), x as int),
            r == final(self).prev_out,
            -FULL_SCALE <= r <= FULL_SCALE,
            -SLEW_STEP <= r - old(self).prev_out <= SLEW_STEP,
    {
        proof {
            lemma_decay_props(self.acc as int);
        }
        let y = x - self.last_in + decay(self.acc);
        self.last_in = x;
        self.acc = y;
        let t = clip_sample(y);
        let out = slew(self.prev_out, t);
        self.prev_out = out;
        out
    }
}

/// A settled chain fed silence stays settled and emits exact zero.
pub proof fn lemma_cond_settled_step(c: Conditioner)
    requires
        spec_cond_settled(c),
    ensures
        spec_cond_next(c, 0) == c,
        spec_cond_out(c, 0) == 0,
{
    assert(spec_decay(0) == 0);
}

// ---------------------------------------------------------------------------
// Settling on silence
// ---------------------------------------------------------------------------

/// The chain's state after `n` samples of exact silence.
pub open spec fn spec_cond_run_zero(c: Conditioner, n: nat) -> Conditioner
    decreases n,
{
    if n == 0 {
        c
    } else {
        spec_cond_next(spec_cond_run_zero(c, (n - 1) as nat), 0)
    }
}

pub open spec fn spec_abs(v: int) -> int {
    if v < 0 {
        -v
    } else {
        v
    }
}

/// How many zero-input samples certainly settle the chain: the DC memory
/// weighted by how slowly it drains, plus the slew ramp left in the
/// previous output.
pub open spec fn spec_settle_measure(c: Conditioner) -> int {
    4 * spec_abs(c.last_in as int) + 2 * spec_abs(c.acc as int) + (spec_abs(c.prev_out as int)
        + (SLEW_STEP - 1)) / (SLEW_STEP as int)
}

/// Running silence from the end or from the start reaches the same state.
proof fn lemma_cond_run_zero_shift(c: Conditioner, n: nat)
    ensures
        spec_cond_run_zero(c, (n + 1) as nat) == spec_cond_run_zero(spec_cond_next(c, 0), n),
    decreases n,
{
    let c2 = spec_cond_next(c, 0);
    if n == 0 {
        assert(spec_cond_run_zero(c, 1) == spec_cond_next(spec_cond_run_zero(c, 0), 0));
        assert(spec_cond_run_zero(c, 0) == c);
        assert(spec_cond_run_zero(c2, 0) == c2);
    } else {
        lemma_cond_run_zero_shift(c, (n - 1) as nat);
        assert(spec_cond_run_zero(c, (n + 1) as nat) == spec_cond_next(
            spec_cond_run_zero(c, n),
            0,
        ));
        assert(spec_cond_run_zero(c2, n) == spec_cond_next(
            spec_cond_run_zero(c2, (n - 1) as nat),
            0,
        ));
    }
}

/// A settled chain stays settled under silence, however long.
pub proof fn lemma_cond_settled_stays(c: Conditioner, n: nat)
    requires
        spec_cond_settled(c),
    ensures
        spec_cond_run_zero(c, n) == c,
    decreases n,
{
    if n > 0 {
        lemma_cond_settled_stays(c, (n - 1) as nat);
        lemma_cond_settled_step(c);
    }
}

/// One zero-input step strictly shrinks the settle measure of an unsettled
/// chain, and keeps the chain well formed.
proof fn lemma_cond_zero_step_measure(c: Conditioner)
    requires
        c.wf(),
    ensures
        spec_cond_next(c, 0).wf(),
        0 <= spec_settle_measure(spec_cond_next(c, 0)),
        !spec_cond_settled(c) ==> spec_settle_measure(spec_cond_next(c, 0)) <= spec_settle_measure(
            c,
        ) - 1,
        spec_cond_settled(c) ==> spec_cond_next(c, 0) == c,
{
    lemma_decay_props(c.acc as int);
    let c2 = spec_cond_next(c, 0);
    let y = spec_cond_y(c, 0);
    let t = spec_clip(y);
    let p = c.prev_out as int;
    let p2 = spec_cond_out(c, 0);
    let s = SLEW_STEP as int;
    assert(spec_abs(p2) <= FULL_SCALE && spec_abs(p2 - p) <= s);
    lemma_div_pos_is_pos(spec_abs(p2) + s - 1, s);
    lemma_div_pos_is_pos(spec_abs(p) + s - 1, s);
    if c.last_in == 0 && c.acc == 0 {
        assert(y == 0 && t == 0);
        assert(c2.last_in == 0 && c2.acc == 0);
        if p == 0 {
            assert(c2 == c);
        } else {
            assert(spec_abs(p2) == if spec_abs(p) <= s {
                0int
            } else {
                spec_abs(p) - s
            });
            if spec_abs(p) <= s {
                vstd::arithmetic::div_mod::lemma_basic_div(s - 1, s);
                lemma_div_is_ordered(s, spec_abs(p) + s - 1, s);
                vstd::arithmetic::div_mod::lemma_div_by_self(s);
            } else {
                vstd::arithmetic::div_mod::lemma_div_plus_one(spec_abs(p) - 1, s);
            }
        }
    } else {
        // the DC part of the measure drops by at least one...
        assert(spec_abs(c2.acc as int) <= spec_abs(c.last_in as int) + if c.acc == 0 {
            0int
        } else {
            spec_abs(c.acc as int) - 1
        });
        // ...while the slew term grows by at most one.
        assert(spec_abs(p2) + s - 1 <= (spec_abs(p) + s - 1) + s);
        lemma_div_is_ordered(spec_abs(p2) + s - 1, spec_abs(p) + s - 1 + s, s);
        vstd::arithmetic::div_mod::lemma_div_plus_one(spec_abs(p) + s - 1, s);
    }
}

/// Law: fed exact silence, the conditioning chain reaches the settled
/// state within its settle measure, whatever state it started in: filters
/// must settle to zero given zero input.
pub proof fn lemma_cond_settles(c: Conditioner, n: nat)
    requires
        c.wf(),
        spec_settle_measure(c) <= n,
    ensures
        spec_cond_settled(spec_cond_run_zero(c, n)),
    decreases n,
{
    lemma_cond_zero_step_measure(c);
    if spec_cond_settled(c) {
        lemma_cond_settled_stays(c, n);
    } else {
        let c2 = spec_cond_next(c, 0);
        lemma_cond_run_zero_shift(c, (n - 1) as nat);
        lemma_cond_settles(c2, (n - 1) as nat);
    }
}

} // verus!
