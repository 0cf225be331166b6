//! The mixing graph and the render step: weighted sum of the four sources,
//! master gain, centre panning, per-channel conditioning, and the
//! frame-filling loop that writes interleaved output buffers.
use vstd::prelude::*;

verus! {

use vstd::arithmetic::div_mod::{
    lemma_div_is_ordered,
    lemma_div_pos_is_pos,
    lemma_div_multiples_vanish,
    lemma_div_nonincreasing,
    lemma_fundamental_div_mod_converse,
    lemma_mod_division_less_than_divisor,
};
use crate::GAIN_UNIT;
use crate::synth::{
    Conditioner, FULL_SCALE, MIX_MAX, OFFSET_MAX, PHASE_MOD, PHASE_PER_ENTRY, SLEW_STEP,
    TONE_PHASE_RATE, lemma_cond_settled_step, lemma_cond_settles, next_rng, spec_cond_next,
    spec_cond_run_zero, spec_cond_settled, spec_next_rng, spec_settle_measure, spec_tone_entry,
    spec_white_offset, tone_entry, white_offset,
};

/// The live gains the render path reads, one value per source plus the
/// master, in fixed-point units of 1/GAIN_UNIT.
pub struct SoundControls {
    pub master: u32,
    pub pink: u32,
    pub sine_40hz: u32,
    pub brown: u32,
    pub white: u32,
}

impl SoundControls {
    pub open spec fn wf(self) -> bool {
        &&& self.master <= GAIN_UNIT
        &&& self.pink <= GAIN_UNIT
        &&& self.sine_40hz <= GAIN_UNIT
        &&& self.brown <= GAIN_UNIT
        &&& self.white <= GAIN_UNIT
    }

    /// The gains a fresh engine starts from: master at full scale, a little
    /// pink noise and tone, brown and white silent.
    pub fn new() -> (c: SoundControls)
        ensures
            c.wf(),
            c.master == GAIN_UNIT,
            c.pink == 2700,
            c.sine_40hz == 1800,
            c.brown == 0,
            c.white == 0,
    {
        SoundControls { master: GAIN_UNIT, pink: 2700, sine_40hz: 1800, brown: 0, white: 0 }
    }

    /// The source gain at a control-surface index, in the fixed source
    /// order; the master is not indexed here.
    pub fn get(&self, index: usize) -> (g: Option<u32>)
        ensures
            index == 0 ==> g == Some(self.pink),
            index == 1 ==> g == Some(self.sine_40hz),
            index == 2 ==> g == Some(self.brown),
            index == 3 ==> g == Some(self.white),
            index >= 4 ==> g is None,
    {
        match index {
            0 => Option::Some(self.pink),
            1 => Option::Some(self.sine_40hz),
            2 => Option::Some(self.brown),
            3 => Option::Some(self.white),
            _ => Option::None,
        }
    }
}

/// Neither the master nor any source can pass a signal: the mix is silent
/// whatever the sources hold.
pub open spec fn spec_silent_gains(c: SoundControls) -> bool {
    c.master == 0 || (c.pink == 0 && c.sine_40hz == 0 && c.brown == 0 && c.white == 0)
}

// ---------------------------------------------------------------------------
// Gain arithmetic
// ---------------------------------------------------------------------------

/// Truncating division by GAIN_UNIT, as the hardware-style fixed-point
/// rescale after a gain multiply: rounds toward zero.
pub open spec fn spec_tdiv_unit(a: int) -> int {
    if a >= 0 {
        a / (GAIN_UNIT as int)
    } else {
        -((-a) / (GAIN_UNIT as int))
    }
}

/// Rescaling by the gain unit keeps any bound of the form unit * m.
pub proof fn lemma_tdiv_unit_bound(a: int, m: int)
    requires
        0 <= m,
        -(GAIN_UNIT * m) <= a <= GAIN_UNIT * m,
    ensures
        -m <= spec_tdiv_unit(a) <= m,
{
    let u = GAIN_UNIT as int;
    if a >= 0 {
        lemma_div_pos_is_pos(a, u);
        lemma_div_is_ordered(a, u * m, u);
        lemma_div_multiples_vanish(m, u);
    } else {
        lemma_div_pos_is_pos(-a, u);
        lemma_div_is_ordered(-a, u * m, u);
        lemma_div_multiples_vanish(m, u);
    }
}

/// Rescale a gain-weighted value back into sample units.
fn tdiv_unit(a: i64) -> (r: i64)
    requires
        -(GAIN_UNIT * MIX_MAX) <= a <= GAIN_UNIT * MIX_MAX,
    ensures
        r == spec_tdiv_unit(a as int),
        -MIX_MAX <= r <= MIX_MAX,
{
    proof {
        lemma_tdiv_unit_bound(a as int, MIX_MAX as int);
    }
    if a >= 0 {
        a / (GAIN_UNIT as i64)
    } else {
        -((-a) / (GAIN_UNIT as i64))
    }
}

/// Weight one source sample by its gain (still in gain-scaled units).
fn weighted(g: u32, s: i64) -> (r: i64)
    requires
        g <= GAIN_UNIT,
        -FULL_SCALE <= s <= FULL_SCALE,
    ensures
        r == g * s,
        -(GAIN_UNIT * FULL_SCALE) <= r <= GAIN_UNIT * FULL_SCALE,
{
    proof {
        assert(-(9000 * 32767) <= (g as int) * (s as int) <= 9000 * 32767) by (nonlinear_arith)
            requires
                g <= 9000,
                -32767 <= s as int <= 32767,
        ;
    }
    (g as i64) * s
}

/// Apply the master gain to an already-mixed sample.
fn apply_gain(g: u32, v: i64) -> (r: i64)
    requires
        g <= GAIN_UNIT,
        -MIX_MAX <= v <= MIX_MAX,
    ensures
        r == spec_tdiv_unit(g * v),
        -MIX_MAX <= r <= MIX_MAX,
{
    proof {
        assert(-(9000 * 131068) <= (g as int) * (v as int) <= 9000 * 131068) by (nonlinear_arith)
            requires
                g <= 9000,
                -131068 <= v as int <= 131068,
        ;
    }
    tdiv_unit((g as i64) * v)
}

// ---------------------------------------------------------------------------
// The graph
// ---------------------------------------------------------------------------

/// The whole signal graph: the noise generator, the four pink-noise rows,
/// the brown-noise accumulator, the tone oscillator, and one conditioning
/// chain per stereo channel. Everything is a pure function of this state
/// and the gains, so rendering is reproducible from the seed.
pub struct MixGraph {
    pub rng: u64,
    pub counter: u64,
    pub pink0: u64,
    pub pink1: u64,
    pub pink2: u64,
    pub pink3: u64,
    pub brown_acc: u64,
    pub phase: u64,
    pub phase_inc: u64,
    pub sample_rate: u32,
    pub cond_left: Conditioner,
    pub cond_right: Conditioner,
}

/// Which pink-noise row refreshes at this counter value: row 0 every other
/// sample, row 1 every fourth, rows 2 and 3 every eighth, so the rows hold
/// values for geometrically growing spans.
pub open spec fn spec_pink_sel(c: u64) -> int {
    if c % 2 == 0 {
        0
    } else if c % 4 == 1 {
        1
    } else if c % 8 == 3 {
        2
    } else {
        3
    }
}

/// The brown-noise random walk in the offset domain: add a small step drawn
/// from the white offset, recentre, and keep the walk inside the offset
/// range.
pub open spec fn spec_brown_next(b: u64, w: u64) -> u64 {
    let moved = b + w / 64;
    let down: int = if moved >= 512 {
        moved - 512
    } else {
        0
    };
    if down > OFFSET_MAX {
        OFFSET_MAX
    } else {
        down as u64
    }
}

/// All sources advanced by one sample; the conditioners are untouched.
pub open spec fn spec_advance_sources(g: MixGraph) -> MixGraph {
    let rng = spec_next_rng(g.rng);
    let counter = vstd::wrapping::u64_specs::wrapping_add(g.counter, 1);
    let w = spec_white_offset(rng);
    let sel = spec_pink_sel(counter);
    MixGraph {
        rng,
        counter,
        pink0: if sel == 0 { w } else { g.pink0 },
        pink1: if sel == 1 { w } else { g.pink1 },
        pink2: if sel == 2 { w } else { g.pink2 },
        pink3: if sel == 3 { w } else { g.pink3 },
        brown_acc: spec_brown_next(g.brown_acc, w),
        phase: ((g.phase + g.phase_inc) % (PHASE_MOD as int)) as u64,
        ..g
    }
}

/// The white sample held in a graph state.
pub open spec fn spec_white_sample(g: MixGraph) -> int {
    spec_white_offset(g.rng) - FULL_SCALE
}

/// The pink sample: the average of the four rows, recentred.
pub open spec fn spec_pink_sample(g: MixGraph) -> int {
    (g.pink0 + g.pink1 + g.pink2 + g.pink3) / 4 - FULL_SCALE
}

/// The brown sample: the walk's position, recentred.
pub open spec fn spec_brown_sample(g: MixGraph) -> int {
    g.brown_acc - FULL_SCALE
}

/// The tone sample: the table entry under the oscillator's phase.
pub open spec fn spec_tone_sample(g: MixGraph) -> int {
    spec_tone_entry((g.phase / PHASE_PER_ENTRY) as int)
}

/// The mixed mono sample read from an (already advanced) graph state:
/// gain-weighted sum of the sources, rescaled, then the master gain.
pub open spec fn spec_mix(g: MixGraph, c: SoundControls) -> int {
    let sum = c.pink * spec_pink_sample(g) + c.sine_40hz * spec_tone_sample(g) + c.brown
        * spec_brown_sample(g) + c.white * spec_white_sample(g);
    spec_tdiv_unit(spec_tdiv_unit(sum) * c.master)
}

/// One whole render step: advance the sources, mix under the gains, and
/// feed the mono sample to both channels' conditioners (centre pan).
#[verifier::opaque]
pub open spec fn spec_step_graph(g: MixGraph, c: SoundControls) -> MixGraph {
    let mid = spec_advance_sources(g);
    let m = spec_mix(mid, c);
    MixGraph {
        cond_left: spec_cond_next(g.cond_left, m),
        cond_right: spec_cond_next(g.cond_right, m),
        ..mid
    }
}

impl MixGraph {
    pub open spec fn wf(self) -> bool {
        &&& self.pink0 <= OFFSET_MAX
        &&& self.pink1 <= OFFSET_MAX
        &&& self.pink2 <= OFFSET_MAX
        &&& self.pink3 <= OFFSET_MAX
        &&& self.brown_acc <= OFFSET_MAX
        &&& self.phase < PHASE_MOD
        &&& self.phase_inc <= TONE_PHASE_RATE
        &&& self.cond_left.wf()
        &&& self.cond_right.wf()
    }

    /// A graph for the device's sample rate, with all sources centred, the
    /// oscillator at phase zero and settled conditioners. The phase
    /// increment is fixed here so the tone is 40 Hz at the actual device
    /// rate.
    pub fn new(sample_rate: u32, seed: u64) -> (g: MixGraph)
        requires
            sample_rate >= 1,
        ensures
            g.wf(),
            g.rng == seed,
            g.counter == 0,
            g.pink0 == 32767 && g.pink1 == 32767 && g.pink2 == 32767 && g.pink3 == 32767,
            g.brown_acc == 32767,
            g.phase == 0,
            g.phase_inc == TONE_PHASE_RATE as int / sample_rate as int,
            g.sample_rate == sample_rate,
            spec_cond_settled(g.cond_left),
            spec_cond_settled(g.cond_right),
    {
        let phase_inc = TONE_PHASE_RATE / (sample_rate as u64);
        proof {
            lemma_div_nonincreasing(TONE_PHASE_RATE as int, sample_rate as int);
            lemma_div_pos_is_pos(TONE_PHASE_RATE as int, sample_rate as int);
        }
        MixGraph {
            rng: seed,
            counter: 0,
            pink0: 32767,
            pink1: 32767,
            pink2: 32767,
            pink3: 32767,
            brown_acc: 32767,
            phase: 0,
            phase_inc,
            sample_rate,
            cond_left: Conditioner::new(),
            cond_right: Conditioner::new(),
        }
    }

    /// Advance every source by one sample; the conditioners are untouched.
    fn advance_sources(&mut self)
        requires
            old(self).wf(),
        ensures
            *final(self) == spec_advance_sources(*old(self)),
            final(self).wf(),
    {
        let ghost pre = *self;
        self.rng = next_rng(self.rng);
        self.counter = self.counter.wrapping_add(1);
        let w = white_offset(self.rng);
        if self.counter % 2 == 0 {
            self.pink0 = w;
        } else if self.counter % 4 == 1 {
            self.pink1 = w;
        } else if self.counter % 8 == 3 {
            self.pink2 = w;
        } else {
            self.pink3 = w;
        }
        self.brown_acc = brown_next(self.brown_acc, w);
        proof {
            lemma_mod_division_less_than_divisor(
                (pre.phase + pre.phase_inc) as int,
                PHASE_MOD as int,
            );
        }
        self.phase = (self.phase + self.phase_inc) % PHASE_MOD;
    }

    /// Read the mixed mono sample for the current source state under the
    /// given gains.
    fn read_mix(&self, controls: &SoundControls) -> (m: i64)
        requires
            self.wf(),
            controls.wf(),
        ensures
            m == spec_mix(*self, *controls),
            -MIX_MAX <= m <= MIX_MAX,
    {
        let white_s = white_offset(self.rng) as i64 - FULL_SCALE;
        let pink_sum = self.pink0 + self.pink1 + self.pink2 + self.pink3;
        proof {
            lemma_div_is_ordered(pink_sum as int, 262136, 4);
            lemma_div_pos_is_pos(pink_sum as int, 4);
            assert(262136int / 4 == 65534);
        }
        let pink_s = (pink_sum / 4) as i64 - FULL_SCALE;
        let brown_s = self.brown_acc as i64 - FULL_SCALE;
        proof {
            lemma_div_is_ordered(self.phase as int, (PHASE_MOD - 1) as int, PHASE_PER_ENTRY as int);
            lemma_div_pos_is_pos(self.phase as int, PHASE_PER_ENTRY as int);
            assert((PHASE_MOD - 1) as int / (PHASE_PER_ENTRY as int) == 15);
        }
        let tone_s = tone_entry(self.phase / PHASE_PER_ENTRY);
        assert(white_s == spec_white_sample(*self));
        assert(pink_s == spec_pink_sample(*self));
        assert(brown_s == spec_brown_sample(*self));
        assert(tone_s == spec_tone_sample(*self));
        let sum = weighted(controls.pink, pink_s) + weighted(controls.sine_40hz, tone_s)
            + weighted(controls.brown, brown_s) + weighted(controls.white, white_s);
        assert(sum == controls.pink * spec_pink_sample(*self) + controls.sine_40hz
            * spec_tone_sample(*self) + controls.brown * spec_brown_sample(*self) + controls.white
            * spec_white_sample(*self));
        let mixed = tdiv_unit(sum);
        apply_gain(controls.master, mixed)
    }

    /// Render one stereo frame under the current gains. The gains are read
    /// fresh on every call, so a change is audible within one sample. The
    /// outputs stay within full scale and within one slew step of the
    /// previous frame, and with both channels in the same state (as centre
    /// panning keeps them) left and right are identical.
    pub fn next_frame(&mut self, controls: &SoundControls) -> (out: (i64, i64))
        requires
            old(self).wf(),
            controls.wf(),
        ensures
            final(self).wf(),
            *final(self) == spec_step_graph(*old(self), *controls),
            out.0 == final(self).cond_left.prev_out,
            out.1 == final(self).cond_right.prev_out,
            -FULL_SCALE <= out.0 <= FULL_SCALE,
            -FULL_SCALE <= out.1 <= FULL_SCALE,
            -SLEW_STEP <= out.0 - old(self).cond_left.prev_out <= SLEW_STEP,
            -SLEW_STEP <= out.1 - old(self).cond_right.prev_out <= SLEW_STEP,
            old(self).cond_left == old(self).cond_right ==> out.0 == out.1,
    {
        proof {
            reveal(spec_step_graph);
        }
        self.advance_sources();
        let m = self.read_mix(controls);
        let l = self.cond_left.step(m);
        let r = self.cond_right.step(m);
        (l, r)
    }
}

/// Advance the brown-noise walk; see `spec_brown_next`.
fn brown_next(b: u64, w: u64) -> (r: u64)
    requires
        b <= OFFSET_MAX,
        w <= OFFSET_MAX,
    ensures
        r == spec_brown_next(b, w),
        r <= OFFSET_MAX,
{
    proof {
        lemma_div_nonincreasing(w as int, 64);
        lemma_div_pos_is_pos(w as int, 64);
    }
    let d = w / 64;
    let moved = b + d;
    let down = if moved >= 512 {
        moved - 512
    } else {
        0
    };
    if down > OFFSET_MAX {
        OFFSET_MAX
    } else {
        down
    }
}


// ---------------------------------------------------------------------------
// Rendering whole buffers
// ---------------------------------------------------------------------------

/// The graph state after `n` rendered frames under constant gains.
pub open spec fn spec_run_frames(g: MixGraph, c: SoundControls, n: nat) -> MixGraph
    decreases n,
{
    if n == 0 {
        g
    } else {
        spec_step_graph(spec_run_frames(g, c, (n - 1) as nat), c)
    }
}

/// The left sample of frame `i`, counting frames from zero.
pub open spec fn spec_frame_left(g: MixGraph, c: SoundControls, i: nat) -> int {
    spec_run_frames(g, c, i + 1).cond_left.prev_out as int
}

/// The right sample of frame `i`.
pub open spec fn spec_frame_right(g: MixGraph, c: SoundControls, i: nat) -> int {
    spec_run_frames(g, c, i + 1).cond_right.prev_out as int
}

/// How many frames an interleaved buffer of `len` samples takes at a given
/// channel count: every full chunk and the trailing partial chunk, each fed
/// by exactly one frame.
pub open spec fn spec_frame_count(len: int, channels: int) -> int {
    (len + channels - 1) / channels
}

/// The sample that belongs at buffer position `j`: within its frame's
/// chunk, even channel indices carry the left sample and odd ones the
/// right.
pub open spec fn spec_expected_sample(
    g: MixGraph,
    c: SoundControls,
    channels: int,
    j: int,
) -> int {
    if (j % channels) % 2 == 0 {
        spec_frame_left(g, c, (j / channels) as nat)
    } else {
        spec_frame_right(g, c, (j / channels) as nat)
    }
}

/// Convert a conditioned sample to the signed 16-bit device format.
pub fn sample_to_i16(s: i64) -> (r: i16)
    requires
        -FULL_SCALE <= s <= FULL_SCALE,
    ensures
        r as int == s,
{
    s as i16
}

/// Convert a conditioned sample to the unsigned 16-bit device format, with
/// silence at the half-range midpoint.
pub fn sample_to_u16(s: i64) -> (r: u16)
    requires
        -FULL_SCALE <= s <= FULL_SCALE,
    ensures
        r as int == s + FULL_SCALE,
{
    (s + FULL_SCALE) as u16
}

impl MixGraph {
    /// The render callback's core: fill an interleaved buffer, one frame
    /// per chunk of `channels` samples (the trailing partial chunk
    /// included), writing the left sample to even channel indices and the
    /// right to odd ones. Every write is a conditioned sample, so the whole
    /// buffer stays within full scale.
    pub fn fill_i16(&mut self, controls: &SoundControls, data: &mut Vec<i16>, channels: usize)
        requires
            old(self).wf(),
            controls.wf(),
            channels >= 1,
            old(data).len() + channels <= usize::MAX,
        ensures
            final(self).wf(),
            final(data).len() == old(data).len(),
            *final(self) == spec_run_frames(
                *old(self),
                *controls,
                spec_frame_count(old(data).len() as int, channels as int) as nat,
            ),
            forall|j: int|
                0 <= j < old(data).len() ==> #[trigger] final(data)@[j] as int
                    == spec_expected_sample(*old(self), *controls, channels as int, j),
    {
        let ghost g0 = *self;
        let ghost gains = *controls;
        let len = data.len();
        let mut start: usize = 0;
        let mut frames: usize = 0;
        while start < len
            invariant
                self.wf(),
                gains == *controls,
                controls.wf(),
                channels >= 1,
                data.len() == len,
                len + channels <= usize::MAX,
                frames <= start,
                start == frames * channels,
                start < len + channels,
                *self == spec_run_frames(g0, gains, frames as nat),
                forall|j: int|
                    0 <= j < start && j < len ==> #[trigger] data@[j] as int
                        == spec_expected_sample(g0, gains, channels as int, j),
            decreases len + channels - start,
        {
            let (l, r) = self.next_frame(controls);
            proof {
                assert(spec_run_frames(g0, gains, (frames + 1) as nat) == spec_step_graph(
                    spec_run_frames(g0, gains, frames as nat),
                    gains,
                ));
                assert(l == spec_frame_left(g0, gains, frames as nat));
                assert(r == spec_frame_right(g0, gains, frames as nat));
            }
            let li = sample_to_i16(l);
            let ri = sample_to_i16(r);
            let mut k: usize = 0;
            while k < channels && start + k < len
                invariant
                    k <= channels,
                    start + k <= len,
                    channels >= 1,
                    data.len() == len,
                    len + channels <= usize::MAX,
                    start == frames * channels,
                    start < len,
                    li as int == spec_frame_left(g0, gains, frames as nat),
                    ri as int == spec_frame_right(g0, gains, frames as nat),
                    forall|j: int|
                        0 <= j < start && j < len ==> #[trigger] data@[j] as int
                            == spec_expected_sample(g0, gains, channels as int, j),
                    forall|j: int|
                        start <= j < start + k ==> #[trigger] data@[j] == if (j - start) % 2 == 0 {
                            li
                        } else {
                            ri
                        },
                decreases channels - k,
            {
                let idx = start + k;
                if k % 2 == 0 {
                    data[idx] = li;
                } else {
                    data[idx] = ri;
                }
                k += 1;
            }
            proof {
                assert forall|j: int| start <= j < start + k implies #[trigger] data@[j] as int
                    == spec_expected_sample(g0, gains, channels as int, j) by {
                    lemma_fundamental_div_mod_converse(
                        j,
                        channels as int,
                        frames as int,
                        j - start,
                    );
                }
                assert((frames + 1) * (channels as int) == frames * (channels as int)
                    + channels) by (nonlinear_arith);
            }
            start = start + channels;
            frames = frames + 1;
        }
        proof {
            let ch = channels as int;
            if frames == 0 {
                assert(len == 0);
                lemma_fundamental_div_mod_converse(len + ch - 1, ch, 0, len + ch - 1);
            } else {
                lemma_fundamental_div_mod_converse(
                    len + ch - 1,
                    ch,
                    frames as int,
                    len + ch - 1 - frames * ch,
                );
            }
        }
    }
}



// ---------------------------------------------------------------------------
// Silence laws
// ---------------------------------------------------------------------------

/// Rescaling inverts a full-scale gain multiply exactly.
pub proof fn lemma_tdiv_unit_cancel(v: int)
    ensures
        spec_tdiv_unit(GAIN_UNIT * v) == v,
{
    let u = GAIN_UNIT as int;
    if v >= 0 {
        lemma_div_multiples_vanish(v, u);
    } else {
        lemma_div_multiples_vanish(-v, u);
        assert(-(u * v) == u * (-v)) by (nonlinear_arith);
    }
}

/// Law: with the master at full scale and exactly one source at full
/// scale, the mix passes that source's sample through unchanged -- the
/// gain path neither attenuates nor distorts a full-gain source.
pub proof fn lemma_full_gain_passthrough(g: MixGraph, c: SoundControls)
    requires
        c.master == GAIN_UNIT,
        c.pink == GAIN_UNIT,
        c.sine_40hz == 0,
        c.brown == 0,
        c.white == 0,
    ensures
        spec_mix(g, c) == spec_pink_sample(g),
{
    let ps = spec_pink_sample(g);
    assert(c.sine_40hz * spec_tone_sample(g) == 0) by (nonlinear_arith)
        requires
            c.sine_40hz == 0,
    ;
    assert(c.brown * spec_brown_sample(g) == 0) by (nonlinear_arith)
        requires
            c.brown == 0,
    ;
    assert(c.white * spec_white_sample(g) == 0) by (nonlinear_arith)
        requires
            c.white == 0,
    ;
    lemma_tdiv_unit_cancel(ps);
    assert(ps * c.master == GAIN_UNIT * ps) by (nonlinear_arith)
        requires
            c.master == GAIN_UNIT,
    ;
    lemma_tdiv_unit_cancel(ps);
}

/// With silent gains the mix is exactly zero, whatever the sources hold.
pub proof fn lemma_mix_silent(g: MixGraph, c: SoundControls)
    requires
        spec_silent_gains(c),
    ensures
        spec_mix(g, c) == 0,
{
    let u = GAIN_UNIT as int;
    if c.pink == 0 && c.sine_40hz == 0 && c.brown == 0 && c.white == 0 {
        assert(c.pink * spec_pink_sample(g) == 0) by (nonlinear_arith)
            requires
                c.pink == 0,
        ;
        assert(c.sine_40hz * spec_tone_sample(g) == 0) by (nonlinear_arith)
            requires
                c.sine_40hz == 0,
        ;
        assert(c.brown * spec_brown_sample(g) == 0) by (nonlinear_arith)
            requires
                c.brown == 0,
        ;
        assert(c.white * spec_white_sample(g) == 0) by (nonlinear_arith)
            requires
                c.white == 0,
        ;
        vstd::arithmetic::div_mod::lemma_div_of0(u);
        assert(spec_tdiv_unit(0) == 0);
        assert(spec_tdiv_unit(0) * c.master == 0) by (nonlinear_arith)
            requires
                spec_tdiv_unit(0) == 0,
        ;
    } else {
        let inner = spec_tdiv_unit(
            c.pink * spec_pink_sample(g) + c.sine_40hz * spec_tone_sample(g) + c.brown
                * spec_brown_sample(g) + c.white * spec_white_sample(g),
        );
        assert(inner * c.master == 0) by (nonlinear_arith)
            requires
                c.master == 0,
        ;
        vstd::arithmetic::div_mod::lemma_div_of0(u);
    }
}

/// Under silent gains the two conditioning chains see only zeros: running
/// the graph is running each chain on silence.
pub proof fn lemma_silent_run(g: MixGraph, c: SoundControls, n: nat)
    requires
        spec_silent_gains(c),
    ensures
        spec_run_frames(g, c, n).cond_left == spec_cond_run_zero(g.cond_left, n),
        spec_run_frames(g, c, n).cond_right == spec_cond_run_zero(g.cond_right, n),
    decreases n,
{
    if n > 0 {
        lemma_silent_run(g, c, (n - 1) as nat);
        let prev = spec_run_frames(g, c, (n - 1) as nat);
        lemma_mix_silent(spec_advance_sources(prev), c);
        reveal(spec_step_graph);
        assert(spec_run_frames(g, c, n) == spec_step_graph(prev, c));
    }
}

/// Law: with the master muted or every source gain at zero, the engine
/// settles to exact digital silence: once `n` reaches both channels'
/// settle measures, frame `n` and every later frame is exactly (0, 0) --
/// no residue from filter memory.
pub proof fn lemma_silence_settles(g: MixGraph, c: SoundControls, n: nat)
    requires
        g.cond_left.wf(),
        g.cond_right.wf(),
        spec_silent_gains(c),
        spec_settle_measure(g.cond_left) <= n,
        spec_settle_measure(g.cond_right) <= n,
    ensures
        spec_frame_left(g, c, n) == 0,
        spec_frame_right(g, c, n) == 0,
        spec_cond_settled(spec_run_frames(g, c, (n + 1) as nat).cond_left),
        spec_cond_settled(spec_run_frames(g, c, (n + 1) as nat).cond_right),
{
    lemma_silent_run(g, c, (n + 1) as nat);
    lemma_cond_settles(g.cond_left, n);
    lemma_cond_settles(g.cond_right, n);
    let sl = spec_cond_run_zero(g.cond_left, n);
    let sr = spec_cond_run_zero(g.cond_right, n);
    assert(spec_cond_run_zero(g.cond_left, (n + 1) as nat) == spec_cond_next(sl, 0));
    assert(spec_cond_run_zero(g.cond_right, (n + 1) as nat) == spec_cond_next(sr, 0));
    lemma_cond_settled_step(sl);
    lemma_cond_settled_step(sr);
}

} // verus!
