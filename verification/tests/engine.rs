//! Tests of the mixing graph: silence, amplitude bounds, click suppression,
//! determinism, and the interleaved buffer fill.
use sound_mixer::audio::{MixGraph, SoundControls, sample_to_i16, sample_to_u16};
use sound_mixer::synth::{FULL_SCALE, SLEW_STEP};

const SEED: u64 = 0x2545f4914f6cdd1d;

fn zero_gains() -> SoundControls {
    SoundControls { master: 0, pink: 0, sine_40hz: 0, brown: 0, white: 0 }
}

#[test]
fn controls_get_maps_fixed_source_order() {
    let c = SoundControls::new();
    assert_eq!(c.get(0), Some(2700));
    assert_eq!(c.get(1), Some(1800));
    assert_eq!(c.get(2), Some(0));
    assert_eq!(c.get(3), Some(0));
    assert_eq!(c.get(4), None);
    assert_eq!(c.get(usize::MAX), None);
}

#[test]
fn fresh_graph_with_zero_gains_is_silent() {
    let mut g = MixGraph::new(48000, SEED);
    let c = zero_gains();
    for _ in 0..10000 {
        assert_eq!(g.next_frame(&c), (0, 0));
    }
}

#[test]
fn zero_gains_settle_to_exact_silence() {
    let mut g = MixGraph::new(48000, SEED);
    let loud = SoundControls { master: 9000, pink: 9000, sine_40hz: 9000, brown: 9000, white: 9000 };
    for _ in 0..2000 {
        g.next_frame(&loud);
    }
    let quiet = zero_gains();
    for _ in 0..20000 {
        g.next_frame(&quiet);
    }
    for _ in 0..10000 {
        assert_eq!(g.next_frame(&quiet), (0, 0));
    }
}

#[test]
fn muted_master_settles_to_exact_silence() {
    let mut g = MixGraph::new(48000, SEED);
    let loud = SoundControls { master: 9000, pink: 9000, sine_40hz: 0, brown: 0, white: 0 };
    for _ in 0..2000 {
        g.next_frame(&loud);
    }
    let muted = SoundControls { master: 0, pink: 9000, sine_40hz: 0, brown: 0, white: 0 };
    for _ in 0..20000 {
        g.next_frame(&muted);
    }
    for _ in 0..10000 {
        assert_eq!(g.next_frame(&muted), (0, 0));
    }
}

#[test]
fn one_second_full_scale_never_exceeds_full_scale() {
    let mut g = MixGraph::new(48000, SEED);
    let c = SoundControls { master: 9000, pink: 9000, sine_40hz: 0, brown: 0, white: 0 };
    for _ in 0..48000 {
        let (l, r) = g.next_frame(&c);
        assert!(l.abs() <= FULL_SCALE && r.abs() <= FULL_SCALE);
    }
    let all = SoundControls { master: 9000, pink: 9000, sine_40hz: 9000, brown: 9000, white: 9000 };
    for _ in 0..48000 {
        let (l, r) = g.next_frame(&all);
        assert!(l.abs() <= FULL_SCALE && r.abs() <= FULL_SCALE);
    }
}

#[test]
fn gain_jump_is_slew_limited() {
    let mut g = MixGraph::new(48000, SEED);
    let quiet = zero_gains();
    let mut prev = 0i64;
    for _ in 0..100 {
        prev = g.next_frame(&quiet).0;
    }
    let loud = SoundControls { master: 9000, pink: 0, sine_40hz: 9000, brown: 0, white: 9000 };
    for _ in 0..2000 {
        let (l, _) = g.next_frame(&loud);
        assert!((l - prev).abs() <= SLEW_STEP);
        prev = l;
    }
}

#[test]
fn centre_pan_keeps_channels_identical() {
    let mut g = MixGraph::new(48000, SEED);
    let c = SoundControls { master: 9000, pink: 4500, sine_40hz: 1800, brown: 900, white: 450 };
    for _ in 0..5000 {
        let (l, r) = g.next_frame(&c);
        assert_eq!(l, r);
    }
}

#[test]
fn rendering_is_deterministic_from_the_seed() {
    let mut a = MixGraph::new(48000, SEED);
    let mut b = MixGraph::new(48000, SEED);
    let c = SoundControls { master: 9000, pink: 2700, sine_40hz: 1800, brown: 900, white: 450 };
    for _ in 0..2000 {
        assert_eq!(a.next_frame(&c), b.next_frame(&c));
    }
    let mut d = MixGraph::new(48000, SEED + 1);
    let mut differs = false;
    for _ in 0..2000 {
        if a.next_frame(&c) != d.next_frame(&c) {
            differs = true;
        }
    }
    assert!(differs);
}

#[test]
fn fill_interleaves_left_and_right() {
    let mut g = MixGraph::new(48000, SEED);
    let mut reference = MixGraph::new(48000, SEED);
    let c = SoundControls { master: 9000, pink: 2700, sine_40hz: 1800, brown: 0, white: 450 };
    let mut buf: Vec<i16> = vec![0; 20];
    g.fill_i16(&c, &mut buf, 2);
    for frame in 0..10 {
        let (l, r) = reference.next_frame(&c);
        assert_eq!(buf[2 * frame] as i64, l);
        assert_eq!(buf[2 * frame + 1] as i64, r);
    }
}

#[test]
fn fill_handles_partial_chunks_and_odd_channel_counts() {
    let mut g = MixGraph::new(48000, SEED);
    let mut reference = MixGraph::new(48000, SEED);
    let c = SoundControls { master: 9000, pink: 2700, sine_40hz: 1800, brown: 0, white: 450 };
    let mut buf: Vec<i16> = vec![0; 7];
    g.fill_i16(&c, &mut buf, 3);
    for frame in 0..3 {
        let (l, r) = reference.next_frame(&c);
        for k in 0..3usize {
            let j = 3 * frame + k;
            if j < 7 {
                let expected = if k % 2 == 0 { l } else { r };
                assert_eq!(buf[j] as i64, expected);
            }
        }
    }
}

#[test]
fn fill_with_one_channel_writes_left_samples() {
    let mut g = MixGraph::new(44100, SEED);
    let mut reference = MixGraph::new(44100, SEED);
    let c = SoundControls::new();
    let mut buf: Vec<i16> = vec![0; 5];
    g.fill_i16(&c, &mut buf, 1);
    for frame in 0..5 {
        let (l, _) = reference.next_frame(&c);
        assert_eq!(buf[frame] as i64, l);
    }
}

#[test]
fn sample_format_conversions() {
    assert_eq!(sample_to_i16(-32767), -32767);
    assert_eq!(sample_to_i16(0), 0);
    assert_eq!(sample_to_i16(32767), 32767);
    assert_eq!(sample_to_u16(-32767), 0);
    assert_eq!(sample_to_u16(0), 32767);
    assert_eq!(sample_to_u16(32767), 65534);
}
