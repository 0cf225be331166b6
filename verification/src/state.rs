//! The persisted-gains record: one master gain plus one gain per source, in a
//! fixed order. The on-disk encoding belongs to the surrounding program; this
//! module owns the record itself and the defensive rules applied on load.
use vstd::prelude::*;

verus! {

use crate::GAIN_UNIT;

/// How many mixable sources there are, besides the master control.
pub const SOURCE_COUNT: usize = 4;

/// The validated record of gains that survives across runs.
pub struct State {
    pub master: u32,
    pub volumes: [u32; 4],
}

/// A record as it came back from disk, before validation. Values may be
/// anything; `State::load` decides what to trust.
pub struct RawGains {
    pub master: i64,
    pub volumes: [i64; 4],
}

/// What a loaded master gain becomes: kept when already in range, otherwise
/// the default of full scale.
pub open spec fn spec_load_master(m: int) -> int {
    if 0 <= m <= GAIN_UNIT {
        m
    } else {
        GAIN_UNIT as int
    }
}

/// What a loaded source gain becomes: kept when already in range, otherwise
/// the default of silence.
pub open spec fn spec_load_volume(v: int) -> int {
    if 0 <= v <= GAIN_UNIT {
        v
    } else {
        0
    }
}

impl State {
    /// All stored gains are within [0, GAIN_UNIT].
    pub open spec fn wf(self) -> bool {
        &&& self.master <= GAIN_UNIT
        &&& forall|i: int| 0 <= i < 4 ==> #[trigger] self.volumes@[i] <= GAIN_UNIT
    }

    /// Validate a record read from disk. A missing or unparseable file is
    /// `None`; out-of-range values are replaced by their defaults rather
    /// than trusted verbatim.
    pub fn load(raw: Option<RawGains>) -> (s: State)
        ensures
            s.wf(),
            raw is None ==> s.master == GAIN_UNIT && forall|i: int|
                0 <= i < 4 ==> #[trigger] s.volumes@[i] == 0,
            raw matches Some(r) ==> s.master == spec_load_master(r.master as int)
                && forall|i: int|
                0 <= i < 4 ==> #[trigger] s.volumes@[i] == spec_load_volume(r.volumes@[i] as int),
    {
        match raw {
            Option::None => State::default(),
            Option::Some(r) => {
                let master: u32 = if 0 <= r.master && r.master <= GAIN_UNIT as i64 {
                    r.master as u32
                } else {
                    GAIN_UNIT
                };
                let mut volumes: [u32; 4] = [0u32, 0u32, 0u32, 0u32];
                let mut i: usize = 0;
                while i < 4
                    invariant
                        i <= 4,
                        forall|j: int|
                            0 <= j < i ==> #[trigger] volumes@[j] == spec_load_volume(
                                r.volumes@[j] as int,
                            ),
                    decreases 4 - i,
                {
                    let v: i64 = r.volumes[i];
                    let g: u32 = if 0 <= v && v <= GAIN_UNIT as i64 {
                        v as u32
                    } else {
                        0
                    };
                    volumes[i] = g;
                    i = i + 1;
                }
                State { master, volumes }
            },
        }
    }

    /// Hand the record back for persisting, unchanged.
    pub fn save(&self) -> (r: RawGains)
        ensures
            r.master == self.master,
            forall|i: int| 0 <= i < 4 ==> #[trigger] r.volumes@[i] == self.volumes@[i],
    {
        RawGains {
            master: self.master as i64,
            volumes: [
                self.volumes[0] as i64,
                self.volumes[1] as i64,
                self.volumes[2] as i64,
                self.volumes[3] as i64,
            ],
        }
    }
}

impl Default for State {
    /// The defaults used when nothing valid was persisted: master at full
    /// scale, every source silent.
    fn default() -> (s: State)
        ensures
            s.wf(),
            s.master == GAIN_UNIT,
            forall|i: int| 0 <= i < 4 ==> #[trigger] s.volumes@[i] == 0,
    {
        State { master: GAIN_UNIT, volumes: [0u32, 0u32, 0u32, 0u32] }
    }
}

/// Law: saving and then loading reproduces the record exactly whenever the
/// gains were valid, because validation keeps every in-range value verbatim.
/// `r` is the raw record `save` writes for `s`, and `t` is what `load` then
/// returns for `r`.
pub proof fn lemma_save_load_round_trip(s: State, r: RawGains, t: State)
    requires
        s.wf(),
        r.master == s.master,
        forall|i: int| 0 <= i < 4 ==> #[trigger] r.volumes@[i] == s.volumes@[i],
        t.master == spec_load_master(r.master as int),
        forall|i: int|
            0 <= i < 4 ==> #[trigger] t.volumes@[i] == spec_load_volume(r.volumes@[i] as int),
    ensures
        t.master == s.master,
        forall|i: int| 0 <= i < 4 ==> #[trigger] t.volumes@[i] == s.volumes@[i],
{
    assert forall|i: int| 0 <= i < 4 implies #[trigger] t.volumes@[i] == s.volumes@[i] by {
        assert(r.volumes@[i] == s.volumes@[i]);
        assert(s.volumes@[i] <= GAIN_UNIT);
    }
}

} // verus!
