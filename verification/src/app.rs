//! The control surface's model: named gain controls with the mute state
//! machine, the selection cursor over master plus sources, and the discrete
//! commands decoded from key presses.
use vstd::prelude::*;

verus! {

use crate::state::{SOURCE_COUNT, State};
use crate::{GAIN_UNIT, VOLUME_STEP, clamp_gain, spec_clamp_gain};

/// When muting, the saved gain is raised to at least this floor (0.3 of full
/// scale), so that un-muting stays audible even from a near-zero level.
pub const MUTE_FLOOR: u32 = 2700;

/// A named gain control. The master control additionally carries the mute
/// state: while muted, the live gain is zero and the pre-mute gain waits in
/// `muted_volume`.
#[derive(Clone, Copy)]
pub struct Sound {
    pub name: &'static str,
    pub gain: u32,
    pub muted_volume: Option<u32>,
}

/// What muting saves: the current gain, raised to the mute floor.
pub open spec fn spec_mute_save(gain: u32) -> u32 {
    if gain >= MUTE_FLOOR {
        gain
    } else {
        MUTE_FLOOR
    }
}

/// The mute state machine: un-mute restores the saved gain; mute silences
/// the control and saves the (floored) gain.
pub open spec fn spec_toggle(gain: u32, muted: Option<u32>) -> (u32, Option<u32>) {
    match muted {
        Option::Some(v) => (v, Option::None),
        Option::None => (0u32, Option::Some(spec_mute_save(gain))),
    }
}

impl Sound {
    /// The gain is in range, and while muted the live gain is zero.
    pub open spec fn wf(self) -> bool {
        &&& self.gain <= GAIN_UNIT
        &&& match self.muted_volume {
            Option::Some(s) => s <= GAIN_UNIT && self.gain == 0,
            Option::None => true,
        }
    }

    /// A fresh, silent, unmuted control.
    pub fn new(name: &'static str) -> (s: Sound)
        ensures
            s.wf(),
            s.name == name,
            s.gain == 0,
            s.muted_volume is None,
    {
        Sound { name, gain: 0, muted_volume: Option::None }
    }

    /// The gain the render path currently sees (zero while muted).
    pub fn volume(&self) -> (v: u32)
        ensures
            v == self.gain,
    {
        self.gain
    }

    /// Store a new gain, clamped into [0, GAIN_UNIT]. An explicit write
    /// always leaves the control unmuted: a user action cancels mute rather
    /// than being masked by it.
    pub fn set_volume(&mut self, vol: i64)
        ensures
            final(self).wf(),
            final(self).gain as int == spec_clamp_gain(vol as int),
            final(self).muted_volume is None,
            final(self).name == old(self).name,
    {
        self.gain = clamp_gain(vol);
        self.muted_volume = Option::None;
    }

    /// Nudge the gain by a signed step; the result is clamped, and the
    /// control ends up unmuted like any explicit write.
    pub fn adjust_volume(&mut self, delta: i64)
        requires
            old(self).gain + delta <= i64::MAX,
        ensures
            final(self).wf(),
            final(self).gain as int == spec_clamp_gain(old(self).gain + delta),
            final(self).muted_volume is None,
            final(self).name == old(self).name,
    {
        let current: i64 = self.gain as i64;
        self.set_volume(current + delta);
    }

    /// Flip the mute state: see `spec_toggle`.
    pub fn toggle_mute(&mut self)
        requires
            old(self).wf(),
        ensures
            final(self).wf(),
            (final(self).gain, final(self).muted_volume) == spec_toggle(
                old(self).gain,
                old(self).muted_volume,
            ),
            final(self).name == old(self).name,
    {
        match self.muted_volume {
            Option::Some(v) => {
                self.gain = v;
                self.muted_volume = Option::None;
            },
            Option::None => {
                let saved: u32 = if self.gain >= MUTE_FLOOR {
                    self.gain
                } else {
                    MUTE_FLOOR
                };
                self.muted_volume = Option::Some(saved);
                self.gain = 0;
            },
        }
    }

    pub fn is_muted(&self) -> (m: bool)
        ensures
            m == self.muted_volume is Some,
    {
        self.muted_volume.is_some()
    }
}

/// Law: muting and then immediately un-muting restores the exact pre-mute
/// gain, for every unmuted starting gain at or above the mute floor. (Below
/// the floor the saved value is raised to the floor, so the round trip
/// returns the floor instead.)
pub proof fn lemma_mute_round_trip(gain: u32)
    requires
        MUTE_FLOOR <= gain <= GAIN_UNIT,
    ensures
        ({
            let (g1, m1) = spec_toggle(gain, Option::None);
            let (g2, m2) = spec_toggle(g1, m1);
            g1 == 0 && m1 is Some && g2 == gain && m2 is None
        }),
{
}

/// A key press, decoded from the terminal by the surrounding program.
#[derive(Clone, Copy)]
pub enum Key {
    Char(char),
    Up,
    Down,
    Left,
    Right,
    Esc,
    Other,
}

/// The whole control surface state: the master control, the four sources in
/// their fixed order, the selection cursor and the exit flag.
pub struct App {
    pub master: Sound,
    pub sounds: Vec<Sound>,
    pub selected: usize,
    pub should_exit: bool,
}

/// The control the cursor points at: index 0 is the master, index i >= 1 is
/// source i - 1.
pub open spec fn spec_sound_at(app: App, idx: int) -> Sound {
    if idx == 0 {
        app.master
    } else {
        app.sounds[idx - 1]
    }
}

/// Everything except the gain state of the control at `idx` is unchanged.
pub open spec fn spec_only_sound_changed(pre: App, post: App, idx: int) -> bool {
    &&& post.selected == pre.selected
    &&& post.should_exit == pre.should_exit
    &&& post.sounds.len() == pre.sounds.len()
    &&& (idx != 0 ==> post.master == pre.master)
    &&& forall|j: int|
        0 <= j < pre.sounds.len() && j + 1 != idx ==> post.sounds[j] == pre.sounds[j]
    &&& spec_sound_at(post, idx).name == spec_sound_at(pre, idx).name
}

/// No gain state changed: master and sources are untouched.
pub open spec fn spec_only_selection_changed(pre: App, post: App) -> bool {
    &&& post.master == pre.master
    &&& post.sounds@ == pre.sounds@
}

/// Keys the surface ignores: anything that is not quit, navigation, a
/// nudge, a digit, or the mute toggle.
pub open spec fn spec_key_ignored(key: Key) -> bool {
    match key {
        Key::Char(c) => !(c == 'q' || c == 'j' || c == 'k' || c == 'h' || c == 'l' || c == 'm'
            || (48 <= c as u32 && c as u32 <= 57)),
        Key::Other => true,
        _ => false,
    }
}

impl App {
    pub open spec fn wf(self) -> bool {
        &&& self.sounds.len() == SOURCE_COUNT
        &&& self.selected < 1 + SOURCE_COUNT
        &&& self.master.wf()
        &&& forall|i: int| 0 <= i < self.sounds.len() ==> (#[trigger] self.sounds[i]).wf()
    }

    /// Build the control surface from a validated persisted record: master
    /// and sources take the saved gains, the cursor starts on the master.
    pub fn new(state: &State) -> (app: App)
        requires
            state.wf(),
        ensures
            app.wf(),
            app.selected == 0,
            !app.should_exit,
            app.master.gain == state.master,
            app.master.muted_volume is None,
            forall|i: int|
                0 <= i < SOURCE_COUNT ==> (#[trigger] app.sounds[i]).gain == state.volumes@[i]
                    && app.sounds[i].muted_volume is None,
    {
        let mut master = Sound::new("Master");
        master.set_volume(state.master as i64);

        let mut sounds: Vec<Sound> = Vec::new();
        let mut pink = Sound::new("Pink Noise");
        pink.set_volume(state.volumes[0] as i64);
        sounds.push(pink);
        let mut sine = Sound::new("40Hz Sine");
        sine.set_volume(state.volumes[1] as i64);
        sounds.push(sine);
        let mut brown = Sound::new("Brown Noise");
        brown.set_volume(state.volumes[2] as i64);
        sounds.push(brown);
        let mut white = Sound::new("White Noise");
        white.set_volume(state.volumes[3] as i64);
        sounds.push(white);

        App { master, sounds, selected: 0, should_exit: false }
    }

    /// Take a snapshot of the live gains for persisting, in the fixed order
    /// of the record. A muted master is saved as its live gain of zero.
    pub fn save_state(&self) -> (s: State)
        requires
            self.wf(),
        ensures
            s.wf(),
            s.master == self.master.gain,
            forall|i: int| 0 <= i < SOURCE_COUNT ==> #[trigger] s.volumes@[i] == self.sounds[i].gain,
    {
        State {
            master: self.master.volume(),
            volumes: [
                self.sounds[0].volume(),
                self.sounds[1].volume(),
                self.sounds[2].volume(),
                self.sounds[3].volume(),
            ],
        }
    }

    /// One more control than there are sources: the master.
    pub fn total_items(&self) -> (n: usize)
        requires
            self.wf(),
        ensures
            n == 1 + self.sounds.len(),
    {
        1 + self.sounds.len()
    }

    /// Move the cursor down, wrapping past the last control to the master.
    pub fn select_next(&mut self)
        requires
            old(self).wf(),
        ensures
            final(self).wf(),
            spec_only_selection_changed(*old(self), *final(self)),
            final(self).should_exit == old(self).should_exit,
            final(self).selected == (old(self).selected + 1) % (1 + old(self).sounds.len() as int),
    {
        self.selected = (self.selected + 1) % self.total_items();
    }

    /// Move the cursor up, wrapping past the master to the last control.
    pub fn select_prev(&mut self)
        requires
            old(self).wf(),
        ensures
            final(self).wf(),
            spec_only_selection_changed(*old(self), *final(self)),
            final(self).should_exit == old(self).should_exit,
            final(self).selected == if old(self).selected == 0 {
                old(self).sounds.len() as int
            } else {
                old(self).selected - 1
            },
    {
        if self.selected == 0 {
            self.selected = self.total_items() - 1;
        } else {
            self.selected = self.selected - 1;
        }
    }

    /// Write an absolute gain to the control under the cursor.
    fn set_selected(&mut self, vol: i64)
        requires
            old(self).wf(),
        ensures
            final(self).wf(),
            spec_only_sound_changed(*old(self), *final(self), old(self).selected as int),
            spec_sound_at(*final(self), old(self).selected as int).gain as int == spec_clamp_gain(
                vol as int,
            ),
            spec_sound_at(*final(self), old(self).selected as int).muted_volume is None,
    {
        if self.selected == 0 {
            self.master.set_volume(vol);
        } else {
            let idx = self.selected - 1;
            let mut s = self.sounds[idx];
            s.set_volume(vol);
            self.sounds[idx] = s;
        }
    }

    /// Nudge the control under the cursor by a signed step.
    fn adjust_selected(&mut self, delta: i64)
        requires
            old(self).wf(),
            -1000000 <= delta <= 1000000,
        ensures
            final(self).wf(),
            spec_only_sound_changed(*old(self), *final(self), old(self).selected as int),
            spec_sound_at(*final(self), old(self).selected as int).gain as int == spec_clamp_gain(
                spec_sound_at(*old(self), old(self).selected as int).gain + delta,
            ),
            spec_sound_at(*final(self), old(self).selected as int).muted_volume is None,
    {
        if self.selected == 0 {
            self.master.adjust_volume(delta);
        } else {
            let idx = self.selected - 1;
            let mut s = self.sounds[idx];
            s.adjust_volume(delta);
            self.sounds[idx] = s;
        }
    }

    /// Apply one decoded key press: quit, move the cursor, nudge or set the
    /// selected gain, or toggle the master mute. Anything else is ignored.
    pub fn handle_key(&mut self, key: Key)
        requires
            old(self).wf(),
        ensures
            final(self).wf(),
            (key == Key::Char('q') || key == Key::Esc) ==> final(self).should_exit
                && spec_only_selection_changed(*old(self), *final(self)) && final(self).selected
                == old(self).selected,
            (key == Key::Char('j') || key == Key::Down) ==> spec_only_selection_changed(
                *old(self),
                *final(self),
            ) && final(self).should_exit == old(self).should_exit && final(self).selected == (old(
                self,
            ).selected + 1) % (1 + old(self).sounds.len() as int),
            (key == Key::Char('k') || key == Key::Up) ==> spec_only_selection_changed(
                *old(self),
                *final(self),
            ) && final(self).should_exit == old(self).should_exit && final(self).selected == (if old(
                self,
            ).selected == 0 {
                old(self).sounds.len() as int
            } else {
                old(self).selected - 1
            }),
            (key == Key::Char('h') || key == Key::Left) ==> spec_only_sound_changed(
                *old(self),
                *final(self),
                old(self).selected as int,
            ) && spec_sound_at(*final(self), old(self).selected as int).gain as int
                == spec_clamp_gain(
                spec_sound_at(*old(self), old(self).selected as int).gain - VOLUME_STEP,
            ) && spec_sound_at(*final(self), old(self).selected as int).muted_volume is None,
            (key == Key::Char('l') || key == Key::Right) ==> spec_only_sound_changed(
                *old(self),
                *final(self),
                old(self).selected as int,
            ) && spec_sound_at(*final(self), old(self).selected as int).gain as int
                == spec_clamp_gain(
                spec_sound_at(*old(self), old(self).selected as int).gain + VOLUME_STEP,
            ) && spec_sound_at(*final(self), old(self).selected as int).muted_volume is None,
            forall|c: char|
                key == Key::Char(c) && 48 <= c as u32 <= 57 ==> spec_only_sound_changed(
                    *old(self),
                    *final(self),
                    old(self).selected as int,
                ) && spec_sound_at(*final(self), old(self).selected as int).gain == (
                c as u32 - 48) * 1000 && spec_sound_at(
                    *final(self),
                    old(self).selected as int,
                ).muted_volume is None,
            key == Key::Char('m') ==> (final(self).master.gain, final(self).master.muted_volume)
                == spec_toggle(old(self).master.gain, old(self).master.muted_volume)
                && final(self).sounds@ == old(self).sounds@ && final(self).selected == old(
                self,
            ).selected && final(self).should_exit == old(self).should_exit,
            spec_key_ignored(key) ==> *final(self) == *old(self),
    {
        match key {
            Key::Char(c) => {
                if c == 'q' {
                    self.should_exit = true;
                } else if c == 'j' {
                    self.select_next();
                } else if c == 'k' {
                    self.select_prev();
                } else if c == 'h' {
                    self.adjust_selected(-(VOLUME_STEP as i64));
                } else if c == 'l' {
                    self.adjust_selected(VOLUME_STEP as i64);
                } else if c == 'm' {
                    self.master.toggle_mute();
                } else {
                    let code = c as u32;
                    if 48 <= code && code <= 57 {
                        let vol: i64 = ((code - 48) * 1000) as i64;
                        self.set_selected(vol);
                    }
                }
            },
            Key::Esc => {
                self.should_exit = true;
            },
            Key::Down => {
                self.select_next();
            },
            Key::Up => {
                self.select_prev();
            },
            Key::Left => {
                self.adjust_selected(-(VOLUME_STEP as i64));
            },
            Key::Right => {
                self.adjust_selected(VOLUME_STEP as i64);
            },
            Key::Other => {
            },
        }
    }
}

/// Where the cursor lands after `k` repeated next-steps.
pub open spec fn spec_select_next_iter(sel: int, total: int, k: nat) -> int
    decreases k,
{
    if k == 0 {
        sel
    } else {
        (spec_select_next_iter(sel, total, (k - 1) as nat) + 1) % total
    }
}

/// Law: however many times the cursor moves on, it stays inside
/// [0, total - 1] — selection can never leave the control list.
pub proof fn lemma_selection_wraps(sel: int, total: int, k: nat)
    requires
        0 < total,
        0 <= sel < total,
    ensures
        0 <= spec_select_next_iter(sel, total, k) < total,
    decreases k,
{
    if k > 0 {
        lemma_selection_wraps(sel, total, (k - 1) as nat);
    }
}

} // verus!
