//! Tests of the gain controls, the mute state machine, the control surface
//! and the persisted-gains record.
use sound_mixer::GAIN_UNIT;
use sound_mixer::app::{App, Key, MUTE_FLOOR, Sound};
use sound_mixer::state::{RawGains, State};
use sound_mixer::ui::{bar_filled, gain_percent};

#[test]
fn write_then_read_clamps() {
    let mut s = Sound::new("test");
    s.set_volume(4500);
    assert_eq!(s.volume(), 4500);
    s.set_volume(13500);
    assert_eq!(s.volume(), GAIN_UNIT);
    s.set_volume(-3);
    assert_eq!(s.volume(), 0);
    s.set_volume(i64::MAX);
    assert_eq!(s.volume(), GAIN_UNIT);
}

#[test]
fn adjust_clamps_at_both_ends() {
    let mut s = Sound::new("test");
    s.set_volume(4500);
    s.adjust_volume(450);
    assert_eq!(s.volume(), 4950);
    s.adjust_volume(-9000);
    assert_eq!(s.volume(), 0);
    s.set_volume(8800);
    s.adjust_volume(450);
    assert_eq!(s.volume(), GAIN_UNIT);
}

#[test]
fn mute_round_trip_restores_exact_gain() {
    let mut s = Sound::new("test");
    s.set_volume(6000);
    s.toggle_mute();
    assert!(s.is_muted());
    assert_eq!(s.volume(), 0);
    s.toggle_mute();
    assert!(!s.is_muted());
    assert_eq!(s.volume(), 6000);
}

#[test]
fn mute_from_low_gain_restores_the_floor() {
    let mut s = Sound::new("test");
    s.set_volume(900);
    s.toggle_mute();
    assert_eq!(s.volume(), 0);
    s.toggle_mute();
    assert_eq!(s.volume(), MUTE_FLOOR);
}

#[test]
fn explicit_write_while_muted_unmutes() {
    let mut s = Sound::new("test");
    s.set_volume(6000);
    s.toggle_mute();
    assert!(s.is_muted());
    s.set_volume(3000);
    assert!(!s.is_muted());
    assert_eq!(s.volume(), 3000);
}

#[test]
fn selection_wraps_both_ways() {
    let mut app = App::new(&State::default());
    assert_eq!(app.selected, 0);
    for expected in [1usize, 2, 3, 4, 0, 1] {
        app.select_next();
        assert_eq!(app.selected, expected);
    }
    let mut app = App::new(&State::default());
    app.select_prev();
    assert_eq!(app.selected, 4);
    for _ in 0..1000 {
        app.select_next();
        assert!(app.selected < app.total_items());
        app.select_prev();
        app.select_prev();
        assert!(app.selected < app.total_items());
    }
}

#[test]
fn quit_keys_set_exit_flag() {
    let mut app = App::new(&State::default());
    app.handle_key(Key::Char('q'));
    assert!(app.should_exit);
    let mut app = App::new(&State::default());
    app.handle_key(Key::Esc);
    assert!(app.should_exit);
}

#[test]
fn digit_keys_set_ninths() {
    let mut app = App::new(&State::default());
    app.handle_key(Key::Char('9'));
    assert_eq!(app.master.volume(), 9000);
    app.handle_key(Key::Char('0'));
    assert_eq!(app.master.volume(), 0);
    app.handle_key(Key::Char('j'));
    app.handle_key(Key::Char('5'));
    assert_eq!(app.sounds[0].volume(), 5000);
}

#[test]
fn nudge_keys_move_selected_gain() {
    let mut app = App::new(&State::default());
    app.handle_key(Key::Char('j'));
    app.handle_key(Key::Char('l'));
    assert_eq!(app.sounds[0].volume(), 450);
    app.handle_key(Key::Right);
    assert_eq!(app.sounds[0].volume(), 900);
    app.handle_key(Key::Char('h'));
    app.handle_key(Key::Left);
    app.handle_key(Key::Left);
    assert_eq!(app.sounds[0].volume(), 0);
    assert_eq!(app.master.volume(), GAIN_UNIT);
}

#[test]
fn mute_key_toggles_master_only() {
    let mut app = App::new(&State::default());
    app.handle_key(Key::Char('j'));
    app.handle_key(Key::Char('3'));
    app.handle_key(Key::Char('m'));
    assert!(app.master.is_muted());
    assert_eq!(app.master.volume(), 0);
    assert_eq!(app.sounds[0].volume(), 3000);
    app.handle_key(Key::Char('m'));
    assert!(!app.master.is_muted());
    assert_eq!(app.master.volume(), GAIN_UNIT);
}

#[test]
fn unknown_keys_are_ignored() {
    let mut app = App::new(&State::default());
    app.handle_key(Key::Other);
    app.handle_key(Key::Char('x'));
    assert_eq!(app.selected, 0);
    assert!(!app.should_exit);
    assert_eq!(app.master.volume(), GAIN_UNIT);
}

#[test]
fn state_defaults_on_missing_record() {
    let s = State::load(None);
    assert_eq!(s.master, GAIN_UNIT);
    assert_eq!(s.volumes, [0, 0, 0, 0]);
}

#[test]
fn state_defaults_on_out_of_range_values() {
    let s = State::load(Some(RawGains { master: 90000, volumes: [-1, 4500, 9001, 9000] }));
    assert_eq!(s.master, GAIN_UNIT);
    assert_eq!(s.volumes, [0, 4500, 0, 9000]);
}

#[test]
fn save_then_load_round_trips() {
    let s = State { master: 7000, volumes: [1000, 0, 9000, 450] };
    let raw = s.save();
    let t = State::load(Some(raw));
    assert_eq!(t.master, s.master);
    assert_eq!(t.volumes, s.volumes);
}

#[test]
fn app_snapshot_matches_loaded_state() {
    let s = State { master: 4500, volumes: [900, 1800, 2700, 3600] };
    let app = App::new(&s);
    let t = app.save_state();
    assert_eq!(t.master, 4500);
    assert_eq!(t.volumes, [900, 1800, 2700, 3600]);
}

#[test]
fn muted_master_saves_as_zero() {
    let s = State { master: 6000, volumes: [0, 0, 0, 0] };
    let mut app = App::new(&s);
    app.handle_key(Key::Char('m'));
    let t = app.save_state();
    assert_eq!(t.master, 0);
}

#[test]
fn display_formulas_are_exact() {
    assert_eq!(gain_percent(0), 0);
    assert_eq!(gain_percent(4500), 50);
    assert_eq!(gain_percent(9000), 100);
    assert_eq!(gain_percent(2700), 30);
    assert_eq!(bar_filled(0, 20), 0);
    assert_eq!(bar_filled(4500, 20), 10);
    assert_eq!(bar_filled(9000, 20), 20);
    assert_eq!(bar_filled(450, 20), 1);
}
