use julia_explorer::controls::{Controls, SurfaceSize, INITIAL_ITERATIONS};
use julia_explorer::input::Key;
use julia_explorer::keys::{HeldKeys, KeyAction, ACTION_COUNT};
use julia_explorer::palette::{Palette, CENTI, DRIFT_UNITS};
use julia_explorer::surface::{Recovery, SurfaceFault};

fn fresh() -> Controls {
    Controls::new(800, 600)
}

fn hold_for(c: &mut Controls, action: KeyAction, ticks: usize) {
    c.set_key(action, true);
    for _ in 0..ticks {
        c.tick();
    }
    c.set_key(action, false);
}

#[test]
fn starting_state() {
    let c = fresh();
    assert_eq!(c.zoom_level, 0);
    assert_eq!(c.iteration_count, INITIAL_ITERATIONS);
    assert_eq!(c.iteration_count, 100);
    assert_eq!(c.size, SurfaceSize { width: 800, height: 600 });
    assert_eq!(
        c.palette,
        Palette { base: 330, drift: -30, tone_a: 20, tone_b: 100, inverted: false }
    );
    assert_eq!(c.palette.base as f64 / CENTI as f64, 3.3);
    assert_eq!(c.palette.drift as f64 / DRIFT_UNITS as f64, -0.003);
    assert_eq!(c.held, HeldKeys::new());
}

#[test]
fn slots_cover_the_table_once() {
    let all = [
        KeyAction::JuliaUp, KeyAction::JuliaLeft, KeyAction::JuliaDown, KeyAction::JuliaRight,
        KeyAction::PanUp, KeyAction::PanLeft, KeyAction::PanDown, KeyAction::PanRight,
        KeyAction::ZoomIn, KeyAction::ZoomOut, KeyAction::BasePlus, KeyAction::BaseMinus,
        KeyAction::DriftPlus, KeyAction::DriftMinus, KeyAction::ToneAPlus, KeyAction::ToneAMinus,
        KeyAction::ToneBPlus, KeyAction::ToneBMinus, KeyAction::FewerIterations,
        KeyAction::MoreIterations,
    ];
    for (i, a) in all.iter().enumerate() {
        assert_eq!(a.slot(), i);
    }
    assert_eq!(all.len(), ACTION_COUNT);
}

#[test]
fn set_key_is_idempotent_and_local() {
    let mut c = fresh();
    c.set_key(KeyAction::PanLeft, true);
    let once = c;
    c.set_key(KeyAction::PanLeft, true);
    assert_eq!(c, once);
    assert!(c.is_held(KeyAction::PanLeft));
    assert!(!c.is_held(KeyAction::PanRight));
    c.set_key(KeyAction::PanLeft, false);
    assert!(!c.is_held(KeyAction::PanLeft));
    assert_eq!(c, fresh());
}

#[test]
fn directions_of_moving_actions() {
    assert_eq!(KeyAction::JuliaUp.direction(), (0, -1));
    assert_eq!(KeyAction::JuliaLeft.direction(), (-1, 0));
    assert_eq!(KeyAction::JuliaDown.direction(), (0, 1));
    assert_eq!(KeyAction::JuliaRight.direction(), (1, 0));
    assert_eq!(KeyAction::PanUp.direction(), (0, -1));
    assert_eq!(KeyAction::PanRight.direction(), (1, 0));
    assert_eq!(KeyAction::ZoomIn.direction(), (0, 0));
    assert_eq!(KeyAction::MoreIterations.direction(), (0, 0));
}

#[test]
fn zoom_in_then_out_restores_extent() {
    let mut c = fresh();
    hold_for(&mut c, KeyAction::ZoomIn, 50);
    assert_eq!(c.zoom_level, 50);
    let extent = 2.0 * 0.99f64.powi(c.zoom_level as i32);
    assert!((extent - 2.0 * 0.99f64.powi(50)).abs() < 1e-12);
    hold_for(&mut c, KeyAction::ZoomOut, 50);
    assert_eq!(c.zoom_level, 0);
}

#[test]
fn zoom_in_and_out_together_cancel() {
    let mut c = fresh();
    c.set_key(KeyAction::ZoomIn, true);
    c.set_key(KeyAction::ZoomOut, true);
    c.tick();
    assert_eq!(c.zoom_level, 0);
}

#[test]
fn zoom_level_saturates() {
    let mut c = fresh();
    c.zoom_level = i64::MAX;
    hold_for(&mut c, KeyAction::ZoomIn, 3);
    assert_eq!(c.zoom_level, i64::MAX);
}

#[test]
fn iterations_floor_at_one() {
    let mut c = fresh();
    hold_for(&mut c, KeyAction::FewerIterations, 98);
    assert_eq!(c.iteration_count, 2);
    hold_for(&mut c, KeyAction::FewerIterations, 1);
    assert_eq!(c.iteration_count, 1);
    hold_for(&mut c, KeyAction::FewerIterations, 5);
    assert_eq!(c.iteration_count, 1);
    hold_for(&mut c, KeyAction::MoreIterations, 3);
    assert_eq!(c.iteration_count, 4);
}

#[test]
fn iterations_stay_at_largest_budget() {
    let mut c = fresh();
    c.iteration_count = u32::MAX;
    hold_for(&mut c, KeyAction::MoreIterations, 2);
    assert_eq!(c.iteration_count, u32::MAX);
}

#[test]
fn free_dials_step() {
    let mut c = fresh();
    hold_for(&mut c, KeyAction::BasePlus, 2);
    assert_eq!(c.palette.base, 332);
    hold_for(&mut c, KeyAction::BaseMinus, 5);
    assert_eq!(c.palette.base, 327);
    hold_for(&mut c, KeyAction::DriftPlus, 40);
    assert_eq!(c.palette.drift, 10);
    hold_for(&mut c, KeyAction::DriftMinus, 1);
    assert_eq!(c.palette.drift, 9);
}

#[test]
fn tones_clamp_in_plain_mode() {
    let mut c = fresh();
    hold_for(&mut c, KeyAction::ToneAPlus, 500);
    assert_eq!(c.palette.tone_a, 100);
    hold_for(&mut c, KeyAction::ToneAMinus, 30);
    assert_eq!(c.palette.tone_a, 70);
    hold_for(&mut c, KeyAction::ToneBMinus, 500);
    assert_eq!(c.palette.tone_b, 0);
    hold_for(&mut c, KeyAction::ToneBPlus, 1);
    assert_eq!(c.palette.tone_b, 1);
}

#[test]
fn tones_clamp_in_inverted_mode() {
    let mut c = fresh();
    assert!(c.input(Key::Return, true));
    assert!(c.palette.inverted);
    assert_eq!(c.palette.tone_a, -20);
    assert_eq!(c.palette.tone_b, -100);
    hold_for(&mut c, KeyAction::ToneAPlus, 500);
    assert_eq!(c.palette.tone_a, -100);
    hold_for(&mut c, KeyAction::ToneBMinus, 500);
    assert_eq!(c.palette.tone_b, 0);
    hold_for(&mut c, KeyAction::ToneAMinus, 10);
    assert_eq!(c.palette.tone_a, -90);
}

#[test]
fn toggling_twice_restores_tones() {
    let mut c = fresh();
    hold_for(&mut c, KeyAction::ToneAPlus, 7);
    let before = c;
    c.toggle_color_mode();
    assert_ne!(c, before);
    c.toggle_color_mode();
    assert_eq!(c, before);
}

#[test]
fn keys_route_to_their_controls() {
    let mut c = fresh();
    let table = [
        (Key::Up, KeyAction::JuliaUp), (Key::Left, KeyAction::JuliaLeft),
        (Key::Down, KeyAction::JuliaDown), (Key::Right, KeyAction::JuliaRight),
        (Key::W, KeyAction::PanUp), (Key::A, KeyAction::PanLeft),
        (Key::S, KeyAction::PanDown), (Key::D, KeyAction::PanRight),
        (Key::C, KeyAction::ZoomIn), (Key::X, KeyAction::ZoomOut),
        (Key::T, KeyAction::BasePlus), (Key::Y, KeyAction::BaseMinus),
        (Key::G, KeyAction::DriftPlus), (Key::H, KeyAction::DriftMinus),
        (Key::O, KeyAction::ToneAPlus), (Key::I, KeyAction::ToneAMinus),
        (Key::L, KeyAction::ToneBPlus), (Key::K, KeyAction::ToneBMinus),
        (Key::N, KeyAction::FewerIterations), (Key::M, KeyAction::MoreIterations),
    ];
    for (key, action) in table {
        assert_eq!(key.binding(), Some(action));
        assert!(c.input(key, true));
        assert!(c.is_held(action));
        assert!(c.input(key, false));
        assert!(!c.is_held(action));
    }
    assert_eq!(c, fresh());
}

#[test]
fn unbound_keys_are_not_consumed() {
    let mut c = fresh();
    assert!(!c.input(Key::Other, true));
    assert!(!c.input(Key::Escape, true));
    assert_eq!(c, fresh());
    assert!(Key::Escape.is_exit(true));
    assert!(!Key::Escape.is_exit(false));
    assert!(!Key::Other.is_exit(true));
    assert_eq!(Key::Return.binding(), None);
}

#[test]
fn return_toggles_on_press_only() {
    let mut c = fresh();
    assert!(c.input(Key::Return, false));
    assert_eq!(c, fresh());
    assert!(c.input(Key::Return, true));
    assert!(c.palette.inverted);
}

#[test]
fn empty_resize_is_ignored() {
    let mut c = fresh();
    hold_for(&mut c, KeyAction::ZoomIn, 4);
    let before = c;
    assert!(!c.resize(0, 0));
    assert!(!c.resize(0, 300));
    assert!(!c.resize(300, 0));
    assert_eq!(c, before);
    assert!(c.resize(1024, 256));
    assert_eq!(c.size, SurfaceSize { width: 1024, height: 256 });
    assert_eq!(c.zoom_level, 4);
}

#[test]
fn reconfigure_keeps_state() {
    let mut c = fresh();
    let before = c;
    assert!(c.reconfigure());
    assert_eq!(c, before);
}

#[test]
fn faults_map_to_recoveries() {
    assert_eq!(SurfaceFault::Lost.recovery(), Recovery::Reconfigure);
    assert_eq!(SurfaceFault::OutOfMemory.recovery(), Recovery::Exit);
    assert_eq!(SurfaceFault::Timeout.recovery(), Recovery::Retry);
    assert_eq!(SurfaceFault::Outdated.recovery(), Recovery::Retry);
}
