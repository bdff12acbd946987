use mouse_jiggler_neo::jiggle::{base_pattern, pattern_len, step_delta, Mode, PauseDetector};
use mouse_jiggler_neo::rng::Rng;

#[test]
fn mode_names_round_trip() {
    for &m in Mode::all() {
        assert_eq!(Mode::parse(m.as_str()), Some(m));
    }
    assert_eq!(Mode::all(), &[Mode::Normal, Mode::Zen, Mode::Circle, Mode::Linear]);
}

#[test]
fn mode_parse_ignores_case() {
    assert_eq!(Mode::parse("NORMAL"), Some(Mode::Normal));
    assert_eq!(Mode::parse("cIrClE"), Some(Mode::Circle));
    assert_eq!(Mode::parse("linear"), Some(Mode::Linear));
    assert_eq!(Mode::parse("zEn"), Some(Mode::Zen));
    assert_eq!(Mode::parse("zen "), None);
    assert_eq!(Mode::parse(""), None);
}

#[test]
fn patterns_and_lengths() {
    assert_eq!(base_pattern(Mode::Normal), &[(4, 4), (-4, -4)]);
    assert_eq!(base_pattern(Mode::Zen), &[(0, 0)]);
    assert_eq!(base_pattern(Mode::Linear), &[(4, 0), (-4, 0)]);
    assert_eq!(pattern_len(Mode::Circle), 8);
    assert_eq!(pattern_len(Mode::Zen), 1);
}

#[test]
fn step_delta_scales_and_wraps() {
    assert_eq!(step_delta(Mode::Normal, 0, 3), (12, 12));
    assert_eq!(step_delta(Mode::Normal, 1, 3), (-12, -12));
    assert_eq!(step_delta(Mode::Normal, 2, 3), (12, 12));
    assert_eq!(step_delta(Mode::Circle, 5, 2), (-4, -6));
    assert_eq!(step_delta(Mode::Circle, 13, 2), (-4, -6));
    assert_eq!(step_delta(Mode::Zen, 7, 120), (0, 0));
    assert_eq!(step_delta(Mode::Linear, 1, 120), (-480, 0));
}

#[test]
fn pause_detector_reports_movement() {
    let mut p = PauseDetector::default();
    assert!(!p.has_mouse_moved(Some((10, 10))));
    assert!(!p.has_mouse_moved(Some((10, 10))));
    assert!(p.has_mouse_moved(Some((11, 10))));
    assert!(!p.has_mouse_moved(None));
    assert!(!p.has_mouse_moved(Some((11, 10))));
    p.update_position(Some((50, 50)));
    assert!(!p.has_mouse_moved(Some((50, 50))));
    p.update_position(None);
    assert!(p.has_mouse_moved(Some((0, 0))));
}

#[test]
fn rng_matches_numerical_recipes_lcg() {
    let mut r = Rng::new(1);
    assert_eq!(r.range_inclusive(1, 60), 29);
    assert_eq!(r.range_inclusive(1, 60), 8);
    assert_eq!(r.range_inclusive(1, 60), 14);
}

#[test]
fn rng_zero_seed_acts_as_one_and_stays_in_range() {
    let mut a = Rng::new(0);
    let mut b = Rng::new(1);
    for _ in 0..100 {
        let x = a.range_inclusive(3, 17);
        assert_eq!(x, b.range_inclusive(3, 17));
        assert!((3..=17).contains(&x));
    }
    let mut c = Rng::new(12345);
    for _ in 0..10 {
        assert_eq!(c.range_inclusive(5, 5), 5);
        let y = c.range_inclusive(0, u32::MAX);
        let _ = y;
    }
}
