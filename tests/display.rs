use timer::display::{LONG_OFF, LONG_ON, SHORT_OFF, BLINK};
use timer::{BlinkKind, CompassDisplay};

fn lit(d: &CompassDisplay) -> Vec<bool> {
    (0..8).map(|i| d.led(i)).collect()
}

fn solid(n: usize) -> Vec<bool> {
    (0..8).map(|i| i < n).collect()
}

#[test]
fn to_some_names_the_blinking_light() {
    assert_eq!(BlinkKind::Fast.to_some(3), Some(3));
    assert_eq!(BlinkKind::Slow.to_some(0), Some(0));
    assert_eq!(BlinkKind::NoBlink.to_some(3), None);
    assert_eq!(BlinkKind::All.to_some(3), None);
}

#[test]
fn new_display_is_dark() {
    let d = CompassDisplay::new();
    assert_eq!(lit(&d), solid(0));
}

#[test]
fn solid_lights_follow_the_count() {
    let mut d = CompassDisplay::new();
    d.update(0, 3, BlinkKind::NoBlink);
    assert_eq!(lit(&d), solid(3));
    d.update(10, 8, BlinkKind::NoBlink);
    assert_eq!(lit(&d), solid(8));
    d.update(20, 1, BlinkKind::NoBlink);
    assert_eq!(lit(&d), solid(1));
}

#[test]
fn slow_blink_follows_its_phases() {
    let mut d = CompassDisplay::new();
    d.update(0, 3, BlinkKind::Slow);
    assert_eq!(lit(&d), solid(3));
    d.update(LONG_OFF - 1, 3, BlinkKind::Slow);
    assert_eq!(lit(&d), solid(3));
    d.update(LONG_OFF, 3, BlinkKind::Slow);
    assert_eq!(lit(&d), solid(4));
    d.update(LONG_OFF + LONG_ON - 1, 3, BlinkKind::Slow);
    assert_eq!(lit(&d), solid(4));
    d.update(LONG_OFF + LONG_ON, 3, BlinkKind::Slow);
    assert_eq!(lit(&d), solid(3));
}

#[test]
fn fast_blink_uses_short_phases() {
    let mut d = CompassDisplay::new();
    d.update(100, 0, BlinkKind::Fast);
    assert_eq!(lit(&d), solid(0));
    d.update(100 + SHORT_OFF, 0, BlinkKind::Fast);
    assert_eq!(lit(&d), solid(1));
}

#[test]
fn moving_the_blink_keeps_the_phase() {
    let mut d = CompassDisplay::new();
    d.update(0, 3, BlinkKind::Slow);
    d.update(LONG_OFF, 3, BlinkKind::Slow);
    assert_eq!(lit(&d), solid(4));
    d.update(LONG_OFF + 10, 2, BlinkKind::Slow);
    assert_eq!(lit(&d), solid(3));
}

#[test]
fn stopping_the_blink_switches_its_light_off() {
    let mut d = CompassDisplay::new();
    d.update(0, 3, BlinkKind::Slow);
    d.update(LONG_OFF, 3, BlinkKind::Slow);
    assert_eq!(lit(&d), solid(4));
    d.update(LONG_OFF + 10, 3, BlinkKind::NoBlink);
    assert_eq!(lit(&d), solid(3));
}

#[test]
fn whole_ring_flashes_and_recovers() {
    let mut d = CompassDisplay::new();
    d.update(0, 2, BlinkKind::NoBlink);
    d.update(100, 0, BlinkKind::All);
    assert_eq!(lit(&d), vec![true; 8]);
    d.update(100 + BLINK - 1, 0, BlinkKind::All);
    assert_eq!(lit(&d), vec![true; 8]);
    d.update(100 + BLINK, 0, BlinkKind::All);
    assert_eq!(lit(&d), vec![false; 8]);
    d.update(100 + 2 * BLINK, 0, BlinkKind::All);
    assert_eq!(lit(&d), vec![true; 8]);
    d.update(2000, 2, BlinkKind::NoBlink);
    assert_eq!(lit(&d), solid(2));
}

#[test]
fn leaving_flash_mode_forgets_the_blinking_light() {
    let mut d = CompassDisplay::new();
    d.update(0, 0, BlinkKind::Slow);
    d.update(100, 0, BlinkKind::All);
    assert_eq!(lit(&d), vec![true; 8]);
    d.update(200, 1, BlinkKind::NoBlink);
    assert_eq!(lit(&d), solid(1));
}

#[test]
fn leaving_flash_mode_restarts_the_blink() {
    let mut d = CompassDisplay::new();
    d.update(0, 2, BlinkKind::Slow);
    d.update(LONG_OFF, 2, BlinkKind::Slow);
    assert_eq!(lit(&d), solid(3));
    d.update(LONG_OFF + 10, 0, BlinkKind::All);
    d.update(LONG_OFF + 20, 2, BlinkKind::Slow);
    assert_eq!(lit(&d), solid(2));
    d.update(2 * LONG_OFF + 20, 2, BlinkKind::Slow);
    assert_eq!(lit(&d), solid(3));
}
