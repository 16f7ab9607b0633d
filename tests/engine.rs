use std::cell::Cell;
use std::rc::Rc;

use timer::button::{Button, PushButton};
use timer::{BlinkKind, SimpleTimer};

struct Contact(Rc<Cell<bool>>);

impl PushButton for Contact {
    fn is_pressed(&self) -> bool {
        self.0.get()
    }
}

fn timer_with(period: u32) -> SimpleTimer<Contact, Contact> {
    let start = Button::new(Contact(Rc::new(Cell::new(false))), 0);
    let time = Button::new(Contact(Rc::new(Cell::new(false))), 0);
    SimpleTimer::new(start, time, period)
}

#[test]
fn stopped_empty_timer_shows_nothing_then_flashes_when_started() {
    let mut t = timer_with(1000);
    assert_eq!(t.remaining(), 0);
    assert!(!t.is_running());
    assert_eq!(t.directive(), (0, BlinkKind::NoBlink));
    t.update_sampled(0, true, false);
    assert!(t.is_running());
    t.update_sampled(1, true, false);
    assert!(t.is_running());
    assert_eq!(t.remaining(), 0);
    assert_eq!(t.directive(), (0, BlinkKind::All));
}

#[test]
fn one_segment_counts_down_from_slow_to_fast() {
    let mut t = timer_with(1000);
    t.update_sampled(0, false, true);
    assert_eq!(t.remaining(), 1000);
    assert!(!t.is_running());
    assert_eq!(t.directive(), (1, BlinkKind::NoBlink));
    t.update_sampled(1, true, false);
    assert!(t.is_running());
    assert_eq!(t.remaining(), 1000);
    assert_eq!(t.directive(), (0, BlinkKind::Slow));
    t.update_sampled(301, true, false);
    assert_eq!(t.remaining(), 700);
    assert_eq!(t.directive(), (0, BlinkKind::Slow));
    t.update_sampled(701, true, false);
    assert_eq!(t.remaining(), 300);
    assert_eq!(t.directive(), (0, BlinkKind::Fast));
    t.update_sampled(801, true, false);
    assert_eq!(t.remaining(), 200);
    assert_eq!(t.directive(), (0, BlinkKind::Fast));
}

#[test]
fn eight_presses_fill_the_ring_and_a_ninth_wraps() {
    let mut t = timer_with(500);
    let mut now: u32 = 0;
    for _ in 0..8 {
        t.update_sampled(now, false, true);
        t.update_sampled(now + 1, false, false);
        now += 10;
    }
    assert_eq!(t.remaining(), 4000);
    t.update_sampled(now, false, true);
    assert_eq!(t.remaining(), 500);
}

#[test]
fn add_time_at_full_ring_goes_back_to_one_period() {
    let mut t = timer_with(500);
    for _ in 0..8 {
        t.add_time();
    }
    assert_eq!(t.remaining(), 4000);
    t.add_time();
    assert_eq!(t.remaining(), 500);
    for _ in 0..7 {
        t.add_time();
    }
    assert_eq!(t.remaining(), 4000);
}

#[test]
fn add_time_clamps_to_full_ring() {
    let mut t = timer_with(1000);
    for _ in 0..7 {
        t.add_time();
    }
    t.update_sampled(0, true, false);
    t.update_sampled(500, true, false);
    assert_eq!(t.remaining(), 6500);
    t.add_time();
    assert_eq!(t.remaining(), 7500);
    t.add_time();
    assert_eq!(t.remaining(), 8000);
}

#[test]
fn add_time_with_largest_period() {
    let period = u32::MAX / 8;
    let mut t = timer_with(period);
    for _ in 0..8 {
        t.add_time();
    }
    assert_eq!(t.remaining(), period * 8);
    t.add_time();
    assert_eq!(t.remaining(), period);
}

#[test]
fn boundary_directive_accounts_for_budget() {
    let mut t = timer_with(1000);
    for _ in 0..3 {
        t.add_time();
    }
    assert_eq!(t.directive(), (3, BlinkKind::NoBlink));
    t.update_sampled(0, true, false);
    let (solid, blink) = t.directive();
    assert_eq!((solid, blink), (2, BlinkKind::Slow));
    assert_eq!(solid as u32 * 1000 + 1000, 3000);
}

#[test]
fn paused_mid_segment_rounds_up() {
    let mut t = timer_with(1000);
    t.add_time();
    t.add_time();
    t.update_sampled(0, true, false);
    t.update_sampled(1, false, false);
    t.update_sampled(501, true, false);
    assert!(!t.is_running());
    assert_eq!(t.remaining(), 1499);
    assert_eq!(t.directive(), (2, BlinkKind::NoBlink));
}

#[test]
fn running_mid_segment_blinks_the_next_light() {
    let mut t = timer_with(900);
    for _ in 0..3 {
        t.add_time();
    }
    t.update_sampled(0, true, false);
    t.update_sampled(100, true, false);
    assert_eq!(t.remaining(), 2600);
    assert_eq!(t.directive(), (2, BlinkKind::Slow));
    t.update_sampled(700, true, false);
    assert_eq!(t.remaining(), 2000);
    assert_eq!(t.directive(), (2, BlinkKind::Fast));
}

#[test]
fn budget_stops_at_zero() {
    let mut t = timer_with(1000);
    t.add_time();
    t.update_sampled(0, true, false);
    t.update_sampled(5000, true, false);
    assert_eq!(t.remaining(), 0);
    assert!(t.is_running());
    assert_eq!(t.directive(), (0, BlinkKind::All));
}

#[test]
fn elapsed_time_is_taken_across_a_clock_wrap() {
    let mut t = timer_with(1000);
    t.add_time();
    t.update_sampled(u32::MAX - 99, true, false);
    t.update_sampled(100, true, false);
    assert_eq!(t.remaining(), 800);
}

#[test]
fn sampled_contacts_drive_the_timer() {
    let start_flag = Rc::new(Cell::new(false));
    let time_flag = Rc::new(Cell::new(false));
    let start = Button::new(Contact(start_flag.clone()), 50);
    let time = Button::new(Contact(time_flag.clone()), 50);
    let mut t = SimpleTimer::new(start, time, 1000);
    time_flag.set(true);
    t.update(0);
    assert_eq!(t.remaining(), 1000);
    time_flag.set(false);
    t.update(20);
    t.update(60);
    time_flag.set(true);
    t.update(80);
    assert_eq!(t.remaining(), 1000);
    t.update(120);
    assert_eq!(t.remaining(), 2000);
    start_flag.set(true);
    t.update(200);
    assert!(t.is_running());
    t.update(700);
    assert_eq!(t.remaining(), 1500);
    assert_eq!(t.period(), 1000);
}

#[test]
fn display_follows_the_timer() {
    let mut t = timer_with(1000);
    t.add_time();
    t.add_time();
    t.update_sampled(0, false, false);
    let lit: Vec<bool> = (0..8).map(|i| t.display().led(i)).collect();
    assert_eq!(lit, vec![true, true, false, false, false, false, false, false]);
}

#[test]
fn stopping_and_adding_time_after_expiry_shows_a_full_light() {
    let mut t = timer_with(1000);
    t.add_time();
    t.update_sampled(0, true, false);
    t.update_sampled(500, false, false);
    t.update_sampled(1000, false, false);
    assert_eq!(t.directive(), (0, BlinkKind::All));
    t.update_sampled(1100, true, true);
    assert!(!t.is_running());
    assert_eq!(t.remaining(), 1000);
    assert_eq!(t.directive(), (1, BlinkKind::NoBlink));
    let lit: Vec<bool> = (0..8).map(|i| t.display().led(i)).collect();
    assert_eq!(lit, vec![true, false, false, false, false, false, false, false]);
}
