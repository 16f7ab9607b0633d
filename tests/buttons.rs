use std::cell::Cell;
use std::rc::Rc;

use timer::button::{Button, ButtonEvent, FancyButton, MultiButtonEvent, PushButton, DEBOUNCE_DELAY};

struct Contact(Rc<Cell<bool>>);

impl PushButton for Contact {
    fn is_pressed(&self) -> bool {
        self.0.get()
    }
}

struct Idle;

impl PushButton for Idle {
    fn is_pressed(&self) -> bool {
        false
    }
}

#[test]
fn event_levels_and_changes() {
    assert!(ButtonEvent::Push.is_pressed());
    assert!(ButtonEvent::Pressed.is_pressed());
    assert!(!ButtonEvent::Release.is_pressed());
    assert!(!ButtonEvent::NotPressed.is_pressed());
    assert!(ButtonEvent::Push.is_change());
    assert!(ButtonEvent::Release.is_change());
    assert!(!ButtonEvent::Pressed.is_change());
    assert!(!ButtonEvent::NotPressed.is_change());
}

#[test]
fn second_transition_inside_window_gives_no_edge() {
    let mut b = Button::new(Idle, DEBOUNCE_DELAY);
    assert_eq!(b.update_sampled(100, true), ButtonEvent::Push);
    assert_eq!(b.update_sampled(120, false), ButtonEvent::Pressed);
    assert_eq!(b.update_sampled(149, false), ButtonEvent::Pressed);
    assert_eq!(b.update_sampled(150, false), ButtonEvent::Release);
    assert_eq!(b.update_sampled(160, false), ButtonEvent::NotPressed);
}

#[test]
fn zero_window_trusts_every_sample() {
    let mut b = Button::new(Idle, 0);
    assert_eq!(b.update_sampled(0, false), ButtonEvent::NotPressed);
    assert_eq!(b.update_sampled(1, true), ButtonEvent::Push);
    assert_eq!(b.update_sampled(1, false), ButtonEvent::Release);
    assert_eq!(b.update_sampled(2, true), ButtonEvent::Push);
    assert_eq!(b.update_sampled(3, true), ButtonEvent::Pressed);
}

#[test]
fn window_is_not_resampled_while_open() {
    let flag = Rc::new(Cell::new(true));
    let mut b = Button::new(Contact(flag.clone()), 30);
    assert_eq!(b.update(10), ButtonEvent::Push);
    flag.set(false);
    assert_eq!(b.update(20), ButtonEvent::Pressed);
    assert_eq!(b.update(39), ButtonEvent::Pressed);
    assert_eq!(b.update(40), ButtonEvent::Release);
    flag.set(true);
    assert_eq!(b.update(41), ButtonEvent::NotPressed);
    assert_eq!(b.update(70), ButtonEvent::Push);
}

#[test]
fn window_saturates_at_largest_time() {
    let mut b = Button::new(Idle, 100);
    assert_eq!(b.update_sampled(u32::MAX - 10, true), ButtonEvent::Push);
    assert_eq!(b.update_sampled(u32::MAX - 1, false), ButtonEvent::Pressed);
    assert_eq!(b.update_sampled(u32::MAX, false), ButtonEvent::Release);
}

#[test]
fn fancy_single_press() {
    let mut b = FancyButton::new(Idle);
    assert_eq!(b.update_sampled(1000, true), None);
    assert_eq!(b.update_sampled(1100, false), None);
    assert_eq!(b.update_sampled(1120, false), None);
    assert_eq!(b.update_sampled(1300, false), None);
    assert_eq!(b.update_sampled(1400, false), Some(MultiButtonEvent::Press(1)));
    assert_eq!(b.update_sampled(1500, false), Some(MultiButtonEvent::Press(1)));
}

#[test]
fn fancy_double_press() {
    let mut b = FancyButton::new(Idle);
    assert_eq!(b.update_sampled(3000, true), None);
    assert_eq!(b.update_sampled(3100, false), None);
    assert_eq!(b.update_sampled(3200, true), None);
    assert_eq!(b.update_sampled(3300, false), None);
    assert_eq!(b.update_sampled(3400, false), None);
    assert_eq!(b.update_sampled(3600, false), Some(MultiButtonEvent::Press(2)));
}

#[test]
fn fancy_hold_and_release() {
    let flag = Rc::new(Cell::new(true));
    let mut b = FancyButton::new(Contact(flag.clone()));
    assert_eq!(b.update(2000), None);
    assert_eq!(b.update(2500), None);
    assert_eq!(b.update(2800), Some(MultiButtonEvent::Hold(0)));
    flag.set(false);
    assert_eq!(b.update(2900), None);
    assert_eq!(b.update(2950), Some(MultiButtonEvent::Hold(0)));
    assert_eq!(b.update(3000), None);
    assert_eq!(b.update(3100), None);
}
