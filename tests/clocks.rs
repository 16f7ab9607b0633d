use timer::systick::{FineClock, Systick};

#[test]
fn reload_for_a_six_ms_tick() {
    let c = Systick::new(8_000_000, 6).unwrap();
    assert_eq!(c.reload(), 47_999);
    assert_eq!(c.period(), 6);
    assert_eq!(c.now(), 0);
}

#[test]
fn out_of_range_periods_give_no_clock() {
    assert!(Systick::new(8_000_000, 0).is_none());
    assert!(Systick::new(1000, 1).is_none());
    assert!(Systick::new(8_000_000, 3000).is_none());
    assert!(Systick::new(8_000_000, 2097).is_some());
    assert!(Systick::new(8_000_000, 2098).is_none());
    assert_eq!(Systick::new(1000, 2).unwrap().reload(), 1);
}

#[test]
fn ticks_advance_by_the_period() {
    let mut c = Systick::new(8_000_000, 20).unwrap();
    c.tick();
    c.tick();
    c.tick();
    assert_eq!(c.now(), 60);
}

#[test]
fn tick_time_rolls_over() {
    let mut c = Systick::new(1000, 16_777_216).unwrap();
    assert_eq!(c.reload(), 16_777_215);
    for _ in 0..255 {
        c.tick();
    }
    assert_eq!(c.now(), 255 * 16_777_216);
    c.tick();
    assert_eq!(c.now(), 0);
}

#[test]
fn fine_clock_counts_across_wraps() {
    let mut c = FineClock::new(1000, 10);
    assert_eq!(c.sample(100, false, 100), 100);
    assert_eq!(c.sample(900, false, 950), 950);
    assert_eq!(c.sample(990, false, 20), 1020);
    assert_eq!(c.sample(500, true, 510), 2510);
    assert_eq!(c.elapsed(), 2510);
    assert_eq!(c.now_ms(), 251);
}

#[test]
fn fine_clock_increases_over_a_wrap_by_one_tick_at_most() {
    let mut c = FineClock::new(1000, 1);
    let mut last = 0u64;
    let mut pos: u32 = 0;
    for step in [300u32, 400, 250, 999, 1000, 1, 600] {
        let next = (pos + step) % 1000;
        let crossed = pos + step >= 1000;
        let now = c.sample(if crossed { next } else { pos }, crossed, next);
        assert!(now > last);
        assert_eq!(now - last, step as u64);
        last = now;
        pos = next;
    }
}

#[test]
fn fine_clock_ignores_a_stale_sample() {
    let mut c = FineClock::new(1000, 1);
    assert_eq!(c.sample(400, false, 400), 400);
    assert_eq!(c.sample(300, false, 350), 400);
}

#[test]
fn fine_clock_treats_both_ends_of_the_counter_as_one_point() {
    let mut c = FineClock::new(1000, 1);
    assert_eq!(c.sample(1000, false, 1000), 1000);
    assert_eq!(c.sample(0, true, 0), 1000);
    assert_eq!(c.sample(5, false, 10), 1010);
    assert_eq!(c.sample(900, true, 20), 2020);
}
