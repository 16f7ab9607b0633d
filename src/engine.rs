use vstd::prelude::*;

use crate::button::{Button, ButtonEvent, ButtonModel, PushButton};
use crate::display::{BlinkKind, CompassDisplay, DisplayModel, RING_SIZE};
use crate::Milliseconds;

verus! {

/// The budget that a press of the add-time button leaves: one more segment,
/// up to a full ring; from a full ring, back to one segment.
pub open spec fn added_time(remaining: Milliseconds, period: Milliseconds) -> Milliseconds {
    let max = period * 8;
    if remaining >= max {
        period
    } else if remaining + period > max {
        max as Milliseconds
    } else {
        (remaining + period) as Milliseconds
    }
}

/// The budget left at `now` when it was `remaining` at `was` and the timer
/// ran in between: the clock may have wrapped, the budget stops at 0.
pub open spec fn decayed(remaining: Milliseconds, was: Milliseconds, now: Milliseconds) -> Milliseconds {
    remaining.saturating_sub(now.wrapping_sub(was))
}

/// The render directive for a budget: how many lights are solid and how the
/// display blinks.
pub open spec fn directive(remaining: Milliseconds, period: Milliseconds, running: bool) -> (
    usize,
    BlinkKind,
) {
    let til_next = remaining % period;
    let whole = remaining / period;
    if til_next == 0 {
        if running {
            if remaining > 0 {
                ((whole - 1) as usize, BlinkKind::Slow)
            } else {
                (0, BlinkKind::All)
            }
        } else {
            (whole as usize, BlinkKind::NoBlink)
        }
    } else if !running {
        ((whole + 1) as usize, BlinkKind::NoBlink)
    } else if til_next <= period / 3 {
        (whole as usize, BlinkKind::Fast)
    } else {
        (whole as usize, BlinkKind::Slow)
    }
}

/// The abstract state of the countdown engine.
pub struct TimerModel {
    pub start: ButtonModel,
    pub time: ButtonModel,
    /// The time of the last update.
    pub was: Milliseconds,
    pub display: DisplayModel,
    pub running: bool,
    pub remaining: Milliseconds,
    /// The time each light stands for.
    pub period: Milliseconds,
    /// How much of the last segment blinks quickly.
    pub fast_time: Milliseconds,
}

impl TimerModel {
    pub open spec fn wf(self) -> bool {
        &&& 0 < self.period
        &&& self.period * 8 <= Milliseconds::MAX
        &&& self.remaining <= self.period * 8
        &&& self.fast_time == self.period / 3
        &&& self.start.wf()
        &&& self.time.wf()
        &&& self.display.wf()
    }

    /// The render directive for the current state.
    pub open spec fn directive(self) -> (usize, BlinkKind) {
        directive(self.remaining, self.period, self.running)
    }

    /// One update at `now`, where the two contacts would read
    /// `start_pressed` and `time_pressed`.
    ///
    /// Elapsed time is taken from the budget first, then a push of the
    /// start/stop button flips `running`, then a push of the add-time button
    /// adds time, and the display renders the result.
    pub open spec fn next(self, now: Milliseconds, start_pressed: bool, time_pressed: bool) -> TimerModel {
        let remaining = if self.running {
            decayed(self.remaining, self.was, now)
        } else {
            self.remaining
        };
        let (start, start_event) = self.start.next(now, start_pressed);
        let running = if start_event is Push {
            !self.running
        } else {
            self.running
        };
        let (time, time_event) = self.time.next(now, time_pressed);
        let remaining = if time_event is Push {
            added_time(remaining, self.period)
        } else {
            remaining
        };
        let (solid, blink) = directive(remaining, self.period, running);
        TimerModel {
            start,
            time,
            was: now,
            display: self.display.next(now, solid, blink),
            running,
            remaining,
            ..self
        }
    }
}

/// A countdown timer driven by two buttons and shown on the ring.
pub struct SimpleTimer<S, T> {
    start_button: Button<S>,
    time_button: Button<T>,
    /// The last time this updated.
    was: Milliseconds,
    display: CompassDisplay,
    is_running: bool,
    time_remaining: Milliseconds,
    /// Length of time each light represents.
    period: Milliseconds,
    /// How much of the latest period to spend blinking quickly.
    fast_time: Milliseconds,
}

impl<S: PushButton, T: PushButton> View for SimpleTimer<S, T> {
    type V = TimerModel;

    closed spec fn view(&self) -> TimerModel {
        TimerModel {
            start: self.start_button@,
            time: self.time_button@,
            was: self.was,
            display: self.display@,
            running: self.is_running,
            remaining: self.time_remaining,
            period: self.period,
            fast_time: self.fast_time,
        }
    }
}

impl<S: PushButton, T: PushButton> SimpleTimer<S, T> {
    /// Creates a stopped timer with no time on it, where each light stands
    /// for `period` ms.
    pub fn new(start: Button<S>, time: Button<T>, period: Milliseconds) -> (r: SimpleTimer<S, T>)
        requires
            start@.wf(),
            time@.wf(),
            0 < period,
            period * 8 <= Milliseconds::MAX,
        ensures
            r@.wf(),
            r@ == (TimerModel {
                start: start@,
                time: time@,
                was: 0,
                display: DisplayModel::initial(),
                running: false,
                remaining: 0,
                period,
                fast_time: period / 3,
            }),
    {
        SimpleTimer {
            start_button: start,
            time_button: time,
            was: 0,
            display: CompassDisplay::new(),
            is_running: false,
            time_remaining: 0,
            period,
            fast_time: period / 3,
        }
    }

    /// Advances the timer to `now`: samples both buttons, applies their
    /// pushes and renders the display.
    pub fn update(&mut self, now: Milliseconds)
        requires
            old(self)@.wf(),
        ensures
            final(self)@.wf(),
            exists|start_pressed: bool, time_pressed: bool|
                final(self)@ == old(self)@.next(now, start_pressed, time_pressed),
    {
        let ghost start = self@;
        self.decay(now);
        let start_event = self.start_button.update(now);
        let ghost sp = choose|p: bool| (self.start_button@, start_event) == start.start.next(now, p);
        let time_event = self.time_button.update(now);
        let ghost tp = choose|p: bool| (self.time_button@, time_event) == start.time.next(now, p);
        self.apply(now, start_event, time_event);
        assert(self@ == start.next(now, sp, tp));
    }

    /// Like `update`, with the two flags standing for what the start/stop
    /// and the add-time contacts read.
    pub fn update_sampled(&mut self, now: Milliseconds, start_pressed: bool, time_pressed: bool)
        requires
            old(self)@.wf(),
        ensures
            final(self)@.wf(),
            final(self)@ == old(self)@.next(now, start_pressed, time_pressed),
    {
        self.decay(now);
        let start_event = self.start_button.update_sampled(now, start_pressed);
        let time_event = self.time_button.update_sampled(now, time_pressed);
        self.apply(now, start_event, time_event);
    }

    /// Takes the time elapsed since the last update from a running budget.
    fn decay(&mut self, now: Milliseconds)
        requires
            old(self)@.wf(),
        ensures
            final(self)@.wf(),
            final(self)@ == (TimerModel {
                remaining: if old(self)@.running {
                    decayed(old(self)@.remaining, old(self)@.was, now)
                } else {
                    old(self)@.remaining
                },
                ..old(self)@
            }),
    {
        if self.is_running {
            self.time_remaining = self.time_remaining.saturating_sub(now.wrapping_sub(self.was));
        }
    }

    /// Applies the button events of an update and renders the display.
    fn apply(&mut self, now: Milliseconds, start_event: ButtonEvent, time_event: ButtonEvent)
        requires
            old(self)@.wf(),
        ensures
            final(self)@.wf(),
            ({
                let running = if start_event is Push {
                    !old(self)@.running
                } else {
                    old(self)@.running
                };
                let remaining = if time_event is Push {
                    added_time(old(self)@.remaining, old(self)@.period)
                } else {
                    old(self)@.remaining
                };
                let (solid, blink) = directive(remaining, old(self)@.period, running);
                final(self)@ == (TimerModel {
                    was: now,
                    display: old(self)@.display.next(now, solid, blink),
                    running,
                    remaining,
                    ..old(self)@
                })
            }),
    {
        if start_event == ButtonEvent::Push {
            self.is_running = !self.is_running;
        }
        if time_event == ButtonEvent::Push {
            self.add_time();
        }
        self.update_display(now);
        self.was = now;
    }

    /// Adds one period to the budget, up to a full ring; from a full ring
    /// the budget goes back to one period.
    pub fn add_time(&mut self)
        requires
            old(self)@.wf(),
        ensures
            final(self)@.wf(),
            final(self)@ == (TimerModel {
                remaining: added_time(old(self)@.remaining, old(self)@.period),
                ..old(self)@
            }),
    {
        let max = self.period * 8;
        if self.time_remaining >= max {
            self.time_remaining = self.period;
        } else {
            if self.time_remaining > max - self.period {
                self.time_remaining = max;
            } else {
                self.time_remaining = self.time_remaining + self.period;
            }
        }
    }

    /// The render directive for the current budget.
    pub fn directive(&self) -> (r: (usize, BlinkKind))
        requires
            self@.wf(),
        ensures
            r == self@.directive(),
            DisplayModel::valid_frame(r.0, r.1),
    {
        let til_next = (self.time_remaining % self.period) as usize;
        let whole = (self.time_remaining / self.period) as usize;
        proof {
            lemma_directive_is_valid_frame(self.time_remaining, self.period, self.is_running);
        }
        if til_next == 0 {
            if self.is_running {
                if self.time_remaining > 0 {
                    (whole - 1, BlinkKind::Slow)
                } else {
                    (0, BlinkKind::All)
                }
            } else {
                (whole, BlinkKind::NoBlink)
            }
        } else if !self.is_running {
            (whole + 1, BlinkKind::NoBlink)
        } else if til_next <= self.fast_time as usize {
            (whole, BlinkKind::Fast)
        } else {
            (whole, BlinkKind::Slow)
        }
    }

    /// Renders the current budget.
    fn update_display(&mut self, now: Milliseconds)
        requires
            old(self)@.wf(),
        ensures
            final(self)@.wf(),
            final(self)@ == (TimerModel {
                display: old(self)@.display.next(now, old(self)@.directive().0, old(self)@.directive().1),
                ..old(self)@
            }),
    {
        let (solid, blink) = self.directive();
        self.display.update(now, solid, blink);
    }

    /// Whether the countdown is running.
    pub fn is_running(&self) -> (r: bool)
        ensures
            r == self@.running,
    {
        self.is_running
    }

    /// The time left on the budget.
    pub fn remaining(&self) -> (r: Milliseconds)
        ensures
            r == self@.remaining,
    {
        self.time_remaining
    }

    /// The time each light stands for.
    pub fn period(&self) -> (r: Milliseconds)
        ensures
            r == self@.period,
    {
        self.period
    }

    /// The display the timer renders to.
    pub fn display(&self) -> (r: &CompassDisplay)
        ensures
            r@ == self@.display,
    {
        &self.display
    }
}

/// Every budget of at most a full ring gives a frame that the display takes.
pub proof fn lemma_directive_is_valid_frame(remaining: Milliseconds, period: Milliseconds, running: bool)
    requires
        0 < period,
        remaining <= period * 8,
    ensures
        DisplayModel::valid_frame(directive(remaining, period, running).0, directive(remaining, period, running).1),
        remaining % period == 0 && remaining > 0 ==> remaining / period >= 1,
{
    let whole = remaining / period;
    let til_next = remaining % period;
    assert(remaining == whole * period + til_next) by (nonlinear_arith)
        requires
            0 < period,
            whole == remaining / period,
            til_next == remaining % period,
    ;
    assert(whole <= 8) by (nonlinear_arith)
        requires
            0 < period,
            remaining <= period * 8,
            whole == remaining / period,
    ;
    if til_next != 0 {
        assert(whole < 8) by (nonlinear_arith)
            requires
                0 < period,
                remaining <= period * 8,
                remaining == whole * period + til_next,
                0 < til_next < period,
        ;
    }
    if whole == 0 {
        assert(whole * period == 0) by (nonlinear_arith)
            requires
                whole == 0,
        ;
    }
}

/// The budget after `n` presses of the add-time button.
pub open spec fn after_presses(remaining: Milliseconds, period: Milliseconds, n: nat) -> Milliseconds
    decreases n,
{
    if n == 0 {
        remaining
    } else {
        added_time(after_presses(remaining, period, (n - 1) as nat), period)
    }
}

/// Presses on a full ring never leave it stuck at the cap: one press goes
/// back to a single period, and from there the `k`-th press of the next
/// eight gives `k` periods, so the budget cycles through every segment.
pub proof fn lemma_add_time_cycles_from_full(period: Milliseconds, k: nat)
    requires
        0 < period,
        period * 8 <= Milliseconds::MAX,
        1 <= k <= 8,
    ensures
        added_time((period * 8) as Milliseconds, period) == period,
        after_presses((period * 8) as Milliseconds, period, k) == k * period,
    decreases k,
{
    let full = (period * 8) as Milliseconds;
    if k > 1 {
        lemma_add_time_cycles_from_full(period, (k - 1) as nat);
        assert(after_presses(full, period, (k - 1) as nat) == (k - 1) * period);
        assert((k - 1) * period + period == k * period) by (nonlinear_arith);
        assert(k * period <= period * 8) by (nonlinear_arith)
            requires
                k <= 8,
                0 < period,
        ;
        assert((k - 1) * period < period * 8) by (nonlinear_arith)
            requires
                k <= 8,
                0 < period,
        ;
    } else {
        assert(after_presses(full, period, 0) == full);
    }
}

/// The part of the budget that the blinking light stands for: one period
/// for a single blinking light, none otherwise.
pub open spec fn blink_share(blink: BlinkKind, period: Milliseconds) -> int {
    if blink is Fast || blink is Slow {
        period as int
    } else {
        0
    }
}

/// On a segment boundary the render directive accounts for exactly the
/// budget: the solid lights and the blinking light each stand for one
/// period, and none is counted twice or skipped.
pub proof fn lemma_boundary_directive_accounts_for_budget(
    remaining: Milliseconds,
    period: Milliseconds,
    running: bool,
)
    requires
        0 < period,
        remaining <= period * 8,
        remaining % period == 0,
    ensures
        ({
            let (solid, blink) = directive(remaining, period, running);
            solid * period + blink_share(blink, period) == remaining
        }),
{
    let whole = remaining / period;
    assert(remaining == whole * period) by (nonlinear_arith)
        requires
            0 < period,
            whole == remaining / period,
            remaining % period == 0,
    ;
    lemma_directive_is_valid_frame(remaining, period, running);
    if running && remaining > 0 {
        assert((whole - 1) * period + period == whole * period) by (nonlinear_arith);
    } else if running {
        assert(0 * period == 0);
    }
}

} // verus!
